use vstd::prelude::*;

verus! {

/// The five condition flags, always all defined.
#[derive(Clone, Copy, Debug, PartialEq, Eq, Structural)]
pub struct Flags {
    /// Zero: the result byte is 0.
    pub z: bool,
    /// Sign: bit 7 of the result is set.
    pub s: bool,
    /// Parity: the result has an even number of set bits.
    pub p: bool,
    /// Carry: unsigned 8-bit overflow or borrow.
    pub cy: bool,
    /// Auxiliary carry: overflow or borrow out of the low nibble.
    pub ac: bool,
}

/// Names of the condition flags, as tested by conditional jumps, calls and
/// returns.
#[derive(Clone, Copy, Debug, PartialEq, Eq, Structural)]
pub enum ConditionCodes {
    Z,
    S,
    P,
    CY,
    AC,
}

/// Number of set bits of `v`.
pub open spec fn bit_count(v: nat) -> nat
    decreases v,
{
    if v == 0 {
        0
    } else {
        v % 2 + bit_count(v / 2)
    }
}

/// True iff `v` has an even number of set bits.
pub open spec fn even_parity(v: u8) -> bool {
    bit_count(v as nat) % 2 == 0
}

/// 1 for a set carry, 0 otherwise.
pub open spec fn carry_value(c: bool) -> int {
    if c {
        1
    } else {
        0
    }
}

/// Flags for result byte `r`: Zero, Sign and Parity from `r`, Carry and
/// Auxiliary carry as given.
pub open spec fn result_flags(r: u8, cy: bool, ac: bool) -> Flags {
    Flags { z: r == 0, s: r >= 0x80, p: even_parity(r), cy, ac }
}

/// Truncation of an integer to its low 8 bits.
pub open spec fn low_byte(v: int) -> u8 {
    (v % 256) as u8
}

/// Flags after `a + b + carry_in`.
pub open spec fn add_flags(a: u8, b: u8, carry_in: bool) -> Flags {
    let c = carry_value(carry_in);
    result_flags(low_byte(a + b + c), a + b + c > 0xFF, a % 16 + b % 16 + c > 0xF)
}

/// Flags after `a - b - borrow_in`.
pub open spec fn sub_flags(a: u8, b: u8, borrow_in: bool) -> Flags {
    let c = carry_value(borrow_in);
    result_flags(low_byte(a - b - c), a < b + c, a % 16 < b % 16 + c)
}

/// Flags after incrementing `v`; Carry keeps its value `cy`.
pub open spec fn inr_flags(v: u8, cy: bool) -> Flags {
    result_flags(low_byte(v + 1), cy, v % 16 + 1 > 0xF)
}

/// Flags after decrementing `v`; Carry keeps its value `cy`.
pub open spec fn dcr_flags(v: u8, cy: bool) -> Flags {
    result_flags(low_byte(v - 1), cy, v % 16 < 1)
}

/// Flags after `a & b`: Carry cleared, Auxiliary carry from bit 3 of `a | b`.
pub open spec fn and_flags(a: u8, b: u8) -> Flags {
    result_flags(a & b, false, ((a | b) / 8) % 2 == 1)
}

/// Flags after an OR or XOR with result `r`: Carry and Auxiliary carry
/// cleared.
pub open spec fn or_flags(r: u8) -> Flags {
    result_flags(r, false, false)
}

/// The program status word: bit 7 Sign, bit 6 Zero, bit 4 Auxiliary carry,
/// bit 2 Parity, bit 1 always set, bit 0 Carry; bits 5 and 3 clear.
pub open spec fn psw_of(f: Flags) -> u8 {
    (128 * carry_value(f.s) + 64 * carry_value(f.z) + 16 * carry_value(f.ac) + 4 * carry_value(f.p)
        + 2 + carry_value(f.cy)) as u8
}

/// Bit `i` (for `i` in 0..8) of `b`.
pub open spec fn bit_set(b: u8, i: int) -> bool {
    (b as int / pow2_int(i)) % 2 == 1
}

/// `2^i` for small `i`.
pub open spec fn pow2_int(i: int) -> int
    decreases i,
{
    if i <= 0 {
        1
    } else {
        2 * pow2_int(i - 1)
    }
}

/// The flags held in a program status word.
pub open spec fn flags_of_psw(b: u8) -> Flags {
    Flags { s: bit_set(b, 7), z: bit_set(b, 6), ac: bit_set(b, 4), p: bit_set(b, 2), cy: bit_set(b, 0) }
}

/// The value of the flag that `c` names.
pub open spec fn flag_value(f: Flags, c: ConditionCodes) -> bool {
    match c {
        ConditionCodes::Z => f.z,
        ConditionCodes::S => f.s,
        ConditionCodes::P => f.p,
        ConditionCodes::CY => f.cy,
        ConditionCodes::AC => f.ac,
    }
}

proof fn lemma_bit_count_le(v: nat)
    ensures
        bit_count(v) <= v,
    decreases v,
{
    if v > 0 {
        lemma_bit_count_le(v / 2);
    }
}

/// Parity of `v`: true iff `v` has an even number of set bits.
pub fn parity(v: u8) -> (r: bool)
    ensures
        r == even_parity(v),
{
    let mut x: u8 = v;
    let mut ones: u8 = 0;
    proof {
        lemma_bit_count_le(v as nat);
    }
    while x > 0
        invariant
            bit_count(v as nat) == ones + bit_count(x as nat),
            bit_count(v as nat) <= 255,
        decreases x,
    {
        ones = ones + x % 2;
        x = x / 2;
    }
    ones % 2 == 0
}

/// Flags for result byte `r` with the given Carry and Auxiliary carry.
fn flags_for_result(r: u8, cy: bool, ac: bool) -> (f: Flags)
    ensures
        f == result_flags(r, cy, ac),
{
    Flags { z: r == 0, s: r >= 0x80, p: parity(r), cy, ac }
}

/// Flags of the addition `val1 + val2 + carry`.
pub fn update_conditions_add(val1: u8, val2: u8, carry: bool) -> (f: Flags)
    ensures
        f == add_flags(val1, val2, carry),
{
    let c: u16 = if carry {
        1
    } else {
        0
    };
    let sum: u16 = val1 as u16 + val2 as u16 + c;
    let nibbles: u8 = val1 % 16 + val2 % 16 + c as u8;
    flags_for_result((sum % 256) as u8, sum > 0xff, nibbles > 0xf)
}

/// Flags of the subtraction `val1 - val2 - borrow`.
pub fn update_conditions_sub(val1: u8, val2: u8, borrow: bool) -> (f: Flags)
    ensures
        f == sub_flags(val1, val2, borrow),
{
    let c: u16 = if borrow {
        1
    } else {
        0
    };
    let subtrahend: u16 = val2 as u16 + c;
    let diff: u16 = if (val1 as u16) >= subtrahend {
        val1 as u16 - subtrahend
    } else {
        val1 as u16 + 256 - subtrahend
    };
    assert(diff as u8 == low_byte(val1 - val2 - carry_value(borrow)));
    flags_for_result(diff as u8, (val1 as u16) < subtrahend, ((val1 % 16) as u16) < (val2 % 16) as u16 + c)
}

/// Flags of incrementing `val`; Carry stays `cy`.
pub fn update_conditions_inc(val: u8, cy: bool) -> (f: Flags)
    ensures
        f == inr_flags(val, cy),
{
    let r: u8 = if val == 0xff {
        0
    } else {
        val + 1
    };
    flags_for_result(r, cy, val % 16 == 0xf)
}

/// Flags of decrementing `val`; Carry stays `cy`.
pub fn update_conditions_dcr(val: u8, cy: bool) -> (f: Flags)
    ensures
        f == dcr_flags(val, cy),
{
    let r: u8 = if val == 0 {
        0xff
    } else {
        val - 1
    };
    flags_for_result(r, cy, val % 16 == 0)
}

/// Flags of `val1 & val2`.
pub fn update_conditions_and(val1: u8, val2: u8) -> (f: Flags)
    ensures
        f == and_flags(val1, val2),
{
    flags_for_result(val1 & val2, false, ((val1 | val2) / 8) % 2 == 1)
}

/// Flags of an OR or XOR whose result is `res`.
pub fn update_conditions_or(res: u8) -> (f: Flags)
    ensures
        f == or_flags(res),
{
    flags_for_result(res, false, false)
}

impl Flags {
    /// All flags clear, as at reset.
    pub fn cleared() -> (f: Flags)
        ensures
            f == (Flags { z: false, s: false, p: false, cy: false, ac: false }),
    {
        Flags { z: false, s: false, p: false, cy: false, ac: false }
    }

    /// The value of the flag that `code` names.
    pub fn get(&self, code: ConditionCodes) -> (r: bool)
        ensures
            r == flag_value(*self, code),
    {
        match code {
            ConditionCodes::Z => self.z,
            ConditionCodes::S => self.s,
            ConditionCodes::P => self.p,
            ConditionCodes::CY => self.cy,
            ConditionCodes::AC => self.ac,
        }
    }

    /// These flags packed into a program status word.
    pub fn to_psw(&self) -> (r: u8)
        ensures
            r == psw_of(*self),
    {
        let mut r: u8 = 2;
        if self.s {
            r = r + 128;
        }
        if self.z {
            r = r + 64;
        }
        if self.ac {
            r = r + 16;
        }
        if self.p {
            r = r + 4;
        }
        if self.cy {
            r = r + 1;
        }
        r
    }

    /// The flags held in program status word `psw`.
    pub fn from_psw(psw: u8) -> (f: Flags)
        ensures
            f == flags_of_psw(psw),
    {
        proof {
            reveal_with_fuel(pow2_int, 8);
        }
        Flags {
            s: (psw / 128) % 2 == 1,
            z: (psw / 64) % 2 == 1,
            ac: (psw / 16) % 2 == 1,
            p: (psw / 4) % 2 == 1,
            cy: psw % 2 == 1,
        }
    }
}

/// Unpacking a packed status word gives back the flags.
pub proof fn lemma_psw_round_trip(f: Flags)
    ensures
        flags_of_psw(psw_of(f)) == f,
{
    reveal_with_fuel(pow2_int, 8);
    let b = psw_of(f) as int;
    let (s, z, ac, p, cy) = (
        carry_value(f.s),
        carry_value(f.z),
        carry_value(f.ac),
        carry_value(f.p),
        carry_value(f.cy),
    );
    assert(b == 128 * s + 64 * z + 16 * ac + 4 * p + 2 + cy);
    assert(b / 128 == s);
    assert(b / 64 == 2 * s + z);
    assert(b / 16 == 8 * s + 4 * z + ac);
    assert(b / 4 == 32 * s + 16 * z + 4 * ac + p);
    assert(b % 2 == cy);
}

} // verus!
