use vstd::prelude::*;

use crate::cpu::{Cpu, CpuError, CpuState};
use crate::flags::{
    add_flags, and_flags, carry_value, dcr_flags, flag_value, flags_of_psw, inr_flags, low_byte,
    or_flags, result_flags, sub_flags, update_conditions_add, update_conditions_and,
    update_conditions_dcr, update_conditions_inc, update_conditions_or, update_conditions_sub,
    ConditionCodes, Flags,
};
use crate::opcodes::{AluOp, Opcodes};
use crate::registers::{next_register, Registers};

verus! {

// ---------------------------------------------------------------------------
// Semantics
// ---------------------------------------------------------------------------
/// The 16-bit value of operand bytes `lo`, `hi` (little-endian).
pub open spec fn word(lo: u8, hi: u8) -> u16 {
    (hi * 256 + lo) as u16
}

/// The 16-bit value held in two operand bytes, low byte first.
pub open spec fn operand_word(operands: [u8; 2]) -> u16 {
    word(operands@[0], operands@[1])
}

/// The state an outcome leaves: the new state on success, `s` unchanged on
/// failure.
pub open spec fn applied(s: CpuState, r: Result<CpuState, CpuError>) -> CpuState {
    match r {
        Ok(t) => t,
        Err(_) => s,
    }
}

/// What a handler reports for an outcome.
pub open spec fn outcome(r: Result<CpuState, CpuError>) -> Result<(), CpuError> {
    match r {
        Ok(_) => Ok(()),
        Err(e) => Err(e),
    }
}

/// The accumulator combined with operand `v`: result in A (but for compare)
/// and flags per the operation.
#[verifier::opaque]
pub open spec fn alu_spec(s: CpuState, op: AluOp, v: u8) -> CpuState {
    let a = s.a;
    let cy = s.flags.cy;
    match op {
        AluOp::Add => CpuState { a: low_byte(a + v), flags: add_flags(a, v, false), ..s },
        AluOp::Adc => CpuState {
            a: low_byte(a + v + carry_value(cy)),
            flags: add_flags(a, v, cy),
            ..s
        },
        AluOp::Sub => CpuState { a: low_byte(a - v), flags: sub_flags(a, v, false), ..s },
        AluOp::Sbb => CpuState {
            a: low_byte(a - v - carry_value(cy)),
            flags: sub_flags(a, v, cy),
            ..s
        },
        AluOp::Ana => CpuState { a: a & v, flags: and_flags(a, v), ..s },
        AluOp::Xra => CpuState { a: a ^ v, flags: or_flags(a ^ v), ..s },
        AluOp::Ora => CpuState { a: a | v, flags: or_flags(a | v), ..s },
        AluOp::Cmp => CpuState { flags: sub_flags(a, v, false), ..s },
    }
}

/// Increment of register `r`; Carry is kept.
#[verifier::opaque]
pub open spec fn inr_r_spec(s: CpuState, r: Registers) -> CpuState {
    s.set_reg(r, low_byte(s.reg(r) + 1)).with_flags(inr_flags(s.reg(r), s.flags.cy))
}

/// Decrement of register `r`; Carry is kept.
#[verifier::opaque]
pub open spec fn dcr_r_spec(s: CpuState, r: Registers) -> CpuState {
    s.set_reg(r, low_byte(s.reg(r) - 1)).with_flags(dcr_flags(s.reg(r), s.flags.cy))
}

/// Increment of the byte at H:L; Carry is kept.
#[verifier::opaque]
pub open spec fn inr_m_spec(s: CpuState) -> CpuState {
    let v = s.byte(s.hl() as int);
    s.write(s.hl() as int, low_byte(v + 1)).with_flags(inr_flags(v, s.flags.cy))
}

/// Decrement of the byte at H:L; Carry is kept.
#[verifier::opaque]
pub open spec fn dcr_m_spec(s: CpuState) -> CpuState {
    let v = s.byte(s.hl() as int);
    s.write(s.hl() as int, low_byte(v - 1)).with_flags(dcr_flags(v, s.flags.cy))
}

/// Truncation of an integer to 16 bits.
pub open spec fn low_word(v: int) -> u16 {
    (v % 0x10000) as u16
}

/// H:L plus `v` into H:L; Carry set iff the 16-bit sum overflows.
#[verifier::opaque]
pub open spec fn dad_spec(s: CpuState, v: u16) -> CpuState {
    let sum = s.hl() + v;
    s.set_pair(Registers::H, low_word(sum)).with_flags(Flags { cy: sum > 0xFFFF, ..s.flags })
}

/// Decimal adjust of the accumulator: add 0x06 when Auxiliary carry is set or
/// the low nibble exceeds 9; add 0x60 and set Carry when Carry is set, the
/// high nibble exceeds 9, or it is 9 or more while the low nibble exceeds 9.
#[verifier::opaque]
pub open spec fn daa_spec(s: CpuState) -> CpuState {
    let a = s.a;
    let lsb = a % 16;
    let msb = a / 16;
    let low = s.flags.ac || lsb > 9;
    let high = s.flags.cy || msb > 9 || (msb >= 9 && lsb > 9);
    let adjust = (if low {
        6int
    } else {
        0
    }) + (if high {
        0x60int
    } else {
        0
    });
    let r = low_byte(a + adjust);
    CpuState { a: r, flags: result_flags(r, high, lsb + adjust % 16 > 0xF), ..s }
}

/// The accumulator and Carry after a rotate; other flags kept.
pub open spec fn rotated(s: CpuState, a: int, cy: bool) -> CpuState {
    CpuState { a: a as u8, flags: Flags { cy, ..s.flags }, ..s }
}

#[verifier::opaque]
pub open spec fn rlc_spec(s: CpuState) -> CpuState {
    rotated(s, (s.a * 2) % 256 + s.a / 128, s.a >= 128)
}

#[verifier::opaque]
pub open spec fn rrc_spec(s: CpuState) -> CpuState {
    rotated(s, s.a / 2 + (s.a % 2) * 128, s.a % 2 == 1)
}

#[verifier::opaque]
pub open spec fn ral_spec(s: CpuState) -> CpuState {
    rotated(s, (s.a * 2) % 256 + carry_value(s.flags.cy), s.a >= 128)
}

#[verifier::opaque]
pub open spec fn rar_spec(s: CpuState) -> CpuState {
    rotated(s, s.a / 2 + 128 * carry_value(s.flags.cy), s.a % 2 == 1)
}

/// Two bytes at `addr`, low byte first, are inside memory.
pub open spec fn two_bytes_fit(addr: int) -> bool {
    addr + 1 <= 0xFFFF
}

/// The error for a two-byte access at `addr` that runs past memory.
pub open spec fn past_end(addr: int) -> CpuError {
    CpuError::AddressError { address: (addr + 1) as i32 }
}

/// The 16-bit value stored at `addr`, low byte first.
pub open spec fn word_at(s: CpuState, addr: int) -> u16 {
    word(s.byte(addr), s.byte(addr + 1))
}

/// `SHLD`: L to `addr`, H to `addr + 1`.
#[verifier::opaque]
pub open spec fn shld_spec(s: CpuState, addr: u16) -> Result<CpuState, CpuError> {
    if two_bytes_fit(addr as int) {
        Ok(s.write(addr as int, s.l).write(addr + 1, s.h))
    } else {
        Err(past_end(addr as int))
    }
}

/// `LHLD`: L from `addr`, H from `addr + 1`.
#[verifier::opaque]
pub open spec fn lhld_spec(s: CpuState, addr: u16) -> Result<CpuState, CpuError> {
    if two_bytes_fit(addr as int) {
        Ok(CpuState { l: s.byte(addr as int), h: s.byte(addr + 1), ..s })
    } else {
        Err(past_end(addr as int))
    }
}

/// Push of `v`: high byte to `sp - 1`, low byte to `sp - 2`, then `sp -= 2`.
#[verifier::opaque]
pub open spec fn push_spec(s: CpuState, v: u16) -> Result<CpuState, CpuError> {
    if s.sp >= 2 {
        Ok(s.write(s.sp - 1, (v / 256) as u8).write(s.sp - 2, (v % 256) as u8).with_sp((s.sp - 2) as u16))
    } else {
        Err(CpuError::AddressError { address: (s.sp - 2) as i32 })
    }
}

/// The stack pointer after a pop; it wraps past 0xFFFF.
pub open spec fn popped_sp(s: CpuState) -> u16 {
    low_word(s.sp + 2)
}

/// The word on top of the stack.
pub open spec fn stack_top(s: CpuState) -> u16 {
    word_at(s, s.sp as int)
}

/// A pop: the word on top of the stack, or the error when it runs past memory.
#[verifier::opaque]
pub open spec fn pop_spec(s: CpuState) -> Result<(u16, CpuState), CpuError> {
    if two_bytes_fit(s.sp as int) {
        Ok((stack_top(s), s.with_sp(popped_sp(s))))
    } else {
        Err(past_end(s.sp as int))
    }
}

/// Call of `target`: push the (already advanced) program counter, then jump.
#[verifier::opaque]
pub open spec fn call_spec(s: CpuState, target: u16) -> Result<CpuState, CpuError> {
    match push_spec(s, s.pc) {
        Ok(t) => Ok(t.with_pc(target)),
        Err(e) => Err(e),
    }
}

#[verifier::opaque]
pub open spec fn ret_spec(s: CpuState) -> Result<CpuState, CpuError> {
    match pop_spec(s) {
        Ok((v, t)) => Ok(t.with_pc(v)),
        Err(e) => Err(e),
    }
}

/// The condition `code == comp` holds on the flags.
pub open spec fn condition_holds(s: CpuState, code: ConditionCodes, comp: bool) -> bool {
    flag_value(s.flags, code) == comp
}

#[verifier::opaque]
pub open spec fn push_rp_spec(s: CpuState, src: Registers) -> Result<CpuState, CpuError> {
    push_spec(s, s.pair(src))
}

/// Push of the accumulator (high byte) and the status word (low byte).
#[verifier::opaque]
pub open spec fn push_psw_spec(s: CpuState) -> Result<CpuState, CpuError> {
    push_spec(s, word(s.psw(), s.a))
}

#[verifier::opaque]
pub open spec fn pop_rp_spec(s: CpuState, dest: Registers) -> Result<CpuState, CpuError> {
    match pop_spec(s) {
        Ok((v, t)) => Ok(t.set_pair(dest, v)),
        Err(e) => Err(e),
    }
}

/// Pop into the status word (low byte) and the accumulator (high byte).
#[verifier::opaque]
pub open spec fn pop_psw_spec(s: CpuState) -> Result<CpuState, CpuError> {
    match pop_spec(s) {
        Ok((v, t)) => Ok(CpuState { a: (v / 256) as u8, flags: flags_of_psw((v % 256) as u8), ..t }),
        Err(e) => Err(e),
    }
}

/// Exchange of L with the byte at `sp` and H with the byte at `sp + 1`.
#[verifier::opaque]
pub open spec fn xthl_spec(s: CpuState) -> Result<CpuState, CpuError> {
    if two_bytes_fit(s.sp as int) {
        Ok(
            CpuState {
                l: s.byte(s.sp as int),
                h: s.byte(s.sp + 1),
                mem: s.mem.update(s.sp as int, s.l).update(s.sp + 1, s.h),
                ..s
            },
        )
    } else {
        Err(past_end(s.sp as int))
    }
}

/// What executing `op` with operand bytes `lo`, `hi` does to `s`.
pub open spec fn execute_spec(s: CpuState, op: Opcodes, lo: u8, hi: u8) -> Result<CpuState, CpuError> {
    let w = word(lo, hi);
    let hl = s.hl() as int;
    match op {
        Opcodes::Nop => Ok(s),
        Opcodes::Lxi(r) => Ok(s.set_pair(r, w)),
        Opcodes::LxiSp => Ok(s.with_sp(w)),
        Opcodes::Stax(r) => Ok(s.write(s.pair(r) as int, s.a)),
        Opcodes::Ldax(r) => Ok(s.set_reg(Registers::A, s.byte(s.pair(r) as int))),
        Opcodes::Shld => shld_spec(s, w),
        Opcodes::Lhld => lhld_spec(s, w),
        Opcodes::Sta => Ok(s.write(w as int, s.a)),
        Opcodes::Lda => Ok(s.set_reg(Registers::A, s.byte(w as int))),
        Opcodes::Inx(r) => Ok(s.set_pair(r, low_word(s.pair(r) + 1))),
        Opcodes::InxSp => Ok(s.with_sp(low_word(s.sp + 1))),
        Opcodes::Dcx(r) => Ok(s.set_pair(r, low_word(s.pair(r) - 1))),
        Opcodes::DcxSp => Ok(s.with_sp(low_word(s.sp - 1))),
        Opcodes::Dad(r) => Ok(dad_spec(s, s.pair(r))),
        Opcodes::DadSp => Ok(dad_spec(s, s.sp)),
        Opcodes::Inr(r) => Ok(inr_r_spec(s, r)),
        Opcodes::InrM => Ok(inr_m_spec(s)),
        Opcodes::Dcr(r) => Ok(dcr_r_spec(s, r)),
        Opcodes::DcrM => Ok(dcr_m_spec(s)),
        Opcodes::Mvi(r) => Ok(s.set_reg(r, lo)),
        Opcodes::MviM => Ok(s.write(hl, lo)),
        Opcodes::Rlc => Ok(rlc_spec(s)),
        Opcodes::Rrc => Ok(rrc_spec(s)),
        Opcodes::Ral => Ok(ral_spec(s)),
        Opcodes::Rar => Ok(rar_spec(s)),
        Opcodes::Daa => Ok(daa_spec(s)),
        Opcodes::Cma => Ok(s.set_reg(Registers::A, !s.a)),
        Opcodes::Stc => Ok(s.with_flags(Flags { cy: true, ..s.flags })),
        Opcodes::Cmc => Ok(s.with_flags(Flags { cy: !s.flags.cy, ..s.flags })),
        Opcodes::MovRR(d, src) => Ok(s.set_reg(d, s.reg(src))),
        Opcodes::MovRM(d) => Ok(s.set_reg(d, s.byte(hl))),
        Opcodes::MovMR(src) => Ok(s.write(hl, s.reg(src))),
        Opcodes::AluR(o, r) => Ok(alu_spec(s, o, s.reg(r))),
        Opcodes::AluM(o) => Ok(alu_spec(s, o, s.byte(hl))),
        Opcodes::AluI(o) => Ok(alu_spec(s, o, lo)),
        Opcodes::Rcc(c, comp) => if condition_holds(s, c, comp) {
            ret_spec(s)
        } else {
            Ok(s)
        },
        Opcodes::Pop(r) => pop_rp_spec(s, r),
        Opcodes::PopPsw => pop_psw_spec(s),
        Opcodes::Ret => ret_spec(s),
        Opcodes::Pchl => Ok(s.with_pc(s.hl())),
        Opcodes::Sphl => Ok(s.with_sp(s.hl())),
        Opcodes::Jcc(c, comp) => Ok(
            if condition_holds(s, c, comp) {
                s.with_pc(w)
            } else {
                s
            },
        ),
        Opcodes::Jmp => Ok(s.with_pc(w)),
        Opcodes::Xthl => xthl_spec(s),
        Opcodes::Xchg => Ok(CpuState { h: s.d, l: s.e, d: s.h, e: s.l, ..s }),
        Opcodes::Di => Ok(CpuState { interrupts_enabled: false, ..s }),
        Opcodes::Ei => Ok(CpuState { interrupts_enabled: true, ..s }),
        Opcodes::Ccc(c, comp) => if condition_holds(s, c, comp) {
            call_spec(s, w)
        } else {
            Ok(s)
        },
        Opcodes::Push(r) => push_rp_spec(s, r),
        Opcodes::PushPsw => push_psw_spec(s),
        Opcodes::Call => call_spec(s, w),
        Opcodes::Rst(n) => call_spec(s, (8 * n) as u16),
    }
}

} // verus!

verus! {

// ---------------------------------------------------------------------------
// Handlers
// ---------------------------------------------------------------------------
/// The 16-bit value of two operand bytes, low byte first.
fn operand_value(operands: [u8; 2]) -> (r: u16)
    ensures
        r == operand_word(operands),
{
    operands[1] as u16 * 256 + operands[0] as u16
}

/// The decode error for the byte at the program counter.
pub fn throw_unimplemented_instruction_error(state: &Cpu) -> (e: CpuError)
    ensures
        e == (CpuError::DecodeError { byte: state@.byte(state@.pc as int), address: state@.pc }),
{
    let pc = state.pc();
    CpuError::DecodeError { byte: state.read_byte(pc), address: pc }
}

pub fn nop() {
}

/// `LXI rp`: the pair whose high register is `dest` takes the operand word.
pub fn lxi_r(state: &mut Cpu, dest: Registers, operands: [u8; 2])
    requires
        dest != Registers::L,
    ensures
        final(state)@ == old(state)@.set_pair(dest, operand_word(operands)),
{
    let value = operand_value(operands);
    state.set_register_pair(dest, dest.next(), value);
}

pub fn lxi_sp(state: &mut Cpu, operands: [u8; 2])
    ensures
        final(state)@ == old(state)@.with_sp(operand_word(operands)),
{
    let value = operand_value(operands);
    state.set_sp(value);
}

pub fn mov_r_r(state: &mut Cpu, dest: Registers, src: Registers)
    ensures
        final(state)@ == old(state)@.set_reg(dest, old(state)@.reg(src)),
{
    let v = state.get_register(src);
    state.set_register(dest, v);
}

fn hl_address(state: &Cpu) -> (r: u16)
    ensures
        r == state@.hl(),
{
    state.get_register_pair(Registers::H, Registers::L)
}

pub fn mov_r_m(state: &mut Cpu, dest: Registers)
    ensures
        final(state)@ == old(state)@.set_reg(dest, old(state)@.byte(old(state)@.hl() as int)),
{
    let offset = hl_address(state);
    let v = state.read_byte(offset);
    state.set_register(dest, v);
}

pub fn mov_m_r(state: &mut Cpu, src: Registers)
    ensures
        final(state)@ == old(state)@.write(old(state)@.hl() as int, old(state)@.reg(src)),
{
    let offset = hl_address(state);
    let v = state.get_register(src);
    state.write_byte(offset, v);
}

pub fn mvi_r(state: &mut Cpu, dest: Registers, operand: u8)
    ensures
        final(state)@ == old(state)@.set_reg(dest, operand),
{
    state.set_register(dest, operand);
}

pub fn mvi_m(state: &mut Cpu, operand: u8)
    ensures
        final(state)@ == old(state)@.write(old(state)@.hl() as int, operand),
{
    let offset = hl_address(state);
    state.write_byte(offset, operand);
}

/// `LDA`: the accumulator from the direct address.
pub fn lda(state: &mut Cpu, operands: [u8; 2])
    ensures
        final(state)@ == old(state)@.set_reg(
            Registers::A,
            old(state)@.byte(operand_word(operands) as int),
        ),
{
    let offset = operand_value(operands);
    let v = state.read_byte(offset);
    state.set_register(Registers::A, v);
}

/// `STA`: the accumulator to the direct address.
pub fn sta(state: &mut Cpu, operands: [u8; 2])
    ensures
        final(state)@ == old(state)@.write(operand_word(operands) as int, old(state)@.a),
{
    let offset = operand_value(operands);
    let v = state.get_register(Registers::A);
    state.write_byte(offset, v);
}

pub fn shld(state: &mut Cpu, operands: [u8; 2]) -> (r: Result<(), CpuError>)
    ensures
        final(state)@ == applied(old(state)@, shld_spec(old(state)@, operand_word(operands))),
        r == outcome(shld_spec(old(state)@, operand_word(operands))),
{
    proof {
        reveal(shld_spec);
    }
    let offset = operand_value(operands);
    if offset == 0xffff {
        return Err(CpuError::AddressError { address: 0x10000 });
    }
    let l = state.get_register(Registers::L);
    let h = state.get_register(Registers::H);
    state.write_byte(offset, l);
    state.write_byte(offset + 1, h);
    Ok(())
}

pub fn lhld(state: &mut Cpu, operands: [u8; 2]) -> (r: Result<(), CpuError>)
    ensures
        final(state)@ == applied(old(state)@, lhld_spec(old(state)@, operand_word(operands))),
        r == outcome(lhld_spec(old(state)@, operand_word(operands))),
{
    proof {
        reveal(lhld_spec);
    }
    let offset = operand_value(operands);
    if offset == 0xffff {
        return Err(CpuError::AddressError { address: 0x10000 });
    }
    let lo = state.read_byte(offset);
    let hi = state.read_byte(offset + 1);
    state.set_register(Registers::L, lo);
    state.set_register(Registers::H, hi);
    Ok(())
}

/// `LDAX rp`: the accumulator from the address in the pair `src`.
pub fn ldax(state: &mut Cpu, src: Registers)
    requires
        src != Registers::L,
    ensures
        final(state)@ == old(state)@.set_reg(
            Registers::A,
            old(state)@.byte(old(state)@.pair(src) as int),
        ),
{
    let offset = state.get_register_pair(src, src.next());
    let v = state.read_byte(offset);
    state.set_register(Registers::A, v);
}

/// `STAX rp`: the accumulator to the address in the pair `dest`.
pub fn stax(state: &mut Cpu, dest: Registers)
    requires
        dest != Registers::L,
    ensures
        final(state)@ == old(state)@.write(old(state)@.pair(dest) as int, old(state)@.a),
{
    let offset = state.get_register_pair(dest, dest.next());
    let v = state.get_register(Registers::A);
    state.write_byte(offset, v);
}

/// `XCHG`: H:L and D:E trade values.
pub fn xchg(state: &mut Cpu)
    ensures
        final(state)@ == (CpuState {
            h: old(state)@.d,
            l: old(state)@.e,
            d: old(state)@.h,
            e: old(state)@.l,
            ..old(state)@
        }),
{
    state.swap_register_pairs(Registers::H, Registers::D);
    state.swap_register_pairs(Registers::L, Registers::E);
}

/// `a + v + c` truncated to 8 bits.
fn add8(a: u8, v: u8, c: u8) -> (r: u8)
    requires
        c <= 1,
    ensures
        r == low_byte(a + v + c),
{
    ((a as u16 + v as u16 + c as u16) % 256) as u8
}

/// `a - v - c` truncated to 8 bits.
fn sub8(a: u8, v: u8, c: u8) -> (r: u8)
    requires
        c <= 1,
    ensures
        r == low_byte(a - v - c),
{
    let subtrahend: u16 = v as u16 + c as u16;
    if a as u16 >= subtrahend {
        (a as u16 - subtrahend) as u8
    } else {
        (a as u16 + 256 - subtrahend) as u8
    }
}

/// The accumulator combined with `v` by `op`.
fn alu(state: &mut Cpu, op: AluOp, v: u8)
    ensures
        final(state)@ == alu_spec(old(state)@, op, v),
{
    proof {
        reveal(alu_spec);
    }
    let a = state.get_register(Registers::A);
    let cy = state.flags().cy;
    let c: u8 = if cy {
        1
    } else {
        0
    };
    let (result, flags) = match op {
        AluOp::Add => (add8(a, v, 0), update_conditions_add(a, v, false)),
        AluOp::Adc => (add8(a, v, c), update_conditions_add(a, v, cy)),
        AluOp::Sub => (sub8(a, v, 0), update_conditions_sub(a, v, false)),
        AluOp::Sbb => (sub8(a, v, c), update_conditions_sub(a, v, cy)),
        AluOp::Ana => (a & v, update_conditions_and(a, v)),
        AluOp::Xra => (a ^ v, update_conditions_or(a ^ v)),
        AluOp::Ora => (a | v, update_conditions_or(a | v)),
        AluOp::Cmp => (a, update_conditions_sub(a, v, false)),
    };
    state.set_register(Registers::A, result);
    state.set_flags(flags);
}

/// The byte at H:L.
fn memory_operand(state: &Cpu) -> (r: u8)
    ensures
        r == state@.byte(state@.hl() as int),
{
    let offset = hl_address(state);
    state.read_byte(offset)
}

pub fn add_r(state: &mut Cpu, src: Registers)
    ensures
        final(state)@ == alu_spec(old(state)@, AluOp::Add, old(state)@.reg(src)),
{
    let v = state.get_register(src);
    alu(state, AluOp::Add, v);
}

pub fn add_m(state: &mut Cpu)
    ensures
        final(state)@ == alu_spec(old(state)@, AluOp::Add, old(state)@.byte(old(state)@.hl() as int)),
{
    let v = memory_operand(state);
    alu(state, AluOp::Add, v);
}

pub fn adi(state: &mut Cpu, operand: u8)
    ensures
        final(state)@ == alu_spec(old(state)@, AluOp::Add, operand),
{
    alu(state, AluOp::Add, operand);
}

pub fn adc_r(state: &mut Cpu, src: Registers)
    ensures
        final(state)@ == alu_spec(old(state)@, AluOp::Adc, old(state)@.reg(src)),
{
    let v = state.get_register(src);
    alu(state, AluOp::Adc, v);
}

pub fn adc_m(state: &mut Cpu)
    ensures
        final(state)@ == alu_spec(old(state)@, AluOp::Adc, old(state)@.byte(old(state)@.hl() as int)),
{
    let v = memory_operand(state);
    alu(state, AluOp::Adc, v);
}

pub fn aci(state: &mut Cpu, operand: u8)
    ensures
        final(state)@ == alu_spec(old(state)@, AluOp::Adc, operand),
{
    alu(state, AluOp::Adc, operand);
}

pub fn sub_r(state: &mut Cpu, src: Registers)
    ensures
        final(state)@ == alu_spec(old(state)@, AluOp::Sub, old(state)@.reg(src)),
{
    let v = state.get_register(src);
    alu(state, AluOp::Sub, v);
}

pub fn sub_m(state: &mut Cpu)
    ensures
        final(state)@ == alu_spec(old(state)@, AluOp::Sub, old(state)@.byte(old(state)@.hl() as int)),
{
    let v = memory_operand(state);
    alu(state, AluOp::Sub, v);
}

pub fn sui(state: &mut Cpu, operand: u8)
    ensures
        final(state)@ == alu_spec(old(state)@, AluOp::Sub, operand),
{
    alu(state, AluOp::Sub, operand);
}

pub fn sbb_r(state: &mut Cpu, src: Registers)
    ensures
        final(state)@ == alu_spec(old(state)@, AluOp::Sbb, old(state)@.reg(src)),
{
    let v = state.get_register(src);
    alu(state, AluOp::Sbb, v);
}

pub fn sbb_m(state: &mut Cpu)
    ensures
        final(state)@ == alu_spec(old(state)@, AluOp::Sbb, old(state)@.byte(old(state)@.hl() as int)),
{
    let v = memory_operand(state);
    alu(state, AluOp::Sbb, v);
}

pub fn sbi(state: &mut Cpu, operand: u8)
    ensures
        final(state)@ == alu_spec(old(state)@, AluOp::Sbb, operand),
{
    alu(state, AluOp::Sbb, operand);
}

pub fn ana_r(state: &mut Cpu, src: Registers)
    ensures
        final(state)@ == alu_spec(old(state)@, AluOp::Ana, old(state)@.reg(src)),
{
    let v = state.get_register(src);
    alu(state, AluOp::Ana, v);
}

pub fn ana_m(state: &mut Cpu)
    ensures
        final(state)@ == alu_spec(old(state)@, AluOp::Ana, old(state)@.byte(old(state)@.hl() as int)),
{
    let v = memory_operand(state);
    alu(state, AluOp::Ana, v);
}

pub fn ani(state: &mut Cpu, operand: u8)
    ensures
        final(state)@ == alu_spec(old(state)@, AluOp::Ana, operand),
{
    alu(state, AluOp::Ana, operand);
}

pub fn xra_r(state: &mut Cpu, src: Registers)
    ensures
        final(state)@ == alu_spec(old(state)@, AluOp::Xra, old(state)@.reg(src)),
{
    let v = state.get_register(src);
    alu(state, AluOp::Xra, v);
}

pub fn xra_m(state: &mut Cpu)
    ensures
        final(state)@ == alu_spec(old(state)@, AluOp::Xra, old(state)@.byte(old(state)@.hl() as int)),
{
    let v = memory_operand(state);
    alu(state, AluOp::Xra, v);
}

pub fn xri(state: &mut Cpu, operand: u8)
    ensures
        final(state)@ == alu_spec(old(state)@, AluOp::Xra, operand),
{
    alu(state, AluOp::Xra, operand);
}

pub fn ora_r(state: &mut Cpu, src: Registers)
    ensures
        final(state)@ == alu_spec(old(state)@, AluOp::Ora, old(state)@.reg(src)),
{
    let v = state.get_register(src);
    alu(state, AluOp::Ora, v);
}

pub fn ora_m(state: &mut Cpu)
    ensures
        final(state)@ == alu_spec(old(state)@, AluOp::Ora, old(state)@.byte(old(state)@.hl() as int)),
{
    let v = memory_operand(state);
    alu(state, AluOp::Ora, v);
}

pub fn ori(state: &mut Cpu, operand: u8)
    ensures
        final(state)@ == alu_spec(old(state)@, AluOp::Ora, operand),
{
    alu(state, AluOp::Ora, operand);
}

pub fn cmp_r(state: &mut Cpu, register: Registers)
    ensures
        final(state)@ == alu_spec(old(state)@, AluOp::Cmp, old(state)@.reg(register)),
{
    let v = state.get_register(register);
    alu(state, AluOp::Cmp, v);
}

pub fn cmp_m(state: &mut Cpu)
    ensures
        final(state)@ == alu_spec(old(state)@, AluOp::Cmp, old(state)@.byte(old(state)@.hl() as int)),
{
    let v = memory_operand(state);
    alu(state, AluOp::Cmp, v);
}

pub fn cpi(state: &mut Cpu, operand: u8)
    ensures
        final(state)@ == alu_spec(old(state)@, AluOp::Cmp, operand),
{
    alu(state, AluOp::Cmp, operand);
}

fn increment(v: u8) -> (r: u8)
    ensures
        r == low_byte(v + 1),
{
    if v == 0xff {
        0
    } else {
        v + 1
    }
}

fn decrement(v: u8) -> (r: u8)
    ensures
        r == low_byte(v - 1),
{
    if v == 0 {
        0xff
    } else {
        v - 1
    }
}

pub fn inr_r(state: &mut Cpu, dest: Registers)
    ensures
        final(state)@ == inr_r_spec(old(state)@, dest),
{
    proof {
        reveal(inr_r_spec);
    }
    let val = state.get_register(dest);
    let f = update_conditions_inc(val, state.flags().cy);
    state.set_register(dest, increment(val));
    state.set_flags(f);
}

pub fn inr_m(state: &mut Cpu)
    ensures
        final(state)@ == inr_m_spec(old(state)@),
{
    proof {
        reveal(inr_m_spec);
    }
    let offset = hl_address(state);
    let val = state.read_byte(offset);
    let f = update_conditions_inc(val, state.flags().cy);
    state.write_byte(offset, increment(val));
    state.set_flags(f);
}

pub fn dcr_r(state: &mut Cpu, dest: Registers)
    ensures
        final(state)@ == dcr_r_spec(old(state)@, dest),
{
    proof {
        reveal(dcr_r_spec);
    }
    let val = state.get_register(dest);
    let f = update_conditions_dcr(val, state.flags().cy);
    state.set_register(dest, decrement(val));
    state.set_flags(f);
}

pub fn dcr_m(state: &mut Cpu)
    ensures
        final(state)@ == dcr_m_spec(old(state)@),
{
    proof {
        reveal(dcr_m_spec);
    }
    let offset = hl_address(state);
    let val = state.read_byte(offset);
    let f = update_conditions_dcr(val, state.flags().cy);
    state.write_byte(offset, decrement(val));
    state.set_flags(f);
}

/// `INX rp`: the pair `dest` plus one, wrapping; no flags change.
pub fn inx_rp(state: &mut Cpu, dest: Registers)
    requires
        dest != Registers::L,
    ensures
        final(state)@ == old(state)@.set_pair(dest, low_word(old(state)@.pair(dest) + 1)),
{
    let value = state.get_register_pair(dest, dest.next());
    let result: u16 = if value == 0xffff {
        0
    } else {
        value + 1
    };
    state.set_register_pair(dest, dest.next(), result);
}

pub fn inx_sp(state: &mut Cpu)
    ensures
        final(state)@ == old(state)@.with_sp(low_word(old(state)@.sp + 1)),
{
    let sp = state.sp();
    state.set_sp(
        if sp == 0xffff {
            0
        } else {
            sp + 1
        },
    );
}

/// `DCX rp`: the pair `dest` minus one, wrapping; no flags change.
pub fn dcx_rp(state: &mut Cpu, dest: Registers)
    requires
        dest != Registers::L,
    ensures
        final(state)@ == old(state)@.set_pair(dest, low_word(old(state)@.pair(dest) - 1)),
{
    let value = state.get_register_pair(dest, dest.next());
    let result: u16 = if value == 0 {
        0xffff
    } else {
        value - 1
    };
    state.set_register_pair(dest, dest.next(), result);
}

pub fn dcx_sp(state: &mut Cpu)
    ensures
        final(state)@ == old(state)@.with_sp(low_word(old(state)@.sp - 1)),
{
    let sp = state.sp();
    state.set_sp(
        if sp == 0 {
            0xffff
        } else {
            sp - 1
        },
    );
}

/// H:L plus `v`, Carry from the 16-bit overflow.
fn add_to_hl(state: &mut Cpu, v: u16)
    ensures
        final(state)@ == dad_spec(old(state)@, v),
{
    proof {
        reveal(dad_spec);
    }
    let hl = hl_address(state) as u32;
    let sum: u32 = hl + v as u32;
    let f = state.flags();
    state.set_flags(Flags { cy: sum > 0xffff, ..f });
    state.set_register_pair(Registers::H, Registers::L, (sum % 0x10000) as u16);
}

pub fn dad_rp(state: &mut Cpu, src: Registers)
    requires
        src != Registers::L,
    ensures
        final(state)@ == dad_spec(old(state)@, old(state)@.pair(src)),
{
    let v = state.get_register_pair(src, src.next());
    add_to_hl(state, v);
}

pub fn dad_sp(state: &mut Cpu)
    ensures
        final(state)@ == dad_spec(old(state)@, old(state)@.sp),
{
    let v = state.sp();
    add_to_hl(state, v);
}

pub fn daa(state: &mut Cpu)
    ensures
        final(state)@ == daa_spec(old(state)@),
{
    proof {
        reveal(daa_spec);
    }
    let a = state.get_register(Registers::A);
    let f = state.flags();
    let msb = a / 16;
    let lsb = a % 16;
    let mut val: u16 = 0;
    if f.ac || lsb > 9 {
        val = val + 0x06;
    }
    let high = f.cy || msb > 9 || (msb >= 9 && lsb > 9);
    if high {
        val = val + 0x60;
    }
    let result = ((a as u16 + val) % 256) as u8;
    let flags = Flags {
        z: result == 0,
        s: result >= 0x80,
        p: crate::flags::parity(result),
        cy: high,
        ac: lsb as u16 + val % 16 > 0xf,
    };
    state.set_register(Registers::A, result);
    state.set_flags(flags);
}

/// Sets the accumulator and Carry, keeping the other flags.
fn set_rotated(state: &mut Cpu, a: u8, cy: bool)
    ensures
        final(state)@ == rotated(old(state)@, a as int, cy),
{
    let f = state.flags();
    state.set_register(Registers::A, a);
    state.set_flags(Flags { cy, ..f });
}

pub fn rlc(state: &mut Cpu)
    ensures
        final(state)@ == rlc_spec(old(state)@),
{
    proof {
        reveal(rlc_spec);
    }
    let val = state.get_register(Registers::A);
    let result = ((val as u16 * 2) % 256 + val as u16 / 128) as u8;
    set_rotated(state, result, val >= 128);
}

pub fn rrc(state: &mut Cpu)
    ensures
        final(state)@ == rrc_spec(old(state)@),
{
    proof {
        reveal(rrc_spec);
    }
    let val = state.get_register(Registers::A);
    let result = val / 2 + (val % 2) * 128;
    set_rotated(state, result, val % 2 == 1);
}

pub fn ral(state: &mut Cpu)
    ensures
        final(state)@ == ral_spec(old(state)@),
{
    proof {
        reveal(ral_spec);
    }
    let val = state.get_register(Registers::A);
    let carry: u16 = if state.flags().cy {
        1
    } else {
        0
    };
    let result = ((val as u16 * 2) % 256 + carry) as u8;
    set_rotated(state, result, val >= 128);
}

pub fn rar(state: &mut Cpu)
    ensures
        final(state)@ == rar_spec(old(state)@),
{
    proof {
        reveal(rar_spec);
    }
    let val = state.get_register(Registers::A);
    let carry: u8 = if state.flags().cy {
        128
    } else {
        0
    };
    let result = val / 2 + carry;
    set_rotated(state, result, val % 2 == 1);
}

/// `CMA`: the accumulator is complemented; no flags change.
pub fn cma(state: &mut Cpu)
    ensures
        final(state)@ == old(state)@.set_reg(Registers::A, !old(state)@.a),
{
    let a = state.get_register(Registers::A);
    state.set_register(Registers::A, !a);
}

/// `CMC`: Carry is complemented.
pub fn cmc(state: &mut Cpu)
    ensures
        final(state)@ == old(state)@.with_flags(Flags { cy: !old(state)@.flags.cy, ..old(state)@.flags }),
{
    let f = state.flags();
    state.set_flags(Flags { cy: !f.cy, ..f });
}

/// `STC`: Carry is set.
pub fn stc(state: &mut Cpu)
    ensures
        final(state)@ == old(state)@.with_flags(Flags { cy: true, ..old(state)@.flags }),
{
    let f = state.flags();
    state.set_flags(Flags { cy: true, ..f });
}

pub fn jmp(state: &mut Cpu, operands: [u8; 2])
    ensures
        final(state)@ == old(state)@.with_pc(operand_word(operands)),
{
    let target = operand_value(operands);
    state.set_pc(target);
}

/// Jump when the flag `condition` equals `comp`.
pub fn jcc(state: &mut Cpu, condition: ConditionCodes, comp: bool, operands: [u8; 2])
    ensures
        final(state)@ == if condition_holds(old(state)@, condition, comp) {
            old(state)@.with_pc(operand_word(operands))
        } else {
            old(state)@
        },
{
    if state.flags().get(condition) == comp {
        jmp(state, operands);
    }
}

/// Pushes `v`, high byte at `sp - 1`, low byte at `sp - 2`.
fn push_word(state: &mut Cpu, v: u16) -> (r: Result<(), CpuError>)
    ensures
        final(state)@ == applied(old(state)@, push_spec(old(state)@, v)),
        r == outcome(push_spec(old(state)@, v)),
{
    proof {
        reveal(push_spec);
    }
    let sp = state.sp();
    if sp < 2 {
        return Err(CpuError::AddressError { address: sp as i32 - 2 });
    }
    state.write_byte(sp - 1, (v / 256) as u8);
    state.write_byte(sp - 2, (v % 256) as u8);
    state.set_sp(sp - 2);
    Ok(())
}

/// Pops the word on top of the stack.
fn pop_word(state: &mut Cpu) -> (r: Result<u16, CpuError>)
    ensures
        match pop_spec(old(state)@) {
            Ok((v, t)) => r == Ok::<u16, CpuError>(v) && final(state)@ == t,
            Err(e) => r == Err::<u16, CpuError>(e) && final(state)@ == old(state)@,
        },
{
    proof {
        reveal(pop_spec);
    }
    let sp = state.sp();
    if sp == 0xffff {
        return Err(CpuError::AddressError { address: 0x10000 });
    }
    let lo = state.read_byte(sp);
    let hi = state.read_byte(sp + 1);
    state.set_sp(
        if sp == 0xfffe {
            0
        } else {
            sp + 2
        },
    );
    Ok(hi as u16 * 256 + lo as u16)
}

pub fn call(state: &mut Cpu, operands: [u8; 2]) -> (r: Result<(), CpuError>)
    ensures
        final(state)@ == applied(old(state)@, call_spec(old(state)@, operand_word(operands))),
        r == outcome(call_spec(old(state)@, operand_word(operands))),
{
    proof {
        reveal(call_spec);
    }
    let pc = state.pc();
    push_word(state, pc)?;
    jmp(state, operands);
    Ok(())
}

/// Call when the flag `condition` equals `comp`.
pub fn ccc(state: &mut Cpu, condition: ConditionCodes, comp: bool, operands: [u8; 2]) -> (r: Result<
    (),
    CpuError,
>)
    ensures
        condition_holds(old(state)@, condition, comp) ==> final(state)@ == applied(
            old(state)@,
            call_spec(old(state)@, operand_word(operands)),
        ) && r == outcome(call_spec(old(state)@, operand_word(operands))),
        !condition_holds(old(state)@, condition, comp) ==> final(state)@ == old(state)@ && r
            == Ok::<(), CpuError>(()),
{
    if state.flags().get(condition) == comp {
        call(state, operands)
    } else {
        Ok(())
    }
}

pub fn ret(state: &mut Cpu) -> (r: Result<(), CpuError>)
    ensures
        final(state)@ == applied(old(state)@, ret_spec(old(state)@)),
        r == outcome(ret_spec(old(state)@)),
{
    proof {
        reveal(ret_spec);
    }
    let target = pop_word(state)?;
    state.set_pc(target);
    Ok(())
}

/// Return when the flag `condition` equals `comp`.
pub fn rcc(state: &mut Cpu, condition: ConditionCodes, comp: bool) -> (r: Result<(), CpuError>)
    ensures
        condition_holds(old(state)@, condition, comp) ==> final(state)@ == applied(
            old(state)@,
            ret_spec(old(state)@),
        ) && r == outcome(ret_spec(old(state)@)),
        !condition_holds(old(state)@, condition, comp) ==> final(state)@ == old(state)@ && r
            == Ok::<(), CpuError>(()),
{
    if state.flags().get(condition) == comp {
        ret(state)
    } else {
        Ok(())
    }
}

/// `RST n`: call of the restart vector `8 * n`.
pub fn rst_n(state: &mut Cpu, n: u8) -> (r: Result<(), CpuError>)
    requires
        n < 8,
    ensures
        final(state)@ == applied(old(state)@, call_spec(old(state)@, (8 * n) as u16)),
        r == outcome(call_spec(old(state)@, (8 * n) as u16)),
{
    proof {
        reveal(call_spec);
    }
    let pc = state.pc();
    push_word(state, pc)?;
    state.set_pc(n as u16 * 8);
    Ok(())
}

/// `PCHL`: jump to H:L.
pub fn pchl(state: &mut Cpu)
    ensures
        final(state)@ == old(state)@.with_pc(old(state)@.hl()),
{
    let target = hl_address(state);
    state.set_pc(target);
}

pub fn push_rp(state: &mut Cpu, src: Registers) -> (r: Result<(), CpuError>)
    requires
        src != Registers::L,
    ensures
        final(state)@ == applied(old(state)@, push_rp_spec(old(state)@, src)),
        r == outcome(push_rp_spec(old(state)@, src)),
{
    proof {
        reveal(push_rp_spec);
    }
    let v = state.get_register_pair(src, src.next());
    push_word(state, v)
}

pub fn push_psw(state: &mut Cpu) -> (r: Result<(), CpuError>)
    ensures
        final(state)@ == applied(old(state)@, push_psw_spec(old(state)@)),
        r == outcome(push_psw_spec(old(state)@)),
{
    proof {
        reveal(push_psw_spec);
    }
    let a = state.get_register(Registers::A);
    let psw = state.read_f_reg();
    push_word(state, a as u16 * 256 + psw as u16)
}

pub fn pop_rp(state: &mut Cpu, dest: Registers) -> (r: Result<(), CpuError>)
    requires
        dest != Registers::L,
    ensures
        final(state)@ == applied(old(state)@, pop_rp_spec(old(state)@, dest)),
        r == outcome(pop_rp_spec(old(state)@, dest)),
{
    proof {
        reveal(pop_rp_spec);
    }
    let v = pop_word(state)?;
    state.set_register_pair(dest, dest.next(), v);
    Ok(())
}

pub fn pop_psw(state: &mut Cpu) -> (r: Result<(), CpuError>)
    ensures
        final(state)@ == applied(old(state)@, pop_psw_spec(old(state)@)),
        r == outcome(pop_psw_spec(old(state)@)),
{
    proof {
        reveal(pop_psw_spec);
    }
    let v = pop_word(state)?;
    state.set_flags(Flags::from_psw((v % 256) as u8));
    state.set_register(Registers::A, (v / 256) as u8);
    Ok(())
}

pub fn xthl(state: &mut Cpu) -> (r: Result<(), CpuError>)
    ensures
        final(state)@ == applied(old(state)@, xthl_spec(old(state)@)),
        r == outcome(xthl_spec(old(state)@)),
{
    proof {
        reveal(xthl_spec);
    }
    let sp = state.sp();
    if sp == 0xffff {
        return Err(CpuError::AddressError { address: 0x10000 });
    }
    let l = state.get_register(Registers::L);
    let h = state.get_register(Registers::H);
    let top_lo = state.read_byte(sp);
    let top_hi = state.read_byte(sp + 1);
    state.write_byte(sp, l);
    state.write_byte(sp + 1, h);
    state.set_register(Registers::L, top_lo);
    state.set_register(Registers::H, top_hi);
    Ok(())
}

/// `SPHL`: the stack pointer takes H:L.
pub fn sphl(state: &mut Cpu)
    ensures
        final(state)@ == old(state)@.with_sp(old(state)@.hl()),
{
    let v = hl_address(state);
    state.set_sp(v);
}

/// `EI`: the interrupt-enable bit is set.
pub fn ei(state: &mut Cpu)
    ensures
        final(state)@ == (CpuState { interrupts_enabled: true, ..old(state)@ }),
{
    state.set_interrupts_enabled(true);
}

/// `DI`: the interrupt-enable bit is cleared.
pub fn di(state: &mut Cpu)
    ensures
        final(state)@ == (CpuState { interrupts_enabled: false, ..old(state)@ }),
{
    state.set_interrupts_enabled(false);
}

/// Runs the handler of `op` with operand bytes `operands` (low byte first).
#[verifier::rlimit(100)]
pub fn execute(state: &mut Cpu, op: Opcodes, operands: [u8; 2]) -> (r: Result<(), CpuError>)
    requires
        op.wf(),
    ensures
        final(state)@ == applied(old(state)@, execute_spec(old(state)@, op, operands@[0], operands@[1])),
        r == outcome(execute_spec(old(state)@, op, operands@[0], operands@[1])),
{
    let lo = operands[0];
    match op {
        Opcodes::Nop => {
            nop();
            Ok(())
        },
        Opcodes::Lxi(r) => {
            lxi_r(state, r, operands);
            Ok(())
        },
        Opcodes::LxiSp => {
            lxi_sp(state, operands);
            Ok(())
        },
        Opcodes::Stax(r) => {
            stax(state, r);
            Ok(())
        },
        Opcodes::Ldax(r) => {
            ldax(state, r);
            Ok(())
        },
        Opcodes::Shld => shld(state, operands),
        Opcodes::Lhld => lhld(state, operands),
        Opcodes::Sta => {
            sta(state, operands);
            Ok(())
        },
        Opcodes::Lda => {
            lda(state, operands);
            Ok(())
        },
        Opcodes::Inx(r) => {
            inx_rp(state, r);
            Ok(())
        },
        Opcodes::InxSp => {
            inx_sp(state);
            Ok(())
        },
        Opcodes::Dcx(r) => {
            dcx_rp(state, r);
            Ok(())
        },
        Opcodes::DcxSp => {
            dcx_sp(state);
            Ok(())
        },
        Opcodes::Dad(r) => {
            dad_rp(state, r);
            Ok(())
        },
        Opcodes::DadSp => {
            dad_sp(state);
            Ok(())
        },
        Opcodes::Inr(r) => {
            inr_r(state, r);
            Ok(())
        },
        Opcodes::InrM => {
            inr_m(state);
            Ok(())
        },
        Opcodes::Dcr(r) => {
            dcr_r(state, r);
            Ok(())
        },
        Opcodes::DcrM => {
            dcr_m(state);
            Ok(())
        },
        Opcodes::Mvi(r) => {
            mvi_r(state, r, lo);
            Ok(())
        },
        Opcodes::MviM => {
            mvi_m(state, lo);
            Ok(())
        },
        Opcodes::Rlc => {
            rlc(state);
            Ok(())
        },
        Opcodes::Rrc => {
            rrc(state);
            Ok(())
        },
        Opcodes::Ral => {
            ral(state);
            Ok(())
        },
        Opcodes::Rar => {
            rar(state);
            Ok(())
        },
        Opcodes::Daa => {
            daa(state);
            Ok(())
        },
        Opcodes::Cma => {
            cma(state);
            Ok(())
        },
        Opcodes::Stc => {
            stc(state);
            Ok(())
        },
        Opcodes::Cmc => {
            cmc(state);
            Ok(())
        },
        Opcodes::MovRR(d, src) => {
            mov_r_r(state, d, src);
            Ok(())
        },
        Opcodes::MovRM(d) => {
            mov_r_m(state, d);
            Ok(())
        },
        Opcodes::MovMR(src) => {
            mov_m_r(state, src);
            Ok(())
        },
        Opcodes::AluR(o, r) => match o {
            AluOp::Add => {
                add_r(state, r);
                Ok(())
            },
            AluOp::Adc => {
                adc_r(state, r);
                Ok(())
            },
            AluOp::Sub => {
                sub_r(state, r);
                Ok(())
            },
            AluOp::Sbb => {
                sbb_r(state, r);
                Ok(())
            },
            AluOp::Ana => {
                ana_r(state, r);
                Ok(())
            },
            AluOp::Xra => {
                xra_r(state, r);
                Ok(())
            },
            AluOp::Ora => {
                ora_r(state, r);
                Ok(())
            },
            AluOp::Cmp => {
                cmp_r(state, r);
                Ok(())
            },
        },
        Opcodes::AluM(o) => match o {
            AluOp::Add => {
                add_m(state);
                Ok(())
            },
            AluOp::Adc => {
                adc_m(state);
                Ok(())
            },
            AluOp::Sub => {
                sub_m(state);
                Ok(())
            },
            AluOp::Sbb => {
                sbb_m(state);
                Ok(())
            },
            AluOp::Ana => {
                ana_m(state);
                Ok(())
            },
            AluOp::Xra => {
                xra_m(state);
                Ok(())
            },
            AluOp::Ora => {
                ora_m(state);
                Ok(())
            },
            AluOp::Cmp => {
                cmp_m(state);
                Ok(())
            },
        },
        Opcodes::AluI(o) => match o {
            AluOp::Add => {
                adi(state, lo);
                Ok(())
            },
            AluOp::Adc => {
                aci(state, lo);
                Ok(())
            },
            AluOp::Sub => {
                sui(state, lo);
                Ok(())
            },
            AluOp::Sbb => {
                sbi(state, lo);
                Ok(())
            },
            AluOp::Ana => {
                ani(state, lo);
                Ok(())
            },
            AluOp::Xra => {
                xri(state, lo);
                Ok(())
            },
            AluOp::Ora => {
                ori(state, lo);
                Ok(())
            },
            AluOp::Cmp => {
                cpi(state, lo);
                Ok(())
            },
        },
        Opcodes::Rcc(c, comp) => rcc(state, c, comp),
        Opcodes::Pop(r) => pop_rp(state, r),
        Opcodes::PopPsw => pop_psw(state),
        Opcodes::Ret => ret(state),
        Opcodes::Pchl => {
            pchl(state);
            Ok(())
        },
        Opcodes::Sphl => {
            sphl(state);
            Ok(())
        },
        Opcodes::Jcc(c, comp) => {
            jcc(state, c, comp, operands);
            Ok(())
        },
        Opcodes::Jmp => {
            jmp(state, operands);
            Ok(())
        },
        Opcodes::Xthl => xthl(state),
        Opcodes::Xchg => {
            xchg(state);
            Ok(())
        },
        Opcodes::Di => {
            di(state);
            Ok(())
        },
        Opcodes::Ei => {
            ei(state);
            Ok(())
        },
        Opcodes::Ccc(c, comp) => ccc(state, c, comp, operands),
        Opcodes::Push(r) => push_rp(state, r),
        Opcodes::PushPsw => push_psw(state),
        Opcodes::Call => call(state, operands),
        Opcodes::Rst(n) => rst_n(state, n),
    }
}

} // verus!
