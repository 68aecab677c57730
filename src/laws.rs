use vstd::prelude::*;

use crate::cpu::{CpuError, CpuState};
use crate::flags::{even_parity, lemma_psw_round_trip, low_byte};
use crate::instructions::{
    dcr_m_spec, dcr_r_spec, inr_m_spec, inr_r_spec, pop_psw_spec, pop_rp_spec, push_psw_spec,
    push_rp_spec,
};
use crate::opcodes::is_pair_high;
use crate::registers::Registers;

verus! {

/// Setting a register twice, the second time back to its value, changes
/// nothing but the flags, which neither write touches.
proof fn lemma_set_reg_twice(s: CpuState, r: Registers, x: u8, v: u8)
    requires
        v == s.reg(r),
    ensures
        s.set_reg(r, x).reg(r) == x,
        s.set_reg(r, x).flags == s.flags,
        s.set_reg(r, x).set_reg(r, v) == s,
{
}

/// `INR r` then `DCR r` gives `r` back and keeps Carry; the other flags are
/// those of the decrement alone: they describe the restored value `v`, with
/// Auxiliary carry set iff the decrement borrowed from the low nibble.
pub proof fn lemma_inr_then_dcr(s: CpuState, r: Registers)
    ensures
        ({
            let t = dcr_r_spec(inr_r_spec(s, r), r);
            let v = s.reg(r);
            &&& t == s.with_flags(t.flags)
            &&& t.flags.cy == s.flags.cy
            &&& t.flags.z == (v == 0)
            &&& t.flags.s == (v >= 0x80)
            &&& t.flags.p == even_parity(v)
            &&& t.flags.ac == (v % 16 == 15)
        }),
{
    reveal(inr_r_spec);
    reveal(dcr_r_spec);
    let v = s.reg(r);
    let up = low_byte(v + 1);
    assert(low_byte(up - 1) == v);
    lemma_set_reg_twice(s, r, up, v);
}

/// `DCR r` then `INR r` gives `r` back and keeps Carry; the other flags are
/// those of the increment alone.
pub proof fn lemma_dcr_then_inr(s: CpuState, r: Registers)
    ensures
        ({
            let t = inr_r_spec(dcr_r_spec(s, r), r);
            let v = s.reg(r);
            &&& t == s.with_flags(t.flags)
            &&& t.flags.cy == s.flags.cy
            &&& t.flags.z == (v == 0)
            &&& t.flags.s == (v >= 0x80)
            &&& t.flags.p == even_parity(v)
            &&& t.flags.ac == (v % 16 == 0)
        }),
{
    reveal(inr_r_spec);
    reveal(dcr_r_spec);
    let v = s.reg(r);
    let down = low_byte(v - 1);
    assert(low_byte(down + 1) == v);
    lemma_set_reg_twice(s, r, down, v);
}

/// The same for the byte at H:L: `INR M` then `DCR M` restores it and keeps
/// Carry.
pub proof fn lemma_inr_then_dcr_memory(s: CpuState)
    requires
        s.wf(),
    ensures
        ({
            let t = dcr_m_spec(inr_m_spec(s));
            let v = s.byte(s.hl() as int);
            &&& t == s.with_flags(t.flags)
            &&& t.flags.cy == s.flags.cy
            &&& t.flags.z == (v == 0)
            &&& t.flags.s == (v >= 0x80)
            &&& t.flags.p == even_parity(v)
            &&& t.flags.ac == (v % 16 == 15)
        }),
{
    reveal(inr_m_spec);
    reveal(dcr_m_spec);
    let a = s.hl() as int;
    let v = s.byte(a);
    assert(low_byte(low_byte(v + 1) - 1) == v);
    assert(s.mem.update(a, low_byte(v + 1)).update(a, v) =~= s.mem);
}

/// `DCR M` then `INR M` restores the byte at H:L and keeps Carry.
pub proof fn lemma_dcr_then_inr_memory(s: CpuState)
    requires
        s.wf(),
    ensures
        ({
            let t = inr_m_spec(dcr_m_spec(s));
            let v = s.byte(s.hl() as int);
            &&& t == s.with_flags(t.flags)
            &&& t.flags.cy == s.flags.cy
            &&& t.flags.z == (v == 0)
            &&& t.flags.s == (v >= 0x80)
            &&& t.flags.p == even_parity(v)
            &&& t.flags.ac == (v % 16 == 0)
        }),
{
    reveal(inr_m_spec);
    reveal(dcr_m_spec);
    let a = s.hl() as int;
    let v = s.byte(a);
    assert(low_byte(low_byte(v - 1) + 1) == v);
    assert(s.mem.update(a, low_byte(v - 1)).update(a, v) =~= s.mem);
}

/// Pushing a register pair and popping it straight back into the same pair
/// restores the pair's value and the stack pointer; only the two stack bytes
/// below the stack pointer have changed.
pub proof fn lemma_push_pop_round_trip(s: CpuState, r: Registers)
    requires
        s.wf(),
        is_pair_high(r),
        s.sp >= 2,
    ensures
        push_rp_spec(s, r) matches Ok(t) && pop_rp_spec(t, r) == Ok::<CpuState, CpuError>(
            CpuState { mem: t.mem, ..s },
        ),
{
    reveal(crate::instructions::push_spec);
    reveal(crate::instructions::pop_spec);
    reveal(push_rp_spec);
    reveal(pop_rp_spec);
}

/// Pushing the accumulator and flags and popping them straight back restores
/// both and the stack pointer.
pub proof fn lemma_push_pop_psw_round_trip(s: CpuState)
    requires
        s.wf(),
        s.sp >= 2,
    ensures
        push_psw_spec(s) matches Ok(t) && pop_psw_spec(t) == Ok::<CpuState, CpuError>(
            CpuState { mem: t.mem, ..s },
        ),
{
    reveal(crate::instructions::push_spec);
    reveal(crate::instructions::pop_spec);
    reveal(push_psw_spec);
    reveal(pop_psw_spec);
    lemma_psw_round_trip(s.flags);
}

} // verus!
