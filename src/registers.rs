use vstd::prelude::*;

verus! {

/// The seven 8-bit registers. `A` is the accumulator; `B:C`, `D:E` and `H:L`
/// form the register pairs, high byte first.
#[derive(Clone, Copy, Debug, PartialEq, Eq, Structural)]
pub enum Registers {
    A,
    B,
    C,
    D,
    E,
    H,
    L,
}

/// The register that follows `r` in the order A, B, C, D, E, H, L.
pub open spec fn next_register(r: Registers) -> Registers
    recommends
        r != Registers::L,
{
    match r {
        Registers::A => Registers::B,
        Registers::B => Registers::C,
        Registers::C => Registers::D,
        Registers::D => Registers::E,
        Registers::E => Registers::H,
        _ => Registers::L,
    }
}

impl Registers {
    /// The register after this one; for the high register of a pair, its low
    /// register.
    pub fn next(&self) -> (r: Registers)
        requires
            *self != Registers::L,
        ensures
            r == next_register(*self),
    {
        match self {
            Registers::A => Registers::B,
            Registers::B => Registers::C,
            Registers::C => Registers::D,
            Registers::D => Registers::E,
            Registers::E => Registers::H,
            Registers::H => Registers::L,
            Registers::L => Registers::L,
        }
    }
}

} // verus!
