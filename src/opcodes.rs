use vstd::prelude::*;

use crate::flags::ConditionCodes;
use crate::registers::Registers;

verus! {

/// The eight operations of the accumulator with a second operand.
#[derive(Clone, Copy, Debug, PartialEq, Eq, Structural)]
pub enum AluOp {
    Add,
    Adc,
    Sub,
    Sbb,
    Ana,
    Xra,
    Ora,
    Cmp,
}

/// A decoded instruction. A `Registers` argument of a register-pair
/// instruction names the pair's high register (`B`, `D` or `H`); the stack
/// pointer and the status-word pair have variants of their own.
#[derive(Clone, Copy, Debug, PartialEq, Eq, Structural)]
pub enum Opcodes {
    Nop,
    Lxi(Registers),
    LxiSp,
    Stax(Registers),
    Ldax(Registers),
    Shld,
    Lhld,
    Sta,
    Lda,
    Inx(Registers),
    InxSp,
    Dcx(Registers),
    DcxSp,
    Dad(Registers),
    DadSp,
    Inr(Registers),
    InrM,
    Dcr(Registers),
    DcrM,
    Mvi(Registers),
    MviM,
    Rlc,
    Rrc,
    Ral,
    Rar,
    Daa,
    Cma,
    Stc,
    Cmc,
    /// `MOV dst, src` between registers.
    MovRR(Registers, Registers),
    /// `MOV dst, M`.
    MovRM(Registers),
    /// `MOV M, src`.
    MovMR(Registers),
    AluR(AluOp, Registers),
    AluM(AluOp),
    /// The operation with an immediate byte (ADI, ACI, SUI, SBI, ANI, XRI, ORI, CPI).
    AluI(AluOp),
    Rcc(ConditionCodes, bool),
    Pop(Registers),
    PopPsw,
    Ret,
    Pchl,
    Sphl,
    Jcc(ConditionCodes, bool),
    Jmp,
    Xthl,
    Xchg,
    Di,
    Ei,
    Ccc(ConditionCodes, bool),
    Push(Registers),
    PushPsw,
    Call,
    /// Restart to vector `8 * n`.
    Rst(u8),
}

/// Byte length and nominal cycle cost of an instruction.
#[derive(Clone, Copy, Debug, PartialEq, Eq, Structural)]
pub struct InstructionDef {
    pub cycles: u8,
    pub size: u8,
}

/// `r` is the high register of the pairs B:C, D:E or H:L.
pub open spec fn is_pair_high(r: Registers) -> bool {
    r == Registers::B || r == Registers::D || r == Registers::H
}

/// The 3-bit register field of an opcode: B, C, D, E, H, L, memory, A.
/// `None` stands for memory at H:L.
pub open spec fn reg_field(f: int) -> Option<Registers> {
    if f == 0 {
        Some(Registers::B)
    } else if f == 1 {
        Some(Registers::C)
    } else if f == 2 {
        Some(Registers::D)
    } else if f == 3 {
        Some(Registers::E)
    } else if f == 4 {
        Some(Registers::H)
    } else if f == 5 {
        Some(Registers::L)
    } else if f == 6 {
        None
    } else {
        Some(Registers::A)
    }
}

/// The 2-bit register-pair field: B:C, D:E, H:L, and `None` for the stack
/// pointer (or the status-word pair in PUSH and POP).
pub open spec fn pair_field(f: int) -> Option<Registers> {
    if f == 0 {
        Some(Registers::B)
    } else if f == 1 {
        Some(Registers::D)
    } else if f == 2 {
        Some(Registers::H)
    } else {
        None
    }
}

/// The 3-bit operation field of the accumulator group.
pub open spec fn alu_field(f: int) -> AluOp {
    if f == 0 {
        AluOp::Add
    } else if f == 1 {
        AluOp::Adc
    } else if f == 2 {
        AluOp::Sub
    } else if f == 3 {
        AluOp::Sbb
    } else if f == 4 {
        AluOp::Ana
    } else if f == 5 {
        AluOp::Xra
    } else if f == 6 {
        AluOp::Ora
    } else {
        AluOp::Cmp
    }
}

/// The 3-bit condition field: NZ, Z, NC, C, PO, PE, P, M. The flag tested
/// and the value it must have.
pub open spec fn cond_field(f: int) -> (ConditionCodes, bool) {
    let code = if f / 2 == 0 {
        ConditionCodes::Z
    } else if f / 2 == 1 {
        ConditionCodes::CY
    } else if f / 2 == 2 {
        ConditionCodes::P
    } else {
        ConditionCodes::S
    };
    (code, f % 2 == 1)
}

/// Opcodes `00yyyzzz`.
pub open spec fn decode_group0(y: int, z: int) -> Option<Opcodes> {
    let pair = pair_field(y / 2);
    let reg = reg_field(y);
    if z == 0 {
        if y == 0 {
            Some(Opcodes::Nop)
        } else {
            None
        }
    } else if z == 1 {
        Some(
            match (pair, y % 2 == 0) {
                (Some(r), true) => Opcodes::Lxi(r),
                (None, true) => Opcodes::LxiSp,
                (Some(r), false) => Opcodes::Dad(r),
                (None, false) => Opcodes::DadSp,
            },
        )
    } else if z == 2 {
        Some(
            if y == 0 {
                Opcodes::Stax(Registers::B)
            } else if y == 1 {
                Opcodes::Ldax(Registers::B)
            } else if y == 2 {
                Opcodes::Stax(Registers::D)
            } else if y == 3 {
                Opcodes::Ldax(Registers::D)
            } else if y == 4 {
                Opcodes::Shld
            } else if y == 5 {
                Opcodes::Lhld
            } else if y == 6 {
                Opcodes::Sta
            } else {
                Opcodes::Lda
            },
        )
    } else if z == 3 {
        Some(
            match (pair, y % 2 == 0) {
                (Some(r), true) => Opcodes::Inx(r),
                (None, true) => Opcodes::InxSp,
                (Some(r), false) => Opcodes::Dcx(r),
                (None, false) => Opcodes::DcxSp,
            },
        )
    } else if z == 4 {
        Some(
            match reg {
                Some(r) => Opcodes::Inr(r),
                None => Opcodes::InrM,
            },
        )
    } else if z == 5 {
        Some(
            match reg {
                Some(r) => Opcodes::Dcr(r),
                None => Opcodes::DcrM,
            },
        )
    } else if z == 6 {
        Some(
            match reg {
                Some(r) => Opcodes::Mvi(r),
                None => Opcodes::MviM,
            },
        )
    } else {
        Some(
            if y == 0 {
                Opcodes::Rlc
            } else if y == 1 {
                Opcodes::Rrc
            } else if y == 2 {
                Opcodes::Ral
            } else if y == 3 {
                Opcodes::Rar
            } else if y == 4 {
                Opcodes::Daa
            } else if y == 5 {
                Opcodes::Cma
            } else if y == 6 {
                Opcodes::Stc
            } else {
                Opcodes::Cmc
            },
        )
    }
}

/// Opcodes `01yyyzzz`: register and memory moves; `01110110` is not decoded.
pub open spec fn decode_group1(y: int, z: int) -> Option<Opcodes> {
    match (reg_field(y), reg_field(z)) {
        (Some(d), Some(s)) => Some(Opcodes::MovRR(d, s)),
        (Some(d), None) => Some(Opcodes::MovRM(d)),
        (None, Some(s)) => Some(Opcodes::MovMR(s)),
        (None, None) => None,
    }
}

/// Opcodes `10yyyzzz`: the accumulator group with a register or memory.
pub open spec fn decode_group2(y: int, z: int) -> Option<Opcodes> {
    match reg_field(z) {
        Some(r) => Some(Opcodes::AluR(alu_field(y), r)),
        None => Some(Opcodes::AluM(alu_field(y))),
    }
}

/// Opcodes `11yyyzzz`.
pub open spec fn decode_group3(y: int, z: int) -> Option<Opcodes> {
    let (code, sense) = cond_field(y);
    let pair = pair_field(y / 2);
    if z == 0 {
        Some(Opcodes::Rcc(code, sense))
    } else if z == 1 {
        if y % 2 == 0 {
            Some(
                match pair {
                    Some(r) => Opcodes::Pop(r),
                    None => Opcodes::PopPsw,
                },
            )
        } else if y == 1 {
            Some(Opcodes::Ret)
        } else if y == 5 {
            Some(Opcodes::Pchl)
        } else if y == 7 {
            Some(Opcodes::Sphl)
        } else {
            None
        }
    } else if z == 2 {
        Some(Opcodes::Jcc(code, sense))
    } else if z == 3 {
        if y == 0 {
            Some(Opcodes::Jmp)
        } else if y == 4 {
            Some(Opcodes::Xthl)
        } else if y == 5 {
            Some(Opcodes::Xchg)
        } else if y == 6 {
            Some(Opcodes::Di)
        } else if y == 7 {
            Some(Opcodes::Ei)
        } else {
            None
        }
    } else if z == 4 {
        Some(Opcodes::Ccc(code, sense))
    } else if z == 5 {
        if y % 2 == 0 {
            Some(
                match pair {
                    Some(r) => Opcodes::Push(r),
                    None => Opcodes::PushPsw,
                },
            )
        } else if y == 1 {
            Some(Opcodes::Call)
        } else {
            None
        }
    } else if z == 6 {
        Some(Opcodes::AluI(alu_field(y)))
    } else {
        Some(Opcodes::Rst(y as u8))
    }
}

/// The documented encoding: opcode byte `xxyyyzzz` by its three fields.
/// HLT, IN, OUT and the undocumented alternates are not decoded.
pub open spec fn decode(b: u8) -> Option<Opcodes> {
    let x = b / 64;
    let y = (b / 8) % 8;
    let z = b % 8;
    if x == 0 {
        decode_group0(y as int, z as int)
    } else if x == 1 {
        decode_group1(y as int, z as int)
    } else if x == 2 {
        decode_group2(y as int, z as int)
    } else {
        decode_group3(y as int, z as int)
    }
}

impl Opcodes {
    /// Decodes one opcode byte; `None` for a byte with no defined operation.
    pub fn from_hex(opcode: u8) -> (r: Option<Opcodes>)
        ensures
            r == decode(opcode),
            r matches Some(op) ==> op.wf(),
    {
        match opcode {
            0x00 => Some(Opcodes::Nop),
            0x01 => Some(Opcodes::Lxi(Registers::B)),
            0x02 => Some(Opcodes::Stax(Registers::B)),
            0x03 => Some(Opcodes::Inx(Registers::B)),
            0x04 => Some(Opcodes::Inr(Registers::B)),
            0x05 => Some(Opcodes::Dcr(Registers::B)),
            0x06 => Some(Opcodes::Mvi(Registers::B)),
            0x07 => Some(Opcodes::Rlc),
            0x09 => Some(Opcodes::Dad(Registers::B)),
            0x0a => Some(Opcodes::Ldax(Registers::B)),
            0x0b => Some(Opcodes::Dcx(Registers::B)),
            0x0c => Some(Opcodes::Inr(Registers::C)),
            0x0d => Some(Opcodes::Dcr(Registers::C)),
            0x0e => Some(Opcodes::Mvi(Registers::C)),
            0x0f => Some(Opcodes::Rrc),
            0x11 => Some(Opcodes::Lxi(Registers::D)),
            0x12 => Some(Opcodes::Stax(Registers::D)),
            0x13 => Some(Opcodes::Inx(Registers::D)),
            0x14 => Some(Opcodes::Inr(Registers::D)),
            0x15 => Some(Opcodes::Dcr(Registers::D)),
            0x16 => Some(Opcodes::Mvi(Registers::D)),
            0x17 => Some(Opcodes::Ral),
            0x19 => Some(Opcodes::Dad(Registers::D)),
            0x1a => Some(Opcodes::Ldax(Registers::D)),
            0x1b => Some(Opcodes::Dcx(Registers::D)),
            0x1c => Some(Opcodes::Inr(Registers::E)),
            0x1d => Some(Opcodes::Dcr(Registers::E)),
            0x1e => Some(Opcodes::Mvi(Registers::E)),
            0x1f => Some(Opcodes::Rar),
            0x21 => Some(Opcodes::Lxi(Registers::H)),
            0x22 => Some(Opcodes::Shld),
            0x23 => Some(Opcodes::Inx(Registers::H)),
            0x24 => Some(Opcodes::Inr(Registers::H)),
            0x25 => Some(Opcodes::Dcr(Registers::H)),
            0x26 => Some(Opcodes::Mvi(Registers::H)),
            0x27 => Some(Opcodes::Daa),
            0x29 => Some(Opcodes::Dad(Registers::H)),
            0x2a => Some(Opcodes::Lhld),
            0x2b => Some(Opcodes::Dcx(Registers::H)),
            0x2c => Some(Opcodes::Inr(Registers::L)),
            0x2d => Some(Opcodes::Dcr(Registers::L)),
            0x2e => Some(Opcodes::Mvi(Registers::L)),
            0x2f => Some(Opcodes::Cma),
            0x31 => Some(Opcodes::LxiSp),
            0x32 => Some(Opcodes::Sta),
            0x33 => Some(Opcodes::InxSp),
            0x34 => Some(Opcodes::InrM),
            0x35 => Some(Opcodes::DcrM),
            0x36 => Some(Opcodes::MviM),
            0x37 => Some(Opcodes::Stc),
            0x39 => Some(Opcodes::DadSp),
            0x3a => Some(Opcodes::Lda),
            0x3b => Some(Opcodes::DcxSp),
            0x3c => Some(Opcodes::Inr(Registers::A)),
            0x3d => Some(Opcodes::Dcr(Registers::A)),
            0x3e => Some(Opcodes::Mvi(Registers::A)),
            0x3f => Some(Opcodes::Cmc),
            0x40 => Some(Opcodes::MovRR(Registers::B, Registers::B)),
            0x41 => Some(Opcodes::MovRR(Registers::B, Registers::C)),
            0x42 => Some(Opcodes::MovRR(Registers::B, Registers::D)),
            0x43 => Some(Opcodes::MovRR(Registers::B, Registers::E)),
            0x44 => Some(Opcodes::MovRR(Registers::B, Registers::H)),
            0x45 => Some(Opcodes::MovRR(Registers::B, Registers::L)),
            0x46 => Some(Opcodes::MovRM(Registers::B)),
            0x47 => Some(Opcodes::MovRR(Registers::B, Registers::A)),
            0x48 => Some(Opcodes::MovRR(Registers::C, Registers::B)),
            0x49 => Some(Opcodes::MovRR(Registers::C, Registers::C)),
            0x4a => Some(Opcodes::MovRR(Registers::C, Registers::D)),
            0x4b => Some(Opcodes::MovRR(Registers::C, Registers::E)),
            0x4c => Some(Opcodes::MovRR(Registers::C, Registers::H)),
            0x4d => Some(Opcodes::MovRR(Registers::C, Registers::L)),
            0x4e => Some(Opcodes::MovRM(Registers::C)),
            0x4f => Some(Opcodes::MovRR(Registers::C, Registers::A)),
            0x50 => Some(Opcodes::MovRR(Registers::D, Registers::B)),
            0x51 => Some(Opcodes::MovRR(Registers::D, Registers::C)),
            0x52 => Some(Opcodes::MovRR(Registers::D, Registers::D)),
            0x53 => Some(Opcodes::MovRR(Registers::D, Registers::E)),
            0x54 => Some(Opcodes::MovRR(Registers::D, Registers::H)),
            0x55 => Some(Opcodes::MovRR(Registers::D, Registers::L)),
            0x56 => Some(Opcodes::MovRM(Registers::D)),
            0x57 => Some(Opcodes::MovRR(Registers::D, Registers::A)),
            0x58 => Some(Opcodes::MovRR(Registers::E, Registers::B)),
            0x59 => Some(Opcodes::MovRR(Registers::E, Registers::C)),
            0x5a => Some(Opcodes::MovRR(Registers::E, Registers::D)),
            0x5b => Some(Opcodes::MovRR(Registers::E, Registers::E)),
            0x5c => Some(Opcodes::MovRR(Registers::E, Registers::H)),
            0x5d => Some(Opcodes::MovRR(Registers::E, Registers::L)),
            0x5e => Some(Opcodes::MovRM(Registers::E)),
            0x5f => Some(Opcodes::MovRR(Registers::E, Registers::A)),
            0x60 => Some(Opcodes::MovRR(Registers::H, Registers::B)),
            0x61 => Some(Opcodes::MovRR(Registers::H, Registers::C)),
            0x62 => Some(Opcodes::MovRR(Registers::H, Registers::D)),
            0x63 => Some(Opcodes::MovRR(Registers::H, Registers::E)),
            0x64 => Some(Opcodes::MovRR(Registers::H, Registers::H)),
            0x65 => Some(Opcodes::MovRR(Registers::H, Registers::L)),
            0x66 => Some(Opcodes::MovRM(Registers::H)),
            0x67 => Some(Opcodes::MovRR(Registers::H, Registers::A)),
            0x68 => Some(Opcodes::MovRR(Registers::L, Registers::B)),
            0x69 => Some(Opcodes::MovRR(Registers::L, Registers::C)),
            0x6a => Some(Opcodes::MovRR(Registers::L, Registers::D)),
            0x6b => Some(Opcodes::MovRR(Registers::L, Registers::E)),
            0x6c => Some(Opcodes::MovRR(Registers::L, Registers::H)),
            0x6d => Some(Opcodes::MovRR(Registers::L, Registers::L)),
            0x6e => Some(Opcodes::MovRM(Registers::L)),
            0x6f => Some(Opcodes::MovRR(Registers::L, Registers::A)),
            0x70 => Some(Opcodes::MovMR(Registers::B)),
            0x71 => Some(Opcodes::MovMR(Registers::C)),
            0x72 => Some(Opcodes::MovMR(Registers::D)),
            0x73 => Some(Opcodes::MovMR(Registers::E)),
            0x74 => Some(Opcodes::MovMR(Registers::H)),
            0x75 => Some(Opcodes::MovMR(Registers::L)),
            0x77 => Some(Opcodes::MovMR(Registers::A)),
            0x78 => Some(Opcodes::MovRR(Registers::A, Registers::B)),
            0x79 => Some(Opcodes::MovRR(Registers::A, Registers::C)),
            0x7a => Some(Opcodes::MovRR(Registers::A, Registers::D)),
            0x7b => Some(Opcodes::MovRR(Registers::A, Registers::E)),
            0x7c => Some(Opcodes::MovRR(Registers::A, Registers::H)),
            0x7d => Some(Opcodes::MovRR(Registers::A, Registers::L)),
            0x7e => Some(Opcodes::MovRM(Registers::A)),
            0x7f => Some(Opcodes::MovRR(Registers::A, Registers::A)),
            0x80 => Some(Opcodes::AluR(AluOp::Add, Registers::B)),
            0x81 => Some(Opcodes::AluR(AluOp::Add, Registers::C)),
            0x82 => Some(Opcodes::AluR(AluOp::Add, Registers::D)),
            0x83 => Some(Opcodes::AluR(AluOp::Add, Registers::E)),
            0x84 => Some(Opcodes::AluR(AluOp::Add, Registers::H)),
            0x85 => Some(Opcodes::AluR(AluOp::Add, Registers::L)),
            0x86 => Some(Opcodes::AluM(AluOp::Add)),
            0x87 => Some(Opcodes::AluR(AluOp::Add, Registers::A)),
            0x88 => Some(Opcodes::AluR(AluOp::Adc, Registers::B)),
            0x89 => Some(Opcodes::AluR(AluOp::Adc, Registers::C)),
            0x8a => Some(Opcodes::AluR(AluOp::Adc, Registers::D)),
            0x8b => Some(Opcodes::AluR(AluOp::Adc, Registers::E)),
            0x8c => Some(Opcodes::AluR(AluOp::Adc, Registers::H)),
            0x8d => Some(Opcodes::AluR(AluOp::Adc, Registers::L)),
            0x8e => Some(Opcodes::AluM(AluOp::Adc)),
            0x8f => Some(Opcodes::AluR(AluOp::Adc, Registers::A)),
            0x90 => Some(Opcodes::AluR(AluOp::Sub, Registers::B)),
            0x91 => Some(Opcodes::AluR(AluOp::Sub, Registers::C)),
            0x92 => Some(Opcodes::AluR(AluOp::Sub, Registers::D)),
            0x93 => Some(Opcodes::AluR(AluOp::Sub, Registers::E)),
            0x94 => Some(Opcodes::AluR(AluOp::Sub, Registers::H)),
            0x95 => Some(Opcodes::AluR(AluOp::Sub, Registers::L)),
            0x96 => Some(Opcodes::AluM(AluOp::Sub)),
            0x97 => Some(Opcodes::AluR(AluOp::Sub, Registers::A)),
            0x98 => Some(Opcodes::AluR(AluOp::Sbb, Registers::B)),
            0x99 => Some(Opcodes::AluR(AluOp::Sbb, Registers::C)),
            0x9a => Some(Opcodes::AluR(AluOp::Sbb, Registers::D)),
            0x9b => Some(Opcodes::AluR(AluOp::Sbb, Registers::E)),
            0x9c => Some(Opcodes::AluR(AluOp::Sbb, Registers::H)),
            0x9d => Some(Opcodes::AluR(AluOp::Sbb, Registers::L)),
            0x9e => Some(Opcodes::AluM(AluOp::Sbb)),
            0x9f => Some(Opcodes::AluR(AluOp::Sbb, Registers::A)),
            0xa0 => Some(Opcodes::AluR(AluOp::Ana, Registers::B)),
            0xa1 => Some(Opcodes::AluR(AluOp::Ana, Registers::C)),
            0xa2 => Some(Opcodes::AluR(AluOp::Ana, Registers::D)),
            0xa3 => Some(Opcodes::AluR(AluOp::Ana, Registers::E)),
            0xa4 => Some(Opcodes::AluR(AluOp::Ana, Registers::H)),
            0xa5 => Some(Opcodes::AluR(AluOp::Ana, Registers::L)),
            0xa6 => Some(Opcodes::AluM(AluOp::Ana)),
            0xa7 => Some(Opcodes::AluR(AluOp::Ana, Registers::A)),
            0xa8 => Some(Opcodes::AluR(AluOp::Xra, Registers::B)),
            0xa9 => Some(Opcodes::AluR(AluOp::Xra, Registers::C)),
            0xaa => Some(Opcodes::AluR(AluOp::Xra, Registers::D)),
            0xab => Some(Opcodes::AluR(AluOp::Xra, Registers::E)),
            0xac => Some(Opcodes::AluR(AluOp::Xra, Registers::H)),
            0xad => Some(Opcodes::AluR(AluOp::Xra, Registers::L)),
            0xae => Some(Opcodes::AluM(AluOp::Xra)),
            0xaf => Some(Opcodes::AluR(AluOp::Xra, Registers::A)),
            0xb0 => Some(Opcodes::AluR(AluOp::Ora, Registers::B)),
            0xb1 => Some(Opcodes::AluR(AluOp::Ora, Registers::C)),
            0xb2 => Some(Opcodes::AluR(AluOp::Ora, Registers::D)),
            0xb3 => Some(Opcodes::AluR(AluOp::Ora, Registers::E)),
            0xb4 => Some(Opcodes::AluR(AluOp::Ora, Registers::H)),
            0xb5 => Some(Opcodes::AluR(AluOp::Ora, Registers::L)),
            0xb6 => Some(Opcodes::AluM(AluOp::Ora)),
            0xb7 => Some(Opcodes::AluR(AluOp::Ora, Registers::A)),
            0xb8 => Some(Opcodes::AluR(AluOp::Cmp, Registers::B)),
            0xb9 => Some(Opcodes::AluR(AluOp::Cmp, Registers::C)),
            0xba => Some(Opcodes::AluR(AluOp::Cmp, Registers::D)),
            0xbb => Some(Opcodes::AluR(AluOp::Cmp, Registers::E)),
            0xbc => Some(Opcodes::AluR(AluOp::Cmp, Registers::H)),
            0xbd => Some(Opcodes::AluR(AluOp::Cmp, Registers::L)),
            0xbe => Some(Opcodes::AluM(AluOp::Cmp)),
            0xbf => Some(Opcodes::AluR(AluOp::Cmp, Registers::A)),
            0xc0 => Some(Opcodes::Rcc(ConditionCodes::Z, false)),
            0xc1 => Some(Opcodes::Pop(Registers::B)),
            0xc2 => Some(Opcodes::Jcc(ConditionCodes::Z, false)),
            0xc3 => Some(Opcodes::Jmp),
            0xc4 => Some(Opcodes::Ccc(ConditionCodes::Z, false)),
            0xc5 => Some(Opcodes::Push(Registers::B)),
            0xc6 => Some(Opcodes::AluI(AluOp::Add)),
            0xc7 => Some(Opcodes::Rst(0)),
            0xc8 => Some(Opcodes::Rcc(ConditionCodes::Z, true)),
            0xc9 => Some(Opcodes::Ret),
            0xca => Some(Opcodes::Jcc(ConditionCodes::Z, true)),
            0xcc => Some(Opcodes::Ccc(ConditionCodes::Z, true)),
            0xcd => Some(Opcodes::Call),
            0xce => Some(Opcodes::AluI(AluOp::Adc)),
            0xcf => Some(Opcodes::Rst(1)),
            0xd0 => Some(Opcodes::Rcc(ConditionCodes::CY, false)),
            0xd1 => Some(Opcodes::Pop(Registers::D)),
            0xd2 => Some(Opcodes::Jcc(ConditionCodes::CY, false)),
            0xd4 => Some(Opcodes::Ccc(ConditionCodes::CY, false)),
            0xd5 => Some(Opcodes::Push(Registers::D)),
            0xd6 => Some(Opcodes::AluI(AluOp::Sub)),
            0xd7 => Some(Opcodes::Rst(2)),
            0xd8 => Some(Opcodes::Rcc(ConditionCodes::CY, true)),
            0xda => Some(Opcodes::Jcc(ConditionCodes::CY, true)),
            0xdc => Some(Opcodes::Ccc(ConditionCodes::CY, true)),
            0xde => Some(Opcodes::AluI(AluOp::Sbb)),
            0xdf => Some(Opcodes::Rst(3)),
            0xe0 => Some(Opcodes::Rcc(ConditionCodes::P, false)),
            0xe1 => Some(Opcodes::Pop(Registers::H)),
            0xe2 => Some(Opcodes::Jcc(ConditionCodes::P, false)),
            0xe3 => Some(Opcodes::Xthl),
            0xe4 => Some(Opcodes::Ccc(ConditionCodes::P, false)),
            0xe5 => Some(Opcodes::Push(Registers::H)),
            0xe6 => Some(Opcodes::AluI(AluOp::Ana)),
            0xe7 => Some(Opcodes::Rst(4)),
            0xe8 => Some(Opcodes::Rcc(ConditionCodes::P, true)),
            0xe9 => Some(Opcodes::Pchl),
            0xea => Some(Opcodes::Jcc(ConditionCodes::P, true)),
            0xeb => Some(Opcodes::Xchg),
            0xec => Some(Opcodes::Ccc(ConditionCodes::P, true)),
            0xee => Some(Opcodes::AluI(AluOp::Xra)),
            0xef => Some(Opcodes::Rst(5)),
            0xf0 => Some(Opcodes::Rcc(ConditionCodes::S, false)),
            0xf1 => Some(Opcodes::PopPsw),
            0xf2 => Some(Opcodes::Jcc(ConditionCodes::S, false)),
            0xf3 => Some(Opcodes::Di),
            0xf4 => Some(Opcodes::Ccc(ConditionCodes::S, false)),
            0xf5 => Some(Opcodes::PushPsw),
            0xf6 => Some(Opcodes::AluI(AluOp::Ora)),
            0xf7 => Some(Opcodes::Rst(6)),
            0xf8 => Some(Opcodes::Rcc(ConditionCodes::S, true)),
            0xf9 => Some(Opcodes::Sphl),
            0xfa => Some(Opcodes::Jcc(ConditionCodes::S, true)),
            0xfb => Some(Opcodes::Ei),
            0xfc => Some(Opcodes::Ccc(ConditionCodes::S, true)),
            0xfe => Some(Opcodes::AluI(AluOp::Cmp)),
            0xff => Some(Opcodes::Rst(7)),
            _ => None,
        }
    }

    /// Register arguments name what the instruction can address.
    pub open spec fn wf(self) -> bool {
        match self {
            Opcodes::Lxi(r) | Opcodes::Inx(r) | Opcodes::Dcx(r) | Opcodes::Dad(r)
            | Opcodes::Push(r) | Opcodes::Pop(r) => is_pair_high(r),
            Opcodes::Stax(r) | Opcodes::Ldax(r) => r == Registers::B || r == Registers::D,
            Opcodes::Rst(n) => n < 8,
            _ => true,
        }
    }

    /// Byte length: opcode and operand bytes.
    pub open spec fn size_spec(self) -> u8 {
        match self {
            Opcodes::Lxi(_) | Opcodes::LxiSp | Opcodes::Shld | Opcodes::Lhld | Opcodes::Sta
            | Opcodes::Lda | Opcodes::Jmp | Opcodes::Jcc(_, _) | Opcodes::Call
            | Opcodes::Ccc(_, _) => 3,
            Opcodes::Mvi(_) | Opcodes::MviM | Opcodes::AluI(_) => 2,
            _ => 1,
        }
    }

    /// Nominal cycle cost.
    pub open spec fn cycles_spec(self) -> u8 {
        match self {
            Opcodes::Lxi(_) | Opcodes::LxiSp | Opcodes::Dad(_) | Opcodes::DadSp | Opcodes::Jmp
            | Opcodes::Jcc(_, _) | Opcodes::Ret | Opcodes::Rcc(_, _) | Opcodes::Pop(_)
            | Opcodes::PopPsw => 10,
            Opcodes::Stax(_) | Opcodes::Ldax(_) | Opcodes::Mvi(_) | Opcodes::MviM
            | Opcodes::MovRR(_, _) | Opcodes::MovRM(_) | Opcodes::MovMR(_) | Opcodes::AluI(_) => 7,
            Opcodes::Inx(_) | Opcodes::InxSp | Opcodes::Dcx(_) | Opcodes::DcxSp | Opcodes::Inr(_)
            | Opcodes::InrM | Opcodes::Dcr(_) | Opcodes::DcrM | Opcodes::Pchl | Opcodes::Sphl => 5,
            Opcodes::Shld | Opcodes::Lhld => 16,
            Opcodes::Sta | Opcodes::Lda => 13,
            Opcodes::Call | Opcodes::Ccc(_, _) => 17,
            Opcodes::Push(_) | Opcodes::PushPsw | Opcodes::Rst(_) => 11,
            Opcodes::Xthl => 18,
            _ => 4,
        }
    }

    /// Length and cycle cost of this instruction.
    pub fn get_instruction_def(&self) -> (r: InstructionDef)
        ensures
            r.size == self.size_spec(),
            r.cycles == self.cycles_spec(),
            1 <= r.size <= 3,
    {
        let size: u8 = match self {
            Opcodes::Lxi(_) | Opcodes::LxiSp | Opcodes::Shld | Opcodes::Lhld | Opcodes::Sta
            | Opcodes::Lda | Opcodes::Jmp | Opcodes::Jcc(_, _) | Opcodes::Call
            | Opcodes::Ccc(_, _) => 3,
            Opcodes::Mvi(_) | Opcodes::MviM | Opcodes::AluI(_) => 2,
            _ => 1,
        };
        let cycles: u8 = match self {
            Opcodes::Lxi(_) | Opcodes::LxiSp | Opcodes::Dad(_) | Opcodes::DadSp | Opcodes::Jmp
            | Opcodes::Jcc(_, _) | Opcodes::Ret | Opcodes::Rcc(_, _) | Opcodes::Pop(_)
            | Opcodes::PopPsw => 10,
            Opcodes::Stax(_) | Opcodes::Ldax(_) | Opcodes::Mvi(_) | Opcodes::MviM
            | Opcodes::MovRR(_, _) | Opcodes::MovRM(_) | Opcodes::MovMR(_) | Opcodes::AluI(_) => 7,
            Opcodes::Inx(_) | Opcodes::InxSp | Opcodes::Dcx(_) | Opcodes::DcxSp | Opcodes::Inr(_)
            | Opcodes::InrM | Opcodes::Dcr(_) | Opcodes::DcrM | Opcodes::Pchl | Opcodes::Sphl => 5,
            Opcodes::Shld | Opcodes::Lhld => 16,
            Opcodes::Sta | Opcodes::Lda => 13,
            Opcodes::Call | Opcodes::Ccc(_, _) => 17,
            Opcodes::Push(_) | Opcodes::PushPsw | Opcodes::Rst(_) => 11,
            Opcodes::Xthl => 18,
            _ => 4,
        };
        InstructionDef { cycles, size }
    }
}

} // verus!
