use vstd::prelude::*;

use crate::flags::{psw_of, Flags};
use crate::instructions::{execute, execute_spec, low_word, throw_unimplemented_instruction_error};
use crate::opcodes::{decode, Opcodes};
use crate::registers::{next_register, Registers};

verus! {

/// Number of bytes of memory: the whole 16-bit address space.
pub const MEMORY_SIZE: usize = 0x10000;

/// Errors that a step reports to its driver.
#[derive(Clone, Copy, Debug, PartialEq, Eq, Structural)]
pub enum CpuError {
    /// The byte at `address` is no defined opcode.
    DecodeError { byte: u8, address: u16 },
    /// A memory or stack access fell outside 0..=0xFFFF; `address` is the
    /// lowest address outside memory that the access would have touched.
    AddressError { address: i32 },
}

/// The machine as a mathematical value: registers, stack pointer, program
/// counter, flags, memory and the interrupt-enable bit.
pub struct CpuState {
    pub a: u8,
    pub b: u8,
    pub c: u8,
    pub d: u8,
    pub e: u8,
    pub h: u8,
    pub l: u8,
    pub sp: u16,
    pub pc: u16,
    pub flags: Flags,
    pub mem: Seq<u8>,
    pub interrupts_enabled: bool,
}

impl CpuState {
    /// Memory spans the full address space.
    pub open spec fn wf(self) -> bool {
        self.mem.len() == MEMORY_SIZE
    }

    /// The machine at reset: everything zero, flags clear.
    pub open spec fn reset() -> CpuState {
        CpuState {
            a: 0,
            b: 0,
            c: 0,
            d: 0,
            e: 0,
            h: 0,
            l: 0,
            sp: 0,
            pc: 0,
            flags: Flags { z: false, s: false, p: false, cy: false, ac: false },
            mem: Seq::new(MEMORY_SIZE as nat, |i: int| 0u8),
            interrupts_enabled: false,
        }
    }

    pub open spec fn reg(self, r: Registers) -> u8 {
        match r {
            Registers::A => self.a,
            Registers::B => self.b,
            Registers::C => self.c,
            Registers::D => self.d,
            Registers::E => self.e,
            Registers::H => self.h,
            Registers::L => self.l,
        }
    }

    pub open spec fn set_reg(self, r: Registers, v: u8) -> CpuState {
        match r {
            Registers::A => CpuState { a: v, ..self },
            Registers::B => CpuState { b: v, ..self },
            Registers::C => CpuState { c: v, ..self },
            Registers::D => CpuState { d: v, ..self },
            Registers::E => CpuState { e: v, ..self },
            Registers::H => CpuState { h: v, ..self },
            Registers::L => CpuState { l: v, ..self },
        }
    }

    /// The 16-bit value of registers `hi` and `lo`, high byte first.
    pub open spec fn regs16(self, hi: Registers, lo: Registers) -> u16 {
        (self.reg(hi) * 256 + self.reg(lo)) as u16
    }

    /// Registers `hi` and `lo` set to the high and low byte of `v`.
    pub open spec fn set_regs16(self, hi: Registers, lo: Registers, v: u16) -> CpuState {
        self.set_reg(hi, (v / 256) as u8).set_reg(lo, (v % 256) as u8)
    }

    /// The register pair whose high register is `hi`.
    pub open spec fn pair(self, hi: Registers) -> u16 {
        self.regs16(hi, next_register(hi))
    }

    pub open spec fn set_pair(self, hi: Registers, v: u16) -> CpuState {
        self.set_regs16(hi, next_register(hi), v)
    }

    /// The H:L pair, the memory pointer.
    pub open spec fn hl(self) -> u16 {
        self.pair(Registers::H)
    }

    /// The byte at `addr`.
    pub open spec fn byte(self, addr: int) -> u8 {
        self.mem[addr]
    }

    pub open spec fn write(self, addr: int, v: u8) -> CpuState {
        CpuState { mem: self.mem.update(addr, v), ..self }
    }

    pub open spec fn with_flags(self, f: Flags) -> CpuState {
        CpuState { flags: f, ..self }
    }

    pub open spec fn with_sp(self, sp: u16) -> CpuState {
        CpuState { sp, ..self }
    }

    pub open spec fn with_pc(self, pc: u16) -> CpuState {
        CpuState { pc, ..self }
    }

    /// The program status word of the current flags.
    pub open spec fn psw(self) -> u8 {
        psw_of(self.flags)
    }
}

/// One fetch-decode-execute cycle: decode the byte at the program counter,
/// take its operand bytes, advance the program counter past them (wrapping),
/// then execute. On success, the new state and the operation.
pub open spec fn step_spec(s: CpuState) -> Result<(CpuState, Opcodes), CpuError> {
    let byte = s.byte(s.pc as int);
    match decode(byte) {
        None => Err(CpuError::DecodeError { byte, address: s.pc }),
        Some(op) => {
            let size = op.size_spec();
            if s.pc + size > MEMORY_SIZE {
                Err(CpuError::AddressError { address: MEMORY_SIZE as i32 })
            } else {
                let lo = if size >= 2 {
                    s.byte(s.pc + 1)
                } else {
                    0
                };
                let hi = if size >= 3 {
                    s.byte(s.pc + 2)
                } else {
                    0
                };
                match execute_spec(s.with_pc(low_word(s.pc + size)), op, lo, hi) {
                    Ok(t) => Ok((t, op)),
                    Err(e) => Err(e),
                }
            }
        },
    }
}

/// The machine: register file, flags, stack pointer, program counter and
/// 64KB of memory.
pub struct Cpu {
    a: u8,
    b: u8,
    c: u8,
    d: u8,
    e: u8,
    h: u8,
    l: u8,
    sp: u16,
    pc: u16,
    flags: Flags,
    memory: [u8; MEMORY_SIZE],
    interrupts_enabled: bool,
}

impl View for Cpu {
    type V = CpuState;

    closed spec fn view(&self) -> CpuState {
        CpuState {
            a: self.a,
            b: self.b,
            c: self.c,
            d: self.d,
            e: self.e,
            h: self.h,
            l: self.l,
            sp: self.sp,
            pc: self.pc,
            flags: self.flags,
            mem: self.memory@,
            interrupts_enabled: self.interrupts_enabled,
        }
    }
}

impl Cpu {
    /// A machine at reset.
    pub fn new() -> (r: Cpu)
        ensures
            r@ == CpuState::reset(),
    {
        let memory: [u8; MEMORY_SIZE] = [0u8; MEMORY_SIZE];
        let r = Cpu {
            a: 0,
            b: 0,
            c: 0,
            d: 0,
            e: 0,
            h: 0,
            l: 0,
            sp: 0,
            pc: 0,
            flags: Flags::cleared(),
            memory,
            interrupts_enabled: false,
        };
        assert(r@.mem =~= CpuState::reset().mem);
        r
    }

    /// Copies `buffer` verbatim into memory from address 0; the rest of
    /// memory and all registers stay as they were.
    pub fn load_rom(&mut self, buffer: &Vec<u8>)
        requires
            buffer.len() <= MEMORY_SIZE,
        ensures
            final(self)@ == (CpuState {
                mem: buffer@ + old(self)@.mem.subrange(buffer.len() as int, MEMORY_SIZE as int),
                ..old(self)@
            }),
    {
        let mut i: usize = 0;
        while i < buffer.len()
            invariant
                i <= buffer.len() <= MEMORY_SIZE,
                self.memory@.len() == MEMORY_SIZE,
                self@ == (CpuState { mem: self@.mem, ..old(self)@ }),
                forall|j: int| 0 <= j < i ==> self.memory@[j] == buffer@[j],
                forall|j: int| i <= j < MEMORY_SIZE ==> self.memory@[j] == old(self)@.mem[j],
            decreases buffer.len() - i,
        {
            self.memory[i] = buffer[i];
            i = i + 1;
        }
        assert(self@.mem =~= buffer@ + old(self)@.mem.subrange(buffer.len() as int, MEMORY_SIZE as int));
    }

    pub fn get_register(&self, r: Registers) -> (v: u8)
        ensures
            v == self@.reg(r),
    {
        match r {
            Registers::A => self.a,
            Registers::B => self.b,
            Registers::C => self.c,
            Registers::D => self.d,
            Registers::E => self.e,
            Registers::H => self.h,
            Registers::L => self.l,
        }
    }

    pub fn set_register(&mut self, r: Registers, v: u8)
        ensures
            final(self)@ == old(self)@.set_reg(r, v),
    {
        match r {
            Registers::A => self.a = v,
            Registers::B => self.b = v,
            Registers::C => self.c = v,
            Registers::D => self.d = v,
            Registers::E => self.e = v,
            Registers::H => self.h = v,
            Registers::L => self.l = v,
        }
    }

    /// The 16-bit value of registers `r1` (high byte) and `r2` (low byte).
    pub fn get_register_pair(&self, r1: Registers, r2: Registers) -> (v: u16)
        ensures
            v == self@.regs16(r1, r2),
    {
        self.get_register(r1) as u16 * 256 + self.get_register(r2) as u16
    }

    /// Sets `r1` to the high byte and `r2` to the low byte of `value`.
    pub fn set_register_pair(&mut self, r1: Registers, r2: Registers, value: u16)
        ensures
            final(self)@ == old(self)@.set_regs16(r1, r2, value),
    {
        self.set_register(r1, (value / 256) as u8);
        self.set_register(r2, (value % 256) as u8);
    }

    /// Exchanges the contents of registers `r1` and `r2`.
    pub fn swap_register_pairs(&mut self, r1: Registers, r2: Registers)
        ensures
            final(self)@ == old(self)@.set_reg(r1, old(self)@.reg(r2)).set_reg(r2, old(self)@.reg(r1)),
    {
        let temp = self.get_register(r1);
        let other = self.get_register(r2);
        self.set_register(r1, other);
        self.set_register(r2, temp);
    }

    pub fn sp(&self) -> (v: u16)
        ensures
            v == self@.sp,
    {
        self.sp
    }

    pub fn set_sp(&mut self, v: u16)
        ensures
            final(self)@ == old(self)@.with_sp(v),
    {
        self.sp = v;
    }

    pub fn pc(&self) -> (v: u16)
        ensures
            v == self@.pc,
    {
        self.pc
    }

    pub fn set_pc(&mut self, v: u16)
        ensures
            final(self)@ == old(self)@.with_pc(v),
    {
        self.pc = v;
    }

    pub fn flags(&self) -> (f: Flags)
        ensures
            f == self@.flags,
    {
        self.flags
    }

    pub fn set_flags(&mut self, f: Flags)
        ensures
            final(self)@ == old(self)@.with_flags(f),
    {
        self.flags = f;
    }

    /// The flags packed into the program status word.
    pub fn read_f_reg(&self) -> (v: u8)
        ensures
            v == self@.psw(),
    {
        self.flags.to_psw()
    }

    /// The byte at `addr`.
    pub fn read_byte(&self, addr: u16) -> (v: u8)
        ensures
            v == self@.byte(addr as int),
    {
        self.memory[addr as usize]
    }

    /// Stores `v` at `addr`.
    pub fn write_byte(&mut self, addr: u16, v: u8)
        ensures
            final(self)@ == old(self)@.write(addr as int, v),
    {
        self.memory[addr as usize] = v;
    }

    /// The interrupt-enable bit, kept for an outside interrupt controller.
    pub fn interrupts_enabled(&self) -> (v: bool)
        ensures
            v == self@.interrupts_enabled,
    {
        self.interrupts_enabled
    }

    pub fn set_interrupts_enabled(&mut self, v: bool)
        ensures
            final(self)@ == (CpuState { interrupts_enabled: v, ..old(self)@ }),
    {
        self.interrupts_enabled = v;
    }
    /// Executes one instruction. On success, reports the operation and its
    /// cycle cost; on failure the machine is left exactly as it was.
    pub fn step(&mut self) -> (r: Result<(Opcodes, u8), CpuError>)
        ensures
            match step_spec(old(self)@) {
                Ok((t, op)) => final(self)@ == t && r == Ok::<(Opcodes, u8), CpuError>(
                    (op, op.cycles_spec()),
                ),
                Err(e) => final(self)@ == old(self)@ && r == Err::<(Opcodes, u8), CpuError>(e),
            },
    {
        let pc = self.pc;
        let byte = self.read_byte(pc);
        let op = match Opcodes::from_hex(byte) {
            Some(op) => op,
            None => return Err(throw_unimplemented_instruction_error(self)),
        };
        let def = op.get_instruction_def();
        let end: u32 = pc as u32 + def.size as u32;
        if end > MEMORY_SIZE as u32 {
            return Err(CpuError::AddressError { address: MEMORY_SIZE as i32 });
        }
        let lo = if def.size >= 2 {
            self.read_byte(pc + 1)
        } else {
            0
        };
        let hi = if def.size >= 3 {
            self.read_byte(pc + 2)
        } else {
            0
        };
        self.pc = (end % MEMORY_SIZE as u32) as u16;
        match execute(self, op, [lo, hi]) {
            Ok(()) => Ok((op, def.cycles)),
            Err(e) => {
                self.pc = pc;
                Err(e)
            },
        }
    }
}

} // verus!
