use i8080::cpu::{Cpu, CpuError};
use i8080::opcodes::{AluOp, InstructionDef, Opcodes};
use i8080::registers::Registers;
use i8080::flags::ConditionCodes;

#[test]
fn reset_state_is_zero() {
    let cpu = Cpu::new();
    assert_eq!(cpu.pc(), 0);
    assert_eq!(cpu.sp(), 0);
    for r in [Registers::A, Registers::B, Registers::C, Registers::D, Registers::E, Registers::H, Registers::L] {
        assert_eq!(cpu.get_register(r), 0);
    }
    assert_eq!(cpu.read_byte(0xFFFF), 0);
    assert!(!cpu.interrupts_enabled());
    assert_eq!(cpu.read_f_reg(), 0x02);
}

#[test]
fn load_rom_copies_from_address_zero() {
    let mut cpu = Cpu::new();
    cpu.write_byte(5, 0xEE);
    cpu.load_rom(&vec![1, 2, 3]);
    assert_eq!(cpu.read_byte(0), 1);
    assert_eq!(cpu.read_byte(1), 2);
    assert_eq!(cpu.read_byte(2), 3);
    assert_eq!(cpu.read_byte(3), 0);
    assert_eq!(cpu.read_byte(5), 0xEE);
}

#[test]
fn load_rom_fills_all_memory() {
    let mut cpu = Cpu::new();
    let image: Vec<u8> = (0..0x10000u32).map(|i| (i % 251) as u8).collect();
    cpu.load_rom(&image);
    assert_eq!(cpu.read_byte(0xFFFF), (0xFFFFu32 % 251) as u8);
}

#[test]
fn run_add_program() {
    let mut cpu = Cpu::new();
    cpu.load_rom(&vec![0x3E, 0x05, 0x06, 0x03, 0x80, 0x00]);
    for _ in 0..3 {
        cpu.step().unwrap();
    }
    assert_eq!(cpu.get_register(Registers::A), 0x08);
    assert!(!cpu.flags().z);
    assert!(!cpu.flags().cy);
    assert_eq!(cpu.pc(), 5);
}

#[test]
fn step_reports_operation_and_cycles() {
    let mut cpu = Cpu::new();
    cpu.load_rom(&vec![0x3E, 0x05, 0x80, 0xC3, 0x00, 0x10]);
    assert_eq!(cpu.step(), Ok((Opcodes::Mvi(Registers::A), 7)));
    assert_eq!(cpu.step(), Ok((Opcodes::AluR(AluOp::Add, Registers::B), 4)));
    assert_eq!(cpu.step(), Ok((Opcodes::Jmp, 10)));
    assert_eq!(cpu.pc(), 0x1000);
}

#[test]
fn undefined_opcode_is_a_decode_error_and_changes_nothing() {
    let mut cpu = Cpu::new();
    cpu.load_rom(&vec![0x3E, 0x42, 0xD9]);
    cpu.step().unwrap();
    let a = cpu.get_register(Registers::A);
    let flags = cpu.flags();
    let r = cpu.step();
    assert_eq!(r, Err(CpuError::DecodeError { byte: 0xD9, address: 2 }));
    assert_eq!(cpu.pc(), 2);
    assert_eq!(cpu.sp(), 0);
    assert_eq!(cpu.get_register(Registers::A), a);
    assert_eq!(cpu.flags(), flags);
    assert_eq!(cpu.read_byte(2), 0xD9);
}

#[test]
fn failed_step_restores_program_counter() {
    let mut cpu = Cpu::new();
    // PUSH B with SP = 0 underflows the stack
    cpu.load_rom(&vec![0xC5]);
    assert_eq!(cpu.step(), Err(CpuError::AddressError { address: -2 }));
    assert_eq!(cpu.pc(), 0);
    assert_eq!(cpu.sp(), 0);
}

#[test]
fn operands_past_end_of_memory_are_an_address_error() {
    let mut cpu = Cpu::new();
    cpu.write_byte(0xFFFF, 0x3E);
    cpu.set_pc(0xFFFF);
    assert_eq!(cpu.step(), Err(CpuError::AddressError { address: 0x10000 }));
    assert_eq!(cpu.pc(), 0xFFFF);
}

#[test]
fn program_counter_wraps_after_last_byte() {
    let mut cpu = Cpu::new();
    cpu.set_pc(0xFFFF);
    assert_eq!(cpu.step(), Ok((Opcodes::Nop, 4)));
    assert_eq!(cpu.pc(), 0);
}

#[test]
fn call_and_return_through_step() {
    let mut cpu = Cpu::new();
    // LXI SP,0x0100; CALL 0x0010; ... at 0x0010: RET
    cpu.load_rom(&vec![0x31, 0x00, 0x01, 0xCD, 0x10, 0x00]);
    cpu.write_byte(0x0010, 0xC9);
    cpu.step().unwrap();
    assert_eq!(cpu.step(), Ok((Opcodes::Call, 17)));
    assert_eq!(cpu.pc(), 0x0010);
    assert_eq!(cpu.read_byte(0x00FE), 0x06);
    assert_eq!(cpu.read_byte(0x00FF), 0x00);
    assert_eq!(cpu.step(), Ok((Opcodes::Ret, 10)));
    assert_eq!(cpu.pc(), 0x0006);
    assert_eq!(cpu.sp(), 0x0100);
}

#[test]
fn restart_pushes_advanced_counter() {
    let mut cpu = Cpu::new();
    cpu.load_rom(&vec![0x31, 0x00, 0x02, 0xEF]);
    cpu.step().unwrap();
    assert_eq!(cpu.step(), Ok((Opcodes::Rst(5), 11)));
    assert_eq!(cpu.pc(), 0x28);
    assert_eq!(cpu.read_byte(0x01FE), 0x04);
}

#[test]
fn decode_table() {
    assert_eq!(Opcodes::from_hex(0x00), Some(Opcodes::Nop));
    assert_eq!(Opcodes::from_hex(0x01), Some(Opcodes::Lxi(Registers::B)));
    assert_eq!(Opcodes::from_hex(0x31), Some(Opcodes::LxiSp));
    assert_eq!(Opcodes::from_hex(0x7E), Some(Opcodes::MovRM(Registers::A)));
    assert_eq!(Opcodes::from_hex(0x77), Some(Opcodes::MovMR(Registers::A)));
    assert_eq!(Opcodes::from_hex(0x41), Some(Opcodes::MovRR(Registers::B, Registers::C)));
    assert_eq!(Opcodes::from_hex(0x9E), Some(Opcodes::AluM(AluOp::Sbb)));
    assert_eq!(Opcodes::from_hex(0xC6), Some(Opcodes::AluI(AluOp::Add)));
    assert_eq!(Opcodes::from_hex(0xFE), Some(Opcodes::AluI(AluOp::Cmp)));
    assert_eq!(Opcodes::from_hex(0xC2), Some(Opcodes::Jcc(ConditionCodes::Z, false)));
    assert_eq!(Opcodes::from_hex(0xFC), Some(Opcodes::Ccc(ConditionCodes::S, true)));
    assert_eq!(Opcodes::from_hex(0xE0), Some(Opcodes::Rcc(ConditionCodes::P, false)));
    assert_eq!(Opcodes::from_hex(0xF5), Some(Opcodes::PushPsw));
    assert_eq!(Opcodes::from_hex(0xD1), Some(Opcodes::Pop(Registers::D)));
    assert_eq!(Opcodes::from_hex(0xFB), Some(Opcodes::Ei));
    for b in [0x08u8, 0x10, 0x18, 0x20, 0x28, 0x30, 0x38, 0x76, 0xCB, 0xD3, 0xD9, 0xDB, 0xDD, 0xED, 0xFD] {
        assert_eq!(Opcodes::from_hex(b), None, "byte {:#04x}", b);
    }
    let defined = (0..=255u8).filter(|b| Opcodes::from_hex(*b).is_some()).count();
    assert_eq!(defined, 241);
}

#[test]
fn instruction_sizes_and_cycles() {
    assert_eq!(Opcodes::Nop.get_instruction_def(), InstructionDef { cycles: 4, size: 1 });
    assert_eq!(Opcodes::Lxi(Registers::H).get_instruction_def(), InstructionDef { cycles: 10, size: 3 });
    assert_eq!(Opcodes::MviM.get_instruction_def(), InstructionDef { cycles: 7, size: 2 });
    assert_eq!(Opcodes::Shld.get_instruction_def(), InstructionDef { cycles: 16, size: 3 });
    assert_eq!(Opcodes::Sta.get_instruction_def(), InstructionDef { cycles: 13, size: 3 });
    assert_eq!(Opcodes::AluI(AluOp::Ana).get_instruction_def(), InstructionDef { cycles: 7, size: 2 });
    assert_eq!(Opcodes::Ccc(ConditionCodes::CY, true).get_instruction_def(), InstructionDef { cycles: 17, size: 3 });
    assert_eq!(Opcodes::Xthl.get_instruction_def(), InstructionDef { cycles: 18, size: 1 });
    assert_eq!(Opcodes::PushPsw.get_instruction_def(), InstructionDef { cycles: 11, size: 1 });
}

#[test]
fn register_order() {
    assert_eq!(Registers::A.next(), Registers::B);
    assert_eq!(Registers::B.next(), Registers::C);
    assert_eq!(Registers::H.next(), Registers::L);
}

#[test]
fn register_pair_accessors() {
    let mut cpu = Cpu::new();
    cpu.set_register_pair(Registers::D, Registers::E, 0xBEEF);
    assert_eq!(cpu.get_register(Registers::D), 0xBE);
    assert_eq!(cpu.get_register(Registers::E), 0xEF);
    cpu.swap_register_pairs(Registers::D, Registers::E);
    assert_eq!(cpu.get_register_pair(Registers::D, Registers::E), 0xEFBE);
}
