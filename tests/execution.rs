use i8080::cpu::{Cpu, CpuError};
use i8080::flags::{parity, ConditionCodes, Flags};
use i8080::instructions::{
    aci, adc_r, add_m, add_r, ana_r, call, cma, cmc, cmp_r, cpi, daa, dad_rp, dad_sp, dcr_m,
    dcr_r, dcx_rp, dcx_sp, execute, inr_m, inr_r, inx_rp, inx_sp, jcc, jmp, lda, ldax, lhld,
    lxi_r, lxi_sp, mov_m_r, mov_r_m, mov_r_r, mvi_m, mvi_r, ora_r, pchl, pop_psw, pop_rp,
    push_psw, push_rp, ral, rar, rcc, ret, rlc, rrc, rst_n, sbb_r, shld, sphl, sta, stax, stc,
    sub_r, sui, throw_unimplemented_instruction_error, xchg, xra_r, xthl,
};
use i8080::opcodes::{AluOp, Opcodes};
use i8080::registers::Registers;

fn cpu_with_program(program: &[u8]) -> Cpu {
    let mut cpu = Cpu::new();
    cpu.load_rom(&program.to_vec());
    cpu
}

#[test]
fn parity_matches_bit_count_for_every_byte() {
    for v in 0..=255u8 {
        assert_eq!(parity(v), v.count_ones() % 2 == 0, "byte {:#04x}", v);
    }
}

#[test]
fn parity_flag_after_logical_operations() {
    let mut cpu = Cpu::new();
    mvi_r(&mut cpu, Registers::A, 0b0000_0011);
    mvi_r(&mut cpu, Registers::B, 0b0000_0001);
    ora_r(&mut cpu, Registers::B);
    assert!(cpu.flags().p);
    mvi_r(&mut cpu, Registers::B, 0b0000_0100);
    ora_r(&mut cpu, Registers::B);
    assert_eq!(cpu.get_register(Registers::A), 0b0000_0111);
    assert!(!cpu.flags().p);
}

#[test]
fn add_with_carry_wraps_to_zero() {
    let mut cpu = Cpu::new();
    mvi_r(&mut cpu, Registers::A, 0xFF);
    assert!(!cpu.flags().cy);
    aci(&mut cpu, 0x01);
    assert_eq!(cpu.get_register(Registers::A), 0x00);
    let f = cpu.flags();
    assert!(f.z);
    assert!(f.cy);
    assert!(f.ac);
}

#[test]
fn add_with_carry_uses_incoming_carry() {
    let mut cpu = Cpu::new();
    stc(&mut cpu);
    mvi_r(&mut cpu, Registers::A, 0x10);
    mvi_r(&mut cpu, Registers::C, 0x20);
    adc_r(&mut cpu, Registers::C);
    assert_eq!(cpu.get_register(Registers::A), 0x31);
    assert!(!cpu.flags().cy);
}

#[test]
fn subtract_with_borrow_out() {
    let mut cpu = Cpu::new();
    mvi_r(&mut cpu, Registers::A, 0x00);
    sui(&mut cpu, 0x01);
    assert_eq!(cpu.get_register(Registers::A), 0xFF);
    let f = cpu.flags();
    assert!(f.cy);
    assert!(!f.z);
    assert!(f.s);
}

#[test]
fn subtract_with_borrow_in() {
    let mut cpu = Cpu::new();
    stc(&mut cpu);
    mvi_r(&mut cpu, Registers::A, 0x05);
    mvi_r(&mut cpu, Registers::D, 0x02);
    sbb_r(&mut cpu, Registers::D);
    assert_eq!(cpu.get_register(Registers::A), 0x02);
    assert!(!cpu.flags().cy);
    mvi_r(&mut cpu, Registers::D, 0x03);
    sub_r(&mut cpu, Registers::D);
    assert_eq!(cpu.get_register(Registers::A), 0xFF);
    assert!(cpu.flags().cy);
    assert!(cpu.flags().ac);
}

#[test]
fn decimal_adjust_carries_out() {
    let mut cpu = Cpu::new();
    mvi_r(&mut cpu, Registers::A, 0x9A);
    daa(&mut cpu);
    assert_eq!(cpu.get_register(Registers::A), 0x00);
    assert!(cpu.flags().cy);
    assert!(cpu.flags().z);
}

#[test]
fn decimal_adjust_after_bcd_addition() {
    let mut cpu = Cpu::new();
    mvi_r(&mut cpu, Registers::A, 0x38);
    mvi_r(&mut cpu, Registers::B, 0x45);
    add_r(&mut cpu, Registers::B);
    assert_eq!(cpu.get_register(Registers::A), 0x7D);
    daa(&mut cpu);
    assert_eq!(cpu.get_register(Registers::A), 0x83);
    assert!(!cpu.flags().cy);
}

#[test]
fn increment_then_decrement_restores_register() {
    for v in 0..=255u8 {
        for carry in [false, true] {
            let mut cpu = Cpu::new();
            if carry {
                stc(&mut cpu);
            }
            mvi_r(&mut cpu, Registers::E, v);
            inr_r(&mut cpu, Registers::E);
            dcr_r(&mut cpu, Registers::E);
            assert_eq!(cpu.get_register(Registers::E), v);
            let f = cpu.flags();
            assert_eq!(f.cy, carry);
            assert_eq!(f.z, v == 0);
            assert_eq!(f.s, v >= 0x80);
            assert_eq!(f.p, v.count_ones() % 2 == 0);
            assert_eq!(f.ac, v % 16 == 15);
        }
    }
}

#[test]
fn decrement_then_increment_restores_memory() {
    let mut cpu = Cpu::new();
    lxi_r(&mut cpu, Registers::H, [0x34, 0x12]);
    mvi_m(&mut cpu, 0x00);
    dcr_m(&mut cpu);
    assert_eq!(cpu.read_byte(0x1234), 0xFF);
    assert!(cpu.flags().s);
    inr_m(&mut cpu);
    assert_eq!(cpu.read_byte(0x1234), 0x00);
    assert!(cpu.flags().z);
    assert!(cpu.flags().ac);
    assert!(!cpu.flags().cy);
}

#[test]
fn increment_keeps_carry() {
    let mut cpu = Cpu::new();
    stc(&mut cpu);
    mvi_r(&mut cpu, Registers::A, 0xFF);
    inr_r(&mut cpu, Registers::A);
    assert_eq!(cpu.get_register(Registers::A), 0);
    assert!(cpu.flags().z);
    assert!(cpu.flags().cy);
}

#[test]
fn push_then_pop_restores_pair() {
    let mut cpu = Cpu::new();
    lxi_sp(&mut cpu, [0x00, 0x20]);
    lxi_r(&mut cpu, Registers::B, [0xCD, 0xAB]);
    push_rp(&mut cpu, Registers::B).unwrap();
    assert_eq!(cpu.sp(), 0x1FFE);
    assert_eq!(cpu.read_byte(0x1FFF), 0xAB);
    assert_eq!(cpu.read_byte(0x1FFE), 0xCD);
    lxi_r(&mut cpu, Registers::B, [0, 0]);
    pop_rp(&mut cpu, Registers::B).unwrap();
    assert_eq!(cpu.get_register_pair(Registers::B, Registers::C), 0xABCD);
    assert_eq!(cpu.sp(), 0x2000);
}

#[test]
fn push_then_pop_moves_pair_between_registers() {
    let mut cpu = Cpu::new();
    lxi_sp(&mut cpu, [0x00, 0x30]);
    lxi_r(&mut cpu, Registers::H, [0x22, 0x11]);
    push_rp(&mut cpu, Registers::H).unwrap();
    pop_rp(&mut cpu, Registers::D).unwrap();
    assert_eq!(cpu.get_register(Registers::D), 0x11);
    assert_eq!(cpu.get_register(Registers::E), 0x22);
}

#[test]
fn push_then_pop_restores_status_word() {
    let mut cpu = Cpu::new();
    lxi_sp(&mut cpu, [0x00, 0x10]);
    mvi_r(&mut cpu, Registers::A, 0x80);
    mvi_r(&mut cpu, Registers::B, 0x80);
    add_r(&mut cpu, Registers::B);
    let before = cpu.flags();
    assert_eq!(cpu.read_f_reg(), 0b0100_0111);
    push_psw(&mut cpu).unwrap();
    assert_eq!(cpu.read_byte(0x0FFE), 0b0100_0111);
    assert_eq!(cpu.read_byte(0x0FFF), 0x00);
    cmc(&mut cpu);
    mvi_r(&mut cpu, Registers::A, 0x55);
    pop_psw(&mut cpu).unwrap();
    assert_eq!(cpu.flags(), before);
    assert_eq!(cpu.get_register(Registers::A), 0x00);
    assert_eq!(cpu.sp(), 0x1000);
}

#[test]
fn status_word_layout() {
    let all = Flags { z: true, s: true, p: true, cy: true, ac: true };
    assert_eq!(all.to_psw(), 0b1101_0111);
    assert_eq!(Flags::cleared().to_psw(), 0b0000_0010);
    assert_eq!(Flags::from_psw(0b1101_0111), all);
    assert_eq!(Flags::from_psw(0xFF), all);
    let only_carry = Flags { z: false, s: false, p: false, cy: true, ac: false };
    assert_eq!(Flags::from_psw(0x01), only_carry);
}

#[test]
fn push_below_address_zero_is_an_address_error() {
    let mut cpu = Cpu::new();
    lxi_sp(&mut cpu, [0x01, 0x00]);
    let r = push_rp(&mut cpu, Registers::B);
    assert_eq!(r, Err(CpuError::AddressError { address: -1 }));
    assert_eq!(cpu.sp(), 1);
    assert_eq!(cpu.read_byte(0), 0);
}

#[test]
fn pop_past_end_of_memory_is_an_address_error() {
    let mut cpu = Cpu::new();
    lxi_sp(&mut cpu, [0xFF, 0xFF]);
    assert_eq!(pop_rp(&mut cpu, Registers::D), Err(CpuError::AddressError { address: 0x10000 }));
    assert_eq!(ret(&mut cpu), Err(CpuError::AddressError { address: 0x10000 }));
    assert_eq!(xthl(&mut cpu), Err(CpuError::AddressError { address: 0x10000 }));
    assert_eq!(cpu.sp(), 0xFFFF);
    assert_eq!(cpu.pc(), 0);
}

#[test]
fn pop_at_top_wraps_stack_pointer() {
    let mut cpu = Cpu::new();
    lxi_sp(&mut cpu, [0xFE, 0xFF]);
    pop_rp(&mut cpu, Registers::B).unwrap();
    assert_eq!(cpu.sp(), 0);
}

#[test]
fn direct_word_past_end_is_an_address_error() {
    let mut cpu = Cpu::new();
    assert_eq!(shld(&mut cpu, [0xFF, 0xFF]), Err(CpuError::AddressError { address: 0x10000 }));
    assert_eq!(lhld(&mut cpu, [0xFF, 0xFF]), Err(CpuError::AddressError { address: 0x10000 }));
}

#[test]
fn store_and_load_hl_direct() {
    let mut cpu = Cpu::new();
    lxi_r(&mut cpu, Registers::H, [0x78, 0x56]);
    shld(&mut cpu, [0x00, 0x40]).unwrap();
    assert_eq!(cpu.read_byte(0x4000), 0x78);
    assert_eq!(cpu.read_byte(0x4001), 0x56);
    lxi_r(&mut cpu, Registers::H, [0, 0]);
    lhld(&mut cpu, [0x00, 0x40]).unwrap();
    assert_eq!(cpu.get_register(Registers::H), 0x56);
    assert_eq!(cpu.get_register(Registers::L), 0x78);
}

#[test]
fn moves_between_registers_and_memory() {
    let mut cpu = Cpu::new();
    mvi_r(&mut cpu, Registers::C, 0x42);
    mov_r_r(&mut cpu, Registers::A, Registers::C);
    assert_eq!(cpu.get_register(Registers::A), 0x42);
    lxi_r(&mut cpu, Registers::H, [0x10, 0x20]);
    mov_m_r(&mut cpu, Registers::A);
    assert_eq!(cpu.read_byte(0x2010), 0x42);
    mov_r_m(&mut cpu, Registers::D);
    assert_eq!(cpu.get_register(Registers::D), 0x42);
    add_m(&mut cpu);
    assert_eq!(cpu.get_register(Registers::A), 0x84);
}

#[test]
fn accumulator_direct_and_indirect() {
    let mut cpu = Cpu::new();
    mvi_r(&mut cpu, Registers::A, 0x99);
    sta(&mut cpu, [0x34, 0x12]);
    assert_eq!(cpu.read_byte(0x1234), 0x99);
    mvi_r(&mut cpu, Registers::A, 0);
    lda(&mut cpu, [0x34, 0x12]);
    assert_eq!(cpu.get_register(Registers::A), 0x99);
    lxi_r(&mut cpu, Registers::D, [0x00, 0x05]);
    stax(&mut cpu, Registers::D);
    assert_eq!(cpu.read_byte(0x0500), 0x99);
    lxi_r(&mut cpu, Registers::B, [0x34, 0x12]);
    mvi_r(&mut cpu, Registers::A, 0);
    ldax(&mut cpu, Registers::B);
    assert_eq!(cpu.get_register(Registers::A), 0x99);
}

#[test]
fn exchange_instructions() {
    let mut cpu = Cpu::new();
    lxi_r(&mut cpu, Registers::H, [0x02, 0x01]);
    lxi_r(&mut cpu, Registers::D, [0x04, 0x03]);
    xchg(&mut cpu);
    assert_eq!(cpu.get_register_pair(Registers::H, Registers::L), 0x0304);
    assert_eq!(cpu.get_register_pair(Registers::D, Registers::E), 0x0102);

    let mut mem = Cpu::new();
    lxi_sp(&mut mem, [0x00, 0x10]);
    lxi_r(&mut mem, Registers::H, [0xBB, 0xAA]);
    push_rp(&mut mem, Registers::H).unwrap();
    lxi_r(&mut mem, Registers::H, [0x22, 0x11]);
    xthl(&mut mem).unwrap();
    assert_eq!(mem.get_register_pair(Registers::H, Registers::L), 0xAABB);
    assert_eq!(mem.read_byte(0x0FFE), 0x22);
    assert_eq!(mem.read_byte(0x0FFF), 0x11);
    assert_eq!(mem.sp(), 0x0FFE);
    sphl(&mut mem);
    assert_eq!(mem.sp(), 0xAABB);
}

#[test]
fn register_pair_arithmetic_wraps() {
    let mut cpu = Cpu::new();
    lxi_r(&mut cpu, Registers::B, [0xFF, 0xFF]);
    inx_rp(&mut cpu, Registers::B);
    assert_eq!(cpu.get_register_pair(Registers::B, Registers::C), 0);
    dcx_rp(&mut cpu, Registers::B);
    assert_eq!(cpu.get_register_pair(Registers::B, Registers::C), 0xFFFF);
    dcx_sp(&mut cpu);
    assert_eq!(cpu.sp(), 0xFFFF);
    inx_sp(&mut cpu);
    assert_eq!(cpu.sp(), 0);
}

#[test]
fn double_add_sets_carry_only() {
    let mut cpu = Cpu::new();
    lxi_r(&mut cpu, Registers::H, [0x00, 0x80]);
    lxi_r(&mut cpu, Registers::D, [0x01, 0x80]);
    dad_rp(&mut cpu, Registers::D);
    assert_eq!(cpu.get_register_pair(Registers::H, Registers::L), 0x0001);
    assert!(cpu.flags().cy);
    assert!(!cpu.flags().z);
    lxi_sp(&mut cpu, [0x10, 0x00]);
    dad_sp(&mut cpu);
    assert_eq!(cpu.get_register_pair(Registers::H, Registers::L), 0x0011);
    assert!(!cpu.flags().cy);
}

#[test]
fn logical_operations_flags() {
    let mut cpu = Cpu::new();
    stc(&mut cpu);
    mvi_r(&mut cpu, Registers::A, 0xF0);
    mvi_r(&mut cpu, Registers::B, 0x08);
    ana_r(&mut cpu, Registers::B);
    assert_eq!(cpu.get_register(Registers::A), 0x00);
    let f = cpu.flags();
    assert!(f.z);
    assert!(!f.cy);
    assert!(f.ac);
    mvi_r(&mut cpu, Registers::A, 0xFF);
    xra_r(&mut cpu, Registers::A);
    assert_eq!(cpu.get_register(Registers::A), 0);
    assert!(!cpu.flags().ac);
    cma(&mut cpu);
    assert_eq!(cpu.get_register(Registers::A), 0xFF);
}

#[test]
fn compare_leaves_accumulator() {
    let mut cpu = Cpu::new();
    mvi_r(&mut cpu, Registers::A, 0x05);
    cpi(&mut cpu, 0x05);
    assert!(cpu.flags().z);
    assert_eq!(cpu.get_register(Registers::A), 0x05);
    mvi_r(&mut cpu, Registers::L, 0x06);
    cmp_r(&mut cpu, Registers::L);
    assert!(cpu.flags().cy);
    assert!(!cpu.flags().z);
    assert_eq!(cpu.get_register(Registers::A), 0x05);
}

#[test]
fn rotates() {
    let mut cpu = Cpu::new();
    mvi_r(&mut cpu, Registers::A, 0b1000_0001);
    rlc(&mut cpu);
    assert_eq!(cpu.get_register(Registers::A), 0b0000_0011);
    assert!(cpu.flags().cy);
    rrc(&mut cpu);
    assert_eq!(cpu.get_register(Registers::A), 0b1000_0001);
    assert!(cpu.flags().cy);
    // carry is set: RAL shifts it in at bit 0
    mvi_r(&mut cpu, Registers::A, 0b0100_0000);
    ral(&mut cpu);
    assert_eq!(cpu.get_register(Registers::A), 0b1000_0001);
    assert!(!cpu.flags().cy);
    rar(&mut cpu);
    assert_eq!(cpu.get_register(Registers::A), 0b0100_0000);
    assert!(cpu.flags().cy);
    rar(&mut cpu);
    assert_eq!(cpu.get_register(Registers::A), 0b1010_0000);
    assert!(!cpu.flags().cy);
}

#[test]
fn jumps_calls_and_returns() {
    let mut cpu = Cpu::new();
    lxi_sp(&mut cpu, [0x00, 0x01]);
    jmp(&mut cpu, [0x34, 0x12]);
    assert_eq!(cpu.pc(), 0x1234);
    jcc(&mut cpu, ConditionCodes::Z, true, [0, 0]);
    assert_eq!(cpu.pc(), 0x1234);
    jcc(&mut cpu, ConditionCodes::Z, false, [0x00, 0x20]);
    assert_eq!(cpu.pc(), 0x2000);
    call(&mut cpu, [0x00, 0x30]).unwrap();
    assert_eq!(cpu.pc(), 0x3000);
    assert_eq!(cpu.sp(), 0x00FE);
    assert_eq!(cpu.read_byte(0x00FE), 0x00);
    assert_eq!(cpu.read_byte(0x00FF), 0x20);
    rcc(&mut cpu, ConditionCodes::CY, true).unwrap();
    assert_eq!(cpu.pc(), 0x3000);
    ret(&mut cpu).unwrap();
    assert_eq!(cpu.pc(), 0x2000);
    assert_eq!(cpu.sp(), 0x0100);
    rst_n(&mut cpu, 7).unwrap();
    assert_eq!(cpu.pc(), 0x38);
    lxi_r(&mut cpu, Registers::H, [0x21, 0x43]);
    pchl(&mut cpu);
    assert_eq!(cpu.pc(), 0x4321);
}

#[test]
fn call_below_address_zero_fails_unchanged() {
    let mut cpu = Cpu::new();
    assert_eq!(call(&mut cpu, [0x00, 0x30]), Err(CpuError::AddressError { address: -2 }));
    assert_eq!(cpu.pc(), 0);
    assert_eq!(cpu.sp(), 0);
}

#[test]
fn decode_error_names_byte_and_address() {
    let mut cpu = cpu_with_program(&[0x00, 0xD9]);
    cpu.step().unwrap();
    assert_eq!(
        throw_unimplemented_instruction_error(&cpu),
        CpuError::DecodeError { byte: 0xD9, address: 1 }
    );
}

#[test]
fn execute_dispatches_to_handlers() {
    let mut cpu = Cpu::new();
    execute(&mut cpu, Opcodes::Mvi(Registers::A), [0x07, 0]).unwrap();
    execute(&mut cpu, Opcodes::AluI(AluOp::Add), [0x03, 0]).unwrap();
    assert_eq!(cpu.get_register(Registers::A), 0x0A);
    execute(&mut cpu, Opcodes::Ei, [0, 0]).unwrap();
    assert!(cpu.interrupts_enabled());
    execute(&mut cpu, Opcodes::Di, [0, 0]).unwrap();
    assert!(!cpu.interrupts_enabled());
    assert_eq!(
        execute(&mut cpu, Opcodes::Ret, [0, 0]),
        Ok(())
    );
    assert_eq!(cpu.pc(), 0);
}
