use mos6502::cpu::CPU;
use mos6502::memory::Mem;
use mos6502::status::{CARRY, NEGATIV, OVERFLOW};

#[test]
fn test_add_with_carry_overflow() {
    let mut cpu = CPU::new();
    cpu.load_and_run(vec![
        0xA9, // lda
        0x40, // 64
        0x69, // adc
        0x40, // 64
        0x00, // brk
    ])
    .unwrap();

    assert_eq!(cpu.register_a, 0x80);
    assert!(cpu.status.contains(OVERFLOW));
    assert!(!cpu.status.contains(CARRY));
}

#[test]
fn test_asl_adc_carry() {
    let mut cpu = CPU::new();
    cpu.load_and_run(vec![
        0xA9, // lda
        0x60, 0x0A, // asl of acc
        0x69, // adc
        0xC0, 0x00, // brk
    ])
    .unwrap();

    assert_eq!(cpu.register_a, 0x80); // 0x180
    assert!(cpu.status.contains(CARRY));
    assert!(!cpu.status.contains(OVERFLOW));
}

#[test]
fn test_asl_adc_carry_2() {
    let mut cpu = CPU::new();
    // the CPU uses little-endian addressing
    cpu.load_and_run(vec![
        0xA9, // lda
        0xFE, // value
        0x0E, // asl in absolute
        0x09, // memory address of val bottom
        0x80, // memory address of val top
        0x6D, // adc in absolute
        0x09, // memory address of val bottom
        0x80, // mem address of val top
        0x00, // brk
        0x7F, // 127
    ])
    .unwrap();

    assert_eq!(cpu.register_a, 0xFC); // should be 0x1FC truncated
    assert!(cpu.status.contains(CARRY));
    assert!(!cpu.status.contains(OVERFLOW));
}

#[test]
fn test_and() {
    let mut cpu = CPU::new();
    cpu.load_and_run(vec![
        0xA9, // lda
        0xFF, // all 1s
        0x29, // and
        0xA0, // 1010 0000
        0x00,
    ])
    .unwrap();

    assert_eq!(cpu.register_a, 0xA0);
    assert!(cpu.status.contains(NEGATIV));
}

#[test]
fn test_0xa9_lda_immidiate_load_data() {
    let mut cpu = CPU::new();
    cpu.load_and_run(vec![0xA9, 0x05, 0x00]).unwrap();
    assert_eq!(cpu.register_a, 0x05);
    assert!(cpu.status.bits() & 0b0000_0010 == 0b00);
    assert!(cpu.status.bits() & 0b1000_0000 == 0);
}

#[test]
fn test_0xa9_lda_zero_flag() {
    let mut cpu = CPU::new();
    cpu.load_and_run(vec![0xA9, 0x00, 0x00]).unwrap();
    assert!(cpu.status.bits() & 0b0000_0010 == 0b10);
}

#[test]
fn test_0xaa_tax_move_a_to_x() {
    let mut cpu = CPU::new();
    cpu.load_and_run(vec![0xA9, 0x0A, 0xAA, 0x00]).unwrap();

    assert_eq!(cpu.register_x, 10)
}

#[test]
fn test_5_ops_working_together() {
    let mut cpu = CPU::new();
    cpu.load_and_run(vec![0xA9, 0xC0, 0xAA, 0xE8, 0x00]).unwrap();

    assert_eq!(cpu.register_x, 0xc1)
}

#[test]
fn test_inx_overflow() {
    let mut cpu = CPU::new();
    cpu.load_and_run(vec![0xA9, 0xFF, 0xAA, 0xE8, 0xE8, 0x00]).unwrap();

    assert_eq!(cpu.register_x, 1)
}

#[test]
fn inx_wrap_to_zero_sets_zero_flag() {
    let mut cpu = CPU::new();
    cpu.load_and_run(vec![0xA9, 0xFF, 0xAA, 0xE8, 0x00]).unwrap();

    assert_eq!(cpu.register_x, 0);
    assert!(cpu.status.bits() & 0b0000_0010 != 0);
}

#[test]
fn and_to_zero_sets_zero_flag() {
    let mut cpu = CPU::new();
    cpu.load_and_run(vec![0xA9, 0x0F, 0x29, 0xF0, 0x00]).unwrap();

    assert_eq!(cpu.register_a, 0x00);
    assert!(cpu.status.bits() & 0b0000_0010 != 0);
    assert!(cpu.status.bits() & 0b1000_0000 == 0);
}

#[test]
fn asl_shifts_top_bit_into_carry_and_zeroes() {
    let mut cpu = CPU::new();
    cpu.load_and_run(vec![0xA9, 0x80, 0x0A, 0x00]).unwrap();

    assert_eq!(cpu.register_a, 0x00);
    assert!(cpu.status.contains(CARRY));
    assert!(cpu.status.bits() & 0b0000_0010 != 0);
    assert!(!cpu.status.contains(NEGATIV));
}

#[test]
fn adc_adds_incoming_carry() {
    let mut cpu = CPU::new();
    // the shift of 0x80 leaves zero in the accumulator and sets carry,
    // so the add sees 0x00 + 0x10 + 1
    cpu.load_and_run(vec![0xA9, 0x80, 0x0A, 0x69, 0x10, 0x00]).unwrap();

    assert_eq!(cpu.register_a, 0x11);
    assert!(!cpu.status.contains(CARRY));
}

#[test]
fn sta_writes_accumulator_to_zero_page() {
    let mut cpu = CPU::new();
    cpu.load_and_run(vec![0xA9, 0x42, 0x85, 0x10, 0x00]).unwrap();

    assert_eq!(cpu.mem_read(0x0010), 0x42);
    assert_eq!(cpu.register_a, 0x42);
}

#[test]
fn bit_copies_memory_bits_and_masks_accumulator() {
    let mut cpu = CPU::new();
    cpu.mem_write(0x0010, 0xC0);
    cpu.load_and_run(vec![0xA9, 0x0F, 0x24, 0x10, 0x00]).unwrap();

    // 0x0F & 0xC0 == 0, and bits 6 and 7 of the memory byte are set
    assert!(cpu.status.bits() & 0b0000_0010 != 0);
    assert!(cpu.status.contains(OVERFLOW));
    assert!(cpu.status.contains(NEGATIV));
    assert_eq!(cpu.register_a, 0x0F);
}

#[test]
fn clc_clears_only_carry() {
    let mut cpu = CPU::new();
    // the shift of 0x80 sets carry and zero; the clear drops carry alone
    cpu.load_and_run(vec![0xA9, 0x80, 0x0A, 0x18, 0x00]).unwrap();

    assert!(!cpu.status.contains(CARRY));
    assert!(cpu.status.bits() & 0b0000_0010 != 0);
}

#[test]
fn clv_clears_only_overflow() {
    let mut cpu = CPU::new();
    cpu.load_and_run(vec![0xA9, 0x40, 0x69, 0x40, 0xB8, 0x00]).unwrap();

    assert!(!cpu.status.contains(OVERFLOW));
    assert_eq!(cpu.register_a, 0x80);
    assert!(cpu.status.contains(NEGATIV));
}
