use mos6502::cpu::CPU;
use mos6502::memory::Mem;

#[test]
fn byte_write_then_read() {
    let mut cpu = CPU::new();
    cpu.mem_write(0x0200, 0x5A);
    assert_eq!(cpu.mem_read(0x0200), 0x5A);
    assert_eq!(cpu.mem_read(0x0201), 0x00);
}

#[test]
fn word_round_trip_is_little_endian() {
    let mut cpu = CPU::new();
    cpu.mem_write_u16(0x0200, 0xABCD);
    assert_eq!(cpu.mem_read_u16(0x0200), 0xABCD);
    // low byte at the lower address
    assert_eq!(cpu.mem_read(0x0200), 0xCD);
    assert_eq!(cpu.mem_read(0x0201), 0xAB);
}

#[test]
fn word_round_trip_at_extremes() {
    let mut cpu = CPU::new();
    cpu.mem_write_u16(0x0000, 0xFFFF);
    assert_eq!(cpu.mem_read_u16(0x0000), 0xFFFF);
    cpu.mem_write_u16(0xFFFD, 0x1234);
    assert_eq!(cpu.mem_read_u16(0xFFFD), 0x1234);
}

#[test]
fn word_read_combines_bytes_high_shifted() {
    let mut cpu = CPU::new();
    cpu.mem_write(0x0300, 0x01);
    cpu.mem_write(0x0301, 0x02);
    assert_eq!(cpu.mem_read_u16(0x0300), 0x0201);
}

#[test]
fn new_cpu_is_zeroed_with_power_on_flags() {
    let cpu = CPU::new();
    assert_eq!(cpu.register_a, 0);
    assert_eq!(cpu.register_x, 0);
    assert_eq!(cpu.register_y, 0);
    assert_eq!(cpu.program_counter, 0);
    assert_eq!(cpu.status.bits(), 0b0010_0100);
    assert_eq!(cpu.mem_read(0x0000), 0);
    assert_eq!(cpu.mem_read(0xFFFF), 0);
}
