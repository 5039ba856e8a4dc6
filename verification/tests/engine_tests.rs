use mos6502::addressing_modes::AddressingMode;
use mos6502::cpu::{EmuError, CPU};
use mos6502::memory::Mem;
use mos6502::opcodes::{lookup, Mnemonic, Opcode};
use mos6502::status::CPUFlags;

#[test]
fn unrecognized_opcode_aborts_the_run() {
    let mut cpu = CPU::new();
    let r = cpu.load_and_run(vec![0x02]);
    assert_eq!(
        r,
        Err(EmuError::UnrecognizedOpcode { code: 0x02, addr: 0x8000 })
    );
}

#[test]
fn unrecognized_opcode_reports_byte_and_address() {
    let mut cpu = CPU::new();
    let r = cpu.load_and_run(vec![0xA9, 0x05, 0xFF, 0x00]);
    assert_eq!(
        r,
        Err(EmuError::UnrecognizedOpcode { code: 0xFF, addr: 0x8002 })
    );
    // the instruction before the bad byte did run
    assert_eq!(cpu.register_a, 0x05);
}

#[test]
fn oversized_program_is_rejected_before_loading() {
    let mut cpu = CPU::new();
    let r = cpu.load(vec![0u8; 0x8001]);
    assert_eq!(r, Err(EmuError::ProgramTooLarge));
    // nothing was written
    assert_eq!(cpu.mem_read(0x8000), 0x00);
    assert_eq!(cpu.mem_read_u16(0xFFFC), 0x0000);

    let r = cpu.load_and_run(vec![0u8; 0x9000]);
    assert_eq!(r, Err(EmuError::ProgramTooLarge));
}

#[test]
fn program_filling_the_whole_rom_region_loads_and_halts() {
    let mut cpu = CPU::new();
    // all zero bytes: the first fetch is a break
    let r = cpu.load_and_run(vec![0u8; 0x8000]);
    assert!(r.is_ok());
    assert_eq!(cpu.program_counter, 0x8001);
}

#[test]
fn load_sets_reset_vector_and_copies_program() {
    let mut cpu = CPU::new();
    cpu.load(vec![0xA9, 0x05, 0x00]).unwrap();
    assert_eq!(cpu.mem_read(0x8000), 0xA9);
    assert_eq!(cpu.mem_read(0x8001), 0x05);
    assert_eq!(cpu.mem_read(0x8002), 0x00);
    assert_eq!(cpu.mem_read_u16(0xFFFC), 0x8000);
}

#[test]
fn reset_restores_power_on_state_and_loads_vector() {
    let mut cpu = CPU::new();
    cpu.load_and_run(vec![0xA9, 0x05, 0x00]).unwrap();
    assert_eq!(cpu.register_a, 0x05);
    cpu.reset();
    assert_eq!(cpu.register_a, 0);
    assert_eq!(cpu.register_x, 0);
    assert_eq!(cpu.status.bits(), 0b0010_0100);
    assert_eq!(cpu.program_counter, 0x8000);
}

#[test]
fn reset_is_idempotent() {
    let mut cpu = CPU::new();
    cpu.load_and_run(vec![0xA9, 0x05, 0x00]).unwrap();
    cpu.reset();
    let (a, x, bits, pc) = (
        cpu.register_a,
        cpu.register_x,
        cpu.status.bits(),
        cpu.program_counter,
    );
    cpu.reset();
    assert_eq!(cpu.register_a, a);
    assert_eq!(cpu.register_x, x);
    assert_eq!(cpu.status.bits(), bits);
    assert_eq!(cpu.program_counter, pc);
}

#[test]
fn load_reset_run_compose_like_load_and_run() {
    let mut cpu = CPU::new();
    cpu.load(vec![0xA9, 0xC0, 0xAA, 0xE8, 0x00]).unwrap();
    cpu.reset();
    cpu.run().unwrap();
    assert_eq!(cpu.register_x, 0xC1);
}

#[test]
fn lda_zero_sets_zero_and_clears_negative() {
    let mut cpu = CPU::new();
    cpu.load_and_run(vec![0xA9, 0x00, 0x00]).unwrap();
    assert_eq!(cpu.register_a, 0x00);
    assert!(cpu.status.bits() & 0b0000_0010 != 0);
    assert!(cpu.status.bits() & 0b1000_0000 == 0);
}

#[test]
fn zero_page_x_resolution_wraps_within_page_zero() {
    let mut cpu = CPU::new();
    cpu.mem_write(0x0010, 0xFF);
    cpu.program_counter = 0x0010;
    cpu.register_x = 0x02;
    let addr = cpu.get_operand_address(&AddressingMode::ZeroPage_X);
    assert_eq!(addr, 0x0001);
}

#[test]
fn zero_page_x_load_wraps_end_to_end() {
    let mut cpu = CPU::new();
    cpu.mem_write(0x0001, 0x77);
    // LDA #2, TAX, LDA $FF,X: 0xFF + 2 wraps to 0x01
    cpu.load_and_run(vec![0xA9, 0x02, 0xAA, 0xB5, 0xFF, 0x00]).unwrap();
    assert_eq!(cpu.register_a, 0x77);
}

#[test]
fn lda_zero_page_reads_memory() {
    let mut cpu = CPU::new();
    cpu.mem_write(0x0010, 0x55);
    cpu.load_and_run(vec![0xA5, 0x10, 0x00]).unwrap();
    assert_eq!(cpu.register_a, 0x55);
}

#[test]
fn lda_absolute_reads_memory() {
    let mut cpu = CPU::new();
    cpu.mem_write(0x1234, 0x77);
    cpu.load_and_run(vec![0xAD, 0x34, 0x12, 0x00]).unwrap();
    assert_eq!(cpu.register_a, 0x77);
}

#[test]
fn lda_indirect_x_dereferences_zero_page_pointer() {
    let mut cpu = CPU::new();
    cpu.mem_write(0x0024, 0x74);
    cpu.mem_write(0x0025, 0x20);
    cpu.mem_write(0x2074, 0x99);
    // LDA #4, TAX, LDA ($20,X)
    cpu.load_and_run(vec![0xA9, 0x04, 0xAA, 0xA1, 0x20, 0x00]).unwrap();
    assert_eq!(cpu.register_a, 0x99);
}

#[test]
fn lda_indirect_y_adds_index_after_dereference() {
    let mut cpu = CPU::new();
    cpu.mem_write(0x0020, 0x00);
    cpu.mem_write(0x0021, 0x30);
    cpu.mem_write(0x3001, 0xAB);
    // reset leaves the Y register alone
    cpu.register_y = 0x01;
    cpu.load_and_run(vec![0xB1, 0x20, 0x00]).unwrap();
    assert_eq!(cpu.register_a, 0xAB);
}

#[test]
fn branch_taken_skips_over_bytes() {
    let mut cpu = CPU::new();
    // LDA #0 sets zero, BEQ +1 jumps over the increment
    cpu.load_and_run(vec![0xA9, 0x00, 0xF0, 0x01, 0xE8, 0x00]).unwrap();
    assert_eq!(cpu.register_x, 0);
}

#[test]
fn branch_not_taken_continues_in_sequence() {
    let mut cpu = CPU::new();
    // LDA #1 clears zero, BEQ +1 falls through to the increment
    cpu.load_and_run(vec![0xA9, 0x01, 0xF0, 0x01, 0xE8, 0x00]).unwrap();
    assert_eq!(cpu.register_x, 1);
}

#[test]
fn backward_branch_offset_is_sign_extended() {
    let mut cpu = CPU::new();
    // LDA #$FE, TAX, then INX / BNE -3 loops until X wraps to zero
    cpu.load_and_run(vec![0xA9, 0xFE, 0xAA, 0xE8, 0xD0, 0xFD, 0x00]).unwrap();
    assert_eq!(cpu.register_x, 0);
    assert!(cpu.status.bits() & 0b0000_0010 != 0);
}

#[test]
fn lookup_describes_recognized_codes() {
    let lda = lookup(0xA9).unwrap();
    assert_eq!(lda.code, 0xA9);
    assert_eq!(lda.assembly, Mnemonic::LDA);
    assert_eq!(lda.len, 2);
    assert_eq!(lda.cycles, 2);
    assert_eq!(lda.mode, AddressingMode::Immediate);

    let sta = lookup(0x9D).unwrap();
    assert_eq!(sta.assembly, Mnemonic::STA);
    assert_eq!(sta.len, 3);
    assert_eq!(sta.cycles, 5);
    assert_eq!(sta.mode, AddressingMode::Absolute_X);

    assert!(lookup(0x02).is_none());
    assert!(lookup(0xFF).is_none());
}

#[test]
fn opcode_new_keeps_its_parts() {
    let op = Opcode::new(0xE8, Mnemonic::INX, 1, 2, AddressingMode::NoneAddressing);
    assert_eq!(op.code, 0xE8);
    assert_eq!(op.assembly, Mnemonic::INX);
    assert_eq!(op.len, 1);
    assert_eq!(op.cycles, 2);
    assert_eq!(op.mode, AddressingMode::NoneAddressing);
}

#[test]
fn status_register_bit_operations() {
    let mut flags = CPUFlags::from_bits_truncate(0b0010_0100);
    assert_eq!(flags.bits(), 0b0010_0100);
    assert!(flags.contains(0b0000_0100));
    assert!(!flags.contains(0b0000_0001));

    flags.insert(0b0000_0001);
    assert!(flags.contains(0b0000_0001));
    assert_eq!(flags.bits(), 0b0010_0101);

    flags.remove(0b0000_0100);
    assert_eq!(flags.bits(), 0b0010_0001);

    flags.set_flag(0b1000_0000, true);
    assert_eq!(flags.bits(), 0b1010_0001);
    flags.set_flag(0b1000_0000, false);
    assert_eq!(flags.bits(), 0b0010_0001);
}
