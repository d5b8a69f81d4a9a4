use gb_core::cpu::CPU;
use gb_core::cpu::Flags;
use gb_core::cpu::Loc;
use gb_core::cpu::Status;
use gb_core::storage::Fault;

fn boot_with(program: &[(u16, u8)]) -> CPU {
    let mut rom = vec![0u8; 0x8000];
    for &(a, b) in program {
        rom[a as usize] = b;
    }
    CPU::new(rom).unwrap()
}

#[test]
fn nop_advances_pc_and_nothing_else() {
    let mut cpu = boot_with(&[(0x0100, 0x00)]);
    assert_eq!(cpu.execute(), Ok(()));
    assert_eq!(cpu.get_u16(Loc::RegPC), Ok(0x0101));
    assert_eq!(cpu.get_u16(Loc::RegAF), Ok(0x01B0));
    assert_eq!(cpu.get_u16(Loc::RegBC), Ok(0x0013));
    assert_eq!(cpu.get_u16(Loc::RegDE), Ok(0x00D8));
    assert_eq!(cpu.get_u16(Loc::RegHL), Ok(0x014D));
    assert_eq!(cpu.get_u16(Loc::RegSP), Ok(0xFFFE));
    assert_eq!(cpu.status(), Status::Running);
}

#[test]
fn ld_bc_d16() {
    let mut cpu = boot_with(&[(0x0100, 0x01), (0x0101, 0x34), (0x0102, 0x12)]);
    assert_eq!(cpu.execute(), Ok(()));
    assert_eq!(cpu.get_u16(Loc::RegBC), Ok(0x1234));
    assert_eq!(cpu.get_u16(Loc::RegPC), Ok(0x0103));
}

#[test]
fn ld_de_hl_sp_d16() {
    let mut cpu = boot_with(&[
        (0x0100, 0x11), (0x0101, 0x01), (0x0102, 0x80),
        (0x0103, 0x21), (0x0104, 0x00), (0x0105, 0xC0),
        (0x0106, 0x31), (0x0107, 0xF0), (0x0108, 0xFF),
    ]);
    assert_eq!(cpu.execute(), Ok(()));
    assert_eq!(cpu.get_u16(Loc::RegDE), Ok(0x8001));
    assert_eq!(cpu.execute(), Ok(()));
    assert_eq!(cpu.get_u16(Loc::RegHL), Ok(0xC000));
    assert_eq!(cpu.execute(), Ok(()));
    assert_eq!(cpu.get_u16(Loc::RegSP), Ok(0xFFF0));
    assert_eq!(cpu.get_u16(Loc::RegPC), Ok(0x0109));
}

#[test]
fn jr_z_taken_loops_in_place() {
    let mut cpu = boot_with(&[(0x0100, 0x28), (0x0101, 0xFE)]);
    cpu.set_flag(Flags::Zero, true);
    assert_eq!(cpu.execute(), Ok(()));
    assert_eq!(cpu.get_u16(Loc::RegPC), Ok(0x0100));
}

#[test]
fn jr_z_not_taken_just_advances() {
    let mut cpu = boot_with(&[(0x0100, 0x28), (0x0101, 0xFE)]);
    cpu.set_flag(Flags::Zero, false);
    assert_eq!(cpu.execute(), Ok(()));
    assert_eq!(cpu.get_u16(Loc::RegPC), Ok(0x0102));
}

#[test]
fn jr_nz_mirrors_the_zero_flag() {
    let mut cpu = boot_with(&[(0x0100, 0x20), (0x0101, 0x10)]);
    cpu.set_flag(Flags::Zero, true);
    assert_eq!(cpu.execute(), Ok(()));
    assert_eq!(cpu.get_u16(Loc::RegPC), Ok(0x0102));

    let mut cpu2 = boot_with(&[(0x0100, 0x20), (0x0101, 0x10)]);
    cpu2.set_flag(Flags::Zero, false);
    assert_eq!(cpu2.execute(), Ok(()));
    assert_eq!(cpu2.get_u16(Loc::RegPC), Ok(0x0112));
}

#[test]
fn jr_unconditional_signed_displacement() {
    let mut cpu = boot_with(&[(0x0100, 0x18), (0x0101, 0x05)]);
    assert_eq!(cpu.execute(), Ok(()));
    assert_eq!(cpu.get_u16(Loc::RegPC), Ok(0x0107));

    let mut cpu2 = boot_with(&[(0x0100, 0x18), (0x0101, 0xF0)]);
    assert_eq!(cpu2.execute(), Ok(()));
    assert_eq!(cpu2.get_u16(Loc::RegPC), Ok(0x00F2));
}

#[test]
fn call_then_ret_round_trip() {
    let mut cpu = boot_with(&[
        (0x0100, 0xCD), (0x0101, 0x00), (0x0102, 0x02),
        (0x0200, 0xC9),
    ]);
    assert_eq!(cpu.execute(), Ok(()));
    assert_eq!(cpu.get_u16(Loc::RegPC), Ok(0x0200));
    assert_eq!(cpu.get_u16(Loc::RegSP), Ok(0xFFFC));
    assert_eq!(cpu.get_u16(Loc::Mem(0xFFFC)), Ok(0x0103));
    assert_eq!(cpu.execute(), Ok(()));
    assert_eq!(cpu.get_u16(Loc::RegPC), Ok(0x0103));
    assert_eq!(cpu.get_u16(Loc::RegSP), Ok(0xFFFE));
}

#[test]
fn fetch_from_unmapped_memory_faults_without_mutation() {
    let mut cpu = boot_with(&[]);
    cpu.set_u16(Loc::RegPC, 0x8000).unwrap();
    assert_eq!(cpu.execute(), Err(Fault::MemoryFault));
    assert_eq!(cpu.status(), Status::Faulted(Fault::MemoryFault));
    assert_eq!(cpu.get_u16(Loc::RegPC), Ok(0x8000));
    assert_eq!(cpu.get_u16(Loc::RegAF), Ok(0x01B0));
    assert_eq!(cpu.get_u16(Loc::RegBC), Ok(0x0013));
    assert_eq!(cpu.get_u16(Loc::RegSP), Ok(0xFFFE));
    // the fault is terminal: another step changes nothing and reports it again
    assert_eq!(cpu.execute(), Err(Fault::MemoryFault));
    assert_eq!(cpu.get_u16(Loc::RegPC), Ok(0x8000));
}

#[test]
fn unknown_opcode_faults_with_address_and_code() {
    let mut cpu = boot_with(&[(0x0100, 0x02)]);
    assert_eq!(cpu.execute(), Err(Fault::UnknownOpcode(0x0100, 0x0002)));
    assert_eq!(cpu.status(), Status::Faulted(Fault::UnknownOpcode(0x0100, 0x0002)));
}

#[test]
fn unknown_extended_opcode_faults_in_its_own_namespace() {
    let mut cpu = boot_with(&[(0x0100, 0xCB), (0x0101, 0x00)]);
    assert_eq!(cpu.execute(), Err(Fault::UnknownOpcode(0x0100, 0xCB00)));
}

#[test]
fn pc_past_the_address_space_faults() {
    let mut cpu = boot_with(&[]);
    // the interrupt-enable byte at 0xFFFF holds 0, a NOP
    cpu.set_u16(Loc::RegPC, 0xFFFF).unwrap();
    assert_eq!(cpu.execute(), Err(Fault::PcOutOfRange));
    assert_eq!(cpu.status(), Status::Faulted(Fault::PcOutOfRange));
    assert_eq!(cpu.get_u16(Loc::RegPC), Ok(0xFFFF));
}

#[test]
fn ld_hl_mem_d8_consumes_its_immediate() {
    let mut cpu = boot_with(&[(0x0100, 0x36), (0x0101, 0x77)]);
    cpu.set_u16(Loc::RegHL, 0xC000).unwrap();
    assert_eq!(cpu.execute(), Ok(()));
    assert_eq!(cpu.get_u8(Loc::Mem(0xC000)), Ok(0x77));
    assert_eq!(cpu.get_u16(Loc::RegPC), Ok(0x0102));
}

#[test]
fn ld_a_d8_and_register_transfers() {
    let mut cpu = boot_with(&[(0x0100, 0x3E), (0x0101, 0x9A), (0x0102, 0x47), (0x0103, 0x78)]);
    assert_eq!(cpu.execute(), Ok(()));
    assert_eq!(cpu.get_u8(Loc::RegA), Ok(0x9A));
    assert_eq!(cpu.get_u16(Loc::RegPC), Ok(0x0102));
    // LD B, A
    assert_eq!(cpu.execute(), Ok(()));
    assert_eq!(cpu.get_u8(Loc::RegB), Ok(0x9A));
    // LD A, B after changing A
    cpu.set_u8(Loc::RegA, 0x00).unwrap();
    assert_eq!(cpu.execute(), Ok(()));
    assert_eq!(cpu.get_u8(Loc::RegA), Ok(0x9A));
    assert_eq!(cpu.get_u16(Loc::RegPC), Ok(0x0104));
}

#[test]
fn xor_a_zeroes_a_and_sets_only_zero() {
    let mut cpu = boot_with(&[(0x0100, 0xAF)]);
    cpu.set_u8(Loc::RegA, 0x55).unwrap();
    cpu.set_u8(Loc::Flags, 0xF0).unwrap();
    assert_eq!(cpu.execute(), Ok(()));
    assert_eq!(cpu.get_u8(Loc::RegA), Ok(0x00));
    assert_eq!(cpu.get_u8(Loc::Flags), Ok(0x10));
    assert!(cpu.get_flag(Flags::Zero));
    assert!(!cpu.get_flag(Flags::Carry));
    assert_eq!(cpu.get_u16(Loc::RegPC), Ok(0x0101));
}

#[test]
fn jp_a16_overwrites_pc() {
    let mut cpu = boot_with(&[(0x0100, 0xC3), (0x0101, 0x00), (0x0102, 0xC0)]);
    assert_eq!(cpu.execute(), Ok(()));
    assert_eq!(cpu.get_u16(Loc::RegPC), Ok(0xC000));
}

#[test]
fn ldh_writes_and_reads_the_high_page() {
    let mut cpu = boot_with(&[(0x0100, 0xE0), (0x0101, 0x05), (0x0102, 0xF0), (0x0103, 0x05)]);
    cpu.set_u8(Loc::RegA, 0x3C).unwrap();
    assert_eq!(cpu.execute(), Ok(()));
    assert_eq!(cpu.get_u8(Loc::Mem(0xFF05)), Ok(0x3C));
    assert_eq!(cpu.get_u16(Loc::RegPC), Ok(0x0102));
    cpu.set_u8(Loc::RegA, 0x00).unwrap();
    assert_eq!(cpu.execute(), Ok(()));
    assert_eq!(cpu.get_u8(Loc::RegA), Ok(0x3C));
    assert_eq!(cpu.get_u16(Loc::RegPC), Ok(0x0104));
}

#[test]
fn ldh_to_an_unmapped_port_faults() {
    let mut cpu = boot_with(&[(0x0100, 0xE0), (0x0101, 0x60)]);
    assert_eq!(cpu.execute(), Err(Fault::MemoryFault));
    assert_eq!(cpu.status(), Status::Faulted(Fault::MemoryFault));
}

#[test]
fn and_d8_sets_the_documented_flags() {
    let mut cpu = boot_with(&[(0x0100, 0xE6), (0x0101, 0x33)]);
    cpu.set_u8(Loc::RegA, 0x0F).unwrap();
    assert_eq!(cpu.execute(), Ok(()));
    assert_eq!(cpu.get_u8(Loc::RegA), Ok(0x03));
    assert_eq!(cpu.get_u8(Loc::Flags), Ok(0x20));
    assert_eq!(cpu.get_u16(Loc::RegPC), Ok(0x0102));

    let mut cpu2 = boot_with(&[(0x0100, 0xE6), (0x0101, 0x00)]);
    assert_eq!(cpu2.execute(), Ok(()));
    assert_eq!(cpu2.get_u8(Loc::RegA), Ok(0x00));
    assert_eq!(cpu2.get_u8(Loc::Flags), Ok(0x30));
}

#[test]
fn ld_a16_mem_a() {
    let mut cpu = boot_with(&[(0x0100, 0xEA), (0x0101, 0x23), (0x0102, 0xC1)]);
    cpu.set_u8(Loc::RegA, 0x42).unwrap();
    assert_eq!(cpu.execute(), Ok(()));
    assert_eq!(cpu.get_u8(Loc::Mem(0xC123)), Ok(0x42));
    assert_eq!(cpu.get_u16(Loc::RegPC), Ok(0x0103));
}

#[test]
fn di_clears_the_interrupt_master_enable() {
    let mut cpu = boot_with(&[(0x0100, 0xF3)]);
    cpu.set_u8(Loc::RegIME, 1).unwrap();
    assert_eq!(cpu.execute(), Ok(()));
    assert_eq!(cpu.get_u8(Loc::RegIME), Ok(0));
    assert_eq!(cpu.get_u16(Loc::RegPC), Ok(0x0101));
}

#[test]
fn cp_d8_sets_zero_exactly_on_equality() {
    let mut cpu = boot_with(&[(0x0100, 0xFE), (0x0101, 0x42), (0x0102, 0xFE), (0x0103, 0x41)]);
    cpu.set_u8(Loc::RegA, 0x42).unwrap();
    cpu.set_flag(Flags::Carry, true);
    assert_eq!(cpu.execute(), Ok(()));
    assert!(cpu.get_flag(Flags::Zero));
    // the other flags are untouched
    assert!(cpu.get_flag(Flags::Carry));
    assert_eq!(cpu.execute(), Ok(()));
    assert!(!cpu.get_flag(Flags::Zero));
    assert!(cpu.get_flag(Flags::Carry));
    assert_eq!(cpu.get_u16(Loc::RegPC), Ok(0x0104));
}

#[test]
fn res_0_a_clears_bit_zero_and_advances_two() {
    let mut cpu = boot_with(&[(0x0100, 0xCB), (0x0101, 0x87)]);
    cpu.set_u8(Loc::RegA, 0xFF).unwrap();
    assert_eq!(cpu.execute(), Ok(()));
    assert_eq!(cpu.get_u8(Loc::RegA), Ok(0xFE));
    assert_eq!(cpu.get_u16(Loc::RegPC), Ok(0x0102));
}
