use gb_core::cpu::CPU;
use gb_core::cpu::Flags;
use gb_core::cpu::Loc;
use gb_core::cpu::Status;
use gb_core::storage::Fault;

fn boot() -> CPU {
    CPU::new(Vec::new()).unwrap()
}

#[test]
fn boot_register_values() {
    let cpu = boot();
    assert_eq!(cpu.get_u16(Loc::RegAF), Ok(0x01B0));
    assert_eq!(cpu.get_u16(Loc::RegBC), Ok(0x0013));
    assert_eq!(cpu.get_u16(Loc::RegDE), Ok(0x00D8));
    assert_eq!(cpu.get_u16(Loc::RegHL), Ok(0x014D));
    assert_eq!(cpu.get_u16(Loc::RegSP), Ok(0xFFFE));
    assert_eq!(cpu.get_u16(Loc::RegPC), Ok(0x0100));
    assert_eq!(cpu.get_u8(Loc::RegIME), Ok(0));
    assert_eq!(cpu.status(), Status::Running);
}

#[test]
fn rom_too_large_is_refused() {
    assert_eq!(CPU::new(vec![0u8; 0x8001]).err(), Some(Fault::RomTooLarge));
    assert!(CPU::new(vec![0u8; 0x8000]).is_ok());
}

#[test]
fn rom_image_is_zero_padded() {
    let cpu = CPU::new(vec![0xAA, 0xBB]).unwrap();
    assert_eq!(cpu.get_u8(Loc::Mem(0x0000)), Ok(0xAA));
    assert_eq!(cpu.get_u8(Loc::Mem(0x0001)), Ok(0xBB));
    assert_eq!(cpu.get_u8(Loc::Mem(0x0002)), Ok(0x00));
    assert_eq!(cpu.get_u8(Loc::Mem(0x7FFF)), Ok(0x00));
}

#[test]
fn register_pair_aliasing() {
    let mut cpu = boot();
    assert_eq!(cpu.set_u8(Loc::RegB, 0x12), Ok(()));
    assert_eq!(cpu.set_u8(Loc::RegC, 0x34), Ok(()));
    assert_eq!(cpu.get_u16(Loc::RegBC), Ok(0x1234));

    assert_eq!(cpu.set_u16(Loc::RegHL, 0xABCD), Ok(()));
    assert_eq!(cpu.get_u8(Loc::RegH), Ok(0xAB));
    assert_eq!(cpu.get_u8(Loc::RegL), Ok(0xCD));
}

#[test]
fn accumulator_and_flag_byte_alias_af() {
    let mut cpu = boot();
    assert_eq!(cpu.set_u16(Loc::RegAF, 0x5678), Ok(()));
    assert_eq!(cpu.get_u8(Loc::RegA), Ok(0x56));
    assert_eq!(cpu.get_u8(Loc::Flags), Ok(0x78));
}

#[test]
fn wrong_width_register_access_is_an_access_violation() {
    let mut cpu = boot();
    assert_eq!(cpu.get_u8(Loc::RegBC), Err(Fault::AccessViolation));
    assert_eq!(cpu.set_u8(Loc::RegSP, 1), Err(Fault::AccessViolation));
    assert_eq!(cpu.get_u16(Loc::RegA), Err(Fault::AccessViolation));
    assert_eq!(cpu.set_u16(Loc::Flags, 1), Err(Fault::AccessViolation));
    assert_eq!(cpu.get_u16(Loc::RegIME), Err(Fault::AccessViolation));
}

#[test]
fn flags_isolation() {
    let mut cpu = boot();
    cpu.set_u8(Loc::Flags, 0).unwrap();
    cpu.set_flag(Flags::Zero, true);
    cpu.set_flag(Flags::Carry, true);
    assert!(cpu.get_flag(Flags::Zero));
    assert!(!cpu.get_flag(Flags::Subtraction));
    assert!(!cpu.get_flag(Flags::HalfCarry));
    assert!(cpu.get_flag(Flags::Carry));
    assert_eq!(cpu.get_u8(Loc::Flags), Ok(0x90));
}

#[test]
fn clearing_a_flag_clears_only_its_bit() {
    let mut cpu = boot();
    cpu.set_u8(Loc::Flags, 0xFF).unwrap();
    cpu.set_flag(Flags::Zero, false);
    assert_eq!(cpu.get_u8(Loc::Flags), Ok(0xEF));
    cpu.set_flag(Flags::Carry, false);
    assert_eq!(cpu.get_u8(Loc::Flags), Ok(0x6F));
}

#[test]
fn stack_push_pop_symmetry() {
    let mut cpu = boot();
    assert_eq!(cpu.push(0xBEEF), Ok(()));
    assert_eq!(cpu.get_u16(Loc::RegSP), Ok(0xFFFC));
    assert_eq!(cpu.pop(), Ok(0xBEEF));
    assert_eq!(cpu.get_u16(Loc::RegSP), Ok(0xFFFE));
}

#[test]
fn stack_outside_mapped_memory_faults_and_keeps_sp() {
    let mut cpu = boot();
    cpu.set_u16(Loc::RegSP, 0x9000).unwrap();
    assert_eq!(cpu.push(1), Err(Fault::MemoryFault));
    assert_eq!(cpu.get_u16(Loc::RegSP), Ok(0x9000));
    assert_eq!(cpu.pop(), Err(Fault::MemoryFault));
    assert_eq!(cpu.get_u16(Loc::RegSP), Ok(0x9000));
}

#[test]
fn memory_round_trip_in_each_region() {
    let mut cpu = boot();
    for a in [0x0000u16, 0x4000, 0x7FFE, 0xC000, 0xDFFE, 0xFF00, 0xFF4A, 0xFF80, 0xFFFC] {
        assert_eq!(cpu.set_u16(Loc::Mem(a), 0xA55A), Ok(()));
        assert_eq!(cpu.get_u16(Loc::Mem(a)), Ok(0xA55A));
        assert_eq!(cpu.get_u8(Loc::Mem(a)), Ok(0x5A));
        assert_eq!(cpu.get_u8(Loc::Mem(a + 1)), Ok(0xA5));
    }
}

#[test]
fn interrupt_enable_register_is_one_byte() {
    let mut cpu = boot();
    assert_eq!(cpu.set_u8(Loc::Mem(0xFFFF), 0x1F), Ok(()));
    assert_eq!(cpu.get_u8(Loc::Mem(0xFFFF)), Ok(0x1F));
    // no 16-bit access through the one-byte view
    assert_eq!(cpu.get_u16(Loc::Mem(0xFFFF)), Err(Fault::AccessViolation));
    assert_eq!(cpu.set_u16(Loc::Mem(0xFFFF), 1), Err(Fault::AccessViolation));
}

#[test]
fn unmapped_addresses_are_memory_faults() {
    let mut cpu = boot();
    for a in [0x8000u16, 0xA000, 0xBFFF, 0xE000, 0xFEFF, 0xFF4C, 0xFF7F] {
        assert_eq!(cpu.get_u8(Loc::Mem(a)), Err(Fault::MemoryFault));
        assert_eq!(cpu.set_u8(Loc::Mem(a), 1), Err(Fault::MemoryFault));
    }
}

#[test]
fn sixteen_bit_access_cannot_cross_a_region_edge() {
    let mut cpu = boot();
    for a in [0x7FFFu16, 0xDFFF, 0xFF4B, 0xFFFE] {
        assert_eq!(cpu.get_u16(Loc::Mem(a)), Err(Fault::MemoryFault));
        assert_eq!(cpu.set_u16(Loc::Mem(a), 1), Err(Fault::MemoryFault));
    }
}

#[test]
fn ram_is_separate_from_rom() {
    let cpu0 = CPU::new(vec![0x55; 0x8000]);
    let mut cpu = cpu0.unwrap();
    assert_eq!(cpu.get_u8(Loc::Mem(0xC000)), Ok(0x00));
    assert_eq!(cpu.set_u8(Loc::Mem(0xC123), 0x77), Ok(()));
    assert_eq!(cpu.get_u8(Loc::Mem(0x0123)), Ok(0x55));
}
