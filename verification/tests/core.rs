use rustboy::cpu::Cpu;
use rustboy::errors::EmuError;
use rustboy::flags::RegF;
use rustboy::memory::{fake_screen, Memory};

#[test]
fn half_carry_addition_boundary() {
    let cpu = Cpu::new();
    assert_eq!(cpu.half_carry_addition(0x0F, 0x01), true);
    assert_eq!(cpu.half_carry_addition(0x0E, 0x01), false);
}

#[test]
fn carry_addition_boundary() {
    let cpu = Cpu::new();
    assert_eq!(cpu.carry(0xFF, 0x01), true);
    assert_eq!(cpu.carry(0x0F, 0x01), false);
}

#[test]
fn zero_predicate() {
    let cpu = Cpu::new();
    assert_eq!(cpu.zero(0), true);
    assert_eq!(cpu.zero(1), false);
}

#[test]
fn half_carry_subtraction_boundary() {
    let cpu = Cpu::new();
    assert_eq!(cpu.half_carry_subtraction(0x10, 0x01), true);
    assert_eq!(cpu.half_carry_subtraction(0x11, 0x01), false);
    assert_eq!(cpu.half_carry_subtraction(0x3A, 0x0B), true);
}

#[test]
fn carry_subtraction_boundary() {
    let cpu = Cpu::new();
    assert_eq!(cpu.carry_subtraction(0x00, 0x01), true);
    assert_eq!(cpu.carry_subtraction(0x01, 0x01), false);
    assert_eq!(cpu.carry_subtraction(0xFF, 0x01), false);
}

#[test]
fn flag_byte_unpacks_high_nibble() {
    let mut f = RegF::clear();
    f.write(0xB0);
    assert!(f.z);
    assert!(!f.n);
    assert!(f.h);
    assert!(f.c);
    assert_eq!(f.read(), 0xB0);
}

#[test]
fn flag_byte_discards_low_nibble() {
    let mut f = RegF::clear();
    f.write(0xFF);
    assert!(f.z && f.n && f.h && f.c);
    assert_eq!(f.read(), 0xF0);
    f.write(0x0F);
    assert!(!f.z && !f.n && !f.h && !f.c);
    assert_eq!(f.read(), 0x00);
}

#[test]
fn register_pairs_compose() {
    let mut cpu = Cpu::new();
    cpu.write_bc(0x1234);
    assert_eq!(cpu.b, 0x12);
    assert_eq!(cpu.c, 0x34);
    assert_eq!(cpu.read_reg_16(cpu.b, cpu.c), 0x1234);
    cpu.write_de(0xABCD);
    assert_eq!((cpu.d, cpu.e), (0xAB, 0xCD));
    cpu.write_hl(0x00FF);
    assert_eq!((cpu.h, cpu.l), (0x00, 0xFF));
}

#[test]
fn write_af_splits_into_accumulator_and_flags() {
    let mut cpu = Cpu::new();
    cpu.write_af(0x42B0);
    assert_eq!(cpu.a, 0x42);
    assert!(cpu.f.z && !cpu.f.n && cpu.f.h && cpu.f.c);
}

#[test]
fn reset_state() {
    let cpu = Cpu::new();
    assert_eq!(cpu.pc, 0x0100);
    assert_eq!(cpu.sp, 0xFFFE);
    assert_eq!(cpu.a, 0);
    assert_eq!((cpu.b, cpu.c, cpu.d, cpu.e, cpu.h, cpu.l), (0, 0, 0, 0, 0, 0));
    assert_eq!(cpu.f.read(), 0);
    let by_default: Cpu = Default::default();
    assert_eq!(by_default, cpu);
}

#[test]
fn fresh_memory_is_zeroed() {
    let mem = Memory::new();
    assert_eq!(mem.read_address(0x0000), Ok(0));
    assert_eq!(mem.read_address(0x8000), Ok(0));
    assert_eq!(mem.read_address(0xFFFF), Ok(0));
}

#[test]
fn rom_region_maps_image_at_offset() {
    let mut mem = Memory::new();
    mem.load_rom(vec![0xAA, 0xBB, 0xCC]);
    assert_eq!(mem.read_address(0x0100), Ok(0xAA));
    assert_eq!(mem.read_address(0x0101), Ok(0xBB));
    assert_eq!(mem.read_address(0x0102), Ok(0xCC));
}

#[test]
fn rom_read_past_image_is_config_error() {
    let mut mem = Memory::new();
    mem.load_rom(vec![0xAA]);
    assert_eq!(
        mem.read_address(0x0101),
        Err(EmuError::Config { addr: 0x0101 })
    );
}

#[test]
fn write_into_rom_region_is_address_error() {
    let mut mem = Memory::new();
    assert_eq!(
        mem.write_address(0x0100, 0x01),
        Err(EmuError::Address { addr: 0x0100 })
    );
    assert_eq!(
        mem.write_address(0x7FFF, 0x01),
        Err(EmuError::Address { addr: 0x7FFF })
    );
}

#[test]
fn byte_writes_hit_both_mutable_regions() {
    let mut mem = Memory::new();
    assert_eq!(mem.write_address(0x00FF, 0x11), Ok(()));
    assert_eq!(mem.write_address(0x8000, 0x22), Ok(()));
    assert_eq!(mem.read_address(0x00FF), Ok(0x11));
    assert_eq!(mem.read_address(0x8000), Ok(0x22));
}

#[test]
fn word_read_is_little_endian() {
    let mut mem = Memory::new();
    mem.write_address(0xC000, 0x34).unwrap();
    mem.write_address(0xC001, 0x12).unwrap();
    assert_eq!(mem.read_16(0xC000), Ok(0x1234));
}

#[test]
fn word_round_trip() {
    let mut mem = Memory::new();
    assert_eq!(mem.write_16(0xC000, 0xBEEF), Ok(()));
    assert_eq!(mem.read_16(0xC000), Ok(0xBEEF));
    assert_eq!(mem.read_address(0xC000), Ok(0xEF));
    assert_eq!(mem.read_address(0xC001), Ok(0xBE));
}

#[test]
fn word_round_trip_wraps_at_top_of_address_space() {
    let mut mem = Memory::new();
    assert_eq!(mem.write_16(0xFFFF, 0x1234), Ok(()));
    assert_eq!(mem.read_address(0xFFFF), Ok(0x34));
    assert_eq!(mem.read_address(0x0000), Ok(0x12));
    assert_eq!(mem.read_16(0xFFFF), Ok(0x1234));
}

#[test]
fn word_write_into_rom_region_changes_nothing() {
    let mut mem = Memory::new();
    assert_eq!(
        mem.write_16(0x0200, 0x1234),
        Err(EmuError::Address { addr: 0x0200 })
    );
    assert_eq!(
        mem.write_16(0x00FF, 0x1234),
        Err(EmuError::Address { addr: 0x0100 })
    );
    assert_eq!(mem.read_address(0x00FF), Ok(0));
}

#[test]
fn fake_screen_counts_and_restarts() {
    let mut mem = Memory::new();
    for expected in 1..=154u8 {
        fake_screen(&mut mem);
        assert_eq!(mem.read_address(0xFF44), Ok(expected));
    }
    fake_screen(&mut mem);
    assert_eq!(mem.read_address(0xFF44), Ok(0));
}

#[test]
fn rotate_left_through_carry() {
    let mut cpu = Cpu::new();
    cpu.f.c = false;
    assert_eq!(cpu.rotate_left(0x81), 0x02);
    assert!(cpu.f.c);
    assert_eq!(cpu.rotate_left(0x01), 0x03);
    assert!(!cpu.f.c);
}
