use rustboy::cpu::Cpu;
use rustboy::errors::EmuError;
use rustboy::memory::Memory;

fn machine(rom: Vec<u8>) -> (Cpu, Memory) {
    let mut mem = Memory::new();
    mem.load_rom(rom);
    (Cpu::new(), mem)
}

#[test]
fn xor_then_jump_makes_a_two_instruction_loop() {
    let (mut cpu, mut mem) = machine(vec![0xAF, 0xC3, 0x00, 0x01]);
    assert_eq!(cpu.process(&mut mem), Ok(()));
    assert_eq!(cpu.a, 0x00);
    assert!(cpu.f.z);
    assert!(!cpu.f.n && !cpu.f.h && !cpu.f.c);
    assert_eq!(cpu.pc, 0x0101);
    assert_eq!(cpu.process(&mut mem), Ok(()));
    assert_eq!(cpu.pc, 0x0100);
    // Bounded harness: the same two addresses keep coming back.
    for _ in 0..10 {
        assert_eq!(cpu.pc, 0x0100);
        cpu.process(&mut mem).unwrap();
        assert_eq!(cpu.pc, 0x0101);
        cpu.process(&mut mem).unwrap();
    }
}

#[test]
fn unknown_opcode_is_a_decode_error() {
    let (mut cpu, mut mem) = machine(vec![0xFF]);
    assert_eq!(
        cpu.process(&mut mem),
        Err(EmuError::Decode { opcode: 0xFF, extended: false, pc: 0x0100 })
    );
    // The machine is left as it was.
    assert_eq!(cpu.pc, 0x0100);
    assert_eq!(cpu.sp, 0xFFFE);
}

#[test]
fn unknown_extended_opcode_is_a_decode_error() {
    let (mut cpu, mut mem) = machine(vec![0xCB, 0x42]);
    assert_eq!(
        cpu.process(&mut mem),
        Err(EmuError::Decode { opcode: 0x42, extended: true, pc: 0x0100 })
    );
}

#[test]
fn fetch_past_image_is_a_config_error() {
    let (mut cpu, mut mem) = machine(vec![]);
    assert_eq!(
        cpu.process(&mut mem),
        Err(EmuError::Config { addr: 0x0100 })
    );
}

#[test]
fn call_then_return_restores_pc_and_sp() {
    // CALL 0x0200 at 0x0100; RET at 0x0200 (image offset 0x100).
    let mut rom = vec![0u8; 0x101];
    rom[0x00] = 0xCD;
    rom[0x01] = 0x00;
    rom[0x02] = 0x02;
    rom[0x100] = 0xC9;
    let (mut cpu, mut mem) = machine(rom);
    assert_eq!(cpu.process(&mut mem), Ok(()));
    assert_eq!(cpu.pc, 0x0200);
    assert_eq!(cpu.sp, 0xFFFC);
    // The return address sits little-endian at the new stack top.
    assert_eq!(mem.read_address(0xFFFC), Ok(0x03));
    assert_eq!(mem.read_address(0xFFFD), Ok(0x01));
    assert_eq!(cpu.process(&mut mem), Ok(()));
    assert_eq!(cpu.pc, 0x0103);
    assert_eq!(cpu.sp, 0xFFFE);
}

#[test]
fn push_then_pop_leaves_pair_and_sp_unchanged() {
    let (mut cpu, mut mem) = machine(vec![0xC5, 0xC1]);
    cpu.write_bc(0x1234);
    assert_eq!(cpu.process(&mut mem), Ok(()));
    assert_eq!(cpu.sp, 0xFFFC);
    assert_eq!(cpu.process(&mut mem), Ok(()));
    assert_eq!(cpu.read_reg_16(cpu.b, cpu.c), 0x1234);
    assert_eq!(cpu.sp, 0xFFFE);
    assert_eq!(cpu.pc, 0x0102);
}

#[test]
fn relative_jump_back_two_loops_on_itself() {
    // JR -2 at 0x0150: the offset is relative to the address after the
    // 2-byte instruction, so the jump lands back on itself.
    let mut rom = vec![0u8; 0x52];
    rom[0x50] = 0x18;
    rom[0x51] = 0xFE;
    let (mut cpu, mut mem) = machine(rom);
    cpu.pc = 0x0150;
    assert_eq!(cpu.process(&mut mem), Ok(()));
    assert_eq!(cpu.pc, 0x0150);
}

#[test]
fn relative_jump_forward() {
    let (mut cpu, mut mem) = machine(vec![0x18, 0x05]);
    assert_eq!(cpu.process(&mut mem), Ok(()));
    assert_eq!(cpu.pc, 0x0107);
}

#[test]
fn conditional_relative_jump_on_zero_flag() {
    // JR NZ,+3 taken, then JR Z,+3 not taken.
    let (mut cpu, mut mem) = machine(vec![0x20, 0x03, 0x00, 0x00, 0x00, 0x28, 0x03]);
    cpu.f.z = false;
    assert_eq!(cpu.process(&mut mem), Ok(()));
    assert_eq!(cpu.pc, 0x0105);
    assert_eq!(cpu.process(&mut mem), Ok(()));
    assert_eq!(cpu.pc, 0x0107);
}

#[test]
fn increment_wraps_and_sets_zero_flag() {
    // INC A on 0xFF: 8-bit wraparound to 0x00 with the zero flag set.
    let (mut cpu, mut mem) = machine(vec![0x3C]);
    cpu.a = 0xFF;
    assert_eq!(cpu.process(&mut mem), Ok(()));
    assert_eq!(cpu.a, 0x00);
    assert!(cpu.f.z);
    assert!(!cpu.f.n);
    assert!(cpu.f.h);
    assert_eq!(cpu.pc, 0x0101);
}

#[test]
fn decrement_sets_half_carry_on_low_nibble_borrow() {
    let (mut cpu, mut mem) = machine(vec![0x05]);
    cpu.b = 0x10;
    assert_eq!(cpu.process(&mut mem), Ok(()));
    assert_eq!(cpu.b, 0x0F);
    assert!(!cpu.f.z);
    assert!(cpu.f.n);
    assert!(cpu.f.h);
}

#[test]
fn add_sets_carry_and_half_carry() {
    let (mut cpu, mut mem) = machine(vec![0x80]);
    cpu.a = 0xFF;
    cpu.b = 0x01;
    assert_eq!(cpu.process(&mut mem), Ok(()));
    assert_eq!(cpu.a, 0x00);
    assert!(cpu.f.z && !cpu.f.n && cpu.f.h && cpu.f.c);
}

#[test]
fn subtract_borrows_below_zero() {
    let (mut cpu, mut mem) = machine(vec![0x90]);
    cpu.a = 0x10;
    cpu.b = 0x20;
    assert_eq!(cpu.process(&mut mem), Ok(()));
    assert_eq!(cpu.a, 0xF0);
    assert!(!cpu.f.z && cpu.f.n && !cpu.f.h && cpu.f.c);
}

#[test]
fn compare_immediate_sets_zero_on_equal() {
    let (mut cpu, mut mem) = machine(vec![0xFE, 0x42]);
    cpu.a = 0x42;
    assert_eq!(cpu.process(&mut mem), Ok(()));
    assert_eq!(cpu.a, 0x42);
    assert!(cpu.f.z && cpu.f.n && !cpu.f.h && !cpu.f.c);
    assert_eq!(cpu.pc, 0x0102);
}

#[test]
fn loads_move_immediates_and_registers() {
    // LD A,d8; LD C,A; LD B,d8; LD A,B.
    let (mut cpu, mut mem) = machine(vec![0x3E, 0x77, 0x4F, 0x06, 0x21, 0x78]);
    cpu.process(&mut mem).unwrap();
    assert_eq!(cpu.a, 0x77);
    cpu.process(&mut mem).unwrap();
    assert_eq!(cpu.c, 0x77);
    cpu.process(&mut mem).unwrap();
    assert_eq!(cpu.b, 0x21);
    cpu.process(&mut mem).unwrap();
    assert_eq!(cpu.a, 0x21);
    assert_eq!(cpu.pc, 0x0106);
}

#[test]
fn sixteen_bit_loads_and_increments() {
    // LD HL,d16; INC HL; LD SP,d16.
    let (mut cpu, mut mem) = machine(vec![0x21, 0xFF, 0xC0, 0x23, 0x31, 0xFE, 0xDF]);
    cpu.process(&mut mem).unwrap();
    assert_eq!((cpu.h, cpu.l), (0xC0, 0xFF));
    cpu.process(&mut mem).unwrap();
    assert_eq!((cpu.h, cpu.l), (0xC1, 0x00));
    cpu.process(&mut mem).unwrap();
    assert_eq!(cpu.sp, 0xDFFE);
    assert_eq!(cpu.pc, 0x0107);
}

#[test]
fn load_accumulator_into_memory_and_back() {
    // LD HL,0xC123; LD (HL),A; LD A,(HL+).
    let (mut cpu, mut mem) = machine(vec![0x21, 0x23, 0xC1, 0x77, 0x2A]);
    cpu.a = 0x5A;
    cpu.process(&mut mem).unwrap();
    cpu.process(&mut mem).unwrap();
    assert_eq!(mem.read_address(0xC123), Ok(0x5A));
    cpu.a = 0x00;
    cpu.process(&mut mem).unwrap();
    assert_eq!(cpu.a, 0x5A);
    assert_eq!((cpu.h, cpu.l), (0xC1, 0x24));
}

#[test]
fn store_into_rom_region_faults_and_changes_nothing() {
    // LD (HL),A with HL inside the read-only region.
    let (mut cpu, mut mem) = machine(vec![0x77]);
    cpu.write_hl(0x2000);
    assert_eq!(
        cpu.process(&mut mem),
        Err(EmuError::Address { addr: 0x2000 })
    );
    assert_eq!(cpu.pc, 0x0100);
}

#[test]
fn high_page_store_and_load() {
    // LD A,d8; LDH (a8),A; LD A,d8; LDH A,(a8).
    let (mut cpu, mut mem) = machine(vec![0x3E, 0x55, 0xE0, 0x44, 0x3E, 0x00, 0xF0, 0x44]);
    cpu.process(&mut mem).unwrap();
    cpu.process(&mut mem).unwrap();
    assert_eq!(mem.read_address(0xFF44), Ok(0x55));
    cpu.process(&mut mem).unwrap();
    cpu.process(&mut mem).unwrap();
    assert_eq!(cpu.a, 0x55);
}

#[test]
fn high_page_store_indexed_by_c() {
    let (mut cpu, mut mem) = machine(vec![0xE2]);
    cpu.a = 0x99;
    cpu.c = 0x80;
    cpu.process(&mut mem).unwrap();
    assert_eq!(mem.read_address(0xFF80), Ok(0x99));
}

#[test]
fn interrupt_latch_set_and_cleared() {
    let (mut cpu, mut mem) = machine(vec![0xFB, 0xF3]);
    cpu.process(&mut mem).unwrap();
    assert_eq!(mem.read_address(0xFFFF), Ok(0xFF));
    cpu.process(&mut mem).unwrap();
    assert_eq!(mem.read_address(0xFFFF), Ok(0x00));
}

#[test]
fn return_with_enable_sets_latch() {
    // CALL 0x0200, then RETI at 0x0200.
    let mut rom = vec![0u8; 0x101];
    rom[0x00] = 0xCD;
    rom[0x01] = 0x00;
    rom[0x02] = 0x02;
    rom[0x100] = 0xD9;
    let (mut cpu, mut mem) = machine(rom);
    cpu.process(&mut mem).unwrap();
    cpu.process(&mut mem).unwrap();
    assert_eq!(cpu.pc, 0x0103);
    assert_eq!(cpu.sp, 0xFFFE);
    assert_eq!(mem.read_address(0xFFFF), Ok(0xFF));
}

#[test]
fn pop_af_loads_flags_from_high_nibble() {
    // LD SP,d16 pointing at prepared stack data, then POP AF.
    let (mut cpu, mut mem) = machine(vec![0x31, 0x00, 0xC0, 0xF1]);
    mem.write_16(0xC000, 0x42BF).unwrap();
    cpu.process(&mut mem).unwrap();
    cpu.process(&mut mem).unwrap();
    assert_eq!(cpu.a, 0x42);
    assert_eq!(cpu.f.read(), 0xB0);
    assert_eq!(cpu.sp, 0xC002);
}

#[test]
fn rotate_accumulator_left_clears_zero_flag() {
    let (mut cpu, mut mem) = machine(vec![0x17]);
    cpu.a = 0x80;
    cpu.f.c = true;
    cpu.process(&mut mem).unwrap();
    assert_eq!(cpu.a, 0x01);
    assert!(!cpu.f.z && !cpu.f.n && !cpu.f.h && cpu.f.c);
}

#[test]
fn extended_rotate_c_sets_zero_flag() {
    let (mut cpu, mut mem) = machine(vec![0xCB, 0x11]);
    cpu.c = 0x80;
    cpu.f.c = false;
    cpu.process(&mut mem).unwrap();
    assert_eq!(cpu.c, 0x00);
    assert!(cpu.f.z && !cpu.f.n && !cpu.f.h && cpu.f.c);
    assert_eq!(cpu.pc, 0x0102);
}

#[test]
fn extended_bit_seven_of_h() {
    let (mut cpu, mut mem) = machine(vec![0xCB, 0x7C, 0xCB, 0x7C]);
    cpu.h = 0x80;
    cpu.process(&mut mem).unwrap();
    assert!(!cpu.f.z && !cpu.f.n && cpu.f.h);
    cpu.h = 0x7F;
    cpu.process(&mut mem).unwrap();
    assert!(cpu.f.z && !cpu.f.n && cpu.f.h);
}

#[test]
fn complement_accumulator() {
    let (mut cpu, mut mem) = machine(vec![0x2F]);
    cpu.a = 0b1010_0101;
    cpu.process(&mut mem).unwrap();
    assert_eq!(cpu.a, 0b0101_1010);
    assert!(cpu.f.n && cpu.f.h);
}

#[test]
fn or_and_xor_update_accumulator_flags() {
    // OR B; XOR d8 clearing the accumulator.
    let (mut cpu, mut mem) = machine(vec![0xB0, 0xEE, 0x0F]);
    cpu.a = 0x0C;
    cpu.b = 0x03;
    cpu.process(&mut mem).unwrap();
    assert_eq!(cpu.a, 0x0F);
    assert!(!cpu.f.z && !cpu.f.n && !cpu.f.h && !cpu.f.c);
    cpu.process(&mut mem).unwrap();
    assert_eq!(cpu.a, 0x00);
    assert!(cpu.f.z);
    assert_eq!(cpu.pc, 0x0103);
}

#[test]
fn increment_memory_through_hl() {
    // LD HL,0xC000; INC (HL) twice, the second wrapping 0xFF to 0x00.
    let (mut cpu, mut mem) = machine(vec![0x21, 0x00, 0xC0, 0x34, 0x34]);
    cpu.process(&mut mem).unwrap();
    cpu.process(&mut mem).unwrap();
    assert_eq!(mem.read_address(0xC000), Ok(0x01));
    assert!(!cpu.f.z);
    mem.write_address(0xC000, 0xFF).unwrap();
    cpu.process(&mut mem).unwrap();
    assert_eq!(mem.read_address(0xC000), Ok(0x00));
    assert!(cpu.f.z && !cpu.f.n && cpu.f.h);
}

#[test]
fn store_descending_through_hl() {
    // LD HL,0xC001; LD (HL-),A; LD (HL),d8.
    let (mut cpu, mut mem) = machine(vec![0x21, 0x01, 0xC0, 0x32, 0x36, 0x7E]);
    cpu.a = 0x31;
    cpu.process(&mut mem).unwrap();
    cpu.process(&mut mem).unwrap();
    assert_eq!(mem.read_address(0xC001), Ok(0x31));
    assert_eq!((cpu.h, cpu.l), (0xC0, 0x00));
    cpu.process(&mut mem).unwrap();
    assert_eq!(mem.read_address(0xC000), Ok(0x7E));
    assert_eq!(cpu.pc, 0x0106);
}

#[test]
fn absolute_store_of_accumulator() {
    // LD (a16),A.
    let (mut cpu, mut mem) = machine(vec![0xEA, 0x00, 0x90]);
    cpu.a = 0x66;
    cpu.process(&mut mem).unwrap();
    assert_eq!(mem.read_address(0x9000), Ok(0x66));
    assert_eq!(cpu.pc, 0x0103);
}

#[test]
fn pair_decrement_wraps() {
    // LD BC,d16 zero, then DEC BC.
    let (mut cpu, mut mem) = machine(vec![0x01, 0x00, 0x00, 0x0B]);
    cpu.process(&mut mem).unwrap();
    cpu.process(&mut mem).unwrap();
    assert_eq!((cpu.b, cpu.c), (0xFF, 0xFF));
}

#[test]
fn load_from_pair_addresses() {
    // LD DE,0xC050; LD A,(DE); LD (BC),A with BC = 0xC060.
    let (mut cpu, mut mem) = machine(vec![0x11, 0x50, 0xC0, 0x1A, 0x02]);
    mem.write_address(0xC050, 0x3D).unwrap();
    cpu.write_bc(0xC060);
    cpu.process(&mut mem).unwrap();
    cpu.process(&mut mem).unwrap();
    assert_eq!(cpu.a, 0x3D);
    cpu.process(&mut mem).unwrap();
    assert_eq!(mem.read_address(0xC060), Ok(0x3D));
}
