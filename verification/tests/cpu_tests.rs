use nes_core::cpu::CPU;
use nes_core::status::CARRY;
use nes_core::status::NEGATIVE;
use nes_core::status::OVERFLOW;
use nes_core::status::ZERO;

#[test]
fn test_0xa9_lda_immediate_load_data() {
    let mut cpu = CPU::new();
    cpu.load_and_run(vec![0xa9, 0x05, 0x00], None);
    assert_eq!(cpu.registers.a, 0x05);
    assert!(cpu.registers.status.bits() & 0b0000_0010 == 0b00);
    assert!(cpu.registers.status.bits() & 0b1000_0000 == 0);
}

#[test]
fn test_0xa9_lda_zero_flag() {
    let mut cpu = CPU::new();
    cpu.load_and_run(vec![0xa9, 0x00, 0x00], None);
    assert!(cpu.registers.status.bits() & 0b0000_0010 == 0b10);
}

#[test]
fn test_0xaa_tax_move_a_to_x() {
    let mut cpu = CPU::new();
    cpu.registers.a = 10;
    cpu.load(vec![0xaa, 0x00], None);
    cpu.run();

    assert_eq!(cpu.registers.x, 10)
}

#[test]
fn test_0xe8_inx_increment_x() {
    let mut cpu = CPU::new();
    cpu.registers.x = 5;
    cpu.load(vec![0xe8, 0x00], None);
    cpu.run();

    assert_eq!(cpu.registers.x, 6)
}

#[test]
fn test_5_ops_working_together() {
    let mut cpu = CPU::new();
    cpu.load_and_run(vec![0xa9, 0xc0, 0xaa, 0xe8, 0x00], None);

    assert_eq!(cpu.registers.x, 0xc1)
}

#[test]
fn test_inx_overflow() {
    let mut cpu = CPU::new();
    cpu.registers.x = 0xff;
    cpu.load(vec![0xe8, 0x00], None);
    cpu.run();

    assert_eq!(cpu.registers.x, 0)
}

#[test]
fn test_inx_zero_flag() {
    let mut cpu = CPU::new();
    cpu.registers.x = 0xff;
    cpu.load(vec![0xe8, 0x00], None);
    cpu.run();

    assert!(cpu.registers.status.bits() & 0b0000_0010 == 0b10);
}

#[test]
fn test_inx_negative_flag() {
    let mut cpu = CPU::new();
    cpu.registers.x = 0xfe;
    cpu.load(vec![0xe8, 0x00], None);
    cpu.run();

    assert!(cpu.registers.status.bits() & 0b1000_0000 == 0b1000_0000);
}

#[test]
fn test_reset_sets_pc_to_reset_vector() {
    let mut cpu = CPU::new();
    cpu.memory.write_u16(0xFFFC, 0x1234);
    cpu.reset(false);
    assert_eq!(cpu.registers.pc, 0x1234);
}

#[test]
fn test_load_writes_program_to_memory() {
    let mut cpu = CPU::new();
    let program = vec![0xA9, 0x01, 0x00];
    cpu.load(program.clone(), Some(0x8000));
    for (i, &byte) in program.iter().enumerate() {
        assert_eq!(cpu.memory.read(0x8000 + i as u16), byte);
    }
}

#[test]
fn test_lda_from_memory() {
    let mut cpu = CPU::new();
    cpu.memory.write(0x10, 0x55);

    cpu.load_and_run(vec![0xa5, 0x10, 0x00], None);

    assert_eq!(cpu.registers.a, 0x55);
}

#[test]
fn test_adc_immediate() {
    let mut cpu = CPU::new();
    cpu.registers.a = 0x10;

    cpu.load(vec![0x69, 0x05, 0x00], None);
    cpu.run();

    assert_eq!(cpu.registers.a, 0x15);
}

#[test]
fn test_adc_with_carry() {
    let mut cpu = CPU::new();
    cpu.registers.a = 0xFF;

    cpu.load(vec![0x69, 0x02, 0x00], None);
    cpu.run();

    assert_eq!(cpu.registers.a, 0x01);
    assert!(cpu.registers.status.contains(CARRY));
}

#[test]
fn test_and_immediate() {
    let mut cpu = CPU::new();
    cpu.registers.a = 0b1100_1100;

    cpu.load(vec![0x29, 0b1010_1010, 0x00], None);
    cpu.run();

    assert_eq!(cpu.registers.a, 0b1000_1000);
}

#[test]
fn test_asl_accumulator() {
    let mut cpu = CPU::new();
    cpu.registers.a = 0b0100_0001;

    cpu.load(vec![0x0A, 0x00], None);
    cpu.run();

    assert_eq!(cpu.registers.a, 0b1000_0010);
    assert!(!cpu.registers.status.contains(CARRY));
}

#[test]
fn test_lda_absolute() {
    let mut cpu = CPU::new();
    cpu.memory.write(0x1234, 0x42);

    cpu.load_and_run(vec![0xad, 0x34, 0x12, 0x00], None);

    assert_eq!(cpu.registers.a, 0x42);
}

#[test]
fn adc_sets_carry_and_clears_overflow_on_wraparound() {
    let mut cpu = CPU::new();
    cpu.load_and_run(vec![0xa9, 0xff, 0x69, 0x02, 0x00], None);

    assert_eq!(cpu.registers.a, 0x01);
    assert!(cpu.registers.status.contains(CARRY));
    assert!(!cpu.registers.status.contains(OVERFLOW));
}

#[test]
fn adc_sets_overflow_on_signed_wrap() {
    let mut cpu = CPU::new();
    // 0x50 + 0x50 = 0xA0: two positive addends with a negative result.
    cpu.load_and_run(vec![0xa9, 0x50, 0x69, 0x50, 0x00], None);

    assert_eq!(cpu.registers.a, 0xA0);
    assert!(cpu.registers.status.contains(OVERFLOW));
    assert!(!cpu.registers.status.contains(CARRY));
    assert!(cpu.registers.status.contains(NEGATIVE));
}

#[test]
fn sbc_immediate_subtracts_with_borrow() {
    let mut cpu = CPU::new();
    // SEC; LDA #$10; SBC #$06 -> A = $0A, no borrow (carry stays set).
    cpu.load_and_run(vec![0x38, 0xa9, 0x10, 0xe9, 0x06, 0x00], None);

    assert_eq!(cpu.registers.a, 0x0A);
    assert!(cpu.registers.status.contains(CARRY));
}

#[test]
fn copy_loop_moves_four_bytes() {
    let mut cpu = CPU::new();
    // LDX #0; loop: LDA $8000,X; STA $0200,X; INX; CPX #4; BNE loop; BRK.
    // The branch offset (-11) is relative to the byte after the branch.
    cpu.load_and_run(
        vec![
            0xa2, 0x00, 0xbd, 0x00, 0x80, 0x9d, 0x00, 0x02, 0xe8, 0xe0, 0x04, 0xd0, 0xf5, 0x00,
        ],
        None,
    );

    assert_eq!(cpu.memory.read(0x0200), 0xa2);
    assert_eq!(cpu.memory.read(0x0201), 0x00);
    assert_eq!(cpu.memory.read(0x0202), 0xbd);
    assert_eq!(cpu.memory.read(0x0203), 0x00);
    assert_eq!(cpu.registers.x, 4);
}

#[test]
fn jmp_indirect_follows_page_wrap_quirk() {
    let mut cpu = CPU::new();
    // Vector at $02FF reads its high byte from $0200, not $0300.
    cpu.memory.write(0x02FF, 0x34);
    cpu.memory.write(0x0200, 0x12);
    cpu.memory.write(0x0300, 0x99);
    // At the target $1234: LDA #$77; BRK.
    cpu.memory.write(0x1234, 0xa9);
    cpu.memory.write(0x1235, 0x77);
    cpu.memory.write(0x1236, 0x00);

    cpu.load_and_run(vec![0x6c, 0xff, 0x02], None);

    assert_eq!(cpu.registers.a, 0x77);
}

#[test]
fn pha_pla_round_trip_preserves_a_and_stack_pointer() {
    let mut cpu = CPU::new();
    cpu.load(vec![0xa9, 0x37, 0x48, 0xa9, 0x00, 0x68, 0x00], None);
    cpu.reset(false);
    let sp_before = cpu.registers.sp;
    cpu.run();

    assert_eq!(cpu.registers.a, 0x37);
    assert_eq!(cpu.registers.sp, sp_before.wrapping_sub(3));
}

#[test]
fn php_plp_round_trip_preserves_flags() {
    let mut cpu = CPU::new();
    // SEC; PHP; CLC; PLP; BRK: the carry set before PHP survives PLP.
    cpu.load_and_run(vec![0x38, 0x08, 0x18, 0x28, 0x00], None);

    assert!(cpu.registers.status.contains(CARRY));
}

#[test]
fn rol_then_ror_restores_accumulator() {
    let mut cpu = CPU::new();
    cpu.load_and_run(vec![0xa9, 0x5a, 0x2a, 0x6a, 0x00], None);

    assert_eq!(cpu.registers.a, 0x5a);
    assert!(!cpu.registers.status.contains(CARRY));
}

#[test]
fn cmp_sets_carry_and_zero() {
    let mut cpu = CPU::new();
    cpu.load_and_run(vec![0xa9, 0x42, 0xc9, 0x42, 0x00], None);

    assert!(cpu.registers.status.contains(CARRY));
    assert!(cpu.registers.status.contains(ZERO));
}

#[test]
fn unknown_opcode_reports_its_address_and_byte() {
    let mut cpu = CPU::new();
    let stop = cpu.load_and_run(vec![0x02], None);

    assert_eq!(
        stop,
        nes_core::cpu::StopReason::UnknownOpcode { pc: 0x8000, opcode: 0x02 }
    );
}

#[test]
fn jsr_rts_round_trip() {
    let mut cpu = CPU::new();
    // JSR $8006; LDA #$11; BRK ... at $8006: LDX #$22; RTS.
    cpu.load_and_run(
        vec![0x20, 0x06, 0x80, 0xa9, 0x11, 0x00, 0xa2, 0x22, 0x60],
        None,
    );

    assert_eq!(cpu.registers.x, 0x22);
    assert_eq!(cpu.registers.a, 0x11);
}
