use nes_core::cpu::CPU;
use nes_core::status::INTERRUPT_DISABLE;
use nes_core::status::UNUSED;

#[test]
fn zero_page_x_wraps_inside_the_zero_page() {
    let mut cpu = CPU::new();
    cpu.memory.write(0x0001, 0x66);
    // LDX #$02; LDA $FF,X: $FF + 2 wraps to $01.
    cpu.load_and_run(vec![0xa2, 0x02, 0xb5, 0xff, 0x00], None);
    assert_eq!(cpu.registers.a, 0x66);
}

#[test]
fn zero_page_y_wraps_inside_the_zero_page() {
    let mut cpu = CPU::new();
    cpu.memory.write(0x0001, 0x44);
    // LDY #$03; LDX $FE,Y.
    cpu.load_and_run(vec![0xa0, 0x03, 0xb6, 0xfe, 0x00], None);
    assert_eq!(cpu.registers.x, 0x44);
}

#[test]
fn absolute_x_indexes_past_a_page_boundary() {
    let mut cpu = CPU::new();
    cpu.memory.write(0x1300, 0x77);
    // LDX #$10; LDA $12F0,X.
    cpu.load_and_run(vec![0xa2, 0x10, 0xbd, 0xf0, 0x12, 0x00], None);
    assert_eq!(cpu.registers.a, 0x77);
}

#[test]
fn absolute_y_indexes_from_base() {
    let mut cpu = CPU::new();
    cpu.memory.write(0x1235, 0x55);
    // LDY #$01; LDA $1234,Y.
    cpu.load_and_run(vec![0xa0, 0x01, 0xb9, 0x34, 0x12, 0x00], None);
    assert_eq!(cpu.registers.a, 0x55);
}

#[test]
fn indirect_x_pre_indexes_with_zero_page_wrap() {
    let mut cpu = CPU::new();
    // Pointer at ($FE + $03) mod 256 = $01/$02 -> $1234.
    cpu.memory.write(0x0001, 0x34);
    cpu.memory.write(0x0002, 0x12);
    cpu.memory.write(0x1234, 0x88);
    // LDX #$03; LDA ($FE,X).
    cpu.load_and_run(vec![0xa2, 0x03, 0xa1, 0xfe, 0x00], None);
    assert_eq!(cpu.registers.a, 0x88);
}

#[test]
fn indirect_y_post_indexes() {
    let mut cpu = CPU::new();
    // Pointer at $10/$11 -> $1230, plus Y = 4.
    cpu.memory.write(0x0010, 0x30);
    cpu.memory.write(0x0011, 0x12);
    cpu.memory.write(0x1234, 0x99);
    // LDY #$04; LDA ($10),Y.
    cpu.load_and_run(vec![0xa0, 0x04, 0xb1, 0x10, 0x00], None);
    assert_eq!(cpu.registers.a, 0x99);
}

#[test]
fn relative_branch_skips_forward() {
    let mut cpu = CPU::new();
    // SEC; BCS +2 skips the LDA #$11, leaving A untouched by it.
    cpu.load_and_run(vec![0x38, 0xb0, 0x02, 0xa9, 0x11, 0xa9, 0x22, 0x00], None);
    assert_eq!(cpu.registers.a, 0x22);
}

#[test]
fn relative_branch_not_taken_falls_through() {
    let mut cpu = CPU::new();
    // CLC; BCS +2 is not taken, so the first LDA executes.
    cpu.load_and_run(vec![0x18, 0xb0, 0x02, 0xa9, 0x11, 0x00], None);
    assert_eq!(cpu.registers.a, 0x11);
}

#[test]
fn taken_branch_lands_exactly_on_its_target() {
    let mut cpu = CPU::new();
    // SEC; BCS -1: the target is the branch's own operand byte, whose
    // value $FF is no official opcode, so execution must stop right
    // there rather than being advanced past it.
    let stop = cpu.load_and_run(vec![0x38, 0xb0, 0xff, 0x00], None);
    assert_eq!(
        stop,
        nes_core::cpu::StopReason::UnknownOpcode { pc: 0x8002, opcode: 0xff }
    );
}

#[test]
fn nmi_pushes_state_and_jumps_through_fffa() {
    let mut cpu = CPU::new();
    cpu.memory.write_u16(0xFFFA, 0x1234);
    cpu.registers.pc = 0x8042;
    let sp_before = cpu.registers.sp;

    cpu.nmi();

    assert_eq!(cpu.registers.pc, 0x1234);
    assert!(cpu.registers.status.contains(INTERRUPT_DISABLE));
    assert_eq!(cpu.registers.sp, sp_before.wrapping_sub(3));
    // Pushed: PC high, PC low, then status with B clear and U set.
    let hi = cpu.memory.read(0x0100 + sp_before as u16);
    let lo = cpu.memory.read(0x0100 + sp_before.wrapping_sub(1) as u16);
    let pushed_status = cpu.memory.read(0x0100 + sp_before.wrapping_sub(2) as u16);
    assert_eq!(hi, 0x80);
    assert_eq!(lo, 0x42);
    assert_eq!(pushed_status & UNUSED, UNUSED);
    assert_eq!(pushed_status & 0x10, 0);
}

#[test]
fn irq_is_masked_by_interrupt_disable() {
    let mut cpu = CPU::new();
    cpu.memory.write_u16(0xFFFE, 0x4321);
    cpu.registers.pc = 0x9000;

    cpu.registers.status.insert(INTERRUPT_DISABLE);
    assert!(!cpu.irq());
    assert_eq!(cpu.registers.pc, 0x9000);

    cpu.registers.status.remove(INTERRUPT_DISABLE);
    assert!(cpu.irq());
    assert_eq!(cpu.registers.pc, 0x4321);
}
