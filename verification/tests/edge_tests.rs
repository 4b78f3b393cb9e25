use nes_core::apu::pulse::PulseChannel;
use nes_core::apu::tables::duty_value;
use nes_core::apu::tables::length_value;
use nes_core::apu::tables::noise_period_value;
use nes_core::apu::tables::triangle_value;
use nes_core::cpu::CPU;
use nes_core::mapper::mmc3::Mmc3Mapper;
use nes_core::mapper::nrom::NromMapper;
use nes_core::mapper::uxrom::UxRomMapper;
use nes_core::mapper::Mapper;
use nes_core::mapper::Mirroring;
use nes_core::status::StatusFlags;
use nes_core::status::CARRY;
use nes_core::status::ZERO;

#[test]
fn nrom_empty_prg_reads_zero() {
    let mapper = NromMapper::new(Vec::new(), Vec::new(), Mirroring::Vertical);
    assert_eq!(mapper.read_prg(0x8000), 0);
    assert_eq!(mapper.read_prg(0xFFFF), 0);
    assert_eq!(mapper.read_chr(0x0000), 0);
}

#[test]
fn uxrom_empty_prg_reads_zero() {
    let mapper = UxRomMapper::new(Vec::new(), Vec::new(), Mirroring::Horizontal);
    assert_eq!(mapper.read_prg(0x8000), 0);
    assert_eq!(mapper.read_prg(0xC000), 0);
}

#[test]
fn mmc3_chr_ram_accepts_writes() {
    // An empty CHR image means the cartridge carries CHR RAM.
    let mut mapper = Mmc3Mapper::new(vec![0; 0x4000], Vec::new(), Mirroring::Vertical);
    mapper.write_chr(0x0123, 0x5A);
    assert_eq!(mapper.read_chr(0x0123), 0x5A);
}

#[test]
fn memory_load_clamps_at_address_space_top() {
    let mut cpu = CPU::new();
    cpu.load(vec![0x11, 0x22, 0x33, 0x44], Some(0xFFFE));
    assert_eq!(cpu.memory.read(0xFFFE), 0x11);
    assert_eq!(cpu.memory.read(0xFFFF), 0x22);
    // The bytes past the top of the address space are dropped, and the
    // reset vector still points at the load address.
    assert_eq!(cpu.memory.read_u16(0xFFFC), 0xFFFE);
    assert_eq!(cpu.memory.read(0x0000), 0x00);
    assert_eq!(cpu.memory.read(0x0001), 0x00);
}

#[test]
fn reset_with_clear_zeroes_memory() {
    let mut cpu = CPU::new();
    cpu.memory.write(0x1234, 0x99);
    cpu.reset(true);
    assert_eq!(cpu.memory.read(0x1234), 0x00);
    assert_eq!(cpu.registers.pc, 0x0000);
}

#[test]
fn length_table_spot_values() {
    assert_eq!(length_value(0), 10);
    assert_eq!(length_value(1), 254);
    assert_eq!(length_value(3), 2);
    assert_eq!(length_value(24), 192);
    assert_eq!(length_value(31), 30);
}

#[test]
fn triangle_table_descends_then_ascends() {
    assert_eq!(triangle_value(0), 15);
    assert_eq!(triangle_value(15), 0);
    assert_eq!(triangle_value(16), 0);
    assert_eq!(triangle_value(31), 15);
}

#[test]
fn duty_table_patterns() {
    let expected = [
        [0, 1, 0, 0, 0, 0, 0, 0],
        [0, 1, 1, 0, 0, 0, 0, 0],
        [0, 1, 1, 1, 1, 0, 0, 0],
        [1, 0, 0, 1, 1, 1, 1, 1],
    ];
    for mode in 0..4u8 {
        for pos in 0..8u8 {
            assert_eq!(duty_value(mode, pos), expected[mode as usize][pos as usize]);
        }
    }
}

#[test]
fn noise_period_table_spot_values() {
    assert_eq!(noise_period_value(0), 4);
    assert_eq!(noise_period_value(8), 202);
    assert_eq!(noise_period_value(15), 4068);
}

#[test]
fn pulse_is_silent_below_minimum_period() {
    let mut p = PulseChannel::new(1);
    p.set_enabled(true);
    // Constant volume 9, duty 3 (high at position 0), but period 7 < 8.
    p.write_register(0, 0xD9);
    p.write_register(2, 0x07);
    p.write_register(3, 0x00);
    assert_eq!(p.output(), 0);
}

#[test]
fn status_flags_insert_remove_contains() {
    let mut flags = StatusFlags::empty();
    assert_eq!(flags.bits(), 0);
    flags.insert(CARRY);
    flags.insert(ZERO);
    assert!(flags.contains(CARRY));
    assert!(flags.contains(ZERO));
    flags.remove(CARRY);
    assert!(!flags.contains(CARRY));
    assert!(flags.contains(ZERO));
    let copy = StatusFlags::from_bits_truncate(flags.bits());
    assert_eq!(copy, flags);
}
