use nes_core::mapper::cnrom::CnRomMapper;
use nes_core::mapper::mmc1::Mmc1Mapper;
use nes_core::mapper::mmc3::Mmc3Mapper;
use nes_core::mapper::nrom::NromMapper;
use nes_core::mapper::uxrom::UxRomMapper;
use nes_core::mapper::Mapper;
use nes_core::mapper::Mirroring;

const PRG_BANK_SIZE: usize = 0x2000;
const CHR_BANK_SIZE_1K: usize = 0x0400;

fn patterned_prg(banks: usize) -> Vec<u8> {
    let mut data = vec![0u8; banks * PRG_BANK_SIZE];
    for bank in 0..banks {
        let start = bank * PRG_BANK_SIZE;
        for i in 0..PRG_BANK_SIZE {
            data[start + i] = bank as u8;
        }
    }
    data
}

#[test]
fn prg_bank_mode_switches_slots() {
    let prg_rom = patterned_prg(4);
    let chr_rom = vec![0; 0x2000];
    let mut mapper = Mmc3Mapper::new(prg_rom, chr_rom, Mirroring::Vertical);

    mapper.write_prg(0x8000, 0x06);
    mapper.write_prg(0x8001, 0x03);
    mapper.write_prg(0x8000, 0x07);
    mapper.write_prg(0x8001, 0x00);

    assert_eq!(mapper.read_prg(0x8000), 3);
    assert_eq!(mapper.read_prg(0xA000), 0);
    assert_eq!(mapper.read_prg(0xC000), 2);
    assert_eq!(mapper.read_prg(0xE000), 3);

    mapper.write_prg(0x8000, 0x46);
    mapper.write_prg(0x8001, 0x01);

    assert_eq!(mapper.read_prg(0x8000), 2);
    assert_eq!(mapper.read_prg(0xC000), 1);
}

#[test]
fn irq_counter_respects_latch_and_enable() {
    let prg_rom = patterned_prg(2);
    let chr_rom = vec![0; 0x2000];
    let mut mapper = Mmc3Mapper::new(prg_rom, chr_rom, Mirroring::Horizontal);

    mapper.write_prg(0xC000, 1);
    mapper.write_prg(0xC001, 0);
    mapper.write_prg(0xE001, 0);

    mapper.handle_scanline(true);
    assert!(mapper.poll_irq().is_none());

    mapper.handle_scanline(true);
    assert!(mapper.poll_irq().is_some());

    mapper.write_prg(0xE000, 0);
    assert!(mapper.poll_irq().is_none());

    mapper.write_prg(0xE001, 0);
    mapper.write_prg(0xC001, 0);
    mapper.handle_scanline(false);
    mapper.handle_scanline(true);
    assert!(mapper.poll_irq().is_none());
    mapper.handle_scanline(true);
    assert!(mapper.poll_irq().is_some());
}

fn patterned_chr() -> Vec<u8> {
    let mut chr = vec![0u8; 0x2000];
    for bank in 0..8 {
        let start = bank * CHR_BANK_SIZE_1K;
        for i in 0..CHR_BANK_SIZE_1K {
            chr[start + i] = bank as u8;
        }
    }
    chr
}

fn select_register(mapper: &mut Mmc3Mapper, reg: u8) {
    mapper.write_prg(0x8000, reg & 0x07);
}

#[test]
fn chr_banks_map_correct_regions() {
    let prg_rom = vec![0; 0x8000];
    let chr_rom = patterned_chr();
    let mut mapper = Mmc3Mapper::new(prg_rom, chr_rom, Mirroring::Vertical);

    select_register(&mut mapper, 0);
    mapper.write_prg(0x8001, 0x02);
    assert_eq!(mapper.read_chr(0x0000), 2);
    assert_eq!(mapper.read_chr(0x0400), 3);

    select_register(&mut mapper, 2);
    mapper.write_prg(0x8001, 0x07);
    assert_eq!(mapper.read_chr(0x1000), 7);

    select_register(&mut mapper, 3);
    mapper.write_prg(0x8001, 0x01);
    assert_eq!(mapper.read_chr(0x1400), 1);
}

#[test]
fn chr_inversion_swaps_regions() {
    let prg_rom = vec![0; 0x8000];
    let chr_rom = patterned_chr();
    let mut mapper = Mmc3Mapper::new(prg_rom, chr_rom, Mirroring::Vertical);

    mapper.write_prg(0x8000, 0x80 | 0x00);
    mapper.write_prg(0x8001, 0x04);
    assert_eq!(mapper.read_chr(0x1000), 4);

    mapper.write_prg(0x8000, 0x80 | 0x01);
    mapper.write_prg(0x8001, 0x06);
    assert_eq!(mapper.read_chr(0x1800), 6);
    assert_eq!(mapper.read_chr(0x1C00), 7);

    mapper.write_prg(0x8000, 0x82);
    mapper.write_prg(0x8001, 0x03);
    assert_eq!(mapper.read_chr(0x0000), 3);
}

#[test]
fn nrom_mirrors_16k_prg_across_both_halves() {
    let mut prg = vec![0u8; 0x4000];
    for (i, b) in prg.iter_mut().enumerate() {
        *b = (i % 251) as u8;
    }
    let mapper = NromMapper::new(prg, vec![0; 0x2000], Mirroring::Vertical);

    for k in [0u16, 1, 0x123, 0x2000, 0x3FFF] {
        assert_eq!(mapper.read_prg(0x8000 + k), mapper.read_prg(0xC000 + k));
    }
}

#[test]
fn nrom_32k_prg_is_not_mirrored() {
    let mut prg = vec![0u8; 0x8000];
    prg[0] = 0x11;
    prg[0x4000] = 0x22;
    let mapper = NromMapper::new(prg, vec![0; 0x2000], Mirroring::Horizontal);

    assert_eq!(mapper.read_prg(0x8000), 0x11);
    assert_eq!(mapper.read_prg(0xC000), 0x22);
}

#[test]
fn uxrom_switches_lower_bank_and_fixes_last() {
    let mut prg = vec![0u8; 3 * 0x4000];
    prg[0] = 0xA0;
    prg[0x4000] = 0xA1;
    prg[0x8000] = 0xA2;
    let mut mapper = UxRomMapper::new(prg, vec![0; 0x2000], Mirroring::Vertical);

    assert_eq!(mapper.read_prg(0x8000), 0xA0);
    assert_eq!(mapper.read_prg(0xC000), 0xA2);

    mapper.write_prg(0x8000, 0x01);
    assert_eq!(mapper.read_prg(0x8000), 0xA1);
    assert_eq!(mapper.read_prg(0xC000), 0xA2);
}

#[test]
fn cnrom_prg_write_selects_chr_bank() {
    let mut chr = vec![0u8; 4 * 0x2000];
    chr[0] = 0xB0;
    chr[0x2000] = 0xB1;
    chr[0x6000] = 0xB3;
    let mut mapper = CnRomMapper::new(vec![0; 0x8000], chr, Mirroring::Vertical);

    assert_eq!(mapper.read_chr(0x0000), 0xB0);
    mapper.write_prg(0x8000, 0x01);
    assert_eq!(mapper.read_chr(0x0000), 0xB1);
    mapper.write_prg(0xFFFF, 0x03);
    assert_eq!(mapper.read_chr(0x0000), 0xB3);
}

#[test]
fn mmc1_reset_write_clears_shift_and_forces_fix_last_mode() {
    let mut mapper = Mmc1Mapper::new(vec![0; 0x8000], vec![0; 0x2000], Mirroring::Vertical);

    mapper.write_prg(0x8000, 0x01);
    mapper.write_prg(0x8000, 0x01);
    assert_eq!(mapper.shift_state().1, 2);

    mapper.write_prg(0x8000, 0xFF);
    mapper.write_prg(0x8000, 0xFF);
    mapper.write_prg(0x8000, 0xFF);
    mapper.write_prg(0x8000, 0x80);

    assert_eq!(mapper.shift_state(), (0, 0));
    assert_eq!(mapper.control_value() & 0x0C, 0x0C);
}

#[test]
fn mmc1_serial_write_selects_prg_bank() {
    let mut prg = vec![0u8; 4 * 0x4000];
    prg[0] = 0xC0;
    prg[0x4000] = 0xC1;
    prg[0xC000] = 0xC3;
    let mut mapper = Mmc1Mapper::new(prg, vec![0; 0x2000], Mirroring::Vertical);

    // Power-on control is fix-last: the last bank sits at $C000.
    assert_eq!(mapper.read_prg(0x8000), 0xC0);
    assert_eq!(mapper.read_prg(0xC000), 0xC3);

    // Shift the value 1 (bit 0 first) into the PRG bank register.
    mapper.write_prg(0xE000, 0x01);
    mapper.write_prg(0xE000, 0x00);
    mapper.write_prg(0xE000, 0x00);
    mapper.write_prg(0xE000, 0x00);
    mapper.write_prg(0xE000, 0x00);

    assert_eq!(mapper.read_prg(0x8000), 0xC1);
    assert_eq!(mapper.read_prg(0xC000), 0xC3);
}

#[test]
fn mmc1_control_write_selects_mirroring() {
    let mut mapper = Mmc1Mapper::new(vec![0; 0x8000], vec![0; 0x2000], Mirroring::Vertical);
    assert_eq!(mapper.mirroring(), Mirroring::Vertical);

    // Shift 0b00011 into the control register: horizontal mirroring.
    mapper.write_prg(0x8000, 0x01);
    mapper.write_prg(0x8000, 0x01);
    mapper.write_prg(0x8000, 0x00);
    mapper.write_prg(0x8000, 0x00);
    mapper.write_prg(0x8000, 0x00);

    assert_eq!(mapper.mirroring(), Mirroring::Horizontal);
}

#[test]
fn mmc3_prg_ram_respects_enable_and_protect() {
    let mut mapper = Mmc3Mapper::new(patterned_prg(2), vec![0; 0x2000], Mirroring::Vertical);

    mapper.write_prg(0x6000, 0x5A);
    assert_eq!(mapper.read_prg(0x6000), 0x5A);

    // Write-protect the RAM: stores are dropped.
    mapper.write_prg(0xA001, 0xC0);
    mapper.write_prg(0x6000, 0x77);
    assert_eq!(mapper.read_prg(0x6000), 0x5A);

    // Disable the RAM: reads float high.
    mapper.write_prg(0xA001, 0x00);
    assert_eq!(mapper.read_prg(0x6000), 0xFF);
}
