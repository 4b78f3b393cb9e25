use nes_core::mapper::cartridge::make_mapper;
use nes_core::mapper::cartridge::CartridgeError;
use nes_core::mapper::cartridge::MapperKind;
use nes_core::mapper::Mirroring;

#[test]
fn unsupported_mapper_id_is_reported() {
    let r = make_mapper(5, vec![0; 0x4000], vec![0; 0x2000], Mirroring::Vertical, false);
    match r {
        Err(CartridgeError::UnsupportedMapper { id }) => assert_eq!(id, 5),
        _ => panic!("a mapper id past 4 must be rejected"),
    }

    let r = make_mapper(255, Vec::new(), Vec::new(), Mirroring::Vertical, false);
    assert!(matches!(r, Err(CartridgeError::UnsupportedMapper { id: 255 })));
}

#[test]
fn mapper_id_selects_the_matching_mapper() {
    let kinds = [0u8, 1, 2, 3, 4];
    for id in kinds {
        let r = make_mapper(id, vec![0; 0x8000], vec![0; 0x2000], Mirroring::Vertical, false);
        let kind = r.unwrap();
        let matches_id = match (&kind, id) {
            (MapperKind::Nrom(_), 0) => true,
            (MapperKind::Mmc1(_), 1) => true,
            (MapperKind::Uxrom(_), 2) => true,
            (MapperKind::Cnrom(_), 3) => true,
            (MapperKind::Mmc3(_), 4) => true,
            _ => false,
        };
        assert!(matches_id);
    }
}

#[test]
fn mapper_kind_dispatches_reads_and_writes() {
    let mut prg = vec![0u8; 0x4000];
    prg[0x123] = 0xAB;
    let mut kind = make_mapper(0, prg, vec![0; 0x2000], Mirroring::Horizontal, false).unwrap();

    assert_eq!(kind.read_prg(0x8123), 0xAB);
    // A 16 KiB NROM image is mirrored into the upper half.
    assert_eq!(kind.read_prg(0xC123), 0xAB);
    assert_eq!(kind.mirroring(), Mirroring::Horizontal);
    assert!(kind.poll_irq().is_none());

    // NROM ignores writes.
    kind.write_prg(0x8000, 0xFF);
    assert_eq!(kind.read_prg(0x8123), 0xAB);
}

#[test]
fn four_screen_flag_forces_four_screen_mirroring() {
    let kind = make_mapper(4, vec![0; 0x4000], vec![0; 0x2000], Mirroring::Vertical, true)
        .unwrap();
    assert_eq!(kind.mirroring(), Mirroring::FourScreen);
}

#[test]
fn mapper_kind_scanline_reaches_the_irq_unit() {
    let mut kind = make_mapper(4, vec![0; 0x4000], vec![0; 0x2000], Mirroring::Vertical, false)
        .unwrap();
    // Latch 1, reload, enable; the second rendered scanline fires.
    kind.write_prg(0xC000, 1);
    kind.write_prg(0xC001, 0);
    kind.write_prg(0xE001, 0);
    kind.handle_scanline(true);
    assert!(kind.poll_irq().is_none());
    kind.handle_scanline(true);
    assert!(kind.poll_irq().is_some());
}
