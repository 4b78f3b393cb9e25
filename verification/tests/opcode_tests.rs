use nes_core::cpu::AddressingMode;
use nes_core::opcodes::Mnemonic;
use nes_core::opcodes::OpcodeMap;

#[test]
fn table_holds_exactly_the_official_opcodes() {
    let map = OpcodeMap::new();
    let entries = map.get_opcodes();
    assert_eq!(entries.len(), 151);
    for window in entries.windows(2) {
        assert!(window[0].code < window[1].code);
    }
}

#[test]
fn find_by_code_decodes_known_opcodes() {
    let map = OpcodeMap::new();

    let lda = map.find_by_code(0xA9).unwrap();
    assert_eq!(lda.mnemonic, Mnemonic::Lda);
    assert_eq!(lda.bytes, 2);
    assert_eq!(lda.cycles, 2);
    assert_eq!(lda.addressing_mode, AddressingMode::Immediate);

    let jmp = map.find_by_code(0x6C).unwrap();
    assert_eq!(jmp.mnemonic, Mnemonic::Jmp);
    assert_eq!(jmp.bytes, 3);
    assert_eq!(jmp.addressing_mode, AddressingMode::Indirect);
}

#[test]
fn find_by_code_rejects_unofficial_bytes() {
    let map = OpcodeMap::new();
    assert!(map.find_by_code(0x02).is_none());
    assert!(map.find_by_code(0xFF).is_none());
    assert!(map.find_by_code(0x80).is_none());
}
