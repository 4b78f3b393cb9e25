//! UxROM (mapper 2): a switchable 16 KiB PRG bank at $8000-$BFFF, the
//! last bank fixed at $C000-$FFFF.

use vstd::prelude::*;

use crate::mapper::Mapper;
use crate::mapper::Mirroring;

verus! {

pub struct UxRomMapper {
    prg_rom: Vec<u8>,
    chr_rom: Vec<u8>,
    prg_bank: u8,
    mirroring: Mirroring,
}

/// UxROM state: the images, the selected bank and the fixed mirroring.
pub struct UxRomView {
    pub prg_rom: Seq<u8>,
    pub chr_rom: Seq<u8>,
    pub prg_bank: u8,
    pub mirroring: Mirroring,
}

impl View for UxRomMapper {
    type V = UxRomView;

    closed spec fn view(&self) -> UxRomView {
        UxRomView {
            prg_rom: self.prg_rom@,
            chr_rom: self.chr_rom@,
            prg_bank: self.prg_bank,
            mirroring: self.mirroring,
        }
    }
}

/// What a UxROM CPU read returns: the selected 16 KiB bank in the lower
/// half of the window, the last bank in the upper half; reads past the
/// image yield 0.
pub open spec fn uxrom_prg_value(prg: Seq<u8>, bank: u8, addr: u16) -> u8 {
    if prg.len() == 0 {
        0
    } else if 0x8000 <= addr < 0xC000 {
        let off = bank * 0x4000 + (addr - 0x8000);
        if off < prg.len() {
            prg[off]
        } else {
            0
        }
    } else if addr >= 0xC000 {
        let banks = prg.len() as int / 0x4000;
        if banks == 0 {
            0
        } else {
            let off = (banks - 1) * 0x4000 + (addr - 0xC000);
            if off < prg.len() {
                prg[off]
            } else {
                0
            }
        }
    } else {
        0
    }
}

impl UxRomMapper {
    pub fn new(prg_rom: Vec<u8>, chr_rom: Vec<u8>, mirroring: Mirroring) -> (r: UxRomMapper)
        ensures
            r.inv(),
            r@.prg_rom == prg_rom@,
            r@.chr_rom == chr_rom@,
            r@.prg_bank == 0,
            r@.mirroring == mirroring,
    {
        UxRomMapper { prg_rom, chr_rom, prg_bank: 0, mirroring }
    }
}

impl Mapper for UxRomMapper {
    open spec fn inv(&self) -> bool {
        true
    }

    open spec fn prg_value(&self, addr: u16) -> u8 {
        uxrom_prg_value(self@.prg_rom, self@.prg_bank, addr)
    }

    open spec fn chr_value(&self, addr: u16) -> u8 {
        if addr < self@.chr_rom.len() {
            self@.chr_rom[addr as int]
        } else {
            0
        }
    }

    open spec fn mirroring_spec(&self) -> Mirroring {
        self@.mirroring
    }

    open spec fn irq_spec(&self) -> bool {
        false
    }

    /// Any write in $8000-$FFFF latches the low four bits as the bank.
    open spec fn write_prg_spec(&self, addr: u16, data: u8) -> UxRomView {
        if addr >= 0x8000 {
            UxRomView { prg_bank: data % 16, ..self@ }
        } else {
            self@
        }
    }

    open spec fn write_chr_spec(&self, addr: u16, data: u8) -> UxRomView {
        self@
    }

    open spec fn scanline_spec(&self, rendering_enabled: bool) -> UxRomView {
        self@
    }

    fn read_prg(&self, addr: u16) -> (r: u8) {
        if self.prg_rom.len() == 0 {
            return 0;
        }
        if 0x8000 <= addr && addr < 0xC000 {
            let off = self.prg_bank as usize * 0x4000 + (addr - 0x8000) as usize;
            if off < self.prg_rom.len() {
                self.prg_rom[off]
            } else {
                0
            }
        } else if addr >= 0xC000 {
            let banks = self.prg_rom.len() / 0x4000;
            if banks == 0 {
                return 0;
            }
            let off = (banks - 1) * 0x4000 + (addr - 0xC000) as usize;
            if off < self.prg_rom.len() {
                self.prg_rom[off]
            } else {
                0
            }
        } else {
            0
        }
    }

    fn write_prg(&mut self, addr: u16, data: u8) {
        if addr >= 0x8000 {
            self.prg_bank = data % 16;
        }
    }

    fn read_chr(&self, addr: u16) -> (r: u8) {
        if (addr as usize) < self.chr_rom.len() {
            self.chr_rom[addr as usize]
        } else {
            0
        }
    }

    fn write_chr(&mut self, _addr: u16, _data: u8) {
    }

    fn mirroring(&self) -> (r: Mirroring) {
        self.mirroring
    }

    fn handle_scanline(&mut self, _rendering_enabled: bool) {
    }

    fn poll_irq(&self) -> (r: Option<u8>) {
        Option::None
    }
}

} // verus!
