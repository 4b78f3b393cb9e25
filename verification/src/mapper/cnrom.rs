//! CNROM (mapper 3): fixed 32 KiB PRG, a switchable 8 KiB CHR bank
//! selected by the low two bits of any PRG-range write.

use vstd::prelude::*;

use crate::mapper::Mapper;
use crate::mapper::Mirroring;

verus! {

pub struct CnRomMapper {
    prg_rom: Vec<u8>,
    chr_rom: Vec<u8>,
    chr_bank: u8,
    mirroring: Mirroring,
}

/// CNROM state: the images, the selected CHR bank and the fixed mirroring.
pub struct CnRomView {
    pub prg_rom: Seq<u8>,
    pub chr_rom: Seq<u8>,
    pub chr_bank: u8,
    pub mirroring: Mirroring,
}

impl View for CnRomMapper {
    type V = CnRomView;

    closed spec fn view(&self) -> CnRomView {
        CnRomView {
            prg_rom: self.prg_rom@,
            chr_rom: self.chr_rom@,
            chr_bank: self.chr_bank,
            mirroring: self.mirroring,
        }
    }
}

impl CnRomMapper {
    pub fn new(prg_rom: Vec<u8>, chr_rom: Vec<u8>, mirroring: Mirroring) -> (r: CnRomMapper)
        ensures
            r.inv(),
            r@.prg_rom == prg_rom@,
            r@.chr_rom == chr_rom@,
            r@.chr_bank == 0,
            r@.mirroring == mirroring,
    {
        CnRomMapper { prg_rom, chr_rom, chr_bank: 0, mirroring }
    }
}

impl Mapper for CnRomMapper {
    open spec fn inv(&self) -> bool {
        true
    }

    /// The whole 32 KiB image sits at $8000-$FFFF, wrapped modulo its size.
    open spec fn prg_value(&self, addr: u16) -> u8 {
        if addr < 0x8000 || self@.prg_rom.len() == 0 {
            0
        } else {
            self@.prg_rom[(addr - 0x8000) % self@.prg_rom.len() as int]
        }
    }

    /// The selected 8 KiB CHR bank, wrapped modulo the image size.
    open spec fn chr_value(&self, addr: u16) -> u8 {
        if self@.chr_rom.len() == 0 {
            0
        } else {
            self@.chr_rom[(self@.chr_bank * 0x2000 + addr) % self@.chr_rom.len() as int]
        }
    }

    open spec fn mirroring_spec(&self) -> Mirroring {
        self@.mirroring
    }

    open spec fn irq_spec(&self) -> bool {
        false
    }

    /// Any write in $8000-$FFFF latches the low two bits as the CHR bank.
    open spec fn write_prg_spec(&self, addr: u16, data: u8) -> CnRomView {
        if addr >= 0x8000 {
            CnRomView { chr_bank: data % 4, ..self@ }
        } else {
            self@
        }
    }

    open spec fn write_chr_spec(&self, addr: u16, data: u8) -> CnRomView {
        self@
    }

    open spec fn scanline_spec(&self, rendering_enabled: bool) -> CnRomView {
        self@
    }

    fn read_prg(&self, addr: u16) -> (r: u8) {
        if addr < 0x8000 || self.prg_rom.len() == 0 {
            0
        } else {
            self.prg_rom[(addr - 0x8000) as usize % self.prg_rom.len()]
        }
    }

    fn write_prg(&mut self, addr: u16, data: u8) {
        if addr >= 0x8000 {
            self.chr_bank = data % 4;
        }
    }

    fn read_chr(&self, addr: u16) -> (r: u8) {
        if self.chr_rom.len() == 0 {
            0
        } else {
            self.chr_rom[(self.chr_bank as usize * 0x2000 + addr as usize) % self.chr_rom.len()]
        }
    }

    fn write_chr(&mut self, _addr: u16, _data: u8) {
    }

    fn mirroring(&self) -> (r: Mirroring) {
        self.mirroring
    }

    fn handle_scanline(&mut self, _rendering_enabled: bool) {
    }

    fn poll_irq(&self) -> (r: Option<u8>) {
        Option::None
    }
}

} // verus!
