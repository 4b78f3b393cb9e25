//! NROM (mapper 0): fixed PRG and CHR, a 16 KiB PRG image mirrored
//! across the whole $8000-$FFFF window.

use vstd::prelude::*;

use crate::mapper::Mapper;
use crate::mapper::Mirroring;

verus! {

pub struct NromMapper {
    prg_rom: Vec<u8>,
    chr_rom: Vec<u8>,
    mirroring: Mirroring,
}

/// NROM state: both images and the fixed mirroring.
pub struct NromView {
    pub prg_rom: Seq<u8>,
    pub chr_rom: Seq<u8>,
    pub mirroring: Mirroring,
}

impl View for NromMapper {
    type V = NromView;

    closed spec fn view(&self) -> NromView {
        NromView { prg_rom: self.prg_rom@, chr_rom: self.chr_rom@, mirroring: self.mirroring }
    }
}

/// What an NROM CPU read returns: below $8000 nothing is mapped; a
/// 16 KiB image is mirrored across both halves of the window; reads past
/// the image yield 0.
pub open spec fn nrom_prg_value(prg: Seq<u8>, addr: u16) -> u8 {
    if addr < 0x8000 || prg.len() == 0 {
        0
    } else {
        let off = if prg.len() == 0x4000 {
            (addr - 0x8000) % 0x4000
        } else {
            (addr - 0x8000) as int
        };
        if off < prg.len() {
            prg[off]
        } else {
            0
        }
    }
}

impl NromMapper {
    pub fn new(prg_rom: Vec<u8>, chr_rom: Vec<u8>, mirroring: Mirroring) -> (r: NromMapper)
        ensures
            r.inv(),
            r@.prg_rom == prg_rom@,
            r@.chr_rom == chr_rom@,
            r@.mirroring == mirroring,
    {
        NromMapper { prg_rom, chr_rom, mirroring }
    }
}

impl Mapper for NromMapper {
    open spec fn inv(&self) -> bool {
        true
    }

    open spec fn prg_value(&self, addr: u16) -> u8 {
        nrom_prg_value(self@.prg_rom, addr)
    }

    open spec fn chr_value(&self, addr: u16) -> u8 {
        if addr < self@.chr_rom.len() {
            self@.chr_rom[addr as int]
        } else {
            0
        }
    }

    open spec fn mirroring_spec(&self) -> Mirroring {
        self@.mirroring
    }

    open spec fn irq_spec(&self) -> bool {
        false
    }

    /// NROM has no registers: CPU writes change nothing.
    open spec fn write_prg_spec(&self, addr: u16, data: u8) -> NromView {
        self@
    }

    /// NROM CHR is ROM: pattern writes change nothing.
    open spec fn write_chr_spec(&self, addr: u16, data: u8) -> NromView {
        self@
    }

    open spec fn scanline_spec(&self, rendering_enabled: bool) -> NromView {
        self@
    }

    fn read_prg(&self, addr: u16) -> (r: u8) {
        if addr < 0x8000 || self.prg_rom.len() == 0 {
            return 0;
        }
        let mut offset = (addr - 0x8000) as usize;
        if self.prg_rom.len() == 0x4000 {
            offset = offset % 0x4000;
        }
        if offset < self.prg_rom.len() {
            self.prg_rom[offset]
        } else {
            0
        }
    }

    fn write_prg(&mut self, _addr: u16, _data: u8) {
    }

    fn read_chr(&self, addr: u16) -> (r: u8) {
        if (addr as usize) < self.chr_rom.len() {
            self.chr_rom[addr as usize]
        } else {
            0
        }
    }

    fn write_chr(&mut self, _addr: u16, _data: u8) {
    }

    fn mirroring(&self) -> (r: Mirroring) {
        self.mirroring
    }

    fn handle_scanline(&mut self, _rendering_enabled: bool) {
    }

    fn poll_irq(&self) -> (r: Option<u8>) {
        Option::None
    }
}

/// With a 16 KiB PRG image the two halves of the CPU window read alike:
/// $8000+k and $C000+k return the same byte for every k below $4000.
pub proof fn lemma_nrom_mirrors_16k(m: NromMapper, k: u16)
    requires
        m@.prg_rom.len() == 0x4000,
        k < 0x4000,
    ensures
        m.prg_value((0x8000 + k) as u16) == m.prg_value((0xC000 + k) as u16),
{
    assert((0x8000 + k - 0x8000) % 0x4000 == (0xC000 + k - 0x8000) % 0x4000);
}

} // verus!
