//! The cartridge loader's side of the mapper family: a tagged variant
//! over the concrete mappers, selected by the iNES mapper id.

use vstd::prelude::*;

use crate::mapper::cnrom::CnRomMapper;
use crate::mapper::mmc1::Mmc1Mapper;
use crate::mapper::mmc3::Mmc3Mapper;
use crate::mapper::nrom::NromMapper;
use crate::mapper::uxrom::UxRomMapper;
use crate::mapper::Mapper;
use crate::mapper::Mirroring;

verus! {

/// Largest PRG or CHR image the loader accepts.
pub const MAX_IMAGE_SIZE: usize = 0x0400_0000;

/// One of the supported cartridge mappers, dispatched statically.
pub enum MapperKind {
    Nrom(NromMapper),
    Mmc1(Mmc1Mapper),
    Uxrom(UxRomMapper),
    Cnrom(CnRomMapper),
    Mmc3(Mmc3Mapper),
}

/// Why a cartridge was rejected before emulation started.
#[derive(Clone, Copy, Debug, PartialEq, Eq, Structural)]
pub enum CartridgeError {
    /// The iNES mapper id names no mapper this core implements.
    UnsupportedMapper { id: u8 },
    /// A ROM image larger than the loader accepts.
    OversizedImage,
}

impl MapperKind {
    pub open spec fn inv_spec(&self) -> bool {
        match self {
            MapperKind::Nrom(m) => m.inv(),
            MapperKind::Mmc1(m) => m.inv(),
            MapperKind::Uxrom(m) => m.inv(),
            MapperKind::Cnrom(m) => m.inv(),
            MapperKind::Mmc3(m) => m.inv(),
        }
    }

    pub open spec fn prg_value_spec(&self, addr: u16) -> u8 {
        match self {
            MapperKind::Nrom(m) => m.prg_value(addr),
            MapperKind::Mmc1(m) => m.prg_value(addr),
            MapperKind::Uxrom(m) => m.prg_value(addr),
            MapperKind::Cnrom(m) => m.prg_value(addr),
            MapperKind::Mmc3(m) => m.prg_value(addr),
        }
    }

    pub open spec fn chr_value_spec(&self, addr: u16) -> u8 {
        match self {
            MapperKind::Nrom(m) => m.chr_value(addr),
            MapperKind::Mmc1(m) => m.chr_value(addr),
            MapperKind::Uxrom(m) => m.chr_value(addr),
            MapperKind::Cnrom(m) => m.chr_value(addr),
            MapperKind::Mmc3(m) => m.chr_value(addr),
        }
    }

    pub open spec fn mirroring_value_spec(&self) -> Mirroring {
        match self {
            MapperKind::Nrom(m) => m.mirroring_spec(),
            MapperKind::Mmc1(m) => m.mirroring_spec(),
            MapperKind::Uxrom(m) => m.mirroring_spec(),
            MapperKind::Cnrom(m) => m.mirroring_spec(),
            MapperKind::Mmc3(m) => m.mirroring_spec(),
        }
    }

    pub open spec fn irq_value_spec(&self) -> bool {
        match self {
            MapperKind::Nrom(m) => m.irq_spec(),
            MapperKind::Mmc1(m) => m.irq_spec(),
            MapperKind::Uxrom(m) => m.irq_spec(),
            MapperKind::Cnrom(m) => m.irq_spec(),
            MapperKind::Mmc3(m) => m.irq_spec(),
        }
    }

    pub fn read_prg(&self, addr: u16) -> (r: u8)
        requires
            self.inv_spec(),
        ensures
            r == self.prg_value_spec(addr),
    {
        match self {
            MapperKind::Nrom(m) => m.read_prg(addr),
            MapperKind::Mmc1(m) => m.read_prg(addr),
            MapperKind::Uxrom(m) => m.read_prg(addr),
            MapperKind::Cnrom(m) => m.read_prg(addr),
            MapperKind::Mmc3(m) => m.read_prg(addr),
        }
    }

    pub fn read_chr(&self, addr: u16) -> (r: u8)
        requires
            self.inv_spec(),
        ensures
            r == self.chr_value_spec(addr),
    {
        match self {
            MapperKind::Nrom(m) => m.read_chr(addr),
            MapperKind::Mmc1(m) => m.read_chr(addr),
            MapperKind::Uxrom(m) => m.read_chr(addr),
            MapperKind::Cnrom(m) => m.read_chr(addr),
            MapperKind::Mmc3(m) => m.read_chr(addr),
        }
    }

    pub fn mirroring(&self) -> (r: Mirroring)
        requires
            self.inv_spec(),
        ensures
            r == self.mirroring_value_spec(),
    {
        match self {
            MapperKind::Nrom(m) => m.mirroring(),
            MapperKind::Mmc1(m) => m.mirroring(),
            MapperKind::Uxrom(m) => m.mirroring(),
            MapperKind::Cnrom(m) => m.mirroring(),
            MapperKind::Mmc3(m) => m.mirroring(),
        }
    }

    pub fn poll_irq(&self) -> (r: Option<u8>)
        requires
            self.inv_spec(),
        ensures
            r == if self.irq_value_spec() {
                Option::Some(0u8)
            } else {
                Option::None::<u8>
            },
    {
        match self {
            MapperKind::Nrom(m) => m.poll_irq(),
            MapperKind::Mmc1(m) => m.poll_irq(),
            MapperKind::Uxrom(m) => m.poll_irq(),
            MapperKind::Cnrom(m) => m.poll_irq(),
            MapperKind::Mmc3(m) => m.poll_irq(),
        }
    }

    pub fn write_prg(&mut self, addr: u16, data: u8)
        requires
            old(self).inv_spec(),
        ensures
            final(self).inv_spec(),
            match *old(self) {
                MapperKind::Nrom(m) => *final(self) matches MapperKind::Nrom(p) && p@
                    == m.write_prg_spec(addr, data),
                MapperKind::Mmc1(m) => *final(self) matches MapperKind::Mmc1(p) && p@
                    == m.write_prg_spec(addr, data),
                MapperKind::Uxrom(m) => *final(self) matches MapperKind::Uxrom(p) && p@
                    == m.write_prg_spec(addr, data),
                MapperKind::Cnrom(m) => *final(self) matches MapperKind::Cnrom(p) && p@
                    == m.write_prg_spec(addr, data),
                MapperKind::Mmc3(m) => *final(self) matches MapperKind::Mmc3(p) && p@
                    == m.write_prg_spec(addr, data),
            },
    {
        match self {
            MapperKind::Nrom(m) => m.write_prg(addr, data),
            MapperKind::Mmc1(m) => m.write_prg(addr, data),
            MapperKind::Uxrom(m) => m.write_prg(addr, data),
            MapperKind::Cnrom(m) => m.write_prg(addr, data),
            MapperKind::Mmc3(m) => m.write_prg(addr, data),
        }
    }

    pub fn write_chr(&mut self, addr: u16, data: u8)
        requires
            old(self).inv_spec(),
        ensures
            final(self).inv_spec(),
            match *old(self) {
                MapperKind::Nrom(m) => *final(self) matches MapperKind::Nrom(p) && p@
                    == m.write_chr_spec(addr, data),
                MapperKind::Mmc1(m) => *final(self) matches MapperKind::Mmc1(p) && p@
                    == m.write_chr_spec(addr, data),
                MapperKind::Uxrom(m) => *final(self) matches MapperKind::Uxrom(p) && p@
                    == m.write_chr_spec(addr, data),
                MapperKind::Cnrom(m) => *final(self) matches MapperKind::Cnrom(p) && p@
                    == m.write_chr_spec(addr, data),
                MapperKind::Mmc3(m) => *final(self) matches MapperKind::Mmc3(p) && p@
                    == m.write_chr_spec(addr, data),
            },
    {
        match self {
            MapperKind::Nrom(m) => m.write_chr(addr, data),
            MapperKind::Mmc1(m) => m.write_chr(addr, data),
            MapperKind::Uxrom(m) => m.write_chr(addr, data),
            MapperKind::Cnrom(m) => m.write_chr(addr, data),
            MapperKind::Mmc3(m) => m.write_chr(addr, data),
        }
    }

    pub fn handle_scanline(&mut self, rendering_enabled: bool)
        requires
            old(self).inv_spec(),
        ensures
            final(self).inv_spec(),
            match *old(self) {
                MapperKind::Nrom(m) => *final(self) matches MapperKind::Nrom(p) && p@
                    == m.scanline_spec(rendering_enabled),
                MapperKind::Mmc1(m) => *final(self) matches MapperKind::Mmc1(p) && p@
                    == m.scanline_spec(rendering_enabled),
                MapperKind::Uxrom(m) => *final(self) matches MapperKind::Uxrom(p) && p@
                    == m.scanline_spec(rendering_enabled),
                MapperKind::Cnrom(m) => *final(self) matches MapperKind::Cnrom(p) && p@
                    == m.scanline_spec(rendering_enabled),
                MapperKind::Mmc3(m) => *final(self) matches MapperKind::Mmc3(p) && p@
                    == m.scanline_spec(rendering_enabled),
            },
    {
        match self {
            MapperKind::Nrom(m) => m.handle_scanline(rendering_enabled),
            MapperKind::Mmc1(m) => m.handle_scanline(rendering_enabled),
            MapperKind::Uxrom(m) => m.handle_scanline(rendering_enabled),
            MapperKind::Cnrom(m) => m.handle_scanline(rendering_enabled),
            MapperKind::Mmc3(m) => m.handle_scanline(rendering_enabled),
        }
    }
}

/// The nametable arrangement the loaded cartridge starts with: its
/// header's mirroring, overridden by the four-screen flag.
pub open spec fn effective_mirroring(mirroring: Mirroring, four_screen: bool) -> Mirroring {
    if four_screen {
        Mirroring::FourScreen
    } else {
        mirroring
    }
}

/// Builds the mapper a cartridge header names.  Mapper ids 0 to 4 are
/// supported; a four-screen cartridge forces four-screen mirroring.  An
/// unknown id or an oversized image is reported to the caller before
/// emulation starts.  On success the mapper of the matching kind holds
/// exactly the given images and starts in its documented power-on state.
pub fn make_mapper(
    mapper_id: u8,
    prg_rom: Vec<u8>,
    chr_rom: Vec<u8>,
    mirroring: Mirroring,
    four_screen: bool,
) -> (r: Result<MapperKind, CartridgeError>)
    ensures
        mapper_id > 4 ==> r == Result::<MapperKind, CartridgeError>::Err(
            CartridgeError::UnsupportedMapper { id: mapper_id },
        ),
        mapper_id <= 4 && (prg_rom@.len() > MAX_IMAGE_SIZE || chr_rom@.len() > MAX_IMAGE_SIZE)
            ==> r == Result::<MapperKind, CartridgeError>::Err(CartridgeError::OversizedImage),
        mapper_id <= 4 && prg_rom@.len() <= MAX_IMAGE_SIZE && chr_rom@.len() <= MAX_IMAGE_SIZE
            ==> (r matches Result::Ok(k) && k.inv_spec() && (match k {
            MapperKind::Nrom(m) => mapper_id == 0 && m@.prg_rom == prg_rom@ && m@.chr_rom
                == chr_rom@ && m@.mirroring == effective_mirroring(mirroring, four_screen),
            MapperKind::Mmc1(m) => mapper_id == 1 && m@.prg_rom == prg_rom@ && m@.chr_rom
                == chr_rom@ && m@.prg_ram.len() == 0x2000 && m@.shift_register == 0
                && m@.shift_count == 0 && m@.prg_bank == 0 && m@.control == 0x0C | (
            match effective_mirroring(mirroring, four_screen) {
                Mirroring::SingleScreenLo => 0u8,
                Mirroring::SingleScreenHi => 1u8,
                Mirroring::Vertical => 2u8,
                Mirroring::Horizontal => 3u8,
                Mirroring::FourScreen => 2u8,
            }),
            MapperKind::Uxrom(m) => mapper_id == 2 && m@.prg_rom == prg_rom@ && m@.chr_rom
                == chr_rom@ && m@.prg_bank == 0 && m@.mirroring == effective_mirroring(
                mirroring,
                four_screen,
            ),
            MapperKind::Cnrom(m) => mapper_id == 3 && m@.prg_rom == prg_rom@ && m@.chr_rom
                == chr_rom@ && m@.chr_bank == 0 && m@.mirroring == effective_mirroring(
                mirroring,
                four_screen,
            ),
            MapperKind::Mmc3(m) => mapper_id == 4 && m@.prg_rom == prg_rom@ && (chr_rom@.len() > 0
                ==> m@.chr == chr_rom@ && !m@.chr_is_ram) && (chr_rom@.len() == 0 ==> m@.chr.len()
                == 0x2000 && m@.chr_is_ram) && m@.mirroring == effective_mirroring(
                mirroring,
                four_screen,
            ) && m@.mirroring_locked == (effective_mirroring(mirroring, four_screen)
                == Mirroring::FourScreen) && !m@.irq_enabled && !m@.irq_pending,
        })),
{
    if mapper_id > 4 {
        return Result::Err(CartridgeError::UnsupportedMapper { id: mapper_id });
    }
    if prg_rom.len() > MAX_IMAGE_SIZE || chr_rom.len() > MAX_IMAGE_SIZE {
        return Result::Err(CartridgeError::OversizedImage);
    }
    let effective = if four_screen {
        Mirroring::FourScreen
    } else {
        mirroring
    };
    match mapper_id {
        0 => Result::Ok(MapperKind::Nrom(NromMapper::new(prg_rom, chr_rom, effective))),
        1 => Result::Ok(MapperKind::Mmc1(Mmc1Mapper::new(prg_rom, chr_rom, effective))),
        2 => Result::Ok(MapperKind::Uxrom(UxRomMapper::new(prg_rom, chr_rom, effective))),
        3 => Result::Ok(MapperKind::Cnrom(CnRomMapper::new(prg_rom, chr_rom, effective))),
        _ => Result::Ok(MapperKind::Mmc3(Mmc3Mapper::new(prg_rom, chr_rom, effective))),
    }
}

} // verus!
