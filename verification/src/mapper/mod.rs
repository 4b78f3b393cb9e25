//! The cartridge mappers: bank-switching state machines behind the CPU
//! and PPU buses.

use vstd::prelude::*;

pub mod cartridge;
pub mod cnrom;
pub mod mmc1;
pub mod mmc3;
pub mod nrom;
pub mod uxrom;

verus! {

/// Nametable mirroring arrangements a cartridge can select.
#[derive(Clone, Copy, Debug, PartialEq, Eq, Structural)]
pub enum Mirroring {
    Vertical,
    Horizontal,
    SingleScreenLo,
    SingleScreenHi,
    FourScreen,
}

/// The common mapper interface.  Each implementation supplies spec
/// functions describing exactly what its reads return and what its writes
/// do to its (viewed) state; the executable methods are bound to them.
pub trait Mapper: View + Sized {
    /// The internal well-formedness each mapper maintains.
    spec fn inv(&self) -> bool;

    /// What a CPU read at `addr` returns.
    spec fn prg_value(&self, addr: u16) -> u8;

    /// What a PPU pattern-table read at `addr` returns.
    spec fn chr_value(&self, addr: u16) -> u8;

    /// The currently selected nametable mirroring.
    spec fn mirroring_spec(&self) -> Mirroring;

    /// Whether the mapper is asserting its IRQ line.
    spec fn irq_spec(&self) -> bool;

    /// The state a CPU write leaves behind.
    spec fn write_prg_spec(&self, addr: u16, data: u8) -> Self::V;

    /// The state a PPU pattern-table write leaves behind.
    spec fn write_chr_spec(&self, addr: u16, data: u8) -> Self::V;

    /// The state a scanline notification leaves behind.
    spec fn scanline_spec(&self, rendering_enabled: bool) -> Self::V;

    fn read_prg(&self, addr: u16) -> (r: u8)
        requires
            self.inv(),
        ensures
            r == self.prg_value(addr),
    ;

    fn write_prg(&mut self, addr: u16, data: u8)
        requires
            old(self).inv(),
        ensures
            final(self).inv(),
            final(self)@ == old(self).write_prg_spec(addr, data),
    ;

    fn read_chr(&self, addr: u16) -> (r: u8)
        requires
            self.inv(),
        ensures
            r == self.chr_value(addr),
    ;

    fn write_chr(&mut self, addr: u16, data: u8)
        requires
            old(self).inv(),
        ensures
            final(self).inv(),
            final(self)@ == old(self).write_chr_spec(addr, data),
    ;

    fn mirroring(&self) -> (r: Mirroring)
        requires
            self.inv(),
        ensures
            r == self.mirroring_spec(),
    ;

    /// PPU scanline callback used by mappers with a scanline counter.
    fn handle_scanline(&mut self, rendering_enabled: bool)
        requires
            old(self).inv(),
        ensures
            final(self).inv(),
            final(self)@ == old(self).scanline_spec(rendering_enabled),
    ;

    /// `Some(0)` while the mapper asserts its IRQ line.
    fn poll_irq(&self) -> (r: Option<u8>)
        requires
            self.inv(),
        ensures
            r == if self.irq_spec() {
                Option::Some(0u8)
            } else {
                Option::None::<u8>
            },
    ;
}

} // verus!
