//! MMC3 (mapper 4): eight bank registers, PRG mode and CHR inversion
//! switches, PRG RAM protection and a scanline-clocked IRQ counter.

use vstd::prelude::*;

use crate::mapper::Mapper;
use crate::mapper::Mirroring;

verus! {

pub const PRG_BANK_SIZE: usize = 0x2000;

pub const CHR_BANK_SIZE_1K: usize = 0x0400;

pub const CHR_BANK_SIZE_2K: usize = 0x0800;

pub struct Mmc3Mapper {
    prg_rom: Vec<u8>,
    chr: Vec<u8>,
    chr_is_ram: bool,
    prg_ram: Vec<u8>,
    prg_ram_enable: bool,
    prg_ram_write_protect: bool,
    bank_registers: Vec<u8>,
    selected_register: u8,
    chr_inversion: bool,
    prg_mode: bool,
    mirroring: Mirroring,
    mirroring_locked: bool,
    irq_latch: u8,
    irq_counter: u8,
    irq_reload: bool,
    irq_enabled: bool,
    irq_pending: bool,
}

/// MMC3 state: images, RAM, the eight bank registers and the banking,
/// mirroring and IRQ control bits.
pub struct Mmc3View {
    pub prg_rom: Seq<u8>,
    pub chr: Seq<u8>,
    pub chr_is_ram: bool,
    pub prg_ram: Seq<u8>,
    pub prg_ram_enable: bool,
    pub prg_ram_write_protect: bool,
    pub bank_registers: Seq<u8>,
    pub selected_register: u8,
    pub chr_inversion: bool,
    pub prg_mode: bool,
    pub mirroring: Mirroring,
    pub mirroring_locked: bool,
    pub irq_latch: u8,
    pub irq_counter: u8,
    pub irq_reload: bool,
    pub irq_enabled: bool,
    pub irq_pending: bool,
}

impl View for Mmc3Mapper {
    type V = Mmc3View;

    closed spec fn view(&self) -> Mmc3View {
        Mmc3View {
            prg_rom: self.prg_rom@,
            chr: self.chr@,
            chr_is_ram: self.chr_is_ram,
            prg_ram: self.prg_ram@,
            prg_ram_enable: self.prg_ram_enable,
            prg_ram_write_protect: self.prg_ram_write_protect,
            bank_registers: self.bank_registers@,
            selected_register: self.selected_register,
            chr_inversion: self.chr_inversion,
            prg_mode: self.prg_mode,
            mirroring: self.mirroring,
            mirroring_locked: self.mirroring_locked,
            irq_latch: self.irq_latch,
            irq_counter: self.irq_counter,
            irq_reload: self.irq_reload,
            irq_enabled: self.irq_enabled,
            irq_pending: self.irq_pending,
        }
    }
}

/// Number of 8 KiB PRG banks, at least one.
pub open spec fn mmc3_prg_bank_count(v: Mmc3View) -> int {
    let c = v.prg_rom.len() as int / PRG_BANK_SIZE as int;
    if c == 0 {
        1
    } else {
        c
    }
}

/// Byte offset of the PRG bank with the given index, wrapped into the image.
pub open spec fn mmc3_prg_bank_offset_by_index(v: Mmc3View, bank_index: int) -> int {
    if v.prg_rom.len() == 0 {
        0
    } else {
        let count = mmc3_prg_bank_count(v);
        let index = bank_index % count;
        (index * PRG_BANK_SIZE as int) % v.prg_rom.len() as int
    }
}

/// Byte offset of the bank counted from the end of the image.
pub open spec fn mmc3_fixed_prg_bank_offset(v: Mmc3View, index_from_end: int) -> int {
    if v.prg_rom.len() == 0 {
        0
    } else {
        let count = mmc3_prg_bank_count(v);
        let index = if count >= index_from_end {
            count - index_from_end
        } else {
            0
        };
        mmc3_prg_bank_offset_by_index(v, index)
    }
}

pub open spec fn mmc3_prg_bank_offset_from_reg(v: Mmc3View, reg: int) -> int {
    mmc3_prg_bank_offset_by_index(v, v.bank_registers[reg] as int)
}

/// Index into the PRG image a CPU read at `addr` resolves to: the four
/// 8 KiB slots are R6 / R7 / fixed(second-last) / fixed(last), with the
/// first and third swapped in PRG mode 1.
pub open spec fn mmc3_prg_index(v: Mmc3View, addr: u16) -> int {
    let bank_offset = if 0x8000 <= addr < 0xA000 {
        if v.prg_mode {
            mmc3_fixed_prg_bank_offset(v, 2)
        } else {
            mmc3_prg_bank_offset_from_reg(v, 6)
        }
    } else if 0xA000 <= addr < 0xC000 {
        mmc3_prg_bank_offset_from_reg(v, 7)
    } else if 0xC000 <= addr < 0xE000 {
        if v.prg_mode {
            mmc3_prg_bank_offset_from_reg(v, 6)
        } else {
            mmc3_fixed_prg_bank_offset(v, 2)
        }
    } else {
        mmc3_fixed_prg_bank_offset(v, 1)
    };
    (bank_offset + (addr as int) % (PRG_BANK_SIZE as int)) % v.prg_rom.len() as int
}

/// Byte offset of the CHR bank held in `register` (2 KiB registers have
/// their low bit cleared), wrapped into the image and aligned to the
/// bank size.
pub open spec fn mmc3_chr_bank_offset(v: Mmc3View, register: int, bank_size: int) -> int {
    if v.chr.len() == 0 {
        0
    } else {
        let raw = v.bank_registers[register] as int;
        let bank0 = if register <= 1 {
            raw - raw % 2
        } else {
            raw
        };
        let total = v.chr.len() as int / CHR_BANK_SIZE_1K as int;
        let normalized = if total == 0 {
            1
        } else {
            total
        };
        let bank = bank0 % normalized;
        let base = (bank * CHR_BANK_SIZE_1K as int) % v.chr.len() as int;
        base - base % bank_size
    }
}

/// Which register, bank size and window base serve a pattern-table
/// address, before and after CHR inversion.
pub open spec fn mmc3_chr_region(inversion: bool, addr: u16) -> (int, int, int) {
    if !inversion {
        if addr < 0x0800 {
            (0, CHR_BANK_SIZE_2K as int, 0x0000)
        } else if addr < 0x1000 {
            (1, CHR_BANK_SIZE_2K as int, 0x0800)
        } else if addr < 0x1400 {
            (2, CHR_BANK_SIZE_1K as int, 0x1000)
        } else if addr < 0x1800 {
            (3, CHR_BANK_SIZE_1K as int, 0x1400)
        } else if addr < 0x1C00 {
            (4, CHR_BANK_SIZE_1K as int, 0x1800)
        } else if addr < 0x2000 {
            (5, CHR_BANK_SIZE_1K as int, 0x1C00)
        } else {
            (2, CHR_BANK_SIZE_1K as int, 0x1000)
        }
    } else {
        if addr < 0x0400 {
            (2, CHR_BANK_SIZE_1K as int, 0x0000)
        } else if addr < 0x0800 {
            (3, CHR_BANK_SIZE_1K as int, 0x0400)
        } else if addr < 0x0C00 {
            (4, CHR_BANK_SIZE_1K as int, 0x0800)
        } else if addr < 0x1000 {
            (5, CHR_BANK_SIZE_1K as int, 0x0C00)
        } else if addr < 0x1800 {
            (0, CHR_BANK_SIZE_2K as int, 0x1000)
        } else if addr < 0x2000 {
            (1, CHR_BANK_SIZE_2K as int, 0x1800)
        } else {
            (2, CHR_BANK_SIZE_1K as int, 0x0000)
        }
    }
}

/// Index into the CHR image a pattern-table access resolves to.
pub open spec fn mmc3_chr_index(v: Mmc3View, addr: u16) -> int {
    if v.chr.len() == 0 {
        addr as int % 0x2000
    } else {
        let (register, bank_size, base) = mmc3_chr_region(v.chr_inversion, addr);
        let bank_offset = mmc3_chr_bank_offset(v, register, bank_size);
        let offset = (addr - base) % bank_size;
        (bank_offset + offset) % v.chr.len() as int
    }
}

/// One IRQ-counter clock: a pending reload or an expired counter loads
/// the latch, otherwise the counter decrements; reaching zero with the
/// unit enabled asserts the IRQ.
pub open spec fn mmc3_clock_irq_spec(v: Mmc3View) -> Mmc3View {
    let counter = if v.irq_reload || v.irq_counter == 0 {
        v.irq_latch
    } else {
        (v.irq_counter - 1) as u8
    };
    let reload = if v.irq_reload || v.irq_counter == 0 {
        false
    } else {
        v.irq_reload
    };
    let pending = if counter == 0 && v.irq_enabled {
        true
    } else {
        v.irq_pending
    };
    Mmc3View { irq_counter: counter, irq_reload: reload, irq_pending: pending, ..v }
}

/// What a CPU write does to the MMC3, by register pair.
pub open spec fn mmc3_write_prg_spec(v: Mmc3View, addr: u16, data: u8) -> Mmc3View {
    if 0x6000 <= addr < 0x8000 {
        if v.prg_ram_enable && !v.prg_ram_write_protect {
            Mmc3View { prg_ram: v.prg_ram.update(addr - 0x6000, data), ..v }
        } else {
            v
        }
    } else if 0x8000 <= addr < 0xA000 {
        if addr % 2 == 0 {
            Mmc3View {
                selected_register: data % 8,
                prg_mode: data & 0x40 != 0,
                chr_inversion: data & 0x80 != 0,
                ..v
            }
        } else {
            let target = v.selected_register % 8;
            let value = if target <= 1 {
                (data - data % 2) as u8
            } else {
                data
            };
            Mmc3View { bank_registers: v.bank_registers.update(target as int, value), ..v }
        }
    } else if 0xA000 <= addr < 0xC000 {
        if addr % 2 == 0 {
            if v.mirroring_locked {
                v
            } else {
                Mmc3View {
                    mirroring: if data % 2 == 0 {
                        Mirroring::Vertical
                    } else {
                        Mirroring::Horizontal
                    },
                    ..v
                }
            }
        } else {
            Mmc3View {
                prg_ram_enable: data & 0x80 != 0,
                prg_ram_write_protect: data & 0x40 != 0,
                ..v
            }
        }
    } else if 0xC000 <= addr < 0xE000 {
        if addr % 2 == 0 {
            Mmc3View { irq_latch: data, ..v }
        } else {
            Mmc3View { irq_reload: true, ..v }
        }
    } else if addr >= 0xE000 {
        if addr % 2 == 0 {
            Mmc3View {
                irq_enabled: false,
                irq_pending: false,
                irq_counter: v.irq_latch,
                ..v
            }
        } else {
            Mmc3View { irq_enabled: true, ..v }
        }
    } else {
        v
    }
}

impl Mmc3Mapper {
    pub fn new(prg_rom: Vec<u8>, chr_rom: Vec<u8>, mirroring: Mirroring) -> (r: Mmc3Mapper)
        requires
            prg_rom@.len() <= 0x0400_0000,
            chr_rom@.len() <= 0x0400_0000,
        ensures
            r.inv(),
            r@.prg_rom == prg_rom@,
            chr_rom@.len() > 0 ==> r@.chr == chr_rom@ && !r@.chr_is_ram,
            chr_rom@.len() == 0 ==> r@.chr.len() == 0x2000 && r@.chr_is_ram,
            r@.bank_registers =~= seq![0u8, 2u8, 4u8, 5u8, 6u8, 7u8, 0u8, 1u8],
            r@.selected_register == 0,
            !r@.chr_inversion && !r@.prg_mode,
            r@.mirroring == mirroring,
            r@.mirroring_locked == (mirroring == Mirroring::FourScreen),
            r@.prg_ram_enable && !r@.prg_ram_write_protect,
            r@.irq_latch == 0 && r@.irq_counter == 0,
            !r@.irq_reload && !r@.irq_enabled && !r@.irq_pending,
    {
        let chr_is_ram = chr_rom.len() == 0;
        let chr = if chr_is_ram {
            let mut ram: Vec<u8> = Vec::new();
            let mut i: usize = 0;
            while i < 0x2000
                invariant
                    ram@.len() == i,
                    i <= 0x2000,
                decreases 0x2000 - i,
            {
                ram.push(0);
                i = i + 1;
            }
            ram
        } else {
            chr_rom
        };
        let mut prg_ram: Vec<u8> = Vec::new();
        let mut i: usize = 0;
        while i < 0x2000
            invariant
                prg_ram@.len() == i,
                i <= 0x2000,
            decreases 0x2000 - i,
        {
            prg_ram.push(0);
            i = i + 1;
        }
        let mut bank_registers: Vec<u8> = Vec::new();
        bank_registers.push(0);
        bank_registers.push(2);
        bank_registers.push(4);
        bank_registers.push(5);
        bank_registers.push(6);
        bank_registers.push(7);
        bank_registers.push(0);
        bank_registers.push(1);
        let locked = match mirroring {
            Mirroring::FourScreen => true,
            _ => false,
        };
        Mmc3Mapper {
            prg_rom,
            chr,
            chr_is_ram,
            prg_ram,
            prg_ram_enable: true,
            prg_ram_write_protect: false,
            bank_registers,
            selected_register: 0,
            chr_inversion: false,
            prg_mode: false,
            mirroring,
            mirroring_locked: locked,
            irq_latch: 0,
            irq_counter: 0,
            irq_reload: false,
            irq_enabled: false,
            irq_pending: false,
        }
    }

    fn prg_bank_count(&self) -> (r: usize)
        requires
            self.inv(),
        ensures
            r == mmc3_prg_bank_count(self@),
    {
        let count = self.prg_rom.len() / PRG_BANK_SIZE;
        if count == 0 {
            1
        } else {
            count
        }
    }

    fn prg_bank_offset_by_index(&self, bank_index: usize) -> (r: usize)
        requires
            self.inv(),
        ensures
            r == mmc3_prg_bank_offset_by_index(self@, bank_index as int),
            self@.prg_rom.len() > 0 ==> r < self@.prg_rom.len(),
            self@.prg_rom.len() == 0 ==> r == 0,
    {
        if self.prg_rom.len() == 0 {
            0
        } else {
            let count = self.prg_bank_count();
            let index = bank_index % count;
            (index * PRG_BANK_SIZE) % self.prg_rom.len()
        }
    }

    fn fixed_prg_bank_offset(&self, index_from_end: usize) -> (r: usize)
        requires
            self.inv(),
        ensures
            r == mmc3_fixed_prg_bank_offset(self@, index_from_end as int),
            self@.prg_rom.len() > 0 ==> r < self@.prg_rom.len(),
            self@.prg_rom.len() == 0 ==> r == 0,
    {
        if self.prg_rom.len() == 0 {
            0
        } else {
            let count = self.prg_bank_count();
            let index = if count >= index_from_end {
                count - index_from_end
            } else {
                0
            };
            self.prg_bank_offset_by_index(index)
        }
    }

    fn prg_bank_offset_from_reg(&self, reg: usize) -> (r: usize)
        requires
            self.inv(),
            reg < 8,
        ensures
            r == mmc3_prg_bank_offset_from_reg(self@, reg as int),
            self@.prg_rom.len() > 0 ==> r < self@.prg_rom.len(),
            self@.prg_rom.len() == 0 ==> r == 0,
    {
        self.prg_bank_offset_by_index(self.bank_registers[reg] as usize)
    }

    fn prg_addr(&self, addr: u16) -> (r: usize)
        requires
            self.inv(),
            addr >= 0x8000,
            self@.prg_rom.len() > 0,
        ensures
            r == mmc3_prg_index(self@, addr),
            r < self@.prg_rom.len(),
    {
        let bank_offset: usize = if addr < 0xA000 {
            if self.prg_mode {
                self.fixed_prg_bank_offset(2)
            } else {
                self.prg_bank_offset_from_reg(6)
            }
        } else if addr < 0xC000 {
            self.prg_bank_offset_from_reg(7)
        } else if addr < 0xE000 {
            if self.prg_mode {
                self.prg_bank_offset_from_reg(6)
            } else {
                self.fixed_prg_bank_offset(2)
            }
        } else {
            self.fixed_prg_bank_offset(1)
        };
        let offset = addr as usize % PRG_BANK_SIZE;
        (bank_offset + offset) % self.prg_rom.len()
    }

    fn chr_bank_offset(&self, register: usize, bank_size: usize) -> (r: usize)
        requires
            self.inv(),
            register < 8,
            bank_size == CHR_BANK_SIZE_1K || bank_size == CHR_BANK_SIZE_2K,
        ensures
            r == mmc3_chr_bank_offset(self@, register as int, bank_size as int),
            self@.chr.len() > 0 ==> r < self@.chr.len(),
            self@.chr.len() == 0 ==> r == 0,
    {
        if self.chr.len() == 0 {
            return 0;
        }
        let raw = self.bank_registers[register] as usize;
        let bank0 = if register <= 1 {
            raw - raw % 2
        } else {
            raw
        };
        let total = self.chr.len() / CHR_BANK_SIZE_1K;
        let normalized = if total == 0 {
            1
        } else {
            total
        };
        let bank = bank0 % normalized;
        let base = (bank * CHR_BANK_SIZE_1K) % self.chr.len();
        base - base % bank_size
    }

    fn chr_addr(&self, addr: u16) -> (r: usize)
        requires
            self.inv(),
        ensures
            r == mmc3_chr_index(self@, addr),
            self@.chr.len() > 0 ==> r < self@.chr.len(),
    {
        if self.chr.len() == 0 {
            return addr as usize % 0x2000;
        }
        let register: usize;
        let bank_size: usize;
        let base: usize;
        if !self.chr_inversion {
            if addr < 0x0800 {
                register = 0;
                bank_size = CHR_BANK_SIZE_2K;
                base = 0x0000;
            } else if addr < 0x1000 {
                register = 1;
                bank_size = CHR_BANK_SIZE_2K;
                base = 0x0800;
            } else if addr < 0x1400 {
                register = 2;
                bank_size = CHR_BANK_SIZE_1K;
                base = 0x1000;
            } else if addr < 0x1800 {
                register = 3;
                bank_size = CHR_BANK_SIZE_1K;
                base = 0x1400;
            } else if addr < 0x1C00 {
                register = 4;
                bank_size = CHR_BANK_SIZE_1K;
                base = 0x1800;
            } else if addr < 0x2000 {
                register = 5;
                bank_size = CHR_BANK_SIZE_1K;
                base = 0x1C00;
            } else {
                register = 2;
                bank_size = CHR_BANK_SIZE_1K;
                base = 0x1000;
            }
        } else {
            if addr < 0x0400 {
                register = 2;
                bank_size = CHR_BANK_SIZE_1K;
                base = 0x0000;
            } else if addr < 0x0800 {
                register = 3;
                bank_size = CHR_BANK_SIZE_1K;
                base = 0x0400;
            } else if addr < 0x0C00 {
                register = 4;
                bank_size = CHR_BANK_SIZE_1K;
                base = 0x0800;
            } else if addr < 0x1000 {
                register = 5;
                bank_size = CHR_BANK_SIZE_1K;
                base = 0x0C00;
            } else if addr < 0x1800 {
                register = 0;
                bank_size = CHR_BANK_SIZE_2K;
                base = 0x1000;
            } else if addr < 0x2000 {
                register = 1;
                bank_size = CHR_BANK_SIZE_2K;
                base = 0x1800;
            } else {
                register = 2;
                bank_size = CHR_BANK_SIZE_1K;
                base = 0x0000;
            }
        }
        let bank_offset = self.chr_bank_offset(register, bank_size);
        let offset = (addr as usize - base) % bank_size;
        (bank_offset + offset) % self.chr.len()
    }

    fn clock_irq_counter(&mut self)
        requires
            old(self).inv(),
        ensures
            final(self).inv(),
            final(self)@ == mmc3_clock_irq_spec(old(self)@),
    {
        if self.irq_reload || self.irq_counter == 0 {
            self.irq_counter = self.irq_latch;
            self.irq_reload = false;
        } else {
            self.irq_counter = self.irq_counter - 1;
        }
        if self.irq_counter == 0 && self.irq_enabled {
            self.irq_pending = true;
        }
    }
}

impl Mapper for Mmc3Mapper {
    open spec fn inv(&self) -> bool {
        &&& self@.prg_ram.len() == 0x2000
        &&& self@.bank_registers.len() == 8
        &&& self@.prg_rom.len() <= 0x0400_0000
        &&& self@.chr.len() <= 0x0400_0000
    }

    /// PRG RAM at $6000-$7FFF ($FF while disabled), banked PRG above.
    open spec fn prg_value(&self, addr: u16) -> u8 {
        if 0x6000 <= addr < 0x8000 {
            if self@.prg_ram_enable {
                self@.prg_ram[addr - 0x6000]
            } else {
                0xFF
            }
        } else if addr >= 0x8000 {
            if self@.prg_rom.len() == 0 {
                0
            } else {
                self@.prg_rom[mmc3_prg_index(self@, addr)]
            }
        } else {
            0
        }
    }

    open spec fn chr_value(&self, addr: u16) -> u8 {
        if self@.chr.len() == 0 {
            0
        } else {
            self@.chr[mmc3_chr_index(self@, addr)]
        }
    }

    open spec fn mirroring_spec(&self) -> Mirroring {
        self@.mirroring
    }

    open spec fn irq_spec(&self) -> bool {
        self@.irq_pending
    }

    open spec fn write_prg_spec(&self, addr: u16, data: u8) -> Mmc3View {
        mmc3_write_prg_spec(self@, addr, data)
    }

    /// Pattern writes land only in CHR RAM.
    open spec fn write_chr_spec(&self, addr: u16, data: u8) -> Mmc3View {
        if self@.chr_is_ram && self@.chr.len() > 0 {
            Mmc3View { chr: self@.chr.update(mmc3_chr_index(self@, addr), data), ..self@ }
        } else {
            self@
        }
    }

    /// The IRQ counter is clocked once per rendered scanline.
    open spec fn scanline_spec(&self, rendering_enabled: bool) -> Mmc3View {
        if rendering_enabled {
            mmc3_clock_irq_spec(self@)
        } else {
            self@
        }
    }

    fn read_prg(&self, addr: u16) -> (r: u8) {
        if 0x6000 <= addr && addr < 0x8000 {
            if self.prg_ram_enable {
                self.prg_ram[(addr - 0x6000) as usize]
            } else {
                0xFF
            }
        } else if addr >= 0x8000 {
            if self.prg_rom.len() == 0 {
                0
            } else {
                let index = self.prg_addr(addr);
                self.prg_rom[index]
            }
        } else {
            0
        }
    }

    #[verifier::rlimit(60)]
    fn write_prg(&mut self, addr: u16, data: u8) {
        if 0x6000 <= addr && addr < 0x8000 {
            if self.prg_ram_enable && !self.prg_ram_write_protect {
                let index = (addr - 0x6000) as usize;
                self.prg_ram.set(index, data);
            }
        } else if 0x8000 <= addr && addr < 0xA000 {
            if addr % 2 == 0 {
                self.selected_register = data % 8;
                self.prg_mode = data & 0x40 != 0;
                self.chr_inversion = data & 0x80 != 0;
            } else {
                let target = (self.selected_register % 8) as usize;
                let value = if target <= 1 {
                    data - data % 2
                } else {
                    data
                };
                self.bank_registers.set(target, value);
            }
        } else if 0xA000 <= addr && addr < 0xC000 {
            if addr % 2 == 0 {
                if !self.mirroring_locked {
                    self.mirroring = if data % 2 == 0 {
                        Mirroring::Vertical
                    } else {
                        Mirroring::Horizontal
                    };
                }
            } else {
                self.prg_ram_enable = data & 0x80 != 0;
                self.prg_ram_write_protect = data & 0x40 != 0;
            }
        } else if 0xC000 <= addr && addr < 0xE000 {
            if addr % 2 == 0 {
                self.irq_latch = data;
            } else {
                self.irq_reload = true;
            }
        } else if addr >= 0xE000 {
            if addr % 2 == 0 {
                self.irq_enabled = false;
                self.irq_pending = false;
                self.irq_counter = self.irq_latch;
            } else {
                self.irq_enabled = true;
            }
        }
    }

    fn read_chr(&self, addr: u16) -> (r: u8) {
        if self.chr.len() == 0 {
            0
        } else {
            let index = self.chr_addr(addr);
            self.chr[index]
        }
    }

    fn write_chr(&mut self, addr: u16, data: u8) {
        if self.chr_is_ram && self.chr.len() > 0 {
            let index = self.chr_addr(addr);
            self.chr.set(index, data);
        }
    }

    fn mirroring(&self) -> (r: Mirroring) {
        self.mirroring
    }

    fn handle_scanline(&mut self, rendering_enabled: bool) {
        if rendering_enabled {
            self.clock_irq_counter();
        }
    }

    fn poll_irq(&self) -> (r: Option<u8>) {
        if self.irq_pending {
            Option::Some(0)
        } else {
            Option::None
        }
    }
}

/// With the reload flag raised and the latch holding 1, the IRQ fires on
/// the second scanline clock: the first clock only loads the latch, the
/// second counts down to zero and asserts the line.
pub proof fn lemma_mmc3_irq_second_clock(v: Mmc3View)
    requires
        v.irq_latch == 1,
        v.irq_reload,
        v.irq_enabled,
        !v.irq_pending,
    ensures
        !mmc3_clock_irq_spec(v).irq_pending,
        mmc3_clock_irq_spec(mmc3_clock_irq_spec(v)).irq_pending,
{
}

} // verus!
