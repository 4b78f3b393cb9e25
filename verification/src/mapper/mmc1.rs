//! MMC1 (mapper 1): a serial five-bit shift register feeding four
//! internal registers that select mirroring, PRG banking and CHR banking.

use vstd::prelude::*;

use crate::mapper::Mapper;
use crate::mapper::Mirroring;

verus! {

pub struct Mmc1Mapper {
    prg_rom: Vec<u8>,
    chr_rom: Vec<u8>,
    prg_ram: Vec<u8>,
    shift_register: u8,
    shift_count: u8,
    control: u8,
    chr_bank_0: u8,
    chr_bank_1: u8,
    prg_bank: u8,
}

/// MMC1 state: the images, the 8 KiB PRG RAM, the serial shift register
/// and the four internal registers (control, two CHR banks, one PRG bank).
pub struct Mmc1View {
    pub prg_rom: Seq<u8>,
    pub chr_rom: Seq<u8>,
    pub prg_ram: Seq<u8>,
    pub shift_register: u8,
    pub shift_count: u8,
    pub control: u8,
    pub chr_bank_0: u8,
    pub chr_bank_1: u8,
    pub prg_bank: u8,
}

impl View for Mmc1Mapper {
    type V = Mmc1View;

    closed spec fn view(&self) -> Mmc1View {
        Mmc1View {
            prg_rom: self.prg_rom@,
            chr_rom: self.chr_rom@,
            prg_ram: self.prg_ram@,
            shift_register: self.shift_register,
            shift_count: self.shift_count,
            control: self.control,
            chr_bank_0: self.chr_bank_0,
            chr_bank_1: self.chr_bank_1,
            prg_bank: self.prg_bank,
        }
    }
}

/// Writing a completed five-bit value into the register selected by
/// address bits 13-14: control, CHR bank 0, CHR bank 1 or PRG bank.
pub open spec fn mmc1_commit(v: Mmc1View, target: int, value: u8) -> Mmc1View {
    if target == 0 {
        Mmc1View { control: value, ..v }
    } else if target == 1 {
        Mmc1View { chr_bank_0: value, ..v }
    } else if target == 2 {
        Mmc1View { chr_bank_1: value, ..v }
    } else {
        Mmc1View { prg_bank: value % 16, ..v }
    }
}

/// What a CPU write does to the MMC1: PRG-RAM writes go to RAM; a
/// register-range write with bit 7 set resets the shift register and
/// forces the fix-last PRG mode; otherwise bit 0 is shifted in, and the
/// fifth bit completes a register write.
pub open spec fn mmc1_write_prg_spec(v: Mmc1View, addr: u16, data: u8) -> Mmc1View {
    if 0x6000 <= addr < 0x8000 {
        Mmc1View { prg_ram: v.prg_ram.update(addr - 0x6000, data), ..v }
    } else if addr >= 0x8000 {
        if data >= 128 {
            Mmc1View { shift_register: 0, shift_count: 0, control: v.control | 0x0C, ..v }
        } else {
            let new_shift = (v.shift_register / 2 + (data % 2) * 16) as u8;
            if v.shift_count == 4 {
                let committed = mmc1_commit(v, ((addr / 0x2000) % 4) as int, new_shift);
                Mmc1View { shift_register: 0, shift_count: 0, ..committed }
            } else {
                Mmc1View {
                    shift_register: new_shift,
                    shift_count: (v.shift_count + 1) as u8,
                    ..v
                }
            }
        }
    } else {
        v
    }
}

/// What a CPU read returns: PRG RAM at $6000-$7FFF; above $8000 the PRG
/// window selected by the control register's PRG mode (32 KiB, fix-first
/// or fix-last), wrapped modulo the image size.
pub open spec fn mmc1_prg_value(v: Mmc1View, addr: u16) -> u8 {
    if 0x6000 <= addr < 0x8000 {
        v.prg_ram[addr - 0x6000]
    } else if addr >= 0x8000 && v.prg_rom.len() > 0 {
        let mode = (v.control / 4) % 4;
        let banks = v.prg_rom.len() as int / 0x4000;
        if addr < 0xC000 {
            let off = if mode == 0 || mode == 1 {
                (v.prg_bank - v.prg_bank % 2) * 0x4000 + (addr - 0x8000)
            } else if mode == 2 {
                addr - 0x8000
            } else {
                v.prg_bank * 0x4000 + (addr - 0x8000)
            };
            v.prg_rom[off % v.prg_rom.len() as int]
        } else {
            let off = if mode == 0 || mode == 1 {
                (v.prg_bank - v.prg_bank % 2 + 1) * 0x4000 + (addr - 0xC000)
            } else if mode == 2 {
                v.prg_bank * 0x4000 + (addr - 0xC000)
            } else {
                if banks == 0 {
                    addr - 0xC000
                } else {
                    (banks - 1) * 0x4000 + (addr - 0xC000)
                }
            };
            v.prg_rom[off % v.prg_rom.len() as int]
        }
    } else {
        0
    }
}

/// What a pattern-table read returns: one 8 KiB bank or two 4 KiB banks
/// depending on the control register's CHR mode, wrapped modulo the
/// image size.
pub open spec fn mmc1_chr_value(v: Mmc1View, addr: u16) -> u8 {
    if addr >= 0x2000 || v.chr_rom.len() == 0 {
        0
    } else {
        let mode = (v.control / 16) % 2;
        let off = if mode == 0 {
            (v.chr_bank_0 - v.chr_bank_0 % 2) * 0x1000 + addr
        } else if addr < 0x1000 {
            v.chr_bank_0 * 0x1000 + addr
        } else {
            v.chr_bank_1 * 0x1000 + (addr - 0x1000)
        };
        v.chr_rom[off % v.chr_rom.len() as int]
    }
}

impl Mmc1Mapper {
    pub fn new(prg_rom: Vec<u8>, chr_rom: Vec<u8>, mirroring: Mirroring) -> (r: Mmc1Mapper)
        ensures
            r.inv(),
            r@.prg_rom == prg_rom@,
            r@.chr_rom == chr_rom@,
            r@.prg_ram.len() == 0x2000,
            r@.shift_register == 0,
            r@.shift_count == 0,
            r@.control == 0x0C | (match mirroring {
                Mirroring::SingleScreenLo => 0u8,
                Mirroring::SingleScreenHi => 1u8,
                Mirroring::Vertical => 2u8,
                Mirroring::Horizontal => 3u8,
                Mirroring::FourScreen => 2u8,
            }),
            r@.chr_bank_0 == 0 && r@.chr_bank_1 == 0 && r@.prg_bank == 0,
    {
        let mirror_bits: u8 = match mirroring {
            Mirroring::SingleScreenLo => 0,
            Mirroring::SingleScreenHi => 1,
            Mirroring::Vertical => 2,
            Mirroring::Horizontal => 3,
            Mirroring::FourScreen => 2,
        };
        let mut prg_ram: Vec<u8> = Vec::new();
        let mut i: usize = 0;
        while i < 0x2000
            invariant
                prg_ram@.len() == i,
                i <= 0x2000,
            decreases 0x2000 - i,
        {
            prg_ram.push(0);
            i = i + 1;
        }
        Mmc1Mapper {
            prg_rom,
            chr_rom,
            prg_ram,
            shift_register: 0,
            shift_count: 0,
            control: 0x0C | mirror_bits,
            chr_bank_0: 0,
            chr_bank_1: 0,
            prg_bank: 0,
        }
    }

    /// The control register's current value.
    pub fn control_value(&self) -> (r: u8)
        ensures
            r == self@.control,
    {
        self.control
    }

    /// The serial shift register and how many bits it holds.
    pub fn shift_state(&self) -> (r: (u8, u8))
        ensures
            r.0 == self@.shift_register,
            r.1 == self@.shift_count,
    {
        (self.shift_register, self.shift_count)
    }
}

impl Mapper for Mmc1Mapper {
    open spec fn inv(&self) -> bool {
        &&& self@.prg_ram.len() == 0x2000
        &&& self@.shift_register < 32
        &&& self@.shift_count < 5
        &&& self@.prg_bank < 16
    }

    open spec fn prg_value(&self, addr: u16) -> u8 {
        mmc1_prg_value(self@, addr)
    }

    open spec fn chr_value(&self, addr: u16) -> u8 {
        mmc1_chr_value(self@, addr)
    }

    /// Mirroring from the control register's low two bits.
    open spec fn mirroring_spec(&self) -> Mirroring {
        match self@.control % 4 {
            0u8 => Mirroring::SingleScreenLo,
            1u8 => Mirroring::SingleScreenHi,
            2u8 => Mirroring::Vertical,
            _ => Mirroring::Horizontal,
        }
    }

    open spec fn irq_spec(&self) -> bool {
        false
    }

    open spec fn write_prg_spec(&self, addr: u16, data: u8) -> Mmc1View {
        mmc1_write_prg_spec(self@, addr, data)
    }

    /// MMC1 CHR is ROM here: pattern writes change nothing.
    open spec fn write_chr_spec(&self, addr: u16, data: u8) -> Mmc1View {
        self@
    }

    open spec fn scanline_spec(&self, rendering_enabled: bool) -> Mmc1View {
        self@
    }

    fn read_prg(&self, addr: u16) -> (r: u8) {
        if 0x6000 <= addr && addr < 0x8000 {
            self.prg_ram[(addr - 0x6000) as usize]
        } else if addr >= 0x8000 && self.prg_rom.len() > 0 {
            let mode = (self.control / 4) % 4;
            let len = self.prg_rom.len();
            if addr < 0xC000 {
                let off: usize = if mode == 0 || mode == 1 {
                    (self.prg_bank - self.prg_bank % 2) as usize * 0x4000 + (addr - 0x8000) as usize
                } else if mode == 2 {
                    (addr - 0x8000) as usize
                } else {
                    self.prg_bank as usize * 0x4000 + (addr - 0x8000) as usize
                };
                self.prg_rom[off % len]
            } else {
                let banks = len / 0x4000;
                let off: usize = if mode == 0 || mode == 1 {
                    (self.prg_bank - self.prg_bank % 2 + 1) as usize * 0x4000 + (addr
                        - 0xC000) as usize
                } else if mode == 2 {
                    self.prg_bank as usize * 0x4000 + (addr - 0xC000) as usize
                } else {
                    if banks == 0 {
                        (addr - 0xC000) as usize
                    } else {
                        (banks - 1) * 0x4000 + (addr - 0xC000) as usize
                    }
                };
                self.prg_rom[off % len]
            }
        } else {
            0
        }
    }

    fn write_prg(&mut self, addr: u16, data: u8) {
        if 0x6000 <= addr && addr < 0x8000 {
            let idx = (addr - 0x6000) as usize;
            self.prg_ram.set(idx, data);
        } else if addr >= 0x8000 {
            if data >= 128 {
                self.shift_register = 0;
                self.shift_count = 0;
                self.control = self.control | 0x0C;
            } else {
                let new_shift = self.shift_register / 2 + (data % 2) * 16;
                if self.shift_count == 4 {
                    let target = (addr / 0x2000) % 4;
                    if target == 0 {
                        self.control = new_shift;
                    } else if target == 1 {
                        self.chr_bank_0 = new_shift;
                    } else if target == 2 {
                        self.chr_bank_1 = new_shift;
                    } else {
                        self.prg_bank = new_shift % 16;
                    }
                    self.shift_register = 0;
                    self.shift_count = 0;
                } else {
                    self.shift_register = new_shift;
                    self.shift_count = self.shift_count + 1;
                }
            }
        }
    }

    fn read_chr(&self, addr: u16) -> (r: u8) {
        if addr >= 0x2000 || self.chr_rom.len() == 0 {
            0
        } else {
            let mode = (self.control / 16) % 2;
            let off: usize = if mode == 0 {
                (self.chr_bank_0 - self.chr_bank_0 % 2) as usize * 0x1000 + addr as usize
            } else if addr < 0x1000 {
                self.chr_bank_0 as usize * 0x1000 + addr as usize
            } else {
                self.chr_bank_1 as usize * 0x1000 + (addr - 0x1000) as usize
            };
            self.chr_rom[off % self.chr_rom.len()]
        }
    }

    fn write_chr(&mut self, _addr: u16, _data: u8) {
    }

    fn mirroring(&self) -> (r: Mirroring) {
        match self.control % 4 {
            0 => Mirroring::SingleScreenLo,
            1 => Mirroring::SingleScreenHi,
            2 => Mirroring::Vertical,
            _ => Mirroring::Horizontal,
        }
    }

    fn handle_scanline(&mut self, _rendering_enabled: bool) {
    }

    fn poll_irq(&self) -> (r: Option<u8>) {
        Option::None
    }
}

/// Any register-range write with bit 7 set clears the serial shift state
/// and forces the fix-last PRG mode by setting both PRG-mode bits of the
/// control register; the bank registers are untouched.
pub proof fn lemma_mmc1_reset_write(v: Mmc1View, addr: u16, data: u8)
    requires
        addr >= 0x8000,
        data >= 128,
    ensures
        mmc1_write_prg_spec(v, addr, data).shift_register == 0,
        mmc1_write_prg_spec(v, addr, data).shift_count == 0,
        mmc1_write_prg_spec(v, addr, data).control == v.control | 0x0C,
        mmc1_write_prg_spec(v, addr, data).chr_bank_0 == v.chr_bank_0,
        mmc1_write_prg_spec(v, addr, data).chr_bank_1 == v.chr_bank_1,
        mmc1_write_prg_spec(v, addr, data).prg_bank == v.prg_bank,
        (mmc1_write_prg_spec(v, addr, data).control / 4) % 4 == 3,
{
    let c = v.control;
    assert(((c | 0x0C) / 4) % 4 == 3) by (bit_vector);
}

} // verus!
