//! The delta modulation channel: plays 1-bit delta-encoded samples
//! fetched over the CPU bus.

use vstd::prelude::*;

use crate::apu::tables::dmc_rate_value;
use crate::apu::tables::spec_dmc_rate_table;

verus! {

#[derive(Clone, Copy, Debug, PartialEq, Eq, Structural)]
pub struct DmcChannel {
    pub enabled: bool,
    pub irq_enabled: bool,
    pub irq_pending: bool,
    pub loop_flag: bool,
    pub timer_period: u16,
    pub timer_value: u16,
    pub sample_address: u16,
    pub sample_length: u16,
    pub current_address: u16,
    pub bytes_remaining: u16,
    pub sample_buffer: Option<u8>,
    pub pending_fetch: bool,
    pub shift_register: u8,
    pub bits_remaining: u8,
    pub silence: bool,
    pub output_level: u8,
}

impl DmcChannel {
    /// The shifter always holds between one and eight pending bits, and
    /// the 7-bit output level stays in range.
    pub open spec fn wf(&self) -> bool {
        &&& 1 <= self.bits_remaining <= 8
        &&& self.output_level <= 127
    }
}

/// One timer tick: on expiry the output level moves up or down by two
/// according to the next delta bit (unless silenced), the shifter
/// advances, and an exhausted shifter reloads from the sample buffer.
/// Afterwards, an empty buffer with bytes left to play requests a DMA
/// read; the returned address is where the CPU must fetch.
pub open spec fn dmc_clock_spec(c: DmcChannel) -> (DmcChannel, Option<u16>) {
    let c1 = if c.timer_value == 0 {
        let lvl = if !c.silence {
            if c.shift_register & 1 == 1 {
                if c.output_level <= 125 {
                    (c.output_level + 2) as u8
                } else {
                    c.output_level
                }
            } else {
                if c.output_level >= 2 {
                    (c.output_level - 2) as u8
                } else {
                    c.output_level
                }
            }
        } else {
            c.output_level
        };
        let sr = c.shift_register >> 1;
        let bits = (c.bits_remaining - 1) as u8;
        if bits == 0 {
            match c.sample_buffer {
                Option::Some(sample) => DmcChannel {
                    timer_value: c.timer_period,
                    output_level: lvl,
                    shift_register: sample,
                    bits_remaining: 8,
                    silence: false,
                    sample_buffer: Option::None,
                    ..c
                },
                Option::None => DmcChannel {
                    timer_value: c.timer_period,
                    output_level: lvl,
                    shift_register: sr,
                    bits_remaining: 8,
                    silence: true,
                    ..c
                },
            }
        } else {
            DmcChannel {
                timer_value: c.timer_period,
                output_level: lvl,
                shift_register: sr,
                bits_remaining: bits,
                ..c
            }
        }
    } else {
        DmcChannel { timer_value: (c.timer_value - 1) as u16, ..c }
    };
    if !c1.pending_fetch && c1.sample_buffer is None && c1.bytes_remaining > 0 && c1.enabled {
        let next = c1.current_address.wrapping_add(1);
        (
            DmcChannel {
                pending_fetch: true,
                current_address: if next == 0 {
                    0x8000u16
                } else {
                    next
                },
                ..c1
            },
            Option::Some(c1.current_address),
        )
    } else {
        (c1, Option::None)
    }
}

/// The bus's answer to a DMA request: fill the buffer, count the byte
/// down, and on exhaustion either loop the sample or raise the IRQ.
pub open spec fn dmc_provide_sample_spec(c: DmcChannel, value: u8) -> DmcChannel {
    if !c.pending_fetch {
        c
    } else {
        let c1 = DmcChannel { sample_buffer: Option::Some(value), pending_fetch: false, ..c };
        let c2 = if c1.bytes_remaining > 0 {
            DmcChannel { bytes_remaining: (c1.bytes_remaining - 1) as u16, ..c1 }
        } else {
            c1
        };
        if c2.bytes_remaining == 0 {
            if c2.loop_flag {
                DmcChannel {
                    current_address: c2.sample_address,
                    bytes_remaining: c2.sample_length,
                    ..c2
                }
            } else if c2.irq_enabled {
                DmcChannel { irq_pending: true, ..c2 }
            } else {
                c2
            }
        } else {
            c2
        }
    }
}

/// The output level only ever moves by the documented deltas: a timer
/// expiry with a set delta bit raises it by exactly two (unless it is
/// already above 125), one with a clear bit lowers it by exactly two
/// (unless it is already below 2), and in every other case — silence or
/// no expiry — it stays put.
pub proof fn lemma_dmc_output_delta(c: DmcChannel, value: u8)
    ensures
        ({
            let lvl = dmc_clock_spec(c).0.output_level;
            if c.timer_value != 0 || c.silence {
                lvl == c.output_level
            } else if c.shift_register & 1 == 1 {
                lvl == if c.output_level <= 125 {
                    c.output_level + 2
                } else {
                    c.output_level as int
                }
            } else {
                lvl == if c.output_level >= 2 {
                    c.output_level - 2
                } else {
                    c.output_level as int
                }
            }
        }),
        dmc_provide_sample_spec(c, value).output_level == c.output_level,
{
}

impl DmcChannel {
    pub fn new() -> (r: DmcChannel)
        ensures
            r.wf(),
            r == (DmcChannel {
                enabled: false,
                irq_enabled: false,
                irq_pending: false,
                loop_flag: false,
                timer_period: spec_dmc_rate_table(0),
                timer_value: spec_dmc_rate_table(0),
                sample_address: 0xC000,
                sample_length: 1,
                current_address: 0xC000,
                bytes_remaining: 0,
                sample_buffer: Option::None::<u8>,
                pending_fetch: false,
                shift_register: 0,
                bits_remaining: 8,
                silence: true,
                output_level: 0,
            }),
    {
        let rate = dmc_rate_value(0);
        DmcChannel {
            enabled: false,
            irq_enabled: false,
            irq_pending: false,
            loop_flag: false,
            timer_period: rate,
            timer_value: rate,
            sample_address: 0xC000,
            sample_length: 1,
            current_address: 0xC000,
            bytes_remaining: 0,
            sample_buffer: Option::None,
            pending_fetch: false,
            shift_register: 0,
            bits_remaining: 8,
            silence: true,
            output_level: 0,
        }
    }

    pub fn write_control(&mut self, data: u8)
        requires
            old(self).wf(),
        ensures
            final(self).wf(),
            *final(self) == (DmcChannel {
                timer_period: spec_dmc_rate_table((data % 16) as int),
                timer_value: spec_dmc_rate_table((data % 16) as int),
                loop_flag: data & 0x40 != 0,
                irq_enabled: data & 0x80 != 0,
                irq_pending: if data & 0x80 != 0 {
                    old(self).irq_pending
                } else {
                    false
                },
                ..*old(self)
            }),
    {
        self.timer_period = dmc_rate_value(data % 16);
        self.timer_value = self.timer_period;
        self.loop_flag = data & 0x40 != 0;
        self.irq_enabled = data & 0x80 != 0;
        if !self.irq_enabled {
            self.irq_pending = false;
        }
    }

    /// $4011: loads the 7-bit output level directly.
    pub fn write_direct_load(&mut self, data: u8)
        requires
            old(self).wf(),
        ensures
            final(self).wf(),
            *final(self) == (DmcChannel { output_level: data % 128, ..*old(self) }),
    {
        self.output_level = data % 128;
    }

    pub fn write_sample_address(&mut self, data: u8)
        requires
            old(self).wf(),
        ensures
            final(self).wf(),
            *final(self) == (DmcChannel {
                sample_address: (0xC000 + (data as u16) * 64) as u16,
                ..*old(self)
            }),
    {
        self.sample_address = 0xC000 + (data as u16) * 64;
    }

    pub fn write_sample_length(&mut self, data: u8)
        requires
            old(self).wf(),
        ensures
            final(self).wf(),
            *final(self) == (DmcChannel {
                sample_length: (data as u16 * 16 + 1) as u16,
                ..*old(self)
            }),
    {
        self.sample_length = data as u16 * 16 + 1;
    }

    pub fn clock(&mut self) -> (r: Option<u16>)
        requires
            old(self).wf(),
        ensures
            final(self).wf(),
            (*final(self), r) == dmc_clock_spec(*old(self)),
    {
        if self.timer_value == 0 {
            self.timer_value = self.timer_period;
            if !self.silence {
                if self.shift_register & 1 == 1 {
                    if self.output_level <= 125 {
                        self.output_level = self.output_level + 2;
                    }
                } else if self.output_level >= 2 {
                    self.output_level = self.output_level - 2;
                }
            }
            self.shift_register = self.shift_register >> 1;
            self.bits_remaining = self.bits_remaining - 1;
            if self.bits_remaining == 0 {
                self.bits_remaining = 8;
                match self.sample_buffer {
                    Option::Some(sample) => {
                        self.shift_register = sample;
                        self.silence = false;
                        self.sample_buffer = Option::None;
                    },
                    Option::None => {
                        self.silence = true;
                    },
                }
            }
        } else {
            self.timer_value = self.timer_value - 1;
        }
        if !self.pending_fetch && self.sample_buffer.is_none() && self.bytes_remaining > 0
            && self.enabled {
            self.pending_fetch = true;
            let addr = self.current_address;
            self.current_address = self.current_address.wrapping_add(1);
            if self.current_address == 0 {
                self.current_address = 0x8000;
            }
            return Option::Some(addr);
        }
        Option::None
    }

    pub fn provide_sample(&mut self, value: u8)
        requires
            old(self).wf(),
        ensures
            final(self).wf(),
            *final(self) == dmc_provide_sample_spec(*old(self), value),
    {
        if !self.pending_fetch {
            return ;
        }
        self.sample_buffer = Option::Some(value);
        self.pending_fetch = false;
        if self.bytes_remaining > 0 {
            self.bytes_remaining = self.bytes_remaining - 1;
        }
        if self.bytes_remaining == 0 {
            if self.loop_flag {
                self.reload_sample();
            } else if self.irq_enabled {
                self.irq_pending = true;
            }
        }
    }

    /// Rewinds the reader to the programmed sample start.
    pub fn reload_sample(&mut self)
        requires
            old(self).wf(),
        ensures
            final(self).wf(),
            *final(self) == (DmcChannel {
                current_address: old(self).sample_address,
                bytes_remaining: old(self).sample_length,
                ..*old(self)
            }),
    {
        self.current_address = self.sample_address;
        self.bytes_remaining = self.sample_length;
    }

    pub fn set_enabled(&mut self, enabled: bool)
        requires
            old(self).wf(),
        ensures
            final(self).wf(),
            *final(self) == (DmcChannel { enabled, ..*old(self) }),
    {
        self.enabled = enabled;
    }

    /// On a status write that enables the channel: restart the sample
    /// if none is in flight.
    pub fn restart_if_needed(&mut self)
        requires
            old(self).wf(),
        ensures
            final(self).wf(),
            *final(self) == if old(self).enabled && old(self).bytes_remaining == 0 {
                DmcChannel {
                    current_address: old(self).sample_address,
                    bytes_remaining: old(self).sample_length,
                    ..*old(self)
                }
            } else {
                *old(self)
            },
    {
        if self.enabled && self.bytes_remaining == 0 {
            self.reload_sample();
        }
    }

    /// On a status write that disables the channel: stop playback.
    pub fn clear_bytes(&mut self)
        requires
            old(self).wf(),
        ensures
            final(self).wf(),
            *final(self) == (DmcChannel {
                bytes_remaining: 0,
                pending_fetch: false,
                sample_buffer: Option::None::<u8>,
                ..*old(self)
            }),
    {
        self.bytes_remaining = 0;
        self.pending_fetch = false;
        self.sample_buffer = Option::None;
    }

    pub fn output(&self) -> (r: u8)
        ensures
            r == self.output_level,
    {
        self.output_level
    }

    pub fn clear_irq(&mut self)
        requires
            old(self).wf(),
        ensures
            final(self).wf(),
            *final(self) == (DmcChannel { irq_pending: false, ..*old(self) }),
    {
        self.irq_pending = false;
    }
}

} // verus!
