//! The noise channel: a 15-bit linear-feedback shift register gated by
//! length counter and envelope.

use vstd::prelude::*;

use crate::apu::envelope::envelope_clock_spec;
use crate::apu::envelope::envelope_output_spec;
use crate::apu::envelope::envelope_set_control_spec;
use crate::apu::envelope::Envelope;
use crate::apu::tables::length_value;
use crate::apu::tables::noise_period_value;
use crate::apu::tables::spec_length_table;
use crate::apu::tables::spec_noise_period_table;

verus! {

#[derive(Clone, Copy, Debug, PartialEq, Eq, Structural)]
pub struct NoiseChannel {
    pub enabled: bool,
    pub envelope: Envelope,
    pub length_counter: u8,
    pub timer_period: u16,
    pub timer_value: u16,
    pub mode: bool,
    pub shift_register: u16,
}

/// One timer tick: on expiry the register shifts right, feeding back
/// bit 0 XOR bit 1 (or bit 6 in the alternate mode) into bit 14.
pub open spec fn noise_clock_timer_spec(c: NoiseChannel) -> NoiseChannel {
    if c.timer_value == 0 {
        let feedback = if c.mode {
            (c.shift_register & 1) ^ ((c.shift_register >> 6) & 1)
        } else {
            (c.shift_register & 1) ^ ((c.shift_register >> 1) & 1)
        };
        NoiseChannel {
            timer_value: c.timer_period,
            shift_register: (c.shift_register >> 1) | (feedback << 14),
            ..c
        }
    } else {
        NoiseChannel { timer_value: (c.timer_value - 1) as u16, ..c }
    }
}

/// One half-frame length clock: count down unless halted.
pub open spec fn noise_clock_length_spec(c: NoiseChannel) -> NoiseChannel {
    if c.length_counter > 0 && !c.envelope.loop_flag {
        NoiseChannel { length_counter: (c.length_counter - 1) as u8, ..c }
    } else {
        c
    }
}

/// The current mixer input: the envelope volume while the channel is
/// enabled, its length runs and the register's low bit is clear.
pub open spec fn noise_output_spec(c: NoiseChannel) -> u8 {
    if !c.enabled || c.length_counter == 0 || c.shift_register & 1 == 1 {
        0
    } else {
        envelope_output_spec(c.envelope)
    }
}

impl NoiseChannel {
    pub fn new() -> (r: NoiseChannel)
        ensures
            r == (NoiseChannel {
                enabled: false,
                envelope: Envelope {
                    constant_volume: false,
                    loop_flag: false,
                    volume: 0,
                    start_flag: false,
                    divider: 0,
                    decay_level: 0,
                },
                length_counter: 0,
                timer_period: 0,
                timer_value: 0,
                mode: false,
                shift_register: 1,
            }),
    {
        NoiseChannel {
            enabled: false,
            envelope: Envelope::new(),
            length_counter: 0,
            timer_period: 0,
            timer_value: 0,
            mode: false,
            shift_register: 1,
        }
    }

    pub fn write_control(&mut self, data: u8)
        ensures
            *final(self) == (NoiseChannel {
                envelope: envelope_set_control_spec(old(self).envelope, data),
                ..*old(self)
            }),
    {
        self.envelope.set_control(data);
    }

    pub fn write_period(&mut self, data: u8)
        ensures
            *final(self) == (NoiseChannel {
                mode: data & 0x80 != 0,
                timer_period: spec_noise_period_table((data % 16) as int),
                timer_value: spec_noise_period_table((data % 16) as int),
                ..*old(self)
            }),
    {
        self.mode = data & 0x80 != 0;
        self.timer_period = noise_period_value(data % 16);
        self.timer_value = self.timer_period;
    }

    pub fn write_length(&mut self, data: u8)
        ensures
            *final(self) == (NoiseChannel {
                length_counter: spec_length_table(((data / 8) % 32) as int),
                envelope: Envelope { start_flag: true, ..old(self).envelope },
                ..*old(self)
            }),
    {
        self.length_counter = length_value((data / 8) % 32);
        self.envelope.restart();
    }

    pub fn clock_timer(&mut self)
        ensures
            *final(self) == noise_clock_timer_spec(*old(self)),
    {
        if self.timer_value == 0 {
            self.timer_value = self.timer_period;
            let feedback = if self.mode {
                (self.shift_register & 1) ^ ((self.shift_register >> 6) & 1)
            } else {
                (self.shift_register & 1) ^ ((self.shift_register >> 1) & 1)
            };
            self.shift_register = (self.shift_register >> 1) | (feedback << 14);
        } else {
            self.timer_value = self.timer_value - 1;
        }
    }

    pub fn clock_envelope(&mut self)
        ensures
            *final(self) == (NoiseChannel {
                envelope: envelope_clock_spec(old(self).envelope),
                ..*old(self)
            }),
    {
        self.envelope.clock();
    }

    pub fn clock_length_counter(&mut self)
        ensures
            *final(self) == noise_clock_length_spec(*old(self)),
    {
        if self.length_counter > 0 && !self.envelope.halt() {
            self.length_counter = self.length_counter - 1;
        }
    }

    pub fn output(&self) -> (r: u8)
        ensures
            r == noise_output_spec(*self),
    {
        if !self.enabled || self.length_counter == 0 || self.shift_register & 1 == 1 {
            0
        } else {
            self.envelope.output()
        }
    }

    pub fn set_enabled(&mut self, enabled: bool)
        ensures
            *final(self) == (NoiseChannel { enabled, ..*old(self) }),
    {
        self.enabled = enabled;
    }

    pub fn clear_length(&mut self)
        ensures
            *final(self) == (NoiseChannel { length_counter: 0, ..*old(self) }),
    {
        self.length_counter = 0;
    }
}

} // verus!
