//! A self-contained pulse channel with inline envelope and sweep state,
//! driven through an indexed register interface.

use vstd::prelude::*;

use crate::apu::square::shift_divisor;
use crate::apu::square::spec_shift_divisor;
use crate::apu::tables::length_value;
use crate::apu::tables::spec_duty_table;
use crate::apu::tables::spec_length_table;
use crate::apu::tables::duty_value;

verus! {

#[derive(Clone, Copy, Debug, PartialEq, Eq, Structural)]
pub struct PulseChannel {
    pub enabled: bool,
    pub duty: u8,
    pub duty_position: u8,
    pub timer_period: u16,
    pub timer_value: u16,
    pub length_counter: u8,
    pub length_halt: bool,
    pub constant_volume: bool,
    pub envelope_period: u8,
    pub envelope_divider: u8,
    pub envelope_decay_level: u8,
    pub envelope_start: bool,
    pub sweep_enabled: bool,
    pub sweep_period: u8,
    pub sweep_counter: u8,
    pub sweep_shift: u8,
    pub sweep_negate: bool,
    pub sweep_reload: bool,
    pub negate_correction: u16,
}

impl PulseChannel {
    /// Ranges the register writes keep: an 11-bit timer period, two duty
    /// bits, a three-bit duty position and sweep shift, a four-bit
    /// envelope period, and a negate correction of at most one.
    pub open spec fn wf(&self) -> bool {
        &&& self.timer_period <= 0x7FF
        &&& self.duty < 4
        &&& self.duty_position < 8
        &&& self.sweep_shift < 8
        &&& self.envelope_period < 16
        &&& self.negate_correction <= 1
    }
}

/// The sweep's target period: the current period plus or minus the
/// shifted change (minus the extra one's-complement correction when
/// negating), clamped at zero.
pub open spec fn pulse_sweep_target_spec(c: PulseChannel) -> u16 {
    let change = c.timer_period as int / spec_shift_divisor(c.sweep_shift as int);
    if c.sweep_negate {
        if c.timer_period >= change + c.negate_correction {
            (c.timer_period - change - c.negate_correction) as u16
        } else {
            0
        }
    } else {
        (c.timer_period + change) as u16
    }
}

/// Whether the sweep unit gates the channel: an out-of-range period, or
/// an active sweep whose target would leave the 11-bit range.
pub open spec fn pulse_sweep_mute_spec(c: PulseChannel) -> bool {
    if c.timer_period < 8 || c.timer_period > 0x7FF {
        true
    } else if c.sweep_enabled && c.sweep_shift > 0 {
        let change = c.timer_period as int / spec_shift_divisor(c.sweep_shift as int);
        if c.sweep_negate && change + c.negate_correction > c.timer_period {
            true
        } else {
            pulse_sweep_target_spec(c) > 0x7FF
        }
    } else {
        false
    }
}

/// A write to one of the channel's four registers: control, sweep,
/// timer low, or timer high plus length load.
pub open spec fn pulse_write_register_spec(c: PulseChannel, register: int, value: u8) -> PulseChannel {
    if register == 0 {
        PulseChannel {
            duty: (value / 64) % 4,
            length_halt: value & 0x20 != 0,
            constant_volume: value & 0x10 != 0,
            envelope_period: value % 16,
            envelope_start: true,
            ..c
        }
    } else if register == 1 {
        PulseChannel {
            sweep_enabled: value & 0x80 != 0,
            sweep_period: ((value / 16) % 8 + 1) as u8,
            sweep_negate: value & 0x08 != 0,
            sweep_shift: value % 8,
            sweep_reload: true,
            ..c
        }
    } else if register == 2 {
        PulseChannel { timer_period: (c.timer_period / 256 * 256 + value) as u16, ..c }
    } else if register == 3 {
        let period = (c.timer_period % 256 + (value % 8) * 256) as u16;
        PulseChannel {
            timer_period: period,
            timer_value: (period + 1) as u16,
            length_counter: spec_length_table((value / 8) as int),
            envelope_start: true,
            duty_position: 0,
            ..c
        }
    } else {
        c
    }
}

/// One timer tick at the pulse rate: periods outside 8..=$7FF freeze the
/// sequencer; otherwise an expired divider reloads and advances the
/// duty position.
pub open spec fn pulse_clock_timer_spec(c: PulseChannel) -> PulseChannel {
    if c.timer_period < 8 || c.timer_period > 0x7FF {
        c
    } else if c.timer_value <= 1 {
        PulseChannel {
            timer_value: (c.timer_period + 1) as u16,
            duty_position: ((c.duty_position + 1) % 8) as u8,
            ..c
        }
    } else {
        PulseChannel { timer_value: (c.timer_value - 1) as u16, ..c }
    }
}

/// One quarter-frame envelope clock.
pub open spec fn pulse_clock_quarter_spec(c: PulseChannel) -> PulseChannel {
    if c.envelope_start {
        PulseChannel {
            envelope_start: false,
            envelope_decay_level: 15,
            envelope_divider: (c.envelope_period + 1) as u8,
            ..c
        }
    } else if c.envelope_divider == 0 {
        PulseChannel {
            envelope_divider: (c.envelope_period + 1) as u8,
            envelope_decay_level: if c.envelope_decay_level == 0 {
                if c.length_halt {
                    15u8
                } else {
                    0u8
                }
            } else {
                (c.envelope_decay_level - 1) as u8
            },
            ..c
        }
    } else {
        PulseChannel { envelope_divider: (c.envelope_divider - 1) as u8, ..c }
    }
}

/// One half-frame clock: the length counter counts down unless halted,
/// and the sweep divider retargets or reloads.
pub open spec fn pulse_clock_half_spec(c: PulseChannel) -> PulseChannel {
    let c1 = if c.length_counter > 0 && !c.length_halt {
        PulseChannel { length_counter: (c.length_counter - 1) as u8, ..c }
    } else {
        c
    };
    let retarget = c1.sweep_counter == 0 && c1.sweep_enabled && c1.sweep_shift > 0
        && !pulse_sweep_mute_spec(c1);
    let c2 = if retarget && pulse_sweep_target_spec(c1) <= 0x7FF {
        PulseChannel { timer_period: pulse_sweep_target_spec(c1), ..c1 }
    } else {
        c1
    };
    let reload_divider = c2.sweep_counter == 0 || c2.sweep_reload;
    if reload_divider {
        PulseChannel { sweep_reload: false, sweep_counter: c2.sweep_period, ..c2 }
    } else {
        PulseChannel { sweep_counter: (c2.sweep_counter - 1) as u8, ..c2 }
    }
}

/// The channel's current sample: silence when disabled, out of length,
/// sweep-muted or on a low duty step; the envelope volume otherwise.
pub open spec fn pulse_output_spec(c: PulseChannel) -> u8 {
    if !c.enabled || c.length_counter == 0 || pulse_sweep_mute_spec(c) {
        0
    } else if spec_duty_table(c.duty as int, c.duty_position as int) == 0 {
        0
    } else if c.constant_volume {
        c.envelope_period
    } else {
        c.envelope_decay_level
    }
}

impl PulseChannel {
    pub fn new(negate_correction: u16) -> (r: PulseChannel)
        requires
            negate_correction <= 1,
        ensures
            r.wf(),
            r == (PulseChannel {
                enabled: false,
                duty: 0,
                duty_position: 0,
                timer_period: 0,
                timer_value: 0,
                length_counter: 0,
                length_halt: false,
                constant_volume: false,
                envelope_period: 0,
                envelope_divider: 0,
                envelope_decay_level: 0,
                envelope_start: false,
                sweep_enabled: false,
                sweep_period: 1,
                sweep_counter: 0,
                sweep_shift: 0,
                sweep_negate: false,
                sweep_reload: false,
                negate_correction,
            }),
    {
        PulseChannel {
            enabled: false,
            duty: 0,
            duty_position: 0,
            timer_period: 0,
            timer_value: 0,
            length_counter: 0,
            length_halt: false,
            constant_volume: false,
            envelope_period: 0,
            envelope_divider: 0,
            envelope_decay_level: 0,
            envelope_start: false,
            sweep_enabled: false,
            sweep_period: 1,
            sweep_counter: 0,
            sweep_shift: 0,
            sweep_negate: false,
            sweep_reload: false,
            negate_correction,
        }
    }

    /// Enables or disables the channel; disabling zeroes the length
    /// counter at once.
    pub fn set_enabled(&mut self, enabled: bool)
        requires
            old(self).wf(),
        ensures
            final(self).wf(),
            *final(self) == (PulseChannel {
                enabled,
                length_counter: if enabled {
                    old(self).length_counter
                } else {
                    0u8
                },
                ..*old(self)
            }),
    {
        self.enabled = enabled;
        if !enabled {
            self.length_counter = 0;
        }
    }

    pub fn write_register(&mut self, register: usize, value: u8)
        requires
            old(self).wf(),
        ensures
            final(self).wf(),
            *final(self) == pulse_write_register_spec(*old(self), register as int, value),
    {
        match register {
            0 => {
                self.duty = (value / 64) % 4;
                self.length_halt = value & 0x20 != 0;
                self.constant_volume = value & 0x10 != 0;
                self.envelope_period = value % 16;
                self.envelope_start = true;
            },
            1 => {
                self.sweep_enabled = value & 0x80 != 0;
                self.sweep_period = (value / 16) % 8 + 1;
                self.sweep_negate = value & 0x08 != 0;
                self.sweep_shift = value % 8;
                self.sweep_reload = true;
            },
            2 => {
                self.timer_period = self.timer_period / 256 * 256 + value as u16;
            },
            3 => {
                self.timer_period = self.timer_period % 256 + (value % 8) as u16 * 256;
                self.reload_timer();
                self.length_counter = length_value(value / 8);
                self.envelope_start = true;
                self.duty_position = 0;
            },
            _ => {},
        }
    }

    pub fn clock_timer(&mut self)
        requires
            old(self).wf(),
        ensures
            final(self).wf(),
            *final(self) == pulse_clock_timer_spec(*old(self)),
    {
        if self.timer_period < 8 || self.timer_period > 0x7FF {
            return ;
        }
        if self.timer_value <= 1 {
            self.reload_timer();
            self.duty_position = (self.duty_position + 1) % 8;
        } else {
            self.timer_value = self.timer_value - 1;
        }
    }

    pub fn clock_quarter_frame(&mut self)
        requires
            old(self).wf(),
        ensures
            final(self).wf(),
            *final(self) == pulse_clock_quarter_spec(*old(self)),
    {
        if self.envelope_start {
            self.envelope_start = false;
            self.envelope_decay_level = 15;
            self.envelope_divider = self.envelope_reload_value();
        } else if self.envelope_divider == 0 {
            self.envelope_divider = self.envelope_reload_value();
            if self.envelope_decay_level == 0 {
                if self.length_halt {
                    self.envelope_decay_level = 15;
                }
            } else {
                self.envelope_decay_level = self.envelope_decay_level - 1;
            }
        } else {
            self.envelope_divider = self.envelope_divider - 1;
        }
    }

    pub fn clock_half_frame(&mut self)
        requires
            old(self).wf(),
        ensures
            final(self).wf(),
            *final(self) == pulse_clock_half_spec(*old(self)),
    {
        if self.length_counter > 0 && !self.length_halt {
            self.length_counter = self.length_counter - 1;
        }
        let mut reload_divider = false;
        if self.sweep_counter == 0 {
            reload_divider = true;
            if self.sweep_enabled && self.sweep_shift > 0 && !self.sweep_mute() {
                let target = self.sweep_target_period();
                if target <= 0x07FF {
                    self.timer_period = target;
                }
            }
        }
        if self.sweep_reload {
            reload_divider = true;
            self.sweep_reload = false;
        }
        if reload_divider {
            self.sweep_counter = self.sweep_period;
        } else {
            self.sweep_counter = self.sweep_counter - 1;
        }
    }

    /// The channel's current sample level.
    pub fn output(&self) -> (r: u8)
        requires
            self.wf(),
        ensures
            r == pulse_output_spec(*self),
    {
        if !self.enabled || self.length_counter == 0 || self.sweep_mute() {
            return 0;
        }
        if duty_value(self.duty, self.duty_position) == 0 {
            return 0;
        }
        if self.constant_volume {
            self.envelope_period
        } else {
            self.envelope_decay_level
        }
    }

    /// Whether the length counter still runs.
    pub fn is_active(&self) -> (r: bool)
        ensures
            r == (self.length_counter > 0),
    {
        self.length_counter > 0
    }

    fn sweep_target_period(&self) -> (r: u16)
        requires
            self.wf(),
        ensures
            r == pulse_sweep_target_spec(*self),
    {
        let change = self.timer_period / shift_divisor(self.sweep_shift);
        if self.sweep_negate {
            if self.timer_period >= change + self.negate_correction {
                self.timer_period - change - self.negate_correction
            } else {
                0
            }
        } else {
            self.timer_period + change
        }
    }

    fn sweep_mute(&self) -> (r: bool)
        requires
            self.wf(),
        ensures
            r == pulse_sweep_mute_spec(*self),
    {
        if self.timer_period < 8 || self.timer_period > 0x07FF {
            return true;
        }
        if self.sweep_enabled && self.sweep_shift > 0 {
            let change = self.timer_period / shift_divisor(self.sweep_shift);
            if self.sweep_negate && change + self.negate_correction > self.timer_period {
                return true;
            }
            return self.sweep_target_period() > 0x07FF;
        }
        false
    }

    fn reload_timer(&mut self)
        requires
            old(self).wf(),
        ensures
            final(self).wf(),
            *final(self) == (PulseChannel {
                timer_value: (old(self).timer_period + 1) as u16,
                ..*old(self)
            }),
    {
        self.timer_value = self.timer_period + 1;
    }

    fn envelope_reload_value(&self) -> (r: u8)
        requires
            self.wf(),
        ensures
            r == (self.envelope_period + 1) as u8,
    {
        self.envelope_period + 1
    }
}

} // verus!
