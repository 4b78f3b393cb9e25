//! The two pulse (square) channels of the APU proper, with their sweep
//! units.

use vstd::prelude::*;

use crate::apu::envelope::envelope_clock_spec;
use crate::apu::envelope::envelope_output_spec;
use crate::apu::envelope::envelope_set_control_spec;
use crate::apu::envelope::Envelope;
use crate::apu::tables::duty_value;
use crate::apu::tables::length_value;
use crate::apu::tables::spec_duty_table;
use crate::apu::tables::spec_length_table;

verus! {

#[derive(Clone, Copy, Debug, PartialEq, Eq, Structural)]
pub struct SweepUnit {
    pub enabled: bool,
    pub negate: bool,
    pub shift: u8,
    pub period: u8,
    pub divider: u8,
    pub reload: bool,
    pub ones_complement: bool,
    pub muted: bool,
}

/// 2 to the power of a three-bit shift count.
pub open spec fn spec_shift_divisor(n: int) -> int {
    if n == 0 {
        1
    } else if n == 1 {
        2
    } else if n == 2 {
        4
    } else if n == 3 {
        8
    } else if n == 4 {
        16
    } else if n == 5 {
        32
    } else if n == 6 {
        64
    } else {
        128
    }
}

pub fn shift_divisor(n: u8) -> (r: u16)
    requires
        n < 8,
    ensures
        r == spec_shift_divisor(n as int),
        r >= 1,
{
    match n {
        0 => 1,
        1 => 2,
        2 => 4,
        3 => 8,
        4 => 16,
        5 => 32,
        6 => 64,
        _ => 128,
    }
}

pub open spec fn sweep_write_spec(s: SweepUnit, data: u8) -> SweepUnit {
    SweepUnit {
        enabled: data & 0x80 != 0,
        period: ((data / 16) % 8 + 1) as u8,
        negate: data & 0x08 != 0,
        shift: data % 8,
        reload: true,
        divider: ((data / 16) % 8 + 1) as u8,
        muted: false,
        ..s
    }
}

/// Whether the sweep gates the channel for the given timer period.
pub open spec fn sweep_is_muted_spec(s: SweepUnit, timer_period: u16) -> bool {
    s.muted || timer_period < 8
}

/// One half-frame sweep clock over the unit and the channel's timer
/// period: an expired divider reloads and, when the sweep is active,
/// retargets the period (marking the unit muted when the target
/// overflows the 11-bit range); a pending reload refreshes the divider.
pub open spec fn sweep_step_spec(s: SweepUnit, timer_period: u16) -> (SweepUnit, u16) {
    let apply = s.divider == 0 && s.enabled && s.shift > 0 && !sweep_is_muted_spec(
        s,
        timer_period,
    );
    let s1 = if s.divider == 0 {
        SweepUnit { divider: s.period, ..s }
    } else {
        SweepUnit { divider: (s.divider - 1) as u8, ..s }
    };
    let (s2, tp2) = if apply {
        let change = timer_period as int / spec_shift_divisor(s.shift as int);
        let adjustment: int = if s.negate && s.ones_complement {
            1
        } else {
            0
        };
        let target = if s.negate {
            timer_period.wrapping_sub((change + adjustment) as u16)
        } else {
            timer_period.wrapping_add(change as u16)
        };
        if target <= 0x7FF {
            (SweepUnit { muted: false, ..s1 }, target)
        } else {
            (SweepUnit { muted: true, ..s1 }, timer_period)
        }
    } else {
        (s1, timer_period)
    };
    if s2.reload {
        (SweepUnit { reload: false, divider: s2.period, ..s2 }, tp2)
    } else {
        (s2, tp2)
    }
}

impl SweepUnit {
    pub fn new(ones_complement: bool) -> (r: SweepUnit)
        ensures
            r == (SweepUnit {
                enabled: false,
                negate: false,
                shift: 0,
                period: 0,
                divider: 0,
                reload: false,
                ones_complement,
                muted: false,
            }),
    {
        SweepUnit {
            enabled: false,
            negate: false,
            shift: 0,
            period: 0,
            divider: 0,
            reload: false,
            ones_complement,
            muted: false,
        }
    }

    pub fn write(&mut self, data: u8)
        ensures
            *final(self) == sweep_write_spec(*old(self), data),
    {
        self.enabled = data & 0x80 != 0;
        self.period = (data / 16) % 8 + 1;
        self.negate = data & 0x08 != 0;
        self.shift = data % 8;
        self.reload = true;
        self.divider = self.period;
        self.muted = false;
    }

    pub fn step(&mut self, timer_period: &mut u16)
        requires
            old(self).shift < 8,
        ensures
            (*final(self), *final(timer_period)) == sweep_step_spec(
                *old(self),
                *old(timer_period),
            ),
            *final(timer_period) <= 0x7FF || *final(timer_period) == *old(timer_period),
    {
        let mut apply_change = false;
        if self.divider == 0 {
            self.divider = self.period;
            if self.enabled && self.shift > 0 && !self.is_muted(*timer_period) {
                apply_change = true;
            }
        } else {
            self.divider = self.divider - 1;
        }
        if apply_change {
            let change = *timer_period / shift_divisor(self.shift);
            let adjustment: u16 = if self.negate && self.ones_complement {
                1
            } else {
                0
            };
            let target = if self.negate {
                timer_period.wrapping_sub(change + adjustment)
            } else {
                timer_period.wrapping_add(change)
            };
            if target <= 0x7FF {
                self.muted = false;
                *timer_period = target;
            } else {
                self.muted = true;
            }
        }
        if self.reload {
            self.reload = false;
            self.divider = self.period;
        }
    }

    pub fn is_muted(&self, timer_period: u16) -> (r: bool)
        ensures
            r == sweep_is_muted_spec(*self, timer_period),
    {
        self.muted || timer_period < 8
    }

    pub fn reset_mute(&mut self)
        ensures
            *final(self) == (SweepUnit { muted: false, ..*old(self) }),
    {
        self.muted = false;
    }
}

#[derive(Clone, Copy, Debug, PartialEq, Eq, Structural)]
pub struct SquareChannel {
    pub envelope: Envelope,
    pub sweep: SweepUnit,
    pub timer_period: u16,
    pub timer_value: u16,
    pub duty_mode: u8,
    pub duty_position: u8,
    pub length_counter: u8,
    pub enabled: bool,
}

impl SquareChannel {
    /// Ranges the register writes keep: an 11-bit timer period, a two-bit
    /// duty mode, a three-bit duty position and a three-bit sweep shift.
    pub open spec fn wf(&self) -> bool {
        &&& self.timer_period <= 0x7FF
        &&& self.duty_mode < 4
        &&& self.duty_position < 8
        &&& self.sweep.shift < 8
    }
}

/// What the channel currently feeds the mixer: silence when disabled,
/// out of length, below the minimum period, on a low duty step or muted
/// by the sweep; the envelope volume otherwise.
pub open spec fn square_output_spec(c: SquareChannel) -> u8 {
    if !c.enabled || c.length_counter == 0 || c.timer_period < 8 || spec_duty_table(
        c.duty_mode as int,
        c.duty_position as int,
    ) == 0 || sweep_is_muted_spec(c.sweep, c.timer_period) {
        0
    } else {
        envelope_output_spec(c.envelope)
    }
}

/// One timer tick: on expiry the divider reloads and the duty sequence
/// advances one step.
pub open spec fn square_clock_timer_spec(c: SquareChannel) -> SquareChannel {
    if c.timer_value == 0 {
        SquareChannel {
            timer_value: (c.timer_period + 1) as u16,
            duty_position: ((c.duty_position + 1) % 8) as u8,
            ..c
        }
    } else {
        SquareChannel { timer_value: (c.timer_value - 1) as u16, ..c }
    }
}

/// A length-register write ($4003/$4007): timer high bits, length load
/// from the table, envelope restart, duty phase reset.
pub open spec fn square_write_timer_high_spec(c: SquareChannel, data: u8) -> SquareChannel {
    let period = (c.timer_period % 256 + (data % 8) * 256) as u16;
    SquareChannel {
        sweep: SweepUnit { muted: false, ..c.sweep },
        timer_period: period,
        length_counter: spec_length_table(((data / 8) % 32) as int),
        envelope: Envelope { start_flag: true, ..c.envelope },
        duty_position: 0,
        timer_value: (period + 1) as u16,
        ..c
    }
}

/// One half-frame length clock: count down unless halted.
pub open spec fn square_clock_length_spec(c: SquareChannel) -> SquareChannel {
    if c.length_counter > 0 && !c.envelope.loop_flag {
        SquareChannel { length_counter: (c.length_counter - 1) as u8, ..c }
    } else {
        c
    }
}

/// One half-frame sweep clock applied to the channel.
pub open spec fn square_clock_sweep_spec(c: SquareChannel) -> SquareChannel {
    let (s, tp) = sweep_step_spec(c.sweep, c.timer_period);
    SquareChannel { sweep: s, timer_period: tp, ..c }
}

impl SquareChannel {
    pub fn new(ones_complement: bool) -> (r: SquareChannel)
        ensures
            r.wf(),
            r == (SquareChannel {
                envelope: Envelope {
                    constant_volume: false,
                    loop_flag: false,
                    volume: 0,
                    start_flag: false,
                    divider: 0,
                    decay_level: 0,
                },
                sweep: SweepUnit {
                    enabled: false,
                    negate: false,
                    shift: 0,
                    period: 0,
                    divider: 0,
                    reload: false,
                    ones_complement,
                    muted: false,
                },
                timer_period: 0,
                timer_value: 0,
                duty_mode: 0,
                duty_position: 0,
                length_counter: 0,
                enabled: false,
            }),
    {
        SquareChannel {
            envelope: Envelope::new(),
            sweep: SweepUnit::new(ones_complement),
            timer_period: 0,
            timer_value: 0,
            duty_mode: 0,
            duty_position: 0,
            length_counter: 0,
            enabled: false,
        }
    }

    pub fn write_control(&mut self, data: u8)
        requires
            old(self).wf(),
        ensures
            final(self).wf(),
            *final(self) == (SquareChannel {
                duty_mode: (data / 64) % 4,
                envelope: envelope_set_control_spec(old(self).envelope, data),
                ..*old(self)
            }),
    {
        self.duty_mode = (data / 64) % 4;
        self.envelope.set_control(data);
    }

    pub fn write_sweep(&mut self, data: u8)
        requires
            old(self).wf(),
        ensures
            final(self).wf(),
            *final(self) == (SquareChannel {
                sweep: sweep_write_spec(old(self).sweep, data),
                ..*old(self)
            }),
    {
        self.sweep.write(data);
    }

    pub fn write_timer_low(&mut self, data: u8)
        requires
            old(self).wf(),
        ensures
            final(self).wf(),
            *final(self) == (SquareChannel {
                sweep: SweepUnit { muted: false, ..old(self).sweep },
                timer_period: (old(self).timer_period / 256 * 256 + data) as u16,
                ..*old(self)
            }),
    {
        self.sweep.reset_mute();
        self.timer_period = self.timer_period / 256 * 256 + data as u16;
    }

    pub fn write_timer_high(&mut self, data: u8)
        requires
            old(self).wf(),
        ensures
            final(self).wf(),
            *final(self) == square_write_timer_high_spec(*old(self), data),
    {
        self.sweep.reset_mute();
        self.timer_period = self.timer_period % 256 + (data % 8) as u16 * 256;
        self.length_counter = length_value((data / 8) % 32);
        self.envelope.restart();
        self.duty_position = 0;
        self.timer_value = self.timer_period + 1;
    }

    pub fn clock_timer(&mut self)
        requires
            old(self).wf(),
        ensures
            final(self).wf(),
            *final(self) == square_clock_timer_spec(*old(self)),
    {
        if self.timer_value == 0 {
            self.timer_value = self.timer_period + 1;
            self.duty_position = (self.duty_position + 1) % 8;
        } else {
            self.timer_value = self.timer_value - 1;
        }
    }

    pub fn output(&self) -> (r: u8)
        requires
            self.wf(),
        ensures
            r == square_output_spec(*self),
    {
        if !self.enabled || self.length_counter == 0 || self.timer_period < 8 || duty_value(
            self.duty_mode,
            self.duty_position,
        ) == 0 || self.sweep.is_muted(self.timer_period) {
            0
        } else {
            self.envelope.output()
        }
    }

    pub fn clock_envelope(&mut self)
        requires
            old(self).wf(),
        ensures
            final(self).wf(),
            *final(self) == (SquareChannel {
                envelope: envelope_clock_spec(old(self).envelope),
                ..*old(self)
            }),
    {
        self.envelope.clock();
    }

    pub fn clock_length_counter(&mut self)
        requires
            old(self).wf(),
        ensures
            final(self).wf(),
            *final(self) == square_clock_length_spec(*old(self)),
    {
        if self.length_counter > 0 && !self.envelope.halt() {
            self.length_counter = self.length_counter - 1;
        }
    }

    pub fn clock_sweep(&mut self)
        requires
            old(self).wf(),
        ensures
            final(self).wf(),
            *final(self) == square_clock_sweep_spec(*old(self)),
    {
        self.sweep.step(&mut self.timer_period);
    }

    pub fn set_enabled(&mut self, enabled: bool)
        requires
            old(self).wf(),
        ensures
            final(self).wf(),
            *final(self) == (SquareChannel { enabled, ..*old(self) }),
    {
        self.enabled = enabled;
    }

    pub fn clear_length(&mut self)
        requires
            old(self).wf(),
        ensures
            final(self).wf(),
            *final(self) == (SquareChannel { length_counter: 0, ..*old(self) }),
    {
        self.length_counter = 0;
    }
}

} // verus!
