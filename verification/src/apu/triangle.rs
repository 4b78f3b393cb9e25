//! The triangle channel: a 32-step sequence gated by the length and
//! linear counters.

use vstd::prelude::*;

use crate::apu::tables::length_value;
use crate::apu::tables::spec_length_table;
use crate::apu::tables::spec_triangle_table;
use crate::apu::tables::triangle_value;

verus! {

#[derive(Clone, Copy, Debug, PartialEq, Eq, Structural)]
pub struct TriangleChannel {
    pub enabled: bool,
    pub length_counter: u8,
    pub timer_period: u16,
    pub timer_value: u16,
    pub sequence_idx: u8,
    pub linear_counter: u8,
    pub linear_reload_value: u8,
    pub linear_control_flag: bool,
    pub linear_reload_flag: bool,
}

impl TriangleChannel {
    /// Ranges the register writes keep: an 11-bit timer period and a
    /// five-bit sequence index.
    pub open spec fn wf(&self) -> bool {
        &&& self.timer_period <= 0x7FF
        &&& self.sequence_idx < 32
    }
}

/// One timer tick: on expiry the divider reloads and, while both
/// counters run and the period is audible, the sequence advances.
pub open spec fn triangle_clock_timer_spec(c: TriangleChannel) -> TriangleChannel {
    if c.timer_value == 0 {
        TriangleChannel {
            timer_value: (c.timer_period + 1) as u16,
            sequence_idx: if c.length_counter > 0 && c.linear_counter > 0 && c.timer_period >= 2 {
                ((c.sequence_idx + 1) % 32) as u8
            } else {
                c.sequence_idx
            },
            ..c
        }
    } else {
        TriangleChannel { timer_value: (c.timer_value - 1) as u16, ..c }
    }
}

/// One quarter-frame linear-counter clock: reload or count down, and
/// drop the reload flag unless the control flag holds it.
pub open spec fn triangle_clock_linear_spec(c: TriangleChannel) -> TriangleChannel {
    let counter = if c.linear_reload_flag {
        c.linear_reload_value
    } else if c.linear_counter > 0 {
        (c.linear_counter - 1) as u8
    } else {
        0
    };
    TriangleChannel {
        linear_counter: counter,
        linear_reload_flag: if c.linear_control_flag {
            c.linear_reload_flag
        } else {
            false
        },
        ..c
    }
}

/// One half-frame length clock: count down unless halted by the control
/// flag.
pub open spec fn triangle_clock_length_spec(c: TriangleChannel) -> TriangleChannel {
    if c.length_counter > 0 && !c.linear_control_flag {
        TriangleChannel { length_counter: (c.length_counter - 1) as u8, ..c }
    } else {
        c
    }
}

/// The length-register write ($400B): timer high bits, length load,
/// linear reload request, sequence restart.
pub open spec fn triangle_write_timer_high_spec(c: TriangleChannel, data: u8) -> TriangleChannel {
    let period = (c.timer_period % 256 + (data % 8) * 256) as u16;
    TriangleChannel {
        timer_period: period,
        length_counter: spec_length_table(((data / 8) % 32) as int),
        linear_reload_flag: true,
        sequence_idx: 0,
        timer_value: (period + 1) as u16,
        ..c
    }
}

/// The current mixer input: the sequence value while the channel is
/// enabled, both counters run and the period is audible; 0 otherwise.
pub open spec fn triangle_output_spec(c: TriangleChannel) -> u8 {
    if !c.enabled || c.length_counter == 0 || c.linear_counter == 0 || c.timer_period < 2 {
        0
    } else {
        spec_triangle_table(c.sequence_idx as int)
    }
}

impl TriangleChannel {
    pub fn new() -> (r: TriangleChannel)
        ensures
            r.wf(),
            r == (TriangleChannel {
                enabled: false,
                length_counter: 0,
                timer_period: 0,
                timer_value: 0,
                sequence_idx: 0,
                linear_counter: 0,
                linear_reload_value: 0,
                linear_control_flag: false,
                linear_reload_flag: false,
            }),
    {
        TriangleChannel {
            enabled: false,
            length_counter: 0,
            timer_period: 0,
            timer_value: 0,
            sequence_idx: 0,
            linear_counter: 0,
            linear_reload_value: 0,
            linear_control_flag: false,
            linear_reload_flag: false,
        }
    }

    pub fn write_control(&mut self, data: u8)
        requires
            old(self).wf(),
        ensures
            final(self).wf(),
            *final(self) == (TriangleChannel {
                linear_control_flag: data & 0x80 != 0,
                linear_reload_value: data % 128,
                ..*old(self)
            }),
    {
        self.linear_control_flag = data & 0x80 != 0;
        self.linear_reload_value = data % 128;
    }

    pub fn write_timer_low(&mut self, data: u8)
        requires
            old(self).wf(),
        ensures
            final(self).wf(),
            *final(self) == (TriangleChannel {
                timer_period: (old(self).timer_period / 256 * 256 + data) as u16,
                ..*old(self)
            }),
    {
        self.timer_period = self.timer_period / 256 * 256 + data as u16;
    }

    pub fn write_timer_high(&mut self, data: u8)
        requires
            old(self).wf(),
        ensures
            final(self).wf(),
            *final(self) == triangle_write_timer_high_spec(*old(self), data),
    {
        self.timer_period = self.timer_period % 256 + (data % 8) as u16 * 256;
        self.length_counter = length_value((data / 8) % 32);
        self.linear_reload_flag = true;
        self.sequence_idx = 0;
        self.timer_value = self.timer_period + 1;
    }

    pub fn clock_timer(&mut self)
        requires
            old(self).wf(),
        ensures
            final(self).wf(),
            *final(self) == triangle_clock_timer_spec(*old(self)),
    {
        if self.timer_value == 0 {
            self.timer_value = self.timer_period + 1;
            if self.length_counter > 0 && self.linear_counter > 0 && self.timer_period >= 2 {
                self.sequence_idx = (self.sequence_idx + 1) % 32;
            }
        } else {
            self.timer_value = self.timer_value - 1;
        }
    }

    pub fn clock_linear_counter(&mut self)
        requires
            old(self).wf(),
        ensures
            final(self).wf(),
            *final(self) == triangle_clock_linear_spec(*old(self)),
    {
        if self.linear_reload_flag {
            self.linear_counter = self.linear_reload_value;
        } else if self.linear_counter > 0 {
            self.linear_counter = self.linear_counter - 1;
        }
        if !self.linear_control_flag {
            self.linear_reload_flag = false;
        }
    }

    pub fn clock_length_counter(&mut self)
        requires
            old(self).wf(),
        ensures
            final(self).wf(),
            *final(self) == triangle_clock_length_spec(*old(self)),
    {
        if self.length_counter > 0 && !self.linear_control_flag {
            self.length_counter = self.length_counter - 1;
        }
    }

    pub fn output(&self) -> (r: u8)
        requires
            self.wf(),
        ensures
            r == triangle_output_spec(*self),
    {
        if !self.enabled || self.length_counter == 0 || self.linear_counter == 0
            || self.timer_period < 2 {
            0
        } else {
            triangle_value(self.sequence_idx)
        }
    }

    pub fn set_enabled(&mut self, enabled: bool)
        requires
            old(self).wf(),
        ensures
            final(self).wf(),
            *final(self) == (TriangleChannel { enabled, ..*old(self) }),
    {
        self.enabled = enabled;
    }

    pub fn clear_length(&mut self)
        requires
            old(self).wf(),
        ensures
            final(self).wf(),
            *final(self) == (TriangleChannel { length_counter: 0, ..*old(self) }),
    {
        self.length_counter = 0;
    }
}

} // verus!
