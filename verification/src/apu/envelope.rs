//! The shared envelope generator of the pulse and noise channels.

use vstd::prelude::*;

verus! {

#[derive(Clone, Copy, Debug, PartialEq, Eq, Structural)]
pub struct Envelope {
    pub constant_volume: bool,
    pub loop_flag: bool,
    pub volume: u8,
    pub start_flag: bool,
    pub divider: u8,
    pub decay_level: u8,
}

/// A control write: constant-volume and loop bits, four volume bits.
pub open spec fn envelope_set_control_spec(e: Envelope, data: u8) -> Envelope {
    Envelope {
        constant_volume: data & 0x10 != 0,
        loop_flag: data & 0x20 != 0,
        volume: data % 16,
        ..e
    }
}

/// The divider reload value: the volume field plus one.
pub open spec fn envelope_period_spec(e: Envelope) -> u8 {
    (e.volume % 16 + 1) as u8
}

/// One quarter-frame clock: a pending start reloads decay and divider;
/// an expired divider reloads and steps the decay level, looping it when
/// the loop flag is set; otherwise the divider counts down.
pub open spec fn envelope_clock_spec(e: Envelope) -> Envelope {
    if e.start_flag {
        Envelope { start_flag: false, decay_level: 15, divider: envelope_period_spec(e), ..e }
    } else if e.divider == 0 {
        if e.decay_level == 0 {
            Envelope {
                divider: envelope_period_spec(e),
                decay_level: if e.loop_flag {
                    15
                } else {
                    0
                },
                ..e
            }
        } else {
            Envelope { divider: envelope_period_spec(e), decay_level: (e.decay_level - 1) as u8, ..e }
        }
    } else {
        Envelope { divider: (e.divider - 1) as u8, ..e }
    }
}

/// The envelope's output: the fixed volume or the decaying level.
pub open spec fn envelope_output_spec(e: Envelope) -> u8 {
    if e.constant_volume {
        e.volume
    } else {
        e.decay_level
    }
}

impl Envelope {
    pub fn new() -> (r: Envelope)
        ensures
            r == (Envelope {
                constant_volume: false,
                loop_flag: false,
                volume: 0,
                start_flag: false,
                divider: 0,
                decay_level: 0,
            }),
    {
        Envelope {
            constant_volume: false,
            loop_flag: false,
            volume: 0,
            start_flag: false,
            divider: 0,
            decay_level: 0,
        }
    }

    pub fn set_control(&mut self, data: u8)
        ensures
            *final(self) == envelope_set_control_spec(*old(self), data),
    {
        self.constant_volume = data & 0x10 != 0;
        self.loop_flag = data & 0x20 != 0;
        self.volume = data % 16;
    }

    pub fn restart(&mut self)
        ensures
            *final(self) == (Envelope { start_flag: true, ..*old(self) }),
    {
        self.start_flag = true;
    }

    pub fn clock(&mut self)
        ensures
            *final(self) == envelope_clock_spec(*old(self)),
    {
        if self.start_flag {
            self.start_flag = false;
            self.decay_level = 15;
            self.divider = self.volume % 16 + 1;
        } else if self.divider == 0 {
            self.divider = self.volume % 16 + 1;
            if self.decay_level == 0 {
                if self.loop_flag {
                    self.decay_level = 15;
                }
            } else {
                self.decay_level = self.decay_level - 1;
            }
        } else {
            self.divider = self.divider - 1;
        }
    }

    pub fn output(&self) -> (r: u8)
        ensures
            r == envelope_output_spec(*self),
    {
        if self.constant_volume {
            self.volume
        } else {
            self.decay_level
        }
    }

    /// The length counter halts while the loop flag is set.
    pub fn halt(&self) -> (r: bool)
        ensures
            r == self.loop_flag,
    {
        self.loop_flag
    }
}

} // verus!
