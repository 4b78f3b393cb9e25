//! The audio processing unit: five sound channels, the frame sequencer
//! and the register file that drives them.

pub mod dmc;
pub mod envelope;
pub mod frame;
pub mod noise;
pub mod pulse;
pub mod square;
pub mod tables;
pub mod triangle;

use vstd::prelude::*;

use crate::apu::dmc::dmc_clock_spec;
use crate::apu::dmc::dmc_provide_sample_spec;
use crate::apu::dmc::DmcChannel;
use crate::apu::envelope::envelope_clock_spec;
use crate::apu::envelope::Envelope;
use crate::apu::frame::frame_tick_spec;
use crate::apu::frame::FrameCounter;
use crate::apu::frame::FrameCounterMode;
use crate::apu::noise::noise_clock_length_spec;
use crate::apu::noise::noise_clock_timer_spec;
use crate::apu::noise::noise_output_spec;
use crate::apu::noise::NoiseChannel;
use crate::apu::square::square_clock_length_spec;
use crate::apu::square::square_clock_sweep_spec;
use crate::apu::square::square_clock_timer_spec;
use crate::apu::square::square_output_spec;
use crate::apu::square::SquareChannel;
use crate::apu::triangle::triangle_clock_length_spec;
use crate::apu::triangle::triangle_clock_linear_spec;
use crate::apu::triangle::triangle_clock_timer_spec;
use crate::apu::triangle::triangle_output_spec;
use crate::apu::triangle::TriangleChannel;

verus! {

/// A $4017 write takes effect only a few CPU cycles later; this records
/// the countdown and the mode to install.
#[derive(Clone, Copy, Debug, PartialEq, Eq, Structural)]
pub struct FrameCounterReset {
    pub delay: u8,
    pub mode: FrameCounterMode,
}

/// The APU's register-visible state: the five channels, the frame
/// sequencer, the frame-IRQ flag and the CPU cycle parity that times
/// delayed $4017 resets.
#[derive(Clone, Copy, Debug, PartialEq, Eq, Structural)]
pub struct APU {
    pub square1: SquareChannel,
    pub square2: SquareChannel,
    pub triangle: TriangleChannel,
    pub noise: NoiseChannel,
    pub dmc: DmcChannel,
    pub frame_counter: FrameCounter,
    pub frame_irq: bool,
    pub cpu_cycle: u64,
    pub pending_frame_reset: Option<FrameCounterReset>,
}

impl APU {
    pub open spec fn wf(&self) -> bool {
        &&& self.square1.wf()
        &&& self.square2.wf()
        &&& self.triangle.wf()
        &&& self.dmc.wf()
    }
}

/// A quarter-frame clock: envelopes and the triangle's linear counter.
pub open spec fn apu_quarter_spec(a: APU) -> APU {
    APU {
        square1: SquareChannel { envelope: envelope_clock_spec(a.square1.envelope), ..a.square1 },
        square2: SquareChannel { envelope: envelope_clock_spec(a.square2.envelope), ..a.square2 },
        triangle: triangle_clock_linear_spec(a.triangle),
        noise: NoiseChannel { envelope: envelope_clock_spec(a.noise.envelope), ..a.noise },
        ..a
    }
}

/// A half-frame clock: length counters and the two sweeps.
pub open spec fn apu_half_spec(a: APU) -> APU {
    APU {
        square1: square_clock_sweep_spec(square_clock_length_spec(a.square1)),
        square2: square_clock_sweep_spec(square_clock_length_spec(a.square2)),
        triangle: triangle_clock_length_spec(a.triangle),
        noise: noise_clock_length_spec(a.noise),
        ..a
    }
}

/// Servicing the delayed $4017 reset at the top of a CPU cycle: count
/// the delay down; when it expires, install the new mode and restart the
/// sequence, firing quarter and half clocks at once in 5-step mode.
pub open spec fn apu_tick_frame_reset_spec(a: APU) -> APU {
    match a.pending_frame_reset {
        Option::None => a,
        Option::Some(reset) => {
            let delay = if reset.delay > 0 {
                (reset.delay - 1) as u8
            } else {
                0
            };
            if delay == 0 {
                let a1 = APU {
                    frame_counter: FrameCounter {
                        mode: reset.mode,
                        step_index: 0,
                        cycle_counter: 0,
                        ..a.frame_counter
                    },
                    pending_frame_reset: Option::None,
                    ..a
                };
                if reset.mode == FrameCounterMode::FiveStep {
                    apu_half_spec(apu_quarter_spec(a1))
                } else {
                    a1
                }
            } else {
                APU {
                    pending_frame_reset: Option::Some(FrameCounterReset { delay, mode: reset.mode }),
                    ..a
                }
            }
        },
    }
}

/// One CPU cycle of the APU: service a pending frame reset, tick the
/// DMC (which may request a DMA read), tick the pulse and noise timers
/// on even cycles and the triangle every cycle, tick the frame
/// sequencer and dispatch its clocks, then advance the cycle count.
pub open spec fn apu_clock_spec(a: APU) -> (APU, Option<u16>) {
    let a0 = apu_tick_frame_reset_spec(a);
    let (dmc1, request) = dmc_clock_spec(a0.dmc);
    let a1 = APU { dmc: dmc1, ..a0 };
    let a2 = if a1.cpu_cycle % 2 == 0 {
        APU {
            square1: square_clock_timer_spec(a1.square1),
            square2: square_clock_timer_spec(a1.square2),
            noise: noise_clock_timer_spec(a1.noise),
            ..a1
        }
    } else {
        a1
    };
    let a3 = APU { triangle: triangle_clock_timer_spec(a2.triangle), ..a2 };
    let (fc, events) = frame_tick_spec(a3.frame_counter);
    let a4 = APU { frame_counter: fc, ..a3 };
    let a5 = if events.quarter {
        apu_quarter_spec(a4)
    } else {
        a4
    };
    let a6 = if events.half {
        apu_half_spec(a5)
    } else {
        a5
    };
    let a7 = if events.irq {
        APU { frame_irq: true, ..a6 }
    } else {
        a6
    };
    (APU { cpu_cycle: a7.cpu_cycle.wrapping_add(1), ..a7 }, request)
}

/// The $4015 status byte: length-counter activity per channel, DMC
/// bytes remaining, and the two IRQ flags.
pub open spec fn apu_status_byte(a: APU) -> u8 {
    let b0: u8 = if a.square1.length_counter > 0 {
        0x01
    } else {
        0
    };
    let b1: u8 = if a.square2.length_counter > 0 {
        0x02
    } else {
        0
    };
    let b2: u8 = if a.triangle.length_counter > 0 {
        0x04
    } else {
        0
    };
    let b3: u8 = if a.noise.length_counter > 0 {
        0x08
    } else {
        0
    };
    let b4: u8 = if a.dmc.bytes_remaining > 0 {
        0x10
    } else {
        0
    };
    let b6: u8 = if a.frame_irq {
        0x40
    } else {
        0
    };
    let b7: u8 = if a.dmc.irq_pending {
        0x80
    } else {
        0
    };
    (b0 + b1 + b2 + b3 + b4 + b6 + b7) as u8
}

/// What a $4015 write does to the DMC: the enable bit set restarts an
/// exhausted sample, clear stops playback; the IRQ is acknowledged.
pub open spec fn apu_write_status_dmc_spec(c: DmcChannel, value: u8) -> DmcChannel {
    let c0 = DmcChannel { enabled: value & 0x10 != 0, ..c };
    let c1 = if value & 0x10 == 0 {
        DmcChannel {
            bytes_remaining: 0,
            pending_fetch: false,
            sample_buffer: Option::None::<u8>,
            ..c0
        }
    } else if c0.bytes_remaining == 0 {
        DmcChannel { current_address: c0.sample_address, bytes_remaining: c0.sample_length, ..c0 }
    } else {
        c0
    };
    DmcChannel { irq_pending: false, ..c1 }
}

impl APU {
    pub fn new() -> (r: APU)
        ensures
            r.wf(),
            r.square1.sweep.ones_complement,
            !r.square2.sweep.ones_complement,
            r.square1.length_counter == 0 && r.square2.length_counter == 0,
            r.triangle.length_counter == 0 && r.noise.length_counter == 0,
            !r.square1.enabled && !r.square2.enabled && !r.triangle.enabled && !r.noise.enabled
                && !r.dmc.enabled,
            r.frame_counter == (FrameCounter {
                mode: FrameCounterMode::FourStep,
                step_index: 0,
                cycle_counter: 0,
                irq_inhibit: false,
            }),
            !r.frame_irq,
            r.cpu_cycle == 1,
            r.pending_frame_reset is None,
            r.noise.shift_register == 1,
            r.dmc.bytes_remaining == 0,
    {
        APU {
            square1: SquareChannel::new(true),
            square2: SquareChannel::new(false),
            triangle: TriangleChannel::new(),
            noise: NoiseChannel::new(),
            dmc: DmcChannel::new(),
            frame_counter: FrameCounter::new(),
            frame_irq: false,
            cpu_cycle: 1,
            pending_frame_reset: Option::None,
        }
    }

    /// A write to one of the channel registers $4000-$4013.
    #[verifier::rlimit(100)]
    #[verifier::spinoff_prover]
    pub fn write_register(&mut self, addr: u16, value: u8)
        requires
            old(self).wf(),
        ensures
            final(self).wf(),
            *final(self) == apu_write_register_spec(*old(self), addr, value),
    {
        match addr {
            0x4000 => self.square1.write_control(value),
            0x4001 => self.square1.write_sweep(value),
            0x4002 => self.square1.write_timer_low(value),
            0x4003 => self.square1.write_timer_high(value),
            0x4004 => self.square2.write_control(value),
            0x4005 => self.square2.write_sweep(value),
            0x4006 => self.square2.write_timer_low(value),
            0x4007 => self.square2.write_timer_high(value),
            0x4008 => self.triangle.write_control(value),
            0x400A => self.triangle.write_timer_low(value),
            0x400B => self.triangle.write_timer_high(value),
            0x400C => self.noise.write_control(value),
            0x400E => self.noise.write_period(value),
            0x400F => self.noise.write_length(value),
            0x4010 => self.dmc.write_control(value),
            0x4011 => self.dmc.write_direct_load(value),
            0x4012 => self.dmc.write_sample_address(value),
            0x4013 => self.dmc.write_sample_length(value),
            _ => {},
        }
    }

    /// A $4015 write: channel enables and IRQ acknowledgement.  A bit
    /// left clear zeroes its channel's length counter at once; clearing
    /// the DMC bit stops playback, setting it restarts an exhausted
    /// sample; both IRQ flags are acknowledged.
    pub fn write_status(&mut self, value: u8)
        requires
            old(self).wf(),
        ensures
            final(self).wf(),
            final(self).square1 == (SquareChannel {
                enabled: value & 0x01 != 0,
                length_counter: if value & 0x01 != 0 {
                    old(self).square1.length_counter
                } else {
                    0u8
                },
                ..old(self).square1
            }),
            final(self).square2 == (SquareChannel {
                enabled: value & 0x02 != 0,
                length_counter: if value & 0x02 != 0 {
                    old(self).square2.length_counter
                } else {
                    0u8
                },
                ..old(self).square2
            }),
            final(self).triangle == (TriangleChannel {
                enabled: value & 0x04 != 0,
                length_counter: if value & 0x04 != 0 {
                    old(self).triangle.length_counter
                } else {
                    0u8
                },
                ..old(self).triangle
            }),
            final(self).noise == (NoiseChannel {
                enabled: value & 0x08 != 0,
                length_counter: if value & 0x08 != 0 {
                    old(self).noise.length_counter
                } else {
                    0u8
                },
                ..old(self).noise
            }),
            final(self).dmc == apu_write_status_dmc_spec(old(self).dmc, value),
            !final(self).frame_irq,
            final(self).frame_counter == old(self).frame_counter,
            final(self).cpu_cycle == old(self).cpu_cycle,
            final(self).pending_frame_reset == old(self).pending_frame_reset,
    {
        self.write_status_tone_channels(value);
        self.write_status_dmc(value);
        self.frame_irq = false;
    }

    /// The four tone channels' share of a $4015 write.
    fn write_status_tone_channels(&mut self, value: u8)
        requires
            old(self).wf(),
        ensures
            final(self).wf(),
            final(self).square1 == (SquareChannel {
                enabled: value & 0x01 != 0,
                length_counter: if value & 0x01 != 0 {
                    old(self).square1.length_counter
                } else {
                    0u8
                },
                ..old(self).square1
            }),
            final(self).square2 == (SquareChannel {
                enabled: value & 0x02 != 0,
                length_counter: if value & 0x02 != 0 {
                    old(self).square2.length_counter
                } else {
                    0u8
                },
                ..old(self).square2
            }),
            final(self).triangle == (TriangleChannel {
                enabled: value & 0x04 != 0,
                length_counter: if value & 0x04 != 0 {
                    old(self).triangle.length_counter
                } else {
                    0u8
                },
                ..old(self).triangle
            }),
            final(self).noise == (NoiseChannel {
                enabled: value & 0x08 != 0,
                length_counter: if value & 0x08 != 0 {
                    old(self).noise.length_counter
                } else {
                    0u8
                },
                ..old(self).noise
            }),
            final(self).dmc == old(self).dmc,
            final(self).frame_irq == old(self).frame_irq,
            final(self).frame_counter == old(self).frame_counter,
            final(self).cpu_cycle == old(self).cpu_cycle,
            final(self).pending_frame_reset == old(self).pending_frame_reset,
    {
        let e1 = value & 0x01 != 0;
        self.square1.set_enabled(e1);
        if !e1 {
            self.square1.clear_length();
        }
        let e2 = value & 0x02 != 0;
        self.square2.set_enabled(e2);
        if !e2 {
            self.square2.clear_length();
        }
        let e3 = value & 0x04 != 0;
        self.triangle.set_enabled(e3);
        if !e3 {
            self.triangle.clear_length();
        }
        let e4 = value & 0x08 != 0;
        self.noise.set_enabled(e4);
        if !e4 {
            self.noise.clear_length();
        }
    }

    /// The DMC's share of a $4015 write.
    fn write_status_dmc(&mut self, value: u8)
        requires
            old(self).wf(),
        ensures
            final(self).wf(),
            final(self).dmc == apu_write_status_dmc_spec(old(self).dmc, value),
            final(self).square1 == old(self).square1,
            final(self).square2 == old(self).square2,
            final(self).triangle == old(self).triangle,
            final(self).noise == old(self).noise,
            final(self).frame_irq == old(self).frame_irq,
            final(self).frame_counter == old(self).frame_counter,
            final(self).cpu_cycle == old(self).cpu_cycle,
            final(self).pending_frame_reset == old(self).pending_frame_reset,
    {
        let enable = value & 0x10 != 0;
        self.dmc.set_enabled(enable);
        if !enable {
            self.dmc.clear_bytes();
        } else {
            self.dmc.restart_if_needed();
        }
        self.dmc.clear_irq();
    }

    /// A $4017 write: latch the IRQ-inhibit bit, acknowledge the frame
    /// IRQ, and schedule the mode change three or four cycles out
    /// depending on cycle parity.
    pub fn write_frame_counter(&mut self, value: u8)
        requires
            old(self).wf(),
        ensures
            final(self).wf(),
            *final(self) == (APU {
                frame_counter: FrameCounter {
                    irq_inhibit: value & 0x40 != 0,
                    ..old(self).frame_counter
                },
                frame_irq: false,
                pending_frame_reset: Option::Some(
                    FrameCounterReset {
                        delay: if old(self).cpu_cycle % 2 == 0 {
                            4u8
                        } else {
                            3u8
                        },
                        mode: if value & 0x80 != 0 {
                            FrameCounterMode::FiveStep
                        } else {
                            FrameCounterMode::FourStep
                        },
                    },
                ),
                ..*old(self)
            }),
    {
        let mode = if value & 0x80 != 0 {
            FrameCounterMode::FiveStep
        } else {
            FrameCounterMode::FourStep
        };
        self.frame_counter.set_irq_inhibit(value & 0x40 != 0);
        self.frame_irq = false;
        let delay: u8 = if self.cpu_cycle % 2 == 0 {
            4
        } else {
            3
        };
        self.pending_frame_reset = Option::Some(FrameCounterReset { delay, mode });
    }

    /// A $4015 read: the status byte; reading acknowledges both IRQs.
    pub fn read_status(&mut self) -> (r: u8)
        requires
            old(self).wf(),
        ensures
            final(self).wf(),
            r == apu_status_byte(*old(self)),
            *final(self) == (APU {
                frame_irq: false,
                dmc: DmcChannel { irq_pending: false, ..old(self).dmc },
                ..*old(self)
            }),
    {
        let mut status: u8 = 0;
        if self.square1.length_counter > 0 {
            status = status + 0x01;
        }
        if self.square2.length_counter > 0 {
            status = status + 0x02;
        }
        if self.triangle.length_counter > 0 {
            status = status + 0x04;
        }
        if self.noise.length_counter > 0 {
            status = status + 0x08;
        }
        if self.dmc.bytes_remaining > 0 {
            status = status + 0x10;
        }
        if self.frame_irq {
            status = status + 0x40;
        }
        if self.dmc.irq_pending {
            status = status + 0x80;
        }
        self.frame_irq = false;
        self.dmc.clear_irq();
        status
    }

    /// Level-triggered IRQ poll: the DMC IRQ first, then the frame IRQ;
    /// polling acknowledges the one reported.
    pub fn poll_irq(&mut self) -> (r: Option<u8>)
        requires
            old(self).wf(),
        ensures
            final(self).wf(),
            r == if old(self).dmc.irq_pending || old(self).frame_irq {
                Option::Some(0u8)
            } else {
                Option::None::<u8>
            },
            *final(self) == if old(self).dmc.irq_pending {
                APU { dmc: DmcChannel { irq_pending: false, ..old(self).dmc }, ..*old(self) }
            } else if old(self).frame_irq {
                APU { frame_irq: false, ..*old(self) }
            } else {
                *old(self)
            },
    {
        if self.dmc.irq_pending {
            self.dmc.clear_irq();
            return Option::Some(0);
        }
        if self.frame_irq {
            self.frame_irq = false;
            return Option::Some(0);
        }
        Option::None
    }

    /// One CPU cycle; `Some(addr)` asks the bus for a DMC sample byte.
    pub fn clock(&mut self) -> (r: Option<u16>)
        requires
            old(self).wf(),
        ensures
            final(self).wf(),
            (*final(self), r) == apu_clock_spec(*old(self)),
    {
        self.tick_frame_reset();
        let dmc_request = self.dmc.clock();
        if self.cpu_cycle % 2 == 0 {
            self.square1.clock_timer();
            self.square2.clock_timer();
            self.noise.clock_timer();
        }
        self.triangle.clock_timer();
        let frame_events = self.frame_counter.tick();
        if frame_events.quarter {
            self.clock_quarter_frame();
        }
        if frame_events.half {
            self.clock_half_frame();
        }
        if frame_events.irq {
            self.set_frame_irq();
        }
        self.cpu_cycle = self.cpu_cycle.wrapping_add(1);
        dmc_request
    }

    /// The bus's answer to a DMC DMA request.
    pub fn provide_dmc_sample(&mut self, value: u8)
        requires
            old(self).wf(),
        ensures
            final(self).wf(),
            *final(self) == (APU {
                dmc: dmc_provide_sample_spec(old(self).dmc, value),
                ..*old(self)
            }),
    {
        self.dmc.provide_sample(value);
    }

    /// The five channels' current sample levels (pulse 1, pulse 2,
    /// triangle, noise, DMC), for an external mixer.
    pub fn channel_outputs(&self) -> (r: (u8, u8, u8, u8, u8))
        requires
            self.wf(),
        ensures
            r.0 == square_output_spec(self.square1),
            r.1 == square_output_spec(self.square2),
            r.2 == triangle_output_spec(self.triangle),
            r.3 == noise_output_spec(self.noise),
            r.4 == self.dmc.output_level,
    {
        (
            self.square1.output(),
            self.square2.output(),
            self.triangle.output(),
            self.noise.output(),
            self.dmc.output(),
        )
    }

    fn clock_quarter_frame(&mut self)
        requires
            old(self).wf(),
        ensures
            final(self).wf(),
            *final(self) == apu_quarter_spec(*old(self)),
    {
        self.square1.clock_envelope();
        self.square2.clock_envelope();
        self.triangle.clock_linear_counter();
        self.noise.clock_envelope();
    }

    fn clock_half_frame(&mut self)
        requires
            old(self).wf(),
        ensures
            final(self).wf(),
            *final(self) == apu_half_spec(*old(self)),
    {
        self.square1.clock_length_counter();
        self.square2.clock_length_counter();
        self.triangle.clock_length_counter();
        self.noise.clock_length_counter();
        self.square1.clock_sweep();
        self.square2.clock_sweep();
    }

    fn set_frame_irq(&mut self)
        requires
            old(self).wf(),
        ensures
            final(self).wf(),
            *final(self) == (APU { frame_irq: true, ..*old(self) }),
    {
        self.frame_irq = true;
    }

    fn tick_frame_reset(&mut self)
        requires
            old(self).wf(),
        ensures
            final(self).wf(),
            *final(self) == apu_tick_frame_reset_spec(*old(self)),
    {
        match self.pending_frame_reset {
            Option::None => {},
            Option::Some(reset) => {
                let delay = if reset.delay > 0 {
                    reset.delay - 1
                } else {
                    0
                };
                if delay == 0 {
                    self.frame_counter.set_mode(reset.mode);
                    self.frame_counter.reset();
                    self.pending_frame_reset = Option::None;
                    if reset.mode == FrameCounterMode::FiveStep {
                        self.clock_quarter_frame();
                        self.clock_half_frame();
                    }
                } else {
                    self.pending_frame_reset = Option::Some(
                        FrameCounterReset { delay, mode: reset.mode },
                    );
                }
            },
        }
    }
}

/// What each channel-register write does, by address; writes to
/// unmapped addresses change nothing.
pub open spec fn apu_write_register_spec(a: APU, addr: u16, value: u8) -> APU {
    if addr == 0x4000 {
        APU { square1: square_write_control(a.square1, value), ..a }
    } else if addr == 0x4001 {
        APU { square1: SquareChannel { sweep: crate::apu::square::sweep_write_spec(a.square1.sweep, value), ..a.square1 }, ..a }
    } else if addr == 0x4002 {
        APU { square1: SquareChannel { sweep: crate::apu::square::SweepUnit { muted: false, ..a.square1.sweep }, timer_period: (a.square1.timer_period / 256 * 256 + value) as u16, ..a.square1 }, ..a }
    } else if addr == 0x4003 {
        APU { square1: crate::apu::square::square_write_timer_high_spec(a.square1, value), ..a }
    } else if addr == 0x4004 {
        APU { square2: square_write_control(a.square2, value), ..a }
    } else if addr == 0x4005 {
        APU { square2: SquareChannel { sweep: crate::apu::square::sweep_write_spec(a.square2.sweep, value), ..a.square2 }, ..a }
    } else if addr == 0x4006 {
        APU { square2: SquareChannel { sweep: crate::apu::square::SweepUnit { muted: false, ..a.square2.sweep }, timer_period: (a.square2.timer_period / 256 * 256 + value) as u16, ..a.square2 }, ..a }
    } else if addr == 0x4007 {
        APU { square2: crate::apu::square::square_write_timer_high_spec(a.square2, value), ..a }
    } else if addr == 0x4008 {
        APU { triangle: TriangleChannel { linear_control_flag: value & 0x80 != 0, linear_reload_value: value % 128, ..a.triangle }, ..a }
    } else if addr == 0x400A {
        APU { triangle: TriangleChannel { timer_period: (a.triangle.timer_period / 256 * 256 + value) as u16, ..a.triangle }, ..a }
    } else if addr == 0x400B {
        APU { triangle: crate::apu::triangle::triangle_write_timer_high_spec(a.triangle, value), ..a }
    } else if addr == 0x400C {
        APU { noise: NoiseChannel { envelope: crate::apu::envelope::envelope_set_control_spec(a.noise.envelope, value), ..a.noise }, ..a }
    } else if addr == 0x400E {
        APU { noise: NoiseChannel { mode: value & 0x80 != 0, timer_period: crate::apu::tables::spec_noise_period_table((value % 16) as int), timer_value: crate::apu::tables::spec_noise_period_table((value % 16) as int), ..a.noise }, ..a }
    } else if addr == 0x400F {
        APU { noise: NoiseChannel { length_counter: crate::apu::tables::spec_length_table(((value / 8) % 32) as int), envelope: Envelope { start_flag: true, ..a.noise.envelope }, ..a.noise }, ..a }
    } else if addr == 0x4010 {
        APU { dmc: DmcChannel { timer_period: crate::apu::tables::spec_dmc_rate_table((value % 16) as int), timer_value: crate::apu::tables::spec_dmc_rate_table((value % 16) as int), loop_flag: value & 0x40 != 0, irq_enabled: value & 0x80 != 0, irq_pending: if value & 0x80 != 0 { a.dmc.irq_pending } else { false }, ..a.dmc }, ..a }
    } else if addr == 0x4011 {
        APU { dmc: DmcChannel { output_level: value % 128, ..a.dmc }, ..a }
    } else if addr == 0x4012 {
        APU { dmc: DmcChannel { sample_address: (0xC000 + (value as u16) * 64) as u16, ..a.dmc }, ..a }
    } else if addr == 0x4013 {
        APU { dmc: DmcChannel { sample_length: (value * 16 + 1) as u16, ..a.dmc }, ..a }
    } else {
        a
    }
}

/// A $4000/$4004 control write at channel level.
pub open spec fn square_write_control(c: SquareChannel, value: u8) -> SquareChannel {
    SquareChannel {
        duty_mode: (value / 64) % 4,
        envelope: crate::apu::envelope::envelope_set_control_spec(c.envelope, value),
        ..c
    }
}

} // verus!
