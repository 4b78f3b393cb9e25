//! The APU frame counter: the 4- or 5-step sequencer that distributes
//! quarter-frame and half-frame clocks and raises the frame IRQ.

use vstd::prelude::*;

verus! {

#[derive(Clone, Copy, Debug, PartialEq, Eq, Structural)]
pub enum FrameCounterMode {
    FourStep,
    FiveStep,
}

/// The sub-clocks one sequencer tick may emit.
#[derive(Clone, Copy, Debug, PartialEq, Eq, Structural)]
pub struct FrameEvents {
    pub quarter: bool,
    pub half: bool,
    pub irq: bool,
}

#[derive(Clone, Copy, Debug, PartialEq, Eq, Structural)]
pub struct FrameCounter {
    pub mode: FrameCounterMode,
    pub step_index: u8,
    pub cycle_counter: u32,
    pub irq_inhibit: bool,
}

/// The CPU cycle at which the sequence's step fires.
pub open spec fn spec_step_cycle(mode: FrameCounterMode, i: int) -> u32 {
    if i == 0 {
        3729
    } else if i == 1 {
        7457
    } else if i == 2 {
        11186
    } else if i == 3 {
        14916
    } else {
        18641
    }
}

pub open spec fn spec_seq_len(mode: FrameCounterMode) -> int {
    if mode == FrameCounterMode::FourStep {
        4
    } else {
        5
    }
}

/// Whether the sequence's step emits a quarter-frame clock.
pub open spec fn spec_step_quarter(mode: FrameCounterMode, i: int) -> bool {
    if mode == FrameCounterMode::FourStep {
        true
    } else {
        i != 3
    }
}

/// Whether the sequence's step emits a half-frame clock.
pub open spec fn spec_step_half(mode: FrameCounterMode, i: int) -> bool {
    if mode == FrameCounterMode::FourStep {
        i == 1 || i == 3
    } else {
        i == 1 || i == 4
    }
}

/// One sequencer tick: the cycle counter advances; reaching the next
/// step's cycle emits that step's clocks, and completing the sequence
/// restarts it (raising the IRQ in 4-step mode unless inhibited).
pub open spec fn frame_tick_spec(f: FrameCounter) -> (FrameCounter, FrameEvents) {
    let cc = f.cycle_counter.wrapping_add(1);
    let len = spec_seq_len(f.mode);
    if f.step_index < len && cc == spec_step_cycle(f.mode, f.step_index as int) {
        let quarter = spec_step_quarter(f.mode, f.step_index as int);
        let half = spec_step_half(f.mode, f.step_index as int);
        let next = (f.step_index + 1) as u8;
        if next == len {
            let irq = f.mode == FrameCounterMode::FourStep && !f.irq_inhibit;
            (
                FrameCounter { step_index: 0, cycle_counter: 0, ..f },
                FrameEvents { quarter, half, irq },
            )
        } else {
            (
                FrameCounter { step_index: next, cycle_counter: cc, ..f },
                FrameEvents { quarter, half, irq: false },
            )
        }
    } else {
        (FrameCounter { cycle_counter: cc, ..f }, FrameEvents { quarter: false, half: false, irq: false })
    }
}

impl FrameCounter {
    pub fn new() -> (r: FrameCounter)
        ensures
            r == (FrameCounter {
                mode: FrameCounterMode::FourStep,
                step_index: 0,
                cycle_counter: 0,
                irq_inhibit: false,
            }),
    {
        FrameCounter {
            mode: FrameCounterMode::FourStep,
            step_index: 0,
            cycle_counter: 0,
            irq_inhibit: false,
        }
    }

    pub fn set_mode(&mut self, mode: FrameCounterMode)
        ensures
            *final(self) == (FrameCounter { mode, ..*old(self) }),
    {
        self.mode = mode;
    }

    pub fn set_irq_inhibit(&mut self, irq_inhibit: bool)
        ensures
            *final(self) == (FrameCounter { irq_inhibit, ..*old(self) }),
    {
        self.irq_inhibit = irq_inhibit;
    }

    pub fn reset(&mut self)
        ensures
            *final(self) == (FrameCounter { step_index: 0, cycle_counter: 0, ..*old(self) }),
    {
        self.step_index = 0;
        self.cycle_counter = 0;
    }

    pub fn tick(&mut self) -> (r: FrameEvents)
        ensures
            (*final(self), r) == frame_tick_spec(*old(self)),
    {
        self.cycle_counter = self.cycle_counter.wrapping_add(1);
        let len: u8 = match self.mode {
            FrameCounterMode::FourStep => 4,
            FrameCounterMode::FiveStep => 5,
        };
        if self.step_index < len {
            let threshold: u32 = match self.step_index {
                0 => 3729,
                1 => 7457,
                2 => 11186,
                3 => 14916,
                _ => 18641,
            };
            if self.cycle_counter == threshold {
                let quarter = match self.mode {
                    FrameCounterMode::FourStep => true,
                    FrameCounterMode::FiveStep => self.step_index != 3,
                };
                let half = match self.mode {
                    FrameCounterMode::FourStep => self.step_index == 1 || self.step_index == 3,
                    FrameCounterMode::FiveStep => self.step_index == 1 || self.step_index == 4,
                };
                self.step_index = self.step_index + 1;
                let mut irq = false;
                if self.step_index == len {
                    if self.mode == FrameCounterMode::FourStep && !self.irq_inhibit {
                        irq = true;
                    }
                    self.step_index = 0;
                    self.cycle_counter = 0;
                }
                return FrameEvents { quarter, half, irq };
            }
        }
        FrameEvents { quarter: false, half: false, irq: false }
    }
}

/// The sequencer state `n` ticks onward.
pub open spec fn frame_ticks(f: FrameCounter, n: nat) -> FrameCounter
    decreases n,
{
    if n == 0 {
        f
    } else {
        frame_tick_spec(frame_ticks(f, (n - 1) as nat)).0
    }
}

/// How many step thresholds a 4-step cycle count has passed.
pub open spec fn four_step_index_at(n: int) -> u8 {
    if n < 3729 {
        0
    } else if n < 7457 {
        1
    } else if n < 11186 {
        2
    } else {
        3
    }
}

/// Within one 4-step period that starts at the sequence origin, the
/// counter simply counts the ticks and the step index counts the
/// thresholds passed.
pub proof fn lemma_four_step_state(f: FrameCounter, n: nat)
    requires
        f.mode == FrameCounterMode::FourStep,
        f.step_index == 0,
        f.cycle_counter == 0,
        n <= 14915,
    ensures
        frame_ticks(f, n).mode == FrameCounterMode::FourStep,
        frame_ticks(f, n).irq_inhibit == f.irq_inhibit,
        frame_ticks(f, n).cycle_counter == n,
        frame_ticks(f, n).step_index == four_step_index_at(n as int),
    decreases n,
{
    if n > 0 {
        lemma_four_step_state(f, (n - 1) as nat);
    }
}

/// In 4-step mode with the IRQ not inhibited, one full period of 14916
/// ticks from the sequence origin raises the frame IRQ exactly once, on
/// its last tick, and returns the sequencer to the origin, so the
/// pattern repeats with that period.
pub proof fn lemma_four_step_irq_exactly_once(f: FrameCounter)
    requires
        f.mode == FrameCounterMode::FourStep,
        !f.irq_inhibit,
        f.step_index == 0,
        f.cycle_counter == 0,
    ensures
        forall|k: nat|
            1 <= k <= 14916 ==> (#[trigger] frame_tick_spec(frame_ticks(f, (k - 1) as nat)).1.irq
                <==> k == 14916),
        frame_ticks(f, 14916) == f,
{
    assert forall|k: nat| 1 <= k <= 14916 implies (#[trigger] frame_tick_spec(
        frame_ticks(f, (k - 1) as nat),
    ).1.irq <==> k == 14916) by {
        lemma_four_step_state(f, (k - 1) as nat);
    }
    lemma_four_step_state(f, 14915);
    assert(frame_ticks(f, 14916) == frame_tick_spec(frame_ticks(f, 14915)).0);
}

} // verus!
