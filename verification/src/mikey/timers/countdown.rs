//! The register model shared by both kinds of timer: what a countdown timer
//! holds, how its control bits read, and what one count-down step does.

use vstd::prelude::*;
use vstd::arithmetic::power2::{pow2, lemma2_to64};
use crate::mikey::timers::{
    CTRLA_ENABLE_COUNT_BIT, CTRLA_ENABLE_RELOAD_BIT, CTRLA_INTERRUPT_BIT, CTRLA_MAGMODE_BIT,
    CTRLA_PERIOD_BIT, CTRLA_RESET_DONE_BIT, CTRLB_BORROW_IN_BIT, CTRLB_BORROW_OUT_BIT,
    CTRLB_TIMER_DONE_BIT, NEVER, TIMER_TICKS_COUNT,
};

verus! {

/// The registers of one countdown timer.
pub struct Countdown {
    pub id: u8,
    /// The reload value.
    pub backup: u8,
    pub control_a: u8,
    /// The live counter.
    pub count: u8,
    pub control_b: u8,
    /// The tick at which the clock next drives the timer, or `NEVER`.
    pub next_trigger_tick: u64,
    /// The timer that this one pulses when it expires.
    pub linked_timer: Option<u8>,
}

/// The period code of a control A value: 0 to 6 select a clock, 7 links the
/// timer to its predecessor.
pub open spec fn period_of(control_a: u8) -> u8 {
    control_a & CTRLA_PERIOD_BIT
}

/// Clock ticks between two count-downs of a clocked timer with this control A
/// value: the base unit times two to the period.
pub open spec fn clock_ticks_of(control_a: u8) -> int {
    TIMER_TICKS_COUNT * pow2(period_of(control_a) as nat)
}

impl Countdown {
    pub open spec fn period(self) -> u8 {
        period_of(self.control_a)
    }

    /// Linked timers count their predecessor's expiries, not clock ticks.
    pub open spec fn is_linked(self) -> bool {
        self.period() == 7
    }

    pub open spec fn count_enabled(self) -> bool {
        self.control_a & CTRLA_ENABLE_COUNT_BIT != 0
    }

    pub open spec fn reload_enabled(self) -> bool {
        self.control_a & CTRLA_ENABLE_RELOAD_BIT != 0
    }

    pub open spec fn interrupt_enabled(self) -> bool {
        self.control_a & CTRLA_INTERRUPT_BIT != 0
    }

    pub open spec fn integrate(self) -> bool {
        self.control_a & CTRLA_MAGMODE_BIT != 0
    }

    pub open spec fn clock_ticks(self) -> int {
        clock_ticks_of(self.control_a)
    }

    /// Whether a control A value makes a timer count clock ticks: counting is
    /// enabled and the period is not the linking one.
    pub open spec fn arms(control_a: u8) -> bool {
        period_of(control_a) != 7 && control_a & CTRLA_ENABLE_COUNT_BIT != 0
    }

    /// The timer counts clock ticks: it is enabled and not linked.
    pub open spec fn clocked(self) -> bool {
        Self::arms(self.control_a)
    }

    /// Only a clocked timer is ever scheduled.
    pub open spec fn wf(self) -> bool {
        self.next_trigger_tick != NEVER ==> self.clocked()
    }

    /// Whether the tick one period after `tick` fits the tick counter.
    pub open spec fn can_schedule(self, tick: u64) -> bool {
        tick + self.clock_ticks() <= u64::MAX
    }

    /// The timer at power-on.
    pub open spec fn initial(id: u8, linked_timer: Option<u8>) -> Countdown {
        Countdown {
            id,
            backup: 0,
            control_a: 0,
            count: 0,
            control_b: 0,
            next_trigger_tick: NEVER,
            linked_timer,
        }
    }

    /// The timer after `value` is written to control A at `tick`: the reset
    /// bit clears the done flag, and the timer is scheduled one period ahead
    /// if the new value makes it clocked, unscheduled otherwise.
    pub open spec fn with_control_a(self, value: u8, tick: u64) -> Countdown {
        let written = Countdown {
            control_a: value,
            control_b: if value & CTRLA_RESET_DONE_BIT != 0 {
                self.control_b & !CTRLB_TIMER_DONE_BIT
            } else {
                self.control_b
            },
            ..self
        };
        Countdown {
            next_trigger_tick: if written.clocked() {
                (tick + written.clock_ticks()) as u64
            } else {
                NEVER
            },
            ..written
        }
    }

    /// The timer after `value` is written to the counter at `tick`: a clocked
    /// timer given a count other than zero is scheduled one period ahead.
    pub open spec fn with_count(self, value: u8, tick: u64) -> Countdown {
        Countdown {
            count: value,
            next_trigger_tick: if self.clocked() && value != 0 {
                (tick + self.clock_ticks()) as u64
            } else {
                self.next_trigger_tick
            },
            ..self
        }
    }

    /// A count-down step expires the timer when the counter is already zero.
    pub open spec fn expires(self) -> bool {
        self.count == 0
    }

    /// The timer after one count-down step. Borrow-in is set and borrow-out
    /// cleared; a counter above zero is decremented; a counter at zero is
    /// reloaded from the backup if reload is enabled, else the timer is
    /// unscheduled, and either way done and borrow-out are set.
    pub open spec fn counted_down(self) -> Countdown {
        let borrowed = (self.control_b & !CTRLB_BORROW_OUT_BIT) | CTRLB_BORROW_IN_BIT;
        if self.count > 0 {
            Countdown { count: (self.count - 1) as u8, control_b: borrowed, ..self }
        } else {
            Countdown {
                count: if self.reload_enabled() {
                    self.backup
                } else {
                    self.count
                },
                next_trigger_tick: if self.reload_enabled() {
                    self.next_trigger_tick
                } else {
                    NEVER
                },
                control_b: borrowed | (CTRLB_TIMER_DONE_BIT | CTRLB_BORROW_OUT_BIT),
                ..self
            }
        }
    }
}

/// A period code is at most 7, and the clock of a period below 7 runs from 16
/// to 1024 ticks; shifting the base unit left by the period computes it.
pub proof fn lemma_clock_ticks(control_a: u8)
    ensures
        period_of(control_a) <= 7,
        period_of(control_a) < 7 ==> 16 <= clock_ticks_of(control_a) <= 1024,
        period_of(control_a) < 7 ==> clock_ticks_of(control_a) == ((TIMER_TICKS_COUNT as u32)
            << (period_of(control_a) as u32)),
{
    let p = period_of(control_a);
    assert(control_a & 0b111 <= 7) by (bit_vector);
    lemma2_to64();
    let s = p as u32;
    assert(s < 7 ==> (16u32 << s) == if s == 0 {
        16u32
    } else if s == 1 {
        32u32
    } else if s == 2 {
        64u32
    } else if s == 3 {
        128u32
    } else if s == 4 {
        256u32
    } else if s == 5 {
        512u32
    } else {
        1024u32
    }) by (bit_vector);
}

/// At power-on control A is zero: the timer is stopped, not linked, and its
/// clock is the fastest.
pub proof fn lemma_power_on()
    ensures
        period_of(0) == 0,
        !Countdown::arms(0),
        0u8 & CTRLA_ENABLE_COUNT_BIT == 0,
        0u8 & CTRLA_ENABLE_RELOAD_BIT == 0,
        clock_ticks_of(0) == TIMER_TICKS_COUNT,
{
    lemma_clock_ticks(0);
    assert(0u8 & 0b111 == 0 && 0u8 & 0b1000 == 0 && 0u8 & 0b10000 == 0 && 16u32 << 0u32 == 16)
        by (bit_vector);
}

} // verus!
