//! A general countdown timer: it counts clock ticks or its predecessor's
//! expiries, and on expiry raises its interrupt bit and a sticky flag.

use vstd::prelude::*;
use vstd::arithmetic::power2::pow2;
use crate::mikey::timers::countdown::{
    clock_ticks_of, lemma_clock_ticks, lemma_power_on, period_of, Countdown,
};
use crate::mikey::timers::{
    CTRLA_ENABLE_COUNT_BIT, CTRLA_ENABLE_RELOAD_BIT, CTRLA_INTERRUPT_BIT, CTRLA_PERIOD_BIT,
    CTRLA_RESET_DONE_BIT, CTRLB_BORROW_IN_BIT, CTRLB_BORROW_OUT_BIT, CTRLB_TIMER_DONE_BIT, NEVER,
    TIMER_TICKS_COUNT,
};

verus! {

#[derive(Clone, Copy, Debug)]
/// A base timer: its registers, and beside them the control bits and the
/// clock that control A decodes to.
pub struct BaseTimer {
    id: u8,
    backup: u8,
    control_a: u8,
    count: u8,
    control_b: u8,
    clock_ticks: Option<u32>,
    next_trigger_tick: u64,
    linked_timer: Option<u8>,
    is_linked: bool,
    count_enabled: bool,
    reload_enabled: bool,
}

impl View for BaseTimer {
    type V = Countdown;

    closed spec fn view(&self) -> Countdown {
        Countdown {
            id: self.id,
            backup: self.backup,
            control_a: self.control_a,
            count: self.count,
            control_b: self.control_b,
            next_trigger_tick: self.next_trigger_tick,
            linked_timer: self.linked_timer,
        }
    }
}

impl BaseTimer {
    /// The interrupt bit of base timer `id`.
    pub open spec fn interrupt_mask(id: u8) -> u8 {
        1u8 << id
    }

    /// The interrupt bit that an expiry of `c` raises: its own, if control A
    /// enables the interrupt.
    pub open spec fn interrupt(c: Countdown) -> u8 {
        if c.interrupt_enabled() {
            Self::interrupt_mask(c.id)
        } else {
            0
        }
    }

    /// The timer after the clock drives it at `tick`. Borrow-in is cleared;
    /// a disabled timer is unscheduled; an enabled one is scheduled one
    /// period ahead and counts down once.
    pub open spec fn ticked(c: Countdown, tick: u64) -> Countdown {
        let cleared = Countdown { control_b: c.control_b & !CTRLB_BORROW_IN_BIT, ..c };
        if !c.count_enabled() {
            Countdown { next_trigger_tick: NEVER, ..cleared }
        } else {
            Countdown {
                next_trigger_tick: (tick + c.clock_ticks()) as u64,
                ..cleared
            }.counted_down()
        }
    }

    /// Whether a clock tick expires the timer.
    pub open spec fn tick_expires(c: Countdown) -> bool {
        c.count_enabled() && c.expires()
    }

    /// Whether a pulse from the predecessor reaches the counter: only a
    /// linked, enabled timer counts pulses.
    pub open spec fn hears_pulse(c: Countdown) -> bool {
        c.is_linked() && c.count_enabled()
    }

    /// The timer after a pulse from its predecessor.
    pub open spec fn pulsed(c: Countdown) -> Countdown {
        if Self::hears_pulse(c) {
            c.counted_down()
        } else {
            c
        }
    }

    /// Whether a pulse from the predecessor expires the timer.
    pub open spec fn pulse_expires(c: Countdown) -> bool {
        Self::hears_pulse(c) && c.expires()
    }

    /// The decoded control bits and the clock agree with control A.
    pub closed spec fn decoded(&self) -> bool {
        &&& self.is_linked == self@.is_linked()
        &&& self.count_enabled == self@.count_enabled()
        &&& self.reload_enabled == self@.reload_enabled()
        &&& self.clock_ticks == if self@.is_linked() {
            None
        } else {
            Some(self@.clock_ticks() as u32)
        }
    }

    /// The timer is well formed: what is decoded agrees with control A, and
    /// only a clocked timer is scheduled.
    pub open spec fn wf(&self) -> bool {
        &&& self.decoded()
        &&& self@.wf()
        &&& self@.id < 8
    }

    /// Timer `id` at power-on, with the timer that it pulses when it expires.
    pub fn new(id: u8, linked_timer: Option<u8>) -> (r: Self)
        requires
            id < 8,
        ensures
            r.wf(),
            r@ == Countdown::initial(id, linked_timer),
    {
        proof {
            lemma_power_on();
        }
        Self {
            id,
            backup: 0,
            control_a: 0,
            count: 0,
            control_b: 0,
            clock_ticks: Some(TIMER_TICKS_COUNT as u32),
            next_trigger_tick: NEVER,
            linked_timer,
            is_linked: false,
            count_enabled: false,
            reload_enabled: false,
        }
    }

    /// The timer that this one pulses when it expires.
    pub fn linked_timer(&self) -> (r: Option<u8>)
        ensures
            r == self@.linked_timer,
    {
        self.linked_timer
    }

    pub fn id(&self) -> (r: u8)
        ensures
            r == self@.id,
    {
        self.id
    }

    pub fn backup(&self) -> (r: u8)
        ensures
            r == self@.backup,
    {
        self.backup
    }

    /// Writes the backup register.
    pub fn set_backup(&mut self, v: u8)
        ensures
            final(self)@ == (Countdown { backup: v, ..old(self)@ }),
            old(self).wf() ==> final(self).wf(),
    {
        self.backup = v;
    }

    pub fn control_a(&self) -> (r: u8)
        ensures
            r == self@.control_a,
    {
        self.control_a
    }

    pub fn control_b(&self) -> (r: u8)
        ensures
            r == self@.control_b,
    {
        self.control_b
    }

    pub fn count(&self) -> (r: u8)
        ensures
            r == self@.count,
    {
        self.count
    }

    /// The tick at which the clock next drives the timer, or `NEVER`.
    pub fn next_trigger_tick(&self) -> (r: u64)
        ensures
            r == self@.next_trigger_tick,
    {
        self.next_trigger_tick
    }

    /// Whether the timer counts its predecessor's expiries.
    pub fn is_linked(&self) -> (r: bool)
        requires
            self.wf(),
        ensures
            r == self@.is_linked(),
    {
        self.is_linked
    }

    /// Clears the done flag of control B.
    pub fn reset_timer_done(&mut self)
        ensures
            final(self)@ == (Countdown {
                control_b: old(self)@.control_b & !CTRLB_TIMER_DONE_BIT,
                ..old(self)@
            }),
            old(self).wf() ==> final(self).wf(),
    {
        self.control_b = self.control_b & !CTRLB_TIMER_DONE_BIT;
    }

    /// Writes control B.
    pub fn set_control_b(&mut self, value: u8)
        ensures
            final(self)@ == (Countdown { control_b: value, ..old(self)@ }),
            old(self).wf() ==> final(self).wf(),
    {
        self.control_b = value;
    }

    fn period(&self) -> (r: u8)
        ensures
            r == self@.period(),
            r <= 7,
    {
        proof {
            lemma_clock_ticks(self.control_a);
        }
        self.control_a & CTRLA_PERIOD_BIT
    }

    fn interrupt_enabled(&self) -> (r: bool)
        ensures
            r == self@.interrupt_enabled(),
    {
        self.control_a & CTRLA_INTERRUPT_BIT != 0
    }

    /// Writes control A at `current_tick`.
    pub fn set_control_a(&mut self, value: u8, current_tick: u64)
        requires
            old(self).wf(),
            Countdown::arms(value) ==> current_tick + clock_ticks_of(value) <= u64::MAX,
        ensures
            final(self).wf(),
            final(self)@ == old(self)@.with_control_a(value, current_tick),
            period_of(value) == 7 ==> final(self)@.is_linked() && final(self)@.next_trigger_tick
                == NEVER,
    {
        if value & CTRLA_RESET_DONE_BIT != 0 {
            self.reset_timer_done();
        }
        self.control_a = value;
        let p = self.period();
        proof {
            lemma_clock_ticks(value);
        }
        self.clock_ticks = if p == 7 {
            None
        } else {
            Some((TIMER_TICKS_COUNT as u32) << (p as u32))
        };
        self.is_linked = p == 7;
        self.count_enabled = value & CTRLA_ENABLE_COUNT_BIT != 0;
        self.reload_enabled = value & CTRLA_ENABLE_RELOAD_BIT != 0;
        if !self.is_linked && self.count_enabled {
            self.next_trigger_tick = current_tick + self.clock_ticks.unwrap() as u64;
        } else {
            self.next_trigger_tick = NEVER;
        }
    }

    /// Writes the counter at `current_tick`.
    pub fn set_count(&mut self, value: u8, current_tick: u64)
        requires
            old(self).wf(),
            old(self)@.clocked() && value != 0 ==> old(self)@.can_schedule(current_tick),
        ensures
            final(self).wf(),
            final(self)@ == old(self)@.with_count(value, current_tick),
    {
        self.count = value;
        if !self.is_linked && self.count_enabled && value != 0 {
            proof {
                lemma_clock_ticks(self.control_a);
            }
            self.next_trigger_tick = current_tick + self.clock_ticks.unwrap() as u64;
        }
    }

    /// One count-down step. Returns whether the timer expired, and with an
    /// expiry the interrupt bit it raises; an expiry also sets `triggered`.
    fn count_down(&mut self, triggered: &mut bool) -> (r: (bool, u8))
        requires
            old(self).wf(),
        ensures
            final(self).wf(),
            final(self)@ == old(self)@.counted_down(),
            r.0 == old(self)@.expires(),
            r.1 == (if r.0 {
                Self::interrupt(old(self)@)
            } else {
                0
            }),
            *final(triggered) == (*old(triggered) || r.0),
    {
        self.control_b = (self.control_b & !CTRLB_BORROW_OUT_BIT) | CTRLB_BORROW_IN_BIT;
        if self.count > 0 {
            self.count = self.count - 1;
            return (false, 0);
        }
        if self.reload_enabled {
            self.count = self.backup;
        } else {
            self.next_trigger_tick = NEVER;
        }
        self.done(triggered);
        let raised: u8 = if self.interrupt_enabled() {
            1u8 << self.id
        } else {
            0
        };
        (true, raised)
    }

    /// Marks the expiry: done and borrow-out in control B, and the flag.
    fn done(&mut self, triggered: &mut bool)
        ensures
            final(self)@ == (Countdown {
                control_b: old(self)@.control_b | (CTRLB_TIMER_DONE_BIT | CTRLB_BORROW_OUT_BIT),
                ..old(self)@
            }),
            old(self).wf() ==> final(self).wf(),
            *final(triggered),
    {
        self.control_b = self.control_b | (CTRLB_TIMER_DONE_BIT | CTRLB_BORROW_OUT_BIT);
        *triggered = true;
    }

    /// A pulse from the predecessor: a linked, enabled timer counts down
    /// once, any other timer ignores it. Returns whether the timer expired,
    /// and with an expiry the interrupt bit it raises; an expiry also sets
    /// `triggered`.
    pub fn tick_linked(&mut self, triggered: &mut bool) -> (r: (bool, u8))
        requires
            old(self).wf(),
        ensures
            final(self).wf(),
            final(self)@ == Self::pulsed(old(self)@),
            r.0 == Self::pulse_expires(old(self)@),
            r.1 == (if r.0 {
                Self::interrupt(old(self)@)
            } else {
                0
            }),
            *final(triggered) == (*old(triggered) || r.0),
    {
        if !self.is_linked {
            return (false, 0);
        }
        if self.count_enabled {
            return self.count_down(triggered);
        }
        (false, 0)
    }

    /// The clock drives the timer at `current_tick`. Returns whether the
    /// timer expired, and with an expiry the interrupt bit it raises; an
    /// expiry also sets `triggered`.
    pub fn tick(&mut self, current_tick: u64, triggered: &mut bool) -> (r: (bool, u8))
        requires
            old(self).wf(),
            old(self)@.count_enabled() ==> old(self)@.clocked() && old(self)@.can_schedule(
                current_tick,
            ),
        ensures
            final(self).wf(),
            final(self)@ == Self::ticked(old(self)@, current_tick),
            old(self)@.clocked() && (!old(self)@.expires() || old(self)@.reload_enabled())
                ==> final(self)@.next_trigger_tick == current_tick + TIMER_TICKS_COUNT * pow2(
                old(self)@.period() as nat,
            ),
            r.0 == Self::tick_expires(old(self)@),
            r.1 == (if r.0 {
                Self::interrupt(old(self)@)
            } else {
                0
            }),
            *final(triggered) == (*old(triggered) || r.0),
    {
        self.control_b = self.control_b & !CTRLB_BORROW_IN_BIT;
        if !self.count_enabled {
            self.next_trigger_tick = NEVER;
            return (false, 0);
        }
        proof {
            lemma_clock_ticks(self.control_a);
        }
        self.next_trigger_tick = current_tick + self.clock_ticks.unwrap() as u64;
        self.count_down(triggered)
    }
}

} // verus!
