//! The twelve timers and the register file that drives them.

use vstd::prelude::*;
use vstd::pervasive::unreached;
use crate::mikey::timers::audio_channel_timer::{signed, AudioChannelTimer, AudioSettings};
use crate::mikey::timers::base_timer::BaseTimer;
use crate::mikey::timers::countdown::{lemma_clock_ticks, Countdown};
use crate::mikey::timers::state::{
    decode, link_rank, mapped, slots_keep_well_formed, timer_link, unsigned, TimersView,
};
use crate::mikey::{AUD0VOL, MIK_ADDR, TIM4CTLA};

pub mod audio_channel_timer;
pub mod base_timer;
pub mod countdown;
pub mod laws;
pub mod pass_laws;
pub mod state;

verus! {

/// Clock ticks in one microsecond, the period of the fastest timer clock.
pub const TIMER_TICKS_COUNT: u16 = 16;

/// The number of timers: eight base timers, then four audio channels.
pub const TIMER_COUNT: u8 = 12;

/// The trigger tick of a timer that is not scheduled.
pub const NEVER: u64 = 0xFFFF_FFFF_FFFF_FFFF;

/// The last tick at which the clock may run: the tick one period of the
/// slowest timer after it still fits the tick counter.
pub const MAX_TICK: u64 = 0xFFFF_FFFF_FFFF_FBFF;

/// Control A: an expiry raises the timer's interrupt.
pub const CTRLA_INTERRUPT_BIT: u8 = 0b10000000;

/// Control A: writing it clears the done flag of control B.
pub const CTRLA_RESET_DONE_BIT: u8 = 0b01000000;

/// Control A of an audio channel: samples are summed up.
pub const CTRLA_MAGMODE_BIT: u8 = 0b00100000;

/// Control A: an expiry reloads the counter from the backup.
pub const CTRLA_ENABLE_RELOAD_BIT: u8 = 0b00010000;

/// Control A: the timer counts.
pub const CTRLA_ENABLE_COUNT_BIT: u8 = 0b00001000;

/// Control A: the bits of the period code.
pub const CTRLA_PERIOD_BIT: u8 = 0b00000111;

/// Control B: the timer has expired since the flag was last reset.
pub const CTRLB_TIMER_DONE_BIT: u8 = 0b00001000;

/// Control B: the last clock.
pub const CTRLB_LAST_CLOCK_BIT: u8 = 0b00000100;

/// Control B: the last step counted down.
pub const CTRLB_BORROW_IN_BIT: u8 = 0b00000010;

/// Control B: the last step expired the timer.
pub const CTRLB_BORROW_OUT_BIT: u8 = 0b00000001;

/// The registers of a timer. A base timer has the first four, an audio
/// channel all eight.
#[derive(Clone, Copy, PartialEq, PartialOrd, Debug)]
pub enum TimerReg {
    Backup,
    ControlA,
    Count,
    ControlB,
    Volume,
    Feedback,
    Output,
    ShiftRegister,
}

impl TimerReg {
    /// Whether the register is one that only audio channels have.
    pub open spec fn is_sound(self) -> bool {
        self is Volume || self is Feedback || self is Output || self is ShiftRegister
    }
}

#[derive(Clone, Copy)]
enum TimerType {
    Base(BaseTimer),
    Audio(AudioChannelTimer),
}

impl TimerType {
    spec fn countdown(self) -> Countdown {
        match self {
            TimerType::Base(t) => t@,
            TimerType::Audio(t) => t@,
        }
    }

    spec fn wf(self) -> bool {
        match self {
            TimerType::Base(t) => t.wf(),
            TimerType::Audio(t) => t.wf(),
        }
    }
}

/// The successor of timer `id` in the chain of linked timers.
fn linked_successor(id: u8) -> (r: Option<u8>)
    ensures
        r == timer_link(id as int),
{
    match id {
        0 => Some(1),
        1 => Some(2),
        2 => Some(3),
        3 => Some(4),
        5 => Some(6),
        7 => Some(8),
        8 => Some(9),
        9 => Some(10),
        10 => Some(11),
        11 => Some(0),
        _ => None,
    }
}

/// The timer block: the twelve timers, the expiry flags of the base timers
/// and the sound registers of the audio channels.
pub struct Timers {
    timers: [TimerType; 12],
    timers_triggered: [bool; 8],
    audio_settings: [AudioSettings; 4],
    timer_triggers: [u64; 12],
    ticks: u64,
}

impl View for Timers {
    type V = TimersView;

    closed spec fn view(&self) -> TimersView {
        TimersView {
            timers: Seq::new(12, |i: int| self.timers[i].countdown()),
            triggered: self.timers_triggered@,
            audio: self.audio_settings@,
            ticks: self.ticks,
        }
    }
}

impl Timers {
    /// Slots 0 to 7 hold base timers and slots 8 to 11 audio timers, each
    /// well formed, and the cached trigger of each slot is its timer's.
    pub closed spec fn shaped(&self) -> bool {
        &&& forall|i: int|
            0 <= i < 12 ==> {
                &&& (#[trigger] self.timers[i]).wf()
                &&& (i < 8 <==> self.timers[i] is Base)
                &&& self.timer_triggers[i] == self.timers[i].countdown().next_trigger_tick
            }
    }

    /// The block is well formed: its slots are, and its registers.
    pub open spec fn wf(&self) -> bool {
        &&& self.shaped()
        &&& self@.wf()
    }

    /// The timer block at power-on: every timer stopped and unscheduled.
    pub fn new() -> (r: Self)
        ensures
            r.wf(),
            r@ == TimersView::initial(),
    {
        let r = Self {
            timers: [
                TimerType::Base(BaseTimer::new(0, linked_successor(0))),
                TimerType::Base(BaseTimer::new(1, linked_successor(1))),
                TimerType::Base(BaseTimer::new(2, linked_successor(2))),
                TimerType::Base(BaseTimer::new(3, linked_successor(3))),
                TimerType::Base(BaseTimer::new(4, linked_successor(4))),
                TimerType::Base(BaseTimer::new(5, linked_successor(5))),
                TimerType::Base(BaseTimer::new(6, linked_successor(6))),
                TimerType::Base(BaseTimer::new(7, linked_successor(7))),
                TimerType::Audio(AudioChannelTimer::new(8, linked_successor(8))),
                TimerType::Audio(AudioChannelTimer::new(9, linked_successor(9))),
                TimerType::Audio(AudioChannelTimer::new(10, linked_successor(10))),
                TimerType::Audio(AudioChannelTimer::new(11, linked_successor(11))),
            ],
            timer_triggers: [NEVER;12],
            audio_settings: [AudioSettings::default();4],
            timers_triggered: [false;8],
            ticks: 0,
        };
        assert(r@.timers =~= TimersView::initial().timers);
        assert(r@.triggered =~= TimersView::initial().triggered);
        assert(r@.audio =~= TimersView::initial().audio);
        r
    }

    /// Brings the cached trigger of slot `id` up to date.
    fn update_timer_trigger_tick(&mut self, id: usize)
        requires
            id < 12,
        ensures
            final(self).timers == old(self).timers,
            final(self).timers_triggered == old(self).timers_triggered,
            final(self).audio_settings == old(self).audio_settings,
            final(self).ticks == old(self).ticks,
            final(self).timer_triggers@ == old(self).timer_triggers@.update(
                id as int,
                old(self).timers[id as int].countdown().next_trigger_tick,
            ),
    {
        let tick = match &self.timers[id] {
            TimerType::Base(t) => t.next_trigger_tick(),
            TimerType::Audio(t) => t.next_trigger_tick(),
        };
        self.timer_triggers[id] = tick;
    }

    /// A pulse into timer `timer_id`; if it expires the timer, its successor
    /// takes a pulse in turn. Returns the interrupt bits raised, and whether
    /// timer 4 expired.
    fn tick_linked_timer(&mut self, timer_id: u8) -> (r: (u8, bool))
        requires
            old(self).wf(),
            timer_id < 12,
        ensures
            final(self).wf(),
            (final(self)@, r.0) == old(self)@.pulsed(timer_id as int),
            r.1 == old(self)@.pulse_expires_timer(timer_id as int, 4),
            final(self)@.ticks == old(self)@.ticks,
        decreases link_rank(timer_id as int),
    {
        let id = timer_id as usize;
        proof {
            assert(self@.slot_wf(id as int));
        }
        let (expired, raised, link) = match &mut self.timers[id] {
            TimerType::Base(t) => {
                let (expired, raised) = t.tick_linked(&mut self.timers_triggered[id]);
                (expired, raised, t.linked_timer())
            },
            TimerType::Audio(t) => {
                let (expired, raised) = t.tick_linked(&mut self.audio_settings[id - 8]);
                (expired, raised, t.linked_timer())
            },
        };
        self.update_timer_trigger_tick(id);
        proof {
            let after = old(self)@.pulse_timer(id as int);
            assert(self@.timers =~= after.timers);
            assert(self@.triggered =~= after.triggered);
            assert(self@.audio =~= after.audio);
            slots_keep_well_formed(old(self)@, self@);
        }
        if !expired {
            (0, false)
        } else {
            match link {
                None => (raised, id == 4),
                Some(next) => {
                    let (downstream, timer4) = self.tick_linked_timer(next);
                    (raised | downstream, id == 4 || timer4)
                },
            }
        }
    }

    /// Takes the expiry flag of timer 2, which times the vertical blank:
    /// true if the timer has expired since the flag was last taken.
    pub fn vsync(&mut self) -> (r: bool)
        requires
            old(self).wf(),
        ensures
            final(self).wf(),
            (final(self)@, r) == old(self)@.flag_taken(2),
    {
        if self.timers_triggered[2] {
            self.timers_triggered[2] = false;
            proof {
                assert(self@.triggered =~= old(self)@.triggered.update(2, false));
                slots_keep_well_formed(old(self)@, self@);
            }
            return true;
        }
        assert(self@.triggered =~= old(self)@.triggered.update(2, false));
        false
    }

    /// Takes the expiry flag of timer 0, which times the horizontal blank:
    /// true if the timer has expired since the flag was last taken.
    pub fn hsync(&mut self) -> (r: bool)
        requires
            old(self).wf(),
        ensures
            final(self).wf(),
            (final(self)@, r) == old(self)@.flag_taken(0),
    {
        if self.timers_triggered[0] {
            self.timers_triggered[0] = false;
            proof {
                assert(self@.triggered =~= old(self)@.triggered.update(0, false));
                slots_keep_well_formed(old(self)@, self@);
            }
            return true;
        }
        assert(self@.triggered =~= old(self)@.triggered.update(0, false));
        false
    }

    /// Timer `id`'s turn in the clock pass at `self.ticks`. Returns the
    /// interrupt bits raised, and whether timer 4 expired.
    fn tick_timer(&mut self, id: usize) -> (r: (u8, bool))
        requires
            old(self).wf(),
            id < 12,
        ensures
            final(self).wf(),
            (final(self)@, r.0) == old(self)@.turn(id as int, old(self)@.ticks),
            r.1 == old(self)@.turn_expires_timer(id as int, old(self)@.ticks, 4),
            final(self)@.ticks == old(self)@.ticks,
    {
        if self.timer_triggers[id] > self.ticks {
            return (0, false);
        }
        proof {
            let c = self@.timers[id as int];
            assert(self@.slot_wf(id as int));
            lemma_clock_ticks(c.control_a);
        }
        let (expired, raised, link) = match &mut self.timers[id] {
            TimerType::Base(t) => {
                let (expired, raised) = t.tick(self.ticks, &mut self.timers_triggered[id]);
                (expired, raised, t.linked_timer())
            },
            TimerType::Audio(t) => {
                let (expired, raised) = t.tick(self.ticks, &mut self.audio_settings[id - 8]);
                (expired, raised, t.linked_timer())
            },
        };
        self.update_timer_trigger_tick(id);
        proof {
            let after = old(self)@.tick_timer(id as int, self.ticks);
            assert(self@.timers =~= after.timers);
            assert(self@.triggered =~= after.triggered);
            assert(self@.audio =~= after.audio);
            slots_keep_well_formed(old(self)@, self@);
        }
        if !expired {
            (0, false)
        } else {
            match link {
                None => (raised, id == 4),
                Some(next) => {
                    let (downstream, timer4) = self.tick_linked_timer(next);
                    (raised | downstream, id == 4 || timer4)
                },
            }
        }
    }

    /// One clock pass at `current_tick`. Every timer that is due takes its
    /// turn, timer 0 first. Returns the interrupt bits raised, and whether
    /// timer 4 expired in the pass, be its interrupt enabled or not.
    pub fn tick_all(&mut self, current_tick: u64) -> (r: (u8, bool))
        requires
            old(self).wf(),
            current_tick <= MAX_TICK,
        ensures
            final(self).wf(),
            (final(self)@, r.0, r.1) == old(self)@.ticked_all(current_tick),
    {
        let mut mask: u8 = 0;
        let mut int4_triggered: bool = false;

        self.ticks = current_tick;
        proof {
            slots_keep_well_formed(old(self)@, self@);
        }

        for id in 0..8usize
            invariant
                self.wf(),
                self@.ticks == current_tick,
                (self@, mask) == old(self)@.turns(id as nat, current_tick),
                int4_triggered == old(self)@.turns_expire_timer(id as nat, current_tick, 4),
        {
            let (raised, timer4) = self.tick_timer(id);
            mask = mask | raised;
            if timer4 {
                int4_triggered = true;
            }
        }
        for id in 8..12usize
            invariant
                self.wf(),
                self@.ticks == current_tick,
                (self@, mask) == old(self)@.turns(id as nat, current_tick),
                int4_triggered == old(self)@.turns_expire_timer(id as nat, current_tick, 4),
        {
            let (raised, timer4) = self.tick_timer(id);
            mask = mask | raised;
            if timer4 {
                int4_triggered = true;
            }
        }

        (mask, int4_triggered)
    }

    /// The tick at which timer `id` is next due, or `NEVER`.
    pub fn timer_trigger(&self, id: usize) -> (r: u64)
        requires
            self.wf(),
            id < 12,
        ensures
            r == self@.timers[id as int].next_trigger_tick,
    {
        match &self.timers[id] {
            TimerType::Base(t) => t.next_trigger_tick(),
            TimerType::Audio(t) => t.next_trigger_tick(),
        }
    }

    /// The sample that audio channel `n` puts out; 0 for any other `n`.
    pub fn audio_out(&self, n: usize) -> (r: i16)
        requires
            self.wf(),
        ensures
            r == (if 8 <= n < 12 {
                self@.audio[n - 8].output as int
            } else {
                0
            }),
    {
        if n >= 8 && n < 12 {
            self.audio_settings[n - 8].output as i16
        } else {
            0
        }
    }

    /// The timer and the register that `addr` names.
    fn get_timer(&self, addr: u16) -> (r: (usize, TimerReg))
        requires
            mapped(addr),
        ensures
            (r.0 as int, r.1) == decode(addr),
            r.0 < 12,
            r.0 < 8 ==> !r.1.is_sound(),
    {
        if addr < AUD0VOL {
            let offset = addr - MIK_ADDR;
            (
                (offset / 4) as usize,
                match offset % 4 {
                    0 => TimerReg::Backup,
                    1 => TimerReg::ControlA,
                    2 => TimerReg::Count,
                    _ => TimerReg::ControlB,
                },
            )
        } else {
            let offset = addr - AUD0VOL;
            (
                ((offset / 8) + 8) as usize,
                match offset % 8 {
                    0 => TimerReg::Volume,
                    1 => TimerReg::Feedback,
                    2 => TimerReg::Output,
                    3 => TimerReg::ShiftRegister,
                    4 => TimerReg::Backup,
                    5 => TimerReg::ControlA,
                    6 => TimerReg::Count,
                    _ => TimerReg::ControlB,
                },
            )
        }
    }

    /// Whether control A of timer 4 enables its interrupt.
    pub fn timer4_interrupt_enabled(&self) -> (r: bool)
        requires
            self.wf(),
        ensures
            r == self@.timers[4].interrupt_enabled(),
    {
        self.peek(TIM4CTLA) & CTRLA_INTERRUPT_BIT != 0
    }

    /// Reads the timer register at `addr`.
    pub fn peek(&self, addr: u16) -> (r: u8)
        requires
            self.wf(),
            mapped(addr),
        ensures
            r == self@.read(addr),
    {
        let (index, cmd) = self.get_timer(addr);
        match &self.timers[index] {
            TimerType::Base(t) => match cmd {
                TimerReg::Backup => t.backup(),
                TimerReg::ControlA => t.control_a(),
                TimerReg::Count => t.count(),
                TimerReg::ControlB => t.control_b(),
                _ => unreached(),
            },
            TimerType::Audio(t) => {
                let settings = &self.audio_settings[index - 8];
                match cmd {
                    TimerReg::Backup => t.backup(),
                    TimerReg::ControlA => t.control_a(),
                    TimerReg::Count => t.count(),
                    TimerReg::ControlB => t.control_b(),
                    TimerReg::Volume => settings.volume,
                    TimerReg::Feedback => settings.feedback,
                    TimerReg::Output => {
                        let output = settings.output;
                        assert(output as u8 == unsigned(output)) by (bit_vector);
                        output as u8
                    },
                    TimerReg::ShiftRegister => settings.shift_register,
                }
            },
        }
    }

    /// Writes `v` to the timer register at `addr`.
    pub fn poke(&mut self, addr: u16, v: u8)
        requires
            old(self).wf(),
            mapped(addr),
        ensures
            final(self).wf(),
            final(self)@ == old(self)@.written(addr, v),
    {
        let (index, cmd) = self.get_timer(addr);
        proof {
            lemma_clock_ticks(v);
            let c = self@.timers[index as int];
            assert(self@.slot_wf(index as int));
            lemma_clock_ticks(c.control_a);
        }
        match &mut self.timers[index] {
            TimerType::Base(t) => match cmd {
                TimerReg::Backup => t.set_backup(v),
                TimerReg::ControlA => {
                    t.set_control_a(v, self.ticks);
                    self.update_timer_trigger_tick(index);
                },
                TimerReg::Count => {
                    t.set_count(v, self.ticks);
                    self.update_timer_trigger_tick(index);
                },
                TimerReg::ControlB => t.set_control_b(v),
                _ => unreached(),
            },
            TimerType::Audio(t) => {
                let settings = &mut self.audio_settings[index - 8];
                match cmd {
                    TimerReg::Backup => {
                        t.set_backup(v);
                        settings.disabled = t.backup() == 0 && settings.feedback == 1;
                    },
                    TimerReg::ControlA => {
                        t.set_control_a(v, self.ticks);
                        self.update_timer_trigger_tick(index);
                    },
                    TimerReg::Count => {
                        t.set_count(v, self.ticks);
                        self.update_timer_trigger_tick(index);
                    },
                    TimerReg::ControlB => t.set_control_b(v),
                    TimerReg::Volume => settings.volume = v,
                    TimerReg::Feedback => {
                        settings.feedback = v;
                        settings.disabled = t.backup() == 0 && settings.feedback == 1;
                    },
                    TimerReg::Output => {
                        assert(v as i8 == signed(v)) by (bit_vector);
                        settings.output = v as i8;
                    },
                    TimerReg::ShiftRegister => settings.shift_register = v,
                }
            },
        }
        proof {
            let after = old(self)@.written(addr, v);
            assert(self@.timers =~= after.timers);
            assert(self@.triggered =~= after.triggered);
            assert(self@.audio =~= after.audio);
            slots_keep_well_formed(old(self)@, self@);
        }
    }
}

impl Default for Timers {
    fn default() -> (r: Self)
        ensures
            r.wf(),
            r@ == TimersView::initial(),
    {
        Timers::new()
    }
}

} // verus!
