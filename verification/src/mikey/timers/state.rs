//! The timer block as contracts see it: the registers of all twelve timers,
//! and what a clock pass and a register access do to them.

use vstd::prelude::*;
use crate::mikey::timers::audio_channel_timer::{signed, AudioChannelTimer, AudioSettings};
use crate::mikey::timers::base_timer::BaseTimer;
use crate::mikey::timers::countdown::Countdown;
use crate::mikey::timers::{TimerReg, MAX_TICK};
use crate::mikey::{AUD0VOL, AUD_END, MIK_ADDR};

verus! {

/// The timer that timer `id` pulses when it expires. The first five base
/// timers form a chain that ends at timer 4, timers 5 and 6 a chain of their
/// own; timer 7 feeds the audio channels, and the last of those feeds
/// timer 0.
pub open spec fn timer_link(id: int) -> Option<u8> {
    if id == 0 {
        Some(1u8)
    } else if id == 1 {
        Some(2u8)
    } else if id == 2 {
        Some(3u8)
    } else if id == 3 {
        Some(4u8)
    } else if id == 5 {
        Some(6u8)
    } else if id == 7 {
        Some(8u8)
    } else if id == 8 {
        Some(9u8)
    } else if id == 9 {
        Some(10u8)
    } else if id == 10 {
        Some(11u8)
    } else if id == 11 {
        Some(0u8)
    } else {
        None
    }
}

/// How many timers lie downstream of timer `id`. Every link leads to a timer
/// of smaller rank, so no chain of pulses runs in a circle.
pub open spec fn link_rank(id: int) -> nat {
    if id == 7 {
        9
    } else if 8 <= id <= 11 {
        (16 - id) as nat
    } else if 0 <= id <= 4 {
        (4 - id) as nat
    } else if id == 5 {
        1
    } else {
        0
    }
}

/// Whether `addr` is the address of a timer register.
pub open spec fn mapped(addr: u16) -> bool {
    MIK_ADDR <= addr < AUD_END
}

/// The timer and the register that `addr` names. Each base timer has four
/// registers in a row from `MIK_ADDR` on, each audio channel eight from
/// `AUD0VOL` on.
pub open spec fn decode(addr: u16) -> (int, TimerReg) {
    if addr < AUD0VOL {
        let offset = addr - MIK_ADDR;
        (
            offset / 4,
            if offset % 4 == 0 {
                TimerReg::Backup
            } else if offset % 4 == 1 {
                TimerReg::ControlA
            } else if offset % 4 == 2 {
                TimerReg::Count
            } else {
                TimerReg::ControlB
            },
        )
    } else {
        let offset = addr - AUD0VOL;
        (
            offset / 8 + 8,
            if offset % 8 == 0 {
                TimerReg::Volume
            } else if offset % 8 == 1 {
                TimerReg::Feedback
            } else if offset % 8 == 2 {
                TimerReg::Output
            } else if offset % 8 == 3 {
                TimerReg::ShiftRegister
            } else if offset % 8 == 4 {
                TimerReg::Backup
            } else if offset % 8 == 5 {
                TimerReg::ControlA
            } else if offset % 8 == 6 {
                TimerReg::Count
            } else {
                TimerReg::ControlB
            },
        )
    }
}

/// The address of register `reg` of timer `id`.
pub open spec fn address_of(id: int, reg: TimerReg) -> int {
    if id < 8 {
        MIK_ADDR + 4 * id + match reg {
            TimerReg::Backup => 0int,
            TimerReg::ControlA => 1,
            TimerReg::Count => 2,
            _ => 3,
        }
    } else {
        AUD0VOL + 8 * (id - 8) + match reg {
            TimerReg::Volume => 0int,
            TimerReg::Feedback => 1,
            TimerReg::Output => 2,
            TimerReg::ShiftRegister => 3,
            TimerReg::Backup => 4,
            TimerReg::ControlA => 5,
            TimerReg::Count => 6,
            TimerReg::ControlB => 7,
        }
    }
}

/// A signed byte as the byte that holds it in two's complement.
pub open spec fn unsigned(v: i8) -> u8 {
    if v >= 0 {
        v as u8
    } else {
        (v + 256) as u8
    }
}

/// The registers of the timer block.
pub struct TimersView {
    /// The twelve timers: base timers 0 to 7, then audio channels 8 to 11.
    pub timers: Seq<Countdown>,
    /// For each base timer, whether it has expired since the flag was last
    /// taken.
    pub triggered: Seq<bool>,
    /// The sound registers of audio channels 8 to 11.
    pub audio: Seq<AudioSettings>,
    /// The tick of the last clock pass.
    pub ticks: u64,
}

impl TimersView {
    /// Slot `i` is well formed: its timer is, with its own id and its link
    /// in the chain, and an audio channel is silenced exactly if its backup
    /// is 0 and its feedback 1.
    pub open spec fn slot_wf(self, i: int) -> bool {
        &&& self.timers[i].wf()
        &&& self.timers[i].id == i
        &&& self.timers[i].linked_timer == timer_link(i)
        &&& i >= 8 ==> self.audio[i - 8].disabled == (self.timers[i].backup == 0 && self.audio[i
            - 8].feedback == 1)
    }

    /// The block has twelve timers, eight expiry flags and four sets of
    /// sound registers.
    pub open spec fn shaped(self) -> bool {
        &&& self.timers.len() == 12
        &&& self.triggered.len() == 8
        &&& self.audio.len() == 4
    }

    /// The registers are well formed: every slot is, and the last pass was
    /// in time.
    pub open spec fn wf(self) -> bool {
        &&& self.shaped()
        &&& forall|i: int| 0 <= i < 12 ==> #[trigger] self.slot_wf(i)
        &&& self.ticks <= MAX_TICK
    }

    /// The timer block at power-on.
    pub open spec fn initial() -> TimersView {
        TimersView {
            timers: Seq::new(12, |i: int| Countdown::initial(i as u8, timer_link(i))),
            triggered: Seq::new(8, |i: int| false),
            audio: Seq::new(4, |i: int| AudioSettings::silent()),
            ticks: 0,
        }
    }

    /// The block after timer `id` alone takes a pulse from its predecessor.
    pub open spec fn pulse_timer(self, id: int) -> TimersView {
        if id < 8 {
            TimersView {
                timers: self.timers.update(id, BaseTimer::pulsed(self.timers[id])),
                triggered: self.triggered.update(
                    id,
                    self.triggered[id] || BaseTimer::pulse_expires(self.timers[id]),
                ),
                ..self
            }
        } else {
            let after = AudioChannelTimer::pulsed(self.timers[id], self.audio[id - 8]);
            TimersView {
                timers: self.timers.update(id, after.0),
                audio: self.audio.update(id - 8, after.1),
                ..self
            }
        }
    }

    /// Whether a pulse from its predecessor expires timer `id`.
    pub open spec fn pulse_expires(self, id: int) -> bool {
        if id < 8 {
            BaseTimer::pulse_expires(self.timers[id])
        } else {
            AudioChannelTimer::pulse_expires(self.timers[id], self.audio[id - 8])
        }
    }

    /// The block after the clock drives timer `id` alone at `tick`.
    pub open spec fn tick_timer(self, id: int, tick: u64) -> TimersView {
        if id < 8 {
            TimersView {
                timers: self.timers.update(id, BaseTimer::ticked(self.timers[id], tick)),
                triggered: self.triggered.update(
                    id,
                    self.triggered[id] || BaseTimer::tick_expires(self.timers[id]),
                ),
                ..self
            }
        } else {
            let after = AudioChannelTimer::ticked(self.timers[id], self.audio[id - 8], tick);
            TimersView {
                timers: self.timers.update(id, after.0),
                audio: self.audio.update(id - 8, after.1),
                ..self
            }
        }
    }

    /// Whether a clock tick expires timer `id`.
    pub open spec fn tick_expires(self, id: int) -> bool {
        if id < 8 {
            BaseTimer::tick_expires(self.timers[id])
        } else {
            AudioChannelTimer::tick_expires(self.timers[id], self.audio[id - 8])
        }
    }

    /// The interrupt bit that an expiry of timer `id` raises. Audio timers
    /// raise none.
    pub open spec fn interrupt(self, id: int) -> u8 {
        if id < 8 {
            BaseTimer::interrupt(self.timers[id])
        } else {
            0
        }
    }

    /// The block after timer `id` takes a pulse, and the interrupt bits
    /// raised. If the pulse expires the timer, its successor takes a pulse
    /// in turn, and so on down the chain; the bits of all expiries are or-ed.
    pub open spec fn pulsed(self, id: int) -> (TimersView, u8)
        decreases link_rank(id),
    {
        if !(0 <= id < 12) || !self.pulse_expires(id) {
            (self.pulse_timer(id), 0)
        } else {
            match timer_link(id) {
                None => (self.pulse_timer(id), self.interrupt(id)),
                Some(next) => {
                    let rest = self.pulse_timer(id).pulsed(next as int);
                    (rest.0, self.interrupt(id) | rest.1)
                },
            }
        }
    }

    /// Whether timer `id` is due at `tick`.
    pub open spec fn due(self, id: int, tick: u64) -> bool {
        self.timers[id].next_trigger_tick <= tick
    }

    /// Timer `id`'s turn in a clock pass at `tick`: the block after it, and
    /// the interrupt bits raised. A timer that is not due is passed over. One
    /// that is due is driven by the clock, and if that expires it, its
    /// successor takes a pulse.
    pub open spec fn turn(self, id: int, tick: u64) -> (TimersView, u8) {
        if !self.due(id, tick) {
            (self, 0)
        } else if !self.tick_expires(id) {
            (self.tick_timer(id, tick), 0)
        } else {
            match timer_link(id) {
                None => (self.tick_timer(id, tick), self.interrupt(id)),
                Some(next) => {
                    let rest = self.tick_timer(id, tick).pulsed(next as int);
                    (rest.0, self.interrupt(id) | rest.1)
                },
            }
        }
    }

    /// The first `n` turns of a clock pass at `tick`, timer 0 first: the
    /// block after them, and the interrupt bits raised so far.
    pub open spec fn turns(self, n: nat, tick: u64) -> (TimersView, u8)
        decreases n,
    {
        if n == 0 {
            (TimersView { ticks: tick, ..self }, 0)
        } else {
            let before = self.turns((n - 1) as nat, tick);
            let after = before.0.turn(n - 1, tick);
            (after.0, before.1 | after.1)
        }
    }

    /// Whether a pulse into timer `id` expires timer `target`: timer `id`
    /// itself, or one further down the chain that the pulse reaches.
    pub open spec fn pulse_expires_timer(self, id: int, target: int) -> bool
        decreases link_rank(id),
    {
        if !(0 <= id < 12) || !self.pulse_expires(id) {
            false
        } else if id == target {
            true
        } else {
            match timer_link(id) {
                None => false,
                Some(next) => self.pulse_timer(id).pulse_expires_timer(next as int, target),
            }
        }
    }

    /// Whether timer `id`'s turn in a clock pass at `tick` expires timer
    /// `target`: the clock expires timer `id` itself, or the pulse that its
    /// expiry sends down the chain expires timer `target`.
    pub open spec fn turn_expires_timer(self, id: int, tick: u64, target: int) -> bool {
        if !self.due(id, tick) || !self.tick_expires(id) {
            false
        } else if id == target {
            true
        } else {
            match timer_link(id) {
                None => false,
                Some(next) => self.tick_timer(id, tick).pulse_expires_timer(next as int, target),
            }
        }
    }

    /// Whether one of the first `n` turns of a clock pass at `tick` expires
    /// timer `target`.
    pub open spec fn turns_expire_timer(self, n: nat, tick: u64, target: int) -> bool
        decreases n,
    {
        n > 0 && (self.turns_expire_timer((n - 1) as nat, tick, target) || self.turns(
            (n - 1) as nat,
            tick,
        ).0.turn_expires_timer(n - 1, tick, target))
    }

    /// Whether a clock pass at `tick` expires timer `target`.
    pub open spec fn pass_expires_timer(self, tick: u64, target: int) -> bool {
        self.turns_expire_timer(12, tick, target)
    }

    /// A clock pass at `tick`: the block after all twelve turns, the
    /// interrupt bits raised, and whether the pass expired timer 4, be its
    /// interrupt enabled or not.
    pub open spec fn ticked_all(self, tick: u64) -> (TimersView, u8, bool) {
        let pass = self.turns(12, tick);
        (pass.0, pass.1, self.pass_expires_timer(tick, 4))
    }

    /// The block after the expiry flag of base timer `id` is taken, and
    /// whether the flag was up.
    pub open spec fn flag_taken(self, id: int) -> (TimersView, bool) {
        (TimersView { triggered: self.triggered.update(id, false), ..self }, self.triggered[id])
    }

    /// The byte read at `addr`.
    pub open spec fn read(self, addr: u16) -> u8 {
        let (i, reg) = decode(addr);
        match reg {
            TimerReg::Backup => self.timers[i].backup,
            TimerReg::ControlA => self.timers[i].control_a,
            TimerReg::Count => self.timers[i].count,
            TimerReg::ControlB => self.timers[i].control_b,
            TimerReg::Volume => self.audio[i - 8].volume,
            TimerReg::Feedback => self.audio[i - 8].feedback,
            TimerReg::Output => unsigned(self.audio[i - 8].output),
            TimerReg::ShiftRegister => self.audio[i - 8].shift_register,
        }
    }

    /// The block after timer `i` becomes `c`.
    pub open spec fn with_timer(self, i: int, c: Countdown) -> TimersView {
        TimersView { timers: self.timers.update(i, c), ..self }
    }

    /// The block after the sound registers of audio timer `i` become `s`.
    pub open spec fn with_audio(self, i: int, s: AudioSettings) -> TimersView {
        TimersView { audio: self.audio.update(i - 8, s), ..self }
    }

    /// The block after `v` is written at `addr`. Control A and the counter
    /// are written at the tick of the last clock pass. A write to the backup
    /// or the feedback register of an audio channel silences the channel if
    /// it leaves the backup 0 and the feedback 1, and wakes it otherwise.
    pub open spec fn written(self, addr: u16, v: u8) -> TimersView {
        let (i, reg) = decode(addr);
        let c = self.timers[i];
        let s = self.audio[i - 8];
        match reg {
            TimerReg::Backup => {
                let stored = self.with_timer(i, Countdown { backup: v, ..c });
                if i < 8 {
                    stored
                } else {
                    stored.with_audio(i, AudioSettings { disabled: v == 0 && s.feedback == 1, ..s })
                }
            },
            TimerReg::ControlA => self.with_timer(i, c.with_control_a(v, self.ticks)),
            TimerReg::Count => self.with_timer(i, c.with_count(v, self.ticks)),
            TimerReg::ControlB => self.with_timer(i, Countdown { control_b: v, ..c }),
            TimerReg::Volume => self.with_audio(i, AudioSettings { volume: v, ..s }),
            TimerReg::Feedback => self.with_audio(
                i,
                AudioSettings { feedback: v, disabled: c.backup == 0 && v == 1, ..s },
            ),
            TimerReg::Output => self.with_audio(i, AudioSettings { output: signed(v), ..s }),
            TimerReg::ShiftRegister => self.with_audio(i, AudioSettings { shift_register: v, ..s }),
        }
    }
}

/// A well-formed block stays well formed when it keeps its shape, every
/// slot that was well formed still is, and the last pass was in time.
pub proof fn slots_keep_well_formed(before: TimersView, after: TimersView)
    requires
        before.wf(),
        after.shaped(),
        after.ticks <= MAX_TICK,
        forall|i: int| 0 <= i < 12 && before.slot_wf(i) ==> #[trigger] after.slot_wf(i),
    ensures
        after.wf(),
{
    assert forall|i: int| 0 <= i < 12 implies #[trigger] after.slot_wf(i) by {
        assert(before.slot_wf(i));
    }
}

} // verus!
