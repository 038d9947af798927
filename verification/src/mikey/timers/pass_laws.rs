//! What holds of the timer block over a clock pass: what a pass leaves
//! alone, how an expiry travels down a chain of linked timers, and how the
//! expiry flags and the interrupt mask follow the expiries.

use vstd::prelude::*;
use vstd::arithmetic::power2::pow2;
use crate::mikey::timers::audio_channel_timer::AudioSettings;
use crate::mikey::timers::base_timer::BaseTimer;
use crate::mikey::timers::countdown::lemma_clock_ticks;
use crate::mikey::timers::state::{
    address_of, decode, link_rank, mapped, slots_keep_well_formed, timer_link, TimersView,
};
use crate::mikey::timers::{TimerReg, MAX_TICK, NEVER, TIMER_TICKS_COUNT};
use crate::mikey::{AUD_END, MIK_ADDR};

verus! {

/// What no tick and no pulse changes of the sound registers: the volume, the
/// feedback register and the silencing; and every register of a silenced
/// channel.
pub open spec fn sound_kept(before: AudioSettings, after: AudioSettings) -> bool {
    &&& after.volume == before.volume
    &&& after.feedback == before.feedback
    &&& after.disabled == before.disabled
    &&& before.disabled ==> after == before
}

/// Whether slot `i` is out of the clock's reach between two states of a
/// pass at `tick` in which the timers from `from` up to `to` have had their
/// turn: its timer is not linked, so that pulses pass it by, and it either
/// had no turn or was not due.
pub open spec fn resting(s: TimersView, i: int, tick: u64, from: int, to: int) -> bool {
    !s.timers[i].is_linked() && (s.timers[i].next_trigger_tick > tick || !(from <= i < to))
}

/// What is kept of slot `i` between two states of a pass at `tick` in which
/// the timers from `from` up to `to` have had their turn. Every timer keeps
/// its id, its link, control A and the backup; a timer that was not due or
/// had no turn keeps its schedule; a resting slot keeps all it holds; an
/// expiry flag that was up stays up; an audio channel keeps what
/// `sound_kept` says, and a silenced one its counter and all of control B
/// but borrow-in.
pub open spec fn slot_kept(
    before: TimersView,
    after: TimersView,
    i: int,
    tick: u64,
    from: int,
    to: int,
) -> bool {
    &&& after.timers[i].id == before.timers[i].id
    &&& after.timers[i].linked_timer == before.timers[i].linked_timer
    &&& after.timers[i].control_a == before.timers[i].control_a
    &&& after.timers[i].backup == before.timers[i].backup
    &&& before.timers[i].next_trigger_tick > tick || !(from <= i < to)
        ==> after.timers[i].next_trigger_tick == before.timers[i].next_trigger_tick
    &&& resting(before, i, tick, from, to) ==> {
        &&& after.timers[i] == before.timers[i]
        &&& i < 8 ==> after.triggered[i] == before.triggered[i]
        &&& i >= 8 ==> after.audio[i - 8] == before.audio[i - 8]
    }
    &&& i < 8 ==> (before.triggered[i] ==> after.triggered[i])
    &&& i >= 8 ==> {
        &&& sound_kept(before.audio[i - 8], after.audio[i - 8])
        &&& before.audio[i - 8].disabled ==> {
            &&& after.timers[i].count == before.timers[i].count
            &&& after.timers[i].control_b & 0b11111101 == before.timers[i].control_b & 0b11111101
        }
    }
}

/// What is kept of the block between two states of a pass at `tick` in
/// which the timers from `from` up to `to` have had their turn.
pub open spec fn kept(before: TimersView, after: TimersView, tick: u64, from: int, to: int) -> bool {
    &&& after.ticks == before.ticks
    &&& after.shaped()
    &&& forall|i: int| 0 <= i < 12 ==> #[trigger] slot_kept(before, after, i, tick, from, to)
}

proof fn lemma_kept_chains(
    a: TimersView,
    b: TimersView,
    c: TimersView,
    tick: u64,
    turns: (int, int),
    more: (int, int),
    all: (int, int),
)
    requires
        kept(a, b, tick, turns.0, turns.1),
        kept(b, c, tick, more.0, more.1),
        turns.0 >= turns.1 || (all.0 <= turns.0 && turns.1 <= all.1),
        more.0 >= more.1 || (all.0 <= more.0 && more.1 <= all.1),
    ensures
        kept(a, c, tick, all.0, all.1),
{
    assert forall|i: int| 0 <= i < 12 implies #[trigger] slot_kept(a, c, i, tick, all.0, all.1) by {
        assert(slot_kept(a, b, i, tick, turns.0, turns.1));
        assert(slot_kept(b, c, i, tick, more.0, more.1));
    }
}

proof fn lemma_kept_itself(s: TimersView, tick: u64, from: int, to: int)
    requires
        s.shaped(),
    ensures
        kept(s, s, tick, from, to),
{
    assert forall|i: int| 0 <= i < 12 implies #[trigger] slot_kept(s, s, i, tick, from, to) by {}
}

proof fn lemma_pulse_timer_keeps(s: TimersView, id: int, tick: u64)
    requires
        s.wf(),
        0 <= id < 12,
    ensures
        s.pulse_timer(id).wf(),
        kept(s, s.pulse_timer(id), tick, 0, 0),
        forall|j: int|
            0 <= j < 12 && j != id ==> #[trigger] s.pulse_timer(id).timers[j] == s.timers[j],
        forall|j: int|
            0 <= j < 8 && j != id ==> #[trigger] s.pulse_timer(id).triggered[j] == s.triggered[j],
        forall|j: int|
            0 <= j < 4 && j + 8 != id ==> #[trigger] s.pulse_timer(id).audio[j] == s.audio[j],
{
    let after = s.pulse_timer(id);
    slots_keep_well_formed(s, after);
    assert forall|i: int| 0 <= i < 12 implies #[trigger] slot_kept(s, after, i, tick, 0, 0) by {
        assert(s.slot_wf(i));
    }
}

/// A pulse into timer `id` leaves the block well formed and keeps what
/// `kept` says of a state in which no timer has had its turn: it changes no
/// schedule and passes by every timer that is not linked. It leaves alone
/// every timer that does not lie downstream of timer `id`.
pub proof fn pulse_keeps(s: TimersView, id: int, tick: u64)
    requires
        s.wf(),
        0 <= id < 12,
    ensures
        s.pulsed(id).0.wf(),
        kept(s, s.pulsed(id).0, tick, 0, 0),
        forall|j: int|
            0 <= j < 12 && j != id && link_rank(j) >= link_rank(id) ==> {
                &&& #[trigger] s.pulsed(id).0.timers[j] == s.timers[j]
                &&& j < 8 ==> s.pulsed(id).0.triggered[j] == s.triggered[j]
                &&& j >= 8 ==> s.pulsed(id).0.audio[j - 8] == s.audio[j - 8]
            },
    decreases link_rank(id),
{
    lemma_pulse_timer_keeps(s, id, tick);
    let once = s.pulse_timer(id);
    if s.pulse_expires(id) {
        match timer_link(id) {
            None => {},
            Some(next) => {
                pulse_keeps(once, next as int, tick);
                let last = once.pulsed(next as int).0;
                lemma_kept_chains(s, once, last, tick, (0, 0), (0, 0), (0, 0));
                assert forall|j: int|
                    0 <= j < 12 && j != id && link_rank(j) >= link_rank(id) implies {
                    &&& #[trigger] last.timers[j] == s.timers[j]
                    &&& j < 8 ==> last.triggered[j] == s.triggered[j]
                    &&& j >= 8 ==> last.audio[j - 8] == s.audio[j - 8]
                } by {
                    assert(once.timers[j] == s.timers[j]);
                    assert(last.timers[j] == once.timers[j]);
                    if j < 8 {
                        assert(once.triggered[j] == s.triggered[j]);
                    } else {
                        assert(once.audio[j - 8] == s.audio[j - 8]);
                    }
                }
            },
        }
    }
}

proof fn lemma_tick_timer_keeps(s: TimersView, id: int, tick: u64)
    requires
        s.wf(),
        0 <= id < 12,
        tick <= MAX_TICK,
        s.due(id, tick),
    ensures
        s.tick_timer(id, tick).wf(),
        kept(s, s.tick_timer(id, tick), tick, id, id + 1),
{
    let after = s.tick_timer(id, tick);
    assert(s.slot_wf(id));
    lemma_clock_ticks(s.timers[id].control_a);
    slots_keep_well_formed(s, after);
    let b = s.timers[id].control_b;
    assert((b & !0b10u8) & 0b11111101 == b & 0b11111101) by (bit_vector);
    assert forall|i: int| 0 <= i < 12 implies #[trigger] slot_kept(s, after, i, tick, id, id + 1) by {
        assert(s.slot_wf(i));
    }
}

/// The turn of timer `id` in a pass leaves the block well formed and keeps
/// what `kept` says of a state in which timer `id` alone has had its turn.
pub proof fn turn_keeps(s: TimersView, id: int, tick: u64)
    requires
        s.wf(),
        0 <= id < 12,
        tick <= MAX_TICK,
    ensures
        s.turn(id, tick).0.wf(),
        kept(s, s.turn(id, tick).0, tick, id, id + 1),
        s.turn(id, tick).0.timers[id].next_trigger_tick == (if s.due(id, tick) {
            s.tick_timer(id, tick).timers[id].next_trigger_tick
        } else {
            s.timers[id].next_trigger_tick
        }),
{
    if s.due(id, tick) {
        lemma_tick_timer_keeps(s, id, tick);
        let ticked = s.tick_timer(id, tick);
        if s.tick_expires(id) {
            match timer_link(id) {
                None => {},
                Some(next) => {
                    pulse_keeps(ticked, next as int, tick);
                    let last = ticked.pulsed(next as int).0;
                    lemma_kept_chains(s, ticked, last, tick, (id, id + 1), (0, 0), (id, id + 1));
                    assert(slot_kept(ticked, last, id, tick, 0, 0));
                },
            }
        }
    } else {
        lemma_kept_itself(s, tick, id, id + 1);
    }
}

proof fn lemma_pass_begins(s: TimersView, tick: u64)
    requires
        s.wf(),
        tick <= MAX_TICK,
    ensures
        s.turns(0, tick).0.wf(),
        s.turns(0, tick).0 == (TimersView { ticks: tick, ..s }),
{
    slots_keep_well_formed(s, TimersView { ticks: tick, ..s });
}

/// The turns from timer `from` up to timer `to` of a pass leave the block
/// well formed and keep what `kept` says.
pub proof fn turns_keep(s: TimersView, from: nat, to: nat, tick: u64)
    requires
        s.wf(),
        from <= to <= 12,
        tick <= MAX_TICK,
    ensures
        s.turns(to, tick).0.wf(),
        s.turns(to, tick).0.ticks == tick,
        kept(s.turns(from, tick).0, s.turns(to, tick).0, tick, from as int, to as int),
    decreases to,
{
    if to == 0 {
        lemma_pass_begins(s, tick);
        lemma_kept_itself(s.turns(0, tick).0, tick, 0, 0);
    } else {
        let before = s.turns((to - 1) as nat, tick).0;
        if from == to {
            turns_keep(s, 0, (to - 1) as nat, tick);
            turn_keeps(before, to - 1, tick);
            lemma_kept_itself(s.turns(to, tick).0, tick, to as int, to as int);
        } else {
            turns_keep(s, from, (to - 1) as nat, tick);
            turn_keeps(before, to - 1, tick);
            lemma_kept_chains(
                s.turns(from, tick).0,
                before,
                before.turn(to - 1, tick).0,
                tick,
                (from as int, to - 1),
                (to - 1, to as int),
                (from as int, to as int),
            );
        }
    }
}

/// What is kept of slot `id` over a whole pass, from the block as it was
/// before the pass.
proof fn lemma_pass_keeps(s: TimersView, tick: u64, id: int)
    requires
        s.wf(),
        tick <= MAX_TICK,
        0 <= id < 12,
    ensures
        s.ticked_all(tick).0.wf(),
        s.ticked_all(tick).0.ticks == tick,
        slot_kept(TimersView { ticks: tick, ..s }, s.ticked_all(tick).0, id, tick, 0, 12),
{
    lemma_pass_begins(s, tick);
    turns_keep(s, 0, 12, tick);
    assert(slot_kept(s.turns(0, tick).0, s.turns(12, tick).0, id, tick, 0, 12));
}

/// A clock pass leaves a well-formed block well formed.
pub proof fn pass_keeps_well_formed(s: TimersView, tick: u64)
    requires
        s.wf(),
        tick <= MAX_TICK,
    ensures
        s.ticked_all(tick).0.wf(),
        s.ticked_all(tick).0.ticks == tick,
{
    lemma_pass_keeps(s, tick, 0);
}

/// A timer that is not due has no turn: its turn leaves the block as it is
/// and raises no interrupt bit. An unscheduled timer is never due.
pub proof fn timer_not_due_has_no_turn(s: TimersView, tick: u64, id: int)
    requires
        tick < NEVER,
        s.timers[id].next_trigger_tick > tick,
    ensures
        s.turn(id, tick) == (s, 0u8),
        !s.turn_expires_timer(id, tick, id),
        s.timers[id].next_trigger_tick == NEVER ==> !s.due(id, tick),
{
}

/// A timer that is not linked ignores a pulse: the block stays as it is,
/// no interrupt bit is raised and no timer expires.
pub proof fn unlinked_timer_ignores_pulse(s: TimersView, id: int, target: int)
    requires
        s.wf(),
        0 <= id < 12,
        !s.timers[id].is_linked(),
    ensures
        s.pulsed(id) == (s, 0u8),
        !s.pulse_expires_timer(id, target),
{
    assert(s.pulse_timer(id).timers =~= s.timers);
    assert(s.pulse_timer(id).triggered =~= s.triggered);
    assert(s.pulse_timer(id).audio =~= s.audio);
}

/// A timer that is unscheduled stays unscheduled over a clock pass, and one
/// that is also not linked keeps all its registers: only a write to its
/// control A or its counter brings it back.
pub proof fn unscheduled_timer_stays_idle(s: TimersView, tick: u64, id: int)
    requires
        s.wf(),
        tick <= MAX_TICK,
        0 <= id < 12,
        s.timers[id].next_trigger_tick == NEVER,
    ensures
        s.ticked_all(tick).0.timers[id].next_trigger_tick == NEVER,
        !s.timers[id].is_linked() ==> s.ticked_all(tick).0.timers[id] == s.timers[id],
{
    lemma_pass_keeps(s, tick, id);
}

/// A timer that is not linked and not due is out of the reach of a clock
/// pass: the pass leaves it every register, its schedule, its expiry flag
/// and its sound registers.
pub proof fn timer_not_due_is_left_alone(s: TimersView, tick: u64, id: int)
    requires
        s.wf(),
        tick <= MAX_TICK,
        0 <= id < 12,
        !s.timers[id].is_linked(),
        s.timers[id].next_trigger_tick > tick,
    ensures
        s.ticked_all(tick).0.timers[id] == s.timers[id],
        id < 8 ==> s.ticked_all(tick).0.triggered[id] == s.triggered[id],
        id >= 8 ==> s.ticked_all(tick).0.audio[id - 8] == s.audio[id - 8],
{
    lemma_pass_keeps(s, tick, id);
}

/// A clock pass at `tick` that finds a clocked timer due schedules it
/// exactly one period after `tick`, unless the tick expires it with reload
/// off: then the pass leaves it unscheduled.
pub proof fn pass_schedules_due_timer(s: TimersView, tick: u64, id: int)
    requires
        s.wf(),
        tick <= MAX_TICK,
        0 <= id < 12,
        s.timers[id].clocked(),
        id >= 8 ==> !s.audio[id - 8].disabled,
        s.due(id, tick),
    ensures
        s.timers[id].expires() && !s.timers[id].reload_enabled() ==> s.ticked_all(
            tick,
        ).0.timers[id].next_trigger_tick == NEVER,
        !s.timers[id].expires() || s.timers[id].reload_enabled() ==> s.ticked_all(
            tick,
        ).0.timers[id].next_trigger_tick == tick + TIMER_TICKS_COUNT * pow2(
            s.timers[id].period() as nat,
        ),
{
    lemma_pass_begins(s, tick);
    turns_keep(s, 0, id as nat, tick);
    let before = s.turns(id as nat, tick).0;
    assert(slot_kept(s.turns(0, tick).0, before, id, tick, 0, id));
    lemma_clock_ticks(s.timers[id].control_a);
    turn_keeps(before, id, tick);
    turns_keep(s, (id + 1) as nat, 12, tick);
    assert(slot_kept(s.turns((id + 1) as nat, tick).0, s.turns(12, tick).0, id, tick, id + 1, 12));
}

/// A clock pass leaves a silenced audio channel its sample, its other sound
/// registers, its counter and all of control B but borrow-in.
pub proof fn silenced_channel_keeps_sample(s: TimersView, tick: u64, id: int)
    requires
        s.wf(),
        tick <= MAX_TICK,
        8 <= id < 12,
        s.audio[id - 8].disabled,
    ensures
        s.ticked_all(tick).0.audio[id - 8] == s.audio[id - 8],
        s.ticked_all(tick).0.timers[id].count == s.timers[id].count,
        s.ticked_all(tick).0.timers[id].control_b & 0b11111101 == s.timers[id].control_b
            & 0b11111101,
{
    lemma_pass_keeps(s, tick, id);
}

/// No clock pass changes control A or the backup of a timer, nor the
/// volume, the feedback register or the silencing of an audio channel.
pub proof fn pass_keeps_configuration(s: TimersView, tick: u64, id: int)
    requires
        s.wf(),
        tick <= MAX_TICK,
        0 <= id < 12,
    ensures
        s.ticked_all(tick).0.timers[id].control_a == s.timers[id].control_a,
        s.ticked_all(tick).0.timers[id].backup == s.timers[id].backup,
        id >= 8 ==> sound_kept(s.audio[id - 8], s.ticked_all(tick).0.audio[id - 8]),
{
    lemma_pass_keeps(s, tick, id);
}

/// An expiry flag that is up stays up over a clock pass.
pub proof fn expiry_flag_is_sticky(s: TimersView, tick: u64, id: int)
    requires
        s.wf(),
        tick <= MAX_TICK,
        0 <= id < 8,
        s.triggered[id],
    ensures
        s.ticked_all(tick).0.triggered[id],
{
    lemma_pass_keeps(s, tick, id);
}

/// A pulse into timer `id` lands on it once: whatever happens downstream,
/// the registers of timer `id` afterwards are those after one pulse.
pub proof fn pulse_lands_once(s: TimersView, id: int)
    requires
        s.wf(),
        0 <= id < 12,
    ensures
        s.pulsed(id).0.timers[id] == s.pulse_timer(id).timers[id],
        id < 8 ==> s.pulsed(id).0.triggered[id] == s.pulse_timer(id).triggered[id],
        id >= 8 ==> s.pulsed(id).0.audio[id - 8] == s.pulse_timer(id).audio[id - 8],
{
    lemma_pulse_timer_keeps(s, id, 0);
    if s.pulse_expires(id) {
        match timer_link(id) {
            None => {},
            Some(next) => {
                pulse_keeps(s.pulse_timer(id), next as int, 0);
            },
        }
    }
}

/// When the clock expires timer `k` at its turn and timer `k` has a
/// successor, the turn is the tick of timer `k` followed by a pulse into the
/// successor, the interrupt bits raised are those of timer `k` or-ed with
/// those raised downstream, and the successor has taken exactly one pulse.
pub proof fn expiry_pulses_successor(s: TimersView, k: int, tick: u64)
    requires
        s.wf(),
        tick <= MAX_TICK,
        0 <= k < 12,
        timer_link(k) is Some,
        s.due(k, tick),
        s.tick_expires(k),
    ensures
        ({
            let next = timer_link(k).unwrap() as int;
            let ticked = s.tick_timer(k, tick);
            let after = s.turn(k, tick);
            &&& after.0 == ticked.pulsed(next).0
            &&& after.1 == s.interrupt(k) | ticked.pulsed(next).1
            &&& after.0.timers[next] == ticked.pulse_timer(next).timers[next]
            &&& next < 8 ==> after.0.triggered[next] == ticked.pulse_timer(next).triggered[next]
            &&& next >= 8 ==> after.0.audio[next - 8] == ticked.pulse_timer(next).audio[next - 8]
        }),
{
    let next = timer_link(k).unwrap() as int;
    lemma_tick_timer_keeps(s, k, tick);
    pulse_lands_once(s.tick_timer(k, tick), next);
}

/// When a pulse expires timer `k` and timer `k` has a successor, the
/// successor takes exactly one pulse, and the interrupt bits raised are
/// those of timer `k` or-ed with those raised downstream.
pub proof fn pulse_expiry_pulses_successor(s: TimersView, k: int)
    requires
        s.wf(),
        0 <= k < 12,
        timer_link(k) is Some,
        s.pulse_expires(k),
    ensures
        ({
            let next = timer_link(k).unwrap() as int;
            let once = s.pulse_timer(k);
            let after = s.pulsed(k);
            &&& after.0 == once.pulsed(next).0
            &&& after.1 == s.interrupt(k) | once.pulsed(next).1
            &&& after.0.timers[next] == once.pulse_timer(next).timers[next]
            &&& next < 8 ==> after.0.triggered[next] == once.pulse_timer(next).triggered[next]
            &&& next >= 8 ==> after.0.audio[next - 8] == once.pulse_timer(next).audio[next - 8]
        }),
{
    let next = timer_link(k).unwrap() as int;
    lemma_pulse_timer_keeps(s, k, 0);
    pulse_lands_once(s.pulse_timer(k), next);
}

proof fn lemma_pulse_stops_at_unlinked(s: TimersView, m: int, k: int, n: int)
    requires
        s.wf(),
        0 <= m < 12,
        0 <= k < 12,
        0 <= n < 12,
        timer_link(k) == Some(n as u8),
        !s.timers[k].is_linked(),
        m != n,
    ensures
        s.pulsed(m).0.timers[n] == s.timers[n],
        n >= 8 ==> s.pulsed(m).0.audio[n - 8] == s.audio[n - 8],
    decreases link_rank(m),
{
    lemma_pulse_timer_keeps(s, m, 0);
    let once = s.pulse_timer(m);
    if s.pulse_expires(m) {
        match timer_link(m) {
            None => {},
            Some(next) => {
                assert(slot_kept(s, once, k, 0, 0, 0));
                lemma_pulse_stops_at_unlinked(once, next as int, k, n);
            },
        }
    }
}

proof fn lemma_other_turn_leaves_successor(s: TimersView, j: int, tick: u64, k: int, n: int)
    requires
        s.wf(),
        tick <= MAX_TICK,
        0 <= j < 12,
        0 <= k < 12,
        0 <= n < 12,
        j != k,
        timer_link(k) == Some(n as u8),
        !s.timers[k].is_linked(),
        s.timers[n].is_linked(),
    ensures
        s.turn(j, tick).0.timers[n] == s.timers[n],
        n >= 8 ==> s.turn(j, tick).0.audio[n - 8] == s.audio[n - 8],
{
    assert(s.slot_wf(n));
    if s.due(j, tick) {
        lemma_tick_timer_keeps(s, j, tick);
        let ticked = s.tick_timer(j, tick);
        if s.tick_expires(j) {
            match timer_link(j) {
                None => {},
                Some(next) => {
                    assert(slot_kept(s, ticked, k, tick, j, j + 1));
                    lemma_pulse_stops_at_unlinked(ticked, next as int, k, n);
                },
            }
        }
    }
}

proof fn lemma_other_turns_leave_successor(
    s: TimersView,
    from: nat,
    to: nat,
    tick: u64,
    k: int,
    n: int,
)
    requires
        s.wf(),
        tick <= MAX_TICK,
        from <= to <= 12,
        0 <= k < 12,
        0 <= n < 12,
        !(from <= k < to),
        timer_link(k) == Some(n as u8),
        !s.timers[k].is_linked(),
        s.timers[n].is_linked(),
    ensures
        s.turns(to, tick).0.timers[n] == s.turns(from, tick).0.timers[n],
        n >= 8 ==> s.turns(to, tick).0.audio[n - 8] == s.turns(from, tick).0.audio[n - 8],
    decreases to,
{
    if from < to {
        lemma_other_turns_leave_successor(s, from, (to - 1) as nat, tick, k, n);
        let before = s.turns((to - 1) as nat, tick).0;
        lemma_pass_begins(s, tick);
        turns_keep(s, 0, (to - 1) as nat, tick);
        assert(slot_kept(s.turns(0, tick).0, before, k, tick, 0, to - 1));
        assert(slot_kept(s.turns(0, tick).0, before, n, tick, 0, to - 1));
        lemma_other_turn_leaves_successor(before, to - 1, tick, k, n);
    }
}

/// When a pass finds a clocked timer due with its counter at zero, and its
/// successor linked, running and with its counter above zero, the pass
/// takes exactly one off the successor's counter: the successor takes the
/// one pulse, and nothing else in the pass reaches it.
pub proof fn expiry_counts_successor_down(s: TimersView, tick: u64, k: int)
    requires
        s.wf(),
        tick <= MAX_TICK,
        0 <= k < 12,
        timer_link(k) is Some,
        s.timers[k].clocked(),
        k >= 8 ==> !s.audio[k - 8].disabled,
        s.due(k, tick),
        s.timers[k].expires(),
        ({
            let n = timer_link(k).unwrap() as int;
            &&& s.timers[n].is_linked()
            &&& s.timers[n].count_enabled()
            &&& n >= 8 ==> !s.audio[n - 8].disabled
            &&& s.timers[n].count > 0
        }),
    ensures
        ({
            let n = timer_link(k).unwrap() as int;
            &&& s.ticked_all(tick).0.timers[n].count == s.timers[n].count - 1
            &&& n >= 8 ==> s.ticked_all(tick).0.audio[n - 8] == s.audio[n - 8]
        }),
{
    let n = timer_link(k).unwrap() as int;
    lemma_pass_begins(s, tick);
    lemma_other_turns_leave_successor(s, 0, k as nat, tick, k, n);
    turns_keep(s, 0, k as nat, tick);
    let before = s.turns(k as nat, tick).0;
    assert(slot_kept(s.turns(0, tick).0, before, k, tick, 0, k));
    expiry_pulses_successor(before, k, tick);
    lemma_other_turns_leave_successor(s, (k + 1) as nat, 12, tick, k, n);
}

/// A timer that does not expire sends no pulse on: its turn is its tick
/// alone, and raises no interrupt bit.
pub proof fn no_expiry_no_pulse(s: TimersView, k: int, tick: u64)
    requires
        0 <= k < 12,
        s.due(k, tick),
        !s.tick_expires(k),
    ensures
        s.turn(k, tick) == (s.tick_timer(k, tick), 0u8),
{
}

proof fn lemma_or_holds(a: u8, b: u8)
    ensures
        (a | b) & a == a,
        (a | b) & b == b,
        forall|x: u8| x & a == a ==> (#[trigger] (x | b)) & a == a,
        forall|x: u8| x & a == a ==> (#[trigger] (b | x)) & a == a,
{
    assert((a | b) & a == a && (a | b) & b == b) by (bit_vector);
    assert forall|x: u8| x & a == a implies (#[trigger] (x | b)) & a == a by {
        assert(x & a == a ==> (x | b) & a == a) by (bit_vector);
    }
    assert forall|x: u8| x & a == a implies (#[trigger] (b | x)) & a == a by {
        assert(x & a == a ==> (b | x) & a == a) by (bit_vector);
    }
}

proof fn lemma_mask_grows(s: TimersView, tick: u64, k: nat, n: nat)
    requires
        k < n <= 12,
    ensures
        s.turns(n, tick).1 & s.turns(k, tick).0.turn(k as int, tick).1 == s.turns(
            k,
            tick,
        ).0.turn(k as int, tick).1,
    decreases n,
{
    let bits = s.turns(k, tick).0.turn(k as int, tick).1;
    let before = s.turns((n - 1) as nat, tick);
    let after = before.0.turn(n - 1, tick);
    if n == k + 1 {
        lemma_or_holds(before.1, bits);
    } else {
        lemma_mask_grows(s, tick, k, (n - 1) as nat);
        lemma_or_holds(bits, after.1);
    }
}

/// The interrupt mask of a pass holds every bit raised in any of its turns.
pub proof fn pass_mask_holds_every_turn(s: TimersView, tick: u64, k: nat)
    requires
        k < 12,
    ensures
        ({
            let bits = s.turns(k, tick).0.turn(k as int, tick).1;
            s.ticked_all(tick).1 & bits == bits
        }),
{
    lemma_mask_grows(s, tick, k, 12);
}

/// The bits raised in a turn in which the clock expires timer `k` hold the
/// interrupt bit of timer `k`.
pub proof fn turn_mask_holds_own_bit(s: TimersView, k: int, tick: u64)
    requires
        0 <= k < 12,
        s.due(k, tick),
        s.tick_expires(k),
    ensures
        s.turn(k, tick).1 & s.interrupt(k) == s.interrupt(k),
{
    match timer_link(k) {
        None => {
            let a = s.interrupt(k);
            assert(a & a == a) by (bit_vector);
        },
        Some(next) => {
            lemma_or_holds(s.interrupt(k), s.tick_timer(k, tick).pulsed(next as int).1);
        },
    }
}

/// When a pulse expires timer `target`, there or down the chain, the
/// expiry flag of a base timer `target` is up afterwards, and the bits
/// raised hold the bit that its control A enables.
pub proof fn pulse_expiry_shows(s: TimersView, id: int, target: int)
    requires
        s.wf(),
        0 <= id < 12,
        0 <= target < 12,
        s.pulse_expires_timer(id, target),
    ensures
        target < 8 ==> s.pulsed(id).0.triggered[target],
        s.pulsed(id).1 & s.interrupt(target) == s.interrupt(target),
    decreases link_rank(id),
{
    lemma_pulse_timer_keeps(s, id, 0);
    let once = s.pulse_timer(id);
    if id == target {
        pulse_lands_once(s, id);
        match timer_link(id) {
            None => {
                let a = s.interrupt(id);
                assert(a & a == a) by (bit_vector);
            },
            Some(next) => {
                lemma_or_holds(s.interrupt(id), once.pulsed(next as int).1);
            },
        }
    } else {
        let next = timer_link(id).unwrap() as int;
        assert(slot_kept(s, once, target, 0, 0, 0));
        pulse_expiry_shows(once, next, target);
        lemma_or_holds(once.interrupt(target), s.interrupt(id));
    }
}

/// When a turn of a pass expires timer `target`, by the clock or by a
/// pulse, the expiry flag of a base timer `target` is up after the turn,
/// and the bits raised hold the bit that its control A enables.
pub proof fn turn_expiry_shows(s: TimersView, id: int, tick: u64, target: int)
    requires
        s.wf(),
        tick <= MAX_TICK,
        0 <= id < 12,
        0 <= target < 12,
        s.turn_expires_timer(id, tick, target),
    ensures
        target < 8 ==> s.turn(id, tick).0.triggered[target],
        s.turn(id, tick).1 & s.interrupt(target) == s.interrupt(target),
{
    lemma_tick_timer_keeps(s, id, tick);
    let ticked = s.tick_timer(id, tick);
    if id == target {
        turn_mask_holds_own_bit(s, id, tick);
        match timer_link(id) {
            None => {},
            Some(next) => {
                pulse_keeps(ticked, next as int, tick);
                assert(slot_kept(ticked, ticked.pulsed(next as int).0, id, tick, 0, 0));
            },
        }
    } else {
        let next = timer_link(id).unwrap() as int;
        assert(slot_kept(s, ticked, target, tick, id, id + 1));
        pulse_expiry_shows(ticked, next, target);
        lemma_or_holds(ticked.interrupt(target), s.interrupt(id));
    }
}

proof fn lemma_pass_expiry_shows(s: TimersView, n: nat, tick: u64, target: int)
    requires
        s.wf(),
        tick <= MAX_TICK,
        n <= 12,
        0 <= target < 12,
        s.turns_expire_timer(n, tick, target),
    ensures
        target < 8 ==> s.turns(n, tick).0.triggered[target],
        s.turns(n, tick).1 & s.interrupt(target) == s.interrupt(target),
    decreases n,
{
    let before = s.turns((n - 1) as nat, tick);
    let after = before.0.turn(n - 1, tick);
    lemma_pass_begins(s, tick);
    turns_keep(s, 0, (n - 1) as nat, tick);
    turn_keeps(before.0, n - 1, tick);
    assert(slot_kept(s.turns(0, tick).0, before.0, target, tick, 0, n - 1));
    assert(slot_kept(before.0, after.0, target, tick, n - 1, n as int));
    if s.turns_expire_timer((n - 1) as nat, tick, target) {
        lemma_pass_expiry_shows(s, (n - 1) as nat, tick, target);
        lemma_or_holds(s.interrupt(target), after.1);
    } else {
        turn_expiry_shows(before.0, n - 1, tick, target);
        lemma_or_holds(before.0.interrupt(target), before.1);
    }
}

/// When a clock pass expires base timer `target`, by the clock or by a
/// pulse, its expiry flag is up after the pass, and the interrupt mask of
/// the pass holds the bit that its control A enables.
pub proof fn pass_expiry_shows(s: TimersView, tick: u64, target: int)
    requires
        s.wf(),
        tick <= MAX_TICK,
        0 <= target < 8,
        s.pass_expires_timer(tick, target),
    ensures
        s.ticked_all(tick).0.triggered[target],
        s.timers[target].interrupt_enabled() ==> s.ticked_all(tick).1 & BaseTimer::interrupt_mask(
            target as u8,
        ) == BaseTimer::interrupt_mask(target as u8),
{
    lemma_pass_expiry_shows(s, 12, tick, target);
    assert(s.slot_wf(target));
}

/// The flag that a pass returns for timer 4 does not look at the interrupt
/// enable of timer 4: it is up exactly if the pass expires the timer, by
/// the clock or by a pulse. Then the timer's expiry flag is up as well, and
/// bit 4 of the interrupt mask if control A of timer 4 enables it.
pub proof fn timer4_flag_is_its_expiry(s: TimersView, tick: u64)
    requires
        s.wf(),
        tick <= MAX_TICK,
    ensures
        s.ticked_all(tick).2 == s.pass_expires_timer(tick, 4),
        s.ticked_all(tick).2 ==> s.ticked_all(tick).0.triggered[4],
        s.ticked_all(tick).2 && s.timers[4].interrupt_enabled() ==> s.ticked_all(tick).1
            & BaseTimer::interrupt_mask(4) == BaseTimer::interrupt_mask(4),
{
    if s.pass_expires_timer(tick, 4) {
        pass_expiry_shows(s, tick, 4);
    }
}

/// When the clock expires a base timer at its turn, its expiry flag is up
/// after the turn.
pub proof fn expiry_raises_flag(s: TimersView, id: int, tick: u64)
    requires
        s.wf(),
        tick <= MAX_TICK,
        0 <= id < 8,
        s.due(id, tick),
        s.tick_expires(id),
    ensures
        s.turn(id, tick).0.triggered[id],
{
    turn_expiry_shows(s, id, tick, id);
}

/// When a pulse expires a base timer, its expiry flag is up after the pulse
/// has run down the chain.
pub proof fn pulse_expiry_raises_flag(s: TimersView, id: int)
    requires
        s.wf(),
        0 <= id < 8,
        s.pulse_expires(id),
    ensures
        s.pulsed(id).0.triggered[id],
{
    pulse_lands_once(s, id);
}

/// A base timer that the clock expires at its turn in a pass has its expiry
/// flag up when the pass is over.
pub proof fn expiry_in_pass_raises_flag(s: TimersView, tick: u64, id: int)
    requires
        s.wf(),
        tick <= MAX_TICK,
        0 <= id < 8,
        s.turns(id as nat, tick).0.due(id, tick),
        s.turns(id as nat, tick).0.tick_expires(id),
    ensures
        s.ticked_all(tick).0.triggered[id],
{
    turns_keep(s, 0, id as nat, tick);
    expiry_raises_flag(s.turns(id as nat, tick).0, id, tick);
    turns_keep(s, (id + 1) as nat, 12, tick);
    assert(slot_kept(s.turns((id + 1) as nat, tick).0, s.turns(12, tick).0, id, tick, id + 1, 12));
}

/// An expiry flag is taken once: taking it a second time right away finds
/// it down and changes nothing.
pub proof fn flag_is_taken_once(s: TimersView, id: int)
    requires
        s.wf(),
        0 <= id < 8,
    ensures
        !s.flag_taken(id).0.flag_taken(id).1,
        s.flag_taken(id).0.flag_taken(id).0 == s.flag_taken(id).0,
        s.flag_taken(id).0.wf(),
{
    let once = s.flag_taken(id).0;
    assert(once.flag_taken(id).0.triggered =~= once.triggered);
    slots_keep_well_formed(s, once);
}

/// Every register has an address of its own: decoding the address of a
/// register gives the timer and the register back.
pub proof fn decode_inverts_address(id: int, reg: TimerReg)
    requires
        0 <= id < 12,
        id < 8 ==> !reg.is_sound(),
    ensures
        MIK_ADDR <= address_of(id, reg) < AUD_END,
        mapped(address_of(id, reg) as u16),
        decode(address_of(id, reg) as u16) == (id, reg),
{
}

/// A write leaves a well-formed block well formed.
pub proof fn write_keeps_well_formed(s: TimersView, addr: u16, v: u8)
    requires
        s.wf(),
        mapped(addr),
    ensures
        s.written(addr, v).wf(),
{
    let (id, reg) = decode(addr);
    lemma_clock_ticks(v);
    assert(s.slot_wf(id));
    lemma_clock_ticks(s.timers[id].control_a);
    slots_keep_well_formed(s, s.written(addr, v));
}

/// Writing 0 to the backup and 1 to the feedback register of an audio
/// channel, in either order, silences the channel.
pub proof fn zero_backup_and_feedback_one_silence(s: TimersView, id: int)
    requires
        s.wf(),
        8 <= id < 12,
    ensures
        ({
            let backup = address_of(id, TimerReg::Backup) as u16;
            let feedback = address_of(id, TimerReg::Feedback) as u16;
            &&& s.written(backup, 0).written(feedback, 1).audio[id - 8].disabled
            &&& s.written(feedback, 1).written(backup, 0).audio[id - 8].disabled
        }),
{
    decode_inverts_address(id, TimerReg::Backup);
    decode_inverts_address(id, TimerReg::Feedback);
}

/// A control A value with the linking period, written to timer `id`,
/// reads back, links the timer and unschedules it, whether or not the value
/// enables counting; and no later pass finds the timer due.
pub proof fn linking_write_stops_the_clock(s: TimersView, id: int, v: u8, tick: u64)
    requires
        s.wf(),
        0 <= id < 12,
        v & 0b111 == 0b111,
        tick < NEVER,
    ensures
        ({
            let addr = address_of(id, TimerReg::ControlA) as u16;
            let after = s.written(addr, v);
            &&& after.read(addr) == v
            &&& after.timers[id].is_linked()
            &&& after.timers[id].next_trigger_tick == NEVER
            &&& !after.due(id, tick)
            &&& after.turn(id, tick) == (after, 0u8)
        }),
{
    decode_inverts_address(id, TimerReg::ControlA);
}

} // verus!
