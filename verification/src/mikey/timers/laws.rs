//! What holds of a single timer over any run of writes, ticks and pulses.

use vstd::prelude::*;
use vstd::arithmetic::power2::pow2;
use crate::mikey::timers::audio_channel_timer::{AudioChannelTimer, AudioSettings};
use crate::mikey::timers::base_timer::BaseTimer;
use crate::mikey::timers::countdown::{period_of, Countdown};
use crate::mikey::timers::{
    CTRLB_BORROW_IN_BIT, CTRLB_BORROW_OUT_BIT, CTRLB_TIMER_DONE_BIT, NEVER, TIMER_TICKS_COUNT,
};

verus! {

/// A control A value with the linking period links the timer and
/// unschedules it, whether or not the value enables counting.
pub proof fn linking_period_unschedules(c: Countdown, value: u8, tick: u64)
    requires
        period_of(value) == 7,
    ensures
        c.with_control_a(value, tick).is_linked(),
        c.with_control_a(value, tick).next_trigger_tick == NEVER,
{
}

/// A control A value that enables counting with a period below the linking
/// one schedules the timer exactly one period after the write.
pub proof fn clocked_period_schedules(c: Countdown, value: u8, tick: u64)
    requires
        Countdown::arms(value),
        tick + TIMER_TICKS_COUNT * pow2(period_of(value) as nat) <= u64::MAX,
    ensures
        !c.with_control_a(value, tick).is_linked(),
        c.with_control_a(value, tick).next_trigger_tick == tick + TIMER_TICKS_COUNT * pow2(
            period_of(value) as nat,
        ),
{
}

/// A control B value after a count-down step that expired the timer has
/// done, borrow-in and borrow-out set; after any other step it has borrow-in
/// set and borrow-out clear.
pub proof fn count_down_marks_control_b(c: Countdown)
    ensures
        c.counted_down().control_b & CTRLB_BORROW_IN_BIT != 0,
        c.expires() ==> c.counted_down().control_b & CTRLB_TIMER_DONE_BIT != 0
            && c.counted_down().control_b & CTRLB_BORROW_OUT_BIT != 0,
        !c.expires() ==> c.counted_down().control_b & CTRLB_BORROW_OUT_BIT == 0,
{
    let b = c.control_b;
    assert(((b & !0b1u8) | 0b10) & 0b10 != 0 && ((b & !0b1u8) | 0b10) & 0b1 == 0)
        by (bit_vector);
    assert((((b & !0b1u8) | 0b10) | (0b1000u8 | 0b1u8)) & 0b10 != 0 && (((b & !0b1u8) | 0b10) | (
    0b1000u8 | 0b1u8)) & 0b1000 != 0 && (((b & !0b1u8) | 0b10) | (0b1000u8 | 0b1u8)) & 0b1 != 0)
        by (bit_vector);
}

/// A count-down step that finds the counter at zero reloads it from the
/// backup if reload is enabled, and keeps the timer's schedule; if reload is
/// not enabled the counter stays at zero and the timer is unscheduled. A
/// step that finds the counter above zero takes one off it.
pub proof fn count_down_reloads_or_stops(c: Countdown)
    ensures
        c.expires() && c.reload_enabled() ==> c.counted_down().count == c.backup
            && c.counted_down().next_trigger_tick == c.next_trigger_tick,
        c.expires() && !c.reload_enabled() ==> c.counted_down().count == 0
            && c.counted_down().next_trigger_tick == NEVER,
        !c.expires() ==> c.counted_down().count == c.count - 1 && c.counted_down().next_trigger_tick
            == c.next_trigger_tick,
        c.counted_down().control_a == c.control_a,
        c.counted_down().backup == c.backup,
        c.wf() ==> c.counted_down().wf(),
{
}

impl Countdown {
    /// The timer after `n` count-down steps.
    pub open spec fn counted_down_times(self, n: nat) -> Countdown
        decreases n,
    {
        if n == 0 {
            self
        } else {
            self.counted_down_times((n - 1) as nat).counted_down()
        }
    }
}

/// From a counter at `N`, `N` count-down steps bring the counter to zero:
/// after `k` of them the counter is at `N - k`, and none of them expires the
/// timer. The step after them does.
pub proof fn count_down_reaches_zero(c: Countdown, k: nat)
    requires
        k <= c.count,
    ensures
        c.counted_down_times(k).count == c.count - k,
        c.counted_down_times(k).control_a == c.control_a,
        c.counted_down_times(k).backup == c.backup,
        forall|j: nat| j < k ==> !(#[trigger] c.counted_down_times(j)).expires(),
        k == c.count ==> c.counted_down_times(k).expires(),
    decreases k,
{
    if k > 0 {
        count_down_reaches_zero(c, (k - 1) as nat);
    }
}

/// A clock tick at `tick` schedules a clocked base timer exactly one period
/// later, unless the tick expires it with reload off: then it is
/// unscheduled.
pub proof fn base_tick_schedules(c: Countdown, tick: u64)
    requires
        c.clocked(),
        c.can_schedule(tick),
    ensures
        c.expires() && !c.reload_enabled() ==> BaseTimer::ticked(c, tick).next_trigger_tick
            == NEVER,
        !c.expires() || c.reload_enabled() ==> BaseTimer::ticked(c, tick).next_trigger_tick
            == tick + TIMER_TICKS_COUNT * pow2(c.period() as nat),
{
}

/// A clock tick at `tick` schedules a clocked audio timer that runs exactly
/// one period later, unless the tick expires it with reload off: then it is
/// unscheduled.
pub proof fn audio_tick_schedules(c: Countdown, s: AudioSettings, tick: u64)
    requires
        c.clocked(),
        !s.disabled,
        c.can_schedule(tick),
    ensures
        c.expires() && !c.reload_enabled() ==> AudioChannelTimer::ticked(
            c,
            s,
            tick,
        ).0.next_trigger_tick == NEVER,
        !c.expires() || c.reload_enabled() ==> AudioChannelTimer::ticked(
            c,
            s,
            tick,
        ).0.next_trigger_tick == tick + TIMER_TICKS_COUNT * pow2(c.period() as nat),
{
}

impl BaseTimer {
    /// The timer after the clock drives it at each of `ticks` in turn.
    pub open spec fn ticked_through(c: Countdown, ticks: Seq<u64>) -> Countdown
        decreases ticks.len(),
    {
        if ticks.len() == 0 {
            c
        } else {
            Self::ticked(Self::ticked_through(c, ticks.drop_last()), ticks.last())
        }
    }

    /// The timer after `n` pulses from its predecessor.
    pub open spec fn pulsed_times(c: Countdown, n: nat) -> Countdown
        decreases n,
    {
        if n == 0 {
            c
        } else {
            Self::pulsed(Self::pulsed_times(c, (n - 1) as nat))
        }
    }
}

/// From a counter at `N`, `N` clock ticks bring the counter of an enabled
/// base timer to zero: after the first `k` of them the counter is at `N - k`,
/// and none of them expires the timer. The tick after them does.
pub proof fn base_ticks_reach_zero(c: Countdown, ticks: Seq<u64>)
    requires
        c.count_enabled(),
        ticks.len() <= c.count,
    ensures
        BaseTimer::ticked_through(c, ticks).count == c.count - ticks.len(),
        BaseTimer::ticked_through(c, ticks).control_a == c.control_a,
        forall|k: int|
            0 <= k < ticks.len() ==> !BaseTimer::tick_expires(
                #[trigger] BaseTimer::ticked_through(c, ticks.take(k)),
            ),
        ticks.len() == c.count ==> BaseTimer::tick_expires(BaseTimer::ticked_through(c, ticks)),
    decreases ticks.len(),
{
    if ticks.len() > 0 {
        let shorter = ticks.drop_last();
        base_ticks_reach_zero(c, shorter);
        assert forall|k: int| 0 <= k < ticks.len() implies !BaseTimer::tick_expires(
            #[trigger] BaseTimer::ticked_through(c, ticks.take(k)),
        ) by {
            if k < shorter.len() {
                assert(ticks.take(k) == shorter.take(k));
            } else {
                assert(ticks.take(k) == shorter);
            }
        }
    }
}

/// From a counter at `N`, `N` pulses bring the counter of a linked, enabled
/// base timer to zero: after `k` of them the counter is at `N - k`, and none
/// of them expires the timer. The pulse after them does.
pub proof fn base_pulses_reach_zero(c: Countdown, k: nat)
    requires
        BaseTimer::hears_pulse(c),
        k <= c.count,
    ensures
        BaseTimer::pulsed_times(c, k).count == c.count - k,
        BaseTimer::pulsed_times(c, k).control_a == c.control_a,
        forall|j: nat| j < k ==> !BaseTimer::pulse_expires(#[trigger] BaseTimer::pulsed_times(c, j)),
        k == c.count ==> BaseTimer::pulse_expires(BaseTimer::pulsed_times(c, k)),
    decreases k,
{
    if k > 0 {
        base_pulses_reach_zero(c, (k - 1) as nat);
    }
}

impl AudioChannelTimer {
    /// The registers after the clock drives the timer at each of `ticks` in
    /// turn.
    pub open spec fn ticked_through(c: Countdown, s: AudioSettings, ticks: Seq<u64>) -> (
        Countdown,
        AudioSettings,
    )
        decreases ticks.len(),
    {
        if ticks.len() == 0 {
            (c, s)
        } else {
            let before = Self::ticked_through(c, s, ticks.drop_last());
            Self::ticked(before.0, before.1, ticks.last())
        }
    }

    /// The registers after `n` pulses from the predecessor.
    pub open spec fn pulsed_times(c: Countdown, s: AudioSettings, n: nat) -> (
        Countdown,
        AudioSettings,
    )
        decreases n,
    {
        if n == 0 {
            (c, s)
        } else {
            let before = Self::pulsed_times(c, s, (n - 1) as nat);
            Self::pulsed(before.0, before.1)
        }
    }
}

/// From a counter at `N`, `N` clock ticks bring the counter of an audio
/// timer that runs to zero: after the first `k` of them the counter is at
/// `N - k`, none of them expires the timer, and the sound registers are as
/// they were. The tick after them expires it.
pub proof fn audio_ticks_reach_zero(c: Countdown, s: AudioSettings, ticks: Seq<u64>)
    requires
        AudioChannelTimer::runs(c, s),
        ticks.len() <= c.count,
    ensures
        AudioChannelTimer::ticked_through(c, s, ticks).0.count == c.count - ticks.len(),
        AudioChannelTimer::ticked_through(c, s, ticks).0.control_a == c.control_a,
        AudioChannelTimer::ticked_through(c, s, ticks).1 == s,
        AudioChannelTimer::ticked_through(c, s, ticks).0.control_b & 0b11111100 == c.control_b
            & 0b11111100,
        AudioChannelTimer::shift_register(AudioChannelTimer::ticked_through(c, s, ticks).0, s)
            == AudioChannelTimer::shift_register(c, s),
        forall|k: int|
            0 <= k < ticks.len() ==> !AudioChannelTimer::tick_expires(
                (#[trigger] AudioChannelTimer::ticked_through(c, s, ticks.take(k))).0,
                s,
            ),
        ticks.len() == c.count ==> AudioChannelTimer::tick_expires(
            AudioChannelTimer::ticked_through(c, s, ticks).0,
            s,
        ),
    decreases ticks.len(),
{
    if ticks.len() > 0 {
        let shorter = ticks.drop_last();
        audio_ticks_reach_zero(c, s, shorter);
        audio_counting_keeps_sound(
            AudioChannelTimer::ticked_through(c, s, shorter).0,
            s,
            ticks.last(),
        );
        assert forall|k: int| 0 <= k < ticks.len() implies !AudioChannelTimer::tick_expires(
            (#[trigger] AudioChannelTimer::ticked_through(c, s, ticks.take(k))).0,
            s,
        ) by {
            if k < shorter.len() {
                assert(ticks.take(k) == shorter.take(k));
            } else {
                assert(ticks.take(k) == shorter);
            }
        }
    }
}

/// From a counter at `N`, `N` pulses bring the counter of a linked audio
/// timer that runs to zero: after `k` of them the counter is at `N - k`,
/// none of them expires the timer, and the sound registers are as they
/// were. The pulse after them expires it.
pub proof fn audio_pulses_reach_zero(c: Countdown, s: AudioSettings, k: nat)
    requires
        AudioChannelTimer::hears_pulse(c, s),
        k <= c.count,
    ensures
        AudioChannelTimer::pulsed_times(c, s, k).0.count == c.count - k,
        AudioChannelTimer::pulsed_times(c, s, k).0.control_a == c.control_a,
        AudioChannelTimer::pulsed_times(c, s, k).1 == s,
        AudioChannelTimer::pulsed_times(c, s, k).0.control_b & 0b11111100 == c.control_b
            & 0b11111100,
        AudioChannelTimer::shift_register(AudioChannelTimer::pulsed_times(c, s, k).0, s)
            == AudioChannelTimer::shift_register(c, s),
        forall|j: nat|
            j < k ==> !AudioChannelTimer::pulse_expires(
                (#[trigger] AudioChannelTimer::pulsed_times(c, s, j)).0,
                s,
            ),
        k == c.count ==> AudioChannelTimer::pulse_expires(
            AudioChannelTimer::pulsed_times(c, s, k).0,
            s,
        ),
    decreases k,
{
    if k > 0 {
        audio_pulses_reach_zero(c, s, (k - 1) as nat);
        audio_counting_keeps_sound(AudioChannelTimer::pulsed_times(c, s, (k - 1) as nat).0, s, 0);
    }
}

/// A silenced audio channel ignores pulses: no register changes and the
/// timer does not expire.
pub proof fn silenced_channel_ignores_pulses(c: Countdown, s: AudioSettings)
    requires
        s.disabled,
    ensures
        AudioChannelTimer::pulsed(c, s) == (c, s),
        !AudioChannelTimer::pulse_expires(c, s),
{
}

/// A clock tick leaves a silenced audio channel its counter, its control A,
/// its backup and all its sound registers, and does not expire it; it only
/// clears borrow-in and unschedules the timer. A channel that is
/// unscheduled and has borrow-in clear is left wholly as it was.
pub proof fn silenced_channel_ignores_ticks(c: Countdown, s: AudioSettings, tick: u64)
    requires
        s.disabled,
    ensures
        AudioChannelTimer::ticked(c, s, tick) == (
            Countdown {
                control_b: c.control_b & !CTRLB_BORROW_IN_BIT,
                next_trigger_tick: NEVER,
                ..c
            },
            s,
        ),
        !AudioChannelTimer::tick_expires(c, s),
        c.next_trigger_tick == NEVER && c.control_b & CTRLB_BORROW_IN_BIT == 0
            ==> AudioChannelTimer::ticked(c, s, tick) == (c, s),
{
    let b = c.control_b;
    assert(b & 0b10 == 0 ==> b & !0b10u8 == b) by (bit_vector);
}

/// Storing a value as the shift register and reading the shift register
/// back gives the low twelve bits of the value.
pub proof fn shift_register_round_trip(c: Countdown, s: AudioSettings, value: u16)
    ensures
        ({
            let stored = AudioChannelTimer::with_shift_register(c, s, value);
            AudioChannelTimer::shift_register(stored.0, stored.1) == value & 0b1111_11111111
        }),
{
    let b = c.control_b;
    assert(((value & 0b11111111) as u8) as u16 | (((((b & !0b11110000u8) | (((value
        & 0b00001111_00000000) >> 4) as u8)) as u16) & 0b11110000) << 4) == value
        & 0b1111_11111111) by (bit_vector);
}

/// Storing a value as the tap mask and reading the tap mask back gives taps
/// 0 to 5, 7, 10 and 11 of the value.
pub proof fn feedback_taps_round_trip(c: Countdown, s: AudioSettings, taps: u16)
    ensures
        ({
            let stored = AudioChannelTimer::with_feedback(c, s, taps);
            AudioChannelTimer::feedback_taps(stored.0, stored.1) == taps & 0b1100_10111111
        }),
{
    let a = c.control_a;
    let low = (taps & 0b11111111) as u8;
    let f = (low & 0b00111111) | (((taps & 0b00001100_00000000) >> 4) as u8);
    let a2 = (a & !0b10000000u8) | (low & 0b10000000);
    assert(low == (taps & 0b11111111) as u8 && f == (low & 0b00111111) | (((taps
        & 0b00001100_00000000) >> 4) as u8) && a2 == (a & !0b10000000u8) | (low & 0b10000000) ==> (
    f as u16 & 0b00111111) | ((f as u16 & 0b11000000) << 4) | ((a2 & 0b10000000) as u16) == taps
        & 0b1100_10111111) by (bit_vector);
}

/// An expiry shifts the shift register left by one place, drops bit 12 and
/// puts the feedback bit in bit 0.
pub proof fn expiry_shifts_register(c: Countdown, s: AudioSettings)
    ensures
        ({
            let after = AudioChannelTimer::stepped(c, s);
            AudioChannelTimer::shift_register(after.0, after.1) == ((
            AudioChannelTimer::shift_register(c, s) << 1) | AudioChannelTimer::feedback_bit(c, s))
                & 0b1111_11111111
        }),
{
    let bit = AudioChannelTimer::feedback_bit(c, s);
    shift_register_round_trip(c, s, (AudioChannelTimer::shift_register(c, s) << 1) | bit);
}

/// The tick that expires a base timer reloads the counter from the backup
/// if reload is enabled and leaves it at zero and the timer unscheduled if
/// not; either way the same tick sets done and borrow-out.
pub proof fn base_expiry_reloads_or_stops(c: Countdown, tick: u64)
    requires
        BaseTimer::tick_expires(c),
    ensures
        c.reload_enabled() ==> BaseTimer::ticked(c, tick).count == c.backup,
        !c.reload_enabled() ==> BaseTimer::ticked(c, tick).count == 0 && BaseTimer::ticked(
            c,
            tick,
        ).next_trigger_tick == NEVER,
        BaseTimer::ticked(c, tick).control_b & CTRLB_TIMER_DONE_BIT != 0,
        BaseTimer::ticked(c, tick).control_b & CTRLB_BORROW_OUT_BIT != 0,
{
    let cleared = Countdown {
        control_b: c.control_b & !CTRLB_BORROW_IN_BIT,
        next_trigger_tick: (tick + c.clock_ticks()) as u64,
        ..c
    };
    count_down_marks_control_b(cleared);
}

/// The pulse that expires a base timer reloads the counter from the backup
/// if reload is enabled and leaves it at zero if not; either way the same
/// pulse sets done and borrow-out.
pub proof fn base_pulse_expiry_reloads_or_stops(c: Countdown)
    requires
        BaseTimer::pulse_expires(c),
    ensures
        c.reload_enabled() ==> BaseTimer::pulsed(c).count == c.backup,
        !c.reload_enabled() ==> BaseTimer::pulsed(c).count == 0 && BaseTimer::pulsed(
            c,
        ).next_trigger_tick == NEVER,
        BaseTimer::pulsed(c).control_b & CTRLB_TIMER_DONE_BIT != 0,
        BaseTimer::pulsed(c).control_b & CTRLB_BORROW_OUT_BIT != 0,
{
    count_down_marks_control_b(c);
}

/// The count-down step that expires an audio timer reloads the counter from
/// the backup if reload is enabled and leaves it at zero and the timer
/// unscheduled if not; either way the same step sets done and borrow-out,
/// and the shift register's step leaves them set.
pub proof fn audio_expiry_reloads_or_stops(c: Countdown, s: AudioSettings)
    requires
        c.expires(),
    ensures
        c.reload_enabled() ==> AudioChannelTimer::counted_down(c, s).0.count == c.backup,
        !c.reload_enabled() ==> AudioChannelTimer::counted_down(c, s).0.count == 0
            && AudioChannelTimer::counted_down(c, s).0.next_trigger_tick == NEVER,
        AudioChannelTimer::counted_down(c, s).0.control_b & CTRLB_TIMER_DONE_BIT != 0,
        AudioChannelTimer::counted_down(c, s).0.control_b & CTRLB_BORROW_OUT_BIT != 0,
{
    count_down_marks_control_b(c);
    let b = c.counted_down().control_b;
    assert(forall|x: u8|
        (#[trigger] ((b & !0b11110000u8) | x) & 0b1000 != 0 <== b & 0b1000 != 0) && (((b
            & !0b11110000u8) | x) & 0b1 != 0 <== b & 0b1 != 0)) by (bit_vector);
}

/// A count-down step that does not expire the timer changes borrow-in and
/// borrow-out alone of control B: done and the high four bits stay.
pub proof fn counting_keeps_done(c: Countdown)
    requires
        !c.expires(),
    ensures
        c.counted_down().control_b & 0b11111100 == c.control_b & 0b11111100,
{
    let b = c.control_b;
    assert(((b & !0b1u8) | 0b10) & 0b11111100 == b & 0b11111100) by (bit_vector);
}

/// A clock tick or a pulse that does not expire an audio timer takes one
/// off the counter and leaves the done flag, the shift register and every
/// sound register as they were.
pub proof fn audio_counting_keeps_sound(c: Countdown, s: AudioSettings, tick: u64)
    requires
        AudioChannelTimer::runs(c, s),
        !c.expires(),
    ensures
        ({
            let ticked = AudioChannelTimer::ticked(c, s, tick);
            &&& ticked.0.count == c.count - 1
            &&& ticked.1 == s
            &&& ticked.0.control_b & 0b11111100 == c.control_b & 0b11111100
            &&& AudioChannelTimer::shift_register(ticked.0, ticked.1)
                == AudioChannelTimer::shift_register(c, s)
        }),
        c.is_linked() ==> ({
            let pulsed = AudioChannelTimer::pulsed(c, s);
            &&& pulsed.0.count == c.count - 1
            &&& pulsed.1 == s
            &&& pulsed.0.control_b & 0b11111100 == c.control_b & 0b11111100
            &&& AudioChannelTimer::shift_register(pulsed.0, pulsed.1)
                == AudioChannelTimer::shift_register(c, s)
        }),
{
    let b = c.control_b;
    assert((((b & !0b10u8) & !0b1u8) | 0b10) & 0b11111100 == b & 0b11111100 && ((((b & !0b10u8)
        & !0b1u8) | 0b10) as u16 & 0b11110000) == (b as u16 & 0b11110000)) by (bit_vector);
    assert(((b & !0b1u8) | 0b10) & 0b11111100 == b & 0b11111100 && (((b & !0b1u8) | 0b10) as u16
        & 0b11110000) == (b as u16 & 0b11110000)) by (bit_vector);
}

/// A step of the shift register stores the shifted value, its low byte in
/// the shift register byte and bits 8 to 11 in the high four bits of
/// control B, and the sample; it leaves the low four bits of control B, the
/// counter, the backup, control A, the schedule, the volume, the feedback
/// register and the silencing as they were.
pub proof fn step_stores_register(c: Countdown, s: AudioSettings)
    ensures
        ({
            let value = (AudioChannelTimer::shift_register(c, s) << 1)
                | AudioChannelTimer::feedback_bit(c, s);
            let after = AudioChannelTimer::stepped(c, s);
            &&& after.1.shift_register == (value & 0b11111111) as u8
            &&& after.0.control_b >> 4 == ((value >> 8) & 0b1111) as u8
            &&& after.0.control_b & 0b1111 == c.control_b & 0b1111
            &&& after.1.output == AudioChannelTimer::next_output(
                c,
                s,
                AudioChannelTimer::feedback_bit(c, s),
            )
            &&& after.0 == (Countdown { control_b: after.0.control_b, ..c })
            &&& after.1 == (AudioSettings {
                shift_register: after.1.shift_register,
                output: after.1.output,
                ..s
            })
        }),
{
    let b = c.control_b;
    let value = (AudioChannelTimer::shift_register(c, s) << 1) | AudioChannelTimer::feedback_bit(
        c,
        s,
    );
    assert(((b & !0b11110000u8) | (((value & 0b00001111_00000000) >> 4) as u8)) >> 4 == ((value
        >> 8) & 0b1111) as u8 && ((b & !0b11110000u8) | (((value & 0b00001111_00000000)
        >> 4) as u8)) & 0b1111 == b & 0b1111) by (bit_vector);
}

/// The clock tick that expires an audio timer does all of it at once: it
/// reports the expiry, reloads the counter from the backup if reload is
/// enabled, sets done and borrow-out, schedules a clocked timer with reload
/// one period ahead, and steps the shift register once.
pub proof fn audio_expiring_tick_does_all(c: Countdown, s: AudioSettings, tick: u64)
    requires
        AudioChannelTimer::tick_expires(c, s),
    ensures
        ({
            let after = AudioChannelTimer::ticked(c, s, tick);
            &&& c.reload_enabled() ==> after.0.count == c.backup
            &&& !c.reload_enabled() ==> after.0.count == 0 && after.0.next_trigger_tick == NEVER
            &&& after.0.control_b & 0b1001 == 0b1001
            &&& c.reload_enabled() && c.clocked() && c.can_schedule(tick)
                ==> after.0.next_trigger_tick == tick + TIMER_TICKS_COUNT * pow2(c.period() as nat)
            &&& AudioChannelTimer::shift_register(after.0, after.1) == ((
            AudioChannelTimer::shift_register(c, s) << 1) | AudioChannelTimer::feedback_bit(c, s))
                & 0b1111_11111111
            &&& after.1.output == AudioChannelTimer::next_output(
                c,
                s,
                AudioChannelTimer::feedback_bit(c, s),
            )
        }),
{
    let started = Countdown {
        control_b: c.control_b & !CTRLB_BORROW_IN_BIT,
        next_trigger_tick: (tick + c.clock_ticks()) as u64,
        ..c
    };
    let counted = started.counted_down();
    let b = c.control_b;
    assert((((((b & !0b10u8) & !0b1u8) | 0b10) | (0b1000u8 | 0b1u8)) as u16 & 0b11110000) == (b as u16
        & 0b11110000)) by (bit_vector);
    assert(AudioChannelTimer::shift_register(counted, s) == AudioChannelTimer::shift_register(c, s));
    assert(AudioChannelTimer::feedback_taps(counted, s) == AudioChannelTimer::feedback_taps(c, s));
    expiry_shifts_register(counted, s);
    audio_expiry_reloads_or_stops(started, s);
    let a = AudioChannelTimer::ticked(c, s, tick).0.control_b;
    assert(a & 0b1000 != 0 && a & 0b1 != 0 ==> a & 0b1001 == 0b1001) by (bit_vector);
}

/// A write of a count other than zero to a clocked timer schedules it one
/// period after the write, also when an expiry without reload had left it
/// unscheduled.
pub proof fn count_write_rearms(c: Countdown, value: u8, tick: u64)
    requires
        c.clocked(),
        value != 0,
        c.can_schedule(tick),
    ensures
        c.with_count(value, tick).count == value,
        c.with_count(value, tick).next_trigger_tick == tick + TIMER_TICKS_COUNT * pow2(
            c.period() as nat,
        ),
        c.wf() ==> c.with_count(value, tick).wf(),
{
}

} // verus!
