//! An audio channel timer: a countdown timer whose every expiry steps a
//! 12-bit linear-feedback shift register and puts out a sample.

use vstd::prelude::*;
use vstd::arithmetic::power2::pow2;
use crate::mikey::timers::countdown::{
    clock_ticks_of, lemma_clock_ticks, lemma_power_on, period_of, Countdown,
};
use crate::mikey::timers::{
    CTRLA_ENABLE_COUNT_BIT, CTRLA_ENABLE_RELOAD_BIT, CTRLA_MAGMODE_BIT, CTRLA_PERIOD_BIT,
    CTRLA_RESET_DONE_BIT, CTRLB_BORROW_IN_BIT, CTRLB_BORROW_OUT_BIT, CTRLB_TIMER_DONE_BIT, NEVER,
    TIMER_TICKS_COUNT,
};

verus! {

#[derive(Clone, Copy, Debug)]
/// An audio channel timer: its registers, and beside them the control bits and the
/// clock that control A decodes to.
pub struct AudioChannelTimer {
    id: u8,
    backup: u8,
    control_a: u8,
    count: u8,
    control_b: u8,
    clock_ticks: Option<u32>,
    next_trigger_tick: u64,
    linked_timer: Option<u8>,
    is_linked: bool,
    count_enabled: bool,
    reload_enabled: bool,
}

/// The sound registers of one audio channel.
#[derive(Clone, Copy, Debug, PartialEq, Eq)]
pub struct AudioSettings {
    /// The volume, a signed byte.
    pub volume: u8,
    /// Feedback taps 0 to 5 in bits 0 to 5, taps 10 and 11 in bits 6 and 7.
    pub feedback: u8,
    /// The low eight bits of the shift register.
    pub shift_register: u8,
    /// The sample that the channel puts out.
    pub output: i8,
    /// The channel is silent: its backup is 0 and its feedback 1.
    pub disabled: bool,
}

impl Default for AudioSettings {
    fn default() -> (r: Self)
        ensures
            r == Self::silent(),
    {
        Self { volume: 0, feedback: 0, shift_register: 0, output: 0, disabled: false }
    }
}

impl AudioSettings {
    /// The sound registers at power-on.
    pub open spec fn silent() -> AudioSettings {
        AudioSettings { volume: 0, feedback: 0, shift_register: 0, output: 0, disabled: false }
    }
}

impl View for AudioChannelTimer {
    type V = Countdown;

    closed spec fn view(&self) -> Countdown {
        Countdown {
            id: self.id,
            backup: self.backup,
            control_a: self.control_a,
            count: self.count,
            control_b: self.control_b,
            next_trigger_tick: self.next_trigger_tick,
            linked_timer: self.linked_timer,
        }
    }
}

/// How many of the low `n` bits of `x` are set.
pub open spec fn ones(x: u16, n: nat) -> nat
    decreases n,
{
    if n == 0 {
        0
    } else {
        ones(x, (n - 1) as nat) + if (x >> ((n - 1) as u16)) & 1 == 1 {
            1nat
        } else {
            0nat
        }
    }
}

/// A byte read as a signed number in two's complement.
pub open spec fn signed(v: u8) -> i8 {
    if v < 128 {
        v as i8
    } else {
        (v - 256) as i8
    }
}

/// The signed byte nearest to `x`.
pub open spec fn saturated(x: int) -> i8 {
    if x > 127 {
        127i8
    } else if x < -128 {
        -128i8
    } else {
        x as i8
    }
}

impl AudioChannelTimer {
    /// The 12-bit tap mask: taps 0 to 5 and 10 to 11 from the feedback
    /// register, tap 7 from bit 7 of control A.
    pub open spec fn feedback_taps(c: Countdown, s: AudioSettings) -> u16 {
        (s.feedback as u16 & 0b00111111) | ((s.feedback as u16 & 0b11000000) << 4) | ((c.control_a
            & 0b10000000) as u16)
    }

    /// The 12-bit shift register: its low byte from the shift register byte,
    /// its high four bits from the high four bits of control B.
    pub open spec fn shift_register(c: Countdown, s: AudioSettings) -> u16 {
        s.shift_register as u16 | ((c.control_b as u16 & 0b11110000) << 4)
    }

    /// The bit that an expiry shifts in: the inverted parity of the tapped
    /// bits of the shift register.
    pub open spec fn feedback_bit(c: Countdown, s: AudioSettings) -> u16 {
        if ones(Self::feedback_taps(c, s) & Self::shift_register(c, s), 16) % 2 == 0 {
            1
        } else {
            0
        }
    }

    /// The registers after `value` is stored as the shift register: its low
    /// byte in the shift register byte, bits 8 to 11 in the high four bits of
    /// control B.
    pub open spec fn with_shift_register(c: Countdown, s: AudioSettings, value: u16) -> (
        Countdown,
        AudioSettings,
    ) {
        (
            Countdown {
                control_b: (c.control_b & !0b11110000u8) | (((value & 0b00001111_00000000) >> 4) as u8),
                ..c
            },
            AudioSettings { shift_register: (value & 0b11111111) as u8, ..s },
        )
    }

    /// The registers after `taps` is stored as the tap mask: taps 0 to 5 in
    /// bits 0 to 5 of the feedback register, taps 10 and 11 in its bits 6 and
    /// 7, tap 7 in bit 7 of control A.
    pub open spec fn with_feedback(c: Countdown, s: AudioSettings, taps: u16) -> (
        Countdown,
        AudioSettings,
    ) {
        let low = (taps & 0b11111111) as u8;
        (
            Countdown { control_a: (c.control_a & !0b10000000u8) | (low & 0b10000000), ..c },
            AudioSettings {
                feedback: (low & 0b00111111) | (((taps & 0b00001100_00000000) >> 4) as u8),
                ..s
            },
        )
    }

    /// The sample after an expiry that shifts in `bit`. In integrate mode
    /// the volume is added to the last sample for a 0 and subtracted for a 1;
    /// otherwise the sample is the volume for a 0, its negative for a 1.
    /// Sums, differences and the negative saturate.
    pub open spec fn next_output(c: Countdown, s: AudioSettings, bit: u16) -> i8 {
        let volume = signed(s.volume);
        if c.integrate() {
            if bit == 0 {
                saturated(s.output + volume)
            } else {
                saturated(s.output - volume)
            }
        } else {
            if bit == 0 {
                volume
            } else {
                saturated(-volume)
            }
        }
    }

    /// The registers after the shift register steps once and the sample
    /// follows it.
    pub open spec fn stepped(c: Countdown, s: AudioSettings) -> (Countdown, AudioSettings) {
        let bit = Self::feedback_bit(c, s);
        let shifted = Self::with_shift_register(c, s, (Self::shift_register(c, s) << 1) | bit);
        (shifted.0, AudioSettings { output: Self::next_output(c, s, bit), ..shifted.1 })
    }

    /// The registers after one count-down step: the counter's step, and with
    /// an expiry a step of the shift register.
    pub open spec fn counted_down(c: Countdown, s: AudioSettings) -> (Countdown, AudioSettings) {
        if c.expires() {
            Self::stepped(c.counted_down(), s)
        } else {
            (c.counted_down(), s)
        }
    }

    /// Whether the channel counts at all: counting is enabled and the
    /// channel is not silenced.
    pub open spec fn runs(c: Countdown, s: AudioSettings) -> bool {
        c.count_enabled() && !s.disabled
    }

    /// The registers after the clock drives the timer at `tick`. Borrow-in
    /// is cleared; a channel that does not run is unscheduled; one that runs
    /// is scheduled one period ahead and counts down once.
    pub open spec fn ticked(c: Countdown, s: AudioSettings, tick: u64) -> (
        Countdown,
        AudioSettings,
    ) {
        let cleared = Countdown { control_b: c.control_b & !CTRLB_BORROW_IN_BIT, ..c };
        if !Self::runs(c, s) {
            (Countdown { next_trigger_tick: NEVER, ..cleared }, s)
        } else {
            Self::counted_down(
                Countdown { next_trigger_tick: (tick + c.clock_ticks()) as u64, ..cleared },
                s,
            )
        }
    }

    /// Whether a clock tick expires the timer.
    pub open spec fn tick_expires(c: Countdown, s: AudioSettings) -> bool {
        Self::runs(c, s) && c.expires()
    }

    /// Whether a pulse from the predecessor reaches the counter: only a
    /// linked channel that runs counts pulses.
    pub open spec fn hears_pulse(c: Countdown, s: AudioSettings) -> bool {
        c.is_linked() && Self::runs(c, s)
    }

    /// The registers after a pulse from the predecessor.
    pub open spec fn pulsed(c: Countdown, s: AudioSettings) -> (Countdown, AudioSettings) {
        if Self::hears_pulse(c, s) {
            Self::counted_down(c, s)
        } else {
            (c, s)
        }
    }

    /// Whether a pulse from the predecessor expires the timer.
    pub open spec fn pulse_expires(c: Countdown, s: AudioSettings) -> bool {
        Self::hears_pulse(c, s) && c.expires()
    }

    /// The decoded control bits and the clock agree with control A.
    pub closed spec fn decoded(&self) -> bool {
        &&& self.is_linked == self@.is_linked()
        &&& self.count_enabled == self@.count_enabled()
        &&& self.reload_enabled == self@.reload_enabled()
        &&& self.clock_ticks == if self@.is_linked() {
            None
        } else {
            Some(self@.clock_ticks() as u32)
        }
    }

    /// The timer is well formed: what is decoded agrees with control A, and
    /// only a clocked timer is scheduled.
    pub open spec fn wf(&self) -> bool {
        &&& self.decoded()
        &&& self@.wf()
    }

    /// Timer `id` at power-on, with the timer that it pulses when it expires.
    pub fn new(id: u8, linked_timer: Option<u8>) -> (r: Self)
        ensures
            r.wf(),
            r@ == Countdown::initial(id, linked_timer),
    {
        proof {
            lemma_power_on();
        }
        Self {
            id,
            backup: 0,
            control_a: 0,
            count: 0,
            control_b: 0,
            clock_ticks: Some(TIMER_TICKS_COUNT as u32),
            next_trigger_tick: NEVER,
            linked_timer,
            is_linked: false,
            count_enabled: false,
            reload_enabled: false,
        }
    }

    /// The timer that this one pulses when it expires.
    pub fn linked_timer(&self) -> (r: Option<u8>)
        ensures
            r == self@.linked_timer,
    {
        self.linked_timer
    }

    pub fn id(&self) -> (r: u8)
        ensures
            r == self@.id,
    {
        self.id
    }

    pub fn backup(&self) -> (r: u8)
        ensures
            r == self@.backup,
    {
        self.backup
    }

    /// Writes the backup register.
    pub fn set_backup(&mut self, v: u8)
        ensures
            final(self)@ == (Countdown { backup: v, ..old(self)@ }),
            old(self).wf() ==> final(self).wf(),
    {
        self.backup = v;
    }

    pub fn control_a(&self) -> (r: u8)
        ensures
            r == self@.control_a,
    {
        self.control_a
    }

    pub fn control_b(&self) -> (r: u8)
        ensures
            r == self@.control_b,
    {
        self.control_b
    }

    /// Clears the done flag of control B.
    pub fn reset_timer_done(&mut self)
        ensures
            final(self)@ == (Countdown {
                control_b: old(self)@.control_b & !CTRLB_TIMER_DONE_BIT,
                ..old(self)@
            }),
            old(self).wf() ==> final(self).wf(),
    {
        self.control_b = self.control_b & !CTRLB_TIMER_DONE_BIT;
    }

    /// Writes control A at `current_tick`.
    pub fn set_control_a(&mut self, value: u8, current_tick: u64)
        requires
            old(self).wf(),
            Countdown::arms(value) ==> current_tick + clock_ticks_of(value) <= u64::MAX,
        ensures
            final(self).wf(),
            final(self)@ == old(self)@.with_control_a(value, current_tick),
            period_of(value) == 7 ==> final(self)@.is_linked() && final(self)@.next_trigger_tick
                == NEVER,
    {
        if value & CTRLA_RESET_DONE_BIT != 0 {
            self.reset_timer_done();
        }
        self.control_a = value;
        let p = self.period();
        proof {
            lemma_clock_ticks(value);
        }
        self.clock_ticks = if p == 7 {
            None
        } else {
            Some((TIMER_TICKS_COUNT as u32) << (p as u32))
        };
        self.is_linked = p == 7;
        self.count_enabled = value & CTRLA_ENABLE_COUNT_BIT != 0;
        self.reload_enabled = value & CTRLA_ENABLE_RELOAD_BIT != 0;
        if !self.is_linked && self.count_enabled {
            self.next_trigger_tick = current_tick + self.clock_ticks.unwrap() as u64;
        } else {
            self.next_trigger_tick = NEVER;
        }
    }

    /// Writes control B.
    pub fn set_control_b(&mut self, value: u8)
        ensures
            final(self)@ == (Countdown { control_b: value, ..old(self)@ }),
            old(self).wf() ==> final(self).wf(),
    {
        self.control_b = value;
    }

    /// Writes the counter at `current_tick`.
    pub fn set_count(&mut self, value: u8, current_tick: u64)
        requires
            old(self).wf(),
            old(self)@.clocked() && value != 0 ==> old(self)@.can_schedule(current_tick),
        ensures
            final(self).wf(),
            final(self)@ == old(self)@.with_count(value, current_tick),
    {
        self.count = value;
        if !self.is_linked && self.count_enabled && value != 0 {
            proof {
                lemma_clock_ticks(self.control_a);
            }
            self.next_trigger_tick = current_tick + self.clock_ticks.unwrap() as u64;
        }
    }

    fn period(&self) -> (r: u8)
        ensures
            r == self@.period(),
            r <= 7,
    {
        proof {
            lemma_clock_ticks(self.control_a);
        }
        self.control_a & CTRLA_PERIOD_BIT
    }

    fn integrate(&self) -> (r: bool)
        ensures
            r == self@.integrate(),
    {
        self.control_a & CTRLA_MAGMODE_BIT != 0
    }

    /// Whether the timer counts its predecessor's expiries.
    pub fn is_linked(&self) -> (r: bool)
        requires
            self.wf(),
        ensures
            r == self@.is_linked(),
    {
        self.is_linked
    }

    pub fn count(&self) -> (r: u8)
        ensures
            r == self@.count,
    {
        self.count
    }

    /// The tick at which the clock next drives the timer, or `NEVER`.
    pub fn next_trigger_tick(&self) -> (r: u64)
        ensures
            r == self@.next_trigger_tick,
    {
        self.next_trigger_tick
    }

    /// Writes the low byte of the shift register.
    pub fn set_shift_register(&mut self, settings: &mut AudioSettings, shift_register: u8)
        ensures
            *final(self) == *old(self),
            *final(settings) == (AudioSettings { shift_register, ..*old(settings) }),
    {
        settings.shift_register = shift_register;
    }

    /// Stores the low 12 bits of `value` as the shift register.
    pub fn set_audio_shift_register(&mut self, settings: &mut AudioSettings, value: u16)
        ensures
            (final(self)@, *final(settings)) == Self::with_shift_register(
                old(self)@,
                *old(settings),
                value,
            ),
            old(self).wf() ==> final(self).wf(),
    {
        settings.shift_register = (value & 0b11111111) as u8;
        self.control_b = (self.control_b & !0b11110000u8) | (((value & 0b00001111_00000000)
            >> 4) as u8);
    }

    /// The 12-bit shift register.
    pub fn audio_shift_register(&self, settings: &AudioSettings) -> (r: u16)
        ensures
            r == Self::shift_register(self@, *settings),
    {
        settings.shift_register as u16 | ((self.control_b as u16 & 0b11110000) << 4)
    }

    /// The 12-bit tap mask.
    pub fn audio_feedback_taps(&self, settings: &AudioSettings) -> (r: u16)
        ensures
            r == Self::feedback_taps(self@, *settings),
    {
        let mut fb = settings.feedback as u16 & 0b00111111;
        fb = fb | ((settings.feedback as u16 & 0b11000000) << 4);
        fb = fb | ((self.control_a & 0b10000000) as u16);
        fb
    }

    /// Stores a 12-bit tap mask: taps 0 to 5 and 10 to 11 in the feedback
    /// register, tap 7 in bit 7 of control A.
    pub fn set_audio_feedback(&mut self, settings: &mut AudioSettings, feedback: u16)
        ensures
            (final(self)@, *final(settings)) == Self::with_feedback(
                old(self)@,
                *old(settings),
                feedback,
            ),
            old(self).wf() ==> final(self).wf(),
    {
        let low = (feedback & 0b11111111) as u8;
        proof {
            let a = self.control_a;
            assert(((a & !0b10000000u8) | (low & 0b10000000)) & 0b111 == a & 0b111 && ((a
                & !0b10000000u8) | (low & 0b10000000)) & 0b1000 == a & 0b1000 && ((a
                & !0b10000000u8) | (low & 0b10000000)) & 0b10000 == a & 0b10000) by (bit_vector);
        }
        self.control_a = (self.control_a & !0b10000000u8) | (low & 0b10000000);
        settings.feedback = (low & 0b00111111) | (((feedback & 0b00001100_00000000) >> 4) as u8);
    }

    /// One count-down step. Returns whether the timer expired; an audio
    /// timer raises no interrupt.
    fn count_down(&mut self, settings: &mut AudioSettings) -> (r: (bool, u8))
        requires
            old(self).wf(),
        ensures
            final(self).wf(),
            (final(self)@, *final(settings)) == Self::counted_down(old(self)@, *old(settings)),
            r == (old(self)@.expires(), 0u8),
    {
        self.control_b = (self.control_b & !CTRLB_BORROW_OUT_BIT) | CTRLB_BORROW_IN_BIT;
        if self.count > 0 {
            self.count = self.count - 1;
            return (false, 0);
        }
        if self.reload_enabled {
            self.count = self.backup;
        } else {
            self.next_trigger_tick = NEVER;
        }
        self.done(settings);
        (true, 0)
    }

    /// A pulse from the predecessor: a linked channel that runs counts down
    /// once, any other ignores it. Returns whether the timer expired; an
    /// audio timer raises no interrupt.
    pub fn tick_linked(&mut self, settings: &mut AudioSettings) -> (r: (bool, u8))
        requires
            old(self).wf(),
        ensures
            final(self).wf(),
            (final(self)@, *final(settings)) == Self::pulsed(old(self)@, *old(settings)),
            r == (Self::pulse_expires(old(self)@, *old(settings)), 0u8),
    {
        if !self.is_linked {
            return (false, 0);
        }
        if self.count_enabled && !settings.disabled {
            return self.count_down(settings);
        }
        (false, 0)
    }

    /// The clock drives the timer at `current_tick`. Returns whether the
    /// timer expired; an audio timer raises no interrupt.
    pub fn tick(&mut self, current_tick: u64, settings: &mut AudioSettings) -> (r: (bool, u8))
        requires
            old(self).wf(),
            Self::runs(old(self)@, *old(settings)) ==> old(self)@.clocked()
                && old(self)@.can_schedule(current_tick),
        ensures
            final(self).wf(),
            (final(self)@, *final(settings)) == Self::ticked(
                old(self)@,
                *old(settings),
                current_tick,
            ),
            Self::runs(old(self)@, *old(settings)) && (!old(self)@.expires()
                || old(self)@.reload_enabled()) ==> final(self)@.next_trigger_tick == current_tick
                + TIMER_TICKS_COUNT * pow2(old(self)@.period() as nat),
            r == (Self::tick_expires(old(self)@, *old(settings)), 0u8),
    {
        self.control_b = self.control_b & !CTRLB_BORROW_IN_BIT;
        if !self.count_enabled || settings.disabled {
            self.next_trigger_tick = NEVER;
            return (false, 0);
        }
        proof {
            lemma_clock_ticks(self.control_a);
        }
        self.next_trigger_tick = current_tick + self.clock_ticks.unwrap() as u64;
        self.count_down(settings)
    }

    /// Marks the expiry: done and borrow-out in control B, one step of the
    /// shift register, and the sample that follows from the bit shifted in.
    fn done(&mut self, settings: &mut AudioSettings)
        ensures
            (final(self)@, *final(settings)) == Self::stepped(
                Countdown {
                    control_b: old(self)@.control_b | (CTRLB_TIMER_DONE_BIT
                        | CTRLB_BORROW_OUT_BIT),
                    ..old(self)@
                },
                *old(settings),
            ),
            old(self).wf() ==> final(self).wf(),
    {
        self.control_b = self.control_b | (CTRLB_TIMER_DONE_BIT | CTRLB_BORROW_OUT_BIT);
        let taps = self.audio_feedback_taps(settings);
        let shift_reg = self.audio_shift_register(settings);
        let par: u16 = if count_ones(taps & shift_reg) % 2 == 0 {
            1
        } else {
            0
        };
        let volume = settings.volume as i8;
        proof {
            let v = settings.volume;
            assert(v as i8 == signed(v)) by (bit_vector);
        }
        let output = if self.integrate() {
            if par == 0 {
                saturate(settings.output as i16 + volume as i16)
            } else {
                saturate(settings.output as i16 - volume as i16)
            }
        } else {
            if par == 0 {
                volume
            } else {
                saturate(-(volume as i16))
            }
        };
        self.set_audio_shift_register(settings, (shift_reg << 1) | par);
        settings.output = output;
    }
}

/// Counts the set bits of `x`.
fn count_ones(x: u16) -> (r: u32)
    ensures
        r == ones(x, 16),
{
    let mut n: u32 = 0;
    let mut i: u16 = 0;
    while i < 16
        invariant
            i <= 16,
            n <= i,
            n == ones(x, i as nat),
        decreases 16 - i,
    {
        if (x >> i) & 1 == 1 {
            n = n + 1;
        }
        i = i + 1;
    }
    n
}

/// Clamps `x` to a signed byte.
fn saturate(x: i16) -> (r: i8)
    ensures
        r == saturated(x as int),
{
    if x > 127 {
        127
    } else if x < -128 {
        -128
    } else {
        x as i8
    }
}

} // verus!
