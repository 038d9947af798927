use holani::mikey::timers::audio_channel_timer::{AudioChannelTimer, AudioSettings};
use holani::mikey::timers::NEVER;

const ENABLE: u8 = 0x08;
const RELOAD: u8 = 0x10;
const INTEGRATE: u8 = 0x20;
const LINKED: u8 = 0x07;

fn channel(control_a: u8, feedback: u8, volume: u8, shift_register: u16) -> (AudioChannelTimer, AudioSettings) {
    let mut t = AudioChannelTimer::new(8, Some(9));
    let mut s = AudioSettings::default();
    t.set_control_a(control_a, 0);
    s.feedback = feedback;
    s.volume = volume;
    t.set_audio_shift_register(&mut s, shift_register);
    (t, s)
}

fn run(t: &mut AudioChannelTimer, s: &mut AudioSettings, outputs: &[i8], registers: &[u16]) {
    for (event, (output, register)) in outputs.iter().zip(registers.iter()).enumerate() {
        assert_eq!(t.tick_linked(s), (true, 0), "event {}", event);
        assert_eq!(s.output, *output, "sample of event {}", event);
        assert_eq!(t.audio_shift_register(s), *register, "shift register of event {}", event);
        assert_eq!(t.control_b() & 0x0f, 0x0b);
    }
}

#[test]
fn audio_timer_starts_idle() {
    let t = AudioChannelTimer::new(9, Some(10));
    assert_eq!(t.id(), 9);
    assert_eq!(t.linked_timer(), Some(10));
    assert_eq!(t.backup(), 0);
    assert_eq!(t.control_a(), 0);
    assert_eq!(t.control_b(), 0);
    assert_eq!(t.count(), 0);
    assert_eq!(t.next_trigger_tick(), NEVER);
    assert!(!t.is_linked());
    assert_eq!(
        AudioSettings::default(),
        AudioSettings { volume: 0, feedback: 0, shift_register: 0, output: 0, disabled: false }
    );
}

#[test]
fn audio_timer_linking_period_unschedules() {
    for flags in [0u8, ENABLE, ENABLE | RELOAD, 0x80, 0xF8] {
        let mut t = AudioChannelTimer::new(8, Some(9));
        t.set_control_a(ENABLE, 500);
        assert_eq!(t.next_trigger_tick(), 516);
        t.set_control_a(flags | LINKED, 1000);
        assert!(t.is_linked());
        assert_eq!(t.next_trigger_tick(), NEVER);
    }
}

#[test]
fn audio_timer_control_a_schedules_one_period_ahead() {
    let periods: [u64; 7] = [16, 32, 64, 128, 256, 512, 1024];
    for p in 0..7u8 {
        let mut t = AudioChannelTimer::new(8, Some(9));
        t.set_control_a(ENABLE | p, 7);
        assert_eq!(t.next_trigger_tick(), 7 + periods[p as usize]);
    }
}

#[test]
fn audio_timer_tick_reschedules_exactly() {
    let mut t = AudioChannelTimer::new(8, Some(9));
    let mut s = AudioSettings::default();
    t.set_control_a(ENABLE | 3, 0);
    t.set_count(2, 0);
    assert_eq!(t.tick(128, &mut s), (false, 0));
    assert_eq!(t.next_trigger_tick(), 256);
    assert_eq!(t.tick(300, &mut s), (false, 0));
    assert_eq!(t.next_trigger_tick(), 428);
    assert_eq!(t.tick(428, &mut s), (true, 0));
    assert_eq!(t.next_trigger_tick(), NEVER);
}

#[test]
fn audio_timer_counts_down_to_zero_then_expires() {
    let mut t = AudioChannelTimer::new(8, Some(9));
    let mut s = AudioSettings::default();
    s.volume = 9;
    t.set_control_a(ENABLE | RELOAD | LINKED, 0);
    t.set_backup(4);
    t.set_count(4, 0);
    for k in 1..=4u8 {
        assert_eq!(t.tick_linked(&mut s), (false, 0));
        assert_eq!(t.count(), 4 - k);
        assert_eq!(s.output, 0);
    }
    assert_eq!(t.tick_linked(&mut s), (true, 0));
    assert_eq!(t.count(), 4);
    assert_eq!(s.output, -9);
    assert_eq!(t.control_b(), 0x0b);
    assert_eq!(s.shift_register, 1);
}

#[test]
fn audio_timer_tap_mask_packing() {
    let (t, s) = channel(0x80 | ENABLE, 0xff, 0, 0);
    assert_eq!(t.audio_feedback_taps(&s), 0xcbf);
    let (t, s) = channel(ENABLE, 0xff, 0, 0);
    assert_eq!(t.audio_feedback_taps(&s), 0xc3f);
    let (t, s) = channel(0x80, 0x00, 0, 0);
    assert_eq!(t.audio_feedback_taps(&s), 0x080);
    let (t, s) = channel(0, 0x40, 0, 0);
    assert_eq!(t.audio_feedback_taps(&s), 0x400);
    let (t, s) = channel(0, 0x81, 0, 0);
    assert_eq!(t.audio_feedback_taps(&s), 0x801);
}

#[test]
fn audio_timer_set_audio_feedback_round_trip() {
    let (mut t, mut s) = channel(ENABLE | RELOAD | 3, 0, 0, 0);
    t.set_audio_feedback(&mut s, 0xfff);
    assert_eq!(s.feedback, 0xff);
    assert_eq!(t.control_a(), 0x80 | ENABLE | RELOAD | 3);
    assert_eq!(t.audio_feedback_taps(&s), 0xcbf);
    t.set_audio_feedback(&mut s, 0x415);
    assert_eq!(s.feedback, 0x55);
    assert_eq!(t.control_a(), ENABLE | RELOAD | 3);
    assert_eq!(t.audio_feedback_taps(&s), 0x415);
    assert!(!t.is_linked());
}

#[test]
fn audio_timer_shift_register_packing() {
    let (mut t, mut s) = channel(0, 0, 0, 0);
    t.set_control_b(0x0f);
    t.set_audio_shift_register(&mut s, 0xabc);
    assert_eq!(s.shift_register, 0xbc);
    assert_eq!(t.control_b(), 0xaf);
    assert_eq!(t.audio_shift_register(&s), 0xabc);
    t.set_audio_shift_register(&mut s, 0x1234);
    assert_eq!(s.shift_register, 0x34);
    assert_eq!(t.control_b(), 0x2f);
    assert_eq!(t.audio_shift_register(&s), 0x234);
    t.set_shift_register(&mut s, 0x99);
    assert_eq!(s.shift_register, 0x99);
    assert_eq!(t.audio_shift_register(&s), 0x299);
}

#[test]
fn audio_timer_golden_sequence() {
    let (mut t, mut s) = channel(ENABLE | RELOAD | LINKED, 0x43, 0x40, 0x35a);
    let outputs: [i8; 20] = [
        64, 64, 64, -64, -64, -64, 64, -64, 64, -64, 64, 64, -64, 64, -64, -64, 64, 64, 64, -64,
    ];
    let registers: [u16; 20] = [
        0x6b4, 0xd68, 0xad0, 0x5a1, 0xb43, 0x687, 0xd0e, 0xa1d, 0x43a, 0x875, 0x0ea, 0x1d4, 0x3a9,
        0x752, 0xea5, 0xd4b, 0xa96, 0x52c, 0xa58, 0x4b1,
    ];
    run(&mut t, &mut s, &outputs, &registers);
}

#[test]
fn audio_timer_golden_sequence_with_tap_7() {
    let (mut t, mut s) = channel(0x80 | ENABLE | RELOAD | LINKED, 0x20, 0x7f, 0x080);
    let outputs: [i8; 20] = [
        127, -127, -127, -127, -127, -127, -127, 127, 127, -127, -127, -127, -127, 127, 127, 127,
        127, -127, -127, 127,
    ];
    let registers: [u16; 20] = [
        0x100, 0x201, 0x403, 0x807, 0x00f, 0x01f, 0x03f, 0x07e, 0x0fc, 0x1f9, 0x3f3, 0x7e7, 0xfcf,
        0xf9e, 0xf3c, 0xe78, 0xcf0, 0x9e1, 0x3c3, 0x786,
    ];
    run(&mut t, &mut s, &outputs, &registers);
}

#[test]
fn audio_timer_integrate_mode_saturates() {
    let (mut t, mut s) = channel(INTEGRATE | ENABLE | RELOAD | LINKED, 0x43, 100, 0x35a);
    let outputs: [i8; 20] = [
        100, 127, 127, 27, -73, -128, -28, -128, -28, -128, -28, 72, -28, 72, -28, -128, -28, 72,
        127, 27,
    ];
    let registers: [u16; 20] = [
        0x6b4, 0xd68, 0xad0, 0x5a1, 0xb43, 0x687, 0xd0e, 0xa1d, 0x43a, 0x875, 0x0ea, 0x1d4, 0x3a9,
        0x752, 0xea5, 0xd4b, 0xa96, 0x52c, 0xa58, 0x4b1,
    ];
    run(&mut t, &mut s, &outputs, &registers);
}

#[test]
fn audio_timer_integrate_mode_at_the_bounds() {
    let (mut t, mut s) = channel(INTEGRATE | ENABLE | RELOAD | LINKED, 0, 1, 0);
    s.output = 127;
    assert_eq!(t.tick_linked(&mut s), (true, 0));
    assert_eq!(s.output, 126);
    let (mut t, mut s) = channel(INTEGRATE | ENABLE | RELOAD | LINKED, 0, 0xff, 0);
    s.output = 127;
    assert_eq!(t.tick_linked(&mut s), (true, 0));
    assert_eq!(s.output, 127);
    let (mut t, mut s) = channel(INTEGRATE | ENABLE | RELOAD | LINKED, 0, 1, 0);
    s.output = -128;
    assert_eq!(t.tick_linked(&mut s), (true, 0));
    assert_eq!(s.output, -128);
    let (mut t, mut s) = channel(INTEGRATE | ENABLE | RELOAD | LINKED, 1, 1, 1);
    s.output = 127;
    assert_eq!(t.tick_linked(&mut s), (true, 0));
    assert_eq!(s.output, 127);
    assert_eq!(t.audio_shift_register(&s), 2);
}

#[test]
fn audio_timer_negated_volume_saturates() {
    let (mut t, mut s) = channel(ENABLE | RELOAD | LINKED, 0x00, 0x80, 0x000);
    let outputs: [i8; 4] = [127, 127, 127, 127];
    let registers: [u16; 4] = [0x001, 0x003, 0x007, 0x00f];
    run(&mut t, &mut s, &outputs, &registers);
    let (mut t, mut s) = channel(ENABLE | RELOAD | LINKED, 0x01, 0x80, 0x001);
    assert_eq!(t.tick_linked(&mut s), (true, 0));
    assert_eq!(s.output, -128);
}

#[test]
fn audio_timer_silenced_channel_ignores_pulses_and_ticks() {
    let (mut t, mut s) = channel(ENABLE | RELOAD | LINKED, 0x01, 0x40, 0x35a);
    s.output = 17;
    s.disabled = true;
    let before = s;
    let control_b = t.control_b();
    for _ in 0..5 {
        assert_eq!(t.tick_linked(&mut s), (false, 0));
        assert_eq!(s, before);
        assert_eq!(t.control_b(), control_b);
        assert_eq!(t.count(), 0);
    }
    let (mut t, mut s) = channel(ENABLE | RELOAD, 0x01, 0x40, 0x35a);
    s.output = 17;
    s.disabled = true;
    let before = s;
    assert_eq!(t.next_trigger_tick(), 16);
    for k in 1..5u64 {
        assert_eq!(t.tick(16 * k, &mut s), (false, 0));
        assert_eq!(s, before);
        assert_eq!(t.control_b(), control_b);
        assert_eq!(t.count(), 0);
        assert_eq!(t.next_trigger_tick(), NEVER);
    }
}

#[test]
fn audio_timer_pulse_reaches_only_a_linked_enabled_timer() {
    let (mut t, mut s) = channel(ENABLE | RELOAD, 0x43, 0x40, 0x35a);
    assert_eq!(t.tick_linked(&mut s), (false, 0));
    assert_eq!(s.output, 0);
    assert_eq!(t.audio_shift_register(&s), 0x35a);
    let (mut t, mut s) = channel(RELOAD | LINKED, 0x43, 0x40, 0x35a);
    assert_eq!(t.tick_linked(&mut s), (false, 0));
    assert_eq!(s.output, 0);
    assert_eq!(t.audio_shift_register(&s), 0x35a);
}

#[test]
fn audio_timer_reset_bit_clears_done() {
    let mut t = AudioChannelTimer::new(8, Some(9));
    t.set_control_b(0xff);
    t.set_control_a(ENABLE | 0x40, 0);
    assert_eq!(t.control_b(), 0xf7);
    t.set_control_b(0x0f);
    t.reset_timer_done();
    assert_eq!(t.control_b(), 0x07);
}

#[test]
fn audio_timer_without_reload_stops_on_expiry() {
    let (mut t, mut s) = channel(ENABLE | 1, 0x43, 0x40, 0x35a);
    t.set_backup(9);
    assert_eq!(t.next_trigger_tick(), 32);
    assert_eq!(t.tick(32, &mut s), (true, 0));
    assert_eq!(t.count(), 0);
    assert_eq!(t.next_trigger_tick(), NEVER);
    assert_eq!(s.output, 64);
    t.set_count(3, 100);
    assert_eq!(t.next_trigger_tick(), 132);
}
