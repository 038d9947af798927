use holani::mikey::timers::base_timer::BaseTimer;
use holani::mikey::timers::NEVER;

const ENABLE: u8 = 0x08;
const RELOAD: u8 = 0x10;
const RESET_DONE: u8 = 0x40;
const INTERRUPT: u8 = 0x80;

#[test]
fn base_timer_starts_idle() {
    let t = BaseTimer::new(3, Some(4));
    assert_eq!(t.id(), 3);
    assert_eq!(t.linked_timer(), Some(4));
    assert_eq!(t.backup(), 0);
    assert_eq!(t.control_a(), 0);
    assert_eq!(t.control_b(), 0);
    assert_eq!(t.count(), 0);
    assert_eq!(t.next_trigger_tick(), NEVER);
    assert!(!t.is_linked());
}

#[test]
fn base_timer_linking_period_unschedules() {
    for flags in [0u8, ENABLE, ENABLE | RELOAD, INTERRUPT, 0xF8] {
        let mut t = BaseTimer::new(1, Some(2));
        t.set_control_a(ENABLE, 500);
        assert_eq!(t.next_trigger_tick(), 516);
        t.set_control_a(flags | 7, 1000);
        assert!(t.is_linked());
        assert_eq!(t.next_trigger_tick(), NEVER);
    }
}

#[test]
fn base_timer_control_a_schedules_one_period_ahead() {
    let periods: [u64; 7] = [16, 32, 64, 128, 256, 512, 1024];
    for p in 0..7u8 {
        let mut t = BaseTimer::new(0, Some(1));
        t.set_control_a(ENABLE | p, 1000);
        assert!(!t.is_linked());
        assert_eq!(t.next_trigger_tick(), 1000 + periods[p as usize]);
        t.set_control_a(p, 2000);
        assert_eq!(t.next_trigger_tick(), NEVER);
    }
}

#[test]
fn base_timer_tick_reschedules_exactly() {
    let mut t = BaseTimer::new(0, Some(1));
    let mut flag = false;
    t.set_control_a(ENABLE | 2, 0);
    t.set_count(10, 0);
    assert_eq!(t.next_trigger_tick(), 64);
    assert_eq!(t.tick(64, &mut flag), (false, 0));
    assert_eq!(t.next_trigger_tick(), 128);
    assert_eq!(t.tick(1000, &mut flag), (false, 0));
    assert_eq!(t.next_trigger_tick(), 1064);
    assert_eq!(t.count(), 8);
    assert!(!flag);
}

#[test]
fn base_timer_counts_down_to_zero_then_expires() {
    let mut t = BaseTimer::new(2, Some(3));
    let mut flag = false;
    t.set_control_a(ENABLE | INTERRUPT, 0);
    t.set_count(3, 0);
    for k in 1..=3u8 {
        assert_eq!(t.tick(16 * k as u64, &mut flag), (false, 0));
        assert_eq!(t.count(), 3 - k);
        assert!(!flag);
    }
    assert_eq!(t.tick(64, &mut flag), (true, 0x04));
    assert!(flag);
}

#[test]
fn base_timer_reloads_on_expiry() {
    let mut t = BaseTimer::new(5, Some(6));
    let mut flag = false;
    t.set_backup(5);
    t.set_control_a(ENABLE | RELOAD, 0);
    assert_eq!(t.tick(16, &mut flag), (true, 0));
    assert!(flag);
    assert_eq!(t.count(), 5);
    assert_eq!(t.control_b(), 0x0b);
    assert_eq!(t.next_trigger_tick(), 32);
    assert_eq!(t.tick(32, &mut flag), (false, 0));
    assert_eq!(t.count(), 4);
    assert_eq!(t.control_b(), 0x0a);
}

#[test]
fn base_timer_without_reload_stops_on_expiry() {
    let mut t = BaseTimer::new(5, Some(6));
    let mut flag = false;
    t.set_backup(5);
    t.set_control_a(ENABLE, 0);
    t.set_count(1, 0);
    assert_eq!(t.tick(16, &mut flag), (false, 0));
    assert_eq!(t.next_trigger_tick(), 32);
    assert_eq!(t.tick(32, &mut flag), (true, 0));
    assert_eq!(t.count(), 0);
    assert_eq!(t.next_trigger_tick(), NEVER);
    assert_eq!(t.control_b(), 0x0b);
    t.set_count(2, 40);
    assert_eq!(t.next_trigger_tick(), 56);
}

#[test]
fn base_timer_interrupt_bit_is_its_own() {
    for id in 0..8u8 {
        let mut with = BaseTimer::new(id, None);
        let mut without = BaseTimer::new(id, None);
        let mut flag = false;
        with.set_control_a(ENABLE | INTERRUPT, 0);
        without.set_control_a(ENABLE, 0);
        assert_eq!(with.tick(16, &mut flag), (true, 1 << id));
        assert_eq!(without.tick(16, &mut flag), (true, 0));
    }
}

#[test]
fn base_timer_reset_bit_clears_done() {
    let mut t = BaseTimer::new(0, Some(1));
    t.set_control_b(0xff);
    t.set_control_a(ENABLE, 0);
    assert_eq!(t.control_b(), 0xff);
    t.set_control_a(ENABLE | RESET_DONE, 0);
    assert_eq!(t.control_b(), 0xf7);
    assert_eq!(t.control_a(), ENABLE | RESET_DONE);
    t.set_control_b(0x0f);
    t.reset_timer_done();
    assert_eq!(t.control_b(), 0x07);
}

#[test]
fn base_timer_set_count_schedules_only_a_clocked_timer_and_a_count() {
    let mut t = BaseTimer::new(0, Some(1));
    t.set_count(9, 100);
    assert_eq!(t.count(), 9);
    assert_eq!(t.next_trigger_tick(), NEVER);
    t.set_control_a(ENABLE | 1, 100);
    assert_eq!(t.next_trigger_tick(), 132);
    t.set_count(0, 200);
    assert_eq!(t.count(), 0);
    assert_eq!(t.next_trigger_tick(), 132);
    t.set_count(4, 200);
    assert_eq!(t.next_trigger_tick(), 232);
    t.set_control_a(ENABLE | 7, 300);
    t.set_count(4, 400);
    assert_eq!(t.next_trigger_tick(), NEVER);
}

#[test]
fn base_timer_pulse_reaches_only_a_linked_enabled_timer() {
    let mut flag = false;
    let mut clocked = BaseTimer::new(1, Some(2));
    clocked.set_control_a(ENABLE, 0);
    clocked.set_count(2, 0);
    assert_eq!(clocked.tick_linked(&mut flag), (false, 0));
    assert_eq!(clocked.count(), 2);
    assert_eq!(clocked.control_b(), 0);

    let mut stopped = BaseTimer::new(1, Some(2));
    stopped.set_control_a(7, 0);
    stopped.set_count(2, 0);
    assert_eq!(stopped.tick_linked(&mut flag), (false, 0));
    assert_eq!(stopped.count(), 2);

    let mut linked = BaseTimer::new(1, Some(2));
    linked.set_control_a(ENABLE | INTERRUPT | 7, 0);
    linked.set_count(2, 0);
    assert_eq!(linked.tick_linked(&mut flag), (false, 0));
    assert_eq!(linked.tick_linked(&mut flag), (false, 0));
    assert_eq!(linked.count(), 0);
    assert!(!flag);
    assert_eq!(linked.tick_linked(&mut flag), (true, 0x02));
    assert!(flag);
    assert_eq!(linked.next_trigger_tick(), NEVER);
}

#[test]
fn base_timer_tick_of_a_stopped_timer_clears_borrow_in() {
    let mut t = BaseTimer::new(0, Some(1));
    let mut flag = false;
    t.set_control_b(0x0f);
    t.set_count(0, 0);
    assert_eq!(t.tick(16, &mut flag), (false, 0));
    assert_eq!(t.control_b(), 0x0d);
    assert_eq!(t.next_trigger_tick(), NEVER);
    assert!(!flag);
}

#[test]
fn base_timer_expiry_keeps_a_raised_flag() {
    let mut t = BaseTimer::new(0, Some(1));
    let mut flag = true;
    t.set_control_a(ENABLE, 0);
    t.set_count(1, 0);
    assert_eq!(t.tick(16, &mut flag), (false, 0));
    assert!(flag);
}

#[test]
fn base_timer_schedules_up_to_the_end_of_the_tick_counter() {
    let mut t = BaseTimer::new(0, Some(1));
    let mut flag = false;
    t.set_control_a(ENABLE | RELOAD | 6, u64::MAX - 1025);
    assert_eq!(t.next_trigger_tick(), u64::MAX - 1);
    t.set_control_a(ENABLE | RELOAD, u64::MAX - 17);
    assert_eq!(t.next_trigger_tick(), u64::MAX - 1);
    assert_eq!(t.tick(u64::MAX - 16, &mut flag), (true, 0));
    assert_eq!(t.next_trigger_tick(), u64::MAX);
}
