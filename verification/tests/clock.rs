use rmus::clock::TransportClock;

#[test]
fn running_clock_counts_from_start() {
    let clock = TransportClock::new(1_000);
    assert!(!clock.is_paused());
    assert_eq!(clock.elapsed(1_000), 0);
    assert_eq!(clock.elapsed(4_500), 3_500);
}

#[test]
fn running_clock_never_goes_back() {
    let clock = TransportClock::new(10);
    let mut last = 0;
    for now in [10u64, 11, 11, 500, 70_000, u64::MAX] {
        let read = clock.elapsed(now);
        assert!(read >= last);
        last = read;
    }
}

#[test]
fn paused_clock_is_frozen_at_the_pause() {
    let mut clock = TransportClock::new(100);
    clock.toggle(600);
    assert!(clock.is_paused());
    assert_eq!(clock.elapsed(600), 500);
    assert_eq!(clock.elapsed(601), 500);
    assert_eq!(clock.elapsed(9_999_999), 500);
}

#[test]
fn resume_takes_the_pause_off_once() {
    let mut clock = TransportClock::new(0);
    clock.toggle(1_000);
    clock.toggle(4_000);
    assert!(!clock.is_paused());
    assert_eq!(clock.elapsed(4_000), 1_000);
    assert_eq!(clock.elapsed(6_000), 3_000);
}

#[test]
fn elapsed_is_wall_time_minus_all_pauses() {
    let start = 50u64;
    let mut clock = TransportClock::new(start);
    let toggles = [100u64, 250, 300, 1_000, 1_000, 1_500];
    for t in toggles {
        clock.toggle(t);
    }
    let paused = (250 - 100) + (1_000 - 300) + (1_500 - 1_000);
    let now = 5_000u64;
    assert_eq!(clock.elapsed(now), (now - start) - paused);
}

#[test]
fn toggle_does_not_move_the_reading() {
    let mut clock = TransportClock::new(7);
    let mut now = 7u64;
    for step in [13u64, 0, 400, 25, 1, 999] {
        now += step;
        let before = clock.elapsed(now);
        clock.toggle(now);
        assert_eq!(clock.elapsed(now), before);
    }
}

#[test]
fn reset_forgets_pauses_and_runs() {
    let mut clock = TransportClock::new(0);
    clock.toggle(10);
    clock.toggle(20);
    clock.toggle(30);
    assert!(clock.is_paused());
    clock.reset(1_000);
    assert!(!clock.is_paused());
    assert_eq!(clock.elapsed(1_000), 0);
    assert_eq!(clock.elapsed(1_250), 250);
}

#[test]
fn reading_before_the_start_is_zero() {
    let clock = TransportClock::new(500);
    assert_eq!(clock.elapsed(499), 0);
    assert_eq!(clock.elapsed(0), 0);
}

#[test]
fn pause_total_stops_at_the_largest_reading() {
    let mut clock = TransportClock::new(0);
    clock.toggle(0);
    clock.toggle(u64::MAX);
    clock.toggle(0);
    clock.toggle(u64::MAX);
    assert_eq!(clock.elapsed(u64::MAX), 0);
}
