use greedy_snake::timer::TickTimer;

#[test]
fn does_not_fire_before_the_countdown_runs_out() {
    let mut t = TickTimer::new(100);
    assert!(!t.advance(30));
    assert!(!t.advance(30));
    assert!(!t.advance(39));
    assert!(t.advance(1));
}

#[test]
fn fires_and_carries_the_overshoot() {
    let mut t = TickTimer::new(100);
    assert!(!t.advance(70));
    // 80 elapsed against 30 remaining: fires, 50 carries into the new cycle
    assert!(t.advance(80));
    assert_eq!(t.remaining_us, 50);
    assert!(t.advance(50));
    assert_eq!(t.remaining_us, 100);
}

#[test]
fn a_huge_delta_fires_once() {
    let mut t = TickTimer::new(100);
    assert!(t.advance(1234));
    // (1234 - 100) % 100 = 34 carries
    assert_eq!(t.remaining_us, 66);
}

#[test]
fn set_duration_does_not_rescale_the_cycle_in_flight() {
    let mut t = TickTimer::new(1000);
    assert!(!t.advance(400));
    t.set_duration(10);
    // the in-flight cycle still has its 600 left
    assert_eq!(t.remaining_us, 600);
    assert!(!t.advance(599));
    assert!(t.advance(1));
    // the next cycle runs at the new duration
    assert_eq!(t.remaining_us, 10);
}
