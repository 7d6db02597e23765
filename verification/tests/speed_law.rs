use greedy_snake::speed::{duration_us, DURATION_FLOOR_US, START_DURATION_US};

#[test]
fn starting_cadence_is_one_second() {
    assert_eq!(duration_us(1), START_DURATION_US);
    assert_eq!(duration_us(1), 1_000_000);
}

#[test]
fn duration_matches_the_formula() {
    // 0.9 / e^((n - 1) / 40) + 0.1 seconds, to the microsecond
    for n in 1..=121u32 {
        let seconds = 0.9 / (((n - 1) as f64) / 40.0).exp() + 0.1;
        let expected = (seconds * 1_000_000.0).round() as u64;
        assert_eq!(duration_us(n as usize), expected);
    }
    assert_eq!(duration_us(3), 956_106);
}

#[test]
fn duration_strictly_decreases_up_to_board_capacity() {
    for n in 1..=121usize {
        assert!(duration_us(n + 1) < duration_us(n));
    }
}

#[test]
fn duration_stays_above_the_floor() {
    for n in 1..=500usize {
        assert!(duration_us(n) > DURATION_FLOOR_US);
    }
}
