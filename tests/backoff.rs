use hub_session::{next_delay, BackoffPolicy};

#[test]
fn delay_doubles_from_base() {
    assert_eq!(next_delay(0, 1, 1000, 600_000, 0), 1000);
    assert_eq!(next_delay(0, 2, 1000, 600_000, 0), 2000);
    assert_eq!(next_delay(0, 3, 1000, 600_000, 0), 4000);
    assert_eq!(next_delay(0, 10, 1000, 600_000, 0), 512_000);
}

#[test]
fn delay_stops_at_cap() {
    assert_eq!(next_delay(0, 11, 1000, 600_000, 0), 600_000);
    assert_eq!(next_delay(0, 40, 1000, 600_000, 0), 600_000);
    assert_eq!(next_delay(0, u32::MAX, 1000, 600_000, 0), 600_000);
    assert_eq!(next_delay(0, 1, 5000, 3000, 0), 3000);
}

#[test]
fn delay_subtracts_elapsed_time() {
    assert_eq!(next_delay(300, 1, 1000, 600_000, 0), 700);
    assert_eq!(next_delay(1000, 1, 1000, 600_000, 0), 0);
    assert_eq!(next_delay(u32::MAX, 5, 1000, 600_000, 0), 0);
}

#[test]
fn delay_adds_jitter_below_cap() {
    assert_eq!(next_delay(0, 1, 1000, 600_000, 250), 1250);
    assert_eq!(next_delay(0, 30, 1000, 600_000, 5000), 600_000);
    assert_eq!(next_delay(0, 1, 1000, 1100, 250), 1100);
}

#[test]
fn attempt_zero_counts_as_first() {
    assert_eq!(next_delay(0, 0, 1000, 600_000, 0), 1000);
}

#[test]
fn delays_never_decrease_and_stay_under_cap() {
    for jitter in [0u32, 700, 90_000] {
        let mut previous = 0u32;
        for attempt in 1u32..64 {
            let d = next_delay(0, attempt, 1000, 600_000, jitter);
            assert!(d <= 600_000);
            assert!(d >= previous);
            previous = d;
        }
        assert_eq!(previous, 600_000);
    }
}

#[test]
fn standard_policy_matches_its_parameters() {
    let p = BackoffPolicy::standard();
    assert_eq!(p.delay(0, 1), 1000);
    assert_eq!(p.delay(250, 2), 1750);
    assert_eq!(p.delay(0, 12), 600_000);
}
