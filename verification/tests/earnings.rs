use bills::earnings::{earned_cents, effective_start, elapsed_seconds};

#[test]
fn earned_is_rate_over_3600_times_elapsed() {
    // $20.00/hour for 8 hours earns $160.00.
    assert_eq!(earned_cents(2000, 28800), 16000);
    // One hour at one cent per hour.
    assert_eq!(earned_cents(1, 3600), 1);
    // Nothing elapsed, nothing earned.
    assert_eq!(earned_cents(2000, 0), 0);
    // Truncation: 2000 * 1 / 3600 cents rounds down to zero.
    assert_eq!(earned_cents(2000, 1), 0);
}

#[test]
fn elapsed_clamps_at_zero() {
    assert_eq!(elapsed_seconds(100, 250), 150);
    assert_eq!(elapsed_seconds(250, 100), 0);
    assert_eq!(elapsed_seconds(250, 250), 0);
}

#[test]
fn effective_start_shifts_back_by_catch_up_minutes() {
    let now: i64 = 1704099600;
    assert_eq!(effective_start(now, 30), now - 1800);
    assert_eq!(effective_start(now, 0), now);
}

#[test]
fn earnings_with_catch_up_equal_earnings_started_earlier() {
    let start: i64 = 1704099600;
    let now: i64 = start + 3600;
    let shifted = effective_start(start, 30);
    let with_catch_up = earned_cents(2000, elapsed_seconds(shifted, now));
    let started_earlier = earned_cents(2000, elapsed_seconds(start - 1800, now));
    assert_eq!(with_catch_up, started_earlier);
    assert_eq!(with_catch_up, 3000);
}
