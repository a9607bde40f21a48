use bills::model::{Log, Period, Session, Tag};

const DAY_START: i64 = 1704099600; // 2024-01-01T09:00:00

fn session(start: i64, end: i64, rate_cents: u32, notes: &[&str]) -> Session {
    let tags = notes
        .iter()
        .enumerate()
        .map(|(i, n)| Tag { note: n.to_string(), time: start + i as i64 })
        .collect();
    Session { start, end, hourly_rate_cents: rate_cents, tags }
}

#[test]
fn empty_period_earns_nothing() {
    let p = Period::new();
    assert_eq!(p.earned_cents(), 0);
    assert_eq!(p.total_seconds(), 0);
}

#[test]
fn period_earnings_sum_over_sessions() {
    let s1 = session(DAY_START, DAY_START + 3600, 2000, &[]);
    let s2 = session(DAY_START + 7200, DAY_START + 9000, 3000, &[]);
    let e1 = s1.earned_cents();
    let e2 = s2.earned_cents();
    assert_eq!(e1, 2000);
    assert_eq!(e2, 1500);
    let p = Period { sessions: vec![s1, s2] };
    assert_eq!(p.earned_cents(), (e1 + e2) as u128);
    assert_eq!(p.total_seconds(), 3600 + 1800);
}

#[test]
fn eight_hours_at_twenty_dollars() {
    // One session 09:00 to 17:00 at $20.00/hour: 8 hours, $160.00.
    let s = session(DAY_START, DAY_START + 28800, 2000, &[]);
    assert_eq!(s.duration_seconds(), 28800);
    assert_eq!(s.earned_cents(), 16000);
    let p = Period { sessions: vec![s] };
    assert_eq!(p.earned_cents(), 16000);
    assert_eq!(p.total_seconds(), 28800);
}

#[test]
fn fresh_log_has_one_empty_period() {
    let log = Log::new();
    assert_eq!(log.periods.len(), 1);
    assert_eq!(log.current_period().sessions.len(), 0);
}

#[test]
fn sessions_append_to_the_current_period() {
    let mut log = Log::new();
    log.append_session(session(DAY_START, DAY_START + 3600, 2000, &[]));
    assert_eq!(log.current_period().sessions.len(), 1);
    log.append_session(session(DAY_START + 4000, DAY_START + 5000, 2000, &[]));
    assert_eq!(log.periods.len(), 1);
    assert_eq!(log.current_period().sessions.len(), 2);
}

#[test]
fn a_new_period_receives_the_next_session() {
    let mut log = Log::new();
    log.append_session(session(DAY_START, DAY_START + 3600, 2000, &[]));
    log.start_new_period();
    assert_eq!(log.periods.len(), 2);
    assert_eq!(log.current_period().sessions.len(), 0);
    let late = session(DAY_START + 7200, DAY_START + 9000, 2000, &["follow-up"]);
    log.append_session(late);
    // The session landed in the new period, not the old one.
    assert_eq!(log.periods[0].sessions.len(), 1);
    assert_eq!(log.periods[1].sessions.len(), 1);
    assert_eq!(log.current_period().sessions[0].start, DAY_START + 7200);
    assert_eq!(log.periods[0].sessions[0].start, DAY_START);
}

#[test]
fn earnings_at_the_model_bounds() {
    // The longest admissible session at the largest admissible rate.
    let s = session(0, 253402300799, 100000000, &[]);
    assert_eq!(s.earned_cents(), 7038952799972222);
    let p = Period { sessions: vec![s] };
    assert_eq!(p.earned_cents(), 7038952799972222u128);
}
