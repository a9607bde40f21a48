use bills::recorder::{buffer_is_blank, ConfigError, Recorder, RecorderEvent, StepResult};

const NOW: i64 = 1704099600; // 2024-01-01T09:00:00

#[test]
fn zero_rate_is_a_configuration_error() {
    match Recorder::new(0, 0, NOW) {
        Err(e) => assert_eq!(e, ConfigError::NonPositiveRate),
        Ok(_) => panic!("a zero hourly rate must not start a recorder"),
    }
}

#[test]
fn oversized_rate_is_a_configuration_error() {
    match Recorder::new(u32::MAX, 0, NOW) {
        Err(e) => assert_eq!(e, ConfigError::RateTooLarge),
        Ok(_) => panic!("an oversized hourly rate must not start a recorder"),
    }
}

#[test]
fn tick_interval_is_about_one_cent() {
    // $20.00/hour: 3_600_000 / 2000 = 1800 ms per tick.
    let rec = Recorder::new(2000, 0, NOW).unwrap();
    assert_eq!(rec.tick_interval_ms(), 1800);
}

#[test]
fn tick_reports_elapsed_and_earned_with_catch_up() {
    // 30 catch-up minutes backdate the session by 1800 seconds.
    let mut rec = Recorder::new(2000, 30, NOW).unwrap();
    match rec.step(RecorderEvent::Tick { now: NOW + 3600 }) {
        StepResult::Display { elapsed_seconds, earned_cents } => {
            assert_eq!(elapsed_seconds, 3600 + 1800);
            assert_eq!(earned_cents, 3000);
        }
        _ => panic!("a tick must report the live figures"),
    }
}

#[test]
fn blank_commit_adds_no_tag() {
    let mut rec = Recorder::new(2000, 0, NOW).unwrap();
    rec.step(RecorderEvent::InputChar { c: ' ' });
    rec.step(RecorderEvent::InputChar { c: '\t' });
    rec.step(RecorderEvent::CommitNote { now: NOW + 10 });
    assert_eq!(rec.tag_log().list().len(), 0);
    rec.step(RecorderEvent::CommitNote { now: NOW + 11 });
    assert_eq!(rec.tag_log().list().len(), 0);
}

#[test]
fn commit_adds_exactly_one_tag_with_the_note() {
    let mut rec = Recorder::new(2000, 0, NOW).unwrap();
    for c in "reviewed PR".chars() {
        rec.step(RecorderEvent::InputChar { c });
    }
    rec.step(RecorderEvent::CommitNote { now: NOW + 60 });
    let tags = rec.tag_log().list();
    assert_eq!(tags.len(), 1);
    assert_eq!(tags[0].note, "reviewed PR");
    assert_eq!(tags[0].time, NOW + 60);
    assert_eq!(rec.pending_input().len(), 0);
}

#[test]
fn backspace_erases_the_last_character() {
    let mut rec = Recorder::new(2000, 0, NOW).unwrap();
    rec.step(RecorderEvent::InputChar { c: 'h' });
    rec.step(RecorderEvent::InputChar { c: 'i' });
    rec.step(RecorderEvent::InputBackspace);
    assert_eq!(rec.pending_input().as_slice(), &['h']);
    rec.step(RecorderEvent::InputBackspace);
    rec.step(RecorderEvent::InputBackspace);
    assert_eq!(rec.pending_input().len(), 0);
}

#[test]
fn stop_finalizes_the_session() {
    let mut rec = Recorder::new(2000, 30, NOW).unwrap();
    for c in "planning".chars() {
        rec.step(RecorderEvent::InputChar { c });
    }
    rec.step(RecorderEvent::CommitNote { now: NOW + 120 });
    match rec.step(RecorderEvent::Stop { now: NOW + 7200 }) {
        StepResult::Finished { session } => {
            assert_eq!(session.start, NOW - 1800);
            assert_eq!(session.end, NOW + 7200);
            assert_eq!(session.hourly_rate_cents, 2000);
            assert_eq!(session.tags.len(), 1);
            assert_eq!(session.tags[0].note, "planning");
        }
        _ => panic!("stopping must hand back the finalized session"),
    }
}

#[test]
fn blankness_of_buffers() {
    assert!(buffer_is_blank(&Vec::new()));
    assert!(buffer_is_blank(&vec![' ', '\t', '\n', '\r']));
    assert!(!buffer_is_blank(&vec![' ', 'a', ' ']));
}
