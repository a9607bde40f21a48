use bills::model::{Period, Session, Tag};
use bills::render::{sessions_to_log_entries, LogEntry, RenderError};

const DAY_START: i64 = 1704099600; // 2024-01-01T09:00:00

fn session(start: i64, end: i64, rate_cents: u32, notes: &[&str]) -> Session {
    let tags = notes
        .iter()
        .enumerate()
        .map(|(i, n)| Tag { note: n.to_string(), time: start + i as i64 })
        .collect();
    Session { start, end, hourly_rate_cents: rate_cents, tags }
}

#[test]
fn log_entries_carry_times_and_notes() {
    let sessions = vec![
        session(DAY_START, DAY_START + 28800, 2000, &["planning", "reviewed PR"]),
        session(DAY_START + 90000, DAY_START + 93600, 2000, &[]),
    ];
    let entries = sessions_to_log_entries(&sessions);
    assert_eq!(entries.len(), 2);
    assert_eq!(entries[0].start, DAY_START);
    assert_eq!(entries[0].end, DAY_START + 28800);
    assert_eq!(entries[0].work_activity, vec!["planning", "reviewed PR"]);
    assert_eq!(entries[0].began_second_of_day(), 9 * 3600);
    assert_eq!(entries[0].completed_second_of_day(), 17 * 3600);
    assert_eq!(entries[0].tenth_hours(), 80);
    assert!(entries[1].work_activity.is_empty());
}

#[test]
fn tenth_hours_round_half_up() {
    // 180 seconds is 0.05 hours: exactly half a tenth rounds up.
    assert_eq!(LogEntry::new(0, 180, Vec::new()).tenth_hours(), 1);
    // 179 seconds rounds down to zero tenths.
    assert_eq!(LogEntry::new(0, 179, Vec::new()).tenth_hours(), 0);
    // 1770 seconds is 0.4916... hours: rounds to 0.5.
    assert_eq!(LogEntry::new(0, 1770, Vec::new()).tenth_hours(), 5);
    // 8 hours is 80 tenths.
    assert_eq!(LogEntry::new(0, 28800, Vec::new()).tenth_hours(), 80);
}

#[test]
fn empty_period_is_a_precondition_error() {
    let p = Period::new();
    assert_eq!(p.to_latex(), Err(RenderError::EmptyPeriod));
}

#[test]
fn one_session_renders_exactly() {
    let p = Period { sessions: vec![session(DAY_START, DAY_START + 28800, 2000, &[])] };
    let latex = p.to_latex().unwrap();
    let expected = "\\section*{Invoice 2024-01-01 -- 2024-01-01}\nTotal hours: 8.0\n\\begin{tabular}{l l l l l}\n2024-01-01 & 09:00 AM & 05:00 PM &  & 8.0 \\\\\n\\end{tabular}\n";
    assert_eq!(latex, expected);
}

#[test]
fn notes_render_as_an_itemized_list() {
    let p = Period {
        sessions: vec![session(DAY_START, DAY_START + 1800, 2000, &["planning", "reviewed PR"])],
    };
    let latex = p.to_latex().unwrap();
    let taglist = "\\begin{itemize}\\item planning\n\\item reviewed PR\\end{itemize}";
    assert!(latex.contains(taglist));
    assert!(latex.contains("Total hours: 0.5\n"));
}

#[test]
fn two_sessions_render_two_lines() {
    let p = Period {
        sessions: vec![
            session(DAY_START, DAY_START + 3600, 2000, &[]),
            session(DAY_START + 86400, DAY_START + 86400 + 5400, 2000, &[]),
        ],
    };
    let latex = p.to_latex().unwrap();
    assert!(latex.contains("2024-01-01 & 09:00 AM & 10:00 AM &  & 1.0 \\\\"));
    assert!(latex.contains("2024-01-02 & 09:00 AM & 10:30 AM &  & 1.5 \\\\"));
    // 2.5 total hours over the period.
    assert!(latex.contains("Total hours: 2.5\n"));
}

#[test]
fn period_tenth_hours_round_the_total() {
    let p = Period {
        sessions: vec![
            session(DAY_START, DAY_START + 3600, 2000, &[]),
            session(DAY_START + 7200, DAY_START + 7200 + 5400, 2000, &[]),
        ],
    };
    // 2.5 hours in total: 25 tenths.
    assert_eq!(p.tenth_hours(), 25);
    assert_eq!(Period { sessions: vec![session(0, 180, 2000, &[])] }.tenth_hours(), 1);
}
