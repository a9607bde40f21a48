//! Rendering a period into invoice rows and a LaTeX fragment.
//!
//! Each session becomes a [`LogEntry`] row: the day it began, the
//! seconds-of-day it began and ended, its duration, and its tag notes. The
//! LaTeX fragment lists one table line per entry plus a header with the first
//! and last date and the total hours, rounded half-up to one decimal. Date and
//! 12-hour time strings come from chrono; everything else is built here.

use vstd::prelude::*;
use crate::earnings::MAX_INSTANT;
use crate::model::{Period, Session, SessionView, TagView, period_seconds, session_wf};
use crate::recorder::chars_to_string;

verus! {

/// Largest period length, in seconds, that the renderer accepts; it keeps the
/// rounded tenth-hour total within `u64`.
pub const MAX_RENDER_SECONDS: u64 = 1000000000000000000;

#[derive(PartialEq, Eq, Structural, Clone, Copy, Debug)]
pub enum RenderError {
    /// A period must have at least one session to be rendered.
    EmptyPeriod,
}

/// Hours in tenths, rounded half-up: the displayed `8.0` is `80` tenths.
pub open spec fn tenths_of(secs: int) -> int {
    (secs * 10 + 1800) / 3600
}

/// What `chrono` prints for the calendar date of an instant: the ISO
/// `YYYY-MM-DD` form of the day the instant falls in.
pub uninterp spec fn date_str_of(secs: int) -> Seq<char>;

/// What `chrono` prints for a second-of-day on the 12-hour clock, as in
/// `09:00 AM`.
pub uninterp spec fn time12_str_of(secs_of_day: int) -> Seq<char>;

/// Relies on chrono's `DateTime::from_timestamp`, `date_naive` and
/// `NaiveDate`'s `Display`, which prints the ISO `YYYY-MM-DD` date of the
/// instant. The result depends on the instant alone.
#[verifier::external_body]
fn date_string(secs: i64) -> (r: String)
    requires
        0 <= secs <= MAX_INSTANT,
    ensures
        r@ == date_str_of(secs as int),
{
    chrono::DateTime::from_timestamp(secs, 0).unwrap().date_naive().to_string()
}

/// Relies on chrono's `DateTime::from_timestamp` and `NaiveTime::format` with
/// `"%I:%M %p"`, the zero-padded 12-hour clock with AM/PM. The result depends
/// on the second-of-day alone.
#[verifier::external_body]
fn time12_string(secs_of_day: u32) -> (r: String)
    requires
        secs_of_day < 86400,
    ensures
        r@ == time12_str_of(secs_of_day as int),
{
    let dt = chrono::DateTime::from_timestamp(secs_of_day as i64, 0).unwrap();
    dt.time().format("%I:%M %p").to_string()
}

pub open spec fn digit_char_spec(d: int) -> char {
    if d == 0 {
        '0'
    } else if d == 1 {
        '1'
    } else if d == 2 {
        '2'
    } else if d == 3 {
        '3'
    } else if d == 4 {
        '4'
    } else if d == 5 {
        '5'
    } else if d == 6 {
        '6'
    } else if d == 7 {
        '7'
    } else if d == 8 {
        '8'
    } else {
        '9'
    }
}

fn digit_char(d: u64) -> (c: char)
    requires
        d < 10,
    ensures
        c == digit_char_spec(d as int),
{
    if d == 0 {
        '0'
    } else if d == 1 {
        '1'
    } else if d == 2 {
        '2'
    } else if d == 3 {
        '3'
    } else if d == 4 {
        '4'
    } else if d == 5 {
        '5'
    } else if d == 6 {
        '6'
    } else if d == 7 {
        '7'
    } else if d == 8 {
        '8'
    } else {
        '9'
    }
}

/// The decimal digits of a non-negative number, most significant first.
pub open spec fn dec_str(n: int) -> Seq<char>
    decreases n,
{
    if n < 10 {
        seq![digit_char_spec(n)]
    } else {
        dec_str(n / 10).push(digit_char_spec(n % 10))
    }
}

fn u64_to_string(n: u64) -> (r: String)
    ensures
        r@ == dec_str(n as int),
{
    let mut digits: Vec<char> = Vec::new();
    let d0 = digit_char(n % 10);
    digits.push(d0);
    let mut m: u64 = n / 10;
    proof {
        if n >= 10 {
            assert(dec_str(n as int) =~= dec_str(n as int / 10) + digits@);
        } else {
            assert(dec_str(n as int) =~= digits@);
        }
    }
    while m > 0
        invariant
            dec_str(n as int) =~= if m > 0 {
                dec_str(m as int) + digits@
            } else {
                digits@
            },
        decreases m,
    {
        let d = digit_char(m % 10);
        let ghost pre = digits@;
        digits.insert(0, d);
        proof {
            if m >= 10 {
                assert(dec_str(m as int) + pre =~= dec_str(m as int / 10) + digits@);
            } else {
                assert(dec_str(m as int) + pre =~= digits@);
            }
        }
        m = m / 10;
    }
    chars_to_string(&digits)
}

/// The one-decimal display of a tenth-hours count: `80` prints as `8.0`.
pub open spec fn tenths_str(t: int) -> Seq<char> {
    dec_str(t / 10) + "."@ + seq![digit_char_spec(t % 10)]
}

fn tenths_to_string(t: u64) -> (r: String)
    ensures
        r@ == tenths_str(t as int),
{
    let mut out = u64_to_string(t / 10);
    out.append(".");
    let d = digit_char(t % 10);
    out.push(d);
    proof {
        assert((dec_str(t as int / 10) + "."@).push(digit_char_spec(t as int % 10)) =~= dec_str(
            t as int / 10,
        ) + "."@ + seq![digit_char_spec(t as int % 10)]);
    }
    out
}

/// The views of a sequence of note strings, in order.
pub open spec fn note_views(ns: Seq<String>) -> Seq<Seq<char>> {
    ns.map_values(|s: String| s@)
}

/// The notes of a session's tags, in order.
pub open spec fn session_notes(s: SessionView) -> Seq<Seq<char>> {
    s.tags.map_values(|t: TagView| t.note)
}

pub struct LogEntryView {
    pub start: int,
    pub end: int,
    pub work_activity: Seq<Seq<char>>,
}

/// The invoice row a session turns into.
pub open spec fn log_entry_of(s: SessionView) -> LogEntryView {
    LogEntryView { start: s.start, end: s.end, work_activity: session_notes(s) }
}

pub open spec fn log_entries_of(ss: Seq<SessionView>) -> Seq<LogEntryView> {
    ss.map_values(|s: SessionView| log_entry_of(s))
}

/// One invoice row: when the work began and ended, and what was done.
pub struct LogEntry {
    pub start: i64,
    pub end: i64,
    pub work_activity: Vec<String>,
}

impl View for LogEntry {
    type V = LogEntryView;

    open spec fn view(&self) -> LogEntryView {
        LogEntryView {
            start: self.start as int,
            end: self.end as int,
            work_activity: note_views(self.work_activity@),
        }
    }
}

pub open spec fn entry_views(es: Seq<LogEntry>) -> Seq<LogEntryView> {
    es.map_values(|e: LogEntry| e@)
}

impl LogEntry {
    pub open spec fn wf(&self) -> bool {
        0 <= self@.start <= self@.end <= MAX_INSTANT as int
    }

    pub fn new(start: i64, end: i64, work_activity: Vec<String>) -> (r: LogEntry)
        requires
            0 <= start <= end <= MAX_INSTANT,
        ensures
            r@ == (LogEntryView {
                start: start as int,
                end: end as int,
                work_activity: note_views(work_activity@),
            }),
            r.wf(),
    {
        LogEntry { start, end, work_activity }
    }

    /// The second of its day the entry began at.
    pub fn began_second_of_day(&self) -> (r: u32)
        requires
            self.wf(),
        ensures
            r == self@.start % 86400,
    {
        (self.start % 86400) as u32
    }

    /// The second of its day the entry ended at.
    pub fn completed_second_of_day(&self) -> (r: u32)
        requires
            self.wf(),
        ensures
            r == self@.end % 86400,
    {
        (self.end % 86400) as u32
    }

    /// The entry's duration in tenths of an hour, rounded half-up.
    pub fn tenth_hours(&self) -> (r: u64)
        requires
            self.wf(),
        ensures
            r == tenths_of(self@.end - self@.start),
    {
        let d = self.end - self.start;
        ((d * 10 + 1800) / 3600) as u64
    }
}

fn notes_of_session(s: &Session) -> (r: Vec<String>)
    ensures
        note_views(r@) == session_notes(s@),
{
    let mut r: Vec<String> = Vec::new();
    let mut i: usize = 0;
    while i < s.tags.len()
        invariant
            0 <= i <= s.tags@.len(),
            r@.len() == i,
            forall|j: int| 0 <= j < i ==> (#[trigger] r@[j])@ == s@.tags[j].note,
        decreases s.tags@.len() - i,
    {
        r.push(s.tags[i].note.clone());
        i = i + 1;
    }
    proof {
        assert(note_views(r@) =~= session_notes(s@));
    }
    r
}

/// Derives one invoice row per session, in order.
pub fn sessions_to_log_entries(sessions: &Vec<Session>) -> (r: Vec<LogEntry>)
    requires
        forall|i: int| 0 <= i < sessions@.len() ==> (#[trigger] sessions@[i]).wf(),
    ensures
        r@.len() == sessions@.len(),
        forall|i: int| 0 <= i < r@.len() ==> (#[trigger] r@[i])@ == log_entry_of(sessions@[i]@),
        forall|i: int| 0 <= i < r@.len() ==> (#[trigger] r@[i]).wf(),
{
    let mut r: Vec<LogEntry> = Vec::new();
    let mut i: usize = 0;
    while i < sessions.len()
        invariant
            0 <= i <= sessions@.len(),
            forall|k: int| 0 <= k < sessions@.len() ==> (#[trigger] sessions@[k]).wf(),
            r@.len() == i,
            forall|j: int| 0 <= j < i ==> (#[trigger] r@[j])@ == log_entry_of(sessions@[j]@),
            forall|j: int| 0 <= j < i ==> (#[trigger] r@[j]).wf(),
        decreases sessions@.len() - i,
    {
        let s = &sessions[i];
        let notes = notes_of_session(s);
        let entry = LogEntry::new(s.start, s.end, notes);
        r.push(entry);
        i = i + 1;
    }
    r
}

/// The itemized note lines of one row, joined by newlines.
pub open spec fn item_lines(notes: Seq<Seq<char>>) -> Seq<char>
    decreases notes.len(),
{
    if notes.len() == 0 {
        Seq::empty()
    } else if notes.len() == 1 {
        "\\item "@ + notes[0]
    } else {
        item_lines(notes.drop_last()) + "\n"@ + "\\item "@ + notes.last()
    }
}

/// The note list of one row: empty for no notes, else an `itemize` block.
pub open spec fn taglist_latex(notes: Seq<Seq<char>>) -> Seq<char> {
    if notes.len() == 0 {
        Seq::empty()
    } else {
        "\\begin{itemize}"@ + item_lines(notes) + "\\end{itemize}"@
    }
}

fn items_string(notes: &Vec<String>) -> (r: String)
    ensures
        r@ == item_lines(note_views(notes@)),
{
    let ghost views = note_views(notes@);
    if notes.len() == 0 {
        return String::new();
    }
    let mut out = String::from_str("\\item ");
    out.append(notes[0].as_str());
    proof {
        assert(views.take(1)[0] == views[0]);
        assert(out@ == item_lines(views.take(1)));
    }
    let mut i: usize = 1;
    while i < notes.len()
        invariant
            1 <= i <= notes@.len(),
            views == note_views(notes@),
            out@ == item_lines(views.take(i as int)),
        decreases notes@.len() - i,
    {
        out.append("\n");
        out.append("\\item ");
        out.append(notes[i].as_str());
        proof {
            assert(views.take(i as int + 1).drop_last() =~= views.take(i as int));
            assert(views.take(i as int + 1).last() == views[i as int]);
        }
        i = i + 1;
    }
    proof {
        assert(views.take(notes@.len() as int) =~= views);
    }
    out
}

fn taglist_string(notes: &Vec<String>) -> (r: String)
    ensures
        r@ == taglist_latex(note_views(notes@)),
{
    if notes.len() == 0 {
        return String::new();
    }
    let mut out = String::from_str("\\begin{itemize}");
    let items = items_string(notes);
    out.append(items.as_str());
    out.append("\\end{itemize}");
    out
}

/// One LaTeX table line of a row: date, 12-hour begin and end times, the note
/// list and the rounded hours, separated by `&`.
pub open spec fn entry_line(e: LogEntryView) -> Seq<char> {
    date_str_of(e.start) + " & "@ + time12_str_of(e.start % 86400) + " & "@ + time12_str_of(
        e.end % 86400,
    ) + " & "@ + taglist_latex(e.work_activity) + " & "@ + tenths_str(tenths_of(e.end - e.start))
        + " \\\\"@
}

fn entry_line_string(e: &LogEntry) -> (r: String)
    requires
        e.wf(),
    ensures
        r@ == entry_line(e@),
{
    let mut out = date_string(e.start);
    out.append(" & ");
    let began = time12_string(e.began_second_of_day());
    out.append(began.as_str());
    out.append(" & ");
    let completed = time12_string(e.completed_second_of_day());
    out.append(completed.as_str());
    out.append(" & ");
    let taglist = taglist_string(&e.work_activity);
    out.append(taglist.as_str());
    out.append(" & ");
    let tenths = tenths_to_string(e.tenth_hours());
    out.append(tenths.as_str());
    out.append(" \\\\");
    out
}

/// The table lines of all rows, joined by newlines.
pub open spec fn entry_lines(es: Seq<LogEntryView>) -> Seq<char>
    decreases es.len(),
{
    if es.len() == 0 {
        Seq::empty()
    } else if es.len() == 1 {
        entry_line(es[0])
    } else {
        entry_lines(es.drop_last()) + "\n"@ + entry_line(es.last())
    }
}

fn lines_string(entries: &Vec<LogEntry>) -> (r: String)
    requires
        entries@.len() >= 1,
        forall|i: int| 0 <= i < entries@.len() ==> (#[trigger] entries@[i]).wf(),
    ensures
        r@ == entry_lines(entry_views(entries@)),
{
    let ghost views = entry_views(entries@);
    let mut out = entry_line_string(&entries[0]);
    proof {
        assert(views.take(1)[0] == views[0]);
        assert(out@ == entry_lines(views.take(1)));
    }
    let mut i: usize = 1;
    while i < entries.len()
        invariant
            1 <= i <= entries@.len(),
            views == entry_views(entries@),
            forall|k: int| 0 <= k < entries@.len() ==> (#[trigger] entries@[k]).wf(),
            out@ == entry_lines(views.take(i as int)),
        decreases entries@.len() - i,
    {
        out.append("\n");
        let line = entry_line_string(&entries[i]);
        out.append(line.as_str());
        proof {
            assert(views.take(i as int + 1).drop_last() =~= views.take(i as int));
            assert(views.take(i as int + 1).last() == views[i as int]);
        }
        i = i + 1;
    }
    proof {
        assert(views.take(entries@.len() as int) =~= views);
    }
    out
}

/// The whole LaTeX fragment of a period: a header naming the first session's
/// start date, the last session's end date and the total hours rounded
/// half-up to one decimal, then one table line per session.
pub open spec fn period_latex(p: crate::model::PeriodView) -> Seq<char> {
    "\\section*{Invoice "@ + date_str_of(p.sessions.first().start) + " -- "@ + date_str_of(
        p.sessions.last().end,
    ) + "}\n"@ + "Total hours: "@ + tenths_str(tenths_of(period_seconds(p.sessions))) + "\n"@
        + "\\begin{tabular}{l l l l l}\n"@ + entry_lines(log_entries_of(p.sessions))
        + "\n\\end{tabular}\n"@
}

impl Period {
    /// The period's total hours in display tenths, rounded half-up: the sum
    /// of the sessions' durations, not of their individually rounded rows.
    pub fn tenth_hours(&self) -> (r: u64)
        requires
            self.wf(),
            period_seconds(self@.sessions) <= MAX_RENDER_SECONDS,
        ensures
            r == tenths_of(period_seconds(self@.sessions)),
    {
        let total = self.total_seconds();
        proof {
            vstd::arithmetic::div_mod::lemma_div_is_ordered(
                (total * 10 + 1800) as int,
                (MAX_RENDER_SECONDS as int) * 10 + 1800,
                3600,
            );
        }
        ((total * 10 + 1800) / 3600) as u64
    }

    /// Renders the period as a LaTeX fragment. A period with no sessions is a
    /// precondition violation and is rejected; nothing partial is produced.
    pub fn to_latex(&self) -> (r: Result<String, RenderError>)
        requires
            self.wf(),
            period_seconds(self@.sessions) <= MAX_RENDER_SECONDS,
        ensures
            r is Err <==> self@.sessions.len() == 0,
            self@.sessions.len() == 0 ==> r == Err::<String, RenderError>(RenderError::EmptyPeriod),
            r matches Ok(s) ==> s@ == period_latex(self@),
    {
        if self.sessions.len() == 0 {
            return Err(RenderError::EmptyPeriod);
        }
        proof {
            assert forall|i: int| 0 <= i < self.sessions@.len() implies (#[trigger] self.sessions@[
            i]).wf() by {
                assert(session_wf(self@.sessions[i]));
            }
        }
        let entries = sessions_to_log_entries(&self.sessions);
        let mut out = String::from_str("\\section*{Invoice ");
        let n = self.sessions.len();
        let first_date = date_string(self.sessions[0].start);
        out.append(first_date.as_str());
        out.append(" -- ");
        let last_date = date_string(self.sessions[n - 1].end);
        out.append(last_date.as_str());
        out.append("}\n");
        out.append("Total hours: ");
        let total_str = tenths_to_string(self.tenth_hours());
        out.append(total_str.as_str());
        out.append("\n");
        out.append("\\begin{tabular}{l l l l l}\n");
        let lines = lines_string(&entries);
        out.append(lines.as_str());
        out.append("\n\\end{tabular}\n");
        proof {
            assert(entry_views(entries@) =~= log_entries_of(self@.sessions));
        }
        Ok(out)
    }
}

} // verus!
