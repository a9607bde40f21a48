//! The billing data model: tags, sessions, periods, and the log.
//!
//! A `Tag` is a timestamped note captured during a session. A `Session` is one
//! continuous timed work interval at a fixed hourly rate. A `Period` is a
//! billing cycle owning an ordered sequence of sessions; a `Log` owns the
//! ordered sequence of periods, the last of which is always the current one.

use vstd::prelude::*;
use crate::earnings::{MAX_INSTANT, MAX_RATE_CENTS, earned_spec};

verus! {

#[verifier::ext_equal]
pub struct TagView {
    pub note: Seq<char>,
    pub time: int,
}

#[verifier::ext_equal]
pub struct SessionView {
    pub start: int,
    pub end: int,
    pub hourly_rate_cents: int,
    pub tags: Seq<TagView>,
}

#[verifier::ext_equal]
pub struct PeriodView {
    pub sessions: Seq<SessionView>,
}

#[verifier::ext_equal]
pub struct LogView {
    pub periods: Seq<PeriodView>,
}

pub struct Tag {
    pub note: String,
    pub time: i64,
}

impl View for Tag {
    type V = TagView;

    open spec fn view(&self) -> TagView {
        TagView { note: self.note@, time: self.time as int }
    }
}

pub struct Session {
    pub start: i64,
    pub end: i64,
    pub hourly_rate_cents: u32,
    pub tags: Vec<Tag>,
}

impl View for Session {
    type V = SessionView;

    open spec fn view(&self) -> SessionView {
        SessionView {
            start: self.start as int,
            end: self.end as int,
            hourly_rate_cents: self.hourly_rate_cents as int,
            tags: self.tags@.map_values(|t: Tag| t@),
        }
    }
}

pub struct Period {
    pub sessions: Vec<Session>,
}

impl View for Period {
    type V = PeriodView;

    open spec fn view(&self) -> PeriodView {
        PeriodView { sessions: self.sessions@.map_values(|s: Session| s@) }
    }
}

pub struct Log {
    pub periods: Vec<Period>,
}

impl View for Log {
    type V = LogView;

    open spec fn view(&self) -> LogView {
        LogView { periods: self.periods@.map_values(|p: Period| p@) }
    }
}

pub open spec fn tag_wf(t: TagView) -> bool {
    0 <= t.time <= MAX_INSTANT as int
}

pub open spec fn session_wf(s: SessionView) -> bool {
    &&& 0 <= s.start
    &&& s.start <= s.end
    &&& s.end <= MAX_INSTANT as int
    &&& 0 < s.hourly_rate_cents <= MAX_RATE_CENTS as int
    &&& forall|i: int| 0 <= i < s.tags.len() ==> tag_wf(#[trigger] s.tags[i])
}

pub open spec fn period_wf(p: PeriodView) -> bool {
    forall|i: int| 0 <= i < p.sessions.len() ==> session_wf(#[trigger] p.sessions[i])
}

pub open spec fn log_wf(v: LogView) -> bool {
    &&& v.periods.len() >= 1
    &&& forall|i: int| 0 <= i < v.periods.len() ==> period_wf(#[trigger] v.periods[i])
}

/// Seconds a session spans.
pub open spec fn session_seconds(s: SessionView) -> int {
    s.end - s.start
}

/// Cents a session earns over its whole span.
pub open spec fn session_earned(s: SessionView) -> int {
    earned_spec(s.hourly_rate_cents, session_seconds(s))
}

/// Total seconds spanned by a sequence of sessions.
pub open spec fn period_seconds(ss: Seq<SessionView>) -> int
    decreases ss.len(),
{
    if ss.len() == 0 {
        0
    } else {
        period_seconds(ss.drop_last()) + session_seconds(ss.last())
    }
}

/// Total cents earned by a sequence of sessions.
pub open spec fn period_earned(ss: Seq<SessionView>) -> int
    decreases ss.len(),
{
    if ss.len() == 0 {
        0
    } else {
        period_earned(ss.drop_last()) + session_earned(ss.last())
    }
}

/// Largest value `session_earned` takes on a well-formed session.
pub open spec fn max_session_earned() -> int {
    (MAX_RATE_CENTS as int) * (MAX_INSTANT as int) / 3600
}

pub proof fn lemma_session_earned_bounds(s: SessionView)
    requires
        session_wf(s),
    ensures
        0 <= session_earned(s) <= max_session_earned(),
{
    let r = s.hourly_rate_cents;
    let e = session_seconds(s);
    assert(0 <= r * e <= (MAX_RATE_CENTS as int) * (MAX_INSTANT as int)) by (nonlinear_arith)
        requires
            0 < r <= MAX_RATE_CENTS as int,
            0 <= e <= MAX_INSTANT as int,
    ;
    assert(0 <= r * e / 3600 <= (MAX_RATE_CENTS as int) * (MAX_INSTANT as int) / 3600)
        by (nonlinear_arith)
        requires
            0 <= r * e <= (MAX_RATE_CENTS as int) * (MAX_INSTANT as int),
    ;
}

/// A period earns the sum of its sessions' earnings: nothing for no sessions,
/// and appending a session adds exactly that session's earnings.
pub proof fn lemma_period_earned_sum(ss: Seq<SessionView>, s: SessionView)
    ensures
        period_earned(Seq::<SessionView>::empty()) == 0,
        period_earned(ss.push(s)) == period_earned(ss) + session_earned(s),
{
    assert(ss.push(s).drop_last() =~= ss);
    assert(ss.push(s).last() == s);
}

pub proof fn lemma_period_earned_bounds(ss: Seq<SessionView>)
    requires
        forall|i: int| 0 <= i < ss.len() ==> session_wf(#[trigger] ss[i]),
    ensures
        0 <= period_earned(ss) <= ss.len() * max_session_earned(),
    decreases ss.len(),
{
    let m = max_session_earned();
    if ss.len() == 0 {
    } else {
        assert(forall|i: int|
            0 <= i < ss.drop_last().len() ==> session_wf(#[trigger] ss.drop_last()[i]));
        lemma_period_earned_bounds(ss.drop_last());
        lemma_session_earned_bounds(ss.last());
        assert((ss.len() - 1) * m + m == ss.len() * m) by (nonlinear_arith);
    }
}

pub proof fn lemma_period_seconds_bounds(ss: Seq<SessionView>)
    requires
        forall|i: int| 0 <= i < ss.len() ==> session_wf(#[trigger] ss[i]),
    ensures
        0 <= period_seconds(ss) <= ss.len() * (MAX_INSTANT as int),
    decreases ss.len(),
{
    let m = MAX_INSTANT as int;
    if ss.len() == 0 {
    } else {
        assert(forall|i: int|
            0 <= i < ss.drop_last().len() ==> session_wf(#[trigger] ss.drop_last()[i]));
        lemma_period_seconds_bounds(ss.drop_last());
        assert((ss.len() - 1) * m + m == ss.len() * m) by (nonlinear_arith);
    }
}

impl Session {
    pub open spec fn wf(&self) -> bool {
        session_wf(self@)
    }

    pub fn earned_cents(&self) -> (r: u64)
        requires
            self.wf(),
        ensures
            r == session_earned(self@),
    {
        crate::earnings::earned_cents(self.hourly_rate_cents, self.end - self.start)
    }

    pub fn duration_seconds(&self) -> (r: i64)
        requires
            self.wf(),
        ensures
            r == session_seconds(self@),
            0 <= r <= MAX_INSTANT,
    {
        self.end - self.start
    }
}

impl Period {
    pub open spec fn wf(&self) -> bool {
        period_wf(self@)
    }

    pub fn new() -> (r: Period)
        ensures
            r@.sessions.len() == 0,
            r.wf(),
    {
        Period { sessions: Vec::new() }
    }

    /// Total cents earned over all sessions of the period.
    pub fn earned_cents(&self) -> (r: u128)
        requires
            self.wf(),
        ensures
            r == period_earned(self@.sessions),
    {
        let ghost all = self@.sessions;
        let mut acc: u128 = 0;
        let mut i: usize = 0;
        while i < self.sessions.len()
            invariant
                self.wf(),
                all == self@.sessions,
                0 <= i <= self.sessions.len(),
                acc == period_earned(all.take(i as int)),
            decreases self.sessions.len() - i,
        {
            proof {
                lemma_period_earned_bounds(all.take(i as int));
                lemma_session_earned_bounds(all[i as int]);
                let m = max_session_earned();
                assert((i as int) * m + m < 0x100000000000000000000000000000000)
                    by (nonlinear_arith)
                    requires
                        0 <= i as int <= 0xffffffffffffffff,
                        0 <= m <= 0x20000000000000,
                ;
                assert(all.take(i as int + 1).drop_last() =~= all.take(i as int));
                assert(all.take(i as int + 1).last() == all[i as int]);
            }
            let e = self.sessions[i].earned_cents();
            acc = acc + (e as u128);
            i = i + 1;
        }
        proof {
            assert(all.take(self.sessions.len() as int) =~= all);
        }
        acc
    }

    /// Total seconds spanned by all sessions of the period.
    pub fn total_seconds(&self) -> (r: u128)
        requires
            self.wf(),
        ensures
            r == period_seconds(self@.sessions),
    {
        let ghost all = self@.sessions;
        let mut acc: u128 = 0;
        let mut i: usize = 0;
        while i < self.sessions.len()
            invariant
                self.wf(),
                all == self@.sessions,
                0 <= i <= self.sessions.len(),
                acc == period_seconds(all.take(i as int)),
            decreases self.sessions.len() - i,
        {
            proof {
                lemma_period_seconds_bounds(all.take(i as int));
                let m = MAX_INSTANT as int;
                assert((i as int) * m + m < 0x100000000000000000000000000000000)
                    by (nonlinear_arith)
                    requires
                        0 <= i as int <= 0xffffffffffffffff,
                        0 <= m <= 0x8000000000,
                ;
                assert(all.take(i as int + 1).drop_last() =~= all.take(i as int));
                assert(all.take(i as int + 1).last() == all[i as int]);
            }
            let d = self.sessions[i].duration_seconds();
            acc = acc + (d as u128);
            i = i + 1;
        }
        proof {
            assert(all.take(self.sessions.len() as int) =~= all);
        }
        acc
    }
}

/// The log after a new empty period is started.
pub open spec fn log_start_new_period(v: LogView) -> LogView {
    LogView { periods: v.periods.push(PeriodView { sessions: Seq::empty() }) }
}

/// The log after a session is appended to the current (last) period.
pub open spec fn log_append_session(v: LogView, s: SessionView) -> LogView {
    let n = v.periods.len();
    LogView {
        periods: v.periods.update(
            n - 1,
            PeriodView { sessions: v.periods.last().sessions.push(s) },
        ),
    }
}

impl Log {
    pub open spec fn wf(&self) -> bool {
        log_wf(self@)
    }

    /// A fresh log holds exactly one period, and that period has no sessions.
    pub fn new() -> (r: Log)
        ensures
            r.wf(),
            r@.periods.len() == 1,
            r@.periods[0].sessions.len() == 0,
    {
        let mut periods: Vec<Period> = Vec::new();
        periods.push(Period::new());
        Log { periods }
    }

    /// The current period is always the last one.
    pub fn current_period(&self) -> (r: &Period)
        requires
            self.wf(),
        ensures
            r@ == self@.periods.last(),
            period_wf(r@),
    {
        let n = self.periods.len();
        proof {
            assert(period_wf(self@.periods[n - 1]));
        }
        &self.periods[n - 1]
    }

    /// Appends a new empty period, which becomes the current one.
    pub fn start_new_period(&mut self)
        requires
            old(self).wf(),
        ensures
            final(self)@ == log_start_new_period(old(self)@),
            final(self).wf(),
    {
        self.periods.push(Period::new());
        proof {
            assert(self@.periods =~~= log_start_new_period(old(self)@).periods);
        }
    }

    /// Appends a session to the current (last) period; every other period is
    /// untouched. Always succeeds: no ordering validation against earlier
    /// sessions is performed.
    pub fn append_session(&mut self, session: Session)
        requires
            old(self).wf(),
            session.wf(),
        ensures
            final(self)@ == log_append_session(old(self)@, session@),
            final(self).wf(),
    {
        let mut p = match self.periods.pop() {
            Some(p) => p,
            None => Period::new(),
        };
        p.sessions.push(session);
        self.periods.push(p);
        proof {
            let target = log_append_session(old(self)@, session@);
            assert(self@.periods =~~= target.periods);
            assert(forall|i: int|
                0 <= i < target.periods.len() ==> period_wf(#[trigger] target.periods[i]));
        }
    }
}

/// After starting a new period, the next appended session lands in the new
/// (last) period, which then holds exactly that session; every earlier period,
/// including the previously current one, is unchanged.
pub proof fn lemma_new_period_receives_next_session(v: LogView, s: SessionView)
    requires
        log_wf(v),
    ensures
        log_append_session(log_start_new_period(v), s).periods.len() == v.periods.len() + 1,
        log_append_session(log_start_new_period(v), s).periods.last().sessions =~= seq![s],
        forall|i: int| 0 <= i < v.periods.len()
            ==> log_append_session(log_start_new_period(v), s).periods[i] == v.periods[i],
{
    let w = log_append_session(log_start_new_period(v), s);
    assert(w.periods.last().sessions =~= seq![s]);
}

} // verus!
