//! The interactive session recorder: a `Running -> Stopped` state machine.
//!
//! The recorder owns the effective start instant, the hourly rate, the tags
//! collected so far, and the pending free-text input buffer. The terminal loop
//! outside this crate waits for the next tick or input event, whichever comes
//! first, and hands each one to [`Recorder::step`]; the recorder decides what
//! changes and what to emit. Stopping yields the finalized [`Session`].

use vstd::prelude::*;
use crate::earnings::{
    MAX_INSTANT, MAX_RATE_CENTS, earned_spec, effective_start_spec, elapsed_spec,
};
use crate::model::{Session, SessionView, Tag, TagView, tag_wf};

verus! {

/// Relies on String::push: appends the given character to the end of the
/// string.
pub assume_specification[ String::push ](s: &mut String, ch: char)
    ensures
        final(s)@ == old(s)@.push(ch),
;

/// The whitespace characters a note is trimmed of.
pub open spec fn is_space_char(c: char) -> bool {
    c == ' ' || c == '\t' || c == '\n' || c == '\r'
}

/// A note is blank when it is empty or holds whitespace alone; committing a
/// blank note must not add a tag.
pub open spec fn is_blank(s: Seq<char>) -> bool {
    forall|i: int| 0 <= i < s.len() ==> is_space_char(#[trigger] s[i])
}

fn char_is_space(c: char) -> (r: bool)
    ensures
        r == is_space_char(c),
{
    c == ' ' || c == '\t' || c == '\n' || c == '\r'
}

pub fn buffer_is_blank(s: &Vec<char>) -> (r: bool)
    ensures
        r == is_blank(s@),
{
    let mut i: usize = 0;
    while i < s.len()
        invariant
            0 <= i <= s@.len(),
            forall|j: int| 0 <= j < i ==> is_space_char(#[trigger] s@[j]),
        decreases s@.len() - i,
    {
        if !char_is_space(s[i]) {
            return false;
        }
        i = i + 1;
    }
    true
}

pub(crate) fn chars_to_string(cs: &Vec<char>) -> (r: String)
    ensures
        r@ == cs@,
{
    let mut r = String::new();
    let mut i: usize = 0;
    while i < cs.len()
        invariant
            0 <= i <= cs@.len(),
            r@ == cs@.take(i as int),
        decreases cs@.len() - i,
    {
        r.push(cs[i]);
        proof {
            assert(cs@.take(i as int + 1) =~= cs@.take(i as int).push(cs@[i as int]));
        }
        i = i + 1;
    }
    proof {
        assert(cs@.take(cs@.len() as int) =~= cs@);
    }
    r
}

/// The views of a sequence of tags, in order.
pub open spec fn tag_views(ts: Seq<Tag>) -> Seq<TagView> {
    ts.map_values(|t: Tag| t@)
}

/// Ordered, append-only list of timestamped notes collected during a session.
pub struct TagLog {
    tags: Vec<Tag>,
}

impl View for TagLog {
    type V = Seq<TagView>;

    closed spec fn view(&self) -> Seq<TagView> {
        tag_views(self.tags@)
    }
}

impl TagLog {
    pub open spec fn wf(&self) -> bool {
        forall|i: int| 0 <= i < self@.len() ==> tag_wf(#[trigger] self@[i])
    }

    pub fn new() -> (r: TagLog)
        ensures
            r@.len() == 0,
            r.wf(),
    {
        TagLog { tags: Vec::new() }
    }

    /// Adds a tag carrying the note and the instant, unless the note is blank
    /// after trimming; a blank commit is a no-op.
    pub fn append(&mut self, note: &Vec<char>, at: i64) -> (added: bool)
        requires
            old(self).wf(),
            0 <= at <= MAX_INSTANT,
        ensures
            added == !is_blank(note@),
            added ==> final(self)@ == old(self)@.push(TagView { note: note@, time: at as int }),
            !added ==> final(self)@ == old(self)@,
            final(self).wf(),
    {
        if buffer_is_blank(note) {
            return false;
        }
        let tag = Tag { note: chars_to_string(note), time: at };
        self.tags.push(tag);
        proof {
            assert(self@ =~~= old(self)@.push(TagView { note: note@, time: at as int }));
        }
        true
    }

    /// The ordered tags, for rendering.
    pub fn list(&self) -> (r: &Vec<Tag>)
        ensures
            tag_views(r@) == self@,
    {
        &self.tags
    }

    /// A copy of the ordered tags, e.g. to finalize a session.
    pub fn snapshot(&self) -> (r: Vec<Tag>)
        ensures
            tag_views(r@) == self@,
    {
        let mut r: Vec<Tag> = Vec::new();
        let mut i: usize = 0;
        while i < self.tags.len()
            invariant
                0 <= i <= self.tags@.len(),
                r@.len() == i,
                forall|j: int| 0 <= j < i ==> (#[trigger] r@[j])@ == self@[j],
            decreases self.tags@.len() - i,
        {
            let t = &self.tags[i];
            r.push(Tag { note: t.note.clone(), time: t.time });
            i = i + 1;
        }
        proof {
            assert(tag_views(r@) =~= self@);
        }
        r
    }
}

enum RecorderState {
    Running,
    Stopped,
}

/// One input to the recorder loop. Instants come from the caller's clock.
pub enum RecorderEvent {
    /// The tick cadence elapsed: recompute the live display figures.
    Tick { now: i64 },
    /// The user typed a character into the pending-input buffer.
    InputChar { c: char },
    /// The user erased the last character of the pending-input buffer.
    InputBackspace,
    /// The user committed the pending input as a tag.
    CommitNote { now: i64 },
    /// The user ended the session.
    Stop { now: i64 },
}

/// What one step of the recorder hands back to the loop.
pub enum StepResult {
    /// Keep looping; nothing to emit.
    Continue,
    /// Show the recomputed elapsed seconds and earned cents.
    Display { elapsed_seconds: i64, earned_cents: u64 },
    /// The session ended; the recorder is stopped for good.
    Finished { session: Session },
}

#[derive(PartialEq, Eq, Structural, Clone, Copy, Debug)]
pub enum ConfigError {
    /// The hourly rate was zero; the recorder never starts.
    NonPositiveRate,
    /// The hourly rate exceeded `MAX_RATE_CENTS`.
    RateTooLarge,
}

pub struct RecorderView {
    pub effective_start: int,
    pub hourly_rate_cents: int,
    pub tags: Seq<TagView>,
    pub input: Seq<char>,
    pub running: bool,
}

pub struct Recorder {
    state: RecorderState,
    effective_start: i64,
    hourly_rate_cents: u32,
    tag_log: TagLog,
    input: Vec<char>,
}

impl View for Recorder {
    type V = RecorderView;

    closed spec fn view(&self) -> RecorderView {
        RecorderView {
            effective_start: self.effective_start as int,
            hourly_rate_cents: self.hourly_rate_cents as int,
            tags: self.tag_log@,
            input: self.input@,
            running: self.state is Running,
        }
    }
}

/// The machine bounds an event must respect before it is stepped.
pub open spec fn event_wf(v: RecorderView, e: RecorderEvent) -> bool {
    match e {
        RecorderEvent::Tick { now } => now <= MAX_INSTANT,
        RecorderEvent::InputChar { c } => true,
        RecorderEvent::InputBackspace => true,
        RecorderEvent::CommitNote { now } => 0 <= now <= MAX_INSTANT,
        RecorderEvent::Stop { now } => v.effective_start <= now <= MAX_INSTANT,
    }
}

impl Recorder {
    pub open spec fn wf(&self) -> bool {
        &&& 0 <= self@.effective_start <= MAX_INSTANT as int
        &&& 0 < self@.hourly_rate_cents <= MAX_RATE_CENTS as int
        &&& forall|i: int| 0 <= i < self@.tags.len() ==> tag_wf(#[trigger] self@.tags[i])
    }

    /// Starts a recorder at `now`, credited with `catch_up_minutes` of
    /// already-worked time: the effective start is `now` shifted back by
    /// `catch_up_minutes * 60` seconds and is fixed for the session's
    /// lifetime. A rate of zero is a configuration error: nothing starts.
    pub fn new(hourly_rate_cents: u32, catch_up_minutes: u64, now: i64) -> (r: Result<
        Recorder,
        ConfigError,
    >)
        requires
            0 <= now <= MAX_INSTANT,
            catch_up_minutes * 60 <= now,
        ensures
            r is Ok <==> 0 < hourly_rate_cents <= MAX_RATE_CENTS,
            hourly_rate_cents == 0 ==> r == Err::<Recorder, ConfigError>(
                ConfigError::NonPositiveRate,
            ),
            hourly_rate_cents > MAX_RATE_CENTS ==> r == Err::<Recorder, ConfigError>(
                ConfigError::RateTooLarge,
            ),
            r matches Ok(rec) ==> {
                &&& rec@.effective_start == effective_start_spec(
                    now as int,
                    catch_up_minutes as int,
                )
                &&& rec@.hourly_rate_cents == hourly_rate_cents as int
                &&& rec@.tags.len() == 0
                &&& rec@.input.len() == 0
                &&& rec@.running
                &&& rec.wf()
            },
    {
        if hourly_rate_cents == 0 {
            return Err(ConfigError::NonPositiveRate);
        }
        if hourly_rate_cents > MAX_RATE_CENTS {
            return Err(ConfigError::RateTooLarge);
        }
        let start = crate::earnings::effective_start(now, catch_up_minutes);
        Ok(
            Recorder {
                state: RecorderState::Running,
                effective_start: start,
                hourly_rate_cents,
                tag_log: TagLog::new(),
                input: Vec::new(),
            },
        )
    }

    /// The cadence of display ticks, chosen so each tick is worth roughly one
    /// cent: `3_600_000 / rate` milliseconds.
    pub fn tick_interval_ms(&self) -> (r: u64)
        requires
            self.wf(),
        ensures
            r == 3600000int / self@.hourly_rate_cents,
    {
        3600000u64 / (self.hourly_rate_cents as u64)
    }

    pub fn pending_input(&self) -> (r: &Vec<char>)
        ensures
            r@ == self@.input,
    {
        &self.input
    }

    pub fn tag_log(&self) -> (r: &TagLog)
        ensures
            r@ == self@.tags,
    {
        &self.tag_log
    }

    /// Drives the state machine by one event while `Running`.
    ///
    /// A tick changes nothing and emits the live figures; input events edit
    /// the pending buffer; a commit turns a non-blank buffer into a tag and
    /// clears the buffer, and is a no-op on a blank one; a stop finalizes the
    /// session from the effective start, the stop instant, the rate and the
    /// collected tags.
    pub fn step(&mut self, event: RecorderEvent) -> (r: StepResult)
        requires
            old(self).wf(),
            old(self)@.running,
            event_wf(old(self)@, event),
        ensures
            final(self).wf(),
            final(self)@.effective_start == old(self)@.effective_start,
            final(self)@.hourly_rate_cents == old(self)@.hourly_rate_cents,
            match event {
                RecorderEvent::Tick { now } => {
                    &&& final(self)@ == old(self)@
                    &&& (r matches StepResult::Display { elapsed_seconds, earned_cents }
                        && elapsed_seconds == elapsed_spec(old(self)@.effective_start, now as int)
                        && earned_cents == earned_spec(
                        old(self)@.hourly_rate_cents,
                        elapsed_spec(old(self)@.effective_start, now as int),
                    ))
                },
                RecorderEvent::InputChar { c } => {
                    &&& final(self)@ == (RecorderView { input: old(self)@.input.push(c), ..old(self)@ })
                    &&& r is Continue
                },
                RecorderEvent::InputBackspace => {
                    &&& final(self)@ == (RecorderView {
                        input: if old(self)@.input.len() > 0 {
                            old(self)@.input.drop_last()
                        } else {
                            old(self)@.input
                        },
                        ..old(self)@
                    })
                    &&& r is Continue
                },
                RecorderEvent::CommitNote { now } => {
                    &&& if is_blank(old(self)@.input) {
                        final(self)@ == old(self)@
                    } else {
                        final(self)@ == (RecorderView {
                            tags: old(self)@.tags.push(
                                TagView { note: old(self)@.input, time: now as int },
                            ),
                            input: Seq::empty(),
                            ..old(self)@
                        })
                    }
                    &&& r is Continue
                },
                RecorderEvent::Stop { now } => {
                    &&& final(self)@ == (RecorderView { running: false, ..old(self)@ })
                    &&& (r matches StepResult::Finished { session }
                        && session@ == (SessionView {
                        start: old(self)@.effective_start,
                        end: now as int,
                        hourly_rate_cents: old(self)@.hourly_rate_cents,
                        tags: old(self)@.tags,
                    })
                        && session.wf())
                },
            },
    {
        match event {
            RecorderEvent::Tick { now } => {
                let elapsed = crate::earnings::elapsed_seconds(self.effective_start, now);
                let earned = crate::earnings::earned_cents(self.hourly_rate_cents, elapsed);
                StepResult::Display { elapsed_seconds: elapsed, earned_cents: earned }
            },
            RecorderEvent::InputChar { c } => {
                self.input.push(c);
                StepResult::Continue
            },
            RecorderEvent::InputBackspace => {
                if self.input.len() > 0 {
                    self.input.pop();
                    proof {
                        assert(self@.input =~= old(self)@.input.drop_last());
                    }
                }
                StepResult::Continue
            },
            RecorderEvent::CommitNote { now } => {
                let added = self.tag_log.append(&self.input, now);
                if added {
                    self.input.clear();
                }
                StepResult::Continue
            },
            RecorderEvent::Stop { now } => {
                let tags = self.tag_log.snapshot();
                self.state = RecorderState::Stopped;
                let session = Session {
                    start: self.effective_start,
                    end: now,
                    hourly_rate_cents: self.hourly_rate_cents,
                    tags,
                };
                StepResult::Finished { session }
            },
        }
    }
}

} // verus!
