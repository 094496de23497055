//! The monitor of one file: a read cursor and the state machine around it.
//!
//! The monitor performs no I/O. A driver performs the action that the
//! monitor names (wait for a change of the file, read from an offset to the
//! end of the file, dispatch a notification) and hands back what happened as
//! the next event.

use vstd::prelude::*;
use vstd::utf8::encode_utf8;
use crate::pattern::Matcher;
use crate::pattern::PatternError;
use crate::target::Match;
use crate::target::MatchEvent;
use crate::target::Target;
use crate::target::WatchTarget;
use crate::text::trim;
use crate::text::trimmed;

verus! {

/// Where a monitor stands in its cycle.
#[derive(Clone, Copy, Debug, PartialEq, Eq, Structural)]
pub enum MonitorState {
    /// The file's size has been recorded as the cursor; nothing is watched yet.
    Opened,
    /// Waiting for a change notification.
    Armed,
    /// A change was notified; waiting for the bytes after the cursor.
    Draining,
    /// The last chunk matched; its notification is being dispatched.
    Matched,
    /// The monitor has ended and holds no resources.
    Stopped,
}

/// A failure of one iteration. It is logged and the monitor waits again.
#[derive(Clone, Copy, Debug, PartialEq, Eq, Structural)]
pub enum Fault {
    /// Waiting for a change notification failed.
    Watch,
    /// Reading the new bytes failed.
    Read,
}

/// A failure that ends the monitor.
#[derive(Debug, PartialEq, Eq)]
pub enum WatchError {
    /// The file could not be opened when monitoring was to start.
    Unopenable,
    /// The cursor cannot advance by the bytes read: the offset would pass
    /// the largest 64-bit offset.
    Overflow,
    /// The pattern could not be tested.
    Pattern(PatternError),
}

/// Why a monitor stopped.
#[derive(Debug, PartialEq, Eq)]
pub enum StopReason {
    /// The driver asked it to.
    Cancelled,
    /// It failed.
    Failed(WatchError),
}

/// What the driver reports to the monitor.
#[derive(Debug, PartialEq, Eq)]
pub enum WatchEvent {
    /// The monitor is to begin watching.
    Start,
    /// A change of the file was notified.
    Changed,
    /// Waiting for a change failed.
    WatchFailed,
    /// The bytes from the cursor to the end of the file, read at time `at`.
    Read { chunk: String, at: u64 },
    /// Reading failed.
    ReadFailed,
    /// The notification of the last match has been dispatched.
    Dispatched { success: bool },
    /// The monitor is to stop.
    Cancelled,
}

/// What the monitor asks the driver to do next.
#[derive(Debug, PartialEq, Eq)]
pub enum WatchAction {
    /// Block until a change of the file is notified.
    Arm,
    /// Read from `offset` to the end of the file.
    Drain { offset: u64 },
    /// Dispatch the notification of this match.
    Fire(MatchEvent),
    /// Log the fault, then block until a change of the file is notified.
    Retry(Fault),
    /// Release the file and the watch, and end.
    Stop(StopReason),
    /// Nothing: the event does not belong to the monitor's state.
    Ignore,
}

/// The mathematical content of a `WatchAction`.
pub enum Reaction {
    Arm,
    Drain { offset: u64 },
    Fire(Match),
    Retry(Fault),
    Stop(StopReason),
    Ignore,
}

impl View for WatchAction {
    type V = Reaction;

    open spec fn view(&self) -> Reaction {
        match *self {
            WatchAction::Arm => Reaction::Arm,
            WatchAction::Drain { offset } => Reaction::Drain { offset },
            WatchAction::Fire(ev) => Reaction::Fire(ev@),
            WatchAction::Retry(fault) => Reaction::Retry(fault),
            WatchAction::Stop(reason) => Reaction::Stop(reason),
            WatchAction::Ignore => Reaction::Ignore,
        }
    }
}

/// The mathematical content of a monitor.
pub struct Monitor {
    /// Size of the file when the monitor was made.
    pub origin: nat,
    /// The cursor: how many bytes of the file are behind the monitor.
    pub pos: nat,
    pub state: MonitorState,
    pub matcher: Matcher,
}

impl Monitor {
    /// The cursor is a 64-bit offset at or after the origin.
    pub open spec fn wf(self) -> bool {
        self.origin <= self.pos <= u64::MAX
    }
}

/// The number of bytes that a chunk of text takes in the file.
pub open spec fn byte_len(chunk: Seq<char>) -> nat {
    encode_utf8(chunk).len()
}

/// Whether a read of `len` bytes at cursor `pos` is tested against the
/// pattern: it is unless it is empty or the cursor cannot hold it.
pub open spec fn is_tested(pos: nat, len: nat) -> bool {
    len > 0 && pos + len <= u64::MAX
}

/// The cursor after a read of `len` bytes whose pattern test answered
/// `verdict`, and what is reported. An empty read consumes nothing and is
/// no match, whatever the pattern. A read that the cursor cannot hold ends
/// in `Overflow` and consumes nothing. Any other read moves the cursor by
/// exactly `len`.
pub open spec fn consumed(pos: nat, len: nat, verdict: Result<bool, PatternError>) -> (
    nat,
    Result<bool, WatchError>,
) {
    if len == 0 {
        (pos, Ok(false))
    } else if pos + len > u64::MAX {
        (pos, Err(WatchError::Overflow))
    } else {
        match verdict {
            Ok(found) => (pos + len, Ok(found)),
            Err(e) => (pos + len, Err(WatchError::Pattern(e))),
        }
    }
}

/// The monitor and its reaction after `event`, where a pattern test, if one
/// is made, answers `verdict`.
pub open spec fn step(
    m: Monitor,
    target: Target,
    event: WatchEvent,
    verdict: Result<bool, PatternError>,
) -> (Monitor, Reaction) {
    match (m.state, event) {
        (MonitorState::Stopped, _) => (m, Reaction::Ignore),
        (_, WatchEvent::Cancelled) => (
            Monitor { state: MonitorState::Stopped, ..m },
            Reaction::Stop(StopReason::Cancelled),
        ),
        (MonitorState::Opened, WatchEvent::Start) => (
            Monitor { state: MonitorState::Armed, ..m },
            Reaction::Arm,
        ),
        (MonitorState::Armed, WatchEvent::Changed) => (
            Monitor { state: MonitorState::Draining, ..m },
            Reaction::Drain { offset: m.pos as u64 },
        ),
        (MonitorState::Armed, WatchEvent::WatchFailed) => (m, Reaction::Retry(Fault::Watch)),
        (MonitorState::Draining, WatchEvent::ReadFailed) => (
            Monitor { state: MonitorState::Armed, ..m },
            Reaction::Retry(Fault::Read),
        ),
        (MonitorState::Draining, WatchEvent::Read { chunk, at }) => {
            let (pos, report) = consumed(m.pos, byte_len(chunk@), verdict);
            match report {
                Ok(true) => (
                    Monitor { pos, state: MonitorState::Matched, ..m },
                    Reaction::Fire(Match { target, text: trimmed(chunk@), at }),
                ),
                Ok(false) => (Monitor { pos, state: MonitorState::Armed, ..m }, Reaction::Arm),
                Err(e) => (
                    Monitor { pos, state: MonitorState::Stopped, ..m },
                    Reaction::Stop(StopReason::Failed(e)),
                ),
            }
        },
        (MonitorState::Matched, WatchEvent::Dispatched { success }) => (
            Monitor { state: MonitorState::Armed, ..m },
            Reaction::Arm,
        ),
        _ => (m, Reaction::Ignore),
    }
}

/// The answer of the pattern test that a report shows: the refusal that it
/// carries, or else the verdict of `matcher`.
pub open spec fn shown_verdict(
    report: Result<bool, WatchError>,
    matcher: Matcher,
    pattern: Seq<char>,
    chunk: Seq<char>,
) -> Result<bool, PatternError> {
    match report {
        Err(WatchError::Pattern(e)) => Err(e),
        _ => Ok(matcher.accepts(pattern, chunk)),
    }
}

/// The answer of the pattern test that a reaction shows.
pub open spec fn reaction_verdict(
    reaction: Reaction,
    matcher: Matcher,
    pattern: Seq<char>,
    chunk: Seq<char>,
) -> Result<bool, PatternError> {
    match reaction {
        Reaction::Stop(StopReason::Failed(WatchError::Pattern(e))) => Err(e),
        _ => Ok(matcher.accepts(pattern, chunk)),
    }
}

/// The text that an event brings: the chunk of a read, nothing otherwise.
pub open spec fn chunk_of(event: WatchEvent) -> Seq<char> {
    match event {
        WatchEvent::Read { chunk, at } => chunk@,
        _ => Seq::<char>::empty(),
    }
}

/// The monitor of one file. It owns the read cursor, which starts at the
/// size that the file has when the monitor is made and from then on moves
/// forward only, by the bytes that the monitor consumes.
#[derive(Clone, Copy, Debug)]
pub struct FileHandler {
    pos: u64,
    origin: u64,
    state: MonitorState,
    matcher: Matcher,
}

impl View for FileHandler {
    type V = Monitor;

    closed spec fn view(&self) -> Monitor {
        Monitor {
            origin: self.origin as nat,
            pos: self.pos as nat,
            state: self.state,
            matcher: self.matcher,
        }
    }
}

impl FileHandler {
    #[verifier::type_invariant]
    spec fn cursor_past_origin(self) -> bool {
        self.origin <= self.pos
    }

    /// The monitor that `new` makes.
    pub open spec fn new_spec(size: u64, matcher: Matcher) -> Monitor {
        Monitor { origin: size as nat, pos: size as nat, state: MonitorState::Opened, matcher }
    }

    /// A monitor for a file that has `size` bytes now: the cursor starts
    /// there, so that what the file already holds is never read.
    pub fn new(size: u64, matcher: Matcher) -> (out: Self)
        ensures
            out@ == Self::new_spec(size, matcher),
            out@.wf(),
    {
        FileHandler { pos: size, origin: size, state: MonitorState::Opened, matcher }
    }

    /// The cursor: the offset up to which the file has been consumed.
    pub fn position(&self) -> (pos: u64)
        ensures
            pos == self@.pos,
            self@.wf(),
    {
        proof {
            use_type_invariant(self);
        }
        self.pos
    }

    /// The size that the file had when the monitor was made.
    pub fn origin(&self) -> (origin: u64)
        ensures
            origin == self@.origin,
    {
        self.origin
    }

    /// Where the monitor stands in its cycle.
    pub fn state(&self) -> (state: MonitorState)
        ensures
            state == self@.state,
    {
        self.state
    }

    /// The pattern test that the monitor applies.
    pub fn matcher(&self) -> (matcher: Matcher)
        ensures
            matcher == self@.matcher,
    {
        self.matcher
    }

    /// Consumes `len` newly read bytes whose pattern test answered
    /// `verdict`: moves the cursor and says whether they matched.
    pub fn conclude(&mut self, len: usize, verdict: Result<bool, PatternError>) -> (report: Result<
        bool,
        WatchError,
    >)
        ensures
            report == consumed(old(self)@.pos, len as nat, verdict).1,
            final(self)@ == (Monitor {
                pos: consumed(old(self)@.pos, len as nat, verdict).0,
                ..old(self)@
            }),
            final(self)@.wf(),
    {
        proof {
            use_type_invariant(&*self);
        }
        if len == 0 {
            Ok(false)
        } else if len as u64 > u64::MAX - self.pos {
            Err(WatchError::Overflow)
        } else {
            self.pos = self.pos + len as u64;
            match verdict {
                Ok(found) => Ok(found),
                Err(e) => Err(WatchError::Pattern(e)),
            }
        }
    }

    /// Consumes the newly read `chunk`: moves the cursor by its length in
    /// bytes and tests it, and nothing else, against `search_string`. An
    /// empty chunk is no match and is not tested. Nothing of an earlier
    /// chunk is kept, so a pattern that is split between two reads is not
    /// found.
    pub fn watch(&mut self, chunk: &str, search_string: &str) -> (report: Result<bool, WatchError>)
        ensures
            is_tested(old(self)@.pos, byte_len(chunk@)) ==> old(self)@.matcher.may_answer(
                search_string@,
                chunk@,
                shown_verdict(report, old(self)@.matcher, search_string@, chunk@),
            ),
            final(self)@.wf(),
            report == consumed(
                old(self)@.pos,
                byte_len(chunk@),
                shown_verdict(report, old(self)@.matcher, search_string@, chunk@),
            ).1,
            final(self)@ == (Monitor {
                pos: consumed(
                    old(self)@.pos,
                    byte_len(chunk@),
                    shown_verdict(report, old(self)@.matcher, search_string@, chunk@),
                ).0,
                ..old(self)@
            }),
    {
        proof {
            use_type_invariant(&*self);
        }
        let len = chunk.as_bytes().len();
        if len == 0 || len as u64 > u64::MAX - self.pos {
            self.conclude(len, Ok(false))
        } else {
            let verdict = self.matcher.test(search_string, chunk);
            self.conclude(len, verdict)
        }
    }

    /// One step of the monitor: takes what the driver reports and returns
    /// what the driver is to do next.
    pub fn monitor(&mut self, target: &WatchTarget, event: WatchEvent) -> (action: WatchAction)
        ensures
            (final(self)@, action@) == step(
                old(self)@,
                target@,
                event,
                reaction_verdict(action@, old(self)@.matcher, target.pattern@, chunk_of(event)),
            ),
            old(self)@.state == MonitorState::Draining && event is Read && is_tested(
                old(self)@.pos,
                byte_len(chunk_of(event)),
            ) ==> old(self)@.matcher.may_answer(
                target.pattern@,
                chunk_of(event),
                reaction_verdict(action@, old(self)@.matcher, target.pattern@, chunk_of(event)),
            ),
            final(self)@.wf(),
    {
        proof {
            use_type_invariant(&*self);
        }
        match self.state {
            MonitorState::Stopped => WatchAction::Ignore,
            MonitorState::Opened => match event {
                WatchEvent::Cancelled => {
                    self.state = MonitorState::Stopped;
                    WatchAction::Stop(StopReason::Cancelled)
                },
                WatchEvent::Start => {
                    self.state = MonitorState::Armed;
                    WatchAction::Arm
                },
                _ => WatchAction::Ignore,
            },
            MonitorState::Armed => match event {
                WatchEvent::Cancelled => {
                    self.state = MonitorState::Stopped;
                    WatchAction::Stop(StopReason::Cancelled)
                },
                WatchEvent::Changed => {
                    self.state = MonitorState::Draining;
                    WatchAction::Drain { offset: self.pos }
                },
                WatchEvent::WatchFailed => WatchAction::Retry(Fault::Watch),
                _ => WatchAction::Ignore,
            },
            MonitorState::Draining => match event {
                WatchEvent::Cancelled => {
                    self.state = MonitorState::Stopped;
                    WatchAction::Stop(StopReason::Cancelled)
                },
                WatchEvent::ReadFailed => {
                    self.state = MonitorState::Armed;
                    WatchAction::Retry(Fault::Read)
                },
                WatchEvent::Read { chunk, at } => {
                    match self.watch(chunk.as_str(), target.pattern.as_str()) {
                        Ok(true) => {
                            self.state = MonitorState::Matched;
                            WatchAction::Fire(
                                MatchEvent {
                                    target: target.clone(),
                                    matched_text: String::from_str(trim(chunk.as_str())),
                                    timestamp: at,
                                },
                            )
                        },
                        Ok(false) => {
                            self.state = MonitorState::Armed;
                            WatchAction::Arm
                        },
                        Err(e) => {
                            self.state = MonitorState::Stopped;
                            WatchAction::Stop(StopReason::Failed(e))
                        },
                    }
                },
                _ => WatchAction::Ignore,
            },
            MonitorState::Matched => match event {
                WatchEvent::Cancelled => {
                    self.state = MonitorState::Stopped;
                    WatchAction::Stop(StopReason::Cancelled)
                },
                WatchEvent::Dispatched { success } => {
                    self.state = MonitorState::Armed;
                    WatchAction::Arm
                },
                _ => WatchAction::Ignore,
            },
        }
    }
}

} // verus!
