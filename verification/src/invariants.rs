//! What holds of every run of a monitor.
//!
//! A run is a monitor and a trace: the events that the driver reports, in
//! order, each with the answer that the pattern test gives if one is made.

use vstd::prelude::*;
use vstd::utf8::encode_utf8;
use crate::monitor::byte_len;
use crate::monitor::step;
use crate::monitor::Monitor;
use crate::monitor::MonitorState;
use crate::monitor::Reaction;
use crate::monitor::WatchEvent;
use crate::pattern::PatternError;
use crate::target::Target;

verus! {

/// One entry of a trace: an event, and the answer of the pattern test for it.
pub struct Input {
    pub event: WatchEvent,
    pub verdict: Result<bool, PatternError>,
}

/// The monitor after the events of `trace`, in order.
pub open spec fn replay(m: Monitor, target: Target, trace: Seq<Input>) -> Monitor
    decreases trace.len(),
{
    if trace.len() == 0 {
        m
    } else {
        step(
            replay(m, target, trace.drop_last()),
            target,
            trace.last().event,
            trace.last().verdict,
        ).0
    }
}

/// One iteration of a monitor: text is appended to the file, the change is
/// notified, the monitor reads the appended text, and where it matched the
/// notification is dispatched.
pub struct Iteration {
    /// The text appended since the monitor last read.
    pub chunk: String,
    /// When it is read.
    pub at: u64,
    /// The verdict of the pattern test on it.
    pub found: bool,
    /// Whether the dispatch, if there is one, succeeds.
    pub delivered: bool,
}

/// The three events of an iteration.
pub open spec fn events_of(it: Iteration) -> Seq<Input> {
    seq![
        Input { event: WatchEvent::Changed, verdict: Ok(it.found) },
        Input { event: WatchEvent::Read { chunk: it.chunk, at: it.at }, verdict: Ok(it.found) },
        Input { event: WatchEvent::Dispatched { success: it.delivered }, verdict: Ok(it.found) },
    ]
}

/// The events of a sequence of iterations.
pub open spec fn trace_of(iterations: Seq<Iteration>) -> Seq<Input>
    decreases iterations.len(),
{
    if iterations.len() == 0 {
        Seq::<Input>::empty()
    } else {
        trace_of(iterations.drop_last()) + events_of(iterations.last())
    }
}

/// The number of bytes that a sequence of iterations appends to the file.
pub open spec fn appended(iterations: Seq<Iteration>) -> nat
    decreases iterations.len(),
{
    if iterations.len() == 0 {
        0
    } else {
        appended(iterations.drop_last()) + byte_len(iterations.last().chunk@)
    }
}

/// A step keeps a monitor well formed, never moves its cursor back, and
/// changes neither its origin nor its pattern test.
pub proof fn lemma_step_moves_forward(
    m: Monitor,
    target: Target,
    event: WatchEvent,
    verdict: Result<bool, PatternError>,
)
    requires
        m.wf(),
    ensures
        step(m, target, event, verdict).0.wf(),
        step(m, target, event, verdict).0.origin == m.origin,
        step(m, target, event, verdict).0.matcher == m.matcher,
        m.pos <= step(m, target, event, verdict).0.pos,
{
}

/// Replaying a trace in two parts is replaying it whole.
pub proof fn lemma_replay_concat(
    m: Monitor,
    target: Target,
    first: Seq<Input>,
    second: Seq<Input>,
)
    ensures
        replay(m, target, first + second) == replay(replay(m, target, first), target, second),
    decreases second.len(),
{
    if second.len() == 0 {
        assert(first + second =~= first);
    } else {
        lemma_replay_concat(m, target, first, second.drop_last());
        assert((first + second).drop_last() =~= first + second.drop_last());
        assert((first + second).last() == second.last());
    }
}

/// The cursor never decreases: after any trace a well-formed monitor is
/// well formed, has the origin it started with, and its cursor stands at or
/// after the place where it stood after any part of the trace.
pub proof fn lemma_cursor_never_decreases(
    m: Monitor,
    target: Target,
    trace: Seq<Input>,
    n: int,
)
    requires
        m.wf(),
        0 <= n <= trace.len(),
    ensures
        replay(m, target, trace).wf(),
        replay(m, target, trace).origin == m.origin,
        replay(m, target, trace.take(n)).pos <= replay(m, target, trace).pos,
    decreases trace.len(),
{
    if trace.len() == 0 {
        assert(trace.take(n) =~= trace);
    } else {
        let before = replay(m, target, trace.drop_last());
        if n == trace.len() {
            assert(trace.take(n) =~= trace);
            lemma_cursor_never_decreases(m, target, trace.drop_last(), n - 1);
        } else {
            assert(trace.drop_last().take(n) =~= trace.take(n));
            lemma_cursor_never_decreases(m, target, trace.drop_last(), n);
        }
        lemma_step_moves_forward(before, target, trace.last().event, trace.last().verdict);
    }
}

/// The cursor follows the file: a monitor that waits with its cursor at the
/// end of the file, and then goes through iterations that each read what
/// was appended, waits again with its cursor moved by exactly the bytes
/// appended, which is the end of the file again.
pub proof fn lemma_cursor_tracks_file_size(
    m: Monitor,
    target: Target,
    iterations: Seq<Iteration>,
)
    requires
        m.wf(),
        m.state == MonitorState::Armed,
        m.pos + appended(iterations) <= u64::MAX,
    ensures
        replay(m, target, trace_of(iterations)) == (Monitor {
            pos: m.pos + appended(iterations),
            ..m
        }),
    decreases iterations.len(),
{
    if iterations.len() == 0 {
    } else {
        let earlier = iterations.drop_last();
        let it = iterations.last();
        lemma_cursor_tracks_file_size(m, target, earlier);
        lemma_replay_concat(m, target, trace_of(earlier), events_of(it));
        let armed = replay(m, target, trace_of(earlier));
        let events = events_of(it);
        assert(events.drop_last().drop_last().drop_last() =~= Seq::<Input>::empty());
        reveal_with_fuel(replay, 4);
        assert(events.drop_last().last() == events[1]);
        assert(events.drop_last().drop_last().last() == events[0]);
    }
}

/// A read to the end of the file leaves the cursor at the end of the file:
/// where a draining monitor is handed the bytes that stand in `file` from
/// its cursor on, its cursor is the size of `file` afterwards, whether they
/// matched or not.
pub proof fn lemma_read_reaches_end_of_file(
    m: Monitor,
    target: Target,
    file: Seq<u8>,
    chunk: String,
    at: u64,
    verdict: Result<bool, PatternError>,
)
    requires
        m.wf(),
        m.state == MonitorState::Draining,
        m.pos <= file.len() <= u64::MAX,
        encode_utf8(chunk@) == file.subrange(m.pos as int, file.len() as int),
    ensures
        step(m, target, WatchEvent::Read { chunk, at }, verdict).0.pos == file.len(),
{
}

/// Nothing from before the start is read: whatever the trace, a monitor
/// never asks for bytes that stand before its origin, the size that the
/// file had when the monitor was made.
pub proof fn lemma_never_reads_before_origin(
    m: Monitor,
    target: Target,
    trace: Seq<Input>,
    next: Input,
)
    requires
        m.wf(),
    ensures
        step(replay(m, target, trace), target, next.event, next.verdict).1 matches Reaction::Drain {
            offset,
        } ==> m.origin <= offset,
{
    lemma_cursor_never_decreases(m, target, trace, 0);
}

/// A notification without new bytes changes nothing: where a change is
/// notified and the read that follows is empty, the monitor waits again as
/// it did before, whatever the pattern, and nothing is dispatched.
pub proof fn lemma_empty_read_changes_nothing(
    m: Monitor,
    target: Target,
    chunk: String,
    at: u64,
    verdict: Result<bool, PatternError>,
)
    requires
        m.wf(),
        m.state == MonitorState::Armed,
        chunk@.len() == 0,
    ensures
        step(
            step(m, target, WatchEvent::Changed, verdict).0,
            target,
            WatchEvent::Read { chunk, at },
            verdict,
        ) == (m, Reaction::Arm),
{
}

/// A failed dispatch stops nothing: once the dispatch of a match has
/// ended, well or badly, the monitor waits for the next change.
pub proof fn lemma_dispatch_outcome_is_not_fatal(
    m: Monitor,
    target: Target,
    success: bool,
    verdict: Result<bool, PatternError>,
)
    requires
        m.state == MonitorState::Matched,
    ensures
        step(m, target, WatchEvent::Dispatched { success }, verdict) == (
            Monitor { state: MonitorState::Armed, ..m },
            Reaction::Arm,
        ),
{
}

} // verus!
