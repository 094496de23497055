//! The supervisor: one monitoring unit per watch target, each on its own.
//!
//! The set of targets is fixed when the supervisor is made. Every event is
//! addressed to one unit and changes that unit alone, so that a unit that
//! fails or ends leaves the others as they are.

use vstd::prelude::*;
use crate::monitor::FileHandler;
use crate::monitor::Monitor;
use crate::monitor::MonitorState;
use crate::monitor::Reaction;
use crate::monitor::StopReason;
use crate::monitor::WatchAction;
use crate::monitor::WatchError;
use crate::monitor::WatchEvent;
use crate::monitor::byte_len;
use crate::monitor::chunk_of;
use crate::monitor::is_tested;
use crate::monitor::reaction_verdict;
use crate::monitor::step;
use crate::pattern::Matcher;
use crate::pattern::PatternError;
use crate::target::Target;
use crate::target::WatchTarget;

verus! {

/// The monitoring unit of one target.
#[derive(Clone, Copy, Debug)]
enum Unit {
    /// Its file has not been opened yet.
    Pending,
    /// It is monitoring.
    Running(FileHandler),
    /// It has ended; it takes no more events.
    Ended,
}

/// The state of the monitoring unit of one target.
pub enum UnitView {
    Pending,
    Running(Monitor),
    Ended,
}

impl View for Unit {
    type V = UnitView;

    closed spec fn view(&self) -> UnitView {
        match *self {
            Unit::Pending => UnitView::Pending,
            Unit::Running(handler) => UnitView::Running(handler@),
            Unit::Ended => UnitView::Ended,
        }
    }
}

/// A unit, and the reaction, after its file was opened and found to have
/// `size` bytes, or could not be opened. A unit whose file cannot be opened
/// ends; it is the only one that does.
pub open spec fn opened(unit: UnitView, matcher: Matcher, size: Option<u64>) -> (
    UnitView,
    Reaction,
) {
    match (unit, size) {
        (UnitView::Pending, Some(size)) => (
            UnitView::Running(
                Monitor {
                    origin: size as nat,
                    pos: size as nat,
                    state: MonitorState::Armed,
                    matcher,
                },
            ),
            Reaction::Arm,
        ),
        (UnitView::Pending, None) => (
            UnitView::Ended,
            Reaction::Stop(StopReason::Failed(WatchError::Unopenable)),
        ),
        _ => (unit, Reaction::Ignore),
    }
}

/// A unit, and the reaction, after `event`: a running unit takes a step of
/// its monitor and ends where the monitor stops; any other unit ignores
/// the event.
pub open spec fn delivered(
    unit: UnitView,
    target: Target,
    event: WatchEvent,
    verdict: Result<bool, PatternError>,
) -> (UnitView, Reaction) {
    match unit {
        UnitView::Running(m) => {
            let (next, reaction) = step(m, target, event, verdict);
            if next.state == MonitorState::Stopped {
                (UnitView::Ended, reaction)
            } else {
                (UnitView::Running(next), reaction)
            }
        },
        _ => (unit, Reaction::Ignore),
    }
}

/// The units after `event` is delivered to unit `index`, and the reaction.
/// An index that names no unit changes nothing.
pub open spec fn deliver_to(
    units: Seq<UnitView>,
    targets: Seq<Target>,
    index: int,
    event: WatchEvent,
    verdict: Result<bool, PatternError>,
) -> (Seq<UnitView>, Reaction) {
    if 0 <= index < units.len() {
        let (unit, reaction) = delivered(units[index], targets[index], event, verdict);
        (units.update(index, unit), reaction)
    } else {
        (units, Reaction::Ignore)
    }
}

/// The number of units among `units` that have not ended.
pub open spec fn live_count(units: Seq<UnitView>) -> nat
    decreases units.len(),
{
    if units.len() == 0 {
        0
    } else if units.last() is Ended {
        live_count(units.drop_last())
    } else {
        live_count(units.drop_last()) + 1
    }
}

/// Units do not interfere: an event delivered to one unit leaves every
/// other unit as it was, and the reaction of another unit to whatever it is
/// sent afterwards is what it would have been without that event.
pub proof fn lemma_units_are_isolated(
    units: Seq<UnitView>,
    targets: Seq<Target>,
    a: int,
    event_a: WatchEvent,
    verdict_a: Result<bool, PatternError>,
    b: int,
    event_b: WatchEvent,
    verdict_b: Result<bool, PatternError>,
)
    requires
        units.len() == targets.len(),
        0 <= b < units.len(),
        a != b,
    ensures
        deliver_to(units, targets, a, event_a, verdict_a).0[b] == units[b],
        deliver_to(
            deliver_to(units, targets, a, event_a, verdict_a).0,
            targets,
            b,
            event_b,
            verdict_b,
        ).1 == deliver_to(units, targets, b, event_b, verdict_b).1,
        deliver_to(
            deliver_to(units, targets, a, event_a, verdict_a).0,
            targets,
            b,
            event_b,
            verdict_b,
        ).0[b] == deliver_to(units, targets, b, event_b, verdict_b).0[b],
{
}

/// A watch target and its monitoring unit.
#[derive(Debug)]
struct Slot {
    target: WatchTarget,
    unit: Unit,
}

/// One monitoring unit per watch target.
#[derive(Debug)]
pub struct WatchSupervisor {
    slots: Vec<Slot>,
    matcher: Matcher,
}

impl WatchSupervisor {
    /// The units, in the order of their targets.
    pub closed spec fn units(&self) -> Seq<UnitView> {
        Seq::new(self.slots@.len(), |i: int| self.slots@[i].unit@)
    }

    /// The targets, in the order given.
    pub closed spec fn targets(&self) -> Seq<Target> {
        Seq::new(self.slots@.len(), |i: int| self.slots@[i].target@)
    }

    /// The pattern test that every unit applies.
    pub closed spec fn matcher(&self) -> Matcher {
        self.matcher
    }

    /// A supervisor for `targets`, with one unit each, none of them opened.
    pub fn new(targets: Vec<WatchTarget>, matcher: Matcher) -> (out: Self)
        ensures
            out.targets() == Seq::new(targets@.len(), |i: int| targets@[i]@),
            out.units() == Seq::new(targets@.len(), |i: int| UnitView::Pending),
            out.matcher() == matcher,
    {
        let mut slots: Vec<Slot> = Vec::new();
        let mut i: usize = 0;
        while i < targets.len()
            invariant
                i <= targets.len(),
                slots@.len() == i,
                forall|k: int| 0 <= k < i ==> (#[trigger] slots@[k]).unit@ == UnitView::Pending,
                forall|k: int| 0 <= k < i ==> (#[trigger] slots@[k]).target@ == targets@[k]@,
            decreases targets.len() - i,
        {
            slots.push(Slot { target: targets[i].clone(), unit: Unit::Pending });
            i += 1;
        }
        let out = WatchSupervisor { slots, matcher };
        assert(out.units() =~= Seq::new(targets@.len(), |i: int| UnitView::Pending));
        assert(out.targets() =~= Seq::new(targets@.len(), |i: int| targets@[i]@));
        out
    }

    /// The number of units, which is the number of targets.
    pub fn len(&self) -> (n: usize)
        ensures
            n == self.units().len(),
            n == self.targets().len(),
    {
        self.slots.len()
    }

    /// The target of unit `index`.
    pub fn target(&self, index: usize) -> (out: Option<&WatchTarget>)
        ensures
            index < self.targets().len() ==> out.is_some() && out.unwrap()@ == self.targets()[
                index as int
            ],
            index >= self.targets().len() ==> out.is_none(),
    {
        if index < self.slots.len() {
            Some(&self.slots[index].target)
        } else {
            None
        }
    }

    /// The number of units that have not ended.
    pub fn live(&self) -> (n: usize)
        ensures
            n == live_count(self.units()),
    {
        let mut n: usize = 0;
        let mut i: usize = 0;
        while i < self.slots.len()
            invariant
                i <= self.slots@.len(),
                n <= i,
                n == live_count(self.units().take(i as int)),
            decreases self.slots.len() - i,
        {
            proof {
                let next = self.units().take(i + 1);
                assert(next.drop_last() =~= self.units().take(i as int));
                assert(next.last() == self.slots@[i as int].unit@);
            }
            match self.slots[i].unit {
                Unit::Ended => {},
                _ => {
                    n += 1;
                },
            }
            i += 1;
        }
        assert(self.units().take(i as int) =~= self.units());
        n
    }

    /// Tells unit `index` that its file was opened and has `size` bytes, or
    /// that it could not be opened.
    pub fn open(&mut self, index: usize, size: Option<u64>) -> (action: WatchAction)
        ensures
            final(self).targets() == old(self).targets(),
            final(self).matcher() == old(self).matcher(),
            index < old(self).units().len() ==> final(self).units() == old(self).units().update(
                index as int,
                opened(old(self).units()[index as int], old(self).matcher(), size).0,
            ) && action@ == opened(old(self).units()[index as int], old(self).matcher(), size).1,
            index >= old(self).units().len() ==> final(self).units() == old(self).units()
                && action@ == Reaction::Ignore,
    {
        if index >= self.slots.len() {
            return WatchAction::Ignore;
        }
        let (unit, action) = match (self.slots[index].unit, size) {
            (Unit::Pending, Some(size)) => {
                let mut handler = FileHandler::new(size, self.matcher);
                let action = handler.monitor(&self.slots[index].target, WatchEvent::Start);
                (Unit::Running(handler), action)
            },
            (Unit::Pending, None) => (
                Unit::Ended,
                WatchAction::Stop(StopReason::Failed(WatchError::Unopenable)),
            ),
            (unit, _) => (unit, WatchAction::Ignore),
        };
        self.slots[index].unit = unit;
        assert(self.units() =~= old(self).units().update(index as int, unit@));
        assert(self.targets() =~= old(self).targets());
        action
    }

    /// Hands `event` to unit `index` and returns what its driver is to do
    /// next. No other unit changes.
    pub fn deliver(&mut self, index: usize, event: WatchEvent) -> (action: WatchAction)
        ensures
            final(self).targets() == old(self).targets(),
            final(self).matcher() == old(self).matcher(),
            (final(self).units(), action@) == deliver_to(
                old(self).units(),
                old(self).targets(),
                index as int,
                event,
                old(self).shown(index as int, event, action@),
            ),
            old(self).tests(index as int, event) ==> old(self).unit_matcher(
                index as int,
            ).may_answer(
                old(self).targets()[index as int].pattern,
                chunk_of(event),
                old(self).shown(index as int, event, action@),
            ),
    {
        if index >= self.slots.len() {
            return WatchAction::Ignore;
        }
        match self.slots[index].unit {
            Unit::Running(mut handler) => {
                let action = handler.monitor(&self.slots[index].target, event);
                let unit = match handler.state() {
                    MonitorState::Stopped => Unit::Ended,
                    _ => Unit::Running(handler),
                };
                self.slots[index].unit = unit;
                assert(self.units() =~= old(self).units().update(index as int, unit@));
                assert(self.targets() =~= old(self).targets());
                action
            },
            _ => {
                assert(self.units() =~= old(self).units().update(
                    index as int,
                    old(self).units()[index as int],
                ));
                WatchAction::Ignore
            },
        }
    }

    /// Whether `event`, delivered to unit `index`, has its chunk tested
    /// against the pattern: the unit is draining, the event is a read, and
    /// the read is neither empty nor too long for the cursor.
    pub open spec fn tests(&self, index: int, event: WatchEvent) -> bool {
        &&& 0 <= index < self.units().len()
        &&& self.units()[index] matches UnitView::Running(m)
        &&& m.state == MonitorState::Draining
        &&& event is Read
        &&& is_tested(m.pos, byte_len(chunk_of(event)))
    }

    /// The answer of the pattern test that the reaction of unit `index` to
    /// `event` shows.
    pub open spec fn shown(&self, index: int, event: WatchEvent, reaction: Reaction) -> Result<
        bool,
        PatternError,
    > {
        reaction_verdict(
            reaction,
            self.unit_matcher(index),
            self.targets()[index].pattern,
            chunk_of(event),
        )
    }

    /// The pattern test of unit `index`: that of its monitor while it runs,
    /// that of the supervisor otherwise.
    pub open spec fn unit_matcher(&self, index: int) -> Matcher {
        match self.units()[index] {
            UnitView::Running(m) => m.matcher,
            _ => self.matcher(),
        }
    }
}

} // verus!
