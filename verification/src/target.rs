//! What is watched, what a match looks like, and how a dispatch ended.

use vstd::prelude::*;

verus! {

/// One thing to monitor: the file to tail, the pattern to look for in what
/// is appended to it, and the identity under which a match is notified.
#[derive(Debug, PartialEq, Eq)]
pub struct WatchTarget {
    /// Path of the file.
    pub path: String,
    /// The pattern that newly appended text is tested against.
    pub pattern: String,
    /// Name of the event that a match fires.
    pub event_name: String,
    /// Query-string fragment sent along with the event, possibly empty.
    pub options: String,
}

/// The mathematical content of a `WatchTarget`.
pub struct Target {
    pub path: Seq<char>,
    pub pattern: Seq<char>,
    pub event_name: Seq<char>,
    pub options: Seq<char>,
}

impl View for WatchTarget {
    type V = Target;

    open spec fn view(&self) -> Target {
        Target {
            path: self.path@,
            pattern: self.pattern@,
            event_name: self.event_name@,
            options: self.options@,
        }
    }
}

impl Clone for WatchTarget {
    fn clone(&self) -> (out: Self)
        ensures
            out == *self,
    {
        WatchTarget {
            path: self.path.clone(),
            pattern: self.pattern.clone(),
            event_name: self.event_name.clone(),
            options: self.options.clone(),
        }
    }
}

/// A match: the target whose pattern was satisfied, the newly appended text
/// that satisfied it, without surrounding white space, and when it was read.
#[derive(Debug, PartialEq, Eq)]
pub struct MatchEvent {
    pub target: WatchTarget,
    pub matched_text: String,
    /// Time of the read, as the driver's clock gave it.
    pub timestamp: u64,
}

/// The mathematical content of a `MatchEvent`.
pub struct Match {
    pub target: Target,
    pub text: Seq<char>,
    pub at: u64,
}

impl View for MatchEvent {
    type V = Match;

    open spec fn view(&self) -> Match {
        Match { target: self.target@, text: self.matched_text@, at: self.timestamp }
    }
}

/// How a dispatch ended. It is logged and discarded: a failed dispatch is
/// neither retried nor fatal.
#[derive(Debug, PartialEq, Eq)]
pub struct NotificationOutcome {
    pub success: bool,
    pub detail: String,
}

} // verus!
