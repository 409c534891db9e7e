//! Filesystem events and the reload decision.
//!
//! The watch monitor delivers raw events for the artifact's parent directory.
//! A reload is triggered only for create/write events whose path equals the
//! canonical artifact path, not merely because something changed somewhere in
//! the directory.

use vstd::prelude::*;

verus! {

/// One filesystem event observed in the artifact's parent directory.  The
/// path carried by a create or write event is the textual form of the path
/// the event was reported for.
#[derive(Debug, Clone)]
pub enum WatchEvent {
    /// A file or directory was created at the carried path.
    Create(String),
    /// A file was written at the carried path (including the early notice
    /// that a write began).
    Write(String),
    /// Anything else that happened in the watched directory.
    Other,
}

/// Does this event call for a reload of the artifact at `path`?  Only a
/// create or write of the artifact file itself does.
pub open spec fn event_matches(e: WatchEvent, path: Seq<char>) -> bool {
    match e {
        WatchEvent::Create(p) => p@ == path,
        WatchEvent::Write(p) => p@ == path,
        WatchEvent::Other => false,
    }
}

/// Does any pending event call for a reload of the artifact at `path`?
pub open spec fn any_match(events: Seq<WatchEvent>, path: Seq<char>) -> bool {
    exists|i: int| 0 <= i < events.len() && event_matches(#[trigger] events[i], path)
}

/// Decide whether the pending events demand a reload of the artifact at the
/// canonical path `path`.
pub fn should_reload(events: &Vec<WatchEvent>, path: &String) -> (r: bool)
    ensures
        r == any_match(events@, path@),
{
    let n = events.len();
    let mut i: usize = 0;
    while i < n
        invariant
            i <= n == events@.len(),
            forall|j: int| 0 <= j < i ==> !event_matches(#[trigger] events@[j], path@),
        decreases n - i,
    {
        let hit = match &events[i] {
            WatchEvent::Create(p) => *p == *path,
            WatchEvent::Write(p) => *p == *path,
            WatchEvent::Other => false,
        };
        proof {
            assert(hit == event_matches(events@[i as int], path@));
        }
        if hit {
            return true;
        }
        i = i + 1;
    }
    false
}

} // verus!
