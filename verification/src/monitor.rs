//! The watch monitor: a background filesystem-event source for one directory.
//!
//! Wraps the platform watcher of the `notify` crate in debounced mode: rapid
//! successive events from a build step are collapsed into one notification
//! delivered after a fixed interval (one second) through a non-blocking
//! channel.  The monitor watches the artifact's parent directory, not the
//! file itself, because some build tools delete and recreate the file, which
//! would invalidate a direct file watch.

use vstd::prelude::*;
use vstd::string::StrSliceExecFns;

use notify::DebouncedEvent;
use notify::RecommendedWatcher;
use std::sync::mpsc::Receiver;
use std::sync::mpsc::Sender;

use crate::api::Error;
use crate::events::WatchEvent;

verus! {

/// Debounce interval for the filesystem watcher, in seconds.
pub const DEBOUNCE_SECS: u64 = 1;

/// How many pending events one drain reads at most.  Bounds the work of a
/// single poll; a burst longer than this is picked up by the next poll.
pub const MAX_DRAIN: usize = 4096;

#[verifier::external_type_specification]
#[verifier::external_body]
#[verifier::reject_recursive_types(T)]
/// The sending half of a standard mpsc channel, held by the watcher's
/// background worker.
pub struct ExSender<T>(Sender<T>);

#[verifier::external_type_specification]
#[verifier::external_body]
#[verifier::reject_recursive_types(T)]
/// The receiving half of a standard mpsc channel.
pub struct ExReceiver<T>(Receiver<T>);

#[verifier::external_type_specification]
#[verifier::external_body]
/// A debounced filesystem event of the `notify` crate.
pub struct ExDebouncedEvent(DebouncedEvent);

#[verifier::external_type_specification]
#[verifier::external_body]
/// The platform filesystem watcher of the `notify` crate.
pub struct ExRecommendedWatcher(RecommendedWatcher);

/// Relies on `std::sync::mpsc::channel`: returns a connected sender/receiver
/// pair.
#[verifier::external_body]
fn make_channel() -> (Sender<DebouncedEvent>, Receiver<DebouncedEvent>) {
    std::sync::mpsc::channel()
}

/// Relies on `notify::watcher`: creates the platform's recommended watcher in
/// debounced mode, delivering events to `tx` after `delay_secs` seconds of
/// quiet.  Whether creation succeeds depends on the platform, so nothing is
/// promised of the outcome.
#[verifier::external_body]
fn make_watcher(
    tx: Sender<DebouncedEvent>,
    delay_secs: u64,
) -> Result<RecommendedWatcher, notify::Error> {
    notify::watcher(tx, core::time::Duration::from_secs(delay_secs))
}

/// Relies on `notify::Watcher::watch`: begins watching `dir`, without
/// descending into subdirectories.  Fails if the directory cannot be
/// observed (for example, it does not exist).
#[verifier::external_body]
fn watch_dir(w: &mut RecommendedWatcher, dir: &str) -> Result<(), notify::Error> {
    notify::Watcher::watch(w, std::path::Path::new(dir), notify::RecursiveMode::NonRecursive)
}

/// Relies on `std::sync::mpsc::Receiver::try_recv`: takes one pending event
/// off the channel without blocking, or returns nothing when the channel is
/// empty.  What arrives depends on filesystem activity, so nothing is
/// promised of the outcome.
#[verifier::external_body]
fn poll_event(rx: &Receiver<DebouncedEvent>) -> Option<WatchEvent> {
    match rx.try_recv() {
        Ok(DebouncedEvent::NoticeWrite(p)) | Ok(DebouncedEvent::Write(p)) => Some(
            WatchEvent::Write(p.to_string_lossy().into_owned()),
        ),
        Ok(DebouncedEvent::Create(p)) => Some(WatchEvent::Create(p.to_string_lossy().into_owned())),
        Ok(_) => Some(WatchEvent::Other),
        Err(_) => None,
    }
}

/// The directory part of a path: everything before the last separator, or
/// the empty sequence when the path has no separator at all.
pub open spec fn parent_of(s: Seq<char>) -> Seq<char>
    decreases s.len(),
{
    if s.len() == 0 {
        s
    } else if s.last() == '/' {
        s.drop_last()
    } else {
        parent_of(s.drop_last())
    }
}

/// The directory that holds the file at `path`: the monitor watches this,
/// not the file itself.
pub fn parent_dir(path: &String) -> (d: String)
    ensures
        d@ == parent_of(path@),
{
    let s = path.as_str();
    let n = s.unicode_len();
    proof {
        assert(s@.subrange(0, n as int) =~= s@);
    }
    let mut j = n;
    while j > 0
        invariant
            s@ == path@,
            j <= n == s@.len(),
            parent_of(s@) == parent_of(s@.subrange(0, j as int)),
        decreases j,
    {
        let c = s.get_char(j - 1);
        if c == '/' {
            proof {
                let pre = s@.subrange(0, j as int);
                assert(pre.last() == s@[j - 1]);
                assert(pre.drop_last() =~= s@.subrange(0, j - 1));
                assert(parent_of(pre) == pre.drop_last());
                assert(s@.subrange(0, j - 1) == parent_of(path@));
            }
            return s.substring_char(0, j - 1).to_owned();
        }
        proof {
            let pre = s@.subrange(0, j as int);
            assert(pre.last() == s@[j - 1]);
            assert(pre.drop_last() =~= s@.subrange(0, j - 1));
        }
        j = j - 1;
    }
    proof {
        assert(s@.subrange(0, 0) =~= Seq::<char>::empty());
    }
    String::new()
}

/// A running watch on one directory: the platform watcher (whose background
/// worker feeds the channel) and the receiving end of that channel.
pub struct WatchMonitor {
    watcher: RecommendedWatcher,
    rx: Receiver<DebouncedEvent>,
}

impl WatchMonitor {
    /// Start watching `dir`.  Fails with a watch-setup error if the watcher
    /// cannot be created or the directory cannot be observed.
    pub fn new(dir: &String) -> (r: Result<WatchMonitor, Error>)
        ensures
            r matches Err(e) ==> e is Watch,
    {
        let (tx, rx) = make_channel();
        let mut watcher = match make_watcher(tx, DEBOUNCE_SECS) {
            Ok(w) => w,
            Err(e) => {
                return Err(Error::Watch(e));
            },
        };
        match watch_dir(&mut watcher, dir.as_str()) {
            Ok(()) => {},
            Err(e) => {
                return Err(Error::Watch(e));
            },
        }
        Ok(WatchMonitor { watcher, rx })
    }

    /// Take every currently pending event off the channel, in the order the
    /// background worker enqueued them (at most [`MAX_DRAIN`] at once, so
    /// that one poll does a bounded amount of work).
    pub fn drain(&self) -> (events: Vec<WatchEvent>) {
        let mut events: Vec<WatchEvent> = Vec::new();
        let mut i: usize = 0;
        while i < MAX_DRAIN
            decreases MAX_DRAIN - i,
        {
            match poll_event(&self.rx) {
                Some(e) => events.push(e),
                None => {
                    return events;
                },
            }
            i = i + 1;
        }
        events
    }
}

} // verus!
