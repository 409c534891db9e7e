//! The contract between the reload orchestrator and a loadable artifact.
//!
//! Every loadable artifact exports one fixed table of lifecycle entry points
//! (`size`, `init`, `reload`, `update`, `unload`, `deinit`).  The
//! [`ReloadApi`] trait is that table: the orchestrator drives an artifact
//! only through it, and an artifact author implements it by wrapping typed
//! callback functions, as the [`crate::demo`] module shows.  A [`Loader`]
//! turns a filesystem path into a fresh table; the program's real loader
//! opens the platform's dynamic-library primitive and resolves the table's
//! exported symbol.
//!
//! The table is stateless (`&self` everywhere): all mutable application state
//! must live in the externally owned state buffer and host value, since the
//! artifact's own code is discarded on unload.

use vstd::prelude::*;

use crate::buffer::StateBuffer;

verus! {

/// Verdict returned by an artifact's `update` entry: should the main program
/// quit?  More self-documenting than a boolean.
#[derive(Debug, PartialEq, Eq, Structural, Clone, Copy)]
pub enum ShouldQuit {
    /// The artifact thinks the main program should continue running.
    No,
    /// The artifact thinks the main program should quit now.
    Yes,
}

/// One lifecycle entry point invocation, as recorded in the orchestrator's
/// ghost call history.
pub enum LifecycleCall {
    /// `init` ran: first successful load only.
    Init,
    /// `reload` ran on a freshly loaded table.
    Reload,
    /// `update` ran on the currently loaded table.
    Update,
    /// `unload` ran on the outgoing table.
    Unload,
    /// `deinit` ran at teardown.
    Deinit,
}

/// `init` is the first call ever made, and is never made again.
pub open spec fn init_first(log: Seq<LifecycleCall>) -> bool {
    &&& (log.len() > 0 ==> log[0] is Init)
    &&& (forall|i: int| 1 <= i < log.len() ==> !((#[trigger] log[i]) is Init))
}

/// `unload` on an outgoing table is immediately followed by `reload` on the
/// incoming one, unless the new load failed and nothing further ran.
pub open spec fn unload_paired(log: Seq<LifecycleCall>) -> bool {
    forall|i: int, j: int|
        #![trigger log[i], log[j]]
        0 <= i && j == i + 1 && j < log.len() && log[i] is Unload ==> log[j] is Reload
}

/// Every `reload` of an incoming table comes immediately after the `unload`
/// of the outgoing one (or after the dangling `unload` of an earlier failed
/// reload).  Nothing else ever directly precedes a `reload`: the very first
/// load of an orchestrator's lifetime runs `init`, never `reload`.
pub open spec fn reload_preceded(log: Seq<LifecycleCall>) -> bool {
    forall|i: int, j: int|
        #![trigger log[i], log[j]]
        0 <= i && j == i + 1 && j < log.len() && log[j] is Reload ==> log[i] is Unload
}

/// `deinit` happens at most once, as the very last call.
pub open spec fn deinit_terminal(log: Seq<LifecycleCall>) -> bool {
    forall|i: int| 0 <= i < log.len() && (#[trigger] log[i]) is Deinit ==> i == log.len() - 1
}

/// Well-formedness of the call history of a live orchestrator: `init` came
/// first and only once, every `unload` is fenced by the following `reload`,
/// and teardown has not happened yet.
pub open spec fn live_log_wf(log: Seq<LifecycleCall>) -> bool {
    &&& log.len() > 0
    &&& init_first(log)
    &&& unload_paired(log)
    &&& reload_preceded(log)
    &&& forall|i: int| 0 <= i < log.len() ==> !((#[trigger] log[i]) is Deinit)
}

/// Well-formedness of the call history of a torn-down orchestrator: as for a
/// live one, except that one final `deinit` may close the history.
pub open spec fn retired_log_wf(log: Seq<LifecycleCall>) -> bool {
    &&& log.len() > 0
    &&& init_first(log)
    &&& unload_paired(log)
    &&& reload_preceded(log)
    &&& deinit_terminal(log)
}

/// Appending a call other than a second `init` keeps `init` first and only.
pub proof fn lemma_push_init_first(log: Seq<LifecycleCall>, c: LifecycleCall)
    requires
        log.len() > 0,
        init_first(log),
        !(c is Init),
    ensures
        init_first(log.push(c)),
{
    let l2 = log.push(c);
    assert(l2[0] == log[0]);
    assert forall|i: int| 1 <= i < l2.len() implies !((#[trigger] l2[i]) is Init) by {
        if i < log.len() {
            assert(l2[i] == log[i]);
        } else {
            assert(l2[i] == c);
        }
    }
}

/// Appending a call keeps every `unload` fenced by the following `reload`,
/// provided a dangling `unload` is only ever followed by `reload`.
pub proof fn lemma_push_unload_paired(log: Seq<LifecycleCall>, c: LifecycleCall)
    requires
        log.len() > 0,
        unload_paired(log),
        c is Reload || !(log.last() is Unload),
    ensures
        unload_paired(log.push(c)),
{
    let l2 = log.push(c);
    assert forall|i: int, j: int|
        #![trigger l2[i], l2[j]]
        0 <= i && j == i + 1 && j < l2.len() && l2[i] is Unload implies l2[j] is Reload by {
        if j < log.len() {
            assert(l2[i] == log[i] && l2[j] == log[j]);
        } else {
            assert(l2[i] == log.last() && l2[j] == c);
        }
    }
}

/// Appending a call keeps every `reload` right after its `unload`, provided
/// an appended `reload` comes right after a dangling `unload`.
pub proof fn lemma_push_reload_preceded(log: Seq<LifecycleCall>, c: LifecycleCall)
    requires
        log.len() > 0,
        reload_preceded(log),
        c is Reload ==> log.last() is Unload,
    ensures
        reload_preceded(log.push(c)),
{
    let l2 = log.push(c);
    assert forall|i: int, j: int|
        #![trigger l2[i], l2[j]]
        0 <= i && j == i + 1 && j < l2.len() && l2[j] is Reload implies l2[i] is Unload by {
        if j < log.len() {
            assert(l2[i] == log[i] && l2[j] == log[j]);
        } else {
            assert(l2[i] == log.last() && l2[j] == c);
        }
    }
}

/// Appending a call other than `deinit` keeps the history free of `deinit`.
pub proof fn lemma_push_no_deinit(log: Seq<LifecycleCall>, c: LifecycleCall)
    requires
        forall|i: int| 0 <= i < log.len() ==> !((#[trigger] log[i]) is Deinit),
        !(c is Deinit),
    ensures
        forall|i: int| 0 <= i < log.push(c).len() ==> !((#[trigger] log.push(c)[i]) is Deinit),
{
    let l2 = log.push(c);
    assert forall|i: int| 0 <= i < l2.len() implies !((#[trigger] l2[i]) is Deinit) by {
        if i < log.len() {
            assert(l2[i] == log[i]);
        } else {
            assert(l2[i] == c);
        }
    }
}

/// Closing a live history with the one `deinit` of the object's lifetime
/// yields a well-formed final history.
pub proof fn lemma_log_close(log: Seq<LifecycleCall>)
    requires
        live_log_wf(log),
        !(log.last() is Unload),
    ensures
        retired_log_wf(log.push(LifecycleCall::Deinit)),
{
    let l2 = log.push(LifecycleCall::Deinit);
    assert(l2[0] == log[0]);
    assert forall|i: int| 1 <= i < l2.len() implies !((#[trigger] l2[i]) is Init) by {
        if i < log.len() {
            assert(l2[i] == log[i]);
        }
    }
    assert forall|i: int, j: int|
        #![trigger l2[i], l2[j]]
        0 <= i && j == i + 1 && j < l2.len() && l2[i] is Unload implies l2[j] is Reload by {
        if j < log.len() {
            assert(l2[i] == log[i] && l2[j] == log[j]);
        } else {
            assert(l2[i] == log.last());
        }
    }
    lemma_push_reload_preceded(log, LifecycleCall::Deinit);
    assert forall|i: int| 0 <= i < l2.len() && (#[trigger] l2[i]) is Deinit implies i == l2.len()
        - 1 by {
        if i < log.len() {
            assert(l2[i] == log[i]);
        }
    }
}

/// A live history never contains `deinit`, so it is also well formed as a
/// final history when teardown finds nothing loaded and makes no call.
pub proof fn lemma_log_retire_unloaded(log: Seq<LifecycleCall>)
    requires
        live_log_wf(log),
    ensures
        retired_log_wf(log),
{
}

/// The fixed table of lifecycle entry points exported by every loadable
/// artifact.
///
/// The orchestrator guarantees each entry point a state buffer at least
/// `size_spec()` bytes long, and each entry point leaves the buffer length
/// unchanged: the buffer region belongs to the orchestrator, the artifact
/// only reinterprets its contents.  `Host` is the host-capability value
/// passed by mutable reference into every call and never retained by the
/// artifact past a single call.
pub trait ReloadApi<Host>: Sized {
    /// The byte size this artifact requires of the state buffer.
    spec fn size_spec(&self) -> usize;

    /// Report the required buffer size, so that the host can allocate space
    /// for it.  A real artifact reports the size of a Rust type, which is
    /// far below the machine's address-space limit.
    fn size(&self) -> (n: usize)
        ensures
            n == self.size_spec(),
            n <= usize::MAX - 7,
    ;

    /// Initialize the state when the program is first started.
    fn init(&self, host: &mut Host, state: &mut StateBuffer)
        requires
            self.size_spec() <= old(state)@.len(),
        ensures
            final(state)@.len() == old(state)@.len(),
    ;

    /// Make any necessary migrations right after this artifact was loaded in
    /// place of a previous one; the buffer holds whatever the previous
    /// artifact left behind.
    fn reload(&self, host: &mut Host, state: &mut StateBuffer)
        requires
            self.size_spec() <= old(state)@.len(),
        ensures
            final(state)@.len() == old(state)@.len(),
    ;

    /// Run one step of application logic, at the host's cadence.
    fn update(&self, host: &mut Host, state: &mut StateBuffer) -> (r: ShouldQuit)
        requires
            self.size_spec() <= old(state)@.len(),
        ensures
            final(state)@.len() == old(state)@.len(),
    ;

    /// Prepare for this artifact to be unloaded before a new version loads.
    fn unload(&self, host: &mut Host, state: &mut StateBuffer)
        requires
            self.size_spec() <= old(state)@.len(),
        ensures
            final(state)@.len() == old(state)@.len(),
    ;

    /// Do final shutdowns before the program completely quits.
    fn deinit(&self, host: &mut Host, state: &mut StateBuffer)
        requires
            self.size_spec() <= old(state)@.len(),
        ensures
            final(state)@.len() == old(state)@.len(),
    ;
}

/// Opens a loadable artifact at a filesystem path and yields its lifecycle
/// table.  The program's real loader wraps the platform's dynamic-loading
/// primitive; whether a given path opens successfully depends on the file on
/// disk, so nothing is promised about the outcome.
pub trait Loader<Host>: Sized {
    /// The lifecycle table this loader produces.
    type Api: ReloadApi<Host>;

    /// Open the artifact at `path` and resolve its lifecycle table.
    fn open(&mut self, path: &String) -> (r: Result<Self::Api, Error>);
}

/// The errors that can occur while working with a reloadable library.
#[derive(Debug)]
pub enum Error {
    /// An I/O error occurred while trying to load or reload the artifact:
    /// the file is missing, unreadable, not a loadable library, or lacks the
    /// expected exported table.
    Io(std::io::Error),
    /// An error occurred while creating the filesystem watcher.
    Watch(notify::Error),
    /// The `Host` types of the host and the artifact don't match.  Declared
    /// for artifacts that check a layout signature at load time; the engine
    /// itself never detects this condition.
    MismatchedHost,
}

impl Error {
    /// A short description of the error kind.
    pub fn description(&self) -> (s: String)
        ensures
            self is Io ==> s@ == "i/o error while loading the library"@,
            self is Watch ==> s@ == "failed to create the filesystem watcher"@,
            self is MismatchedHost ==> s@ == "mismatch between host and library's Host types"@,
    {
        match self {
            Error::Io(_) => "i/o error while loading the library".to_owned(),
            Error::Watch(_) => "failed to create the filesystem watcher".to_owned(),
            Error::MismatchedHost => "mismatch between host and library's Host types".to_owned(),
        }
    }
}

} // verus!
