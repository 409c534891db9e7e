//! The reload orchestrator: owns the loaded artifact, the state buffer and
//! the watch monitor, and sequences the lifecycle entry points.
//!
//! The six entry points are always invoked in this relative order over an
//! orchestrator's lifetime: `init` (once, first) — then `update` at the
//! caller's cadence, interleaved with reload cycles of `unload` on the
//! outgoing table immediately followed by `reload` on the incoming one — and
//! finally `deinit` (once, at teardown, only if something is still loaded).
//! The ghost call history records every invocation, and the public proof
//! functions at the bottom state these ordering laws.

use vstd::prelude::*;

use crate::api::lemma_log_close;
use crate::api::lemma_log_retire_unloaded;
use crate::api::lemma_push_init_first;
use crate::api::lemma_push_no_deinit;
use crate::api::lemma_push_reload_preceded;
use crate::api::lemma_push_unload_paired;
use crate::api::live_log_wf;
use crate::api::retired_log_wf;
use crate::api::Error;
use crate::api::LifecycleCall;
use crate::api::Loader;
use crate::api::ReloadApi;
use crate::api::ShouldQuit;
use crate::buffer::StateBuffer;
use crate::events::any_match;
use crate::events::should_reload;
use crate::events::WatchEvent;
use crate::monitor::parent_dir;
use crate::monitor::WatchMonitor;

verus! {

/// A handle to an artifact that can be live reloaded: the currently loaded
/// lifecycle table (if any), the opaque state buffer that outlives every
/// load, the watch on the artifact's parent directory, and the owned
/// host-capability value passed into every lifecycle call.
pub struct Reloadable<Host, L: Loader<Host>> {
    path: String,
    sym: Option<L::Api>,
    state: StateBuffer,
    monitor: WatchMonitor,
    host: Host,
    loader: L,
    calls: Ghost<Seq<LifecycleCall>>,
}

impl<Host, L: Loader<Host>> Reloadable<Host, L> {
    /// The canonical path of the artifact, fixed at construction.
    pub closed spec fn spec_path(&self) -> Seq<char> {
        self.path@
    }

    /// Is an artifact currently loaded?  (`false` only after a failed
    /// reload, until a later reload succeeds.)
    pub closed spec fn loaded(&self) -> bool {
        self.sym is Some
    }

    /// Every lifecycle call made so far, oldest first.
    pub closed spec fn log(&self) -> Seq<LifecycleCall> {
        self.calls@
    }

    /// The bytes of the state buffer.
    pub closed spec fn buffer(&self) -> Seq<u8> {
        self.state@
    }

    /// The owned host-capability value.
    pub closed spec fn spec_host(&self) -> Host {
        self.host
    }

    /// Validity of a live orchestrator: the call history is well formed and
    /// still open; exactly when nothing is loaded, the history ends in the
    /// `unload` of the failed reload that unloaded it; and the buffer is
    /// word-aligned and large enough for the loaded artifact.
    pub closed spec fn wf(&self) -> bool {
        &&& live_log_wf(self.calls@)
        &&& (self.sym is Some <==> !(self.calls@.last() is Unload))
        &&& self.state.wf()
        &&& (self.sym matches Some(api) ==> api.size_spec() <= self.state@.len())
    }

    /// What a reload cycle guarantees, relating the orchestrator before
    /// (`pre`) and after (`post`) and whether the new load succeeded (`ok`):
    /// the outgoing table's `unload` ran first if something was loaded; on
    /// success the incoming table's `reload` ran immediately after and the
    /// new table is installed; on failure nothing is loaded and no further
    /// call was made, the buffer kept as the outgoing `unload` left it.
    pub open spec fn reload_now_post(pre: Self, post: Self, ok: bool) -> bool {
        &&& post.wf()
        &&& post.spec_path() == pre.spec_path()
        &&& (ok <==> post.loaded())
        &&& (pre.loaded() && ok ==> post.log() == pre.log() + seq![
            LifecycleCall::Unload,
            LifecycleCall::Reload,
        ])
        &&& (pre.loaded() && !ok ==> post.log() == pre.log().push(LifecycleCall::Unload))
        &&& (!pre.loaded() && ok ==> post.log() == pre.log().push(LifecycleCall::Reload))
        &&& (!pre.loaded() && !ok ==> post.log() == pre.log() && post.buffer() == pre.buffer()
            && post.spec_host() == pre.spec_host())
    }

    /// Create a new reloadable library.
    ///
    /// `path` is the canonical (symlink-resolved, absolute) path of the
    /// artifact; all later change notifications are compared against it.
    /// Opens the artifact, sizes the state buffer to the artifact's declared
    /// size, starts watching the artifact's parent directory, and calls
    /// `init` — the one `init` of the object's lifetime.  On any failure no
    /// orchestrator exists and no lifecycle call has been made.
    pub fn new(path: String, host: Host, loader: L) -> (r: Result<Self, Error>)
        ensures
            r matches Ok(app) ==> {
                &&& app.wf()
                &&& app.loaded()
                &&& app.spec_path() == path@
                &&& app.log() == seq![LifecycleCall::Init]
            },
    {
        let mut loader = loader;
        let mut host = host;
        let sym = match loader.open(&path) {
            Ok(s) => s,
            Err(e) => {
                return Err(e);
            },
        };
        let size = sym.size();
        let dir = parent_dir(&path);
        let monitor = match WatchMonitor::new(&dir) {
            Ok(m) => m,
            Err(e) => {
                return Err(e);
            },
        };
        let mut state = StateBuffer::new();
        state.size_hint(size);
        sym.init(&mut host, &mut state);
        let ghost log = seq![LifecycleCall::Init];
        let app = Reloadable {
            path,
            sym: Some(sym),
            state,
            monitor,
            host,
            loader,
            calls: Ghost(log),
        };
        proof {
            assert(log.last() == LifecycleCall::Init);
            assert(log[0] == LifecycleCall::Init);
            assert(live_log_wf(log));
            assert(app.wf());
        }
        Ok(app)
    }

    /// Call the `update` entry of the loaded artifact and return its
    /// verdict.  If nothing is currently loaded (after a failed reload),
    /// this changes nothing and returns [`ShouldQuit::No`] — a silent no-op
    /// the caller cannot distinguish from "the artifact chose not to quit".
    pub fn update(&mut self) -> (r: ShouldQuit)
        requires
            old(self).wf(),
        ensures
            final(self).wf(),
            final(self).spec_path() == old(self).spec_path(),
            final(self).loaded() == old(self).loaded(),
            old(self).loaded() ==> {
                &&& final(self).log() == old(self).log().push(LifecycleCall::Update)
                &&& final(self).buffer().len() == old(self).buffer().len()
            },
            !old(self).loaded() ==> *final(self) == *old(self) && r == ShouldQuit::No,
    {
        match &self.sym {
            Some(api) => {
                let r = api.update(&mut self.host, &mut self.state);
                proof {
                    lemma_push_init_first(self.calls@, LifecycleCall::Update);
                    lemma_push_unload_paired(self.calls@, LifecycleCall::Update);
                    lemma_push_reload_preceded(self.calls@, LifecycleCall::Update);
                    lemma_push_no_deinit(self.calls@, LifecycleCall::Update);
                }
                self.calls = Ghost(self.calls@.push(LifecycleCall::Update));
                r
            },
            None => ShouldQuit::No,
        }
    }

    /// Reload the artifact if a pending filesystem event shows it changed;
    /// otherwise do nothing.  Drains the watch monitor and performs a reload
    /// cycle exactly when some pending create/write event carries the
    /// canonical artifact path.
    pub fn reload(&mut self) -> (r: Result<(), Error>)
        requires
            old(self).wf(),
        ensures
            final(self).wf(),
            (r is Ok && *final(self) == *old(self)) || Self::reload_now_post(
                *old(self),
                *final(self),
                r is Ok,
            ),
    {
        let events = self.monitor.drain();
        self.reload_with_events(&events)
    }

    /// The reload decision applied to one explicit batch of events: reload
    /// exactly when some event in `events` carries the canonical artifact
    /// path.  [`Self::reload`] feeds this with whatever the watch monitor
    /// has pending; when no event matches, nothing at all happens and the
    /// call reports success.
    pub fn reload_with_events(&mut self, events: &Vec<WatchEvent>) -> (r: Result<(), Error>)
        requires
            old(self).wf(),
        ensures
            final(self).wf(),
            any_match(events@, old(self).spec_path()) ==> Self::reload_now_post(
                *old(self),
                *final(self),
                r is Ok,
            ),
            !any_match(events@, old(self).spec_path()) ==> r is Ok && *final(self) == *old(self),
    {
        if should_reload(events, &self.path) {
            self.reload_now()
        } else {
            Ok(())
        }
    }

    /// Immediately perform a reload cycle, without checking whether the
    /// artifact changed.
    ///
    /// Calls `unload` on the loaded table, drops it (from here on nothing is
    /// loaded), and opens the artifact anew.  On failure the error is
    /// returned and the orchestrator is left with nothing loaded — the old
    /// table's `unload` has already run and will not run again; the buffer
    /// stays as `unload` left it.  On success the buffer is resized to the
    /// new table's declared size (preserving bytes up to the smaller of the
    /// old and new size, zero-filling growth), the new table's `reload` runs,
    /// and the new table is installed.
    pub fn reload_now(&mut self) -> (r: Result<(), Error>)
        requires
            old(self).wf(),
        ensures
            Self::reload_now_post(*old(self), *final(self), r is Ok),
    {
        match &self.sym {
            Some(api) => {
                api.unload(&mut self.host, &mut self.state);
                proof {
                    lemma_push_init_first(self.calls@, LifecycleCall::Unload);
                    lemma_push_unload_paired(self.calls@, LifecycleCall::Unload);
                    lemma_push_reload_preceded(self.calls@, LifecycleCall::Unload);
                    lemma_push_no_deinit(self.calls@, LifecycleCall::Unload);
                }
                self.calls = Ghost(self.calls@.push(LifecycleCall::Unload));
            },
            None => {},
        }
        self.sym = None;
        let sym = match self.loader.open(&self.path) {
            Ok(s) => s,
            Err(e) => {
                proof {
                    if old(self).loaded() {
                        assert(self.calls@ == old(self).log().push(LifecycleCall::Unload));
                    }
                }
                return Err(e);
            },
        };
        let size = sym.size();
        self.state.size_hint(size);
        sym.reload(&mut self.host, &mut self.state);
        proof {
            lemma_push_init_first(self.calls@, LifecycleCall::Reload);
            lemma_push_unload_paired(self.calls@, LifecycleCall::Reload);
            lemma_push_reload_preceded(self.calls@, LifecycleCall::Reload);
            lemma_push_no_deinit(self.calls@, LifecycleCall::Reload);
        }
        self.calls = Ghost(self.calls@.push(LifecycleCall::Reload));
        self.sym = Some(sym);
        proof {
            if old(self).loaded() {
                assert(self.calls@ =~= old(self).log() + seq![
                    LifecycleCall::Unload,
                    LifecycleCall::Reload,
                ]);
            }
        }
        Ok(())
    }

    /// Does the orchestrator currently hold a loaded artifact?
    pub fn is_loaded(&self) -> (r: bool)
        ensures
            r == self.loaded(),
    {
        self.sym.is_some()
    }

    /// Read access to the owned host-capability value.
    pub fn host(&self) -> (h: &Host)
        ensures
            *h == self.spec_host(),
    {
        &self.host
    }

    /// Write access to the owned host-capability value, for the surrounding
    /// program to mutate between ticks.
    pub fn host_mut(&mut self) -> (h: &mut Host)
        ensures
            *h == old(self).spec_host(),
            final(self).spec_host() == *final(h),
            final(self).spec_path() == old(self).spec_path(),
            final(self).log() == old(self).log(),
            final(self).loaded() == old(self).loaded(),
            final(self).buffer() == old(self).buffer(),
            final(self).wf() == old(self).wf(),
    {
        &mut self.host
    }

    /// Tear the orchestrator down: if an artifact is still loaded, call its
    /// `deinit` entry — the one `deinit` of the object's lifetime — and
    /// return the host value together with the final call history.  When
    /// nothing is loaded (a reload failed and was never retried), no call is
    /// made: such a lifetime never runs `deinit`.
    pub fn shutdown(self) -> (r: (Host, Ghost<Seq<LifecycleCall>>))
        requires
            self.wf(),
        ensures
            retired_log_wf(r.1@),
            self.loaded() ==> r.1@ == self.log().push(LifecycleCall::Deinit),
            !self.loaded() ==> r.1@ == self.log() && r.0 == self.spec_host(),
    {
        let Reloadable { sym, mut state, mut host, calls, .. } = self;
        match sym {
            Some(api) => {
                api.deinit(&mut host, &mut state);
                proof {
                    lemma_log_close(calls@);
                }
                (host, Ghost(calls@.push(LifecycleCall::Deinit)))
            },
            None => {
                proof {
                    lemma_log_retire_unloaded(calls@);
                }
                (host, calls)
            },
        }
    }

    /// Law: over any orchestrator's lifetime, `init` runs exactly once, as
    /// the very first lifecycle call — before any `update`, `reload` or
    /// `unload`.
    pub proof fn lemma_init_exactly_once(&self)
        requires
            self.wf(),
        ensures
            self.log().len() > 0,
            self.log()[0] is Init,
            forall|i: int| 0 < i < self.log().len() ==> !((#[trigger] self.log()[i]) is Init),
    {
    }

    /// Law: in every reload cycle, `unload` on the outgoing table runs
    /// immediately before `reload` on the incoming one, and nothing else is
    /// ever interleaved between the two: a non-final `unload` is directly
    /// followed by `reload`, and every `reload` directly follows an
    /// `unload`.  (Only the `unload` of a reload whose new load failed,
    /// necessarily the last call so far, still awaits its `reload`.)
    pub proof fn lemma_unload_then_reload(&self)
        requires
            self.wf(),
        ensures
            forall|i: int, j: int|
                #![trigger self.log()[i], self.log()[j]]
                0 <= i && j == i + 1 && j < self.log().len() && self.log()[i] is Unload
                    ==> self.log()[j] is Reload,
            forall|i: int, j: int|
                #![trigger self.log()[i], self.log()[j]]
                0 <= i && j == i + 1 && j < self.log().len() && self.log()[j] is Reload
                    ==> self.log()[i] is Unload,
    {
    }
}

/// The host-less variant of the engine: an [`App`] drives an artifact whose
/// lifecycle entry points take only the state pointer, with no
/// host-capability value.  It is the same engine over a unit host; the
/// artifact's post-load entry is traditionally called `load` in this
/// variant, and corresponds to the shared table's `reload` entry.
pub struct App<L: Loader<()>> {
    inner: Reloadable<(), L>,
}

impl<L: Loader<()>> App<L> {
    /// The canonical path of the artifact, fixed at construction.
    pub closed spec fn spec_path(&self) -> Seq<char> {
        self.inner.spec_path()
    }

    /// Is an artifact currently loaded?
    pub closed spec fn loaded(&self) -> bool {
        self.inner.loaded()
    }

    /// Every lifecycle call made so far, oldest first.
    pub closed spec fn log(&self) -> Seq<LifecycleCall> {
        self.inner.log()
    }

    /// The bytes of the state buffer.
    pub closed spec fn buffer(&self) -> Seq<u8> {
        self.inner.buffer()
    }

    /// Validity, as for [`Reloadable::wf`].
    pub closed spec fn wf(&self) -> bool {
        self.inner.wf()
    }

    /// What a reload cycle guarantees, as for [`Reloadable::reload_now_post`].
    pub open spec fn reload_now_post(pre: Self, post: Self, ok: bool) -> bool {
        &&& post.wf()
        &&& post.spec_path() == pre.spec_path()
        &&& (ok <==> post.loaded())
        &&& (pre.loaded() && ok ==> post.log() == pre.log() + seq![
            LifecycleCall::Unload,
            LifecycleCall::Reload,
        ])
        &&& (pre.loaded() && !ok ==> post.log() == pre.log().push(LifecycleCall::Unload))
        &&& (!pre.loaded() && ok ==> post.log() == pre.log().push(LifecycleCall::Reload))
        &&& (!pre.loaded() && !ok ==> post.log() == pre.log() && post.buffer() == pre.buffer())
    }

    /// Create a new reloadable application, as [`Reloadable::new`] with no
    /// host value.
    pub fn new(path: String, loader: L) -> (r: Result<Self, Error>)
        ensures
            r matches Ok(app) ==> {
                &&& app.wf()
                &&& app.loaded()
                &&& app.spec_path() == path@
                &&& app.log() == seq![LifecycleCall::Init]
            },
    {
        match Reloadable::new(path, (), loader) {
            Ok(inner) => Ok(App { inner }),
            Err(e) => Err(e),
        }
    }

    /// Reload the artifact if a pending filesystem event shows it changed;
    /// otherwise do nothing.
    pub fn reload(&mut self) -> (r: Result<(), Error>)
        requires
            old(self).wf(),
        ensures
            final(self).wf(),
            (r is Ok && *final(self) == *old(self)) || Self::reload_now_post(
                *old(self),
                *final(self),
                r is Ok,
            ),
    {
        self.inner.reload()
    }

    /// The reload decision applied to one explicit batch of events, as
    /// [`Reloadable::reload_with_events`].
    pub fn reload_with_events(&mut self, events: &Vec<WatchEvent>) -> (r: Result<(), Error>)
        requires
            old(self).wf(),
        ensures
            final(self).wf(),
            any_match(events@, old(self).spec_path()) ==> Self::reload_now_post(
                *old(self),
                *final(self),
                r is Ok,
            ),
            !any_match(events@, old(self).spec_path()) ==> r is Ok && *final(self) == *old(self),
    {
        self.inner.reload_with_events(events)
    }

    /// Immediately perform a reload cycle, as [`Reloadable::reload_now`].
    pub fn reload_now(&mut self) -> (r: Result<(), Error>)
        requires
            old(self).wf(),
        ensures
            Self::reload_now_post(*old(self), *final(self), r is Ok),
    {
        self.inner.reload_now()
    }

    /// Call the `update` entry of the loaded artifact, as
    /// [`Reloadable::update`].
    pub fn update(&mut self) -> (r: ShouldQuit)
        requires
            old(self).wf(),
        ensures
            final(self).wf(),
            final(self).spec_path() == old(self).spec_path(),
            final(self).loaded() == old(self).loaded(),
            old(self).loaded() ==> {
                &&& final(self).log() == old(self).log().push(LifecycleCall::Update)
                &&& final(self).buffer().len() == old(self).buffer().len()
            },
            !old(self).loaded() ==> *final(self) == *old(self) && r == ShouldQuit::No,
    {
        self.inner.update()
    }

    /// Does the orchestrator currently hold a loaded artifact?
    pub fn is_loaded(&self) -> (r: bool)
        ensures
            r == self.loaded(),
    {
        self.inner.is_loaded()
    }

    /// Tear the application down, as [`Reloadable::shutdown`].
    pub fn shutdown(self) -> (g: Ghost<Seq<LifecycleCall>>)
        requires
            self.wf(),
        ensures
            retired_log_wf(g@),
            self.loaded() ==> g@ == self.log().push(LifecycleCall::Deinit),
            !self.loaded() ==> g@ == self.log(),
    {
        let (_, g) = self.inner.shutdown();
        g
    }
}

} // verus!
