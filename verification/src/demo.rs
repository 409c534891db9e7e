//! A complete reloadable artifact: a counter that steps on every update.
//!
//! This is the demonstration payload for the engine, written the way any
//! artifact author would write one: typed callback functions over a private
//! `State` structure and a host-capability value, and a hand-written
//! [`ReloadApi`] table that reinterprets the first word of the opaque state
//! buffer as that structure around each callback.  (In a C-style setting a
//! registration macro would emit exactly these wrappers and export the table
//! under the fixed symbol; here the table is the trait implementation.)

use vstd::prelude::*;

use crate::api::ReloadApi;
use crate::api::ShouldQuit;
use crate::buffer::word_at;
use crate::buffer::StateBuffer;

verus! {

/// One line of output that the demo host's `print` capability records, each
/// carrying the counter value it reports.
#[derive(Debug, PartialEq, Eq, Structural, Clone, Copy)]
pub enum HostNote {
    /// "Init! Counter: 0."
    Init,
    /// "Reloaded at N."
    Reloaded(u64),
    /// "Counter: N."
    Counter(u64),
    /// "Unloaded at N."
    Unloaded(u64),
    /// "Goodbye! Reached a final value of N."
    Goodbye(u64),
}

/// The capabilities the demo host program offers its artifact: an output
/// sink that records each line the artifact prints.
pub struct Host {
    /// Every line printed so far, oldest first.
    pub printed: Vec<HostNote>,
}

impl Host {
    /// A host that has printed nothing yet.
    pub fn new() -> (h: Host)
        ensures
            h.printed@ == Seq::<HostNote>::empty(),
    {
        let h = Host { printed: Vec::new() };
        proof {
            assert(h.printed@ =~= Seq::<HostNote>::empty());
        }
        h
    }

    /// The host's one service: print a line.
    pub fn print(&mut self, note: HostNote)
        ensures
            final(self).printed@ == old(self).printed@.push(note),
    {
        self.printed.push(note);
    }
}

/// The artifact's private state, reinterpreted from the first word of the
/// state buffer.
pub struct State {
    /// Steps by two on every update, and survives reloads in the buffer.
    pub counter: u64,
}

/// Initialize the state when the program first starts.
pub fn init(host: &mut Host, state: &mut State)
    ensures
        final(state).counter == 0,
        final(host).printed@ == old(host).printed@.push(HostNote::Init),
{
    state.counter = 0;
    host.print(HostNote::Init);
}

/// Greet the host after this version of the artifact was (re)loaded; the
/// counter carries over from the previous version.
pub fn reload(host: &mut Host, state: &mut State)
    ensures
        *final(state) == *old(state),
        final(host).printed@ == old(host).printed@.push(
            HostNote::Reloaded(old(state).counter),
        ),
{
    host.print(HostNote::Reloaded(state.counter));
}

/// One step of application logic: the counter advances by two.
pub fn update(host: &mut Host, state: &mut State) -> (r: ShouldQuit)
    requires
        old(state).counter + 2 <= u64::MAX,
    ensures
        final(state).counter == old(state).counter + 2,
        final(host).printed@ == old(host).printed@.push(
            HostNote::Counter((old(state).counter + 2) as u64),
        ),
        r == ShouldQuit::No,
{
    state.counter = state.counter + 2;
    host.print(HostNote::Counter(state.counter));
    ShouldQuit::No
}

/// Say goodbye to this version of the artifact before it is unloaded; the
/// counter stays behind in the buffer for the next version.
pub fn unload(host: &mut Host, state: &mut State)
    ensures
        *final(state) == *old(state),
        final(host).printed@ == old(host).printed@.push(
            HostNote::Unloaded(old(state).counter),
        ),
{
    host.print(HostNote::Unloaded(state.counter));
}

/// Final shutdown, when the whole program quits.
pub fn deinit(host: &mut Host, state: &mut State)
    ensures
        *final(state) == *old(state),
        final(host).printed@ == old(host).printed@.push(
            HostNote::Goodbye(old(state).counter),
        ),
{
    host.print(HostNote::Goodbye(state.counter));
}

/// Reinterpret the first word of the buffer as the artifact's state.
pub fn read_state(buf: &StateBuffer) -> (s: State)
    requires
        8 <= buf@.len(),
    ensures
        s.counter as nat == word_at(buf@, 0),
{
    State { counter: buf.read_word(0) }
}

/// Store the artifact's state back into the first word of the buffer.
pub fn write_state(buf: &mut StateBuffer, s: &State)
    requires
        8 <= old(buf)@.len(),
    ensures
        final(buf)@.len() == old(buf)@.len(),
        word_at(final(buf)@, 0) == s.counter as nat,
        forall|i: int| 8 <= i < old(buf)@.len() ==> final(buf)@[i] == old(buf)@[i],
{
    buf.write_word(0, s.counter);
}

/// The demo artifact's exported lifecycle table.  Each entry decodes the
/// state from the buffer, runs the typed callback, and encodes the state
/// back — the buffer region itself belongs to the orchestrator.
pub struct DemoApi;

impl ReloadApi<Host> for DemoApi {
    open spec fn size_spec(&self) -> usize {
        8
    }

    fn size(&self) -> (n: usize) {
        8
    }

    fn init(&self, host: &mut Host, state: &mut StateBuffer) {
        let mut s = read_state(state);
        init(host, &mut s);
        write_state(state, &s);
    }

    fn reload(&self, host: &mut Host, state: &mut StateBuffer) {
        let mut s = read_state(state);
        reload(host, &mut s);
        write_state(state, &s);
    }

    fn update(&self, host: &mut Host, state: &mut StateBuffer) -> (r: ShouldQuit) {
        let mut s = read_state(state);
        if s.counter <= u64::MAX - 2 {
            let r = update(host, &mut s);
            write_state(state, &s);
            r
        } else {
            // The counter cannot step again without wrapping; this artifact
            // chooses to ask the host to stop instead.
            ShouldQuit::Yes
        }
    }

    fn unload(&self, host: &mut Host, state: &mut StateBuffer) {
        let mut s = read_state(state);
        unload(host, &mut s);
        write_state(state, &s);
    }

    fn deinit(&self, host: &mut Host, state: &mut StateBuffer) {
        let mut s = read_state(state);
        deinit(host, &mut s);
        write_state(state, &s);
    }
}

} // verus!
