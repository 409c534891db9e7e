use live_reload::demo::deinit;
use live_reload::demo::init;
use live_reload::demo::reload;
use live_reload::demo::unload;
use live_reload::demo::update;
use live_reload::demo::DemoApi;
use live_reload::demo::Host;
use live_reload::demo::HostNote;
use live_reload::demo::State;
use live_reload::Error;
use live_reload::Loader;
use live_reload::ReloadApi;
use live_reload::Reloadable;
use live_reload::ShouldQuit;
use live_reload::StateBuffer;
use live_reload::WatchEvent;

#[test]
fn counter_lifecycle_callbacks() {
    let mut host = Host::new();
    let mut state = State { counter: 99 };
    init(&mut host, &mut state);
    assert_eq!(state.counter, 0);
    assert_eq!(update(&mut host, &mut state), ShouldQuit::No);
    assert_eq!(state.counter, 2);
    assert_eq!(update(&mut host, &mut state), ShouldQuit::No);
    assert_eq!(state.counter, 4);
    reload(&mut host, &mut state);
    unload(&mut host, &mut state);
    deinit(&mut host, &mut state);
    assert_eq!(state.counter, 4);
    assert_eq!(
        host.printed,
        vec![
            HostNote::Init,
            HostNote::Counter(2),
            HostNote::Counter(4),
            HostNote::Reloaded(4),
            HostNote::Unloaded(4),
            HostNote::Goodbye(4),
        ]
    );
}

#[test]
fn demo_table_reports_one_word() {
    assert_eq!(DemoApi.size(), 8);
}

#[test]
fn demo_table_keeps_its_counter_in_the_buffer() {
    let mut host = Host::new();
    let mut buf = StateBuffer::new();
    buf.size_hint(8);
    ReloadApi::init(&DemoApi, &mut host, &mut buf);
    assert_eq!(buf.read_word(0), 0);
    ReloadApi::update(&DemoApi, &mut host, &mut buf);
    ReloadApi::update(&DemoApi, &mut host, &mut buf);
    assert_eq!(buf.read_word(0), 4);
    ReloadApi::reload(&DemoApi, &mut host, &mut buf);
    assert_eq!(
        host.printed,
        vec![
            HostNote::Init,
            HostNote::Counter(2),
            HostNote::Counter(4),
            HostNote::Reloaded(4),
        ]
    );
}

/// Loads the demo artifact, which is linked into the program itself.
struct DemoLoader;

impl Loader<Host> for DemoLoader {
    type Api = DemoApi;

    fn open(&mut self, _path: &String) -> Result<DemoApi, Error> {
        Ok(DemoApi)
    }
}

#[test]
fn demo_counter_survives_a_reload_cycle() {
    let path = String::from("/tmp/libdemo_counter.so");
    let mut app = Reloadable::new(path.clone(), Host::new(), DemoLoader)
        .expect("construction should succeed");
    assert_eq!(app.update(), ShouldQuit::No);
    assert_eq!(app.update(), ShouldQuit::No);
    app.reload_with_events(&vec![WatchEvent::Write(path)])
        .expect("reload should succeed");
    assert_eq!(app.update(), ShouldQuit::No);
    let (host, _log) = app.shutdown();
    assert_eq!(
        host.printed,
        vec![
            HostNote::Init,
            HostNote::Counter(2),
            HostNote::Counter(4),
            HostNote::Unloaded(4),
            HostNote::Reloaded(4),
            HostNote::Counter(6),
            HostNote::Goodbye(6),
        ]
    );
}
