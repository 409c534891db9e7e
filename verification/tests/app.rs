use live_reload::App;
use live_reload::Error;
use live_reload::Loader;
use live_reload::ReloadApi;
use live_reload::ShouldQuit;
use live_reload::StateBuffer;
use live_reload::WatchEvent;

const ARTIFACT: &str = "/tmp/libreloadapp_artifact.so";

/// A host-less fake artifact: counts its updates in the first buffer byte
/// and quits after three of them.
struct TickApi;

impl ReloadApi<()> for TickApi {
    fn size_spec(&self) -> usize {
        8
    }

    fn size(&self) -> usize {
        8
    }

    fn init(&self, _host: &mut (), state: &mut StateBuffer) {
        state.set_byte(0, 0);
    }

    fn reload(&self, _host: &mut (), _state: &mut StateBuffer) {}

    fn update(&self, _host: &mut (), state: &mut StateBuffer) -> ShouldQuit {
        let n = state.byte(0) + 1;
        state.set_byte(0, n);
        if n >= 3 {
            ShouldQuit::Yes
        } else {
            ShouldQuit::No
        }
    }

    fn unload(&self, _host: &mut (), _state: &mut StateBuffer) {}

    fn deinit(&self, _host: &mut (), _state: &mut StateBuffer) {}
}

struct TickLoader {
    opens_before_failure: usize,
}

impl Loader<()> for TickLoader {
    type Api = TickApi;

    fn open(&mut self, _path: &String) -> Result<TickApi, Error> {
        if self.opens_before_failure == 0 {
            Err(Error::Io(std::io::Error::new(
                std::io::ErrorKind::InvalidData,
                "not a loadable artifact",
            )))
        } else {
            self.opens_before_failure -= 1;
            Ok(TickApi)
        }
    }
}

#[test]
fn app_drives_the_update_verdict_loop() {
    let mut app = App::new(String::from(ARTIFACT), TickLoader { opens_before_failure: 9 })
        .expect("construction should succeed");
    assert_eq!(app.update(), ShouldQuit::No);
    assert_eq!(app.update(), ShouldQuit::No);
    assert_eq!(app.update(), ShouldQuit::Yes);
    let _log = app.shutdown();
}

#[test]
fn app_reload_cycle_keeps_the_tick_count() {
    let path = String::from(ARTIFACT);
    let mut app =
        App::new(path.clone(), TickLoader { opens_before_failure: 9 }).expect("construction should succeed");
    assert_eq!(app.update(), ShouldQuit::No);
    app.reload_with_events(&vec![WatchEvent::Create(path)])
        .expect("reload should succeed");
    assert!(app.is_loaded());
    // One tick happened before the swap, so two more reach the limit.
    assert_eq!(app.update(), ShouldQuit::No);
    assert_eq!(app.update(), ShouldQuit::Yes);
}

#[test]
fn app_update_after_failed_reload_is_a_no_op() {
    let mut app = App::new(String::from(ARTIFACT), TickLoader { opens_before_failure: 1 })
        .expect("construction should succeed");
    let err = app.reload_now().expect_err("the next open is scripted to fail");
    assert!(matches!(err, Error::Io(_)));
    assert!(!app.is_loaded());
    assert_eq!(app.update(), ShouldQuit::No);
    assert_eq!(app.update(), ShouldQuit::No);
}
