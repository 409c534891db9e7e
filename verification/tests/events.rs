use live_reload::events::should_reload;
use live_reload::monitor::parent_dir;
use live_reload::Error;
use live_reload::WatchEvent;

#[test]
fn write_on_artifact_path_matches() {
    let path = String::from("/tmp/libdemo.so");
    let events = vec![WatchEvent::Write(String::from("/tmp/libdemo.so"))];
    assert!(should_reload(&events, &path));
}

#[test]
fn create_on_artifact_path_matches() {
    let path = String::from("/tmp/libdemo.so");
    let events = vec![
        WatchEvent::Other,
        WatchEvent::Create(String::from("/tmp/libdemo.so")),
    ];
    assert!(should_reload(&events, &path));
}

#[test]
fn events_elsewhere_in_directory_do_not_match() {
    let path = String::from("/tmp/libdemo.so");
    let events = vec![
        WatchEvent::Write(String::from("/tmp/other.so")),
        WatchEvent::Create(String::from("/tmp/libdemo.so.tmp")),
        WatchEvent::Other,
    ];
    assert!(!should_reload(&events, &path));
}

#[test]
fn no_events_no_reload() {
    let path = String::from("/tmp/libdemo.so");
    let events: Vec<WatchEvent> = Vec::new();
    assert!(!should_reload(&events, &path));
}

#[test]
fn error_descriptions() {
    let io = Error::Io(std::io::Error::new(std::io::ErrorKind::NotFound, "gone"));
    assert_eq!(io.description(), "i/o error while loading the library");
    assert_eq!(
        Error::MismatchedHost.description(),
        "mismatch between host and library's Host types"
    );
}

#[test]
fn parent_dir_strips_the_file_name() {
    assert_eq!(parent_dir(&String::from("/a/b/libdemo.so")), "/a/b");
    assert_eq!(parent_dir(&String::from("/libdemo.so")), "");
    assert_eq!(parent_dir(&String::from("./libdemo.so")), ".");
    assert_eq!(parent_dir(&String::from("libdemo.so")), "");
}
