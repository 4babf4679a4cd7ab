use nono_app::launcher::{launch_error_message, open_command, LaunchBatch, Platform};

fn paths(v: &[&str]) -> Vec<String> {
    v.iter().map(|s| s.to_string()).collect()
}

#[test]
fn batch_offers_paths_in_order_and_succeeds() {
    let mut b = LaunchBatch::new(paths(&["a", "b", "c"]));
    assert_eq!(b.current().unwrap(), "a");
    b.record_spawned();
    assert_eq!(b.current().unwrap(), "b");
    b.record_spawned();
    assert_eq!(b.current().unwrap(), "c");
    b.record_spawned();
    assert!(b.current().is_none());
    assert!(b.outcome().is_ok());
}

#[test]
fn failure_on_second_path_leaves_third_unlaunched() {
    let mut b = LaunchBatch::new(paths(&["a", "b", "c"]));
    b.record_spawned();
    assert_eq!(b.current().unwrap(), "b");
    b.record_failure(&"boom".to_string());
    assert!(b.current().is_none());
    assert_eq!(b.outcome().err().unwrap(), "Failed to launch b: boom".to_string());
}

#[test]
fn empty_batch_is_immediately_done() {
    let b = LaunchBatch::new(Vec::new());
    assert!(b.current().is_none());
    assert!(b.outcome().is_ok());
}

#[test]
fn failure_message_format() {
    let m = launch_error_message(&"/tmp/x".to_string(), &"no such file".to_string());
    assert_eq!(m, "Failed to launch /tmp/x: no such file".to_string());
}

#[test]
fn open_command_per_platform() {
    let p = "notes.txt".to_string();
    assert_eq!(open_command(Platform::MacOs, &p), paths(&["open", "notes.txt"]));
    assert_eq!(
        open_command(Platform::Windows, &p),
        paths(&["cmd", "/C", "start", "", "notes.txt"])
    );
    assert_eq!(open_command(Platform::OtherUnix, &p), paths(&["xdg-open", "notes.txt"]));
}
