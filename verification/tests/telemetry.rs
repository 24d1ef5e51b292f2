use singboard::telemetry::{pipe_name, Snapshot, SNAPSHOT_VERSION};

#[test]
fn pipe_names_are_case_insensitive_and_bounded() {
    assert_eq!(pipe_name("Sing-Box"), pipe_name("sing-box"));
    assert!(pipe_name(&"服".repeat(256)).len() < 256);
}

#[test]
fn pipe_names_hash_the_lowercased_name() {
    let name = pipe_name("singboard.service");
    assert!(name.starts_with(r"\\.\pipe\singboard-status-"));
    assert_eq!(name.chars().count(), 90);
    assert_ne!(pipe_name("singboard.service"), pipe_name("other.service"));
    // The hash of the empty name is the hash of no bytes.
    assert_eq!(
        pipe_name(""),
        r"\\.\pipe\singboard-status-e3b0c44298fc1c149afbf4c8996fb92427ae41e4649b934ca495991b7852b855"
    );
}

#[test]
fn snapshots_are_accepted_only_from_their_own_process() {
    let s = Snapshot::current(1100, 42);
    assert_eq!(s.version, SNAPSHOT_VERSION);
    assert_eq!(s.pid, 1100);
    assert_eq!(s.accepted_uptime(1100, 1100), Some(42));
    assert_eq!(s.accepted_uptime(1101, 1100), None);
    assert_eq!(s.accepted_uptime(1100, 1101), None);
    let old = Snapshot { version: 0, pid: 1100, uptime_seconds: 42 };
    assert_eq!(old.accepted_uptime(1100, 1100), None);
}
