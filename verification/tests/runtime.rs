use singboard::runtime::{check_runtime_files, CaptureSource};
use std::path::Path;

use singboard::runtime::{
    capture_working_dir, has_core_file, is_runtime_dir_name, is_runtime_path, runtime_file_allowed,
    source_core_dir, unique_name, DiscardAction, Snapshot,
};

fn text(p: &Path) -> &str {
    p.to_str().unwrap()
}

#[test]
fn runtime_paths_must_be_direct_children_of_the_protected_root() {
    let root = Path::new(r"C:\Program Files\singboard-service");
    assert!(is_runtime_path(text(&root.join("runtime-12-345-0")), text(root)));
    assert!(!is_runtime_path(text(&root.join("runtime-12-345-0").join("child")), text(root)));
    assert!(!is_runtime_path(r"C:\Users\Public\runtime-12-345-0", text(root)));
    assert!(!is_runtime_path(text(&root.join("runtime-user-files")), text(root)));
    assert!(!is_runtime_path(text(&root.join("runtime-")), text(root)));
}

#[test]
fn generated_names_are_runtime_directory_names() {
    let name = unique_name("runtime", 12, 345, 0);
    assert_eq!(name, "runtime-12-345-0");
    assert!(is_runtime_dir_name(&name));
    let name = unique_name("runtime", u32::MAX, u128::MAX, u64::MAX);
    assert!(is_runtime_dir_name(&name));
    assert!(!is_runtime_dir_name("runtime-1-2"));
    assert!(!is_runtime_dir_name("runtime-1-2-3-4"));
    assert!(!is_runtime_dir_name("runtime-1--3"));
    assert!(!is_runtime_dir_name("Runtime-1-2-3"));
}

fn snapshot(core: &str, config: &str) -> Snapshot {
    Snapshot {
        core: core.to_owned(),
        config: config.to_owned(),
        working_dir: "/work".to_owned(),
        source_core: "/src/sing-box.exe".to_owned(),
        source_config: "/src/config.json".to_owned(),
    }
}

#[test]
fn refreshed_capture_uses_the_recorded_sources() {
    let s = snapshot("/root/runtime-1-2-3/sing-box.exe", "/root/runtime-1-2-3/config.json");
    let c = s.refresh_config();
    assert_eq!(c.core, "/src/sing-box.exe");
    assert_eq!(c.config, "/src/config.json");
    assert_eq!(c.working_dir, "/work");
}

#[test]
fn protected_snapshots_live_in_a_runtime_directory() {
    let s = snapshot("/root/runtime-1-2-3/sing-box.exe", "/root/runtime-1-2-3/config.json");
    assert_eq!(s.protected_dir("/root"), Some("/root/runtime-1-2-3".to_owned()));
    let s = snapshot("/root/runtime-1-2-3/core.exe", "/root/runtime-1-2-3/config.json");
    assert_eq!(s.protected_dir("/root"), None);
    let s = snapshot("/root/runtime-1-2-3/sing-box.exe", "/elsewhere/config.json");
    assert_eq!(s.protected_dir("/root"), None);
    let s = snapshot("/other/runtime-1-2-3/sing-box.exe", "/other/runtime-1-2-3/config.json");
    assert_eq!(s.protected_dir("/root"), None);
}

#[test]
fn replaced_snapshots_discard_only_what_is_unused() {
    let old = snapshot("/root/runtime-1-2-3/sing-box.exe", "/root/runtime-1-2-3/config-a.json");
    let same_dir = snapshot("/root/runtime-1-2-3/sing-box.exe", "/root/runtime-1-2-3/config-b.json");
    let other_dir = snapshot("/root/runtime-4-5-6/sing-box.exe", "/root/runtime-4-5-6/config.json");
    assert!(matches!(old.discard_action(&other_dir, false), DiscardAction::Keep));
    match old.discard_action(&same_dir, true) {
        DiscardAction::RemoveFile(f) => assert_eq!(f, "/root/runtime-1-2-3/config-a.json"),
        _ => panic!("the unused configuration goes"),
    }
    assert!(matches!(old.discard_action(&old, true), DiscardAction::Keep));
    match old.discard_action(&other_dir, true) {
        DiscardAction::RemoveDir(d) => assert_eq!(d, "/root/runtime-1-2-3"),
        _ => panic!("the old directory goes"),
    }
}

#[test]
fn capture_paths_come_from_their_directories() {
    assert_eq!(source_core_dir("/opt/core/sing-box.exe"), Ok("/opt/core".to_owned()));
    assert_eq!(source_core_dir("/"), Err("源核心目录无效".to_owned()));
    assert_eq!(capture_working_dir("/etc/sb/config.json", " "), Ok("/etc/sb".to_owned()));
    assert_eq!(capture_working_dir("/etc/sb/config.json", "/work"), Ok("/work".to_owned()));
    assert_eq!(capture_working_dir("/", ""), Err("源配置目录无效".to_owned()));
}

#[test]
fn runtime_files_are_the_core_and_dlls() {
    assert!(runtime_file_allowed("sing-box.exe"));
    assert!(!runtime_file_allowed("SING-BOX.EXE"));
    assert!(runtime_file_allowed("libcronet.DLL"));
    assert!(!runtime_file_allowed("config.json"));
    let files = vec![("libcronet.dll".to_owned(), vec![1u8]), ("sing-box.exe".to_owned(), vec![2u8])];
    assert!(has_core_file(&files));
    assert!(!has_core_file(&files[..1]));
}

#[test]
fn captures_hold_the_core_and_dlls_beside_the_configuration() {
    let core = ("sing-box.exe".to_owned(), vec![1u8]);
    let dll = ("libcronet.dll".to_owned(), vec![2u8]);
    assert_eq!(check_runtime_files(&[core.clone(), dll.clone()]), Ok(()));
    assert_eq!(check_runtime_files(&[dll.clone()]), Err("服务运行文件缺少 sing-box.exe".to_owned()));
    assert_eq!(
        check_runtime_files(&[core.clone(), ("notes.txt".to_owned(), vec![])]),
        Err("服务运行文件名称无效".to_owned())
    );
    let s = snapshot("/root/runtime-1-2-3/sing-box.exe", "/root/runtime-1-2-3/config.json");
    let captured = Snapshot::captured("/root/runtime-4-5-6", &s.refresh_config()).unwrap();
    assert_eq!(captured.core, "/root/runtime-4-5-6/sing-box.exe");
    assert_eq!(captured.config, "/root/runtime-4-5-6/config.json");
    assert_eq!(captured.working_dir, "/work");
    assert_eq!(captured.source_core, "/src/sing-box.exe");
    let blank = CaptureSource { core: "/src/sing-box.exe".into(), config: "/etc/sb/c.json".into(), working_dir: " ".into() };
    assert_eq!(Snapshot::captured("/r", &blank).unwrap().working_dir, "/etc/sb");
    let rootless = CaptureSource { core: "/x".into(), config: "/".into(), working_dir: "".into() };
    assert_eq!(Snapshot::captured("/r", &rootless).err(), Some("源配置目录无效".to_owned()));
}
