use singboard::update::{overwrite_rollback_failure, panel_overwrite_error, PANEL_UPDATE_ERROR_FILE};
use singboard::update::{
    check_core_target, latest_release_url, missing_panel_asset, needs_sync_check,
    panel_asset_index, release_version, update_failure, PanelUpdateInfo, APPLY_UPDATE_FLAG,
    PANEL_ASSET, PROGRESS_EVENT,
};

#[test]
fn releases_are_read_from_the_panel_repository() {
    assert_eq!(latest_release_url(), "https://api.github.com/repos/Yuu518/singboard/releases/latest");
    assert_eq!(PANEL_ASSET, "singboard.exe");
    assert_eq!(PROGRESS_EVENT, "panel-update-progress");
    assert_eq!(APPLY_UPDATE_FLAG, "--apply-update");
    assert_eq!(missing_panel_asset(), "该版本未提供 singboard.exe 资产");
    let names = vec!["notes.txt".to_owned(), "SingBoard.EXE".to_owned(), "singboard.exe".to_owned()];
    assert_eq!(panel_asset_index(&names), Some(1));
    assert_eq!(panel_asset_index(&vec!["other.exe".to_owned()]), None);
}

#[test]
fn release_summaries_compare_versions() {
    assert_eq!(release_version("vV1.2.3"), "1.2.3");
    assert!(needs_sync_check("v1.2.3", "1.2.3"));
    assert!(!needs_sync_check("v1.2.4", "1.2.3"));
    let info = PanelUpdateInfo::from_release(
        "1.2.3".to_owned(),
        "v1.3.0",
        Some("2024-01-01T00:00:00Z".to_owned()),
        "https://example/singboard.exe".to_owned(),
        1024,
        Some("sha256:00".to_owned()),
        true,
    );
    assert_eq!(info.latest_version, "1.3.0");
    assert!(info.has_update);
    assert!(!info.out_of_sync);
    assert_eq!(info.published_at, "2024-01-01T00:00:00Z");
    assert_eq!(info.asset_size, 1024);
    assert_eq!(info.asset_digest, "sha256:00");
    let same = PanelUpdateInfo::from_release(
        "1.2.3".to_owned(),
        "1.2.3",
        None,
        String::new(),
        0,
        None,
        true,
    );
    assert!(!same.has_update);
    assert!(same.out_of_sync);
    assert_eq!(same.published_at, "");
    assert_eq!(same.asset_digest, "");
}

#[test]
fn core_updates_target_the_installed_source() {
    assert_eq!(check_core_target("C:\\Core\\sing-box.exe", "c:\\core\\SING-BOX.EXE"), Ok(()));
    assert_eq!(
        check_core_target("C:\\Core\\sing-box.exe", "D:\\sing-box.exe"),
        Err("所选核心路径与已安装服务的源路径不一致，请先重新安装服务".to_owned())
    );
}

#[test]
fn failed_core_updates_report_what_was_undone() {
    let err = |s: &str| Err::<(), String>(s.to_owned());
    assert_eq!(update_failure("boom", &Ok(()), None, &Ok(())), "boom");
    assert_eq!(
        update_failure("boom", &err("busy"), Some(&err("x")), &err("y")),
        "boom; 停止更新后的服务失败: busy; 恢复源核心文件失败: x; 恢复服务运行副本失败: y"
    );
    assert_eq!(
        update_failure("boom", &Ok(()), Some(&err("x")), &err("y")),
        "boom; 恢复源核心文件失败: x; 恢复服务运行副本失败: y"
    );
    assert_eq!(update_failure("boom", &Ok(()), Some(&Ok(())), &err("y")), "boom; 恢复服务运行副本失败: y");
}

#[test]
fn panel_replacement_failures_are_reported() {
    assert_eq!(PANEL_UPDATE_ERROR_FILE, "panel-update-error.txt");
    assert_eq!(panel_overwrite_error("denied"), "覆盖面板失败: denied");
    assert_eq!(
        overwrite_rollback_failure("denied", "busy", "/opt/panel.exe.bak"),
        "覆盖失败: denied; 恢复失败: busy; 备份保留在 /opt/panel.exe.bak"
    );
}

#[test]
fn a_newer_local_build_is_never_out_of_sync() {
    assert!(!needs_sync_check("v1.2.3", "1.3.0"));
    let info = PanelUpdateInfo::from_release(
        "1.3.0".to_owned(),
        "v1.2.3",
        None,
        String::new(),
        0,
        None,
        true,
    );
    assert!(!info.has_update);
    assert!(!info.out_of_sync);
}
