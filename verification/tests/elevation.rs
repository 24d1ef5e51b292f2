use singboard::elevation::{plan_operation, PlanReply, PlanStep};
use singboard::elevation::{admin_io_error, core_update_migrates, is_own_service};
use singboard::elevation::{startup_sync_report, startup_sync_request};
use singboard::service::SyncNeed;
use singboard::elevation::{
    admin_args, admin_pipe_name, check_admin_endpoint, hex_hash, is_core_exe_name, is_dll,
    progress_phase, quote_arg, valid_asset_name, valid_service, validate, Operation, Request, ADMIN_FLAG,
    CANCELLED,
};


#[test]
fn validates_asset_names_and_service_names() {
    assert!(valid_asset_name("libcronet.dll"));
    assert!(!valid_asset_name("../evil.dll"));
    assert!(!valid_asset_name("C:evil.dll"));
    assert!(!valid_service("x\" stop other"));
    assert!(valid_service("sing-box 测试"));
}

#[test]
fn quotes_paths_without_losing_trailing_slashes() {
    assert_eq!(quote_arg(r"C:\App Data\"), "\"C:\\App Data\\\\\"");
    assert_eq!(quote_arg("a\"b"), "\"a\\\"b\"");
}

#[test]
fn asset_names_are_the_core_or_dlls() {
    assert!(valid_asset_name("SING-BOX.EXE"));
    assert!(valid_asset_name("wintun.DLL"));
    assert!(!valid_asset_name("sing-box"));
    assert!(!valid_asset_name(""));
    assert!(!valid_asset_name("a\u{1}.dll"));
    assert!(is_core_exe_name("Sing-Box.exe"));
    assert!(!is_core_exe_name("sing-box.exe.bak"));
    assert!(is_dll("x.Dll"));
    assert!(!is_dll("x.dl"));
}

#[test]
fn service_names_are_bounded_in_utf16_units() {
    assert!(!valid_service(""));
    assert!(valid_service(&"a".repeat(256)));
    assert!(!valid_service(&"a".repeat(257)));
    // Each of these takes two UTF-16 units.
    assert!(valid_service(&"😀".repeat(128)));
    assert!(!valid_service(&"😀".repeat(129)));
    assert!(!valid_service("a/b"));
    assert!(!valid_service("a\\b"));
    assert!(!valid_service("tab\there"));
}

#[test]
fn panel_hashes_are_sha256_hex() {
    assert!(hex_hash(&"aB".repeat(32)));
    assert!(!hex_hash(&"a".repeat(63)));
    assert!(!hex_hash(&"g".repeat(64)));
}

fn request(operation: Operation) -> Request {
    Request {
        operation,
        data_dir: "/data/singboard".to_owned(),
        user_sid: "S-1-5-21-1-2-3-1001".to_owned(),
    }
}

#[test]
fn validate_accepts_well_formed_requests() {
    assert!(validate(&request(Operation::Start { service: "singboard.service".to_owned() })).is_ok());
    assert!(validate(&request(Operation::Install {
        service: "singboard.service".to_owned(),
        core: "/opt/core/sing-box.exe".to_owned(),
        config: "/opt/core/config.json".to_owned(),
        working_dir: "/opt/core".to_owned(),
        delay: 30,
    }))
    .is_ok());
    assert!(validate(&request(Operation::ReplacePanel {
        source: "/tmp/new.exe".to_owned(),
        target: "/opt/panel.exe".to_owned(),
        hash: "0".repeat(64),
    }))
    .is_ok());
}

#[test]
fn validate_reports_each_refusal() {
    let mut r = request(Operation::Stop { service: "singboard.service".to_owned() });
    r.data_dir = "relative".to_owned();
    assert_eq!(validate(&r), Err("管理操作必须使用绝对路径".to_owned()));

    let mut r = request(Operation::Stop { service: "singboard.service".to_owned() });
    r.user_sid = "S-1-5-21)(A;;GA;;;WD)".to_owned();
    assert_eq!(validate(&r), Err("无效的原用户身份".to_owned()));

    let r = request(Operation::Install {
        service: "singboard.service".to_owned(),
        core: "sing-box.exe".to_owned(),
        config: "/opt/core/config.json".to_owned(),
        working_dir: "/opt/core".to_owned(),
        delay: 0,
    });
    assert_eq!(validate(&r), Err("管理操作必须使用绝对路径".to_owned()));

    let r = request(Operation::UpdateCore {
        service: "singboard.service".to_owned(),
        staging: "/tmp/staging".to_owned(),
        target: "/opt/core/sing-box.exe".to_owned(),
        files: vec![],
    });
    assert_eq!(validate(&r), Err("无效的更新文件清单".to_owned()));

    let r = request(Operation::UpdateCore {
        service: "singboard.service".to_owned(),
        staging: "/tmp/staging".to_owned(),
        target: "/opt/core/sing-box.exe".to_owned(),
        files: vec![("../evil.dll".to_owned(), "0".repeat(64))],
    });
    assert_eq!(validate(&r), Err("无效的更新文件清单".to_owned()));

    let r = request(Operation::UpdateCore {
        service: "singboard.service".to_owned(),
        staging: "/tmp/staging".to_owned(),
        target: "/opt/core/sing-box.exe".to_owned(),
        files: vec![("sing-box.exe".to_owned(), "f".repeat(64))],
    });
    assert!(validate(&r).is_ok());

    let r = request(Operation::ReplacePanel {
        source: "/tmp/new.exe".to_owned(),
        target: "/opt/panel.exe".to_owned(),
        hash: "xyz".to_owned(),
    });
    assert_eq!(validate(&r), Err("无效的面板校验值".to_owned()));

    let r = request(Operation::DeleteTask { service: "bad\"name".to_owned() });
    assert_eq!(validate(&r), Err("无效的服务名称".to_owned()));
}

#[test]
fn admin_endpoint_round_trip() {
    let name = admin_pipe_name(4242, 1_700_000_000_123_456_789);
    assert_eq!(name, r"\\.\pipe\singboard-admin-4242-1700000000123456789");
    assert!(check_admin_endpoint(&name, 4242).is_ok());
    assert_eq!(check_admin_endpoint(&name, 424), Err("无效的管理端点".to_owned()));
    assert_eq!(check_admin_endpoint(&name, 0), Err("无效的管理端点".to_owned()));
    assert_eq!(
        check_admin_endpoint(r"\\.\pipe\singboard-admin-42420-1", 4242),
        Err("无效的管理端点".to_owned())
    );
}

#[test]
fn admin_arguments_quote_the_pipe() {
    assert_eq!(ADMIN_FLAG, "--admin-operation");
    assert_eq!(CANCELLED, "elevation_cancelled");
    assert_eq!(
        admin_args(r"\\.\pipe\singboard-admin-7-9", 7),
        "--admin-operation \"\\\\.\\pipe\\singboard-admin-7-9\" 7"
    );
}

#[test]
fn progress_phases_are_restart_or_replace() {
    assert_eq!(progress_phase("restart"), "restart");
    assert_eq!(progress_phase("stage"), "replace");
    assert_eq!(progress_phase("Restart"), "replace");
}

#[test]
fn core_updates_migrate_only_installed_older_services() {
    assert!(core_update_migrates("sing-box", "running"));
    assert!(!core_update_migrates("sing-box", "not_installed"));
    assert!(!core_update_migrates("singboard.service", "running"));
    assert!(is_own_service("singboard.service"));
    assert!(!is_own_service("sing-box"));
    assert_eq!(admin_io_error("broken pipe"), "管理操作通信失败: broken pipe");
}

#[test]
fn plans_follow_each_operation() {
    let names = |p: &singboard::elevation::OperationPlan| -> Vec<String> {
        p.steps.iter().map(|s| match s {
            PlanStep::StartWithSnapshot { restart } => format!("start({restart})"),
            PlanStep::StopService => "stop".into(),
            PlanStep::Migrate { legacy } => format!("migrate({legacy})"),
            PlanStep::CaptureSnapshot => "capture".into(),
            PlanStep::ConfigureService => "configure".into(),
            PlanStep::CreateStartupTask => "create-task".into(),
            PlanStep::DeleteStartupTask => "delete-task".into(),
            PlanStep::ReadSnapshot => "read".into(),
            PlanStep::UninstallService => "uninstall".into(),
            PlanStep::RemoveHelperFiles => "remove-helper".into(),
            PlanStep::DiscardSnapshot => "discard".into(),
            PlanStep::CleanupLegacyFiles => "cleanup".into(),
            PlanStep::RefreshSnapshot => "refresh".into(),
            PlanStep::VerifyUpdateFiles => "verify-files".into(),
            PlanStep::MigrateOlderService => "migrate-older".into(),
            PlanStep::ApplyCoreUpdate => "apply".into(),
            PlanStep::VerifyPanelFile => "verify-panel".into(),
            PlanStep::OverwritePanel => "overwrite".into(),
        }).collect()
    };
    let install = Operation::Install {
        service: "singboard.service".into(),
        core: "/c".into(),
        config: "/c.json".into(),
        working_dir: "/w".into(),
        delay: 0,
    };
    assert_eq!(names(&plan_operation(&install, "not_installed", true)), ["migrate(true)", "capture", "configure", "create-task"]);
    assert_eq!(names(&plan_operation(&install, "running", true)), ["capture", "configure", "create-task"]);
    let update = Operation::UpdateCore {
        service: "sing-box".into(),
        staging: "/s".into(),
        target: "/t".into(),
        files: vec![],
    };
    let plan = plan_operation(&update, "stopped", false);
    assert_eq!(names(&plan), ["verify-files", "migrate-older", "apply"]);
    assert!(matches!(plan.reply, PlanReply::UpdateResult));
    let sync = plan_operation(&Operation::Sync { service: "s".into() }, "", false);
    assert_eq!(names(&sync), ["refresh", "configure", "cleanup"]);
    assert!(matches!(sync.reply, PlanReply::Updated));
    assert_eq!(
        names(&plan_operation(&Operation::Uninstall { service: "s".into() }, "", false)),
        ["read", "delete-task", "uninstall", "remove-helper", "discard", "cleanup"]
    );
    assert!(matches!(plan_operation(&Operation::Migrate { service: "s".into() }, "", false).reply, PlanReply::Migrated));
    assert_eq!(names(&plan_operation(&Operation::Restart { service: "s".into() }, "", false)), ["start(true)"]);
}

#[test]
fn startup_sync_migrates_older_services_and_refreshes_outdated_ones() {
    let name = |op: Option<Operation>| match op {
        Some(Operation::Migrate { service }) => format!("migrate {service}"),
        Some(Operation::Sync { service }) => format!("sync {service}"),
        Some(_) => "other".to_owned(),
        None => "none".to_owned(),
    };
    assert_eq!(name(startup_sync_request("not_installed", Some("sing-box".into()), None)), "migrate sing-box");
    assert_eq!(name(startup_sync_request("not_installed", None, Some(SyncNeed::Update))), "none");
    assert_eq!(name(startup_sync_request("running", Some("sing-box".into()), Some(SyncNeed::Update))), "sync singboard.service");
    assert_eq!(name(startup_sync_request("stopped", None, Some(SyncNeed::Migrate))), "sync singboard.service");
    assert_eq!(name(startup_sync_request("stopped", None, Some(SyncNeed::UpToDate))), "none");
    assert_eq!(startup_sync_report(false, None), "ok");
    assert_eq!(startup_sync_report(true, Some("migrated".into())), "migrated");
    assert_eq!(startup_sync_report(true, None), "updated");
}
