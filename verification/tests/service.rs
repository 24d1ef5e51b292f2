use singboard::service::task_failure_message;
use singboard::service::{
    base_dir_candidates, check_migration, create_service_outcome, current_service_name,
    delete_refusal, deployed_helper_path, deployed_version_path, error_log_path,
    helper_needs_update, image_points_to, is_active_state, is_log_dir_name, join_errors,
    legacy_candidates, migration_failure, migration_restores_old, resolve_service_base_dir,
    scm_error, select_legacy_service, service_state_name, start_failure_message,
    start_needs_cleanup, start_progress, start_refusal, startup_task_name, startup_task_script,
    status_needs_uptime, stop_refusal, sync_need_of_host, sync_need_of_user, uptime_from_creation,
    CreateServiceOutcome, LegacyProbe, ServiceStatus, StartProgress, SyncNeed, DELETION_PENDING,
    SERVICE_NAME,
};

#[test]
fn service_image_matching_uses_the_executable_not_arguments_or_prefixes() {
    let path = r"C:\App Data\singboard.service";
    assert!(image_points_to(
        r#""c:\app data\singboard.service" service "singboard.service""#,
        path
    ));
    assert!(!image_points_to(r#""C:\App Data\singboard.service.old""#, path));
    assert!(!image_points_to(r#""C:\other.exe" "C:\App Data\singboard.service""#, path));
}

#[test]
fn unquoted_images_end_at_whitespace() {
    assert!(image_points_to("  /opt/svc run --flag", "/opt/svc"));
    assert!(!image_points_to("/opt/svc.old run", "/opt/svc"));
    assert!(!image_points_to("", "/opt/svc"));
    assert!(image_points_to("\"/opt/svc", "/opt/svc"));
}

#[test]
fn helper_paths_live_in_the_data_directory() {
    assert_eq!(deployed_helper_path("/data"), "/data/singboard.service");
    assert_eq!(deployed_version_path("/data"), "/data/singboard.service.version");
    assert_eq!(error_log_path("/var/log"), "/var/log/singbox_last_error.log");
}

#[test]
fn helper_is_redeployed_when_missing_or_outdated() {
    assert!(helper_needs_update(false, Some("1.0"), "1.0"));
    assert!(helper_needs_update(true, None, "1.0"));
    assert!(helper_needs_update(true, Some("0.9"), "1.0"));
    assert!(!helper_needs_update(true, Some(" 1.0\n"), "1.0"));
}

#[test]
fn log_directories_are_log_or_logs() {
    assert!(is_log_dir_name("log"));
    assert!(is_log_dir_name("LOGS"));
    assert!(!is_log_dir_name("logger"));
    assert!(!is_log_dir_name(""));
}

#[test]
fn base_directory_prefers_working_dir_then_config_then_core() {
    let c = base_dir_candidates("/bin/sing-box", " /etc/sb/config.json ", "  /work  ");
    assert_eq!(c, vec!["/work".to_owned(), "/etc/sb".to_owned(), "/bin".to_owned()]);
    let c = base_dir_candidates("/bin/sing-box", "/etc/sb/config.json", "   ");
    assert_eq!(c, vec!["/etc/sb".to_owned(), "/bin".to_owned()]);
    let pairs = vec![("/work".to_owned(), false), ("/etc/sb".to_owned(), true), ("/bin".to_owned(), true)];
    assert_eq!(resolve_service_base_dir(&pairs), Some("/etc/sb".to_owned()));
    let none = vec![("/work".to_owned(), false)];
    assert_eq!(resolve_service_base_dir(&none), None);
    assert_eq!(resolve_service_base_dir(&vec![]), None);
}

#[test]
fn status_reports_state_pid_and_running_uptime() {
    assert_eq!(service_state_name(4), "running");
    assert_eq!(service_state_name(1), "stopped");
    assert_eq!(service_state_name(2), "starting");
    assert_eq!(service_state_name(3), "stopping");
    assert_eq!(service_state_name(6), "stopping");
    assert_eq!(service_state_name(7), "stopped");
    assert_eq!(service_state_name(5), "starting");
    assert_eq!(service_state_name(99), "unknown");
    let s = ServiceStatus::from_query(4, 123, Some(60));
    assert_eq!((s.state.as_str(), s.pid, s.uptime_seconds), ("running", Some(123), Some(60)));
    let s = ServiceStatus::from_query(2, 123, Some(60));
    assert_eq!((s.state.as_str(), s.pid, s.uptime_seconds), ("starting", Some(123), None));
    let s = ServiceStatus::from_query(4, 0, Some(60));
    assert_eq!((s.pid, s.uptime_seconds), (None, None));
    let s = ServiceStatus::not_installed();
    assert_eq!((s.state.as_str(), s.pid, s.uptime_seconds), ("not_installed", None, None));
    assert!(status_needs_uptime(4, 1));
    assert!(!status_needs_uptime(4, 0));
    assert!(!status_needs_uptime(1, 1));
}

#[test]
fn uptime_counts_from_the_windows_file_time() {
    // 2024-01-01T00:00:00Z is 1704067200 Unix seconds, or 133485408000000000 in 100 ns units since 1601.
    let created: u64 = 133_485_408_000_000_000;
    let high = (created >> 32) as u32;
    let low = created as u32;
    assert_eq!(uptime_from_creation(high, low, 1_704_067_200 + 90), Some(90));
    assert_eq!(uptime_from_creation(high, low, 1_704_067_100), Some(0));
    assert_eq!(uptime_from_creation(0, 0, 1_704_067_200), None);
}

#[test]
fn active_states_are_running_and_starting() {
    assert!(is_active_state("running"));
    assert!(is_active_state("starting"));
    assert!(!is_active_state("stopping"));
    assert!(!is_active_state("Running"));
}

#[test]
fn deployment_checks_image_then_version_then_user() {
    assert!(matches!(
        sync_need_of_host("\"/old/singboard-service.exe\"", "/data/singboard.service", false),
        Some(SyncNeed::Migrate)
    ));
    assert!(matches!(
        sync_need_of_host("\"/data/singboard.service\" service", "/data/singboard.service", true),
        Some(SyncNeed::Update)
    ));
    assert!(sync_need_of_host("/data/singboard.service", "/data/singboard.service", false).is_none());
    assert!(matches!(sync_need_of_user("S-1-5-18", Some("S-1-5-18")), SyncNeed::UpToDate));
    assert!(matches!(sync_need_of_user("S-1-5-18", Some("S-1-5-19")), SyncNeed::Update));
    assert!(matches!(sync_need_of_user("S-1-5-18", None), SyncNeed::Update));
}

#[test]
fn current_service_prefers_the_installed_service() {
    assert_eq!(current_service_name("running", Some("old".to_owned())), SERVICE_NAME);
    assert_eq!(current_service_name("not_installed", Some("old".to_owned())), "old");
    assert_eq!(current_service_name("not_installed", None), SERVICE_NAME);
}

fn probe(name: &str, image: Option<&str>, has_params: bool) -> LegacyProbe {
    LegacyProbe::Service {
        name: name.to_owned(),
        image: image.map(|i| i.to_owned()),
        has_params,
    }
}

#[test]
fn legacy_service_is_found_once() {
    let candidates = legacy_candidates("/data", "/opt/panel.exe");
    assert_eq!(
        candidates,
        vec![
            "/data/singboard-service.exe".to_owned(),
            "/data/singboard.service".to_owned(),
            "/opt/panel.exe".to_owned()
        ]
    );
    let probes = vec![
        probe("Dhcp", Some("/windows/svchost.exe -k x"), false),
        probe("SingBoard.Service", Some("/data/singboard.service"), true),
        probe("sing-box", Some("\"/opt/panel.exe\" service"), true),
        probe("no-params", Some("/data/singboard-service.exe"), false),
    ];
    assert_eq!(select_legacy_service(&probes, &candidates), Ok(Some("sing-box".to_owned())));

    let mut two = probes;
    two.push(probe("another", Some("/data/singboard-service.exe"), true));
    assert_eq!(
        select_legacy_service(&two, &candidates),
        Err("发现多个旧版 singboard 服务，无法唯一确定迁移对象".to_owned())
    );

    let unreadable = vec![LegacyProbe::Unreadable("access denied".to_owned()), probe("x", None, true)];
    assert_eq!(select_legacy_service(&unreadable, &candidates), Err("access denied".to_owned()));
    assert_eq!(select_legacy_service(&vec![], &candidates), Ok(None));
}

#[test]
fn migration_needs_the_same_legacy_service_and_no_new_one() {
    assert!(check_migration(Some("old"), "old", "not_installed").is_ok());
    let changed = Err("服务安装状态已变化，请重新打开面板后重试迁移".to_owned());
    assert_eq!(check_migration(Some("other"), "old", "not_installed"), changed);
    assert_eq!(check_migration(None, "old", "not_installed"), changed);
    assert_eq!(check_migration(Some("old"), "old", "stopped"), changed);
}

#[test]
fn failed_migrations_report_every_undo_failure() {
    assert!(migration_restores_old(true, None));
    assert!(migration_restores_old(true, Some(&Ok(()))));
    assert!(!migration_restores_old(true, Some(&Err("x".to_owned()))));
    assert!(!migration_restores_old(false, None));
    assert_eq!(migration_failure("boom", None, None, None), "boom");
    assert_eq!(
        migration_failure(
            "boom",
            Some(&Err("a".to_owned())),
            Some(&Err("b".to_owned())),
            Some(&Err("c".to_owned()))
        ),
        "boom; 撤销新服务失败: a; b; 恢复旧服务失败: c"
    );
    assert_eq!(
        migration_failure("boom", Some(&Ok(())), Some(&Err("b".to_owned())), Some(&Ok(()))),
        "boom; b"
    );
    assert_eq!(join_errors(&vec![]), "");
    assert_eq!(join_errors(&vec!["x".to_owned(), "y".to_owned()]), "x; y");
}

#[test]
fn startup_task_script_clamps_the_delay() {
    assert_eq!(startup_task_name("svc"), "singboard-autostart-svc");
    let script = startup_task_script("o'svc", 7200);
    assert!(script.contains("-Argument 'start o''svc';"));
    assert!(script.contains("$t.Delay='PT3600S';"));
    assert!(script.contains("-TaskName 'singboard-autostart-o''svc' -Action"));
    assert!(script.ends_with("expected PT3600S, actual $actual\" }"));
    let script = startup_task_script("svc", 15);
    assert!(script.contains("$t.Delay='PT15S';"));
    assert!(script.starts_with("$u=[System.Security.Principal.WindowsIdentity]::GetCurrent().Name;"));
}

#[test]
fn service_manager_errors_are_reported_with_their_code() {
    assert_eq!(scm_error("OpenService", 5), "OpenService failed: error 5");
    assert_eq!(start_refusal(1056), Ok(()));
    assert_eq!(start_refusal(2), Err("StartService failed: error 2".to_owned()));
    assert_eq!(stop_refusal(1062), Ok(()));
    assert_eq!(stop_refusal(5), Err("ControlService(STOP) failed: error 5".to_owned()));
    assert_eq!(delete_refusal(1072), Ok(()));
    assert_eq!(delete_refusal(1060), Err("DeleteService failed: error 1060".to_owned()));
    assert!(matches!(create_service_outcome(1073), CreateServiceOutcome::UpdateExisting));
    assert!(matches!(create_service_outcome(1072), CreateServiceOutcome::WaitForDeletion));
    match create_service_outcome(5) {
        CreateServiceOutcome::Fail(e) => assert_eq!(e, "CreateService failed: error 5"),
        _ => panic!("a refusal must fail"),
    }
    assert!(DELETION_PENDING.starts_with("服务已被标记删除"));
}

#[test]
fn starts_wait_for_running_or_stopped() {
    assert!(start_needs_cleanup(2));
    assert!(start_needs_cleanup(3));
    assert!(!start_needs_cleanup(1));
    assert!(matches!(start_progress(4), StartProgress::Running));
    assert!(matches!(start_progress(1), StartProgress::Stopped));
    assert!(matches!(start_progress(2), StartProgress::Pending));
    assert_eq!(start_failure_message(""), "服务启动后立即退出，可能是配置文件有误，请检查配置");
    assert_eq!(start_failure_message("bad config"), "服务启动失败:\nbad config");
}

#[test]
fn task_failures_prefer_error_output() {
    assert_eq!(task_failure_message(" denied \r\n", "out", Some(1)), "创建任务计划失败: denied");
    assert_eq!(task_failure_message("  ", " out ", Some(1)), "创建任务计划失败: out");
    assert_eq!(task_failure_message("", "", Some(-2147483648)), "创建任务计划失败: exit code Some(-2147483648)");
    assert_eq!(task_failure_message("", "", Some(3)), "创建任务计划失败: exit code Some(3)");
    assert_eq!(task_failure_message("", "", None), "创建任务计划失败: exit code None");
    assert_eq!(format!("{:?}", Some(-2147483648i32)), "Some(-2147483648)");
}
