use singboard::migration::{migration_step, MigrationAction, MigrationEvent, MigrationState};

fn ok() -> MigrationEvent {
    MigrationEvent::Done(Ok(()))
}

fn err(m: &str) -> MigrationEvent {
    MigrationEvent::Done(Err(m.to_owned()))
}

fn name(a: &MigrationAction) -> &'static str {
    match a {
        MigrationAction::FindServices => "find",
        MigrationAction::ReadOldParams => "params",
        MigrationAction::QueryOldStatus => "status",
        MigrationAction::StopOld => "stop-old",
        MigrationAction::DeployHelper => "deploy",
        MigrationAction::InstallNew => "install",
        MigrationAction::WriteParams => "write-params",
        MigrationAction::WritePanelSid => "write-sid",
        MigrationAction::CopyTask => "copy-task",
        MigrationAction::StartNew => "start-new",
        MigrationAction::UninstallNew => "uninstall-new",
        MigrationAction::DeleteNewTask => "delete-new-task",
        MigrationAction::StartOld => "start-old",
        MigrationAction::UninstallOld => "uninstall-old",
        MigrationAction::DeleteOldTask => "delete-old-task",
        MigrationAction::CleanupLegacyFiles => "cleanup",
        MigrationAction::Finish(_) => "finish",
    }
}

fn run(events: Vec<MigrationEvent>) -> (Vec<&'static str>, Option<Result<(), String>>) {
    let (mut state, first) = MigrationState::new("sing-box".to_owned());
    let mut actions = vec![name(&first)];
    let mut result = None;
    for event in events {
        let (next, action) = migration_step(&state, event);
        if let MigrationAction::Finish(r) = &action {
            result = Some(r.clone());
        }
        actions.push(name(&action));
        state = next;
    }
    (actions, result)
}

fn found() -> MigrationEvent {
    MigrationEvent::Found(Some("sing-box".to_owned()), "not_installed".to_owned())
}

#[test]
fn a_running_service_is_migrated_and_the_old_one_removed() {
    let (actions, result) = run(vec![
        found(), ok(), MigrationEvent::Status("running".to_owned()), ok(), ok(), ok(), ok(), ok(),
        MigrationEvent::Copied(Ok(true)), ok(), ok(), ok(), ok(),
    ]);
    assert_eq!(
        actions,
        vec![
            "find", "params", "status", "stop-old", "deploy", "install", "write-params",
            "write-sid", "copy-task", "start-new", "uninstall-old", "delete-old-task", "cleanup",
            "finish"
        ]
    );
    assert_eq!(result, Some(Ok(())));
}

#[test]
fn a_failed_start_undoes_the_new_service_newest_first() {
    let (actions, result) = run(vec![
        found(), ok(), MigrationEvent::Status("running".to_owned()), ok(), ok(), ok(), ok(), ok(),
        MigrationEvent::Copied(Ok(true)), err("start failed"), ok(), err("task busy"),
        err("old broken"),
    ]);
    assert_eq!(&actions[9..], &["start-new", "uninstall-new", "delete-new-task", "start-old", "finish"]);
    assert_eq!(
        result,
        Some(Err("start failed; task busy; 恢复旧服务失败: old broken".to_owned()))
    );
}

#[test]
fn an_old_service_is_not_restarted_beside_a_new_one_left_behind() {
    let (actions, result) = run(vec![
        found(), ok(), MigrationEvent::Status("running".to_owned()), ok(), ok(), ok(),
        err("params failed"), err("in use"),
    ]);
    assert_eq!(&actions[6..], &["write-params", "uninstall-new", "finish"]);
    assert_eq!(result, Some(Err("params failed; 撤销新服务失败: in use".to_owned())));
}

#[test]
fn migration_checks_and_cleanup_failures() {
    let (_, result) = run(vec![MigrationEvent::Found(Some("other".to_owned()), "not_installed".to_owned())]);
    assert_eq!(result, Some(Err("服务安装状态已变化，请重新打开面板后重试迁移".to_owned())));
    let (actions, result) = run(vec![
        found(), ok(), MigrationEvent::Status("stopped".to_owned()), ok(), err("deploy failed"),
    ]);
    assert_eq!(&actions[4..], &["deploy", "finish"]);
    assert_eq!(result, Some(Err("deploy failed".to_owned())));
    let (_, result) = run(vec![
        found(), ok(), MigrationEvent::Status("stopped".to_owned()), ok(), ok(), ok(), ok(), ok(),
        MigrationEvent::Copied(Ok(false)), err("denied"),
    ]);
    assert_eq!(result, Some(Err("新服务已就绪，清理旧服务失败: denied".to_owned())));
}
