use singboard::core_update::{core_update_step, CoreUpdateAction, CoreUpdateEvent, CoreUpdateState};

fn ok() -> CoreUpdateEvent {
    CoreUpdateEvent::Done(Ok(()))
}

fn err(m: &str) -> CoreUpdateEvent {
    CoreUpdateEvent::Done(Err(m.to_owned()))
}

fn status(s: &str) -> CoreUpdateEvent {
    CoreUpdateEvent::Status(s.to_owned())
}

/// Feeds the events in turn and returns the name of every action asked for.
fn run(events: Vec<CoreUpdateEvent>) -> (Vec<String>, Option<Result<bool, String>>) {
    let (mut state, first) = CoreUpdateState::new();
    let mut actions = vec![name(&first)];
    let mut result = None;
    for event in events {
        let (next, action) = core_update_step(&state, event);
        if let CoreUpdateAction::Finish(r) = &action {
            result = Some(r.clone());
        }
        actions.push(name(&action));
        state = next;
    }
    (actions, result)
}

fn name(a: &CoreUpdateAction) -> String {
    match a {
        CoreUpdateAction::QueryStatus => "query",
        CoreUpdateAction::SwapAndRestart => "swap",
        CoreUpdateAction::ResolvePaths => "resolve",
        CoreUpdateAction::CaptureSnapshots => "capture",
        CoreUpdateAction::ProgressReplace => "progress-replace",
        CoreUpdateAction::StopService => "stop",
        CoreUpdateAction::ConfigurePrevious => "configure",
        CoreUpdateAction::StartService => "start",
        CoreUpdateAction::DiscardNext => "discard-next",
        CoreUpdateAction::ReplaceSources => "replace",
        CoreUpdateAction::PublishNext => "publish-next",
        CoreUpdateAction::ProgressRestart => "progress-restart",
        CoreUpdateAction::CheckRunning => "check",
        CoreUpdateAction::CommitSources => "commit",
        CoreUpdateAction::RollbackSources => "rollback",
        CoreUpdateAction::PublishPrevious => "publish-previous",
        CoreUpdateAction::DiscardPrevious => "discard-previous",
        CoreUpdateAction::Finish(_) => "finish",
    }
    .to_owned()
}

fn resolved() -> CoreUpdateEvent {
    CoreUpdateEvent::Resolved(r"C:\Core\sing-box.exe".to_owned(), r"c:\core\SING-BOX.EXE".to_owned())
}

#[test]
fn a_running_service_is_updated_and_restarted() {
    let (actions, result) = run(vec![
        status("running"), resolved(), ok(), ok(), ok(), ok(), ok(), ok(), ok(), ok(),
        status("running"), ok(), ok(),
    ]);
    assert_eq!(
        actions,
        vec![
            "query", "resolve", "capture", "progress-replace", "stop", "configure", "replace",
            "publish-next", "progress-restart", "start", "check", "commit", "discard-previous",
            "finish"
        ]
    );
    assert_eq!(result, Some(Ok(true)));
}

#[test]
fn a_stopped_service_is_updated_without_a_restart() {
    let (actions, result) =
        run(vec![status("stopped"), resolved(), ok(), ok(), ok(), ok(), ok(), ok(), ok()]);
    assert_eq!(
        actions,
        vec![
            "query", "resolve", "capture", "progress-replace", "configure", "replace",
            "publish-next", "commit", "discard-previous", "finish"
        ]
    );
    assert_eq!(result, Some(Ok(false)));
}

#[test]
fn a_core_that_does_not_stay_up_is_rolled_back() {
    let (actions, result) = run(vec![
        status("running"), resolved(), ok(), ok(), ok(), ok(), ok(), ok(), ok(), ok(),
        status("stopped"), ok(), err("locked"), ok(), ok(), ok(),
    ]);
    assert_eq!(
        &actions[11..],
        &["stop", "rollback", "publish-previous", "start", "discard-next", "finish"]
    );
    assert_eq!(
        result,
        Some(Err("更新后的核心未保持运行; 恢复源核心文件失败: locked".to_owned()))
    );
}

#[test]
fn a_failed_stop_still_restores_both() {
    let (actions, result) = run(vec![
        status("stopped"), resolved(), ok(), ok(), ok(), ok(), err("publish failed"),
        err("busy"), ok(), ok(), ok(),
    ]);
    assert_eq!(
        &actions[7..],
        &["stop", "rollback", "publish-previous", "discard-next", "finish"]
    );
    assert_eq!(
        result,
        Some(Err("publish failed; 停止更新后的服务失败: busy".to_owned()))
    );
    let (actions, result) = run(vec![
        status("running"), resolved(), ok(), ok(), ok(), ok(), ok(), ok(), ok(), err("no start"),
        err("busy"), err("locked"), ok(), err("denied"),
    ]);
    assert_eq!(
        &actions[10..],
        &["stop", "rollback", "publish-previous", "start", "finish"]
    );
    assert_eq!(
        result,
        Some(Err(
            "no start; 停止更新后的服务失败: busy; 恢复源核心文件失败: locked; 恢复服务运行副本失败: denied"
                .to_owned()
        ))
    );
}

#[test]
fn failures_before_the_sources_are_touched_end_the_update() {
    let (_, result) = run(vec![
        status("running"),
        CoreUpdateEvent::Resolved("/a/sing-box.exe".to_owned(), "/b/sing-box.exe".to_owned()),
    ]);
    assert_eq!(
        result,
        Some(Err("所选核心路径与已安装服务的源路径不一致，请先重新安装服务".to_owned()))
    );
    let (actions, result) = run(vec![status("running"), resolved(), ok(), ok(), ok(), err("bad"), ok(), ok()]);
    assert_eq!(&actions[5..], &["configure", "start", "discard-next", "finish"]);
    assert_eq!(result, Some(Err("bad".to_owned())));
    let (actions, result) = run(vec![status("not_installed"), CoreUpdateEvent::Swapped(Ok(false))]);
    assert_eq!(actions, vec!["query", "swap", "finish"]);
    assert_eq!(result, Some(Ok(false)));
    // An answer of the wrong kind repeats the pending request.
    let (actions, _) = run(vec![ok()]);
    assert_eq!(actions, vec!["query", "query"]);
}
