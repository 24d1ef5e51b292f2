//! The decisions of migrating an older service to this panel's own service:
//! the new service is set up beside the old one, the old one is removed only
//! once the new one is ready, and a failure undoes what was set up. Each step
//! takes the outcome of the outside work the previous step asked for and
//! names the next piece of work.
use vstd::prelude::*;
use crate::digest::concat_strs;
use crate::service::{check_migration, migration_failure, migration_failure_spec};
use crate::text::{chars_of, same_chars};
use crate::update::outcome_view;

verus! {

/// Where a migration stands: which piece of outside work it waits for.
#[derive(Clone, Copy)]
pub enum MigrationPhase {
    AwaitCheck,
    AwaitParams,
    AwaitOldStatus,
    AwaitStopOld,
    AwaitDeploy,
    AwaitInstall,
    AwaitWriteParams,
    AwaitWriteSid,
    AwaitCopyTask,
    AwaitStartNew,
    AwaitUndoService,
    AwaitUndoTask,
    AwaitRestartOld,
    AwaitRemoveOld,
    AwaitRemoveOldTask,
    AwaitCleanup,
    Finished,
}

/// The outside work a migration asks for next.
pub enum MigrationAction {
    /// Find the older service in the registry and read the state of this
    /// panel's own service.
    FindServices,
    /// Read the old service's core, configuration and working directory.
    ReadOldParams,
    /// Read the old service's state.
    QueryOldStatus,
    StopOld,
    /// Deploy the service host into the data directory.
    DeployHelper,
    /// Create this panel's own service on the deployed host.
    InstallNew,
    /// Record the old service's core, configuration and working directory for the new one.
    WriteParams,
    /// Record the panel user's SID for the new service.
    WritePanelSid,
    /// Copy the old service's logon task to the new service, if it has one.
    CopyTask,
    StartNew,
    UninstallNew,
    DeleteNewTask,
    StartOld,
    UninstallOld,
    DeleteOldTask,
    /// Remove files of older installations once no older service remains.
    CleanupLegacyFiles,
    Finish(Result<(), String>),
}

/// The outcome of the outside work last asked for.
pub enum MigrationEvent {
    /// The older service found (if any) and the state of the own service.
    Found(Option<String>, String),
    /// The old service's state.
    Status(String),
    /// Whether a logon task was copied.
    Copied(Result<bool, String>),
    /// The result of any other piece of work (or of a failed read).
    Done(Result<(), String>),
}

/// A migration in progress.
pub struct MigrationState {
    pub phase: MigrationPhase,
    /// The older service asked to be migrated.
    pub old_name: String,
    pub was_running: bool,
    /// Whether the new service was created.
    pub created: bool,
    /// Whether the logon task was copied.
    pub copied_task: bool,
    /// The failure being undone.
    pub error: String,
    pub removed_new: Option<Result<(), String>>,
    pub removed_task: Option<Result<(), String>>,
    pub result: Option<Result<(), String>>,
}

#[verifier::ext_equal]
pub struct MigrationStateView {
    pub phase: MigrationPhase,
    pub old_name: Seq<char>,
    pub was_running: bool,
    pub created: bool,
    pub copied_task: bool,
    pub error: Seq<char>,
    pub removed_new: Option<Result<(), Seq<char>>>,
    pub removed_task: Option<Result<(), Seq<char>>>,
    pub result: Option<Result<(), Seq<char>>>,
}

pub enum MigrationActionView {
    FindServices,
    ReadOldParams,
    QueryOldStatus,
    StopOld,
    DeployHelper,
    InstallNew,
    WriteParams,
    WritePanelSid,
    CopyTask,
    StartNew,
    UninstallNew,
    DeleteNewTask,
    StartOld,
    UninstallOld,
    DeleteOldTask,
    CleanupLegacyFiles,
    Finish(Result<(), Seq<char>>),
}

pub enum MigrationEventView {
    Found(Option<Seq<char>>, Seq<char>),
    Status(Seq<char>),
    Copied(Result<bool, Seq<char>>),
    Done(Result<(), Seq<char>>),
}

pub open spec fn opt_view(r: Option<Result<(), String>>) -> Option<Result<(), Seq<char>>> {
    match r {
        Some(r) => Some(outcome_view(r)),
        None => None,
    }
}

impl View for MigrationState {
    type V = MigrationStateView;

    open spec fn view(&self) -> MigrationStateView {
        MigrationStateView {
            phase: self.phase,
            old_name: self.old_name@,
            was_running: self.was_running,
            created: self.created,
            copied_task: self.copied_task,
            error: self.error@,
            removed_new: opt_view(self.removed_new),
            removed_task: opt_view(self.removed_task),
            result: opt_view(self.result),
        }
    }
}

impl View for MigrationAction {
    type V = MigrationActionView;

    open spec fn view(&self) -> MigrationActionView {
        match self {
            MigrationAction::FindServices => MigrationActionView::FindServices,
            MigrationAction::ReadOldParams => MigrationActionView::ReadOldParams,
            MigrationAction::QueryOldStatus => MigrationActionView::QueryOldStatus,
            MigrationAction::StopOld => MigrationActionView::StopOld,
            MigrationAction::DeployHelper => MigrationActionView::DeployHelper,
            MigrationAction::InstallNew => MigrationActionView::InstallNew,
            MigrationAction::WriteParams => MigrationActionView::WriteParams,
            MigrationAction::WritePanelSid => MigrationActionView::WritePanelSid,
            MigrationAction::CopyTask => MigrationActionView::CopyTask,
            MigrationAction::StartNew => MigrationActionView::StartNew,
            MigrationAction::UninstallNew => MigrationActionView::UninstallNew,
            MigrationAction::DeleteNewTask => MigrationActionView::DeleteNewTask,
            MigrationAction::StartOld => MigrationActionView::StartOld,
            MigrationAction::UninstallOld => MigrationActionView::UninstallOld,
            MigrationAction::DeleteOldTask => MigrationActionView::DeleteOldTask,
            MigrationAction::CleanupLegacyFiles => MigrationActionView::CleanupLegacyFiles,
            MigrationAction::Finish(r) => MigrationActionView::Finish(outcome_view(*r)),
        }
    }
}

impl View for MigrationEvent {
    type V = MigrationEventView;

    open spec fn view(&self) -> MigrationEventView {
        match self {
            MigrationEvent::Found(l, st) => MigrationEventView::Found(
                match l {
                    Some(n) => Some(n@),
                    None => None,
                },
                st@,
            ),
            MigrationEvent::Status(st) => MigrationEventView::Status(st@),
            MigrationEvent::Copied(r) => MigrationEventView::Copied(
                match r {
                    Ok(b) => Ok(*b),
                    Err(e) => Err(e@),
                },
            ),
            MigrationEvent::Done(r) => MigrationEventView::Done(outcome_view(*r)),
        }
    }
}

pub open spec fn msg_state_changed() -> Seq<char> {
    "服务安装状态已变化，请重新打开面板后重试迁移"@
}

/// The work a migration in its phase waits for.
pub open spec fn migration_pending(s: MigrationStateView) -> MigrationActionView {
    match s.phase {
        MigrationPhase::AwaitCheck => MigrationActionView::FindServices,
        MigrationPhase::AwaitParams => MigrationActionView::ReadOldParams,
        MigrationPhase::AwaitOldStatus => MigrationActionView::QueryOldStatus,
        MigrationPhase::AwaitStopOld => MigrationActionView::StopOld,
        MigrationPhase::AwaitDeploy => MigrationActionView::DeployHelper,
        MigrationPhase::AwaitInstall => MigrationActionView::InstallNew,
        MigrationPhase::AwaitWriteParams => MigrationActionView::WriteParams,
        MigrationPhase::AwaitWriteSid => MigrationActionView::WritePanelSid,
        MigrationPhase::AwaitCopyTask => MigrationActionView::CopyTask,
        MigrationPhase::AwaitStartNew => MigrationActionView::StartNew,
        MigrationPhase::AwaitUndoService => MigrationActionView::UninstallNew,
        MigrationPhase::AwaitUndoTask => MigrationActionView::DeleteNewTask,
        MigrationPhase::AwaitRestartOld => MigrationActionView::StartOld,
        MigrationPhase::AwaitRemoveOld => MigrationActionView::UninstallOld,
        MigrationPhase::AwaitRemoveOldTask => MigrationActionView::DeleteOldTask,
        MigrationPhase::AwaitCleanup => MigrationActionView::CleanupLegacyFiles,
        MigrationPhase::Finished => MigrationActionView::Finish(
            match s.result {
                Some(r) => r,
                None => Err(Seq::empty()),
            },
        ),
    }
}

pub open spec fn mgo(s: MigrationStateView, p: MigrationPhase) -> (MigrationStateView, MigrationActionView) {
    let t = MigrationStateView { phase: p, ..s };
    (t, migration_pending(t))
}

pub open spec fn mfinish(s: MigrationStateView, r: Result<(), Seq<char>>) -> (
    MigrationStateView,
    MigrationActionView,
) {
    (
        MigrationStateView { phase: MigrationPhase::Finished, result: Some(r), ..s },
        MigrationActionView::Finish(r),
    )
}

/// Whether the old service is started again: only when it ran and no new
/// service is left behind.
pub open spec fn restores_old(s: MigrationStateView) -> bool {
    s.was_running && !(s.removed_new matches Some(r) && r is Err)
}

/// After the task undo (or in its place): restart the old service, or report.
pub open spec fn after_task_undo(s: MigrationStateView) -> (MigrationStateView, MigrationActionView) {
    if restores_old(s) {
        mgo(s, MigrationPhase::AwaitRestartOld)
    } else {
        mfinish(s, Err(migration_failure_spec(s.error, s.removed_new, s.removed_task, None)))
    }
}

/// After the service undo (or in its place): remove a copied task next.
pub open spec fn after_service_undo(s: MigrationStateView) -> (MigrationStateView, MigrationActionView) {
    if s.copied_task {
        mgo(s, MigrationPhase::AwaitUndoTask)
    } else {
        after_task_undo(s)
    }
}

/// Setting up the new service failed with `m`: undo it, newest first.
pub open spec fn undo(s: MigrationStateView, m: Seq<char>) -> (MigrationStateView, MigrationActionView) {
    let t = MigrationStateView { error: m, ..s };
    if t.created {
        mgo(t, MigrationPhase::AwaitUndoService)
    } else {
        after_service_undo(t)
    }
}

/// The migration's next state and work once `e` answers the work `s` waits
/// for. An answer of the wrong kind leaves the state as it is.
pub open spec fn migration_step_spec(s: MigrationStateView, e: MigrationEventView) -> (
    MigrationStateView,
    MigrationActionView,
) {
    let stay = (s, migration_pending(s));
    match s.phase {
        MigrationPhase::AwaitCheck => match e {
            MigrationEventView::Found(l, st) => if (l matches Some(n) && n == s.old_name)
                && st == "not_installed"@ {
                mgo(s, MigrationPhase::AwaitParams)
            } else {
                mfinish(s, Err(msg_state_changed()))
            },
            MigrationEventView::Done(Err(m)) => mfinish(s, Err(m)),
            _ => stay,
        },
        MigrationPhase::AwaitParams => match e {
            MigrationEventView::Done(Ok(_)) => mgo(s, MigrationPhase::AwaitOldStatus),
            MigrationEventView::Done(Err(m)) => mfinish(s, Err(m)),
            _ => stay,
        },
        MigrationPhase::AwaitOldStatus => match e {
            MigrationEventView::Status(st) => mgo(
                MigrationStateView { was_running: st == "running"@ || st == "starting"@, ..s },
                MigrationPhase::AwaitStopOld,
            ),
            MigrationEventView::Done(Err(m)) => mfinish(s, Err(m)),
            _ => stay,
        },
        MigrationPhase::AwaitStopOld => match e {
            MigrationEventView::Done(Ok(_)) => mgo(s, MigrationPhase::AwaitDeploy),
            MigrationEventView::Done(Err(m)) => mfinish(s, Err(m)),
            _ => stay,
        },
        MigrationPhase::AwaitDeploy => match e {
            MigrationEventView::Done(Ok(_)) => mgo(s, MigrationPhase::AwaitInstall),
            MigrationEventView::Done(Err(m)) => undo(s, m),
            _ => stay,
        },
        MigrationPhase::AwaitInstall => match e {
            MigrationEventView::Done(Ok(_)) => mgo(
                MigrationStateView { created: true, ..s },
                MigrationPhase::AwaitWriteParams,
            ),
            MigrationEventView::Done(Err(m)) => undo(s, m),
            _ => stay,
        },
        MigrationPhase::AwaitWriteParams => match e {
            MigrationEventView::Done(Ok(_)) => mgo(s, MigrationPhase::AwaitWriteSid),
            MigrationEventView::Done(Err(m)) => undo(s, m),
            _ => stay,
        },
        MigrationPhase::AwaitWriteSid => match e {
            MigrationEventView::Done(Ok(_)) => mgo(s, MigrationPhase::AwaitCopyTask),
            MigrationEventView::Done(Err(m)) => undo(s, m),
            _ => stay,
        },
        MigrationPhase::AwaitCopyTask => match e {
            MigrationEventView::Copied(Ok(b)) => {
                let t = MigrationStateView { copied_task: b, ..s };
                if t.was_running {
                    mgo(t, MigrationPhase::AwaitStartNew)
                } else {
                    mgo(t, MigrationPhase::AwaitRemoveOld)
                }
            },
            MigrationEventView::Copied(Err(m)) => undo(s, m),
            MigrationEventView::Done(Err(m)) => undo(s, m),
            _ => stay,
        },
        MigrationPhase::AwaitStartNew => match e {
            MigrationEventView::Done(Ok(_)) => mgo(s, MigrationPhase::AwaitRemoveOld),
            MigrationEventView::Done(Err(m)) => undo(s, m),
            _ => stay,
        },
        MigrationPhase::AwaitUndoService => match e {
            MigrationEventView::Done(r) => after_service_undo(
                MigrationStateView { removed_new: Some(r), ..s },
            ),
            _ => stay,
        },
        MigrationPhase::AwaitUndoTask => match e {
            MigrationEventView::Done(r) => after_task_undo(
                MigrationStateView { removed_task: Some(r), ..s },
            ),
            _ => stay,
        },
        MigrationPhase::AwaitRestartOld => match e {
            MigrationEventView::Done(r) => mfinish(
                s,
                Err(migration_failure_spec(s.error, s.removed_new, s.removed_task, Some(r))),
            ),
            _ => stay,
        },
        MigrationPhase::AwaitRemoveOld => match e {
            MigrationEventView::Done(Ok(_)) => mgo(s, MigrationPhase::AwaitRemoveOldTask),
            MigrationEventView::Done(Err(m)) => mfinish(s, Err("新服务已就绪，清理旧服务失败: "@ + m)),
            _ => stay,
        },
        MigrationPhase::AwaitRemoveOldTask => match e {
            MigrationEventView::Done(Ok(_)) => mgo(s, MigrationPhase::AwaitCleanup),
            MigrationEventView::Done(Err(m)) => mfinish(s, Err("服务已迁移，清理旧自启任务失败: "@ + m)),
            _ => stay,
        },
        MigrationPhase::AwaitCleanup => match e {
            MigrationEventView::Done(r) => mfinish(s, r),
            _ => stay,
        },
        MigrationPhase::Finished => stay,
    }
}

fn clone_outcome(r: &Result<(), String>) -> (res: Result<(), String>)
    ensures
        outcome_view(res) == outcome_view(*r),
{
    match r {
        Ok(_) => Ok(()),
        Err(e) => Err(e.clone()),
    }
}

fn clone_opt(r: &Option<Result<(), String>>) -> (res: Option<Result<(), String>>)
    ensures
        opt_view(res) == opt_view(*r),
{
    match r {
        Some(r) => Some(clone_outcome(r)),
        None => None,
    }
}

impl MigrationState {
    /// A migration of the older service `old_name` that has not asked for anything yet.
    pub open spec fn initial(old_name: Seq<char>) -> MigrationStateView {
        MigrationStateView {
            phase: MigrationPhase::AwaitCheck,
            old_name,
            was_running: false,
            created: false,
            copied_task: false,
            error: Seq::empty(),
            removed_new: None,
            removed_task: None,
            result: None,
        }
    }

    /// Starts migrating `old_name`: the first work is checking that it is
    /// still the older service found and that the own service is still missing.
    pub fn new(old_name: String) -> (res: (MigrationState, MigrationAction))
        ensures
            res.0@ == Self::initial(old_name@),
            res.1@ == MigrationActionView::FindServices,
    {
        (
            MigrationState {
                phase: MigrationPhase::AwaitCheck,
                old_name,
                was_running: false,
                created: false,
                copied_task: false,
                error: String::new(),
                removed_new: None,
                removed_task: None,
                result: None,
            },
            MigrationAction::FindServices,
        )
    }

    fn copy_with(&self, phase: MigrationPhase) -> (res: MigrationState)
        ensures
            res@ == (MigrationStateView { phase, ..self@ }),
    {
        MigrationState {
            phase,
            old_name: self.old_name.clone(),
            was_running: self.was_running,
            created: self.created,
            copied_task: self.copied_task,
            error: self.error.clone(),
            removed_new: clone_opt(&self.removed_new),
            removed_task: clone_opt(&self.removed_task),
            result: clone_opt(&self.result),
        }
    }

    /// The work this migration waits for.
    pub fn pending(&self) -> (res: MigrationAction)
        ensures
            res@ == migration_pending(self@),
    {
        match self.phase {
            MigrationPhase::AwaitCheck => MigrationAction::FindServices,
            MigrationPhase::AwaitParams => MigrationAction::ReadOldParams,
            MigrationPhase::AwaitOldStatus => MigrationAction::QueryOldStatus,
            MigrationPhase::AwaitStopOld => MigrationAction::StopOld,
            MigrationPhase::AwaitDeploy => MigrationAction::DeployHelper,
            MigrationPhase::AwaitInstall => MigrationAction::InstallNew,
            MigrationPhase::AwaitWriteParams => MigrationAction::WriteParams,
            MigrationPhase::AwaitWriteSid => MigrationAction::WritePanelSid,
            MigrationPhase::AwaitCopyTask => MigrationAction::CopyTask,
            MigrationPhase::AwaitStartNew => MigrationAction::StartNew,
            MigrationPhase::AwaitUndoService => MigrationAction::UninstallNew,
            MigrationPhase::AwaitUndoTask => MigrationAction::DeleteNewTask,
            MigrationPhase::AwaitRestartOld => MigrationAction::StartOld,
            MigrationPhase::AwaitRemoveOld => MigrationAction::UninstallOld,
            MigrationPhase::AwaitRemoveOldTask => MigrationAction::DeleteOldTask,
            MigrationPhase::AwaitCleanup => MigrationAction::CleanupLegacyFiles,
            MigrationPhase::Finished => MigrationAction::Finish(
                match &self.result {
                    Some(r) => clone_outcome(r),
                    None => Err(String::new()),
                },
            ),
        }
    }

    fn go(&self, phase: MigrationPhase) -> (res: (MigrationState, MigrationAction))
        ensures
            res.0@ == mgo(self@, phase).0,
            res.1@ == mgo(self@, phase).1,
    {
        let t = self.copy_with(phase);
        let a = t.pending();
        (t, a)
    }

    fn finish(&self, r: Result<(), String>) -> (res: (MigrationState, MigrationAction))
        ensures
            res.0@ == mfinish(self@, outcome_view(r)).0,
            res.1@ == mfinish(self@, outcome_view(r)).1,
    {
        let mut t = self.copy_with(MigrationPhase::Finished);
        t.result = Some(clone_outcome(&r));
        (t, MigrationAction::Finish(r))
    }

    fn after_task_undo(&self) -> (res: (MigrationState, MigrationAction))
        ensures
            res.0@ == after_task_undo(self@).0,
            res.1@ == after_task_undo(self@).1,
    {
        let safe = match &self.removed_new {
            Some(Err(_)) => false,
            _ => true,
        };
        if self.was_running && safe {
            self.go(MigrationPhase::AwaitRestartOld)
        } else {
            let msg = migration_failure(
                self.error.as_str(),
                self.removed_new.as_ref(),
                self.removed_task.as_ref(),
                None,
            );
            self.finish(Err(msg))
        }
    }

    fn after_service_undo(&self) -> (res: (MigrationState, MigrationAction))
        ensures
            res.0@ == after_service_undo(self@).0,
            res.1@ == after_service_undo(self@).1,
    {
        if self.copied_task {
            self.go(MigrationPhase::AwaitUndoTask)
        } else {
            self.after_task_undo()
        }
    }

    fn undo(&self, m: String) -> (res: (MigrationState, MigrationAction))
        ensures
            res.0@ == undo(self@, m@).0,
            res.1@ == undo(self@, m@).1,
    {
        let mut t = self.copy_with(self.phase);
        t.error = m;
        if t.created {
            t.go(MigrationPhase::AwaitUndoService)
        } else {
            t.after_service_undo()
        }
    }
}

#[verifier::rlimit(40)]
fn migration_setup(state: &MigrationState, event: MigrationEvent) -> (res: (MigrationState, MigrationAction))
    requires
        state.phase is AwaitCheck || state.phase is AwaitParams || state.phase is AwaitOldStatus
            || state.phase is AwaitStopOld || state.phase is AwaitDeploy || state.phase is AwaitInstall
            || state.phase is AwaitWriteParams || state.phase is AwaitWriteSid,
    ensures
        res.0@ == migration_step_spec(state@, event@).0,
        res.1@ == migration_step_spec(state@, event@).1,
{
    let s = state;
    match s.phase {
        MigrationPhase::AwaitCheck => match event {
            MigrationEvent::Found(l, st) => {
                let legacy: Option<&str> = match &l {
                    Some(n) => Some(n.as_str()),
                    None => None,
                };
                match check_migration(legacy, s.old_name.as_str(), st.as_str()) {
                    Ok(()) => s.go(MigrationPhase::AwaitParams),
                    Err(m) => s.finish(Err(m)),
                }
            },
            MigrationEvent::Done(Err(m)) => s.finish(Err(m)),
            _ => (s.copy_with(s.phase), s.pending()),
        },
        MigrationPhase::AwaitParams => match event {
            MigrationEvent::Done(Ok(_)) => s.go(MigrationPhase::AwaitOldStatus),
            MigrationEvent::Done(Err(m)) => s.finish(Err(m)),
            _ => (s.copy_with(s.phase), s.pending()),
        },
        MigrationPhase::AwaitOldStatus => match event {
            MigrationEvent::Status(st) => {
                let chars = chars_of(st.as_str());
                let mut t = s.copy_with(s.phase);
                t.was_running = same_chars(&chars, "running") || same_chars(&chars, "starting");
                t.go(MigrationPhase::AwaitStopOld)
            },
            MigrationEvent::Done(Err(m)) => s.finish(Err(m)),
            _ => (s.copy_with(s.phase), s.pending()),
        },
        MigrationPhase::AwaitStopOld => match event {
            MigrationEvent::Done(Ok(_)) => s.go(MigrationPhase::AwaitDeploy),
            MigrationEvent::Done(Err(m)) => s.finish(Err(m)),
            _ => (s.copy_with(s.phase), s.pending()),
        },
        MigrationPhase::AwaitDeploy => match event {
            MigrationEvent::Done(Ok(_)) => s.go(MigrationPhase::AwaitInstall),
            MigrationEvent::Done(Err(m)) => s.undo(m),
            _ => (s.copy_with(s.phase), s.pending()),
        },
        MigrationPhase::AwaitInstall => match event {
            MigrationEvent::Done(Ok(_)) => {
                let mut t = s.copy_with(s.phase);
                t.created = true;
                t.go(MigrationPhase::AwaitWriteParams)
            },
            MigrationEvent::Done(Err(m)) => s.undo(m),
            _ => (s.copy_with(s.phase), s.pending()),
        },
        MigrationPhase::AwaitWriteParams => match event {
            MigrationEvent::Done(Ok(_)) => s.go(MigrationPhase::AwaitWriteSid),
            MigrationEvent::Done(Err(m)) => s.undo(m),
            _ => (s.copy_with(s.phase), s.pending()),
        },
        MigrationPhase::AwaitWriteSid => match event {
            MigrationEvent::Done(Ok(_)) => s.go(MigrationPhase::AwaitCopyTask),
            MigrationEvent::Done(Err(m)) => s.undo(m),
            _ => (s.copy_with(s.phase), s.pending()),
        },
        _ => (s.copy_with(s.phase), s.pending()),
    }
}

#[verifier::rlimit(40)]
fn migration_finish(state: &MigrationState, event: MigrationEvent) -> (res: (MigrationState, MigrationAction))
    requires
        !(state.phase is AwaitCheck || state.phase is AwaitParams || state.phase is AwaitOldStatus
            || state.phase is AwaitStopOld || state.phase is AwaitDeploy || state.phase is AwaitInstall
            || state.phase is AwaitWriteParams || state.phase is AwaitWriteSid),
    ensures
        res.0@ == migration_step_spec(state@, event@).0,
        res.1@ == migration_step_spec(state@, event@).1,
{
    let s = state;
    match s.phase {
        MigrationPhase::AwaitCopyTask => match event {
            MigrationEvent::Copied(Ok(b)) => {
                let mut t = s.copy_with(s.phase);
                t.copied_task = b;
                if t.was_running {
                    t.go(MigrationPhase::AwaitStartNew)
                } else {
                    t.go(MigrationPhase::AwaitRemoveOld)
                }
            },
            MigrationEvent::Copied(Err(m)) => s.undo(m),
            MigrationEvent::Done(Err(m)) => s.undo(m),
            _ => (s.copy_with(s.phase), s.pending()),
        },
        MigrationPhase::AwaitStartNew => match event {
            MigrationEvent::Done(Ok(_)) => s.go(MigrationPhase::AwaitRemoveOld),
            MigrationEvent::Done(Err(m)) => s.undo(m),
            _ => (s.copy_with(s.phase), s.pending()),
        },
        MigrationPhase::AwaitUndoService => match event {
            MigrationEvent::Done(r) => {
                let mut t = s.copy_with(s.phase);
                t.removed_new = Some(r);
                t.after_service_undo()
            },
            _ => (s.copy_with(s.phase), s.pending()),
        },
        MigrationPhase::AwaitUndoTask => match event {
            MigrationEvent::Done(r) => {
                let mut t = s.copy_with(s.phase);
                t.removed_task = Some(r);
                t.after_task_undo()
            },
            _ => (s.copy_with(s.phase), s.pending()),
        },
        MigrationPhase::AwaitRestartOld => match event {
            MigrationEvent::Done(r) => {
                let msg = migration_failure(
                    s.error.as_str(),
                    s.removed_new.as_ref(),
                    s.removed_task.as_ref(),
                    Some(&r),
                );
                s.finish(Err(msg))
            },
            _ => (s.copy_with(s.phase), s.pending()),
        },
        MigrationPhase::AwaitRemoveOld => match event {
            MigrationEvent::Done(Ok(_)) => s.go(MigrationPhase::AwaitRemoveOldTask),
            MigrationEvent::Done(Err(m)) => s.finish(Err(concat_strs("新服务已就绪，清理旧服务失败: ", m.as_str()))),
            _ => (s.copy_with(s.phase), s.pending()),
        },
        MigrationPhase::AwaitRemoveOldTask => match event {
            MigrationEvent::Done(Ok(_)) => s.go(MigrationPhase::AwaitCleanup),
            MigrationEvent::Done(Err(m)) => s.finish(Err(concat_strs("服务已迁移，清理旧自启任务失败: ", m.as_str()))),
            _ => (s.copy_with(s.phase), s.pending()),
        },
        MigrationPhase::AwaitCleanup => match event {
            MigrationEvent::Done(r) => s.finish(r),
            _ => (s.copy_with(s.phase), s.pending()),
        },
        _ => (s.copy_with(s.phase), s.pending()),
    }
}

/// One step of a migration: the next state and the next piece of work,
/// exactly as [`migration_step_spec`] decides.
pub fn migration_step(state: &MigrationState, event: MigrationEvent) -> (res: (
    MigrationState,
    MigrationAction,
))
    ensures
        res.0@ == migration_step_spec(state@, event@).0,
        res.1@ == migration_step_spec(state@, event@).1,
{
    match state.phase {
        MigrationPhase::AwaitCheck | MigrationPhase::AwaitParams | MigrationPhase::AwaitOldStatus
        | MigrationPhase::AwaitStopOld | MigrationPhase::AwaitDeploy | MigrationPhase::AwaitInstall
        | MigrationPhase::AwaitWriteParams | MigrationPhase::AwaitWriteSid => migration_setup(state, event),
        _ => migration_finish(state, event),
    }
}

/// A failure once the new service exists undoes it newest first: the new
/// service is removed, then a copied logon task, and the old service is
/// started again only when it ran and the new service was removed; the
/// report lists the failure and each failed undo in that order.
pub proof fn failed_migration_undoes_in_order(
    s: MigrationStateView,
    m: Seq<char>,
    r1: Result<(), Seq<char>>,
    r2: Result<(), Seq<char>>,
    r3: Result<(), Seq<char>>,
)
    requires
        s.phase is AwaitStartNew,
        s.created,
        s.copied_task,
        s.was_running,
        s.removed_new is None,
        s.removed_task is None,
    ensures
        ({
            let (s1, a1) = migration_step_spec(s, MigrationEventView::Done(Err(m)));
            let (s2, a2) = migration_step_spec(s1, MigrationEventView::Done(r1));
            let (s3, a3) = migration_step_spec(s2, MigrationEventView::Done(r2));
            &&& a1 == MigrationActionView::UninstallNew
            &&& a2 == MigrationActionView::DeleteNewTask
            &&& if r1 is Ok {
                &&& a3 == MigrationActionView::StartOld
                &&& migration_step_spec(s3, MigrationEventView::Done(r3)).1
                    == MigrationActionView::Finish(
                    Err(migration_failure_spec(m, Some(r1), Some(r2), Some(r3))),
                )
            } else {
                a3 == MigrationActionView::Finish(
                    Err(migration_failure_spec(m, Some(r1), Some(r2), None)),
                )
            }
        }),
{
}

/// A failure before the new service exists removes nothing: the old
/// service is started again when it ran, and the report is the failure and
/// how that restart went.
pub proof fn early_failure_restarts_old(s: MigrationStateView, m: Seq<char>, r: Result<(), Seq<char>>)
    requires
        s.phase is AwaitDeploy || (s.phase is AwaitInstall && !s.created),
        !s.created,
        !s.copied_task,
        s.removed_new is None,
        s.removed_task is None,
    ensures
        ({
            let (s1, a1) = migration_step_spec(s, MigrationEventView::Done(Err(m)));
            if s.was_running {
                &&& a1 == MigrationActionView::StartOld
                &&& migration_step_spec(s1, MigrationEventView::Done(r)).1
                    == MigrationActionView::Finish(Err(migration_failure_spec(m, None, None, Some(r))))
            } else {
                a1 == MigrationActionView::Finish(Err(migration_failure_spec(m, None, None, None)))
            }
        }),
{
}

/// The old service is removed only after the new one is set up: once its
/// logon task is handled (and the new service started, when the old one
/// ran), the next work removes the old service.
pub proof fn old_service_removed_last(s: MigrationStateView, copied: bool)
    requires
        s.phase is AwaitCopyTask,
    ensures
        ({
            let (s1, a1) = migration_step_spec(s, MigrationEventView::Copied(Ok(copied)));
            if s.was_running {
                &&& a1 == MigrationActionView::StartNew
                &&& migration_step_spec(s1, MigrationEventView::Done(Ok(()))).1
                    == MigrationActionView::UninstallOld
            } else {
                a1 == MigrationActionView::UninstallOld
            }
        }),
{
}


/// Any failure while the new service is set up, once it was created, undoes
/// it first: writing its parameters, recording the panel user's SID, copying
/// the logon task or starting it. The next work removes the new service, and
/// the failure is kept for the report.
pub proof fn setup_failure_removes_new_service_first(s: MigrationStateView, m: Seq<char>)
    requires
        s.created,
        s.phase is AwaitWriteParams || s.phase is AwaitWriteSid || s.phase is AwaitCopyTask
            || s.phase is AwaitStartNew,
    ensures
        ({
            let (t, a) = migration_step_spec(s, MigrationEventView::Done(Err(m)));
            &&& a == MigrationActionView::UninstallNew
            &&& t.error == m
            &&& t.created
        }),
        s.phase is AwaitCopyTask ==> ({
            let (t, a) = migration_step_spec(s, MigrationEventView::Copied(Err(m)));
            a == MigrationActionView::UninstallNew && t.error == m
        }),
{
}

/// A migration reports success only once everything is done: the old
/// service and its logon task were removed and the legacy files cleaned up
/// without error.
pub proof fn migration_succeeds_only_after_cleanup(s: MigrationStateView, e: MigrationEventView)
    requires
        !(s.phase is Finished),
    ensures
        migration_step_spec(s, e).1 matches MigrationActionView::Finish(Ok(_)) ==> (s.phase is AwaitCleanup
            && (e matches MigrationEventView::Done(Ok(_)))),
{
}

} // verus!
