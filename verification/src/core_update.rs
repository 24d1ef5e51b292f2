//! The decisions of a core update applied to an installed service: the
//! source files and the protected runtime are replaced together, and on a
//! failure both are restored. Each step takes the outcome of the outside work
//! the previous step asked for and names the next piece of work.
use vstd::prelude::*;
use crate::text::{chars_of, eq_ignore_ascii_case, same_chars};
use crate::update::{check_core_target, outcome_view, update_failure, update_failure_spec};

verus! {

/// Where an update stands: which piece of outside work it waits for.
#[derive(Clone, Copy)]
pub enum CoreUpdatePhase {
    AwaitStatus,
    AwaitSwap,
    AwaitPaths,
    AwaitCapture,
    AwaitProgressReplace,
    AwaitStop,
    AwaitConfigure,
    AwaitRestartAfterConfigure,
    AwaitDiscardAfterConfigure,
    AwaitReplace,
    AwaitPublish,
    AwaitProgressRestart,
    AwaitStart,
    AwaitCheck,
    AwaitCommit,
    AwaitDiscardPrevious,
    AwaitFailureStop,
    AwaitRollbackSources,
    AwaitPublishPrevious,
    AwaitRestartPrevious,
    AwaitDiscardAfterRollback,
    Finished,
}

/// The outside work an update asks for next.
pub enum CoreUpdateAction {
    /// Read the service's state.
    QueryStatus,
    /// The service is not installed: replace the core files and restart
    /// whatever runs them; the answer is the update's result.
    SwapAndRestart,
    /// Resolve the installed source core and the chosen target to full paths.
    ResolvePaths,
    /// Take the previous snapshot (the protected one, or a fresh capture of
    /// the sources) and capture the next one from the new files.
    CaptureSnapshots,
    /// Report the `replace` phase.
    ProgressReplace,
    /// Stop the service.
    StopService,
    /// Configure the service to run the previous snapshot.
    ConfigurePrevious,
    /// Start the service.
    StartService,
    /// Discard the next snapshot, now that the previous one stays.
    DiscardNext,
    /// Replace the source files with the new ones, as one transaction.
    ReplaceSources,
    /// Record the next snapshot as the service's runtime.
    PublishNext,
    /// Report the `restart` phase.
    ProgressRestart,
    /// Wait briefly, then read the service's state.
    CheckRunning,
    /// Keep the replaced source files and drop their backups.
    CommitSources,
    /// Put the original source files back.
    RollbackSources,
    /// Record the previous snapshot as the service's runtime again.
    PublishPrevious,
    /// Discard the previous snapshot, now that the next one runs.
    DiscardPrevious,
    /// The update is over: `Ok(was_running)` or the error to report.
    Finish(Result<bool, String>),
}

/// The outcome of the outside work last asked for.
pub enum CoreUpdateEvent {
    /// The service's state, for [`CoreUpdateAction::QueryStatus`] and
    /// [`CoreUpdateAction::CheckRunning`].
    Status(String),
    /// The resolved source core and target, for [`CoreUpdateAction::ResolvePaths`].
    Resolved(String, String),
    /// The result of [`CoreUpdateAction::SwapAndRestart`].
    Swapped(Result<bool, String>),
    /// The result of any other piece of work (or of a failed query).
    Done(Result<(), String>),
}

/// An update in progress.
pub struct CoreUpdateState {
    pub phase: CoreUpdatePhase,
    /// Whether the service ran (or was starting) when the update began.
    pub was_running: bool,
    /// Whether the source files have been replaced.
    pub replaced: bool,
    /// The failure being undone.
    pub error: String,
    /// Why the service could not be stopped after a failure.
    pub stop_error: Option<String>,
    /// How putting the source files back went, once it was tried.
    pub sources_restored: Option<Result<(), String>>,
    /// Whether publishing the previous snapshot again has been carried out
    /// (a failure of it is part of the report).
    pub previous_published: bool,
    /// The result, once the update is over.
    pub result: Option<Result<bool, String>>,
}

#[verifier::ext_equal]
pub struct CoreUpdateStateView {
    pub phase: CoreUpdatePhase,
    pub was_running: bool,
    pub replaced: bool,
    pub error: Seq<char>,
    pub stop_error: Option<Seq<char>>,
    pub sources_restored: Option<Result<(), Seq<char>>>,
    pub previous_published: bool,
    pub result: Option<Result<bool, Seq<char>>>,
}

pub enum CoreUpdateActionView {
    QueryStatus,
    SwapAndRestart,
    ResolvePaths,
    CaptureSnapshots,
    ProgressReplace,
    StopService,
    ConfigurePrevious,
    StartService,
    DiscardNext,
    ReplaceSources,
    PublishNext,
    ProgressRestart,
    CheckRunning,
    CommitSources,
    RollbackSources,
    PublishPrevious,
    DiscardPrevious,
    Finish(Result<bool, Seq<char>>),
}

pub enum CoreUpdateEventView {
    Status(Seq<char>),
    Resolved(Seq<char>, Seq<char>),
    Swapped(Result<bool, Seq<char>>),
    Done(Result<(), Seq<char>>),
}

pub open spec fn result_view(r: Result<bool, String>) -> Result<bool, Seq<char>> {
    match r {
        Ok(b) => Ok(b),
        Err(e) => Err(e@),
    }
}

impl View for CoreUpdateState {
    type V = CoreUpdateStateView;

    open spec fn view(&self) -> CoreUpdateStateView {
        CoreUpdateStateView {
            phase: self.phase,
            was_running: self.was_running,
            replaced: self.replaced,
            error: self.error@,
            stop_error: match self.stop_error {
                Some(e) => Some(e@),
                None => None,
            },
            sources_restored: match self.sources_restored {
                Some(r) => Some(outcome_view(r)),
                None => None,
            },
            previous_published: self.previous_published,
            result: match self.result {
                Some(r) => Some(result_view(r)),
                None => None,
            },
        }
    }
}

impl View for CoreUpdateAction {
    type V = CoreUpdateActionView;

    open spec fn view(&self) -> CoreUpdateActionView {
        match self {
            CoreUpdateAction::QueryStatus => CoreUpdateActionView::QueryStatus,
            CoreUpdateAction::SwapAndRestart => CoreUpdateActionView::SwapAndRestart,
            CoreUpdateAction::ResolvePaths => CoreUpdateActionView::ResolvePaths,
            CoreUpdateAction::CaptureSnapshots => CoreUpdateActionView::CaptureSnapshots,
            CoreUpdateAction::ProgressReplace => CoreUpdateActionView::ProgressReplace,
            CoreUpdateAction::StopService => CoreUpdateActionView::StopService,
            CoreUpdateAction::ConfigurePrevious => CoreUpdateActionView::ConfigurePrevious,
            CoreUpdateAction::StartService => CoreUpdateActionView::StartService,
            CoreUpdateAction::DiscardNext => CoreUpdateActionView::DiscardNext,
            CoreUpdateAction::ReplaceSources => CoreUpdateActionView::ReplaceSources,
            CoreUpdateAction::PublishNext => CoreUpdateActionView::PublishNext,
            CoreUpdateAction::ProgressRestart => CoreUpdateActionView::ProgressRestart,
            CoreUpdateAction::CheckRunning => CoreUpdateActionView::CheckRunning,
            CoreUpdateAction::CommitSources => CoreUpdateActionView::CommitSources,
            CoreUpdateAction::RollbackSources => CoreUpdateActionView::RollbackSources,
            CoreUpdateAction::PublishPrevious => CoreUpdateActionView::PublishPrevious,
            CoreUpdateAction::DiscardPrevious => CoreUpdateActionView::DiscardPrevious,
            CoreUpdateAction::Finish(r) => CoreUpdateActionView::Finish(result_view(*r)),
        }
    }
}

impl View for CoreUpdateEvent {
    type V = CoreUpdateEventView;

    open spec fn view(&self) -> CoreUpdateEventView {
        match self {
            CoreUpdateEvent::Status(s) => CoreUpdateEventView::Status(s@),
            CoreUpdateEvent::Resolved(a, b) => CoreUpdateEventView::Resolved(a@, b@),
            CoreUpdateEvent::Swapped(r) => CoreUpdateEventView::Swapped(result_view(*r)),
            CoreUpdateEvent::Done(r) => CoreUpdateEventView::Done(outcome_view(*r)),
        }
    }
}

pub open spec fn msg_target_mismatch() -> Seq<char> {
    "所选核心路径与已安装服务的源路径不一致，请先重新安装服务"@
}

pub open spec fn msg_not_kept_running() -> Seq<char> {
    "更新后的核心未保持运行"@
}

/// The work an update in phase `p` waits for.
pub open spec fn pending_action(s: CoreUpdateStateView) -> CoreUpdateActionView {
    match s.phase {
        CoreUpdatePhase::AwaitStatus => CoreUpdateActionView::QueryStatus,
        CoreUpdatePhase::AwaitSwap => CoreUpdateActionView::SwapAndRestart,
        CoreUpdatePhase::AwaitPaths => CoreUpdateActionView::ResolvePaths,
        CoreUpdatePhase::AwaitCapture => CoreUpdateActionView::CaptureSnapshots,
        CoreUpdatePhase::AwaitProgressReplace => CoreUpdateActionView::ProgressReplace,
        CoreUpdatePhase::AwaitStop => CoreUpdateActionView::StopService,
        CoreUpdatePhase::AwaitConfigure => CoreUpdateActionView::ConfigurePrevious,
        CoreUpdatePhase::AwaitRestartAfterConfigure => CoreUpdateActionView::StartService,
        CoreUpdatePhase::AwaitDiscardAfterConfigure => CoreUpdateActionView::DiscardNext,
        CoreUpdatePhase::AwaitReplace => CoreUpdateActionView::ReplaceSources,
        CoreUpdatePhase::AwaitPublish => CoreUpdateActionView::PublishNext,
        CoreUpdatePhase::AwaitProgressRestart => CoreUpdateActionView::ProgressRestart,
        CoreUpdatePhase::AwaitStart => CoreUpdateActionView::StartService,
        CoreUpdatePhase::AwaitCheck => CoreUpdateActionView::CheckRunning,
        CoreUpdatePhase::AwaitCommit => CoreUpdateActionView::CommitSources,
        CoreUpdatePhase::AwaitDiscardPrevious => CoreUpdateActionView::DiscardPrevious,
        CoreUpdatePhase::AwaitFailureStop => CoreUpdateActionView::StopService,
        CoreUpdatePhase::AwaitRollbackSources => CoreUpdateActionView::RollbackSources,
        CoreUpdatePhase::AwaitPublishPrevious => CoreUpdateActionView::PublishPrevious,
        CoreUpdatePhase::AwaitRestartPrevious => CoreUpdateActionView::StartService,
        CoreUpdatePhase::AwaitDiscardAfterRollback => CoreUpdateActionView::DiscardNext,
        CoreUpdatePhase::Finished => CoreUpdateActionView::Finish(
            match s.result {
                Some(r) => r,
                None => Err(Seq::empty()),
            },
        ),
    }
}

/// The state waiting in phase `p`, and the work it asks for.
pub open spec fn go(s: CoreUpdateStateView, p: CoreUpdatePhase) -> (
    CoreUpdateStateView,
    CoreUpdateActionView,
) {
    let t = CoreUpdateStateView { phase: p, ..s };
    (t, pending_action(t))
}

/// The update ends with `r`.
pub open spec fn finish(s: CoreUpdateStateView, r: Result<bool, Seq<char>>) -> (
    CoreUpdateStateView,
    CoreUpdateActionView,
) {
    (
        CoreUpdateStateView { phase: CoreUpdatePhase::Finished, result: Some(r), ..s },
        CoreUpdateActionView::Finish(r),
    )
}

/// Work after the sources were touched failed with `m`: stop the service
/// before anything is undone.
pub open spec fn fail(s: CoreUpdateStateView, m: Seq<char>) -> (
    CoreUpdateStateView,
    CoreUpdateActionView,
) {
    go(CoreUpdateStateView { error: m, ..s }, CoreUpdatePhase::AwaitFailureStop)
}

/// The report of a failure whose undo ended with `runtime`: the failure,
/// then how stopping, restoring the sources and restoring the runtime went.
pub open spec fn rollback_report(s: CoreUpdateStateView, runtime: Result<(), Seq<char>>) -> Seq<
    char,
> {
    update_failure_spec(
        s.error,
        match s.stop_error {
            Some(m) => Err(m),
            None => Ok(()),
        },
        s.sources_restored,
        runtime,
    )
}

/// The update's next state and work once `e` answers the work `s` waits for.
/// An answer of the wrong kind leaves the state as it is.
pub open spec fn core_update_step_spec(s: CoreUpdateStateView, e: CoreUpdateEventView) -> (
    CoreUpdateStateView,
    CoreUpdateActionView,
) {
    let stay = (s, pending_action(s));
    match s.phase {
        CoreUpdatePhase::AwaitStatus => match e {
            CoreUpdateEventView::Status(st) => if st == "not_installed"@ {
                go(s, CoreUpdatePhase::AwaitSwap)
            } else {
                go(
                    CoreUpdateStateView {
                        was_running: st == "running"@ || st == "starting"@,
                        ..s
                    },
                    CoreUpdatePhase::AwaitPaths,
                )
            },
            CoreUpdateEventView::Done(Err(m)) => finish(s, Err(m)),
            _ => stay,
        },
        CoreUpdatePhase::AwaitSwap => match e {
            CoreUpdateEventView::Swapped(r) => finish(s, r),
            _ => stay,
        },
        CoreUpdatePhase::AwaitPaths => match e {
            CoreUpdateEventView::Resolved(a, b) => if eq_ignore_ascii_case(a, b) {
                go(s, CoreUpdatePhase::AwaitCapture)
            } else {
                finish(s, Err(msg_target_mismatch()))
            },
            CoreUpdateEventView::Done(Err(m)) => finish(s, Err(m)),
            _ => stay,
        },
        CoreUpdatePhase::AwaitCapture => match e {
            CoreUpdateEventView::Done(Ok(_)) => go(s, CoreUpdatePhase::AwaitProgressReplace),
            CoreUpdateEventView::Done(Err(m)) => finish(s, Err(m)),
            _ => stay,
        },
        CoreUpdatePhase::AwaitProgressReplace => match e {
            CoreUpdateEventView::Done(_) => if s.was_running {
                go(s, CoreUpdatePhase::AwaitStop)
            } else {
                go(s, CoreUpdatePhase::AwaitConfigure)
            },
            _ => stay,
        },
        CoreUpdatePhase::AwaitStop => match e {
            CoreUpdateEventView::Done(Ok(_)) => go(s, CoreUpdatePhase::AwaitConfigure),
            CoreUpdateEventView::Done(Err(m)) => finish(s, Err(m)),
            _ => stay,
        },
        CoreUpdatePhase::AwaitConfigure => match e {
            CoreUpdateEventView::Done(Ok(_)) => go(s, CoreUpdatePhase::AwaitReplace),
            CoreUpdateEventView::Done(Err(m)) => if s.was_running {
                go(CoreUpdateStateView { error: m, ..s }, CoreUpdatePhase::AwaitRestartAfterConfigure)
            } else {
                go(CoreUpdateStateView { error: m, ..s }, CoreUpdatePhase::AwaitDiscardAfterConfigure)
            },
            _ => stay,
        },
        CoreUpdatePhase::AwaitRestartAfterConfigure => match e {
            CoreUpdateEventView::Done(_) => go(s, CoreUpdatePhase::AwaitDiscardAfterConfigure),
            _ => stay,
        },
        CoreUpdatePhase::AwaitDiscardAfterConfigure => match e {
            CoreUpdateEventView::Done(_) => finish(s, Err(s.error)),
            _ => stay,
        },
        CoreUpdatePhase::AwaitReplace => match e {
            CoreUpdateEventView::Done(Ok(_)) => go(
                CoreUpdateStateView { replaced: true, ..s },
                CoreUpdatePhase::AwaitPublish,
            ),
            CoreUpdateEventView::Done(Err(m)) => fail(s, m),
            _ => stay,
        },
        CoreUpdatePhase::AwaitPublish => match e {
            CoreUpdateEventView::Done(Ok(_)) => if s.was_running {
                go(s, CoreUpdatePhase::AwaitProgressRestart)
            } else {
                go(s, CoreUpdatePhase::AwaitCommit)
            },
            CoreUpdateEventView::Done(Err(m)) => fail(s, m),
            _ => stay,
        },
        CoreUpdatePhase::AwaitProgressRestart => match e {
            CoreUpdateEventView::Done(_) => go(s, CoreUpdatePhase::AwaitStart),
            _ => stay,
        },
        CoreUpdatePhase::AwaitStart => match e {
            CoreUpdateEventView::Done(Ok(_)) => go(s, CoreUpdatePhase::AwaitCheck),
            CoreUpdateEventView::Done(Err(m)) => fail(s, m),
            _ => stay,
        },
        CoreUpdatePhase::AwaitCheck => match e {
            CoreUpdateEventView::Status(st) => if st == "running"@ {
                go(s, CoreUpdatePhase::AwaitCommit)
            } else {
                fail(s, msg_not_kept_running())
            },
            CoreUpdateEventView::Done(Err(m)) => fail(s, m),
            _ => stay,
        },
        CoreUpdatePhase::AwaitCommit => match e {
            CoreUpdateEventView::Done(_) => go(s, CoreUpdatePhase::AwaitDiscardPrevious),
            _ => stay,
        },
        CoreUpdatePhase::AwaitDiscardPrevious => match e {
            CoreUpdateEventView::Done(_) => finish(s, Ok(s.was_running)),
            _ => stay,
        },
        CoreUpdatePhase::AwaitFailureStop => match e {
            CoreUpdateEventView::Done(r) => {
                let t = match r {
                    Err(m) => CoreUpdateStateView { stop_error: Some(m), ..s },
                    Ok(_) => s,
                };
                if t.replaced {
                    go(t, CoreUpdatePhase::AwaitRollbackSources)
                } else {
                    go(t, CoreUpdatePhase::AwaitPublishPrevious)
                }
            },
            _ => stay,
        },
        CoreUpdatePhase::AwaitRollbackSources => match e {
            CoreUpdateEventView::Done(r) => go(
                CoreUpdateStateView { sources_restored: Some(r), ..s },
                CoreUpdatePhase::AwaitPublishPrevious,
            ),
            _ => stay,
        },
        CoreUpdatePhase::AwaitPublishPrevious => match e {
            CoreUpdateEventView::Done(Ok(_)) => {
                let t = CoreUpdateStateView { previous_published: true, ..s };
                if t.was_running {
                    go(t, CoreUpdatePhase::AwaitRestartPrevious)
                } else {
                    go(t, CoreUpdatePhase::AwaitDiscardAfterRollback)
                }
            },
            CoreUpdateEventView::Done(Err(m)) => {
                let t = CoreUpdateStateView { previous_published: true, ..s };
                finish(t, Err(rollback_report(t, Err(m))))
            },
            _ => stay,
        },
        CoreUpdatePhase::AwaitRestartPrevious => match e {
            CoreUpdateEventView::Done(Ok(_)) => go(s, CoreUpdatePhase::AwaitDiscardAfterRollback),
            CoreUpdateEventView::Done(Err(m)) => finish(s, Err(rollback_report(s, Err(m)))),
            _ => stay,
        },
        CoreUpdatePhase::AwaitDiscardAfterRollback => match e {
            CoreUpdateEventView::Done(_) => finish(s, Err(rollback_report(s, Ok(())))),
            _ => stay,
        },
        CoreUpdatePhase::Finished => stay,
    }
}

fn clone_outcome(r: &Result<(), String>) -> (res: Result<(), String>)
    ensures
        outcome_view(res) == outcome_view(*r),
{
    match r {
        Ok(_) => Ok(()),
        Err(e) => Err(e.clone()),
    }
}

fn clone_result(r: &Result<bool, String>) -> (res: Result<bool, String>)
    ensures
        result_view(res) == result_view(*r),
{
    match r {
        Ok(b) => Ok(*b),
        Err(e) => Err(e.clone()),
    }
}

impl CoreUpdateState {
    /// The state of an update that has not asked for anything yet.
    pub open spec fn initial() -> CoreUpdateStateView {
        CoreUpdateStateView {
            phase: CoreUpdatePhase::AwaitStatus,
            was_running: false,
            replaced: false,
            error: Seq::empty(),
            stop_error: None,
            sources_restored: None,
            previous_published: false,
            result: None,
        }
    }

    /// Starts an update: the first work is reading the service's state.
    pub fn new() -> (res: (CoreUpdateState, CoreUpdateAction))
        ensures
            res.0@ == Self::initial(),
            res.1@ == CoreUpdateActionView::QueryStatus,
            core_update_inv(res.0@),
    {
        (
            CoreUpdateState {
                phase: CoreUpdatePhase::AwaitStatus,
                was_running: false,
                replaced: false,
                error: String::new(),
                stop_error: None,
                sources_restored: None,
                previous_published: false,
                result: None,
            },
            CoreUpdateAction::QueryStatus,
        )
    }

    fn copy_with(&self, phase: CoreUpdatePhase) -> (res: CoreUpdateState)
        ensures
            res@ == (CoreUpdateStateView { phase, ..self@ }),
    {
        CoreUpdateState {
            phase,
            was_running: self.was_running,
            replaced: self.replaced,
            error: self.error.clone(),
            stop_error: match &self.stop_error {
                Some(e) => Some(e.clone()),
                None => None,
            },
            sources_restored: match &self.sources_restored {
                Some(r) => Some(clone_outcome(r)),
                None => None,
            },
            previous_published: self.previous_published,
            result: match &self.result {
                Some(r) => Some(clone_result(r)),
                None => None,
            },
        }
    }

    /// The work this update waits for.
    pub fn pending(&self) -> (res: CoreUpdateAction)
        ensures
            res@ == pending_action(self@),
    {
        match self.phase {
            CoreUpdatePhase::AwaitStatus => CoreUpdateAction::QueryStatus,
            CoreUpdatePhase::AwaitSwap => CoreUpdateAction::SwapAndRestart,
            CoreUpdatePhase::AwaitPaths => CoreUpdateAction::ResolvePaths,
            CoreUpdatePhase::AwaitCapture => CoreUpdateAction::CaptureSnapshots,
            CoreUpdatePhase::AwaitProgressReplace => CoreUpdateAction::ProgressReplace,
            CoreUpdatePhase::AwaitStop => CoreUpdateAction::StopService,
            CoreUpdatePhase::AwaitConfigure => CoreUpdateAction::ConfigurePrevious,
            CoreUpdatePhase::AwaitRestartAfterConfigure => CoreUpdateAction::StartService,
            CoreUpdatePhase::AwaitDiscardAfterConfigure => CoreUpdateAction::DiscardNext,
            CoreUpdatePhase::AwaitReplace => CoreUpdateAction::ReplaceSources,
            CoreUpdatePhase::AwaitPublish => CoreUpdateAction::PublishNext,
            CoreUpdatePhase::AwaitProgressRestart => CoreUpdateAction::ProgressRestart,
            CoreUpdatePhase::AwaitStart => CoreUpdateAction::StartService,
            CoreUpdatePhase::AwaitCheck => CoreUpdateAction::CheckRunning,
            CoreUpdatePhase::AwaitCommit => CoreUpdateAction::CommitSources,
            CoreUpdatePhase::AwaitDiscardPrevious => CoreUpdateAction::DiscardPrevious,
            CoreUpdatePhase::AwaitFailureStop => CoreUpdateAction::StopService,
            CoreUpdatePhase::AwaitRollbackSources => CoreUpdateAction::RollbackSources,
            CoreUpdatePhase::AwaitPublishPrevious => CoreUpdateAction::PublishPrevious,
            CoreUpdatePhase::AwaitRestartPrevious => CoreUpdateAction::StartService,
            CoreUpdatePhase::AwaitDiscardAfterRollback => CoreUpdateAction::DiscardNext,
            CoreUpdatePhase::Finished => CoreUpdateAction::Finish(
                match &self.result {
                    Some(r) => clone_result(r),
                    None => Err(String::new()),
                },
            ),
        }
    }

    fn go(&self, phase: CoreUpdatePhase) -> (res: (CoreUpdateState, CoreUpdateAction))
        ensures
            res.0@ == go(self@, phase).0,
            res.1@ == go(self@, phase).1,
    {
        let t = self.copy_with(phase);
        let a = t.pending();
        (t, a)
    }

    fn finish(&self, r: Result<bool, String>) -> (res: (CoreUpdateState, CoreUpdateAction))
        ensures
            res.0@ == finish(self@, result_view(r)).0,
            res.1@ == finish(self@, result_view(r)).1,
    {
        let mut t = self.copy_with(CoreUpdatePhase::Finished);
        t.result = Some(clone_result(&r));
        (t, CoreUpdateAction::Finish(r))
    }

    fn fail(&self, m: String) -> (res: (CoreUpdateState, CoreUpdateAction))
        ensures
            res.0@ == fail(self@, m@).0,
            res.1@ == fail(self@, m@).1,
    {
        let mut t = self.copy_with(CoreUpdatePhase::AwaitFailureStop);
        t.error = m;
        (t, CoreUpdateAction::StopService)
    }
}

#[verifier::rlimit(40)]
fn step_prepare(state: &CoreUpdateState, event: CoreUpdateEvent) -> (res: (CoreUpdateState, CoreUpdateAction))
    requires
        state.phase is AwaitStatus || state.phase is AwaitSwap || state.phase is AwaitPaths || state.phase is AwaitCapture || state.phase is AwaitProgressReplace || state.phase is AwaitStop || state.phase is AwaitConfigure,
    ensures
        res.0@ == core_update_step_spec(state@, event@).0,
        res.1@ == core_update_step_spec(state@, event@).1,
{
    let s = state;
    match s.phase {
        CoreUpdatePhase::AwaitStatus => match event {
            CoreUpdateEvent::Status(st) => {
                let chars = chars_of(st.as_str());
                if same_chars(&chars, "not_installed") {
                    s.go(CoreUpdatePhase::AwaitSwap)
                } else {
                    let mut t = s.copy_with(s.phase);
                    t.was_running = same_chars(&chars, "running") || same_chars(&chars, "starting");
                    t.go(CoreUpdatePhase::AwaitPaths)
                }
            },
            CoreUpdateEvent::Done(Err(m)) => s.finish(Err(m)),
            _ => (s.copy_with(s.phase), s.pending()),
        },
        CoreUpdatePhase::AwaitSwap => match event {
            CoreUpdateEvent::Swapped(r) => s.finish(r),
            _ => (s.copy_with(s.phase), s.pending()),
        },
        CoreUpdatePhase::AwaitPaths => match event {
            CoreUpdateEvent::Resolved(a, b) => match check_core_target(a.as_str(), b.as_str()) {
                Ok(()) => s.go(CoreUpdatePhase::AwaitCapture),
                Err(m) => s.finish(Err(m)),
            },
            CoreUpdateEvent::Done(Err(m)) => s.finish(Err(m)),
            _ => (s.copy_with(s.phase), s.pending()),
        },
        CoreUpdatePhase::AwaitCapture => match event {
            CoreUpdateEvent::Done(Ok(_)) => s.go(CoreUpdatePhase::AwaitProgressReplace),
            CoreUpdateEvent::Done(Err(m)) => s.finish(Err(m)),
            _ => (s.copy_with(s.phase), s.pending()),
        },
        CoreUpdatePhase::AwaitProgressReplace => match event {
            CoreUpdateEvent::Done(_) => if s.was_running {
                s.go(CoreUpdatePhase::AwaitStop)
            } else {
                s.go(CoreUpdatePhase::AwaitConfigure)
            },
            _ => (s.copy_with(s.phase), s.pending()),
        },
        CoreUpdatePhase::AwaitStop => match event {
            CoreUpdateEvent::Done(Ok(_)) => s.go(CoreUpdatePhase::AwaitConfigure),
            CoreUpdateEvent::Done(Err(m)) => s.finish(Err(m)),
            _ => (s.copy_with(s.phase), s.pending()),
        },
        CoreUpdatePhase::AwaitConfigure => match event {
            CoreUpdateEvent::Done(Ok(_)) => s.go(CoreUpdatePhase::AwaitReplace),
            CoreUpdateEvent::Done(Err(m)) => {
                let mut t = s.copy_with(s.phase);
                t.error = m;
                if s.was_running {
                    t.go(CoreUpdatePhase::AwaitRestartAfterConfigure)
                } else {
                    t.go(CoreUpdatePhase::AwaitDiscardAfterConfigure)
                }
            },
            _ => (s.copy_with(s.phase), s.pending()),
        },
        _ => (s.copy_with(s.phase), s.pending()),
    }
}

#[verifier::rlimit(40)]
fn step_apply(state: &CoreUpdateState, event: CoreUpdateEvent) -> (res: (CoreUpdateState, CoreUpdateAction))
    requires
        state.phase is AwaitRestartAfterConfigure || state.phase is AwaitDiscardAfterConfigure || state.phase is AwaitReplace || state.phase is AwaitPublish || state.phase is AwaitProgressRestart || state.phase is AwaitStart || state.phase is AwaitCheck || state.phase is AwaitCommit || state.phase is AwaitDiscardPrevious,
    ensures
        res.0@ == core_update_step_spec(state@, event@).0,
        res.1@ == core_update_step_spec(state@, event@).1,
{
    let s = state;
    match s.phase {
        CoreUpdatePhase::AwaitRestartAfterConfigure => match event {
            CoreUpdateEvent::Done(_) => s.go(CoreUpdatePhase::AwaitDiscardAfterConfigure),
            _ => (s.copy_with(s.phase), s.pending()),
        },
        CoreUpdatePhase::AwaitDiscardAfterConfigure => match event {
            CoreUpdateEvent::Done(_) => s.finish(Err(s.error.clone())),
            _ => (s.copy_with(s.phase), s.pending()),
        },
        CoreUpdatePhase::AwaitReplace => match event {
            CoreUpdateEvent::Done(Ok(_)) => {
                let mut t = s.copy_with(s.phase);
                t.replaced = true;
                t.go(CoreUpdatePhase::AwaitPublish)
            },
            CoreUpdateEvent::Done(Err(m)) => s.fail(m),
            _ => (s.copy_with(s.phase), s.pending()),
        },
        CoreUpdatePhase::AwaitPublish => match event {
            CoreUpdateEvent::Done(Ok(_)) => if s.was_running {
                s.go(CoreUpdatePhase::AwaitProgressRestart)
            } else {
                s.go(CoreUpdatePhase::AwaitCommit)
            },
            CoreUpdateEvent::Done(Err(m)) => s.fail(m),
            _ => (s.copy_with(s.phase), s.pending()),
        },
        CoreUpdatePhase::AwaitProgressRestart => match event {
            CoreUpdateEvent::Done(_) => s.go(CoreUpdatePhase::AwaitStart),
            _ => (s.copy_with(s.phase), s.pending()),
        },
        CoreUpdatePhase::AwaitStart => match event {
            CoreUpdateEvent::Done(Ok(_)) => s.go(CoreUpdatePhase::AwaitCheck),
            CoreUpdateEvent::Done(Err(m)) => s.fail(m),
            _ => (s.copy_with(s.phase), s.pending()),
        },
        CoreUpdatePhase::AwaitCheck => match event {
            CoreUpdateEvent::Status(st) => {
                if same_chars(&chars_of(st.as_str()), "running") {
                    s.go(CoreUpdatePhase::AwaitCommit)
                } else {
                    s.fail("更新后的核心未保持运行".to_owned())
                }
            },
            CoreUpdateEvent::Done(Err(m)) => s.fail(m),
            _ => (s.copy_with(s.phase), s.pending()),
        },
        CoreUpdatePhase::AwaitCommit => match event {
            CoreUpdateEvent::Done(_) => s.go(CoreUpdatePhase::AwaitDiscardPrevious),
            _ => (s.copy_with(s.phase), s.pending()),
        },
        CoreUpdatePhase::AwaitDiscardPrevious => match event {
            CoreUpdateEvent::Done(_) => s.finish(Ok(s.was_running)),
            _ => (s.copy_with(s.phase), s.pending()),
        },
        _ => (s.copy_with(s.phase), s.pending()),
    }
}

#[verifier::rlimit(40)]
fn step_restore(state: &CoreUpdateState, event: CoreUpdateEvent) -> (res: (CoreUpdateState, CoreUpdateAction))
    requires
        state.phase is AwaitFailureStop || state.phase is AwaitRollbackSources || state.phase is AwaitPublishPrevious || state.phase is AwaitRestartPrevious || state.phase is AwaitDiscardAfterRollback,
    ensures
        res.0@ == core_update_step_spec(state@, event@).0,
        res.1@ == core_update_step_spec(state@, event@).1,
{
    let s = state;
    match s.phase {
        CoreUpdatePhase::AwaitFailureStop => match event {
            CoreUpdateEvent::Done(r) => {
                let mut t = s.copy_with(s.phase);
                match r {
                    Err(m) => {
                        t.stop_error = Some(m);
                    },
                    Ok(_) => {},
                }
                if t.replaced {
                    t.go(CoreUpdatePhase::AwaitRollbackSources)
                } else {
                    t.go(CoreUpdatePhase::AwaitPublishPrevious)
                }
            },
            _ => (s.copy_with(s.phase), s.pending()),
        },
        CoreUpdatePhase::AwaitRollbackSources => match event {
            CoreUpdateEvent::Done(r) => {
                let mut t = s.copy_with(s.phase);
                t.sources_restored = Some(r);
                t.go(CoreUpdatePhase::AwaitPublishPrevious)
            },
            _ => (s.copy_with(s.phase), s.pending()),
        },
        CoreUpdatePhase::AwaitPublishPrevious => match event {
            CoreUpdateEvent::Done(Ok(_)) => {
                let mut t = s.copy_with(s.phase);
                t.previous_published = true;
                if t.was_running {
                    t.go(CoreUpdatePhase::AwaitRestartPrevious)
                } else {
                    t.go(CoreUpdatePhase::AwaitDiscardAfterRollback)
                }
            },
            CoreUpdateEvent::Done(Err(m)) => {
                let mut t = s.copy_with(s.phase);
                t.previous_published = true;
                let msg = t.rollback_report(Err(m));
                t.finish(Err(msg))
            },
            _ => (s.copy_with(s.phase), s.pending()),
        },
        CoreUpdatePhase::AwaitRestartPrevious => match event {
            CoreUpdateEvent::Done(Ok(_)) => s.go(CoreUpdatePhase::AwaitDiscardAfterRollback),
            CoreUpdateEvent::Done(Err(m)) => {
                let msg = s.rollback_report(Err(m));
                s.finish(Err(msg))
            },
            _ => (s.copy_with(s.phase), s.pending()),
        },
        CoreUpdatePhase::AwaitDiscardAfterRollback => match event {
            CoreUpdateEvent::Done(_) => {
                let msg = s.rollback_report(Ok(()));
                s.finish(Err(msg))
            },
            _ => (s.copy_with(s.phase), s.pending()),
        },
        _ => (s.copy_with(s.phase), s.pending()),
    }
}

/// One step of a core update: the next state and the next piece of work,
/// exactly as [`core_update_step_spec`] decides.
pub fn core_update_step(state: &CoreUpdateState, event: CoreUpdateEvent) -> (res: (
    CoreUpdateState,
    CoreUpdateAction,
))
    ensures
        res.0@ == core_update_step_spec(state@, event@).0,
        res.1@ == core_update_step_spec(state@, event@).1,
        core_update_inv(state@) ==> core_update_inv(res.0@),
        (core_update_inv(state@) && state.replaced && (res.1@ matches CoreUpdateActionView::Finish(
            Err(_),
        ))) ==> (res.0@.sources_restored is Some && res.0@.previous_published),
{
    proof {
        if core_update_inv(state@) {
            core_update_inv_holds(state@, event@);
            if state.replaced {
                failed_update_restores_both(state@, event@);
            }
        }
    }
    match state.phase {
        CoreUpdatePhase::AwaitStatus | CoreUpdatePhase::AwaitSwap | CoreUpdatePhase::AwaitPaths | CoreUpdatePhase::AwaitCapture | CoreUpdatePhase::AwaitProgressReplace | CoreUpdatePhase::AwaitStop | CoreUpdatePhase::AwaitConfigure => step_prepare(state, event),
        CoreUpdatePhase::AwaitRestartAfterConfigure | CoreUpdatePhase::AwaitDiscardAfterConfigure | CoreUpdatePhase::AwaitReplace | CoreUpdatePhase::AwaitPublish | CoreUpdatePhase::AwaitProgressRestart | CoreUpdatePhase::AwaitStart | CoreUpdatePhase::AwaitCheck | CoreUpdatePhase::AwaitCommit | CoreUpdatePhase::AwaitDiscardPrevious => step_apply(state, event),
        CoreUpdatePhase::AwaitFailureStop | CoreUpdatePhase::AwaitRollbackSources | CoreUpdatePhase::AwaitPublishPrevious | CoreUpdatePhase::AwaitRestartPrevious | CoreUpdatePhase::AwaitDiscardAfterRollback => step_restore(state, event),
        CoreUpdatePhase::Finished => (state.copy_with(state.phase), state.pending()),
    }
}

impl CoreUpdateState {
    fn rollback_report(&self, runtime: Result<(), String>) -> (res: String)
        ensures
            res@ == rollback_report(self@, outcome_view(runtime)),
    {
        let stopped: Result<(), String> = match &self.stop_error {
            Some(m) => Err(m.clone()),
            None => Ok(()),
        };
        match &self.sources_restored {
            Some(r) => update_failure(self.error.as_str(), &stopped, Some(r), &runtime),
            None => update_failure(self.error.as_str(), &stopped, None, &runtime),
        }
    }
}

/// A failure once the sources may have been touched (replacing them,
/// publishing the next snapshot, starting it, or it not staying up) first
/// stops the service, keeping the failure and whether the sources were
/// replaced.
pub proof fn failures_stop_the_service_first(s: CoreUpdateStateView, m: Seq<char>)
    requires
        s.phase is AwaitReplace || s.phase is AwaitPublish || s.phase is AwaitStart,
    ensures
        ({
            let (t, a) = core_update_step_spec(s, CoreUpdateEventView::Done(Err(m)));
            &&& a == CoreUpdateActionView::StopService
            &&& t.phase is AwaitFailureStop
            &&& t.error == m
            &&& t.replaced == s.replaced
        }),
{
}

/// After a failure the service is stopped and then, whether or not the stop
/// succeeded, the source files are rolled back (when they were replaced) and
/// the previous snapshot is published again; a failed stop is kept for the
/// report.
pub proof fn rollback_order(s: CoreUpdateStateView, x: Result<(), Seq<char>>, r: Result<(), Seq<char>>)
    requires
        s.phase is AwaitFailureStop,
    ensures
        ({
            let (s1, a1) = core_update_step_spec(s, CoreUpdateEventView::Done(x));
            &&& s1.stop_error == (match x {
                Err(m) => Some(m),
                Ok(_) => s.stop_error,
            })
            &&& if s.replaced {
                &&& a1 == CoreUpdateActionView::RollbackSources
                &&& ({
                    let (s2, a2) = core_update_step_spec(s1, CoreUpdateEventView::Done(r));
                    a2 == CoreUpdateActionView::PublishPrevious && s2.sources_restored == Some(r)
                })
            } else {
                a1 == CoreUpdateActionView::PublishPrevious
            }
        }),
{
}

/// Once the previous snapshot is published again (and restarted, when the
/// service ran), the new snapshot is discarded and the update reports the
/// failure with how stopping and restoring the sources went.
pub proof fn restored_update_reports_failure(s: CoreUpdateStateView, r: Result<(), Seq<char>>)
    requires
        s.phase is AwaitPublishPrevious,
    ensures
        ({
            let (s1, a1) = core_update_step_spec(s, CoreUpdateEventView::Done(Ok(())));
            let report = CoreUpdateActionView::Finish(
                Err(
                    update_failure_spec(
                        s.error,
                        match s.stop_error {
                            Some(m) => Err(m),
                            None => Ok(()),
                        },
                        s.sources_restored,
                        Ok(()),
                    ),
                ),
            );
            &&& s1.previous_published
            &&& if s.was_running {
                &&& a1 == CoreUpdateActionView::StartService
                &&& ({
                    let (s2, a2) = core_update_step_spec(s1, CoreUpdateEventView::Done(Ok(())));
                    a2 == CoreUpdateActionView::DiscardNext && core_update_step_spec(
                        s2,
                        CoreUpdateEventView::Done(r),
                    ).1 == report
                })
            } else {
                a1 == CoreUpdateActionView::DiscardNext && core_update_step_spec(
                    s1,
                    CoreUpdateEventView::Done(r),
                ).1 == report
            }
        }),
{
}

/// The phases an update can be in once its source files were replaced.
pub open spec fn after_replacement(p: CoreUpdatePhase) -> bool {
    ||| p is AwaitPublish
    ||| p is AwaitProgressRestart
    ||| p is AwaitStart
    ||| p is AwaitCheck
    ||| p is AwaitCommit
    ||| p is AwaitDiscardPrevious
    ||| p is AwaitFailureStop
    ||| p is AwaitRollbackSources
    ||| p is AwaitPublishPrevious
    ||| p is AwaitRestartPrevious
    ||| p is AwaitDiscardAfterRollback
    ||| p is Finished
}

/// What every reachable update state keeps: a finished update has a result;
/// the phases from publishing to committing come only after the sources
/// were replaced; once the sources are replaced,
/// the undo that follows a failure rolls them back before the previous
/// snapshot is published again, and an update that ended in an error after
/// replacing them has done both.
pub open spec fn core_update_inv(s: CoreUpdateStateView) -> bool {
    &&& s.phase is Finished ==> s.result is Some
    &&& s.replaced ==> after_replacement(s.phase)
    &&& (s.phase is AwaitPublish || s.phase is AwaitProgressRestart || s.phase is AwaitStart
        || s.phase is AwaitCheck || s.phase is AwaitCommit || s.phase is AwaitDiscardPrevious)
        ==> s.replaced
    &&& (s.replaced && (s.phase is AwaitPublishPrevious || s.phase is AwaitRestartPrevious
        || s.phase is AwaitDiscardAfterRollback)) ==> s.sources_restored is Some
    &&& (s.phase is AwaitRestartPrevious || s.phase is AwaitDiscardAfterRollback)
        ==> s.previous_published
    &&& (s.replaced && s.phase is Finished && s.result matches Some(Err(_)))
        ==> (s.sources_restored is Some && s.previous_published)
}

/// Every step keeps [`core_update_inv`], which holds at the start.
pub proof fn core_update_inv_holds(s: CoreUpdateStateView, e: CoreUpdateEventView)
    requires
        core_update_inv(s),
    ensures
        core_update_inv(CoreUpdateState::initial()),
        core_update_inv(core_update_step_spec(s, e).0),
{
}

/// Restoring both on failure: a core update that ends with an error after
/// its source files were replaced has put the original source files back and
/// published the previous snapshot again before it reports.
pub proof fn failed_update_restores_both(s: CoreUpdateStateView, e: CoreUpdateEventView)
    requires
        core_update_inv(s),
        s.replaced,
    ensures
        ({
            let (t, a) = core_update_step_spec(s, e);
            a matches CoreUpdateActionView::Finish(Err(_)) ==> (t.sources_restored is Some
                && t.previous_published)
        }),
{
    core_update_inv_holds(s, e);
}

/// A restarted core that stays up is kept: the sources are committed, the
/// previous snapshot discarded, and the update succeeds, telling whether the
/// service ran.
pub proof fn kept_update_commits(s: CoreUpdateStateView, r1: Result<(), Seq<char>>, r2: Result<
    (),
    Seq<char>,
>)
    requires
        s.phase is AwaitCheck,
    ensures
        ({
            let (s1, a1) = core_update_step_spec(s, CoreUpdateEventView::Status("running"@));
            let (s2, a2) = core_update_step_spec(s1, CoreUpdateEventView::Done(r1));
            &&& a1 == CoreUpdateActionView::CommitSources
            &&& a2 == CoreUpdateActionView::DiscardPrevious
            &&& core_update_step_spec(s2, CoreUpdateEventView::Done(r2)).1
                == CoreUpdateActionView::Finish(Ok(s.was_running))
        }),
{
}

/// When configuring the previous snapshot fails, the service is started
/// again if it ran, the next snapshot is discarded, and the update fails
/// with that error; the sources are never touched.
pub proof fn configure_failure_leaves_sources(
    s: CoreUpdateStateView,
    m: Seq<char>,
    r1: Result<(), Seq<char>>,
    r2: Result<(), Seq<char>>,
)
    requires
        s.phase is AwaitConfigure,
    ensures
        ({
            let (s1, a1) = core_update_step_spec(s, CoreUpdateEventView::Done(Err(m)));
            if s.was_running {
                let (s2, a2) = core_update_step_spec(s1, CoreUpdateEventView::Done(r1));
                &&& a1 == CoreUpdateActionView::StartService
                &&& a2 == CoreUpdateActionView::DiscardNext
                &&& core_update_step_spec(s2, CoreUpdateEventView::Done(r2)).1
                    == CoreUpdateActionView::Finish(Err(m))
            } else {
                &&& a1 == CoreUpdateActionView::DiscardNext
                &&& core_update_step_spec(s1, CoreUpdateEventView::Done(r1)).1
                    == CoreUpdateActionView::Finish(Err(m))
            }
        }),
{
}


/// A service that is not installed has its files swapped, and the update
/// ends with exactly the result of that swap: a failed swap is reported as
/// that failure, never as a success. An installed service goes on to have
/// its paths resolved, remembering whether it ran or was starting.
pub proof fn swap_result_is_the_update_result(s: CoreUpdateStateView, st: Seq<char>, r: Result<bool, Seq<char>>)
    requires
        s.phase is AwaitStatus,
    ensures
        ({
            let (s1, a1) = core_update_step_spec(s, CoreUpdateEventView::Status(st));
            if st == "not_installed"@ {
                &&& a1 == CoreUpdateActionView::SwapAndRestart
                &&& core_update_step_spec(s1, CoreUpdateEventView::Swapped(r)).1
                    == CoreUpdateActionView::Finish(r)
                &&& core_update_step_spec(s1, CoreUpdateEventView::Swapped(r)).0.result == Some(r)
            } else {
                &&& a1 == CoreUpdateActionView::ResolvePaths
                &&& s1.was_running == (st == "running"@ || st == "starting"@)
            }
        }),
{
}

/// An update reports success only when it earned it: the swap of an
/// uninstalled service succeeded (and its result is passed on), or the
/// replaced core was committed and the previous snapshot discarded, in which
/// case the result tells whether the service ran.
pub proof fn success_is_earned(s: CoreUpdateStateView, e: CoreUpdateEventView)
    requires
        core_update_inv(s),
        !(s.phase is Finished),
    ensures
        core_update_step_spec(s, e).1 matches CoreUpdateActionView::Finish(Ok(b)) ==> (
        (s.phase is AwaitSwap && e == CoreUpdateEventView::Swapped(Ok(b))) || (
        s.phase is AwaitDiscardPrevious && s.replaced && b == s.was_running)),
{
}

/// A failure before the source files are touched (reading the service's
/// state, resolving the paths, capturing the snapshots or stopping the
/// service) ends the update with exactly that failure.
pub proof fn early_failures_end_with_their_error(s: CoreUpdateStateView, m: Seq<char>)
    requires
        s.phase is AwaitStatus || s.phase is AwaitPaths || s.phase is AwaitCapture
            || s.phase is AwaitStop,
    ensures
        core_update_step_spec(s, CoreUpdateEventView::Done(Err(m))).1 == CoreUpdateActionView::Finish(
            Err(m),
        ),
        !s.replaced ==> !core_update_step_spec(s, CoreUpdateEventView::Done(Err(m))).0.replaced,
{
}

} // verus!
