//! Keeping the bar alive across Explorer restarts: when to ask for a
//! recovery, how one recovery attempt proceeds, how attempts are retried,
//! and when a changed taskbar layout is applied to the lyrics bar.
use vstd::prelude::*;

use crate::settings::TaskbarPosition;
use crate::text::joined;

verus! {

/// How many recovery attempts follow one recovery request.
pub const RECOVERY_ATTEMPTS: usize = 30;

/// The least time between two requests to recover a missing bar, in
/// milliseconds.
pub const MISSING_BAR_RECOVERY_INTERVAL_MS: u64 = 2000;

/// A recovery request is due where none was made yet, or the last one is at
/// least the interval ago (a clock that went back counts as no time).
pub open spec fn recovery_due(last_request_ms: Option<u64>, now_ms: u64) -> bool {
    match last_request_ms {
        None => true,
        Some(last) => (if now_ms >= last { now_ms - last } else { 0 }) >= 2000,
    }
}

/// Whether a new request to recover the missing bar is due.
pub fn recovery_request_is_due(last_request_ms: Option<u64>, now_ms: u64) -> (r: bool)
    ensures
        r == recovery_due(last_request_ms, now_ms),
{
    match last_request_ms {
        None => true,
        Some(last) => now_ms.saturating_sub(last) >= MISSING_BAR_RECOVERY_INTERVAL_MS,
    }
}

/// How the recovery request channel took a request.
#[derive(Debug, Clone, Copy, PartialEq, Eq, Structural)]
pub enum RecoverySend {
    /// The request was queued.
    Sent,
    /// A request is already waiting; the two merge.
    Full,
    /// The recovery worker has stopped.
    Disconnected,
}

/// The result of asking for a recovery: refused while shutting down or
/// before the monitor started; a full queue counts as success.
pub fn recovery_request_result(
    shutting_down: bool,
    started: bool,
    send: RecoverySend,
) -> (r: Result<(), String>)
    ensures
        shutting_down ==> (r matches Err(e) && e@ == "Explorer 恢复监听器正在关闭"@),
        !shutting_down && !started ==> (r matches Err(e) && e@ == "Explorer 恢复监听器尚未启动"@),
        !shutting_down && started && send == RecoverySend::Disconnected ==> (r matches Err(e)
            && e@ == "Explorer 恢复工作线程已经停止"@),
        !shutting_down && started && send != RecoverySend::Disconnected ==> r is Ok,
{
    if shutting_down {
        return Err("Explorer 恢复监听器正在关闭".to_owned());
    }
    if !started {
        return Err("Explorer 恢复监听器尚未启动".to_owned());
    }
    match send {
        RecoverySend::Disconnected => Err("Explorer 恢复工作线程已经停止".to_owned()),
        _ => Ok(()),
    }
}

// ---------------------------------------------------------------------------
// Retrying recovery.
// ---------------------------------------------------------------------------

/// What follows one recovery attempt.
#[derive(Debug)]
pub enum RetryDecision {
    /// The bar is back.
    Recovered,
    /// Sleep one interval, then try again.
    Retry,
    /// All attempts failed; the last error is reported.
    GiveUp(String),
}

/// The recovery attempts after one request: how many were made and the last
/// error.
#[derive(Debug)]
pub struct RecoveryRetry {
    pub attempts: usize,
    pub last_error: String,
}

impl RecoveryRetry {
    /// No attempt made yet.
    pub fn new() -> (r: RecoveryRetry)
        ensures
            r.attempts == 0,
            r.last_error@ == "尚未尝试恢复 Bar"@,
    {
        RecoveryRetry { attempts: 0, last_error: "尚未尝试恢复 Bar".to_owned() }
    }

    /// Records an attempt's result: success ends the recovery; a failure is
    /// retried until all attempts are used, then reported.
    pub fn record(&mut self, result: Result<(), String>) -> (r: RetryDecision)
        requires
            old(self).attempts < RECOVERY_ATTEMPTS,
        ensures
            final(self).attempts == old(self).attempts + 1,
            result is Ok ==> r is Recovered && final(self).last_error@ == old(self).last_error@,
            result matches Err(e) ==> final(self).last_error@ == e@,
            result is Err && final(self).attempts < RECOVERY_ATTEMPTS ==> r is Retry,
            result is Err && final(self).attempts == RECOVERY_ATTEMPTS ==> (r matches RetryDecision::GiveUp(e)
                && e@ == final(self).last_error@),
    {
        self.attempts = self.attempts + 1;
        match result {
            Ok(()) => RetryDecision::Recovered,
            Err(e) => {
                self.last_error = e;
                if self.attempts < RECOVERY_ATTEMPTS {
                    RetryDecision::Retry
                } else {
                    RetryDecision::GiveUp(self.last_error.clone())
                }
            },
        }
    }
}

// ---------------------------------------------------------------------------
// One recovery attempt.
// ---------------------------------------------------------------------------

/// What the bar's window looks like to the window registry.
#[derive(Debug, Clone, Copy, PartialEq, Eq, Structural)]
pub enum BarPresence {
    /// A live bar window of this process.
    Alive,
    /// A registered window whose native window is gone.
    Dead,
    /// No window, but the old web view is still registered.
    StaleWebview,
    /// Neither window nor web view.
    Absent,
}

/// A piece of work the caller performs for the recovery attempt.
#[derive(Debug, Clone, Copy, PartialEq, Eq, Structural)]
pub enum RecoveryTask {
    /// Read the settings, find the target taskbar and read its rectangle
    /// and DPI, and find the bar's window configuration; answer `Done` or
    /// the error.
    ReadEnvironment,
    /// Look up the bar window; answer `Presence`.
    InspectBar,
    /// Build the native host window from its configuration; answer `Done`
    /// or the error.
    CreateWindow,
    /// Attach the host to the taskbar; answer `Done` or the error.
    AttachWindow,
    /// Create the child web view inside the new host; answer `Done` or the
    /// error's text.
    AddWebview,
    /// Find the existing web view; answer `Flag` (whether it exists).
    FindWebview,
    /// Let the web view follow the host's size; answer `Done` or the
    /// error's text.
    EnableAutoResize,
    /// Whether the bar should be shown; answer `Flag`.
    CheckVisibility,
    /// Hide the bar; answer `Done` or the error.
    HideWindow,
}

/// What the caller undoes before an attempt ends.
#[derive(Debug, Clone, Copy, PartialEq, Eq, Structural)]
pub enum RecoveryCleanup {
    Nothing,
    /// Destroy the bar window (ignoring failure).
    DestroyWindow,
    /// Close the stale web view (ignoring failure).
    CloseWebview,
}

/// The answer to a task.
#[derive(Debug)]
pub enum RecoveryAnswer {
    Done,
    Presence(BarPresence),
    Flag(bool),
    Failed(String),
}

/// The next step of an attempt.
#[derive(Debug)]
pub enum RecoveryStep {
    Do(RecoveryTask),
    Finish { cleanup: RecoveryCleanup, result: Result<(), String> },
}

/// One recovery attempt in progress: the pending task, and whether this
/// attempt created the host window.
#[derive(Debug, Clone, Copy, PartialEq, Eq, Structural)]
pub struct RecoveryAttempt {
    pub pending: RecoveryTask,
    pub recreated: bool,
}

/// The plain value of a step.
pub enum RecoveryStepModel {
    Do(RecoveryTask),
    Finish(RecoveryCleanup, Result<(), Seq<char>>),
}

pub open spec fn recovery_step_view(step: RecoveryStep) -> RecoveryStepModel {
    match step {
        RecoveryStep::Do(t) => RecoveryStepModel::Do(t),
        RecoveryStep::Finish { cleanup, result } => RecoveryStepModel::Finish(
            cleanup,
            match result {
                Ok(()) => Ok(()),
                Err(e) => Err(e@),
            },
        ),
    }
}

pub open spec fn finish(cleanup: RecoveryCleanup, message: Seq<char>) -> RecoveryStepModel {
    RecoveryStepModel::Finish(cleanup, Err(message))
}

/// The step after `answer` to the pending task, and whether the host was
/// created by this attempt afterwards.
pub open spec fn recovery_transition(a: RecoveryAttempt, answer: RecoveryAnswer) -> (
    RecoveryStepModel,
    bool,
) {
    let undo = if a.recreated {
        RecoveryCleanup::DestroyWindow
    } else {
        RecoveryCleanup::Nothing
    };
    match a.pending {
        RecoveryTask::ReadEnvironment => match answer {
            RecoveryAnswer::Failed(e) => (finish(RecoveryCleanup::Nothing, e@), a.recreated),
            _ => (RecoveryStepModel::Do(RecoveryTask::InspectBar), a.recreated),
        },
        RecoveryTask::InspectBar => match answer {
            RecoveryAnswer::Presence(BarPresence::Alive) => (
                RecoveryStepModel::Do(RecoveryTask::AttachWindow),
                false,
            ),
            RecoveryAnswer::Presence(BarPresence::Dead) => (
                finish(RecoveryCleanup::DestroyWindow, "旧 Bar 已失效，正在等待 Tauri 清理窗口标签"@),
                false,
            ),
            RecoveryAnswer::Presence(BarPresence::StaleWebview) => (
                finish(RecoveryCleanup::CloseWebview, "旧 Bar WebView 尚未清理，正在等待标签释放"@),
                false,
            ),
            _ => (RecoveryStepModel::Do(RecoveryTask::CreateWindow), false),
        },
        RecoveryTask::CreateWindow => match answer {
            RecoveryAnswer::Failed(e) => (finish(RecoveryCleanup::Nothing, e@), false),
            _ => (RecoveryStepModel::Do(RecoveryTask::AttachWindow), true),
        },
        RecoveryTask::AttachWindow => match answer {
            RecoveryAnswer::Failed(e) => (finish(undo, e@), a.recreated),
            _ => (
                RecoveryStepModel::Do(
                    if a.recreated {
                        RecoveryTask::AddWebview
                    } else {
                        RecoveryTask::FindWebview
                    },
                ),
                a.recreated,
            ),
        },
        RecoveryTask::AddWebview => match answer {
            RecoveryAnswer::Failed(e) => (
                finish(RecoveryCleanup::DestroyWindow, "无法在 Bar 宿主内创建 Child WebView："@ + e@),
                a.recreated,
            ),
            _ => (RecoveryStepModel::Do(RecoveryTask::EnableAutoResize), a.recreated),
        },
        RecoveryTask::FindWebview => match answer {
            RecoveryAnswer::Flag(false) => (
                finish(RecoveryCleanup::Nothing, "Bar 原生宿主存在，但 Child WebView 不存在"@),
                a.recreated,
            ),
            _ => (RecoveryStepModel::Do(RecoveryTask::EnableAutoResize), a.recreated),
        },
        RecoveryTask::EnableAutoResize => match answer {
            RecoveryAnswer::Failed(e) => (
                if a.recreated {
                    finish(RecoveryCleanup::DestroyWindow, "无法启用 Bar WebView 自动尺寸同步："@ + e@)
                } else {
                    finish(RecoveryCleanup::Nothing, "无法恢复 Bar WebView 自动尺寸同步："@ + e@)
                },
                a.recreated,
            ),
            _ => (RecoveryStepModel::Do(RecoveryTask::CheckVisibility), a.recreated),
        },
        RecoveryTask::CheckVisibility => match answer {
            RecoveryAnswer::Flag(false) => (
                RecoveryStepModel::Do(RecoveryTask::HideWindow),
                a.recreated,
            ),
            _ => (RecoveryStepModel::Finish(RecoveryCleanup::Nothing, Ok(())), a.recreated),
        },
        RecoveryTask::HideWindow => match answer {
            RecoveryAnswer::Failed(e) => (finish(RecoveryCleanup::Nothing, e@), a.recreated),
            _ => (RecoveryStepModel::Finish(RecoveryCleanup::Nothing, Ok(())), a.recreated),
        },
    }
}

/// The answer has the kind that the task asks for.
pub open spec fn recovery_answer_fits(task: RecoveryTask, answer: RecoveryAnswer) -> bool {
    match task {
        RecoveryTask::InspectBar => answer is Presence,
        RecoveryTask::FindWebview | RecoveryTask::CheckVisibility => answer is Flag,
        _ => answer is Done || answer is Failed,
    }
}

impl RecoveryAttempt {
    /// A new attempt; its first task reads the environment.
    pub fn start() -> (r: RecoveryAttempt)
        ensures
            r.pending == RecoveryTask::ReadEnvironment,
            !r.recreated,
    {
        RecoveryAttempt { pending: RecoveryTask::ReadEnvironment, recreated: false }
    }

    fn end(cleanup: RecoveryCleanup, message: &str) -> (r: RecoveryStep)
        ensures
            recovery_step_view(r) == finish(cleanup, message@),
    {
        RecoveryStep::Finish { cleanup, result: Err(message.to_owned()) }
    }

    fn end_with(cleanup: RecoveryCleanup, message: String) -> (r: RecoveryStep)
        ensures
            recovery_step_view(r) == finish(cleanup, message@),
    {
        RecoveryStep::Finish { cleanup, result: Err(message) }
    }

    /// Takes the answer to the pending task and returns the next step;
    /// where that is a task, it becomes the pending one.
    pub fn advance(&mut self, answer: RecoveryAnswer) -> (r: RecoveryStep)
        requires
            recovery_answer_fits(old(self).pending, answer),
        ensures
            (recovery_step_view(r), final(self).recreated) == recovery_transition(*old(self), answer),
            r matches RecoveryStep::Do(t) ==> final(self).pending == t,
    {
        let undo = if self.recreated {
            RecoveryCleanup::DestroyWindow
        } else {
            RecoveryCleanup::Nothing
        };
        let next = match self.pending {
            RecoveryTask::ReadEnvironment => match answer {
                RecoveryAnswer::Failed(e) => return Self::end_with(RecoveryCleanup::Nothing, e),
                _ => RecoveryTask::InspectBar,
            },
            RecoveryTask::InspectBar => {
                self.recreated = false;
                match answer {
                    RecoveryAnswer::Presence(BarPresence::Alive) => RecoveryTask::AttachWindow,
                    RecoveryAnswer::Presence(BarPresence::Dead) => {
                        return Self::end(
                            RecoveryCleanup::DestroyWindow,
                            "旧 Bar 已失效，正在等待 Tauri 清理窗口标签",
                        );
                    },
                    RecoveryAnswer::Presence(BarPresence::StaleWebview) => {
                        return Self::end(
                            RecoveryCleanup::CloseWebview,
                            "旧 Bar WebView 尚未清理，正在等待标签释放",
                        );
                    },
                    _ => RecoveryTask::CreateWindow,
                }
            },
            RecoveryTask::CreateWindow => {
                self.recreated = false;
                match answer {
                    RecoveryAnswer::Failed(e) => return Self::end_with(RecoveryCleanup::Nothing, e),
                    _ => {
                        self.recreated = true;
                        RecoveryTask::AttachWindow
                    },
                }
            },
            RecoveryTask::AttachWindow => match answer {
                RecoveryAnswer::Failed(e) => return Self::end_with(undo, e),
                _ => if self.recreated {
                    RecoveryTask::AddWebview
                } else {
                    RecoveryTask::FindWebview
                },
            },
            RecoveryTask::AddWebview => match answer {
                RecoveryAnswer::Failed(e) => {
                    return Self::end_with(
                        RecoveryCleanup::DestroyWindow,
                        joined("无法在 Bar 宿主内创建 Child WebView：", e.as_str()),
                    );
                },
                _ => RecoveryTask::EnableAutoResize,
            },
            RecoveryTask::FindWebview => match answer {
                RecoveryAnswer::Flag(false) => {
                    return Self::end(
                        RecoveryCleanup::Nothing,
                        "Bar 原生宿主存在，但 Child WebView 不存在",
                    );
                },
                _ => RecoveryTask::EnableAutoResize,
            },
            RecoveryTask::EnableAutoResize => match answer {
                RecoveryAnswer::Failed(e) => {
                    if self.recreated {
                        return Self::end_with(
                            RecoveryCleanup::DestroyWindow,
                            joined("无法启用 Bar WebView 自动尺寸同步：", e.as_str()),
                        );
                    } else {
                        return Self::end_with(
                            RecoveryCleanup::Nothing,
                            joined("无法恢复 Bar WebView 自动尺寸同步：", e.as_str()),
                        );
                    }
                },
                _ => RecoveryTask::CheckVisibility,
            },
            RecoveryTask::CheckVisibility => match answer {
                RecoveryAnswer::Flag(false) => RecoveryTask::HideWindow,
                _ => return RecoveryStep::Finish { cleanup: RecoveryCleanup::Nothing, result: Ok(()) },
            },
            RecoveryTask::HideWindow => match answer {
                RecoveryAnswer::Failed(e) => return Self::end_with(RecoveryCleanup::Nothing, e),
                _ => return RecoveryStep::Finish { cleanup: RecoveryCleanup::Nothing, result: Ok(()) },
            },
        };
        self.pending = next;
        RecoveryStep::Do(next)
    }
}

// ---------------------------------------------------------------------------
// Following taskbar layout changes.
// ---------------------------------------------------------------------------

/// What of the taskbar decides where the lyrics bar stands.
#[derive(Debug, Clone, Copy, PartialEq, Eq, Structural)]
pub struct LyricsTaskbarLayout {
    pub taskbar_handle: u64,
    pub taskbar_dpi: u32,
    pub position: TaskbarPosition,
    pub manual_offset: i32,
    pub span_left: i32,
    pub span_width: i32,
}

/// The last layout applied to the lyrics bar, and a candidate seen once.
#[derive(Debug, Clone, Copy, PartialEq, Eq, Structural)]
pub struct LayoutDebouncer {
    pub previous: Option<LyricsTaskbarLayout>,
    pub pending: Option<LyricsTaskbarLayout>,
}

/// The debouncer and decision after reading `current`.
pub open spec fn observe_model(d: LayoutDebouncer, current: LyricsTaskbarLayout) -> (
    LayoutDebouncer,
    bool,
) {
    if d.previous == Some(current) {
        (LayoutDebouncer { previous: d.previous, pending: None }, false)
    } else if d.pending != Some(current) {
        (LayoutDebouncer { previous: d.previous, pending: Some(current) }, false)
    } else {
        (d, true)
    }
}

/// The debouncer after `current` was applied.
pub open spec fn applied_model(current: LyricsTaskbarLayout) -> LayoutDebouncer {
    LayoutDebouncer { previous: Some(current), pending: None }
}

impl LayoutDebouncer {
    /// Nothing applied or seen yet.
    pub fn new() -> (r: LayoutDebouncer)
        ensures
            r.previous is None,
            r.pending is None,
    {
        LayoutDebouncer { previous: None, pending: None }
    }

    /// Forgets everything: the lyrics are off, or a reading failed.
    pub fn reset(&mut self)
        ensures
            final(self).previous is None,
            final(self).pending is None,
    {
        self.previous = None;
        self.pending = None;
    }

    /// Takes a reading of the layout and says whether to apply it now: an
    /// already applied layout is not applied again; a new layout waits until
    /// it is read a second time in a row (Windows moves elements in steps).
    pub fn observe(&mut self, current: LyricsTaskbarLayout) -> (apply: bool)
        ensures
            (*final(self), apply) == observe_model(*old(self), current),
    {
        if self.previous == Some(current) {
            self.pending = None;
            return false;
        }
        if self.pending != Some(current) {
            self.pending = Some(current);
            return false;
        }
        true
    }

    /// Records that `current` was applied.
    pub fn applied(&mut self, current: LyricsTaskbarLayout)
        ensures
            *final(self) == applied_model(current),
    {
        self.previous = Some(current);
        self.pending = None;
    }
}

/// A new layout is not applied on its first reading, and is applied on the
/// second reading in a row; once applied, reading it again applies nothing.
pub proof fn lemma_layout_debounce(d: LayoutDebouncer, l: LyricsTaskbarLayout)
    requires
        d.previous != Some(l),
        d.pending != Some(l),
    ensures
        !observe_model(d, l).1,
        observe_model(observe_model(d, l).0, l).1,
        !observe_model(applied_model(l), l).1,
{
}

} // verus!
