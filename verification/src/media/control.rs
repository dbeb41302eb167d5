//! Media control: checking what the selected session declares it supports
//! and asking it to play, pause, skip or seek.
//!
//! Each query to the session is work outside the library. `ControlRun`
//! decides, from the answer to one query, which query comes next or how the
//! request ends; the caller performs the queries.
use vstd::prelude::*;

use super::model::{div_trunc, TICKS_PER_MILLISECOND};
use crate::text::joined;

verus! {

/// A control that the user can request.
#[derive(Debug, Clone, Copy, PartialEq, Eq, Structural)]
pub enum ControlAction {
    TogglePlayPause,
    Previous,
    Next,
    Seek { position_ms: i64 },
}

/// Why a control request failed.
#[derive(Debug, Clone, Copy, PartialEq, Eq, Structural)]
pub enum MediaControlErrorCode {
    NoSession,
    Unsupported,
    Rejected,
    WindowsApi,
}

/// A failed control request, as reported to the front end.
#[derive(Debug)]
pub struct MediaControlError {
    pub action: ControlAction,
    pub code: MediaControlErrorCode,
    pub message: String,
}

/// The plain value of a `MediaControlError`.
pub struct ControlErrorModel {
    pub action: ControlAction,
    pub code: MediaControlErrorCode,
    pub message: Seq<char>,
}

impl View for MediaControlError {
    type V = ControlErrorModel;

    open spec fn view(&self) -> ControlErrorModel {
        ControlErrorModel { action: self.action, code: self.code, message: self.message@ }
    }
}

impl MediaControlError {
    /// An error of the given kind.
    pub fn new(action: ControlAction, code: MediaControlErrorCode, message: String) -> (r: Self)
        ensures
            r.action == action,
            r.code == code,
            r.message@ == message@,
    {
        MediaControlError { action, code, message }
    }

    /// A failure of reading the application's own state, reported as a
    /// Windows API error.
    pub fn windows_api(action: ControlAction, message: String) -> (r: Self)
        ensures
            r.action == action,
            r.code == MediaControlErrorCode::WindowsApi,
            r.message@ == message@,
    {
        Self::new(action, MediaControlErrorCode::WindowsApi, message)
    }
}

/// A control that a session declares whether it supports.
#[derive(Debug, Clone, Copy, PartialEq, Eq, Structural)]
pub enum ControlCapability {
    Play,
    Pause,
    Previous,
    Next,
}

/// A request sent to the session.
#[derive(Debug, Clone, Copy, PartialEq, Eq, Structural)]
pub enum ControlCommand {
    TogglePlayPause,
    SkipPrevious,
    SkipNext,
    ChangePlaybackPosition { ticks: i64 },
}

/// The query the caller must perform next.
#[derive(Debug, Clone, Copy, PartialEq, Eq, Structural)]
pub enum ControlQuery {
    /// Read the session's playback info; answer `Done`.
    PlaybackInfo,
    /// Read the declared controls; answer `Done`.
    Controls,
    /// Whether changing the playback position is enabled; answer `Flag`.
    PlaybackPositionEnabled,
    /// The raw playback status; answer `Status`.
    PlaybackStatus,
    /// Whether a control is enabled; answer `Flag`.
    CapabilityEnabled { capability: ControlCapability },
    /// Read the timeline properties; answer `Done`.
    Timeline,
    /// The timeline's start, in ticks; answer `Ticks`.
    StartTime,
    /// The timeline's end, in ticks; answer `Ticks`.
    EndTime { start: i64 },
    /// The earliest seek position, in ticks; answer `Ticks`.
    MinSeekTime { start: i64, end: i64 },
    /// The latest seek position, in ticks; answer `Ticks`.
    MaxSeekTime { start: i64, end: i64, min_seek: i64 },
    /// Send the command and wait for it; answer `Flag` (whether the
    /// session accepted it).
    Send { command: ControlCommand },
}

/// The caller's answer to a query. `Failed` carries the text of the
/// Windows error.
#[derive(Debug)]
pub enum ControlAnswer {
    Done,
    Flag(bool),
    Status(i32),
    Ticks(i64),
    Failed(String),
}

/// The next step of a control request.
#[derive(Debug)]
pub enum ControlStep {
    Query(ControlQuery),
    Finished(Result<(), MediaControlError>),
}

/// A control request in progress.
#[derive(Debug)]
pub struct ControlRun {
    pub action: ControlAction,
    pub pending: ControlQuery,
}

// ---------------------------------------------------------------------------
// Model.
// ---------------------------------------------------------------------------

/// The raw status value of `Playing`.
pub open spec fn playing_code() -> i32 {
    4
}

/// The command that an action sends.
pub open spec fn command_of(action: ControlAction) -> ControlCommand {
    match action {
        ControlAction::TogglePlayPause => ControlCommand::TogglePlayPause,
        ControlAction::Previous => ControlCommand::SkipPrevious,
        ControlAction::Next => ControlCommand::SkipNext,
        ControlAction::Seek { .. } => ControlCommand::SkipNext,
    }
}

/// What an error says before the Windows error's own text, for a failed
/// query.
pub open spec fn failure_prefix(query: ControlQuery) -> Seq<char> {
    match query {
        ControlQuery::PlaybackInfo => "无法读取当前播放器状态："@,
        ControlQuery::Controls => "无法读取当前播放器控制能力："@,
        ControlQuery::PlaybackPositionEnabled => "无法确认播放器是否支持进度跳转："@,
        ControlQuery::PlaybackStatus => "无法读取播放/暂停状态："@,
        ControlQuery::CapabilityEnabled { .. } => "无法确认播放器是否支持当前操作："@,
        ControlQuery::Timeline => "无法读取当前播放器时间轴："@,
        ControlQuery::StartTime => "无法读取时间轴开始位置："@,
        ControlQuery::EndTime { .. } => "无法读取时间轴结束位置："@,
        ControlQuery::MinSeekTime { .. } => "无法读取最小进度跳转位置："@,
        ControlQuery::MaxSeekTime { .. } => "无法读取最大进度跳转位置："@,
        ControlQuery::Send { command } => match command {
            ControlCommand::ChangePlaybackPosition { .. } => "Windows 进度跳转调用失败："@,
            _ => "Windows 媒体控制调用失败："@,
        },
    }
}

/// The answer has the kind that the query asks for.
pub open spec fn answer_fits(query: ControlQuery, answer: ControlAnswer) -> bool {
    match answer {
        ControlAnswer::Failed(_) => true,
        ControlAnswer::Done => query is PlaybackInfo || query is Controls || query is Timeline,
        ControlAnswer::Flag(_) => query is PlaybackPositionEnabled || query is CapabilityEnabled
            || query is Send,
        ControlAnswer::Status(_) => query is PlaybackStatus,
        ControlAnswer::Ticks(_) => query is StartTime || query is EndTime || query is MinSeekTime
            || query is MaxSeekTime,
    }
}

/// The outcome of a step in plain values: the next query, or how the
/// request ends (`Ok(())`, or an error's action, code and message).
pub enum StepModel {
    Query(ControlQuery),
    Finished(Result<(), (MediaControlErrorCode, Seq<char>)>),
}

pub open spec fn step_view(step: ControlStep) -> StepModel {
    match step {
        ControlStep::Query(q) => StepModel::Query(q),
        ControlStep::Finished(Ok(())) => StepModel::Finished(Ok(())),
        ControlStep::Finished(Err(e)) => StepModel::Finished(Err((e.code, e.message@))),
    }
}

pub open spec fn fail(code: MediaControlErrorCode, message: Seq<char>) -> StepModel {
    StepModel::Finished(Err((code, message)))
}

/// The valid seek range in ticks: from the later of the start and the
/// earliest seek position, to the earlier of the end and the latest seek
/// position (the end, where a player reports no latest seek position after
/// the lower bound).
pub open spec fn seek_lower(start: i64, min_seek: i64) -> int {
    if start >= min_seek { start as int } else { min_seek as int }
}

pub open spec fn seek_upper(start: i64, end: i64, min_seek: i64, max_seek: i64) -> int {
    let reported = if max_seek > seek_lower(start, min_seek) { max_seek as int } else { end as int };
    if end as int <= reported { end as int } else { reported }
}

/// The position, in milliseconds, that a seek to `position_ms` requests:
/// `position_ms` clamped into the valid range, each bound rounded toward
/// zero to whole milliseconds.
pub open spec fn seek_target_ms(position_ms: i64, lower: int, upper: int) -> int {
    let lower_ms = div_trunc(lower, 10000);
    let upper_ms = div_trunc(upper, 10000);
    if position_ms < lower_ms {
        lower_ms
    } else if position_ms > upper_ms {
        upper_ms
    } else {
        position_ms as int
    }
}

pub open spec fn no_timeline_message() -> Seq<char> {
    "当前媒体没有可跳转的有效时间轴"@
}

pub open spec fn target_overflow_message() -> Seq<char> {
    "目标播放位置无法转换为 Windows 时间单位"@
}

/// How a seek to `position_ms` goes on from the timeline values: the
/// position command, or the error.
pub open spec fn seek_plan(
    position_ms: i64,
    start: i64,
    end: i64,
    min_seek: i64,
    max_seek: i64,
) -> Result<i64, (MediaControlErrorCode, Seq<char>)> {
    let lower = seek_lower(start, min_seek);
    let upper = seek_upper(start, end, min_seek, max_seek);
    if upper <= lower {
        Err((MediaControlErrorCode::Unsupported, no_timeline_message()))
    } else {
        let ticks = seek_target_ms(position_ms, lower, upper) * 10000;
        if i64::MIN <= ticks <= i64::MAX {
            Ok(ticks as i64)
        } else {
            Err((MediaControlErrorCode::WindowsApi, target_overflow_message()))
        }
    }
}

/// The step that follows `answer` to `query` in a request for `action`.
pub open spec fn control_transition(
    action: ControlAction,
    query: ControlQuery,
    answer: ControlAnswer,
) -> StepModel {
    match answer {
        ControlAnswer::Failed(detail) => fail(
            MediaControlErrorCode::WindowsApi,
            failure_prefix(query) + detail@,
        ),
        ControlAnswer::Done => match query {
            ControlQuery::PlaybackInfo => StepModel::Query(ControlQuery::Controls),
            ControlQuery::Controls => match action {
                ControlAction::Seek { .. } => StepModel::Query(
                    ControlQuery::PlaybackPositionEnabled,
                ),
                ControlAction::TogglePlayPause => StepModel::Query(ControlQuery::PlaybackStatus),
                ControlAction::Previous => StepModel::Query(
                    ControlQuery::CapabilityEnabled { capability: ControlCapability::Previous },
                ),
                ControlAction::Next => StepModel::Query(
                    ControlQuery::CapabilityEnabled { capability: ControlCapability::Next },
                ),
            },
            _ => StepModel::Query(ControlQuery::StartTime),
        },
        ControlAnswer::Status(code) => StepModel::Query(
            ControlQuery::CapabilityEnabled {
                capability: if code == playing_code() {
                    ControlCapability::Pause
                } else {
                    ControlCapability::Play
                },
            },
        ),
        ControlAnswer::Ticks(t) => match query {
            ControlQuery::StartTime => StepModel::Query(ControlQuery::EndTime { start: t }),
            ControlQuery::EndTime { start } => StepModel::Query(
                ControlQuery::MinSeekTime { start, end: t },
            ),
            ControlQuery::MinSeekTime { start, end } => StepModel::Query(
                ControlQuery::MaxSeekTime { start, end, min_seek: t },
            ),
            ControlQuery::MaxSeekTime { start, end, min_seek } => match action {
                ControlAction::Seek { position_ms } => match seek_plan(
                    position_ms,
                    start,
                    end,
                    min_seek,
                    t,
                ) {
                    Ok(ticks) => StepModel::Query(
                        ControlQuery::Send {
                            command: ControlCommand::ChangePlaybackPosition { ticks },
                        },
                    ),
                    Err((code, message)) => fail(code, message),
                },
                _ => fail(MediaControlErrorCode::Unsupported, no_timeline_message()),
            },
            _ => StepModel::Query(query),
        },
        ControlAnswer::Flag(enabled) => match query {
            ControlQuery::PlaybackPositionEnabled => if enabled {
                StepModel::Query(ControlQuery::Timeline)
            } else {
                fail(MediaControlErrorCode::Unsupported, "当前播放器未声明支持进度跳转"@)
            },
            ControlQuery::CapabilityEnabled { .. } => if enabled {
                StepModel::Query(ControlQuery::Send { command: command_of(action) })
            } else {
                fail(MediaControlErrorCode::Unsupported, "当前播放器未声明支持此操作"@)
            },
            ControlQuery::Send { command } => if enabled {
                StepModel::Finished(Ok(()))
            } else {
                match command {
                    ControlCommand::ChangePlaybackPosition { .. } => fail(
                        MediaControlErrorCode::Rejected,
                        "播放器收到请求，但没有接受进度跳转"@,
                    ),
                    _ => fail(MediaControlErrorCode::Rejected, "播放器收到请求，但没有接受此操作"@),
                }
            },
            _ => StepModel::Query(query),
        },
    }
}

/// The queries that a request for `action` can have pending.
pub open spec fn reachable(action: ControlAction, query: ControlQuery) -> bool {
    match query {
        ControlQuery::PlaybackPositionEnabled | ControlQuery::Timeline | ControlQuery::StartTime
        | ControlQuery::EndTime { .. } | ControlQuery::MinSeekTime { .. }
        | ControlQuery::MaxSeekTime { .. } => action is Seek,
        ControlQuery::PlaybackStatus => action is TogglePlayPause,
        ControlQuery::CapabilityEnabled { .. } => !(action is Seek),
        ControlQuery::Send { command } => match command {
            ControlCommand::ChangePlaybackPosition { .. } => action is Seek,
            _ => command == command_of(action) && !(action is Seek),
        },
        _ => true,
    }
}

/// A seek never asks for a position outside the valid range: the position
/// sent lies between the range's bounds (each rounded toward zero to whole
/// milliseconds), is a whole number of milliseconds, and is the requested
/// position itself wherever that lies in the range.
pub proof fn lemma_seek_within_range(
    position_ms: i64,
    start: i64,
    end: i64,
    min_seek: i64,
    max_seek: i64,
)
    ensures
        seek_plan(position_ms, start, end, min_seek, max_seek) matches Ok(t) ==> {
            let lower_ms = div_trunc(seek_lower(start, min_seek), 10000);
            let upper_ms = div_trunc(seek_upper(start, end, min_seek, max_seek), 10000);
            &&& t % 10000 == 0
            &&& lower_ms * 10000 <= t <= upper_ms * 10000
            &&& (lower_ms <= position_ms <= upper_ms ==> t == position_ms * 10000)
        },
{
    let lower = seek_lower(start, min_seek);
    let upper = seek_upper(start, end, min_seek, max_seek);
    if upper > lower {
        let lower_ms = div_trunc(lower, 10000);
        let upper_ms = div_trunc(upper, 10000);
        assert(lower_ms <= upper_ms) by (nonlinear_arith)
            requires
                lower < upper,
                lower_ms == div_trunc(lower, 10000),
                upper_ms == div_trunc(upper, 10000),
        {
        }
        let m = seek_target_ms(position_ms, lower, upper);
        assert(lower_ms <= m <= upper_ms);
        assert((m * 10000) % 10000 == 0) by (nonlinear_arith);
        assert(lower_ms * 10000 <= m * 10000 <= upper_ms * 10000) by (nonlinear_arith)
            requires
                lower_ms <= m <= upper_ms,
        {
        }
    }
}

// ---------------------------------------------------------------------------
// Executable code.
// ---------------------------------------------------------------------------

/// Rust's `i64` division by the ticks of one millisecond.
fn ticks_to_ms(ticks: i64) -> (r: i64)
    ensures
        r == div_trunc(ticks as int, 10000),
{
    ticks / TICKS_PER_MILLISECOND
}

/// Plans a seek to `position_ms` from the timeline that the session reports.
pub fn plan_seek(position_ms: i64, start: i64, end: i64, min_seek: i64, max_seek: i64) -> (r: Result<
    i64,
    (MediaControlErrorCode, String),
>)
    ensures
        match (r, seek_plan(position_ms, start, end, min_seek, max_seek)) {
            (Ok(t), Ok(u)) => t == u,
            (Err((c, m)), Err((d, n))) => c == d && m@ == n,
            _ => false,
        },
{
    let lower = if start >= min_seek { start } else { min_seek };
    let reported_upper = if max_seek > lower { max_seek } else { end };
    let upper = if end <= reported_upper { end } else { reported_upper };
    if upper <= lower {
        return Err((MediaControlErrorCode::Unsupported, "当前媒体没有可跳转的有效时间轴".to_owned()));
    }
    let lower_ms = ticks_to_ms(lower);
    let upper_ms = ticks_to_ms(upper);
    proof {
        assert(div_trunc(lower as int, 10000) <= div_trunc(upper as int, 10000)) by (nonlinear_arith)
            requires
                lower < upper,
        {
        }
    }
    let target_ms = if position_ms < lower_ms {
        lower_ms
    } else if position_ms > upper_ms {
        upper_ms
    } else {
        position_ms
    };
    match target_ms.checked_mul(TICKS_PER_MILLISECOND) {
        Some(ticks) => Ok(ticks),
        None => Err((MediaControlErrorCode::WindowsApi, "目标播放位置无法转换为 Windows 时间单位".to_owned())),
    }
}

impl ControlRun {
    /// Starts a request for `action` on the selected session, if there is
    /// one; the first query is the session's playback info.
    pub fn start(action: ControlAction, has_session: bool) -> (r: Result<ControlRun, MediaControlError>)
        ensures
            has_session ==> (r matches Ok(run) && run.action == action && run.pending
                == ControlQuery::PlaybackInfo),
            !has_session ==> (r matches Err(e) && e.action == action && e.code
                == MediaControlErrorCode::NoSession && e.message@ == "当前没有可控制的媒体会话"@),
    {
        if has_session {
            Ok(ControlRun { action, pending: ControlQuery::PlaybackInfo })
        } else {
            Err(
                MediaControlError::new(
                    action,
                    MediaControlErrorCode::NoSession,
                    "当前没有可控制的媒体会话".to_owned(),
                ),
            )
        }
    }

    /// Whether the request is in a state that its action can reach.
    pub open spec fn wf(&self) -> bool {
        reachable(self.action, self.pending)
    }

    fn failure(&self, detail: &str) -> (r: MediaControlError)
        ensures
            r.action == self.action,
            r.code == MediaControlErrorCode::WindowsApi,
            r.message@ == failure_prefix(self.pending) + detail@,
    {
        let prefix = match self.pending {
            ControlQuery::PlaybackInfo => "无法读取当前播放器状态：",
            ControlQuery::Controls => "无法读取当前播放器控制能力：",
            ControlQuery::PlaybackPositionEnabled => "无法确认播放器是否支持进度跳转：",
            ControlQuery::PlaybackStatus => "无法读取播放/暂停状态：",
            ControlQuery::CapabilityEnabled { .. } => "无法确认播放器是否支持当前操作：",
            ControlQuery::Timeline => "无法读取当前播放器时间轴：",
            ControlQuery::StartTime => "无法读取时间轴开始位置：",
            ControlQuery::EndTime { .. } => "无法读取时间轴结束位置：",
            ControlQuery::MinSeekTime { .. } => "无法读取最小进度跳转位置：",
            ControlQuery::MaxSeekTime { .. } => "无法读取最大进度跳转位置：",
            ControlQuery::Send { command } => match command {
                ControlCommand::ChangePlaybackPosition { .. } => "Windows 进度跳转调用失败：",
                _ => "Windows 媒体控制调用失败：",
            },
        };
        MediaControlError::windows_api(self.action, joined(prefix, detail))
    }

    fn finish_with(&self, code: MediaControlErrorCode, message: &str) -> (r: ControlStep)
        ensures
            step_view(r) == fail(code, message@),
            r matches ControlStep::Finished(Err(e)) ==> e.action == self.action,
    {
        let e = MediaControlError::new(self.action, code, message.to_owned());
        ControlStep::Finished(Err(e))
    }

    /// Takes the answer to the pending query and returns the next step;
    /// where that is a query, it becomes the pending one.
    pub fn advance(&mut self, answer: ControlAnswer) -> (r: ControlStep)
        requires
            old(self).wf(),
            answer_fits(old(self).pending, answer),
        ensures
            r matches ControlStep::Finished(Err(e)) ==> e.action == old(self).action,
            step_view(r) == control_transition(
                old(self).action,
                old(self).pending,
                answer,
            ),
            final(self).action == old(self).action,
            final(self).wf(),
            r matches ControlStep::Query(q) ==> final(self).pending == q,
    {
        let action = self.action;
        let next = match answer {
            ControlAnswer::Failed(detail) => {
                return ControlStep::Finished(Err(self.failure(detail.as_str())));
            },
            ControlAnswer::Done => match self.pending {
                ControlQuery::PlaybackInfo => ControlQuery::Controls,
                ControlQuery::Controls => match action {
                    ControlAction::Seek { .. } => ControlQuery::PlaybackPositionEnabled,
                    ControlAction::TogglePlayPause => ControlQuery::PlaybackStatus,
                    ControlAction::Previous => ControlQuery::CapabilityEnabled {
                        capability: ControlCapability::Previous,
                    },
                    ControlAction::Next => ControlQuery::CapabilityEnabled {
                        capability: ControlCapability::Next,
                    },
                },
                _ => ControlQuery::StartTime,
            },
            ControlAnswer::Status(code) => ControlQuery::CapabilityEnabled {
                capability: if code == 4 {
                    ControlCapability::Pause
                } else {
                    ControlCapability::Play
                },
            },
            ControlAnswer::Ticks(t) => match self.pending {
                ControlQuery::StartTime => ControlQuery::EndTime { start: t },
                ControlQuery::EndTime { start } => ControlQuery::MinSeekTime { start, end: t },
                ControlQuery::MinSeekTime { start, end } => ControlQuery::MaxSeekTime {
                    start,
                    end,
                    min_seek: t,
                },
                ControlQuery::MaxSeekTime { start, end, min_seek } => match action {
                    ControlAction::Seek { position_ms } => match plan_seek(
                        position_ms,
                        start,
                        end,
                        min_seek,
                        t,
                    ) {
                        Ok(ticks) => ControlQuery::Send {
                            command: ControlCommand::ChangePlaybackPosition { ticks },
                        },
                        Err((code, message)) => {
                            return ControlStep::Finished(
                                Err(MediaControlError::new(action, code, message)),
                            );
                        },
                    },
                    _ => {
                        return self.finish_with(
                            MediaControlErrorCode::Unsupported,
                            "当前媒体没有可跳转的有效时间轴",
                        );
                    },
                },
                _ => self.pending,
            },
            ControlAnswer::Flag(enabled) => match self.pending {
                ControlQuery::PlaybackPositionEnabled => {
                    if enabled {
                        ControlQuery::Timeline
                    } else {
                        return self.finish_with(
                            MediaControlErrorCode::Unsupported,
                            "当前播放器未声明支持进度跳转",
                        );
                    }
                },
                ControlQuery::CapabilityEnabled { .. } => {
                    if enabled {
                        let command = match action {
                            ControlAction::TogglePlayPause => ControlCommand::TogglePlayPause,
                            ControlAction::Previous => ControlCommand::SkipPrevious,
                            ControlAction::Next => ControlCommand::SkipNext,
                            ControlAction::Seek { .. } => ControlCommand::SkipNext,
                        };
                        ControlQuery::Send { command }
                    } else {
                        return self.finish_with(
                            MediaControlErrorCode::Unsupported,
                            "当前播放器未声明支持此操作",
                        );
                    }
                },
                ControlQuery::Send { command } => {
                    if enabled {
                        return ControlStep::Finished(Ok(()));
                    } else {
                        match command {
                            ControlCommand::ChangePlaybackPosition { .. } => {
                                return self.finish_with(
                                    MediaControlErrorCode::Rejected,
                                    "播放器收到请求，但没有接受进度跳转",
                                );
                            },
                            _ => {
                                return self.finish_with(
                                    MediaControlErrorCode::Rejected,
                                    "播放器收到请求，但没有接受此操作",
                                );
                            },
                        }
                    }
                },
                _ => self.pending,
            },
        };
        self.pending = next;
        ControlStep::Query(next)
    }
}

} // verus!
