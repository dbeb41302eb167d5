//! The volume of the application that plays the current media: matching its
//! Core Audio sessions, summarising them into the level the user hears, and
//! planning what a volume control sets.
use vstd::prelude::*;

use crate::media::model::{identify_media_player, player_kind_of, MediaPlayerKind};
use crate::text::{
    ascii_lower_seq, chars_of, contains_chars, equal_ignore_ascii_case, has_infix, lower_chars,
    trim_seq, trimmed,
};

verus! {

/// A volume control that the front end can request.
#[derive(Debug, Clone, Copy, PartialEq, Eq, Structural)]
pub enum ApplicationVolumeAction {
    SetLevel { level_percent: u8 },
    Adjust { delta_percent: i8 },
    ToggleMute,
}

/// The volume of the current media application.
#[derive(Debug, Clone, Copy, PartialEq, Eq, Structural)]
pub struct ApplicationVolumeState {
    pub session_key: u64,
    pub level_percent: u8,
    pub muted: bool,
}

/// Why a volume request failed.
#[derive(Debug, Clone, Copy, PartialEq, Eq, Structural)]
pub enum ApplicationVolumeErrorCode {
    NoMediaSession,
    SessionChanged,
    AudioSessionUnavailable,
    WindowsApi,
    WorkerUnavailable,
}

/// A failed volume request: its kind and a readable message.
#[derive(Debug)]
pub struct ApplicationVolumeError {
    pub code: ApplicationVolumeErrorCode,
    pub message: String,
}

/// The media session whose application the volume belongs to.
#[derive(Debug)]
pub struct MediaVolumeIdentity {
    pub session_key: u64,
    pub source_app_id: String,
    pub player_kind: MediaPlayerKind,
}

/// What was read of one matching Core Audio session. The level is the
/// session's master volume as a whole percentage (the scalar clamped to
/// 0..1, times 100, rounded).
#[derive(Debug, Clone, Copy, PartialEq, Eq, Structural)]
pub struct AudioSessionReading {
    pub level_percent: u8,
    pub muted: bool,
    pub active: bool,
    pub match_score: u8,
}

/// The text that marks a media identity error as a switched session.
pub open spec fn session_changed_marker() -> Seq<char> {
    "已经切换"@
}

impl ApplicationVolumeError {
    /// An error of the given kind.
    pub fn new(code: ApplicationVolumeErrorCode, message: String) -> (r: Self)
        ensures
            r.code == code,
            r.message@ == message@,
    {
        ApplicationVolumeError { code, message }
    }

    /// The error for a media session that could not be identified: a
    /// switched session where the message says so, else no media session.
    pub fn media_identity(message: String) -> (r: Self)
        ensures
            r.message@ == message@,
            r.code == if has_infix(message@, session_changed_marker()) {
                ApplicationVolumeErrorCode::SessionChanged
            } else {
                ApplicationVolumeErrorCode::NoMediaSession
            },
    {
        let text = chars_of(message.as_str());
        let marker = chars_of("已经切换");
        proof {
            reveal_strlit("已经切换");
        }
        let code = if contains_chars(text.as_slice(), marker.as_slice()) {
            ApplicationVolumeErrorCode::SessionChanged
        } else {
            ApplicationVolumeErrorCode::NoMediaSession
        };
        Self::new(code, message)
    }

    /// A failed Windows call.
    pub fn windows_api(message: String) -> (r: Self)
        ensures
            r.code == ApplicationVolumeErrorCode::WindowsApi,
            r.message@ == message@,
    {
        Self::new(ApplicationVolumeErrorCode::WindowsApi, message)
    }

    /// The readable message.
    pub fn to_string(&self) -> (r: String)
        ensures
            r@ == self.message@,
    {
        self.message.clone()
    }
}

// ---------------------------------------------------------------------------
// Matching a process to the media session.
// ---------------------------------------------------------------------------

/// A process image belongs to a player: the player is a recognised one, and
/// its image name is classified as that player.
pub open spec fn image_matches_player(kind: MediaPlayerKind, image_name: Seq<char>) -> bool {
    kind != MediaPlayerKind::Other && player_kind_of(image_name) == kind
}

/// How well a process matches the media session: 3 when its application
/// user model id equals the session's source app id (trimmed) ignoring ASCII
/// case; 2 when the lower-cased source app id contains the lower-cased image
/// file name or stem; 1 when the image belongs to the session's player;
/// none otherwise, and none where the image has no file name or stem.
pub open spec fn match_score_of(
    app_user_model_id: Option<Seq<char>>,
    image_name: Option<Seq<char>>,
    image_stem: Option<Seq<char>>,
    source_app_id: Seq<char>,
    player_kind: MediaPlayerKind,
) -> Option<u8> {
    if app_user_model_id matches Some(id) && ascii_lower_seq(id) == ascii_lower_seq(
        trim_seq(source_app_id),
    ) {
        Some(3)
    } else if image_name is None || image_stem is None {
        None
    } else {
        let name = ascii_lower_seq(image_name->0);
        let stem = ascii_lower_seq(image_stem->0);
        let source = ascii_lower_seq(source_app_id);
        if has_infix(source, name) || has_infix(source, stem) {
            Some(2)
        } else if image_matches_player(player_kind, name) {
            Some(1)
        } else {
            None
        }
    }
}

pub open spec fn text_opt(s: Option<String>) -> Option<Seq<char>> {
    match s {
        Some(t) => Some(t@),
        None => None,
    }
}

/// The match score of a process, given its application user model id and
/// its image's file name and stem (none where the path has none or they are
/// not valid Unicode).
pub fn match_score(
    app_user_model_id: &Option<String>,
    image_name: &Option<String>,
    image_stem: &Option<String>,
    identity: &MediaVolumeIdentity,
) -> (r: Option<u8>)
    ensures
        r == match_score_of(
            text_opt(*app_user_model_id),
            text_opt(*image_name),
            text_opt(*image_stem),
            identity.source_app_id@,
            identity.player_kind,
        ),
{
    let source = chars_of(identity.source_app_id.as_str());
    if let Some(id) = app_user_model_id {
        let id_chars = chars_of(id.as_str());
        let trimmed_source = trimmed(source.as_slice());
        if equal_ignore_ascii_case(id_chars.as_slice(), trimmed_source.as_slice()) {
            return Some(3);
        }
    }
    let (name, stem) = match (image_name, image_stem) {
        (Some(n), Some(s)) => (n, s),
        _ => return None,
    };
    let name_chars = chars_of(name.as_str());
    let lower_name = lower_chars(name_chars.as_slice());
    let stem_chars = chars_of(stem.as_str());
    let lower_stem = lower_chars(stem_chars.as_slice());
    let lower_source = lower_chars(source.as_slice());
    if contains_chars(lower_source.as_slice(), lower_name.as_slice()) || contains_chars(
        lower_source.as_slice(),
        lower_stem.as_slice(),
    ) {
        return Some(2);
    }
    if identity.player_kind == MediaPlayerKind::Other {
        return None;
    }
    let mut lowered = String::new();
    let mut i: usize = 0;
    while i < lower_name.len()
        invariant
            i <= lower_name@.len(),
            lowered@ == lower_name@.take(i as int),
        decreases lower_name.len() - i,
    {
        crate::text::push_char(&mut lowered, lower_name[i]);
        i += 1;
        proof {
            assert(lowered@ =~= lower_name@.take(i as int));
        }
    }
    proof {
        assert(lower_name@.take(lower_name@.len() as int) =~= lower_name@);
    }
    if identify_media_player(lowered.as_str()) == identity.player_kind {
        Some(1)
    } else {
        None
    }
}

/// What was read of one Core Audio session, and whether it counts: a
/// session without a readable non-zero process id, whose process does not
/// match the media session, or whose volume cannot be read, is skipped; a
/// mute or activity state that cannot be read counts as `false`.
pub fn accept_audio_session(
    process_id: Option<u32>,
    match_score: Option<u8>,
    level_percent: Option<u8>,
    muted: Option<bool>,
    active: Option<bool>,
) -> (r: Option<AudioSessionReading>)
    ensures
        (process_id is None || process_id == Some(0u32) || match_score is None || level_percent is None)
            ==> r is None,
        !(process_id is None || process_id == Some(0u32) || match_score is None || level_percent is None)
            ==> r == Some(
            AudioSessionReading {
                level_percent: level_percent->0,
                muted: muted == Some(true),
                active: active == Some(true),
                match_score: match_score->0,
            },
        ),
{
    match (process_id, match_score, level_percent) {
        (Some(pid), Some(score), Some(level)) => {
            if pid == 0 {
                None
            } else {
                Some(
                    AudioSessionReading {
                        level_percent: level,
                        muted: muted == Some(true),
                        active: active == Some(true),
                        match_score: score,
                    },
                )
            }
        },
        _ => None,
    }
}

// ---------------------------------------------------------------------------
// Summarising the matching sessions.
// ---------------------------------------------------------------------------

/// The highest match score among the sessions (-1 for none).
pub open spec fn best_score(ss: Seq<AudioSessionReading>) -> int
    decreases ss.len(),
{
    if ss.len() == 0 {
        -1
    } else {
        let rest = best_score(ss.drop_last());
        if ss.last().match_score as int > rest {
            ss.last().match_score as int
        } else {
            rest
        }
    }
}

/// Some session with the given score is active.
pub open spec fn any_active_with(ss: Seq<AudioSessionReading>, score: int) -> bool {
    exists|i: int| 0 <= i < ss.len() && (#[trigger] ss[i]).match_score == score && ss[i].active
}

/// A session counts for the summary: it has the best score, and it is
/// active where any session with the best score is.
pub open spec fn counts(s: AudioSessionReading, score: int, need_active: bool) -> bool {
    s.match_score == score && (!need_active || s.active)
}

/// The highest level among the counted sessions (0 for none).
pub open spec fn counted_level(ss: Seq<AudioSessionReading>, score: int, need_active: bool) -> int
    decreases ss.len(),
{
    if ss.len() == 0 {
        0
    } else {
        let rest = counted_level(ss.drop_last(), score, need_active);
        if counts(ss.last(), score, need_active) && ss.last().level_percent as int > rest {
            ss.last().level_percent as int
        } else {
            rest
        }
    }
}

/// Every counted session is muted.
pub open spec fn counted_muted(ss: Seq<AudioSessionReading>, score: int, need_active: bool) -> bool
    decreases ss.len(),
{
    if ss.len() == 0 {
        true
    } else {
        counted_muted(ss.drop_last(), score, need_active) && (!counts(
            ss.last(),
            score,
            need_active,
        ) || ss.last().muted)
    }
}

/// The level and mute state the user hears from the application: among the
/// sessions with the best match score (the active ones, where any is
/// active), the highest level, and muted only where all of them are muted.
/// None where no session matches.
pub open spec fn summary_of(ss: Seq<AudioSessionReading>) -> Option<(u8, bool)> {
    if ss.len() == 0 {
        None
    } else {
        let score = best_score(ss);
        let need_active = any_active_with(ss, score);
        Some((counted_level(ss, score, need_active) as u8, counted_muted(ss, score, need_active)))
    }
}

proof fn lemma_best_score(ss: Seq<AudioSessionReading>)
    ensures
        forall|i: int| 0 <= i < ss.len() ==> (#[trigger] ss[i]).match_score <= best_score(ss),
        ss.len() > 0 ==> exists|i: int| 0 <= i < ss.len() && (#[trigger] ss[i]).match_score == best_score(ss),
        -1 <= best_score(ss) <= 255,
    decreases ss.len(),
{
    if ss.len() > 0 {
        let d = ss.drop_last();
        lemma_best_score(d);
        assert forall|i: int| 0 <= i < ss.len() implies (#[trigger] ss[i]).match_score <= best_score(ss) by {
            if i < d.len() {
                assert(ss[i] == d[i]);
            }
        }
        if ss.last().match_score as int > best_score(d) {
            assert(ss[ss.len() - 1].match_score == best_score(ss));
        } else {
            let i = choose|i: int| 0 <= i < d.len() && (#[trigger] d[i]).match_score == best_score(d);
            assert(ss[i] == d[i]);
        }
    }
}

proof fn lemma_counted_level_bound(ss: Seq<AudioSessionReading>, score: int, need_active: bool)
    ensures
        0 <= counted_level(ss, score, need_active) <= 255,
    decreases ss.len(),
{
    if ss.len() > 0 {
        lemma_counted_level_bound(ss.drop_last(), score, need_active);
    }
}

/// The summary of the matching sessions.
pub fn summarize_sessions(sessions: &[AudioSessionReading]) -> (r: Option<(u8, bool)>)
    ensures
        r == summary_of(sessions@),
{
    if sessions.len() == 0 {
        return None;
    }
    let ghost ss = sessions@;
    let mut best: u8 = 0;
    let mut i: usize = 0;
    while i < sessions.len()
        invariant
            ss == sessions@,
            0 < ss.len(),
            i <= ss.len(),
            i == 0 ==> best == 0,
            i > 0 ==> best as int == best_score(ss.take(i as int)),
        decreases sessions.len() - i,
    {
        proof {
            assert(ss.take(i + 1).drop_last() =~= ss.take(i as int));
            lemma_best_score(ss.take(i as int));
        }
        if i == 0 || sessions[i].match_score > best {
            best = sessions[i].match_score;
        }
        i += 1;
    }
    proof {
        assert(ss.take(ss.len() as int) =~= ss);
    }
    let mut has_active = false;
    let mut i: usize = 0;
    while i < sessions.len()
        invariant
            ss == sessions@,
            i <= ss.len(),
            has_active == exists|j: int|
                0 <= j < i && (#[trigger] ss[j]).match_score == best && ss[j].active,
        decreases sessions.len() - i,
    {
        if sessions[i].match_score == best && sessions[i].active {
            has_active = true;
        }
        i += 1;
    }
    assert(has_active == any_active_with(ss, best as int));
    let mut level: u8 = 0;
    let mut muted = true;
    let mut i: usize = 0;
    while i < sessions.len()
        invariant
            ss == sessions@,
            i <= ss.len(),
            level as int == counted_level(ss.take(i as int), best as int, has_active),
            muted == counted_muted(ss.take(i as int), best as int, has_active),
        decreases sessions.len() - i,
    {
        proof {
            assert(ss.take(i + 1).drop_last() =~= ss.take(i as int));
            assert(ss.take(i + 1).last() == ss[i as int]);
        }
        let s = sessions[i];
        let counted = s.match_score == best && (!has_active || s.active);
        if counted && s.level_percent > level {
            level = s.level_percent;
        }
        muted = muted && (!counted || s.muted);
        i += 1;
    }
    proof {
        assert(ss.take(ss.len() as int) =~= ss);
    }
    Some((level, muted))
}

// ---------------------------------------------------------------------------
// Controls.
// ---------------------------------------------------------------------------

/// What an action sets: a level (0..=100), and a mute state. Setting a
/// level above zero also unmutes; toggling mute keeps the level.
pub open spec fn targets_of(
    action: ApplicationVolumeAction,
    current_percent: u8,
    currently_muted: bool,
) -> (Option<u8>, Option<bool>) {
    match action {
        ApplicationVolumeAction::SetLevel { level_percent } => {
            let level = if level_percent <= 100 { level_percent } else { 100u8 };
            (Some(level), if level > 0 { Some(false) } else { None })
        },
        ApplicationVolumeAction::Adjust { delta_percent } => {
            let sum = current_percent as int + delta_percent as int;
            let level = (if sum < 0 { 0 } else if sum > 100 { 100 } else { sum }) as u8;
            (Some(level), if level > 0 { Some(false) } else { None })
        },
        ApplicationVolumeAction::ToggleMute => (None, Some(!currently_muted)),
    }
}

/// The targets of an action, from the current level and mute state.
pub fn volume_targets(
    action: ApplicationVolumeAction,
    current_percent: u8,
    currently_muted: bool,
) -> (r: (Option<u8>, Option<bool>))
    ensures
        r == targets_of(action, current_percent, currently_muted),
{
    match action {
        ApplicationVolumeAction::SetLevel { level_percent } => {
            let level = if level_percent <= 100 { level_percent } else { 100u8 };
            (Some(level), if level > 0 { Some(false) } else { None })
        },
        ApplicationVolumeAction::Adjust { delta_percent } => {
            let sum: i16 = current_percent as i16 + delta_percent as i16;
            let level: u8 = if sum < 0 { 0 } else if sum > 100 { 100 } else { sum as u8 };
            (Some(level), if level > 0 { Some(false) } else { None })
        },
        ApplicationVolumeAction::ToggleMute => (None, Some(!currently_muted)),
    }
}

/// What a volume control sets on every matching session, and the state it
/// reports afterwards.
#[derive(Debug, Clone, Copy, PartialEq, Eq, Structural)]
pub struct VolumePlan {
    pub target_percent: Option<u8>,
    pub target_muted: Option<bool>,
    pub result: ApplicationVolumeState,
}

pub open spec fn no_audio_session_message() -> Seq<char> {
    "没有找到当前媒体应用的音频会话"@
}

/// The plan of a control: none where no session matches; else the targets
/// from the summary, and the resulting state, which keeps the summary's
/// level or mute state where the action sets none.
pub open spec fn plan_of(
    session_key: u64,
    action: ApplicationVolumeAction,
    ss: Seq<AudioSessionReading>,
) -> Option<VolumePlan> {
    match summary_of(ss) {
        None => None,
        Some((level, muted)) => {
            let (tp, tm) = targets_of(action, level, muted);
            Some(
                VolumePlan {
                    target_percent: tp,
                    target_muted: tm,
                    result: ApplicationVolumeState {
                        session_key,
                        level_percent: match tp {
                            Some(l) => l,
                            None => level,
                        },
                        muted: match tm {
                            Some(m) => m,
                            None => muted,
                        },
                    },
                },
            )
        },
    }
}

/// Plans a volume control over the matching sessions.
pub fn plan_volume_control(
    session_key: u64,
    action: ApplicationVolumeAction,
    sessions: &[AudioSessionReading],
) -> (r: Result<VolumePlan, ApplicationVolumeError>)
    ensures
        match (r, plan_of(session_key, action, sessions@)) {
            (Ok(p), Some(q)) => p == q,
            (Err(e), None) => e.code == ApplicationVolumeErrorCode::AudioSessionUnavailable
                && e.message@ == no_audio_session_message(),
            _ => false,
        },
{
    match summarize_sessions(sessions) {
        None => Err(
            ApplicationVolumeError::new(
                ApplicationVolumeErrorCode::AudioSessionUnavailable,
                "没有找到当前媒体应用的音频会话".to_owned(),
            ),
        ),
        Some((level, muted)) => {
            let (tp, tm) = volume_targets(action, level, muted);
            let level_percent = match tp {
                Some(l) => l,
                None => level,
            };
            let now_muted = match tm {
                Some(m) => m,
                None => muted,
            };
            Ok(
                VolumePlan {
                    target_percent: tp,
                    target_muted: tm,
                    result: ApplicationVolumeState { session_key, level_percent, muted: now_muted },
                },
            )
        },
    }
}

/// The volume state of the media application, none where no session
/// matches.
pub fn query_volume_state(session_key: u64, sessions: &[AudioSessionReading]) -> (r: Option<
    ApplicationVolumeState,
>)
    ensures
        match summary_of(sessions@) {
            None => r is None,
            Some((level, muted)) => r == Some(
                ApplicationVolumeState { session_key, level_percent: level, muted },
            ),
        },
{
    match summarize_sessions(sessions) {
        None => None,
        Some((level, muted)) => Some(ApplicationVolumeState { session_key, level_percent: level, muted }),
    }
}

/// What a volume action sets, from the current level and mute state:
/// - setting a level sets it, capped at 100;
/// - adjusting moves the current level by the step, stopping at 0 and 100;
/// - either unmutes where the new level is above zero and leaves the mute
///   state alone at zero;
/// - toggling the mute leaves the level alone and flips the mute state.
pub proof fn lemma_volume_targets(
    action: ApplicationVolumeAction,
    current_percent: u8,
    currently_muted: bool,
)
    ensures
        action matches ApplicationVolumeAction::SetLevel { level_percent } ==> targets_of(
            action,
            current_percent,
            currently_muted,
        ).0 == Some(if level_percent <= 100 { level_percent } else { 100u8 }),
        action matches ApplicationVolumeAction::Adjust { delta_percent } ==> {
            let sum = current_percent + delta_percent;
            let level = targets_of(action, current_percent, currently_muted).0;
            &&& 0 <= sum <= 100 ==> level == Some(sum as u8)
            &&& sum < 0 ==> level == Some(0u8)
            &&& sum > 100 ==> level == Some(100u8)
        },
        action is ToggleMute ==> targets_of(action, current_percent, currently_muted) == (
            None::<u8>,
            Some(!currently_muted),
        ),
        targets_of(action, current_percent, currently_muted).0 matches Some(level) ==> targets_of(
            action,
            current_percent,
            currently_muted,
        ).1 == if level > 0 {
            Some(false)
        } else {
            None
        },
        targets_of(action, current_percent, currently_muted).0 matches Some(level) ==> level <= 100,
{
}

} // verus!
