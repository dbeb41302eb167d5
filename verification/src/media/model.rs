//! Media data handed to the front end, and the rules that classify players.
use vstd::prelude::*;

use crate::text::{
    ascii_lower_seq, chars_equal, chars_of, contains_chars, ends_with_chars, has_infix,
    has_suffix, lower_chars, string_from_range,
};

verus! {

/// Titles and artists are cut to this many characters.
pub const MAX_MEDIA_TEXT_CHARS: usize = 4096;

/// Windows timeline ticks are 100 ns.
pub const TICKS_PER_MILLISECOND: i64 = 10_000;

/// Ticks between the Windows epoch (1601) and the Unix epoch (1970).
pub const WINDOWS_TO_UNIX_EPOCH_TICKS: i64 = 116_444_736_000_000_000;

/// The player families that Muse Bar recognises.
#[derive(Debug, Clone, Copy, PartialEq, Eq, Structural)]
pub enum MediaPlayerKind {
    QqMusic,
    NeteaseCloudMusic,
    KugouMusic,
    QishuiMusic,
    Other,
}

impl MediaPlayerKind {
    /// Only recognised players take part in activity-based selection.
    pub fn is_supported(self) -> (r: bool)
        ensures
            r == (self != MediaPlayerKind::Other),
    {
        !matches!(self, MediaPlayerKind::Other)
    }

    /// The identifier used for this kind in front-end payloads.
    pub fn as_str(self) -> (r: &'static str)
        ensures
            r@ == player_kind_name(self),
    {
        match self {
            MediaPlayerKind::QqMusic => "qqMusic",
            MediaPlayerKind::NeteaseCloudMusic => "neteaseCloudMusic",
            MediaPlayerKind::KugouMusic => "kugouMusic",
            MediaPlayerKind::QishuiMusic => "qishuiMusic",
            MediaPlayerKind::Other => "other",
        }
    }
}

pub open spec fn player_kind_name(kind: MediaPlayerKind) -> Seq<char> {
    match kind {
        MediaPlayerKind::QqMusic => "qqMusic"@,
        MediaPlayerKind::NeteaseCloudMusic => "neteaseCloudMusic"@,
        MediaPlayerKind::KugouMusic => "kugouMusic"@,
        MediaPlayerKind::QishuiMusic => "qishuiMusic"@,
        MediaPlayerKind::Other => "other"@,
    }
}

/// The player family of a Windows source app id, by the identification rules
/// applied in order to its ASCII lower-cased form.
pub open spec fn player_kind_of(source_app_id: Seq<char>) -> MediaPlayerKind {
    let n = ascii_lower_seq(source_app_id);
    if has_infix(n, "qqmusic"@) {
        MediaPlayerKind::QqMusic
    } else if has_infix(n, "cloudmusic"@) || has_infix(n, "netease"@) {
        MediaPlayerKind::NeteaseCloudMusic
    } else if has_infix(n, "kugou"@) || has_infix(n, "kgmusic"@) {
        MediaPlayerKind::KugouMusic
    } else if n == "汽水音乐"@ || has_infix(n, "qishui"@) || has_infix(
        n,
        "com.ss.android.ugc.luna"@,
    ) || has_suffix(n, "luna.exe"@) {
        MediaPlayerKind::QishuiMusic
    } else {
        MediaPlayerKind::Other
    }
}

/// Maps a Windows source app id to a player family.
pub fn identify_media_player(source_app_id: &str) -> (r: MediaPlayerKind)
    ensures
        r == player_kind_of(source_app_id@),
{
    let original = chars_of(source_app_id);
    let n = lower_chars(original.as_slice());
    let n = n.as_slice();
    if contains_chars(n, chars_of("qqmusic").as_slice()) {
        return MediaPlayerKind::QqMusic;
    }
    if contains_chars(n, chars_of("cloudmusic").as_slice()) || contains_chars(
        n,
        chars_of("netease").as_slice(),
    ) {
        return MediaPlayerKind::NeteaseCloudMusic;
    }
    if contains_chars(n, chars_of("kugou").as_slice()) || contains_chars(
        n,
        chars_of("kgmusic").as_slice(),
    ) {
        return MediaPlayerKind::KugouMusic;
    }
    if chars_equal(n, chars_of("汽水音乐").as_slice()) || contains_chars(
        n,
        chars_of("qishui").as_slice(),
    ) || contains_chars(n, chars_of("com.ss.android.ugc.luna").as_slice()) || ends_with_chars(
        n,
        chars_of("luna.exe").as_slice(),
    ) {
        return MediaPlayerKind::QishuiMusic;
    }
    MediaPlayerKind::Other
}

/// A title or artist cut to at most `MAX_MEDIA_TEXT_CHARS` characters.
pub open spec fn bounded_text(value: Seq<char>) -> Seq<char> {
    if value.len() <= MAX_MEDIA_TEXT_CHARS {
        value
    } else {
        value.take(MAX_MEDIA_TEXT_CHARS as int)
    }
}

/// Limits the title and artist that a player reports, so that a misbehaving
/// session cannot keep a huge string in the caches.
pub fn bounded_media_text(value: String) -> (r: String)
    ensures
        r@ == bounded_text(value@),
{
    let chars = chars_of(value.as_str());
    if chars.len() <= MAX_MEDIA_TEXT_CHARS {
        return value;
    }
    let r = string_from_range(chars.as_slice(), 0, MAX_MEDIA_TEXT_CHARS);
    proof {
        assert(chars@.subrange(0, MAX_MEDIA_TEXT_CHARS as int) =~= chars@.take(
            MAX_MEDIA_TEXT_CHARS as int,
        ));
    }
    r
}

/// One media session as shown in the diagnostics page.
#[derive(Debug, Clone)]
pub struct MediaSessionIdentity {
    pub session_key: u64,
    pub source_app_id: String,
    pub player_kind: MediaPlayerKind,
}

/// Describes a session by its key and source app id.
pub fn session_identity(session_key: u64, source_app_id: String) -> (r: MediaSessionIdentity)
    ensures
        r.session_key == session_key,
        r.source_app_id@ == source_app_id@,
        r.player_kind == player_kind_of(source_app_id@),
{
    let player_kind = identify_media_player(source_app_id.as_str());
    MediaSessionIdentity { session_key, source_app_id, player_kind }
}

/// The playback status of a Windows media session.
#[derive(Debug, Clone, Copy, PartialEq, Eq, Structural)]
pub enum CurrentPlaybackStatus {
    Closed,
    Opened,
    Changing,
    Stopped,
    Playing,
    Paused,
    Unknown,
}

/// The status for a raw `GlobalSystemMediaTransportControlsSessionPlaybackStatus`
/// value (Closed = 0 … Paused = 5); any other value is `Unknown`.
pub open spec fn status_of_code(code: i32) -> CurrentPlaybackStatus {
    if code == 0 {
        CurrentPlaybackStatus::Closed
    } else if code == 1 {
        CurrentPlaybackStatus::Opened
    } else if code == 2 {
        CurrentPlaybackStatus::Changing
    } else if code == 3 {
        CurrentPlaybackStatus::Stopped
    } else if code == 4 {
        CurrentPlaybackStatus::Playing
    } else if code == 5 {
        CurrentPlaybackStatus::Paused
    } else {
        CurrentPlaybackStatus::Unknown
    }
}

/// Converts a raw Windows playback status.
pub fn playback_status_from_code(code: i32) -> (r: CurrentPlaybackStatus)
    ensures
        r == status_of_code(code),
{
    if code == 0 {
        CurrentPlaybackStatus::Closed
    } else if code == 1 {
        CurrentPlaybackStatus::Opened
    } else if code == 2 {
        CurrentPlaybackStatus::Changing
    } else if code == 3 {
        CurrentPlaybackStatus::Stopped
    } else if code == 4 {
        CurrentPlaybackStatus::Playing
    } else if code == 5 {
        CurrentPlaybackStatus::Paused
    } else {
        CurrentPlaybackStatus::Unknown
    }
}

/// The controls that a session declares.
#[derive(Debug, Clone, Copy, PartialEq, Eq, Structural)]
pub struct CurrentPlaybackCapabilities {
    pub can_play: bool,
    pub can_pause: bool,
    pub can_previous: bool,
    pub can_next: bool,
    pub can_seek: bool,
}

/// The light-weight playback event, without title, artist or artwork.
#[derive(Debug, Clone, Copy, PartialEq, Eq, Structural)]
pub struct CurrentPlaybackState {
    pub session_key: u64,
    pub playback_status: CurrentPlaybackStatus,
    pub capabilities: CurrentPlaybackCapabilities,
}

/// A session's timeline in milliseconds. The playback rate, a floating-point
/// value, travels beside it.
#[derive(Debug, Clone, Copy, PartialEq, Eq, Structural)]
pub struct CurrentTimeline {
    pub start_ms: i64,
    pub end_ms: i64,
    pub position_ms: i64,
    pub min_seek_ms: i64,
    pub max_seek_ms: i64,
    pub last_updated_at_unix_ms: i64,
}

/// Rust's `/` on integers: division rounding toward zero.
pub open spec fn div_trunc(a: int, b: int) -> int {
    if a >= 0 {
        a / b
    } else {
        -((-a) / b)
    }
}

/// Converts Windows `TimeSpan` ticks (100 ns) to milliseconds.
pub fn ticks_to_milliseconds(ticks: i64) -> (r: i64)
    ensures
        r == div_trunc(ticks as int, TICKS_PER_MILLISECOND as int),
{
    ticks / TICKS_PER_MILLISECOND
}

pub open spec fn timeline_before_epoch_message() -> Seq<char> {
    "时间轴最后更新时间早于 Windows 时间原点"@
}

/// Builds the timeline from the ticks that a session reports. A timeline
/// whose end is not after its start (live streams, players without a
/// timeline) carries no progress and is `None`.
pub fn timeline_from_ticks(
    start_ticks: i64,
    end_ticks: i64,
    position_ticks: i64,
    min_seek_ticks: i64,
    max_seek_ticks: i64,
    last_updated_universal_ticks: i64,
) -> (r: Result<Option<CurrentTimeline>, String>)
    ensures
        end_ticks <= start_ticks ==> r matches Ok(None),
        end_ticks > start_ticks && last_updated_universal_ticks - WINDOWS_TO_UNIX_EPOCH_TICKS
            < i64::MIN ==> (r matches Err(e) && e@ == timeline_before_epoch_message()),
        end_ticks > start_ticks && last_updated_universal_ticks - WINDOWS_TO_UNIX_EPOCH_TICKS
            >= i64::MIN ==> r == Ok::<Option<CurrentTimeline>, String>(
            Some(
                CurrentTimeline {
                    start_ms: div_trunc(start_ticks as int, 10000) as i64,
                    end_ms: div_trunc(end_ticks as int, 10000) as i64,
                    position_ms: div_trunc(position_ticks as int, 10000) as i64,
                    min_seek_ms: div_trunc(min_seek_ticks as int, 10000) as i64,
                    max_seek_ms: div_trunc(max_seek_ticks as int, 10000) as i64,
                    last_updated_at_unix_ms: div_trunc(
                        last_updated_universal_ticks - WINDOWS_TO_UNIX_EPOCH_TICKS,
                        10000,
                    ) as i64,
                },
            ),
        ),
{
    if end_ticks <= start_ticks {
        return Ok(None);
    }
    let since_unix = match last_updated_universal_ticks.checked_sub(WINDOWS_TO_UNIX_EPOCH_TICKS) {
        Some(v) => v,
        None => return Err("时间轴最后更新时间早于 Windows 时间原点".to_owned()),
    };
    Ok(
        Some(
            CurrentTimeline {
                start_ms: ticks_to_milliseconds(start_ticks),
                end_ms: ticks_to_milliseconds(end_ticks),
                position_ms: ticks_to_milliseconds(position_ticks),
                min_seek_ms: ticks_to_milliseconds(min_seek_ticks),
                max_seek_ms: ticks_to_milliseconds(max_seek_ticks),
                last_updated_at_unix_ms: since_unix / TICKS_PER_MILLISECOND,
            },
        ),
    )
}

/// The metadata of the observed session; artwork and text always come from
/// one reading.
#[derive(Debug, Clone)]
pub struct CurrentMediaMetadata {
    pub source_app_id: String,
    pub title: String,
    pub artist: String,
    pub artwork_data_url: Option<String>,
    pub accent_color: String,
}

/// Whether cached metadata still belongs to a session, judged by its source
/// app id, so that switching players never mixes the data of two sessions.
pub fn metadata_belongs_to_session(
    metadata: &CurrentMediaMetadata,
    session_source_app_id: &str,
) -> (r: bool)
    ensures
        r == (metadata.source_app_id@ == session_source_app_id@),
{
    let a = chars_of(metadata.source_app_id.as_str());
    let b = chars_of(session_source_app_id);
    chars_equal(a.as_slice(), b.as_slice())
}

/// The unified snapshot that the front end renders.
#[derive(Debug, Clone)]
pub struct MediaSnapshot {
    pub session_key: u64,
    pub source_app_id: String,
    pub player_kind: MediaPlayerKind,
    pub title: String,
    pub artist: String,
    pub artwork_data_url: Option<String>,
    pub accent_color: String,
    pub system_accent_color: String,
    pub playback_status: CurrentPlaybackStatus,
    pub capabilities: CurrentPlaybackCapabilities,
    pub timeline: Option<CurrentTimeline>,
}

/// Joins the cached metadata with what was read from the same session.
pub fn compose_media_snapshot(
    session_key: u64,
    metadata: CurrentMediaMetadata,
    system_accent_color: String,
    playback_status: CurrentPlaybackStatus,
    capabilities: CurrentPlaybackCapabilities,
    timeline: Option<CurrentTimeline>,
) -> (r: MediaSnapshot)
    ensures
        r.session_key == session_key,
        r.player_kind == player_kind_of(metadata.source_app_id@),
        r.source_app_id == metadata.source_app_id,
        r.title == metadata.title,
        r.artist == metadata.artist,
        r.artwork_data_url == metadata.artwork_data_url,
        r.accent_color == metadata.accent_color,
        r.system_accent_color == system_accent_color,
        r.playback_status == playback_status,
        r.capabilities == capabilities,
        r.timeline == timeline,
{
    let player_kind = identify_media_player(metadata.source_app_id.as_str());
    MediaSnapshot {
        session_key,
        player_kind,
        source_app_id: metadata.source_app_id,
        title: metadata.title,
        artist: metadata.artist,
        artwork_data_url: metadata.artwork_data_url,
        accent_color: metadata.accent_color,
        system_accent_color,
        playback_status,
        capabilities,
        timeline,
    }
}

} // verus!
