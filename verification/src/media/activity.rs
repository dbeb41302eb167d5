//! Activity tracking of all media sessions: when a player last started
//! playing, changed track or became the Windows current session, and which
//! session the bar therefore shows.
use vstd::prelude::*;

use super::model::{identify_media_player, player_kind_of, MediaPlayerKind};
use super::selection::{
    is_eligible, lemma_preferred_candidate, playback_priority, preferred_candidate,
    ranks_at_least, select_preferred_session_key as select_preferred_candidate,
    MediaSelectionCandidate,
};
use crate::text::{chars_equal, chars_of};

verus! {

/// Why a session last counted as active.
#[derive(Debug, Clone, Copy, PartialEq, Eq, Structural)]
pub enum MediaActivityReason {
    DetectedPlaying,
    PlaybackStarted,
    TrackChanged,
    BecameCurrent,
}

/// Why the selector chose a session.
#[derive(Debug, Clone, Copy, PartialEq, Eq, Structural)]
pub enum MediaSelectionReason {
    PlayingPreferred,
    LastPausedPreferred,
    DetectedPreferred,
    WindowsCurrentFallback,
}

/// The session that the selector chose, as shown in diagnostics.
#[derive(Debug)]
pub struct SelectedMediaSession {
    pub session_key: u64,
    pub source_app_id: String,
    pub player_kind: MediaPlayerKind,
    pub reason: MediaSelectionReason,
}

/// The activity record of one session.
#[derive(Debug)]
pub struct MediaSessionActivity {
    pub session_key: u64,
    pub source_app_id: String,
    pub player_kind: MediaPlayerKind,
    pub title: Option<String>,
    pub artist: Option<String>,
    pub is_playing: bool,
    pub is_paused: bool,
    pub last_activity_at_unix_ms: Option<u64>,
    pub activity_sequence: Option<u64>,
    pub last_activity_reason: Option<MediaActivityReason>,
}

/// The mathematical value of a `MediaSessionActivity`.
pub struct ActivityModel {
    pub session_key: u64,
    pub source_app_id: Seq<char>,
    pub player_kind: MediaPlayerKind,
    pub title: Option<Seq<char>>,
    pub artist: Option<Seq<char>>,
    pub is_playing: bool,
    pub is_paused: bool,
    pub last_activity_at_unix_ms: Option<u64>,
    pub activity_sequence: Option<u64>,
    pub last_activity_reason: Option<MediaActivityReason>,
}

pub open spec fn text_view(s: Option<String>) -> Option<Seq<char>> {
    match s {
        Some(t) => Some(t@),
        None => None,
    }
}

impl View for MediaSessionActivity {
    type V = ActivityModel;

    open spec fn view(&self) -> ActivityModel {
        ActivityModel {
            session_key: self.session_key,
            source_app_id: self.source_app_id@,
            player_kind: self.player_kind,
            title: text_view(self.title),
            artist: text_view(self.artist),
            is_playing: self.is_playing,
            is_paused: self.is_paused,
            last_activity_at_unix_ms: self.last_activity_at_unix_ms,
            activity_sequence: self.activity_sequence,
            last_activity_reason: self.last_activity_reason,
        }
    }
}

/// The activity records of all sessions, ordered by session key, and the
/// counter from which activity sequence numbers are drawn.
pub struct ActivityState {
    records: Vec<MediaSessionActivity>,
    next_activity_sequence: u64,
}

/// The mathematical value of an `ActivityState`.
pub struct ActivityStateModel {
    pub records: Seq<ActivityModel>,
    pub next_activity_sequence: u64,
}

pub open spec fn records_view(records: Seq<MediaSessionActivity>) -> Seq<ActivityModel> {
    Seq::new(records.len(), |i: int| records[i]@)
}

impl View for ActivityState {
    type V = ActivityStateModel;

    closed spec fn view(&self) -> ActivityStateModel {
        ActivityStateModel {
            records: records_view(self.records@),
            next_activity_sequence: self.next_activity_sequence,
        }
    }
}

// ---------------------------------------------------------------------------
// Model of the activity rules.
// ---------------------------------------------------------------------------

/// Records are in strictly increasing key order (so each key occurs once),
/// and no sequence number exceeds the counter.
pub open spec fn state_wf(m: ActivityStateModel) -> bool {
    &&& forall|i: int, j: int|
        0 <= i < j < m.records.len() ==> (#[trigger] m.records[i]).session_key
            < (#[trigger] m.records[j]).session_key
    &&& forall|i: int|
        0 <= i < m.records.len() ==> match (#[trigger] m.records[i]).activity_sequence {
            Some(s) => s <= m.next_activity_sequence,
            None => true,
        }
}

/// Index of the record for `key`.
pub open spec fn key_index(records: Seq<ActivityModel>, key: u64) -> Option<int>
    decreases records.len(),
{
    if records.len() == 0 {
        None
    } else if records[0].session_key == key {
        Some(0)
    } else {
        match key_index(records.drop_first(), key) {
            Some(i) => Some(i + 1),
            None => None,
        }
    }
}

/// The record for `key`, if there is one.
pub open spec fn record_of(m: ActivityStateModel, key: u64) -> Option<ActivityModel> {
    match key_index(m.records, key) {
        Some(i) => Some(m.records[i]),
        None => None,
    }
}

/// `u64::saturating_add(v, 1)`.
pub open spec fn bump(v: u64) -> u64 {
    if v == u64::MAX {
        v
    } else {
        (v + 1) as u64
    }
}

/// `r` with its playback state replaced.
pub open spec fn with_playback(r: ActivityModel, is_playing: bool, is_paused: bool) -> ActivityModel {
    ActivityModel {
        session_key: r.session_key,
        source_app_id: r.source_app_id,
        player_kind: r.player_kind,
        title: r.title,
        artist: r.artist,
        is_playing,
        is_paused,
        last_activity_at_unix_ms: r.last_activity_at_unix_ms,
        activity_sequence: r.activity_sequence,
        last_activity_reason: r.last_activity_reason,
    }
}

/// `r` with its track identity replaced.
pub open spec fn with_track(r: ActivityModel, title: Seq<char>, artist: Seq<char>) -> ActivityModel {
    ActivityModel {
        session_key: r.session_key,
        source_app_id: r.source_app_id,
        player_kind: r.player_kind,
        title: Some(title),
        artist: Some(artist),
        is_playing: r.is_playing,
        is_paused: r.is_paused,
        last_activity_at_unix_ms: r.last_activity_at_unix_ms,
        activity_sequence: r.activity_sequence,
        last_activity_reason: r.last_activity_reason,
    }
}

/// `r` marked active now, with sequence number `sequence`.
pub open spec fn with_activity(
    r: ActivityModel,
    now: u64,
    sequence: u64,
    reason: MediaActivityReason,
) -> ActivityModel {
    ActivityModel {
        session_key: r.session_key,
        source_app_id: r.source_app_id,
        player_kind: r.player_kind,
        title: r.title,
        artist: r.artist,
        is_playing: r.is_playing,
        is_paused: r.is_paused,
        last_activity_at_unix_ms: Some(now),
        activity_sequence: Some(sequence),
        last_activity_reason: Some(reason),
    }
}

/// Draws the next sequence number and records it, with the time and the
/// reason, as the latest activity of `key` (when `key` has a record).
pub open spec fn marked(
    m: ActivityStateModel,
    key: u64,
    reason: MediaActivityReason,
    now: u64,
) -> ActivityStateModel {
    let next = bump(m.next_activity_sequence);
    ActivityStateModel {
        records: match key_index(m.records, key) {
            Some(i) => m.records.update(i, with_activity(m.records[i], now, next, reason)),
            None => m.records,
        },
        next_activity_sequence: next,
    }
}

/// A session's first reading (title, artist and playback state) arrived.
pub open spec fn after_initialize(
    m: ActivityStateModel,
    key: u64,
    is_playing: bool,
    is_paused: bool,
    title: Seq<char>,
    artist: Seq<char>,
    now: u64,
) -> ActivityStateModel {
    match key_index(m.records, key) {
        None => m,
        Some(i) => {
            let r = m.records[i];
            let was_initialized = r.title is Some;
            let started_playing = was_initialized && is_playing && !r.is_playing;
            let track_changed = was_initialized && (r.title != Some(title) || r.artist != Some(
                artist,
            ));
            let updated = ActivityStateModel {
                records: m.records.update(
                    i,
                    with_track(with_playback(r, is_playing, is_paused), title, artist),
                ),
                next_activity_sequence: m.next_activity_sequence,
            };
            if !was_initialized && is_playing {
                marked(updated, key, MediaActivityReason::DetectedPlaying, now)
            } else if track_changed {
                marked(updated, key, MediaActivityReason::TrackChanged, now)
            } else if started_playing {
                marked(updated, key, MediaActivityReason::PlaybackStarted, now)
            } else {
                updated
            }
        },
    }
}

/// A session's playback state changed.
pub open spec fn after_playback_changed(
    m: ActivityStateModel,
    key: u64,
    is_playing: bool,
    is_paused: bool,
    now: u64,
) -> ActivityStateModel {
    match key_index(m.records, key) {
        None => m,
        Some(i) => {
            let r = m.records[i];
            let updated = ActivityStateModel {
                records: m.records.update(i, with_playback(r, is_playing, is_paused)),
                next_activity_sequence: m.next_activity_sequence,
            };
            if is_playing && !r.is_playing {
                marked(updated, key, MediaActivityReason::PlaybackStarted, now)
            } else {
                updated
            }
        },
    }
}

/// A session's media properties changed; only a different title or artist
/// than the known one counts as a track change.
pub open spec fn after_media_properties_changed(
    m: ActivityStateModel,
    key: u64,
    title: Seq<char>,
    artist: Seq<char>,
    now: u64,
) -> ActivityStateModel {
    match key_index(m.records, key) {
        None => m,
        Some(i) => {
            let r = m.records[i];
            let track_changed = (r.title matches Some(t) && t != title) || (r.artist matches Some(
                a,
            ) && a != artist);
            let updated = ActivityStateModel {
                records: m.records.update(i, with_track(r, title, artist)),
                next_activity_sequence: m.next_activity_sequence,
            };
            if track_changed {
                marked(updated, key, MediaActivityReason::TrackChanged, now)
            } else {
                updated
            }
        },
    }
}

/// The selection candidate for one record.
pub open spec fn candidate_of(r: ActivityModel) -> MediaSelectionCandidate {
    MediaSelectionCandidate {
        session_key: r.session_key,
        player_kind: r.player_kind,
        is_playing: r.is_playing,
        is_paused: r.is_paused,
        activity_sequence: r.activity_sequence,
    }
}

pub open spec fn candidates_of(records: Seq<ActivityModel>) -> Seq<MediaSelectionCandidate> {
    Seq::new(records.len(), |i: int| candidate_of(records[i]))
}

/// The key of the preferred session.
pub open spec fn preferred_key(m: ActivityStateModel) -> Option<u64> {
    match preferred_candidate(candidates_of(m.records)) {
        Some(c) => Some(c.session_key),
        None => None,
    }
}

/// A record of a session that was just listed, with nothing known yet.
pub open spec fn fresh_record(key: u64, source_app_id: Seq<char>) -> ActivityModel {
    ActivityModel {
        session_key: key,
        source_app_id,
        player_kind: player_kind_of(source_app_id),
        title: None,
        artist: None,
        is_playing: false,
        is_paused: false,
        last_activity_at_unix_ms: None,
        activity_sequence: None,
        last_activity_reason: None,
    }
}

/// Index of the first listed session with `key`.
pub open spec fn first_entry(entries: Seq<(u64, Seq<char>)>, key: u64) -> Option<int>
    decreases entries.len(),
{
    if entries.len() == 0 {
        None
    } else if entries[0].0 == key {
        Some(0)
    } else {
        match first_entry(entries.drop_first(), key) {
            Some(i) => Some(i + 1),
            None => None,
        }
    }
}

// ---------------------------------------------------------------------------
// Lemmas about the model.
// ---------------------------------------------------------------------------

proof fn lemma_key_index(records: Seq<ActivityModel>, key: u64)
    ensures
        key_index(records, key) matches Some(i) ==> 0 <= i < records.len()
            && records[i].session_key == key,
        key_index(records, key) is None ==> forall|j: int|
            0 <= j < records.len() ==> (#[trigger] records[j]).session_key != key,
        key_index(records, key) matches Some(i) ==> forall|j: int|
            0 <= j < i ==> (#[trigger] records[j]).session_key != key,
    decreases records.len(),
{
    if records.len() > 0 && records[0].session_key != key {
        let d = records.drop_first();
        lemma_key_index(d, key);
        assert forall|j: int| 1 <= j < records.len() implies records[j] == d[j - 1] by {}
    }
}

proof fn lemma_key_index_of(records: Seq<ActivityModel>, key: u64, j: int)
    requires
        0 <= j < records.len(),
        records[j].session_key == key,
        forall|k: int| 0 <= k < j ==> (#[trigger] records[k]).session_key != key,
    ensures
        key_index(records, key) == Some(j),
    decreases j,
{
    if j > 0 {
        let d = records.drop_first();
        assert forall|k: int| 0 <= k < j - 1 implies (#[trigger] d[k]).session_key != key by {
            assert(d[k] == records[k + 1]);
        }
        lemma_key_index_of(d, key, j - 1);
    }
}

proof fn lemma_first_entry(entries: Seq<(u64, Seq<char>)>, key: u64)
    ensures
        first_entry(entries, key) matches Some(i) ==> 0 <= i < entries.len() && entries[i].0
            == key,
        first_entry(entries, key) is None ==> forall|j: int|
            0 <= j < entries.len() ==> (#[trigger] entries[j]).0 != key,
        first_entry(entries, key) matches Some(i) ==> forall|j: int|
            0 <= j < i ==> (#[trigger] entries[j]).0 != key,
    decreases entries.len(),
{
    if entries.len() > 0 && entries[0].0 != key {
        let d = entries.drop_first();
        lemma_first_entry(d, key);
        assert forall|j: int| 1 <= j < entries.len() implies entries[j] == d[j - 1] by {}
    }
}

/// Marking an activity keeps the records well formed and never lowers the
/// counter, and the marked record then holds the only largest sequence number
/// (unless the counter is exhausted).
pub proof fn lemma_marked(m: ActivityStateModel, key: u64, reason: MediaActivityReason, now: u64)
    requires
        state_wf(m),
    ensures
        state_wf(marked(m, key, reason, now)),
        marked(m, key, reason, now).next_activity_sequence >= m.next_activity_sequence,
        marked(m, key, reason, now).records.len() == m.records.len(),
        forall|i: int|
            0 <= i < m.records.len() ==> (#[trigger] marked(m, key, reason, now).records[i]).session_key
                == m.records[i].session_key,
        record_of(m, key) is Some && m.next_activity_sequence < u64::MAX ==> {
            let i = key_index(m.records, key)->0;
            let n = marked(m, key, reason, now);
            &&& n.records[i].activity_sequence == Some(n.next_activity_sequence)
            &&& forall|j: int|
                0 <= j < n.records.len() && j != i ==> match (#[trigger] n.records[j]).activity_sequence {
                    Some(s) => s < n.next_activity_sequence,
                    None => true,
                }
        },
{
    lemma_key_index(m.records, key);
}

// ---------------------------------------------------------------------------
// Executable state.
// ---------------------------------------------------------------------------

/// A field-by-field copy of a text option.
fn copy_text(s: &Option<String>) -> (r: Option<String>)
    ensures
        text_view(r) == text_view(*s),
{
    match s {
        Some(t) => Some(t.clone()),
        None => None,
    }
}

impl MediaSessionActivity {
    /// A field-by-field copy.
    pub fn copy(&self) -> (r: MediaSessionActivity)
        ensures
            r@ == self@,
    {
        MediaSessionActivity {
            session_key: self.session_key,
            source_app_id: self.source_app_id.clone(),
            player_kind: self.player_kind,
            title: copy_text(&self.title),
            artist: copy_text(&self.artist),
            is_playing: self.is_playing,
            is_paused: self.is_paused,
            last_activity_at_unix_ms: self.last_activity_at_unix_ms,
            activity_sequence: self.activity_sequence,
            last_activity_reason: self.last_activity_reason,
        }
    }
}

impl ActivityState {
    /// Whether the state is well formed.
    pub closed spec fn wf(&self) -> bool {
        state_wf(self@)
    }

    /// No records yet, and the counter at zero.
    pub fn new() -> (r: ActivityState)
        ensures
            r@.records.len() == 0,
            r@.next_activity_sequence == 0,
            r.wf(),
    {
        let r = ActivityState { records: Vec::new(), next_activity_sequence: 0 };
        proof {
            assert(r@.records =~= Seq::<ActivityModel>::empty());
        }
        r
    }

    /// Index of the record for `key`.
    fn find(&self, key: u64) -> (r: Option<usize>)
        ensures
            match r {
                Some(i) => key_index(self@.records, key) == Some(i as int),
                None => key_index(self@.records, key) is None,
            },
    {
        let ghost rv = self@.records;
        let mut i: usize = 0;
        while i < self.records.len()
            invariant
                i <= self.records@.len(),
                rv == records_view(self.records@),
                forall|j: int| 0 <= j < i ==> (#[trigger] rv[j]).session_key != key,
            decreases self.records.len() - i,
        {
            if self.records[i].session_key == key {
                proof {
                    lemma_key_index_of(rv, key, i as int);
                }
                return Some(i);
            }
            i += 1;
        }
        proof {
            lemma_key_index(rv, key);
            if let Some(j) = key_index(rv, key) {
                assert(rv[j].session_key == key);
            }
        }
        None
    }

    /// Replaces the record at `i`.
    fn replace_record(&mut self, i: usize, record: MediaSessionActivity)
        requires
            i < old(self).records@.len(),
        ensures
            final(self)@.records == old(self)@.records.update(i as int, record@),
            final(self)@.next_activity_sequence == old(self)@.next_activity_sequence,
    {
        let ghost before = self.records@;
        let _ = self.records.remove(i);
        self.records.insert(i, record);
        proof {
            assert(self.records@ =~= before.update(i as int, record));
            assert(records_view(self.records@) =~= records_view(before).update(i as int, record@));
        }
    }

    /// Takes the record at `i` out for modification; `replace_record` puts
    /// it back.
    fn copy_record(&self, i: usize) -> (r: MediaSessionActivity)
        requires
            i < self@.records.len(),
        ensures
            r@ == self@.records[i as int],
    {
        self.records[i].copy()
    }

    /// Draws the next sequence number and records it as the latest activity
    /// of `key`.
    pub fn mark_activity(&mut self, key: u64, reason: MediaActivityReason, now_unix_ms: u64)
        requires
            old(self).wf(),
        ensures
            final(self)@ == marked(old(self)@, key, reason, now_unix_ms),
            final(self).wf(),
    {
        proof {
            lemma_marked(self@, key, reason, now_unix_ms);
        }
        let next = if self.next_activity_sequence == u64::MAX {
            u64::MAX
        } else {
            self.next_activity_sequence + 1
        };
        self.next_activity_sequence = next;
        match self.find(key) {
            Some(i) => {
                proof {
                    lemma_key_index(self@.records, key);
                }
                let mut record = self.copy_record(i);
                record.last_activity_at_unix_ms = Some(now_unix_ms);
                record.activity_sequence = Some(next);
                record.last_activity_reason = Some(reason);
                self.replace_record(i, record);
            },
            None => {},
        }
    }

    /// Records the first reading of a session: it counts as active when it is
    /// detected playing, when a previously read track changed, or when it
    /// started playing.
    pub fn apply_initialize(
        &mut self,
        key: u64,
        is_playing: bool,
        is_paused: bool,
        title: String,
        artist: String,
        now_unix_ms: u64,
    )
        requires
            old(self).wf(),
        ensures
            final(self)@ == after_initialize(
                old(self)@,
                key,
                is_playing,
                is_paused,
                title@,
                artist@,
                now_unix_ms,
            ),
            final(self).wf(),
    {
        let i = match self.find(key) {
            Some(i) => i,
            None => return ,
        };
        proof {
            lemma_key_index(self@.records, key);
        }
        let mut record = self.copy_record(i);
        let was_initialized = record.title.is_some();
        let started_playing = was_initialized && is_playing && !record.is_playing;
        let same_title = match &record.title {
            Some(t) => chars_equal(
                chars_of(t.as_str()).as_slice(),
                chars_of(title.as_str()).as_slice(),
            ),
            None => false,
        };
        let same_artist = match &record.artist {
            Some(a) => chars_equal(
                chars_of(a.as_str()).as_slice(),
                chars_of(artist.as_str()).as_slice(),
            ),
            None => false,
        };
        let track_changed = was_initialized && (!same_title || !same_artist);
        record.title = Some(title);
        record.artist = Some(artist);
        record.is_playing = is_playing;
        record.is_paused = is_paused;
        self.replace_record(i, record);
        proof {
            assert(state_wf(self@)) by {
                assert forall|j: int| 0 <= j < self@.records.len() implies (#[trigger] self@.records[j]).session_key == old(self)@.records[j].session_key
                    && self@.records[j].activity_sequence == old(self)@.records[j].activity_sequence by {}
            }
            assert(key_index(self@.records, key) == Some(i as int)) by {
                lemma_key_index_of(self@.records, key, i as int);
            }
        }
        if !was_initialized && is_playing {
            self.mark_activity(key, MediaActivityReason::DetectedPlaying, now_unix_ms);
        } else if track_changed {
            self.mark_activity(key, MediaActivityReason::TrackChanged, now_unix_ms);
        } else if started_playing {
            self.mark_activity(key, MediaActivityReason::PlaybackStarted, now_unix_ms);
        }
    }

    /// Records a playback state change; starting to play counts as activity.
    pub fn apply_playback_changed(
        &mut self,
        key: u64,
        is_playing: bool,
        is_paused: bool,
        now_unix_ms: u64,
    )
        requires
            old(self).wf(),
        ensures
            final(self)@ == after_playback_changed(
                old(self)@,
                key,
                is_playing,
                is_paused,
                now_unix_ms,
            ),
            final(self).wf(),
    {
        let i = match self.find(key) {
            Some(i) => i,
            None => return ,
        };
        proof {
            lemma_key_index(self@.records, key);
        }
        let mut record = self.copy_record(i);
        let started_playing = is_playing && !record.is_playing;
        record.is_playing = is_playing;
        record.is_paused = is_paused;
        self.replace_record(i, record);
        proof {
            assert(state_wf(self@)) by {
                assert forall|j: int| 0 <= j < self@.records.len() implies (#[trigger] self@.records[j]).session_key == old(self)@.records[j].session_key
                    && self@.records[j].activity_sequence == old(self)@.records[j].activity_sequence by {}
            }
            assert(key_index(self@.records, key) == Some(i as int)) by {
                lemma_key_index_of(self@.records, key, i as int);
            }
        }
        if started_playing {
            self.mark_activity(key, MediaActivityReason::PlaybackStarted, now_unix_ms);
        }
    }

    /// Records new media properties; a title or artist different from the
    /// known one counts as a track change.
    pub fn apply_media_properties_changed(
        &mut self,
        key: u64,
        title: String,
        artist: String,
        now_unix_ms: u64,
    )
        requires
            old(self).wf(),
        ensures
            final(self)@ == after_media_properties_changed(
                old(self)@,
                key,
                title@,
                artist@,
                now_unix_ms,
            ),
            final(self).wf(),
    {
        let i = match self.find(key) {
            Some(i) => i,
            None => return ,
        };
        proof {
            lemma_key_index(self@.records, key);
        }
        let mut record = self.copy_record(i);
        let title_changed = match &record.title {
            Some(t) => !chars_equal(
                chars_of(t.as_str()).as_slice(),
                chars_of(title.as_str()).as_slice(),
            ),
            None => false,
        };
        let artist_changed = match &record.artist {
            Some(a) => !chars_equal(
                chars_of(a.as_str()).as_slice(),
                chars_of(artist.as_str()).as_slice(),
            ),
            None => false,
        };
        record.title = Some(title);
        record.artist = Some(artist);
        self.replace_record(i, record);
        proof {
            assert(state_wf(self@)) by {
                assert forall|j: int| 0 <= j < self@.records.len() implies (#[trigger] self@.records[j]).session_key == old(self)@.records[j].session_key
                    && self@.records[j].activity_sequence == old(self)@.records[j].activity_sequence by {}
            }
            assert(key_index(self@.records, key) == Some(i as int)) by {
                lemma_key_index_of(self@.records, key, i as int);
            }
        }
        if title_changed || artist_changed {
            self.mark_activity(key, MediaActivityReason::TrackChanged, now_unix_ms);
        }
    }

    /// Records that Windows made `key` its current session.
    pub fn apply_became_current(&mut self, key: u64, now_unix_ms: u64)
        requires
            old(self).wf(),
        ensures
            final(self)@ == marked(
                old(self)@,
                key,
                MediaActivityReason::BecameCurrent,
                now_unix_ms,
            ),
            final(self).wf(),
    {
        self.mark_activity(key, MediaActivityReason::BecameCurrent, now_unix_ms);
    }
}


/// The record that refreshing the session list gives `key`: the existing
/// record, or a fresh one from the first listed source app id.
pub open spec fn refreshed_record(
    m: ActivityStateModel,
    entries: Seq<(u64, Seq<char>)>,
    key: u64,
) -> ActivityModel {
    match record_of(m, key) {
        Some(r) => r,
        None => fresh_record(key, entries[first_entry(entries, key)->0].1),
    }
}

/// The plain values of a session list.
pub open spec fn entries_view(entries: Seq<(u64, String)>) -> Seq<(u64, Seq<char>)> {
    Seq::new(entries.len(), |i: int| (entries[i].0, entries[i].1@))
}

/// Some record has `key`.
pub open spec fn has_key(records: Seq<ActivityModel>, key: u64) -> bool {
    exists|i: int| 0 <= i < records.len() && (#[trigger] records[i]).session_key == key
}

/// Some listed session has `key`.
pub open spec fn lists_key(entries: Seq<(u64, Seq<char>)>, key: u64) -> bool {
    exists|i: int| 0 <= i < entries.len() && (#[trigger] entries[i]).0 == key
}

proof fn lemma_first_entry_of(entries: Seq<(u64, Seq<char>)>, key: u64, j: int)
    requires
        0 <= j < entries.len(),
        entries[j].0 == key,
        forall|k: int| 0 <= k < j ==> (#[trigger] entries[k]).0 != key,
    ensures
        first_entry(entries, key) == Some(j),
    decreases j,
{
    if j > 0 {
        let d = entries.drop_first();
        assert forall|k: int| 0 <= k < j - 1 implies (#[trigger] d[k]).0 != key by {
            assert(d[k] == entries[k + 1]);
        }
        lemma_first_entry_of(d, key, j - 1);
    }
}

/// A preferred-candidate law: a recognised player that starts playing, while
/// the sequence counter is not exhausted, becomes the preferred session.
pub proof fn lemma_started_player_is_preferred(
    m: ActivityStateModel,
    key: u64,
    is_paused: bool,
    now: u64,
)
    requires
        state_wf(m),
        record_of(m, key) matches Some(r) && r.player_kind != MediaPlayerKind::Other
            && !r.is_playing,
        m.next_activity_sequence < u64::MAX,
    ensures
        preferred_key(after_playback_changed(m, key, true, is_paused, now)) == Some(key),
{
    lemma_key_index(m.records, key);
    let i = key_index(m.records, key)->0;
    let r = m.records[i];
    let updated = ActivityStateModel {
        records: m.records.update(i, with_playback(r, true, is_paused)),
        next_activity_sequence: m.next_activity_sequence,
    };
    assert(state_wf(updated)) by {
        assert forall|j: int| 0 <= j < updated.records.len() implies (#[trigger] updated.records[j]).session_key == m.records[j].session_key
            && updated.records[j].activity_sequence == m.records[j].activity_sequence by {}
    }
    assert(key_index(updated.records, key) == Some(i)) by {
        lemma_key_index(updated.records, key);
        lemma_key_index_of(updated.records, key, i);
    }
    let n = marked(updated, key, MediaActivityReason::PlaybackStarted, now);
    assert(n == after_playback_changed(m, key, true, is_paused, now));
    lemma_marked(updated, key, MediaActivityReason::PlaybackStarted, now);
    let cs = candidates_of(n.records);
    lemma_preferred_candidate(cs);
    let ci = cs[i];
    assert(ci == candidate_of(n.records[i]));
    assert(is_eligible(ci));
    let p = preferred_candidate(cs)->0;
    let j = choose|j: int| 0 <= j < cs.len() && cs[j] == p;
    assert(ranks_at_least(p, cs[i]));
    if j != i {
        assert(cs[j] == candidate_of(n.records[j]));
        assert(playback_priority(p) <= 2);
        assert(p.activity_sequence->0 < n.next_activity_sequence);
    }
}

/// What has been built after the first `j` listed sessions were handled:
/// records in strictly increasing key order, one for each key listed so far
/// and none other, each the record that refreshing gives its key.
#[verifier::opaque]
pub open spec fn refresh_progress(
    built: Seq<ActivityModel>,
    entries: Seq<(u64, Seq<char>)>,
    j: int,
    before: ActivityStateModel,
) -> bool {
    &&& forall|a: int, b: int|
        0 <= a < b < built.len() ==> (#[trigger] built[a]).session_key
            < (#[trigger] built[b]).session_key
    &&& forall|a: int|
        0 <= a < built.len() ==> exists|e: int|
            0 <= e < j && (#[trigger] entries[e]).0 == (#[trigger] built[a]).session_key
    &&& forall|e: int| 0 <= e < j ==> has_key(built, #[trigger] entries[e].0)
    &&& forall|a: int|
        0 <= a < built.len() ==> #[trigger] built[a] == refreshed_record(
            before,
            entries,
            built[a].session_key,
        )
}

proof fn lemma_refresh_start(entries: Seq<(u64, Seq<char>)>, before: ActivityStateModel)
    ensures
        refresh_progress(Seq::empty(), entries, 0, before),
{
    reveal(refresh_progress);
}

/// A listed key that is already built leaves the built records as they are.
proof fn lemma_refresh_present(
    built: Seq<ActivityModel>,
    entries: Seq<(u64, Seq<char>)>,
    j: int,
    before: ActivityStateModel,
    p: int,
)
    requires
        refresh_progress(built, entries, j, before),
        0 <= j < entries.len(),
        0 <= p < built.len(),
        built[p].session_key == entries[j].0,
    ensures
        refresh_progress(built, entries, j + 1, before),
{
    reveal(refresh_progress);
    assert(has_key(built, entries[j].0));
    assert forall|a: int| 0 <= a < built.len() implies exists|e: int|
        0 <= e < j + 1 && (#[trigger] entries[e]).0 == (#[trigger] built[a]).session_key by {
        let e = choose|e: int| 0 <= e < j && (#[trigger] entries[e]).0 == built[a].session_key;
        assert(entries[e].0 == built[a].session_key);
    }
}

/// A listed key that is not built yet is listed here for the first time.
proof fn lemma_refresh_new_key(
    built: Seq<ActivityModel>,
    entries: Seq<(u64, Seq<char>)>,
    j: int,
    before: ActivityStateModel,
)
    requires
        refresh_progress(built, entries, j, before),
        0 <= j < entries.len(),
        forall|a: int| 0 <= a < built.len() ==> (#[trigger] built[a]).session_key != entries[j].0,
    ensures
        first_entry(entries, entries[j].0) == Some(j),
{
    reveal(refresh_progress);
    let key = entries[j].0;
    assert forall|e: int| 0 <= e < j implies (#[trigger] entries[e]).0 != key by {
        if entries[e].0 == key {
            assert(has_key(built, entries[e].0));
            let a = choose|a: int| 0 <= a < built.len() && (#[trigger] built[a]).session_key == entries[e].0;
            assert(built[a].session_key == key);
        }
    }
    lemma_first_entry_of(entries, key, j);
}

/// Inserting the refreshed record of a new key at its ordered place keeps
/// the progress.
proof fn lemma_refresh_insert(
    built: Seq<ActivityModel>,
    entries: Seq<(u64, Seq<char>)>,
    j: int,
    before: ActivityStateModel,
    p: int,
    rec: ActivityModel,
)
    requires
        refresh_progress(built, entries, j, before),
        0 <= j < entries.len(),
        0 <= p <= built.len(),
        rec.session_key == entries[j].0,
        rec == refreshed_record(before, entries, rec.session_key),
        forall|a: int| 0 <= a < p ==> (#[trigger] built[a]).session_key < rec.session_key,
        forall|a: int| p <= a < built.len() ==> (#[trigger] built[a]).session_key > rec.session_key,
    ensures
        refresh_progress(built.insert(p, rec), entries, j + 1, before),
{
    reveal(refresh_progress);
    let n = built.insert(p, rec);
    assert forall|a: int, b: int| 0 <= a < b < n.len() implies (#[trigger] n[a]).session_key
        < (#[trigger] n[b]).session_key by {
        if b < p {
            assert(n[a] == built[a] && n[b] == built[b]);
        } else if b == p {
            assert(n[a] == built[a]);
        } else if a == p {
            assert(n[b] == built[b - 1]);
        } else if a < p {
            assert(n[a] == built[a] && n[b] == built[b - 1]);
        } else {
            assert(n[a] == built[a - 1] && n[b] == built[b - 1]);
        }
    }
    assert forall|a: int| 0 <= a < n.len() implies exists|e: int|
        0 <= e < j + 1 && (#[trigger] entries[e]).0 == (#[trigger] n[a]).session_key by {
        if a < p {
            assert(n[a] == built[a]);
            let e = choose|e: int| 0 <= e < j && (#[trigger] entries[e]).0 == built[a].session_key;
            assert(entries[e].0 == n[a].session_key);
        } else if a == p {
            assert(entries[j].0 == n[a].session_key);
        } else {
            assert(n[a] == built[a - 1]);
            let e = choose|e: int| 0 <= e < j && (#[trigger] entries[e]).0 == built[a - 1].session_key;
            assert(entries[e].0 == n[a].session_key);
        }
    }
    assert forall|e: int| 0 <= e < j + 1 implies has_key(n, #[trigger] entries[e].0) by {
        if e < j {
            assert(has_key(built, entries[e].0));
            let a = choose|a: int| 0 <= a < built.len() && (#[trigger] built[a]).session_key == entries[e].0;
            if a < p {
                assert(n[a].session_key == entries[e].0);
            } else {
                assert(n[a + 1].session_key == entries[e].0);
            }
        } else {
            assert(n[p].session_key == entries[e].0);
        }
    }
    assert forall|a: int| 0 <= a < n.len() implies #[trigger] n[a] == refreshed_record(
        before,
        entries,
        n[a].session_key,
    ) by {
        if a < p {
            assert(n[a] == built[a]);
        } else if a > p {
            assert(n[a] == built[a - 1]);
        }
    }
}

/// Once every listed session is handled, the built records form a
/// well-formed state that holds exactly the listed keys.
proof fn lemma_refresh_done(
    built: Seq<ActivityModel>,
    entries: Seq<(u64, Seq<char>)>,
    before: ActivityStateModel,
)
    requires
        refresh_progress(built, entries, entries.len() as int, before),
        state_wf(before),
    ensures
        state_wf(
            ActivityStateModel {
                records: built,
                next_activity_sequence: before.next_activity_sequence,
            },
        ),
        forall|k: u64| has_key(built, k) <==> lists_key(entries, k),
        forall|i: int|
            0 <= i < built.len() ==> #[trigger] built[i] == refreshed_record(
                before,
                entries,
                built[i].session_key,
            ),
{
    reveal(refresh_progress);
    assert forall|a: int| 0 <= a < built.len() implies match (#[trigger] built[a]).activity_sequence {
        Some(s) => s <= before.next_activity_sequence,
        None => true,
    } by {
        let k = built[a].session_key;
        assert(built[a] == refreshed_record(before, entries, k));
        if let Some(r) = record_of(before, k) {
            lemma_key_index(before.records, k);
            let i = key_index(before.records, k)->0;
            assert(before.records[i] == r);
        }
    }
    assert forall|k: u64| has_key(built, k) <==> lists_key(entries, k) by {
        if has_key(built, k) {
            let a = choose|a: int| 0 <= a < built.len() && (#[trigger] built[a]).session_key == k;
            let e = choose|e: int|
                0 <= e < entries.len() && (#[trigger] entries[e]).0 == built[a].session_key;
            assert(entries[e].0 == k);
        }
        if lists_key(entries, k) {
            let e = choose|e: int| 0 <= e < entries.len() && (#[trigger] entries[e]).0 == k;
            assert(has_key(built, entries[e].0));
        }
    }
}

/// The place of `key` among records in strictly increasing key order:
/// whether it is there, and the index of the first record whose key is not
/// below it.
fn sorted_position(records: &Vec<MediaSessionActivity>, key: u64) -> (r: (bool, usize))
    requires
        forall|a: int, b: int|
            0 <= a < b < records@.len() ==> (#[trigger] records@[a]).session_key
                < (#[trigger] records@[b]).session_key,
    ensures
        r.1 <= records@.len(),
        forall|a: int| 0 <= a < r.1 ==> (#[trigger] records@[a]).session_key < key,
        r.0 ==> r.1 < records@.len() && records@[r.1 as int].session_key == key,
        !r.0 ==> forall|a: int|
            r.1 <= a < records@.len() ==> (#[trigger] records@[a]).session_key > key,
{
    let mut p: usize = 0;
    while p < records.len() && records[p].session_key < key
        invariant
            p <= records@.len(),
            forall|a: int| 0 <= a < p ==> (#[trigger] records@[a]).session_key < key,
        decreases records.len() - p,
    {
        p += 1;
    }
    if p < records.len() && records[p].session_key == key {
        (true, p)
    } else {
        proof {
            assert forall|a: int| p <= a < records@.len() implies (#[trigger] records@[a]).session_key
                > key by {
                if a > p {
                    assert(records@[p as int].session_key < records@[a].session_key);
                }
            }
        }
        (false, p)
    }
}


/// The plain value of a `SelectedMediaSession`.
pub struct SelectionModel {
    pub session_key: u64,
    pub source_app_id: Seq<char>,
    pub player_kind: MediaPlayerKind,
    pub reason: MediaSelectionReason,
}

impl View for SelectedMediaSession {
    type V = SelectionModel;

    open spec fn view(&self) -> SelectionModel {
        SelectionModel {
            session_key: self.session_key,
            source_app_id: self.source_app_id@,
            player_kind: self.player_kind,
            reason: self.reason,
        }
    }
}

/// A recognised player whose track has been read at least once.
pub open spec fn is_detected(r: ActivityModel) -> bool {
    r.player_kind != MediaPlayerKind::Other && r.title is Some
}

/// Index of the last observed session whose record is a detected player.
pub open spec fn last_detected(m: ActivityStateModel, observed: Seq<u64>) -> Option<int>
    decreases observed.len(),
{
    if observed.len() == 0 {
        None
    } else {
        match record_of(m, observed.last()) {
            Some(r) if is_detected(r) => Some(observed.len() - 1),
            _ => last_detected(m, observed.drop_last()),
        }
    }
}

/// The session the bar shows: the session that activity prefers, if it is
/// observed; else the last observed detected player; else the Windows
/// current session, if it is observed and its source app id could be read.
pub open spec fn selection_of(
    m: ActivityStateModel,
    observed: Seq<u64>,
    current: Option<(u64, Option<Seq<char>>)>,
) -> Option<SelectionModel> {
    let preferred = preferred_key(m);
    if preferred is Some && observed.contains(preferred->0) && record_of(m, preferred->0) is Some {
        let r = record_of(m, preferred->0)->0;
        Some(
            SelectionModel {
                session_key: preferred->0,
                source_app_id: r.source_app_id,
                player_kind: r.player_kind,
                reason: if r.is_playing {
                    MediaSelectionReason::PlayingPreferred
                } else {
                    MediaSelectionReason::LastPausedPreferred
                },
            },
        )
    } else if last_detected(m, observed) is Some {
        let k = observed[last_detected(m, observed)->0];
        let r = record_of(m, k)->0;
        Some(
            SelectionModel {
                session_key: k,
                source_app_id: r.source_app_id,
                player_kind: r.player_kind,
                reason: MediaSelectionReason::DetectedPreferred,
            },
        )
    } else {
        match current {
            Some((k, Some(source))) if observed.contains(k) => Some(
                SelectionModel {
                    session_key: k,
                    source_app_id: source,
                    player_kind: player_kind_of(source),
                    reason: MediaSelectionReason::WindowsCurrentFallback,
                },
            ),
            _ => None,
        }
    }
}

pub open spec fn selection_view(s: Option<SelectedMediaSession>) -> Option<SelectionModel> {
    match s {
        Some(v) => Some(v@),
        None => None,
    }
}

pub open spec fn current_view(c: Option<(u64, Option<String>)>) -> Option<(u64, Option<Seq<char>>)> {
    match c {
        Some((k, Some(s))) => Some((k, Some(s@))),
        Some((k, None)) => Some((k, None)),
        None => None,
    }
}

/// Whether `key` occurs in `keys`.
fn contains_key(keys: &[u64], key: u64) -> (r: bool)
    ensures
        r == keys@.contains(key),
{
    let mut i: usize = 0;
    while i < keys.len()
        invariant
            i <= keys@.len(),
            forall|a: int| 0 <= a < i ==> keys@[a] != key,
        decreases keys.len() - i,
    {
        if keys[i] == key {
            assert(keys@[i as int] == key);
            return true;
        }
        i += 1;
    }
    false
}

/// The record of `key` exists and is a detected player.
pub open spec fn detected_at(m: ActivityStateModel, key: u64) -> bool {
    record_of(m, key) matches Some(r) && is_detected(r)
}

proof fn lemma_last_detected_at(m: ActivityStateModel, observed: Seq<u64>, i: int)
    requires
        0 <= i < observed.len(),
        detected_at(m, observed[i]),
        forall|a: int| i < a < observed.len() ==> !detected_at(m, #[trigger] observed[a]),
    ensures
        last_detected(m, observed) == Some(i),
    decreases observed.len(),
{
    if i < observed.len() - 1 {
        let d = observed.drop_last();
        assert(!detected_at(m, observed[observed.len() - 1]));
        assert forall|a: int| i < a < d.len() implies !detected_at(m, #[trigger] d[a]) by {
            assert(d[a] == observed[a]);
        }
        lemma_last_detected_at(m, d, i);
    }
}

proof fn lemma_last_detected_none(m: ActivityStateModel, observed: Seq<u64>)
    requires
        forall|a: int| 0 <= a < observed.len() ==> !detected_at(m, #[trigger] observed[a]),
    ensures
        last_detected(m, observed) is None,
    decreases observed.len(),
{
    if observed.len() > 0 {
        let d = observed.drop_last();
        assert(!detected_at(m, observed[observed.len() - 1]));
        assert forall|a: int| 0 <= a < d.len() implies !detected_at(m, #[trigger] d[a]) by {
            assert(d[a] == observed[a]);
        }
        lemma_last_detected_none(m, d);
    }
}

impl ActivityState {
    /// Rebuilds the records for the listed sessions: records of sessions that
    /// are gone are dropped, records of listed sessions are kept as they are,
    /// and a newly listed session gets a fresh record whose player kind comes
    /// from its (first listed) source app id.
    pub fn refresh_sessions(&mut self, entries: &[(u64, String)])
        requires
            old(self).wf(),
        ensures
            final(self).wf(),
            final(self)@.next_activity_sequence == old(self)@.next_activity_sequence,
            forall|k: u64|
                has_key(final(self)@.records, k) <==> lists_key(entries_view(entries@), k),
            forall|i: int|
                0 <= i < final(self)@.records.len() ==> #[trigger] final(self)@.records[i]
                    == refreshed_record(
                    old(self)@,
                    entries_view(entries@),
                    final(self)@.records[i].session_key,
                ),
    {
        let ghost ev = entries_view(entries@);
        let ghost before = self@;
        let mut result: Vec<MediaSessionActivity> = Vec::new();
        proof {
            lemma_refresh_start(ev, before);
            assert(records_view(result@) =~= Seq::<ActivityModel>::empty());
        }
        let mut j: usize = 0;
        while j < entries.len()
            invariant
                j <= entries@.len(),
                ev == entries_view(entries@),
                before == self@,
                state_wf(self@),
                refresh_progress(records_view(result@), ev, j as int, before),
            decreases entries.len() - j,
        {
            let key = entries[j].0;
            proof {
                reveal(refresh_progress);
                let rv = records_view(result@);
                assert forall|a: int, b: int|
                    0 <= a < b < result@.len() implies (#[trigger] result@[a]).session_key
                        < (#[trigger] result@[b]).session_key by {
                    assert(rv[a].session_key < rv[b].session_key);
                }
            }
            let (present, p) = sorted_position(&result, key);
            if present {
                proof {
                    assert(records_view(result@)[p as int].session_key == key);
                    lemma_refresh_present(records_view(result@), ev, j as int, before, p as int);
                }
            } else {
                proof {
                    let rv = records_view(result@);
                    assert forall|a: int| 0 <= a < rv.len() implies (#[trigger] rv[a]).session_key
                        != ev[j as int].0 by {
                        assert(rv[a].session_key == result@[a].session_key);
                    }
                    lemma_refresh_new_key(rv, ev, j as int, before);
                }
                let record = match self.find(key) {
                    Some(i) => {
                        proof {
                            lemma_key_index(self@.records, key);
                        }
                        self.records[i].copy()
                    },
                    None => {
                        let source = entries[j].1.clone();
                        let player_kind = identify_media_player(source.as_str());
                        MediaSessionActivity {
                            session_key: key,
                            source_app_id: source,
                            player_kind,
                            title: None,
                            artist: None,
                            is_playing: false,
                            is_paused: false,
                            last_activity_at_unix_ms: None,
                            activity_sequence: None,
                            last_activity_reason: None,
                        }
                    },
                };
                let ghost old_result = result@;
                proof {
                    let rv = records_view(old_result);
                    assert forall|a: int| 0 <= a < p implies (#[trigger] rv[a]).session_key < key by {
                        assert(rv[a].session_key == old_result[a].session_key);
                    }
                    assert forall|a: int| p <= a < rv.len() implies (#[trigger] rv[a]).session_key > key by {
                        assert(rv[a].session_key == old_result[a].session_key);
                    }
                    lemma_refresh_insert(rv, ev, j as int, before, p as int, record@);
                }
                result.insert(p, record);
                proof {
                    assert(records_view(result@) =~= records_view(old_result).insert(p as int, record@));
                }
            }
            j += 1;
        }
        proof {
            lemma_refresh_done(records_view(result@), ev, before);
        }
        self.records = result;
    }

    /// Copies of all records, ordered by session key.
    pub fn snapshots(&self) -> (r: Vec<MediaSessionActivity>)
        ensures
            records_view(r@) == self@.records,
    {
        let mut out: Vec<MediaSessionActivity> = Vec::new();
        let mut i: usize = 0;
        while i < self.records.len()
            invariant
                i <= self.records@.len(),
                out@.len() == i,
                forall|a: int| 0 <= a < i ==> (#[trigger] out@[a])@ == self.records@[a]@,
            decreases self.records.len() - i,
        {
            out.push(self.records[i].copy());
            i += 1;
        }
        proof {
            assert(records_view(out@) =~= records_view(self.records@));
        }
        out
    }
    /// The session the bar shows, among the observed sessions (in the order
    /// in which they were listed) and the Windows current session with its
    /// source app id, where that could be read.
    pub fn select_session(
        &self,
        observed_keys: &[u64],
        windows_current: Option<(u64, Option<String>)>,
    ) -> (r: Option<SelectedMediaSession>)
        requires
            self.wf(),
        ensures
            selection_view(r) == selection_of(self@, observed_keys@, current_view(windows_current)),
    {
        let ghost m = self@;
        let preferred = self.select_preferred_session_key();
        if let Some(key) = preferred {
            if contains_key(observed_keys, key) {
                if let Some(i) = self.find(key) {
                    proof {
                        lemma_key_index(m.records, key);
                    }
                    let record = &self.records[i];
                    let reason = if record.is_playing {
                        MediaSelectionReason::PlayingPreferred
                    } else {
                        MediaSelectionReason::LastPausedPreferred
                    };
                    return Some(
                        SelectedMediaSession {
                            session_key: key,
                            source_app_id: record.source_app_id.clone(),
                            player_kind: record.player_kind,
                            reason,
                        },
                    );
                }
            }
        }
        proof {
            if preferred_key(m) is Some && observed_keys@.contains(preferred_key(m)->0) {
                lemma_key_index(m.records, preferred_key(m)->0);
            }
        }
        let mut n: usize = observed_keys.len();
        while n > 0
            invariant
                n <= observed_keys@.len(),
                m == self@,
                !(preferred_key(m) is Some && observed_keys@.contains(preferred_key(m)->0)
                    && record_of(m, preferred_key(m)->0) is Some),
                forall|a: int|
                    n <= a < observed_keys@.len() ==> !detected_at(m, #[trigger] observed_keys@[a]),
            decreases n,
        {
            let key = observed_keys[n - 1];
            if let Some(i) = self.find(key) {
                proof {
                    lemma_key_index(m.records, key);
                }
                let record = &self.records[i];
                if record.player_kind != MediaPlayerKind::Other && record.title.is_some() {
                    proof {
                        lemma_last_detected_at(m, observed_keys@, n - 1);
                    }
                    return Some(
                        SelectedMediaSession {
                            session_key: key,
                            source_app_id: record.source_app_id.clone(),
                            player_kind: record.player_kind,
                            reason: MediaSelectionReason::DetectedPreferred,
                        },
                    );
                }
            }
            n -= 1;
        }
        proof {
            lemma_last_detected_none(m, observed_keys@);
        }
        match windows_current {
            Some((key, Some(source))) => {
                if contains_key(observed_keys, key) {
                    let player_kind = identify_media_player(source.as_str());
                    Some(
                        SelectedMediaSession {
                            session_key: key,
                            source_app_id: source,
                            player_kind,
                            reason: MediaSelectionReason::WindowsCurrentFallback,
                        },
                    )
                } else {
                    None
                }
            },
            _ => None,
        }
    }

    /// The key of the session that activity alone prefers.
    pub fn select_preferred_session_key(&self) -> (r: Option<u64>)
        ensures
            r == preferred_key(self@),
    {
        let mut candidates: Vec<MediaSelectionCandidate> = Vec::new();
        let mut i: usize = 0;
        while i < self.records.len()
            invariant
                i <= self.records@.len(),
                candidates@ == candidates_of(records_view(self.records@)).take(i as int),
            decreases self.records.len() - i,
        {
            let record = &self.records[i];
            candidates.push(
                MediaSelectionCandidate {
                    session_key: record.session_key,
                    player_kind: record.player_kind,
                    is_playing: record.is_playing,
                    is_paused: record.is_paused,
                    activity_sequence: record.activity_sequence,
                },
            );
            i += 1;
            proof {
                assert(candidates@ =~= candidates_of(records_view(self.records@)).take(i as int));
            }
        }
        proof {
            assert(candidates@ =~= candidates_of(self@.records));
        }
        select_preferred_candidate(candidates.as_slice())
    }
}

/// The index `last_detected` gives is that of an observed session whose
/// record is a detected player; where it gives none, no observed session is.
proof fn lemma_last_detected_props(m: ActivityStateModel, observed: Seq<u64>)
    ensures
        last_detected(m, observed) matches Some(i) ==> 0 <= i < observed.len() && detected_at(
            m,
            observed[i],
        ),
        last_detected(m, observed) is None ==> forall|a: int|
            0 <= a < observed.len() ==> !detected_at(m, #[trigger] observed[a]),
    decreases observed.len(),
{
    if observed.len() > 0 {
        let d = observed.drop_last();
        lemma_last_detected_props(m, d);
        assert forall|a: int| 0 <= a < d.len() implies d[a] == observed[a] by {}
    }
}

/// The record of the preferred session is that of a recognised player that
/// is playing or paused.
proof fn lemma_preferred_record(m: ActivityStateModel)
    requires
        state_wf(m),
    ensures
        preferred_key(m) matches Some(k) ==> (record_of(m, k) matches Some(r) && r.player_kind
            != MediaPlayerKind::Other && (r.is_playing || r.is_paused) && r.session_key == k),
{
    let cs = candidates_of(m.records);
    lemma_preferred_candidate(cs);
    if let Some(p) = preferred_candidate(cs) {
        let j = choose|j: int| 0 <= j < cs.len() && cs[j] == p;
        assert(cs[j] == candidate_of(m.records[j]));
        assert forall|k: int| 0 <= k < j implies (#[trigger] m.records[k]).session_key
            != p.session_key by {
            assert(m.records[k].session_key < m.records[j].session_key);
        }
        lemma_key_index_of(m.records, p.session_key, j);
    }
}

/// What the chosen session is, by the reason it was chosen:
/// - it is always one of the observed sessions;
/// - a preferred one (playing or last paused) is a recognised player whose
///   record says it is playing, or paused and not playing;
/// - a detected one is a recognised player whose track has been read;
/// - the Windows fallback is the Windows current session with its source;
/// and nothing is chosen only where no observed session is a recognised
/// player with a read track.
pub proof fn lemma_selection_reasons(
    m: ActivityStateModel,
    observed: Seq<u64>,
    current: Option<(u64, Option<Seq<char>>)>,
)
    requires
        state_wf(m),
    ensures
        selection_of(m, observed, current) matches Some(s) ==> observed.contains(s.session_key),
        selection_of(m, observed, current) matches Some(s) ==> (s.reason
            == MediaSelectionReason::PlayingPreferred ==> (record_of(m, s.session_key) matches Some(
            r) && r.player_kind != MediaPlayerKind::Other && r.is_playing && s.player_kind
            == r.player_kind && s.source_app_id == r.source_app_id)),
        selection_of(m, observed, current) matches Some(s) ==> (s.reason
            == MediaSelectionReason::LastPausedPreferred ==> (record_of(m, s.session_key) matches Some(
            r) && r.player_kind != MediaPlayerKind::Other && !r.is_playing && r.is_paused
            && s.player_kind == r.player_kind && s.source_app_id == r.source_app_id)),
        selection_of(m, observed, current) matches Some(s) ==> (s.reason
            == MediaSelectionReason::DetectedPreferred ==> (record_of(m, s.session_key) matches Some(
            r) && r.player_kind != MediaPlayerKind::Other && r.title is Some && s.player_kind
            == r.player_kind && s.source_app_id == r.source_app_id)),
        selection_of(m, observed, current) matches Some(s) ==> (s.reason
            == MediaSelectionReason::WindowsCurrentFallback ==> current == Some(
            (s.session_key, Some(s.source_app_id)),
        )),
        selection_of(m, observed, current) is None ==> forall|a: int|
            0 <= a < observed.len() ==> !(record_of(m, #[trigger] observed[a]) matches Some(r)
                && r.player_kind != MediaPlayerKind::Other && r.title is Some),
{
    lemma_preferred_record(m);
    lemma_last_detected_props(m, observed);
    if let Some(i) = last_detected(m, observed) {
        assert(observed.contains(observed[i]));
    }
}

} // verus!
