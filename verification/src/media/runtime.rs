//! The decisions of the media runtime: when a failed Windows media service is
//! tried again, which metadata reading still counts after the observed
//! session changed, and when the observed session is bound anew.
use vstd::prelude::*;

use super::model::CurrentMediaMetadata;

verus! {

/// How long a failed media runtime waits before the next attempt, in
/// milliseconds.
pub const MEDIA_RUNTIME_RETRY_INTERVAL_MS: u64 = 2000;

/// A retry is due where none is scheduled, or its time has come.
pub open spec fn retry_due(retry_after_ms: Option<u64>, now_ms: u64) -> bool {
    match retry_after_ms {
        None => true,
        Some(t) => now_ms >= t,
    }
}

/// Whether a new attempt to start the media runtime is due.
pub fn media_runtime_retry_is_due(retry_after_ms: Option<u64>, now_ms: u64) -> (r: bool)
    ensures
        r == retry_due(retry_after_ms, now_ms),
{
    match retry_after_ms {
        None => true,
        Some(t) => now_ms >= t,
    }
}

/// `now_ms + MEDIA_RUNTIME_RETRY_INTERVAL_MS`, saturating.
pub open spec fn retry_time(now_ms: u64) -> u64 {
    if now_ms as int + 2000 > u64::MAX {
        u64::MAX
    } else {
        (now_ms + 2000) as u64
    }
}

fn next_retry_time(now_ms: u64) -> (r: u64)
    ensures
        r == retry_time(now_ms),
{
    now_ms.saturating_add(MEDIA_RUNTIME_RETRY_INTERVAL_MS)
}

/// What a caller of the media runtime must do.
#[derive(Debug, Clone, Copy, PartialEq, Eq, Structural)]
pub enum RuntimeAccess {
    /// Use the running runtime with this generation.
    Use { generation: u64 },
    /// Start a new runtime now, and report the outcome with
    /// `initialization_finished`.
    Initialize,
    /// The service is unavailable; wait for the scheduled retry.
    Wait,
}

/// The slot that holds the media runtime: the generation of the running
/// runtime, if any, and the time from which a new start may be tried.
#[derive(Debug, Clone, Copy, PartialEq, Eq, Structural)]
pub struct MediaRuntimeSlot {
    pub generation: Option<u64>,
    pub next_generation: u64,
    pub retry_after_ms: Option<u64>,
}

/// The error while the runtime waits for its retry.
pub open spec fn waiting_message() -> Seq<char> {
    "Windows 媒体服务暂时不可用，正在等待自动重试"@
}

impl MediaRuntimeSlot {
    /// The slot after the first start of the runtime at `now_ms`: running,
    /// or empty with a retry scheduled.
    pub fn initialized(started: bool, now_ms: u64) -> (r: MediaRuntimeSlot)
        ensures
            started ==> r.generation == Some(0u64) && r.retry_after_ms is None,
            !started ==> r.generation is None && r.retry_after_ms == Some(retry_time(now_ms)),
            r.next_generation == 1,
    {
        if started {
            MediaRuntimeSlot { generation: Some(0), next_generation: 1, retry_after_ms: None }
        } else {
            MediaRuntimeSlot {
                generation: None,
                next_generation: 1,
                retry_after_ms: Some(next_retry_time(now_ms)),
            }
        }
    }

    /// What a caller does at `now_ms`: use the running runtime; start one
    /// where none runs and a retry is due; else wait.
    pub fn access(&self, now_ms: u64) -> (r: RuntimeAccess)
        ensures
            match self.generation {
                Some(g) => r == RuntimeAccess::Use { generation: g },
                None => if retry_due(self.retry_after_ms, now_ms) {
                    r == RuntimeAccess::Initialize
                } else {
                    r == RuntimeAccess::Wait
                },
            },
    {
        match self.generation {
            Some(g) => RuntimeAccess::Use { generation: g },
            None => if media_runtime_retry_is_due(self.retry_after_ms, now_ms) {
                RuntimeAccess::Initialize
            } else {
                RuntimeAccess::Wait
            },
        }
    }

    /// Records the outcome of a start that `access` asked for: a started
    /// runtime gets the next generation and clears the retry; a failed
    /// start schedules the next retry.
    pub fn initialization_finished(&mut self, started: bool, now_ms: u64) -> (r: Option<u64>)
        requires
            old(self).next_generation < u64::MAX,
        ensures
            started ==> r == Some(old(self).next_generation) && final(self).generation == r
                && final(self).retry_after_ms is None && final(self).next_generation
                == old(self).next_generation + 1,
            !started ==> r is None && final(self).generation == old(self).generation
                && final(self).retry_after_ms == Some(retry_time(now_ms))
                && final(self).next_generation == old(self).next_generation,
    {
        if started {
            let g = self.next_generation;
            self.generation = Some(g);
            self.next_generation = g + 1;
            self.retry_after_ms = None;
            Some(g)
        } else {
            self.retry_after_ms = Some(next_retry_time(now_ms));
            None
        }
    }

    /// An operation on the runtime of `generation` failed: that runtime is
    /// dropped and a retry scheduled, unless another runtime has replaced
    /// it meanwhile.
    pub fn operation_failed(&mut self, generation: u64, now_ms: u64)
        ensures
            old(self).generation == Some(generation) ==> final(self).generation is None
                && final(self).retry_after_ms == Some(retry_time(now_ms)),
            old(self).generation != Some(generation) ==> *final(self) == *old(self),
            final(self).next_generation == old(self).next_generation,
    {
        if self.generation == Some(generation) {
            self.generation = None;
            self.retry_after_ms = Some(next_retry_time(now_ms));
        }
    }

    /// Shuts the runtime down: it is dropped, and a retry is scheduled.
    pub fn shutdown(&mut self, now_ms: u64)
        ensures
            final(self).generation is None,
            final(self).retry_after_ms == Some(retry_time(now_ms)),
            final(self).next_generation == old(self).next_generation,
    {
        self.generation = None;
        self.retry_after_ms = Some(next_retry_time(now_ms));
    }
}

// ---------------------------------------------------------------------------
// Metadata loading.
// ---------------------------------------------------------------------------

/// The plain value of a `CurrentMediaMetadata`.
pub struct MetadataModel {
    pub source_app_id: Seq<char>,
    pub title: Seq<char>,
    pub artist: Seq<char>,
    pub artwork_data_url: Option<Seq<char>>,
    pub accent_color: Seq<char>,
}

pub open spec fn metadata_view(m: CurrentMediaMetadata) -> MetadataModel {
    MetadataModel {
        source_app_id: m.source_app_id@,
        title: m.title@,
        artist: m.artist@,
        artwork_data_url: match m.artwork_data_url {
            Some(u) => Some(u@),
            None => None,
        },
        accent_color: m.accent_color@,
    }
}

pub open spec fn cached_view(c: Option<CurrentMediaMetadata>) -> Option<MetadataModel> {
    match c {
        Some(m) => Some(metadata_view(m)),
        None => None,
    }
}

/// A copy of `m`.
pub fn copy_metadata(m: &CurrentMediaMetadata) -> (r: CurrentMediaMetadata)
    ensures
        metadata_view(r) == metadata_view(*m),
{
    CurrentMediaMetadata {
        source_app_id: m.source_app_id.clone(),
        title: m.title.clone(),
        artist: m.artist.clone(),
        artwork_data_url: match &m.artwork_data_url {
            Some(u) => Some(u.clone()),
            None => None,
        },
        accent_color: m.accent_color.clone(),
    }
}

/// A reading of a session's full metadata that the worker must perform.
#[derive(Debug, Clone, Copy, PartialEq, Eq, Structural)]
pub struct MetadataRequest {
    pub session_key: u64,
    pub revision: u64,
}

/// What follows a finished reading.
#[derive(Debug, Clone, Copy, PartialEq, Eq, Structural)]
pub enum MetadataOutcome {
    /// A newer request or a clear came meanwhile; the reading is dropped.
    Stale,
    /// The reading is cached; the snapshot of the session is announced.
    Cached,
    /// The reading failed; the cache is emptied and an empty snapshot is
    /// announced.
    Failed,
}

/// The metadata loader: a mailbox that keeps only the latest request, the
/// revision of the latest request or clear, and the metadata last read.
#[derive(Debug)]
pub struct MetadataLoaderState {
    pub revision: u64,
    pub pending: Option<MetadataRequest>,
    pub shutdown: bool,
    pub cached: Option<CurrentMediaMetadata>,
}

/// `revision + 1`, wrapping as an atomic counter does.
pub open spec fn next_revision(revision: u64) -> u64 {
    if revision == u64::MAX {
        0
    } else {
        (revision + 1) as u64
    }
}

impl MetadataLoaderState {
    /// An empty loader.
    pub fn new() -> (r: MetadataLoaderState)
        ensures
            r.revision == 0,
            r.pending is None,
            !r.shutdown,
            r.cached is None,
    {
        MetadataLoaderState { revision: 0, pending: None, shutdown: false, cached: None }
    }

    /// Asks for a reading of `session_key`: draws a new revision, and
    /// replaces any waiting request unless the loader is shutting down.
    pub fn request(&mut self, session_key: u64) -> (r: u64)
        ensures
            r == next_revision(old(self).revision),
            final(self).revision == r,
            final(self).shutdown == old(self).shutdown,
            cached_view(final(self).cached) == cached_view(old(self).cached),
            old(self).shutdown ==> final(self).pending == old(self).pending,
            !old(self).shutdown ==> final(self).pending == Some(
                MetadataRequest { session_key, revision: r },
            ),
    {
        let revision = self.revision.wrapping_add(1);
        self.revision = revision;
        if !self.shutdown {
            self.pending = Some(MetadataRequest { session_key, revision });
        }
        revision
    }

    /// The observed session is gone: readings in flight become stale, the
    /// waiting request is dropped and the cache emptied.
    pub fn clear(&mut self)
        ensures
            final(self).revision == next_revision(old(self).revision),
            final(self).pending is None,
            final(self).cached is None,
            final(self).shutdown == old(self).shutdown,
    {
        self.revision = self.revision.wrapping_add(1);
        self.pending = None;
        self.cached = None;
    }

    /// The worker takes the waiting request, if any and not shutting down.
    pub fn take_pending(&mut self) -> (r: Option<MetadataRequest>)
        ensures
            r == (if old(self).shutdown {
                None
            } else {
                old(self).pending
            }),
            final(self).pending == (if old(self).shutdown {
                old(self).pending
            } else {
                None
            }),
            final(self).revision == old(self).revision,
            final(self).shutdown == old(self).shutdown,
            cached_view(final(self).cached) == cached_view(old(self).cached),
    {
        if self.shutdown {
            None
        } else {
            let r = self.pending;
            self.pending = None;
            r
        }
    }

    /// Records a finished reading of the request with `revision`.
    pub fn complete(
        &mut self,
        revision: u64,
        result: Result<CurrentMediaMetadata, String>,
    ) -> (r: MetadataOutcome)
        ensures
            final(self).revision == old(self).revision,
            final(self).pending == old(self).pending,
            final(self).shutdown == old(self).shutdown,
            revision != old(self).revision ==> r == MetadataOutcome::Stale && cached_view(
                final(self).cached,
            ) == cached_view(old(self).cached),
            revision == old(self).revision ==> match result {
                Ok(m) => r == MetadataOutcome::Cached && cached_view(final(self).cached) == Some(
                    metadata_view(m),
                ),
                Err(_) => r == MetadataOutcome::Failed && final(self).cached is None,
            },
    {
        if revision != self.revision {
            return MetadataOutcome::Stale;
        }
        match result {
            Ok(m) => {
                self.cached = Some(m);
                MetadataOutcome::Cached
            },
            Err(_) => {
                self.cached = None;
                MetadataOutcome::Failed
            },
        }
    }

    /// A copy of the cached metadata.
    pub fn cached(&self) -> (r: Option<CurrentMediaMetadata>)
        ensures
            cached_view(r) == cached_view(self.cached),
    {
        match &self.cached {
            Some(m) => Some(copy_metadata(m)),
            None => None,
        }
    }

    /// The loader shuts down: the waiting request is dropped.
    pub fn close(&mut self)
        ensures
            final(self).shutdown,
            final(self).pending is None,
            final(self).revision == old(self).revision,
            cached_view(final(self).cached) == cached_view(old(self).cached),
    {
        self.shutdown = true;
        self.pending = None;
    }
}

/// A request or a clear makes the reading in flight stale: the revision it
/// carried is no longer the loader's revision, so `complete` drops it.
pub proof fn lemma_new_revision_makes_reading_stale(revision: u64)
    ensures
        next_revision(revision) != revision,
{
}

// ---------------------------------------------------------------------------
// Binding the observed session.
// ---------------------------------------------------------------------------

/// What to do after selecting the session to observe.
#[derive(Debug, Clone, Copy, PartialEq, Eq, Structural)]
pub enum BindDecision {
    /// Unbind the observed session and bind the selected one (or none).
    Rebind,
    /// The selected session stays observed but has no metadata yet: ask
    /// for it again.
    RequestMetadata,
    /// Nothing changes.
    Keep,
}

/// Metadata is asked for again when the observed session stays selected
/// and nothing has been read of it yet.
pub open spec fn retries_metadata(
    selected_key: Option<u64>,
    observed_key: Option<u64>,
    has_cached_metadata: bool,
) -> bool {
    selected_key is Some && selected_key == observed_key && !has_cached_metadata
}

/// Whether to ask again for the metadata of the observed session.
pub fn should_retry_media_metadata(
    selected_key: Option<u64>,
    observed_key: Option<u64>,
    has_cached_metadata: bool,
) -> (r: bool)
    ensures
        r == retries_metadata(selected_key, observed_key, has_cached_metadata),
{
    selected_key.is_some() && selected_key == observed_key && !has_cached_metadata
}

/// The binding decision for a selection.
pub fn binding_decision(
    selected_key: Option<u64>,
    observed_key: Option<u64>,
    has_cached_metadata: bool,
) -> (r: BindDecision)
    ensures
        selected_key != observed_key ==> r == BindDecision::Rebind,
        selected_key == observed_key && retries_metadata(
            selected_key,
            observed_key,
            has_cached_metadata,
        ) ==> r == BindDecision::RequestMetadata,
        selected_key == observed_key && !retries_metadata(
            selected_key,
            observed_key,
            has_cached_metadata,
        ) ==> r == BindDecision::Keep,
{
    if selected_key != observed_key {
        BindDecision::Rebind
    } else if should_retry_media_metadata(selected_key, observed_key, has_cached_metadata) {
        BindDecision::RequestMetadata
    } else {
        BindDecision::Keep
    }
}

/// The event subscriptions of the observed session.
#[derive(Debug, Clone, Copy, PartialEq, Eq, Structural)]
pub struct SessionObservation {
    pub session_key: Option<u64>,
    pub media_properties_token: Option<i64>,
    pub playback_info_token: Option<i64>,
    pub timeline_properties_token: Option<i64>,
}

/// A subscription of the observed session.
#[derive(Debug, Clone, Copy, PartialEq, Eq, Structural)]
pub enum SubscriptionKind {
    MediaProperties,
    TimelineProperties,
    PlaybackInfo,
}

/// No session observed.
pub open spec fn no_observation() -> SessionObservation {
    SessionObservation {
        session_key: None,
        media_properties_token: None,
        playback_info_token: None,
        timeline_properties_token: None,
    }
}

pub open spec fn token_entry(kind: SubscriptionKind, token: Option<i64>) -> Seq<(SubscriptionKind, i64)> {
    match token {
        Some(t) => seq![(kind, t)],
        None => Seq::empty(),
    }
}

/// The subscriptions that clearing an observation removes, in order:
/// media properties, timeline, playback info; those with a token, and none
/// where no session is observed.
pub open spec fn subscriptions_to_remove(o: SessionObservation) -> Seq<(SubscriptionKind, i64)> {
    if o.session_key is None {
        Seq::empty()
    } else {
        token_entry(SubscriptionKind::MediaProperties, o.media_properties_token) + token_entry(
            SubscriptionKind::TimelineProperties,
            o.timeline_properties_token,
        ) + token_entry(SubscriptionKind::PlaybackInfo, o.playback_info_token)
    }
}

/// The subscriptions to undo when binding a session fails after some
/// succeeded: the media properties subscription, then the playback one.
pub fn rollback_subscriptions(
    media_properties_token: Option<i64>,
    playback_info_token: Option<i64>,
) -> (r: Vec<(SubscriptionKind, i64)>)
    ensures
        r@ == token_entry(SubscriptionKind::MediaProperties, media_properties_token) + token_entry(
            SubscriptionKind::PlaybackInfo,
            playback_info_token,
        ),
{
    let mut r: Vec<(SubscriptionKind, i64)> = Vec::new();
    if let Some(t) = media_properties_token {
        r.push((SubscriptionKind::MediaProperties, t));
    }
    if let Some(t) = playback_info_token {
        r.push((SubscriptionKind::PlaybackInfo, t));
    }
    proof {
        assert(r@ =~= token_entry(SubscriptionKind::MediaProperties, media_properties_token)
            + token_entry(SubscriptionKind::PlaybackInfo, playback_info_token));
    }
    r
}

impl SessionObservation {
    /// No session observed.
    pub fn empty() -> (r: SessionObservation)
        ensures
            r == no_observation(),
    {
        SessionObservation {
            session_key: None,
            media_properties_token: None,
            playback_info_token: None,
            timeline_properties_token: None,
        }
    }

    /// Clears the observation and returns the subscriptions to remove.
    pub fn clear(&mut self) -> (r: Vec<(SubscriptionKind, i64)>)
        ensures
            *final(self) == no_observation(),
            r@ == subscriptions_to_remove(*old(self)),
    {
        let mut r: Vec<(SubscriptionKind, i64)> = Vec::new();
        if self.session_key.is_some() {
            if let Some(t) = self.media_properties_token {
                r.push((SubscriptionKind::MediaProperties, t));
            }
            if let Some(t) = self.timeline_properties_token {
                r.push((SubscriptionKind::TimelineProperties, t));
            }
            if let Some(t) = self.playback_info_token {
                r.push((SubscriptionKind::PlaybackInfo, t));
            }
        }
        let ghost o = *old(self);
        proof {
            if o.session_key is Some {
                assert(r@ =~= token_entry(SubscriptionKind::MediaProperties, o.media_properties_token)
                    + token_entry(SubscriptionKind::TimelineProperties, o.timeline_properties_token)
                    + token_entry(SubscriptionKind::PlaybackInfo, o.playback_info_token));
            }
        }
        self.session_key = None;
        self.media_properties_token = None;
        self.playback_info_token = None;
        self.timeline_properties_token = None;
        r
    }

    /// Records a completely bound session.
    pub fn bound(
        session_key: u64,
        media_properties_token: i64,
        playback_info_token: i64,
        timeline_properties_token: i64,
    ) -> (r: SessionObservation)
        ensures
            r.session_key == Some(session_key),
            r.media_properties_token == Some(media_properties_token),
            r.playback_info_token == Some(playback_info_token),
            r.timeline_properties_token == Some(timeline_properties_token),
    {
        SessionObservation {
            session_key: Some(session_key),
            media_properties_token: Some(media_properties_token),
            playback_info_token: Some(playback_info_token),
            timeline_properties_token: Some(timeline_properties_token),
        }
    }
}

} // verus!
