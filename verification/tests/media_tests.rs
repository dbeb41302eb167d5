use muse_bar::media::runtime::rollback_subscriptions;
use muse_bar::media::activity::{
    ActivityState, MediaActivityReason, MediaSelectionReason,
};
use muse_bar::media::artwork::{
    artwork_data_url, check_artwork_size, choose_color, color_buckets, color_candidates,
    color_hex, detect_artwork_content_type, extract_color_candidates, windows_accent_color,
    ColorCandidate,
};
use muse_bar::media::control::{
    plan_seek, ControlAction, ControlAnswer, ControlCapability, ControlCommand, ControlQuery,
    ControlRun, ControlStep, MediaControlErrorCode,
};
use muse_bar::media::model::{
    bounded_media_text, identify_media_player, metadata_belongs_to_session,
    playback_status_from_code, ticks_to_milliseconds, timeline_from_ticks, CurrentMediaMetadata,
    CurrentPlaybackStatus, MediaPlayerKind,
};
use muse_bar::media::runtime::{
    binding_decision, media_runtime_retry_is_due, should_retry_media_metadata, BindDecision,
    MediaRuntimeSlot, MetadataLoaderState, MetadataOutcome, RuntimeAccess, SessionObservation,
    SubscriptionKind,
};
use muse_bar::media::selection::{select_preferred_session_key, MediaSelectionCandidate};

fn metadata(source: &str, title: &str) -> CurrentMediaMetadata {
    CurrentMediaMetadata {
        source_app_id: source.to_owned(),
        title: title.to_owned(),
        artist: "Artist".to_owned(),
        artwork_data_url: None,
        accent_color: "#0078D4".to_owned(),
    }
}

#[test]
fn players_are_identified_by_source_app_id() {
    assert_eq!(identify_media_player("QQMusic.exe"), MediaPlayerKind::QqMusic);
    assert_eq!(identify_media_player("cloudmusic.exe"), MediaPlayerKind::NeteaseCloudMusic);
    assert_eq!(identify_media_player("NetEase.Music"), MediaPlayerKind::NeteaseCloudMusic);
    assert_eq!(identify_media_player("KuGou.exe"), MediaPlayerKind::KugouMusic);
    assert_eq!(identify_media_player("汽水音乐"), MediaPlayerKind::QishuiMusic);
    assert_eq!(identify_media_player("C:\\Apps\\Luna.exe"), MediaPlayerKind::QishuiMusic);
    assert_eq!(identify_media_player("Spotify.exe"), MediaPlayerKind::Other);
    assert!(MediaPlayerKind::QqMusic.is_supported());
    assert!(!MediaPlayerKind::Other.is_supported());
}

#[test]
fn long_media_text_is_bounded() {
    let long: String = std::iter::repeat('歌').take(5000).collect();
    assert_eq!(bounded_media_text(long).chars().count(), 4096);
    assert_eq!(bounded_media_text("short".to_owned()), "short");
}

#[test]
fn playback_status_codes_map_to_states() {
    assert_eq!(playback_status_from_code(4), CurrentPlaybackStatus::Playing);
    assert_eq!(playback_status_from_code(5), CurrentPlaybackStatus::Paused);
    assert_eq!(playback_status_from_code(0), CurrentPlaybackStatus::Closed);
    assert_eq!(playback_status_from_code(9), CurrentPlaybackStatus::Unknown);
}

#[test]
fn timeline_is_converted_to_milliseconds() {
    assert_eq!(ticks_to_milliseconds(25_000), 2);
    assert_eq!(ticks_to_milliseconds(-25_000), -2);
    let epoch: i64 = 116_444_736_000_000_000;
    let t = timeline_from_ticks(0, 2_000_000_000, 500_000_000, 0, 2_000_000_000, epoch + 10_000_000)
        .unwrap()
        .unwrap();
    assert_eq!(t.start_ms, 0);
    assert_eq!(t.end_ms, 200_000);
    assert_eq!(t.position_ms, 50_000);
    assert_eq!(t.max_seek_ms, 200_000);
    assert_eq!(t.last_updated_at_unix_ms, 1_000);
    assert!(timeline_from_ticks(10, 10, 0, 0, 0, epoch).unwrap().is_none());
    assert_eq!(
        timeline_from_ticks(0, 10, 0, 0, 0, i64::MIN),
        Err("时间轴最后更新时间早于 Windows 时间原点".to_owned())
    );
}

#[test]
fn cached_metadata_must_belong_to_the_session() {
    let m = metadata("QQMusic.exe", "Song");
    assert!(metadata_belongs_to_session(&m, "QQMusic.exe"));
    assert!(!metadata_belongs_to_session(&m, "cloudmusic.exe"));
}

#[test]
fn selection_prefers_playing_then_latest_activity() {
    let candidates = vec![
        MediaSelectionCandidate {
            session_key: 1,
            player_kind: MediaPlayerKind::NeteaseCloudMusic,
            is_playing: false,
            is_paused: true,
            activity_sequence: Some(9),
        },
        MediaSelectionCandidate {
            session_key: 2,
            player_kind: MediaPlayerKind::QqMusic,
            is_playing: true,
            is_paused: false,
            activity_sequence: Some(3),
        },
        MediaSelectionCandidate {
            session_key: 3,
            player_kind: MediaPlayerKind::Other,
            is_playing: true,
            is_paused: false,
            activity_sequence: Some(20),
        },
    ];
    assert_eq!(select_preferred_session_key(&candidates), Some(2));
    assert_eq!(select_preferred_session_key(&candidates[..1]), Some(1));
    assert_eq!(select_preferred_session_key(&candidates[2..]), None);
}

#[test]
fn activity_tracks_players_and_selects_the_playing_one() {
    let mut state = ActivityState::new();
    state.refresh_sessions(&[(7, "Spotify.exe".to_owned()), (3, "QQMusic.exe".to_owned())]);
    let snapshots = state.snapshots();
    assert_eq!(snapshots.len(), 2);
    assert_eq!(snapshots[0].session_key, 3);
    assert_eq!(snapshots[0].player_kind, MediaPlayerKind::QqMusic);
    assert_eq!(snapshots[1].session_key, 7);
    assert!(snapshots[0].activity_sequence.is_none());

    state.apply_initialize(3, true, false, "Song".to_owned(), "Singer".to_owned(), 1_000);
    let snapshots = state.snapshots();
    assert_eq!(snapshots[0].activity_sequence, Some(1));
    assert_eq!(snapshots[0].last_activity_reason, Some(MediaActivityReason::DetectedPlaying));
    assert_eq!(snapshots[0].last_activity_at_unix_ms, Some(1_000));
    assert_eq!(state.select_preferred_session_key(), Some(3));

    let selected = state.select_session(&[7, 3], None).unwrap();
    assert_eq!(selected.session_key, 3);
    assert_eq!(selected.source_app_id, "QQMusic.exe");
    assert_eq!(selected.reason, MediaSelectionReason::PlayingPreferred);

    state.apply_playback_changed(3, false, true, 2_000);
    let selected = state.select_session(&[7, 3], None).unwrap();
    assert_eq!(selected.reason, MediaSelectionReason::LastPausedPreferred);
}

#[test]
fn a_track_change_counts_as_new_activity() {
    let mut state = ActivityState::new();
    state.refresh_sessions(&[(1, "QQMusic.exe".to_owned()), (2, "cloudmusic.exe".to_owned())]);
    state.apply_initialize(1, true, false, "A".to_owned(), "X".to_owned(), 10);
    state.apply_initialize(2, false, true, "B".to_owned(), "Y".to_owned(), 20);
    state.apply_media_properties_changed(2, "B2".to_owned(), "Y".to_owned(), 30);
    let snapshots = state.snapshots();
    assert_eq!(snapshots[1].activity_sequence, Some(2));
    assert_eq!(snapshots[1].last_activity_reason, Some(MediaActivityReason::TrackChanged));
    state.apply_became_current(2, 40);
    assert_eq!(state.snapshots()[1].activity_sequence, Some(3));
}

#[test]
fn detected_players_and_windows_current_are_fallbacks() {
    let mut state = ActivityState::new();
    state.refresh_sessions(&[(1, "QQMusic.exe".to_owned()), (2, "Spotify.exe".to_owned())]);
    assert!(state.select_session(&[1, 2], None).is_none());
    let fallback = state.select_session(&[1, 2], Some((2, Some("Spotify.exe".to_owned())))).unwrap();
    assert_eq!(fallback.reason, MediaSelectionReason::WindowsCurrentFallback);
    assert_eq!(fallback.player_kind, MediaPlayerKind::Other);
    assert!(state.select_session(&[1, 2], Some((9, Some("Gone.exe".to_owned())))).is_none());
    assert!(state.select_session(&[1, 2], Some((2, None))).is_none());

    state.apply_initialize(1, false, false, "Song".to_owned(), "Singer".to_owned(), 5);
    let detected = state.select_session(&[1, 2], Some((2, Some("Spotify.exe".to_owned())))).unwrap();
    assert_eq!(detected.session_key, 1);
    assert_eq!(detected.reason, MediaSelectionReason::DetectedPreferred);
}

#[test]
fn refreshing_sessions_drops_gone_ones_and_keeps_activity() {
    let mut state = ActivityState::new();
    state.refresh_sessions(&[(1, "QQMusic.exe".to_owned()), (2, "KuGou.exe".to_owned())]);
    state.apply_initialize(2, true, false, "S".to_owned(), "A".to_owned(), 1);
    state.refresh_sessions(&[(2, "ignored".to_owned()), (5, "cloudmusic.exe".to_owned())]);
    let snapshots = state.snapshots();
    assert_eq!(snapshots.len(), 2);
    assert_eq!(snapshots[0].session_key, 2);
    assert_eq!(snapshots[0].source_app_id, "KuGou.exe");
    assert_eq!(snapshots[0].activity_sequence, Some(1));
    assert_eq!(snapshots[1].session_key, 5);
    assert_eq!(snapshots[1].player_kind, MediaPlayerKind::NeteaseCloudMusic);
}

#[test]
fn seek_plans_clamp_into_the_timeline() {
    assert_eq!(plan_seek(5_000, 0, 2_000_000_000, 0, 0), Ok(50_000_000));
    assert_eq!(plan_seek(999_999, 0, 2_000_000_000, 0, 1_000_000_000), Ok(1_000_000_000));
    assert_eq!(plan_seek(-10, 100_000, 2_000_000_000, 0, 0), Ok(100_000));
    let err = plan_seek(0, 100, 100, 0, 0).unwrap_err();
    assert_eq!(err.0, MediaControlErrorCode::Unsupported);
    assert_eq!(err.1, "当前媒体没有可跳转的有效时间轴");
}

#[test]
fn toggle_play_pause_checks_the_pause_capability_while_playing() {
    let mut run = ControlRun::start(ControlAction::TogglePlayPause, true).unwrap();
    assert_eq!(run.pending, ControlQuery::PlaybackInfo);
    assert!(matches!(run.advance(ControlAnswer::Done), ControlStep::Query(ControlQuery::Controls)));
    assert!(matches!(run.advance(ControlAnswer::Done), ControlStep::Query(ControlQuery::PlaybackStatus)));
    assert!(matches!(
        run.advance(ControlAnswer::Status(4)),
        ControlStep::Query(ControlQuery::CapabilityEnabled { capability: ControlCapability::Pause })
    ));
    assert!(matches!(
        run.advance(ControlAnswer::Flag(true)),
        ControlStep::Query(ControlQuery::Send { command: ControlCommand::TogglePlayPause })
    ));
    match run.advance(ControlAnswer::Flag(false)) {
        ControlStep::Finished(Err(e)) => {
            assert_eq!(e.code, MediaControlErrorCode::Rejected);
            assert_eq!(e.message, "播放器收到请求，但没有接受此操作");
            assert_eq!(e.action, ControlAction::TogglePlayPause);
        }
        other => panic!("unexpected step {other:?}"),
    }
}

#[test]
fn control_errors_name_the_failed_step() {
    let e = ControlRun::start(ControlAction::Next, false).unwrap_err();
    assert_eq!(e.code, MediaControlErrorCode::NoSession);
    assert_eq!(e.message, "当前没有可控制的媒体会话");

    let mut run = ControlRun::start(ControlAction::Previous, true).unwrap();
    match run.advance(ControlAnswer::Failed("拒绝访问".to_owned())) {
        ControlStep::Finished(Err(e)) => {
            assert_eq!(e.code, MediaControlErrorCode::WindowsApi);
            assert_eq!(e.message, "无法读取当前播放器状态：拒绝访问");
        }
        other => panic!("unexpected step {other:?}"),
    }

    let mut run = ControlRun::start(ControlAction::Previous, true).unwrap();
    run.advance(ControlAnswer::Done);
    run.advance(ControlAnswer::Done);
    match run.advance(ControlAnswer::Flag(false)) {
        ControlStep::Finished(Err(e)) => {
            assert_eq!(e.code, MediaControlErrorCode::Unsupported);
            assert_eq!(e.message, "当前播放器未声明支持此操作");
        }
        other => panic!("unexpected step {other:?}"),
    }
}

#[test]
fn seek_reads_the_timeline_and_sends_the_clamped_position() {
    let mut run = ControlRun::start(ControlAction::Seek { position_ms: 90_000 }, true).unwrap();
    run.advance(ControlAnswer::Done);
    assert!(matches!(
        run.advance(ControlAnswer::Done),
        ControlStep::Query(ControlQuery::PlaybackPositionEnabled)
    ));
    assert!(matches!(run.advance(ControlAnswer::Flag(true)), ControlStep::Query(ControlQuery::Timeline)));
    assert!(matches!(run.advance(ControlAnswer::Done), ControlStep::Query(ControlQuery::StartTime)));
    run.advance(ControlAnswer::Ticks(0));
    run.advance(ControlAnswer::Ticks(600_000_000));
    run.advance(ControlAnswer::Ticks(0));
    match run.advance(ControlAnswer::Ticks(0)) {
        ControlStep::Query(ControlQuery::Send { command }) => {
            assert_eq!(command, ControlCommand::ChangePlaybackPosition { ticks: 600_000_000 });
        }
        other => panic!("unexpected step {other:?}"),
    }
    assert!(matches!(run.advance(ControlAnswer::Flag(true)), ControlStep::Finished(Ok(()))));
}

#[test]
fn seek_without_position_support_is_unsupported() {
    let mut run = ControlRun::start(ControlAction::Seek { position_ms: 1 }, true).unwrap();
    run.advance(ControlAnswer::Done);
    run.advance(ControlAnswer::Done);
    match run.advance(ControlAnswer::Flag(false)) {
        ControlStep::Finished(Err(e)) => {
            assert_eq!(e.code, MediaControlErrorCode::Unsupported);
            assert_eq!(e.message, "当前播放器未声明支持进度跳转");
        }
        other => panic!("unexpected step {other:?}"),
    }
}

#[test]
fn media_runtime_retries_after_the_interval() {
    assert!(media_runtime_retry_is_due(None, 0));
    assert!(!media_runtime_retry_is_due(Some(3_000), 2_999));
    assert!(media_runtime_retry_is_due(Some(3_000), 3_000));

    let mut slot = MediaRuntimeSlot::initialized(false, 1_000);
    assert_eq!(slot.retry_after_ms, Some(3_000));
    assert_eq!(slot.access(2_000), RuntimeAccess::Wait);
    assert_eq!(slot.access(3_000), RuntimeAccess::Initialize);
    assert_eq!(slot.initialization_finished(true, 3_000), Some(1));
    assert_eq!(slot.access(3_001), RuntimeAccess::Use { generation: 1 });
    slot.operation_failed(0, 4_000);
    assert_eq!(slot.access(4_000), RuntimeAccess::Use { generation: 1 });
    slot.operation_failed(1, 4_000);
    assert_eq!(slot.generation, None);
    assert_eq!(slot.retry_after_ms, Some(6_000));
    assert_eq!(slot.initialization_finished(false, 7_000), None);
    assert_eq!(slot.retry_after_ms, Some(9_000));
}

#[test]
fn stale_metadata_readings_are_dropped() {
    let mut loader = MetadataLoaderState::new();
    assert_eq!(loader.request(7), 1);
    assert_eq!(loader.request(8), 2);
    let pending = loader.take_pending().unwrap();
    assert_eq!((pending.session_key, pending.revision), (8, 2));
    assert!(loader.take_pending().is_none());
    assert_eq!(loader.complete(1, Ok(metadata("QQMusic.exe", "Old"))), MetadataOutcome::Stale);
    assert!(loader.cached().is_none());
    assert_eq!(loader.complete(2, Ok(metadata("QQMusic.exe", "New"))), MetadataOutcome::Cached);
    assert_eq!(loader.cached().unwrap().title, "New");
    loader.clear();
    assert!(loader.cached().is_none());
    assert_eq!(loader.complete(2, Ok(metadata("QQMusic.exe", "Late"))), MetadataOutcome::Stale);
    loader.request(9);
    assert_eq!(loader.complete(4, Err("x".to_owned())), MetadataOutcome::Failed);
    loader.close();
    loader.request(10);
    assert!(loader.take_pending().is_none());
}

#[test]
fn binding_follows_the_selection() {
    assert_eq!(binding_decision(Some(1), Some(2), true), BindDecision::Rebind);
    assert_eq!(binding_decision(None, Some(2), false), BindDecision::Rebind);
    assert_eq!(binding_decision(Some(1), Some(1), false), BindDecision::RequestMetadata);
    assert_eq!(binding_decision(Some(1), Some(1), true), BindDecision::Keep);
    assert_eq!(binding_decision(None, None, false), BindDecision::Keep);
    assert!(!should_retry_media_metadata(None, None, false));
}

#[test]
fn clearing_an_observation_lists_its_subscriptions() {
    let mut o = SessionObservation::bound(5, 11, 22, 33);
    let removed = o.clear();
    assert_eq!(
        removed,
        vec![
            (SubscriptionKind::MediaProperties, 11),
            (SubscriptionKind::TimelineProperties, 33),
            (SubscriptionKind::PlaybackInfo, 22),
        ]
    );
    assert_eq!(o, SessionObservation::empty());
    assert!(o.clear().is_empty());
}

#[test]
fn artwork_type_comes_from_the_header_first() {
    assert_eq!(detect_artwork_content_type(&[0xFF, 0xD8, 0xFF, 0x00], "image/png"), "image/jpeg");
    assert_eq!(
        detect_artwork_content_type(&[0x89, b'P', b'N', b'G', 0x0D, 0x0A, 0x1A, 0x0A], ""),
        "image/png"
    );
    assert_eq!(detect_artwork_content_type(b"GIF89a....", ""), "image/gif");
    assert_eq!(detect_artwork_content_type(b"RIFF\0\0\0\0WEBPVP8 ", ""), "image/webp");
    assert_eq!(detect_artwork_content_type(b"RIFF\0\0\0\0WAVEfmt ", ""), "image/jpeg");
    assert_eq!(detect_artwork_content_type(b"BM..", ""), "image/bmp");
    assert_eq!(detect_artwork_content_type(b"????", "Image/PNG, image/jpeg"), "image/png");
    assert_eq!(detect_artwork_content_type(b"????", " image/webp ; q=1"), "image/webp");
    assert_eq!(detect_artwork_content_type(b"????", "jpg,png"), "image/jpeg");
    assert_eq!(detect_artwork_content_type(b"", ""), "image/jpeg");
}

#[test]
fn artwork_data_url_is_standard_base64() {
    assert_eq!(artwork_data_url(&[0xFF, 0xD8, 0xFF], ""), "data:image/jpeg;base64,/9j/");
    assert_eq!(artwork_data_url(b"Man", "image/x-test"), "data:image/x-test;base64,TWFu");
    assert_eq!(artwork_data_url(b"Ma", ""), "data:image/jpeg;base64,TWE=");
    assert_eq!(artwork_data_url(b"M", ""), "data:image/jpeg;base64,TQ==");
}

#[test]
fn artwork_size_is_checked() {
    assert_eq!(check_artwork_size(0), Ok(None));
    assert_eq!(check_artwork_size(10), Ok(Some(10)));
    assert_eq!(check_artwork_size(4 * 1024 * 1024), Ok(Some(4 * 1024 * 1024)));
    assert_eq!(
        check_artwork_size(5_000_000),
        Err("媒体封面大小为 5000000 字节，超过 4194304 字节限制".to_owned())
    );
}

#[test]
fn colour_buckets_count_opaque_pixels() {
    let pixels = [255u8, 0, 0, 255, 255, 0, 0, 100, 250, 4, 2, 200];
    let buckets = color_buckets(&pixels);
    assert_eq!(buckets.len(), 4096);
    let red = buckets[15 * 256];
    assert_eq!(red.count, 2);
    assert_eq!(red.red_sum, 505);
    assert_eq!(red.green_sum, 4);
    let candidates = color_candidates(&buckets);
    assert_eq!(
        candidates,
        vec![ColorCandidate { red: 252, green: 2, blue: 1, saturation: 251, count: 2 }]
    );
    assert_eq!(choose_color(&candidates, &[true]), Some((252, 2, 1)));
    assert_eq!(choose_color(&candidates, &[false]), None);
}

#[test]
fn the_strongest_qualifying_candidate_wins() {
    let dull = ColorCandidate { red: 100, green: 100, blue: 90, saturation: 10, count: 500 };
    let small = ColorCandidate { red: 200, green: 50, blue: 50, saturation: 150, count: 3 };
    let big = ColorCandidate { red: 50, green: 50, blue: 200, saturation: 150, count: 9 };
    let tie = ColorCandidate { red: 1, green: 2, blue: 200, saturation: 150, count: 9 };
    let cands = vec![dull, small, big, tie];
    assert_eq!(choose_color(&cands, &[true, true, true, true]), Some((50, 50, 200)));
    assert_eq!(choose_color(&cands, &[true, true, false, true]), Some((1, 2, 200)));
}

#[test]
fn decoded_artwork_yields_colour_candidates() {
    let mut img = image::RgbaImage::new(2, 2);
    for p in img.pixels_mut() {
        *p = image::Rgba([255, 0, 0, 255]);
    }
    let mut bytes = Vec::new();
    img.write_to(&mut std::io::Cursor::new(&mut bytes), image::ImageFormat::Png).unwrap();
    let candidates = extract_color_candidates(&bytes).unwrap();
    // The thumbnail fits the image to 48×48 pixels, so all 2304 pixels
    // fall into the red bucket.
    assert_eq!(
        candidates,
        vec![ColorCandidate { red: 254, green: 0, blue: 0, saturation: 254, count: 2304 }]
    );
    let error = extract_color_candidates(b"not an image").unwrap_err();
    assert!(error.starts_with("媒体封面"));
}

#[test]
fn colours_are_written_as_upper_hex() {
    assert_eq!(color_hex(255, 8, 171), "#FF08AB");
    assert_eq!(color_hex(0, 0, 0), "#000000");
    assert_eq!(windows_accent_color(Some(0xFF11_2233)), "#112233");
    assert_eq!(windows_accent_color(None), "#0078D4");
}

#[test]
fn failed_bindings_roll_back_in_order() {
    assert_eq!(
        rollback_subscriptions(Some(4), Some(5)),
        vec![(SubscriptionKind::MediaProperties, 4), (SubscriptionKind::PlaybackInfo, 5)]
    );
    assert_eq!(rollback_subscriptions(Some(4), None), vec![(SubscriptionKind::MediaProperties, 4)]);
    assert!(rollback_subscriptions(None, None).is_empty());
}
