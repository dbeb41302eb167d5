use muse_bar::volume::accept_audio_session;
use muse_bar::diagnostics::{
    parse_windows_version, runtime_info, taskbar_identity_diagnostic, taskbar_occupancy_diagnostic,
};
use muse_bar::flyout::{place_flyout, validate_accent_color, FlyoutAction, FlyoutState, MonitorArea};
use muse_bar::layout::{OccupiedRect, OccupiedRegion};
use muse_bar::media::model::MediaPlayerKind;
use muse_bar::occupancy::read_occupied_regions;
use muse_bar::settings::AppSettings;
use muse_bar::spectrum::{validate_frame_rate, SampleWindow, SpectrumSlot};
use muse_bar::state::{
    autostart_change, bar_target_width, bar_width_bounds, should_prevent_exit, AppState, StartupMilestone,
    StartupMilestones,
};
use muse_bar::taskbar::{find_main_taskbar, ProcessImage};
use muse_bar::updater::{check_install_target, ReleaseInfo, UpdateManager, UpdateStage};
use muse_bar::volume::{
    match_score, plan_volume_control, query_volume_state, summarize_sessions, volume_targets,
    ApplicationVolumeAction, ApplicationVolumeError, ApplicationVolumeErrorCode,
    ApplicationVolumeState, AudioSessionReading, MediaVolumeIdentity,
};

fn identity(source: &str, kind: MediaPlayerKind) -> MediaVolumeIdentity {
    MediaVolumeIdentity { session_key: 9, source_app_id: source.to_owned(), player_kind: kind }
}

fn reading(level_percent: u8, muted: bool, active: bool, match_score: u8) -> AudioSessionReading {
    AudioSessionReading { level_percent, muted, active, match_score }
}

#[test]
fn processes_are_matched_to_the_media_session() {
    let qq = identity(" qqmusic.desktop ", MediaPlayerKind::QqMusic);
    assert_eq!(match_score(&Some("QQMusic.Desktop".to_owned()), &None, &None, &qq), Some(3));
    let by_name = identity("C:\\Program Files\\QQMusic\\QQMusic.exe", MediaPlayerKind::QqMusic);
    assert_eq!(
        match_score(&None, &Some("QQMusic.exe".to_owned()), &Some("QQMusic".to_owned()), &by_name),
        Some(2)
    );
    let netease = identity("NetEase.CloudMusic.Player", MediaPlayerKind::NeteaseCloudMusic);
    assert_eq!(
        match_score(&None, &Some("cloudmusic.exe".to_owned()), &Some("cloudmusic_x".to_owned()), &netease),
        Some(1)
    );
    assert_eq!(
        match_score(&None, &Some("chrome.exe".to_owned()), &Some("chrome".to_owned()), &netease),
        None
    );
    assert_eq!(match_score(&None, &None, &None, &netease), None);
    let other = identity("Spotify", MediaPlayerKind::Other);
    assert_eq!(
        match_score(&None, &Some("other.exe".to_owned()), &Some("other".to_owned()), &other),
        None
    );
}

#[test]
fn sessions_summarise_to_what_the_user_hears() {
    assert_eq!(summarize_sessions(&[]), None);
    let readings = [reading(50, false, false, 2), reading(80, true, true, 2), reading(100, false, true, 1)];
    assert_eq!(summarize_sessions(&readings), Some((80, true)));
    let idle = [reading(30, true, false, 2), reading(60, false, false, 2)];
    assert_eq!(summarize_sessions(&idle), Some((60, false)));
    assert_eq!(
        query_volume_state(4, &idle),
        Some(ApplicationVolumeState { session_key: 4, level_percent: 60, muted: false })
    );
    assert_eq!(query_volume_state(4, &[]), None);
}

#[test]
fn volume_actions_set_levels_and_mute() {
    assert_eq!(volume_targets(ApplicationVolumeAction::SetLevel { level_percent: 150 }, 20, true), (Some(100), Some(false)));
    assert_eq!(volume_targets(ApplicationVolumeAction::SetLevel { level_percent: 0 }, 20, true), (Some(0), None));
    assert_eq!(volume_targets(ApplicationVolumeAction::Adjust { delta_percent: -30 }, 20, false), (Some(0), None));
    assert_eq!(volume_targets(ApplicationVolumeAction::Adjust { delta_percent: 10 }, 95, true), (Some(100), Some(false)));
    assert_eq!(volume_targets(ApplicationVolumeAction::ToggleMute, 40, true), (None, Some(false)));
}

#[test]
fn volume_controls_need_a_matching_session() {
    let err = plan_volume_control(9, ApplicationVolumeAction::ToggleMute, &[]).unwrap_err();
    assert_eq!(err.code, ApplicationVolumeErrorCode::AudioSessionUnavailable);
    assert_eq!(err.message, "没有找到当前媒体应用的音频会话");
    let plan = plan_volume_control(9, ApplicationVolumeAction::ToggleMute, &[reading(70, false, true, 3)]).unwrap();
    assert_eq!(plan.target_percent, None);
    assert_eq!(plan.target_muted, Some(true));
    assert_eq!(plan.result, ApplicationVolumeState { session_key: 9, level_percent: 70, muted: true });
}

#[test]
fn media_identity_errors_are_classified() {
    let changed = ApplicationVolumeError::media_identity("当前媒体会话已经切换".to_owned());
    assert_eq!(changed.code, ApplicationVolumeErrorCode::SessionChanged);
    assert_eq!(changed.to_string(), "当前媒体会话已经切换");
    let none = ApplicationVolumeError::media_identity("没有媒体".to_owned());
    assert_eq!(none.code, ApplicationVolumeErrorCode::NoMediaSession);
    assert_eq!(ApplicationVolumeError::windows_api("x".to_owned()).code, ApplicationVolumeErrorCode::WindowsApi);
}

#[test]
fn only_one_update_operation_runs_at_a_time() {
    let mut m = UpdateManager::new("1.0.0".to_owned());
    assert_eq!(m.snapshot().unwrap().stage, UpdateStage::Idle);
    assert!(m.begin_operation().is_ok());
    assert_eq!(m.begin_operation(), Err("已有更新操作正在进行".to_owned()));
    m.end_operation();
    assert!(m.begin_operation().is_ok());
}

#[test]
fn update_checks_record_their_outcome() {
    let mut m = UpdateManager::new("1.0.0".to_owned());
    let checking = m.set_stage(UpdateStage::Checking);
    assert_eq!(checking.stage, UpdateStage::Checking);
    let release = ReleaseInfo {
        version: "1.1.0".to_owned(),
        body: Some("   ".to_owned()),
        date: Some("2026-08-20".to_owned()),
    };
    let (status, open_settings) = m.finish_check(true, "1.0.0".to_owned(), Ok(Some(release)));
    let status = status.unwrap();
    assert!(open_settings);
    assert_eq!(status.stage, UpdateStage::Available);
    assert_eq!(status.available_version.as_deref(), Some("1.1.0"));
    assert_eq!(status.notes, None);
    assert_eq!(status.published_at.as_deref(), Some("2026-08-20"));

    let (status, open_settings) = m.finish_check(false, "1.0.0".to_owned(), Ok(None));
    assert!(!open_settings);
    assert_eq!(status.unwrap().stage, UpdateStage::UpToDate);

    let (status, _) = m.finish_check(false, "1.0.0".to_owned(), Err("网络不可用".to_owned()));
    assert_eq!(status.unwrap_err(), "网络不可用");
    assert_eq!(m.snapshot().unwrap().stage, UpdateStage::Error);
    assert_eq!(m.snapshot().unwrap().error.as_deref(), Some("网络不可用"));

    let (_, _) = m.finish_check(true, "1.0.0".to_owned(), Err("网络不可用".to_owned()));
    assert_eq!(m.snapshot().unwrap().stage, UpdateStage::Idle);
    assert_eq!(m.snapshot().unwrap().error, None);
}

#[test]
fn download_progress_accumulates_and_errors_reset_it() {
    let mut m = UpdateManager::new("1.0.0".to_owned());
    m.begin_download();
    m.record_download(100, Some(1_000));
    let s = m.record_download(150, Some(1_000));
    assert_eq!(s.stage, UpdateStage::Downloading);
    assert_eq!(s.downloaded_bytes, 250);
    assert_eq!(s.total_bytes, Some(1_000));
    let s = m.set_error("无法安装更新：x".to_owned());
    assert_eq!(s.downloaded_bytes, 0);
    assert_eq!(s.total_bytes, None);
    let s = m.set_stage(UpdateStage::Installing);
    assert_eq!(s.error, None);
}

#[test]
fn installs_only_the_confirmed_version() {
    assert_eq!(check_install_target("1.1.0", None), Err("该更新已不可用，请重新检查".to_owned()));
    assert_eq!(check_install_target("1.1.0", Some("1.1.0")), Ok(()));
    assert_eq!(
        check_install_target("1.1.0", Some("1.2.0")),
        Err("最新版本已从 1.1.0 变为 1.2.0，请确认后重试".to_owned())
    );
}

#[test]
fn windows_version_is_read_from_ver_output() {
    let v = parse_windows_version("\r\nMicrosoft Windows [Version 10.0.26200.8894]\r\n").unwrap();
    assert_eq!(v.version, "10.0.26200.8894");
    assert_eq!(v.build, 26200);
    assert_eq!(v.product_name, "Windows 11");
    let v = parse_windows_version("Microsoft Windows [版本 10.0.19045.4651]").unwrap();
    assert_eq!(v.build, 19045);
    assert_eq!(v.product_name, "Windows");
    assert_eq!(
        parse_windows_version("no version here").unwrap_err(),
        "Windows 版本命令返回了无法识别的内容"
    );
    assert_eq!(parse_windows_version("[10.0").unwrap_err(), "Windows 版本命令返回了无法识别的内容");
    assert_eq!(
        parse_windows_version("[Version 10.0]").unwrap_err(),
        "无法从版本号 10.0 中读取构建号"
    );
    assert_eq!(
        parse_windows_version("[Version 10.0.99999999999]").unwrap_err(),
        "无法从版本号 10.0.99999999999 中读取构建号"
    );
    assert_eq!(parse_windows_version("[10.0.22000]").unwrap().product_name, "Windows 11");
}

#[test]
fn runtime_information_is_reported() {
    let info = runtime_info("0.3.1".to_owned(), Ok(1_755_000_000_000)).unwrap();
    assert_eq!(info.application_version, "0.3.1");
    assert_eq!(info.started_at_unix_ms, 1_755_000_000_000);
    assert_eq!(
        runtime_info("0.3.1".to_owned(), Err("时间早于原点".to_owned())).unwrap_err(),
        "无法转换应用启动时间：时间早于原点"
    );
    assert_eq!(
        runtime_info("0.3.1".to_owned(), Ok(u128::from(u64::MAX) + 1)).unwrap_err(),
        "应用启动时间超出可表示范围"
    );
}

#[test]
fn taskbar_diagnostics_summarise_the_readings() {
    let t = find_main_taskbar(0x55, 1, 8, |_| {
        Ok(ProcessImage { file_name: Some("explorer.exe".to_owned()), display_path: String::new() })
    })
    .unwrap();
    let d = taskbar_identity_diagnostic(&t);
    assert_eq!((d.hwnd, d.explorer_process_id), (0x55, 8));
    let region = OccupiedRegion {
        name: "Tray".to_owned(),
        class_name: "SystemTrayIcon".to_owned(),
        rect: OccupiedRect { left: 0, top: 0, right: 10, bottom: 10 },
    };
    let occupancy = read_occupied_regions(Err("超时".to_owned()), move || vec![region]);
    let d = taskbar_occupancy_diagnostic(&occupancy);
    assert_eq!(d.source, "win32Fallback");
    assert_eq!(d.fallback_reason.as_deref(), Some("超时"));
    assert_eq!(d.region_count, 1);
}

#[test]
fn bar_visibility_follows_user_and_media() {
    let mut state = AppState::new("0.3.1".to_owned(), AppSettings::default());
    assert_eq!(state.application_version(), "0.3.1");
    assert!(state.should_show_bar());
    assert!(!state.toggle_bar_visibility());
    assert!(!state.should_show_bar());
    assert!(state.toggle_bar_visibility());
    assert!(state.set_bar_media_available(false));
    assert!(!state.should_show_bar());
    assert!(!state.set_bar_media_available(true));
    assert!(state.should_show_bar());
    assert_eq!(state.settings().max_width, 380);
}

#[test]
fn newer_width_animations_supersede_older_ones() {
    let mut state = AppState::new("0.3.1".to_owned(), AppSettings::default());
    let first = state.begin_bar_width_animation();
    assert!(state.animation_is_current(first));
    let second = state.begin_bar_width_animation();
    assert_eq!(second, first + 1);
    assert!(!state.animation_is_current(first));
    assert_eq!(bar_target_width(150, 200, 520), 200);
    assert_eq!(bar_target_width(612, 200, 520), 520);
    assert_eq!(bar_target_width(300, 200, 520), 300);
}

#[test]
fn flyout_accent_colours_are_checked() {
    assert!(validate_accent_color("#00ff7F").is_ok());
    assert_eq!(validate_accent_color("#00ff7"), Err("音量浮层强调色无效".to_owned()));
    assert_eq!(validate_accent_color("0078D4x"), Err("音量浮层强调色无效".to_owned()));
    assert_eq!(validate_accent_color("#0078DZ"), Err("音量浮层强调色无效".to_owned()));
}

#[test]
fn flyout_requests_wait_for_the_window() {
    let mut flyout: FlyoutState<u64> = FlyoutState::new();
    assert_eq!(flyout.show(1, false), FlyoutAction::CreateWindow);
    assert_eq!(flyout.show(2, true), FlyoutAction::Wait);
    assert_eq!(flyout.mark_ready(), FlyoutAction::ApplyPending);
    assert_eq!(flyout.pending, Some(2));
    assert_eq!(flyout.show(3, true), FlyoutAction::ApplyPending);
    flyout.dismiss();
    assert_eq!(flyout.pending, None);
}

#[test]
fn flyout_stays_on_the_monitor() {
    let monitor = Some(MonitorArea { x: 0, y: 0, width: 1920, height: 1080 });
    assert_eq!(place_flyout(100, 800, 48, 176, 4, 1080, monitor), (100, 800));
    assert_eq!(place_flyout(-10, 800, 48, 176, 4, 1080, monitor), (0, 800));
    assert_eq!(place_flyout(1900, 800, 48, 176, 4, 1080, monitor), (1872, 800));
    assert_eq!(place_flyout(100, -100, 48, 176, 4, 40, monitor), (100, 44));
    assert_eq!(place_flyout(100, -100, 48, 176, 4, 1000, monitor), (100, 904));
    assert_eq!(place_flyout(-10, -100, 48, 176, 4, 40, None), (-10, -100));
}

#[test]
fn spectrum_captures_one_session_at_a_time() {
    assert!(validate_frame_rate(20).is_ok());
    assert!(validate_frame_rate(30).is_ok());
    assert_eq!(validate_frame_rate(25), Err("频谱刷新率只支持 20 或 30 FPS".to_owned()));
    let mut slot = SpectrumSlot::new();
    assert_eq!(slot.start(1), None);
    assert_eq!(slot.start(2), Some(1));
    assert_eq!(slot.stop_session(1), None);
    assert_eq!(slot.active_session, Some(2));
    assert_eq!(slot.stop_session(2), Some(2));
    assert_eq!(slot.stop(), None);
}

#[test]
fn the_sample_window_keeps_the_latest_samples() {
    let mut window: SampleWindow<i32> = SampleWindow::new(3);
    assert_eq!(window.len(), 0);
    for v in 1..=5 {
        window.push(v);
    }
    assert_eq!(window.len(), 3);
    assert_eq!(window.to_vec(), vec![3, 4, 5]);
    window.push(6);
    assert_eq!(window.to_vec(), vec![4, 5, 6]);
}

#[test]
fn autostart_and_exit_decisions() {
    assert_eq!(autostart_change(true, true), None);
    assert_eq!(autostart_change(false, true), Some(true));
    assert_eq!(autostart_change(true, false), Some(false));
    assert!(should_prevent_exit(None));
    assert!(!should_prevent_exit(Some(0)));
}

#[test]
fn startup_milestones_are_recorded_once() {
    let mut m = StartupMilestones::new();
    assert!(!m.mark(StartupMilestone::SetupComplete, 5));
    m.begin();
    assert!(m.mark(StartupMilestone::SetupComplete, 1_200));
    assert!(!m.mark(StartupMilestone::SetupComplete, 1_500));
    assert_eq!(m.setup_complete, Some(1_200));
    assert!(m.mark(StartupMilestone::BarWebviewCreated, 2_000));
    assert_eq!(m.bar_webview_created, Some(2_000));
}

#[test]
fn audio_sessions_are_accepted_only_when_readable_and_matching() {
    assert_eq!(accept_audio_session(None, Some(3), Some(50), Some(true), Some(true)), None);
    assert_eq!(accept_audio_session(Some(0), Some(3), Some(50), Some(true), Some(true)), None);
    assert_eq!(accept_audio_session(Some(12), None, Some(50), Some(true), Some(true)), None);
    assert_eq!(accept_audio_session(Some(12), Some(2), None, Some(true), Some(true)), None);
    assert_eq!(
        accept_audio_session(Some(12), Some(2), Some(50), None, Some(true)),
        Some(AudioSessionReading { level_percent: 50, muted: false, active: true, match_score: 2 })
    );
}

#[test]
fn the_bar_width_bounds_follow_the_mode() {
    assert_eq!(bar_width_bounds(380, None), (1, 380));
    assert_eq!(bar_width_bounds(0, None), (1, 1));
    assert_eq!(bar_width_bounds(380, Some(612)), (612, 612));
}
