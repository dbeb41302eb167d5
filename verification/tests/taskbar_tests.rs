use muse_bar::explorer::{
    recovery_request_is_due, recovery_request_result, BarPresence, LayoutDebouncer,
    LyricsTaskbarLayout, RecoveryAnswer, RecoveryAttempt, RecoveryCleanup, RecoveryRetry,
    RecoverySend, RecoveryStep, RecoveryTask, RetryDecision,
};
use muse_bar::host::{
    apply_manual_offset, bar_screen_y, centred_position, check_bar_fits, check_parent,
    check_style_applied, check_target_width, child_extended_style, child_style, host_size,
    plan_width_animation, read_style, stabilization_applies, window_size, HostError,
    WindowStyleSnapshot,
};
use muse_bar::layout::{
    resolve_available_span, resolve_bar_screen_x, AvailableSpan, OccupiedRect, OccupiedRegion,
    TaskbarRect, TaskbarRectError,
};
use muse_bar::occupancy::{
    normalize_regions, read_occupied_regions, read_positioning_regions, OccupancySource,
    PositioningRegionsCache,
};
use muse_bar::settings::TaskbarPosition;
use muse_bar::taskbar::{choose_taskbar, find_main_taskbar, ProcessImage};

fn region(name: &str, class_name: &str, left: i32, right: i32) -> OccupiedRegion {
    OccupiedRegion {
        name: name.to_owned(),
        class_name: class_name.to_owned(),
        rect: OccupiedRect { left, top: 1032, right, bottom: 1080 },
    }
}

fn taskbar() -> TaskbarRect {
    TaskbarRect::from_native(0, 1032, 1920, 1080).unwrap()
}

fn windows11_regions() -> Vec<OccupiedRegion> {
    vec![
        region("Widgets", "WidgetsButton", 0, 160),
        region("Start", "ToggleButton", 700, 748),
        region("Edge", "Taskbar.TaskListButtonAutomationPeer", 748, 1200),
        region("Tray", "SystemTrayIcon", 1700, 1900),
    ]
}

#[test]
fn taskbar_rect_needs_positive_area() {
    let t = taskbar();
    assert_eq!((t.left(), t.top(), t.right(), t.bottom()), (0, 1032, 1920, 1080));
    assert_eq!((t.width(), t.height()), (1920, 48));
    assert!(matches!(
        TaskbarRect::from_native(10, 0, 10, 48),
        Err(TaskbarRectError::Empty { .. })
    ));
    assert!(matches!(
        TaskbarRect::from_native(i32::MIN, 0, i32::MAX, 48),
        Err(TaskbarRectError::WidthOverflow)
    ));
}

#[test]
fn bar_stands_next_to_the_edge_components() {
    let t = taskbar();
    let regions = windows11_regions();
    assert_eq!(resolve_bar_screen_x(TaskbarPosition::Right, &t, &regions, 300), 1400);
    assert_eq!(resolve_bar_screen_x(TaskbarPosition::Left, &t, &regions, 300), 160);
    assert_eq!(resolve_bar_screen_x(TaskbarPosition::Right, &t, &[], 300), 1620);
    assert_eq!(resolve_bar_screen_x(TaskbarPosition::Left, &t, &[], 300), 0);
}

#[test]
fn a_bar_wider_than_the_taskbar_starts_at_its_left_edge() {
    let t = taskbar();
    assert_eq!(resolve_bar_screen_x(TaskbarPosition::Right, &t, &[], 5000), 0);
}

#[test]
fn lyrics_span_fills_the_gap_on_the_bar_side() {
    let t = taskbar();
    let regions = windows11_regions();
    let right = resolve_available_span(TaskbarPosition::Right, &t, &regions);
    assert_eq!(right, AvailableSpan { left: 1200, right: 1700 });
    assert_eq!(right.width(), 500);
    let left = resolve_available_span(TaskbarPosition::Left, &t, &regions);
    assert_eq!((left.left(), left.width()), (160, 540));
}

#[test]
fn complete_xaml_readings_are_used_as_they_are() {
    let occupancy = read_occupied_regions(Ok(windows11_regions()), Vec::new);
    assert_eq!(occupancy.source(), OccupancySource::UiAutomation);
    assert_eq!(occupancy.source().as_str(), "uiAutomation");
    assert_eq!(occupancy.regions().len(), 4);
    assert!(occupancy.fallback_reason().is_none());
}

#[test]
fn incomplete_readings_fall_back_to_win32() {
    let fallback = || vec![region("Shell_TrayWnd", "Start", 0, 48)];
    let occupancy = read_occupied_regions(Ok(vec![region("Tray", "SystemTrayIcon", 1700, 1900)]), fallback);
    assert_eq!(occupancy.source(), OccupancySource::Win32Fallback);
    assert_eq!(occupancy.source().as_str(), "win32Fallback");
    assert_eq!(occupancy.fallback_reason(), Some("Explorer XAML 宿主尚未返回完整的中央任务按钮"));
    assert_eq!(occupancy.regions()[0].name(), "Shell_TrayWnd");
    let occupancy = read_occupied_regions(Err("UIA 超时".to_owned()), Vec::new);
    assert_eq!(occupancy.fallback_reason(), Some("UIA 超时"));
}

#[test]
fn positioning_keeps_the_last_complete_reading() {
    let identity = find_main_taskbar(0x10, 1, 42, |_| {
        Ok(ProcessImage { file_name: Some("explorer.exe".to_owned()), display_path: "C:\\Windows\\explorer.exe".to_owned() })
    })
    .unwrap();
    let t = taskbar();
    let mut cache = PositioningRegionsCache::new();
    let first = read_positioning_regions(&mut cache, &identity, &t, Ok(windows11_regions()), Vec::new);
    assert_eq!(first.len(), 4);
    let second = read_positioning_regions(&mut cache, &identity, &t, Err("busy".to_owned()), || -> Vec<OccupiedRegion> {
        panic!("the cached reading must be used")
    });
    assert_eq!(second.len(), 4);
    cache.invalidate();
    let third = read_positioning_regions(&mut cache, &identity, &t, Err("busy".to_owned()), Vec::new);
    assert!(third.is_empty());
}

#[test]
fn regions_are_sorted_and_deduplicated() {
    let regions = vec![
        region("b", "X", 300, 400),
        region("a", "X", 100, 200),
        region("longer name", "Y", 300, 400),
    ];
    let normalized = normalize_regions(regions);
    assert_eq!(normalized.len(), 2);
    assert_eq!(normalized[0].rect.left, 100);
    assert_eq!(normalized[1].name, "longer name");
}

#[test]
fn identical_rectangles_are_removed_even_when_not_neighbours() {
    let a = region("a", "X", 100, 200);
    let mut b = region("b", "X", 100, 200);
    b.rect.top = 1040;
    let regions = vec![a.clone(), b.clone(), a.clone()];
    let normalized = normalize_regions(regions);
    assert_eq!(normalized.len(), 2);
    assert_eq!(normalized.iter().filter(|r| r.rect == a.rect).count(), 1);
    assert_eq!(normalized.iter().filter(|r| r.rect == b.rect).count(), 1);
}

#[test]
fn the_taskbar_must_belong_to_explorer() {
    let ok = find_main_taskbar(0xABC, 3, 77, |pid| {
        assert_eq!(pid, 77);
        Ok(ProcessImage { file_name: Some("Explorer.EXE".to_owned()), display_path: "x".to_owned() })
    })
    .unwrap();
    assert_eq!(ok.handle_value(), 0xABC);
    assert_eq!(ok.handle(), 0xABC);
    assert_eq!(ok.explorer_process_id(), 77);
    let err = find_main_taskbar(0xABC, 0, 77, |_| -> Result<ProcessImage, String> {
        panic!("not queried")
    }).unwrap_err();
    assert_eq!(err, "无法读取主任务栏所属进程");
    let err = find_main_taskbar(0xABC, 3, 77, |_| {
        Ok(ProcessImage { file_name: Some("evil.exe".to_owned()), display_path: "C:\\evil.exe".to_owned() })
    })
    .unwrap_err();
    assert_eq!(err, "Shell_TrayWnd 不属于 explorer.exe：C:\\evil.exe");
    let err = find_main_taskbar(0xABC, 3, 77, |_| Err("拒绝访问".to_owned())).unwrap_err();
    assert_eq!(err, "拒绝访问");
}

#[test]
fn child_styles_drop_popup_and_add_layering() {
    assert_eq!(child_style(0x94C0_0000), 0x56C0_0000);
    assert_eq!(child_extended_style(0x0000_0020), 0x0808_0000);
    assert_eq!(read_style(0), Err(HostError::StyleUnreadable));
    assert_eq!(read_style(7), Ok(7));
    assert_eq!(
        check_style_applied(1, 2, 2),
        Ok(WindowStyleSnapshot { before: 1, requested: 2, applied: 2 })
    );
    assert_eq!(
        check_style_applied(1, 2, 3),
        Err(HostError::StyleNotApplied { expected: 2, actual: 3 })
    );
}

#[test]
fn bar_placement_is_centred_and_checked() {
    let t = taskbar();
    assert_eq!(window_size(10, 20, 210, 60), Ok((200, 40)));
    assert!(matches!(window_size(0, 0, -5, 10), Err(TaskbarRectError::Empty { .. })));
    assert_eq!(window_size(i32::MIN, 0, 1, 1), Err(TaskbarRectError::WidthOverflow));
    assert_eq!(window_size(0, i32::MIN, 1, 1), Err(TaskbarRectError::HeightOverflow));
    assert_eq!(
        check_bar_fits(2000, 40, &t),
        Err(HostError::BarTooLarge { bar_width: 2000, bar_height: 40, taskbar_width: 1920, taskbar_height: 48 })
    );
    assert_eq!(check_bar_fits(200, 40, &t), Ok(()));
    assert_eq!(centred_position(&t, 200, 40), Ok((860, 1036)));
    assert_eq!(bar_screen_y(&t, 41), Ok(1035));
    assert_eq!(check_parent(5, 5), Ok(()));
    assert_eq!(check_parent(5, 6), Err(HostError::ParentMismatch { expected: 5, actual: 6 }));
    assert_eq!(host_size(200, 40), Ok((200, 40)));
    assert_eq!(host_size(-1, 40), Err(HostError::SizeOutOfRange));
}

#[test]
fn manual_offset_keeps_the_bar_inside_the_taskbar() {
    let t = taskbar();
    assert_eq!(apply_manual_offset(1800, 300, &t, 200), 1720);
    assert_eq!(apply_manual_offset(100, -300, &t, 200), 0);
    assert_eq!(apply_manual_offset(500, 25, &t, 200), 525);
    assert_eq!(apply_manual_offset(500, 0, &t, 3000), 0);
    assert_eq!(apply_manual_offset(i32::MAX, i32::MAX, &t, 200), 1720);
}

#[test]
fn growing_or_jumping_bars_change_at_once() {
    let grow = plan_width_animation(300, 400, 100, 100, 1920);
    assert!(grow.is_expanding && grow.is_instant_change);
    assert_eq!(grow.animation_steps, 1);
    let shrink = plan_width_animation(400, 300, 100, 120, 1920);
    assert!(!shrink.is_expanding && !shrink.is_instant_change);
    assert_eq!(shrink.animation_steps, 12);
    let jump = plan_width_animation(400, 300, 100, 741, 1920);
    assert!(jump.is_instant_change);
    assert_eq!(jump.animation_steps, 1);
    let edge = plan_width_animation(400, 300, 100, 740, 1920);
    assert_eq!(edge.animation_steps, 12);
    assert_eq!(check_target_width(0), Err(HostError::TargetWidthNotPositive));
    assert_eq!(check_target_width(1), Ok(()));
    assert!(stabilization_applies(Some(200), 200));
    assert!(!stabilization_applies(Some(210), 200));
    assert!(!stabilization_applies(None, 200));
}

#[test]
fn recovery_requests_are_spaced() {
    assert!(recovery_request_is_due(None, 0));
    assert!(!recovery_request_is_due(Some(1_000), 2_999));
    assert!(recovery_request_is_due(Some(1_000), 3_000));
    assert!(!recovery_request_is_due(Some(5_000), 1_000));
    assert_eq!(recovery_request_result(true, true, RecoverySend::Sent), Err("Explorer 恢复监听器正在关闭".to_owned()));
    assert_eq!(recovery_request_result(false, false, RecoverySend::Sent), Err("Explorer 恢复监听器尚未启动".to_owned()));
    assert_eq!(recovery_request_result(false, true, RecoverySend::Full), Ok(()));
    assert_eq!(
        recovery_request_result(false, true, RecoverySend::Disconnected),
        Err("Explorer 恢复工作线程已经停止".to_owned())
    );
}

#[test]
fn recovery_gives_up_after_thirty_attempts() {
    let mut retry = RecoveryRetry::new();
    assert_eq!(retry.last_error, "尚未尝试恢复 Bar");
    for attempt in 1..30 {
        assert!(matches!(retry.record(Err(format!("失败 {attempt}"))), RetryDecision::Retry));
    }
    match retry.record(Err("最后一次".to_owned())) {
        RetryDecision::GiveUp(e) => assert_eq!(e, "最后一次"),
        _ => panic!("expected to give up"),
    }
    let mut retry = RecoveryRetry::new();
    assert!(matches!(retry.record(Ok(())), RetryDecision::Recovered));
}

#[test]
fn a_dead_bar_window_is_destroyed_before_retrying() {
    let mut attempt = RecoveryAttempt::start();
    assert!(matches!(attempt.advance(RecoveryAnswer::Done), RecoveryStep::Do(RecoveryTask::InspectBar)));
    match attempt.advance(RecoveryAnswer::Presence(BarPresence::Dead)) {
        RecoveryStep::Finish { cleanup, result } => {
            assert_eq!(cleanup, RecoveryCleanup::DestroyWindow);
            assert_eq!(result, Err("旧 Bar 已失效，正在等待 Tauri 清理窗口标签".to_owned()));
        }
        _ => panic!("expected the attempt to end"),
    }
}

#[test]
fn a_recreated_bar_is_attached_and_given_a_webview() {
    let mut attempt = RecoveryAttempt::start();
    attempt.advance(RecoveryAnswer::Done);
    assert!(matches!(
        attempt.advance(RecoveryAnswer::Presence(BarPresence::Absent)),
        RecoveryStep::Do(RecoveryTask::CreateWindow)
    ));
    assert!(matches!(attempt.advance(RecoveryAnswer::Done), RecoveryStep::Do(RecoveryTask::AttachWindow)));
    assert!(attempt.recreated);
    assert!(matches!(attempt.advance(RecoveryAnswer::Done), RecoveryStep::Do(RecoveryTask::AddWebview)));
    match attempt.advance(RecoveryAnswer::Failed("WebView2 缺失".to_owned())) {
        RecoveryStep::Finish { cleanup, result } => {
            assert_eq!(cleanup, RecoveryCleanup::DestroyWindow);
            assert_eq!(result, Err("无法在 Bar 宿主内创建 Child WebView：WebView2 缺失".to_owned()));
        }
        _ => panic!("expected the attempt to end"),
    }
}

#[test]
fn a_living_bar_is_reattached_and_hidden_when_it_should_be() {
    let mut attempt = RecoveryAttempt::start();
    attempt.advance(RecoveryAnswer::Done);
    attempt.advance(RecoveryAnswer::Presence(BarPresence::Alive));
    assert!(!attempt.recreated);
    assert!(matches!(attempt.advance(RecoveryAnswer::Done), RecoveryStep::Do(RecoveryTask::FindWebview)));
    assert!(matches!(attempt.advance(RecoveryAnswer::Flag(true)), RecoveryStep::Do(RecoveryTask::EnableAutoResize)));
    assert!(matches!(attempt.advance(RecoveryAnswer::Done), RecoveryStep::Do(RecoveryTask::CheckVisibility)));
    assert!(matches!(attempt.advance(RecoveryAnswer::Flag(false)), RecoveryStep::Do(RecoveryTask::HideWindow)));
    assert!(matches!(
        attempt.advance(RecoveryAnswer::Done),
        RecoveryStep::Finish { cleanup: RecoveryCleanup::Nothing, result: Ok(()) }
    ));
}

#[test]
fn layout_changes_apply_on_the_second_reading() {
    let layout = LyricsTaskbarLayout {
        taskbar_handle: 1,
        taskbar_dpi: 96,
        position: TaskbarPosition::Right,
        manual_offset: 0,
        span_left: 1200,
        span_width: 500,
    };
    let moved = LyricsTaskbarLayout { span_left: 1100, ..layout };
    let mut d = LayoutDebouncer::new();
    assert!(!d.observe(layout));
    assert!(d.observe(layout));
    d.applied(layout);
    assert!(!d.observe(layout));
    assert!(!d.observe(moved));
    assert!(!d.observe(layout));
    assert!(!d.observe(moved));
    assert!(d.observe(moved));
    d.reset();
    assert!(!d.observe(moved));
}

#[test]
fn the_bar_follows_the_monitor_named_in_the_settings() {
    let ids = vec!["DISPLAY2".to_owned(), "DISPLAY3".to_owned(), "DISPLAY3".to_owned()];
    assert_eq!(choose_taskbar("DISPLAY3", &ids), Some(1));
    assert_eq!(choose_taskbar("DISPLAY2", &ids), Some(0));
    assert_eq!(choose_taskbar("primary", &ids), None);
    assert_eq!(choose_taskbar("DISPLAY3", &[]), None);
}

#[test]
fn a_region_inside_the_central_group_is_no_edge() {
    let t = taskbar();
    let regions = windows11_regions();
    let mut with_extra = windows11_regions();
    with_extra.push(region("Overlay", "FlyoutHost", 720, 900));
    for position in [TaskbarPosition::Left, TaskbarPosition::Right] {
        let before = resolve_available_span(position, &t, &regions);
        let after = resolve_available_span(position, &t, &with_extra);
        assert_eq!(before.left(), after.left());
        assert_eq!(before.width(), after.width());
    }
}
