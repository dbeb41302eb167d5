use muse_bar::settings::{
    check_schema_version, corrupted_settings_file_name, initial_settings_schema_version,
    is_corrupted_backup_file_name, is_temporary_settings_file_name, load_decision,
    normalize_hex_color, prune_corrupted_settings_backups, temporary_settings_file_name,
    unique_file_suffix, AppSettings, ColorMode, ElementAlignment, LoadDecision, LyricsAlignment,
    ProgressColorSource, ProgressStyle, SchemaVersionField, SettingsPersistenceError,
    TaskbarPosition, TitleScrollMode, WindowMode,
};

#[test]
fn default_settings_match_first_start_values() {
    let s = AppSettings::default();
    assert_eq!(s.schema_version, 12);
    assert_eq!(s.window_mode, WindowMode::Auto);
    assert_eq!(s.position, TaskbarPosition::Right);
    assert_eq!(s.target_monitor, "primary");
    assert_eq!(s.max_width, 380);
    assert_eq!(s.manual_offset, 0);
    assert!(s.show_controls);
    assert_eq!(s.element_alignment, ElementAlignment::Left);
    assert!(s.show_progress);
    assert_eq!(s.progress_style, ProgressStyle::Underline);
    assert_eq!(s.progress_color_source, ProgressColorSource::Artwork);
    assert_eq!(s.custom_progress_color, "#0078D4");
    assert_eq!(s.color_mode, ColorMode::System);
    assert!(s.title_scroll_enabled);
    assert_eq!(s.title_scroll_speed, 30);
    assert_eq!(s.title_scroll_mode, TitleScrollMode::Continuous);
    assert!(!s.lyrics_enabled);
    assert_eq!(s.lyrics_alignment, LyricsAlignment::Center);
    assert!(!s.launch_on_startup);
}

#[test]
fn maximum_width_is_clamped_to_product_range() {
    let mut s = AppSettings::default();
    s.max_width = 100;
    assert!(s.normalize_maximum_width());
    assert_eq!(s.max_width, 200);
    s.max_width = 999;
    assert!(s.normalize_maximum_width());
    assert_eq!(s.max_width, 520);
    s.max_width = 412;
    assert!(!s.normalize_maximum_width());
    assert_eq!(s.max_width, 412);
}

#[test]
fn title_scroll_speed_is_clamped() {
    let mut s = AppSettings::default();
    s.title_scroll_speed = 5;
    assert!(s.normalize_title_scroll_speed());
    assert_eq!(s.title_scroll_speed, 10);
    s.title_scroll_speed = 150;
    assert!(s.normalize_title_scroll_speed());
    assert_eq!(s.title_scroll_speed, 100);
    s.title_scroll_speed = 30;
    assert!(!s.normalize_title_scroll_speed());
}

#[test]
fn positioning_trims_monitor_and_clamps_offset() {
    let mut s = AppSettings::default();
    s.target_monitor = "  DISPLAY2  ".to_owned();
    s.manual_offset = -500;
    assert!(s.normalize_positioning());
    assert_eq!(s.target_monitor, "DISPLAY2");
    assert_eq!(s.manual_offset, -200);
    s.target_monitor = "   ".to_owned();
    s.manual_offset = 250;
    assert!(s.normalize_positioning());
    assert_eq!(s.target_monitor, "primary");
    assert_eq!(s.manual_offset, 200);
    assert!(!s.normalize_positioning());
}

#[test]
fn custom_color_is_normalised_or_replaced() {
    assert_eq!(normalize_hex_color(" #00ff7f "), Some("#00FF7F".to_owned()));
    assert_eq!(normalize_hex_color("#12345"), None);
    assert_eq!(normalize_hex_color("#GGGGGG"), None);
    assert_eq!(normalize_hex_color("00ff7f0"), None);
    let mut s = AppSettings::default();
    s.custom_progress_color = "red".to_owned();
    assert!(s.normalize_custom_progress_color());
    assert_eq!(s.custom_progress_color, "#0078D4");
    s.custom_progress_color = "#abcdef".to_owned();
    assert!(s.normalize_custom_progress_color());
    assert_eq!(s.custom_progress_color, "#ABCDEF");
    assert!(!s.normalize_custom_progress_color());
}

#[test]
fn prepare_refuses_future_schema_and_changes_nothing() {
    let mut s = AppSettings::default();
    s.schema_version = 13;
    s.max_width = 1;
    let r = s.prepare_for_persistence();
    assert_eq!(
        r,
        Err(SettingsPersistenceError::UnsupportedSchemaVersion { found: 13, supported: 12 })
    );
    assert_eq!(s.max_width, 1);
}

#[test]
fn prepare_migrates_legacy_schema() {
    let mut s = AppSettings::default();
    s.schema_version = 1;
    assert_eq!(s.prepare_for_persistence(), Ok(true));
    assert_eq!(s.schema_version, 12);
}

#[test]
fn preparing_twice_reports_no_second_change() {
    let mut s = AppSettings::default();
    s.schema_version = 3;
    s.max_width = 9999;
    s.target_monitor = "  ".to_owned();
    s.custom_progress_color = " #a1b2c3".to_owned();
    assert_eq!(s.prepare_for_persistence(), Ok(true));
    let first = s.copy();
    assert_eq!(s.prepare_for_persistence(), Ok(false));
    assert!(s.same_as(&first));
}

#[test]
fn default_settings_need_no_write_back() {
    let mut s = AppSettings::default();
    assert_eq!(s.prepare_for_persistence(), Ok(false));
}

#[test]
fn schema_version_field_is_classified() {
    assert_eq!(initial_settings_schema_version(), 1);
    assert_eq!(check_schema_version(SchemaVersionField::Missing), Ok(1));
    assert_eq!(check_schema_version(SchemaVersionField::Number(Some(12))), Ok(12));
    assert_eq!(
        check_schema_version(SchemaVersionField::Number(Some(13))),
        Err(SettingsPersistenceError::UnsupportedSchemaVersion { found: 13, supported: 12 })
    );
    assert_eq!(
        check_schema_version(SchemaVersionField::Number(None)),
        Err(SettingsPersistenceError::InvalidSchemaVersion)
    );
    assert_eq!(
        check_schema_version(SchemaVersionField::Other),
        Err(SettingsPersistenceError::InvalidSchemaVersion)
    );
}

#[test]
fn error_messages_read_as_documented() {
    assert_eq!(
        SettingsPersistenceError::UnsupportedSchemaVersion { found: 13, supported: 12 }.to_string(),
        "设置版本 13 高于当前程序支持的版本 12，已停止加载以避免覆盖新版本配置"
    );
    assert_eq!(SettingsPersistenceError::Io("denied".to_owned()).to_string(), "设置文件 I/O 失败：denied");
    assert_eq!(SettingsPersistenceError::Json("eof".to_owned()).to_string(), "设置 JSON 处理失败：eof");
    assert_eq!(SettingsPersistenceError::AppPath("x".to_owned()).to_string(), "无法定位应用配置目录：x");
    assert_eq!(SettingsPersistenceError::MissingParentDirectory.to_string(), "无法确定设置文件所在目录");
    assert_eq!(SettingsPersistenceError::InvalidSchemaVersion.to_string(), "schemaVersion 必须是非负整数");
    assert_eq!(
        SettingsPersistenceError::VerificationMismatch.to_string(),
        "设置写入后的校验结果与待保存内容不一致"
    );
}

#[test]
fn settings_file_names_are_recognised() {
    assert!(is_temporary_settings_file_name("settings.stale.tmp"));
    assert!(!is_temporary_settings_file_name("settings.json"));
    assert!(!is_temporary_settings_file_name("other.tmp"));
    assert!(is_corrupted_backup_file_name("settings.corrupted-0001.json"));
    assert!(!is_corrupted_backup_file_name("settings.corrupted-0001.tmp"));
    assert!(!is_corrupted_backup_file_name("settings.json"));
}

#[test]
fn settings_file_names_are_built() {
    let suffix = unique_file_suffix(1_234_567_890_123, 42, 7);
    assert_eq!(suffix, "1234567890123-42-7");
    assert_eq!(unique_file_suffix(0, 0, 0), "0-0-0");
    assert_eq!(temporary_settings_file_name(&suffix), "settings.1234567890123-42-7.tmp");
    assert_eq!(
        corrupted_settings_file_name(&suffix),
        "settings.corrupted-1234567890123-42-7.json"
    );
}

#[test]
fn pruning_keeps_the_three_latest_backups() {
    let names: Vec<String> = vec![
        "settings.json",
        "settings.corrupted-0003.json",
        "settings.corrupted-0000.json",
        "settings.corrupted-0004.json",
        "settings.corrupted-0001.json",
        "settings.corrupted-0002.json",
        "settings.corrupted-1763.json",
        "notes.txt",
    ]
    .into_iter()
    .map(str::to_owned)
    .collect();
    let removed = prune_corrupted_settings_backups(&names);
    assert_eq!(
        removed,
        vec![
            "settings.corrupted-0000.json".to_owned(),
            "settings.corrupted-0001.json".to_owned(),
            "settings.corrupted-0002.json".to_owned(),
        ]
    );
    let kept = names.iter().filter(|n| is_corrupted_backup_file_name(n)).count() - removed.len();
    assert_eq!(kept, 3);
}

#[test]
fn pruning_with_few_backups_removes_nothing() {
    let names = vec!["settings.corrupted-1.json".to_owned(), "settings.corrupted-2.json".to_owned()];
    assert!(prune_corrupted_settings_backups(&names).is_empty());
}

#[test]
fn load_decisions_follow_the_file() {
    let (d, s) = load_decision(false, Ok(AppSettings::default()));
    assert_eq!(d, LoadDecision::UseDefaults);
    assert!(s.is_none());

    let mut legacy = AppSettings::default();
    legacy.schema_version = 1;
    let (d, s) = load_decision(true, Ok(legacy));
    assert_eq!(d, LoadDecision::Use { write_back: true });
    assert_eq!(s.unwrap().schema_version, 12);

    let (d, _) = load_decision(true, Ok(AppSettings::default()));
    assert_eq!(d, LoadDecision::Use { write_back: false });

    let (d, s) = load_decision(true, Err(SettingsPersistenceError::Json("bad".to_owned())));
    assert_eq!(d, LoadDecision::BackUpAndUseDefaults);
    assert!(s.is_none());

    let future = SettingsPersistenceError::UnsupportedSchemaVersion { found: 99, supported: 12 };
    let (d, _) = load_decision(true, Err(future.clone()));
    assert_eq!(d, LoadDecision::Fail(future));

    let mut newer = AppSettings::default();
    newer.schema_version = 20;
    let (d, _) = load_decision(true, Ok(newer));
    assert_eq!(
        d,
        LoadDecision::Fail(SettingsPersistenceError::UnsupportedSchemaVersion { found: 20, supported: 12 })
    );
}

#[test]
fn save_check_refuses_newer_schema() {
    let mut s = AppSettings::default();
    assert!(s.check_saveable().is_ok());
    s.schema_version = 13;
    assert_eq!(
        s.check_saveable(),
        Err(SettingsPersistenceError::UnsupportedSchemaVersion { found: 13, supported: 12 })
    );
}
