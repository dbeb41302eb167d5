//! User settings: the persisted model, its defaults, normalisation and the
//! decisions taken while loading and saving it.
use vstd::prelude::*;

use crate::text::{
    ascii_upper, ascii_upper_seq, is_unicode_whitespace, lemma_trim_idempotent,
    lemma_trim_of_trimmed, chars_less, chars_of, decimal, decimal_string, ends_with_chars,
    has_prefix, has_suffix, is_ascii_hex_digit, is_hex_digit_char, joined, push_char, push_str,
    starts_with_chars, string_from_chars, text_less, trim_seq, trimmed, upper_char,
    lemma_text_less_irreflexive, lemma_text_less_total, lemma_text_less_transitive,
};

verus! {

/// How the bar window is hosted by the Windows taskbar.
#[derive(Debug, Clone, Copy, PartialEq, Eq, Structural)]
pub enum WindowMode {
    /// The default hosting strategy (currently the child window).
    Auto,
    /// Reserved for a future owner-window host.
    Owner,
}

/// Which side of the taskbar the bar is placed on.
#[derive(Debug, Clone, Copy, PartialEq, Eq, Structural)]
pub enum TaskbarPosition {
    Left,
    Right,
}

/// Horizontal alignment of the lyrics text.
#[derive(Debug, Clone, Copy, PartialEq, Eq, Structural)]
pub enum LyricsAlignment {
    Left,
    Center,
    Right,
}

/// How playback progress is drawn in the bar.
#[derive(Debug, Clone, Copy, PartialEq, Eq, Structural)]
pub enum ProgressStyle {
    /// A thin line along the bottom edge.
    Underline,
    /// A background gradient over the played part.
    BackgroundGradient,
}

/// Colour mode of the front-end windows.
#[derive(Debug, Clone, Copy, PartialEq, Eq, Structural)]
pub enum ColorMode {
    /// Follow the Windows application colour mode.
    System,
    Dark,
    Light,
}

/// How an overlong title scrolls.
#[derive(Debug, Clone, Copy, PartialEq, Eq, Structural)]
pub enum TitleScrollMode {
    /// The title is repeated end to end and scrolls without a gap.
    Continuous,
    /// The title scrolls to its end and starts again.
    Restart,
    /// The title scrolls to its end and back.
    Bounce,
}

/// Direction in which artwork, text, lyrics and controls are laid out.
#[derive(Debug, Clone, Copy, PartialEq, Eq, Structural)]
pub enum ElementAlignment {
    Left,
    Right,
}

/// Where the progress colour comes from.
#[derive(Debug, Clone, Copy, PartialEq, Eq, Structural)]
pub enum ProgressColorSource {
    Artwork,
    System,
    Custom,
}


/// The schema version that this program writes.
pub const CURRENT_SETTINGS_SCHEMA_VERSION: u32 = 12;
/// How many backups of unreadable settings files are kept.
pub const MAXIMUM_CORRUPTED_SETTINGS_BACKUPS: usize = 3;
/// The default maximum bar width.
pub const DEFAULT_MAX_WIDTH: u32 = 380;
/// The least maximum bar width that can be set.
pub const MINIMUM_ALLOWED_MAX_WIDTH: u32 = 200;
/// The greatest maximum bar width that can be set.
pub const ALLOWED_MAX_WIDTH: u32 = 520;
/// The default title scroll speed.
pub const DEFAULT_TITLE_SCROLL_SPEED: u32 = 30;
/// The least title scroll speed.
pub const MINIMUM_TITLE_SCROLL_SPEED: u32 = 10;
/// The greatest title scroll speed.
pub const MAXIMUM_TITLE_SCROLL_SPEED: u32 = 100;
/// The least manual offset.
pub const MINIMUM_MANUAL_OFFSET: i32 = -200;
/// The greatest manual offset.
pub const MAXIMUM_MANUAL_OFFSET: i32 = 200;

/// The persisted user settings.
#[derive(Debug)]
pub struct AppSettings {
    pub schema_version: u32,
    pub window_mode: WindowMode,
    pub position: TaskbarPosition,
    pub target_monitor: String,
    pub max_width: u32,
    pub manual_offset: i32,
    pub show_controls: bool,
    pub element_alignment: ElementAlignment,
    pub show_progress: bool,
    pub progress_style: ProgressStyle,
    pub progress_color_source: ProgressColorSource,
    pub custom_progress_color: String,
    pub color_mode: ColorMode,
    pub title_scroll_enabled: bool,
    pub title_scroll_speed: u32,
    pub title_scroll_mode: TitleScrollMode,
    pub lyrics_enabled: bool,
    pub lyrics_alignment: LyricsAlignment,
    pub launch_on_startup: bool,
}

/// The plain value of `AppSettings`.
pub struct SettingsModel {
    pub schema_version: u32,
    pub window_mode: WindowMode,
    pub position: TaskbarPosition,
    pub target_monitor: Seq<char>,
    pub max_width: u32,
    pub manual_offset: i32,
    pub show_controls: bool,
    pub element_alignment: ElementAlignment,
    pub show_progress: bool,
    pub progress_style: ProgressStyle,
    pub progress_color_source: ProgressColorSource,
    pub custom_progress_color: Seq<char>,
    pub color_mode: ColorMode,
    pub title_scroll_enabled: bool,
    pub title_scroll_speed: u32,
    pub title_scroll_mode: TitleScrollMode,
    pub lyrics_enabled: bool,
    pub lyrics_alignment: LyricsAlignment,
    pub launch_on_startup: bool,
}

impl View for AppSettings {
    type V = SettingsModel;

    open spec fn view(&self) -> SettingsModel {
        SettingsModel {
            schema_version: self.schema_version,
            window_mode: self.window_mode,
            position: self.position,
            target_monitor: self.target_monitor@,
            max_width: self.max_width,
            manual_offset: self.manual_offset,
            show_controls: self.show_controls,
            element_alignment: self.element_alignment,
            show_progress: self.show_progress,
            progress_style: self.progress_style,
            progress_color_source: self.progress_color_source,
            custom_progress_color: self.custom_progress_color@,
            color_mode: self.color_mode,
            title_scroll_enabled: self.title_scroll_enabled,
            title_scroll_speed: self.title_scroll_speed,
            title_scroll_mode: self.title_scroll_mode,
            lyrics_enabled: self.lyrics_enabled,
            lyrics_alignment: self.lyrics_alignment,
            launch_on_startup: self.launch_on_startup,
        }
    }
}

pub open spec fn default_target_monitor() -> Seq<char> {
    "primary"@
}

pub open spec fn default_custom_progress_color() -> Seq<char> {
    "#0078D4"@
}

/// The settings of a first start.
pub open spec fn default_settings() -> SettingsModel {
    SettingsModel {
        schema_version: 12,
        window_mode: WindowMode::Auto,
        position: TaskbarPosition::Right,
        target_monitor: default_target_monitor(),
        max_width: 380,
        manual_offset: 0,
        show_controls: true,
        element_alignment: ElementAlignment::Left,
        show_progress: true,
        progress_style: ProgressStyle::Underline,
        progress_color_source: ProgressColorSource::Artwork,
        custom_progress_color: default_custom_progress_color(),
        color_mode: ColorMode::System,
        title_scroll_enabled: true,
        title_scroll_speed: 30,
        title_scroll_mode: TitleScrollMode::Continuous,
        lyrics_enabled: false,
        lyrics_alignment: LyricsAlignment::Center,
        launch_on_startup: false,
    }
}

impl Default for AppSettings {
    fn default() -> (r: Self)
        ensures
            r@ == default_settings(),
    {
        AppSettings {
            schema_version: CURRENT_SETTINGS_SCHEMA_VERSION,
            window_mode: WindowMode::Auto,
            position: TaskbarPosition::Right,
            target_monitor: "primary".to_owned(),
            max_width: DEFAULT_MAX_WIDTH,
            manual_offset: 0,
            show_controls: true,
            element_alignment: ElementAlignment::Left,
            show_progress: true,
            progress_style: ProgressStyle::Underline,
            progress_color_source: ProgressColorSource::Artwork,
            custom_progress_color: "#0078D4".to_owned(),
            color_mode: ColorMode::System,
            title_scroll_enabled: true,
            title_scroll_speed: DEFAULT_TITLE_SCROLL_SPEED,
            title_scroll_mode: TitleScrollMode::Continuous,
            lyrics_enabled: false,
            lyrics_alignment: LyricsAlignment::Center,
            launch_on_startup: false,
        }
    }
}

// ---------------------------------------------------------------------------
// Normalisation.
// ---------------------------------------------------------------------------

pub open spec fn clamp_u32(v: u32, low: u32, high: u32) -> u32 {
    if v < low {
        low
    } else if v > high {
        high
    } else {
        v
    }
}

pub open spec fn clamp_i32(v: i32, low: i32, high: i32) -> i32 {
    if v < low {
        low
    } else if v > high {
        high
    } else {
        v
    }
}

/// The target monitor, trimmed; the primary monitor where nothing is left.
pub open spec fn normalized_monitor(m: Seq<char>) -> Seq<char> {
    if trim_seq(m).len() == 0 {
        default_target_monitor()
    } else {
        trim_seq(m)
    }
}

/// A colour `#` followed by six hexadecimal digits (after trimming), as
/// `#` and the digits in upper case; none for anything else.
pub open spec fn hex_color_of(value: Seq<char>) -> Option<Seq<char>> {
    let t = trim_seq(value);
    if t.len() == 7 && t[0] == '#' && forall|i: int| 1 <= i < 7 ==> is_ascii_hex_digit(#[trigger] t[i]) {
        Some(seq!['#'] + ascii_upper_seq(t.subrange(1, 7)))
    } else {
        None
    }
}

/// The custom colour, normalised; the default colour where it is invalid.
pub open spec fn normalized_color(c: Seq<char>) -> Seq<char> {
    match hex_color_of(c) {
        Some(v) => v,
        None => default_custom_progress_color(),
    }
}

/// The settings after migration to the current schema and normalisation
/// of every bounded field.
pub open spec fn normalized_settings(m: SettingsModel) -> SettingsModel {
    SettingsModel {
        schema_version: 12,
        max_width: clamp_u32(m.max_width, 200, 520),
        title_scroll_speed: clamp_u32(m.title_scroll_speed, 10, 100),
        target_monitor: normalized_monitor(m.target_monitor),
        manual_offset: clamp_i32(m.manual_offset, -200i32, 200i32),
        custom_progress_color: normalized_color(m.custom_progress_color),
        ..m
    }
}

/// The settings error for a schema version newer than this program's.
pub open spec fn unsupported(found: u64) -> SettingsPersistenceError {
    SettingsPersistenceError::UnsupportedSchemaVersion { found, supported: 12 }
}

/// Why settings could not be loaded or saved.
#[derive(Debug, Clone, PartialEq, Eq)]
pub enum SettingsPersistenceError {
    /// A file operation failed; the text of the I/O error.
    Io(String),
    /// JSON could not be read or written; the text of the JSON error.
    Json(String),
    /// The application's configuration directory could not be found.
    AppPath(String),
    MissingParentDirectory,
    UnsupportedSchemaVersion { found: u64, supported: u32 },
    InvalidSchemaVersion,
    VerificationMismatch,
}

/// The readable message of an error.
pub open spec fn error_message(e: SettingsPersistenceError) -> Seq<char> {
    match e {
        SettingsPersistenceError::Io(t) => "设置文件 I/O 失败："@ + t@,
        SettingsPersistenceError::Json(t) => "设置 JSON 处理失败："@ + t@,
        SettingsPersistenceError::AppPath(t) => "无法定位应用配置目录："@ + t@,
        SettingsPersistenceError::MissingParentDirectory => "无法确定设置文件所在目录"@,
        SettingsPersistenceError::UnsupportedSchemaVersion { found, supported } => "设置版本 "@
            + decimal(found as nat) + " 高于当前程序支持的版本 "@ + decimal(supported as nat)
            + "，已停止加载以避免覆盖新版本配置"@,
        SettingsPersistenceError::InvalidSchemaVersion => "schemaVersion 必须是非负整数"@,
        SettingsPersistenceError::VerificationMismatch => "设置写入后的校验结果与待保存内容不一致"@,
    }
}

impl SettingsPersistenceError {
    /// The readable message.
    pub fn to_string(&self) -> (r: String)
        ensures
            r@ == error_message(*self),
    {
        match self {
            SettingsPersistenceError::Io(t) => joined("设置文件 I/O 失败：", t.as_str()),
            SettingsPersistenceError::Json(t) => joined("设置 JSON 处理失败：", t.as_str()),
            SettingsPersistenceError::AppPath(t) => joined("无法定位应用配置目录：", t.as_str()),
            SettingsPersistenceError::MissingParentDirectory => "无法确定设置文件所在目录".to_owned(),
            SettingsPersistenceError::UnsupportedSchemaVersion { found, supported } => {
                let mut r = "设置版本 ".to_owned();
                let f = decimal_string(*found as u128);
                push_str(&mut r, f.as_str());
                push_str(&mut r, " 高于当前程序支持的版本 ");
                let s = decimal_string(*supported as u128);
                push_str(&mut r, s.as_str());
                push_str(&mut r, "，已停止加载以避免覆盖新版本配置");
                r
            },
            SettingsPersistenceError::InvalidSchemaVersion => "schemaVersion 必须是非负整数".to_owned(),
            SettingsPersistenceError::VerificationMismatch => "设置写入后的校验结果与待保存内容不一致".to_owned(),
        }
    }
}

/// Normalises a colour of the form `#rrggbb`.
pub fn normalize_hex_color(value: &str) -> (r: Option<String>)
    ensures
        match (r, hex_color_of(value@)) {
            (Some(v), Some(w)) => v@ == w,
            (None, None) => true,
            _ => false,
        },
{
    let chars = chars_of(value);
    let t = trimmed(chars.as_slice());
    if t.len() != 7 || t[0] != '#' {
        return None;
    }
    let mut out: Vec<char> = Vec::new();
    out.push('#');
    let mut i: usize = 1;
    while i < 7
        invariant
            1 <= i <= 7,
            t@.len() == 7,
            t@ == trim_seq(value@),
            forall|j: int| 1 <= j < i ==> is_ascii_hex_digit(#[trigger] t@[j]),
            out@ == seq!['#'] + ascii_upper_seq(t@.subrange(1, i as int)),
        decreases 7 - i,
    {
        if !is_hex_digit_char(t[i]) {
            return None;
        }
        out.push(upper_char(t[i]));
        i += 1;
        proof {
            assert(out@ =~= seq!['#'] + ascii_upper_seq(t@.subrange(1, i as int)));
        }
    }
    Some(string_from_chars(out.as_slice()))
}

fn copy_text_value(s: &str) -> (r: String)
    ensures
        r@ == s@,
{
    let c = chars_of(s);
    string_from_chars(c.as_slice())
}

fn same_text(a: &str, b: &str) -> (r: bool)
    ensures
        r == (a@ == b@),
{
    let x = chars_of(a);
    let y = chars_of(b);
    crate::text::chars_equal(x.as_slice(), y.as_slice())
}

/// The normalised settings differ from the original exactly where one of
/// the normalised fields does.
proof fn lemma_normalized_change(before: SettingsModel, after: SettingsModel)
    requires
        after == normalized_settings(before),
    ensures
        (after != before) == (after.schema_version != before.schema_version || after.max_width
            != before.max_width || after.title_scroll_speed != before.title_scroll_speed
            || after.target_monitor != before.target_monitor || after.manual_offset
            != before.manual_offset || after.custom_progress_color != before.custom_progress_color),
{
}

impl AppSettings {
    /// Keeps the maximum width in 200..=520.
    pub fn normalize_maximum_width(&mut self) -> (changed: bool)
        ensures
            final(self)@ == (SettingsModel { max_width: clamp_u32(old(self).max_width, 200, 520), ..old(self)@ }),
            changed == (old(self).max_width != final(self).max_width),
    {
        let w = if self.max_width < MINIMUM_ALLOWED_MAX_WIDTH {
            MINIMUM_ALLOWED_MAX_WIDTH
        } else if self.max_width > ALLOWED_MAX_WIDTH {
            ALLOWED_MAX_WIDTH
        } else {
            self.max_width
        };
        let changed = self.max_width != w;
        self.max_width = w;
        changed
    }

    /// Keeps the title scroll speed in 10..=100.
    pub fn normalize_title_scroll_speed(&mut self) -> (changed: bool)
        ensures
            final(self)@ == (SettingsModel { title_scroll_speed: clamp_u32(old(self).title_scroll_speed, 10, 100), ..old(self)@ }),
            changed == (old(self).title_scroll_speed != final(self).title_scroll_speed),
    {
        let v = if self.title_scroll_speed < MINIMUM_TITLE_SCROLL_SPEED {
            MINIMUM_TITLE_SCROLL_SPEED
        } else if self.title_scroll_speed > MAXIMUM_TITLE_SCROLL_SPEED {
            MAXIMUM_TITLE_SCROLL_SPEED
        } else {
            self.title_scroll_speed
        };
        let changed = self.title_scroll_speed != v;
        self.title_scroll_speed = v;
        changed
    }

    /// Trims the target monitor (the primary monitor where nothing is left)
    /// and keeps the manual offset in -200..=200.
    pub fn normalize_positioning(&mut self) -> (changed: bool)
        ensures
            final(self)@ == (SettingsModel {
                target_monitor: normalized_monitor(old(self).target_monitor@),
                manual_offset: clamp_i32(old(self).manual_offset, -200i32, 200i32),
                ..old(self)@
            }),
            changed == (old(self).target_monitor@ != final(self).target_monitor@
                || old(self).manual_offset != final(self).manual_offset),
    {
        let chars = chars_of(self.target_monitor.as_str());
        let t = trimmed(chars.as_slice());
        let monitor = if t.len() == 0 {
            proof {
                reveal_strlit("primary");
            }
            "primary".to_owned()
        } else {
            string_from_chars(t.as_slice())
        };
        let offset = if self.manual_offset < MINIMUM_MANUAL_OFFSET {
            MINIMUM_MANUAL_OFFSET
        } else if self.manual_offset > MAXIMUM_MANUAL_OFFSET {
            MAXIMUM_MANUAL_OFFSET
        } else {
            self.manual_offset
        };
        let changed = !same_text(self.target_monitor.as_str(), monitor.as_str())
            || self.manual_offset != offset;
        self.target_monitor = monitor;
        self.manual_offset = offset;
        changed
    }

    /// Normalises the custom progress colour to `#RRGGBB`, or the default
    /// colour where it is not a valid one.
    pub fn normalize_custom_progress_color(&mut self) -> (changed: bool)
        ensures
            final(self)@ == (SettingsModel {
                custom_progress_color: normalized_color(old(self).custom_progress_color@),
                ..old(self)@
            }),
            changed == (old(self).custom_progress_color@ != final(self).custom_progress_color@),
    {
        let normalized = match normalize_hex_color(self.custom_progress_color.as_str()) {
            Some(v) => v,
            None => "#0078D4".to_owned(),
        };
        let changed = !same_text(self.custom_progress_color.as_str(), normalized.as_str());
        self.custom_progress_color = normalized;
        changed
    }

    /// Migrates to the current schema and normalises every bounded field;
    /// says whether anything changed. A schema newer than this program's is
    /// refused and nothing changes.
    #[verifier::spinoff_prover]
    pub fn prepare_for_persistence(&mut self) -> (r: Result<bool, SettingsPersistenceError>)
        ensures
            old(self).schema_version > 12 ==> r == Err::<bool, SettingsPersistenceError>(
                unsupported(old(self).schema_version as u64),
            ) && final(self)@ == old(self)@,
            old(self).schema_version <= 12 ==> final(self)@ == normalized_settings(old(self)@)
                && r == Ok::<bool, SettingsPersistenceError>(final(self)@ != old(self)@),
    {
        if self.schema_version > CURRENT_SETTINGS_SCHEMA_VERSION {
            return Err(
                SettingsPersistenceError::UnsupportedSchemaVersion {
                    found: self.schema_version as u64,
                    supported: CURRENT_SETTINGS_SCHEMA_VERSION,
                },
            );
        }
        let ghost before = self@;
        let migrated = if self.schema_version < CURRENT_SETTINGS_SCHEMA_VERSION {
            self.schema_version = CURRENT_SETTINGS_SCHEMA_VERSION;
            true
        } else {
            false
        };
        let a = self.normalize_maximum_width();
        let b = self.normalize_title_scroll_speed();
        let c = self.normalize_positioning();
        let d = self.normalize_custom_progress_color();
        proof {
            lemma_normalized_change(before, self@);
        }
        Ok(a || b || c || d || migrated)
    }

    /// Checks before saving that the settings are not of a newer schema.
    pub fn check_saveable(&self) -> (r: Result<(), SettingsPersistenceError>)
        ensures
            self.schema_version > 12 ==> r == Err::<(), SettingsPersistenceError>(
                unsupported(self.schema_version as u64),
            ),
            self.schema_version <= 12 ==> r is Ok,
    {
        if self.schema_version > CURRENT_SETTINGS_SCHEMA_VERSION {
            Err(
                SettingsPersistenceError::UnsupportedSchemaVersion {
                    found: self.schema_version as u64,
                    supported: CURRENT_SETTINGS_SCHEMA_VERSION,
                },
            )
        } else {
            Ok(())
        }
    }

    /// A copy of the settings.
    pub fn copy(&self) -> (r: AppSettings)
        ensures
            r@ == self@,
    {
        AppSettings {
            schema_version: self.schema_version,
            window_mode: self.window_mode,
            position: self.position,
            target_monitor: copy_text_value(self.target_monitor.as_str()),
            max_width: self.max_width,
            manual_offset: self.manual_offset,
            show_controls: self.show_controls,
            element_alignment: self.element_alignment,
            show_progress: self.show_progress,
            progress_style: self.progress_style,
            progress_color_source: self.progress_color_source,
            custom_progress_color: copy_text_value(self.custom_progress_color.as_str()),
            color_mode: self.color_mode,
            title_scroll_enabled: self.title_scroll_enabled,
            title_scroll_speed: self.title_scroll_speed,
            title_scroll_mode: self.title_scroll_mode,
            lyrics_enabled: self.lyrics_enabled,
            lyrics_alignment: self.lyrics_alignment,
            launch_on_startup: self.launch_on_startup,
        }
    }

    /// Whether two settings hold the same values (the check after a save).
    pub fn same_as(&self, other: &AppSettings) -> (r: bool)
        ensures
            r == (self@ == other@),
    {
        self.schema_version == other.schema_version && self.window_mode == other.window_mode
            && self.position == other.position && same_text(
            self.target_monitor.as_str(),
            other.target_monitor.as_str(),
        ) && self.max_width == other.max_width && self.manual_offset == other.manual_offset
            && self.show_controls == other.show_controls && self.element_alignment
            == other.element_alignment && self.show_progress == other.show_progress
            && self.progress_style == other.progress_style && self.progress_color_source
            == other.progress_color_source && same_text(
            self.custom_progress_color.as_str(),
            other.custom_progress_color.as_str(),
        ) && self.color_mode == other.color_mode && self.title_scroll_enabled
            == other.title_scroll_enabled && self.title_scroll_speed == other.title_scroll_speed
            && self.title_scroll_mode == other.title_scroll_mode && self.lyrics_enabled
            == other.lyrics_enabled && self.lyrics_alignment == other.lyrics_alignment
            && self.launch_on_startup == other.launch_on_startup
    }
}

// ---------------------------------------------------------------------------
// Loading.
// ---------------------------------------------------------------------------

/// The schema version of a settings file that has none: the first one.
pub fn initial_settings_schema_version() -> (r: u32)
    ensures
        r == 1,
{
    1
}

/// The `schemaVersion` field of a settings document.
#[derive(Debug, Clone, Copy, PartialEq, Eq, Structural)]
pub enum SchemaVersionField {
    /// There is none.
    Missing,
    /// A JSON number; its value where it is a non-negative integer that
    /// fits in a `u64`.
    Number(Option<u64>),
    /// Some other JSON value.
    Other,
}

/// The schema version of a settings document: a missing field means the
/// first schema; a number must be a non-negative integer; a version newer
/// than this program's is refused.
pub fn check_schema_version(field: SchemaVersionField) -> (r: Result<u64, SettingsPersistenceError>)
    ensures
        match field {
            SchemaVersionField::Missing => r == Ok::<u64, SettingsPersistenceError>(1),
            SchemaVersionField::Number(Some(v)) => if v > 12 {
                r == Err::<u64, SettingsPersistenceError>(unsupported(v))
            } else {
                r == Ok::<u64, SettingsPersistenceError>(v)
            },
            _ => r == Err::<u64, SettingsPersistenceError>(
                SettingsPersistenceError::InvalidSchemaVersion,
            ),
        },
{
    let version = match field {
        SchemaVersionField::Number(Some(v)) => v,
        SchemaVersionField::Missing => initial_settings_schema_version() as u64,
        _ => return Err(SettingsPersistenceError::InvalidSchemaVersion),
    };
    if version > CURRENT_SETTINGS_SCHEMA_VERSION as u64 {
        return Err(
            SettingsPersistenceError::UnsupportedSchemaVersion {
                found: version,
                supported: CURRENT_SETTINGS_SCHEMA_VERSION,
            },
        );
    }
    Ok(version)
}

/// What loading does with a settings file's contents.
#[derive(Debug, Clone, PartialEq, Eq)]
pub enum LoadDecision {
    /// There is no settings file: use the defaults.
    UseDefaults,
    /// Use the settings read; write them back first where preparing them
    /// changed something.
    Use { write_back: bool },
    /// The file is unreadable: move it to a backup and use the defaults.
    BackUpAndUseDefaults,
    /// Refuse to load.
    Fail(SettingsPersistenceError),
}

/// Decides how loading goes on after reading the file (none where it does
/// not exist) and parsing it: a newer schema is refused; a failure to
/// prepare the settings is passed on; any other parse failure backs the
/// file up.
pub fn load_decision(
    file_exists: bool,
    parsed: Result<AppSettings, SettingsPersistenceError>,
) -> (r: (LoadDecision, Option<AppSettings>))
    ensures
        !file_exists ==> r.0 == LoadDecision::UseDefaults && r.1 is None,
        file_exists ==> match parsed {
            Ok(s) => if s.schema_version > 12 {
                r.0 == LoadDecision::Fail(unsupported(s.schema_version as u64)) && r.1 is None
            } else {
                r.1 matches Some(t) && t@ == normalized_settings(s@) && r.0 == LoadDecision::Use {
                    write_back: normalized_settings(s@) != s@,
                }
            },
            Err(SettingsPersistenceError::UnsupportedSchemaVersion { found, supported }) => r.0
                == LoadDecision::Fail(
                SettingsPersistenceError::UnsupportedSchemaVersion { found, supported },
            ) && r.1 is None,
            Err(_) => r.0 == LoadDecision::BackUpAndUseDefaults && r.1 is None,
        },
{
    if !file_exists {
        return (LoadDecision::UseDefaults, None);
    }
    match parsed {
        Ok(mut settings) => match settings.prepare_for_persistence() {
            Ok(changed) => (LoadDecision::Use { write_back: changed }, Some(settings)),
            Err(e) => (LoadDecision::Fail(e), None),
        },
        Err(SettingsPersistenceError::UnsupportedSchemaVersion { found, supported }) => (
            LoadDecision::Fail(SettingsPersistenceError::UnsupportedSchemaVersion { found, supported }),
            None,
        ),
        Err(_) => (LoadDecision::BackUpAndUseDefaults, None),
    }
}

// ---------------------------------------------------------------------------
// Settings files.
// ---------------------------------------------------------------------------

/// A leftover temporary settings file: `settings.*.tmp`.
pub open spec fn is_temporary_name(name: Seq<char>) -> bool {
    has_prefix(name, "settings."@) && has_suffix(name, ".tmp"@)
}

/// A backup of an unreadable settings file: `settings.corrupted-*.json`.
pub open spec fn is_backup_name(name: Seq<char>) -> bool {
    has_prefix(name, "settings.corrupted-"@) && has_suffix(name, ".json"@)
}

/// Whether a file name is a leftover temporary settings file.
pub fn is_temporary_settings_file_name(name: &str) -> (r: bool)
    ensures
        r == is_temporary_name(name@),
{
    let n = chars_of(name);
    let p = chars_of("settings.");
    let s = chars_of(".tmp");
    starts_with_chars(n.as_slice(), p.as_slice()) && ends_with_chars(n.as_slice(), s.as_slice())
}

/// Whether a file name is a backup of an unreadable settings file.
pub fn is_corrupted_backup_file_name(name: &str) -> (r: bool)
    ensures
        r == is_backup_name(name@),
{
    let n = chars_of(name);
    let p = chars_of("settings.corrupted-");
    let s = chars_of(".json");
    starts_with_chars(n.as_slice(), p.as_slice()) && ends_with_chars(n.as_slice(), s.as_slice())
}

/// The unique part of a new settings file name: the time in nanoseconds,
/// the process id and a sequence number, joined by `-`.
pub open spec fn file_suffix(timestamp_nanos: u128, process_id: u32, sequence: u64) -> Seq<char> {
    decimal(timestamp_nanos as nat) + seq!['-'] + decimal(process_id as nat) + seq!['-'] + decimal(
        sequence as nat,
    )
}

/// Builds the unique part of a new settings file name.
pub fn unique_file_suffix(timestamp_nanos: u128, process_id: u32, sequence: u64) -> (r: String)
    ensures
        r@ == file_suffix(timestamp_nanos, process_id, sequence),
{
    let mut r = decimal_string(timestamp_nanos);
    push_char(&mut r, '-');
    let p = decimal_string(process_id as u128);
    push_str(&mut r, p.as_str());
    push_char(&mut r, '-');
    let s = decimal_string(sequence as u128);
    push_str(&mut r, s.as_str());
    proof {
        assert(r@ =~= file_suffix(timestamp_nanos, process_id, sequence));
    }
    r
}

/// The name of a temporary settings file: `settings.<suffix>.tmp`.
pub fn temporary_settings_file_name(suffix: &str) -> (r: String)
    ensures
        r@ == "settings."@ + suffix@ + ".tmp"@,
{
    let mut r = joined("settings.", suffix);
    push_str(&mut r, ".tmp");
    r
}

/// The name of a backup of an unreadable settings file:
/// `settings.corrupted-<suffix>.json`.
pub fn corrupted_settings_file_name(suffix: &str) -> (r: String)
    ensures
        r@ == "settings.corrupted-"@ + suffix@ + ".json"@,
{
    let mut r = joined("settings.corrupted-", suffix);
    push_str(&mut r, ".json");
    r
}

/// The number of backup names in `names` that order after `name`.
pub open spec fn later_backups(names: Seq<Seq<char>>, name: Seq<char>) -> nat
    decreases names.len(),
{
    if names.len() == 0 {
        0
    } else {
        later_backups(names.drop_last(), name) + if is_backup_name(names.last()) && text_less(
            name,
            names.last(),
        ) {
            1nat
        } else {
            0nat
        }
    }
}

/// A backup is removed when at least three backups order after it: only
/// the three latest names (the names carry the time) are kept.
pub open spec fn removed_backup(names: Seq<Seq<char>>, name: Seq<char>) -> bool {
    is_backup_name(name) && later_backups(names, name) >= 3
}

pub open spec fn names_view(names: Seq<String>) -> Seq<Seq<char>> {
    Seq::new(names.len(), |i: int| names[i]@)
}

/// The backups to remove among the file names of the settings directory,
/// in directory order.
pub open spec fn backups_to_remove(names: Seq<Seq<char>>) -> Seq<Seq<char>> {
    names.filter(|n: Seq<char>| removed_backup(names, n))
}

/// The file names of the settings directory that pruning removes: every
/// backup of an unreadable settings file but the three latest.
pub fn prune_corrupted_settings_backups(names: &[String]) -> (r: Vec<String>)
    ensures
        names_view(r@) == backups_to_remove(names_view(names@)),
{
    let ghost all = names_view(names@);
    let mut backup: Vec<bool> = Vec::new();
    let mut i: usize = 0;
    while i < names.len()
        invariant
            i <= names@.len(),
            all == names_view(names@),
            backup@.len() == i,
            forall|j: int| 0 <= j < i ==> backup@[j] == is_backup_name(#[trigger] all[j]),
        decreases names.len() - i,
    {
        backup.push(is_corrupted_backup_file_name(names[i].as_str()));
        i += 1;
    }
    let mut r: Vec<String> = Vec::new();
    let mut i: usize = 0;
    while i < names.len()
        invariant
            i <= names@.len(),
            all == names_view(names@),
            backup@.len() == names@.len(),
            forall|j: int| 0 <= j < names@.len() ==> backup@[j] == is_backup_name(#[trigger] all[j]),
            names_view(r@) == all.take(i as int).filter(|n: Seq<char>| removed_backup(all, n)),
        decreases names.len() - i,
    {
        let mut remove = false;
        if backup[i] {
            let me = chars_of(names[i].as_str());
            let mut later: usize = 0;
            let mut j: usize = 0;
            while j < names.len()
                invariant
                    i < names@.len(),
                    j <= names@.len(),
                    all == names_view(names@),
                    backup@.len() == names@.len(),
                    forall|k: int| 0 <= k < names@.len() ==> backup@[k] == is_backup_name(#[trigger] all[k]),
                    me@ == all[i as int],
                    later as nat == later_backups(all.take(j as int), all[i as int]),
                    later <= j,
                decreases names.len() - j,
            {
                proof {
                    assert(all.take(j + 1).drop_last() =~= all.take(j as int));
                    assert(all.take(j + 1).last() == all[j as int]);
                }
                if backup[j] {
                    let other = chars_of(names[j].as_str());
                    if chars_less(me.as_slice(), other.as_slice()) {
                        later += 1;
                    }
                }
                j += 1;
            }
            proof {
                assert(all.take(names@.len() as int) =~= all);
            }
            remove = later >= 3;
        }
        let ghost before = r@;
        if remove {
            r.push(names[i].clone());
        }
        proof {
            let f = |n: Seq<char>| removed_backup(all, n);
            assert(all.take(i + 1).drop_last() =~= all.take(i as int));
            reveal(Seq::filter);
            assert(all.take(i + 1).filter(f) == {
                let rest = all.take(i as int).filter(f);
                if f(all[i as int]) { rest.push(all[i as int]) } else { rest }
            });
            assert(names_view(r@) =~= all.take(i + 1).filter(f));
        }
        i += 1;
    }
    proof {
        assert(all.take(names@.len() as int) =~= all);
    }
    r
}

/// The distinct backup names in `names` that order after `name`.
pub open spec fn later_backup_set(names: Seq<Seq<char>>, name: Seq<char>) -> Set<Seq<char>> {
    names.to_set().filter(|x: Seq<char>| is_backup_name(x) && text_less(name, x))
}

/// The distinct backup names that pruning keeps.
pub open spec fn kept_backups(names: Seq<Seq<char>>) -> Set<Seq<char>> {
    names.to_set().filter(|x: Seq<char>| is_backup_name(x) && !removed_backup(names, x))
}

// ---------------------------------------------------------------------------
// Laws.
// ---------------------------------------------------------------------------

/// The upper case of a hexadecimal digit is a hexadecimal digit that is its
/// own upper case, and no whitespace.
proof fn lemma_upper_hex(c: char)
    requires
        is_ascii_hex_digit(c),
    ensures
        is_ascii_hex_digit(ascii_upper(c)),
        ascii_upper(ascii_upper(c)) == ascii_upper(c),
        !is_unicode_whitespace(ascii_upper(c)),
{
}

/// A normalised colour normalises to itself.
proof fn lemma_color_idempotent(c: Seq<char>)
    ensures
        normalized_color(normalized_color(c)) == normalized_color(c),
        hex_color_of(normalized_color(c)) == Some(normalized_color(c)),
{
    let v = normalized_color(c);
    if let Some(h) = hex_color_of(c) {
        let t = trim_seq(c);
        let d = t.subrange(1, 7);
        assert forall|i: int| 1 <= i < 7 implies is_ascii_hex_digit(#[trigger] v[i]) && v[i]
            == ascii_upper(d[i - 1]) by {
            assert(is_ascii_hex_digit(t[i]));
            lemma_upper_hex(d[i - 1]);
        }
        assert(v[0] == '#');
        lemma_upper_hex(d[5]);
        lemma_trim_of_trimmed(v);
        assert(ascii_upper_seq(v.subrange(1, 7)) =~= v.subrange(1, 7)) by {
            assert forall|i: int| 0 <= i < 6 implies #[trigger] ascii_upper_seq(v.subrange(1, 7))[i]
                == v.subrange(1, 7)[i] by {
                lemma_upper_hex(d[i]);
            }
        }
        assert(seq!['#'] + v.subrange(1, 7) =~= v);
    } else {
        reveal_strlit("#0078D4");
        assert(v == "#0078D4"@);
        lemma_trim_of_trimmed(v);
        assert(ascii_upper_seq(v.subrange(1, 7)) =~= v.subrange(1, 7));
        assert(seq!['#'] + v.subrange(1, 7) =~= v);
    }
}

/// A normalised target monitor normalises to itself.
proof fn lemma_monitor_idempotent(m: Seq<char>)
    ensures
        normalized_monitor(normalized_monitor(m)) == normalized_monitor(m),
        normalized_monitor(m).len() > 0,
        trim_seq(normalized_monitor(m)) == normalized_monitor(m),
{
    lemma_trim_idempotent(m);
    if trim_seq(m).len() == 0 {
        reveal_strlit("primary");
        lemma_trim_of_trimmed("primary"@);
    }
}

/// Normalising settings twice changes nothing the first time did not: a
/// second `prepare_for_persistence` reports no change, so a file once
/// written back is not written again.
pub proof fn lemma_normalization_idempotent(m: SettingsModel)
    ensures
        normalized_settings(normalized_settings(m)) == normalized_settings(m),
{
    lemma_color_idempotent(m.custom_progress_color);
    lemma_monitor_idempotent(m.target_monitor);
}

/// Prepared settings have the current schema, every bounded value within
/// its bounds, a trimmed non-empty target monitor, and a colour of the form
/// `#RRGGBB` with upper-case hexadecimal digits.
pub proof fn lemma_normalized_bounds(m: SettingsModel)
    ensures
        normalized_settings(m).schema_version == 12,
        200 <= normalized_settings(m).max_width <= 520,
        10 <= normalized_settings(m).title_scroll_speed <= 100,
        -200 <= normalized_settings(m).manual_offset <= 200,
        normalized_settings(m).target_monitor.len() > 0,
        trim_seq(normalized_settings(m).target_monitor) == normalized_settings(m).target_monitor,
        hex_color_of(normalized_settings(m).custom_progress_color) == Some(
            normalized_settings(m).custom_progress_color,
        ),
{
    lemma_color_idempotent(m.custom_progress_color);
    lemma_monitor_idempotent(m.target_monitor);
}

/// The default settings are already normalised: preparing them changes
/// nothing.
pub proof fn lemma_defaults_normalized()
    ensures
        normalized_settings(default_settings()) == default_settings(),
{
    reveal_strlit("primary");
    reveal_strlit("#0078D4");
    lemma_trim_of_trimmed("primary"@);
    lemma_color_idempotent("#0078D4"@);
    let v: Seq<char> = "#0078D4"@;
    lemma_trim_of_trimmed(v);
    assert(hex_color_of(v) == Some(v)) by {
        assert(ascii_upper_seq(v.subrange(1, 7)) =~= v.subrange(1, 7));
        assert(seq!['#'] + v.subrange(1, 7) =~= v);
    }
}

/// The count that decides removal is at least the number of distinct later
/// backup names (a name listed twice counts twice).
proof fn lemma_later_backups_count(names: Seq<Seq<char>>, name: Seq<char>)
    ensures
        later_backup_set(names, name).finite(),
        later_backup_set(names, name).len() <= later_backups(names, name),
    decreases names.len(),
{
    broadcast use vstd::seq_lib::seq_to_set_is_finite, vstd::set::group_set_axioms;

    let q = |x: Seq<char>| is_backup_name(x) && text_less(name, x);
    names.to_set().lemma_len_filter(q);
    if names.len() == 0 {
        assert(later_backup_set(names, name) =~= Set::empty());
    } else {
        let p = names.drop_last();
        let l = names.last();
        lemma_later_backups_count(p, name);
        assert(names =~= p.push(l));
        p.lemma_push_to_set_commute(l);
        if q(l) {
            assert(later_backup_set(names, name) =~= later_backup_set(p, name).insert(l));
        } else {
            assert(later_backup_set(names, name) =~= later_backup_set(p, name));
        }
    }
}

/// A finite non-empty set of texts has a first one in text order.
proof fn lemma_first_text(s: Set<Seq<char>>) -> (m: Seq<char>)
    requires
        s.finite(),
        s.len() > 0,
    ensures
        s.contains(m),
        forall|x: Seq<char>| #[trigger] s.contains(x) && x != m ==> text_less(m, x),
    decreases s.len(),
{
    broadcast use vstd::set::group_set_axioms;

    let a = s.choose();
    let rest = s.remove(a);
    if rest.len() == 0 {
        vstd::set_lib::lemma_set_empty_equivalency_len(rest);
        assert forall|x: Seq<char>| #[trigger] s.contains(x) && x != a implies text_less(a, x) by {
            assert(rest.contains(x));
        }
        a
    } else {
        let m = lemma_first_text(rest);
        if text_less(a, m) {
            assert forall|x: Seq<char>| #[trigger] s.contains(x) && x != a implies text_less(a, x) by {
                if x != m {
                    assert(rest.contains(x));
                    lemma_text_less_transitive(a, m, x);
                }
            }
            a
        } else {
            lemma_text_less_total(a, m);
            assert forall|x: Seq<char>| #[trigger] s.contains(x) && x != m implies text_less(m, x) by {
                if x != a {
                    assert(rest.contains(x));
                }
            }
            m
        }
    }
}

/// Pruning keeps at most three backups of unreadable settings files: at
/// most three distinct backup names are not removed, whatever the settings
/// directory holds.
pub proof fn lemma_at_most_three_backups_kept(names: Seq<Seq<char>>)
    ensures
        kept_backups(names).finite(),
        kept_backups(names).len() <= 3,
{
    broadcast use vstd::seq_lib::seq_to_set_is_finite, vstd::set::group_set_axioms;

    let k = kept_backups(names);
    vstd::set_lib::lemma_len_subset(k, names.to_set());
    if k.len() > 3 {
        let m = lemma_first_text(k);
        let later = later_backup_set(names, m);
        lemma_later_backups_count(names, m);
        assert(k.remove(m).subset_of(later)) by {
            assert forall|x: Seq<char>| #[trigger] k.remove(m).contains(x) implies later.contains(x) by {
                assert(k.contains(x));
            }
        }
        vstd::set_lib::lemma_len_subset(k.remove(m), later);
        assert(k.contains(m));
        assert(!removed_backup(names, m));
    }
}

/// In a directory listing (no name twice), the count that decides removal
/// is exactly the number of later backup names.
proof fn lemma_later_backups_exact(names: Seq<Seq<char>>, name: Seq<char>)
    requires
        names.no_duplicates(),
    ensures
        later_backup_set(names, name).finite(),
        later_backup_set(names, name).len() == later_backups(names, name),
    decreases names.len(),
{
    broadcast use vstd::seq_lib::seq_to_set_is_finite, vstd::set::group_set_axioms;

    let q = |x: Seq<char>| is_backup_name(x) && text_less(name, x);
    names.to_set().lemma_len_filter(q);
    if names.len() == 0 {
        assert(later_backup_set(names, name) =~= Set::empty());
    } else {
        let p = names.drop_last();
        let l = names.last();
        assert(names =~= p.push(l));
        assert(p.no_duplicates()) by {
            assert forall|i: int, j: int| 0 <= i < p.len() && 0 <= j < p.len() && i != j implies p[i]
                != p[j] by {
                assert(p[i] == names[i] && p[j] == names[j]);
            }
        }
        assert(!p.contains(l)) by {
            if p.contains(l) {
                let i = choose|i: int| 0 <= i < p.len() && p[i] == l;
                assert(names[i] == names[names.len() - 1]);
            }
        }
        lemma_later_backups_exact(p, name);
        p.to_set().lemma_len_filter(q);
        p.lemma_push_to_set_commute(l);
        if q(l) {
            assert(later_backup_set(names, name) =~= later_backup_set(p, name).insert(l));
            assert(!later_backup_set(p, name).contains(l));
        } else {
            assert(later_backup_set(names, name) =~= later_backup_set(p, name));
        }
    }
}

/// A finite non-empty set of texts has a last one in text order.
proof fn lemma_last_text(s: Set<Seq<char>>) -> (m: Seq<char>)
    requires
        s.finite(),
        s.len() > 0,
    ensures
        s.contains(m),
        forall|x: Seq<char>| #[trigger] s.contains(x) && x != m ==> text_less(x, m),
    decreases s.len(),
{
    broadcast use vstd::set::group_set_axioms;

    let a = s.choose();
    let rest = s.remove(a);
    if rest.len() == 0 {
        vstd::set_lib::lemma_set_empty_equivalency_len(rest);
        assert forall|x: Seq<char>| #[trigger] s.contains(x) && x != a implies text_less(x, a) by {
            assert(rest.contains(x));
        }
        a
    } else {
        let m = lemma_last_text(rest);
        if text_less(m, a) {
            assert forall|x: Seq<char>| #[trigger] s.contains(x) && x != a implies text_less(x, a) by {
                if x != m {
                    assert(rest.contains(x));
                    lemma_text_less_transitive(x, m, a);
                }
            }
            a
        } else {
            lemma_text_less_total(a, m);
            assert forall|x: Seq<char>| #[trigger] s.contains(x) && x != m implies text_less(x, m) by {
                if x != a {
                    assert(rest.contains(x));
                }
            }
            m
        }
    }
}

/// The distinct backup names in `names`.
pub open spec fn backup_names(names: Seq<Seq<char>>) -> Set<Seq<char>> {
    names.to_set().filter(|x: Seq<char>| is_backup_name(x))
}

/// A backup name with at most two backup names (those of `higher`) after it
/// is kept.
proof fn lemma_kept_below(names: Seq<Seq<char>>, m: Seq<char>, higher: Set<Seq<char>>)
    requires
        names.no_duplicates(),
        backup_names(names).contains(m),
        higher.finite(),
        higher.len() <= 2,
        forall|x: Seq<char>| #[trigger] backup_names(names).contains(x) && text_less(m, x)
            ==> higher.contains(x),
    ensures
        kept_backups(names).contains(m),
{
    let later = later_backup_set(names, m);
    lemma_later_backups_exact(names, m);
    assert(later.subset_of(higher)) by {
        assert forall|x: Seq<char>| #[trigger] later.contains(x) implies higher.contains(x) by {
            assert(backup_names(names).contains(x));
        }
    }
    vstd::set_lib::lemma_len_subset(later, higher);
}

/// In a directory listing with at least three backups of unreadable
/// settings files, pruning keeps exactly three of them.
pub proof fn lemma_exactly_three_backups_kept(names: Seq<Seq<char>>)
    requires
        names.no_duplicates(),
        backup_names(names).len() >= 3,
    ensures
        kept_backups(names).len() == 3,
{
    broadcast use vstd::seq_lib::seq_to_set_is_finite, vstd::set::group_set_axioms;

    let b = backup_names(names);
    names.to_set().lemma_len_filter(|x: Seq<char>| is_backup_name(x));
    let m1 = lemma_last_text(b);
    let b1 = b.remove(m1);
    let m2 = lemma_last_text(b1);
    let b2 = b1.remove(m2);
    let m3 = lemma_last_text(b2);
    lemma_text_less_irreflexive(m1);
    lemma_text_less_irreflexive(m2);
    lemma_text_less_irreflexive(m3);
    assert forall|x: Seq<char>| #[trigger] b.contains(x) && text_less(m1, x) implies Set::<
        Seq<char>,
    >::empty().contains(x) by {
        if x != m1 {
            lemma_text_less_transitive(m1, x, m1);
        }
    }
    lemma_kept_below(names, m1, Set::empty());
    assert forall|x: Seq<char>| #[trigger] b.contains(x) && text_less(m2, x) implies set![
        m1,
    ].contains(x) by {
        if x != m1 && x != m2 {
            assert(b1.contains(x));
            lemma_text_less_transitive(m2, x, m2);
        }
    }
    lemma_kept_below(names, m2, set![m1]);
    assert forall|x: Seq<char>| #[trigger] b.contains(x) && text_less(m3, x) implies set![
        m1,
        m2,
    ].contains(x) by {
        if x != m1 && x != m2 && x != m3 {
            assert(b2.contains(x));
            lemma_text_less_transitive(m3, x, m3);
        }
    }
    assert(set![m1, m2].len() <= 2);
    lemma_kept_below(names, m3, set![m1, m2]);
    let three = set![m1, m2, m3];
    assert(three.len() == 3);
    lemma_at_most_three_backups_kept(names);
    assert(three.subset_of(kept_backups(names)));
    vstd::set_lib::lemma_len_subset(three, kept_backups(names));
}

} // verus!
