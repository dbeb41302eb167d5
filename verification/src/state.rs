//! The application state that lives for the whole process: the version,
//! the settings in use, the bar's visibility and the revision of the width
//! animation in progress.
use vstd::prelude::*;

use crate::settings::{AppSettings, SettingsModel};

verus! {

/// The application state.
#[derive(Debug)]
pub struct AppState {
    pub application_version: String,
    pub settings: AppSettings,
    pub bar_width_animation_revision: u64,
    pub bar_enabled_by_user: bool,
    pub bar_media_available: bool,
    pub bar_target_width: Option<u32>,
}

/// `v + 1`, wrapping as an atomic counter does.
pub open spec fn wrapping_next(v: u64) -> u64 {
    if v == u64::MAX {
        0
    } else {
        (v + 1) as u64
    }
}

/// The logical width of the bar: its content width (rounded up), within
/// the settings' bounds.
pub open spec fn bar_width_of(rounded_width: u32, minimum: u32, maximum: u32) -> u32 {
    if rounded_width < minimum {
        minimum
    } else if rounded_width > maximum {
        maximum
    } else {
        rounded_width
    }
}

/// The bounds of the bar's logical width: in lyrics mode exactly the width
/// of the free span; otherwise from one pixel up to the settings' largest
/// width (at least one).
pub fn bar_width_bounds(max_width: u32, available_logical_width: Option<u32>) -> (r: (u32, u32))
    ensures
        match available_logical_width {
            Some(w) => r == (w, w),
            None => r == (1u32, if max_width >= 1 { max_width } else { 1u32 }),
        },
        r.0 <= r.1,
{
    match available_logical_width {
        Some(w) => (w, w),
        None => (1, if max_width >= 1 { max_width } else { 1 }),
    }
}

/// The target width of the bar for a content width rounded up to whole
/// logical pixels.
pub fn bar_target_width(rounded_width: u32, minimum: u32, maximum: u32) -> (r: u32)
    requires
        minimum <= maximum,
    ensures
        r == bar_width_of(rounded_width, minimum, maximum),
        minimum <= r <= maximum,
{
    if rounded_width < minimum {
        minimum
    } else if rounded_width > maximum {
        maximum
    } else {
        rounded_width
    }
}

impl AppState {
    /// The state at start: the bar shown, no width measured, no animation.
    pub fn new(application_version: String, settings: AppSettings) -> (r: AppState)
        ensures
            r.application_version@ == application_version@,
            r.settings@ == settings@,
            r.bar_width_animation_revision == 0,
            r.bar_enabled_by_user,
            r.bar_media_available,
            r.bar_target_width is None,
    {
        AppState {
            application_version,
            settings,
            bar_width_animation_revision: 0,
            bar_enabled_by_user: true,
            bar_media_available: true,
            bar_target_width: None,
        }
    }

    /// The application version.
    pub fn application_version(&self) -> (r: &str)
        ensures
            r@ == self.application_version@,
    {
        self.application_version.as_str()
    }

    /// A copy of the settings in use.
    pub fn settings(&self) -> (r: AppSettings)
        ensures
            r@ == self.settings@,
    {
        self.settings.copy()
    }

    /// Replaces the settings in use (after they were saved).
    pub fn replace_settings(&mut self, settings: AppSettings) -> (r: AppSettings)
        ensures
            final(self).settings@ == settings@,
            r@ == settings@,
            final(self).bar_enabled_by_user == old(self).bar_enabled_by_user,
            final(self).bar_media_available == old(self).bar_media_available,
            final(self).bar_width_animation_revision == old(self).bar_width_animation_revision,
    {
        let copy = settings.copy();
        self.settings = settings;
        copy
    }

    /// Records the bar's target width.
    pub fn record_bar_width(&mut self, target_width: u32)
        ensures
            final(self).bar_target_width == Some(target_width),
            final(self).settings@ == old(self).settings@,
            final(self).bar_enabled_by_user == old(self).bar_enabled_by_user,
            final(self).bar_media_available == old(self).bar_media_available,
            final(self).bar_width_animation_revision == old(self).bar_width_animation_revision,
    {
        self.bar_target_width = Some(target_width);
    }

    /// Starts a new width animation: its revision is the next one, and any
    /// older animation sees that it is out of date.
    pub fn begin_bar_width_animation(&mut self) -> (r: u64)
        ensures
            r == wrapping_next(old(self).bar_width_animation_revision),
            final(self).bar_width_animation_revision == r,
            final(self).settings@ == old(self).settings@,
            final(self).bar_enabled_by_user == old(self).bar_enabled_by_user,
            final(self).bar_media_available == old(self).bar_media_available,
    {
        self.bar_width_animation_revision = self.bar_width_animation_revision.wrapping_add(1);
        self.bar_width_animation_revision
    }

    /// Whether the animation of `revision` is still the latest.
    pub fn animation_is_current(&self, revision: u64) -> (r: bool)
        ensures
            r == (revision == self.bar_width_animation_revision),
    {
        revision == self.bar_width_animation_revision
    }

    /// Whether the user has the bar enabled in this run.
    pub fn is_bar_visible(&self) -> (r: bool)
        ensures
            r == self.bar_enabled_by_user,
    {
        self.bar_enabled_by_user
    }

    /// Flips the user's choice and returns the new one.
    pub fn toggle_bar_visibility(&mut self) -> (r: bool)
        ensures
            final(self).bar_enabled_by_user == !old(self).bar_enabled_by_user,
            r == final(self).bar_enabled_by_user,
            final(self).settings@ == old(self).settings@,
            final(self).bar_media_available == old(self).bar_media_available,
            final(self).bar_width_animation_revision == old(self).bar_width_animation_revision,
    {
        self.bar_enabled_by_user = !self.bar_enabled_by_user;
        self.bar_enabled_by_user
    }

    /// Records whether there is media to show and returns the previous
    /// value.
    pub fn set_bar_media_available(&mut self, available: bool) -> (r: bool)
        ensures
            r == old(self).bar_media_available,
            final(self).bar_media_available == available,
            final(self).settings@ == old(self).settings@,
            final(self).bar_enabled_by_user == old(self).bar_enabled_by_user,
            final(self).bar_width_animation_revision == old(self).bar_width_animation_revision,
    {
        let previous = self.bar_media_available;
        self.bar_media_available = available;
        previous
    }

    /// The bar is shown when the user has it enabled and there is media.
    pub fn should_show_bar(&self) -> (r: bool)
        ensures
            r == (self.bar_enabled_by_user && self.bar_media_available),
    {
        self.bar_enabled_by_user && self.bar_media_available
    }
}

/// A new width animation makes every earlier one out of date: the revision
/// it draws differs from the one before.
pub proof fn lemma_new_animation_supersedes(revision: u64)
    ensures
        wrapping_next(revision) != revision,
{
}

/// How to bring the Windows start-up entry in line with the settings: none
/// where it already matches, else enable (`true`) or disable (`false`).
pub fn autostart_change(is_enabled: bool, should_launch_on_startup: bool) -> (r: Option<bool>)
    ensures
        is_enabled == should_launch_on_startup ==> r is None,
        is_enabled != should_launch_on_startup ==> r == Some(should_launch_on_startup),
{
    if is_enabled == should_launch_on_startup {
        None
    } else {
        Some(should_launch_on_startup)
    }
}

/// Whether a request to exit is refused: the last window closing (Explorer
/// destroys the bar when it restarts) asks without an exit code; only the
/// tray's exit, which carries one, ends the process.
pub fn should_prevent_exit(code: Option<i32>) -> (r: bool)
    ensures
        r == code is None,
{
    code.is_none()
}

/// The start-up milestones that are logged once.
#[derive(Debug, Clone, Copy, PartialEq, Eq, Structural)]
pub enum StartupMilestone {
    SetupComplete,
    BarWebviewCreated,
}

/// The elapsed time at each milestone, once reached, in microseconds since
/// the process started.
#[derive(Debug, Clone, Copy, PartialEq, Eq, Structural)]
pub struct StartupMilestones {
    pub started: bool,
    pub setup_complete: Option<u64>,
    pub bar_webview_created: Option<u64>,
}

impl StartupMilestones {
    /// Nothing recorded; the start is marked by `begin`.
    pub fn new() -> (r: StartupMilestones)
        ensures
            !r.started,
            r.setup_complete is None,
            r.bar_webview_created is None,
    {
        StartupMilestones { started: false, setup_complete: None, bar_webview_created: None }
    }

    /// Marks the process start.
    pub fn begin(&mut self)
        ensures
            final(self).started,
            final(self).setup_complete == old(self).setup_complete,
            final(self).bar_webview_created == old(self).bar_webview_created,
    {
        self.started = true;
    }

    /// Records a milestone the first time it is reached after the start;
    /// says whether it was recorded now (and should be logged).
    pub fn mark(&mut self, milestone: StartupMilestone, elapsed_us: u64) -> (r: bool)
        ensures
            final(self).started == old(self).started,
            r == (old(self).started && match milestone {
                StartupMilestone::SetupComplete => old(self).setup_complete is None,
                StartupMilestone::BarWebviewCreated => old(self).bar_webview_created is None,
            }),
            r && milestone == StartupMilestone::SetupComplete ==> final(self).setup_complete
                == Some(elapsed_us),
            r && milestone == StartupMilestone::BarWebviewCreated ==> final(self).bar_webview_created
                == Some(elapsed_us),
            !(r && milestone == StartupMilestone::SetupComplete) ==> final(self).setup_complete
                == old(self).setup_complete,
            !(r && milestone == StartupMilestone::BarWebviewCreated) ==> final(self).bar_webview_created
                == old(self).bar_webview_created,
    {
        if !self.started {
            return false;
        }
        match milestone {
            StartupMilestone::SetupComplete => {
                if self.setup_complete.is_some() {
                    return false;
                }
                self.setup_complete = Some(elapsed_us);
                true
            },
            StartupMilestone::BarWebviewCreated => {
                if self.bar_webview_created.is_some() {
                    return false;
                }
                self.bar_webview_created = Some(elapsed_us);
                true
            },
        }
    }
}

} // verus!
