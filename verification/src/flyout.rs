//! The application volume flyout: its accent colour, the request that waits
//! until its window is ready, and where it is placed next to the bar.
use vstd::prelude::*;

use crate::text::{chars_of, is_ascii_hex_digit, is_hex_digit_char};

verus! {

/// A colour of the form `#` and six hexadecimal digits.
pub open spec fn is_accent_color(color: Seq<char>) -> bool {
    color.len() == 7 && color[0] == '#' && forall|i: int| 1 <= i < 7 ==> is_ascii_hex_digit(
        #[trigger] color[i],
    )
}

/// Checks the accent colour of a flyout request.
pub fn validate_accent_color(color: &str) -> (r: Result<(), String>)
    ensures
        is_accent_color(color@) ==> r is Ok,
        !is_accent_color(color@) ==> (r matches Err(e) && e@ == "音量浮层强调色无效"@),
{
    let c = chars_of(color);
    if c.len() != 7 || c[0] != '#' {
        return Err("音量浮层强调色无效".to_owned());
    }
    let mut i: usize = 1;
    while i < 7
        invariant
            1 <= i <= 7,
            c@ == color@,
            c@.len() == 7,
            forall|j: int| 1 <= j < i ==> is_ascii_hex_digit(#[trigger] c@[j]),
        decreases 7 - i,
    {
        if !is_hex_digit_char(c[i]) {
            return Err("音量浮层强调色无效".to_owned());
        }
        i += 1;
    }
    Ok(())
}

/// What to do after a request to show the flyout.
#[derive(Debug, Clone, Copy, PartialEq, Eq, Structural)]
pub enum FlyoutAction {
    /// Create the flyout window; it shows the request once it is ready.
    CreateWindow,
    /// Place and show the flyout for the waiting request.
    ApplyPending,
    /// The window is being created; the request waits.
    Wait,
}

/// Whether the flyout window is ready, and the request waiting to be shown.
#[derive(Debug)]
pub struct FlyoutState<T> {
    pub ready: bool,
    pub pending: Option<T>,
}

impl<T> FlyoutState<T> {
    /// No window and no request.
    pub fn new() -> (r: FlyoutState<T>)
        ensures
            !r.ready,
            r.pending is None,
    {
        FlyoutState { ready: false, pending: None }
    }

    /// A new request replaces any waiting one. Without a window, one is
    /// created (and is not ready yet); with a ready window, the request is
    /// shown; else it waits for the window.
    pub fn show(&mut self, request: T, window_exists: bool) -> (r: FlyoutAction)
        ensures
            final(self).pending == Some(request),
            !window_exists ==> r == FlyoutAction::CreateWindow && !final(self).ready,
            window_exists && old(self).ready ==> r == FlyoutAction::ApplyPending && final(self).ready,
            window_exists && !old(self).ready ==> r == FlyoutAction::Wait && !final(self).ready,
    {
        self.pending = Some(request);
        if !window_exists {
            self.ready = false;
            return FlyoutAction::CreateWindow;
        }
        if self.ready {
            FlyoutAction::ApplyPending
        } else {
            FlyoutAction::Wait
        }
    }

    /// The window reports that it is ready: the waiting request is shown.
    pub fn mark_ready(&mut self) -> (r: FlyoutAction)
        ensures
            final(self).ready,
            final(self).pending == old(self).pending,
            r == FlyoutAction::ApplyPending,
    {
        self.ready = true;
        FlyoutAction::ApplyPending
    }

    /// Hides the flyout: the waiting request is dropped.
    pub fn dismiss(&mut self)
        ensures
            final(self).pending is None,
            final(self).ready == old(self).ready,
    {
        self.pending = None;
    }
}

/// The work area of the monitor that shows the bar.
#[derive(Debug, Clone, Copy, PartialEq, Eq, Structural)]
pub struct MonitorArea {
    pub x: i32,
    pub y: i32,
    pub width: u32,
    pub height: u32,
}

/// The flyout's position on the monitor: kept horizontally on it, and
/// below the bar where there is no room above it.
pub open spec fn flyout_position_of(
    x: int,
    y: int,
    flyout_width: int,
    flyout_height: int,
    gap: int,
    bar_bottom: int,
    monitor: Option<MonitorArea>,
) -> (int, int) {
    match monitor {
        None => (x, y),
        Some(m) => {
            let right = m.x + m.width;
            let bottom = m.y + m.height;
            let max_x = if right - flyout_width >= m.x { right - flyout_width } else { m.x as int };
            let cx = if x < m.x { m.x as int } else if x > max_x { max_x } else { x };
            let cy = if y < m.y {
                let below = bar_bottom + gap;
                if below <= bottom - flyout_height { below } else { bottom - flyout_height }
            } else {
                y
            };
            (cx, cy)
        },
    }
}

/// Places the flyout, given its position above the bar, its size and gap
/// in physical pixels, and the monitor where it is known.
pub fn place_flyout(
    x: i32,
    y: i32,
    flyout_width: u32,
    flyout_height: u32,
    gap: i32,
    bar_bottom: i32,
    monitor: Option<MonitorArea>,
) -> (r: (i32, i32))
    requires
        flyout_width <= i32::MAX,
        flyout_height <= i32::MAX,
        monitor matches Some(m) ==> (m.width <= i32::MAX && m.height <= i32::MAX && i32::MIN
            <= m.x + m.width <= i32::MAX && i32::MIN <= m.y
            + m.height <= i32::MAX && i32::MIN <= m.x + m.width - flyout_width <= i32::MAX
            && i32::MIN <= m.y + m.height - flyout_height <= i32::MAX && i32::MIN <= bar_bottom
            + gap <= i32::MAX),
    ensures
        (r.0 as int, r.1 as int) == flyout_position_of(
            x as int,
            y as int,
            flyout_width as int,
            flyout_height as int,
            gap as int,
            bar_bottom as int,
            monitor,
        ),
{
    match monitor {
        None => (x, y),
        Some(m) => {
            let right = m.x + m.width as i32;
            let bottom = m.y + m.height as i32;
            let shifted = right - flyout_width as i32;
            let max_x = if shifted >= m.x { shifted } else { m.x };
            let cx = if x < m.x { m.x } else if x > max_x { max_x } else { x };
            let cy = if y < m.y {
                let below = bar_bottom + gap;
                let lowest = bottom - flyout_height as i32;
                if below <= lowest { below } else { lowest }
            } else {
                y
            };
            (cx, cy)
        },
    }
}

} // verus!
