//! The bar as a child window of the taskbar: its window styles, where it is
//! placed, and how a width change is animated.
use vstd::prelude::*;

use crate::layout::{
    saturating_add_i32, saturating_sub_i32, spec_clamp, spec_max, spec_saturate_i32,
    TaskbarRect, TaskbarRectError,
};

verus! {

/// `WS_POPUP`.
pub const WS_POPUP: u32 = 0x8000_0000;
/// `WS_CHILD`.
pub const WS_CHILD: u32 = 0x4000_0000;
/// `WS_CLIPSIBLINGS`.
pub const WS_CLIPSIBLINGS: u32 = 0x0400_0000;
/// `WS_CLIPCHILDREN`.
pub const WS_CLIPCHILDREN: u32 = 0x0200_0000;
/// `WS_EX_TRANSPARENT`.
pub const WS_EX_TRANSPARENT: u32 = 0x0000_0020;
/// `WS_EX_LAYERED`.
pub const WS_EX_LAYERED: u32 = 0x0008_0000;
/// `WS_EX_NOACTIVATE`.
pub const WS_EX_NOACTIVATE: u32 = 0x0800_0000;

/// Steps of a smooth width animation.
pub const WIDTH_ANIMATION_STEPS: i32 = 12;

/// The window style before and after turning the bar into a child window.
#[derive(Debug, Clone, Copy, PartialEq, Eq, Structural)]
pub struct WindowStyleSnapshot {
    pub before: u32,
    pub requested: u32,
    pub applied: u32,
}

/// The parent and client-area placement of the attached bar.
#[derive(Debug, Clone, Copy, PartialEq, Eq, Structural)]
pub struct ChildAttachmentSnapshot {
    pub parent: u64,
    pub client_x: i32,
    pub client_y: i32,
    pub width: i32,
    pub height: i32,
}

/// Why preparing, attaching or animating the bar failed.
#[derive(Debug, Clone, Copy, PartialEq, Eq, Structural)]
pub enum HostError {
    /// The requested width is not positive.
    TargetWidthNotPositive,
    /// Windows reports the window style as zero.
    StyleUnreadable,
    /// The style read back differs from the one written.
    StyleNotApplied { expected: u32, actual: u32 },
    /// The bar is larger than the taskbar.
    BarTooLarge { bar_width: i32, bar_height: i32, taskbar_width: i32, taskbar_height: i32 },
    /// The bar's screen x coordinate does not fit in an `i32`.
    XOverflow,
    /// The bar's screen y coordinate does not fit in an `i32`.
    YOverflow,
    /// The bar's parent is not the taskbar.
    ParentMismatch { expected: u64, actual: u64 },
    /// A size does not fit in a `u32`.
    SizeOutOfRange,
}

/// The style of a child window made from a top-level `style`: not a popup,
/// a child that clips its children and siblings.
pub open spec fn child_style_of(style: u32) -> u32 {
    (style & !WS_POPUP) | WS_CHILD | WS_CLIPCHILDREN | WS_CLIPSIBLINGS
}

/// The extended style of the bar: not click-through, never activated, and
/// layered (Windows 11 routes input to a child only when it is layered).
pub open spec fn child_extended_style_of(style: u32) -> u32 {
    (style & !WS_EX_TRANSPARENT) | WS_EX_NOACTIVATE | WS_EX_LAYERED
}

/// The child window style.
pub fn child_style(style: u32) -> (r: u32)
    ensures
        r == child_style_of(style),
        r & WS_POPUP == 0,
        r & WS_CHILD == WS_CHILD,
{
    let r = (style & !WS_POPUP) | WS_CHILD | WS_CLIPCHILDREN | WS_CLIPSIBLINGS;
    assert(r & 0x8000_0000u32 == 0 && r & 0x4000_0000u32 == 0x4000_0000u32) by (bit_vector)
        requires
            r == (style & !0x8000_0000u32) | 0x4000_0000u32 | 0x0200_0000u32 | 0x0400_0000u32,
    ;
    r
}

/// The child window extended style.
pub fn child_extended_style(style: u32) -> (r: u32)
    ensures
        r == child_extended_style_of(style),
        r & WS_EX_TRANSPARENT == 0,
        r & WS_EX_LAYERED == WS_EX_LAYERED,
        r & WS_EX_NOACTIVATE == WS_EX_NOACTIVATE,
{
    let r = (style & !WS_EX_TRANSPARENT) | WS_EX_NOACTIVATE | WS_EX_LAYERED;
    assert(r & 0x20u32 == 0 && r & 0x0008_0000u32 == 0x0008_0000u32 && r & 0x0800_0000u32
        == 0x0800_0000u32) by (bit_vector)
        requires
            r == (style & !0x20u32) | 0x0800_0000u32 | 0x0008_0000u32,
    ;
    r
}

/// A style read back from Windows; zero means it could not be read.
pub fn read_style(style: u32) -> (r: Result<u32, HostError>)
    ensures
        style == 0 ==> r == Err::<u32, HostError>(HostError::StyleUnreadable),
        style != 0 ==> r == Ok::<u32, HostError>(style),
{
    if style == 0 {
        Err(HostError::StyleUnreadable)
    } else {
        Ok(style)
    }
}

/// Checks that the style read back is the requested one.
pub fn check_style_applied(before: u32, requested: u32, applied: u32) -> (r: Result<
    WindowStyleSnapshot,
    HostError,
>)
    ensures
        applied == requested ==> r == Ok::<WindowStyleSnapshot, HostError>(
            WindowStyleSnapshot { before, requested, applied },
        ),
        applied != requested ==> r == Err::<WindowStyleSnapshot, HostError>(
            HostError::StyleNotApplied { expected: requested, actual: applied },
        ),
{
    if applied != requested {
        Err(HostError::StyleNotApplied { expected: requested, actual: applied })
    } else {
        Ok(WindowStyleSnapshot { before, requested, applied })
    }
}

/// The size of a window rectangle: positive width and height, each
/// fitting in an `i32`.
pub fn window_size(left: i32, top: i32, right: i32, bottom: i32) -> (r: Result<
    (i32, i32),
    TaskbarRectError,
>)
    ensures
        (right - left > i32::MAX || right - left < i32::MIN) ==> r == Err::<
            (i32, i32),
            TaskbarRectError,
        >(TaskbarRectError::WidthOverflow),
        i32::MIN <= right - left <= i32::MAX && (bottom - top > i32::MAX || bottom - top
            < i32::MIN) ==> r == Err::<(i32, i32), TaskbarRectError>(
            TaskbarRectError::HeightOverflow,
        ),
        i32::MIN <= right - left <= i32::MAX && i32::MIN <= bottom - top <= i32::MAX && (right
            - left <= 0 || bottom - top <= 0) ==> r == Err::<(i32, i32), TaskbarRectError>(
            TaskbarRectError::Empty { left, top, right, bottom },
        ),
        0 < right - left <= i32::MAX && 0 < bottom - top <= i32::MAX ==> r == Ok::<
            (i32, i32),
            TaskbarRectError,
        >(((right - left) as i32, (bottom - top) as i32)),
{
    let width = match right.checked_sub(left) {
        Some(w) => w,
        None => return Err(TaskbarRectError::WidthOverflow),
    };
    let height = match bottom.checked_sub(top) {
        Some(h) => h,
        None => return Err(TaskbarRectError::HeightOverflow),
    };
    if width <= 0 || height <= 0 {
        return Err(TaskbarRectError::Empty { left, top, right, bottom });
    }
    Ok((width, height))
}

/// Checks that the bar fits in the taskbar.
pub fn check_bar_fits(bar_width: i32, bar_height: i32, taskbar: &TaskbarRect) -> (r: Result<
    (),
    HostError,
>)
    ensures
        (bar_width > (taskbar@.right - taskbar@.left) || bar_height > (taskbar@.bottom - taskbar@.top)) ==> r == Err::<(), HostError>(
            HostError::BarTooLarge {
                bar_width,
                bar_height,
                taskbar_width: (taskbar@.right - taskbar@.left) as i32,
                taskbar_height: (taskbar@.bottom - taskbar@.top) as i32,
            },
        ),
        !(bar_width > (taskbar@.right - taskbar@.left) || bar_height > (taskbar@.bottom - taskbar@.top)) ==> r is Ok,
{
    let tw = taskbar.width();
    let th = taskbar.height();
    if bar_width > tw || bar_height > th {
        Err(
            HostError::BarTooLarge {
                bar_width,
                bar_height,
                taskbar_width: tw,
                taskbar_height: th,
            },
        )
    } else {
        Ok(())
    }
}

/// Rust's `/` on integers: division rounding toward zero.
pub open spec fn div_toward_zero(a: int, b: int) -> int {
    if a >= 0 {
        a / b
    } else {
        -((-a) / b)
    }
}

/// The coordinate that centres an extent of `size` in one of `outer_size`
/// starting at `outer_start`.
pub open spec fn centred(outer_start: int, outer_size: int, size: int) -> int {
    outer_start + div_toward_zero(outer_size - size, 2)
}

fn centre(outer_start: i32, outer_size: i32, size: i32) -> (r: Option<i32>)
    requires
        0 < size <= outer_size,
    ensures
        match r {
            Some(v) => v == centred(outer_start as int, outer_size as int, size as int),
            None => !(i32::MIN <= centred(outer_start as int, outer_size as int, size as int)
                <= i32::MAX),
        },
{
    outer_start.checked_add((outer_size - size) / 2)
}

/// The screen y coordinate that centres the bar vertically in the taskbar.
pub fn bar_screen_y(taskbar: &TaskbarRect, bar_height: i32) -> (r: Result<i32, HostError>)
    requires
        0 < bar_height <= (taskbar@.bottom - taskbar@.top),
    ensures
        match r {
            Ok(y) => y == centred(taskbar@.top as int, (taskbar@.bottom - taskbar@.top), bar_height as int),
            Err(e) => e == HostError::YOverflow && !(i32::MIN <= centred(
                taskbar@.top as int,
                (taskbar@.bottom - taskbar@.top),
                bar_height as int,
            ) <= i32::MAX),
        },
{
    match centre(taskbar.top(), taskbar.height(), bar_height) {
        Some(y) => Ok(y),
        None => Err(HostError::YOverflow),
    }
}

/// The screen position that centres the bar in the taskbar.
pub fn centred_position(taskbar: &TaskbarRect, bar_width: i32, bar_height: i32) -> (r: Result<
    (i32, i32),
    HostError,
>)
    requires
        0 < bar_width <= (taskbar@.right - taskbar@.left),
        0 < bar_height <= (taskbar@.bottom - taskbar@.top),
    ensures
        match r {
            Ok((x, y)) => x == centred(taskbar@.left as int, (taskbar@.right - taskbar@.left), bar_width as int)
                && y == centred(taskbar@.top as int, (taskbar@.bottom - taskbar@.top), bar_height as int),
            Err(e) => (e == HostError::XOverflow && !(i32::MIN <= centred(
                taskbar@.left as int,
                (taskbar@.right - taskbar@.left),
                bar_width as int,
            ) <= i32::MAX)) || (e == HostError::YOverflow && !(i32::MIN <= centred(
                taskbar@.top as int,
                (taskbar@.bottom - taskbar@.top),
                bar_height as int,
            ) <= i32::MAX)),
        },
{
    let x = match centre(taskbar.left(), taskbar.width(), bar_width) {
        Some(x) => x,
        None => return Err(HostError::XOverflow),
    };
    let y = bar_screen_y(taskbar, bar_height)?;
    Ok((x, y))
}

/// Checks the bar's parent after attaching it.
pub fn check_parent(expected: u64, actual: u64) -> (r: Result<(), HostError>)
    ensures
        expected == actual ==> r is Ok,
        expected != actual ==> r == Err::<(), HostError>(
            HostError::ParentMismatch { expected, actual },
        ),
{
    if expected != actual {
        Err(HostError::ParentMismatch { expected, actual })
    } else {
        Ok(())
    }
}

/// A window size in physical pixels as unsigned values.
pub fn host_size(width: i32, height: i32) -> (r: Result<(u32, u32), HostError>)
    ensures
        width >= 0 && height >= 0 ==> r == Ok::<(u32, u32), HostError>(
            (width as u32, height as u32),
        ),
        !(width >= 0 && height >= 0) ==> r == Err::<(u32, u32), HostError>(
            HostError::SizeOutOfRange,
        ),
{
    if width < 0 || height < 0 {
        Err(HostError::SizeOutOfRange)
    } else {
        Ok((width as u32, height as u32))
    }
}

/// The bar's x coordinate after the user's offset (already in physical
/// pixels) is added: saturating, then kept inside the taskbar so that the
/// bar never leaves it (where it is wider than the taskbar, it starts at the
/// taskbar's left edge).
pub open spec fn offset_x(base: int, offset: int, left: int, right: int, bar_width: int) -> int {
    let maximum = spec_max(spec_saturate_i32(right - bar_width), left);
    spec_clamp(spec_saturate_i32(base + offset), left, maximum)
}

/// Applies the user's horizontal offset.
pub fn apply_manual_offset(
    base_screen_x: i32,
    physical_offset: i32,
    taskbar: &TaskbarRect,
    bar_width: i32,
) -> (r: i32)
    ensures
        r == offset_x(
            base_screen_x as int,
            physical_offset as int,
            taskbar@.left as int,
            taskbar@.right as int,
            bar_width as int,
        ),
        taskbar@.left <= r,
        r + bar_width <= taskbar@.right || r == taskbar@.left,
{
    let minimum = taskbar.left();
    let shifted_right = saturating_sub_i32(taskbar.right(), bar_width);
    let maximum = if shifted_right >= minimum { shifted_right } else { minimum };
    let x = saturating_add_i32(base_screen_x, physical_offset);
    if x < minimum {
        minimum
    } else if x > maximum {
        maximum
    } else {
        x
    }
}

/// How a width change is animated.
#[derive(Debug, Clone, Copy, PartialEq, Eq, Structural)]
pub struct WidthAnimationPlan {
    /// The bar grows; the web view is enlarged first.
    pub is_expanding: bool,
    /// The change happens in one step.
    pub is_instant_change: bool,
    /// How many steps the animation takes.
    pub animation_steps: i32,
}

/// `|a - b|` as a `u32`.
pub open spec fn abs_diff(a: i32, b: i32) -> int {
    if a >= b {
        a - b
    } else {
        b - a
    }
}

/// Growing, or moving by more than a third of the taskbar width, happens
/// at once (a growing web view would show unpainted area); shrinking is
/// animated in twelve steps.
pub open spec fn animation_plan_of(
    start_width: i32,
    target_width: i32,
    current_x: i32,
    target_x: i32,
    taskbar_width: i32,
) -> WidthAnimationPlan {
    let expanding = target_width > start_width;
    let third = div_toward_zero(taskbar_width as int, 3);
    let threshold = if third >= 0 { third } else { 0 };
    let instant = expanding || abs_diff(target_x, current_x) > threshold;
    WidthAnimationPlan {
        is_expanding: expanding,
        is_instant_change: instant,
        animation_steps: if instant { 1 } else { 12 },
    }
}

/// Plans the animation from the bar's current width and client x to the
/// target ones.
pub fn plan_width_animation(
    start_width: i32,
    target_width: i32,
    current_x: i32,
    target_x: i32,
    taskbar_width: i32,
) -> (r: WidthAnimationPlan)
    ensures
        r == animation_plan_of(start_width, target_width, current_x, target_x, taskbar_width),
{
    let is_expanding = target_width > start_width;
    let distance: u32 = if target_x >= current_x {
        (target_x as i64 - current_x as i64) as u32
    } else {
        (current_x as i64 - target_x as i64) as u32
    };
    let third = taskbar_width / 3;
    let threshold: u32 = if third >= 0 { third as u32 } else { 0 };
    let is_instant_change = is_expanding || distance > threshold;
    WidthAnimationPlan {
        is_expanding,
        is_instant_change,
        animation_steps: if is_instant_change { 1 } else { WIDTH_ANIMATION_STEPS },
    }
}

/// Checks the requested width before an animation.
pub fn check_target_width(target_width: i32) -> (r: Result<(), HostError>)
    ensures
        target_width <= 0 ==> r == Err::<(), HostError>(HostError::TargetWidthNotPositive),
        target_width > 0 ==> r is Ok,
{
    if target_width <= 0 {
        Err(HostError::TargetWidthNotPositive)
    } else {
        Ok(())
    }
}

/// A stabilisation step re-applies the placement only while the bar still
/// has the width it was attached with (a started width animation wins).
pub fn stabilization_applies(current_width: Option<i32>, width: i32) -> (r: bool)
    ensures
        r == (current_width == Some(width)),
{
    match current_width {
        Some(w) => w == width,
        None => false,
    }
}

} // verus!
