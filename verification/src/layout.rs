//! Taskbar geometry: the validated taskbar rectangle, the rectangles of the
//! controls that occupy it, and where the bar may be placed among them.
use vstd::prelude::*;

use crate::settings::TaskbarPosition;
use crate::text::{chars_equal, chars_of};

verus! {

/// Controls whose edge may be followed lie in the outer third of the taskbar.
pub const EDGE_COMPONENT_ZONE_DIVISOR: i32 = 3;

/// A rectangle in physical screen pixels.
#[derive(Debug, Clone, Copy, PartialEq, Eq, Structural)]
pub struct OccupiedRect {
    pub left: i32,
    pub top: i32,
    pub right: i32,
    pub bottom: i32,
}

impl OccupiedRect {
    /// Left edge.
    pub fn left(self) -> (r: i32)
        ensures
            r == self.left,
    {
        self.left
    }

    /// Top edge.
    pub fn top(self) -> (r: i32)
        ensures
            r == self.top,
    {
        self.top
    }

    /// Right edge.
    pub fn right(self) -> (r: i32)
        ensures
            r == self.right,
    {
        self.right
    }

    /// Bottom edge.
    pub fn bottom(self) -> (r: i32)
        ensures
            r == self.bottom,
    {
        self.bottom
    }

    /// Horizontal extent.
    pub fn width(self) -> (r: i32)
        requires
            i32::MIN <= self.right - self.left <= i32::MAX,
        ensures
            r == self.right - self.left,
    {
        self.right - self.left
    }

    /// Vertical extent.
    pub fn height(self) -> (r: i32)
        requires
            i32::MIN <= self.bottom - self.top <= i32::MAX,
        ensures
            r == self.bottom - self.top,
    {
        self.bottom - self.top
    }
}

/// The main taskbar's rectangle, validated to have a positive area.
#[derive(Debug, Clone, Copy)]
pub struct TaskbarRect {
    left: i32,
    top: i32,
    right: i32,
    bottom: i32,
    width: i32,
    height: i32,
}

/// Why a native rectangle cannot describe the taskbar.
#[derive(Debug, Clone, Copy, PartialEq, Eq, Structural)]
pub enum TaskbarRectError {
    /// `right - left` does not fit in an `i32`.
    WidthOverflow,
    /// `bottom - top` does not fit in an `i32`.
    HeightOverflow,
    /// The rectangle has no positive width or height.
    Empty { left: i32, top: i32, right: i32, bottom: i32 },
}

impl View for TaskbarRect {
    type V = OccupiedRect;

    closed spec fn view(&self) -> OccupiedRect {
        OccupiedRect { left: self.left, top: self.top, right: self.right, bottom: self.bottom }
    }
}

/// A rectangle with a positive width and height.
pub open spec fn rect_has_area(r: OccupiedRect) -> bool {
    r.left < r.right && r.top < r.bottom
}

impl TaskbarRect {
    #[verifier::type_invariant]
    spec fn well_formed(self) -> bool {
        &&& self.width == self.right - self.left
        &&& self.height == self.bottom - self.top
        &&& self.width > 0
        &&& self.height > 0
    }

    /// Validates a native window rectangle as the taskbar rectangle.
    pub fn from_native(left: i32, top: i32, right: i32, bottom: i32) -> (r: Result<
        TaskbarRect,
        TaskbarRectError,
    >)
        ensures
            (right - left > i32::MAX || right - left < i32::MIN) ==> r == Err::<
                TaskbarRect,
                TaskbarRectError,
            >(TaskbarRectError::WidthOverflow),
            i32::MIN <= right - left <= i32::MAX && (bottom - top > i32::MAX || bottom - top
                < i32::MIN) ==> r == Err::<TaskbarRect, TaskbarRectError>(
                TaskbarRectError::HeightOverflow,
            ),
            i32::MIN <= right - left <= i32::MAX && i32::MIN <= bottom - top <= i32::MAX && !(
            left < right && top < bottom) ==> r == Err::<TaskbarRect, TaskbarRectError>(
                TaskbarRectError::Empty { left, top, right, bottom },
            ),
            r is Ok <==> (i32::MIN <= right - left <= i32::MAX && i32::MIN <= bottom - top
                <= i32::MAX && left < right && top < bottom),
            r matches Ok(rect) ==> rect@ == (OccupiedRect { left, top, right, bottom }),
    {
        let width = match right.checked_sub(left) {
            Some(w) => w,
            None => return Err(TaskbarRectError::WidthOverflow),
        };
        let height = match bottom.checked_sub(top) {
            Some(h) => h,
            None => return Err(TaskbarRectError::HeightOverflow),
        };
        if width <= 0 || height <= 0 {
            return Err(TaskbarRectError::Empty { left, top, right, bottom });
        }
        Ok(TaskbarRect { left, top, right, bottom, width, height })
    }

    /// Left edge in screen coordinates.
    pub fn left(&self) -> (r: i32)
        ensures
            r == self@.left,
            rect_has_area(self@),
    {
        proof {
            use_type_invariant(self);
        }
        self.left
    }

    /// Top edge in screen coordinates.
    pub fn top(&self) -> (r: i32)
        ensures
            r == self@.top,
            rect_has_area(self@),
    {
        proof {
            use_type_invariant(self);
        }
        self.top
    }

    /// Right edge in screen coordinates.
    pub fn right(&self) -> (r: i32)
        ensures
            r == self@.right,
            rect_has_area(self@),
    {
        proof {
            use_type_invariant(self);
        }
        self.right
    }

    /// Bottom edge in screen coordinates.
    pub fn bottom(&self) -> (r: i32)
        ensures
            r == self@.bottom,
            rect_has_area(self@),
    {
        proof {
            use_type_invariant(self);
        }
        self.bottom
    }

    /// Width in physical pixels.
    pub fn width(&self) -> (r: i32)
        ensures
            r == self@.right - self@.left,
            r > 0,
    {
        proof {
            use_type_invariant(self);
        }
        self.width
    }

    /// Height in physical pixels.
    pub fn height(&self) -> (r: i32)
        ensures
            r == self@.bottom - self@.top,
            r > 0,
    {
        proof {
            use_type_invariant(self);
        }
        self.height
    }
}

/// A taskbar control that the bar must avoid.
#[derive(Debug, Clone, PartialEq, Eq)]
pub struct OccupiedRegion {
    pub name: String,
    pub class_name: String,
    pub rect: OccupiedRect,
}

impl OccupiedRegion {
    /// The UI Automation name, or the Win32 fallback name.
    pub fn name(&self) -> (r: &str)
        ensures
            r@ == self.name@,
    {
        self.name.as_str()
    }

    /// The control's class name.
    pub fn class_name(&self) -> (r: &str)
        ensures
            r@ == self.class_name@,
    {
        self.class_name.as_str()
    }

    /// The control's rectangle in physical screen pixels.
    pub fn rect(&self) -> (r: OccupiedRect)
        ensures
            r == self.rect,
    {
        self.rect
    }
}

/// A run of free taskbar pixels that lyrics mode may fill.
#[derive(Debug, Clone, Copy, PartialEq, Eq, Structural)]
pub struct AvailableSpan {
    pub left: i32,
    pub right: i32,
}

impl AvailableSpan {
    /// Left edge in screen coordinates.
    pub fn left(self) -> (r: i32)
        ensures
            r == self.left,
    {
        self.left
    }

    /// Width in physical pixels, at least one.
    pub fn width(self) -> (r: i32)
        ensures
            r == spec_max(spec_saturate_i32(self.right - self.left), 1),
    {
        let w = saturating_sub_i32(self.right, self.left);
        if w < 1 {
            1
        } else {
            w
        }
    }
}

// ---------------------------------------------------------------------------
// Model of the placement rules.
// ---------------------------------------------------------------------------

pub open spec fn spec_min(a: int, b: int) -> int {
    if a <= b {
        a
    } else {
        b
    }
}

pub open spec fn spec_max(a: int, b: int) -> int {
    if a >= b {
        a
    } else {
        b
    }
}

/// `Ord::clamp` (which requires `low <= high`).
pub open spec fn spec_clamp(v: int, low: int, high: int) -> int {
    if v < low {
        low
    } else if v > high {
        high
    } else {
        v
    }
}

/// The value of an `i32` saturating operation whose exact result is `v`.
pub open spec fn spec_saturate_i32(v: int) -> int {
    spec_clamp(v, i32::MIN as int, i32::MAX as int)
}

/// The Windows 11 start, system and task buttons in the centre of the taskbar.
pub open spec fn is_central_class(class_name: Seq<char>) -> bool {
    class_name == "ToggleButton"@ || class_name == "Taskbar.TaskListButtonAutomationPeer"@
}

pub open spec fn is_central_region(r: OccupiedRegion) -> bool {
    is_central_class(r.class_name@)
}

/// Smallest left edge and largest right edge of the regions that `keep` selects.
pub open spec fn bounds_where(
    regions: Seq<OccupiedRegion>,
    keep: spec_fn(OccupiedRegion) -> bool,
) -> Option<(int, int)>
    decreases regions.len(),
{
    if regions.len() == 0 {
        None
    } else {
        let prev = bounds_where(regions.drop_last(), keep);
        let r = regions.last();
        if keep(r) {
            match prev {
                Some((l, rt)) => Some(
                    (spec_min(l, r.rect.left as int), spec_max(rt, r.rect.right as int)),
                ),
                None => Some((r.rect.left as int, r.rect.right as int)),
            }
        } else {
            prev
        }
    }
}

/// Largest right edge of the regions that `keep` selects.
pub open spec fn max_right_where(
    regions: Seq<OccupiedRegion>,
    keep: spec_fn(OccupiedRegion) -> bool,
) -> Option<int>
    decreases regions.len(),
{
    if regions.len() == 0 {
        None
    } else {
        let prev = max_right_where(regions.drop_last(), keep);
        let r = regions.last();
        if keep(r) {
            match prev {
                Some(m) => Some(spec_max(m, r.rect.right as int)),
                None => Some(r.rect.right as int),
            }
        } else {
            prev
        }
    }
}

/// Smallest left edge of the regions that `keep` selects.
pub open spec fn min_left_where(
    regions: Seq<OccupiedRegion>,
    keep: spec_fn(OccupiedRegion) -> bool,
) -> Option<int>
    decreases regions.len(),
{
    if regions.len() == 0 {
        None
    } else {
        let prev = min_left_where(regions.drop_last(), keep);
        let r = regions.last();
        if keep(r) {
            match prev {
                Some(m) => Some(spec_min(m, r.rect.left as int)),
                None => Some(r.rect.left as int),
            }
        } else {
            prev
        }
    }
}

/// The range covered by the central buttons.
pub open spec fn central_bounds(regions: Seq<OccupiedRegion>) -> Option<(int, int)> {
    bounds_where(regions, |r: OccupiedRegion| is_central_region(r))
}

/// End of the left edge zone.
pub open spec fn left_zone_end(t: OccupiedRect) -> int {
    t.left + (t.right - t.left) / 3
}

/// Start of the right edge zone.
pub open spec fn right_zone_start(t: OccupiedRect) -> int {
    t.right - (t.right - t.left) / 3
}

/// A left-edge component: not a central button, left of the central buttons
/// and inside the left zone.
pub open spec fn is_left_component(
    r: OccupiedRegion,
    central: Option<(int, int)>,
    zone_end: int,
) -> bool {
    &&& !is_central_region(r)
    &&& match central {
        Some((cl, _)) => r.rect.right <= cl,
        None => true,
    }
    &&& r.rect.right <= zone_end
}

/// A right-edge component: not a central button, right of the central
/// buttons and inside the right zone.
pub open spec fn is_right_component(
    r: OccupiedRegion,
    central: Option<(int, int)>,
    zone_start: int,
) -> bool {
    &&& !is_central_region(r)
    &&& match central {
        Some((_, cr)) => r.rect.left >= cr,
        None => true,
    }
    &&& r.rect.left >= zone_start
}

/// A region that belongs to the middle of the taskbar and is narrower than
/// two thirds of it (wider ones are frame containers).
pub open spec fn is_middle_region(r: OccupiedRegion, t: OccupiedRect) -> bool {
    &&& r.rect.right - r.rect.left < (t.right - t.left) * 2 / 3
    &&& r.rect.right > left_zone_end(t)
    &&& r.rect.left < right_zone_start(t)
}

/// Right edge of the left-edge components, or the taskbar's left edge.
pub open spec fn left_edge(regions: Seq<OccupiedRegion>, t: OccupiedRect) -> int {
    let central = central_bounds(regions);
    let zone_end = left_zone_end(t);
    match max_right_where(
        regions,
        |r: OccupiedRegion| is_left_component(r, central, zone_end),
    ) {
        Some(x) => x,
        None => t.left as int,
    }
}

/// Left edge of the right-edge components, or the taskbar's right edge.
pub open spec fn right_edge(regions: Seq<OccupiedRegion>, t: OccupiedRect) -> int {
    let central = central_bounds(regions);
    let zone_start = right_zone_start(t);
    match min_left_where(
        regions,
        |r: OccupiedRegion| is_right_component(r, central, zone_start),
    ) {
        Some(x) => x,
        None => t.right as int,
    }
}

/// Range of the central button group: the central buttons themselves, else
/// the narrow middle regions, else the taskbar's centre point.
pub open spec fn central_range(regions: Seq<OccupiedRegion>, t: OccupiedRect) -> (int, int) {
    let center = t.left + (t.right - t.left) / 2;
    match central_bounds(regions) {
        Some(b) => b,
        None => match bounds_where(regions, |r: OccupiedRegion| is_middle_region(r, t)) {
            Some(b) => b,
            None => (center, center),
        },
    }
}

/// The free span that lyrics mode fills, as (left, right).
pub open spec fn available_span(
    position: TaskbarPosition,
    t: OccupiedRect,
    regions: Seq<OccupiedRegion>,
) -> (int, int) {
    let (cl, cr) = central_range(regions, t);
    let (l0, r0) = match position {
        TaskbarPosition::Left => (left_edge(regions, t), cl),
        TaskbarPosition::Right => (cr, right_edge(regions, t)),
    };
    let (l1, r1) = if r0 > l0 {
        (l0, r0)
    } else {
        match position {
            TaskbarPosition::Left => (t.left as int, cl),
            TaskbarPosition::Right => (cr, t.right as int),
        }
    };
    let l2 = spec_clamp(l1, t.left as int, t.right - 1);
    let r2 = spec_clamp(r1, l2 + 1, t.right as int);
    (l2, r2)
}

/// The bar's screen x: next to the edge components on its side, kept inside
/// the taskbar.
pub open spec fn bar_screen_x(
    position: TaskbarPosition,
    t: OccupiedRect,
    regions: Seq<OccupiedRegion>,
    bar_width: int,
) -> int {
    let minimum_x = t.left as int;
    let maximum_x = spec_saturate_i32(t.right - bar_width);
    let target = match position {
        TaskbarPosition::Left => left_edge(regions, t),
        TaskbarPosition::Right => spec_saturate_i32(right_edge(regions, t) - bar_width),
    };
    spec_clamp(target, minimum_x, spec_max(maximum_x, minimum_x))
}

/// Region widths that `OccupiedRect::width` can compute without overflow.
pub open spec fn widths_fit(regions: Seq<OccupiedRegion>) -> bool {
    forall|i: int|
        0 <= i < regions.len() ==> i32::MIN <= #[trigger] regions[i].rect.right
            - regions[i].rect.left <= i32::MAX
}

// ---------------------------------------------------------------------------
// Executable rules.
// ---------------------------------------------------------------------------

/// `i32::saturating_sub`.
pub fn saturating_sub_i32(a: i32, b: i32) -> (r: i32)
    ensures
        r == spec_saturate_i32(a - b),
{
    let d: i64 = a as i64 - b as i64;
    if d > i32::MAX as i64 {
        i32::MAX
    } else if d < i32::MIN as i64 {
        i32::MIN
    } else {
        d as i32
    }
}

/// `i32::saturating_add`.
pub fn saturating_add_i32(a: i32, b: i32) -> (r: i32)
    ensures
        r == spec_saturate_i32(a + b),
{
    let d: i64 = a as i64 + b as i64;
    if d > i32::MAX as i64 {
        i32::MAX
    } else if d < i32::MIN as i64 {
        i32::MIN
    } else {
        d as i32
    }
}

/// Recognises the Windows 11 central start, system and task buttons by their
/// UI Automation class names.
pub fn is_central_taskbar_button(region: &OccupiedRegion) -> (r: bool)
    ensures
        r == is_central_region(*region),
{
    let class_name = chars_of(region.class_name.as_str());
    let toggle = chars_of("ToggleButton");
    let task = chars_of("Taskbar.TaskListButtonAutomationPeer");
    chars_equal(class_name.as_slice(), toggle.as_slice()) || chars_equal(
        class_name.as_slice(),
        task.as_slice(),
    )
}

/// The horizontal range that the start, search, task view and task buttons
/// cover together.
pub fn central_taskbar_bounds(regions: &[OccupiedRegion]) -> (r: Option<(i32, i32)>)
    ensures
        match r {
            Some((a, b)) => central_bounds(regions@) == Some((a as int, b as int)),
            None => central_bounds(regions@) is None,
        },
{
    let ghost keep = |r: OccupiedRegion| is_central_region(r);
    let mut bounds: Option<(i32, i32)> = None;
    let mut i: usize = 0;
    while i < regions.len()
        invariant
            i <= regions@.len(),
            keep == (|r: OccupiedRegion| is_central_region(r)),
            match bounds {
                Some((a, b)) => bounds_where(regions@.take(i as int), keep) == Some(
                    (a as int, b as int),
                ),
                None => bounds_where(regions@.take(i as int), keep) is None,
            },
        decreases regions.len() - i,
    {
        let region = &regions[i];
        proof {
            assert(regions@.take(i + 1).drop_last() =~= regions@.take(i as int));
            assert(regions@.take(i + 1).last() == regions@[i as int]);
        }
        if is_central_taskbar_button(region) {
            let l = region.rect.left;
            let r = region.rect.right;
            bounds =
            match bounds {
                Some((a, b)) => Some((if a <= l { a } else { l }, if b >= r { b } else { r })),
                None => Some((l, r)),
            };
        }
        i += 1;
    }
    proof {
        assert(regions@.take(regions@.len() as int) =~= regions@);
    }
    bounds
}

/// The right edge of the left-edge components, or `None` when there is none.
fn max_left_component_right(
    regions: &[OccupiedRegion],
    central: Option<(i32, i32)>,
    zone_end: i32,
) -> (r: Option<i32>)
    ensures
        ({
            let c = match central {
                Some((a, b)) => Some((a as int, b as int)),
                None => None,
            };
            let keep = |x: OccupiedRegion| is_left_component(x, c, zone_end as int);
            match r {
                Some(v) => max_right_where(regions@, keep) == Some(v as int),
                None => max_right_where(regions@, keep) is None,
            }
        }),
{
    let ghost c = match central {
        Some((a, b)) => Some((a as int, b as int)),
        None => None,
    };
    let ghost keep = |x: OccupiedRegion| is_left_component(x, c, zone_end as int);
    let mut best: Option<i32> = None;
    let mut i: usize = 0;
    while i < regions.len()
        invariant
            i <= regions@.len(),
            keep == (|x: OccupiedRegion| is_left_component(x, c, zone_end as int)),
            c == match central {
                Some((a, b)) => Some((a as int, b as int)),
                None => None::<(int, int)>,
            },
            match best {
                Some(v) => max_right_where(regions@.take(i as int), keep) == Some(v as int),
                None => max_right_where(regions@.take(i as int), keep) is None,
            },
        decreases regions.len() - i,
    {
        let region = &regions[i];
        proof {
            assert(regions@.take(i + 1).drop_last() =~= regions@.take(i as int));
            assert(regions@.take(i + 1).last() == regions@[i as int]);
        }
        let central_ok = match central {
            Some((cl, _)) => region.rect.right <= cl,
            None => true,
        };
        if !is_central_taskbar_button(region) && central_ok && region.rect.right <= zone_end {
            let x = region.rect.right;
            best =
            match best {
                Some(v) => Some(if v >= x { v } else { x }),
                None => Some(x),
            };
        }
        i += 1;
    }
    proof {
        assert(regions@.take(regions@.len() as int) =~= regions@);
    }
    best
}

/// The left edge of the right-edge components, or `None` when there is none.
fn min_right_component_left(
    regions: &[OccupiedRegion],
    central: Option<(i32, i32)>,
    zone_start: i32,
) -> (r: Option<i32>)
    ensures
        ({
            let c = match central {
                Some((a, b)) => Some((a as int, b as int)),
                None => None,
            };
            let keep = |x: OccupiedRegion| is_right_component(x, c, zone_start as int);
            match r {
                Some(v) => min_left_where(regions@, keep) == Some(v as int),
                None => min_left_where(regions@, keep) is None,
            }
        }),
{
    let ghost c = match central {
        Some((a, b)) => Some((a as int, b as int)),
        None => None,
    };
    let ghost keep = |x: OccupiedRegion| is_right_component(x, c, zone_start as int);
    let mut best: Option<i32> = None;
    let mut i: usize = 0;
    while i < regions.len()
        invariant
            i <= regions@.len(),
            keep == (|x: OccupiedRegion| is_right_component(x, c, zone_start as int)),
            c == match central {
                Some((a, b)) => Some((a as int, b as int)),
                None => None::<(int, int)>,
            },
            match best {
                Some(v) => min_left_where(regions@.take(i as int), keep) == Some(v as int),
                None => min_left_where(regions@.take(i as int), keep) is None,
            },
        decreases regions.len() - i,
    {
        let region = &regions[i];
        proof {
            assert(regions@.take(i + 1).drop_last() =~= regions@.take(i as int));
            assert(regions@.take(i + 1).last() == regions@[i as int]);
        }
        let central_ok = match central {
            Some((_, cr)) => region.rect.left >= cr,
            None => true,
        };
        if !is_central_taskbar_button(region) && central_ok && region.rect.left >= zone_start {
            let x = region.rect.left;
            best =
            match best {
                Some(v) => Some(if v <= x { v } else { x }),
                None => Some(x),
            };
        }
        i += 1;
    }
    proof {
        assert(regions@.take(regions@.len() as int) =~= regions@);
    }
    best
}

/// Range of the regions in the middle of the taskbar that are narrower than
/// two thirds of it.
fn middle_region_bounds(
    regions: &[OccupiedRegion],
    taskbar_rect: &TaskbarRect,
) -> (r: Option<(i32, i32)>)
    requires
        widths_fit(regions@),
        (taskbar_rect@.right - taskbar_rect@.left) * 2 <= i32::MAX,
    ensures
        ({
            let keep = |x: OccupiedRegion| is_middle_region(x, taskbar_rect@);
            match r {
                Some((a, b)) => bounds_where(regions@, keep) == Some((a as int, b as int)),
                None => bounds_where(regions@, keep) is None,
            }
        }),
{
    let ghost t = taskbar_rect@;
    let ghost keep = |x: OccupiedRegion| is_middle_region(x, t);
    let taskbar_width = taskbar_rect.width();
    let left_zone = taskbar_rect.left() + taskbar_width / EDGE_COMPONENT_ZONE_DIVISOR;
    let right_zone = taskbar_rect.right() - taskbar_width / EDGE_COMPONENT_ZONE_DIVISOR;
    let limit = taskbar_width * 2 / 3;
    let mut bounds: Option<(i32, i32)> = None;
    let mut i: usize = 0;
    while i < regions.len()
        invariant
            i <= regions@.len(),
            t == taskbar_rect@,
            keep == (|x: OccupiedRegion| is_middle_region(x, t)),
            widths_fit(regions@),
            limit == (t.right - t.left) * 2 / 3,
            left_zone == left_zone_end(t),
            right_zone == right_zone_start(t),
            match bounds {
                Some((a, b)) => bounds_where(regions@.take(i as int), keep) == Some(
                    (a as int, b as int),
                ),
                None => bounds_where(regions@.take(i as int), keep) is None,
            },
        decreases regions.len() - i,
    {
        let region = &regions[i];
        proof {
            assert(regions@.take(i + 1).drop_last() =~= regions@.take(i as int));
            assert(regions@.take(i + 1).last() == regions@[i as int]);
        }
        let rect = region.rect;
        assert(i32::MIN <= regions@[i as int].rect.right - regions@[i as int].rect.left
            <= i32::MAX);
        if rect.width() < limit && rect.right > left_zone && rect.left < right_zone {
            bounds =
            match bounds {
                Some((a, b)) => Some(
                    (
                        if a <= rect.left {
                            a
                        } else {
                            rect.left
                        },
                        if b >= rect.right {
                            b
                        } else {
                            rect.right
                        },
                    ),
                ),
                None => Some((rect.left, rect.right)),
            };
        }
        i += 1;
    }
    proof {
        assert(regions@.take(regions@.len() as int) =~= regions@);
    }
    bounds
}

/// Computes the bar's screen x: the left side follows the left-edge
/// components, the right side follows the right-edge components, and the
/// result always keeps the bar inside the taskbar.
pub fn resolve_bar_screen_x(
    position: TaskbarPosition,
    taskbar_rect: &TaskbarRect,
    regions: &[OccupiedRegion],
    bar_width: i32,
) -> (x: i32)
    ensures
        x == bar_screen_x(position, taskbar_rect@, regions@, bar_width as int),
        taskbar_rect@.left <= x,
        bar_width <= taskbar_rect@.right - taskbar_rect@.left ==> x + bar_width
            <= taskbar_rect@.right,
{
    let ghost t = taskbar_rect@;
    let minimum_x = taskbar_rect.left();
    let maximum_x = saturating_sub_i32(taskbar_rect.right(), bar_width);
    let taskbar_width = taskbar_rect.width();
    let left_zone = taskbar_rect.left() + taskbar_width / EDGE_COMPONENT_ZONE_DIVISOR;
    let right_zone = taskbar_rect.right() - taskbar_width / EDGE_COMPONENT_ZONE_DIVISOR;
    let central = central_taskbar_bounds(regions);
    let ghost c = central_bounds(regions@);
    let target = match position {
        TaskbarPosition::Left => match max_left_component_right(regions, central, left_zone) {
            Some(v) => v,
            None => taskbar_rect.left(),
        },
        TaskbarPosition::Right => {
            let edge = match min_right_component_left(regions, central, right_zone) {
                Some(v) => v,
                None => taskbar_rect.right(),
            };
            saturating_sub_i32(edge, bar_width)
        },
    };
    proof {
        let c2 = match central {
            Some((a, b)) => Some((a as int, b as int)),
            None => None::<(int, int)>,
        };
        assert(c2 == c);
        assert((|x: OccupiedRegion| is_left_component(x, c2, left_zone as int)) =~= (|
            x: OccupiedRegion,
        | is_left_component(x, central_bounds(regions@), left_zone_end(t))));
        assert((|x: OccupiedRegion| is_right_component(x, c2, right_zone as int)) =~= (|
            x: OccupiedRegion,
        | is_right_component(x, central_bounds(regions@), right_zone_start(t))));
    }
    let upper = if maximum_x >= minimum_x {
        maximum_x
    } else {
        minimum_x
    };
    if target < minimum_x {
        minimum_x
    } else if target > upper {
        upper
    } else {
        target
    }
}

/// Returns the continuous free span of the taskbar that lyrics mode may fill
/// on the bar's side.
pub fn resolve_available_span(
    position: TaskbarPosition,
    taskbar_rect: &TaskbarRect,
    regions: &[OccupiedRegion],
) -> (span: AvailableSpan)
    requires
        widths_fit(regions@),
        regions@.len() > 0 ==> (taskbar_rect@.right - taskbar_rect@.left) * 2 <= i32::MAX,
    ensures
        (span.left as int, span.right as int) == available_span(
            position,
            taskbar_rect@,
            regions@,
        ),
        taskbar_rect@.left <= span.left < span.right <= taskbar_rect@.right,
{
    let ghost t = taskbar_rect@;
    let taskbar_width = taskbar_rect.width();
    let left_zone = taskbar_rect.left() + taskbar_width / EDGE_COMPONENT_ZONE_DIVISOR;
    let right_zone = taskbar_rect.right() - taskbar_width / EDGE_COMPONENT_ZONE_DIVISOR;
    let center_x = taskbar_rect.left() + taskbar_width / 2;
    let central = central_taskbar_bounds(regions);
    let left_edge_x = match max_left_component_right(regions, central, left_zone) {
        Some(v) => v,
        None => taskbar_rect.left(),
    };
    let right_edge_x = match min_right_component_left(regions, central, right_zone) {
        Some(v) => v,
        None => taskbar_rect.right(),
    };
    let middle = if regions.len() > 0 {
        middle_region_bounds(regions, taskbar_rect)
    } else {
        None
    };
    proof {
        let c2 = match central {
            Some((a, b)) => Some((a as int, b as int)),
            None => None::<(int, int)>,
        };
        assert((|x: OccupiedRegion| is_left_component(x, c2, left_zone as int)) =~= (|
            x: OccupiedRegion,
        | is_left_component(x, central_bounds(regions@), left_zone_end(t))));
        assert((|x: OccupiedRegion| is_right_component(x, c2, right_zone as int)) =~= (|
            x: OccupiedRegion,
        | is_right_component(x, central_bounds(regions@), right_zone_start(t))));
        if regions.len() == 0 {
            assert(bounds_where(regions@, |r: OccupiedRegion| is_middle_region(r, t)) is None);
        }
    }
    let (central_left, central_right) = match central {
        Some(b) => b,
        None => match middle {
            Some(b) => b,
            None => (center_x, center_x),
        },
    };
    let (left0, right0) = match position {
        TaskbarPosition::Left => (left_edge_x, central_left),
        TaskbarPosition::Right => (central_right, right_edge_x),
    };
    let (left1, right1) = if right0 > left0 {
        (left0, right0)
    } else {
        match position {
            TaskbarPosition::Left => (taskbar_rect.left(), central_left),
            TaskbarPosition::Right => (central_right, taskbar_rect.right()),
        }
    };
    let low = taskbar_rect.left();
    let high = taskbar_rect.right() - 1;
    let left2 = if left1 < low {
        low
    } else if left1 > high {
        high
    } else {
        left1
    };
    let low2 = left2 + 1;
    let high2 = taskbar_rect.right();
    let right2 = if right1 < low2 {
        low2
    } else if right1 > high2 {
        high2
    } else {
        right1
    };
    AvailableSpan { left: left2, right: right2 }
}

/// Converts the validated taskbar rectangle into a plain rectangle.
pub fn occupied_rect_from_taskbar(taskbar_rect: &TaskbarRect) -> (r: OccupiedRect)
    ensures
        r == taskbar_rect@,
{
    OccupiedRect {
        left: taskbar_rect.left(),
        top: taskbar_rect.top(),
        right: taskbar_rect.right(),
        bottom: taskbar_rect.bottom(),
    }
}

/// A region that the selection leaves out changes none of the bounds over
/// the selected regions.
proof fn lemma_push_unselected(
    s: Seq<OccupiedRegion>,
    x: OccupiedRegion,
    keep: spec_fn(OccupiedRegion) -> bool,
)
    requires
        !keep(x),
    ensures
        bounds_where(s.push(x), keep) == bounds_where(s, keep),
        max_right_where(s.push(x), keep) == max_right_where(s, keep),
        min_left_where(s.push(x), keep) == min_left_where(s, keep),
{
    assert(s.push(x).drop_last() =~= s);
}

/// A region that lies within the central button group, and is not itself a
/// central button, never acts as a left or right edge component: adding it
/// to the regions leaves the free span of lyrics mode (its left edge and its
/// width) unchanged.
pub proof fn lemma_central_overlap_ignored(
    position: TaskbarPosition,
    t: OccupiedRect,
    regions: Seq<OccupiedRegion>,
    extra: OccupiedRegion,
)
    requires
        !is_central_region(extra),
        central_bounds(regions) matches Some((cl, cr)) && extra.rect.right > cl && extra.rect.left
            < cr,
    ensures
        available_span(position, t, regions.push(extra)) == available_span(position, t, regions),
{
    let all = regions.push(extra);
    let central = central_bounds(regions);
    lemma_push_unselected(regions, extra, |r: OccupiedRegion| is_central_region(r));
    assert(central_bounds(all) == central);
    lemma_push_unselected(
        regions,
        extra,
        |r: OccupiedRegion| is_left_component(r, central, left_zone_end(t)),
    );
    lemma_push_unselected(
        regions,
        extra,
        |r: OccupiedRegion| is_right_component(r, central, right_zone_start(t)),
    );
    assert(left_edge(all, t) == left_edge(regions, t));
    assert(right_edge(all, t) == right_edge(regions, t));
    assert(central_range(all, t) == central_range(regions, t));
}

/// The smallest left edge over the selected regions is at most the left edge
/// of each of them.
proof fn lemma_min_left_where_bound(
    s: Seq<OccupiedRegion>,
    keep: spec_fn(OccupiedRegion) -> bool,
    i: int,
)
    requires
        0 <= i < s.len(),
        keep(s[i]),
    ensures
        min_left_where(s, keep) matches Some(m) && m <= s[i].rect.left,
    decreases s.len(),
{
    let p = s.drop_last();
    if i < s.len() - 1 {
        assert(p[i] == s[i]);
        lemma_min_left_where_bound(p, keep, i);
    }
}

/// The largest right edge over the selected regions is at least the right
/// edge of each of them.
proof fn lemma_max_right_where_bound(
    s: Seq<OccupiedRegion>,
    keep: spec_fn(OccupiedRegion) -> bool,
    i: int,
)
    requires
        0 <= i < s.len(),
        keep(s[i]),
    ensures
        max_right_where(s, keep) matches Some(m) && m >= s[i].rect.right,
    decreases s.len(),
{
    let p = s.drop_last();
    if i < s.len() - 1 {
        assert(p[i] == s[i]);
        lemma_max_right_where_bound(p, keep, i);
    }
}

/// On the right side, a bar placed away from the taskbar's left edge ends
/// at or before every right-edge control (tray, clock, ...): it never
/// overlaps one of them.
pub proof fn lemma_right_bar_clears_right_components(
    t: OccupiedRect,
    regions: Seq<OccupiedRegion>,
    bar_width: int,
    i: int,
)
    requires
        0 <= bar_width,
        0 <= i < regions.len(),
        is_right_component(regions[i], central_bounds(regions), right_zone_start(t)),
        bar_screen_x(TaskbarPosition::Right, t, regions, bar_width) > t.left,
    ensures
        bar_screen_x(TaskbarPosition::Right, t, regions, bar_width) + bar_width
            <= regions[i].rect.left,
{
    let central = central_bounds(regions);
    lemma_min_left_where_bound(
        regions,
        |r: OccupiedRegion| is_right_component(r, central, right_zone_start(t)),
        i,
    );
    assert(right_edge(regions, t) <= regions[i].rect.left);
}

/// On the left side, a bar that ends before the taskbar's right edge starts
/// at or after every left-edge control (widgets, ...): it never overlaps
/// one of them.
pub proof fn lemma_left_bar_clears_left_components(
    t: OccupiedRect,
    regions: Seq<OccupiedRegion>,
    bar_width: int,
    i: int,
)
    requires
        0 <= bar_width <= t.right - t.left,
        0 <= i < regions.len(),
        is_left_component(regions[i], central_bounds(regions), left_zone_end(t)),
        bar_screen_x(TaskbarPosition::Left, t, regions, bar_width) + bar_width < t.right,
    ensures
        bar_screen_x(TaskbarPosition::Left, t, regions, bar_width) >= regions[i].rect.right,
{
    let central = central_bounds(regions);
    lemma_max_right_where_bound(
        regions,
        |r: OccupiedRegion| is_left_component(r, central, left_zone_end(t)),
        i,
    );
    assert(left_edge(regions, t) >= regions[i].rect.right);
}

} // verus!
