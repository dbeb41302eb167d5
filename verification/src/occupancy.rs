//! Taskbar occupancy: which controls cover the taskbar, where the reading came
//! from, and the last complete reading kept for bar positioning.
use vstd::prelude::*;

use crate::layout::{
    is_central_region, is_central_taskbar_button, occupied_rect_from_taskbar, OccupiedRect,
    OccupiedRegion, TaskbarRect,
};
use crate::taskbar::TaskbarIdentity;
use crate::text::{chars_of, string_from_chars};
use vstd::utf8::encode_utf8;

verus! {

/// Where an occupancy reading came from.
#[derive(Debug, Clone, Copy, PartialEq, Eq, Structural)]
pub enum OccupancySource {
    UiAutomation,
    Win32Fallback,
}

impl OccupancySource {
    /// The stable identifier handed to the front end.
    pub fn as_str(self) -> (r: &'static str)
        ensures
            r@ == match self {
                OccupancySource::UiAutomation => "uiAutomation"@,
                OccupancySource::Win32Fallback => "win32Fallback"@,
            },
    {
        match self {
            OccupancySource::UiAutomation => "uiAutomation",
            OccupancySource::Win32Fallback => "win32Fallback",
        }
    }
}

/// The outcome of one occupancy reading.
#[derive(Debug)]
pub struct TaskbarOccupancy {
    source: OccupancySource,
    regions: Vec<OccupiedRegion>,
    fallback_reason: Option<String>,
}

impl TaskbarOccupancy {
    /// The regions are normalised: ordered and without repeated rectangles.
    #[verifier::type_invariant]
    spec fn normalized(&self) -> bool {
        regions_sorted(self.regions@) && no_duplicate_rects(self.regions@)
    }

    pub closed spec fn spec_source(&self) -> OccupancySource {
        self.source
    }

    pub closed spec fn spec_regions(&self) -> Seq<OccupiedRegion> {
        self.regions@
    }

    pub closed spec fn spec_fallback_reason(&self) -> Option<Seq<char>> {
        match self.fallback_reason {
            Some(r) => Some(r@),
            None => None,
        }
    }

    /// The source that this reading used.
    pub fn source(&self) -> (r: OccupancySource)
        ensures
            r == self.spec_source(),
    {
        self.source
    }

    /// The filtered, de-duplicated regions: ordered by position, and no two
    /// with the same rectangle.
    pub fn regions(&self) -> (r: &[OccupiedRegion])
        ensures
            r@ == self.spec_regions(),
            regions_sorted(r@),
            no_duplicate_rects(r@),
    {
        proof {
            use_type_invariant(self);
        }
        self.regions.as_slice()
    }

    /// Why UI Automation was not used, when it was not.
    pub fn fallback_reason(&self) -> (r: Option<&str>)
        ensures
            match r {
                Some(s) => self.spec_fallback_reason() == Some(s@),
                None => self.spec_fallback_reason() is None,
            },
    {
        match &self.fallback_reason {
            Some(s) => Some(s.as_str()),
            None => None,
        }
    }
}

/// A reading of the XAML host that can be trusted for positioning: it
/// succeeded and contains at least one central button.
pub open spec fn is_complete_reading(regions: Seq<OccupiedRegion>) -> bool {
    exists|i: int| 0 <= i < regions.len() && is_central_region(#[trigger] regions[i])
}

/// Whether any region is a central button.
pub fn has_central_button(regions: &[OccupiedRegion]) -> (r: bool)
    ensures
        r == is_complete_reading(regions@),
{
    let mut i: usize = 0;
    while i < regions.len()
        invariant
            i <= regions@.len(),
            forall|j: int| 0 <= j < i ==> !is_central_region(#[trigger] regions@[j]),
        decreases regions.len() - i,
    {
        if is_central_taskbar_button(&regions[i]) {
            return true;
        }
        i += 1;
    }
    false
}

/// The reason recorded when the XAML host answered without a central button.
pub open spec fn incomplete_reading_reason() -> Seq<char> {
    "Explorer XAML 宿主尚未返回完整的中央任务按钮"@
}

/// Chooses between the XAML host reading and the Win32 fallback.
///
/// The XAML regions are normalised; where they then contain a central
/// button they are used. Otherwise `read_win32_regions` is called once and
/// its regions, normalised, are used, with the XAML error (or the
/// incomplete-reading reason) as fallback reason.
pub fn read_occupied_regions<F: FnOnce() -> Vec<OccupiedRegion>>(
    xaml_regions: Result<Vec<OccupiedRegion>, String>,
    read_win32_regions: F,
) -> (r: TaskbarOccupancy)
    requires
        read_win32_regions.requires(()),
    ensures
        match xaml_regions {
            Ok(regions) => is_complete_reading(normalized_regions(regions@)) ==> (r.spec_source()
                == OccupancySource::UiAutomation && r.spec_regions() == normalized_regions(regions@)
                && r.spec_fallback_reason() is None),
            Err(_) => true,
        },
        match xaml_regions {
            Ok(regions) => !is_complete_reading(normalized_regions(regions@)),
            Err(_) => true,
        } ==> r.spec_source() == OccupancySource::Win32Fallback,
        match xaml_regions {
            Ok(regions) => !is_complete_reading(normalized_regions(regions@)),
            Err(_) => true,
        } ==> exists|w: Vec<OccupiedRegion>|
            #[trigger] read_win32_regions.ensures((), w) && r.spec_regions() == normalized_regions(w@),
        match xaml_regions {
            Ok(regions) => !is_complete_reading(normalized_regions(regions@)),
            Err(_) => true,
        } ==> r.spec_fallback_reason() == Some(
            match xaml_regions {
                Ok(_) => incomplete_reading_reason(),
                Err(e) => e@,
            },
        ),
        regions_sorted(r.spec_regions()),
        no_duplicate_rects(r.spec_regions()),
{
    let reason = match xaml_regions {
        Ok(regions) => {
            let regions = normalize_regions(regions);
            if has_central_button(regions.as_slice()) {
                return TaskbarOccupancy {
                    source: OccupancySource::UiAutomation,
                    regions,
                    fallback_reason: None,
                };
            }
            let text = chars_of("Explorer XAML 宿主尚未返回完整的中央任务按钮");
            let r = string_from_chars(text.as_slice());
            assert(r@ == incomplete_reading_reason());
            r
        },
        Err(error) => error,
    };
    let read = read_win32_regions();
    assert(read_win32_regions.ensures((), read));
    let regions = normalize_regions(read);
    TaskbarOccupancy {
        source: OccupancySource::Win32Fallback,
        regions,
        fallback_reason: Some(reason),
    }
}

/// The last complete XAML layout, kept so that a momentarily incomplete
/// reading (start menu open, animation, unlock) does not lose the central
/// buttons.
pub struct PositioningRegionsCache {
    entry: Option<CachedPositioningRegions>,
}

/// A complete reading together with the taskbar it was taken on.
pub struct CachedPositioningRegions {
    pub taskbar_handle: u64,
    pub taskbar_bounds: OccupiedRect,
    pub regions: Vec<OccupiedRegion>,
}

impl PositioningRegionsCache {
    /// A remembered layout is normalised.
    #[verifier::type_invariant]
    spec fn normalized(&self) -> bool {
        match self.entry {
            Some(e) => regions_sorted(e.regions@) && no_duplicate_rects(e.regions@),
            None => true,
        }
    }

    pub closed spec fn spec_entry(&self) -> Option<(u64, OccupiedRect, Seq<OccupiedRegion>)> {
        match self.entry {
            Some(e) => Some((e.taskbar_handle, e.taskbar_bounds, e.regions@)),
            None => None,
        }
    }

    /// An empty cache.
    pub fn new() -> (r: PositioningRegionsCache)
        ensures
            r.spec_entry() is None,
    {
        PositioningRegionsCache { entry: None }
    }

    /// Drops the cached layout (after an Explorer restart or on exit), so that
    /// a reused window handle cannot hit a stale entry.
    pub fn invalidate(&mut self)
        ensures
            final(self).spec_entry() is None,
    {
        self.entry = None;
    }
}

/// An element-by-element copy of a region.
pub fn copy_region(region: &OccupiedRegion) -> (r: OccupiedRegion)
    ensures
        r == *region,
{
    OccupiedRegion {
        name: region.name.clone(),
        class_name: region.class_name.clone(),
        rect: region.rect,
    }
}

/// An element-by-element copy of a list of regions.
pub fn copy_regions(regions: &[OccupiedRegion]) -> (r: Vec<OccupiedRegion>)
    ensures
        r@ == regions@,
{
    let mut out: Vec<OccupiedRegion> = Vec::new();
    let mut i: usize = 0;
    while i < regions.len()
        invariant
            i <= regions@.len(),
            out@ == regions@.take(i as int),
        decreases regions.len() - i,
    {
        out.push(copy_region(&regions[i]));
        i += 1;
        proof {
            assert(out@ =~= regions@.take(i as int));
        }
    }
    proof {
        assert(regions@.take(regions@.len() as int) =~= regions@);
    }
    out
}

/// Returns the regions used to position the bar, normalised.
///
/// A XAML reading that, normalised, is complete is used and remembered for
/// this taskbar. Without one, the remembered layout of the same taskbar
/// handle and bounds is used; only when there is none is
/// `read_win32_regions` called, and its regions are normalised.
pub fn read_positioning_regions<F: FnOnce() -> Vec<OccupiedRegion>>(
    cache: &mut PositioningRegionsCache,
    taskbar: &TaskbarIdentity,
    taskbar_rect: &TaskbarRect,
    xaml_regions: Result<Vec<OccupiedRegion>, String>,
    read_win32_regions: F,
) -> (r: Vec<OccupiedRegion>)
    requires
        read_win32_regions.requires(()),
    ensures
        match xaml_regions {
            Ok(regions) => is_complete_reading(normalized_regions(regions@)) ==> {
                &&& r@ == normalized_regions(regions@)
                &&& final(cache).spec_entry() == Some(
                    (taskbar.spec_handle(), taskbar_rect@, normalized_regions(regions@)),
                )
            },
            Err(_) => true,
        },
        match xaml_regions {
            Ok(regions) => !is_complete_reading(normalized_regions(regions@)),
            Err(_) => true,
        } ==> {
            &&& final(cache).spec_entry() == old(cache).spec_entry()
            &&& match old(cache).spec_entry() {
                Some((h, b, cached)) => if h == taskbar.spec_handle() && b == taskbar_rect@ {
                    r@ == cached
                } else {
                    exists|w: Vec<OccupiedRegion>|
                        #[trigger] read_win32_regions.ensures((), w) && r@ == normalized_regions(w@)
                },
                None => exists|w: Vec<OccupiedRegion>|
                    #[trigger] read_win32_regions.ensures((), w) && r@ == normalized_regions(w@),
            }
        },
        regions_sorted(r@),
        no_duplicate_rects(r@),
{
    proof {
        use_type_invariant(&*cache);
    }
    let taskbar_bounds = occupied_rect_from_taskbar(taskbar_rect);
    let handle = taskbar.handle_value();
    if let Ok(regions) = xaml_regions {
        let regions = normalize_regions(regions);
        if has_central_button(regions.as_slice()) {
            let remembered = copy_regions(regions.as_slice());
            cache.entry = Some(
                CachedPositioningRegions { taskbar_handle: handle, taskbar_bounds, regions: remembered },
            );
            return regions;
        }
    }
    let cached = match &cache.entry {
        Some(entry) => {
            if entry.taskbar_handle == handle && entry.taskbar_bounds == taskbar_bounds {
                Some(copy_regions(entry.regions.as_slice()))
            } else {
                None
            }
        },
        None => None,
    };
    match cached {
        Some(regions) => regions,
        None => {
            let read = read_win32_regions();
            assert(read_win32_regions.ensures((), read));
            normalize_regions(read)
        },
    }
}


/// Clips a native rectangle to the taskbar; `None` when nothing with a
/// positive area is left.
pub fn clip_native_rect(native_rect: OccupiedRect, taskbar_bounds: OccupiedRect) -> (r: Option<
    OccupiedRect,
>)
    ensures
        ({
            let c = clipped(native_rect, taskbar_bounds);
            r == if c.left < c.right && c.top < c.bottom {
                Some(c)
            } else {
                None::<OccupiedRect>
            }
        }),
{
    let rect = OccupiedRect {
        left: if native_rect.left >= taskbar_bounds.left {
            native_rect.left
        } else {
            taskbar_bounds.left
        },
        top: if native_rect.top >= taskbar_bounds.top {
            native_rect.top
        } else {
            taskbar_bounds.top
        },
        right: if native_rect.right <= taskbar_bounds.right {
            native_rect.right
        } else {
            taskbar_bounds.right
        },
        bottom: if native_rect.bottom <= taskbar_bounds.bottom {
            native_rect.bottom
        } else {
            taskbar_bounds.bottom
        },
    };
    if rect.left < rect.right && rect.top < rect.bottom {
        Some(rect)
    } else {
        None
    }
}

/// The intersection of `r` with `bounds`, edge by edge.
pub open spec fn clipped(r: OccupiedRect, bounds: OccupiedRect) -> OccupiedRect {
    OccupiedRect {
        left: if r.left >= bounds.left {
            r.left
        } else {
            bounds.left
        },
        top: if r.top >= bounds.top {
            r.top
        } else {
            bounds.top
        },
        right: if r.right <= bounds.right {
            r.right
        } else {
            bounds.right
        },
        bottom: if r.bottom <= bounds.bottom {
            r.bottom
        } else {
            bounds.bottom
        },
    }
}

/// A frame container: it spans the whole taskbar, give or take two pixels.
pub open spec fn spans_taskbar(r: OccupiedRect, bounds: OccupiedRect) -> bool {
    &&& r.right - r.left >= spec_saturate(bounds.right - bounds.left - 2)
    &&& r.bottom - r.top >= spec_saturate(bounds.bottom - bounds.top - 2)
}

pub open spec fn spec_saturate(v: int) -> int {
    if v < i32::MIN {
        i32::MIN as int
    } else if v > i32::MAX {
        i32::MAX as int
    } else {
        v
    }
}

/// Whether `rect` is a frame container covering the whole taskbar.
pub fn covers_entire_taskbar(rect: OccupiedRect, taskbar_bounds: OccupiedRect) -> (r: bool)
    requires
        i32::MIN <= rect.right - rect.left <= i32::MAX,
        i32::MIN <= rect.bottom - rect.top <= i32::MAX,
        i32::MIN <= taskbar_bounds.right - taskbar_bounds.left <= i32::MAX,
        i32::MIN <= taskbar_bounds.bottom - taskbar_bounds.top <= i32::MAX,
    ensures
        r == spans_taskbar(rect, taskbar_bounds),
{
    let tw = crate::layout::saturating_sub_i32(taskbar_bounds.width(), 2);
    let th = crate::layout::saturating_sub_i32(taskbar_bounds.height(), 2);
    rect.width() >= tw && rect.height() >= th
}

/// The region read from one UI Automation element of the Explorer XAML host,
/// or `None` when the element is skipped: it belongs to another process, is
/// off screen (or its state cannot be read), has no readable rectangle,
/// lies outside the taskbar, spans the whole taskbar, or has neither a name
/// nor a class name.
pub fn region_from_automation_element(
    process_id: Option<i32>,
    explorer_process_id: u32,
    is_offscreen: Option<bool>,
    bounding_rect: Option<OccupiedRect>,
    taskbar_bounds: OccupiedRect,
    name: Option<String>,
    class_name: Option<String>,
) -> (r: Option<OccupiedRegion>)
    requires
        rect_fits(taskbar_bounds),
    ensures
        ({
            let expected = automation_element_rect(
                process_id,
                explorer_process_id,
                is_offscreen,
                bounding_rect,
                taskbar_bounds,
                text_or_empty(name),
                text_or_empty(class_name),
            );
            &&& r is Some <==> expected is Some
            &&& r matches Some(region) ==> {
                &&& region.rect == expected->0
                &&& region.name@ == text_or_empty(name)
                &&& region.class_name@ == text_or_empty(class_name)
            }
        }),
{
    let process_matches = match process_id {
        Some(id) => id >= 0 && id as u32 == explorer_process_id,
        None => false,
    };
    if !process_matches {
        return None;
    }
    let offscreen = match is_offscreen {
        Some(v) => v,
        None => true,
    };
    if offscreen {
        return None;
    }
    let native = match bounding_rect {
        Some(rect) => rect,
        None => return None,
    };
    let rect = match clip_native_rect(native, taskbar_bounds) {
        Some(rect) => rect,
        None => return None,
    };
    if covers_entire_taskbar(rect, taskbar_bounds) {
        return None;
    }
    let name = match name {
        Some(n) => n,
        None => String::new(),
    };
    let class_name = match class_name {
        Some(n) => n,
        None => String::new(),
    };
    if name.as_str().is_empty() && class_name.as_str().is_empty() {
        return None;
    }
    Some(OccupiedRegion { name, class_name, rect })
}

/// Differences of the taskbar's edges fit in an `i32`.
pub open spec fn rect_fits(r: OccupiedRect) -> bool {
    &&& i32::MIN <= r.right - r.left <= i32::MAX
    &&& i32::MIN <= r.bottom - r.top <= i32::MAX
}

/// The rectangle that an automation element contributes, or `None` when the
/// element is skipped.
pub open spec fn automation_element_rect(
    process_id: Option<i32>,
    explorer_process_id: u32,
    is_offscreen: Option<bool>,
    bounding_rect: Option<OccupiedRect>,
    taskbar_bounds: OccupiedRect,
    name_text: Seq<char>,
    class_text: Seq<char>,
) -> Option<OccupiedRect> {
    if !(process_id matches Some(id) && id >= 0 && id == explorer_process_id) {
        None
    } else if !(is_offscreen matches Some(false)) {
        None
    } else if bounding_rect is None {
        None
    } else {
        let c = clipped(bounding_rect->0, taskbar_bounds);
        if !(c.left < c.right && c.top < c.bottom) {
            None
        } else if spans_taskbar(c, taskbar_bounds) {
            None
        } else if name_text.len() == 0 && class_text.len() == 0 {
            None
        } else {
            Some(c)
        }
    }
}

/// The text of an optional string, empty when absent.
pub open spec fn text_or_empty(s: Option<String>) -> Seq<char> {
    match s {
        Some(t) => t@,
        None => Seq::<char>::empty(),
    }
}

/// The region contributed by one Win32 child window of the taskbar, or `None`
/// when the window is skipped: it is hidden, belongs to another process, has
/// no readable rectangle, lies outside the taskbar or spans all of it. Its
/// class name doubles as its name.
pub fn region_from_win32_child(
    is_visible: bool,
    process_id: u32,
    explorer_process_id: u32,
    window_rect: Option<OccupiedRect>,
    taskbar_bounds: OccupiedRect,
    class_name: String,
) -> (r: Option<OccupiedRegion>)
    requires
        rect_fits(taskbar_bounds),
    ensures
        ({
            let expected = win32_child_rect(
                is_visible,
                process_id,
                explorer_process_id,
                window_rect,
                taskbar_bounds,
            );
            &&& r is Some <==> expected is Some
            &&& r matches Some(region) ==> {
                &&& region.rect == expected->0
                &&& region.name@ == class_name@
                &&& region.class_name@ == class_name@
            }
        }),
{
    if !is_visible || process_id != explorer_process_id {
        return None;
    }
    let native = match window_rect {
        Some(rect) => rect,
        None => return None,
    };
    let rect = match clip_native_rect(native, taskbar_bounds) {
        Some(rect) => rect,
        None => return None,
    };
    if covers_entire_taskbar(rect, taskbar_bounds) {
        return None;
    }
    Some(OccupiedRegion { name: class_name.clone(), class_name, rect })
}

/// The rectangle that a Win32 child window contributes, or `None`.
pub open spec fn win32_child_rect(
    is_visible: bool,
    process_id: u32,
    explorer_process_id: u32,
    window_rect: Option<OccupiedRect>,
    taskbar_bounds: OccupiedRect,
) -> Option<OccupiedRect> {
    if !is_visible || process_id != explorer_process_id || window_rect is None {
        None
    } else {
        let c = clipped(window_rect->0, taskbar_bounds);
        if !(c.left < c.right && c.top < c.bottom) {
            None
        } else if spans_taskbar(c, taskbar_bounds) {
            None
        } else {
            Some(c)
        }
    }
}

// ---------------------------------------------------------------------------
// Ordering and de-duplication of regions.
// ---------------------------------------------------------------------------

/// Length in bytes of a region's name, as `str::len` reports it.
pub open spec fn name_len(r: OccupiedRegion) -> int {
    (encode_utf8(r.name@).len() as usize) as int
}

/// Regions are ordered by left edge, then right edge, then longer names first.
pub open spec fn region_le(a: OccupiedRegion, b: OccupiedRegion) -> bool {
    ||| a.rect.left < b.rect.left
    ||| (a.rect.left == b.rect.left && a.rect.right < b.rect.right)
    ||| (a.rect.left == b.rect.left && a.rect.right == b.rect.right && name_len(a) >= name_len(
        b,
    ))
}

/// Position at which a stable insertion sort places `x` into `s`: before the
/// first element that orders strictly after it.
pub open spec fn insertion_index(s: Seq<OccupiedRegion>, x: OccupiedRegion) -> int
    decreases s.len(),
{
    if s.len() == 0 {
        0
    } else if !region_le(s[0], x) {
        0
    } else {
        1 + insertion_index(s.drop_first(), x)
    }
}

/// The regions in stable order (as `sort_by` produces them).
pub open spec fn sorted_regions(s: Seq<OccupiedRegion>) -> Seq<OccupiedRegion>
    decreases s.len(),
{
    if s.len() == 0 {
        s
    } else {
        let p = sorted_regions(s.drop_last());
        p.insert(insertion_index(p, s.last()), s.last())
    }
}

/// The regions with every rectangle kept once, at its first element.
pub open spec fn dedup_rects(s: Seq<OccupiedRegion>) -> Seq<OccupiedRegion>
    decreases s.len(),
{
    if s.len() == 0 {
        s
    } else {
        let d = dedup_rects(s.drop_last());
        if has_rect(d, s.last().rect) {
            d
        } else {
            d.push(s.last())
        }
    }
}

/// Sorted by position (longer names first among equal positions), with
/// identical rectangles removed: the first, so longest-named, is kept.
pub open spec fn normalized_regions(s: Seq<OccupiedRegion>) -> Seq<OccupiedRegion> {
    dedup_rects(sorted_regions(s))
}

proof fn lemma_insertion_index(s: Seq<OccupiedRegion>, x: OccupiedRegion, p: int)
    requires
        0 <= p <= s.len(),
        forall|j: int| 0 <= j < p ==> region_le(#[trigger] s[j], x),
        p == s.len() || !region_le(s[p], x),
    ensures
        insertion_index(s, x) == p,
    decreases p,
{
    if p > 0 {
        let d = s.drop_first();
        assert forall|j: int| 0 <= j < p - 1 implies region_le(#[trigger] d[j], x) by {
            assert(d[j] == s[j + 1]);
        }
        if p - 1 < d.len() {
            assert(d[p - 1] == s[p]);
        }
        lemma_insertion_index(d, x, p - 1);
        assert(region_le(s[0], x));
    }
}

proof fn lemma_insertion_index_bounds(s: Seq<OccupiedRegion>, x: OccupiedRegion)
    ensures
        0 <= insertion_index(s, x) <= s.len(),
    decreases s.len(),
{
    if s.len() > 0 && region_le(s[0], x) {
        lemma_insertion_index_bounds(s.drop_first(), x);
    }
}

/// Whether `a` orders before or with `b`.
fn region_precedes(a: &OccupiedRegion, b: &OccupiedRegion) -> (r: bool)
    ensures
        r == region_le(*a, *b),
{
    if a.rect.left != b.rect.left {
        return a.rect.left < b.rect.left;
    }
    if a.rect.right != b.rect.right {
        return a.rect.right < b.rect.right;
    }
    a.name.as_str().len() >= b.name.as_str().len()
}

/// Stable insertion sort of the regions.
fn sort_regions(regions: Vec<OccupiedRegion>) -> (r: Vec<OccupiedRegion>)
    ensures
        r@ == sorted_regions(regions@),
{
    let ghost original = regions@;
    let mut rest = regions;
    let mut sorted: Vec<OccupiedRegion> = Vec::new();
    let ghost mut k: int = 0;
    while rest.len() > 0
        invariant
            0 <= k <= original.len(),
            rest@ == original.skip(k),
            sorted@ == sorted_regions(original.take(k)),
        decreases rest.len(),
    {
        let x = rest.remove(0);
        proof {
            assert(x == original[k]);
            assert(original.take(k + 1).drop_last() =~= original.take(k));
            assert(original.take(k + 1).last() == original[k]);
            k = k + 1;
            assert(rest@ =~= original.skip(k));
        }
        let mut p: usize = 0;
        while p < sorted.len() && region_precedes(&sorted[p], &x)
            invariant
                p <= sorted@.len(),
                forall|j: int| 0 <= j < p ==> region_le(#[trigger] sorted@[j], x),
            decreases sorted.len() - p,
        {
            p += 1;
        }
        proof {
            lemma_insertion_index(sorted@, x, p as int);
        }
        sorted.insert(p, x);
    }
    proof {
        assert(original.take(original.len() as int) =~= original);
    }
    sorted
}

/// Whether some kept region has the rectangle `rect`.
fn holds_rect(kept: &Vec<OccupiedRegion>, rect: OccupiedRect) -> (r: bool)
    ensures
        r == has_rect(kept@, rect),
{
    let mut i: usize = 0;
    while i < kept.len()
        invariant
            i <= kept@.len(),
            forall|j: int| 0 <= j < i ==> (#[trigger] kept@[j]).rect != rect,
        decreases kept.len() - i,
    {
        if kept[i].rect == rect {
            return true;
        }
        i += 1;
    }
    false
}

/// Removes each region whose rectangle is already held by a region kept
/// before it.
fn dedup_regions(regions: Vec<OccupiedRegion>) -> (r: Vec<OccupiedRegion>)
    ensures
        r@ == dedup_rects(regions@),
{
    let ghost original = regions@;
    let mut rest = regions;
    let mut kept: Vec<OccupiedRegion> = Vec::new();
    let ghost mut k: int = 0;
    while rest.len() > 0
        invariant
            0 <= k <= original.len(),
            rest@ == original.skip(k),
            kept@ == dedup_rects(original.take(k)),
        decreases rest.len(),
    {
        let x = rest.remove(0);
        proof {
            assert(x == original[k]);
            assert(original.take(k + 1).drop_last() =~= original.take(k));
            assert(original.take(k + 1).last() == original[k]);
            k = k + 1;
            assert(rest@ =~= original.skip(k));
        }
        if !holds_rect(&kept, x.rect) {
            kept.push(x);
        }
    }
    proof {
        assert(original.take(original.len() as int) =~= original);
    }
    kept
}

/// Every pair of regions is in order.
pub open spec fn regions_sorted(s: Seq<OccupiedRegion>) -> bool {
    forall|i: int, j: int| 0 <= i < j < s.len() ==> region_le(#[trigger] s[i], #[trigger] s[j])
}

/// No two regions share a rectangle.
pub open spec fn no_duplicate_rects(s: Seq<OccupiedRegion>) -> bool {
    forall|i: int, j: int| 0 <= i < j < s.len() ==> (#[trigger] s[i]).rect != (#[trigger] s[j]).rect
}

/// Each region of `t` has a longest name among the regions of `s` with its
/// rectangle.
pub open spec fn keeps_longest_names(t: Seq<OccupiedRegion>, s: Seq<OccupiedRegion>) -> bool {
    forall|i: int, j: int|
        0 <= i < t.len() && 0 <= j < s.len() && (#[trigger] s[j]).rect == (#[trigger] t[i]).rect
            ==> name_len(s[j]) <= name_len(t[i])
}

/// `r` is the rectangle of some element of `t`.
pub open spec fn has_rect(t: Seq<OccupiedRegion>, r: OccupiedRect) -> bool {
    exists|j: int| 0 <= j < t.len() && #[trigger] t[j].rect == r
}

/// Every rectangle of `s` is the rectangle of some element of `t`.
pub open spec fn covers_rects(t: Seq<OccupiedRegion>, s: Seq<OccupiedRegion>) -> bool {
    forall|i: int| 0 <= i < s.len() ==> #[trigger] has_rect(t, s[i].rect)
}

proof fn lemma_insertion_index_props(s: Seq<OccupiedRegion>, x: OccupiedRegion)
    ensures
        0 <= insertion_index(s, x) <= s.len(),
        forall|j: int| 0 <= j < insertion_index(s, x) ==> region_le(#[trigger] s[j], x),
        insertion_index(s, x) < s.len() ==> !region_le(s[insertion_index(s, x)], x),
    decreases s.len(),
{
    if s.len() > 0 && region_le(s[0], x) {
        let d = s.drop_first();
        lemma_insertion_index_props(d, x);
        assert forall|j: int| 0 <= j < insertion_index(s, x) implies region_le(#[trigger] s[j], x) by {
            if j > 0 {
                assert(s[j] == d[j - 1]);
            }
        }
        if insertion_index(s, x) < s.len() {
            assert(s[insertion_index(s, x)] == d[insertion_index(d, x)]);
        }
    }
}

proof fn lemma_insert_sorted(p: Seq<OccupiedRegion>, x: OccupiedRegion)
    requires
        regions_sorted(p),
    ensures
        regions_sorted(p.insert(insertion_index(p, x), x)),
{
    lemma_insertion_index_props(p, x);
    let k = insertion_index(p, x);
    p.insert_ensures(k, x);
    let o = p.insert(k, x);
    assert forall|a: int, b: int| 0 <= a < b < o.len() implies region_le(
        #[trigger] o[a],
        #[trigger] o[b],
    ) by {
        if b < k {
            assert(o[a] == p[a] && o[b] == p[b]);
        } else if b == k {
            assert(o[a] == p[a]);
        } else if a == k {
            assert(o[b] == p[b - 1]);
            if k < b - 1 {
                assert(region_le(p[k], p[b - 1]));
            }
        } else if a < k {
            assert(o[a] == p[a] && o[b] == p[b - 1]);
        } else {
            assert(o[a] == p[a - 1] && o[b] == p[b - 1]);
        }
    }
}

proof fn lemma_insert_contains(p: Seq<OccupiedRegion>, k: int, x: OccupiedRegion)
    requires
        0 <= k <= p.len(),
    ensures
        forall|y: OccupiedRegion| p.insert(k, x).contains(y) <==> (p.contains(y) || y == x),
{
    p.insert_ensures(k, x);
    let o = p.insert(k, x);
    assert forall|y: OccupiedRegion| o.contains(y) <==> (p.contains(y) || y == x) by {
        if o.contains(y) {
            let i = choose|i: int| 0 <= i < o.len() && o[i] == y;
            if i < k {
                assert(p[i] == y);
            } else if i > k {
                assert(p[i - 1] == y);
            }
        }
        if p.contains(y) {
            let m = choose|m: int| 0 <= m < p.len() && p[m] == y;
            if m < k {
                assert(o[m] == y);
            } else {
                assert(o[m + 1] == y);
            }
        }
        if y == x {
            assert(o[k] == y);
        }
    }
}

proof fn lemma_drop_last_contains(s: Seq<OccupiedRegion>)
    requires
        s.len() > 0,
    ensures
        forall|y: OccupiedRegion| s.contains(y) <==> (s.drop_last().contains(y) || y == s.last()),
{
    let d = s.drop_last();
    assert forall|y: OccupiedRegion| s.contains(y) <==> (d.contains(y) || y == s.last()) by {
        if s.contains(y) {
            let i = choose|i: int| 0 <= i < s.len() && s[i] == y;
            if i < s.len() - 1 {
                assert(d[i] == y);
            }
        }
        if d.contains(y) {
            let m = choose|m: int| 0 <= m < d.len() && d[m] == y;
            assert(s[m] == y);
        }
        if y == s.last() {
            assert(s[s.len() - 1] == y);
        }
    }
}

proof fn lemma_sorted_regions_props(s: Seq<OccupiedRegion>)
    ensures
        sorted_regions(s).len() == s.len(),
        regions_sorted(sorted_regions(s)),
        forall|y: OccupiedRegion| sorted_regions(s).contains(y) <==> s.contains(y),
    decreases s.len(),
{
    if s.len() > 0 {
        let prefix = s.drop_last();
        let p = sorted_regions(prefix);
        let x = s.last();
        lemma_sorted_regions_props(prefix);
        lemma_insertion_index_props(p, x);
        let k = insertion_index(p, x);
        p.insert_ensures(k, x);
        lemma_insert_sorted(p, x);
        lemma_insert_contains(p, k, x);
        lemma_drop_last_contains(s);
    }
}

proof fn lemma_cover_push(d: Seq<OccupiedRegion>, p: Seq<OccupiedRegion>, x: OccupiedRegion)
    requires
        covers_rects(d, p),
    ensures
        covers_rects(d.push(x), p.push(x)),
{
    let o = d.push(x);
    let s = p.push(x);
    assert forall|i: int| 0 <= i < s.len() implies #[trigger] has_rect(o, s[i].rect) by {
        if i < p.len() {
            assert(s[i] == p[i]);
            assert(has_rect(d, p[i].rect));
            let j = choose|j: int| 0 <= j < d.len() && #[trigger] d[j].rect == p[i].rect;
            assert(o[j] == d[j]);
            assert(o[j].rect == s[i].rect);
        } else {
            assert(o[o.len() - 1] == s[i]);
            assert(o[o.len() - 1].rect == s[i].rect);
        }
    }
}

proof fn lemma_dedup_rects_props(s: Seq<OccupiedRegion>)
    requires
        regions_sorted(s),
    ensures
        regions_sorted(dedup_rects(s)),
        no_duplicate_rects(dedup_rects(s)),
        forall|y: OccupiedRegion| dedup_rects(s).contains(y) ==> s.contains(y),
        covers_rects(dedup_rects(s), s),
        keeps_longest_names(dedup_rects(s), s),
    decreases s.len(),
{
    if s.len() > 0 {
        let prefix = s.drop_last();
        let x = s.last();
        assert(regions_sorted(prefix)) by {
            assert forall|i: int, j: int| 0 <= i < j < prefix.len() implies region_le(
                #[trigger] prefix[i],
                #[trigger] prefix[j],
            ) by {
                assert(prefix[i] == s[i] && prefix[j] == s[j]);
            }
        }
        lemma_dedup_rects_props(prefix);
        let d = dedup_rects(prefix);
        let o = dedup_rects(s);
        assert(s =~= prefix.push(x));
        assert forall|y: OccupiedRegion| d.contains(y) implies region_le(y, x) by {
            assert(prefix.contains(y));
            let m = choose|m: int| 0 <= m < prefix.len() && prefix[m] == y;
            assert(s[m] == y);
            assert(region_le(s[m], s[s.len() - 1]));
        }
        assert forall|y: OccupiedRegion| d.contains(y) implies s.contains(y) by {
            assert(prefix.contains(y));
            let m = choose|m: int| 0 <= m < prefix.len() && prefix[m] == y;
            assert(s[m] == y);
        }
        if has_rect(d, x.rect) {
            assert(o == d);
            assert forall|i: int| 0 <= i < s.len() implies #[trigger] has_rect(o, s[i].rect) by {
                if i < s.len() - 1 {
                    assert(s[i] == prefix[i]);
                    assert(has_rect(d, prefix[i].rect));
                }
            }
            assert forall|i: int, j: int|
                0 <= i < o.len() && 0 <= j < s.len() && (#[trigger] s[j]).rect == (
                #[trigger] o[i]).rect implies name_len(s[j]) <= name_len(o[i]) by {
                if j < s.len() - 1 {
                    assert(s[j] == prefix[j]);
                } else {
                    assert(d.contains(d[i]));
                    assert(region_le(d[i], x));
                }
            }
        } else {
            assert(o == d.push(x));
            assert forall|a: int, b: int| 0 <= a < b < o.len() implies region_le(
                #[trigger] o[a],
                #[trigger] o[b],
            ) by {
                if b == o.len() - 1 {
                    assert(o[a] == d[a]);
                    assert(d.contains(d[a]));
                } else {
                    assert(o[a] == d[a] && o[b] == d[b]);
                }
            }
            assert forall|a: int, b: int| 0 <= a < b < o.len() implies (#[trigger] o[a]).rect != (
            #[trigger] o[b]).rect by {
                if b == o.len() - 1 {
                    assert(o[a] == d[a]);
                    if d[a].rect == x.rect {
                        assert(has_rect(d, x.rect));
                    }
                } else {
                    assert(o[a] == d[a] && o[b] == d[b]);
                }
            }
            lemma_cover_push(d, prefix, x);
            assert forall|y: OccupiedRegion| o.contains(y) implies s.contains(y) by {
                let i = choose|i: int| 0 <= i < o.len() && o[i] == y;
                if i == o.len() - 1 {
                    assert(s[s.len() - 1] == y);
                } else {
                    assert(d[i] == y);
                    assert(d.contains(y));
                }
            }
            assert forall|i: int, j: int|
                0 <= i < o.len() && 0 <= j < s.len() && (#[trigger] s[j]).rect == (
                #[trigger] o[i]).rect implies name_len(s[j]) <= name_len(o[i]) by {
                if i < o.len() - 1 {
                    assert(o[i] == d[i]);
                    if j < s.len() - 1 {
                        assert(s[j] == prefix[j]);
                    } else {
                        assert(has_rect(d, x.rect));
                    }
                } else if j < s.len() - 1 {
                    assert(s[j] == prefix[j]);
                    assert(has_rect(d, prefix[j].rect));
                    let k = choose|k: int| 0 <= k < d.len() && #[trigger] d[k].rect == prefix[j].rect;
                    assert(d[k].rect == x.rect);
                    assert(has_rect(d, x.rect));
                }
            }
        }
    }
}

/// Sorts the regions by their horizontal position (left edge, then right
/// edge, longer names first) and drops identical rectangles, keeping the
/// element with the longest name among them.
///
/// The result is ordered, holds no two regions with the same rectangle,
/// holds only regions of the input, keeps every rectangle that the input
/// holds, and for each rectangle keeps a longest-named region of it.
pub fn normalize_regions(regions: Vec<OccupiedRegion>) -> (r: Vec<OccupiedRegion>)
    ensures
        r@ == normalized_regions(regions@),
        regions_sorted(r@),
        no_duplicate_rects(r@),
        forall|y: OccupiedRegion| r@.contains(y) ==> regions@.contains(y),
        covers_rects(r@, regions@),
        keeps_longest_names(r@, regions@),
{
    let ghost original = regions@;
    let sorted = sort_regions(regions);
    proof {
        lemma_normalized_regions_props(original);
    }
    dedup_regions(sorted)
}

/// What normalising guarantees of any list of regions.
pub proof fn lemma_normalized_regions_props(s: Seq<OccupiedRegion>)
    ensures
        regions_sorted(normalized_regions(s)),
        no_duplicate_rects(normalized_regions(s)),
        forall|y: OccupiedRegion| normalized_regions(s).contains(y) ==> s.contains(y),
        covers_rects(normalized_regions(s), s),
        keeps_longest_names(normalized_regions(s), s),
{
    let sorted = sorted_regions(s);
    let n = normalized_regions(s);
    lemma_sorted_regions_props(s);
    lemma_dedup_rects_props(sorted);
    assert forall|i: int| 0 <= i < s.len() implies #[trigger] has_rect(n, s[i].rect) by {
        assert(s.contains(s[i]));
        assert(sorted.contains(s[i]));
        let m = choose|m: int| 0 <= m < sorted.len() && sorted[m] == s[i];
        assert(has_rect(n, sorted[m].rect));
    }
    assert forall|i: int, j: int|
        0 <= i < n.len() && 0 <= j < s.len() && (#[trigger] s[j]).rect == (#[trigger] n[i]).rect
            implies name_len(s[j]) <= name_len(n[i]) by {
        assert(s.contains(s[j]));
        assert(sorted.contains(s[j]));
        let m = choose|m: int| 0 <= m < sorted.len() && sorted[m] == s[j];
        assert(sorted[m].rect == n[i].rect);
    }
}

/// An element of the XAML host gives a region exactly when it belongs to
/// Explorer, is on screen, has a rectangle that overlaps the taskbar
/// without spanning all of it, and has a name or a class name (one of the
/// two is enough). The region is the part of its rectangle inside the
/// taskbar.
pub proof fn lemma_automation_element_kept(
    process_id: Option<i32>,
    explorer_process_id: u32,
    is_offscreen: Option<bool>,
    bounding_rect: Option<OccupiedRect>,
    taskbar_bounds: OccupiedRect,
    name_text: Seq<char>,
    class_text: Seq<char>,
)
    ensures
        automation_element_rect(
            process_id,
            explorer_process_id,
            is_offscreen,
            bounding_rect,
            taskbar_bounds,
            name_text,
            class_text,
        ) is Some <==> {
            &&& process_id matches Some(id) && id >= 0 && id == explorer_process_id
            &&& is_offscreen == Some(false)
            &&& bounding_rect matches Some(b) && {
                let c = clipped(b, taskbar_bounds);
                c.left < c.right && c.top < c.bottom && !spans_taskbar(c, taskbar_bounds)
            }
            &&& (name_text.len() > 0 || class_text.len() > 0)
        },
        automation_element_rect(
            process_id,
            explorer_process_id,
            is_offscreen,
            bounding_rect,
            taskbar_bounds,
            name_text,
            class_text,
        ) matches Some(c) ==> {
            &&& c == clipped(bounding_rect->0, taskbar_bounds)
            &&& taskbar_bounds.left <= c.left < c.right <= taskbar_bounds.right
            &&& taskbar_bounds.top <= c.top < c.bottom <= taskbar_bounds.bottom
        },
{
}

/// A child window of the taskbar gives a region exactly when it is visible,
/// belongs to Explorer, and has a rectangle that overlaps the taskbar
/// without spanning all of it. The region is the part of its rectangle
/// inside the taskbar.
pub proof fn lemma_win32_child_kept(
    is_visible: bool,
    process_id: u32,
    explorer_process_id: u32,
    window_rect: Option<OccupiedRect>,
    taskbar_bounds: OccupiedRect,
)
    ensures
        win32_child_rect(is_visible, process_id, explorer_process_id, window_rect, taskbar_bounds)
            is Some <==> {
            &&& is_visible
            &&& process_id == explorer_process_id
            &&& window_rect matches Some(w) && {
                let c = clipped(w, taskbar_bounds);
                c.left < c.right && c.top < c.bottom && !spans_taskbar(c, taskbar_bounds)
            }
        },
        win32_child_rect(is_visible, process_id, explorer_process_id, window_rect, taskbar_bounds)
            matches Some(c) ==> {
            &&& c == clipped(window_rect->0, taskbar_bounds)
            &&& taskbar_bounds.left <= c.left < c.right <= taskbar_bounds.right
            &&& taskbar_bounds.top <= c.top < c.bottom <= taskbar_bounds.bottom
        },
{
}

} // verus!
