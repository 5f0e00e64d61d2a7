//! Sizing and placement of captured regions.
//!
//! Each tracked window contributes one capture region, sized to its last
//! negotiated client area.  The composite layout stacks the regions
//! vertically, each at a destination offset equal to the summed heights of
//! the regions before it, so no two regions overlap by construction.  The
//! presented window is sized from the union of the region sizes plus the
//! window-chrome metrics the operating system reports.

use vstd::prelude::*;

verus! {

/// The last negotiated client size of one tracked window; the source of
/// truth for buffer sizing and placement.
#[derive(Clone, Copy, PartialEq, Eq, Structural, Debug)]
pub struct CaptureRegion {
    /// Client width in pixels.
    pub width: u32,
    /// Client height in rows.
    pub height: u32,
}

/// Window-chrome metrics reported by the operating system, used to size
/// the presented window around the composited content.
#[derive(Clone, Copy, PartialEq, Eq, Structural, Debug)]
pub struct ChromeMetrics {
    /// Horizontal border thickness.
    pub border_x: u32,
    /// Vertical border thickness.
    pub border_y: u32,
    /// Caption-bar height, padded border included.
    pub caption: u32,
    /// Extra horizontal padding.
    pub padding_x: u32,
}

/// One placed region: where its rows land in the shared back buffer.
#[derive(Clone, Copy, PartialEq, Eq, Structural, Debug)]
pub struct RegionSlot {
    /// The region's size.
    pub region: CaptureRegion,
    /// First destination row of the region in the back buffer.
    pub y_offset: u32,
}

/// Sum of the heights of the first `n` regions.
pub open spec fn prefix_height(regions: Seq<CaptureRegion>, n: int) -> int
    decreases n,
{
    if n <= 0 {
        0
    } else {
        prefix_height(regions, n - 1) + regions[n - 1].height
    }
}

/// Sum of the heights of all regions: the content height of the stack.
pub open spec fn total_height(regions: Seq<CaptureRegion>) -> int {
    prefix_height(regions, regions.len() as int)
}

/// The widest region's width: the content width of the stack.
pub open spec fn max_width(regions: Seq<CaptureRegion>) -> int
    decreases regions.len(),
{
    if regions.len() == 0 {
        0
    } else {
        let rest = max_width(regions.drop_last());
        if regions.last().width > rest {
            regions.last().width as int
        } else {
            rest
        }
    }
}

/// The slots place `regions` as a vertical stack: one slot per region, in
/// order, each offset the summed heights of the regions before it.
pub open spec fn stacks(slots: Seq<RegionSlot>, regions: Seq<CaptureRegion>) -> bool {
    &&& slots.len() == regions.len()
    &&& forall|i: int|
        0 <= i < slots.len() ==> (#[trigger] slots[i]).region == regions[i] && slots[i].y_offset
            == prefix_height(regions, i)
}

/// The destination offsets assigning each captured region its
/// non-overlapping rows of the shared output surface.
pub struct CompositeLayout {
    /// The placed regions, in stacking order.
    pub slots: Vec<RegionSlot>,
}

impl CompositeLayout {
    /// The layout places exactly `regions`, stacked vertically.
    pub open spec fn places(&self, regions: Seq<CaptureRegion>) -> bool {
        stacks(self.slots@, regions)
    }
}

/// Prefix heights never shrink as more regions are counted.
pub proof fn lemma_prefix_height_monotonic(regions: Seq<CaptureRegion>, a: int, b: int)
    requires
        0 <= a <= b,
    ensures
        prefix_height(regions, a) <= prefix_height(regions, b),
    decreases b - a,
{
    if a < b {
        lemma_prefix_height_monotonic(regions, a, b - 1);
    }
}

/// Prefix heights are never negative.
pub proof fn lemma_prefix_height_nonneg(regions: Seq<CaptureRegion>, n: int)
    ensures
        prefix_height(regions, n) >= 0,
    decreases n,
{
    if n > 0 {
        lemma_prefix_height_nonneg(regions, n - 1);
    }
}

/// The widest width is never negative.
pub proof fn lemma_max_width_nonneg(regions: Seq<CaptureRegion>)
    ensures
        max_width(regions) >= 0,
    decreases regions.len(),
{
    if regions.len() > 0 {
        lemma_max_width_nonneg(regions.drop_last());
    }
}

/// No region is wider than the widest.
pub proof fn lemma_max_width_bounds(regions: Seq<CaptureRegion>, i: int)
    requires
        0 <= i < regions.len(),
    ensures
        regions[i].width <= max_width(regions),
    decreases regions.len(),
{
    if i + 1 < regions.len() {
        lemma_max_width_bounds(regions.drop_last(), i);
    }
}

/// Stacked slots occupy disjoint row ranges: an earlier slot's rows end at
/// or before a later slot's first row.  No two regions overlap in the
/// destination layout.
pub proof fn lemma_stack_disjoint(
    slots: Seq<RegionSlot>,
    regions: Seq<CaptureRegion>,
    i: int,
    j: int,
)
    requires
        stacks(slots, regions),
        0 <= i < j < slots.len(),
    ensures
        slots[i].y_offset + slots[i].region.height <= slots[j].y_offset,
{
    assert(prefix_height(regions, i + 1) == prefix_height(regions, i) + regions[i].height);
    lemma_prefix_height_monotonic(regions, i + 1, j);
}

/// Computes the vertical stack for `regions`: offsets are cumulative sums
/// of the prior region heights.  `None` exactly when the stacked height
/// would not fit in `u32`.
pub fn compute_layout(regions: &Vec<CaptureRegion>) -> (r: Option<CompositeLayout>)
    ensures
        match r {
            Some(layout) => {
                &&& layout.places(regions@)
                &&& total_height(regions@) <= u32::MAX
            },
            None => total_height(regions@) > u32::MAX,
        },
{
    let n = regions.len();
    let mut slots: Vec<RegionSlot> = Vec::new();
    let mut offset: u32 = 0;
    let mut i: usize = 0;
    while i < n
        invariant
            n == regions@.len(),
            i <= n,
            slots@.len() == i,
            offset == prefix_height(regions@, i as int),
            forall|k: int|
                0 <= k < i ==> (#[trigger] slots@[k]).region == regions@[k] && slots@[k].y_offset
                    == prefix_height(regions@, k),
        decreases n - i,
    {
        let region = regions[i];
        slots.push(RegionSlot { region, y_offset: offset });
        if region.height > u32::MAX - offset {
            proof {
                lemma_prefix_height_monotonic(regions@, i + 1, regions@.len() as int);
            }
            return None;
        }
        offset = offset + region.height;
        i = i + 1;
    }
    Some(CompositeLayout { slots })
}

/// The size of the presented window: the content stack plus chrome.  The
/// width is the widest region's width plus twice the horizontal border and
/// the padding; the height is the summed region heights plus twice the
/// vertical border and the caption height.  `None` exactly when either
/// sum would not fit in `u32`.
pub fn surface_size(regions: &Vec<CaptureRegion>, chrome: &ChromeMetrics) -> (r: Option<
    (u32, u32),
>)
    ensures
        match r {
            Some((w, h)) => {
                &&& w == max_width(regions@) + 2 * chrome.border_x + chrome.padding_x
                &&& h == total_height(regions@) + 2 * chrome.border_y + chrome.caption
            },
            None => max_width(regions@) + 2 * chrome.border_x + chrome.padding_x > u32::MAX
                || total_height(regions@) + 2 * chrome.border_y + chrome.caption > u32::MAX,
        },
{
    let n = regions.len();
    let mut widest: u32 = 0;
    let mut stack: u64 = 0;
    let mut i: usize = 0;
    while i < n
        invariant
            n == regions@.len(),
            i <= n,
            widest == max_width(regions@.take(i as int)),
            stack == prefix_height(regions@, i as int),
            stack <= u32::MAX,
        decreases n - i,
    {
        let region = regions[i];
        proof {
            assert(regions@.take(i + 1).drop_last() =~= regions@.take(i as int));
            assert(regions@.take(i + 1).last() == regions@[i as int]);
        }
        if region.width > widest {
            widest = region.width;
        }
        stack = stack + (region.height as u64);
        if stack > (u32::MAX as u64) {
            proof {
                lemma_prefix_height_monotonic(regions@, i + 1, regions@.len() as int);
            }
            return None;
        }
        i = i + 1;
    }
    proof {
        assert(regions@.take(n as int) =~= regions@);
    }
    let border_x2: u64 = 2 * (chrome.border_x as u64);
    let width_total: u64 = (widest as u64) + border_x2 + (chrome.padding_x as u64);
    let height_total: u64 = stack + 2 * (chrome.border_y as u64) + (chrome.caption as u64);
    if width_total > (u32::MAX as u64) || height_total > (u32::MAX as u64) {
        return None;
    }
    Some((width_total as u32, height_total as u32))
}

/// Turns one reported client rectangle into a capture region.  `None`
/// exactly when the rectangle is inverted (its right edge left of its
/// left edge, or its bottom above its top).
pub fn client_size(left: i32, top: i32, right: i32, bottom: i32) -> (r: Option<CaptureRegion>)
    ensures
        match r {
            Some(region) => {
                &&& left <= right
                &&& top <= bottom
                &&& region.width == right - left
                &&& region.height == bottom - top
            },
            None => right < left || bottom < top,
        },
{
    if right < left || bottom < top {
        return None;
    }
    let width: u32 = ((right as i64) - (left as i64)) as u32;
    let height: u32 = ((bottom as i64) - (top as i64)) as u32;
    Some(CaptureRegion { width, height })
}

} // verus!
