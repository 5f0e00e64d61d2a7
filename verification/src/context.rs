//! The render context: the tracked region sizes, the composite layout,
//! and the shared back buffer, owned as one explicit value.
//!
//! Exactly one back buffer is live at a time.  On a detected client-size
//! change the layout is recomputed and the back buffer replaced wholesale
//! before the next compose; the generation counters record that any
//! render-target view bound to the prior back buffer is invalidated and
//! rebound to the new one.  Compositing demands a view bound to the
//! current back buffer, so a stale view can never be written through.

use vstd::prelude::*;

use crate::layout::compute_layout;
use crate::layout::lemma_max_width_bounds;
use crate::layout::lemma_max_width_nonneg;
use crate::layout::lemma_prefix_height_monotonic;
use crate::layout::lemma_prefix_height_nonneg;
use crate::layout::lemma_stack_disjoint;
use crate::layout::max_width;
use crate::layout::prefix_height;
use crate::layout::surface_size;
use crate::layout::total_height;
use crate::layout::CaptureRegion;
use crate::layout::ChromeMetrics;
use crate::layout::CompositeLayout;
use crate::surface::region_copied;
use crate::surface::surface_byte;
use crate::surface::BackBuffer;
use crate::surface::GpuTexture;

verus! {

/// A wanted layout could not be realised: some size or byte count
/// exceeds what the machine can address.
#[derive(Clone, Copy, PartialEq, Eq, Structural, Debug)]
pub struct SizeOverflow;

/// The stack of `regions` with `chrome` fits the machine's limits: both
/// presented-window dimensions fit in `u32` and the back buffer's byte
/// count fits in `usize`.
pub open spec fn sizes_fit(regions: Seq<CaptureRegion>, chrome: ChromeMetrics) -> bool {
    &&& max_width(regions) + 2 * chrome.border_x + chrome.padding_x <= u32::MAX
    &&& total_height(regions) + 2 * chrome.border_y + chrome.caption <= u32::MAX
    &&& max_width(regions) * total_height(regions) * 4 <= usize::MAX
}

/// The process-wide render state, owned explicitly and passed by
/// exclusive reference: single-threaded access is structural, so the
/// compositor and the resize handling can never run concurrently.
pub struct RenderContext {
    /// Last known client sizes of the tracked windows, in stacking order.
    pub regions: Vec<CaptureRegion>,
    /// The current composite layout, stacking `regions`.
    pub layout: CompositeLayout,
    /// The shared back buffer, sized to the content stack.
    pub back: BackBuffer,
    /// Chrome metrics of the presented window.
    pub chrome: ChromeMetrics,
    /// Outer width of the presented window.
    pub window_width: u32,
    /// Outer height of the presented window.
    pub window_height: u32,
    /// Identifies the live back-buffer incarnation.
    pub surface_generation: u64,
    /// The incarnation the render-target view is bound to.
    pub bound_generation: u64,
}

impl RenderContext {
    /// The context is consistent: the layout stacks exactly the tracked
    /// regions, the back buffer is sized to the content stack, the
    /// window size is the content stack plus chrome, and the
    /// render-target view is bound to the live back buffer.
    pub open spec fn wf(&self) -> bool {
        &&& self.layout.places(self.regions@)
        &&& self.back.spec_width() == max_width(self.regions@)
        &&& self.back.spec_height() == total_height(self.regions@)
        &&& self.window_width == max_width(self.regions@) + 2 * self.chrome.border_x
            + self.chrome.padding_x
        &&& self.window_height == total_height(self.regions@) + 2 * self.chrome.border_y
            + self.chrome.caption
        &&& self.bound_generation == self.surface_generation
    }

    /// Builds the context for `regions`: layout, zero-filled back buffer
    /// and window size, with the view bound to the first back buffer.
    /// `None` exactly when the stack does not fit the machine's limits.
    pub fn new(regions: Vec<CaptureRegion>, chrome: ChromeMetrics) -> (r: Option<RenderContext>)
        ensures
            match r {
                Some(ctx) => {
                    &&& sizes_fit(regions@, chrome)
                    &&& ctx.wf()
                    &&& ctx.regions@ == regions@
                    &&& ctx.chrome == chrome
                    &&& ctx.surface_generation == 0
                    &&& forall|i: int| 0 <= i < ctx.back@.len() ==> ctx.back@[i] == 0u8
                },
                None => !sizes_fit(regions@, chrome),
            },
    {
        let layout = match compute_layout(&regions) {
            None => {
                return None;
            },
            Some(layout) => layout,
        };
        let (window_width, window_height) = match surface_size(&regions, &chrome) {
            None => {
                return None;
            },
            Some(dims) => dims,
        };
        proof {
            lemma_max_width_nonneg(regions@);
            lemma_prefix_height_nonneg(regions@, regions@.len() as int);
        }
        let content_width: u32 = window_width - chrome.border_x - chrome.border_x
            - chrome.padding_x;
        let content_height: u32 = window_height - chrome.border_y - chrome.border_y
            - chrome.caption;
        let back = match BackBuffer::new_zeroed(content_width, content_height) {
            None => {
                return None;
            },
            Some(back) => back,
        };
        Some(
            RenderContext {
                regions,
                layout,
                back,
                chrome,
                window_width,
                window_height,
                surface_generation: 0,
                bound_generation: 0,
            },
        )
    }

    /// Compares the tracked sizes with freshly polled ones.
    fn sizes_changed(&self, current: &Vec<CaptureRegion>) -> (r: bool)
        ensures
            r == !(current@ =~= self.regions@),
    {
        let n = current.len();
        if n != self.regions.len() {
            return true;
        }
        let mut i: usize = 0;
        while i < n
            invariant
                n == current@.len(),
                n == self.regions@.len(),
                i <= n,
                forall|k: int| 0 <= k < i ==> current@[k] == self.regions@[k],
            decreases n - i,
        {
            if current[i] != self.regions[i] {
                return true;
            }
            i = i + 1;
        }
        proof {
            assert(current@ =~= self.regions@);
        }
        false
    }

    /// Polls the tracked windows' current client sizes into the context.
    ///
    /// With no change, nothing happens and `Ok(false)` comes back.  On a
    /// change, within this call — and so within the tick that made it —
    /// the layout is recomputed for the new sizes, the back buffer is
    /// replaced by a fresh zero-filled one, and the render-target view
    /// binding moves to the new back buffer's generation, invalidating
    /// any view of the prior one; `Ok(true)` comes back.  When the new
    /// stack does not fit the machine's limits the context is left
    /// untouched and `Err(SizeOverflow)` comes back.
    pub fn observe_sizes(&mut self, current: &Vec<CaptureRegion>) -> (r: Result<
        bool,
        SizeOverflow,
    >)
        requires
            old(self).wf(),
            old(self).surface_generation < u64::MAX,
        ensures
            match r {
                Ok(changed) => {
                    &&& changed == !(current@ =~= old(self).regions@)
                    &&& final(self).wf()
                    &&& final(self).regions@ =~= current@
                    &&& final(self).chrome == old(self).chrome
                    &&& (if changed {
                        &&& final(self).surface_generation == old(self).surface_generation + 1
                        &&& final(self).bound_generation == final(self).surface_generation
                        &&& forall|i: int|
                            0 <= i < final(self).back@.len() ==> final(self).back@[i] == 0u8
                    } else {
                        *final(self) == *old(self)
                    })
                },
                Err(_) => {
                    &&& *final(self) == *old(self)
                    &&& !(current@ =~= old(self).regions@)
                    &&& !sizes_fit(current@, old(self).chrome)
                },
            },
    {
        if !self.sizes_changed(current) {
            proof {
                assert(current@ =~= self.regions@);
            }
            return Ok(false);
        }
        let layout = match compute_layout(current) {
            None => {
                return Err(SizeOverflow);
            },
            Some(layout) => layout,
        };
        let (window_width, window_height) = match surface_size(current, &self.chrome) {
            None => {
                return Err(SizeOverflow);
            },
            Some(dims) => dims,
        };
        proof {
            lemma_max_width_nonneg(current@);
            lemma_prefix_height_nonneg(current@, current@.len() as int);
        }
        let content_width: u32 = window_width - self.chrome.border_x - self.chrome.border_x
            - self.chrome.padding_x;
        let content_height: u32 = window_height - self.chrome.border_y - self.chrome.border_y
            - self.chrome.caption;
        let back = match BackBuffer::new_zeroed(content_width, content_height) {
            None => {
                return Err(SizeOverflow);
            },
            Some(back) => back,
        };
        let mut regions: Vec<CaptureRegion> = Vec::new();
        let n = current.len();
        let mut i: usize = 0;
        while i < n
            invariant
                n == current@.len(),
                i <= n,
                regions@.len() == i,
                forall|k: int| 0 <= k < i ==> regions@[k] == current@[k],
            decreases n - i,
        {
            regions.push(current[i]);
            i = i + 1;
        }
        proof {
            assert(regions@ =~= current@);
        }
        self.regions = regions;
        self.layout = layout;
        self.back = back;
        self.window_width = window_width;
        self.window_height = window_height;
        self.surface_generation = self.surface_generation + 1;
        self.bound_generation = self.surface_generation;
        Ok(true)
    }

    /// Copies `tex` — the fresh texture of the region in slot `index` —
    /// into the back buffer at the slot's destination offset `(0, y)`.
    /// Demands a render-target view bound to the live back buffer (part
    /// of `wf`), and clips rather than writing past the buffer's bounds.
    pub fn compose_frame(&mut self, index: usize, tex: &GpuTexture)
        requires
            old(self).wf(),
            index < old(self).layout.slots@.len(),
            tex.spec_width() == old(self).layout.slots@[index as int].region.width,
            tex.spec_height() == old(self).layout.slots@[index as int].region.height,
        ensures
            final(self).wf(),
            final(self).regions == old(self).regions,
            final(self).layout == old(self).layout,
            final(self).chrome == old(self).chrome,
            final(self).window_width == old(self).window_width,
            final(self).window_height == old(self).window_height,
            final(self).surface_generation == old(self).surface_generation,
            final(self).bound_generation == old(self).bound_generation,
            final(self).back.spec_width() == old(self).back.spec_width(),
            final(self).back.spec_height() == old(self).back.spec_height(),
            final(self).back@.len() == old(self).back@.len(),
            region_copied(
                old(self).back@,
                final(self).back@,
                tex@,
                old(self).back.spec_width() as int,
                old(self).back.spec_height() as int,
                tex.spec_width() as int,
                tex.spec_height() as int,
                old(self).layout.slots@[index as int].y_offset as int,
            ),
    {
        let dest_y = self.layout.slots[index].y_offset;
        self.back.compose_region(tex, dest_y);
    }

    /// Composes one frame per slot, in stacking order: afterwards every
    /// slot's rows of the back buffer hold exactly its frame's bytes.
    /// The slots' row ranges are disjoint by construction, so no copy
    /// disturbs another region's rows.
    pub fn compose_all(&mut self, frames: &Vec<GpuTexture>)
        requires
            old(self).wf(),
            frames@.len() == old(self).regions@.len(),
            forall|k: int|
                0 <= k < frames@.len() ==> (#[trigger] frames@[k]).spec_width()
                    == old(self).regions@[k].width && frames@[k].spec_height()
                    == old(self).regions@[k].height,
        ensures
            final(self).wf(),
            final(self).regions == old(self).regions,
            final(self).layout == old(self).layout,
            final(self).chrome == old(self).chrome,
            final(self).window_width == old(self).window_width,
            final(self).window_height == old(self).window_height,
            final(self).surface_generation == old(self).surface_generation,
            final(self).bound_generation == old(self).bound_generation,
            final(self).back@.len() == old(self).back@.len(),
            forall|k: int, y: int, j: int|
                0 <= k < old(self).regions@.len() && 0 <= y < old(self).regions@[k].height && 0
                    <= j < old(self).regions@[k].width * 4 ==> #[trigger] surface_byte(
                    frames@[k]@,
                    old(self).regions@[k].width as int,
                    y,
                    j,
                ) == surface_byte(
                    final(self).back@,
                    max_width(old(self).regions@) as int,
                    prefix_height(old(self).regions@, k) + y,
                    j,
                ),
    {
        let ghost regions: Seq<CaptureRegion> = self.regions@;
        let ghost bw: int = max_width(regions) as int;
        let n = frames.len();
        let mut k: usize = 0;
        while k < n
            invariant
                n == frames@.len(),
                n == regions.len(),
                k <= n,
                self.wf(),
                self.regions@ == regions,
                self.regions == old(self).regions,
                self.layout == old(self).layout,
                self.chrome == old(self).chrome,
                self.window_width == old(self).window_width,
                self.window_height == old(self).window_height,
                self.surface_generation == old(self).surface_generation,
                self.bound_generation == old(self).bound_generation,
                self.back@.len() == old(self).back@.len(),
                bw == max_width(regions),
                forall|m: int|
                    0 <= m < n ==> (#[trigger] frames@[m]).spec_width() == regions[m].width
                        && frames@[m].spec_height() == regions[m].height,
                forall|m: int, y: int, j: int|
                    0 <= m < k && 0 <= y < regions[m].height && 0 <= j < regions[m].width * 4
                        ==> #[trigger] surface_byte(frames@[m]@, regions[m].width as int, y, j)
                        == surface_byte(self.back@, bw, prefix_height(regions, m) + y, j),
            decreases n - k,
        {
            let ghost pre: Seq<u8> = self.back@;
            self.compose_frame(k, &frames[k]);
            proof {
                let slots = self.layout.slots@;
                let off_k: int = prefix_height(regions, k as int);
                let w_k: int = regions[k as int].width as int;
                let h_k: int = regions[k as int].height as int;
                lemma_max_width_bounds(regions, k as int);
                lemma_prefix_height_nonneg(regions, k as int);
                lemma_prefix_height_monotonic(regions, k as int + 1, regions.len() as int);
                assert forall|m: int, y: int, j: int|
                    0 <= m < k + 1 && 0 <= y < regions[m].height && 0 <= j < regions[m].width * 4
                        implies #[trigger] surface_byte(frames@[m]@, regions[m].width as int, y, j)
                    == surface_byte(self.back@, bw, prefix_height(regions, m) + y, j) by {
                    lemma_max_width_bounds(regions, m);
                    lemma_prefix_height_nonneg(regions, m);
                    lemma_prefix_height_monotonic(regions, m + 1, regions.len() as int);
                    if m < k as int {
                        lemma_stack_disjoint(slots, regions, m, k as int);
                    }
                }
            }
            k = k + 1;
        }
    }
}

} // verus!
