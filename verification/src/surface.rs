//! Textures and the shared back buffer.
//!
//! An accepted frame is promoted to a texture — GPU-resident in the real
//! pipeline, pixel-for-pixel identical to its source buffer — and the
//! compositor copies each texture opaquely (no blending) into the shared
//! back buffer at its destination offset.  A copy whose destination would
//! exceed the back buffer's bounds is clipped, never written.

use vstd::prelude::*;

use crate::pixel::PixelBuffer;

verus! {

/// The smaller of two mathematical integers.
pub open spec fn min_int(a: int, b: int) -> int {
    if a < b {
        a
    } else {
        b
    }
}

/// The byte at row `y`, row-local byte offset `j`, of a top-down BGRA8
/// surface whose rows are `width` pixels wide.
pub open spec fn surface_byte(data: Seq<u8>, width: int, y: int, j: int) -> u8 {
    data[y * (width * 4) + j]
}

/// An immutable texture holding one accepted frame, with the pixel
/// dimensions of its source capture region.
pub struct GpuTexture {
    width: u32,
    height: u32,
    pixels: Vec<u8>,
}

impl View for GpuTexture {
    type V = Seq<u8>;

    closed spec fn view(&self) -> Seq<u8> {
        self.pixels@
    }
}

impl GpuTexture {
    #[verifier::type_invariant]
    spec fn inv(self) -> bool {
        self.pixels@.len() == self.width * self.height * 4
    }

    /// Width in pixels.
    pub closed spec fn spec_width(&self) -> u32 {
        self.width
    }

    /// Height in rows.
    pub closed spec fn spec_height(&self) -> u32 {
        self.height
    }

    #[verifier::when_used_as_spec(spec_width)]
    pub fn width(&self) -> (w: u32)
        ensures
            w == self.spec_width(),
    {
        self.width
    }

    #[verifier::when_used_as_spec(spec_height)]
    pub fn height(&self) -> (h: u32)
        ensures
            h == self.spec_height(),
    {
        self.height
    }

    /// Read-only access to the texture's bytes.
    pub fn bytes(&self) -> (b: &Vec<u8>)
        ensures
            b@ == self@,
    {
        &self.pixels
    }

    /// Creates the texture for an accepted frame: same pixel dimensions as
    /// the source capture, initialized in one shot from the buffer's
    /// bytes, immutable afterwards.
    pub fn upload(buffer: PixelBuffer) -> (t: GpuTexture)
        ensures
            t.spec_width() == buffer.spec_width(),
            t.spec_height() == buffer.spec_height(),
            t@ == buffer@,
    {
        let width = buffer.width();
        let height = buffer.height();
        let pixels = buffer.into_bytes();
        GpuTexture { width, height, pixels }
    }
}

/// `cur` is `orig` with rows of `src` copied in at vertical offset
/// `dest_y`, column-clipped to `copy_len` row bytes, complete for rows
/// strictly before `rows_end` and for the first `partial_cols` bytes of
/// row `rows_end` itself; every other byte still holds its `orig` value.
pub open spec fn copied_upto(
    orig: Seq<u8>,
    cur: Seq<u8>,
    src: Seq<u8>,
    dst_width: int,
    dst_height: int,
    src_width: int,
    dest_y: int,
    copy_len: int,
    rows_end: int,
    partial_cols: int,
) -> bool {
    forall|y: int, j: int|
        0 <= y < dst_height && 0 <= j < dst_width * 4 ==> #[trigger] surface_byte(
            cur,
            dst_width,
            y,
            j,
        ) == (if dest_y <= y && (y < rows_end && j < copy_len || y == rows_end && j
            < partial_cols) {
            surface_byte(src, src_width, y - dest_y, j)
        } else {
            surface_byte(orig, dst_width, y, j)
        })
}

/// The whole clipped copy: rows of `src` landed at offset `dest_y`, every
/// byte outside the clipped destination rectangle unchanged.
pub open spec fn region_copied(
    orig: Seq<u8>,
    cur: Seq<u8>,
    src: Seq<u8>,
    dst_width: int,
    dst_height: int,
    src_width: int,
    src_height: int,
    dest_y: int,
) -> bool {
    copied_upto(
        orig,
        cur,
        src,
        dst_width,
        dst_height,
        src_width,
        dest_y,
        min_int(src_width, dst_width) * 4,
        min_int(dst_height, dest_y + src_height),
        0,
    )
}

/// Two row-local positions address the same byte of a surface only if
/// they are the same position.
proof fn lemma_row_index_injective(w4: int, y1: int, j1: int, y2: int, j2: int)
    requires
        0 <= j1 < w4,
        0 <= j2 < w4,
        0 <= y1,
        0 <= y2,
        y1 * w4 + j1 == y2 * w4 + j2,
    ensures
        y1 == y2,
        j1 == j2,
{
    assert(y1 == y2 && j1 == j2) by (nonlinear_arith)
        requires
            0 <= j1 < w4,
            0 <= j2 < w4,
            0 <= y1,
            0 <= y2,
            y1 * w4 + j1 == y2 * w4 + j2,
    ;
}

/// One row of a surface takes no more bytes than the whole surface.
proof fn lemma_row_bytes_bounded(width: int, height: int)
    requires
        0 <= width,
        1 <= height,
    ensures
        width * 4 <= width * height * 4,
{
    assert(width * 4 <= width * height * 4) by (nonlinear_arith)
        requires
            0 <= width,
            1 <= height,
    ;
}

/// A row start of an in-bounds row lies at or inside the surface's end.
proof fn lemma_row_start_in_range(width: int, height: int, y: int)
    requires
        0 <= width,
        0 <= y < height,
    ensures
        0 <= y * (width * 4),
        y * (width * 4) + width * 4 <= width * height * 4,
{
    assert(0 <= y * (width * 4) && y * (width * 4) + width * 4 <= width * height * 4)
        by (nonlinear_arith)
        requires
            0 <= width,
            0 <= y < height,
    ;
}

/// A row-local position of an in-bounds row lies inside the surface.
proof fn lemma_row_index_in_range(width: int, height: int, y: int, j: int)
    requires
        0 <= y < height,
        0 <= j < width * 4,
    ensures
        0 <= y * (width * 4) + j < width * height * 4,
        width * 4 <= width * height * 4,
{
    assert(0 <= y * (width * 4) + j < width * height * 4 && width * 4 <= width * height * 4)
        by (nonlinear_arith)
        requires
            0 <= y < height,
            0 <= j < width * 4,
    ;
}

/// The off-screen surface the compositor writes into before presentation:
/// BGRA8, top-down, `width * height * 4` bytes, exactly one live instance
/// at a time, replaced wholesale on resize.
pub struct BackBuffer {
    width: u32,
    height: u32,
    data: Vec<u8>,
}

impl View for BackBuffer {
    type V = Seq<u8>;

    closed spec fn view(&self) -> Seq<u8> {
        self.data@
    }
}

impl BackBuffer {
    #[verifier::type_invariant]
    spec fn inv(self) -> bool {
        self.data@.len() == self.width * self.height * 4
    }

    /// Width in pixels.
    pub closed spec fn spec_width(&self) -> u32 {
        self.width
    }

    /// Height in rows.
    pub closed spec fn spec_height(&self) -> u32 {
        self.height
    }

    #[verifier::when_used_as_spec(spec_width)]
    pub fn width(&self) -> (w: u32)
        ensures
            w == self.spec_width(),
    {
        self.width
    }

    #[verifier::when_used_as_spec(spec_height)]
    pub fn height(&self) -> (h: u32)
        ensures
            h == self.spec_height(),
    {
        self.height
    }

    /// Every back buffer holds exactly `width * height * 4` bytes.
    pub fn len(&self) -> (n: usize)
        ensures
            n == self@.len(),
            n == self.spec_width() * self.spec_height() * 4,
    {
        proof {
            use_type_invariant(self);
        }
        self.data.len()
    }

    /// A zero-filled back buffer, or `None` when the byte count would not
    /// fit in `usize`.
    pub fn new_zeroed(width: u32, height: u32) -> (r: Option<BackBuffer>)
        ensures
            match r {
                Some(b) => {
                    &&& b.spec_width() == width
                    &&& b.spec_height() == height
                    &&& b@.len() == width * height * 4
                    &&& width * height * 4 <= usize::MAX
                    &&& forall|i: int| 0 <= i < b@.len() ==> b@[i] == 0u8
                },
                None => width * height * 4 > usize::MAX,
            },
    {
        match PixelBuffer::new_zeroed(width, height) {
            None => None,
            Some(buffer) => {
                let data = buffer.into_bytes();
                Some(BackBuffer { width, height, data })
            },
        }
    }

    /// The byte for channel `channel` of the pixel at (`col`, `row`).
    pub fn byte_at(&self, row: u32, col: u32, channel: usize) -> (b: u8)
        requires
            row < self.spec_height(),
            col < self.spec_width(),
            channel < 4,
        ensures
            b == surface_byte(self@, self.spec_width() as int, row as int, col * 4 + channel),
    {
        proof {
            use_type_invariant(self);
            lemma_row_index_in_range(
                self.width as int,
                self.height as int,
                row as int,
                col as int * 4 + channel,
            );
        }
        // Calling `len` bounds the buffer's length by `usize::MAX`, which
        // bounds the index arithmetic below.
        let _bound: usize = self.data.len();
        let idx: usize = (row as usize) * ((self.width as usize) * 4) + ((col as usize) * 4
            + channel);
        self.data[idx]
    }

    /// Copies `tex` opaquely into the back buffer with its top-left pixel
    /// at `(0, dest_y)`.  Rows and columns that would land outside the
    /// back buffer are clipped: the buffer keeps its size, and every byte
    /// outside the clipped destination rectangle keeps its prior value.
    pub fn compose_region(&mut self, tex: &GpuTexture, dest_y: u32)
        ensures
            final(self).spec_width() == old(self).spec_width(),
            final(self).spec_height() == old(self).spec_height(),
            final(self)@.len() == old(self)@.len(),
            region_copied(
                old(self)@,
                final(self)@,
                tex@,
                old(self).spec_width() as int,
                old(self).spec_height() as int,
                tex.spec_width() as int,
                tex.spec_height() as int,
                dest_y as int,
            ),
    {
        proof {
            use_type_invariant(&*self);
            use_type_invariant(tex);
        }
        let empty: Vec<u8> = Vec::new();
        proof {
            assert(empty@.len() == 0);
        }
        let mut taken = BackBuffer { width: 0, height: 0, data: empty };
        core::mem::swap(self, &mut taken);
        let BackBuffer { width: dst_w, height: dst_h, mut data } = taken;
        let ghost orig: Seq<u8> = data@;
        let src_w = tex.width;
        let src_h = tex.height;
        let copy_cols: u32 = if src_w < dst_w {
            src_w
        } else {
            dst_w
        };
        let end_row: u32 = if (dest_y as u64) + (src_h as u64) >= (dst_h as u64) {
            dst_h
        } else {
            dest_y + src_h
        };
        let ghost cl: int = (copy_cols as int) * 4;
        let dst_len: usize = data.len();
        let src_len: usize = tex.pixels.len();
        let mut y: u32 = dest_y;
        while y < end_row
            invariant
                dest_y <= y,
                y <= end_row || y == dest_y,
                end_row == min_int(dst_h as int, dest_y + src_h),
                cl == min_int(src_w as int, dst_w as int) * 4,
                cl == copy_cols * 4,
                data@.len() == dst_w * dst_h * 4,
                orig.len() == data@.len(),
                data@.len() <= usize::MAX,
                tex.pixels@.len() == src_w * src_h * 4,
                tex.pixels@.len() <= usize::MAX,
                tex.spec_width() == src_w,
                tex.spec_height() == src_h,
                copied_upto(
                    orig,
                    data@,
                    tex.pixels@,
                    dst_w as int,
                    dst_h as int,
                    src_w as int,
                    dest_y as int,
                    cl,
                    y as int,
                    0,
                ),
            decreases end_row - y,
        {
            proof {
                lemma_row_bytes_bounded(dst_w as int, dst_h as int);
                lemma_row_bytes_bounded(src_w as int, src_h as int);
                lemma_row_start_in_range(dst_w as int, dst_h as int, y as int);
                lemma_row_start_in_range(src_w as int, src_h as int, y as int - dest_y as int);
            }
            let copy_len: usize = (copy_cols as usize) * 4;
            let dst_row: usize = (y as usize) * ((dst_w as usize) * 4);
            let src_row: usize = ((y - dest_y) as usize) * ((src_w as usize) * 4);
            let mut j: usize = 0;
            while j < copy_len
                invariant
                    j <= copy_len,
                    copy_len == cl,
                    dest_y <= y < end_row,
                    end_row == min_int(dst_h as int, dest_y + src_h),
                    cl == min_int(src_w as int, dst_w as int) * 4,
                    data@.len() == dst_w * dst_h * 4,
                    orig.len() == data@.len(),
                    data@.len() <= usize::MAX,
                    tex.pixels@.len() == src_w * src_h * 4,
                    tex.pixels@.len() <= usize::MAX,
                    tex.spec_width() == src_w,
                    tex.spec_height() == src_h,
                    dst_row == y * (dst_w * 4),
                    src_row == (y - dest_y) * (src_w * 4),
                    copied_upto(
                        orig,
                        data@,
                        tex.pixels@,
                        dst_w as int,
                        dst_h as int,
                        src_w as int,
                        dest_y as int,
                        cl,
                        y as int,
                        j as int,
                    ),
                decreases copy_len - j,
            {
                proof {
                    lemma_row_index_in_range(dst_w as int, dst_h as int, y as int, j as int);
                    lemma_row_index_in_range(
                        src_w as int,
                        src_h as int,
                        y as int - dest_y as int,
                        j as int,
                    );
                }
                let b: u8 = tex.pixels[src_row + j];
                let ghost pre: Seq<u8> = data@;
                data.set(dst_row + j, b);
                proof {
                    assert forall|yy: int, jj: int|
                        0 <= yy < dst_h && 0 <= jj < dst_w * 4 implies #[trigger] surface_byte(
                        data@,
                        dst_w as int,
                        yy,
                        jj,
                    ) == (if dest_y <= yy && (yy < y && jj < cl || yy == y && jj < j + 1) {
                        surface_byte(tex.pixels@, src_w as int, yy - dest_y, jj)
                    } else {
                        surface_byte(orig, dst_w as int, yy, jj)
                    }) by {
                        lemma_row_index_in_range(dst_w as int, dst_h as int, yy, jj);
                        if yy * (dst_w as int * 4) + jj == y * (dst_w as int * 4) + j {
                            lemma_row_index_injective(
                                dst_w as int * 4,
                                yy,
                                jj,
                                y as int,
                                j as int,
                            );
                        } else {
                            assert(surface_byte(data@, dst_w as int, yy, jj) == surface_byte(
                                pre,
                                dst_w as int,
                                yy,
                                jj,
                            ));
                        }
                    }
                }
                j = j + 1;
            }
            y = y + 1;
        }
        proof {
            assert(copied_upto(
                orig,
                data@,
                tex.pixels@,
                dst_w as int,
                dst_h as int,
                src_w as int,
                dest_y as int,
                cl,
                min_int(dst_h as int, dest_y + src_h),
                0,
            ));
        }
        *self = BackBuffer { width: dst_w, height: dst_h, data };
    }
}

} // verus!
