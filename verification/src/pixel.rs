//! CPU-side pixel storage for captured frames.

use vstd::prelude::*;

verus! {

/// Byte offset of the blue channel within one BGRA pixel.
pub const CHANNEL_BLUE: usize = 0;
/// Byte offset of the green channel within one BGRA pixel.
pub const CHANNEL_GREEN: usize = 1;
/// Byte offset of the red channel within one BGRA pixel.
pub const CHANNEL_RED: usize = 2;
/// Byte offset of the alpha channel within one BGRA pixel.
pub const CHANNEL_ALPHA: usize = 3;

/// Position of the byte for channel `channel` of the pixel at column `col`
/// of row `row`, in a top-down BGRA8 buffer whose rows are `width` pixels
/// (`width * 4` bytes) wide.
pub open spec fn byte_index(width: int, row: int, col: int, channel: int) -> int {
    (row * width + col) * 4 + channel
}

/// One captured frame: BGRA8 bytes, straight alpha, top-down row order,
/// pitch `width * 4` bytes.  The buffer always holds exactly
/// `width * height * 4` bytes.
pub struct PixelBuffer {
    width: u32,
    height: u32,
    data: Vec<u8>,
}

impl View for PixelBuffer {
    type V = Seq<u8>;

    closed spec fn view(&self) -> Seq<u8> {
        self.data@
    }
}

impl PixelBuffer {
    #[verifier::type_invariant]
    spec fn inv(self) -> bool {
        self.data@.len() == self.width * self.height * 4
    }

    /// Declared width in pixels.
    pub closed spec fn spec_width(&self) -> u32 {
        self.width
    }

    /// Declared height in rows.
    pub closed spec fn spec_height(&self) -> u32 {
        self.height
    }

    #[verifier::when_used_as_spec(spec_width)]
    pub fn width(&self) -> (w: u32)
        ensures
            w == self.spec_width(),
    {
        self.width
    }

    #[verifier::when_used_as_spec(spec_height)]
    pub fn height(&self) -> (h: u32)
        ensures
            h == self.spec_height(),
    {
        self.height
    }

    /// Every pixel buffer holds exactly `width * height * 4` bytes.
    pub fn len(&self) -> (n: usize)
        ensures
            n == self@.len(),
            n == self.spec_width() * self.spec_height() * 4,
    {
        proof {
            use_type_invariant(self);
        }
        self.data.len()
    }

    /// A zero-filled buffer for a `width` by `height` frame, or `None` when
    /// the byte count would not fit in `usize`.
    pub fn new_zeroed(width: u32, height: u32) -> (r: Option<PixelBuffer>)
        ensures
            match r {
                Some(b) => {
                    &&& b.spec_width() == width
                    &&& b.spec_height() == height
                    &&& b@.len() == width * height * 4
                    &&& width * height * 4 <= usize::MAX
                    &&& forall|i: int| 0 <= i < b@.len() ==> b@[i] == 0u8
                },
                None => width * height * 4 > usize::MAX,
            },
    {
        match checked_byte_count(width, height) {
            None => None,
            Some(total) => {
                let mut data: Vec<u8> = Vec::new();
                let mut i: usize = 0;
                while i < total
                    invariant
                        i <= total,
                        data@.len() == i,
                        forall|k: int| 0 <= k < i ==> data@[k] == 0u8,
                    decreases total - i,
                {
                    data.push(0u8);
                    i = i + 1;
                }
                Some(PixelBuffer { width, height, data })
            },
        }
    }

    /// Wraps already-captured bytes, or `None` when the length is not
    /// exactly `width * height * 4`.
    pub fn from_bytes(width: u32, height: u32, data: Vec<u8>) -> (r: Option<PixelBuffer>)
        ensures
            match r {
                Some(b) => {
                    &&& b.spec_width() == width
                    &&& b.spec_height() == height
                    &&& b@ == data@
                    &&& data@.len() == width * height * 4
                },
                None => data@.len() != width * height * 4,
            },
    {
        let n = data.len();
        match checked_byte_count(width, height) {
            None => None,
            Some(total) => {
                if n == total {
                    Some(PixelBuffer { width, height, data })
                } else {
                    None
                }
            },
        }
    }

    /// The byte for channel `channel` of the pixel at (`col`, `row`).
    pub fn byte_at(&self, row: u32, col: u32, channel: usize) -> (b: u8)
        requires
            row < self.spec_height(),
            col < self.spec_width(),
            channel < 4,
        ensures
            b == self@[byte_index(self.spec_width() as int, row as int, col as int, channel as int)],
    {
        proof {
            use_type_invariant(self);
            lemma_byte_index_in_range(
                self.width as int,
                self.height as int,
                row as int,
                col as int,
                channel as int,
            );
        }
        // Calling `len` bounds the buffer's length by `usize::MAX`, which
        // bounds the index arithmetic below.
        let _bound: usize = self.data.len();
        let idx: usize = ((row as usize) * (self.width as usize) + (col as usize)) * 4 + channel;
        self.data[idx]
    }

    /// The red channel of the pixel at column 0 of `row` — the byte the
    /// poison heuristic samples.
    pub fn column0_red(&self, row: u32) -> (b: u8)
        requires
            row < self.spec_height(),
            self.spec_width() > 0,
        ensures
            b == self@[byte_index(self.spec_width() as int, row as int, 0, CHANNEL_RED as int)],
    {
        self.byte_at(row, 0, CHANNEL_RED)
    }

    /// Read-only access to the raw bytes.
    pub fn bytes(&self) -> (b: &Vec<u8>)
        ensures
            b@ == self@,
    {
        &self.data
    }

    /// Gives the raw bytes up, consuming the buffer.
    pub fn into_bytes(self) -> (b: Vec<u8>)
        ensures
            b@ == self@,
            b@.len() == self.spec_width() * self.spec_height() * 4,
    {
        proof {
            use_type_invariant(&self);
        }
        self.data
    }
}

/// `width * height * 4` as a `usize`, or `None` when it does not fit.
fn checked_byte_count(width: u32, height: u32) -> (r: Option<usize>)
    ensures
        match r {
            Some(total) => total == width * height * 4,
            None => width * height * 4 > usize::MAX,
        },
{
    proof {
        assert((width as int) * (height as int) <= (u32::MAX as int) * (u32::MAX as int))
            by (nonlinear_arith)
            requires
                width <= u32::MAX,
                height <= u32::MAX,
        ;
    }
    let wh: u64 = (width as u64) * (height as u64);
    if wh > (usize::MAX as u64) / 4 {
        proof {
            assert(wh * 4 > usize::MAX) by (nonlinear_arith)
                requires
                    wh > (usize::MAX as u64) / 4,
            ;
        }
        None
    } else {
        Some((wh as usize) * 4)
    }
}

/// Any channel byte of an in-bounds pixel lies inside the buffer, and the
/// index arithmetic stays within `width * height * 4`.
proof fn lemma_byte_index_in_range(width: int, height: int, row: int, col: int, channel: int)
    requires
        0 <= row < height,
        0 <= col < width,
        0 <= channel < 4,
    ensures
        0 <= byte_index(width, row, col, channel) < width * height * 4,
{
    assert(0 <= (row * width + col) * 4 + channel < width * height * 4) by (nonlinear_arith)
        requires
            0 <= row < height,
            0 <= col < width,
            0 <= channel < 4,
    ;
}

} // verus!
