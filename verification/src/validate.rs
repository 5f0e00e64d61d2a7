//! Poison-colour frame validation.
//!
//! The capture target transiently paints a solid white overlay during its
//! own repaint cycle.  A cheap heuristic flags such captures: the red
//! channel of the pixel at column 0 is sampled in every row, and a frame is
//! poisoned when any sampled byte holds the maximum value `0xFF`.  Poison
//! elsewhere in a row is invisible to the check; that false negative is a
//! documented property of the heuristic, not to be strengthened silently.

use vstd::prelude::*;

use crate::pixel::byte_index;
use crate::pixel::PixelBuffer;
use crate::pixel::CHANNEL_RED;

verus! {

/// The sampled byte of `row`: the red channel at column 0.
pub open spec fn sampled_red(b: &PixelBuffer, row: int) -> u8 {
    b@[byte_index(b.spec_width() as int, row, 0, CHANNEL_RED as int)]
}

/// `row` trips the heuristic: the buffer has a column 0 and the sampled
/// red byte is the maximum value.
pub open spec fn row_poisoned(b: &PixelBuffer, row: int) -> bool {
    b.spec_width() > 0 && sampled_red(b, row) == 0xFFu8
}

/// The buffer counts as poisoned: some row trips the heuristic.
pub open spec fn poisoned(b: &PixelBuffer) -> bool {
    exists|row: int| 0 <= row < b.spec_height() && row_poisoned(b, row)
}

/// Why a capture was rejected.
#[derive(Clone, Copy, PartialEq, Eq, Structural, Debug)]
pub enum RejectReason {
    /// The sampled red byte of the named row held the poison value.
    PoisonedRow { row: u32 },
}

/// The validator's verdict on one captured buffer; never both accepted and
/// rejected.
pub enum ValidationOutcome {
    /// The buffer showed no poisoned row and is forwarded unchanged.
    Accepted(PixelBuffer),
    /// Some row was poisoned; the buffer is withheld.
    Rejected(RejectReason),
}

/// Accepts `buffer` unless the poison heuristic trips on some row; a
/// rejection names the first poisoned row.
pub fn validate(buffer: PixelBuffer) -> (r: ValidationOutcome)
    ensures
        match r {
            ValidationOutcome::Accepted(b) => b == buffer && !poisoned(&buffer),
            ValidationOutcome::Rejected(reason) => {
                &&& poisoned(&buffer)
                &&& match reason {
                    RejectReason::PoisonedRow { row } => {
                        &&& row < buffer.spec_height()
                        &&& row_poisoned(&buffer, row as int)
                        &&& forall|r2: int| 0 <= r2 < row ==> !row_poisoned(&buffer, r2)
                    },
                }
            },
        },
{
    if buffer.width() == 0 {
        return ValidationOutcome::Accepted(buffer);
    }
    let height = buffer.height();
    let mut row: u32 = 0;
    while row < height
        invariant
            row <= height,
            height == buffer.spec_height(),
            buffer.spec_width() > 0,
            forall|r2: int| 0 <= r2 < row ==> !row_poisoned(&buffer, r2),
        decreases height - row,
    {
        if buffer.column0_red(row) == 0xFF {
            proof {
                assert(row_poisoned(&buffer, row as int));
            }
            return ValidationOutcome::Rejected(RejectReason::PoisonedRow { row });
        }
        row = row + 1;
    }
    ValidationOutcome::Accepted(buffer)
}

/// Rejection is monotonic: starting from a rejected buffer, a buffer of
/// the same height whose poisoned rows include all of the first buffer's
/// poisoned rows is still rejected, however many more rows are poisoned.
pub proof fn lemma_rejection_monotonic(a: &PixelBuffer, b: &PixelBuffer)
    requires
        a.spec_height() == b.spec_height(),
        poisoned(a),
        forall|row: int|
            0 <= row < a.spec_height() && row_poisoned(a, row) ==> #[trigger] row_poisoned(b, row),
    ensures
        poisoned(b),
{
    let witness = choose|row: int| 0 <= row < a.spec_height() && row_poisoned(a, row);
    assert(row_poisoned(b, witness));
}

} // verus!
