//! What the distance sensor's reading means.

use vstd::prelude::*;

verus! {

/// The reading, in thousandths of a centimetre, with which the distance sensor
/// says that nothing is in range.
pub const OUT_OF_RANGE: i32 = 255_000;

/// The distance that a raw reading stands for: none where the sensor says
/// that nothing is in range.
pub fn distance_reading(raw: i32) -> (distance: Option<i32>)
    ensures
        distance == (if raw == OUT_OF_RANGE {
            None
        } else {
            Some(raw)
        }),
{
    if raw == OUT_OF_RANGE {
        None
    } else {
        Some(raw)
    }
}

} // verus!
