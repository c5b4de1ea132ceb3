//! Zooming the window of the raw input plot.
use vstd::prelude::*;

verus! {

/// The shortest window of the raw input plot.
pub const MIN_LEN: usize = 10;

/// Returns the window length after zooming out from `len`: a quarter longer,
/// but never longer than `max_len`, the FFT window.
pub fn zoom_out_len(len: usize, max_len: usize) -> (res: usize)
    requires
        len + len / 4 <= usize::MAX,
    ensures
        res == if len + len / 4 < max_len {
            len + len / 4
        } else {
            max_len as int
        },
{
    let longer = len + len / 4;
    if longer < max_len {
        longer
    } else {
        max_len
    }
}

/// Returns the window length after zooming in from `len`: a quarter shorter,
/// but never shorter than [MIN_LEN].
pub fn zoom_in_len(len: usize) -> (res: usize)
    ensures
        res == if len - len / 4 > MIN_LEN {
            len - len / 4
        } else {
            MIN_LEN as int
        },
{
    let shorter = len - len / 4;
    if shorter > MIN_LEN {
        shorter
    } else {
        MIN_LEN
    }
}

} // verus!
