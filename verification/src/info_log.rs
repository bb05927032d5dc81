//! The two-call diagnostic retrieval protocol: the external API is first
//! asked for the required buffer length, then fills a buffer of that
//! length and reports how much it actually wrote. The reported length is
//! trusted for truncation — never the capacity, which the API is allowed
//! to under-fill.

use vstd::prelude::*;

verus! {

/// Turns the length the external API reported for an information log into
/// a buffer capacity: the reported value when it is non-negative, else
/// nothing.
pub fn log_capacity(reported: i32) -> (r: usize)
    ensures
        reported >= 0 ==> r == reported,
        reported < 0 ==> r == 0,
{
    if reported >= 0 {
        reported as usize
    } else {
        0
    }
}

/// Truncates a filled log buffer to the length the external API actually
/// wrote. Only the written prefix is kept; a reported length beyond the
/// buffer leaves the buffer as it is.
pub fn take_info_log(buffer: Vec<u8>, written: usize) -> (r: Vec<u8>)
    ensures
        written <= buffer@.len() ==> r@ == buffer@.subrange(0, written as int),
        written > buffer@.len() ==> r@ == buffer@,
{
    let mut buffer = buffer;
    buffer.truncate(written);
    buffer
}

} // verus!
