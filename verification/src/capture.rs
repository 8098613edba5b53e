//! Sizing of the capture buffer that streams raw samples to a data file.

use vstd::prelude::*;

verus! {

/// The number of complex 8-bit samples (an I and a Q byte each) that fill a buffer of
/// `buf_size_kib` KiB.
pub fn iq_buffer_len(buf_size_kib: usize) -> (n: usize)
    requires
        buf_size_kib * 1024 <= usize::MAX,
    ensures
        n == buf_size_kib * 1024 / 2,
        2 * n == buf_size_kib * 1024,
{
    buf_size_kib * 1024 / 2
}

} // verus!
