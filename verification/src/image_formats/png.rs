//! PNG compression heuristics.
use vstd::prelude::*;
use crate::bytes::{count, count_occurrences, tag4};

verus! {

/// "IDAT": image data chunk.
pub open spec fn idat() -> Seq<u8> {
    tag4(0x49, 0x44, 0x41, 0x54)
}

/// A PNG whose image data sits in at most two IDAT chunks is taken as optimally compressed.
pub fn is_optimally_compressed_bytes(data: &[u8]) -> (r: bool)
    ensures
        r == (count_occurrences(data@, idat(), data@.len() as int) <= 2),
{
    let pat: [u8; 4] = [0x49, 0x44, 0x41, 0x54];
    assert(pat@ =~= idat());
    count(data, &pat) <= 2
}

} // verus!
