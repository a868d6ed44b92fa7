//! Selection of the intermediate format and the byte-level checks of the HDR
//! synthesis path.
use vstd::prelude::*;
use crate::bytes::{be_u16, le_u16};
use crate::hdr::spec_is_display_p3;

verus! {

/// Intermediate format of the HDR synthesis path.
#[derive(Debug, Clone, Copy, PartialEq, Eq, Structural)]
pub enum HdrIntermediateFormat {
    /// 32-bit float OpenEXR: maximum precision.
    OpenExr32,
    /// 16-bit integer PNG: high precision with better compatibility.
    Png16,
}

impl Default for HdrIntermediateFormat {
    fn default() -> (r: Self)
        ensures
            r == HdrIntermediateFormat::OpenExr32,
    {
        HdrIntermediateFormat::OpenExr32
    }
}

/// Whether image data uses Display P3 primaries (same rule as `hdr::is_display_p3`).
pub fn is_display_p3(data: &[u8]) -> (r: bool)
    ensures
        r == spec_is_display_p3(data@),
{
    crate::hdr::is_display_p3(data)
}

/// The 16-bit sample at `word_index`, in machine byte order.
pub fn read_native_u16_word(data: &[u8], word_index: usize) -> (r: Option<u16>)
    ensures
        r is Some <==> 2 * word_index + 2 <= data@.len(),
        r matches Some(v) ==> (v == le_u16(data@, 2 * word_index) || v == be_u16(
            data@,
            2 * word_index,
        )),
{
    crate::hdr::read_native_u16_word(data, word_index)
}

} // verus!
