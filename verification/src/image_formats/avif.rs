//! AVIF lossless detection from the AV1 codec configuration and related properties.
use vstd::prelude::*;
use crate::bytes::{be_u16, occurs_at, read_be_u16, tag4};
use crate::errors::{analysis_error_with, ImgQualityError};
use crate::isobmff::{find_box_data_recursive, search_boxes, MAX_BOX_DEPTH};

verus! {

broadcast use vstd::slice::group_slice_axioms;

/// Payload of the first box of type `t` (see `search_boxes`), as a sequence.
pub open spec fn box_payload(d: Seq<u8>, t: Seq<u8>) -> Option<Seq<u8>> {
    match search_boxes(d, 0, d.len() as int, t, MAX_BOX_DEPTH as nat) {
        Some((a, b)) => Some(d.subrange(a, b)),
        None => None,
    }
}

/// Bit `k` (0 = least significant) of `b`.
pub open spec fn bit_of(b: u8, k: int) -> int {
    if k == 0 {
        (b as int) % 2
    } else if k == 2 {
        ((b as int) / 4) % 2
    } else if k == 3 {
        ((b as int) / 8) % 2
    } else if k == 4 {
        ((b as int) / 16) % 2
    } else if k == 5 {
        ((b as int) / 32) % 2
    } else {
        ((b as int) / 64) % 2
    }
}

/// The `colr` payload is an `nclx` record whose matrix coefficients are 0 (identity / RGB).
pub open spec fn colr_is_identity(c: Seq<u8>) -> bool {
    c.len() >= 11 && c.subrange(0, 4) == tag4(0x6E, 0x63, 0x6C, 0x78) && be_u16(c, 8) == 0
}

/// The `pixi` payload lists a channel with a bit depth of at least 12.
pub open spec fn pixi_has_high_depth(p: Seq<u8>) -> bool {
    p.len() > 0 && p[0] > 0 && p.len() > p[0] as int && exists|i: int|
        1 <= i <= p[0] as int && #[trigger] p[i] >= 12
}

/// The first `colr` box of `d` is an identity-matrix `nclx` record.
pub open spec fn colr_identity_in(d: Seq<u8>) -> bool {
    match box_payload(d, tag4(0x63, 0x6F, 0x6C, 0x72)) {
        Some(col) => colr_is_identity(col),
        None => false,
    }
}

/// The first `pixi` box of `d` lists a channel depth of at least 12.
pub open spec fn pixi_high_in(d: Seq<u8>) -> bool {
    match box_payload(d, tag4(0x70, 0x69, 0x78, 0x69)) {
        Some(px) => pixi_has_high_depth(px),
        None => false,
    }
}

/// Lossless verdict from an `av1C` payload `c` and the other boxes of `d`;
/// `None` when undetermined.
pub open spec fn av1c_verdict(d: Seq<u8>, c: Seq<u8>) -> Option<bool> {
    let seq_profile = (c[1] as int) / 32;
    let b2 = c[2];
    let high_bitdepth = bit_of(b2, 6);
    let twelve_bit = bit_of(b2, 5);
    let mono = bit_of(b2, 4);
    let csx = bit_of(b2, 3);
    let csy = bit_of(b2, 2);
    let is444 = csx == 0 && csy == 0;
    if csx == 1 {
        Some(false)
    } else if mono == 1 && !is444 {
        Some(false)
    } else if colr_identity_in(d) {
        Some(true)
    } else if is444 && (twelve_bit == 1 || (high_bitdepth == 1 && seq_profile >= 1)) {
        Some(true)
    } else if is444 && seq_profile == 0 {
        Some(true)
    } else if is444 && pixi_high_in(d) {
        Some(true)
    } else if is444 && mono == 1 {
        Some(true)
    } else {
        None
    }
}

/// Whether AVIF data is lossless: chroma subsampling, identity matrix, bit depth,
/// profile and `pixi` depths of the first `av1C` box decide; `None` when no
/// sufficient `av1C` box exists or nothing decides.
pub open spec fn spec_avif_is_lossless(d: Seq<u8>) -> Option<bool> {
    match box_payload(d, tag4(0x61, 0x76, 0x31, 0x43)) {
        Some(c) => if c.len() >= 3 {
            av1c_verdict(d, c)
        } else {
            None
        },
        None => None,
    }
}

/// Whether the `colr` box of `data` is an `nclx` record with identity matrix.
pub fn colr_identity(data: &[u8]) -> (r: bool)
    ensures
        r == colr_identity_in(data@),
{
    let ghost t = tag4(0x63, 0x6F, 0x6C, 0x72);
    let ty: [u8; 4] = [0x63, 0x6F, 0x6C, 0x72];
    assert(ty@ =~= t);
    match find_box_data_recursive(data, ty) {
        Some(c) => {
            if c.len() >= 11 && c[0] == 0x6E && c[1] == 0x63 && c[2] == 0x6C && c[3] == 0x78 {
                assert(c@.subrange(0, 4) =~= tag4(0x6E, 0x63, 0x6C, 0x78));
                read_be_u16(c, 8) == 0
            } else {
                proof {
                    if c@.len() >= 11 {
                        assert(c@.subrange(0, 4)[0] == c@[0]);
                        assert(c@.subrange(0, 4)[1] == c@[1]);
                        assert(c@.subrange(0, 4)[2] == c@[2]);
                        assert(c@.subrange(0, 4)[3] == c@[3]);
                    }
                }
                false
            }
        },
        None => false,
    }
}

/// Whether the `pixi` payload lists a channel depth of at least 12.
pub fn pixi_high_depth(p: &[u8]) -> (r: bool)
    ensures
        r == pixi_has_high_depth(p@),
{
    if p.len() == 0 {
        return false;
    }
    let num_ch = p[0] as usize;
    if num_ch == 0 || p.len() <= num_ch {
        return false;
    }
    let mut i: usize = 1;
    while i <= num_ch
        invariant
            1 <= i <= num_ch + 1,
            num_ch == p@[0] as int,
            num_ch < p@.len(),
            forall|j: int| 1 <= j < i ==> p@[j] < 12,
        decreases num_ch + 1 - i,
    {
        if p[i] >= 12 {
            return true;
        }
        i = i + 1;
    }
    false
}

/// Detect AVIF lossless encoding from the `av1C`, `colr` and `pixi` properties.
pub fn is_lossless_from_bytes(data: &[u8], path: &str) -> (r: Result<bool, ImgQualityError>)
    ensures
        match spec_avif_is_lossless(data@) {
            Some(b) => r is Ok && r->Ok_0 == b,
            None => r is Err,
        },
{
    let ty: [u8; 4] = [0x61, 0x76, 0x31, 0x43];
    assert(ty@ =~= tag4(0x61, 0x76, 0x31, 0x43));
    let found = find_box_data_recursive(data, ty);
    if let Some(c) = found {
        if c.len() >= 3 {
            let seq_profile = c[1] / 32;
            let b2 = c[2];
            let high_bitdepth = (b2 / 64) % 2;
            let twelve_bit = (b2 / 32) % 2;
            let mono = (b2 / 16) % 2;
            let csx = (b2 / 8) % 2;
            let csy = (b2 / 4) % 2;
            let is444 = csx == 0 && csy == 0;
            if csx == 1 {
                return Ok(false);
            }
            if mono == 1 && !is444 {
                return Ok(false);
            }
            if colr_identity(data) {
                return Ok(true);
            }
            if is444 && (twelve_bit == 1 || (high_bitdepth == 1 && seq_profile >= 1)) {
                return Ok(true);
            }
            if is444 && seq_profile == 0 {
                return Ok(true);
            }
            if is444 {
                let pty: [u8; 4] = [0x70, 0x69, 0x78, 0x69];
                assert(pty@ =~= tag4(0x70, 0x69, 0x78, 0x69));
                if let Some(px) = find_box_data_recursive(data, pty) {
                    if pixi_high_depth(px) {
                        return Ok(true);
                    }
                }
                assert(!pixi_high_in(data@));
            }
            if is444 && mono == 1 {
                return Ok(true);
            }
            return Err(
                analysis_error_with(
                    "AVIF: 4:4:4 without definitive lossless indicators; refusing to guess — ",
                    path,
                ),
            );
        }
    }
    Err(analysis_error_with("AVIF: no av1C box found; cannot determine compression — ", path))
}

/// Horizontally subsampled chroma (4:2:0 or 4:2:2) in the `av1C` box always
/// means lossy coding.
pub proof fn law_subsampled_avif_is_lossy(d: Seq<u8>)
    requires
        box_payload(d, tag4(0x61, 0x76, 0x31, 0x43)) matches Some(c) && c.len() >= 3 && bit_of(
            c[2],
            3,
        ) == 1,
    ensures
        spec_avif_is_lossless(d) == Some(false),
{
}

} // verus!
