//! HEIC/HEIF analysis over the raw container bytes: lossless detection from the
//! HEVC configuration, HDR / Dolby Vision markers and embedded XMP.
use vstd::prelude::*;
use vstd::string::*;
use crate::bytes::{
    be_u16, be_u32, contains_seq, first_occurrence, first_position, read_be_u32, read_be_u16, tag4,
};
use crate::text::{from_utf8_lossy, str_contains, utf8_lossy};
use crate::errors::{analysis_error_with, ImgQualityError};
use crate::hevc_sps::{parse_sps_for_transquant_bypass_flag, spec_sps_flag};
use crate::image_formats::avif::{box_payload, colr_is_identity, pixi_has_high_depth, pixi_high_depth};
use crate::isobmff::find_box_data_recursive;

verus! {

broadcast use vstd::slice::group_slice_axioms;

/// HEVC profile: Main.
pub const HEIC_PROFILE_MAIN: u8 = 1;
/// HEVC profile: Main 10.
pub const HEIC_PROFILE_MAIN10: u8 = 2;
/// HEVC profile: Main Still Picture.
pub const HEIC_PROFILE_MAIN_STILL: u8 = 3;
/// HEVC profile: Range Extensions.
pub const HEIC_PROFILE_REXT: u8 = 4;
/// HEVC profile: Screen Content Coding.
pub const HEIC_PROFILE_SCC: u8 = 9;
/// `chroma_format_idc` of 4:2:0.
pub const HEIC_CHROMA_420: u8 = 1;
/// `chroma_format_idc` of 4:2:2.
pub const HEIC_CHROMA_422: u8 = 2;
/// `chroma_format_idc` of 4:4:4.
pub const HEIC_CHROMA_444: u8 = 3;
/// Bit depth from which a `pixi` channel counts as a lossless indicator.
pub const HEIC_LOSSLESS_MIN_BIT_DEPTH: u8 = 12;
/// Largest input scanned for XMP.
pub const HEIC_MAX_XMP_SCAN_BYTES: usize = 104857600;
/// Bytes taken from the XMP start marker.
pub const HEIC_XMP_GRAB_BYTES: usize = 65536;

/// HDR facts about a HEIC image.
#[derive(Debug, Clone, Default)]
pub struct HeicHdrInfo {
    pub is_hdr: bool,
    pub is_dolby_vision: bool,
    pub has_gainmap: bool,
}

/// Auxiliary-image and vendor metadata facts about a HEIC image.
#[derive(Debug, Clone, Default)]
pub struct HeicAuxInfo {
    pub has_auxiliary: bool,
    pub has_vendor_metadata: bool,
}

/// Result of a HEIC analysis.
#[derive(Debug, Clone)]
pub struct HeicAnalysis {
    pub bit_depth: Option<u8>,
    pub codec: String,
    pub is_lossless: bool,
    pub has_alpha: bool,
    pub image_count: usize,
    pub hdr: HeicHdrInfo,
    pub aux: HeicAuxInfo,
}

/// Payload of the box whose type first occurs in `d` at an offset of at least 4,
/// taking its size from the 4 bytes before the type; `None` when that size is
/// below 8 or runs past the data.
pub open spec fn magic_payload(d: Seq<u8>, t: Seq<u8>) -> Option<Seq<u8>> {
    match first_occurrence(d, t) {
        Some(pos) => if pos >= 4 && be_u32(d, pos - 4) >= 8 && pos + be_u32(d, pos - 4) - 4
            <= d.len() {
            Some(d.subrange(pos + 4, pos - 4 + be_u32(d, pos - 4)))
        } else {
            None
        },
        None => None,
    }
}

/// The payload found by magic search, else by the recursive box walk.
pub open spec fn magic_or_box(d: Seq<u8>, t: Seq<u8>) -> Option<Seq<u8>> {
    if magic_payload(d, t) is Some {
        magic_payload(d, t)
    } else {
        box_payload(d, t)
    }
}

/// The payload found by the recursive box walk, else by magic search.
pub open spec fn box_or_magic(d: Seq<u8>, t: Seq<u8>) -> Option<Seq<u8>> {
    if box_payload(d, t) is Some {
        box_payload(d, t)
    } else {
        magic_payload(d, t)
    }
}

/// "hvcC".
pub open spec fn hvcc_tag() -> Seq<u8> {
    tag4(0x68, 0x76, 0x63, 0x43)
}

/// Lossless verdict from an hvcC record `h` of at least 20 bytes (and the other
/// boxes of `d`); `None` when undetermined.
pub open spec fn hvcc_verdict(d: Seq<u8>, h: Seq<u8>) -> Option<bool> {
    let profile = h[1] % 32;
    let compat = be_u32(h, 2);
    let chroma = h[16] % 4;
    if chroma == 1 || chroma == 2 {
        Some(false)
    } else if profile == 1 || profile == 2 || profile == 3 {
        Some(false)
    } else if profile == 4 || profile == 9 {
        if magic_or_box(d, tag4(0x63, 0x6F, 0x6C, 0x72)) matches Some(c) && colr_is_identity(c) {
            Some(true)
        } else if magic_or_box(d, tag4(0x70, 0x69, 0x78, 0x69)) matches Some(px)
            && pixi_has_high_depth(px) {
            Some(true)
        } else if chroma == 3 {
            Some(true)
        } else {
            None
        }
    } else if (compat / 0x800_0000) % 2 == 1 {
        if chroma == 3 {
            Some(true)
        } else {
            None
        }
    } else if box_payload(d, hvcc_tag()) matches Some(hb) && spec_sps_flag(hb) == Some(true) {
        Some(true)
    } else {
        Some(false)
    }
}

/// Whether HEIC data is lossless: decided by the first hvcC record (see
/// `hvcc_verdict`); lossy when no record of at least 20 bytes is found.
pub open spec fn spec_heic_is_lossless(d: Seq<u8>) -> Option<bool> {
    match box_or_magic(d, hvcc_tag()) {
        Some(h) => if h.len() >= 20 {
            hvcc_verdict(d, h)
        } else {
            Some(false)
        },
        None => Some(false),
    }
}

/// Fallback box lookup: take the first occurrence of the type bytes and the box
/// size in front of it (see `magic_payload`).
#[verifier::spinoff_prover]
pub fn find_box_payload_by_magic<'a>(data: &'a [u8], box_type: [u8; 4]) -> (r: Option<&'a [u8]>)
    ensures
        match magic_payload(data@, box_type@) {
            Some(p) => r is Some && r->Some_0@ == p,
            None => r is None,
        },
{
    let pat: &[u8] = &box_type;
    assert(pat@ == box_type@);
    let pos = match first_position(data, pat) {
        Some(p) => p,
        None => {
            return None;
        },
    };
    assert(first_occurrence(data@, box_type@) == Some(pos as int));
    if pos < 4 {
        return None;
    }
    let size = read_be_u32(data, pos - 4);
    if size < 8 {
        return None;
    }
    let size = size as usize;
    if size - 4 > data.len() - pos {
        return None;
    }
    Some(vstd::slice::slice_subrange(data, pos + 4, pos - 4 + size))
}

fn magic_or_box_exec<'a>(data: &'a [u8], t: [u8; 4]) -> (r: Option<&'a [u8]>)
    ensures
        match magic_or_box(data@, t@) {
            Some(p) => r is Some && r->Some_0@ == p,
            None => r is None,
        },
{
    match find_box_payload_by_magic(data, t) {
        Some(p) => Some(p),
        None => find_box_data_recursive(data, t),
    }
}

fn rgb_identity_matrix(data: &[u8]) -> (r: bool)
    ensures
        r == (magic_or_box(data@, tag4(0x63, 0x6F, 0x6C, 0x72)) matches Some(c)
            && colr_is_identity(c)),
{
    let t: [u8; 4] = [0x63, 0x6F, 0x6C, 0x72];
    assert(t@ =~= tag4(0x63, 0x6F, 0x6C, 0x72));
    match magic_or_box_exec(data, t) {
        Some(c) => {
            if c.len() >= 11 && c[0] == 0x6E && c[1] == 0x63 && c[2] == 0x6C && c[3] == 0x78 {
                assert(c@.subrange(0, 4) =~= tag4(0x6E, 0x63, 0x6C, 0x78));
                read_be_u16(c, 8) == 0
            } else {
                proof {
                    if c@.len() >= 11 {
                        assert(c@.subrange(0, 4)[0] == c@[0]);
                        assert(c@.subrange(0, 4)[1] == c@[1]);
                        assert(c@.subrange(0, 4)[2] == c@[2]);
                        assert(c@.subrange(0, 4)[3] == c@[3]);
                    }
                }
                false
            }
        },
        None => false,
    }
}

fn high_bitdepth_pixi(data: &[u8]) -> (r: bool)
    ensures
        r == (magic_or_box(data@, tag4(0x70, 0x69, 0x78, 0x69)) matches Some(px)
            && pixi_has_high_depth(px)),
{
    let t: [u8; 4] = [0x70, 0x69, 0x78, 0x69];
    assert(t@ =~= tag4(0x70, 0x69, 0x78, 0x69));
    match magic_or_box_exec(data, t) {
        Some(px) => pixi_high_depth(px),
        None => false,
    }
}

fn sps_says_lossless(data: &[u8]) -> (r: bool)
    ensures
        r == (box_payload(data@, hvcc_tag()) matches Some(hb) && spec_sps_flag(hb) == Some(
            true,
        )),
{
    let t: [u8; 4] = [0x68, 0x76, 0x63, 0x43];
    assert(t@ =~= hvcc_tag());
    match find_box_data_recursive(data, t) {
        Some(h) => parse_sps_for_transquant_bypass_flag(h) == Some(true),
        None => false,
    }
}

/// Detect HEIC/HEIF lossless encoding from the HEVC decoder configuration
/// (profile, chroma format, compatibility flags), `colr` / `pixi` properties and
/// the SPS (see `spec_heic_is_lossless`).
#[verifier::spinoff_prover]
pub fn detect_heic_is_lossless(data: &[u8], path: &str) -> (r: Result<bool, ImgQualityError>)
    ensures
        match spec_heic_is_lossless(data@) {
            Some(b) => r is Ok && r->Ok_0 == b,
            None => r is Err,
        },
{
    let t: [u8; 4] = [0x68, 0x76, 0x63, 0x43];
    assert(t@ =~= hvcc_tag());
    let hvcc_data = match find_box_data_recursive(data, t) {
        Some(h) => Some(h),
        None => find_box_payload_by_magic(data, t),
    };
    if let Some(h) = hvcc_data {
        if h.len() >= 20 {
            let profile_idc = h[1] % 32;
            let compat_flags = read_be_u32(h, 2);
            let chroma_format_idc = h[16] % 4;
            if chroma_format_idc == HEIC_CHROMA_420 || chroma_format_idc == HEIC_CHROMA_422 {
                return Ok(false);
            }
            if profile_idc == HEIC_PROFILE_MAIN || profile_idc == HEIC_PROFILE_MAIN10
                || profile_idc == HEIC_PROFILE_MAIN_STILL {
                return Ok(false);
            }
            if profile_idc == HEIC_PROFILE_REXT || profile_idc == HEIC_PROFILE_SCC {
                let is_444 = chroma_format_idc == HEIC_CHROMA_444;
                if rgb_identity_matrix(data) {
                    return Ok(true);
                }
                if high_bitdepth_pixi(data) {
                    return Ok(true);
                }
                if is_444 {
                    return Ok(true);
                }
                return Err(
                    analysis_error_with(
                        "HEIC: RExt/SCC profile without 4:4:4 chroma; cannot determine — ",
                        path,
                    ),
                );
            }
            if (compat_flags / 0x800_0000) % 2 == 1 {
                if chroma_format_idc == HEIC_CHROMA_444 {
                    return Ok(true);
                }
                return Err(
                    analysis_error_with(
                        "HEIC: RExt compatibility flag set but chroma not 4:4:4; cannot determine — ",
                        path,
                    ),
                );
            }
            if sps_says_lossless(data) {
                return Ok(true);
            }
            return Ok(false);
        }
    }
    Ok(false)
}

/// The XMP start markers, tried in this order: `<?xpacket begin`, `<x:xmpmeta`, `<rdf:RDF`.
pub open spec fn xmp_marker(k: int) -> Seq<u8> {
    if k == 0 {
        seq![0x3Cu8, 0x3F, 0x78, 0x70, 0x61, 0x63, 0x6B, 0x65, 0x74, 0x20, 0x62, 0x65, 0x67, 0x69, 0x6E]
    } else if k == 1 {
        seq![0x3Cu8, 0x78, 0x3A, 0x78, 0x6D, 0x70, 0x6D, 0x65, 0x74, 0x61]
    } else {
        seq![0x3Cu8, 0x72, 0x64, 0x66, 0x3A, 0x52, 0x44, 0x46]
    }
}

/// The XMP text of HEIC data: from the first marker (in the order of
/// `xmp_marker`) that occurs, up to `HEIC_XMP_GRAB_BYTES` bytes decoded as lossy
/// UTF-8; `None` when no marker occurs or the data exceeds `HEIC_MAX_XMP_SCAN_BYTES`.
pub open spec fn spec_xmp(d: Seq<u8>) -> Option<Seq<char>> {
    if d.len() > HEIC_MAX_XMP_SCAN_BYTES {
        None
    } else {
        xmp_from(d, 0)
    }
}

/// The XMP text found from marker `k` on.
pub open spec fn xmp_from(d: Seq<u8>, k: int) -> Option<Seq<char>>
    decreases 3 - k,
{
    if k < 0 || k >= 3 {
        None
    } else {
        match first_occurrence(d, xmp_marker(k)) {
            Some(start) => Some(
                utf8_lossy(
                    d.subrange(
                        start,
                        if start + HEIC_XMP_GRAB_BYTES < d.len() {
                            start + HEIC_XMP_GRAB_BYTES
                        } else {
                            d.len() as int
                        },
                    ),
                ),
            ),
            None => xmp_from(d, k + 1),
        }
    }
}

fn xmp_marker_bytes(k: usize) -> (r: Vec<u8>)
    requires
        k < 3,
    ensures
        r@ == xmp_marker(k as int),
{
    let mut v: Vec<u8> = Vec::new();
    if k == 0 {
        v.push(0x3C); v.push(0x3F); v.push(0x78); v.push(0x70); v.push(0x61); v.push(0x63);
        v.push(0x6B); v.push(0x65); v.push(0x74); v.push(0x20); v.push(0x62); v.push(0x65);
        v.push(0x67); v.push(0x69); v.push(0x6E);
    } else if k == 1 {
        v.push(0x3C); v.push(0x78); v.push(0x3A); v.push(0x78); v.push(0x6D); v.push(0x70);
        v.push(0x6D); v.push(0x65); v.push(0x74); v.push(0x61);
    } else {
        v.push(0x3C); v.push(0x72); v.push(0x64); v.push(0x66); v.push(0x3A); v.push(0x52);
        v.push(0x44); v.push(0x46);
    }
    assert(v@ =~= xmp_marker(k as int));
    v
}

/// Extract the XMP packet text from raw HEIC/HEIF data (see `spec_xmp`).
pub fn extract_xmp_from_heic_data(data: &[u8]) -> (r: Option<String>)
    ensures
        r.deep_view() == spec_xmp(data@),
{
    if data.len() > HEIC_MAX_XMP_SCAN_BYTES {
        return None;
    }
    let mut k: usize = 0;
    while k < 3
        invariant
            k <= 3,
            data@.len() <= HEIC_MAX_XMP_SCAN_BYTES,
            spec_xmp(data@) == xmp_from(data@, k as int),
        decreases 3 - k,
    {
        let marker = xmp_marker_bytes(k);
        match first_position(data, marker.as_slice()) {
            Some(start) => {
                let end = if data.len() - start > HEIC_XMP_GRAB_BYTES {
                    start + HEIC_XMP_GRAB_BYTES
                } else {
                    data.len()
                };
                let piece = vstd::slice::slice_subrange(data, start, end);
                return Some(from_utf8_lossy(piece));
            },
            None => {},
        }
        k = k + 1;
    }
    None
}

/// The brand bytes of HEIC/HEIF files.
pub open spec fn is_heic_brand(b: Seq<u8>) -> bool {
    b == tag4(0x68, 0x65, 0x69, 0x63) || b == tag4(0x68, 0x65, 0x69, 0x78) || b == tag4(0x68, 0x65,
        0x69, 0x6D) || b == tag4(0x68, 0x65, 0x69, 0x73) || b == tag4(0x68, 0x65, 0x76, 0x63) || b
        == tag4(0x68, 0x65, 0x76, 0x78) || b == tag4(0x68, 0x65, 0x76, 0x31) || b == tag4(0x6D,
        0x69, 0x66, 0x31) || b == tag4(0x6D, 0x73, 0x66, 0x31)
}

/// A file header is HEIC/HEIF: at least 12 bytes, `ftyp` at offset 4 and a HEIC
/// brand (heic, heix, heim, heis, hevc, hevx, hev1, mif1, msf1) at offset 8.
pub open spec fn spec_is_heic_header(h: Seq<u8>) -> bool {
    h.len() >= 12 && h.subrange(4, 8) == tag4(0x66, 0x74, 0x79, 0x70) && is_heic_brand(
        h.subrange(8, 12),
    )
}

/// Whether the first bytes of a file mark it as HEIC/HEIF (magic bytes only, not
/// the extension).
pub fn is_heic_header(header: &[u8]) -> (r: bool)
    ensures
        r == spec_is_heic_header(header@),
{
    if header.len() < 12 {
        return false;
    }
    let h = header;
    let ghost f = h@.subrange(4, 8);
    let ghost b = h@.subrange(8, 12);
    assert(f =~= tag4(h[4], h[5], h[6], h[7]));
    assert(b =~= tag4(h[8], h[9], h[10], h[11]));
    if !(h[4] == 0x66 && h[5] == 0x74 && h[6] == 0x79 && h[7] == 0x70) {
        return false;
    }
    let (b0, b1, b2, b3) = (h[8], h[9], h[10], h[11]);
    (b0 == 0x68 && b1 == 0x65 && b2 == 0x69 && (b3 == 0x63 || b3 == 0x78 || b3 == 0x6D || b3
        == 0x73)) || (b0 == 0x68 && b1 == 0x65 && b2 == 0x76 && (b3 == 0x63 || b3 == 0x78 || b3
        == 0x31)) || (b0 == 0x6D && b1 == 0x69 && b2 == 0x66 && b3 == 0x31) || (b0 == 0x6D && b1
        == 0x73 && b2 == 0x66 && b3 == 0x31)
}

/// HDR markers in the container: an `nclx` `colr` box with BT.2020 primaries
/// and PQ or HLG transfer makes the image HDR; a `dvcC` or `dvvC` box makes it
/// Dolby Vision (and HDR).
pub open spec fn spec_heic_hdr_markers(d: Seq<u8>) -> (bool, bool) {
    let colr = box_payload(d, tag4(0x63, 0x6F, 0x6C, 0x72));
    let pq_or_hlg = colr matches Some(c) && c.len() >= 11 && c.subrange(0, 4) == tag4(0x6E, 0x63,
        0x6C, 0x78) && be_u16(c, 4) == 9 && (be_u16(c, 6) == 16 || be_u16(c, 6) == 18);
    let dv = box_payload(d, tag4(0x64, 0x76, 0x63, 0x43)) is Some || box_payload(
        d,
        tag4(0x64, 0x76, 0x76, 0x43),
    ) is Some;
    (pq_or_hlg || dv, dv)
}

/// HDR and Dolby Vision markers of HEIC data: `(is_hdr, is_dolby_vision)`.
pub fn heic_hdr_markers(data: &[u8]) -> (r: (bool, bool))
    ensures
        r == spec_heic_hdr_markers(data@),
{
    let colr_t: [u8; 4] = [0x63, 0x6F, 0x6C, 0x72];
    assert(colr_t@ =~= tag4(0x63, 0x6F, 0x6C, 0x72));
    let mut is_hdr = false;
    if let Some(c) = find_box_data_recursive(data, colr_t) {
        if c.len() >= 11 && c[0] == 0x6E && c[1] == 0x63 && c[2] == 0x6C && c[3] == 0x78 {
            assert(c@.subrange(0, 4) =~= tag4(0x6E, 0x63, 0x6C, 0x78));
            let primaries = read_be_u16(c, 4);
            let transfer = read_be_u16(c, 6);
            is_hdr = primaries == 9 && (transfer == 16 || transfer == 18);
        } else {
            proof {
                if c@.len() >= 11 {
                    assert(c@.subrange(0, 4)[0] == c@[0]);
                    assert(c@.subrange(0, 4)[1] == c@[1]);
                    assert(c@.subrange(0, 4)[2] == c@[2]);
                    assert(c@.subrange(0, 4)[3] == c@[3]);
                }
            }
        }
    }
    let dvcc: [u8; 4] = [0x64, 0x76, 0x63, 0x43];
    assert(dvcc@ =~= tag4(0x64, 0x76, 0x63, 0x43));
    let dvvc: [u8; 4] = [0x64, 0x76, 0x76, 0x43];
    assert(dvvc@ =~= tag4(0x64, 0x76, 0x76, 0x43));
    let dv = find_box_data_recursive(data, dvcc).is_some() || find_box_data_recursive(
        data,
        dvvc,
    ).is_some();
    (is_hdr || dv, dv)
}

/// XMP that marks a gain map: "hdrgm:", "GainMap", "gainmap", or both
/// "GCamera:" and "HDR".
pub open spec fn xmp_marks_gainmap(x: Seq<char>) -> bool {
    contains_seq(x, "hdrgm:"@) || contains_seq(x, "GainMap"@) || contains_seq(x, "gainmap"@) || (
    contains_seq(x, "GCamera:"@) && contains_seq(x, "HDR"@))
}

/// XMP of a vendor camera pipeline: Samsung or Google camera namespaces.
pub open spec fn xmp_marks_vendor(x: Seq<char>) -> bool {
    contains_seq(x, "urn:samsung:image:"@) || contains_seq(x, "GCamera:"@) || contains_seq(
        x,
        "com.google.android.camera"@,
    )
}

/// Whether the XMP (if any) announces a gain map.
pub fn xmp_has_gainmap(xmp: &Option<String>) -> (r: bool)
    ensures
        r == (xmp.deep_view() matches Some(x) && xmp_marks_gainmap(x)),
{
    match xmp {
        Some(x) => {
            let s = x.as_str();
            str_contains(s, "hdrgm:") || str_contains(s, "GainMap") || str_contains(s, "gainmap")
                || (str_contains(s, "GCamera:") && str_contains(s, "HDR"))
        },
        None => false,
    }
}

/// Whether the XMP (if any) carries vendor camera metadata.
pub fn xmp_has_vendor_metadata(xmp: &Option<String>) -> (r: bool)
    ensures
        r == (xmp.deep_view() matches Some(x) && xmp_marks_vendor(x)),
{
    match xmp {
        Some(x) => {
            let s = x.as_str();
            str_contains(s, "urn:samsung:image:") || str_contains(s, "GCamera:") || str_contains(
                s,
                "com.google.android.camera",
            )
        },
        None => false,
    }
}

/// Subsampled chroma (4:2:0 or 4:2:2) in the HEVC configuration always means
/// lossy coding, whatever else the file holds.
pub proof fn law_subsampled_chroma_is_lossy(d: Seq<u8>)
    requires
        box_or_magic(d, hvcc_tag()) matches Some(h) && h.len() >= 20 && (h[16] % 4 == 1 || h[16]
            % 4 == 2),
    ensures
        spec_heic_is_lossless(d) == Some(false),
{
}

/// The Main, Main 10 and Main Still Picture profiles are always lossy.
pub proof fn law_main_profiles_are_lossy(d: Seq<u8>)
    requires
        box_or_magic(d, hvcc_tag()) matches Some(h) && h.len() >= 20 && (h[1] % 32 == 1 || h[1]
            % 32 == 2 || h[1] % 32 == 3),
    ensures
        spec_heic_is_lossless(d) == Some(false),
{
}

/// Dolby Vision configuration boxes always mark the image as HDR.
pub proof fn law_dolby_vision_is_hdr(d: Seq<u8>)
    ensures
        spec_heic_hdr_markers(d).1 ==> spec_heic_hdr_markers(d).0,
{
}

/// An `nclx` colour box (the first `colr` box found) with BT.2020 primaries
/// (code 9) marks the image as HDR when its transfer is HLG (code 18), exactly
/// as when it is PQ (code 16).
pub proof fn law_bt2020_pq_and_hlg_are_hdr(d: Seq<u8>)
    requires
        box_payload(d, tag4(0x63, 0x6F, 0x6C, 0x72)) matches Some(c) && c.len() >= 11 && c[0]
            == 0x6E && c[1] == 0x63 && c[2] == 0x6C && c[3] == 0x78 && c[4] == 0 && c[5] == 9
            && c[6] == 0 && (c[7] == 16 || c[7] == 18),
    ensures
        spec_heic_hdr_markers(d).0,
{
    let c = box_payload(d, tag4(0x63, 0x6F, 0x6C, 0x72)).unwrap();
    assert(c.subrange(0, 4) =~= tag4(0x6E, 0x63, 0x6C, 0x78));
}

/// A Dolby Vision configuration box (`dvcC` or `dvvC`) anywhere in the
/// container marks the image as Dolby Vision and as HDR, whatever its colour box.
pub proof fn law_dolby_vision_box_marks_dv_and_hdr(d: Seq<u8>)
    requires
        box_payload(d, tag4(0x64, 0x76, 0x63, 0x43)) is Some || box_payload(
            d,
            tag4(0x64, 0x76, 0x76, 0x43),
        ) is Some,
    ensures
        spec_heic_hdr_markers(d).0,
        spec_heic_hdr_markers(d).1,
{
}

/// Without a Dolby Vision box, HEIC data is HDR only through an `nclx` colour
/// box with BT.2020 primaries (code 9) and a PQ (16) or HLG (18) transfer.
pub proof fn law_hdr_needs_bt2020_pq_or_hlg(d: Seq<u8>)
    requires
        spec_heic_hdr_markers(d).0,
        !spec_heic_hdr_markers(d).1,
    ensures
        box_payload(d, tag4(0x63, 0x6F, 0x6C, 0x72)) matches Some(c) && c.len() >= 11 && c[0]
            == 0x6E && c[1] == 0x63 && c[2] == 0x6C && c[3] == 0x78 && c[4] == 0 && c[5] == 9
            && c[6] == 0 && (c[7] == 16 || c[7] == 18),
{
    let c = box_payload(d, tag4(0x63, 0x6F, 0x6C, 0x72)).unwrap();
    assert(c.subrange(0, 4)[0] == c[0]);
    assert(c.subrange(0, 4)[1] == c[1]);
    assert(c.subrange(0, 4)[2] == c[2]);
    assert(c.subrange(0, 4)[3] == c[3]);
}

/// The HDR facts of HEIC data: the container's HDR and Dolby Vision markers,
/// and whether its XMP announces a gain map.
pub fn heic_hdr_info(data: &[u8]) -> (r: HeicHdrInfo)
    ensures
        r.is_hdr == spec_heic_hdr_markers(data@).0,
        r.is_dolby_vision == spec_heic_hdr_markers(data@).1,
        r.has_gainmap == (spec_xmp(data@) matches Some(x) && xmp_marks_gainmap(x)),
{
    let (is_hdr, is_dolby_vision) = heic_hdr_markers(data);
    let xmp = extract_xmp_from_heic_data(data);
    HeicHdrInfo { is_hdr, is_dolby_vision, has_gainmap: xmp_has_gainmap(&xmp) }
}

/// Whether the XMP of HEIC data carries vendor camera metadata.
pub fn heic_has_vendor_metadata(data: &[u8]) -> (r: bool)
    ensures
        r == (spec_xmp(data@) matches Some(x) && xmp_marks_vendor(x)),
{
    let xmp = extract_xmp_from_heic_data(data);
    xmp_has_vendor_metadata(&xmp)
}

} // verus!
