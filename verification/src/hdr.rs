//! HDR and colour-space mapping used by the HDR conversion paths: CICP code
//! points, ffmpeg / x265 parameters, BT.709 inference, Display P3 detection.
use vstd::prelude::*;
use vstd::string::*;
use crate::bytes::{be_u16, contains, contains_seq, le_u16, read_be_u16, tag4};
use crate::ffprobe_json::{deep_bit_depth, opt_eq, opt_is, spec_is_hdr, ColorInfo, ColorModel};
use crate::hdr_utils::{
    cicp_string, cicp_text, fill_bt709, fill_bt709_defaults, is_hd, is_modern_ext, modern_ext,
    spec_dv_profile_string, spec_ffmpeg_args, spec_hdr_pix_fmt, spec_x265_hdr_params,
};
use crate::image_formats::avif::box_payload;
use crate::isobmff::find_box_data_recursive;
use crate::text::{to_lowercase, unicode_lowercase};

verus! {

broadcast use vstd::slice::group_slice_axioms;

/// Intermediate format of the HDR conversion path.
#[derive(Debug, Clone, Copy, PartialEq, Eq, Structural)]
pub enum HdrIntermediateFormat {
    /// 32-bit float OpenEXR: maximum precision.
    OpenExr32,
    /// 16-bit integer PNG: high precision with better compatibility.
    Png16,
}

impl Default for HdrIntermediateFormat {
    fn default() -> (r: Self)
        ensures
            r == HdrIntermediateFormat::OpenExr32,
    {
        HdrIntermediateFormat::OpenExr32
    }
}

/// CICP primaries code on this path (BT.709 = 1, BT.2020 = 9, Display P3 = 12);
/// untagged PQ content is taken as BT.2020.
pub open spec fn cicp_primaries(m: ColorModel) -> Option<nat> {
    if opt_is(m.color_primaries, "bt709"@) {
        Some(1)
    } else if opt_is(m.color_primaries, "bt2020"@) {
        Some(9)
    } else if opt_is(m.color_primaries, "display-p3"@) {
        Some(12)
    } else if opt_is(m.color_transfer, "smpte2084"@) {
        Some(9)
    } else {
        None
    }
}

/// CICP transfer code on this path (PQ = 16, HLG = 18, BT.709 = 1, sRGB = 13);
/// untagged transfer with BT.2020 primaries is taken as PQ.
pub open spec fn cicp_transfer(m: ColorModel, primaries: nat) -> Option<nat> {
    if opt_is(m.color_transfer, "smpte2084"@) {
        Some(16)
    } else if opt_is(m.color_transfer, "arib-std-b67"@) {
        Some(18)
    } else if opt_is(m.color_transfer, "bt709"@) {
        Some(1)
    } else if opt_is(m.color_transfer, "srgb"@) {
        Some(13)
    } else if primaries == 9 {
        Some(16)
    } else {
        None
    }
}

/// CICP matrix code on this path (BT.2020 NCL = 9, BT.709 = 1, RGB = 0),
/// inferred from the primaries when untagged.
pub open spec fn cicp_matrix(m: ColorModel, primaries: nat) -> nat {
    if opt_is(m.color_space, "bt2020nc"@) {
        9
    } else if opt_is(m.color_space, "bt709"@) {
        1
    } else if opt_is(m.color_space, "rgb"@) {
        0
    } else if primaries == 9 {
        9
    } else if primaries == 1 {
        1
    } else {
        0
    }
}

/// The CICP string of a description on this path.
pub open spec fn spec_cicp(m: ColorModel) -> Option<Seq<char>> {
    match cicp_primaries(m) {
        None => None,
        Some(p) => match cicp_transfer(m, p) {
            None => None,
            Some(t) => Some(cicp_text(p, t, cicp_matrix(m, p))),
        },
    }
}

fn primaries_code(info: &ColorInfo) -> (r: Option<u64>)
    ensures
        r matches Some(v) ==> cicp_primaries(info@) == Some(v as nat),
        r is None ==> cicp_primaries(info@) is None,
{
    if opt_eq(&info.color_primaries, "bt709") {
        Some(1)
    } else if opt_eq(&info.color_primaries, "bt2020") {
        Some(9)
    } else if opt_eq(&info.color_primaries, "display-p3") {
        Some(12)
    } else if opt_eq(&info.color_transfer, "smpte2084") {
        Some(9)
    } else {
        None
    }
}

fn transfer_code(info: &ColorInfo, primaries: u64) -> (r: Option<u64>)
    ensures
        r matches Some(v) ==> cicp_transfer(info@, primaries as nat) == Some(v as nat),
        r is None ==> cicp_transfer(info@, primaries as nat) is None,
{
    if opt_eq(&info.color_transfer, "smpte2084") {
        Some(16)
    } else if opt_eq(&info.color_transfer, "arib-std-b67") {
        Some(18)
    } else if opt_eq(&info.color_transfer, "bt709") {
        Some(1)
    } else if opt_eq(&info.color_transfer, "srgb") {
        Some(13)
    } else if primaries == 9 {
        Some(16)
    } else {
        None
    }
}

fn matrix_code(info: &ColorInfo, primaries: u64) -> (r: u64)
    ensures
        r == cicp_matrix(info@, primaries as nat),
{
    if opt_eq(&info.color_space, "bt2020nc") {
        9
    } else if opt_eq(&info.color_space, "bt709") {
        1
    } else if opt_eq(&info.color_space, "rgb") {
        0
    } else if primaries == 9 {
        9
    } else if primaries == 1 {
        1
    } else {
        0
    }
}

/// CICP string (`primaries-transfer-matrix`) for JXL encoding; `None` when
/// primaries or transfer cannot be determined.
pub fn color_info_to_cicp(info: &ColorInfo) -> (r: Option<String>)
    ensures
        r.deep_view() == spec_cicp(info@),
{
    let p = match primaries_code(info) {
        Some(p) => p,
        None => {
            return None;
        },
    };
    let t = match transfer_code(info, p) {
        Some(t) => t,
        None => {
            return None;
        },
    };
    let x = matrix_code(info, p);
    Some(cicp_string(p, t, x))
}

/// Whether an image should take the HDR decoding path: HDR content or more than 8 bits.
pub fn should_use_hdr_decode(info: &ColorInfo) -> (r: bool)
    ensures
        r == (spec_is_hdr(info@) || deep_bit_depth(info@)),
{
    crate::hdr_utils::should_use_hdr_decode(info)
}

/// Recommended decoding pixel format: `rgb48le` for HDR or deep content, else `rgb24`.
pub fn get_hdr_pix_fmt(info: &ColorInfo) -> (r: &'static str)
    ensures
        r@ == spec_hdr_pix_fmt(info@),
{
    crate::hdr_utils::get_hdr_pix_fmt(info)
}

/// Map a DV profile and compatibility ID to the x265 `dolby-vision-profile` string.
pub fn dv_x265_profile_string(dv_profile: Option<u8>, compat_id: Option<u8>) -> (r: Option<String>)
    ensures
        r.deep_view() == spec_dv_profile_string(dv_profile, compat_id),
{
    crate::hdr_utils::dv_x265_profile_string(dv_profile, compat_id)
}

/// ffmpeg colour arguments for the fields that are set.
pub fn color_info_to_ffmpeg_args(info: &ColorInfo) -> (r: Vec<String>)
    ensures
        r.deep_view() == spec_ffmpeg_args(info@),
{
    crate::hdr_utils::color_info_to_ffmpeg_args(info)
}

/// x265 HDR parameters for HDR content; `None` for SDR content.
pub fn color_info_to_x265_hdr_params(info: &ColorInfo) -> (r: Option<String>)
    ensures
        r.deep_view() == spec_x265_hdr_params(info@),
{
    crate::hdr_utils::color_info_to_x265_hdr_params(info)
}

/// BT.709 inference on this path: content that is HDR or deeper than 8 bits is
/// kept; HD or modern-format content gets its missing colour tags filled.
pub open spec fn spec_infer_bt709(m: ColorModel, width: u32, height: u32, ext: Seq<char>) -> ColorModel {
    if spec_is_hdr(m) || deep_bit_depth(m) {
        m
    } else if is_hd(width, height) || is_modern_ext(unicode_lowercase(ext)) {
        fill_bt709(m)
    } else {
        m
    }
}

/// Infer BT.709 colour tags for HD or modern-format SDR content (see `spec_infer_bt709`).
pub fn infer_bt709_if_modern(info: ColorInfo, width: u32, height: u32, ext: &str) -> (r: ColorInfo)
    ensures
        r@ == spec_infer_bt709(info@, width, height, ext@),
{
    let hd = width >= 1280 || height >= 720;
    let lower = to_lowercase(ext);
    let modern = modern_ext(lower.as_str());
    if should_use_hdr_decode(&info) {
        return info;
    }
    if hd || modern {
        fill_bt709_defaults(info)
    } else {
        info
    }
}

/// CICP code of the Display P3 primaries.
pub const COLOR_PRIMARY_P3: u16 = 12;

/// Bytes at the start of a file scanned for a Display P3 ICC description.
pub const ICC_SEARCH_LIMIT_BYTES: usize = 1048576;

/// The bytes of the text "Display P3".
pub open spec fn display_p3_text() -> Seq<u8> {
    seq![0x44u8, 0x69, 0x73, 0x70, 0x6C, 0x61, 0x79, 0x20, 0x50, 0x33]
}

/// Whether image data uses Display P3 primaries: an `nclx` `colr` box decides by
/// its primaries code; otherwise the first `ICC_SEARCH_LIMIT_BYTES` bytes are
/// searched for "Display P3", or for both "P3" and "colr".
pub open spec fn spec_is_display_p3(d: Seq<u8>) -> bool {
    let colr = box_payload(d, tag4(0x63, 0x6F, 0x6C, 0x72));
    if colr matches Some(c) && c.len() >= 11 && c.subrange(0, 4) == tag4(0x6E, 0x63, 0x6C, 0x78) {
        be_u16(colr->Some_0, 8) == COLOR_PRIMARY_P3
    } else {
        let head = d.take(if d.len() < ICC_SEARCH_LIMIT_BYTES { d.len() as int } else { ICC_SEARCH_LIMIT_BYTES as int });
        contains_seq(head, display_p3_text()) || (contains_seq(head, seq![0x50u8, 0x33])
            && contains_seq(head, tag4(0x63, 0x6F, 0x6C, 0x72)))
    }
}

/// Whether image data uses Display P3 primaries (see `spec_is_display_p3`).
pub fn is_display_p3(data: &[u8]) -> (r: bool)
    ensures
        r == spec_is_display_p3(data@),
{
    let ty: [u8; 4] = [0x63, 0x6F, 0x6C, 0x72];
    assert(ty@ =~= tag4(0x63, 0x6F, 0x6C, 0x72));
    if let Some(c) = find_box_data_recursive(data, ty) {
        if c.len() >= 11 && c[0] == 0x6E && c[1] == 0x63 && c[2] == 0x6C && c[3] == 0x78 {
            assert(c@.subrange(0, 4) =~= tag4(0x6E, 0x63, 0x6C, 0x78));
            return read_be_u16(c, 8) == COLOR_PRIMARY_P3;
        }
        proof {
            if c@.len() >= 11 {
                assert(c@.subrange(0, 4)[0] == c@[0]);
                assert(c@.subrange(0, 4)[1] == c@[1]);
                assert(c@.subrange(0, 4)[2] == c@[2]);
                assert(c@.subrange(0, 4)[3] == c@[3]);
            }
        }
    }
    let end = if data.len() < ICC_SEARCH_LIMIT_BYTES {
        data.len()
    } else {
        ICC_SEARCH_LIMIT_BYTES
    };
    let head = vstd::slice::slice_subrange(data, 0, end);
    assert(head@ =~= data@.take(end as int));
    let p3_text: [u8; 10] = [0x44, 0x69, 0x73, 0x70, 0x6C, 0x61, 0x79, 0x20, 0x50, 0x33];
    assert(p3_text@ =~= display_p3_text());
    let p3: [u8; 2] = [0x50, 0x33];
    assert(p3@ =~= seq![0x50u8, 0x33]);
    contains(head, &p3_text) || (contains(head, &p3) && contains(head, &ty))
}

/// `u16::from_ne_bytes`: the 16-bit value of two bytes in the machine's byte
/// order, which is little- or big-endian.
#[verifier::external_body]
fn u16_from_native_bytes(b0: u8, b1: u8) -> (r: u16)
    ensures
        r == le_u16(seq![b0, b1], 0) || r == be_u16(seq![b0, b1], 0),
{
    u16::from_ne_bytes([b0, b1])
}

/// The 16-bit sample at `word_index` (two bytes per word, machine byte order);
/// `None` when the word lies past the data.
pub fn read_native_u16_word(data: &[u8], word_index: usize) -> (r: Option<u16>)
    ensures
        r is Some <==> 2 * word_index + 2 <= data@.len(),
        r matches Some(v) ==> (v == le_u16(data@, 2 * word_index) || v == be_u16(
            data@,
            2 * word_index,
        )),
{
    let byte_index = match word_index.checked_mul(2) {
        Some(b) => b,
        None => {
            assert(data@.len() == data.len());
            return None;
        },
    };
    if byte_index > data.len() || data.len() - byte_index < 2 {
        return None;
    }
    Some(u16_from_native_bytes(data[byte_index], data[byte_index + 1]))
}

/// On this path, BT.709 inference never touches HDR content or content deeper
/// than 8 bits.
pub proof fn law_infer_keeps_hdr_or_deep_content(m: ColorModel, width: u32, height: u32, ext: Seq<char>)
    requires
        spec_is_hdr(m) || deep_bit_depth(m),
    ensures
        spec_infer_bt709(m, width, height, ext) == m,
{
}

/// On this path, inferring twice gives the same description as inferring once.
pub proof fn law_infer_idempotent(m: ColorModel, width: u32, height: u32, ext: Seq<char>)
    ensures
        spec_infer_bt709(spec_infer_bt709(m, width, height, ext), width, height, ext)
            == spec_infer_bt709(m, width, height, ext),
{
    reveal_strlit("iec61966-2-1");
    reveal_strlit("smpte2084");
    reveal_strlit("arib-std-b67");
    assert("iec61966-2-1"@.len() != "smpte2084"@.len());
    assert("iec61966-2-1"@[0] != "arib-std-b67"@[0]);
    let f = fill_bt709(m);
    if !(spec_is_hdr(m) || deep_bit_depth(m)) && (is_hd(width, height) || is_modern_ext(
        unicode_lowercase(ext),
    )) {
        assert(!spec_is_hdr(f));
        assert(fill_bt709(f) == f);
    }
}

/// PQ content always gets a CICP string on this path.
pub proof fn law_cicp_defined_for_pq(m: ColorModel)
    requires
        opt_is(m.color_transfer, "smpte2084"@),
    ensures
        spec_cicp(m) is Some,
{
}

/// Without primaries and transfer tags there is no CICP string on this path.
pub proof fn law_cicp_none_without_metadata(m: ColorModel)
    requires
        m.color_primaries is None,
        m.color_transfer is None,
    ensures
        spec_cicp(m) is None,
{
}

} // verus!
