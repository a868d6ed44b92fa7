//! HDR metadata mapping: CICP code points for JXL, ffmpeg / x265 colour
//! parameters, BT.709 inference for untagged modern content, and the decisions
//! around the external HDR tools.
use vstd::prelude::*;
use vstd::string::*;
use crate::ffprobe_json::{deep_bit_depth, hdr_transfer, opt_eq, opt_is, spec_is_hdr, ColorInfo, ColorModel};
use crate::bytes::{contains_seq, occurs_at};
use crate::text::{
    concat2, decimal, decimal_string, join_strings, join_with, str_contains, str_eq,
    to_lowercase, unicode_lowercase,
};

verus! {

/// CICP colour primaries code of a description (BT.709 = 1, BT.2020 = 9,
/// P3 = 12); untagged PQ / HLG content is taken as BT.2020.
pub open spec fn cicp_primaries(m: ColorModel) -> Option<nat> {
    if opt_is(m.color_primaries, "bt709"@) {
        Some(1)
    } else if opt_is(m.color_primaries, "bt2020"@) {
        Some(9)
    } else if opt_is(m.color_primaries, "smpte432"@) || opt_is(m.color_primaries, "display-p3"@) {
        Some(12)
    } else if opt_is(m.color_transfer, "smpte2084"@) || opt_is(m.color_transfer, "arib-std-b67"@) {
        Some(9)
    } else {
        None
    }
}

/// CICP transfer code (PQ = 16, HLG = 18, BT.709 = 1, sRGB = 13); untagged
/// transfer with BT.2020 primaries is taken as PQ.
pub open spec fn cicp_transfer(m: ColorModel, primaries: nat) -> Option<nat> {
    if opt_is(m.color_transfer, "smpte2084"@) {
        Some(16)
    } else if opt_is(m.color_transfer, "arib-std-b67"@) {
        Some(18)
    } else if opt_is(m.color_transfer, "bt709"@) {
        Some(1)
    } else if opt_is(m.color_transfer, "srgb"@) || opt_is(m.color_transfer, "iec61966-2-1"@) {
        Some(13)
    } else if primaries == 9 {
        Some(16)
    } else {
        None
    }
}

/// CICP matrix code (BT.2020 NCL = 9, BT.709 = 1, RGB = 0), inferred from the
/// primaries when untagged.
pub open spec fn cicp_matrix(m: ColorModel, primaries: nat) -> nat {
    if opt_is(m.color_space, "bt2020nc"@) || opt_is(m.color_space, "bt2020-ncl"@) {
        9
    } else if opt_is(m.color_space, "bt709"@) {
        1
    } else if opt_is(m.color_space, "rgb"@) || opt_is(m.color_space, "gbr"@) {
        0
    } else if primaries == 9 {
        9
    } else if primaries == 1 {
        1
    } else {
        0
    }
}

/// `primaries-transfer-matrix` in decimal.
pub open spec fn cicp_text(p: nat, t: nat, x: nat) -> Seq<char> {
    decimal(p) + "-"@ + decimal(t) + "-"@ + decimal(x)
}

/// The CICP string of a description, `None` when primaries or transfer stay unknown.
pub open spec fn spec_cicp(m: ColorModel) -> Option<Seq<char>> {
    match cicp_primaries(m) {
        None => None,
        Some(p) => match cicp_transfer(m, p) {
            None => None,
            Some(t) => Some(cicp_text(p, t, cicp_matrix(m, p))),
        },
    }
}

/// Build `p-t-x` from three codes.
pub fn cicp_string(p: u64, t: u64, x: u64) -> (r: String)
    ensures
        r@ == cicp_text(p as nat, t as nat, x as nat),
{
    let a = concat2(decimal_string(p).as_str(), "-");
    let b = concat2(a.as_str(), decimal_string(t).as_str());
    let c = concat2(b.as_str(), "-");
    concat2(c.as_str(), decimal_string(x).as_str())
}

fn primaries_code(info: &ColorInfo) -> (r: Option<u64>)
    ensures
        r matches Some(v) ==> cicp_primaries(info@) == Some(v as nat),
        r is None ==> cicp_primaries(info@) is None,
{
    if opt_eq(&info.color_primaries, "bt709") {
        Some(1)
    } else if opt_eq(&info.color_primaries, "bt2020") {
        Some(9)
    } else if opt_eq(&info.color_primaries, "smpte432") || opt_eq(&info.color_primaries, "display-p3") {
        Some(12)
    } else if opt_eq(&info.color_transfer, "smpte2084") || opt_eq(&info.color_transfer, "arib-std-b67") {
        Some(9)
    } else {
        None
    }
}

fn transfer_code(info: &ColorInfo, primaries: u64) -> (r: Option<u64>)
    ensures
        r matches Some(v) ==> cicp_transfer(info@, primaries as nat) == Some(v as nat),
        r is None ==> cicp_transfer(info@, primaries as nat) is None,
{
    if opt_eq(&info.color_transfer, "smpte2084") {
        Some(16)
    } else if opt_eq(&info.color_transfer, "arib-std-b67") {
        Some(18)
    } else if opt_eq(&info.color_transfer, "bt709") {
        Some(1)
    } else if opt_eq(&info.color_transfer, "srgb") || opt_eq(&info.color_transfer, "iec61966-2-1") {
        Some(13)
    } else if primaries == 9 {
        Some(16)
    } else {
        None
    }
}

fn matrix_code(info: &ColorInfo, primaries: u64) -> (r: u64)
    ensures
        r == cicp_matrix(info@, primaries as nat),
{
    if opt_eq(&info.color_space, "bt2020nc") || opt_eq(&info.color_space, "bt2020-ncl") {
        9
    } else if opt_eq(&info.color_space, "bt709") {
        1
    } else if opt_eq(&info.color_space, "rgb") || opt_eq(&info.color_space, "gbr") {
        0
    } else if primaries == 9 {
        9
    } else if primaries == 1 {
        1
    } else {
        0
    }
}

/// CICP string (`primaries-transfer-matrix`) for JXL encoding; `None` when the
/// description carries no usable colour metadata.
pub fn color_info_to_cicp(info: &ColorInfo) -> (r: Option<String>)
    ensures
        r.deep_view() == spec_cicp(info@),
{
    let p = match primaries_code(info) {
        Some(p) => p,
        None => {
            return None;
        },
    };
    let t = match transfer_code(info, p) {
        Some(t) => t,
        None => {
            return None;
        },
    };
    let x = matrix_code(info, p);
    Some(cicp_string(p, t, x))
}

/// `flag value` when `o` holds a value, nothing otherwise.
pub open spec fn flag_pair(flag: Seq<char>, o: Option<Seq<char>>) -> Seq<Seq<char>> {
    match o {
        Some(v) => seq![flag, v],
        None => Seq::empty(),
    }
}

/// The ffmpeg colour arguments of a description: colour space, transfer,
/// primaries and range, each present one as a flag followed by its value.
pub open spec fn spec_ffmpeg_args(m: ColorModel) -> Seq<Seq<char>> {
    flag_pair("-colorspace"@, m.color_space) + flag_pair("-color_trc"@, m.color_transfer)
        + flag_pair("-color_primaries"@, m.color_primaries) + flag_pair("-color_range"@, m.color_range)
}

fn push_flag_pair(args: &mut Vec<String>, flag: &str, o: &Option<String>)
    ensures
        final(args).deep_view() == old(args).deep_view() + flag_pair(flag@, o.deep_view()),
{
    match o {
        Some(v) => {
            let ghost before = args.deep_view();
            args.push(String::from_str(flag));
            args.push(v.clone());
            assert(args.deep_view() =~= before + flag_pair(flag@, o.deep_view()));
        },
        None => {
            assert(args.deep_view() =~= old(args).deep_view() + flag_pair(flag@, o.deep_view()));
        },
    }
}

/// ffmpeg colour arguments: `-colorspace`, `-color_trc`, `-color_primaries`,
/// `-color_range`, each followed by its value, for the fields that are set.
pub fn color_info_to_ffmpeg_args(info: &ColorInfo) -> (r: Vec<String>)
    ensures
        r.deep_view() == spec_ffmpeg_args(info@),
{
    let mut args: Vec<String> = Vec::new();
    assert(args.deep_view() =~= Seq::<Seq<char>>::empty());
    push_flag_pair(&mut args, "-colorspace", &info.color_space);
    push_flag_pair(&mut args, "-color_trc", &info.color_transfer);
    push_flag_pair(&mut args, "-color_primaries", &info.color_primaries);
    push_flag_pair(&mut args, "-color_range", &info.color_range);
    assert(args.deep_view() =~= spec_ffmpeg_args(info@));
    args
}

/// File extensions of modern image formats, compared in lower case.
pub open spec fn is_modern_ext(lower: Seq<char>) -> bool {
    lower == "avif"@ || lower == "webp"@ || lower == "jxl"@ || lower == "heic"@ || lower == "heif"@
        || lower == "apng"@
}

/// HD size: at least 1280 wide or 720 high.
pub open spec fn is_hd(width: u32, height: u32) -> bool {
    width >= 1280 || height >= 720
}

/// Signals of HDR content that BT.709 inference must leave alone: Dolby Vision,
/// HDR10+, more than 8 bits, mastering or light-level metadata, a PQ/HLG
/// transfer, BT.2020 primaries or a BT.2020 matrix.
pub open spec fn looks_hdr(m: ColorModel) -> bool {
    m.is_dolby_vision || m.is_hdr10_plus || deep_bit_depth(m) || m.mastering_display is Some || m.max_cll is Some || opt_is(
        m.color_transfer,
        "smpte2084"@,
    ) || opt_is(m.color_transfer, "arib-std-b67"@) || opt_is(m.color_primaries, "bt2020"@)
        || opt_is(m.color_space, "bt2020nc"@) || opt_is(m.color_space, "bt2020c"@) || opt_is(
        m.color_space,
        "bt2020_ncl"@,
    ) || opt_is(m.color_space, "bt2020ncl"@)
}

/// The description with BT.709 / sRGB filled into whichever of colour space,
/// transfer and primaries is missing.
pub open spec fn fill_bt709(m: ColorModel) -> ColorModel {
    ColorModel {
        color_space: if m.color_space is None {
            Some("bt709"@)
        } else {
            m.color_space
        },
        color_transfer: if m.color_transfer is None {
            Some("iec61966-2-1"@)
        } else {
            m.color_transfer
        },
        color_primaries: if m.color_primaries is None {
            Some("bt709"@)
        } else {
            m.color_primaries
        },
        color_range: m.color_range,
        pix_fmt: m.pix_fmt,
        bit_depth: m.bit_depth,
        mastering_display: m.mastering_display,
        max_cll: m.max_cll,
        is_dolby_vision: m.is_dolby_vision,
        is_hdr10_plus: m.is_hdr10_plus,
        is_float: m.is_float,
    }
}

/// BT.709 inference: HD or modern-format content without HDR signals gets the
/// missing colour tags filled with BT.709 / sRGB; everything else is kept.
pub open spec fn spec_infer_bt709(m: ColorModel, width: u32, height: u32, ext: Seq<char>) -> ColorModel {
    if looks_hdr(m) {
        m
    } else if is_hd(width, height) || is_modern_ext(unicode_lowercase(ext)) {
        fill_bt709(m)
    } else {
        m
    }
}

/// Whether `s` is one of the modern image extensions (already lower case).
pub fn modern_ext(s: &str) -> (r: bool)
    ensures
        r == is_modern_ext(s@),
{
    str_eq(s, "avif") || str_eq(s, "webp") || str_eq(s, "jxl") || str_eq(s, "heic") || str_eq(
        s,
        "heif",
    ) || str_eq(s, "apng")
}

fn looks_hdr_exec(info: &ColorInfo) -> (r: bool)
    ensures
        r == looks_hdr(info@),
{
    let deep = match info.bit_depth {
        Some(d) => d > 8,
        None => false,
    };
    info.is_dolby_vision || info.is_hdr10_plus || deep || info.mastering_display.is_some() || info.max_cll.is_some() || opt_eq(
        &info.color_transfer,
        "smpte2084",
    ) || opt_eq(&info.color_transfer, "arib-std-b67") || opt_eq(&info.color_primaries, "bt2020")
        || opt_eq(&info.color_space, "bt2020nc") || opt_eq(&info.color_space, "bt2020c") || opt_eq(
        &info.color_space,
        "bt2020_ncl",
    ) || opt_eq(&info.color_space, "bt2020ncl")
}

/// Fill the missing colour tags with BT.709 / sRGB.
pub fn fill_bt709_defaults(info: ColorInfo) -> (r: ColorInfo)
    ensures
        r@ == fill_bt709(info@),
{
    let mut info = info;
    if info.color_space.is_none() {
        info.color_space = Some(String::from_str("bt709"));
    }
    if info.color_transfer.is_none() {
        info.color_transfer = Some(String::from_str("iec61966-2-1"));
    }
    if info.color_primaries.is_none() {
        info.color_primaries = Some(String::from_str("bt709"));
    }
    info
}

/// Infer BT.709 colour tags for HD or modern-format content that carries no HDR
/// signal (see `spec_infer_bt709`).
pub fn infer_bt709_if_modern(info: ColorInfo, width: u32, height: u32, ext: &str) -> (r: ColorInfo)
    ensures
        r@ == spec_infer_bt709(info@, width, height, ext@),
{
    let hd = width >= 1280 || height >= 720;
    let lower = to_lowercase(ext);
    let modern = modern_ext(lower.as_str());
    if looks_hdr_exec(&info) {
        return info;
    }
    if hd || modern {
        fill_bt709_defaults(info)
    } else {
        info
    }
}

/// x265 colour primaries code.
pub open spec fn x265_prim_code(p: Seq<char>) -> Seq<char> {
    if p == "bt709"@ {
        "1"@
    } else if p == "smpte432"@ || p == "display-p3"@ {
        "12"@
    } else {
        "9"@
    }
}

/// x265 transfer code.
pub open spec fn x265_trc_code(t: Seq<char>) -> Seq<char> {
    if t == "arib-std-b67"@ {
        "18"@
    } else if t == "bt709"@ {
        "1"@
    } else {
        "16"@
    }
}

/// x265 matrix code.
pub open spec fn x265_matrix_code(c: Seq<char>) -> Seq<char> {
    if c == "bt709"@ {
        "1"@
    } else {
        "9"@
    }
}

/// `key` followed by the coded value, when a value is present.
pub open spec fn keyed(o: Option<Seq<char>>, key: Seq<char>, code: spec_fn(Seq<char>) -> Seq<char>) -> Seq<Seq<char>> {
    match o {
        Some(v) => seq![key + code(v)],
        None => Seq::empty(),
    }
}

/// The x265 HDR parameters of a description, one `key=value` per present field.
pub open spec fn x265_params(m: ColorModel) -> Seq<Seq<char>> {
    keyed(m.color_primaries, "colorprim="@, |v: Seq<char>| x265_prim_code(v)) + keyed(
        m.color_transfer,
        "transfer="@,
        |v: Seq<char>| x265_trc_code(v),
    ) + keyed(m.color_space, "colormatrix="@, |v: Seq<char>| x265_matrix_code(v)) + keyed(
        m.mastering_display,
        "master-display="@,
        |v: Seq<char>| v,
    ) + keyed(m.max_cll, "max-cll="@, |v: Seq<char>| v)
}

/// x265 HDR parameter string: `None` for SDR content or when no field is set,
/// else the parameters joined with `:`.
pub open spec fn spec_x265_hdr_params(m: ColorModel) -> Option<Seq<char>> {
    if !spec_is_hdr(m) || x265_params(m).len() == 0 {
        None
    } else {
        Some(join_with(x265_params(m), ":"@))
    }
}

fn prim_code(p: &str) -> (r: &'static str)
    ensures
        r@ == x265_prim_code(p@),
{
    if str_eq(p, "bt709") {
        "1"
    } else if str_eq(p, "smpte432") || str_eq(p, "display-p3") {
        "12"
    } else {
        "9"
    }
}

fn trc_code(t: &str) -> (r: &'static str)
    ensures
        r@ == x265_trc_code(t@),
{
    if str_eq(t, "arib-std-b67") {
        "18"
    } else if str_eq(t, "bt709") {
        "1"
    } else {
        "16"
    }
}

fn matrix_code_x265(c: &str) -> (r: &'static str)
    ensures
        r@ == x265_matrix_code(c@),
{
    if str_eq(c, "bt709") {
        "1"
    } else {
        "9"
    }
}

/// x265 HDR parameters (`colorprim=..:transfer=..:colormatrix=..:master-display=..:max-cll=..`)
/// for HDR content; `None` for SDR content.
pub fn color_info_to_x265_hdr_params(info: &ColorInfo) -> (r: Option<String>)
    ensures
        r.deep_view() == spec_x265_hdr_params(info@),
{
    if !info.is_hdr() {
        return None;
    }
    let mut params: Vec<String> = Vec::new();
    let ghost m = info@;
    assert(params.deep_view() =~= Seq::<Seq<char>>::empty());
    let ghost s0 = keyed(m.color_primaries, "colorprim="@, |v: Seq<char>| x265_prim_code(v));
    let ghost s1 = keyed(m.color_transfer, "transfer="@, |v: Seq<char>| x265_trc_code(v));
    let ghost s2 = keyed(m.color_space, "colormatrix="@, |v: Seq<char>| x265_matrix_code(v));
    let ghost s3 = keyed(m.mastering_display, "master-display="@, |v: Seq<char>| v);
    let ghost s4 = keyed(m.max_cll, "max-cll="@, |v: Seq<char>| v);
    if let Some(p) = &info.color_primaries {
        params.push(concat2("colorprim=", prim_code(p.as_str())));
    }
    assert(params.deep_view() =~= s0);
    if let Some(t) = &info.color_transfer {
        params.push(concat2("transfer=", trc_code(t.as_str())));
    }
    assert(params.deep_view() =~= s0 + s1);
    if let Some(c) = &info.color_space {
        params.push(concat2("colormatrix=", matrix_code_x265(c.as_str())));
    }
    assert(params.deep_view() =~= s0 + s1 + s2);
    if let Some(md) = &info.mastering_display {
        params.push(concat2("master-display=", md.as_str()));
    }
    assert(params.deep_view() =~= s0 + s1 + s2 + s3);
    if let Some(cll) = &info.max_cll {
        params.push(concat2("max-cll=", cll.as_str()));
    }
    assert(params.deep_view() =~= x265_params(m));
    if params.len() == 0 {
        None
    } else {
        Some(join_strings(&params, ":"))
    }
}

/// Whether an image should take the HDR decoding path: HDR content or more than 8 bits.
pub fn should_use_hdr_decode(info: &ColorInfo) -> (r: bool)
    ensures
        r == (spec_is_hdr(info@) || deep_bit_depth(info@)),
{
    let deep = match info.bit_depth {
        Some(d) => d > 8,
        None => false,
    };
    info.is_hdr() || deep
}

/// The decoding pixel format: 16-bit RGB for the HDR path, 8-bit RGB otherwise.
pub open spec fn spec_hdr_pix_fmt(m: ColorModel) -> Seq<char> {
    if spec_is_hdr(m) || deep_bit_depth(m) {
        "rgb48le"@
    } else {
        "rgb24"@
    }
}

/// Recommended decoding pixel format: `rgb48le` for HDR or deep content, else `rgb24`.
pub fn get_hdr_pix_fmt(info: &ColorInfo) -> (r: &'static str)
    ensures
        r@ == spec_hdr_pix_fmt(info@),
{
    if should_use_hdr_decode(info) {
        "rgb48le"
    } else {
        "rgb24"
    }
}

/// Compatibility ID used for Dolby Vision profile 8 when none is known.
pub const DV_PROFILE8_DEFAULT_COMPAT_ID: u8 = 1;

/// x265 `dolby-vision-profile` string of a DV profile: 5 gives "5.0", 7 gives
/// "8.1" (profile 7 is converted to 8.1), 8 gives "8.<compat id>" (1 by default).
pub open spec fn spec_dv_profile_string(dv_profile: Option<u8>, compat_id: Option<u8>) -> Option<Seq<char>> {
    match dv_profile {
        Some(5) => Some("5.0"@),
        Some(7) => Some("8.1"@),
        Some(8) => Some(
            "8."@ + decimal(
                match compat_id {
                    Some(c) => c as nat,
                    None => DV_PROFILE8_DEFAULT_COMPAT_ID as nat,
                },
            ),
        ),
        _ => None,
    }
}

/// Map a DV profile and compatibility ID to the x265 `dolby-vision-profile` string.
pub fn dv_x265_profile_string(dv_profile: Option<u8>, compat_id: Option<u8>) -> (r: Option<String>)
    ensures
        r.deep_view() == spec_dv_profile_string(dv_profile, compat_id),
{
    match dv_profile {
        Some(5) => Some(String::from_str("5.0")),
        Some(7) => Some(String::from_str("8.1")),
        Some(8) => {
            let sub = match compat_id {
                Some(c) => c,
                None => DV_PROFILE8_DEFAULT_COMPAT_ID,
            };
            Some(concat2("8.", decimal_string(sub as u64).as_str()))
        },
        _ => None,
    }
}

/// An extracted Dolby Vision RPU is converted to profile 8.1 exactly for
/// profile 7 sources.
pub open spec fn needs_profile81(dv_profile: Option<u8>) -> bool {
    dv_profile == Some(7u8)
}

/// Whether an extracted Dolby Vision RPU must be converted to profile 8.1.
pub fn rpu_needs_profile81_conversion(dv_profile: Option<u8>) -> (r: bool)
    ensures
        r == needs_profile81(dv_profile),
{
    match dv_profile {
        Some(p) => p == 7,
        None => false,
    }
}

/// Lower-case error output of `hdr10plus_tool extract` that calls for a retry
/// with validation skipped: it mentions both "error:" and "invalid".
pub open spec fn hdr10plus_retry_lower(lower: Seq<char>) -> bool {
    contains_seq(lower, "error:"@) && contains_seq(lower, "invalid"@)
}

/// Whether already lower-cased error output of `hdr10plus_tool extract` calls
/// for a retry (see `hdr10plus_retry_lower`).
pub fn hdr10plus_retry_on_lowercase(lower: &str) -> (r: bool)
    ensures
        r == hdr10plus_retry_lower(lower@),
{
    str_contains(lower, "error:") && str_contains(lower, "invalid")
}

/// Whether a failed `hdr10plus_tool extract` should be retried with validation
/// skipped: its lower-cased error output mentions both "error:" and "invalid".
pub fn hdr10plus_should_retry(stderr: &str) -> (r: bool)
    ensures
        r == hdr10plus_retry_lower(unicode_lowercase(stderr@)),
{
    let lower = to_lowercase(stderr);
    hdr10plus_retry_on_lowercase(lower.as_str())
}

/// BT.709 inference never touches a description that carries an HDR signal.
pub proof fn law_infer_keeps_hdr_content(m: ColorModel, width: u32, height: u32, ext: Seq<char>)
    requires
        looks_hdr(m),
    ensures
        spec_infer_bt709(m, width, height, ext) == m,
{
}

/// BT.709 inference only fills colour tags that are missing: a tag that was set
/// keeps its value, and every other field is unchanged.
pub proof fn law_infer_only_fills_missing(m: ColorModel, width: u32, height: u32, ext: Seq<char>)
    ensures
        ({
            let r = spec_infer_bt709(m, width, height, ext);
            &&& m.color_space is Some ==> r.color_space == m.color_space
            &&& m.color_transfer is Some ==> r.color_transfer == m.color_transfer
            &&& m.color_primaries is Some ==> r.color_primaries == m.color_primaries
            &&& r.color_range == m.color_range
            &&& r.pix_fmt == m.pix_fmt
            &&& r.bit_depth == m.bit_depth
            &&& r.mastering_display == m.mastering_display
            &&& r.max_cll == m.max_cll
            &&& r.is_dolby_vision == m.is_dolby_vision
            &&& r.is_hdr10_plus == m.is_hdr10_plus
            &&& r.is_float == m.is_float
        }),
{
}

/// Inferring twice gives the same description as inferring once.
pub proof fn law_infer_idempotent(m: ColorModel, width: u32, height: u32, ext: Seq<char>)
    ensures
        spec_infer_bt709(spec_infer_bt709(m, width, height, ext), width, height, ext)
            == spec_infer_bt709(m, width, height, ext),
{
    reveal_strlit("iec61966-2-1");
    reveal_strlit("smpte2084");
    reveal_strlit("arib-std-b67");
    reveal_strlit("bt709");
    reveal_strlit("bt2020");
    reveal_strlit("bt2020nc");
    reveal_strlit("bt2020c");
    reveal_strlit("bt2020_ncl");
    reveal_strlit("bt2020ncl");
    assert("iec61966-2-1"@.len() != "smpte2084"@.len());
    assert("iec61966-2-1"@[0] != "arib-std-b67"@[0]);
    assert("bt709"@.len() != "bt2020"@.len());
    assert("bt709"@.len() != "bt2020nc"@.len());
    assert("bt709"@.len() != "bt2020c"@.len());
    assert("bt709"@.len() != "bt2020_ncl"@.len());
    assert("bt709"@.len() != "bt2020ncl"@.len());
    let f = fill_bt709(m);
    if !looks_hdr(m) && (is_hd(width, height) || is_modern_ext(unicode_lowercase(ext))) {
        assert(!looks_hdr(f));
        assert(fill_bt709(f) == f);
    }
}

/// Every colour argument comes as a flag and its value: the list has an even length.
pub proof fn law_ffmpeg_args_come_in_pairs(m: ColorModel)
    ensures
        spec_ffmpeg_args(m).len() % 2 == 0,
{
}

/// PQ or HLG content always gets a CICP string.
pub proof fn law_cicp_defined_for_hdr_transfer(m: ColorModel)
    requires
        opt_is(m.color_transfer, "smpte2084"@) || opt_is(m.color_transfer, "arib-std-b67"@),
    ensures
        spec_cicp(m) is Some,
{
}

/// SDR content gets no x265 HDR parameters.
pub proof fn law_x265_params_only_for_hdr(m: ColorModel)
    requires
        !spec_is_hdr(m),
    ensures
        spec_x265_hdr_params(m) is None,
{
}

proof fn lemma_join_contains(parts: Seq<Seq<char>>, sep: Seq<char>, k: int)
    requires
        0 <= k < parts.len(),
    ensures
        contains_seq(join_with(parts, sep), parts[k]),
    decreases parts.len(),
{
    let j = join_with(parts, sep);
    if parts.len() == 1 {
        assert(j.subrange(0, parts[0].len() as int) =~= parts[0]);
        assert(occurs_at(j, parts[k], 0));
    } else {
        let a = join_with(parts.drop_last(), sep);
        assert(j == a + sep + parts.last());
        if k == parts.len() - 1 {
            let i = (a.len() + sep.len()) as int;
            assert(j.subrange(i, i + parts[k].len()) =~= parts[k]);
            assert(occurs_at(j, parts[k], i));
        } else {
            assert(parts.drop_last()[k] == parts[k]);
            lemma_join_contains(parts.drop_last(), sep, k);
            let i = choose|i: int| occurs_at(a, parts[k], i);
            assert(occurs_at(a, parts[k], i));
            assert(j.subrange(i, i + parts[k].len()) =~= a.subrange(i, i + parts[k].len()));
            assert(occurs_at(j, parts[k], i));
        }
    }
}

/// HDR content tagged PQ or HLG tells x265 the same transfer code as its CICP
/// description: the parameters hold `transfer=` and the CICP transfer code,
/// which is 18 for HLG (`arib-std-b67`) and 16 for PQ (`smpte2084`).
pub proof fn law_x265_transfer_is_cicp_code(m: ColorModel)
    requires
        hdr_transfer(m),
    ensures
        spec_x265_hdr_params(m) matches Some(s) && contains_seq(
            s,
            "transfer="@ + decimal(cicp_transfer(m, 9).unwrap()),
        ),
        opt_is(m.color_transfer, "arib-std-b67"@) ==> (spec_x265_hdr_params(m) matches Some(s)
            && contains_seq(s, "transfer=18"@)),
        opt_is(m.color_transfer, "smpte2084"@) ==> (spec_x265_hdr_params(m) matches Some(s)
            && contains_seq(s, "transfer=16"@)),
{
    reveal_strlit("arib-std-b67");
    reveal_strlit("smpte2084");
    reveal_strlit("bt709");
    reveal_strlit("18");
    reveal_strlit("16");
    reveal_strlit("transfer=");
    reveal_strlit("transfer=18");
    reveal_strlit("transfer=16");
    reveal_with_fuel(decimal, 3);
    let t = m.color_transfer.unwrap();
    let s0 = keyed(m.color_primaries, "colorprim="@, |v: Seq<char>| x265_prim_code(v));
    let s1 = keyed(m.color_transfer, "transfer="@, |v: Seq<char>| x265_trc_code(v));
    let s2 = keyed(m.color_space, "colormatrix="@, |v: Seq<char>| x265_matrix_code(v));
    let s3 = keyed(m.mastering_display, "master-display="@, |v: Seq<char>| v);
    let s4 = keyed(m.max_cll, "max-cll="@, |v: Seq<char>| v);
    let ps = x265_params(m);
    assert(ps == s0 + s1 + s2 + s3 + s4);
    assert(s1 == seq!["transfer="@ + x265_trc_code(t)]);
    let k = s0.len() as int;
    assert(ps[k] == "transfer="@ + x265_trc_code(t));
    let code = cicp_transfer(m, 9).unwrap();
    if t == "arib-std-b67"@ {
        assert(t.len() != "smpte2084"@.len());
        assert(code == 18);
        assert(decimal(18) =~= "18"@);
        assert(x265_trc_code(t) == "18"@);
        assert("transfer="@ + "18"@ =~= "transfer=18"@);
    } else {
        assert(t == "smpte2084"@);
        assert(code == 16);
        assert(decimal(16) =~= "16"@);
        assert(t.len() != "arib-std-b67"@.len());
        assert(t.len() != "bt709"@.len());
        assert(x265_trc_code(t) == "16"@);
        assert("transfer="@ + "16"@ =~= "transfer=16"@);
    }
    lemma_join_contains(ps, ":"@, k);
}

/// HDR content tagged with BT.709, BT.2020 or Display-P3 primaries tells x265
/// the same primaries code as its CICP description (1, 9 or 12).
pub proof fn law_x265_primaries_are_cicp_code(m: ColorModel)
    requires
        spec_is_hdr(m),
        opt_is(m.color_primaries, "bt709"@) || opt_is(m.color_primaries, "bt2020"@) || opt_is(
            m.color_primaries,
            "smpte432"@,
        ) || opt_is(m.color_primaries, "display-p3"@),
    ensures
        spec_x265_hdr_params(m) matches Some(s) && contains_seq(
            s,
            "colorprim="@ + decimal(cicp_primaries(m).unwrap()),
        ),
{
    reveal_strlit("bt709");
    reveal_strlit("bt2020");
    reveal_strlit("smpte432");
    reveal_strlit("display-p3");
    reveal_strlit("1");
    reveal_strlit("9");
    reveal_strlit("12");
    reveal_with_fuel(decimal, 3);
    let p = m.color_primaries.unwrap();
    let s0 = keyed(m.color_primaries, "colorprim="@, |v: Seq<char>| x265_prim_code(v));
    let s1 = keyed(m.color_transfer, "transfer="@, |v: Seq<char>| x265_trc_code(v));
    let s2 = keyed(m.color_space, "colormatrix="@, |v: Seq<char>| x265_matrix_code(v));
    let s3 = keyed(m.mastering_display, "master-display="@, |v: Seq<char>| v);
    let s4 = keyed(m.max_cll, "max-cll="@, |v: Seq<char>| v);
    let ps = x265_params(m);
    assert(ps == s0 + s1 + s2 + s3 + s4);
    assert(ps[0] == "colorprim="@ + x265_prim_code(p));
    if p == "bt709"@ {
        assert(decimal(1) =~= "1"@);
    } else if p == "bt2020"@ {
        assert(p.len() != "bt709"@.len());
        assert(p.len() != "smpte432"@.len());
        assert(p.len() != "display-p3"@.len());
        assert(decimal(9) =~= "9"@);
    } else if p == "smpte432"@ {
        assert(p.len() != "bt709"@.len());
        assert(p.len() != "bt2020"@.len());
        assert(decimal(12) =~= "12"@);
    } else {
        assert(p.len() != "bt709"@.len());
        assert(p.len() != "bt2020"@.len());
        assert(p.len() != "smpte432"@.len());
        assert(decimal(12) =~= "12"@);
    }
    lemma_join_contains(ps, ":"@, 0);
}

/// Whenever an extracted RPU is converted to profile 8.1, x265 is told the
/// profile "8.1": extraction and encoding agree.
pub proof fn law_converted_rpu_is_signalled_as_81(dv_profile: Option<u8>, compat_id: Option<u8>)
    requires
        needs_profile81(dv_profile),
    ensures
        spec_dv_profile_string(dv_profile, compat_id) == Some("8.1"@),
{
}

/// Without primaries and transfer tags there is no CICP string.
pub proof fn law_cicp_none_without_metadata(m: ColorModel)
    requires
        m.color_primaries is None,
        m.color_transfer is None,
    ensures
        spec_cicp(m) is None,
{
}

} // verus!
