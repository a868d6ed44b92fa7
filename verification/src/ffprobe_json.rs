//! Colour and HDR facts of a video stream as reported by ffprobe, and the rules
//! that derive them from the probe's fields.
use vstd::prelude::*;
use vstd::string::*;
use crate::bytes::contains_seq;
use crate::text::{
    concat2, decimal, decimal_string, parse_unsigned, spec_parse_unsigned, str_contains, str_eq,
    to_lowercase, unicode_lowercase,
};

verus! {

/// Colour and HDR description of a stream.
#[derive(Debug, Clone)]
pub struct ColorInfo {
    pub color_space: Option<String>,
    pub color_transfer: Option<String>,
    pub color_primaries: Option<String>,
    pub color_range: Option<String>,
    pub pix_fmt: Option<String>,
    pub bit_depth: Option<u8>,
    /// HDR10 mastering display string (ffmpeg format).
    pub mastering_display: Option<String>,
    /// HDR10 content light level: "MaxCLL,MaxFALL".
    pub max_cll: Option<String>,
    pub is_dolby_vision: bool,
    pub is_hdr10_plus: bool,
    pub is_float: bool,
}

/// The mathematical content of a `ColorInfo`: its strings taken as characters.
pub ghost struct ColorModel {
    pub color_space: Option<Seq<char>>,
    pub color_transfer: Option<Seq<char>>,
    pub color_primaries: Option<Seq<char>>,
    pub color_range: Option<Seq<char>>,
    pub pix_fmt: Option<Seq<char>>,
    pub bit_depth: Option<u8>,
    pub mastering_display: Option<Seq<char>>,
    pub max_cll: Option<Seq<char>>,
    pub is_dolby_vision: bool,
    pub is_hdr10_plus: bool,
    pub is_float: bool,
}

impl View for ColorInfo {
    type V = ColorModel;

    open spec fn view(&self) -> ColorModel {
        ColorModel {
            color_space: self.color_space.deep_view(),
            color_transfer: self.color_transfer.deep_view(),
            color_primaries: self.color_primaries.deep_view(),
            color_range: self.color_range.deep_view(),
            pix_fmt: self.pix_fmt.deep_view(),
            bit_depth: self.bit_depth,
            mastering_display: self.mastering_display.deep_view(),
            max_cll: self.max_cll.deep_view(),
            is_dolby_vision: self.is_dolby_vision,
            is_hdr10_plus: self.is_hdr10_plus,
            is_float: self.is_float,
        }
    }
}

/// `o` holds exactly the text `lit`.
pub open spec fn opt_is(o: Option<Seq<char>>, lit: Seq<char>) -> bool {
    o == Some(lit)
}

/// Whether the optional string `o` holds exactly `lit`.
pub fn opt_eq(o: &Option<String>, lit: &str) -> (r: bool)
    ensures
        r == opt_is(o.deep_view(), lit@),
{
    match o {
        Some(s) => str_eq(s.as_str(), lit),
        None => false,
    }
}

/// A colour description with nothing known.
pub open spec fn empty_color_model() -> ColorModel {
    ColorModel {
        color_space: None,
        color_transfer: None,
        color_primaries: None,
        color_range: None,
        pix_fmt: None,
        bit_depth: None,
        mastering_display: None,
        max_cll: None,
        is_dolby_vision: false,
        is_hdr10_plus: false,
        is_float: false,
    }
}

impl Default for ColorInfo {
    fn default() -> (r: Self)
        ensures
            r@ == empty_color_model(),
    {
        ColorInfo {
            color_space: None,
            color_transfer: None,
            color_primaries: None,
            color_range: None,
            pix_fmt: None,
            bit_depth: None,
            mastering_display: None,
            max_cll: None,
            is_dolby_vision: false,
            is_hdr10_plus: false,
            is_float: false,
        }
    }
}

/// PQ or HLG transfer.
pub open spec fn hdr_transfer(m: ColorModel) -> bool {
    opt_is(m.color_transfer, "smpte2084"@) || opt_is(m.color_transfer, "arib-std-b67"@)
}

/// Any form of HDR: PQ, HLG, Dolby Vision, HDR10 (mastering display or
/// content light level) or HDR10+.
pub open spec fn spec_is_hdr(m: ColorModel) -> bool {
    m.is_dolby_vision || m.is_hdr10_plus || m.mastering_display is Some || m.max_cll is Some
        || hdr_transfer(m)
}

/// A bit depth above 8 is known.
pub open spec fn deep_bit_depth(m: ColorModel) -> bool {
    m.bit_depth matches Some(d) && d > 8
}

impl ColorInfo {
    /// Whether the content is any form of HDR (PQ, HLG, DV, HDR10, HDR10+).
    pub fn is_hdr(&self) -> (r: bool)
        ensures
            r == spec_is_hdr(self@),
    {
        self.is_dolby_vision || self.is_hdr10_plus || self.mastering_display.is_some()
            || self.max_cll.is_some() || opt_eq(&self.color_transfer, "smpte2084") || opt_eq(
            &self.color_transfer,
            "arib-std-b67",
        )
    }
}

/// Timestamp health of a stream's packets.
#[derive(Debug, Clone, Copy, PartialEq, Eq, Structural)]
pub enum PtsIntegrity {
    Healthy,
    Duplicate,
    Broken,
}

/// HDR10 mastering display values, chromaticities in units of 1/50000 and
/// luminances in units of 1/10000 cd/m².
#[derive(Debug, Clone, Copy, PartialEq, Eq, Structural)]
pub struct MasteringDisplay {
    pub green_x: u64,
    pub green_y: u64,
    pub blue_x: u64,
    pub blue_y: u64,
    pub red_x: u64,
    pub red_y: u64,
    pub white_x: u64,
    pub white_y: u64,
    pub max_luminance: u64,
    pub min_luminance: u64,
}

/// One entry of a stream's or frame's side data, with its values converted to
/// integers.
#[derive(Debug, Clone)]
pub struct SideDataEntry {
    pub side_data_type: Option<String>,
    /// Mastering display values, when all ten are present and readable.
    pub mastering: Option<MasteringDisplay>,
    /// MaxCLL.
    pub max_content: Option<u64>,
    /// MaxFALL.
    pub max_average: Option<u64>,
    /// Dolby Vision profile.
    pub dv_profile: Option<u64>,
    /// Dolby Vision base-layer signal compatibility ID.
    pub dv_bl_signal_compatibility_id: Option<u64>,
}

/// The lower-cased type of a side-data entry (empty when absent).
pub open spec fn entry_kind(e: SideDataEntry) -> Seq<char> {
    unicode_lowercase(
        match e.side_data_type.deep_view() {
            Some(t) => t,
            None => Seq::empty(),
        },
    )
}

/// The entry announces Dolby Vision.
pub open spec fn kind_dolby_vision(k: Seq<char>) -> bool {
    contains_seq(k, "dolby vision"@) || contains_seq(k, "dovi"@)
}

/// The entry announces HDR10+ dynamic metadata.
pub open spec fn kind_hdr10_plus(k: Seq<char>) -> bool {
    contains_seq(k, "hdr dynamic"@) || contains_seq(k, "st2094"@) || contains_seq(k, "hdr10+"@)
}

/// The entry holds mastering display metadata.
pub open spec fn kind_mastering(k: Seq<char>) -> bool {
    contains_seq(k, "mastering display"@)
}

/// The entry holds content light level metadata.
pub open spec fn kind_light_level(k: Seq<char>) -> bool {
    contains_seq(k, "content light level"@)
}

/// The ffmpeg `master-display` text: `G(x,y)B(x,y)R(x,y)WP(x,y)L(max,min)`.
pub open spec fn mastering_text(m: MasteringDisplay) -> Seq<char> {
    "G("@ + decimal(m.green_x as nat) + ","@ + decimal(m.green_y as nat) + ")B("@ + decimal(
        m.blue_x as nat,
    ) + ","@ + decimal(m.blue_y as nat) + ")R("@ + decimal(m.red_x as nat) + ","@ + decimal(
        m.red_y as nat,
    ) + ")WP("@ + decimal(m.white_x as nat) + ","@ + decimal(m.white_y as nat) + ")L("@
        + decimal(m.max_luminance as nat) + ","@ + decimal(m.min_luminance as nat) + ")"@
}

/// The content light level text: `MaxCLL,MaxFALL`.
pub open spec fn light_level_text(max_content: u64, max_average: u64) -> Seq<char> {
    decimal(max_content as nat) + ","@ + decimal(max_average as nat)
}

fn append_decimal(s: String, n: u64) -> (r: String)
    ensures
        r@ == s@ + decimal(n as nat),
{
    concat2(s.as_str(), decimal_string(n).as_str())
}

fn append_str(s: String, t: &str) -> (r: String)
    ensures
        r@ == s@ + t@,
{
    concat2(s.as_str(), t)
}

/// The `master-display` text of mastering display values (see `mastering_text`).
pub fn mastering_display_string(m: &MasteringDisplay) -> (r: String)
    ensures
        r@ == mastering_text(*m),
{
    let s = append_decimal(String::from_str("G("), m.green_x);
    let s = append_decimal(append_str(s, ","), m.green_y);
    let s = append_decimal(append_str(s, ")B("), m.blue_x);
    let s = append_decimal(append_str(s, ","), m.blue_y);
    let s = append_decimal(append_str(s, ")R("), m.red_x);
    let s = append_decimal(append_str(s, ","), m.red_y);
    let s = append_decimal(append_str(s, ")WP("), m.white_x);
    let s = append_decimal(append_str(s, ","), m.white_y);
    let s = append_decimal(append_str(s, ")L("), m.max_luminance);
    let s = append_decimal(append_str(s, ","), m.min_luminance);
    append_str(s, ")")
}

/// The content light level text `MaxCLL,MaxFALL`.
pub fn light_level_string(max_content: u64, max_average: u64) -> (r: String)
    ensures
        r@ == light_level_text(max_content, max_average),
{
    append_decimal(append_str(decimal_string(max_content), ","), max_average)
}

/// The lower-cased type of a side-data entry.
pub fn side_data_kind(e: &SideDataEntry) -> (r: String)
    ensures
        r@ == entry_kind(*e),
{
    match &e.side_data_type {
        Some(t) => to_lowercase(t.as_str()),
        None => {
            proof {
                reveal_strlit("");
                assert(""@ =~= Seq::<char>::empty());
            }
            to_lowercase("")
        },
    }
}

/// HDR facts gathered from side data.
#[derive(Debug, Clone)]
pub struct HdrSideData {
    pub is_dolby_vision: bool,
    pub is_hdr10_plus: bool,
    pub mastering_display: Option<String>,
    pub max_cll: Option<String>,
}

/// The mathematical content of `HdrSideData`.
pub ghost struct HdrSideModel {
    pub is_dolby_vision: bool,
    pub is_hdr10_plus: bool,
    pub mastering_display: Option<Seq<char>>,
    pub max_cll: Option<Seq<char>>,
}

impl View for HdrSideData {
    type V = HdrSideModel;

    open spec fn view(&self) -> HdrSideModel {
        HdrSideModel {
            is_dolby_vision: self.is_dolby_vision,
            is_hdr10_plus: self.is_hdr10_plus,
            mastering_display: self.mastering_display.deep_view(),
            max_cll: self.max_cll.deep_view(),
        }
    }
}

impl HdrSideData {
    /// Nothing found yet.
    pub fn new() -> (r: Self)
        ensures
            r@ == (HdrSideModel {
                is_dolby_vision: false,
                is_hdr10_plus: false,
                mastering_display: None,
                max_cll: None,
            }),
    {
        HdrSideData {
            is_dolby_vision: false,
            is_hdr10_plus: false,
            mastering_display: None,
            max_cll: None,
        }
    }
}

/// One side-data entry added to the facts: the flags accumulate; the first
/// complete mastering display and the first complete light level are kept.
pub open spec fn absorb_entry(st: HdrSideModel, e: SideDataEntry) -> HdrSideModel {
    let k = entry_kind(e);
    HdrSideModel {
        is_dolby_vision: st.is_dolby_vision || kind_dolby_vision(k),
        is_hdr10_plus: st.is_hdr10_plus || kind_hdr10_plus(k),
        mastering_display: if kind_mastering(k) && st.mastering_display is None
            && e.mastering is Some {
            Some(mastering_text(e.mastering->Some_0))
        } else {
            st.mastering_display
        },
        max_cll: if kind_light_level(k) && st.max_cll is None && e.max_content is Some
            && e.max_average is Some {
            Some(light_level_text(e.max_content->Some_0, e.max_average->Some_0))
        } else {
            st.max_cll
        },
    }
}

/// The facts after adding all entries in order.
pub open spec fn absorb_entries(st: HdrSideModel, es: Seq<SideDataEntry>) -> HdrSideModel
    decreases es.len(),
{
    if es.len() == 0 {
        st
    } else {
        absorb_entry(absorb_entries(st, es.drop_last()), es.last())
    }
}

fn absorb_one(state: &mut HdrSideData, e: &SideDataEntry)
    ensures
        final(state)@ == absorb_entry(old(state)@, *e),
{
    let kind = side_data_kind(e);
    let k = kind.as_str();
    if str_contains(k, "dolby vision") || str_contains(k, "dovi") {
        state.is_dolby_vision = true;
    }
    if str_contains(k, "hdr dynamic") || str_contains(k, "st2094") || str_contains(k, "hdr10+") {
        state.is_hdr10_plus = true;
    }
    if str_contains(k, "mastering display") && state.mastering_display.is_none() {
        if let Some(m) = &e.mastering {
            state.mastering_display = Some(mastering_display_string(m));
        }
    }
    if str_contains(k, "content light level") && state.max_cll.is_none() {
        if let (Some(mc), Some(ma)) = (e.max_content, e.max_average) {
            state.max_cll = Some(light_level_string(mc, ma));
        }
    }
}

/// Add side-data entries to the gathered HDR facts (see `absorb_entry`).
pub fn parse_side_data_list(state: &mut HdrSideData, entries: &Vec<SideDataEntry>)
    ensures
        final(state)@ == absorb_entries(old(state)@, entries@),
{
    let ghost start = state@;
    let mut i: usize = 0;
    while i < entries.len()
        invariant
            i <= entries@.len(),
            state@ == absorb_entries(start, entries@.take(i as int)),
        decreases entries@.len() - i,
    {
        assert(entries@.take(i + 1).drop_last() =~= entries@.take(i as int));
        absorb_one(state, &entries[i]);
        i = i + 1;
    }
    assert(entries@.take(i as int) =~= entries@);
}

/// A colour tag as reported: kept unless empty or "unknown".
pub open spec fn known_tag(o: Option<Seq<char>>) -> Option<Seq<char>> {
    match o {
        Some(t) => if t.len() == 0 || t == "unknown"@ {
            None
        } else {
            Some(t)
        },
        None => None,
    }
}

/// Drop an empty or "unknown" colour tag.
pub fn filter_known_tag(o: &Option<String>) -> (r: Option<String>)
    ensures
        r.deep_view() == known_tag(o.deep_view()),
{
    match o {
        Some(t) => {
            if t.as_str().unicode_len() == 0 || str_eq(t.as_str(), "unknown") {
                None
            } else {
                Some(t.clone())
            }
        },
        None => None,
    }
}

/// A floating-point pixel format (compared in lower case): it names an `f`
/// and a width of 16, 32 or 64, and carries `pf32`, `f32`, `pf16` or `f16`.
pub open spec fn float_pix_fmt(p: Seq<char>) -> bool {
    let l = unicode_lowercase(p);
    contains_seq(l, "f"@) && (contains_seq(l, "32"@) || contains_seq(l, "16"@) || contains_seq(
        l,
        "64"@,
    )) && (contains_seq(l, "pf32"@) || contains_seq(l, "f32"@) || contains_seq(l, "pf16"@)
        || contains_seq(l, "f16"@))
}

/// Whether a pixel format stores floating-point samples (see `float_pix_fmt`).
pub fn is_float_pix_fmt(pix_fmt: &str) -> (r: bool)
    ensures
        r == float_pix_fmt(pix_fmt@),
{
    let lower = to_lowercase(pix_fmt);
    let l = lower.as_str();
    str_contains(l, "f") && (str_contains(l, "32") || str_contains(l, "16") || str_contains(
        l,
        "64",
    )) && (str_contains(l, "pf32") || str_contains(l, "f32") || str_contains(l, "pf16")
        || str_contains(l, "f16"))
}

/// The colour fields of the first video stream of a probe.
#[derive(Debug, Clone)]
pub struct ProbeStream {
    pub color_space: Option<String>,
    pub color_transfer: Option<String>,
    pub color_primaries: Option<String>,
    pub color_range: Option<String>,
    pub pix_fmt: Option<String>,
    pub bits_per_raw_sample: Option<String>,
    pub side_data_list: Vec<SideDataEntry>,
}

/// The bit depth of `bits_per_raw_sample`, when it is a number that fits a byte.
pub open spec fn raw_bit_depth(o: Option<Seq<char>>) -> Option<u8> {
    match o {
        Some(t) => match spec_parse_unsigned(t, 255) {
            Some(v) => Some(v as u8),
            None => None,
        },
        None => None,
    }
}

/// The side data of the stream and of each probed frame, in that order.
pub open spec fn all_side_data(st: HdrSideModel, stream: Seq<SideDataEntry>, frames: Seq<Vec<SideDataEntry>>) -> HdrSideModel
    decreases frames.len(),
{
    if frames.len() == 0 {
        absorb_entries(st, stream)
    } else {
        absorb_entries(all_side_data(st, stream, frames.drop_last()), frames.last()@)
    }
}

/// The colour description of a probed stream: known colour tags, the pixel
/// format, the raw bit depth, HDR facts from the stream's and the frames' side
/// data, and whether the samples are floating point.
pub open spec fn spec_color_info(s: ProbeStream, frames: Seq<Vec<SideDataEntry>>) -> ColorModel {
    let hdr = all_side_data(
        HdrSideModel {
            is_dolby_vision: false,
            is_hdr10_plus: false,
            mastering_display: None,
            max_cll: None,
        },
        s.side_data_list@,
        frames,
    );
    ColorModel {
        color_space: known_tag(s.color_space.deep_view()),
        color_transfer: known_tag(s.color_transfer.deep_view()),
        color_primaries: known_tag(s.color_primaries.deep_view()),
        color_range: known_tag(s.color_range.deep_view()),
        pix_fmt: s.pix_fmt.deep_view(),
        bit_depth: raw_bit_depth(s.bits_per_raw_sample.deep_view()),
        mastering_display: hdr.mastering_display,
        max_cll: hdr.max_cll,
        is_dolby_vision: hdr.is_dolby_vision,
        is_hdr10_plus: hdr.is_hdr10_plus,
        is_float: match s.pix_fmt.deep_view() {
            Some(p) => float_pix_fmt(p),
            None => false,
        },
    }
}

/// Whether a failed ffprobe run should be retried with `-pattern_type none`:
/// its error output shows that the image2 demuxer read the file name as a
/// sequence pattern (as with names holding `[` and `]`).
pub fn needs_pattern_type_retry(stderr: &str) -> (r: bool)
    ensures
        r == (contains_seq(stderr@, "Could find no file with path"@) && contains_seq(
            stderr@,
            "and index in the range"@,
        )),
{
    str_contains(stderr, "Could find no file with path") && str_contains(
        stderr,
        "and index in the range",
    )
}

/// Build the colour description of a probed stream and the side data of its
/// first frames (see `spec_color_info`).
pub fn color_info_from_probe(stream: &ProbeStream, frames: &Vec<Vec<SideDataEntry>>) -> (r: ColorInfo)
    ensures
        r@ == spec_color_info(*stream, frames@),
{
    let bit_depth = match &stream.bits_per_raw_sample {
        Some(t) => match parse_unsigned(t.as_str(), 255) {
            Some(v) => Some(v as u8),
            None => None,
        },
        None => None,
    };
    let mut hdr = HdrSideData::new();
    parse_side_data_list(&mut hdr, &stream.side_data_list);
    let ghost start = hdr@;
    let mut i: usize = 0;
    while i < frames.len()
        invariant
            i <= frames@.len(),
            hdr@ == all_side_data(
                HdrSideModel {
                    is_dolby_vision: false,
                    is_hdr10_plus: false,
                    mastering_display: None,
                    max_cll: None,
                },
                stream.side_data_list@,
                frames@.take(i as int),
            ),
        decreases frames@.len() - i,
    {
        assert(frames@.take(i + 1).drop_last() =~= frames@.take(i as int));
        parse_side_data_list(&mut hdr, &frames[i]);
        i = i + 1;
    }
    assert(frames@.take(i as int) =~= frames@);
    let is_float = match &stream.pix_fmt {
        Some(p) => is_float_pix_fmt(p.as_str()),
        None => false,
    };
    ColorInfo {
        color_space: filter_known_tag(&stream.color_space),
        color_transfer: filter_known_tag(&stream.color_transfer),
        color_primaries: filter_known_tag(&stream.color_primaries),
        color_range: filter_known_tag(&stream.color_range),
        pix_fmt: stream.pix_fmt.clone(),
        bit_depth,
        mastering_display: hdr.mastering_display,
        max_cll: hdr.max_cll,
        is_dolby_vision: hdr.is_dolby_vision,
        is_hdr10_plus: hdr.is_hdr10_plus,
        is_float,
    }
}

} // verus!
