//! ffprobe results: stream descriptions, HDR side data, pixel-format bit depth.
use vstd::prelude::*;
use vstd::string::*;
use crate::bytes::contains_seq;
use crate::ffprobe_json::{
    entry_kind, kind_dolby_vision, kind_hdr10_plus, kind_light_level, kind_mastering,
    light_level_string, light_level_text, mastering_display_string, mastering_text,
    side_data_kind, SideDataEntry,
};
use crate::text::{
    chars_of, clone_opt, concat2, decimal, decimal_string, parse_unsigned, spec_parse_unsigned, str_contains,
    str_eq, to_lowercase, trim, trim_string, unicode_lowercase,
};

verus! {

/// `std::io::Error`, carried opaquely inside `FFprobeError::IoError`.
#[verifier::external_type_specification]
#[verifier::external_body]
pub struct ExIoError(std::io::Error);

/// Failures of an ffprobe run.
#[derive(Debug)]
pub enum FFprobeError {
    ToolNotFound(String),
    ExecutionFailed(String),
    ParseError(String),
    IoError(std::io::Error),
}

impl From<std::io::Error> for FFprobeError {
    fn from(e: std::io::Error) -> (r: Self) {
        FFprobeError::IoError(e)
    }
}

impl vstd::std_specs::convert::FromSpecImpl<std::io::Error> for FFprobeError {
    open spec fn obeys_from_spec() -> bool {
        true
    }

    open spec fn from_spec(v: std::io::Error) -> Self {
        FFprobeError::IoError(v)
    }
}

/// Audio stream facts.
#[derive(Debug, Clone)]
pub struct FFprobeAudioInfo {
    pub present: bool,
    pub codec: Option<String>,
    pub bit_rate: Option<u64>,
    pub sample_rate: Option<u32>,
    pub channels: Option<u32>,
}

impl Default for FFprobeAudioInfo {
    fn default() -> (r: Self)
        ensures
            !r.present && r.codec is None && r.bit_rate is None && r.sample_rate is None
                && r.channels is None,
    {
        FFprobeAudioInfo {
            present: false,
            codec: None,
            bit_rate: None,
            sample_rate: None,
            channels: None,
        }
    }
}

/// Subtitle stream facts.
#[derive(Debug, Clone)]
pub struct FFprobeSubtitleInfo {
    pub present: bool,
    pub codec: Option<String>,
}

impl Default for FFprobeSubtitleInfo {
    fn default() -> (r: Self)
        ensures
            !r.present && r.codec is None,
    {
        FFprobeSubtitleInfo { present: false, codec: None }
    }
}

/// Dolby Vision configuration record fields.
#[derive(Debug, Clone, Copy, PartialEq, Eq, Structural)]
pub struct DolbyVisionMetadata {
    pub profile: Option<u8>,
    pub bl_signal_compatibility_id: Option<u8>,
}

impl Default for DolbyVisionMetadata {
    fn default() -> (r: Self)
        ensures
            r.profile is None && r.bl_signal_compatibility_id is None,
    {
        DolbyVisionMetadata { profile: None, bl_signal_compatibility_id: None }
    }
}

/// HDR metadata found in a stream's side data.
#[derive(Debug, Clone)]
pub struct FFprobeHdrInfo {
    /// HDR10 mastering display metadata, "G(x,y)B(x,y)R(x,y)WP(x,y)L(max,min)".
    pub mastering_display: Option<String>,
    /// HDR10 content light level metadata, "MaxCLL,MaxFALL".
    pub max_cll: Option<String>,
    /// Dolby Vision metadata when detected in side data.
    pub dolby_vision: Option<DolbyVisionMetadata>,
    /// HDR10+ dynamic metadata (SMPTE ST 2094-40) is present.
    pub hdr10_plus: bool,
}

impl Default for FFprobeHdrInfo {
    fn default() -> (r: Self)
        ensures
            r.mastering_display is None && r.max_cll is None && r.dolby_vision is None
                && !r.hdr10_plus,
    {
        FFprobeHdrInfo {
            mastering_display: None,
            max_cll: None,
            dolby_vision: None,
            hdr10_plus: false,
        }
    }
}

impl FFprobeHdrInfo {
    /// HDR10 (mastering display or content light level), HDR10+ or Dolby Vision.
    pub open spec fn spec_is_hdr(&self) -> bool {
        self.mastering_display is Some || self.max_cll is Some || self.hdr10_plus
            || self.dolby_vision is Some
    }

    /// Whether any HDR metadata is present.
    pub fn is_hdr(&self) -> (r: bool)
        ensures
            r == self.spec_is_hdr(),
    {
        self.mastering_display.is_some() || self.max_cll.is_some() || self.hdr10_plus
            || self.is_dolby_vision()
    }

    /// Whether Dolby Vision metadata is present.
    pub fn is_dolby_vision(&self) -> (r: bool)
        ensures
            r == self.dolby_vision is Some,
    {
        self.dolby_vision.is_some()
    }

    /// The Dolby Vision profile, when known.
    pub fn dv_profile(&self) -> (r: Option<u8>)
        ensures
            r == (match self.dolby_vision {
                Some(dv) => dv.profile,
                None => None,
            }),
    {
        match self.dolby_vision {
            Some(dv) => dv.profile,
            None => None,
        }
    }

    /// The Dolby Vision base-layer signal compatibility ID, when known.
    pub fn dv_bl_signal_compatibility_id(&self) -> (r: Option<u8>)
        ensures
            r == (match self.dolby_vision {
                Some(dv) => dv.bl_signal_compatibility_id,
                None => None,
            }),
    {
        match self.dolby_vision {
            Some(dv) => dv.bl_signal_compatibility_id,
            None => None,
        }
    }
}

/// Bit depth read off a lower-case pixel format name: 16 for names with "16",
/// "48" or "64"; 8 for NV12 / NV21; 12 for "12"; 10 for "10" (and the
/// P010-family names); 8 for "8", "yuv", "rgb", "bgr", "nv12" or "gray".
pub open spec fn spec_bit_depth_lower(l: Seq<char>) -> Option<u8> {
    if contains_seq(l, "16"@) || contains_seq(l, "48"@) || contains_seq(l, "64"@) {
        Some(16)
    } else if l == "nv12"@ || l == "nv21"@ {
        Some(8)
    } else if contains_seq(l, "12"@) {
        Some(12)
    } else if contains_seq(l, "10"@) || contains_seq(l, "p010"@) || contains_seq(l, "p210"@)
        || contains_seq(l, "p410"@) {
        Some(10)
    } else if contains_seq(l, "8"@) || contains_seq(l, "yuv"@) || contains_seq(l, "rgb"@)
        || contains_seq(l, "bgr"@) || contains_seq(l, "nv12"@) || contains_seq(l, "gray"@) {
        Some(8)
    } else {
        None
    }
}

/// Bit depth of a pixel format name, compared in lower case (see
/// `spec_bit_depth_lower`); `None` for an empty name.
pub open spec fn spec_bit_depth(pix_fmt: Seq<char>) -> Option<u8> {
    if pix_fmt.len() == 0 {
        None
    } else {
        spec_bit_depth_lower(unicode_lowercase(pix_fmt))
    }
}

/// Bit depth of a pixel format name that is already in lower case (see
/// `spec_bit_depth_lower`).
pub fn bit_depth_of_lowercase(l: &str) -> (r: Option<u8>)
    ensures
        r == spec_bit_depth_lower(l@),
{
    if str_contains(l, "16") || str_contains(l, "48") || str_contains(l, "64") {
        return Some(16);
    }
    if str_eq(l, "nv12") || str_eq(l, "nv21") {
        return Some(8);
    }
    if str_contains(l, "12") {
        return Some(12);
    }
    if str_contains(l, "10") || str_contains(l, "p010") || str_contains(l, "p210") || str_contains(
        l,
        "p410",
    ) {
        return Some(10);
    }
    if str_contains(l, "8") || str_contains(l, "yuv") || str_contains(l, "rgb") || str_contains(
        l,
        "bgr",
    ) || str_contains(l, "nv12") || str_contains(l, "gray") {
        return Some(8);
    }
    None
}

/// Bit depth of a pixel format (see `spec_bit_depth`); `None` for an empty or
/// unknown name.
pub fn detect_bit_depth(pix_fmt: &str) -> (r: Option<u8>)
    ensures
        r == spec_bit_depth(pix_fmt@),
{
    if chars_of(pix_fmt).len() == 0 {
        return None;
    }
    let lower = to_lowercase(pix_fmt);
    bit_depth_of_lowercase(lower.as_str())
}

/// The mathematical content of an `FFprobeHdrInfo`.
pub ghost struct ProbeHdrModel {
    pub mastering_display: Option<Seq<char>>,
    pub max_cll: Option<Seq<char>>,
    pub dolby_vision: Option<DolbyVisionMetadata>,
    pub hdr10_plus: bool,
}

/// The content of an `FFprobeHdrInfo`, its strings as characters.
pub open spec fn hdr_model(h: FFprobeHdrInfo) -> ProbeHdrModel {
    ProbeHdrModel {
        mastering_display: h.mastering_display.deep_view(),
        max_cll: h.max_cll.deep_view(),
        dolby_vision: h.dolby_vision,
        hdr10_plus: h.hdr10_plus,
    }
}

/// A side-data number that fits a byte.
pub open spec fn byte_of(o: Option<u64>, fallback: Option<u8>) -> Option<u8> {
    match o {
        Some(v) => if v <= 255 {
            Some(v as u8)
        } else {
            fallback
        },
        None => fallback,
    }
}

/// One side-data entry applied to the probe's HDR facts: a Dolby Vision record
/// sets the DV metadata (its profile and compatibility ID when they fit a byte);
/// HDR10+ accumulates; each complete mastering display or light level replaces
/// the previous one.
pub open spec fn probe_entry(st: ProbeHdrModel, e: SideDataEntry) -> ProbeHdrModel {
    let k = entry_kind(e);
    let base = match st.dolby_vision {
        Some(d) => d,
        None => DolbyVisionMetadata { profile: None, bl_signal_compatibility_id: None },
    };
    ProbeHdrModel {
        dolby_vision: if kind_dolby_vision(k) {
            Some(
                DolbyVisionMetadata {
                    profile: byte_of(e.dv_profile, base.profile),
                    bl_signal_compatibility_id: byte_of(
                        e.dv_bl_signal_compatibility_id,
                        base.bl_signal_compatibility_id,
                    ),
                },
            )
        } else {
            st.dolby_vision
        },
        hdr10_plus: st.hdr10_plus || kind_hdr10_plus(k),
        mastering_display: if kind_mastering(k) && e.mastering is Some {
            Some(mastering_text(e.mastering->Some_0))
        } else {
            st.mastering_display
        },
        max_cll: if kind_light_level(k) && e.max_content is Some && e.max_average is Some {
            Some(light_level_text(e.max_content->Some_0, e.max_average->Some_0))
        } else {
            st.max_cll
        },
    }
}

/// The HDR facts after all entries, in order, from nothing found.
pub open spec fn probe_entries(es: Seq<SideDataEntry>) -> ProbeHdrModel
    decreases es.len(),
{
    if es.len() == 0 {
        ProbeHdrModel {
            mastering_display: None,
            max_cll: None,
            dolby_vision: None,
            hdr10_plus: false,
        }
    } else {
        probe_entry(probe_entries(es.drop_last()), es.last())
    }
}

fn byte_or(o: Option<u64>, fallback: Option<u8>) -> (r: Option<u8>)
    ensures
        r == byte_of(o, fallback),
{
    match o {
        Some(v) => if v <= 255 {
            Some(v as u8)
        } else {
            fallback
        },
        None => fallback,
    }
}

fn apply_entry(info: &mut FFprobeHdrInfo, e: &SideDataEntry)
    ensures
        hdr_model(*final(info)) == probe_entry(hdr_model(*old(info)), *e),
{
    let kind = side_data_kind(e);
    let k = kind.as_str();
    if str_contains(k, "dolby vision") || str_contains(k, "dovi") {
        let base = match info.dolby_vision {
            Some(d) => d,
            None => DolbyVisionMetadata { profile: None, bl_signal_compatibility_id: None },
        };
        info.dolby_vision = Some(
            DolbyVisionMetadata {
                profile: byte_or(e.dv_profile, base.profile),
                bl_signal_compatibility_id: byte_or(
                    e.dv_bl_signal_compatibility_id,
                    base.bl_signal_compatibility_id,
                ),
            },
        );
    }
    if str_contains(k, "hdr dynamic") || str_contains(k, "st2094") || str_contains(k, "hdr10+") {
        info.hdr10_plus = true;
    }
    if str_contains(k, "mastering display") {
        if let Some(m) = &e.mastering {
            info.mastering_display = Some(mastering_display_string(m));
        }
    }
    if str_contains(k, "content light level") {
        if let (Some(mc), Some(ma)) = (e.max_content, e.max_average) {
            info.max_cll = Some(light_level_string(mc, ma));
        }
    }
}

/// The HDR facts of a probe's side data: the entries of its streams and then of
/// its frames, in order (see `probe_entry`).
pub fn hdr_info_from_side_data(entries: &Vec<SideDataEntry>) -> (r: FFprobeHdrInfo)
    ensures
        hdr_model(r) == probe_entries(entries@),
{
    let mut info = FFprobeHdrInfo::default();
    let mut i: usize = 0;
    while i < entries.len()
        invariant
            i <= entries@.len(),
            hdr_model(info) == probe_entries(entries@.take(i as int)),
        decreases entries@.len() - i,
    {
        assert(entries@.take(i + 1).drop_last() =~= entries@.take(i as int));
        apply_entry(&mut info, &entries[i]);
        i = i + 1;
    }
    assert(entries@.take(i as int) =~= entries@);
    info
}

/// What the stream selection reads of one stream of a probe.
#[derive(Debug, Clone)]
pub struct StreamSummary {
    /// `codec_type` is "video".
    pub is_video: bool,
    pub width: Option<u64>,
    pub height: Option<u64>,
    /// The `nb_frames` text.
    pub nb_frames: Option<String>,
    /// The stream's own `index`.
    pub index: Option<u64>,
}

/// Both dimensions are known and non-zero.
pub open spec fn valid_dimensions(s: StreamSummary) -> bool {
    (s.width matches Some(w) && w > 0) && (s.height matches Some(h) && h > 0)
}

/// The frame count used to rank streams (0 when absent or unreadable).
pub open spec fn rank_frames(s: StreamSummary) -> nat {
    match s.nb_frames.deep_view() {
        Some(t) => match spec_parse_unsigned(t, u64::MAX as nat) {
            Some(v) => v,
            None => 0,
        },
        None => 0,
    }
}

/// `a` ranks at least as high as `b`: valid dimensions first, then the frame count.
pub open spec fn ranks_at_least(a: StreamSummary, b: StreamSummary) -> bool {
    let da: int = if valid_dimensions(a) { 1 } else { 0 };
    let db: int = if valid_dimensions(b) { 1 } else { 0 };
    da > db || (da == db && rank_frames(a) >= rank_frames(b))
}

/// The position of the chosen video stream among the first `n` streams: the
/// highest-ranking one, the last of equals; `None` when there is no video stream.
pub open spec fn best_video(ss: Seq<StreamSummary>, n: int) -> Option<int>
    decreases n,
{
    if n <= 0 {
        None
    } else {
        let prev = best_video(ss, n - 1);
        if ss[n - 1].is_video && (prev matches Some(p) ==> ranks_at_least(ss[n - 1], ss[p])) {
            Some(n - 1)
        } else {
            prev
        }
    }
}

/// The stream index reported for the chosen stream: its own `index` when that
/// fits, else its position.
pub open spec fn reported_index(s: StreamSummary, pos: int) -> int {
    match s.index {
        Some(ix) => if ix <= usize::MAX {
            ix as int
        } else {
            pos
        },
        None => pos,
    }
}

/// The message of a probe without any video stream.
pub open spec fn no_video_message() -> Seq<char> {
    "No video stream found"@
}

fn rank_key(s: &StreamSummary) -> (r: (u8, u64))
    ensures
        r.0 == (if valid_dimensions(*s) { 1u8 } else { 0u8 }),
        r.1 == rank_frames(*s),
{
    let valid = match (s.width, s.height) {
        (Some(w), Some(h)) => w > 0 && h > 0,
        _ => false,
    };
    let frames = match &s.nb_frames {
        Some(t) => match parse_unsigned(t.as_str(), u64::MAX) {
            Some(v) => v,
            None => 0,
        },
        None => 0,
    };
    (if valid { 1 } else { 0 }, frames)
}

/// Choose the primary video stream: `(reported index, position)` of the
/// highest-ranking video stream (see `best_video`); an error when there is none.
pub fn select_video_stream(streams: &Vec<StreamSummary>) -> (r: Result<(usize, usize), FFprobeError>)
    ensures
        match best_video(streams@, streams@.len() as int) {
            Some(p) => r matches Ok((ix, pos)) && pos == p && ix == reported_index(streams@[p], p),
            None => r matches Err(FFprobeError::ParseError(m)) && m@ == no_video_message(),
        },
{
    let mut best: Option<usize> = None;
    let mut best_key: (u8, u64) = (0, 0);
    let mut i: usize = 0;
    while i < streams.len()
        invariant
            i <= streams@.len(),
            best matches Some(b) ==> (b < i && best_key.0 == (if valid_dimensions(streams@[b as int]) { 1u8 } else { 0u8 })
                && best_key.1 == rank_frames(streams@[b as int])),
            best_video(streams@, i as int) == (match best {
                Some(b) => Some(b as int),
                None => None::<int>,
            }),
        decreases streams@.len() - i,
    {
        if streams[i].is_video {
            let key = rank_key(&streams[i]);
            let take = match best {
                None => true,
                Some(_) => key.0 > best_key.0 || (key.0 == best_key.0 && key.1 >= best_key.1),
            };
            if take {
                best = Some(i);
                best_key = key;
            }
        }
        i = i + 1;
    }
    match best {
        Some(p) => {
            let ix = match streams[p].index {
                Some(v) => if v <= usize::MAX as u64 {
                    v as usize
                } else {
                    p
                },
                None => p,
            };
            Ok((ix, p))
        },
        None => Err(FFprobeError::ParseError(String::from_str("No video stream found"))),
    }
}

/// The message for a missing required field.
pub open spec fn missing_field_message(field: Seq<char>) -> Seq<char> {
    "Missing "@ + field
}

/// The message for a required field out of range.
pub open spec fn invalid_field_message(field: Seq<char>, raw: u64) -> Seq<char> {
    "Invalid "@ + field + ": "@ + decimal(raw as nat)
}

/// A required 32-bit stream field: the field itself, else (for width and
/// height) the coded size; the error message when both are absent or the value
/// exceeds `u32::MAX`.
pub open spec fn required_field(field: Seq<char>, value: Option<u64>, coded_value: Option<u64>) -> Result<u32, Seq<char>> {
    let raw = if value is Some {
        value
    } else if field == "width"@ || field == "height"@ {
        coded_value
    } else {
        None
    };
    match raw {
        None => Err(missing_field_message(field)),
        Some(v) => if v <= u32::MAX {
            Ok(v as u32)
        } else {
            Err(invalid_field_message(field, v))
        },
    }
}

/// A required 32-bit stream field (see `required_field`).
pub fn parse_required_u32_field(field_name: &str, value: Option<u64>, coded_value: Option<u64>) -> (r: Result<u32, FFprobeError>)
    ensures
        match required_field(field_name@, value, coded_value) {
            Ok(v) => r == Ok::<u32, FFprobeError>(v),
            Err(m) => r matches Err(FFprobeError::ParseError(e)) && e@ == m,
        },
{
    let raw = match value {
        Some(v) => Some(v),
        None => if str_eq(field_name, "width") || str_eq(field_name, "height") {
            coded_value
        } else {
            None
        },
    };
    match raw {
        None => Err(FFprobeError::ParseError(concat2("Missing ", field_name))),
        Some(v) => {
            if v <= 0xffff_ffffu64 {
                Ok(v as u32)
            } else {
                let m = concat2("Invalid ", field_name);
                let m = concat2(m.as_str(), ": ");
                Err(FFprobeError::ParseError(concat2(m.as_str(), decimal_string(v).as_str())))
            }
        },
    }
}

/// The frame count printed by an `nb_read_frames` query: its trimmed output as
/// an unsigned 64-bit number.
pub fn frame_count_from_output(stdout: &str) -> (r: Option<u64>)
    ensures
        r matches Some(v) ==> spec_parse_unsigned(trim(stdout@), u64::MAX as nat) == Some(v as nat),
        r is None ==> spec_parse_unsigned(trim(stdout@), u64::MAX as nat) is None,
{
    let t = trim_string(stdout);
    parse_unsigned(t.as_str(), u64::MAX)
}

/// The loop count of a `loop_count` / `loop` format tag, when it is a 16-bit number.
pub fn loop_count_from_tag(tag: Option<&str>) -> (r: Option<u16>)
    ensures
        match tag {
            Some(t) => match spec_parse_unsigned(t@, u16::MAX as nat) {
                Some(v) => r == Some(v as u16),
                None => r is None,
            },
            None => r is None,
        },
{
    match tag {
        Some(t) => match parse_unsigned(t, 0xffff) {
            Some(v) => Some(v as u16),
            None => None,
        },
        None => None,
    }
}

/// The first character of each non-empty picture type, in order.
pub open spec fn first_chars(ts: Seq<Seq<char>>) -> Seq<char>
    decreases ts.len(),
{
    if ts.len() == 0 {
        Seq::empty()
    } else {
        first_chars(ts.drop_last()) + if ts.last().len() > 0 {
            seq![ts.last()[0]]
        } else {
            Seq::empty()
        }
    }
}

/// The frame picture types (I, P, B, ...) of the probed frames.
pub fn frame_types(pict_types: &Vec<String>) -> (r: Vec<char>)
    ensures
        r@ == first_chars(pict_types.deep_view()),
{
    let mut out: Vec<char> = Vec::new();
    let mut i: usize = 0;
    assert(out@ =~= first_chars(pict_types.deep_view().take(0)));
    while i < pict_types.len()
        invariant
            i <= pict_types@.len(),
            out@ == first_chars(pict_types.deep_view().take(i as int)),
        decreases pict_types@.len() - i,
    {
        assert(pict_types.deep_view().take(i + 1).drop_last() =~= pict_types.deep_view().take(
            i as int,
        ));
        let cs = chars_of(pict_types[i].as_str());
        if cs.len() > 0 {
            out.push(cs[0]);
        }
        assert(out@ =~= first_chars(pict_types.deep_view().take(i + 1)));
        i = i + 1;
    }
    assert(pict_types.deep_view().take(i as int) =~= pict_types.deep_view());
    out
}

/// The readable packet sizes, in order.
pub open spec fn readable_sizes(ts: Seq<Seq<char>>) -> Seq<u64>
    decreases ts.len(),
{
    if ts.len() == 0 {
        Seq::empty()
    } else {
        readable_sizes(ts.drop_last()) + match spec_parse_unsigned(ts.last(), u64::MAX as nat) {
            Some(v) => seq![v as u64],
            None => Seq::empty(),
        }
    }
}

/// The packet sizes of the probed frames, unreadable ones skipped.
pub fn packet_sizes(sizes: &Vec<String>) -> (r: Vec<u64>)
    ensures
        r@ == readable_sizes(sizes.deep_view()),
{
    let mut out: Vec<u64> = Vec::new();
    let mut i: usize = 0;
    assert(out@ =~= readable_sizes(sizes.deep_view().take(0)));
    while i < sizes.len()
        invariant
            i <= sizes@.len(),
            out@ == readable_sizes(sizes.deep_view().take(i as int)),
        decreases sizes@.len() - i,
    {
        assert(sizes.deep_view().take(i + 1).drop_last() =~= sizes.deep_view().take(i as int));
        match parse_unsigned(sizes[i].as_str(), u64::MAX) {
            Some(v) => {
                out.push(v);
            },
            None => {},
        }
        assert(out@ =~= readable_sizes(sizes.deep_view().take(i + 1)));
        i = i + 1;
    }
    assert(sizes.deep_view().take(i as int) =~= sizes.deep_view());
    out
}

/// `has_b_frames` clamped into a byte.
pub fn max_b_frames_from(has_b_frames: Option<i64>) -> (r: Option<u8>)
    ensures
        match has_b_frames {
            Some(v) => r == Some(if v < 0 { 0u8 } else if v > 255 { 255u8 } else { v as u8 }),
            None => r is None,
        },
{
    match has_b_frames {
        Some(v) => Some(if v < 0 {
            0
        } else if v > 255 {
            255
        } else {
            v as u8
        }),
        None => None,
    }
}

/// The pixel format as reported, "unknown" when absent or blank.
pub fn pix_fmt_or_unknown(pix_fmt: Option<&str>) -> (r: String)
    ensures
        r@ == (match pix_fmt {
            Some(p) => if trim(p@).len() > 0 {
                p@
            } else {
                "unknown"@
            },
            None => "unknown"@,
        }),
{
    match pix_fmt {
        Some(p) => {
            if trim_string(p).as_str().unicode_len() > 0 {
                String::from_str(p)
            } else {
                String::from_str("unknown")
            }
        },
        None => String::from_str("unknown"),
    }
}

/// The pixel format as reported, "unknown" when absent or blank.
pub open spec fn pix_fmt_text(pix_fmt: Option<Seq<char>>) -> Seq<char> {
    match pix_fmt {
        Some(p) => if trim(p).len() > 0 {
            p
        } else {
            "unknown"@
        },
        None => "unknown"@,
    }
}

/// The integer and text fields of the chosen video stream.
#[derive(Debug)]
pub struct VideoStreamFields {
    pub video_codec: String,
    pub width: u32,
    pub height: u32,
    pub frame_count: Option<u64>,
    pub pix_fmt: String,
    pub bit_depth: Option<u8>,
    pub max_b_frames: Option<u8>,
}

/// The dimensions kept: the reported ones, replaced by `fallback` when either
/// reported side is zero and a fallback is known.
pub open spec fn kept_dimensions(width: u32, height: u32, fallback: Option<(u32, u32)>) -> (u32, u32) {
    if (width == 0 || height == 0) && fallback is Some {
        fallback.unwrap()
    } else {
        (width, height)
    }
}

/// The message for dimensions that stay zero.
pub open spec fn invalid_dimensions_message(w: u32, h: u32) -> Seq<char> {
    "Invalid dimensions: "@ + decimal(w as nat) + "x"@ + decimal(h as nat)
}

/// The frame count kept: the native count of an animated WebP container when it
/// has more than one frame, else the reported `nb_frames`.
pub open spec fn kept_frame_count(nb_frames: Option<u64>, animated_webp_frames: Option<u32>) -> Option<u64> {
    match animated_webp_frames {
        Some(n) => if n > 1 {
            Some(n as u64)
        } else {
            nb_frames
        },
        None => nb_frames,
    }
}

/// Assemble the video stream fields from what ffprobe reported: the codec name
/// (required), width and height (each with its coded size as a fallback, see
/// `required_field`), a fallback size for a zero side, `nb_frames`, the native
/// frame count of an animated WebP container, the pixel format and
/// `has_b_frames`. Errors, in this order: a missing codec name, a missing or
/// oversized width or height, a zero side that no fallback replaces.
pub fn video_stream_fields(
    codec_name: Option<&str>,
    width: Option<u64>,
    coded_width: Option<u64>,
    height: Option<u64>,
    coded_height: Option<u64>,
    fallback: Option<(u32, u32)>,
    nb_frames: Option<u64>,
    animated_webp_frames: Option<u32>,
    pix_fmt: Option<&str>,
    has_b_frames: Option<i64>,
) -> (r: Result<VideoStreamFields, FFprobeError>)
    ensures
        codec_name is None ==> (r matches Err(FFprobeError::ParseError(m)) && m@
            == "Missing video codec name"@),
        codec_name is Some ==> match required_field("width"@, width, coded_width) {
            Err(m) => r matches Err(FFprobeError::ParseError(e)) && e@ == m,
            Ok(w0) => match required_field("height"@, height, coded_height) {
                Err(m) => r matches Err(FFprobeError::ParseError(e)) && e@ == m,
                Ok(h0) => {
                    let (w, h) = kept_dimensions(w0, h0, fallback);
                    if w == 0 || h == 0 {
                        r matches Err(FFprobeError::ParseError(m)) && m@ == invalid_dimensions_message(
                            w,
                            h,
                        )
                    } else {
                        r matches Ok(f) && {
                            let p = pix_fmt_text(
                                match pix_fmt {
                                    Some(s) => Some(s@),
                                    None => None,
                                },
                            );
                            &&& f.video_codec@ == codec_name.unwrap()@
                            &&& f.width == w
                            &&& f.height == h
                            &&& f.frame_count == kept_frame_count(nb_frames, animated_webp_frames)
                            &&& f.pix_fmt@ == p
                            &&& f.bit_depth == spec_bit_depth(p)
                            &&& f.max_b_frames == (match has_b_frames {
                                Some(v) => Some(
                                    if v < 0 {
                                        0u8
                                    } else if v > 255 {
                                        255u8
                                    } else {
                                        v as u8
                                    },
                                ),
                                None => None,
                            })
                        }
                    }
                },
            },
        },
{
    let codec = match codec_name {
        Some(c) => String::from_str(c),
        None => return Err(FFprobeError::ParseError(String::from_str("Missing video codec name"))),
    };
    let width = match parse_required_u32_field("width", width, coded_width) {
        Ok(v) => v,
        Err(e) => return Err(e),
    };
    let height = match parse_required_u32_field("height", height, coded_height) {
        Ok(v) => v,
        Err(e) => return Err(e),
    };
    let mut w = width;
    let mut h = height;
    if w == 0 || h == 0 {
        match fallback {
            Some((fw, fh)) => {
                w = fw;
                h = fh;
            },
            None => {},
        }
    }
    if w == 0 || h == 0 {
        let m = concat2("Invalid dimensions: ", decimal_string(w as u64).as_str());
        let m = concat2(m.as_str(), "x");
        return Err(FFprobeError::ParseError(concat2(m.as_str(), decimal_string(h as u64).as_str())));
    }
    let frame_count = match animated_webp_frames {
        Some(n) => if n > 1 {
            Some(n as u64)
        } else {
            nb_frames
        },
        None => nb_frames,
    };
    let pf = pix_fmt_or_unknown(pix_fmt);
    let bit_depth = detect_bit_depth(pf.as_str());
    Ok(
        VideoStreamFields {
            video_codec: codec,
            width: w,
            height: h,
            frame_count,
            pix_fmt: pf,
            bit_depth,
            max_b_frames: max_b_frames_from(has_b_frames),
        },
    )
}

/// What the audio and subtitle summaries read of one stream.
#[derive(Debug, Clone)]
pub struct SideStreamFields {
    /// The stream's `codec_type` ("video", "audio", "subtitle", ...).
    pub codec_type: Option<String>,
    pub codec_name: Option<String>,
    /// The `bit_rate` text.
    pub bit_rate: Option<String>,
    /// The `sample_rate` text.
    pub sample_rate: Option<String>,
    pub channels: Option<u64>,
}

/// Position of the first stream of the given type.
pub open spec fn first_of_type(ss: Seq<SideStreamFields>, ty: Seq<char>, from: int) -> Option<int>
    decreases ss.len() - from,
{
    if from < 0 || from >= ss.len() {
        None
    } else if ss[from].codec_type.deep_view() == Some(ty) {
        Some(from)
    } else {
        first_of_type(ss, ty, from + 1)
    }
}

proof fn lemma_first_of_type_in_range(ss: Seq<SideStreamFields>, ty: Seq<char>, from: int)
    ensures
        first_of_type(ss, ty, from) matches Some(p) ==> from <= p < ss.len(),
    decreases ss.len() - from,
{
    if 0 <= from < ss.len() && ss[from].codec_type.deep_view() != Some(ty) {
        lemma_first_of_type_in_range(ss, ty, from + 1);
    }
}

fn find_first_of_type(streams: &Vec<SideStreamFields>, ty: &str) -> (r: Option<usize>)
    ensures
        r matches Some(i) ==> (i < streams@.len() && first_of_type(streams@, ty@, 0) == Some(
            i as int,
        )),
        r is None ==> first_of_type(streams@, ty@, 0) is None,
{
    proof {
        lemma_first_of_type_in_range(streams@, ty@, 0);
    }
    let mut i: usize = 0;
    while i < streams.len()
        invariant
            i <= streams@.len(),
            first_of_type(streams@, ty@, 0) == first_of_type(streams@, ty@, i as int),
        decreases streams@.len() - i,
    {
        let matches = match &streams[i].codec_type {
            Some(t) => str_eq(t.as_str(), ty),
            None => false,
        };
        if matches {
            return Some(i);
        }
        i = i + 1;
    }
    None
}

/// A number text as an unsigned 64-bit value.
pub open spec fn u64_text(o: Option<Seq<char>>) -> Option<nat> {
    match o {
        Some(t) => spec_parse_unsigned(t, u64::MAX as nat),
        None => None,
    }
}

/// A value that fits 32 bits.
pub open spec fn fits_u32(o: Option<nat>) -> Option<u32> {
    match o {
        Some(v) => if v <= u32::MAX {
            Some(v as u32)
        } else {
            None
        },
        None => None,
    }
}

fn parse_u64_text(o: &Option<String>) -> (r: Option<u64>)
    ensures
        match u64_text(o.deep_view()) {
            Some(v) => r == Some(v as u64),
            None => r is None,
        },
{
    match o {
        Some(t) => parse_unsigned(t.as_str(), u64::MAX),
        None => None,
    }
}

fn to_u32(o: Option<u64>) -> (r: Option<u32>)
    ensures
        r == fits_u32(match o {
            Some(v) => Some(v as nat),
            None => None,
        }),
{
    match o {
        Some(v) => if v <= 0xffff_ffffu64 {
            Some(v as u32)
        } else {
            None
        },
        None => None,
    }
}

/// The first audio stream: present with its codec, bit rate, sample rate (when
/// it fits 32 bits) and channel count (when it fits 32 bits); nothing present
/// when there is no audio stream.
pub fn extract_audio_stream_fields(streams: &Vec<SideStreamFields>) -> (r: FFprobeAudioInfo)
    ensures
        match first_of_type(streams@, "audio"@, 0) {
            None => !r.present && r.codec is None && r.bit_rate is None && r.sample_rate is None
                && r.channels is None,
            Some(p) => {
                let s = streams@[p];
                &&& r.present
                &&& r.codec.deep_view() == s.codec_name.deep_view()
                &&& r.bit_rate == (match u64_text(s.bit_rate.deep_view()) {
                    Some(v) => Some(v as u64),
                    None => None,
                })
                &&& r.sample_rate == fits_u32(u64_text(s.sample_rate.deep_view()))
                &&& r.channels == fits_u32(match s.channels {
                    Some(c) => Some(c as nat),
                    None => None,
                })
            },
        },
{
    match find_first_of_type(streams, "audio") {
        None => FFprobeAudioInfo::default(),
        Some(p) => {
            let s = &streams[p];
            FFprobeAudioInfo {
                present: true,
                codec: clone_opt(&s.codec_name),
                bit_rate: parse_u64_text(&s.bit_rate),
                sample_rate: to_u32(parse_u64_text(&s.sample_rate)),
                channels: to_u32(s.channels),
            }
        },
    }
}

/// The first subtitle stream: present with its codec; nothing present when
/// there is no subtitle stream.
pub fn extract_subtitle_stream_fields(streams: &Vec<SideStreamFields>) -> (r: FFprobeSubtitleInfo)
    ensures
        match first_of_type(streams@, "subtitle"@, 0) {
            None => !r.present && r.codec is None,
            Some(p) => r.present && r.codec.deep_view() == streams@[p].codec_name.deep_view(),
        },
{
    match find_first_of_type(streams, "subtitle") {
        None => FFprobeSubtitleInfo::default(),
        Some(p) => FFprobeSubtitleInfo { present: true, codec: clone_opt(&streams[p].codec_name) },
    }
}

proof fn lemma_ranks_transitive(a: StreamSummary, b: StreamSummary, c: StreamSummary)
    requires
        ranks_at_least(a, b),
        ranks_at_least(b, c),
    ensures
        ranks_at_least(a, c),
{
}

proof fn lemma_ranks_total(a: StreamSummary, b: StreamSummary)
    ensures
        ranks_at_least(a, b) || ranks_at_least(b, a),
{
}

/// The chosen stream is a video stream that ranks at least as high as every
/// video stream among the first `n` (valid dimensions first, then frame count),
/// and any video stream after it ranks strictly lower.
pub proof fn law_selected_stream_ranks_highest(ss: Seq<StreamSummary>, n: int)
    requires
        0 <= n <= ss.len(),
    ensures
        best_video(ss, n) matches Some(p) ==> {
            &&& 0 <= p < n
            &&& ss[p].is_video
            &&& forall|j: int| 0 <= j < n && #[trigger] ss[j].is_video ==> ranks_at_least(ss[p], ss[j])
            &&& forall|j: int| p < j < n && #[trigger] ss[j].is_video ==> !ranks_at_least(ss[j], ss[p])
        },
        best_video(ss, n) is None ==> forall|j: int| 0 <= j < n ==> !(#[trigger] ss[j].is_video),
    decreases n,
{
    if n > 0 {
        law_selected_stream_ranks_highest(ss, n - 1);
        let prev = best_video(ss, n - 1);
        let last = ss[n - 1];
        if last.is_video && (prev matches Some(q) ==> ranks_at_least(last, ss[q])) {
            assert forall|j: int| 0 <= j < n && #[trigger] ss[j].is_video implies ranks_at_least(last, ss[j]) by {
                if j < n - 1 {
                    let q = prev->Some_0;
                    lemma_ranks_transitive(last, ss[q], ss[j]);
                }
            }
        } else if last.is_video {
            let q = prev->Some_0;
            lemma_ranks_total(last, ss[q]);
        }
    }
}

/// The integer and text fields of ffprobe's format section.
#[derive(Debug, Clone)]
pub struct ProbeFormatFields {
    pub format_name: String,
    pub size: u64,
    /// `None` when the format section has no readable `bit_rate` (common for
    /// image containers such as WebP and AVIF).
    pub bit_rate: Option<u64>,
}

/// A number text as an optional unsigned 64-bit value.
pub open spec fn opt_u64_text(o: Option<&str>) -> Option<nat> {
    match o {
        Some(t) => spec_parse_unsigned(t@, u64::MAX as nat),
        None => None,
    }
}

/// Read the format section: the format name and the size are required, the bit
/// rate is optional.
pub fn parse_probe_format_fields(format_name: Option<&str>, size: Option<&str>, bit_rate: Option<&str>) -> (r: Result<ProbeFormatFields, FFprobeError>)
    ensures
        format_name is None ==> (r matches Err(FFprobeError::ParseError(m)) && m@ == "Missing format_name"@),
        format_name is Some && opt_u64_text(size) is None ==> (r matches Err(FFprobeError::ParseError(m))
            && m@ == "Missing or invalid file size"@),
        format_name matches Some(n) ==> (opt_u64_text(size) matches Some(sz) ==> (r matches Ok(f)
            && f.format_name@ == n@ && f.size == sz && f.bit_rate == (match opt_u64_text(bit_rate) {
            Some(b) => Some(b as u64),
            None => None,
        }))),
{
    let name = match format_name {
        Some(n) => String::from_str(n),
        None => {
            return Err(FFprobeError::ParseError(String::from_str("Missing format_name")));
        },
    };
    let size_value = match size {
        Some(t) => parse_unsigned(t, u64::MAX),
        None => None,
    };
    let size_value = match size_value {
        Some(v) => v,
        None => {
            return Err(FFprobeError::ParseError(String::from_str("Missing or invalid file size")));
        },
    };
    let rate = match bit_rate {
        Some(t) => parse_unsigned(t, u64::MAX),
        None => None,
    };
    Ok(ProbeFormatFields { format_name: name, size: size_value, bit_rate: rate })
}

} // verus!
