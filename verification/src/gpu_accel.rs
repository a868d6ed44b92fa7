//! GPU encoder description and selection: encoder catalogues per platform, the
//! assembled capability set, filter-argument handling for sampled encodes, and
//! the reading of ffmpeg's encoder list and failure output.
use vstd::prelude::*;
use vstd::string::*;
use crate::bytes::{contains_seq, occurs_at};
use crate::file_copier::{extension_of, path_extension};
use crate::text::{
    concat2, from_utf8_lossy, join_strings, join_with, lines_of, spec_lines, str_contains, str_eq,
    str_starts_with, trim, trim_string, utf8_lossy,
};

verus! {

/// The kind of hardware video encoder available.
#[derive(Debug, Clone, Copy, PartialEq, Eq, Structural)]
pub enum GpuType {
    /// NVIDIA NVENC.
    Nvidia,
    /// Apple VideoToolbox.
    Apple,
    /// Intel Quick Sync Video.
    IntelQsv,
    /// AMD AMF.
    AmdAmf,
    /// VA-API (Linux).
    Vaapi,
    /// No hardware encoder: CPU encoding.
    Cpu,
}

/// The display name of each GPU kind.
pub open spec fn gpu_type_name(t: GpuType) -> Seq<char> {
    match t {
        GpuType::Nvidia => "NVIDIA NVENC"@,
        GpuType::Apple => "Apple VideoToolbox"@,
        GpuType::IntelQsv => "Intel QSV"@,
        GpuType::AmdAmf => "AMD AMF"@,
        GpuType::Vaapi => "VA-API"@,
        GpuType::Cpu => "None (CPU)"@,
    }
}

impl GpuType {
    /// The display name (e.g. "NVIDIA NVENC").
    pub fn display_name(&self) -> (r: &'static str)
        ensures
            r@ == gpu_type_name(*self),
    {
        match self {
            GpuType::Nvidia => "NVIDIA NVENC",
            GpuType::Apple => "Apple VideoToolbox",
            GpuType::IntelQsv => "Intel QSV",
            GpuType::AmdAmf => "AMD AMF",
            GpuType::Vaapi => "VA-API",
            GpuType::Cpu => "None (CPU)",
        }
    }
}

/// A hardware encoder with its ffmpeg configuration.
#[derive(Debug)]
pub struct GpuEncoder {
    /// The GPU kind this encoder belongs to.
    pub gpu_type: GpuType,
    /// The ffmpeg encoder name (e.g. "hevc_nvenc").
    pub name: &'static str,
    /// The codec produced (e.g. "hevc", "av1", "h264").
    pub codec: &'static str,
    /// Whether quality is controlled by a CRF-like parameter.
    pub supports_crf: bool,
    /// The ffmpeg quality parameter (e.g. "cq", "q:v").
    pub crf_param: &'static str,
    /// Valid range of the quality parameter, inclusive.
    pub crf_range: (u8, u8),
    /// Additional ffmpeg arguments for this encoder.
    pub extra_args: Vec<&'static str>,
}

impl Clone for GpuEncoder {
    fn clone(&self) -> (r: Self)
        ensures
            r.gpu_type == self.gpu_type && r.name == self.name && r.codec == self.codec
                && r.supports_crf == self.supports_crf && r.crf_param == self.crf_param
                && r.crf_range == self.crf_range && r.extra_args@ == self.extra_args@,
    {
        let mut extra: Vec<&'static str> = Vec::new();
        let mut i: usize = 0;
        while i < self.extra_args.len()
            invariant
                i <= self.extra_args@.len(),
                extra@ == self.extra_args@.take(i as int),
            decreases self.extra_args@.len() - i,
        {
            extra.push(self.extra_args[i]);
            assert(extra@ =~= self.extra_args@.take(i + 1));
            i = i + 1;
        }
        assert(extra@ =~= self.extra_args@);
        GpuEncoder {
            gpu_type: self.gpu_type,
            name: self.name,
            codec: self.codec,
            supports_crf: self.supports_crf,
            crf_param: self.crf_param,
            crf_range: self.crf_range,
            extra_args: extra,
        }
    }
}

impl GpuEncoder {
    /// The ffmpeg encoder name.
    pub fn ffmpeg_name(&self) -> (r: &'static str)
        ensures
            r == self.name,
    {
        self.name
    }

    /// The additional ffmpeg arguments.
    pub fn extra_args(&self) -> (r: &[&'static str])
        ensures
            r@ == self.extra_args@,
    {
        self.extra_args.as_slice()
    }
}

/// The detected GPU acceleration capabilities.
#[derive(Debug, Clone)]
pub struct GpuAccel {
    pub gpu_type: GpuType,
    pub hevc_encoder: Option<GpuEncoder>,
    pub av1_encoder: Option<GpuEncoder>,
    pub h264_encoder: Option<GpuEncoder>,
    /// Whether GPU acceleration is usable.
    pub enabled: bool,
}

impl Default for GpuAccel {
    fn default() -> (r: Self)
        ensures
            r.gpu_type == GpuType::Cpu && r.hevc_encoder is None && r.av1_encoder is None
                && r.h264_encoder is None && !r.enabled,
    {
        GpuAccel {
            gpu_type: GpuType::Cpu,
            hevc_encoder: None,
            av1_encoder: None,
            h264_encoder: None,
            enabled: false,
        }
    }
}

/// What an encoder accessor hands out: the encoder when acceleration is enabled.
pub open spec fn offered(enabled: bool, enc: Option<GpuEncoder>, r: Option<&GpuEncoder>) -> bool {
    &&& (r is Some <==> (enabled && enc is Some))
    &&& (r matches Some(e) ==> enc == Some(*e))
}

impl GpuAccel {
    /// The capability set of the encoders that passed their probe: `None` when
    /// none did, otherwise enabled with those encoders.
    pub fn assemble(
        gpu_type: GpuType,
        hevc_encoder: Option<GpuEncoder>,
        av1_encoder: Option<GpuEncoder>,
        h264_encoder: Option<GpuEncoder>,
    ) -> (r: Option<Self>)
        ensures
            (r is None) <==> (hevc_encoder is None && av1_encoder is None && h264_encoder is None),
            r matches Some(a) ==> (a.gpu_type == gpu_type && a.hevc_encoder == hevc_encoder
                && a.av1_encoder == av1_encoder && a.h264_encoder == h264_encoder && a.enabled),
    {
        if hevc_encoder.is_none() && av1_encoder.is_none() && h264_encoder.is_none() {
            None
        } else {
            Some(GpuAccel { gpu_type, hevc_encoder, av1_encoder, h264_encoder, enabled: true })
        }
    }

    /// The HEVC encoder, when acceleration is enabled.
    pub fn get_hevc_encoder(&self) -> (r: Option<&GpuEncoder>)
        ensures
            offered(self.enabled, self.hevc_encoder, r),
    {
        if self.enabled {
            self.hevc_encoder.as_ref()
        } else {
            None
        }
    }

    /// The AV1 encoder, when acceleration is enabled.
    pub fn get_av1_encoder(&self) -> (r: Option<&GpuEncoder>)
        ensures
            offered(self.enabled, self.av1_encoder, r),
    {
        if self.enabled {
            self.av1_encoder.as_ref()
        } else {
            None
        }
    }

    /// The H.264 encoder, when acceleration is enabled.
    pub fn get_h264_encoder(&self) -> (r: Option<&GpuEncoder>)
        ensures
            offered(self.enabled, self.h264_encoder, r),
    {
        if self.enabled {
            self.h264_encoder.as_ref()
        } else {
            None
        }
    }

    /// Whether GPU acceleration is usable.
    pub fn is_available(&self) -> (r: bool)
        ensures
            r == self.enabled,
    {
        self.enabled
    }

    /// "<GPU name> (Hardware Accelerated)" when enabled, else "CPU (Software Encoding)".
    pub fn description(&self) -> (r: String)
        ensures
            r@ == (if self.enabled {
                gpu_type_name(self.gpu_type) + " (Hardware Accelerated)"@
            } else {
                "CPU (Software Encoding)"@
            }),
    {
        if self.enabled {
            concat2(self.gpu_type.display_name(), " (Hardware Accelerated)")
        } else {
            String::from_str("CPU (Software Encoding)")
        }
    }
}

/// The phase of a quality search.
#[derive(Debug, Clone, Copy, PartialEq, Eq, Structural)]
pub enum SearchPhase {
    /// GPU coarse search.
    Gpu,
    /// CPU fine search.
    Cpu,
}

/// Milliseconds after which a failed GPU probe is retried.
pub const GPU_NEGATIVE_CACHE_TTL_MS: u64 = 5000;

/// Whether a cached probe result should be probed again: only a failed probe
/// (acceleration not enabled), and only once the retry delay has passed.
pub fn should_refresh_probe(enabled: bool, elapsed_ms: u64) -> (r: bool)
    ensures
        r == (!enabled && elapsed_ms >= GPU_NEGATIVE_CACHE_TTL_MS),
{
    !enabled && elapsed_ms >= GPU_NEGATIVE_CACHE_TTL_MS
}

/// `suffix.ext` for an extension `ext` (`MP4` when there is none).
pub open spec fn temp_extension_with(ext: Option<Seq<char>>, suffix: Seq<char>) -> Seq<char> {
    suffix + "."@ + match ext {
        Some(e) => e,
        None => "MP4"@,
    }
}

/// `suffix.ext`, where `ext` is the output path's extension (`MP4` when it has none).
pub open spec fn temp_extension(output: Seq<char>, suffix: Seq<char>) -> Seq<char> {
    temp_extension_with(path_extension(output), suffix)
}

/// The temporary-file extension `suffix.ext` for a given extension (see
/// `temp_extension_with`).
pub fn temp_extension_from(ext: Option<String>, suffix: &str) -> (r: String)
    ensures
        r@ == temp_extension_with(ext.deep_view(), suffix@),
{
    let e = match ext {
        Some(e) => e,
        None => String::from_str("MP4"),
    };
    let s = concat2(suffix, ".");
    concat2(s.as_str(), e.as_str())
}

/// The temporary-file extension `suffix.ext` for an output path.
pub fn temp_extension_for(output: &str, suffix: &str) -> (r: String)
    ensures
        r@ == temp_extension(output@, suffix@),
{
    temp_extension_from(extension_of(output), suffix)
}

/// The extension of the temporary file of a GPU encode (e.g. "gpu_temp.mp4").
pub fn derive_gpu_temp_extension(output: &str) -> (r: String)
    ensures
        r@ == temp_extension(output@, "gpu_temp"@),
{
    temp_extension_for(output, "gpu_temp")
}

/// The filters given as `-vf <filter>` pairs in `a` from index `i` on, in order
/// (an empty filter is skipped, and so is a trailing `-vf`).
pub open spec fn vf_filters(a: Seq<Seq<char>>, i: int) -> Seq<Seq<char>>
    decreases a.len() - i,
{
    if i < 0 || i + 1 >= a.len() {
        Seq::empty()
    } else if a[i] == "-vf"@ && a[i + 1].len() > 0 {
        seq![a[i + 1]] + vf_filters(a, i + 2)
    } else {
        vf_filters(a, i + 1)
    }
}

/// The video filters of an ffmpeg argument list (see `vf_filters`).
pub fn collect_vf_filters(vf_args: &Vec<String>) -> (r: Vec<String>)
    ensures
        r.deep_view() == vf_filters(vf_args.deep_view(), 0),
{
    let ghost a = vf_args.deep_view();
    let mut filters: Vec<String> = Vec::new();
    let mut idx: usize = 0;
    assert(filters.deep_view() =~= Seq::<Seq<char>>::empty());
    while idx < vf_args.len() && vf_args.len() - idx >= 2
        invariant
            a == vf_args.deep_view(),
            idx <= vf_args@.len(),
            filters.deep_view() + vf_filters(a, idx as int) == vf_filters(a, 0),
        decreases vf_args@.len() - idx,
    {
        let next_len = vf_args[idx + 1].as_str().unicode_len();
        if str_eq(vf_args[idx].as_str(), "-vf") && next_len > 0 {
            let ghost before = filters.deep_view();
            filters.push(vf_args[idx + 1].clone());
            assert(filters.deep_view() =~= before.push(a[idx + 1]));
            assert(before + vf_filters(a, idx as int) =~= filters.deep_view() + vf_filters(
                a,
                idx + 2,
            ));
            idx = idx + 2;
        } else {
            idx = idx + 1;
        }
    }
    assert(vf_filters(a, idx as int) =~= Seq::<Seq<char>>::empty());
    assert(filters.deep_view() =~= filters.deep_view() + vf_filters(a, idx as int));
    filters
}

/// The `-vf` arguments of a sampled encode: the sampling filter (if any)
/// followed by the given filters, joined by `,`; nothing when there is no filter.
pub open spec fn sampling_vf(prefix: Option<Seq<char>>, a: Seq<Seq<char>>) -> Seq<Seq<char>> {
    let fs = match prefix {
        Some(p) => seq![p] + vf_filters(a, 0),
        None => vf_filters(a, 0),
    };
    if fs.len() == 0 {
        Seq::empty()
    } else {
        seq!["-vf"@, join_with(fs, ","@)]
    }
}

/// Combine a sampling filter with the filters of an argument list into one `-vf`.
pub fn build_sampling_vf_args(prefix: Option<String>, vf_args: &Vec<String>) -> (r: Vec<String>)
    ensures
        r.deep_view() == sampling_vf(prefix.deep_view(), vf_args.deep_view()),
{
    let ghost p = prefix.deep_view();
    let collected = collect_vf_filters(vf_args);
    let mut filters: Vec<String> = Vec::new();
    match prefix {
        Some(s) => {
            filters.push(s);
        },
        None => {},
    }
    let mut i: usize = 0;
    let ghost start = filters.deep_view();
    while i < collected.len()
        invariant
            i <= collected@.len(),
            filters.deep_view() == start + collected.deep_view().take(i as int),
        decreases collected@.len() - i,
    {
        let ghost before = filters.deep_view();
        filters.push(collected[i].clone());
        assert(filters.deep_view() =~= before.push(collected.deep_view()[i as int]));
        assert(start + collected.deep_view().take(i + 1) =~= before.push(
            collected.deep_view()[i as int],
        ));
        i = i + 1;
    }
    assert(collected.deep_view().take(i as int) =~= collected.deep_view());
    proof {
        match p {
            Some(x) => {
                assert(start =~= seq![x]);
            },
            None => {
                assert(start =~= Seq::<Seq<char>>::empty());
            },
        }
    }
    assert(filters.deep_view() =~= match p {
        Some(x) => seq![x] + vf_filters(vf_args.deep_view(), 0),
        None => vf_filters(vf_args.deep_view(), 0),
    });
    let mut out: Vec<String> = Vec::new();
    if filters.len() > 0 {
        out.push(String::from_str("-vf"));
        out.push(join_strings(&filters, ","));
        assert(out.deep_view() =~= seq!["-vf"@, join_with(filters.deep_view(), ","@)]);
    } else {
        assert(out.deep_view() =~= Seq::<Seq<char>>::empty());
    }
    out
}

/// The views of a list of static strings.
pub open spec fn str_views(v: Seq<&'static str>) -> Seq<Seq<char>> {
    v.map_values(|x: &'static str| x@)
}

/// `e` is the encoder described by the given fields.
pub open spec fn is_encoder(
    e: GpuEncoder,
    gpu_type: GpuType,
    name: Seq<char>,
    codec: Seq<char>,
    crf_param: Seq<char>,
    lo: u8,
    hi: u8,
    extra: Seq<Seq<char>>,
) -> bool {
    &&& e.gpu_type == gpu_type
    &&& e.name@ == name
    &&& e.codec@ == codec
    &&& e.supports_crf
    &&& e.crf_param@ == crf_param
    &&& e.crf_range == (lo, hi)
    &&& str_views(e.extra_args@) == extra
}

fn strs2(a: &'static str, b: &'static str) -> (r: Vec<&'static str>)
    ensures
        str_views(r@) == seq![a@, b@],
{
    let mut v: Vec<&'static str> = Vec::new();
    v.push(a);
    v.push(b);
    assert(str_views(v@) =~= seq![a@, b@]);
    v
}

fn strs4(a: &'static str, b: &'static str, c: &'static str, d: &'static str) -> (r: Vec<&'static str>)
    ensures
        str_views(r@) == seq![a@, b@, c@, d@],
{
    let mut v: Vec<&'static str> = Vec::new();
    v.push(a);
    v.push(b);
    v.push(c);
    v.push(d);
    assert(str_views(v@) =~= seq![a@, b@, c@, d@]);
    v
}

fn strs6(
    a: &'static str,
    b: &'static str,
    c: &'static str,
    d: &'static str,
    e: &'static str,
    f: &'static str,
) -> (r: Vec<&'static str>)
    ensures
        str_views(r@) == seq![a@, b@, c@, d@, e@, f@],
{
    let mut v: Vec<&'static str> = Vec::new();
    v.push(a);
    v.push(b);
    v.push(c);
    v.push(d);
    v.push(e);
    v.push(f);
    assert(str_views(v@) =~= seq![a@, b@, c@, d@, e@, f@]);
    v
}

fn strs8(
    a: &'static str,
    b: &'static str,
    c: &'static str,
    d: &'static str,
    e: &'static str,
    f: &'static str,
    g: &'static str,
    h: &'static str,
) -> (r: Vec<&'static str>)
    ensures
        str_views(r@) == seq![a@, b@, c@, d@, e@, f@, g@, h@],
{
    let mut v: Vec<&'static str> = Vec::new();
    v.push(a);
    v.push(b);
    v.push(c);
    v.push(d);
    v.push(e);
    v.push(f);
    v.push(g);
    v.push(h);
    assert(str_views(v@) =~= seq![a@, b@, c@, d@, e@, f@, g@, h@]);
    v
}

fn encoder(
    gpu_type: GpuType,
    name: &'static str,
    codec: &'static str,
    crf_param: &'static str,
    lo: u8,
    hi: u8,
    extra: Vec<&'static str>,
) -> (r: GpuEncoder)
    ensures
        is_encoder(r, gpu_type, name@, codec@, crf_param@, lo, hi, str_views(extra@)),
{
    GpuEncoder {
        gpu_type,
        name,
        codec,
        supports_crf: true,
        crf_param,
        crf_range: (lo, hi),
        extra_args: extra,
    }
}

/// The HEVC, AV1 and H.264 encoders a platform may offer.
#[derive(Debug)]
pub struct EncoderCandidates {
    pub hevc: Option<GpuEncoder>,
    pub av1: Option<GpuEncoder>,
    pub h264: Option<GpuEncoder>,
}

/// The hardware encoder families tried, in order, on a platform: VideoToolbox
/// on macOS, else NVENC then QSV; then AMF on Windows and VA-API on Linux.
pub open spec fn spec_probe_order(macos: bool, windows: bool, linux: bool) -> Seq<GpuType> {
    (if macos {
        seq![GpuType::Apple]
    } else {
        seq![GpuType::Nvidia, GpuType::IntelQsv]
    }) + (if windows {
        seq![GpuType::AmdAmf]
    } else {
        Seq::empty()
    }) + (if linux {
        seq![GpuType::Vaapi]
    } else {
        Seq::empty()
    })
}

/// The encoder families to probe, in order, for the given platform (see
/// `spec_probe_order`).
pub fn probe_order(macos: bool, windows: bool, linux: bool) -> (r: Vec<GpuType>)
    ensures
        r@ == spec_probe_order(macos, windows, linux),
{
    let mut r: Vec<GpuType> = Vec::new();
    if macos {
        r.push(GpuType::Apple);
    } else {
        r.push(GpuType::Nvidia);
        r.push(GpuType::IntelQsv);
    }
    if windows {
        r.push(GpuType::AmdAmf);
    }
    if linux {
        r.push(GpuType::Vaapi);
    }
    assert(r@ =~= spec_probe_order(macos, windows, linux));
    r
}

/// VideoToolbox encoders (macOS): HEVC (tagged `hvc1`) and H.264, quality `q:v` 0..=100.
pub fn videotoolbox_candidates() -> (r: EncoderCandidates)
    ensures
        r.hevc matches Some(e) && is_encoder(e, GpuType::Apple, "hevc_videotoolbox"@, "hevc"@,
            "q:v"@, 0, 100, seq!["-profile:v"@, "main"@, "-tag:v"@, "hvc1"@]),
        r.av1 is None,
        r.h264 matches Some(e) && is_encoder(e, GpuType::Apple, "h264_videotoolbox"@, "h264"@,
            "q:v"@, 0, 100, seq!["-profile:v"@, "high"@]),
{
    EncoderCandidates {
        hevc: Some(encoder(GpuType::Apple, "hevc_videotoolbox", "hevc", "q:v", 0, 100,
            strs4("-profile:v", "main", "-tag:v", "hvc1"))),
        av1: None,
        h264: Some(encoder(GpuType::Apple, "h264_videotoolbox", "h264", "q:v", 0, 100,
            strs2("-profile:v", "high"))),
    }
}

/// NVENC encoders: preset p4, tune hq, VBR rate control; quality `cq`.
pub fn nvenc_candidates() -> (r: EncoderCandidates)
    ensures
        r.hevc matches Some(e) && is_encoder(e, GpuType::Nvidia, "hevc_nvenc"@, "hevc"@, "cq"@, 0,
            51, seq!["-preset"@, "p4"@, "-tune"@, "hq"@, "-rc"@, "vbr"@, "-profile:v"@, "main"@]),
        r.av1 matches Some(e) && is_encoder(e, GpuType::Nvidia, "av1_nvenc"@, "av1"@, "cq"@, 0,
            63, seq!["-preset"@, "p4"@, "-tune"@, "hq"@, "-rc"@, "vbr"@]),
        r.h264 matches Some(e) && is_encoder(e, GpuType::Nvidia, "h264_nvenc"@, "h264"@, "cq"@, 0,
            51, seq!["-preset"@, "p4"@, "-tune"@, "hq"@, "-rc"@, "vbr"@, "-profile:v"@, "high"@]),
{
    EncoderCandidates {
        hevc: Some(encoder(GpuType::Nvidia, "hevc_nvenc", "hevc", "cq", 0, 51,
            strs8("-preset", "p4", "-tune", "hq", "-rc", "vbr", "-profile:v", "main"))),
        av1: Some(encoder(GpuType::Nvidia, "av1_nvenc", "av1", "cq", 0, 63,
            strs6("-preset", "p4", "-tune", "hq", "-rc", "vbr"))),
        h264: Some(encoder(GpuType::Nvidia, "h264_nvenc", "h264", "cq", 0, 51,
            strs8("-preset", "p4", "-tune", "hq", "-rc", "vbr", "-profile:v", "high"))),
    }
}

/// Quick Sync encoders: preset medium; quality `global_quality`.
pub fn qsv_candidates() -> (r: EncoderCandidates)
    ensures
        r.hevc matches Some(e) && is_encoder(e, GpuType::IntelQsv, "hevc_qsv"@, "hevc"@,
            "global_quality"@, 1, 51, seq!["-preset"@, "medium"@, "-profile:v"@, "main"@]),
        r.av1 matches Some(e) && is_encoder(e, GpuType::IntelQsv, "av1_qsv"@, "av1"@,
            "global_quality"@, 1, 63, seq!["-preset"@, "medium"@]),
        r.h264 matches Some(e) && is_encoder(e, GpuType::IntelQsv, "h264_qsv"@, "h264"@,
            "global_quality"@, 1, 51, seq!["-preset"@, "medium"@, "-profile:v"@, "high"@]),
{
    EncoderCandidates {
        hevc: Some(encoder(GpuType::IntelQsv, "hevc_qsv", "hevc", "global_quality", 1, 51,
            strs4("-preset", "medium", "-profile:v", "main"))),
        av1: Some(encoder(GpuType::IntelQsv, "av1_qsv", "av1", "global_quality", 1, 63,
            strs2("-preset", "medium"))),
        h264: Some(encoder(GpuType::IntelQsv, "h264_qsv", "h264", "global_quality", 1, 51,
            strs4("-preset", "medium", "-profile:v", "high"))),
    }
}

/// AMF encoders (Windows): quality preset; quantizer `qp_i`.
pub fn amf_candidates() -> (r: EncoderCandidates)
    ensures
        r.hevc matches Some(e) && is_encoder(e, GpuType::AmdAmf, "hevc_amf"@, "hevc"@, "qp_i"@, 0,
            51, seq!["-quality"@, "quality"@, "-profile:v"@, "main"@]),
        r.av1 matches Some(e) && is_encoder(e, GpuType::AmdAmf, "av1_amf"@, "av1"@, "qp_i"@, 0, 63,
            seq!["-quality"@, "quality"@]),
        r.h264 matches Some(e) && is_encoder(e, GpuType::AmdAmf, "h264_amf"@, "h264"@, "qp_i"@, 0,
            51, seq!["-quality"@, "quality"@, "-profile:v"@, "high"@]),
{
    EncoderCandidates {
        hevc: Some(encoder(GpuType::AmdAmf, "hevc_amf", "hevc", "qp_i", 0, 51,
            strs4("-quality", "quality", "-profile:v", "main"))),
        av1: Some(encoder(GpuType::AmdAmf, "av1_amf", "av1", "qp_i", 0, 63,
            strs2("-quality", "quality"))),
        h264: Some(encoder(GpuType::AmdAmf, "h264_amf", "h264", "qp_i", 0, 51,
            strs4("-quality", "quality", "-profile:v", "high"))),
    }
}

/// VA-API encoders (Linux) on the given device; quantizer `qp`.
pub fn vaapi_candidates(device: &'static str) -> (r: EncoderCandidates)
    ensures
        r.hevc matches Some(e) && is_encoder(e, GpuType::Vaapi, "hevc_vaapi"@, "hevc"@, "qp"@, 0,
            52, seq!["-vaapi_device"@, device@, "-profile:v"@, "main"@]),
        r.av1 matches Some(e) && is_encoder(e, GpuType::Vaapi, "av1_vaapi"@, "av1"@, "qp"@, 0, 63,
            seq!["-vaapi_device"@, device@]),
        r.h264 matches Some(e) && is_encoder(e, GpuType::Vaapi, "h264_vaapi"@, "h264"@, "qp"@, 0,
            52, seq!["-vaapi_device"@, device@, "-profile:v"@, "high"@]),
{
    EncoderCandidates {
        hevc: Some(encoder(GpuType::Vaapi, "hevc_vaapi", "hevc", "qp", 0, 52,
            strs4("-vaapi_device", device, "-profile:v", "main"))),
        av1: Some(encoder(GpuType::Vaapi, "av1_vaapi", "av1", "qp", 0, 63,
            strs2("-vaapi_device", device))),
        h264: Some(encoder(GpuType::Vaapi, "h264_vaapi", "h264", "qp", 0, 52,
            strs4("-vaapi_device", device, "-profile:v", "high"))),
    }
}

/// Some line of ffmpeg's encoder list names the encoder.
pub open spec fn listed(encoders: Seq<Seq<char>>, name: Seq<char>) -> bool {
    exists|i: int| 0 <= i < encoders.len() && contains_seq(#[trigger] encoders[i], name)
}

/// Whether ffmpeg's encoder list mentions `name`.
pub fn encoder_listed(encoders: &Vec<String>, name: &str) -> (r: bool)
    ensures
        r == listed(encoders.deep_view(), name@),
{
    let mut i: usize = 0;
    while i < encoders.len()
        invariant
            i <= encoders@.len(),
            forall|j: int| 0 <= j < i ==> !contains_seq(#[trigger] encoders.deep_view()[j], name@),
        decreases encoders@.len() - i,
    {
        if str_contains(encoders[i].as_str(), name) {
            assert(contains_seq(encoders.deep_view()[i as int], name@));
            return true;
        }
        i = i + 1;
    }
    false
}

/// `s` starts with `p`.
pub open spec fn starts_with(s: Seq<char>, p: Seq<char>) -> bool {
    p.len() <= s.len() && s.subrange(0, p.len() as int) == p
}

/// The lines of `ffmpeg -encoders` output that describe video encoders (they
/// start with " V"), in order.
pub open spec fn video_lines(ls: Seq<Seq<char>>) -> Seq<Seq<char>>
    decreases ls.len(),
{
    if ls.len() == 0 {
        Seq::empty()
    } else {
        video_lines(ls.drop_last()) + if starts_with(ls.last(), " V"@) {
            seq![ls.last()]
        } else {
            Seq::empty()
        }
    }
}

/// The video-encoder lines of `ffmpeg -encoders` output.
pub fn video_encoder_lines(stdout: &str) -> (r: Vec<String>)
    ensures
        r.deep_view() == video_lines(spec_lines(stdout@)),
{
    let ls = lines_of(stdout);
    let mut out: Vec<String> = Vec::new();
    let mut i: usize = 0;
    assert(out.deep_view() =~= video_lines(ls.deep_view().take(0)));
    while i < ls.len()
        invariant
            i <= ls@.len(),
            out.deep_view() == video_lines(ls.deep_view().take(i as int)),
        decreases ls@.len() - i,
    {
        assert(ls.deep_view().take(i + 1).drop_last() =~= ls.deep_view().take(i as int));
        let ghost before = out.deep_view();
        if str_starts_with(ls[i].as_str(), " V") {
            out.push(ls[i].clone());
            assert(out.deep_view() =~= before.push(ls.deep_view()[i as int]));
        }
        assert(out.deep_view() =~= video_lines(ls.deep_view().take(i + 1)));
        i = i + 1;
    }
    assert(ls.deep_view().take(i as int) =~= ls.deep_view());
    out
}

/// The non-empty trimmed lines of `ls`, in order.
pub open spec fn trimmed_lines(ls: Seq<Seq<char>>) -> Seq<Seq<char>>
    decreases ls.len(),
{
    if ls.len() == 0 {
        Seq::empty()
    } else {
        let t = trim(ls.last());
        trimmed_lines(ls.drop_last()) + if t.len() > 0 {
            seq![t]
        } else {
            Seq::empty()
        }
    }
}

/// A line that names the cause of an encoder failure.
pub open spec fn is_diagnostic(l: Seq<char>) -> bool {
    contains_seq(l, "Cannot create compression session"@) || contains_seq(l, "permission"@)
        || contains_seq(l, "not supported"@) || contains_seq(l, "Device"@) || contains_seq(
        l,
        "No device"@,
    ) || contains_seq(l, "Try -allow_sw 1"@) || contains_seq(l, "Invalid argument"@)
}

/// A line that is more than ffmpeg's generic failure boilerplate.
pub open spec fn is_informative(l: Seq<char>) -> bool {
    l != "Conversion failed!"@ && l != "unknown"@ && l != "Error initializing output stream 0:0 --"@
        && l != "At least one output file must be specified"@ && !contains_seq(
        l,
        "Nothing was written into output file"@,
    ) && !contains_seq(l, "Error while opening encoder"@)
}

/// The first diagnostic line.
pub open spec fn first_diagnostic(ls: Seq<Seq<char>>) -> Option<Seq<char>>
    decreases ls.len(),
{
    if ls.len() == 0 {
        None
    } else if is_diagnostic(ls[0]) {
        Some(ls[0])
    } else {
        first_diagnostic(ls.drop_first())
    }
}

/// The last informative line.
pub open spec fn last_informative(ls: Seq<Seq<char>>) -> Option<Seq<char>>
    decreases ls.len(),
{
    if ls.len() == 0 {
        None
    } else if is_informative(ls.last()) {
        Some(ls.last())
    } else {
        last_informative(ls.drop_last())
    }
}

/// The one-line summary of ffmpeg failure output: the first line naming a cause,
/// else the last line beyond the generic boilerplate, else the last line, else
/// "unknown ffmpeg error" (lines are trimmed; empty ones are ignored).
pub open spec fn failure_summary(text: Seq<char>) -> Seq<char> {
    let ls = trimmed_lines(spec_lines(text));
    match first_diagnostic(ls) {
        Some(l) => l,
        None => match last_informative(ls) {
            Some(l) => l,
            None => if ls.len() > 0 {
                ls.last()
            } else {
                "unknown ffmpeg error"@
            },
        },
    }
}

fn diagnostic(l: &str) -> (r: bool)
    ensures
        r == is_diagnostic(l@),
{
    str_contains(l, "Cannot create compression session") || str_contains(l, "permission")
        || str_contains(l, "not supported") || str_contains(l, "Device") || str_contains(
        l,
        "No device",
    ) || str_contains(l, "Try -allow_sw 1") || str_contains(l, "Invalid argument")
}

fn informative(l: &str) -> (r: bool)
    ensures
        r == is_informative(l@),
{
    !str_eq(l, "Conversion failed!") && !str_eq(l, "unknown") && !str_eq(
        l,
        "Error initializing output stream 0:0 --",
    ) && !str_eq(l, "At least one output file must be specified") && !str_contains(
        l,
        "Nothing was written into output file",
    ) && !str_contains(l, "Error while opening encoder")
}

fn nonempty_trimmed_lines(text: &str) -> (r: Vec<String>)
    ensures
        r.deep_view() == trimmed_lines(spec_lines(text@)),
{
    let ls = lines_of(text);
    let mut out: Vec<String> = Vec::new();
    let mut i: usize = 0;
    assert(out.deep_view() =~= trimmed_lines(ls.deep_view().take(0)));
    while i < ls.len()
        invariant
            i <= ls@.len(),
            out.deep_view() == trimmed_lines(ls.deep_view().take(i as int)),
        decreases ls@.len() - i,
    {
        assert(ls.deep_view().take(i + 1).drop_last() =~= ls.deep_view().take(i as int));
        let t = trim_string(ls[i].as_str());
        let ghost before = out.deep_view();
        if t.as_str().unicode_len() > 0 {
            let ghost tv = t@;
            out.push(t);
            assert(out.deep_view() =~= before.push(tv));
        }
        assert(out.deep_view() =~= trimmed_lines(ls.deep_view().take(i + 1)));
        i = i + 1;
    }
    assert(ls.deep_view().take(i as int) =~= ls.deep_view());
    out
}

/// Summarize ffmpeg failure output in one line (see `failure_summary`).
pub fn summarize_ffmpeg_failure_line(text: &str) -> (r: String)
    ensures
        r@ == failure_summary(text@),
{
    let ls = nonempty_trimmed_lines(text);
    let ghost v = ls.deep_view();
    let mut i: usize = 0;
    assert(v.skip(0) =~= v);
    while i < ls.len()
        invariant
            i <= v.len(),
            v == ls.deep_view(),
            v == trimmed_lines(spec_lines(text@)),
            first_diagnostic(v) == first_diagnostic(v.skip(i as int)),
        decreases v.len() - i,
    {
        assert(v.skip(i as int)[0] == v[i as int]);
        assert(v.skip(i as int).drop_first() =~= v.skip(i + 1));
        if diagnostic(ls[i].as_str()) {
            let line = ls[i].clone();
            assert(first_diagnostic(v.skip(i as int)) == Some(v[i as int]));
            assert(line@ == v[i as int]);
            return line;
        }
        i = i + 1;
    }
    assert(v.skip(i as int) =~= Seq::<Seq<char>>::empty());
    let mut j: usize = ls.len();
    while j > 0
        invariant
            j <= v.len(),
            v == ls.deep_view(),
            v == trimmed_lines(spec_lines(text@)),
            first_diagnostic(v) is None,
            last_informative(v) == last_informative(v.take(j as int)),
        decreases j,
    {
        assert(v.take(j as int).last() == v[j - 1]);
        assert(v.take(j as int).drop_last() =~= v.take(j - 1));
        if informative(ls[j - 1].as_str()) {
            let line = ls[j - 1].clone();
            assert(last_informative(v.take(j as int)) == Some(v[j - 1]));
            assert(line@ == v[j - 1]);
            return line;
        }
        j = j - 1;
    }
    assert(v.take(0) =~= Seq::<Seq<char>>::empty());
    if ls.len() > 0 {
        ls[ls.len() - 1].clone()
    } else {
        String::from_str("unknown ffmpeg error")
    }
}

/// The summary of a failed ffmpeg run: that of its error output, or of its
/// standard output when the error output tells nothing.
pub open spec fn output_failure_summary(stdout: Seq<u8>, stderr: Seq<u8>) -> Seq<char> {
    let e = failure_summary(utf8_lossy(stderr));
    if e == "unknown ffmpeg error"@ {
        failure_summary(utf8_lossy(stdout))
    } else {
        e
    }
}

/// Summarize a failed ffmpeg run from its raw output (see `output_failure_summary`).
pub fn summarize_ffmpeg_failure_output(stdout: &[u8], stderr: &[u8]) -> (r: String)
    ensures
        r@ == output_failure_summary(stdout@, stderr@),
{
    let err_text = from_utf8_lossy(stderr);
    let out_text = from_utf8_lossy(stdout);
    let summary = summarize_ffmpeg_failure_line(err_text.as_str());
    if str_eq(summary.as_str(), "unknown ffmpeg error") {
        summarize_ffmpeg_failure_line(out_text.as_str())
    } else {
        summary
    }
}

proof fn lemma_trimmed_lines_nonempty(ls: Seq<Seq<char>>)
    ensures
        forall|i: int| 0 <= i < trimmed_lines(ls).len() ==> #[trigger] trimmed_lines(ls)[i].len() > 0,
    decreases ls.len(),
{
    if ls.len() > 0 {
        lemma_trimmed_lines_nonempty(ls.drop_last());
        let t = trim(ls.last());
        let prev = trimmed_lines(ls.drop_last());
        if t.len() > 0 {
            assert forall|i: int| 0 <= i < trimmed_lines(ls).len() implies #[trigger] trimmed_lines(ls)[i].len() > 0 by {
                if i < prev.len() {
                    assert(trimmed_lines(ls)[i] == prev[i]);
                }
            }
        } else {
            assert(trimmed_lines(ls) =~= prev);
        }
    }
}

proof fn lemma_first_diagnostic_nonempty(ls: Seq<Seq<char>>)
    requires
        forall|i: int| 0 <= i < ls.len() ==> #[trigger] ls[i].len() > 0,
    ensures
        first_diagnostic(ls) matches Some(l) ==> l.len() > 0,
    decreases ls.len(),
{
    if ls.len() > 0 && !is_diagnostic(ls[0]) {
        let rest = ls.drop_first();
        assert forall|i: int| 0 <= i < rest.len() implies #[trigger] rest[i].len() > 0 by {
            assert(rest[i] == ls[i + 1]);
        }
        lemma_first_diagnostic_nonempty(rest);
    }
}

proof fn lemma_last_informative_nonempty(ls: Seq<Seq<char>>)
    requires
        forall|i: int| 0 <= i < ls.len() ==> #[trigger] ls[i].len() > 0,
    ensures
        last_informative(ls) matches Some(l) ==> l.len() > 0,
    decreases ls.len(),
{
    if ls.len() > 0 && !is_informative(ls.last()) {
        let rest = ls.drop_last();
        assert forall|i: int| 0 <= i < rest.len() implies #[trigger] rest[i].len() > 0 by {
            assert(rest[i] == ls[i]);
        }
        lemma_last_informative_nonempty(rest);
    }
}

/// The failure summary is never empty.
pub proof fn law_failure_summary_nonempty(text: Seq<char>)
    ensures
        failure_summary(text).len() > 0,
{
    let ls = trimmed_lines(spec_lines(text));
    lemma_trimmed_lines_nonempty(spec_lines(text));
    lemma_first_diagnostic_nonempty(ls);
    lemma_last_informative_nonempty(ls);
    reveal_strlit("unknown ffmpeg error");
    if ls.len() > 0 {
        assert(ls.last() == ls[ls.len() - 1]);
    }
}

} // verus!
