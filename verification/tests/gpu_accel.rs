use shared_utils::gpu_accel::{
    build_sampling_vf_args, collect_vf_filters, probe_order, temp_extension_from, derive_gpu_temp_extension, encoder_listed,
    nvenc_candidates, should_refresh_probe, summarize_ffmpeg_failure_line,
    summarize_ffmpeg_failure_output, temp_extension_for, vaapi_candidates, video_encoder_lines,
    videotoolbox_candidates, GpuAccel, GpuEncoder, GpuType, GPU_NEGATIVE_CACHE_TTL_MS,
};

fn strings(v: &[&str]) -> Vec<String> {
    v.iter().map(|s| s.to_string()).collect()
}

#[test]
fn test_summarize_ffmpeg_failure_line_prefers_specific_diagnostic() {
    let stderr = "\
Error while opening encoder - maybe incorrect parameters\n\
[hevc_videotoolbox @ 0x123] Cannot create compression session: -12908\n\
Conversion failed!";
    assert_eq!(
        summarize_ffmpeg_failure_line(stderr),
        "[hevc_videotoolbox @ 0x123] Cannot create compression session: -12908"
    );
}

#[test]
fn test_negative_gpu_cache_refresh_policy() {
    assert!(
        should_refresh_probe(GpuAccel::default().enabled, GPU_NEGATIVE_CACHE_TTL_MS),
        "negative cache entries should refresh after the retry TTL"
    );
    let positive = GpuAccel {
        gpu_type: GpuType::Apple,
        hevc_encoder: None,
        av1_encoder: None,
        h264_encoder: Some(GpuEncoder {
            gpu_type: GpuType::Apple,
            name: "h264_videotoolbox",
            codec: "h264",
            supports_crf: true,
            crf_param: "q:v",
            crf_range: (0, 100),
            extra_args: vec![],
        }),
        enabled: true,
    };
    assert!(
        !should_refresh_probe(positive.enabled, GPU_NEGATIVE_CACHE_TTL_MS),
        "successful detections should not be re-probed by the negative-cache policy"
    );
    assert!(!should_refresh_probe(false, GPU_NEGATIVE_CACHE_TTL_MS - 1));
}

#[test]
fn gpu_failure_summary_fallbacks() {
    assert_eq!(summarize_ffmpeg_failure_line(""), "unknown ffmpeg error");
    assert_eq!(summarize_ffmpeg_failure_line("  \n\t\n"), "unknown ffmpeg error");
    assert_eq!(
        summarize_ffmpeg_failure_line("real cause here\r\nConversion failed!\n"),
        "real cause here"
    );
    assert_eq!(summarize_ffmpeg_failure_line("Conversion failed!\nunknown"), "unknown");
    assert_eq!(
        summarize_ffmpeg_failure_output(b"stdout says hi", b""),
        "stdout says hi"
    );
    assert_eq!(
        summarize_ffmpeg_failure_output(b"ignored", b"  Invalid argument  "),
        "Invalid argument"
    );
}

#[test]
fn gpu_accel_accessors() {
    let c = nvenc_candidates();
    let accel = GpuAccel::assemble(GpuType::Nvidia, c.hevc, None, c.h264).expect("some encoder");
    assert!(accel.is_available());
    assert_eq!(accel.get_hevc_encoder().map(|e| e.ffmpeg_name()), Some("hevc_nvenc"));
    assert!(accel.get_av1_encoder().is_none());
    assert_eq!(accel.description(), "NVIDIA NVENC (Hardware Accelerated)");
    let disabled = GpuAccel { enabled: false, ..accel.clone() };
    assert!(disabled.get_hevc_encoder().is_none());
    assert_eq!(disabled.description(), "CPU (Software Encoding)");
    assert!(GpuAccel::assemble(GpuType::Vaapi, None, None, None).is_none());
    assert_eq!(GpuType::Cpu.display_name(), "None (CPU)");
}

#[test]
fn gpu_encoder_catalogues() {
    let vt = videotoolbox_candidates();
    let hevc = vt.hevc.expect("hevc");
    assert_eq!(hevc.extra_args(), &["-profile:v", "main", "-tag:v", "hvc1"]);
    assert!(vt.av1.is_none());
    let va = vaapi_candidates("/dev/dri/renderD128");
    assert_eq!(va.av1.expect("av1").extra_args(), &["-vaapi_device", "/dev/dri/renderD128"]);
}

#[test]
fn gpu_encoder_listing() {
    let out = "Encoders:\n V....D hevc_nvenc  NVIDIA NVENC hevc encoder\n A....D aac  AAC\n V....D libx264  x264\n";
    let lines = video_encoder_lines(out);
    assert_eq!(lines.len(), 2);
    assert!(encoder_listed(&lines, "hevc_nvenc"));
    assert!(!encoder_listed(&lines, "aac"));
}

#[test]
fn gpu_vf_filters_and_temp_names() {
    let args = strings(&["-vf", "scale=640:-2", "-c:v", "libx265", "-vf", "", "-vf"]);
    assert_eq!(collect_vf_filters(&args), vec!["scale=640:-2"]);
    assert_eq!(
        build_sampling_vf_args(Some("select='between(t,0.0,15.0)'".to_string()), &args),
        vec!["-vf", "select='between(t,0.0,15.0)',scale=640:-2"]
    );
    assert_eq!(build_sampling_vf_args(None, &strings(&["-an"])), Vec::<String>::new());
    assert_eq!(derive_gpu_temp_extension("/tmp/out.mkv"), "gpu_temp.mkv");
    assert_eq!(derive_gpu_temp_extension("/tmp/out"), "gpu_temp.MP4");
    assert_eq!(temp_extension_for("a/b.mov", "warmup"), "warmup.mov");
}

#[test]
fn gpu_probe_order_and_temp_extension_parts() {
    assert_eq!(probe_order(true, false, false), vec![GpuType::Apple]);
    assert_eq!(
        probe_order(false, false, true),
        vec![GpuType::Nvidia, GpuType::IntelQsv, GpuType::Vaapi]
    );
    assert_eq!(
        probe_order(false, true, false),
        vec![GpuType::Nvidia, GpuType::IntelQsv, GpuType::AmdAmf]
    );
    assert_eq!(temp_extension_from(Some("mkv".to_string()), "gpu_temp"), "gpu_temp.mkv");
    assert_eq!(temp_extension_from(None, "cpu_temp"), "cpu_temp.MP4");
    assert_eq!(temp_extension_for("out/video", "gpu_temp"), "gpu_temp.MP4");
    assert_eq!(temp_extension_for("out/.hidden", "gpu_temp"), "gpu_temp.MP4");
    assert_eq!(temp_extension_for("out/a.b.webm", "gpu_temp"), "gpu_temp.webm");
}
