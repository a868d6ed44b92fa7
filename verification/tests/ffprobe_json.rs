use shared_utils::ffprobe_json::{
    color_info_from_probe, is_float_pix_fmt, needs_pattern_type_retry, ColorInfo, MasteringDisplay, ProbeStream,
    SideDataEntry,
};

#[test]
fn test_is_hdr_pq() {
    let ci = ColorInfo { color_transfer: Some("smpte2084".to_string()), ..Default::default() };
    assert!(ci.is_hdr());
}

#[test]
fn test_is_hdr_hlg() {
    let ci = ColorInfo { color_transfer: Some("arib-std-b67".to_string()), ..Default::default() };
    assert!(ci.is_hdr());
}

#[test]
fn test_not_hdr_sdr() {
    let ci = ColorInfo {
        color_space: Some("bt709".to_string()),
        color_transfer: Some("bt709".to_string()),
        ..Default::default()
    };
    assert!(!ci.is_hdr());
}

fn entry(kind: &str) -> SideDataEntry {
    SideDataEntry {
        side_data_type: Some(kind.to_string()),
        mastering: None,
        max_content: None,
        max_average: None,
        dv_profile: None,
        dv_bl_signal_compatibility_id: None,
    }
}

#[test]
fn color_info_from_probe_collects_side_data() {
    let mut md = entry("Mastering display metadata");
    md.mastering = Some(MasteringDisplay {
        green_x: 13250,
        green_y: 34500,
        blue_x: 7500,
        blue_y: 3000,
        red_x: 34000,
        red_y: 16000,
        white_x: 15635,
        white_y: 16450,
        max_luminance: 10000000,
        min_luminance: 50,
    });
    let mut cll = entry("Content light level metadata");
    cll.max_content = Some(1000);
    cll.max_average = Some(400);
    let mut cll2 = entry("Content light level metadata");
    cll2.max_content = Some(1);
    cll2.max_average = Some(2);
    let stream = ProbeStream {
        color_space: Some("bt2020nc".to_string()),
        color_transfer: Some("unknown".to_string()),
        color_primaries: Some("".to_string()),
        color_range: Some("tv".to_string()),
        pix_fmt: Some("yuv420p10le".to_string()),
        bits_per_raw_sample: Some("10".to_string()),
        side_data_list: vec![entry("DOVI configuration record"), md],
    };
    let frames = vec![vec![cll], vec![cll2, entry("HDR Dynamic Metadata SMPTE2094-40 (HDR10+)")]];
    let ci = color_info_from_probe(&stream, &frames);
    assert_eq!(ci.color_space.as_deref(), Some("bt2020nc"));
    assert_eq!(ci.color_transfer, None);
    assert_eq!(ci.color_primaries, None);
    assert_eq!(ci.color_range.as_deref(), Some("tv"));
    assert_eq!(ci.bit_depth, Some(10));
    assert!(ci.is_dolby_vision);
    assert!(ci.is_hdr10_plus);
    assert!(!ci.is_float);
    assert_eq!(
        ci.mastering_display.as_deref(),
        Some("G(13250,34500)B(7500,3000)R(34000,16000)WP(15635,16450)L(10000000,50)")
    );
    assert_eq!(ci.max_cll.as_deref(), Some("1000,400"));
    assert!(ci.is_hdr());
}

#[test]
fn color_info_bit_depth_and_float_formats() {
    let stream = ProbeStream {
        color_space: None,
        color_transfer: None,
        color_primaries: None,
        color_range: None,
        pix_fmt: Some("GBRPF32LE".to_string()),
        bits_per_raw_sample: Some("300".to_string()),
        side_data_list: vec![],
    };
    let ci = color_info_from_probe(&stream, &vec![]);
    assert_eq!(ci.bit_depth, None);
    assert!(ci.is_float);
    assert!(!ci.is_hdr());
    assert!(is_float_pix_fmt("rgbaf16le"));
    assert!(!is_float_pix_fmt("yuv420p16le"));
}

#[test]
fn ffprobe_pattern_type_retry_on_image2_pattern_failure() {
    assert!(needs_pattern_type_retry(
        "[image2 @ 0x1] Could find no file with path 'a[1].png' and index in the range 0-4"
    ));
    assert!(!needs_pattern_type_retry("a[1].png: No such file or directory"));
    assert!(!needs_pattern_type_retry("Could find no file with path 'x'"));
}
