use shared_utils::ffprobe_json::ColorInfo;
use shared_utils::hdr_utils::{
    color_info_to_cicp, color_info_to_ffmpeg_args, color_info_to_x265_hdr_params,
    dv_x265_profile_string, get_hdr_pix_fmt, hdr10plus_retry_on_lowercase, hdr10plus_should_retry, infer_bt709_if_modern,
    rpu_needs_profile81_conversion, should_use_hdr_decode,
};

#[test]
fn hdr_utils_test_cicp_hdr10() {
    let info = ColorInfo {
        color_primaries: Some("bt2020".to_string()),
        color_transfer: Some("smpte2084".to_string()),
        color_space: Some("bt2020nc".to_string()),
        ..Default::default()
    };
    assert_eq!(color_info_to_cicp(&info), Some("9-16-9".to_string()));
}

#[test]
fn hdr_utils_test_cicp_hlg() {
    let info = ColorInfo {
        color_primaries: Some("bt2020".to_string()),
        color_transfer: Some("arib-std-b67".to_string()),
        color_space: Some("bt2020nc".to_string()),
        ..Default::default()
    };
    assert_eq!(color_info_to_cicp(&info), Some("9-18-9".to_string()));
}

#[test]
fn hdr_utils_test_cicp_sdr() {
    let info = ColorInfo {
        color_primaries: Some("bt709".to_string()),
        color_transfer: Some("bt709".to_string()),
        color_space: Some("bt709".to_string()),
        ..Default::default()
    };
    assert_eq!(color_info_to_cicp(&info), Some("1-1-1".to_string()));
}

#[test]
fn hdr_utils_test_cicp_no_metadata() {
    let info = ColorInfo::default();
    assert_eq!(color_info_to_cicp(&info), None);
}

#[test]
fn hdr_utils_test_ffmpeg_args() {
    let info = ColorInfo {
        color_primaries: Some("bt2020".to_string()),
        color_transfer: Some("smpte2084".to_string()),
        color_space: Some("bt2020nc".to_string()),
        ..Default::default()
    };
    let args = color_info_to_ffmpeg_args(&info);
    assert_eq!(
        args,
        vec!["-colorspace", "bt2020nc", "-color_trc", "smpte2084", "-color_primaries", "bt2020"]
    );
}

#[test]
fn hdr_utils_test_should_use_hdr_decode() {
    let hdr_info = ColorInfo {
        color_transfer: Some("smpte2084".to_string()),
        bit_depth: Some(10),
        ..Default::default()
    };
    assert!(should_use_hdr_decode(&hdr_info));

    let sdr_info = ColorInfo { bit_depth: Some(8), ..Default::default() };
    assert!(!should_use_hdr_decode(&sdr_info));
}

#[test]
fn hdr_utils_test_get_hdr_pix_fmt() {
    let hdr_info = ColorInfo { bit_depth: Some(10), ..Default::default() };
    assert_eq!(get_hdr_pix_fmt(&hdr_info), "rgb48le");

    let sdr_info = ColorInfo { bit_depth: Some(8), ..Default::default() };
    assert_eq!(get_hdr_pix_fmt(&sdr_info), "rgb24");
}

#[test]
fn hdr_utils_cicp_inferences() {
    // Untagged primaries with PQ transfer: BT.2020 primaries and matrix.
    let info = ColorInfo { color_transfer: Some("smpte2084".to_string()), ..Default::default() };
    assert_eq!(color_info_to_cicp(&info), Some("9-16-9".to_string()));
    // Display P3 with sRGB transfer: identity matrix.
    let info = ColorInfo {
        color_primaries: Some("display-p3".to_string()),
        color_transfer: Some("iec61966-2-1".to_string()),
        ..Default::default()
    };
    assert_eq!(color_info_to_cicp(&info), Some("12-13-0".to_string()));
    // BT.2020 without transfer: PQ assumed.
    let info = ColorInfo { color_primaries: Some("bt2020".to_string()), ..Default::default() };
    assert_eq!(color_info_to_cicp(&info), Some("9-16-9".to_string()));
    // BT.709 primaries, unknown transfer: none.
    let info = ColorInfo { color_primaries: Some("bt709".to_string()), ..Default::default() };
    assert_eq!(color_info_to_cicp(&info), None);
}

#[test]
fn hdr_utils_x265_params() {
    let info = ColorInfo {
        color_primaries: Some("bt2020".to_string()),
        color_transfer: Some("smpte2084".to_string()),
        color_space: Some("bt2020nc".to_string()),
        max_cll: Some("1000,400".to_string()),
        ..Default::default()
    };
    assert_eq!(
        color_info_to_x265_hdr_params(&info),
        Some("colorprim=9:transfer=16:colormatrix=9:max-cll=1000,400".to_string())
    );
    let sdr = ColorInfo { color_primaries: Some("bt709".to_string()), ..Default::default() };
    assert_eq!(color_info_to_x265_hdr_params(&sdr), None);
    let dv_only = ColorInfo { is_dolby_vision: true, ..Default::default() };
    assert_eq!(color_info_to_x265_hdr_params(&dv_only), None);
}

#[test]
fn hdr_utils_infer_bt709() {
    let out = infer_bt709_if_modern(ColorInfo::default(), 1920, 1080, "png");
    assert_eq!(out.color_space.as_deref(), Some("bt709"));
    assert_eq!(out.color_transfer.as_deref(), Some("iec61966-2-1"));
    assert_eq!(out.color_primaries.as_deref(), Some("bt709"));
    let small = infer_bt709_if_modern(ColorInfo::default(), 640, 480, "png");
    assert_eq!(small.color_space, None);
    let modern = infer_bt709_if_modern(ColorInfo::default(), 640, 480, "AVIF");
    assert_eq!(modern.color_primaries.as_deref(), Some("bt709"));
    let hdr = ColorInfo { color_space: Some("bt2020nc".to_string()), ..Default::default() };
    let kept = infer_bt709_if_modern(hdr, 3840, 2160, "heic");
    assert_eq!(kept.color_transfer, None);
    let dv = infer_bt709_if_modern(
        ColorInfo { is_dolby_vision: true, ..Default::default() },
        1920,
        1080,
        "mp4",
    );
    assert_eq!(dv.color_space, None);
    assert_eq!(dv.color_transfer, None);
    assert_eq!(dv.color_primaries, None);
    let hdr10_plus = infer_bt709_if_modern(
        ColorInfo { is_hdr10_plus: true, ..Default::default() },
        640,
        480,
        "avif",
    );
    assert_eq!(hdr10_plus.color_primaries, None);
    let twice = infer_bt709_if_modern(out.clone(), 1920, 1080, "png");
    assert_eq!(twice.color_space, out.color_space);
}

#[test]
fn hdr_utils_dv_and_tool_decisions() {
    assert_eq!(dv_x265_profile_string(Some(5), None), Some("5.0".to_string()));
    assert_eq!(dv_x265_profile_string(Some(7), Some(6)), Some("8.1".to_string()));
    assert_eq!(dv_x265_profile_string(Some(8), None), Some("8.1".to_string()));
    assert_eq!(dv_x265_profile_string(Some(8), Some(4)), Some("8.4".to_string()));
    assert_eq!(dv_x265_profile_string(Some(9), Some(4)), None);
    assert_eq!(dv_x265_profile_string(None, None), None);
    assert!(rpu_needs_profile81_conversion(Some(7)));
    assert!(!rpu_needs_profile81_conversion(Some(8)));
    assert!(hdr10plus_should_retry("Error: Invalid metadata block"));
    assert!(!hdr10plus_should_retry("error: file not found"));
}

#[test]
fn hdr_utils_hdr10plus_retry_on_lowercase_text() {
    assert!(hdr10plus_retry_on_lowercase("error: invalid metadata"));
    assert!(!hdr10plus_retry_on_lowercase("ERROR: INVALID METADATA"));
    assert!(hdr10plus_should_retry("ERROR: INVALID METADATA"));
    assert!(!hdr10plus_retry_on_lowercase("error: file not found"));
}
