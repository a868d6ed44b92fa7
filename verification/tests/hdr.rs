use shared_utils::ffprobe_json::ColorInfo;
use shared_utils::hdr::{
    color_info_to_cicp, color_info_to_ffmpeg_args, get_hdr_pix_fmt, infer_bt709_if_modern,
    is_display_p3, read_native_u16_word, should_use_hdr_decode, HdrIntermediateFormat,
};

#[test]
fn hdr_test_cicp_hdr10() {
    let info = ColorInfo {
        color_primaries: Some("bt2020".to_string()),
        color_transfer: Some("smpte2084".to_string()),
        color_space: Some("bt2020nc".to_string()),
        ..Default::default()
    };
    assert_eq!(color_info_to_cicp(&info), Some("9-16-9".to_string()));
}

#[test]
fn hdr_test_cicp_hlg() {
    let info = ColorInfo {
        color_primaries: Some("bt2020".to_string()),
        color_transfer: Some("arib-std-b67".to_string()),
        color_space: Some("bt2020nc".to_string()),
        ..Default::default()
    };
    assert_eq!(color_info_to_cicp(&info), Some("9-18-9".to_string()));
}

#[test]
fn hdr_test_cicp_sdr() {
    let info = ColorInfo {
        color_primaries: Some("bt709".to_string()),
        color_transfer: Some("bt709".to_string()),
        color_space: Some("bt709".to_string()),
        ..Default::default()
    };
    assert_eq!(color_info_to_cicp(&info), Some("1-1-1".to_string()));
}

#[test]
fn hdr_test_cicp_no_metadata() {
    let info = ColorInfo::default();
    assert_eq!(color_info_to_cicp(&info), None);
}

#[test]
fn hdr_test_ffmpeg_args() {
    let info = ColorInfo {
        color_primaries: Some("bt2020".to_string()),
        color_transfer: Some("smpte2084".to_string()),
        color_space: Some("bt2020nc".to_string()),
        ..Default::default()
    };
    let args = color_info_to_ffmpeg_args(&info);
    assert_eq!(
        args,
        vec!["-colorspace", "bt2020nc", "-color_trc", "smpte2084", "-color_primaries", "bt2020"]
    );
}

#[test]
fn hdr_test_should_use_hdr_decode() {
    let hdr_info = ColorInfo {
        color_transfer: Some("smpte2084".to_string()),
        bit_depth: Some(10),
        ..Default::default()
    };
    assert!(should_use_hdr_decode(&hdr_info));

    let sdr_info = ColorInfo { bit_depth: Some(8), ..Default::default() };
    assert!(!should_use_hdr_decode(&sdr_info));
}

#[test]
fn hdr_test_get_hdr_pix_fmt() {
    let hdr_info = ColorInfo { bit_depth: Some(10), ..Default::default() };
    assert_eq!(get_hdr_pix_fmt(&hdr_info), "rgb48le");

    let sdr_info = ColorInfo { bit_depth: Some(8), ..Default::default() };
    assert_eq!(get_hdr_pix_fmt(&sdr_info), "rgb24");
}

#[test]
fn hdr_cicp_differs_from_utils_on_hlg_without_primaries() {
    let info = ColorInfo { color_transfer: Some("arib-std-b67".to_string()), ..Default::default() };
    assert_eq!(color_info_to_cicp(&info), None);
    assert_eq!(shared_utils::hdr_utils::color_info_to_cicp(&info), Some("9-18-9".to_string()));
}

#[test]
fn hdr_infer_keeps_dolby_vision() {
    let dv = ColorInfo { is_dolby_vision: true, ..Default::default() };
    let kept = infer_bt709_if_modern(dv, 3840, 2160, "mp4");
    assert_eq!(kept.color_space, None);
    let filled = infer_bt709_if_modern(ColorInfo::default(), 100, 100, "Heic");
    assert_eq!(filled.color_space.as_deref(), Some("bt709"));
}

#[test]
fn hdr_intermediate_default_is_exr() {
    assert_eq!(HdrIntermediateFormat::default(), HdrIntermediateFormat::OpenExr32);
}

#[test]
fn hdr_display_p3_detection() {
    // nclx colr box: the code read is the 16-bit value at payload offset 8.
    let mut data = vec![0, 0, 0, 19, b'c', b'o', b'l', b'r', b'n', b'c', b'l', b'x'];
    data.extend_from_slice(&[0, 1, 0, 13, 0, 12, 0]);
    assert!(is_display_p3(&data));
    data[17] = 1;
    assert!(!is_display_p3(&data));
    assert!(is_display_p3(b"....Display P3...."));
    assert!(!is_display_p3(b"plain bytes"));
}

#[test]
fn hdr_native_word_read() {
    let data = [1u8, 2, 3, 4];
    let w = read_native_u16_word(&data, 1).expect("word 1 exists");
    assert!(w == 0x0403 || w == 0x0304);
    assert_eq!(read_native_u16_word(&data, 2), None);
    assert_eq!(read_native_u16_word(&data, usize::MAX), None);
}
