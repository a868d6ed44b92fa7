use shared_utils::ffprobe::{bit_depth_of_lowercase, detect_bit_depth, DolbyVisionMetadata, FFprobeHdrInfo};

#[test]
fn test_detect_bit_depth() {
    let cases: &[(&str, u8)] = &[
        ("yuv420p", 8),
        ("yuv422p", 8),
        ("yuv444p", 8),
        ("rgb24", 8),
        ("bgr24", 8),
        ("nv12", 8),
    ];

    for (input, expected) in cases {
        assert_eq!(detect_bit_depth(input), Some(*expected), "detect_bit_depth({input:?})");
    }
}

#[test]
fn ffprobe_bit_depth_other_formats() {
    assert_eq!(detect_bit_depth(""), None);
    assert_eq!(detect_bit_depth("yuv420p10le"), Some(10));
    assert_eq!(detect_bit_depth("YUV420P12LE"), Some(12));
    assert_eq!(detect_bit_depth("rgb48le"), Some(16));
    assert_eq!(detect_bit_depth("p010le"), Some(10));
    assert_eq!(detect_bit_depth("nv21"), Some(8));
    assert_eq!(detect_bit_depth("pal"), None);
}

#[test]
fn ffprobe_hdr_info_accessors() {
    let none = FFprobeHdrInfo::default();
    assert!(!none.is_hdr());
    assert!(!none.is_dolby_vision());
    assert_eq!(none.dv_profile(), None);
    let dv = FFprobeHdrInfo {
        dolby_vision: Some(DolbyVisionMetadata { profile: Some(8), bl_signal_compatibility_id: Some(1) }),
        ..Default::default()
    };
    assert!(dv.is_hdr());
    assert!(dv.is_dolby_vision());
    assert_eq!(dv.dv_profile(), Some(8));
    assert_eq!(dv.dv_bl_signal_compatibility_id(), Some(1));
    let cll = FFprobeHdrInfo { max_cll: Some("1000,400".to_string()), ..Default::default() };
    assert!(cll.is_hdr());
}

#[test]
fn bit_depth_of_lowercase_names() {
    assert_eq!(bit_depth_of_lowercase("yuv420p10le"), Some(10));
    assert_eq!(bit_depth_of_lowercase("nv12"), Some(8));
    assert_eq!(bit_depth_of_lowercase("rgba64be"), Some(16));
    assert_eq!(bit_depth_of_lowercase("YUV420P"), None);
    assert_eq!(detect_bit_depth("YUV420P"), Some(8));
    assert_eq!(bit_depth_of_lowercase(""), None);
}
