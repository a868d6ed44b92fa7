use shared_utils::ffprobe::{
    parse_probe_format_fields, extract_audio_stream_fields, extract_subtitle_stream_fields, SideStreamFields,
    frame_count_from_output, frame_types, hdr_info_from_side_data, loop_count_from_tag,
    max_b_frames_from, packet_sizes, parse_required_u32_field, pix_fmt_or_unknown,
    select_video_stream, video_stream_fields, FFprobeError, StreamSummary,
};
use shared_utils::ffprobe_json::{MasteringDisplay, SideDataEntry};

fn video(width: u64, height: u64, nb_frames: Option<&str>) -> StreamSummary {
    StreamSummary {
        is_video: true,
        width: Some(width),
        height: Some(height),
        nb_frames: nb_frames.map(|s| s.to_string()),
        index: None,
    }
}

#[test]
fn test_extract_frame_types() {
    let types = frame_types(&vec!["I".to_string(), "P".to_string(), "B".to_string(), "I".to_string()]);
    assert_eq!(types, vec!['I', 'P', 'B', 'I']);
}

#[test]
fn test_extract_pkt_sizes() {
    let sizes = packet_sizes(&vec!["1024".to_string(), "2048".to_string(), "512".to_string()]);
    assert_eq!(sizes, vec![1024, 2048, 512]);
}

#[test]
fn test_extract_loop_count() {
    assert_eq!(loop_count_from_tag(Some("5")), Some(5));
    assert_eq!(loop_count_from_tag(None), None);
}

#[test]
fn select_video_stream_zero_dimensions_does_not_panic() {
    let streams = vec![video(0, 0, Some("1"))];
    let result = select_video_stream(&streams);
    assert!(result.is_ok(), "select_video_stream must not panic with 0x0 stream: {result:?}");
}

#[test]
fn select_video_stream_absent_nb_frames_does_not_panic() {
    let streams = vec![video(1920, 1080, None)];
    let result = select_video_stream(&streams);
    assert!(result.is_ok(), "absent nb_frames must not panic: {result:?}");
}

#[test]
fn dolby_vision_profile_overflow_does_not_panic() {
    let entries = vec![SideDataEntry {
        side_data_type: Some("DOVI configuration record".to_string()),
        mastering: None,
        max_content: None,
        max_average: None,
        dv_profile: Some(9999),
        dv_bl_signal_compatibility_id: Some(0),
    }];
    let info = hdr_info_from_side_data(&entries);
    assert!(info.is_dolby_vision());
    assert_eq!(info.dv_profile(), None);
    assert_eq!(info.dv_bl_signal_compatibility_id(), Some(0));
}

#[test]
fn test_webp_missing_metadata_flow() {
    let streams = vec![video(0, 0, None)];
    let result = select_video_stream(&streams);
    assert!(
        result.is_ok(),
        "select_video_stream must fallback to picking the stream even if dimensions are 0"
    );
    let (idx, pos) = result.expect("select_video_stream should succeed in test");
    assert_eq!(idx, 0);
    assert_eq!(pos, 0);
}

#[test]
fn select_video_stream_ranking() {
    let audio = StreamSummary { is_video: false, width: None, height: None, nb_frames: None, index: Some(0) };
    let mut cover = video(0, 0, Some("9999"));
    cover.index = Some(7);
    let mut main = video(1920, 1080, Some("100"));
    main.index = Some(2);
    let mut tie = video(1280, 720, Some("100"));
    tie.index = Some(3);
    let streams = vec![audio.clone(), cover, main, tie];
    assert_eq!(select_video_stream(&streams).ok(), Some((3, 3)));
    match select_video_stream(&vec![audio]) {
        Err(FFprobeError::ParseError(m)) => assert_eq!(m, "No video stream found"),
        other => panic!("unexpected {other:?}"),
    }
}

#[test]
fn ffprobe_side_data_last_entry_wins() {
    let md = |x: u64| SideDataEntry {
        side_data_type: Some("Mastering display metadata".to_string()),
        mastering: Some(MasteringDisplay {
            green_x: x,
            green_y: 1,
            blue_x: 2,
            blue_y: 3,
            red_x: 4,
            red_y: 5,
            white_x: 6,
            white_y: 7,
            max_luminance: 8,
            min_luminance: 9,
        }),
        max_content: None,
        max_average: None,
        dv_profile: None,
        dv_bl_signal_compatibility_id: None,
    };
    let info = hdr_info_from_side_data(&vec![md(10), md(20)]);
    assert_eq!(info.mastering_display.as_deref(), Some("G(20,1)B(2,3)R(4,5)WP(6,7)L(8,9)"));
    assert!(info.is_hdr());
}

#[test]
fn ffprobe_field_helpers() {
    assert_eq!(parse_required_u32_field("width", None, Some(640)).ok(), Some(640));
    match parse_required_u32_field("refs", None, Some(3)) {
        Err(FFprobeError::ParseError(m)) => assert_eq!(m, "Missing refs"),
        other => panic!("unexpected {other:?}"),
    }
    match parse_required_u32_field("height", Some(5_000_000_000), None) {
        Err(FFprobeError::ParseError(m)) => assert_eq!(m, "Invalid height: 5000000000"),
        other => panic!("unexpected {other:?}"),
    }
    assert_eq!(frame_count_from_output("  120\n"), Some(120));
    assert_eq!(frame_count_from_output("N/A\n"), None);
    assert_eq!(frame_count_from_output("+7"), Some(7));
    assert_eq!(frame_count_from_output("18446744073709551616"), None);
    assert_eq!(max_b_frames_from(Some(-3)), Some(0));
    assert_eq!(max_b_frames_from(Some(1000)), Some(255));
    assert_eq!(max_b_frames_from(Some(2)), Some(2));
    assert_eq!(pix_fmt_or_unknown(Some("  ")), "unknown");
    assert_eq!(pix_fmt_or_unknown(Some("yuv420p")), "yuv420p");
    assert_eq!(pix_fmt_or_unknown(None), "unknown");
}

#[test]
fn ffprobe_audio_and_subtitle_streams() {
    let mk = |t: &str, codec: &str| SideStreamFields {
        codec_type: Some(t.to_string()),
        codec_name: Some(codec.to_string()),
        bit_rate: Some("128000".to_string()),
        sample_rate: Some("48000".to_string()),
        channels: Some(2),
    };
    let streams = vec![mk("video", "h264"), mk("audio", "aac"), mk("audio", "opus"), mk("subtitle", "mov_text")];
    let audio = extract_audio_stream_fields(&streams);
    assert!(audio.present);
    assert_eq!(audio.codec.as_deref(), Some("aac"));
    assert_eq!(audio.bit_rate, Some(128000));
    assert_eq!(audio.sample_rate, Some(48000));
    assert_eq!(audio.channels, Some(2));
    let subs = extract_subtitle_stream_fields(&streams);
    assert!(subs.present);
    assert_eq!(subs.codec.as_deref(), Some("mov_text"));
    let none = extract_audio_stream_fields(&vec![mk("video", "hevc")]);
    assert!(!none.present);
    assert_eq!(none.codec, None);
    let mut odd = mk("audio", "pcm");
    odd.sample_rate = Some("99999999999".to_string());
    odd.channels = Some(1 << 40);
    let a = extract_audio_stream_fields(&vec![odd]);
    assert_eq!(a.sample_rate, None);
    assert_eq!(a.channels, None);
}

#[test]
fn parse_probe_format_absent_bit_rate_returns_ok() {
    let result = parse_probe_format_fields(Some("webp_pipe"), Some("204800"), None);
    assert!(result.is_ok(), "parse_probe_format must not panic when bit_rate is absent: {result:?}");
    let info = result.expect("parse_probe_format should succeed in test");
    assert!(info.bit_rate.is_none(), "bit_rate should be None when absent from format section");
    assert_eq!(info.size, 204800);
    assert_eq!(info.format_name, "webp_pipe");
}

#[test]
fn parse_probe_format_null_bit_rate_returns_none() {
    let result = parse_probe_format_fields(Some("avif"), Some("512000"), None);
    assert!(result.is_ok());
    assert!(result.expect("parse_probe_format should succeed in test").bit_rate.is_none());
}

#[test]
fn parse_probe_format_required_fields() {
    match parse_probe_format_fields(None, Some("1"), None) {
        Err(FFprobeError::ParseError(m)) => assert_eq!(m, "Missing format_name"),
        other => panic!("unexpected {other:?}"),
    }
    match parse_probe_format_fields(Some("mov"), Some("12x"), None) {
        Err(FFprobeError::ParseError(m)) => assert_eq!(m, "Missing or invalid file size"),
        other => panic!("unexpected {other:?}"),
    }
    let ok = parse_probe_format_fields(Some("mov"), Some("12"), Some("800000")).expect("valid format");
    assert_eq!(ok.bit_rate, Some(800000));
}

#[test]
fn video_stream_fields_keep_native_webp_frames_and_reject_zero_sizes() {
    let f = video_stream_fields(Some("webp"), Some(320), None, Some(240), None, None, Some(1), Some(12), Some("yuv420p"), Some(3))
        .expect("valid stream");
    assert_eq!((f.video_codec.as_str(), f.width, f.height), ("webp", 320, 240));
    assert_eq!(f.frame_count, Some(12));
    assert_eq!(f.pix_fmt, "yuv420p");
    assert_eq!(f.bit_depth, Some(8));
    assert_eq!(f.max_b_frames, Some(3));
    let g = video_stream_fields(Some("hevc"), Some(0), None, None, Some(0), Some((640, 360)), Some(5), Some(1), None, None)
        .expect("fallback size");
    assert_eq!((g.width, g.height, g.frame_count), (640, 360, Some(5)));
    assert_eq!(g.pix_fmt, "unknown");
    assert_eq!(g.bit_depth, None);
    match video_stream_fields(Some("h264"), Some(0), None, Some(1080), None, None, None, None, None, None) {
        Err(FFprobeError::ParseError(m)) => assert_eq!(m, "Invalid dimensions: 0x1080"),
        other => panic!("unexpected {other:?}"),
    }
    match video_stream_fields(None, None, None, None, None, None, None, None, None, None) {
        Err(FFprobeError::ParseError(m)) => assert_eq!(m, "Missing video codec name"),
        other => panic!("unexpected {other:?}"),
    }
    match video_stream_fields(Some("av1"), None, Some(64), None, None, None, None, None, None, None) {
        Err(FFprobeError::ParseError(m)) => assert_eq!(m, "Missing height"),
        other => panic!("unexpected {other:?}"),
    }
}

#[test]
fn parse_video_stream_fields_absent_has_b_frames_does_not_panic() {
    // The stream of a WebP probe: 640x480, yuva420p, no has_b_frames field.
    let result = video_stream_fields(
        Some("webp"),
        Some(640),
        None,
        Some(480),
        None,
        None,
        None,
        None,
        Some("yuva420p"),
        None,
    );
    assert!(result.is_ok(), "absent has_b_frames must not cause panic or Err: {result:?}");
    let fields = result.expect("video_stream_fields should succeed in test");
    assert!(fields.max_b_frames.is_none(), "absent has_b_frames should be None");
}
