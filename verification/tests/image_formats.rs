use shared_utils::image_formats::{gif, jpeg, jxl, png, tiff, webp};

fn padded(data: &[u8]) -> Vec<u8> {
    let mut buffer = vec![0u8; 4096];
    buffer[..data.len()].copy_from_slice(data);
    buffer
}

#[test]
fn test_jpeg_quality_with_real_data() {
    let jpeg_data: &[u8] = &[
        0xFF, 0xD8, 0xFF, 0xDB, 0x00, 0x43, 0x00, 0x02, 0x01, 0x01, 0x02, 0x01, 0x01, 0x02, 0x02,
        0x02, 0x02, 0x02, 0x02, 0x02, 0x02, 0x03, 0x05, 0x03, 0x03, 0x03, 0x03, 0x03, 0x06, 0x04,
        0x04, 0x03, 0x05, 0x07, 0x06, 0x07, 0x07, 0x07, 0x06, 0x07, 0x07, 0x08, 0x09, 0x0B, 0x09,
        0x08, 0x08, 0x0A, 0x08, 0x07, 0x07, 0x0A, 0x0D, 0x0A, 0x0A, 0x0B, 0x0C, 0x0C, 0x0C, 0x0C,
        0x07, 0x09, 0x0E, 0x0F, 0x0D, 0x0C, 0x0E, 0x0B, 0x0C, 0x0C, 0x0C,
    ];
    let quality = jpeg::estimate_quality_from_prefix(&padded(jpeg_data));
    assert!(quality >= 90, "Low quantization value should return high quality, actual: {quality}");

    let webp_lossless = b"RIFF\x1A\x00\x00\x00WEBPVP8L\x08\x00\x00\x00\x10\x10\x00\x00";
    assert!(webp::is_lossless_from_bytes(webp_lossless), "VP8L chunk should be detected as lossless");
}

#[test]
fn test_webp_lossy_detection() {
    let webp_lossy: Vec<u8> = {
        let mut data = b"RIFF".to_vec();
        data.extend_from_slice(&[0x00, 0x00, 0x00, 0x00]);
        data.extend_from_slice(b"WEBP");
        data.extend_from_slice(b"VP8 ");
        data.extend_from_slice(&[0u8; 20]);
        data
    };
    assert!(!webp::is_lossless_from_bytes(&webp_lossy), "VP8 chunk should be detected as lossy");
}

fn two_frame_gif() -> Vec<u8> {
    let mut data = b"GIF89a".to_vec();
    data.extend_from_slice(&[0x01, 0x00, 0x01, 0x00]);
    data.extend_from_slice(&[0x00, 0x00, 0x00]);

    data.push(0x2C);
    data.extend_from_slice(&[0x00, 0x00, 0x00, 0x00]);
    data.extend_from_slice(&[0x01, 0x00, 0x01, 0x00]);
    data.push(0x00);
    data.push(0x02);
    data.extend_from_slice(&[0x02, 0x4C, 0x01]);
    data.push(0x00);

    data.push(0x2C);
    data.extend_from_slice(&[0x00, 0x00, 0x00, 0x00]);
    data.extend_from_slice(&[0x01, 0x00, 0x01, 0x00]);
    data.push(0x00);
    data.push(0x02);
    data.extend_from_slice(&[0x02, 0x4C, 0x01]);
    data.push(0x00);

    data.push(0x3B);
    data
}

#[test]
fn test_gif_frame_count() {
    let gif_data = two_frame_gif();
    let count = gif::count_frames_from_bytes(&gif_data).unwrap();
    assert_eq!(count, 2, "Expected 2 frames, got: {count}");
    assert!(gif::is_animated_from_bytes(&gif_data).unwrap(), "2-frame GIF should be detected as animated");
}

#[test]
fn test_jxl_codestream_signature() {
    let jxl_codestream: &[u8] = &[0xFF, 0x0A, 0x00, 0x00];
    assert!(jxl::verify_signature_bytes(jxl_codestream), "JXL codestream signature should be recognized");
    assert!(jxl::is_valid(jxl_codestream));
    assert!(!jxl::is_valid(&[0x89, 0x50]));
    assert!(!jxl::is_valid(&[0xFF]));
}

#[test]
fn gif_durations_and_single_frame() {
    let mut gif_data = b"GIF89a".to_vec();
    gif_data.extend_from_slice(&[0x01, 0x00, 0x01, 0x00, 0x00, 0x00, 0x00]);
    // Graphic control extension with a delay of 10 centiseconds.
    gif_data.extend_from_slice(&[0x21, 0xF9, 0x04, 0x00, 0x0A, 0x00, 0x00, 0x00]);
    gif_data.push(0x2C);
    gif_data.extend_from_slice(&[0x00, 0x00, 0x00, 0x00, 0x01, 0x00, 0x01, 0x00, 0x00]);
    gif_data.extend_from_slice(&[0x02, 0x02, 0x4C, 0x01, 0x00]);
    gif_data.push(0x3B);
    assert_eq!(gif::count_frames_from_bytes(&gif_data).unwrap(), 1);
    assert!(!gif::is_animated_from_bytes(&gif_data).unwrap());
    assert_eq!(gif::duration_centisecs_from_bytes(&gif_data), Some(10));
}

fn riff(chunks: &[(&[u8; 4], Vec<u8>)]) -> Vec<u8> {
    let mut body = b"WEBP".to_vec();
    for (tag, payload) in chunks {
        body.extend_from_slice(*tag);
        body.extend_from_slice(&(payload.len() as u32).to_le_bytes());
        body.extend_from_slice(payload);
        if payload.len() % 2 == 1 {
            body.push(0);
        }
    }
    let mut out = b"RIFF".to_vec();
    out.extend_from_slice(&(body.len() as u32).to_le_bytes());
    out.extend_from_slice(&body);
    out
}

#[test]
fn webp_markers_and_frames() {
    let anim = riff(&[
        (b"VP8X", vec![0u8; 10]),
        (b"ANIM", vec![0u8; 6]),
        (b"ANMF", { let mut f = vec![0u8; 16]; f.extend_from_slice(b"VP8L"); f.extend_from_slice(&[1, 0, 0, 0, 0x2F]); f }),
        (b"ANMF", { let mut f = vec![0u8; 16]; f.extend_from_slice(b"VP8L"); f.extend_from_slice(&[1, 0, 0, 0, 0x2F]); f }),
    ]);
    assert!(webp::is_animated_from_bytes(&anim));
    assert_eq!(webp::count_frames_from_bytes(&anim).unwrap(), 2);
    assert!(webp::detect_webp_animation_is_lossless(&anim).unwrap());
    let still = riff(&[(b"VP8L", vec![0x2F, 0, 0, 0, 0])]);
    assert!(!webp::is_animated_from_bytes(&still));
    assert_eq!(webp::count_frames_from_bytes(&still).unwrap(), 0);
    assert!(webp::detect_webp_animation_is_lossless(&[0u8; 4]).is_err());
}

#[test]
fn png_and_tiff_heuristics() {
    let mut png_bytes = vec![0x89, 0x50, 0x4E, 0x47];
    png_bytes.extend_from_slice(b"IDATxxIDAT");
    assert!(png::is_optimally_compressed_bytes(&png_bytes));
    png_bytes.extend_from_slice(b"IDAT");
    assert!(!png::is_optimally_compressed_bytes(&png_bytes));
    assert!(tiff::is_lossless_from_bytes(b"XX").is_err());
}

#[test]
fn jpeg_progressive_marker() {
    assert!(jpeg::is_progressive_from_prefix(&[0x00, 0xFF, 0xC2, 0x00]));
    assert!(!jpeg::is_progressive_from_prefix(&[0xFF, 0xC0, 0xC2]));
    assert_eq!(jpeg::estimate_quality_from_prefix(&[0u8; 4096]), 85);
}
