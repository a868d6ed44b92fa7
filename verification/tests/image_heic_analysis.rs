use shared_utils::hevc_sps::parse_sps_rbsp_for_transquant_bypass;
use shared_utils::image_heic_analysis::{
    extract_xmp_from_heic_data, heic_has_vendor_metadata, heic_hdr_info, heic_hdr_markers, is_heic_header, xmp_has_gainmap,
    xmp_has_vendor_metadata,
};

#[test]
fn test_is_heic_file() {
    let mut heic = vec![0x00, 0x00, 0x00, 0x18];
    heic.extend_from_slice(b"ftypheic");
    assert!(is_heic_header(&heic));
    let mut heif = vec![0x00, 0x00, 0x00, 0x18];
    heif.extend_from_slice(b"ftypmif1");
    assert!(is_heic_header(&heif));
    let jpg = [0xFF, 0xD8, 0xFF, 0xE0, 0x00, 0x10, 0x4A, 0x46, 0x49, 0x46, 0x00, 0x01];
    assert!(!is_heic_header(&jpg));
    assert!(!is_heic_header(b"ftyp"));
}

#[test]
fn heic_xmp_extraction() {
    let mut data = b"....junk....".to_vec();
    data.extend_from_slice(b"<x:xmpmeta xmlns:hdrgm=\"x\">hdrgm:Version</x:xmpmeta>");
    let xmp = extract_xmp_from_heic_data(&data);
    assert_eq!(
        xmp.as_deref(),
        Some("<x:xmpmeta xmlns:hdrgm=\"x\">hdrgm:Version</x:xmpmeta>")
    );
    assert!(xmp_has_gainmap(&xmp));
    assert!(!xmp_has_vendor_metadata(&xmp));
    assert_eq!(extract_xmp_from_heic_data(b"no packet here"), None);
    let samsung = Some("urn:samsung:image:1".to_string());
    assert!(xmp_has_vendor_metadata(&samsung));
    assert!(!xmp_has_gainmap(&None));
}

#[test]
fn heic_hdr_marker_boxes() {
    let mut colr = vec![0, 0, 0, 19];
    colr.extend_from_slice(b"colrnclx");
    colr.extend_from_slice(&[0, 9, 0, 16, 0, 9, 0]);
    assert_eq!(heic_hdr_markers(&colr), (true, false));
    let mut dv = vec![0, 0, 0, 8];
    dv.extend_from_slice(b"dvvC");
    assert_eq!(heic_hdr_markers(&dv), (true, true));
    assert_eq!(heic_hdr_markers(b"nothing"), (false, false));
}

#[test]
fn heic_hdr_info_combines_markers_and_xmp() {
    let mut data = vec![0, 0, 0, 8];
    data.extend_from_slice(b"dvcC");
    data.extend_from_slice(b"<?xpacket begin='' GCamera:HDR urn:samsung:image:");
    let info = heic_hdr_info(&data);
    assert!(info.is_hdr);
    assert!(info.is_dolby_vision);
    assert!(info.has_gainmap);
    assert!(heic_has_vendor_metadata(&data));
    let plain = heic_hdr_info(b"plain");
    assert!(!plain.is_hdr && !plain.is_dolby_vision && !plain.has_gainmap);
}

#[test]
fn sps_transquant_bypass_flag_on_any_payload_length() {
    let set = [0x42u8, 0x01, 0x00, 0xF7, 0xF8, 0x80];
    let clear = [0x42u8, 0x01, 0x00, 0xF7, 0xF8, 0x00];
    assert_eq!(parse_sps_rbsp_for_transquant_bypass(&set), Some(true));
    assert_eq!(parse_sps_rbsp_for_transquant_bypass(&clear), Some(false));
    let mut long = set.to_vec();
    long.resize(70_000, 0);
    assert_eq!(parse_sps_rbsp_for_transquant_bypass(&long), Some(true));
    assert_eq!(parse_sps_rbsp_for_transquant_bypass(&set[..5]), None);
    assert_eq!(parse_sps_rbsp_for_transquant_bypass(&[0x42, 0x01]), None);
    let malformed = [0u8, 0, 0x00, 0, 0, 0, 0, 0x80, 0, 0, 0, 0];
    assert_eq!(parse_sps_rbsp_for_transquant_bypass(&malformed), None);
}
