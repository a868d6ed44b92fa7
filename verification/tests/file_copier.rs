use shared_utils::file_copier::{
    classify_file, should_copy_file, should_copy_parts, verify_output_completeness, CopyResult, FileKind, FileStats,
};

#[test]
fn test_should_copy_file() {
    assert!(!should_copy_file("test.jpg"));
    assert!(!should_copy_file("test.PNG"));
    assert!(!should_copy_file("test.mp4"));

    assert!(!should_copy_file("test.xmp"));

    assert!(should_copy_file("test.psd"));
    assert!(should_copy_file("test.txt"));
    assert!(should_copy_file("test.pdf"));

    assert!(!should_copy_file(".DS_Store"));
}

#[test]
fn file_copier_classification_and_stats() {
    assert_eq!(classify_file("a/b/photo.JPG"), Some(FileKind::Image));
    assert_eq!(classify_file("clip.mov"), Some(FileKind::Video));
    assert_eq!(classify_file("clip.mov.xmp"), Some(FileKind::Sidecar));
    assert_eq!(classify_file("notes"), Some(FileKind::Other));
    assert_eq!(classify_file("dir/.hidden.jpg"), None);
    let mut stats = FileStats::empty();
    for p in ["a.jpg", "b.mp4", "b.mp4.xmp", "c.pdf", ".DS_Store"] {
        stats.record(p);
    }
    assert_eq!(stats.total, 4);
    assert_eq!(stats.images, 1);
    assert_eq!(stats.videos, 1);
    assert_eq!(stats.sidecars, 1);
    assert_eq!(stats.others, 1);
    assert_eq!(stats.expected_output(), 3);
}

#[test]
fn file_copier_verdicts() {
    let input = FileStats { total: 5, images: 3, videos: 0, sidecars: 1, others: 1 };
    let out_ok = FileStats { total: 4, images: 4, videos: 0, sidecars: 0, others: 0 };
    let r = verify_output_completeness(&input, &out_ok);
    assert!(r.passed);
    assert_eq!(r.diff, 0);
    assert_eq!(r.message, "✅ Verification passed: 4 files (no loss)");
    let out_missing = FileStats { total: 2, images: 2, videos: 0, sidecars: 0, others: 0 };
    let r = verify_output_completeness(&input, &out_missing);
    assert!(!r.passed);
    assert_eq!(r.diff, 2);
    assert_eq!(r.message, "❌ Verification FAILED: missing 2 files! (expected 4, got 2)");
    let out_extra = FileStats { total: 7, images: 7, videos: 0, sidecars: 0, others: 0 };
    let r = verify_output_completeness(&input, &out_extra);
    assert!(r.passed);
    assert_eq!(r.diff, -3);
    assert_eq!(r.message, "⚠️ Output has 3 extra files (expected 4, got 7)");
    let empty = CopyResult::new();
    assert_eq!(empty.total_files + empty.copied + empty.skipped + empty.failed, 0);
}

#[test]
fn file_copier_decision_on_name_and_extension() {
    assert!(should_copy_parts("scan.psd", "psd"));
    assert!(!should_copy_parts("photo.JPG", "jpg"));
    assert!(!should_copy_parts(".DS_Store", ""));
    assert!(!should_copy_parts("clip.mov.xmp", "xmp"));
    assert!(should_copy_parts("README", ""));
    assert!(should_copy_file("archive.tar.gz"));
    assert!(should_copy_file("dir/.git/config"));
    assert!(!should_copy_file("dir/.hidden"));
}
