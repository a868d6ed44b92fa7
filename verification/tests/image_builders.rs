use shared_utils::image_builders::{
    AvifencBuilder, DwebpBuilder, ExiftoolBuilder, IdentifyBuilder, MagickBuilder, SipsBuilder,
    WebpmuxBuilder,
};

#[test]
fn magick_builder_args() {
    let mut b = MagickBuilder::new();
    b.input("-in.png").output("out.png").strip(true).depth(16).colorspace("sRGB");
    b.define("png:compression-level", "9").set("comment", "x").format("%w");
    assert_eq!(b.command_name(), "magick");
    assert_eq!(
        b.build_args(),
        vec![
            "--", "./-in.png", "-strip", "-define", "png:compression-level=9", "-set", "comment",
            "x", "-colorspace", "sRGB", "-depth", "16", "-format", "%w", "out.png"
        ]
    );
    let mut s = MagickBuilder::new();
    s.input("a.jpg").use_stdout(true);
    assert_eq!(s.build_args(), vec!["--", "a.jpg", "png:-"]);
    assert!(s.pipes_stdout());
    let mut t = MagickBuilder::default();
    t.arg("jpg:-").use_stdout(true);
    assert_eq!(t.build_args(), vec!["jpg:-"]);
}

#[test]
fn identify_builder_args() {
    let mut b = IdentifyBuilder::new();
    b.use_magick(true).format("%m").verbose(true).arg("-ping").input("x.webp");
    assert_eq!(b.command_name(), "magick");
    assert_eq!(b.build_args(), vec!["identify", "-format", "%m", "-verbose", "-ping", "x.webp"]);
    assert_eq!(IdentifyBuilder::new().command_name(), "identify");
}

#[test]
fn webpmux_builder_args() {
    let mut b = WebpmuxBuilder::new();
    b.add_frame("f1.webp", 100, 0, -5, true).add_frame("f2.webp", 40, 3, 0, false);
    b.loop_count(0).bgcolor("255,255,255,255").output("anim.webp");
    assert_eq!(
        b.build_args(),
        vec![
            "-frame", "f1.webp", "+100+0+-5++b", "-frame", "f2.webp", "+40+3+0+-b", "-loop", "0",
            "-bgcolor", "255,255,255,255", "-o", "anim.webp"
        ]
    );
    let mut g = WebpmuxBuilder::default();
    g.info(true).get_frame(2).input("in.webp");
    assert_eq!(g.build_args(), vec!["-info", "-get", "frame", "2", "in.webp"]);
}

#[test]
fn avifenc_builder_args() {
    let mut b = AvifencBuilder::new();
    b.lossless(true).speed(6).jobs("all").quality(10, 30).depth(10).yuv("444");
    b.arg("--ignore-exif").input("in.png").output("out.avif");
    assert_eq!(
        b.build_args(),
        vec![
            "--lossless", "--speed", "6", "--jobs", "all", "--max", "30", "--min", "10",
            "--depth", "10", "--yuv", "444", "--ignore-exif", "in.png", "out.avif"
        ]
    );
    assert_eq!(b.command_name(), "avifenc");
}

#[test]
fn sips_builder_args() {
    let mut b = SipsBuilder::new();
    b.format("jpeg").quality(250).input("in.heic").output("out.jpg");
    assert_eq!(
        b.build_args(),
        vec!["-s", "format", "jpeg", "-s", "formatOptions", "100", "in.heic", "--out", "out.jpg"]
    );
    let mut z = SipsBuilder::default();
    z.quality(0);
    assert_eq!(z.build_args(), vec!["-s", "formatOptions", "1"]);
}

#[test]
fn exiftool_builder_args() {
    let mut b = ExiftoolBuilder::new();
    b.overwrite_original().tags_from_file("src%1.jpg").strip_all().ignore_minor();
    b.quiet().preserve_date().unsafe_tags().extract_icc_profile();
    b.args(&vec!["-a".to_string(), "-G1".to_string()]).input("dst.jxl").use_stdin();
    assert_eq!(
        b.build_args(),
        vec![
            "-overwrite_original", "-tagsFromFile", "src%%1.jpg", "-all=", "-m", "-q", "-P",
            "-unsafe", "-icc_profile", "-b", "-a", "-G1", "dst.jxl"
        ]
    );
    assert!(b.pipes_stdin());
    assert_eq!(b.command_name(), "exiftool");
}

#[test]
fn dwebp_builder_args() {
    let mut b = DwebpBuilder::new();
    b.input("in.webp").arg("-pam").output("out.pam");
    assert_eq!(b.build_args(), vec!["in.webp", "-pam", "-o", "out.pam"]);
    assert_eq!(DwebpBuilder::default().build_args(), Vec::<String>::new());
}
