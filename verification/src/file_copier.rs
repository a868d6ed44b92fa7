//! Which files of an input tree are copied as they are (formats the tools do not
//! convert), file statistics, and the completeness verdict on an output tree.
use vstd::prelude::*;
use vstd::string::*;
use crate::text::{concat2, decimal, decimal_string, str_eq, str_starts_with, to_lowercase, unicode_lowercase};
use crate::bytes::occurs_at;

verus! {

/// What `Path::file_name` gives for a path: its final component, if any.
pub uninterp spec fn path_file_name(path: Seq<char>) -> Option<Seq<char>>;

/// Index of the last `.` among the first `n` characters of `s`, if any.
pub open spec fn last_dot_before(s: Seq<char>, n: int) -> Option<int>
    decreases n,
{
    if n <= 0 {
        None
    } else if s[n - 1] == '.' {
        Some(n - 1)
    } else {
        last_dot_before(s, n - 1)
    }
}

/// The extension of a file name as `Path::extension` documents it: none when
/// the name has no `.`, none when its only `.` is the first character, else
/// the text after the last `.`.
pub open spec fn name_extension(name: Seq<char>) -> Option<Seq<char>> {
    match last_dot_before(name, name.len() as int) {
        None => None,
        Some(i) => if i == 0 {
            None
        } else {
            Some(name.subrange(i + 1, name.len() as int))
        },
    }
}

/// What `Path::extension` gives for a path: the extension of its file name
/// (see `name_extension`), none when it has no file name.
pub open spec fn path_extension(path: Seq<char>) -> Option<Seq<char>> {
    match path_file_name(path) {
        Some(n) => name_extension(n),
        None => None,
    }
}

/// `Path::file_name`, as text.
#[verifier::external_body]
pub(crate) fn file_name_of(path: &str) -> (r: Option<String>)
    ensures
        r.deep_view() == path_file_name(path@),
{
    std::path::Path::new(path).file_name().and_then(|n| n.to_str()).map(|s| s.to_string())
}

/// `Path::extension`, as text.
#[verifier::external_body]
pub(crate) fn extension_of(path: &str) -> (r: Option<String>)
    ensures
        r.deep_view() == path_extension(path@),
{
    std::path::Path::new(path).extension().and_then(|e| e.to_str()).map(|s| s.to_string())
}

/// Extensions (lower case) of the image formats the converters handle.
pub open spec fn is_supported_image_ext(e: Seq<char>) -> bool {
    e == "jpg"@ || e == "jpeg"@ || e == "jpe"@ || e == "jfif"@ || e == "png"@ || e == "apng"@
        || e == "webp"@ || e == "gif"@ || e == "tiff"@ || e == "tif"@ || e == "heic"@ || e
        == "heif"@ || e == "avif"@ || e == "jxl"@ || e == "bmp"@
}

/// Extensions (lower case) of the video formats the converters handle.
pub open spec fn is_supported_video_ext(e: Seq<char>) -> bool {
    e == "mp4"@ || e == "mov"@ || e == "mkv"@ || e == "avi"@ || e == "webm"@ || e == "m4v"@
        || e == "flv"@ || e == "wmv"@ || e == "mpg"@ || e == "mpeg"@ || e == "ts"@ || e
        == "3gp"@
}

/// Extensions (lower case) of metadata sidecars, merged rather than copied.
pub open spec fn is_sidecar_ext(e: Seq<char>) -> bool {
    e == "xmp"@
}

/// Whether `e` (lower case) is a supported image extension.
pub fn supported_image_extension(e: &str) -> (r: bool)
    ensures
        r == is_supported_image_ext(e@),
{
    str_eq(e, "jpg") || str_eq(e, "jpeg") || str_eq(e, "jpe") || str_eq(e, "jfif") || str_eq(
        e,
        "png",
    ) || str_eq(e, "apng") || str_eq(e, "webp") || str_eq(e, "gif") || str_eq(e, "tiff")
        || str_eq(e, "tif") || str_eq(e, "heic") || str_eq(e, "heif") || str_eq(e, "avif")
        || str_eq(e, "jxl") || str_eq(e, "bmp")
}

/// Whether `e` (lower case) is a supported video extension.
pub fn supported_video_extension(e: &str) -> (r: bool)
    ensures
        r == is_supported_video_ext(e@),
{
    str_eq(e, "mp4") || str_eq(e, "mov") || str_eq(e, "mkv") || str_eq(e, "avi") || str_eq(
        e,
        "webm",
    ) || str_eq(e, "m4v") || str_eq(e, "flv") || str_eq(e, "wmv") || str_eq(e, "mpg")
        || str_eq(e, "mpeg") || str_eq(e, "ts") || str_eq(e, "3gp")
}

/// Whether `e` (lower case) is a sidecar extension.
pub fn sidecar_extension(e: &str) -> (r: bool)
    ensures
        r == is_sidecar_ext(e@),
{
    str_eq(e, "xmp")
}

/// The file name of a path, empty when it has none.
pub open spec fn name_or_empty(path: Seq<char>) -> Seq<char> {
    match path_file_name(path) {
        Some(n) => n,
        None => Seq::empty(),
    }
}

/// The lower-cased extension of a path, empty when it has none.
pub open spec fn lower_ext(path: Seq<char>) -> Seq<char> {
    match path_extension(path) {
        Some(e) => unicode_lowercase(e),
        None => Seq::empty(),
    }
}

/// A file name starting with `.` is hidden.
pub open spec fn is_hidden_name(name: Seq<char>) -> bool {
    name.len() >= 1 && name[0] == '.'
}

/// A file with this name and lower-case extension is copied as it is when it is
/// not hidden and the extension is neither a supported image or video format
/// nor a sidecar.
pub open spec fn copy_verdict(name: Seq<char>, e: Seq<char>) -> bool {
    !is_hidden_name(name) && !is_supported_image_ext(e) && !is_supported_video_ext(e)
        && !is_sidecar_ext(e)
}

/// A file is copied as it is when its name and lower-cased extension say so
/// (see `copy_verdict`).
pub open spec fn spec_should_copy(path: Seq<char>) -> bool {
    copy_verdict(name_or_empty(path), lower_ext(path))
}

fn hidden(name: &str) -> (r: bool)
    ensures
        r == is_hidden_name(name@),
{
    let r = str_starts_with(name, ".");
    proof {
        reveal_strlit(".");
        if name@.len() >= 1 {
            assert(name@.subrange(0, 1)[0] == name@[0]);
            if name@[0] == '.' {
                assert(name@.subrange(0, 1) =~= "."@);
            }
        }
    }
    r
}

fn lower_extension_of(path: &str) -> (r: String)
    ensures
        r@ == lower_ext(path@),
{
    match extension_of(path) {
        Some(e) => to_lowercase(e.as_str()),
        None => String::new(),
    }
}

/// Whether a file is copied to the output as it is (see `spec_should_copy`).
pub fn should_copy_file(path: &str) -> (r: bool)
    ensures
        r == spec_should_copy(path@),
{
    let name = match file_name_of(path) {
        Some(n) => n,
        None => String::new(),
    };
    let ext = lower_extension_of(path);
    should_copy_parts(name.as_str(), ext.as_str())
}

/// Whether a file with this name and lower-case extension is copied as it is
/// (see `copy_verdict`).
pub fn should_copy_parts(name: &str, lower_ext: &str) -> (r: bool)
    ensures
        r == copy_verdict(name@, lower_ext@),
{
    if hidden(name) {
        return false;
    }
    !supported_image_extension(lower_ext) && !supported_video_extension(lower_ext)
        && !sidecar_extension(lower_ext)
}

/// Outcome of copying the unsupported files of a tree.
#[derive(Debug, Clone)]
pub struct CopyResult {
    pub total_files: usize,
    pub copied: usize,
    pub skipped: usize,
    pub failed: usize,
    /// (path, message, stage) of each failure.
    pub errors: Vec<(String, String, String)>,
}

impl CopyResult {
    /// An empty result: nothing seen, nothing copied.
    pub fn new() -> (r: Self)
        ensures
            r.total_files == 0 && r.copied == 0 && r.skipped == 0 && r.failed == 0
                && r.errors@.len() == 0,
    {
        CopyResult { total_files: 0, copied: 0, skipped: 0, failed: 0, errors: Vec::new() }
    }
}

impl Default for CopyResult {
    fn default() -> (r: Self)
        ensures
            r.total_files == 0 && r.copied == 0 && r.skipped == 0 && r.failed == 0
                && r.errors@.len() == 0,
    {
        CopyResult::new()
    }
}

/// Kind of a visible file, by its extension.
#[derive(Debug, Clone, Copy, PartialEq, Eq, Structural)]
pub enum FileKind {
    Image,
    Video,
    Sidecar,
    Other,
}

/// The kind of a file: `None` for hidden files, which are not counted.
pub open spec fn spec_file_kind(path: Seq<char>) -> Option<FileKind> {
    let e = lower_ext(path);
    if is_hidden_name(name_or_empty(path)) {
        None
    } else if is_supported_image_ext(e) {
        Some(FileKind::Image)
    } else if is_supported_video_ext(e) {
        Some(FileKind::Video)
    } else if is_sidecar_ext(e) {
        Some(FileKind::Sidecar)
    } else {
        Some(FileKind::Other)
    }
}

/// Classify a file (see `spec_file_kind`).
pub fn classify_file(path: &str) -> (r: Option<FileKind>)
    ensures
        r == spec_file_kind(path@),
{
    let name = match file_name_of(path) {
        Some(n) => n,
        None => String::new(),
    };
    if hidden(name.as_str()) {
        return None;
    }
    let ext = lower_extension_of(path);
    let e = ext.as_str();
    if supported_image_extension(e) {
        Some(FileKind::Image)
    } else if supported_video_extension(e) {
        Some(FileKind::Video)
    } else if sidecar_extension(e) {
        Some(FileKind::Sidecar)
    } else {
        Some(FileKind::Other)
    }
}

/// Counts of the visible files of a tree, by kind.
#[derive(Debug, Clone)]
pub struct FileStats {
    pub total: usize,
    pub images: usize,
    pub videos: usize,
    pub sidecars: usize,
    pub others: usize,
}

impl FileStats {
    /// Every counted file has exactly one kind.
    pub open spec fn wf(&self) -> bool {
        self.total == self.images + self.videos + self.sidecars + self.others
    }

    /// No file counted yet.
    pub fn empty() -> (r: Self)
        ensures
            r.wf(),
            r.total == 0,
    {
        FileStats { total: 0, images: 0, videos: 0, sidecars: 0, others: 0 }
    }

    /// Count one file of the tree: hidden files are left out, the others add to
    /// the total and to their kind.
    pub fn record(&mut self, path: &str)
        requires
            old(self).wf(),
            old(self).total < usize::MAX,
        ensures
            final(self).wf(),
            match spec_file_kind(path@) {
                None => *final(self) == *old(self),
                Some(k) => final(self).total == old(self).total + 1
                    && final(self).images == old(self).images + (if k == FileKind::Image { 1int } else { 0int })
                    && final(self).videos == old(self).videos + (if k == FileKind::Video { 1int } else { 0int })
                    && final(self).sidecars == old(self).sidecars + (if k == FileKind::Sidecar { 1int } else { 0int })
                    && final(self).others == old(self).others + (if k == FileKind::Other { 1int } else { 0int }),
            },
    {
        match classify_file(path) {
            None => {},
            Some(k) => {
                self.total = self.total + 1;
                match k {
                    FileKind::Image => {
                        self.images = self.images + 1;
                    },
                    FileKind::Video => {
                        self.videos = self.videos + 1;
                    },
                    FileKind::Sidecar => {
                        self.sidecars = self.sidecars + 1;
                    },
                    FileKind::Other => {
                        self.others = self.others + 1;
                    },
                }
            },
        }
    }

    /// Files expected in the output: all but the sidecars, which are merged.
    pub fn expected_output(&self) -> (r: usize)
        requires
            self.sidecars <= self.total,
        ensures
            r == self.total - self.sidecars,
    {
        self.total - self.sidecars
    }
}

/// Outcome of the completeness check of an output tree.
#[derive(Debug)]
pub struct VerifyResult {
    pub passed: bool,
    pub expected: usize,
    pub actual: usize,
    pub diff: i64,
    pub message: String,
}

/// `n` as an `i64`, saturating at `i64::MAX`.
pub open spec fn sat_i64(n: usize) -> int {
    if n > i64::MAX {
        i64::MAX as int
    } else {
        n as int
    }
}

/// The message of a completeness verdict.
pub open spec fn verdict_message(expected: usize, actual: usize, diff: int) -> Seq<char> {
    if diff == 0 {
        "✅ Verification passed: "@ + decimal(actual as nat) + " files (no loss)"@
    } else if diff > 0 {
        "❌ Verification FAILED: missing "@ + decimal(diff as nat) + " files! (expected "@
            + decimal(expected as nat) + ", got "@ + decimal(actual as nat) + ")"@
    } else {
        "⚠️ Output has "@ + decimal((-diff) as nat) + " extra files (expected "@ + decimal(
            expected as nat,
        ) + ", got "@ + decimal(actual as nat) + ")"@
    }
}

fn usize_to_i64_sat(n: usize) -> (r: i64)
    ensures
        r == sat_i64(n),
{
    if (n as u64) > 0x7fff_ffff_ffff_ffffu64 {
        0x7fff_ffff_ffff_ffff
    } else {
        n as i64
    }
}

/// Compare an output tree's statistics with its input's: the output must hold
/// the input's files less its sidecars; missing files fail the check, extra
/// files pass with a warning.
pub fn verify_output_completeness(input_stats: &FileStats, output_stats: &FileStats) -> (r: VerifyResult)
    requires
        input_stats.sidecars <= input_stats.total,
    ensures
        r.expected == input_stats.total - input_stats.sidecars,
        r.actual == output_stats.total,
        r.diff == sat_i64(r.expected) - sat_i64(r.actual),
        r.passed == (r.diff <= 0),
        r.message@ == verdict_message(r.expected, r.actual, r.diff as int),
{
    let expected = input_stats.expected_output();
    let actual = output_stats.total;
    let diff = usize_to_i64_sat(expected) - usize_to_i64_sat(actual);
    let (passed, message) = if diff == 0 {
        let m = concat2("✅ Verification passed: ", decimal_string(actual as u64).as_str());
        (true, concat2(m.as_str(), " files (no loss)"))
    } else if diff > 0 {
        let m = concat2("❌ Verification FAILED: missing ", decimal_string(diff as u64).as_str());
        let m = concat2(m.as_str(), " files! (expected ");
        let m = concat2(m.as_str(), decimal_string(expected as u64).as_str());
        let m = concat2(m.as_str(), ", got ");
        let m = concat2(m.as_str(), decimal_string(actual as u64).as_str());
        (false, concat2(m.as_str(), ")"))
    } else {
        let m = concat2("⚠️ Output has ", decimal_string((-diff) as u64).as_str());
        let m = concat2(m.as_str(), " extra files (expected ");
        let m = concat2(m.as_str(), decimal_string(expected as u64).as_str());
        let m = concat2(m.as_str(), ", got ");
        let m = concat2(m.as_str(), decimal_string(actual as u64).as_str());
        (true, concat2(m.as_str(), ")"))
    };
    VerifyResult { passed, expected, actual, diff, message }
}

/// A file is copied as it is exactly when it is a visible file of no handled kind.
pub proof fn law_copied_files_are_the_others(path: Seq<char>)
    ensures
        spec_should_copy(path) <==> spec_file_kind(path) == Some(FileKind::Other),
{
}

/// The expected output plus the merged sidecars is the whole input.
pub proof fn law_expected_output_accounts_for_sidecars(stats: FileStats)
    requires
        stats.wf(),
    ensures
        stats.sidecars <= stats.total,
        (stats.total - stats.sidecars) + stats.sidecars == stats.total,
        stats.total - stats.sidecars == stats.images + stats.videos + stats.others,
{
}

/// The check passes exactly when no expected file is missing from the output
/// (for counts that fit in an `i64`).
pub proof fn law_verdict_passes_iff_nothing_missing(expected: usize, actual: usize)
    requires
        expected <= i64::MAX,
        actual <= i64::MAX,
    ensures
        (sat_i64(expected) - sat_i64(actual) <= 0) <==> actual >= expected,
{
}

} // verus!
