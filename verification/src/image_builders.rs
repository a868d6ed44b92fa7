//! Builders for the command lines of the imaging tools (ImageMagick, webpmux,
//! avifenc, sips, exiftool, dwebp): each collects options and yields the tool's
//! name and its argument list.
use vstd::prelude::*;
use vstd::string::*;
use crate::bytes::occurs_at;
use crate::path_safety::{double_percent, property_safe_path, safe_path, safe_path_arg};
use crate::text::{concat2, decimal, decimal_string, i32_string, signed_decimal, str_ends_with};

verus! {

/// `flag` when `b` holds.
pub open spec fn flag_if(b: bool, flag: Seq<char>) -> Seq<Seq<char>> {
    if b {
        seq![flag]
    } else {
        Seq::empty()
    }
}

/// `flag value` when a value is present.
pub open spec fn opt_arg(flag: Seq<char>, o: Option<Seq<char>>) -> Seq<Seq<char>> {
    match o {
        Some(v) => seq![flag, v],
        None => Seq::empty(),
    }
}

/// `flag n` (decimal) when a number is present.
pub open spec fn opt_num(flag: Seq<char>, o: Option<nat>) -> Seq<Seq<char>> {
    match o {
        Some(v) => seq![flag, decimal(v)],
        None => Seq::empty(),
    }
}

/// A path argument when a path is present.
pub open spec fn opt_path(o: Option<Seq<char>>) -> Seq<Seq<char>> {
    match o {
        Some(v) => seq![safe_path(v)],
        None => Seq::empty(),
    }
}

/// `flag path` when a path is present.
pub open spec fn opt_flag_path(flag: Seq<char>, o: Option<Seq<char>>) -> Seq<Seq<char>> {
    match o {
        Some(v) => seq![flag, safe_path(v)],
        None => Seq::empty(),
    }
}

/// An optional byte as a natural number.
pub open spec fn u8_nat(o: Option<u8>) -> Option<nat> {
    match o {
        Some(v) => Some(v as nat),
        None => None,
    }
}

/// An optional 32-bit number as a natural number.
pub open spec fn u32_nat(o: Option<u32>) -> Option<nat> {
    match o {
        Some(v) => Some(v as nat),
        None => None,
    }
}

fn push_str(args: &mut Vec<String>, s: &str)
    ensures
        final(args).deep_view() == old(args).deep_view().push(s@),
{
    args.push(String::from_str(s));
    assert(args.deep_view() =~= old(args).deep_view().push(s@));
}

fn push_string(args: &mut Vec<String>, s: String)
    ensures
        final(args).deep_view() == old(args).deep_view().push(s@),
{
    let ghost v = s@;
    args.push(s);
    assert(args.deep_view() =~= old(args).deep_view().push(v));
}

fn push_all(args: &mut Vec<String>, extra: &Vec<String>)
    ensures
        final(args).deep_view() == old(args).deep_view() + extra.deep_view(),
{
    let ghost start = args.deep_view();
    let mut i: usize = 0;
    while i < extra.len()
        invariant
            i <= extra@.len(),
            args.deep_view() == start + extra.deep_view().take(i as int),
        decreases extra@.len() - i,
    {
        push_string(args, extra[i].clone());
        assert(start + extra.deep_view().take(i + 1) =~= (start + extra.deep_view().take(
            i as int,
        )).push(extra[i as int]@));
        i = i + 1;
    }
    assert(extra.deep_view().take(i as int) =~= extra.deep_view());
}

fn push_flag_if(args: &mut Vec<String>, b: bool, flag: &str)
    ensures
        final(args).deep_view() == old(args).deep_view() + flag_if(b, flag@),
{
    if b {
        push_str(args, flag);
    }
    assert(args.deep_view() =~= old(args).deep_view() + flag_if(b, flag@));
}

fn push_opt_arg(args: &mut Vec<String>, flag: &str, o: &Option<String>)
    ensures
        final(args).deep_view() == old(args).deep_view() + opt_arg(flag@, o.deep_view()),
{
    if let Some(v) = o {
        push_str(args, flag);
        push_str(args, v.as_str());
    }
    assert(args.deep_view() =~= old(args).deep_view() + opt_arg(flag@, o.deep_view()));
}

fn push_opt_u8(args: &mut Vec<String>, flag: &str, o: Option<u8>)
    ensures
        final(args).deep_view() == old(args).deep_view() + opt_num(flag@, u8_nat(o)),
{
    if let Some(v) = o {
        push_str(args, flag);
        push_string(args, decimal_string(v as u64));
    }
    assert(args.deep_view() =~= old(args).deep_view() + opt_num(flag@, u8_nat(o)));
}

fn push_opt_u32(args: &mut Vec<String>, flag: &str, o: Option<u32>)
    ensures
        final(args).deep_view() == old(args).deep_view() + opt_num(flag@, u32_nat(o)),
{
    if let Some(v) = o {
        push_str(args, flag);
        push_string(args, decimal_string(v as u64));
    }
    assert(args.deep_view() =~= old(args).deep_view() + opt_num(flag@, u32_nat(o)));
}

fn push_opt_path(args: &mut Vec<String>, o: &Option<String>)
    ensures
        final(args).deep_view() == old(args).deep_view() + opt_path(o.deep_view()),
{
    if let Some(v) = o {
        push_string(args, safe_path_arg(v.as_str()));
    }
    assert(args.deep_view() =~= old(args).deep_view() + opt_path(o.deep_view()));
}

fn push_opt_flag_path(args: &mut Vec<String>, flag: &str, o: &Option<String>)
    ensures
        final(args).deep_view() == old(args).deep_view() + opt_flag_path(flag@, o.deep_view()),
{
    if let Some(v) = o {
        push_str(args, flag);
        push_string(args, safe_path_arg(v.as_str()));
    }
    assert(args.deep_view() =~= old(args).deep_view() + opt_flag_path(flag@, o.deep_view()));
}

fn owned_opt(s: &str) -> (r: Option<String>)
    ensures
        r.deep_view() == Some(s@),
{
    Some(String::from_str(s))
}

fn empty_args() -> (r: Vec<String>)
    ensures
        r.deep_view() == Seq::<Seq<char>>::empty(),
{
    let r: Vec<String> = Vec::new();
    assert(r.deep_view() =~= Seq::<Seq<char>>::empty());
    r
}

// ---------------------------------------------------------------------------
// ImageMagick
// ---------------------------------------------------------------------------

/// Builder for `magick` (ImageMagick) commands.
#[derive(Debug)]
pub struct MagickBuilder {
    input: Option<String>,
    output: Option<String>,
    strip: bool,
    depth: Option<u8>,
    colorspace: Option<String>,
    defines: Vec<(String, String)>,
    sets: Vec<(String, String)>,
    extra_args: Vec<String>,
    use_stdout: bool,
    format: Option<String>,
}

/// The options collected by a `MagickBuilder`.
pub ghost struct MagickModel {
    pub input: Option<Seq<char>>,
    pub output: Option<Seq<char>>,
    pub strip: bool,
    pub depth: Option<u8>,
    pub colorspace: Option<Seq<char>>,
    pub defines: Seq<(Seq<char>, Seq<char>)>,
    pub sets: Seq<(Seq<char>, Seq<char>)>,
    pub extra_args: Seq<Seq<char>>,
    pub use_stdout: bool,
    pub format: Option<Seq<char>>,
}

impl View for MagickBuilder {
    type V = MagickModel;

    closed spec fn view(&self) -> MagickModel {
        MagickModel {
            input: self.input.deep_view(),
            output: self.output.deep_view(),
            strip: self.strip,
            depth: self.depth,
            colorspace: self.colorspace.deep_view(),
            defines: self.defines.deep_view(),
            sets: self.sets.deep_view(),
            extra_args: self.extra_args.deep_view(),
            use_stdout: self.use_stdout,
            format: self.format.deep_view(),
        }
    }
}

/// No option set.
pub open spec fn magick_empty() -> MagickModel {
    MagickModel {
        input: None,
        output: None,
        strip: false,
        depth: None,
        colorspace: None,
        defines: Seq::empty(),
        sets: Seq::empty(),
        extra_args: Seq::empty(),
        use_stdout: false,
        format: None,
    }
}

/// `-define key=value` for each define, in order.
pub open spec fn define_args(ds: Seq<(Seq<char>, Seq<char>)>) -> Seq<Seq<char>>
    decreases ds.len(),
{
    if ds.len() == 0 {
        Seq::empty()
    } else {
        define_args(ds.drop_last()) + seq!["-define"@, ds.last().0 + "="@ + ds.last().1]
    }
}

/// `-set key value` for each property, in order.
pub open spec fn set_args(ss: Seq<(Seq<char>, Seq<char>)>) -> Seq<Seq<char>>
    decreases ss.len(),
{
    if ss.len() == 0 {
        Seq::empty()
    } else {
        set_args(ss.drop_last()) + seq!["-set"@, ss.last().0, ss.last().1]
    }
}

/// `s` ends with `suffix`.
pub open spec fn ends_with(s: Seq<char>, suffix: Seq<char>) -> bool {
    suffix.len() <= s.len() && occurs_at(s, suffix, s.len() - suffix.len())
}

/// Some extra argument already names standard output as the sink (ends in `:-`).
pub open spec fn has_stdout_sink(extra: Seq<Seq<char>>) -> bool {
    exists|i: int| 0 <= i < extra.len() && ends_with(#[trigger] extra[i], ":-"@)
}

/// The `magick` arguments: `-- input`, the extra arguments, `-strip`, the
/// defines, the properties, `-colorspace`, `-depth`, `-format`, then either the
/// standard-output sink (`png:-` unless an extra argument names one) or the output path.
pub open spec fn magick_args(m: MagickModel) -> Seq<Seq<char>> {
    opt_flag_path("--"@, m.input) + m.extra_args + flag_if(m.strip, "-strip"@) + define_args(
        m.defines,
    ) + set_args(m.sets) + opt_arg("-colorspace"@, m.colorspace) + opt_num(
        "-depth"@,
        u8_nat(m.depth),
    ) + opt_arg("-format"@, m.format) + if m.use_stdout {
        if has_stdout_sink(m.extra_args) {
            Seq::empty()
        } else {
            seq!["png:-"@]
        }
    } else {
        opt_path(m.output)
    }
}

fn any_stdout_sink(extra: &Vec<String>) -> (r: bool)
    ensures
        r == has_stdout_sink(extra.deep_view()),
{
    let mut i: usize = 0;
    while i < extra.len()
        invariant
            i <= extra@.len(),
            forall|j: int| 0 <= j < i ==> !ends_with(#[trigger] extra.deep_view()[j], ":-"@),
        decreases extra@.len() - i,
    {
        if str_ends_with(extra[i].as_str(), ":-") {
            assert(ends_with(extra.deep_view()[i as int], ":-"@));
            return true;
        }
        i = i + 1;
    }
    false
}

fn push_defines(args: &mut Vec<String>, ds: &Vec<(String, String)>)
    ensures
        final(args).deep_view() == old(args).deep_view() + define_args(ds.deep_view()),
{
    let ghost start = args.deep_view();
    let mut i: usize = 0;
    while i < ds.len()
        invariant
            i <= ds@.len(),
            args.deep_view() == start + define_args(ds.deep_view().take(i as int)),
        decreases ds@.len() - i,
    {
        assert(ds.deep_view().take(i + 1).drop_last() =~= ds.deep_view().take(i as int));
        let kv = concat2(ds[i].0.as_str(), "=");
        let kv = concat2(kv.as_str(), ds[i].1.as_str());
        push_str(args, "-define");
        push_string(args, kv);
        assert(args.deep_view() =~= start + define_args(ds.deep_view().take(i + 1)));
        i = i + 1;
    }
    assert(ds.deep_view().take(i as int) =~= ds.deep_view());
}

fn push_sets(args: &mut Vec<String>, ss: &Vec<(String, String)>)
    ensures
        final(args).deep_view() == old(args).deep_view() + set_args(ss.deep_view()),
{
    let ghost start = args.deep_view();
    let mut i: usize = 0;
    while i < ss.len()
        invariant
            i <= ss@.len(),
            args.deep_view() == start + set_args(ss.deep_view().take(i as int)),
        decreases ss@.len() - i,
    {
        assert(ss.deep_view().take(i + 1).drop_last() =~= ss.deep_view().take(i as int));
        push_str(args, "-set");
        push_str(args, ss[i].0.as_str());
        push_str(args, ss[i].1.as_str());
        assert(args.deep_view() =~= start + set_args(ss.deep_view().take(i + 1)));
        i = i + 1;
    }
    assert(ss.deep_view().take(i as int) =~= ss.deep_view());
}

impl MagickBuilder {
    /// A builder with no option set.
    pub fn new() -> (r: Self)
        ensures
            r@ == magick_empty(),
    {
        let r = MagickBuilder {
            input: None,
            output: None,
            strip: false,
            depth: None,
            colorspace: None,
            defines: Vec::new(),
            sets: Vec::new(),
            extra_args: Vec::new(),
            use_stdout: false,
            format: None,
        };
        assert(r@.defines =~= Seq::<(Seq<char>, Seq<char>)>::empty());
        assert(r@.sets =~= Seq::<(Seq<char>, Seq<char>)>::empty());
        assert(r@.extra_args =~= Seq::<Seq<char>>::empty());
        r
    }

    /// The input image.
    pub fn input(&mut self, path: &str) -> (r: &mut Self)
        ensures
            r@ == (MagickModel { input: Some(path@), ..old(self)@ }),
            final(self)@ == final(r)@,
    {
        self.input = owned_opt(path);
        self
    }

    /// The output image.
    pub fn output(&mut self, path: &str) -> (r: &mut Self)
        ensures
            r@ == (MagickModel { output: Some(path@), ..old(self)@ }),
            final(self)@ == final(r)@,
    {
        self.output = owned_opt(path);
        self
    }

    /// Strip profiles and comments.
    pub fn strip(&mut self, enabled: bool) -> (r: &mut Self)
        ensures
            r@ == (MagickModel { strip: enabled, ..old(self)@ }),
            final(self)@ == final(r)@,
    {
        self.strip = enabled;
        self
    }

    /// Bits per channel.
    pub fn depth(&mut self, depth: u8) -> (r: &mut Self)
        ensures
            r@ == (MagickModel { depth: Some(depth), ..old(self)@ }),
            final(self)@ == final(r)@,
    {
        self.depth = Some(depth);
        self
    }

    /// Output colour space.
    pub fn colorspace(&mut self, colorspace: &str) -> (r: &mut Self)
        ensures
            r@ == (MagickModel { colorspace: Some(colorspace@), ..old(self)@ }),
            final(self)@ == final(r)@,
    {
        self.colorspace = owned_opt(colorspace);
        self
    }

    /// Add a coder define `key=value`.
    pub fn define(&mut self, key: &str, value: &str) -> (r: &mut Self)
        ensures
            r@ == (MagickModel { defines: old(self)@.defines.push((key@, value@)), ..old(self)@ }),
            final(self)@ == final(r)@,
    {
        self.defines.push((String::from_str(key), String::from_str(value)));
        assert(self@.defines =~= old(self)@.defines.push((key@, value@)));
        self
    }

    /// Add an image property `key value`.
    pub fn set(&mut self, key: &str, value: &str) -> (r: &mut Self)
        ensures
            r@ == (MagickModel { sets: old(self)@.sets.push((key@, value@)), ..old(self)@ }),
            final(self)@ == final(r)@,
    {
        self.sets.push((String::from_str(key), String::from_str(value)));
        assert(self@.sets =~= old(self)@.sets.push((key@, value@)));
        self
    }

    /// Write the result to standard output.
    pub fn use_stdout(&mut self, enabled: bool) -> (r: &mut Self)
        ensures
            r@ == (MagickModel { use_stdout: enabled, ..old(self)@ }),
            final(self)@ == final(r)@,
    {
        self.use_stdout = enabled;
        self
    }

    /// Format string for image information.
    pub fn format(&mut self, format: &str) -> (r: &mut Self)
        ensures
            r@ == (MagickModel { format: Some(format@), ..old(self)@ }),
            final(self)@ == final(r)@,
    {
        self.format = owned_opt(format);
        self
    }

    /// Add an argument as it is.
    pub fn arg(&mut self, arg: &str) -> (r: &mut Self)
        ensures
            r@ == (MagickModel { extra_args: old(self)@.extra_args.push(arg@), ..old(self)@ }),
            final(self)@ == final(r)@,
    {
        self.extra_args.push(String::from_str(arg));
        assert(self@.extra_args =~= old(self)@.extra_args.push(arg@));
        self
    }

    /// Whether the command writes to standard output (its stdout is piped).
    pub fn pipes_stdout(&self) -> (r: bool)
        ensures
            r == self@.use_stdout,
    {
        self.use_stdout
    }

    /// The tool's name.
    pub fn command_name(&self) -> (r: &'static str)
        ensures
            r@ == "magick"@,
    {
        "magick"
    }

    /// The argument list (see `magick_args`).
    pub fn build_args(&self) -> (r: Vec<String>)
        ensures
            r.deep_view() == magick_args(self@),
    {
        let ghost m = self@;
        let mut args = empty_args();
        push_opt_flag_path(&mut args, "--", &self.input);
        push_all(&mut args, &self.extra_args);
        push_flag_if(&mut args, self.strip, "-strip");
        push_defines(&mut args, &self.defines);
        push_sets(&mut args, &self.sets);
        push_opt_arg(&mut args, "-colorspace", &self.colorspace);
        push_opt_u8(&mut args, "-depth", self.depth);
        push_opt_arg(&mut args, "-format", &self.format);
        let ghost before_sink = args.deep_view();
        if self.use_stdout {
            if !any_stdout_sink(&self.extra_args) {
                push_str(&mut args, "png:-");
            }
        } else {
            push_opt_path(&mut args, &self.output);
        }
        assert(args.deep_view() =~= magick_args(m));
        args
    }
}

impl Default for MagickBuilder {
    fn default() -> (r: Self)
        ensures
            r@ == magick_empty(),
    {
        MagickBuilder::new()
    }
}

// ---------------------------------------------------------------------------
// identify
// ---------------------------------------------------------------------------

/// Builder for `identify` (ImageMagick) commands.
#[derive(Debug)]
pub struct IdentifyBuilder {
    input: Option<String>,
    format: Option<String>,
    extra_args: Vec<String>,
    use_magick: bool,
    verbose: bool,
}

/// The options collected by an `IdentifyBuilder`.
pub ghost struct IdentifyModel {
    pub input: Option<Seq<char>>,
    pub format: Option<Seq<char>>,
    pub extra_args: Seq<Seq<char>>,
    pub use_magick: bool,
    pub verbose: bool,
}

impl View for IdentifyBuilder {
    type V = IdentifyModel;

    closed spec fn view(&self) -> IdentifyModel {
        IdentifyModel {
            input: self.input.deep_view(),
            format: self.format.deep_view(),
            extra_args: self.extra_args.deep_view(),
            use_magick: self.use_magick,
            verbose: self.verbose,
        }
    }
}

/// No option set.
pub open spec fn identify_empty() -> IdentifyModel {
    IdentifyModel {
        input: None,
        format: None,
        extra_args: Seq::empty(),
        use_magick: false,
        verbose: false,
    }
}

/// The tool run: `magick` (with `identify` as first argument) or `identify`.
pub open spec fn identify_command(m: IdentifyModel) -> Seq<char> {
    if m.use_magick {
        "magick"@
    } else {
        "identify"@
    }
}

/// The arguments: `identify` under `magick`, `-format`, `-verbose`, the extra
/// arguments, then the input path.
pub open spec fn identify_args(m: IdentifyModel) -> Seq<Seq<char>> {
    flag_if(m.use_magick, "identify"@) + opt_arg("-format"@, m.format) + flag_if(
        m.verbose,
        "-verbose"@,
    ) + m.extra_args + opt_path(m.input)
}

impl IdentifyBuilder {
    /// A builder with no option set.
    pub fn new() -> (r: Self)
        ensures
            r@ == identify_empty(),
    {
        let r = IdentifyBuilder {
            input: None,
            format: None,
            extra_args: Vec::new(),
            use_magick: false,
            verbose: false,
        };
        assert(r@.extra_args =~= Seq::<Seq<char>>::empty());
        r
    }

    /// The image to describe.
    pub fn input(&mut self, path: &str) -> (r: &mut Self)
        ensures
            r@ == (IdentifyModel { input: Some(path@), ..old(self)@ }),
            final(self)@ == final(r)@,
    {
        self.input = owned_opt(path);
        self
    }

    /// Format string of the description.
    pub fn format(&mut self, format: &str) -> (r: &mut Self)
        ensures
            r@ == (IdentifyModel { format: Some(format@), ..old(self)@ }),
            final(self)@ == final(r)@,
    {
        self.format = owned_opt(format);
        self
    }

    /// Run as `magick identify` rather than `identify`.
    pub fn use_magick(&mut self, enabled: bool) -> (r: &mut Self)
        ensures
            r@ == (IdentifyModel { use_magick: enabled, ..old(self)@ }),
            final(self)@ == final(r)@,
    {
        self.use_magick = enabled;
        self
    }

    /// Verbose output.
    pub fn verbose(&mut self, enabled: bool) -> (r: &mut Self)
        ensures
            r@ == (IdentifyModel { verbose: enabled, ..old(self)@ }),
            final(self)@ == final(r)@,
    {
        self.verbose = enabled;
        self
    }

    /// Add an argument as it is.
    pub fn arg(&mut self, arg: &str) -> (r: &mut Self)
        ensures
            r@ == (IdentifyModel { extra_args: old(self)@.extra_args.push(arg@), ..old(self)@ }),
            final(self)@ == final(r)@,
    {
        self.extra_args.push(String::from_str(arg));
        assert(self@.extra_args =~= old(self)@.extra_args.push(arg@));
        self
    }

    /// The tool's name.
    pub fn command_name(&self) -> (r: &'static str)
        ensures
            r@ == identify_command(self@),
    {
        if self.use_magick {
            "magick"
        } else {
            "identify"
        }
    }

    /// The argument list (see `identify_args`).
    pub fn build_args(&self) -> (r: Vec<String>)
        ensures
            r.deep_view() == identify_args(self@),
    {
        let mut args = empty_args();
        push_flag_if(&mut args, self.use_magick, "identify");
        push_opt_arg(&mut args, "-format", &self.format);
        push_flag_if(&mut args, self.verbose, "-verbose");
        push_all(&mut args, &self.extra_args);
        push_opt_path(&mut args, &self.input);
        assert(args.deep_view() =~= identify_args(self@));
        args
    }
}

impl Default for IdentifyBuilder {
    fn default() -> (r: Self)
        ensures
            r@ == identify_empty(),
    {
        IdentifyBuilder::new()
    }
}

// ---------------------------------------------------------------------------
// webpmux
// ---------------------------------------------------------------------------

/// Builder for `webpmux` commands.
#[derive(Debug)]
pub struct WebpmuxBuilder {
    output: Option<String>,
    /// (path, duration, x, y, blend) of each frame.
    frames: Vec<(String, u32, i32, i32, bool)>,
    loop_count: Option<u32>,
    bgcolor: Option<String>,
    info: bool,
    get_frame: Option<u32>,
    input: Option<String>,
    extra_args: Vec<String>,
}

/// The options collected by a `WebpmuxBuilder`.
pub ghost struct WebpmuxModel {
    pub output: Option<Seq<char>>,
    pub frames: Seq<(Seq<char>, u32, i32, i32, bool)>,
    pub loop_count: Option<u32>,
    pub bgcolor: Option<Seq<char>>,
    pub info: bool,
    pub get_frame: Option<u32>,
    pub input: Option<Seq<char>>,
    pub extra_args: Seq<Seq<char>>,
}

impl View for WebpmuxBuilder {
    type V = WebpmuxModel;

    closed spec fn view(&self) -> WebpmuxModel {
        WebpmuxModel {
            output: self.output.deep_view(),
            frames: self.frames.deep_view(),
            loop_count: self.loop_count,
            bgcolor: self.bgcolor.deep_view(),
            info: self.info,
            get_frame: self.get_frame,
            input: self.input.deep_view(),
            extra_args: self.extra_args.deep_view(),
        }
    }
}

/// No option set.
pub open spec fn webpmux_empty() -> WebpmuxModel {
    WebpmuxModel {
        output: None,
        frames: Seq::empty(),
        loop_count: None,
        bgcolor: None,
        info: false,
        get_frame: None,
        input: None,
        extra_args: Seq::empty(),
    }
}

/// The options of one frame: `+duration+x+y+b` (blend) or `+duration+x+y-b`.
pub open spec fn frame_options(duration: u32, x: i32, y: i32, blend: bool) -> Seq<char> {
    "+"@ + decimal(duration as nat) + "+"@ + signed_decimal(x as int) + "+"@ + signed_decimal(
        y as int,
    ) + "+"@ + if blend {
        "+b"@
    } else {
        "-b"@
    }
}

/// `-frame path options` for each frame, in order.
pub open spec fn frame_args(fs: Seq<(Seq<char>, u32, i32, i32, bool)>) -> Seq<Seq<char>>
    decreases fs.len(),
{
    if fs.len() == 0 {
        Seq::empty()
    } else {
        let f = fs.last();
        frame_args(fs.drop_last()) + seq!["-frame"@, safe_path(f.0), frame_options(f.1, f.2, f.3, f.4)]
    }
}

/// `-get frame n` when a frame is asked for.
pub open spec fn get_frame_args(o: Option<u32>) -> Seq<Seq<char>> {
    match o {
        Some(i) => seq!["-get"@, "frame"@, decimal(i as nat)],
        None => Seq::empty(),
    }
}

/// The `webpmux` arguments: `-info`, `-get frame n`, the extra arguments, the
/// input, the frames, `-loop`, `-bgcolor`, then `-o output`.
pub open spec fn webpmux_args(m: WebpmuxModel) -> Seq<Seq<char>> {
    flag_if(m.info, "-info"@) + get_frame_args(m.get_frame) + m.extra_args + opt_path(m.input)
        + frame_args(m.frames) + opt_num("-loop"@, u32_nat(m.loop_count)) + opt_arg(
        "-bgcolor"@,
        m.bgcolor,
    ) + opt_flag_path("-o"@, m.output)
}

fn frame_option_string(duration: u32, x: i32, y: i32, blend: bool) -> (r: String)
    ensures
        r@ == frame_options(duration, x, y, blend),
{
    let s = concat2("+", decimal_string(duration as u64).as_str());
    let s = concat2(s.as_str(), "+");
    let s = concat2(s.as_str(), i32_string(x).as_str());
    let s = concat2(s.as_str(), "+");
    let s = concat2(s.as_str(), i32_string(y).as_str());
    let s = concat2(s.as_str(), "+");
    if blend {
        concat2(s.as_str(), "+b")
    } else {
        concat2(s.as_str(), "-b")
    }
}

fn push_frames(args: &mut Vec<String>, fs: &Vec<(String, u32, i32, i32, bool)>)
    ensures
        final(args).deep_view() == old(args).deep_view() + frame_args(fs.deep_view()),
{
    let ghost start = args.deep_view();
    let mut i: usize = 0;
    while i < fs.len()
        invariant
            i <= fs@.len(),
            args.deep_view() == start + frame_args(fs.deep_view().take(i as int)),
        decreases fs@.len() - i,
    {
        assert(fs.deep_view().take(i + 1).drop_last() =~= fs.deep_view().take(i as int));
        let f = &fs[i];
        push_str(args, "-frame");
        push_string(args, safe_path_arg(f.0.as_str()));
        push_string(args, frame_option_string(f.1, f.2, f.3, f.4));
        assert(args.deep_view() =~= start + frame_args(fs.deep_view().take(i + 1)));
        i = i + 1;
    }
    assert(fs.deep_view().take(i as int) =~= fs.deep_view());
}

impl WebpmuxBuilder {
    /// A builder with no option set.
    pub fn new() -> (r: Self)
        ensures
            r@ == webpmux_empty(),
    {
        let r = WebpmuxBuilder {
            output: None,
            frames: Vec::new(),
            loop_count: None,
            bgcolor: None,
            info: false,
            get_frame: None,
            input: None,
            extra_args: Vec::new(),
        };
        assert(r@.frames =~= Seq::<(Seq<char>, u32, i32, i32, bool)>::empty());
        assert(r@.extra_args =~= Seq::<Seq<char>>::empty());
        r
    }

    /// The input WebP file.
    pub fn input(&mut self, path: &str) -> (r: &mut Self)
        ensures
            r@ == (WebpmuxModel { input: Some(path@), ..old(self)@ }),
            final(self)@ == final(r)@,
    {
        self.input = owned_opt(path);
        self
    }

    /// The output WebP file.
    pub fn output(&mut self, path: &str) -> (r: &mut Self)
        ensures
            r@ == (WebpmuxModel { output: Some(path@), ..old(self)@ }),
            final(self)@ == final(r)@,
    {
        self.output = owned_opt(path);
        self
    }

    /// Print information about the input.
    pub fn info(&mut self, enabled: bool) -> (r: &mut Self)
        ensures
            r@ == (WebpmuxModel { info: enabled, ..old(self)@ }),
            final(self)@ == final(r)@,
    {
        self.info = enabled;
        self
    }

    /// Extract the frame at `index`.
    pub fn get_frame(&mut self, index: u32) -> (r: &mut Self)
        ensures
            r@ == (WebpmuxModel { get_frame: Some(index), ..old(self)@ }),
            final(self)@ == final(r)@,
    {
        self.get_frame = Some(index);
        self
    }

    /// Append a frame with its duration, offset and blending.
    pub fn add_frame(&mut self, path: &str, duration: u32, x: i32, y: i32, blend: bool) -> (r: &mut Self)
        ensures
            r@ == (WebpmuxModel {
                frames: old(self)@.frames.push((path@, duration, x, y, blend)),
                ..old(self)@
            }),
            final(self)@ == final(r)@,
    {
        self.frames.push((String::from_str(path), duration, x, y, blend));
        assert(self@.frames =~= old(self)@.frames.push((path@, duration, x, y, blend)));
        self
    }

    /// Animation loop count (0 = forever).
    pub fn loop_count(&mut self, count: u32) -> (r: &mut Self)
        ensures
            r@ == (WebpmuxModel { loop_count: Some(count), ..old(self)@ }),
            final(self)@ == final(r)@,
    {
        self.loop_count = Some(count);
        self
    }

    /// Animation background colour.
    pub fn bgcolor(&mut self, color: &str) -> (r: &mut Self)
        ensures
            r@ == (WebpmuxModel { bgcolor: Some(color@), ..old(self)@ }),
            final(self)@ == final(r)@,
    {
        self.bgcolor = owned_opt(color);
        self
    }

    /// Add an argument as it is.
    pub fn arg(&mut self, arg: &str) -> (r: &mut Self)
        ensures
            r@ == (WebpmuxModel { extra_args: old(self)@.extra_args.push(arg@), ..old(self)@ }),
            final(self)@ == final(r)@,
    {
        self.extra_args.push(String::from_str(arg));
        assert(self@.extra_args =~= old(self)@.extra_args.push(arg@));
        self
    }

    /// The tool's name.
    pub fn command_name(&self) -> (r: &'static str)
        ensures
            r@ == "webpmux"@,
    {
        "webpmux"
    }

    /// The argument list (see `webpmux_args`).
    pub fn build_args(&self) -> (r: Vec<String>)
        ensures
            r.deep_view() == webpmux_args(self@),
    {
        let mut args = empty_args();
        push_flag_if(&mut args, self.info, "-info");
        let ghost before_get = args.deep_view();
        if let Some(i) = self.get_frame {
            push_str(&mut args, "-get");
            push_str(&mut args, "frame");
            push_string(&mut args, decimal_string(i as u64));
        }
        assert(args.deep_view() =~= before_get + get_frame_args(self@.get_frame));
        push_all(&mut args, &self.extra_args);
        push_opt_path(&mut args, &self.input);
        push_frames(&mut args, &self.frames);
        push_opt_u32(&mut args, "-loop", self.loop_count);
        push_opt_arg(&mut args, "-bgcolor", &self.bgcolor);
        push_opt_flag_path(&mut args, "-o", &self.output);
        assert(args.deep_view() =~= webpmux_args(self@));
        args
    }
}

impl Default for WebpmuxBuilder {
    fn default() -> (r: Self)
        ensures
            r@ == webpmux_empty(),
    {
        WebpmuxBuilder::new()
    }
}

// ---------------------------------------------------------------------------
// avifenc
// ---------------------------------------------------------------------------

/// Builder for `avifenc` commands.
#[derive(Debug)]
pub struct AvifencBuilder {
    input: Option<String>,
    output: Option<String>,
    min_quality: Option<u8>,
    max_quality: Option<u8>,
    lossless: bool,
    speed: Option<u8>,
    threads: Option<String>,
    depth: Option<u8>,
    yuv: Option<String>,
    extra_args: Vec<String>,
}

/// The options collected by an `AvifencBuilder`.
pub ghost struct AvifencModel {
    pub input: Option<Seq<char>>,
    pub output: Option<Seq<char>>,
    pub min_quality: Option<u8>,
    pub max_quality: Option<u8>,
    pub lossless: bool,
    pub speed: Option<u8>,
    pub threads: Option<Seq<char>>,
    pub depth: Option<u8>,
    pub yuv: Option<Seq<char>>,
    pub extra_args: Seq<Seq<char>>,
}

impl View for AvifencBuilder {
    type V = AvifencModel;

    closed spec fn view(&self) -> AvifencModel {
        AvifencModel {
            input: self.input.deep_view(),
            output: self.output.deep_view(),
            min_quality: self.min_quality,
            max_quality: self.max_quality,
            lossless: self.lossless,
            speed: self.speed,
            threads: self.threads.deep_view(),
            depth: self.depth,
            yuv: self.yuv.deep_view(),
            extra_args: self.extra_args.deep_view(),
        }
    }
}

/// No option set.
pub open spec fn avifenc_empty() -> AvifencModel {
    AvifencModel {
        input: None,
        output: None,
        min_quality: None,
        max_quality: None,
        lossless: false,
        speed: None,
        threads: None,
        depth: None,
        yuv: None,
        extra_args: Seq::empty(),
    }
}

/// The `avifenc` arguments: `--lossless`, `--speed`, `--jobs`, `--max`, `--min`,
/// `--depth`, `--yuv`, the extra arguments, then input and output paths.
pub open spec fn avifenc_args(m: AvifencModel) -> Seq<Seq<char>> {
    flag_if(m.lossless, "--lossless"@) + opt_num("--speed"@, u8_nat(m.speed)) + opt_arg(
        "--jobs"@,
        m.threads,
    ) + opt_num("--max"@, u8_nat(m.max_quality)) + opt_num("--min"@, u8_nat(m.min_quality))
        + opt_num("--depth"@, u8_nat(m.depth)) + opt_arg("--yuv"@, m.yuv) + m.extra_args + opt_path(
        m.input,
    ) + opt_path(m.output)
}

impl AvifencBuilder {
    /// A builder with no option set.
    pub fn new() -> (r: Self)
        ensures
            r@ == avifenc_empty(),
    {
        let r = AvifencBuilder {
            input: None,
            output: None,
            min_quality: None,
            max_quality: None,
            lossless: false,
            speed: None,
            threads: None,
            depth: None,
            yuv: None,
            extra_args: Vec::new(),
        };
        assert(r@.extra_args =~= Seq::<Seq<char>>::empty());
        r
    }

    /// The input image.
    pub fn input(&mut self, path: &str) -> (r: &mut Self)
        ensures
            r@ == (AvifencModel { input: Some(path@), ..old(self)@ }),
            final(self)@ == final(r)@,
    {
        self.input = owned_opt(path);
        self
    }

    /// The output AVIF file.
    pub fn output(&mut self, path: &str) -> (r: &mut Self)
        ensures
            r@ == (AvifencModel { output: Some(path@), ..old(self)@ }),
            final(self)@ == final(r)@,
    {
        self.output = owned_opt(path);
        self
    }

    /// Encoder speed.
    pub fn speed(&mut self, speed: u8) -> (r: &mut Self)
        ensures
            r@ == (AvifencModel { speed: Some(speed), ..old(self)@ }),
            final(self)@ == final(r)@,
    {
        self.speed = Some(speed);
        self
    }

    /// Quantizer range.
    pub fn quality(&mut self, min: u8, max: u8) -> (r: &mut Self)
        ensures
            r@ == (AvifencModel { min_quality: Some(min), max_quality: Some(max), ..old(self)@ }),
            final(self)@ == final(r)@,
    {
        self.min_quality = Some(min);
        self.max_quality = Some(max);
        self
    }

    /// Lossless encoding.
    pub fn lossless(&mut self, enabled: bool) -> (r: &mut Self)
        ensures
            r@ == (AvifencModel { lossless: enabled, ..old(self)@ }),
            final(self)@ == final(r)@,
    {
        self.lossless = enabled;
        self
    }

    /// Worker threads (a number or `all`).
    pub fn jobs(&mut self, jobs: &str) -> (r: &mut Self)
        ensures
            r@ == (AvifencModel { threads: Some(jobs@), ..old(self)@ }),
            final(self)@ == final(r)@,
    {
        self.threads = owned_opt(jobs);
        self
    }

    /// Output bit depth.
    pub fn depth(&mut self, depth: u8) -> (r: &mut Self)
        ensures
            r@ == (AvifencModel { depth: Some(depth), ..old(self)@ }),
            final(self)@ == final(r)@,
    {
        self.depth = Some(depth);
        self
    }

    /// Chroma subsampling.
    pub fn yuv(&mut self, yuv: &str) -> (r: &mut Self)
        ensures
            r@ == (AvifencModel { yuv: Some(yuv@), ..old(self)@ }),
            final(self)@ == final(r)@,
    {
        self.yuv = owned_opt(yuv);
        self
    }

    /// Add an argument as it is.
    pub fn arg(&mut self, arg: &str) -> (r: &mut Self)
        ensures
            r@ == (AvifencModel { extra_args: old(self)@.extra_args.push(arg@), ..old(self)@ }),
            final(self)@ == final(r)@,
    {
        self.extra_args.push(String::from_str(arg));
        assert(self@.extra_args =~= old(self)@.extra_args.push(arg@));
        self
    }

    /// The tool's name.
    pub fn command_name(&self) -> (r: &'static str)
        ensures
            r@ == "avifenc"@,
    {
        "avifenc"
    }

    /// The argument list (see `avifenc_args`).
    pub fn build_args(&self) -> (r: Vec<String>)
        ensures
            r.deep_view() == avifenc_args(self@),
    {
        let mut args = empty_args();
        push_flag_if(&mut args, self.lossless, "--lossless");
        push_opt_u8(&mut args, "--speed", self.speed);
        push_opt_arg(&mut args, "--jobs", &self.threads);
        push_opt_u8(&mut args, "--max", self.max_quality);
        push_opt_u8(&mut args, "--min", self.min_quality);
        push_opt_u8(&mut args, "--depth", self.depth);
        push_opt_arg(&mut args, "--yuv", &self.yuv);
        push_all(&mut args, &self.extra_args);
        push_opt_path(&mut args, &self.input);
        push_opt_path(&mut args, &self.output);
        assert(args.deep_view() =~= avifenc_args(self@));
        args
    }
}

impl Default for AvifencBuilder {
    fn default() -> (r: Self)
        ensures
            r@ == avifenc_empty(),
    {
        AvifencBuilder::new()
    }
}

// ---------------------------------------------------------------------------
// sips
// ---------------------------------------------------------------------------

/// Builder for `sips` commands (macOS).
#[derive(Debug)]
pub struct SipsBuilder {
    input: Option<String>,
    output: Option<String>,
    format: Option<String>,
    quality: Option<u32>,
    extra_args: Vec<String>,
}

/// The options collected by a `SipsBuilder`.
pub ghost struct SipsModel {
    pub input: Option<Seq<char>>,
    pub output: Option<Seq<char>>,
    pub format: Option<Seq<char>>,
    pub quality: Option<u32>,
    pub extra_args: Seq<Seq<char>>,
}

impl View for SipsBuilder {
    type V = SipsModel;

    closed spec fn view(&self) -> SipsModel {
        SipsModel {
            input: self.input.deep_view(),
            output: self.output.deep_view(),
            format: self.format.deep_view(),
            quality: self.quality,
            extra_args: self.extra_args.deep_view(),
        }
    }
}

/// No option set.
pub open spec fn sips_empty() -> SipsModel {
    SipsModel { input: None, output: None, format: None, quality: None, extra_args: Seq::empty() }
}

/// `q` clamped to the range 1..=100 that sips accepts.
pub open spec fn clamp_quality(q: u32) -> u32 {
    if q < 1 {
        1
    } else if q > 100 {
        100
    } else {
        q
    }
}

/// The `sips` arguments: `-s format f`, `-s formatOptions q`, the extra
/// arguments, the input, then `--out output`.
pub open spec fn sips_args(m: SipsModel) -> Seq<Seq<char>> {
    (match m.format {
        Some(f) => seq!["-s"@, "format"@, f],
        None => Seq::empty(),
    }) + (match m.quality {
        Some(q) => seq!["-s"@, "formatOptions"@, decimal(q as nat)],
        None => Seq::empty(),
    }) + m.extra_args + opt_path(m.input) + opt_flag_path("--out"@, m.output)
}

impl SipsBuilder {
    /// A builder with no option set.
    pub fn new() -> (r: Self)
        ensures
            r@ == sips_empty(),
    {
        let r = SipsBuilder {
            input: None,
            output: None,
            format: None,
            quality: None,
            extra_args: Vec::new(),
        };
        assert(r@.extra_args =~= Seq::<Seq<char>>::empty());
        r
    }

    /// The input image.
    pub fn input(&mut self, path: &str) -> (r: &mut Self)
        ensures
            r@ == (SipsModel { input: Some(path@), ..old(self)@ }),
            final(self)@ == final(r)@,
    {
        self.input = owned_opt(path);
        self
    }

    /// The output image.
    pub fn output(&mut self, path: &str) -> (r: &mut Self)
        ensures
            r@ == (SipsModel { output: Some(path@), ..old(self)@ }),
            final(self)@ == final(r)@,
    {
        self.output = owned_opt(path);
        self
    }

    /// Output format.
    pub fn format(&mut self, format: &str) -> (r: &mut Self)
        ensures
            r@ == (SipsModel { format: Some(format@), ..old(self)@ }),
            final(self)@ == final(r)@,
    {
        self.format = owned_opt(format);
        self
    }

    /// Output quality, clamped to 1..=100.
    pub fn quality(&mut self, q: u32) -> (r: &mut Self)
        ensures
            r@ == (SipsModel { quality: Some(clamp_quality(q)), ..old(self)@ }),
            final(self)@ == final(r)@,
    {
        let c = if q < 1 {
            1
        } else if q > 100 {
            100
        } else {
            q
        };
        self.quality = Some(c);
        self
    }

    /// Add an argument as it is.
    pub fn arg(&mut self, arg: &str) -> (r: &mut Self)
        ensures
            r@ == (SipsModel { extra_args: old(self)@.extra_args.push(arg@), ..old(self)@ }),
            final(self)@ == final(r)@,
    {
        self.extra_args.push(String::from_str(arg));
        assert(self@.extra_args =~= old(self)@.extra_args.push(arg@));
        self
    }

    /// The tool's name.
    pub fn command_name(&self) -> (r: &'static str)
        ensures
            r@ == "sips"@,
    {
        "sips"
    }

    /// The argument list (see `sips_args`).
    pub fn build_args(&self) -> (r: Vec<String>)
        ensures
            r.deep_view() == sips_args(self@),
    {
        let mut args = empty_args();
        if let Some(f) = &self.format {
            push_str(&mut args, "-s");
            push_str(&mut args, "format");
            push_str(&mut args, f.as_str());
        }
        let ghost after_format = args.deep_view();
        if let Some(q) = self.quality {
            push_str(&mut args, "-s");
            push_str(&mut args, "formatOptions");
            push_string(&mut args, decimal_string(q as u64));
        }
        let ghost after_quality = args.deep_view();
        push_all(&mut args, &self.extra_args);
        push_opt_path(&mut args, &self.input);
        push_opt_flag_path(&mut args, "--out", &self.output);
        assert(args.deep_view() =~= sips_args(self@));
        args
    }
}

impl Default for SipsBuilder {
    fn default() -> (r: Self)
        ensures
            r@ == sips_empty(),
    {
        SipsBuilder::new()
    }
}

// ---------------------------------------------------------------------------
// exiftool
// ---------------------------------------------------------------------------

/// Builder for `exiftool` commands.
#[derive(Debug)]
pub struct ExiftoolBuilder {
    input: Option<String>,
    args: Vec<String>,
    overwrite_original: bool,
    use_stdin: bool,
}

/// The options collected by an `ExiftoolBuilder`.
pub ghost struct ExiftoolModel {
    pub input: Option<Seq<char>>,
    pub args: Seq<Seq<char>>,
    pub overwrite_original: bool,
    pub use_stdin: bool,
}

impl View for ExiftoolBuilder {
    type V = ExiftoolModel;

    closed spec fn view(&self) -> ExiftoolModel {
        ExiftoolModel {
            input: self.input.deep_view(),
            args: self.args.deep_view(),
            overwrite_original: self.overwrite_original,
            use_stdin: self.use_stdin,
        }
    }
}

/// No option set.
pub open spec fn exiftool_empty() -> ExiftoolModel {
    ExiftoolModel { input: None, args: Seq::empty(), overwrite_original: false, use_stdin: false }
}

/// The `exiftool` arguments: `-overwrite_original`, the collected arguments,
/// then the input path.
pub open spec fn exiftool_args(m: ExiftoolModel) -> Seq<Seq<char>> {
    flag_if(m.overwrite_original, "-overwrite_original"@) + m.args + opt_path(m.input)
}

impl ExiftoolBuilder {
    /// A builder with no option set.
    pub fn new() -> (r: Self)
        ensures
            r@ == exiftool_empty(),
    {
        let r = ExiftoolBuilder {
            input: None,
            args: Vec::new(),
            overwrite_original: false,
            use_stdin: false,
        };
        assert(r@.args =~= Seq::<Seq<char>>::empty());
        r
    }

    /// The file to read or write.
    pub fn input(&mut self, path: &str) -> (r: &mut Self)
        ensures
            r@ == (ExiftoolModel { input: Some(path@), ..old(self)@ }),
            final(self)@ == final(r)@,
    {
        self.input = owned_opt(path);
        self
    }

    /// Copy tags from another file (its path with `%` doubled).
    pub fn tags_from_file(&mut self, path: &str) -> (r: &mut Self)
        ensures
            r@ == (ExiftoolModel {
                args: old(self)@.args.push("-tagsFromFile"@).push(double_percent(safe_path(path@))),
                ..old(self)@
            }),
            final(self)@ == final(r)@,
    {
        self.args.push(String::from_str("-tagsFromFile"));
        self.args.push(property_safe_path(path));
        assert(self@.args =~= old(self)@.args.push("-tagsFromFile"@).push(
            double_percent(safe_path(path@)),
        ));
        self
    }

    /// Add an argument as it is.
    pub fn arg(&mut self, arg: &str) -> (r: &mut Self)
        ensures
            r@ == (ExiftoolModel { args: old(self)@.args.push(arg@), ..old(self)@ }),
            final(self)@ == final(r)@,
    {
        self.args.push(String::from_str(arg));
        assert(self@.args =~= old(self)@.args.push(arg@));
        self
    }

    /// Add several arguments as they are, in order.
    pub fn args(&mut self, args: &Vec<String>) -> (r: &mut Self)
        ensures
            r@ == (ExiftoolModel { args: old(self)@.args + args.deep_view(), ..old(self)@ }),
            final(self)@ == final(r)@,
    {
        push_all(&mut self.args, args);
        self
    }

    /// Write the changes into the original file, without a backup.
    pub fn overwrite_original(&mut self) -> (r: &mut Self)
        ensures
            r@ == (ExiftoolModel { overwrite_original: true, ..old(self)@ }),
            final(self)@ == final(r)@,
    {
        self.overwrite_original = true;
        self
    }

    /// Extract the ICC profile as binary data (`-icc_profile -b`).
    pub fn extract_icc_profile(&mut self) -> (r: &mut Self)
        ensures
            r@ == (ExiftoolModel {
                args: old(self)@.args.push("-icc_profile"@).push("-b"@),
                ..old(self)@
            }),
            final(self)@ == final(r)@,
    {
        self.args.push(String::from_str("-icc_profile"));
        self.args.push(String::from_str("-b"));
        assert(self@.args =~= old(self)@.args.push("-icc_profile"@).push("-b"@));
        self
    }

    /// Read the file from standard input.
    pub fn use_stdin(&mut self) -> (r: &mut Self)
        ensures
            r@ == (ExiftoolModel { use_stdin: true, ..old(self)@ }),
            final(self)@ == final(r)@,
    {
        self.use_stdin = true;
        self
    }

    /// Strip all metadata tags (`-all=`).
    pub fn strip_all(&mut self) -> (r: &mut Self)
        ensures
            r@ == (ExiftoolModel { args: old(self)@.args.push("-all="@), ..old(self)@ }),
            final(self)@ == final(r)@,
    {
        self.arg("-all=")
    }

    /// Ignore minor errors and warnings (`-m`).
    pub fn ignore_minor(&mut self) -> (r: &mut Self)
        ensures
            r@ == (ExiftoolModel { args: old(self)@.args.push("-m"@), ..old(self)@ }),
            final(self)@ == final(r)@,
    {
        self.arg("-m")
    }

    /// Suppress warnings and messages (`-q`).
    pub fn quiet(&mut self) -> (r: &mut Self)
        ensures
            r@ == (ExiftoolModel { args: old(self)@.args.push("-q"@), ..old(self)@ }),
            final(self)@ == final(r)@,
    {
        self.arg("-q")
    }

    /// Preserve the file modification time (`-P`).
    pub fn preserve_date(&mut self) -> (r: &mut Self)
        ensures
            r@ == (ExiftoolModel { args: old(self)@.args.push("-P"@), ..old(self)@ }),
            final(self)@ == final(r)@,
    {
        self.arg("-P")
    }

    /// Process 'unsafe' tags too (`-unsafe`).
    pub fn unsafe_tags(&mut self) -> (r: &mut Self)
        ensures
            r@ == (ExiftoolModel { args: old(self)@.args.push("-unsafe"@), ..old(self)@ }),
            final(self)@ == final(r)@,
    {
        self.arg("-unsafe")
    }

    /// Whether the command reads the file from standard input (its stdin is piped).
    pub fn pipes_stdin(&self) -> (r: bool)
        ensures
            r == self@.use_stdin,
    {
        self.use_stdin
    }

    /// The tool's name.
    pub fn command_name(&self) -> (r: &'static str)
        ensures
            r@ == "exiftool"@,
    {
        "exiftool"
    }

    /// The argument list (see `exiftool_args`).
    pub fn build_args(&self) -> (r: Vec<String>)
        ensures
            r.deep_view() == exiftool_args(self@),
    {
        let mut args = empty_args();
        push_flag_if(&mut args, self.overwrite_original, "-overwrite_original");
        push_all(&mut args, &self.args);
        push_opt_path(&mut args, &self.input);
        assert(args.deep_view() =~= exiftool_args(self@));
        args
    }
}

impl Default for ExiftoolBuilder {
    fn default() -> (r: Self)
        ensures
            r@ == exiftool_empty(),
    {
        ExiftoolBuilder::new()
    }
}

// ---------------------------------------------------------------------------
// dwebp
// ---------------------------------------------------------------------------

/// Builder for `dwebp` commands.
#[derive(Debug)]
pub struct DwebpBuilder {
    input: Option<String>,
    output: Option<String>,
    extra_args: Vec<String>,
}

/// The options collected by a `DwebpBuilder`.
pub ghost struct DwebpModel {
    pub input: Option<Seq<char>>,
    pub output: Option<Seq<char>>,
    pub extra_args: Seq<Seq<char>>,
}

impl View for DwebpBuilder {
    type V = DwebpModel;

    closed spec fn view(&self) -> DwebpModel {
        DwebpModel {
            input: self.input.deep_view(),
            output: self.output.deep_view(),
            extra_args: self.extra_args.deep_view(),
        }
    }
}

/// No option set.
pub open spec fn dwebp_empty() -> DwebpModel {
    DwebpModel { input: None, output: None, extra_args: Seq::empty() }
}

/// The `dwebp` arguments: the input, the extra arguments, then `-o output`.
pub open spec fn dwebp_args(m: DwebpModel) -> Seq<Seq<char>> {
    opt_path(m.input) + m.extra_args + opt_flag_path("-o"@, m.output)
}

impl DwebpBuilder {
    /// A builder with no option set.
    pub fn new() -> (r: Self)
        ensures
            r@ == dwebp_empty(),
    {
        let r = DwebpBuilder { input: None, output: None, extra_args: Vec::new() };
        assert(r@.extra_args =~= Seq::<Seq<char>>::empty());
        r
    }

    /// The input WebP file.
    pub fn input(&mut self, path: &str) -> (r: &mut Self)
        ensures
            r@ == (DwebpModel { input: Some(path@), ..old(self)@ }),
            final(self)@ == final(r)@,
    {
        self.input = owned_opt(path);
        self
    }

    /// The decoded output file.
    pub fn output(&mut self, path: &str) -> (r: &mut Self)
        ensures
            r@ == (DwebpModel { output: Some(path@), ..old(self)@ }),
            final(self)@ == final(r)@,
    {
        self.output = owned_opt(path);
        self
    }

    /// Add an argument as it is.
    pub fn arg(&mut self, arg: &str) -> (r: &mut Self)
        ensures
            r@ == (DwebpModel { extra_args: old(self)@.extra_args.push(arg@), ..old(self)@ }),
            final(self)@ == final(r)@,
    {
        self.extra_args.push(String::from_str(arg));
        assert(self@.extra_args =~= old(self)@.extra_args.push(arg@));
        self
    }

    /// The tool's name.
    pub fn command_name(&self) -> (r: &'static str)
        ensures
            r@ == "dwebp"@,
    {
        "dwebp"
    }

    /// The argument list (see `dwebp_args`).
    pub fn build_args(&self) -> (r: Vec<String>)
        ensures
            r.deep_view() == dwebp_args(self@),
    {
        let mut args = empty_args();
        push_opt_path(&mut args, &self.input);
        push_all(&mut args, &self.extra_args);
        push_opt_flag_path(&mut args, "-o", &self.output);
        assert(args.deep_view() =~= dwebp_args(self@));
        args
    }
}

impl Default for DwebpBuilder {
    fn default() -> (r: Self)
        ensures
            r@ == dwebp_empty(),
    {
        DwebpBuilder::new()
    }
}

/// The quality given to sips is always within 1..=100, and values already in
/// that range are kept.
pub proof fn law_sips_quality_clamped(q: u32)
    ensures
        1 <= clamp_quality(q) <= 100,
        1 <= q <= 100 ==> clamp_quality(q) == q,
{
}

} // verus!
