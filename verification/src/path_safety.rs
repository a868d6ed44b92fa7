//! Paths handed to command-line tools: a path that starts with `-` would be read
//! as an option, so it is prefixed with `./`; ExifTool expands `%` in some
//! arguments, so there it is doubled.
use vstd::prelude::*;
use vstd::string::*;
use crate::text::{chars_of, concat2, string_from_chars, str_starts_with};

verus! {

/// `p`, prefixed with `./` when it starts with `-`.
pub open spec fn safe_path(p: Seq<char>) -> Seq<char> {
    if p.len() > 0 && p[0] == '-' {
        "./"@ + p
    } else {
        p
    }
}

/// `s` with every `%` doubled.
pub open spec fn double_percent(s: Seq<char>) -> Seq<char>
    decreases s.len(),
{
    if s.len() == 0 {
        Seq::empty()
    } else {
        double_percent(s.drop_last()) + if s.last() == '%' {
            seq!['%', '%']
        } else {
            seq![s.last()]
        }
    }
}

/// A path argument that no tool reads as an option (see `safe_path`).
pub fn safe_path_arg(path: &str) -> (r: String)
    ensures
        r@ == safe_path(path@),
{
    let dash = str_starts_with(path, "-");
    proof {
        reveal_strlit("-");
        if path@.len() > 0 {
            assert(path@.subrange(0, 1)[0] == path@[0]);
            if path@[0] == '-' {
                assert(path@.subrange(0, 1) =~= "-"@);
            }
        }
    }
    if dash {
        concat2("./", path)
    } else {
        String::from_str(path)
    }
}

/// A path argument for ExifTool options that expand `%`: the safe path with
/// every `%` doubled.
pub fn property_safe_path(path: &str) -> (r: String)
    ensures
        r@ == double_percent(safe_path(path@)),
{
    let safe = safe_path_arg(path);
    let cs = chars_of(safe.as_str());
    let mut out: Vec<char> = Vec::new();
    let mut i: usize = 0;
    while i < cs.len()
        invariant
            i <= cs@.len(),
            out@ == double_percent(cs@.take(i as int)),
        decreases cs@.len() - i,
    {
        assert(cs@.take(i + 1).drop_last() =~= cs@.take(i as int));
        let c = cs[i];
        out.push(c);
        if c == '%' {
            out.push('%');
        }
        proof {
            if c == '%' {
                assert(out@ =~= double_percent(cs@.take(i as int)) + seq!['%', '%']);
            } else {
                assert(out@ =~= double_percent(cs@.take(i as int)) + seq![c]);
            }
        }
        i = i + 1;
    }
    assert(cs@.take(i as int) =~= cs@);
    string_from_chars(out.as_slice())
}

/// A safe path never starts with `-`, so no tool reads it as an option.
pub proof fn law_safe_path_is_not_an_option(p: Seq<char>)
    ensures
        safe_path(p).len() > 0 ==> safe_path(p)[0] != '-',
        safe_path(p).len() >= p.len(),
{
    reveal_strlit("./");
}

} // verus!
