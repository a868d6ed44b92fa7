//! Byte-level helpers shared by the container parsers: pattern search over
//! byte slices and fixed-width integer reads.
use vstd::prelude::*;

verus! {

broadcast use vstd::slice::group_slice_axioms;

/// `pat` occurs in `s` starting at index `i`.
pub open spec fn occurs_at<T>(s: Seq<T>, pat: Seq<T>, i: int) -> bool {
    0 <= i && i + pat.len() <= s.len() && s.subrange(i, i + pat.len()) == pat
}

/// `pat` occurs somewhere in `s`.
pub open spec fn contains_seq<T>(s: Seq<T>, pat: Seq<T>) -> bool {
    exists|i: int| #[trigger] occurs_at(s, pat, i)
}

/// Number of positions in `[0, upto)` at which `pat` occurs in `s`.
pub open spec fn count_occurrences<T>(s: Seq<T>, pat: Seq<T>, upto: int) -> nat
    decreases upto,
{
    if upto <= 0 {
        0
    } else {
        count_occurrences(s, pat, upto - 1) + if occurs_at(s, pat, upto - 1) {
            1nat
        } else {
            0nat
        }
    }
}

/// The first position at which `pat` occurs in `s`, if any.
#[verifier::opaque]
pub open spec fn first_occurrence<T>(s: Seq<T>, pat: Seq<T>) -> Option<int> {
    if contains_seq(s, pat) {
        Some(choose|i: int| occurs_at(s, pat, i) && forall|j: int| 0 <= j < i ==> !occurs_at(s, pat, j))
    } else {
        None
    }
}

/// The four bytes `a b c d` as a sequence.
pub open spec fn tag4(a: u8, b: u8, c: u8, d: u8) -> Seq<u8> {
    seq![a, b, c, d]
}

/// Little-endian 16-bit value of `s[i..i+2]`.
pub open spec fn le_u16(s: Seq<u8>, i: int) -> int {
    s[i] as int + 256 * (s[i + 1] as int)
}

/// Big-endian 16-bit value of `s[i..i+2]`.
pub open spec fn be_u16(s: Seq<u8>, i: int) -> int {
    256 * (s[i] as int) + s[i + 1] as int
}

/// Little-endian 24-bit value of `s[i..i+3]`.
pub open spec fn le_u24(s: Seq<u8>, i: int) -> int {
    s[i] as int + 256 * (s[i + 1] as int) + 65536 * (s[i + 2] as int)
}

/// Little-endian 32-bit value of `s[i..i+4]`.
pub open spec fn le_u32(s: Seq<u8>, i: int) -> int {
    s[i] as int + 256 * (s[i + 1] as int) + 65536 * (s[i + 2] as int) + 16777216 * (
    s[i + 3] as int)
}

/// Big-endian 32-bit value of `s[i..i+4]`.
pub open spec fn be_u32(s: Seq<u8>, i: int) -> int {
    16777216 * (s[i] as int) + 65536 * (s[i + 1] as int) + 256 * (s[i + 2] as int) + s[i
        + 3] as int
}

/// Big-endian 64-bit value of `s[i..i+8]`.
pub open spec fn be_u64(s: Seq<u8>, i: int) -> int {
    be_u32(s, i) * 4294967296 + be_u32(s, i + 4)
}

/// Little-endian 64-bit value of `s[i..i+8]`.
pub open spec fn le_u64(s: Seq<u8>, i: int) -> int {
    le_u32(s, i) + le_u32(s, i + 4) * 4294967296
}

/// Whether `pat` occurs in `data` at `pos`.
pub fn matches_at(data: &[u8], pos: usize, pat: &[u8]) -> (r: bool)
    ensures
        r == occurs_at(data@, pat@, pos as int),
{
    if pos > data.len() || pat.len() > data.len() - pos {
        return false;
    }
    let mut k: usize = 0;
    while k < pat.len()
        invariant
            pos + pat@.len() <= data@.len(),
            pos + pat.len() <= data.len(),
            k <= pat@.len(),
            forall|j: int| 0 <= j < k ==> data@[pos + j] == pat@[j],
        decreases pat@.len() - k,
    {
        if data[pos + k] != pat[k] {
            assert(data@.subrange(pos as int, pos + pat@.len())[k as int] != pat@[k as int]);
            return false;
        }
        k = k + 1;
    }
    assert(data@.subrange(pos as int, pos + pat@.len()) =~= pat@);
    true
}

/// Whether the four bytes at `pos` are `a b c d`.
pub fn matches_tag_at(data: &[u8], pos: usize, a: u8, b: u8, c: u8, d: u8) -> (r: bool)
    ensures
        r == occurs_at(data@, tag4(a, b, c, d), pos as int),
{
    let pat: [u8; 4] = [a, b, c, d];
    assert(pat@ =~= tag4(a, b, c, d));
    matches_at(data, pos, &pat)
}

/// First position of `pat` in `data` at or after `from`.
pub fn find_from(data: &[u8], pat: &[u8], from: usize) -> (r: Option<usize>)
    requires
        pat@.len() > 0,
    ensures
        match r {
            Some(i) => from <= i && occurs_at(data@, pat@, i as int) && forall|j: int|
                from <= j < i ==> !occurs_at(data@, pat@, j),
            None => forall|j: int| from <= j ==> !occurs_at(data@, pat@, j),
        },
{
    let mut i = from;
    while i < data.len()
        invariant
            from <= i,
            pat@.len() > 0,
            forall|j: int| from <= j < i ==> !occurs_at(data@, pat@, j),
        decreases data@.len() - i,
    {
        if matches_at(data, i, pat) {
            return Some(i);
        }
        i = i + 1;
    }
    None
}

/// Whether `pat` occurs anywhere in `data`.
pub fn contains(data: &[u8], pat: &[u8]) -> (r: bool)
    requires
        pat@.len() > 0,
    ensures
        r == contains_seq(data@, pat@),
{
    match find_from(data, pat, 0) {
        Some(i) => {
            assert(occurs_at(data@, pat@, i as int));
            true
        },
        None => {
            assert forall|j: int| !occurs_at(data@, pat@, j) by {
                if j < 0 {
                }
            }
            false
        },
    }
}

/// First position of `pat` in `data`.
pub fn position(data: &[u8], pat: &[u8]) -> (r: Option<usize>)
    requires
        pat@.len() > 0,
    ensures
        match r {
            Some(i) => occurs_at(data@, pat@, i as int) && forall|j: int|
                0 <= j < i ==> !occurs_at(data@, pat@, j),
            None => !contains_seq(data@, pat@),
        },
{
    let r = find_from(data, pat, 0);
    if r.is_none() {
        assert forall|j: int| !occurs_at(data@, pat@, j) by {
            if j < 0 {
            }
        }
    }
    r
}

/// Number of positions at which `pat` occurs in `data`.
pub fn count(data: &[u8], pat: &[u8]) -> (r: usize)
    ensures
        r == count_occurrences(data@, pat@, data@.len() as int),
{
    let mut n: usize = 0;
    let mut i: usize = 0;
    while i < data.len()
        invariant
            i <= data@.len(),
            n == count_occurrences(data@, pat@, i as int),
            n <= i,
        decreases data@.len() - i,
    {
        if matches_at(data, i, pat) {
            n = n + 1;
        }
        i = i + 1;
    }
    n
}

/// Reads the little-endian 16-bit value at `i`.
pub fn read_le_u16(d: &[u8], i: usize) -> (r: u16)
    requires
        i + 2 <= d@.len(),
    ensures
        r == le_u16(d@, i as int),
{
    d[i] as u16 + (d[i + 1] as u16) * 256
}

/// Reads the big-endian 16-bit value at `i`.
pub fn read_be_u16(d: &[u8], i: usize) -> (r: u16)
    requires
        i + 2 <= d@.len(),
    ensures
        r == be_u16(d@, i as int),
{
    (d[i] as u16) * 256 + d[i + 1] as u16
}

/// Reads the little-endian 24-bit value at `i`.
pub fn read_le_u24(d: &[u8], i: usize) -> (r: u32)
    requires
        i + 3 <= d@.len(),
    ensures
        r == le_u24(d@, i as int),
{
    d[i] as u32 + (d[i + 1] as u32) * 256 + (d[i + 2] as u32) * 65536
}

/// Reads the little-endian 32-bit value at `i`.
pub fn read_le_u32(d: &[u8], i: usize) -> (r: u32)
    requires
        i + 4 <= d@.len(),
    ensures
        r == le_u32(d@, i as int),
{
    d[i] as u32 + (d[i + 1] as u32) * 256 + (d[i + 2] as u32) * 65536 + (d[i + 3] as u32)
        * 16777216
}

/// Reads the big-endian 32-bit value at `i`.
pub fn read_be_u32(d: &[u8], i: usize) -> (r: u32)
    requires
        i + 4 <= d@.len(),
    ensures
        r == be_u32(d@, i as int),
{
    (d[i] as u32) * 16777216 + (d[i + 1] as u32) * 65536 + (d[i + 2] as u32) * 256 + d[i
        + 3] as u32
}

/// Reads the big-endian 64-bit value at `i`.
pub fn read_be_u64(d: &[u8], i: usize) -> (r: u64)
    requires
        i + 8 <= d@.len(),
    ensures
        r == be_u64(d@, i as int),
{
    assert(d@.len() == d.len());
    let hi = read_be_u32(d, i) as u64;
    let lo = read_be_u32(d, i + 4) as u64;
    assert(hi * 4294967296 + lo <= u64::MAX) by (nonlinear_arith)
        requires
            hi <= u32::MAX,
            lo <= u32::MAX,
    ;
    hi * 4294967296 + lo
}

/// Reads the little-endian 64-bit value at `i`.
pub fn read_le_u64(d: &[u8], i: usize) -> (r: u64)
    requires
        i + 8 <= d@.len(),
    ensures
        r == le_u64(d@, i as int),
{
    assert(d@.len() == d.len());
    let lo = read_le_u32(d, i) as u64;
    let hi = read_le_u32(d, i + 4) as u64;
    assert(hi * 4294967296 + lo <= u64::MAX) by (nonlinear_arith)
        requires
            hi <= u32::MAX,
            lo <= u32::MAX,
    ;
    lo + hi * 4294967296
}

/// The first occurrence is the unique position with no earlier occurrence.
pub proof fn lemma_first_occurrence_unique<T>(s: Seq<T>, pat: Seq<T>, i: int)
    requires
        occurs_at(s, pat, i),
        forall|j: int| 0 <= j < i ==> !occurs_at(s, pat, j),
    ensures
        first_occurrence(s, pat) == Some(i),
{
    reveal(first_occurrence);
    assert(contains_seq(s, pat));
    let c = choose|k: int| occurs_at(s, pat, k) && forall|j: int| 0 <= j < k ==> !occurs_at(s, pat, j);
    assert(occurs_at(s, pat, c) && forall|j: int| 0 <= j < c ==> !occurs_at(s, pat, j));
    if c < i {
        assert(!occurs_at(s, pat, c));
    } else if c > i {
        assert(!occurs_at(s, pat, i));
    }
}

/// First position of `pat` in `data`, related to `first_occurrence`.
pub fn first_position(data: &[u8], pat: &[u8]) -> (r: Option<usize>)
    requires
        pat@.len() > 0,
    ensures
        match r {
            Some(i) => first_occurrence(data@, pat@) == Some(i as int) && occurs_at(
                data@,
                pat@,
                i as int,
            ),
            None => first_occurrence(data@, pat@) is None,
        },
{
    let r = position(data, pat);
    match r {
        Some(i) => {
            proof {
                lemma_first_occurrence_unique(data@, pat@, i as int);
            }
        },
        None => {
            proof {
                reveal(first_occurrence);
            }
        },
    }
    r
}

} // verus!
