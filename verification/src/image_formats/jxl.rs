//! JPEG XL lossless detection: JPEG reconstruction box or the codestream's
//! `xyb_encoded` header flag.
use vstd::prelude::*;
use crate::bytes::tag4;
use crate::errors::{analysis_error_with, ImgQualityError};
use crate::image_formats::avif::box_payload;
use crate::isobmff::{find_any_box_recursive, find_box_data_recursive, search_boxes, MAX_BOX_DEPTH};

verus! {

broadcast use vstd::slice::group_slice_axioms;

/// `2^n`.
pub open spec fn pow2(n: nat) -> nat
    decreases n,
{
    if n == 0 {
        1
    } else {
        2 * pow2((n - 1) as nat)
    }
}

/// Bit number `k` of the stream, least significant bit of each byte first.
pub open spec fn stream_bit(d: Seq<u8>, k: int) -> int {
    ((d[k / 8] >> ((k % 8) as u8)) & 1u8) as int
}

/// Value of the `n` bits starting at bit `p`, first bit least significant.
pub open spec fn bits_value(d: Seq<u8>, p: int, n: nat) -> int
    decreases n,
{
    if n == 0 {
        0
    } else {
        bits_value(d, p, (n - 1) as nat) + stream_bit(d, p + n - 1) * (pow2((n - 1) as nat) as int)
    }
}

/// Reading `n` bits at bit position `p`: the value and the next position, or
/// `None` when the data ends first.
pub open spec fn read_bits_at(d: Seq<u8>, p: int, n: nat) -> Option<(int, int)> {
    if n == 0 {
        Some((0, p))
    } else if p + n > 8 * d.len() {
        None
    } else {
        Some((bits_value(d, p, n), p + n))
    }
}

/// A `U32` field: a 2-bit selector picks `(base, extra_bits)` from `dists`.
pub open spec fn read_u32_at(d: Seq<u8>, p: int, dists: Seq<(u32, u8)>) -> Option<(int, int)> {
    match read_bits_at(d, p, 2) {
        None => None,
        Some((sel, p1)) => match read_bits_at(d, p1, dists[sel].1 as nat) {
            None => None,
            Some((extra, p2)) => Some((dists[sel].0 + extra, p2)),
        },
    }
}

/// The distributions used by the size fields.
pub open spec fn dist_size() -> Seq<(u32, u8)> {
    seq![(0u32, 9u8), (0, 13), (0, 18), (0, 30)]
}

/// Reading `n` bits, keeping only the position.
pub open spec fn skip_bits(d: Seq<u8>, p: Option<int>, n: nat) -> Option<int> {
    match p {
        None => None,
        Some(q) => match read_bits_at(d, q, n) {
            None => None,
            Some((_, q2)) => Some(q2),
        },
    }
}

/// Reading a `U32` field, keeping only the position.
pub open spec fn skip_u32(d: Seq<u8>, p: Option<int>, dists: Seq<(u32, u8)>) -> Option<int> {
    match p {
        None => None,
        Some(q) => match read_u32_at(d, q, dists) {
            None => None,
            Some((_, q2)) => Some(q2),
        },
    }
}

/// Position after a size header (`small` flag, then either 5-bit or `U32` sizes,
/// a 3-bit ratio and the width when the ratio is 0).
pub open spec fn after_size_header(d: Seq<u8>, p: int) -> Option<int> {
    match read_bits_at(d, p, 1) {
        None => None,
        Some((small, p1)) => if small == 1 {
            match skip_bits(d, Some(p1), 5) {
                None => None,
                Some(p2) => match read_bits_at(d, p2, 3) {
                    None => None,
                    Some((ratio, p3)) => if ratio == 0 {
                        skip_bits(d, Some(p3), 5)
                    } else {
                        Some(p3)
                    },
                },
            }
        } else {
            match skip_u32(d, Some(p1), dist_size()) {
                None => None,
                Some(p2) => match read_bits_at(d, p2, 3) {
                    None => None,
                    Some((ratio, p3)) => if ratio == 0 {
                        skip_u32(d, Some(p3), dist_size())
                    } else {
                        Some(p3)
                    },
                },
            }
        },
    }
}

/// Position after the optional preview header (flag already read as set).
pub open spec fn after_preview(d: Seq<u8>, p: int) -> Option<int> {
    match read_bits_at(d, p, 1) {
        None => None,
        Some((div8, p1)) => if div8 == 1 {
            skip_u32(d, Some(p1), dist_size())
        } else {
            match read_bits_at(d, p1, 1) {
                None => None,
                Some((div16, p2)) => if div16 == 0 {
                    skip_u32(d, skip_u32(d, Some(p2), dist_size()), dist_size())
                } else {
                    Some(p2)
                },
            }
        },
    }
}

/// Position after the optional animation header (flag already read as set).
pub open spec fn after_animation(d: Seq<u8>, p: int) -> Option<int> {
    skip_bits(
        d,
        skip_u32(
            d,
            skip_u32(
                d,
                skip_u32(d, Some(p), seq![(100u32, 0u8), (1000, 0), (0, 10), (0, 30)]),
                seq![(1u32, 0u8), (1001, 0), (0, 10), (0, 30)],
            ),
            seq![(0u32, 0u8), (0, 3), (0, 16), (0, 32)],
        ),
        1,
    )
}

/// Position after a flag and the field it guards.
pub open spec fn after_optional(d: Seq<u8>, p: Option<int>, which: int) -> Option<int> {
    match p {
        None => None,
        Some(q) => match read_bits_at(d, q, 1) {
            None => None,
            Some((flag, q1)) => if flag == 0 {
                Some(q1)
            } else if which == 0 {
                after_size_header(d, q1)
            } else if which == 1 {
                after_preview(d, q1)
            } else {
                after_animation(d, q1)
            },
        },
    }
}

/// Position after the extra fields (orientation, intrinsic size, preview, animation).
pub open spec fn after_extra_fields(d: Seq<u8>, p: int) -> Option<int> {
    after_optional(d, after_optional(d, after_optional(d, skip_bits(d, Some(p), 3), 0), 1), 2)
}

/// Position after the bit-depth header.
pub open spec fn after_bit_depth(d: Seq<u8>, p: int) -> Option<int> {
    match read_bits_at(d, p, 1) {
        None => None,
        Some((float_sample, p1)) => if float_sample == 1 {
            skip_bits(d, skip_u32(d, Some(p1), seq![(32u32, 0u8), (16, 0), (24, 0), (1, 6)]), 4)
        } else {
            skip_u32(d, Some(p1), seq![(8u32, 0u8), (10, 0), (12, 0), (1, 6)])
        },
    }
}

/// `count` extra-channel default flags from `p`, all set: the position after them;
/// `None` when one is clear or the data ends.
pub open spec fn after_default_channels(d: Seq<u8>, p: int, count: nat) -> Option<int>
    decreases count,
{
    if count == 0 {
        Some(p)
    } else {
        match read_bits_at(d, p, 1) {
            None => None,
            Some((flag, p1)) => if flag == 0 {
                None
            } else {
                after_default_channels(d, p1, (count - 1) as nat)
            },
        }
    }
}

/// The `xyb_encoded` flag read after `count` default extra channels from `p`.
pub open spec fn xyb_after_channels(d: Seq<u8>, p: int, count: nat) -> Option<bool> {
    match after_default_channels(d, p, count) {
        None => None,
        Some(q) => match read_bits_at(d, q, 1) {
            None => None,
            Some((xyb, _)) => Some(xyb == 1),
        },
    }
}

/// The `xyb_encoded` flag read from the extra-channel count at `p`.
pub open spec fn xyb_from_channel_count(d: Seq<u8>, p: int) -> Option<bool> {
    match read_u32_at(d, p, seq![(0u32, 0u8), (1, 0), (2, 0), (3, 12)]) {
        None => None,
        Some((num_extra, q)) => xyb_after_channels(d, q, num_extra as nat),
    }
}

/// Position after the `extra_fields` flag, the extra fields it guards and the bit depth.
pub open spec fn after_metadata_prefix(d: Seq<u8>, p: int) -> Option<int> {
    match read_bits_at(d, p, 1) {
        None => None,
        Some((extra, p1)) => {
            let p2 = if extra == 1 {
                after_extra_fields(d, p1)
            } else {
                Some(p1)
            };
            match p2 {
                None => None,
                Some(q) => after_bit_depth(d, q),
            }
        },
    }
}

/// The `xyb_encoded` flag of the image metadata of a codestream (after an
/// optional FF 0A signature): `Some(true)` when the XYB colour transform is
/// used (lossy), `Some(false)` when not, `None` when the header cannot be read
/// this far or an extra channel is not in its default form.
pub open spec fn spec_xyb_encoded(cs: Seq<u8>) -> Option<bool> {
    let start = if cs.len() >= 2 && cs[0] == 0xFF && cs[1] == 0x0A {
        2int
    } else {
        0int
    };
    if start >= cs.len() {
        None
    } else {
        let d = cs.subrange(start, cs.len() as int);
        match after_size_header(d, 0) {
            None => None,
            Some(p1) => match read_bits_at(d, p1, 1) {
                None => None,
                Some((all_default, p2)) => if all_default == 1 {
                    Some(true)
                } else {
                    match after_metadata_prefix(d, p2) {
                        None => None,
                        Some(q) => xyb_from_channel_count(d, q),
                    }
                },
            },
        }
    }
}

proof fn lemma_bits_value_bound(d: Seq<u8>, p: int, n: nat)
    ensures
        0 <= bits_value(d, p, n) < pow2(n),
    decreases n,
{
    if n > 0 {
        lemma_bits_value_bound(d, p, (n - 1) as nat);
        let b = d[(p + n - 1) / 8];
        let k = ((p + n - 1) % 8) as u8;
        assert((b >> k) & 1u8 <= 1) by (bit_vector);
        let bit = stream_bit(d, p + n - 1);
        assert(0 <= bit <= 1);
        let pw = pow2((n - 1) as nat) as int;
        assert(bit * pw <= pw && bit * pw >= 0) by (nonlinear_arith)
            requires
                0 <= bit <= 1,
                pw >= 0,
        ;
    }
}

/// Minimal bit reader over a JPEG XL codestream (least significant bit first).
pub struct JxlBitReader<'a> {
    data: &'a [u8],
    byte_pos: usize,
    bit_pos: u8,
}

impl<'a> JxlBitReader<'a> {
    /// The bytes being read.
    pub closed spec fn bytes(&self) -> Seq<u8> {
        self.data@
    }

    /// Current bit position.
    pub closed spec fn pos(&self) -> int {
        self.byte_pos * 8 + self.bit_pos
    }

    /// The position lies within the data.
    pub closed spec fn wf(&self) -> bool {
        &&& self.bit_pos < 8
        &&& self.byte_pos <= self.data@.len()
        &&& self.byte_pos == self.data@.len() ==> self.bit_pos == 0
    }

    /// A reader at the first bit of `data`.
    pub fn new(data: &'a [u8]) -> (r: Self)
        ensures
            r.wf(),
            r.pos() == 0,
            r.bytes() == data@,
    {
        JxlBitReader { data, byte_pos: 0, bit_pos: 0 }
    }

    /// Read `n` bits (first bit least significant); `None` when the data ends first.
    pub fn read_bits(&mut self, n: u8) -> (r: Option<u32>)
        requires
            old(self).wf(),
            n <= 32,
        ensures
            final(self).wf(),
            final(self).bytes() == old(self).bytes(),
            match read_bits_at(old(self).bytes(), old(self).pos(), n as nat) {
                Some((v, p2)) => r == Some(v as u32) && final(self).pos() == p2 && 0 <= v < pow2(
                    n as nat,
                ) && v <= u32::MAX,
                None => r is None,
            },
    {
        proof {
            lemma_bits_value_bound(old(self).bytes(), old(self).pos(), n as nat);
            lemma_pow2_bound(n as nat);
        }
        if n == 0 {
            return Some(0);
        }
        let ghost start = self.pos();
        let ghost d = self.data@;
        let mut result: u64 = 0;
        let mut pw: u64 = 1;
        let mut i: u8 = 0;
        assert(pow2(0) == 1);
        while i < n
            invariant
                self.wf(),
                self.data@ == d,
                i <= n <= 32,
                self.pos() == start + i,
                result == bits_value(d, start, i as nat),
                pw == pow2(i as nat),
                pw <= 0x1_0000_0000,
                start >= 0,
                start == old(self).pos(),
                d == old(self).bytes(),
            decreases n - i,
        {
            if self.byte_pos >= self.data.len() {
                assert(start + n > 8 * d.len());
                return None;
            }
            let b = self.data[self.byte_pos];
            let bp = self.bit_pos;
            let bit = (b >> bp) & 1;
            assert(self.byte_pos == (start + i) / 8 && self.bit_pos == (start + i) % 8)
                by (nonlinear_arith)
                requires
                    start + i == self.byte_pos * 8 + self.bit_pos,
                    self.bit_pos < 8,
                    self.bit_pos >= 0,
            ;
            assert(bit == stream_bit(d, start + i));
            assert(bit <= 1) by (bit_vector)
                requires
                    bit == (b >> bp) & 1,
            ;
            proof {
                lemma_bits_value_bound(d, start, i as nat);
                lemma_pow2_bound(i as nat);
            }
            assert(result + bit * pw <= 2 * 0x1_0000_0000) by (nonlinear_arith)
                requires
                    result < pw,
                    pw <= 0x1_0000_0000,
                    bit <= 1,
            ;
            result = result + bit as u64 * pw;
            pw = pw * 2;
            i = i + 1;
            self.bit_pos = self.bit_pos + 1;
            if self.bit_pos == 8 {
                self.bit_pos = 0;
                self.byte_pos = self.byte_pos + 1;
            }
        }
        proof {
            lemma_bits_value_bound(d, start, n as nat);
            lemma_pow2_bound(n as nat);
        }
        Some(result as u32)
    }

    /// Read one bit as a flag.
    pub fn read_bool(&mut self) -> (r: Option<bool>)
        requires
            old(self).wf(),
        ensures
            final(self).wf(),
            final(self).bytes() == old(self).bytes(),
            match read_bits_at(old(self).bytes(), old(self).pos(), 1) {
                Some((v, p2)) => r == Some(v == 1) && final(self).pos() == p2,
                None => r is None,
            },
    {
        proof {
            lemma_bits_value_bound(old(self).bytes(), old(self).pos(), 1);
            assert(pow2(1) == 2) by {
                reveal_with_fuel(pow2, 2);
            }
        }
        match self.read_bits(1) {
            Some(v) => Some(v == 1),
            None => None,
        }
    }

    /// Read a `U32` field whose 2-bit selector picks `(base, extra_bits)` from `dists`.
    pub fn read_u32(&mut self, dists: [(u32, u8); 4]) -> (r: Option<u32>)
        requires
            old(self).wf(),
            forall|k: int| 0 <= k < 4 ==> #[trigger] dists@[k].1 <= 32,
            forall|k: int| 0 <= k < 4 ==> dists@[k].0 + pow2(dists@[k].1 as nat) <= 0x1_0000_0000,
        ensures
            final(self).wf(),
            final(self).bytes() == old(self).bytes(),
            match read_u32_at(old(self).bytes(), old(self).pos(), dists@) {
                Some((v, p2)) => r == Some(v as u32) && final(self).pos() == p2 && 0 <= v
                    <= u32::MAX,
                None => r is None,
            },
    {
        let sel = match self.read_bits(2) {
            Some(v) => v,
            None => return None,
        };
        proof {
            lemma_bits_value_bound(old(self).bytes(), old(self).pos(), 2);
            assert(pow2(2) == 4) by {
                reveal_with_fuel(pow2, 3);
            }
        }
        let (base, extra_bits) = dists[sel as usize];
        let extra = match self.read_bits(extra_bits) {
            Some(v) => v,
            None => return None,
        };
        proof {
            let ghost p1 = old(self).pos() + 2;
            lemma_bits_value_bound(old(self).bytes(), p1, extra_bits as nat);
        }
        Some(base + extra)
    }
}

proof fn lemma_pow2_mono(a: nat, b: nat)
    requires
        a <= b,
    ensures
        1 <= pow2(a) <= pow2(b),
    decreases b,
{
    if b > a {
        lemma_pow2_mono(a, (b - 1) as nat);
    } else if b > 0 {
        lemma_pow2_mono(0, (b - 1) as nat);
    }
}

proof fn lemma_pow2_bound(n: nat)
    requires
        n <= 32,
    ensures
        pow2(n) <= 0x1_0000_0000,
        n < 32 ==> pow2(n) <= 0x8000_0000,
        pow2(n) >= 1,
{
    reveal_with_fuel(pow2, 33);
    assert(pow2(31) == 0x8000_0000);
    assert(pow2(32) == 0x1_0000_0000);
    if n < 32 {
        lemma_pow2_mono(n, 31);
    } else {
        lemma_pow2_mono(n, 32);
    }
}

proof fn lemma_pow2_small()
    ensures
        pow2(0) == 1,
        pow2(1) == 2,
        pow2(2) == 4,
        pow2(3) == 8,
        pow2(4) == 16,
        pow2(5) == 32,
        pow2(6) == 64,
        pow2(9) == 512,
        pow2(10) == 1024,
        pow2(12) == 4096,
        pow2(13) == 8192,
        pow2(16) == 65536,
        pow2(18) == 262144,
        pow2(30) == 0x4000_0000,
        pow2(32) == 0x1_0000_0000,
{
    reveal_with_fuel(pow2, 33);
}

fn read_u32_size(r: &mut JxlBitReader) -> (res: Option<u32>)
    requires
        old(r).wf(),
    ensures
        final(r).wf(),
        final(r).bytes() == old(r).bytes(),
        match read_u32_at(old(r).bytes(), old(r).pos(), dist_size()) {
            Some((v, p2)) => res == Some(v as u32) && final(r).pos() == p2,
            None => res is None,
        },
{
    let dists: [(u32, u8); 4] = [(0, 9), (0, 13), (0, 18), (0, 30)];
    proof {
        lemma_pow2_small();
        assert(dists@ =~= dist_size());
    }
    r.read_u32(dists)
}

fn skip_n(r: &mut JxlBitReader, n: u8) -> (res: Option<u32>)
    requires
        old(r).wf(),
        n <= 32,
    ensures
        final(r).wf(),
        final(r).bytes() == old(r).bytes(),
        match read_bits_at(old(r).bytes(), old(r).pos(), n as nat) {
            Some((v, p2)) => res == Some(v as u32) && final(r).pos() == p2 && v == (v as u32),
            None => res is None,
        },
{
    r.read_bits(n)
}

/// Exec form of `after_size_header`.
fn parse_size_header(r: &mut JxlBitReader) -> (res: Option<()>)
    requires
        old(r).wf(),
    ensures
        final(r).wf(),
        final(r).bytes() == old(r).bytes(),
        match after_size_header(old(r).bytes(), old(r).pos()) {
            Some(p) => res is Some && final(r).pos() == p,
            None => res is None,
        },
{
    let small = match skip_n(r, 1) {
        Some(v) => v,
        None => return None,
    };
    if small == 1 {
        if skip_n(r, 5).is_none() {
            return None;
        }
        let ratio = match skip_n(r, 3) {
            Some(v) => v,
            None => return None,
        };
        if ratio == 0 {
            if skip_n(r, 5).is_none() {
                return None;
            }
        }
    } else {
        if read_u32_size(r).is_none() {
            return None;
        }
        let ratio = match skip_n(r, 3) {
            Some(v) => v,
            None => return None,
        };
        if ratio == 0 {
            if read_u32_size(r).is_none() {
                return None;
            }
        }
    }
    Some(())
}

/// Exec form of `after_preview`.
fn parse_preview(r: &mut JxlBitReader) -> (res: Option<()>)
    requires
        old(r).wf(),
    ensures
        final(r).wf(),
        final(r).bytes() == old(r).bytes(),
        match after_preview(old(r).bytes(), old(r).pos()) {
            Some(p) => res is Some && final(r).pos() == p,
            None => res is None,
        },
{
    let div8 = match skip_n(r, 1) {
        Some(v) => v,
        None => return None,
    };
    if div8 == 1 {
        if read_u32_size(r).is_none() {
            return None;
        }
    } else {
        let div16 = match skip_n(r, 1) {
            Some(v) => v,
            None => return None,
        };
        if div16 == 0 {
            if read_u32_size(r).is_none() {
                return None;
            }
            if read_u32_size(r).is_none() {
                return None;
            }
        }
    }
    Some(())
}

/// Exec form of `after_animation`.
fn parse_animation(r: &mut JxlBitReader) -> (res: Option<()>)
    requires
        old(r).wf(),
    ensures
        final(r).wf(),
        final(r).bytes() == old(r).bytes(),
        match after_animation(old(r).bytes(), old(r).pos()) {
            Some(p) => res is Some && final(r).pos() == p,
            None => res is None,
        },
{
    let a: [(u32, u8); 4] = [(100, 0), (1000, 0), (0, 10), (0, 30)];
    let b: [(u32, u8); 4] = [(1, 0), (1001, 0), (0, 10), (0, 30)];
    let c: [(u32, u8); 4] = [(0, 0), (0, 3), (0, 16), (0, 32)];
    proof {
        lemma_pow2_small();
        assert(a@ =~= seq![(100u32, 0u8), (1000, 0), (0, 10), (0, 30)]);
        assert(b@ =~= seq![(1u32, 0u8), (1001, 0), (0, 10), (0, 30)]);
        assert(c@ =~= seq![(0u32, 0u8), (0, 3), (0, 16), (0, 32)]);
    }
    if r.read_u32(a).is_none() {
        return None;
    }
    if r.read_u32(b).is_none() {
        return None;
    }
    if r.read_u32(c).is_none() {
        return None;
    }
    if skip_n(r, 1).is_none() {
        return None;
    }
    Some(())
}

/// Exec form of one `after_optional` step.
fn parse_optional(r: &mut JxlBitReader, which: u8) -> (res: Option<()>)
    requires
        old(r).wf(),
    ensures
        final(r).wf(),
        final(r).bytes() == old(r).bytes(),
        match after_optional(old(r).bytes(), Some(old(r).pos()), which as int) {
            Some(p) => res is Some && final(r).pos() == p,
            None => res is None,
        },
{
    let flag = match skip_n(r, 1) {
        Some(v) => v,
        None => return None,
    };
    if flag == 0 {
        Some(())
    } else if which == 0 {
        parse_size_header(r)
    } else if which == 1 {
        parse_preview(r)
    } else {
        parse_animation(r)
    }
}

/// Exec form of `after_bit_depth`.
fn parse_bit_depth(r: &mut JxlBitReader) -> (res: Option<()>)
    requires
        old(r).wf(),
    ensures
        final(r).wf(),
        final(r).bytes() == old(r).bytes(),
        match after_bit_depth(old(r).bytes(), old(r).pos()) {
            Some(p) => res is Some && final(r).pos() == p,
            None => res is None,
        },
{
    let fl: [(u32, u8); 4] = [(32, 0), (16, 0), (24, 0), (1, 6)];
    let it: [(u32, u8); 4] = [(8, 0), (10, 0), (12, 0), (1, 6)];
    proof {
        lemma_pow2_small();
        assert(fl@ =~= seq![(32u32, 0u8), (16, 0), (24, 0), (1, 6)]);
        assert(it@ =~= seq![(8u32, 0u8), (10, 0), (12, 0), (1, 6)]);
    }
    let float_sample = match skip_n(r, 1) {
        Some(v) => v,
        None => return None,
    };
    if float_sample == 1 {
        if r.read_u32(fl).is_none() {
            return None;
        }
        if skip_n(r, 4).is_none() {
            return None;
        }
    } else {
        if r.read_u32(it).is_none() {
            return None;
        }
    }
    Some(())
}

/// Exec form of `after_metadata_prefix`.
fn parse_metadata_prefix(r: &mut JxlBitReader) -> (res: Option<()>)
    requires
        old(r).wf(),
    ensures
        final(r).wf(),
        final(r).bytes() == old(r).bytes(),
        match after_metadata_prefix(old(r).bytes(), old(r).pos()) {
            Some(p) => res is Some && final(r).pos() == p,
            None => res is None,
        },
{
    let extra = match skip_n(r, 1) {
        Some(v) => v,
        None => return None,
    };
    if extra == 1 {
        if skip_n(r, 3).is_none() {
            return None;
        }
        if parse_optional(r, 0).is_none() {
            return None;
        }
        if parse_optional(r, 1).is_none() {
            return None;
        }
        if parse_optional(r, 2).is_none() {
            return None;
        }
    }
    parse_bit_depth(r)
}

/// Exec form of `xyb_from_channel_count`.
fn parse_channels_and_xyb(r: &mut JxlBitReader) -> (res: Option<bool>)
    requires
        old(r).wf(),
    ensures
        res == xyb_from_channel_count(old(r).bytes(), old(r).pos()),
{
    let ghost d = r.bytes();
    let ex: [(u32, u8); 4] = [(0, 0), (1, 0), (2, 0), (3, 12)];
    proof {
        lemma_pow2_small();
        assert(ex@ =~= seq![(0u32, 0u8), (1, 0), (2, 0), (3, 12)]);
    }
    let num_extra = match r.read_u32(ex) {
        Some(v) => v,
        None => return None,
    };
    let ghost target = xyb_after_channels(d, r.pos(), num_extra as nat);
    let mut k: u32 = 0;
    while k < num_extra
        invariant
            r.wf(),
            r.bytes() == d,
            k <= num_extra,
            target == xyb_after_channels(d, r.pos(), (num_extra - k) as nat),
            target == xyb_from_channel_count(old(r).bytes(), old(r).pos()),
            d == old(r).bytes(),
        decreases num_extra - k,
    {
        let flag = match skip_n(r, 1) {
            Some(v) => v,
            None => return None,
        };
        if flag == 0 {
            return None;
        }
        k = k + 1;
    }
    match skip_n(r, 1) {
        Some(v) => Some(v == 1),
        None => None,
    }
}

/// Exec form of `spec_xyb_encoded`: parse a codestream header up to `xyb_encoded`.
fn parse_jxl_xyb_encoded(codestream: &[u8]) -> (res: Option<bool>)
    ensures
        res == spec_xyb_encoded(codestream@),
{
    let start: usize = if codestream.len() >= 2 && codestream[0] == 0xFF && codestream[1] == 0x0A {
        2
    } else {
        0
    };
    if start >= codestream.len() {
        return None;
    }
    let rest = vstd::slice::slice_subrange(codestream, start, codestream.len());
    let mut r = JxlBitReader::new(rest);
    if parse_size_header(&mut r).is_none() {
        return None;
    }
    let all_default = match skip_n(&mut r, 1) {
        Some(v) => v,
        None => return None,
    };
    if all_default == 1 {
        return Some(true);
    }
    if parse_metadata_prefix(&mut r).is_none() {
        return None;
    }
    parse_channels_and_xyb(&mut r)
}

/// Whether JXL data is lossless: a JPEG reconstruction (`jbrd`) box means lossless;
/// otherwise the codestream (bare, or in a `jxlc` / `jxlp` box) decides through
/// its `xyb_encoded` flag; `None` when undetermined.
pub open spec fn spec_jxl_is_lossless(d: Seq<u8>) -> Option<bool> {
    if d.len() < 4 {
        None
    } else {
        let naked = d[0] == 0xFF && d[1] == 0x0A;
        if !naked && search_boxes(
            d,
            0,
            d.len() as int,
            tag4(0x6A, 0x62, 0x72, 0x64),
            MAX_BOX_DEPTH as nat,
        ) is Some {
            Some(true)
        } else {
            let cs = if naked {
                Some(d)
            } else if box_payload(d, tag4(0x6A, 0x78, 0x6C, 0x63)) is Some {
                box_payload(d, tag4(0x6A, 0x78, 0x6C, 0x63))
            } else {
                box_payload(d, tag4(0x6A, 0x78, 0x6C, 0x70))
            };
            match cs {
                Some(c) => match spec_xyb_encoded(c) {
                    Some(x) => Some(!x),
                    None => None,
                },
                None => None,
            }
        }
    }
}

/// Detect JXL lossless encoding (JPEG reconstruction box, or codestream header).
#[verifier::spinoff_prover]
#[verifier::rlimit(40)]
pub fn is_lossless_from_bytes(data: &[u8], path: &str) -> (r: Result<bool, ImgQualityError>)
    ensures
        match spec_jxl_is_lossless(data@) {
            Some(b) => r is Ok && r->Ok_0 == b,
            None => r is Err,
        },
{
    if data.len() < 4 {
        return Err(analysis_error_with("JXL: file too short — ", path));
    }
    let is_naked = data[0] == 0xFF && data[1] == 0x0A;
    let jbrd: [u8; 4] = [0x6A, 0x62, 0x72, 0x64];
    let jxlc: [u8; 4] = [0x6A, 0x78, 0x6C, 0x63];
    let jxlp: [u8; 4] = [0x6A, 0x78, 0x6C, 0x70];
    assert(jbrd@ =~= tag4(0x6A, 0x62, 0x72, 0x64));
    assert(jxlc@ =~= tag4(0x6A, 0x78, 0x6C, 0x63));
    assert(jxlp@ =~= tag4(0x6A, 0x78, 0x6C, 0x70));
    if !is_naked && find_any_box_recursive(data, jbrd) {
        return Ok(true);
    }
    let codestream: Option<&[u8]> = if is_naked {
        Some(data)
    } else {
        match find_box_data_recursive(data, jxlc) {
            Some(c) => Some(c),
            None => find_box_data_recursive(data, jxlp),
        }
    };
    if let Some(cs) = codestream {
        match parse_jxl_xyb_encoded(cs) {
            Some(true) => return Ok(false),
            Some(false) => return Ok(true),
            None => {},
        }
    }
    Err(
        analysis_error_with(
            "JXL: no jbrd and codestream header unparseable — cannot determine — ",
            path,
        ),
    )
}

/// Whether the leading bytes carry a JXL signature (bare codestream FF 0A, or the
/// 00 00 start of a container box).
pub fn verify_signature_bytes(header: &[u8]) -> (r: bool)
    ensures
        r == (header@.len() >= 2 && ((header@[0] == 0xFF && header@[1] == 0x0A) || (header@[0]
            == 0 && header@[1] == 0))),
{
    header.len() >= 2 && ((header[0] == 0xFF && header[1] == 0x0A) || (header[0] == 0
        && header[1] == 0))
}

/// Whether a file is a JXL image, judged by its first bytes (see `verify_signature_bytes`).
pub fn is_valid(header: &[u8]) -> (r: bool)
    ensures
        r == (header@.len() >= 2 && ((header@[0] == 0xFF && header@[1] == 0x0A) || (header@[0]
            == 0 && header@[1] == 0))),
{
    verify_signature_bytes(header)
}

/// A JXL container holding a JPEG reconstruction (`jbrd`) box is lossless.
pub proof fn law_jpeg_reconstruction_is_lossless(d: Seq<u8>)
    requires
        d.len() >= 4,
        !(d[0] == 0xFF && d[1] == 0x0A),
        search_boxes(d, 0, d.len() as int, tag4(0x6A, 0x62, 0x72, 0x64), MAX_BOX_DEPTH as nat) is Some,
    ensures
        spec_jxl_is_lossless(d) == Some(true),
{
}

/// Image metadata whose `all_default` bit (the first bit after the size header)
/// is set takes the default `xyb_encoded = true`: a bare codestream with it is
/// lossy.
pub proof fn law_default_metadata_is_lossy(d: Seq<u8>)
    requires
        d.len() >= 4,
        d[0] == 0xFF && d[1] == 0x0A,
        after_size_header(d.subrange(2, d.len() as int), 0) matches Some(p) && read_bits_at(
            d.subrange(2, d.len() as int),
            p,
            1,
        ) matches Some((b, _)) && b == 1,
    ensures
        spec_xyb_encoded(d) == Some(true),
        spec_jxl_is_lossless(d) == Some(false),
{
    let s = d.subrange(2, d.len() as int);
    let p = after_size_header(s, 0).unwrap();
    assert(read_bits_at(s, p, 1).unwrap().0 == 1);
    assert(spec_xyb_encoded(d) == Some(true));
}

/// A bare codestream is judged lossless only when its image metadata is not
/// all-default (the `all_default` bit after the size header is clear).
pub proof fn law_lossless_codestream_has_explicit_metadata(d: Seq<u8>)
    requires
        d.len() >= 4,
        d[0] == 0xFF && d[1] == 0x0A,
        spec_jxl_is_lossless(d) == Some(true),
    ensures
        after_size_header(d.subrange(2, d.len() as int), 0) matches Some(p) && read_bits_at(
            d.subrange(2, d.len() as int),
            p,
            1,
        ) matches Some((b, _)) && b == 0,
{
    let s = d.subrange(2, d.len() as int);
    let p = after_size_header(s, 0).unwrap();
    let (b, _) = read_bits_at(s, p, 1).unwrap();
    assert(0 <= bits_value(s, p, 1) < 2) by {
        lemma_bits_value_bound(s, p, 1);
    }
}

} // verus!
