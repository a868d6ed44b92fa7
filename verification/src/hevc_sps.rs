//! HEVC decoder configuration record (hvcC) and sequence parameter set (SPS) reading.
use vstd::prelude::*;
use crate::bytes::{be_u16, read_be_u16};

verus! {

broadcast use vstd::slice::group_slice_axioms;

/// NAL unit type of a sequence parameter set.
pub const NAL_UNIT_TYPE_SPS: u8 = 33;

/// `2^n`.
pub open spec fn p2(n: nat) -> nat
    decreases n,
{
    if n == 0 {
        1
    } else {
        2 * p2((n - 1) as nat)
    }
}

/// Bit `k` of the stream, most significant bit of each byte first.
pub open spec fn msb_bit(d: Seq<u8>, k: int) -> int {
    ((d[k / 8] >> ((7 - k % 8) as u8)) & 1u8) as int
}

/// Value of the `n` bits at bit `p`, first bit most significant.
pub open spec fn msb_value(d: Seq<u8>, p: int, n: nat) -> int
    decreases n,
{
    if n == 0 {
        0
    } else {
        2 * msb_value(d, p, (n - 1) as nat) + msb_bit(d, p + n - 1)
    }
}

/// Reading `n` bits at `p`: value and next position, `None` past the end.
pub open spec fn rd(d: Seq<u8>, p: int, n: nat) -> Option<(int, int)> {
    if p + n > 8 * d.len() {
        None
    } else {
        Some((msb_value(d, p, n), p + n))
    }
}

/// Leading zero bits of an Exp-Golomb code at `p` (counted from `lz`) and the
/// position after the terminating one bit (or the end of the data).
pub open spec fn ue_prefix(d: Seq<u8>, p: int, lz: nat) -> (nat, int)
    decreases 8 * d.len() - p,
{
    if p < 0 || p >= 8 * d.len() {
        (lz, p)
    } else if msb_bit(d, p) == 1 {
        (lz, p + 1)
    } else {
        ue_prefix(d, p + 1, lz + 1)
    }
}

/// An unsigned Exp-Golomb code at `p`: value and next position; codes with 32 or
/// more leading zeros are rejected as malformed.
pub open spec fn rd_ue(d: Seq<u8>, p: int) -> Option<(int, int)> {
    let (lz, q) = ue_prefix(d, p, 0);
    if lz >= 32 {
        None
    } else if lz == 0 {
        Some((0, q))
    } else {
        match rd(d, q, lz) {
            None => None,
            Some((info, q2)) => Some((p2(lz) - 1 + info, q2)),
        }
    }
}

/// Position after `n` bits.
pub open spec fn sk(d: Seq<u8>, p: Option<int>, n: nat) -> Option<int> {
    match p {
        None => None,
        Some(q) => match rd(d, q, n) {
            None => None,
            Some((_, q2)) => Some(q2),
        },
    }
}

/// Position after an Exp-Golomb code.
pub open spec fn sk_ue(d: Seq<u8>, p: Option<int>) -> Option<int> {
    match p {
        None => None,
        Some(q) => match rd_ue(d, q) {
            None => None,
            Some((_, q2)) => Some(q2),
        },
    }
}

/// Position after `n` Exp-Golomb codes.
pub open spec fn sk_ue_n(d: Seq<u8>, p: Option<int>, n: nat) -> Option<int>
    decreases n,
{
    if n == 0 {
        p
    } else {
        sk_ue_n(d, sk_ue(d, p), (n - 1) as nat)
    }
}

/// Position after a flag and, when it is set, the field it guards
/// (`which` 0: four codes; 1: the PCM parameters).
pub open spec fn sk_flagged(d: Seq<u8>, p: Option<int>, which: int) -> Option<int> {
    match p {
        None => None,
        Some(q) => match rd(d, q, 1) {
            None => None,
            Some((f, q1)) => if f == 0 {
                Some(q1)
            } else if which == 0 {
                sk_ue_n(d, Some(q1), 4)
            } else {
                sk(d, sk_ue_n(d, sk(d, sk(d, Some(q1), 1), 1), 2), 1)
            },
        },
    }
}

/// Leading SPS fields of the RBSP `d`: (`max_sub_layers_minus1`,
/// `chroma_format_idc`, position after them).
pub open spec fn sps_head(d: Seq<u8>) -> Option<(int, int, int)> {
    match rd(d, 0, 4) {
        None => None,
        Some((_, p1)) => match rd(d, p1, 3) {
            None => None,
            Some((max_sub_layers, p2_)) => match sk_ue(d, sk(d, Some(p2_), 1)) {
                None => None,
                Some(p3) => match rd_ue(d, p3) {
                    None => None,
                    Some((chroma, p4)) => Some((max_sub_layers, chroma, p4)),
                },
            },
        },
    }
}

/// Position after the SPS fields from the separate-colour-plane flag to the
/// chroma coding block sizes.
pub open spec fn sps_mid(d: Seq<u8>, max_sub_layers: int, chroma: int, p: int) -> Option<int> {
    let p5 = if chroma == 3 {
        sk(d, Some(p), 1)
    } else {
        Some(p)
    };
    let p6 = sk_ue_n(d, sk_flagged(d, sk_ue_n(d, p5, 2), 0), 2);
    let p7 = sk_ue_n(d, p6, (3 * (max_sub_layers + 1) + 3) as nat);
    if chroma != 0 {
        sk_ue_n(d, p7, 3)
    } else {
        p7
    }
}

/// The flag after the AMP, SAO and PCM fields from `p`.
pub open spec fn sps_tail_flag(d: Seq<u8>, p: int) -> Option<bool> {
    match sk_flagged(d, sk(d, sk(d, Some(p), 1), 1), 1) {
        None => None,
        Some(q) => match rd(d, q, 1) {
            None => None,
            Some((flag, _)) => Some(flag == 1),
        },
    }
}

/// The flag read after the sequence parameter set fields of an SPS NAL unit
/// payload (two header bytes, then the RBSP); `None` when the data ends first.
pub open spec fn spec_transquant_bypass(payload: Seq<u8>) -> Option<bool> {
    if payload.len() < 3 {
        None
    } else {
        let d = payload.subrange(2, payload.len() as int);
        match sps_head(d) {
            None => None,
            Some((m, c, p)) => match sps_mid(d, m, c, p) {
                None => None,
                Some(q) => sps_tail_flag(d, q),
            },
        }
    }
}

proof fn lemma_msb_value_bound(d: Seq<u8>, p: int, n: nat)
    ensures
        0 <= msb_value(d, p, n) < p2(n),
    decreases n,
{
    if n > 0 {
        lemma_msb_value_bound(d, p, (n - 1) as nat);
        let b = d[(p + n - 1) / 8];
        let k = ((7 - (p + n - 1) % 8)) as u8;
        assert((b >> k) & 1u8 <= 1) by (bit_vector);
    }
}

proof fn lemma_p2_bound(n: nat)
    requires
        n <= 32,
    ensures
        1 <= p2(n) <= 0x1_0000_0000,
        n <= 31 ==> p2(n) <= 0x8000_0000,
    decreases n,
{
    reveal_with_fuel(p2, 33);
    assert(p2(31) == 0x8000_0000);
    assert(p2(32) == 0x1_0000_0000);
    lemma_p2_mono(n, 32);
    if n <= 31 {
        lemma_p2_mono(n, 31);
    }
}

proof fn lemma_p2_mono(a: nat, b: nat)
    requires
        a <= b,
    ensures
        1 <= p2(a) <= p2(b),
    decreases b,
{
    if b > a {
        lemma_p2_mono(a, (b - 1) as nat);
    } else if b > 0 {
        lemma_p2_mono(0, (b - 1) as nat);
    }
}

proof fn lemma_ue_prefix_ge(d: Seq<u8>, p: int, lz: nat)
    ensures
        ue_prefix(d, p, lz).0 >= lz,
    decreases 8 * d.len() - p,
{
    if p >= 0 && p < 8 * d.len() && msb_bit(d, p) != 1 {
        lemma_ue_prefix_ge(d, p + 1, lz + 1);
    }
}

/// Bit reader over an SPS RBSP, most significant bit first.
pub struct SpsBitReader<'a> {
    data: &'a [u8],
    byte_pos: usize,
    bit_off: u8,
}

impl<'a> SpsBitReader<'a> {
    /// The bytes being read.
    pub closed spec fn bytes(&self) -> Seq<u8> {
        self.data@
    }

    /// Current bit position.
    pub closed spec fn pos(&self) -> int {
        8 * self.byte_pos + self.bit_off
    }

    /// The position lies within the data: inside a byte, or just past the last one.
    pub closed spec fn wf(&self) -> bool {
        &&& self.bit_off < 8
        &&& self.byte_pos < self.data@.len() || (self.byte_pos == self.data@.len()
            && self.bit_off == 0)
    }

    /// A reader at the first bit of `data`.
    pub fn new(data: &'a [u8]) -> (r: Self)
        ensures
            r.wf(),
            r.pos() == 0,
            r.bytes() == data@,
    {
        SpsBitReader { data, byte_pos: 0, bit_off: 0 }
    }

    /// The bit at the current position; the position moves on by one.
    fn next_bit(&mut self) -> (bit: u8)
        requires
            old(self).wf(),
            old(self).pos() < 8 * old(self).bytes().len(),
        ensures
            final(self).wf(),
            final(self).bytes() == old(self).bytes(),
            final(self).pos() == old(self).pos() + 1,
            bit as int == msb_bit(old(self).bytes(), old(self).pos()),
            bit <= 1,
    {
        let b = self.data[self.byte_pos];
        let shift: u8 = 7 - self.bit_off;
        let bit = (b >> shift) & 1;
        assert(bit <= 1) by (bit_vector)
            requires
                bit == (b >> shift) & 1,
        ;
        proof {
            let k = self.pos();
            assert(k / 8 == self.byte_pos as int);
            assert(k % 8 == self.bit_off as int);
        }
        if self.bit_off == 7 {
            self.bit_off = 0;
            self.byte_pos = self.byte_pos + 1;
        } else {
            self.bit_off = self.bit_off + 1;
        }
        bit
    }

    /// Read `n` bits, first bit most significant.
    pub fn read_bits(&mut self, n: usize) -> (r: Option<u32>)
        requires
            old(self).wf(),
            n <= 31,
        ensures
            final(self).wf(),
            final(self).bytes() == old(self).bytes(),
            match rd(old(self).bytes(), old(self).pos(), n as nat) {
                Some((v, q)) => r == Some(v as u32) && final(self).pos() == q && 0 <= v < p2(
                    n as nat,
                ),
                None => r is None,
            },
    {
        let rem_bytes = self.data.len() - self.byte_pos;
        if rem_bytes < 5 {
            let avail = rem_bytes * 8 - self.bit_off as usize;
            if n > avail {
                return None;
            }
        }
        let ghost start = self.pos();
        let ghost d = self.data@;
        let mut v: u64 = 0;
        let mut i: usize = 0;
        proof {
            lemma_p2_bound(n as nat);
        }
        while i < n
            invariant
                self.wf(),
                self.data@ == d,
                start == old(self).pos(),
                d == old(self).bytes(),
                i <= n <= 31,
                start + n <= 8 * d.len(),
                self.pos() == start + i,
                v == msb_value(d, start, i as nat),
                start >= 0,
            decreases n - i,
        {
            proof {
                lemma_msb_value_bound(d, start, i as nat);
                lemma_p2_bound(i as nat);
            }
            let bit = self.next_bit();
            v = 2 * v + bit as u64;
            i = i + 1;
        }
        proof {
            lemma_msb_value_bound(d, start, n as nat);
        }
        Some(v as u32)
    }

    /// Read an unsigned Exp-Golomb code (see `rd_ue`).
    pub fn read_ue(&mut self) -> (r: Option<u32>)
        requires
            old(self).wf(),
        ensures
            final(self).wf(),
            final(self).bytes() == old(self).bytes(),
            match rd_ue(old(self).bytes(), old(self).pos()) {
                Some((v, q)) => r == Some(v as u32) && final(self).pos() == q,
                None => r is None,
            },
    {
        let ghost d = self.data@;
        let ghost start = self.pos();
        let mut lz: usize = 0;
        let mut done = false;
        while !done && self.byte_pos < self.data.len()
            invariant
                self.wf(),
                self.data@ == d,
                d == old(self).bytes(),
                start == old(self).pos(),
                lz < 32,
                !done ==> ue_prefix(d, self.pos(), lz as nat) == ue_prefix(d, start, 0),
                done ==> (lz as nat, self.pos()) == ue_prefix(d, start, 0),
            decreases 8 * d.len() - self.pos() + if done {
                0int
            } else {
                1int
            },
        {
            let bit = self.next_bit();
            if bit == 1 {
                done = true;
            } else {
                if lz == 31 {
                    proof {
                        lemma_ue_prefix_ge(d, self.pos(), 32);
                    }
                    return None;
                }
                lz = lz + 1;
            }
        }
        if lz == 0 {
            return Some(0);
        }
        let info = match self.read_bits(lz) {
            Some(x) => x,
            None => return None,
        };
        proof {
            lemma_p2_bound(lz as nat);
        }
        let mut pw: u32 = 1;
        let mut k: usize = 0;
        while k < lz
            invariant
                k <= lz < 32,
                pw == p2(k as nat),
                pw <= 0x8000_0000,
            decreases lz - k,
        {
            proof {
                lemma_p2_bound((k + 1) as nat);
            }
            pw = pw * 2;
            k = k + 1;
        }
        Some(pw - 1 + info)
    }
}

fn skip_bits(r: &mut SpsBitReader, n: usize) -> (res: Option<()>)
    requires
        old(r).wf(),
        n <= 31,
    ensures
        final(r).wf(),
        final(r).bytes() == old(r).bytes(),
        match sk(old(r).bytes(), Some(old(r).pos()), n as nat) {
            Some(q) => res is Some && final(r).pos() == q,
            None => res is None,
        },
{
    match r.read_bits(n) {
        Some(_) => Some(()),
        None => None,
    }
}

fn skip_ue_n(r: &mut SpsBitReader, n: u32) -> (res: Option<()>)
    requires
        old(r).wf(),
    ensures
        final(r).wf(),
        final(r).bytes() == old(r).bytes(),
        match sk_ue_n(old(r).bytes(), Some(old(r).pos()), n as nat) {
            Some(q) => res is Some && final(r).pos() == q,
            None => res is None,
        },
{
    let ghost d = r.bytes();
    let ghost target = sk_ue_n(d, Some(r.pos()), n as nat);
    let mut k: u32 = 0;
    while k < n
        invariant
            r.wf(),
            r.bytes() == d,
            d == old(r).bytes(),
            k <= n,
            target == sk_ue_n(old(r).bytes(), Some(old(r).pos()), n as nat),
            target == sk_ue_n(d, Some(r.pos()), (n - k) as nat),
        decreases n - k,
    {
        match r.read_ue() {
            Some(_) => {},
            None => {
                proof {
                    lemma_sk_ue_n_none(d, (n - k - 1) as nat);
                }
                return None;
            },
        }
        k = k + 1;
    }
    Some(())
}

proof fn lemma_sk_ue_n_none(d: Seq<u8>, n: nat)
    ensures
        sk_ue_n(d, None, n) is None,
    decreases n,
{
    if n > 0 {
        lemma_sk_ue_n_none(d, (n - 1) as nat);
    }
}

fn skip_flagged(r: &mut SpsBitReader, which: u8) -> (res: Option<()>)
    requires
        old(r).wf(),
    ensures
        final(r).wf(),
        final(r).bytes() == old(r).bytes(),
        match sk_flagged(old(r).bytes(), Some(old(r).pos()), which as int) {
            Some(q) => res is Some && final(r).pos() == q,
            None => res is None,
        },
{
    let f = match r.read_bits(1) {
        Some(v) => v,
        None => return None,
    };
    proof {
        reveal_with_fuel(p2, 2);
    }
    if f == 0 {
        return Some(());
    }
    if which == 0 {
        skip_ue_n(r, 4)
    } else {
        if skip_bits(r, 1).is_none() {
            proof {
                lemma_sk_ue_n_none(r.bytes(), 2);
            }
            return None;
        }
        if skip_bits(r, 1).is_none() {
            proof {
                lemma_sk_ue_n_none(r.bytes(), 2);
            }
            return None;
        }
        if skip_ue_n(r, 2).is_none() {
            return None;
        }
        skip_bits(r, 1)
    }
}

fn read_sps_head(r: &mut SpsBitReader) -> (res: Option<(u32, u32)>)
    requires
        old(r).wf(),
    ensures
        final(r).wf(),
        final(r).bytes() == old(r).bytes(),
        match sps_head(old(r).bytes()) {
            Some((m, c, q)) => old(r).pos() == 0 ==> res == Some((m as u32, c as u32))
                && final(r).pos() == q && 0 <= m < 8 && 0 <= c <= u32::MAX,
            None => old(r).pos() == 0 ==> res is None,
        },
{
    proof {
        reveal_with_fuel(p2, 4);
    }
    if skip_bits(r, 4).is_none() {
        return None;
    }
    let max_sub_layers = match r.read_bits(3) {
        Some(v) => v,
        None => return None,
    };
    if skip_bits(r, 1).is_none() {
        return None;
    }
    if r.read_ue().is_none() {
        return None;
    }
    let ghost p3 = r.pos();
    proof {
        lemma_rd_ue_range(r.bytes(), p3);
    }
    let chroma = match r.read_ue() {
        Some(v) => v,
        None => return None,
    };
    Some((max_sub_layers, chroma))
}

proof fn lemma_rd_ue_range(d: Seq<u8>, p: int)
    ensures
        rd_ue(d, p) is Some ==> 0 <= rd_ue(d, p).unwrap().0 <= u32::MAX,
{
    let (lz, q) = ue_prefix(d, p, 0);
    if lz < 32 && lz > 0 {
        lemma_msb_value_bound(d, q, lz);
        lemma_p2_bound(lz);
    }
}

fn skip_sps_mid(r: &mut SpsBitReader, m: u32, c: u32) -> (res: Option<()>)
    requires
        old(r).wf(),
        m < 8,
    ensures
        final(r).wf(),
        final(r).bytes() == old(r).bytes(),
        match sps_mid(old(r).bytes(), m as int, c as int, old(r).pos()) {
            Some(q) => res is Some && final(r).pos() == q,
            None => res is None,
        },
{
    let ghost d = r.bytes();
    if c == 3 {
        if skip_bits(r, 1).is_none() {
            proof {
                lemma_sk_ue_n_none(d, 2);
                lemma_sk_ue_n_none(d, (3 * (m + 1) + 3) as nat);
                lemma_sk_ue_n_none(d, 3);
            }
            return None;
        }
    }
    if skip_ue_n(r, 2).is_none() {
        proof {
            lemma_sk_ue_n_none(d, 2);
            lemma_sk_ue_n_none(d, (3 * (m + 1) + 3) as nat);
            lemma_sk_ue_n_none(d, 3);
        }
        return None;
    }
    if skip_flagged(r, 0).is_none() {
        proof {
            lemma_sk_ue_n_none(d, 2);
            lemma_sk_ue_n_none(d, (3 * (m + 1) + 3) as nat);
            lemma_sk_ue_n_none(d, 3);
        }
        return None;
    }
    if skip_ue_n(r, 2).is_none() {
        proof {
            lemma_sk_ue_n_none(d, (3 * (m + 1) + 3) as nat);
            lemma_sk_ue_n_none(d, 3);
        }
        return None;
    }
    if skip_ue_n(r, 3 * (m + 1) + 3).is_none() {
        proof {
            lemma_sk_ue_n_none(d, 3);
        }
        return None;
    }
    if c != 0 {
        skip_ue_n(r, 3)
    } else {
        Some(())
    }
}

fn read_sps_tail_flag(r: &mut SpsBitReader) -> (res: Option<bool>)
    requires
        old(r).wf(),
    ensures
        res == sps_tail_flag(old(r).bytes(), old(r).pos()),
{
    proof {
        reveal_with_fuel(p2, 2);
    }
    if skip_bits(r, 1).is_none() {
        return None;
    }
    if skip_bits(r, 1).is_none() {
        return None;
    }
    if skip_flagged(r, 1).is_none() {
        return None;
    }
    match r.read_bits(1) {
        Some(v) => Some(v == 1),
        None => None,
    }
}

/// Read the SPS fields up to the flag that follows them (see `spec_transquant_bypass`).
pub fn parse_sps_rbsp_for_transquant_bypass(sps_payload: &[u8]) -> (res: Option<bool>)
    ensures
        res == spec_transquant_bypass(sps_payload@),
{
    if sps_payload.len() < 3 {
        return None;
    }
    let rbsp = vstd::slice::slice_subrange(sps_payload, 2, sps_payload.len());
    let mut r = SpsBitReader::new(rbsp);
    let (m, c) = match read_sps_head(&mut r) {
        Some(x) => x,
        None => return None,
    };
    if skip_sps_mid(&mut r, m, c).is_none() {
        return None;
    }
    read_sps_tail_flag(&mut r)
}

/// Walk of the NAL unit arrays of an hvcC record from `pos`, `a` arrays left:
/// the first SPS unit of at least three bytes decides (see `spec_transquant_bypass`).
#[verifier::opaque]
pub open spec fn nal_arrays(h: Seq<u8>, pos: int, a: nat) -> Option<bool>
    decreases a, 0nat,
{
    if a == 0 {
        None
    } else if pos < 0 || pos + 3 > h.len() {
        None
    } else {
        let n = be_u16(h, pos + 1) as nat;
        if h[pos] % 64 == NAL_UNIT_TYPE_SPS {
            sps_units(h, pos + 3, n, (a - 1) as nat)
        } else {
            other_units(h, pos + 3, n, (a - 1) as nat)
        }
    }
}

/// The `k` remaining units of an SPS array from `pos`, then the following arrays.
pub open spec fn sps_units(h: Seq<u8>, pos: int, k: nat, a: nat) -> Option<bool>
    decreases a, k + 1,
{
    if k == 0 {
        nal_arrays(h, pos, a)
    } else if pos < 0 || pos + 2 > h.len() {
        None
    } else {
        let len = be_u16(h, pos);
        let p = pos + 2;
        if p + len > h.len() {
            None
        } else if len < 3 {
            sps_units(h, p + len, (k - 1) as nat, a)
        } else {
            spec_transquant_bypass(h.subrange(p, p + len))
        }
    }
}

/// The `k` remaining units of a non-SPS array from `pos`, then the following arrays.
pub open spec fn other_units(h: Seq<u8>, pos: int, k: nat, a: nat) -> Option<bool>
    decreases a, k + 1,
{
    if k == 0 {
        nal_arrays(h, pos, a)
    } else if pos < 0 || pos + 2 > h.len() {
        None
    } else {
        other_units(h, pos + 2 + be_u16(h, pos), (k - 1) as nat, a)
    }
}

/// The SPS flag of an hvcC record: `None` when the record is shorter than 25 bytes,
/// holds no readable SPS, or is truncated.
pub open spec fn spec_sps_flag(h: Seq<u8>) -> Option<bool> {
    if h.len() < 25 {
        None
    } else {
        nal_arrays(h, 25, h[24] as nat)
    }
}

proof fn lemma_past_end(h: Seq<u8>, pos: int, k: nat, a: nat)
    requires
        pos > h.len(),
    ensures
        nal_arrays(h, pos, a) is None,
        other_units(h, pos, k, a) is None,
{
    reveal(nal_arrays);
}

/// Skip the `k` units of a non-SPS array starting at `pos`: `Some` gives the position
/// where the next array starts, `None` means the record is truncated.
fn skip_other_units(h: &[u8], start: usize, count: u16, Ghost(a): Ghost<nat>) -> (r: Option<usize>)
    requires
        start <= h@.len(),
    ensures
        match r {
            Some(p) => p <= h@.len() && other_units(h@, start as int, count as nat, a)
                == nal_arrays(h@, p as int, a),
            None => other_units(h@, start as int, count as nat, a) is None,
        },
{
    let ghost target = other_units(h@, start as int, count as nat, a);
    let mut pos = start;
    let mut k = count;
    while k > 0
        invariant
            pos <= h@.len(),
            target == other_units(h@, start as int, count as nat, a),
            target == other_units(h@, pos as int, k as nat, a),
        decreases k,
    {
        if h.len() - pos < 2 {
            return None;
        }
        let len = read_be_u16(h, pos) as usize;
        if len > h.len() - pos - 2 {
            proof {
                lemma_past_end(h@, pos + 2 + len, (k - 1) as nat, a);
            }
            return None;
        }
        pos = pos + 2 + len;
        k = k - 1;
    }
    proof {
        reveal(nal_arrays);
    }
    Some(pos)
}

/// Walk the `count` units of an SPS array starting at `start`: `Ok` gives the position
/// where the next array starts when no unit was long enough to parse, `Err` holds the
/// final answer.
fn scan_sps_units(h: &[u8], start: usize, count: u16, Ghost(a): Ghost<nat>) -> (r: Result<
    usize,
    Option<bool>,
>)
    requires
        start <= h@.len(),
    ensures
        match r {
            Ok(p) => p <= h@.len() && sps_units(h@, start as int, count as nat, a) == nal_arrays(
                h@,
                p as int,
                a,
            ),
            Err(v) => sps_units(h@, start as int, count as nat, a) == v,
        },
{
    let ghost target = sps_units(h@, start as int, count as nat, a);
    let mut pos = start;
    let mut k = count;
    while k > 0
        invariant
            pos <= h@.len(),
            target == sps_units(h@, start as int, count as nat, a),
            target == sps_units(h@, pos as int, k as nat, a),
        decreases k,
    {
        if h.len() - pos < 2 {
            return Err(None);
        }
        let len = read_be_u16(h, pos) as usize;
        pos = pos + 2;
        if len > h.len() - pos {
            return Err(None);
        }
        if len >= 3 {
            let payload = vstd::slice::slice_subrange(h, pos, pos + len);
            return Err(parse_sps_rbsp_for_transquant_bypass(payload));
        }
        pos = pos + len;
        k = k - 1;
    }
    proof {
        reveal(nal_arrays);
    }
    Ok(pos)
}

/// Read one NAL unit array at `pos`, with `a` arrays left counting this one: `Ok` gives
/// the position of the next array, `Err` holds the final answer.
fn scan_array(h: &[u8], pos: usize, a: u32) -> (r: Result<usize, Option<bool>>)
    requires
        pos <= h@.len(),
        a > 0,
    ensures
        match r {
            Ok(p) => p <= h@.len() && nal_arrays(h@, pos as int, a as nat) == nal_arrays(
                h@,
                p as int,
                (a - 1) as nat,
            ),
            Err(v) => nal_arrays(h@, pos as int, a as nat) == v,
        },
{
    proof {
        reveal(nal_arrays);
    }
    if h.len() - pos < 3 {
        return Err(None);
    }
    let t = h[pos] % 64;
    let n = read_be_u16(h, pos + 1);
    if t == NAL_UNIT_TYPE_SPS {
        scan_sps_units(h, pos + 3, n, Ghost((a - 1) as nat))
    } else {
        match skip_other_units(h, pos + 3, n, Ghost((a - 1) as nat)) {
            Some(p) => Ok(p),
            None => Err(None),
        }
    }
}

/// Find the first SPS in the NAL unit arrays of an hvcC record and read its flag.
pub fn parse_sps_for_transquant_bypass_flag(hvcc_data: &[u8]) -> (res: Option<bool>)
    ensures
        res == spec_sps_flag(hvcc_data@),
{
    if hvcc_data.len() < 25 {
        return None;
    }
    let h = hvcc_data;
    let ghost target = spec_sps_flag(h@);
    let mut a_left: u32 = h[24] as u32;
    let mut pos: usize = 25;
    while a_left > 0
        invariant
            pos <= h@.len(),
            h@ == hvcc_data@,
            target == spec_sps_flag(h@),
            target == nal_arrays(h@, pos as int, a_left as nat),
        decreases a_left,
    {
        match scan_array(h, pos, a_left) {
            Ok(p) => {
                pos = p;
                a_left = a_left - 1;
            },
            Err(v) => {
                return v;
            },
        }
    }
    proof {
        reveal(nal_arrays);
    }
    None
}

} // verus!
