//! GIF block-structure analysis.
use vstd::prelude::*;
use crate::bytes::{le_u16, matches_at, occurs_at, read_le_u16};
use crate::errors::{numeric_error, ImgQualityError};

verus! {

broadcast use vstd::slice::group_slice_axioms;

/// `2^n`.
pub open spec fn two_pow(n: nat) -> nat
    decreases n,
{
    if n == 0 {
        1
    } else {
        2 * two_pow((n - 1) as nat)
    }
}

/// Size in bytes of the colour table announced by a packed-fields byte
/// (zero when its high bit is clear).
pub open spec fn color_table_size(packed: u8) -> int {
    if packed >= 128 {
        (3 * two_pow(((packed % 8) + 1) as nat)) as int
    } else {
        0
    }
}

/// Position after the data sub-blocks starting at `pos`; a sub-block that
/// overruns the data ends the skip at its first byte.
pub open spec fn skip_blocks_checked(d: Seq<u8>, pos: int) -> int
    decreases d.len() - pos,
{
    if pos < 0 || pos >= d.len() {
        pos
    } else if d[pos] == 0 {
        pos + 1
    } else if pos + 1 + d[pos] > d.len() {
        pos + 1
    } else {
        skip_blocks_checked(d, pos + 1 + d[pos])
    }
}

/// Position after the data sub-blocks starting at `pos` (may point past the data).
pub open spec fn skip_blocks(d: Seq<u8>, pos: int) -> int
    decreases d.len() - pos,
{
    if pos < 0 || pos >= d.len() {
        pos
    } else if d[pos] == 0 {
        pos + 1
    } else if pos + 1 + d[pos] >= d.len() {
        pos + 1 + d[pos]
    } else {
        skip_blocks(d, pos + 1 + d[pos])
    }
}

/// Position after an image descriptor at `pos` (descriptor, local colour table,
/// LZW code size byte), assuming the 10 descriptor bytes are present.
pub open spec fn after_descriptor(d: Seq<u8>, pos: int) -> int {
    let p1 = pos + 10 + color_table_size(d[pos + 9]);
    if p1 < d.len() {
        p1 + 1
    } else {
        p1
    }
}

/// (image descriptors, graphic control extensions) counted by the block walk from `pos`.
pub open spec fn gif_scan(d: Seq<u8>, pos: int, descs: nat, gces: nat) -> (nat, nat)
    decreases d.len() - pos,
{
    if pos < 0 || pos >= d.len() {
        (descs, gces)
    } else if d[pos] == 0x2C {
        if pos + 10 > d.len() {
            (descs + 1, gces)
        } else {
            let p = skip_blocks_checked(d, after_descriptor(d, pos));
            if p <= pos || p >= d.len() {
                (descs + 1, gces)
            } else {
                gif_scan(d, p, descs + 1, gces)
            }
        }
    } else if d[pos] == 0x21 {
        if pos + 2 >= d.len() {
            (descs, gces)
        } else {
            let g = if d[pos + 1] == 0xF9 {
                gces + 1
            } else {
                gces
            };
            let p = skip_blocks(d, pos + 2);
            if p <= pos || p >= d.len() {
                (descs, g)
            } else {
                gif_scan(d, p, descs, g)
            }
        }
    } else if d[pos] == 0x3B {
        (descs, gces)
    } else {
        gif_scan(d, pos + 1, descs, gces)
    }
}

/// Offset of the first block after the header and global colour table.
pub open spec fn first_block(d: Seq<u8>) -> int {
    13 + color_table_size(d[10])
}

/// Number of frames of a GIF: the graphic control extension count when it exceeds
/// one, else the image descriptor count; zero for data that is not a GIF.
pub open spec fn spec_frame_count(d: Seq<u8>) -> nat {
    if d.len() < 24 || !occurs_at(d, seq![0x47u8, 0x49, 0x46], 0) {
        0
    } else {
        let (descs, gces) = gif_scan(d, first_block(d), 0, 0);
        if gces > 1 {
            gces
        } else {
            descs
        }
    }
}

proof fn lemma_skip_checked_ge(d: Seq<u8>, pos: int)
    ensures
        skip_blocks_checked(d, pos) >= pos,
        pos < d.len() && pos >= 0 ==> skip_blocks_checked(d, pos) > pos,
    decreases d.len() - pos,
{
    if pos >= 0 && pos < d.len() && d[pos] != 0 && pos + 1 + d[pos] <= d.len() {
        lemma_skip_checked_ge(d, pos + 1 + d[pos]);
    }
}

proof fn lemma_skip_ge(d: Seq<u8>, pos: int)
    ensures
        skip_blocks(d, pos) >= pos,
        pos < d.len() && pos >= 0 ==> skip_blocks(d, pos) > pos,
    decreases d.len() - pos,
{
    if pos >= 0 && pos < d.len() && d[pos] != 0 && pos + 1 + d[pos] < d.len() {
        lemma_skip_ge(d, pos + 1 + d[pos]);
    }
}

/// Exec form of `color_table_size`.
fn table_size(packed: u8) -> (r: usize)
    ensures
        r == color_table_size(packed),
        r <= 768,
{
    if packed < 128 {
        return 0;
    }
    let k = packed % 8;
    let mut i: u8 = 0;
    let mut entries: usize = 2;
    assert(two_pow(1) == 2) by {
        reveal_with_fuel(two_pow, 2);
    }
    while i < k
        invariant
            i <= k,
            k < 8,
            k == packed % 8,
            entries == two_pow((i + 1) as nat),
            entries <= 256,
        decreases k - i,
    {
        assert(two_pow((i + 2) as nat) == 2 * two_pow((i + 1) as nat));
        assert(entries <= 128) by {
            lemma_two_pow_bound((i + 1) as nat);
        }
        entries = entries * 2;
        i = i + 1;
    }
    3 * entries
}

proof fn lemma_two_pow_bound(n: nat)
    requires
        n <= 7,
    ensures
        two_pow(n) <= 128,
{
    reveal_with_fuel(two_pow, 8);
}

/// Exec form of `skip_blocks_checked`.
fn skip_sub_blocks_checked(data: &[u8], pos: usize) -> (r: usize)
    requires
        pos <= data.len(),
    ensures
        r == skip_blocks_checked(data@, pos as int),
        r <= data.len(),
{
    let mut p = pos;
    while p < data.len()
        invariant
            p <= data.len(),
            skip_blocks_checked(data@, p as int) == skip_blocks_checked(data@, pos as int),
        decreases data@.len() - p,
    {
        let bs = data[p] as usize;
        if bs == 0 {
            return p + 1;
        }
        if bs > data.len() - (p + 1) {
            return p + 1;
        }
        p = p + 1 + bs;
    }
    p
}

/// Exec form of `skip_blocks`; the result is saturated at the data length.
fn skip_sub_blocks(data: &[u8], pos: usize) -> (r: usize)
    requires
        pos <= data.len(),
    ensures
        r == if skip_blocks(data@, pos as int) < data@.len() {
            skip_blocks(data@, pos as int)
        } else {
            data@.len() as int
        },
{
    let mut p = pos;
    while p < data.len()
        invariant
            p <= data.len(),
            skip_blocks(data@, p as int) == skip_blocks(data@, pos as int),
        decreases data@.len() - p,
    {
        let bs = data[p] as usize;
        if bs == 0 {
            return p + 1;
        }
        if bs >= data.len() - (p + 1) {
            return data.len();
        }
        p = p + 1 + bs;
    }
    p
}

/// Count the frames of a GIF from its block structure (see `spec_frame_count`).
pub fn count_frames_from_bytes(data: &[u8]) -> (r: Result<u32, ImgQualityError>)
    ensures
        spec_frame_count(data@) <= u32::MAX ==> r is Ok && r->Ok_0 == spec_frame_count(
            data@,
        ),
        spec_frame_count(data@) > u32::MAX ==> r is Err,
{
    if data.len() < 24 || !matches_at(data, 0, &[0x47u8, 0x49, 0x46]) {
        proof {
            let pat: [u8; 3] = [0x47u8, 0x49, 0x46];
            assert(pat@ =~= seq![0x47u8, 0x49, 0x46]);
        }
        return Ok(0);
    }
    proof {
        let pat: [u8; 3] = [0x47u8, 0x49, 0x46];
        assert(pat@ =~= seq![0x47u8, 0x49, 0x46]);
    }
    let t0 = table_size(data[10]);
    if t0 >= data.len() - 13 {
        return Ok(0);
    }
    let mut pos: usize = 13 + t0;
    let mut descs: u64 = 0;
    let mut gces: u64 = 0;
    let ghost target = gif_scan(data@, first_block(data@), 0, 0);
    let mut done = false;
    while !done && pos < data.len()
        invariant
            !done ==> descs <= pos,
            !done ==> gces <= pos,
            pos <= data.len(),
            data@.len() >= 24,
            !done ==> gif_scan(data@, pos as int, descs as nat, gces as nat) == target,
            done ==> (descs as nat, gces as nat) == target,
            target == gif_scan(data@, first_block(data@), 0, 0),
        decreases data@.len() - pos + if done {
            0int
        } else {
            1int
        },
    {
        let byte = data[pos];
        if byte == 0x2C {
            descs = descs + 1;
            if data.len() - pos < 10 {
                done = true;
            } else {
                let t = table_size(data[pos + 9]);
                if t >= data.len() - (pos + 10) {
                    proof {
                        lemma_skip_checked_ge(data@, after_descriptor(data@, pos as int));
                    }
                    done = true;
                } else {
                    let p2 = pos + 10 + t + 1;
                    proof {
                        lemma_skip_checked_ge(data@, p2 as int);
                    }
                    let p = skip_sub_blocks_checked(data, p2);
                    if p >= data.len() {
                        done = true;
                    } else {
                        pos = p;
                    }
                }
            }
        } else if byte == 0x21 {
            if data.len() - pos <= 2 {
                done = true;
            } else {
                if data[pos + 1] == 0xF9 {
                    gces = gces + 1;
                }
                proof {
                    lemma_skip_ge(data@, pos + 2);
                }
                let p = skip_sub_blocks(data, pos + 2);
                if p >= data.len() {
                    done = true;
                } else {
                    pos = p;
                }
            }
        } else if byte == 0x3B {
            done = true;
        } else {
            pos = pos + 1;
        }
    }
    let n = if gces > 1 {
        gces
    } else {
        descs
    };
    if n > u32::MAX as u64 {
        Err(numeric_error("GIF frame count overflow"))
    } else {
        Ok(n as u32)
    }
}

/// Whether a GIF has more than one frame.
pub fn is_animated_from_bytes(data: &[u8]) -> (r: Result<bool, ImgQualityError>)
    ensures
        spec_frame_count(data@) <= u32::MAX ==> r is Ok && r->Ok_0 == (spec_frame_count(
            data@,
        ) > 1),
        spec_frame_count(data@) > u32::MAX ==> r is Err,
{
    match count_frames_from_bytes(data) {
        Ok(n) => Ok(n > 1),
        Err(e) => Err(e),
    }
}

/// Sum of the graphic-control-extension delays (in hundredths of a second) met by
/// the block walk from `pos`, added to `total`.
pub open spec fn gif_delay_scan(d: Seq<u8>, pos: int, total: int) -> int
    decreases d.len() - pos,
{
    if pos < 0 || pos >= d.len() {
        total
    } else if d[pos] == 0x2C {
        if pos + 10 > d.len() {
            total
        } else {
            let p = skip_blocks(d, after_descriptor(d, pos));
            if p <= pos || p >= d.len() {
                total
            } else {
                gif_delay_scan(d, p, total)
            }
        }
    } else if d[pos] == 0x21 {
        if pos + 2 >= d.len() {
            total
        } else {
            let add = if d[pos + 1] == 0xF9 && d[pos + 2] >= 4 && pos + 6 < d.len() {
                le_u16(d, pos + 4)
            } else {
                0
            };
            let p = skip_blocks(d, pos + 2);
            if p <= pos || p >= d.len() {
                total + add
            } else {
                gif_delay_scan(d, p, total + add)
            }
        }
    } else if d[pos] == 0x3B {
        total
    } else {
        gif_delay_scan(d, pos + 1, total)
    }
}

/// Total animation delay of a GIF in hundredths of a second; `None` when the data is
/// not a GIF or no positive delay is found.
pub open spec fn spec_duration_centisecs(d: Seq<u8>) -> Option<int> {
    if d.len() < 24 || !occurs_at(d, seq![0x47u8, 0x49, 0x46], 0) {
        None
    } else {
        let t = gif_delay_scan(d, first_block(d), 0);
        if t == 0 {
            None
        } else {
            Some(t)
        }
    }
}

proof fn lemma_delay_scan_ge(d: Seq<u8>, pos: int, total: int)
    requires
        total >= 0,
    ensures
        gif_delay_scan(d, pos, total) >= total,
    decreases d.len() - pos,
{
    if pos < 0 || pos >= d.len() {
    } else if d[pos] == 0x2C {
        if pos + 10 <= d.len() {
            let p = skip_blocks(d, after_descriptor(d, pos));
            if p > pos && p < d.len() {
                lemma_delay_scan_ge(d, p, total);
            }
        }
    } else if d[pos] == 0x21 {
        if pos + 2 < d.len() {
            let add = if d[pos + 1] == 0xF9 && d[pos + 2] >= 4 && pos + 6 < d.len() {
                le_u16(d, pos + 4)
            } else {
                0
            };
            let p = skip_blocks(d, pos + 2);
            if p > pos && p < d.len() {
                lemma_delay_scan_ge(d, p, total + add);
            }
        }
    } else if d[pos] != 0x3B {
        lemma_delay_scan_ge(d, pos + 1, total);
    }
}

/// Total GIF animation delay in hundredths of a second (see `spec_duration_centisecs`).
pub fn duration_centisecs_from_bytes(data: &[u8]) -> (r: Option<u64>)
    requires
        data@.len() < 0x1_0000_0000_0000,
    ensures
        match spec_duration_centisecs(data@) {
            Some(t) => r == Some(t as u64),
            None => r is None,
        },
{
    proof {
        let pat: [u8; 3] = [0x47u8, 0x49, 0x46];
        assert(pat@ =~= seq![0x47u8, 0x49, 0x46]);
    }
    if data.len() < 24 || !matches_at(data, 0, &[0x47u8, 0x49, 0x46]) {
        return None;
    }
    let t0 = table_size(data[10]);
    if t0 >= data.len() - 13 {
        return None;
    }
    let mut pos: usize = 13 + t0;
    let mut total: u64 = 0;
    let ghost target = gif_delay_scan(data@, first_block(data@), 0);
    let mut done = false;
    while !done && pos < data.len()
        invariant
            pos <= data.len(),
            data@.len() < 0x1_0000_0000_0000,
            !done ==> total <= 65535 * pos,
            total <= 65535 * (pos + 1),
            !done ==> gif_delay_scan(data@, pos as int, total as int) == target,
            done ==> total == target,
            target == gif_delay_scan(data@, first_block(data@), 0),
        decreases data@.len() - pos + if done {
            0int
        } else {
            1int
        },
    {
        let byte = data[pos];
        if byte == 0x2C {
            if data.len() - pos < 10 {
                done = true;
            } else {
                let t = table_size(data[pos + 9]);
                if t >= data.len() - (pos + 10) {
                    done = true;
                } else {
                    let p2 = pos + 10 + t + 1;
                    proof {
                        lemma_skip_ge(data@, p2 as int);
                    }
                    let p = skip_sub_blocks(data, p2);
                    if p >= data.len() {
                        done = true;
                    } else {
                        assert(total <= 65535 * p) by (nonlinear_arith)
                            requires
                                total <= 65535 * pos,
                                pos < p,
                        ;
                        pos = p;
                    }
                }
            }
        } else if byte == 0x21 {
            if data.len() - pos <= 2 {
                done = true;
            } else {
                let mut add: u64 = 0;
                if data[pos + 1] == 0xF9 && data[pos + 2] >= 4 && data.len() - pos > 6 {
                    add = read_le_u16(data, pos + 4) as u64;
                }
                assert(total + add <= 65535 * (pos + 1)) by (nonlinear_arith)
                    requires
                        total <= 65535 * pos,
                        add <= 65535,
                ;
                total = total + add;
                proof {
                    lemma_skip_ge(data@, pos + 2);
                }
                let p = skip_sub_blocks(data, pos + 2);
                if p >= data.len() {
                    done = true;
                } else {
                    assert(total <= 65535 * p) by (nonlinear_arith)
                        requires
                            total <= 65535 * (pos + 1),
                            pos + 1 <= p,
                    ;
                    pos = p;
                }
            }
        } else if byte == 0x3B {
            done = true;
        } else {
            assert(total <= 65535 * (pos + 1)) by (nonlinear_arith)
                requires
                    total <= 65535 * pos,
            ;
            pos = pos + 1;
        }
    }
    if total == 0 {
        None
    } else {
        Some(total)
    }
}


/// Number of graphic control extension markers (`21 F9`) starting at a
/// position in `[pos, d.len() - 1)`.
pub open spec fn gce_markers(d: Seq<u8>, pos: int) -> nat
    decreases d.len() - pos,
{
    if pos < 0 || pos + 1 >= d.len() {
        0
    } else {
        (if d[pos] == 0x21 && d[pos + 1] == 0xF9 {
            1nat
        } else {
            0nat
        }) + gce_markers(d, pos + 1)
    }
}

proof fn lemma_gce_markers_mono(d: Seq<u8>, a: int, b: int)
    requires
        0 <= a <= b,
    ensures
        gce_markers(d, b) <= gce_markers(d, a),
    decreases b - a,
{
    if a < b {
        lemma_gce_markers_mono(d, a + 1, b);
    }
}

/// Only graphic control extensions count: the walk adds to its extension count
/// at most once per `21 F9` marker in the data from where it starts, so an
/// application, comment or plain-text extension (any other label) never adds.
pub proof fn law_only_graphic_control_extensions_count(d: Seq<u8>, pos: int, descs: nat, gces: nat)
    requires
        pos >= 0,
    ensures
        gces <= gif_scan(d, pos, descs, gces).1 <= gces + gce_markers(d, pos),
    decreases d.len() - pos,
{
    if pos >= d.len() {
    } else if d[pos] == 0x2C {
        if pos + 10 <= d.len() {
            let p = skip_blocks_checked(d, after_descriptor(d, pos));
            if !(p <= pos || p >= d.len()) {
                law_only_graphic_control_extensions_count(d, p, descs + 1, gces);
                lemma_gce_markers_mono(d, pos, p);
            }
        }
    } else if d[pos] == 0x21 {
        if pos + 2 < d.len() {
            let g: nat = gces + (if d[pos + 1] == 0xF9 { 1nat } else { 0nat });
            let p = skip_blocks(d, pos + 2);
            assert(gce_markers(d, pos) == (if d[pos] == 0x21 && d[pos + 1] == 0xF9 {
                1nat
            } else {
                0nat
            }) + gce_markers(d, pos + 1));
            if !(p <= pos || p >= d.len()) {
                law_only_graphic_control_extensions_count(d, p, descs, g);
                lemma_skip_ge(d, pos + 2);
                lemma_gce_markers_mono(d, pos + 1, p);
            }
        }
    } else if d[pos] == 0x3B {
    } else {
        law_only_graphic_control_extensions_count(d, pos + 1, descs, gces);
        lemma_gce_markers_mono(d, pos, pos + 1);
    }
}

/// A GIF's frame count is its image descriptor count, or a graphic control
/// extension count that the data backs with at least as many `21 F9` markers.
pub proof fn law_frame_count_backed_by_descriptors_or_gce_markers(d: Seq<u8>)
    ensures
        spec_frame_count(d) == 0 || spec_frame_count(d) <= gif_scan(d, first_block(d), 0, 0).0
            || spec_frame_count(d) <= gce_markers(d, 0),
{
    if d.len() >= 24 && occurs_at(d, seq![0x47u8, 0x49, 0x46], 0) {
        let fb = first_block(d);
        assert(fb >= 13);
        law_only_graphic_control_extensions_count(d, fb, 0, 0);
        lemma_gce_markers_mono(d, 0, fb);
    }
}

} // verus!
