//! ISO base media file format (ISOBMFF / HEIF / AVIF / JXL container) box search.
use vstd::prelude::*;
use crate::bytes::{be_u32, be_u64, matches_at, occurs_at, read_be_u32, read_be_u64, tag4};

verus! {

broadcast use vstd::slice::group_slice_axioms;

/// How deep the search descends into nested container boxes.
pub const MAX_BOX_DEPTH: u32 = 16;

/// Box types whose payload is itself a sequence of boxes.
pub open spec fn is_container_type(t: Seq<u8>) -> bool {
    ||| t == tag4(0x6D, 0x65, 0x74, 0x61)  // meta
    ||| t == tag4(0x6D, 0x6F, 0x6F, 0x76)  // moov
    ||| t == tag4(0x74, 0x72, 0x61, 0x6B)  // trak
    ||| t == tag4(0x6D, 0x64, 0x69, 0x61)  // mdia
    ||| t == tag4(0x6D, 0x69, 0x6E, 0x66)  // minf
    ||| t == tag4(0x73, 0x74, 0x62, 0x6C)  // stbl
    ||| t == tag4(0x64, 0x69, 0x6E, 0x66)  // dinf
    ||| t == tag4(0x69, 0x70, 0x72, 0x70)  // iprp
    ||| t == tag4(0x69, 0x70, 0x63, 0x6F)  // ipco

}

/// Bytes between a container box's header and its first child: `meta` is a full
/// box with 4 bytes of version and flags.
pub open spec fn child_offset(t: Seq<u8>) -> int {
    if t == tag4(0x6D, 0x65, 0x74, 0x61) {
        4
    } else {
        0
    }
}

/// Header length and total size of the box at `pos` inside `[pos, end)`:
/// 32-bit size, 64-bit `largesize` when the size field is 1, rest of the
/// enclosing range when it is 0. `None` when the header itself is cut off.
pub open spec fn box_extent(d: Seq<u8>, pos: int, end: int) -> Option<(int, int)> {
    let s = be_u32(d, pos);
    if s == 1 {
        if pos + 16 > end {
            None
        } else {
            Some((16, be_u64(d, pos + 8)))
        }
    } else if s == 0 {
        Some((8, end - pos))
    } else {
        Some((8, s))
    }
}

/// Payload range `[start, stop)` of the first box of type `ty` met by a depth-first
/// walk of the boxes in `[pos, end)`, descending into container boxes while
/// `depth > 0`; the walk of a level stops at a malformed box.
pub open spec fn search_boxes(d: Seq<u8>, pos: int, end: int, ty: Seq<u8>, depth: nat) -> Option<
    (int, int),
>
    decreases end - pos,
{
    if pos < 0 || end > d.len() || pos + 8 > end {
        None
    } else {
        match box_extent(d, pos, end) {
            None => None,
            Some((hdr, size)) => {
                if size < hdr || pos + size > end {
                    None
                } else if occurs_at(d, ty, pos + 4) {
                    Some((pos + hdr, pos + size))
                } else {
                    let t = d.subrange(pos + 4, pos + 8);
                    let child = pos + hdr + child_offset(t);
                    let inner = if depth > 0 && is_container_type(t) && child <= pos + size {
                        search_boxes(d, child, pos + size, ty, (depth - 1) as nat)
                    } else {
                        None
                    };
                    match inner {
                        Some(r) => Some(r),
                        None => search_boxes(d, pos + size, end, ty, depth),
                    }
                }
            },
        }
    }
}

proof fn lemma_search_in_range(d: Seq<u8>, pos: int, end: int, ty: Seq<u8>, depth: nat)
    ensures
        search_boxes(d, pos, end, ty, depth) matches Some((a, b)) ==> pos <= a <= b <= end,
    decreases end - pos,
{
    if pos < 0 || end > d.len() || pos + 8 > end {
    } else {
        match box_extent(d, pos, end) {
            None => {},
            Some((hdr, size)) => {
                if size < hdr || pos + size > end {
                } else if occurs_at(d, ty, pos + 4) {
                } else {
                    let t = d.subrange(pos + 4, pos + 8);
                    let child = pos + hdr + child_offset(t);
                    if depth > 0 && is_container_type(t) && child <= pos + size {
                        lemma_search_in_range(d, child, pos + size, ty, (depth - 1) as nat);
                    }
                    lemma_search_in_range(d, pos + size, end, ty, depth);
                }
            },
        }
    }
}

/// Whether the 4 bytes at `pos` name a container box; returns its child offset.
fn container_child_offset(data: &[u8], pos: usize) -> (r: Option<usize>)
    requires
        pos + 8 <= data.len(),
    ensures
        match r {
            Some(o) => is_container_type(data@.subrange(pos + 4, pos + 8)) && o == child_offset(
                data@.subrange(pos + 4, pos + 8),
            ),
            None => !is_container_type(data@.subrange(pos + 4, pos + 8)),
        },
{
    let t = pos + 4;
    let ghost ts = data@.subrange(pos + 4, pos + 8);
    proof {
        assert(ts.len() == 4);
        assert(ts[0] == data@[pos + 4] && ts[1] == data@[pos + 5] && ts[2] == data@[pos + 6]
            && ts[3] == data@[pos + 7]);
    }
    let (a, b, c, e) = (data[t], data[t + 1], data[t + 2], data[t + 3]);
    proof {
        assert(ts =~= tag4(a, b, c, e));
    }
    if a == 0x6D && b == 0x65 && c == 0x74 && e == 0x61 {
        Some(4)
    } else if (a == 0x6D && b == 0x6F && c == 0x6F && e == 0x76) || (a == 0x74 && b == 0x72 && c
        == 0x61 && e == 0x6B) || (a == 0x6D && b == 0x64 && c == 0x69 && e == 0x61) || (a == 0x6D
        && b == 0x69 && c == 0x6E && e == 0x66) || (a == 0x73 && b == 0x74 && c == 0x62 && e
        == 0x6C) || (a == 0x64 && b == 0x69 && c == 0x6E && e == 0x66) || (a == 0x69 && b == 0x70
        && c == 0x72 && e == 0x70) || (a == 0x69 && b == 0x70 && c == 0x63 && e == 0x6F) {
        Some(0)
    } else {
        None
    }
}

/// Exec form of `search_boxes`.
fn search(data: &[u8], pos: usize, end: usize, ty: &[u8], depth: u32) -> (r: Option<
    (usize, usize),
>)
    requires
        pos <= end,
        end <= data@.len(),
    ensures
        match search_boxes(data@, pos as int, end as int, ty@, depth as nat) {
            Some((a, b)) => r == Some((a as usize, b as usize)),
            None => r is None,
        },
        match r {
            Some((a, b)) => a <= b <= end,
            None => true,
        },
    decreases end - pos,
{
    let mut p = pos;
    while end - p >= 8
        invariant
            pos <= p <= end,
            end <= data@.len(),
            search_boxes(data@, p as int, end as int, ty@, depth as nat) == search_boxes(
                data@,
                pos as int,
                end as int,
                ty@,
                depth as nat,
            ),
        decreases end - p,
    {
        let s = read_be_u32(data, p);
        let (hdr, size): (usize, u64) = if s == 1 {
            if end - p < 16 {
                return None;
            }
            (16, read_be_u64(data, p + 8))
        } else if s == 0 {
            (8, (end - p) as u64)
        } else {
            (8, s as u64)
        };
        if size < hdr as u64 || size > (end - p) as u64 {
            return None;
        }
        let box_end = p + size as usize;
        if matches_at(data, p + 4, ty) {
            return Some((p + hdr, box_end));
        }
        if depth > 0 {
            match container_child_offset(data, p) {
                Some(off) => {
                    if off <= size as usize - hdr {
                        let child = p + hdr + off;
                        let inner = search(data, child, box_end, ty, depth - 1);
                        if inner.is_some() {
                            return inner;
                        }
                    }
                },
                None => {},
            }
        }
        p = box_end;
    }
    None
}

/// Payload of the first box of type `box_type` found by a depth-first walk of the
/// top-level boxes and their container children (see `search_boxes`).
pub fn find_box_data_recursive<'a>(data: &'a [u8], box_type: [u8; 4]) -> (r: Option<&'a [u8]>)
    ensures
        match search_boxes(data@, 0, data@.len() as int, box_type@, MAX_BOX_DEPTH as nat) {
            Some((a, b)) => r is Some && r->Some_0@ == data@.subrange(a, b),
            None => r is None,
        },
{
    let r = search(data, 0, data.len(), &box_type, MAX_BOX_DEPTH);
    proof {
        lemma_search_in_range(data@, 0, data@.len() as int, box_type@, MAX_BOX_DEPTH as nat);
    }
    match r {
        Some((a, b)) => {
            let s = vstd::slice::slice_subrange(data, a, b);
            assert(s@ == data@.subrange(a as int, b as int));
            Some(s)
        },
        None => None,
    }
}

/// Whether a box of type `box_type` is found (see `find_box_data_recursive`).
pub fn find_any_box_recursive(data: &[u8], box_type: [u8; 4]) -> (r: bool)
    ensures
        r == search_boxes(data@, 0, data@.len() as int, box_type@, MAX_BOX_DEPTH as nat) is Some,
{
    search(data, 0, data.len(), &box_type, MAX_BOX_DEPTH).is_some()
}

} // verus!
