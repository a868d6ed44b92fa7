//! TIFF / BigTIFF compression analysis over every image file directory (IFD).
use vstd::prelude::*;
use crate::bytes::{
    be_u16, be_u32, be_u64, le_u16, le_u32, le_u64, read_be_u16, read_be_u32, read_be_u64,
    read_le_u16, read_le_u32, read_le_u64,
};
use crate::errors::{analysis_error, ImgQualityError};

verus! {

broadcast use vstd::slice::group_slice_axioms;

/// 16-bit value at `i` in the file's byte order.
pub open spec fn tiff_u16(d: Seq<u8>, little: bool, i: int) -> int {
    if little {
        le_u16(d, i)
    } else {
        be_u16(d, i)
    }
}

/// 32-bit value at `i` in the file's byte order.
pub open spec fn tiff_u32(d: Seq<u8>, little: bool, i: int) -> int {
    if little {
        le_u32(d, i)
    } else {
        be_u32(d, i)
    }
}

/// 64-bit value at `i` in the file's byte order.
pub open spec fn tiff_u64(d: Seq<u8>, little: bool, i: int) -> int {
    if little {
        le_u64(d, i)
    } else {
        be_u64(d, i)
    }
}

/// Compression codes of lossy schemes: old JPEG (6), JPEG (7), WebP (50001).
pub open spec fn is_lossy_compression(c: int) -> bool {
    c == 6 || c == 7 || c == 50001
}

/// Size of one IFD entry.
pub open spec fn entry_size(big: bool) -> int {
    if big {
        20
    } else {
        12
    }
}

/// Size of the entry-count field that starts an IFD.
pub open spec fn count_size(big: bool) -> int {
    if big {
        8
    } else {
        2
    }
}

/// Size of the next-IFD offset field.
pub open spec fn offset_size(big: bool) -> int {
    if big {
        8
    } else {
        4
    }
}

/// Offset of the compression value inside an entry.
pub open spec fn value_offset(big: bool) -> int {
    if big {
        12
    } else {
        8
    }
}

/// Some entry among entries `k..n` of the IFD whose entries start at `start`,
/// before the first entry that overruns the data, is a Compression tag (259)
/// with a lossy value.
pub open spec fn entries_lossy(
    d: Seq<u8>,
    little: bool,
    big: bool,
    start: int,
    n: int,
    k: int,
) -> bool
    decreases n - k,
{
    if k >= n || k < 0 {
        false
    } else {
        let pos = start + k * entry_size(big);
        if pos + entry_size(big) > d.len() {
            false
        } else if tiff_u16(d, little, pos) == 259 && is_lossy_compression(
            tiff_u16(d, little, pos + value_offset(big)),
        ) {
            true
        } else {
            entries_lossy(d, little, big, start, n, k + 1)
        }
    }
}

/// Verdict of the IFD chain walk from offset `ifd`, having visited `count` IFDs:
/// `Some(false)` when a lossy compression tag is found, `Some(true)` when the chain
/// ends (offset 0, 100 IFDs, or a truncated structure), `None` when an offset or
/// count cannot be addressed in memory.
pub open spec fn ifd_walk(d: Seq<u8>, little: bool, big: bool, ifd: int, count: nat) -> Option<
    bool,
>
    decreases 100 - count,
{
    if ifd == 0 || count >= 100 {
        Some(true)
    } else if ifd > usize::MAX {
        None
    } else if ifd + count_size(big) > d.len() {
        Some(true)
    } else {
        let n = if big {
            tiff_u64(d, little, ifd)
        } else {
            tiff_u16(d, little, ifd)
        };
        let start = ifd + count_size(big);
        if n > usize::MAX {
            None
        } else if entries_lossy(d, little, big, start, n, 0) {
            Some(false)
        } else {
            let next = start + n * entry_size(big);
            if next + offset_size(big) > d.len() {
                Some(true)
            } else {
                ifd_walk(
                    d,
                    little,
                    big,
                    if big {
                        tiff_u64(d, little, next)
                    } else {
                        tiff_u32(d, little, next)
                    },
                    count + 1,
                )
            }
        }
    }
}

/// Whether a TIFF is losslessly compressed: `Some(b)` for a verdict, `None` for
/// data that is not a readable TIFF header.
pub open spec fn spec_tiff_is_lossless(d: Seq<u8>) -> Option<bool> {
    if d.len() < 8 {
        None
    } else if !((d[0] == 0x49 && d[1] == 0x49) || (d[0] == 0x4D && d[1] == 0x4D)) {
        None
    } else {
        let little = d[0] == 0x49;
        let big = tiff_u16(d, little, 2) == 0x2B;
        if big && d.len() < 16 {
            None
        } else {
            let first = if big {
                tiff_u64(d, little, 8)
            } else {
                tiff_u32(d, little, 4)
            };
            ifd_walk(d, little, big, first, 0)
        }
    }
}

fn rd_u16(d: &[u8], little: bool, i: usize) -> (r: u16)
    requires
        i + 2 <= d@.len(),
    ensures
        r == tiff_u16(d@, little, i as int),
{
    if little {
        read_le_u16(d, i)
    } else {
        read_be_u16(d, i)
    }
}

fn rd_u32(d: &[u8], little: bool, i: usize) -> (r: u32)
    requires
        i + 4 <= d@.len(),
    ensures
        r == tiff_u32(d@, little, i as int),
{
    if little {
        read_le_u32(d, i)
    } else {
        read_be_u32(d, i)
    }
}

fn rd_u64(d: &[u8], little: bool, i: usize) -> (r: u64)
    requires
        i + 8 <= d@.len(),
    ensures
        r == tiff_u64(d@, little, i as int),
{
    if little {
        read_le_u64(d, i)
    } else {
        read_be_u64(d, i)
    }
}

/// Scan the entries of one IFD for a lossy Compression tag.
fn scan_entries(data: &[u8], little: bool, big: bool, start: usize, n: usize) -> (r: bool)
    requires
        start <= data.len(),
    ensures
        r == entries_lossy(data@, little, big, start as int, n as int, 0),
{
    let esz: usize = if big {
        20
    } else {
        12
    };
    let voff: usize = if big {
        12
    } else {
        8
    };
    let mut k: usize = 0;
    let mut pos: usize = start;
    while k < n
        invariant
            k <= n,
            start <= data.len(),
            esz == entry_size(big),
            voff == value_offset(big),
            pos == start + k * esz,
            pos <= data.len(),
            entries_lossy(data@, little, big, start as int, n as int, 0) == entries_lossy(
                data@,
                little,
                big,
                start as int,
                n as int,
                k as int,
            ),
        decreases n - k,
    {
        if data.len() - pos < esz {
            return false;
        }
        let tag = rd_u16(data, little, pos);
        if tag == 259 {
            let c = rd_u16(data, little, pos + voff);
            if c == 6 || c == 7 || c == 50001 {
                return true;
            }
        }
        assert(pos + esz == start + (k + 1) * esz) by (nonlinear_arith)
            requires
                pos == start + k * esz,
        ;
        pos = pos + esz;
        k = k + 1;
    }
    false
}

/// Detect whether TIFF (or BigTIFF) data is lossless by checking the Compression tag
/// of every IFD in the chain (at most 100).
pub fn is_lossless_from_bytes(data: &[u8]) -> (r: Result<bool, ImgQualityError>)
    ensures
        match spec_tiff_is_lossless(data@) {
            Some(b) => r is Ok && r->Ok_0 == b,
            None => r is Err,
        },
{
    if data.len() < 8 {
        return Err(
            analysis_error("TIFF file too small (< 8 bytes) for header parsing"),
        );
    }
    let is_ii = data[0] == 0x49 && data[1] == 0x49;
    let is_mm = data[0] == 0x4D && data[1] == 0x4D;
    if !is_ii && !is_mm {
        return Err(analysis_error("Invalid TIFF byte order marker"));
    }
    let little = data[0] == 0x49;
    let version = rd_u16(data, little, 2);
    let big = version == 0x2B;
    let mut ifd_offset: u64 = if big {
        if data.len() < 16 {
            return Err(analysis_error("BigTIFF file too small (< 16 bytes) for header"));
        }
        rd_u64(data, little, 8)
    } else {
        rd_u32(data, little, 4) as u64
    };
    let cs: usize = if big {
        8
    } else {
        2
    };
    let esz: usize = if big {
        20
    } else {
        12
    };
    let osz: usize = if big {
        8
    } else {
        4
    };
    let ghost target = spec_tiff_is_lossless(data@);
    let mut count: u32 = 0;
    while ifd_offset != 0 && count < 100
        invariant
            count <= 100,
            cs == count_size(big),
            esz == entry_size(big),
            osz == offset_size(big),
            target == spec_tiff_is_lossless(data@),
            target == ifd_walk(data@, little, big, ifd_offset as int, count as nat),
        decreases 100 - count,
    {
        if ifd_offset > usize::MAX as u64 {
            return Err(analysis_error("TIFF IFD offset is too large for memory"));
        }
        let ifd_pos = ifd_offset as usize;
        if ifd_pos > data.len() || data.len() - ifd_pos < cs {
            return Ok(true);
        }
        let n64: u64 = if big {
            rd_u64(data, little, ifd_pos)
        } else {
            rd_u16(data, little, ifd_pos) as u64
        };
        if n64 > usize::MAX as u64 {
            return Err(analysis_error("BigTIFF entry count is too large"));
        }
        let n = n64 as usize;
        let start = ifd_pos + cs;
        if scan_entries(data, little, big, start, n) {
            return Ok(false);
        }
        let room = data.len() - start;
        if n > room / esz {
            assert(start + n * esz > data@.len()) by (nonlinear_arith)
                requires
                    n > room / esz,
                    esz > 0,
                    room == data@.len() - start,
            ;
            return Ok(true);
        }
        assert(n * esz <= room) by (nonlinear_arith)
            requires
                n <= room / esz,
                esz > 0,
        ;
        let next = start + n * esz;
        if data.len() - next < osz {
            return Ok(true);
        }
        ifd_offset = if big {
            rd_u64(data, little, next)
        } else {
            rd_u32(data, little, next) as u64
        };
        count = count + 1;
    }
    Ok(true)
}

} // verus!
