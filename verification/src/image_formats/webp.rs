//! WebP (RIFF) container analysis.
use vstd::prelude::*;
use crate::bytes::{
    contains, contains_seq, count, count_occurrences, le_u24, le_u32, matches_tag_at, occurs_at,
    read_le_u24, read_le_u32, tag4,
};
use crate::errors::{analysis_error, numeric_error, ImgQualityError};

verus! {

broadcast use vstd::slice::group_slice_axioms;

/// "VP8L": lossless bitstream chunk.
pub open spec fn vp8l() -> Seq<u8> {
    tag4(0x56, 0x50, 0x38, 0x4C)
}

/// "VP8 ": lossy bitstream chunk.
pub open spec fn vp8_lossy() -> Seq<u8> {
    tag4(0x56, 0x50, 0x38, 0x20)
}

/// "ANMF": animation frame chunk.
pub open spec fn anmf() -> Seq<u8> {
    tag4(0x41, 0x4E, 0x4D, 0x46)
}

/// "ANIM": animation parameters chunk.
pub open spec fn anim() -> Seq<u8> {
    tag4(0x41, 0x4E, 0x49, 0x4D)
}

/// Payload size declared by the chunk header at `pos`.
pub open spec fn chunk_size(d: Seq<u8>, pos: int) -> int {
    le_u32(d, pos + 4)
}

/// Offset of the chunk that follows the one at `pos` (chunks are padded to even size).
pub open spec fn next_chunk(d: Seq<u8>, pos: int) -> int {
    pos + 8 + chunk_size(d, pos) + chunk_size(d, pos) % 2
}

/// End of the payload of the chunk at `pos`, cut at the end of the data.
pub open spec fn payload_end(d: Seq<u8>, pos: int) -> int {
    if pos + 8 + chunk_size(d, pos) <= d.len() {
        pos + 8 + chunk_size(d, pos)
    } else {
        d.len() as int
    }
}

/// Verdict when the chunk walk found no decisive frame: `Some(lossless)` or
/// `None` when nothing tells.
pub open spec fn anim_fallback(d: Seq<u8>, found_frame: bool) -> Option<bool> {
    if found_frame {
        Some(true)
    } else if contains_seq(d, vp8l()) {
        Some(true)
    } else if contains_seq(d, vp8_lossy()) {
        Some(false)
    } else {
        None
    }
}

/// The chunk at `pos` is an animation frame with frame data after its 24-byte header.
pub open spec fn is_frame_chunk(d: Seq<u8>, pos: int) -> bool {
    &&& occurs_at(d, anmf(), pos)
    &&& pos + 8 + 24 <= d.len()
    &&& payload_end(d, pos) > pos + 8 + 24
}

/// Verdict of the animation walk from the chunk at `pos`:
/// `Some(true)` lossless, `Some(false)` lossy, `None` undetermined.
pub open spec fn anim_lossless_from(d: Seq<u8>, pos: int, found_frame: bool) -> Option<bool>
    decreases d.len() - pos,
{
    if pos < 0 || pos + 8 > d.len() {
        anim_fallback(d, found_frame)
    } else {
        let frame = is_frame_chunk(d, pos);
        let fd = pos + 8 + 24;
        if frame && payload_end(d, pos) - fd >= 4 && occurs_at(d, vp8_lossy(), fd) {
            Some(false)
        } else if frame && payload_end(d, pos) - fd >= 4 && !occurs_at(d, vp8l(), fd) {
            None
        } else if next_chunk(d, pos) > d.len() {
            anim_fallback(d, found_frame || frame)
        } else {
            anim_lossless_from(d, next_chunk(d, pos), found_frame || frame)
        }
    }
}

/// Whether an animated WebP is lossless: `Some(true)` when every frame is VP8L,
/// `Some(false)` when a VP8 frame is met, `None` when it cannot be determined.
pub open spec fn spec_animation_is_lossless(d: Seq<u8>) -> Option<bool> {
    if d.len() < 12 {
        None
    } else {
        anim_lossless_from(d, 12, false)
    }
}

fn chunk_advance(data: &[u8], pos: usize) -> (r: Option<usize>)
    requires
        pos + 8 <= data.len(),
    ensures
        match r {
            Some(n) => n == next_chunk(data@, pos as int) && n <= data@.len(),
            None => next_chunk(data@, pos as int) > data@.len(),
        },
{
    let size = read_le_u32(data, pos + 4) as usize;
    let ps = pos + 8;
    let rem = data.len() - ps;
    if size % 2 == 0 {
        if size <= rem {
            Some(ps + size)
        } else {
            None
        }
    } else {
        if size < rem {
            Some(ps + size + 1)
        } else {
            None
        }
    }
}

fn chunk_payload_end(data: &[u8], pos: usize) -> (r: usize)
    requires
        pos + 8 <= data.len(),
    ensures
        r == payload_end(data@, pos as int),
{
    let size = read_le_u32(data, pos + 4) as usize;
    let ps = pos + 8;
    if size <= data.len() - ps {
        ps + size
    } else {
        data.len()
    }
}

/// Detect whether an animated WebP is lossless by walking its ANMF frames.
pub fn detect_webp_animation_is_lossless(data: &[u8]) -> (r: Result<bool, ImgQualityError>)
    ensures
        match spec_animation_is_lossless(data@) {
            Some(b) => r == Ok::<bool, ImgQualityError>(b),
            None => r is Err,
        },
{
    if data.len() < 12 {
        return Err(analysis_error("WebP: data too small for format identification"));
    }
    let ghost target = spec_animation_is_lossless(data@);
    let mut pos: usize = 12;
    let mut found_any_frame = false;
    let mut done = false;
    while !done && data.len() - pos >= 8
        invariant
            pos <= data.len(),
            target == spec_animation_is_lossless(data@),
            data@.len() >= 12,
            !done ==> target == anim_lossless_from(data@, pos as int, found_any_frame),
            done ==> target == anim_fallback(data@, found_any_frame),
        decreases data@.len() - pos + if done {
            0int
        } else {
            1int
        },
    {
        let payload_start = pos + 8;
        let pe = chunk_payload_end(data, pos);
        let frame = matches_tag_at(data, pos, 0x41, 0x4E, 0x4D, 0x46) && data.len()
            - payload_start >= 24 && pe - payload_start > 24;
        let ghost f0 = found_any_frame;
        assert(frame == is_frame_chunk(data@, pos as int));
        assert(target == anim_lossless_from(data@, pos as int, f0));
        if frame {
            found_any_frame = true;
            if pe - (payload_start + 24) >= 4 {
                let fd = payload_start + 24;
                if matches_tag_at(data, fd, 0x56, 0x50, 0x38, 0x20) {
                    assert(payload_end(data@, pos as int) - fd >= 4);
                    assert(occurs_at(data@, vp8_lossy(), fd as int));
                    assert(anim_lossless_from(data@, pos as int, f0) == Some(false));
                    return Ok(false);
                } else if !matches_tag_at(data, fd, 0x56, 0x50, 0x38, 0x4C) {
                    return Err(
                        analysis_error(
                            "Animated WebP: unknown frame chunk type; cannot determine compression",
                        ),
                    );
                }
            }
        }
        match chunk_advance(data, pos) {
            Some(n) => {
                pos = n;
            },
            None => {
                done = true;
            },
        }
    }
    if found_any_frame {
        Ok(true)
    } else if contains(data, &[0x56u8, 0x50, 0x38, 0x4C]) {
        Ok(true)
    } else if contains(data, &[0x56u8, 0x50, 0x38, 0x20]) {
        Ok(false)
    } else {
        Err(
            analysis_error(
                "Animated WebP: no ANMF frames or VP8/VP8L chunks found; cannot determine compression",
            ),
        )
    }
}


/// Quality estimate (0..=100) from the VP8 luma AC quantizer index byte.
pub open spec fn quality_from_qindex(b: u8) -> int {
    ((127 - (b as int) % 128) * 100) / 127
}

/// The chunk at `pos` is a "VP8 " chunk whose payload starts with a key-frame
/// start code and holds at least 11 bytes.
pub open spec fn is_vp8_keyframe_chunk(d: Seq<u8>, pos: int) -> bool {
    let ps = pos + 8;
    &&& occurs_at(d, vp8_lossy(), pos)
    &&& ps + 11 <= d.len()
    &&& payload_end(d, pos) - ps >= 11
    &&& d[ps + 3] == 0x9D
    &&& d[ps + 4] == 0x01
    &&& d[ps + 5] == 0x2A
}

/// Quality estimated from the first VP8 key-frame chunk at or after `pos`.
pub open spec fn vp8_quality_from(d: Seq<u8>, pos: int) -> Option<int>
    decreases d.len() - pos,
{
    if pos < 0 || pos + 8 > d.len() {
        None
    } else if is_vp8_keyframe_chunk(d, pos) {
        Some(quality_from_qindex(d[pos + 18]))
    } else if next_chunk(d, pos) > d.len() {
        None
    } else {
        vp8_quality_from(d, next_chunk(d, pos))
    }
}

/// Estimate the quality of a lossy WebP from the quantizer index of its VP8 bitstream.
pub fn estimate_quality_from_bytes(data: &[u8]) -> (r: Result<u8, ImgQualityError>)
    ensures
        match vp8_quality_from(data@, 12) {
            Some(q) => r is Ok && r->Ok_0 == q,
            None => r is Err,
        },
{
    let ghost target = vp8_quality_from(data@, 12);
    let mut pos: usize = 12;
    if data.len() < 12 {
        return Err(analysis_error("No VP8 chunk found"));
    }
    while data.len() - pos >= 8
        invariant
            pos <= data.len(),
            target == vp8_quality_from(data@, 12),
            target == vp8_quality_from(data@, pos as int),
        decreases data@.len() - pos,
    {
        let ps = pos + 8;
        let pe = chunk_payload_end(data, pos);
        if matches_tag_at(data, pos, 0x56, 0x50, 0x38, 0x20) && data.len() - ps >= 11 && pe - ps
            >= 11 && data[ps + 3] == 0x9D && data[ps + 4] == 0x01 && data[ps + 5] == 0x2A {
            let y_ac_qi = data[ps + 10] % 128;
            let quality = ((127 - y_ac_qi) as u32 * 100) / 127;
            assert(quality <= 100);
            return Ok(quality as u8);
        }
        match chunk_advance(data, pos) {
            Some(n) => {
                pos = n;
            },
            None => {
                return Err(analysis_error("No VP8 chunk found"));
            },
        }
    }
    Err(analysis_error("No VP8 chunk found"))
}

/// Whether the data holds a lossless (VP8L) bitstream chunk marker.
pub fn is_lossless_from_bytes(data: &[u8]) -> (r: bool)
    ensures
        r == contains_seq(data@, vp8l()),
{
    let pat: [u8; 4] = [0x56, 0x50, 0x38, 0x4C];
    assert(pat@ =~= vp8l());
    contains(data, &pat)
}

/// Whether the data holds an animation (ANIM) chunk marker.
pub fn is_animated_from_bytes(data: &[u8]) -> (r: bool)
    ensures
        r == contains_seq(data@, anim()),
{
    let pat: [u8; 4] = [0x41, 0x4E, 0x49, 0x4D];
    assert(pat@ =~= anim());
    contains(data, &pat)
}

/// Number of animation frame (ANMF) markers in the data.
pub fn count_frames_from_bytes(data: &[u8]) -> (r: Result<u32, ImgQualityError>)
    ensures
        count_occurrences(data@, anmf(), data@.len() as int) <= u32::MAX ==> r is Ok && r->Ok_0
            == count_occurrences(data@, anmf(), data@.len() as int),
        count_occurrences(data@, anmf(), data@.len() as int) > u32::MAX ==> r is Err,
{
    let pat: [u8; 4] = [0x41, 0x4E, 0x4D, 0x46];
    assert(pat@ =~= anmf());
    let n = count(data, &pat);
    if n > u32::MAX as usize {
        Err(numeric_error("WebP frame count overflow"))
    } else {
        Ok(n as u32)
    }
}

/// A frame delay counts only when it is positive and at most one minute.
pub open spec fn counted_delay_ms(v: int) -> int {
    if 0 < v && v <= 60000 {
        v
    } else {
        0
    }
}

/// Sum of the ANMF frame delays met by the RIFF chunk walk from `pos`; the walk
/// stops at a chunk whose declared size overruns the data.
pub open spec fn riff_duration_from(d: Seq<u8>, pos: int) -> int
    decreases d.len() - pos,
{
    if pos < 0 || pos + 8 > d.len() {
        0
    } else if chunk_size(d, pos) > d.len() - (pos + 8) {
        0
    } else {
        let here = if occurs_at(d, anmf(), pos) && pos + 8 + 15 <= d.len() {
            counted_delay_ms(le_u24(d, pos + 8 + 12))
        } else {
            0
        };
        here + if next_chunk(d, pos) > d.len() {
            0
        } else {
            riff_duration_from(d, next_chunk(d, pos))
        }
    }
}

/// Sum of the frame delays read at a fixed offset after every ANMF marker below `upto`.
pub open spec fn marker_duration(d: Seq<u8>, upto: int) -> int
    decreases upto,
{
    if upto <= 0 {
        0
    } else {
        marker_duration(d, upto - 1) + if occurs_at(d, anmf(), upto - 1) && upto - 1 + 23
            <= d.len() {
            counted_delay_ms(le_u24(d, upto - 1 + 20))
        } else {
            0
        }
    }
}

/// Total animation duration in milliseconds: the RIFF walk, or the marker scan when the
/// walk found nothing; `None` for non-animated data, zero, or more than ten minutes.
pub open spec fn spec_duration_ms(d: Seq<u8>) -> Option<int> {
    if d.len() < 12 || !occurs_at(d, tag4(0x52, 0x49, 0x46, 0x46), 0) || !occurs_at(
        d,
        tag4(0x57, 0x45, 0x42, 0x50),
        8,
    ) || !contains_seq(d, anim()) {
        None
    } else {
        let walked = riff_duration_from(d, 12);
        let total = if walked == 0 {
            marker_duration(d, d.len() as int)
        } else {
            walked
        };
        if total == 0 || total > 600000 {
            None
        } else {
            Some(total)
        }
    }
}

proof fn lemma_riff_duration_nonneg(d: Seq<u8>, pos: int)
    ensures
        riff_duration_from(d, pos) >= 0,
    decreases d.len() - pos,
{
    if pos < 0 || pos + 8 > d.len() {
    } else if chunk_size(d, pos) > d.len() - (pos + 8) {
    } else if next_chunk(d, pos) > d.len() {
    } else {
        lemma_riff_duration_nonneg(d, next_chunk(d, pos));
    }
}

proof fn lemma_marker_duration_mono(d: Seq<u8>, upto: int)
    ensures
        marker_duration(d, upto) >= 0,
        upto > 0 ==> marker_duration(d, upto) >= marker_duration(d, upto - 1),
    decreases upto,
{
    if upto > 0 {
        lemma_marker_duration_mono(d, upto - 1);
    }
}

/// Total duration in milliseconds of an animated WebP (see `spec_duration_ms`).
pub fn duration_ms_from_bytes(data: &[u8]) -> (r: Option<u64>)
    ensures
        match spec_duration_ms(data@) {
            Some(t) => r == Some(t as u64),
            None => r is None,
        },
{
    if data.len() < 12 || !matches_tag_at(data, 0, 0x52, 0x49, 0x46, 0x46) || !matches_tag_at(
        data,
        8,
        0x57,
        0x45,
        0x42,
        0x50,
    ) || !is_animated_from_bytes(data) {
        return None;
    }
    let cap: u64 = 600001;
    let mut pos: usize = 12;
    let mut total: u64 = 0;
    let ghost mut acc: int = 0;
    proof {
        lemma_riff_duration_nonneg(data@, 12);
    }
    let mut done = false;
    while !done && data.len() - pos >= 8
        invariant
            pos <= data.len(),
            acc >= 0,
            !done ==> acc + riff_duration_from(data@, pos as int) == riff_duration_from(data@, 12),
            done ==> acc == riff_duration_from(data@, 12),
            cap == 600001,
            total <= cap,
            total == if acc < cap {
                acc
            } else {
                cap as int
            },
        decreases data@.len() - pos + if done {
            0int
        } else {
            1int
        },
    {
        let size = read_le_u32(data, pos + 4) as usize;
        let ps = pos + 8;
        if size > data.len() - ps {
            assert(riff_duration_from(data@, pos as int) == 0);
            done = true;
        } else {
            proof {
                lemma_riff_duration_nonneg(data@, pos as int);
            }
            if matches_tag_at(data, pos, 0x41, 0x4E, 0x4D, 0x46) && data.len() - ps >= 15 {
                let d = read_le_u24(data, ps + 12);
                if d > 0 && d <= 60000 {
                    proof {
                        acc = acc + d;
                    }
                    total = if total + (d as u64) < cap {
                        total + d as u64
                    } else {
                        cap
                    };
                }
            }
            match chunk_advance(data, pos) {
                Some(n) => {
                    proof {
                        lemma_riff_duration_nonneg(data@, n as int);
                    }
                    pos = n;
                },
                None => {
                    done = true;
                },
            }
        }
    }
    let ghost walked = riff_duration_from(data@, 12);
    assert(total == if walked < cap { walked } else { cap as int });
    if total == 0 {
        let mut idx: usize = 0;
        let ghost mut macc: int = 0;
        while idx < data.len()
            invariant
                idx <= data.len(),
                cap == 600001,
            total <= cap,
                macc == marker_duration(data@, idx as int),
                macc >= 0,
                total == if macc < cap {
                    macc
                } else {
                    cap as int
                },
            decreases data@.len() - idx,
        {
            proof {
                lemma_marker_duration_mono(data@, idx + 1);
            }
            if matches_tag_at(data, idx, 0x41, 0x4E, 0x4D, 0x46) && data.len() - idx >= 23 {
                let d = read_le_u24(data, idx + 20);
                if d > 0 && d <= 60000 {
                    proof {
                        macc = macc + d;
                    }
                    total = if total + (d as u64) < cap {
                        total + d as u64
                    } else {
                        cap
                    };
                }
            }
            idx = idx + 1;
        }
    }
    if total == 0 || total > 600000 {
        None
    } else {
        Some(total)
    }
}

} // verus!
