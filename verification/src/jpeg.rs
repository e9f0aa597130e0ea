//! Which JPEG streams are handed to the decoder.
//!
//! The decoder fails in the middle of its work on two kinds of frame: one
//! taller or wider than [`MAX_SIDE`] pixels, and a lossless one whose samples
//! have a width that it does not lay out as it announces. The frame it decodes
//! is the first one whose header it reads. This module finds that header the
//! way the decoder does, as far as the stream is laid out plainly, and looks
//! at every place where the header could be where it is not.
//!
//! A stream opens with the start-of-image marker. Segments follow, each a
//! marker of two bytes, a length of two bytes that counts itself, and data.

use vstd::prelude::*;

verus! {

/// The code of the marker that opens a stream.
pub const START_OF_IMAGE: u8 = 0xD8;

/// The code of the marker that opens a lossless, Huffman-coded frame.
pub const LOSSLESS_FRAME: u8 = 0xC3;

/// The largest height and the largest width of a frame that is decoded.
pub const MAX_SIDE: u16 = 65528;

/// Whether `code` marks a segment that comes before the frame and is passed
/// over by its length: application data, a comment, quantisation tables,
/// Huffman tables or a restart interval.
pub open spec fn is_passed_segment(code: u8) -> bool {
    0xE0 <= code <= 0xEF || code == 0xFE || code == 0xDB || code == 0xC4 || code == 0xDD
}

/// Whether `code` marks a frame header of any kind.
pub open spec fn is_frame_code(code: u8) -> bool {
    0xC0 <= code <= 0xCF && code != 0xC4 && code != 0xC8 && code != 0xCC
}

/// The number that the two bytes at `pos` state, the high byte first.
pub open spec fn number_at(bytes: Seq<u8>, pos: int) -> int {
    bytes[pos] * 256 + bytes[pos + 1]
}

/// Whether a whole segment of a kind that is passed over lies at `pos`: its
/// marker is the two bytes there, and the stream holds all that its length
/// states.
pub open spec fn segment_at(bytes: Seq<u8>, pos: int) -> bool {
    &&& 0 <= pos
    &&& pos + 4 <= bytes.len()
    &&& bytes[pos] == 0xFF
    &&& is_passed_segment(bytes[pos + 1])
    &&& number_at(bytes, pos + 2) >= 2
    &&& pos + 2 + number_at(bytes, pos + 2) <= bytes.len()
}

/// Where the run of such segments that starts at `pos` ends: the first
/// position at which none lies.
pub open spec fn segments_end(bytes: Seq<u8>, pos: int) -> int
    decreases bytes.len() - pos,
{
    if segment_at(bytes, pos) {
        segments_end(bytes, pos + 2 + number_at(bytes, pos + 2))
    } else {
        pos
    }
}

/// Whether the two bytes at `at` are the marker of a frame header.
pub open spec fn frame_marker_at(bytes: Seq<u8>, at: int) -> bool {
    0 <= at && at + 1 < bytes.len() && bytes[at] == 0xFF && is_frame_code(bytes[at + 1])
}

/// Whether lossless samples of `precision` bits in `components` components
/// are laid out as announced: eight bits always, and nine to sixteen bits
/// where there is one component.
pub open spec fn lossless_fits(precision: u8, components: u8) -> bool {
    precision == 8 || (components == 1 && 9 <= precision <= 16)
}

/// Whether a frame header that is not decoded stands at `at`, marker first.
///
/// Behind the marker come the length, the sample precision in one byte, the
/// height and the width in two bytes each, and the number of components in
/// one. Only a header that is there in full, of a sequential, progressive or
/// lossless Huffman-coded frame, can be one; any other makes the decoder give
/// up by itself.
pub open spec fn unsupported_frame_at(bytes: Seq<u8>, at: int) -> bool {
    &&& 0 <= at
    &&& at + 9 < bytes.len()
    &&& bytes[at] == 0xFF
    &&& 0xC0 <= bytes[at + 1] <= LOSSLESS_FRAME
    &&& {
        ||| number_at(bytes, at + 5) > MAX_SIDE
        ||| number_at(bytes, at + 7) > MAX_SIDE
        ||| bytes[at + 1] == LOSSLESS_FRAME && !lossless_fits(bytes[at + 4], bytes[at + 9])
    }
}

/// Whether `bytes` open as a JPEG stream does and may bring the decoder to a
/// frame that is not decoded.
///
/// Where a frame marker stands right behind the leading segments, that frame
/// decides. Where something else stands there, no place behind it may hold
/// such a header, which refuses a few streams that the decoder would read
/// otherwise.
pub open spec fn holds_unsupported_frame(bytes: Seq<u8>) -> bool {
    &&& bytes.len() >= 2
    &&& bytes[0] == 0xFF
    &&& bytes[1] == START_OF_IMAGE
    &&& if frame_marker_at(bytes, segments_end(bytes, 2)) {
        unsupported_frame_at(bytes, segments_end(bytes, 2))
    } else {
        exists|at: int| segments_end(bytes, 2) <= at && #[trigger] unsupported_frame_at(bytes, at)
    }
}

/// Tests the header at `at`, which is there in full.
fn is_unsupported_frame(bytes: &[u8], at: usize) -> (unsupported: bool)
    requires
        at + 9 < bytes@.len(),
    ensures
        unsupported == unsupported_frame_at(bytes@, at as int),
{
    assert(bytes@.len() == bytes.len());
    let code = bytes[at + 1];
    if bytes[at] != 0xFF || code < 0xC0 || code > LOSSLESS_FRAME {
        return false;
    }
    let height: u16 = read_number(bytes, at + 5);
    let width: u16 = read_number(bytes, at + 7);
    if height > MAX_SIDE || width > MAX_SIDE {
        return true;
    }
    let precision = bytes[at + 4];
    let components = bytes[at + 9];
    code == LOSSLESS_FRAME && !(precision == 8 || (components == 1 && 9 <= precision
        && precision <= 16))
}

/// Reads the number that the two bytes at `pos` state.
fn read_number(bytes: &[u8], pos: usize) -> (number: u16)
    requires
        pos + 1 < bytes@.len(),
    ensures
        number == number_at(bytes@, pos as int),
{
    assert(bytes@.len() == bytes.len());
    let high: u16 = bytes[pos] as u16;
    let low: u16 = bytes[pos + 1] as u16;
    high * 256 + low
}

/// Finds the end of the leading run of segments that are passed over.
fn find_segments_end(bytes: &[u8]) -> (end: usize)
    requires
        bytes@.len() >= 2,
    ensures
        2 <= end <= bytes@.len(),
        end == segments_end(bytes@, 2),
{
    let len = bytes.len();
    let mut pos: usize = 2;
    loop
        invariant
            len == bytes@.len(),
            2 <= pos <= len,
            segments_end(bytes@, 2) == segments_end(bytes@, pos as int),
        ensures
            2 <= pos <= len,
            segments_end(bytes@, 2) == pos,
        decreases len - pos,
    {
        if len - pos < 4 || bytes[pos] != 0xFF {
            break ;
        }
        let code = bytes[pos + 1];
        let passed = 0xE0 <= code && code <= 0xEF || code == 0xFE || code == 0xDB || code == 0xC4
            || code == 0xDD;
        if !passed {
            break ;
        }
        let length: usize = read_number(bytes, pos + 2) as usize;
        if length < 2 || len - pos - 2 < length {
            break ;
        }
        pos = pos + 2 + length;
    }
    pos
}

/// Tests whether `bytes` may bring the decoder to a frame that is not decoded.
pub fn finds_unsupported_frame(bytes: &[u8]) -> (found: bool)
    ensures
        found == holds_unsupported_frame(bytes@),
{
    let len = bytes.len();
    if len < 2 || bytes[0] != 0xFF || bytes[1] != START_OF_IMAGE {
        return false;
    }
    let start = find_segments_end(bytes);
    if len - start > 1 && bytes[start] == 0xFF {
        let code = bytes[start + 1];
        if 0xC0 <= code && code <= 0xCF && code != 0xC4 && code != 0xC8 && code != 0xCC {
            return len - start > 9 && is_unsupported_frame(bytes, start);
        }
    }
    let mut at: usize = start;
    while len - at > 9
        invariant
            len == bytes@.len(),
            2 <= start <= at <= len,
            bytes@[0] == 0xFF,
            bytes@[1] == START_OF_IMAGE,
            start == segments_end(bytes@, 2),
            !frame_marker_at(bytes@, start as int),
            forall|i: int| start <= i < at ==> !unsupported_frame_at(bytes@, i),
        decreases len - at,
    {
        if is_unsupported_frame(bytes, at) {
            return true;
        }
        at = at + 1;
    }
    assert forall|i: int| start <= i implies !unsupported_frame_at(bytes@, i) by {
        if i < at {
        }
    }
    false
}

} // verus!
