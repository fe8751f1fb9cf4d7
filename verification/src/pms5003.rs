//! Incremental decoder for the PMS5003 sensor's 32-byte wire frames.
//!
//! The decoder locates frame boundaries inside an unbounded, partially
//! arriving byte stream, discards leading noise, optionally swallows the
//! startup artifacts some serial transports echo, validates each candidate
//! block's header and checksum, and extracts the twelve measurements.

use vstd::prelude::*;

use crate::bytebuf::{bytes_advance, bytes_slice, bytes_view};

verus! {

/// First byte of the two-byte frame start marker.
pub const FRAME_START_0: u8 = 0x42;

/// Second byte of the two-byte frame start marker.
pub const FRAME_START_1: u8 = 0x4d;

/// Length in bytes of one whole wire frame, marker included.
pub const FRAME_LEN: usize = 32;

/// One validated wire frame: twelve 16-bit measurements.
///
/// A value of this type exists only for a 32-byte block that passed header
/// and checksum validation; invalid byte sequences never become a frame.
#[derive(Debug, Clone, Copy, PartialEq, Eq, Structural)]
pub struct Pms5003Frame {
    /// PM1.0 concentration in ug/m3, corrected for standard atmosphere
    pub pm10: u16,
    /// PM2.5 concentration in ug/m3, corrected for standard atmosphere
    pub pm25: u16,
    /// PM10 concentration in ug/m3, corrected for standard atmosphere
    pub pm100: u16,
    /// PM1.0 concentration in ug/m3, in the current atmosphere
    pub pm10_atmos: u16,
    /// PM2.5 concentration in ug/m3, in the current atmosphere
    pub pm25_atmos: u16,
    /// PM10 concentration in ug/m3, in the current atmosphere
    pub pm100_atmos: u16,
    /// Number of particles larger than 0.3um per 0.1L of air
    pub pm03_count: u16,
    /// Number of particles larger than 0.5um per 0.1L of air
    pub pm05_count: u16,
    /// Number of particles larger than 1.0um per 0.1L of air
    pub pm10_count: u16,
    /// Number of particles larger than 2.5um per 0.1L of air
    pub pm25_count: u16,
    /// Number of particles larger than 5.0um per 0.1L of air
    pub pm50_count: u16,
    /// Number of particles larger than 10.0um per 0.1L of air
    pub pm100_count: u16,
}

/// Why a candidate 32-byte block was rejected.
#[derive(Debug, Clone, Copy, PartialEq, Eq, Structural)]
pub enum FrameError {
    /// Both header bytes differ from the start marker.
    InvalidHeader,
    /// The trailing checksum does not equal the byte sum of the block,
    /// reported with both values for diagnostics.
    ChecksumMismatch { received: u32, calculated: u32 },
}

/// The two marker bytes stand at offset `i` of `s`.
pub open spec fn spec_marker_at(s: Seq<u8>, i: int) -> bool {
    &&& 0 <= i
    &&& i + 2 <= s.len()
    &&& s[i] == FRAME_START_0
    &&& s[i + 1] == FRAME_START_1
}

/// Some marker occurs somewhere in `s`.
pub open spec fn spec_has_marker(s: Seq<u8>) -> bool {
    exists|i: int| spec_marker_at(s, i)
}

/// No marker begins at any offset below `k`.
pub open spec fn spec_no_marker_before(s: Seq<u8>, k: int) -> bool {
    forall|j: int| 0 <= j < k ==> !spec_marker_at(s, j)
}

/// Offset of the first marker in `s`; meaningful only when one exists.
pub open spec fn spec_first_marker(s: Seq<u8>) -> int {
    choose|i: int| spec_marker_at(s, i) && spec_no_marker_before(s, i)
}

/// The big-endian 16-bit value stored at offsets `i` and `i + 1` of `s`.
pub open spec fn spec_be16(s: Seq<u8>, i: int) -> u16 {
    (s[i] as int * 256 + s[i + 1] as int) as u16
}

/// Sum of the first `n` bytes of `s`, as an unbounded integer.
pub open spec fn spec_byte_sum(s: Seq<u8>, n: int) -> int
    decreases n,
{
    if n <= 0 {
        0
    } else {
        spec_byte_sum(s, n - 1) + s[n - 1]
    }
}

/// Header acceptance exactly as the protocol handler applies it: a block is
/// rejected only when *both* header bytes are wrong, so a block with one
/// correct marker byte still reaches checksum validation. This leniency is
/// deliberate here; the checksum is what rejects such blocks in practice.
pub open spec fn spec_header_ok(w: Seq<u8>) -> bool {
    w[0] == FRAME_START_0 || w[1] == FRAME_START_1
}

/// The checksum bytes at offsets 30 and 31, read big-endian, equal the sum
/// of the 30 bytes before them.
pub open spec fn spec_checksum_ok(w: Seq<u8>) -> bool {
    spec_be16(w, 30) as int == spec_byte_sum(w, 30)
}

/// A 32-byte block that validation accepts.
pub open spec fn spec_frame_ok(w: Seq<u8>) -> bool {
    spec_header_ok(w) && spec_checksum_ok(w)
}

/// The twelve fields a valid block decodes to: big-endian 16-bit values at
/// their fixed offsets (offsets 0 to 3 are the marker and the unused length
/// field, 28 and 29 are reserved).
pub open spec fn spec_frame_fields(w: Seq<u8>) -> Pms5003Frame {
    Pms5003Frame {
        pm10: spec_be16(w, 4),
        pm25: spec_be16(w, 6),
        pm100: spec_be16(w, 8),
        pm10_atmos: spec_be16(w, 10),
        pm25_atmos: spec_be16(w, 12),
        pm100_atmos: spec_be16(w, 14),
        pm03_count: spec_be16(w, 16),
        pm05_count: spec_be16(w, 18),
        pm10_count: spec_be16(w, 20),
        pm25_count: spec_be16(w, 22),
        pm50_count: spec_be16(w, 24),
        pm100_count: spec_be16(w, 26),
    }
}

/// Everything validating a 32-byte block yields: the frame when header and
/// checksum pass, and otherwise which error, with which diagnostic values.
pub open spec fn spec_parse(w: Seq<u8>) -> Result<Pms5003Frame, FrameError> {
    if !spec_header_ok(w) {
        Err(FrameError::InvalidHeader)
    } else if !spec_checksum_ok(w) {
        Err(FrameError::ChecksumMismatch {
            received: spec_be16(w, 30) as u32,
            calculated: spec_byte_sum(w, 30) as u32,
        })
    } else {
        Ok(spec_frame_fields(w))
    }
}

/// Read the big-endian 16-bit field at offset `i` of the block.
fn be16(raw: &[u8; 32], i: usize) -> (r: u16)
    requires
        i + 1 < 32,
    ensures
        r == spec_be16(raw@, i as int),
{
    (raw[i] as u16) * 256 + (raw[i + 1] as u16)
}

impl Pms5003Frame {
    /// Validate one 32-byte candidate block and extract its fields.
    pub fn from_raw(raw: &[u8; 32]) -> (r: Result<Pms5003Frame, FrameError>)
        ensures
            r == spec_parse(raw@),
    {
        if raw[0] != FRAME_START_0 && raw[1] != FRAME_START_1 {
            return Err(FrameError::InvalidHeader);
        }
        let received: u32 = (raw[30] as u32) * 256 + (raw[31] as u32);
        let mut calculated: u32 = 0;
        let mut i: usize = 0;
        while i < 30
            invariant
                i <= 30,
                calculated == spec_byte_sum(raw@, i as int),
                calculated <= 255 * i,
            decreases 30 - i,
        {
            calculated = calculated + (raw[i] as u32);
            i = i + 1;
        }
        if received != calculated {
            return Err(FrameError::ChecksumMismatch { received, calculated });
        }
        Ok(
            Pms5003Frame {
                pm10: be16(raw, 4),
                pm25: be16(raw, 6),
                pm100: be16(raw, 8),
                pm10_atmos: be16(raw, 10),
                pm25_atmos: be16(raw, 12),
                pm100_atmos: be16(raw, 14),
                pm03_count: be16(raw, 16),
                pm05_count: be16(raw, 18),
                pm10_count: be16(raw, 20),
                pm25_count: be16(raw, 22),
                pm50_count: be16(raw, 24),
                pm100_count: be16(raw, 26),
            },
        )
    }
}

/// Find the first occurrence of the start marker in `s`: a linear scan,
/// safe to repeat on a growing buffer without missing a marker that spans
/// call boundaries.
pub fn find_marker(s: &[u8]) -> (r: Option<usize>)
    ensures
        match r {
            Some(i) => spec_marker_at(s@, i as int) && spec_no_marker_before(s@, i as int),
            None => !spec_has_marker(s@),
        },
{
    if s.len() < 2 {
        return None;
    }
    let mut i: usize = 0;
    while i < s.len() - 1
        invariant
            s@.len() >= 2,
            i <= s@.len() - 1,
            spec_no_marker_before(s@, i as int),
        decreases s@.len() - i,
    {
        if s[i] == FRAME_START_0 && s[i + 1] == FRAME_START_1 {
            return Some(i);
        }
        i = i + 1;
    }
    None
}

/// Below any marker there is a first one: a marker with none before it.
proof fn lemma_first_below(s: Seq<u8>, k: int)
    requires
        spec_marker_at(s, k),
    ensures
        exists|i: int| spec_marker_at(s, i) && spec_no_marker_before(s, i),
    decreases k,
{
    if spec_no_marker_before(s, k) {
        assert(spec_marker_at(s, k) && spec_no_marker_before(s, k));
    } else {
        let j = choose|j: int| 0 <= j < k && spec_marker_at(s, j);
        lemma_first_below(s, j);
    }
}

/// When `s` holds a marker at all, `spec_first_marker` names a marker with
/// none before it.
pub proof fn lemma_exists_first_marker(s: Seq<u8>)
    requires
        spec_has_marker(s),
    ensures
        spec_marker_at(s, spec_first_marker(s)),
        spec_no_marker_before(s, spec_first_marker(s)),
{
    let k = choose|i: int| spec_marker_at(s, i);
    lemma_first_below(s, k);
}

/// The first marker of `s` is wherever a marker stands with none before it.
proof fn lemma_first_marker_is(s: Seq<u8>, i: int)
    requires
        spec_marker_at(s, i),
        spec_no_marker_before(s, i),
    ensures
        spec_has_marker(s),
        spec_first_marker(s) == i,
{
    let k = spec_first_marker(s);
    assert(spec_marker_at(s, k) && spec_no_marker_before(s, k));
    if k < i {
        assert(!spec_marker_at(s, k));
    }
    if k > i {
        assert(!spec_marker_at(s, i));
    }
}

/// Copy the first 32 bytes of `s` into a fixed-size candidate block.
fn first_frame_block(s: &[u8]) -> (a: [u8; 32])
    requires
        s@.len() >= 32,
    ensures
        a@ == s@.subrange(0, 32),
{
    let mut a: [u8; 32] = [0; 32];
    let mut i: usize = 0;
    while i < 32
        invariant
            i <= 32,
            s@.len() >= 32,
            forall|j: int| 0 <= j < i ==> a@[j] == s@[j],
        decreases 32 - i,
    {
        a[i] = s[i];
        i = i + 1;
    }
    proof {
        assert(a@ =~= s@.subrange(0, 32));
    }
    a
}

/// The stateful incremental decoder: consumes the caller's append-only
/// buffer from the front, emits at most one frame per call, never blocks,
/// and never loses bytes it cannot yet interpret.
pub struct Pms5003Codec {
    /// Capability flag set at construction: on platforms whose serial
    /// transport echoes stale bytes right after opening, the first two
    /// marker matches are startup artifacts and must be swallowed.
    pub skip_startup_artifacts: bool,
    /// How many artifact matches were swallowed so far; saturates at 2 and
    /// is never reset.
    pub frames_skipped: u8,
}

/// Everything one `decode` call does: it relates the decoder before
/// (`pre`) and after (`post`), the buffer contents before (`s`) and after
/// (`t`), and the returned value `r`.
pub open spec fn spec_decode_post(
    pre: Pms5003Codec,
    post: Pms5003Codec,
    s: Seq<u8>,
    t: Seq<u8>,
    r: Result<Option<Pms5003Frame>, FrameError>,
) -> bool {
    if !spec_has_marker(s) {
        // Nothing to anchor on yet: wait for more bytes, keep every byte,
        // so a marker spanning the call boundary is still found later.
        &&& r == Ok::<Option<Pms5003Frame>, FrameError>(None)
        &&& t == s
        &&& post == pre
    } else {
        let i = spec_first_marker(s);
        if pre.skip_startup_artifacts && pre.frames_skipped < 2 {
            // Startup artifact: drop the noise and the marker itself,
            // count the match, and ask for more data.
            &&& r == Ok::<Option<Pms5003Frame>, FrameError>(None)
            &&& t == s.skip(i + 2)
            &&& post == (Pms5003Codec {
                frames_skipped: (pre.frames_skipped + 1) as u8,
                ..pre
            })
        } else if s.len() - i < 32 {
            // Marker found but the frame is still incomplete: drop only
            // the noise in front of the marker, consume nothing else.
            &&& r == Ok::<Option<Pms5003Frame>, FrameError>(None)
            &&& t == s.skip(i)
            &&& post == pre
        } else {
            // A full 32-byte candidate: consume it whatever validation
            // says, so a bad frame is never examined twice.
            &&& t == s.skip(i + 32)
            &&& post == pre
            &&& r == (match spec_parse(s.subrange(i, i + 32)) {
                Ok(f) => Ok::<Option<Pms5003Frame>, FrameError>(Some(f)),
                Err(e) => Err::<Option<Pms5003Frame>, FrameError>(e),
            })
        }
    }
}

/// Law: with no start marker in the buffer, a decode call asks for more
/// data, leaves every byte in place for future matches that span the call
/// boundary, and leaves the decoder untouched.
pub proof fn lemma_no_marker_need_more(
    pre: Pms5003Codec,
    post: Pms5003Codec,
    s: Seq<u8>,
    t: Seq<u8>,
    r: Result<Option<Pms5003Frame>, FrameError>,
)
    requires
        spec_decode_post(pre, post, s, t, r),
        !spec_has_marker(s),
    ensures
        r == Ok::<Option<Pms5003Frame>, FrameError>(None),
        t == s,
        post == pre,
{
}

/// Law: a marker followed by fewer than 32 total bytes yields "need more
/// data" without consuming the marker: it still stands at the front of the
/// remaining buffer.
pub proof fn lemma_incomplete_frame_keeps_marker(
    pre: Pms5003Codec,
    post: Pms5003Codec,
    s: Seq<u8>,
    t: Seq<u8>,
    r: Result<Option<Pms5003Frame>, FrameError>,
)
    requires
        spec_decode_post(pre, post, s, t, r),
        spec_has_marker(s),
        !(pre.skip_startup_artifacts && pre.frames_skipped < 2),
        s.len() - spec_first_marker(s) < 32,
    ensures
        r == Ok::<Option<Pms5003Frame>, FrameError>(None),
        t == s.skip(spec_first_marker(s)),
        spec_marker_at(t, 0),
        post == pre,
{
    lemma_exists_first_marker(s);
    let i = spec_first_marker(s);
    assert(t[0] == s[i] && t[1] == s[i + 1]);
}

/// Law: a well-formed 32-byte frame at the first marker decodes to exactly
/// the frame whose fields are the big-endian values at their documented
/// offsets, and exactly the 32 bytes from the marker onward are consumed
/// (noise before the marker is discarded without being surfaced).
pub proof fn lemma_well_formed_frame_decodes(
    pre: Pms5003Codec,
    post: Pms5003Codec,
    s: Seq<u8>,
    t: Seq<u8>,
    r: Result<Option<Pms5003Frame>, FrameError>,
)
    requires
        spec_decode_post(pre, post, s, t, r),
        spec_has_marker(s),
        !(pre.skip_startup_artifacts && pre.frames_skipped < 2),
        s.len() - spec_first_marker(s) >= 32,
        spec_frame_ok(s.subrange(spec_first_marker(s), spec_first_marker(s) + 32)),
    ensures
        r == Ok::<Option<Pms5003Frame>, FrameError>(
            Some(spec_frame_fields(s.subrange(spec_first_marker(s), spec_first_marker(s) + 32))),
        ),
        t == s.skip(spec_first_marker(s) + 32),
        post == pre,
{
}

/// Law: a full candidate block whose validation fails is reported as an
/// error, and its 32 bytes are consumed all the same, so the next call no
/// longer sees them and resynchronizes on the following marker search.
pub proof fn lemma_bad_frame_is_consumed(
    pre: Pms5003Codec,
    post: Pms5003Codec,
    s: Seq<u8>,
    t: Seq<u8>,
    r: Result<Option<Pms5003Frame>, FrameError>,
)
    requires
        spec_decode_post(pre, post, s, t, r),
        spec_has_marker(s),
        !(pre.skip_startup_artifacts && pre.frames_skipped < 2),
        s.len() - spec_first_marker(s) >= 32,
        !spec_frame_ok(s.subrange(spec_first_marker(s), spec_first_marker(s) + 32)),
    ensures
        r.is_err(),
        t == s.skip(spec_first_marker(s) + 32),
        post == pre,
{
}

/// Law: on a platform configured with the startup-artifact policy, a marker
/// match while fewer than two have been swallowed never yields a frame,
/// however valid the bytes after it would be; the marker's two bytes go,
/// the saturating counter moves up by one, and nothing else changes.
pub proof fn lemma_startup_artifacts_swallowed(
    pre: Pms5003Codec,
    post: Pms5003Codec,
    s: Seq<u8>,
    t: Seq<u8>,
    r: Result<Option<Pms5003Frame>, FrameError>,
)
    requires
        spec_decode_post(pre, post, s, t, r),
        spec_has_marker(s),
        pre.skip_startup_artifacts,
        pre.frames_skipped < 2,
    ensures
        r == Ok::<Option<Pms5003Frame>, FrameError>(None),
        t == s.skip(spec_first_marker(s) + 2),
        post.frames_skipped == pre.frames_skipped + 1,
        post.skip_startup_artifacts == pre.skip_startup_artifacts,
{
}

/// Law: a decode call only ever advances the buffer from the front: what
/// remains is always a suffix of what was there, never reordered, rewritten
/// or rewound.
pub proof fn lemma_decode_only_advances(
    pre: Pms5003Codec,
    post: Pms5003Codec,
    s: Seq<u8>,
    t: Seq<u8>,
    r: Result<Option<Pms5003Frame>, FrameError>,
)
    requires
        spec_decode_post(pre, post, s, t, r),
    ensures
        exists|k: int| 0 <= k <= s.len() && t == s.skip(k),
{
    if !spec_has_marker(s) {
        assert(s.skip(0) =~= s);
        assert(0 <= 0 <= s.len() && t == s.skip(0));
    } else {
        lemma_exists_first_marker(s);
        let i = spec_first_marker(s);
        if pre.skip_startup_artifacts && pre.frames_skipped < 2 {
            assert(0 <= i + 2 <= s.len() && t == s.skip(i + 2));
        } else if s.len() - i < 32 {
            assert(0 <= i <= s.len() && t == s.skip(i));
        } else {
            assert(0 <= i + 32 <= s.len() && t == s.skip(i + 32));
        }
    }
}

impl Pms5003Codec {
    /// A decoder for a fresh stream. `skip_startup_artifacts` says whether
    /// this platform's transport echoes stale bytes after opening.
    pub fn new(skip_startup_artifacts: bool) -> (c: Pms5003Codec)
        ensures
            c.skip_startup_artifacts == skip_startup_artifacts,
            c.frames_skipped == 0,
    {
        Pms5003Codec { skip_startup_artifacts, frames_skipped: 0 }
    }

    /// One decoding step over the caller's buffer. Safe to call with an
    /// empty or arbitrarily fragmented buffer; `Ok(None)` means more bytes
    /// are needed.
    pub fn decode(&mut self, src: &mut bytes::BytesMut) -> (r: Result<
        Option<Pms5003Frame>,
        FrameError,
    >)
        ensures
            spec_decode_post(
                *old(self),
                *final(self),
                bytes_view(*old(src)),
                bytes_view(*final(src)),
                r,
            ),
    {
        let ghost s = bytes_view(*src);
        let found = find_marker(bytes_slice(src));
        match found {
            None => Ok(None),
            Some(index) => {
                proof {
                    lemma_first_marker_is(s, index as int);
                }
                if index > 0 {
                    bytes_advance(src, index);
                }
                proof {
                    assert(bytes_view(*src) =~= s.skip(index as int));
                }
                if self.skip_startup_artifacts && self.frames_skipped < 2 {
                    bytes_advance(src, 2);
                    self.frames_skipped = self.frames_skipped + 1;
                    proof {
                        assert(bytes_view(*src) =~= s.skip(index + 2));
                    }
                    return Ok(None);
                }

                let rest = bytes_slice(src);
                if rest.len() < FRAME_LEN {
                    return Ok(None);
                }
                let block = first_frame_block(rest);
                proof {
                    assert(block@ =~= s.subrange(index as int, index + 32));
                }
                let parsed = Pms5003Frame::from_raw(&block);
                bytes_advance(src, 32);
                proof {
                    assert(bytes_view(*src) =~= s.skip(index + 32));
                }
                match parsed {
                    Ok(frame) => Ok(Some(frame)),
                    Err(e) => Err(e),
                }
            },
        }
    }
}

} // verus!
