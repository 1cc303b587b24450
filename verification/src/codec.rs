//! Frame codec: every message on the wire is one frame, a 4-byte big-endian
//! length prefix followed by exactly that many payload bytes.

use vstd::prelude::*;

verus! {

/// Ways reading a frame can fail. `IncompleteFrame` covers a stream that ends
/// before the prefix or the payload is complete; `FrameTooLarge` is the guard
/// against a corrupt or hostile length prefix demanding an unbounded
/// allocation.
#[derive(Clone, Copy, Debug, PartialEq, Eq, Structural)]
pub enum FrameError {
    IncompleteFrame,
    FrameTooLarge,
}

/// Default cap on a single payload's size.
pub const DEFAULT_MAX_PAYLOAD: u32 = 16 * 1024 * 1024;

/// The 4-byte big-endian encoding of a length.
pub open spec fn spec_len_prefix(n: u32) -> Seq<u8> {
    seq![
        ((n >> 24) & 0xff) as u8,
        ((n >> 16) & 0xff) as u8,
        ((n >> 8) & 0xff) as u8,
        (n & 0xff) as u8,
    ]
}

/// The length read big-endian from the first 4 bytes.
pub open spec fn spec_len_value(s: Seq<u8>) -> u32
    recommends
        s.len() >= 4,
{
    (((s[0] as u32) << 24) | ((s[1] as u32) << 16) | ((s[2] as u32) << 8) | (s[3] as u32)) as u32
}

/// The two length encodings invert each other.
pub proof fn lemma_len_prefix_value(n: u32)
    ensures
        spec_len_prefix(n).len() == 4,
        spec_len_value(spec_len_prefix(n)) == n,
{
    let s = spec_len_prefix(n);
    assert((((((n >> 24) & 0xff) as u8) as u32) << 24) | (((((n >> 16) & 0xff) as u8) as u32)
        << 16) | (((((n >> 8) & 0xff) as u8) as u32) << 8) | ((((n & 0xff) as u8) as u32)) == n)
        by (bit_vector);
}

/// A whole frame: the payload's length, big-endian, then the payload.
pub open spec fn spec_encode(payload: Seq<u8>) -> Seq<u8>
    recommends
        payload.len() <= u32::MAX,
{
    spec_len_prefix(payload.len() as u32) + payload
}

/// What reading one frame from the front of `data` gives, when the bytes in
/// `data` are all the stream will deliver. A complete prefix announcing more
/// than `max_payload` bytes fails before any of the payload is looked at.
pub open spec fn spec_read_frame(data: Seq<u8>, max_payload: u32) -> Result<Seq<u8>, FrameError> {
    if data.len() < 4 {
        Err(FrameError::IncompleteFrame)
    } else {
        let n = spec_len_value(data) as int;
        if n > max_payload {
            Err(FrameError::FrameTooLarge)
        } else if data.len() < 4 + n {
            Err(FrameError::IncompleteFrame)
        } else {
            Ok(data.subrange(4, 4 + n))
        }
    }
}

/// Prepends the 4-byte big-endian length of `payload` to `payload`.
pub fn encode(payload: &Vec<u8>) -> (frame: Vec<u8>)
    requires
        payload@.len() <= u32::MAX,
    ensures
        frame@ == spec_encode(payload@),
        frame@.len() == payload@.len() + 4,
{
    let n = payload.len() as u32;
    let mut frame: Vec<u8> = Vec::new();
    frame.push(((n >> 24) & 0xff) as u8);
    frame.push(((n >> 16) & 0xff) as u8);
    frame.push(((n >> 8) & 0xff) as u8);
    frame.push((n & 0xff) as u8);
    frame.extend_from_slice(payload.as_slice());
    assert(frame@ =~= spec_encode(payload@));
    frame
}

/// Reads the one frame at the front of `data`, the bytes a stream delivered:
/// the payload if both the prefix and the declared payload arrived entirely,
/// `FrameTooLarge` if the prefix declares more than `max_payload` bytes, and
/// `IncompleteFrame` if the stream ended before either part was complete.
pub fn read_frame(data: &Vec<u8>, max_payload: u32) -> (r: Result<Vec<u8>, FrameError>)
    ensures
        match r {
            Ok(payload) => spec_read_frame(data@, max_payload) == Ok::<Seq<u8>, FrameError>(
                payload@,
            ),
            Err(e) => spec_read_frame(data@, max_payload) == Err::<Seq<u8>, FrameError>(e),
        },
{
    if data.len() < 4 {
        return Err(FrameError::IncompleteFrame);
    }
    let n = frame_len(data);
    if n > max_payload {
        return Err(FrameError::FrameTooLarge);
    }
    let rest = data.len() - 4;
    if rest < n as usize {
        return Err(FrameError::IncompleteFrame);
    }
    let need = (n as usize) + 4;
    let mut payload: Vec<u8> = Vec::new();
    let mut i: usize = 4;
    while i < need
        invariant
            4 <= i <= need,
            need == n + 4,
            need <= data@.len(),
            payload@ =~= data@.subrange(4, i as int),
        decreases need - i,
    {
        payload.push(data[i]);
        i = i + 1;
    }
    assert(payload@ =~= data@.subrange(4, 4 + n as int));
    Ok(payload)
}

/// The length announced by a complete 4-byte prefix at the front of `data`.
pub fn frame_len(data: &Vec<u8>) -> (n: u32)
    requires
        data@.len() >= 4,
    ensures
        n == spec_len_value(data@),
{
    let b0 = data[0] as u32;
    let b1 = data[1] as u32;
    let b2 = data[2] as u32;
    let b3 = data[3] as u32;
    (b0 << 24) | (b1 << 16) | (b2 << 8) | b3
}

/// Round trip: a frame built by `encode` reads back as exactly its payload,
/// under any cap the payload respects.
pub proof fn lemma_frame_round_trip(payload: Seq<u8>, max_payload: u32)
    requires
        payload.len() <= max_payload,
    ensures
        spec_read_frame(spec_encode(payload), max_payload) == Ok::<Seq<u8>, FrameError>(payload),
{
    let frame = spec_encode(payload);
    lemma_len_prefix_value(payload.len() as u32);
    assert(spec_len_value(frame) == payload.len() as u32) by {
        assert(frame[0] == spec_len_prefix(payload.len() as u32)[0]);
        assert(frame[1] == spec_len_prefix(payload.len() as u32)[1]);
        assert(frame[2] == spec_len_prefix(payload.len() as u32)[2]);
        assert(frame[3] == spec_len_prefix(payload.len() as u32)[3]);
    }
    assert(frame.subrange(4, 4 + payload.len() as int) =~= payload);
}

} // verus!
