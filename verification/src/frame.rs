//! Frames: a payload behind the eight bytes that announce its length.
//!
//! One frame carries one message. Nothing is checked, packed or interleaved, and the
//! codec sets no ceiling on the length: whoever reads from a peer applies its own.

use vstd::prelude::*;
use crate::order::{ByteOrder, length_prefix, prefix_value, encode_length, decode_length, lemma_prefix_round_trip};

verus! {

/// The number of bytes in front of every payload.
pub const PREFIX_LEN: usize = 8;

/// Why a buffer does not start with a whole frame.
#[derive(Clone, Copy, Debug, PartialEq, Eq, Structural)]
pub enum FrameError {
    /// Fewer than eight bytes: the length itself is cut short.
    ShortPrefix,
    /// The length is there, the payload it announces is not, or not all of it.
    ShortPayload,
}

/// A payload as it travels: its length in `order`, then its bytes.
pub open spec fn frame_bytes(order: ByteOrder, payload: Seq<u8>) -> Seq<u8>
    recommends
        payload.len() <= u64::MAX,
{
    length_prefix(order, payload.len() as u64) + payload
}

/// The payload length that the first eight bytes of `input` announce.
pub open spec fn announced(order: ByteOrder, input: Seq<u8>) -> u64
    recommends
        input.len() >= 8,
{
    prefix_value(order, input.subrange(0, 8))
}

/// The payload of the frame that `input` starts with.
pub open spec fn first_frame(order: ByteOrder, input: Seq<u8>) -> Result<Seq<u8>, FrameError> {
    if input.len() < 8 {
        Err(FrameError::ShortPrefix)
    } else if input.len() - 8 < announced(order, input) {
        Err(FrameError::ShortPayload)
    } else {
        Ok(input.subrange(8, 8 + announced(order, input)))
    }
}

/// Puts `payload` on `channel` as one frame: its length, then the payload in full.
pub fn write_frame(order: ByteOrder, payload: &[u8], channel: &mut Vec<u8>)
    ensures
        final(channel)@ == old(channel)@ + frame_bytes(order, payload@),
{
    let prefix = encode_length(order, payload.len() as u64);
    let ghost before = channel@;
    channel.extend_from_slice(prefix.as_slice());
    assert(channel@ =~= before + prefix@);
    channel.extend_from_slice(payload);
    assert(channel@ =~= before + frame_bytes(order, payload@));
}

/// Takes one frame from the front of `input`.
///
/// Gives the payload and the number of bytes that the frame took up, so that the
/// next frame can be read from there. Fails when `input` ends before the frame does.
pub fn read_frame(order: ByteOrder, input: &[u8]) -> (taken: Result<(Vec<u8>, usize), FrameError>)
    ensures
        match first_frame(order, input@) {
            Ok(payload) => taken matches Ok((bytes, used)) && bytes@ == payload && used == 8
                + payload.len(),
            Err(e) => taken == Err::<(Vec<u8>, usize), FrameError>(e),
        },
{
    if input.len() < PREFIX_LEN {
        return Err(FrameError::ShortPrefix);
    }
    let head = vstd::slice::slice_subrange(input, 0, PREFIX_LEN);
    let length: u64 = decode_length(order, head).unwrap();
    let room: usize = input.len() - PREFIX_LEN;
    if (room as u64) < length {
        return Err(FrameError::ShortPayload);
    }
    let end: usize = PREFIX_LEN + length as usize;
    let body = vstd::slice::slice_subrange(input, PREFIX_LEN, end);
    Ok((vstd::slice::slice_to_vec(body), end))
}

/// A frame that was written is read back as it was, whatever follows it on the channel.
pub proof fn lemma_frame_round_trip(order: ByteOrder, payload: Seq<u8>, rest: Seq<u8>)
    requires
        payload.len() <= u64::MAX,
    ensures
        first_frame(order, frame_bytes(order, payload) + rest) == Ok::<Seq<u8>, FrameError>(
            payload,
        ),
        (frame_bytes(order, payload) + rest).skip(8 + payload.len() as int) == rest,
{
    let n = payload.len() as u64;
    let wire = frame_bytes(order, payload) + rest;
    lemma_prefix_round_trip(order, n);
    assert(wire.subrange(0, 8) =~= length_prefix(order, n));
    assert(wire.subrange(8, 8 + n) =~= payload);
    assert(wire.skip(8 + payload.len() as int) =~= rest);
}

/// A channel that is cut anywhere inside a frame yields no payload.
pub proof fn lemma_cut_frame_fails(order: ByteOrder, payload: Seq<u8>, kept: int)
    requires
        payload.len() <= u64::MAX,
        0 <= kept < 8 + payload.len(),
    ensures
        first_frame(order, frame_bytes(order, payload).take(kept)) is Err,
{
    let n = payload.len() as u64;
    let cut = frame_bytes(order, payload).take(kept);
    lemma_prefix_round_trip(order, n);
    if kept >= 8 {
        assert(cut.subrange(0, 8) =~= length_prefix(order, n));
    }
}

} // verus!
