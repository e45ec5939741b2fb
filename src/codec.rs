use vstd::prelude::*;

use crate::buffer::{buffer_bytes, buffer_extend, buffer_slice, buffer_split_to};
use crate::varint::{
    DecodedVarint,
    decode_spec,
    encode_spec,
    encode_varint,
    lemma_encode_len_u32,
    lemma_scan_encoded,
    lemma_varint_streaming,
    try_decode_varint,
};

verus! {

/// Frames opaque payloads with a varint length prefix.
pub struct VarintFramedCodec;

/// A buffer whose head cannot start any frame.
#[derive(Debug, PartialEq, Eq, Structural)]
pub enum FrameError {
    /// The length prefix runs past five bytes without ending.
    InvalidLength,
}

/// What the head of a buffer holds, read as a frame.
pub enum FrameStep {
    /// A whole frame: its payload, and the bytes after it.
    Frame { payload: Seq<u8>, rest: Seq<u8> },
    /// Not a whole frame yet; more bytes may complete it.
    Incomplete,
    /// A length prefix that no more bytes can repair.
    Malformed,
}

/// The encoding of one frame: the payload's length as a varint, then the payload.
pub open spec fn frame_spec(payload: Seq<u8>) -> Seq<u8> {
    encode_spec(payload.len()) + payload
}

pub open spec fn frame_step(s: Seq<u8>) -> FrameStep {
    match decode_spec(s) {
        DecodedVarint::Decoded { value, bytes } => {
            if s.len() < bytes + value {
                FrameStep::Incomplete
            } else {
                FrameStep::Frame {
                    payload: s.subrange(bytes as int, bytes + value),
                    rest: s.skip(bytes + value),
                }
            }
        },
        DecodedVarint::NotEnough => FrameStep::Incomplete,
        DecodedVarint::Invalid => FrameStep::Malformed,
    }
}

impl VarintFramedCodec {
    /// Appends the frame that carries `item` to `dst`.
    pub fn encode(&mut self, item: Vec<u8>, dst: &mut bytes::BytesMut) -> (r: Result<
        (),
        FrameError,
    >)
        requires
            item@.len() <= u32::MAX,
            buffer_bytes(*old(dst)).len() + 5 + item@.len() <= isize::MAX,
        ensures
            r is Ok,
            buffer_bytes(*final(dst)) == buffer_bytes(*old(dst)) + frame_spec(item@),
    {
        let len = item.len() as u32;
        encode_varint(dst, len);
        proof {
            lemma_encode_len_u32(len);
        }
        buffer_extend(dst, item.as_slice());
        proof {
            assert(buffer_bytes(*dst) =~= buffer_bytes(*old(dst)) + frame_spec(item@));
        }
        Ok(())
    }

    /// Takes one whole frame off the head of `src` and returns its payload;
    /// leaves `src` as it was while the frame is incomplete.
    pub fn decode(&mut self, src: &mut bytes::BytesMut) -> (r: Result<
        Option<bytes::BytesMut>,
        FrameError,
    >)
        ensures
            match frame_step(buffer_bytes(*old(src))) {
                FrameStep::Frame { payload, rest } => r matches Ok(Some(p)) && buffer_bytes(p)
                    == payload && buffer_bytes(*final(src)) == rest,
                FrameStep::Incomplete => r == Ok::<Option<bytes::BytesMut>, FrameError>(None)
                    && *final(src) == *old(src),
                FrameStep::Malformed => r == Err::<Option<bytes::BytesMut>, FrameError>(
                    FrameError::InvalidLength,
                ) && *final(src) == *old(src),
            },
    {
        let head = buffer_slice(src);
        match try_decode_varint(head) {
            DecodedVarint::NotEnough => Ok(None),
            DecodedVarint::Invalid => Err(FrameError::InvalidLength),
            DecodedVarint::Decoded { value, bytes } => {
                let len = head.len();
                let value = value as usize;
                if len - bytes < value {
                    Ok(None)
                } else {
                    let ghost whole = buffer_bytes(*src);
                    buffer_split_to(src, bytes);
                    let payload = buffer_split_to(src, value);
                    proof {
                        assert(buffer_bytes(payload) =~= whole.subrange(
                            bytes as int,
                            bytes + value,
                        ));
                        assert(buffer_bytes(*src) =~= whole.skip(bytes + value));
                    }
                    Ok(Some(payload))
                }
            },
        }
    }
}

/// Decoding a frame's encoding, whatever bytes follow it, gives back the
/// payload and leaves those bytes; a buffer cut anywhere before the frame
/// ends holds no frame yet, and is whole again once the rest arrives.
pub proof fn lemma_frame_round_trip(payload: Seq<u8>, rest: Seq<u8>, j: int)
    requires
        payload.len() <= u32::MAX,
        0 <= j < frame_spec(payload).len(),
    ensures
        frame_step(frame_spec(payload) + rest) == (FrameStep::Frame { payload, rest }),
        frame_step(frame_spec(payload).take(j)) == FrameStep::Incomplete,
        frame_spec(payload).take(j) + (frame_spec(payload).skip(j) + rest) == frame_spec(payload)
            + rest,
{
    let n = payload.len() as u32;
    let e = encode_spec(n as nat);
    let f = frame_spec(payload);
    lemma_encode_len_u32(n);
    let whole = f + rest;
    assert(whole =~= e + (payload + rest));
    lemma_scan_encoded(n as nat, payload + rest, 5);
    assert(whole.subrange(e.len() as int, e.len() + n) =~= payload);
    assert(whole.skip(e.len() + n) =~= rest);
    let part = f.take(j);
    if j < e.len() {
        assert(part =~= e.take(j));
        lemma_varint_streaming(n, j, Seq::empty());
    } else {
        assert(part =~= e + payload.take(j - e.len()));
        lemma_scan_encoded(n as nat, payload.take(j - e.len()), 5);
    }
    assert(f.take(j) + (f.skip(j) + rest) =~= f + rest);
}

} // verus!
