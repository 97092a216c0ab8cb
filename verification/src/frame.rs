//! The wire format: fixed-length, zero-padded frames.
//!
//! A frame carries the UTF-8 bytes of a message, cut or padded with zero bytes
//! to the frame length. Reading a frame back yields the bytes before its first
//! zero byte.

use vstd::prelude::*;
use vstd::string::*;
use vstd::utf8::*;

verus! {

/// The error of `String::from_utf8`, carried through unopened.
#[verifier::external_type_specification]
#[verifier::external_body]
pub struct ExFromUtf8Error(std::string::FromUtf8Error);

/// `String::from_utf8` succeeds exactly on well-formed UTF-8, and the string
/// it then returns is the one whose UTF-8 encoding is the bytes it was given.
pub assume_specification[ String::from_utf8 ](bytes: Vec<u8>) -> (text: Result<
    String,
    std::string::FromUtf8Error,
>)
    ensures
        text is Ok <==> valid_utf8(bytes@),
        text matches Ok(s) ==> encode_utf8(s@) == bytes@,
;

/// The frame of length `size` that carries `bytes`: the bytes in order, cut
/// after `size` of them, and zero in every place they do not fill.
pub open spec fn frame_of(bytes: Seq<u8>, size: nat) -> Seq<u8> {
    Seq::new(
        size,
        |i: int|
            if i < bytes.len() {
                bytes[i]
            } else {
                0u8
            },
    )
}

/// Lays `msg` out as a frame of exactly `size` bytes.
pub fn encode(msg: &str, size: usize) -> (frame: Vec<u8>)
    ensures
        frame@ == frame_of(encode_utf8(msg@), size as nat),
{
    let mut frame = msg.as_bytes_vec();
    frame.resize(size, 0u8);
    frame
}

/// How many bytes of `frame` come before its first zero byte; the whole
/// length where it holds none.
pub open spec fn payload_len(frame: Seq<u8>) -> nat
    decreases frame.len(),
{
    if frame.len() == 0 || frame[0] == 0u8 {
        0
    } else {
        1 + payload_len(frame.drop_first())
    }
}

/// What a frame carries: its bytes up to, and without, the first zero byte.
pub open spec fn payload_of(frame: Seq<u8>) -> Seq<u8> {
    frame.take(payload_len(frame) as int)
}

/// No byte of `bytes` is zero.
pub open spec fn zero_free(bytes: Seq<u8>) -> bool {
    forall|i: int| 0 <= i < bytes.len() ==> bytes[i] != 0u8
}

/// `payload_len` is the one position `k` such that no byte before `k` is zero
/// and `k` is either the end of the frame or the place of a zero byte.
pub proof fn lemma_payload_len_is(frame: Seq<u8>, k: int)
    requires
        0 <= k <= frame.len(),
        zero_free(frame.take(k)),
        k < frame.len() ==> frame[k] == 0u8,
    ensures
        payload_len(frame) == k,
    decreases frame.len(),
{
    if frame.len() == 0 || frame[0] == 0u8 {
        if k > 0 {
            assert(frame.take(k)[0] == frame[0]);
        }
    } else {
        let rest = frame.drop_first();
        let head = rest.take(k - 1);
        assert forall|i: int| 0 <= i < head.len() implies head[i] != 0u8 by {
            assert(frame.take(k)[i + 1] == head[i]);
        }
        lemma_payload_len_is(rest, k - 1);
    }
}

/// The payload is a zero-free prefix of the frame, and where it is shorter
/// than the frame a zero byte follows it.
pub proof fn lemma_payload_shape(frame: Seq<u8>)
    ensures
        payload_len(frame) <= frame.len(),
        zero_free(payload_of(frame)),
        payload_len(frame) < frame.len() ==> frame[payload_len(frame) as int] == 0u8,
    decreases frame.len(),
{
    if frame.len() == 0 || frame[0] == 0u8 {
    } else {
        let rest = frame.drop_first();
        lemma_payload_shape(rest);
        let found = payload_of(frame);
        assert forall|i: int| 0 <= i < found.len() implies found[i] != 0u8 by {
            if i > 0 {
                assert(payload_of(rest)[i - 1] == found[i]);
            }
        }
    }
}

/// Reads the payload out of a frame.
pub fn payload(frame: &[u8]) -> (bytes: Vec<u8>)
    ensures
        bytes@ == payload_of(frame@),
{
    let mut bytes: Vec<u8> = Vec::new();
    let mut i: usize = 0;
    while i < frame.len() && frame[i] != 0u8
        invariant
            i <= frame.len(),
            bytes@ == frame@.take(i as int),
            zero_free(frame@.take(i as int)),
        decreases frame.len() - i,
    {
        bytes.push(frame[i]);
        i = i + 1;
    }
    proof {
        lemma_payload_len_is(frame@, i as int);
    }
    bytes
}

/// The text that a frame carries, where its payload is well-formed UTF-8.
pub open spec fn text_of(frame: Seq<u8>) -> Option<Seq<char>> {
    if valid_utf8(payload_of(frame)) {
        Some(decode_utf8(payload_of(frame)))
    } else {
        None
    }
}

/// Reads the message out of a frame. There is none where the bytes before
/// the first zero byte are not well-formed UTF-8.
pub fn decode(frame: &[u8]) -> (text: Option<String>)
    ensures
        match text {
            Some(s) => text_of(frame@) == Some(s@),
            None => text_of(frame@) is None,
        },
{
    let bytes = payload(frame);
    match String::from_utf8(bytes) {
        Ok(s) => {
            proof {
                encode_utf8_decode_utf8(s@);
            }
            Some(s)
        },
        Err(_) => None,
    }
}

/// Every frame has exactly the length asked for, whatever the message.
pub proof fn lemma_frame_len(bytes: Seq<u8>, size: nat)
    ensures
        frame_of(bytes, size).len() == size,
{
}

/// Bytes that hold no zero and are shorter than the frame come back out of
/// it unchanged.
pub proof fn lemma_payload_round_trip(bytes: Seq<u8>, size: nat)
    requires
        bytes.len() < size,
        zero_free(bytes),
    ensures
        payload_of(frame_of(bytes, size)) == bytes,
{
    let frame = frame_of(bytes, size);
    assert(frame.take(bytes.len() as int) =~= bytes);
    lemma_payload_len_is(frame, bytes.len() as int);
}

/// Round trip: a message whose UTF-8 form is shorter than the frame and holds
/// no zero byte is read back from its frame as the same message.
pub proof fn lemma_round_trip(msg: Seq<char>, size: nat)
    requires
        encode_utf8(msg).len() < size,
        zero_free(encode_utf8(msg)),
    ensures
        text_of(frame_of(encode_utf8(msg), size)) == Some(msg),
{
    lemma_payload_round_trip(encode_utf8(msg), size);
    encode_utf8_valid_utf8(msg);
    encode_utf8_decode_utf8(msg);
}

/// Truncation: bytes that fill the frame or overrun it give a frame of
/// exactly `size` bytes, and what is read back is their first `size` bytes;
/// the rest is lost. This holds where those first `size` bytes hold no zero
/// byte: a zero among them ends the payload there instead.
pub proof fn lemma_truncation(bytes: Seq<u8>, size: nat)
    requires
        bytes.len() >= size,
        zero_free(bytes.take(size as int)),
    ensures
        frame_of(bytes, size).len() == size,
        frame_of(bytes, size) == bytes.take(size as int),
        payload_of(frame_of(bytes, size)) == bytes.take(size as int),
{
    let frame = frame_of(bytes, size);
    assert(frame =~= bytes.take(size as int));
    assert(frame.take(size as int) =~= frame);
    lemma_payload_len_is(frame, size as int);
}

} // verus!
