//! Length-prefixed framing for sidecar IPC.
//!
//! A frame is a four-byte big-endian length followed by that many bytes of
//! JSON. The limit on the payload holds in both directions.

use crate::text;
use bytes::{Buf, BufMut};
use vstd::prelude::*;
use vstd::string::*;

verus! {

/// Largest payload a codec accepts unless told otherwise: 4 MiB.
pub const MAX_MESSAGE_SIZE: usize = 4_194_304;

/// Bytes in a frame header.
pub const HEADER_LEN: usize = 4;

/// The growable byte buffer of the `bytes` crate.
#[verifier::external_type_specification]
#[verifier::external_body]
pub struct ExBytesMut(bytes::BytesMut);

/// The immutable byte string of the `bytes` crate.
#[verifier::external_type_specification]
#[verifier::external_body]
pub struct ExBytes(bytes::Bytes);

/// The bytes that a `BytesMut` holds, first to last.
pub uninterp spec fn buffered(b: bytes::BytesMut) -> Seq<u8>;

/// The bytes that a `Bytes` holds, first to last.
pub uninterp spec fn payload_of(b: bytes::Bytes) -> Seq<u8>;

/// `BytesMut` dereferenced to a slice: all the bytes it holds.
#[verifier::external_body]
fn buffer_slice(b: &bytes::BytesMut) -> (r: &[u8])
    ensures
        r@ == buffered(*b),
{
    &b[..]
}

/// `Bytes` dereferenced to a slice: all the bytes it holds.
#[verifier::external_body]
fn payload_slice(b: &bytes::Bytes) -> (r: &[u8])
    ensures
        r@ == payload_of(*b),
{
    &b[..]
}

/// `BytesMut::reserve`: makes room, and leaves what the buffer holds as it is.
/// The bound is the largest allocation; running out of memory below it is not
/// ruled out.
#[verifier::external_body]
fn buffer_reserve(b: &mut bytes::BytesMut, additional: usize)
    requires
        buffered(*old(b)).len() + additional <= isize::MAX,
    ensures
        buffered(*final(b)) == buffered(*old(b)),
{
    b.reserve(additional)
}

/// `Buf::advance` on a `BytesMut`: drops the first `count` bytes. It panics when
/// there are fewer.
#[verifier::external_body]
fn buffer_advance(b: &mut bytes::BytesMut, count: usize)
    requires
        count <= buffered(*old(b)).len(),
    ensures
        buffered(*final(b)) == buffered(*old(b)).skip(count as int),
{
    b.advance(count)
}

/// `BytesMut::split_to`: the first `at` bytes leave the buffer and are returned.
/// It panics when there are fewer.
#[verifier::external_body]
fn buffer_split_to(b: &mut bytes::BytesMut, at: usize) -> (r: bytes::BytesMut)
    requires
        at <= buffered(*old(b)).len(),
    ensures
        buffered(r) == buffered(*old(b)).take(at as int),
        buffered(*final(b)) == buffered(*old(b)).skip(at as int),
{
    b.split_to(at)
}

/// `BufMut::put_u32` on a `BytesMut`: appends the number in big-endian order.
#[verifier::external_body]
fn buffer_put_u32(b: &mut bytes::BytesMut, n: u32)
    requires
        buffered(*old(b)).len() + HEADER_LEN <= isize::MAX,
    ensures
        buffered(*final(b)) == buffered(*old(b)) + be32(n),
{
    b.put_u32(n)
}

/// `BytesMut::extend_from_slice`: appends the slice.
#[verifier::external_body]
fn buffer_extend(b: &mut bytes::BytesMut, tail: &[u8])
    requires
        buffered(*old(b)).len() + tail@.len() <= isize::MAX,
    ensures
        buffered(*final(b)) == buffered(*old(b)) + tail@,
{
    b.extend_from_slice(tail)
}

/// The four bytes of a number, most significant first.
pub open spec fn be32(n: u32) -> Seq<u8> {
    seq![
        (n / 0x100_0000) as u8,
        (n / 0x1_0000 % 0x100) as u8,
        (n / 0x100 % 0x100) as u8,
        (n % 0x100) as u8,
    ]
}

/// The number that the first four bytes spell, most significant first.
pub open spec fn from_be32(s: Seq<u8>) -> nat
    recommends
        s.len() >= 4,
{
    (s[0] * 0x100_0000 + s[1] * 0x1_0000 + s[2] * 0x100 + s[3]) as nat
}

/// A payload as it travels: its length, then the payload itself.
pub open spec fn frame(payload: Seq<u8>) -> Seq<u8> {
    be32(payload.len() as u32) + payload
}

/// What a decoder finds at the front of a buffer.
#[verifier::ext_equal]
pub enum DecodeStep {
    /// The header or the payload is not all there.
    NeedMore,
    /// The header announces more than the limit.
    TooLarge { announced: nat },
    /// A whole frame, and what follows it.
    Frame { payload: Seq<u8>, rest: Seq<u8> },
}

/// Reads one frame off the front of `bytes`, with payloads limited to `limit`.
pub open spec fn decode_step(limit: nat, bytes: Seq<u8>) -> DecodeStep {
    if bytes.len() < HEADER_LEN {
        DecodeStep::NeedMore
    } else {
        let n = from_be32(bytes);
        if n > limit {
            DecodeStep::TooLarge { announced: n }
        } else if bytes.len() < HEADER_LEN + n {
            DecodeStep::NeedMore
        } else {
            DecodeStep::Frame {
                payload: bytes.subrange(HEADER_LEN as int, HEADER_LEN + n),
                rest: bytes.skip(HEADER_LEN + n),
            }
        }
    }
}

/// How many bytes a decoder makes room for: those of the frame that has begun to
/// arrive and is within the limit, none where it does not wait for one.
pub open spec fn awaited(limit: nat, bytes: Seq<u8>) -> nat {
    if bytes.len() >= HEADER_LEN && decode_step(limit, bytes) is NeedMore {
        HEADER_LEN as nat + from_be32(bytes)
    } else {
        0
    }
}

/// What an encoder appends for a payload, with payloads limited to `limit`;
/// nothing for one that is refused.
pub open spec fn encode_step(limit: nat, payload: Seq<u8>) -> Option<Seq<u8>> {
    if payload.len() <= limit {
        Some(frame(payload))
    } else {
        None
    }
}

/// The text that reports a payload over the limit.
pub open spec fn oversize_text(len: nat, limit: nat) -> Seq<char> {
    "frame payload "@ + text::decimal(len) + " bytes exceeds limit of "@ + text::decimal(limit)
        + " bytes"@
}

/// Why a frame was refused.
#[derive(Debug)]
pub enum CodecError {
    /// The payload is over the codec's limit; the text says by how much.
    InvalidData(String),
}

impl CodecError {
    /// The text of the error.
    pub open spec fn text(self) -> Seq<char> {
        match self {
            CodecError::InvalidData(s) => s@,
        }
    }

    /// The text of the error.
    pub fn message(&self) -> (r: &str)
        ensures
            r@ == self.text(),
    {
        match self {
            CodecError::InvalidData(s) => s.as_str(),
        }
    }
}

/// Frames messages with a four-byte big-endian length.
#[derive(Debug, Clone)]
pub struct LengthPrefixCodec {
    max_size: usize,
}

impl LengthPrefixCodec {
    /// The largest payload this codec lets through.
    pub closed spec fn limit(&self) -> nat {
        self.max_size as nat
    }

    /// A codec with the default limit.
    pub fn new() -> (r: Self)
        ensures
            r.limit() == MAX_MESSAGE_SIZE,
    {
        LengthPrefixCodec { max_size: MAX_MESSAGE_SIZE }
    }

    /// A codec with a limit of its own.
    pub fn with_max_size(max_size: usize) -> (r: Self)
        ensures
            r.limit() == max_size,
    {
        LengthPrefixCodec { max_size }
    }

    /// Takes one frame off the front of `src`.
    ///
    /// Nothing leaves the buffer unless a whole frame is there. The bound says
    /// that a frame that is waited for can be held in memory at all; where a
    /// `usize` has 64 bits every frame meets it.
    pub fn decode(&mut self, src: &mut bytes::BytesMut) -> (r: Result<
        Option<bytes::BytesMut>,
        CodecError,
    >)
        requires
            awaited(old(self).limit(), buffered(*old(src))) <= isize::MAX,
        ensures
            r is Err <==> buffered(*old(src)).len() >= HEADER_LEN && from_be32(buffered(*old(src)))
                > old(self).limit(),
            final(self).limit() == old(self).limit(),
            match decode_step(old(self).limit(), buffered(*old(src))) {
                DecodeStep::NeedMore => r == Ok::<Option<bytes::BytesMut>, CodecError>(None)
                    && buffered(*final(src)) == buffered(*old(src)),
                DecodeStep::TooLarge { announced } => r is Err && r->Err_0.text() == oversize_text(
                    announced,
                    old(self).limit(),
                ) && buffered(*final(src)) == buffered(*old(src)),
                DecodeStep::Frame { payload, rest } => r is Ok && r->Ok_0 is Some && buffered(
                    r->Ok_0->0,
                ) == payload && buffered(*final(src)) == rest,
            },
    {
        let have: usize;
        let announced: u32;
        {
            let bytes = buffer_slice(src);
            have = bytes.len();
            if have < HEADER_LEN {
                return Ok(None);
            }
            announced = bytes[0] as u32 * 0x100_0000 + bytes[1] as u32 * 0x1_0000 + bytes[2] as u32
                * 0x100 + bytes[3] as u32;
        }
        let payload_len: usize = announced as usize;
        if payload_len > self.max_size {
            return Err(oversize(payload_len, self.max_size));
        }
        let arrived: usize = have - HEADER_LEN;
        if arrived < payload_len {
            buffer_reserve(src, payload_len - arrived);
            return Ok(None);
        }
        let ghost before = buffered(*src);
        buffer_advance(src, HEADER_LEN);
        let payload = buffer_split_to(src, payload_len);
        proof {
            assert(buffered(payload) =~= before.subrange(
                HEADER_LEN as int,
                HEADER_LEN + payload_len as int,
            ));
            assert(buffered(*src) =~= before.skip(HEADER_LEN + payload_len as int));
        }
        Ok(Some(payload))
    }

    /// Appends `data` to `dst` as one frame.
    ///
    /// The length is written in four bytes, so of a payload of 4 GiB or more
    /// only the low 32 bits of the length travel.
    pub fn encode(&mut self, data: bytes::Bytes, dst: &mut bytes::BytesMut) -> (r: Result<
        (),
        CodecError,
    >)
        requires
            encode_step(old(self).limit(), payload_of(data)) is Some ==> buffered(*old(dst)).len()
                + HEADER_LEN + payload_of(data).len() <= isize::MAX,
        ensures
            final(self).limit() == old(self).limit(),
            r is Err <==> payload_of(data).len() > old(self).limit(),
            match encode_step(old(self).limit(), payload_of(data)) {
                Some(bytes) => r is Ok && buffered(*final(dst)) == buffered(*old(dst)) + bytes,
                None => r is Err && r->Err_0.text() == oversize_text(
                    payload_of(data).len(),
                    old(self).limit(),
                ) && buffered(*final(dst)) == buffered(*old(dst)),
            },
    {
        let bytes = payload_slice(&data);
        let len: usize = bytes.len();
        if len > self.max_size {
            return Err(oversize(len, self.max_size));
        }
        let ghost before = buffered(*dst);
        buffer_reserve(dst, HEADER_LEN + len);
        buffer_put_u32(dst, len as u32);
        buffer_extend(dst, bytes);
        proof {
            assert(buffered(*dst) =~= before + frame(bytes@));
        }
        Ok(())
    }
}

impl Default for LengthPrefixCodec {
    fn default() -> (r: Self)
        ensures
            r.limit() == MAX_MESSAGE_SIZE,
    {
        LengthPrefixCodec::new()
    }
}

/// The error for a payload of `len` bytes under a limit of `max_size`.
fn oversize(len: usize, max_size: usize) -> (r: CodecError)
    ensures
        r.text() == oversize_text(len as nat, max_size as nat),
{
    let mut s: String = "frame payload ".to_owned();
    text::push_u64(&mut s, len as u64);
    s.append(" bytes exceeds limit of ");
    text::push_u64(&mut s, max_size as u64);
    s.append(" bytes");
    CodecError::InvalidData(s)
}

/// The header of a frame spells the length of its payload.
pub proof fn law_header_roundtrip(n: u32)
    ensures
        be32(n).len() == HEADER_LEN,
        from_be32(be32(n)) == n,
{
    assert(n == n / 0x100_0000 * 0x100_0000 + n / 0x1_0000 % 0x100 * 0x1_0000 + n / 0x100 % 0x100
        * 0x100 + n % 0x100) by (bit_vector);
    assert(n / 0x100_0000 < 0x100) by (bit_vector);
}

/// The limit holds in both directions and is itself within bounds: a decoder
/// refuses a frame exactly when its header announces more than the limit, and an
/// encoder refuses a payload exactly when it is longer.
pub proof fn law_limit_is_inclusive(limit: nat, bytes: Seq<u8>, payload: Seq<u8>)
    ensures
        decode_step(limit, bytes) is TooLarge <==> bytes.len() >= HEADER_LEN && from_be32(bytes)
            > limit,
        encode_step(limit, payload) is None <==> payload.len() > limit,
        payload.len() <= u32::MAX ==> (decode_step(limit, frame(payload)) is TooLarge
            <==> encode_step(limit, payload) is None),
{
    if payload.len() <= u32::MAX {
        law_header_roundtrip(payload.len() as u32);
        let all = frame(payload);
        assert(forall|i: int| 0 <= i < 4 ==> all[i] == be32(payload.len() as u32)[i]);
        assert(from_be32(all) == payload.len());
    }
}

/// What was encoded is what is decoded: a frame at the front of a buffer comes
/// out as the payload that went in, and everything behind it stays.
///
/// The payload is within the limit and its length fits the four bytes of the
/// header.
pub proof fn law_decode_inverts_encode(limit: nat, payload: Seq<u8>, rest: Seq<u8>)
    requires
        payload.len() <= limit,
        payload.len() <= u32::MAX,
    ensures
        decode_step(limit, frame(payload) + rest) == (DecodeStep::Frame { payload, rest }),
{
    let all = frame(payload) + rest;
    law_header_roundtrip(payload.len() as u32);
    assert(forall|i: int| 0 <= i < 4 ==> all[i] == be32(payload.len() as u32)[i]);
    assert(from_be32(all) == payload.len());
    assert(all.subrange(4, 4 + payload.len() as int) =~= payload);
    assert(all.skip(4 + payload.len() as int) =~= rest);
}

/// A frame that has arrived in part is waited for: on every proper prefix of a
/// frame the decoder asks for more.
pub proof fn law_partial_frame_waits(limit: nat, payload: Seq<u8>, cut: int)
    requires
        payload.len() <= limit,
        payload.len() <= u32::MAX,
        0 <= cut < frame(payload).len(),
    ensures
        decode_step(limit, frame(payload).take(cut)) == DecodeStep::NeedMore,
{
    let part = frame(payload).take(cut);
    law_header_roundtrip(payload.len() as u32);
    if cut >= 4 {
        assert(forall|i: int| 0 <= i < 4 ==> part[i] == be32(payload.len() as u32)[i]);
        assert(from_be32(part) == payload.len());
    }
}

/// A whole frame is read the same however much more has arrived behind it, and
/// an announced length over the limit is refused however much has arrived.
pub proof fn law_later_bytes_change_nothing(limit: nat, bytes: Seq<u8>, more: Seq<u8>)
    ensures
        match decode_step(limit, bytes) {
            DecodeStep::NeedMore => true,
            DecodeStep::TooLarge { announced } => decode_step(limit, bytes + more) == (
            DecodeStep::TooLarge { announced }),
            DecodeStep::Frame { payload, rest } => decode_step(limit, bytes + more) == (
            DecodeStep::Frame { payload, rest: rest + more }),
        },
{
    let all = bytes + more;
    if bytes.len() >= 4 {
        assert(forall|i: int| 0 <= i < 4 ==> all[i] == bytes[i]);
        let n = from_be32(bytes);
        assert(from_be32(all) == n);
        if n <= limit && bytes.len() >= 4 + n {
            assert(all.subrange(4, 4 + n as int) =~= bytes.subrange(4, 4 + n as int));
            assert(all.skip(4 + n as int) =~= bytes.skip(4 + n as int) + more);
        }
    }
}

/// Payloads one after the other, each as a frame.
pub open spec fn frames(payloads: Seq<Seq<u8>>) -> Seq<u8>
    decreases payloads.len(),
{
    if payloads.len() == 0 {
        Seq::empty()
    } else {
        frame(payloads[0]) + frames(payloads.skip(1))
    }
}

/// The payloads that a decoder takes off the front of a buffer, until it asks
/// for more bytes or refuses a frame.
pub open spec fn decode_all(limit: nat, bytes: Seq<u8>) -> Seq<Seq<u8>>
    decreases bytes.len(),
{
    match decode_step(limit, bytes) {
        DecodeStep::Frame { payload, rest } => seq![payload] + decode_all(limit, rest),
        _ => Seq::empty(),
    }
}

/// Frames written one after the other come out in the order in which they went
/// in, none lost and none invented.
pub proof fn law_frames_keep_their_order(limit: nat, payloads: Seq<Seq<u8>>)
    requires
        forall|i: int| 0 <= i < payloads.len() ==> (#[trigger] payloads[i]).len() <= limit,
        forall|i: int| 0 <= i < payloads.len() ==> (#[trigger] payloads[i]).len() <= u32::MAX,
    ensures
        decode_all(limit, frames(payloads)) == payloads,
    decreases payloads.len(),
{
    if payloads.len() > 0 {
        let rest = payloads.skip(1);
        assert(forall|i: int| 0 <= i < rest.len() ==> rest[i] == payloads[i + 1]);
        law_frames_keep_their_order(limit, rest);
        law_decode_inverts_encode(limit, payloads[0], frames(rest));
        assert(seq![payloads[0]] + rest =~= payloads);
    } else {
        assert(decode_all(limit, frames(payloads)) =~= payloads);
    }
}

/// The header is the length of the payload in four bytes, the most significant
/// first, and the payload follows it; a frame is as long as both.
pub proof fn law_header_is_big_endian(payload: Seq<u8>, bytes: Seq<u8>)
    requires
        payload.len() <= u32::MAX,
        bytes.len() >= 4,
    ensures
        frame(payload).len() == 4 + payload.len(),
        frame(payload).skip(4) == payload,
        256 * (256 * (256 * frame(payload)[0] + frame(payload)[1]) + frame(payload)[2])
            + frame(payload)[3] == payload.len(),
        from_be32(bytes) == 256 * (256 * (256 * bytes[0] + bytes[1]) + bytes[2]) + bytes[3],
{
    law_header_roundtrip(payload.len() as u32);
    let all = frame(payload);
    assert(forall|i: int| 0 <= i < 4 ==> all[i] == be32(payload.len() as u32)[i]);
    assert(all.skip(4) =~= payload);
}

/// What a decoder finds: it waits where the header or the payload is not all
/// there, refuses what is announced to be over the limit, and otherwise takes the
/// announced number of bytes behind the header and leaves the rest.
pub proof fn law_decoder_takes_what_is_announced(limit: nat, bytes: Seq<u8>)
    ensures
        ({
            let r = decode_step(limit, bytes);
            let n = from_be32(bytes);
            &&& r is NeedMore <==> bytes.len() < 4 || (n <= limit && bytes.len() < 4 + n)
            &&& r is TooLarge <==> bytes.len() >= 4 && n > limit
            &&& r is TooLarge ==> r->announced == n
            &&& r is Frame <==> n <= limit && bytes.len() >= 4 + n
            &&& r is Frame ==> r->payload.len() == n && bytes.take(4) + r->payload + r->rest
                == bytes
        }),
{
    let n = from_be32(bytes);
    if n <= limit && bytes.len() >= 4 + n {
        assert(bytes.take(4) + bytes.subrange(4, 4 + n as int) + bytes.skip(4 + n as int)
            =~= bytes);
    }
}

/// A decoder makes room for the whole frame that it waits for, and for nothing
/// else.
pub proof fn law_room_is_made_for_the_frame(limit: nat, bytes: Seq<u8>)
    ensures
        ({
            let n = from_be32(bytes);
            awaited(limit, bytes) == (if bytes.len() >= 4 && n <= limit && bytes.len() < 4 + n {
                4 + n
            } else {
                0
            })
        }),
{
}

/// The words for a payload over the limit say how long it is and what the limit
/// is.
pub proof fn law_oversize_is_told(len: nat, limit: nat)
    ensures
        oversize_text(len, limit) == "frame payload "@ + text::decimal(len)
            + " bytes exceeds limit of "@ + text::decimal(limit) + " bytes"@,
        MAX_MESSAGE_SIZE == 4 * 1024 * 1024,
{
}

} // verus!
