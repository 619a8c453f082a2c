//! Wire codec for the agent's fixed binary frame.
//!
//! A frame is laid out as
//! `[8 bytes: payload length, unsigned 64-bit little-endian]`
//! `[8 bytes: generation id, signed 64-bit little-endian]`
//! `[N bytes: payload, N = payload length]`.
//!
//! Encoding never fails for well-formed inputs; decoding reports a
//! [`FrameError`] when the header is short, the payload length does not
//! match the data, or a request payload is not valid UTF-8.

use vstd::prelude::*;

verus! {

use vstd::bytes::{spec_u64_to_le_bytes, spec_u64_from_le_bytes};
use vstd::bytes::{u64_to_le_bytes, u64_from_le_bytes};
use vstd::bytes::lemma_auto_spec_u64_to_from_le_bytes;
use vstd::utf8::{valid_utf8, encode_utf8};
use vstd::slice::{slice_subrange, slice_to_vec};
use bytes::BytesMut;

use crate::GenId;

/// Why a frame could not be decoded.
#[derive(Debug, Clone, Copy, PartialEq, Eq, Structural)]
pub enum FrameError {
    /// Fewer than the 16 header bytes were available.
    ShortHeader,
    /// The payload length field does not match the bytes that follow the
    /// header.
    PayloadLengthMismatch,
    /// The payload length field cannot be represented as a platform size.
    OversizedLength,
    /// The payload is not valid UTF-8 text.
    PayloadNotUtf8,
}

/// The unsigned 64-bit value whose two's-complement bit pattern is `g`.
pub open spec fn genid_to_u64(g: GenId) -> u64 {
    if g >= 0 {
        g as u64
    } else {
        (g + 0x1_0000_0000_0000_0000) as u64
    }
}

/// Inverse of [`genid_to_u64`]: reads a two's-complement 64-bit pattern.
pub open spec fn genid_from_u64(x: u64) -> GenId {
    if x <= i64::MAX as u64 {
        x as i64
    } else {
        (x - 0x1_0000_0000_0000_0000) as i64
    }
}

/// The two conversions between a generation id and its wire bit pattern
/// invert each other.
pub proof fn lemma_genid_u64_round_trip(g: GenId)
    ensures
        genid_from_u64(genid_to_u64(g)) == g,
{
}

/// The bytes of one whole frame carrying `genid` and `payload`.
pub open spec fn spec_frame(genid: GenId, payload: Seq<u8>) -> Seq<u8>
    recommends
        payload.len() <= u64::MAX,
{
    spec_u64_to_le_bytes(payload.len() as u64) + spec_u64_to_le_bytes(genid_to_u64(genid))
        + payload
}

/// The payload length field of a 16-byte frame header.
pub open spec fn spec_header_len(hdr: Seq<u8>) -> u64
    recommends
        hdr.len() == 16,
{
    spec_u64_from_le_bytes(hdr.subrange(0, 8))
}

/// The generation id field of a 16-byte frame header.
pub open spec fn spec_header_genid(hdr: Seq<u8>) -> GenId
    recommends
        hdr.len() == 16,
{
    genid_from_u64(spec_u64_from_le_bytes(hdr.subrange(8, 16)))
}

/// What decoding a buffer holding exactly one frame yields.
pub open spec fn spec_decode_frame(data: Seq<u8>) -> Result<(GenId, Seq<u8>), FrameError> {
    if data.len() < 16 {
        Err(FrameError::ShortHeader)
    } else if spec_header_len(data.subrange(0, 16)) != data.len() - 16 {
        Err(FrameError::PayloadLengthMismatch)
    } else {
        Ok((spec_header_genid(data.subrange(0, 16)), data.subrange(16, data.len() as int)))
    }
}

/// Converts a generation id to the unsigned value sent on the wire.
pub fn genid_to_wire(g: GenId) -> (x: u64)
    ensures
        x == genid_to_u64(g),
{
    if g >= 0 {
        g as u64
    } else {
        ((g - i64::MIN) as u64) + 0x8000_0000_0000_0000u64
    }
}

/// Converts the unsigned wire value back to a generation id.
pub fn genid_from_wire(x: u64) -> (g: GenId)
    ensures
        g == genid_from_u64(x),
{
    if x <= 0x7fff_ffff_ffff_ffffu64 {
        x as i64
    } else {
        ((x - 0x8000_0000_0000_0000u64) as i64) + i64::MIN
    }
}

/// The contents of a `bytes::BytesMut` buffer, as a byte sequence.
pub uninterp spec fn bytes_view(b: BytesMut) -> Seq<u8>;

#[verifier::external_type_specification]
#[verifier::external_body]
pub struct ExBytesMut(BytesMut);

/// Relies on `bytes::BytesMut::with_capacity`: the new buffer is empty.
#[verifier::external_body]
fn bytes_with_capacity(capacity: usize) -> (r: BytesMut)
    ensures
        bytes_view(r) == Seq::<u8>::empty(),
{
    BytesMut::with_capacity(capacity)
}

/// Relies on `bytes::BytesMut::extend_from_slice`: appends the slice's
/// bytes at the end of the buffer.
#[verifier::external_body]
fn bytes_extend_from_slice(b: &mut BytesMut, s: &[u8])
    ensures
        bytes_view(*final(b)) == bytes_view(*old(b)) + s@,
{
    b.extend_from_slice(s)
}

/// Assembles the wire frame `|length|genid|payload|` for one response or
/// request.
pub fn encode_frame(genid: GenId, payload: &[u8]) -> (r: BytesMut)
    requires
        payload@.len() + 16 <= usize::MAX,
    ensures
        bytes_view(r) == spec_frame(genid, payload@),
{
    let mut wire_msg = bytes_with_capacity(payload.len() + 16);
    let length: u64 = payload.len() as u64;
    let len_bytes = u64_to_le_bytes(length);
    let genid_bytes = u64_to_le_bytes(genid_to_wire(genid));
    bytes_extend_from_slice(&mut wire_msg, len_bytes.as_slice());
    bytes_extend_from_slice(&mut wire_msg, genid_bytes.as_slice());
    bytes_extend_from_slice(&mut wire_msg, payload);
    proof {
        assert(bytes_view(wire_msg) =~= spec_frame(genid, payload@));
    }
    wire_msg
}

/// Reads the two fixed header fields out of the 16 header bytes.
pub fn decode_header(hdr: &[u8]) -> (r: Result<(u64, GenId), FrameError>)
    ensures
        hdr@.len() == 16 ==> (r matches Ok(p) && p.0 == spec_header_len(hdr@) && p.1
            == spec_header_genid(hdr@)),
        hdr@.len() != 16 ==> r == Err::<(u64, GenId), FrameError>(FrameError::ShortHeader),
{
    if hdr.len() != 16 {
        return Err(FrameError::ShortHeader);
    }
    let len_field = u64_from_le_bytes(slice_subrange(hdr, 0, 8));
    let genid_field = u64_from_le_bytes(slice_subrange(hdr, 8, 16));
    Ok((len_field, genid_from_wire(genid_field)))
}

/// Checks that a payload length fits a platform size.
pub fn payload_len_to_usize(len: u64) -> (r: Option<usize>)
    ensures
        len <= usize::MAX ==> r == Some(len as usize),
        len > usize::MAX ==> r is None,
{
    if len <= usize::MAX as u64 {
        Some(len as usize)
    } else {
        None
    }
}

/// Decodes a buffer that must hold exactly one frame.
pub fn decode_frame(data: &[u8]) -> (r: Result<(GenId, Vec<u8>), FrameError>)
    ensures
        match r {
            Ok(p) => spec_decode_frame(data@) matches Ok(sp) && p.0 == sp.0 && p.1@ == sp.1,
            Err(e) => spec_decode_frame(data@) == Err::<(GenId, Seq<u8>), FrameError>(e),
        },
{
    if data.len() < 16 {
        return Err(FrameError::ShortHeader);
    }
    let hdr = slice_subrange(data, 0, 16);
    let len_field = u64_from_le_bytes(slice_subrange(hdr, 0, 8));
    let genid_field = u64_from_le_bytes(slice_subrange(hdr, 8, 16));
    proof {
        assert(hdr@.subrange(0, 8) =~= data@.subrange(0, 16).subrange(0, 8));
        assert(hdr@.subrange(8, 16) =~= data@.subrange(0, 16).subrange(8, 16));
    }
    if len_field != (data.len() - 16) as u64 {
        return Err(FrameError::PayloadLengthMismatch);
    }
    let payload = slice_to_vec(slice_subrange(data, 16, data.len()));
    Ok((genid_from_wire(genid_field), payload))
}

/// Relies on `String::from_utf8`: succeeds exactly on valid UTF-8 input,
/// and the returned string's UTF-8 encoding is the input bytes.
#[verifier::external_body]
fn string_from_utf8(v: Vec<u8>) -> (r: Option<String>)
    ensures
        r is Some <==> valid_utf8(v@),
        r matches Some(s) ==> encode_utf8(s@) == v@,
{
    String::from_utf8(v).ok()
}

/// Turns a decoded payload into the request text, rejecting payloads that
/// are not valid UTF-8.
pub fn decode_request_text(payload: Vec<u8>) -> (r: Result<String, FrameError>)
    ensures
        r is Ok <==> valid_utf8(payload@),
        r matches Ok(s) ==> encode_utf8(s@) == payload@,
        r is Err ==> r == Err::<String, FrameError>(FrameError::PayloadNotUtf8),
{
    match string_from_utf8(payload) {
        Some(s) => Ok(s),
        None => Err(FrameError::PayloadNotUtf8),
    }
}

/// Decoding inverts encoding: a frame assembled from any generation id and
/// payload decodes back to exactly that generation id and payload.
pub proof fn lemma_frame_round_trip(genid: GenId, payload: Seq<u8>)
    requires
        payload.len() <= u64::MAX,
    ensures
        spec_decode_frame(spec_frame(genid, payload)) matches Ok(p) && p.0 == genid && p.1
            == payload,
{
    lemma_auto_spec_u64_to_from_le_bytes();
    lemma_genid_u64_round_trip(genid);
    let f = spec_frame(genid, payload);
    assert(spec_u64_to_le_bytes(payload.len() as u64).len() == 8);
    assert(spec_u64_to_le_bytes(genid_to_u64(genid)).len() == 8);
    assert(f.len() == 16 + payload.len());
    let hdr = f.subrange(0, 16);
    assert(hdr.subrange(0, 8) =~= spec_u64_to_le_bytes(payload.len() as u64));
    assert(hdr.subrange(8, 16) =~= spec_u64_to_le_bytes(genid_to_u64(genid)));
    assert(spec_header_len(hdr) == payload.len() as u64);
    assert(spec_header_genid(hdr) == genid);
    assert(f.subrange(16, f.len() as int) =~= payload);
}

} // verus!
