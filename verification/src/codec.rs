//! The binary wire format and its encode/decode operations.
//!
//! Layout of a canonical envelope, in order:
//!   * the `data` bytes, verbatim;
//!   * zero padding up to the next 4-byte boundary;
//!   * a 12-byte trailer: a 32-bit little-endian back-offset (the
//!     two's-complement encoding of minus the distance from the trailer back
//!     to the start of the data), the 32-bit little-endian data length, the
//!     version byte, the tag byte (1 for a request, 2 for a response), and
//!     two zero pad bytes closing the trailer on a 4-byte boundary.
//!
//! Decoding accepts exactly the canonical encodings; every other byte
//! sequence degrades to the sentinel payload (version 0, `HttpResponse`,
//! the input passed through unchanged) rather than an error.

use crate::envelope::{ConversionError, MessageType, Payload};
use vstd::prelude::*;

verus! {

/// Largest `data` length the format can carry: the length must fit the
/// 32-bit length field and the padded data region must stay addressable by
/// the 32-bit back-offset.
pub const MAX_DATA_LEN: usize = 0x7FFF_FFF8;

/// Number of zero bytes that pad a region of `n` bytes to a 4-byte boundary.
pub open spec fn pad_len(n: nat) -> nat {
    if n % 4 == 0 {
        0
    } else {
        (4 - n % 4) as nat
    }
}

/// `n` rounded up to the next 4-byte boundary.
pub open spec fn align4(n: nat) -> nat {
    n + pad_len(n)
}

/// The single wire byte standing for a tag. The values 1 and 2 are the wire
/// contract; 0 is reserved and never produced.
pub open spec fn tag_byte(t: MessageType) -> u8 {
    match t {
        MessageType::HttpRequest => 1u8,
        MessageType::HttpResponse => 2u8,
    }
}

/// The four little-endian bytes of a 32-bit value.
pub open spec fn le32_bytes(v: u32) -> Seq<u8> {
    seq![
        (v & 0xff) as u8,
        ((v >> 8) & 0xff) as u8,
        ((v >> 16) & 0xff) as u8,
        ((v >> 24) & 0xff) as u8,
    ]
}

/// The 32-bit value read from four little-endian bytes.
pub open spec fn le32_val(b0: u8, b1: u8, b2: u8, b3: u8) -> u32 {
    (b0 as u32) | ((b1 as u32) << 8) | ((b2 as u32) << 16) | ((b3 as u32) << 24)
}

/// The back-offset field of a trailer that sits `s` bytes after the start
/// of the data: the two's-complement encoding of `-s`.
pub open spec fn back_offset(s: nat) -> u32 {
    if s == 0 {
        0u32
    } else {
        (0x1_0000_0000 - s) as u32
    }
}

/// A run of `n` zero bytes.
pub open spec fn zeros(n: nat) -> Seq<u8> {
    Seq::new(n, |i: int| 0u8)
}

/// The canonical wire bytes of an envelope with the given fields.
pub open spec fn encoded_bytes(version: u8, t: MessageType, data: Seq<u8>) -> Seq<u8> {
    data + zeros(pad_len(data.len())) + le32_bytes(back_offset(align4(data.len())))
        + le32_bytes(data.len() as u32) + seq![version, tag_byte(t), 0u8, 0u8]
}

/// The back-offset stored in the trailer of `b` (needs `b.len() >= 12`).
pub open spec fn stored_offset(b: Seq<u8>) -> u32 {
    let s = b.len() - 12;
    le32_val(b[s], b[s + 1], b[s + 2], b[s + 3])
}

/// The data length stored in the trailer of `b` (needs `b.len() >= 12`).
pub open spec fn stored_len(b: Seq<u8>) -> u32 {
    let s = b.len() - 12;
    le32_val(b[s + 4], b[s + 5], b[s + 6], b[s + 7])
}

/// Whether `b` is a canonical encoding of some envelope: long enough to
/// hold the trailer, 4-byte aligned, with a back-offset pointing at the
/// start of the buffer, a stored length matching the padded data region,
/// a defined tag byte, and all padding zero.
pub open spec fn is_valid_envelope(b: Seq<u8>) -> bool {
    &&& b.len() >= 12
    &&& b.len() % 4 == 0
    &&& b.len() - 12 <= MAX_DATA_LEN
    &&& stored_offset(b) == back_offset((b.len() - 12) as nat)
    &&& stored_len(b) <= b.len() - 12
    &&& b.len() - 12 <= stored_len(b) + 3
    &&& (b[b.len() - 3] == 1 || b[b.len() - 3] == 2)
    &&& b[b.len() - 2] == 0
    &&& b[b.len() - 1] == 0
    &&& forall|i: int| stored_len(b) <= i < b.len() - 12 ==> b[i] == 0
}

/// The version byte of a valid envelope.
pub open spec fn parsed_version(b: Seq<u8>) -> u8 {
    b[b.len() - 4]
}

/// The message type named by the tag byte of a valid envelope.
pub open spec fn parsed_type(b: Seq<u8>) -> MessageType {
    if b[b.len() - 3] == 1 {
        MessageType::HttpRequest
    } else {
        MessageType::HttpResponse
    }
}

/// The data bytes of a valid envelope.
pub open spec fn parsed_data(b: Seq<u8>) -> Seq<u8> {
    b.subrange(0, stored_len(b) as int)
}

/// What decoding `b` must return: the encoded fields when `b` is a valid
/// envelope, and otherwise the sentinel payload — version 0, a response
/// tag, and `b` itself passed through unchanged.
pub open spec fn decodes_to(b: Seq<u8>, p: Payload) -> bool {
    if is_valid_envelope(b) {
        &&& p.version == parsed_version(b)
        &&& p.request_type == parsed_type(b)
        &&& p.data@ == parsed_data(b)
    } else {
        &&& p.version == 0
        &&& p.request_type == MessageType::HttpResponse
        &&& p.data@ == b
    }
}

/// Appends the four little-endian bytes of `v` to `out`.
fn push_le32(out: &mut Vec<u8>, v: u32)
    ensures
        final(out)@ == old(out)@ + le32_bytes(v),
{
    proof {
        assert((v & 0xff) < 256 && ((v >> 8) & 0xff) < 256 && ((v >> 16) & 0xff) < 256 && ((v
            >> 24) & 0xff) < 256) by (bit_vector);
    }
    out.push((v & 0xff) as u8);
    out.push(((v >> 8) & 0xff) as u8);
    out.push(((v >> 16) & 0xff) as u8);
    out.push(((v >> 24) & 0xff) as u8);
    proof {
        assert(out@ =~= old(out)@ + le32_bytes(v));
    }
}

/// The exact two's-complement back-offset for a trailer `s` bytes after
/// the start of the data.
fn back_offset_exec(s: usize) -> (r: u32)
    requires
        s <= MAX_DATA_LEN,
    ensures
        r == back_offset(s as nat),
{
    if s == 0 {
        0
    } else {
        0xFFFF_FFFFu32 - (s as u32) + 1
    }
}

/// Encodes `payload` into its canonical wire bytes.
///
/// Succeeds exactly when the data fits the 32-bit length and offset fields
/// of the format; the bytes produced are a pure function of the payload's
/// fields. A payload too large for the format is the one failure, reported
/// as [`ConversionError::Serialize`].
pub fn encode(payload: &Payload) -> (r: Result<Vec<u8>, ConversionError>)
    ensures
        r is Ok <==> payload.data@.len() <= MAX_DATA_LEN,
        r is Ok ==> r->Ok_0@ == encoded_bytes(payload.version, payload.request_type, payload.data@),
        r is Err ==> r->Err_0 is Serialize,
{
    let n = payload.data.len();
    if n > MAX_DATA_LEN {
        return Err(
            ConversionError::Serialize(
                String::from_str("payload data exceeds the 32-bit length field of the wire format"),
            ),
        );
    }
    let pad = (4 - n % 4) % 4;
    let s = n + pad;
    proof {
        assert(pad == pad_len(n as nat));
        assert(s == align4(n as nat));
        assert(s <= MAX_DATA_LEN);
    }
    let mut out: Vec<u8> = Vec::new();
    let mut i: usize = 0;
    while i < n
        invariant
            i <= n,
            n == payload.data@.len(),
            out@ == payload.data@.subrange(0, i as int),
        decreases n - i,
    {
        out.push(payload.data[i]);
        i = i + 1;
        proof {
            assert(out@ =~= payload.data@.subrange(0, i as int));
        }
    }
    proof {
        assert(out@ =~= payload.data@);
    }
    let mut j: usize = 0;
    while j < pad
        invariant
            j <= pad,
            out@ == payload.data@ + zeros(j as nat),
        decreases pad - j,
    {
        out.push(0u8);
        j = j + 1;
        proof {
            assert(out@ =~= payload.data@ + zeros(j as nat));
        }
    }
    push_le32(&mut out, back_offset_exec(s));
    push_le32(&mut out, n as u32);
    out.push(payload.version);
    match payload.request_type {
        MessageType::HttpRequest => out.push(1u8),
        MessageType::HttpResponse => out.push(2u8),
    }
    out.push(0u8);
    out.push(0u8);
    proof {
        assert(out@ =~= encoded_bytes(payload.version, payload.request_type, payload.data@));
    }
    Ok(out)
}

/// The sentinel payload standing for input that is not a valid envelope.
fn fallback(bytes: Vec<u8>) -> (p: Payload)
    ensures
        p.version == 0,
        p.request_type == MessageType::HttpResponse,
        p.data@ == bytes@,
{
    Payload { version: 0, request_type: MessageType::HttpResponse, data: bytes }
}

/// Reads the little-endian 32-bit value at position `i` of `b`.
fn read_le32(b: &Vec<u8>, i: usize) -> (v: u32)
    requires
        i + 4 <= b@.len(),
        b@.len() <= usize::MAX,
    ensures
        v == le32_val(b@[i as int], b@[i + 1], b@[i + 2], b@[i + 3]),
{
    (b[i] as u32) | ((b[i + 1] as u32) << 8) | ((b[i + 2] as u32) << 16) | ((b[i + 3] as u32)
        << 24)
}

/// Decodes wire bytes into a payload.
///
/// A canonical envelope yields exactly the payload it encodes. Any other
/// byte sequence — wrong layout, bad tag ordinal, truncated trailer —
/// degrades to the sentinel payload (version 0, `HttpResponse`, the input
/// passed through unchanged) instead of raising an error, so the call
/// always returns `Ok`.
pub fn decode(bytes: Vec<u8>) -> (r: Result<Payload, ConversionError>)
    ensures
        r is Ok,
        decodes_to(bytes@, r->Ok_0),
{
    let l = bytes.len();
    if l < 12 || l % 4 != 0 || l - 12 > MAX_DATA_LEN {
        return Ok(fallback(bytes));
    }
    let s = l - 12;
    if read_le32(&bytes, s) != back_offset_exec(s) {
        return Ok(fallback(bytes));
    }
    let n32 = read_le32(&bytes, s + 4);
    let n = n32 as usize;
    if n > s || s - n > 3 {
        return Ok(fallback(bytes));
    }
    let tag = bytes[l - 3];
    if tag != 1 && tag != 2 {
        return Ok(fallback(bytes));
    }
    if bytes[l - 2] != 0 || bytes[l - 1] != 0 {
        return Ok(fallback(bytes));
    }
    let mut i: usize = n;
    while i < s
        invariant
            n <= i <= s,
            s + 12 == bytes@.len(),
            n == stored_len(bytes@),
            forall|j: int| n <= j < i ==> bytes@[j] == 0,
        decreases s - i,
    {
        if bytes[i] != 0 {
            return Ok(fallback(bytes));
        }
        i = i + 1;
    }
    let mut data: Vec<u8> = Vec::new();
    let mut k: usize = 0;
    while k < n
        invariant
            k <= n,
            n + 12 <= bytes@.len(),
            data@ == bytes@.subrange(0, k as int),
        decreases n - k,
    {
        data.push(bytes[k]);
        k = k + 1;
        proof {
            assert(data@ =~= bytes@.subrange(0, k as int));
        }
    }
    let version = bytes[l - 4];
    let request_type = if tag == 1 {
        MessageType::HttpRequest
    } else {
        MessageType::HttpResponse
    };
    proof {
        assert(is_valid_envelope(bytes@));
        assert(data@ =~= parsed_data(bytes@));
    }
    Ok(Payload { version, request_type, data })
}

/// Reading back the four little-endian bytes of a 32-bit value gives the
/// value itself.
proof fn lemma_le32_round_trip(v: u32)
    ensures
        le32_val(
            (v & 0xff) as u8,
            ((v >> 8) & 0xff) as u8,
            ((v >> 16) & 0xff) as u8,
            ((v >> 24) & 0xff) as u8,
        ) == v,
{
    assert((((v & 0xff) as u8) as u32) | (((((v >> 8) & 0xff) as u8) as u32) << 8) | (((((v >> 16)
        & 0xff) as u8) as u32) << 16) | (((((v >> 24) & 0xff) as u8) as u32) << 24) == v)
        by (bit_vector);
}

/// Round-trip identity: the canonical encoding of any payload the format
/// can carry is a valid envelope, and parsing it yields exactly the fields
/// that were encoded.
pub proof fn lemma_round_trip(version: u8, t: MessageType, data: Seq<u8>)
    requires
        data.len() <= MAX_DATA_LEN,
    ensures
        is_valid_envelope(encoded_bytes(version, t, data)),
        parsed_version(encoded_bytes(version, t, data)) == version,
        parsed_type(encoded_bytes(version, t, data)) == t,
        parsed_data(encoded_bytes(version, t, data)) == data,
{
    let n = data.len() as int;
    let s = align4(data.len()) as int;
    let off = back_offset(align4(data.len()));
    let n32 = data.len() as u32;
    let b = encoded_bytes(version, t, data);
    assert(b.len() == s + 12);
    assert(s % 4 == 0);
    assert(s <= MAX_DATA_LEN);
    assert(b[s] == le32_bytes(off)[0]);
    assert(b[s + 1] == le32_bytes(off)[1]);
    assert(b[s + 2] == le32_bytes(off)[2]);
    assert(b[s + 3] == le32_bytes(off)[3]);
    assert(b[s + 4] == le32_bytes(n32)[0]);
    assert(b[s + 5] == le32_bytes(n32)[1]);
    assert(b[s + 6] == le32_bytes(n32)[2]);
    assert(b[s + 7] == le32_bytes(n32)[3]);
    assert(b[s + 8] == version);
    assert(b[s + 9] == tag_byte(t));
    assert(b[s + 10] == 0u8);
    assert(b[s + 11] == 0u8);
    lemma_le32_round_trip(off);
    assert(stored_offset(b) == off);
    lemma_le32_round_trip(n32);
    assert(stored_len(b) == n32);
    assert(forall|i: int| 0 <= i < n ==> b[i] == data[i]);
    assert(forall|i: int| n <= i < s ==> b[i] == 0u8);
    assert(is_valid_envelope(b));
    assert(parsed_data(b) =~= data);
}

/// Round-trip identity at the payload level: whenever `enc` is what
/// [`encode`] promises for a payload `p` and `dec` is what [`decode`]
/// promises for `enc`, the decoded payload has exactly the fields of `p`.
pub proof fn lemma_decode_encode_identity(p: Payload, enc: Vec<u8>, dec: Payload)
    requires
        p.data@.len() <= MAX_DATA_LEN,
        enc@ == encoded_bytes(p.version, p.request_type, p.data@),
        decodes_to(enc@, dec),
    ensures
        dec.version == p.version,
        dec.request_type == p.request_type,
        dec.data@ == p.data@,
{
    lemma_round_trip(p.version, p.request_type, p.data@);
}

/// Determinism: the encoded bytes are a function of the payload's fields
/// alone, so two encodings of equal payloads are byte-identical.
pub proof fn lemma_encode_deterministic(p1: Payload, p2: Payload, r1: Vec<u8>, r2: Vec<u8>)
    requires
        p1.version == p2.version,
        p1.request_type == p2.request_type,
        p1.data@ == p2.data@,
        r1@ == encoded_bytes(p1.version, p1.request_type, p1.data@),
        r2@ == encoded_bytes(p2.version, p2.request_type, p2.data@),
    ensures
        r1@ == r2@,
{
}

/// Tag fidelity: in a valid envelope the tag byte decides the message type
/// — 1 yields a request, 2 a response — and a buffer long enough to carry a
/// trailer whose tag byte is any other value is not a valid envelope, so it
/// takes the fallback path of [`decode`].
pub proof fn lemma_tag_fidelity(b: Seq<u8>)
    ensures
        is_valid_envelope(b) && b[b.len() - 3] == 1 ==> parsed_type(b) == MessageType::HttpRequest,
        is_valid_envelope(b) && b[b.len() - 3] == 2 ==> parsed_type(b) == MessageType::HttpResponse,
        b.len() >= 12 && b[b.len() - 3] != 1 && b[b.len() - 3] != 2 ==> !is_valid_envelope(b),
{
}

/// Fallback pass-through: whatever [`decode`] promises for a byte sequence
/// that is not a valid envelope is the sentinel payload — version 0, a
/// response tag, and the input bytes unchanged.
pub proof fn lemma_fallback_passthrough(b: Seq<u8>, p: Payload)
    requires
        !is_valid_envelope(b),
        decodes_to(b, p),
    ensures
        p.version == 0,
        p.request_type == MessageType::HttpResponse,
        p.data@ == b,
{
}

} // verus!
