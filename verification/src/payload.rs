//! The payload of the call that asks the tree engine to create a tree.
//!
//! The layout is fixed: an 8-byte discriminator that names the operation,
//! the maximum depth and the maximum buffer size as 4 little-endian bytes
//! each, and one byte, 0 or 1, that says whether the tree is public.

use vstd::prelude::*;

verus! {

/// Number of bytes in the discriminator that opens a payload.
pub const DISCRIMINATOR_LEN: usize = 8;

/// Number of bytes in a whole payload.
pub const PAYLOAD_LEN: usize = 17;

/// The shape of a tree.
#[derive(Clone, Copy, Debug, PartialEq, Eq)]
pub struct TreeParameters {
    /// Bounds the height of the tree.
    pub max_depth: u32,
    /// Bounds how many concurrent updates the tree buffers.
    pub max_buffer_size: u32,
    /// Whether parties other than the authority may append leaves.
    pub is_public: bool,
}

/// What a payload holds.
#[derive(Clone, Copy, Debug, PartialEq, Eq)]
pub struct DecodedPayload {
    pub discriminator: [u8; 8],
    pub params: TreeParameters,
}

/// The four bytes of `x`, least significant first.
pub open spec fn le_bytes(x: u32) -> Seq<u8> {
    seq![
        (x % 256) as u8,
        (x / 256 % 256) as u8,
        (x / 65536 % 256) as u8,
        (x / 16777216) as u8,
    ]
}

/// The number whose bytes, least significant first, are the first four of `bytes`.
pub open spec fn le_value(bytes: Seq<u8>) -> int
    recommends
        bytes.len() >= 4,
{
    bytes[0] + 256 * bytes[1] + 65536 * bytes[2] + 16777216 * bytes[3]
}

/// The byte that stands for a flag.
pub open spec fn flag_byte(flag: bool) -> u8 {
    if flag {
        1
    } else {
        0
    }
}

/// The payload for a discriminator and tree parameters.
pub open spec fn payload_bytes(discriminator: [u8; 8], params: TreeParameters) -> Seq<u8> {
    discriminator@ + le_bytes(params.max_depth) + le_bytes(params.max_buffer_size)
        + seq![flag_byte(params.is_public)]
}

/// Whether `bytes` has the layout of a payload.
pub open spec fn is_payload(bytes: Seq<u8>) -> bool {
    bytes.len() == PAYLOAD_LEN && bytes[16] <= 1
}

/// The tree parameters that a payload carries.
pub open spec fn payload_params(bytes: Seq<u8>) -> TreeParameters
    recommends
        is_payload(bytes),
{
    TreeParameters {
        max_depth: le_value(bytes.subrange(8, 12)) as u32,
        max_buffer_size: le_value(bytes.subrange(12, 16)) as u32,
        is_public: bytes[16] == 1,
    }
}

/// Appends the four little-endian bytes of `x` to `out`.
pub fn push_u32_le(out: &mut Vec<u8>, x: u32)
    ensures
        final(out)@ == old(out)@ + le_bytes(x),
{
    out.push((x % 256) as u8);
    out.push((x / 256 % 256) as u8);
    out.push((x / 65536 % 256) as u8);
    out.push((x / 16777216) as u8);
    assert(final(out)@ =~= old(out)@ + le_bytes(x));
}

/// Reads the number that four little-endian bytes at `at` stand for.
fn read_u32_le(bytes: &[u8], at: usize) -> (x: u32)
    requires
        at + 4 <= bytes@.len(),
    ensures
        x == le_value(bytes@.subrange(at as int, at + 4)),
{
    let b0: u32 = bytes[at] as u32;
    let b1: u32 = bytes[at + 1] as u32;
    let b2: u32 = bytes[at + 2] as u32;
    let b3: u32 = bytes[at + 3] as u32;
    b0 + 256 * b1 + 65536 * b2 + 16777216 * b3
}

/// Serialises the payload of a call that creates a tree.
pub fn encode_payload(discriminator: &[u8; 8], params: &TreeParameters) -> (payload: Vec<u8>)
    ensures
        payload@ == payload_bytes(*discriminator, *params),
{
    let mut payload: Vec<u8> = Vec::with_capacity(PAYLOAD_LEN);
    let mut i: usize = 0;
    while i < DISCRIMINATOR_LEN
        invariant
            i <= DISCRIMINATOR_LEN,
            payload@ == discriminator@.take(i as int),
        decreases DISCRIMINATOR_LEN - i,
    {
        payload.push(discriminator[i]);
        i += 1;
        assert(payload@ =~= discriminator@.take(i as int));
    }
    assert(discriminator@.take(8) =~= discriminator@);
    push_u32_le(&mut payload, params.max_depth);
    push_u32_le(&mut payload, params.max_buffer_size);
    payload.push(if params.is_public { 1u8 } else { 0u8 });
    assert(payload@ =~= payload_bytes(*discriminator, *params));
    payload
}

/// Reads a payload back. Gives `None` unless `bytes` has exactly the length
/// of a payload and its last byte is 0 or 1.
pub fn decode_payload(bytes: &[u8]) -> (decoded: Option<DecodedPayload>)
    ensures
        decoded is Some <==> is_payload(bytes@),
        decoded matches Some(d) ==> d.discriminator@ == bytes@.subrange(0, 8) && d.params
            == payload_params(bytes@),
{
    if bytes.len() != PAYLOAD_LEN || bytes[16] > 1 {
        return None;
    }
    let discriminator: [u8; 8] = [
        bytes[0],
        bytes[1],
        bytes[2],
        bytes[3],
        bytes[4],
        bytes[5],
        bytes[6],
        bytes[7],
    ];
    assert(discriminator@ =~= bytes@.subrange(0, 8));
    let params = TreeParameters {
        max_depth: read_u32_le(bytes, 8),
        max_buffer_size: read_u32_le(bytes, 12),
        is_public: bytes[16] == 1,
    };
    Some(DecodedPayload { discriminator, params })
}

/// Four little-endian bytes stand for the number they were made from.
pub proof fn lemma_le_value_of_le_bytes(x: u32)
    ensures
        le_bytes(x).len() == 4,
        le_value(le_bytes(x)) == x,
{
}

/// Decoding a payload that was built from a discriminator and tree
/// parameters gives both back, whatever the discriminator, the two numbers
/// and the flag are.
pub proof fn lemma_decode_of_encode(discriminator: [u8; 8], params: TreeParameters)
    ensures
        is_payload(payload_bytes(discriminator, params)),
        payload_bytes(discriminator, params).subrange(0, 8) == discriminator@,
        payload_params(payload_bytes(discriminator, params)) == params,
{
    let bytes = payload_bytes(discriminator, params);
    lemma_le_value_of_le_bytes(params.max_depth);
    lemma_le_value_of_le_bytes(params.max_buffer_size);
    assert(bytes.subrange(0, 8) =~= discriminator@);
    assert(bytes.subrange(8, 12) =~= le_bytes(params.max_depth));
    assert(bytes.subrange(12, 16) =~= le_bytes(params.max_buffer_size));
}

/// Four bytes are the little-endian bytes of the number they stand for.
pub proof fn lemma_le_bytes_of_le_value(bytes: Seq<u8>)
    requires
        bytes.len() == 4,
    ensures
        0 <= le_value(bytes) <= u32::MAX,
        le_bytes(le_value(bytes) as u32) == bytes,
{
    let b0 = bytes[0] as int;
    let b1 = bytes[1] as int;
    let b2 = bytes[2] as int;
    let b3 = bytes[3] as int;
    let v = b0 + 256 * b1 + 65536 * b2 + 16777216 * b3;
    assert(v == le_value(bytes));
    assert(v % 256 == b0 && v / 256 == b1 + 256 * b2 + 65536 * b3);
    assert(v / 256 % 256 == b1 && v / 65536 == b2 + 256 * b3);
    assert(v / 65536 % 256 == b2 && v / 16777216 == b3);
    assert(le_bytes(v as u32) =~= bytes);
}

/// Building a payload from what was decoded gives the decoded bytes back,
/// so no two payloads decode to the same discriminator and parameters.
pub proof fn lemma_encode_of_decode(bytes: Seq<u8>, discriminator: [u8; 8])
    requires
        is_payload(bytes),
        discriminator@ == bytes.subrange(0, 8),
    ensures
        payload_bytes(discriminator, payload_params(bytes)) == bytes,
{
    let params = payload_params(bytes);
    lemma_le_bytes_of_le_value(bytes.subrange(8, 12));
    lemma_le_bytes_of_le_value(bytes.subrange(12, 16));
    assert(payload_bytes(discriminator, params) =~= bytes);
}

} // verus!
