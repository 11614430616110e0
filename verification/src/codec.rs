//! The wire format: every message is one frame, an 8-byte big-endian
//! unsigned length followed by exactly that many payload bytes.

use vstd::prelude::*;

verus! {

/// Number of bytes in the length prefix of a frame.
pub const HEADER_LEN: usize = 8;

/// The 8-byte big-endian encoding of a 64-bit length.
pub open spec fn be_bytes_of(n: u64) -> Seq<u8> {
    seq![
        (n >> 56) as u8,
        (n >> 48) as u8,
        (n >> 40) as u8,
        (n >> 32) as u8,
        (n >> 24) as u8,
        (n >> 16) as u8,
        (n >> 8) as u8,
        n as u8,
    ]
}

/// The 64-bit value that 8 big-endian bytes denote.
pub open spec fn be_u64_of(b: Seq<u8>) -> u64
    recommends
        b.len() == 8,
{
    (((b[0] as u64) << 56) | ((b[1] as u64) << 48) | ((b[2] as u64) << 40) | ((b[3] as u64) << 32)
        | ((b[4] as u64) << 24) | ((b[5] as u64) << 16) | ((b[6] as u64) << 8) | (b[7] as u64))
}

/// One frame on the wire: the length prefix, then the payload.
pub open spec fn frame_of(payload: Seq<u8>) -> Seq<u8>
    recommends
        payload.len() <= u64::MAX,
{
    be_bytes_of(payload.len() as u64) + payload
}

/// Decoding inverts encoding: the 8 bytes written for `n` denote `n` again.
pub proof fn lemma_be_round_trip(n: u64)
    ensures
        be_u64_of(be_bytes_of(n)) == n,
{
    let b = be_bytes_of(n);
    assert(b[0] == (n >> 56) as u8);
    assert(b[1] == (n >> 48) as u8);
    assert(b[2] == (n >> 40) as u8);
    assert(b[3] == (n >> 32) as u8);
    assert(b[4] == (n >> 24) as u8);
    assert(b[5] == (n >> 16) as u8);
    assert(b[6] == (n >> 8) as u8);
    assert(b[7] == n as u8);
    assert(((((n >> 56) as u8) as u64) << 56) | ((((n >> 48) as u8) as u64) << 48)
        | ((((n >> 40) as u8) as u64) << 40) | ((((n >> 32) as u8) as u64) << 32)
        | ((((n >> 24) as u8) as u64) << 24) | ((((n >> 16) as u8) as u64) << 16)
        | ((((n >> 8) as u8) as u64) << 8) | ((n as u8) as u64) == n) by (bit_vector);
}

/// A frame is `8 + L` bytes for a payload of length `L`: its first 8 bytes
/// decode to `L` and the rest is exactly the payload.
pub proof fn lemma_frame_round_trip(payload: Seq<u8>)
    requires
        payload.len() <= u64::MAX,
    ensures
        frame_of(payload).len() == 8 + payload.len(),
        be_u64_of(frame_of(payload).take(8)) == payload.len(),
        frame_of(payload).skip(8) == payload,
{
    lemma_be_round_trip(payload.len() as u64);
    assert(frame_of(payload).take(8) =~= be_bytes_of(payload.len() as u64));
    assert(frame_of(payload).skip(8) =~= payload);
}

/// Encode a 64-bit length as its 8 big-endian bytes.
pub fn encode_len(n: u64) -> (r: Vec<u8>)
    ensures
        r@ == be_bytes_of(n),
{
    let mut v: Vec<u8> = Vec::new();
    v.push((n >> 56) as u8);
    v.push((n >> 48) as u8);
    v.push((n >> 40) as u8);
    v.push((n >> 32) as u8);
    v.push((n >> 24) as u8);
    v.push((n >> 16) as u8);
    v.push((n >> 8) as u8);
    v.push(n as u8);
    proof {
        assert(v@ =~= be_bytes_of(n));
    }
    v
}

/// Decode the 64-bit length that 8 big-endian bytes denote.
pub fn decode_len(b: &Vec<u8>) -> (r: u64)
    requires
        b@.len() == 8,
    ensures
        r == be_u64_of(b@),
{
    (((b[0] as u64) << 56) | ((b[1] as u64) << 48) | ((b[2] as u64) << 40)
        | ((b[3] as u64) << 32) | ((b[4] as u64) << 24) | ((b[5] as u64) << 16)
        | ((b[6] as u64) << 8) | (b[7] as u64))
}

/// Build the full wire frame for one payload.
pub fn encode_frame(payload: &Vec<u8>) -> (r: Vec<u8>)
    ensures
        r@ == frame_of(payload@),
{
    let l: usize = payload.len();
    let mut r = encode_len(l as u64);
    let mut i: usize = 0;
    while i < payload.len()
        invariant
            i <= payload@.len(),
            r@ == be_bytes_of(payload@.len() as u64) + payload@.take(i as int),
        decreases payload@.len() - i,
    {
        r.push(payload[i]);
        proof {
            assert(payload@.take(i + 1) =~= payload@.take(i as int).push(payload@[i as int]));
        }
        i += 1;
    }
    proof {
        assert(payload@.take(payload@.len() as int) =~= payload@);
    }
    r
}

} // verus!
