//! The wire-level framing protocol: every message travels as one frame, an
//! 8-byte unsigned big-endian length prefix followed by exactly that many
//! payload bytes. A length of zero carries no payload and is reserved as the
//! close signal: it tells the peer that no more frames will follow.

use vstd::prelude::*;

verus! {

/// The big-endian byte at position `i` (0 is the most significant) of the
/// 64-bit value `n`.
pub open spec fn be_byte(n: u64, i: int) -> u8 {
    ((n >> ((7 - i) * 8)) & 0xff) as u8
}

/// The 8-byte big-endian encoding of a 64-bit length.
pub open spec fn spec_encode_len(n: u64) -> Seq<u8> {
    Seq::new(8, |i: int| be_byte(n, i))
}

/// The 64-bit value read back from 8 big-endian bytes.
pub open spec fn spec_decode_len(b: Seq<u8>) -> u64
    recommends
        b.len() == 8,
{
    (((b[0] as u64) << 56) | ((b[1] as u64) << 48) | ((b[2] as u64) << 40)
        | ((b[3] as u64) << 32) | ((b[4] as u64) << 24) | ((b[5] as u64) << 16)
        | ((b[6] as u64) << 8) | (b[7] as u64)) as u64
}

/// A whole frame: the big-endian length prefix followed by the payload bytes.
pub open spec fn spec_frame(payload: Seq<u8>) -> Seq<u8> {
    spec_encode_len(payload.len() as u64) + payload
}

/// Reading back the length prefix of an encoding recovers the length.
pub proof fn lemma_len_round_trip(n: u64)
    ensures
        spec_decode_len(spec_encode_len(n)) == n,
{
    let b = spec_encode_len(n);
    let b0 = b[0];
    let b1 = b[1];
    let b2 = b[2];
    let b3 = b[3];
    let b4 = b[4];
    let b5 = b[5];
    let b6 = b[6];
    let b7 = b[7];
    assert((((b0 as u64) << 56) | ((b1 as u64) << 48) | ((b2 as u64) << 40)
        | ((b3 as u64) << 32) | ((b4 as u64) << 24) | ((b5 as u64) << 16)
        | ((b6 as u64) << 8) | (b7 as u64)) as u64 == n) by (bit_vector)
        requires
            b0 == ((n >> 56) & 0xff) as u8,
            b1 == ((n >> 48) & 0xff) as u8,
            b2 == ((n >> 40) & 0xff) as u8,
            b3 == ((n >> 32) & 0xff) as u8,
            b4 == ((n >> 24) & 0xff) as u8,
            b5 == ((n >> 16) & 0xff) as u8,
            b6 == ((n >> 8) & 0xff) as u8,
            b7 == ((n >> 0) & 0xff) as u8,
    ;
}

/// Writes the 8-byte big-endian length prefix for a frame of `n` bytes.
pub fn encode_len(n: u64) -> (r: Vec<u8>)
    ensures
        r@ == spec_encode_len(n),
{
    let mut r: Vec<u8> = Vec::new();
    r.push(#[verifier::truncate] (((n >> 56) & 0xff) as u8));
    r.push(#[verifier::truncate] (((n >> 48) & 0xff) as u8));
    r.push(#[verifier::truncate] (((n >> 40) & 0xff) as u8));
    r.push(#[verifier::truncate] (((n >> 32) & 0xff) as u8));
    r.push(#[verifier::truncate] (((n >> 24) & 0xff) as u8));
    r.push(#[verifier::truncate] (((n >> 16) & 0xff) as u8));
    r.push(#[verifier::truncate] (((n >> 8) & 0xff) as u8));
    r.push(#[verifier::truncate] (((n >> 0) & 0xff) as u8));
    proof {
        assert(r@ =~= spec_encode_len(n));
    }
    r
}

/// Reads the frame length out of an 8-byte big-endian prefix.
pub fn decode_len(b: &Vec<u8>) -> (n: u64)
    requires
        b@.len() == 8,
    ensures
        n == spec_decode_len(b@),
{
    ((b[0] as u64) << 56) | ((b[1] as u64) << 48) | ((b[2] as u64) << 40)
        | ((b[3] as u64) << 32) | ((b[4] as u64) << 24) | ((b[5] as u64) << 16)
        | ((b[6] as u64) << 8) | (b[7] as u64)
}

/// Builds the frame for a payload: its length as an 8-byte big-endian prefix,
/// then the payload bytes themselves. A payload must hold at least one byte,
/// since a length of zero is reserved for the close signal.
pub fn encode_frame(payload: &Vec<u8>) -> (r: Vec<u8>)
    requires
        payload@.len() >= 1,
    ensures
        r@ == spec_frame(payload@),
        spec_decode_len(r@.subrange(0, 8)) == payload@.len(),
        spec_decode_len(r@.subrange(0, 8)) != 0,
{
    let len = payload.len() as u64;
    let mut r = encode_len(len);
    let mut i: usize = 0;
    while i < payload.len()
        invariant
            payload@.len() >= 1,
            len == payload@.len(),
            i <= payload@.len(),
            r@ == spec_encode_len(len) + payload@.subrange(0, i as int),
        decreases payload@.len() - i,
    {
        r.push(payload[i]);
        i = i + 1;
        proof {
            assert(r@ =~= spec_encode_len(len) + payload@.subrange(0, i as int));
        }
    }
    proof {
        assert(payload@.subrange(0, payload@.len() as int) =~= payload@);
        assert(r@.subrange(0, 8) =~= spec_encode_len(len));
        lemma_len_round_trip(len);
    }
    r
}

/// Builds the reserved close signal: a frame whose length prefix is zero and
/// which carries no payload.
pub fn close_frame() -> (r: Vec<u8>)
    ensures
        r@ == spec_encode_len(0),
        spec_decode_len(r@) == 0,
{
    let r = encode_len(0);
    proof {
        lemma_len_round_trip(0);
    }
    r
}

/// The frame of a payload decodes back to exactly that payload: the length
/// prefix reads back as the payload's length, and the bytes after the prefix
/// are the payload itself. A non-empty payload never produces a zero length
/// prefix, so a frame of a real payload is never mistaken for a close signal.
pub proof fn lemma_frame_round_trip(payload: Seq<u8>)
    requires
        payload.len() <= u64::MAX,
    ensures
        spec_frame(payload).len() == 8 + payload.len(),
        spec_decode_len(spec_frame(payload).subrange(0, 8)) == payload.len(),
        spec_frame(payload).subrange(8, spec_frame(payload).len() as int) == payload,
        payload.len() >= 1 ==> spec_decode_len(spec_frame(payload).subrange(0, 8)) != 0,
{
    let f = spec_frame(payload);
    let n = payload.len() as u64;
    assert(f.subrange(0, 8) =~= spec_encode_len(n));
    lemma_len_round_trip(n);
    assert(f.subrange(8, f.len() as int) =~= payload);
}

/// The length a frame's prefix announces.
pub open spec fn spec_frame_len(f: Seq<u8>) -> u64
    recommends
        f.len() >= 8,
{
    spec_decode_len(f.subrange(0, 8))
}

/// The payload bytes a frame carries after its prefix.
pub open spec fn spec_frame_payload(f: Seq<u8>) -> Seq<u8>
    recommends
        f.len() >= 8,
{
    f.subrange(8, f.len() as int)
}

/// One full exchange survives the wire exactly. For any request payload `q`
/// and any handler `h`: the frame the client sends carries `q` to the server
/// unchanged, and the frame the server answers with carries `h(q)` back
/// unchanged — so what the client decodes is exactly the handler's answer to
/// its request.
pub proof fn lemma_exchange_round_trip(q: Seq<u8>, h: spec_fn(Seq<u8>) -> Seq<u8>)
    requires
        1 <= q.len() <= u64::MAX,
        1 <= h(q).len() <= u64::MAX,
    ensures
        spec_frame_payload(spec_frame(q)) == q,
        spec_frame_len(spec_frame(q)) == q.len(),
        spec_frame_payload(spec_frame(h(q))) == h(q),
        spec_frame_len(spec_frame(h(q))) == h(q).len(),
{
    lemma_frame_round_trip(q);
    lemma_frame_round_trip(h(q));
}

/// A zero length prefix is reserved: it is exactly what the close signal
/// carries, and it is never the prefix of a frame built for a real payload.
pub proof fn lemma_close_frame_is_reserved()
    ensures
        spec_decode_len(spec_encode_len(0)) == 0,
        forall|payload: Seq<u8>|
            1 <= payload.len() <= u64::MAX ==> #[trigger] spec_decode_len(
                spec_frame(payload).subrange(0, 8),
            ) != 0,
{
    lemma_len_round_trip(0);
    assert forall|payload: Seq<u8>|
        1 <= payload.len() <= u64::MAX implies #[trigger] spec_decode_len(
        spec_frame(payload).subrange(0, 8),
    ) != 0 by {
        lemma_frame_round_trip(payload);
    }
}

} // verus!
