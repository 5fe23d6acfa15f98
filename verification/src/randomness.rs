use vstd::prelude::*;

verus! {

/// The SCALE encoding of a `u32`: its four little-endian bytes.
pub open spec fn u32_le_bytes(x: u32) -> Seq<u8> {
    seq![
        (x & 0xff) as u8,
        ((x >> 8) & 0xff) as u8,
        ((x >> 16) & 0xff) as u8,
        ((x >> 24) & 0xff) as u8,
    ]
}

/// The SCALE encoding of a `u64`: its eight little-endian bytes.
pub open spec fn u64_le_bytes(x: u64) -> Seq<u8> {
    seq![
        (x & 0xff) as u8,
        ((x >> 8) & 0xff) as u8,
        ((x >> 16) & 0xff) as u8,
        ((x >> 24) & 0xff) as u8,
        ((x >> 32) & 0xff) as u8,
        ((x >> 40) & 0xff) as u8,
        ((x >> 48) & 0xff) as u8,
        ((x >> 56) & 0xff) as u8,
    ]
}

/// The SCALE encoding of an optional `u32`: a zero byte for nothing, else a
/// one byte followed by the value's bytes.
pub open spec fn option_u32_scale(n: Option<u32>) -> Seq<u8> {
    match n {
        None => seq![0u8],
        Some(v) => seq![1u8] + u32_le_bytes(v),
    }
}

/// The SCALE encoding of the randomness payload (chain entropy, caller,
/// per-call nonce): a tuple encodes as the concatenation of its fields and a
/// byte array as its bytes.
pub open spec fn payload_scale(seed: Seq<u8>, sender: u64, nonce: Option<u32>) -> Seq<u8> {
    seed + u64_le_bytes(sender) + option_u32_scale(nonce)
}

/// The 16-byte blake2b digest of a byte string; fixed by the input alone.
pub uninterp spec fn blake2_128_of(data: Seq<u8>) -> Seq<u8>;

/// Relies on parity_scale_codec::Encode for `([u8; 32], u64, Option<u32>)`:
/// a tuple encodes as the concatenation of its fields' encodings, a byte
/// array as its bytes in order, an unsigned integer as its little-endian
/// bytes, and an option as a tag byte (0 or 1) followed by the value.
#[verifier::external_body]
fn scale_encode_payload(seed: &[u8; 32], sender: u64, nonce: Option<u32>) -> (r: Vec<u8>)
    ensures
        r@ == payload_scale(seed@, sender, nonce),
{
    parity_scale_codec::Encode::encode(&(seed, sender, nonce))
}

/// Relies on sp_io::hashing::blake2_128: the 16-byte blake2b digest of the
/// input, a function of the input bytes alone.
#[verifier::external_body]
fn blake2_128_digest(data: &[u8]) -> (r: [u8; 16])
    ensures
        r@ == blake2_128_of(data@),
{
    sp_io::hashing::blake2_128(data)
}

/// Randomness adapter: mix chain entropy, the caller identity and a per-call
/// nonce into sixteen bytes through a one-way hash. Stateless and
/// deterministic: the result is a function of the three inputs alone.
pub fn random_value(sender: u64, seed: &[u8; 32], nonce: Option<u32>) -> (r: [u8; 16])
    ensures
        r@ == blake2_128_of(payload_scale(seed@, sender, nonce)),
{
    let payload = scale_encode_payload(seed, sender, nonce);
    blake2_128_digest(payload.as_slice())
}

} // verus!
