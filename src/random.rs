//! Pseudo-random DNA: a hash of the block's random seed, the caller and the
//! position of the call in its block.
use parity_scale_codec::Encode;
use vstd::prelude::*;

verus! {

/// The eight little-endian bytes of `x`.
pub open spec fn le_bytes_u64(x: u64) -> Seq<u8> {
    Seq::new(8, |i: int| ((x >> ((8 * i) as u64)) % 256) as u8)
}

/// The four little-endian bytes of `x`.
pub open spec fn le_bytes_u32(x: u32) -> Seq<u8> {
    Seq::new(4, |i: int| ((x >> ((8 * i) as u32)) % 256) as u8)
}

/// SCALE form of an optional index: a zero byte for none, else a one byte
/// and the index.
pub open spec fn option_bytes(index: Option<u32>) -> Seq<u8> {
    match index {
        Option::None => seq![0u8],
        Option::Some(x) => seq![1u8] + le_bytes_u32(x),
    }
}

/// SCALE form of the tuple (seed, sender, index) that is hashed into DNA.
pub open spec fn payload_bytes(seed: Seq<u8>, sender: u64, index: Option<u32>) -> Seq<u8> {
    seed + le_bytes_u64(sender) + option_bytes(index)
}

/// The 128-bit Blake2 digest of `data`.
pub uninterp spec fn blake2_128_of(data: Seq<u8>) -> Seq<u8>;

/// The DNA derived from a seed, a sender and the index of the call.
pub open spec fn random_dna(seed: Seq<u8>, sender: u64, index: Option<u32>) -> Seq<u8> {
    blake2_128_of(payload_bytes(seed, sender, index))
}

/// Relies on parity_scale_codec's `Encode` for a tuple: its fields in order;
/// a byte array as its bytes, a `u64` as eight little-endian bytes, an
/// `Option` as a 0 byte or a 1 byte followed by the value.
#[verifier::external_body]
fn encode_payload(seed: &[u8; 32], sender: u64, index: Option<u32>) -> (r: Vec<u8>)
    ensures
        r@ == payload_bytes(seed@, sender, index),
{
    (*seed, sender, index).encode()
}

/// Relies on sp_io::hashing::blake2_128: the 128-bit Blake2 digest of the data.
#[verifier::external_body]
fn blake2_128(data: &Vec<u8>) -> (r: [u8; 16])
    ensures
        r@ == blake2_128_of(data@),
{
    sp_io::hashing::blake2_128(data.as_slice())
}

/// Sixteen pseudo-random bytes from the block's seed, the sender and the
/// index of the call within its block.
pub fn random_value(seed: &[u8; 32], sender: u64, extrinsic_index: Option<u32>) -> (r: [u8; 16])
    ensures
        r@ == random_dna(seed@, sender, extrinsic_index),
{
    let payload = encode_payload(seed, sender, extrinsic_index);
    blake2_128(&payload)
}

} // verus!
