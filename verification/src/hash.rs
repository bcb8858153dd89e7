use std::hash::Hasher;
use vstd::prelude::*;
use fnv::FnvHasher;
use crate::text::{decimal, decimal_string};

verus! {

/// The FNV-1a offset basis for 64-bit hashes.
pub open spec fn fnv_offset_basis() -> u64 {
    0xcbf29ce484222325
}

/// The FNV 64-bit prime.
pub open spec fn fnv_prime() -> int {
    0x100000001b3
}

/// One FNV-1a round: xor in the byte, then multiply by the prime modulo 2^64.
pub open spec fn fnv_round(h: u64, b: u8) -> u64 {
    (((h ^ (b as u64)) as int * fnv_prime()) % 0x1_0000_0000_0000_0000int) as u64
}

/// FNV-1a over `bytes`, starting from the state `h`.
pub open spec fn fnv_from(h: u64, bytes: Seq<u8>) -> u64
    decreases bytes.len(),
{
    if bytes.len() == 0 {
        h
    } else {
        fnv_from(fnv_round(h, bytes[0]), bytes.drop_first())
    }
}

/// The 64-bit FNV-1a hash of `bytes`.
pub open spec fn fnv1a(bytes: Seq<u8>) -> u64 {
    fnv_from(fnv_offset_basis(), bytes)
}

/// Hashes `value` with `fnv::FnvHasher`, started from its default state.
///
/// Trusted: the contract states that `FnvHasher::default()` followed by
/// `write` and `finish` computes 64-bit FNV-1a, which is what the crate's
/// source does (offset basis 0xcbf29ce484222325, xor then wrapping multiply
/// by 0x100000001b3 for each byte).
#[verifier::external_body]
pub fn compute_hash(value: &[u8]) -> (h: u64)
    ensures
        h == fnv1a(value@),
{
    let mut hasher = FnvHasher::default();
    hasher.write(value);
    hasher.finish()
}

/// The decimal hash of a string's UTF-8 bytes, as the node writes it in file names and keys.
pub open spec fn hash_text(s: Seq<char>) -> Seq<char> {
    decimal(fnv1a(vstd::utf8::encode_utf8(s)) as nat)
}

/// `format!("{}", compute_hash(s.as_bytes()))`.
pub fn hash_string(s: &str) -> (r: String)
    ensures
        r@ == hash_text(s@),
{
    let h = compute_hash(s.as_bytes());
    decimal_string(h)
}

} // verus!
