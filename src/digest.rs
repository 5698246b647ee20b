use vstd::prelude::*;
use sha2::Digest;

verus! {

/// The SHA-256 digest of a byte string.
pub uninterp spec fn sha256_of(data: Seq<u8>) -> Seq<u8>;

/// Relies on sha2's `Sha256::digest`: the SHA-256 digest of the bytes, which its
/// output type fixes at 32 bytes.
#[verifier::external_body]
fn sha256(data: &Vec<u8>) -> (r: Vec<u8>)
    ensures
        r@ == sha256_of(data@),
        r@.len() == 32,
{
    sha2::Sha256::digest(data.as_slice()).to_vec()
}

/// What the off-chain signer signs and the host's secp256k1 check verifies: the
/// SHA-256 digest of an action's canonical payload bytes.
pub fn signing_digest(payload: &Vec<u8>) -> (r: Vec<u8>)
    ensures
        r@ == sha256_of(payload@),
        r@.len() == 32,
{
    sha256(payload)
}

} // verus!
