//! SHA-256 through the host environment.

use vstd::prelude::*;

verus! {

/// The host environment handle that the contracts run in.
#[verifier::external_type_specification]
#[verifier::external_body]
pub struct ExEnv(soroban_sdk::Env);

/// The SHA-256 digest of a byte string.
pub uninterp spec fn sha256_digest(data: Seq<u8>) -> Seq<u8>;

/// Calls `Crypto::sha256` of the host on `data` and returns the digest's
/// bytes. The contract claims that the 32 bytes returned are the SHA-256
/// digest of `data`, a function of `data` alone.
#[verifier::external_body]
pub fn sha256(env: &soroban_sdk::Env, data: &[u8]) -> (out: [u8; 32])
    ensures
        out@ == sha256_digest(data@),
{
    env.crypto().sha256(&soroban_sdk::Bytes::from_slice(env, data)).to_array()
}

} // verus!
