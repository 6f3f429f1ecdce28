use vstd::prelude::*;

verus! {

/// The Keccak-256 digest of a byte sequence, as the host's cryptographic
/// primitive computes it. The digest is a function of the input bytes alone:
/// equal blobs always hash to equal digests, so the digest can serve as the
/// idempotency key of the replay registry.
pub uninterp spec fn keccak_of(data: Seq<u8>) -> Seq<u8>;

/// Relies on soroban_sdk's `Crypto::keccak256`: returns the Keccak-256 hash
/// of the data, a 32-byte digest determined by the input bytes alone. The
/// throwaway host's metering budget is lifted first, so the digest is
/// computed for a blob of any length instead of panicking once a default
/// budget would be exhausted.
#[verifier::external_body]
pub(crate) fn keccak256_digest(data: &Vec<u8>) -> (r: Vec<u8>)
    ensures
        r@ == keccak_of(data@),
        r@.len() == 32,
{
    let env = soroban_sdk::Env::new_with_config(soroban_sdk::testutils::EnvTestConfig {
        capture_snapshot_at_drop: false,
    });
    env.cost_estimate().budget().reset_unlimited();
    let bytes = soroban_sdk::Bytes::from_slice(&env, data.as_slice());
    env.crypto().keccak256(&bytes).to_array().to_vec()
}

} // verus!
