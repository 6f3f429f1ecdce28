use vstd::prelude::*;

use crate::error::Error;
use crate::hashing::keccak256_digest;
use crate::hashing::keccak_of;
use crate::price::check_price;
use crate::price::price_check;
use crate::price::rescaled_price;
use crate::registry::ReplayRegistry;
use crate::registry::timestamp_of;
use crate::structure::MIN_PROOF_LEN;
use crate::structure::has_zero_prefix;
use crate::structure::structure_check;
use crate::structure::validate_proof_structure;

verus! {

/// The overall verdict of one verification attempt against registry contents
/// `used`: the structural check, the price check and the replay check are
/// applied in that order, short-circuiting on the first failure; success is
/// always the literal value `true`.
pub open spec fn verify_outcome(
    used: Map<Seq<u8>, u64>,
    proof: Seq<u8>,
    inputs: Seq<u32>,
    expected_price: int,
) -> Result<bool, Error> {
    if structure_check(proof) is Err {
        Err(structure_check(proof)->Err_0)
    } else if price_check(inputs, expected_price) is Err {
        Err(price_check(inputs, expected_price)->Err_0)
    } else if used.contains_key(keccak_of(proof)) {
        Err(Error::ProofAlreadyUsed)
    } else {
        Ok(true)
    }
}

/// The registry contents after one verification attempt: the proof's digest
/// is recorded, with the timestamp passed on the call, exactly when the
/// attempt succeeds; a failed attempt leaves the registry untouched.
pub open spec fn registry_after(
    used: Map<Seq<u8>, u64>,
    proof: Seq<u8>,
    inputs: Seq<u32>,
    expected_price: int,
    timestamp: u64,
) -> Map<Seq<u8>, u64> {
    if verify_outcome(used, proof, inputs, expected_price) is Ok {
        used.insert(keccak_of(proof), timestamp)
    } else {
        used
    }
}

/// Verifies a zero-knowledge price proof: structural validation of the blob,
/// comparison of the disclosed average price against the expected price after
/// fixed-point rescaling, and anti-replay registration of the blob's digest.
///
/// The replay record is written only after every other check has passed, so a
/// proof rejected for shape or price is never registered and can be retried
/// with corrected parameters until one attempt succeeds.
pub fn verify_price_proof(
    registry: &mut ReplayRegistry,
    proof_data: &Vec<u8>,
    public_inputs: &Vec<u32>,
    expected_price: i128,
    expected_timestamp: u64,
) -> (result: Result<bool, Error>)
    requires
        old(registry).wf(),
    ensures
        final(registry).wf(),
        result == verify_outcome(
            old(registry)@,
            proof_data@,
            public_inputs@,
            expected_price as int,
        ),
        final(registry)@ == registry_after(
            old(registry)@,
            proof_data@,
            public_inputs@,
            expected_price as int,
            expected_timestamp,
        ),
{
    match validate_proof_structure(proof_data) {
        Ok(()) => {},
        Err(e) => {
            return Err(e);
        },
    }

    match check_price(public_inputs, expected_price) {
        Ok(()) => {},
        Err(e) => {
            return Err(e);
        },
    }

    let proof_hash = keccak256_digest(proof_data);

    if registry.is_used(&proof_hash) {
        return Err(Error::ProofAlreadyUsed);
    }

    registry.record(proof_hash, expected_timestamp);
    Ok(true)
}

/// An empty proof blob is rejected as `EmptyProof`, whatever the other
/// arguments and the registry hold: emptiness is checked before every other
/// structural failure.
pub proof fn lemma_empty_proof_rejected(
    used: Map<Seq<u8>, u64>,
    proof: Seq<u8>,
    inputs: Seq<u32>,
    price: int,
)
    requires
        proof.len() == 0,
    ensures
        verify_outcome(used, proof, inputs, price) == Err::<bool, Error>(Error::EmptyProof),
{
}

/// A non-empty proof blob shorter than the smallest accepted length is
/// rejected as `BadProofLen`, whatever its bytes hold.
pub proof fn lemma_short_proof_rejected(
    used: Map<Seq<u8>, u64>,
    proof: Seq<u8>,
    inputs: Seq<u32>,
    price: int,
)
    requires
        0 < proof.len() < MIN_PROOF_LEN as int,
    ensures
        verify_outcome(used, proof, inputs, price) == Err::<bool, Error>(Error::BadProofLen),
{
}

/// A long-enough proof blob whose inspected leading bytes are all zero is
/// rejected as `ZeroProof`, even when bytes beyond the scan window are not
/// zero.
pub proof fn lemma_zero_prefix_rejected(
    used: Map<Seq<u8>, u64>,
    proof: Seq<u8>,
    inputs: Seq<u32>,
    price: int,
)
    requires
        proof.len() >= MIN_PROOF_LEN as int,
        has_zero_prefix(proof),
    ensures
        verify_outcome(used, proof, inputs, price) == Err::<bool, Error>(Error::ZeroProof),
{
}

/// An empty public-input sequence on a structurally valid proof is rejected
/// as `NoPublicInput`.
pub proof fn lemma_empty_inputs_rejected(used: Map<Seq<u8>, u64>, proof: Seq<u8>, price: int)
    requires
        structure_check(proof) is Ok,
    ensures
        verify_outcome(used, proof, Seq::empty(), price) == Err::<bool, Error>(
            Error::NoPublicInput,
        ),
{
}

/// For a structurally valid proof that is not yet registered and comes with
/// at least one public input, verification succeeds — always with the
/// literal value `true` — exactly when the disclosed price equals the
/// rescaled expected price, and is otherwise rejected as `PriceMismatch`.
pub proof fn lemma_price_match_decides(
    used: Map<Seq<u8>, u64>,
    proof: Seq<u8>,
    inputs: Seq<u32>,
    price: int,
)
    requires
        structure_check(proof) is Ok,
        inputs.len() > 0,
        !used.contains_key(keccak_of(proof)),
    ensures
        (verify_outcome(used, proof, inputs, price) == Ok::<bool, Error>(true)) <==> (
        inputs[0] as int == rescaled_price(price)),
        inputs[0] as int != rescaled_price(price) ==> verify_outcome(used, proof, inputs, price)
            == Err::<bool, Error>(Error::PriceMismatch),
{
}

/// Replay protection: once a verification with proof bytes `proof` has
/// succeeded, a later attempt with the same bytes is rejected as
/// `ProofAlreadyUsed`, whatever price arguments and timestamp accompany it,
/// provided its own public inputs pass the price check (an attempt whose
/// inputs fail that earlier check is rejected there instead, with the same
/// bytes still registered).
pub proof fn lemma_replay_rejected(
    used: Map<Seq<u8>, u64>,
    proof: Seq<u8>,
    inputs1: Seq<u32>,
    price1: int,
    ts1: u64,
    inputs2: Seq<u32>,
    price2: int,
)
    requires
        verify_outcome(used, proof, inputs1, price1) == Ok::<bool, Error>(true),
        price_check(inputs2, price2) is Ok,
    ensures
        verify_outcome(registry_after(used, proof, inputs1, price1, ts1), proof, inputs2, price2)
            == Err::<bool, Error>(Error::ProofAlreadyUsed),
{
}

/// Audit record: a successful verification records, under the proof's
/// digest, exactly the timestamp passed on that call.
pub proof fn lemma_success_records_timestamp(
    used: Map<Seq<u8>, u64>,
    proof: Seq<u8>,
    inputs: Seq<u32>,
    price: int,
    ts: u64,
)
    requires
        verify_outcome(used, proof, inputs, price) is Ok,
    ensures
        timestamp_of(registry_after(used, proof, inputs, price, ts), keccak_of(proof)) == Some(
            ts,
        ),
{
}

/// A failed verification attempt leaves the registry unchanged, so every
/// recorded digest keeps the timestamp of its first acceptance, whatever
/// proof bytes the failed attempt carried.
pub proof fn lemma_failure_preserves_registry(
    used: Map<Seq<u8>, u64>,
    proof: Seq<u8>,
    inputs: Seq<u32>,
    price: int,
    ts: u64,
)
    requires
        verify_outcome(used, proof, inputs, price) is Err,
    ensures
        registry_after(used, proof, inputs, price, ts) == used,
{
}

} // verus!
