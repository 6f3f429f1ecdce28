use vstd::prelude::*;

use crate::error::Error;

verus! {

/// Smallest proof blob length that passes the structural check. Genuine proof
/// artifacts are multi-kilobyte; anything shorter than this coarse bound is
/// rejected as clearly-too-small garbage.
pub const MIN_PROOF_LEN: usize = 256;

/// Number of leading bytes the zero-prefix corruption heuristic inspects.
pub const ZERO_SCAN_LEN: usize = 64;

/// How many leading bytes of `proof` the zero-prefix heuristic looks at:
/// the whole blob when it is shorter than the scan window.
pub open spec fn zero_scan_len(proof: Seq<u8>) -> int {
    if proof.len() < ZERO_SCAN_LEN { proof.len() as int } else { ZERO_SCAN_LEN as int }
}

/// True when every inspected leading byte of `proof` is zero. Non-zero bytes
/// beyond the scan window do not count: this is a corruption heuristic, not a
/// cryptographic check.
pub open spec fn has_zero_prefix(proof: Seq<u8>) -> bool {
    forall|i: int| 0 <= i < zero_scan_len(proof) ==> proof[i] == 0
}

/// The structural verdict on a proof blob: the first failed shape check in
/// order (emptiness, then length, then zero prefix), or success.
pub open spec fn structure_check(proof: Seq<u8>) -> Result<(), Error> {
    if proof.len() == 0 {
        Err(Error::EmptyProof)
    } else if proof.len() < MIN_PROOF_LEN as int {
        Err(Error::BadProofLen)
    } else if has_zero_prefix(proof) {
        Err(Error::ZeroProof)
    } else {
        Ok(())
    }
}

/// Structural validation of a proof blob: a pure predicate over the bytes,
/// with no side effects.
pub fn validate_proof_structure(proof: &Vec<u8>) -> (result: Result<(), Error>)
    ensures
        result == structure_check(proof@),
{
    let proof_len: usize = proof.len();

    if proof_len == 0 {
        return Err(Error::EmptyProof);
    }

    if proof_len < MIN_PROOF_LEN {
        return Err(Error::BadProofLen);
    }

    let scan_len: usize = if proof_len < ZERO_SCAN_LEN { proof_len } else { ZERO_SCAN_LEN };
    let mut i: usize = 0;
    while i < scan_len
        invariant
            i <= scan_len,
            scan_len as int == zero_scan_len(proof@),
            scan_len <= proof@.len(),
            proof@.len() >= MIN_PROOF_LEN as int,
            forall|j: int| 0 <= j < i ==> proof@[j] == 0,
        decreases scan_len - i,
    {
        if proof[i] != 0 {
            assert(proof@[i as int] != 0);
            assert(!has_zero_prefix(proof@));
            return Ok(());
        }
        i += 1;
    }

    Err(Error::ZeroProof)
}

} // verus!
