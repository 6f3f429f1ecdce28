use vstd::prelude::*;

verus! {

/// The reasons a price-proof verification attempt can fail. Every failure is
/// terminal and is reported to the caller unmodified.
#[derive(Clone, Copy, Debug, PartialEq, Eq, Structural)]
pub enum Error {
    /// The proof blob has zero length.
    EmptyProof,
    /// The proof blob is shorter than the smallest accepted proof.
    BadProofLen,
    /// The inspected leading bytes of the proof blob are all zero.
    ZeroProof,
    /// The public-input sequence is empty.
    NoPublicInput,
    /// The rescaled expected price differs from the disclosed price.
    PriceMismatch,
    /// The proof's digest is already recorded in the replay registry.
    ProofAlreadyUsed,
}

} // verus!
