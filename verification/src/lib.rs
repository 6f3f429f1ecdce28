//! On-chain trust gate for externally produced zero-knowledge price proofs.
//!
//! A proof blob is admitted only if it has a plausible shape, its disclosed
//! average price matches the caller's expected price after fixed-point
//! rescaling, and its digest has never been accepted before. Accepted digests
//! are kept in a durable anti-replay registry together with the timestamp of
//! first acceptance.

pub mod error;
pub mod hashing;
pub mod orchestrator;
pub mod price;
pub mod registry;
pub mod structure;

pub use error::Error;
pub use orchestrator::verify_price_proof;
pub use registry::ReplayRegistry;
pub use registry::get_proof_usage_timestamp;
pub use registry::is_proof_used;
pub use structure::validate_proof_structure;
