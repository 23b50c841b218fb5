//! Building, proving and signing the Sapling part of a transaction.

pub mod assembly;
pub mod builder;
pub mod building_laws;
pub mod bundle;
pub mod error;
pub mod in_progress;
pub mod keys;
pub mod laws;
pub mod note;
pub mod output_info;
pub mod point;
pub mod prover;
pub mod proving;
pub mod proving_laws;
pub mod random;
pub mod sapling_sighash_versioning;
pub mod scalar;
pub mod signature;
pub mod signature_with_sighash_info;
pub mod signing;
pub mod signing_laws;
pub mod spend_info;
pub mod sums;
pub mod transaction_laws;
pub mod value;
