//! A registry of proof parameters: two closed catalogs of supported proofs,
//! and for each entry its configuration, its circuit identifier, the cache
//! file names of its files and their content identifiers.

pub mod laws;
pub mod lookup;
pub mod post;
pub mod proving;
pub mod seal;
pub mod tags;
pub mod types;

pub use lookup::{ParameterEntry, ParameterTable};
pub use types::{
    ParameterKind, PoRepConfig, PoRepProofPartitions, PoStConfig, RegistryError, SectorSize,
    Version,
};
pub use post::RegisteredPoStProof;
pub use seal::RegisteredSealProof;
