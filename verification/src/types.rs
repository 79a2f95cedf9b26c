//! Plain data shared by the two catalogs: versions, sector sizes,
//! configuration records and the error taxonomy.

use vstd::prelude::*;

verus! {

/// Sector size of the smallest sector class, in bytes.
pub const SECTOR_SIZE_ONE_KIB: u64 = 1024;

/// Sector size of the 16 MiB class, in bytes.
pub const SECTOR_SIZE_16_MIB: u64 = 16777216;

/// Sector size of the 256 MiB class, in bytes.
pub const SECTOR_SIZE_256_MIB: u64 = 268435456;

/// Sector size of the 1 GiB class, in bytes.
pub const SECTOR_SIZE_1_GIB: u64 = 1073741824;

/// Sector size of the 32 GiB class, in bytes.
pub const SECTOR_SIZE_32_GIB: u64 = 34359738368;

/// Number of challenges of every verification-time proof.
pub const POST_CHALLENGE_COUNT: usize = 40;

/// Number of nodes opened per challenge of every verification-time proof.
pub const POST_CHALLENGED_NODES: usize = 1;

/// Partition count of every verification-time proof.
pub const POST_PARTITIONS: u8 = 1;

/// Version of the proof system that a catalog entry belongs to.
///
/// Only one version exists today. Operations dispatch on the version so that
/// a later one adds a branch of its own and leaves the existing one alone.
#[derive(Clone, Copy, Debug, PartialEq, Eq, Hash, Structural)]
pub enum Version {
    V1,
}

/// A sector size in bytes.
#[derive(Clone, Copy, Debug, PartialEq, Eq, Hash, Structural)]
pub struct SectorSize(pub u64);

/// The number of partitions of a seal proof.
#[derive(Clone, Copy, Debug, PartialEq, Eq, Hash, Structural)]
pub struct PoRepProofPartitions(pub u8);

/// Configuration of a seal proof.
#[derive(Clone, Copy, Debug, PartialEq, Eq, Hash, Structural)]
pub struct PoRepConfig {
    pub sector_size: SectorSize,
    pub partitions: PoRepProofPartitions,
}

impl PoRepConfig {
    /// A seal configuration is well formed when its sector is not empty and
    /// it has at least one partition.
    pub open spec fn wf(self) -> bool {
        self.sector_size.0 > 0 && self.partitions.0 > 0
    }
}

/// Configuration of a verification-time proof.
#[derive(Clone, Copy, Debug, PartialEq, Eq, Hash, Structural)]
pub struct PoStConfig {
    pub sector_size: SectorSize,
    pub challenge_count: usize,
    pub challenged_nodes: usize,
    pub priority: bool,
}

impl PoStConfig {
    /// A verification configuration is well formed when its sector is not
    /// empty and both challenge parameters are positive.
    pub open spec fn wf(self) -> bool {
        self.sector_size.0 > 0 && self.challenge_count > 0 && self.challenged_nodes > 0
    }
}

/// The two files that belong to a compiled circuit.
#[derive(Clone, Copy, Debug, PartialEq, Eq, Hash, Structural)]
pub enum ParameterKind {
    VerifyingKey,
    Parameters,
}

/// Why a catalog entry could not be resolved.
#[derive(Clone, Debug, PartialEq, Eq)]
pub enum RegistryError {
    /// The partition table has no usable count for this sector size: the
    /// table and the catalog are out of step.
    ConfigurationDefect { sector_size: u64 },
    /// The proving system has no circuit shape for this sector size.
    UnsupportedSectorSize { sector_size: u64 },
    /// The proving system failed while it derived the circuit identifier.
    IdentifierUnavailable,
    /// The parameter table has no entry for this circuit and file kind.
    MissingParameters { identifier: String, kind: ParameterKind },
}

impl RegistryError {
    /// A one-line description, for logs and diagnostics.
    pub fn message(&self) -> (text: String)
        ensures
            text@ == self.spec_message(),
    {
        match self {
            RegistryError::ConfigurationDefect { .. } => String::from_str(
                "invalid sector size",
            ),
            RegistryError::UnsupportedSectorSize { .. } => String::from_str(
                "unsupported sector size",
            ),
            RegistryError::IdentifierUnavailable => String::from_str(
                "circuit identifier unavailable",
            ),
            RegistryError::MissingParameters { identifier, .. } => {
                String::from_str("missing params for ").concat(identifier.as_str())
            },
        }
    }

    /// What `message` renders.
    pub open spec fn spec_message(&self) -> Seq<char> {
        match self {
            RegistryError::ConfigurationDefect { .. } => "invalid sector size"@,
            RegistryError::UnsupportedSectorSize { .. } => "unsupported sector size"@,
            RegistryError::IdentifierUnavailable => "circuit identifier unavailable"@,
            RegistryError::MissingParameters { identifier, .. } => "missing params for "@
                + identifier@,
        }
    }
}

} // verus!
