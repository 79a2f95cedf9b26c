//! The catalog of verification-time proofs.

use vstd::prelude::*;

use crate::lookup::{
    cache_file_name, content_id_in, identifier_from_derivation, is_lookup_outcome,
    spec_file_name, spec_parameter_key, spec_tree_shape, tree_shape, ParameterTable,
};
use crate::proving::{derive_post_identifier, post_cache_identifier, single_partition_proof_bytes};
use crate::types::{
    ParameterKind, PoStConfig, RegistryError, SectorSize, Version, POST_CHALLENGED_NODES,
    POST_CHALLENGE_COUNT, POST_PARTITIONS, SECTOR_SIZE_16_MIB, SECTOR_SIZE_1_GIB,
    SECTOR_SIZE_256_MIB, SECTOR_SIZE_32_GIB, SECTOR_SIZE_ONE_KIB,
};

verus! {

/// Available verification-time proofs.
#[derive(Clone, Copy, Debug, PartialEq, Eq, Hash, Structural)]
pub enum RegisteredPoStProof {
    StackedDrg1KiBV1,
    StackedDrg16MiBV1,
    StackedDrg256MiBV1,
    StackedDrg1GiBV1,
    StackedDrg32GiBV1,
}

/// The circuit identifier of a verification configuration: the one that
/// the proving system derives for the tree shape of the sector size and
/// for the configuration's fields.
pub open spec fn spec_post_identifier(config: PoStConfig) -> Seq<char> {
    post_cache_identifier(
        spec_tree_shape(config.sector_size.0),
        config.sector_size.0,
        config.challenge_count,
        config.challenged_nodes,
        config.priority,
    )
}

/// Whether `r` is the outcome of looking a file of a verification
/// configuration's circuit up in a parameter table.
pub open spec fn is_post_content_id_outcome(
    r: Result<String, RegistryError>,
    config: PoStConfig,
    table: ParameterTable,
    kind: ParameterKind,
) -> bool {
    let id = spec_post_identifier(config);
    is_lookup_outcome(r, id, kind, table.spec_get(spec_parameter_key(id, kind)))
}

/// Derives the circuit identifier of a verification configuration. Every
/// configuration has one.
pub fn post_identifier(config: &PoStConfig) -> (r: Result<String, RegistryError>)
    ensures
        r matches Ok(id) && id@ == spec_post_identifier(*config),
{
    let sector_size = config.sector_size.0;
    identifier_from_derivation(
        derive_post_identifier(
            tree_shape(sector_size),
            sector_size,
            config.challenge_count,
            config.challenged_nodes,
            config.priority,
        ),
    )
}

/// The name of a file of a verification configuration's circuit in the
/// cache directory.
pub fn post_cache_file_name(config: &PoStConfig, kind: ParameterKind) -> (r: Result<
    String,
    RegistryError,
>)
    ensures
        r matches Ok(name) && name@ == spec_file_name(spec_post_identifier(*config), kind),
{
    match post_identifier(config) {
        Ok(id) => Ok(cache_file_name(id.as_str(), kind)),
        Err(e) => Err(e),
    }
}

/// Looks up the content identifier of a file of a verification
/// configuration's circuit in a parameter table.
pub fn post_content_id(config: &PoStConfig, table: &ParameterTable, kind: ParameterKind) -> (r:
    Result<String, RegistryError>)
    ensures
        is_post_content_id_outcome(r, *config, *table, kind),
{
    match post_identifier(config) {
        Ok(id) => content_id_in(table, id.as_str(), kind),
        Err(e) => Err(e),
    }
}

impl RegisteredPoStProof {
    /// The version of a proof.
    pub open spec fn spec_version(self) -> Version {
        Version::V1
    }

    /// The sector size of a proof, in bytes.
    pub open spec fn spec_sector_size(self) -> u64 {
        match self {
            RegisteredPoStProof::StackedDrg1KiBV1 => SECTOR_SIZE_ONE_KIB,
            RegisteredPoStProof::StackedDrg16MiBV1 => SECTOR_SIZE_16_MIB,
            RegisteredPoStProof::StackedDrg256MiBV1 => SECTOR_SIZE_256_MIB,
            RegisteredPoStProof::StackedDrg1GiBV1 => SECTOR_SIZE_1_GIB,
            RegisteredPoStProof::StackedDrg32GiBV1 => SECTOR_SIZE_32_GIB,
        }
    }

    /// The configuration of a proof.
    pub open spec fn spec_config(self) -> PoStConfig {
        PoStConfig {
            sector_size: SectorSize(self.spec_sector_size()),
            challenge_count: POST_CHALLENGE_COUNT,
            challenged_nodes: POST_CHALLENGED_NODES,
            priority: true,
        }
    }

    /// The circuit identifier of a proof.
    pub open spec fn spec_identifier(self) -> Seq<char> {
        spec_post_identifier(self.spec_config())
    }

    /// Return the version for this proof.
    pub fn version(self) -> (v: Version)
        ensures
            v == self.spec_version(),
            v == Version::V1,
    {
        match self {
            RegisteredPoStProof::StackedDrg1KiBV1
            | RegisteredPoStProof::StackedDrg16MiBV1
            | RegisteredPoStProof::StackedDrg256MiBV1
            | RegisteredPoStProof::StackedDrg1GiBV1
            | RegisteredPoStProof::StackedDrg32GiBV1 => Version::V1,
        }
    }

    /// Return the sector size for this proof.
    pub fn sector_size(self) -> (size: SectorSize)
        ensures
            size.0 == self.spec_sector_size(),
            size.0 > 0,
    {
        let size = match self {
            RegisteredPoStProof::StackedDrg1KiBV1 => SECTOR_SIZE_ONE_KIB,
            RegisteredPoStProof::StackedDrg16MiBV1 => SECTOR_SIZE_16_MIB,
            RegisteredPoStProof::StackedDrg256MiBV1 => SECTOR_SIZE_256_MIB,
            RegisteredPoStProof::StackedDrg1GiBV1 => SECTOR_SIZE_1_GIB,
            RegisteredPoStProof::StackedDrg32GiBV1 => SECTOR_SIZE_32_GIB,
        };
        SectorSize(size)
    }

    /// Return the number of partitions for this proof.
    pub fn partitions(self) -> (count: u8)
        ensures
            count == 1,
    {
        match self {
            RegisteredPoStProof::StackedDrg1KiBV1
            | RegisteredPoStProof::StackedDrg16MiBV1
            | RegisteredPoStProof::StackedDrg256MiBV1
            | RegisteredPoStProof::StackedDrg1GiBV1
            | RegisteredPoStProof::StackedDrg32GiBV1 => POST_PARTITIONS,
        }
    }

    /// The byte length of the proof of a single partition.
    pub fn single_partition_proof_len(self) -> (len: usize)
        ensures
            len == 192,
    {
        match self {
            RegisteredPoStProof::StackedDrg1KiBV1
            | RegisteredPoStProof::StackedDrg16MiBV1
            | RegisteredPoStProof::StackedDrg256MiBV1
            | RegisteredPoStProof::StackedDrg1GiBV1
            | RegisteredPoStProof::StackedDrg32GiBV1 => single_partition_proof_bytes(),
        }
    }

    /// The configuration of this proof.
    pub fn as_v1_config(self) -> (config: PoStConfig)
        requires
            self.spec_version() == Version::V1,
        ensures
            config == self.spec_config(),
            config.wf(),
    {
        match self {
            RegisteredPoStProof::StackedDrg1KiBV1
            | RegisteredPoStProof::StackedDrg16MiBV1
            | RegisteredPoStProof::StackedDrg256MiBV1
            | RegisteredPoStProof::StackedDrg1GiBV1
            | RegisteredPoStProof::StackedDrg32GiBV1 => PoStConfig {
                sector_size: self.sector_size(),
                challenge_count: POST_CHALLENGE_COUNT,
                challenged_nodes: POST_CHALLENGED_NODES,
                priority: true,
            },
        }
    }

    /// Returns the circuit identifier.
    pub fn circuit_identifier(self) -> (r: Result<String, RegistryError>)
        ensures
            r matches Ok(id) && id@ == self.spec_identifier(),
    {
        match self.version() {
            Version::V1 => post_identifier(&self.as_v1_config()),
        }
    }

    /// The name of the verifying key of this proof's circuit in the cache
    /// directory.
    pub fn cache_verifying_key_path(self) -> (r: Result<String, RegistryError>)
        ensures
            r matches Ok(name) && name@ == spec_file_name(
                self.spec_identifier(),
                ParameterKind::VerifyingKey,
            ),
    {
        match self.version() {
            Version::V1 => post_cache_file_name(
                &self.as_v1_config(),
                ParameterKind::VerifyingKey,
            ),
        }
    }

    /// The name of the parameters of this proof's circuit in the cache
    /// directory.
    pub fn cache_params_path(self) -> (r: Result<String, RegistryError>)
        ensures
            r matches Ok(name) && name@ == spec_file_name(
                self.spec_identifier(),
                ParameterKind::Parameters,
            ),
    {
        match self.version() {
            Version::V1 => post_cache_file_name(&self.as_v1_config(), ParameterKind::Parameters),
        }
    }

    /// The content identifier, in the given parameter table, of the
    /// verifying key of this proof's circuit.
    pub fn verifying_key_cid(self, parameters: &ParameterTable) -> (r: Result<
        String,
        RegistryError,
    >)
        ensures
            is_post_content_id_outcome(
                r,
                self.spec_config(),
                *parameters,
                ParameterKind::VerifyingKey,
            ),
    {
        match self.version() {
            Version::V1 => post_content_id(
                &self.as_v1_config(),
                parameters,
                ParameterKind::VerifyingKey,
            ),
        }
    }

    /// The content identifier, in the given parameter table, of the
    /// parameters of this proof's circuit.
    pub fn params_cid(self, parameters: &ParameterTable) -> (r: Result<String, RegistryError>)
        ensures
            is_post_content_id_outcome(
                r,
                self.spec_config(),
                *parameters,
                ParameterKind::Parameters,
            ),
    {
        match self.version() {
            Version::V1 => post_content_id(
                &self.as_v1_config(),
                parameters,
                ParameterKind::Parameters,
            ),
        }
    }
}

} // verus!
