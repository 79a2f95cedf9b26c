//! The catalog of seal proofs.

use vstd::prelude::*;

use crate::lookup::{
    cache_file_name, content_id_in, identifier_from_derivation, is_lookup_outcome,
    partition_entry, partitions_from_entry, spec_file_name, spec_parameter_key,
    spec_partition_entry, spec_partitions_from_entry, spec_tree_shape, tree_shape,
    ParameterTable,
};
use crate::proving::{
    derive_seal_identifier_base, derive_seal_identifier_sub2, derive_seal_identifier_sub8,
    derive_seal_identifier_top2, porep_partitions_snapshot, seal_cache_identifier,
    single_partition_proof_bytes, TreeShape,
};
use crate::types::{
    ParameterKind, PoRepConfig, PoRepProofPartitions, RegistryError, SectorSize, Version,
    SECTOR_SIZE_16_MIB, SECTOR_SIZE_1_GIB, SECTOR_SIZE_256_MIB, SECTOR_SIZE_32_GIB,
    SECTOR_SIZE_ONE_KIB,
};
use std::collections::HashMap;

verus! {

/// Available seal proofs.
#[derive(Clone, Copy, Debug, PartialEq, Eq, Hash, Structural)]
pub enum RegisteredSealProof {
    StackedDrg1KiBV1,
    StackedDrg16MiBV1,
    StackedDrg256MiBV1,
    StackedDrg1GiBV1,
    StackedDrg32GiBV1,
}

/// The number of layers of the circuits of a sector size: eleven from
/// 32 GiB on, two below.
pub open spec fn spec_layers(sector_size: u64) -> usize {
    if sector_size >= SECTOR_SIZE_32_GIB {
        11
    } else {
        2
    }
}

/// The number of challenges that a seal proof of a sector size answers in
/// all: 176 from 32 GiB on, two below.
pub open spec fn spec_minimum_challenges(sector_size: u64) -> usize {
    if sector_size >= SECTOR_SIZE_32_GIB {
        176
    } else {
        2
    }
}

/// The number of challenges of one partition: the challenges of the proof
/// shared out among its partitions, rounded up.
pub open spec fn spec_challenges_per_partition(sector_size: u64, partitions: u8) -> usize {
    ((spec_minimum_challenges(sector_size) - 1) / (partitions as int) + 1) as usize
}

/// The number of nodes of a sector: one for every 32 bytes.
pub open spec fn spec_nodes(sector_size: u64) -> usize {
    (sector_size / 32) as usize
}

/// Why no circuit can be set up for a seal configuration, if none can: the
/// sector is empty, is no whole number of nodes or has more nodes than the
/// proving system takes, or there is no partition.
pub open spec fn spec_seal_failure(config: PoRepConfig) -> Option<RegistryError> {
    let sector_size = config.sector_size.0;
    if sector_size == 0 || sector_size % 32 != 0 || sector_size / 32 > u32::MAX {
        Some(RegistryError::UnsupportedSectorSize { sector_size })
    } else if config.partitions.0 == 0 {
        Some(RegistryError::ConfigurationDefect { sector_size })
    } else {
        None
    }
}

/// The circuit identifier of a seal configuration: the one that the
/// proving system derives for the tree shape, the nodes and the layers of
/// the sector size and for the challenges of one partition.
pub open spec fn spec_seal_identifier(config: PoRepConfig) -> Seq<char> {
    let sector_size = config.sector_size.0;
    seal_cache_identifier(
        spec_tree_shape(sector_size),
        spec_nodes(sector_size),
        spec_layers(sector_size),
        spec_challenges_per_partition(sector_size, config.partitions.0),
    )
}

/// Whether `r` is the circuit identifier of a seal configuration, or the
/// error of a configuration that has none.
pub open spec fn is_seal_identifier_outcome(
    r: Result<String, RegistryError>,
    config: PoRepConfig,
) -> bool {
    match spec_seal_failure(config) {
        Some(e) => r matches Err(found) && found == e,
        None => r matches Ok(id) && id@ == spec_seal_identifier(config),
    }
}

/// Whether `r` is the cache file name of a file of a seal configuration's
/// circuit, or the error of a configuration that has no circuit.
pub open spec fn is_seal_file_name_outcome(
    r: Result<String, RegistryError>,
    config: PoRepConfig,
    kind: ParameterKind,
) -> bool {
    match spec_seal_failure(config) {
        Some(e) => r matches Err(found) && found == e,
        None => r matches Ok(name) && name@ == spec_file_name(spec_seal_identifier(config), kind),
    }
}

/// Whether `r` is the outcome of looking a file of a seal configuration's
/// circuit up in a parameter table, or the error of a configuration that
/// has no circuit.
pub open spec fn is_seal_content_id_outcome(
    r: Result<String, RegistryError>,
    config: PoRepConfig,
    table: ParameterTable,
    kind: ParameterKind,
) -> bool {
    let id = spec_seal_identifier(config);
    match spec_seal_failure(config) {
        Some(e) => r matches Err(found) && found == e,
        None => is_lookup_outcome(r, id, kind, table.spec_get(spec_parameter_key(id, kind))),
    }
}

/// Derives the circuit identifier of a seal configuration.
pub fn seal_identifier(config: &PoRepConfig) -> (r: Result<String, RegistryError>)
    ensures
        is_seal_identifier_outcome(r, *config),
{
    let sector_size = config.sector_size.0;
    let partitions = config.partitions.0;
    if sector_size == 0 || sector_size % 32 != 0 || sector_size / 32 > 0xffff_ffff {
        return Err(RegistryError::UnsupportedSectorSize { sector_size });
    }
    if partitions == 0 {
        return Err(RegistryError::ConfigurationDefect { sector_size });
    }
    let production = sector_size >= SECTOR_SIZE_32_GIB;
    let nodes: usize = (sector_size / 32) as usize;
    let layers: usize = if production {
        11
    } else {
        2
    };
    let minimum: usize = if production {
        176
    } else {
        2
    };
    let challenges: usize = (minimum - 1) / (partitions as usize) + 1;
    let derived = match tree_shape(sector_size) {
        TreeShape::Base => derive_seal_identifier_base(nodes, layers, challenges),
        TreeShape::Sub2 => derive_seal_identifier_sub2(nodes, layers, challenges),
        TreeShape::Sub8 => derive_seal_identifier_sub8(nodes, layers, challenges),
        TreeShape::Top2 => derive_seal_identifier_top2(nodes, layers, challenges),
    };
    identifier_from_derivation(derived)
}

/// The name of a file of a seal configuration's circuit in the cache
/// directory.
pub fn seal_cache_file_name(config: &PoRepConfig, kind: ParameterKind) -> (r: Result<
    String,
    RegistryError,
>)
    ensures
        is_seal_file_name_outcome(r, *config, kind),
{
    match seal_identifier(config) {
        Ok(id) => Ok(cache_file_name(id.as_str(), kind)),
        Err(e) => Err(e),
    }
}

/// Looks up the content identifier of a file of a seal configuration's
/// circuit in a parameter table.
pub fn seal_content_id(config: &PoRepConfig, table: &ParameterTable, kind: ParameterKind) -> (r:
    Result<String, RegistryError>)
    ensures
        is_seal_content_id_outcome(r, *config, *table, kind),
{
    match seal_identifier(config) {
        Ok(id) => content_id_in(table, id.as_str(), kind),
        Err(e) => Err(e),
    }
}

impl RegisteredSealProof {
    /// The version of a proof.
    pub open spec fn spec_version(self) -> Version {
        Version::V1
    }

    /// The sector size of a proof, in bytes.
    pub open spec fn spec_sector_size(self) -> u64 {
        match self {
            RegisteredSealProof::StackedDrg1KiBV1 => SECTOR_SIZE_ONE_KIB,
            RegisteredSealProof::StackedDrg16MiBV1 => SECTOR_SIZE_16_MIB,
            RegisteredSealProof::StackedDrg256MiBV1 => SECTOR_SIZE_256_MIB,
            RegisteredSealProof::StackedDrg1GiBV1 => SECTOR_SIZE_1_GIB,
            RegisteredSealProof::StackedDrg32GiBV1 => SECTOR_SIZE_32_GIB,
        }
    }

    /// The error of a proof whose sector size the partition table does not
    /// answer for.
    pub open spec fn spec_defect(self) -> RegistryError {
        RegistryError::ConfigurationDefect { sector_size: self.spec_sector_size() }
    }

    /// The partition count of a proof under a partition table: the positive
    /// count that the table holds for the proof's sector size.
    pub open spec fn spec_partitions(self, table: Map<u64, u8>) -> Result<u8, RegistryError> {
        match spec_partitions_from_entry(spec_partition_entry(table, self.spec_sector_size())) {
            Some(count) => Ok(count),
            None => Err(self.spec_defect()),
        }
    }

    /// The configuration of a proof under a partition table: the proof's
    /// sector size, with its partition count under that table.
    pub open spec fn spec_config(self, table: Map<u64, u8>) -> Result<PoRepConfig, RegistryError> {
        match self.spec_partitions(table) {
            Ok(count) => Ok(
                PoRepConfig {
                    sector_size: SectorSize(self.spec_sector_size()),
                    partitions: PoRepProofPartitions(count),
                },
            ),
            Err(e) => Err(e),
        }
    }

    /// Whether `r` is the circuit identifier of a proof under a partition
    /// table: the configuration defect where the table has no positive
    /// count for the proof's sector size, and else the identifier of the
    /// proof's configuration.
    pub open spec fn is_identifier_outcome(
        self,
        r: Result<String, RegistryError>,
        table: Map<u64, u8>,
    ) -> bool {
        match self.spec_config(table) {
            Ok(config) => r matches Ok(id) && id@ == spec_seal_identifier(config),
            Err(e) => r matches Err(found) && found == e,
        }
    }

    /// Whether `r` is the cache file name of a file of a proof's circuit
    /// under a partition table.
    pub open spec fn is_file_name_outcome(
        self,
        r: Result<String, RegistryError>,
        table: Map<u64, u8>,
        kind: ParameterKind,
    ) -> bool {
        match self.spec_config(table) {
            Ok(config) => r matches Ok(name) && name@ == spec_file_name(
                spec_seal_identifier(config),
                kind,
            ),
            Err(e) => r matches Err(found) && found == e,
        }
    }

    /// Whether `r` is the outcome of looking a file of a proof's circuit up
    /// in a parameter table, under a partition table.
    pub open spec fn is_content_id_outcome(
        self,
        r: Result<String, RegistryError>,
        table: Map<u64, u8>,
        parameters: ParameterTable,
        kind: ParameterKind,
    ) -> bool {
        match self.spec_config(table) {
            Ok(config) => {
                let id = spec_seal_identifier(config);
                is_lookup_outcome(r, id, kind, parameters.spec_get(spec_parameter_key(id, kind)))
            },
            Err(e) => r matches Err(found) && found == e,
        }
    }

    /// Every configuration of a proof has a circuit.
    pub proof fn lemma_config_has_circuit(self, table: Map<u64, u8>)
        ensures
            self.spec_config(table) matches Ok(config) ==> spec_seal_failure(config).is_none()
                && config.wf() && config.sector_size.0 == self.spec_sector_size(),
    {
    }

    /// Return the version for this proof.
    pub fn version(self) -> (v: Version)
        ensures
            v == self.spec_version(),
            v == Version::V1,
    {
        match self {
            RegisteredSealProof::StackedDrg1KiBV1
            | RegisteredSealProof::StackedDrg16MiBV1
            | RegisteredSealProof::StackedDrg256MiBV1
            | RegisteredSealProof::StackedDrg1GiBV1
            | RegisteredSealProof::StackedDrg32GiBV1 => Version::V1,
        }
    }

    /// Return the sector size for this proof.
    pub fn sector_size(self) -> (size: SectorSize)
        ensures
            size.0 == self.spec_sector_size(),
            size.0 > 0,
    {
        let size = match self {
            RegisteredSealProof::StackedDrg1KiBV1 => SECTOR_SIZE_ONE_KIB,
            RegisteredSealProof::StackedDrg16MiBV1 => SECTOR_SIZE_16_MIB,
            RegisteredSealProof::StackedDrg256MiBV1 => SECTOR_SIZE_256_MIB,
            RegisteredSealProof::StackedDrg1GiBV1 => SECTOR_SIZE_1_GIB,
            RegisteredSealProof::StackedDrg32GiBV1 => SECTOR_SIZE_32_GIB,
        };
        SectorSize(size)
    }

    /// The partition count of this proof, given the partition table's answer
    /// for its sector size.
    pub fn partitions_from(self, entry: Option<u8>) -> (r: Result<u8, RegistryError>)
        ensures
            match spec_partitions_from_entry(entry) {
                Some(count) => r == Ok::<u8, RegistryError>(count),
                None => r == Err::<u8, RegistryError>(self.spec_defect()),
            },
    {
        partitions_from_entry(self.sector_size().0, entry)
    }

    /// The partition count of this proof under the given partition table:
    /// the table's entry for this proof's sector size.
    pub fn partitions_in(self, table: &HashMap<u64, u8>) -> (r: Result<u8, RegistryError>)
        ensures
            r == self.spec_partitions(table@),
    {
        let entry = partition_entry(table, self.sector_size().0);
        self.partitions_from(entry)
    }

    /// Return the number of partitions for this proof: its partition count
    /// under the proving system's partition table as it stands at the call.
    pub fn partitions(self) -> (r: Result<u8, RegistryError>)
        ensures
            exists|table: Map<u64, u8>| r == #[trigger] self.spec_partitions(table),
            r matches Ok(count) ==> count > 0,
            r matches Err(e) ==> e == self.spec_defect(),
    {
        let table = porep_partitions_snapshot();
        self.partitions_in(&table)
    }

    /// The byte length of the proof of a single partition.
    pub fn single_partition_proof_len(self) -> (len: usize)
        ensures
            len == 192,
    {
        match self {
            RegisteredSealProof::StackedDrg1KiBV1
            | RegisteredSealProof::StackedDrg16MiBV1
            | RegisteredSealProof::StackedDrg256MiBV1
            | RegisteredSealProof::StackedDrg1GiBV1
            | RegisteredSealProof::StackedDrg32GiBV1 => single_partition_proof_bytes(),
        }
    }

    /// The configuration of this proof under the given partition table.
    pub fn config_in(self, table: &HashMap<u64, u8>) -> (r: Result<PoRepConfig, RegistryError>)
        requires
            self.spec_version() == Version::V1,
        ensures
            r == self.spec_config(table@),
            r matches Ok(config) ==> config.wf(),
    {
        match self.partitions_in(table) {
            Ok(count) => Ok(
                PoRepConfig {
                    sector_size: self.sector_size(),
                    partitions: PoRepProofPartitions(count),
                },
            ),
            Err(e) => Err(e),
        }
    }

    /// The configuration of this proof under the proving system's partition
    /// table as it stands at the call.
    pub fn as_v1_config(self) -> (r: Result<PoRepConfig, RegistryError>)
        requires
            self.spec_version() == Version::V1,
        ensures
            exists|table: Map<u64, u8>| r == #[trigger] self.spec_config(table),
            r matches Ok(config) ==> config.wf() && config.sector_size.0
                == self.spec_sector_size(),
            r matches Err(e) ==> e == self.spec_defect(),
    {
        let table = porep_partitions_snapshot();
        self.config_in(&table)
    }

    /// The circuit identifier of this proof under the given partition table.
    pub fn circuit_identifier_in(self, table: &HashMap<u64, u8>) -> (r: Result<
        String,
        RegistryError,
    >)
        ensures
            self.is_identifier_outcome(r, table@),
    {
        proof {
            self.lemma_config_has_circuit(table@);
        }
        match self.version() {
            Version::V1 => match self.config_in(table) {
                Ok(config) => seal_identifier(&config),
                Err(e) => Err(e),
            },
        }
    }

    /// Returns the circuit identifier of this proof under the proving
    /// system's partition table as it stands at the call.
    pub fn circuit_identifier(self) -> (r: Result<String, RegistryError>)
        ensures
            exists|table: Map<u64, u8>| #[trigger] self.is_identifier_outcome(r, table),
            r matches Err(e) ==> e == self.spec_defect(),
    {
        let table = porep_partitions_snapshot();
        let r = self.circuit_identifier_in(&table);
        proof {
            self.lemma_config_has_circuit(table@);
        }
        r
    }

    /// The name of the file of the given kind of this proof's circuit in
    /// the cache directory, under the given partition table.
    pub fn cache_file_name_in(self, table: &HashMap<u64, u8>, kind: ParameterKind) -> (r: Result<
        String,
        RegistryError,
    >)
        ensures
            self.is_file_name_outcome(r, table@, kind),
    {
        proof {
            self.lemma_config_has_circuit(table@);
        }
        match self.version() {
            Version::V1 => match self.config_in(table) {
                Ok(config) => seal_cache_file_name(&config, kind),
                Err(e) => Err(e),
            },
        }
    }

    /// The name of the file of the given kind of this proof's circuit in
    /// the cache directory, under the proving system's partition table as
    /// it stands at the call.
    pub fn cache_file_name(self, kind: ParameterKind) -> (r: Result<String, RegistryError>)
        ensures
            exists|table: Map<u64, u8>| #[trigger] self.is_file_name_outcome(r, table, kind),
            r matches Err(e) ==> e == self.spec_defect(),
    {
        let table = porep_partitions_snapshot();
        let r = self.cache_file_name_in(&table, kind);
        proof {
            self.lemma_config_has_circuit(table@);
        }
        r
    }

    /// The name of the verifying key of this proof's circuit in the cache
    /// directory.
    pub fn cache_verifying_key_path(self) -> (r: Result<String, RegistryError>)
        ensures
            exists|table: Map<u64, u8>| #[trigger]
                self.is_file_name_outcome(r, table, ParameterKind::VerifyingKey),
            r matches Err(e) ==> e == self.spec_defect(),
    {
        self.cache_file_name(ParameterKind::VerifyingKey)
    }

    /// The name of the parameters of this proof's circuit in the cache
    /// directory.
    pub fn cache_params_path(self) -> (r: Result<String, RegistryError>)
        ensures
            exists|table: Map<u64, u8>| #[trigger]
                self.is_file_name_outcome(r, table, ParameterKind::Parameters),
            r matches Err(e) ==> e == self.spec_defect(),
    {
        self.cache_file_name(ParameterKind::Parameters)
    }

    /// The content identifier, in the given parameter table, of the file of
    /// the given kind of this proof's circuit, under the given partition
    /// table.
    pub fn content_id_in(
        self,
        table: &HashMap<u64, u8>,
        parameters: &ParameterTable,
        kind: ParameterKind,
    ) -> (r: Result<String, RegistryError>)
        ensures
            self.is_content_id_outcome(r, table@, *parameters, kind),
    {
        proof {
            self.lemma_config_has_circuit(table@);
        }
        match self.version() {
            Version::V1 => match self.config_in(table) {
                Ok(config) => seal_content_id(&config, parameters, kind),
                Err(e) => Err(e),
            },
        }
    }

    /// The content identifier, in the given parameter table, of the file of
    /// the given kind of this proof's circuit, under the proving system's
    /// partition table as it stands at the call.
    pub fn content_id(self, parameters: &ParameterTable, kind: ParameterKind) -> (r: Result<
        String,
        RegistryError,
    >)
        ensures
            exists|table: Map<u64, u8>| #[trigger]
                self.is_content_id_outcome(r, table, *parameters, kind),
    {
        let table = porep_partitions_snapshot();
        self.content_id_in(&table, parameters, kind)
    }

    /// The content identifier, in the given parameter table, of the
    /// verifying key of this proof's circuit.
    pub fn verifying_key_cid(self, parameters: &ParameterTable) -> (r: Result<
        String,
        RegistryError,
    >)
        ensures
            exists|table: Map<u64, u8>| #[trigger]
                self.is_content_id_outcome(r, table, *parameters, ParameterKind::VerifyingKey),
    {
        self.content_id(parameters, ParameterKind::VerifyingKey)
    }

    /// The content identifier, in the given parameter table, of the
    /// parameters of this proof's circuit.
    pub fn params_cid(self, parameters: &ParameterTable) -> (r: Result<String, RegistryError>)
        ensures
            exists|table: Map<u64, u8>| #[trigger]
                self.is_content_id_outcome(r, table, *parameters, ParameterKind::Parameters),
    {
        self.content_id(parameters, ParameterKind::Parameters)
    }
}

} // verus!
