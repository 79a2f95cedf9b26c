//! What holds of the registry as a whole, stated over the spec functions that
//! the contracts of its functions use.

use vstd::prelude::*;

use crate::lookup::{
    is_lookup_outcome, spec_file_name, spec_parameter_key, spec_partition_entry, spec_suffix,
    ParameterTable,
};
use crate::post::{is_post_content_id_outcome, RegisteredPoStProof};
use crate::seal::{
    is_seal_identifier_outcome, spec_seal_failure, spec_seal_identifier, RegisteredSealProof,
};
use crate::types::{
    ParameterKind, PoRepConfig, RegistryError, Version, POST_PARTITIONS,
};

verus! {

/// Every seal proof has version one and a sector that is not empty, and
/// every partition count that a partition table gives it is positive.
pub proof fn law_seal_catalog(seal: RegisteredSealProof, table: Map<u64, u8>)
    ensures
        seal.spec_version() == Version::V1,
        seal.spec_sector_size() > 0,
        seal.spec_partitions(table) matches Ok(count) ==> count > 0,
{
}

/// Every verification-time proof has version one, a sector that is not
/// empty, one partition and a well-formed configuration.
pub proof fn law_post_catalog(post: RegisteredPoStProof)
    ensures
        post.spec_version() == Version::V1,
        post.spec_sector_size() > 0,
        POST_PARTITIONS == 1,
        post.spec_config().wf(),
        post.spec_config().sector_size.0 == post.spec_sector_size(),
{
}

/// A seal proof has a configuration exactly when the partition table holds
/// a positive count for its sector size. That configuration is well
/// formed, has the proof's sector size and the table's count, and a
/// circuit can be set up for it. Without it the only error is the
/// configuration defect of the proof's sector size.
pub proof fn law_seal_config(seal: RegisteredSealProof, table: Map<u64, u8>)
    ensures
        seal.spec_config(table) is Ok <==> (table.contains_key(seal.spec_sector_size())
            && table[seal.spec_sector_size()] > 0),
        seal.spec_config(table) matches Ok(config) ==> config.wf() && config.sector_size.0
            == seal.spec_sector_size() && config.partitions.0 == table[seal.spec_sector_size()]
            && spec_seal_failure(config).is_none(),
        seal.spec_config(table) matches Err(e) ==> e == seal.spec_defect(),
{
}

/// Under a partition table that holds a positive count for the sector size
/// of a seal proof, the proof's circuit identifier and both cache file
/// names are there, and a content identifier is found for each file that
/// the parameter table holds under the circuit's key.
pub proof fn law_seal_resolves(
    seal: RegisteredSealProof,
    table: Map<u64, u8>,
    parameters: ParameterTable,
    kind: ParameterKind,
    identifier: Result<String, RegistryError>,
    file_name: Result<String, RegistryError>,
    content_id: Result<String, RegistryError>,
)
    requires
        table.contains_key(seal.spec_sector_size()),
        table[seal.spec_sector_size()] > 0,
        seal.is_identifier_outcome(identifier, table),
        seal.is_file_name_outcome(file_name, table, kind),
        seal.is_content_id_outcome(content_id, table, parameters, kind),
    ensures
        identifier is Ok,
        file_name is Ok,
        seal.spec_config(table) matches Ok(config) && (content_id is Ok <==> parameters.spec_get(
            spec_parameter_key(spec_seal_identifier(config), kind),
        ) is Some),
{
}

/// Every verification-time proof finds a content identifier for each file
/// that the parameter table holds under its circuit's key, and for no
/// other.
pub proof fn law_post_resolves(
    post: RegisteredPoStProof,
    parameters: ParameterTable,
    kind: ParameterKind,
    content_id: Result<String, RegistryError>,
)
    requires
        is_post_content_id_outcome(content_id, post.spec_config(), parameters, kind),
    ensures
        content_id is Ok <==> parameters.spec_get(
            spec_parameter_key(post.spec_identifier(), kind),
        ) is Some,
{
}

/// Deriving the identifier of one seal configuration twice gives the same
/// outcome both times: the same identifier, or the same error.
pub proof fn law_seal_identifier_deterministic(
    first: Result<String, RegistryError>,
    second: Result<String, RegistryError>,
    config: PoRepConfig,
)
    requires
        is_seal_identifier_outcome(first, config),
        is_seal_identifier_outcome(second, config),
    ensures
        first is Ok <==> second is Ok,
        first matches Ok(a) ==> (second matches Ok(b) && a@ == b@),
        first matches Err(e) ==> second == Err::<String, RegistryError>(e),
{
}

/// Asking a seal proof for its identifier twice, under partition tables
/// that hold the same count for its sector size, gives the same outcome
/// both times, whatever else the tables hold.
pub proof fn law_seal_catalog_identifier_deterministic(
    seal: RegisteredSealProof,
    first: Result<String, RegistryError>,
    second: Result<String, RegistryError>,
    first_table: Map<u64, u8>,
    second_table: Map<u64, u8>,
)
    requires
        spec_partition_entry(first_table, seal.spec_sector_size()) == spec_partition_entry(
            second_table,
            seal.spec_sector_size(),
        ),
        seal.is_identifier_outcome(first, first_table),
        seal.is_identifier_outcome(second, second_table),
    ensures
        first is Ok <==> second is Ok,
        first matches Ok(a) ==> (second matches Ok(b) && a@ == b@),
        first matches Err(e) ==> second == Err::<String, RegistryError>(e),
{
}

/// Asking a verification-time proof for its identifier twice gives the
/// same identifier both times.
pub proof fn law_post_identifier_deterministic(
    post: RegisteredPoStProof,
    first: Result<String, RegistryError>,
    second: Result<String, RegistryError>,
)
    requires
        first matches Ok(a) && a@ == post.spec_identifier(),
        second matches Ok(b) && b@ == post.spec_identifier(),
    ensures
        first matches Ok(a) && second matches Ok(b) && a@ == b@,
{
}

/// The keys of the two files of a circuit differ, and so do their cache
/// file names.
pub proof fn law_keys_distinct(identifier: Seq<char>)
    ensures
        spec_parameter_key(identifier, ParameterKind::VerifyingKey) != spec_parameter_key(
            identifier,
            ParameterKind::Parameters,
        ),
        spec_file_name(identifier, ParameterKind::VerifyingKey) != spec_file_name(
            identifier,
            ParameterKind::Parameters,
        ),
        spec_parameter_key(identifier, ParameterKind::VerifyingKey).len() == identifier.len() + 3,
        spec_parameter_key(identifier, ParameterKind::Parameters).len() == identifier.len() + 7,
{
    reveal_strlit(".");
    reveal_strlit("vk");
    reveal_strlit("params");
    reveal_strlit("v28-");
    assert(spec_suffix(ParameterKind::VerifyingKey).len() == 2);
    assert(spec_suffix(ParameterKind::Parameters).len() == 6);
    let verifying_key = spec_parameter_key(identifier, ParameterKind::VerifyingKey);
    let parameters = spec_parameter_key(identifier, ParameterKind::Parameters);
    assert(verifying_key.len() != parameters.len());
    assert(spec_file_name(identifier, ParameterKind::VerifyingKey).len() != spec_file_name(
        identifier,
        ParameterKind::Parameters,
    ).len());
}

/// In a parameter table that lacks the verifying key of a circuit and holds
/// its parameters, the lookup of the verifying key fails with the error
/// that names the circuit and the kind, and the lookup of the parameters
/// succeeds with what the table holds.
pub proof fn law_missing_verifying_key(
    parameters: ParameterTable,
    identifier: Seq<char>,
    verifying_key: Result<String, RegistryError>,
    params: Result<String, RegistryError>,
)
    requires
        parameters.spec_get(spec_parameter_key(identifier, ParameterKind::VerifyingKey))
            is None,
        parameters.spec_get(spec_parameter_key(identifier, ParameterKind::Parameters)) is Some,
        is_lookup_outcome(
            verifying_key,
            identifier,
            ParameterKind::VerifyingKey,
            parameters.spec_get(spec_parameter_key(identifier, ParameterKind::VerifyingKey)),
        ),
        is_lookup_outcome(
            params,
            identifier,
            ParameterKind::Parameters,
            parameters.spec_get(spec_parameter_key(identifier, ParameterKind::Parameters)),
        ),
    ensures
        verifying_key matches Err(RegistryError::MissingParameters { identifier: named, kind })
            && named@ == identifier && kind == ParameterKind::VerifyingKey,
        params matches Ok(cid) && Some(cid@) == parameters.spec_get(
            spec_parameter_key(identifier, ParameterKind::Parameters),
        ),
{
}

} // verus!
