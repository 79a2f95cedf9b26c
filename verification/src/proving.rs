//! The boundary to the proving system.
//!
//! Everything in this file is trusted: the contracts below are taken from the
//! proving system's source and are not proved here. The rest of the crate is
//! verified against them.

use vstd::prelude::*;

use filecoin_proofs::constants::{
    is_sector_shape_base, is_sector_shape_sub2, is_sector_shape_sub8, is_sector_shape_top2,
    DefaultPieceHasher, SectorShapeBase, SectorShapeSub2, SectorShapeSub8, SectorShapeTop2,
    DRG_DEGREE, EXP_DEGREE, POREP_PARTITIONS, SINGLE_PARTITION_PROOF_LEN,
};
use filecoin_proofs::types::PoStType;
use std::collections::HashMap;
use storage_proofs_core::api_version::ApiVersion;
use storage_proofs_core::parameter_cache::{
    parameter_id, verifying_key_id, CacheableParameters, PARAMETERS,
};
use storage_proofs_core::proof::ProofScheme;
use storage_proofs_porep::stacked::{
    Challenges, SetupParams, StackedCircuit, StackedCompound, StackedDrg,
};

verus! {

/// The error type of the proving system. Nothing is known of its contents.
#[verifier::external_type_specification]
#[verifier::external_body]
pub struct ExAnyhowError(anyhow::Error);

/// The four merkle tree shapes that the proving system builds circuits for.
#[derive(Clone, Copy, Debug, PartialEq, Eq, Structural)]
pub enum TreeShape {
    Base,
    Sub2,
    Sub8,
    Top2,
}

/// The tree shape that the proving system's own table assigns to a sector
/// size, if the table holds that size.
pub open spec fn spec_listed_shape(sector_size: u64) -> Option<TreeShape> {
    if sector_size == 2048 || sector_size == 8388608 || sector_size == 536870912 {
        Some(TreeShape::Base)
    } else if sector_size == 4096 || sector_size == 16777216 || sector_size == 1073741824 {
        Some(TreeShape::Sub2)
    } else if sector_size == 16384 || sector_size == 34359738368 {
        Some(TreeShape::Sub8)
    } else if sector_size == 32768 || sector_size == 68719476736 {
        Some(TreeShape::Top2)
    } else {
        None
    }
}

/// `is_sector_shape_base` holds of 2 KiB, 8 MiB and 512 MiB.
pub assume_specification[ is_sector_shape_base ](sector_size: u64) -> (r: bool)
    ensures
        r == (spec_listed_shape(sector_size) == Some(TreeShape::Base)),
;

/// `is_sector_shape_sub2` holds of 4 KiB, 16 MiB and 1 GiB.
pub assume_specification[ is_sector_shape_sub2 ](sector_size: u64) -> (r: bool)
    ensures
        r == (spec_listed_shape(sector_size) == Some(TreeShape::Sub2)),
;

/// `is_sector_shape_sub8` holds of 16 KiB and 32 GiB.
pub assume_specification[ is_sector_shape_sub8 ](sector_size: u64) -> (r: bool)
    ensures
        r == (spec_listed_shape(sector_size) == Some(TreeShape::Sub8)),
;

/// `is_sector_shape_top2` holds of 32 KiB and 64 GiB.
pub assume_specification[ is_sector_shape_top2 ](sector_size: u64) -> (r: bool)
    ensures
        r == (spec_listed_shape(sector_size) == Some(TreeShape::Top2)),
;

/// `parameter_id` gives the file name of a circuit's parameters: the cache
/// version, which is 28, the identifier and the suffix.
pub assume_specification[ parameter_id ](cache_id: &str) -> (name: String)
    ensures
        name@ == "v28-"@ + cache_id@ + ".params"@,
;

/// `verifying_key_id` gives the file name of a circuit's verifying key: the
/// cache version, which is 28, the identifier and the suffix.
pub assume_specification[ verifying_key_id ](cache_id: &str) -> (name: String)
    ensures
        name@ == "v28-"@ + cache_id@ + ".vk"@,
;

/// Reads `SINGLE_PARTITION_PROOF_LEN`, the byte length of one partition's
/// proof, which the proving system fixes at 192.
#[verifier::external_body]
pub(crate) fn single_partition_proof_bytes() -> (len: usize)
    ensures
        len == 192,
{
    SINGLE_PARTITION_PROOF_LEN
}

/// Copies `POREP_PARTITIONS`, the proving system's table of partition
/// counts, as it stands at the call. The table is shared and may be written
/// by the process, so nothing is claimed of the copy. A poisoned lock gives
/// an empty table.
#[verifier::external_body]
pub(crate) fn porep_partitions_snapshot() -> (table: HashMap<u64, u8>) {
    match POREP_PARTITIONS.read() {
        Ok(table) => table.clone(),
        Err(_) => HashMap::new(),
    }
}

/// The cache identifier that the proving system derives for a stacked
/// circuit over a tree of the given shape, with the given numbers of nodes,
/// of layers and of challenges per partition.
pub uninterp spec fn seal_cache_identifier(
    shape: TreeShape,
    nodes: usize,
    layers: usize,
    challenges: usize,
) -> Seq<char>;

/// Sets a stacked circuit up with `StackedDrg::setup` over the base tree
/// shape and asks `StackedCompound::cache_identifier` for its identifier.
/// The graph degrees are the proving system's own constants; the
/// challenges are interactive ones and no feature is switched on; the
/// proof id and API version, which do not enter the identifier, are left
/// at their defaults. With at most `u32::MAX` nodes, on a machine of 64
/// bits, the setup succeeds, and the identifier is the named one.
#[verifier::external_body]
pub(crate) fn derive_seal_identifier_base(nodes: usize, layers: usize, challenges: usize) -> (r:
    Result<String, anyhow::Error>)
    requires
        nodes <= u32::MAX,
    ensures
        r is Ok,
        r matches Ok(id) ==> id@ == seal_cache_identifier(
            TreeShape::Base,
            nodes,
            layers,
            challenges,
        ),
{
    let setup = SetupParams {
        nodes,
        degree: DRG_DEGREE,
        expansion_degree: EXP_DEGREE,
        porep_id: [0u8; 32],
        challenges: Challenges::new_interactive(challenges),
        num_layers: layers,
        api_version: ApiVersion::V1_0_0,
        api_features: Vec::new(),
    };
    let params = StackedDrg::<SectorShapeBase, DefaultPieceHasher>::setup(&setup)?;
    Ok(<StackedCompound<SectorShapeBase, DefaultPieceHasher> as CacheableParameters<StackedCircuit<SectorShapeBase, DefaultPieceHasher>, _>>::cache_identifier(&params))
}

/// Sets a stacked circuit up with `StackedDrg::setup` over the sub2 tree
/// shape and asks `StackedCompound::cache_identifier` for its identifier.
/// The graph degrees are the proving system's own constants; the
/// challenges are interactive ones and no feature is switched on; the
/// proof id and API version, which do not enter the identifier, are left
/// at their defaults. With at most `u32::MAX` nodes, on a machine of 64
/// bits, the setup succeeds, and the identifier is the named one.
#[verifier::external_body]
pub(crate) fn derive_seal_identifier_sub2(nodes: usize, layers: usize, challenges: usize) -> (r:
    Result<String, anyhow::Error>)
    requires
        nodes <= u32::MAX,
    ensures
        r is Ok,
        r matches Ok(id) ==> id@ == seal_cache_identifier(
            TreeShape::Sub2,
            nodes,
            layers,
            challenges,
        ),
{
    let setup = SetupParams {
        nodes,
        degree: DRG_DEGREE,
        expansion_degree: EXP_DEGREE,
        porep_id: [0u8; 32],
        challenges: Challenges::new_interactive(challenges),
        num_layers: layers,
        api_version: ApiVersion::V1_0_0,
        api_features: Vec::new(),
    };
    let params = StackedDrg::<SectorShapeSub2, DefaultPieceHasher>::setup(&setup)?;
    Ok(<StackedCompound<SectorShapeSub2, DefaultPieceHasher> as CacheableParameters<StackedCircuit<SectorShapeSub2, DefaultPieceHasher>, _>>::cache_identifier(&params))
}

/// Sets a stacked circuit up with `StackedDrg::setup` over the sub8 tree
/// shape and asks `StackedCompound::cache_identifier` for its identifier.
/// The graph degrees are the proving system's own constants; the
/// challenges are interactive ones and no feature is switched on; the
/// proof id and API version, which do not enter the identifier, are left
/// at their defaults. With at most `u32::MAX` nodes, on a machine of 64
/// bits, the setup succeeds, and the identifier is the named one.
#[verifier::external_body]
pub(crate) fn derive_seal_identifier_sub8(nodes: usize, layers: usize, challenges: usize) -> (r:
    Result<String, anyhow::Error>)
    requires
        nodes <= u32::MAX,
    ensures
        r is Ok,
        r matches Ok(id) ==> id@ == seal_cache_identifier(
            TreeShape::Sub8,
            nodes,
            layers,
            challenges,
        ),
{
    let setup = SetupParams {
        nodes,
        degree: DRG_DEGREE,
        expansion_degree: EXP_DEGREE,
        porep_id: [0u8; 32],
        challenges: Challenges::new_interactive(challenges),
        num_layers: layers,
        api_version: ApiVersion::V1_0_0,
        api_features: Vec::new(),
    };
    let params = StackedDrg::<SectorShapeSub8, DefaultPieceHasher>::setup(&setup)?;
    Ok(<StackedCompound<SectorShapeSub8, DefaultPieceHasher> as CacheableParameters<StackedCircuit<SectorShapeSub8, DefaultPieceHasher>, _>>::cache_identifier(&params))
}

/// Sets a stacked circuit up with `StackedDrg::setup` over the top2 tree
/// shape and asks `StackedCompound::cache_identifier` for its identifier.
/// The graph degrees are the proving system's own constants; the
/// challenges are interactive ones and no feature is switched on; the
/// proof id and API version, which do not enter the identifier, are left
/// at their defaults. With at most `u32::MAX` nodes, on a machine of 64
/// bits, the setup succeeds, and the identifier is the named one.
#[verifier::external_body]
pub(crate) fn derive_seal_identifier_top2(nodes: usize, layers: usize, challenges: usize) -> (r:
    Result<String, anyhow::Error>)
    requires
        nodes <= u32::MAX,
    ensures
        r is Ok,
        r matches Ok(id) ==> id@ == seal_cache_identifier(
            TreeShape::Top2,
            nodes,
            layers,
            challenges,
        ),
{
    let setup = SetupParams {
        nodes,
        degree: DRG_DEGREE,
        expansion_degree: EXP_DEGREE,
        porep_id: [0u8; 32],
        challenges: Challenges::new_interactive(challenges),
        num_layers: layers,
        api_version: ApiVersion::V1_0_0,
        api_features: Vec::new(),
    };
    let params = StackedDrg::<SectorShapeTop2, DefaultPieceHasher>::setup(&setup)?;
    Ok(<StackedCompound<SectorShapeTop2, DefaultPieceHasher> as CacheableParameters<StackedCircuit<SectorShapeTop2, DefaultPieceHasher>, _>>::cache_identifier(&params))
}

/// The cache identifier that the proving system derives for a verification
/// circuit over a tree of the given shape, with the given parameters.
pub uninterp spec fn post_cache_identifier(
    shape: TreeShape,
    sector_size: u64,
    challenge_count: usize,
    challenged_nodes: usize,
    priority: bool,
) -> Seq<char>;

/// Calls `PoStConfig::get_cache_identifier` over the given tree shape, on a
/// window-type configuration, which hands both counts to the circuit as
/// they are; the number of challenged nodes goes where that configuration
/// has its second count. The API version is left at its default and does
/// not enter the identifier. The call succeeds on every input, and the
/// identifier is the named one.
#[verifier::external_body]
pub(crate) fn derive_post_identifier(
    shape: TreeShape,
    sector_size: u64,
    challenge_count: usize,
    challenged_nodes: usize,
    priority: bool,
) -> (r: Result<String, anyhow::Error>)
    ensures
        r is Ok,
        r matches Ok(id) ==> id@ == post_cache_identifier(
            shape,
            sector_size,
            challenge_count,
            challenged_nodes,
            priority,
        ),
{
    let config = filecoin_proofs::types::PoStConfig {
        sector_size: filecoin_proofs::types::SectorSize(sector_size),
        challenge_count,
        sector_count: challenged_nodes,
        typ: PoStType::Window,
        priority,
        api_version: ApiVersion::V1_0_0,
    };
    match shape {
        TreeShape::Base => config.get_cache_identifier::<SectorShapeBase>(),
        TreeShape::Sub2 => config.get_cache_identifier::<SectorShapeSub2>(),
        TreeShape::Sub8 => config.get_cache_identifier::<SectorShapeSub8>(),
        TreeShape::Top2 => config.get_cache_identifier::<SectorShapeTop2>(),
    }
}

/// The content identifier that the proving system's parameter table holds
/// under a key, if it holds one.
pub uninterp spec fn published_content_id(key: Seq<char>) -> Option<Seq<char>>;

/// Looks a key up in `PARAMETERS`, the table of published parameter files
/// that is compiled into the proving system, and copies the entry's content
/// identifier out.
#[verifier::external_body]
pub(crate) fn parameter_table_entry(key: &str) -> (entry: Option<String>)
    ensures
        match entry {
            Some(cid) => published_content_id(key@) == Some(cid@),
            None => published_content_id(key@).is_none(),
        },
{
    PARAMETERS.get(key).map(|data| data.cid.clone())
}

} // verus!
