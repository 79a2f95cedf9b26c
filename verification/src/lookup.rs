//! The two tables that the registry reads, and what it makes of their
//! answers: the partition count of a sector size, the key and the file name
//! of a parameter file, and its content identifier.

use vstd::prelude::*;

use crate::proving::{
    parameter_table_entry, published_content_id, spec_listed_shape, TreeShape,
};
use crate::types::{ParameterKind, RegistryError};
use filecoin_proofs::constants::{
    is_sector_shape_base, is_sector_shape_sub2, is_sector_shape_sub8, is_sector_shape_top2,
};
use std::collections::HashMap;
use storage_proofs_core::parameter_cache::{parameter_id, verifying_key_id};
use vstd::std_specs::hash::group_hash_axioms;

verus! {

broadcast use group_hash_axioms;

/// What a partition table holds for a sector size.
pub open spec fn spec_partition_entry(table: Map<u64, u8>, sector_size: u64) -> Option<u8> {
    if table.contains_key(sector_size) {
        Some(table[sector_size])
    } else {
        None
    }
}

/// Looks a sector size up in a partition table.
pub fn partition_entry(table: &HashMap<u64, u8>, sector_size: u64) -> (entry: Option<u8>)
    ensures
        entry == spec_partition_entry(table@, sector_size),
{
    match table.get(&sector_size) {
        Some(count) => Some(*count),
        None => None,
    }
}

/// The partition count that a table answer stands for: the entry itself,
/// unless it is missing or zero.
pub open spec fn spec_partitions_from_entry(entry: Option<u8>) -> Option<u8> {
    match entry {
        Some(count) if count > 0 => Some(count),
        _ => None,
    }
}

/// Turns the partition table's answer for a sector size into a partition
/// count. A missing entry and a count of zero are configuration defects.
pub fn partitions_from_entry(sector_size: u64, entry: Option<u8>) -> (r: Result<
    u8,
    RegistryError,
>)
    ensures
        match spec_partitions_from_entry(entry) {
            Some(count) => r == Ok::<u8, RegistryError>(count),
            None => r == Err::<u8, RegistryError>(
                RegistryError::ConfigurationDefect { sector_size },
            ),
        },
{
    match entry {
        Some(count) => {
            if count > 0 {
                Ok(count)
            } else {
                Err(RegistryError::ConfigurationDefect { sector_size })
            }
        },
        None => Err(RegistryError::ConfigurationDefect { sector_size }),
    }
}

/// The tree shape of the circuits of a sector size: the one that the
/// proving system's table lists for the size, and the base shape for a size
/// that the table does not list.
pub open spec fn spec_tree_shape(sector_size: u64) -> TreeShape {
    match spec_listed_shape(sector_size) {
        Some(shape) => shape,
        None => TreeShape::Base,
    }
}

/// The tree shape of the circuits of a sector size.
pub fn tree_shape(sector_size: u64) -> (shape: TreeShape)
    ensures
        shape == spec_tree_shape(sector_size),
{
    if is_sector_shape_sub2(sector_size) {
        TreeShape::Sub2
    } else if is_sector_shape_sub8(sector_size) {
        TreeShape::Sub8
    } else if is_sector_shape_top2(sector_size) {
        TreeShape::Top2
    } else {
        let listed = is_sector_shape_base(sector_size);
        assert(listed || spec_listed_shape(sector_size).is_none());
        TreeShape::Base
    }
}

/// The file suffix of a parameter kind.
pub open spec fn spec_suffix(kind: ParameterKind) -> Seq<char> {
    match kind {
        ParameterKind::VerifyingKey => "vk"@,
        ParameterKind::Parameters => "params"@,
    }
}

/// The key of a parameter file: the circuit identifier, a dot and the
/// suffix of the kind.
pub open spec fn spec_parameter_key(identifier: Seq<char>, kind: ParameterKind) -> Seq<char> {
    identifier + "."@ + spec_suffix(kind)
}

/// Forms the key under which the parameter table holds a circuit's file.
pub fn parameter_key(identifier: &str, kind: ParameterKind) -> (key: String)
    ensures
        key@ == spec_parameter_key(identifier@, kind),
{
    let stem = String::from_str(identifier).concat(".");
    match kind {
        ParameterKind::VerifyingKey => stem.concat("vk"),
        ParameterKind::Parameters => stem.concat("params"),
    }
}

/// The name of a parameter file in the cache directory: the cache version,
/// then the key of the file.
pub open spec fn spec_file_name(identifier: Seq<char>, kind: ParameterKind) -> Seq<char> {
    "v28-"@ + spec_parameter_key(identifier, kind)
}

/// The name under which the proving system keeps a circuit's file in its
/// cache directory.
pub fn cache_file_name(identifier: &str, kind: ParameterKind) -> (name: String)
    ensures
        name@ == spec_file_name(identifier@, kind),
{
    proof {
        reveal_strlit(".");
        reveal_strlit("vk");
        reveal_strlit("params");
        reveal_strlit(".vk");
        reveal_strlit(".params");
        assert(".vk"@ =~= "."@ + "vk"@);
        assert(".params"@ =~= "."@ + "params"@);
    }
    match kind {
        ParameterKind::VerifyingKey => {
            let name = verifying_key_id(identifier);
            assert(name@ =~= spec_file_name(identifier@, kind));
            name
        },
        ParameterKind::Parameters => {
            let name = parameter_id(identifier);
            assert(name@ =~= spec_file_name(identifier@, kind));
            name
        },
    }
}

/// One entry of a parameter table: the key of a file and the content
/// identifier of that file.
#[derive(Debug, PartialEq, Eq)]
pub struct ParameterEntry {
    pub key: String,
    pub content_identifier: String,
}

/// A parameter table: the published files, each under its key. Where a key
/// stands twice, the first entry counts.
#[derive(Debug, PartialEq, Eq)]
pub struct ParameterTable {
    pub entries: Vec<ParameterEntry>,
}

/// The content identifier of the first of the entries that stands under the
/// key.
pub open spec fn spec_first_entry(entries: Seq<ParameterEntry>, key: Seq<char>) -> Option<
    Seq<char>,
>
    decreases entries.len(),
{
    if entries.len() == 0 {
        None
    } else if entries[0].key@ == key {
        Some(entries[0].content_identifier@)
    } else {
        spec_first_entry(entries.drop_first(), key)
    }
}

impl ParameterTable {
    /// What the table holds under a key.
    pub open spec fn spec_get(&self, key: Seq<char>) -> Option<Seq<char>> {
        spec_first_entry(self.entries@, key)
    }

    /// Looks a key up in the table.
    pub fn get(&self, key: &str) -> (entry: Option<String>)
        ensures
            entry_view(entry) == self.spec_get(key@),
    {
        let wanted = String::from_str(key);
        let mut i: usize = 0;
        assert(self.entries@.subrange(0, self.entries.len() as int) =~= self.entries@);
        while i < self.entries.len()
            invariant
                i <= self.entries.len(),
                wanted@ == key@,
                spec_first_entry(self.entries@.subrange(i as int, self.entries.len() as int), key@)
                    == self.spec_get(key@),
            decreases self.entries.len() - i,
        {
            let ghost rest = self.entries@.subrange(i as int, self.entries.len() as int);
            assert(rest[0] == self.entries@[i as int]);
            assert(rest.drop_first() =~= self.entries@.subrange(
                i as int + 1,
                self.entries.len() as int,
            ));
            if self.entries[i].key == wanted {
                return Some(self.entries[i].content_identifier.clone());
            }
            i = i + 1;
        }
        None
    }
}

/// Whether `r` is the outcome of a lookup that found `entry` for the file
/// of kind `kind` of the circuit `identifier`: the entry's content
/// identifier on a hit, the missing-parameters error on a miss.
pub open spec fn is_lookup_outcome(
    r: Result<String, RegistryError>,
    identifier: Seq<char>,
    kind: ParameterKind,
    entry: Option<Seq<char>>,
) -> bool {
    match entry {
        Some(cid) => r matches Ok(found) && found@ == cid,
        None => r matches Err(RegistryError::MissingParameters { identifier: named, kind: k })
            && named@ == identifier && k == kind,
    }
}

/// The view of a table answer.
pub open spec fn entry_view(entry: Option<String>) -> Option<Seq<char>> {
    match entry {
        Some(cid) => Some(cid@),
        None => None,
    }
}

/// Turns the parameter table's answer for a circuit's file into the content
/// identifier, or into the error that names the circuit and the kind.
pub fn content_id_from_entry(identifier: &str, kind: ParameterKind, entry: Option<String>) -> (r:
    Result<String, RegistryError>)
    ensures
        is_lookup_outcome(r, identifier@, kind, entry_view(entry)),
{
    match entry {
        Some(cid) => Ok(cid),
        None => Err(
            RegistryError::MissingParameters { identifier: String::from_str(identifier), kind },
        ),
    }
}

/// Looks up the content identifier of a circuit's file in a parameter
/// table, under the key that `parameter_key` forms.
pub fn content_id_in(table: &ParameterTable, identifier: &str, kind: ParameterKind) -> (r: Result<
    String,
    RegistryError,
>)
    ensures
        is_lookup_outcome(
            r,
            identifier@,
            kind,
            table.spec_get(spec_parameter_key(identifier@, kind)),
        ),
{
    let key = parameter_key(identifier, kind);
    let entry = table.get(key.as_str());
    content_id_from_entry(identifier, kind, entry)
}

/// Looks up the content identifier of a circuit's file in the table of
/// published parameters that is compiled into the proving system, under the
/// key that `parameter_key` forms.
pub fn content_id_for(identifier: &str, kind: ParameterKind) -> (r: Result<String, RegistryError>)
    ensures
        is_lookup_outcome(
            r,
            identifier@,
            kind,
            published_content_id(spec_parameter_key(identifier@, kind)),
        ),
{
    let key = parameter_key(identifier, kind);
    let entry = parameter_table_entry(key.as_str());
    content_id_from_entry(identifier, kind, entry)
}

/// Maps the proving system's answer to a request for a circuit identifier
/// into the registry's own result: the identifier as it came, or the error
/// that says that none is available.
pub fn identifier_from_derivation(derived: Result<String, anyhow::Error>) -> (r: Result<
    String,
    RegistryError,
>)
    ensures
        match derived {
            Ok(id) => r matches Ok(same) && same@ == id@,
            Err(_) => r == Err::<String, RegistryError>(RegistryError::IdentifierUnavailable),
        },
{
    match derived {
        Ok(id) => Ok(id),
        Err(_) => Err(RegistryError::IdentifierUnavailable),
    }
}

} // verus!
