use proof_registry::lookup::{
    content_id_for, content_id_from_entry, content_id_in, parameter_key,
};
use proof_registry::post::post_content_id;
use proof_registry::seal::seal_content_id;
use proof_registry::{
    ParameterEntry, ParameterKind, ParameterTable, PoRepConfig, PoRepProofPartitions,
    RegisteredPoStProof, RegistryError, SectorSize,
};

fn missing(identifier: &str, kind: ParameterKind) -> RegistryError {
    RegistryError::MissingParameters { identifier: identifier.to_string(), kind }
}

fn entry(key: &str, cid: &str) -> ParameterEntry {
    ParameterEntry { key: key.to_string(), content_identifier: cid.to_string() }
}

#[test]
fn parameter_key_is_identifier_dot_suffix() {
    assert_eq!(parameter_key("abc", ParameterKind::VerifyingKey), "abc.vk");
    assert_eq!(parameter_key("abc", ParameterKind::Parameters), "abc.params");
    assert_eq!(parameter_key("", ParameterKind::VerifyingKey), ".vk");
    assert_eq!(parameter_key("a.b", ParameterKind::Parameters), "a.b.params");
}

#[test]
fn table_lookup_is_by_exact_key_and_first_entry() {
    let table = ParameterTable {
        entries: vec![
            entry("abc.vk", "one"),
            entry("abc.params", "two"),
            entry("abc.vk", "three"),
            entry("", "empty"),
        ],
    };
    assert_eq!(table.get("abc.vk"), Some("one".to_string()));
    assert_eq!(table.get("abc.params"), Some("two".to_string()));
    assert_eq!(table.get(""), Some("empty".to_string()));
    assert_eq!(table.get("abc"), None);
    assert_eq!(table.get("abc.vk "), None);
    assert_eq!(table.get("ABC.vk"), None);
    assert_eq!(ParameterTable { entries: Vec::new() }.get("abc.vk"), None);
}

#[test]
fn lookup_is_ok_exactly_when_the_key_is_present() {
    let table = ParameterTable { entries: vec![entry("abc.params", "Qm123")] };
    assert_eq!(content_id_in(&table, "abc", ParameterKind::Parameters), Ok("Qm123".to_string()));
    assert_eq!(
        content_id_in(&table, "abc", ParameterKind::VerifyingKey),
        Err(missing("abc", ParameterKind::VerifyingKey))
    );
    assert_eq!(
        content_id_in(&table, "abd", ParameterKind::Parameters),
        Err(missing("abd", ParameterKind::Parameters))
    );
}

#[test]
fn entry_present_gives_its_content_identifier() {
    assert_eq!(
        content_id_from_entry("abc", ParameterKind::Parameters, Some("Qm123".to_string())),
        Ok("Qm123".to_string())
    );
    assert_eq!(
        content_id_from_entry("abc", ParameterKind::VerifyingKey, None),
        Err(missing("abc", ParameterKind::VerifyingKey))
    );
}

#[test]
fn published_entries_are_found_under_their_key() {
    let published = "v28-stacked-proof-of-replication-merkletree-poseidon_hasher-8-8-0-sha256_hasher-82a357d2f2ca81dc61bb45f4a762807aedee1b0a53fd6c4e77b46a01bfef7820";
    assert_eq!(
        content_id_for(published, ParameterKind::VerifyingKey),
        Ok("Qmf93EMrADXAK6CyiSfE8xx45fkMfR3uzKEPCvZC1n2kzb".to_string())
    );
    assert_eq!(
        content_id_for(published, ParameterKind::Parameters),
        Ok("QmengpM684XLQfG8754ToonszgEg2bQeAGUan5uXTHUQzJ".to_string())
    );
    assert_eq!(
        content_id_for("no-such-circuit", ParameterKind::VerifyingKey),
        Err(missing("no-such-circuit", ParameterKind::VerifyingKey))
    );
}

#[test]
fn content_id_of_a_configuration() {
    let config =
        PoRepConfig { sector_size: SectorSize(1024), partitions: PoRepProofPartitions(2) };
    let id = proof_registry::seal::seal_identifier(&config).unwrap();
    let table = ParameterTable {
        entries: vec![entry(&format!("{}.vk", id), "QmVk"), entry(&format!("{}.params", id), "QmP")],
    };
    assert_eq!(seal_content_id(&config, &table, ParameterKind::VerifyingKey), Ok("QmVk".to_string()));
    assert_eq!(seal_content_id(&config, &table, ParameterKind::Parameters), Ok("QmP".to_string()));
    let other =
        PoRepConfig { sector_size: SectorSize(1024), partitions: PoRepProofPartitions(1) };
    let other_id = proof_registry::seal::seal_identifier(&other).unwrap();
    assert_eq!(
        seal_content_id(&other, &table, ParameterKind::Parameters),
        Err(missing(&other_id, ParameterKind::Parameters))
    );
    let no_circuit =
        PoRepConfig { sector_size: SectorSize(1000), partitions: PoRepProofPartitions(2) };
    assert_eq!(
        seal_content_id(&no_circuit, &table, ParameterKind::Parameters),
        Err(RegistryError::UnsupportedSectorSize { sector_size: 1000 })
    );
    let post = RegisteredPoStProof::StackedDrg16MiBV1.as_v1_config();
    let post_id = proof_registry::post::post_identifier(&post).unwrap();
    assert_eq!(
        post_content_id(&post, &table, ParameterKind::Parameters),
        Err(missing(&post_id, ParameterKind::Parameters))
    );
}
