use filecoin_proofs::constants::POREP_PARTITIONS;
use proof_registry::{RegisteredSealProof, RegistryError};

#[test]
fn smallest_variant_resolves_to_the_table_entry_for_1024() {
    let smallest = RegisteredSealProof::StackedDrg1KiBV1;
    POREP_PARTITIONS.write().unwrap().remove(&1024);
    assert_eq!(
        smallest.partitions(),
        Err(RegistryError::ConfigurationDefect { sector_size: 1024 })
    );
    assert_eq!(
        smallest.circuit_identifier(),
        Err(RegistryError::ConfigurationDefect { sector_size: 1024 })
    );
    POREP_PARTITIONS.write().unwrap().insert(1024, 2);
    assert_eq!(smallest.partitions(), Ok(2));
    let first = smallest.circuit_identifier();
    let second = smallest.circuit_identifier();
    assert_eq!(
        first,
        Ok("stacked-proof-of-replication-merkletree-poseidon_hasher-8-0-0-sha256_hasher-fba9c02a04d282a9c88b1f0f375b1a322e4abe3999f6325b5251ef6fad776c76".to_string())
    );
    assert_eq!(first, second);
    POREP_PARTITIONS.write().unwrap().insert(1024, 0);
    assert_eq!(
        smallest.partitions(),
        Err(RegistryError::ConfigurationDefect { sector_size: 1024 })
    );
    POREP_PARTITIONS.write().unwrap().insert(1024, 1);
    assert_eq!(smallest.partitions(), Ok(1));
    assert_ne!(smallest.circuit_identifier(), first);
}
