use proof_registry::lookup::{cache_file_name, identifier_from_derivation, tree_shape};
use proof_registry::post::{post_cache_file_name, post_identifier};
use proof_registry::proving::TreeShape;
use proof_registry::seal::{seal_cache_file_name, seal_identifier};
use proof_registry::{
    ParameterKind, PoRepConfig, PoRepProofPartitions, PoStConfig, RegisteredPoStProof,
    RegisteredSealProof, RegistryError, SectorSize,
};

const SEAL_PREFIX: &str = "stacked-proof-of-replication-merkletree-poseidon_hasher-";
const POST_PREFIX: &str = "proof-of-spacetime-fallback-merkletree-poseidon_hasher-";
const SHAPE_BASE: u8 = 0;
const SHAPE_SUB8: u8 = 1;
const SHAPE_TOP2: u8 = 2;

fn seal(size: u64, partitions: u8) -> PoRepConfig {
    PoRepConfig { sector_size: SectorSize(size), partitions: PoRepProofPartitions(partitions) }
}

fn seal_id(tail: &str) -> Result<String, RegistryError> {
    Ok(format!("{}{}", SEAL_PREFIX, tail))
}

fn post_id(tail: &str) -> Result<String, RegistryError> {
    Ok(format!("{}{}", POST_PREFIX, tail))
}

#[test]
fn tree_shape_of_each_sector_size() {
    assert_eq!(tree_shape(2048), TreeShape::Base);
    assert_eq!(tree_shape(1 << 23), TreeShape::Base);
    assert_eq!(tree_shape(1 << 29), TreeShape::Base);
    assert_eq!(tree_shape(4096), TreeShape::Sub2);
    assert_eq!(tree_shape(1 << 24), TreeShape::Sub2);
    assert_eq!(tree_shape(1 << 30), TreeShape::Sub2);
    assert_eq!(tree_shape(16384), TreeShape::Sub8);
    assert_eq!(tree_shape(1 << 35), TreeShape::Sub8);
    assert_eq!(tree_shape(32768), TreeShape::Top2);
    assert_eq!(tree_shape(1 << 36), TreeShape::Top2);
    assert_eq!(tree_shape(1024), TreeShape::Base);
    assert_eq!(tree_shape(1 << 28), TreeShape::Base);
}

#[test]
fn seal_identifier_of_each_catalog_size() {
    assert_eq!(
        seal_identifier(&seal(1024, 2)),
        seal_id("8-0-0-sha256_hasher-fba9c02a04d282a9c88b1f0f375b1a322e4abe3999f6325b5251ef6fad776c76")
    );
    assert_eq!(
        seal_identifier(&seal(1 << 24, 1)),
        seal_id("8-2-0-sha256_hasher-86c715b389cbfdcb1c84b73e4bf276474652288a6aefcaa9f9600c21b0cff44e")
    );
    assert_eq!(
        seal_identifier(&seal(1 << 28, 1)),
        seal_id("8-0-0-sha256_hasher-64b5e9054a279f09847a993592a5fd44f8a61e78d3290376f75890177585372d")
    );
    assert_eq!(
        seal_identifier(&seal(1 << 30, 1)),
        seal_id("8-2-0-sha256_hasher-002b03e3cbccd5d23c5f673a39ec4127ae31a1820be2faa32f72fdc75cf262c2")
    );
    assert_eq!(
        seal_identifier(&seal(1 << 35, 10)),
        seal_id("8-8-0-sha256_hasher-82a357d2f2ca81dc61bb45f4a762807aedee1b0a53fd6c4e77b46a01bfef7820")
    );
}

#[test]
fn seal_identifier_matches_the_proving_system_on_its_own_sizes() {
    for (size, partitions, shape) in vec![
        (2048u64, 1u8, SHAPE_BASE),
        (1 << 23, 1, SHAPE_BASE),
        (1 << 29, 1, SHAPE_BASE),
        (1 << 35, 10, SHAPE_SUB8),
        (1 << 36, 10, SHAPE_TOP2),
    ] {
        let config = filecoin_proofs::types::PoRepConfig {
            sector_size: filecoin_proofs::types::SectorSize(size),
            partitions: filecoin_proofs::types::PoRepProofPartitions(partitions),
            porep_id: [7u8; 32],
            api_version: storage_proofs_core::api_version::ApiVersion::V1_1_0,
            api_features: Vec::new(),
        };
        let expected = match shape {
            SHAPE_BASE => config
                .get_cache_identifier::<filecoin_proofs::constants::SectorShapeBase>(),
            SHAPE_SUB8 => config
                .get_cache_identifier::<filecoin_proofs::constants::SectorShapeSub8>(),
            _ => config.get_cache_identifier::<filecoin_proofs::constants::SectorShapeTop2>(),
        }
        .unwrap();
        assert_eq!(seal_identifier(&seal(size, partitions)), Ok(expected));
    }
}

#[test]
fn seal_identifier_depends_on_the_partition_count() {
    let one = seal_identifier(&seal(1 << 24, 1)).unwrap();
    let two = seal_identifier(&seal(1 << 24, 2)).unwrap();
    let three = seal_identifier(&seal(1 << 24, 3)).unwrap();
    assert_ne!(one, two);
    assert_eq!(two, three);
    let ten = seal_identifier(&seal(1 << 35, 10)).unwrap();
    let nine = seal_identifier(&seal(1 << 35, 9)).unwrap();
    assert_ne!(ten, nine);
}

#[test]
fn seal_identifier_rejects_what_has_no_circuit() {
    for size in vec![0u64, 1000, 31, 1 << 38] {
        assert_eq!(
            seal_identifier(&seal(size, 2)),
            Err(RegistryError::UnsupportedSectorSize { sector_size: size })
        );
        assert_eq!(
            seal_cache_file_name(&seal(size, 2), ParameterKind::Parameters),
            Err(RegistryError::UnsupportedSectorSize { sector_size: size })
        );
    }
    assert_eq!(
        seal_identifier(&seal(1 << 24, 0)),
        Err(RegistryError::ConfigurationDefect { sector_size: 1 << 24 })
    );
}

#[test]
fn post_circuit_identifiers() {
    let expected = vec![
        "8-0-0-401635b60a4e36b13192b28815683e3e4b173a6e7308e05b83fe24c541470bac",
        "8-2-0-c380730b28f44e84c5ca0360dfc7abd78ed27dac29066b7a3fccf1996fa2d589",
        "8-0-0-b85f9e41e39ff7fa55bb3c531c912bbd11275e38c390b176139443411f0f4eb5",
        "8-2-0-b0e5c634a6a178cad023d3c55f283e794a1d2385f46e0300491f0f85262db66d",
        "8-8-0-9e715f93bcca528c55e3517308cb68b51477cfb7f2f00fbbbbddc9032ec5be21",
    ];
    let proofs = vec![
        RegisteredPoStProof::StackedDrg1KiBV1,
        RegisteredPoStProof::StackedDrg16MiBV1,
        RegisteredPoStProof::StackedDrg256MiBV1,
        RegisteredPoStProof::StackedDrg1GiBV1,
        RegisteredPoStProof::StackedDrg32GiBV1,
    ];
    for (rpp, tail) in proofs.into_iter().zip(expected) {
        assert_eq!(rpp.circuit_identifier(), post_id(tail));
        assert_eq!(rpp.circuit_identifier(), rpp.circuit_identifier());
    }
}

#[test]
fn different_sector_sizes_have_different_identifiers() {
    let seal: Vec<String> = vec![
        seal_identifier(&seal(1024, 2)).unwrap(),
        seal_identifier(&seal(1 << 24, 2)).unwrap(),
        seal_identifier(&seal(1 << 28, 2)).unwrap(),
        seal_identifier(&seal(1 << 30, 2)).unwrap(),
        seal_identifier(&seal(1 << 35, 2)).unwrap(),
    ];
    let post: Vec<String> = vec![
        RegisteredPoStProof::StackedDrg1KiBV1.circuit_identifier().unwrap(),
        RegisteredPoStProof::StackedDrg16MiBV1.circuit_identifier().unwrap(),
        RegisteredPoStProof::StackedDrg256MiBV1.circuit_identifier().unwrap(),
        RegisteredPoStProof::StackedDrg1GiBV1.circuit_identifier().unwrap(),
        RegisteredPoStProof::StackedDrg32GiBV1.circuit_identifier().unwrap(),
    ];
    for i in 0..5 {
        for j in 0..5 {
            if i != j {
                assert_ne!(seal[i], seal[j]);
                assert_ne!(post[i], post[j]);
            }
        }
    }
}

#[test]
fn post_identifier_depends_on_the_challenge_parameters() {
    let catalog = RegisteredPoStProof::StackedDrg32GiBV1.as_v1_config();
    let more = PoStConfig { challenge_count: 41, ..catalog };
    let wider = PoStConfig { challenged_nodes: 2, ..catalog };
    let a = post_identifier(&more).unwrap();
    let b = post_identifier(&wider).unwrap();
    let c = post_identifier(&catalog).unwrap();
    assert_eq!(Ok(c.clone()), RegisteredPoStProof::StackedDrg32GiBV1.circuit_identifier());
    assert_ne!(a, c);
    assert_ne!(b, c);
    assert_ne!(a, b);
}

#[test]
fn cache_file_names_carry_version_identifier_and_kind() {
    assert_eq!(cache_file_name("abc", ParameterKind::VerifyingKey), "v28-abc.vk");
    assert_eq!(cache_file_name("abc", ParameterKind::Parameters), "v28-abc.params");
    let rsp = RegisteredSealProof::StackedDrg32GiBV1;
    let id = rsp.circuit_identifier().unwrap();
    assert_eq!(rsp.cache_verifying_key_path(), Ok(format!("v28-{}.vk", id)));
    assert_eq!(rsp.cache_params_path(), Ok(format!("v28-{}.params", id)));
    assert_eq!(rsp.cache_file_name(ParameterKind::Parameters), Ok(format!("v28-{}.params", id)));
    assert_eq!(
        seal_cache_file_name(&rsp.as_v1_config().unwrap(), ParameterKind::VerifyingKey),
        Ok(format!("v28-{}.vk", id))
    );
    let rpp = RegisteredPoStProof::StackedDrg1KiBV1;
    let id = rpp.circuit_identifier().unwrap();
    assert_eq!(rpp.cache_verifying_key_path(), Ok(format!("v28-{}.vk", id)));
    assert_eq!(rpp.cache_params_path(), Ok(format!("v28-{}.params", id)));
    assert_eq!(
        post_cache_file_name(&rpp.as_v1_config(), ParameterKind::Parameters),
        Ok(format!("v28-{}.params", id))
    );
}

#[test]
fn cache_file_names_are_those_of_the_proving_system() {
    let rsp = RegisteredSealProof::StackedDrg32GiBV1;
    let id = rsp.circuit_identifier().unwrap();
    let vk = storage_proofs_core::parameter_cache::parameter_cache_verifying_key_path(&id);
    let params = storage_proofs_core::parameter_cache::parameter_cache_params_path(&id);
    assert_eq!(
        vk.file_name().unwrap().to_str().unwrap(),
        rsp.cache_verifying_key_path().unwrap()
    );
    assert_eq!(
        params.file_name().unwrap().to_str().unwrap(),
        rsp.cache_params_path().unwrap()
    );
}

#[test]
fn derivation_failure_becomes_identifier_unavailable() {
    assert_eq!(identifier_from_derivation(Ok("abc".to_string())), Ok("abc".to_string()));
    assert_eq!(
        identifier_from_derivation(Err(anyhow::Error::msg("no such circuit"))),
        Err(RegistryError::IdentifierUnavailable)
    );
}
