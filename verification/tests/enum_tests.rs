use prover_config::error::ConfigError;
use prover_config::hashes::{CommitmentHash, PageHash, PowHash};

#[test]
fn commitment_hash_round_trip() {
    for v in [
        CommitmentHash::keccak256_masked160_lsb,
        CommitmentHash::blake256_masked248_lsb,
    ] {
        assert_eq!(CommitmentHash::parse(v.render()), Ok(v));
    }
}

#[test]
fn page_hash_round_trip() {
    for v in [PageHash::pedersen, PageHash::keccak256] {
        assert_eq!(PageHash::parse(v.render()), Ok(v));
    }
}

#[test]
fn hash_round_trip() {
    for v in [
        prover_config::hashes::Hash::poseidon3,
        prover_config::hashes::Hash::blake256,
        prover_config::hashes::Hash::keccak256,
    ] {
        assert_eq!(prover_config::hashes::Hash::parse(v.render()), Ok(v));
    }
}

#[test]
fn pow_hash_round_trip() {
    for v in [PowHash::blake256, PowHash::keccak256] {
        assert_eq!(PowHash::parse(v.render()), Ok(v));
    }
}

#[test]
fn rendered_tokens_are_canonical() {
    assert_eq!(
        CommitmentHash::keccak256_masked160_lsb.render(),
        "keccak256_masked160_lsb"
    );
    assert_eq!(
        CommitmentHash::blake256_masked248_lsb.render(),
        "blake256_masked248_lsb"
    );
    assert_eq!(PageHash::pedersen.render(), "pedersen");
    assert_eq!(PageHash::keccak256.render(), "keccak256");
    assert_eq!(prover_config::hashes::Hash::poseidon3.render(), "poseidon3");
    assert_eq!(prover_config::hashes::Hash::blake256.render(), "blake256");
    assert_eq!(prover_config::hashes::Hash::keccak256.render(), "keccak256");
    assert_eq!(PowHash::blake256.render(), "blake256");
    assert_eq!(PowHash::keccak256.render(), "keccak256");
}

#[test]
fn unknown_token_is_rejected() {
    assert_eq!(
        prover_config::hashes::Hash::parse("sha256"),
        Err(ConfigError::UnknownVariant {
            enum_type: "Hash".to_string(),
            token: "sha256".to_string(),
        })
    );
    assert_eq!(
        CommitmentHash::parse("poseidon3"),
        Err(ConfigError::UnknownVariant {
            enum_type: "CommitmentHash".to_string(),
            token: "poseidon3".to_string(),
        })
    );
    assert_eq!(
        PageHash::parse(""),
        Err(ConfigError::UnknownVariant {
            enum_type: "PageHash".to_string(),
            token: "".to_string(),
        })
    );
    assert_eq!(
        PowHash::parse("pedersen"),
        Err(ConfigError::UnknownVariant {
            enum_type: "PowHash".to_string(),
            token: "pedersen".to_string(),
        })
    );
}

#[test]
fn parse_is_case_and_whitespace_sensitive() {
    assert!(prover_config::hashes::Hash::parse("Poseidon3").is_err());
    assert!(prover_config::hashes::Hash::parse("poseidon3 ").is_err());
    assert!(PageHash::parse("PEDERSEN").is_err());
}
