use prover_config::config::{
    CachedLdeConfig, FriComputer, FriParameters, ProverConfig, ProverParametersConfig,
    StarkParameters, StatementParameters,
};
use prover_config::error::ConfigError;
use prover_config::hashes::{CommitmentHash, PageHash, PowHash};

struct FixedComputer {
    step_list: Option<Vec<u32>>,
}

impl FriComputer for FixedComputer {
    fn compute_fri_parameters(&self, _nb_steps: u32) -> FriParameters {
        FriParameters {
            fri_step_list: self.step_list.clone(),
            last_layer_degree_bound: Some(128),
            n_queries: Some(20),
            proof_of_work_bits: Some(15),
        }
    }
}

fn custom_raw(step_list: Option<Vec<u32>>) -> ProverParametersConfig {
    ProverParametersConfig {
        field: Some("PrimeField0".to_string()),
        channel_hash: Some(prover_config::hashes::Hash::blake256),
        commitment_hash: Some(CommitmentHash::blake256_masked248_lsb),
        n_verifier_friendly_commitment_layers: Some(7),
        pow_hash: Some(PowHash::blake256),
        statement: StatementParameters {
            page_hash: Some(PageHash::keccak256),
        },
        stark: StarkParameters {
            fri: FriParameters {
                fri_step_list: step_list,
                last_layer_degree_bound: Some(32),
                n_queries: Some(24),
                proof_of_work_bits: Some(20),
            },
            log_n_cosets: Some(2),
        },
        use_extension_field: Some(true),
        verifier_friendly_channel_updates: Some(false),
        verifier_friendly_commitment_hash: Some(prover_config::hashes::Hash::keccak256),
    }
}

#[test]
fn explicit_step_list_wins() {
    let raw = custom_raw(Some(vec![2, 3]));
    let computer = FixedComputer {
        step_list: Some(vec![9, 9, 9]),
    };
    for nb_steps in [1, 64, 1024, u32::MAX] {
        let resolved = ProverParametersConfig::new(nb_steps, &raw, &computer).unwrap();
        assert_eq!(resolved.stark.fri.fri_step_list, Some(vec![2, 3]));
    }
}

#[test]
fn absent_step_list_is_filled_from_computed_schedule() {
    let raw = custom_raw(None);
    let computer = FixedComputer {
        step_list: Some(vec![4, 4, 4, 3]),
    };
    let resolved = ProverParametersConfig::new(1024, &raw, &computer).unwrap();
    let list = resolved.stark.fri.fri_step_list.clone().unwrap();
    assert_eq!(list, vec![4, 4, 4, 3]);
    assert!(!list.is_empty());
}

#[test]
fn only_the_schedule_is_taken_from_the_computed_parameters() {
    // The computed result carries its own degree bound, query count and
    // grinding bits; all of them must be discarded in favour of the raw ones.
    let raw = custom_raw(None);
    let computer = FixedComputer {
        step_list: Some(vec![4, 4]),
    };
    let resolved = ProverParametersConfig::new(512, &raw, &computer).unwrap();
    assert_eq!(resolved.stark.fri.last_layer_degree_bound, Some(32));
    assert_eq!(resolved.stark.fri.n_queries, Some(24));
    assert_eq!(resolved.stark.fri.proof_of_work_bits, Some(20));
}

#[test]
fn all_other_fields_are_preserved() {
    let raw = custom_raw(Some(vec![3, 1]));
    let computer = FixedComputer {
        step_list: Some(vec![9]),
    };
    let resolved = ProverParametersConfig::new(2048, &raw, &computer).unwrap();
    let mut expected = custom_raw(Some(vec![3, 1]));
    expected.stark.fri.fri_step_list = Some(vec![3, 1]);
    assert_eq!(resolved, expected);
}

#[test]
fn resolution_is_idempotent() {
    let raw = custom_raw(None);
    let computer = FixedComputer {
        step_list: Some(vec![4, 4, 3]),
    };
    let resolved = ProverParametersConfig::new(1024, &raw, &computer).unwrap();
    // The schedule is now explicitly set, so resolving again (with any step
    // count and any computed schedule on offer) is a fixed point.
    let other_computer = FixedComputer {
        step_list: Some(vec![1, 1, 1]),
    };
    let resolved_again = ProverParametersConfig::new(31, &resolved, &other_computer).unwrap();
    assert_eq!(resolved_again, resolved);
}

#[test]
fn absent_computed_schedule_fails_defensively() {
    let raw = custom_raw(None);
    let computer = FixedComputer { step_list: None };
    let result = ProverParametersConfig::new(1024, &raw, &computer);
    assert_eq!(result, Err(ConfigError::ScheduleComputationFailure));
}

#[test]
fn default_baseline_resolves_with_computed_schedule() {
    let raw = ProverParametersConfig::default();
    assert_eq!(raw.stark.fri.fri_step_list, None);
    let computer = FixedComputer {
        step_list: Some(vec![4, 4, 4]),
    };
    let resolved = ProverParametersConfig::new(1024, &raw, &computer).unwrap();
    assert_eq!(
        resolved.commitment_hash,
        Some(CommitmentHash::keccak256_masked160_lsb)
    );
    assert_eq!(resolved.use_extension_field, Some(false));
    let list = resolved.stark.fri.fri_step_list.clone().unwrap();
    assert!(!list.is_empty());
}

#[test]
fn default_prover_parameters_match_the_documented_table() {
    let d = ProverParametersConfig::default();
    assert_eq!(d.field, Some("PrimeField0".to_string()));
    assert_eq!(d.channel_hash, Some(prover_config::hashes::Hash::poseidon3));
    assert_eq!(
        d.commitment_hash,
        Some(CommitmentHash::keccak256_masked160_lsb)
    );
    assert_eq!(d.n_verifier_friendly_commitment_layers, Some(0));
    assert_eq!(d.pow_hash, Some(PowHash::keccak256));
    assert_eq!(d.statement.page_hash, Some(PageHash::pedersen));
    assert_eq!(d.stark.fri.fri_step_list, None);
    assert_eq!(d.stark.fri.last_layer_degree_bound, Some(64));
    assert_eq!(d.stark.fri.n_queries, Some(16));
    assert_eq!(d.stark.fri.proof_of_work_bits, Some(32));
    assert_eq!(d.stark.log_n_cosets, Some(4));
    assert_eq!(d.use_extension_field, Some(false));
    assert_eq!(d.verifier_friendly_channel_updates, Some(true));
    assert_eq!(
        d.verifier_friendly_commitment_hash,
        Some(prover_config::hashes::Hash::poseidon3)
    );
}

#[test]
fn default_prover_config_matches_the_documented_table() {
    let d = ProverConfig::default();
    assert_eq!(d.cached_lde_config.store_full_lde, Some(false));
    assert_eq!(d.cached_lde_config.use_fft_for_eval, Some(false));
    assert_eq!(d.constraint_polynomial_task_size, Some(256));
    assert_eq!(d.n_out_of_memory_merkle_layers, Some(1));
    assert_eq!(d.table_prover_n_tasks_per_segment, Some(32));
}

#[test]
fn prover_config_resolution_is_the_identity() {
    let cfg = ProverConfig {
        cached_lde_config: CachedLdeConfig {
            store_full_lde: Some(true),
            use_fft_for_eval: Some(false),
        },
        constraint_polynomial_task_size: Some(1024),
        n_out_of_memory_merkle_layers: Some(3),
        table_prover_n_tasks_per_segment: Some(8),
    };
    let resolved = ProverConfig::new(&cfg).unwrap();
    assert_eq!(resolved, cfg);
}
