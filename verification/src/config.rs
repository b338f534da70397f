//! Parameter groups of the prover and their resolution.
//!
//! Every field is optional-with-default: it may be absent in a raw,
//! user-supplied configuration and is always present after resolution. The
//! one field that needs a computed fallback is the FRI step schedule of
//! `ProverParametersConfig`; everything else is copied through verbatim.

use crate::error::ConfigError;
use crate::hashes::{CommitmentHash, PageHash, PowHash};
use vstd::prelude::*;

verus! {

/// Statement-level parameters: the hash used over memory pages.
#[derive(Debug, Clone, PartialEq)]
pub struct StatementParameters {
    pub page_hash: Option<PageHash>,
}

/// FRI-specific knobs: the folding schedule and its numeric companions.
#[derive(Debug, Clone, PartialEq)]
pub struct FriParameters {
    pub fri_step_list: Option<Vec<u32>>,
    pub last_layer_degree_bound: Option<u32>,
    pub n_queries: Option<u32>,
    pub proof_of_work_bits: Option<u32>,
}

/// STARK-level parameters: the FRI group plus the coset-count exponent.
#[derive(Debug, Clone, PartialEq)]
pub struct StarkParameters {
    pub fri: FriParameters,
    pub log_n_cosets: Option<i32>,
}

/// The cryptographic/statement side of the prover's parameter set.
#[derive(Debug, Clone, PartialEq)]
pub struct ProverParametersConfig {
    pub field: Option<String>,
    pub channel_hash: Option<crate::hashes::Hash>,
    pub commitment_hash: Option<CommitmentHash>,
    pub n_verifier_friendly_commitment_layers: Option<u32>,
    pub pow_hash: Option<PowHash>,
    pub statement: StatementParameters,
    pub stark: StarkParameters,
    pub use_extension_field: Option<bool>,
    pub verifier_friendly_channel_updates: Option<bool>,
    pub verifier_friendly_commitment_hash: Option<crate::hashes::Hash>,
}

/// Low-degree-extension caching toggles; the two are independent.
#[derive(Debug, Clone, PartialEq)]
pub struct CachedLdeConfig {
    pub store_full_lde: Option<bool>,
    pub use_fft_for_eval: Option<bool>,
}

/// The execution/performance side of the prover's parameter set.
#[derive(Debug, Clone, PartialEq)]
pub struct ProverConfig {
    pub cached_lde_config: CachedLdeConfig,
    pub constraint_polynomial_task_size: Option<i32>,
    pub n_out_of_memory_merkle_layers: Option<i32>,
    pub table_prover_n_tasks_per_segment: Option<i32>,
}

/// Mathematical model of `StatementParameters`.
#[verifier::ext_equal]
pub ghost struct StatementParametersV {
    pub page_hash: Option<PageHash>,
}

/// Mathematical model of `FriParameters`.
#[verifier::ext_equal]
pub ghost struct FriParametersV {
    pub fri_step_list: Option<Seq<u32>>,
    pub last_layer_degree_bound: Option<u32>,
    pub n_queries: Option<u32>,
    pub proof_of_work_bits: Option<u32>,
}

/// Mathematical model of `StarkParameters`.
#[verifier::ext_equal]
pub ghost struct StarkParametersV {
    pub fri: FriParametersV,
    pub log_n_cosets: Option<i32>,
}

/// Mathematical model of `ProverParametersConfig`.
#[verifier::ext_equal]
pub ghost struct ProverParametersConfigV {
    pub field: Option<Seq<char>>,
    pub channel_hash: Option<crate::hashes::Hash>,
    pub commitment_hash: Option<CommitmentHash>,
    pub n_verifier_friendly_commitment_layers: Option<u32>,
    pub pow_hash: Option<PowHash>,
    pub statement: StatementParametersV,
    pub stark: StarkParametersV,
    pub use_extension_field: Option<bool>,
    pub verifier_friendly_channel_updates: Option<bool>,
    pub verifier_friendly_commitment_hash: Option<crate::hashes::Hash>,
}

/// Mathematical model of `CachedLdeConfig`.
#[verifier::ext_equal]
pub ghost struct CachedLdeConfigV {
    pub store_full_lde: Option<bool>,
    pub use_fft_for_eval: Option<bool>,
}

/// Mathematical model of `ProverConfig`.
#[verifier::ext_equal]
pub ghost struct ProverConfigV {
    pub cached_lde_config: CachedLdeConfigV,
    pub constraint_polynomial_task_size: Option<i32>,
    pub n_out_of_memory_merkle_layers: Option<i32>,
    pub table_prover_n_tasks_per_segment: Option<i32>,
}

impl View for StatementParameters {
    type V = StatementParametersV;

    open spec fn view(&self) -> StatementParametersV {
        StatementParametersV { page_hash: self.page_hash }
    }
}

impl View for FriParameters {
    type V = FriParametersV;

    open spec fn view(&self) -> FriParametersV {
        FriParametersV {
            fri_step_list: self.fri_step_list.deep_view(),
            last_layer_degree_bound: self.last_layer_degree_bound,
            n_queries: self.n_queries,
            proof_of_work_bits: self.proof_of_work_bits,
        }
    }
}

impl View for StarkParameters {
    type V = StarkParametersV;

    open spec fn view(&self) -> StarkParametersV {
        StarkParametersV { fri: self.fri@, log_n_cosets: self.log_n_cosets }
    }
}

impl View for ProverParametersConfig {
    type V = ProverParametersConfigV;

    open spec fn view(&self) -> ProverParametersConfigV {
        ProverParametersConfigV {
            field: self.field.deep_view(),
            channel_hash: self.channel_hash,
            commitment_hash: self.commitment_hash,
            n_verifier_friendly_commitment_layers: self.n_verifier_friendly_commitment_layers,
            pow_hash: self.pow_hash,
            statement: self.statement@,
            stark: self.stark@,
            use_extension_field: self.use_extension_field,
            verifier_friendly_channel_updates: self.verifier_friendly_channel_updates,
            verifier_friendly_commitment_hash: self.verifier_friendly_commitment_hash,
        }
    }
}

impl View for CachedLdeConfig {
    type V = CachedLdeConfigV;

    open spec fn view(&self) -> CachedLdeConfigV {
        CachedLdeConfigV {
            store_full_lde: self.store_full_lde,
            use_fft_for_eval: self.use_fft_for_eval,
        }
    }
}

impl View for ProverConfig {
    type V = ProverConfigV;

    open spec fn view(&self) -> ProverConfigV {
        ProverConfigV {
            cached_lde_config: self.cached_lde_config@,
            constraint_polynomial_task_size: self.constraint_polynomial_task_size,
            n_out_of_memory_merkle_layers: self.n_out_of_memory_merkle_layers,
            table_prover_n_tasks_per_segment: self.table_prover_n_tasks_per_segment,
        }
    }
}

/// Baseline `StatementParameters`: pages hashed with Pedersen.
pub open spec fn spec_default_statement_parameters() -> StatementParametersV {
    StatementParametersV { page_hash: Some(PageHash::pedersen) }
}

/// Baseline `FriParameters`: the schedule is deliberately absent so that an
/// uninitialized invocation goes through the computed-fallback path.
pub open spec fn spec_default_fri_parameters() -> FriParametersV {
    FriParametersV {
        fri_step_list: None,
        last_layer_degree_bound: Some(64u32),
        n_queries: Some(16u32),
        proof_of_work_bits: Some(32u32),
    }
}

/// Baseline `StarkParameters`, composed of the baseline FRI group.
pub open spec fn spec_default_stark_parameters() -> StarkParametersV {
    StarkParametersV { fri: spec_default_fri_parameters(), log_n_cosets: Some(4i32) }
}

/// Baseline `ProverParametersConfig`, composed of the baseline groups.
pub open spec fn spec_default_prover_parameters_config() -> ProverParametersConfigV {
    ProverParametersConfigV {
        field: Some("PrimeField0"@),
        channel_hash: Some(crate::hashes::Hash::poseidon3),
        commitment_hash: Some(CommitmentHash::keccak256_masked160_lsb),
        n_verifier_friendly_commitment_layers: Some(0u32),
        pow_hash: Some(PowHash::keccak256),
        statement: spec_default_statement_parameters(),
        stark: spec_default_stark_parameters(),
        use_extension_field: Some(false),
        verifier_friendly_channel_updates: Some(true),
        verifier_friendly_commitment_hash: Some(crate::hashes::Hash::poseidon3),
    }
}

/// Baseline `CachedLdeConfig`: no caching strategy enabled.
pub open spec fn spec_default_cached_lde_config() -> CachedLdeConfigV {
    CachedLdeConfigV { store_full_lde: Some(false), use_fft_for_eval: Some(false) }
}

/// Baseline `ProverConfig`, composed of the baseline caching group.
pub open spec fn spec_default_prover_config() -> ProverConfigV {
    ProverConfigV {
        cached_lde_config: spec_default_cached_lde_config(),
        constraint_polynomial_task_size: Some(256i32),
        n_out_of_memory_merkle_layers: Some(1i32),
        table_prover_n_tasks_per_segment: Some(32i32),
    }
}

impl Default for StatementParameters {
    fn default() -> (r: Self)
        ensures
            r@ == spec_default_statement_parameters(),
    {
        StatementParameters { page_hash: Some(PageHash::pedersen) }
    }
}

impl Default for FriParameters {
    fn default() -> (r: Self)
        ensures
            r@ == spec_default_fri_parameters(),
    {
        FriParameters {
            fri_step_list: None,
            last_layer_degree_bound: Some(64),
            n_queries: Some(16),
            proof_of_work_bits: Some(32),
        }
    }
}

impl Default for StarkParameters {
    fn default() -> (r: Self)
        ensures
            r@ == spec_default_stark_parameters(),
    {
        StarkParameters { fri: FriParameters::default(), log_n_cosets: Some(4) }
    }
}

impl Default for ProverParametersConfig {
    fn default() -> (r: Self)
        ensures
            r@ == spec_default_prover_parameters_config(),
    {
        ProverParametersConfig {
            field: Some("PrimeField0".to_owned()),
            channel_hash: Some(crate::hashes::Hash::poseidon3),
            commitment_hash: Some(CommitmentHash::keccak256_masked160_lsb),
            n_verifier_friendly_commitment_layers: Some(0),
            pow_hash: Some(PowHash::keccak256),
            statement: StatementParameters::default(),
            stark: StarkParameters::default(),
            use_extension_field: Some(false),
            verifier_friendly_channel_updates: Some(true),
            verifier_friendly_commitment_hash: Some(crate::hashes::Hash::poseidon3),
        }
    }
}

impl Default for CachedLdeConfig {
    fn default() -> (r: Self)
        ensures
            r@ == spec_default_cached_lde_config(),
    {
        CachedLdeConfig { store_full_lde: Some(false), use_fft_for_eval: Some(false) }
    }
}

impl Default for ProverConfig {
    fn default() -> (r: Self)
        ensures
            r@ == spec_default_prover_config(),
    {
        ProverConfig {
            cached_lde_config: CachedLdeConfig::default(),
            constraint_polynomial_task_size: Some(256),
            n_out_of_memory_merkle_layers: Some(1),
            table_prover_n_tasks_per_segment: Some(32),
        }
    }
}

/// Capability that computes a candidate FRI parameter set from a trace-step
/// count. The schedule-search algorithm itself lives outside this library;
/// callers supply an implementation. Its contract (a non-empty schedule for
/// any positive step count) is not assumed here: resolution checks the
/// result defensively and fails with `ScheduleComputationFailure` if the
/// schedule comes back absent.
pub trait FriComputer {
    fn compute_fri_parameters(&self, nb_steps: u32) -> FriParameters;
}

/// `raw` with its FRI step schedule replaced by `steps`; every other field
/// is kept verbatim.
pub open spec fn spec_resolved_with(
    raw: ProverParametersConfigV,
    steps: Seq<u32>,
) -> ProverParametersConfigV {
    ProverParametersConfigV {
        stark: StarkParametersV {
            fri: FriParametersV { fri_step_list: Some(steps), ..raw.stark.fri },
            ..raw.stark
        },
        ..raw
    }
}

/// Copies an optional string field; the model value is unchanged.
fn clone_opt_string(o: &Option<String>) -> (r: Option<String>)
    ensures
        r.deep_view() == o.deep_view(),
{
    match o {
        Some(s) => Some(s.clone()),
        None => None,
    }
}

/// Copies a step schedule; the model value is unchanged.
fn clone_step_list(v: &Vec<u32>) -> (r: Vec<u32>)
    ensures
        r@ == v@,
{
    let r = v.clone();
    proof {
        assert forall|i: int| 0 <= i < v@.len() implies v@[i] == r@[i] by {
            assert(cloned::<u32>(v@[i], r@[i]));
        }
        assert(v@ =~= r@);
    }
    r
}

impl ProverParametersConfig {
    /// Copies `parameter_config` field-for-field, setting the FRI step
    /// schedule to `steps`. This is the whole merge step of resolution: the
    /// only field it changes is the schedule.
    pub fn with_step_list(parameter_config: &ProverParametersConfig, steps: Vec<u32>) -> (r:
        ProverParametersConfig)
        ensures
            r@ == spec_resolved_with(parameter_config@, steps@),
    {
        ProverParametersConfig {
            field: clone_opt_string(&parameter_config.field),
            channel_hash: parameter_config.channel_hash,
            commitment_hash: parameter_config.commitment_hash,
            n_verifier_friendly_commitment_layers: parameter_config
                .n_verifier_friendly_commitment_layers,
            pow_hash: parameter_config.pow_hash,
            statement: StatementParameters { page_hash: parameter_config.statement.page_hash },
            stark: StarkParameters {
                fri: FriParameters {
                    fri_step_list: Some(steps),
                    last_layer_degree_bound: parameter_config.stark.fri.last_layer_degree_bound,
                    n_queries: parameter_config.stark.fri.n_queries,
                    proof_of_work_bits: parameter_config.stark.fri.proof_of_work_bits,
                },
                log_n_cosets: parameter_config.stark.log_n_cosets,
            },
            use_extension_field: parameter_config.use_extension_field,
            verifier_friendly_channel_updates: parameter_config.verifier_friendly_channel_updates,
            verifier_friendly_commitment_hash: parameter_config.verifier_friendly_commitment_hash,
        }
    }

    /// Resolves `parameter_config` against a trace-step count: an explicit
    /// FRI step schedule always wins; only when it is absent is the external
    /// schedule computation consulted, and only its schedule is adopted —
    /// every other field of the computed result is discarded. Fails only if
    /// the computed schedule is itself absent.
    pub fn new<F: FriComputer>(
        nb_steps: u32,
        parameter_config: &ProverParametersConfig,
        fri_computer: &F,
    ) -> (r: Result<ProverParametersConfig, ConfigError>)
        ensures
            parameter_config@.stark.fri.fri_step_list matches Some(steps) ==> (r matches Ok(p)
                && p@ == spec_resolved_with(parameter_config@, steps)),
            r matches Ok(p) ==> (p@.stark.fri.fri_step_list matches Some(steps) && p@
                == spec_resolved_with(parameter_config@, steps)),
            r matches Err(e) ==> (parameter_config@.stark.fri.fri_step_list is None && e
                == ConfigError::ScheduleComputationFailure),
    {
        match &parameter_config.stark.fri.fri_step_list {
            Some(steps) => {
                let copied = clone_step_list(steps);
                Ok(Self::with_step_list(parameter_config, copied))
            },
            None => {
                let computed = fri_computer.compute_fri_parameters(nb_steps);
                match computed.fri_step_list {
                    Some(steps) => Ok(Self::with_step_list(parameter_config, steps)),
                    None => Err(ConfigError::ScheduleComputationFailure),
                }
            },
        }
    }
}

impl ProverConfig {
    /// Resolves an execution configuration: a pure identity copy, since no
    /// field of this root needs a computed fallback. It exists to give a
    /// uniform construction entry point alongside `ProverParametersConfig`.
    pub fn new(config: &ProverConfig) -> (r: Result<ProverConfig, ConfigError>)
        ensures
            r matches Ok(p) && p@ == config@,
    {
        Ok(
            ProverConfig {
                cached_lde_config: CachedLdeConfig {
                    store_full_lde: config.cached_lde_config.store_full_lde,
                    use_fft_for_eval: config.cached_lde_config.use_fft_for_eval,
                },
                constraint_polynomial_task_size: config.constraint_polynomial_task_size,
                n_out_of_memory_merkle_layers: config.n_out_of_memory_merkle_layers,
                table_prover_n_tasks_per_segment: config.table_prover_n_tasks_per_segment,
            },
        )
    }
}

/// Law: explicit user input wins — whatever schedule resolution is given,
/// the resolved schedule is exactly that schedule.
pub proof fn lemma_explicit_wins(raw: ProverParametersConfigV, steps: Seq<u32>)
    ensures
        spec_resolved_with(raw, steps).stark.fri.fri_step_list == Some(steps),
{
}

/// Law: a non-empty fallback schedule fills the absent field — the resolved
/// schedule is present and non-empty.
pub proof fn lemma_fallback_fills(raw: ProverParametersConfigV, steps: Seq<u32>)
    requires
        raw.stark.fri.fri_step_list is None,
        steps.len() > 0,
    ensures
        spec_resolved_with(raw, steps).stark.fri.fri_step_list matches Some(l) && l.len() > 0,
{
}

/// Law: every scalar and enum field other than the FRI step schedule is
/// preserved by resolution.
pub proof fn lemma_field_preservation(raw: ProverParametersConfigV, steps: Seq<u32>)
    ensures
        spec_resolved_with(raw, steps).field == raw.field,
        spec_resolved_with(raw, steps).channel_hash == raw.channel_hash,
        spec_resolved_with(raw, steps).commitment_hash == raw.commitment_hash,
        spec_resolved_with(raw, steps).n_verifier_friendly_commitment_layers
            == raw.n_verifier_friendly_commitment_layers,
        spec_resolved_with(raw, steps).pow_hash == raw.pow_hash,
        spec_resolved_with(raw, steps).statement == raw.statement,
        spec_resolved_with(raw, steps).stark.log_n_cosets == raw.stark.log_n_cosets,
        spec_resolved_with(raw, steps).stark.fri.last_layer_degree_bound
            == raw.stark.fri.last_layer_degree_bound,
        spec_resolved_with(raw, steps).stark.fri.n_queries == raw.stark.fri.n_queries,
        spec_resolved_with(raw, steps).stark.fri.proof_of_work_bits
            == raw.stark.fri.proof_of_work_bits,
        spec_resolved_with(raw, steps).use_extension_field == raw.use_extension_field,
        spec_resolved_with(raw, steps).verifier_friendly_channel_updates
            == raw.verifier_friendly_channel_updates,
        spec_resolved_with(raw, steps).verifier_friendly_commitment_hash
            == raw.verifier_friendly_commitment_hash,
{
}

/// Law: resolution is idempotent — resolving a configuration whose schedule
/// is already set to `steps` gives that configuration back unchanged.
pub proof fn lemma_resolution_idempotent(cfg: ProverParametersConfigV, steps: Seq<u32>)
    requires
        cfg.stark.fri.fri_step_list == Some(steps),
    ensures
        spec_resolved_with(cfg, steps) == cfg,
{
    assert(spec_resolved_with(cfg, steps) =~~= cfg);
}

} // verus!
