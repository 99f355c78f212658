//! Engine construction and the allocation-strategy selection.
//!
//! A runtime owns one `wasmtime::Engine` configured for asynchronous
//! component execution.  Construction first tries a pooling (pre-reserved,
//! bounded) allocator sized from a [`ResourceLimitProfile`]; when the host
//! cannot provide it and strict bounding was not demanded, construction falls
//! back to on-demand allocation and records the degradation instead of
//! failing.  The fallback decision is a pure, verified function of the
//! profile and the pooling outcome; only the engine constructor itself is
//! trusted.

use vstd::prelude::*;
use crate::limits::{pooling_settings, spec_pooling_settings, PoolingSettings, ResourceLimitProfile};

verus! {

/// Execution-time ceiling used when the embedder does not choose one (10 s).
pub const DEFAULT_MAX_EXECUTION_TIME_MILLIS: u64 = 10_000;

#[verifier::external_type_specification]
#[verifier::external_body]
pub struct ExConfig(wasmtime::Config);

#[verifier::external_type_specification]
#[verifier::external_body]
pub struct ExPoolingAllocationConfig(wasmtime::PoolingAllocationConfig);

#[verifier::external_type_specification]
#[verifier::external_body]
pub struct ExEngine(wasmtime::Engine);

#[verifier::external_type_specification]
#[verifier::external_body]
pub struct ExWasmtimeError(wasmtime::Error);

/// Relies on `wasmtime::PoolingAllocationConfig::default` and its setters
/// (`total_component_instances`, `total_core_instances`, `total_stacks`,
/// `max_component_instance_size`, `max_core_instances_per_component`,
/// `max_tables_per_component`, `table_elements`,
/// `max_memories_per_component`, `total_memories`, `total_tables`,
/// `max_memory_size`): each records the given bound in the configuration,
/// field for field.
#[verifier::external_body]
fn pooling_config_of(s: &PoolingSettings) -> wasmtime::PoolingAllocationConfig {
    let mut pooling = wasmtime::PoolingAllocationConfig::default();
    pooling
        .total_component_instances(s.total_component_instances)
        .total_core_instances(s.total_core_instances)
        .total_stacks(s.total_stacks)
        .max_component_instance_size(s.max_component_instance_size)
        .max_core_instances_per_component(s.max_core_instances_per_component)
        .max_tables_per_component(s.max_tables_per_component)
        .table_elements(s.table_elements)
        .max_memories_per_component(s.max_memories_per_component)
        .total_memories(s.total_memories)
        .total_tables(s.total_tables)
        .max_memory_size(s.max_memory_size);
    pooling
}

/// Relies on `wasmtime::Config::new`, `Config::async_support` and
/// `Config::wasm_component_model`: a fresh configuration with the two given
/// switches applied.
#[verifier::external_body]
fn base_engine_config(async_support: bool, component_model: bool) -> wasmtime::Config {
    let mut config = wasmtime::Config::new();
    config.async_support(async_support).wasm_component_model(component_model);
    config
}

/// Relies on `wasmtime::Config::allocation_strategy` with
/// `InstanceAllocationStrategy::Pooling`: makes the engine pre-reserve the
/// configured slots.
#[verifier::external_body]
fn set_pooling_strategy(config: &mut wasmtime::Config, pooling: wasmtime::PoolingAllocationConfig) {
    config.allocation_strategy(wasmtime::InstanceAllocationStrategy::Pooling(pooling));
}

/// Relies on `wasmtime::Config::allocation_strategy` with
/// `InstanceAllocationStrategy::OnDemand`: makes the engine allocate each
/// instance's resources at instantiation time.
#[verifier::external_body]
fn set_on_demand_strategy(config: &mut wasmtime::Config) {
    config.allocation_strategy(wasmtime::InstanceAllocationStrategy::OnDemand);
}

/// Relies on `wasmtime::Config`'s `Clone` implementation.
#[verifier::external_body]
fn clone_engine_config(config: &wasmtime::Config) -> wasmtime::Config {
    config.clone()
}

/// Relies on `wasmtime::Engine::new`: compiles the configuration into an
/// engine, or reports why the host cannot honour it.  Whether it succeeds
/// depends on host capabilities (for pooling, on large virtual-memory
/// reservations), so nothing is promised about the outcome.
#[verifier::external_body]
fn engine_new(config: &wasmtime::Config) -> Result<wasmtime::Engine, wasmtime::Error> {
    wasmtime::Engine::new(config)
}

/// Why runtime construction failed.
#[derive(Debug)]
pub enum RuntimeError {
    /// Strict bounding was demanded and the pooling allocator could not be
    /// created; carries the underlying cause.
    PoolingAllocatorCreationFailed { source: wasmtime::Error },
    /// The on-demand fallback could not be created either.
    DynamicAllocatorCreationFailed { source: wasmtime::Error },
    /// A slot-count product of the profile does not fit the allocator's
    /// 32-bit fields.
    InvalidResourceLimits,
}

/// The allocation strategy a runtime ended up with.
#[derive(Debug, Clone, Copy, PartialEq, Eq, Structural)]
pub enum AllocationMode {
    /// Bounded, pre-reserved slots.
    Pooling,
    /// Unbounded, per-instance allocation (the degraded fallback).
    OnDemand,
}

/// What to do once the pooling attempt's outcome is known.
#[derive(Debug, Clone, Copy, PartialEq, Eq, Structural)]
pub enum PoolingDecision {
    /// Pooling succeeded: keep the bounded engine.
    Accept,
    /// Pooling failed and strict bounding was not demanded: rebuild the
    /// engine with on-demand allocation.
    FallBack,
    /// Pooling failed and strict bounding was demanded: fail construction.
    Reject,
}

/// The allocation-strategy selection as a pure function: strategies are
/// tried in order (pooling, then on-demand), and a failed pooling attempt
/// is fatal exactly when strict bounding was demanded.
pub open spec fn spec_after_pooling(strict: bool, pooling_ok: bool) -> PoolingDecision {
    if pooling_ok {
        PoolingDecision::Accept
    } else if strict {
        PoolingDecision::Reject
    } else {
        PoolingDecision::FallBack
    }
}

/// Decides what follows the pooling attempt.
pub fn after_pooling(strict: bool, pooling_ok: bool) -> (d: PoolingDecision)
    ensures
        d == spec_after_pooling(strict, pooling_ok),
{
    if pooling_ok {
        PoolingDecision::Accept
    } else if strict {
        PoolingDecision::Reject
    } else {
        PoolingDecision::FallBack
    }
}

/// Fallback safety: when strict bounding is not demanded, a failed pooling
/// attempt leads to the on-demand fallback, never to rejection.
pub proof fn lemma_fallback_safety(strict: bool)
    requires
        !strict,
    ensures
        spec_after_pooling(strict, false) is FallBack,
{
}

/// Strict mode: when strict bounding is demanded and pooling fails, the
/// selection rejects; no engine of another strategy is produced.
pub proof fn lemma_strict_mode()
    ensures
        spec_after_pooling(true, false) is Reject,
{
}

/// Profile determinism: both the pooling settings and the fallback decision
/// are functions of the profile (and the attempt outcome) alone, so two
/// runtimes constructed from equal profiles configure their engines
/// identically.
pub proof fn lemma_profile_determinism(
    p1: ResourceLimitProfile,
    p2: ResourceLimitProfile,
    pooling_ok: bool,
)
    requires
        p1 == p2,
    ensures
        spec_pooling_settings(p1) == spec_pooling_settings(p2),
        spec_after_pooling(p1.force_pooling_allocator, pooling_ok) == spec_after_pooling(
            p2.force_pooling_allocator,
            pooling_ok,
        ),
{
}

/// One engine plus the execution-time ceiling; the factory for components.
///
/// Created once; many components may be built from it, and the engine (a
/// shared compiled-code cache) is the only part meant for concurrent use.
pub struct Runtime {
    /// The engine that compiles and executes components.
    pub engine: wasmtime::Engine,
    /// The configuration the engine was built from.
    pub engine_config: wasmtime::Config,
    /// How long one call may run before the embedder must abort it.
    pub max_execution_time_millis: u64,
    /// The frozen resource-limit profile this runtime was built from.
    pub profile: ResourceLimitProfile,
    /// Which allocation strategy the engine ended up with.
    pub allocation: AllocationMode,
}

impl Runtime {
    /// Builds a runtime from a profile and an execution-time ceiling.
    ///
    /// The profile is validated here, once; the pooling allocator is tried
    /// first and the on-demand fallback is used only when strict bounding
    /// was not demanded.
    pub fn with_profile(profile: ResourceLimitProfile, max_execution_time_millis: u64) -> (r:
        Result<Runtime, RuntimeError>)
        ensures
            (r matches Err(e) && e is InvalidResourceLimits) <==> !profile.valid(),
            r matches Ok(rt) ==> rt.profile == profile && rt.max_execution_time_millis
                == max_execution_time_millis && (rt.allocation is OnDemand
                ==> !profile.force_pooling_allocator),
            (r matches Err(e) && e is PoolingAllocatorCreationFailed)
                ==> profile.force_pooling_allocator,
            (r matches Err(e) && e is DynamicAllocatorCreationFailed)
                ==> !profile.force_pooling_allocator,
            profile.valid() && profile.force_pooling_allocator ==> ((r matches Ok(rt)
                && rt.allocation is Pooling) || (r matches Err(e)
                && e is PoolingAllocatorCreationFailed)),
    {
        if !profile.validate() {
            return Err(RuntimeError::InvalidResourceLimits);
        }
        let settings = pooling_settings(&profile);
        let pooling = pooling_config_of(&settings);
        let mut config = base_engine_config(true, true);
        set_pooling_strategy(&mut config, pooling);
        match engine_new(&config) {
            Ok(engine) => Ok(
                Runtime {
                    engine,
                    engine_config: config,
                    max_execution_time_millis,
                    profile,
                    allocation: AllocationMode::Pooling,
                },
            ),
            Err(cause) => match after_pooling(profile.force_pooling_allocator, false) {
                PoolingDecision::Reject => Err(
                    RuntimeError::PoolingAllocatorCreationFailed { source: cause },
                ),
                _ => {
                    let mut fallback_config = clone_engine_config(&config);
                    set_on_demand_strategy(&mut fallback_config);
                    match engine_new(&fallback_config) {
                        Ok(engine) => Ok(
                            Runtime {
                                engine,
                                engine_config: fallback_config,
                                max_execution_time_millis,
                                profile,
                                allocation: AllocationMode::OnDemand,
                            },
                        ),
                        Err(source) => Err(
                            RuntimeError::DynamicAllocatorCreationFailed { source },
                        ),
                    }
                },
            },
        }
    }

    /// Builds a runtime from the default profile and the default
    /// execution-time ceiling.
    pub fn new() -> (r: Result<Runtime, RuntimeError>)
        ensures
            r matches Ok(rt) ==> rt.profile == crate::limits::spec_default_profile()
                && rt.max_execution_time_millis == DEFAULT_MAX_EXECUTION_TIME_MILLIS,
            r matches Err(e) ==> e is DynamicAllocatorCreationFailed,
    {
        Runtime::with_profile(ResourceLimitProfile::default(), DEFAULT_MAX_EXECUTION_TIME_MILLIS)
    }

    /// The degradation signal: the runtime runs on the unbounded fallback
    /// allocator instead of the requested pooling allocator.
    pub fn is_degraded(&self) -> (b: bool)
        ensures
            b == (self.allocation is OnDemand),
    {
        match self.allocation {
            AllocationMode::OnDemand => true,
            AllocationMode::Pooling => false,
        }
    }
}

} // verus!
