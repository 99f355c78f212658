use pawn_runtime::limits::{
    pooling_settings, ResourceLimitProfile, MAX_COMPONENTS, MAX_COMPONENT_SIZE,
    MAX_LINEAR_MEMORY,
};
use pawn_runtime::runtime::{
    after_pooling, AllocationMode, PoolingDecision, Runtime, RuntimeError,
    DEFAULT_MAX_EXECUTION_TIME_MILLIS,
};

#[test]
fn default_profile_has_documented_bounds() {
    let p = ResourceLimitProfile::default();
    assert_eq!(p.max_components, MAX_COMPONENTS);
    assert_eq!(p.max_component_size, MAX_COMPONENT_SIZE as usize);
    assert_eq!(p.max_linear_memory, MAX_LINEAR_MEMORY as usize);
    assert!(!p.force_pooling_allocator);
    assert_eq!(p.memories_per_component, 1);
    assert_eq!(p.tables_per_component, 1);
    assert_eq!(p.max_core_instances_per_component, 30);
    assert_eq!(p.table_elements, 15_000);
    assert_eq!(p.max_tables_per_component, 20);
    assert!(p.validate());
}

#[test]
fn pooling_settings_follow_the_derivation_formulas() {
    let mut p = ResourceLimitProfile::default();
    p.max_components = 100;
    p.memories_per_component = 3;
    p.tables_per_component = 2;
    p.max_core_instances_per_component = 7;
    let s = pooling_settings(&p);
    assert_eq!(s.total_component_instances, 100);
    assert_eq!(s.total_core_instances, 100);
    assert_eq!(s.total_stacks, 100);
    assert_eq!(s.max_component_instance_size, p.max_component_size);
    assert_eq!(s.max_core_instances_per_component, 7);
    assert_eq!(s.max_tables_per_component, 20);
    assert_eq!(s.table_elements, 15_000);
    assert_eq!(s.max_memories_per_component, 21);
    assert_eq!(s.total_memories, 300);
    assert_eq!(s.total_tables, 200);
    assert_eq!(s.max_memory_size, p.max_linear_memory);
}

#[test]
fn after_pooling_accepts_a_successful_attempt() {
    assert_eq!(after_pooling(false, true), PoolingDecision::Accept);
    assert_eq!(after_pooling(true, true), PoolingDecision::Accept);
}

#[test]
fn after_pooling_falls_back_when_not_strict() {
    assert_eq!(after_pooling(false, false), PoolingDecision::FallBack);
}

#[test]
fn after_pooling_rejects_when_strict() {
    assert_eq!(after_pooling(true, false), PoolingDecision::Reject);
}

#[test]
fn profile_with_overflowing_products_is_rejected() {
    let mut p = ResourceLimitProfile::default();
    p.max_components = u32::MAX;
    p.memories_per_component = 2;
    assert!(!p.validate());
    let r = Runtime::with_profile(p, DEFAULT_MAX_EXECUTION_TIME_MILLIS);
    assert!(matches!(r, Err(RuntimeError::InvalidResourceLimits)));
}

#[test]
fn runtime_new_produces_an_engine() {
    let rt = Runtime::new().expect("runtime must build, by fallback if need be");
    assert_eq!(rt.max_execution_time_millis, DEFAULT_MAX_EXECUTION_TIME_MILLIS);
    assert_eq!(rt.profile, ResourceLimitProfile::default());
    // The degradation signal agrees with the recorded allocation mode.
    assert_eq!(rt.is_degraded(), rt.allocation == AllocationMode::OnDemand);
}

#[test]
fn equal_profiles_build_runtimes_with_equal_configuration() {
    let p = ResourceLimitProfile::default();
    let rt1 = Runtime::with_profile(p, 5_000).expect("first runtime");
    let rt2 = Runtime::with_profile(p, 5_000).expect("second runtime");
    assert_eq!(rt1.profile, rt2.profile);
    assert_eq!(rt1.allocation, rt2.allocation);
    assert_eq!(rt1.max_execution_time_millis, rt2.max_execution_time_millis);
}

fn unsatisfiable_profile() -> ResourceLimitProfile {
    // One table slot per possible u32 value cannot be reserved up front:
    // the pooling attempt must fail on any host.
    let mut p = ResourceLimitProfile::default();
    p.max_components = u32::MAX;
    p.memories_per_component = 1;
    p.tables_per_component = 1;
    assert!(p.validate());
    p
}

#[test]
fn strict_mode_fails_with_a_configuration_error() {
    let mut p = unsatisfiable_profile();
    p.force_pooling_allocator = true;
    let r = Runtime::with_profile(p, DEFAULT_MAX_EXECUTION_TIME_MILLIS);
    assert!(matches!(r, Err(RuntimeError::PoolingAllocatorCreationFailed { .. })));
}

#[test]
fn fallback_keeps_construction_alive_and_is_observable() {
    let p = unsatisfiable_profile();
    let rt = Runtime::with_profile(p, DEFAULT_MAX_EXECUTION_TIME_MILLIS)
        .expect("fallback must keep construction alive");
    assert_eq!(rt.allocation, AllocationMode::OnDemand);
    assert!(rt.is_degraded());
}
