//! Resource-limit profiles and the pooling-allocator settings derived from
//! them.
//!
//! A profile is fixed before any module loads; once an engine is built from
//! it, no instance may exceed the per-instance bounds it encodes.  The
//! derivation below turns a profile into the slot counts handed to the
//! pooling allocator; every product is proved to fit, so an engine can never
//! be configured from silently wrapped-around limits.

use vstd::prelude::*;

verus! {

/// Default per-instance linear-memory ceiling (256 MiB).
pub const MAX_LINEAR_MEMORY: u64 = 256 * 1024 * 1024;

/// Default per-component compiled-size ceiling (50 MiB).
pub const MAX_COMPONENT_SIZE: u64 = 50 * 1024 * 1024;

/// Default maximum number of concurrently live component instances.
pub const MAX_COMPONENTS: u32 = 10_000;

/// Immutable resource bounds for every engine built from them.
#[derive(Debug, Clone, Copy, PartialEq, Eq, Structural)]
pub struct ResourceLimitProfile {
    /// Maximum number of concurrently live component instances.
    pub max_components: u32,
    /// Maximum compiled footprint of a single component, in bytes.
    pub max_component_size: usize,
    /// Maximum linear-memory size of one instance, in bytes.
    pub max_linear_memory: usize,
    /// Fail instead of falling back when pooling allocation is unavailable.
    pub force_pooling_allocator: bool,
    /// Linear memories granted to each component.
    pub memories_per_component: u32,
    /// Tables granted to each component.
    pub tables_per_component: u32,
    /// Nested core instances allowed inside one component.
    pub max_core_instances_per_component: u32,
    /// Element capacity of each table.
    pub table_elements: usize,
    /// Maximum number of tables one component may declare.
    pub max_tables_per_component: u32,
}

/// The profile used when the embedder does not supply one.
pub open spec fn spec_default_profile() -> ResourceLimitProfile {
    ResourceLimitProfile {
        max_components: MAX_COMPONENTS,
        max_component_size: MAX_COMPONENT_SIZE as usize,
        max_linear_memory: MAX_LINEAR_MEMORY as usize,
        force_pooling_allocator: false,
        memories_per_component: 1,
        tables_per_component: 1,
        max_core_instances_per_component: 30,
        table_elements: 15_000,
        max_tables_per_component: 20,
    }
}

impl Default for ResourceLimitProfile {
    /// The default profile; it always passes validation.
    fn default() -> (r: ResourceLimitProfile)
        ensures
            r == spec_default_profile(),
            r.valid(),
    {
        ResourceLimitProfile {
            max_components: MAX_COMPONENTS,
            max_component_size: MAX_COMPONENT_SIZE as usize,
            max_linear_memory: MAX_LINEAR_MEMORY as usize,
            force_pooling_allocator: false,
            memories_per_component: 1,
            tables_per_component: 1,
            max_core_instances_per_component: 30,
            table_elements: 15_000,
            max_tables_per_component: 20,
        }
    }
}

impl ResourceLimitProfile {
    /// Every slot-count product of the derivation fits in the allocator's
    /// 32-bit fields.
    pub open spec fn valid(self) -> bool {
        &&& self.max_core_instances_per_component * self.memories_per_component <= u32::MAX
        &&& self.max_components * self.memories_per_component <= u32::MAX
        &&& self.max_components * self.tables_per_component <= u32::MAX
    }

    /// Checks [`ResourceLimitProfile::valid`] at run time; profiles are
    /// validated once, where a runtime is constructed.
    pub fn validate(&self) -> (b: bool)
        ensures
            b == self.valid(),
    {
        self.max_core_instances_per_component.checked_mul(self.memories_per_component).is_some()
            && self.max_components.checked_mul(self.memories_per_component).is_some()
            && self.max_components.checked_mul(self.tables_per_component).is_some()
    }
}

/// Slot counts and ceilings handed to the pooling allocator.
#[derive(Debug, Clone, Copy, PartialEq, Eq, Structural)]
pub struct PoolingSettings {
    pub total_component_instances: u32,
    pub total_core_instances: u32,
    pub total_stacks: u32,
    pub max_component_instance_size: usize,
    pub max_core_instances_per_component: u32,
    pub max_tables_per_component: u32,
    pub table_elements: usize,
    pub max_memories_per_component: u32,
    pub total_memories: u32,
    pub total_tables: u32,
    pub max_memory_size: usize,
}

/// What the pooling allocator is told, as a function of the profile alone:
/// one instance/stack slot per allowed component, per-component ceilings
/// taken directly from the profile, and total memory/table slots scaled by
/// the per-component grants.
pub open spec fn spec_pooling_settings(p: ResourceLimitProfile) -> PoolingSettings {
    PoolingSettings {
        total_component_instances: p.max_components,
        total_core_instances: p.max_components,
        total_stacks: p.max_components,
        max_component_instance_size: p.max_component_size,
        max_core_instances_per_component: p.max_core_instances_per_component,
        max_tables_per_component: p.max_tables_per_component,
        table_elements: p.table_elements,
        max_memories_per_component: (p.max_core_instances_per_component
            * p.memories_per_component) as u32,
        total_memories: (p.max_components * p.memories_per_component) as u32,
        total_tables: (p.max_components * p.tables_per_component) as u32,
        max_memory_size: p.max_linear_memory,
    }
}

/// Derives the pooling settings of a validated profile.
pub fn pooling_settings(p: &ResourceLimitProfile) -> (s: PoolingSettings)
    requires
        p.valid(),
    ensures
        s == spec_pooling_settings(*p),
{
    PoolingSettings {
        total_component_instances: p.max_components,
        total_core_instances: p.max_components,
        total_stacks: p.max_components,
        max_component_instance_size: p.max_component_size,
        max_core_instances_per_component: p.max_core_instances_per_component,
        max_tables_per_component: p.max_tables_per_component,
        table_elements: p.table_elements,
        max_memories_per_component: p.max_core_instances_per_component
            * p.memories_per_component,
        total_memories: p.max_components * p.memories_per_component,
        total_tables: p.max_components * p.tables_per_component,
        max_memory_size: p.max_linear_memory,
    }
}

} // verus!
