//! The execution engine's configuration: allocation strategy, pooling
//! sizes scaled to the replica count, and the overrides read from the
//! environment.

use vstd::prelude::*;
use crate::decimal::{is_literal, literal_value, parse_u64_range, parsed_within};

verus! {

/// How many instances of each pooled kind every replica may need.
pub const FAN_OUT: usize = 4;

/// Overrides for the pooling knobs, one per knob; `None` where the
/// environment sets none, or sets one that does not parse.
#[derive(Clone, Copy, Debug, PartialEq, Eq, Structural, Default)]
pub struct PoolingOverrides {
    pub max_unused_warm_slots: Option<u32>,
    pub decommit_batch_size: Option<usize>,
    pub async_stack_zeroing: Option<bool>,
    pub async_stack_keep_resident: Option<usize>,
    pub linear_memory_keep_resident: Option<usize>,
    pub table_keep_resident: Option<usize>,
    pub total_component_instances: Option<u32>,
    pub max_component_instance_size: Option<usize>,
    pub max_core_instances_per_component: Option<u32>,
    pub max_memories_per_component: Option<u32>,
    pub max_tables_per_component: Option<u32>,
    pub total_memories: Option<u32>,
    pub total_tables: Option<u32>,
    pub total_stacks: Option<u32>,
    pub total_core_instances: Option<u32>,
    pub max_core_instance_size: Option<usize>,
    pub max_tables_per_module: Option<u32>,
    pub table_elements: Option<u32>,
    pub max_memories_per_module: Option<u32>,
    pub max_memory_size: Option<usize>,
    pub total_gc_heaps: Option<u32>,
}

/// The pooling allocator's settings. A count knob always has a value; any
/// other knob is `None` where the engine's own default stays.
#[derive(Clone, Copy, Debug, PartialEq, Eq, Structural)]
pub struct PoolingConfig {
    pub max_unused_warm_slots: Option<u32>,
    pub decommit_batch_size: Option<usize>,
    pub async_stack_zeroing: Option<bool>,
    pub async_stack_keep_resident: Option<usize>,
    pub linear_memory_keep_resident: Option<usize>,
    pub table_keep_resident: Option<usize>,
    pub total_component_instances: u32,
    pub max_component_instance_size: Option<usize>,
    pub max_core_instances_per_component: Option<u32>,
    pub max_memories_per_component: Option<u32>,
    pub max_tables_per_component: Option<u32>,
    pub total_memories: u32,
    pub total_tables: u32,
    pub total_stacks: u32,
    pub total_core_instances: u32,
    pub max_core_instance_size: Option<usize>,
    pub max_tables_per_module: Option<u32>,
    pub table_elements: Option<u32>,
    pub max_memories_per_module: Option<u32>,
    pub max_memory_size: Option<usize>,
    pub total_gc_heaps: u32,
}

/// The pooling knobs, each read from one environment variable.
#[derive(Clone, Copy, Debug, PartialEq, Eq, Structural)]
pub enum PoolingKnob {
    MaxUnusedWarmSlots,
    DecommitBatchSize,
    AsyncStackZeroing,
    AsyncStackKeepResident,
    LinearMemoryKeepResident,
    TableKeepResident,
    TotalComponentInstances,
    MaxComponentInstanceSize,
    MaxCoreInstancesPerComponent,
    MaxMemoriesPerComponent,
    MaxTablesPerComponent,
    TotalMemories,
    TotalTables,
    TotalStacks,
    TotalCoreInstances,
    MaxCoreInstanceSize,
    MaxTablesPerModule,
    TableElements,
    MaxMemoriesPerModule,
    MaxMemorySize,
    TotalGcHeaps,
}

/// The kind of value a knob takes.
#[derive(Clone, Copy, Debug, PartialEq, Eq, Structural)]
pub enum KnobKind {
    Flag,
    Count,
    Size,
}

impl PoolingKnob {
    /// Every knob, in the order they are applied.
    pub fn all() -> (r: Vec<PoolingKnob>)
        ensures
            r@ == seq![
                PoolingKnob::MaxUnusedWarmSlots,
                PoolingKnob::DecommitBatchSize,
                PoolingKnob::AsyncStackZeroing,
                PoolingKnob::AsyncStackKeepResident,
                PoolingKnob::LinearMemoryKeepResident,
                PoolingKnob::TableKeepResident,
                PoolingKnob::TotalComponentInstances,
                PoolingKnob::MaxComponentInstanceSize,
                PoolingKnob::MaxCoreInstancesPerComponent,
                PoolingKnob::MaxMemoriesPerComponent,
                PoolingKnob::MaxTablesPerComponent,
                PoolingKnob::TotalMemories,
                PoolingKnob::TotalTables,
                PoolingKnob::TotalStacks,
                PoolingKnob::TotalCoreInstances,
                PoolingKnob::MaxCoreInstanceSize,
                PoolingKnob::MaxTablesPerModule,
                PoolingKnob::TableElements,
                PoolingKnob::MaxMemoriesPerModule,
                PoolingKnob::MaxMemorySize,
                PoolingKnob::TotalGcHeaps,
            ],
            forall|k: PoolingKnob| r@.contains(k),
    {
        let r = vec![
            PoolingKnob::MaxUnusedWarmSlots,
            PoolingKnob::DecommitBatchSize,
            PoolingKnob::AsyncStackZeroing,
            PoolingKnob::AsyncStackKeepResident,
            PoolingKnob::LinearMemoryKeepResident,
            PoolingKnob::TableKeepResident,
            PoolingKnob::TotalComponentInstances,
            PoolingKnob::MaxComponentInstanceSize,
            PoolingKnob::MaxCoreInstancesPerComponent,
            PoolingKnob::MaxMemoriesPerComponent,
            PoolingKnob::MaxTablesPerComponent,
            PoolingKnob::TotalMemories,
            PoolingKnob::TotalTables,
            PoolingKnob::TotalStacks,
            PoolingKnob::TotalCoreInstances,
            PoolingKnob::MaxCoreInstanceSize,
            PoolingKnob::MaxTablesPerModule,
            PoolingKnob::TableElements,
            PoolingKnob::MaxMemoriesPerModule,
            PoolingKnob::MaxMemorySize,
            PoolingKnob::TotalGcHeaps,
        ];
        assert(r@ =~= seq![
            PoolingKnob::MaxUnusedWarmSlots,
            PoolingKnob::DecommitBatchSize,
            PoolingKnob::AsyncStackZeroing,
            PoolingKnob::AsyncStackKeepResident,
            PoolingKnob::LinearMemoryKeepResident,
            PoolingKnob::TableKeepResident,
            PoolingKnob::TotalComponentInstances,
            PoolingKnob::MaxComponentInstanceSize,
            PoolingKnob::MaxCoreInstancesPerComponent,
            PoolingKnob::MaxMemoriesPerComponent,
            PoolingKnob::MaxTablesPerComponent,
            PoolingKnob::TotalMemories,
            PoolingKnob::TotalTables,
            PoolingKnob::TotalStacks,
            PoolingKnob::TotalCoreInstances,
            PoolingKnob::MaxCoreInstanceSize,
            PoolingKnob::MaxTablesPerModule,
            PoolingKnob::TableElements,
            PoolingKnob::MaxMemoriesPerModule,
            PoolingKnob::MaxMemorySize,
            PoolingKnob::TotalGcHeaps,
                ]);
        r
    }

    /// The environment variable that overrides this knob.
    pub open spec fn spec_env_name(&self) -> Seq<char> {
        match self {
            PoolingKnob::MaxUnusedWarmSlots => "WASMTIME_POOLING_MAX_UNUSED_WASM_SLOTS"@,
            PoolingKnob::DecommitBatchSize => "WASMTIME_POOLING_DECOMMIT_BATCH_SIZE"@,
            PoolingKnob::AsyncStackZeroing => "WASMTIME_POOLING_ASYNC_STACK_ZEROING"@,
            PoolingKnob::AsyncStackKeepResident => "WASMTIME_POOLING_ASYNC_STACK_KEEP_RESIDENT"@,
            PoolingKnob::LinearMemoryKeepResident => "WASMTIME_POOLING_LINEAR_MEMORY_KEEP_RESIDENT"@,
            PoolingKnob::TableKeepResident => "WASMTIME_POOLING_TABLE_KEEP_RESIDENT"@,
            PoolingKnob::TotalComponentInstances => "WASMTIME_POOLING_TOTAL_COMPONENT_INSTANCES"@,
            PoolingKnob::MaxComponentInstanceSize => "WASMTIME_POOLING_MAX_COMPONENT_INSTANCE_SIZE"@,
            PoolingKnob::MaxCoreInstancesPerComponent => "WASMTIME_POOLING_MAX_CORE_INSTANCES_PER_COMPONENT"@,
            PoolingKnob::MaxMemoriesPerComponent => "WASMTIME_POOLING_MAX_MEMORIES_PER_COMPONENT"@,
            PoolingKnob::MaxTablesPerComponent => "WASMTIME_POOLING_MAX_TABLES_PER_COMPONENT"@,
            PoolingKnob::TotalMemories => "WASMTIME_POOLING_TOTAL_MEMORIES"@,
            PoolingKnob::TotalTables => "WASMTIME_POOLING_TOTAL_TABLES"@,
            PoolingKnob::TotalStacks => "WASMTIME_POOLING_TOTAL_STACKS"@,
            PoolingKnob::TotalCoreInstances => "WASMTIME_POOLING_TOTAL_CORE_INSTANCES"@,
            PoolingKnob::MaxCoreInstanceSize => "WASMTIME_POOLING_MAX_CORE_INSTANCE_SIZE"@,
            PoolingKnob::MaxTablesPerModule => "WASMTIME_POOLING_MAX_TABLES_PER_MODULE"@,
            PoolingKnob::TableElements => "WASMTIME_POOLING_TABLE_ELEMENTS"@,
            PoolingKnob::MaxMemoriesPerModule => "WASMTIME_POOLING_MAX_MEMORIES_PER_MODULE"@,
            PoolingKnob::MaxMemorySize => "WASMTIME_POOLING_MAX_MEMORY_SIZE"@,
            PoolingKnob::TotalGcHeaps => "WASMTIME_POOLING_TOTAL_GC_HEAPS"@,
        }
    }

    /// The environment variable that overrides this knob.
    pub fn env_name(&self) -> (r: &'static str)
        ensures
            r@ == self.spec_env_name(),
    {
        match self {
            PoolingKnob::MaxUnusedWarmSlots => {
                proof {
                    reveal_strlit("WASMTIME_POOLING_MAX_UNUSED_WASM_SLOTS");
                }
                "WASMTIME_POOLING_MAX_UNUSED_WASM_SLOTS"
            },
            PoolingKnob::DecommitBatchSize => {
                proof {
                    reveal_strlit("WASMTIME_POOLING_DECOMMIT_BATCH_SIZE");
                }
                "WASMTIME_POOLING_DECOMMIT_BATCH_SIZE"
            },
            PoolingKnob::AsyncStackZeroing => {
                proof {
                    reveal_strlit("WASMTIME_POOLING_ASYNC_STACK_ZEROING");
                }
                "WASMTIME_POOLING_ASYNC_STACK_ZEROING"
            },
            PoolingKnob::AsyncStackKeepResident => {
                proof {
                    reveal_strlit("WASMTIME_POOLING_ASYNC_STACK_KEEP_RESIDENT");
                }
                "WASMTIME_POOLING_ASYNC_STACK_KEEP_RESIDENT"
            },
            PoolingKnob::LinearMemoryKeepResident => {
                proof {
                    reveal_strlit("WASMTIME_POOLING_LINEAR_MEMORY_KEEP_RESIDENT");
                }
                "WASMTIME_POOLING_LINEAR_MEMORY_KEEP_RESIDENT"
            },
            PoolingKnob::TableKeepResident => {
                proof {
                    reveal_strlit("WASMTIME_POOLING_TABLE_KEEP_RESIDENT");
                }
                "WASMTIME_POOLING_TABLE_KEEP_RESIDENT"
            },
            PoolingKnob::TotalComponentInstances => {
                proof {
                    reveal_strlit("WASMTIME_POOLING_TOTAL_COMPONENT_INSTANCES");
                }
                "WASMTIME_POOLING_TOTAL_COMPONENT_INSTANCES"
            },
            PoolingKnob::MaxComponentInstanceSize => {
                proof {
                    reveal_strlit("WASMTIME_POOLING_MAX_COMPONENT_INSTANCE_SIZE");
                }
                "WASMTIME_POOLING_MAX_COMPONENT_INSTANCE_SIZE"
            },
            PoolingKnob::MaxCoreInstancesPerComponent => {
                proof {
                    reveal_strlit("WASMTIME_POOLING_MAX_CORE_INSTANCES_PER_COMPONENT");
                }
                "WASMTIME_POOLING_MAX_CORE_INSTANCES_PER_COMPONENT"
            },
            PoolingKnob::MaxMemoriesPerComponent => {
                proof {
                    reveal_strlit("WASMTIME_POOLING_MAX_MEMORIES_PER_COMPONENT");
                }
                "WASMTIME_POOLING_MAX_MEMORIES_PER_COMPONENT"
            },
            PoolingKnob::MaxTablesPerComponent => {
                proof {
                    reveal_strlit("WASMTIME_POOLING_MAX_TABLES_PER_COMPONENT");
                }
                "WASMTIME_POOLING_MAX_TABLES_PER_COMPONENT"
            },
            PoolingKnob::TotalMemories => {
                proof {
                    reveal_strlit("WASMTIME_POOLING_TOTAL_MEMORIES");
                }
                "WASMTIME_POOLING_TOTAL_MEMORIES"
            },
            PoolingKnob::TotalTables => {
                proof {
                    reveal_strlit("WASMTIME_POOLING_TOTAL_TABLES");
                }
                "WASMTIME_POOLING_TOTAL_TABLES"
            },
            PoolingKnob::TotalStacks => {
                proof {
                    reveal_strlit("WASMTIME_POOLING_TOTAL_STACKS");
                }
                "WASMTIME_POOLING_TOTAL_STACKS"
            },
            PoolingKnob::TotalCoreInstances => {
                proof {
                    reveal_strlit("WASMTIME_POOLING_TOTAL_CORE_INSTANCES");
                }
                "WASMTIME_POOLING_TOTAL_CORE_INSTANCES"
            },
            PoolingKnob::MaxCoreInstanceSize => {
                proof {
                    reveal_strlit("WASMTIME_POOLING_MAX_CORE_INSTANCE_SIZE");
                }
                "WASMTIME_POOLING_MAX_CORE_INSTANCE_SIZE"
            },
            PoolingKnob::MaxTablesPerModule => {
                proof {
                    reveal_strlit("WASMTIME_POOLING_MAX_TABLES_PER_MODULE");
                }
                "WASMTIME_POOLING_MAX_TABLES_PER_MODULE"
            },
            PoolingKnob::TableElements => {
                proof {
                    reveal_strlit("WASMTIME_POOLING_TABLE_ELEMENTS");
                }
                "WASMTIME_POOLING_TABLE_ELEMENTS"
            },
            PoolingKnob::MaxMemoriesPerModule => {
                proof {
                    reveal_strlit("WASMTIME_POOLING_MAX_MEMORIES_PER_MODULE");
                }
                "WASMTIME_POOLING_MAX_MEMORIES_PER_MODULE"
            },
            PoolingKnob::MaxMemorySize => {
                proof {
                    reveal_strlit("WASMTIME_POOLING_MAX_MEMORY_SIZE");
                }
                "WASMTIME_POOLING_MAX_MEMORY_SIZE"
            },
            PoolingKnob::TotalGcHeaps => {
                proof {
                    reveal_strlit("WASMTIME_POOLING_TOTAL_GC_HEAPS");
                }
                "WASMTIME_POOLING_TOTAL_GC_HEAPS"
            },
        }
    }

    pub open spec fn spec_kind(&self) -> KnobKind {
        match self {
            PoolingKnob::MaxUnusedWarmSlots => KnobKind::Count,
            PoolingKnob::DecommitBatchSize => KnobKind::Size,
            PoolingKnob::AsyncStackZeroing => KnobKind::Flag,
            PoolingKnob::AsyncStackKeepResident => KnobKind::Size,
            PoolingKnob::LinearMemoryKeepResident => KnobKind::Size,
            PoolingKnob::TableKeepResident => KnobKind::Size,
            PoolingKnob::TotalComponentInstances => KnobKind::Count,
            PoolingKnob::MaxComponentInstanceSize => KnobKind::Size,
            PoolingKnob::MaxCoreInstancesPerComponent => KnobKind::Count,
            PoolingKnob::MaxMemoriesPerComponent => KnobKind::Count,
            PoolingKnob::MaxTablesPerComponent => KnobKind::Count,
            PoolingKnob::TotalMemories => KnobKind::Count,
            PoolingKnob::TotalTables => KnobKind::Count,
            PoolingKnob::TotalStacks => KnobKind::Count,
            PoolingKnob::TotalCoreInstances => KnobKind::Count,
            PoolingKnob::MaxCoreInstanceSize => KnobKind::Size,
            PoolingKnob::MaxTablesPerModule => KnobKind::Count,
            PoolingKnob::TableElements => KnobKind::Count,
            PoolingKnob::MaxMemoriesPerModule => KnobKind::Count,
            PoolingKnob::MaxMemorySize => KnobKind::Size,
            PoolingKnob::TotalGcHeaps => KnobKind::Count,
        }
    }

    /// The kind of value this knob takes: a flag, a `u32` count or a
    /// `usize` size.
    pub fn kind(&self) -> (r: KnobKind)
        ensures
            r == self.spec_kind(),
    {
        match self {
            PoolingKnob::MaxUnusedWarmSlots => KnobKind::Count,
            PoolingKnob::DecommitBatchSize => KnobKind::Size,
            PoolingKnob::AsyncStackZeroing => KnobKind::Flag,
            PoolingKnob::AsyncStackKeepResident => KnobKind::Size,
            PoolingKnob::LinearMemoryKeepResident => KnobKind::Size,
            PoolingKnob::TableKeepResident => KnobKind::Size,
            PoolingKnob::TotalComponentInstances => KnobKind::Count,
            PoolingKnob::MaxComponentInstanceSize => KnobKind::Size,
            PoolingKnob::MaxCoreInstancesPerComponent => KnobKind::Count,
            PoolingKnob::MaxMemoriesPerComponent => KnobKind::Count,
            PoolingKnob::MaxTablesPerComponent => KnobKind::Count,
            PoolingKnob::TotalMemories => KnobKind::Count,
            PoolingKnob::TotalTables => KnobKind::Count,
            PoolingKnob::TotalStacks => KnobKind::Count,
            PoolingKnob::TotalCoreInstances => KnobKind::Count,
            PoolingKnob::MaxCoreInstanceSize => KnobKind::Size,
            PoolingKnob::MaxTablesPerModule => KnobKind::Count,
            PoolingKnob::TableElements => KnobKind::Count,
            PoolingKnob::MaxMemoriesPerModule => KnobKind::Count,
            PoolingKnob::MaxMemorySize => KnobKind::Size,
            PoolingKnob::TotalGcHeaps => KnobKind::Count,
        }
    }
}

/// The pooling settings for `instances` slots of each counted kind, with the
/// overrides in `o` taking precedence.
pub open spec fn spec_pooling_config(instances: u32, o: PoolingOverrides) -> PoolingConfig {
    PoolingConfig {
        max_unused_warm_slots: o.max_unused_warm_slots,
        decommit_batch_size: o.decommit_batch_size,
        async_stack_zeroing: o.async_stack_zeroing,
        async_stack_keep_resident: o.async_stack_keep_resident,
        linear_memory_keep_resident: o.linear_memory_keep_resident,
        table_keep_resident: o.table_keep_resident,
        total_component_instances: match o.total_component_instances {
            Some(v) => v,
            None => instances,
        },
        max_component_instance_size: o.max_component_instance_size,
        max_core_instances_per_component: o.max_core_instances_per_component,
        max_memories_per_component: o.max_memories_per_component,
        max_tables_per_component: o.max_tables_per_component,
        total_memories: match o.total_memories {
            Some(v) => v,
            None => instances,
        },
        total_tables: match o.total_tables {
            Some(v) => v,
            None => instances,
        },
        total_stacks: match o.total_stacks {
            Some(v) => v,
            None => instances,
        },
        total_core_instances: match o.total_core_instances {
            Some(v) => v,
            None => instances,
        },
        max_core_instance_size: o.max_core_instance_size,
        max_tables_per_module: o.max_tables_per_module,
        table_elements: o.table_elements,
        max_memories_per_module: o.max_memories_per_module,
        max_memory_size: o.max_memory_size,
        total_gc_heaps: match o.total_gc_heaps {
            Some(v) => v,
            None => instances,
        },
    }
}

/// Builds the pooling settings for `instances` slots of each counted kind:
/// an override is taken as it is; a count knob without one gets `instances`;
/// any other knob without one keeps the engine's default.
pub fn new_pooling_config(instances: u32, o: &PoolingOverrides) -> (r: PoolingConfig)
    ensures
        r == spec_pooling_config(instances, *o),
{
    PoolingConfig {
        max_unused_warm_slots: o.max_unused_warm_slots,
        decommit_batch_size: o.decommit_batch_size,
        async_stack_zeroing: o.async_stack_zeroing,
        async_stack_keep_resident: o.async_stack_keep_resident,
        linear_memory_keep_resident: o.linear_memory_keep_resident,
        table_keep_resident: o.table_keep_resident,
        total_component_instances: match o.total_component_instances {
            Some(v) => v,
            None => instances,
        },
        max_component_instance_size: o.max_component_instance_size,
        max_core_instances_per_component: o.max_core_instances_per_component,
        max_memories_per_component: o.max_memories_per_component,
        max_tables_per_component: o.max_tables_per_component,
        total_memories: match o.total_memories {
            Some(v) => v,
            None => instances,
        },
        total_tables: match o.total_tables {
            Some(v) => v,
            None => instances,
        },
        total_stacks: match o.total_stacks {
            Some(v) => v,
            None => instances,
        },
        total_core_instances: match o.total_core_instances {
            Some(v) => v,
            None => instances,
        },
        max_core_instance_size: o.max_core_instance_size,
        max_tables_per_module: o.max_tables_per_module,
        table_elements: o.table_elements,
        max_memories_per_module: o.max_memories_per_module,
        max_memory_size: o.max_memory_size,
        total_gc_heaps: match o.total_gc_heaps {
            Some(v) => v,
            None => instances,
        },
    }
}
/// `FAN_OUT` slots per replica, saturating at `u32::MAX`.
pub open spec fn spec_pool_instances(count: usize) -> nat {
    if count * FAN_OUT <= u32::MAX {
        (count * FAN_OUT) as nat
    } else {
        u32::MAX as nat
    }
}

/// The number of slots of each counted kind that `count` replicas need.
pub fn pool_instances(count: usize) -> (r: u32)
    ensures
        r as nat == spec_pool_instances(count),
{
    if count <= u32::MAX as usize / FAN_OUT {
        (count * FAN_OUT) as u32
    } else {
        u32::MAX
    }
}

/// Engine tunables that the environment may set; `None` keeps the
/// engine's default.
#[derive(Clone, Copy, Debug, PartialEq, Eq, Structural, Default)]
pub struct EngineSettings {
    pub debug_info: Option<bool>,
    pub max_wasm_stack: Option<usize>,
    pub async_stack_size: Option<usize>,
}

/// How the engine allocates instances.
#[derive(Clone, Copy, Debug, PartialEq, Eq, Structural)]
pub enum Strategy {
    Pooling(PoolingConfig),
    OnDemand,
}

/// Everything the engine is built from.
#[derive(Clone, Copy, Debug, PartialEq, Eq, Structural)]
pub struct EngineConfig {
    pub strategy: Strategy,
    pub settings: EngineSettings,
}

pub open spec fn spec_engine_config(
    count: usize,
    pooling: bool,
    o: PoolingOverrides,
    settings: EngineSettings,
) -> EngineConfig {
    EngineConfig {
        strategy: if pooling {
            Strategy::Pooling(spec_pooling_config(spec_pool_instances(count) as u32, o))
        } else {
            Strategy::OnDemand
        },
        settings,
    }
}

/// The configuration for `count` replicas: pooled, sized by
/// [`pool_instances`], where `pooling` holds, else on-demand.
pub fn engine_config(count: usize, pooling: bool, o: &PoolingOverrides, settings: EngineSettings) -> (r: EngineConfig)
    ensures
        r == spec_engine_config(count, pooling, *o, settings),
{
    let strategy = if pooling {
        Strategy::Pooling(new_pooling_config(pool_instances(count), o))
    } else {
        Strategy::OnDemand
    };
    EngineConfig { strategy, settings }
}

/// Whether to use the pooling allocator: an override from the environment
/// decides; without one, the capability probe does, where `probe` is
/// `Some(true)` when the probe allocation succeeded and `None` when the
/// probe itself failed.
pub fn use_pooling_allocator(env_override: Option<bool>, probe: Option<bool>) -> (r: bool)
    ensures
        r == match env_override {
            Some(v) => v,
            None => probe == Some(true),
        },
{
    match env_override {
        Some(v) => v,
        None => match probe {
            Some(b) => b,
            None => false,
        },
    }
}

/// The same configuration with on-demand allocation.
pub open spec fn on_demand(c: EngineConfig) -> EngineConfig {
    EngineConfig { strategy: Strategy::OnDemand, ..c }
}

/// The configurations to try building the engine from, in order: the chosen
/// one, then once more with on-demand allocation. The run fails only when
/// both fail.
pub fn engine_attempts(c: EngineConfig) -> (r: Vec<EngineConfig>)
    ensures
        r@ == seq![c, on_demand(c)],
{
    let r = vec![c, EngineConfig { strategy: Strategy::OnDemand, ..c }];
    assert(r@ =~= seq![c, on_demand(c)]);
    r
}

/// `true` or `false`, as `bool::from_str` reads them.
pub open spec fn spec_parse_flag(s: Seq<u8>) -> Option<bool> {
    if s == seq![116u8, 114, 117, 101] {
        Some(true)
    } else if s == seq![102u8, 97, 108, 115, 101] {
        Some(false)
    } else {
        None
    }
}

/// Reads an override of a flag; `None` where it is malformed.
pub fn parse_flag(s: &[u8]) -> (r: Option<bool>)
    ensures
        r == spec_parse_flag(s@),
{
    if s.len() == 4 && s[0] == 116 && s[1] == 114 && s[2] == 117 && s[3] == 101 {
        assert(s@ =~= seq![116u8, 114, 117, 101]);
        Some(true)
    } else if s.len() == 5 && s[0] == 102 && s[1] == 97 && s[2] == 108 && s[3] == 115 && s[4]
        == 101 {
        assert(s@ =~= seq![102u8, 97, 108, 115, 101]);
        Some(false)
    } else {
        assert(s@ != seq![116u8, 114, 117, 101] && s@ != seq![102u8, 97, 108, 115, 101]) by {
            if s@ == seq![116u8, 114, 117, 101] {
                assert(s@[0] == 116 && s@[1] == 114 && s@[2] == 117 && s@[3] == 101);
            }
            if s@ == seq![102u8, 97, 108, 115, 101] {
                assert(s@[0] == 102 && s@[1] == 97 && s@[2] == 108 && s@[3] == 115 && s@[4]
                    == 101);
            }
        }
        None
    }
}

/// Reads an override of a count, as `u32::from_str` does; `None` where it
/// is malformed or too large.
pub fn parse_count(s: &[u8]) -> (r: Option<u32>)
    ensures
        r == spec_parse_count(s@),
{
    assert(s@.subrange(0, s@.len() as int) =~= s@);
    match parse_u64_range(s, 0, s.len()) {
        Some(v) => if v <= u32::MAX as u64 {
            Some(v as u32)
        } else {
            None
        },
        None => None,
    }
}

/// Reads an override of a size, as `usize::from_str` does; `None` where it
/// is malformed or too large.
pub fn parse_size(s: &[u8]) -> (r: Option<usize>)
    ensures
        r == spec_parse_size(s@),
{
    assert(s@.subrange(0, s@.len() as int) =~= s@);
    match parse_u64_range(s, 0, s.len()) {
        Some(v) => if v as u128 <= usize::MAX as u128 {
            Some(v as usize)
        } else {
            None
        },
        None => None,
    }
}

/// A count override, as `u32::from_str` reads it.
pub open spec fn spec_parse_count(s: Seq<u8>) -> Option<u32> {
    match parsed_within(s, u32::MAX as nat) {
        Some(n) => Some(n as u32),
        None => None,
    }
}

/// A size override, as `usize::from_str` reads it.
pub open spec fn spec_parse_size(s: Seq<u8>) -> Option<usize> {
    match parsed_within(s, usize::MAX as nat) {
        Some(n) => Some(n as usize),
        None => None,
    }
}

/// The value of one knob among the overrides.
#[derive(Clone, Copy, Debug, PartialEq, Eq, Structural)]
pub enum KnobValue {
    Flag(Option<bool>),
    Count(Option<u32>),
    Size(Option<usize>),
}

/// Knob `k`'s override in `o`.
pub open spec fn knob_value(o: PoolingOverrides, k: PoolingKnob) -> KnobValue {
    match k {
        PoolingKnob::MaxUnusedWarmSlots => KnobValue::Count(o.max_unused_warm_slots),
        PoolingKnob::DecommitBatchSize => KnobValue::Size(o.decommit_batch_size),
        PoolingKnob::AsyncStackZeroing => KnobValue::Flag(o.async_stack_zeroing),
        PoolingKnob::AsyncStackKeepResident => KnobValue::Size(o.async_stack_keep_resident),
        PoolingKnob::LinearMemoryKeepResident => KnobValue::Size(o.linear_memory_keep_resident),
        PoolingKnob::TableKeepResident => KnobValue::Size(o.table_keep_resident),
        PoolingKnob::TotalComponentInstances => KnobValue::Count(o.total_component_instances),
        PoolingKnob::MaxComponentInstanceSize => KnobValue::Size(o.max_component_instance_size),
        PoolingKnob::MaxCoreInstancesPerComponent => KnobValue::Count(o.max_core_instances_per_component),
        PoolingKnob::MaxMemoriesPerComponent => KnobValue::Count(o.max_memories_per_component),
        PoolingKnob::MaxTablesPerComponent => KnobValue::Count(o.max_tables_per_component),
        PoolingKnob::TotalMemories => KnobValue::Count(o.total_memories),
        PoolingKnob::TotalTables => KnobValue::Count(o.total_tables),
        PoolingKnob::TotalStacks => KnobValue::Count(o.total_stacks),
        PoolingKnob::TotalCoreInstances => KnobValue::Count(o.total_core_instances),
        PoolingKnob::MaxCoreInstanceSize => KnobValue::Size(o.max_core_instance_size),
        PoolingKnob::MaxTablesPerModule => KnobValue::Count(o.max_tables_per_module),
        PoolingKnob::TableElements => KnobValue::Count(o.table_elements),
        PoolingKnob::MaxMemoriesPerModule => KnobValue::Count(o.max_memories_per_module),
        PoolingKnob::MaxMemorySize => KnobValue::Size(o.max_memory_size),
        PoolingKnob::TotalGcHeaps => KnobValue::Count(o.total_gc_heaps),
    }
}

/// The override that `text` sets for a knob of kind `kind`, where it parses.
pub open spec fn parse_knob(kind: KnobKind, text: Seq<u8>) -> Option<KnobValue> {
    match kind {
        KnobKind::Flag => match spec_parse_flag(text) {
            Some(v) => Some(KnobValue::Flag(Some(v))),
            None => None,
        },
        KnobKind::Count => match spec_parse_count(text) {
            Some(v) => Some(KnobValue::Count(Some(v))),
            None => None,
        },
        KnobKind::Size => match spec_parse_size(text) {
            Some(v) => Some(KnobValue::Size(Some(v))),
            None => None,
        },
    }
}

impl PoolingOverrides {
    /// Reads `text` as the override of knob `k`, and returns whether it
    /// parsed; a malformed text changes nothing.
    pub fn set_override(&mut self, k: PoolingKnob, text: &[u8]) -> (r: bool)
        ensures
            r == parse_knob(k.spec_kind(), text@) is Some,
            r ==> knob_value(*final(self), k) == parse_knob(k.spec_kind(), text@).unwrap(),
            r ==> forall|j: PoolingKnob| j != k ==> knob_value(*final(self), j) == knob_value(
                *old(self),
                j,
            ),
            !r ==> *final(self) == *old(self),
    {
        match k {
            PoolingKnob::MaxUnusedWarmSlots => match parse_count(text) {
                Some(v) => {
                    self.max_unused_warm_slots = Some(v);
                    true
                },
                None => false,
            },
            PoolingKnob::DecommitBatchSize => match parse_size(text) {
                Some(v) => {
                    self.decommit_batch_size = Some(v);
                    true
                },
                None => false,
            },
            PoolingKnob::AsyncStackZeroing => match parse_flag(text) {
                Some(v) => {
                    self.async_stack_zeroing = Some(v);
                    true
                },
                None => false,
            },
            PoolingKnob::AsyncStackKeepResident => match parse_size(text) {
                Some(v) => {
                    self.async_stack_keep_resident = Some(v);
                    true
                },
                None => false,
            },
            PoolingKnob::LinearMemoryKeepResident => match parse_size(text) {
                Some(v) => {
                    self.linear_memory_keep_resident = Some(v);
                    true
                },
                None => false,
            },
            PoolingKnob::TableKeepResident => match parse_size(text) {
                Some(v) => {
                    self.table_keep_resident = Some(v);
                    true
                },
                None => false,
            },
            PoolingKnob::TotalComponentInstances => match parse_count(text) {
                Some(v) => {
                    self.total_component_instances = Some(v);
                    true
                },
                None => false,
            },
            PoolingKnob::MaxComponentInstanceSize => match parse_size(text) {
                Some(v) => {
                    self.max_component_instance_size = Some(v);
                    true
                },
                None => false,
            },
            PoolingKnob::MaxCoreInstancesPerComponent => match parse_count(text) {
                Some(v) => {
                    self.max_core_instances_per_component = Some(v);
                    true
                },
                None => false,
            },
            PoolingKnob::MaxMemoriesPerComponent => match parse_count(text) {
                Some(v) => {
                    self.max_memories_per_component = Some(v);
                    true
                },
                None => false,
            },
            PoolingKnob::MaxTablesPerComponent => match parse_count(text) {
                Some(v) => {
                    self.max_tables_per_component = Some(v);
                    true
                },
                None => false,
            },
            PoolingKnob::TotalMemories => match parse_count(text) {
                Some(v) => {
                    self.total_memories = Some(v);
                    true
                },
                None => false,
            },
            PoolingKnob::TotalTables => match parse_count(text) {
                Some(v) => {
                    self.total_tables = Some(v);
                    true
                },
                None => false,
            },
            PoolingKnob::TotalStacks => match parse_count(text) {
                Some(v) => {
                    self.total_stacks = Some(v);
                    true
                },
                None => false,
            },
            PoolingKnob::TotalCoreInstances => match parse_count(text) {
                Some(v) => {
                    self.total_core_instances = Some(v);
                    true
                },
                None => false,
            },
            PoolingKnob::MaxCoreInstanceSize => match parse_size(text) {
                Some(v) => {
                    self.max_core_instance_size = Some(v);
                    true
                },
                None => false,
            },
            PoolingKnob::MaxTablesPerModule => match parse_count(text) {
                Some(v) => {
                    self.max_tables_per_module = Some(v);
                    true
                },
                None => false,
            },
            PoolingKnob::TableElements => match parse_count(text) {
                Some(v) => {
                    self.table_elements = Some(v);
                    true
                },
                None => false,
            },
            PoolingKnob::MaxMemoriesPerModule => match parse_count(text) {
                Some(v) => {
                    self.max_memories_per_module = Some(v);
                    true
                },
                None => false,
            },
            PoolingKnob::MaxMemorySize => match parse_size(text) {
                Some(v) => {
                    self.max_memory_size = Some(v);
                    true
                },
                None => false,
            },
            PoolingKnob::TotalGcHeaps => match parse_count(text) {
                Some(v) => {
                    self.total_gc_heaps = Some(v);
                    true
                },
                None => false,
            },
        }
    }
}

/// A pooled configuration takes every override as it is, and gives each
/// count knob without one `FAN_OUT` slots per replica.
pub proof fn lemma_pooling_overrides_verbatim(
    count: usize,
    o: PoolingOverrides,
    settings: EngineSettings,
)
    ensures
        spec_engine_config(count, true, o, settings).strategy matches Strategy::Pooling(p) && (
        p.max_unused_warm_slots == o.max_unused_warm_slots && p.decommit_batch_size
            == o.decommit_batch_size && p.async_stack_zeroing == o.async_stack_zeroing
            && p.async_stack_keep_resident == o.async_stack_keep_resident
            && p.linear_memory_keep_resident == o.linear_memory_keep_resident
            && p.table_keep_resident == o.table_keep_resident && p.max_component_instance_size
            == o.max_component_instance_size && p.max_core_instances_per_component
            == o.max_core_instances_per_component && p.max_memories_per_component
            == o.max_memories_per_component && p.max_tables_per_component
            == o.max_tables_per_component && p.max_core_instance_size == o.max_core_instance_size
            && p.max_tables_per_module == o.max_tables_per_module && p.table_elements
            == o.table_elements && p.max_memories_per_module == o.max_memories_per_module
            && p.max_memory_size == o.max_memory_size && (o.total_component_instances matches Some(
            v) ==> p.total_component_instances == v) && (o.total_component_instances is None
            ==> p.total_component_instances == spec_pool_instances(count)) && (
        o.total_memories matches Some(v) ==> p.total_memories == v) && (o.total_memories is None
            ==> p.total_memories == spec_pool_instances(count)) && (o.total_tables matches Some(v)
            ==> p.total_tables == v) && (o.total_tables is None ==> p.total_tables
            == spec_pool_instances(count)) && (o.total_stacks matches Some(v) ==> p.total_stacks
            == v) && (o.total_stacks is None ==> p.total_stacks == spec_pool_instances(count)) && (
        o.total_core_instances matches Some(v) ==> p.total_core_instances == v) && (
        o.total_core_instances is None ==> p.total_core_instances == spec_pool_instances(count))
            && (o.total_gc_heaps matches Some(v) ==> p.total_gc_heaps == v) && (o.total_gc_heaps is None
            ==> p.total_gc_heaps == spec_pool_instances(count))),
{
}

} // verus!
