use cgwasm::engine::{
    engine_attempts, engine_config, new_pooling_config, parse_count, parse_flag, parse_size,
    pool_instances, use_pooling_allocator, EngineSettings, KnobKind, PoolingKnob,
    PoolingOverrides, Strategy,
};

#[test]
fn unset_count_knobs_scale_with_replicas() {
    let cfg = engine_config(3, true, &PoolingOverrides::default(), EngineSettings::default());
    let Strategy::Pooling(p) = cfg.strategy else { panic!("expected pooling") };
    assert_eq!(p.total_component_instances, 12);
    assert_eq!(p.total_memories, 12);
    assert_eq!(p.total_tables, 12);
    assert_eq!(p.total_stacks, 12);
    assert_eq!(p.total_core_instances, 12);
    assert_eq!(p.total_gc_heaps, 12);
    assert_eq!(p.max_memory_size, None);
    assert_eq!(p.async_stack_zeroing, None);
}

#[test]
fn overrides_are_taken_verbatim() {
    let o = PoolingOverrides {
        total_memories: Some(7),
        max_memory_size: Some(1 << 20),
        async_stack_zeroing: Some(true),
        table_elements: Some(99),
        ..PoolingOverrides::default()
    };
    let p = new_pooling_config(40, &o);
    assert_eq!(p.total_memories, 7);
    assert_eq!(p.total_tables, 40);
    assert_eq!(p.max_memory_size, Some(1 << 20));
    assert_eq!(p.async_stack_zeroing, Some(true));
    assert_eq!(p.table_elements, Some(99));
    assert_eq!(p.max_unused_warm_slots, None);
}

#[test]
fn pool_instances_saturate() {
    assert_eq!(pool_instances(1), 4);
    assert_eq!(pool_instances(250), 1000);
    assert_eq!(pool_instances(usize::MAX), u32::MAX);
    assert_eq!(pool_instances(1 << 30), u32::MAX);
}

#[test]
fn pooling_selection() {
    assert!(use_pooling_allocator(Some(true), Some(false)));
    assert!(!use_pooling_allocator(Some(false), Some(true)));
    assert!(use_pooling_allocator(None, Some(true)));
    assert!(!use_pooling_allocator(None, Some(false)));
    assert!(!use_pooling_allocator(None, None));
}

#[test]
fn fallback_to_on_demand() {
    let settings = EngineSettings { debug_info: Some(true), max_wasm_stack: None, async_stack_size: Some(1 << 21) };
    let cfg = engine_config(2, true, &PoolingOverrides::default(), settings);
    let attempts = engine_attempts(cfg);
    assert_eq!(attempts.len(), 2);
    assert_eq!(attempts[0], cfg);
    assert_eq!(attempts[1].strategy, Strategy::OnDemand);
    assert_eq!(attempts[1].settings, settings);
    let plain = engine_config(2, false, &PoolingOverrides::default(), settings);
    assert_eq!(plain.strategy, Strategy::OnDemand);
}

#[test]
fn override_text_parsing() {
    assert_eq!(parse_flag(b"true"), Some(true));
    assert_eq!(parse_flag(b"false"), Some(false));
    assert_eq!(parse_flag(b"True"), None);
    assert_eq!(parse_flag(b"1"), None);
    assert_eq!(parse_count(b"4294967295"), Some(u32::MAX));
    assert_eq!(parse_count(b"4294967296"), None);
    assert_eq!(parse_count(b" 5"), None);
    assert_eq!(parse_count(b"+5"), Some(5));
    assert_eq!(parse_size(b"65536"), Some(65536));
    assert_eq!(parse_size(b"64k"), None);
}

#[test]
fn knob_table() {
    let all = PoolingKnob::all();
    assert_eq!(all.len(), 21);
    let mut names: Vec<&str> = all.iter().map(|k| k.env_name()).collect();
    names.sort();
    names.dedup();
    assert_eq!(names.len(), 21);
    assert!(names.iter().all(|n| n.starts_with("WASMTIME_POOLING_")));
    assert_eq!(all[0], PoolingKnob::MaxUnusedWarmSlots);
    assert_eq!(all[20], PoolingKnob::TotalGcHeaps);
    assert_eq!(PoolingKnob::TotalGcHeaps.env_name(), "WASMTIME_POOLING_TOTAL_GC_HEAPS");
    assert_eq!(PoolingKnob::TableElements.env_name(), "WASMTIME_POOLING_TABLE_ELEMENTS");
    assert_eq!(PoolingKnob::TotalMemories.env_name(), "WASMTIME_POOLING_TOTAL_MEMORIES");
    assert_eq!(PoolingKnob::MaxUnusedWarmSlots.env_name(), "WASMTIME_POOLING_MAX_UNUSED_WASM_SLOTS");
    assert_eq!(PoolingKnob::AsyncStackZeroing.kind(), KnobKind::Flag);
    assert_eq!(PoolingKnob::TableElements.kind(), KnobKind::Count);
    assert_eq!(PoolingKnob::MaxMemorySize.kind(), KnobKind::Size);
}

#[test]
fn knob_overrides_from_text() {
    let mut o = PoolingOverrides::default();
    assert!(o.set_override(PoolingKnob::TotalStacks, b"17"));
    assert!(o.set_override(PoolingKnob::AsyncStackZeroing, b"false"));
    assert!(!o.set_override(PoolingKnob::MaxMemorySize, b"lots"));
    assert!(!o.set_override(PoolingKnob::TotalTables, b"-1"));
    assert_eq!(o.total_stacks, Some(17));
    assert_eq!(o.async_stack_zeroing, Some(false));
    assert_eq!(o.max_memory_size, None);
    assert_eq!(o.total_tables, None);
    let p = new_pooling_config(8, &o);
    assert_eq!(p.total_stacks, 17);
    assert_eq!(p.total_tables, 8);
}
