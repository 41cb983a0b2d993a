//! Memory domains and the books of the allocator.
use flutz_app::allocator::{read_totals, totals_of, AllocatorReadings};
use flutz_app::allocation_trace::{capture_stack_hash, memory_domain_for_scope, snapshot};
use flutz_app::allocation_trace::{AllocationScope, AllocationScopeGuard, ThreadScope};
use flutz_app::allocation_trace::TracingAllocator;
use flutz_app::memory_runtime::{action_name, aggressive_release, allocator_name, arena_property};
use flutz_app::memory_runtime::{bind_current_thread, configure_global, decay_all_idle_domains};
use flutz_app::memory_runtime::{decay_domain, decay_idle_reuse_preserving, domain_from_index};
use flutz_app::memory_runtime::{purge_domain, remediate_idle_os_pressure, status_summary};
use flutz_app::memory_runtime::{MemoryAction, MemoryDomain, MemoryEnvironment, MemoryRuntime};
use flutz_app::memory_runtime::{MemoryRuntimeConfig, MemoryTotalsSnapshot, OsMemoryCounters};
use flutz_app::memory_runtime::{snapshot_after_maintenance, snapshot_after_pressure_remediation};
use flutz_app::memory_runtime::{decay_times_of, snapshot as take_memory_snapshot};
use flutz_app::memory_runtime::{MemoryReading, MemoryRuntimeSnapshot, OsMemorySnapshot};
use flutz_app::memory_runtime::ThreadDomain;
use flutz_app::perf_trace::allocation_trace_json;
use std::cell::RefCell;

fn no_environment() -> MemoryEnvironment {
    MemoryEnvironment {
        retain: None,
        background_thread: None,
        max_background_threads: None,
        dirty_decay_ms: None,
        muzzy_decay_ms: None,
        hot_dirty_decay_ms: None,
        hot_muzzy_decay_ms: None,
        lg_extent_max_active_fit: None,
        dss: None,
        idle_working_set_growth_bytes: None,
    }
}

fn runtime() -> MemoryRuntime {
    let arenas: Vec<Option<usize>> = (0..12).map(|n| if n == 1 { None } else { Some(n + 10) }).collect();
    MemoryRuntime::new(
        MemoryRuntimeConfig::from_env(true, &no_environment()),
        true,
        &arenas,
        Vec::new(),
    )
}

fn totals(active: usize, resident: usize, retained: usize) -> MemoryTotalsSnapshot {
    MemoryTotalsSnapshot {
        available: true,
        allocated_bytes: active,
        active_bytes: active,
        resident_bytes: resident,
        retained_bytes: retained,
        mapped_bytes: resident,
        active_growth_bytes: 0,
        resident_growth_bytes: 0,
        retained_growth_bytes: 0,
        allocated_since_bytes: 0,
        allocated_since_ns: 0,
    }
}

fn os(working_set: u64, totals: MemoryTotalsSnapshot) -> OsMemorySnapshot {
    OsMemorySnapshot::from_counters(
        OsMemoryCounters {
            available: true,
            working_set_bytes: working_set,
            peak_working_set_bytes: working_set,
            pagefile_bytes: working_set,
            peak_pagefile_bytes: working_set,
            page_fault_count: 3,
        },
        totals,
    )
}

#[test]
fn domains_have_numbers_and_labels() {
    for index in 0..12 {
        let domain = domain_from_index(index).unwrap_or(MemoryDomain::App);
        assert_eq!(domain.index(), index);
        assert!(!domain.label().is_empty());
    }
    assert!(domain_from_index(12).is_none());
}

#[test]
fn settings_come_from_the_environment() {
    let config = MemoryRuntimeConfig::from_env(false, &no_environment());
    assert_eq!(
        config.summary(),
        "retain=true background_thread=false max_background_threads=2 dirty_decay_ms=30000 \
         muzzy_decay_ms=30000 hot_dirty_decay_ms=120000 hot_muzzy_decay_ms=120000 \
         lg_extent_max_active_fit=<default> dss=<default> idle_working_set_growth_bytes=33554432"
    );
    let mut environment = no_environment();
    environment.retain = Some("off".to_owned());
    environment.dirty_decay_ms = Some("-1".to_owned());
    environment.lg_extent_max_active_fit = Some("7".to_owned());
    environment.dss = Some("primary".to_owned());
    environment.max_background_threads = Some("many".to_owned());
    let config = MemoryRuntimeConfig::from_env(true, &environment);
    assert!(!config.retain);
    assert_eq!(config.dirty_decay_ms, -1);
    assert_eq!(config.lg_extent_max_active_fit, Some(7));
    assert_eq!(config.dss.as_deref(), Some("primary"));
    assert_eq!(config.max_background_threads, 2);
    assert!(configure_global(&config).len() <= 3);
}

#[test]
fn upkeep_is_not_repeated_too_soon() {
    let mut memory = runtime();
    let at: u128 = 1_000_000_000;
    let app = MemoryDomain::App;
    assert!(decay_domain(&mut memory, app, at) == Some(MemoryAction::Decay(10)));
    assert!(decay_domain(&mut memory, app, at + 249_999_999).is_none());
    assert!(decay_domain(&mut memory, app, at + 250_000_000) == Some(MemoryAction::Decay(10)));
    assert!(purge_domain(&mut memory, app, at) == Some(MemoryAction::Purge(10)));
    assert!(purge_domain(&mut memory, app, at + 1_999_999_999).is_none());
    assert_eq!(memory.domains[0].decay_count, 2);
    assert_eq!(memory.domains[0].purge_count, 1);
    assert_eq!(action_name(MemoryAction::Decay(10)), "arena.10.decay");
    assert_eq!(arena_property(3, "dirty_decay_ms"), "arena.3.dirty_decay_ms");
}

#[test]
fn playback_memory_is_spared_while_playing() {
    let mut memory = runtime();
    let critical = memory.domains.iter().filter(|domain| domain.domain.reuse_critical()).count();
    assert!(critical > 0);
    let spared = decay_idle_reuse_preserving(&mut memory, true, 1);
    let mut other = runtime();
    let all = decay_idle_reuse_preserving(&mut other, false, 1);
    assert!(spared.len() < all.len());
    let mut idle = runtime();
    assert_eq!(decay_all_idle_domains(&mut idle, 1).len(), spared.len());
    assert_eq!(all.len(), 11);
    for domain in &memory.domains {
        assert_eq!(domain.decay_count, if domain.domain.reuse_critical() { 0 } else { 1 });
    }
}

#[test]
fn release_purges_every_arena() {
    let mut memory = runtime();
    let actions = aggressive_release(&mut memory, 1);
    let purges = actions.iter().filter(|action| matches!(action, MemoryAction::Purge(_))).count();
    assert_eq!(purges, 11);
    let under_pressure = remediate_idle_os_pressure(&mut memory, true, 2);
    assert!(under_pressure.iter().all(|action| matches!(action, MemoryAction::Decay(_))));
    let mut idle = runtime();
    assert_eq!(remediate_idle_os_pressure(&mut idle, false, 2).len(), 22);
}

#[test]
fn threads_get_their_domain_back() {
    let mut memory = runtime();
    let mut thread = ThreadDomain::unbound();
    let before = thread.current;
    let (outer, action) = bind_current_thread(&mut memory, &mut thread, MemoryDomain::App);
    assert!(action == Some(MemoryAction::Bind(10)));
    let bound = thread.current;
    let (inner, _) = bind_current_thread(&mut memory, &mut thread, MemoryDomain::FileLoad);
    assert!(thread.current != bound);
    thread.release(inner);
    assert_eq!(thread.current, bound);
    thread.release(outer);
    assert_eq!(thread.current, before);
}

#[test]
fn growth_is_measured_between_samples() {
    let mut memory = runtime();
    let first = totals(100, 200, 50);
    let (shown, _, _) = memory.record_sample(first, os(1_000, first), 1_000_000_000);
    assert_eq!(shown.active_growth_bytes, 0);
    let second = totals(140, 190, 80);
    let (shown, seen, _) = memory.record_sample(second, os(1_500, second), 2_000_000_000);
    assert_eq!(shown.active_growth_bytes, 40);
    assert_eq!(shown.resident_growth_bytes, -10);
    assert_eq!(shown.retained_growth_bytes, 30);
    assert_eq!(seen.working_set_growth_bytes, 500);
    assert_eq!(seen.working_set_minus_jemalloc_resident_bytes, 1_310);
    let snapshot = memory.snapshot(shown, "12.500".to_owned(), seen);
    let json = snapshot.to_json();
    assert!(json.contains("\"active_growth_bytes\":40"));
    assert!(json.starts_with('{') && json.ends_with('}'));
    assert!(status_summary(&snapshot).starts_with(&format!(
        "allocator={} enabled=true resident=190 retained=80 config=retain=true",
        allocator_name(true)
    )));
}

#[test]
fn scopes_read_back_and_nest() {
    let scopes = [
        AllocationScope::Unscoped,
        AllocationScope::AppUpdate,
        AllocationScope::PerfTrace,
        AllocationScope::FileLoad,
        AllocationScope::PlaybackLoad,
        AllocationScope::AudioCallback,
        AllocationScope::PlaybackRender,
        AllocationScope::RenderStems,
        AllocationScope::RenderMixer,
        AllocationScope::RenderSnapshot,
        AllocationScope::Ui,
    ];
    for scope in scopes {
        assert!(AllocationScope::from_index(scope.index()) == scope);
    }
    assert!(AllocationScope::from_index(99) == AllocationScope::Unscoped);
    assert!(memory_domain_for_scope(AllocationScope::Unscoped).is_none());

    let mut memory = runtime();
    let mut thread = ThreadScope { scope: 0, domain: ThreadDomain::unbound() };
    let (outer, _) = AllocationScopeGuard::enter(true, &mut thread, &mut memory, AllocationScope::Ui);
    assert_eq!(thread.scope, AllocationScope::Ui.index());
    let (inner, _) = AllocationScopeGuard::enter(true, &mut thread, &mut memory, AllocationScope::FileLoad);
    inner.leave(&mut thread);
    assert_eq!(thread.scope, AllocationScope::Ui.index());
    outer.leave(&mut thread);
    assert_eq!(thread.scope, 0);
}

#[test]
fn the_books_balance() {
    let mut books = TracingAllocator::new(true);
    books.record_alloc(1, 100, 7);
    books.record_alloc(1, 50, 7);
    books.record_dealloc(1, 50);
    books.record_realloc(1, 100, 300, 7);
    let shown = snapshot(&mut books);
    assert_eq!(shown.alloc_calls, 2);
    assert_eq!(shown.dealloc_calls, 1);
    assert_eq!(shown.realloc_calls, 1);
    assert_eq!(shown.live_bytes, 300);
    assert_eq!(shown.peak_live_bytes, 300);
    assert_eq!(shown.outstanding_allocations, 1);
    assert_eq!(shown.scopes[1].net_bytes, 300);
    assert_eq!(shown.scopes[0].net_bytes, 0);
    books.record_dealloc(1, 300);
    assert_eq!(snapshot(&mut books).live_bytes, 0);
}

#[test]
fn large_allocations_are_sampled() {
    let mut books = TracingAllocator::new(true);
    let hash = capture_stack_hash(11, Some(&[1, 2, 3]));
    assert!(hash != capture_stack_hash(11, Some(&[3, 2, 1])));
    books.record_alloc(2, 8_192, hash);
    books.record_alloc(2, 4_096, hash);
    let shown = snapshot(&mut books);
    assert_eq!(shown.stack_buckets.len(), 1);
    assert_eq!(shown.stack_buckets[0].sample_calls, 2);
    assert_eq!(shown.stack_buckets[0].sample_bytes, 12_288);
    assert_eq!(shown.stack_buckets[0].max_sample_bytes, 8_192);
    let json = allocation_trace_json(&shown);
    assert!(json.starts_with("{\"alloc_calls\":2,\"dealloc_calls\":0,"));
    assert!(json.contains(&format!("\"hash\":\"{hash:016x}\"")));
    assert!(json.contains("\"scopes\":[{\"name\":\""));
}

fn readings(fails: usize) -> AllocatorReadings {
    let read = |place: usize, bytes: usize| if place == fails { Err("busy".to_owned()) } else { Ok(bytes) };
    AllocatorReadings {
        epoch: if fails == 0 { Err("busy".to_owned()) } else { Ok(()) },
        allocated: read(1, 10),
        active: read(2, 20),
        resident: read(3, 30),
        retained: read(4, 40),
        mapped: read(5, 50),
    }
}

#[test]
fn allocator_totals_need_every_answer() {
    match totals_of(readings(9)) {
        Ok(totals) => {
            assert!(totals.available);
            assert_eq!((totals.allocated_bytes, totals.active_bytes, totals.resident_bytes), (10, 20, 30));
            assert_eq!((totals.retained_bytes, totals.mapped_bytes), (40, 50));
            assert_eq!(totals.active_growth_bytes, 0);
        }
        Err(error) => panic!("{error}"),
    }
    let texts = [
        "jemalloc epoch advance failed: busy",
        "jemalloc stats.allocated read failed: busy",
        "jemalloc stats.active read failed: busy",
        "jemalloc stats.resident read failed: busy",
        "jemalloc stats.retained read failed: busy",
        "jemalloc stats.mapped read failed: busy",
    ];
    for (fails, text) in texts.iter().enumerate() {
        assert_eq!(totals_of(readings(fails)).err().as_deref(), Some(*text));
    }
}

#[test]
fn allocator_totals_are_read() {
    match read_totals(false) {
        Ok(totals) => assert!(!totals.available && totals.resident_bytes == 0),
        Err(error) => panic!("{error}"),
    }
    match read_totals(true) {
        Ok(totals) => assert!(totals.available && totals.active_bytes >= totals.allocated_bytes),
        Err(error) => panic!("{error}"),
    }
}

fn reading(at: u128, totals: MemoryTotalsSnapshot, working_set: u64) -> MemoryReading {
    MemoryReading { at, totals, os: os(working_set, totals) }
}

fn nothing_done(_: Vec<MemoryAction>) -> Vec<String> {
    panic!("nothing is asked for")
}

fn rate(bytes: usize, nanoseconds: u128) -> String {
    format!("{bytes}/{nanoseconds}")
}

#[test]
fn growth_is_counted_by_domain() {
    let mut memory = runtime();
    let first = memory.take_snapshot(reading(1, totals(100, 200, 50), 1_000), &nothing_done, &rate);
    assert_eq!(first.allocated_bytes_per_sec, "0/0");
    assert_eq!((first.totals.active_growth_bytes, first.os.working_set_growth_bytes), (0, 0));
    let calm = memory.take_snapshot(reading(2, totals(90, 200, 50), 1_000), &nothing_done, &rate);
    assert_eq!(calm.allocated_bytes_per_sec, "0/1");
    assert_eq!(calm.totals.active_growth_bytes, -10);
    let counts = |shown: &MemoryRuntimeSnapshot, critical: bool| -> Vec<(u64, u64, u64)> {
        let of_kind = shown.domains.iter().filter(|domain| domain.reuse_critical == critical);
        of_kind
            .map(|domain| (domain.growth_events, domain.retained_floor_hits, domain.zero_growth_streak))
            .collect()
    };
    assert!(counts(&calm, true).iter().all(|counts| *counts == (0, 1, 1)));
    assert!(counts(&calm, false).iter().all(|counts| *counts == (0, 0, 0)));
    let shown = memory.take_snapshot(reading(5, totals(130, 200, 90), 1_000), &nothing_done, &rate);
    assert_eq!(shown.allocated_bytes_per_sec, "40/3");
    assert_eq!((shown.totals.allocated_since_bytes, shown.totals.allocated_since_ns), (40, 3));
    assert_eq!(shown.totals.retained_growth_bytes, 40);
    assert!(!counts(&shown, true).is_empty());
    assert!(counts(&shown, true).iter().all(|counts| *counts == (1, 1, 0)));
    assert!(counts(&shown, false).iter().all(|counts| *counts == (0, 0, 0)));
}

#[test]
fn a_row_of_samples_is_counted() {
    let mut memory = runtime();
    for growth in [5, 0, -3, 7, 0, 0] {
        memory.record_growth(growth);
    }
    for domain in &memory.domains {
        let counts = (domain.growth_events, domain.retained_floor_hits, domain.zero_growth_streak);
        assert_eq!(counts, if domain.domain.reuse_critical() { (2, 4, 2) } else { (0, 0, 0) });
    }
}

#[test]
fn errors_of_a_snapshot_are_shown_in_it() {
    let mut memory = runtime();
    memory.push_error("old".to_owned());
    let fail = |actions: Vec<MemoryAction>| -> Vec<String> {
        actions.iter().map(|_| "purge failed".to_owned()).collect()
    };
    memory.take_snapshot(reading(1, totals(100, 200, 50), 0), &nothing_done, &rate);
    let pressed = memory.take_snapshot(reading(2, totals(100, 200, 50), 1 << 40), &fail, &rate);
    assert_eq!(pressed.errors, ["old", "purge failed"]);
    assert!(pressed.domains.iter().all(|domain| (domain.purge_count == 1) != domain.reuse_critical));
    let mut decayed = runtime();
    let read = || reading(7, totals(100, 200, 50), 0);
    let shown = snapshot_after_maintenance(&mut decayed, false, 7, &fail, read, &rate);
    assert_eq!(shown.errors, ["purge failed"]);
}

#[test]
fn snapshots_follow_the_upkeep() {
    let day = 86_400_000_000_000u128;
    let mut memory = runtime();
    let mut expected = runtime();
    let wanted = decay_idle_reuse_preserving(&mut expected, false, day);
    assert_eq!(wanted.len(), 11);
    let asked: RefCell<Vec<MemoryAction>> = RefCell::new(Vec::new());
    let perform = |actions: Vec<MemoryAction>| -> Vec<String> {
        asked.borrow_mut().extend(actions);
        Vec::new()
    };
    let read = || {
        assert_eq!(asked.borrow().len(), 11);
        reading(day, totals(100, 200, 50), 0)
    };
    let shown = snapshot_after_maintenance(&mut memory, false, day, &perform, read, &rate);
    assert!(asked.take() == wanted);
    assert_eq!(shown.totals.resident_bytes, 200);
    assert!(shown.domains.iter().all(|domain| domain.decay_count == 1));
    let mut relieved = runtime();
    let mut expected = runtime();
    let wanted = remediate_idle_os_pressure(&mut expected, false, day);
    let read = || reading(day, totals(100, 200, 50), 0);
    let shown = snapshot_after_pressure_remediation(&mut relieved, false, day, &perform, read, &rate);
    assert!(asked.take() == wanted);
    assert!(shown.domains.iter().all(|domain| domain.purge_count == 1));
    let again = take_memory_snapshot(&mut relieved, reading(day + 2, totals(100, 200, 50), 0), &nothing_done, &rate);
    assert_eq!(again.allocated_bytes_per_sec, "0/2");
}

#[test]
fn upkeep_waits_for_any_limit() {
    let mut memory = runtime();
    let domain = MemoryDomain::Ui;
    assert!(memory.should_run_maintenance(domain, 10, true, 5));
    assert!(!memory.should_run_maintenance(domain, 10, true, 14));
    assert!(memory.should_run_maintenance(domain, 10, false, 14));
    assert!(memory.should_run_maintenance(MemoryDomain::App, 10, true, 14));
    assert!(memory.should_run_maintenance(domain, 10, true, 15));
    assert!(!memory.should_run_maintenance(domain, 100, true, 30));
    assert!(memory.should_run_maintenance(domain, 0, true, 15));
}

#[test]
fn decay_times_follow_the_domain() {
    let config = MemoryRuntimeConfig::from_env(false, &no_environment());
    let hot = (config.hot_dirty_decay_ms, config.hot_muzzy_decay_ms);
    let cold = (config.dirty_decay_ms, config.muzzy_decay_ms);
    for index in 0..12 {
        if let Some(domain) = domain_from_index(index) {
            let wanted = if domain.reuse_critical() { hot } else { cold };
            assert_eq!(decay_times_of(&config, domain), wanted);
        }
    }
}

#[test]
fn a_build_without_the_trace_keeps_no_books() {
    let mut memory = runtime();
    let mut thread = ThreadScope { scope: 0, domain: ThreadDomain::unbound() };
    let (guard, action) =
        AllocationScopeGuard::enter(false, &mut thread, &mut memory, AllocationScope::Ui);
    assert!(action.is_none() && guard.previous.is_none() && guard.memory_guard.is_none());
    assert_eq!(thread.scope, 0);
    assert!(thread.domain == ThreadDomain::unbound());
    assert!(memory.domains.iter().all(|domain| domain.bind_count == 0));
    guard.leave(&mut thread);
    assert_eq!(thread.scope, 0);
    let mut books = TracingAllocator::new(false);
    books.record_alloc(1, 8_192, 7);
    let shown = snapshot(&mut books);
    assert_eq!((shown.alloc_calls, shown.live_bytes), (0, 0));
    assert!(shown.scopes.is_empty() && shown.stack_buckets.is_empty());
}

#[test]
fn the_books_balance_in_every_scope() {
    let mut books = TracingAllocator::new(true);
    books.record_alloc(1, 100, 7);
    books.record_alloc(2, 50, 7);
    books.record_realloc(2, 50, 70, 7);
    books.record_dealloc(1, 100);
    let shown = snapshot(&mut books);
    assert_eq!(shown.live_bytes, 70);
    assert_eq!(shown.scopes.iter().map(|scope| scope.net_bytes).sum::<i64>(), 70);
    assert_eq!(shown.scopes[2].net_bytes, 70);
    assert_eq!(shown.alloc_bytes - shown.dealloc_bytes, 50);
    assert_eq!((shown.realloc_in_bytes, shown.realloc_out_bytes), (50, 70));
}
