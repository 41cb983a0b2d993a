//! The performance and latency traces and the snapshots that they record.
use flutz_app::allocation_trace::TracingAllocator;
use flutz_app::perf_snapshots::{heap_piece, HeapPiece, NativeHeapSnapshot};
use flutz_app::perf_snapshots::{PerfAudioMemorySnapshot, PerfLifecycleSnapshot};
use flutz_app::perf_snapshots::{PerfSoundFontCacheEntrySnapshot, PerfSoundFontCacheSnapshot};
use flutz_app::perf_trace::{allocation_trace_json, default_latency_log_name, default_log_name, filetime_100ns};
use flutz_app::perf_trace::{memory_gap_json, LatencyEvent, LatencyTrace, Moment, PerfProcessSnapshot};
use flutz_app::perf_trace::{PerfTrace, ProcessMetricSampler, RawProcessResourceSnapshot};
use flutz_app::perf_trace::{process_cpu_time_ms, process_thread_count};
use flutz_app::perf_trace::{RecordedMetrics, RecordedProcess};
use flutz_app::playback::diagnostics::{ArcReferenceDiagnostics, AudioRuntimeMemoryDiagnostics};
use flutz_app::playback::diagnostics::{expected_audio_closure_roots, expected_engine_roots};
use flutz_app::playback::diagnostics::{output_latency_breakdown, PlaybackLifecycleDiagnostics};

const SECOND: u128 = 1_000_000_000;

fn at(seconds: u128) -> Moment {
    Moment { now: seconds * SECOND, wall_time_ms: 1_000 + seconds * 1_000 }
}

fn metrics(underruns: u64, queue_errors: u64) -> RecordedMetrics {
    RecordedMetrics {
        json: "{}".to_owned(),
        transport_tick: 12,
        output_peak: "0.500".to_owned(),
        ring_available_frames: Some(3),
        ring_capacity_frames: Some(9),
        underrun_count: Some(underruns),
        queue_error_count: Some(queue_errors),
        tracked_total_bytes: 10,
        active_bytes: 20,
        resident_bytes: 30,
    }
}

fn trace() -> (PerfTrace, Option<String>) {
    PerfTrace::new(
        true,
        true,
        false,
        "s1".to_owned(),
        None,
        "perf.jsonl".to_owned(),
        None,
        at(0),
    )
}

#[test]
fn traces_are_switched_on_and_off() {
    let (on, _) = trace();
    assert!(on.is_enabled());
    let (off, line) =
        PerfTrace::new(true, true, true, "s".to_owned(), None, "p".to_owned(), None, at(0));
    assert!(!off.is_enabled() && line.is_none());
    let (inert, _) =
        PerfTrace::new(true, false, false, "s".to_owned(), None, "p".to_owned(), None, at(0));
    assert_eq!(inert.status_line(), "perf trace inert for this build");
    assert_eq!(default_log_name("s1"), "flutz-session-s1.jsonl");
    assert_eq!(default_latency_log_name("s1"), "flutz-latency-s1.jsonl");
}

#[test]
fn issues_are_sampled_once() {
    let (mut trace, _) = trace();
    assert!(!trace.is_periodic_sample_due(SECOND));
    assert!(trace.sample_frame(metrics(1, 0), None, at(1)).is_none());
    assert!(trace.is_periodic_sample_due(2 * SECOND));
    trace.sample_frame(metrics(1, 0), None, at(2));
    let issues = trace.issues();
    assert_eq!(issues.len(), 1);
    assert_eq!(issues[0].outcome.as_deref(), Some("audio underrun count advanced 0 -> 1"));
    let records = trace.records();
    assert_eq!(records.last().map(|record| record.sequence), Some(issues[0].sequence));
    trace.sample_frame(metrics(1, 0), None, at(4));
    assert_eq!(trace.issues().len(), 1);
    trace.sample_frame(metrics(1, 2), None, at(6));
    assert_eq!(trace.issues()[1].outcome.as_deref(), Some("audio queue error count advanced 0 -> 2"));
}

#[test]
fn slow_frames_are_issues() {
    let (mut trace, _) = trace();
    trace.observe_frame(SECOND / 4);
    trace.sample_frame(metrics(0, 0), None, at(2));
    assert_eq!(trace.issues()[0].outcome.as_deref(), Some("ui frame gap 250ms"));
}

#[test]
fn records_are_bounded() {
    let (mut trace, _) = trace();
    for n in 0..5_000 {
        trace.record_marker("mark", "ok", None, at(n));
    }
    let records = trace.records();
    assert!(records.len() < 5_000);
    assert_eq!(records.last().map(|record| record.wall_time_ms), Some(1_000 + 4_999_000));
}

#[test]
fn operations_begin_and_end() {
    let (mut trace, _) = trace();
    let (first, _) = trace.begin_user_event("open", metrics(0, 0), None, at(1));
    let (second, _) = trace.begin_user_event("open", metrics(0, 0), None, at(1));
    assert_ne!(first, second);
    trace.finish_user_event(first, "open", "ok", metrics(0, 0), None, at(2));
    let records = trace.records();
    let last = &records[records.len() - 1];
    assert_eq!(last.operation_id, first);
    assert_eq!(last.outcome.as_deref(), Some("ok"));
    assert!(last.summary().ends_with(" open ok tick=12 peak=0.500 ring=3/9 underruns=0 qerr=0"));
    assert!(last.to_json_line().starts_with("{\"schema\":\"flutz_perf_trace.v1\",\"session\":\"s1\""));
}

#[test]
fn logging_starts_with_what_is_there() {
    let (mut trace, _) = trace();
    trace.record_marker("one", "ok", None, at(1));
    match trace.start_logging_default("a.jsonl".to_owned()) {
        Ok(lines) => assert_eq!(lines, trace.all_lines()),
        Err(error) => panic!("{error}"),
    }
    assert!(trace.finish_start_logging(Ok(()), None, at(2)).is_ok());
    let line = trace.record_diagnostic(
        "two",
        "ok",
        vec![("key".to_owned(), "a \"b\"".to_owned())],
        None,
        at(3),
    );
    assert!(line.unwrap_or_default().contains("a \\\"b\\\""));
    trace.note_log_error("disk full".to_owned());
    assert!(trace.status_line().contains("disk full"));
    trace.stop_logging(None, at(4));
    assert!(trace.log_path.is_none());
    trace.clear(None, at(5));
    assert_eq!(trace.issues().len(), 0);
    assert!(trace.records().len() <= 1);
}

#[test]
fn processes_are_sampled_by_difference() {
    let raw = RawProcessResourceSnapshot {
        cpu_time_ms: 100,
        working_set_bytes: 5,
        peak_working_set_bytes: 6,
        pagefile_bytes: 7,
        peak_pagefile_bytes: 8,
        page_fault_count: 9,
        thread_count: None,
        handle_count: Some(3),
        read_bytes: 50,
        write_bytes: 60,
        native_heaps: None,
    };
    let mut sampler = ProcessMetricSampler::new(0);
    assert!(sampler.sample(false, Some(&raw), SECOND).is_none());
    assert!(sampler.sample(true, None, SECOND).is_none());
    assert!(sampler == ProcessMetricSampler::new(0));
    let sampled = (sampler.sample(true, Some(&raw), SECOND), sampler.sample(true, Some(&raw), 3 * SECOND));
    let (first, second) = match sampled {
        (Some(first), Some(second)) => (first, second),
        _ => panic!("nothing sampled"),
    };
    assert!(first.cpu_delta_ms.is_none() && first.elapsed_ms == 1_000);
    assert_eq!(second.cpu_delta_ms, Some(0));
    assert_eq!(second.elapsed_ms, 2_000);
    let report = PerfProcessSnapshot::from_report(&raw, &second, Some("1.500".to_owned()), None, None, None);
    let json = report.to_json();
    assert!(json.contains("\"cpu_percent\":1.500") && json.contains("\"handle_count\":3"));
    let process = RecordedProcess::from_snapshot(&report);
    assert_eq!((process.working_set_bytes, process.pagefile_bytes), (5, 7));
    assert!(memory_gap_json(&metrics(0, 0), &process).starts_with("{"));
    assert_eq!(filetime_100ns(1, 2), (1u128 << 32) + 2);
}

#[test]
fn latency_is_traced_while_it_is_switched_on() {
    let (mut trace, _) = LatencyTrace::new(
        true,
        true,
        false,
        "s1".to_owned(),
        Some("l.jsonl".to_owned()),
        "d.jsonl".to_owned(),
        at(0),
    );
    assert!(trace.is_enabled() && trace.status_line().starts_with("latency trace on ("));
    assert!(trace.write_marker("mark", at(1)).unwrap_or_default().contains("\"mark\""));
    assert_eq!(LatencyEvent::QueueError.name(), "queue-error");
    let (off, _) = LatencyTrace::new(false, true, false, "s".to_owned(), None, "d".to_owned(), at(0));
    assert!(!off.is_enabled());
}

#[test]
fn heaps_are_summed_up() {
    let mut heaps = NativeHeapSnapshot::of_heaps(2);
    heaps.begin_heap(true);
    heaps.add_piece(HeapPiece::Busy(100, 16));
    heaps.add_piece(HeapPiece::Free(40));
    heaps.add_piece(HeapPiece::Uncommitted(7));
    heaps.begin_heap(false);
    assert_eq!((heaps.walked_heaps, heaps.failed_heaps), (1, 1));
    assert_eq!((heaps.busy_blocks, heaps.free_bytes, heaps.uncommitted_ranges), (1, 40, 1));
    assert!(matches!(heap_piece(4, 10, 2, 0, 0), HeapPiece::Busy(10, 2)));
    assert!(matches!(heap_piece(0, 10, 2, 0, 0), HeapPiece::Free(10)));
}

#[test]
fn snapshots_are_written_as_json() {
    let cache = PerfSoundFontCacheSnapshot {
        entries: 1,
        hits: 2,
        misses: 3,
        decoded_bytes: 4,
        resident_bytes: 5,
        evictions: 6,
        total_strong_count: 7,
        max_strong_count: 8,
        entry_refs: vec![PerfSoundFontCacheEntrySnapshot {
            key: "k".to_owned(),
            strong_count: 1,
            weak_count: 2,
            resident_bytes: 3,
        }],
    };
    assert!(cache.to_json().contains("\"hits\":2"));
    assert!(cache.to_json().contains("[{\"key\":\"k\""));
    let audio = PerfAudioMemorySnapshot::from_diagnostics(&AudioRuntimeMemoryDiagnostics::default());
    assert!(audio.to_json().starts_with("{\"stream_open\":false"));
    let lifecycle = PerfLifecycleSnapshot::from_diagnostics(&PlaybackLifecycleDiagnostics::default());
    assert!(lifecycle.to_json().contains("\"engine_replacements\":0"));
}

#[test]
fn references_beyond_the_roots_are_excess() {
    let counted = ArcReferenceDiagnostics::from_arc(5, 1, 3);
    assert_eq!(counted.excess_strong_count, 2);
    assert_eq!(ArcReferenceDiagnostics::from_arc(2, 0, 3).excess_strong_count, 0);
    assert!(expected_engine_roots(true) > expected_engine_roots(false));
    assert!(expected_audio_closure_roots(true) > expected_audio_closure_roots(false));
    assert_eq!(output_latency_breakdown(None).total_frames, 0);
}

#[test]
fn allocation_snapshots_are_written_as_json() {
    let mut allocator = TracingAllocator::new(true);
    allocator.record_alloc(0, 24, 7);
    let json = allocation_trace_json(&allocator.snapshot_inner());
    assert!(json.starts_with("{") && json.contains(":24"));
}

#[test]
fn process_times_and_threads_are_summed() {
    assert_eq!(process_cpu_time_ms((0, 25_000), (0, 15_000)), 4);
    assert_eq!(process_cpu_time_ms((1, 0), (0, 0)), 429_496);
    assert_eq!(process_thread_count(&[3, 4, 3, 3], 3), 3);
    assert_eq!(process_thread_count(&[], 3), 0);
}

#[test]
fn records_stay_in_order() {
    let (mut trace, _) = trace();
    for n in 0..200u64 {
        trace.sample_frame(metrics(n, 0), None, at(2 * u128::from(n) + 2));
        trace.record_marker("mark", "ok", None, at(2 * u128::from(n) + 2));
    }
    let records = trace.records();
    let issues = trace.issues();
    assert_eq!((records.len(), issues.len()), (96, 64));
    assert!(records.windows(2).all(|pair| pair[0].sequence + 1 == pair[1].sequence));
    assert!(issues.windows(2).all(|pair| pair[0].sequence < pair[1].sequence));
    assert_eq!(issues[63].outcome.as_deref(), Some("audio underrun count advanced 198 -> 199"));
}
