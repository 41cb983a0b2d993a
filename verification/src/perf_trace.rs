//! The performance trace and the latency trace: which events are recorded, and
//! the lines of JSON that are logged for them.
//!
//! Times are nanoseconds of a steady clock, except wall times, which are
//! milliseconds.
use crate::allocation_trace::{AllocationScopeSnapshot, AllocationStackBucketSnapshot};
use crate::allocation_trace::AllocationTraceSnapshot;
use crate::bounded::{newest, push_bounded};
use crate::json::{array_of, no_members, object_of, optional_text, quoted};
use crate::json::{with_optional_number, with_optional_raw, with_optional_string};
use crate::json::{JsonArray, JsonObject, Member};
use crate::memory_runtime::MemoryRuntimeSnapshot;
use crate::numbers::{max_of, monus, u32_cap, u64_cap};
use crate::perf_snapshots::{NativeHeapSnapshot, PerfAudioOutputSnapshot};
use crate::perf_snapshots::{PerfComponentMemorySnapshot, PerfLifecycleSnapshot, PerfMemorySnapshot};
use crate::perf_snapshots::{PerfReferenceSnapshot, PerfRenderChurnSnapshot};
use crate::perf_snapshots::PerfSoundFontCacheSnapshot;
use crate::playback::backend::AudioBackend;
use crate::playback::flux_guard::FluxGuardDecisionReason;
use crate::playback::metrics::PlaybackDebugMetrics;
use crate::text::{decimal, decimal_text, hex, hex_text, push_decimal, push_zero_padded};
use crate::text::{signed_decimal, zero_padded};
use std::collections::VecDeque;
use vstd::prelude::*;
use vstd::string::*;

verus! {

/// How many records are kept.
pub const MAX_RECORDS: usize = 96;

/// How many issues are kept.
pub const MAX_ISSUES: usize = 64;

/// The time between two samples, in milliseconds.
pub const SAMPLE_INTERVAL_MS: u128 = 2_000;

/// The time between two latency samples, in milliseconds.
pub const LATENCY_SAMPLE_INTERVAL_MS: u128 = 1_000;

/// A gap between two frames of this length is a stall, in milliseconds.
pub const FRAME_STALL_MS: u128 = 120;

/// The milliseconds from `earlier` to `later`.
pub open spec fn elapsed_ms(earlier: u128, later: u128) -> int {
    monus(later as int, earlier as int) / 1_000_000
}

fn milliseconds_between(earlier: u128, later: u128) -> (ms: u128)
    ensures
        ms == elapsed_ms(earlier, later),
{
    if later >= earlier {
        (later - earlier) / 1_000_000
    } else {
        0
    }
}

/// The number in an option.
pub open spec fn number_of(value: Option<u64>) -> Option<nat> {
    match value {
        Some(n) => Some(n as nat),
        None => None,
    }
}

/// The number in an option.
pub open spec fn number_of_usize(value: Option<usize>) -> Option<nat> {
    match value {
        Some(n) => Some(n as nat),
        None => None,
    }
}

/// The number in an option.
pub open spec fn number_of_u32(value: Option<u32>) -> Option<nat> {
    match value {
        Some(n) => Some(n as nat),
        None => None,
    }
}

fn widened(value: Option<usize>) -> (wide: Option<u64>)
    ensures
        number_of(wide) == number_of_usize(value),
{
    match value {
        Some(n) => Some(n as u64),
        None => None,
    }
}

fn widened_u32(value: Option<u32>) -> (wide: Option<u64>)
    ensures
        number_of(wide) == number_of_u32(value),
{
    match value {
        Some(n) => Some(n as u64),
        None => None,
    }
}

/// The JSON of a scope.
pub open spec fn scope_object(scope: AllocationScopeSnapshot) -> Seq<char> {
    object_of(
        no_members()
            .push(("name"@, quoted(scope.label@)))
            .push(("alloc_calls"@, decimal(scope.alloc_calls as nat)))
            .push(("dealloc_calls"@, decimal(scope.dealloc_calls as nat)))
            .push(("realloc_calls"@, decimal(scope.realloc_calls as nat)))
            .push(("alloc_bytes"@, decimal(scope.alloc_bytes as nat)))
            .push(("dealloc_bytes"@, decimal(scope.dealloc_bytes as nat)))
            .push(("realloc_in_bytes"@, decimal(scope.realloc_in_bytes as nat)))
            .push(("realloc_out_bytes"@, decimal(scope.realloc_out_bytes as nat)))
            .push(("net_bytes"@, signed_decimal(scope.net_bytes as int)))
            .push(("peak_net_bytes"@, decimal(scope.peak_net_bytes as nat))),
    )
}

fn scope_json(scope: &AllocationScopeSnapshot) -> (text: String)
    ensures
        text@ == scope_object(*scope),
{
    let mut object = JsonObject::new();
    object.string("name", scope.label);
    object.number("alloc_calls", scope.alloc_calls as u128);
    object.number("dealloc_calls", scope.dealloc_calls as u128);
    object.number("realloc_calls", scope.realloc_calls as u128);
    object.number("alloc_bytes", scope.alloc_bytes as u128);
    object.number("dealloc_bytes", scope.dealloc_bytes as u128);
    object.number("realloc_in_bytes", scope.realloc_in_bytes as u128);
    object.number("realloc_out_bytes", scope.realloc_out_bytes as u128);
    object.signed("net_bytes", scope.net_bytes);
    object.number("peak_net_bytes", scope.peak_net_bytes as u128);
    object.finish()
}

/// Whether anything happened in a scope.
pub open spec fn is_busy(scope: AllocationScopeSnapshot) -> bool {
    scope.alloc_calls != 0 || scope.dealloc_calls != 0 || scope.realloc_calls != 0
        || scope.net_bytes != 0
}

/// The JSON of the scopes in which anything happened.
pub open spec fn busy_scopes(scopes: Seq<AllocationScopeSnapshot>) -> Seq<Seq<char>>
    decreases scopes.len(),
{
    if scopes.len() == 0 {
        Seq::empty()
    } else if is_busy(scopes.last()) {
        busy_scopes(scopes.drop_last()).push(scope_object(scopes.last()))
    } else {
        busy_scopes(scopes.drop_last())
    }
}

/// The JSON of a sampled call stack.
pub open spec fn bucket_object(bucket: AllocationStackBucketSnapshot) -> Seq<char> {
    object_of(
        no_members()
            .push(("hash"@, quoted(zero_padded(hex(bucket.hash as nat), 16))))
            .push(("scope"@, quoted(bucket.scope@)))
            .push(("sample_calls"@, decimal(bucket.sample_calls as nat)))
            .push(("sample_bytes"@, decimal(bucket.sample_bytes as nat)))
            .push(("max_sample_bytes"@, decimal(bucket.max_sample_bytes as nat))),
    )
}

fn bucket_json(bucket: &AllocationStackBucketSnapshot) -> (text: String)
    ensures
        text@ == bucket_object(*bucket),
{
    let mut object = JsonObject::new();
    object.string("hash", hex_text(bucket.hash, 16).as_str());
    object.string("scope", bucket.scope);
    object.number("sample_calls", bucket.sample_calls as u128);
    object.number("sample_bytes", bucket.sample_bytes as u128);
    object.number("max_sample_bytes", bucket.max_sample_bytes as u128);
    object.finish()
}

pub open spec fn bucket_objects(buckets: Seq<AllocationStackBucketSnapshot>) -> Seq<Seq<char>> {
    buckets.map_values(|bucket: AllocationStackBucketSnapshot| bucket_object(bucket))
}

/// The JSON of the allocation trace.
pub open spec fn allocation_object(snapshot: AllocationTraceSnapshot) -> Seq<char> {
    object_of(
        no_members()
            .push(("alloc_calls"@, decimal(snapshot.alloc_calls as nat)))
            .push(("dealloc_calls"@, decimal(snapshot.dealloc_calls as nat)))
            .push(("realloc_calls"@, decimal(snapshot.realloc_calls as nat)))
            .push(("alloc_bytes"@, decimal(snapshot.alloc_bytes as nat)))
            .push(("dealloc_bytes"@, decimal(snapshot.dealloc_bytes as nat)))
            .push(("realloc_in_bytes"@, decimal(snapshot.realloc_in_bytes as nat)))
            .push(("realloc_out_bytes"@, decimal(snapshot.realloc_out_bytes as nat)))
            .push(("live_bytes"@, signed_decimal(snapshot.live_bytes as int)))
            .push(("peak_live_bytes"@, decimal(snapshot.peak_live_bytes as nat)))
            .push(("outstanding_allocations"@, signed_decimal(snapshot.outstanding_allocations as int)))
            .push(("scopes"@, array_of(busy_scopes(snapshot.scopes@))))
            .push(("stack_buckets"@, array_of(bucket_objects(snapshot.stack_buckets@)))),
    )
}

pub fn allocation_trace_json(snapshot: &AllocationTraceSnapshot) -> (text: String)
    ensures
        text@ == allocation_object(*snapshot),
{
    let mut scopes = JsonArray::new();
    let mut i: usize = 0;
    assert(snapshot.scopes@.take(0) =~= Seq::<AllocationScopeSnapshot>::empty());
    while i < snapshot.scopes.len()
        invariant
            i <= snapshot.scopes@.len(),
            scopes.wf(),
            scopes.items() == busy_scopes(snapshot.scopes@.take(i as int)),
        decreases snapshot.scopes@.len() - i,
    {
        assert(snapshot.scopes@.take(i + 1).drop_last() =~= snapshot.scopes@.take(i as int));
        let scope = &snapshot.scopes[i];
        if scope.alloc_calls != 0 || scope.dealloc_calls != 0 || scope.realloc_calls != 0
            || scope.net_bytes != 0 {
            scopes.item(scope_json(scope).as_str());
        }
        i = i + 1;
    }
    assert(snapshot.scopes@.take(i as int) =~= snapshot.scopes@);
    let ghost all = bucket_objects(snapshot.stack_buckets@);
    let mut buckets = JsonArray::new();
    let mut k: usize = 0;
    while k < snapshot.stack_buckets.len()
        invariant
            k <= snapshot.stack_buckets@.len(),
            all == bucket_objects(snapshot.stack_buckets@),
            buckets.wf(),
            buckets.items() == all.take(k as int),
        decreases snapshot.stack_buckets@.len() - k,
    {
        buckets.item(bucket_json(&snapshot.stack_buckets[k]).as_str());
        k = k + 1;
        assert(buckets.items() =~= all.take(k as int));
    }
    assert(all.take(k as int) =~= all);
    let mut object = JsonObject::new();
    object.number("alloc_calls", snapshot.alloc_calls as u128);
    object.number("dealloc_calls", snapshot.dealloc_calls as u128);
    object.number("realloc_calls", snapshot.realloc_calls as u128);
    object.number("alloc_bytes", snapshot.alloc_bytes as u128);
    object.number("dealloc_bytes", snapshot.dealloc_bytes as u128);
    object.number("realloc_in_bytes", snapshot.realloc_in_bytes as u128);
    object.number("realloc_out_bytes", snapshot.realloc_out_bytes as u128);
    object.signed("live_bytes", snapshot.live_bytes);
    object.number("peak_live_bytes", snapshot.peak_live_bytes as u128);
    object.signed("outstanding_allocations", snapshot.outstanding_allocations);
    object.raw("scopes", scopes.finish().as_str());
    object.raw("stack_buckets", buckets.finish().as_str());
    object.finish()
}

/// The state of playback in a record of the trace. Times and levels are decimal
/// texts.
#[derive(Debug)]
pub struct PerfMetricSnapshot {
    pub engine_state: String,
    pub transport_seconds: String,
    pub transport_duration_seconds: String,
    pub transport_tick: u64,
    pub loaded_soundfont_count: usize,
    pub requested_soundfont_count: usize,
    pub loaded_provider_count: usize,
    pub pruned_soundfont_count: usize,
    pub midi_strip_count: usize,
    pub midi_demand_role_count: usize,
    pub subset_plan_count: usize,
    pub subset_preset_count: usize,
    pub subset_instrument_count: usize,
    pub subset_sample_count: usize,
    pub subset_logical_wave_range_count: usize,
    pub subset_planned_range_count: usize,
    pub subset_planned_byte_count: u64,
    pub subset_index_json_plan_count: usize,
    pub subset_transition_exact_hits: usize,
    pub subset_transition_contained_hits: usize,
    pub subset_transition_superset_growths: usize,
    pub subset_transition_font_set_changes: usize,
    pub subset_transition_missing_samples: usize,
    pub subset_transition_missing_bytes: u64,
    pub subset_compact_loaded_count: usize,
    pub subset_full_fallback_count: usize,
    pub output_peak: String,
    pub output_rms: String,
    pub active_strip_count: usize,
    pub audio_status: String,
    pub audio_error: Option<String>,
    pub audio_backend: AudioBackend,
    pub sample_rate: u32,
    pub channels: u16,
    pub block_frames: u16,
    pub ring_available_frames: Option<usize>,
    pub ring_capacity_frames: Option<usize>,
    pub callback_count: Option<u64>,
    pub frames_requested: Option<u64>,
    pub frames_delivered: Option<u64>,
    pub underrun_count: Option<u64>,
    pub queue_error_count: Option<u64>,
    pub producer_rendered_frames: Option<u64>,
    pub audio_output: Option<PerfAudioOutputSnapshot>,
    pub memory: Option<PerfMemorySnapshot>,
    pub render_churn: PerfRenderChurnSnapshot,
    pub lifecycle: PerfLifecycleSnapshot,
    pub soundfont_cache: PerfSoundFontCacheSnapshot,
    pub component_memory: PerfComponentMemorySnapshot,
    pub references: PerfReferenceSnapshot,
    pub allocator: AllocationTraceSnapshot,
    pub memory_runtime: MemoryRuntimeSnapshot,
}

impl PerfMetricSnapshot {
    /// The members that every snapshot has.
    pub open spec fn head(&self) -> Seq<Member> {
        no_members()
            .push(("engine"@, quoted(self.engine_state@)))
            .push(("transport_s"@, self.transport_seconds@))
            .push(("duration_s"@, self.transport_duration_seconds@))
            .push(("tick"@, decimal(self.transport_tick as nat)))
            .push(("soundfonts"@, decimal(self.loaded_soundfont_count as nat)))
            .push(("requested_soundfonts"@, decimal(self.requested_soundfont_count as nat)))
            .push(("loaded_providers"@, decimal(self.loaded_provider_count as nat)))
            .push(("pruned_soundfonts"@, decimal(self.pruned_soundfont_count as nat)))
            .push(("midi_strips"@, decimal(self.midi_strip_count as nat)))
            .push(("midi_demand_roles"@, decimal(self.midi_demand_role_count as nat)))
            .push(("subset_plans"@, decimal(self.subset_plan_count as nat)))
            .push(("subset_presets"@, decimal(self.subset_preset_count as nat)))
            .push(("subset_instruments"@, decimal(self.subset_instrument_count as nat)))
            .push(("subset_samples"@, decimal(self.subset_sample_count as nat)))
            .push(("subset_logical_wave_ranges"@, decimal(self.subset_logical_wave_range_count as nat)))
            .push(("subset_planned_ranges"@, decimal(self.subset_planned_range_count as nat)))
            .push(("subset_planned_bytes"@, decimal(self.subset_planned_byte_count as nat)))
            .push(("subset_index_json_plans"@, decimal(self.subset_index_json_plan_count as nat)))
            .push(("subset_transition_exact_hits"@, decimal(self.subset_transition_exact_hits as nat)))
            .push(("subset_transition_contained_hits"@, decimal(self.subset_transition_contained_hits as nat)))
            .push(("subset_transition_superset_growths"@, decimal(self.subset_transition_superset_growths as nat)))
            .push(("subset_transition_font_set_changes"@, decimal(self.subset_transition_font_set_changes as nat)))
            .push(("subset_transition_missing_samples"@, decimal(self.subset_transition_missing_samples as nat)))
            .push(("subset_transition_missing_bytes"@, decimal(self.subset_transition_missing_bytes as nat)))
            .push(("subset_compact_loaded"@, decimal(self.subset_compact_loaded_count as nat)))
            .push(("subset_full_fallback"@, decimal(self.subset_full_fallback_count as nat)))
            .push(("output_peak"@, self.output_peak@))
            .push(("output_rms"@, self.output_rms@))
            .push(("active_strips"@, decimal(self.active_strip_count as nat)))
            .push(("audio_status"@, quoted(self.audio_status@)))
            .push(("audio_backend"@, quoted(self.audio_backend.text())))
            .push(("sample_rate"@, decimal(self.sample_rate as nat)))
            .push(("channels"@, decimal(self.channels as nat)))
            .push(("block_frames"@, decimal(self.block_frames as nat)))
    }

    /// The members on the audio output.
    pub open spec fn with_audio(&self) -> Seq<Member> {
        let m0 = with_optional_string(self.head(), "audio_error"@, optional_text(self.audio_error));
        let m1 = with_optional_number(m0, "ring_available_frames"@, number_of_usize(self.ring_available_frames));
        let m2 = with_optional_number(m1, "ring_capacity_frames"@, number_of_usize(self.ring_capacity_frames));
        let m3 = with_optional_number(m2, "callback_count"@, number_of(self.callback_count));
        let m4 = with_optional_number(m3, "frames_requested"@, number_of(self.frames_requested));
        let m5 = with_optional_number(m4, "frames_delivered"@, number_of(self.frames_delivered));
        let m6 = with_optional_number(m5, "underrun_count"@, number_of(self.underrun_count));
        let m7 = with_optional_number(m6, "queue_error_count"@, number_of(self.queue_error_count));
        let m8 = with_optional_number(m7, "producer_rendered_frames"@, number_of(self.producer_rendered_frames));
        m8
    }

    /// The JSON of the snapshot.
    pub open spec fn json(&self) -> Seq<char> {
        let m1 = match self.memory {
            Some(memory) => self.with_audio().push(("memory"@, memory.json())),
            None => self.with_audio(),
        };
        let m2 = match self.audio_output {
            Some(audio) => m1.push(("audio_output"@, audio.json())),
            None => m1,
        };
        object_of(
            m2
                .push(("render_churn"@, self.render_churn.json()))
                .push(("lifecycle"@, self.lifecycle.json()))
                .push(("soundfont_cache"@, self.soundfont_cache.json()))
                .push(("component_memory"@, self.component_memory.json()))
                .push(("references"@, self.references.json()))
                .push(("allocator"@, allocation_object(self.allocator)))
                .push(("memory_runtime"@, self.memory_runtime.json())),
        )
    }

    pub fn to_json(&self) -> (text: String)
        ensures
            text@ == self.json(),
    {
        let mut object = JsonObject::new();
        object.string("engine", self.engine_state.as_str());
        object.raw("transport_s", self.transport_seconds.as_str());
        object.raw("duration_s", self.transport_duration_seconds.as_str());
        object.number("tick", self.transport_tick as u128);
        object.number("soundfonts", self.loaded_soundfont_count as u128);
        object.number("requested_soundfonts", self.requested_soundfont_count as u128);
        object.number("loaded_providers", self.loaded_provider_count as u128);
        object.number("pruned_soundfonts", self.pruned_soundfont_count as u128);
        object.number("midi_strips", self.midi_strip_count as u128);
        object.number("midi_demand_roles", self.midi_demand_role_count as u128);
        object.number("subset_plans", self.subset_plan_count as u128);
        object.number("subset_presets", self.subset_preset_count as u128);
        object.number("subset_instruments", self.subset_instrument_count as u128);
        object.number("subset_samples", self.subset_sample_count as u128);
        object.number("subset_logical_wave_ranges", self.subset_logical_wave_range_count as u128);
        object.number("subset_planned_ranges", self.subset_planned_range_count as u128);
        object.number("subset_planned_bytes", self.subset_planned_byte_count as u128);
        object.number("subset_index_json_plans", self.subset_index_json_plan_count as u128);
        object.number("subset_transition_exact_hits", self.subset_transition_exact_hits as u128);
        object.number("subset_transition_contained_hits", self.subset_transition_contained_hits as u128);
        object.number("subset_transition_superset_growths", self.subset_transition_superset_growths as u128);
        object.number("subset_transition_font_set_changes", self.subset_transition_font_set_changes as u128);
        object.number("subset_transition_missing_samples", self.subset_transition_missing_samples as u128);
        object.number("subset_transition_missing_bytes", self.subset_transition_missing_bytes as u128);
        object.number("subset_compact_loaded", self.subset_compact_loaded_count as u128);
        object.number("subset_full_fallback", self.subset_full_fallback_count as u128);
        object.raw("output_peak", self.output_peak.as_str());
        object.raw("output_rms", self.output_rms.as_str());
        object.number("active_strips", self.active_strip_count as u128);
        object.string("audio_status", self.audio_status.as_str());
        object.string("audio_backend", self.audio_backend.name());
        object.number("sample_rate", self.sample_rate as u128);
        object.number("channels", self.channels as u128);
        object.number("block_frames", self.block_frames as u128);
        assert(object.members() == self.head());
        object.optional_string("audio_error", &self.audio_error);
        object.optional_number("ring_available_frames", widened(self.ring_available_frames));
        object.optional_number("ring_capacity_frames", widened(self.ring_capacity_frames));
        object.optional_number("callback_count", self.callback_count);
        object.optional_number("frames_requested", self.frames_requested);
        object.optional_number("frames_delivered", self.frames_delivered);
        object.optional_number("underrun_count", self.underrun_count);
        object.optional_number("queue_error_count", self.queue_error_count);
        object.optional_number("producer_rendered_frames", self.producer_rendered_frames);
        assert(object.members() == self.with_audio());
        match &self.memory {
            Some(memory) => object.raw("memory", memory.to_json().as_str()),
            None => {},
        }
        match &self.audio_output {
            Some(audio) => object.raw("audio_output", audio.to_json().as_str()),
            None => {},
        }
        object.raw("render_churn", self.render_churn.to_json().as_str());
        object.raw("lifecycle", self.lifecycle.to_json().as_str());
        object.raw("soundfont_cache", self.soundfont_cache.to_json().as_str());
        object.raw("component_memory", self.component_memory.to_json().as_str());
        object.raw("references", self.references.to_json().as_str());
        object.raw("allocator", allocation_trace_json(&self.allocator).as_str());
        object.raw("memory_runtime", self.memory_runtime.to_json().as_str());
        object.finish()
    }

    /// The state of playback together with the allocations and the memory.
    pub fn from_metrics(
        metrics: PlaybackDebugMetrics,
        allocator: AllocationTraceSnapshot,
        memory_runtime: MemoryRuntimeSnapshot,
    ) -> (snapshot: PerfMetricSnapshot)
        ensures
            snapshot.engine_state == metrics.engine_state,
            snapshot.transport_seconds == metrics.transport_seconds,
            snapshot.transport_duration_seconds == metrics.transport_duration_seconds,
            snapshot.transport_tick == metrics.transport_tick,
            snapshot.loaded_soundfont_count == metrics.loaded_soundfont_count,
            snapshot.requested_soundfont_count == metrics.requested_soundfont_count,
            snapshot.loaded_provider_count == metrics.loaded_provider_count,
            snapshot.pruned_soundfont_count == metrics.pruned_soundfont_count,
            snapshot.midi_strip_count == metrics.midi_strip_count,
            snapshot.midi_demand_role_count == metrics.midi_demand.channel_roles@.len(),
            snapshot.subset_plan_count == metrics.subset_plans.plan_count,
            snapshot.subset_preset_count == metrics.subset_plans.preset_count,
            snapshot.subset_instrument_count == metrics.subset_plans.instrument_count,
            snapshot.subset_sample_count == metrics.subset_plans.sample_count,
            snapshot.subset_logical_wave_range_count == metrics.subset_plans.logical_wave_range_count,
            snapshot.subset_planned_range_count == metrics.subset_plans.planned_range_count,
            snapshot.subset_planned_byte_count == metrics.subset_plans.planned_byte_count,
            snapshot.subset_index_json_plan_count == metrics.subset_plans.index_json_plan_count,
            snapshot.subset_transition_exact_hits == metrics.subset_transition.exact_subset_hits,
            snapshot.subset_transition_contained_hits == metrics.subset_transition.subset_contained_hits,
            snapshot.subset_transition_superset_growths == metrics.subset_transition.superset_growth_events,
            snapshot.subset_transition_font_set_changes == metrics.subset_transition.font_set_changes,
            snapshot.subset_transition_missing_samples == metrics.subset_transition.missing_sample_count,
            snapshot.subset_transition_missing_bytes == metrics.subset_transition.missing_planned_bytes,
            snapshot.subset_compact_loaded_count == metrics.subset_transition.compact_loaded_count,
            snapshot.subset_full_fallback_count == metrics.subset_transition.full_fallback_count,
            snapshot.output_peak == metrics.output_peak,
            snapshot.output_rms == metrics.output_rms,
            snapshot.active_strip_count == metrics.active_strip_count,
            snapshot.audio_status == metrics.audio_status,
            snapshot.audio_error == metrics.audio_error,
            snapshot.audio_backend == metrics.audio_backend,
            snapshot.sample_rate == metrics.sample_rate,
            snapshot.channels == metrics.channels,
            snapshot.block_frames == metrics.block_frames,
            snapshot.ring_available_frames == (match metrics.audio_diagnostics {
                Some(audio) => Some(audio.ring_available_frames),
                None => None,
            }),
            snapshot.ring_capacity_frames == (match metrics.audio_diagnostics {
                Some(audio) => Some(audio.ring_capacity_frames),
                None => None,
            }),
            snapshot.callback_count == (match metrics.audio_diagnostics {
                Some(audio) => Some(audio.stats.callback_count),
                None => None,
            }),
            snapshot.frames_requested == (match metrics.audio_diagnostics {
                Some(audio) => Some(audio.stats.frames_requested),
                None => None,
            }),
            snapshot.frames_delivered == (match metrics.audio_diagnostics {
                Some(audio) => Some(audio.stats.frames_delivered),
                None => None,
            }),
            snapshot.underrun_count == (match metrics.audio_diagnostics {
                Some(audio) => Some(audio.stats.underrun_count),
                None => None,
            }),
            snapshot.queue_error_count == (match metrics.audio_diagnostics {
                Some(audio) => Some(audio.stats.queue_error_count),
                None => None,
            }),
            snapshot.producer_rendered_frames == (match metrics.audio_diagnostics {
                Some(audio) => Some(audio.stats.producer_rendered_frames),
                None => None,
            }),
            snapshot.audio_output == (match metrics.audio_diagnostics {
                Some(audio) => Some(PerfAudioOutputSnapshot::of(audio)),
                None => None,
            }),
            snapshot.memory == (match metrics.memory_debug {
                Some(memory) => Some(
                    PerfMemorySnapshot::of(
                        memory,
                        metrics.memory_instances,
                        metrics.loaded_midi_bytes,
                        metrics.loaded_midi_capacity_bytes,
                    ),
                ),
                None => None,
            }),
            snapshot.render_churn == PerfRenderChurnSnapshot::of(metrics.render_churn),
            snapshot.lifecycle == PerfLifecycleSnapshot::of(metrics.lifecycle),
            snapshot.soundfont_cache == metrics.soundfont_cache,
            snapshot.component_memory == PerfComponentMemorySnapshot::of(
                metrics.component_memory,
            ),
            snapshot.references == PerfReferenceSnapshot::of(metrics.references),
            snapshot.allocator == allocator,
            snapshot.memory_runtime == memory_runtime,
    {
        let audio = metrics.audio_diagnostics;
        PerfMetricSnapshot {
            engine_state: metrics.engine_state,
            transport_seconds: metrics.transport_seconds,
            transport_duration_seconds: metrics.transport_duration_seconds,
            transport_tick: metrics.transport_tick,
            loaded_soundfont_count: metrics.loaded_soundfont_count,
            requested_soundfont_count: metrics.requested_soundfont_count,
            loaded_provider_count: metrics.loaded_provider_count,
            pruned_soundfont_count: metrics.pruned_soundfont_count,
            midi_strip_count: metrics.midi_strip_count,
            midi_demand_role_count: metrics.midi_demand.role_count(),
            subset_plan_count: metrics.subset_plans.plan_count,
            subset_preset_count: metrics.subset_plans.preset_count,
            subset_instrument_count: metrics.subset_plans.instrument_count,
            subset_sample_count: metrics.subset_plans.sample_count,
            subset_logical_wave_range_count: metrics.subset_plans.logical_wave_range_count,
            subset_planned_range_count: metrics.subset_plans.planned_range_count,
            subset_planned_byte_count: metrics.subset_plans.planned_byte_count,
            subset_index_json_plan_count: metrics.subset_plans.index_json_plan_count,
            subset_transition_exact_hits: metrics.subset_transition.exact_subset_hits,
            subset_transition_contained_hits: metrics.subset_transition.subset_contained_hits,
            subset_transition_superset_growths: metrics.subset_transition.superset_growth_events,
            subset_transition_font_set_changes: metrics.subset_transition.font_set_changes,
            subset_transition_missing_samples: metrics.subset_transition.missing_sample_count,
            subset_transition_missing_bytes: metrics.subset_transition.missing_planned_bytes,
            subset_compact_loaded_count: metrics.subset_transition.compact_loaded_count,
            subset_full_fallback_count: metrics.subset_transition.full_fallback_count,
            output_peak: metrics.output_peak,
            output_rms: metrics.output_rms,
            active_strip_count: metrics.active_strip_count,
            audio_status: metrics.audio_status,
            audio_error: metrics.audio_error,
            audio_backend: metrics.audio_backend,
            sample_rate: metrics.sample_rate,
            channels: metrics.channels,
            block_frames: metrics.block_frames,
            ring_available_frames: match &audio {
                Some(audio) => Some(audio.ring_available_frames),
                None => None,
            },
            ring_capacity_frames: match &audio {
                Some(audio) => Some(audio.ring_capacity_frames),
                None => None,
            },
            callback_count: match &audio {
                Some(audio) => Some(audio.stats.callback_count),
                None => None,
            },
            frames_requested: match &audio {
                Some(audio) => Some(audio.stats.frames_requested),
                None => None,
            },
            frames_delivered: match &audio {
                Some(audio) => Some(audio.stats.frames_delivered),
                None => None,
            },
            underrun_count: match &audio {
                Some(audio) => Some(audio.stats.underrun_count),
                None => None,
            },
            queue_error_count: match &audio {
                Some(audio) => Some(audio.stats.queue_error_count),
                None => None,
            },
            producer_rendered_frames: match &audio {
                Some(audio) => Some(audio.stats.producer_rendered_frames),
                None => None,
            },
            audio_output: match &audio {
                Some(audio) => Some(PerfAudioOutputSnapshot::from_diagnostics(audio)),
                None => None,
            },
            memory: match &metrics.memory_debug {
                Some(memory) => Some(
                    PerfMemorySnapshot::from_playback(
                        memory,
                        metrics.memory_instances,
                        metrics.loaded_midi_bytes,
                        metrics.loaded_midi_capacity_bytes,
                    ),
                ),
                None => None,
            },
            render_churn: PerfRenderChurnSnapshot::from_churn(&metrics.render_churn),
            lifecycle: PerfLifecycleSnapshot::from_diagnostics(&metrics.lifecycle),
            soundfont_cache: metrics.soundfont_cache,
            component_memory: PerfComponentMemorySnapshot::from_diagnostics(
                &metrics.component_memory,
            ),
            references: PerfReferenceSnapshot::from_diagnostics(&metrics.references),
            allocator,
            memory_runtime,
        }
    }
}

/// What the operating system reports of the process.
#[derive(Debug, Copy, Clone, PartialEq, Eq, Structural)]
pub struct RawProcessResourceSnapshot {
    pub cpu_time_ms: u128,
    pub working_set_bytes: u64,
    pub peak_working_set_bytes: u64,
    pub pagefile_bytes: u64,
    pub peak_pagefile_bytes: u64,
    pub page_fault_count: u32,
    pub thread_count: Option<u32>,
    pub handle_count: Option<u32>,
    pub read_bytes: u64,
    pub write_bytes: u64,
    pub native_heaps: Option<NativeHeapSnapshot>,
}

/// The time of a file time, in units of 100 ns.
pub fn filetime_100ns(high: u32, low: u32) -> (time: u128)
    ensures
        time == high * 0x1_0000_0000 + low,
{
    high as u128 * 0x1_0000_0000 + low as u128
}

/// The time that a process used, in milliseconds, from the high and the low parts of its
/// time in the kernel and of its own.
pub fn process_cpu_time_ms(kernel: (u32, u32), user: (u32, u32)) -> (time: u128)
    ensures
        time == (kernel.0 * 0x1_0000_0000 + kernel.1 + user.0 * 0x1_0000_0000 + user.1) / 10_000,
{
    (filetime_100ns(kernel.0, kernel.1) + filetime_100ns(user.0, user.1)) / 10_000
}

/// How many threads belong to a process, given the owner of each.
pub open spec fn owned_threads(owners: Seq<u32>, process: u32) -> nat
    decreases owners.len(),
{
    if owners.len() == 0 {
        0
    } else {
        owned_threads(owners.drop_last(), process) + if owners.last() == process {
            1nat
        } else {
            0nat
        }
    }
}

/// How many threads belong to a process, given the owner of each thread of the system.
pub fn process_thread_count(owners: &[u32], process: u32) -> (count: u32)
    ensures
        count == u32_cap(owned_threads(owners@, process) as int),
{
    let mut count: u32 = 0;
    let mut i: usize = 0;
    assert(owners@.take(0) =~= Seq::<u32>::empty());
    while i < owners.len()
        invariant
            i <= owners@.len(),
            count == u32_cap(owned_threads(owners@.take(i as int), process) as int),
        decreases owners@.len() - i,
    {
        assert(owners@.take(i + 1).drop_last() =~= owners@.take(i as int));
        if owners[i] == process {
            count = count.saturating_add(1);
        }
        i = i + 1;
    }
    assert(owners@.take(i as int) =~= owners@);
    count
}

/// The last report on the process.
#[derive(Debug, Copy, Clone, PartialEq, Eq, Structural)]
pub struct ProcessMetricSampler {
    pub last_sample_at: u128,
    pub last_cpu_time_ms: Option<u128>,
    pub last_read_bytes: Option<u64>,
    pub last_write_bytes: Option<u64>,
    pub last_page_fault_count: Option<u32>,
}

/// What changed from one report on the process to the next.
#[derive(Debug, Copy, Clone, PartialEq, Eq, Structural)]
pub struct ProcessDeltas {
    pub elapsed_ms: u128,
    pub cpu_delta_ms: Option<u128>,
    pub read_delta_bytes: Option<u64>,
    pub write_delta_bytes: Option<u64>,
    pub page_fault_delta: Option<u32>,
}

impl ProcessMetricSampler {
    pub fn new(now: u128) -> (sampler: ProcessMetricSampler)
        ensures
            sampler == (ProcessMetricSampler {
                last_sample_at: now,
                last_cpu_time_ms: None,
                last_read_bytes: None,
                last_write_bytes: None,
                last_page_fault_count: None,
            }),
    {
        ProcessMetricSampler {
            last_sample_at: now,
            last_cpu_time_ms: None,
            last_read_bytes: None,
            last_write_bytes: None,
            last_page_fault_count: None,
        }
    }

    /// Takes a report, if the build has the trace and there is one, and returns what changed
    /// since the one before.
    pub fn sample(
        &mut self,
        compiled: bool,
        raw: Option<&RawProcessResourceSnapshot>,
        now: u128,
    ) -> (deltas: Option<ProcessDeltas>)
        ensures
            match raw {
                Some(raw) if compiled => {
                    &&& deltas is Some
                    &&& old(self).takes(*raw, now, *final(self), deltas->Some_0)
                },
                _ => deltas is None && *final(self) == *old(self),
            },
    {
        match raw {
            Some(raw) => if compiled {
                Some(self.take_report(raw, now))
            } else {
                None
            },
            None => None,
        }
    }

    /// Whether `after` has taken a report, with what changed since the one before. Processor
    /// time that went back counts as unknown, other counts that did as zero.
    pub open spec fn takes(
        &self,
        raw: RawProcessResourceSnapshot,
        now: u128,
        after: ProcessMetricSampler,
        deltas: ProcessDeltas,
    ) -> bool {
        &&& after == (ProcessMetricSampler {
            last_sample_at: now,
            last_cpu_time_ms: Some(raw.cpu_time_ms),
            last_read_bytes: Some(raw.read_bytes),
            last_write_bytes: Some(raw.write_bytes),
            last_page_fault_count: Some(raw.page_fault_count),
        })
        &&& deltas.elapsed_ms == elapsed_ms(self.last_sample_at, now)
        &&& deltas.cpu_delta_ms == (match self.last_cpu_time_ms {
            Some(previous) if raw.cpu_time_ms >= previous => Some(
                (raw.cpu_time_ms - previous) as u128,
            ),
            _ => None,
        })
        &&& deltas.read_delta_bytes == (match self.last_read_bytes {
            Some(previous) => Some(monus(raw.read_bytes as int, previous as int) as u64),
            None => None,
        })
        &&& deltas.write_delta_bytes == (match self.last_write_bytes {
            Some(previous) => Some(monus(raw.write_bytes as int, previous as int) as u64),
            None => None,
        })
        &&& deltas.page_fault_delta == (match self.last_page_fault_count {
            Some(previous) => Some(monus(raw.page_fault_count as int, previous as int) as u32),
            None => None,
        })
    }

    fn take_report(&mut self, raw: &RawProcessResourceSnapshot, now: u128) -> (deltas:
        ProcessDeltas)
        ensures
            old(self).takes(*raw, now, *final(self), deltas),
    {
        let deltas = ProcessDeltas {
            elapsed_ms: milliseconds_between(self.last_sample_at, now),
            cpu_delta_ms: match self.last_cpu_time_ms {
                Some(previous) => if raw.cpu_time_ms >= previous {
                    Some(raw.cpu_time_ms - previous)
                } else {
                    None
                },
                None => None,
            },
            read_delta_bytes: match self.last_read_bytes {
                Some(previous) => Some(raw.read_bytes.saturating_sub(previous)),
                None => None,
            },
            write_delta_bytes: match self.last_write_bytes {
                Some(previous) => Some(raw.write_bytes.saturating_sub(previous)),
                None => None,
            },
            page_fault_delta: match self.last_page_fault_count {
                Some(previous) => Some(raw.page_fault_count.saturating_sub(previous)),
                None => None,
            },
        };
        self.last_sample_at = now;
        self.last_cpu_time_ms = Some(raw.cpu_time_ms);
        self.last_read_bytes = Some(raw.read_bytes);
        self.last_write_bytes = Some(raw.write_bytes);
        self.last_page_fault_count = Some(raw.page_fault_count);
        deltas
    }
}

/// The process in a record of the trace. Rates are numbers with three decimals,
/// where they are known and finite.
#[derive(Debug)]
pub struct PerfProcessSnapshot {
    pub cpu_percent: Option<String>,
    pub cpu_time_ms: u128,
    pub working_set_bytes: u64,
    pub peak_working_set_bytes: u64,
    pub pagefile_bytes: u64,
    pub peak_pagefile_bytes: u64,
    pub page_fault_count: u32,
    pub page_fault_delta: Option<u32>,
    pub page_faults_per_sec: Option<String>,
    pub thread_count: Option<u32>,
    pub handle_count: Option<u32>,
    pub read_bytes: u64,
    pub write_bytes: u64,
    pub read_delta_bytes: Option<u64>,
    pub write_delta_bytes: Option<u64>,
    pub read_bytes_per_sec: Option<String>,
    pub write_bytes_per_sec: Option<String>,
    pub native_heaps: Option<NativeHeapSnapshot>,
}

impl PerfProcessSnapshot {
    /// The JSON of the snapshot.
    pub open spec fn json(&self) -> Seq<char> {
        let m0 = no_members()
            .push(("cpu_time_ms"@, decimal(self.cpu_time_ms as nat)))
            .push(("working_set_bytes"@, decimal(self.working_set_bytes as nat)))
            .push(("peak_working_set_bytes"@, decimal(self.peak_working_set_bytes as nat)))
            .push(("pagefile_bytes"@, decimal(self.pagefile_bytes as nat)))
            .push(("peak_pagefile_bytes"@, decimal(self.peak_pagefile_bytes as nat)))
            .push(("page_fault_count"@, decimal(self.page_fault_count as nat)))
            .push(("read_bytes"@, decimal(self.read_bytes as nat)))
            .push(("write_bytes"@, decimal(self.write_bytes as nat)));
        let m1 = with_optional_raw(m0, "cpu_percent"@, optional_text(self.cpu_percent));
        let m2 = with_optional_number(m1, "read_delta_bytes"@, number_of(self.read_delta_bytes));
        let m3 = with_optional_number(m2, "write_delta_bytes"@, number_of(self.write_delta_bytes));
        let m4 = with_optional_number(
            m3,
            "page_fault_delta"@,
            number_of_u32(self.page_fault_delta),
        );
        let m5 = with_optional_raw(
            m4,
            "read_bytes_per_sec"@,
            optional_text(self.read_bytes_per_sec),
        );
        let m6 = with_optional_raw(
            m5,
            "write_bytes_per_sec"@,
            optional_text(self.write_bytes_per_sec),
        );
        let m7 = with_optional_raw(
            m6,
            "page_faults_per_sec"@,
            optional_text(self.page_faults_per_sec),
        );
        let m8 = with_optional_number(m7, "thread_count"@, number_of_u32(self.thread_count));
        let m9 = with_optional_number(m8, "handle_count"@, number_of_u32(self.handle_count));
        object_of(
            match self.native_heaps {
                Some(heaps) => m9.push(("native_heaps"@, heaps.json())),
                None => m9,
            },
        )
    }

    pub fn to_json(&self) -> (text: String)
        ensures
            text@ == self.json(),
    {
        let mut object = JsonObject::new();
        object.number("cpu_time_ms", self.cpu_time_ms);
        object.number("working_set_bytes", self.working_set_bytes as u128);
        object.number("peak_working_set_bytes", self.peak_working_set_bytes as u128);
        object.number("pagefile_bytes", self.pagefile_bytes as u128);
        object.number("peak_pagefile_bytes", self.peak_pagefile_bytes as u128);
        object.number("page_fault_count", self.page_fault_count as u128);
        object.number("read_bytes", self.read_bytes as u128);
        object.number("write_bytes", self.write_bytes as u128);
        object.optional_raw("cpu_percent", &self.cpu_percent);
        object.optional_number("read_delta_bytes", self.read_delta_bytes);
        object.optional_number("write_delta_bytes", self.write_delta_bytes);
        object.optional_number("page_fault_delta", widened_u32(self.page_fault_delta));
        object.optional_raw("read_bytes_per_sec", &self.read_bytes_per_sec);
        object.optional_raw("write_bytes_per_sec", &self.write_bytes_per_sec);
        object.optional_raw("page_faults_per_sec", &self.page_faults_per_sec);
        object.optional_number("thread_count", widened_u32(self.thread_count));
        object.optional_number("handle_count", widened_u32(self.handle_count));
        match &self.native_heaps {
            Some(heaps) => object.raw("native_heaps", heaps.to_json().as_str()),
            None => {},
        }
        object.finish()
    }

    /// A report on the process, with what changed and the rates that follow.
    pub fn from_report(
        raw: &RawProcessResourceSnapshot,
        deltas: &ProcessDeltas,
        cpu_percent: Option<String>,
        read_bytes_per_sec: Option<String>,
        write_bytes_per_sec: Option<String>,
        page_faults_per_sec: Option<String>,
    ) -> (snapshot: PerfProcessSnapshot)
        ensures
            snapshot == (PerfProcessSnapshot {
                cpu_percent,
                cpu_time_ms: raw.cpu_time_ms,
                working_set_bytes: raw.working_set_bytes,
                peak_working_set_bytes: raw.peak_working_set_bytes,
                pagefile_bytes: raw.pagefile_bytes,
                peak_pagefile_bytes: raw.peak_pagefile_bytes,
                page_fault_count: raw.page_fault_count,
                page_fault_delta: deltas.page_fault_delta,
                page_faults_per_sec,
                thread_count: raw.thread_count,
                handle_count: raw.handle_count,
                read_bytes: raw.read_bytes,
                write_bytes: raw.write_bytes,
                read_delta_bytes: deltas.read_delta_bytes,
                write_delta_bytes: deltas.write_delta_bytes,
                read_bytes_per_sec,
                write_bytes_per_sec,
                native_heaps: raw.native_heaps,
            }),
    {
        PerfProcessSnapshot {
            cpu_percent,
            cpu_time_ms: raw.cpu_time_ms,
            working_set_bytes: raw.working_set_bytes,
            peak_working_set_bytes: raw.peak_working_set_bytes,
            pagefile_bytes: raw.pagefile_bytes,
            peak_pagefile_bytes: raw.peak_pagefile_bytes,
            page_fault_count: raw.page_fault_count,
            page_fault_delta: deltas.page_fault_delta,
            page_faults_per_sec,
            thread_count: raw.thread_count,
            handle_count: raw.handle_count,
            read_bytes: raw.read_bytes,
            write_bytes: raw.write_bytes,
            read_delta_bytes: deltas.read_delta_bytes,
            write_delta_bytes: deltas.write_delta_bytes,
            read_bytes_per_sec,
            write_bytes_per_sec,
            native_heaps: raw.native_heaps,
        }
    }
}

/// What a record keeps of the state of playback: its JSON, and what the summary
/// and the memory gap need.
#[derive(Debug)]
pub struct RecordedMetrics {
    pub json: String,
    pub transport_tick: u64,
    pub output_peak: String,
    pub ring_available_frames: Option<usize>,
    pub ring_capacity_frames: Option<usize>,
    pub underrun_count: Option<u64>,
    pub queue_error_count: Option<u64>,
    pub tracked_total_bytes: usize,
    pub active_bytes: usize,
    pub resident_bytes: usize,
}

/// What a record keeps of the process.
#[derive(Debug)]
pub struct RecordedProcess {
    pub json: String,
    pub working_set_bytes: u64,
    pub pagefile_bytes: u64,
}

/// The contents of recorded metrics.
pub ghost struct MetricsView {
    pub json: Seq<char>,
    pub transport_tick: u64,
    pub output_peak: Seq<char>,
    pub ring_available_frames: Option<usize>,
    pub ring_capacity_frames: Option<usize>,
    pub underrun_count: Option<u64>,
    pub queue_error_count: Option<u64>,
    pub tracked_total_bytes: usize,
    pub active_bytes: usize,
    pub resident_bytes: usize,
}

impl MetricsView {
    /// The underruns of the output, none without an output.
    pub open spec fn underruns(self) -> u64 {
        match self.underrun_count {
            Some(n) => n,
            None => 0,
        }
    }

    /// The queue errors of the output, none without an output.
    pub open spec fn queue_errors(self) -> u64 {
        match self.queue_error_count {
            Some(n) => n,
            None => 0,
        }
    }
}

/// The contents of a recorded process.
pub ghost struct ProcessView {
    pub json: Seq<char>,
    pub working_set_bytes: u64,
    pub pagefile_bytes: u64,
}

impl View for RecordedMetrics {
    type V = MetricsView;

    open spec fn view(&self) -> MetricsView {
        MetricsView {
            json: self.json@,
            transport_tick: self.transport_tick,
            output_peak: self.output_peak@,
            ring_available_frames: self.ring_available_frames,
            ring_capacity_frames: self.ring_capacity_frames,
            underrun_count: self.underrun_count,
            queue_error_count: self.queue_error_count,
            tracked_total_bytes: self.tracked_total_bytes,
            active_bytes: self.active_bytes,
            resident_bytes: self.resident_bytes,
        }
    }
}

impl View for RecordedProcess {
    type V = ProcessView;

    open spec fn view(&self) -> ProcessView {
        ProcessView {
            json: self.json@,
            working_set_bytes: self.working_set_bytes,
            pagefile_bytes: self.pagefile_bytes,
        }
    }
}

impl RecordedMetrics {
    /// What is kept of a snapshot. The peak is a number with three decimals.
    pub open spec fn of(snapshot: PerfMetricSnapshot, output_peak: Seq<char>) -> MetricsView {
        MetricsView {
            json: snapshot.json(),
            transport_tick: snapshot.transport_tick,
            output_peak,
            ring_available_frames: snapshot.ring_available_frames,
            ring_capacity_frames: snapshot.ring_capacity_frames,
            underrun_count: snapshot.underrun_count,
            queue_error_count: snapshot.queue_error_count,
            tracked_total_bytes: snapshot.component_memory.tracked_total_bytes,
            active_bytes: snapshot.memory_runtime.totals.active_bytes,
            resident_bytes: snapshot.memory_runtime.totals.resident_bytes,
        }
    }

    pub fn from_snapshot(snapshot: &PerfMetricSnapshot, output_peak: &str) -> (metrics:
        RecordedMetrics)
        ensures
            metrics@ == RecordedMetrics::of(*snapshot, output_peak@),
    {
        RecordedMetrics {
            json: snapshot.to_json(),
            transport_tick: snapshot.transport_tick,
            output_peak: output_peak.to_owned(),
            ring_available_frames: snapshot.ring_available_frames,
            ring_capacity_frames: snapshot.ring_capacity_frames,
            underrun_count: snapshot.underrun_count,
            queue_error_count: snapshot.queue_error_count,
            tracked_total_bytes: snapshot.component_memory.tracked_total_bytes,
            active_bytes: snapshot.memory_runtime.totals.active_bytes,
            resident_bytes: snapshot.memory_runtime.totals.resident_bytes,
        }
    }

    fn duplicate(&self) -> (copy: RecordedMetrics)
        ensures
            copy@ == self@,
    {
        RecordedMetrics {
            json: self.json.clone(),
            transport_tick: self.transport_tick,
            output_peak: self.output_peak.clone(),
            ring_available_frames: self.ring_available_frames,
            ring_capacity_frames: self.ring_capacity_frames,
            underrun_count: self.underrun_count,
            queue_error_count: self.queue_error_count,
            tracked_total_bytes: self.tracked_total_bytes,
            active_bytes: self.active_bytes,
            resident_bytes: self.resident_bytes,
        }
    }
}

impl RecordedProcess {
    pub fn from_snapshot(snapshot: &PerfProcessSnapshot) -> (process: RecordedProcess)
        ensures
            process@ == (ProcessView {
                json: snapshot.json(),
                working_set_bytes: snapshot.working_set_bytes,
                pagefile_bytes: snapshot.pagefile_bytes,
            }),
    {
        RecordedProcess {
            json: snapshot.to_json(),
            working_set_bytes: snapshot.working_set_bytes,
            pagefile_bytes: snapshot.pagefile_bytes,
        }
    }

    fn duplicate(&self) -> (copy: RecordedProcess)
        ensures
            copy@ == self@,
    {
        RecordedProcess {
            json: self.json.clone(),
            working_set_bytes: self.working_set_bytes,
            pagefile_bytes: self.pagefile_bytes,
        }
    }
}

/// The JSON of the gap between the memory that is tracked and the memory that the
/// system counts.
pub open spec fn memory_gap_object(metrics: MetricsView, process: ProcessView) -> Seq<char> {
    let counted = metrics.tracked_total_bytes as int;
    let active = metrics.active_bytes as int;
    let resident = metrics.resident_bytes as int;
    let working = process.working_set_bytes as int;
    let pagefile = process.pagefile_bytes as int;
    object_of(
        no_members()
            .push(("tracked_total_bytes"@, decimal(counted as nat)))
            .push(("jemalloc_active_bytes"@, decimal(active as nat)))
            .push(("jemalloc_resident_bytes"@, decimal(resident as nat)))
            .push(("working_set_minus_tracked_bytes"@, decimal(monus(working, counted) as nat)))
            .push((
                "working_set_minus_jemalloc_resident_bytes"@,
                decimal(monus(working, resident) as nat),
            ))
            .push(("pagefile_minus_tracked_bytes"@, decimal(monus(pagefile, counted) as nat)))
            .push((
                "pagefile_minus_jemalloc_active_bytes"@,
                decimal(monus(pagefile, active) as nat),
            )),
    )
}

pub fn memory_gap_json(metrics: &RecordedMetrics, process: &RecordedProcess) -> (text: String)
    ensures
        text@ == memory_gap_object(metrics@, process@),
{
    let counted: u64 = metrics.tracked_total_bytes as u64;
    let active: u64 = metrics.active_bytes as u64;
    let resident: u64 = metrics.resident_bytes as u64;
    let mut object = JsonObject::new();
    object.number("tracked_total_bytes", counted as u128);
    object.number("jemalloc_active_bytes", active as u128);
    object.number("jemalloc_resident_bytes", resident as u128);
    object.number(
        "working_set_minus_tracked_bytes",
        process.working_set_bytes.saturating_sub(counted) as u128,
    );
    object.number(
        "working_set_minus_jemalloc_resident_bytes",
        process.working_set_bytes.saturating_sub(resident) as u128,
    );
    object.number(
        "pagefile_minus_tracked_bytes",
        process.pagefile_bytes.saturating_sub(counted) as u128,
    );
    object.number(
        "pagefile_minus_jemalloc_active_bytes",
        process.pagefile_bytes.saturating_sub(active) as u128,
    );
    object.finish()
}

/// One record of the trace.
#[derive(Debug)]
pub struct PerfTraceRecord {
    pub sequence: u64,
    pub session_id: String,
    pub operation_id: u64,
    pub record_type: &'static str,
    pub phase: &'static str,
    pub label: String,
    pub outcome: Option<String>,
    pub details: Vec<(String, String)>,
    pub wall_time_ms: u128,
    pub app_time_ms: u128,
    pub frame_gap_ms: u128,
    pub metrics: Option<RecordedMetrics>,
    pub process: Option<RecordedProcess>,
}

/// The contents of a record.
pub ghost struct RecordView {
    pub sequence: u64,
    pub session_id: Seq<char>,
    pub operation_id: u64,
    pub record_type: Seq<char>,
    pub phase: Seq<char>,
    pub label: Seq<char>,
    pub outcome: Option<Seq<char>>,
    pub details: Seq<(Seq<char>, Seq<char>)>,
    pub wall_time_ms: u128,
    pub app_time_ms: u128,
    pub frame_gap_ms: u128,
    pub metrics: Option<MetricsView>,
    pub process: Option<ProcessView>,
}

/// The contents of details.
pub open spec fn detail_views(details: Seq<(String, String)>) -> Seq<(Seq<char>, Seq<char>)> {
    details.map_values(|detail: (String, String)| (detail.0@, detail.1@))
}

impl View for PerfTraceRecord {
    type V = RecordView;

    open spec fn view(&self) -> RecordView {
        RecordView {
            sequence: self.sequence,
            session_id: self.session_id@,
            operation_id: self.operation_id,
            record_type: self.record_type@,
            phase: self.phase@,
            label: self.label@,
            outcome: optional_text(self.outcome),
            details: detail_views(self.details@),
            wall_time_ms: self.wall_time_ms,
            app_time_ms: self.app_time_ms,
            frame_gap_ms: self.frame_gap_ms,
            metrics: match self.metrics {
                Some(metrics) => Some(metrics@),
                None => None,
            },
            process: match self.process {
                Some(process) => Some(process@),
                None => None,
            },
        }
    }
}

/// How full the ring of the audio output is.
pub open spec fn ring_text(metrics: MetricsView) -> Seq<char> {
    match metrics.ring_available_frames {
        Some(available) => decimal(available as nat) + "/"@ + decimal(
            match metrics.ring_capacity_frames {
                Some(capacity) => capacity as nat,
                None => 0,
            },
        ),
        None => "closed"@,
    }
}

/// The part of a summary on the state of playback.
pub open spec fn metrics_text(metrics: MetricsView) -> Seq<char> {
    " tick="@ + decimal(metrics.transport_tick as nat) + " peak="@ + metrics.output_peak + " ring="@
        + ring_text(metrics) + " underruns="@ + decimal(metrics.underruns() as nat) + " qerr="@
        + decimal(metrics.queue_errors() as nat)
}

impl RecordView {
    /// The record as one line for the eye.
    pub open spec fn summary(self) -> Seq<char> {
        let head = "#"@ + zero_padded(decimal(self.sequence as nat), 4) + " "@ + self.record_type
            + " "@ + self.phase + " "@ + self.label;
        let with_outcome = match self.outcome {
            Some(outcome) => head + (" "@ + outcome),
            None => head,
        };
        match self.metrics {
            Some(metrics) => with_outcome + metrics_text(metrics),
            None => with_outcome,
        }
    }

    /// The record as a line of JSON.
    pub open spec fn json_line(self) -> Seq<char> {
        let m0 = no_members()
            .push(("schema"@, quoted("flutz_perf_trace.v1"@)))
            .push(("session"@, quoted(self.session_id)))
            .push(("seq"@, decimal(self.sequence as nat)))
            .push(("op"@, decimal(self.operation_id as nat)))
            .push(("type"@, quoted(self.record_type)))
            .push(("phase"@, quoted(self.phase)))
            .push(("label"@, quoted(self.label)))
            .push(("wall_ms"@, decimal(self.wall_time_ms as nat)))
            .push(("app_ms"@, decimal(self.app_time_ms as nat)))
            .push(("frame_gap_ms"@, decimal(self.frame_gap_ms as nat)));
        let m1 = with_optional_string(m0, "outcome"@, self.outcome);
        let m2 = if self.details.len() == 0 {
            m1
        } else {
            m1.push(("details"@, details_object(self.details)))
        };
        let m3 = match self.metrics {
            Some(metrics) => m2.push(("metrics"@, metrics.json)),
            None => m2,
        };
        let m4 = match self.process {
            Some(process) => m3.push(("process"@, process.json)),
            None => m3,
        };
        object_of(
            match (self.metrics, self.process) {
                (Some(metrics), Some(process)) => m4.push(
                    ("memory_gap"@, memory_gap_object(metrics, process)),
                ),
                _ => m4,
            },
        )
    }
}

/// The JSON of details; keys are escaped as strings are.
pub open spec fn details_object(details: Seq<(Seq<char>, Seq<char>)>) -> Seq<char> {
    object_of(
        details.map_values(
            |detail: (Seq<char>, Seq<char>)| (crate::json::escaped(detail.0), quoted(detail.1)),
        ),
    )
}

fn details_json(details: &Vec<(String, String)>) -> (text: String)
    ensures
        text@ == details_object(detail_views(details@)),
{
    let ghost all = detail_views(details@).map_values(
        |detail: (Seq<char>, Seq<char>)| (crate::json::escaped(detail.0), quoted(detail.1)),
    );
    let mut object = JsonObject::new();
    let mut i: usize = 0;
    assert(object.members() =~= all.take(0));
    while i < details.len()
        invariant
            i <= details@.len(),
            all == detail_views(details@).map_values(
                |detail: (Seq<char>, Seq<char>)| (crate::json::escaped(detail.0), quoted(detail.1)),
            ),
            object.wf(),
            object.members() == all.take(i as int),
        decreases details@.len() - i,
    {
        let key = crate::json::escape_json(details[i].0.as_str());
        object.string(key.as_str(), details[i].1.as_str());
        i = i + 1;
        assert(object.members() =~= all.take(i as int));
    }
    assert(all.take(i as int) =~= all);
    object.finish()
}

fn clone_details(details: &Vec<(String, String)>) -> (copy: Vec<(String, String)>)
    ensures
        detail_views(copy@) == detail_views(details@),
{
    let mut copy: Vec<(String, String)> = Vec::new();
    let mut i: usize = 0;
    while i < details.len()
        invariant
            i <= details@.len(),
            copy@.len() == i,
            forall|k: int|
                0 <= k < i ==> (#[trigger] copy@[k]).0@ == details@[k].0@ && copy@[k].1@
                    == details@[k].1@,
        decreases details@.len() - i,
    {
        copy.push((details[i].0.clone(), details[i].1.clone()));
        i = i + 1;
    }
    assert(detail_views(copy@) =~= detail_views(details@));
    copy
}

impl PerfTraceRecord {
    /// The record as one line for the eye.
    pub fn summary(&self) -> (text: String)
        ensures
            text@ == self@.summary(),
    {
        let mut text = "#".to_owned();
        push_zero_padded(&mut text, decimal_text(self.sequence as u128).as_str(), 4);
        text.append(" ");
        text.append(self.record_type);
        text.append(" ");
        text.append(self.phase);
        text.append(" ");
        text.append(self.label.as_str());
        match &self.outcome {
            Some(outcome) => {
                let mut part = " ".to_owned();
                part.append(outcome.as_str());
                text.append(part.as_str());
            },
            None => {},
        }
        match &self.metrics {
            Some(metrics) => {
                let mut part = " tick=".to_owned();
                push_decimal(&mut part, metrics.transport_tick as u128);
                part.append(" peak=");
                part.append(metrics.output_peak.as_str());
                part.append(" ring=");
                let mut ring = String::new();
                match metrics.ring_available_frames {
                    Some(available) => {
                        ring = decimal_text(available as u128);
                        ring.append("/");
                        push_decimal(&mut ring, metrics.ring_capacity_frames.unwrap_or(0) as u128);
                    },
                    None => {
                        ring = "closed".to_owned();
                    },
                }
                part.append(ring.as_str());
                part.append(" underruns=");
                push_decimal(&mut part, metrics.underrun_count.unwrap_or(0) as u128);
                part.append(" qerr=");
                push_decimal(&mut part, metrics.queue_error_count.unwrap_or(0) as u128);
                assert(part@ == metrics_text(metrics@));
                text.append(part.as_str());
            },
            None => {},
        }
        text
    }

    /// The record as a line of JSON.
    pub fn to_json_line(&self) -> (text: String)
        ensures
            text@ == self@.json_line(),
    {
        let mut object = JsonObject::new();
        object.string("schema", "flutz_perf_trace.v1");
        object.string("session", self.session_id.as_str());
        object.number("seq", self.sequence as u128);
        object.number("op", self.operation_id as u128);
        object.string("type", self.record_type);
        object.string("phase", self.phase);
        object.string("label", self.label.as_str());
        object.number("wall_ms", self.wall_time_ms);
        object.number("app_ms", self.app_time_ms);
        object.number("frame_gap_ms", self.frame_gap_ms);
        object.optional_string("outcome", &self.outcome);
        if self.details.len() > 0 {
            object.raw("details", details_json(&self.details).as_str());
        }
        match &self.metrics {
            Some(metrics) => object.raw("metrics", metrics.json.as_str()),
            None => {},
        }
        match &self.process {
            Some(process) => object.raw("process", process.json.as_str()),
            None => {},
        }
        match (&self.metrics, &self.process) {
            (Some(metrics), Some(process)) => object.raw(
                "memory_gap",
                memory_gap_json(metrics, process).as_str(),
            ),
            _ => {},
        }
        object.finish()
    }

    fn duplicate(&self) -> (copy: PerfTraceRecord)
        ensures
            copy@ == self@,
    {
        PerfTraceRecord {
            sequence: self.sequence,
            session_id: self.session_id.clone(),
            operation_id: self.operation_id,
            record_type: self.record_type,
            phase: self.phase,
            label: self.label.clone(),
            outcome: match &self.outcome {
                Some(outcome) => Some(outcome.clone()),
                None => None,
            },
            details: clone_details(&self.details),
            wall_time_ms: self.wall_time_ms,
            app_time_ms: self.app_time_ms,
            frame_gap_ms: self.frame_gap_ms,
            metrics: match &self.metrics {
                Some(metrics) => Some(metrics.duplicate()),
                None => None,
            },
            process: match &self.process {
                Some(process) => Some(process.duplicate()),
                None => None,
            },
        }
    }
}

/// The moment of a record: the steady clock and the wall clock.
#[derive(Debug, Copy, Clone, PartialEq, Eq, Structural)]
pub struct Moment {
    pub now: u128,
    pub wall_time_ms: u128,
}

/// The performance trace.
#[derive(Debug)]
pub struct PerfTrace {
    pub compiled: bool,
    pub enabled: bool,
    pub session_id: String,
    pub sequence: u64,
    pub operation_sequence: u64,
    pub started_at: u128,
    pub last_frame_at: u128,
    pub last_sample_at: u128,
    pub max_frame_gap_ms: u128,
    pub last_underrun_count: u64,
    pub last_queue_error_count: u64,
    pub records: VecDeque<PerfTraceRecord>,
    pub issues: VecDeque<PerfTraceRecord>,
    pub log_path: Option<String>,
    pub log_error: Option<String>,
}

/// The contents of records.
pub open spec fn record_views(records: Seq<PerfTraceRecord>) -> Seq<RecordView> {
    records.map_values(|record: PerfTraceRecord| record@)
}

/// The contents of the trace.
pub ghost struct TraceView {
    pub compiled: bool,
    pub enabled: bool,
    pub session_id: Seq<char>,
    pub sequence: u64,
    pub operation_sequence: u64,
    pub started_at: u128,
    pub last_frame_at: u128,
    pub last_sample_at: u128,
    pub max_frame_gap_ms: u128,
    pub last_underrun_count: u64,
    pub last_queue_error_count: u64,
    pub records: Seq<RecordView>,
    pub issues: Seq<RecordView>,
    pub log_path: Option<Seq<char>>,
    pub log_error: Option<Seq<char>>,
}

impl View for PerfTrace {
    type V = TraceView;

    open spec fn view(&self) -> TraceView {
        TraceView {
            compiled: self.compiled,
            enabled: self.enabled,
            session_id: self.session_id@,
            sequence: self.sequence,
            operation_sequence: self.operation_sequence,
            started_at: self.started_at,
            last_frame_at: self.last_frame_at,
            last_sample_at: self.last_sample_at,
            max_frame_gap_ms: self.max_frame_gap_ms,
            last_underrun_count: self.last_underrun_count,
            last_queue_error_count: self.last_queue_error_count,
            records: record_views(self.records@),
            issues: record_views(self.issues@),
            log_path: optional_text(self.log_path),
            log_error: optional_text(self.log_error),
        }
    }
}

/// What a record is made of, besides its number and its time.
pub ghost struct Entry {
    pub operation_id: u64,
    pub record_type: Seq<char>,
    pub phase: Seq<char>,
    pub label: Seq<char>,
    pub outcome: Option<Seq<char>>,
    pub details: Seq<(Seq<char>, Seq<char>)>,
    pub frame_gap_ms: u128,
    pub metrics: Option<MetricsView>,
    pub process: Option<ProcessView>,
}

impl TraceView {
    /// The record of an entry, numbered next.
    pub open spec fn record_of(self, entry: Entry, moment: Moment) -> RecordView {
        RecordView {
            sequence: u64_cap(self.sequence + 1) as u64,
            session_id: self.session_id,
            operation_id: entry.operation_id,
            record_type: entry.record_type,
            phase: entry.phase,
            label: entry.label,
            outcome: entry.outcome,
            details: entry.details,
            wall_time_ms: moment.wall_time_ms,
            app_time_ms: elapsed_ms(self.started_at, moment.now) as u128,
            frame_gap_ms: entry.frame_gap_ms,
            metrics: entry.metrics,
            process: entry.process,
        }
    }

    /// The trace with one more record.
    pub open spec fn recorded(self, entry: Entry, moment: Moment) -> TraceView {
        TraceView {
            sequence: u64_cap(self.sequence + 1) as u64,
            records: newest(
                self.records.push(self.record_of(entry, moment)),
                MAX_RECORDS as int,
            ),
            ..self
        }
    }

    /// The trace is in order: it holds no more records and issues than it may, every issue
    /// is one, and until the numbers run out the records are numbered one after the other
    /// up to the number that was given last.
    pub open spec fn ordered(self) -> bool {
        &&& self.records.len() <= MAX_RECORDS
        &&& self.issues.len() <= MAX_ISSUES
        &&& forall|i: int|
            0 <= i < self.issues.len() ==> (#[trigger] self.issues[i]).record_type == "issue"@
        &&& self.sequence < u64::MAX ==> forall|i: int|
            0 <= i < self.records.len() ==> (#[trigger] self.records[i]).sequence
                == self.sequence - self.records.len() + 1 + i
    }

    /// The line that is logged for a record.
    pub open spec fn logged(self, entry: Entry, moment: Moment) -> Option<Seq<char>> {
        match self.log_path {
            Some(_) => Some(self.record_of(entry, moment).json_line()),
            None => None,
        }
    }
}

/// The entry of a marker.
pub open spec fn marker_entry(
    label: Seq<char>,
    outcome: Seq<char>,
    process: Option<ProcessView>,
) -> Entry {
    Entry {
        operation_id: 0,
        record_type: "event"@,
        phase: "marker"@,
        label,
        outcome: Some(outcome),
        details: Seq::empty(),
        frame_gap_ms: 0,
        metrics: None,
        process,
    }
}

/// The contents of an optional recorded process.
pub open spec fn process_view(process: Option<RecordedProcess>) -> Option<ProcessView> {
    match process {
        Some(process) => Some(process@),
        None => None,
    }
}

proof fn lemma_newest_views(records: Seq<PerfTraceRecord>, record: PerfTraceRecord, n: int)
    requires
        n > 0,
    ensures
        record_views(newest(records.push(record), n)) == newest(
            record_views(records).push(record@),
            n,
        ),
{
    assert(record_views(newest(records.push(record), n)) =~= newest(
        record_views(records).push(record@),
        n,
    ));
}

impl PerfTrace {
    /// A trace that has recorded nothing.
    pub open spec fn fresh(
        compiled: bool,
        enabled: bool,
        session_id: Seq<char>,
        log_path: Option<Seq<char>>,
        now: u128,
    ) -> TraceView {
        TraceView {
            compiled,
            enabled,
            session_id,
            sequence: 0,
            operation_sequence: 0,
            started_at: now,
            last_frame_at: now,
            last_sample_at: now,
            max_frame_gap_ms: 0,
            last_underrun_count: 0,
            last_queue_error_count: 0,
            records: Seq::empty(),
            issues: Seq::empty(),
            log_path,
            log_error: None,
        }
    }

    /// Starts a session. The trace is on if memory debugging is asked for, the
    /// build has the trace and the environment does not switch it off; it then
    /// logs to the given path or the default one, beginning with a launch marker.
    /// A build without the trace has no session name.
    pub fn new(
        debug_memory: bool,
        compiled: bool,
        switched_off: bool,
        session_id: String,
        log_path: Option<String>,
        default_log_path: String,
        process: Option<RecordedProcess>,
        moment: Moment,
    ) -> (started: (PerfTrace, Option<String>))
        ensures
            ({
                let enabled = compiled && debug_memory && !switched_off;
                let path = if !enabled {
                    None
                } else {
                    match log_path {
                        Some(path) => Some(path@),
                        None => Some(default_log_path@),
                    }
                };
                let session = if compiled {
                    session_id@
                } else {
                    Seq::empty()
                };
                let start = PerfTrace::fresh(compiled, enabled, session, path, moment.now);
                let marker = marker_entry("app.session"@, "launch"@, process_view(process));
                &&& started.0@ == start.called(TraceCall::Record(marker, moment))
                &&& optional_text(started.1) == if enabled {
                    start.logged(marker, moment)
                } else {
                    None
                }
            }),
    {
        let enabled = compiled && debug_memory && !switched_off;
        let path = if !enabled {
            None
        } else {
            match log_path {
                Some(path) => Some(path),
                None => Some(default_log_path),
            }
        };
        let session = if compiled {
            session_id
        } else {
            String::new()
        };
        let mut trace = PerfTrace {
            compiled,
            enabled,
            session_id: session,
            sequence: 0,
            operation_sequence: 0,
            started_at: moment.now,
            last_frame_at: moment.now,
            last_sample_at: moment.now,
            max_frame_gap_ms: 0,
            last_underrun_count: 0,
            last_queue_error_count: 0,
            records: VecDeque::new(),
            issues: VecDeque::new(),
            log_path: path,
            log_error: None,
        };
        assert(record_views(trace.records@) =~= Seq::<RecordView>::empty());
        assert(record_views(trace.issues@) =~= Seq::<RecordView>::empty());
        if enabled {
            let line = trace.record_marker("app.session", "launch", process, moment);
            return (trace, line);
        }
        (trace, None)
    }

    /// The state of the trace as one line.
    pub open spec fn status(view: TraceView) -> Seq<char> {
        if !view.compiled {
            "perf trace inert for this build"@
        } else {
            (if view.enabled {
                "enabled"@
            } else {
                "disabled"@
            }) + "; "@ + decimal(view.records.len()) + " record(s), "@ + decimal(view.issues.len())
                + " issue(s); "@ + logging_text(view.log_path) + error_text(view.log_error)
        }
    }

    pub fn status_line(&self) -> (text: String)
        ensures
            text@ == PerfTrace::status(self@),
    {
        if !self.compiled {
            return "perf trace inert for this build".to_owned();
        }
        let mut text = if self.enabled {
            "enabled".to_owned()
        } else {
            "disabled".to_owned()
        };
        text.append("; ");
        push_decimal(&mut text, self.records.len() as u128);
        text.append(" record(s), ");
        push_decimal(&mut text, self.issues.len() as u128);
        text.append(" issue(s); ");
        push_logging(&mut text, &self.log_path);
        push_log_error(&mut text, &self.log_error);
        text
    }

    pub fn is_enabled(&self) -> (enabled: bool)
        ensures
            enabled == self@.enabled,
    {
        self.enabled
    }

    /// Whether the next sample is due.
    pub open spec fn sample_due(view: TraceView, now: u128) -> bool {
        elapsed_ms(view.last_sample_at, now) >= SAMPLE_INTERVAL_MS
    }

    pub fn is_periodic_sample_due(&self, now: u128) -> (due: bool)
        ensures
            due == (self@.enabled && PerfTrace::sample_due(self@, now)),
    {
        self.enabled && milliseconds_between(self.last_sample_at, now) >= SAMPLE_INTERVAL_MS
    }

    /// Notes a frame of the user interface: the longest gap between frames is kept
    /// until the next sample.
    pub fn observe_frame(&mut self, now: u128)
        ensures
            final(self)@ == old(self)@.called(TraceCall::Frame(now)),
    {
        if !self.enabled {
            return;
        }
        let gap: u128 = milliseconds_between(self.last_frame_at, now);
        self.last_frame_at = now;
        if gap > self.max_frame_gap_ms {
            self.max_frame_gap_ms = gap;
        }
    }

    fn push_record(&mut self, record: PerfTraceRecord) -> (line: Option<String>)
        ensures
            final(self)@ == (TraceView {
                records: newest(old(self)@.records.push(record@), MAX_RECORDS as int),
                ..old(self)@
            }),
            optional_text(line) == (match old(self)@.log_path {
                Some(_) => Some(record@.json_line()),
                None => None,
            }),
    {
        let line = if self.log_path.is_some() {
            Some(record.to_json_line())
        } else {
            None
        };
        proof {
            lemma_newest_views(self.records@, record, MAX_RECORDS as int);
        }
        push_bounded(&mut self.records, record, MAX_RECORDS);
        line
    }

    fn push_issue(&mut self, record: PerfTraceRecord)
        ensures
            final(self)@ == (TraceView {
                issues: newest(old(self)@.issues.push(record@), MAX_ISSUES as int),
                ..old(self)@
            }),
    {
        proof {
            lemma_newest_views(self.issues@, record, MAX_ISSUES as int);
        }
        push_bounded(&mut self.issues, record, MAX_ISSUES);
    }

    fn next_sequence(&mut self) -> (sequence: u64)
        ensures
            sequence == u64_cap(old(self)@.sequence + 1),
            final(self)@ == (TraceView { sequence, ..old(self)@ }),
    {
        self.sequence = self.sequence.saturating_add(1);
        self.sequence
    }

    /// Records a marker, if the trace is on.
    pub fn record_marker(
        &mut self,
        label: &str,
        outcome: &str,
        process: Option<RecordedProcess>,
        moment: Moment,
    ) -> (line: Option<String>)
        ensures
            ({
                let entry = marker_entry(label@, outcome@, process_view(process));
                &&& final(self)@ == old(self)@.called(TraceCall::Record(entry, moment))
                &&& optional_text(line) == if old(self)@.enabled {
                    old(self)@.logged(entry, moment)
                } else {
                    None
                }
            }),
    {
        if !self.enabled {
            return None;
        }
        let sequence: u64 = self.next_sequence();
        let record = PerfTraceRecord {
            sequence,
            session_id: self.session_id.clone(),
            operation_id: 0,
            record_type: "event",
            phase: "marker",
            label: label.to_owned(),
            outcome: Some(outcome.to_owned()),
            details: Vec::new(),
            wall_time_ms: moment.wall_time_ms,
            app_time_ms: milliseconds_between(self.started_at, moment.now),
            frame_gap_ms: 0,
            metrics: None,
            process,
        };
        assert(detail_views(record.details@) =~= Seq::<(Seq<char>, Seq<char>)>::empty());
        self.push_record(record)
    }

    /// Records a diagnostic with its details, if the trace is on.
    pub fn record_diagnostic(
        &mut self,
        label: &str,
        outcome: &str,
        details: Vec<(String, String)>,
        process: Option<RecordedProcess>,
        moment: Moment,
    ) -> (line: Option<String>)
        ensures
            ({
                let entry = Entry {
                    operation_id: 0,
                    record_type: "diagnostic"@,
                    phase: "point"@,
                    label: label@,
                    outcome: Some(outcome@),
                    details: detail_views(details@),
                    frame_gap_ms: 0,
                    metrics: None,
                    process: process_view(process),
                };
                &&& final(self)@ == old(self)@.called(TraceCall::Record(entry, moment))
                &&& optional_text(line) == if old(self)@.enabled {
                    old(self)@.logged(entry, moment)
                } else {
                    None
                }
            }),
    {
        if !self.enabled {
            return None;
        }
        let sequence: u64 = self.next_sequence();
        let record = PerfTraceRecord {
            sequence,
            session_id: self.session_id.clone(),
            operation_id: 0,
            record_type: "diagnostic",
            phase: "point",
            label: label.to_owned(),
            outcome: Some(outcome.to_owned()),
            details,
            wall_time_ms: moment.wall_time_ms,
            app_time_ms: milliseconds_between(self.started_at, moment.now),
            frame_gap_ms: 0,
            metrics: None,
            process,
        };
        self.push_record(record)
    }

    fn record_with_metrics(
        &mut self,
        operation_id: u64,
        record_type: &'static str,
        phase: &'static str,
        label: &str,
        outcome: Option<String>,
        frame_gap_ms: u128,
        metrics: RecordedMetrics,
        process: Option<RecordedProcess>,
        moment: Moment,
        issue: bool,
    ) -> (line: Option<String>)
        ensures
            ({
                let entry = Entry {
                    operation_id,
                    record_type: record_type@,
                    phase: phase@,
                    label: label@,
                    outcome: optional_text(outcome),
                    details: Seq::empty(),
                    frame_gap_ms,
                    metrics: Some(metrics@),
                    process: process_view(process),
                };
                let recorded = old(self)@.recorded(entry, moment);
                &&& final(self)@ == if issue {
                    TraceView {
                        issues: newest(
                            old(self)@.issues.push(old(self)@.record_of(entry, moment)),
                            MAX_ISSUES as int,
                        ),
                        ..recorded
                    }
                } else {
                    recorded
                }
                &&& optional_text(line) == old(self)@.logged(entry, moment)
            }),
    {
        let sequence: u64 = self.next_sequence();
        let record = PerfTraceRecord {
            sequence,
            session_id: self.session_id.clone(),
            operation_id,
            record_type,
            phase,
            label: label.to_owned(),
            outcome,
            details: Vec::new(),
            wall_time_ms: moment.wall_time_ms,
            app_time_ms: milliseconds_between(self.started_at, moment.now),
            frame_gap_ms,
            metrics: Some(metrics),
            process,
        };
        assert(detail_views(record.details@) =~= Seq::<(Seq<char>, Seq<char>)>::empty());
        if issue {
            let copy = record.duplicate();
            self.push_issue(copy);
        }
        self.push_record(record)
    }

    /// Records the beginning of an operation of the user, if the trace is on, and
    /// returns the number of the operation.
    pub fn begin_user_event(
        &mut self,
        label: &str,
        metrics: RecordedMetrics,
        process: Option<RecordedProcess>,
        moment: Moment,
    ) -> (begun: (u64, Option<String>))
        ensures
            ({
                let operation = u64_cap(old(self)@.operation_sequence + 1) as u64;
                let numbered = TraceView { operation_sequence: operation, ..old(self)@ };
                let entry = Entry {
                    operation_id: operation,
                    record_type: "event"@,
                    phase: "before"@,
                    label: label@,
                    outcome: None,
                    details: Seq::empty(),
                    frame_gap_ms: 0,
                    metrics: Some(metrics@),
                    process: process_view(process),
                };
                &&& final(self)@ == old(self)@.called(TraceCall::Operation(entry, moment))
                &&& if old(self)@.enabled {
                    begun.0 == operation && optional_text(begun.1) == numbered.logged(entry, moment)
                } else {
                    begun.0 == 0 && begun.1 is None
                }
            }),
    {
        if !self.enabled {
            return (0, None);
        }
        self.operation_sequence = self.operation_sequence.saturating_add(1);
        let operation_id: u64 = self.operation_sequence;
        let line = self.record_with_metrics(
            operation_id,
            "event",
            "before",
            label,
            None,
            0,
            metrics,
            process,
            moment,
            false,
        );
        (operation_id, line)
    }

    /// Records the end of an operation of the user, if the trace is on and was on
    /// when it began.
    pub fn finish_user_event(
        &mut self,
        operation_id: u64,
        label: &str,
        outcome: &str,
        metrics: RecordedMetrics,
        process: Option<RecordedProcess>,
        moment: Moment,
    ) -> (line: Option<String>)
        ensures
            ({
                let entry = Entry {
                    operation_id,
                    record_type: "event"@,
                    phase: "after"@,
                    label: label@,
                    outcome: Some(outcome@),
                    details: Seq::empty(),
                    frame_gap_ms: 0,
                    metrics: Some(metrics@),
                    process: process_view(process),
                };
                if operation_id != 0 {
                    &&& final(self)@ == old(self)@.called(TraceCall::Record(entry, moment))
                    &&& optional_text(line) == if old(self)@.enabled {
                        old(self)@.logged(entry, moment)
                    } else {
                        None
                    }
                } else {
                    final(self)@ == old(self)@ && line is None
                }
            }),
    {
        if !self.enabled || operation_id == 0 {
            return None;
        }
        self.record_with_metrics(
            operation_id,
            "event",
            "after",
            label,
            Some(outcome.to_owned()),
            0,
            metrics,
            process,
            moment,
            false,
        )
    }

    /// Records an operation of the user that takes no time, if the trace is on.
    pub fn record_user_event(
        &mut self,
        label: &str,
        outcome: &str,
        metrics: RecordedMetrics,
        process: Option<RecordedProcess>,
        moment: Moment,
    ) -> (line: Option<String>)
        ensures
            ({
                let operation = u64_cap(old(self)@.operation_sequence + 1) as u64;
                let numbered = TraceView { operation_sequence: operation, ..old(self)@ };
                let entry = Entry {
                    operation_id: operation,
                    record_type: "event"@,
                    phase: "point"@,
                    label: label@,
                    outcome: Some(outcome@),
                    details: Seq::empty(),
                    frame_gap_ms: 0,
                    metrics: Some(metrics@),
                    process: process_view(process),
                };
                &&& final(self)@ == old(self)@.called(TraceCall::Operation(entry, moment))
                &&& optional_text(line) == if old(self)@.enabled {
                    numbered.logged(entry, moment)
                } else {
                    None
                }
            }),
    {
        if !self.enabled {
            return None;
        }
        self.operation_sequence = self.operation_sequence.saturating_add(1);
        let operation_id: u64 = self.operation_sequence;
        self.record_with_metrics(
            operation_id,
            "event",
            "point",
            label,
            Some(outcome.to_owned()),
            0,
            metrics,
            process,
            moment,
            false,
        )
    }

    /// The issue that a sample shows: a stall of the user interface, else new
    /// underruns, else new queue errors.
    pub open spec fn issue_of(view: TraceView, metrics: MetricsView) -> Option<Seq<char>> {
        let underruns = metrics.underruns();
        let queue_errors = metrics.queue_errors();
        if view.max_frame_gap_ms >= FRAME_STALL_MS {
            Some("ui frame gap "@ + decimal(view.max_frame_gap_ms as nat) + "ms"@)
        } else if underruns > view.last_underrun_count {
            Some(
                "audio underrun count advanced "@ + decimal(view.last_underrun_count as nat)
                    + " -> "@ + decimal(underruns as nat),
            )
        } else if queue_errors > view.last_queue_error_count {
            Some(
                "audio queue error count advanced "@ + decimal(view.last_queue_error_count as nat)
                    + " -> "@ + decimal(queue_errors as nat),
            )
        } else {
            None
        }
    }

    /// What a sample records: the issue that it shows, or that there is none.
    pub open spec fn sample_entry(
        view: TraceView,
        metrics: MetricsView,
        process: Option<ProcessView>,
    ) -> Entry {
        let issue = PerfTrace::issue_of(view, metrics);
        Entry {
            operation_id: 0,
            record_type: if issue is Some {
                "issue"@
            } else {
                "sample"@
            },
            phase: if issue is Some {
                "detected"@
            } else {
                "periodic"@
            },
            label: if issue is Some {
                "performance.quality"@
            } else {
                "performance.sample"@
            },
            outcome: issue,
            details: Seq::empty(),
            frame_gap_ms: view.max_frame_gap_ms,
            metrics: Some(metrics),
            process,
        }
    }

    /// The trace after a sample that was due, and the line that is logged for it.
    pub open spec fn sampled(
        view: TraceView,
        metrics: MetricsView,
        process: Option<ProcessView>,
        moment: Moment,
    ) -> (TraceView, Option<Seq<char>>) {
        let issue = PerfTrace::issue_of(view, metrics);
        let noted = TraceView {
            max_frame_gap_ms: 0,
            last_underrun_count: metrics.underruns(),
            last_queue_error_count: metrics.queue_errors(),
            ..view
        };
        let entry = PerfTrace::sample_entry(view, metrics, process);
        let recorded = TraceView {
            last_sample_at: moment.now,
            ..noted.recorded(entry, moment)
        };
        (
            if issue is Some {
                TraceView {
                    issues: newest(
                        noted.issues.push(noted.record_of(entry, moment)),
                        MAX_ISSUES as int,
                    ),
                    ..recorded
                }
            } else {
                recorded
            },
            noted.logged(entry, moment),
        )
    }

    /// Takes a sample if the trace is on and one is due. A sample that shows an
    /// issue is kept among the issues too.
    pub fn sample_frame(
        &mut self,
        metrics: RecordedMetrics,
        process: Option<RecordedProcess>,
        moment: Moment,
    ) -> (line: Option<String>)
        ensures
            final(self)@ == old(self)@.called(
                TraceCall::Sample(metrics@, process_view(process), moment),
            ),
            optional_text(line) == if old(self)@.enabled && PerfTrace::sample_due(
                old(self)@,
                moment.now,
            ) {
                PerfTrace::sampled(old(self)@, metrics@, process_view(process), moment).1
            } else {
                None
            },
    {
        if !self.is_periodic_sample_due(moment.now) {
            return None;
        }
        let underruns: u64 = metrics.underrun_count.unwrap_or(0);
        let queue_errors: u64 = metrics.queue_error_count.unwrap_or(0);
        let frame_gap_ms: u128 = self.max_frame_gap_ms;
        self.max_frame_gap_ms = 0;
        let issue = if frame_gap_ms >= FRAME_STALL_MS {
            let mut text = "ui frame gap ".to_owned();
            push_decimal(&mut text, frame_gap_ms);
            text.append("ms");
            Some(text)
        } else if underruns > self.last_underrun_count {
            let mut text = "audio underrun count advanced ".to_owned();
            push_decimal(&mut text, self.last_underrun_count as u128);
            text.append(" -> ");
            push_decimal(&mut text, underruns as u128);
            Some(text)
        } else if queue_errors > self.last_queue_error_count {
            let mut text = "audio queue error count advanced ".to_owned();
            push_decimal(&mut text, self.last_queue_error_count as u128);
            text.append(" -> ");
            push_decimal(&mut text, queue_errors as u128);
            Some(text)
        } else {
            None
        };
        self.last_underrun_count = underruns;
        self.last_queue_error_count = queue_errors;
        let line = if issue.is_some() {
            self.record_with_metrics(
                0,
                "issue",
                "detected",
                "performance.quality",
                issue,
                frame_gap_ms,
                metrics,
                process,
                moment,
                true,
            )
        } else {
            self.record_with_metrics(
                0,
                "sample",
                "periodic",
                "performance.sample",
                None,
                frame_gap_ms,
                metrics,
                process,
                moment,
                false,
            )
        };
        self.last_sample_at = moment.now;
        line
    }

    /// Forgets every record and issue; the trace then holds only a marker for
    /// that, if it is on.
    pub fn clear(&mut self, process: Option<RecordedProcess>, moment: Moment) -> (line: Option<
        String,
    >)
        ensures
            ({
                let empty = TraceView {
                    records: Seq::empty(),
                    issues: Seq::empty(),
                    log_error: None,
                    ..old(self)@
                };
                let entry = marker_entry("perf_trace.clear"@, "cleared"@, process_view(process));
                &&& final(self)@ == old(self)@.called(
                    TraceCall::Clear(process_view(process), moment),
                )
                &&& optional_text(line) == if old(self)@.enabled {
                    empty.logged(entry, moment)
                } else {
                    None
                }
            }),
    {
        self.records.clear();
        self.issues.clear();
        self.log_error = None;
        assert(record_views(self.records@) =~= Seq::<RecordView>::empty());
        assert(record_views(self.issues@) =~= Seq::<RecordView>::empty());
        self.record_marker("perf_trace.clear", "cleared", process, moment)
    }

    /// Switches the trace on and lets it log to a path, which is to get the line of
    /// every record there is. A build without the trace refuses.
    pub fn start_logging_default(&mut self, path: String) -> (lines: Result<Vec<String>, String>)
        ensures
            final(self)@ == old(self)@.called(TraceCall::StartLogging(path@)),
            match lines {
                Ok(lines) => old(self)@.compiled && crate::text::texts(lines@) == record_lines(
                    old(self)@.records,
                ),
                Err(error) => !old(self)@.compiled && error@
                    == "perf trace is inert for this build"@,
            },
    {
        if !self.compiled {
            return Err("perf trace is inert for this build".to_owned());
        }
        self.enabled = true;
        self.log_path = Some(path);
        self.log_error = None;
        Ok(self.all_lines())
    }

    /// Ends the start of logging, once the lines were written or failed to be: with
    /// a marker, or with the error.
    pub fn finish_start_logging(
        &mut self,
        written: Result<(), String>,
        process: Option<RecordedProcess>,
        moment: Moment,
    ) -> (line: Result<Option<String>, String>)
        ensures
            ({
                let entry = marker_entry("perf_trace.log"@, "started"@, process_view(process));
                match (written, line) {
                    (Err(error), Err(text)) => final(self)@ == old(self)@ && text@
                        == "failed to initialize perf trace log: "@ + error@,
                    (Ok(_), Ok(line)) => {
                        &&& final(self)@ == old(self)@.called(TraceCall::Record(entry, moment))
                        &&& optional_text(line) == if old(self)@.enabled {
                            old(self)@.logged(entry, moment)
                        } else {
                            None
                        }
                    },
                    _ => false,
                }
            }),
    {
        match written {
            Ok(_) => Ok(self.record_marker("perf_trace.log", "started", process, moment)),
            Err(error) => {
                let mut text = "failed to initialize perf trace log: ".to_owned();
                text.append(error.as_str());
                Err(text)
            },
        }
    }

    /// The lines of an export. A build without the trace refuses.
    pub fn export_jsonl_default(&self) -> (lines: Result<Vec<String>, String>)
        ensures
            match lines {
                Ok(lines) => self@.compiled && crate::text::texts(lines@) == record_lines(
                    self@.records,
                ),
                Err(error) => !self@.compiled && error@ == "perf trace is inert for this build"@,
            },
    {
        if !self.compiled {
            return Err("perf trace is inert for this build".to_owned());
        }
        Ok(self.all_lines())
    }

    /// The error of an export that could not be written.
    pub fn export_failure(error: &str) -> (text: String)
        ensures
            text@ == "failed to export perf trace log: "@ + error@,
    {
        let mut text = "failed to export perf trace log: ".to_owned();
        text.append(error);
        text
    }

    /// The records, oldest first.
    pub fn records(&self) -> (records: Vec<PerfTraceRecord>)
        ensures
            record_views(records@) == self@.records,
    {
        copy_records(&self.records)
    }

    /// The issues, oldest first.
    pub fn issues(&self) -> (issues: Vec<PerfTraceRecord>)
        ensures
            record_views(issues@) == self@.issues,
    {
        copy_records(&self.issues)
    }

    /// Records the end of the session, if the trace is on.
    pub fn end_session(&mut self, process: Option<RecordedProcess>, moment: Moment) -> (line: Option<
        String,
    >)
        ensures
            ({
                let entry = marker_entry("app.session"@, "exit"@, process_view(process));
                &&& final(self)@ == old(self)@.called(TraceCall::Record(entry, moment))
                &&& optional_text(line) == if old(self)@.enabled {
                    old(self)@.logged(entry, moment)
                } else {
                    None
                }
            }),
    {
        self.record_marker("app.session", "exit", process, moment)
    }

    /// The line of every record, oldest first.
    pub fn all_lines(&self) -> (lines: Vec<String>)
        ensures
            crate::text::texts(lines@) == record_lines(self@.records),
    {
        let mut lines: Vec<String> = Vec::new();
        let mut i: usize = 0;
        while i < self.records.len()
            invariant
                i <= self.records@.len(),
                lines@.len() == i,
                forall|k: int|
                    0 <= k < i ==> (#[trigger] lines@[k])@ == self.records@[k]@.json_line(),
            decreases self.records@.len() - i,
        {
            lines.push(self.records[i].to_json_line());
            i = i + 1;
        }
        assert(crate::text::texts(lines@) =~= record_lines(self@.records));
        lines
    }

    /// Ends logging, with a marker.
    pub fn stop_logging(&mut self, process: Option<RecordedProcess>, moment: Moment) -> (line: Option<
        String,
    >)
        ensures
            ({
                let entry = marker_entry("perf_trace.log"@, "stopped"@, process_view(process));
                &&& final(self)@ == old(self)@.called(
                    TraceCall::StopLogging(process_view(process), moment),
                )
                &&& optional_text(line) == if old(self)@.enabled {
                    old(self)@.logged(entry, moment)
                } else {
                    None
                }
            }),
    {
        if !self.enabled {
            return None;
        }
        let line = self.record_marker("perf_trace.log", "stopped", process, moment);
        self.log_path = None;
        line
    }

    /// Notes that a line could not be logged.
    pub fn note_log_error(&mut self, error: String)
        ensures
            final(self)@ == old(self)@.called(TraceCall::LogError(error@)),
    {
        self.log_error = Some(error);
    }
}

fn copy_records(records: &VecDeque<PerfTraceRecord>) -> (copy: Vec<PerfTraceRecord>)
    ensures
        record_views(copy@) == record_views(records@),
{
    let mut copy: Vec<PerfTraceRecord> = Vec::new();
    let mut i: usize = 0;
    while i < records.len()
        invariant
            i <= records@.len(),
            copy@.len() == i,
            forall|k: int| 0 <= k < i ==> (#[trigger] copy@[k])@ == records@[k]@,
        decreases records@.len() - i,
    {
        copy.push(records[i].duplicate());
        i = i + 1;
    }
    assert(record_views(copy@) =~= record_views(records@));
    copy
}

/// The lines of records.
pub open spec fn record_lines(records: Seq<RecordView>) -> Seq<Seq<char>> {
    records.map_values(|record: RecordView| record.json_line())
}

/// Where a trace logs.
pub open spec fn logging_text(path: Option<Seq<char>>) -> Seq<char> {
    match path {
        Some(path) => path,
        None => "not logging"@,
    }
}

/// What went wrong with logging.
pub open spec fn error_text(error: Option<Seq<char>>) -> Seq<char> {
    match error {
        Some(error) => ", log error: "@ + error,
        None => Seq::empty(),
    }
}

fn push_logging(text: &mut String, path: &Option<String>)
    ensures
        final(text)@ == old(text)@ + logging_text(optional_text(*path)),
{
    match path {
        Some(path) => text.append(path.as_str()),
        None => text.append("not logging"),
    }
}

fn push_log_error(text: &mut String, error: &Option<String>)
    ensures
        final(text)@ == old(text)@ + error_text(optional_text(*error)),
{
    match error {
        Some(error) => {
            let mut part = ", log error: ".to_owned();
            part.append(error.as_str());
            text.append(part.as_str());
        },
        None => {},
    }
    assert(text@ =~= old(text)@ + error_text(optional_text(*error)));
}

/// The name of the log of a session.
pub open spec fn session_log_name(session_id: Seq<char>) -> Seq<char> {
    "flutz-session-"@ + session_id + ".jsonl"@
}

pub fn default_log_name(session_id: &str) -> (name: String)
    ensures
        name@ == session_log_name(session_id@),
{
    let mut name = "flutz-session-".to_owned();
    name.append(session_id);
    name.append(".jsonl");
    name
}

/// The name of the latency log of a session.
pub open spec fn latency_log_name(session_id: Seq<char>) -> Seq<char> {
    "flutz-latency-"@ + session_id + ".jsonl"@
}

pub fn default_latency_log_name(session_id: &str) -> (name: String)
    ensures
        name@ == latency_log_name(session_id@),
{
    let mut name = "flutz-latency-".to_owned();
    name.append(session_id);
    name.append(".jsonl");
    name
}

proof fn lemma_recorded_is_ordered(view: TraceView, entry: Entry, moment: Moment)
    requires
        view.ordered(),
    ensures
        view.recorded(entry, moment).ordered(),
{
    let after = view.recorded(entry, moment);
    let record = view.record_of(entry, moment);
    let all = view.records.push(record);
    crate::bounded::bounded_log_keeps_the_newest(view.records, record, MAX_RECORDS as int);
    if after.sequence < u64::MAX {
        assert forall|i: int| 0 <= i < after.records.len() implies (
        #[trigger] after.records[i]).sequence == after.sequence - after.records.len() + 1 + i by {
            let k = i + all.len() - after.records.len();
            assert(after.records[i] == all[k]);
        }
    }
}

proof fn lemma_issue_is_ordered(view: TraceView, record: RecordView)
    requires
        view.ordered(),
        record.record_type == "issue"@,
    ensures
        (TraceView { issues: newest(view.issues.push(record), MAX_ISSUES as int), ..view }).ordered(),
{
    let all = view.issues.push(record);
    let kept = newest(all, MAX_ISSUES as int);
    crate::bounded::bounded_log_keeps_the_newest(view.issues, record, MAX_ISSUES as int);
    assert forall|i: int| 0 <= i < kept.len() implies (#[trigger] kept[i]).record_type
        == "issue"@ by {
        assert(kept[i] == all[i + all.len() - kept.len()]);
    }
}

proof fn lemma_sampled_is_ordered(
    view: TraceView,
    metrics: MetricsView,
    process: Option<ProcessView>,
    moment: Moment,
)
    requires
        view.ordered(),
    ensures
        PerfTrace::sampled(view, metrics, process, moment).0.ordered(),
{
    let after = PerfTrace::sampled(view, metrics, process, moment).0;
    let noted = TraceView {
        max_frame_gap_ms: 0,
        last_underrun_count: metrics.underruns(),
        last_queue_error_count: metrics.queue_errors(),
        ..view
    };
    let issue = PerfTrace::issue_of(view, metrics);
    let entry = PerfTrace::sample_entry(view, metrics, process);
    lemma_recorded_is_ordered(noted, entry, moment);
    let recorded = TraceView { last_sample_at: moment.now, ..noted.recorded(entry, moment) };
    assert(recorded.ordered());
    if issue is Some {
        lemma_issue_is_ordered(recorded, noted.record_of(entry, moment));
    }
}

/// What is asked of a trace.
pub ghost enum TraceCall {
    /// A frame of the user interface is noted.
    Frame(u128),
    /// Something is recorded: a marker, a diagnostic or the end of an operation.
    Record(Entry, Moment),
    /// Something is recorded under a new number of an operation.
    Operation(Entry, Moment),
    /// A sample is taken, if one is due.
    Sample(MetricsView, Option<ProcessView>, Moment),
    /// Everything is forgotten.
    Clear(Option<ProcessView>, Moment),
    /// Logging is started.
    StartLogging(Seq<char>),
    /// Logging is stopped.
    StopLogging(Option<ProcessView>, Moment),
    /// A line could not be logged.
    LogError(Seq<char>),
}

impl TraceView {
    /// The trace after a call.
    pub open spec fn called(self, call: TraceCall) -> TraceView {
        match call {
            TraceCall::LogError(error) => TraceView { log_error: Some(error), ..self },
            TraceCall::StartLogging(path) => if self.compiled {
                TraceView { enabled: true, log_path: Some(path), log_error: None, ..self }
            } else {
                self
            },
            TraceCall::Clear(process, moment) => {
                let empty = TraceView {
                    records: Seq::empty(),
                    issues: Seq::empty(),
                    log_error: None,
                    ..self
                };
                if self.enabled {
                    empty.recorded(marker_entry("perf_trace.clear"@, "cleared"@, process), moment)
                } else {
                    empty
                }
            },
            _ => if !self.enabled {
                self
            } else {
                match call {
                    TraceCall::Frame(now) => TraceView {
                        last_frame_at: now,
                        max_frame_gap_ms: max_of(
                            self.max_frame_gap_ms as int,
                            elapsed_ms(self.last_frame_at, now),
                        ) as u128,
                        ..self
                    },
                    TraceCall::Record(entry, moment) => self.recorded(entry, moment),
                    TraceCall::Operation(entry, moment) => (TraceView {
                        operation_sequence: u64_cap(self.operation_sequence + 1) as u64,
                        ..self
                    }).recorded(entry, moment),
                    TraceCall::Sample(metrics, process, moment) => if PerfTrace::sample_due(
                        self,
                        moment.now,
                    ) {
                        PerfTrace::sampled(self, metrics, process, moment).0
                    } else {
                        self
                    },
                    TraceCall::StopLogging(process, moment) => TraceView {
                        log_path: None,
                        ..self.recorded(
                            marker_entry("perf_trace.log"@, "stopped"@, process),
                            moment,
                        )
                    },
                    _ => self,
                }
            },
        }
    }

    /// The trace after calls, one after the other.
    pub open spec fn after(self, calls: Seq<TraceCall>) -> TraceView
        decreases calls.len(),
    {
        if calls.len() == 0 {
            self
        } else {
            self.after(calls.drop_last()).called(calls.last())
        }
    }
}

/// A call leaves a trace in order, and never lowers the number that was given last.
pub proof fn calls_keep_the_order(view: TraceView, call: TraceCall)
    requires
        view.ordered(),
    ensures
        view.called(call).ordered(),
        view.called(call).sequence >= view.sequence,
{
    match call {
        TraceCall::Record(entry, moment) => {
            lemma_recorded_is_ordered(view, entry, moment);
        },
        TraceCall::Operation(entry, moment) => {
            let numbered = TraceView {
                operation_sequence: u64_cap(view.operation_sequence + 1) as u64,
                ..view
            };
            lemma_recorded_is_ordered(numbered, entry, moment);
        },
        TraceCall::Sample(metrics, process, moment) => {
            lemma_sampled_is_ordered(view, metrics, process, moment);
        },
        TraceCall::Clear(process, moment) => {
            let empty = TraceView {
                records: Seq::empty(),
                issues: Seq::empty(),
                log_error: None,
                ..view
            };
            lemma_recorded_is_ordered(
                empty,
                marker_entry("perf_trace.clear"@, "cleared"@, process),
                moment,
            );
        },
        TraceCall::StopLogging(process, moment) => {
            let entry = marker_entry("perf_trace.log"@, "stopped"@, process);
            lemma_recorded_is_ordered(view, entry, moment);
        },
        _ => {},
    }
}

/// Whatever is asked of a trace, one call after the other, it holds at most 96 records and
/// 64 issues; while numbers are left the records are numbered one after the other and the
/// last has the number that was given last; every issue is one; and the numbering never
/// starts again.
pub proof fn traces_stay_in_order(
    compiled: bool,
    enabled: bool,
    session_id: Seq<char>,
    log_path: Option<Seq<char>>,
    now: u128,
    calls: Seq<TraceCall>,
)
    ensures
        ({
            let trace = PerfTrace::fresh(compiled, enabled, session_id, log_path, now).after(calls);
            &&& trace.records.len() <= 96
            &&& trace.issues.len() <= 64
            &&& forall|i: int|
                0 <= i < trace.issues.len() ==> (#[trigger] trace.issues[i]).record_type
                    == "issue"@
            &&& trace.sequence < u64::MAX ==> forall|i: int, j: int|
                0 <= i && j == i + 1 && j < trace.records.len() ==> (
                #[trigger] trace.records[j]).sequence == (#[trigger] trace.records[i]).sequence + 1
            &&& trace.sequence < u64::MAX && trace.records.len() > 0
                ==> trace.records.last().sequence == trace.sequence
            &&& calls.len() > 0 ==> PerfTrace::fresh(
                compiled,
                enabled,
                session_id,
                log_path,
                now,
            ).after(calls.drop_last()).sequence <= trace.sequence
            &&& trace.ordered()
        }),
    decreases calls.len(),
{
    let start = PerfTrace::fresh(compiled, enabled, session_id, log_path, now);
    if calls.len() > 0 {
        traces_stay_in_order(compiled, enabled, session_id, log_path, now, calls.drop_last());
        calls_keep_the_order(start.after(calls.drop_last()), calls.last());
    }
}

/// A sample that shows an issue is the newest record and the newest issue; one
/// that shows none leaves the issues alone.
pub proof fn issues_are_recorded_twice(
    view: TraceView,
    metrics: MetricsView,
    process: Option<ProcessView>,
    moment: Moment,
)
    ensures
        ({
            let after = PerfTrace::sampled(view, metrics, process, moment).0;
            if PerfTrace::issue_of(view, metrics) is Some {
                after.issues.len() > 0 && after.issues.last() == after.records.last()
            } else {
                after.issues == view.issues
            }
        }),
{
}

/// Sampling twice with the same counts and no stall shows no issue the second
/// time.
pub proof fn issues_are_reported_once(
    view: TraceView,
    metrics: MetricsView,
    process: Option<ProcessView>,
    moment: Moment,
)
    ensures
        PerfTrace::issue_of(
            PerfTrace::sampled(view, metrics, process, moment).0,
            metrics,
        ) is None,
{
}

/// However much is recorded, no more than the newest records are kept, and the
/// last one is the newest.
pub proof fn trace_keeps_the_newest_records(view: TraceView, entry: Entry, moment: Moment)
    ensures
        view.recorded(entry, moment).records.len() <= MAX_RECORDS,
        view.recorded(entry, moment).records.last() == view.record_of(entry, moment),
        view.recorded(entry, moment).sequence >= view.sequence,
        view.recorded(entry, moment).issues == view.issues,
{
    crate::bounded::bounded_log_keeps_the_newest(
        view.records,
        view.record_of(entry, moment),
        MAX_RECORDS as int,
    );
}

/// Right after a sample no other is due until the interval has passed.
pub proof fn samples_keep_their_interval(
    view: TraceView,
    metrics: MetricsView,
    process: Option<ProcessView>,
    moment: Moment,
    later: u128,
)
    requires
        moment.now <= later,
        later - moment.now < 2_000_000_000,
    ensures
        !PerfTrace::sample_due(
            PerfTrace::sampled(view, metrics, process, moment).0,
            later,
        ),
{
}

/// The latency trace.
#[derive(Debug)]
pub struct LatencyTrace {
    pub compiled: bool,
    pub enabled: bool,
    pub session_id: String,
    pub sequence: u64,
    pub started_at: u128,
    pub last_sample_at: u128,
    pub last_callback_count: u64,
    pub last_underrun_count: u64,
    pub last_queue_error_count: u64,
    pub last_target_frames: u32,
    pub last_reason: Option<FluxGuardDecisionReason>,
    pub log_path: Option<String>,
    pub log_error: Option<String>,
}

/// The contents of the latency trace.
pub ghost struct LatencyView {
    pub compiled: bool,
    pub enabled: bool,
    pub session_id: Seq<char>,
    pub sequence: u64,
    pub started_at: u128,
    pub last_sample_at: u128,
    pub last_callback_count: u64,
    pub last_underrun_count: u64,
    pub last_queue_error_count: u64,
    pub last_target_frames: u32,
    pub last_reason: Option<FluxGuardDecisionReason>,
    pub log_path: Option<Seq<char>>,
    pub log_error: Option<Seq<char>>,
}

impl View for LatencyTrace {
    type V = LatencyView;

    open spec fn view(&self) -> LatencyView {
        LatencyView {
            compiled: self.compiled,
            enabled: self.enabled,
            session_id: self.session_id@,
            sequence: self.sequence,
            started_at: self.started_at,
            last_sample_at: self.last_sample_at,
            last_callback_count: self.last_callback_count,
            last_underrun_count: self.last_underrun_count,
            last_queue_error_count: self.last_queue_error_count,
            last_target_frames: self.last_target_frames,
            last_reason: self.last_reason,
            log_path: optional_text(self.log_path),
            log_error: optional_text(self.log_error),
        }
    }
}

/// What a latency sample reacts to.
#[derive(Debug, Copy, Clone, PartialEq, Eq, Structural)]
pub enum LatencyEvent {
    Underrun,
    QueueError,
    TargetChange,
    ReasonChange,
    Sample,
}

impl LatencyEvent {
    pub open spec fn text(self) -> Seq<char> {
        match self {
            LatencyEvent::Underrun => "underrun"@,
            LatencyEvent::QueueError => "queue-error"@,
            LatencyEvent::TargetChange => "target-change"@,
            LatencyEvent::ReasonChange => "reason-change"@,
            LatencyEvent::Sample => "sample"@,
        }
    }

    pub fn name(self) -> (name: &'static str)
        ensures
            name@ == self.text(),
    {
        match self {
            LatencyEvent::Underrun => "underrun",
            LatencyEvent::QueueError => "queue-error",
            LatencyEvent::TargetChange => "target-change",
            LatencyEvent::ReasonChange => "reason-change",
            LatencyEvent::Sample => "sample",
        }
    }
}

/// The line of a marker.
pub open spec fn latency_marker(
    session_id: Seq<char>,
    sequence: u64,
    event: Seq<char>,
    wall_time_ms: u128,
    app_ms: int,
) -> Seq<char> {
    object_of(
        no_members()
            .push(("schema"@, quoted("flutz_latency_trace.v1"@)))
            .push(("session"@, quoted(session_id)))
            .push(("seq"@, decimal(sequence as nat)))
            .push(("event"@, quoted(event)))
            .push(("wall_ms"@, decimal(wall_time_ms as nat)))
            .push(("app_ms"@, decimal(app_ms as nat))),
    )
}

/// The line of an event, with the state of playback.
pub open spec fn latency_line(
    session_id: Seq<char>,
    sequence: u64,
    event: Seq<char>,
    wall_time_ms: u128,
    app_ms: int,
    metrics: PlaybackDebugMetrics,
) -> Seq<char> {
    let decision = metrics.flux_guard.decision;
    let members = no_members()
        .push(("schema"@, quoted("flutz_latency_trace.v1"@)))
        .push(("session"@, quoted(session_id)))
        .push(("seq"@, decimal(sequence as nat)))
        .push(("event"@, quoted(event)))
        .push(("wall_ms"@, decimal(wall_time_ms as nat)))
        .push(("app_ms"@, decimal(app_ms as nat)))
        .push(("backend"@, quoted(metrics.audio_backend.text())))
        .push(("sample_rate"@, decimal(metrics.sample_rate as nat)))
        .push(("latency_frames"@, decimal(metrics.meter_latency_frames as nat)))
        .push(("latency_ms"@, metrics.meter_latency_ms@))
        .push(("wrapper_queue_frames"@, decimal(metrics.meter_wrapper_queue_frames as nat)))
        .push(("device_queue_frames"@, decimal(metrics.meter_device_queue_frames as nat)))
        .push(("target_frames"@, decimal(decision.target.target_frames as nat)))
        .push(("low_water_frames"@, decimal(decision.target.low_water_frames as nat)))
        .push(("high_water_frames"@, decimal(decision.target.high_water_frames as nat)))
        .push(("buffered_frames"@, decimal(decision.state.current_buffered_frames as nat)))
        .push(("available_frames"@, decimal(decision.state.available_frames as nat)))
        .push(("largest_callback_frames"@, decimal(decision.state.largest_callback_frames as nat)))
        .push(("reason"@, quoted(decision.reason.name())))
        .push(("callbacks"@, decimal(metrics.callbacks() as nat)))
        .push((
            "frames_requested"@,
            decimal(
                match metrics.audio_diagnostics {
                    Some(audio) => audio.stats.frames_requested as nat,
                    None => 0,
                },
            ),
        ))
        .push((
            "frames_delivered"@,
            decimal(
                match metrics.audio_diagnostics {
                    Some(audio) => audio.stats.frames_delivered as nat,
                    None => 0,
                },
            ),
        ))
        .push(("underruns"@, decimal(metrics.underruns() as nat)))
        .push(("queue_errors"@, decimal(metrics.queue_errors() as nat)));
    object_of(
        match metrics.audio_diagnostics {
            Some(audio) => members
                .push(("ring_available_frames"@, decimal(audio.ring_available_frames as nat)))
                .push(("ring_capacity_frames"@, decimal(audio.ring_capacity_frames as nat))),
            None => members,
        },
    )
}

impl LatencyTrace {
    /// Starts a session. The trace is on if latency debugging is asked for, the
    /// build has the trace and the environment does not switch it off; it then
    /// logs to the given path or the default one, beginning with a launch marker.
    pub fn new(
        debug_latency: bool,
        compiled: bool,
        switched_off: bool,
        session_id: String,
        log_path: Option<String>,
        default_log_path: String,
        moment: Moment,
    ) -> (started: (LatencyTrace, Option<String>))
        ensures
            ({
                let enabled = compiled && debug_latency && !switched_off;
                let session = if compiled {
                    session_id@
                } else {
                    Seq::empty()
                };
                &&& started.0@ == (LatencyView {
                    compiled,
                    enabled,
                    session_id: session,
                    sequence: if enabled {
                        1
                    } else {
                        0
                    },
                    started_at: moment.now,
                    last_sample_at: moment.now,
                    last_callback_count: 0,
                    last_underrun_count: 0,
                    last_queue_error_count: 0,
                    last_target_frames: 0,
                    last_reason: None,
                    log_path: if !enabled {
                        None
                    } else {
                        match log_path {
                            Some(path) => Some(path@),
                            None => Some(default_log_path@),
                        }
                    },
                    log_error: None,
                })
                &&& optional_text(started.1) == if enabled {
                    Some(latency_marker(session, 1, "launch"@, moment.wall_time_ms, 0))
                } else {
                    None
                }
            }),
    {
        let enabled = compiled && debug_latency && !switched_off;
        let path = if !enabled {
            None
        } else {
            match log_path {
                Some(path) => Some(path),
                None => Some(default_log_path),
            }
        };
        let session = if compiled {
            session_id
        } else {
            String::new()
        };
        let mut trace = LatencyTrace {
            compiled,
            enabled,
            session_id: session,
            sequence: 0,
            started_at: moment.now,
            last_sample_at: moment.now,
            last_callback_count: 0,
            last_underrun_count: 0,
            last_queue_error_count: 0,
            last_target_frames: 0,
            last_reason: None,
            log_path: path,
            log_error: None,
        };
        if enabled {
            let line = trace.write_marker("launch", moment);
            return (trace, line);
        }
        (trace, None)
    }

    /// The state of the trace as one line.
    pub open spec fn status(view: LatencyView) -> Seq<char> {
        if !view.compiled {
            "latency trace inert for this build"@
        } else {
            "latency trace "@ + (if view.enabled {
                "on"@
            } else {
                "off"@
            }) + " ("@ + logging_text(view.log_path) + error_text(view.log_error) + ")"@
        }
    }

    pub fn status_line(&self) -> (text: String)
        ensures
            text@ == LatencyTrace::status(self@),
    {
        if !self.compiled {
            return "latency trace inert for this build".to_owned();
        }
        let mut text = "latency trace ".to_owned();
        if self.enabled {
            text.append("on");
        } else {
            text.append("off");
        }
        text.append(" (");
        push_logging(&mut text, &self.log_path);
        push_log_error(&mut text, &self.log_error);
        text.append(")");
        text
    }

    pub fn is_enabled(&self) -> (enabled: bool)
        ensures
            enabled == self@.enabled,
    {
        self.enabled
    }

    /// Whether the next periodic sample is due.
    pub open spec fn sample_due(view: LatencyView, now: u128) -> bool {
        elapsed_ms(view.last_sample_at, now) >= LATENCY_SAMPLE_INTERVAL_MS
    }

    pub fn is_periodic_sample_due(&self, now: u128) -> (due: bool)
        ensures
            due == (self@.enabled && LatencyTrace::sample_due(self@, now)),
    {
        self.enabled && milliseconds_between(self.last_sample_at, now)
            >= LATENCY_SAMPLE_INTERVAL_MS
    }

    /// The line of a marker, if the trace logs.
    pub fn write_marker(&mut self, event: &str, moment: Moment) -> (line: Option<String>)
        ensures
            match old(self)@.log_path {
                Some(_) => {
                    &&& final(self)@ == (LatencyView {
                        sequence: u64_cap(old(self)@.sequence + 1) as u64,
                        ..old(self)@
                    })
                    &&& optional_text(line) == Some(
                        latency_marker(
                            old(self)@.session_id,
                            final(self)@.sequence,
                            event@,
                            moment.wall_time_ms,
                            elapsed_ms(old(self)@.started_at, moment.now),
                        ),
                    )
                },
                None => final(self)@ == old(self)@ && line is None,
            },
    {
        if self.log_path.is_none() {
            return None;
        }
        self.sequence = self.sequence.saturating_add(1);
        let mut object = JsonObject::new();
        object.string("schema", "flutz_latency_trace.v1");
        object.string("session", self.session_id.as_str());
        object.number("seq", self.sequence as u128);
        object.string("event", event);
        object.number("wall_ms", moment.wall_time_ms);
        object.number("app_ms", milliseconds_between(self.started_at, moment.now));
        Some(object.finish())
    }

    fn write_metrics(&mut self, event: &str, metrics: &PlaybackDebugMetrics, moment: Moment) -> (line:
        Option<String>)
        ensures
            match old(self)@.log_path {
                Some(_) => {
                    &&& final(self)@ == (LatencyView {
                        sequence: u64_cap(old(self)@.sequence + 1) as u64,
                        ..old(self)@
                    })
                    &&& optional_text(line) == Some(
                        latency_line(
                            old(self)@.session_id,
                            final(self)@.sequence,
                            event@,
                            moment.wall_time_ms,
                            elapsed_ms(old(self)@.started_at, moment.now),
                            *metrics,
                        ),
                    )
                },
                None => final(self)@ == old(self)@ && line is None,
            },
    {
        if self.log_path.is_none() {
            return None;
        }
        self.sequence = self.sequence.saturating_add(1);
        let decision = metrics.flux_guard.decision;
        let (requested, delivered): (u64, u64) = match &metrics.audio_diagnostics {
            Some(audio) => (audio.stats.frames_requested, audio.stats.frames_delivered),
            None => (0, 0),
        };
        let mut object = JsonObject::new();
        object.string("schema", "flutz_latency_trace.v1");
        object.string("session", self.session_id.as_str());
        object.number("seq", self.sequence as u128);
        object.string("event", event);
        object.number("wall_ms", moment.wall_time_ms);
        object.number("app_ms", milliseconds_between(self.started_at, moment.now));
        object.string("backend", metrics.audio_backend.name());
        object.number("sample_rate", metrics.sample_rate as u128);
        object.number("latency_frames", metrics.meter_latency_frames as u128);
        object.raw("latency_ms", metrics.meter_latency_ms.as_str());
        object.number("wrapper_queue_frames", metrics.meter_wrapper_queue_frames as u128);
        object.number("device_queue_frames", metrics.meter_device_queue_frames as u128);
        object.number("target_frames", decision.target.target_frames as u128);
        object.number("low_water_frames", decision.target.low_water_frames as u128);
        object.number("high_water_frames", decision.target.high_water_frames as u128);
        object.number("buffered_frames", decision.state.current_buffered_frames as u128);
        object.number("available_frames", decision.state.available_frames as u128);
        object.number("largest_callback_frames", decision.state.largest_callback_frames as u128);
        object.string("reason", decision.reason.as_str());
        object.number("callbacks", metrics.callback_count() as u128);
        object.number("frames_requested", requested as u128);
        object.number("frames_delivered", delivered as u128);
        object.number("underruns", metrics.underrun_count() as u128);
        object.number("queue_errors", metrics.queue_error_count() as u128);
        match &metrics.audio_diagnostics {
            Some(audio) => {
                object.number("ring_available_frames", audio.ring_available_frames as u128);
                object.number("ring_capacity_frames", audio.ring_capacity_frames as u128);
            },
            None => {},
        }
        Some(object.finish())
    }

    /// What a sample reacts to: new underruns, else new queue errors, else another
    /// target, else another reason, else the passage of time while the output
    /// runs.
    pub open spec fn event_of(
        view: LatencyView,
        metrics: PlaybackDebugMetrics,
        now: u128,
    ) -> Option<LatencyEvent> {
        if metrics.underruns() > view.last_underrun_count {
            Some(LatencyEvent::Underrun)
        } else if metrics.queue_errors() > view.last_queue_error_count {
            Some(LatencyEvent::QueueError)
        } else if metrics.flux_guard.decision.target.target_frames != view.last_target_frames {
            Some(LatencyEvent::TargetChange)
        } else if view.last_reason != Some(metrics.flux_guard.decision.reason) {
            Some(LatencyEvent::ReasonChange)
        } else if metrics.callbacks() != view.last_callback_count && LatencyTrace::sample_due(
            view,
            now,
        ) {
            Some(LatencyEvent::Sample)
        } else {
            None
        }
    }

    /// Takes a sample if the trace is on, and logs it if it shows an event.
    pub fn sample_frame(&mut self, metrics: &PlaybackDebugMetrics, moment: Moment) -> (line: Option<
        String,
    >)
        ensures
            ({
                let event = LatencyTrace::event_of(old(self)@, *metrics, moment.now);
                let noted = LatencyView {
                    last_callback_count: metrics.callbacks(),
                    last_underrun_count: metrics.underruns(),
                    last_queue_error_count: metrics.queue_errors(),
                    last_target_frames: metrics.flux_guard.decision.target.target_frames,
                    last_reason: Some(metrics.flux_guard.decision.reason),
                    ..old(self)@
                };
                let logs = old(self)@.log_path is Some;
                let sequence = u64_cap(old(self)@.sequence + 1) as u64;
                if !old(self)@.enabled {
                    final(self)@ == old(self)@ && line is None
                } else {
                    match event {
                        None => final(self)@ == noted && line is None,
                        Some(event) => {
                            &&& final(self)@ == (LatencyView {
                                last_sample_at: moment.now,
                                sequence: if logs {
                                    sequence
                                } else {
                                    old(self)@.sequence
                                },
                                ..noted
                            })
                            &&& optional_text(line) == if logs {
                                Some(
                                    latency_line(
                                        old(self)@.session_id,
                                        sequence,
                                        event.text(),
                                        moment.wall_time_ms,
                                        elapsed_ms(old(self)@.started_at, moment.now),
                                        *metrics,
                                    ),
                                )
                            } else {
                                None
                            }
                        },
                    }
                }
            }),
    {
        if !self.enabled {
            return None;
        }
        let callback_count: u64 = metrics.callback_count();
        let underruns: u64 = metrics.underrun_count();
        let queue_errors: u64 = metrics.queue_error_count();
        let target_frames: u32 = metrics.flux_guard.decision.target.target_frames;
        let reason = metrics.flux_guard.decision.reason;
        let same_reason = match self.last_reason {
            Some(last) => last == reason,
            None => false,
        };
        let event = if underruns > self.last_underrun_count {
            Some(LatencyEvent::Underrun)
        } else if queue_errors > self.last_queue_error_count {
            Some(LatencyEvent::QueueError)
        } else if target_frames != self.last_target_frames {
            Some(LatencyEvent::TargetChange)
        } else if !same_reason {
            Some(LatencyEvent::ReasonChange)
        } else if callback_count != self.last_callback_count && milliseconds_between(
            self.last_sample_at,
            moment.now,
        ) >= LATENCY_SAMPLE_INTERVAL_MS {
            Some(LatencyEvent::Sample)
        } else {
            None
        };
        self.last_callback_count = callback_count;
        self.last_underrun_count = underruns;
        self.last_queue_error_count = queue_errors;
        self.last_target_frames = target_frames;
        self.last_reason = Some(reason);
        match event {
            Some(event) => {
                let line = self.write_metrics(event.name(), metrics, moment);
                self.last_sample_at = moment.now;
                line
            },
            None => None,
        }
    }

    /// Notes that a line could not be logged.
    pub fn note_log_error(&mut self, error: String)
        ensures
            final(self)@ == (LatencyView { log_error: Some(error@), ..old(self)@ }),
    {
        self.log_error = Some(error);
    }
}

/// A sample shows an issue exactly where the user interface stood still for 120 milliseconds,
/// or where underruns or queue errors of the output were added since the last sample.
pub proof fn issues_are_stalls_and_new_errors(view: TraceView, metrics: MetricsView)
    ensures
        PerfTrace::issue_of(view, metrics) is Some <==> view.max_frame_gap_ms >= 120 || (
        metrics.underrun_count is Some && metrics.underrun_count->Some_0
            > view.last_underrun_count) || (metrics.queue_error_count is Some
            && metrics.queue_error_count->Some_0 > view.last_queue_error_count),
{
}

/// A sample notes the counts that it saw and its time, is recorded with the longest gap
/// between frames since the last one, and starts that measure anew.
pub proof fn samples_note_what_they_saw(
    view: TraceView,
    metrics: MetricsView,
    process: Option<ProcessView>,
    moment: Moment,
)
    ensures
        ({
            let after = PerfTrace::sampled(view, metrics, process, moment).0;
            let record = after.records.last();
            &&& metrics.underrun_count is Some ==> after.last_underrun_count
                == metrics.underrun_count->Some_0
            &&& metrics.queue_error_count is Some ==> after.last_queue_error_count
                == metrics.queue_error_count->Some_0
            &&& after.last_sample_at == moment.now
            &&& after.max_frame_gap_ms == 0
            &&& after.records.len() > 0
            &&& record.frame_gap_ms == view.max_frame_gap_ms
            &&& record.metrics == Some(metrics)
            &&& record.process == process
            &&& record.wall_time_ms == moment.wall_time_ms
            &&& record.session_id == view.session_id
            &&& view.sequence < u64::MAX ==> record.sequence == view.sequence + 1
                && after.sequence == view.sequence + 1
            &&& moment.now >= view.started_at ==> record.app_time_ms * 1_000_000 <= moment.now
                - view.started_at < (record.app_time_ms + 1) * 1_000_000
            &&& record.record_type == (if PerfTrace::issue_of(view, metrics) is Some {
                "issue"@
            } else {
                "sample"@
            })
        }),
{
    let noted = TraceView {
        max_frame_gap_ms: 0,
        last_underrun_count: metrics.underruns(),
        last_queue_error_count: metrics.queue_errors(),
        ..view
    };
    let entry = PerfTrace::sample_entry(view, metrics, process);
    crate::bounded::bounded_log_keeps_the_newest(
        noted.records,
        noted.record_of(entry, moment),
        MAX_RECORDS as int,
    );
}

/// Between two samples the longest gap between frames is kept, in milliseconds; a trace that
/// is off notes nothing.
pub proof fn the_longest_gap_is_kept(view: TraceView, now: u128)
    requires
        view.last_frame_at <= now,
    ensures
        ({
            let after = view.called(TraceCall::Frame(now));
            let gap = (now - view.last_frame_at) / 1_000_000;
            &&& !view.enabled ==> after == view
            &&& view.enabled ==> {
                &&& after.last_frame_at == now
                &&& after.max_frame_gap_ms >= gap
                &&& after.max_frame_gap_ms >= view.max_frame_gap_ms
                &&& after.max_frame_gap_ms == gap || after.max_frame_gap_ms
                    == view.max_frame_gap_ms
                &&& after.records == view.records
                &&& after.sequence == view.sequence
            }
        }),
{
}

/// A sample is due once two seconds have passed since the last one.
pub proof fn samples_are_due_every_two_seconds(view: TraceView, now: u128)
    requires
        view.last_sample_at <= now,
    ensures
        PerfTrace::sample_due(view, now) <==> now - view.last_sample_at >= 2_000_000_000,
{
}

/// A sampler notes what it was told, and tells what was added since the sample before, which
/// is unknown for the first one.
pub proof fn samplers_tell_what_was_added(
    sampler: ProcessMetricSampler,
    raw: RawProcessResourceSnapshot,
    now: u128,
    after: ProcessMetricSampler,
    deltas: ProcessDeltas,
)
    requires
        sampler.takes(raw, now, after, deltas),
    ensures
        after.last_sample_at == now,
        after.last_cpu_time_ms == Some(raw.cpu_time_ms),
        after.last_read_bytes == Some(raw.read_bytes),
        after.last_write_bytes == Some(raw.write_bytes),
        after.last_page_fault_count == Some(raw.page_fault_count),
        sampler.last_sample_at <= now ==> deltas.elapsed_ms * 1_000_000 <= now
            - sampler.last_sample_at < (deltas.elapsed_ms + 1) * 1_000_000,
        sampler.last_cpu_time_ms is None ==> deltas.cpu_delta_ms is None,
        sampler.last_cpu_time_ms is Some && raw.cpu_time_ms >= sampler.last_cpu_time_ms->Some_0
            ==> deltas.cpu_delta_ms is Some && deltas.cpu_delta_ms->Some_0
            + sampler.last_cpu_time_ms->Some_0 == raw.cpu_time_ms,
        sampler.last_read_bytes is None <==> deltas.read_delta_bytes is None,
        sampler.last_read_bytes is Some && raw.read_bytes >= sampler.last_read_bytes->Some_0
            ==> deltas.read_delta_bytes->Some_0 + sampler.last_read_bytes->Some_0
            == raw.read_bytes,
        sampler.last_write_bytes is None <==> deltas.write_delta_bytes is None,
        sampler.last_write_bytes is Some && raw.write_bytes >= sampler.last_write_bytes->Some_0
            ==> deltas.write_delta_bytes->Some_0 + sampler.last_write_bytes->Some_0
            == raw.write_bytes,
        sampler.last_page_fault_count is None <==> deltas.page_fault_delta is None,
        sampler.last_page_fault_count is Some && raw.page_fault_count
            >= sampler.last_page_fault_count->Some_0 ==> deltas.page_fault_delta->Some_0
            + sampler.last_page_fault_count->Some_0 == raw.page_fault_count,
{
}

/// A thread counts for the process that owns it, and for no other.
pub proof fn threads_count_for_their_owner(owners: Seq<u32>, owner: u32, process: u32)
    ensures
        owned_threads(Seq::empty(), process) == 0,
        owned_threads(owners.push(owner), owner) == owned_threads(owners, owner) + 1,
        owner != process ==> owned_threads(owners.push(owner), process) == owned_threads(
            owners,
            process,
        ),
{
    assert(owners.push(owner).drop_last() =~= owners);
}

/// A scope is reported where anything happened in it, and left out where nothing did.
pub proof fn busy_scopes_are_reported(
    scopes: Seq<AllocationScopeSnapshot>,
    scope: AllocationScopeSnapshot,
)
    ensures
        scope.alloc_calls > 0 || scope.dealloc_calls > 0 || scope.realloc_calls > 0
            || scope.net_bytes != 0 ==> busy_scopes(scopes.push(scope)) == busy_scopes(
            scopes,
        ).push(scope_object(scope)),
        scope.alloc_calls == 0 && scope.dealloc_calls == 0 && scope.realloc_calls == 0
            && scope.net_bytes == 0 ==> busy_scopes(scopes.push(scope)) == busy_scopes(scopes),
{
    assert(scopes.push(scope).drop_last() =~= scopes);
}

/// The latency trace tells of an underrun first, then of a queue error, then of another
/// target, then of another reason; while nothing of this happens it samples every second, as
/// long as the output calls back.
pub proof fn latency_events_have_their_rank(
    view: LatencyView,
    metrics: PlaybackDebugMetrics,
    now: u128,
)
    requires
        view.last_sample_at <= now,
    ensures
        ({
            let event = LatencyTrace::event_of(view, metrics, now);
            let underrun = metrics.underruns() > view.last_underrun_count;
            let queue_error = metrics.queue_errors() > view.last_queue_error_count;
            let target = metrics.flux_guard.decision.target.target_frames;
            &&& underrun ==> event == Some(LatencyEvent::Underrun)
            &&& !underrun && queue_error ==> event == Some(LatencyEvent::QueueError)
            &&& !underrun && !queue_error && target != view.last_target_frames ==> event == Some(
                LatencyEvent::TargetChange,
            )
            &&& event == Some(LatencyEvent::ReasonChange) ==> view.last_reason != Some(
                metrics.flux_guard.decision.reason,
            ) && target == view.last_target_frames
            &&& event == Some(LatencyEvent::Sample) ==> now - view.last_sample_at
                >= 1_000_000_000 && metrics.callbacks() != view.last_callback_count
            &&& event is None ==> !underrun && !queue_error && target == view.last_target_frames
                && view.last_reason == Some(metrics.flux_guard.decision.reason) && (
            metrics.callbacks() == view.last_callback_count || now - view.last_sample_at
                < 1_000_000_000)
        }),
{
}

/// What is kept of a snapshot are its own numbers.
pub proof fn snapshots_are_kept_by_their_numbers(snapshot: PerfMetricSnapshot, peak: Seq<char>)
    ensures
        ({
            let kept = RecordedMetrics::of(snapshot, peak);
            &&& kept.transport_tick == snapshot.transport_tick
            &&& kept.output_peak == peak
            &&& kept.ring_available_frames == snapshot.ring_available_frames
            &&& kept.ring_capacity_frames == snapshot.ring_capacity_frames
            &&& kept.underrun_count == snapshot.underrun_count
            &&& kept.queue_error_count == snapshot.queue_error_count
            &&& kept.tracked_total_bytes == snapshot.component_memory.tracked_total_bytes
            &&& kept.active_bytes == snapshot.memory_runtime.totals.active_bytes
            &&& kept.resident_bytes == snapshot.memory_runtime.totals.resident_bytes
        }),
{
}

} // verus!
