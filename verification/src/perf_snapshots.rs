//! Snapshots for the performance trace, and their JSON.
use crate::json::{array_of, no_members, object_of, quoted, truth};
use crate::json::{JsonArray, JsonObject};
use crate::numbers::{u32_cap, u64_cap};
use crate::playback::churn::{RenderChurnDiagnostics, StemRenderAllocations};
use crate::playback::diagnostics::{ArcReferenceDiagnostics, AudioDeviceDiagnostics};
use crate::playback::diagnostics::{AudioRuntimeMemoryDiagnostics, MidiRuntimeMemoryDiagnostics};
use crate::playback::diagnostics::{PlaybackComponentMemoryDiagnostics, PlaybackMemoryDebug};
use crate::playback::diagnostics::{PlaybackLifecycleDiagnostics, PlaybackReferenceDiagnostics};
use crate::playback::diagnostics::{RustystemRuntimeDiagnostics, SoundFontMetadataDiagnostics};
use crate::text::decimal;
use vstd::prelude::*;

verus! {

/// The audio output: its buffers, what it wrote and its lifecycle.
#[derive(Debug, Copy, Clone, PartialEq, Eq, Structural)]
pub struct PerfAudioOutputSnapshot {
    pub ring_retained_bytes: usize,
    pub callback_scratch_bytes: usize,
    pub producer_render_block_bytes: u64,
    pub write_calls: u64,
    pub write_bytes: u64,
    pub last_callback_additional_bytes: u64,
    pub largest_callback_additional_bytes: u64,
    pub last_callback_total_bytes: u64,
    pub largest_callback_total_bytes: u64,
    pub init_calls: u64,
    pub quit_calls: u64,
    pub stream_opens: u64,
    pub stream_destroys: u64,
    pub stream_resumes: u64,
    pub stream_pauses: u64,
    pub callback_states_created: u64,
    pub callback_states_dropped: u64,
    pub producer_threads_started: u64,
    pub producer_threads_finished: u64,
    pub stream_id: u64,
    pub shared_strong_count: usize,
    pub shared_weak_count: usize,
    pub callback_shared_strong_count: usize,
    pub callback_shared_weak_count: usize,
}

impl PerfAudioOutputSnapshot {
    /// The JSON of the snapshot.
    pub open spec fn json(&self) -> Seq<char> {
        object_of(
            no_members()
                .push(("ring_retained_bytes"@, decimal(self.ring_retained_bytes as nat)))
                .push(("callback_scratch_bytes"@, decimal(self.callback_scratch_bytes as nat)))
                .push(("producer_render_block_bytes"@, decimal(self.producer_render_block_bytes as nat)))
                .push(("write_calls"@, decimal(self.write_calls as nat)))
                .push(("write_bytes"@, decimal(self.write_bytes as nat)))
                .push(("last_callback_additional_bytes"@, decimal(self.last_callback_additional_bytes as nat)))
                .push(("largest_callback_additional_bytes"@, decimal(self.largest_callback_additional_bytes as nat)))
                .push(("last_callback_total_bytes"@, decimal(self.last_callback_total_bytes as nat)))
                .push(("largest_callback_total_bytes"@, decimal(self.largest_callback_total_bytes as nat)))
                .push(("init_calls"@, decimal(self.init_calls as nat)))
                .push(("quit_calls"@, decimal(self.quit_calls as nat)))
                .push(("stream_opens"@, decimal(self.stream_opens as nat)))
                .push(("stream_destroys"@, decimal(self.stream_destroys as nat)))
                .push(("stream_resumes"@, decimal(self.stream_resumes as nat)))
                .push(("stream_pauses"@, decimal(self.stream_pauses as nat)))
                .push(("callback_states_created"@, decimal(self.callback_states_created as nat)))
                .push(("callback_states_dropped"@, decimal(self.callback_states_dropped as nat)))
                .push(("producer_threads_started"@, decimal(self.producer_threads_started as nat)))
                .push(("producer_threads_finished"@, decimal(self.producer_threads_finished as nat)))
                .push(("stream_id"@, decimal(self.stream_id as nat)))
                .push(("shared_strong_count"@, decimal(self.shared_strong_count as nat)))
                .push(("shared_weak_count"@, decimal(self.shared_weak_count as nat)))
                .push(("callback_shared_strong_count"@, decimal(self.callback_shared_strong_count as nat)))
                .push(("callback_shared_weak_count"@, decimal(self.callback_shared_weak_count as nat))),
        )
    }

    pub fn to_json(&self) -> (text: String)
        ensures
            text@ == self.json(),
    {
        let mut object = JsonObject::new();
        object.number("ring_retained_bytes", self.ring_retained_bytes as u128);
        object.number("callback_scratch_bytes", self.callback_scratch_bytes as u128);
        object.number("producer_render_block_bytes", self.producer_render_block_bytes as u128);
        object.number("write_calls", self.write_calls as u128);
        object.number("write_bytes", self.write_bytes as u128);
        object.number("last_callback_additional_bytes", self.last_callback_additional_bytes as u128);
        object.number("largest_callback_additional_bytes", self.largest_callback_additional_bytes as u128);
        object.number("last_callback_total_bytes", self.last_callback_total_bytes as u128);
        object.number("largest_callback_total_bytes", self.largest_callback_total_bytes as u128);
        object.number("init_calls", self.init_calls as u128);
        object.number("quit_calls", self.quit_calls as u128);
        object.number("stream_opens", self.stream_opens as u128);
        object.number("stream_destroys", self.stream_destroys as u128);
        object.number("stream_resumes", self.stream_resumes as u128);
        object.number("stream_pauses", self.stream_pauses as u128);
        object.number("callback_states_created", self.callback_states_created as u128);
        object.number("callback_states_dropped", self.callback_states_dropped as u128);
        object.number("producer_threads_started", self.producer_threads_started as u128);
        object.number("producer_threads_finished", self.producer_threads_finished as u128);
        object.number("stream_id", self.stream_id as u128);
        object.number("shared_strong_count", self.shared_strong_count as u128);
        object.number("shared_weak_count", self.shared_weak_count as u128);
        object.number("callback_shared_strong_count", self.callback_shared_strong_count as u128);
        object.number("callback_shared_weak_count", self.callback_shared_weak_count as u128);
        object.finish()
    }
}

/// How often a shared part is referenced.
#[derive(Debug, Copy, Clone, PartialEq, Eq, Structural)]
pub struct PerfArcReferenceSnapshot {
    pub strong_count: usize,
    pub weak_count: usize,
    pub expected_strong_roots: usize,
    pub excess_strong_count: usize,
}

impl PerfArcReferenceSnapshot {
    /// The JSON of the snapshot.
    pub open spec fn json(&self) -> Seq<char> {
        object_of(
            no_members()
                .push(("strong"@, decimal(self.strong_count as nat)))
                .push(("weak"@, decimal(self.weak_count as nat)))
                .push(("expected_strong"@, decimal(self.expected_strong_roots as nat)))
                .push(("excess_strong"@, decimal(self.excess_strong_count as nat))),
        )
    }

    pub fn to_json(&self) -> (text: String)
        ensures
            text@ == self.json(),
    {
        let mut object = JsonObject::new();
        object.number("strong", self.strong_count as u128);
        object.number("weak", self.weak_count as u128);
        object.number("expected_strong", self.expected_strong_roots as u128);
        object.number("excess_strong", self.excess_strong_count as u128);
        object.finish()
    }
}

/// The memory of the soundfont catalog.
#[derive(Debug, Copy, Clone, PartialEq, Eq, Structural)]
pub struct PerfSoundFontMetadataMemorySnapshot {
    pub catalog_entries: usize,
    pub catalog_estimated_bytes: usize,
    pub loaded_soundfont_ids: usize,
    pub loaded_soundfont_id_bytes: usize,
    pub loaded_coverage_entries: usize,
    pub loaded_coverage_estimated_bytes: usize,
    pub estimated_bytes: usize,
}

impl PerfSoundFontMetadataMemorySnapshot {
    /// The JSON of the snapshot.
    pub open spec fn json(&self) -> Seq<char> {
        object_of(
            no_members()
                .push(("catalog_entries"@, decimal(self.catalog_entries as nat)))
                .push(("catalog_estimated_bytes"@, decimal(self.catalog_estimated_bytes as nat)))
                .push(("loaded_soundfont_ids"@, decimal(self.loaded_soundfont_ids as nat)))
                .push(("loaded_soundfont_id_bytes"@, decimal(self.loaded_soundfont_id_bytes as nat)))
                .push(("loaded_coverage_entries"@, decimal(self.loaded_coverage_entries as nat)))
                .push(("loaded_coverage_estimated_bytes"@, decimal(self.loaded_coverage_estimated_bytes as nat)))
                .push(("estimated_bytes"@, decimal(self.estimated_bytes as nat))),
        )
    }

    pub fn to_json(&self) -> (text: String)
        ensures
            text@ == self.json(),
    {
        let mut object = JsonObject::new();
        object.number("catalog_entries", self.catalog_entries as u128);
        object.number("catalog_estimated_bytes", self.catalog_estimated_bytes as u128);
        object.number("loaded_soundfont_ids", self.loaded_soundfont_ids as u128);
        object.number("loaded_soundfont_id_bytes", self.loaded_soundfont_id_bytes as u128);
        object.number("loaded_coverage_entries", self.loaded_coverage_entries as u128);
        object.number("loaded_coverage_estimated_bytes", self.loaded_coverage_estimated_bytes as u128);
        object.number("estimated_bytes", self.estimated_bytes as u128);
        object.finish()
    }
}

/// The memory of the loaded MIDI file.
#[derive(Debug, Copy, Clone, PartialEq, Eq, Structural)]
pub struct PerfMidiMemorySnapshot {
    pub raw_bytes: usize,
    pub raw_capacity_bytes: usize,
    pub strip_count: usize,
    pub strip_capacity: usize,
    pub strip_bytes: usize,
    pub jump_point_count: usize,
    pub jump_point_bytes: usize,
    pub parsed_message_count: usize,
    pub parsed_sysex_events: usize,
    pub parsed_sysex_bytes: usize,
    pub parsed_estimated_bytes: usize,
    pub estimated_bytes: usize,
}

impl PerfMidiMemorySnapshot {
    /// The JSON of the snapshot.
    pub open spec fn json(&self) -> Seq<char> {
        object_of(
            no_members()
                .push(("raw_bytes"@, decimal(self.raw_bytes as nat)))
                .push(("raw_capacity_bytes"@, decimal(self.raw_capacity_bytes as nat)))
                .push(("strip_count"@, decimal(self.strip_count as nat)))
                .push(("strip_capacity"@, decimal(self.strip_capacity as nat)))
                .push(("strip_bytes"@, decimal(self.strip_bytes as nat)))
                .push(("jump_point_count"@, decimal(self.jump_point_count as nat)))
                .push(("jump_point_bytes"@, decimal(self.jump_point_bytes as nat)))
                .push(("parsed_message_count"@, decimal(self.parsed_message_count as nat)))
                .push(("parsed_sysex_events"@, decimal(self.parsed_sysex_events as nat)))
                .push(("parsed_sysex_bytes"@, decimal(self.parsed_sysex_bytes as nat)))
                .push(("parsed_estimated_bytes"@, decimal(self.parsed_estimated_bytes as nat)))
                .push(("estimated_bytes"@, decimal(self.estimated_bytes as nat))),
        )
    }

    pub fn to_json(&self) -> (text: String)
        ensures
            text@ == self.json(),
    {
        let mut object = JsonObject::new();
        object.number("raw_bytes", self.raw_bytes as u128);
        object.number("raw_capacity_bytes", self.raw_capacity_bytes as u128);
        object.number("strip_count", self.strip_count as u128);
        object.number("strip_capacity", self.strip_capacity as u128);
        object.number("strip_bytes", self.strip_bytes as u128);
        object.number("jump_point_count", self.jump_point_count as u128);
        object.number("jump_point_bytes", self.jump_point_bytes as u128);
        object.number("parsed_message_count", self.parsed_message_count as u128);
        object.number("parsed_sysex_events", self.parsed_sysex_events as u128);
        object.number("parsed_sysex_bytes", self.parsed_sysex_bytes as u128);
        object.number("parsed_estimated_bytes", self.parsed_estimated_bytes as u128);
        object.number("estimated_bytes", self.estimated_bytes as u128);
        object.finish()
    }
}

/// The memory of the synthesizer.
#[derive(Debug, Copy, Clone, PartialEq, Eq, Structural)]
pub struct PerfRustystemMemorySnapshot {
    pub instance_count: usize,
    pub soundfont_wave_bytes: usize,
    pub voice_buffer_bytes: usize,
    pub block_buffer_bytes: usize,
    pub effects_bytes: usize,
    pub preset_lookup_bytes: usize,
    pub channel_bytes: usize,
    pub stem_effect_map_bytes: usize,
    pub block_stem_vec_bytes: usize,
    pub estimated_bytes: usize,
}

impl PerfRustystemMemorySnapshot {
    /// The JSON of the snapshot.
    pub open spec fn json(&self) -> Seq<char> {
        object_of(
            no_members()
                .push(("instance_count"@, decimal(self.instance_count as nat)))
                .push(("soundfont_wave_bytes"@, decimal(self.soundfont_wave_bytes as nat)))
                .push(("voice_buffer_bytes"@, decimal(self.voice_buffer_bytes as nat)))
                .push(("block_buffer_bytes"@, decimal(self.block_buffer_bytes as nat)))
                .push(("effects_bytes"@, decimal(self.effects_bytes as nat)))
                .push(("preset_lookup_bytes"@, decimal(self.preset_lookup_bytes as nat)))
                .push(("channel_bytes"@, decimal(self.channel_bytes as nat)))
                .push(("stem_effect_map_bytes"@, decimal(self.stem_effect_map_bytes as nat)))
                .push(("block_stem_vec_bytes"@, decimal(self.block_stem_vec_bytes as nat)))
                .push(("estimated_bytes"@, decimal(self.estimated_bytes as nat))),
        )
    }

    pub fn to_json(&self) -> (text: String)
        ensures
            text@ == self.json(),
    {
        let mut object = JsonObject::new();
        object.number("instance_count", self.instance_count as u128);
        object.number("soundfont_wave_bytes", self.soundfont_wave_bytes as u128);
        object.number("voice_buffer_bytes", self.voice_buffer_bytes as u128);
        object.number("block_buffer_bytes", self.block_buffer_bytes as u128);
        object.number("effects_bytes", self.effects_bytes as u128);
        object.number("preset_lookup_bytes", self.preset_lookup_bytes as u128);
        object.number("channel_bytes", self.channel_bytes as u128);
        object.number("stem_effect_map_bytes", self.stem_effect_map_bytes as u128);
        object.number("block_stem_vec_bytes", self.block_stem_vec_bytes as u128);
        object.number("estimated_bytes", self.estimated_bytes as u128);
        object.finish()
    }
}

/// The memory of the audio output.
#[derive(Debug, Copy, Clone, PartialEq, Eq, Structural)]
pub struct PerfAudioMemorySnapshot {
    pub stream_open: bool,
    pub ring_retained_bytes: usize,
    pub callback_scratch_bytes: usize,
    pub producer_render_block_bytes: u64,
    pub estimated_bytes: usize,
}

impl PerfAudioMemorySnapshot {
    /// The JSON of the snapshot.
    pub open spec fn json(&self) -> Seq<char> {
        object_of(
            no_members()
                .push(("stream_open"@, truth(self.stream_open)))
                .push(("ring_retained_bytes"@, decimal(self.ring_retained_bytes as nat)))
                .push(("callback_scratch_bytes"@, decimal(self.callback_scratch_bytes as nat)))
                .push(("producer_render_block_bytes"@, decimal(self.producer_render_block_bytes as nat)))
                .push(("estimated_bytes"@, decimal(self.estimated_bytes as nat))),
        )
    }

    pub fn to_json(&self) -> (text: String)
        ensures
            text@ == self.json(),
    {
        let mut object = JsonObject::new();
        object.boolean("stream_open", self.stream_open);
        object.number("ring_retained_bytes", self.ring_retained_bytes as u128);
        object.number("callback_scratch_bytes", self.callback_scratch_bytes as u128);
        object.number("producer_render_block_bytes", self.producer_render_block_bytes as u128);
        object.number("estimated_bytes", self.estimated_bytes as u128);
        object.finish()
    }
}

/// What engine replacements released.
#[derive(Debug, Copy, Clone, PartialEq, Eq, Structural)]
pub struct PerfLifecycleSnapshot {
    pub engine_replacements: u64,
    pub cumulative_replaced_engine_estimated_bytes: u64,
    pub last_replaced_engine_estimated_bytes: usize,
    pub last_replaced_engine_instances: usize,
    pub last_replaced_stem_effects: usize,
    pub last_replaced_stem_effect_bytes: usize,
}

impl PerfLifecycleSnapshot {
    /// The JSON of the snapshot.
    pub open spec fn json(&self) -> Seq<char> {
        object_of(
            no_members()
                .push(("engine_replacements"@, decimal(self.engine_replacements as nat)))
                .push(("cumulative_replaced_engine_estimated_bytes"@, decimal(self.cumulative_replaced_engine_estimated_bytes as nat)))
                .push(("last_replaced_engine_estimated_bytes"@, decimal(self.last_replaced_engine_estimated_bytes as nat)))
                .push(("last_replaced_engine_instances"@, decimal(self.last_replaced_engine_instances as nat)))
                .push(("last_replaced_stem_effects"@, decimal(self.last_replaced_stem_effects as nat)))
                .push(("last_replaced_stem_effect_bytes"@, decimal(self.last_replaced_stem_effect_bytes as nat))),
        )
    }

    pub fn to_json(&self) -> (text: String)
        ensures
            text@ == self.json(),
    {
        let mut object = JsonObject::new();
        object.number("engine_replacements", self.engine_replacements as u128);
        object.number("cumulative_replaced_engine_estimated_bytes", self.cumulative_replaced_engine_estimated_bytes as u128);
        object.number("last_replaced_engine_estimated_bytes", self.last_replaced_engine_estimated_bytes as u128);
        object.number("last_replaced_engine_instances", self.last_replaced_engine_instances as u128);
        object.number("last_replaced_stem_effects", self.last_replaced_stem_effects as u128);
        object.number("last_replaced_stem_effect_bytes", self.last_replaced_stem_effect_bytes as u128);
        object.finish()
    }
}

/// The churn of the renderer.
#[derive(Debug, Copy, Clone, PartialEq, Eq, Structural)]
pub struct PerfRenderChurnSnapshot {
    pub render_calls: u64,
    pub cumulative_allocation_events: u64,
    pub cumulative_deallocation_events: u64,
    pub cumulative_transient_alloc_bytes: u64,
    pub cumulative_transient_dealloc_bytes: u64,
    pub cumulative_transient_growth_bytes: u64,
    pub cumulative_retained_capacity_growth_bytes: u64,
    pub cumulative_temp_container_alloc_bytes: u64,
    pub max_transient_alloc_bytes: usize,
    pub max_transient_growth_bytes: usize,
    pub max_retained_capacity_growth_bytes: usize,
    pub max_temp_container_alloc_bytes: usize,
    pub last_allocation_events: usize,
    pub last_deallocation_events: usize,
    pub last_frames: usize,
    pub last_rendered_blocks: usize,
    pub last_routed_blocks: usize,
    pub last_mixer_inputs: usize,
    pub last_zero_fill_blocks: usize,
    pub last_visual_strips: usize,
    pub last_stem_audio_bytes: usize,
    pub last_stem_output_blocks: usize,
    pub last_stem_output_audio_bytes: usize,
    pub last_stem_output_active_note_bytes: usize,
    pub last_stem_output_vec_bytes: usize,
    pub last_stem_internal_blocks: usize,
    pub last_stem_internal_audio_bytes: usize,
    pub last_stem_internal_active_note_bytes: usize,
    pub last_stem_internal_vec_bytes: usize,
    pub last_stem_residual_buffer_bytes: usize,
    pub last_stem_effect_input_bytes: usize,
    pub last_stem_effect_input_vec_bytes: usize,
    pub last_stem_output_growth_bytes: usize,
    pub last_stem_internal_growth_bytes: usize,
    pub last_stem_residual_growth_bytes: usize,
    pub last_stem_effect_input_growth_bytes: usize,
    pub last_stem_playback_growth_bytes: usize,
    pub last_stem_total_growth_bytes: usize,
    pub last_stem_tracked_alloc_bytes: usize,
    pub last_stem_untracked_alloc_bytes: usize,
    pub last_zero_fill_audio_bytes: usize,
    pub last_mixer_frame_bytes: usize,
    pub last_mixer_internal_alloc_bytes: usize,
    pub last_mixer_internal_dealloc_bytes: usize,
    pub last_mixer_scratch_growth_bytes: usize,
    pub last_mixer_output_bytes: usize,
    pub last_mixer_prepared_frame_bytes: usize,
    pub last_mixer_report_bytes: usize,
    pub last_vec_overhead_bytes: usize,
    pub last_retained_container_capacity_bytes: usize,
    pub last_temp_container_alloc_bytes: usize,
    pub last_retained_capacity_growth_bytes: usize,
    pub last_transient_alloc_bytes: usize,
    pub last_transient_dealloc_bytes: usize,
    pub last_transient_growth_bytes: usize,
}

impl PerfRenderChurnSnapshot {
    /// The JSON of the snapshot.
    pub open spec fn json(&self) -> Seq<char> {
        object_of(
            no_members()
                .push(("render_calls"@, decimal(self.render_calls as nat)))
                .push(("cumulative_allocation_events"@, decimal(self.cumulative_allocation_events as nat)))
                .push(("cumulative_deallocation_events"@, decimal(self.cumulative_deallocation_events as nat)))
                .push(("cumulative_transient_alloc_bytes"@, decimal(self.cumulative_transient_alloc_bytes as nat)))
                .push(("cumulative_transient_dealloc_bytes"@, decimal(self.cumulative_transient_dealloc_bytes as nat)))
                .push(("cumulative_transient_growth_bytes"@, decimal(self.cumulative_transient_growth_bytes as nat)))
                .push(("cumulative_retained_capacity_growth_bytes"@, decimal(self.cumulative_retained_capacity_growth_bytes as nat)))
                .push(("cumulative_temp_container_alloc_bytes"@, decimal(self.cumulative_temp_container_alloc_bytes as nat)))
                .push(("max_transient_alloc_bytes"@, decimal(self.max_transient_alloc_bytes as nat)))
                .push(("max_transient_growth_bytes"@, decimal(self.max_transient_growth_bytes as nat)))
                .push(("max_retained_capacity_growth_bytes"@, decimal(self.max_retained_capacity_growth_bytes as nat)))
                .push(("max_temp_container_alloc_bytes"@, decimal(self.max_temp_container_alloc_bytes as nat)))
                .push(("last_allocation_events"@, decimal(self.last_allocation_events as nat)))
                .push(("last_deallocation_events"@, decimal(self.last_deallocation_events as nat)))
                .push(("last_frames"@, decimal(self.last_frames as nat)))
                .push(("last_rendered_blocks"@, decimal(self.last_rendered_blocks as nat)))
                .push(("last_routed_blocks"@, decimal(self.last_routed_blocks as nat)))
                .push(("last_mixer_inputs"@, decimal(self.last_mixer_inputs as nat)))
                .push(("last_zero_fill_blocks"@, decimal(self.last_zero_fill_blocks as nat)))
                .push(("last_visual_strips"@, decimal(self.last_visual_strips as nat)))
                .push(("last_stem_audio_bytes"@, decimal(self.last_stem_audio_bytes as nat)))
                .push(("last_stem_output_blocks"@, decimal(self.last_stem_output_blocks as nat)))
                .push(("last_stem_output_audio_bytes"@, decimal(self.last_stem_output_audio_bytes as nat)))
                .push(("last_stem_output_active_note_bytes"@, decimal(self.last_stem_output_active_note_bytes as nat)))
                .push(("last_stem_output_vec_bytes"@, decimal(self.last_stem_output_vec_bytes as nat)))
                .push(("last_stem_internal_blocks"@, decimal(self.last_stem_internal_blocks as nat)))
                .push(("last_stem_internal_audio_bytes"@, decimal(self.last_stem_internal_audio_bytes as nat)))
                .push(("last_stem_internal_active_note_bytes"@, decimal(self.last_stem_internal_active_note_bytes as nat)))
                .push(("last_stem_internal_vec_bytes"@, decimal(self.last_stem_internal_vec_bytes as nat)))
                .push(("last_stem_residual_buffer_bytes"@, decimal(self.last_stem_residual_buffer_bytes as nat)))
                .push(("last_stem_effect_input_bytes"@, decimal(self.last_stem_effect_input_bytes as nat)))
                .push(("last_stem_effect_input_vec_bytes"@, decimal(self.last_stem_effect_input_vec_bytes as nat)))
                .push(("last_stem_output_growth_bytes"@, decimal(self.last_stem_output_growth_bytes as nat)))
                .push(("last_stem_internal_growth_bytes"@, decimal(self.last_stem_internal_growth_bytes as nat)))
                .push(("last_stem_residual_growth_bytes"@, decimal(self.last_stem_residual_growth_bytes as nat)))
                .push(("last_stem_effect_input_growth_bytes"@, decimal(self.last_stem_effect_input_growth_bytes as nat)))
                .push(("last_stem_playback_growth_bytes"@, decimal(self.last_stem_playback_growth_bytes as nat)))
                .push(("last_stem_total_growth_bytes"@, decimal(self.last_stem_total_growth_bytes as nat)))
                .push(("last_stem_tracked_alloc_bytes"@, decimal(self.last_stem_tracked_alloc_bytes as nat)))
                .push(("last_stem_untracked_alloc_bytes"@, decimal(self.last_stem_untracked_alloc_bytes as nat)))
                .push(("last_zero_fill_audio_bytes"@, decimal(self.last_zero_fill_audio_bytes as nat)))
                .push(("last_mixer_frame_bytes"@, decimal(self.last_mixer_frame_bytes as nat)))
                .push(("last_mixer_internal_alloc_bytes"@, decimal(self.last_mixer_internal_alloc_bytes as nat)))
                .push(("last_mixer_internal_dealloc_bytes"@, decimal(self.last_mixer_internal_dealloc_bytes as nat)))
                .push(("last_mixer_scratch_growth_bytes"@, decimal(self.last_mixer_scratch_growth_bytes as nat)))
                .push(("last_mixer_output_bytes"@, decimal(self.last_mixer_output_bytes as nat)))
                .push(("last_mixer_prepared_frame_bytes"@, decimal(self.last_mixer_prepared_frame_bytes as nat)))
                .push(("last_mixer_report_bytes"@, decimal(self.last_mixer_report_bytes as nat)))
                .push(("last_vec_overhead_bytes"@, decimal(self.last_vec_overhead_bytes as nat)))
                .push(("last_retained_container_capacity_bytes"@, decimal(self.last_retained_container_capacity_bytes as nat)))
                .push(("last_temp_container_alloc_bytes"@, decimal(self.last_temp_container_alloc_bytes as nat)))
                .push(("last_retained_capacity_growth_bytes"@, decimal(self.last_retained_capacity_growth_bytes as nat)))
                .push(("last_transient_alloc_bytes"@, decimal(self.last_transient_alloc_bytes as nat)))
                .push(("last_transient_dealloc_bytes"@, decimal(self.last_transient_dealloc_bytes as nat)))
                .push(("last_transient_growth_bytes"@, decimal(self.last_transient_growth_bytes as nat))),
        )
    }

    pub fn to_json(&self) -> (text: String)
        ensures
            text@ == self.json(),
    {
        let mut object = JsonObject::new();
        object.number("render_calls", self.render_calls as u128);
        object.number("cumulative_allocation_events", self.cumulative_allocation_events as u128);
        object.number("cumulative_deallocation_events", self.cumulative_deallocation_events as u128);
        object.number("cumulative_transient_alloc_bytes", self.cumulative_transient_alloc_bytes as u128);
        object.number("cumulative_transient_dealloc_bytes", self.cumulative_transient_dealloc_bytes as u128);
        object.number("cumulative_transient_growth_bytes", self.cumulative_transient_growth_bytes as u128);
        object.number("cumulative_retained_capacity_growth_bytes", self.cumulative_retained_capacity_growth_bytes as u128);
        object.number("cumulative_temp_container_alloc_bytes", self.cumulative_temp_container_alloc_bytes as u128);
        object.number("max_transient_alloc_bytes", self.max_transient_alloc_bytes as u128);
        object.number("max_transient_growth_bytes", self.max_transient_growth_bytes as u128);
        object.number("max_retained_capacity_growth_bytes", self.max_retained_capacity_growth_bytes as u128);
        object.number("max_temp_container_alloc_bytes", self.max_temp_container_alloc_bytes as u128);
        object.number("last_allocation_events", self.last_allocation_events as u128);
        object.number("last_deallocation_events", self.last_deallocation_events as u128);
        object.number("last_frames", self.last_frames as u128);
        object.number("last_rendered_blocks", self.last_rendered_blocks as u128);
        object.number("last_routed_blocks", self.last_routed_blocks as u128);
        object.number("last_mixer_inputs", self.last_mixer_inputs as u128);
        object.number("last_zero_fill_blocks", self.last_zero_fill_blocks as u128);
        object.number("last_visual_strips", self.last_visual_strips as u128);
        object.number("last_stem_audio_bytes", self.last_stem_audio_bytes as u128);
        object.number("last_stem_output_blocks", self.last_stem_output_blocks as u128);
        object.number("last_stem_output_audio_bytes", self.last_stem_output_audio_bytes as u128);
        object.number("last_stem_output_active_note_bytes", self.last_stem_output_active_note_bytes as u128);
        object.number("last_stem_output_vec_bytes", self.last_stem_output_vec_bytes as u128);
        object.number("last_stem_internal_blocks", self.last_stem_internal_blocks as u128);
        object.number("last_stem_internal_audio_bytes", self.last_stem_internal_audio_bytes as u128);
        object.number("last_stem_internal_active_note_bytes", self.last_stem_internal_active_note_bytes as u128);
        object.number("last_stem_internal_vec_bytes", self.last_stem_internal_vec_bytes as u128);
        object.number("last_stem_residual_buffer_bytes", self.last_stem_residual_buffer_bytes as u128);
        object.number("last_stem_effect_input_bytes", self.last_stem_effect_input_bytes as u128);
        object.number("last_stem_effect_input_vec_bytes", self.last_stem_effect_input_vec_bytes as u128);
        object.number("last_stem_output_growth_bytes", self.last_stem_output_growth_bytes as u128);
        object.number("last_stem_internal_growth_bytes", self.last_stem_internal_growth_bytes as u128);
        object.number("last_stem_residual_growth_bytes", self.last_stem_residual_growth_bytes as u128);
        object.number("last_stem_effect_input_growth_bytes", self.last_stem_effect_input_growth_bytes as u128);
        object.number("last_stem_playback_growth_bytes", self.last_stem_playback_growth_bytes as u128);
        object.number("last_stem_total_growth_bytes", self.last_stem_total_growth_bytes as u128);
        object.number("last_stem_tracked_alloc_bytes", self.last_stem_tracked_alloc_bytes as u128);
        object.number("last_stem_untracked_alloc_bytes", self.last_stem_untracked_alloc_bytes as u128);
        object.number("last_zero_fill_audio_bytes", self.last_zero_fill_audio_bytes as u128);
        object.number("last_mixer_frame_bytes", self.last_mixer_frame_bytes as u128);
        object.number("last_mixer_internal_alloc_bytes", self.last_mixer_internal_alloc_bytes as u128);
        object.number("last_mixer_internal_dealloc_bytes", self.last_mixer_internal_dealloc_bytes as u128);
        object.number("last_mixer_scratch_growth_bytes", self.last_mixer_scratch_growth_bytes as u128);
        object.number("last_mixer_output_bytes", self.last_mixer_output_bytes as u128);
        object.number("last_mixer_prepared_frame_bytes", self.last_mixer_prepared_frame_bytes as u128);
        object.number("last_mixer_report_bytes", self.last_mixer_report_bytes as u128);
        object.number("last_vec_overhead_bytes", self.last_vec_overhead_bytes as u128);
        object.number("last_retained_container_capacity_bytes", self.last_retained_container_capacity_bytes as u128);
        object.number("last_temp_container_alloc_bytes", self.last_temp_container_alloc_bytes as u128);
        object.number("last_retained_capacity_growth_bytes", self.last_retained_capacity_growth_bytes as u128);
        object.number("last_transient_alloc_bytes", self.last_transient_alloc_bytes as u128);
        object.number("last_transient_dealloc_bytes", self.last_transient_dealloc_bytes as u128);
        object.number("last_transient_growth_bytes", self.last_transient_growth_bytes as u128);
        object.finish()
    }
}

/// The heaps of the process.
#[derive(Debug, Copy, Clone, PartialEq, Eq, Structural)]
pub struct NativeHeapSnapshot {
    pub heap_count: u32,
    pub walked_heaps: u32,
    pub failed_heaps: u32,
    pub busy_blocks: u64,
    pub busy_bytes: u64,
    pub free_blocks: u64,
    pub free_bytes: u64,
    pub region_count: u64,
    pub committed_region_bytes: u64,
    pub uncommitted_region_bytes: u64,
    pub uncommitted_ranges: u64,
    pub uncommitted_range_bytes: u64,
    pub block_overhead_bytes: u64,
}

impl NativeHeapSnapshot {
    /// The JSON of the snapshot.
    pub open spec fn json(&self) -> Seq<char> {
        object_of(
            no_members()
                .push(("heap_count"@, decimal(self.heap_count as nat)))
                .push(("walked_heaps"@, decimal(self.walked_heaps as nat)))
                .push(("failed_heaps"@, decimal(self.failed_heaps as nat)))
                .push(("busy_blocks"@, decimal(self.busy_blocks as nat)))
                .push(("busy_bytes"@, decimal(self.busy_bytes as nat)))
                .push(("free_blocks"@, decimal(self.free_blocks as nat)))
                .push(("free_bytes"@, decimal(self.free_bytes as nat)))
                .push(("region_count"@, decimal(self.region_count as nat)))
                .push(("committed_region_bytes"@, decimal(self.committed_region_bytes as nat)))
                .push(("uncommitted_region_bytes"@, decimal(self.uncommitted_region_bytes as nat)))
                .push(("uncommitted_ranges"@, decimal(self.uncommitted_ranges as nat)))
                .push(("uncommitted_range_bytes"@, decimal(self.uncommitted_range_bytes as nat)))
                .push(("block_overhead_bytes"@, decimal(self.block_overhead_bytes as nat))),
        )
    }

    pub fn to_json(&self) -> (text: String)
        ensures
            text@ == self.json(),
    {
        let mut object = JsonObject::new();
        object.number("heap_count", self.heap_count as u128);
        object.number("walked_heaps", self.walked_heaps as u128);
        object.number("failed_heaps", self.failed_heaps as u128);
        object.number("busy_blocks", self.busy_blocks as u128);
        object.number("busy_bytes", self.busy_bytes as u128);
        object.number("free_blocks", self.free_blocks as u128);
        object.number("free_bytes", self.free_bytes as u128);
        object.number("region_count", self.region_count as u128);
        object.number("committed_region_bytes", self.committed_region_bytes as u128);
        object.number("uncommitted_region_bytes", self.uncommitted_region_bytes as u128);
        object.number("uncommitted_ranges", self.uncommitted_ranges as u128);
        object.number("uncommitted_range_bytes", self.uncommitted_range_bytes as u128);
        object.number("block_overhead_bytes", self.block_overhead_bytes as u128);
        object.finish()
    }
}

impl PerfAudioOutputSnapshot {
    /// What an audio device reports.
    pub open spec fn of(audio: AudioDeviceDiagnostics) -> PerfAudioOutputSnapshot {
        PerfAudioOutputSnapshot {
            ring_retained_bytes: audio.ring_retained_bytes,
            callback_scratch_bytes: audio.callback_scratch_bytes,
            producer_render_block_bytes: audio.producer_render_block_bytes,
            write_calls: audio.stats.write_calls,
            write_bytes: audio.stats.write_bytes,
            last_callback_additional_bytes: audio.stats.last_callback_additional_bytes,
            largest_callback_additional_bytes: audio.stats.largest_callback_additional_bytes,
            last_callback_total_bytes: audio.stats.last_callback_total_bytes,
            largest_callback_total_bytes: audio.stats.largest_callback_total_bytes,
            init_calls: audio.lifecycle.init_calls,
            quit_calls: audio.lifecycle.quit_calls,
            stream_opens: audio.lifecycle.stream_opens,
            stream_destroys: audio.lifecycle.stream_destroys,
            stream_resumes: audio.lifecycle.stream_resumes,
            stream_pauses: audio.lifecycle.stream_pauses,
            callback_states_created: audio.lifecycle.callback_states_created,
            callback_states_dropped: audio.lifecycle.callback_states_dropped,
            producer_threads_started: audio.lifecycle.producer_threads_started,
            producer_threads_finished: audio.lifecycle.producer_threads_finished,
            stream_id: audio.references.stream_id,
            shared_strong_count: audio.references.shared_strong_count,
            shared_weak_count: audio.references.shared_weak_count,
            callback_shared_strong_count: audio.references.callback_shared_strong_count,
            callback_shared_weak_count: audio.references.callback_shared_weak_count,
        }
    }

    /// What an audio device reports.
    pub fn from_diagnostics(audio: &AudioDeviceDiagnostics) -> (snapshot: Self)
        ensures
            snapshot == PerfAudioOutputSnapshot::of(*audio),
    {
        PerfAudioOutputSnapshot {
            ring_retained_bytes: audio.ring_retained_bytes,
            callback_scratch_bytes: audio.callback_scratch_bytes,
            producer_render_block_bytes: audio.producer_render_block_bytes,
            write_calls: audio.stats.write_calls,
            write_bytes: audio.stats.write_bytes,
            last_callback_additional_bytes: audio.stats.last_callback_additional_bytes,
            largest_callback_additional_bytes: audio.stats.largest_callback_additional_bytes,
            last_callback_total_bytes: audio.stats.last_callback_total_bytes,
            largest_callback_total_bytes: audio.stats.largest_callback_total_bytes,
            init_calls: audio.lifecycle.init_calls,
            quit_calls: audio.lifecycle.quit_calls,
            stream_opens: audio.lifecycle.stream_opens,
            stream_destroys: audio.lifecycle.stream_destroys,
            stream_resumes: audio.lifecycle.stream_resumes,
            stream_pauses: audio.lifecycle.stream_pauses,
            callback_states_created: audio.lifecycle.callback_states_created,
            callback_states_dropped: audio.lifecycle.callback_states_dropped,
            producer_threads_started: audio.lifecycle.producer_threads_started,
            producer_threads_finished: audio.lifecycle.producer_threads_finished,
            stream_id: audio.references.stream_id,
            shared_strong_count: audio.references.shared_strong_count,
            shared_weak_count: audio.references.shared_weak_count,
            callback_shared_strong_count: audio.references.callback_shared_strong_count,
            callback_shared_weak_count: audio.references.callback_shared_weak_count,
        }
    }
}

impl PerfArcReferenceSnapshot {
    /// What playback reports.
    pub open spec fn of(value: ArcReferenceDiagnostics) -> PerfArcReferenceSnapshot {
        PerfArcReferenceSnapshot {
            strong_count: value.strong_count,
            weak_count: value.weak_count,
            expected_strong_roots: value.expected_strong_roots,
            excess_strong_count: value.excess_strong_count,
        }
    }

    /// What playback reports.
    pub fn from_diagnostics(value: &ArcReferenceDiagnostics) -> (snapshot: Self)
        ensures
            snapshot == PerfArcReferenceSnapshot::of(*value),
    {
        PerfArcReferenceSnapshot {
            strong_count: value.strong_count,
            weak_count: value.weak_count,
            expected_strong_roots: value.expected_strong_roots,
            excess_strong_count: value.excess_strong_count,
        }
    }
}

impl PerfSoundFontMetadataMemorySnapshot {
    /// What playback reports.
    pub open spec fn of(value: SoundFontMetadataDiagnostics) -> PerfSoundFontMetadataMemorySnapshot {
        PerfSoundFontMetadataMemorySnapshot {
            catalog_entries: value.catalog_entries,
            catalog_estimated_bytes: value.catalog_estimated_bytes,
            loaded_soundfont_ids: value.loaded_soundfont_ids,
            loaded_soundfont_id_bytes: value.loaded_soundfont_id_bytes,
            loaded_coverage_entries: value.loaded_coverage_entries,
            loaded_coverage_estimated_bytes: value.loaded_coverage_estimated_bytes,
            estimated_bytes: value.estimated_bytes,
        }
    }

    /// What playback reports.
    pub fn from_diagnostics(value: &SoundFontMetadataDiagnostics) -> (snapshot: Self)
        ensures
            snapshot == PerfSoundFontMetadataMemorySnapshot::of(*value),
    {
        PerfSoundFontMetadataMemorySnapshot {
            catalog_entries: value.catalog_entries,
            catalog_estimated_bytes: value.catalog_estimated_bytes,
            loaded_soundfont_ids: value.loaded_soundfont_ids,
            loaded_soundfont_id_bytes: value.loaded_soundfont_id_bytes,
            loaded_coverage_entries: value.loaded_coverage_entries,
            loaded_coverage_estimated_bytes: value.loaded_coverage_estimated_bytes,
            estimated_bytes: value.estimated_bytes,
        }
    }
}

impl PerfMidiMemorySnapshot {
    /// What playback reports.
    pub open spec fn of(value: MidiRuntimeMemoryDiagnostics) -> PerfMidiMemorySnapshot {
        PerfMidiMemorySnapshot {
            raw_bytes: value.raw_bytes,
            raw_capacity_bytes: value.raw_capacity_bytes,
            strip_count: value.strip_count,
            strip_capacity: value.strip_capacity,
            strip_bytes: value.strip_bytes,
            jump_point_count: value.jump_point_count,
            jump_point_bytes: value.jump_point_bytes,
            parsed_message_count: value.parsed_message_count,
            parsed_sysex_events: value.parsed_sysex_events,
            parsed_sysex_bytes: value.parsed_sysex_bytes,
            parsed_estimated_bytes: value.parsed_estimated_bytes,
            estimated_bytes: value.estimated_bytes,
        }
    }

    /// What playback reports.
    pub fn from_diagnostics(value: &MidiRuntimeMemoryDiagnostics) -> (snapshot: Self)
        ensures
            snapshot == PerfMidiMemorySnapshot::of(*value),
    {
        PerfMidiMemorySnapshot {
            raw_bytes: value.raw_bytes,
            raw_capacity_bytes: value.raw_capacity_bytes,
            strip_count: value.strip_count,
            strip_capacity: value.strip_capacity,
            strip_bytes: value.strip_bytes,
            jump_point_count: value.jump_point_count,
            jump_point_bytes: value.jump_point_bytes,
            parsed_message_count: value.parsed_message_count,
            parsed_sysex_events: value.parsed_sysex_events,
            parsed_sysex_bytes: value.parsed_sysex_bytes,
            parsed_estimated_bytes: value.parsed_estimated_bytes,
            estimated_bytes: value.estimated_bytes,
        }
    }
}

impl PerfRustystemMemorySnapshot {
    /// What playback reports.
    pub open spec fn of(value: RustystemRuntimeDiagnostics) -> PerfRustystemMemorySnapshot {
        PerfRustystemMemorySnapshot {
            instance_count: value.instance_count,
            soundfont_wave_bytes: value.soundfont_wave_bytes,
            voice_buffer_bytes: value.voice_buffer_bytes,
            block_buffer_bytes: value.block_buffer_bytes,
            effects_bytes: value.effects_bytes,
            preset_lookup_bytes: value.preset_lookup_bytes,
            channel_bytes: value.channel_bytes,
            stem_effect_map_bytes: value.stem_effect_map_bytes,
            block_stem_vec_bytes: value.block_stem_vec_bytes,
            estimated_bytes: value.estimated_bytes,
        }
    }

    /// What playback reports.
    pub fn from_diagnostics(value: &RustystemRuntimeDiagnostics) -> (snapshot: Self)
        ensures
            snapshot == PerfRustystemMemorySnapshot::of(*value),
    {
        PerfRustystemMemorySnapshot {
            instance_count: value.instance_count,
            soundfont_wave_bytes: value.soundfont_wave_bytes,
            voice_buffer_bytes: value.voice_buffer_bytes,
            block_buffer_bytes: value.block_buffer_bytes,
            effects_bytes: value.effects_bytes,
            preset_lookup_bytes: value.preset_lookup_bytes,
            channel_bytes: value.channel_bytes,
            stem_effect_map_bytes: value.stem_effect_map_bytes,
            block_stem_vec_bytes: value.block_stem_vec_bytes,
            estimated_bytes: value.estimated_bytes,
        }
    }
}

impl PerfAudioMemorySnapshot {
    /// What playback reports.
    pub open spec fn of(value: AudioRuntimeMemoryDiagnostics) -> PerfAudioMemorySnapshot {
        PerfAudioMemorySnapshot {
            stream_open: value.stream_open,
            ring_retained_bytes: value.ring_retained_bytes,
            callback_scratch_bytes: value.callback_scratch_bytes,
            producer_render_block_bytes: value.producer_render_block_bytes,
            estimated_bytes: value.estimated_bytes,
        }
    }

    /// What playback reports.
    pub fn from_diagnostics(value: &AudioRuntimeMemoryDiagnostics) -> (snapshot: Self)
        ensures
            snapshot == PerfAudioMemorySnapshot::of(*value),
    {
        PerfAudioMemorySnapshot {
            stream_open: value.stream_open,
            ring_retained_bytes: value.ring_retained_bytes,
            callback_scratch_bytes: value.callback_scratch_bytes,
            producer_render_block_bytes: value.producer_render_block_bytes,
            estimated_bytes: value.estimated_bytes,
        }
    }
}

impl PerfLifecycleSnapshot {
    /// What playback reports.
    pub open spec fn of(value: PlaybackLifecycleDiagnostics) -> PerfLifecycleSnapshot {
        PerfLifecycleSnapshot {
            engine_replacements: value.engine_replacements,
            cumulative_replaced_engine_estimated_bytes: value.cumulative_replaced_engine_estimated_bytes,
            last_replaced_engine_estimated_bytes: value.last_replaced_engine_estimated_bytes,
            last_replaced_engine_instances: value.last_replaced_engine_instances,
            last_replaced_stem_effects: value.last_replaced_stem_effects,
            last_replaced_stem_effect_bytes: value.last_replaced_stem_effect_bytes,
        }
    }

    /// What playback reports.
    pub fn from_diagnostics(value: &PlaybackLifecycleDiagnostics) -> (snapshot: Self)
        ensures
            snapshot == PerfLifecycleSnapshot::of(*value),
    {
        PerfLifecycleSnapshot {
            engine_replacements: value.engine_replacements,
            cumulative_replaced_engine_estimated_bytes: value.cumulative_replaced_engine_estimated_bytes,
            last_replaced_engine_estimated_bytes: value.last_replaced_engine_estimated_bytes,
            last_replaced_engine_instances: value.last_replaced_engine_instances,
            last_replaced_stem_effects: value.last_replaced_stem_effects,
            last_replaced_stem_effect_bytes: value.last_replaced_stem_effect_bytes,
        }
    }
}

impl PerfRenderChurnSnapshot {
    /// What the renderer recorded.
    pub open spec fn of(churn: RenderChurnDiagnostics) -> PerfRenderChurnSnapshot {
        PerfRenderChurnSnapshot {
            render_calls: churn.render_calls,
            cumulative_allocation_events: churn.cumulative_allocation_events,
            cumulative_deallocation_events: churn.cumulative_deallocation_events,
            cumulative_transient_alloc_bytes: churn.cumulative_transient_alloc_bytes,
            cumulative_transient_dealloc_bytes: churn.cumulative_transient_dealloc_bytes,
            cumulative_transient_growth_bytes: churn.cumulative_transient_growth_bytes,
            cumulative_retained_capacity_growth_bytes: churn.cumulative_retained_capacity_growth_bytes,
            cumulative_temp_container_alloc_bytes: churn.cumulative_temp_container_alloc_bytes,
            max_transient_alloc_bytes: churn.max_transient_alloc_bytes,
            max_transient_growth_bytes: churn.max_transient_growth_bytes,
            max_retained_capacity_growth_bytes: churn.max_retained_capacity_growth_bytes,
            max_temp_container_alloc_bytes: churn.max_temp_container_alloc_bytes,
            last_allocation_events: churn.last.allocation_events,
            last_deallocation_events: churn.last.deallocation_events,
            last_frames: churn.last.frames,
            last_rendered_blocks: churn.last.rendered_blocks,
            last_routed_blocks: churn.last.routed_blocks,
            last_mixer_inputs: churn.last.mixer_inputs,
            last_zero_fill_blocks: churn.last.zero_fill_blocks,
            last_visual_strips: churn.last.visual_strips,
            last_stem_audio_bytes: churn.last.stem_audio_bytes,
            last_stem_output_blocks: churn.last.stem_output_blocks,
            last_stem_output_audio_bytes: churn.last.stem_output_audio_bytes,
            last_stem_output_active_note_bytes: churn.last.stem_output_active_note_bytes,
            last_stem_output_vec_bytes: churn.last.stem_output_vec_bytes,
            last_stem_internal_blocks: churn.last.stem_internal_blocks,
            last_stem_internal_audio_bytes: churn.last.stem_internal_audio_bytes,
            last_stem_internal_active_note_bytes: churn.last.stem_internal_active_note_bytes,
            last_stem_internal_vec_bytes: churn.last.stem_internal_vec_bytes,
            last_stem_residual_buffer_bytes: churn.last.stem_residual_buffer_bytes,
            last_stem_effect_input_bytes: churn.last.stem_effect_input_bytes,
            last_stem_effect_input_vec_bytes: churn.last.stem_effect_input_vec_bytes,
            last_stem_output_growth_bytes: churn.last.stem_output_growth_bytes,
            last_stem_internal_growth_bytes: churn.last.stem_internal_growth_bytes,
            last_stem_residual_growth_bytes: churn.last.stem_residual_growth_bytes,
            last_stem_effect_input_growth_bytes: churn.last.stem_effect_input_growth_bytes,
            last_stem_playback_growth_bytes: churn.last.stem_playback_growth_bytes,
            last_stem_total_growth_bytes: churn.last.stem_total_growth_bytes,
            last_stem_tracked_alloc_bytes: churn.last.stem_tracked_alloc_bytes,
            last_stem_untracked_alloc_bytes: churn.last.stem_untracked_alloc_bytes,
            last_zero_fill_audio_bytes: churn.last.zero_fill_audio_bytes,
            last_mixer_frame_bytes: churn.last.mixer_frame_bytes,
            last_mixer_internal_alloc_bytes: churn.last.mixer_internal_alloc_bytes,
            last_mixer_internal_dealloc_bytes: churn.last.mixer_internal_dealloc_bytes,
            last_mixer_scratch_growth_bytes: churn.last.mixer_scratch_growth_bytes,
            last_mixer_output_bytes: churn.last.mixer_output_bytes,
            last_mixer_prepared_frame_bytes: churn.last.mixer_prepared_frame_bytes,
            last_mixer_report_bytes: churn.last.mixer_report_bytes,
            last_vec_overhead_bytes: churn.last.vec_overhead_bytes,
            last_retained_container_capacity_bytes: churn.last.retained_container_capacity_bytes,
            last_temp_container_alloc_bytes: churn.last.temp_container_alloc_bytes,
            last_retained_capacity_growth_bytes: churn.last.retained_capacity_growth_bytes,
            last_transient_alloc_bytes: churn.last.transient_alloc_bytes,
            last_transient_dealloc_bytes: churn.last.transient_dealloc_bytes,
            last_transient_growth_bytes: churn.last.transient_growth_bytes,
        }
    }

    /// What the renderer recorded.
    pub fn from_churn(churn: &RenderChurnDiagnostics) -> (snapshot: Self)
        ensures
            snapshot == PerfRenderChurnSnapshot::of(*churn),
    {
        PerfRenderChurnSnapshot {
            render_calls: churn.render_calls,
            cumulative_allocation_events: churn.cumulative_allocation_events,
            cumulative_deallocation_events: churn.cumulative_deallocation_events,
            cumulative_transient_alloc_bytes: churn.cumulative_transient_alloc_bytes,
            cumulative_transient_dealloc_bytes: churn.cumulative_transient_dealloc_bytes,
            cumulative_transient_growth_bytes: churn.cumulative_transient_growth_bytes,
            cumulative_retained_capacity_growth_bytes: churn.cumulative_retained_capacity_growth_bytes,
            cumulative_temp_container_alloc_bytes: churn.cumulative_temp_container_alloc_bytes,
            max_transient_alloc_bytes: churn.max_transient_alloc_bytes,
            max_transient_growth_bytes: churn.max_transient_growth_bytes,
            max_retained_capacity_growth_bytes: churn.max_retained_capacity_growth_bytes,
            max_temp_container_alloc_bytes: churn.max_temp_container_alloc_bytes,
            last_allocation_events: churn.last.allocation_events,
            last_deallocation_events: churn.last.deallocation_events,
            last_frames: churn.last.frames,
            last_rendered_blocks: churn.last.rendered_blocks,
            last_routed_blocks: churn.last.routed_blocks,
            last_mixer_inputs: churn.last.mixer_inputs,
            last_zero_fill_blocks: churn.last.zero_fill_blocks,
            last_visual_strips: churn.last.visual_strips,
            last_stem_audio_bytes: churn.last.stem_audio_bytes,
            last_stem_output_blocks: churn.last.stem_output_blocks,
            last_stem_output_audio_bytes: churn.last.stem_output_audio_bytes,
            last_stem_output_active_note_bytes: churn.last.stem_output_active_note_bytes,
            last_stem_output_vec_bytes: churn.last.stem_output_vec_bytes,
            last_stem_internal_blocks: churn.last.stem_internal_blocks,
            last_stem_internal_audio_bytes: churn.last.stem_internal_audio_bytes,
            last_stem_internal_active_note_bytes: churn.last.stem_internal_active_note_bytes,
            last_stem_internal_vec_bytes: churn.last.stem_internal_vec_bytes,
            last_stem_residual_buffer_bytes: churn.last.stem_residual_buffer_bytes,
            last_stem_effect_input_bytes: churn.last.stem_effect_input_bytes,
            last_stem_effect_input_vec_bytes: churn.last.stem_effect_input_vec_bytes,
            last_stem_output_growth_bytes: churn.last.stem_output_growth_bytes,
            last_stem_internal_growth_bytes: churn.last.stem_internal_growth_bytes,
            last_stem_residual_growth_bytes: churn.last.stem_residual_growth_bytes,
            last_stem_effect_input_growth_bytes: churn.last.stem_effect_input_growth_bytes,
            last_stem_playback_growth_bytes: churn.last.stem_playback_growth_bytes,
            last_stem_total_growth_bytes: churn.last.stem_total_growth_bytes,
            last_stem_tracked_alloc_bytes: churn.last.stem_tracked_alloc_bytes,
            last_stem_untracked_alloc_bytes: churn.last.stem_untracked_alloc_bytes,
            last_zero_fill_audio_bytes: churn.last.zero_fill_audio_bytes,
            last_mixer_frame_bytes: churn.last.mixer_frame_bytes,
            last_mixer_internal_alloc_bytes: churn.last.mixer_internal_alloc_bytes,
            last_mixer_internal_dealloc_bytes: churn.last.mixer_internal_dealloc_bytes,
            last_mixer_scratch_growth_bytes: churn.last.mixer_scratch_growth_bytes,
            last_mixer_output_bytes: churn.last.mixer_output_bytes,
            last_mixer_prepared_frame_bytes: churn.last.mixer_prepared_frame_bytes,
            last_mixer_report_bytes: churn.last.mixer_report_bytes,
            last_vec_overhead_bytes: churn.last.vec_overhead_bytes,
            last_retained_container_capacity_bytes: churn.last.retained_container_capacity_bytes,
            last_temp_container_alloc_bytes: churn.last.temp_container_alloc_bytes,
            last_retained_capacity_growth_bytes: churn.last.retained_capacity_growth_bytes,
            last_transient_alloc_bytes: churn.last.transient_alloc_bytes,
            last_transient_dealloc_bytes: churn.last.transient_dealloc_bytes,
            last_transient_growth_bytes: churn.last.transient_growth_bytes,
        }
    }
}

/// How often the shared parts of playback are referenced.
#[derive(Debug, Copy, Clone, PartialEq, Eq, Structural)]
pub struct PerfReferenceSnapshot {
    pub engine: Option<PerfArcReferenceSnapshot>,
    pub mixer: PerfArcReferenceSnapshot,
    pub mixer_controls: PerfArcReferenceSnapshot,
    pub latest_snapshot: PerfArcReferenceSnapshot,
    pub midi_strips: PerfArcReferenceSnapshot,
    pub render_scratch: PerfArcReferenceSnapshot,
    pub render_churn: PerfArcReferenceSnapshot,
    pub audio_stream_open: bool,
}

impl PerfReferenceSnapshot {
    /// What playback reports.
    pub open spec fn of(value: PlaybackReferenceDiagnostics) -> PerfReferenceSnapshot {
        PerfReferenceSnapshot {
            engine: match value.engine {
                Some(engine) => Some(PerfArcReferenceSnapshot::of(engine)),
                None => None,
            },
            mixer: PerfArcReferenceSnapshot::of(value.mixer),
            mixer_controls: PerfArcReferenceSnapshot::of(value.mixer_controls),
            latest_snapshot: PerfArcReferenceSnapshot::of(value.latest_snapshot),
            midi_strips: PerfArcReferenceSnapshot::of(value.midi_strips),
            render_scratch: PerfArcReferenceSnapshot::of(value.render_scratch),
            render_churn: PerfArcReferenceSnapshot::of(value.render_churn),
            audio_stream_open: value.audio_stream_open,
        }
    }

    /// What playback reports.
    pub fn from_diagnostics(value: &PlaybackReferenceDiagnostics) -> (snapshot: Self)
        ensures
            snapshot == PerfReferenceSnapshot::of(*value),
    {
        PerfReferenceSnapshot {
            engine: match &value.engine {
                Some(engine) => Some(PerfArcReferenceSnapshot::from_diagnostics(engine)),
                None => None,
            },
            mixer: PerfArcReferenceSnapshot::from_diagnostics(&value.mixer),
            mixer_controls: PerfArcReferenceSnapshot::from_diagnostics(&value.mixer_controls),
            latest_snapshot: PerfArcReferenceSnapshot::from_diagnostics(&value.latest_snapshot),
            midi_strips: PerfArcReferenceSnapshot::from_diagnostics(&value.midi_strips),
            render_scratch: PerfArcReferenceSnapshot::from_diagnostics(&value.render_scratch),
            render_churn: PerfArcReferenceSnapshot::from_diagnostics(&value.render_churn),
            audio_stream_open: value.audio_stream_open,
        }
    }

    /// The JSON of the snapshot.
    pub open spec fn json(&self) -> Seq<char> {
        let members = no_members()
            .push(("audio_stream_open"@, truth(self.audio_stream_open)))
            .push(("mixer"@, self.mixer.json()))
            .push(("mixer_controls"@, self.mixer_controls.json()))
            .push(("latest_snapshot"@, self.latest_snapshot.json()))
            .push(("midi_strips"@, self.midi_strips.json()))
            .push(("render_scratch"@, self.render_scratch.json()))
            .push(("render_churn"@, self.render_churn.json()));
        object_of(
            match self.engine {
                Some(engine) => members.push(("engine"@, engine.json())),
                None => members,
            },
        )
    }

    pub fn to_json(&self) -> (text: String)
        ensures
            text@ == self.json(),
    {
        let mut object = JsonObject::new();
        object.boolean("audio_stream_open", self.audio_stream_open);
        object.raw("mixer", self.mixer.to_json().as_str());
        object.raw("mixer_controls", self.mixer_controls.to_json().as_str());
        object.raw("latest_snapshot", self.latest_snapshot.to_json().as_str());
        object.raw("midi_strips", self.midi_strips.to_json().as_str());
        object.raw("render_scratch", self.render_scratch.to_json().as_str());
        object.raw("render_churn", self.render_churn.to_json().as_str());
        match &self.engine {
            Some(engine) => object.raw("engine", engine.to_json().as_str()),
            None => {},
        }
        object.finish()
    }
}

/// The memory of all parts of playback.
#[derive(Debug, Copy, Clone, PartialEq, Eq, Structural)]
pub struct PerfComponentMemorySnapshot {
    pub tracked_total_bytes: usize,
    pub soundfont_metadata: PerfSoundFontMetadataMemorySnapshot,
    pub midi: PerfMidiMemorySnapshot,
    pub rustystem: PerfRustystemMemorySnapshot,
    pub audio: PerfAudioMemorySnapshot,
}

impl PerfComponentMemorySnapshot {
    /// What playback reports.
    pub open spec fn of(value: PlaybackComponentMemoryDiagnostics) -> PerfComponentMemorySnapshot {
        PerfComponentMemorySnapshot {
            tracked_total_bytes: value.tracked_total_bytes,
            soundfont_metadata: PerfSoundFontMetadataMemorySnapshot::of(value.soundfont_metadata),
            midi: PerfMidiMemorySnapshot::of(value.midi),
            rustystem: PerfRustystemMemorySnapshot::of(value.rustystem),
            audio: PerfAudioMemorySnapshot::of(value.audio),
        }
    }

    /// What playback reports.
    pub fn from_diagnostics(value: &PlaybackComponentMemoryDiagnostics) -> (snapshot: Self)
        ensures
            snapshot == PerfComponentMemorySnapshot::of(*value),
    {
        PerfComponentMemorySnapshot {
            tracked_total_bytes: value.tracked_total_bytes,
            soundfont_metadata: PerfSoundFontMetadataMemorySnapshot::from_diagnostics(&value.soundfont_metadata),
            midi: PerfMidiMemorySnapshot::from_diagnostics(&value.midi),
            rustystem: PerfRustystemMemorySnapshot::from_diagnostics(&value.rustystem),
            audio: PerfAudioMemorySnapshot::from_diagnostics(&value.audio),
        }
    }

    /// The JSON of the snapshot.
    pub open spec fn json(&self) -> Seq<char> {
        object_of(
            no_members()
                .push(("tracked_total_bytes"@, decimal(self.tracked_total_bytes as nat)))
                .push(("soundfont_metadata"@, self.soundfont_metadata.json()))
                .push(("midi"@, self.midi.json()))
                .push(("rustystem"@, self.rustystem.json()))
                .push(("audio"@, self.audio.json())),
        )
    }

    pub fn to_json(&self) -> (text: String)
        ensures
            text@ == self.json(),
    {
        let mut object = JsonObject::new();
        object.number("tracked_total_bytes", self.tracked_total_bytes as u128);
        object.raw("soundfont_metadata", self.soundfont_metadata.to_json().as_str());
        object.raw("midi", self.midi.to_json().as_str());
        object.raw("rustystem", self.rustystem.to_json().as_str());
        object.raw("audio", self.audio.to_json().as_str());
        object.finish()
    }
}

/// A soundfont in the cache.
#[derive(Debug)]
pub struct PerfSoundFontCacheEntrySnapshot {
    pub key: String,
    pub strong_count: usize,
    pub weak_count: usize,
    pub resident_bytes: usize,
}

impl PerfSoundFontCacheEntrySnapshot {
    /// The JSON of the snapshot.
    pub open spec fn json(&self) -> Seq<char> {
        object_of(
            no_members()
                .push(("key"@, quoted(self.key@)))
                .push(("strong"@, decimal(self.strong_count as nat)))
                .push(("weak"@, decimal(self.weak_count as nat)))
                .push(("resident_bytes"@, decimal(self.resident_bytes as nat))),
        )
    }

    pub fn to_json(&self) -> (text: String)
        ensures
            text@ == self.json(),
    {
        let mut object = JsonObject::new();
        object.string("key", self.key.as_str());
        object.number("strong", self.strong_count as u128);
        object.number("weak", self.weak_count as u128);
        object.number("resident_bytes", self.resident_bytes as u128);
        object.finish()
    }
}

/// The cache of soundfonts.
#[derive(Debug)]
pub struct PerfSoundFontCacheSnapshot {
    pub entries: usize,
    pub hits: u64,
    pub misses: u64,
    pub decoded_bytes: u64,
    pub resident_bytes: usize,
    pub evictions: u64,
    pub total_strong_count: usize,
    pub max_strong_count: usize,
    pub entry_refs: Vec<PerfSoundFontCacheEntrySnapshot>,
}

/// The JSON of cache entries.
pub open spec fn cache_entry_items(entries: Seq<PerfSoundFontCacheEntrySnapshot>) -> Seq<Seq<char>> {
    entries.map_values(|entry: PerfSoundFontCacheEntrySnapshot| entry.json())
}

impl PerfSoundFontCacheSnapshot {
    /// The JSON of the snapshot.
    pub open spec fn json(&self) -> Seq<char> {
        object_of(
            no_members()
                .push(("entries"@, decimal(self.entries as nat)))
                .push(("hits"@, decimal(self.hits as nat)))
                .push(("misses"@, decimal(self.misses as nat)))
                .push(("decoded_bytes"@, decimal(self.decoded_bytes as nat)))
                .push(("resident_bytes"@, decimal(self.resident_bytes as nat)))
                .push(("evictions"@, decimal(self.evictions as nat)))
                .push(("total_strong_count"@, decimal(self.total_strong_count as nat)))
                .push(("max_strong_count"@, decimal(self.max_strong_count as nat)))
                .push(("entry_refs"@, array_of(cache_entry_items(self.entry_refs@)))),
        )
    }

    pub fn to_json(&self) -> (text: String)
        ensures
            text@ == self.json(),
    {
        let ghost all = cache_entry_items(self.entry_refs@);
        let mut entries = JsonArray::new();
        let mut i: usize = 0;
        while i < self.entry_refs.len()
            invariant
                i <= self.entry_refs@.len(),
                all == cache_entry_items(self.entry_refs@),
                entries.wf(),
                entries.items() == all.take(i as int),
            decreases self.entry_refs@.len() - i,
        {
            let item = self.entry_refs[i].to_json();
            entries.item(item.as_str());
            i = i + 1;
            assert(entries.items() =~= all.take(i as int));
        }
        assert(all.take(i as int) =~= all);
        let mut object = JsonObject::new();
        object.number("entries", self.entries as u128);
        object.number("hits", self.hits as u128);
        object.number("misses", self.misses as u128);
        object.number("decoded_bytes", self.decoded_bytes as u128);
        object.number("resident_bytes", self.resident_bytes as u128);
        object.number("evictions", self.evictions as u128);
        object.number("total_strong_count", self.total_strong_count as u128);
        object.number("max_strong_count", self.max_strong_count as u128);
        object.raw("entry_refs", entries.finish().as_str());
        object.finish()
    }
}

/// The JSON of the buffers of a stem render.
pub open spec fn stem_allocations_object(allocations: StemRenderAllocations) -> Seq<char> {
    object_of(
        no_members()
            .push(("output_block_count"@, decimal(allocations.output_block_count as nat)))
            .push(("output_audio_bytes"@, decimal(allocations.output_audio_bytes as nat)))
            .push(("output_active_note_bytes"@, decimal(allocations.output_active_note_bytes as nat)))
            .push(("output_vec_bytes"@, decimal(allocations.output_vec_bytes as nat)))
            .push(("internal_block_count"@, decimal(allocations.internal_block_count as nat)))
            .push(("internal_audio_bytes"@, decimal(allocations.internal_audio_bytes as nat)))
            .push(("internal_active_note_bytes"@, decimal(allocations.internal_active_note_bytes as nat)))
            .push(("internal_vec_bytes"@, decimal(allocations.internal_vec_bytes as nat)))
            .push(("residual_buffer_bytes"@, decimal(allocations.residual_buffer_bytes as nat)))
            .push(("effect_input_bytes"@, decimal(allocations.effect_input_bytes as nat)))
            .push(("effect_input_vec_bytes"@, decimal(allocations.effect_input_vec_bytes as nat)))
            .push(("output_growth_bytes"@, decimal(allocations.output_growth_bytes as nat)))
            .push(("internal_growth_bytes"@, decimal(allocations.internal_growth_bytes as nat)))
            .push(("residual_growth_bytes"@, decimal(allocations.residual_growth_bytes as nat)))
            .push(("effect_input_growth_bytes"@, decimal(allocations.effect_input_growth_bytes as nat)))
            .push(("total_bytes"@, decimal(allocations.total_bytes as nat)))
            .push(("total_growth_bytes"@, decimal(allocations.total_growth_bytes as nat))),
    )
}

pub fn stem_render_allocations_json(allocations: StemRenderAllocations) -> (text: String)
    ensures
        text@ == stem_allocations_object(allocations),
{
    let mut object = JsonObject::new();
    object.number("output_block_count", allocations.output_block_count as u128);
    object.number("output_audio_bytes", allocations.output_audio_bytes as u128);
    object.number("output_active_note_bytes", allocations.output_active_note_bytes as u128);
    object.number("output_vec_bytes", allocations.output_vec_bytes as u128);
    object.number("internal_block_count", allocations.internal_block_count as u128);
    object.number("internal_audio_bytes", allocations.internal_audio_bytes as u128);
    object.number("internal_active_note_bytes", allocations.internal_active_note_bytes as u128);
    object.number("internal_vec_bytes", allocations.internal_vec_bytes as u128);
    object.number("residual_buffer_bytes", allocations.residual_buffer_bytes as u128);
    object.number("effect_input_bytes", allocations.effect_input_bytes as u128);
    object.number("effect_input_vec_bytes", allocations.effect_input_vec_bytes as u128);
    object.number("output_growth_bytes", allocations.output_growth_bytes as u128);
    object.number("internal_growth_bytes", allocations.internal_growth_bytes as u128);
    object.number("residual_growth_bytes", allocations.residual_growth_bytes as u128);
    object.number("effect_input_growth_bytes", allocations.effect_input_growth_bytes as u128);
    object.number("total_bytes", allocations.total_bytes as u128);
    object.number("total_growth_bytes", allocations.total_growth_bytes as u128);
    object.finish()
}

/// The memory of one synthesizer.
#[derive(Debug)]
pub struct PerfMemoryInstanceSnapshot {
    pub internal_id: String,
    pub display_name: String,
    pub soundfont_wave_bytes: usize,
    pub soundfont_sample_headers: usize,
    pub soundfont_presets: usize,
    pub soundfont_instruments: usize,
    pub total_voices: usize,
    pub active_voices: usize,
    pub voice_buffer_bytes: usize,
    pub retained_stem_blocks: usize,
    pub retained_stem_block_bytes: usize,
    pub stem_effects: usize,
    pub stem_effect_bytes: usize,
    pub stem_effect_allocations: u64,
    pub stem_effect_deallocations: u64,
    pub stem_effect_allocated_bytes: u64,
    pub stem_effect_deallocated_bytes: u64,
    pub stem_effect_cache_clears: u64,
    pub stem_effect_cache_released_bytes: u64,
    pub last_stem_render_allocations: StemRenderAllocations,
    pub effects_bytes: usize,
    pub preset_lookup_bytes: usize,
    pub channel_bytes: usize,
    pub stem_effect_map_bytes: usize,
    pub block_stem_vec_bytes: usize,
    pub estimated_bytes: usize,
}

impl PerfMemoryInstanceSnapshot {
    /// The JSON of the snapshot.
    pub open spec fn json(&self) -> Seq<char> {
        object_of(
            no_members()
                .push(("id"@, quoted(self.internal_id@)))
                .push(("display"@, quoted(self.display_name@)))
                .push(("soundfont_wave_bytes"@, decimal(self.soundfont_wave_bytes as nat)))
                .push(("soundfont_sample_headers"@, decimal(self.soundfont_sample_headers as nat)))
                .push(("soundfont_presets"@, decimal(self.soundfont_presets as nat)))
                .push(("soundfont_instruments"@, decimal(self.soundfont_instruments as nat)))
                .push(("total_voices"@, decimal(self.total_voices as nat)))
                .push(("active_voices"@, decimal(self.active_voices as nat)))
                .push(("voice_buffer_bytes"@, decimal(self.voice_buffer_bytes as nat)))
                .push(("retained_stem_blocks"@, decimal(self.retained_stem_blocks as nat)))
                .push(("retained_stem_block_bytes"@, decimal(self.retained_stem_block_bytes as nat)))
                .push(("stem_effects"@, decimal(self.stem_effects as nat)))
                .push(("stem_effect_bytes"@, decimal(self.stem_effect_bytes as nat)))
                .push(("stem_effect_allocations"@, decimal(self.stem_effect_allocations as nat)))
                .push(("stem_effect_deallocations"@, decimal(self.stem_effect_deallocations as nat)))
                .push(("stem_effect_allocated_bytes"@, decimal(self.stem_effect_allocated_bytes as nat)))
                .push(("stem_effect_deallocated_bytes"@, decimal(self.stem_effect_deallocated_bytes as nat)))
                .push(("stem_effect_cache_clears"@, decimal(self.stem_effect_cache_clears as nat)))
                .push(("stem_effect_cache_released_bytes"@, decimal(self.stem_effect_cache_released_bytes as nat)))
                .push((
                    "last_stem_render_allocations"@,
                    stem_allocations_object(self.last_stem_render_allocations),
                ))
                .push(("effects_bytes"@, decimal(self.effects_bytes as nat)))
                .push(("preset_lookup_bytes"@, decimal(self.preset_lookup_bytes as nat)))
                .push(("channel_bytes"@, decimal(self.channel_bytes as nat)))
                .push(("stem_effect_map_bytes"@, decimal(self.stem_effect_map_bytes as nat)))
                .push(("block_stem_vec_bytes"@, decimal(self.block_stem_vec_bytes as nat)))
                .push(("estimated_bytes"@, decimal(self.estimated_bytes as nat))),
        )
    }

    pub fn to_json(&self) -> (text: String)
        ensures
            text@ == self.json(),
    {
        let mut object = JsonObject::new();
        object.string("id", self.internal_id.as_str());
        object.string("display", self.display_name.as_str());
        object.number("soundfont_wave_bytes", self.soundfont_wave_bytes as u128);
        object.number("soundfont_sample_headers", self.soundfont_sample_headers as u128);
        object.number("soundfont_presets", self.soundfont_presets as u128);
        object.number("soundfont_instruments", self.soundfont_instruments as u128);
        object.number("total_voices", self.total_voices as u128);
        object.number("active_voices", self.active_voices as u128);
        object.number("voice_buffer_bytes", self.voice_buffer_bytes as u128);
        object.number("retained_stem_blocks", self.retained_stem_blocks as u128);
        object.number("retained_stem_block_bytes", self.retained_stem_block_bytes as u128);
        object.number("stem_effects", self.stem_effects as u128);
        object.number("stem_effect_bytes", self.stem_effect_bytes as u128);
        object.number("stem_effect_allocations", self.stem_effect_allocations as u128);
        object.number("stem_effect_deallocations", self.stem_effect_deallocations as u128);
        object.number("stem_effect_allocated_bytes", self.stem_effect_allocated_bytes as u128);
        object.number("stem_effect_deallocated_bytes", self.stem_effect_deallocated_bytes as u128);
        object.number("stem_effect_cache_clears", self.stem_effect_cache_clears as u128);
        object.number("stem_effect_cache_released_bytes", self.stem_effect_cache_released_bytes as u128);
        object.raw(
            "last_stem_render_allocations",
            stem_render_allocations_json(self.last_stem_render_allocations).as_str(),
        );
        object.number("effects_bytes", self.effects_bytes as u128);
        object.number("preset_lookup_bytes", self.preset_lookup_bytes as u128);
        object.number("channel_bytes", self.channel_bytes as u128);
        object.number("stem_effect_map_bytes", self.stem_effect_map_bytes as u128);
        object.number("block_stem_vec_bytes", self.block_stem_vec_bytes as u128);
        object.number("estimated_bytes", self.estimated_bytes as u128);
        object.finish()
    }
}

/// The memory of all synthesizers.
#[derive(Debug)]
pub struct PerfMemorySnapshot {
    pub midi_bytes: usize,
    pub midi_capacity_bytes: usize,
    pub instance_count: usize,
    pub soundfont_wave_bytes: usize,
    pub soundfont_metadata_items: usize,
    pub total_voices: usize,
    pub active_voices: usize,
    pub voice_buffer_bytes: usize,
    pub block_buffer_bytes: usize,
    pub retained_stem_blocks: usize,
    pub retained_stem_block_bytes: usize,
    pub stem_effects: usize,
    pub stem_effect_bytes: usize,
    pub stem_effect_allocations: u64,
    pub stem_effect_deallocations: u64,
    pub stem_effect_allocated_bytes: u64,
    pub stem_effect_deallocated_bytes: u64,
    pub stem_effect_cache_clears: u64,
    pub stem_effect_cache_released_bytes: u64,
    pub last_stem_render_allocations: StemRenderAllocations,
    pub effects_bytes: usize,
    pub preset_lookup_bytes: usize,
    pub channel_bytes: usize,
    pub stem_effect_map_bytes: usize,
    pub block_stem_vec_bytes: usize,
    pub estimated_bytes: usize,
    pub instances: Vec<PerfMemoryInstanceSnapshot>,
}

/// The JSON of the synthesizers.
pub open spec fn instance_items(instances: Seq<PerfMemoryInstanceSnapshot>) -> Seq<Seq<char>> {
    instances.map_values(|instance: PerfMemoryInstanceSnapshot| instance.json())
}

impl PerfMemorySnapshot {
    /// The JSON of the snapshot; synthesizers are listed if there are any.
    pub open spec fn json(&self) -> Seq<char> {
        let members = no_members()
            .push(("midi_bytes"@, decimal(self.midi_bytes as nat)))
            .push(("midi_capacity_bytes"@, decimal(self.midi_capacity_bytes as nat)))
            .push(("instances"@, decimal(self.instance_count as nat)))
            .push(("soundfont_wave_bytes"@, decimal(self.soundfont_wave_bytes as nat)))
            .push(("soundfont_metadata_items"@, decimal(self.soundfont_metadata_items as nat)))
            .push(("total_voices"@, decimal(self.total_voices as nat)))
            .push(("active_voices"@, decimal(self.active_voices as nat)))
            .push(("voice_buffer_bytes"@, decimal(self.voice_buffer_bytes as nat)))
            .push(("block_buffer_bytes"@, decimal(self.block_buffer_bytes as nat)))
            .push(("retained_stem_blocks"@, decimal(self.retained_stem_blocks as nat)))
            .push(("retained_stem_block_bytes"@, decimal(self.retained_stem_block_bytes as nat)))
            .push(("stem_effects"@, decimal(self.stem_effects as nat)))
            .push(("stem_effect_bytes"@, decimal(self.stem_effect_bytes as nat)))
            .push(("stem_effect_allocations"@, decimal(self.stem_effect_allocations as nat)))
            .push(("stem_effect_deallocations"@, decimal(self.stem_effect_deallocations as nat)))
            .push(("stem_effect_allocated_bytes"@, decimal(self.stem_effect_allocated_bytes as nat)))
            .push(("stem_effect_deallocated_bytes"@, decimal(self.stem_effect_deallocated_bytes as nat)))
            .push(("stem_effect_cache_clears"@, decimal(self.stem_effect_cache_clears as nat)))
            .push(("stem_effect_cache_released_bytes"@, decimal(self.stem_effect_cache_released_bytes as nat)))
            .push((
                "last_stem_render_allocations"@,
                stem_allocations_object(self.last_stem_render_allocations),
            ))
            .push(("effects_bytes"@, decimal(self.effects_bytes as nat)))
            .push(("preset_lookup_bytes"@, decimal(self.preset_lookup_bytes as nat)))
            .push(("channel_bytes"@, decimal(self.channel_bytes as nat)))
            .push(("stem_effect_map_bytes"@, decimal(self.stem_effect_map_bytes as nat)))
            .push(("block_stem_vec_bytes"@, decimal(self.block_stem_vec_bytes as nat)))
            .push(("estimated_bytes"@, decimal(self.estimated_bytes as nat)));
        object_of(
            if self.instances@.len() == 0 {
                members
            } else {
                members.push(("instance_details"@, array_of(instance_items(self.instances@))))
            },
        )
    }

    /// What the synthesizer reports, with the size of the MIDI file.
    pub open spec fn of(
        memory: PlaybackMemoryDebug,
        instances: Vec<PerfMemoryInstanceSnapshot>,
        midi_bytes: usize,
        midi_capacity_bytes: usize,
    ) -> PerfMemorySnapshot {
        PerfMemorySnapshot {
            midi_bytes,
            midi_capacity_bytes,
            instance_count: memory.instance_count,
            soundfont_wave_bytes: memory.soundfont_wave_bytes,
            soundfont_metadata_items: memory.soundfont_metadata_items,
            total_voices: memory.total_voices,
            active_voices: memory.active_voices,
            voice_buffer_bytes: memory.voice_buffer_bytes,
            block_buffer_bytes: memory.block_buffer_bytes,
            retained_stem_blocks: memory.retained_stem_blocks,
            retained_stem_block_bytes: memory.retained_stem_block_bytes,
            stem_effects: memory.stem_effects,
            stem_effect_bytes: memory.stem_effect_bytes,
            stem_effect_allocations: memory.stem_effect_allocations,
            stem_effect_deallocations: memory.stem_effect_deallocations,
            stem_effect_allocated_bytes: memory.stem_effect_allocated_bytes,
            stem_effect_deallocated_bytes: memory.stem_effect_deallocated_bytes,
            stem_effect_cache_clears: memory.stem_effect_cache_clears,
            stem_effect_cache_released_bytes: memory.stem_effect_cache_released_bytes,
            last_stem_render_allocations: memory.last_stem_render_allocations,
            effects_bytes: memory.effects_bytes,
            preset_lookup_bytes: memory.preset_lookup_bytes,
            channel_bytes: memory.channel_bytes,
            stem_effect_map_bytes: memory.stem_effect_map_bytes,
            block_stem_vec_bytes: memory.block_stem_vec_bytes,
            estimated_bytes: memory.estimated_bytes,
            instances,
        }
    }

    /// What the synthesizer reports, with the size of the MIDI file.
    pub fn from_playback(
        memory: &PlaybackMemoryDebug,
        instances: Vec<PerfMemoryInstanceSnapshot>,
        midi_bytes: usize,
        midi_capacity_bytes: usize,
    ) -> (snapshot: Self)
        ensures
            snapshot == PerfMemorySnapshot::of(*memory, instances, midi_bytes, midi_capacity_bytes),
    {
        PerfMemorySnapshot {
            midi_bytes,
            midi_capacity_bytes,
            instance_count: memory.instance_count,
            soundfont_wave_bytes: memory.soundfont_wave_bytes,
            soundfont_metadata_items: memory.soundfont_metadata_items,
            total_voices: memory.total_voices,
            active_voices: memory.active_voices,
            voice_buffer_bytes: memory.voice_buffer_bytes,
            block_buffer_bytes: memory.block_buffer_bytes,
            retained_stem_blocks: memory.retained_stem_blocks,
            retained_stem_block_bytes: memory.retained_stem_block_bytes,
            stem_effects: memory.stem_effects,
            stem_effect_bytes: memory.stem_effect_bytes,
            stem_effect_allocations: memory.stem_effect_allocations,
            stem_effect_deallocations: memory.stem_effect_deallocations,
            stem_effect_allocated_bytes: memory.stem_effect_allocated_bytes,
            stem_effect_deallocated_bytes: memory.stem_effect_deallocated_bytes,
            stem_effect_cache_clears: memory.stem_effect_cache_clears,
            stem_effect_cache_released_bytes: memory.stem_effect_cache_released_bytes,
            last_stem_render_allocations: memory.last_stem_render_allocations,
            effects_bytes: memory.effects_bytes,
            preset_lookup_bytes: memory.preset_lookup_bytes,
            channel_bytes: memory.channel_bytes,
            stem_effect_map_bytes: memory.stem_effect_map_bytes,
            block_stem_vec_bytes: memory.block_stem_vec_bytes,
            estimated_bytes: memory.estimated_bytes,
            instances,
        }
    }

    pub fn to_json(&self) -> (text: String)
        ensures
            text@ == self.json(),
    {
        let mut object = JsonObject::new();
        object.number("midi_bytes", self.midi_bytes as u128);
        object.number("midi_capacity_bytes", self.midi_capacity_bytes as u128);
        object.number("instances", self.instance_count as u128);
        object.number("soundfont_wave_bytes", self.soundfont_wave_bytes as u128);
        object.number("soundfont_metadata_items", self.soundfont_metadata_items as u128);
        object.number("total_voices", self.total_voices as u128);
        object.number("active_voices", self.active_voices as u128);
        object.number("voice_buffer_bytes", self.voice_buffer_bytes as u128);
        object.number("block_buffer_bytes", self.block_buffer_bytes as u128);
        object.number("retained_stem_blocks", self.retained_stem_blocks as u128);
        object.number("retained_stem_block_bytes", self.retained_stem_block_bytes as u128);
        object.number("stem_effects", self.stem_effects as u128);
        object.number("stem_effect_bytes", self.stem_effect_bytes as u128);
        object.number("stem_effect_allocations", self.stem_effect_allocations as u128);
        object.number("stem_effect_deallocations", self.stem_effect_deallocations as u128);
        object.number("stem_effect_allocated_bytes", self.stem_effect_allocated_bytes as u128);
        object.number("stem_effect_deallocated_bytes", self.stem_effect_deallocated_bytes as u128);
        object.number("stem_effect_cache_clears", self.stem_effect_cache_clears as u128);
        object.number("stem_effect_cache_released_bytes", self.stem_effect_cache_released_bytes as u128);
        object.raw(
            "last_stem_render_allocations",
            stem_render_allocations_json(self.last_stem_render_allocations).as_str(),
        );
        object.number("effects_bytes", self.effects_bytes as u128);
        object.number("preset_lookup_bytes", self.preset_lookup_bytes as u128);
        object.number("channel_bytes", self.channel_bytes as u128);
        object.number("stem_effect_map_bytes", self.stem_effect_map_bytes as u128);
        object.number("block_stem_vec_bytes", self.block_stem_vec_bytes as u128);
        object.number("estimated_bytes", self.estimated_bytes as u128);
        if self.instances.len() > 0 {
            let ghost all = instance_items(self.instances@);
            let mut items = JsonArray::new();
            let mut i: usize = 0;
            while i < self.instances.len()
                invariant
                    i <= self.instances@.len(),
                    all == instance_items(self.instances@),
                    items.wf(),
                    items.items() == all.take(i as int),
                decreases self.instances@.len() - i,
            {
                let item = self.instances[i].to_json();
                items.item(item.as_str());
                i = i + 1;
                assert(items.items() =~= all.take(i as int));
            }
            assert(all.take(i as int) =~= all);
            object.raw("instance_details", items.finish().as_str());
        }
        object.finish()
    }
}

/// The kind of a piece of heap memory.
#[derive(Debug, Copy, Clone, PartialEq, Eq, Structural)]
pub enum HeapPiece {
    /// A block in use: its data and what it takes on top.
    Busy(u64, u64),
    /// A region: its committed and its uncommitted part.
    Region(u64, u64),
    /// A range that is not committed.
    Uncommitted(u64),
    /// A free block.
    Free(u64),
}

/// The kind of a piece of heap memory by its flags: in use, a region or an
/// uncommitted range, checked in this order, and otherwise free.
pub fn heap_piece(flags: u32, data: u64, overhead: u64, committed: u64, uncommitted: u64) -> (piece:
    HeapPiece)
    ensures
        piece == if flags & 4 != 0 {
            HeapPiece::Busy(data, overhead)
        } else if flags & 1 != 0 {
            HeapPiece::Region(committed, uncommitted)
        } else if flags & 2 != 0 {
            HeapPiece::Uncommitted(data)
        } else {
            HeapPiece::Free(data)
        },
{
    if flags & 4 != 0 {
        HeapPiece::Busy(data, overhead)
    } else if flags & 1 != 0 {
        HeapPiece::Region(committed, uncommitted)
    } else if flags & 2 != 0 {
        HeapPiece::Uncommitted(data)
    } else {
        HeapPiece::Free(data)
    }
}

impl NativeHeapSnapshot {
    /// Heaps of which none has been walked.
    pub fn of_heaps(heap_count: u32) -> (snapshot: Self)
        ensures
            snapshot == (NativeHeapSnapshot {
                heap_count,
                walked_heaps: 0,
                failed_heaps: 0,
                busy_blocks: 0,
                busy_bytes: 0,
                free_blocks: 0,
                free_bytes: 0,
                region_count: 0,
                committed_region_bytes: 0,
                uncommitted_region_bytes: 0,
                uncommitted_ranges: 0,
                uncommitted_range_bytes: 0,
                block_overhead_bytes: 0,
            }),
    {
        NativeHeapSnapshot {
            heap_count,
            walked_heaps: 0,
            failed_heaps: 0,
            busy_blocks: 0,
            busy_bytes: 0,
            free_blocks: 0,
            free_bytes: 0,
            region_count: 0,
            committed_region_bytes: 0,
            uncommitted_region_bytes: 0,
            uncommitted_ranges: 0,
            uncommitted_range_bytes: 0,
            block_overhead_bytes: 0,
        }
    }

    /// Starts with a heap, which may not let itself be walked.
    pub fn begin_heap(&mut self, locked: bool)
        ensures
            *final(self) == if locked {
                NativeHeapSnapshot {
                    walked_heaps: u32_cap(old(self).walked_heaps + 1) as u32,
                    ..*old(self)
                }
            } else {
                NativeHeapSnapshot {
                    failed_heaps: u32_cap(old(self).failed_heaps + 1) as u32,
                    ..*old(self)
                }
            },
    {
        if locked {
            self.walked_heaps = self.walked_heaps.saturating_add(1);
        } else {
            self.failed_heaps = self.failed_heaps.saturating_add(1);
        }
    }

    /// The snapshot with one more piece of memory.
    pub open spec fn with_piece(self, piece: HeapPiece) -> NativeHeapSnapshot {
        match piece {
            HeapPiece::Busy(data, overhead) => NativeHeapSnapshot {
                busy_blocks: u64_cap(self.busy_blocks + 1) as u64,
                busy_bytes: u64_cap(self.busy_bytes + data) as u64,
                block_overhead_bytes: u64_cap(self.block_overhead_bytes + overhead) as u64,
                ..self
            },
            HeapPiece::Region(committed, uncommitted) => NativeHeapSnapshot {
                region_count: u64_cap(self.region_count + 1) as u64,
                committed_region_bytes: u64_cap(self.committed_region_bytes + committed) as u64,
                uncommitted_region_bytes: u64_cap(
                    self.uncommitted_region_bytes + uncommitted,
                ) as u64,
                ..self
            },
            HeapPiece::Uncommitted(data) => NativeHeapSnapshot {
                uncommitted_ranges: u64_cap(self.uncommitted_ranges + 1) as u64,
                uncommitted_range_bytes: u64_cap(self.uncommitted_range_bytes + data) as u64,
                ..self
            },
            HeapPiece::Free(data) => NativeHeapSnapshot {
                free_blocks: u64_cap(self.free_blocks + 1) as u64,
                free_bytes: u64_cap(self.free_bytes + data) as u64,
                ..self
            },
        }
    }

    /// Counts one piece of memory.
    pub fn add_piece(&mut self, piece: HeapPiece)
        ensures
            *final(self) == old(self).with_piece(piece),
    {
        match piece {
            HeapPiece::Busy(data, overhead) => {
                self.busy_blocks = self.busy_blocks.saturating_add(1);
                self.busy_bytes = self.busy_bytes.saturating_add(data);
                self.block_overhead_bytes = self.block_overhead_bytes.saturating_add(overhead);
            },
            HeapPiece::Region(committed, uncommitted) => {
                self.region_count = self.region_count.saturating_add(1);
                self.committed_region_bytes = self.committed_region_bytes.saturating_add(
                    committed,
                );
                self.uncommitted_region_bytes = self.uncommitted_region_bytes.saturating_add(
                    uncommitted,
                );
            },
            HeapPiece::Uncommitted(data) => {
                self.uncommitted_ranges = self.uncommitted_ranges.saturating_add(1);
                self.uncommitted_range_bytes = self.uncommitted_range_bytes.saturating_add(data);
            },
            HeapPiece::Free(data) => {
                self.free_blocks = self.free_blocks.saturating_add(1);
                self.free_bytes = self.free_bytes.saturating_add(data);
            },
        }
    }
}

/// Each piece of a heap is counted once, with its bytes, where it belongs: busy, free,
/// uncommitted or a region.
pub proof fn heap_pieces_are_counted_where_they_belong(heap: NativeHeapSnapshot, piece: HeapPiece)
    ensures
        ({
            let after = heap.with_piece(piece);
            match piece {
                HeapPiece::Busy(data, overhead) => {
                    &&& heap.busy_blocks < u64::MAX ==> after.busy_blocks == heap.busy_blocks + 1
                    &&& heap.busy_bytes + data <= u64::MAX ==> after.busy_bytes
                        == heap.busy_bytes + data
                    &&& heap.block_overhead_bytes + overhead <= u64::MAX
                        ==> after.block_overhead_bytes == heap.block_overhead_bytes + overhead
                    &&& after.free_blocks == heap.free_blocks
                    &&& after.region_count == heap.region_count
                },
                HeapPiece::Region(committed, uncommitted) => {
                    &&& heap.region_count < u64::MAX ==> after.region_count == heap.region_count
                        + 1
                    &&& heap.committed_region_bytes + committed <= u64::MAX
                        ==> after.committed_region_bytes == heap.committed_region_bytes
                        + committed
                    &&& heap.uncommitted_region_bytes + uncommitted <= u64::MAX
                        ==> after.uncommitted_region_bytes == heap.uncommitted_region_bytes
                        + uncommitted
                    &&& after.busy_blocks == heap.busy_blocks
                    &&& after.free_blocks == heap.free_blocks
                },
                HeapPiece::Uncommitted(data) => {
                    &&& heap.uncommitted_ranges < u64::MAX ==> after.uncommitted_ranges
                        == heap.uncommitted_ranges + 1
                    &&& heap.uncommitted_range_bytes + data <= u64::MAX
                        ==> after.uncommitted_range_bytes == heap.uncommitted_range_bytes + data
                    &&& after.busy_blocks == heap.busy_blocks
                    &&& after.region_count == heap.region_count
                },
                HeapPiece::Free(data) => {
                    &&& heap.free_blocks < u64::MAX ==> after.free_blocks == heap.free_blocks + 1
                    &&& heap.free_bytes + data <= u64::MAX ==> after.free_bytes
                        == heap.free_bytes + data
                    &&& after.busy_blocks == heap.busy_blocks
                    &&& after.region_count == heap.region_count
                },
            }
        }),
{
}

} // verus!
