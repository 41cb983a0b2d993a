//! Diagnostics of playback: references, memory, latency and lifecycle.
use crate::numbers::{monus, saturating_mul_usize, u64_cap, usize_cap};
use crate::playback::churn::StemRenderAllocations;
use vstd::prelude::*;

verus! {

/// What an audio stream counts.
#[derive(Debug, Copy, Clone, PartialEq, Eq, Structural)]
pub struct AudioStreamStats {
    pub callback_count: u64,
    pub frames_requested: u64,
    pub frames_delivered: u64,
    pub underrun_count: u64,
    pub queue_error_count: u64,
    pub producer_rendered_frames: u64,
    pub write_calls: u64,
    pub write_bytes: u64,
    pub last_callback_additional_bytes: u64,
    pub largest_callback_additional_bytes: u64,
    pub last_callback_total_bytes: u64,
    pub largest_callback_total_bytes: u64,
}

/// The lifecycle of audio streams.
#[derive(Debug, Copy, Clone, PartialEq, Eq, Structural)]
pub struct AudioLifecycleStats {
    pub init_calls: u64,
    pub quit_calls: u64,
    pub stream_opens: u64,
    pub stream_destroys: u64,
    pub stream_resumes: u64,
    pub stream_pauses: u64,
    pub callback_states_created: u64,
    pub callback_states_dropped: u64,
    pub producer_threads_started: u64,
    pub producer_threads_finished: u64,
}

/// References that an audio stream holds.
#[derive(Debug, Copy, Clone, PartialEq, Eq, Structural)]
pub struct AudioStreamReferences {
    pub stream_id: u64,
    pub shared_strong_count: usize,
    pub shared_weak_count: usize,
    pub callback_shared_strong_count: usize,
    pub callback_shared_weak_count: usize,
}

/// What an audio device reports.
#[derive(Debug, Copy, Clone, PartialEq, Eq, Structural)]
pub struct AudioDeviceDiagnostics {
    pub ring_retained_bytes: usize,
    pub ring_available_frames: usize,
    pub ring_capacity_frames: usize,
    pub device_buffer_frames: usize,
    pub device_available_frames: usize,
    pub callback_scratch_bytes: usize,
    pub producer_render_block_bytes: u64,
    pub stats: AudioStreamStats,
    pub lifecycle: AudioLifecycleStats,
    pub references: AudioStreamReferences,
}

/// How often a shared part is referenced, and how often it should be.
#[derive(Debug, Copy, Clone, PartialEq, Eq, Structural)]
pub struct ArcReferenceDiagnostics {
    pub strong_count: usize,
    pub weak_count: usize,
    pub expected_strong_roots: usize,
    pub excess_strong_count: usize,
}

/// Every field at its zero value.
pub open spec fn no_references() -> ArcReferenceDiagnostics {
    ArcReferenceDiagnostics {
        strong_count: 0,
        weak_count: 0,
        expected_strong_roots: 0,
        excess_strong_count: 0,
    }
}

impl Default for ArcReferenceDiagnostics {
    fn default() -> (value: Self)
        ensures
            value == no_references(),
    {
        ArcReferenceDiagnostics {
            strong_count: 0,
            weak_count: 0,
            expected_strong_roots: 0,
            excess_strong_count: 0,
        }
    }
}

/// The references of a part: what exceeds the expected roots is counted.
pub open spec fn references_of(strong: usize, weak: usize, expected: usize) -> ArcReferenceDiagnostics {
    ArcReferenceDiagnostics {
        strong_count: strong,
        weak_count: weak,
        expected_strong_roots: expected,
        excess_strong_count: monus(strong as int, expected as int) as usize,
    }
}

impl ArcReferenceDiagnostics {
    pub fn from_arc(strong_count: usize, weak_count: usize, expected_strong_roots: usize) -> (
    diagnostics: Self)
        ensures
            diagnostics == references_of(strong_count, weak_count, expected_strong_roots),
    {
        ArcReferenceDiagnostics {
            strong_count,
            weak_count,
            expected_strong_roots,
            excess_strong_count: strong_count.saturating_sub(expected_strong_roots),
        }
    }
}

/// The controller holds a shared part, and an open audio stream holds it too.
pub open spec fn expected_roots(audio_open: bool) -> usize {
    if audio_open {
        2
    } else {
        1
    }
}

pub fn expected_audio_closure_roots(audio_open: bool) -> (roots: usize)
    ensures
        roots == expected_roots(audio_open),
{
    if audio_open {
        2
    } else {
        1
    }
}

pub fn expected_engine_roots(audio_open: bool) -> (roots: usize)
    ensures
        roots == expected_roots(audio_open),
{
    expected_audio_closure_roots(audio_open)
}

/// The strong and weak references of a part.
#[derive(Debug, Copy, Clone, PartialEq, Eq, Structural)]
pub struct ReferenceCounts {
    pub strong: usize,
    pub weak: usize,
}

/// The references of the parts that playback shares.
#[derive(Debug, Copy, Clone, PartialEq, Eq, Structural)]
pub struct SharedPartCounts {
    pub engine: Option<ReferenceCounts>,
    pub mixer: ReferenceCounts,
    pub mixer_controls: ReferenceCounts,
    pub latest_snapshot: ReferenceCounts,
    pub midi_strips: ReferenceCounts,
    pub render_scratch: ReferenceCounts,
    pub render_churn: ReferenceCounts,
}

/// The references of the shared parts against what is expected.
#[derive(Debug, Copy, Clone, PartialEq, Eq, Structural)]
pub struct PlaybackReferenceDiagnostics {
    pub engine: Option<ArcReferenceDiagnostics>,
    pub mixer: ArcReferenceDiagnostics,
    pub mixer_controls: ArcReferenceDiagnostics,
    pub latest_snapshot: ArcReferenceDiagnostics,
    pub midi_strips: ArcReferenceDiagnostics,
    pub render_scratch: ArcReferenceDiagnostics,
    pub render_churn: ArcReferenceDiagnostics,
    pub audio_stream_open: bool,
}

/// The diagnostics of one part.
pub open spec fn part_references(counts: ReferenceCounts, audio_open: bool) -> ArcReferenceDiagnostics {
    references_of(counts.strong, counts.weak, expected_roots(audio_open))
}

/// The diagnostics of all shared parts.
pub fn reference_diagnostics(counts: SharedPartCounts, audio_open: bool) -> (diagnostics:
    PlaybackReferenceDiagnostics)
    ensures
        diagnostics == (PlaybackReferenceDiagnostics {
            engine: match counts.engine {
                Some(engine) => Some(part_references(engine, audio_open)),
                None => None,
            },
            mixer: part_references(counts.mixer, audio_open),
            mixer_controls: part_references(counts.mixer_controls, audio_open),
            latest_snapshot: part_references(counts.latest_snapshot, audio_open),
            midi_strips: part_references(counts.midi_strips, audio_open),
            render_scratch: part_references(counts.render_scratch, audio_open),
            render_churn: part_references(counts.render_churn, audio_open),
            audio_stream_open: audio_open,
        }),
{
    let roots: usize = expected_audio_closure_roots(audio_open);
    PlaybackReferenceDiagnostics {
        engine: match counts.engine {
            Some(engine) => Some(
                ArcReferenceDiagnostics::from_arc(
                    engine.strong,
                    engine.weak,
                    expected_engine_roots(audio_open),
                ),
            ),
            None => None,
        },
        mixer: ArcReferenceDiagnostics::from_arc(
            counts.mixer.strong,
            counts.mixer.weak,
            roots,
        ),
        mixer_controls: ArcReferenceDiagnostics::from_arc(
            counts.mixer_controls.strong,
            counts.mixer_controls.weak,
            roots,
        ),
        latest_snapshot: ArcReferenceDiagnostics::from_arc(
            counts.latest_snapshot.strong,
            counts.latest_snapshot.weak,
            roots,
        ),
        midi_strips: ArcReferenceDiagnostics::from_arc(
            counts.midi_strips.strong,
            counts.midi_strips.weak,
            roots,
        ),
        render_scratch: ArcReferenceDiagnostics::from_arc(
            counts.render_scratch.strong,
            counts.render_scratch.weak,
            roots,
        ),
        render_churn: ArcReferenceDiagnostics::from_arc(
            counts.render_churn.strong,
            counts.render_churn.weak,
            roots,
        ),
        audio_stream_open: audio_open,
    }
}

/// What the synthesizer reports of the parsed MIDI file.
#[derive(Debug, Copy, Clone, PartialEq, Eq, Structural)]
pub struct MidiFileDebug {
    pub message_count: usize,
    pub sysex_events: usize,
    pub sysex_bytes: usize,
    pub estimated_bytes: usize,
}

/// What the synthesizer reports of its memory.
#[derive(Debug, Copy, Clone, PartialEq, Eq, Structural)]
pub struct PlaybackMemoryDebug {
    pub instance_count: usize,
    pub soundfont_wave_bytes: usize,
    pub soundfont_metadata_items: usize,
    pub total_voices: usize,
    pub active_voices: usize,
    pub voice_buffer_bytes: usize,
    pub block_buffer_bytes: usize,
    pub retained_stem_blocks: usize,
    pub retained_stem_block_bytes: usize,
    pub stem_effects: usize,
    pub stem_effect_bytes: usize,
    pub stem_effect_allocations: u64,
    pub stem_effect_deallocations: u64,
    pub stem_effect_allocated_bytes: u64,
    pub stem_effect_deallocated_bytes: u64,
    pub stem_effect_cache_clears: u64,
    pub stem_effect_cache_released_bytes: u64,
    pub last_stem_render_allocations: StemRenderAllocations,
    pub effects_bytes: usize,
    pub preset_lookup_bytes: usize,
    pub channel_bytes: usize,
    pub stem_effect_map_bytes: usize,
    pub block_stem_vec_bytes: usize,
    pub estimated_bytes: usize,
    pub midi_file: Option<MidiFileDebug>,
}

/// The memory of the soundfont catalog.
#[derive(Debug, Copy, Clone, PartialEq, Eq, Structural)]
pub struct SoundFontMetadataDiagnostics {
    pub catalog_entries: usize,
    pub catalog_estimated_bytes: usize,
    pub loaded_soundfont_ids: usize,
    pub loaded_soundfont_id_bytes: usize,
    pub loaded_coverage_entries: usize,
    pub loaded_coverage_estimated_bytes: usize,
    pub estimated_bytes: usize,
}

/// Every field at its zero value.
pub open spec fn no_metadata_memory() -> SoundFontMetadataDiagnostics {
    SoundFontMetadataDiagnostics {
        catalog_entries: 0,
        catalog_estimated_bytes: 0,
        loaded_soundfont_ids: 0,
        loaded_soundfont_id_bytes: 0,
        loaded_coverage_entries: 0,
        loaded_coverage_estimated_bytes: 0,
        estimated_bytes: 0,
    }
}

impl Default for SoundFontMetadataDiagnostics {
    fn default() -> (value: Self)
        ensures
            value == no_metadata_memory(),
    {
        SoundFontMetadataDiagnostics {
            catalog_entries: 0,
            catalog_estimated_bytes: 0,
            loaded_soundfont_ids: 0,
            loaded_soundfont_id_bytes: 0,
            loaded_coverage_entries: 0,
            loaded_coverage_estimated_bytes: 0,
            estimated_bytes: 0,
        }
    }
}

/// The memory of the loaded MIDI file.
#[derive(Debug, Copy, Clone, PartialEq, Eq, Structural)]
pub struct MidiRuntimeMemoryDiagnostics {
    pub raw_bytes: usize,
    pub raw_capacity_bytes: usize,
    pub strip_count: usize,
    pub strip_capacity: usize,
    pub strip_bytes: usize,
    pub jump_point_count: usize,
    pub jump_point_bytes: usize,
    pub parsed_message_count: usize,
    pub parsed_sysex_events: usize,
    pub parsed_sysex_bytes: usize,
    pub parsed_estimated_bytes: usize,
    pub estimated_bytes: usize,
}

/// Every field at its zero value.
pub open spec fn no_midi_memory() -> MidiRuntimeMemoryDiagnostics {
    MidiRuntimeMemoryDiagnostics {
        raw_bytes: 0,
        raw_capacity_bytes: 0,
        strip_count: 0,
        strip_capacity: 0,
        strip_bytes: 0,
        jump_point_count: 0,
        jump_point_bytes: 0,
        parsed_message_count: 0,
        parsed_sysex_events: 0,
        parsed_sysex_bytes: 0,
        parsed_estimated_bytes: 0,
        estimated_bytes: 0,
    }
}

impl Default for MidiRuntimeMemoryDiagnostics {
    fn default() -> (value: Self)
        ensures
            value == no_midi_memory(),
    {
        MidiRuntimeMemoryDiagnostics {
            raw_bytes: 0,
            raw_capacity_bytes: 0,
            strip_count: 0,
            strip_capacity: 0,
            strip_bytes: 0,
            jump_point_count: 0,
            jump_point_bytes: 0,
            parsed_message_count: 0,
            parsed_sysex_events: 0,
            parsed_sysex_bytes: 0,
            parsed_estimated_bytes: 0,
            estimated_bytes: 0,
        }
    }
}

/// The memory of the synthesizer.
#[derive(Debug, Copy, Clone, PartialEq, Eq, Structural)]
pub struct RustystemRuntimeDiagnostics {
    pub instance_count: usize,
    pub soundfont_wave_bytes: usize,
    pub voice_buffer_bytes: usize,
    pub block_buffer_bytes: usize,
    pub effects_bytes: usize,
    pub preset_lookup_bytes: usize,
    pub channel_bytes: usize,
    pub stem_effect_map_bytes: usize,
    pub block_stem_vec_bytes: usize,
    pub estimated_bytes: usize,
}

/// Every field at its zero value.
pub open spec fn no_synth_memory() -> RustystemRuntimeDiagnostics {
    RustystemRuntimeDiagnostics {
        instance_count: 0,
        soundfont_wave_bytes: 0,
        voice_buffer_bytes: 0,
        block_buffer_bytes: 0,
        effects_bytes: 0,
        preset_lookup_bytes: 0,
        channel_bytes: 0,
        stem_effect_map_bytes: 0,
        block_stem_vec_bytes: 0,
        estimated_bytes: 0,
    }
}

impl Default for RustystemRuntimeDiagnostics {
    fn default() -> (value: Self)
        ensures
            value == no_synth_memory(),
    {
        RustystemRuntimeDiagnostics {
            instance_count: 0,
            soundfont_wave_bytes: 0,
            voice_buffer_bytes: 0,
            block_buffer_bytes: 0,
            effects_bytes: 0,
            preset_lookup_bytes: 0,
            channel_bytes: 0,
            stem_effect_map_bytes: 0,
            block_stem_vec_bytes: 0,
            estimated_bytes: 0,
        }
    }
}

/// The memory of the audio output.
#[derive(Debug, Copy, Clone, PartialEq, Eq, Structural)]
pub struct AudioRuntimeMemoryDiagnostics {
    pub stream_open: bool,
    pub ring_retained_bytes: usize,
    pub callback_scratch_bytes: usize,
    pub producer_render_block_bytes: u64,
    pub estimated_bytes: usize,
}

/// Every field at its zero value.
pub open spec fn no_audio_memory() -> AudioRuntimeMemoryDiagnostics {
    AudioRuntimeMemoryDiagnostics {
        stream_open: false,
        ring_retained_bytes: 0,
        callback_scratch_bytes: 0,
        producer_render_block_bytes: 0,
        estimated_bytes: 0,
    }
}

impl Default for AudioRuntimeMemoryDiagnostics {
    fn default() -> (value: Self)
        ensures
            value == no_audio_memory(),
    {
        AudioRuntimeMemoryDiagnostics {
            stream_open: false,
            ring_retained_bytes: 0,
            callback_scratch_bytes: 0,
            producer_render_block_bytes: 0,
            estimated_bytes: 0,
        }
    }
}

/// What engine replacements released.
#[derive(Debug, Copy, Clone, PartialEq, Eq, Structural)]
pub struct PlaybackLifecycleDiagnostics {
    pub engine_replacements: u64,
    pub cumulative_replaced_engine_estimated_bytes: u64,
    pub last_replaced_engine_estimated_bytes: usize,
    pub last_replaced_engine_instances: usize,
    pub last_replaced_stem_effects: usize,
    pub last_replaced_stem_effect_bytes: usize,
}

/// Every field at its zero value.
pub open spec fn no_lifecycle() -> PlaybackLifecycleDiagnostics {
    PlaybackLifecycleDiagnostics {
        engine_replacements: 0,
        cumulative_replaced_engine_estimated_bytes: 0,
        last_replaced_engine_estimated_bytes: 0,
        last_replaced_engine_instances: 0,
        last_replaced_stem_effects: 0,
        last_replaced_stem_effect_bytes: 0,
    }
}

impl Default for PlaybackLifecycleDiagnostics {
    fn default() -> (value: Self)
        ensures
            value == no_lifecycle(),
    {
        PlaybackLifecycleDiagnostics {
            engine_replacements: 0,
            cumulative_replaced_engine_estimated_bytes: 0,
            last_replaced_engine_estimated_bytes: 0,
            last_replaced_engine_instances: 0,
            last_replaced_stem_effects: 0,
            last_replaced_stem_effect_bytes: 0,
        }
    }
}

/// The memory of all parts of playback.
#[derive(Debug, Copy, Clone, PartialEq, Eq, Structural)]
pub struct PlaybackComponentMemoryDiagnostics {
    pub soundfont_metadata: SoundFontMetadataDiagnostics,
    pub midi: MidiRuntimeMemoryDiagnostics,
    pub rustystem: RustystemRuntimeDiagnostics,
    pub audio: AudioRuntimeMemoryDiagnostics,
    pub tracked_total_bytes: usize,
}

/// Where the latency of the output comes from.
#[derive(Debug, Copy, Clone, PartialEq, Eq, Structural)]
pub struct OutputLatencyBreakdown {
    pub total_frames: u64,
    pub wrapper_queue_frames: u64,
    pub device_queue_frames: u64,
}

/// Every field at its zero value.
pub open spec fn no_latency() -> OutputLatencyBreakdown {
    OutputLatencyBreakdown {
        total_frames: 0,
        wrapper_queue_frames: 0,
        device_queue_frames: 0,
    }
}

impl Default for OutputLatencyBreakdown {
    fn default() -> (value: Self)
        ensures
            value == no_latency(),
    {
        OutputLatencyBreakdown {
            total_frames: 0,
            wrapper_queue_frames: 0,
            device_queue_frames: 0,
        }
    }
}

/// The sizes of the soundfont catalog and of what is loaded.
#[derive(Debug, Copy, Clone, PartialEq, Eq, Structural)]
pub struct SoundFontMetadataSizes {
    pub catalog_entries: usize,
    pub catalog_vec_bytes: usize,
    pub catalog_text_bytes: usize,
    pub loaded_ids: usize,
    pub loaded_id_capacity: usize,
    pub id_size: usize,
    pub loaded_id_text_bytes: usize,
    pub loaded_coverages: usize,
    pub coverage_entry_size: usize,
    pub coverage_bytes: usize,
}

impl SoundFontMetadataSizes {
    pub open spec fn catalog_bytes(self) -> int {
        usize_cap(self.catalog_vec_bytes + self.catalog_text_bytes)
    }

    pub open spec fn id_bytes(self) -> int {
        usize_cap(self.loaded_id_capacity * self.id_size + self.loaded_id_text_bytes)
    }

    pub open spec fn coverage_total(self) -> int {
        usize_cap(self.coverage_bytes + self.loaded_coverages * self.coverage_entry_size)
    }
}

pub fn soundfont_metadata_diagnostics(sizes: SoundFontMetadataSizes) -> (diagnostics:
    SoundFontMetadataDiagnostics)
    ensures
        diagnostics == (SoundFontMetadataDiagnostics {
            catalog_entries: sizes.catalog_entries,
            catalog_estimated_bytes: sizes.catalog_bytes() as usize,
            loaded_soundfont_ids: sizes.loaded_ids,
            loaded_soundfont_id_bytes: sizes.id_bytes() as usize,
            loaded_coverage_entries: sizes.loaded_coverages,
            loaded_coverage_estimated_bytes: sizes.coverage_total() as usize,
            estimated_bytes: usize_cap(
                sizes.catalog_bytes() + sizes.id_bytes() + sizes.coverage_total(),
            ) as usize,
        }),
{
    proof {
        assert(sizes.loaded_id_capacity * sizes.id_size >= 0) by (nonlinear_arith);
        assert(sizes.loaded_coverages * sizes.coverage_entry_size >= 0) by (nonlinear_arith);
    }
    let catalog_estimated_bytes: usize = sizes.catalog_vec_bytes.saturating_add(
        sizes.catalog_text_bytes,
    );
    let loaded_soundfont_id_bytes: usize = saturating_mul_usize(
        sizes.loaded_id_capacity,
        sizes.id_size,
    ).saturating_add(sizes.loaded_id_text_bytes);
    let loaded_coverage_estimated_bytes: usize = sizes.coverage_bytes.saturating_add(
        saturating_mul_usize(sizes.loaded_coverages, sizes.coverage_entry_size),
    );
    SoundFontMetadataDiagnostics {
        catalog_entries: sizes.catalog_entries,
        catalog_estimated_bytes,
        loaded_soundfont_ids: sizes.loaded_ids,
        loaded_soundfont_id_bytes,
        loaded_coverage_entries: sizes.loaded_coverages,
        loaded_coverage_estimated_bytes,
        estimated_bytes: catalog_estimated_bytes.saturating_add(
            loaded_soundfont_id_bytes,
        ).saturating_add(loaded_coverage_estimated_bytes),
    }
}

/// The sizes of the loaded MIDI file and what belongs to it.
#[derive(Debug, Copy, Clone, PartialEq, Eq, Structural)]
pub struct MidiRuntimeSizes {
    pub raw_bytes: usize,
    pub raw_capacity_bytes: usize,
    pub strip_count: usize,
    pub strip_capacity: usize,
    pub strip_bytes: usize,
    pub jump_point_count: usize,
    pub jump_point_bytes: usize,
}

pub fn midi_runtime_diagnostics(sizes: MidiRuntimeSizes, parsed: Option<MidiFileDebug>) -> (
diagnostics: MidiRuntimeMemoryDiagnostics)
    ensures
        ({
            let file = match parsed {
                Some(file) => file,
                None => MidiFileDebug {
                    message_count: 0,
                    sysex_events: 0,
                    sysex_bytes: 0,
                    estimated_bytes: 0,
                },
            };
            diagnostics == (MidiRuntimeMemoryDiagnostics {
                raw_bytes: sizes.raw_bytes,
                raw_capacity_bytes: sizes.raw_capacity_bytes,
                strip_count: sizes.strip_count,
                strip_capacity: sizes.strip_capacity,
                strip_bytes: sizes.strip_bytes,
                jump_point_count: sizes.jump_point_count,
                jump_point_bytes: sizes.jump_point_bytes,
                parsed_message_count: file.message_count,
                parsed_sysex_events: file.sysex_events,
                parsed_sysex_bytes: file.sysex_bytes,
                parsed_estimated_bytes: file.estimated_bytes,
                estimated_bytes: usize_cap(
                    sizes.raw_capacity_bytes + sizes.strip_bytes + sizes.jump_point_bytes
                        + file.estimated_bytes,
                ) as usize,
            })
        }),
{
    let file = match parsed {
        Some(file) => file,
        None => MidiFileDebug {
            message_count: 0,
            sysex_events: 0,
            sysex_bytes: 0,
            estimated_bytes: 0,
        },
    };
    MidiRuntimeMemoryDiagnostics {
        raw_bytes: sizes.raw_bytes,
        raw_capacity_bytes: sizes.raw_capacity_bytes,
        strip_count: sizes.strip_count,
        strip_capacity: sizes.strip_capacity,
        strip_bytes: sizes.strip_bytes,
        jump_point_count: sizes.jump_point_count,
        jump_point_bytes: sizes.jump_point_bytes,
        parsed_message_count: file.message_count,
        parsed_sysex_events: file.sysex_events,
        parsed_sysex_bytes: file.sysex_bytes,
        parsed_estimated_bytes: file.estimated_bytes,
        estimated_bytes: sizes.raw_capacity_bytes.saturating_add(sizes.strip_bytes).saturating_add(
            sizes.jump_point_bytes,
        ).saturating_add(file.estimated_bytes),
    }
}

/// The memory of the synthesizer without the MIDI file it holds.
pub open spec fn synth_memory(memory: PlaybackMemoryDebug) -> RustystemRuntimeDiagnostics {
    RustystemRuntimeDiagnostics {
        instance_count: memory.instance_count,
        soundfont_wave_bytes: memory.soundfont_wave_bytes,
        voice_buffer_bytes: memory.voice_buffer_bytes,
        block_buffer_bytes: memory.block_buffer_bytes,
        effects_bytes: memory.effects_bytes,
        preset_lookup_bytes: memory.preset_lookup_bytes,
        channel_bytes: memory.channel_bytes,
        stem_effect_map_bytes: memory.stem_effect_map_bytes,
        block_stem_vec_bytes: memory.block_stem_vec_bytes,
        estimated_bytes: monus(
            memory.estimated_bytes as int,
            match memory.midi_file {
                Some(file) => file.estimated_bytes as int,
                None => 0,
            },
        ) as usize,
    }
}

impl RustystemRuntimeDiagnostics {
    pub fn from_memory_debug(memory: Option<&PlaybackMemoryDebug>) -> (diagnostics: Self)
        ensures
            diagnostics == match memory {
                Some(memory) => synth_memory(*memory),
                None => no_synth_memory(),
            },
    {
        match memory {
            None => RustystemRuntimeDiagnostics::default(),
            Some(memory) => RustystemRuntimeDiagnostics {
                instance_count: memory.instance_count,
                soundfont_wave_bytes: memory.soundfont_wave_bytes,
                voice_buffer_bytes: memory.voice_buffer_bytes,
                block_buffer_bytes: memory.block_buffer_bytes,
                effects_bytes: memory.effects_bytes,
                preset_lookup_bytes: memory.preset_lookup_bytes,
                channel_bytes: memory.channel_bytes,
                stem_effect_map_bytes: memory.stem_effect_map_bytes,
                block_stem_vec_bytes: memory.block_stem_vec_bytes,
                estimated_bytes: memory.estimated_bytes.saturating_sub(
                    match memory.midi_file {
                        Some(file) => file.estimated_bytes,
                        None => 0,
                    },
                ),
            },
        }
    }
}

/// The memory of an open audio output.
pub open spec fn audio_memory(audio: AudioDeviceDiagnostics) -> AudioRuntimeMemoryDiagnostics {
    AudioRuntimeMemoryDiagnostics {
        stream_open: true,
        ring_retained_bytes: audio.ring_retained_bytes,
        callback_scratch_bytes: audio.callback_scratch_bytes,
        producer_render_block_bytes: audio.producer_render_block_bytes,
        estimated_bytes: usize_cap(
            audio.ring_retained_bytes + audio.callback_scratch_bytes
                + audio.producer_render_block_bytes,
        ) as usize,
    }
}

impl AudioRuntimeMemoryDiagnostics {
    pub fn from_audio_diagnostics(audio: Option<&AudioDeviceDiagnostics>) -> (diagnostics: Self)
        ensures
            diagnostics == match audio {
                Some(audio) => audio_memory(*audio),
                None => no_audio_memory(),
            },
    {
        match audio {
            None => AudioRuntimeMemoryDiagnostics::default(),
            Some(audio) => {
                let producer: usize = if audio.producer_render_block_bytes > usize::MAX as u64 {
                    usize::MAX
                } else {
                    audio.producer_render_block_bytes as usize
                };
                AudioRuntimeMemoryDiagnostics {
                    stream_open: true,
                    ring_retained_bytes: audio.ring_retained_bytes,
                    callback_scratch_bytes: audio.callback_scratch_bytes,
                    producer_render_block_bytes: audio.producer_render_block_bytes,
                    estimated_bytes: audio.ring_retained_bytes.saturating_add(
                        audio.callback_scratch_bytes,
                    ).saturating_add(producer),
                }
            },
        }
    }
}

/// The memory of all parts of playback, and their sum, cut off at the largest number.
pub open spec fn component_memory(
    soundfont_metadata: SoundFontMetadataDiagnostics,
    midi: MidiRuntimeMemoryDiagnostics,
    memory: Option<PlaybackMemoryDebug>,
    audio: Option<AudioDeviceDiagnostics>,
) -> PlaybackComponentMemoryDiagnostics {
    let rustystem = match memory {
        Some(memory) => synth_memory(memory),
        None => no_synth_memory(),
    };
    let audio = match audio {
        Some(audio) => audio_memory(audio),
        None => no_audio_memory(),
    };
    PlaybackComponentMemoryDiagnostics {
        soundfont_metadata,
        midi,
        rustystem,
        audio,
        tracked_total_bytes: usize_cap(
            soundfont_metadata.estimated_bytes + midi.estimated_bytes + rustystem.estimated_bytes
                + audio.estimated_bytes,
        ) as usize,
    }
}

pub fn component_memory_diagnostics(
    soundfont_metadata: SoundFontMetadataDiagnostics,
    midi: MidiRuntimeMemoryDiagnostics,
    memory: Option<&PlaybackMemoryDebug>,
    audio: Option<&AudioDeviceDiagnostics>,
) -> (diagnostics: PlaybackComponentMemoryDiagnostics)
    ensures
        diagnostics == component_memory(
            soundfont_metadata,
            midi,
            match memory {
                Some(memory) => Some(*memory),
                None => None,
            },
            match audio {
                Some(audio) => Some(*audio),
                None => None,
            },
        ),
{
    let rustystem = RustystemRuntimeDiagnostics::from_memory_debug(memory);
    let audio = AudioRuntimeMemoryDiagnostics::from_audio_diagnostics(audio);
    PlaybackComponentMemoryDiagnostics {
        soundfont_metadata,
        midi,
        rustystem,
        audio,
        tracked_total_bytes: soundfont_metadata.estimated_bytes.saturating_add(
            midi.estimated_bytes,
        ).saturating_add(rustystem.estimated_bytes).saturating_add(audio.estimated_bytes),
    }
}

/// The lifecycle with one more engine replaced.
pub open spec fn with_replacement(
    lifecycle: PlaybackLifecycleDiagnostics,
    memory: PlaybackMemoryDebug,
) -> PlaybackLifecycleDiagnostics {
    PlaybackLifecycleDiagnostics {
        engine_replacements: u64_cap(lifecycle.engine_replacements + 1) as u64,
        cumulative_replaced_engine_estimated_bytes: u64_cap(
            lifecycle.cumulative_replaced_engine_estimated_bytes + memory.estimated_bytes,
        ) as u64,
        last_replaced_engine_estimated_bytes: memory.estimated_bytes,
        last_replaced_engine_instances: memory.instance_count,
        last_replaced_stem_effects: memory.stem_effects,
        last_replaced_stem_effect_bytes: memory.stem_effect_bytes,
    }
}

impl PlaybackLifecycleDiagnostics {
    /// Notes that the engine is replaced, if there is one.
    pub fn record_engine_replacement(&mut self, engine: Option<&PlaybackMemoryDebug>)
        ensures
            *final(self) == match engine {
                Some(memory) => with_replacement(*old(self), *memory),
                None => *old(self),
            },
    {
        match engine {
            Some(memory) => {
                self.engine_replacements = self.engine_replacements.saturating_add(1);
                self.cumulative_replaced_engine_estimated_bytes =
                    self.cumulative_replaced_engine_estimated_bytes.saturating_add(
                    memory.estimated_bytes as u64,
                );
                self.last_replaced_engine_estimated_bytes = memory.estimated_bytes;
                self.last_replaced_engine_instances = memory.instance_count;
                self.last_replaced_stem_effects = memory.stem_effects;
                self.last_replaced_stem_effect_bytes = memory.stem_effect_bytes;
            },
            None => {},
        }
    }
}

/// The latency of an output. An output with a ring of its own queues frames in
/// the ring and in the device; another one queues in the device buffer alone,
/// which it shows as a ring.
pub open spec fn latency_of(audio: AudioDeviceDiagnostics) -> OutputLatencyBreakdown {
    if audio.ring_retained_bytes > 0 {
        let device = monus(
            audio.device_buffer_frames as int,
            audio.device_available_frames as int,
        );
        OutputLatencyBreakdown {
            total_frames: u64_cap(audio.ring_available_frames + device) as u64,
            wrapper_queue_frames: audio.ring_available_frames as u64,
            device_queue_frames: device as u64,
        }
    } else {
        let total = monus(
            audio.ring_capacity_frames as int,
            audio.ring_available_frames as int,
        );
        OutputLatencyBreakdown {
            total_frames: total as u64,
            wrapper_queue_frames: total as u64,
            device_queue_frames: 0,
        }
    }
}

pub fn output_latency_breakdown(audio: Option<&AudioDeviceDiagnostics>) -> (breakdown:
    OutputLatencyBreakdown)
    ensures
        breakdown == match audio {
            Some(audio) => latency_of(*audio),
            None => no_latency(),
        },
{
    match audio {
        None => OutputLatencyBreakdown::default(),
        Some(audio) => if audio.ring_retained_bytes > 0 {
            let device: u64 = audio.device_buffer_frames.saturating_sub(
                audio.device_available_frames,
            ) as u64;
            let wrapper: u64 = audio.ring_available_frames as u64;
            OutputLatencyBreakdown {
                total_frames: wrapper.saturating_add(device),
                wrapper_queue_frames: wrapper,
                device_queue_frames: device,
            }
        } else {
            let total: u64 = audio.ring_capacity_frames.saturating_sub(
                audio.ring_available_frames,
            ) as u64;
            OutputLatencyBreakdown {
                total_frames: total,
                wrapper_queue_frames: total,
                device_queue_frames: 0,
            }
        },
    }
}

/// The latency is what waits in the two queues.
pub proof fn latency_is_what_is_queued(audio: AudioDeviceDiagnostics)
    ensures
        latency_of(audio).total_frames == u64_cap(
            latency_of(audio).wrapper_queue_frames + latency_of(audio).device_queue_frames,
        ),
{
}

/// The tracked total covers each part of playback.
pub proof fn tracked_total_covers_its_parts(
    soundfont_metadata: SoundFontMetadataDiagnostics,
    midi: MidiRuntimeMemoryDiagnostics,
    memory: Option<PlaybackMemoryDebug>,
    audio: Option<AudioDeviceDiagnostics>,
)
    ensures
        ({
            let all = component_memory(soundfont_metadata, midi, memory, audio);
            &&& all.soundfont_metadata.estimated_bytes <= all.tracked_total_bytes
            &&& all.midi.estimated_bytes <= all.tracked_total_bytes
            &&& all.rustystem.estimated_bytes <= all.tracked_total_bytes
            &&& all.audio.estimated_bytes <= all.tracked_total_bytes
        }),
{
}

/// What the texts of a catalog entry take, given how much each of them has reserved.
pub fn soundfont_catalog_entry_string_bytes(
    internal_id: usize,
    display_name: usize,
    source_format: usize,
    storage_format: usize,
    runtime_format: usize,
) -> (bytes: usize)
    ensures
        bytes == usize_cap(
            internal_id + display_name + source_format + storage_format + runtime_format,
        ),
{
    internal_id.saturating_add(display_name).saturating_add(source_format).saturating_add(
        storage_format,
    ).saturating_add(runtime_format)
}

/// The parts of a coverage: how many there are of each, and what one takes.
#[derive(Debug, Copy, Clone, PartialEq, Eq, Structural)]
pub struct CoverageSizes {
    pub coverage_size: usize,
    pub preset_name_capacity: usize,
    pub preset_name_size: usize,
    pub preset_name_text_bytes: usize,
    pub bank_programs: usize,
    pub bank_program_size: usize,
    pub key_ranges: usize,
    pub key_range_size: usize,
}

impl CoverageSizes {
    /// Everything that is there fits in memory.
    pub open spec fn fits(self) -> bool {
        &&& self.preset_name_capacity * self.preset_name_size <= usize::MAX
        &&& self.bank_programs * self.bank_program_size <= usize::MAX
        &&& self.key_ranges * self.key_range_size <= usize::MAX
    }
}

/// What a coverage takes.
pub fn coverage_estimated_bytes(sizes: CoverageSizes) -> (bytes: usize)
    requires
        sizes.fits(),
    ensures
        bytes == usize_cap(
            sizes.coverage_size + sizes.preset_name_capacity * sizes.preset_name_size
                + sizes.preset_name_text_bytes + sizes.bank_programs * sizes.bank_program_size
                + sizes.key_ranges * sizes.key_range_size,
        ),
{
    assert(0 <= sizes.preset_name_capacity * sizes.preset_name_size) by (nonlinear_arith);
    assert(0 <= sizes.bank_programs * sizes.bank_program_size) by (nonlinear_arith);
    assert(0 <= sizes.key_ranges * sizes.key_range_size) by (nonlinear_arith);
    let name_slots: usize = sizes.preset_name_capacity * sizes.preset_name_size;
    let melodic: usize = sizes.bank_programs * sizes.bank_program_size;
    let percussion: usize = sizes.key_ranges * sizes.key_range_size;
    sizes.coverage_size.saturating_add(name_slots).saturating_add(
        sizes.preset_name_text_bytes,
    ).saturating_add(melodic).saturating_add(percussion)
}

/// What decoded audio keeps: the equalizer's input and state, the samples of its stream
/// and its own, given how many samples each has reserved.
pub fn retained_scratch_bytes(
    input_capacity: usize,
    equalizer_bytes: usize,
    stream_capacity: Option<usize>,
    sample_capacity: Option<usize>,
    sample_size: usize,
) -> (bytes: usize)
    ensures
        bytes == usize_cap(
            usize_cap(input_capacity * sample_size) + equalizer_bytes + (match stream_capacity {
                Some(capacity) => usize_cap(capacity * sample_size),
                None => 0,
            }) + (match sample_capacity {
                Some(capacity) => usize_cap(capacity * sample_size),
                None => 0,
            }),
        ),
{
    let stream_bytes: usize = match stream_capacity {
        Some(capacity) => saturating_mul_usize(capacity, sample_size),
        None => 0,
    };
    let sample_bytes: usize = match sample_capacity {
        Some(capacity) => saturating_mul_usize(capacity, sample_size),
        None => 0,
    };
    saturating_mul_usize(input_capacity, sample_size).saturating_add(
        equalizer_bytes,
    ).saturating_add(stream_bytes).saturating_add(sample_bytes)
}

/// A shared part is expected to be held once, and once more by an open output; what holds it
/// beyond that is in excess.
pub proof fn excess_references_are_told(counts: ReferenceCounts, audio_open: bool)
    ensures
        ({
            let part = part_references(counts, audio_open);
            &&& part.strong_count == counts.strong
            &&& part.weak_count == counts.weak
            &&& part.expected_strong_roots == if audio_open {
                2int
            } else {
                1
            }
            &&& counts.strong <= part.expected_strong_roots ==> part.excess_strong_count == 0
            &&& counts.strong >= part.expected_strong_roots ==> part.excess_strong_count
                + part.expected_strong_roots == counts.strong
        }),
{
}

/// An output with a ring of its own waits for what the ring holds and for what the device has
/// not taken; one without waits for what is taken of the device.
pub proof fn latency_counts_the_queues(audio: AudioDeviceDiagnostics)
    requires
        audio.device_available_frames <= audio.device_buffer_frames,
        audio.ring_available_frames <= audio.ring_capacity_frames,
        audio.ring_available_frames + audio.device_buffer_frames <= u64::MAX,
        audio.ring_capacity_frames <= u64::MAX,
    ensures
        ({
            let latency = latency_of(audio);
            &&& audio.ring_retained_bytes > 0 ==> {
                &&& latency.wrapper_queue_frames == audio.ring_available_frames
                &&& latency.device_queue_frames + audio.device_available_frames
                    == audio.device_buffer_frames
                &&& latency.total_frames == latency.wrapper_queue_frames
                    + latency.device_queue_frames
            }
            &&& audio.ring_retained_bytes == 0 ==> latency.total_frames
                + audio.ring_available_frames == audio.ring_capacity_frames
        }),
{
}

/// A replaced engine is counted once, and the last one is told of with what it took.
pub proof fn replaced_engines_are_counted(
    lifecycle: PlaybackLifecycleDiagnostics,
    memory: PlaybackMemoryDebug,
)
    ensures
        ({
            let after = with_replacement(lifecycle, memory);
            &&& lifecycle.engine_replacements < u64::MAX ==> after.engine_replacements
                == lifecycle.engine_replacements + 1
            &&& lifecycle.cumulative_replaced_engine_estimated_bytes + memory.estimated_bytes
                <= u64::MAX ==> after.cumulative_replaced_engine_estimated_bytes
                - lifecycle.cumulative_replaced_engine_estimated_bytes == memory.estimated_bytes
            &&& after.last_replaced_engine_estimated_bytes == memory.estimated_bytes
            &&& after.last_replaced_engine_instances == memory.instance_count
            &&& after.last_replaced_stem_effects == memory.stem_effects
            &&& after.last_replaced_stem_effect_bytes == memory.stem_effect_bytes
        }),
{
}

/// What playback takes is the sum of its parts, each as it was measured: the synthesizer
/// without the MIDI file that it holds, which is counted with the MIDI data, and the output
/// only while it is open.
pub proof fn memory_is_the_sum_of_its_parts(
    soundfont_metadata: SoundFontMetadataDiagnostics,
    midi: MidiRuntimeMemoryDiagnostics,
    memory: Option<PlaybackMemoryDebug>,
    audio: Option<AudioDeviceDiagnostics>,
)
    ensures
        ({
            let all = component_memory(soundfont_metadata, midi, memory, audio);
            let sum = all.soundfont_metadata.estimated_bytes + all.midi.estimated_bytes
                + all.rustystem.estimated_bytes + all.audio.estimated_bytes;
            &&& all.soundfont_metadata == soundfont_metadata
            &&& all.midi == midi
            &&& sum <= usize::MAX ==> all.tracked_total_bytes == sum
            &&& memory is None ==> all.rustystem.estimated_bytes == 0
            &&& memory is Some && memory->Some_0.midi_file is None
                ==> all.rustystem.estimated_bytes == memory->Some_0.estimated_bytes
            &&& memory is Some && memory->Some_0.midi_file is Some
                && memory->Some_0.midi_file->Some_0.estimated_bytes
                <= memory->Some_0.estimated_bytes ==> all.rustystem.estimated_bytes
                + memory->Some_0.midi_file->Some_0.estimated_bytes
                == memory->Some_0.estimated_bytes
            &&& memory is Some ==> all.rustystem.instance_count == memory->Some_0.instance_count
                && all.rustystem.soundfont_wave_bytes == memory->Some_0.soundfont_wave_bytes
            &&& all.audio.stream_open == (audio is Some)
            &&& audio is None ==> all.audio.estimated_bytes == 0
            &&& audio is Some && audio->Some_0.ring_retained_bytes
                + audio->Some_0.callback_scratch_bytes
                + audio->Some_0.producer_render_block_bytes <= usize::MAX
                ==> all.audio.estimated_bytes == audio->Some_0.ring_retained_bytes
                + audio->Some_0.callback_scratch_bytes
                + audio->Some_0.producer_render_block_bytes
        }),
{
}

} // verus!
