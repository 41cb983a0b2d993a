//! The state of playback at one moment, for the debug views and the traces.
use crate::perf_snapshots::{PerfMemoryInstanceSnapshot, PerfSoundFontCacheSnapshot};
use crate::numbers::monus;
use crate::playback::backend::AudioBackend;
use crate::playback::churn::RenderChurnDiagnostics;
use crate::playback::controller::{copy_profile, same_profile, PlaybackController};
use crate::playback::decoded::DecodedPlaybackState;
use crate::playback::demand::MidiDemandProfile;
use crate::playback::diagnostics::{AudioDeviceDiagnostics, PlaybackComponentMemoryDiagnostics};
use crate::playback::diagnostics::{PlaybackLifecycleDiagnostics, PlaybackMemoryDebug};
use crate::playback::diagnostics::PlaybackReferenceDiagnostics;
use crate::playback::flux_guard::FluxGuardSnapshot;
use crate::playback::fonts::PlaybackSoundFontLoadDiagnostics;
use crate::playback::history::newest_at;
use crate::playback::snapshot::{active_strip_count, active_strips};
use crate::playback::subset::{copy_loaded_states, loaded_views, LoadedSubsetState};
use crate::playback::subset::{plan_sums, signature_of, sums_fit};
use crate::playback::subset::{PlaybackSubsetTransitionDiagnostics, SoundFontSubsetPlanAggregateDebug};
use crate::json::optional_text;
use crate::playback::transport::PlaybackState;
use crate::text_map::TextMap;
use vstd::prelude::*;
use vstd::string::*;

verus! {

/// The state of playback. Times and levels are decimal texts: seconds and
/// milliseconds with three decimals, levels with six.
#[derive(Debug)]
pub struct PlaybackDebugMetrics {
    pub engine_state: String,
    pub transport_seconds: String,
    pub transport_duration_seconds: String,
    pub transport_tick: u64,
    pub loaded_soundfont_count: usize,
    pub requested_soundfont_count: usize,
    pub loaded_provider_count: usize,
    pub pruned_soundfont_count: usize,
    pub loaded_midi_bytes: usize,
    pub loaded_midi_capacity_bytes: usize,
    pub midi_strip_count: usize,
    pub midi_demand: MidiDemandProfile,
    pub subset_plans: SoundFontSubsetPlanAggregateDebug,
    pub loaded_subset_state: TextMap<LoadedSubsetState>,
    pub subset_transition: PlaybackSubsetTransitionDiagnostics,
    pub soundfont_load: PlaybackSoundFontLoadDiagnostics,
    pub output_peak: String,
    pub output_rms: String,
    pub meter_latency_frames: u64,
    pub meter_latency_ms: String,
    pub meter_wrapper_queue_frames: u64,
    pub meter_device_queue_frames: u64,
    pub live_frame_clock: u64,
    pub audible_frame_clock: u64,
    pub active_strip_count: usize,
    pub audio_status: String,
    pub audio_error: Option<String>,
    pub audio_backend: AudioBackend,
    pub sample_rate: u32,
    pub channels: u16,
    pub block_frames: u16,
    pub audio_diagnostics: Option<AudioDeviceDiagnostics>,
    pub flux_guard: FluxGuardSnapshot,
    pub memory_debug: Option<PlaybackMemoryDebug>,
    pub memory_instances: Vec<PerfMemoryInstanceSnapshot>,
    pub render_churn: RenderChurnDiagnostics,
    pub lifecycle: PlaybackLifecycleDiagnostics,
    pub soundfont_cache: PerfSoundFontCacheSnapshot,
    pub component_memory: PlaybackComponentMemoryDiagnostics,
    pub references: PlaybackReferenceDiagnostics,
}

impl PlaybackDebugMetrics {
    /// The underruns of the audio output so far.
    pub open spec fn underruns(&self) -> u64 {
        match self.audio_diagnostics {
            Some(audio) => audio.stats.underrun_count,
            None => 0,
        }
    }

    /// The queue errors of the audio output so far.
    pub open spec fn queue_errors(&self) -> u64 {
        match self.audio_diagnostics {
            Some(audio) => audio.stats.queue_error_count,
            None => 0,
        }
    }

    /// The callbacks of the audio output so far.
    pub open spec fn callbacks(&self) -> u64 {
        match self.audio_diagnostics {
            Some(audio) => audio.stats.callback_count,
            None => 0,
        }
    }

    pub fn underrun_count(&self) -> (count: u64)
        ensures
            count == self.underruns(),
    {
        match &self.audio_diagnostics {
            Some(audio) => audio.stats.underrun_count,
            None => 0,
        }
    }

    pub fn queue_error_count(&self) -> (count: u64)
        ensures
            count == self.queue_errors(),
    {
        match &self.audio_diagnostics {
            Some(audio) => audio.stats.queue_error_count,
            None => 0,
        }
    }

    pub fn callback_count(&self) -> (count: u64)
        ensures
            count == self.callbacks(),
    {
        match &self.audio_diagnostics {
            Some(audio) => audio.stats.callback_count,
            None => 0,
        }
    }
}

/// What the engine says of itself. Seconds are a decimal text.
#[derive(Debug)]
pub struct EngineMetrics {
    pub state: PlaybackState,
    pub seconds: String,
    pub tick: u64,
    pub memory: PlaybackMemoryDebug,
}

/// What the parts outside of the controller say for the debug views. Times and
/// levels are decimal texts.
#[derive(Debug)]
pub struct OutsideMetrics {
    pub engine: Option<EngineMetrics>,
    pub decoded_seconds: String,
    pub midi_duration: String,
    pub decoded_duration: String,
    pub zero_seconds: String,
    pub output_peak: String,
    pub output_rms: String,
    pub meter_latency_ms: String,
    pub midi_capacity: usize,
    pub device_name: Option<String>,
    pub audio_diagnostics: Option<AudioDeviceDiagnostics>,
    pub memory_instances: Vec<PerfMemoryInstanceSnapshot>,
    pub soundfont_cache: PerfSoundFontCacheSnapshot,
    pub component_memory: PlaybackComponentMemoryDiagnostics,
    pub references: PlaybackReferenceDiagnostics,
}

/// The state of playback as text: the engine's, else that of decoded audio.
pub open spec fn state_text<S>(controller: PlaybackController<S>, outside: OutsideMetrics) -> Seq<
    char,
> {
    match outside.engine {
        Some(engine) => engine.state.text(),
        None => match controller.decoded {
            Some(decoded) => match decoded.state {
                DecodedPlaybackState::Stopped => "Stopped"@,
                DecodedPlaybackState::Playing => "Playing"@,
                DecodedPlaybackState::Paused => "Paused"@,
            },
            None => "unloaded"@,
        },
    }
}

/// The position in seconds.
pub open spec fn position_text<S>(controller: PlaybackController<S>, outside: OutsideMetrics) -> Seq<
    char,
> {
    match outside.engine {
        Some(engine) => engine.seconds@,
        None => if controller.decoded is Some {
            outside.decoded_seconds@
        } else {
            outside.zero_seconds@
        },
    }
}

/// The position in ticks or frames.
pub open spec fn position_tick<S>(controller: PlaybackController<S>, outside: OutsideMetrics) -> u64 {
    match outside.engine {
        Some(engine) => engine.tick,
        None => match controller.decoded {
            Some(decoded) => decoded.position_frame,
            None => 0,
        },
    }
}

impl<S> PlaybackController<S> {
    /// The state of playback for the debug views.
    pub fn debug_metrics(&self, outside: OutsideMetrics) -> (metrics: PlaybackDebugMetrics)
        requires
            self.wf(),
            sums_fit(plan_sums(self.last_subset_plans.entries@)),
        ensures
            metrics.engine_state@ == state_text(*self, outside),
            metrics.transport_seconds@ == position_text(*self, outside),
            metrics.transport_tick == position_tick(*self, outside),
            metrics.transport_duration_seconds == if self.decoded is Some {
                outside.decoded_duration
            } else {
                outside.midi_duration
            },
            metrics.loaded_soundfont_count == self.loaded_soundfonts@.len(),
            metrics.requested_soundfont_count
                == self.last_soundfont_demand.requested_soundfont_count,
            metrics.loaded_provider_count == self.last_soundfont_demand.loaded_provider_count,
            metrics.pruned_soundfont_count == self.last_soundfont_demand.pruned_soundfont_count,
            metrics.loaded_midi_bytes == match self.loaded_midi_bytes {
                Some(bytes) => bytes@.len(),
                None => 0,
            },
            metrics.loaded_midi_capacity_bytes == if self.loaded_midi_bytes is Some {
                outside.midi_capacity
            } else {
                0
            },
            metrics.midi_strip_count == self.midi_strips@.len(),
            same_profile(metrics.midi_demand, self.last_demand_profile),
            metrics.loaded_subset_state.wf(),
            loaded_views(metrics.loaded_subset_state.entries@) == loaded_views(
                self.loaded_subset_state.entries@,
            ),
            ({
                let sums = plan_sums(self.last_subset_plans.entries@);
                let plans = metrics.subset_plans;
                &&& plans.plan_count == self.last_subset_plans.entries@.len()
                &&& plans.preset_count == sums.presets
                &&& plans.instrument_count == sums.instruments
                &&& plans.sample_count == sums.samples
                &&& plans.logical_wave_range_count == sums.wave_ranges
                &&& plans.planned_range_count == sums.planned_ranges
                &&& plans.planned_byte_count == sums.planned_bytes
                &&& plans.index_json_plan_count == sums.index_plans
                &&& plans.signatures@.len() == self.last_subset_plans.entries@.len()
                &&& forall|i: int|
                    0 <= i < plans.signatures@.len() ==> (#[trigger] plans.signatures@[i])@
                        == signature_of(self.last_subset_plans.entries@[i].1@)
            }),
            metrics.subset_transition == self.subset_transition,
            metrics.soundfont_load == self.last_soundfont_load,
            metrics.output_peak == outside.output_peak,
            metrics.output_rms == outside.output_rms,
            metrics.meter_latency_ms == outside.meter_latency_ms,
            ({
                let latency = self.latency(outside.audio_diagnostics);
                let heard = newest_at(
                    self.history.frames@,
                    self.history.frames@.len() as int,
                    monus(self.rendered_frame_clock as int, latency.total_frames as int),
                );
                &&& metrics.meter_latency_frames == latency.total_frames
                &&& metrics.meter_wrapper_queue_frames == latency.wrapper_queue_frames
                &&& metrics.meter_device_queue_frames == latency.device_queue_frames
                &&& metrics.active_strip_count == match heard {
                    Some(snapshot) => active_strips(snapshot.strips@).len(),
                    None => 0,
                }
            }),
            metrics.live_frame_clock == self.rendered_frame_clock,
            metrics.audible_frame_clock == self.rendered_frame_clock,
            metrics.audio_status@ == self.audio_text(optional_text(outside.device_name)),
            optional_text(metrics.audio_error) == optional_text(self.audio_error),
            metrics.audio_backend == self.audio_backend,
            metrics.sample_rate == self.audio_config.sample_rate,
            metrics.channels == self.audio_config.channels,
            metrics.block_frames == self.audio_config.internal_block_frames,
            metrics.audio_diagnostics == if self.audio_open {
                outside.audio_diagnostics
            } else {
                None
            },
            metrics.flux_guard == self.flux_guard.snapshot_of(),
            metrics.memory_debug == match outside.engine {
                Some(engine) => Some(engine.memory),
                None => None,
            },
            metrics.memory_instances == outside.memory_instances,
            metrics.render_churn == self.render_churn,
            metrics.lifecycle == self.lifecycle,
            metrics.soundfont_cache == outside.soundfont_cache,
            metrics.component_memory == outside.component_memory,
            metrics.references == outside.references,
    {
        let view = self.audible_output_view(outside.audio_diagnostics.as_ref());
        let active: usize = match view.snapshot {
            Some(snapshot) => active_strip_count(&snapshot.strips),
            None => 0,
        };
        let latency_frames: u64 = view.effective_latency_frames;
        let wrapper_frames: u64 = view.wrapper_queue_frames;
        let device_frames: u64 = view.device_queue_frames;
        let audio_status = match &outside.device_name {
            Some(name) => self.audio_status_text(Some(name.as_str())),
            None => self.audio_status_text(None),
        };
        let (state, seconds, tick, memory) = match outside.engine {
            Some(engine) => (
                engine.state.label().to_owned(),
                engine.seconds,
                engine.tick,
                Some(engine.memory),
            ),
            None => match &self.decoded {
                Some(decoded) => (
                    decoded.state_label().to_owned(),
                    outside.decoded_seconds,
                    decoded.position_frame,
                    None,
                ),
                None => ("unloaded".to_owned(), outside.zero_seconds, 0, None),
            },
        };
        let (midi_bytes, midi_capacity): (usize, usize) = match &self.loaded_midi_bytes {
            Some(bytes) => (bytes.len(), outside.midi_capacity),
            None => (0, 0),
        };
        PlaybackDebugMetrics {
            engine_state: state,
            transport_seconds: seconds,
            transport_duration_seconds: if self.decoded.is_some() {
                outside.decoded_duration
            } else {
                outside.midi_duration
            },
            transport_tick: tick,
            loaded_soundfont_count: self.loaded_soundfonts.len(),
            requested_soundfont_count: self.last_soundfont_demand.requested_soundfont_count,
            loaded_provider_count: self.last_soundfont_demand.loaded_provider_count,
            pruned_soundfont_count: self.last_soundfont_demand.pruned_soundfont_count,
            loaded_midi_bytes: midi_bytes,
            loaded_midi_capacity_bytes: midi_capacity,
            midi_strip_count: self.midi_strips.len(),
            midi_demand: copy_profile(&self.last_demand_profile),
            loaded_subset_state: copy_loaded_states(&self.loaded_subset_state),
            subset_plans: SoundFontSubsetPlanAggregateDebug::from_plans(&self.last_subset_plans),
            subset_transition: self.subset_transition,
            soundfont_load: self.last_soundfont_load,
            output_peak: outside.output_peak,
            output_rms: outside.output_rms,
            meter_latency_frames: latency_frames,
            meter_latency_ms: outside.meter_latency_ms,
            meter_wrapper_queue_frames: wrapper_frames,
            meter_device_queue_frames: device_frames,
            live_frame_clock: self.rendered_frame_clock,
            audible_frame_clock: self.rendered_frame_clock,
            active_strip_count: active,
            audio_status,
            audio_error: match &self.audio_error {
                Some(error) => Some(error.clone()),
                None => None,
            },
            audio_backend: self.audio_backend,
            sample_rate: self.audio_config.sample_rate,
            channels: self.audio_config.channels,
            block_frames: self.audio_config.internal_block_frames,
            audio_diagnostics: if self.audio_open {
                outside.audio_diagnostics
            } else {
                None
            },
            flux_guard: self.flux_guard.snapshot(),
            memory_debug: memory,
            memory_instances: outside.memory_instances,
            render_churn: self.render_churn,
            lifecycle: self.lifecycle,
            soundfont_cache: outside.soundfont_cache,
            component_memory: outside.component_memory,
            references: outside.references,
        }
    }
}

/// The state and the place of playback are those of the engine where there is one, and those
/// of decoded audio where there is none.
pub proof fn metrics_follow_what_plays<S>(
    controller: PlaybackController<S>,
    outside: OutsideMetrics,
)
    ensures
        outside.engine is Some ==> position_tick(controller, outside)
            == outside.engine->Some_0.tick && state_text(controller, outside)
            == outside.engine->Some_0.state.text() && position_text(controller, outside)
            == outside.engine->Some_0.seconds@,
        outside.engine is None && controller.decoded is Some ==> position_tick(controller, outside)
            == controller.decoded->Some_0.position_frame && position_text(controller, outside)
            == outside.decoded_seconds@,
        outside.engine is None && controller.decoded is Some && controller.decoded->Some_0.state
            == DecodedPlaybackState::Playing ==> state_text(controller, outside) == "Playing"@,
        outside.engine is None && controller.decoded is Some && controller.decoded->Some_0.state
            == DecodedPlaybackState::Paused ==> state_text(controller, outside) == "Paused"@,
        outside.engine is None && controller.decoded is Some && controller.decoded->Some_0.state
            == DecodedPlaybackState::Stopped ==> state_text(controller, outside) == "Stopped"@,
        outside.engine is None && controller.decoded is None ==> position_tick(controller, outside)
            == 0 && position_text(controller, outside) == outside.zero_seconds@,
{
}

} // verus!
