//! The playback controller: what is loaded, whether the audio output is open, and
//! what each request of the user does to both.
//!
//! The synthesizer, the mixer and the audio output live outside. The controller
//! says what is to be asked of them and takes in what they answer.
use crate::catalog::{SoundFontCatalogEntry, SoundFontCoverage};
use crate::error::{ErrorKind, FlutzError};
use crate::json::optional_text;
use crate::numbers::u64_cap;
use crate::playback::backend::AudioBackend;
use crate::playback::churn::{no_churn_recorded, RenderChurnDiagnostics, RenderChurnSnapshot};
use crate::playback::decoded::{DecodedAudioPlaybackState, DecodedPlaybackState};
use crate::playback::decoded::{DecodedStreamCache, DecodedStreamCacheDebug, PlaybackLoopSettings};
use crate::playback::demand::{requested_count, resolve_soundfont_ids, resolved_ids, served_count};
use crate::playback::demand::{soundfont_demand_diagnostics, MidiDemandProfile};
use crate::playback::demand::SoundFontDemandDiagnostics;
use crate::playback::diagnostics::{latency_of, no_latency, output_latency_breakdown};
use crate::playback::diagnostics::{AudioDeviceDiagnostics, OutputLatencyBreakdown};
use crate::playback::diagnostics::{no_lifecycle, with_replacement};
use crate::playback::diagnostics::{PlaybackLifecycleDiagnostics, PlaybackMemoryDebug};
use crate::playback::flux_guard::{fresh_guard, no_audio_decision, FluxGuard, RenderAheadState};
use crate::playback::flux_guard::RenderAheadTarget;
use crate::playback::fonts::{finish_soundfont_load, no_load, FontOutcome};
use crate::playback::fonts::{counted_outcomes, index_plans, loaded_states, plan_views, state_views};
use crate::playback::fonts::PlaybackSoundFontLoadDiagnostics;
use crate::playback::history::{newest_at, pruned, retention, SnapshotFrame, SnapshotHistory};
use crate::playback::load::{same_texts, MidiFileScan};
use crate::playback::routing::MeterReading;
use crate::playback::snapshot::RealtimeMixerSnapshot;
use crate::playback::strips::{MidiStripDescriptor, MixerStripControls};
use crate::playback::subset::{kept_views, loaded_subset_state_satisfies, no_transition};
use crate::playback::subset::{loaded_views, satisfies_plans, transition_of};
use crate::playback::subset::{LoadedSubsetState, PlaybackSubsetTransitionDiagnostics};
use crate::playback::subset::{SoundFontSubsetPlanDebug, SubsetReuse};
use crate::playback::trace::PlaybackMidiScanDiagnostics;
use crate::playback::transport::{is_no_transport, MidiTransportMetadata, PlaybackState, Seconds};
use crate::numbers::{max_of, monus};
use crate::text::{clone_texts, decimal, push_decimal, texts};
use crate::text_map::TextMap;
use std::collections::BTreeMap;
use vstd::prelude::*;
use vstd::string::*;

verus! {

/// The settings of the audio output.
#[derive(Debug, Copy, Clone, PartialEq, Eq, Structural)]
pub struct AudioDeviceConfig {
    pub sample_rate: u32,
    pub channels: u16,
    pub internal_block_frames: u16,
}

/// Whether playback is heard.
#[derive(Debug)]
pub enum AudioPlaybackStatus {
    Audible,
    AudioUnavailable(String),
}

/// What has to be done to start playing.
#[derive(Debug, Copy, Clone, PartialEq, Eq, Structural)]
pub enum PlayStart {
    /// Decoded audio was started.
    Decoded,
    /// The engine goes on.
    ResumeEngine,
    /// The engine starts anew.
    PlayEngine,
}

/// The audio output that is to be opened.
#[derive(Debug, Copy, Clone, PartialEq, Eq, Structural)]
pub enum StreamRequest {
    /// None: there is one.
    AlreadyOpen,
    /// One that plays decoded audio.
    Decoded { backend: AudioBackend, config: AudioDeviceConfig },
    /// One that plays the engine.
    Engine { backend: AudioBackend, config: AudioDeviceConfig },
}

/// What carries out a request.
#[derive(Debug, Copy, Clone, PartialEq, Eq, Structural)]
pub enum TransportTarget {
    /// Decoded audio, which did.
    Decoded,
    /// The engine, which is to be asked.
    Engine,
    /// Nothing is loaded.
    Nothing,
}

/// Which step failed when playback was started.
#[derive(Debug, Copy, Clone, PartialEq, Eq, Structural)]
pub enum PlayFailure {
    Open,
    Resume,
}

/// The position to go back to when soundfonts change under the same MIDI file.
#[derive(Debug, Copy, Clone, PartialEq, Eq, Structural)]
pub struct RenderLayerTransition {
    pub warmup_tick: Option<u64>,
}

/// What is known of decoded audio.
#[derive(Debug)]
pub struct DecodedAudioTransportMetadata {
    pub path: String,
    pub format_id: String,
    pub friendly_name: String,
    pub sample_rate: u32,
    pub channels: u16,
    pub frame_length: u64,
    pub duration_seconds: Seconds,
}

/// The live view of the output, or the one that is heard.
#[derive(Debug, Copy, Clone, PartialEq, Eq, Structural)]
pub enum OutputViewKind {
    Live,
    Audible,
}

/// A view of the output. There is no snapshot while nothing was rendered, or
/// nothing old enough to be heard.
pub struct OutputViewSnapshot<'a> {
    pub kind: OutputViewKind,
    pub rendered_frame_clock: u64,
    pub effective_latency_frames: u64,
    pub wrapper_queue_frames: u64,
    pub device_queue_frames: u64,
    pub snapshot: Option<&'a RealtimeMixerSnapshot>,
}

/// The report of a test rendering.
#[derive(Debug, Copy, Clone, PartialEq, Eq, Structural)]
pub struct RenderProbeReport {
    pub frames: usize,
    pub samples: usize,
    pub peak: crate::level::Level,
    pub soundfont_count: usize,
    pub midi_strip_count: usize,
    pub recovered_error_count: usize,
}

/// A block that was rendered.
#[derive(Debug)]
pub struct RenderedBlock {
    pub frames: usize,
    pub snapshot: RealtimeMixerSnapshot,
    pub churn: RenderChurnSnapshot,
}

/// What the visualizer is handed after a block.
#[derive(Debug, Copy, Clone, PartialEq, Eq, Structural)]
pub enum VisualizerStep {
    /// The block.
    Ingest { frames: usize },
    /// Silence of that length.
    Silence { frames: usize },
}

/// The report of a test rendering of decoded audio.
#[derive(Debug, Copy, Clone, PartialEq, Eq, Structural)]
pub struct DecodedRenderProbeReport {
    pub frames: usize,
    pub samples: usize,
    pub meter: MeterReading,
    pub peq_generation: u64,
    pub scratch_growth_bytes: usize,
}

/// The controls of the strips, by their numbers. Those of the whole mix live with the
/// mixer.
#[derive(Debug)]
pub struct MixerControlState {
    pub strip_controls: BTreeMap<u64, MixerStripControls>,
}

impl Default for MixerControlState {
    fn default() -> (controls: MixerControlState)
        ensures
            controls.strip_controls@ == Map::<u64, MixerStripControls>::empty(),
    {
        MixerControlState { strip_controls: BTreeMap::new() }
    }
}

/// The playback controller. `S` is the type of audio samples.
pub struct PlaybackController<S> {
    pub mixer_controls: MixerControlState,
    pub catalog: Vec<SoundFontCatalogEntry>,
    pub audio_backend: AudioBackend,
    pub audio_open: bool,
    pub audio_config: AudioDeviceConfig,
    pub flux_guard: FluxGuard,
    pub audio_error: Option<String>,
    pub engine_loaded: bool,
    pub decoded: Option<DecodedAudioPlaybackState<S>>,
    pub decoded_metadata: Option<DecodedAudioTransportMetadata>,
    pub loaded_midi: Option<String>,
    pub loaded_midi_bytes: Option<Vec<u8>>,
    pub loaded_soundfonts: Vec<String>,
    pub loaded_coverages: TextMap<SoundFontCoverage>,
    pub midi_transport: MidiTransportMetadata,
    pub midi_strips: Vec<MidiStripDescriptor>,
    pub rendered_frame_clock: u64,
    pub history: SnapshotHistory<RealtimeMixerSnapshot>,
    pub render_churn: RenderChurnDiagnostics,
    pub lifecycle: PlaybackLifecycleDiagnostics,
    pub last_demand_profile: MidiDemandProfile,
    pub last_midi_scan: PlaybackMidiScanDiagnostics,
    pub last_soundfont_demand: SoundFontDemandDiagnostics,
    pub loaded_subset_state: TextMap<LoadedSubsetState>,
    pub subset_transition: PlaybackSubsetTransitionDiagnostics,
    pub last_subset_plans: TextMap<SoundFontSubsetPlanDebug>,
    pub last_soundfont_load: PlaybackSoundFontLoadDiagnostics,
}

/// The error of an output that failed.
pub open spec fn failure_text(what: Seq<char>, error: Seq<char>) -> Seq<char> {
    what + error
}

fn failure(what: &str, error: &str) -> (text: String)
    ensures
        text@ == failure_text(what@, error@),
{
    let mut text = what.to_owned();
    text.append(error);
    text
}

/// No snapshot.
pub open spec fn is_silent(history: SnapshotHistory<RealtimeMixerSnapshot>) -> bool {
    history.frames@.len() == 0
}

/// Nothing is asked of a demand.
pub open spec fn is_no_profile(profile: MidiDemandProfile) -> bool {
    &&& profile.channel_roles@.len() == 0
    &&& profile.melodic_programs@.len() == 0
    &&& profile.percussion_channels@.len() == 0
}

fn no_profile() -> (profile: MidiDemandProfile)
    ensures
        is_no_profile(profile),
{
    MidiDemandProfile {
        channel_roles: Vec::new(),
        melodic_programs: Vec::new(),
        percussion_channels: Vec::new(),
    }
}

/// Nothing was found in a scan.
pub open spec fn is_no_scan(scan: PlaybackMidiScanDiagnostics) -> bool {
    &&& scan.loop_style@.len() == 0
    &&& scan.system_modes@.len() == 0
    &&& scan.percussion_channels@.len() == 0
    &&& scan.warnings@.len() == 0
    &&& scan.sysex_event_count == 0
    &&& scan.recognized_sysex_event_count == 0
    &&& scan.sysex_events@.len() == 0
}

/// What paused decoded audio is.
pub open spec fn paused<S>(decoded: Option<DecodedAudioPlaybackState<S>>) -> Option<
    DecodedAudioPlaybackState<S>,
> {
    match decoded {
        Some(decoded) => Some(decoded.paused()),
        None => None,
    }
}

/// What stopped decoded audio is.
pub open spec fn stopped<S>(decoded: Option<DecodedAudioPlaybackState<S>>) -> Option<
    DecodedAudioPlaybackState<S>,
> {
    match decoded {
        Some(decoded) => Some(decoded.stopped()),
        None => None,
    }
}

/// The history with one more snapshot.
pub open spec fn recorded_frames(
    frames: Seq<SnapshotFrame<RealtimeMixerSnapshot>>,
    end: u64,
    snapshot: RealtimeMixerSnapshot,
    sample_rate: u32,
) -> Seq<SnapshotFrame<RealtimeMixerSnapshot>> {
    pruned(
        frames.push(SnapshotFrame { rendered_frame_end: end, snapshot }),
        monus(end as int, retention(sample_rate)),
    )
}

impl<S> PlaybackController<S> {
    /// What is loaded holds together.
    pub open spec fn wf(&self) -> bool {
        &&& match self.decoded {
            Some(decoded) => decoded.wf() && self.decoded_metadata is Some,
            None => self.decoded_metadata is None,
        }
        &&& self.loaded_coverages.wf()
        &&& self.loaded_subset_state.wf()
        &&& self.last_subset_plans.wf()
    }

    /// Nothing is loaded.
    pub open spec fn is_unloaded(&self) -> bool {
        &&& self.decoded is None
        &&& self.decoded_metadata is None
        &&& !self.engine_loaded
        &&& self.loaded_midi is None
        &&& self.loaded_midi_bytes is None
        &&& self.loaded_soundfonts@.len() == 0
        &&& self.loaded_coverages.entries@.len() == 0
        &&& self.loaded_subset_state.entries@.len() == 0
        &&& self.last_subset_plans.entries@.len() == 0
        &&& self.subset_transition == no_transition()
        &&& is_no_transport(self.midi_transport)
        &&& self.midi_strips@.len() == 0
    }

    /// A controller that has loaded nothing.
    pub fn new(
        catalog: Vec<SoundFontCatalogEntry>,
        audio_backend: AudioBackend,
        audio_config: AudioDeviceConfig,
    ) -> (controller: PlaybackController<S>)
        ensures
            controller.wf(),
            controller.is_unloaded(),
            controller.catalog == catalog,
            controller.audio_backend == audio_backend,
            controller.audio_config == audio_config,
            !controller.audio_open,
            controller.audio_error is None,
            controller.flux_guard == fresh_guard(),
            controller.rendered_frame_clock == 0,
            is_silent(controller.history),
            controller.render_churn == no_churn_recorded(),
            controller.lifecycle == no_lifecycle(),
            is_no_profile(controller.last_demand_profile),
            is_no_scan(controller.last_midi_scan),
            controller.last_soundfont_demand.requested_soundfont_count == 0,
            controller.last_soundfont_demand.loaded_provider_count == 0,
            controller.last_soundfont_demand.pruned_soundfont_count == 0,
            is_no_profile(controller.last_soundfont_demand.demand_profile),
            controller.last_soundfont_load == no_load(),
            controller.mixer_controls.strip_controls@ == Map::<u64, MixerStripControls>::empty(),
    {
        PlaybackController {
            mixer_controls: MixerControlState::default(),
            catalog,
            audio_backend,
            audio_open: false,
            audio_config,
            flux_guard: FluxGuard::default(),
            audio_error: None,
            engine_loaded: false,
            decoded: None,
            decoded_metadata: None,
            loaded_midi: None,
            loaded_midi_bytes: None,
            loaded_soundfonts: Vec::new(),
            loaded_coverages: TextMap::new(),
            midi_transport: MidiTransportMetadata::default(),
            midi_strips: Vec::new(),
            rendered_frame_clock: 0,
            history: SnapshotHistory::new(),
            render_churn: RenderChurnDiagnostics::default(),
            lifecycle: PlaybackLifecycleDiagnostics::default(),
            last_demand_profile: no_profile(),
            last_midi_scan: PlaybackMidiScanDiagnostics {
                loop_style: String::new(),
                system_modes: Vec::new(),
                percussion_channels: Vec::new(),
                warnings: Vec::new(),
                sysex_event_count: 0,
                recognized_sysex_event_count: 0,
                sysex_events: Vec::new(),
            },
            last_soundfont_demand: SoundFontDemandDiagnostics {
                requested_soundfont_count: 0,
                loaded_provider_count: 0,
                pruned_soundfont_count: 0,
                demand_profile: no_profile(),
            },
            loaded_subset_state: TextMap::new(),
            subset_transition: PlaybackSubsetTransitionDiagnostics::default(),
            last_subset_plans: TextMap::new(),
            last_soundfont_load: PlaybackSoundFontLoadDiagnostics::default(),
        }
    }

    /// Drops decoded audio.
    pub fn release_decoded(&mut self)
        requires
            old(self).wf(),
        ensures
            final(self).wf(),
            *final(self) == (PlaybackController {
                decoded: None,
                decoded_metadata: None,
                ..*old(self)
            }),
    {
        self.decoded = None;
        self.decoded_metadata = None;
    }

    /// Begins to load a MIDI file: notes what it asks for and chooses the
    /// soundfonts for it.
    pub fn begin_midi_load(&mut self, scan: MidiFileScan, requested: &[String]) -> (ids: Result<
        Vec<String>,
        FlutzError,
    >)
        requires
            old(self).wf(),
        ensures
            final(self).wf(),
            *final(self) == (PlaybackController {
                decoded: None,
                decoded_metadata: None,
                last_demand_profile: scan.demand_profile,
                last_midi_scan: scan.diagnostics,
                last_soundfont_demand: final(self).last_soundfont_demand,
                ..*old(self)
            }),
            match ids {
                Ok(ids) => {
                    &&& resolved_ids(
                        old(self).catalog@,
                        texts(requested@),
                        scan.channel_roles@,
                    ) == Some(texts(ids@))
                    &&& final(self).demand_is_for(texts(requested@), texts(ids@))
                    &&& same_profile(
                        final(self).last_soundfont_demand.demand_profile,
                        scan.demand_profile,
                    )
                },
                Err(error) => {
                    &&& resolved_ids(
                        old(self).catalog@,
                        texts(requested@),
                        scan.channel_roles@,
                    ) is None
                    &&& error@ == (
                        ErrorKind::InvalidInput,
                        "no soundfonts are available in the DAT data folder"@,
                    )
                    &&& final(self).last_soundfont_demand == old(self).last_soundfont_demand
                },
            },
    {
        self.decoded = None;
        self.decoded_metadata = None;
        let profile = copy_profile(&scan.demand_profile);
        self.last_demand_profile = scan.demand_profile;
        self.last_midi_scan = scan.diagnostics;
        match resolve_soundfont_ids(
            self.catalog.as_slice(),
            requested,
            scan.channel_roles.as_slice(),
        ) {
            Ok(ids) => {
                self.last_soundfont_demand = soundfont_demand_diagnostics(
                    self.catalog.as_slice(),
                    requested,
                    ids.as_slice(),
                    profile,
                );
                Ok(ids)
            },
            Err(error) => Err(error),
        }
    }

    /// The noted demand is the one of the requested soundfonts, served by `ids`.
    pub open spec fn demand_is_for(&self, requested: Seq<Seq<char>>, ids: Seq<Seq<char>>) -> bool {
        let demand = self.last_soundfont_demand;
        &&& demand.loaded_provider_count == ids.len()
        &&& demand.requested_soundfont_count == requested_count(self.catalog@, requested, ids)
        &&& demand.pruned_soundfont_count == monus(
            requested_count(self.catalog@, requested, ids),
            served_count(requested, ids),
        )
    }

    /// Notes that the output could not be paused; it stays open.
    pub fn note_pause_failure(&mut self, error: &str)
        requires
            old(self).wf(),
        ensures
            final(self).wf(),
            *final(self) == (PlaybackController {
                audio_error: final(self).audio_error,
                ..*old(self)
            }),
            optional_text(final(self).audio_error) == Some(
                failure_text("audio pause failed: "@, error@),
            ),
    {
        self.audio_error = Some(failure("audio pause failed: ", error));
    }

    /// The settings of the output for a sample rate: stereo, in blocks of the given
    /// size.
    pub fn set_audio_config(&mut self, sample_rate: u32, block_frames: u16)
        requires
            old(self).wf(),
        ensures
            final(self).wf(),
            *final(self) == (PlaybackController {
                audio_config: AudioDeviceConfig {
                    sample_rate,
                    channels: 2,
                    internal_block_frames: block_frames,
                },
                ..*old(self)
            }),
    {
        self.audio_config =
        AudioDeviceConfig { sample_rate, channels: 2, internal_block_frames: block_frames };
    }

    /// Whether the loaded engine may serve the chosen soundfonts: they are the
    /// loaded ones. What is loaded of them is then still to be looked at.
    pub fn engine_may_serve(&self, soundfont_ids: &[String]) -> (may: bool)
        ensures
            may == (texts(self.loaded_soundfonts@) == texts(soundfont_ids@) && self.engine_loaded),
    {
        same_texts(self.loaded_soundfonts.as_slice(), soundfont_ids) && self.engine_loaded
    }

    /// Whether what is loaded of the soundfonts satisfies the plans. If it does the
    /// plans stand, with how the demand changed.
    pub fn loaded_subset_state_satisfies(
        &mut self,
        plans: TextMap<SoundFontSubsetPlanDebug>,
    ) -> (satisfies: bool)
        requires
            old(self).wf(),
            plans.wf(),
        ensures
            final(self).wf(),
            satisfies == (plans.entries@.len() == 0 || satisfies_plans(
                old(self).loaded_subset_state@,
                plans.entries@,
            )),
            *final(self) == if satisfies && plans.entries@.len() > 0 {
                PlaybackController {
                    last_subset_plans: plans,
                    subset_transition: transition_of(
                        old(self).loaded_subset_state@,
                        kept_views(old(self).loaded_subset_state@, plans.entries@),
                    ),
                    ..*old(self)
                }
            } else {
                *old(self)
            },
    {
        match loaded_subset_state_satisfies(&self.loaded_subset_state, &plans) {
            SubsetReuse::NothingPlanned => true,
            SubsetReuse::Satisfied(transition) => {
                self.last_subset_plans = plans;
                self.subset_transition = transition;
                true
            },
            SubsetReuse::NotSatisfied => false,
        }
    }

    /// Closes the output before soundfonts are loaded.
    pub fn close_audio(&mut self)
        requires
            old(self).wf(),
        ensures
            final(self).wf(),
            *final(self) == (PlaybackController {
                audio_open: false,
                audio_error: None,
                ..*old(self)
            }),
    {
        self.audio_open = false;
        self.audio_error = None;
    }

    /// Takes over the plans of a load that begins.
    pub fn begin_soundfont_load(&mut self, plans: TextMap<SoundFontSubsetPlanDebug>)
        requires
            old(self).wf(),
            plans.wf(),
        ensures
            final(self).wf(),
            *final(self) == (PlaybackController { last_subset_plans: plans, ..*old(self) }),
    {
        self.last_subset_plans = plans;
    }

    /// Takes over what a load of soundfonts did, once each of them is loaded.
    pub fn finish_soundfont_load(
        &mut self,
        soundfont_ids: &[String],
        outcomes: &[FontOutcome],
        dat_read_task_count: usize,
        json_resource_font_count: usize,
        load_duration_ms: u128,
    )
        requires
            old(self).wf(),
            outcomes@.len() == soundfont_ids@.len(),
        ensures
            final(self).wf(),
            *final(self) == (PlaybackController {
                loaded_subset_state: final(self).loaded_subset_state,
                subset_transition: final(self).subset_transition,
                last_soundfont_load: final(self).last_soundfont_load,
                ..*old(self)
            }),
            state_views(final(self).loaded_subset_state@) == loaded_states(
                texts(soundfont_ids@),
                plan_views(old(self).last_subset_plans@),
                outcomes@,
            ),
            final(self).subset_transition == transition_of(
                old(self).loaded_subset_state@,
                loaded_views(final(self).loaded_subset_state.entries@),
            ),
            final(self).last_soundfont_load == (PlaybackSoundFontLoadDiagnostics {
                load_invocations: u64_cap(
                    old(self).last_soundfont_load.load_invocations + 1,
                ) as u64,
                requested_font_count: soundfont_ids@.len() as usize,
                dat_read_task_count,
                json_resource_font_count,
                index_json_plan_count: index_plans(old(self).last_subset_plans.entries@) as usize,
                load_duration_ms,
                ..counted_outcomes(outcomes@)
            }),
    {
        let load = finish_soundfont_load(
            soundfont_ids,
            &self.last_subset_plans,
            outcomes,
            &self.loaded_subset_state,
            self.last_soundfont_load.load_invocations,
            dat_read_task_count,
            json_resource_font_count,
            load_duration_ms,
        );
        self.loaded_subset_state = load.states;
        self.subset_transition = load.transition;
        self.last_soundfont_load = load.diagnostics;
    }

    /// Takes over a new engine with the soundfonts that were loaded for it.
    pub fn replace_engine(
        &mut self,
        replaced: Option<&PlaybackMemoryDebug>,
        requested: &[String],
        resolved: Vec<String>,
        coverages: TextMap<SoundFontCoverage>,
    )
        requires
            old(self).wf(),
            coverages.wf(),
        ensures
            final(self).wf(),
            *final(self) == (PlaybackController {
                engine_loaded: true,
                loaded_soundfonts: resolved,
                loaded_coverages: coverages,
                lifecycle: match replaced {
                    Some(memory) => with_replacement(old(self).lifecycle, *memory),
                    None => old(self).lifecycle,
                },
                last_soundfont_demand: final(self).last_soundfont_demand,
                ..*old(self)
            }),
            final(self).demand_is_for(texts(requested@), texts(resolved@)),
            same_profile(
                final(self).last_soundfont_demand.demand_profile,
                old(self).last_demand_profile,
            ),
    {
        self.last_soundfont_demand =
        soundfont_demand_diagnostics(
            self.catalog.as_slice(),
            requested,
            resolved.as_slice(),
            copy_profile(&self.last_demand_profile),
        );
        self.lifecycle.record_engine_replacement(replaced);
        self.loaded_soundfonts = resolved;
        self.loaded_coverages = coverages;
        self.engine_loaded = true;
    }

    /// Ends the load of a MIDI file that the engine has taken over. Playback is
    /// silent and at its beginning then.
    pub fn finish_midi_load(
        &mut self,
        source: String,
        midi_bytes: Vec<u8>,
        transport: MidiTransportMetadata,
        strips: Vec<MidiStripDescriptor>,
        soundfont_ids: Vec<String>,
        coverages: TextMap<SoundFontCoverage>,
    )
        requires
            old(self).wf(),
            coverages.wf(),
        ensures
            final(self).wf(),
            *final(self) == (PlaybackController {
                loaded_midi: Some(source),
                loaded_midi_bytes: Some(midi_bytes),
                midi_transport: transport,
                midi_strips: strips,
                loaded_soundfonts: if old(self).loaded_soundfonts@.len() == 0 {
                    soundfont_ids
                } else {
                    old(self).loaded_soundfonts
                },
                loaded_coverages: if old(self).loaded_coverages.entries@.len() == 0
                    && old(self).engine_loaded {
                    coverages
                } else {
                    old(self).loaded_coverages
                },
                render_churn: no_churn_recorded(),
                history: final(self).history,
                rendered_frame_clock: 0,
                flux_guard: fresh_guard(),
                ..*old(self)
            }),
            is_silent(final(self).history),
    {
        self.loaded_midi = Some(source);
        self.loaded_midi_bytes = Some(midi_bytes);
        self.midi_transport = transport;
        if self.loaded_soundfonts.len() == 0 {
            self.loaded_soundfonts = soundfont_ids;
        }
        if self.loaded_coverages.entries.len() == 0 && self.engine_loaded {
            self.loaded_coverages = coverages;
        }
        self.midi_strips = strips;
        self.render_churn = RenderChurnDiagnostics::default();
        self.history = SnapshotHistory::new();
        self.rendered_frame_clock = 0;
        self.flux_guard.reset();
    }

    fn unload(&mut self)
        requires
            old(self).wf(),
        ensures
            final(self).wf(),
            final(self).is_unloaded(),
            !final(self).audio_open,
            final(self).audio_error is None,
            final(self).keeps_of(*old(self)),
            final(self).flux_guard == old(self).flux_guard,
            final(self).history == old(self).history,
            final(self).rendered_frame_clock == old(self).rendered_frame_clock,
    {
        self.audio_open = false;
        self.audio_error = None;
        self.engine_loaded = false;
        self.decoded = None;
        self.decoded_metadata = None;
        self.loaded_midi = None;
        self.loaded_midi_bytes = None;
        self.loaded_soundfonts = Vec::new();
        self.loaded_coverages = TextMap::new();
        self.loaded_subset_state = TextMap::new();
        self.last_subset_plans = TextMap::new();
        self.subset_transition = PlaybackSubsetTransitionDiagnostics::default();
        self.midi_transport = MidiTransportMetadata::default();
        self.midi_strips = Vec::new();
    }

    /// What unloading leaves alone.
    pub open spec fn keeps_of(&self, before: PlaybackController<S>) -> bool {
        &&& self.catalog == before.catalog
        &&& self.mixer_controls == before.mixer_controls
        &&& self.audio_backend == before.audio_backend
        &&& self.audio_config == before.audio_config
        &&& self.render_churn == before.render_churn
        &&& self.lifecycle == before.lifecycle
        &&& self.last_demand_profile == before.last_demand_profile
        &&& self.last_midi_scan == before.last_midi_scan
        &&& self.last_soundfont_demand == before.last_soundfont_demand
        &&& self.last_soundfont_load == before.last_soundfont_load
    }

    /// What a controller is after decoded audio was loaded, or refused.
    pub open spec fn loaded_decoded(
        self,
        after: PlaybackController<S>,
        metadata: DecodedAudioTransportMetadata,
        streaming: bool,
        duration: Seq<char>,
        samples: Option<Vec<S>>,
        stream: Option<DecodedStreamCache<S>>,
        block_frames: u16,
        summary: Result<String, FlutzError>,
    ) -> bool {
        match summary {
            Err(error) => {
                &&& metadata.channels == 0 || metadata.sample_rate == 0
                &&& error@ == (
                    ErrorKind::UnsupportedFormat,
                    "decoded audio stream has no usable sample rate or channel layout"@,
                )
                &&& after == self
            },
            Ok(summary) => {
                &&& metadata.channels > 0 && metadata.sample_rate > 0
                &&& summary@ == decoded_summary(metadata, streaming, duration)
                &&& after.decoded == Some(
                    DecodedAudioPlaybackState {
                        sample_rate: metadata.sample_rate,
                        channels: metadata.channels as usize,
                        frame_length: metadata.frame_length,
                        samples,
                        stream,
                        position_frame: 0,
                        state: DecodedPlaybackState::Stopped,
                        loop_settings: crate::playback::decoded::no_loop(),
                        counted_loops_remaining: 0,
                    },
                )
                &&& after.decoded_metadata == Some(metadata)
                &&& after.audio_config == (AudioDeviceConfig {
                    sample_rate: metadata.sample_rate,
                    channels: 2,
                    internal_block_frames: block_frames,
                })
                &&& after.flux_guard == fresh_guard()
                &&& is_silent(after.history)
                &&& after.rendered_frame_clock == 0
                &&& !after.audio_open
                &&& after.audio_error is None
                &&& (PlaybackController {
                    decoded: None,
                    decoded_metadata: None,
                    ..after
                }).is_unloaded()
                &&& (PlaybackController { audio_config: self.audio_config, ..after }).keeps_of(self)
            },
        }
    }

    fn load_decoded_audio(
        &mut self,
        metadata: DecodedAudioTransportMetadata,
        streaming: bool,
        duration_text: &str,
        samples: Option<Vec<S>>,
        stream: Option<DecodedStreamCache<S>>,
        block_frames: u16,
    ) -> (summary: Result<String, FlutzError>)
        requires
            old(self).wf(),
        ensures
            final(self).wf(),
            old(self).loaded_decoded(
                *final(self),
                metadata,
                streaming,
                duration_text@,
                samples,
                stream,
                block_frames,
                summary,
            ),
    {
        if metadata.channels == 0 || metadata.sample_rate == 0 {
            return Err(
                FlutzError::UnsupportedFormat(
                    "decoded audio stream has no usable sample rate or channel layout".to_owned(),
                ),
            );
        }
        self.unload();
        self.audio_config =
        AudioDeviceConfig {
            sample_rate: metadata.sample_rate,
            channels: 2,
            internal_block_frames: block_frames,
        };
        let mut summary = "Loaded ".to_owned();
        summary.append(metadata.friendly_name.as_str());
        if streaming {
            summary.append(" decoded audio stream, ");
        } else {
            summary.append(" decoded audio, ");
        }
        summary.append(duration_text);
        summary.append("s, ");
        push_decimal(&mut summary, metadata.sample_rate as u128);
        summary.append(" Hz, ");
        push_decimal(&mut summary, metadata.channels as u128);
        summary.append(" channel(s)");
        self.decoded = Some(
            DecodedAudioPlaybackState::new(
                metadata.sample_rate,
                metadata.channels as usize,
                metadata.frame_length,
                samples,
                stream,
            ),
        );
        self.decoded_metadata = Some(metadata);
        self.history.clear();
        self.rendered_frame_clock = 0;
        self.flux_guard.reset();
        Ok(summary)
    }

    /// Loads decoded audio with all its samples, in place of everything that was
    /// loaded, and returns the summary for the user. Audio without channels or a
    /// sample rate is refused. The duration comes with two decimals.
    pub fn load_decoded_audio_buffer(
        &mut self,
        metadata: DecodedAudioTransportMetadata,
        duration_text: &str,
        samples: Vec<S>,
        block_frames: u16,
    ) -> (summary: Result<String, FlutzError>)
        requires
            old(self).wf(),
        ensures
            final(self).wf(),
            old(self).loaded_decoded(
                *final(self),
                metadata,
                false,
                duration_text@,
                Some(samples),
                None,
                block_frames,
                summary,
            ),
    {
        self.load_decoded_audio(metadata, false, duration_text, Some(samples), None, block_frames)
    }

    /// Loads decoded audio that is read as it is played, in place of everything that
    /// was loaded, and returns the summary for the user. Audio without channels or a
    /// sample rate is refused. The duration comes with two decimals.
    pub fn load_decoded_audio_stream(
        &mut self,
        metadata: DecodedAudioTransportMetadata,
        duration_text: &str,
        stream: DecodedStreamCache<S>,
        block_frames: u16,
    ) -> (summary: Result<String, FlutzError>)
        requires
            old(self).wf(),
        ensures
            final(self).wf(),
            old(self).loaded_decoded(
                *final(self),
                metadata,
                true,
                duration_text@,
                None,
                Some(stream),
                block_frames,
                summary,
            ),
    {
        self.load_decoded_audio(metadata, true, duration_text, None, Some(stream), block_frames)
    }

    /// What has to be done to start playing. Decoded audio is started at once; an
    /// engine that is paused goes on, another one starts anew.
    pub fn play(&mut self, engine: Option<PlaybackState>) -> (start: Result<PlayStart, FlutzError>)
        requires
            old(self).wf(),
        ensures
            final(self).wf(),
            *final(self) == (PlaybackController { decoded: final(self).decoded, ..*old(self) }),
            match old(self).decoded {
                Some(before) => start == Ok::<PlayStart, FlutzError>(PlayStart::Decoded)
                    && final(self).decoded == Some(before.started()),
                None => {
                    &&& final(self).decoded is None
                    &&& match engine {
                        Some(PlaybackState::Paused) => start == Ok::<PlayStart, FlutzError>(
                            PlayStart::ResumeEngine,
                        ),
                        Some(_) => start == Ok::<PlayStart, FlutzError>(PlayStart::PlayEngine),
                        None => start is Err && start->Err_0@ == (
                            ErrorKind::InvalidInput,
                            "load a MIDI file before playing"@,
                        ),
                    }
                },
            },
    {
        if let Some(decoded) = &mut self.decoded {
            decoded.play();
            return Ok(PlayStart::Decoded);
        }
        match engine {
            Some(PlaybackState::Paused) => Ok(PlayStart::ResumeEngine),
            Some(_) => Ok(PlayStart::PlayEngine),
            None => Err(FlutzError::InvalidInput("load a MIDI file before playing".to_owned())),
        }
    }

    fn pause_decoded(&mut self)
        requires
            old(self).wf(),
        ensures
            final(self).wf(),
            *final(self) == (PlaybackController {
                decoded: paused(old(self).decoded),
                ..*old(self)
            }),
    {
        match &mut self.decoded {
            Some(decoded) => decoded.pause(),
            None => {},
        }
    }

    /// Playback cannot be heard: it is paused, and an output that did not resume is
    /// closed. (An engine is to be paused too.)
    pub fn play_unavailable(&mut self, failed: PlayFailure, error: &str) -> (status:
        AudioPlaybackStatus)
        requires
            old(self).wf(),
        ensures
            final(self).wf(),
            *final(self) == (PlaybackController {
                decoded: paused(old(self).decoded),
                audio_open: old(self).audio_open && failed == PlayFailure::Open,
                audio_error: final(self).audio_error,
                ..*old(self)
            }),
            optional_text(final(self).audio_error) == Some(play_failure_text(failed, error@)),
            status is AudioUnavailable && status->AudioUnavailable_0@ == play_failure_text(
                failed,
                error@,
            ),
    {
        let message = match failed {
            PlayFailure::Open => failure("audio unavailable: ", error),
            PlayFailure::Resume => {
                self.audio_open = false;
                failure("audio resume failed: ", error)
            },
        };
        self.audio_error = Some(message.clone());
        self.pause_decoded();
        AudioPlaybackStatus::AudioUnavailable(message)
    }

    /// Playback is heard.
    pub fn play_audible(&mut self) -> (status: AudioPlaybackStatus)
        requires
            old(self).wf(),
        ensures
            final(self).wf(),
            *final(self) == (PlaybackController { audio_error: None, ..*old(self) }),
            status is Audible,
    {
        self.audio_error = None;
        AudioPlaybackStatus::Audible
    }

    /// Lets the guard of the latency look at the output, and returns the target to
    /// apply if it changed.
    pub fn update_latency_control(&mut self, state: RenderAheadState) -> (target: Option<
        RenderAheadTarget,
    >)
        requires
            old(self).wf(),
        ensures
            final(self).wf(),
            ({
                let rate = max_of(old(self).audio_config.sample_rate as int, 1) as u32;
                let guard = if old(self).audio_open {
                    old(self).flux_guard.observed(state, rate)
                } else {
                    FluxGuard { last_decision: no_audio_decision(), ..old(self).flux_guard }
                };
                &&& *final(self) == (PlaybackController { flux_guard: guard, ..*old(self) })
                &&& target == if old(self).audio_open && guard.last_decision.changed {
                    Some(guard.last_decision.target)
                } else {
                    None
                }
            }),
    {
        if !self.audio_open {
            self.flux_guard.observe(None, self.audio_config.sample_rate);
            return None;
        }
        let snapshot = self.flux_guard.observe(Some(state), self.audio_config.sample_rate);
        if snapshot.decision.changed {
            Some(snapshot.decision.target)
        } else {
            None
        }
    }

    /// Notes that a target could not be applied.
    pub fn note_target_failure(&mut self, error: &str)
        requires
            old(self).wf(),
        ensures
            final(self).wf(),
            *final(self) == (PlaybackController {
                audio_error: final(self).audio_error,
                ..*old(self)
            }),
            optional_text(final(self).audio_error) == Some(
                failure_text("audio render-ahead target failed: "@, error@),
            ),
    {
        self.audio_error = Some(failure("audio render-ahead target failed: ", error));
    }

    fn note_device_pause(&mut self, error: Option<&str>)
        requires
            old(self).wf(),
        ensures
            final(self).wf(),
            *final(self) == (PlaybackController {
                audio_open: old(self).audio_open && error is None,
                audio_error: final(self).audio_error,
                ..*old(self)
            }),
            pause_noted(old(self).audio_open, error_view(error), old(self).audio_error, final(self).audio_error),
    {
        if self.audio_open {
            match error {
                Some(error) => {
                    self.audio_open = false;
                    self.audio_error = Some(failure("audio pause failed: ", error));
                },
                None => {},
            }
        }
    }

    /// Pauses playback. `device` is the error of the output's own pause, if it
    /// failed: the output is closed then.
    pub fn pause(&mut self, device: Option<&str>)
        requires
            old(self).wf(),
        ensures
            final(self).wf(),
            *final(self) == (PlaybackController {
                decoded: paused(old(self).decoded),
                audio_open: old(self).audio_open && device is None,
                audio_error: final(self).audio_error,
                history: final(self).history,
                rendered_frame_clock: 0,
                flux_guard: fresh_guard(),
                ..*old(self)
            }),
            is_silent(final(self).history),
            pause_noted(
                old(self).audio_open,
                error_view(device),
                old(self).audio_error,
                final(self).audio_error,
            ),
    {
        self.pause_decoded();
        self.note_device_pause(device);
        self.history.clear();
        self.rendered_frame_clock = 0;
        self.flux_guard.reset();
    }

    /// Stops playback and goes back to the beginning. `device` is the error of the
    /// output's own pause, if it failed: the output is closed then.
    pub fn stop(&mut self, device: Option<&str>)
        requires
            old(self).wf(),
        ensures
            final(self).wf(),
            *final(self) == (PlaybackController {
                decoded: stopped(old(self).decoded),
                audio_open: old(self).audio_open && device is None,
                audio_error: final(self).audio_error,
                history: final(self).history,
                rendered_frame_clock: 0,
                flux_guard: fresh_guard(),
                ..*old(self)
            }),
            is_silent(final(self).history),
            pause_noted(
                old(self).audio_open,
                error_view(device),
                old(self).audio_error,
                final(self).audio_error,
            ),
    {
        match &mut self.decoded {
            Some(decoded) => decoded.stop(),
            None => {},
        }
        self.note_device_pause(device);
        self.history.clear();
        self.rendered_frame_clock = 0;
        self.flux_guard.reset();
    }

    /// Stops playback and unloads everything.
    pub fn release_idle_resources(&mut self)
        requires
            old(self).wf(),
        ensures
            final(self).wf(),
            final(self).is_unloaded(),
            !final(self).audio_open,
            final(self).audio_error is None,
            final(self).keeps_of(*old(self)),
            final(self).flux_guard == fresh_guard(),
            is_silent(final(self).history),
            final(self).rendered_frame_clock == 0,
    {
        self.unload();
        self.history.clear();
        self.rendered_frame_clock = 0;
        self.flux_guard.reset();
    }

    /// Closes the output, to open it again.
    pub fn retry_audio(&mut self)
        requires
            old(self).wf(),
        ensures
            final(self).wf(),
            *final(self) == (PlaybackController {
                audio_open: false,
                audio_error: None,
                flux_guard: fresh_guard(),
                ..*old(self)
            }),
    {
        self.audio_open = false;
        self.audio_error = None;
        self.flux_guard.reset();
    }

    /// The output that is to be opened, if any.
    pub fn ensure_audio_stream(&self) -> (request: Result<StreamRequest, FlutzError>)
        ensures
            if self.audio_open {
                request == Ok::<StreamRequest, FlutzError>(StreamRequest::AlreadyOpen)
            } else if self.decoded is Some {
                request == Ok::<StreamRequest, FlutzError>(
                    StreamRequest::Decoded {
                        backend: self.audio_backend,
                        config: self.audio_config,
                    },
                )
            } else if self.engine_loaded {
                request == Ok::<StreamRequest, FlutzError>(
                    StreamRequest::Engine {
                        backend: self.audio_backend,
                        config: self.audio_config,
                    },
                )
            } else {
                request is Err && request->Err_0@ == (
                    ErrorKind::InvalidInput,
                    "load a MIDI file before opening audio"@,
                )
            },
    {
        let backend = self.audio_backend;
        let config = self.audio_config;
        if self.audio_open {
            Ok(StreamRequest::AlreadyOpen)
        } else if self.decoded.is_some() {
            Ok(StreamRequest::Decoded { backend, config })
        } else if self.engine_loaded {
            Ok(StreamRequest::Engine { backend, config })
        } else {
            Err(FlutzError::InvalidInput("load a MIDI file before opening audio".to_owned()))
        }
    }

    /// Takes in whether the output was opened.
    pub fn audio_stream_opened(&mut self, opened: Result<(), String>) -> (outcome: Result<
        (),
        FlutzError,
    >)
        requires
            old(self).wf(),
        ensures
            final(self).wf(),
            match opened {
                Ok(_) => outcome is Ok && *final(self) == (PlaybackController {
                    audio_open: true,
                    audio_error: None,
                    ..*old(self)
                }),
                Err(error) => outcome is Err && outcome->Err_0@ == (ErrorKind::Runtime, error@)
                    && *final(self) == *old(self),
            },
    {
        match opened {
            Ok(_) => {
                self.audio_open = true;
                self.audio_error = None;
                Ok(())
            },
            Err(error) => Err(FlutzError::Runtime(error)),
        }
    }

    /// Counts rendered frames, and returns where they end.
    fn advance_frame_clock(&mut self, frames: u64) -> (end: u64)
        requires
            old(self).wf(),
        ensures
            final(self).wf(),
            *final(self) == (PlaybackController {
                rendered_frame_clock: wrapped_clock(old(self).rendered_frame_clock, frames),
                ..*old(self)
            }),
            end == u64_cap(old(self).rendered_frame_clock + frames),
    {
        let end: u64 = self.rendered_frame_clock.saturating_add(frames);
        self.rendered_frame_clock = self.rendered_frame_clock.wrapping_add(frames);
        end
    }

    /// Takes in a block of decoded audio that the output rendered: `samples`
    /// interleaved stereo samples.
    pub fn decoded_block_rendered(&mut self, samples: usize, snapshot: RealtimeMixerSnapshot) -> (
    step: VisualizerStep)
        requires
            old(self).wf(),
            old(self).history.frames@.len() < usize::MAX,
        ensures
            final(self).wf(),
            *final(self) == (PlaybackController {
                rendered_frame_clock: wrapped_clock(
                    old(self).rendered_frame_clock,
                    (samples / 2) as u64,
                ),
                history: final(self).history,
                ..*old(self)
            }),
            final(self).history.frames@ == recorded_frames(
                old(self).history.frames@,
                u64_cap(old(self).rendered_frame_clock + samples as int / 2) as u64,
                snapshot,
                old(self).audio_config.sample_rate,
            ),
            step == (VisualizerStep::Ingest { frames: (samples / 2) as usize }),
    {
        let frames: usize = samples / 2;
        let end: u64 = self.advance_frame_clock(frames as u64);
        self.history.record(end, snapshot, self.audio_config.sample_rate);
        VisualizerStep::Ingest { frames }
    }

    /// Takes in a block that the output rendered from the engine, or that rendering
    /// it failed: then it is `samples` samples of silence.
    pub fn engine_block_rendered(&mut self, samples: usize, block: Option<RenderedBlock>) -> (step:
        VisualizerStep)
        requires
            old(self).wf(),
            old(self).history.frames@.len() < usize::MAX,
        ensures
            final(self).wf(),
            match block {
                Some(block) => {
                    &&& *final(self) == (PlaybackController {
                        rendered_frame_clock: wrapped_clock(
                            old(self).rendered_frame_clock,
                            block.frames as u64,
                        ),
                        history: final(self).history,
                        render_churn: old(self).render_churn.recorded(block.churn),
                        ..*old(self)
                    })
                    &&& final(self).history.frames@ == recorded_frames(
                        old(self).history.frames@,
                        u64_cap(old(self).rendered_frame_clock + block.frames) as u64,
                        block.snapshot,
                        old(self).audio_config.sample_rate,
                    )
                    &&& step == (VisualizerStep::Ingest { frames: block.frames })
                },
                None => *final(self) == *old(self) && step == (VisualizerStep::Silence {
                    frames: (samples / 2) as usize,
                }),
            },
    {
        match block {
            Some(block) => {
                let end: u64 = self.advance_frame_clock(block.frames as u64);
                self.history.record(end, block.snapshot, self.audio_config.sample_rate);
                self.render_churn.record(block.churn);
                VisualizerStep::Ingest { frames: block.frames }
            },
            None => VisualizerStep::Silence { frames: samples / 2 },
        }
    }

    /// The output as it is rendered.
    pub fn live_output_view(&self) -> (view: OutputViewSnapshot)
        ensures
            view.kind == OutputViewKind::Live,
            view.rendered_frame_clock == self.rendered_frame_clock,
            view.effective_latency_frames == 0,
            view.wrapper_queue_frames == 0,
            view.device_queue_frames == 0,
            match view.snapshot {
                Some(snapshot) => self.history.frames@.len() > 0 && *snapshot
                    == self.history.frames@.last().snapshot,
                None => is_silent(self.history),
            },
    {
        OutputViewSnapshot {
            kind: OutputViewKind::Live,
            rendered_frame_clock: self.rendered_frame_clock,
            effective_latency_frames: 0,
            wrapper_queue_frames: 0,
            device_queue_frames: 0,
            snapshot: self.history.live_snapshot(),
        }
    }

    /// How far the output is behind.
    pub open spec fn latency(&self, audio: Option<AudioDeviceDiagnostics>) -> OutputLatencyBreakdown {
        match audio {
            Some(audio) => if self.audio_open {
                latency_of(audio)
            } else {
                no_latency()
            },
            None => no_latency(),
        }
    }

    /// How far the output is behind.
    pub fn output_latency(&self, audio: Option<&AudioDeviceDiagnostics>) -> (latency:
        OutputLatencyBreakdown)
        ensures
            latency == self.latency(
                match audio {
                    Some(audio) => Some(*audio),
                    None => None,
                },
            ),
    {
        if self.audio_open {
            output_latency_breakdown(audio)
        } else {
            output_latency_breakdown(None)
        }
    }

    /// The output as it is heard.
    pub fn audible_output_view(&self, audio: Option<&AudioDeviceDiagnostics>) -> (view:
        OutputViewSnapshot)
        ensures
            ({
                let latency = self.latency(
                    match audio {
                        Some(audio) => Some(*audio),
                        None => None,
                    },
                );
                &&& view.kind == OutputViewKind::Audible
                &&& view.rendered_frame_clock == self.rendered_frame_clock
                &&& view.effective_latency_frames == latency.total_frames
                &&& view.wrapper_queue_frames == latency.wrapper_queue_frames
                &&& view.device_queue_frames == latency.device_queue_frames
                &&& (match view.snapshot {
                    Some(snapshot) => Some(*snapshot),
                    None => None,
                }) == newest_at(
                    self.history.frames@,
                    self.history.frames@.len() as int,
                    monus(self.rendered_frame_clock as int, latency.total_frames as int),
                )
            }),
    {
        let latency = self.output_latency(audio);
        OutputViewSnapshot {
            kind: OutputViewKind::Audible,
            rendered_frame_clock: self.rendered_frame_clock,
            effective_latency_frames: latency.total_frames,
            wrapper_queue_frames: latency.wrapper_queue_frames,
            device_queue_frames: latency.device_queue_frames,
            snapshot: self.history.delayed_snapshot(
                self.rendered_frame_clock,
                latency.total_frames,
            ),
        }
    }

    /// Whether something plays.
    pub open spec fn is_playing(&self, engine: Option<PlaybackState>) -> bool {
        engine == Some(PlaybackState::Playing) || (match self.decoded {
            Some(decoded) => decoded.state == DecodedPlaybackState::Playing,
            None => false,
        })
    }

    pub fn playback_active(&self, engine: Option<PlaybackState>) -> (active: bool)
        ensures
            active == self.is_playing(engine),
    {
        let engine_plays = match engine {
            Some(state) => state == PlaybackState::Playing,
            None => false,
        };
        if engine_plays {
            return true;
        }
        match &self.decoded {
            Some(decoded) => decoded.is_playing(),
            None => false,
        }
    }

    /// The position to go back to after a load: the engine's, if the MIDI file is
    /// loaded already and only the soundfonts change.
    pub fn capture_render_layer_transition(
        &self,
        midi_bytes: &[u8],
        resolved: &[String],
        engine_tick: Option<u64>,
    ) -> (transition: RenderLayerTransition)
        ensures
            transition.warmup_tick == if self.loaded_midi_bytes is Some
                && self.loaded_midi_bytes->Some_0@ == midi_bytes@ && texts(self.loaded_soundfonts@)
                != texts(resolved@) {
                engine_tick
            } else {
                None
            },
    {
        let same_midi = match &self.loaded_midi_bytes {
            Some(loaded) => same_bytes(loaded.as_slice(), midi_bytes),
            None => false,
        };
        if !same_midi || same_texts(self.loaded_soundfonts.as_slice(), resolved) {
            return RenderLayerTransition { warmup_tick: None };
        }
        RenderLayerTransition { warmup_tick: engine_tick }
    }

    /// Silences the output after playback was moved. `device` is the error of the
    /// output's own pause, if it failed. Returns whether the output is to go on.
    pub fn reset_audible_output_after_reposition(
        &mut self,
        device: Option<&str>,
        resume_audio: bool,
    ) -> (resumes: bool)
        requires
            old(self).wf(),
        ensures
            final(self).wf(),
            *final(self) == (PlaybackController {
                audio_open: old(self).audio_open && device is None,
                audio_error: final(self).audio_error,
                history: final(self).history,
                rendered_frame_clock: 0,
                flux_guard: fresh_guard(),
                ..*old(self)
            }),
            is_silent(final(self).history),
            pause_noted(
                old(self).audio_open,
                error_view(device),
                old(self).audio_error,
                final(self).audio_error,
            ),
            resumes == (resume_audio && old(self).audio_open && device is None),
    {
        self.note_device_pause(device);
        self.history.clear();
        self.rendered_frame_clock = 0;
        self.flux_guard.reset();
        resume_audio && self.audio_open
    }

    /// Closes an output that did not go on.
    pub fn note_resume_failure(&mut self, error: &str)
        requires
            old(self).wf(),
        ensures
            final(self).wf(),
            *final(self) == (PlaybackController {
                audio_open: false,
                audio_error: final(self).audio_error,
                ..*old(self)
            }),
            optional_text(final(self).audio_error) == Some(
                failure_text("audio resume failed: "@, error@),
            ),
    {
        self.audio_open = false;
        self.audio_error = Some(failure("audio resume failed: ", error));
    }

    /// The position, in ticks or frames.
    pub fn transport_tick(&self, engine_tick: Option<u64>) -> (tick: u64)
        ensures
            tick == match self.decoded {
                Some(decoded) => decoded.position_frame,
                None => match engine_tick {
                    Some(tick) => tick,
                    None => 0,
                },
            },
    {
        match &self.decoded {
            Some(decoded) => decoded.position_frame,
            None => engine_tick.unwrap_or(0),
        }
    }

    /// Goes to a position. Decoded audio goes there at once. Returns what carries
    /// out the request and whether it was playing.
    pub fn seek_transport_tick(&mut self, tick: u64, engine: Option<PlaybackState>) -> (sought: (
        TransportTarget,
        bool,
    ))
        requires
            old(self).wf(),
        ensures
            final(self).wf(),
            *final(self) == (PlaybackController { decoded: final(self).decoded, ..*old(self) }),
            match old(self).decoded {
                Some(before) => sought == (TransportTarget::Decoded, old(self).is_playing(engine))
                    && final(self).decoded == Some(before.moved_to(tick)),
                None => final(self).decoded is None && sought == match engine {
                    Some(state) => (TransportTarget::Engine, state == PlaybackState::Playing),
                    None => (TransportTarget::Nothing, false),
                },
            },
    {
        let playing = self.playback_active(engine);
        match &mut self.decoded {
            Some(decoded) => {
                decoded.seek_frame(tick);
                (TransportTarget::Decoded, playing)
            },
            None => match engine {
                Some(state) => (TransportTarget::Engine, state == PlaybackState::Playing),
                None => (TransportTarget::Nothing, false),
            },
        }
    }

    /// Switches the loop of decoded audio, or says what is to be asked.
    pub fn set_loop_enabled(&mut self, enabled: bool) -> (target: TransportTarget)
        requires
            old(self).wf(),
        ensures
            final(self).wf(),
            *final(self) == (PlaybackController { decoded: final(self).decoded, ..*old(self) }),
            target == old(self).loop_target(),
            match old(self).decoded {
                Some(before) => final(self).decoded == Some(before.with_loop_switched(enabled)),
                None => final(self).decoded is None,
            },
    {
        match &mut self.decoded {
            Some(decoded) => {
                decoded.set_loop_enabled(enabled);
                TransportTarget::Decoded
            },
            None => if self.engine_loaded {
                TransportTarget::Engine
            } else {
                TransportTarget::Nothing
            },
        }
    }

    /// What a loop applies to.
    pub open spec fn loop_target(&self) -> TransportTarget {
        if self.decoded is Some {
            TransportTarget::Decoded
        } else if self.engine_loaded {
            TransportTarget::Engine
        } else {
            TransportTarget::Nothing
        }
    }

    /// Sets the loop of decoded audio, or says what is to be asked.
    pub fn set_loop_settings(&mut self, settings: PlaybackLoopSettings) -> (target: TransportTarget)
        requires
            old(self).wf(),
        ensures
            final(self).wf(),
            *final(self) == (PlaybackController { decoded: final(self).decoded, ..*old(self) }),
            target == old(self).loop_target(),
            match old(self).decoded {
                Some(before) => final(self).decoded == Some(before.with_loop(settings)),
                None => final(self).decoded is None,
            },
    {
        match &mut self.decoded {
            Some(decoded) => {
                decoded.set_loop_settings(settings);
                TransportTarget::Decoded
            },
            None => if self.engine_loaded {
                TransportTarget::Engine
            } else {
                TransportTarget::Nothing
            },
        }
    }

    /// The layout of the strips: channel, bank, program, and whether it is
    /// percussion.
    pub fn midi_strip_layout(&self) -> (layout: Vec<(u8, u16, u8, bool)>)
        ensures
            layout@ == self.midi_strips@.map_values(
                |strip: MidiStripDescriptor|
                    (strip.channel, strip.bank, strip.program, strip.is_percussion),
            ),
    {
        let mut layout: Vec<(u8, u16, u8, bool)> = Vec::new();
        let mut i: usize = 0;
        while i < self.midi_strips.len()
            invariant
                i <= self.midi_strips@.len(),
                layout@.len() == i,
                forall|k: int|
                    0 <= k < i ==> (#[trigger] layout@[k]) == (
                        self.midi_strips@[k].channel,
                        self.midi_strips@[k].bank,
                        self.midi_strips@[k].program,
                        self.midi_strips@[k].is_percussion,
                    ),
            decreases self.midi_strips@.len() - i,
        {
            let strip = self.midi_strips[i];
            layout.push((strip.channel, strip.bank, strip.program, strip.is_percussion));
            i = i + 1;
        }
        assert(layout@ =~= self.midi_strips@.map_values(
            |strip: MidiStripDescriptor|
                (strip.channel, strip.bank, strip.program, strip.is_percussion),
        ));
        layout
    }

    /// Takes over the controls of the strips.
    pub fn set_mixer_controls(&mut self, controls: MixerControlState)
        requires
            old(self).wf(),
        ensures
            final(self).wf(),
            *final(self) == (PlaybackController { mixer_controls: controls, ..*old(self) }),
    {
        self.mixer_controls = controls;
    }

    /// What is heard, if anything was rendered that is old enough.
    pub fn latest_snapshot(&self, audio: Option<&AudioDeviceDiagnostics>) -> (snapshot: Option<
        &RealtimeMixerSnapshot,
    >)
        ensures
            ({
                let latency = self.latency(
                    match audio {
                        Some(audio) => Some(*audio),
                        None => None,
                    },
                );
                (match snapshot {
                    Some(snapshot) => Some(*snapshot),
                    None => None,
                }) == newest_at(
                    self.history.frames@,
                    self.history.frames@.len() as int,
                    monus(self.rendered_frame_clock as int, latency.total_frames as int),
                )
            }),
    {
        self.audible_output_view(audio).snapshot
    }

    /// How many frames the output is behind.
    pub fn estimated_output_latency_frames(&self, audio: Option<&AudioDeviceDiagnostics>) -> (frames:
        u64)
        ensures
            frames == self.latency(
                match audio {
                    Some(audio) => Some(*audio),
                    None => None,
                },
            ).total_frames,
    {
        self.output_latency(audio).total_frames
    }

    /// What the last scan of a MIDI file found.
    pub fn midi_scan_diagnostics(&self) -> (scan: &PlaybackMidiScanDiagnostics)
        ensures
            *scan == self.last_midi_scan,
    {
        &self.last_midi_scan
    }

    /// The plans of the last load of soundfonts.
    pub fn last_soundfont_subset_plans(&self) -> (plans: &TextMap<SoundFontSubsetPlanDebug>)
        ensures
            *plans == self.last_subset_plans,
    {
        &self.last_subset_plans
    }

    /// What the loaded soundfonts cover.
    pub fn loaded_soundfont_coverages(&self) -> (coverages: &TextMap<SoundFontCoverage>)
        ensures
            *coverages == self.loaded_coverages,
    {
        &self.loaded_coverages
    }

    /// Whether waiting for the frame that is played next is over. There is nothing to
    /// wait for in audio that has all its samples, and none without decoded audio.
    pub fn wait_for_decoded_stream_cache(&self) -> (over: bool)
        ensures
            over == match self.decoded {
                Some(decoded) => match decoded.stream {
                    Some(stream) => stream.shutdown || stream.last_error is Some || stream.holds(
                        decoded.position_frame as int,
                    ),
                    None => true,
                },
                None => false,
            },
    {
        match &self.decoded {
            Some(decoded) => match &decoded.stream {
                Some(stream) => stream.wait_is_over(decoded.position_frame),
                None => true,
            },
            None => false,
        }
    }

    /// The state of the cache of decoded audio. The capacities are those of its sample
    /// buffers.
    pub fn decoded_stream_cache_debug(
        &self,
        cached_sample_capacity: usize,
        full_sample_capacity: usize,
    ) -> (debug: Option<DecodedStreamCacheDebug>)
        ensures
            match (self.decoded, debug) {
                (Some(decoded), Some(debug)) => decoded.shows_cache(
                    debug,
                    cached_sample_capacity,
                    full_sample_capacity,
                ),
                (None, None) => true,
                _ => false,
            },
    {
        match &self.decoded {
            Some(decoded) => Some(
                decoded.stream_cache_debug(cached_sample_capacity, full_sample_capacity),
            ),
            None => None,
        }
    }

    /// The loaded MIDI file.
    pub fn loaded_midi(&self) -> (source: Option<&str>)
        ensures
            (match source {
                Some(source) => Some(source@),
                None => None,
            }) == optional_text(self.loaded_midi),
    {
        match &self.loaded_midi {
            Some(source) => Some(source.as_str()),
            None => None,
        }
    }

    /// The bytes of the loaded MIDI file.
    pub fn loaded_midi_bytes(&self) -> (bytes: Option<&[u8]>)
        ensures
            match (bytes, self.loaded_midi_bytes) {
                (Some(bytes), Some(loaded)) => bytes@ == loaded@,
                (None, None) => true,
                _ => false,
            },
    {
        match &self.loaded_midi_bytes {
            Some(bytes) => Some(bytes.as_slice()),
            None => None,
        }
    }

    /// The loaded soundfonts.
    pub fn loaded_soundfont_ids(&self) -> (ids: Vec<String>)
        ensures
            texts(ids@) == texts(self.loaded_soundfonts@),
    {
        clone_texts(self.loaded_soundfonts.as_slice())
    }

    /// The transport of the loaded MIDI file.
    pub fn midi_transport_metadata(&self) -> (transport: &MidiTransportMetadata)
        ensures
            *transport == self.midi_transport,
    {
        &self.midi_transport
    }

    /// What is known of the loaded decoded audio.
    pub fn decoded_transport_metadata(&self) -> (metadata: Option<&DecodedAudioTransportMetadata>)
        ensures
            (match metadata {
                Some(metadata) => Some(*metadata),
                None => None,
            }) == self.decoded_metadata,
    {
        match &self.decoded_metadata {
            Some(metadata) => Some(metadata),
            None => None,
        }
    }

    /// Whether the output can be heard, as text. `device` is the name of the device
    /// of an open output.
    pub open spec fn audio_text(&self, device: Option<Seq<char>>) -> Seq<char> {
        match self.audio_error {
            Some(error) => "audio unavailable ("@ + error@ + ")"@,
            None => if self.audio_open {
                "audio ready via "@ + self.audio_backend.text() + " ("@ + (match device {
                    Some(device) => device,
                    None => "default playback"@,
                }) + ")"@
            } else {
                "audio closed"@
            },
        }
    }

    pub fn audio_status_text(&self, device: Option<&str>) -> (text: String)
        ensures
            text@ == self.audio_text(error_view(device)),
    {
        if let Some(error) = &self.audio_error {
            let mut text = "audio unavailable (".to_owned();
            text.append(error.as_str());
            text.append(")");
            return text;
        }
        if !self.audio_open {
            return "audio closed".to_owned();
        }
        let mut text = "audio ready via ".to_owned();
        text.append(self.audio_backend.name());
        text.append(" (");
        match device {
            Some(device) => text.append(device),
            None => text.append("default playback"),
        }
        text.append(")");
        text
    }

    /// The state of playback as one line. `engine` is how many synthesizers the
    /// engine has and its sample rate.
    pub open spec fn line(&self, engine: Option<(usize, u32)>, device: Option<Seq<char>>) -> Seq<char> {
        match (self.decoded, self.decoded_metadata) {
            (Some(_), Some(metadata)) => metadata.friendly_name@ + ", "@ + decimal(
                metadata.sample_rate as nat,
            ) + " Hz, "@ + decimal(metadata.channels as nat) + " channel(s), "@ + self.audio_text(
                device,
            ),
            _ => match engine {
                Some((instances, rate)) => decimal(instances as nat) + " synth(s), "@ + decimal(
                    rate as nat,
                ) + " Hz, "@ + self.audio_text(device),
                None => "no MIDI loaded"@,
            },
        }
    }

    pub fn status_line(&self, engine: Option<(usize, u32)>, device: Option<&str>) -> (text: String)
        requires
            self.wf(),
        ensures
            text@ == self.line(engine, error_view(device)),
    {
        let audio = self.audio_status_text(device);
        match (&self.decoded, &self.decoded_metadata) {
            (Some(_), Some(metadata)) => {
                let mut text = metadata.friendly_name.clone();
                text.append(", ");
                push_decimal(&mut text, metadata.sample_rate as u128);
                text.append(" Hz, ");
                push_decimal(&mut text, metadata.channels as u128);
                text.append(" channel(s), ");
                text.append(audio.as_str());
                text
            },
            _ => match engine {
                Some((instances, rate)) => {
                    let mut text = crate::text::decimal_text(instances as u128);
                    text.append(" synth(s), ");
                    push_decimal(&mut text, rate as u128);
                    text.append(" Hz, ");
                    text.append(audio.as_str());
                    text
                },
                None => "no MIDI loaded".to_owned(),
            },
        }
    }

    /// Whether the equalizer of decoded audio can be set, given whether its settings
    /// are valid.
    pub fn set_decoded_peq_config(&self, prepared: Result<(), String>) -> (allowed: Result<
        (),
        FlutzError,
    >)
        ensures
            match prepared {
                Err(error) => allowed is Err && allowed->Err_0@ == (
                    ErrorKind::InvalidInput,
                    "invalid decoded audio PEQ config: "@ + error@,
                ),
                Ok(_) => if self.decoded is Some {
                    allowed is Ok
                } else {
                    allowed is Err && allowed->Err_0@ == (
                        ErrorKind::InvalidInput,
                        "load decoded audio before editing PEQ"@,
                    )
                },
            },
    {
        match prepared {
            Err(error) => Err(
                FlutzError::InvalidInput(
                    failure("invalid decoded audio PEQ config: ", error.as_str()),
                ),
            ),
            Ok(_) => if self.decoded.is_some() {
                Ok(())
            } else {
                Err(FlutzError::InvalidInput("load decoded audio before editing PEQ".to_owned()))
            },
        }
    }
}

/// Two profiles with the same contents.
pub open spec fn same_profile(a: MidiDemandProfile, b: MidiDemandProfile) -> bool {
    &&& a.channel_roles@ == b.channel_roles@
    &&& a.melodic_programs@ == b.melodic_programs@
    &&& a.percussion_channels@ == b.percussion_channels@
}

pub fn copy_profile(profile: &MidiDemandProfile) -> (copy: MidiDemandProfile)
    ensures
        same_profile(copy, *profile),
{
    let channel_roles = profile.channel_roles.clone();
    let melodic_programs = profile.melodic_programs.clone();
    let percussion_channels = profile.percussion_channels.clone();
    assert(channel_roles@ =~= profile.channel_roles@);
    assert(melodic_programs@ =~= profile.melodic_programs@);
    assert(percussion_channels@ =~= profile.percussion_channels@);
    MidiDemandProfile { channel_roles, melodic_programs, percussion_channels }
}

/// A clock of 64 bits after some more frames.
pub open spec fn wrapped_clock(clock: u64, frames: u64) -> u64 {
    ((clock + frames) % 0x1_0000_0000_0000_0000) as u64
}

/// The text of an optional error.
pub open spec fn error_view(error: Option<&str>) -> Option<Seq<char>> {
    match error {
        Some(error) => Some(error@),
        None => None,
    }
}

/// What is noted of the pause of an output.
pub open spec fn pause_noted(
    open: bool,
    error: Option<Seq<char>>,
    before: Option<String>,
    after: Option<String>,
) -> bool {
    if open && error is Some {
        optional_text(after) == Some(failure_text("audio pause failed: "@, error->Some_0))
    } else {
        after == before
    }
}

/// What the user is told where playback cannot be heard.
pub open spec fn play_failure_text(failed: PlayFailure, error: Seq<char>) -> Seq<char> {
    match failed {
        PlayFailure::Open => failure_text("audio unavailable: "@, error),
        PlayFailure::Resume => failure_text("audio resume failed: "@, error),
    }
}

/// The summary of loaded decoded audio.
pub open spec fn decoded_summary(
    metadata: DecodedAudioTransportMetadata,
    streaming: bool,
    duration: Seq<char>,
) -> Seq<char> {
    "Loaded "@ + metadata.friendly_name@ + (if streaming {
        " decoded audio stream, "@
    } else {
        " decoded audio, "@
    }) + duration + "s, "@ + decimal(metadata.sample_rate as nat) + " Hz, "@ + decimal(
        metadata.channels as nat,
    ) + " channel(s)"@
}

fn same_bytes(left: &[u8], right: &[u8]) -> (same: bool)
    ensures
        same == (left@ == right@),
{
    if left.len() != right.len() {
        return false;
    }
    let mut i: usize = 0;
    while i < left.len()
        invariant
            i <= left@.len(),
            left@.len() == right@.len(),
            forall|k: int| 0 <= k < i ==> left@[k] == right@[k],
        decreases left@.len() - i,
    {
        if left[i] != right[i] {
            return false;
        }
        i = i + 1;
    }
    assert(left@ =~= right@);
    true
}

/// Whether idle memory is kept after playback was moved: an engine that plays or
/// is paused will need it.
pub fn keeps_idle_memory(engine: Option<PlaybackState>) -> (keeps: bool)
    ensures
        keeps == (engine is Some && engine->Some_0 != PlaybackState::Stopped),
{
    match engine {
        Some(state) => state != PlaybackState::Stopped,
        None => false,
    }
}

/// Decoded audio is loaded with what its metadata says: it starts at its first frame,
/// stopped and without a loop, and the output takes its sample rate and two channels. Audio
/// without a rate or without channels is refused, and leaves the controller as it was.
pub proof fn decoded_audio_starts_at_its_first_frame<S>(
    before: PlaybackController<S>,
    after: PlaybackController<S>,
    metadata: DecodedAudioTransportMetadata,
    streaming: bool,
    duration: Seq<char>,
    samples: Option<Vec<S>>,
    stream: Option<DecodedStreamCache<S>>,
    block_frames: u16,
    summary: Result<String, FlutzError>,
)
    requires
        before.loaded_decoded(
            after,
            metadata,
            streaming,
            duration,
            samples,
            stream,
            block_frames,
            summary,
        ),
    ensures
        summary is Ok <==> metadata.sample_rate > 0 && metadata.channels > 0,
        summary is Err ==> after == before,
        summary is Ok ==> {
            &&& after.decoded is Some
            &&& after.decoded->Some_0.position_frame == 0
            &&& after.decoded->Some_0.state == DecodedPlaybackState::Stopped
            &&& after.decoded->Some_0.sample_rate == metadata.sample_rate
            &&& after.decoded->Some_0.channels == metadata.channels
            &&& after.decoded->Some_0.frame_length == metadata.frame_length
            &&& after.decoded->Some_0.samples == samples
            &&& after.decoded->Some_0.stream == stream
            &&& !after.decoded->Some_0.loop_settings.enabled
            &&& after.decoded->Some_0.counted_loops_remaining == 0
            &&& after.decoded_metadata == Some(metadata)
            &&& after.audio_config.sample_rate == metadata.sample_rate
            &&& after.audio_config.channels == 2
            &&& after.audio_config.internal_block_frames == block_frames
            &&& !after.engine_loaded
            &&& after.loaded_midi is None
            &&& after.loaded_midi_bytes is None
            &&& after.loaded_soundfonts@.len() == 0
            &&& after.midi_strips@.len() == 0
            &&& after.rendered_frame_clock == 0
            &&& !after.audio_open
            &&& after.audio_error is None
            &&& after.catalog == before.catalog
            &&& after.mixer_controls == before.mixer_controls
            &&& after.audio_backend == before.audio_backend
            &&& !after.is_playing(None)
        },
{
}

/// Playback is on where the engine plays or decoded audio does, and nowhere else.
pub proof fn playing_is_told_of_either_source<S>(
    controller: PlaybackController<S>,
    engine: Option<PlaybackState>,
)
    ensures
        engine == Some(PlaybackState::Playing) ==> controller.is_playing(engine),
        controller.decoded is Some && controller.decoded->Some_0.state
            == DecodedPlaybackState::Playing ==> controller.is_playing(engine),
        controller.is_playing(engine) ==> engine == Some(PlaybackState::Playing) || (
        controller.decoded is Some && controller.decoded->Some_0.state
            == DecodedPlaybackState::Playing),
        controller.decoded is Some ==> controller.loop_target() == TransportTarget::Decoded,
        controller.decoded is None && controller.engine_loaded ==> controller.loop_target()
            == TransportTarget::Engine,
        controller.decoded is None && !controller.engine_loaded ==> controller.loop_target()
            == TransportTarget::Nothing,
{
}

/// The clock counts the frames that were rendered.
pub proof fn the_clock_counts_frames(clock: u64, frames: u64)
    ensures
        clock + frames <= u64::MAX ==> wrapped_clock(clock, frames) - clock == frames,
        clock + frames > u64::MAX ==> wrapped_clock(clock, frames) < clock,
{
    if clock + frames <= u64::MAX {
        assert((clock + frames) % 0x1_0000_0000_0000_0000 == clock + frames);
    } else {
        assert((clock + frames) % 0x1_0000_0000_0000_0000 == clock + frames
            - 0x1_0000_0000_0000_0000);
    }
}

/// The newest frame of the history is the one that was recorded last, it is kept with the
/// time at which it ended, and no earlier frame is added or changed.
pub proof fn snapshots_are_recorded_in_order(
    frames: Seq<SnapshotFrame<RealtimeMixerSnapshot>>,
    end: u64,
    snapshot: RealtimeMixerSnapshot,
    sample_rate: u32,
)
    requires
        retention(sample_rate) >= 0,
    ensures
        ({
            let after = recorded_frames(frames, end, snapshot, sample_rate);
            &&& after.len() > 0
            &&& after.last() == (SnapshotFrame { rendered_frame_end: end, snapshot })
            &&& after.len() <= frames.len() + 1
            &&& forall|i: int|
                0 <= i < after.len() - 1 ==> (#[trigger] after[i]) == frames[i + frames.len() + 1
                    - after.len()]
        }),
{
    let all = frames.push(SnapshotFrame { rendered_frame_end: end, snapshot });
    let cutoff = monus(end as int, retention(sample_rate));
    let after = pruned(all, cutoff);
    lemma_pruned_suffix(all, cutoff);
    assert(after.len() > 0) by {
        crate::playback::history::lemma_pruned_keeps_last(all, cutoff);
    }
    assert(after.last() == all[all.len() - 1]);
    assert forall|i: int| 0 <= i < after.len() - 1 implies (#[trigger] after[i]) == frames[i
        + frames.len() + 1 - after.len()] by {
        assert(after[i] == all[i + all.len() - after.len()]);
    }
}

proof fn lemma_pruned_suffix(frames: Seq<SnapshotFrame<RealtimeMixerSnapshot>>, cutoff: int)
    ensures
        pruned(frames, cutoff).len() <= frames.len(),
        pruned(frames, cutoff) == frames.skip(frames.len() - pruned(frames, cutoff).len()),
    decreases frames.len(),
{
    let after = pruned(frames, cutoff);
    if frames.len() > 0 && frames[0].rendered_frame_end < cutoff {
        let rest = frames.drop_first();
        lemma_pruned_suffix(rest, cutoff);
        assert(frames.skip(frames.len() - after.len()) =~= rest.skip(rest.len() - after.len()));
    } else {
        assert(frames.skip(0) =~= frames);
    }
}

/// The output is behind by what waits in its queues while it is open, and by nothing while it
/// is closed.
pub proof fn closed_outputs_are_not_behind<S>(
    controller: PlaybackController<S>,
    audio: Option<AudioDeviceDiagnostics>,
)
    ensures
        !controller.audio_open || audio is None ==> controller.latency(audio).total_frames == 0,
        controller.audio_open && audio is Some && audio->Some_0.ring_retained_bytes > 0
            ==> controller.latency(audio).wrapper_queue_frames
            == audio->Some_0.ring_available_frames,
{
}

/// A pause that fails is noted with what went wrong, and only where the output is open; any
/// other leaves what was noted before.
pub proof fn failed_pauses_are_noted(
    open: bool,
    error: Option<Seq<char>>,
    before: Option<String>,
    after: Option<String>,
)
    requires
        pause_noted(open, error, before, after),
    ensures
        !open || error is None ==> after == before,
        open && error is Some ==> optional_text(after) == Some(
            "audio pause failed: "@ + error->Some_0,
        ),
{
}

} // verus!
