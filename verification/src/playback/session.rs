//! Loading a MIDI file step by step. Between the steps the output is paused,
//! soundfonts are planned and loaded, and the engine takes over the file.
use crate::catalog::{catalog_ids, SoundFontCoverage};
use crate::error::{ErrorKind, FlutzError};
use crate::json::optional_text;
use crate::playback::churn::no_churn_recorded;
use crate::playback::controller::{failure_text, is_silent, same_profile, AudioDeviceConfig};
use crate::playback::controller::{error_view, PlaybackController, RenderLayerTransition};
use crate::playback::demand::resolved_ids;
use crate::playback::diagnostics::{with_replacement, PlaybackMemoryDebug};
use crate::playback::flux_guard::fresh_guard;
use crate::playback::load::{attempts_of, failure_line, failure_message, fallback_note};
use crate::playback::load::{fallback_note_of, load_summary, midi_load_summary, text_lists};
use crate::playback::load::{MidiFileScan, MidiLoadAttempts, MidiLoadFacts};
use crate::playback::midi_scan::MidiFileLoopType;
use crate::playback::strips::MidiStripDescriptor;
use crate::playback::subset::{kept_views, satisfies_plans, transition_of, SoundFontSubsetPlanDebug};
use crate::playback::transport::MidiTransportMetadata;
use crate::text::{clone_texts, texts};
use crate::text_map::TextMap;
use vstd::prelude::*;
use vstd::string::*;

verus! {

/// A MIDI file that is being loaded.
#[derive(Debug)]
pub struct MidiLoad {
    pub requested: Vec<String>,
    pub soundfont_ids: Vec<String>,
    pub source: String,
    pub midi_bytes: Vec<u8>,
    pub loop_type: MidiFileLoopType,
    pub transition: RenderLayerTransition,
    pub search: Option<MidiLoadAttempts>,
    pub fallback_note: Option<String>,
}

/// What is to be done next.
#[derive(Debug, Copy, Clone, PartialEq, Eq, Structural)]
pub enum MidiLoadStep {
    /// The subsets of the chosen soundfonts are planned.
    PlanFonts,
    /// The engine that is loaded takes over the file.
    LoadIntoEngine,
    /// The soundfonts of the current attempt are loaded, and a new engine for them.
    TryFonts,
    /// Nothing: no attempt is left.
    Failed,
}

/// What the engine says of a file that it has taken over. The duration comes with two
/// decimals.
#[derive(Debug)]
pub struct LoadedMidi {
    pub byte_len: usize,
    pub duration_text: String,
    pub transport: MidiTransportMetadata,
    pub strips: Vec<MidiStripDescriptor>,
    pub coverages: TextMap<SoundFontCoverage>,
    pub sysex_event_count: usize,
    pub recognized_sysex_event_count: usize,
    pub percussion_channels: Vec<u64>,
}

impl MidiLoad {
    /// There is a current attempt once soundfonts are tried.
    pub open spec fn wf(&self) -> bool {
        match self.search {
            Some(search) => search.wf(),
            None => true,
        }
    }

    /// Soundfonts are tried, and an attempt is left.
    pub open spec fn is_trying(&self) -> bool {
        match self.search {
            Some(search) => search.wf() && search.next < search.attempts@.len(),
            None => false,
        }
    }

    /// The soundfonts of the current attempt.
    pub open spec fn attempt(&self) -> Seq<Seq<char>> {
        let search = self.search->Some_0;
        texts(search.attempts@[search.next as int]@)
    }

    /// The soundfonts of the current attempt.
    pub fn current_fonts(&self) -> (ids: Option<&Vec<String>>)
        requires
            self.wf(),
        ensures
            match ids {
                Some(ids) => self.is_trying() && texts(ids@) == self.attempt(),
                None => !self.is_trying(),
            },
    {
        match &self.search {
            Some(search) => search.current(),
            None => None,
        }
    }

    /// The error once no attempt is left.
    pub fn failure(&self) -> (error: FlutzError)
        ensures
            error@ == (
                ErrorKind::InvalidInput,
                failure_message(
                    match self.search {
                        Some(search) => texts(search.errors@),
                        None => Seq::empty(),
                    },
                ),
            ),
    {
        match &self.search {
            Some(search) => search.failure(),
            None => {
                let search = MidiLoadAttempts {
                    attempts: Vec::new(),
                    next: 0,
                    errors: Vec::new(),
                };
                assert(texts(search.errors@) =~= Seq::<Seq<char>>::empty());
                search.failure()
            },
        }
    }

    /// Takes in that the current attempt failed.
    pub fn attempt_failed(&mut self, error: &str) -> (step: MidiLoadStep)
        requires
            old(self).is_trying(),
        ensures
            final(self).wf(),
            *final(self) == (MidiLoad { search: final(self).search, ..*old(self) }),
            final(self).search is Some,
            ({
                let before = old(self).search->Some_0;
                let after = final(self).search->Some_0;
                &&& after.attempts == before.attempts
                &&& after.next == before.next + 1
                &&& texts(after.errors@) == texts(before.errors@).push(
                    failure_line(old(self).attempt(), error@),
                )
            }),
            step == if final(self).is_trying() {
                MidiLoadStep::TryFonts
            } else {
                MidiLoadStep::Failed
            },
    {
        match &mut self.search {
            Some(search) => {
                search.fail(error);
                if search.next < search.attempts.len() {
                    MidiLoadStep::TryFonts
                } else {
                    MidiLoadStep::Failed
                }
            },
            None => MidiLoadStep::Failed,
        }
    }
}

/// Whether a load has begun to try soundfonts: the chosen ones first.
pub open spec fn starts_trying<S>(
    controller: PlaybackController<S>,
    before: MidiLoad,
    after: MidiLoad,
) -> bool {
    &&& after == (MidiLoad { search: after.search, ..before })
    &&& after.is_trying()
    &&& after.search->Some_0.next == 0
    &&& after.search->Some_0.errors@.len() == 0
    &&& text_lists(after.search->Some_0.attempts@) == attempts_of(
        catalog_ids(controller.catalog@),
        texts(before.requested@),
        texts(before.soundfont_ids@),
    )
    &&& after.attempt() == texts(before.soundfont_ids@)
}

impl<S> PlaybackController<S> {
    /// Begins to load a MIDI file that was scanned: soundfonts are chosen for it. The
    /// output is to be paused next. `engine_tick` is the position of the engine.
    pub fn load_midi_bytes(
        &mut self,
        scan: MidiFileScan,
        requested: Vec<String>,
        source: String,
        midi_bytes: Vec<u8>,
        engine_tick: Option<u64>,
    ) -> (load: Result<MidiLoad, FlutzError>)
        requires
            old(self).wf(),
        ensures
            final(self).wf(),
            *final(self) == (PlaybackController {
                decoded: None,
                decoded_metadata: None,
                last_demand_profile: scan.demand_profile,
                last_midi_scan: scan.diagnostics,
                last_soundfont_demand: final(self).last_soundfont_demand,
                ..*old(self)
            }),
            match (resolved_ids(old(self).catalog@, texts(requested@), scan.channel_roles@), load) {
                (Some(ids), Ok(load)) => {
                    &&& load.wf()
                    &&& load.requested == requested
                    &&& texts(load.soundfont_ids@) == ids
                    &&& load.source == source
                    &&& load.midi_bytes == midi_bytes
                    &&& load.loop_type == scan.detected_loop_type
                    &&& load.transition.warmup_tick == if old(self).loaded_midi_bytes is Some
                        && old(self).loaded_midi_bytes->Some_0@ == midi_bytes@ && texts(
                        old(self).loaded_soundfonts@,
                    ) != ids {
                        engine_tick
                    } else {
                        None
                    }
                    &&& load.search is None
                    &&& load.fallback_note is None
                    &&& final(self).demand_is_for(texts(requested@), ids)
                    &&& same_profile(
                        final(self).last_soundfont_demand.demand_profile,
                        scan.demand_profile,
                    )
                },
                (None, Err(error)) => {
                    &&& error@ == (
                        ErrorKind::InvalidInput,
                        "no soundfonts are available in the DAT data folder"@,
                    )
                    &&& final(self).last_soundfont_demand == old(self).last_soundfont_demand
                },
                _ => false,
            },
    {
        let loop_type = scan.detected_loop_type;
        match self.begin_midi_load(scan, requested.as_slice()) {
            Ok(soundfont_ids) => {
                let transition = self.capture_render_layer_transition(
                    midi_bytes.as_slice(),
                    soundfont_ids.as_slice(),
                    engine_tick,
                );
                Ok(
                    MidiLoad {
                        requested,
                        soundfont_ids,
                        source,
                        midi_bytes,
                        loop_type,
                        transition,
                        search: None,
                        fallback_note: None,
                    },
                )
            },
            Err(error) => Err(error),
        }
    }

    fn start_trying(&mut self, load: &mut MidiLoad) -> (step: MidiLoadStep)
        requires
            old(self).wf(),
        ensures
            final(self).wf(),
            *final(self) == (PlaybackController {
                audio_open: false,
                audio_error: None,
                ..*old(self)
            }),
            starts_trying(*old(self), *old(load), *final(load)),
            step == MidiLoadStep::TryFonts,
    {
        self.close_audio();
        let search = MidiLoadAttempts::start(
            self.catalog.as_slice(),
            load.requested.as_slice(),
            load.soundfont_ids.as_slice(),
        );
        proof {
            let lists = text_lists(search.attempts@);
            assert(lists[0] == texts(load.soundfont_ids@));
            assert(lists.len() == search.attempts@.len());
        }
        load.search = Some(search);
        MidiLoadStep::TryFonts
    }

    /// Takes in that an open output was paused, or failed to be. If the chosen
    /// soundfonts are those that are loaded, their subsets are looked at; else they
    /// are loaded.
    pub fn midi_load_paused(
        &mut self,
        load: &mut MidiLoad,
        pause_error: Option<&str>,
        sample_rate: u32,
        block_frames: u16,
    ) -> (step: MidiLoadStep)
        requires
            old(self).wf(),
            old(load).wf(),
        ensures
            final(self).wf(),
            final(load).wf(),
            ({
                let may_serve = texts(old(self).loaded_soundfonts@) == texts(
                    old(load).soundfont_ids@,
                ) && old(self).engine_loaded;
                let config = AudioDeviceConfig {
                    sample_rate,
                    channels: 2,
                    internal_block_frames: block_frames,
                };
                if may_serve {
                    &&& step == MidiLoadStep::PlanFonts
                    &&& *final(load) == *old(load)
                    &&& *final(self) == (PlaybackController {
                        audio_config: config,
                        audio_error: final(self).audio_error,
                        ..*old(self)
                    })
                    &&& if old(self).audio_open && pause_error is Some {
                        optional_text(final(self).audio_error) == Some(
                            failure_text(
                                "audio pause failed: "@,
                                error_view(pause_error)->Some_0,
                            ),
                        )
                    } else {
                        final(self).audio_error == old(self).audio_error
                    }
                } else {
                    &&& step == MidiLoadStep::TryFonts
                    &&& starts_trying(*old(self), *old(load), *final(load))
                    &&& *final(self) == (PlaybackController {
                        audio_config: config,
                        audio_open: false,
                        audio_error: None,
                        ..*old(self)
                    })
                }
            }),
    {
        if self.audio_open {
            match pause_error {
                Some(error) => self.note_pause_failure(error),
                None => {},
            }
        }
        self.set_audio_config(sample_rate, block_frames);
        if self.engine_may_serve(load.soundfont_ids.as_slice()) {
            MidiLoadStep::PlanFonts
        } else {
            self.start_trying(load)
        }
    }

    /// Takes in the plans for the soundfonts that are loaded. If what is loaded of them
    /// satisfies the plans the engine takes over the file; else they are loaded anew.
    pub fn midi_load_planned(
        &mut self,
        load: &mut MidiLoad,
        plans: TextMap<SoundFontSubsetPlanDebug>,
    ) -> (step: MidiLoadStep)
        requires
            old(self).wf(),
            old(load).wf(),
            plans.wf(),
        ensures
            final(self).wf(),
            final(load).wf(),
            if plans.entries@.len() == 0 {
                &&& step == MidiLoadStep::LoadIntoEngine
                &&& *final(load) == *old(load)
                &&& *final(self) == *old(self)
            } else if satisfies_plans(old(self).loaded_subset_state@, plans.entries@) {
                &&& step == MidiLoadStep::LoadIntoEngine
                &&& *final(load) == *old(load)
                &&& *final(self) == (PlaybackController {
                    last_subset_plans: plans,
                    subset_transition: transition_of(
                        old(self).loaded_subset_state@,
                        kept_views(old(self).loaded_subset_state@, plans.entries@),
                    ),
                    ..*old(self)
                })
            } else {
                &&& step == MidiLoadStep::TryFonts
                &&& starts_trying(*old(self), *old(load), *final(load))
                &&& *final(self) == (PlaybackController {
                    audio_open: false,
                    audio_error: None,
                    ..*old(self)
                })
            },
    {
        if self.loaded_subset_state_satisfies(plans) {
            MidiLoadStep::LoadIntoEngine
        } else {
            self.start_trying(load)
        }
    }

    /// Takes in that the soundfonts of the current attempt were loaded, with a new
    /// engine that covers what is given. `replaced` is what the old engine held.
    pub fn midi_load_fonts_loaded(
        &mut self,
        load: &mut MidiLoad,
        replaced: Option<&PlaybackMemoryDebug>,
        coverages: TextMap<SoundFontCoverage>,
    )
        requires
            old(self).wf(),
            old(load).is_trying(),
            coverages.wf(),
        ensures
            final(self).wf(),
            final(load).wf(),
            *final(load) == (MidiLoad { fallback_note: final(load).fallback_note, ..*old(load) }),
            optional_text(final(load).fallback_note) == fallback_note_of(
                texts(old(load).soundfont_ids@),
                old(load).attempt(),
            ),
            *final(self) == (PlaybackController {
                engine_loaded: true,
                loaded_soundfonts: final(self).loaded_soundfonts,
                loaded_coverages: coverages,
                lifecycle: match replaced {
                    Some(memory) => with_replacement(old(self).lifecycle, *memory),
                    None => old(self).lifecycle,
                },
                last_soundfont_demand: final(self).last_soundfont_demand,
                ..*old(self)
            }),
            texts(final(self).loaded_soundfonts@) == old(load).attempt(),
            final(self).demand_is_for(texts(old(load).requested@), old(load).attempt()),
            same_profile(
                final(self).last_soundfont_demand.demand_profile,
                old(self).last_demand_profile,
            ),
    {
        let resolved = match load.current_fonts() {
            Some(ids) => clone_texts(ids.as_slice()),
            None => Vec::new(),
        };
        load.fallback_note = fallback_note(load.soundfont_ids.as_slice(), resolved.as_slice());
        self.replace_engine(replaced, load.requested.as_slice(), resolved, coverages);
    }

    /// Ends a load once the engine has taken over the file: returns the summary for the
    /// user, and the position that the engine has to go to, if it keeps its place.
    pub fn midi_load_finished(&mut self, load: MidiLoad, loaded: LoadedMidi) -> (outcome: (
        String,
        Option<u64>,
    ))
        requires
            old(self).wf(),
            loaded.coverages.wf(),
        ensures
            final(self).wf(),
            *final(self) == (PlaybackController {
                loaded_midi: Some(load.source),
                loaded_midi_bytes: Some(load.midi_bytes),
                midi_transport: loaded.transport,
                midi_strips: loaded.strips,
                loaded_soundfonts: if old(self).loaded_soundfonts@.len() == 0 {
                    load.soundfont_ids
                } else {
                    old(self).loaded_soundfonts
                },
                loaded_coverages: if old(self).loaded_coverages.entries@.len() == 0
                    && old(self).engine_loaded {
                    loaded.coverages
                } else {
                    old(self).loaded_coverages
                },
                render_churn: no_churn_recorded(),
                history: final(self).history,
                rendered_frame_clock: 0,
                flux_guard: fresh_guard(),
                ..*old(self)
            }),
            is_silent(final(self).history),
            outcome.0@ == load_summary(
                MidiLoadFacts {
                    byte_len: loaded.byte_len,
                    instance_count: final(self).loaded_soundfonts@.len() as usize,
                    duration_seconds: loaded.duration_text,
                    tick_length: loaded.transport.tick_length,
                    jump_points: loaded.transport.jump_points,
                    loop_type: load.loop_type,
                    sysex_event_count: loaded.sysex_event_count,
                    recognized_sysex_event_count: loaded.recognized_sysex_event_count,
                    percussion_channels: loaded.percussion_channels,
                    fallback_note: load.fallback_note,
                },
            ),
            outcome.1 == load.transition.warmup_tick,
    {
        let LoadedMidi {
            byte_len,
            duration_text,
            transport,
            strips,
            coverages,
            sysex_event_count,
            recognized_sysex_event_count,
            percussion_channels,
        } = loaded;
        let tick_length: u64 = transport.tick_length;
        let jump_points = transport.jump_points.clone();
        assert(jump_points@ =~= transport.jump_points@);
        self.finish_midi_load(
            load.source,
            load.midi_bytes,
            transport,
            strips,
            load.soundfont_ids,
            coverages,
        );
        let facts = MidiLoadFacts {
            byte_len,
            instance_count: self.loaded_soundfonts.len(),
            duration_seconds: duration_text,
            tick_length,
            jump_points,
            loop_type: load.loop_type,
            sysex_event_count,
            recognized_sysex_event_count,
            percussion_channels,
            fallback_note: load.fallback_note,
        };
        (midi_load_summary(&facts), load.transition.warmup_tick)
    }
}

/// A load starts with the soundfonts that were resolved, before any others, and with no
/// failure noted.
pub proof fn loads_start_with_the_resolved_soundfonts<S>(
    controller: PlaybackController<S>,
    before: MidiLoad,
    after: MidiLoad,
)
    requires
        starts_trying(controller, before, after),
    ensures
        after.is_trying(),
        after.attempt() == texts(before.soundfont_ids@),
        after.search->Some_0.next == 0,
        after.search->Some_0.errors@.len() == 0,
        before.requested@.len() > 0 ==> after.search->Some_0.attempts@.len() == 1,
        after.requested == before.requested,
        after.soundfont_ids == before.soundfont_ids,
{
    assert(text_lists(after.search->Some_0.attempts@).len()
        == after.search->Some_0.attempts@.len());
}

} // verus!
