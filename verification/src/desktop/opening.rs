//! Opening and saving projects, and loading other soundfonts under one.
use crate::catalog::{find_entry, first_entry, holds_coverage, SoundFontCatalogEntry};
use crate::catalog::SoundFontCoverage;
use crate::desktop::app::{FlutzDesktopApp, MixerState, PresetChoice, ProjectState};
use crate::desktop::content::{decoded_content_state, midi_content_state, ContentKind};
use crate::desktop::content::{FormatDescriptor, LoadedContentState, MasteringCapability};
use crate::desktop::edits::{restore_soundfont_row_controls, restored_row};
use crate::desktop::loops::{fmid_has_non_default_loop_config, midi_has_non_default_loop_config};
use crate::desktop::loops::{no_loop_state, LoopMode, LoopState};
use crate::desktop::metadata::{edited_from, field_views, first_filled, first_non_empty};
use crate::desktop::metadata::{is_blank_text, no_metadata, EditedView, MetadataEditState};
use crate::desktop::metadata::{MetadataField, MetadataView};
use crate::desktop::peq::{PeqConfigSource, PeqEditState, PeqPresetLabel};
use crate::desktop::playlist::{goes_on, playlist_has_multiple_entries, AppRunState};
use crate::desktop::presets::{fmid_requested_soundfonts, fonts_asked_for, missing_preset_text};
use crate::desktop::presets::{preset_asked_for, MixerSourceMode};
use crate::desktop::project::{apply_fmid_mixer_settings, loaded_rows, mute_views, saved_views};
use crate::desktop::project::{FlutzAudioWrapper, FmidFile};
use crate::desktop::rows::{default_master, default_smart_mix, row_views, rows_for};
use crate::desktop::rows::{soundfont_rows_from_catalog, MasterControls, MixerAssignmentMode};
use crate::desktop::rows::{RowUiView, SmartMixControls, SoundFontUiRow};
use crate::json::{optional_text, truth};
use crate::level::Level;
use crate::playback::controller::{PlaybackController, TransportTarget};
use crate::playback::strips::slot_fits;
use crate::text::{decimal, decimal_text, join, joined, push_decimal, texts};
use crate::text_map::TextMap;
use vstd::prelude::*;
use vstd::string::*;

verus! {

/// A name, or what stands for it.
pub open spec fn name_or(name: Option<&str>, other: Seq<char>) -> Seq<char> {
    match name {
        Some(name) => name@,
        None => other,
    }
}

/// The text of an optional name.
pub open spec fn name_view(name: Option<&str>) -> Option<Seq<char>> {
    match name {
        Some(name) => Some(name@),
        None => None,
    }
}

/// What is loaded after a MIDI file was opened, or an FMID file.
pub open spec fn is_midi_content(content: Option<LoadedContentState>, fmid: bool) -> bool {
    match content {
        Some(content) => {
            &&& content.kind == if fmid {
                ContentKind::Fmid
            } else {
                ContentKind::Midi
            }
            &&& content.format_id@ == if fmid {
                "fmid"@
            } else {
                "midi"@
            }
            &&& content.friendly_name@ == if fmid {
                "Flutz MIDI project"@
            } else {
                "MIDI sequence"@
            }
            &&& content.mastering == MasteringCapability::MidiMastering
            &&& optional_text(content.wrapped_extension) == Some("fmid"@)
            &&& content.decoded_source_path is None
        },
        None => false,
    }
}

/// The first row's place in the catalog, or the first place.
pub open spec fn selected_for(catalog: Seq<SoundFontCatalogEntry>, rows: Seq<RowUiView>) -> int {
    if rows.len() == 0 {
        0
    } else {
        match first_entry(catalog, rows[0].internal_id, catalog.len() as int) {
            Some(i) => i,
            None => 0,
        }
    }
}

impl<S> FlutzDesktopApp<S> {
    /// Shows rows for soundfonts, without strips.
    pub fn show_rows(&mut self, ids: &[String])
        requires
            old(self).wf(),
            slot_fits(ids@.len() as int + 1),
        ensures
            final(self).wf(),
            *final(self) == (FlutzDesktopApp {
                mixer: MixerState {
                    soundfonts: final(self).mixer.soundfonts,
                    ..old(self).mixer
                },
                ..*old(self)
            }),
            row_views(final(self).mixer.soundfonts@) == rows_for(
                old(self).playback.catalog@,
                texts(ids@),
            ),
    {
        self.mixer.soundfonts =
        soundfont_rows_from_catalog(self.playback.catalog.as_slice(), ids);
        assert(self.mixer.soundfonts@.len() == row_views(self.mixer.soundfonts@).len());
    }

    fn start_project(&mut self, content: LoadedContentState, path: &str)
        requires
            old(self).wf(),
        ensures
            final(self).wf(),
            *final(self) == (FlutzDesktopApp {
                project: ProjectState {
                    loaded_content: Some(content),
                    current_path: final(self).project.current_path,
                    metadata_edit_dirty: false,
                    ..old(self).project
                },
                run_state: AppRunState::Idle,
                ..*old(self)
            }),
            optional_text(final(self).project.current_path) == Some(path@),
    {
        self.project.loaded_content = Some(content);
        self.project.current_path = Some(path.to_owned());
        self.project.metadata_edit_dirty = false;
        self.run_state = AppRunState::Idle;
    }

    /// Takes over a MIDI file that playback has loaded with the soundfonts of a
    /// preset. Everything that was set is forgotten. `file_name` is the last part of
    /// the path. The rows have no strips yet.
    pub fn midi_opened(&mut self, path: &str, file_name: Option<&str>, preset: usize)
        requires
            old(self).wf(),
            preset < old(self).choice.preset_set.presets@.len(),
            slot_fits(
                old(self).choice.preset_set.presets@[preset as int].font_ids@.len() as int + 1,
            ),
        ensures
            final(self).wf(),
            *final(self) == (FlutzDesktopApp {
                project: final(self).project,
                mixer: final(self).mixer,
                choice: PresetChoice {
                    active_preset_id: final(self).choice.active_preset_id,
                    selected_preset_id: final(self).choice.selected_preset_id,
                    ..old(self).choice
                },
                looping: old(self).loop_of_midi(),
                run_state: AppRunState::Idle,
                ..*old(self)
            }),
            is_midi_content(final(self).project.loaded_content, false),
            final(self).project.project_title@ == name_or(file_name, "Loaded MIDI"@),
            optional_text(final(self).project.current_path) == Some(path@),
            !final(self).project.dirty,
            !final(self).project.metadata_edit_dirty,
            final(self).project.metadata_edit_state@ == (EditedView {
                kept: MetadataView {
                    project_name: name_or(file_name, "Loaded MIDI"@),
                    source_filename: name_or(file_name, "embedded.mid"@),
                    ..no_metadata().kept
                },
                ..no_metadata()
            }),
            final(self).project.peq_edit_state == old(self).project.peq_edit_state,
            final(self).project.decoded_peq_bypass_enabled
                == old(self).project.decoded_peq_bypass_enabled,
            ({
                let chosen = old(self).choice.preset_set.presets@[preset as int];
                &&& final(self).choice.active_preset_id@ == chosen.id@
                &&& final(self).choice.selected_preset_id@ == chosen.id@
                &&& row_views(final(self).mixer.soundfonts@) == rows_for(
                    old(self).playback.catalog@,
                    texts(chosen.font_ids@),
                )
            }),
            final(self).mixer.is_fresh(old(self).mixer),
            holds_coverage(
                final(self).mixer.coverage_cache@,
                old(self).playback.catalog@,
                old(self).playback.loaded_coverages@,
            ),
    {
        let length: u64 = self.transport_tick_length();
        let playlist_goes_on = playlist_has_multiple_entries(self.playlist);
        self.start_project(midi_content_state(false), path);
        let (title, source) = match file_name {
            Some(name) => (name, name),
            None => ("Loaded MIDI", "embedded.mid"),
        };
        self.project.project_title = title.to_owned();
        self.project.metadata_edit_state = MetadataEditState::from_names(title, source);
        self.project.dirty = false;
        self.choose_preset(preset);
        self.mixer.soundfonts =
        soundfont_rows_from_catalog(
            self.playback.catalog.as_slice(),
            self.choice.preset_set.presets[preset].font_ids.as_slice(),
        );
        assert(self.mixer.soundfonts@.len() == row_views(self.mixer.soundfonts@).len());
        self.freshen_mixer();
        self.looping = LoopState::default();
        let own_loop = midi_has_non_default_loop_config(&self.playback.midi_transport);
        self.looping.apply_midi_transport_metadata(&self.playback.midi_transport, length);
        self.looping.apply_loop_defaults_after_load(own_loop, playlist_goes_on, length);
        self.sync_coverage_cache_from_playback();
    }

    /// The loop of a MIDI file that was opened.
    pub open spec fn loop_of_midi(&self) -> LoopState {
        let transport = self.playback.midi_transport;
        let own_loop = transport.jump_start_tick is Some || transport.jump_end_tick is Some
            || transport.jump_points@.len() > 0;
        no_loop_state().jumping(transport).normalized(self.length()).after_load(
            own_loop,
            goes_on(self.playlist),
            self.length(),
        )
    }

    fn freshen_mixer(&mut self)
        requires
            old(self).wf(),
        ensures
            final(self).wf(),
            *final(self) == (FlutzDesktopApp {
                mixer: MixerState {
                    master: default_master(),
                    smart_mix: default_smart_mix(),
                    mixer_assignment_mode: MixerAssignmentMode::Manual,
                    final_output_volume_percent: Level { bits: 0 },
                    ..old(self).mixer
                },
                ..*old(self)
            }),
    {
        self.mixer.master = MasterControls::default();
        self.mixer.smart_mix = SmartMixControls::default();
        self.mixer.mixer_assignment_mode = MixerAssignmentMode::Manual;
        self.mixer.final_output_volume_percent = Level { bits: 0 };
    }

    /// What an FMID file that is to be opened asks for: the soundfonts, whose rows are shown
    /// without strips, and what the user is told if its preset is not there, which stays as
    /// a warning.
    pub fn request_fmid(&mut self, file: &FmidFile) -> (request: (Vec<String>, Option<String>))
        requires
            old(self).wf(),
            slot_fits(
                fonts_asked_for(
                    old(self).choice.preset_set,
                    file.mixer_source_mode,
                    texts(file.soundfonts@),
                ).len() as int + 1,
            ),
        ensures
            final(self).wf(),
            texts(request.0@) == fonts_asked_for(
                old(self).choice.preset_set,
                file.mixer_source_mode,
                texts(file.soundfonts@),
            ),
            optional_text(request.1) == match file.mixer_source_mode {
                MixerSourceMode::Custom => None,
                MixerSourceMode::PresetDefault(id) => missing_preset_text(
                    old(self).choice.preset_set,
                    id@,
                ),
            },
            *final(self) == (FlutzDesktopApp {
                mixer: MixerState {
                    soundfonts: final(self).mixer.soundfonts,
                    ..old(self).mixer
                },
                choice: PresetChoice {
                    missing_preset_warning: final(self).choice.missing_preset_warning,
                    ..old(self).choice
                },
                ..*old(self)
            }),
            row_views(final(self).mixer.soundfonts@) == rows_for(
                old(self).playback.catalog@,
                texts(request.0@),
            ),
            match file.mixer_source_mode {
                MixerSourceMode::Custom => final(self).choice.missing_preset_warning
                    == old(self).choice.missing_preset_warning,
                MixerSourceMode::PresetDefault(_) => optional_text(
                    final(self).choice.missing_preset_warning,
                ) == optional_text(request.1),
            },
    {
        let (requested, message) = fmid_requested_soundfonts(
            &self.choice.preset_set,
            &file.mixer_source_mode,
            file.soundfonts.as_slice(),
        );
        match &file.mixer_source_mode {
            MixerSourceMode::Custom => {},
            MixerSourceMode::PresetDefault(_) => {
                self.choice.missing_preset_warning = match &message {
                    Some(text) => Some(text.clone()),
                    None => None,
                };
            },
        }
        assert(texts(requested@).len() == requested@.len());
        self.show_rows(requested.as_slice());
        (requested, message)
    }

    /// Shows the rows of the soundfonts that playback has loaded, if it has loaded any,
    /// without strips. Returns whether it has.
    pub fn show_loaded_rows(&mut self) -> (shown: bool)
        requires
            old(self).wf(),
            slot_fits(old(self).playback.loaded_soundfonts@.len() as int + 1),
        ensures
            final(self).wf(),
            shown == (old(self).playback.loaded_soundfonts@.len() > 0),
            if shown {
                &&& *final(self) == (FlutzDesktopApp {
                    mixer: MixerState {
                        soundfonts: final(self).mixer.soundfonts,
                        coverage_cache: final(self).mixer.coverage_cache,
                        ..old(self).mixer
                    },
                    ..*old(self)
                })
                &&& row_views(final(self).mixer.soundfonts@) == rows_for(
                    old(self).playback.catalog@,
                    texts(old(self).playback.loaded_soundfonts@),
                )
                &&& holds_coverage(
                    final(self).mixer.coverage_cache@,
                    old(self).playback.catalog@,
                    old(self).playback.loaded_coverages@,
                )
            } else {
                *final(self) == *old(self)
            },
    {
        let ids = self.playback.loaded_soundfont_ids();
        assert(texts(ids@).len() == ids@.len());
        assert(texts(self.playback.loaded_soundfonts@).len()
            == self.playback.loaded_soundfonts@.len());
        if ids.len() == 0 {
            return false;
        }
        self.show_rows(ids.as_slice());
        self.sync_coverage_cache_from_playback();
        true
    }

    /// Takes over an FMID file that playback has loaded. `file_name` is the last part
    /// of the path. What the file says of the mixer's strips is put back later.
    pub fn fmid_opened(&mut self, file: &FmidFile, path: &str, file_name: Option<&str>)
        requires
            old(self).wf(),
        ensures
            final(self).wf(),
            *final(self) == (FlutzDesktopApp {
                project: final(self).project,
                mixer: MixerState {
                    master: file.master,
                    smart_mix: file.smart_mix,
                    coverage_cache: final(self).mixer.coverage_cache,
                    ..old(self).mixer
                },
                looping: old(self).loop_of_fmid(*file),
                run_state: AppRunState::Idle,
                ..*old(self)
            }),
            is_midi_content(final(self).project.loaded_content, true),
            final(self).project.project_title@ == first_filled(
                file.project.project_name@,
                name_or(file_name, "Loaded FMID"@),
            ),
            optional_text(final(self).project.current_path) == Some(path@),
            !final(self).project.metadata_edit_dirty,
            final(self).project.metadata_edit_state@ == edited_from(
                file.project@,
                name_or(file_name, "Loaded FMID"@),
                "embedded.mid"@,
            ),
            final(self).project.dirty == old(self).project.dirty,
            final(self).project.peq_edit_state == old(self).project.peq_edit_state,
            final(self).project.decoded_peq_bypass_enabled
                == old(self).project.decoded_peq_bypass_enabled,
            holds_coverage(
                final(self).mixer.coverage_cache@,
                old(self).playback.catalog@,
                old(self).playback.loaded_coverages@,
            ),
    {
        let length: u64 = self.transport_tick_length();
        let playlist_goes_on = playlist_has_multiple_entries(self.playlist);
        self.start_project(midi_content_state(true), path);
        let name = match file_name {
            Some(name) => name,
            None => "Loaded FMID",
        };
        self.project.metadata_edit_state =
        MetadataEditState::from_fmid_project(&file.project, name, "embedded.mid");
        self.project.project_title = self.project.metadata_edit_state.project_name.clone();
        self.looping = LoopState::from_fmid(file.looping, length);
        let own_loop = fmid_has_non_default_loop_config(file.looping);
        self.looping.apply_loop_defaults_after_load(own_loop, playlist_goes_on, length);
        self.mixer.master = file.master;
        self.mixer.smart_mix = file.smart_mix;
        self.sync_coverage_cache_from_playback();
    }

    /// The loop of an FMID file that was opened.
    pub open spec fn loop_of_fmid(&self, file: FmidFile) -> LoopState {
        let looping = file.looping;
        let own_loop = looping.enabled || looping.mode != LoopMode::Off || looping.start_tick > 0
            || looping.end_tick > 0 || looping.loop_count > 1;
        LoopState::of_fmid(looping).normalized(self.length()).after_load(
            own_loop,
            goes_on(self.playlist),
            self.length(),
        )
    }

    /// Puts back what an FMID file says of the mixer: its own settings, or its preset.
    pub fn apply_fmid_mixer_source_mode(&mut self, file: &FmidFile)
        requires
            old(self).wf(),
        ensures
            final(self).wf(),
            match preset_asked_for(file.mixer_source_mode) {
                None => {
                    &&& *final(self) == (FlutzDesktopApp {
                        mixer: MixerState {
                            soundfonts: final(self).mixer.soundfonts,
                            mixer_assignment_mode: MixerAssignmentMode::Manual,
                            ..old(self).mixer
                        },
                        choice: PresetChoice {
                            active_preset_id: final(self).choice.active_preset_id,
                            ..old(self).choice
                        },
                        ..*old(self)
                    })
                    &&& final(self).choice.active_preset_id@ == "custom"@
                    &&& row_views(final(self).mixer.soundfonts@) == loaded_rows(
                        row_views(old(self).mixer.soundfonts@),
                        mute_views(file.row_mutes@),
                        saved_views(file.strips@),
                    )
                },
                Some(id) => {
                    let chosen = old(self).choice.preset_set.presets@[old(
                        self,
                    ).choice.preset_set.chosen(id)];
                    &&& *final(self) == (FlutzDesktopApp {
                        choice: PresetChoice {
                            active_preset_id: final(self).choice.active_preset_id,
                            selected_preset_id: final(self).choice.selected_preset_id,
                            ..old(self).choice
                        },
                        ..*old(self)
                    })
                    &&& final(self).choice.active_preset_id@ == chosen.id@
                    &&& final(self).choice.selected_preset_id@ == chosen.id@
                },
            },
    {
        match &file.mixer_source_mode {
            MixerSourceMode::Custom => {
                self.choice.active_preset_id = "custom".to_owned();
                self.mixer.mixer_assignment_mode = MixerAssignmentMode::Manual;
                let ghost before = row_views(self.mixer.soundfonts@);
                apply_fmid_mixer_settings(&mut self.mixer.soundfonts, file);
                proof {
                    crate::desktop::project::loading_keeps_the_rows(
                        before,
                        mute_views(file.row_mutes@),
                        saved_views(file.strips@),
                    );
                    assert(self.mixer.soundfonts@.len() == row_views(self.mixer.soundfonts@).len());
                }
            },
            MixerSourceMode::PresetDefault(id) => {
                let preset: usize = self.choice.preset_set.preset_or_default(id.as_str());
                self.choose_preset(preset);
            },
        }
    }

    /// Ends opening a MIDI or FMID file: there is nothing to save, the user is told,
    /// and playback gets the controls and the loop. An engine is to be asked to take the
    /// loop.
    pub fn finish_opening(&mut self, status: String) -> (target: TransportTarget)
        requires
            old(self).wf(),
        ensures
            final(self).wf(),
            *final(self) == (FlutzDesktopApp {
                project: ProjectState {
                    dirty: false,
                    peq_edit_state: final(self).project.peq_edit_state,
                    ..old(self).project
                },
                playback: final(self).playback,
                status,
                ..*old(self)
            }),
            final(self).project.peq_edit_state.is_inactive(),
            old(self).loop_and_controls_are_given(*final(self), target),
    {
        self.sync_playback_controls();
        let target = self.sync_playback_loop_settings();
        self.project.dirty = false;
        self.project.peq_edit_state = PeqEditState::default();
        self.status = status;
        target
    }

    /// Takes over decoded audio that playback has loaded. `stem` is the stem of the
    /// path, and `embedded` the equalizer preset that the file holds, if it holds one.
    pub fn decoded_opened(
        &mut self,
        descriptor: &FormatDescriptor,
        is_wrapped: bool,
        path: &str,
        stem: Option<&str>,
        wrapper: &FlutzAudioWrapper,
        native_metadata: Vec<MetadataField>,
        embedded: Option<PeqPresetLabel>,
        status: String,
    ) -> (target: TransportTarget)
        requires
            old(self).wf(),
        ensures
            final(self).wf(),
            *final(self) == (FlutzDesktopApp {
                project: final(self).project,
                mixer: final(self).mixer,
                looping: LoopState::after_decoded_load(
                    wrapper.loop_region,
                    goes_on(old(self).playlist),
                    old(self).length(),
                ).normalized(old(self).length()),
                playback: final(self).playback,
                run_state: AppRunState::Idle,
                status,
                ..*old(self)
            }),
            old(self).loop_and_controls_are_given(*final(self), target),
            ({
                let title = first_filled(
                    wrapper.metadata.project_name@,
                    name_or(stem, "Loaded Audio"@),
                );
                let edited = edited_from(
                    wrapper.metadata@,
                    title,
                    wrapper.original_filename@,
                );
                let after = final(self).project;
                &&& after.project_title@ == title
                &&& optional_text(after.current_path) == Some(path@)
                &&& after.dirty == !is_wrapped
                &&& !after.metadata_edit_dirty
                &&& after.metadata_edit_state@ == (EditedView {
                    native_metadata: field_views(native_metadata@),
                    supports_native_metadata: true,
                    ..edited
                })
                &&& after.peq_edit_state.is_of_track(embedded)
                &&& after.decoded_peq_bypass_enabled
                    == old(self).project.decoded_peq_bypass_enabled
                &&& after.loaded_content is Some
                &&& after.loaded_content->Some_0.mastering == descriptor.mastering
                &&& after.loaded_content->Some_0.format_id@ == descriptor.id@
                &&& after.loaded_content->Some_0.friendly_name@ == descriptor.friendly_name@
                &&& after.loaded_content->Some_0.kind == if is_wrapped {
                    ContentKind::DecodedAudioWrapper
                } else {
                    ContentKind::DecodedAudio
                }
                &&& optional_text(after.loaded_content->Some_0.wrapped_extension)
                    == if descriptor.wrapped_extensions@.len() > 0 {
                    Some(descriptor.wrapped_extensions@[0]@)
                } else {
                    None
                }
                &&& optional_text(after.loaded_content->Some_0.decoded_source_path)
                    == if is_wrapped {
                    None
                } else {
                    Some(path@)
                }
            }),
            final(self).mixer.soundfonts@.len() == 0,
            final(self).mixer.coverage_cache@ == Map::<Seq<char>, SoundFontCoverage>::empty(),
            final(self).mixer.selected_soundfont == 0,
            final(self).mixer.is_fresh(
                MixerState { selected_soundfont: 0, ..old(self).mixer },
            ),
    {
        let length: u64 = self.transport_tick_length();
        let playlist_goes_on = playlist_has_multiple_entries(self.playlist);
        self.start_project(decoded_content_state(descriptor, is_wrapped, path), path);
        let fallback = match stem {
            Some(stem) => stem,
            None => "Loaded Audio",
        };
        let title = first_non_empty(wrapper.metadata.project_name.as_str(), fallback);
        let metadata = MetadataEditState::from_track_metadata(
            &wrapper.metadata,
            title.as_str(),
            wrapper.original_filename.as_str(),
        );
        self.project.metadata_edit_state = metadata.with_native_metadata(native_metadata);
        self.project.project_title = title;
        self.project.peq_edit_state.take_track(embedded);
        self.project.dirty = !is_wrapped;
        self.mixer.soundfonts = Vec::new();
        self.mixer.coverage_cache = TextMap::new();
        self.mixer.selected_soundfont = 0;
        self.freshen_mixer();
        self.looping =
        LoopState::apply_decoded_audio_defaults(wrapper.loop_region, playlist_goes_on, length);
        self.status = status;
        self.sync_playback_controls();
        self.sync_playback_loop_settings()
    }

    fn note_saved(&mut self, path: &str)
        requires
            old(self).wf(),
        ensures
            final(self).wf(),
            *final(self) == (FlutzDesktopApp {
                project: ProjectState {
                    current_path: final(self).project.current_path,
                    project_title: final(self).project.project_title,
                    dirty: false,
                    metadata_edit_dirty: false,
                    ..old(self).project
                },
                status: final(self).status,
                ..*old(self)
            }),
            optional_text(final(self).project.current_path) == Some(path@),
            final(self).project.project_title@ == first_filled(
                old(self).project.metadata_edit_state.project_name@,
                old(self).project.project_title@,
            ),
            final(self).status@ == "Saved "@ + path@,
    {
        self.project.current_path = Some(path.to_owned());
        if !is_blank_text(self.project.metadata_edit_state.project_name.as_str()) {
            self.project.project_title = self.project.metadata_edit_state.project_name.clone();
        }
        self.project.dirty = false;
        self.project.metadata_edit_dirty = false;
        let mut text = "Saved ".to_owned();
        text.append(path);
        self.status = text;
    }

    /// Notes that an FMID file was saved.
    pub fn fmid_saved(&mut self, path: &str)
        requires
            old(self).wf(),
        ensures
            final(self).wf(),
            *final(self) == (FlutzDesktopApp {
                project: ProjectState {
                    current_path: final(self).project.current_path,
                    project_title: final(self).project.project_title,
                    dirty: false,
                    metadata_edit_dirty: false,
                    peq_edit_state: PeqEditState {
                        source: PeqConfigSource::Wrapper,
                        preset_path: None,
                        dirty: false,
                        ..old(self).project.peq_edit_state
                    },
                    ..old(self).project
                },
                status: final(self).status,
                ..*old(self)
            }),
            optional_text(final(self).project.current_path) == Some(path@),
            final(self).project.project_title@ == first_filled(
                old(self).project.metadata_edit_state.project_name@,
                old(self).project.project_title@,
            ),
            final(self).status@ == "Saved "@ + path@,
    {
        self.note_saved(path);
        self.project.peq_edit_state.saved_with_project();
    }

    /// Notes that an audio wrapper was saved.
    pub fn wrapper_saved(&mut self, path: &str)
        requires
            old(self).wf(),
        ensures
            final(self).wf(),
            *final(self) == (FlutzDesktopApp {
                project: ProjectState {
                    loaded_content: match old(self).project.loaded_content {
                        Some(content) => Some(
                            LoadedContentState {
                                kind: ContentKind::DecodedAudioWrapper,
                                ..content
                            },
                        ),
                        None => None,
                    },
                    current_path: final(self).project.current_path,
                    project_title: final(self).project.project_title,
                    dirty: false,
                    metadata_edit_dirty: false,
                    ..old(self).project
                },
                status: final(self).status,
                ..*old(self)
            }),
            optional_text(final(self).project.current_path) == Some(path@),
            final(self).project.project_title@ == first_filled(
                old(self).project.metadata_edit_state.project_name@,
                old(self).project.project_title@,
            ),
            final(self).status@ == "Saved "@ + path@,
    {
        self.note_saved(path);
        match &mut self.project.loaded_content {
            Some(content) => {
                content.kind = ContentKind::DecodedAudioWrapper;
            },
            None => {},
        }
    }

    /// Tells the user that a file could not be read or written.
    pub fn file_failed(&mut self, reading: bool, path: &str, error: &str)
        requires
            old(self).wf(),
        ensures
            final(self).wf(),
            *final(self) == (FlutzDesktopApp { status: final(self).status, ..*old(self) }),
            final(self).status@ == (if reading {
                "failed to read "@
            } else {
                "failed to write "@
            }) + path@ + ": "@ + error@,
    {
        let mut text = if reading {
            "failed to read ".to_owned()
        } else {
            "failed to write ".to_owned()
        };
        text.append(path);
        text.append(": ");
        text.append(error);
        self.status = text;
    }

    /// Tells the user to load decoded audio, unless it is loaded. Returns whether it
    /// is.
    pub fn require_decoded_audio(&mut self, otherwise: &str) -> (loaded: bool)
        requires
            old(self).wf(),
        ensures
            final(self).wf(),
            loaded == (old(self).mastering() == MasteringCapability::DecodedAudioPeq),
            if loaded {
                *final(self) == *old(self)
            } else {
                &&& *final(self) == (FlutzDesktopApp { status: final(self).status, ..*old(self) })
                &&& final(self).status@ == otherwise@
            },
    {
        if self.active_mastering_capability() != MasteringCapability::DecodedAudioPeq {
            self.status = otherwise.to_owned();
            return false;
        }
        true
    }

    /// Switches the bypass of the equalizer. Returns whether it changed.
    pub fn set_decoded_peq_bypass_enabled(&mut self, enabled: bool) -> (changed: bool)
        requires
            old(self).wf(),
        ensures
            final(self).wf(),
            changed == (old(self).project.decoded_peq_bypass_enabled != enabled),
            *final(self) == (FlutzDesktopApp {
                project: ProjectState {
                    decoded_peq_bypass_enabled: enabled,
                    ..old(self).project
                },
                ..*old(self)
            }),
    {
        let changed = self.project.decoded_peq_bypass_enabled != enabled;
        self.project.decoded_peq_bypass_enabled = enabled;
        changed
    }

    /// Takes over equalizer settings that playback accepted. `changed` says whether
    /// they differ from those before.
    pub fn peq_config_applied(
        &mut self,
        source: PeqConfigSource,
        preset_path: Option<String>,
        changed: bool,
        mark_dirty: bool,
    )
        requires
            old(self).wf(),
        ensures
            final(self).wf(),
            *final(self) == (FlutzDesktopApp {
                project: ProjectState {
                    peq_edit_state: PeqEditState {
                        preset_name: old(self).project.peq_edit_state.preset_name,
                        source,
                        preset_path,
                        dirty: mark_dirty && changed,
                    },
                    dirty: old(self).project.dirty || (changed && mark_dirty),
                    ..old(self).project
                },
                ..*old(self)
            }),
    {
        if self.project.peq_edit_state.take_config(source, preset_path, changed, mark_dirty) {
            self.project.dirty = true;
        }
    }

    /// Takes over a preset that was applied, with the soundfonts that are loaded for
    /// it. The rows have no strips yet; playback gets their controls when these are laid out.
    pub fn preset_applied(
        &mut self,
        preset: usize,
        ids: &[String],
        mark_dirty: bool,
        message: Option<&str>,
    )
        requires
            old(self).wf(),
            preset < old(self).choice.preset_set.presets@.len(),
            slot_fits(ids@.len() as int + 1),
        ensures
            final(self).wf(),
            *final(self) == (FlutzDesktopApp {
                choice: PresetChoice {
                    active_preset_id: final(self).choice.active_preset_id,
                    selected_preset_id: final(self).choice.selected_preset_id,
                    ..old(self).choice
                },
                mixer: MixerState {
                    mixer_assignment_mode: MixerAssignmentMode::Manual,
                    soundfonts: final(self).mixer.soundfonts,
                    coverage_cache: final(self).mixer.coverage_cache,
                    ..old(self).mixer
                },
                project: ProjectState {
                    dirty: old(self).project.dirty || mark_dirty,
                    ..old(self).project
                },
                status: final(self).status,
                ..*old(self)
            }),
            ({
                let chosen = old(self).choice.preset_set.presets@[preset as int];
                &&& final(self).choice.active_preset_id@ == chosen.id@
                &&& final(self).choice.selected_preset_id@ == chosen.id@
                &&& final(self).status@ == preset_status_text(
                    chosen.display_name@,
                    name_view(message),
                )
            }),
            row_views(final(self).mixer.soundfonts@) == rows_for(
                old(self).playback.catalog@,
                texts(ids@),
            ),
            holds_coverage(
                final(self).mixer.coverage_cache@,
                old(self).playback.catalog@,
                old(self).playback.loaded_coverages@,
            ),
    {
        self.choose_preset(preset);
        self.mixer.mixer_assignment_mode = MixerAssignmentMode::Manual;
        self.show_rows(ids);
        self.sync_coverage_cache_from_playback();
        self.project.dirty = self.project.dirty || mark_dirty;
        self.status =
        preset_status(
            self.choice.preset_set.presets[preset].display_name.as_str(),
            message,
        );
    }

    fn choose_preset(&mut self, preset: usize)
        requires
            old(self).wf(),
            preset < old(self).choice.preset_set.presets@.len(),
        ensures
            final(self).wf(),
            *final(self) == (FlutzDesktopApp {
                choice: PresetChoice {
                    active_preset_id: final(self).choice.active_preset_id,
                    selected_preset_id: final(self).choice.selected_preset_id,
                    ..old(self).choice
                },
                ..*old(self)
            }),
            final(self).choice.active_preset_id@ == old(self).choice.preset_set.presets@[preset as int].id@,
            final(self).choice.selected_preset_id@ == old(self).choice.preset_set.presets@[preset as int].id@,
    {
        self.choice.active_preset_id = self.choice.preset_set.presets[preset].id.clone();
        self.choice.selected_preset_id = self.choice.preset_set.presets[preset].id.clone();
    }

    /// Shows the rows of other soundfonts, and returns the rows that stood before. The
    /// new rows have no strips yet.
    pub fn change_soundfonts(&mut self, ids: &[String]) -> (previous: Vec<SoundFontUiRow>)
        requires
            old(self).wf(),
            slot_fits(ids@.len() as int + 1),
        ensures
            final(self).wf(),
            previous == old(self).mixer.soundfonts,
            *final(self) == (FlutzDesktopApp {
                mixer: MixerState {
                    mixer_assignment_mode: MixerAssignmentMode::Manual,
                    soundfonts: final(self).mixer.soundfonts,
                    coverage_cache: final(self).mixer.coverage_cache,
                    selected_soundfont: selected_for(
                        old(self).playback.catalog@,
                        row_views(final(self).mixer.soundfonts@),
                    ) as usize,
                    ..old(self).mixer
                },
                ..*old(self)
            }),
            row_views(final(self).mixer.soundfonts@) == rows_for(
                old(self).playback.catalog@,
                texts(ids@),
            ),
            holds_coverage(
                final(self).mixer.coverage_cache@,
                old(self).playback.catalog@,
                old(self).playback.loaded_coverages@,
            ),
    {
        let mut rows = soundfont_rows_from_catalog(self.playback.catalog.as_slice(), ids);
        assert(rows@.len() == row_views(rows@).len());
        let selected: usize = if rows.len() > 0 {
            assert(row_views(rows@)[0] == rows@[0]@);
            match find_entry(self.playback.catalog.as_slice(), rows[0].internal_id.as_str()) {
                Some(i) => i,
                None => 0,
            }
        } else {
            0
        };
        self.mixer.mixer_assignment_mode = MixerAssignmentMode::Manual;
        self.mixer.selected_soundfont = selected;
        std::mem::swap(&mut self.mixer.soundfonts, &mut rows);
        self.sync_coverage_cache_from_playback();
        rows
    }

    /// Whether `after` is a player whose playback was given the controls of its rows and,
    /// if a file was loaded anew, the loop of its track.
    pub open spec fn change_is_given(
        &self,
        after: FlutzDesktopApp<S>,
        loaded: bool,
        target: TransportTarget,
    ) -> bool {
        if loaded {
            self.loop_and_controls_are_given(after, target)
        } else {
            &&& target == TransportTarget::Nothing
            &&& after.playback == (PlaybackController {
                mixer_controls: after.playback.mixer_controls,
                ..self.playback
            })
            &&& after.has_given_controls()
        }
    }

    /// Gives playback the controls of the rows and, if a file was loaded anew, the loop of
    /// the track. This ends applying a preset, once the strips are laid out.
    pub fn finish_change(&mut self, loaded: bool) -> (target: TransportTarget)
        requires
            old(self).wf(),
        ensures
            final(self).wf(),
            *final(self) == (FlutzDesktopApp { playback: final(self).playback, ..*old(self) }),
            old(self).change_is_given(*final(self), loaded, target),
    {
        self.sync_playback_controls();
        if loaded {
            self.sync_playback_loop_settings()
        } else {
            TransportTarget::Nothing
        }
    }

    /// Ends a change of soundfonts: rows that stood before get their settings back,
    /// playback gets the controls, and the user is told. `message` is what playback says of
    /// a file that was loaded anew.
    pub fn soundfonts_changed(
        &mut self,
        previous: &[SoundFontUiRow],
        action: &str,
        message: Option<&str>,
    ) -> (target: TransportTarget)
        requires
            old(self).wf(),
        ensures
            final(self).wf(),
            *final(self) == (FlutzDesktopApp {
                mixer: MixerState {
                    soundfonts: final(self).mixer.soundfonts,
                    ..old(self).mixer
                },
                project: ProjectState { dirty: true, ..old(self).project },
                playback: final(self).playback,
                status: final(self).status,
                ..*old(self)
            }),
            old(self).change_is_given(*final(self), message is Some, target),
            row_views(final(self).mixer.soundfonts@) == row_views(
                old(self).mixer.soundfonts@,
            ).map_values(|row: RowUiView| restored_row(row, row_views(previous@))),
            final(self).status@ == match message {
                Some(message) => action@ + ": "@ + message@,
                None => action@,
            },
    {
        restore_soundfont_row_controls(&mut self.mixer.soundfonts, previous);
        assert(self.mixer.soundfonts@.len() == row_views(self.mixer.soundfonts@).len());
        let target = self.finish_change(message.is_some());
        self.project.dirty = true;
        let mut text = action.to_owned();
        match message {
            Some(message) => {
                text.append(": ");
                text.append(message);
            },
            None => {},
        }
        self.status = text;
        target
    }

    /// What is traced when a file has been scanned.
    pub open spec fn mapping_details(&self, source: Seq<char>) -> Seq<(Seq<char>, Seq<char>)> {
        let rows = row_views(self.mixer.soundfonts@);
        let fonts = crate::desktop::rows::row_ids(rows);
        let places = self.layout().map_values(|place: (u8, u16, u8, bool)| place_text(place));
        seq![
            ("source"@, source),
            ("soundfont_count"@, decimal(fonts.len())),
            ("soundfonts"@, joined(fonts, ","@)),
            ("strip_count"@, decimal(places.len())),
            ("strips"@, joined(places, ";"@)),
            (
                "per_font_strip_counts"@,
                joined(rows.map_values(|row: RowUiView| count_text(row)), ","@),
            ),
        ]
    }

    pub fn midi_mapping_details(&self, source: &str) -> (details: Vec<(String, String)>)
        ensures
            crate::perf_trace::detail_views(details@) == self.mapping_details(source@),
    {
        let layout = self.playback.midi_strip_layout();
        let mut places: Vec<String> = Vec::new();
        let mut i: usize = 0;
        while i < layout.len()
            invariant
                i <= layout@.len(),
                places@.len() == i,
                forall|k: int| 0 <= k < i ==> (#[trigger] places@[k])@ == place_text(layout@[k]),
            decreases layout@.len() - i,
        {
            places.push(text_of_place(layout[i]));
            i = i + 1;
        }
        assert(texts(places@) =~= self.layout().map_values(
            |place: (u8, u16, u8, bool)| place_text(place),
        ));
        let fonts = crate::desktop::rows::ids_of_rows(self.mixer.soundfonts.as_slice());
        let ghost rows = row_views(self.mixer.soundfonts@);
        let mut counts: Vec<String> = Vec::new();
        let mut n: usize = 0;
        while n < self.mixer.soundfonts.len()
            invariant
                n <= self.mixer.soundfonts@.len(),
                counts@.len() == n,
                rows == row_views(self.mixer.soundfonts@),
                forall|k: int| 0 <= k < n ==> (#[trigger] counts@[k])@ == count_text(rows[k]),
            decreases self.mixer.soundfonts@.len() - n,
        {
            let row = &self.mixer.soundfonts[n];
            assert(rows[n as int] == row@);
            let mut text = row.internal_id.clone();
            text.append("=");
            push_decimal(&mut text, row.strips.len() as u128);
            counts.push(text);
            n = n + 1;
        }
        assert(texts(counts@) =~= rows.map_values(|row: RowUiView| count_text(row)));
        let mut details: Vec<(String, String)> = Vec::new();
        details.push(("source".to_owned(), source.to_owned()));
        details.push(("soundfont_count".to_owned(), decimal_text(fonts.len() as u128)));
        details.push(("soundfonts".to_owned(), join(fonts.as_slice(), ",")));
        details.push(("strip_count".to_owned(), decimal_text(places.len() as u128)));
        details.push(("strips".to_owned(), join(places.as_slice(), ";")));
        details.push(("per_font_strip_counts".to_owned(), join(counts.as_slice(), ",")));
        proof {
            assert(texts(fonts@).len() == fonts@.len());
            assert(texts(places@).len() == places@.len());
            assert(crate::perf_trace::detail_views(details@) =~= self.mapping_details(source@));
        }
        details
    }
}

impl MixerState {
    /// The mixer has the settings that a new project starts with, apart from its
    /// rows.
    pub open spec fn is_fresh(&self, before: MixerState) -> bool {
        &&& self.master == default_master()
        &&& self.smart_mix == default_smart_mix()
        &&& self.mixer_assignment_mode == MixerAssignmentMode::Manual
        &&& self.final_output_volume_percent.bits == 0
        &&& self.selected_soundfont == before.selected_soundfont
        &&& self.logged_unmatched_snapshot_strips == before.logged_unmatched_snapshot_strips
    }
}

/// What the user is told when a preset was applied.
pub open spec fn preset_status_text(name: Seq<char>, message: Option<Seq<char>>) -> Seq<char> {
    match message {
        Some(message) => "Preset "@ + name + " applied: "@ + message,
        None => "Preset "@ + name + " applied"@,
    }
}

fn preset_status(name: &str, message: Option<&str>) -> (text: String)
    ensures
        text@ == preset_status_text(name@, name_view(message)),
{
    let mut text = "Preset ".to_owned();
    text.append(name);
    match message {
        Some(message) => {
            text.append(" applied: ");
            text.append(message);
        },
        None => text.append(" applied"),
    }
    text
}

/// A strip of the layout as text.
pub open spec fn place_text(place: (u8, u16, u8, bool)) -> Seq<char> {
    "ch="@ + decimal(place.0 as nat) + " bank="@ + decimal(place.1 as nat) + " prog="@ + decimal(
        place.2 as nat,
    ) + " perc="@ + truth(place.3)
}

fn text_of_place(place: (u8, u16, u8, bool)) -> (text: String)
    ensures
        text@ == place_text(place),
{
    let mut text = "ch=".to_owned();
    push_decimal(&mut text, place.0 as u128);
    text.append(" bank=");
    push_decimal(&mut text, place.1 as u128);
    text.append(" prog=");
    push_decimal(&mut text, place.2 as u128);
    text.append(" perc=");
    if place.3 {
        text.append("true");
    } else {
        text.append("false");
    }
    text
}

/// A soundfont and how many strips it has, as text.
pub open spec fn count_text(row: RowUiView) -> Seq<char> {
    row.internal_id + "="@ + decimal(row.strips.len())
}

/// What the user is told when an FMID file was opened: that its preset was not there,
/// else what playback says.
pub fn fmid_status(preset_message: Option<String>, message: &str) -> (status: String)
    ensures
        status@ == match preset_message {
            Some(text) => text@,
            None => "Loaded FMID: "@ + message@,
        },
{
    match preset_message {
        Some(text) => text,
        None => {
            let mut text = "Loaded FMID: ".to_owned();
            text.append(message);
            text
        },
    }
}

/// A MIDI file that was opened loops between its own jump points; one without any loops as
/// a whole, unless a playlist goes on to another track.
pub proof fn opened_midi_files_loop<S>(app: FlutzDesktopApp<S>)
    requires
        app.playback.decoded_metadata is None,
        app.playback.midi_transport.tick_length > 0,
    ensures
        ({
            let transport = app.playback.midi_transport;
            let looping = app.loop_of_midi();
            &&& transport.jump_start_tick is Some && transport.jump_end_tick is Some
                && transport.jump_start_tick->Some_0 < transport.jump_end_tick->Some_0
                <= transport.tick_length ==> looping.enabled && looping.mode == LoopMode::Infinite
                && Some(looping.start_tick) == transport.jump_start_tick && Some(
                looping.end_tick,
            ) == transport.jump_end_tick
            &&& transport.jump_start_tick is Some && transport.jump_end_tick is None
                && transport.jump_start_tick->Some_0 < transport.tick_length ==> looping.enabled
                && looping.mode == LoopMode::Infinite && Some(looping.start_tick)
                == transport.jump_start_tick && looping.end_tick == transport.tick_length
            &&& transport.jump_start_tick is None && transport.jump_end_tick is None
                && transport.jump_points@.len() == 0 ==> {
                let alone = app.playlist is None || app.playlist->Some_0.entry_count <= 1;
                &&& looping.enabled == alone
                &&& alone ==> looping.mode == LoopMode::Infinite && looping.start_tick == 0
                    && looping.end_tick == transport.tick_length
            }
        }),
{
}

/// An FMID file that was opened loops as it was saved, and one that was saved without a
/// loop loops as a whole, unless a playlist goes on to another track.
pub proof fn opened_fmid_files_loop<S>(app: FlutzDesktopApp<S>, file: FmidFile)
    requires
        app.playback.decoded_metadata is None,
        app.playback.midi_transport.tick_length > 0,
    ensures
        ({
            let length = app.playback.midi_transport.tick_length;
            let looping = app.loop_of_fmid(file);
            &&& file.looping.enabled && file.looping.mode != LoopMode::Off
                && file.looping.start_tick < file.looping.end_tick <= length && 1
                <= file.looping.loop_count <= u32::MAX ==> {
                &&& looping.enabled
                &&& looping.mode == file.looping.mode
                &&& looping.start_tick == file.looping.start_tick
                &&& looping.end_tick == file.looping.end_tick
                &&& looping.count == file.looping.loop_count
            }
            &&& !file.looping.enabled && file.looping.mode == LoopMode::Off
                && file.looping.start_tick == 0 && file.looping.end_tick == 0
                && file.looping.loop_count <= 1 ==> looping.enabled == (app.playlist is None
                || app.playlist->Some_0.entry_count <= 1)
        }),
{
}

/// A MIDI file and a project are opened as what they are: both are mastered as MIDI and are
/// saved as a project.
pub proof fn opened_midi_is_saved_as_a_project(content: Option<LoadedContentState>, fmid: bool)
    requires
        is_midi_content(content, fmid),
    ensures
        content is Some,
        fmid ==> content->Some_0.kind == ContentKind::Fmid,
        !fmid ==> content->Some_0.kind == ContentKind::Midi,
        content->Some_0.mastering == MasteringCapability::MidiMastering,
        optional_text(content->Some_0.wrapped_extension) == Some("fmid"@),
        content->Some_0.decoded_source_path is None,
        crate::desktop::content::saves_in_place(content, Some("fmid"@)),
{
    reveal_strlit("fmid");
    assert(crate::text::ascii_lowered("fmid"@) =~= "fmid"@);
    crate::desktop::content::projects_are_saved_in_place_by_extension(content, "fmid"@);
}

/// The soundfont that is selected is that of the first row, at its place in the catalog.
pub proof fn the_first_row_is_selected(
    catalog: Seq<SoundFontCatalogEntry>,
    rows: Seq<RowUiView>,
    k: int,
)
    requires
        rows.len() > 0,
        0 <= k < catalog.len(),
        catalog[k].internal_id@ == rows[0].internal_id,
    ensures
        0 <= selected_for(catalog, rows) <= k,
        catalog[selected_for(catalog, rows)].internal_id@ == rows[0].internal_id,
        selected_for(catalog, Seq::empty()) == 0,
{
    lemma_first_selected(catalog, rows[0].internal_id, catalog.len() as int, k);
}

proof fn lemma_first_selected(
    catalog: Seq<SoundFontCatalogEntry>,
    id: Seq<char>,
    n: int,
    k: int,
)
    requires
        0 <= n <= catalog.len(),
    ensures
        match first_entry(catalog, id, n) {
            Some(i) => 0 <= i < n && catalog[i].internal_id@ == id && (0 <= k < n
                && catalog[k].internal_id@ == id ==> i <= k),
            None => 0 <= k < n ==> catalog[k].internal_id@ != id,
        },
    decreases n,
{
    if n > 0 {
        lemma_first_selected(catalog, id, n - 1, k);
    }
}

/// A change of the soundfonts reaches playback with the controls of the rows, and with the
/// loop where something was loaded.
pub proof fn changes_reach_playback<S>(
    app: FlutzDesktopApp<S>,
    after: FlutzDesktopApp<S>,
    loaded: bool,
    target: TransportTarget,
)
    requires
        app.change_is_given(after, loaded, target),
    ensures
        after.playback.mixer_controls.strip_controls@ == crate::desktop::feedback::rows_controls(
            row_views(after.mixer.soundfonts@),
            after.mixer.soundfonts@.len() as int,
        ),
        !loaded ==> target == TransportTarget::Nothing && after.playback.decoded
            == app.playback.decoded,
        loaded && app.playback.decoded is Some ==> target == TransportTarget::Decoded,
        loaded && app.playback.decoded is None && app.playback.engine_loaded ==> target
            == TransportTarget::Engine,
        after.playback.catalog == app.playback.catalog,
{
}

} // verus!
