//! The player as a whole: everything that the user sees, and what each of their
//! actions does to it.
//!
//! Drawing, dialogs, files and the synthesizer live outside. Where one of them is to
//! be asked for something, a method says so in what it returns.
use crate::catalog::{coverage_cache, holds_coverage, SoundFontCatalogEntry, SoundFontCoverage};
use crate::dat::{startup_line, startup_status, DatStartupSummary};
use crate::desktop::content::{ContentKind, LoadedContentState, MasteringCapability};
use crate::desktop::content::{can_save_project_to_existing_path, counts_frames, saves_in_place};
use crate::desktop::edits::{mixer_edited, noticed_rows, MixerEditSnapshot};
use crate::desktop::edits::edit_views;
use crate::desktop::feedback::{key_views, report_views, visuals_in_order, Feedback};
use crate::desktop::feedback::{rows_controls, strip_controls_of_rows, RealtimeStripKey};
use crate::desktop::loops::{no_loop_state, LoopMode, LoopState, PlaylistRepeatMode};
use crate::desktop::metadata::{is_blank, is_blank_text, no_metadata, MetadataEditState};
use crate::desktop::peq::{PeqConfigSource, PeqEditState};
use crate::desktop::playlist::{playlist_after_track_loop, repeat_mode_of_track};
use crate::desktop::playlist::{AppRunState, DecodedLoads, PlaylistFacts, PlaylistPreload};
use crate::desktop::presets::{PresetSet, PresetStep};
use crate::desktop::rows::{assigned_rows, default_master, default_smart_mix, ids_of_rows};
use crate::desktop::rows::{laid_out_rows, row_ids, row_views, rows_for, soundfont_rows_from_catalog};
use crate::desktop::rows::{MasterControls, MixerAssignmentMode, RowUiView, SmartMixControls};
use crate::desktop::rows::{SoundFontUiRow, StripRouting};
use crate::json::optional_text;
use crate::level::Level;
use crate::numbers::{min_of, min_u64, monus};
use crate::playback::backend::AudioBackend;
use crate::playback::controller::{AudioDeviceConfig, AudioPlaybackStatus, PlaybackController};
use crate::playback::controller::{error_view, MixerControlState, TransportTarget};
use crate::playback::snapshot::RealtimeMixerSnapshot;
use crate::playback::strips::{slot_fits, MidiStripDescriptor};
use crate::playback::transport::Seconds;
use crate::text::{contains_text, join, joined, text_eq, texts};
use crate::text_map::TextMap;
use vstd::prelude::*;
use vstd::string::*;

verus! {

/// The time between two clean-ups of idle memory, in nanoseconds.
pub const IDLE_MEMORY_MAINTENANCE_INTERVAL: u128 = 5_000_000_000;

/// What is shown of the user interface.
#[derive(Debug, Copy, Clone, PartialEq, Eq, Structural)]
pub struct Panels {
    pub release_edit_mode: bool,
    pub release_editor_panels_collapsed: bool,
    pub speaker_volume_popup_open: bool,
    pub release_loop_popup_open: bool,
    pub mixer_fx_expanded: bool,
    pub playlist_window_open: bool,
    pub metadata_popup_open: bool,
}

/// The mixer.
pub struct MixerState {
    pub master: MasterControls,
    pub smart_mix: SmartMixControls,
    pub soundfonts: Vec<SoundFontUiRow>,
    pub coverage_cache: TextMap<SoundFontCoverage>,
    pub selected_soundfont: usize,
    pub mixer_assignment_mode: MixerAssignmentMode,
    pub logged_unmatched_snapshot_strips: Vec<RealtimeStripKey>,
    pub final_output_volume_percent: Level,
}

/// The presets and which of them the user chose.
pub struct PresetChoice {
    pub preset_set: PresetSet,
    pub active_preset_id: String,
    pub selected_preset_id: String,
    pub default_preset_id: String,
    pub missing_preset_warning: Option<String>,
}

/// The project: what is loaded, and what was changed of it.
pub struct ProjectState {
    pub loaded_content: Option<LoadedContentState>,
    pub project_title: String,
    pub current_path: Option<String>,
    pub dirty: bool,
    pub metadata_edit_dirty: bool,
    pub metadata_edit_state: MetadataEditState,
    pub peq_edit_state: PeqEditState,
    pub decoded_peq_bypass_enabled: bool,
}

/// The player. `S` is the type of audio samples.
pub struct FlutzDesktopApp<S> {
    pub panels: Panels,
    pub mixer: MixerState,
    pub choice: PresetChoice,
    pub project: ProjectState,
    pub run_state: AppRunState,
    pub looping: LoopState,
    pub data_summary: String,
    pub playback: PlaybackController<S>,
    pub last_idle_memory_maintenance: u128,
    pub status: String,
    pub playlist: Option<PlaylistFacts>,
    pub decoded_loads: DecodedLoads,
    pub preload: PlaylistPreload,
    pub last_playback_active: bool,
}

/// What the preferences say.
#[derive(Debug)]
pub struct StartupPreferences {
    pub default_preset_id: String,
    pub peq_bypass: bool,
    pub playlist_open: bool,
    pub metadata_open: bool,
}

/// What stood when soundfonts were loaded anew under the same track.
#[derive(Debug, Copy, Clone, PartialEq, Eq, Structural)]
pub struct PlaybackReloadResumeState {
    pub run_state: AppRunState,
    pub transport_seconds: Seconds,
}

/// What is to be asked of playback to go on as before.
#[derive(Debug, Copy, Clone, PartialEq, Eq, Structural)]
pub struct ResumeSteps {
    pub seek: Option<Seconds>,
    pub play: bool,
    pub pause: bool,
}

impl Seconds {
    /// Whether a time is above zero.
    pub open spec fn above_zero(self) -> bool {
        0 < self.bits <= 0x7ff0_0000_0000_0000
    }

    pub fn is_positive(self) -> (positive: bool)
        ensures
            positive == self.above_zero(),
    {
        0 < self.bits && self.bits <= 0x7ff0_0000_0000_0000
    }
}

/// What the user is told of whether the player plays.
pub open spec fn status_of_run_state(run_state: AppRunState) -> Seq<char> {
    match run_state {
        AppRunState::Idle => "Stopped"@,
        AppRunState::Playing => "Playing"@,
        AppRunState::Paused => "Paused"@,
    }
}

fn sentence(parts: [&str; 3]) -> (text: String)
    ensures
        text@ == parts@[0]@ + parts@[1]@ + parts@[2]@,
{
    let mut text = parts[0].to_owned();
    text.append(parts[1]);
    text.append(parts[2]);
    text
}

impl<S> FlutzDesktopApp<S> {
    /// The parts of the player hold together.
    pub open spec fn wf(&self) -> bool {
        &&& self.playback.wf()
        &&& self.choice.preset_set.wf()
        &&& self.mixer.coverage_cache.wf()
        &&& slot_fits(self.mixer.soundfonts@.len() as int)
    }

    /// The length of what is loaded, in frames or ticks.
    pub open spec fn length(&self) -> u64 {
        match self.playback.decoded_metadata {
            Some(metadata) => metadata.frame_length,
            None => self.playback.midi_transport.tick_length,
        }
    }

    pub fn transport_tick_length(&self) -> (length: u64)
        ensures
            length == self.length(),
    {
        match self.playback.decoded_transport_metadata() {
            Some(metadata) => metadata.frame_length,
            None => self.playback.midi_transport_metadata().tick_length,
        }
    }

    /// The player as it starts, with nothing loaded.
    pub fn new(
        summary: DatStartupSummary,
        preset_set: PresetSet,
        preferences: StartupPreferences,
        audio_backend: AudioBackend,
        audio_config: AudioDeviceConfig,
        now: u128,
    ) -> (app: FlutzDesktopApp<S>)
        requires
            preset_set.wf(),
            forall|i: int|
                0 <= i < preset_set.presets@.len() ==> slot_fits(
                    (#[trigger] preset_set.presets@[i]).font_ids@.len() as int + 1,
                ),
        ensures
            app.wf(),
            app.run_state == AppRunState::Idle,
            !app.panels.release_edit_mode,
            !app.panels.release_editor_panels_collapsed,
            !app.panels.speaker_volume_popup_open,
            app.mixer.final_output_volume_percent.bits == 0,
            !app.panels.release_loop_popup_open,
            app.project.loaded_content is None,
            app.project.project_title@ == "Untitled MIDI"@,
            app.project.current_path is None,
            !app.project.dirty,
            app.looping == no_loop_state(),
            app.mixer.master == default_master(),
            app.mixer.smart_mix == default_smart_mix(),
            !app.panels.mixer_fx_expanded,
            ({
                let catalog = match summary {
                    DatStartupSummary::Available { soundfonts, .. } => soundfonts@,
                    DatStartupSummary::Unavailable(_) => Seq::empty(),
                };
                let preset = preset_set.presets@[preset_set.chosen(
                    preferences.default_preset_id@,
                )];
                &&& app.playback.catalog@ == catalog
                &&& row_views(app.mixer.soundfonts@) == rows_for(catalog, texts(preset.font_ids@))
                &&& app.choice.active_preset_id@ == preset.id@
                &&& app.choice.selected_preset_id@ == preset.id@
                &&& app.choice.default_preset_id@ == preset.id@
            }),
            app.choice.preset_set == preset_set,
            app.project.decoded_peq_bypass_enabled == preferences.peq_bypass,
            app.mixer.coverage_cache@ == Map::<Seq<char>, SoundFontCoverage>::empty(),
            app.mixer.selected_soundfont == 0,
            app.mixer.mixer_assignment_mode == MixerAssignmentMode::Manual,
            app.data_summary@ == startup_line(summary),
            app.playback.is_unloaded(),
            app.playback.audio_backend == audio_backend,
            app.playback.audio_config == audio_config,
            app.mixer.logged_unmatched_snapshot_strips@.len() == 0,
            app.last_idle_memory_maintenance == now,
            app.status@ == startup_status(summary),
            app.choice.missing_preset_warning is None,
            app.playlist is None,
            app.panels.playlist_window_open == preferences.playlist_open,
            app.panels.metadata_popup_open == preferences.metadata_open,
            !app.project.metadata_edit_dirty,
            app.project.metadata_edit_state@ == no_metadata(),
            app.project.peq_edit_state.is_inactive(),
            app.decoded_loads == (DecodedLoads { token: 0, pending: None }),
            app.preload == (PlaylistPreload { token: 0, pending: None, ready: None }),
            !app.last_playback_active,
    {
        let data_summary = summary.data_summary();
        let status = summary.status();
        let catalog = match summary {
            DatStartupSummary::Available { soundfonts, .. } => soundfonts,
            DatStartupSummary::Unavailable(_) => Vec::new(),
        };
        let position: usize = preset_set.preset_or_default(preferences.default_preset_id.as_str());
        let preset_id = preset_set.presets[position].id.clone();
        let soundfonts = soundfont_rows_from_catalog(
            catalog.as_slice(),
            preset_set.presets[position].font_ids.as_slice(),
        );
        assert(soundfonts@.len() == row_views(soundfonts@).len());
        FlutzDesktopApp {
            panels: Panels {
                release_edit_mode: false,
                release_editor_panels_collapsed: false,
                speaker_volume_popup_open: false,
                release_loop_popup_open: false,
                mixer_fx_expanded: false,
                playlist_window_open: preferences.playlist_open,
                metadata_popup_open: preferences.metadata_open,
            },
            mixer: MixerState {
                final_output_volume_percent: Level { bits: 0 },
                master: MasterControls::default(),
                smart_mix: SmartMixControls::default(),
                soundfonts,
                coverage_cache: TextMap::new(),
                selected_soundfont: 0,
                mixer_assignment_mode: MixerAssignmentMode::Manual,
                logged_unmatched_snapshot_strips: Vec::new(),
            },
            project: ProjectState {
                loaded_content: None,
                project_title: "Untitled MIDI".to_owned(),
                current_path: None,
                dirty: false,
                decoded_peq_bypass_enabled: preferences.peq_bypass,
                metadata_edit_dirty: false,
                metadata_edit_state: MetadataEditState::default(),
                peq_edit_state: PeqEditState::default(),
            },
            choice: PresetChoice {
                preset_set,
                active_preset_id: preset_id.clone(),
                selected_preset_id: preset_id.clone(),
                default_preset_id: preset_id,
                missing_preset_warning: None,
            },
            run_state: AppRunState::Idle,
            looping: LoopState::default(),
            data_summary,
            playback: PlaybackController::new(catalog, audio_backend, audio_config),
            last_idle_memory_maintenance: now,
            status,
            playlist: None,
            decoded_loads: DecodedLoads { token: 0, pending: None },
            preload: PlaylistPreload::new(),
            last_playback_active: false,
        }
    }

    /// Whether the player plays.
    pub fn run_state(&self) -> (value: AppRunState)
        ensures
            value == self.run_state,
    {
        self.run_state
    }

    /// Whether the editor is shown.
    pub fn release_edit_mode(&self) -> (value: bool)
        ensures
            value == self.panels.release_edit_mode,
    {
        self.panels.release_edit_mode
    }

    /// Whether the panels of the editor are collapsed.
    pub fn release_editor_panels_collapsed(&self) -> (value: bool)
        ensures
            value == self.panels.release_editor_panels_collapsed,
    {
        self.panels.release_editor_panels_collapsed
    }

    /// Whether the volume is shown.
    pub fn speaker_volume_popup_open(&self) -> (value: bool)
        ensures
            value == self.panels.speaker_volume_popup_open,
    {
        self.panels.speaker_volume_popup_open
    }

    /// Whether the loop is shown.
    pub fn release_loop_popup_open(&self) -> (value: bool)
        ensures
            value == self.panels.release_loop_popup_open,
    {
        self.panels.release_loop_popup_open
    }

    /// Whether there is anything to save.
    pub fn dirty(&self) -> (value: bool)
        ensures
            value == self.project.dirty,
    {
        self.project.dirty
    }

    /// Whether the effects of the mixer are shown.
    pub fn mixer_fx_expanded(&self) -> (value: bool)
        ensures
            value == self.panels.mixer_fx_expanded,
    {
        self.panels.mixer_fx_expanded
    }

    /// Whether the equalizer is bypassed.
    pub fn decoded_peq_bypass_enabled(&self) -> (value: bool)
        ensures
            value == self.project.decoded_peq_bypass_enabled,
    {
        self.project.decoded_peq_bypass_enabled
    }

    /// The selected soundfont of the catalog.
    pub fn selected_soundfont_index(&self) -> (value: usize)
        ensures
            value == self.mixer.selected_soundfont,
    {
        self.mixer.selected_soundfont
    }

    /// How the mixer assigns strips.
    pub fn mixer_assignment_mode(&self) -> (value: MixerAssignmentMode)
        ensures
            value == self.mixer.mixer_assignment_mode,
    {
        self.mixer.mixer_assignment_mode
    }

    /// Whether the track loops.
    pub fn loop_enabled_value(&self) -> (value: bool)
        ensures
            value == self.looping.enabled,
    {
        self.looping.enabled
    }

    /// How the track loops.
    pub fn loop_mode_value(&self) -> (value: LoopMode)
        ensures
            value == self.looping.mode,
    {
        self.looping.mode
    }

    /// Where the loop starts.
    pub fn loop_start_tick_value(&self) -> (value: u64)
        ensures
            value == self.looping.start_tick,
    {
        self.looping.start_tick
    }

    /// Where the loop ends.
    pub fn loop_end_tick_value(&self) -> (value: u64)
        ensures
            value == self.looping.end_tick,
    {
        self.looping.end_tick
    }

    /// How often the loop repeats.
    pub fn loop_count_value(&self) -> (value: u32)
        ensures
            value == self.looping.count,
    {
        self.looping.count
    }

    /// What the user is told.
    pub fn status(&self) -> (value: &str)
        ensures
            value@ == self.status@,
    {
        self.status.as_str()
    }

    /// What the data folder holds.
    pub fn data_summary(&self) -> (value: &str)
        ensures
            value@ == self.data_summary@,
    {
        self.data_summary.as_str()
    }

    /// The selected preset.
    pub fn selected_preset_id(&self) -> (value: &str)
        ensures
            value@ == self.choice.selected_preset_id@,
    {
        self.choice.selected_preset_id.as_str()
    }

    /// Where the settings of the equalizer come from.
    pub fn decoded_peq_config_source(&self) -> (value: PeqConfigSource)
        ensures
            value == self.project.peq_edit_state.source,
    {
        self.project.peq_edit_state.source
    }

    /// The rows of the mixer.
    pub fn soundfont_rows(&self) -> (value: &[SoundFontUiRow])
        ensures
            value@ == self.mixer.soundfonts@,
    {
        self.mixer.soundfonts.as_slice()
    }

    /// The soundfonts of the data folder.
    pub fn catalog_soundfonts(&self) -> (value: &[SoundFontCatalogEntry])
        ensures
            value@ == self.playback.catalog@,
    {
        self.playback.catalog.as_slice()
    }

    /// Whether a file is loaded.
    pub fn has_loaded_project(&self) -> (value: bool)
        ensures
            value == (self.project.current_path is Some),
    {
        self.project.current_path.is_some()
    }

    /// The name of the active preset.
    pub fn active_preset_label(&self) -> (value: String)
        ensures
            value@ == self.choice.preset_set.label(self.choice.active_preset_id@),
    {
        self.choice.preset_set.active_preset_label(self.choice.active_preset_id.as_str())
    }

    /// The active preset, or the default one.
    pub fn active_preset(&self) -> (value: usize)
        requires
            self.wf(),
        ensures
            value == self.choice.preset_set.chosen(self.choice.active_preset_id@),
    {
        self.choice.preset_set.preset_or_default(self.choice.active_preset_id.as_str())
    }

    /// Where the settings of the equalizer are kept.
    pub fn decoded_peq_preset_path_label(&self) -> (value: String)
        ensures
            value@ == self.project.peq_edit_state.place(),
    {
        self.project.peq_edit_state.decoded_peq_preset_path_label()
    }

    /// The file that is loaded.
    pub fn current_path(&self) -> (path: Option<&str>)
        ensures
            (match path {
                Some(path) => Some(path@),
                None => None,
            }) == optional_text(self.project.current_path),
    {
        match &self.project.current_path {
            Some(path) => Some(path.as_str()),
            None => None,
        }
    }

    /// The warning about a preset that is not there.
    pub fn missing_preset_warning(&self) -> (warning: Option<&str>)
        ensures
            (match warning {
                Some(warning) => Some(warning@),
                None => None,
            }) == optional_text(self.choice.missing_preset_warning),
    {
        match &self.choice.missing_preset_warning {
            Some(warning) => Some(warning.as_str()),
            None => None,
        }
    }

    /// The title of the project: as it was edited, once a file is loaded.
    pub open spec fn title(&self) -> Seq<char> {
        if self.project.current_path is Some && !is_blank(self.project.metadata_edit_state.project_name@) {
            self.project.metadata_edit_state.project_name@
        } else {
            self.project.project_title@
        }
    }

    pub fn project_title(&self) -> (title: &str)
        ensures
            title@ == self.title(),
    {
        if self.project.current_path.is_some() && !is_blank_text(
            self.project.metadata_edit_state.project_name.as_str(),
        ) {
            return self.project.metadata_edit_state.project_name.as_str();
        }
        self.project.project_title.as_str()
    }

    /// How the sound of what is loaded can be worked on.
    pub open spec fn mastering(&self) -> MasteringCapability {
        match self.project.loaded_content {
            Some(content) => content.mastering,
            None => MasteringCapability::Nothing,
        }
    }

    pub fn active_mastering_capability(&self) -> (mastering: MasteringCapability)
        ensures
            mastering == self.mastering(),
    {
        match &self.project.loaded_content {
            Some(content) => content.mastering,
            None => MasteringCapability::Nothing,
        }
    }

    /// The kind of what is loaded.
    pub open spec fn kind(&self) -> Option<ContentKind> {
        match self.project.loaded_content {
            Some(content) => Some(content.kind),
            None => None,
        }
    }

    pub fn active_content_kind(&self) -> (kind: Option<ContentKind>)
        ensures
            kind == self.kind(),
    {
        match &self.project.loaded_content {
            Some(content) => Some(content.kind),
            None => None,
        }
    }

    /// The unit of positions.
    pub fn transport_unit_label(&self) -> (label: &'static str)
        ensures
            label@ == if counts_frames(self.kind()) {
                "sample-frames"@
            } else {
                "ticks"@
            },
    {
        crate::desktop::content::transport_unit_label(self.active_content_kind())
    }

    /// The mark before positions.
    pub fn transport_unit_prefix(&self) -> (prefix: &'static str)
        ensures
            prefix@ == if counts_frames(self.kind()) {
                "f:"@
            } else {
                "t:"@
            },
    {
        crate::desktop::content::transport_unit_prefix(self.active_content_kind())
    }

    /// The name of the audio output.
    pub fn audio_backend_label(&self) -> (label: &'static str)
        ensures
            label@ == match self.playback.audio_backend {
                AudioBackend::Wasapi => "WASAPI"@,
                _ => "SDL3"@,
            },
    {
        match self.playback.audio_backend {
            AudioBackend::Wasapi => "WASAPI",
            _ => "SDL3",
        }
    }

    /// The names of the rows, in order.
    pub fn loaded_preset_font_order(&self) -> (text: String)
        ensures
            text@ == joined(
                row_views(self.mixer.soundfonts@).map_values(|row: RowUiView| row.display_name),
                " | "@,
            ),
    {
        let mut names: Vec<String> = Vec::new();
        let mut i: usize = 0;
        while i < self.mixer.soundfonts.len()
            invariant
                i <= self.mixer.soundfonts@.len(),
                names@.len() == i,
                forall|k: int|
                    0 <= k < i ==> (#[trigger] names@[k])@ == self.mixer.soundfonts@[k].display_name@,
            decreases self.mixer.soundfonts@.len() - i,
        {
            names.push(self.mixer.soundfonts[i].display_name.clone());
            i = i + 1;
        }
        assert(texts(names@) =~= row_views(self.mixer.soundfonts@).map_values(
            |row: RowUiView| row.display_name,
        ));
        join(names.as_slice(), " | ")
    }

    pub fn preset_set(&self) -> (presets: &PresetSet)
        ensures
            *presets == self.choice.preset_set,
    {
        &self.choice.preset_set
    }

    /// The controls of the whole mix, to be edited.
    pub fn master(&mut self) -> (master: &mut MasterControls)
        requires
            old(self).wf(),
        ensures
            *master == old(self).mixer.master,
            *final(self) == (FlutzDesktopApp {
                mixer: MixerState { master: *final(master), ..old(self).mixer },
                ..*old(self)
            }),
            final(self).wf(),
    {
        &mut self.mixer.master
    }

    /// The controls of the smart mix, to be edited.
    pub fn smart_mix(&mut self) -> (smart_mix: &mut SmartMixControls)
        requires
            old(self).wf(),
        ensures
            *smart_mix == old(self).mixer.smart_mix,
            *final(self) == (FlutzDesktopApp {
                mixer: MixerState { smart_mix: *final(smart_mix), ..old(self).mixer },
                ..*old(self)
            }),
            final(self).wf(),
    {
        &mut self.mixer.smart_mix
    }

    /// The place of the soundfont that is selected in the catalog, to be changed.
    pub fn selected_soundfont(&mut self) -> (index: &mut usize)
        requires
            old(self).wf(),
        ensures
            *index == old(self).mixer.selected_soundfont,
            *final(self) == (FlutzDesktopApp {
                mixer: MixerState { selected_soundfont: *final(index), ..old(self).mixer },
                ..*old(self)
            }),
            final(self).wf(),
    {
        &mut self.mixer.selected_soundfont
    }

    /// The rows of the mixer, to be edited.
    pub fn soundfonts(&mut self) -> (rows: &mut Vec<SoundFontUiRow>)
        requires
            old(self).wf(),
        ensures
            *rows == old(self).mixer.soundfonts,
            *final(self) == (FlutzDesktopApp {
                mixer: MixerState { soundfonts: *final(rows), ..old(self).mixer },
                ..*old(self)
            }),
            slot_fits(final(rows)@.len() as int) ==> final(self).wf(),
    {
        &mut self.mixer.soundfonts
    }

    /// Tells the user something.
    pub fn set_status(&mut self, status: String)
        requires
            old(self).wf(),
        ensures
            final(self).wf(),
            *final(self) == (FlutzDesktopApp {
                status,
                ..*old(self)
            }),
    {
        self.status = status;
    }

    /// Notes that there is something to save.
    pub fn mark_project_dirty(&mut self)
        requires
            old(self).wf(),
        ensures
            final(self).wf(),
            *final(self) == (FlutzDesktopApp {
                project: ProjectState {
                    dirty: true,
                    ..old(self).project
                },
                ..*old(self)
            }),
    {
        self.project.dirty = true;
    }

    /// Takes the warning about a preset away.
    pub fn dismiss_missing_preset_warning(&mut self)
        requires
            old(self).wf(),
        ensures
            final(self).wf(),
            *final(self) == (FlutzDesktopApp {
                choice: PresetChoice {
                    missing_preset_warning: None,
                    ..old(self).choice
                },
                ..*old(self)
            }),
    {
        self.choice.missing_preset_warning = None;
    }

    /// Changes between the player and the editor.
    pub fn toggle_release_edit_mode(&mut self)
        requires
            old(self).wf(),
        ensures
            final(self).wf(),
            *final(self) == (FlutzDesktopApp {
                panels: Panels {
                    release_edit_mode: !old(self).panels.release_edit_mode,
                    speaker_volume_popup_open: false,
                    release_loop_popup_open: false,
                    ..old(self).panels
                },
                status: final(self).status,
                ..*old(self)
            }),
            final(self).status@ == if old(self).panels.release_edit_mode {
                "Player mode"@
            } else {
                "Editor mode"@
            },
    {
        self.panels.release_edit_mode = !self.panels.release_edit_mode;
        self.panels.speaker_volume_popup_open = false;
        self.panels.release_loop_popup_open = false;
        self.status = if self.panels.release_edit_mode {
            "Editor mode".to_owned()
        } else {
            "Player mode".to_owned()
        };
    }

    /// Shows or hides the volume.
    pub fn toggle_speaker_volume_popup(&mut self)
        requires
            old(self).wf(),
        ensures
            final(self).wf(),
            *final(self) == (FlutzDesktopApp {
                panels: Panels {
                    speaker_volume_popup_open: !old(self).panels.speaker_volume_popup_open,
                    ..old(self).panels
                },
                ..*old(self)
            }),
    {
        self.panels.speaker_volume_popup_open = !self.panels.speaker_volume_popup_open;
    }

    /// Shows or hides the loop.
    pub fn toggle_release_loop_popup(&mut self)
        requires
            old(self).wf(),
        ensures
            final(self).wf(),
            *final(self) == (FlutzDesktopApp {
                panels: Panels {
                    release_loop_popup_open: !old(self).panels.release_loop_popup_open,
                    ..old(self).panels
                },
                ..*old(self)
            }),
    {
        self.panels.release_loop_popup_open = !self.panels.release_loop_popup_open;
    }

    /// Collapses or expands the panels of the editor.
    pub fn toggle_release_editor_panels_collapsed(&mut self)
        requires
            old(self).wf(),
        ensures
            final(self).wf(),
            *final(self) == (FlutzDesktopApp {
                panels: Panels {
                    release_editor_panels_collapsed: !old(self).panels.release_editor_panels_collapsed,
                    ..old(self).panels
                },
                ..*old(self)
            }),
    {
        self.panels.release_editor_panels_collapsed = !self.panels.release_editor_panels_collapsed;
    }

    /// Hides the volume.
    pub fn close_speaker_volume_popup(&mut self)
        requires
            old(self).wf(),
        ensures
            final(self).wf(),
            *final(self) == (FlutzDesktopApp {
                panels: Panels {
                    speaker_volume_popup_open: false,
                    ..old(self).panels
                },
                ..*old(self)
            }),
    {
        self.panels.speaker_volume_popup_open = false;
    }

    /// Hides the loop.
    pub fn close_release_loop_popup(&mut self)
        requires
            old(self).wf(),
        ensures
            final(self).wf(),
            *final(self) == (FlutzDesktopApp {
                panels: Panels {
                    release_loop_popup_open: false,
                    ..old(self).panels
                },
                ..*old(self)
            }),
    {
        self.panels.release_loop_popup_open = false;
    }

    /// Shows or hides the effects of the mixer.
    pub fn set_mixer_fx_expanded(&mut self, expanded: bool)
        requires
            old(self).wf(),
        ensures
            final(self).wf(),
            *final(self) == (FlutzDesktopApp {
                panels: Panels {
                    mixer_fx_expanded: expanded,
                    ..old(self).panels
                },
                ..*old(self)
            }),
    {
        self.panels.mixer_fx_expanded = expanded;
    }

    /// Notes whether the player plays.
    pub fn set_run_state(&mut self, run_state: AppRunState)
        requires
            old(self).wf(),
        ensures
            final(self).wf(),
            *final(self) == (FlutzDesktopApp {
                run_state,
                status: final(self).status,
                ..*old(self)
            }),
            final(self).status@ == status_of_run_state(run_state),
    {
        self.run_state = run_state;
        self.status = match run_state {
            AppRunState::Idle => "Stopped".to_owned(),
            AppRunState::Playing => "Playing".to_owned(),
            AppRunState::Paused => "Paused".to_owned(),
        };
    }

    /// Opens or closes a window, and returns whether the preferences have to be saved.
    pub fn set_playlist_window_open(&mut self, open: bool) -> (changed: bool)
        requires
            old(self).wf(),
        ensures
            final(self).wf(),
            *final(self) == (FlutzDesktopApp {
                panels: Panels {
                    playlist_window_open: open,
                    ..old(self).panels
                },
                ..*old(self)
            }),
            changed == (old(self).panels.playlist_window_open != open),
    {
        let changes = self.panels.playlist_window_open != open;
        self.panels.playlist_window_open = open;
        changes
    }

    /// Opens or closes a window, and returns whether the preferences have to be saved.
    pub fn set_metadata_window_open(&mut self, open: bool) -> (changed: bool)
        requires
            old(self).wf(),
        ensures
            final(self).wf(),
            *final(self) == (FlutzDesktopApp {
                panels: Panels {
                    metadata_popup_open: open,
                    ..old(self).panels
                },
                ..*old(self)
            }),
            changed == (old(self).panels.metadata_popup_open != open),
    {
        let changes = self.panels.metadata_popup_open != open;
        self.panels.metadata_popup_open = open;
        changes
    }

    /// Opens or closes the window of the metadata.
    pub fn toggle_metadata_popup(&mut self)
        requires
            old(self).wf(),
        ensures
            final(self).wf(),
            *final(self) == (FlutzDesktopApp {
                panels: Panels {
                    metadata_popup_open: !old(self).panels.metadata_popup_open,
                    ..old(self).panels
                },
                ..*old(self)
            }),
    {
        self.set_metadata_window_open(!self.panels.metadata_popup_open);
    }

    /// Selects a soundfont of the catalog.
    pub fn set_selected_soundfont_index(&mut self, index: usize)
        requires
            old(self).wf(),
        ensures
            final(self).wf(),
            *final(self) == (FlutzDesktopApp {
                mixer: MixerState {
                    selected_soundfont: min_of(
                        index as int,
                        monus(old(self).playback.catalog@.len() as int, 1),
                    ) as usize,
                    ..old(self).mixer
                },
                ..*old(self)
            }),
    {
        let last: usize = self.playback.catalog.len().saturating_sub(1);
        self.mixer.selected_soundfont = if index < last {
            index
        } else {
            last
        };
    }

    /// Selects a preset, if it is there.
    pub fn set_selected_preset_id(&mut self, preset_id: String)
        requires
            old(self).wf(),
        ensures
            final(self).wf(),
            *final(self) == (FlutzDesktopApp {
                choice: PresetChoice {
                    selected_preset_id: if old(self).choice.preset_set.found(preset_id@) is Some {
                        preset_id
                    } else {
                        old(self).choice.selected_preset_id
                    },
                    ..old(self).choice
                },
                ..*old(self)
            }),
    {
        if self.choice.preset_set.find_preset(preset_id.as_str()).is_some() {
            self.choice.selected_preset_id = preset_id;
        }
    }

    /// Notes that the user edited the metadata.
    pub fn metadata_changed(&mut self)
        requires
            old(self).wf(),
        ensures
            final(self).wf(),
            *final(self) == (FlutzDesktopApp {
                project: ProjectState {
                    project_title: final(self).project.project_title,
                    metadata_edit_dirty: true,
                    dirty: true,
                    ..old(self).project
                },
                ..*old(self)
            }),
            final(self).project.project_title@ == old(self).project.metadata_edit_state.project_name@,
    {
        self.project.project_title = self.project.metadata_edit_state.project_name.clone();
        self.project.metadata_edit_dirty = true;
        self.project.dirty = true;
    }

    /// Leaves the active preset.
    pub fn convert_to_custom_mode(&mut self)
        requires
            old(self).wf(),
        ensures
            final(self).wf(),
            *final(self) == (FlutzDesktopApp {
                choice: PresetChoice {
                    active_preset_id: final(self).choice.active_preset_id,
                    ..old(self).choice
                },
                ..*old(self)
            }),
            final(self).choice.active_preset_id@ == "custom"@,
    {
        self.choice.active_preset_id = "custom".to_owned();
    }

    /// Whether playback was given the loop, or is to be asked to take it.
    pub open spec fn loop_is_given(&self, after: FlutzDesktopApp<S>, target: TransportTarget) -> bool {
        &&& target == self.playback.loop_target()
        &&& after.playback == (PlaybackController {
            decoded: match self.playback.decoded {
                Some(decoded) => Some(decoded.with_loop(after.looping.settings())),
                None => None,
            },
            ..self.playback
        })
    }

    /// Playback has the controls of the rows.
    pub open spec fn has_given_controls(&self) -> bool {
        self.playback.mixer_controls.strip_controls@ == rows_controls(
            row_views(self.mixer.soundfonts@),
            self.mixer.soundfonts@.len() as int,
        )
    }

    /// Whether `after` is a player whose playback was given the controls of its rows and
    /// the loop of its track. An engine is still to be asked to take the loop.
    pub open spec fn loop_and_controls_are_given(
        &self,
        after: FlutzDesktopApp<S>,
        target: TransportTarget,
    ) -> bool {
        &&& target == self.playback.loop_target()
        &&& after.playback == (PlaybackController {
            decoded: match self.playback.decoded {
                Some(decoded) => Some(decoded.with_loop(after.looping.settings())),
                None => None,
            },
            mixer_controls: after.playback.mixer_controls,
            ..self.playback
        })
        &&& after.has_given_controls()
    }

    /// Gives playback the loop of the track. An engine is to be asked.
    pub fn sync_playback_loop_settings(&mut self) -> (target: TransportTarget)
        requires
            old(self).wf(),
        ensures
            final(self).wf(),
            *final(self) == (FlutzDesktopApp {
                playback: final(self).playback,
                ..*old(self)
            }),
            old(self).loop_is_given(*final(self), target),
    {
        let settings = self.looping.current_loop_settings();
        self.playback.set_loop_settings(settings)
    }

    fn commit_loop(&mut self, previous: LoopState, lost: bool) -> (target: TransportTarget)
        requires
            old(self).wf(),
        ensures
            final(self).wf(),
            *final(self) == (FlutzDesktopApp {
                project: ProjectState {
                    dirty: old(self).project.dirty || old(self).looping != previous,
                    ..old(self).project
                },
                playback: final(self).playback,
                status: final(self).status,
                ..*old(self)
            }),
            old(self).loop_is_given(*final(self), target),
            final(self).status@ == if lost {
                "Loop disabled: start tick must be less than end tick"@
            } else {
                old(self).status@
            },
    {
        if lost {
            self.status = "Loop disabled: start tick must be less than end tick".to_owned();
        }
        if self.looping != previous {
            self.project.dirty = true;
        }
        self.sync_playback_loop_settings()
    }

    /// Sets how the track loops.
    pub fn set_loop_mode(&mut self, mode: LoopMode) -> (target: TransportTarget)
        requires
            old(self).wf(),
        ensures
            final(self).wf(),
            *final(self) == (FlutzDesktopApp {
                project: ProjectState {
                    dirty: old(self).project.dirty || final(self).looping != old(self).looping,
                    ..old(self).project
                },
                looping: old(self).looping.with_mode(mode, old(self).length()).normalized(
                    old(self).length(),
                ),
                playback: final(self).playback,
                status: final(self).status,
                ..*old(self)
            }),
            old(self).loop_is_given(*final(self), target),
            final(self).status@ == if old(self).looping.with_mode(mode, old(self).length()).loses_extent(
                old(self).length(),
            ) {
                "Loop disabled: start tick must be less than end tick"@
            } else {
                old(self).status@
            },
    {
        let length: u64 = self.transport_tick_length();
        let previous = self.looping;
        let lost = self.looping.set_mode(mode, length);
        self.commit_loop(previous, lost)
    }

    /// Sets where the loop starts.
    pub fn set_loop_start_tick(&mut self, tick: u64) -> (target: TransportTarget)
        requires
            old(self).wf(),
        ensures
            final(self).wf(),
            *final(self) == (FlutzDesktopApp {
                project: ProjectState {
                    dirty: old(self).project.dirty || final(self).looping != old(self).looping,
                    ..old(self).project
                },
                looping: (LoopState { start_tick: tick, ..old(self).looping }).normalized(
                    old(self).length(),
                ),
                playback: final(self).playback,
                status: final(self).status,
                ..*old(self)
            }),
            old(self).loop_is_given(*final(self), target),
            final(self).status@ == if (LoopState { start_tick: tick, ..old(self).looping }).loses_extent(
                old(self).length(),
            ) {
                "Loop disabled: start tick must be less than end tick"@
            } else {
                old(self).status@
            },
    {
        let length: u64 = self.transport_tick_length();
        let previous = self.looping;
        let lost = self.looping.set_start(tick, length);
        self.commit_loop(previous, lost)
    }

    /// Sets where the loop ends.
    pub fn set_loop_end_tick(&mut self, tick: u64) -> (target: TransportTarget)
        requires
            old(self).wf(),
        ensures
            final(self).wf(),
            *final(self) == (FlutzDesktopApp {
                project: ProjectState {
                    dirty: old(self).project.dirty || final(self).looping != old(self).looping,
                    ..old(self).project
                },
                looping: (LoopState { end_tick: tick, ..old(self).looping }).normalized(
                    old(self).length(),
                ),
                playback: final(self).playback,
                status: final(self).status,
                ..*old(self)
            }),
            old(self).loop_is_given(*final(self), target),
            final(self).status@ == if (LoopState { end_tick: tick, ..old(self).looping }).loses_extent(
                old(self).length(),
            ) {
                "Loop disabled: start tick must be less than end tick"@
            } else {
                old(self).status@
            },
    {
        let length: u64 = self.transport_tick_length();
        let previous = self.looping;
        let lost = self.looping.set_end(tick, length);
        self.commit_loop(previous, lost)
    }

    /// Sets how often the loop repeats.
    pub fn set_loop_count(&mut self, count: u32) -> (target: TransportTarget)
        requires
            old(self).wf(),
        ensures
            final(self).wf(),
            *final(self) == (FlutzDesktopApp {
                project: ProjectState {
                    dirty: old(self).project.dirty || final(self).looping != old(self).looping,
                    ..old(self).project
                },
                looping: (LoopState { count, ..old(self).looping }).normalized(
                    old(self).length(),
                ),
                playback: final(self).playback,
                status: final(self).status,
                ..*old(self)
            }),
            old(self).loop_is_given(*final(self), target),
            final(self).status@ == if (LoopState { count, ..old(self).looping }).loses_extent(
                old(self).length(),
            ) {
                "Loop disabled: start tick must be less than end tick"@
            } else {
                old(self).status@
            },
    {
        let length: u64 = self.transport_tick_length();
        let previous = self.looping;
        let lost = self.looping.set_count(count, length);
        self.commit_loop(previous, lost)
    }

    /// The playlist with the repeat mode of the track's loop button.
    pub open spec fn playlist_with_loop(&self, enabled: bool) -> Option<PlaylistFacts> {
        match self.playlist {
            Some(playlist) => Some(
                if playlist.repeat_mode == repeat_mode_of_track(enabled) {
                    playlist
                } else {
                    PlaylistFacts {
                        repeat_mode: repeat_mode_of_track(enabled),
                        loop_enabled: false,
                        dirty: true,
                        ..playlist
                    }
                },
            ),
            None => None,
        }
    }

    /// Switches the loop of the track, and lets a playlist repeat the track or not.
    pub fn set_loop_enabled(&mut self, enabled: bool) -> (target: TransportTarget)
        requires
            old(self).wf(),
        ensures
            final(self).wf(),
            *final(self) == (FlutzDesktopApp {
                project: ProjectState {
                    dirty: old(self).project.dirty || final(self).looping != old(self).looping,
                    ..old(self).project
                },
                looping: old(self).looping.switched(enabled, old(self).length()).normalized(
                    old(self).length(),
                ),
                playlist: old(self).playlist_with_loop(enabled),
                playback: final(self).playback,
                status: final(self).status,
                ..*old(self)
            }),
            old(self).loop_is_given(*final(self), target),
            final(self).status@ == if old(self).looping.switched(
                enabled,
                old(self).length(),
            ).loses_extent(old(self).length()) {
                "Loop disabled: start tick must be less than end tick"@
            } else {
                old(self).status@
            },
    {
        match self.playlist {
            Some(playlist) => {
                self.playlist = Some(playlist_after_track_loop(playlist, enabled));
            },
            None => {},
        }
        let length: u64 = self.transport_tick_length();
        let previous = self.looping;
        let lost = self.looping.set_enabled(enabled, length);
        self.commit_loop(previous, lost)
    }

    /// Lets the track loop as the playlist repeats. The user did not ask for it, so
    /// the project is changed only if `mark_project_dirty` is set.
    pub fn sync_loop_button_from_playlist_repeat_mode(&mut self, mark_project_dirty: bool) -> (
    target: TransportTarget)
        requires
            old(self).wf(),
        ensures
            final(self).wf(),
            match old(self).playlist {
                None => *final(self) == *old(self) && target == TransportTarget::Nothing,
                Some(playlist) => {
                    &&& *final(self) == (FlutzDesktopApp {
                        project: ProjectState {
                            dirty: old(self).project.dirty || (mark_project_dirty && final(self).looping
                            != old(self).looping),
                            ..old(self).project
                        },
                        looping: old(self).looping.switched(
                            playlist.repeat_mode == PlaylistRepeatMode::Track,
                            old(self).length(),
                        ).normalized(old(self).length()),
                        playback: final(self).playback,
                        ..*old(self)
                    })
                    &&& old(self).loop_is_given(*final(self), target)
                },
            },
    {
        let repeat_mode = match self.playlist {
            Some(playlist) => playlist.repeat_mode,
            None => {
                return TransportTarget::Nothing;
            },
        };
        let enabled = repeat_mode == PlaylistRepeatMode::Track;
        let length: u64 = self.transport_tick_length();
        let previous = self.looping;
        self.looping.set_enabled(enabled, length);
        if mark_project_dirty && self.looping != previous {
            self.project.dirty = true;
        }
        self.sync_playback_loop_settings()
    }

    /// Takes in that playback was moved: a counted loop that was left ends. Returns
    /// what is to be asked of playback, if anything.
    pub fn handle_counted_loop_seek(&mut self, target_tick: u64) -> (target: Option<TransportTarget>)
        requires
            old(self).wf(),
        ensures
            final(self).wf(),
            if old(self).looping.ends_by_seeking(target_tick) {
                &&& *final(self) == (FlutzDesktopApp {
                    project: ProjectState {
                        dirty: true,
                        ..old(self).project
                    },
                    looping: LoopState { enabled: false, ..old(self).looping },
                    playback: final(self).playback,
                    status: final(self).status,
                    ..*old(self)
                })
                &&& final(self).status@
                    == "Loop disabled after seeking outside counted loop range"@
                &&& target is Some
                &&& old(self).loop_is_given(*final(self), target->Some_0)
            } else {
                *final(self) == *old(self) && target is None
            },
    {
        if !self.looping.handle_counted_loop_seek(target_tick) {
            return None;
        }
        let target = self.sync_playback_loop_settings();
        self.project.dirty = true;
        self.status = "Loop disabled after seeking outside counted loop range".to_owned();
        Some(target)
    }

    /// The position that is sought for a request, inside the track.
    pub fn sought_tick(&self, tick: u64) -> (target: u64)
        ensures
            target == min_of(tick as int, self.length() as int),
    {
        min_u64(tick, self.transport_tick_length())
    }

    /// Takes in what became of a request to play. `Err` is the text of the error.
    pub fn playback_started(&mut self, result: &Result<AudioPlaybackStatus, String>) -> (outcome:
        &'static str)
        requires
            old(self).wf(),
        ensures
            final(self).wf(),
            *final(self) == (FlutzDesktopApp {
                run_state: match *result {
                    Ok(AudioPlaybackStatus::Audible) => AppRunState::Playing,
                    Ok(AudioPlaybackStatus::AudioUnavailable(_)) => AppRunState::Paused,
                    Err(_) => old(self).run_state,
                },
                status: final(self).status,
                ..*old(self)
            }),
            final(self).status@ == match *result {
                Ok(AudioPlaybackStatus::Audible) => "Playing"@,
                Ok(AudioPlaybackStatus::AudioUnavailable(message)) => message@
                    + ". Connect an output device and use Retry Audio."@,
                Err(error) => error@,
            },
            outcome@ == match *result {
                Ok(AudioPlaybackStatus::Audible) => "audible"@,
                Ok(AudioPlaybackStatus::AudioUnavailable(_)) => "audio_unavailable"@,
                Err(_) => "error"@,
            },
    {
        match result {
            Ok(AudioPlaybackStatus::Audible) => {
                self.run_state = AppRunState::Playing;
                self.status = "Playing".to_owned();
                "audible"
            },
            Ok(AudioPlaybackStatus::AudioUnavailable(message)) => {
                self.run_state = AppRunState::Paused;
                let mut text = message.clone();
                text.append(". Connect an output device and use Retry Audio.");
                self.status = text;
                "audio_unavailable"
            },
            Err(error) => {
                self.status = error.clone();
                "error"
            },
        }
    }

    /// Takes in what became of opening the output again.
    pub fn audio_retried(&mut self, result: &Result<(), String>) -> (outcome: &'static str)
        requires
            old(self).wf(),
        ensures
            final(self).wf(),
            *final(self) == (FlutzDesktopApp {
                status: final(self).status,
                ..*old(self)
            }),
            final(self).status@ == match *result {
                Ok(_) => "Audio output ready"@,
                Err(error) => "Audio still unavailable: "@ + error@
                    + ". Connect an output device and retry."@,
            },
            outcome@ == if result is Ok {
                "ok"@
            } else {
                "error"@
            },
    {
        match result {
            Ok(_) => {
                self.status = "Audio output ready".to_owned();
                "ok"
            },
            Err(error) => {
                self.status = sentence(
                    [
                        "Audio still unavailable: ",
                        error.as_str(),
                        ". Connect an output device and retry.",
                    ],
                );
                "error"
            },
        }
    }

    fn note_run_state(&mut self, run_state: AppRunState, result: &Result<(), String>) -> (outcome:
        &'static str)
        requires
            old(self).wf(),
        ensures
            final(self).wf(),
            *final(self) == (FlutzDesktopApp {
                run_state: if result is Ok {
                    run_state
                } else {
                    old(self).run_state
                },
                status: final(self).status,
                ..*old(self)
            }),
            final(self).status@ == match *result {
                Ok(_) => status_of_run_state(run_state),
                Err(error) => error@,
            },
            outcome@ == if result is Ok {
                "ok"@
            } else {
                "error"@
            },
    {
        match result {
            Ok(_) => {
                self.set_run_state(run_state);
                "ok"
            },
            Err(error) => {
                self.status = error.clone();
                "error"
            },
        }
    }

    /// Takes in what became of a request to pause.
    pub fn playback_paused(&mut self, result: &Result<(), String>) -> (outcome: &'static str)
        requires
            old(self).wf(),
        ensures
            final(self).wf(),
            *final(self) == (FlutzDesktopApp {
                run_state: if result is Ok {
                    AppRunState::Paused
                } else {
                    old(self).run_state
                },
                status: final(self).status,
                ..*old(self)
            }),
            final(self).status@ == match *result {
                Ok(_) => "Paused"@,
                Err(error) => error@,
            },
            outcome@ == if result is Ok {
                "ok"@
            } else {
                "error"@
            },
    {
        self.note_run_state(AppRunState::Paused, result)
    }

    /// Takes in what became of a request to stop.
    pub fn playback_stopped(&mut self, result: &Result<(), String>) -> (outcome: &'static str)
        requires
            old(self).wf(),
        ensures
            final(self).wf(),
            *final(self) == (FlutzDesktopApp {
                run_state: if result is Ok {
                    AppRunState::Idle
                } else {
                    old(self).run_state
                },
                status: final(self).status,
                ..*old(self)
            }),
            final(self).status@ == match *result {
                Ok(_) => "Stopped"@,
                Err(error) => error@,
            },
            outcome@ == if result is Ok {
                "ok"@
            } else {
                "error"@
            },
    {
        self.note_run_state(AppRunState::Idle, result)
    }

    /// Takes in that another track of the playlist was loaded: a player that was
    /// paused stays so.
    pub fn track_changed(&mut self, previous: AppRunState, loaded: bool)
        requires
            old(self).wf(),
        ensures
            final(self).wf(),
            if loaded && previous == AppRunState::Paused {
                &&& *final(self) == (FlutzDesktopApp {
                    run_state: AppRunState::Paused,
                    status: final(self).status,
                    ..*old(self)
                })
                &&& final(self).status@ == "Paused"@
            } else {
                *final(self) == *old(self)
            },
    {
        if loaded && previous == AppRunState::Paused {
            self.set_run_state(AppRunState::Paused);
        }
    }

    /// Notes whether something plays, and returns whether a track came to its end.
    pub fn handle_playback_end_transition(&mut self, active: bool) -> (ended: bool)
        requires
            old(self).wf(),
        ensures
            final(self).wf(),
            *final(self) == (FlutzDesktopApp {
                last_playback_active: active,
                ..*old(self)
            }),
            ended == (old(self).last_playback_active && !active && old(self).run_state
                == AppRunState::Playing && !old(self).looping.enabled),
    {
        let ended = crate::desktop::playlist::track_ended(
            self.last_playback_active,
            active,
            self.run_state,
            self.looping.enabled,
        );
        self.last_playback_active = active;
        ended
    }

    /// Whether idle memory is to be cleaned up: nothing plays and it was not done for
    /// a while.
    pub fn tick_idle_memory_maintenance(&mut self, active: bool, now: u128) -> (due: bool)
        requires
            old(self).wf(),
        ensures
            final(self).wf(),
            due == (!active && monus(now as int, old(self).last_idle_memory_maintenance as int)
                >= IDLE_MEMORY_MAINTENANCE_INTERVAL),
            *final(self) == (FlutzDesktopApp {
                last_idle_memory_maintenance: if due {
                    now
                } else {
                    old(self).last_idle_memory_maintenance
                },
                ..*old(self)
            }),
    {
        let elapsed: u128 = now.saturating_sub(self.last_idle_memory_maintenance);
        if active || elapsed < IDLE_MEMORY_MAINTENANCE_INTERVAL {
            return false;
        }
        self.last_idle_memory_maintenance = now;
        true
    }

    /// What stands before soundfonts are loaded anew.
    pub fn capture_playback_reload_resume_state(&self, transport_seconds: Seconds) -> (state:
        PlaybackReloadResumeState)
        ensures
            state == (PlaybackReloadResumeState { run_state: self.run_state, transport_seconds }),
    {
        PlaybackReloadResumeState { run_state: self.run_state, transport_seconds }
    }

    /// What is to be asked of playback to go on as before.
    pub fn restore_playback_reload_resume_state(&mut self, state: PlaybackReloadResumeState) -> (
    steps: ResumeSteps)
        requires
            old(self).wf(),
        ensures
            final(self).wf(),
            *final(self) == (FlutzDesktopApp {
                run_state: if state.run_state == AppRunState::Playing {
                    old(self).run_state
                } else {
                    state.run_state
                },
                ..*old(self)
            }),
            steps == (ResumeSteps {
                seek: if state.transport_seconds.above_zero() {
                    Some(state.transport_seconds)
                } else {
                    None
                },
                play: state.run_state == AppRunState::Playing,
                pause: state.run_state == AppRunState::Paused,
            }),
    {
        let seek = if state.transport_seconds.is_positive() {
            Some(state.transport_seconds)
        } else {
            None
        };
        match state.run_state {
            AppRunState::Playing => {},
            AppRunState::Paused => {
                self.run_state = AppRunState::Paused;
            },
            AppRunState::Idle => {
                self.run_state = AppRunState::Idle;
            },
        }
        ResumeSteps {
            seek,
            play: state.run_state == AppRunState::Playing,
            pause: state.run_state == AppRunState::Paused,
        }
    }

    /// Gathers again what is known of every soundfont.
    pub fn sync_coverage_cache_from_playback(&mut self)
        requires
            old(self).wf(),
        ensures
            final(self).wf(),
            *final(self) == (FlutzDesktopApp {
                mixer: MixerState {
                    coverage_cache: final(self).mixer.coverage_cache,
                    ..old(self).mixer
                },
                ..*old(self)
            }),
            holds_coverage(
                final(self).mixer.coverage_cache@,
                old(self).playback.catalog@,
                old(self).playback.loaded_coverages@,
            ),
    {
        self.mixer.coverage_cache =
        coverage_cache(self.playback.catalog.as_slice(), &self.playback.loaded_coverages);
    }

    /// The places of the strips of the loaded MIDI file.
    pub open spec fn layout(&self) -> Seq<(u8, u16, u8, bool)> {
        self.playback.midi_strips@.map_values(
            |strip: MidiStripDescriptor|
                (strip.channel, strip.bank, strip.program, strip.is_percussion),
        )
    }

    /// Gives every row the strips of the loaded MIDI file. `routing` says of each
    /// strip of each row what the active preset's routing decided.
    pub fn reset_strip_layout(&mut self, routing: &[Vec<Option<StripRouting>>])
        requires
            old(self).wf(),
            routing@.len() == old(self).mixer.soundfonts@.len(),
            forall|i: int|
                0 <= i < routing@.len() ==> (#[trigger] routing@[i])@.len()
                    == old(self).playback.midi_strips@.len(),
        ensures
            final(self).wf(),
            *final(self) == (FlutzDesktopApp {
                mixer: MixerState {
                    soundfonts: final(self).mixer.soundfonts,
                    logged_unmatched_snapshot_strips: final(self).mixer.logged_unmatched_snapshot_strips,
                    ..old(self).mixer
                },
                ..*old(self)
            }),
            final(self).mixer.logged_unmatched_snapshot_strips@.len() == 0,
            row_views(final(self).mixer.soundfonts@) == laid_out_rows(
                row_views(old(self).mixer.soundfonts@),
                old(self).layout(),
                routing@,
            ),
    {
        let layout = self.playback.midi_strip_layout();
        self.mixer.logged_unmatched_snapshot_strips = Vec::new();
        assert(layout@.len() == self.playback.midi_strips@.len());
        crate::desktop::rows::reset_strip_layout(&mut self.mixer.soundfonts, layout.as_slice(), routing);
        assert(self.mixer.soundfonts@.len() == row_views(self.mixer.soundfonts@).len());
    }

    /// Whether `after` is the player with its strips assigned in a mode: that is the
    /// user's own choice, so the preset is left. Playback gets the controls.
    pub open spec fn is_assigned(&self, after: FlutzDesktopApp<S>, mode: MixerAssignmentMode) -> bool {
        &&& after == (FlutzDesktopApp {
            mixer: MixerState {
                coverage_cache: after.mixer.coverage_cache,
                mixer_assignment_mode: mode,
                soundfonts: after.mixer.soundfonts,
                ..self.mixer
            },
            choice: PresetChoice {
                active_preset_id: after.choice.active_preset_id,
                ..self.choice
            },
            project: ProjectState {
                dirty: true,
                ..self.project
            },
            playback: PlaybackController {
                mixer_controls: after.playback.mixer_controls,
                ..self.playback
            },
            status: after.status,
            ..*self
        })
        &&& after.has_given_controls()
        &&& holds_coverage(
            after.mixer.coverage_cache@,
            self.playback.catalog@,
            self.playback.loaded_coverages@,
        )
        &&& after.choice.active_preset_id@ == "custom"@
        &&& row_views(after.mixer.soundfonts@) == assigned_rows(
            row_views(self.mixer.soundfonts@),
            after.mixer.coverage_cache@,
            mode,
        )
        &&& after.status@ == match mode {
            MixerAssignmentMode::Manual => "Mixer -> Custom"@,
            MixerAssignmentMode::Balance => "Mixer -> Balanced"@,
            MixerAssignmentMode::Layer => "Mixer -> Layered"@,
        }
    }

    /// Assigns the strips to the soundfonts in the given mode.
    pub fn apply_mixer_assignment_mode(&mut self, mode: MixerAssignmentMode)
        requires
            old(self).wf(),
        ensures
            final(self).wf(),
            old(self).is_assigned(*final(self), mode),
    {
        self.sync_coverage_cache_from_playback();
        self.convert_to_custom_mode();
        self.mixer.mixer_assignment_mode = mode;
        crate::desktop::rows::assign_rows(&mut self.mixer.soundfonts, &self.mixer.coverage_cache, mode);
        assert(self.mixer.soundfonts@.len() == row_views(self.mixer.soundfonts@).len());
        self.sync_playback_controls();
        self.project.dirty = true;
        self.status = match mode {
            MixerAssignmentMode::Manual => "Mixer -> Custom".to_owned(),
            MixerAssignmentMode::Balance => "Mixer -> Balanced".to_owned(),
            MixerAssignmentMode::Layer => "Mixer -> Layered".to_owned(),
        };
    }

    /// Lets every soundfont play every strip.
    pub fn apply_balanced_mixer_assignment(&mut self)
        requires
            old(self).wf(),
        ensures
            final(self).wf(),
            old(self).is_assigned(*final(self), MixerAssignmentMode::Balance),
    {
        self.apply_mixer_assignment_mode(MixerAssignmentMode::Balance);
    }

    /// Lets each strip be played by the last soundfont that has it.
    pub fn apply_layered_mixer_assignment(&mut self)
        requires
            old(self).wf(),
        ensures
            final(self).wf(),
            old(self).is_assigned(*final(self), MixerAssignmentMode::Layer),
    {
        self.apply_mixer_assignment_mode(MixerAssignmentMode::Layer);
    }

    /// Gives playback the controls of the strips.
    pub fn sync_playback_controls(&mut self)
        requires
            old(self).wf(),
        ensures
            final(self).wf(),
            *final(self) == (FlutzDesktopApp {
                playback: PlaybackController {
                    mixer_controls: final(self).playback.mixer_controls,
                    ..old(self).playback
                },
                ..*old(self)
            }),
            final(self).has_given_controls(),
    {
        let strip_controls = strip_controls_of_rows(self.mixer.soundfonts.as_slice());
        self.playback.set_mixer_controls(MixerControlState { strip_controls });
    }

    /// The state of playback as one line.
    pub fn playback_summary(&self, engine: Option<(usize, u32)>, device: Option<&str>) -> (text:
        String)
        requires
            self.wf(),
        ensures
            text@ == self.playback.line(engine, error_view(device)),
    {
        self.playback.status_line(engine, device)
    }

    /// Whether the output can be heard, as text.
    pub fn audio_status(&self, device: Option<&str>) -> (text: String)
        ensures
            text@ == self.playback.audio_text(error_view(device)),
    {
        self.playback.audio_status_text(device)
    }

    /// Whether the project can be saved where it came from, whose extension is given.
    /// Otherwise the user is asked for a path.
    pub fn save_project(&self, extension: Option<&str>) -> (can: bool)
        ensures
            can == (self.project.current_path is Some && saves_in_place(
                self.project.loaded_content,
                error_view(extension),
            )),
    {
        self.project.current_path.is_some() && can_save_project_to_existing_path(
            &self.project.loaded_content,
            extension,
        )
    }

    /// Begins an empty playlist and shows it. Returns whether the preferences have to be
    /// saved.
    pub fn new_playlist(&mut self) -> (changed: bool)
        requires
            old(self).wf(),
        ensures
            final(self).wf(),
            *final(self) == (FlutzDesktopApp {
                panels: Panels {
                    playlist_window_open: true,
                    ..old(self).panels
                },
                preload: old(self).preload.cleared(),
                playlist: Some(
                    PlaylistFacts {
                        entry_count: 0,
                        repeat_mode: PlaylistRepeatMode::Off,
                        loop_enabled: false,
                        dirty: false,
                    },
                ),
                status: final(self).status,
                ..*old(self)
            }),
            final(self).status@ == "New playlist"@,
            changed == !old(self).panels.playlist_window_open,
    {
        self.preload.clear_playlist_preload();
        self.playlist =
        Some(
            PlaylistFacts {
                entry_count: 0,
                repeat_mode: PlaylistRepeatMode::Off,
                loop_enabled: false,
                dirty: false,
            },
        );
        let changed = !self.panels.playlist_window_open;
        self.panels.playlist_window_open = true;
        self.status = "New playlist".to_owned();
        changed
    }

    /// What is set on the mixer.
    pub fn mixer_edit_snapshot(&self) -> (snapshot: MixerEditSnapshot)
        ensures
            snapshot.master == self.mixer.master,
            snapshot.smart_mix == self.mixer.smart_mix,
            edit_views(snapshot.rows@) == crate::desktop::edits::rows_settings(
                row_views(self.mixer.soundfonts@),
            ),
    {
        crate::desktop::edits::mixer_edit_snapshot(
            self.mixer.master,
            self.mixer.smart_mix,
            self.mixer.soundfonts.as_slice(),
        )
    }

    /// Notices what the user changed on the mixer since a snapshot: the active preset
    /// is left then. Returns whether anything was changed.
    pub fn apply_mixer_edit_snapshot(&mut self, snapshot: &MixerEditSnapshot) -> (changed: bool)
        requires
            old(self).wf(),
        ensures
            final(self).wf(),
            changed == mixer_edited(
                old(self).mixer.master,
                old(self).mixer.smart_mix,
                row_views(old(self).mixer.soundfonts@),
                *snapshot,
            ),
            row_views(final(self).mixer.soundfonts@) == noticed_rows(
                row_views(old(self).mixer.soundfonts@),
                edit_views(snapshot.rows@),
            ),
            *final(self) == if changed {
                FlutzDesktopApp {
                    mixer: MixerState {
                        soundfonts: final(self).mixer.soundfonts,
                        mixer_assignment_mode: MixerAssignmentMode::Manual,
                        ..old(self).mixer
                    },
                    choice: PresetChoice {
                        active_preset_id: final(self).choice.active_preset_id,
                        ..old(self).choice
                    },
                    project: ProjectState {
                        dirty: true,
                        ..old(self).project
                    },
                    ..*old(self)
                }
            } else {
                FlutzDesktopApp {
                    mixer: MixerState {
                        soundfonts: final(self).mixer.soundfonts,
                        ..old(self).mixer
                    },
                    ..*old(self)
                }
            },
            changed ==> final(self).choice.active_preset_id@ == "custom"@,
    {
        let changed = crate::desktop::edits::apply_mixer_edit_snapshot(
            &self.mixer.master,
            &self.mixer.smart_mix,
            &mut self.mixer.soundfonts,
            snapshot,
        );
        assert(self.mixer.soundfonts@.len() == row_views(self.mixer.soundfonts@).len());
        if changed {
            self.convert_to_custom_mode();
            self.mixer.mixer_assignment_mode = MixerAssignmentMode::Manual;
            self.project.dirty = true;
        }
        changed
    }

    /// Shows a snapshot of the mixer, and returns what is to be told of strips that
    /// no row shows.
    pub fn apply_realtime_snapshot(&mut self, snapshot: &RealtimeMixerSnapshot) -> (reports: Vec<
        (RealtimeStripKey, u64),
    >)
        requires
            old(self).wf(),
        ensures
            final(self).wf(),
            *final(self) == (FlutzDesktopApp {
                mixer: MixerState {
                    soundfonts: final(self).mixer.soundfonts,
                    logged_unmatched_snapshot_strips: final(self).mixer.logged_unmatched_snapshot_strips,
                    ..old(self).mixer
                },
                ..*old(self)
            }),
            (Feedback {
                rows: row_views(final(self).mixer.soundfonts@),
                logged: key_views(final(self).mixer.logged_unmatched_snapshot_strips@),
                reports: report_views(reports@),
            }) == (Feedback {
                rows: row_views(old(self).mixer.soundfonts@),
                logged: key_views(old(self).mixer.logged_unmatched_snapshot_strips@),
                reports: Seq::empty(),
            }).with_all(visuals_in_order(snapshot.strips@)),
    {
        crate::desktop::feedback::apply_realtime_snapshot(
            &mut self.mixer.soundfonts,
            &mut self.mixer.logged_unmatched_snapshot_strips,
            snapshot,
        )
    }

    /// Collapses every row of the mixer, or expands them if all are collapsed.
    pub fn toggle_all_mixer_rows_collapsed(&mut self)
        requires
            old(self).wf(),
        ensures
            final(self).wf(),
            *final(self) == (FlutzDesktopApp {
                mixer: MixerState {
                    soundfonts: final(self).mixer.soundfonts,
                    ..old(self).mixer
                },
                ..*old(self)
            }),
            row_views(final(self).mixer.soundfonts@) == row_views(old(self).mixer.soundfonts@).map_values(
                |row: RowUiView|
                    RowUiView {
                        collapsed: !crate::desktop::edits::all_collapsed(
                            row_views(old(self).mixer.soundfonts@),
                        ),
                        ..row
                    },
            ),
    {
        crate::desktop::edits::toggle_all_mixer_rows_collapsed(&mut self.mixer.soundfonts);
        assert(self.mixer.soundfonts@.len() == row_views(self.mixer.soundfonts@).len());
    }

    /// The selected soundfont of the catalog.
    pub open spec fn selected_id(&self) -> Option<Seq<char>> {
        if self.mixer.selected_soundfont < self.playback.catalog@.len() {
            Some(self.playback.catalog@[self.mixer.selected_soundfont as int].internal_id@)
        } else {
            None
        }
    }

    /// The soundfonts that are to be loaded when the selected one is added, or why it
    /// is not. The user is told in the latter case; in the former the preset is left.
    pub fn add_selected_soundfont(&mut self) -> (requested: Result<Vec<String>, &'static str>)
        requires
            old(self).wf(),
        ensures
            final(self).wf(),
            ({
                let loaded = row_ids(row_views(old(self).mixer.soundfonts@));
                match (old(self).selected_id(), requested) {
                    (None, Err(outcome)) => {
                        &&& outcome@ == "none_selected"@
                        &&& *final(self) == (FlutzDesktopApp {
                            status: final(self).status,
                            ..*old(self)
                        })
                        &&& final(self).status@ == "No catalog soundfont selected"@
                    },
                    (Some(id), Err(outcome)) => {
                        &&& loaded.contains(id)
                        &&& outcome@ == "already_loaded"@
                        &&& *final(self) == (FlutzDesktopApp {
                            status: final(self).status,
                            ..*old(self)
                        })
                        &&& final(self).status@ == "Soundfont is already loaded"@
                    },
                    (Some(id), Ok(requested)) => {
                        &&& !loaded.contains(id)
                        &&& texts(requested@) == loaded.push(id)
                        &&& *final(self) == (FlutzDesktopApp {
                            choice: PresetChoice {
                                active_preset_id: final(self).choice.active_preset_id,
                                ..old(self).choice
                            },
                            ..*old(self)
                        })
                        &&& final(self).choice.active_preset_id@ == "custom"@
                    },
                    (None, Ok(_)) => false,
                }
            }),
    {
        if self.mixer.selected_soundfont >= self.playback.catalog.len() {
            self.status = "No catalog soundfont selected".to_owned();
            return Err("none_selected");
        }
        let selected = self.playback.catalog[self.mixer.selected_soundfont].internal_id.clone();
        let mut requested = ids_of_rows(self.mixer.soundfonts.as_slice());
        if contains_text(requested.as_slice(), selected.as_str()) {
            self.status = "Soundfont is already loaded".to_owned();
            return Err("already_loaded");
        }
        let ghost loaded = texts(requested@);
        requested.push(selected);
        assert(texts(requested@) =~= loaded.push(selected@));
        self.convert_to_custom_mode();
        Ok(requested)
    }

    /// The soundfonts that are to be loaded when the selected one is removed, or why it
    /// is not. The user is told in the latter case; in the former the preset is left.
    pub fn remove_selected_soundfont(&mut self) -> (requested: Result<Vec<String>, &'static str>)
        requires
            old(self).wf(),
        ensures
            final(self).wf(),
            ({
                let loaded = row_ids(row_views(old(self).mixer.soundfonts@));
                match (old(self).selected_id(), requested) {
                    (None, Err(outcome)) => {
                        &&& outcome@ == "none_selected"@
                        &&& *final(self) == (FlutzDesktopApp {
                            status: final(self).status,
                            ..*old(self)
                        })
                        &&& final(self).status@ == "No catalog soundfont selected"@
                    },
                    (Some(id), Err(outcome)) => {
                        &&& *final(self) == (FlutzDesktopApp {
                            status: final(self).status,
                            ..*old(self)
                        })
                        &&& if !loaded.contains(id) {
                            outcome@ == "not_loaded"@ && final(self).status@
                                == "Selected catalog soundfont is not loaded"@
                        } else {
                            without_text(loaded, id).len() == 0 && outcome@ == "last_soundfont"@
                                && final(self).status@ == "Cannot remove the last loaded soundfont"@
                        }
                    },
                    (Some(id), Ok(requested)) => {
                        &&& loaded.contains(id)
                        &&& requested@.len() > 0
                        &&& texts(requested@) == without_text(loaded, id)
                        &&& *final(self) == (FlutzDesktopApp {
                            choice: PresetChoice {
                                active_preset_id: final(self).choice.active_preset_id,
                                ..old(self).choice
                            },
                            ..*old(self)
                        })
                        &&& final(self).choice.active_preset_id@ == "custom"@
                    },
                    (None, Ok(_)) => false,
                }
            }),
    {
        if self.mixer.selected_soundfont >= self.playback.catalog.len() {
            self.status = "No catalog soundfont selected".to_owned();
            return Err("none_selected");
        }
        let selected = self.playback.catalog[self.mixer.selected_soundfont].internal_id.clone();
        let loaded = ids_of_rows(self.mixer.soundfonts.as_slice());
        if !contains_text(loaded.as_slice(), selected.as_str()) {
            self.status = "Selected catalog soundfont is not loaded".to_owned();
            return Err("not_loaded");
        }
        let requested = remove_text(loaded.as_slice(), selected.as_str());
        if requested.len() == 0 {
            self.status = "Cannot remove the last loaded soundfont".to_owned();
            return Err("last_soundfont");
        }
        self.convert_to_custom_mode();
        Ok(requested)
    }

    /// What becomes of the selected preset when the user applies it. If it is not to be
    /// applied the user is told.
    pub fn apply_selected_preset(&mut self) -> (step: PresetStep)
        requires
            old(self).wf(),
        ensures
            final(self).wf(),
            step == if old(self).choice.selected_preset_id@ == old(self).choice.active_preset_id@ {
                PresetStep::AlreadyActive
            } else {
                match old(self).choice.preset_set.found(old(self).choice.selected_preset_id@) {
                    Some(i) => PresetStep::Apply { index: i as usize },
                    None => PresetStep::SelectFallback {
                        index: old(self).choice.preset_set.default_index,
                    },
                }
            },
            match step {
                PresetStep::AlreadyActive => *final(self) == (FlutzDesktopApp {
                    status: final(self).status,
                    ..*old(self)
                }) && final(self).status@ == "Preset already active"@,
                PresetStep::SelectFallback { index } => {
                    let fallback = old(self).choice.preset_set.presets@[index as int];
                    &&& *final(self) == (FlutzDesktopApp {
                        choice: PresetChoice {
                            selected_preset_id: final(self).choice.selected_preset_id,
                            ..old(self).choice
                        },
                        status: final(self).status,
                        ..*old(self)
                    })
                    &&& final(self).choice.selected_preset_id@ == fallback.id@
                    &&& final(self).status@ == "Preset unavailable; selected fallback preset "@
                        + fallback.display_name@
                },
                PresetStep::Apply { .. } => *final(self) == *old(self),
            },
    {
        let step = crate::desktop::presets::apply_selected_preset(
            &self.choice.preset_set,
            self.choice.selected_preset_id.as_str(),
            self.choice.active_preset_id.as_str(),
        );
        match step {
            PresetStep::AlreadyActive => {
                self.status = "Preset already active".to_owned();
            },
            PresetStep::SelectFallback { index } => {
                let mut text = "Preset unavailable; selected fallback preset ".to_owned();
                text.append(self.choice.preset_set.presets[index].display_name.as_str());
                self.choice.selected_preset_id = self.choice.preset_set.presets[index].id.clone();
                self.status = text;
            },
            PresetStep::Apply { .. } => {},
        }
        step
    }
}

/// The texts without a given one.
pub open spec fn without_text(list: Seq<Seq<char>>, text: Seq<char>) -> Seq<Seq<char>>
    decreases list.len(),
{
    if list.len() == 0 {
        Seq::empty()
    } else if list.last() == text {
        without_text(list.drop_last(), text)
    } else {
        without_text(list.drop_last(), text).push(list.last())
    }
}

fn remove_text(list: &[String], text: &str) -> (rest: Vec<String>)
    ensures
        texts(rest@) == without_text(texts(list@), text@),
{
    let ghost all = texts(list@);
    let mut rest: Vec<String> = Vec::new();
    let mut i: usize = 0;
    proof {
        assert(all.take(0) =~= Seq::<Seq<char>>::empty());
        assert(texts(rest@) =~= Seq::<Seq<char>>::empty());
    }
    while i < list.len()
        invariant
            i <= list@.len(),
            all == texts(list@),
            texts(rest@) == without_text(all.take(i as int), text@),
        decreases list@.len() - i,
    {
        let ghost before = texts(rest@);
        assert(all.take(i + 1).drop_last() =~= all.take(i as int));
        if !text_eq(list[i].as_str(), text) {
            rest.push(list[i].clone());
            assert(texts(rest@) =~= before.push(list@[i as int]@));
        }
        i = i + 1;
    }
    assert(all.take(i as int) =~= all);
    rest
}

/// A soundfont that was removed is gone, and the others stand.
pub proof fn removed_soundfont_is_gone(list: Seq<Seq<char>>, text: Seq<char>, other: Seq<char>)
    ensures
        !without_text(list, text).contains(text),
        other != text ==> without_text(list, text).contains(other) == list.contains(other),
    decreases list.len(),
{
    if list.len() > 0 {
        let shorter = list.drop_last();
        removed_soundfont_is_gone(shorter, text, other);
        let before = without_text(shorter, text);
        let now = without_text(list, text);
        if list.last() != text {
            assert(now =~= before.push(list.last()));
            assert(!now.contains(text)) by {
                if now.contains(text) {
                    let k = choose|k: int| 0 <= k < now.len() && now[k] == text;
                    assert(before[k] == text);
                }
            }
        }
        if other != text {
            if list.contains(other) && list.last() != other {
                let k = choose|k: int| 0 <= k < list.len() && list[k] == other;
                assert(shorter[k] == other);
            }
            if shorter.contains(other) {
                let k = choose|k: int| 0 <= k < shorter.len() && shorter[k] == other;
                assert(list[k] == other);
            }
            if list.last() != text {
                if before.contains(other) {
                    let k = choose|k: int| 0 <= k < before.len() && before[k] == other;
                    assert(now[k] == other);
                }
                if now.contains(other) && list.last() != other {
                    let k = choose|k: int| 0 <= k < now.len() && now[k] == other;
                    assert(before[k] == other);
                }
                if list.last() == other {
                    assert(now[now.len() - 1] == other);
                }
            }
        }
    }
}

/// The length of decoded audio is that of its frames, and that of a MIDI file is in ticks.
/// What is saved goes by the name of its project, anything else by its own title.
pub proof fn players_show_what_is_loaded<S>(app: FlutzDesktopApp<S>)
    ensures
        app.playback.decoded_metadata is Some ==> app.length()
            == app.playback.decoded_metadata->Some_0.frame_length,
        app.playback.decoded_metadata is None ==> app.length()
            == app.playback.midi_transport.tick_length,
        app.project.current_path is None ==> app.title() == app.project.project_title@,
        app.project.current_path is Some && !is_blank(
            app.project.metadata_edit_state.project_name@,
        ) ==> app.title() == app.project.metadata_edit_state.project_name@,
        is_blank(app.project.metadata_edit_state.project_name@) ==> app.title()
            == app.project.project_title@,
        app.project.loaded_content is Some ==> app.kind() == Some(
            app.project.loaded_content->Some_0.kind,
        ) && app.mastering() == app.project.loaded_content->Some_0.mastering,
        app.project.loaded_content is None ==> app.kind() is None && app.mastering()
            == MasteringCapability::Nothing,
{
}

/// Switching the loop of the track lets a playlist repeat the track, or not, and marks it as
/// changed only where it did otherwise before.
pub proof fn track_loops_reach_the_playlist<S>(app: FlutzDesktopApp<S>, enabled: bool)
    ensures
        app.playlist is None ==> app.playlist_with_loop(enabled) is None,
        app.playlist is Some ==> {
            let before = app.playlist->Some_0;
            let after = app.playlist_with_loop(enabled)->Some_0;
            &&& app.playlist_with_loop(enabled) is Some
            &&& after.repeat_mode == repeat_mode_of_track(enabled)
            &&& after.repeat_mode == before.repeat_mode ==> after == before
            &&& after.repeat_mode != before.repeat_mode ==> after.dirty && !after.loop_enabled
            &&& after.entry_count == before.entry_count
        },
{
}

/// A new loop reaches decoded audio with the settings of the player, and leaves its place and
/// its state alone.
pub proof fn loops_reach_decoded_audio<S>(
    app: FlutzDesktopApp<S>,
    after: FlutzDesktopApp<S>,
    target: TransportTarget,
)
    requires
        app.loop_is_given(after, target),
        app.playback.decoded is Some,
    ensures
        target == TransportTarget::Decoded,
        after.playback.decoded is Some,
        after.playback.decoded->Some_0.position_frame == app.playback.decoded->Some_0.position_frame,
        after.playback.decoded->Some_0.state == app.playback.decoded->Some_0.state,
        after.playback.mixer_controls == app.playback.mixer_controls,
{
}

/// The soundfont that is selected is the one at its place in the catalog.
pub proof fn selections_are_places_in_the_catalog<S>(app: FlutzDesktopApp<S>)
    ensures
        app.selected_id() is Some <==> app.mixer.selected_soundfont < app.playback.catalog@.len(),
        app.selected_id() is Some ==> app.selected_id()->Some_0
            == app.playback.catalog@[app.mixer.selected_soundfont as int].internal_id@,
{
}

/// Assigning the soundfonts to the strips makes the project a custom one that is changed, in
/// the chosen mode, with no row muted or soloed; playback has the controls of the new rows,
/// and what is loaded stands.
pub proof fn assignments_make_a_custom_mix<S>(
    app: FlutzDesktopApp<S>,
    after: FlutzDesktopApp<S>,
    mode: MixerAssignmentMode,
    i: int,
)
    requires
        app.is_assigned(after, mode),
        0 <= i < app.mixer.soundfonts@.len(),
    ensures
        after.project.dirty,
        after.choice.active_preset_id@ == "custom"@,
        after.mixer.mixer_assignment_mode == mode,
        after.mixer.soundfonts@.len() == app.mixer.soundfonts@.len(),
        !row_views(after.mixer.soundfonts@)[i].muted,
        !row_views(after.mixer.soundfonts@)[i].soloed,
        row_views(after.mixer.soundfonts@)[i].internal_id
            == row_views(app.mixer.soundfonts@)[i].internal_id,
        row_views(after.mixer.soundfonts@)[i].strips.len()
            == row_views(app.mixer.soundfonts@)[i].strips.len(),
        after.playback.mixer_controls.strip_controls@ == rows_controls(
            row_views(after.mixer.soundfonts@),
            after.mixer.soundfonts@.len() as int,
        ),
        after.playback.decoded == app.playback.decoded,
        after.playback.loaded_midi == app.playback.loaded_midi,
        after.looping == app.looping,
        after.mixer.master == app.mixer.master,
        after.mixer.smart_mix == app.mixer.smart_mix,
{
    let rows = row_views(app.mixer.soundfonts@);
    let next = row_views(after.mixer.soundfonts@);
    assert(rows.len() == app.mixer.soundfonts@.len());
    assert(next.len() == after.mixer.soundfonts@.len());
    assert(next.len() == rows.len());
}

/// Giving playback its controls and its loop gives it those of the rows and of the player,
/// and leaves the rest of it alone.
pub proof fn playback_takes_loop_and_controls<S>(
    app: FlutzDesktopApp<S>,
    after: FlutzDesktopApp<S>,
    target: TransportTarget,
)
    requires
        app.loop_and_controls_are_given(after, target),
    ensures
        after.playback.mixer_controls.strip_controls@ == rows_controls(
            row_views(after.mixer.soundfonts@),
            after.mixer.soundfonts@.len() as int,
        ),
        app.playback.decoded is Some ==> target == TransportTarget::Decoded
            && after.playback.decoded is Some && after.playback.decoded->Some_0.position_frame
            == app.playback.decoded->Some_0.position_frame,
        app.playback.decoded is None && app.playback.engine_loaded ==> target
            == TransportTarget::Engine,
        after.playback.catalog == app.playback.catalog,
        after.playback.loaded_midi == app.playback.loaded_midi,
        after.playback.audio_open == app.playback.audio_open,
{
}

/// Positions count frames of a time above zero.
pub proof fn times_above_zero_are_positive(seconds: Seconds)
    ensures
        seconds.bits == 0 ==> !seconds.above_zero(),
        0 < seconds.bits <= 0x7ff0_0000_0000_0000 ==> seconds.above_zero(),
        seconds.bits > 0x7ff0_0000_0000_0000 ==> !seconds.above_zero(),
{
}

} // verus!
