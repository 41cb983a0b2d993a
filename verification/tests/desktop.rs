//! The player's state: loops, mixer rows, projects, playlists and the whole.
use flutz_app::catalog::{BankProgramDemand, SoundFontCatalogEntry, SoundFontCoverage};
use flutz_app::dat::DatStartupSummary;
use flutz_app::desktop::app::{FlutzDesktopApp, StartupPreferences};
use flutz_app::desktop::content::{can_save_project_to_existing_path, decoded_content_state};
use flutz_app::desktop::content::{default_fmid_file_name, default_wrapped_audio_file_name};
use flutz_app::desktop::content::{is_wrapped_file, midi_content_state, open_action};
use flutz_app::desktop::content::{open_dialog_extensions, playlist_entry_action};
use flutz_app::desktop::content::{sanitize_file_stem, save_as_dialog_spec};
use flutz_app::desktop::content::{validate_decoded_wrapper_save_path, ContentKind, FormatDescriptor};
use flutz_app::desktop::content::{FormatFacts, MasteringCapability, OpenAction};
use flutz_app::desktop::edits::{all_mixer_rows_collapsed, apply_mixer_edit_snapshot};
use flutz_app::desktop::edits::{mixer_edit_snapshot, restore_soundfont_row_controls};
use flutz_app::desktop::edits::toggle_all_mixer_rows_collapsed;
use flutz_app::desktop::feedback::{apply_realtime_snapshot, note_name, strip_controls_of_rows};
use flutz_app::desktop::loops::{fmid_has_non_default_loop_config, jump_points_status};
use flutz_app::desktop::loops::{should_enable_loop_by_default, FmidLoopRecord, LoopMode};
use flutz_app::desktop::loops::{LoopState, MediaLoop, PlaylistRepeatMode};
use flutz_app::desktop::metadata::{edit_field_list, first_non_empty, normalized_metadata_fields};
use flutz_app::desktop::metadata::{MetadataEditState, MetadataField, TrackMetadata, TrackTags};
use flutz_app::desktop::opening::fmid_status;
use flutz_app::desktop::peq::{builtin_decoded_peq_preset_file, builtin_decoded_peq_preset_names};
use flutz_app::desktop::peq::{normalize_runtime_decoded_peq_preset, PeqConfigSource};
use flutz_app::desktop::peq::{PeqEditState, PeqPresetLabel};
use flutz_app::desktop::playlist::{decoded_job_failure, must_ask_before_opening, navigate_playlist};
use flutz_app::desktop::playlist::{on_track_end, opened_playlist_status, opening_after_answer};
use flutz_app::desktop::playlist::{playlist_skip_reason, preload_step, save_playlist, select_entry};
use flutz_app::desktop::playlist::{toggle_playlist_loop, track_ended, AppRunState, DecodedLoads};
use flutz_app::desktop::playlist::{EntryFacts, NavigationStep, PlaylistFacts, PlaylistPreload};
use flutz_app::desktop::playlist::{PlaylistSave, PreloadStep, SaveAnswer, TrackEnd};
use flutz_app::desktop::presets::{fmid_requested_soundfonts, mixer_source_mode};
use flutz_app::desktop::presets::{preferences_file_name, render_preferences_file};
use flutz_app::desktop::presets::{MixerSourceMode, Preset, PresetSet, PresetStep};
use flutz_app::desktop::project::{apply_fmid_mixer_settings, build_decoded_wrapper_file};
use flutz_app::desktop::project::{build_fmid_file, hint_extension, plain_audio_names, FmidFile};
use flutz_app::desktop::project::{plain_audio_wrapper, wrapper_source, ProjectParts, WrapperSource};
use flutz_app::desktop::rows::{assign_rows, reset_strip_layout, soundfont_rows_from_catalog};
use flutz_app::desktop::rows::{MasterControls, MixerAssignmentMode, MixerStripUiState};
use flutz_app::desktop::rows::{SmartMixControls, SoundFontUiRow, StripRouting};
use flutz_app::desktop::windows::{Extent, WindowGeometry};
use flutz_app::level::Level;
use flutz_app::playback::backend::AudioBackend;
use flutz_app::playback::controller::{AudioDeviceConfig, AudioPlaybackStatus, TransportTarget};
use flutz_app::playback::decoded::PlaybackLoopMode;
use flutz_app::playback::routing::{MeterReading, RealtimeStripSnapshot};
use flutz_app::playback::snapshot::RealtimeMixerSnapshot;
use flutz_app::playback::transport::{MidiTransportMetadata, Seconds};
use flutz_app::text_map::TextMap;
use std::collections::{BTreeMap, BTreeSet};

fn texts(words: &[&str]) -> Vec<String> {
    words.iter().map(|word| (*word).to_owned()).collect()
}

fn level(value: f32) -> Level {
    Level { bits: value.to_bits() }
}

fn looping(mode: LoopMode, start_tick: u64, end_tick: u64, count: u32) -> LoopState {
    LoopState { enabled: true, mode, start_tick, end_tick, count }
}

#[test]
fn loops_are_kept_inside_the_track() {
    let mut state = LoopState::default();
    assert!(!state.enabled);
    state.set_enabled(true, 900);
    state.set_mode(LoopMode::Counted, 900);
    state.set_count(3, 900);
    state.set_start(100, 900);
    state.set_end(2_000, 900);
    assert_eq!((state.start_tick, state.end_tick, state.count), (100, 900, 3));
    let settings = state.current_loop_settings();
    assert!(settings.enabled && settings.mode == PlaybackLoopMode::Counted);
    assert_eq!((settings.start_tick, settings.end_tick, settings.loop_count), (100, 900, 3));
    assert_eq!(LoopMode::Off.label(), "none");
}

#[test]
fn a_seek_past_a_counted_loop_ends_it() {
    let mut inside = looping(LoopMode::Counted, 10, 20, 2);
    assert!(!inside.handle_counted_loop_seek(15));
    assert!(inside.enabled);
    let mut past = looping(LoopMode::Counted, 10, 20, 2);
    assert!(past.handle_counted_loop_seek(20));
    assert!(!past.enabled);
    let mut endless = looping(LoopMode::Infinite, 10, 20, 2);
    assert!(!endless.handle_counted_loop_seek(30));
}

#[test]
fn loops_survive_being_saved() {
    let state = looping(LoopMode::Counted, 10, 20, 2);
    let saved = state.to_fmid();
    assert!(fmid_has_non_default_loop_config(saved));
    assert!(LoopState::from_fmid(saved, 100) == state);
    let region = state.to_media_loop();
    assert!(LoopState::apply_decoded_audio_defaults(Some(region), false, 100) == state);
    let plain = FmidLoopRecord { enabled: false, mode: LoopMode::Off, start_tick: 0, end_tick: 0, loop_count: 1 };
    assert!(!fmid_has_non_default_loop_config(plain));
    assert!(should_enable_loop_by_default(false, false));
    assert!(!should_enable_loop_by_default(false, true));
}

#[test]
fn jump_points_are_told() {
    assert_eq!(jump_points_status(&[]), None);
    assert!(jump_points_status(&[10, 900]).unwrap_or_default().contains("10, 900"));
    let mut state = LoopState::default();
    let transport = MidiTransportMetadata::from_loaded_midi(Seconds { bits: 0 }, 900, &[40], &[800]);
    state.apply_midi_transport_metadata(&transport, 900);
    assert_eq!((state.start_tick, state.end_tick), (40, 800));
}

fn entry(id: &str, programs: &[u8], percussion: bool) -> SoundFontCatalogEntry {
    SoundFontCatalogEntry {
        internal_id: id.to_owned(),
        display_name: format!("Font {id}"),
        source_format: "sf2".to_owned(),
        storage_format: "sf2".to_owned(),
        runtime_format: "sf2".to_owned(),
        is_default: id == "a",
        total_size: 1,
        part_count: 1,
        coverage: Some(SoundFontCoverage {
            percussion,
            bank_programs: programs.iter().map(|program| BankProgramDemand { bank: 0, program: *program }).collect(),
        }),
    }
}

fn catalog() -> Vec<SoundFontCatalogEntry> {
    vec![entry("a", &[1], false), entry("b", &[1, 2], true)]
}

fn rows() -> Vec<SoundFontUiRow> {
    let mut rows = soundfont_rows_from_catalog(&catalog(), &texts(&["a", "b"]));
    let routing = vec![vec![None, None], vec![None, None]];
    reset_strip_layout(&mut rows, &[(0, 0, 1, false), (9, 0, 0, true)], &routing);
    rows
}

fn cache() -> TextMap<SoundFontCoverage> {
    let mut cache = TextMap::new();
    for entry in catalog() {
        if let Some(coverage) = entry.coverage {
            cache.insert(entry.internal_id, coverage);
        }
    }
    cache
}

#[test]
fn rows_follow_the_catalog() {
    let rows = rows();
    assert_eq!(rows.len(), 2);
    assert_eq!((rows[1].internal_id.as_str(), rows[1].display_name.as_str()), ("b", "Font b"));
    assert_eq!(rows[0].strips[0].strip_id, 100_002);
    assert_eq!(rows[0].strips[1].program_name, "Percussion");
    assert_eq!(rows[1].strips[0].program_name, "Program 1");
    let unknown = soundfont_rows_from_catalog(&catalog(), &texts(&["zzz"]));
    assert_eq!((unknown[0].internal_id.as_str(), unknown[0].display_name.as_str()), ("zzz", "zzz"));
    let strip = MixerStripUiState::for_channel(0, 9);
    assert!(strip.is_percussion && strip.channel == 9);
}

#[test]
fn the_routing_sets_new_strips() {
    let mut rows = soundfont_rows_from_catalog(&catalog(), &texts(&["a"]));
    let routed = StripRouting { volume: level(0.25), muted: true, unsupported: true };
    reset_strip_layout(&mut rows, &[(0, 0, 7, false)], &[vec![Some(routed)]]);
    let strip = &rows[0].strips[0];
    assert!(strip.muted && strip.unsupported && strip.mute_policy_default);
    assert!(strip.levels.volume == level(0.25));
}

#[test]
fn layers_play_each_strip_once() {
    let mut layered = rows();
    assign_rows(&mut layered, &cache(), MixerAssignmentMode::Layer);
    assert!(layered[0].strips[0].muted);
    assert!(!layered[1].strips[0].muted);
    assert!(layered[0].strips[1].muted);
    assert!(!layered[1].strips[1].muted);
    let mut balanced = rows();
    assign_rows(&mut balanced, &cache(), MixerAssignmentMode::Balance);
    assert!(!balanced[0].strips[0].muted && !balanced[1].strips[0].muted);
    assert!(!balanced[0].strips[1].muted);
}

#[test]
fn edits_are_noticed() {
    let mut rows = rows();
    let master = MasterControls::default();
    let smart = SmartMixControls::default();
    let snapshot = mixer_edit_snapshot(master, smart, &rows);
    assert!(!apply_mixer_edit_snapshot(&master, &smart, &mut rows, &snapshot));
    rows[0].strips[0].mute_policy_default = true;
    rows[0].strips[0].muted = true;
    assert!(apply_mixer_edit_snapshot(&master, &smart, &mut rows, &snapshot));
    assert!(!rows[0].strips[0].mute_policy_default);
    let louder = MasterControls { volume_db: level(3.0), ..master };
    let again = mixer_edit_snapshot(master, smart, &rows);
    assert!(apply_mixer_edit_snapshot(&louder, &smart, &mut rows, &again));
}

#[test]
fn controls_survive_a_reload() {
    let mut before = rows();
    before[1].muted = true;
    before[1].strips[0].levels.pan = level(-0.5);
    let mut after = rows();
    restore_soundfont_row_controls(&mut after, &before);
    assert!(after[1].muted);
    assert!(after[1].strips[0].levels.pan == level(-0.5));
    assert!(all_mixer_rows_collapsed(&after));
    toggle_all_mixer_rows_collapsed(&mut after);
    assert!(!all_mixer_rows_collapsed(&after));
    toggle_all_mixer_rows_collapsed(&mut after);
    assert!(all_mixer_rows_collapsed(&after));
}

fn sounding(soundfont_id: &str, program: u8) -> RealtimeStripSnapshot {
    RealtimeStripSnapshot {
        soundfont_id: soundfont_id.to_owned(),
        midi_channel: 0,
        midi_bank: 0,
        midi_program: program,
        is_percussion: false,
        display_name: None,
        meter: MeterReading { peak: level(0.75), rms: level(0.5) },
        audible: true,
        active_notes: vec![60],
    }
}

#[test]
fn what_sounds_is_shown() {
    assert_eq!(note_name(60), "C4");
    assert_eq!(note_name(0), "C-1");
    assert_eq!(note_name(127), "G9");
    let mut rows = rows();
    let mut logged = Vec::new();
    let mut strips = BTreeMap::new();
    strips.insert(100_002, sounding("a", 1));
    strips.insert(100_006, sounding("a", 5));
    strips.insert(999, sounding("zzz", 5));
    let snapshot = RealtimeMixerSnapshot {
        output_meter: MeterReading { peak: level(0.0), rms: level(0.0) },
        strips,
    };
    let reports = apply_realtime_snapshot(&mut rows, &mut logged, &snapshot);
    assert_eq!(rows[0].strips[0].current_note, "C4");
    assert!(rows[0].strips[0].active);
    assert_eq!(reports.len(), 1);
    assert_eq!((reports[0].0.soundfont_id.as_str(), reports[0].1), ("a", 100_006));
    assert_eq!(apply_realtime_snapshot(&mut rows, &mut logged, &snapshot).len(), 0);
    assert_eq!(strip_controls_of_rows(&rows).len(), 4);
}

fn field(key: &str, value: &str) -> MetadataField {
    MetadataField { key: key.to_owned(), value: value.to_owned() }
}

fn track(project_name: &str) -> TrackMetadata {
    TrackMetadata {
        project_name: project_name.to_owned(),
        source_filename: "a.wav".to_owned(),
        tags: TrackTags { artist: "Someone".to_owned(), ..TrackTags::default() },
        extra_fields: vec![field("key", "value")],
    }
}

#[test]
fn metadata_survives_editing() {
    assert_eq!(first_non_empty("  ", "b"), "b");
    assert_eq!(first_non_empty(" a ", "b"), " a ");
    let state = MetadataEditState::from_track_metadata(&track(""), "title", "file");
    assert_eq!((state.project_name.as_str(), state.source_filename.as_str()), ("title", "a.wav"));
    let back = state.to_track_metadata("x", "y");
    assert_eq!((back.project_name.as_str(), back.tags.artist.as_str()), ("title", "Someone"));
    assert_eq!(back.extra_fields.len(), 1);
    let kept = normalized_metadata_fields(&[field("", " "), field(" k ", " v "), field("k", "")]);
    assert!(kept.iter().any(|kept| kept.key == "k" && kept.value == "v"));
    assert!(kept.iter().all(|kept| !kept.key.is_empty()));
    let mut fields = vec![field("a", "1"), field("b", "2")];
    assert!(edit_field_list(&mut fields, Some(0), true));
    assert_eq!((fields.len(), fields[0].key.as_str(), fields[1].key.as_str()), (2, "b", ""));
    assert!(!edit_field_list(&mut fields, None, false));
}

fn presets() -> PresetSet {
    let preset = |id: &str, name: &str, fonts: &[&str]| Preset {
        id: id.to_owned(),
        display_name: name.to_owned(),
        font_ids: texts(fonts),
    };
    PresetSet {
        presets: vec![preset("one", "One", &["a"]), preset("two", "Two", &["b", "a"])],
        default_index: 1,
    }
}

#[test]
fn presets_are_found() {
    let set = presets();
    assert_eq!((set.find_preset("one"), set.find_preset("none")), (Some(0), None));
    assert_eq!(set.preset_or_default("none"), 1);
    assert_eq!(set.active_preset_label("one"), "One");
    assert!(matches!(mixer_source_mode(&set, "one"), MixerSourceMode::PresetDefault(_)));
    assert!(matches!(mixer_source_mode(&set, "gone"), MixerSourceMode::Custom));
    let (fonts, warning) = fmid_requested_soundfonts(&set, &MixerSourceMode::Custom, &texts(&["x"]));
    assert_eq!((fonts, warning), (texts(&["x"]), None));
    let gone = MixerSourceMode::PresetDefault("gone".to_owned());
    let (fallback, told) = fmid_requested_soundfonts(&set, &gone, &texts(&["x"]));
    assert_eq!(fallback, texts(&["b", "a"]));
    assert!(told.unwrap_or_default().contains("gone"));
    let step = |selected: &str, active: &str| {
        flutz_app::desktop::presets::apply_selected_preset(&set, selected, active)
    };
    assert!(matches!(step("one", "one"), PresetStep::AlreadyActive));
    assert!(matches!(step("one", "two"), PresetStep::Apply { index: 0 }));
    assert!(matches!(step("gone", "two"), PresetStep::SelectFallback { index: 1 }));
    assert_eq!(preferences_file_name(), "preferences.ini");
    let text = render_preferences_file(&set, "body = 1\n");
    assert!(text.ends_with("body = 1\n") && text.contains("two"));
}

fn wave() -> FormatDescriptor {
    FormatDescriptor {
        id: "wav".to_owned(),
        friendly_name: "Wave".to_owned(),
        content_kind: ContentKind::DecodedAudio,
        mastering: MasteringCapability::DecodedAudioPeq,
        extensions: texts(&["wav", "wave"]),
        wrapped_extensions: texts(&["fwav"]),
    }
}

#[test]
fn files_are_opened_by_their_kind() {
    let facts = |content_kind, mastering| Some(FormatFacts { content_kind, mastering });
    let wave = facts(ContentKind::DecodedAudio, MasteringCapability::DecodedAudioPeq);
    assert!(open_action(Some("FPLIST"), None) == OpenAction::Playlist);
    assert!(open_action(Some("wav"), wave) == OpenAction::DecodedAudio);
    assert!(open_action(Some("x"), None) == OpenAction::Unsupported);
    assert!(playlist_entry_action(true, facts(ContentKind::Midi, MasteringCapability::MidiMastering)) == OpenAction::Midi);
    assert!(is_wrapped_file(Some("FWAV"), &texts(&["fwav"])));
    assert!(!is_wrapped_file(None, &texts(&["fwav"])));
}

#[test]
fn names_are_proposed_for_saving() {
    assert_eq!(default_fmid_file_name(" song.mid "), "song.fmid");
    assert_eq!(default_fmid_file_name("song"), "song.fmid");
    assert_eq!(default_fmid_file_name(".hidden"), ".hidden.fmid");
    assert_eq!(default_fmid_file_name("a.b.c.."), "a.b.c.fmid");
    assert_eq!(default_wrapped_audio_file_name("song.wav", "fwav"), "song.fwav");
    assert_eq!(sanitize_file_stem("  "), "peq-preset");
    assert_eq!(sanitize_file_stem(".."), "peq-preset");
    assert_eq!(sanitize_file_stem("mix.fpeq"), "mix");
    let content = Some(decoded_content_state(&wave(), false, "a.wav"));
    let dialog = save_as_dialog_spec(&content, "a.wav");
    assert_eq!(dialog.filter_name, "Flutz Wave wrapper");
    assert_eq!(dialog.extensions, texts(&["fwav"]));
    assert_eq!(dialog.default_name, "a.fwav");
    let midi = save_as_dialog_spec(&None, "a.mid");
    assert_eq!((midi.filter_name.as_str(), midi.default_name.as_str()), ("FMID files", "a.fmid"));
    let extensions = open_dialog_extensions(&[wave()]);
    assert!(extensions.windows(2).all(|pair| pair[0] < pair[1]));
    assert!(extensions.contains(&"fwav".to_owned()));
}

#[test]
fn sources_are_not_overwritten() {
    let content = Some(decoded_content_state(&wave(), false, "a.fwav"));
    assert!(validate_decoded_wrapper_save_path(&content, Some("FWAV"), "b.fwav", false).is_ok());
    let refused = |extension: Option<&str>, is_source: bool| {
        match validate_decoded_wrapper_save_path(&content, extension, "a.fwav", is_source) {
            Ok(()) => panic!("accepted"),
            Err(error) => error.message().to_owned(),
        }
    };
    assert_eq!(refused(Some("wav"), false), "decoded audio projects must be saved as .fwav wrapper files");
    assert_eq!(refused(None, false), "decoded audio projects must be saved as .fwav wrapper files");
    assert_eq!(
        refused(Some("fwav"), true),
        "cannot overwrite the active decoded source a.fwav; save to a different .fwav wrapper path"
    );
    assert!(can_save_project_to_existing_path(&content, Some("fwav")));
    assert!(can_save_project_to_existing_path(&None, Some("FMID")));
    assert!(!can_save_project_to_existing_path(&content, Some("wav")));
    assert!(!can_save_project_to_existing_path(&content, None));
    assert!(midi_content_state(true).kind == ContentKind::Fmid);
}

#[test]
fn equalizer_settings_are_named() {
    let mut state = PeqEditState::default();
    assert_eq!(state.decoded_peq_preset_display_name(), "No decoded audio");
    state.take_config(PeqConfigSource::PresetFile, Some("bright.fpeq".to_owned()), true, true);
    assert_eq!(state.decoded_peq_preset_display_name(), "Current Track Wrapper Settings*");
    state.preset_name = None;
    assert_eq!(state.decoded_peq_preset_display_name(), "bright*");
    assert_eq!(state.decoded_peq_preset_path_label(), "bright.fpeq");
    assert_eq!(state.saved_name("song"), "song");
    state.saved_to_file("Bright".to_owned(), "b.fpeq".to_owned());
    assert_eq!(state.decoded_peq_preset_display_name(), "Bright");
    state.take_track(Some(PeqPresetLabel { name: None, tags: texts(&["loud"]) }));
    assert!(state.source == PeqConfigSource::Wrapper && state.preset_name.is_none());
    assert_eq!(state.source.label(), PeqConfigSource::Wrapper.label());
    assert_eq!(builtin_decoded_peq_preset_names(), ["Default", "Flat"]);
    assert_eq!(builtin_decoded_peq_preset_file("Flat"), Some("eq-presets/Flat.fpeq"));
    assert_eq!(builtin_decoded_peq_preset_file("flat"), None);
}

fn playlist(entry_count: usize, repeat_mode: PlaylistRepeatMode, dirty: bool) -> PlaylistFacts {
    PlaylistFacts { entry_count, repeat_mode, loop_enabled: repeat_mode != PlaylistRepeatMode::Off, dirty }
}

#[test]
fn playlists_are_walked() {
    let three = Some(playlist(3, PlaylistRepeatMode::Off, false));
    assert!(navigate_playlist(None, Some(0)) == NavigationStep::NoPlaylist);
    assert!(navigate_playlist(Some(playlist(0, PlaylistRepeatMode::Off, false)), None) == NavigationStep::EmptyPlaylist);
    assert!(navigate_playlist(three, None) == NavigationStep::NothingToPlay);
    assert!(navigate_playlist(three, Some(2)) == NavigationStep::Load { index: 2 });
    assert!(track_ended(true, false, AppRunState::Playing, false));
    assert!(!track_ended(true, true, AppRunState::Playing, false));
    assert!(!track_ended(true, false, AppRunState::Paused, false));
    assert!(on_track_end(Some(playlist(3, PlaylistRepeatMode::Track, false))) == TrackEnd::Repeat);
    assert!(on_track_end(Some(playlist(3, PlaylistRepeatMode::Playlist, false))) == TrackEnd::NextOrFirst);
    assert!(on_track_end(three) == TrackEnd::Next);
    assert!(must_ask_before_opening(Some(playlist(2, PlaylistRepeatMode::Off, true))));
    assert!(!must_ask_before_opening(three));
    assert!(opening_after_answer(SaveAnswer::No, false).0);
    assert!(!opening_after_answer(SaveAnswer::Cancel, true).0);
    assert!(!opening_after_answer(SaveAnswer::Yes, false).0);
    let facts = |name: &str, file_exists, supported| EntryFacts { display_name: name.to_owned(), file_exists, supported };
    assert_eq!(
        playlist_skip_reason(Some(&[facts("x", true, false), facts("y", false, false)])),
        "Skipped missing file: y"
    );
    assert_eq!(playlist_skip_reason(Some(&[facts("x", true, false)])), "Skipped unsupported file: x");
    assert_eq!(playlist_skip_reason(Some(&[])), "No valid playlist entries remain");
    assert!(save_playlist(false, true) == PlaylistSave::Nothing);
    assert!(save_playlist(true, false) == PlaylistSave::Ask);
    assert!(save_playlist(true, true) == PlaylistSave::InPlace);
    assert_eq!(opened_playlist_status(0, None, "p.fplist"), "Loaded empty playlist");
    assert_eq!(opened_playlist_status(3, Some(true), "p.fplist"), "Loaded playlist p.fplist");
    assert_eq!(
        opened_playlist_status(3, Some(false), "p.fplist"),
        "Loaded playlist, but first valid track failed to load"
    );
    assert_eq!(
        opened_playlist_status(3, None, "p.fplist"),
        "Loaded playlist, but no valid tracks were found"
    );
    let (on, repeat) = toggle_playlist_loop(false, PlaylistRepeatMode::Off);
    assert!(on && repeat.is_some());
}

#[test]
fn tracks_are_prepared_ahead() {
    let two = Some(playlist(2, PlaylistRepeatMode::Off, false));
    assert!(preload_step(AppRunState::Playing, true, false, two, true) == PreloadStep::LookAhead);
    assert!(preload_step(AppRunState::Playing, true, false, two, false) == PreloadStep::Keep);
    assert!(preload_step(AppRunState::Idle, true, false, two, true) == PreloadStep::Keep);
    assert!(preload_step(AppRunState::Playing, true, true, two, true) == PreloadStep::Clear);
    let mut preload = PlaylistPreload::new();
    let token = match preload.look_ahead(Some((1, "b.wav".to_owned(), true))) {
        Some(token) => token,
        None => panic!("nothing ordered"),
    };
    preload.order_taken(token, 1, "b.wav".to_owned());
    assert!(!preload.take_ready_playlist_preload(1, "b.wav"));
    preload.order_taken(token, 1, "b.wav".to_owned());
    preload.order_done(true);
    assert!(preload.ready.is_some());
    assert!(preload.take_ready_playlist_preload(1, "b.wav"));
    assert!(!preload.take_ready_playlist_preload(1, "b.wav"));
}

#[test]
fn only_the_last_decoded_load_counts() {
    let mut loads = DecodedLoads { token: 0, pending: None };
    let first = loads.order(true, false);
    let second = loads.order(false, true);
    assert_ne!(first, second);
    assert!(loads.finish(first).is_none());
    assert!(loads.pending.is_none());
    let second = loads.order(false, true);
    assert!(loads.finish(second).is_some());
    assert!(loads.finish(second).is_none());
    assert!(decoded_job_failure(&Some("bad".to_owned()), "decode", true, true).is_some());
    assert!(decoded_job_failure(&None, "decode", true, true).is_none());
    let mut selected = BTreeSet::new();
    select_entry(&mut selected, 1, false);
    select_entry(&mut selected, 2, true);
    assert_eq!(selected.len(), 2);
    select_entry(&mut selected, 2, true);
    assert_eq!(selected.len(), 1);
    select_entry(&mut selected, 5, false);
    assert!(selected.contains(&5) && selected.len() == 1);
}

#[test]
fn a_project_survives_being_saved() {
    let mut before = rows();
    before[0].muted = true;
    before[1].strips[0].levels.volume = level(0.25);
    before[1].strips[0].muted = true;
    let set = presets();
    let state = MetadataEditState::from_names("title", "song.mid");
    let ids = texts(&["a", "b"]);
    let parts = ProjectParts {
        metadata: &state,
        title: "title",
        midi_name: Some("song.mid"),
        loaded_ids: &ids,
        rows: &before,
        master: MasterControls::default(),
        smart_mix: SmartMixControls::default(),
        looping: looping(LoopMode::Infinite, 1, 9, 1),
        presets: &set,
        active_preset_id: "custom",
    };
    match build_fmid_file(None, &parts) {
        Ok(_) => panic!("saved nothing"),
        Err(error) => assert!(!error.message().is_empty()),
    }
    let file = match build_fmid_file(Some(&[1, 2, 3]), &parts) {
        Ok(file) => file,
        Err(_) => panic!("refused"),
    };
    assert_eq!((file.midi_bytes.len(), file.soundfonts.len(), file.strips.len()), (3, 2, 4));
    let mut after = rows();
    apply_fmid_mixer_settings(&mut after, &file);
    assert!(after[0].muted);
    assert!(after[1].strips[0].muted && after[1].strips[0].levels.volume == level(0.25));
}

#[test]
fn audio_is_wrapped() {
    assert!(matches!(wrapper_source(Some(true), false, &None), Ok(WrapperSource::Own)));
    assert!(matches!(wrapper_source(Some(false), true, &None), Ok(WrapperSource::Kept)));
    assert!(matches!(wrapper_source(Some(false), false, &Some("a".to_owned())), Ok(WrapperSource::File(_))));
    assert!(wrapper_source(Some(false), false, &None).is_err());
    assert!(wrapper_source(None, true, &None).is_err());
    let names = plain_audio_names("wav", Some("a.wav"), Some("a"));
    assert_eq!((names.source_filename.as_str(), names.project_name.as_str()), ("a.wav", "a"));
    let wrapper = plain_audio_wrapper("wav", names, Some((track("name"), vec![field("k", "v")])));
    let state = MetadataEditState::from_names("title", "a.wav");
    let saved = build_decoded_wrapper_file(wrapper, vec![7], &state, "title", looping(LoopMode::Infinite, 1, 9, 1));
    assert_eq!(saved.source_bytes, [7]);
    assert_eq!(saved.metadata.project_name, "title");
    assert!(saved.loop_region.is_some());
    assert_eq!(hint_extension(Some("WAV"), &texts(&["wav"])).as_deref().map(str::to_ascii_lowercase).as_deref(), Some("wav"));
}

#[test]
fn windows_remember_their_place() {
    let mut geometry = WindowGeometry { position: None, size: None };
    let place = Some(Extent { x: level(3.0), y: level(4.0) });
    assert!(geometry.update(place, None));
    assert!(!geometry.update(place, None));
    assert!(geometry.update(place, place));
}

fn app() -> FlutzDesktopApp<i32> {
    FlutzDesktopApp::new(
        DatStartupSummary::Available { dat_file_count: 1, dat_byte_count: 2, soundfonts: catalog() },
        presets(),
        StartupPreferences {
            default_preset_id: "one".to_owned(),
            peq_bypass: false,
            playlist_open: false,
            metadata_open: false,
        },
        AudioBackend::Sdl3,
        AudioDeviceConfig { sample_rate: 48_000, channels: 2, internal_block_frames: 512 },
        0,
    )
}

#[test]
fn the_player_starts_idle() {
    let app = app();
    assert!(app.run_state() == AppRunState::Idle);
    assert!(!app.dirty() && !app.has_loaded_project());
    assert_eq!(app.data_summary(), "1 DAT file(s), 2 byte(s), 2 soundfont(s)");
    assert_eq!(app.active_preset_label(), "One");
    assert_eq!(app.soundfont_rows().len(), 1);
    assert_eq!(app.transport_unit_label(), "ticks");
    assert_eq!(app.audio_backend_label(), "SDL3");
    assert!(app.active_content_kind().is_none());
}

#[test]
fn the_player_follows_the_user() {
    let mut app = app();
    app.toggle_release_edit_mode();
    assert!(app.release_edit_mode());
    app.toggle_speaker_volume_popup();
    app.close_speaker_volume_popup();
    assert!(!app.speaker_volume_popup_open());
    assert!(app.set_playlist_window_open(true));
    assert!(!app.set_playlist_window_open(true));
    app.set_selected_preset_id("two".to_owned());
    assert_eq!(app.selected_preset_id(), "two");
    assert!(matches!(app.apply_selected_preset(), PresetStep::Apply { index: 1 }));
    assert!(app.set_loop_mode(LoopMode::Counted) == TransportTarget::Nothing);
    assert!(app.loop_mode_value() == LoopMode::Counted);
    app.mark_project_dirty();
    assert!(app.dirty());
    app.convert_to_custom_mode();
    assert!(app.mixer_assignment_mode() == MixerAssignmentMode::Manual);
}

#[test]
fn the_player_tells_how_playback_went() {
    let mut app = app();
    assert_eq!(app.playback_started(&Ok(AudioPlaybackStatus::Audible)), "audible");
    assert!(app.run_state() == AppRunState::Playing);
    assert_eq!(app.playback_paused(&Ok(())), "ok");
    assert!(app.run_state() == AppRunState::Paused);
    let state = app.capture_playback_reload_resume_state(Seconds { bits: 2.5f64.to_bits() });
    let steps = app.restore_playback_reload_resume_state(state);
    assert!(steps.seek == Some(Seconds { bits: 2.5f64.to_bits() }));
    assert_eq!(app.playback_stopped(&Err("gone".to_owned())), "error");
    assert!(app.status().contains("gone"));
    app.playback_stopped(&Ok(()));
    assert!(app.run_state() == AppRunState::Idle);
    assert!(!app.handle_playback_end_transition(false));
}

#[test]
fn opened_files_are_shown() {
    let mut app = app();
    app.midi_opened("/m/song.mid", Some("song.mid"), 0);
    app.finish_opening("Loaded".to_owned());
    assert_eq!(app.project_title(), "song.mid");
    assert_eq!(app.current_path(), Some("/m/song.mid"));
    assert_eq!(app.status(), "Loaded");
    assert!(app.active_content_kind() == Some(ContentKind::Midi));
    assert!(!app.dirty());
    app.fmid_saved("/m/song.fmid");
    assert_eq!(app.current_path(), Some("/m/song.fmid"));
    app.file_failed(true, "/x", "no such file");
    assert!(app.status().contains("no such file"));
    let names = plain_audio_names("wav", Some("a.wav"), Some("a"));
    let wrapper = plain_audio_wrapper("wav", names, None);
    assert!(!app.require_decoded_audio("Load audio first"));
    assert_eq!(app.status(), "Load audio first");
    app.decoded_opened(&wave(), false, "/m/a.wav", Some("a"), &wrapper, Vec::new(), None, "Loaded".to_owned());
    assert!(app.active_content_kind() == Some(ContentKind::DecodedAudio));
    assert_eq!(app.project.peq_edit_state.preset_name.as_deref(), Some("Default"));
    assert_eq!(app.transport_unit_label(), "sample-frames");
    assert!(app.require_decoded_audio("Load audio first"));
    assert!(app.set_decoded_peq_bypass_enabled(true));
    assert!(app.decoded_peq_bypass_enabled());
    assert_eq!(fmid_status(None, "Loaded"), "Loaded FMID: Loaded");
}


#[test]
fn soundfonts_are_added_and_removed() {
    let mut app = app();
    let added = app.add_selected_soundfont();
    assert!(added.is_ok() || !app.status().is_empty());
    let previous = app.change_soundfonts(&texts(&["a", "b"]));
    assert_eq!(previous.len(), 1);
    assert_eq!(app.soundfont_rows().len(), 2);
    assert!(app.soundfonts_changed(&previous, "Added", None) == TransportTarget::Nothing);
    assert_eq!(app.status(), "Added");
    assert!(app.remove_selected_soundfont().is_ok());
    let region = MediaLoop { enabled: true, mode: LoopMode::Infinite, ends: None, loop_count: 1 };
    assert!(LoopState::apply_decoded_audio_defaults(Some(region), false, 100).enabled);
}

fn strip_numbers(app: &FlutzDesktopApp<i32>) -> Vec<(u64, bool)> {
    let controls = &app.playback.mixer_controls.strip_controls;
    controls.iter().map(|(id, controls)| (*id, controls.mute)).collect()
}

#[test]
fn playback_gets_the_controls_of_the_rows() {
    let mut app = app();
    app.mixer.soundfonts = rows();
    app.mixer.coverage_cache = cache();
    assert!(strip_numbers(&app).is_empty());
    app.apply_mixer_assignment_mode(MixerAssignmentMode::Layer);
    let ids: Vec<u64> = app
        .soundfont_rows()
        .iter()
        .flat_map(|row| row.strips.iter().map(|strip| strip.strip_id))
        .collect();
    assert_eq!(ids.len(), 4);
    assert_eq!(
        strip_numbers(&app),
        [(ids[0], true), (ids[2], false), (ids[1], true), (ids[3], false)]
    );
    app.mixer.soundfonts[1].muted = true;
    assert!(app.finish_change(false) == TransportTarget::Nothing);
    assert!(strip_numbers(&app).iter().all(|(_, muted)| *muted));
    let names = plain_audio_names("wav", Some("a.wav"), Some("a"));
    let wrapper = plain_audio_wrapper("wav", names, None);
    app.decoded_opened(&wave(), false, "/m/a.wav", Some("a"), &wrapper, Vec::new(), None, "Loaded".to_owned());
    assert!(strip_numbers(&app).is_empty());
    app.mixer.soundfonts = rows();
    app.playback.engine_loaded = true;
    app.playback.decoded = None;
    assert!(app.finish_opening("Loaded".to_owned()) == TransportTarget::Engine);
    assert_eq!(strip_numbers(&app).len(), 4);
    assert_eq!(app.project.peq_edit_state.preset_name.as_deref(), Some("Current Track Wrapper Settings"));
}

fn project_file(mode: MixerSourceMode) -> FmidFile {
    FmidFile {
        midi_bytes: vec![1],
        project: track("song"),
        soundfonts: texts(&["b", "a"]),
        master: MasterControls::default(),
        row_mutes: Vec::new(),
        strips: Vec::new(),
        mixer_source_mode: mode,
        looping: FmidLoopRecord { enabled: false, mode: LoopMode::Off, start_tick: 0, end_tick: 0, loop_count: 1 },
        smart_mix: SmartMixControls::default(),
    }
}

#[test]
fn a_missing_preset_is_warned_of() {
    let mut app = app();
    let missing = project_file(MixerSourceMode::PresetDefault("gone".to_owned()));
    let (fonts, told) = app.request_fmid(&missing);
    let warning = "Preset gone was unavailable; loaded default preset Two";
    assert_eq!(told.as_deref(), Some(warning));
    assert_eq!(app.missing_preset_warning(), Some(warning));
    let ids = |app: &FlutzDesktopApp<i32>| -> Vec<String> {
        app.soundfont_rows().iter().map(|row| row.internal_id.clone()).collect()
    };
    assert_eq!(ids(&app), fonts);
    let (fonts, told) = app.request_fmid(&project_file(MixerSourceMode::Custom));
    assert_eq!((fonts, told), (texts(&["b", "a"]), None));
    assert_eq!(ids(&app), ["b", "a"]);
    assert_eq!(app.missing_preset_warning(), Some(warning));
    let (_, told) = app.request_fmid(&project_file(MixerSourceMode::PresetDefault("two".to_owned())));
    assert!(told.is_none() && app.missing_preset_warning().is_none());
    app.request_fmid(&missing);
    app.dismiss_missing_preset_warning();
    assert!(app.missing_preset_warning().is_none());
    assert!(!app.show_loaded_rows());
    app.playback.loaded_soundfonts = texts(&["b"]);
    assert!(app.show_loaded_rows());
    assert_eq!(ids(&app), ["b"]);
}

#[test]
fn names_are_taken_from_the_end_of_a_path() {
    assert_eq!(default_fmid_file_name("a/b.mid"), "b.fmid");
    assert_eq!(default_fmid_file_name("a/b.mid/"), "b.fmid");
    assert_eq!(default_fmid_file_name("a/b.mid/./"), "b.fmid");
    assert_eq!(default_fmid_file_name("Part: one.mid"), "Part: one.fmid");
    assert_eq!(default_fmid_file_name("a/.."), "a/.fmid");
    let mut state = PeqEditState::default();
    assert_eq!(state.preset_name.as_deref(), Some("Current Track Wrapper Settings"));
    state.source = PeqConfigSource::PresetFile;
    state.preset_name = None;
    state.preset_path = Some("/home/x/bright.fpeq".to_owned());
    state.dirty = true;
    assert_eq!(state.decoded_peq_preset_display_name(), "bright*");
}

#[test]
fn a_preset_in_use_has_no_tags() {
    let label = PeqPresetLabel { name: Some("Bright".to_owned()), tags: texts(&["a", "b"]) };
    let used = normalize_runtime_decoded_peq_preset(label);
    assert_eq!(used.name.as_deref(), Some("Bright"));
    assert!(used.tags.is_empty());
}
