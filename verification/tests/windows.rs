//! The player's windows, its files at startup and what its console tools print.
use flutz_app::catalog::{BankProgramDemand, SoundFontCatalogEntry};
use flutz_app::dat::DatStartupSummary;
use flutz_app::desktop::app::{FlutzDesktopApp, StartupPreferences};
use flutz_app::desktop::content::{decoded_content_state, save_project_to_path, ContentKind};
use flutz_app::desktop::content::{FormatDescriptor, MasteringCapability, SaveTarget};
use flutz_app::desktop::content::{FormatFacts, OpenAction};
use flutz_app::desktop::feedback::fade_rows;
use flutz_app::desktop::icon::{icon_of, load_app_icon};
use flutz_app::desktop::loops::PlaylistRepeatMode;
use flutz_app::desktop::metadata::{MetadataEditState, MetadataField};
use flutz_app::desktop::metadata_window::{MetadataEdit, MetadataEntry};
use flutz_app::desktop::notices::{CanceledDialog, LoadArrival, PlaylistSaveFailure, TraceNotice};
use flutz_app::desktop::peq::PeqConfigSource;
use flutz_app::desktop::playlist::{AppRunState, EntryFacts, PlaylistFacts, PlaylistOrderMode, Preload};
use flutz_app::desktop::playlist::SaveAnswer;
use flutz_app::desktop::playlist_window::{PlaylistEntryStatus, PlaylistWindow, TrackLoad};
use flutz_app::desktop::presets::{preferences_step, PreferencesStep, Preset, PresetSet};
use flutz_app::desktop::rows::{reset_strip_layout, soundfont_rows_from_catalog};
use flutz_app::level::Level;
use flutz_app::memory_runtime::{MemoryRuntimeSnapshot, MemoryTotalsSnapshot, OsMemorySnapshot};
use flutz_app::playback::backend::AudioBackend;
use flutz_app::playback::controller::{AudioDeviceConfig, TransportTarget};
use flutz_app::playback::demand::soundfont_coverage_from_json;
use flutz_app::playback::diagnostics::{coverage_estimated_bytes, retained_scratch_bytes};
use flutz_app::playback::diagnostics::{soundfont_catalog_entry_string_bytes, CoverageSizes};
use flutz_app::tools::{debug_environment_report, playback_input_name, DebugEnvironment};

/// A picture of one red and one green pixel.
const RED_AND_GREEN: [u8; 72] = [
    0x89, 0x50, 0x4e, 0x47, 0x0d, 0x0a, 0x1a, 0x0a, 0x00, 0x00, 0x00, 0x0d, 0x49, 0x48,
    0x44, 0x52, 0x00, 0x00, 0x00, 0x02, 0x00, 0x00, 0x00, 0x01, 0x08, 0x02, 0x00, 0x00,
    0x00, 0x7b, 0x40, 0xe8, 0xdd, 0x00, 0x00, 0x00, 0x0f, 0x49, 0x44, 0x41, 0x54, 0x78,
    0x9c, 0x63, 0xf8, 0xcf, 0xc0, 0xc0, 0xf0, 0x9f, 0x01, 0x00, 0x07, 0xff, 0x01, 0xff,
    0x01, 0x7f, 0x89, 0xa7, 0x00, 0x00, 0x00, 0x00, 0x49, 0x45, 0x4e, 0x44, 0xae, 0x42,
    0x60, 0x82,
];

#[test]
fn icons_are_decoded() {
    match load_app_icon(&RED_AND_GREEN) {
        Some(icon) => {
            assert_eq!((icon.width, icon.height), (2, 1));
            assert_eq!(icon.rgba, [255, 0, 0, 255, 0, 255, 0, 255]);
        }
        None => panic!("not decoded"),
    }
    assert!(load_app_icon(b"no picture").is_none());
    assert!(load_app_icon(&RED_AND_GREEN[..40]).is_none());
    let icon = icon_of(Some((vec![1, 2, 3, 4], 1, 1)));
    assert_eq!(icon.map(|icon| (icon.rgba, icon.width, icon.height)), Some((vec![1, 2, 3, 4], 1, 1)));
    assert!(icon_of(None).is_none());
}

fn app() -> FlutzDesktopApp<i32> {
    FlutzDesktopApp::new(
        DatStartupSummary::Unavailable("nothing".to_owned()),
        PresetSet {
            presets: vec![Preset {
                id: "one".to_owned(),
                display_name: "One".to_owned(),
                font_ids: Vec::new(),
            }],
            default_index: 0,
        },
        StartupPreferences {
            default_preset_id: "one".to_owned(),
            peq_bypass: false,
            playlist_open: false,
            metadata_open: false,
        },
        AudioBackend::Wasapi,
        AudioDeviceConfig { sample_rate: 48_000, channels: 2, internal_block_frames: 512 },
        0,
    )
}

fn playlist(entry_count: usize, repeat_mode: PlaylistRepeatMode, loop_enabled: bool) -> PlaylistFacts {
    PlaylistFacts { entry_count, repeat_mode, loop_enabled, dirty: false }
}

#[test]
fn entries_are_marked() {
    let mut window = PlaylistWindow::new();
    window.clicked(3, false);
    window.clicked(1, true);
    window.clicked(7, true);
    window.clicked(7, true);
    let row = window.row(3, "song", Some("MID"), PlaylistEntryStatus::Valid, Some(3));
    assert_eq!((row.icon, row.label.as_str(), row.selected), ("\u{2713}", "song  [mid]  (current)", true));
    let other = window.row(7, "x", None, PlaylistEntryStatus::Missing, Some(3));
    assert_eq!((other.icon, other.label.as_str(), other.selected), ("\u{2717}", "x  [other]", false));
    assert_eq!(PlaylistEntryStatus::CurrentlyPlaying.icon(), "\u{25ba}");

    let mut app = app();
    assert!(app.remove_selected_playlist_entries(&mut window).is_none());
    assert!(window.can_remove());
    app.playlist = Some(playlist(9, PlaylistRepeatMode::Off, false));
    assert_eq!(app.remove_selected_playlist_entries(&mut window), Some(vec![1, 3]));
    assert!(!window.can_remove());
    assert!(app.remove_selected_playlist_entries(&mut window).is_none());
}

#[test]
fn entries_are_dragged() {
    let mut window = PlaylistWindow::new();
    assert_eq!(window.released_over(2), None);
    window.drag_started(2);
    assert_eq!(window.released_over(2), None);
    window.drag_started(2);
    assert_eq!(window.released_over(5), Some((2, 5)));
    assert_eq!(window.released_over(6), None);
}

#[test]
fn the_playlist_repeats_as_chosen() {
    let mut app = app();
    assert!(app.playlist_loop_clicked().repeat_mode.is_none());
    app.playlist = Some(playlist(2, PlaylistRepeatMode::Off, false));
    let on = app.playlist_loop_clicked();
    assert!(on.repeat_mode == Some(PlaylistRepeatMode::Playlist) && on.target == TransportTarget::Nothing);
    assert!(app.playlist == Some(PlaylistFacts { dirty: true, ..playlist(2, PlaylistRepeatMode::Playlist, true) }));
    assert!(app.playlist_loop_clicked().repeat_mode == Some(PlaylistRepeatMode::Off));
    assert!(app.playlist_repeat_chosen(PlaylistRepeatMode::Off).repeat_mode.is_none());
    assert!(app.playlist_repeat_chosen(PlaylistRepeatMode::Track).repeat_mode == Some(PlaylistRepeatMode::Track));
    assert!(!app.loop_enabled_value());
    app.playback.midi_transport.tick_length = 960;
    app.playlist_repeat_chosen(PlaylistRepeatMode::Off);
    app.playlist_repeat_chosen(PlaylistRepeatMode::Track);
    assert!(app.loop_enabled_value());
    assert_eq!(app.loop_end_tick_value(), 960);
    assert!(app.playlist_order_chosen(PlaylistOrderMode::Shuffle, PlaylistOrderMode::Random)
        == Some(PlaylistOrderMode::Shuffle));
    assert!(app.playlist_order_chosen(PlaylistOrderMode::Random, PlaylistOrderMode::Random).is_none());
}

#[test]
fn dropped_files_are_added() {
    let mut app = app();
    let mut window = PlaylistWindow::new();
    window.clicked(1, false);
    let (none, saved) = app.playlist_files_dropped(&mut window, &[false, false]);
    assert!(none.is_empty() && !saved && app.playlist.is_none() && window.can_remove());
    let (added, saved) = app.playlist_files_dropped(&mut window, &[true, false, true]);
    assert!(saved);
    assert_eq!(added, [0, 2]);
    assert!(app.playlist == Some(playlist(0, PlaylistRepeatMode::Off, false)));
    assert!(app.panels.playlist_window_open && !window.can_remove());
    app.playlist = Some(playlist(2, PlaylistRepeatMode::Off, false));
    assert!(!app.playlist_files_picked(&mut window));
    assert!(app.playlist == Some(playlist(2, PlaylistRepeatMode::Off, false)));
    assert!(!app.playlist_clear_clicked(&mut window));
    assert_eq!(app.status(), "New playlist");
    app.set_playlist_window_open(false);
    assert!(app.new_playlist());
    assert!(app.panels.playlist_window_open);
}

#[test]
fn prepared_tracks_are_used() {
    let mut app = app();
    assert!(app.load_playlist_track_by_index(0, "a.wav") == TrackLoad::Nothing);
    app.playlist = Some(playlist(2, PlaylistRepeatMode::Track, false));
    assert!(app.load_playlist_track_by_index(2, "a.wav") == TrackLoad::Nothing);
    let token = app.preload.token;
    app.preload.ready = Some(Preload { token, index: 1, path: "b.wav".to_owned() });
    assert!(app.load_playlist_track_by_index(1, "b.wav") == TrackLoad::Prepared);
    app.preload.ready = Some(Preload { token, index: 1, path: "b.wav".to_owned() });
    assert!(app.load_playlist_track_by_index(0, "a.wav") == TrackLoad::FromFile);
    assert!(app.preload.ready.is_none());
    app.playback.midi_transport.tick_length = 960;
    app.playlist_track_loaded();
    assert!(app.loop_enabled_value());
    assert!(!app.autoplays());
    app.set_run_state(AppRunState::Playing);
    assert!(app.autoplays());
}

#[test]
fn metadata_is_edited_in_its_window() {
    let first = MetadataEntry::column(false);
    let second = MetadataEntry::column(true);
    assert_eq!((first.len(), second.len()), (11, 11));
    assert_eq!((first[0].label(), second[10].label()), ("Project Title", "Notes"));
    assert_eq!((first[0].lines(), second[10].lines()), (1, 6));
    let mut state = MetadataEditState::from_names("title", "file");
    for entry in first.iter().chain(second.iter()) {
        assert!(state.edit(MetadataEdit::Entry(*entry, entry.label().to_owned())));
    }
    for entry in first.iter().chain(second.iter()) {
        assert_eq!(state.entry_text(*entry), entry.label());
    }
    assert!(state.edit(MetadataEdit::ExtraFields { remove: None, add: true }));
    let field = MetadataField { key: "k".to_owned(), value: "v".to_owned() };
    assert!(state.edit(MetadataEdit::ExtraText { index: 0, field }));
    assert_eq!(state.extra_fields[0].key, "k");
    assert!(!state.edit(MetadataEdit::NativeFields { remove: None, add: true }));
    assert!(state.native_metadata.is_empty());

    let mut app = app();
    app.edit_metadata(MetadataEdit::ExtraFields { remove: None, add: false });
    assert!(!app.dirty());
    app.edit_metadata(MetadataEdit::Entry(MetadataEntry::ProjectTitle, "New".to_owned()));
    assert!(app.dirty());
    assert_eq!(app.project_title(), "New");
}

#[test]
fn preferences_are_kept_or_written() {
    assert!(preferences_step(Some("a"), Some("a")) == PreferencesStep::Keep);
    assert!(preferences_step(Some("a"), Some("b")) == PreferencesStep::Rewrite);
    assert!(preferences_step(Some("a"), None) == PreferencesStep::WriteDefault);
    assert!(preferences_step(None, None) == PreferencesStep::WriteDefault);
}

#[test]
fn projects_are_saved_by_their_kind() {
    let wave = FormatDescriptor {
        id: "wav".to_owned(),
        friendly_name: "Wave".to_owned(),
        content_kind: ContentKind::DecodedAudio,
        mastering: MasteringCapability::DecodedAudioPeq,
        extensions: vec!["wav".to_owned()],
        wrapped_extensions: vec!["fwav".to_owned()],
    };
    let content = Some(decoded_content_state(&wave, false, "a.wav"));
    assert!(matches!(save_project_to_path(&None, Some("wav"), "x", false), Ok(SaveTarget::Fmid)));
    assert!(matches!(save_project_to_path(&content, Some("fwav"), "x", false), Ok(SaveTarget::Wrapper)));
    assert!(save_project_to_path(&content, Some("fmid"), "x", false).is_err());
}

#[test]
fn coverage_lists_are_sorted() {
    let demand = |bank, program| BankProgramDemand { bank, program };
    let coverage = soundfont_coverage_from_json(true, &[demand(1, 0), demand(0, 9), demand(1, 0), demand(0, 2)]);
    assert!(coverage.percussion);
    let programs: Vec<(u16, u8)> = coverage.bank_programs.iter().map(|d| (d.bank, d.program)).collect();
    assert_eq!(programs, [(0, 2), (0, 9), (1, 0)]);
}

#[test]
fn sizes_are_estimated() {
    assert_eq!(soundfont_catalog_entry_string_bytes(1, 2, 3, 4, 5), 15);
    assert_eq!(soundfont_catalog_entry_string_bytes(usize::MAX, 2, 3, 4, 5), usize::MAX);
    let sizes = CoverageSizes {
        coverage_size: 100,
        preset_name_capacity: 2,
        preset_name_size: 24,
        preset_name_text_bytes: 11,
        bank_programs: 3,
        bank_program_size: 4,
        key_ranges: 5,
        key_range_size: 2,
    };
    assert_eq!(coverage_estimated_bytes(sizes), 100 + 48 + 11 + 12 + 10);
    assert_eq!(retained_scratch_bytes(10, 7, Some(5), None, 4), 67);
    assert_eq!(retained_scratch_bytes(usize::MAX, 7, Some(5), Some(1), 4), usize::MAX);
}

#[test]
fn meters_fall() {
    let catalog: Vec<SoundFontCatalogEntry> = Vec::new();
    let mut rows = soundfont_rows_from_catalog(&catalog, &["a".to_owned()]);
    reset_strip_layout(&mut rows, &[(0, 0, 1, false)], &[vec![None]]);
    rows[0].strips[0].active = true;
    rows[0].strips[0].current_note = "C4".to_owned();
    let left = Level { bits: 0.41f32.to_bits() };
    fade_rows(&mut rows, &[vec![left]]);
    let strip = &rows[0].strips[0];
    assert!(strip.meter == left && !strip.active);
    assert_eq!(strip.current_note, "--");
}

#[test]
fn the_environment_is_reported() {
    let environment = DebugEnvironment {
        current_dir: "/here".to_owned(),
        current_exe: "/bin/flutz".to_owned(),
        data_dir: "/bin/data".to_owned(),
        data_dir_exists: false,
        stdout_terminal: true,
        stderr_terminal: false,
        launched_from_terminal: true,
        processes: Some((None, Some(2))),
        target_os: "linux".to_owned(),
        target_arch: "x86_64".to_owned(),
        audio_backend_env: None,
    };
    let memory = MemoryRuntimeSnapshot {
        enabled: true,
        allocator: "system",
        config_summary: "none".to_owned(),
        initialized: true,
        totals: MemoryTotalsSnapshot {
            available: true,
            allocated_bytes: 1,
            active_bytes: 2,
            resident_bytes: 3,
            retained_bytes: 4,
            mapped_bytes: 5,
            active_growth_bytes: 0,
            resident_growth_bytes: 0,
            retained_growth_bytes: 0,
            allocated_since_bytes: 0,
            allocated_since_ns: 0,
        },
        allocated_bytes_per_sec: "0.0".to_owned(),
        os: OsMemorySnapshot {
            available: false,
            working_set_bytes: 0,
            peak_working_set_bytes: 0,
            pagefile_bytes: 0,
            peak_pagefile_bytes: 0,
            page_fault_count: 0,
            working_set_growth_bytes: 0,
            pagefile_growth_bytes: 0,
            working_set_minus_jemalloc_resident_bytes: 0,
            pagefile_minus_jemalloc_active_bytes: 0,
        },
        domains: Vec::new(),
        errors: Vec::new(),
    };
    assert_eq!(
        debug_environment_report(&environment, &memory),
        "flutzplayer debug environment\ncurrent_dir: /here\ncurrent_exe: /bin/flutz\n\
         data_dir: /bin/data\ndata_dir_exists: false\nstdout_terminal: true\n\
         stderr_terminal: false\nlaunched_from_terminal: true\nparent_process: <unknown>\n\
         console_process_count: 2\ntarget_os: linux\ntarget_arch: x86_64\n\
         audio_backend_env: <unset>\nmemory_allocator: system\nmemory_enabled: true\n\
         memory_config: none\nmemory_stats_available: true\nmemory_resident_bytes: 3\n\
         memory_retained_bytes: 4\n"
    );
    assert_eq!(playback_input_name(None), "playback-check.mid");
    assert_eq!(playback_input_name(Some("a.mid")), "a.mid");
}

fn wave_format() -> FormatDescriptor {
    FormatDescriptor {
        id: "wav".to_owned(),
        friendly_name: "Wave".to_owned(),
        content_kind: ContentKind::DecodedAudio,
        mastering: MasteringCapability::DecodedAudioPeq,
        extensions: vec!["wav".to_owned()],
        wrapped_extensions: vec!["fwav".to_owned()],
    }
}

#[test]
fn the_equalizer_needs_decoded_audio() {
    let mut app = app();
    app.apply_decoded_peq_config(Ok(true));
    assert_eq!(app.status(), "Load decoded audio before editing PEQ");
    app.apply_builtin_decoded_peq_preset("Flat", Ok(true));
    assert_eq!(app.status(), "Load decoded audio before selecting a PEQ preset");
    app.decoded_peq_preset_loaded(Some("a.fpeq"), Ok((None, Ok(true))));
    assert_eq!(app.status(), "Load decoded audio before loading a PEQ preset");
    assert!(app.save_decoded_peq_preset_as().is_none());
    assert_eq!(app.status(), "Load decoded audio before saving a PEQ preset");
    assert!(!app.dirty() && app.decoded_peq_config_source() == PeqConfigSource::Inactive);
}

#[test]
fn the_equalizer_follows_the_user() {
    let mut app = app();
    app.project.loaded_content = Some(decoded_content_state(&wave_format(), false, "a.wav"));
    app.reset_decoded_peq_config(Ok(true));
    assert!(app.decoded_peq_config_source() == PeqConfigSource::Default && !app.dirty());
    app.apply_decoded_peq_config(Ok(false));
    assert!(!app.dirty());
    app.apply_decoded_peq_config(Ok(true));
    assert!(app.dirty() && app.project.peq_edit_state.dirty);
    let label = app.save_decoded_peq_default(vec!["loud".to_owned()]);
    assert_eq!(label.name.as_deref(), Some("Default"));
    assert!(label.tags.is_empty());
    assert!(!app.project.peq_edit_state.dirty);
    assert_eq!(app.status(), "Saved decoded audio PEQ default to preferences.ini");
    app.apply_decoded_peq_config(Err("bad band".to_owned()));
    assert_eq!(app.status(), "bad band");
    app.apply_builtin_decoded_peq_preset("Flat", Ok(true));
    assert!(app.decoded_peq_config_source() == PeqConfigSource::BuiltInPreset);
    assert_eq!(app.project.peq_edit_state.decoded_peq_preset_display_name(), "Flat*");
    assert_eq!(app.save_decoded_peq_preset(), None);
    app.project.project_title = "song.wav".to_owned();
    assert_eq!(app.save_decoded_peq_preset_as().as_deref(), Some("song.fpeq"));
    app.decoded_peq_preset_saved(None, Ok(()));
    assert_eq!(app.status(), "Save PEQ canceled");
    app.decoded_peq_preset_loaded(None, Err(String::new()));
    assert_eq!(app.status(), "Load PEQ canceled");
    app.decoded_peq_preset_loaded(Some("b.fpeq"), Err("no preset".to_owned()));
    assert_eq!(app.status(), "no preset");
    app.decoded_peq_preset_loaded(Some("b.fpeq"), Ok((None, Ok(true))));
    assert_eq!(app.status(), "Loaded PEQ preset b.fpeq");
    assert_eq!(app.save_decoded_peq_preset().as_deref(), Some("b.fpeq"));
    app.decoded_peq_preset_loaded(Some("/home/x/bright.air.fpeq"), Ok((None, Ok(true))));
    assert_eq!(app.project.peq_edit_state.decoded_peq_preset_display_name(), "bright.air");
    app.apply_decoded_peq_config(Ok(true));
    app.decoded_peq_preset_saved(Some("c.fpeq"), Err("disk full".to_owned()));
    assert!(app.project.peq_edit_state.dirty);
    app.decoded_peq_preset_saved(Some("c.fpeq"), Ok(()));
    assert_eq!(app.project.peq_edit_state.decoded_peq_preset_display_name(), "song.wav");
    assert_eq!(app.status(), "Saved PEQ preset c.fpeq");
    app.set_decoded_peq_bypass_enabled(true);
    app.decoded_peq_bypass_applied(Ok(()));
    assert_eq!(app.status(), "Bypass EQ enabled");
}

#[test]
fn the_playlist_gives_the_next_track() {
    let mut app = app();
    let entry = |name: &str, file_exists: bool| EntryFacts {
        display_name: name.to_owned(),
        file_exists,
        supported: true,
    };
    assert_eq!(app.next_track(Some(1), &[]), None);
    assert_eq!(app.status(), "No playlist loaded");
    app.playlist = Some(playlist(0, PlaylistRepeatMode::Off, false));
    assert_eq!(app.prev_track(None, &[]), None);
    assert_eq!(app.status(), "Playlist is empty");
    app.playlist = Some(playlist(2, PlaylistRepeatMode::Off, false));
    assert_eq!(app.next_track(None, &[entry("a", true), entry("b", false)]), None);
    assert_eq!(app.status(), "Skipped missing file: b");
    app.set_run_state(AppRunState::Playing);
    assert_eq!(app.next_track(Some(1), &[]), Some((1, true)));
    assert_eq!(app.status(), "Playing");
}

#[test]
fn saved_playlists_are_clean() {
    let mut app = app();
    app.playlist_saved("p.fplist", Ok(()));
    assert_eq!(app.status(), "No playlist loaded");
    app.playlist = Some(PlaylistFacts { dirty: true, ..playlist(2, PlaylistRepeatMode::Off, false) });
    let folder = PlaylistSaveFailure::Folder { path: "/x".to_owned(), error: "denied".to_owned() };
    app.playlist_saved("/x/p.fplist", Err(folder));
    assert_eq!(app.status(), "failed to create /x: denied");
    app.playlist_saved("p.fplist", Err(PlaylistSaveFailure::File { error: "full".to_owned() }));
    assert_eq!(app.status(), "full");
    app.playlist_saved("p.fplist", Ok(()));
    assert_eq!(app.status(), "Saved playlist p.fplist");
    assert!(app.playlist.is_some_and(|playlist| !playlist.dirty));
}

#[test]
fn background_loads_are_followed() {
    let mut app = app();
    assert!(app.process_pending_decoded_audio_load(LoadArrival::Lost).is_none());
    let token = app.load_decoded_audio_path(true, false);
    assert_eq!(app.decoded_load_started("a.wav", Ok(())), "scheduled");
    assert_eq!(app.status(), "Loading decoded audio a.wav");
    assert!(app.process_pending_decoded_audio_load(LoadArrival::Pending).is_none());
    match app.process_pending_decoded_audio_load(LoadArrival::Result(token)) {
        Some(order) => assert!(order.resume_after_load && !order.playlist_entry_load),
        None => panic!("out of date"),
    }
    app.load_decoded_audio_path(false, true);
    assert!(app.process_pending_decoded_audio_load(LoadArrival::Lost).is_none());
    assert_eq!(app.status(), "decoded audio load worker exited before reporting a result");
    app.load_decoded_audio_path(false, true);
    assert_eq!(app.decoded_load_started("a.wav", Err("busy".to_owned())), "spawn_error");
    assert_eq!(app.status(), "failed to start decoded audio load: busy");
    assert!(app.decoded_loads.pending.is_none());
    assert!(!app.decoded_load_usable(&Some("bad".to_owned()), "read", true, true));
    assert_eq!(app.status(), "decoded audio read failed: bad");
    assert!(!app.decoded_load_usable(&None, "read", true, false));
    assert!(app.decoded_load_usable(&None, "read", true, true));
}

#[test]
fn the_user_is_told() {
    let mut app = app();
    app.perf_trace_notice(TraceNotice::LoggingStarted(Ok("t.jsonl".to_owned())));
    assert_eq!(app.status(), "Performance trace logging to t.jsonl");
    app.perf_trace_notice(TraceNotice::Exported(Err("no".to_owned())));
    assert_eq!(app.status(), "no");
    app.dialog_canceled(CanceledDialog::SavePlaylistAs);
    assert_eq!(app.status(), "Playlist Save As canceled");
    assert!(app.open_project_path(Some("xyz"), None) == OpenAction::Unsupported);
    assert_eq!(app.status(), "Unsupported file type");
    let midi = Some(FormatFacts {
        content_kind: ContentKind::Midi,
        mastering: MasteringCapability::MidiMastering,
    });
    assert!(app.load_playlist_entry_path(true, midi) == OpenAction::Midi);
    assert!(app.load_playlist_entry_path(false, midi) == OpenAction::Unsupported);
    assert_eq!(app.status(), "Skipped unsupported file: unsupported playlist entry type");
    assert!(!app.plays_after_load(true));
    *app.selected_soundfont() = 3;
    assert_eq!(app.selected_soundfont_index(), 3);
    app.master().limiter_enabled = true;
    assert!(app.mixer.master.limiter_enabled);
    assert_eq!(app.preset_set().presets.len(), 1);
}

#[test]
fn an_opened_file_becomes_the_playlist() {
    let mut app = app();
    let mut window = PlaylistWindow::new();
    window.clicked(1, false);
    app.launch_path_opened(&mut window, Some("mid"), true);
    assert!(app.playlist.is_none() && window.can_remove());
    app.midi_opened("/m/a.mid", Some("a.mid"), 0);
    app.looping.enabled = true;
    app.launch_path_opened(&mut window, Some("FPLIST"), true);
    assert!(app.playlist.is_none());
    app.launch_path_opened(&mut window, Some("mid"), false);
    assert!(app.playlist.is_none());
    app.set_run_state(AppRunState::Playing);
    app.launch_path_opened(&mut window, Some("mid"), true);
    assert!(app.playlist.is_none() && window.can_remove());
    app.set_run_state(AppRunState::Idle);
    app.launch_path_opened(&mut window, Some("mid"), true);
    assert!(app.playlist == Some(playlist(1, PlaylistRepeatMode::Track, false)));
    assert!(!window.can_remove());
}

#[test]
fn an_unsaved_playlist_is_asked_about() {
    let mut app = app();
    let mut window = PlaylistWindow::new();
    let unsaved = PlaylistFacts { dirty: true, ..playlist(2, PlaylistRepeatMode::Off, false) };
    app.playlist = Some(unsaved);
    assert!(!app.prepare_playlist_for_open_path(&mut window, true, Some((SaveAnswer::Cancel, false))));
    assert_eq!(app.status(), "Open canceled");
    assert!(!app.prepare_playlist_for_open_path(&mut window, true, Some((SaveAnswer::Yes, false))));
    assert_eq!(app.status(), "Open canceled: playlist was not saved");
    assert!(app.playlist == Some(unsaved));
    assert!(app.prepare_playlist_for_open_path(&mut window, false, None));
    assert!(app.playlist == Some(unsaved));
    app.looping.enabled = true;
    assert!(app.prepare_playlist_for_open_path(&mut window, true, Some((SaveAnswer::No, false))));
    assert!(app.playlist == Some(playlist(1, PlaylistRepeatMode::Off, false)));
    app.picked_path_opened(&mut window, "/m/a.mid", true);
    assert!(app.playlist == Some(playlist(1, PlaylistRepeatMode::Off, false)));
    app.midi_opened("/m/a.mid", Some("a.mid"), 0);
    app.looping.enabled = true;
    app.picked_path_opened(&mut window, "/m/b.mid", true);
    assert!(app.playlist == Some(playlist(1, PlaylistRepeatMode::Off, false)));
    app.picked_path_opened(&mut window, "/m/a.mid", true);
    assert!(app.playlist == Some(playlist(1, PlaylistRepeatMode::Track, false)));
}
