//! Launching, the data folder and the console tools.
use flutz_app::catalog::{BankProgramDemand, SoundFontCoverage};
use flutz_app::dat::{add_dat_coverage, add_dat_records, catalog_from_fonts, classify_file};
use flutz_app::dat::{dat_record_line, inspect_dat_report, is_dat_extension, is_numbered_dat_stem};
use flutz_app::dat::{normalized_extension, numbered_dat_family, startup_config};
use flutz_app::dat::{DatFontSummary, DatRecord, DatStartupSummary, FileKind};
use flutz_app::error::ErrorKind;
use flutz_app::launch::{audio_backend_from_env, is_windows_terminal_parent, reject_startup_path};
use flutz_app::launch::{default_data_dir, windows_parent_process_name, ProcessEntry};
use flutz_app::launch::{tool_help, windows_launched_from_terminal, windows_utf16_name};
use flutz_app::launch::{LaunchMode, ParsedArgs, ToolCommand};
use flutz_app::level::Level;
use flutz_app::playback::backend::AudioBackend;
use flutz_app::playback::controller::RenderProbeReport;
use flutz_app::text_map::TextMap;
use flutz_app::tools::{add_dat_bytes, collect_dat_paths, dat_source, playback_check_failure};
use flutz_app::tools::{playback_check_report, DatSource};
use flutz_app::tools::{summarize_dat_data_dir, verify_report, FileNames, VerifiedFile};

fn args(words: &[&str]) -> Vec<String> {
    words.iter().map(|word| (*word).to_owned()).collect()
}

fn parse(words: &[&str], terminal: bool) -> Result<LaunchMode, flutz_app::error::FlutzError> {
    LaunchMode::parse(&args(words), terminal, None, "/opt/data")
}

fn refusal(words: &[&str]) -> String {
    match parse(words, false) {
        Ok(_) => panic!("accepted"),
        Err(error) => {
            assert_eq!(error.kind(), ErrorKind::InvalidInput);
            error.message().to_owned()
        }
    }
}

#[test]
fn a_bare_run_opens_the_window_outside_a_terminal() {
    match parse(&[], false) {
        Ok(LaunchMode::Gui(gui)) => {
            assert_eq!(gui.data_dir, "/opt/data");
            assert!(gui.audio_backend == AudioBackend::Sdl3);
            assert!(gui.launch_open_path.is_none());
        }
        _ => panic!("no window"),
    }
    assert!(matches!(parse(&[], true), Ok(LaunchMode::Tool(ToolCommand::Help(dir))) if dir == "/opt/data"));
}

#[test]
fn a_file_is_opened_in_the_window() {
    match parse(&["song.mid", "--debug-memory", "--data-dir", "/d"], true) {
        Ok(LaunchMode::Gui(gui)) => {
            assert_eq!(gui.launch_open_path.as_deref(), Some("song.mid"));
            assert_eq!(gui.data_dir, "/d");
            assert!(gui.debug_memory);
            assert!(!gui.debug_latency);
        }
        _ => panic!("no window"),
    }
}

#[test]
fn tools_are_started_by_their_commands() {
    assert!(matches!(parse(&["--verify", "a.dat"], false), Ok(LaunchMode::Tool(ToolCommand::Verify(path))) if path == "a.dat"));
    assert!(matches!(parse(&["--inspect-dat"], false), Ok(LaunchMode::Tool(ToolCommand::InspectDat(path))) if path == "/opt/data"));
    assert!(matches!(parse(&["--inspect-dat", "x.dat"], false), Ok(LaunchMode::Tool(ToolCommand::InspectDat(path))) if path == "x.dat"));
    assert!(matches!(parse(&["--debug-env"], false), Ok(LaunchMode::Tool(ToolCommand::DebugEnvironment(_)))));
    match parse(&["--check-playback", "a.mid", "--debug-render-errors"], false) {
        Ok(LaunchMode::Tool(ToolCommand::CheckPlayback { data_dir, midi_path, debug_render_errors })) => {
            assert_eq!(data_dir, "/opt/data");
            assert_eq!(midi_path, "a.mid");
            assert!(debug_render_errors);
        }
        _ => panic!("no check"),
    }
}

#[test]
fn arguments_that_do_not_fit_are_refused() {
    assert_eq!(refusal(&["--gui", "--help"]), "only one startup command may be provided");
    assert_eq!(refusal(&["a.mid", "b.mid"]), "only one startup file may be provided");
    assert_eq!(refusal(&["--data-dir"]), "--data-dir requires a path");
    assert_eq!(refusal(&["--verify"]), "--verify requires a path");
    assert_eq!(refusal(&["--check-playback"]), "--check-playback requires a MIDI path");
    assert_eq!(refusal(&["--audio-backend"]), "--audio-backend requires sdl3 or wasapi");
    assert_eq!(
        refusal(&["--verify", "a.dat", "song.mid"]),
        "--verify does not accept a startup file: song.mid"
    );
    let unknown = refusal(&["--nonsense"]);
    assert!(unknown.starts_with("unknown flutzplayer argument: --nonsense\n\nflutzplayer\n"));
    assert!(unknown.contains("/opt/data"));
}

#[test]
fn the_help_names_the_data_folder() {
    let help = tool_help("/some/where");
    assert!(help.starts_with("flutzplayer\n\nGUI launch:\n"));
    assert!(help.contains("\n  /some/where\n"));
    assert!(help.ends_with("--headless always prints this diagnostic surface."));
}

#[test]
fn the_first_command_stands() {
    let mut parsed = match ParsedArgs::parse(&args(&["--gui"]), "/d") {
        Ok(parsed) => parsed,
        Err(_) => panic!("refused"),
    };
    assert!(parsed.set_command(flutz_app::launch::ParsedCommand::Help).is_err());
    assert!(matches!(parsed.command, Some(flutz_app::launch::ParsedCommand::Gui)));
    assert!(parsed.set_startup_path("a".to_owned()).is_ok());
    assert!(parsed.set_startup_path("b".to_owned()).is_err());
    assert_eq!(parsed.startup_path.as_deref(), Some("a"));
    assert!(reject_startup_path(&None, "--help").is_ok());
}

#[test]
fn the_environment_chooses_the_output() {
    assert!(matches!(audio_backend_from_env(None), Ok(None)));
    assert!(matches!(audio_backend_from_env(Some("wasapi")), Ok(Some(AudioBackend::Wasapi))));
    assert!(audio_backend_from_env(Some("alsa")).is_err());
    assert!(matches!(AudioBackend::parse("SDL3"), Ok(AudioBackend::Sdl3)));
    assert_eq!(AudioBackend::Wasapi.name(), "wasapi");
}

#[test]
fn terminals_are_recognized() {
    assert!(is_windows_terminal_parent("PowerShell.exe"));
    assert!(!is_windows_terminal_parent("explorer.exe"));
    let shell = Some("cmd.exe".to_owned());
    let explorer = Some("Explorer.EXE".to_owned());
    assert!(windows_launched_from_terminal(true, &shell, Some(1)));
    assert!(!windows_launched_from_terminal(false, &shell, Some(9)));
    assert!(!windows_launched_from_terminal(true, &explorer, Some(9)));
    assert!(windows_launched_from_terminal(true, &None, Some(3)));
    assert!(!windows_launched_from_terminal(true, &None, Some(2)));
    assert!(windows_launched_from_terminal(true, &None, None));
}

#[test]
fn utf16_names_end_at_the_first_zero() {
    let mut units: Vec<u16> = "pwsh.exe".encode_utf16().collect();
    units.push(0);
    units.extend("rest".encode_utf16());
    assert_eq!(windows_utf16_name(&units), "pwsh.exe");
    assert_eq!(windows_utf16_name(&[0xd83d, 0xde00, 0xd800]), "\u{1f600}\u{fffd}");
}

fn record(id: &str, size: u64, flags: u64) -> DatRecord {
    DatRecord {
        asset_type: "soundfont".to_owned(),
        internal_id: id.to_owned(),
        display_name: format!("Font {id}"),
        source_format: "sf2".to_owned(),
        storage_format: "sf2".to_owned(),
        runtime_format: "sf2".to_owned(),
        total_size: size,
        flags,
    }
}

fn two_fonts() -> TextMap<DatFontSummary> {
    let mut fonts: TextMap<DatFontSummary> = TextMap::new();
    let mut other = record("text", 1, 0);
    other.asset_type = "json".to_owned();
    add_dat_records(&mut fonts, &[record("b", 10, 0), other, record("a", 5, 1)], "one.dat", 1);
    add_dat_records(&mut fonts, &[record("b", 7, 2)], "two.dat", 1);
    add_dat_coverage(
        &mut fonts,
        "a",
        SoundFontCoverage {
            percussion: true,
            bank_programs: vec![BankProgramDemand { bank: 0, program: 3 }],
        },
    );
    fonts
}

#[test]
fn the_parts_of_a_soundfont_are_put_together() {
    let catalog = catalog_from_fonts(two_fonts());
    assert_eq!(catalog.len(), 2);
    assert_eq!(catalog[0].internal_id, "a");
    assert!(catalog[0].is_default);
    assert!(catalog[0].coverage.is_some());
    assert_eq!(catalog[1].internal_id, "b");
    assert_eq!(catalog[1].total_size, 17);
    assert_eq!(catalog[1].part_count, 2);
    assert!(!catalog[1].is_default);
}

#[test]
fn the_data_folder_is_reported() {
    let report = inspect_dat_report(2, 99, &two_fonts());
    assert_eq!(
        report,
        "DAT files: 2\nDAT bytes: 99\nSoundFonts: 2\n\
         \na [default]\n  display: Font a\n  source:  sf2\n  storage: sf2\n  runtime: sf2\n  \
         bytes:   5\n  parts:   1\n  coverage JSON: available\n  files:   one.dat\n\
         \nb\n  display: Font b\n  source:  sf2\n  storage: sf2\n  runtime: sf2\n  \
         bytes:   17\n  parts:   2\n  coverage JSON: unavailable\n  files:   one.dat, two.dat\n"
    );
    assert_eq!(
        dat_record_line(&record("a", 5, 255)),
        "  a (Font a) source=sf2 storage=sf2 runtime=sf2 bytes=5 flags=0x00000000000000ff"
    );
}

#[test]
fn the_data_folder_is_summarized() {
    let summary = summarize_dat_data_dir(true, "/d", 2, 99, two_fonts());
    assert_eq!(summary.data_summary(), "2 DAT file(s), 99 byte(s), 2 soundfont(s)");
    assert_eq!(summary.status(), "Ready");
    let missing = summarize_dat_data_dir(false, "/d", 0, 0, TextMap::new());
    assert_eq!(missing.data_summary(), "data folder not found: /d");
    assert_eq!(missing.status(), "data folder not found: /d");
    let empty = summarize_dat_data_dir(true, "/d", 1, 0, TextMap::new());
    assert_eq!(empty.status(), "No bundled soundfonts found in data folder");
    assert!(playback_check_failure(&empty).is_none());
    match playback_check_failure(&missing) {
        Some(error) => assert_eq!(error.message(), "DAT data is unavailable: data folder not found: /d"),
        None => panic!("no failure"),
    }
}

#[test]
fn a_data_folder_that_cannot_be_read_does_not_stop_the_start() {
    let launch = match parse(&["--gui"], false) {
        Ok(LaunchMode::Gui(gui)) => gui,
        _ => panic!("no window"),
    };
    let config = startup_config(launch, Err("broken".to_owned()));
    assert!(matches!(config.dat_summary, DatStartupSummary::Unavailable(message) if message == "broken"));
    assert_eq!(config.data_dir, "/opt/data");
}

#[test]
fn numbered_files_belong_together() {
    assert_eq!(normalized_extension(Some("DAT")).as_deref(), Some("dat"));
    assert!(is_dat_extension(Some("Dat")));
    assert!(!is_dat_extension(None));
    assert_eq!(
        numbered_dat_family(Some("fonts-big-001"), Some("DAT")),
        Some(("fonts-big".to_owned(), "dat".to_owned()))
    );
    assert_eq!(numbered_dat_family(Some("fonts-01"), Some("dat")), None);
    assert_eq!(numbered_dat_family(Some("fonts-001"), Some("txt")), None);
    assert_eq!(numbered_dat_family(None, Some("dat")), None);
    assert!(is_numbered_dat_stem("fonts-big-002", "fonts-big-"));
    assert!(!is_numbered_dat_stem("fonts-big-0x2", "fonts-big-"));
    assert!(!is_numbered_dat_stem("fonts-002", "fonts-big-"));
}

fn file(name: &str, stem: &str, extension: Option<&str>) -> FileNames {
    FileNames {
        name: name.to_owned(),
        stem: Some(stem.to_owned()),
        extension: extension.map(str::to_owned),
    }
}

#[test]
fn dat_files_are_collected_in_order() {
    let files = [
        file("z.dat", "z", Some("dat")),
        file("a-002.DAT", "a-002", Some("DAT")),
        file("a-001.dat", "a-001", Some("dat")),
        file("notes.txt", "notes", Some("txt")),
        file("plain", "plain", None),
    ];
    assert_eq!(collect_dat_paths("/d", &files, &None).ok(), Some(vec![2, 1, 0]));
    assert_eq!(collect_dat_paths("/d", &files, &Some("a".to_owned())).ok(), Some(vec![2, 1]));
    match collect_dat_paths("/d", &files[3..], &None) {
        Ok(_) => panic!("found"),
        Err(error) => assert_eq!(error.message(), "no DAT files found in /d"),
    }
}

#[test]
fn files_are_told_apart_by_their_first_bytes() {
    assert!(classify_file(b"FMIDxx", b"FMID", b"FDAT") == FileKind::Fmid);
    assert!(classify_file(b"MThd\0\0", b"FMID", b"FDAT") == FileKind::Midi);
    assert!(classify_file(b"FDAT", b"FMID", b"FDAT") == FileKind::Dat);
    assert!(classify_file(b"MTh", b"FMID", b"FDAT") == FileKind::Unknown);
}

#[test]
fn verified_files_are_reported() {
    let mut verified = VerifiedFile {
        kind: FileKind::Midi,
        byte_len: 12,
        chunk_size: 0,
        chunk_count: 0,
        records: Vec::new(),
    };
    assert_eq!(
        verify_report("a.mid", &verified).ok().as_deref(),
        Some("a.mid: standard MIDI file OK\nbytes: 12\n")
    );
    verified.kind = FileKind::Fmid;
    assert_eq!(
        verify_report("a", &verified).ok().as_deref(),
        Some("a: FMID container magic OK\nbytes: 12\n")
    );
    verified.kind = FileKind::Dat;
    verified.chunk_size = 4096;
    verified.chunk_count = 3;
    verified.records = vec![record("a", 5, 1)];
    assert_eq!(
        verify_report("a.dat", &verified).ok().as_deref(),
        Some(
            "a.dat: DAT archive magic and index OK\nbytes: 12\nchunk_size: 4096\nentries: 1\n\
             chunks: 3\n  a (Font a) source=sf2 storage=sf2 runtime=sf2 bytes=5 \
             flags=0x0000000000000001\n"
        )
    );
    verified.kind = FileKind::Unknown;
    match verify_report("x", &verified) {
        Ok(_) => panic!("accepted"),
        Err(error) => assert_eq!(error.message(), "x is not recognized as FMID, MIDI, or DAT"),
    }
}

#[test]
fn a_playback_check_is_reported() {
    let probe = RenderProbeReport {
        frames: 512,
        samples: 1024,
        peak: Level { bits: 0 },
        soundfont_count: 2,
        midi_strip_count: 5,
        recovered_error_count: 1,
    };
    assert_eq!(
        playback_check_report("a.mid", "Loaded", &probe, "0.125000"),
        "a.mid: playback check OK\nLoaded\nrender_frames: 512\nrender_samples: 1024\n\
         soundfonts: 2\nmidi_strips: 5\npeak: 0.125000\nrecovered_render_errors: 1\n"
    );
}

#[test]
fn parent_processes_are_named() {
    let process = |id: u32, parent_id: u32, name: &str| {
        let mut exe_name: Vec<u16> = name.encode_utf16().collect();
        exe_name.extend([0, 120]);
        ProcessEntry { id, parent_id, exe_name }
    };
    let processes = [process(4, 0, "system"), process(7, 4, "cmd.exe"), process(9, 7, "flutz.exe")];
    assert_eq!(windows_parent_process_name(&processes, 9).as_deref(), Some("cmd.exe"));
    assert_eq!(windows_parent_process_name(&processes, 4), None);
    assert_eq!(windows_parent_process_name(&processes, 5), None);
}

#[test]
fn the_data_folder_lies_beside_the_program() {
    assert_eq!(default_data_dir(Some("/opt/player"), Some("/home")), "/opt/player");
    assert_eq!(default_data_dir(None, Some("/home")), "/home");
    assert_eq!(default_data_dir(None, None), ".");
}

#[test]
fn a_path_stands_for_dat_files() {
    assert!(matches!(dat_source(true, Some("a-001"), Some("dat")), DatSource::Folder));
    match dat_source(false, Some("a-b-001"), Some("DAT")) {
        DatSource::Family(prefix) => assert_eq!(prefix, "a-b"),
        _ => panic!("no family"),
    }
    assert!(matches!(dat_source(false, Some("a-01"), Some("dat")), DatSource::File));
    assert!(matches!(dat_source(false, Some("a-001"), Some("sf2")), DatSource::File));
    assert!(matches!(dat_source(false, None, None), DatSource::File));
    assert_eq!(add_dat_bytes(add_dat_bytes(0, 7), 5), 12);
}
