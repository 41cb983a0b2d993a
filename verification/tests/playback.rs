//! Playback: latency, soundfonts, MIDI files, decoded audio and the controller.
use flutz_app::catalog::{BankProgramDemand, SoundFontCatalogEntry, SoundFontCoverage};
use flutz_app::error::ErrorKind;
use flutz_app::level::Level;
use flutz_app::playback::backend::AudioBackend;
use flutz_app::playback::churn::RenderChurnSnapshot;
use flutz_app::playback::controller::{keeps_idle_memory, AudioDeviceConfig, AudioPlaybackStatus};
use flutz_app::playback::controller::{DecodedAudioTransportMetadata, PlayFailure, PlayStart};
use flutz_app::playback::controller::{PlaybackController, RenderedBlock, StreamRequest};
use flutz_app::playback::controller::{TransportTarget, VisualizerStep};
use flutz_app::playback::decoded::{DecodedAudioPlaybackState, DecodedPlaybackState};
use flutz_app::playback::decoded::{DecodedStreamCache, PlaybackLoopMode, PlaybackLoopSettings};
use flutz_app::playback::decoded::StreamWork;
use flutz_app::playback::demand::{resolve_soundfont_ids, MidiDemandProfile};
use flutz_app::playback::flux_guard::{frames_from_ms, FluxGuard, FluxGuardDecisionReason};
use flutz_app::playback::flux_guard::RenderAheadState;
use flutz_app::playback::fonts::{finish_soundfont_load, load_path, merge_dat_payloads};
use flutz_app::playback::fonts::{read_order, read_tasks_of, subset_dat_payload, DatEntryKey};
use flutz_app::playback::fonts::{FontOutcome, LoadPath, RangeReads, SoundFontDatResources};
use flutz_app::playback::fonts::SoundFontJsonResources;
use flutz_app::playback::history::SnapshotHistory;
use flutz_app::playback::load::{fallback_note, midi_file_scan, midi_roles_failure};
use flutz_app::playback::midi_scan::{analyze_track, read_var_len, scan_loop_type};
use flutz_app::playback::midi_scan::{LoopMarkerStats, MidiFileLoopType, MidiSystemMode};
use flutz_app::playback::probe::{ProbeBlock, ProbedStems};
use flutz_app::playback::routing::{MeterReading, RealtimeStripSnapshot, StemBlock};
use flutz_app::playback::routing::{RenderProbeStripMixDiagnostics, StripMixLevels};
use flutz_app::playback::session::{LoadedMidi, MidiLoadStep};
use flutz_app::playback::snapshot::{active_strip_count, RealtimeMixerSnapshot};
use flutz_app::playback::strips::{strip_id_for, MidiStripDescriptor, StemIdentity};
use flutz_app::playback::subset::{compare_subset_transition, copy_loaded_states, decode_smpl_i16};
use flutz_app::playback::subset::{plan_soundfont_subsets, subset_closures, subset_demand_signature};
use flutz_app::playback::subset::{DatEntryRange, InstrumentLoadMap, LoadedSubsetState};
use flutz_app::playback::subset::{PresetIndex, SoundFontIndex, SoundFontSubsetPlanDebug};
use flutz_app::playback::trace::{panic_payload_to_string, render_failure_event};
use flutz_app::playback::trace::{record_render_lock_recovery, InterpretedSysexEvent};
use flutz_app::playback::trace::{MidiInterpretation, PlaybackMidiScanDiagnostics};
use flutz_app::playback::trace::{RenderErrorTrace, RenderFailure};
use flutz_app::playback::transport::{MidiTransportMetadata, PlaybackState, Seconds};
use flutz_app::text_map::TextMap;
use std::collections::BTreeMap;

fn texts(words: &[&str]) -> Vec<String> {
    words.iter().map(|word| (*word).to_owned()).collect()
}

fn state(buffered: u32, underruns: u64, queue_errors: u64) -> RenderAheadState {
    RenderAheadState {
        effective_target_frames: 0,
        current_buffered_frames: buffered,
        available_frames: buffered,
        largest_callback_frames: 256,
        underrun_count: underruns,
        queue_error_count: queue_errors,
    }
}

#[test]
fn milliseconds_become_frames() {
    assert_eq!(frames_from_ms(48_000, 80), 3_840);
    assert_eq!(frames_from_ms(0, 0), 1);
    assert_eq!(frames_from_ms(u32::MAX, u32::MAX), u32::MAX);
}

#[test]
fn pressure_raises_the_target() {
    let mut guard = FluxGuard::default();
    let first = guard.observe(Some(state(3_840, 0, 0)), 48_000);
    assert!(first.decision.reason == FluxGuardDecisionReason::Initialized);
    assert_eq!(first.decision.target.target_frames, 3_840);
    assert_eq!(first.decision.target.low_water_frames, 1_920);
    assert_eq!(first.decision.target.high_water_frames, 5_760);
    let underrun = guard.observe(Some(state(3_840, 1, 0)), 48_000);
    assert!(underrun.decision.reason == FluxGuardDecisionReason::UnderrunPressure);
    assert_eq!(underrun.decision.target.target_frames, 3_840 + 1_920);
    assert_eq!(underrun.cooldown_observations, 8);
    let queue = guard.observe(Some(state(3_840, 1, 1)), 48_000);
    assert!(queue.decision.reason == FluxGuardDecisionReason::QueueErrorPressure);
    assert_eq!(queue.decision.target.target_frames, 5_760 + 2_880);
    let calm = guard.observe(Some(state(8_000, 1, 1)), 48_000);
    assert!(calm.decision.reason == FluxGuardDecisionReason::Cooldown);
    assert_eq!(calm.cooldown_observations, 7);
    for _ in 0..20 {
        guard.observe(Some(state(12_000, 2, 9)), 48_000);
        let more = guard.observe(Some(state(12_000, 100, 9)), 48_000);
        assert!(more.decision.target.target_frames <= 12_000);
    }
    let gone = guard.observe(None, 48_000);
    assert!(gone.decision.reason == FluxGuardDecisionReason::NoAudio);
    assert_eq!(gone.decision.reason.as_str(), "no-audio");
}

#[test]
fn calm_lowers_the_target_only_after_a_while() {
    let mut guard = FluxGuard::default();
    guard.observe(Some(state(3_840, 0, 0)), 48_000);
    let mut lowered = 0;
    for n in 1..40 {
        let seen = guard.observe(Some(state(6_000, 0, 0)), 48_000);
        if seen.decision.target.target_frames < 3_840 && lowered == 0 {
            lowered = n;
            assert_eq!(seen.decision.target.target_frames, 3_840 - 240);
        }
    }
    assert_eq!(lowered, 30);
}

fn font(id: &str, programs: &[(u16, u8)], percussion: bool, is_default: bool) -> SoundFontCatalogEntry {
    SoundFontCatalogEntry {
        internal_id: id.to_owned(),
        display_name: format!("Font {id}"),
        source_format: "sf2".to_owned(),
        storage_format: "sf2".to_owned(),
        runtime_format: "sf2".to_owned(),
        is_default,
        total_size: 1,
        part_count: 1,
        coverage: Some(SoundFontCoverage {
            percussion,
            bank_programs: programs
                .iter()
                .map(|(bank, program)| BankProgramDemand { bank: *bank, program: *program })
                .collect(),
        }),
    }
}

fn role(channel: u8, program: u8) -> MidiStripDescriptor {
    MidiStripDescriptor { channel, bank: 0, program, is_percussion: false }
}

fn drums() -> MidiStripDescriptor {
    MidiStripDescriptor { channel: 9, bank: 128, program: 0, is_percussion: true }
}

#[test]
fn soundfonts_are_chosen_for_a_file() {
    let catalog = [font("a", &[(0, 1)], false, false), font("b", &[(0, 2)], true, true)];
    let ids = resolve_soundfont_ids(&catalog, &texts(&["a", "zzz", "b"]), &[role(0, 1)]);
    assert_eq!(ids.ok(), Some(texts(&["a"])));
    let fallback = resolve_soundfont_ids(&catalog, &[], &[drums()]);
    assert_eq!(fallback.ok(), Some(texts(&["b"])));
    match resolve_soundfont_ids(&[], &[], &[role(0, 1)]) {
        Ok(_) => panic!("found"),
        Err(error) => {
            assert_eq!(error.kind(), ErrorKind::InvalidInput);
            assert_eq!(error.message(), "no soundfonts are available in the DAT data folder");
        }
    }
}

#[test]
fn the_demand_of_a_file_is_sorted() {
    let profile = MidiDemandProfile::from_channel_roles(vec![role(2, 9), drums(), role(1, 3), role(0, 9)]);
    assert_eq!(profile.role_count(), 4);
    let programs: Vec<u8> = profile.melodic_programs.iter().map(|demand| demand.program).collect();
    assert_eq!(programs, [3, 9]);
    assert_eq!(profile.percussion_channels, [9]);
}

fn index() -> SoundFontIndex {
    SoundFontIndex {
        presets: vec![
            PresetIndex { preset_id: 7, bank: 0, program: 1, instrument_ids: vec![2, 1] },
            PresetIndex { preset_id: 3, bank: 128, program: 0, instrument_ids: vec![4] },
        ],
        instrument_load_map: vec![
            InstrumentLoadMap {
                instrument_id: 1,
                sample_ids: vec![10, 11],
                wave_ranges: vec![DatEntryRange { offset: 0, length: 100 }],
            },
            InstrumentLoadMap {
                instrument_id: 2,
                sample_ids: vec![11],
                wave_ranges: vec![
                    DatEntryRange { offset: 100, length: 0 },
                    DatEntryRange { offset: 100, length: 50 },
                ],
            },
        ],
    }
}

fn plans() -> TextMap<SoundFontSubsetPlanDebug> {
    let mut indexes: TextMap<SoundFontIndex> = TextMap::new();
    indexes.insert("a".to_owned(), index());
    let closures = subset_closures(&texts(&["a", "b"]), &[role(0, 1)], &indexes);
    assert_eq!(closures.len(), 1);
    plan_soundfont_subsets(1, &closures, &[vec![DatEntryRange { offset: 0, length: 150 }]])
}

#[test]
fn only_what_is_needed_is_planned() {
    let plans = plans();
    let plan = match plans.get("a") {
        Some(plan) => plan,
        None => panic!("no plan"),
    };
    assert_eq!(plan.preset_ids, [7]);
    assert_eq!(plan.instrument_ids, [1, 2]);
    assert_eq!(plan.sample_ids, [10, 11]);
    assert_eq!(plan.logical_wave_range_count, 2);
    assert_eq!(plan.planned_range_count, 1);
    assert_eq!(plan.planned_byte_count, 150);
    assert!(subset_demand_signature(plan).contains("10,11"));
}

#[test]
fn the_same_subset_is_an_exact_hit() {
    let plans = plans();
    let mut loaded: TextMap<LoadedSubsetState> = TextMap::new();
    if let Some(plan) = plans.get("a") {
        loaded.insert("a".to_owned(), LoadedSubsetState::from_plan(plan, true));
    }
    let copy = copy_loaded_states(&loaded);
    assert_eq!(copy.get("a").map(|state| state.sample_ids.clone()), Some(vec![10, 11]));
    let same = compare_subset_transition(&loaded, &copy);
    assert_eq!((same.exact_subset_hits, same.font_set_changes, same.compact_loaded_count), (1, 0, 1));
    let fresh = compare_subset_transition(&TextMap::new(), &loaded);
    assert_eq!((fresh.font_set_changes, fresh.missing_sample_count, fresh.missing_planned_bytes), (1, 2, 150));
}

#[test]
fn samples_are_little_endian() {
    assert_eq!(decode_smpl_i16(&[0x01, 0x00, 0xff, 0xff, 0x00, 0x80]).ok(), Some(vec![1, -1, i16::MIN]));
    assert!(decode_smpl_i16(&[1]).is_err());
}

#[test]
fn dat_entries_are_read_in_order() {
    let mut resources = SoundFontDatResources::new();
    let key = |kind: &str, id: &str| DatEntryKey { asset_type: kind.to_owned(), internal_id: id.to_owned() };
    resources.add_file(
        "one.dat",
        &[key("soundfont", "a"), key("json", "a"), key("soundfont", "x"), key("soundfont", "b")],
        &texts(&["a", "b"]),
    );
    resources.add_file("two.dat", &[key("soundfont", "a")], &texts(&["a", "b"]));
    let orders: Vec<usize> = resources.read_tasks.iter().map(|task| task.order).collect();
    assert_eq!(orders, [0, 1, 2]);
    assert_eq!(read_tasks_of(&resources.read_tasks, "a"), [0, 2]);
    assert_eq!(resources.read_tasks[1].entry, 3);
    resources.read_tasks.reverse();
    assert_eq!(read_order(&resources.read_tasks), [2, 1, 0]);

    let nothing = SoundFontJsonResources { metadata: None, coverage: None, index: None, pack_report: None };
    assert!(resources.wants_resources("a"));
    resources.add_resources("a", nothing);
    assert!(!resources.json_resources.contains_key("a"));
    resources.add_resources("a", SoundFontJsonResources { coverage: Some(1), ..nothing });
    resources.add_resources("a", SoundFontJsonResources { coverage: Some(2), index: Some(3), ..nothing });
    match resources.json_resources.get("a") {
        Some(known) => assert!(known.coverage == Some(1) && known.index == Some(3)),
        None => panic!("nothing known"),
    }
    assert!(!resources.wants_resources("a"));
}

#[test]
fn the_parts_of_a_payload_are_joined() {
    let payload = merge_dat_payloads(&texts(&["one", "two", "one"]), &[vec![1, 2], vec![], vec![3]]);
    assert_eq!(payload.bytes, [1, 2, 3]);
    assert_eq!(payload.sources, texts(&["one", "two"]));
    assert_eq!((payload.entry_reads, payload.entry_read_bytes), (3, 3));
    let reads = RangeReads { read_count: 2, byte_count: 5 };
    match subset_dat_payload(&texts(&["one"]), vec![9], reads, &[(4, vec![1, 0])], reads) {
        Ok(subset) => {
            assert_eq!(subset.sample_ranges[0].sample_id, 4);
            assert_eq!(subset.sample_ranges[0].samples, [1]);
            assert_eq!((subset.range_reads, subset.range_read_bytes), (4, 10));
        }
        Err(_) => panic!("refused"),
    }
    match subset_dat_payload(&[], vec![], reads, &[], reads) {
        Ok(_) => panic!("accepted"),
        Err(error) => assert_eq!(error.message(), "soundfont DAT subset has no DAT entries"),
    }
    assert!(subset_dat_payload(&texts(&["one"]), vec![], reads, &[(1, vec![1])], reads).is_err());
}

#[test]
fn soundfonts_are_loaded_as_subsets_or_in_full() {
    let mut catalog = vec![font("a", &[], false, true), font("b", &[], false, false)];
    catalog[1].storage_format = "sf3".to_owned();
    let plans = plans();
    assert!(load_path("a", 1, &catalog, &plans, true).ok() == Some(LoadPath::Subset));
    assert!(load_path("a", 1, &catalog, &plans, false).ok() == Some(LoadPath::Fallback));
    assert!(load_path("a", 1, &catalog, &TextMap::new(), true).ok() == Some(LoadPath::Whole));
    let message = |id: &str, tasks: usize| match load_path(id, tasks, &catalog, &plans, true) {
        Ok(_) => panic!("accepted"),
        Err(error) => error.message().to_owned(),
    };
    assert_eq!(message("a", 0), "soundfont payload not found in DAT files: a");
    assert_eq!(message("c", 1), "soundfont is missing from startup catalog: c");
    assert_eq!(message("b", 1), "soundfont b is sf2 stored as sf3; playback requires sf2");
}

#[test]
fn a_load_of_soundfonts_is_counted() {
    let reads = RangeReads { read_count: 3, byte_count: 30 };
    let load = finish_soundfont_load(
        &texts(&["a", "b"]),
        &plans(),
        &[FontOutcome::Subset { ranges: reads }, FontOutcome::Whole { entries: reads }],
        &TextMap::new(),
        4,
        7,
        1,
        12,
    );
    assert_eq!(load.states.len(), 1);
    assert_eq!(load.diagnostics.load_invocations, 5);
    assert_eq!(load.diagnostics.requested_font_count, 2);
    assert_eq!(load.diagnostics.range_dat_reads, 3);
    assert_eq!(load.diagnostics.full_dat_entry_bytes, 30);
    assert_eq!(load.diagnostics.subset_request_count, 1);
    assert_eq!(load.diagnostics.non_subset_full_load_count, 1);
    assert_eq!(load.diagnostics.index_json_plan_count, 1);
    assert_eq!(load.transition.compact_loaded_count, 1);
}

fn midi(track: &[u8]) -> Vec<u8> {
    let mut bytes = b"MThd\0\0\0\x06\0\0\0\x01\0\x60MTrk".to_vec();
    bytes.extend_from_slice(&(track.len() as u32).to_be_bytes());
    bytes.extend_from_slice(track);
    bytes
}

#[test]
fn variable_lengths_are_read() {
    let mut offset = 0;
    assert_eq!(read_var_len(&[0x81, 0x00, 0x05], &mut offset).ok(), Some(128));
    assert_eq!(offset, 2);
    let mut short = 0;
    assert!(read_var_len(&[0x81], &mut short).is_err());
}

#[test]
fn loop_styles_are_recognized() {
    assert!(scan_loop_type(b"RIFF").is_err());
    match scan_loop_type(&midi(&[0, 0xb0, 111, 0, 0, 0xff, 0x2f, 0])) {
        Ok(style) => assert!(style == MidiFileLoopType::RpgMaker),
        Err(_) => panic!("refused"),
    }
    let mut markers = LoopMarkerStats::default();
    assert!(analyze_track(&[0, 0xb0, 116, 0, 0, 117, 0], &mut markers).is_ok());
    assert!(markers.detected_loop_type() == MidiFileLoopType::FinalFantasy);
    let mut none = LoopMarkerStats::default();
    assert!(analyze_track(&[0, 0x90, 60, 100], &mut none).is_ok());
    assert!(none.detected_loop_type().is_plain_loop_point());
}

#[test]
fn the_transport_lists_its_jump_points() {
    let transport = MidiTransportMetadata::from_loaded_midi(Seconds { bits: 0 }, 900, &[40, 10], &[800, 40]);
    assert_eq!(transport.jump_start_tick, Some(40));
    assert_eq!(transport.jump_end_tick, Some(800));
    assert_eq!(transport.jump_points, [10, 40, 800]);
}

fn interpretation() -> MidiInterpretation {
    MidiInterpretation {
        system_modes: vec![MidiSystemMode::RolandGs],
        percussion_channels: vec![9],
        warnings: Vec::new(),
        sysex_event_count: 1,
        recognized_sysex_event_count: 1,
        sysex_events: vec![InterpretedSysexEvent {
            index: 0,
            status: 0xf0,
            byte_len: 9,
            manufacturer_id: "41".to_owned(),
            recognized: true,
            system_mode: Some(MidiSystemMode::RolandGs),
            channel_role: Some((3, "Percussion".to_owned())),
            warning: None,
            bytes_hex: "41".to_owned(),
        }],
    }
}

fn scan(roles: Vec<MidiStripDescriptor>) -> flutz_app::playback::load::MidiFileScan {
    midi_file_scan(MidiFileLoopType::RpgMaker, roles, &interpretation())
}

fn empty_scan() -> PlaybackMidiScanDiagnostics {
    scan(Vec::new()).diagnostics
}

#[test]
fn render_failures_are_traced() {
    let mut trace = RenderErrorTrace::new();
    let event = render_failure_event(
        "probe-render",
        RenderFailure::Panic { payload: None, backtrace: "stack".to_owned() },
        64,
        Some("a.mid".to_owned()),
        texts(&["a"]),
        empty_scan(),
    );
    let line = trace.record_error(event);
    assert!(line.contains("\"failure_kind\":\"panic\""));
    assert!(line.contains("non-string panic payload"));
    assert!(line.contains("\"role\":\"percussion\""));
    let lock = record_render_lock_recovery("audio-callback", "mixer_controls", None, Vec::new(), empty_scan());
    assert_eq!(lock.detail, "recovered poisoned mixer_controls lock");
    assert_eq!(lock.failure_kind, "lock-recovery");
    trace.record_error(lock);
    assert_eq!(trace.take_recent().len(), 2);
    assert_eq!(trace.take_recent().len(), 0);
    assert_eq!(panic_payload_to_string(Some("boom".to_owned())), "boom");
    assert_eq!(midi_roles_failure("x").message(), "failed to parse MIDI roles: x");
}

#[test]
fn strips_have_numbers() {
    assert_eq!(strip_id_for(0, 0, 0, 0, false), 100_001);
    assert_eq!(strip_id_for(1, 9, 1, 5, true), 200_000 + 50_000 + 9 * 16_384 + 128 + 5 + 1);
}

#[test]
fn snapshots_are_heard_late() {
    let mut history: SnapshotHistory<u32> = SnapshotHistory::new();
    history.record(100, 1, 48_000);
    history.record(200, 2, 48_000);
    assert_eq!(history.live_snapshot(), Some(&2));
    assert_eq!(history.delayed_snapshot(200, 50), Some(&1));
    assert_eq!(history.delayed_snapshot(200, 150), None);
    history.record(200 + 4 * 48_000 + 1, 3, 48_000);
    assert_eq!(history.frames.len(), 1);
}

fn decoded(frames: u64) -> DecodedAudioPlaybackState<i32> {
    DecodedAudioPlaybackState::new(48_000, 1, frames, Some((0..frames as i32).collect()), None)
}

fn region(mode: PlaybackLoopMode, start: u64, end: u64, count: u32) -> PlaybackLoopSettings {
    PlaybackLoopSettings { enabled: true, mode, start_tick: start, end_tick: end, loop_count: count }
}

fn played(audio: &mut DecodedAudioPlaybackState<i32>, frames: usize) -> Vec<i32> {
    audio.render_frames(frames, -1).into_iter().map(|sides| sides.0).collect()
}

#[test]
fn decoded_audio_plays_to_its_end() {
    let mut audio = decoded(3);
    assert_eq!(played(&mut audio, 2), [-1, -1]);
    audio.play();
    assert_eq!(played(&mut audio, 5), [0, 1, 2, -1, -1]);
    assert!(audio.state == DecodedPlaybackState::Stopped);
    assert_eq!(audio.state_label(), "Stopped");
}

#[test]
fn decoded_audio_loops() {
    let mut audio = decoded(4);
    audio.set_loop_settings(region(PlaybackLoopMode::Infinite, 1, 3, 1));
    audio.play();
    assert_eq!(played(&mut audio, 7), [0, 1, 2, 1, 2, 1, 2]);
    let mut counted = decoded(4);
    counted.set_loop_settings(region(PlaybackLoopMode::Counted, 1, 3, 2));
    counted.play();
    assert_eq!(played(&mut counted, 9), [0, 1, 2, 1, 2, 1, 2, -1, -1]);
    let mut outside = decoded(4);
    outside.set_loop_settings(region(PlaybackLoopMode::Infinite, 9, 20, 0));
    assert!(!outside.loop_settings.enabled);
    assert_eq!(outside.loop_settings.loop_count, 1);
}

#[test]
fn decoded_audio_goes_on_after_a_pause() {
    let mut audio = decoded(6);
    audio.play();
    assert_eq!(played(&mut audio, 2), [0, 1]);
    audio.pause();
    assert_eq!(played(&mut audio, 1), [-1]);
    audio.play();
    assert_eq!(played(&mut audio, 1), [2]);
    audio.seek_frame(4);
    assert_eq!(played(&mut audio, 1), [4]);
    audio.stop();
    assert_eq!(audio.position_frame, 0);
}

#[test]
fn streamed_audio_is_asked_for_and_delivered() {
    let mut cache: DecodedStreamCache<i32> = DecodedStreamCache::new(4, 1, 0);
    assert!(cache.request_fill(2));
    assert!(!cache.request_fill(2));
    let request = match cache.next_work() {
        StreamWork::Decode(request) => request,
        _ => panic!("no work"),
    };
    assert_eq!(request.start_frame, 2);
    assert!(cache.complete(request, Ok((vec![20, 30], 2))));
    assert!(cache.frame_in_cache(3) && !cache.frame_in_cache(4));
    assert_eq!(cache.play_frame(3, 0), (30, 30));
    assert!(matches!(cache.next_work(), StreamWork::Wait));
    cache.shut_down();
    assert!(matches!(cache.next_work(), StreamWork::Stop));
}

fn config() -> AudioDeviceConfig {
    AudioDeviceConfig { sample_rate: 48_000, channels: 2, internal_block_frames: 512 }
}

fn controller() -> PlaybackController<i32> {
    PlaybackController::new(
        vec![font("a", &[(0, 1)], true, true), font("b", &[(0, 2)], false, false)],
        AudioBackend::Sdl3,
        config(),
    )
}

fn metadata(frames: u64) -> DecodedAudioTransportMetadata {
    DecodedAudioTransportMetadata {
        path: "a.wav".to_owned(),
        format_id: "wav".to_owned(),
        friendly_name: "Wave".to_owned(),
        sample_rate: 44_100,
        channels: 1,
        frame_length: frames,
        duration_seconds: Seconds { bits: 0 },
    }
}

#[test]
fn nothing_plays_before_something_is_loaded() {
    let mut playback = controller();
    match playback.play(None) {
        Ok(_) => panic!("played"),
        Err(error) => assert_eq!(error.message(), "load a MIDI file before playing"),
    }
    match playback.ensure_audio_stream() {
        Ok(_) => panic!("opened"),
        Err(error) => assert_eq!(error.message(), "load a MIDI file before opening audio"),
    }
    match playback.begin_render_probe(&[512]) {
        Ok(_) => panic!("rendered"),
        Err(error) => assert_eq!(error.message(), "load a MIDI file before rendering"),
    }
    match playback.decoded_render_probe(4, 0) {
        Ok(_) => panic!("rendered"),
        Err(error) => assert_eq!(error.message(), "load decoded audio before probing render"),
    }
    match playback.set_decoded_peq_config(Ok(())) {
        Ok(_) => panic!("set"),
        Err(error) => assert_eq!(error.message(), "load decoded audio before editing PEQ"),
    }
    match playback.set_decoded_peq_config(Err("bad".to_owned())) {
        Ok(_) => panic!("set"),
        Err(error) => assert_eq!(error.message(), "invalid decoded audio PEQ config: bad"),
    }
    assert_eq!(playback.status_line(None, None), "no MIDI loaded");
    assert_eq!(playback.audio_status_text(None), "audio closed");
}

#[test]
fn decoded_audio_is_loaded_and_played() {
    let mut playback = controller();
    let mut silent = metadata(3);
    silent.channels = 0;
    assert!(playback.load_decoded_audio_buffer(silent, "0.00", vec![1, 2, 3], 512).is_err());
    assert_eq!(
        playback.load_decoded_audio_buffer(metadata(3), "0.01", vec![1, 2, 3], 512).ok().as_deref(),
        Some("Loaded Wave decoded audio, 0.01s, 44100 Hz, 1 channel(s)")
    );
    assert!(matches!(playback.play(None), Ok(PlayStart::Decoded)));
    assert!(playback.playback_active(None));
    assert!(matches!(playback.ensure_audio_stream(), Ok(StreamRequest::Decoded { .. })));
    assert!(playback.audio_stream_opened(Ok(())).is_ok());
    assert!(matches!(playback.ensure_audio_stream(), Ok(StreamRequest::AlreadyOpen)));
    assert!(matches!(playback.play_audible(), AudioPlaybackStatus::Audible));
    assert_eq!(
        playback.status_line(None, Some("Speakers")),
        "Wave, 44100 Hz, 1 channel(s), audio ready via sdl3 (Speakers)"
    );
    assert!(playback.seek_transport_tick(2, None) == (TransportTarget::Decoded, true));
    assert_eq!(playback.transport_tick(None), 2);
    playback.pause(Some("gone"));
    assert!(!playback.audio_open);
    assert_eq!(playback.audio_status_text(None), "audio unavailable (audio pause failed: gone)");
    playback.retry_audio();
    assert!(playback.audio_error.is_none());
    playback.stop(None);
    assert_eq!(playback.transport_tick(None), 0);
    playback.release_idle_resources();
    assert!(playback.decoded_transport_metadata().is_none());
    assert!(playback.play(None).is_err());
}

#[test]
fn playback_that_cannot_be_heard_is_paused() {
    let mut playback = controller();
    assert!(playback.load_decoded_audio_buffer(metadata(3), "0.01", vec![1, 2, 3], 512).is_ok());
    assert!(playback.play(None).is_ok());
    match playback.play_unavailable(PlayFailure::Open, "no device") {
        AudioPlaybackStatus::AudioUnavailable(message) => assert_eq!(message, "audio unavailable: no device"),
        AudioPlaybackStatus::Audible => panic!("heard"),
    }
    assert!(!playback.playback_active(None));
    assert!(matches!(playback.play(Some(PlaybackState::Paused)), Ok(PlayStart::Decoded)));
}

#[test]
fn streamed_decoded_audio_waits_for_its_frames() {
    let mut playback = controller();
    assert_eq!(
        playback
            .load_decoded_audio_stream(metadata(8), "0.01", DecodedStreamCache::new(44_100, 1, 0), 512)
            .ok()
            .as_deref(),
        Some("Loaded Wave decoded audio stream, 0.01s, 44100 Hz, 1 channel(s)")
    );
    assert!(!playback.wait_for_decoded_stream_cache());
    assert!(playback.set_loop_enabled(true) == TransportTarget::Decoded);
    match playback.decoded_stream_cache_debug(5, 6) {
        Some(debug) => assert!(debug.streaming && debug.cached_sample_capacity == 5),
        None => panic!("no cache"),
    }
}

#[test]
fn a_midi_file_is_loaded_step_by_step() {
    let mut playback = controller();
    let begun = playback.load_midi_bytes(
        scan(vec![role(0, 1)]),
        Vec::new(),
        "song.mid".to_owned(),
        vec![1, 2, 3],
        None,
    );
    let mut load = match begun {
        Ok(load) => load,
        Err(_) => panic!("refused"),
    };
    assert_eq!(load.soundfont_ids, texts(&["a"]));
    assert!(playback.midi_load_paused(&mut load, None, 48_000, 256) == MidiLoadStep::TryFonts);
    assert_eq!(load.current_fonts(), Some(&texts(&["a"])));
    assert!(load.attempt_failed("broken") == MidiLoadStep::TryFonts);
    assert_eq!(load.current_fonts(), Some(&texts(&["b"])));
    playback.midi_load_fonts_loaded(&mut load, None, TextMap::new());
    let loaded = LoadedMidi {
        byte_len: 3,
        duration_text: "1.50".to_owned(),
        transport: MidiTransportMetadata::from_loaded_midi(Seconds { bits: 0 }, 960, &[10], &[900]),
        strips: vec![role(0, 1)],
        coverages: TextMap::new(),
        sysex_event_count: 1,
        recognized_sysex_event_count: 1,
        percussion_channels: vec![9],
    };
    let (summary, seek) = playback.midi_load_finished(load, loaded);
    assert_eq!(
        summary,
        "Loaded 3 byte MIDI with 1 RustySynth instance(s), 1.50s, 960 ticks\n\
         Jump points (tick): 10, 900\nAuto-detected loop style: rpg-maker\n\
         MIDI SysEx: 1 event(s), 1 recognized, percussion channels [9]\n\
         Fallback soundfont selection: requested [a], loaded [b]"
    );
    assert_eq!(seek, None);
    assert_eq!(playback.loaded_soundfont_ids(), texts(&["b"]));
    assert_eq!(playback.midi_strip_layout(), [(0, 0, 1, false)]);
    assert!(matches!(playback.play(Some(PlaybackState::Paused)), Ok(PlayStart::ResumeEngine)));
    assert!(matches!(playback.play(Some(PlaybackState::Stopped)), Ok(PlayStart::PlayEngine)));
    assert_eq!(playback.capture_render_layer_transition(&[1, 2, 3], &texts(&["a"]), Some(77)).warmup_tick, Some(77));
    assert_eq!(playback.capture_render_layer_transition(&[1, 2, 3], &texts(&["b"]), Some(77)).warmup_tick, None);
    assert_eq!(playback.status_line(Some((1, 48_000)), None), "1 synth(s), 48000 Hz, audio closed");
}

#[test]
fn a_load_without_soundfonts_left_fails() {
    let mut playback = controller();
    let mut load = match playback.load_midi_bytes(scan(vec![role(0, 1)]), texts(&["a"]), "s".to_owned(), vec![], None) {
        Ok(load) => load,
        Err(_) => panic!("refused"),
    };
    playback.midi_load_paused(&mut load, None, 48_000, 256);
    assert!(load.attempt_failed("broken") == MidiLoadStep::Failed);
    assert_eq!(
        load.failure().message(),
        "failed to initialize playback soundfont set: a => broken"
    );
    assert!(load.current_fonts().is_none());
    assert_eq!(fallback_note(&texts(&["a"]), &texts(&["a"])), None);
}

fn block(frames: usize, note: u8) -> RenderedBlock {
    RenderedBlock { frames, snapshot: shown(note), churn: RenderChurnSnapshot::default() }
}

fn shown(note: u8) -> RealtimeMixerSnapshot {
    let mut strips = BTreeMap::new();
    let silent = MeterReading { peak: Level { bits: 0 }, rms: Level { bits: 0 } };
    strips.insert(
        100_001,
        RealtimeStripSnapshot {
            soundfont_id: "a".to_owned(),
            midi_channel: 0,
            midi_bank: 0,
            midi_program: 0,
            is_percussion: false,
            display_name: None,
            meter: silent,
            audible: false,
            active_notes: if note == 0 { Vec::new() } else { vec![note] },
        },
    );
    RealtimeMixerSnapshot { output_meter: silent, strips }
}

#[test]
fn rendered_blocks_move_the_clock() {
    let mut playback = controller();
    assert!(playback.engine_block_rendered(1024, Some(block(512, 60))) == VisualizerStep::Ingest { frames: 512 });
    assert!(playback.engine_block_rendered(1024, None) == VisualizerStep::Silence { frames: 512 });
    assert_eq!(playback.rendered_frame_clock, 512);
    assert_eq!(playback.render_churn.render_calls, 1);
    match playback.live_output_view().snapshot {
        Some(snapshot) => assert_eq!(active_strip_count(&snapshot.strips), 1),
        None => panic!("nothing rendered"),
    }
    assert_eq!(active_strip_count(&shown(0).strips), 0);
    assert!(playback.reset_audible_output_after_reposition(None, true) == false);
    assert_eq!(playback.rendered_frame_clock, 0);
    assert!(playback.latest_snapshot(None).is_none());
    assert!(keeps_idle_memory(Some(PlaybackState::Paused)) && !keeps_idle_memory(None));
}

#[test]
fn test_renderings_are_reported() {
    let mut playback = controller();
    playback.engine_loaded = true;
    assert_eq!(playback.begin_render_probe(&[64, 512, 8]).ok(), Some(1024));
    let peak = Level { bits: 0.5f32.to_bits() };
    let rendered = ProbeBlock { frames: 64, peak, snapshot: shown(1), mix_diagnostics: Vec::new() };
    let blocks = vec![
        ProbedStems { block: Some(rendered), stems: Vec::new() },
        ProbedStems { block: None, stems: Vec::new() },
    ];
    match playback.render_probe_sequence(&[64, 32], blocks, 48_000) {
        Ok(reports) => {
            assert_eq!((reports[0].frames, reports[0].samples), (64, 128));
            assert!(reports[0].peak == peak);
            assert_eq!((reports[1].samples, reports[1].recovered_error_count), (64, 1));
            assert!(PlaybackController::<i32>::render_probe(&reports).is_ok());
        }
        Err(_) => panic!("refused"),
    }
    assert_eq!(playback.rendered_frame_clock, 64);
    assert!(PlaybackController::<i32>::render_probe(&[]).is_err());
}

fn stem(note: u8) -> StemBlock {
    let silent = Level { bits: 0 };
    StemBlock {
        identity: StemIdentity {
            soundfont_id: "a".to_owned(),
            midi_channel: Some(0),
            midi_bank: Some(0),
            midi_program: Some(1),
            is_percussion: false,
        },
        display_name: None,
        active_notes: vec![note],
        meter: MeterReading { peak: silent, rms: silent },
    }
}

#[test]
fn test_renderings_show_their_stems() {
    let mut playback = controller();
    let nothing = playback.render_probe_sequence_with_stems(&[], Vec::new(), 48_000);
    match nothing {
        Ok(_) => panic!("rendered without an engine"),
        Err(error) => assert_eq!(error.message(), "load a MIDI file before rendering"),
    }
    playback.engine_loaded = true;
    let peak = Level { bits: 0.5f32.to_bits() };
    let row = RenderProbeStripMixDiagnostics {
        strip_id: 100_002,
        soundfont_id: "a".to_owned(),
        display_name: None,
        midi_channel: 0,
        midi_program: 1,
        is_percussion: false,
        levels: StripMixLevels {
            input_meter: MeterReading { peak, rms: peak },
            estimated_post_peak: peak,
            estimated_post_rms: peak,
            applied_gain: peak,
            session_gain: peak,
            smart_mix_gain: peak,
            lookahead_gain: peak,
            normalization_gain: peak,
            left_pan_gain: peak,
            right_pan_gain: peak,
        },
        automatic_processing: true,
        mute: false,
        solo: false,
        audible: true,
        active_notes: vec![60],
    };
    let rendered = ProbeBlock { frames: 64, peak, snapshot: shown(1), mix_diagnostics: vec![row] };
    let blocks = vec![
        ProbedStems { block: Some(rendered), stems: vec![stem(60), stem(64)] },
        ProbedStems { block: None, stems: vec![stem(67)] },
    ];
    let reports = match playback.render_probe_sequence_with_stems(&[64, 32], blocks, 48_000) {
        Ok(reports) => reports,
        Err(_) => panic!("refused"),
    };
    assert_eq!(reports.len(), 2);
    assert_eq!((reports[0].stems.len(), reports[0].mix_diagnostics.len()), (2, 1));
    assert_eq!(reports[0].mix_diagnostics[0].strip_id, 100_002);
    assert_eq!(reports[0].report.recovered_error_count, 0);
    assert_eq!(reports[1].stems[0].active_notes, [67]);
    assert_eq!((reports[1].mix_diagnostics.len(), reports[1].report.recovered_error_count), (0, 1));
}
