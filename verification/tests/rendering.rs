//! A block of sound on its way from the stems to the mixer, and what is counted on it.
use flutz_app::desktop::feedback::strip_controls_of_rows;
use flutz_app::desktop::metadata::{normalized_metadata_fields, MetadataEditState, MetadataField};
use flutz_app::desktop::rows::{reset_strip_layout, soundfont_rows_from_catalog};
use flutz_app::level::Level;
use flutz_app::playback::backend::AudioBackend;
use flutz_app::playback::churn::{mixed_render_churn, stem_blocks_audio_bytes, stem_blocks_total_bytes};
use flutz_app::playback::churn::{MixerAllocations, RenderBuffers, RenderChurnDiagnostics};
use flutz_app::playback::churn::StemRenderAllocations;
use flutz_app::playback::diagnostics::{component_memory_diagnostics, output_latency_breakdown};
use flutz_app::playback::diagnostics::{AudioDeviceDiagnostics, AudioLifecycleStats};
use flutz_app::playback::diagnostics::{AudioStreamReferences, AudioStreamStats};
use flutz_app::playback::diagnostics::{MidiRuntimeMemoryDiagnostics, SoundFontMetadataDiagnostics};
use flutz_app::playback::load::{can_reuse_loaded_engine, same_texts, MidiLoadAttempts};
use flutz_app::playback::render::{empty_mixed_audio_report, finish_mixed_audio, mixed_audio_inputs};
use flutz_app::playback::render::{plan_mixed_audio, RetainedBuffers};
use flutz_app::playback::routing::{build_strip_mix_diagnostics, MeterReading, StemBlock};
use flutz_app::playback::routing::{StripMixLevels, StripMixReport, StripReport};
use flutz_app::playback::strips::{strip_id_for, MidiStripDescriptor, MixerStripControls, StemIdentity};
use flutz_app::playback::strips::StripLevels;
use flutz_app::playback::subset::{loaded_subset_state_satisfies, LoadedSubsetState, SubsetReuse};
use flutz_app::playback::subset::SoundFontSubsetPlanDebug;
use flutz_app::text_map::TextMap;
use std::collections::{BTreeMap, BTreeSet};

fn level(value: f32) -> Level {
    Level { bits: value.to_bits() }
}

fn texts(words: &[&str]) -> Vec<String> {
    words.iter().map(|word| (*word).to_owned()).collect()
}

fn controls(mute: bool, solo: bool) -> MixerStripControls {
    MixerStripControls {
        mute,
        solo,
        levels: StripLevels {
            volume: level(1.0),
            pan: level(0.0),
            gain_db: level(0.0),
            limiter_enabled: false,
            limiter_amount: level(0.25),
            reverb: level(0.0),
            chorus: level(0.0),
        },
    }
}

fn stem(font: &str, place: Option<(u8, u8)>, peak: f32) -> StemBlock {
    StemBlock {
        identity: StemIdentity {
            soundfont_id: font.to_owned(),
            midi_channel: place.map(|place| place.0),
            midi_bank: place.map(|_| 0),
            midi_program: place.map(|place| place.1),
            is_percussion: false,
        },
        display_name: Some(format!("{font} stem")),
        active_notes: vec![60],
        meter: MeterReading { peak: level(peak), rms: level(peak) },
    }
}

fn strips() -> Vec<MidiStripDescriptor> {
    vec![
        MidiStripDescriptor { channel: 0, bank: 0, program: 1, is_percussion: false },
        MidiStripDescriptor { channel: 9, bank: 128, program: 0, is_percussion: true },
    ]
}

fn allocations() -> StemRenderAllocations {
    StemRenderAllocations {
        output_block_count: 1,
        output_audio_bytes: 2,
        output_active_note_bytes: 3,
        output_vec_bytes: 4,
        internal_block_count: 5,
        internal_audio_bytes: 6,
        internal_active_note_bytes: 7,
        internal_vec_bytes: 8,
        residual_buffer_bytes: 9,
        effect_input_bytes: 10,
        effect_input_vec_bytes: 11,
        output_growth_bytes: 12,
        internal_growth_bytes: 13,
        residual_growth_bytes: 14,
        effect_input_growth_bytes: 15,
        total_bytes: 1_000,
        total_growth_bytes: 50,
    }
}

fn mixer_allocations() -> MixerAllocations {
    MixerAllocations {
        allocated_bytes: 100,
        deallocated_bytes: 100,
        scratch_growth_bytes: 7,
        output_bytes: 1,
        prepared_rendered_frame_bytes: 2,
        reports_bytes: 3,
        processed_inputs: 3,
        allocation_events: 4,
        deallocation_events: 4,
    }
}

#[test]
fn stems_find_their_strips() {
    let fonts = texts(&["a", "b"]);
    let blocks = [stem("a", Some((0, 1)), 0.5), stem("b", None, 0.0), stem("new", Some((3, 4)), 0.1)];
    let table = BTreeMap::new();
    let plain = controls(false, false);
    let plan = match plan_mixed_audio(128, &fonts, &blocks, &strips(), &table, plain) {
        Some(plan) => plan,
        None => panic!("nothing planned"),
    };
    assert_eq!(plan.frames, 64);
    let slots: Vec<usize> = plan.routes.iter().map(|route| route.soundfont_slot).collect();
    assert_eq!(slots, [0, 1, 2]);
    assert_eq!(plan.routes[0].strip_id, strip_id_for(0, 0, 0, 1, false));
    assert!(!plan.routes[0].is_global_residual && plan.routes[1].is_global_residual);
    let silent: Vec<u64> = plan.silent.iter().map(|strip| strip.strip_id).collect();
    let expected =
        [strip_id_for(0, 9, 128, 0, true), strip_id_for(1, 0, 0, 1, false), strip_id_for(1, 9, 128, 0, true)];
    assert_eq!(silent, expected);

    let inputs = mixed_audio_inputs(&plan, &fonts, &blocks, &strips(), &table, plain, &[false, true, false]);
    assert_eq!(inputs.len(), 4);
    let rendered: Vec<Option<usize>> = inputs.iter().map(|input| input.rendered_route_index).collect();
    assert_eq!(rendered, [Some(0), Some(1), Some(2), None]);
    assert!(inputs[0].automatic_processing && !inputs[1].automatic_processing);
    assert_eq!(inputs[3].strip_id, strip_id_for(1, 0, 0, 1, false));

    let reports = [StripReport { strip_id: plan.routes[0].strip_id, audible: true }];
    let retained = RetainedBuffers {
        stem_bytes_before: 10,
        stem_bytes_after: 30,
        stem_audio_bytes: 600,
        route_capacity: 4,
        route_size: 8,
        input_capacity: 4,
        input_size: 16,
    };
    let report = finish_mixed_audio(
        &plan,
        &fonts,
        &blocks,
        &strips(),
        &table,
        plain,
        inputs.len(),
        &reports,
        allocations(),
        mixer_allocations(),
        retained,
    );
    assert_eq!((report.frames, report.strips.len()), (64, 6));
    let shown = &report.strips[&plan.routes[0].strip_id];
    assert!(shown.audible && shown.active_notes == [60]);
    assert_eq!(shown.display_name.as_deref(), Some("a stem"));
    assert!(!report.strips[&expected[0]].audible);
    assert_eq!(report.churn.stem_playback_growth_bytes, 20);
    assert_eq!(report.churn.stem_total_growth_bytes, 70);
    assert_eq!(report.churn.retained_capacity_growth_bytes, 77);
    assert_eq!(report.churn.vec_overhead_bytes, 96);
    assert_eq!(report.churn.transient_alloc_bytes, 600 + 400 + 100 + 96);
    assert_eq!(report.churn.transient_alloc_bytes, report.churn.transient_dealloc_bytes);
    assert_eq!(report.churn.allocation_events, 3 * 2 + 4 + 2 + 4);
    assert_eq!(report.churn.allocation_events, report.churn.deallocation_events);
}

#[test]
fn empty_blocks_are_not_rendered() {
    let plan = plan_mixed_audio(1, &texts(&["a"]), &[], &strips(), &BTreeMap::new(), controls(false, false));
    assert!(plan.is_none());
    assert_eq!(empty_mixed_audio_report().frames, 0);
}

#[test]
fn residual_sound_follows_its_soundfont() {
    let fonts = texts(&["a"]);
    let blocks = [stem("a", None, 0.5)];
    let plain = controls(false, false);
    let first = strip_id_for(0, 0, 0, 1, false);
    let second = strip_id_for(0, 9, 128, 0, true);
    let residual = |table: &BTreeMap<u64, MixerStripControls>| {
        let plan = match plan_mixed_audio(2, &fonts, &blocks, &strips(), table, plain) {
            Some(plan) => plan,
            None => panic!("nothing planned"),
        };
        let tails = vec![false; plan.silent.len()];
        let inputs = mixed_audio_inputs(&plan, &fonts, &blocks, &strips(), table, plain, &tails);
        (inputs[0].controls.mute, inputs[0].controls.solo)
    };
    assert_eq!(residual(&BTreeMap::new()), (false, false));
    assert_eq!(residual(&BTreeMap::from([(first, controls(true, false))])), (true, false));
    assert_eq!(residual(&BTreeMap::from([(first, controls(false, true))])), (true, false));
    let both = BTreeMap::from([(first, controls(false, true)), (second, controls(false, true))]);
    assert_eq!(residual(&both), (false, true));
}

#[test]
fn strips_of_a_soundfont_have_different_numbers() {
    let mut numbers = BTreeSet::new();
    for channel in 0..16 {
        for program in 0..128 {
            assert!(numbers.insert(strip_id_for(0, channel, 0, program, false)));
        }
    }
    assert_eq!(numbers.len(), 16 * 128);
}

#[test]
fn mixes_are_explained_strip_by_strip() {
    let fonts = texts(&["a"]);
    let blocks = [stem("a", Some((0, 1)), 0.5)];
    let table = BTreeMap::from([(strip_id_for(0, 0, 0, 1, false), controls(true, false))]);
    let plain = controls(false, false);
    let plan = match plan_mixed_audio(2, &fonts, &blocks, &[], &table, plain) {
        Some(plan) => plan,
        None => panic!("nothing planned"),
    };
    let inputs = mixed_audio_inputs(&plan, &fonts, &blocks, &[], &table, plain, &[]);
    let quiet = MeterReading { peak: level(0.0), rms: level(0.0) };
    let levels = StripMixLevels {
        input_meter: quiet,
        estimated_post_peak: level(0.0),
        estimated_post_rms: level(0.0),
        applied_gain: level(1.0),
        session_gain: level(1.0),
        smart_mix_gain: level(1.0),
        lookahead_gain: level(1.0),
        normalization_gain: level(1.0),
        left_pan_gain: level(1.0),
        right_pan_gain: level(1.0),
    };
    let report = StripMixReport {
        strip_id: plan.routes[0].strip_id,
        soundfont_id: "a".to_owned(),
        midi_channel: 0,
        midi_program: 1,
        is_percussion: false,
        levels,
        audible: false,
    };
    let rows = build_strip_mix_diagnostics(&[report], &inputs, &plan.routes, &blocks);
    assert_eq!(rows.len(), 1);
    assert_eq!(rows[0].display_name.as_deref(), Some("a stem"));
    assert!(rows[0].automatic_processing);
}

#[test]
fn churn_is_added_up() {
    let buffers = RenderBuffers {
        frames: 64,
        rendered_blocks: 2,
        routed_blocks: 3,
        zero_fill_blocks: 1,
        visual_strips: 4,
        stem_audio_bytes: 600,
        stem_playback_growth_bytes: 20,
        routed_block_overhead: 32,
        mixer_input_overhead: 64,
    };
    let churn = mixed_render_churn(allocations(), mixer_allocations(), buffers);
    let mut totals = RenderChurnDiagnostics::default();
    totals.record(churn);
    totals.record(churn);
    assert_eq!(totals.render_calls, 2);
    assert_eq!(totals.cumulative_allocation_events, 2 * churn.allocation_events as u64);
    assert_eq!(totals.max_transient_alloc_bytes, churn.transient_alloc_bytes);
    assert_eq!(stem_blocks_audio_bytes(&[(10, 10), (5, 0)]), 100);
    assert_eq!(stem_blocks_total_bytes(2, 40, &[(10, 10)], 7), 80 + 80 + 7);
}

fn device(ring_retained_bytes: usize) -> AudioDeviceDiagnostics {
    AudioDeviceDiagnostics {
        ring_retained_bytes,
        ring_available_frames: 100,
        ring_capacity_frames: 400,
        device_buffer_frames: 64,
        device_available_frames: 14,
        callback_scratch_bytes: 5,
        producer_render_block_bytes: 6,
        stats: AudioStreamStats {
            callback_count: 1,
            frames_requested: 2,
            frames_delivered: 3,
            underrun_count: 4,
            queue_error_count: 5,
            producer_rendered_frames: 6,
            write_calls: 7,
            write_bytes: 8,
            last_callback_additional_bytes: 9,
            largest_callback_additional_bytes: 10,
            last_callback_total_bytes: 11,
            largest_callback_total_bytes: 12,
        },
        lifecycle: AudioLifecycleStats {
            init_calls: 0,
            quit_calls: 0,
            stream_opens: 0,
            stream_destroys: 0,
            stream_resumes: 0,
            stream_pauses: 0,
            callback_states_created: 0,
            callback_states_dropped: 0,
            producer_threads_started: 0,
            producer_threads_finished: 0,
        },
        references: AudioStreamReferences {
            stream_id: 1,
            shared_strong_count: 1,
            shared_weak_count: 0,
            callback_shared_strong_count: 1,
            callback_shared_weak_count: 0,
        },
    }
}

#[test]
fn latency_is_what_waits() {
    let ring = output_latency_breakdown(Some(&device(8)));
    assert_eq!((ring.total_frames, ring.wrapper_queue_frames, ring.device_queue_frames), (150, 100, 50));
    let plain = output_latency_breakdown(Some(&device(0)));
    assert_eq!((plain.total_frames, plain.wrapper_queue_frames, plain.device_queue_frames), (300, 300, 0));
}

#[test]
fn memory_is_added_up() {
    let all = component_memory_diagnostics(
        SoundFontMetadataDiagnostics { estimated_bytes: 10, ..SoundFontMetadataDiagnostics::default() },
        MidiRuntimeMemoryDiagnostics { estimated_bytes: 20, ..MidiRuntimeMemoryDiagnostics::default() },
        None,
        Some(&device(8)),
    );
    assert_eq!(all.audio.estimated_bytes, 8 + 5 + 6);
    assert_eq!(all.tracked_total_bytes, 10 + 20 + 19);
}

fn plan(sample_ids: &[u32]) -> SoundFontSubsetPlanDebug {
    SoundFontSubsetPlanDebug {
        soundfont_id: "a".to_owned(),
        requested_role_count: 1,
        preset_ids: vec![1],
        instrument_ids: vec![2],
        sample_ids: sample_ids.to_vec(),
        logical_wave_range_count: 1,
        planned_range_count: 1,
        planned_byte_count: 10,
        used_index_json: true,
    }
}

#[test]
fn loaded_subsets_serve_smaller_ones() {
    let mut loaded: TextMap<LoadedSubsetState> = TextMap::new();
    loaded.insert("a".to_owned(), LoadedSubsetState::from_plan(&plan(&[1, 2, 3]), true));
    let reuse = |ids: &[u32]| {
        let mut plans: TextMap<SoundFontSubsetPlanDebug> = TextMap::new();
        plans.insert("a".to_owned(), plan(ids));
        loaded_subset_state_satisfies(&loaded, &plans)
    };
    match reuse(&[1, 3]) {
        SubsetReuse::Satisfied(change) => assert_eq!(change.subset_contained_hits, 1),
        _ => panic!("not served"),
    }
    assert!(matches!(reuse(&[1, 2, 3]), SubsetReuse::Satisfied(_)));
    assert!(matches!(reuse(&[4]), SubsetReuse::NotSatisfied));
    assert!(matches!(
        loaded_subset_state_satisfies(&loaded, &TextMap::new()),
        SubsetReuse::NothingPlanned
    ));
}

#[test]
fn engines_are_reused_for_the_same_soundfonts() {
    let ids = texts(&["a", "b"]);
    assert!(can_reuse_loaded_engine(&ids, &texts(&["a", "b"]), true, true));
    assert!(!can_reuse_loaded_engine(&ids, &texts(&["b", "a"]), true, true));
    assert!(!can_reuse_loaded_engine(&ids, &ids, false, true));
    assert!(same_texts(&ids, &texts(&["a", "b"])));
    let search = MidiLoadAttempts::start(&[], &texts(&["a"]), &texts(&["a"]));
    assert_eq!(search.attempts.len(), 1);
}

#[test]
fn row_switches_reach_playback() {
    let mut rows = soundfont_rows_from_catalog(&[], &texts(&["a", "b"]));
    reset_strip_layout(&mut rows, &[(0, 0, 1, false)], &[vec![None], vec![None]]);
    rows[0].muted = true;
    rows[1].strips[0].soloed = true;
    let table = strip_controls_of_rows(&rows);
    assert!(table[&strip_id_for(0, 0, 0, 1, false)].mute);
    assert!(table[&strip_id_for(1, 0, 0, 1, false)].solo);
    assert!(!table[&strip_id_for(1, 0, 0, 1, false)].mute);
}

#[test]
fn fields_are_normalized_once() {
    let fields = vec![
        MetadataField { key: " k ".to_owned(), value: " v ".to_owned() },
        MetadataField { key: " ".to_owned(), value: "x".to_owned() },
    ];
    let once = normalized_metadata_fields(&fields);
    let twice = normalized_metadata_fields(&once);
    assert_eq!(once.len(), twice.len());
    assert_eq!((twice[0].key.as_str(), twice[0].value.as_str()), ("k", "v"));
    let state = MetadataEditState::from_names("title", "file");
    let kept = state.to_track_metadata("x", "y");
    let again = MetadataEditState::from_track_metadata(&kept, "p", "q");
    assert_eq!((again.project_name.as_str(), again.source_filename.as_str()), ("title", "file"));
}

#[test]
fn backends_are_named_and_parsed() {
    for backend in [AudioBackend::Sdl3, AudioBackend::Wasapi] {
        match AudioBackend::parse(backend.name()) {
            Ok(parsed) => assert!(parsed == backend),
            Err(_) => panic!("not parsed"),
        }
    }
    assert!(AudioBackend::parse(" SDL3 ").is_ok());
    assert!(AudioBackend::parse("alsa").is_err());
}
