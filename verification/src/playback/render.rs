//! One render call: planning before the mixer runs, and the report after it.
//!
//! The synthesizer and the mixer themselves work on audio samples. Around them a
//! call goes through three steps: `plan_mixed_audio` once the stems are
//! rendered, `mixed_audio_inputs` for what the mixer is handed, and
//! `finish_mixed_audio` for what the mixer reports.
use crate::numbers::{monus, saturating_mul_usize, usize_cap};
use crate::playback::churn::{mixed_churn, mixed_render_churn, no_churn, MixerAllocations};
use crate::playback::churn::{RenderBuffers, RenderChurnSnapshot, StemRenderAllocations};
use crate::playback::routing::{input_views, is_rendered, mixer_inputs, mixer_inputs_of};
use crate::playback::routing::{realtime_strips, route_of, route_rendered_stems, routes_fit, routes_of};
use crate::playback::routing::{settle_audibility, settled, shown_controls, shown_controls_of};
use crate::playback::routing::{silence_candidates, silent_inputs, silent_strips, stem_views};
use crate::playback::routing::{font_strips, loaded_slots, residual_controls, silent_input};
use crate::playback::routing::{slot_controls, slots_through, visible_strip};
use crate::playback::routing::{visible_strips, visible_strips_of, visual_map, visuals_of};
use crate::playback::routing::{MixerInputRoute, RealtimeStripSnapshot, RoutedStemRoute, StemBlock};
use crate::playback::routing::{StemView, StripReport, VisibleStrip};
use crate::playback::strips::{slot_fits, MidiStripDescriptor, MixerStripControls};
use crate::text::texts;
use std::collections::BTreeMap;
use vstd::prelude::*;

verus! {

/// The routing of one render call.
pub struct MixedAudioPlan {
    pub frames: usize,
    pub routes: Vec<RoutedStemRoute>,
    pub silent: Vec<VisibleStrip>,
    pub shown: Vec<(usize, MixerStripControls)>,
}

/// What goes into a plan.
pub ghost struct PlanInput {
    pub fonts: Seq<Seq<char>>,
    pub stems: Seq<StemView>,
    pub strips: Seq<MidiStripDescriptor>,
    pub table: Map<u64, MixerStripControls>,
    pub defaults: MixerStripControls,
}

impl PlanInput {
    pub open spec fn routes(self) -> Seq<RoutedStemRoute> {
        routes_of(self.fonts, self.stems)
    }

    pub open spec fn visible(self) -> Seq<VisibleStrip> {
        visible_strips_of(self.fonts.len(), self.strips, self.table, self.defaults)
    }

    pub open spec fn silent(self) -> Seq<VisibleStrip> {
        silent_strips(self.visible(), self.routes())
    }

    pub open spec fn shown(self) -> Seq<(usize, MixerStripControls)> {
        shown_controls_of(
            self.visible(),
            self.routes(),
            self.routes().len() as int,
            self.table,
            self.defaults,
        )
    }
}

impl MixedAudioPlan {
    /// The plan is the one for the given input.
    pub open spec fn is_plan_of(&self, input: PlanInput) -> bool {
        &&& self.routes@ == input.routes()
        &&& self.silent@ == input.silent()
        &&& self.shown@ == input.shown()
    }
}

/// The input made of the arguments of a render call.
pub open spec fn plan_input(
    soundfont_ids: Seq<String>,
    blocks: Seq<StemBlock>,
    midi_strips: Seq<MidiStripDescriptor>,
    table: Map<u64, MixerStripControls>,
    defaults: MixerStripControls,
) -> PlanInput {
    PlanInput {
        fonts: texts(soundfont_ids),
        stems: stem_views(blocks),
        strips: midi_strips,
        table,
        defaults,
    }
}

proof fn lemma_visible_slots(
    fonts: nat,
    strips: Seq<MidiStripDescriptor>,
    table: Map<u64, MixerStripControls>,
    defaults: MixerStripControls,
)
    requires
        fonts <= usize::MAX,
    ensures
        forall|i: int|
            0 <= i < visible_strips_of(fonts, strips, table, defaults).len() ==> (
            #[trigger] visible_strips_of(fonts, strips, table, defaults)[i]).soundfont_slot < fonts,
    decreases fonts,
{
    if fonts > 0 {
        lemma_visible_slots((fonts - 1) as nat, strips, table, defaults);
        let before = visible_strips_of((fonts - 1) as nat, strips, table, defaults);
        let now = visible_strips_of(fonts, strips, table, defaults);
        assert forall|i: int| 0 <= i < now.len() implies (#[trigger] now[i]).soundfont_slot
            < fonts by {
            if i < before.len() {
                assert(now[i] == before[i]);
            }
        }
    }
}

proof fn lemma_silent_are_visible(visible: Seq<VisibleStrip>, routes: Seq<RoutedStemRoute>)
    ensures
        forall|i: int|
            0 <= i < silent_strips(visible, routes).len() ==> visible.contains(
                #[trigger] silent_strips(visible, routes)[i],
            ) && !is_rendered(routes, silent_strips(visible, routes)[i].strip_id),
        forall|j: int|
            0 <= j < visible.len() && !is_rendered(routes, (#[trigger] visible[j]).strip_id)
                ==> silent_strips(visible, routes).contains(visible[j]),
    decreases visible.len(),
{
    if visible.len() > 0 {
        let shorter = visible.drop_last();
        lemma_silent_are_visible(shorter, routes);
        let before = silent_strips(shorter, routes);
        let now = silent_strips(visible, routes);
        assert forall|i: int| 0 <= i < now.len() implies visible.contains(#[trigger] now[i])
            && !is_rendered(routes, now[i].strip_id) by {
            if i < before.len() {
                assert(now[i] == before[i]);
                assert(shorter.contains(before[i]));
                let j = choose|j: int| 0 <= j < shorter.len() && shorter[j] == before[i];
                assert(visible[j] == now[i]);
            } else {
                assert(now[i] == visible[visible.len() - 1]);
            }
        }
        assert forall|j: int|
            0 <= j < visible.len() && !is_rendered(
                routes,
                (#[trigger] visible[j]).strip_id,
            ) implies now.contains(visible[j]) by {
            if j < shorter.len() {
                assert(shorter[j] == visible[j]);
                let i = choose|i: int| 0 <= i < before.len() && before[i] == visible[j];
                assert(now[i] == visible[j]);
            } else {
                assert(now[now.len() - 1] == visible[j]);
            }
        }
    }
}

/// Every slot of a silent strip is that of a loaded soundfont.
proof fn lemma_silent_slots(input: PlanInput)
    requires
        input.fonts.len() <= usize::MAX,
    ensures
        forall|i: int|
            0 <= i < input.silent().len() ==> (#[trigger] input.silent()[i]).soundfont_slot
                < input.fonts.len(),
{
    lemma_visible_slots(input.fonts.len(), input.strips, input.table, input.defaults);
    lemma_silent_are_visible(input.visible(), input.routes());
    assert forall|i: int| 0 <= i < input.silent().len() implies (
    #[trigger] input.silent()[i]).soundfont_slot < input.fonts.len() by {
        let j = choose|j: int|
            0 <= j < input.visible().len() && input.visible()[j] == input.silent()[i];
        assert(input.visible()[j].soundfont_slot < input.fonts.len());
    }
}

/// Plans a render call for an output buffer of `output_samples` interleaved
/// stereo samples. There is nothing to plan for a buffer without a whole frame.
pub fn plan_mixed_audio(
    output_samples: usize,
    soundfont_ids: &[String],
    blocks: &[StemBlock],
    midi_strips: &[MidiStripDescriptor],
    table: &BTreeMap<u64, MixerStripControls>,
    defaults: MixerStripControls,
) -> (plan: Option<MixedAudioPlan>)
    requires
        routes_fit(soundfont_ids@.len() as int, blocks@.len() as int),
    ensures
        match plan {
            None => output_samples < 2,
            Some(plan) => output_samples >= 2 && plan.frames == output_samples as int / 2
                && plan.is_plan_of(
                plan_input(soundfont_ids@, blocks@, midi_strips@, table@, defaults),
            ),
        },
{
    let frames: usize = output_samples / 2;
    if frames == 0 {
        return None;
    }
    let routes = route_rendered_stems(soundfont_ids, blocks);
    let visible = visible_strips(soundfont_ids.len(), midi_strips, table, defaults);
    let silent = silence_candidates(&visible, &routes);
    let shown = shown_controls(&visible, &routes, table, defaults);
    Some(MixedAudioPlan { frames, routes, silent, shown })
}

/// What the mixer is handed. `tails` says of each silent strip of the plan
/// whether an effect of it is still sounding.
pub fn mixed_audio_inputs(
    plan: &MixedAudioPlan,
    soundfont_ids: &[String],
    blocks: &[StemBlock],
    midi_strips: &[MidiStripDescriptor],
    table: &BTreeMap<u64, MixerStripControls>,
    defaults: MixerStripControls,
    tails: &[bool],
) -> (inputs: Vec<MixerInputRoute>)
    requires
        plan.is_plan_of(plan_input(soundfont_ids@, blocks@, midi_strips@, table@, defaults)),
        tails@.len() == plan.silent@.len(),
    ensures
        input_views(inputs@) == mixer_inputs_of(
            plan.routes@,
            stem_views(blocks@),
            plan.shown@,
            table@,
            defaults,
            plan.silent@,
            tails@,
            texts(soundfont_ids@),
        ),
{
    proof {
        let input = plan_input(soundfont_ids@, blocks@, midi_strips@, table@, defaults);
        assert(soundfont_ids.len() <= usize::MAX);
        lemma_silent_slots(input);
        assert forall|i: int| 0 <= i < plan.routes@.len() implies (
        #[trigger] plan.routes@[i]).block_index < blocks@.len() by {
            assert(plan.routes@[i] == route_of(input.fonts, input.stems, i));
        }
        assert forall|i: int| 0 <= i < plan.silent@.len() implies (
        #[trigger] plan.silent@[i]).soundfont_slot < soundfont_ids@.len() by {
            assert(plan.silent@[i] == input.silent()[i]);
        }
    }
    mixer_inputs(
        soundfont_ids,
        blocks,
        &plan.routes,
        &plan.shown,
        table,
        defaults,
        &plan.silent,
        tails,
    )
}

/// The sizes of the buffers that a render call keeps between calls.
#[derive(Debug, Copy, Clone, PartialEq, Eq, Structural)]
pub struct RetainedBuffers {
    pub stem_bytes_before: usize,
    pub stem_bytes_after: usize,
    pub stem_audio_bytes: usize,
    pub route_capacity: usize,
    pub route_size: usize,
    pub input_capacity: usize,
    pub input_size: usize,
}

/// The sizes of a render call that mixed `inputs` inputs.
pub open spec fn render_buffers(
    plan: MixedAudioPlan,
    inputs: int,
    visuals: int,
    retained: RetainedBuffers,
) -> RenderBuffers {
    RenderBuffers {
        frames: plan.frames,
        rendered_blocks: plan.routes@.len() as usize,
        routed_blocks: inputs as usize,
        zero_fill_blocks: plan.silent@.len() as usize,
        visual_strips: visuals as usize,
        stem_audio_bytes: retained.stem_audio_bytes,
        stem_playback_growth_bytes: monus(
            retained.stem_bytes_after as int,
            retained.stem_bytes_before as int,
        ) as usize,
        routed_block_overhead: usize_cap(retained.route_capacity * retained.route_size) as usize,
        mixer_input_overhead: usize_cap(retained.input_capacity * retained.input_size) as usize,
    }
}

/// The report of one render call.
pub struct MixedAudioReport {
    pub frames: usize,
    pub strips: BTreeMap<u64, RealtimeStripSnapshot>,
    pub churn: RenderChurnSnapshot,
}

/// The report of a call whose buffer has no whole frame.
pub fn empty_mixed_audio_report() -> (report: MixedAudioReport)
    ensures
        report.frames == 0,
        report.strips@ == Map::<u64, RealtimeStripSnapshot>::empty(),
        report.churn == no_churn(),
{
    MixedAudioReport {
        frames: 0,
        strips: BTreeMap::new(),
        churn: RenderChurnSnapshot::default(),
    }
}

/// Ends a render call: what is shown of each strip, with the audibility that
/// the mixer reported, and the churn of the call.
pub fn finish_mixed_audio(
    plan: &MixedAudioPlan,
    soundfont_ids: &[String],
    blocks: &[StemBlock],
    midi_strips: &[MidiStripDescriptor],
    table: &BTreeMap<u64, MixerStripControls>,
    defaults: MixerStripControls,
    input_count: usize,
    reports: &[StripReport],
    stems: StemRenderAllocations,
    mixer: MixerAllocations,
    retained: RetainedBuffers,
) -> (report: MixedAudioReport)
    requires
        plan.is_plan_of(plan_input(soundfont_ids@, blocks@, midi_strips@, table@, defaults)),
    ensures
        report.frames == plan.frames,
        visual_map(report.strips@) == settled(
            visuals_of(plan.silent@, texts(soundfont_ids@), plan.routes@, stem_views(blocks@)),
            reports@,
        ),
        report.churn == mixed_churn(
            stems,
            mixer,
            render_buffers(
                *plan,
                input_count as int,
                visuals_of(
                    plan.silent@,
                    texts(soundfont_ids@),
                    plan.routes@,
                    stem_views(blocks@),
                ).dom().len() as int,
                retained,
            ),
        ),
{
    broadcast use vstd::std_specs::btree::group_btree_axioms;

    proof {
        let input = plan_input(soundfont_ids@, blocks@, midi_strips@, table@, defaults);
        assert(soundfont_ids.len() <= usize::MAX);
        lemma_silent_slots(input);
        assert forall|i: int| 0 <= i < plan.routes@.len() implies (
        #[trigger] plan.routes@[i]).block_index < blocks@.len() by {
            assert(plan.routes@[i] == route_of(input.fonts, input.stems, i));
        }
        assert forall|i: int| 0 <= i < plan.silent@.len() implies (
        #[trigger] plan.silent@[i]).soundfont_slot < soundfont_ids@.len() by {
            assert(plan.silent@[i] == input.silent()[i]);
        }
    }
    let mut strips = realtime_strips(soundfont_ids, blocks, &plan.routes, &plan.silent);
    let visual_strips: usize = strips.len();
    assert(visual_map(strips@).dom() =~= strips@.dom());
    let buffers = RenderBuffers {
        frames: plan.frames,
        rendered_blocks: plan.routes.len(),
        routed_blocks: input_count,
        zero_fill_blocks: plan.silent.len(),
        visual_strips,
        stem_audio_bytes: retained.stem_audio_bytes,
        stem_playback_growth_bytes: retained.stem_bytes_after.saturating_sub(
            retained.stem_bytes_before,
        ),
        routed_block_overhead: saturating_mul_usize(retained.route_capacity, retained.route_size),
        mixer_input_overhead: saturating_mul_usize(retained.input_capacity, retained.input_size),
    };
    settle_audibility(&mut strips, reports);
    MixedAudioReport {
        frames: plan.frames,
        strips,
        churn: mixed_render_churn(stems, mixer, buffers),
    }
}

/// Every visible strip is either rendered or among the silent ones, and no
/// silent strip is rendered.
pub proof fn visible_strips_are_rendered_or_silent(input: PlanInput)
    ensures
        forall|j: int|
            0 <= j < input.visible().len() ==> is_rendered(
                input.routes(),
                (#[trigger] input.visible()[j]).strip_id,
            ) || input.silent().contains(input.visible()[j]),
        forall|i: int|
            0 <= i < input.silent().len() ==> !is_rendered(
                input.routes(),
                (#[trigger] input.silent()[i]).strip_id,
            ),
{
    lemma_silent_are_visible(input.visible(), input.routes());
}

/// The mixer gets each rendered stem exactly once, in order and ahead of the
/// silent strips, and only soloed or still sounding silent strips.
pub proof fn mixer_gets_each_stem_once(input: PlanInput, tails: Seq<bool>)
    requires
        tails.len() == input.silent().len(),
        input.stems.len() <= usize::MAX,
    ensures
        ({
            let inputs = mixer_inputs_of(
                input.routes(),
                input.stems,
                input.shown(),
                input.table,
                input.defaults,
                input.silent(),
                tails,
                input.fonts,
            );
            &&& input.stems.len() <= inputs.len() <= input.stems.len() + input.silent().len()
            &&& forall|i: int|
                0 <= i < input.stems.len() ==> (#[trigger] inputs[i]).rendered_route_index == Some(
                    i as usize,
                ) && inputs[i].font == input.stems[i].font
            &&& forall|i: int|
                input.stems.len() <= i < inputs.len() ==> (
                #[trigger] inputs[i]).rendered_route_index is None
        }),
{
    lemma_silent_inputs(input.silent(), tails, input.fonts);
    assert forall|i: int| 0 <= i < input.stems.len() implies input.routes()[i].block_index == i by {
        assert(input.routes()[i] == route_of(input.fonts, input.stems, i));
    }
}

proof fn lemma_silent_inputs(silent: Seq<VisibleStrip>, tails: Seq<bool>, fonts: Seq<Seq<char>>)
    ensures
        silent_inputs(silent, tails, fonts).len() <= silent.len(),
        forall|i: int|
            0 <= i < silent_inputs(silent, tails, fonts).len() ==> (
            #[trigger] silent_inputs(silent, tails, fonts)[i]).rendered_route_index is None,
    decreases silent.len(),
{
    if silent.len() > 0 {
        lemma_silent_inputs(silent.drop_last(), tails, fonts);
        let before = silent_inputs(silent.drop_last(), tails, fonts);
        let now = silent_inputs(silent, tails, fonts);
        assert forall|i: int| 0 <= i < now.len() implies (
        #[trigger] now[i]).rendered_route_index is None by {
            if i < before.len() {
                assert(now[i] == before[i]);
            }
        }
    }
}

/// A stem of a loaded soundfont keeps the slot that the soundfont has among the
/// loaded ones.
pub proof fn loaded_fonts_keep_their_slot(
    fonts: Seq<Seq<char>>,
    stems: Seq<StemView>,
    i: int,
    k: int,
)
    requires
        fonts.no_duplicates(),
        fonts.len() <= usize::MAX,
        0 <= i < stems.len(),
        0 <= k < fonts.len(),
        stems[i].font == fonts[k],
    ensures
        route_of(fonts, stems, i).soundfont_slot == k,
{
    lemma_loaded_slot(fonts, k);
    lemma_slots_persist(fonts, stems, i + 1, fonts[k]);
}

proof fn lemma_loaded_slot(fonts: Seq<Seq<char>>, k: int)
    requires
        fonts.no_duplicates(),
        fonts.len() <= usize::MAX,
        0 <= k < fonts.len(),
    ensures
        loaded_slots(fonts).contains_key(fonts[k]),
        loaded_slots(fonts)[fonts[k]] == k,
    decreases fonts.len(),
{
    if k < fonts.len() - 1 {
        assert(fonts.drop_last()[k] == fonts[k]);
        lemma_loaded_slot(fonts.drop_last(), k);
    }
}

proof fn lemma_slots_persist(
    fonts: Seq<Seq<char>>,
    stems: Seq<StemView>,
    n: int,
    font: Seq<char>,
)
    requires
        loaded_slots(fonts).contains_key(font),
        0 <= n,
    ensures
        slots_through(fonts, stems, n).contains_key(font),
        slots_through(fonts, stems, n)[font] == loaded_slots(fonts)[font],
    decreases n,
{
    if n > 0 {
        lemma_slots_persist(fonts, stems, n - 1, font);
    }
}

/// The mixer gets every rendered stem under its own index, with the soundfont, the channel
/// and the program that it was rendered from. A stem of a channel, of a program or of
/// percussion comes with what the user has set for its strip, muted where the user muted
/// it, and only a strip for which nothing is set comes with the defaults.
pub proof fn stems_reach_the_mixer_with_their_controls(
    soundfont_ids: Seq<String>,
    blocks: Seq<StemBlock>,
    midi_strips: Seq<MidiStripDescriptor>,
    table: Map<u64, MixerStripControls>,
    defaults: MixerStripControls,
    plan: MixedAudioPlan,
    tails: Seq<bool>,
    inputs: Seq<MixerInputRoute>,
    i: int,
)
    requires
        plan.is_plan_of(plan_input(soundfont_ids, blocks, midi_strips, table, defaults)),
        tails.len() == plan.silent@.len(),
        input_views(inputs) == mixer_inputs_of(
            plan.routes@,
            stem_views(blocks),
            plan.shown@,
            table,
            defaults,
            plan.silent@,
            tails,
            texts(soundfont_ids),
        ),
        blocks.len() <= usize::MAX,
        0 <= i < blocks.len(),
    ensures
        blocks.len() <= inputs.len(),
        inputs[i].rendered_route_index == Some(i as usize),
        inputs[i].soundfont_id@ == blocks[i].identity.soundfont_id@,
        blocks[i].identity.midi_channel is Some ==> blocks[i].identity.midi_channel == Some(
            inputs[i].midi_channel,
        ),
        blocks[i].identity.midi_program is Some ==> blocks[i].identity.midi_program == Some(
            inputs[i].midi_program,
        ),
        inputs[i].is_percussion == blocks[i].identity.is_percussion,
        blocks[i].identity.midi_channel is Some || blocks[i].identity.midi_program is Some
            || blocks[i].identity.is_percussion ==> {
            &&& inputs[i].automatic_processing
            &&& table.contains_key(inputs[i].strip_id) ==> inputs[i].controls
                == table[inputs[i].strip_id]
            &&& !table.contains_key(inputs[i].strip_id) ==> inputs[i].controls == defaults
        },
        blocks[i].identity.midi_channel is None && blocks[i].identity.midi_program is None
            && !blocks[i].identity.is_percussion ==> !inputs[i].automatic_processing
            && inputs[i].controls.levels == defaults.levels,
{
    let input = plan_input(soundfont_ids, blocks, midi_strips, table, defaults);
    mixer_gets_each_stem_once(input, tails);
    assert(plan.routes@[i] == route_of(input.fonts, input.stems, i));
    assert(input.stems[i] == blocks[i]@);
    assert(input_views(inputs)[i] == inputs[i]@);
    assert(input_views(inputs).len() == inputs.len());
}

/// A stem of a soundfont that is loaded once has the strip number of that soundfont's row
/// and of its channel, bank and program, so that what is set for the strip is found again.
pub proof fn stems_belong_to_the_strip_of_their_font(
    soundfont_ids: Seq<String>,
    blocks: Seq<StemBlock>,
    i: int,
    k: int,
    channel: u8,
    bank: u16,
    program: u8,
)
    requires
        texts(soundfont_ids).no_duplicates(),
        routes_fit(soundfont_ids.len() as int, blocks.len() as int),
        0 <= i < blocks.len(),
        0 <= k < soundfont_ids.len(),
        blocks[i].identity.soundfont_id@ == soundfont_ids[k]@,
        blocks[i].identity.midi_channel == Some(channel),
        blocks[i].identity.midi_bank == Some(bank),
        blocks[i].identity.midi_program == Some(program),
    ensures
        ({
            let route = routes_of(texts(soundfont_ids), stem_views(blocks))[i];
            &&& route.soundfont_slot == k
            &&& route.block_index == i
            &&& !route.is_global_residual
            &&& route.strip_id == (k + 1) * 100_000 + (if blocks[i].identity.is_percussion {
                50_000int
            } else {
                0
            }) + channel * 16_384 + bank * 128 + program + 1
        }),
{
    let fonts = texts(soundfont_ids);
    let stems = stem_views(blocks);
    assert(stems[i] == blocks[i]@);
    assert(fonts[k] == soundfont_ids[k]@);
    loaded_fonts_keep_their_slot(fonts, stems, i, k);
    assert(route_of(fonts, stems, i).soundfont_slot == k);
}

/// Behind the stems the mixer gets strips that have none: each is one of a loaded soundfont
/// and of a role of the file, comes with what the user has set for it, and is soloed or
/// still sounds.
pub proof fn silent_strips_reach_the_mixer_with_their_controls(
    input: PlanInput,
    tails: Seq<bool>,
    i: int,
)
    requires
        input.fonts.len() <= usize::MAX,
        input.stems.len() <= usize::MAX,
        tails.len() == input.silent().len(),
    ensures
        ({
            let inputs = mixer_inputs_of(
                input.routes(),
                input.stems,
                input.shown(),
                input.table,
                input.defaults,
                input.silent(),
                tails,
                input.fonts,
            );
            input.stems.len() <= i < inputs.len() ==> {
                let handed = inputs[i];
                &&& input.fonts.contains(handed.font)
                &&& !is_rendered(input.routes(), handed.strip_id)
                &&& input.table.contains_key(handed.strip_id) ==> handed.controls
                    == input.table[handed.strip_id]
                &&& !input.table.contains_key(handed.strip_id) ==> handed.controls
                    == input.defaults
                &&& exists|j: int|
                    0 <= j < input.silent().len() && (#[trigger] input.silent()[j]).strip_id
                        == handed.strip_id && (handed.controls.solo || tails[j])
                &&& exists|r: int|
                    0 <= r < input.strips.len() && (#[trigger] input.strips[r]).channel
                        == handed.channel && input.strips[r].program == handed.program
                        && input.strips[r].is_percussion == handed.is_percussion
            }
        }),
{
    let inputs = mixer_inputs_of(
        input.routes(),
        input.stems,
        input.shown(),
        input.table,
        input.defaults,
        input.silent(),
        tails,
        input.fonts,
    );
    if input.stems.len() <= i < inputs.len() {
        let n = i - input.stems.len();
        assert(inputs[i] == silent_inputs(input.silent(), tails, input.fonts)[n]);
        lemma_silent_input_origin(input.silent(), tails, input.fonts, n);
        let j = choose|j: int|
            0 <= j < input.silent().len() && inputs[i] == silent_input(
                #[trigger] input.silent()[j],
                input.fonts,
            ) && (input.silent()[j].controls.solo || tails[j]);
        lemma_silent_are_visible(input.visible(), input.routes());
        lemma_silent_slots(input);
        let v = choose|v: int|
            0 <= v < input.visible().len() && input.visible()[v] == input.silent()[j];
        lemma_visible_origin(input.fonts.len(), input.strips, input.table, input.defaults, v);
        assert(input.fonts[input.silent()[j].soundfont_slot as int] == inputs[i].font);
    }
}

proof fn lemma_silent_input_origin(
    silent: Seq<VisibleStrip>,
    tails: Seq<bool>,
    fonts: Seq<Seq<char>>,
    n: int,
)
    requires
        0 <= n < silent_inputs(silent, tails, fonts).len(),
    ensures
        exists|j: int|
            0 <= j < silent.len() && silent_inputs(silent, tails, fonts)[n] == silent_input(
                #[trigger] silent[j],
                fonts,
            ) && (silent[j].controls.solo || tails[j]),
    decreases silent.len(),
{
    let shorter = silent.drop_last();
    let before = silent_inputs(shorter, tails, fonts);
    if n < before.len() {
        lemma_silent_input_origin(shorter, tails, fonts, n);
        let j = choose|j: int|
            0 <= j < shorter.len() && before[n] == silent_input(#[trigger] shorter[j], fonts) && (
            shorter[j].controls.solo || tails[j]);
        assert(silent[j] == shorter[j]);
    } else {
        assert(silent[silent.len() - 1] == silent.last());
    }
}

/// Each strip is that of a soundfont and a role, with what is set for it.
proof fn lemma_visible_origin(
    fonts: nat,
    strips: Seq<MidiStripDescriptor>,
    table: Map<u64, MixerStripControls>,
    defaults: MixerStripControls,
    v: int,
)
    requires
        0 <= v < visible_strips_of(fonts, strips, table, defaults).len(),
    ensures
        ({
            let strip = visible_strips_of(fonts, strips, table, defaults)[v];
            &&& table.contains_key(strip.strip_id) ==> strip.controls == table[strip.strip_id]
            &&& !table.contains_key(strip.strip_id) ==> strip.controls == defaults
            &&& strips.contains(strip.descriptor)
        }),
    decreases fonts,
{
    if fonts > 0 {
        let before = visible_strips_of((fonts - 1) as nat, strips, table, defaults);
        if v < before.len() {
            lemma_visible_origin((fonts - 1) as nat, strips, table, defaults, v);
        } else {
            let s = v - before.len();
            assert(font_strips(fonts - 1, strips, table, defaults)[s] == visible_strip(
                fonts - 1,
                strips[s],
                table,
                defaults,
            ));
            assert(strips[s] == strips[s]);
        }
    }
}

/// The strip of a loaded soundfont and a role of the file is visible.
proof fn lemma_strip_is_visible(
    fonts: nat,
    strips: Seq<MidiStripDescriptor>,
    table: Map<u64, MixerStripControls>,
    defaults: MixerStripControls,
    k: int,
    r: int,
)
    requires
        0 <= k < fonts,
        0 <= r < strips.len(),
    ensures
        visible_strips_of(fonts, strips, table, defaults).contains(
            visible_strip(k, strips[r], table, defaults),
        ),
    decreases fonts,
{
    let before = visible_strips_of((fonts - 1) as nat, strips, table, defaults);
    let now = visible_strips_of(fonts, strips, table, defaults);
    let wanted = visible_strip(k, strips[r], table, defaults);
    if k < fonts - 1 {
        lemma_strip_is_visible((fonts - 1) as nat, strips, table, defaults, k, r);
        let v = choose|v: int| 0 <= v < before.len() && before[v] == wanted;
        assert(now[v] == wanted);
    } else {
        assert(font_strips(k, strips, table, defaults)[r] == wanted);
        assert(now[before.len() + r] == wanted);
    }
}

/// A strip that the user soloed is handed to the mixer even while it is silent, so that the
/// others are not heard.
pub proof fn soloed_strips_always_reach_the_mixer(input: PlanInput, tails: Seq<bool>, k: int, r: int)
    requires
        input.fonts.len() <= usize::MAX,
        slot_fits(input.fonts.len() as int),
        tails.len() == input.silent().len(),
        0 <= k < input.fonts.len(),
        0 <= r < input.strips.len(),
    ensures
        ({
            let id = ((k + 1) * 100_000 + (if input.strips[r].is_percussion {
                50_000int
            } else {
                0
            }) + input.strips[r].channel * 16_384 + input.strips[r].bank * 128
                + input.strips[r].program + 1) as u64;
            let inputs = mixer_inputs_of(
                input.routes(),
                input.stems,
                input.shown(),
                input.table,
                input.defaults,
                input.silent(),
                tails,
                input.fonts,
            );
            input.table.contains_key(id) && input.table[id].solo ==> exists|i: int|
                0 <= i < inputs.len() && (#[trigger] inputs[i]).strip_id == id
        }),
{
    let strip = visible_strip(k, input.strips[r], input.table, input.defaults);
    lemma_strip_is_visible(input.fonts.len(), input.strips, input.table, input.defaults, k, r);
    lemma_silent_are_visible(input.visible(), input.routes());
    let v = choose|v: int| 0 <= v < input.visible().len() && input.visible()[v] == strip;
    let inputs = mixer_inputs_of(
        input.routes(),
        input.stems,
        input.shown(),
        input.table,
        input.defaults,
        input.silent(),
        tails,
        input.fonts,
    );
    if input.table.contains_key(strip.strip_id) && input.table[strip.strip_id].solo {
        if is_rendered(input.routes(), strip.strip_id) {
            let i = choose|i: int|
                0 <= i < input.routes().len() && (#[trigger] input.routes()[i]).strip_id
                    == strip.strip_id;
            assert(inputs[i].strip_id == strip.strip_id);
        } else {
            let j = choose|j: int| 0 <= j < input.silent().len() && input.silent()[j] == strip;
            lemma_soloed_input(input.silent(), tails, input.fonts, j);
            let n = choose|n: int|
                0 <= n < silent_inputs(input.silent(), tails, input.fonts).len()
                    && (#[trigger] silent_inputs(input.silent(), tails, input.fonts)[n]).strip_id
                    == strip.strip_id;
            assert(inputs[input.routes().len() + n].strip_id == strip.strip_id);
        }
    }
}

proof fn lemma_soloed_input(
    silent: Seq<VisibleStrip>,
    tails: Seq<bool>,
    fonts: Seq<Seq<char>>,
    j: int,
)
    requires
        0 <= j < silent.len(),
        silent[j].controls.solo || tails[j],
    ensures
        exists|n: int|
            0 <= n < silent_inputs(silent, tails, fonts).len() && (#[trigger] silent_inputs(
                silent,
                tails,
                fonts,
            )[n]).strip_id == silent[j].strip_id,
    decreases silent.len(),
{
    let shorter = silent.drop_last();
    let before = silent_inputs(shorter, tails, fonts);
    let now = silent_inputs(silent, tails, fonts);
    if j < shorter.len() {
        assert(shorter[j] == silent[j]);
        lemma_soloed_input(shorter, tails, fonts, j);
        let n = choose|n: int|
            0 <= n < before.len() && (#[trigger] before[n]).strip_id == silent[j].strip_id;
        assert(now[n].strip_id == silent[j].strip_id);
    } else {
        assert(now[before.len() as int].strip_id == silent[j].strip_id);
    }
}

/// What the channels of a soundfont share is muted with any of its strips, is muted where
/// only some of them are soloed, and is soloed only with all of them.
pub proof fn shared_stem_follows_its_strips(
    controls: Seq<MixerStripControls>,
    defaults: MixerStripControls,
    i: int,
    j: int,
)
    requires
        0 <= i < controls.len(),
        0 <= j < controls.len(),
    ensures
        controls[i].mute ==> residual_controls(controls, defaults).mute,
        controls[i].solo && !controls[j].solo ==> residual_controls(controls, defaults).mute,
        !controls[i].solo ==> !residual_controls(controls, defaults).solo,
        (forall|n: int| 0 <= n < controls.len() ==> (#[trigger] controls[n]).solo)
            ==> residual_controls(controls, defaults).solo,
        (forall|n: int|
            0 <= n < controls.len() ==> !(#[trigger] controls[n]).mute && controls[n].solo
                == controls[i].solo) ==> !residual_controls(controls, defaults).mute,
        residual_controls(controls, defaults).levels == defaults.levels,
{
}

/// What the channels of a loaded soundfont share is muted where the user muted one of its
/// strips.
pub proof fn muted_strip_mutes_the_shared_stem(input: PlanInput, tails: Seq<bool>, i: int, k: int, r: int)
    requires
        input.fonts.no_duplicates(),
        input.fonts.len() <= usize::MAX,
        slot_fits(input.fonts.len() as int),
        tails.len() == input.silent().len(),
        0 <= i < input.stems.len(),
        0 <= k < input.fonts.len(),
        0 <= r < input.strips.len(),
        input.stems[i].font == input.fonts[k],
        input.stems[i].channel is None,
        input.stems[i].program is None,
        !input.stems[i].is_percussion,
    ensures
        ({
            let id = ((k + 1) * 100_000 + (if input.strips[r].is_percussion {
                50_000int
            } else {
                0
            }) + input.strips[r].channel * 16_384 + input.strips[r].bank * 128
                + input.strips[r].program + 1) as u64;
            let inputs = mixer_inputs_of(
                input.routes(),
                input.stems,
                input.shown(),
                input.table,
                input.defaults,
                input.silent(),
                tails,
                input.fonts,
            );
            &&& input.table.contains_key(id) && input.table[id].mute ==> inputs[i].controls.mute
            &&& input.table.contains_key(id) && !input.table[id].solo
                ==> !inputs[i].controls.solo
        }),
{
    let strip = visible_strip(k, input.strips[r], input.table, input.defaults);
    lemma_strip_is_visible(input.fonts.len(), input.strips, input.table, input.defaults, k, r);
    let v = choose|v: int| 0 <= v < input.visible().len() && input.visible()[v] == strip;
    loaded_fonts_keep_their_slot(input.fonts, input.stems, i, k);
    lemma_visible_is_shown(
        input.visible(),
        input.routes(),
        input.routes().len() as int,
        input.table,
        input.defaults,
        v,
    );
    lemma_slot_controls_contain(input.shown(), v);
    let controls = slot_controls(input.shown(), k as usize);
    let c = choose|c: int| 0 <= c < controls.len() && controls[c] == strip.controls;
    shared_stem_follows_its_strips(controls, input.defaults, c, c);
    assert(input.routes()[i] == route_of(input.fonts, input.stems, i));
}

proof fn lemma_visible_is_shown(
    visible: Seq<VisibleStrip>,
    routes: Seq<RoutedStemRoute>,
    n: int,
    table: Map<u64, MixerStripControls>,
    defaults: MixerStripControls,
    v: int,
)
    requires
        0 <= v < visible.len(),
        0 <= n <= routes.len(),
    ensures
        visible.len() <= shown_controls_of(visible, routes, n, table, defaults).len(),
        shown_controls_of(visible, routes, n, table, defaults)[v] == (
            visible[v].soundfont_slot,
            visible[v].controls,
        ),
    decreases n,
{
    if n > 0 {
        lemma_visible_is_shown(visible, routes, n - 1, table, defaults, v);
    }
}

proof fn lemma_slot_controls_contain(shown: Seq<(usize, MixerStripControls)>, v: int)
    requires
        0 <= v < shown.len(),
    ensures
        slot_controls(shown, shown[v].0).contains(shown[v].1),
    decreases shown.len(),
{
    let shorter = shown.drop_last();
    let before = slot_controls(shorter, shown[v].0);
    let now = slot_controls(shown, shown[v].0);
    if v < shorter.len() {
        assert(shorter[v] == shown[v]);
        lemma_slot_controls_contain(shorter, v);
        let c = choose|c: int| 0 <= c < before.len() && before[c] == shown[v].1;
        assert(now[c] == shown[v].1);
    } else {
        assert(now[before.len() as int] == shown[v].1);
    }
}

/// A render call is measured by its plan: its frames, one block for each route, one zero
/// block for each silent strip, and by how much its buffers grew.
pub proof fn render_calls_are_measured_by_their_plan(
    plan: MixedAudioPlan,
    inputs: usize,
    visuals: usize,
    retained: RetainedBuffers,
)
    ensures
        ({
            let buffers = render_buffers(plan, inputs as int, visuals as int, retained);
            &&& buffers.frames == plan.frames
            &&& plan.routes@.len() <= usize::MAX ==> buffers.rendered_blocks == plan.routes@.len()
            &&& plan.silent@.len() <= usize::MAX ==> buffers.zero_fill_blocks
                == plan.silent@.len()
            &&& buffers.routed_blocks == inputs
            &&& buffers.visual_strips == visuals
            &&& buffers.stem_audio_bytes == retained.stem_audio_bytes
            &&& retained.stem_bytes_after >= retained.stem_bytes_before
                ==> buffers.stem_playback_growth_bytes + retained.stem_bytes_before
                == retained.stem_bytes_after
            &&& retained.stem_bytes_after <= retained.stem_bytes_before
                ==> buffers.stem_playback_growth_bytes == 0
            &&& retained.route_capacity * retained.route_size <= usize::MAX
                ==> buffers.routed_block_overhead == retained.route_capacity * retained.route_size
            &&& retained.input_capacity * retained.input_size <= usize::MAX
                ==> buffers.mixer_input_overhead == retained.input_capacity * retained.input_size
        }),
{
    assert(retained.route_capacity * retained.route_size >= 0) by (nonlinear_arith);
    assert(retained.input_capacity * retained.input_size >= 0) by (nonlinear_arith);
}

} // verus!
