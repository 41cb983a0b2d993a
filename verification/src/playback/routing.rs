//! Render routing: which strip each rendered stem belongs to, which strips stay
//! silent, and what the mixer is handed for each of them.
use crate::level::{above_epsilon, Level};
use crate::playback::strips::{is_global_residual_stem, is_residual, slot_fits, stem_number};
use crate::playback::strips::{stem_strip_id, MidiStripDescriptor, MixerStripControls, StemIdentity};
use crate::text::texts;
use crate::text_map::TextMap;
use std::collections::{BTreeMap, BTreeSet};
use vstd::prelude::*;
use vstd::std_specs::btree::*;

verus! {

/// The peak and the mean level of a block.
#[derive(Debug, Copy, Clone, PartialEq, Eq, Structural)]
pub struct MeterReading {
    pub peak: Level,
    pub rms: Level,
}

/// One stem as it was rendered: where it comes from and what was measured on it.
#[derive(Debug)]
pub struct StemBlock {
    pub identity: StemIdentity,
    pub display_name: Option<String>,
    pub active_notes: Vec<u8>,
    pub meter: MeterReading,
}

/// The strip that a rendered stem belongs to.
#[derive(Debug, Copy, Clone, PartialEq, Eq, Structural)]
pub struct RoutedStemRoute {
    pub block_index: usize,
    pub soundfont_slot: usize,
    pub strip_id: u64,
    pub is_global_residual: bool,
}

/// One strip that the mixer shows: a soundfont and a role of the MIDI file.
#[derive(Debug, Copy, Clone, PartialEq, Eq, Structural)]
pub struct VisibleStrip {
    pub soundfont_slot: usize,
    pub descriptor: MidiStripDescriptor,
    pub strip_id: u64,
    pub controls: MixerStripControls,
}

/// What the mixer is handed for one strip.
#[derive(Debug)]
pub struct MixerInputRoute {
    pub rendered_route_index: Option<usize>,
    pub strip_id: u64,
    pub soundfont_id: String,
    pub midi_channel: u8,
    pub midi_program: u8,
    pub is_percussion: bool,
    pub controls: MixerStripControls,
    pub automatic_processing: bool,
}

/// What the mixer shows of one strip.
#[derive(Debug)]
pub struct RealtimeStripSnapshot {
    pub soundfont_id: String,
    pub midi_channel: u8,
    pub midi_bank: u16,
    pub midi_program: u8,
    pub is_percussion: bool,
    pub display_name: Option<String>,
    pub meter: MeterReading,
    pub audible: bool,
    pub active_notes: Vec<u8>,
}

/// The contents of a `StemBlock`.
pub ghost struct StemView {
    pub font: Seq<char>,
    pub channel: Option<u8>,
    pub bank: Option<u16>,
    pub program: Option<u8>,
    pub is_percussion: bool,
    pub display_name: Option<Seq<char>>,
    pub active_notes: Seq<u8>,
    pub meter: MeterReading,
}

/// The contents of a `MixerInputRoute`.
pub ghost struct InputView {
    pub rendered_route_index: Option<usize>,
    pub strip_id: u64,
    pub font: Seq<char>,
    pub channel: u8,
    pub program: u8,
    pub is_percussion: bool,
    pub controls: MixerStripControls,
    pub automatic_processing: bool,
}

/// The contents of a `RealtimeStripSnapshot`.
pub ghost struct StripVisual {
    pub font: Seq<char>,
    pub channel: u8,
    pub bank: u16,
    pub program: u8,
    pub is_percussion: bool,
    pub display_name: Option<Seq<char>>,
    pub meter: MeterReading,
    pub audible: bool,
    pub active_notes: Seq<u8>,
}

impl View for StemBlock {
    type V = StemView;

    open spec fn view(&self) -> StemView {
        StemView {
            font: self.identity.soundfont_id@,
            channel: self.identity.midi_channel,
            bank: self.identity.midi_bank,
            program: self.identity.midi_program,
            is_percussion: self.identity.is_percussion,
            display_name: crate::json::optional_text(self.display_name),
            active_notes: self.active_notes@,
            meter: self.meter,
        }
    }
}

impl View for MixerInputRoute {
    type V = InputView;

    open spec fn view(&self) -> InputView {
        InputView {
            rendered_route_index: self.rendered_route_index,
            strip_id: self.strip_id,
            font: self.soundfont_id@,
            channel: self.midi_channel,
            program: self.midi_program,
            is_percussion: self.is_percussion,
            controls: self.controls,
            automatic_processing: self.automatic_processing,
        }
    }
}

impl View for RealtimeStripSnapshot {
    type V = StripVisual;

    open spec fn view(&self) -> StripVisual {
        StripVisual {
            font: self.soundfont_id@,
            channel: self.midi_channel,
            bank: self.midi_bank,
            program: self.midi_program,
            is_percussion: self.is_percussion,
            display_name: crate::json::optional_text(self.display_name),
            meter: self.meter,
            audible: self.audible,
            active_notes: self.active_notes@,
        }
    }
}

/// The contents of rendered stems.
pub open spec fn stem_views(blocks: Seq<StemBlock>) -> Seq<StemView> {
    blocks.map_values(|block: StemBlock| block@)
}

/// The slots of the loaded soundfonts; the last position of an id counts.
pub open spec fn loaded_slots(fonts: Seq<Seq<char>>) -> Map<Seq<char>, usize>
    decreases fonts.len(),
{
    if fonts.len() == 0 {
        Map::empty()
    } else {
        loaded_slots(fonts.drop_last()).insert(fonts.last(), (fonts.len() - 1) as usize)
    }
}

/// The slots after the first `n` stems: a soundfont without a slot gets the next
/// free number.
pub open spec fn slots_through(
    fonts: Seq<Seq<char>>,
    stems: Seq<StemView>,
    n: int,
) -> Map<Seq<char>, usize>
    decreases n,
{
    if n <= 0 {
        loaded_slots(fonts)
    } else {
        let before = slots_through(fonts, stems, n - 1);
        let font = stems[n - 1].font;
        if before.contains_key(font) {
            before
        } else {
            before.insert(font, before.dom().len() as usize)
        }
    }
}

/// The route of stem `i`.
pub open spec fn route_of(fonts: Seq<Seq<char>>, stems: Seq<StemView>, i: int) -> RoutedStemRoute {
    let stem = stems[i];
    let slot = slots_through(fonts, stems, i + 1)[stem.font];
    RoutedStemRoute {
        block_index: i as usize,
        soundfont_slot: slot,
        strip_id: stem_number(
            slot as int,
            stem.channel,
            stem.bank,
            stem.program,
            stem.is_percussion,
        ) as u64,
        is_global_residual: is_residual(stem.channel, stem.program, stem.is_percussion),
    }
}

/// The routes of all stems.
pub open spec fn routes_of(fonts: Seq<Seq<char>>, stems: Seq<StemView>) -> Seq<RoutedStemRoute> {
    Seq::new(stems.len(), |i: int| route_of(fonts, stems, i))
}

/// Every slot is below the number of soundfonts and stems.
proof fn lemma_slots_bounded(fonts: Seq<Seq<char>>, stems: Seq<StemView>, n: int)
    requires
        0 <= n <= stems.len(),
        fonts.len() + stems.len() <= usize::MAX,
    ensures
        slots_through(fonts, stems, n).dom().finite(),
        slots_through(fonts, stems, n).dom().len() <= fonts.len() + n,
        forall|k: Seq<char>| #[trigger]
            slots_through(fonts, stems, n).contains_key(k) ==> slots_through(fonts, stems, n)[k]
                < fonts.len() + n,
    decreases fonts.len() + n,
{
    if n > 0 {
        lemma_slots_bounded(fonts, stems, n - 1);
    } else if fonts.len() > 0 {
        let shorter = fonts.drop_last();
        lemma_slots_bounded(shorter, stems, 0);
        assert(slots_through(shorter, stems, 0) == loaded_slots(shorter));
    }
}

/// Whether the slots of this many soundfonts and stems have strip numbers that
/// fit in 64 bits.
pub open spec fn routes_fit(fonts: int, stems: int) -> bool {
    fonts + stems <= usize::MAX && slot_fits(fonts + stems)
}

fn loaded_slot_map(soundfont_ids: &[String]) -> (slots: TextMap<usize>)
    ensures
        slots.wf(),
        slots@ == loaded_slots(texts(soundfont_ids@)),
{
    let mut slots: TextMap<usize> = TextMap::new();
    let mut i: usize = 0;
    while i < soundfont_ids.len()
        invariant
            i <= soundfont_ids.len(),
            slots.wf(),
            slots@ == loaded_slots(texts(soundfont_ids@).take(i as int)),
        decreases soundfont_ids.len() - i,
    {
        slots.insert(soundfont_ids[i].clone(), i);
        i = i + 1;
        let ghost now = texts(soundfont_ids@).take(i as int);
        assert(now.drop_last() =~= texts(soundfont_ids@).take(i - 1));
        assert(now.last() == soundfont_ids@[i - 1]@);
    }
    assert(texts(soundfont_ids@).take(i as int) =~= texts(soundfont_ids@));
    slots
}

/// Routes every rendered stem to its strip. Soundfonts that are not among the
/// loaded ones get slots of their own, in the order in which they appear.
pub fn route_rendered_stems(soundfont_ids: &[String], blocks: &[StemBlock]) -> (routes: Vec<
    RoutedStemRoute,
>)
    requires
        routes_fit(soundfont_ids@.len() as int, blocks@.len() as int),
    ensures
        routes@ == routes_of(texts(soundfont_ids@), stem_views(blocks@)),
{
    let ghost fonts = texts(soundfont_ids@);
    let ghost stems = stem_views(blocks@);
    let mut slots = loaded_slot_map(soundfont_ids);
    let mut routes: Vec<RoutedStemRoute> = Vec::new();
    let mut i: usize = 0;
    while i < blocks.len()
        invariant
            i <= blocks.len(),
            fonts == texts(soundfont_ids@),
            stems == stem_views(blocks@),
            routes_fit(soundfont_ids@.len() as int, blocks@.len() as int),
            slots.wf(),
            slots@ == slots_through(fonts, stems, i as int),
            routes@ == routes_of(fonts, stems).take(i as int),
        decreases blocks.len() - i,
    {
        let ghost before = slots@;
        assert(stems[i as int].font == blocks@[i as int].identity.soundfont_id@);
        proof {
            lemma_slots_bounded(fonts, stems, i as int);
            lemma_slots_bounded(fonts, stems, i + 1);
        }
        let next_slot: usize = slots.len();
        let slot: usize = match slots.get(blocks[i].identity.soundfont_id.as_str()) {
            Some(slot) => *slot,
            None => next_slot,
        };
        if !slots.contains_key(blocks[i].identity.soundfont_id.as_str()) {
            slots.insert(blocks[i].identity.soundfont_id.clone(), slot);
        }
        assert(slots@ == slots_through(fonts, stems, i + 1));
        assert(slots@[stems[i as int].font] == slot);
        routes.push(
            RoutedStemRoute {
                block_index: i,
                soundfont_slot: slot,
                strip_id: stem_strip_id(slot, &blocks[i].identity),
                is_global_residual: is_global_residual_stem(&blocks[i].identity),
            },
        );
        i = i + 1;
        assert(routes@ =~= routes_of(fonts, stems).take(i as int));
    }
    assert(routes@ =~= routes_of(fonts, stems));
    routes
}

/// The controls of a strip: those set for it, or the defaults.
pub open spec fn controls_of(
    table: Map<u64, MixerStripControls>,
    defaults: MixerStripControls,
    strip_id: u64,
) -> MixerStripControls {
    if table.contains_key(strip_id) {
        table[strip_id]
    } else {
        defaults
    }
}

pub fn strip_controls(
    table: &BTreeMap<u64, MixerStripControls>,
    defaults: MixerStripControls,
    strip_id: u64,
) -> (controls: MixerStripControls)
    ensures
        controls == controls_of(table@, defaults, strip_id),
{
    broadcast use vstd::std_specs::btree::group_btree_axioms;

    match table.get(&strip_id) {
        Some(controls) => *controls,
        None => defaults,
    }
}

/// The strip of one soundfont slot and one role of the MIDI file.
pub open spec fn visible_strip(
    slot: int,
    descriptor: MidiStripDescriptor,
    table: Map<u64, MixerStripControls>,
    defaults: MixerStripControls,
) -> VisibleStrip {
    let strip_id = stem_number(
        slot,
        Some(descriptor.channel),
        Some(descriptor.bank),
        Some(descriptor.program),
        descriptor.is_percussion,
    ) as u64;
    VisibleStrip {
        soundfont_slot: slot as usize,
        descriptor,
        strip_id,
        controls: controls_of(table, defaults, strip_id),
    }
}

/// The strips of one soundfont slot.
pub open spec fn font_strips(
    slot: int,
    strips: Seq<MidiStripDescriptor>,
    table: Map<u64, MixerStripControls>,
    defaults: MixerStripControls,
) -> Seq<VisibleStrip> {
    strips.map_values(|d: MidiStripDescriptor| visible_strip(slot, d, table, defaults))
}

/// The strips of the first `fonts` soundfont slots.
pub open spec fn visible_strips_of(
    fonts: nat,
    strips: Seq<MidiStripDescriptor>,
    table: Map<u64, MixerStripControls>,
    defaults: MixerStripControls,
) -> Seq<VisibleStrip>
    decreases fonts,
{
    if fonts == 0 {
        Seq::empty()
    } else {
        visible_strips_of((fonts - 1) as nat, strips, table, defaults) + font_strips(
            fonts - 1,
            strips,
            table,
            defaults,
        )
    }
}

/// Every strip that the mixer shows: each role of the MIDI file under each of
/// the `fonts` loaded soundfonts.
pub fn visible_strips(
    fonts: usize,
    midi_strips: &[MidiStripDescriptor],
    table: &BTreeMap<u64, MixerStripControls>,
    defaults: MixerStripControls,
) -> (strips: Vec<VisibleStrip>)
    requires
        slot_fits(fonts as int),
    ensures
        strips@ == visible_strips_of(fonts as nat, midi_strips@, table@, defaults),
{
    let mut strips: Vec<VisibleStrip> = Vec::new();
    let mut slot: usize = 0;
    while slot < fonts
        invariant
            slot <= fonts,
            slot_fits(fonts as int),
            strips@ == visible_strips_of(slot as nat, midi_strips@, table@, defaults),
        decreases fonts - slot,
    {
        let ghost before = strips@;
        let ghost of_font = font_strips(slot as int, midi_strips@, table@, defaults);
        let mut k: usize = 0;
        while k < midi_strips.len()
            invariant
                k <= midi_strips.len(),
                slot < fonts,
                slot_fits(fonts as int),
                of_font == font_strips(slot as int, midi_strips@, table@, defaults),
                strips@ == before + of_font.take(k as int),
            decreases midi_strips.len() - k,
        {
            let descriptor = midi_strips[k];
            let strip_id: u64 = crate::playback::strips::strip_id_for(
                slot,
                descriptor.channel,
                descriptor.bank,
                descriptor.program,
                descriptor.is_percussion,
            );
            strips.push(
                VisibleStrip {
                    soundfont_slot: slot,
                    descriptor,
                    strip_id,
                    controls: strip_controls(table, defaults, strip_id),
                },
            );
            k = k + 1;
            assert(strips@ =~= before + of_font.take(k as int));
        }
        assert(of_font.take(k as int) =~= of_font);
        slot = slot + 1;
    }
    strips
}

/// Whether some stem was rendered for a strip.
pub open spec fn is_rendered(routes: Seq<RoutedStemRoute>, strip_id: u64) -> bool {
    exists|i: int| 0 <= i < routes.len() && (#[trigger] routes[i]).strip_id == strip_id
}

/// The visible strips for which no stem was rendered, in order.
pub open spec fn silent_strips(
    visible: Seq<VisibleStrip>,
    routes: Seq<RoutedStemRoute>,
) -> Seq<VisibleStrip>
    decreases visible.len(),
{
    if visible.len() == 0 {
        Seq::empty()
    } else {
        let before = silent_strips(visible.drop_last(), routes);
        if is_rendered(routes, visible.last().strip_id) {
            before
        } else {
            before.push(visible.last())
        }
    }
}

fn rendered_ids(routes: &[RoutedStemRoute]) -> (ids: BTreeSet<u64>)
    ensures
        forall|id: u64| ids@.contains(id) == is_rendered(routes@, id),
{
    broadcast use vstd::std_specs::btree::group_btree_axioms;

    let mut ids: BTreeSet<u64> = BTreeSet::new();
    let mut i: usize = 0;
    while i < routes.len()
        invariant
            i <= routes.len(),
            forall|id: u64| ids@.contains(id) == is_rendered(routes@.take(i as int), id),
        decreases routes.len() - i,
    {
        ids.insert(routes[i].strip_id);
        i = i + 1;
        assert forall|id: u64| ids@.contains(id) == is_rendered(routes@.take(i as int), id) by {
            let now = routes@.take(i as int);
            let before = routes@.take(i - 1);
            if is_rendered(before, id) {
                let j = choose|j: int| 0 <= j < before.len() && (#[trigger] before[j]).strip_id == id;
                assert(now[j].strip_id == id);
            }
            if is_rendered(now, id) {
                let j = choose|j: int| 0 <= j < now.len() && (#[trigger] now[j]).strip_id == id;
                if j < i - 1 {
                    assert(before[j].strip_id == id);
                }
            }
            assert(now[i - 1].strip_id == routes@[i - 1].strip_id);
        }
    }
    assert(routes@.take(i as int) =~= routes@);
    ids
}

/// The visible strips for which no stem was rendered, in order.
pub fn silence_candidates(visible: &[VisibleStrip], routes: &[RoutedStemRoute]) -> (silent: Vec<
    VisibleStrip,
>)
    ensures
        silent@ == silent_strips(visible@, routes@),
{
    broadcast use vstd::std_specs::btree::group_btree_axioms;

    let ids = rendered_ids(routes);
    let mut silent: Vec<VisibleStrip> = Vec::new();
    let mut i: usize = 0;
    while i < visible.len()
        invariant
            i <= visible.len(),
            forall|id: u64| ids@.contains(id) == is_rendered(routes@, id),
            silent@ == silent_strips(visible@.take(i as int), routes@),
        decreases visible.len() - i,
    {
        if !ids.contains(&visible[i].strip_id) {
            silent.push(visible[i]);
        }
        i = i + 1;
        assert(visible@.take(i as int).drop_last() =~= visible@.take(i - 1));
    }
    assert(visible@.take(i as int) =~= visible@);
    silent
}

/// The controls that a soundfont slot shows.
pub open spec fn slot_controls(
    shown: Seq<(usize, MixerStripControls)>,
    slot: usize,
) -> Seq<MixerStripControls>
    decreases shown.len(),
{
    if shown.len() == 0 {
        Seq::empty()
    } else {
        let before = slot_controls(shown.drop_last(), slot);
        if shown.last().0 == slot {
            before.push(shown.last().1)
        } else {
            before
        }
    }
}

/// Whether a strip is visible.
pub open spec fn is_visible(visible: Seq<VisibleStrip>, strip_id: u64) -> bool {
    exists|i: int| 0 <= i < visible.len() && (#[trigger] visible[i]).strip_id == strip_id
}

/// Whether one of the first `n` routes is a channel route to the strip.
pub open spec fn is_routed_before(
    routes: Seq<RoutedStemRoute>,
    n: int,
    strip_id: u64,
) -> bool {
    exists|j: int|
        0 <= j < n && !(#[trigger] routes[j]).is_global_residual && routes[j].strip_id == strip_id
}

/// The slots and controls of the visible strips, and of the strips that are
/// rendered without being visible, each strip once.
pub open spec fn shown_controls_of(
    visible: Seq<VisibleStrip>,
    routes: Seq<RoutedStemRoute>,
    n: int,
    table: Map<u64, MixerStripControls>,
    defaults: MixerStripControls,
) -> Seq<(usize, MixerStripControls)>
    decreases n,
{
    if n <= 0 {
        visible.map_values(|strip: VisibleStrip| (strip.soundfont_slot, strip.controls))
    } else {
        let before = shown_controls_of(visible, routes, n - 1, table, defaults);
        let route = routes[n - 1];
        if route.is_global_residual || is_visible(visible, route.strip_id) || is_routed_before(
            routes,
            n - 1,
            route.strip_id,
        ) {
            before
        } else {
            before.push(
                (route.soundfont_slot, controls_of(table, defaults, route.strip_id)),
            )
        }
    }
}

/// The slots and controls of every strip that is visible or rendered.
pub fn shown_controls(
    visible: &[VisibleStrip],
    routes: &[RoutedStemRoute],
    table: &BTreeMap<u64, MixerStripControls>,
    defaults: MixerStripControls,
) -> (shown: Vec<(usize, MixerStripControls)>)
    ensures
        shown@ == shown_controls_of(visible@, routes@, routes@.len() as int, table@, defaults),
{
    broadcast use vstd::std_specs::btree::group_btree_axioms;

    let mut shown: Vec<(usize, MixerStripControls)> = Vec::new();
    let mut ids: BTreeSet<u64> = BTreeSet::new();
    let ghost start = visible@.map_values(
        |strip: VisibleStrip| (strip.soundfont_slot, strip.controls),
    );
    let mut i: usize = 0;
    while i < visible.len()
        invariant
            i <= visible.len(),
            start == visible@.map_values(
                |strip: VisibleStrip| (strip.soundfont_slot, strip.controls),
            ),
            shown@ == start.take(i as int),
            forall|id: u64| ids@.contains(id) == is_visible(visible@.take(i as int), id),
        decreases visible.len() - i,
    {
        shown.push((visible[i].soundfont_slot, visible[i].controls));
        ids.insert(visible[i].strip_id);
        i = i + 1;
        assert(shown@ =~= start.take(i as int));
        assert forall|id: u64| ids@.contains(id) == is_visible(visible@.take(i as int), id) by {
            let now = visible@.take(i as int);
            let before = visible@.take(i - 1);
            if is_visible(before, id) {
                let j = choose|j: int| 0 <= j < before.len() && (#[trigger] before[j]).strip_id == id;
                assert(now[j].strip_id == id);
            }
            if is_visible(now, id) {
                let j = choose|j: int| 0 <= j < now.len() && (#[trigger] now[j]).strip_id == id;
                if j < i - 1 {
                    assert(before[j].strip_id == id);
                }
            }
            assert(now[i - 1].strip_id == visible@[i - 1].strip_id);
        }
    }
    assert(visible@.take(i as int) =~= visible@);
    assert(shown@ =~= start);
    let mut n: usize = 0;
    while n < routes.len()
        invariant
            n <= routes.len(),
            shown@ == shown_controls_of(visible@, routes@, n as int, table@, defaults),
            forall|id: u64|
                ids@.contains(id) == (is_visible(visible@, id) || is_routed_before(
                    routes@,
                    n as int,
                    id,
                )),
        decreases routes.len() - n,
    {
        let route = routes[n];
        let ghost ids_before = ids@;
        if !route.is_global_residual && ids.insert(route.strip_id) {
            shown.push((route.soundfont_slot, strip_controls(table, defaults, route.strip_id)));
        }
        n = n + 1;
        assert forall|id: u64|
            ids@.contains(id) == (is_visible(visible@, id) || is_routed_before(
                routes@,
                n as int,
                id,
            )) by {
            if is_routed_before(routes@, n - 1, id) {
                let j = choose|j: int|
                    0 <= j < n - 1 && !(#[trigger] routes@[j]).is_global_residual
                        && routes@[j].strip_id == id;
                assert(0 <= j < n && !routes@[j].is_global_residual && routes@[j].strip_id == id);
            }
            if is_routed_before(routes@, n as int, id) {
                let j = choose|j: int|
                    0 <= j < n && !(#[trigger] routes@[j]).is_global_residual
                        && routes@[j].strip_id == id;
                if j < n - 1 {
                    assert(is_routed_before(routes@, n - 1, id));
                }
            }
            assert(routes@[n - 1] == route);
        }
    }
    shown
}

/// The controls of a stem that the channels of a soundfont share: muted if one
/// of the shown strips is muted or only some are soloed, soloed if all are.
pub open spec fn residual_controls(
    controls: Seq<MixerStripControls>,
    defaults: MixerStripControls,
) -> MixerStripControls {
    if controls.len() == 0 {
        defaults
    } else {
        let any_mute = exists|i: int| 0 <= i < controls.len() && (#[trigger] controls[i]).mute;
        let any_solo = exists|i: int| 0 <= i < controls.len() && (#[trigger] controls[i]).solo;
        let all_solo = forall|i: int| 0 <= i < controls.len() ==> (#[trigger] controls[i]).solo;
        MixerStripControls {
            mute: any_mute || (any_solo && !all_solo),
            solo: all_solo,
            levels: defaults.levels,
        }
    }
}

/// The controls of the shared stem of a soundfont slot.
pub fn residual_controls_for_soundfont(
    shown: &[(usize, MixerStripControls)],
    slot: usize,
    defaults: MixerStripControls,
) -> (controls: MixerStripControls)
    ensures
        controls == residual_controls(slot_controls(shown@, slot), defaults),
{
    let ghost all = slot_controls(shown@, slot);
    let mut any: bool = false;
    let mut any_mute: bool = false;
    let mut any_solo: bool = false;
    let mut all_solo: bool = true;
    let mut i: usize = 0;
    while i < shown.len()
        invariant
            i <= shown.len(),
            any == (slot_controls(shown@.take(i as int), slot).len() > 0),
            any_mute == (exists|k: int|
                0 <= k < slot_controls(shown@.take(i as int), slot).len()
                    && (#[trigger] slot_controls(shown@.take(i as int), slot)[k]).mute),
            any_solo == (exists|k: int|
                0 <= k < slot_controls(shown@.take(i as int), slot).len()
                    && (#[trigger] slot_controls(shown@.take(i as int), slot)[k]).solo),
            all_solo == (forall|k: int|
                0 <= k < slot_controls(shown@.take(i as int), slot).len() ==> (
                #[trigger] slot_controls(shown@.take(i as int), slot)[k]).solo),
        decreases shown.len() - i,
    {
        let ghost before = slot_controls(shown@.take(i as int), slot);
        let ghost now = slot_controls(shown@.take(i + 1), slot);
        assert(shown@.take(i + 1).drop_last() =~= shown@.take(i as int));
        if shown[i].0 == slot {
            assert(now == before.push(shown@[i as int].1));
            assert(forall|k: int| 0 <= k < before.len() ==> #[trigger] now[k] == before[k]);
            assert(forall|k: int| 0 <= k < before.len() ==> now[k] == #[trigger] before[k]);
            assert(now[before.len() as int] == shown@[i as int].1);
            any = true;
            any_mute = any_mute || shown[i].1.mute;
            any_solo = any_solo || shown[i].1.solo;
            all_solo = all_solo && shown[i].1.solo;
        } else {
            assert(now == before);
        }
        i = i + 1;
    }
    assert(shown@.take(i as int) =~= shown@);
    if !any {
        defaults
    } else {
        MixerStripControls {
            mute: any_mute || (any_solo && !all_solo),
            solo: all_solo,
            levels: defaults.levels,
        }
    }
}

/// What the mixer is handed for a rendered stem.
pub open spec fn rendered_input(
    routes: Seq<RoutedStemRoute>,
    stems: Seq<StemView>,
    shown: Seq<(usize, MixerStripControls)>,
    table: Map<u64, MixerStripControls>,
    defaults: MixerStripControls,
    i: int,
) -> InputView {
    let route = routes[i];
    let stem = stems[route.block_index as int];
    InputView {
        rendered_route_index: Some(i as usize),
        strip_id: route.strip_id,
        font: stem.font,
        channel: stem.channel.unwrap_or(0),
        program: stem.program.unwrap_or(0),
        is_percussion: stem.is_percussion,
        controls: if route.is_global_residual {
            residual_controls(slot_controls(shown, route.soundfont_slot), defaults)
        } else {
            controls_of(table, defaults, route.strip_id)
        },
        automatic_processing: !route.is_global_residual,
    }
}

/// What the mixer is handed for a strip that stays silent.
pub open spec fn silent_input(strip: VisibleStrip, fonts: Seq<Seq<char>>) -> InputView {
    InputView {
        rendered_route_index: None,
        strip_id: strip.strip_id,
        font: fonts[strip.soundfont_slot as int],
        channel: strip.descriptor.channel,
        program: strip.descriptor.program,
        is_percussion: strip.descriptor.is_percussion,
        controls: strip.controls,
        automatic_processing: true,
    }
}

/// The silent strips that the mixer still has to process, as they are soloed or
/// an effect of theirs is still sounding.
pub open spec fn silent_inputs(
    silent: Seq<VisibleStrip>,
    tails: Seq<bool>,
    fonts: Seq<Seq<char>>,
) -> Seq<InputView>
    decreases silent.len(),
{
    if silent.len() == 0 {
        Seq::empty()
    } else {
        let before = silent_inputs(silent.drop_last(), tails, fonts);
        if silent.last().controls.solo || tails[silent.len() - 1] {
            before.push(silent_input(silent.last(), fonts))
        } else {
            before
        }
    }
}

/// Everything that the mixer is handed: each rendered stem, then the silent
/// strips that need processing.
pub open spec fn mixer_inputs_of(
    routes: Seq<RoutedStemRoute>,
    stems: Seq<StemView>,
    shown: Seq<(usize, MixerStripControls)>,
    table: Map<u64, MixerStripControls>,
    defaults: MixerStripControls,
    silent: Seq<VisibleStrip>,
    tails: Seq<bool>,
    fonts: Seq<Seq<char>>,
) -> Seq<InputView> {
    Seq::new(
        routes.len(),
        |i: int| rendered_input(routes, stems, shown, table, defaults, i),
    ) + silent_inputs(silent, tails, fonts)
}

pub open spec fn input_views(inputs: Seq<MixerInputRoute>) -> Seq<InputView> {
    inputs.map_values(|input: MixerInputRoute| input@)
}

/// The inputs of the mixer. `tails` says of each silent strip whether an effect
/// of it is still sounding.
pub fn mixer_inputs(
    soundfont_ids: &[String],
    blocks: &[StemBlock],
    routes: &[RoutedStemRoute],
    shown: &[(usize, MixerStripControls)],
    table: &BTreeMap<u64, MixerStripControls>,
    defaults: MixerStripControls,
    silent: &[VisibleStrip],
    tails: &[bool],
) -> (inputs: Vec<MixerInputRoute>)
    requires
        forall|i: int| 0 <= i < routes@.len() ==> (#[trigger] routes@[i]).block_index < blocks@.len(),
        forall|i: int|
            0 <= i < silent@.len() ==> (#[trigger] silent@[i]).soundfont_slot < soundfont_ids@.len(),
        tails@.len() == silent@.len(),
    ensures
        input_views(inputs@) == mixer_inputs_of(
            routes@,
            stem_views(blocks@),
            shown@,
            table@,
            defaults,
            silent@,
            tails@,
            texts(soundfont_ids@),
        ),
{
    let ghost stems = stem_views(blocks@);
    let ghost fonts = texts(soundfont_ids@);
    let ghost rendered = Seq::new(
        routes@.len(),
        |i: int| rendered_input(routes@, stems, shown@, table@, defaults, i),
    );
    let mut inputs: Vec<MixerInputRoute> = Vec::new();
    let mut i: usize = 0;
    while i < routes.len()
        invariant
            i <= routes.len(),
            stems == stem_views(blocks@),
            rendered == Seq::new(
                routes@.len(),
                |i: int| rendered_input(routes@, stems, shown@, table@, defaults, i),
            ),
            forall|i: int|
                0 <= i < routes@.len() ==> (#[trigger] routes@[i]).block_index < blocks@.len(),
            input_views(inputs@) == rendered.take(i as int),
        decreases routes.len() - i,
    {
        let route = routes[i];
        let identity = &blocks[route.block_index].identity;
        assert(stems[route.block_index as int] == blocks@[route.block_index as int]@);
        let controls = if route.is_global_residual {
            residual_controls_for_soundfont(shown, route.soundfont_slot, defaults)
        } else {
            strip_controls(table, defaults, route.strip_id)
        };
        let ghost before = inputs@;
        inputs.push(
            MixerInputRoute {
                rendered_route_index: Some(i),
                strip_id: route.strip_id,
                soundfont_id: identity.soundfont_id.clone(),
                midi_channel: identity.midi_channel.unwrap_or(0),
                midi_program: identity.midi_program.unwrap_or(0),
                is_percussion: identity.is_percussion,
                controls,
                automatic_processing: !route.is_global_residual,
            },
        );
        assert(input_views(inputs@) =~= input_views(before).push(inputs@.last()@));
        i = i + 1;
        assert(input_views(inputs@) =~= rendered.take(i as int));
    }
    assert(rendered.take(i as int) =~= rendered);
    assert(silent@.take(0) =~= Seq::<VisibleStrip>::empty());
    let mut k: usize = 0;
    while k < silent.len()
        invariant
            k <= silent.len(),
            fonts == texts(soundfont_ids@),
            tails@.len() == silent@.len(),
            forall|i: int|
                0 <= i < silent@.len() ==> (#[trigger] silent@[i]).soundfont_slot
                    < soundfont_ids@.len(),
            input_views(inputs@) == rendered + silent_inputs(
                silent@.take(k as int),
                tails@,
                fonts,
            ),
        decreases silent.len() - k,
    {
        let strip = silent[k];
        assert(silent@.take(k + 1).drop_last() =~= silent@.take(k as int));
        assert(fonts[strip.soundfont_slot as int] == soundfont_ids@[strip.soundfont_slot as int]@);
        if strip.controls.solo || tails[k] {
            let ghost before = inputs@;
            inputs.push(
                MixerInputRoute {
                    rendered_route_index: None,
                    strip_id: strip.strip_id,
                    soundfont_id: soundfont_ids[strip.soundfont_slot].clone(),
                    midi_channel: strip.descriptor.channel,
                    midi_program: strip.descriptor.program,
                    is_percussion: strip.descriptor.is_percussion,
                    controls: strip.controls,
                    automatic_processing: true,
                },
            );
            assert(input_views(inputs@) =~= input_views(before).push(inputs@.last()@));
        }
        k = k + 1;
        assert(input_views(inputs@) =~= rendered + silent_inputs(
            silent@.take(k as int),
            tails@,
            fonts,
        ));
    }
    assert(silent@.take(k as int) =~= silent@);
    inputs
}

/// What the mixer shows of a strip that stays silent.
pub open spec fn silent_visual(strip: VisibleStrip, fonts: Seq<Seq<char>>) -> StripVisual {
    StripVisual {
        font: fonts[strip.soundfont_slot as int],
        channel: strip.descriptor.channel,
        bank: strip.descriptor.bank,
        program: strip.descriptor.program,
        is_percussion: strip.descriptor.is_percussion,
        display_name: None,
        meter: MeterReading { peak: Level { bits: 0 }, rms: Level { bits: 0 } },
        audible: false,
        active_notes: Seq::empty(),
    }
}

/// What the mixer shows of a rendered stem.
pub open spec fn rendered_visual(stem: StemView) -> StripVisual {
    StripVisual {
        font: stem.font,
        channel: stem.channel.unwrap_or(0),
        bank: stem.bank.unwrap_or(0),
        program: stem.program.unwrap_or(0),
        is_percussion: stem.is_percussion,
        display_name: stem.display_name,
        meter: stem.meter,
        audible: above_epsilon(stem.meter.peak),
        active_notes: stem.active_notes,
    }
}

/// The shown strips after the silent ones.
pub open spec fn silent_visuals(
    silent: Seq<VisibleStrip>,
    fonts: Seq<Seq<char>>,
) -> Map<u64, StripVisual>
    decreases silent.len(),
{
    if silent.len() == 0 {
        Map::empty()
    } else {
        silent_visuals(silent.drop_last(), fonts).insert(
            silent.last().strip_id,
            silent_visual(silent.last(), fonts),
        )
    }
}

/// The shown strips after the silent ones and the stems of `routes`; a later
/// stem of a strip takes the place of an earlier one.
pub open spec fn visuals_of(
    silent: Seq<VisibleStrip>,
    fonts: Seq<Seq<char>>,
    routes: Seq<RoutedStemRoute>,
    stems: Seq<StemView>,
) -> Map<u64, StripVisual>
    decreases routes.len(),
{
    if routes.len() == 0 {
        silent_visuals(silent, fonts)
    } else {
        visuals_of(silent, fonts, routes.drop_last(), stems).insert(
            routes.last().strip_id,
            rendered_visual(stems[routes.last().block_index as int]),
        )
    }
}

/// The contents of the shown strips.
pub open spec fn visual_map(strips: Map<u64, RealtimeStripSnapshot>) -> Map<u64, StripVisual> {
    strips.map_values(|strip: RealtimeStripSnapshot| strip@)
}

fn clone_notes(notes: &Vec<u8>) -> (copy: Vec<u8>)
    ensures
        copy@ == notes@,
{
    let copy = notes.clone();
    assert(copy@ =~= notes@);
    copy
}

fn clone_name(name: &Option<String>) -> (copy: Option<String>)
    ensures
        crate::json::optional_text(copy) == crate::json::optional_text(*name),
{
    match name {
        Some(text) => Some(text.clone()),
        None => None,
    }
}

fn show_strip(
    strips: &mut BTreeMap<u64, RealtimeStripSnapshot>,
    strip_id: u64,
    strip: RealtimeStripSnapshot,
)
    ensures
        visual_map(final(strips)@) == visual_map(old(strips)@).insert(strip_id, strip@),
        final(strips)@.dom() == old(strips)@.dom().insert(strip_id),
{
    broadcast use vstd::std_specs::btree::group_btree_axioms;

    strips.insert(strip_id, strip);
    assert(visual_map(strips@) =~= visual_map(old(strips)@).insert(strip_id, strip@));
}

/// What the mixer shows: every silent strip and every rendered stem.
pub fn realtime_strips(
    soundfont_ids: &[String],
    blocks: &[StemBlock],
    routes: &[RoutedStemRoute],
    silent: &[VisibleStrip],
) -> (strips: BTreeMap<u64, RealtimeStripSnapshot>)
    requires
        forall|i: int| 0 <= i < routes@.len() ==> (#[trigger] routes@[i]).block_index < blocks@.len(),
        forall|i: int|
            0 <= i < silent@.len() ==> (#[trigger] silent@[i]).soundfont_slot < soundfont_ids@.len(),
    ensures
        visual_map(strips@) == visuals_of(
            silent@,
            texts(soundfont_ids@),
            routes@,
            stem_views(blocks@),
        ),
{
    let ghost fonts = texts(soundfont_ids@);
    let ghost stems = stem_views(blocks@);
    let mut strips: BTreeMap<u64, RealtimeStripSnapshot> = BTreeMap::new();
    assert(visual_map(strips@) =~= silent_visuals(silent@.take(0), fonts));
    let mut i: usize = 0;
    while i < silent.len()
        invariant
            i <= silent.len(),
            fonts == texts(soundfont_ids@),
            forall|i: int|
                0 <= i < silent@.len() ==> (#[trigger] silent@[i]).soundfont_slot
                    < soundfont_ids@.len(),
            visual_map(strips@) == silent_visuals(silent@.take(i as int), fonts),
        decreases silent.len() - i,
    {
        let strip = silent[i];
        assert(fonts[strip.soundfont_slot as int] == soundfont_ids@[strip.soundfont_slot as int]@);
        let shown = RealtimeStripSnapshot {
            soundfont_id: soundfont_ids[strip.soundfont_slot].clone(),
            midi_channel: strip.descriptor.channel,
            midi_bank: strip.descriptor.bank,
            midi_program: strip.descriptor.program,
            is_percussion: strip.descriptor.is_percussion,
            display_name: None,
            meter: MeterReading { peak: Level { bits: 0 }, rms: Level { bits: 0 } },
            audible: false,
            active_notes: Vec::new(),
        };
        assert(shown@ == silent_visual(strip, fonts));
        show_strip(&mut strips, strip.strip_id, shown);
        i = i + 1;
        assert(silent@.take(i as int).drop_last() =~= silent@.take(i - 1));
    }
    assert(silent@.take(i as int) =~= silent@);
    assert(routes@.take(0) =~= Seq::<RoutedStemRoute>::empty());
    let mut n: usize = 0;
    while n < routes.len()
        invariant
            n <= routes.len(),
            stems == stem_views(blocks@),
            forall|i: int|
                0 <= i < routes@.len() ==> (#[trigger] routes@[i]).block_index < blocks@.len(),
            visual_map(strips@) == visuals_of(silent@, fonts, routes@.take(n as int), stems),
        decreases routes.len() - n,
    {
        let route = routes[n];
        let block = &blocks[route.block_index];
        assert(stems[route.block_index as int] == block@);
        let shown = RealtimeStripSnapshot {
            soundfont_id: block.identity.soundfont_id.clone(),
            midi_channel: block.identity.midi_channel.unwrap_or(0),
            midi_bank: block.identity.midi_bank.unwrap_or(0),
            midi_program: block.identity.midi_program.unwrap_or(0),
            is_percussion: block.identity.is_percussion,
            display_name: clone_name(&block.display_name),
            meter: block.meter,
            audible: block.meter.peak.is_above_epsilon(),
            active_notes: clone_notes(&block.active_notes),
        };
        assert(shown@ == rendered_visual(block@));
        show_strip(&mut strips, route.strip_id, shown);
        n = n + 1;
        assert(routes@.take(n as int).drop_last() =~= routes@.take(n - 1));
    }
    assert(routes@.take(n as int) =~= routes@);
    strips
}

/// What the mixer reports of one strip after mixing.
#[derive(Debug, Copy, Clone, PartialEq, Eq, Structural)]
pub struct StripReport {
    pub strip_id: u64,
    pub audible: bool,
}

/// The shown strips once the mixer has reported which are audible: a strip that
/// it reports on is audible if the report says so and its own level is above the
/// threshold.
pub open spec fn settled(
    strips: Map<u64, StripVisual>,
    reports: Seq<StripReport>,
) -> Map<u64, StripVisual>
    decreases reports.len(),
{
    if reports.len() == 0 {
        strips
    } else {
        let before = settled(strips, reports.drop_last());
        let report = reports.last();
        if before.contains_key(report.strip_id) {
            let strip = before[report.strip_id];
            before.insert(
                report.strip_id,
                StripVisual { audible: report.audible && above_epsilon(strip.meter.peak), ..strip },
            )
        } else {
            before
        }
    }
}

/// Takes over from the mixer's reports which strips are audible.
pub fn settle_audibility(
    strips: &mut BTreeMap<u64, RealtimeStripSnapshot>,
    reports: &[StripReport],
)
    ensures
        visual_map(final(strips)@) == settled(visual_map(old(strips)@), reports@),
{
    broadcast use vstd::std_specs::btree::group_btree_axioms;

    let ghost start = visual_map(strips@);
    let mut i: usize = 0;
    assert(reports@.take(0) =~= Seq::<StripReport>::empty());
    while i < reports.len()
        invariant
            i <= reports.len(),
            visual_map(strips@) == settled(start, reports@.take(i as int)),
        decreases reports.len() - i,
    {
        let report = reports[i];
        let ghost before = strips@;
        assert(reports@.take(i + 1).drop_last() =~= reports@.take(i as int));
        match strips.remove(&report.strip_id) {
            Some(strip) => {
                let mut strip = strip;
                assert(strip == before[report.strip_id]);
                strip.audible = report.audible && strip.meter.peak.is_above_epsilon();
                show_strip(strips, report.strip_id, strip);
                assert(visual_map(strips@) =~= visual_map(before).insert(
                    report.strip_id,
                    strip@,
                ));
            },
            None => {
                assert(strips@ =~= before);
            },
        }
        i = i + 1;
    }
    assert(reports@.take(i as int) =~= reports@);
}

/// What the mixer reports on one strip.
#[derive(Debug)]
pub struct StripMixReport {
    pub strip_id: u64,
    pub soundfont_id: String,
    pub midi_channel: u8,
    pub midi_program: u8,
    pub is_percussion: bool,
    pub levels: StripMixLevels,
    pub audible: bool,
}

/// The levels of one strip in the mix.
#[derive(Debug, Copy, Clone, PartialEq, Eq, Structural)]
pub struct StripMixLevels {
    pub input_meter: MeterReading,
    pub estimated_post_peak: Level,
    pub estimated_post_rms: Level,
    pub applied_gain: Level,
    pub session_gain: Level,
    pub smart_mix_gain: Level,
    pub lookahead_gain: Level,
    pub normalization_gain: Level,
    pub left_pan_gain: Level,
    pub right_pan_gain: Level,
}

/// What is shown of one strip in the mix.
#[derive(Debug)]
pub struct RenderProbeStripMixDiagnostics {
    pub strip_id: u64,
    pub soundfont_id: String,
    pub display_name: Option<String>,
    pub midi_channel: u8,
    pub midi_program: u8,
    pub is_percussion: bool,
    pub levels: StripMixLevels,
    pub automatic_processing: bool,
    pub mute: bool,
    pub solo: bool,
    pub audible: bool,
    pub active_notes: Vec<u8>,
}

/// The stem of an input, if it has one.
pub open spec fn stem_of_input(
    input: MixerInputRoute,
    routes: Seq<RoutedStemRoute>,
    stems: Seq<StemView>,
) -> Option<StemView> {
    match input.rendered_route_index {
        Some(index) => Some(stems[routes[index as int].block_index as int]),
        None => None,
    }
}

/// Whether a row shows a report, with the controls of its input and the name and
/// the notes of its stem.
pub open spec fn shows_mix(
    row: RenderProbeStripMixDiagnostics,
    report: StripMixReport,
    input: MixerInputRoute,
    stem: Option<StemView>,
) -> bool {
    &&& row.strip_id == report.strip_id
    &&& row.soundfont_id@ == report.soundfont_id@
    &&& row.midi_channel == report.midi_channel
    &&& row.midi_program == report.midi_program
    &&& row.is_percussion == report.is_percussion
    &&& row.levels == report.levels
    &&& row.automatic_processing == input.automatic_processing
    &&& row.mute == input.controls.mute
    &&& row.solo == input.controls.solo
    &&& row.audible == report.audible
    &&& match stem {
        Some(stem) => crate::json::optional_text(row.display_name) == stem.display_name
            && row.active_notes@ == stem.active_notes,
        None => row.display_name is None && row.active_notes@.len() == 0,
    }
}

/// What is shown of the mix: one row for each report that has an input.
pub fn build_strip_mix_diagnostics(
    reports: &[StripMixReport],
    inputs: &[MixerInputRoute],
    routes: &[RoutedStemRoute],
    blocks: &[StemBlock],
) -> (rows: Vec<RenderProbeStripMixDiagnostics>)
    requires
        forall|i: int|
            0 <= i < inputs@.len() ==> match (#[trigger] inputs@[i]).rendered_route_index {
                Some(index) => index < routes@.len(),
                None => true,
            },
        forall|i: int| 0 <= i < routes@.len() ==> (#[trigger] routes@[i]).block_index < blocks@.len(),
    ensures
        rows@.len() == if reports@.len() < inputs@.len() {
            reports@.len()
        } else {
            inputs@.len()
        },
        forall|i: int|
            0 <= i < rows@.len() ==> shows_mix(
                #[trigger] rows@[i],
                reports@[i],
                inputs@[i],
                stem_of_input(inputs@[i], routes@, stem_views(blocks@)),
            ),
{
    let mut rows: Vec<RenderProbeStripMixDiagnostics> = Vec::new();
    let mut i: usize = 0;
    while i < reports.len() && i < inputs.len()
        invariant
            i <= reports@.len(),
            i <= inputs@.len(),
            forall|i: int|
                0 <= i < inputs@.len() ==> match (#[trigger] inputs@[i]).rendered_route_index {
                    Some(index) => index < routes@.len(),
                    None => true,
                },
            forall|i: int|
                0 <= i < routes@.len() ==> (#[trigger] routes@[i]).block_index < blocks@.len(),
            rows@.len() == i,
            forall|k: int|
                0 <= k < i ==> shows_mix(
                    #[trigger] rows@[k],
                    reports@[k],
                    inputs@[k],
                    stem_of_input(inputs@[k], routes@, stem_views(blocks@)),
                ),
        decreases reports@.len() - i,
    {
        let report = &reports[i];
        let input = &inputs[i];
        assert(inputs@[i as int] == *input);
        let (display_name, active_notes) = match input.rendered_route_index {
            Some(index) => {
                let block = &blocks[routes[index].block_index];
                (clone_name(&block.display_name), clone_notes(&block.active_notes))
            },
            None => (None, Vec::new()),
        };
        rows.push(
            RenderProbeStripMixDiagnostics {
                strip_id: report.strip_id,
                soundfont_id: report.soundfont_id.clone(),
                display_name,
                midi_channel: report.midi_channel,
                midi_program: report.midi_program,
                is_percussion: report.is_percussion,
                levels: report.levels,
                automatic_processing: input.automatic_processing,
                mute: input.controls.mute,
                solo: input.controls.solo,
                audible: report.audible,
                active_notes,
            },
        );
        i = i + 1;
    }
    rows
}

/// Once the mixer has reported, a strip is shown as audible if its report says so and its
/// own level can be heard; strips without a report stay as they are, and none comes or
/// goes.
pub proof fn reports_settle_what_is_audible(
    strips: Map<u64, StripVisual>,
    reports: Seq<StripReport>,
    id: u64,
)
    requires
        forall|a: int, b: int|
            0 <= a < b < reports.len() ==> (#[trigger] reports[a]).strip_id != (
            #[trigger] reports[b]).strip_id,
    ensures
        settled(strips, reports).contains_key(id) == strips.contains_key(id),
        strips.contains_key(id) ==> {
            let after = settled(strips, reports)[id];
            &&& after == (StripVisual { audible: after.audible, ..strips[id] })
            &&& (forall|i: int| 0 <= i < reports.len() ==> (#[trigger] reports[i]).strip_id != id)
                ==> after == strips[id]
            &&& forall|i: int|
                0 <= i < reports.len() && (#[trigger] reports[i]).strip_id == id ==> after.audible
                    == (reports[i].audible && above_epsilon(strips[id].meter.peak))
        },
    decreases reports.len(),
{
    if reports.len() > 0 {
        let shorter = reports.drop_last();
        assert forall|a: int, b: int| 0 <= a < b < shorter.len() implies (
        #[trigger] shorter[a]).strip_id != (#[trigger] shorter[b]).strip_id by {
            assert(shorter[a] == reports[a] && shorter[b] == reports[b]);
        }
        reports_settle_what_is_audible(strips, shorter, id);
        assert(reports[reports.len() - 1] == reports.last());
        assert forall|i: int| 0 <= i < shorter.len() implies shorter[i] == reports[i] by {
        }
        if strips.contains_key(id) {
            let after = settled(strips, reports)[id];
            if reports.last().strip_id == id {
                assert forall|i: int| 0 <= i < shorter.len() implies (
                #[trigger] shorter[i]).strip_id != id by {
                    assert(reports[i].strip_id != reports[reports.len() - 1].strip_id);
                }
            }
            assert forall|i: int|
                0 <= i < reports.len() && (#[trigger] reports[i]).strip_id
                    == id implies after.audible == (reports[i].audible && above_epsilon(
                strips[id].meter.peak,
            )) by {
                if i < shorter.len() {
                    assert(shorter[i].strip_id == id);
                }
            }
            if forall|i: int| 0 <= i < reports.len() ==> (#[trigger] reports[i]).strip_id != id {
                assert forall|i: int| 0 <= i < shorter.len() implies (
                #[trigger] shorter[i]).strip_id != id by {
                    assert(reports[i].strip_id != id);
                }
            }
        }
    }
}

/// What is shown of a strip with one stem is that stem: its soundfont, its place, its
/// level, its notes, and whether its level can be heard.
pub proof fn stems_are_shown_as_rendered(
    silent: Seq<VisibleStrip>,
    fonts: Seq<Seq<char>>,
    routes: Seq<RoutedStemRoute>,
    stems: Seq<StemView>,
    i: int,
)
    requires
        0 <= i < routes.len(),
        forall|j: int|
            i < j < routes.len() ==> (#[trigger] routes[j]).strip_id != routes[i].strip_id,
    ensures
        ({
            let shown = visuals_of(silent, fonts, routes, stems);
            let strip = shown[routes[i].strip_id];
            let stem = stems[routes[i].block_index as int];
            &&& shown.contains_key(routes[i].strip_id)
            &&& strip.font == stem.font
            &&& stem.channel is Some ==> stem.channel == Some(strip.channel)
            &&& stem.bank is Some ==> stem.bank == Some(strip.bank)
            &&& stem.program is Some ==> stem.program == Some(strip.program)
            &&& strip.is_percussion == stem.is_percussion
            &&& strip.display_name == stem.display_name
            &&& strip.meter == stem.meter
            &&& strip.active_notes == stem.active_notes
            &&& strip.audible == above_epsilon(stem.meter.peak)
        }),
    decreases routes.len(),
{
    if i < routes.len() - 1 {
        let shorter = routes.drop_last();
        assert forall|j: int| i < j < shorter.len() implies (#[trigger] shorter[j]).strip_id
            != shorter[i].strip_id by {
            assert(shorter[j] == routes[j]);
        }
        stems_are_shown_as_rendered(silent, fonts, shorter, stems, i);
        assert(routes[routes.len() - 1].strip_id != routes[i].strip_id);
    }
}

/// A strip without a stem is shown at rest, under its own soundfont and place.
pub proof fn silent_strips_are_shown_at_rest(
    silent: Seq<VisibleStrip>,
    fonts: Seq<Seq<char>>,
    routes: Seq<RoutedStemRoute>,
    stems: Seq<StemView>,
    i: int,
)
    requires
        0 <= i < silent.len(),
        forall|j: int|
            i < j < silent.len() ==> (#[trigger] silent[j]).strip_id != silent[i].strip_id,
        !is_rendered(routes, silent[i].strip_id),
    ensures
        ({
            let shown = visuals_of(silent, fonts, routes, stems);
            let strip = shown[silent[i].strip_id];
            &&& shown.contains_key(silent[i].strip_id)
            &&& strip.font == fonts[silent[i].soundfont_slot as int]
            &&& strip.channel == silent[i].descriptor.channel
            &&& strip.bank == silent[i].descriptor.bank
            &&& strip.program == silent[i].descriptor.program
            &&& strip.is_percussion == silent[i].descriptor.is_percussion
            &&& !strip.audible
            &&& strip.active_notes.len() == 0
            &&& strip.meter.peak.bits == 0
        }),
    decreases routes.len(), silent.len(),
{
    if routes.len() > 0 {
        let shorter = routes.drop_last();
        assert(routes[routes.len() - 1].strip_id != silent[i].strip_id);
        assert(!is_rendered(shorter, silent[i].strip_id)) by {
            if is_rendered(shorter, silent[i].strip_id) {
                let j = choose|j: int|
                    0 <= j < shorter.len() && (#[trigger] shorter[j]).strip_id
                        == silent[i].strip_id;
                assert(routes[j].strip_id == silent[i].strip_id);
            }
        }
        silent_strips_are_shown_at_rest(silent, fonts, shorter, stems, i);
    } else if i < silent.len() - 1 {
        let shorter = silent.drop_last();
        assert forall|j: int| i < j < shorter.len() implies (#[trigger] shorter[j]).strip_id
            != shorter[i].strip_id by {
            assert(shorter[j] == silent[j]);
        }
        assert(silent[silent.len() - 1].strip_id != silent[i].strip_id);
        silent_strips_are_shown_at_rest(shorter, fonts, routes, stems, i);
    }
}

/// A row of the mix shows the report of its strip, the controls that were given to the mixer
/// and, where a stem was rendered, its name and notes.
pub proof fn mixes_are_shown_with_their_controls(
    row: RenderProbeStripMixDiagnostics,
    report: StripMixReport,
    input: MixerInputRoute,
    routes: Seq<RoutedStemRoute>,
    stems: Seq<StemView>,
)
    requires
        shows_mix(row, report, input, stem_of_input(input, routes, stems)),
    ensures
        row.strip_id == report.strip_id,
        row.soundfont_id@ == report.soundfont_id@,
        row.midi_channel == report.midi_channel,
        row.midi_program == report.midi_program,
        row.is_percussion == report.is_percussion,
        row.levels == report.levels,
        row.audible == report.audible,
        row.mute == input.controls.mute,
        row.solo == input.controls.solo,
        row.automatic_processing == input.automatic_processing,
        input.rendered_route_index is None ==> row.display_name is None && row.active_notes@.len()
            == 0,
        input.rendered_route_index is Some ==> {
            let route = routes[input.rendered_route_index->Some_0 as int];
            row.active_notes@ == stems[route.block_index as int].active_notes
                && crate::json::optional_text(row.display_name)
                == stems[route.block_index as int].display_name
        },
{
}

/// Every soundfont shows every strip of the MIDI file once: all strips of the first, then all
/// of the second and so on, each under its own number and with the controls for it.
pub proof fn every_soundfont_shows_every_strip(
    fonts: nat,
    strips: Seq<MidiStripDescriptor>,
    table: Map<u64, MixerStripControls>,
    defaults: MixerStripControls,
    slot: int,
    j: int,
)
    requires
        0 <= slot < fonts <= usize::MAX,
        0 <= j < strips.len(),
        slot_fits(slot),
        strips[j].channel < 16,
        strips[j].bank < 16_384,
        strips[j].program < 128,
    ensures
        ({
            let shown = visible_strips_of(fonts, strips, table, defaults);
            let at = slot * strips.len() + j;
            let strip = shown[at];
            &&& shown.len() == fonts * strips.len()
            &&& 0 <= at < shown.len()
            &&& strip.soundfont_slot == slot
            &&& strip.descriptor == strips[j]
            &&& table.contains_key(strip.strip_id) ==> strip.controls == table[strip.strip_id]
            &&& !table.contains_key(strip.strip_id) ==> strip.controls == defaults
        }),
    decreases fonts,
{
    let shown = visible_strips_of(fonts, strips, table, defaults);
    let before = visible_strips_of((fonts - 1) as nat, strips, table, defaults);
    lemma_shown_count((fonts - 1) as nat, strips, table, defaults);
    lemma_shown_count(fonts, strips, table, defaults);
    let count = strips.len() as int;
    if slot < fonts - 1 {
        every_soundfont_shows_every_strip(
            (fonts - 1) as nat,
            strips,
            table,
            defaults,
            slot,
            j,
        );
        assert(shown[slot * count + j] == before[slot * count + j]);
        assert((fonts - 1) * count <= fonts * count) by (nonlinear_arith)
            requires
                count >= 0,
        ;
    } else {
        assert(shown[slot * count + j] == font_strips(fonts - 1, strips, table, defaults)[j]);
        assert(slot * count + count == fonts * count) by (nonlinear_arith)
            requires
                slot == fonts - 1,
        ;
        assert(slot * count >= 0) by (nonlinear_arith)
            requires
                slot >= 0,
                count >= 0,
        ;
    }
}

proof fn lemma_shown_count(
    fonts: nat,
    strips: Seq<MidiStripDescriptor>,
    table: Map<u64, MixerStripControls>,
    defaults: MixerStripControls,
)
    ensures
        visible_strips_of(fonts, strips, table, defaults).len() == fonts * strips.len(),
    decreases fonts,
{
    let count = strips.len();
    if fonts > 0 {
        lemma_shown_count((fonts - 1) as nat, strips, table, defaults);
        assert((fonts - 1) * count + count == fonts * count) by (nonlinear_arith);
    } else {
        assert(0 * count == 0) by (nonlinear_arith);
    }
}

} // verus!
