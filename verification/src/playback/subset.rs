//! Soundfont subsets: which presets, instruments and samples of a soundfont a
//! MIDI file needs, and how the loaded subset compares with the needed one.
use crate::numbers::{monus, u64_cap, usize_cap};
use crate::playback::strips::MidiStripDescriptor;
use crate::sorted::{ascending_u32, contains_u32, insert_sorted_u32, sorted_distinct_u32};
use crate::text::{decimal, decimal_text, join, joined, push_decimal, texts};
use crate::text_map::TextMap;
use vstd::prelude::*;
use vstd::string::*;

verus! {

/// One preset of a soundfont.
#[derive(Debug)]
pub struct PresetIndex {
    pub preset_id: u32,
    pub bank: u16,
    pub program: u8,
    pub instrument_ids: Vec<u32>,
}

/// A piece of the sample data of a soundfont.
#[derive(Debug, Copy, Clone, PartialEq, Eq, Structural)]
pub struct DatEntryRange {
    pub offset: u64,
    pub length: u64,
}

/// What has to be loaded for one instrument.
#[derive(Debug)]
pub struct InstrumentLoadMap {
    pub instrument_id: u32,
    pub sample_ids: Vec<u32>,
    pub wave_ranges: Vec<DatEntryRange>,
}

/// The index of a soundfont.
#[derive(Debug)]
pub struct SoundFontIndex {
    pub presets: Vec<PresetIndex>,
    pub instrument_load_map: Vec<InstrumentLoadMap>,
}

/// What a MIDI file needs of one soundfont.
#[derive(Debug)]
pub struct SubsetClosure {
    pub preset_ids: Vec<u32>,
    pub instrument_ids: Vec<u32>,
    pub sample_ids: Vec<u32>,
    pub wave_ranges: Vec<DatEntryRange>,
}

/// Whether a preset plays a role: any percussion preset (bank 128) plays a
/// percussion role, a melodic role wants its bank and program.
pub open spec fn plays(bank: u16, program: u8, role: MidiStripDescriptor) -> bool {
    if role.is_percussion {
        bank == 128
    } else {
        bank == role.bank && program == role.program
    }
}

/// Whether a preset plays one of the roles.
pub open spec fn is_demanded(preset: PresetIndex, roles: Seq<MidiStripDescriptor>) -> bool {
    exists|r: int| 0 <= r < roles.len() && plays(preset.bank, preset.program, #[trigger] roles[r])
}

/// Whether a preset id is needed.
pub open spec fn needs_preset(
    presets: Seq<PresetIndex>,
    roles: Seq<MidiStripDescriptor>,
    id: u32,
) -> bool {
    exists|i: int|
        0 <= i < presets.len() && is_demanded(#[trigger] presets[i], roles) && presets[i].preset_id
            == id
}

/// Whether an instrument id is needed.
pub open spec fn needs_instrument(
    presets: Seq<PresetIndex>,
    roles: Seq<MidiStripDescriptor>,
    id: u32,
) -> bool {
    exists|i: int|
        0 <= i < presets.len() && is_demanded(#[trigger] presets[i], roles)
            && presets[i].instrument_ids@.contains(id)
}

/// The first entry for an instrument among the first `n` of a load map.
pub open spec fn load_entry(
    maps: Seq<InstrumentLoadMap>,
    instrument: u32,
    n: int,
) -> Option<InstrumentLoadMap>
    decreases n,
{
    if n <= 0 {
        None
    } else {
        match load_entry(maps, instrument, n - 1) {
            Some(found) => Some(found),
            None => if maps[n - 1].instrument_id == instrument {
                Some(maps[n - 1])
            } else {
                None
            },
        }
    }
}

/// Whether one of the instruments needs a sample.
pub open spec fn needs_sample(
    maps: Seq<InstrumentLoadMap>,
    instruments: Seq<u32>,
    id: u32,
) -> bool {
    exists|i: int|
        0 <= i < instruments.len() && (match load_entry(
            maps,
            #[trigger] instruments[i],
            maps.len() as int,
        ) {
            Some(entry) => entry.sample_ids@.contains(id),
            None => false,
        })
}

/// The ranges that are not empty.
pub open spec fn filled_ranges(ranges: Seq<DatEntryRange>) -> Seq<DatEntryRange>
    decreases ranges.len(),
{
    if ranges.len() == 0 {
        Seq::empty()
    } else if ranges.last().length > 0 {
        filled_ranges(ranges.drop_last()).push(ranges.last())
    } else {
        filled_ranges(ranges.drop_last())
    }
}

/// The sample data of the instruments, one instrument after the other.
pub open spec fn needed_ranges(
    maps: Seq<InstrumentLoadMap>,
    instruments: Seq<u32>,
) -> Seq<DatEntryRange>
    decreases instruments.len(),
{
    if instruments.len() == 0 {
        Seq::empty()
    } else {
        let before = needed_ranges(maps, instruments.drop_last());
        match load_entry(maps, instruments.last(), maps.len() as int) {
            Some(entry) => before + filled_ranges(entry.wave_ranges@),
            None => before,
        }
    }
}

/// A closure holds exactly what the roles need of the index.
pub open spec fn is_closure(
    closure: SubsetClosure,
    index: SoundFontIndex,
    roles: Seq<MidiStripDescriptor>,
) -> bool {
    &&& ascending_u32(closure.preset_ids@)
    &&& forall|id: u32| #[trigger]
        closure.preset_ids@.contains(id) == needs_preset(index.presets@, roles, id)
    &&& ascending_u32(closure.instrument_ids@)
    &&& forall|id: u32| #[trigger]
        closure.instrument_ids@.contains(id) == needs_instrument(index.presets@, roles, id)
    &&& ascending_u32(closure.sample_ids@)
    &&& forall|id: u32| #[trigger]
        closure.sample_ids@.contains(id) == needs_sample(
            index.instrument_load_map@,
            closure.instrument_ids@,
            id,
        )
    &&& closure.wave_ranges@ == needed_ranges(
        index.instrument_load_map@,
        closure.instrument_ids@,
    )
}

fn preset_is_demanded(preset: &PresetIndex, roles: &[MidiStripDescriptor]) -> (demanded: bool)
    ensures
        demanded == is_demanded(*preset, roles@),
{
    let mut i: usize = 0;
    while i < roles.len()
        invariant
            i <= roles.len(),
            forall|r: int| 0 <= r < i ==> !plays(preset.bank, preset.program, #[trigger] roles@[r]),
        decreases roles.len() - i,
    {
        let role = roles[i];
        let found = if role.is_percussion {
            preset.bank == 128
        } else {
            preset.bank == role.bank && preset.program == role.program
        };
        if found {
            assert(plays(preset.bank, preset.program, roles@[i as int]));
            return true;
        }
        i = i + 1;
    }
    false
}

fn insert_all(ids: &mut Vec<u32>, more: &Vec<u32>)
    requires
        ascending_u32(old(ids)@),
    ensures
        ascending_u32(final(ids)@),
        forall|id: u32| #[trigger]
            final(ids)@.contains(id) == (old(ids)@.contains(id) || more@.contains(id)),
{
    let ghost before = ids@;
    let mut i: usize = 0;
    while i < more.len()
        invariant
            i <= more.len(),
            ascending_u32(ids@),
            forall|id: u32| #[trigger]
                ids@.contains(id) == (before.contains(id) || more@.take(i as int).contains(id)),
        decreases more.len() - i,
    {
        insert_sorted_u32(ids, more[i]);
        i = i + 1;
        assert forall|id: u32| #[trigger]
            ids@.contains(id) == (before.contains(id) || more@.take(i as int).contains(id)) by {
            let shorter = more@.take(i - 1);
            let longer = more@.take(i as int);
            if shorter.contains(id) {
                let k = choose|k: int| 0 <= k < shorter.len() && shorter[k] == id;
                assert(longer[k] == id);
            }
            assert(longer[i - 1] == more@[i - 1]);
            if longer.contains(id) && id != more@[i - 1] {
                let k = choose|k: int| 0 <= k < longer.len() && longer[k] == id;
                assert(shorter[k] == id);
            }
        }
    }
    assert(more@.take(i as int) =~= more@);
}

fn find_load_entry<'a>(maps: &'a Vec<InstrumentLoadMap>, instrument: u32) -> (entry: Option<
    &'a InstrumentLoadMap,
>)
    ensures
        (match entry {
            Some(e) => Some(*e),
            None => None,
        }) == load_entry(maps@, instrument, maps@.len() as int),
{
    let mut i: usize = 0;
    let mut found: Option<&'a InstrumentLoadMap> = None;
    while i < maps.len()
        invariant
            i <= maps.len(),
            (match found {
                Some(e) => Some(*e),
                None => None,
            }) == load_entry(maps@, instrument, i as int),
        decreases maps.len() - i,
    {
        if found.is_none() && maps[i].instrument_id == instrument {
            found = Some(&maps[i]);
        }
        i = i + 1;
    }
    found
}

fn push_filled_ranges(ranges: &mut Vec<DatEntryRange>, more: &Vec<DatEntryRange>)
    ensures
        final(ranges)@ == old(ranges)@ + filled_ranges(more@),
{
    let ghost before = ranges@;
    let mut i: usize = 0;
    assert(more@.take(0) =~= Seq::<DatEntryRange>::empty());
    while i < more.len()
        invariant
            i <= more.len(),
            ranges@ == before + filled_ranges(more@.take(i as int)),
        decreases more.len() - i,
    {
        if more[i].length > 0 {
            ranges.push(more[i]);
        }
        assert(more@.take(i + 1).drop_last() =~= more@.take(i as int));
        i = i + 1;
        assert(ranges@ =~= before + filled_ranges(more@.take(i as int)));
    }
    assert(more@.take(i as int) =~= more@);
}

/// What the roles of a MIDI file need of a soundfont with the given index.
pub fn subset_closure(index: &SoundFontIndex, roles: &[MidiStripDescriptor]) -> (closure:
    SubsetClosure)
    ensures
        is_closure(closure, *index, roles@),
{
    let ghost presets = index.presets@;
    let ghost maps = index.instrument_load_map@;
    let mut preset_ids: Vec<u32> = Vec::new();
    let mut instrument_ids: Vec<u32> = Vec::new();
    let mut i: usize = 0;
    while i < index.presets.len()
        invariant
            i <= index.presets.len(),
            presets == index.presets@,
            ascending_u32(preset_ids@),
            ascending_u32(instrument_ids@),
            forall|id: u32| #[trigger]
                preset_ids@.contains(id) == needs_preset(presets.take(i as int), roles@, id),
            forall|id: u32| #[trigger]
                instrument_ids@.contains(id) == needs_instrument(
                    presets.take(i as int),
                    roles@,
                    id,
                ),
        decreases index.presets.len() - i,
    {
        let preset = &index.presets[i];
        let ghost shorter = presets.take(i as int);
        let ghost longer = presets.take(i + 1);
        let ghost presets_before = preset_ids@;
        let ghost instruments_before = instrument_ids@;
        let demanded = preset_is_demanded(preset, roles);
        if demanded {
            insert_sorted_u32(&mut preset_ids, preset.preset_id);
            insert_all(&mut instrument_ids, &preset.instrument_ids);
        }
        assert(longer[i as int] == presets[i as int]);
        assert forall|id: u32| #[trigger] preset_ids@.contains(id) == needs_preset(
            longer,
            roles@,
            id,
        ) by {
            if needs_preset(shorter, roles@, id) {
                let k = choose|k: int|
                    0 <= k < shorter.len() && is_demanded(#[trigger] shorter[k], roles@)
                        && shorter[k].preset_id == id;
                assert(longer[k] == shorter[k]);
            }
            if needs_preset(longer, roles@, id) {
                let k = choose|k: int|
                    0 <= k < longer.len() && is_demanded(#[trigger] longer[k], roles@)
                        && longer[k].preset_id == id;
                if k < i {
                    assert(shorter[k] == longer[k]);
                }
            }
            assert(presets_before.contains(id) == needs_preset(shorter, roles@, id));
        }
        assert forall|id: u32| #[trigger] instrument_ids@.contains(id) == needs_instrument(
            longer,
            roles@,
            id,
        ) by {
            if needs_instrument(shorter, roles@, id) {
                let k = choose|k: int|
                    0 <= k < shorter.len() && is_demanded(#[trigger] shorter[k], roles@)
                        && shorter[k].instrument_ids@.contains(id);
                assert(longer[k] == shorter[k]);
            }
            if needs_instrument(longer, roles@, id) {
                let k = choose|k: int|
                    0 <= k < longer.len() && is_demanded(#[trigger] longer[k], roles@)
                        && longer[k].instrument_ids@.contains(id);
                if k < i {
                    assert(shorter[k] == longer[k]);
                }
            }
            assert(instruments_before.contains(id) == needs_instrument(shorter, roles@, id));
        }
        i = i + 1;
    }
    assert(presets.take(i as int) =~= presets);

    let mut sample_ids: Vec<u32> = Vec::new();
    let mut wave_ranges: Vec<DatEntryRange> = Vec::new();
    let mut k: usize = 0;
    assert(instrument_ids@.take(0) =~= Seq::<u32>::empty());
    while k < instrument_ids.len()
        invariant
            k <= instrument_ids.len(),
            maps == index.instrument_load_map@,
            ascending_u32(sample_ids@),
            forall|id: u32| #[trigger]
                sample_ids@.contains(id) == needs_sample(maps, instrument_ids@.take(k as int), id),
            wave_ranges@ == needed_ranges(maps, instrument_ids@.take(k as int)),
        decreases instrument_ids.len() - k,
    {
        let ghost shorter = instrument_ids@.take(k as int);
        let ghost longer = instrument_ids@.take(k + 1);
        let ghost samples_before = sample_ids@;
        assert(longer.drop_last() =~= shorter);
        assert(longer.last() == instrument_ids@[k as int]);
        let entry = find_load_entry(&index.instrument_load_map, instrument_ids[k]);
        match entry {
            Some(entry) => {
                insert_all(&mut sample_ids, &entry.sample_ids);
                push_filled_ranges(&mut wave_ranges, &entry.wave_ranges);
            },
            None => {},
        }
        assert forall|id: u32| #[trigger] sample_ids@.contains(id) == needs_sample(
            maps,
            longer,
            id,
        ) by {
            assert(samples_before.contains(id) == needs_sample(maps, shorter, id));
            if needs_sample(maps, shorter, id) {
                let j = choose|j: int|
                    0 <= j < shorter.len() && (match load_entry(
                        maps,
                        #[trigger] shorter[j],
                        maps.len() as int,
                    ) {
                        Some(entry) => entry.sample_ids@.contains(id),
                        None => false,
                    });
                assert(longer[j] == shorter[j]);
            }
            if needs_sample(maps, longer, id) {
                let j = choose|j: int|
                    0 <= j < longer.len() && (match load_entry(
                        maps,
                        #[trigger] longer[j],
                        maps.len() as int,
                    ) {
                        Some(entry) => entry.sample_ids@.contains(id),
                        None => false,
                    });
                if j < k {
                    assert(shorter[j] == longer[j]);
                }
            }
            assert(longer[k as int] == instrument_ids@[k as int]);
        }
        k = k + 1;
    }
    assert(instrument_ids@.take(k as int) =~= instrument_ids@);
    SubsetClosure { preset_ids, instrument_ids, sample_ids, wave_ranges }
}

/// What is planned to be loaded of one soundfont.
#[derive(Debug)]
pub struct SoundFontSubsetPlanDebug {
    pub soundfont_id: String,
    pub requested_role_count: usize,
    pub preset_ids: Vec<u32>,
    pub instrument_ids: Vec<u32>,
    pub sample_ids: Vec<u32>,
    pub logical_wave_range_count: usize,
    pub planned_range_count: usize,
    pub planned_byte_count: u64,
    pub used_index_json: bool,
}

/// The contents of a plan.
pub ghost struct PlanView {
    pub font: Seq<char>,
    pub role_count: usize,
    pub presets: Seq<u32>,
    pub instruments: Seq<u32>,
    pub samples: Seq<u32>,
    pub wave_range_count: usize,
    pub planned_range_count: usize,
    pub planned_bytes: u64,
    pub used_index_json: bool,
}

impl View for SoundFontSubsetPlanDebug {
    type V = PlanView;

    open spec fn view(&self) -> PlanView {
        PlanView {
            font: self.soundfont_id@,
            role_count: self.requested_role_count,
            presets: self.preset_ids@,
            instruments: self.instrument_ids@,
            samples: self.sample_ids@,
            wave_range_count: self.logical_wave_range_count,
            planned_range_count: self.planned_range_count,
            planned_bytes: self.planned_byte_count,
            used_index_json: self.used_index_json,
        }
    }
}

/// The lengths of ranges, added up.
pub open spec fn total_length(ranges: Seq<DatEntryRange>) -> int
    decreases ranges.len(),
{
    if ranges.len() == 0 {
        0
    } else {
        total_length(ranges.drop_last()) + ranges.last().length
    }
}

proof fn lemma_total_length_grows(ranges: Seq<DatEntryRange>, n: int)
    requires
        0 <= n <= ranges.len(),
    ensures
        0 <= total_length(ranges.take(n)) <= total_length(ranges),
    decreases ranges.len(),
{
    if n < ranges.len() {
        lemma_total_length_grows(ranges.drop_last(), n);
        assert(ranges.drop_last().take(n) =~= ranges.take(n));
    } else {
        assert(ranges.take(n) =~= ranges);
        if n > 0 {
            lemma_total_length_grows(ranges.drop_last(), n - 1);
            assert(ranges.drop_last().take(n - 1) =~= ranges.drop_last());
        }
    }
}

fn sum_lengths(ranges: &[DatEntryRange]) -> (sum: u64)
    requires
        total_length(ranges@) <= u64::MAX,
    ensures
        sum == total_length(ranges@),
{
    let mut sum: u64 = 0;
    let mut i: usize = 0;
    while i < ranges.len()
        invariant
            i <= ranges.len(),
            total_length(ranges@) <= u64::MAX,
            sum == total_length(ranges@.take(i as int)),
        decreases ranges.len() - i,
    {
        proof {
            lemma_total_length_grows(ranges@, i + 1);
            assert(ranges@.take(i + 1).drop_last() =~= ranges@.take(i as int));
        }
        sum = sum + ranges[i].length;
        i = i + 1;
    }
    assert(ranges@.take(i as int) =~= ranges@);
    sum
}

fn clone_ids(ids: &Vec<u32>) -> (copy: Vec<u32>)
    ensures
        copy@ == ids@,
{
    let copy = ids.clone();
    assert(copy@ =~= ids@);
    copy
}

/// Whether a soundfont has a preset that plays one of the roles.
pub open spec fn has_demand(index: SoundFontIndex, roles: Seq<MidiStripDescriptor>) -> bool {
    exists|i: int| 0 <= i < index.presets@.len() && is_demanded(#[trigger] index.presets@[i], roles)
}

/// Nothing is needed of a soundfont exactly when the closure is empty.
proof fn lemma_empty_closure(
    closure: SubsetClosure,
    index: SoundFontIndex,
    roles: Seq<MidiStripDescriptor>,
)
    requires
        is_closure(closure, index, roles),
    ensures
        has_demand(index, roles) == (closure.preset_ids@.len() > 0),
        !has_demand(index, roles) ==> closure.instrument_ids@.len() == 0
            && closure.sample_ids@.len() == 0,
{
    if has_demand(index, roles) {
        let i = choose|i: int|
            0 <= i < index.presets@.len() && is_demanded(#[trigger] index.presets@[i], roles);
        assert(needs_preset(index.presets@, roles, index.presets@[i].preset_id));
        assert(closure.preset_ids@.contains(index.presets@[i].preset_id));
    } else {
        if closure.preset_ids@.len() > 0 {
            assert(closure.preset_ids@.contains(closure.preset_ids@[0]));
        }
        if closure.instrument_ids@.len() > 0 {
            assert(closure.instrument_ids@.contains(closure.instrument_ids@[0]));
        }
        if closure.sample_ids@.len() > 0 {
            assert(closure.sample_ids@.contains(closure.sample_ids@[0]));
        }
    }
}

/// Whether a soundfont gets a subset: it is asked for, it has an index, and one
/// of its presets plays a role.
pub open spec fn gets_subset(
    fonts: Seq<Seq<char>>,
    roles: Seq<MidiStripDescriptor>,
    indexes: Map<Seq<char>, SoundFontIndex>,
    font: Seq<char>,
) -> bool {
    fonts.contains(font) && indexes.contains_key(font) && has_demand(indexes[font], roles)
}

/// What the roles need of each of the soundfonts that get a subset.
pub fn subset_closures(
    soundfont_ids: &[String],
    roles: &[MidiStripDescriptor],
    indexes: &TextMap<SoundFontIndex>,
) -> (closures: TextMap<SubsetClosure>)
    requires
        indexes.wf(),
    ensures
        closures.wf(),
        forall|font: Seq<char>| #[trigger]
            closures@.contains_key(font) == gets_subset(
                texts(soundfont_ids@),
                roles@,
                indexes@,
                font,
            ),
        forall|font: Seq<char>| #[trigger]
            closures@.contains_key(font) ==> is_closure(closures@[font], indexes@[font], roles@),
{
    let ghost fonts = texts(soundfont_ids@);
    let mut closures: TextMap<SubsetClosure> = TextMap::new();
    let mut i: usize = 0;
    while i < soundfont_ids.len()
        invariant
            i <= soundfont_ids.len(),
            indexes.wf(),
            fonts == texts(soundfont_ids@),
            closures.wf(),
            forall|font: Seq<char>| #[trigger]
                closures@.contains_key(font) == gets_subset(
                    fonts.take(i as int),
                    roles@,
                    indexes@,
                    font,
                ),
            forall|font: Seq<char>| #[trigger]
                closures@.contains_key(font) ==> is_closure(
                    closures@[font],
                    indexes@[font],
                    roles@,
                ),
        decreases soundfont_ids.len() - i,
    {
        let ghost before = closures@;
        let ghost id = soundfont_ids@[i as int]@;
        let ghost shorter = fonts.take(i as int);
        let ghost longer = fonts.take(i + 1);
        match indexes.get(soundfont_ids[i].as_str()) {
            Some(index) => {
                let closure = subset_closure(index, roles);
                proof {
                    lemma_empty_closure(closure, *index, roles@);
                }
                if closure.preset_ids.len() > 0 {
                    closures.insert(soundfont_ids[i].clone(), closure);
                }
            },
            None => {},
        }
        assert(longer[i as int] == id);
        assert forall|font: Seq<char>| #[trigger]
            closures@.contains_key(font) == gets_subset(longer, roles@, indexes@, font) by {
            assert(before.contains_key(font) == gets_subset(shorter, roles@, indexes@, font));
            if shorter.contains(font) {
                let k = choose|k: int| 0 <= k < shorter.len() && shorter[k] == font;
                assert(longer[k] == font);
            }
            if longer.contains(font) && font != id {
                let k = choose|k: int| 0 <= k < longer.len() && longer[k] == font;
                assert(shorter[k] == font);
            }
        }
        assert forall|font: Seq<char>| #[trigger] closures@.contains_key(font) implies is_closure(
            closures@[font],
            indexes@[font],
            roles@,
        ) by {
            if font != id {
                assert(before.contains_key(font));
            }
        }
        i = i + 1;
    }
    assert(fonts.take(i as int) =~= fonts);
    closures
}

/// The plan for a closure whose sample data was merged into `ranges`.
pub open spec fn plan_of(
    font: Seq<char>,
    role_count: usize,
    closure: SubsetClosure,
    ranges: Seq<DatEntryRange>,
) -> PlanView {
    PlanView {
        font,
        role_count,
        presets: closure.preset_ids@,
        instruments: closure.instrument_ids@,
        samples: closure.sample_ids@,
        wave_range_count: closure.wave_ranges@.len() as usize,
        planned_range_count: ranges.len() as usize,
        planned_bytes: total_length(ranges) as u64,
        used_index_json: true,
    }
}

/// The plans for the soundfonts that get a subset. `merged` holds, for each
/// closure in order, its sample data with touching ranges merged.
pub fn plan_soundfont_subsets(
    role_count: usize,
    closures: &TextMap<SubsetClosure>,
    merged: &[Vec<DatEntryRange>],
) -> (plans: TextMap<SoundFontSubsetPlanDebug>)
    requires
        closures.wf(),
        merged@.len() == closures.entries@.len(),
        forall|i: int| 0 <= i < merged@.len() ==> total_length(#[trigger] merged@[i]@) <= u64::MAX,
    ensures
        plans.wf(),
        plans.entries@.len() == closures.entries@.len(),
        forall|i: int|
            0 <= i < plans.entries@.len() ==> (#[trigger] plans.entries@[i]).0@
                == closures.entries@[i].0@ && plans.entries@[i].1@ == plan_of(
                closures.entries@[i].0@,
                role_count,
                closures.entries@[i].1,
                merged@[i]@,
            ),
{
    let mut entries: Vec<(String, SoundFontSubsetPlanDebug)> = Vec::new();
    let mut i: usize = 0;
    while i < closures.entries.len()
        invariant
            i <= closures.entries.len(),
            closures.wf(),
            merged@.len() == closures.entries@.len(),
            forall|i: int|
                0 <= i < merged@.len() ==> total_length(#[trigger] merged@[i]@) <= u64::MAX,
            entries@.len() == i,
            forall|k: int|
                0 <= k < entries@.len() ==> (#[trigger] entries@[k]).0@ == closures.entries@[k].0@
                    && entries@[k].1@ == plan_of(
                    closures.entries@[k].0@,
                    role_count,
                    closures.entries@[k].1,
                    merged@[k]@,
                ),
        decreases closures.entries.len() - i,
    {
        let closure = &closures.entries[i].1;
        let plan = SoundFontSubsetPlanDebug {
            soundfont_id: closures.entries[i].0.clone(),
            requested_role_count: role_count,
            preset_ids: clone_ids(&closure.preset_ids),
            instrument_ids: clone_ids(&closure.instrument_ids),
            sample_ids: clone_ids(&closure.sample_ids),
            logical_wave_range_count: closure.wave_ranges.len(),
            planned_range_count: merged[i].len(),
            planned_byte_count: sum_lengths(&merged[i]),
            used_index_json: true,
        };
        entries.push((closures.entries[i].0.clone(), plan));
        i = i + 1;
    }
    proof {
        assert forall|a: int, b: int| 0 <= a < b < entries@.len() implies crate::text::text_before(
            (#[trigger] entries@[a]).0@,
            (#[trigger] entries@[b]).0@,
        ) by {
            assert(crate::text::text_before(
                closures.entries@[a].0@,
                closures.entries@[b].0@,
            ));
        }
    }
    TextMap { entries }
}

/// What a subset was demanded for.
#[derive(Debug)]
pub struct SoundFontDemandSignature {
    pub soundfont_id: String,
    pub preset_ids: Vec<u32>,
    pub instrument_ids: Vec<u32>,
    pub sample_ids: Vec<u32>,
    pub logical_wave_range_count: usize,
    pub full_font_fallback: bool,
}

/// The contents of a demand signature.
pub ghost struct SignatureView {
    pub font: Seq<char>,
    pub presets: Seq<u32>,
    pub instruments: Seq<u32>,
    pub samples: Seq<u32>,
    pub wave_range_count: usize,
    pub full_font_fallback: bool,
}

impl View for SoundFontDemandSignature {
    type V = SignatureView;

    open spec fn view(&self) -> SignatureView {
        SignatureView {
            font: self.soundfont_id@,
            presets: self.preset_ids@,
            instruments: self.instrument_ids@,
            samples: self.sample_ids@,
            wave_range_count: self.logical_wave_range_count,
            full_font_fallback: self.full_font_fallback,
        }
    }
}

/// The signature of a plan.
pub open spec fn signature_of(plan: PlanView) -> SignatureView {
    SignatureView {
        font: plan.font,
        presets: plan.presets,
        instruments: plan.instruments,
        samples: plan.samples,
        wave_range_count: plan.wave_range_count,
        full_font_fallback: !plan.used_index_json,
    }
}

impl SoundFontDemandSignature {
    pub fn from_subset_plan(plan: &SoundFontSubsetPlanDebug) -> (signature: Self)
        ensures
            signature@ == signature_of(plan@),
    {
        SoundFontDemandSignature {
            soundfont_id: plan.soundfont_id.clone(),
            preset_ids: clone_ids(&plan.preset_ids),
            instrument_ids: clone_ids(&plan.instrument_ids),
            sample_ids: clone_ids(&plan.sample_ids),
            logical_wave_range_count: plan.logical_wave_range_count,
            full_font_fallback: !plan.used_index_json,
        }
    }
}

/// What is loaded of one soundfont.
#[derive(Debug)]
pub struct LoadedSubsetState {
    pub soundfont_id: String,
    pub demand_signature: SoundFontDemandSignature,
    pub preset_ids: Vec<u32>,
    pub instrument_ids: Vec<u32>,
    pub sample_ids: Vec<u32>,
    pub planned_byte_count: u64,
    pub compact_loaded: bool,
}

/// The contents of a loaded subset.
pub ghost struct LoadedView {
    pub font: Seq<char>,
    pub signature: SignatureView,
    pub presets: Seq<u32>,
    pub instruments: Seq<u32>,
    pub samples: Seq<u32>,
    pub planned_bytes: u64,
    pub compact: bool,
}

impl View for LoadedSubsetState {
    type V = LoadedView;

    open spec fn view(&self) -> LoadedView {
        LoadedView {
            font: self.soundfont_id@,
            signature: self.demand_signature@,
            presets: self.preset_ids@,
            instruments: self.instrument_ids@,
            samples: self.sample_ids@,
            planned_bytes: self.planned_byte_count,
            compact: self.compact_loaded,
        }
    }
}

/// What is loaded once a plan was carried out.
pub open spec fn loaded_of(plan: PlanView, compact: bool) -> LoadedView {
    LoadedView {
        font: plan.font,
        signature: signature_of(plan),
        presets: plan.presets,
        instruments: plan.instruments,
        samples: plan.samples,
        planned_bytes: plan.planned_bytes,
        compact,
    }
}

impl LoadedSubsetState {
    pub fn from_plan(plan: &SoundFontSubsetPlanDebug, compact_loaded: bool) -> (state: Self)
        ensures
            state@ == loaded_of(plan@, compact_loaded),
    {
        LoadedSubsetState {
            soundfont_id: plan.soundfont_id.clone(),
            demand_signature: SoundFontDemandSignature::from_subset_plan(plan),
            preset_ids: clone_ids(&plan.preset_ids),
            instrument_ids: clone_ids(&plan.instrument_ids),
            sample_ids: clone_ids(&plan.sample_ids),
            planned_byte_count: plan.planned_byte_count,
            compact_loaded,
        }
    }

    /// The distinct samples, ascending.
    pub fn sample_set(&self) -> (samples: Vec<u32>)
        ensures
            ascending_u32(samples@),
            forall|x: u32| #[trigger] samples@.contains(x) == self.sample_ids@.contains(x),
    {
        sorted_distinct_u32(&self.sample_ids)
    }
}

impl SoundFontDemandSignature {
    fn duplicate(&self) -> (copy: SoundFontDemandSignature)
        ensures
            copy@ == self@,
    {
        SoundFontDemandSignature {
            soundfont_id: self.soundfont_id.clone(),
            preset_ids: clone_ids(&self.preset_ids),
            instrument_ids: clone_ids(&self.instrument_ids),
            sample_ids: clone_ids(&self.sample_ids),
            logical_wave_range_count: self.logical_wave_range_count,
            full_font_fallback: self.full_font_fallback,
        }
    }
}

/// A copy of what is loaded of each soundfont.
pub fn copy_loaded_states(states: &TextMap<LoadedSubsetState>) -> (copy: TextMap<
    LoadedSubsetState,
>)
    requires
        states.wf(),
    ensures
        copy.wf(),
        loaded_views(copy.entries@) == loaded_views(states.entries@),
{
    let mut entries: Vec<(String, LoadedSubsetState)> = Vec::new();
    let mut i: usize = 0;
    while i < states.entries.len()
        invariant
            i <= states.entries@.len(),
            entries@.len() == i,
            forall|k: int|
                0 <= k < i ==> (#[trigger] entries@[k]).0@ == states.entries@[k].0@
                    && entries@[k].1@ == states.entries@[k].1@,
        decreases states.entries@.len() - i,
    {
        let (key, state) = &states.entries[i];
        let copied = LoadedSubsetState {
            soundfont_id: state.soundfont_id.clone(),
            demand_signature: state.demand_signature.duplicate(),
            preset_ids: clone_ids(&state.preset_ids),
            instrument_ids: clone_ids(&state.instrument_ids),
            sample_ids: clone_ids(&state.sample_ids),
            planned_byte_count: state.planned_byte_count,
            compact_loaded: state.compact_loaded,
        };
        entries.push((key.clone(), copied));
        i = i + 1;
    }
    assert(loaded_views(entries@) =~= loaded_views(states.entries@));
    TextMap { entries }
}

/// Whether every member of `a` is one of `b`.
pub open spec fn members_within(a: Seq<u32>, b: Seq<u32>) -> bool {
    forall|x: u32| a.contains(x) ==> #[trigger] b.contains(x)
}

/// The number of distinct members of `a` that are not in `b`.
pub open spec fn missing_members(a: Seq<u32>, b: Seq<u32>) -> nat {
    a.to_set().difference(b.to_set()).len()
}

fn all_within(a: &[u32], b: &[u32]) -> (within: bool)
    ensures
        within == members_within(a@, b@),
{
    let mut i: usize = 0;
    while i < a.len()
        invariant
            i <= a.len(),
            forall|j: int| 0 <= j < i ==> b@.contains(#[trigger] a@[j]),
        decreases a.len() - i,
    {
        if !contains_u32(b, a[i]) {
            assert(a@.contains(a@[i as int]));
            return false;
        }
        i = i + 1;
    }
    true
}

fn count_missing(a: &Vec<u32>, b: &[u32]) -> (count: usize)
    requires
        ascending_u32(a@),
    ensures
        count == missing_members(a@, b@),
{
    let mut count: usize = 0;
    let mut i: usize = 0;
    proof {
        assert(a@.take(0).to_set().difference(b@.to_set()) =~= Set::<u32>::empty());
    }
    while i < a.len()
        invariant
            i <= a.len(),
            ascending_u32(a@),
            count <= i,
            a@.take(i as int).to_set().difference(b@.to_set()).finite(),
            count == missing_members(a@.take(i as int), b@),
        decreases a.len() - i,
    {
        let ghost shorter = a@.take(i as int);
        let ghost longer = a@.take(i + 1);
        let ghost x = a@[i as int];
        proof {
            assert(longer =~= shorter.push(x));
            assert(longer.to_set() =~= shorter.to_set().insert(x)) by {
                assert forall|y: u32| longer.to_set().contains(y) == shorter.to_set().insert(
                    x,
                ).contains(y) by {
                    if shorter.contains(y) {
                        let k = choose|k: int| 0 <= k < shorter.len() && shorter[k] == y;
                        assert(longer[k] == y);
                    }
                    assert(longer[i as int] == x);
                    if longer.contains(y) && y != x {
                        let k = choose|k: int| 0 <= k < longer.len() && longer[k] == y;
                        assert(shorter[k] == y);
                    }
                }
            }
            assert(!shorter.contains(x)) by {
                if shorter.contains(x) {
                    let k = choose|k: int| 0 <= k < shorter.len() && shorter[k] == x;
                    assert(a@[k] < a@[i as int]);
                }
            }
        }
        let ghost before = shorter.to_set().difference(b@.to_set());
        if contains_u32(b, a[i]) {
            assert(longer.to_set().difference(b@.to_set()) =~= before);
        } else {
            assert(longer.to_set().difference(b@.to_set()) =~= before.insert(x));
            count = count + 1;
        }
        i = i + 1;
    }
    assert(a@.take(i as int) =~= a@);
    count
}

/// How the loaded subsets changed between two loads.
#[derive(Debug, Copy, Clone, PartialEq, Eq, Structural)]
pub struct PlaybackSubsetTransitionDiagnostics {
    pub exact_subset_hits: usize,
    pub subset_contained_hits: usize,
    pub superset_growth_events: usize,
    pub font_set_changes: usize,
    pub missing_sample_count: usize,
    pub missing_planned_bytes: u64,
    pub compact_loaded_count: usize,
    pub full_fallback_count: usize,
}

/// Nothing changed.
pub open spec fn no_transition() -> PlaybackSubsetTransitionDiagnostics {
    PlaybackSubsetTransitionDiagnostics {
        exact_subset_hits: 0,
        subset_contained_hits: 0,
        superset_growth_events: 0,
        font_set_changes: 0,
        missing_sample_count: 0,
        missing_planned_bytes: 0,
        compact_loaded_count: 0,
        full_fallback_count: 0,
    }
}

impl Default for PlaybackSubsetTransitionDiagnostics {
    fn default() -> (value: Self)
        ensures
            value == no_transition(),
    {
        PlaybackSubsetTransitionDiagnostics {
            exact_subset_hits: 0,
            subset_contained_hits: 0,
            superset_growth_events: 0,
            font_set_changes: 0,
            missing_sample_count: 0,
            missing_planned_bytes: 0,
            compact_loaded_count: 0,
            full_fallback_count: 0,
        }
    }
}

/// The diagnostics with one more loaded soundfont: it is new, or it has the
/// same samples as before, or fewer, or more, or others.
pub open spec fn with_font(
    d: PlaybackSubsetTransitionDiagnostics,
    previous: Option<LoadedView>,
    current: LoadedView,
) -> PlaybackSubsetTransitionDiagnostics {
    let counted = PlaybackSubsetTransitionDiagnostics {
        compact_loaded_count: (d.compact_loaded_count + if current.compact {
            1int
        } else {
            0
        }) as usize,
        full_fallback_count: (d.full_fallback_count + if current.compact {
            0int
        } else {
            1
        }) as usize,
        ..d
    };
    match previous {
        None => PlaybackSubsetTransitionDiagnostics {
            font_set_changes: usize_cap(d.font_set_changes + 1) as usize,
            missing_sample_count: usize_cap(d.missing_sample_count + current.samples.len()) as usize,
            missing_planned_bytes: u64_cap(d.missing_planned_bytes + current.planned_bytes) as u64,
            ..counted
        },
        Some(previous) => {
            let shrinks = members_within(current.samples, previous.samples);
            let grows = members_within(previous.samples, current.samples);
            if shrinks && grows {
                PlaybackSubsetTransitionDiagnostics {
                    exact_subset_hits: usize_cap(d.exact_subset_hits + 1) as usize,
                    ..counted
                }
            } else if shrinks {
                PlaybackSubsetTransitionDiagnostics {
                    subset_contained_hits: usize_cap(d.subset_contained_hits + 1) as usize,
                    ..counted
                }
            } else if grows {
                PlaybackSubsetTransitionDiagnostics {
                    superset_growth_events: usize_cap(d.superset_growth_events + 1) as usize,
                    missing_sample_count: usize_cap(
                        d.missing_sample_count + missing_members(
                            current.samples,
                            previous.samples,
                        ),
                    ) as usize,
                    missing_planned_bytes: u64_cap(
                        d.missing_planned_bytes + monus(
                            current.planned_bytes as int,
                            previous.planned_bytes as int,
                        ),
                    ) as u64,
                    ..counted
                }
            } else {
                PlaybackSubsetTransitionDiagnostics {
                    font_set_changes: usize_cap(d.font_set_changes + 1) as usize,
                    ..counted
                }
            }
        },
    }
}

/// The loaded subset of a soundfont, if there is one.
pub open spec fn loaded_at(
    states: Map<Seq<char>, LoadedSubsetState>,
    font: Seq<char>,
) -> Option<LoadedView> {
    if states.contains_key(font) {
        Some(states[font]@)
    } else {
        None
    }
}

/// The contents of a list of loaded subsets.
pub open spec fn loaded_views(entries: Seq<(String, LoadedSubsetState)>) -> Seq<
    (Seq<char>, LoadedView),
> {
    entries.map_values(|entry: (String, LoadedSubsetState)| (entry.0@, entry.1@))
}

/// How the subsets in `current` changed from those in `previous`.
pub open spec fn transition_of(
    previous: Map<Seq<char>, LoadedSubsetState>,
    current: Seq<(Seq<char>, LoadedView)>,
) -> PlaybackSubsetTransitionDiagnostics
    decreases current.len(),
{
    if current.len() == 0 {
        no_transition()
    } else {
        with_font(
            transition_of(previous, current.drop_last()),
            loaded_at(previous, current.last().0),
            current.last().1,
        )
    }
}

proof fn lemma_same_members_missing(a: Seq<u32>, b: Seq<u32>, c: Seq<u32>)
    requires
        forall|x: u32| #[trigger] a.contains(x) == b.contains(x),
    ensures
        missing_members(a, c) == missing_members(b, c),
{
    assert(a.to_set() =~= b.to_set()) by {
        assert forall|x: u32| a.to_set().contains(x) == b.to_set().contains(x) by {
            assert(a.contains(x) == b.contains(x));
        }
    }
}

/// Compares the loaded subsets with those of the load before.
pub fn compare_subset_transition(
    previous: &TextMap<LoadedSubsetState>,
    current: &TextMap<LoadedSubsetState>,
) -> (diagnostics: PlaybackSubsetTransitionDiagnostics)
    requires
        previous.wf(),
        current.wf(),
    ensures
        diagnostics == transition_of(previous@, loaded_views(current.entries@)),
{
    let ghost views = loaded_views(current.entries@);
    let mut d = PlaybackSubsetTransitionDiagnostics::default();
    let mut i: usize = 0;
    assert(views.take(0) =~= Seq::<(Seq<char>, LoadedView)>::empty());
    while i < current.entries.len()
        invariant
            i <= current.entries.len(),
            previous.wf(),
            views == loaded_views(current.entries@),
            d == transition_of(previous@, views.take(i as int)),
            d.compact_loaded_count + d.full_fallback_count == i,
        decreases current.entries.len() - i,
    {
        let state = &current.entries[i].1;
        let ghost longer = views.take(i + 1);
        assert(longer.drop_last() =~= views.take(i as int));
        assert(longer.last() == (current.entries@[i as int].0@, state@));
        match previous.get(current.entries[i].0.as_str()) {
            None => {
                d.font_set_changes = d.font_set_changes.saturating_add(1);
                d.missing_sample_count = d.missing_sample_count.saturating_add(
                    state.sample_ids.len(),
                );
                d.missing_planned_bytes = d.missing_planned_bytes.saturating_add(
                    state.planned_byte_count,
                );
            },
            Some(before) => {
                let previous_samples = before.sample_set();
                let current_samples = state.sample_set();
                let shrinks = all_within(&current_samples, &previous_samples);
                let grows = all_within(&previous_samples, &current_samples);
                assert(shrinks == members_within(state.sample_ids@, before.sample_ids@)) by {
                    assert forall|x: u32| #[trigger] before.sample_ids@.contains(x)
                        == previous_samples@.contains(x) by {
                        assert(previous_samples@.contains(x) == before.sample_ids@.contains(x));
                    }
                }
                assert(grows == members_within(before.sample_ids@, state.sample_ids@)) by {
                    assert forall|x: u32| #[trigger] state.sample_ids@.contains(x)
                        == current_samples@.contains(x) by {
                        assert(current_samples@.contains(x) == state.sample_ids@.contains(x));
                    }
                }
                if shrinks && grows {
                    d.exact_subset_hits = d.exact_subset_hits.saturating_add(1);
                } else if shrinks {
                    d.subset_contained_hits = d.subset_contained_hits.saturating_add(1);
                } else if grows {
                    d.superset_growth_events = d.superset_growth_events.saturating_add(1);
                    let missing: usize = count_missing(&current_samples, &before.sample_ids);
                    proof {
                        lemma_same_members_missing(
                            current_samples@,
                            state.sample_ids@,
                            before.sample_ids@,
                        );
                    }
                    d.missing_sample_count = d.missing_sample_count.saturating_add(missing);
                    d.missing_planned_bytes = d.missing_planned_bytes.saturating_add(
                        state.planned_byte_count.saturating_sub(before.planned_byte_count),
                    );
                } else {
                    d.font_set_changes = d.font_set_changes.saturating_add(1);
                }
            },
        }
        if state.compact_loaded {
            d.compact_loaded_count = d.compact_loaded_count + 1;
        } else {
            d.full_fallback_count = d.full_fallback_count + 1;
        }
        i = i + 1;
    }
    assert(views.take(i as int) =~= views);
    d
}

/// Loading the same subsets again finds only exact hits, and nothing missing.
pub proof fn same_subsets_are_exact_hits(
    states: Map<Seq<char>, LoadedSubsetState>,
    current: Seq<(Seq<char>, LoadedView)>,
)
    requires
        current.len() <= usize::MAX,
        forall|i: int|
            0 <= i < current.len() ==> loaded_at(states, (#[trigger] current[i]).0) == Some(
                current[i].1,
            ),
    ensures
        transition_of(states, current).exact_subset_hits == current.len(),
        transition_of(states, current).subset_contained_hits == 0,
        transition_of(states, current).superset_growth_events == 0,
        transition_of(states, current).font_set_changes == 0,
        transition_of(states, current).missing_sample_count == 0,
        transition_of(states, current).missing_planned_bytes == 0,
    decreases current.len(),
{
    if current.len() > 0 {
        assert forall|i: int| 0 <= i < current.drop_last().len() implies loaded_at(
            states,
            (#[trigger] current.drop_last()[i]).0,
        ) == Some(current.drop_last()[i].1) by {
            assert(current.drop_last()[i] == current[i]);
        }
        same_subsets_are_exact_hits(states, current.drop_last());
        assert(current.last() == current[current.len() - 1]);
    }
}

/// Each loaded soundfont was loaded either as a subset or in full.
pub proof fn subsets_and_fallbacks_cover_the_fonts(
    previous: Map<Seq<char>, LoadedSubsetState>,
    current: Seq<(Seq<char>, LoadedView)>,
)
    requires
        current.len() <= usize::MAX,
    ensures
        transition_of(previous, current).compact_loaded_count + transition_of(
            previous,
            current,
        ).full_fallback_count == current.len(),
    decreases current.len(),
{
    if current.len() > 0 {
        subsets_and_fallbacks_cover_the_fonts(previous, current.drop_last());
    }
}

/// Whether what is loaded satisfies a plan: the soundfont is loaded, and in full
/// or with every sample of the plan.
pub open spec fn satisfies_plan(previous: Option<LoadedView>, plan: PlanView) -> bool {
    match previous {
        None => false,
        Some(previous) => !previous.compact || members_within(plan.samples, previous.samples),
    }
}

/// Whether what is loaded satisfies every plan.
pub open spec fn satisfies_plans(
    previous: Map<Seq<char>, LoadedSubsetState>,
    plans: Seq<(String, SoundFontSubsetPlanDebug)>,
) -> bool {
    forall|i: int|
        0 <= i < plans.len() ==> satisfies_plan(
            loaded_at(previous, (#[trigger] plans[i]).0@),
            plans[i].1@,
        )
}

/// The subsets of the plans, each loaded in the way it is loaded now.
pub open spec fn kept_views(
    previous: Map<Seq<char>, LoadedSubsetState>,
    plans: Seq<(String, SoundFontSubsetPlanDebug)>,
) -> Seq<(Seq<char>, LoadedView)> {
    plans.map_values(
        |plan: (String, SoundFontSubsetPlanDebug)|
            (
                plan.0@,
                loaded_of(
                    plan.1@,
                    loaded_at(previous, plan.0@) is Some && loaded_at(
                        previous,
                        plan.0@,
                    )->Some_0.compact,
                ),
            ),
    )
}

/// Whether what is loaded can serve a MIDI file as it is.
#[derive(Debug, Copy, Clone, PartialEq, Eq, Structural)]
pub enum SubsetReuse {
    /// No soundfont gets a subset: what is loaded will do.
    NothingPlanned,
    /// What is loaded covers the plans; how the demand changed.
    Satisfied(PlaybackSubsetTransitionDiagnostics),
    /// Something is missing.
    NotSatisfied,
}

/// Whether what is loaded can serve the plans as it is, and if so how the
/// demand changed.
pub fn loaded_subset_state_satisfies(
    previous: &TextMap<LoadedSubsetState>,
    plans: &TextMap<SoundFontSubsetPlanDebug>,
) -> (reuse: SubsetReuse)
    requires
        previous.wf(),
        plans.wf(),
    ensures
        reuse == if plans.entries@.len() == 0 {
            SubsetReuse::NothingPlanned
        } else if satisfies_plans(previous@, plans.entries@) {
            SubsetReuse::Satisfied(
                transition_of(previous@, kept_views(previous@, plans.entries@)),
            )
        } else {
            SubsetReuse::NotSatisfied
        },
{
    if plans.entries.len() == 0 {
        return SubsetReuse::NothingPlanned;
    }
    let mut entries: Vec<(String, LoadedSubsetState)> = Vec::new();
    let mut i: usize = 0;
    while i < plans.entries.len()
        invariant
            i <= plans.entries.len(),
            plans.entries@.len() > 0,
            previous.wf(),
            plans.wf(),
            entries@.len() == i,
            forall|k: int|
                0 <= k < i ==> satisfies_plan(
                    loaded_at(previous@, (#[trigger] plans.entries@[k]).0@),
                    plans.entries@[k].1@,
                ),
            forall|k: int|
                0 <= k < i ==> ((#[trigger] entries@[k]).0@, entries@[k].1@) == kept_views(
                    previous@,
                    plans.entries@,
                )[k],
        decreases plans.entries.len() - i,
    {
        let plan = &plans.entries[i].1;
        match previous.get(plans.entries[i].0.as_str()) {
            None => {
                assert(!satisfies_plan(
                    loaded_at(previous@, plans.entries@[i as int].0@),
                    plan@,
                ));
                return SubsetReuse::NotSatisfied;
            },
            Some(before) => {
                if before.compact_loaded && !all_within(&plan.sample_ids, &before.sample_ids) {
                    assert(!satisfies_plan(
                        loaded_at(previous@, plans.entries@[i as int].0@),
                        plan@,
                    ));
                    return SubsetReuse::NotSatisfied;
                }
                let state = LoadedSubsetState::from_plan(plan, before.compact_loaded);
                entries.push((plans.entries[i].0.clone(), state));
            },
        }
        i = i + 1;
    }
    let current = TextMap { entries };
    proof {
        assert forall|a: int, b: int| 0 <= a < b < current.entries@.len() implies
            crate::text::text_before(
            (#[trigger] current.entries@[a]).0@,
            (#[trigger] current.entries@[b]).0@,
        ) by {
            assert(kept_views(previous@, plans.entries@)[a].0 == plans.entries@[a].0@);
            assert(kept_views(previous@, plans.entries@)[b].0 == plans.entries@[b].0@);
            assert(crate::text::text_before(plans.entries@[a].0@, plans.entries@[b].0@));
        }
        assert(loaded_views(current.entries@) =~= kept_views(previous@, plans.entries@));
    }
    SubsetReuse::Satisfied(compare_subset_transition(previous, &current))
}

/// A plan that was just carried out, in full or as a subset, is satisfied.
pub proof fn loaded_plan_is_satisfied(plan: PlanView, compact: bool)
    ensures
        satisfies_plan(Some(loaded_of(plan, compact)), plan),
{
}

/// The decimal texts of ids, with commas between them.
pub open spec fn joined_ids(ids: Seq<u32>) -> Seq<char> {
    joined(ids.map_values(|id: u32| decimal(id as nat)), ","@)
}

pub fn join_u32_ids(ids: &[u32]) -> (text: String)
    ensures
        text@ == joined_ids(ids@),
{
    let mut parts: Vec<String> = Vec::new();
    let mut i: usize = 0;
    let ghost all = ids@.map_values(|id: u32| decimal(id as nat));
    while i < ids.len()
        invariant
            i <= ids.len(),
            all == ids@.map_values(|id: u32| decimal(id as nat)),
            texts(parts@) == all.take(i as int),
        decreases ids.len() - i,
    {
        let ghost before = parts@;
        parts.push(decimal_text(ids[i] as u128));
        i = i + 1;
        assert(texts(parts@) =~= texts(before).push(all[i - 1]));
        assert(texts(parts@) =~= all.take(i as int));
    }
    assert(all.take(i as int) =~= all);
    join(&parts, ",")
}

/// The text that identifies the demand of a plan.
pub open spec fn demand_text(plan: PlanView) -> Seq<char> {
    "roles="@ + decimal(plan.role_count as nat) + ";presets="@ + joined_ids(plan.presets)
        + ";instruments="@ + joined_ids(plan.instruments) + ";samples="@ + joined_ids(plan.samples)
        + ";ranges="@ + decimal(plan.wave_range_count as nat)
}

pub fn subset_demand_signature(plan: &SoundFontSubsetPlanDebug) -> (text: String)
    ensures
        text@ == demand_text(plan@),
{
    let mut text = "roles=".to_owned();
    push_decimal(&mut text, plan.requested_role_count as u128);
    text.append(";presets=");
    text.append(join_u32_ids(&plan.preset_ids).as_str());
    text.append(";instruments=");
    text.append(join_u32_ids(&plan.instrument_ids).as_str());
    text.append(";samples=");
    text.append(join_u32_ids(&plan.sample_ids).as_str());
    text.append(";ranges=");
    push_decimal(&mut text, plan.logical_wave_range_count as u128);
    text
}

/// The plans of a load, added up.
#[derive(Debug)]
pub struct SoundFontSubsetPlanAggregateDebug {
    pub plan_count: usize,
    pub preset_count: usize,
    pub instrument_count: usize,
    pub sample_count: usize,
    pub logical_wave_range_count: usize,
    pub planned_range_count: usize,
    pub planned_byte_count: u64,
    pub index_json_plan_count: usize,
    pub signatures: Vec<SoundFontDemandSignature>,
}

/// The sums over a list of plans.
pub ghost struct PlanSums {
    pub presets: int,
    pub instruments: int,
    pub samples: int,
    pub wave_ranges: int,
    pub planned_ranges: int,
    pub planned_bytes: int,
    pub index_plans: int,
}

pub open spec fn plan_sums(plans: Seq<(String, SoundFontSubsetPlanDebug)>) -> PlanSums
    decreases plans.len(),
{
    if plans.len() == 0 {
        PlanSums {
            presets: 0,
            instruments: 0,
            samples: 0,
            wave_ranges: 0,
            planned_ranges: 0,
            planned_bytes: 0,
            index_plans: 0,
        }
    } else {
        let before = plan_sums(plans.drop_last());
        let plan = plans.last().1@;
        PlanSums {
            presets: before.presets + plan.presets.len(),
            instruments: before.instruments + plan.instruments.len(),
            samples: before.samples + plan.samples.len(),
            wave_ranges: before.wave_ranges + plan.wave_range_count,
            planned_ranges: before.planned_ranges + plan.planned_range_count,
            planned_bytes: before.planned_bytes + plan.planned_bytes,
            index_plans: before.index_plans + if plan.used_index_json {
                1int
            } else {
                0
            },
        }
    }
}

/// Every sum fits its machine type.
pub open spec fn sums_fit(sums: PlanSums) -> bool {
    &&& sums.presets <= usize::MAX
    &&& sums.instruments <= usize::MAX
    &&& sums.samples <= usize::MAX
    &&& sums.wave_ranges <= usize::MAX
    &&& sums.planned_ranges <= usize::MAX
    &&& sums.planned_bytes <= u64::MAX
}

proof fn lemma_sums_grow(plans: Seq<(String, SoundFontSubsetPlanDebug)>, n: int)
    requires
        0 <= n <= plans.len(),
        sums_fit(plan_sums(plans)),
    ensures
        sums_fit(plan_sums(plans.take(n))),
        plan_sums(plans.take(n)).index_plans <= n,
    decreases plans.len(),
{
    if n < plans.len() {
        lemma_sums_grow(plans.drop_last(), n);
        assert(plans.drop_last().take(n) =~= plans.take(n));
    } else {
        assert(plans.take(n) =~= plans);
        if n > 0 {
            lemma_sums_grow(plans.drop_last(), n - 1);
            assert(plans.drop_last().take(n - 1) =~= plans.drop_last());
        }
    }
}

impl SoundFontSubsetPlanAggregateDebug {
    pub fn from_plans(plans: &TextMap<SoundFontSubsetPlanDebug>) -> (aggregate: Self)
        requires
            plans.wf(),
            sums_fit(plan_sums(plans.entries@)),
        ensures
            aggregate.plan_count == plans.entries@.len(),
            aggregate.preset_count == plan_sums(plans.entries@).presets,
            aggregate.instrument_count == plan_sums(plans.entries@).instruments,
            aggregate.sample_count == plan_sums(plans.entries@).samples,
            aggregate.logical_wave_range_count == plan_sums(plans.entries@).wave_ranges,
            aggregate.planned_range_count == plan_sums(plans.entries@).planned_ranges,
            aggregate.planned_byte_count == plan_sums(plans.entries@).planned_bytes,
            aggregate.index_json_plan_count == plan_sums(plans.entries@).index_plans,
            aggregate.signatures@.len() == plans.entries@.len(),
            forall|i: int|
                0 <= i < plans.entries@.len() ==> (#[trigger] aggregate.signatures@[i])@
                    == signature_of(plans.entries@[i].1@),
    {
        let ghost all = plans.entries@;
        let mut aggregate = SoundFontSubsetPlanAggregateDebug {
            plan_count: plans.entries.len(),
            preset_count: 0,
            instrument_count: 0,
            sample_count: 0,
            logical_wave_range_count: 0,
            planned_range_count: 0,
            planned_byte_count: 0,
            index_json_plan_count: 0,
            signatures: Vec::new(),
        };
        let mut i: usize = 0;
        assert(all.take(0) =~= Seq::<(String, SoundFontSubsetPlanDebug)>::empty());
        while i < plans.entries.len()
            invariant
                i <= plans.entries.len(),
                all == plans.entries@,
                sums_fit(plan_sums(all)),
                aggregate.plan_count == all.len(),
                aggregate.preset_count == plan_sums(all.take(i as int)).presets,
                aggregate.instrument_count == plan_sums(all.take(i as int)).instruments,
                aggregate.sample_count == plan_sums(all.take(i as int)).samples,
                aggregate.logical_wave_range_count == plan_sums(all.take(i as int)).wave_ranges,
                aggregate.planned_range_count == plan_sums(all.take(i as int)).planned_ranges,
                aggregate.planned_byte_count == plan_sums(all.take(i as int)).planned_bytes,
                aggregate.index_json_plan_count == plan_sums(all.take(i as int)).index_plans,
                aggregate.signatures@.len() == i,
                forall|k: int|
                    0 <= k < i ==> (#[trigger] aggregate.signatures@[k])@ == signature_of(
                        all[k].1@,
                    ),
            decreases plans.entries.len() - i,
        {
            let plan = &plans.entries[i].1;
            proof {
                lemma_sums_grow(all, i + 1);
                assert(all.take(i + 1).drop_last() =~= all.take(i as int));
            }
            aggregate.preset_count = aggregate.preset_count + plan.preset_ids.len();
            aggregate.instrument_count = aggregate.instrument_count + plan.instrument_ids.len();
            aggregate.sample_count = aggregate.sample_count + plan.sample_ids.len();
            aggregate.logical_wave_range_count = aggregate.logical_wave_range_count
                + plan.logical_wave_range_count;
            aggregate.planned_range_count = aggregate.planned_range_count
                + plan.planned_range_count;
            aggregate.planned_byte_count = aggregate.planned_byte_count + plan.planned_byte_count;
            if plan.used_index_json {
                aggregate.index_json_plan_count = aggregate.index_json_plan_count + 1;
            }
            aggregate.signatures.push(SoundFontDemandSignature::from_subset_plan(plan));
            i = i + 1;
        }
        assert(all.take(i as int) =~= all);
        aggregate
    }
}

/// The little-endian sample at position `i` of `bytes`.
pub open spec fn sample_at(bytes: Seq<u8>, i: int) -> int {
    let n = bytes[2 * i] + 256 * bytes[2 * i + 1];
    if n < 0x8000 {
        n
    } else {
        n - 0x1_0000
    }
}

/// The 16-bit little-endian samples of `bytes`, or an error where the number of
/// bytes is odd.
pub fn decode_smpl_i16(bytes: &[u8]) -> (samples: Result<Vec<i16>, crate::error::FlutzError>)
    ensures
        match samples {
            Ok(samples) => bytes@.len() % 2 == 0 && samples@.len() == bytes@.len() as int / 2 && (
            forall|i: int| 0 <= i < samples@.len() ==> #[trigger] samples@[i] == sample_at(bytes@, i)),
            Err(error) => bytes@.len() % 2 == 1 && error@ == (
                crate::error::ErrorKind::InvalidInput,
                "soundfont sample range has odd byte length"@,
            ),
        },
{
    if bytes.len() % 2 != 0 {
        return Err(
            crate::error::FlutzError::InvalidInput(
                "soundfont sample range has odd byte length".to_owned(),
            ),
        );
    }
    let mut samples: Vec<i16> = Vec::new();
    let mut i: usize = 0;
    while i < bytes.len()
        invariant
            i <= bytes.len(),
            i % 2 == 0,
            bytes@.len() % 2 == 0,
            samples@.len() == i as int / 2,
            forall|k: int| 0 <= k < samples@.len() ==> #[trigger] samples@[k] == sample_at(bytes@, k),
        decreases bytes.len() - i,
    {
        let n: i32 = bytes[i] as i32 + 256 * bytes[i + 1] as i32;
        let sample: i16 = if n < 0x8000 {
            n as i16
        } else {
            (n - 0x1_0000) as i16
        };
        samples.push(sample);
        i = i + 2;
    }
    Ok(samples)
}

/// A percussion role needs every preset of bank 128, with all its instruments, and where
/// all roles are percussion nothing is loaded that only presets of other banks have.
pub proof fn percussion_is_served_from_its_bank(
    closure: SubsetClosure,
    index: SoundFontIndex,
    roles: Seq<MidiStripDescriptor>,
)
    requires
        is_closure(closure, index, roles),
    ensures
        forall|r: int, p: int|
            0 <= r < roles.len() && (#[trigger] roles[r]).is_percussion && 0 <= p
                < index.presets@.len() && (#[trigger] index.presets@[p]).bank == 128 ==> {
                &&& closure.preset_ids@.contains(index.presets@[p].preset_id)
                &&& forall|id: u32| #[trigger]
                    index.presets@[p].instrument_ids@.contains(id)
                        ==> closure.instrument_ids@.contains(id)
            },
        (forall|r: int| 0 <= r < roles.len() ==> (#[trigger] roles[r]).is_percussion) ==> {
            &&& forall|id: u32| #[trigger]
                closure.preset_ids@.contains(id) ==> exists|p: int|
                    0 <= p < index.presets@.len() && (#[trigger] index.presets@[p]).bank == 128
                        && index.presets@[p].preset_id == id
            &&& forall|id: u32| #[trigger]
                closure.instrument_ids@.contains(id) ==> exists|p: int|
                    0 <= p < index.presets@.len() && (#[trigger] index.presets@[p]).bank == 128
                        && index.presets@[p].instrument_ids@.contains(id)
        },
{
    assert forall|r: int, p: int|
        0 <= r < roles.len() && (#[trigger] roles[r]).is_percussion && 0 <= p < index.presets@.len()
            && (#[trigger] index.presets@[p]).bank == 128 implies {
        &&& closure.preset_ids@.contains(index.presets@[p].preset_id)
        &&& forall|id: u32| #[trigger]
            index.presets@[p].instrument_ids@.contains(id) ==> closure.instrument_ids@.contains(id)
    } by {
        assert(is_demanded(index.presets@[p], roles)) by {
            assert(plays(index.presets@[p].bank, index.presets@[p].program, roles[r]));
        }
        assert(needs_preset(index.presets@, roles, index.presets@[p].preset_id));
        assert forall|id: u32| #[trigger]
            index.presets@[p].instrument_ids@.contains(
                id,
            ) implies closure.instrument_ids@.contains(id) by {
            assert(needs_instrument(index.presets@, roles, id));
        }
    }
}

/// A melodic role needs the presets of its bank and program, with all their instruments,
/// and where no role is percussion nothing is loaded that no role asks for by its bank and
/// program.
pub proof fn melodic_roles_are_served_by_bank_and_program(
    closure: SubsetClosure,
    index: SoundFontIndex,
    roles: Seq<MidiStripDescriptor>,
)
    requires
        is_closure(closure, index, roles),
    ensures
        forall|r: int, p: int|
            0 <= r < roles.len() && !(#[trigger] roles[r]).is_percussion && 0 <= p
                < index.presets@.len() && (#[trigger] index.presets@[p]).bank == roles[r].bank
                && index.presets@[p].program == roles[r].program ==> {
                &&& closure.preset_ids@.contains(index.presets@[p].preset_id)
                &&& forall|id: u32| #[trigger]
                    index.presets@[p].instrument_ids@.contains(id)
                        ==> closure.instrument_ids@.contains(id)
            },
        (forall|r: int| 0 <= r < roles.len() ==> !(#[trigger] roles[r]).is_percussion) ==> {
            &&& forall|id: u32| #[trigger]
                closure.preset_ids@.contains(id) ==> exists|p: int, r: int|
                    0 <= p < index.presets@.len() && 0 <= r < roles.len()
                        && (#[trigger] index.presets@[p]).preset_id == id && index.presets@[p].bank
                        == (#[trigger] roles[r]).bank && index.presets@[p].program
                        == roles[r].program
            &&& forall|id: u32| #[trigger]
                closure.instrument_ids@.contains(id) ==> exists|p: int, r: int|
                    0 <= p < index.presets@.len() && 0 <= r < roles.len()
                        && (#[trigger] index.presets@[p]).instrument_ids@.contains(id)
                        && index.presets@[p].bank == (#[trigger] roles[r]).bank
                        && index.presets@[p].program == roles[r].program
        },
{
    assert forall|r: int, p: int|
        0 <= r < roles.len() && !(#[trigger] roles[r]).is_percussion && 0 <= p
            < index.presets@.len() && (#[trigger] index.presets@[p]).bank == roles[r].bank
            && index.presets@[p].program == roles[r].program implies {
        &&& closure.preset_ids@.contains(index.presets@[p].preset_id)
        &&& forall|id: u32| #[trigger]
            index.presets@[p].instrument_ids@.contains(id) ==> closure.instrument_ids@.contains(id)
    } by {
        assert(is_demanded(index.presets@[p], roles)) by {
            assert(plays(index.presets@[p].bank, index.presets@[p].program, roles[r]));
        }
        assert(needs_preset(index.presets@, roles, index.presets@[p].preset_id));
        assert forall|id: u32| #[trigger]
            index.presets@[p].instrument_ids@.contains(
                id,
            ) implies closure.instrument_ids@.contains(id) by {
            assert(needs_instrument(index.presets@, roles, id));
        }
    }
    if forall|r: int| 0 <= r < roles.len() ==> !(#[trigger] roles[r]).is_percussion {
        assert forall|id: u32| #[trigger] closure.preset_ids@.contains(id) implies exists|
            p: int,
            r: int,
        |
            0 <= p < index.presets@.len() && 0 <= r < roles.len()
                && (#[trigger] index.presets@[p]).preset_id == id && index.presets@[p].bank == (
            #[trigger] roles[r]).bank && index.presets@[p].program == roles[r].program by {
            assert(needs_preset(index.presets@, roles, id));
            let p = choose|p: int|
                0 <= p < index.presets@.len() && is_demanded(#[trigger] index.presets@[p], roles)
                    && index.presets@[p].preset_id == id;
            let r = choose|r: int|
                0 <= r < roles.len() && plays(
                    index.presets@[p].bank,
                    index.presets@[p].program,
                    #[trigger] roles[r],
                );
            assert(index.presets@[p].bank == roles[r].bank);
        }
        assert forall|id: u32| #[trigger] closure.instrument_ids@.contains(id) implies exists|
            p: int,
            r: int,
        |
            0 <= p < index.presets@.len() && 0 <= r < roles.len()
                && (#[trigger] index.presets@[p]).instrument_ids@.contains(id)
                && index.presets@[p].bank == (#[trigger] roles[r]).bank
                && index.presets@[p].program == roles[r].program by {
            assert(needs_instrument(index.presets@, roles, id));
            let p = choose|p: int|
                0 <= p < index.presets@.len() && is_demanded(#[trigger] index.presets@[p], roles)
                    && index.presets@[p].instrument_ids@.contains(id);
            let r = choose|r: int|
                0 <= r < roles.len() && plays(
                    index.presets@[p].bank,
                    index.presets@[p].program,
                    #[trigger] roles[r],
                );
            assert(index.presets@[p].bank == roles[r].bank);
        }
    }
}

/// With an instrument come all the samples and all the data of its entry, and no sample or
/// piece of data comes without such an instrument.
pub proof fn instruments_come_with_their_samples(
    closure: SubsetClosure,
    index: SoundFontIndex,
    roles: Seq<MidiStripDescriptor>,
    m: int,
)
    requires
        is_closure(closure, index, roles),
        forall|a: int, b: int|
            0 <= a < b < index.instrument_load_map@.len() ==> (
            #[trigger] index.instrument_load_map@[a]).instrument_id != (
            #[trigger] index.instrument_load_map@[b]).instrument_id,
        0 <= m < index.instrument_load_map@.len(),
    ensures
        closure.instrument_ids@.contains(index.instrument_load_map@[m].instrument_id) ==> {
            &&& forall|id: u32| #[trigger]
                index.instrument_load_map@[m].sample_ids@.contains(id)
                    ==> closure.sample_ids@.contains(id)
            &&& forall|range: DatEntryRange| #[trigger]
                index.instrument_load_map@[m].wave_ranges@.contains(range) && range.length > 0
                    ==> closure.wave_ranges@.contains(range)
        },
        forall|id: u32| #[trigger]
            closure.sample_ids@.contains(id) ==> exists|k: int|
                0 <= k < index.instrument_load_map@.len() && closure.instrument_ids@.contains(
                    (#[trigger] index.instrument_load_map@[k]).instrument_id,
                ) && index.instrument_load_map@[k].sample_ids@.contains(id),
        forall|range: DatEntryRange| #[trigger]
            closure.wave_ranges@.contains(range) ==> range.length > 0 && exists|k: int|
                0 <= k < index.instrument_load_map@.len() && closure.instrument_ids@.contains(
                    (#[trigger] index.instrument_load_map@[k]).instrument_id,
                ) && index.instrument_load_map@[k].wave_ranges@.contains(range),
{
    let maps = index.instrument_load_map@;
    let instrument = maps[m].instrument_id;
    lemma_load_entry(maps, instrument, maps.len() as int);
    if closure.instrument_ids@.contains(instrument) {
        let i = choose|i: int|
            0 <= i < closure.instrument_ids@.len() && closure.instrument_ids@[i] == instrument;
        assert forall|id: u32| #[trigger]
            maps[m].sample_ids@.contains(id) implies closure.sample_ids@.contains(id) by {
            assert(needs_sample(maps, closure.instrument_ids@, id)) by {
                assert(closure.instrument_ids@[i] == instrument);
            }
        }
        assert forall|range: DatEntryRange| #[trigger]
            maps[m].wave_ranges@.contains(range) && range.length
                > 0 implies closure.wave_ranges@.contains(range) by {
            lemma_filled_ranges(maps[m].wave_ranges@, range);
            lemma_needed_ranges(maps, closure.instrument_ids@, range);
            assert(closure.instrument_ids@[i] == instrument);
        }
    }
    assert forall|id: u32| #[trigger] closure.sample_ids@.contains(id) implies exists|k: int|
        0 <= k < maps.len() && closure.instrument_ids@.contains(
            (#[trigger] maps[k]).instrument_id,
        ) && maps[k].sample_ids@.contains(id) by {
        assert(needs_sample(maps, closure.instrument_ids@, id));
        let i = choose|i: int|
            0 <= i < closure.instrument_ids@.len() && (match load_entry(
                maps,
                #[trigger] closure.instrument_ids@[i],
                maps.len() as int,
            ) {
                Some(entry) => entry.sample_ids@.contains(id),
                None => false,
            });
        lemma_load_entry(maps, closure.instrument_ids@[i], maps.len() as int);
    }
    assert forall|range: DatEntryRange| #[trigger]
        closure.wave_ranges@.contains(range) implies range.length > 0 && exists|k: int|
        0 <= k < maps.len() && closure.instrument_ids@.contains(
            (#[trigger] maps[k]).instrument_id,
        ) && maps[k].wave_ranges@.contains(range) by {
        lemma_needed_ranges(maps, closure.instrument_ids@, range);
        let i = choose|i: int|
            0 <= i < closure.instrument_ids@.len() && (match load_entry(
                maps,
                #[trigger] closure.instrument_ids@[i],
                maps.len() as int,
            ) {
                Some(entry) => filled_ranges(entry.wave_ranges@).contains(range),
                None => false,
            });
        lemma_load_entry(maps, closure.instrument_ids@[i], maps.len() as int);
        let entry = load_entry(maps, closure.instrument_ids@[i], maps.len() as int)->Some_0;
        lemma_filled_ranges(entry.wave_ranges@, range);
    }
}

proof fn lemma_load_entry(maps: Seq<InstrumentLoadMap>, instrument: u32, n: int)
    requires
        0 <= n <= maps.len(),
    ensures
        match load_entry(maps, instrument, n) {
            Some(entry) => entry.instrument_id == instrument && exists|k: int|
                0 <= k < n && #[trigger] maps[k] == entry,
            None => forall|k: int|
                0 <= k < n ==> (#[trigger] maps[k]).instrument_id != instrument,
        },
    decreases n,
{
    if n > 0 {
        lemma_load_entry(maps, instrument, n - 1);
        assert(maps[n - 1] == maps[n - 1]);
    }
}

proof fn lemma_filled_ranges(ranges: Seq<DatEntryRange>, range: DatEntryRange)
    ensures
        filled_ranges(ranges).contains(range) == (ranges.contains(range) && range.length > 0),
    decreases ranges.len(),
{
    if ranges.len() > 0 {
        let shorter = ranges.drop_last();
        let before = filled_ranges(shorter);
        let now = filled_ranges(ranges);
        lemma_filled_ranges(shorter, range);
        if shorter.contains(range) {
            let k = choose|k: int| 0 <= k < shorter.len() && shorter[k] == range;
            assert(ranges[k] == range);
        }
        if ranges.contains(range) && ranges.last() != range {
            let k = choose|k: int| 0 <= k < ranges.len() && ranges[k] == range;
            assert(shorter[k] == range);
        }
        if before.contains(range) {
            let k = choose|k: int| 0 <= k < before.len() && before[k] == range;
            assert(now[k] == range);
        }
        if ranges.last().length > 0 {
            assert(now[before.len() as int] == ranges.last());
            if now.contains(range) && ranges.last() != range {
                let k = choose|k: int| 0 <= k < now.len() && now[k] == range;
                assert(before[k] == range);
            }
        }
        assert(ranges[ranges.len() - 1] == ranges.last());
    }
}

proof fn lemma_needed_ranges(
    maps: Seq<InstrumentLoadMap>,
    instruments: Seq<u32>,
    range: DatEntryRange,
)
    ensures
        needed_ranges(maps, instruments).contains(range) == (exists|i: int|
            0 <= i < instruments.len() && (match load_entry(
                maps,
                #[trigger] instruments[i],
                maps.len() as int,
            ) {
                Some(entry) => filled_ranges(entry.wave_ranges@).contains(range),
                None => false,
            })),
    decreases instruments.len(),
{
    if instruments.len() > 0 {
        let shorter = instruments.drop_last();
        let before = needed_ranges(maps, shorter);
        let now = needed_ranges(maps, instruments);
        lemma_needed_ranges(maps, shorter, range);
        let last = instruments.len() - 1;
        if before.contains(range) {
            let k = choose|k: int| 0 <= k < before.len() && before[k] == range;
            assert(now[k] == range);
            let i = choose|i: int|
                0 <= i < shorter.len() && (match load_entry(
                    maps,
                    #[trigger] shorter[i],
                    maps.len() as int,
                ) {
                    Some(entry) => filled_ranges(entry.wave_ranges@).contains(range),
                    None => false,
                });
            assert(instruments[i] == shorter[i]);
        }
        assert(instruments[last] == instruments.last());
        match load_entry(maps, instruments.last(), maps.len() as int) {
            Some(entry) => {
                let own = filled_ranges(entry.wave_ranges@);
                if own.contains(range) {
                    let k = choose|k: int| 0 <= k < own.len() && own[k] == range;
                    assert(now[before.len() + k] == range);
                }
                if now.contains(range) && !before.contains(range) {
                    let k = choose|k: int| 0 <= k < now.len() && now[k] == range;
                    if k < before.len() {
                        assert(before[k] == range);
                    }
                    assert(own[k - before.len()] == range);
                }
            },
            None => {},
        }
        if exists|i: int|
            0 <= i < instruments.len() && (match load_entry(
                maps,
                #[trigger] instruments[i],
                maps.len() as int,
            ) {
                Some(entry) => filled_ranges(entry.wave_ranges@).contains(range),
                None => false,
            }) {
            let i = choose|i: int|
                0 <= i < instruments.len() && (match load_entry(
                    maps,
                    #[trigger] instruments[i],
                    maps.len() as int,
                ) {
                    Some(entry) => filled_ranges(entry.wave_ranges@).contains(range),
                    None => false,
                });
            if i < last {
                assert(shorter[i] == instruments[i]);
            }
        }
    }
}

/// Samples that are written as two bytes each, the low one first, and as their complement
/// where they are negative, read back as they were.
pub proof fn samples_read_back(samples: Seq<i16>, bytes: Seq<u8>, i: int)
    requires
        bytes.len() == 2 * samples.len(),
        0 <= i < samples.len(),
        bytes[2 * i] == (samples[i] + 0x1_0000) % 0x100,
        bytes[2 * i + 1] == (samples[i] + 0x1_0000) / 0x100 % 0x100,
    ensures
        sample_at(bytes, i) == samples[i],
{
}

/// What is loaded serves a plan if the soundfont is loaded in full, or as a subset that has
/// each sample of the plan; one missing sample is enough that it does not, and so is a
/// soundfont that is not loaded.
pub proof fn loaded_fonts_serve_plans(loaded: LoadedView, plan: PlanView, sample: u32)
    ensures
        !satisfies_plan(None, plan),
        !loaded.compact ==> satisfies_plan(Some(loaded), plan),
        loaded.compact && plan.samples.contains(sample) && !loaded.samples.contains(sample)
            ==> !satisfies_plan(Some(loaded), plan),
        (forall|id: u32| plan.samples.contains(id) ==> #[trigger] loaded.samples.contains(id))
            ==> satisfies_plan(Some(loaded), plan),
{
}

/// How one soundfont changed from one load to the next: a new one counts with all its
/// samples as missing, one with the same samples as an exact hit, one with fewer as
/// contained, and one with more as growth by the samples and bytes that it lacked.
pub proof fn a_soundfont_changes_in_one_way(
    previous: Option<LoadedView>,
    current: LoadedView,
    lost: u32,
    gained: u32,
)
    ensures
        ({
            let d = with_font(no_transition(), previous, current);
            let seen = d.exact_subset_hits + d.subset_contained_hits + d.superset_growth_events
                + d.font_set_changes;
            &&& seen == 1
            &&& d.compact_loaded_count == if current.compact {
                1int
            } else {
                0
            }
            &&& d.full_fallback_count == 1 - d.compact_loaded_count
            &&& previous is None ==> d.font_set_changes == 1 && d.missing_planned_bytes
                == current.planned_bytes && (current.samples.len() <= usize::MAX
                ==> d.missing_sample_count == current.samples.len())
            &&& previous is Some ==> {
                let before = previous->Some_0;
                let kept = forall|id: u32| #[trigger]
                    before.samples.contains(id) ==> current.samples.contains(id);
                let known = forall|id: u32| #[trigger]
                    current.samples.contains(id) ==> before.samples.contains(id);
                &&& kept && known ==> d.exact_subset_hits == 1 && d.missing_sample_count == 0
                    && d.missing_planned_bytes == 0
                &&& known && before.samples.contains(lost) && !current.samples.contains(lost)
                    ==> d.subset_contained_hits == 1 && d.missing_sample_count == 0
                    && d.missing_planned_bytes == 0
                &&& kept && current.samples.contains(gained) && !before.samples.contains(gained)
                    ==> d.superset_growth_events == 1 && d.missing_planned_bytes == (
                if current.planned_bytes >= before.planned_bytes {
                    current.planned_bytes - before.planned_bytes
                } else {
                    0
                }) && (current.samples.len() <= usize::MAX ==> d.missing_sample_count >= 1)
                &&& before.samples.contains(lost) && !current.samples.contains(lost)
                    && current.samples.contains(gained) && !before.samples.contains(gained)
                    ==> d.font_set_changes == 1
            }
        }),
{
    if previous is Some {
        let before = previous->Some_0;
        if current.samples.contains(gained) && !before.samples.contains(gained) {
            let missing = current.samples.to_set().difference(before.samples.to_set());
            assert(missing.contains(gained));
            assert(missing.len() >= 1) by {
                assert(missing.finite());
                if missing.len() == 0 {
                    assert(missing =~= Set::<u32>::empty());
                }
            }
        }
    }
}

/// What was loaded for a plan holds what the plan asks for.
pub proof fn loading_a_plan_loads_what_it_asks_for(plan: PlanView, compact: bool)
    ensures
        loaded_of(plan, compact).font == plan.font,
        loaded_of(plan, compact).presets == plan.presets,
        loaded_of(plan, compact).instruments == plan.instruments,
        loaded_of(plan, compact).samples == plan.samples,
        loaded_of(plan, compact).planned_bytes == plan.planned_bytes,
        loaded_of(plan, compact).compact == compact,
{
}

/// A soundfont gets a subset if it is asked for, its index is there, and one of its presets
/// plays a role: one of bank 128 for percussion, one of the bank and program for another.
pub proof fn subsets_are_planned_where_something_is_played(
    fonts: Seq<Seq<char>>,
    roles: Seq<MidiStripDescriptor>,
    indexes: Map<Seq<char>, SoundFontIndex>,
    font: Seq<char>,
    p: int,
    r: int,
)
    requires
        indexes.contains_key(font),
        0 <= p < indexes[font].presets@.len(),
        0 <= r < roles.len(),
    ensures
        fonts.contains(font) && roles[r].is_percussion && indexes[font].presets@[p].bank == 128
            ==> gets_subset(fonts, roles, indexes, font),
        fonts.contains(font) && !roles[r].is_percussion && indexes[font].presets@[p].bank
            == roles[r].bank && indexes[font].presets@[p].program == roles[r].program
            ==> gets_subset(fonts, roles, indexes, font),
        !fonts.contains(font) ==> !gets_subset(fonts, roles, indexes, font),
{
    let preset = indexes[font].presets@[p];
    if plays(preset.bank, preset.program, roles[r]) {
        assert(is_demanded(preset, roles));
        assert(is_demanded(indexes[font].presets@[p], roles));
    }
}

/// The sums over plans count each plan once.
pub proof fn sums_count_each_plan_once(plans: Seq<(String, SoundFontSubsetPlanDebug)>)
    ensures
        plans.len() == 1 ==> {
            let plan = plans[0].1;
            let sums = plan_sums(plans);
            &&& sums.presets == plan.preset_ids@.len()
            &&& sums.instruments == plan.instrument_ids@.len()
            &&& sums.samples == plan.sample_ids@.len()
            &&& sums.wave_ranges == plan.logical_wave_range_count
            &&& sums.planned_ranges == plan.planned_range_count
            &&& sums.planned_bytes == plan.planned_byte_count
        },
        forall|n: int|
            0 <= n <= plans.len() ==> {
                let sums = plan_sums(plans);
                let first = #[trigger] plan_sums(plans.take(n));
                let rest = plan_sums(plans.skip(n));
                &&& sums.presets == first.presets + rest.presets
                &&& sums.instruments == first.instruments + rest.instruments
                &&& sums.samples == first.samples + rest.samples
                &&& sums.wave_ranges == first.wave_ranges + rest.wave_ranges
                &&& sums.planned_ranges == first.planned_ranges + rest.planned_ranges
                &&& sums.planned_bytes == first.planned_bytes + rest.planned_bytes
                &&& sums.index_plans == first.index_plans + rest.index_plans
            },
    decreases plans.len(),
{
    if plans.len() == 1 {
        reveal_with_fuel(plan_sums, 2);
        assert(plans.drop_last() =~= Seq::<(String, SoundFontSubsetPlanDebug)>::empty());
        assert(plans.last() == plans[0]);
    }
    assert forall|n: int| 0 <= n <= plans.len() implies {
        let sums = plan_sums(plans);
        let first = #[trigger] plan_sums(plans.take(n));
        let rest = plan_sums(plans.skip(n));
        &&& sums.presets == first.presets + rest.presets
        &&& sums.instruments == first.instruments + rest.instruments
        &&& sums.samples == first.samples + rest.samples
        &&& sums.wave_ranges == first.wave_ranges + rest.wave_ranges
        &&& sums.planned_ranges == first.planned_ranges + rest.planned_ranges
        &&& sums.planned_bytes == first.planned_bytes + rest.planned_bytes
        &&& sums.index_plans == first.index_plans + rest.index_plans
    } by {
        if n == plans.len() {
            assert(plans.take(n) =~= plans);
            assert(plans.skip(n) =~= Seq::<(String, SoundFontSubsetPlanDebug)>::empty());
        } else {
            let shorter = plans.drop_last();
            sums_count_each_plan_once(shorter);
            assert(shorter.take(n) =~= plans.take(n));
            assert(plan_sums(shorter.take(n)) == plan_sums(plans.take(n)));
            assert(plans.skip(n).drop_last() =~= shorter.skip(n));
        }
    }
}

/// A plan reads the ranges of the closure, with their lengths added up, and asks for what the
/// closure holds.
pub proof fn plans_ask_for_their_closure(
    font: Seq<char>,
    role_count: usize,
    closure: SubsetClosure,
    ranges: Seq<DatEntryRange>,
    range: DatEntryRange,
)
    ensures
        plan_of(font, role_count, closure, ranges).font == font,
        plan_of(font, role_count, closure, ranges).role_count == role_count,
        plan_of(font, role_count, closure, ranges).presets == closure.preset_ids@,
        plan_of(font, role_count, closure, ranges).instruments == closure.instrument_ids@,
        plan_of(font, role_count, closure, ranges).samples == closure.sample_ids@,
        plan_of(font, role_count, closure, ranges).used_index_json,
        ranges.len() <= usize::MAX ==> plan_of(
            font,
            role_count,
            closure,
            ranges,
        ).planned_range_count == ranges.len(),
        0 <= total_length(ranges) <= u64::MAX ==> plan_of(
            font,
            role_count,
            closure,
            ranges,
        ).planned_bytes == total_length(ranges),
        total_length(ranges.push(range)) == total_length(ranges) + range.length,
        total_length(Seq::empty()) == 0,
{
    assert(ranges.push(range).drop_last() =~= ranges);
}

/// What is loaded serves new plans where every one of them finds its soundfont loaded, whole
/// or with all of its samples; one that does not is enough to load again.
pub proof fn one_missing_sample_is_enough_to_load(
    previous: Map<Seq<char>, LoadedSubsetState>,
    plans: Seq<(String, SoundFontSubsetPlanDebug)>,
    i: int,
    s: int,
)
    requires
        0 <= i < plans.len(),
        0 <= s < plans[i].1@.samples.len(),
    ensures
        loaded_at(previous, plans[i].0@) is None ==> !satisfies_plans(previous, plans),
        loaded_at(previous, plans[i].0@) is Some && loaded_at(
            previous,
            plans[i].0@,
        )->Some_0.compact && !loaded_at(previous, plans[i].0@)->Some_0.samples.contains(
            plans[i].1@.samples[s],
        ) ==> !satisfies_plans(previous, plans),
        (forall|k: int|
            0 <= k < plans.len() ==> loaded_at(previous, (#[trigger] plans[k]).0@) is Some
                && !loaded_at(previous, plans[k].0@)->Some_0.compact) ==> satisfies_plans(
            previous,
            plans,
        ),
{
    if satisfies_plans(previous, plans) {
        assert(satisfies_plan(loaded_at(previous, plans[i].0@), plans[i].1@));
    }
}

/// What is kept is known by the new plans, and stays compact where it was.
pub proof fn kept_soundfonts_are_known_by_their_plans(
    previous: Map<Seq<char>, LoadedSubsetState>,
    plans: Seq<(String, SoundFontSubsetPlanDebug)>,
    i: int,
)
    requires
        0 <= i < plans.len(),
    ensures
        kept_views(previous, plans).len() == plans.len(),
        kept_views(previous, plans)[i].0 == plans[i].0@,
        kept_views(previous, plans)[i].1.samples == plans[i].1@.samples,
        kept_views(previous, plans)[i].1.presets == plans[i].1@.presets,
        kept_views(previous, plans)[i].1.instruments == plans[i].1@.instruments,
        kept_views(previous, plans)[i].1.planned_bytes == plans[i].1@.planned_bytes,
        loaded_at(previous, plans[i].0@) is Some ==> kept_views(previous, plans)[i].1.compact
            == loaded_at(previous, plans[i].0@)->Some_0.compact,
        loaded_at(previous, plans[i].0@) is None ==> !kept_views(previous, plans)[i].1.compact,
{
}

} // verus!
