//! The rows and strips of the mixer as the user sees and edits them.
use crate::catalog::{fallback_entry, find_fallback, find_entry, first_entry};
use crate::catalog::{BankProgramDemand, SoundFontCatalogEntry, SoundFontCoverage};
use crate::level::{same_level, Level};
use crate::level::{FIVE_HUNDRED_BITS, MINUS_SIX_BITS, ONE_BITS, QUARTER_BITS};
use crate::level::{TEN_BITS, TWENTY_FIVE_BITS, ZERO_BITS};
use crate::playback::strips::{slot_fits, stem_number, strip_id_for, StripLevels};
use crate::text::{decimal, decimal_text, texts};
use crate::text_map::TextMap;
use vstd::prelude::*;
use vstd::string::*;

verus! {

/// How the mixer assigns strips to soundfonts.
#[derive(Debug, Copy, Clone, PartialEq, Eq, Structural)]
pub enum MixerAssignmentMode {
    /// As the user set it.
    Manual,
    /// Every soundfont plays every strip.
    Balance,
    /// Each strip is played by the last soundfont that has it.
    Layer,
}

/// The controls of the whole mix.
#[derive(Debug, Copy, Clone, PartialEq, Eq, Structural)]
pub struct MasterControls {
    pub volume_db: Level,
    pub limiter_enabled: bool,
    pub limiter_amount: Level,
    pub reverb: Level,
    pub chorus: Level,
    pub eq_low: Level,
    pub eq_mid: Level,
    pub eq_high: Level,
}

/// The controls that a new project starts with.
pub open spec fn default_master() -> MasterControls {
    MasterControls {
        volume_db: Level { bits: MINUS_SIX_BITS },
        limiter_enabled: false,
        limiter_amount: Level { bits: QUARTER_BITS },
        reverb: Level { bits: ZERO_BITS },
        chorus: Level { bits: ZERO_BITS },
        eq_low: Level { bits: ZERO_BITS },
        eq_mid: Level { bits: ZERO_BITS },
        eq_high: Level { bits: ZERO_BITS },
    }
}

impl Default for MasterControls {
    fn default() -> (master: MasterControls)
        ensures
            master == default_master(),
    {
        MasterControls {
            volume_db: Level { bits: MINUS_SIX_BITS },
            limiter_enabled: false,
            limiter_amount: Level { bits: QUARTER_BITS },
            reverb: Level { bits: ZERO_BITS },
            chorus: Level { bits: ZERO_BITS },
            eq_low: Level { bits: ZERO_BITS },
            eq_mid: Level { bits: ZERO_BITS },
            eq_high: Level { bits: ZERO_BITS },
        }
    }
}

impl MasterControls {
    /// Whether two settings are equal as numbers.
    pub open spec fn same_as(self, other: MasterControls) -> bool {
        &&& same_level(self.volume_db, other.volume_db)
        &&& self.limiter_enabled == other.limiter_enabled
        &&& same_level(self.limiter_amount, other.limiter_amount)
        &&& same_level(self.reverb, other.reverb)
        &&& same_level(self.chorus, other.chorus)
        &&& same_level(self.eq_low, other.eq_low)
        &&& same_level(self.eq_mid, other.eq_mid)
        &&& same_level(self.eq_high, other.eq_high)
    }

    pub fn same(&self, other: &MasterControls) -> (same: bool)
        ensures
            same == self.same_as(*other),
    {
        self.volume_db.same(other.volume_db) && self.limiter_enabled == other.limiter_enabled
            && self.limiter_amount.same(other.limiter_amount) && self.reverb.same(other.reverb)
            && self.chorus.same(other.chorus) && self.eq_low.same(other.eq_low)
            && self.eq_mid.same(other.eq_mid) && self.eq_high.same(other.eq_high)
    }
}

/// The controls of the automatic mix.
#[derive(Debug, Copy, Clone, PartialEq, Eq, Structural)]
pub struct SmartMixControls {
    pub enabled: bool,
    pub auto_normalize: bool,
    pub target_headroom_db: Level,
    pub attack_ms: Level,
    pub release_ms: Level,
    pub lookahead_ms: Level,
    pub normalization_amount: Level,
}

/// The controls that a new project starts with.
pub open spec fn default_smart_mix() -> SmartMixControls {
    SmartMixControls {
        enabled: false,
        auto_normalize: false,
        target_headroom_db: Level { bits: MINUS_SIX_BITS },
        attack_ms: Level { bits: ONE_BITS },
        release_ms: Level { bits: TEN_BITS },
        lookahead_ms: Level { bits: FIVE_HUNDRED_BITS },
        normalization_amount: Level { bits: TWENTY_FIVE_BITS },
    }
}

impl Default for SmartMixControls {
    fn default() -> (smart_mix: SmartMixControls)
        ensures
            smart_mix == default_smart_mix(),
    {
        SmartMixControls {
            enabled: false,
            auto_normalize: false,
            target_headroom_db: Level { bits: MINUS_SIX_BITS },
            attack_ms: Level { bits: ONE_BITS },
            release_ms: Level { bits: TEN_BITS },
            lookahead_ms: Level { bits: FIVE_HUNDRED_BITS },
            normalization_amount: Level { bits: TWENTY_FIVE_BITS },
        }
    }
}

impl SmartMixControls {
    /// Whether two settings are equal as numbers.
    pub open spec fn same_as(self, other: SmartMixControls) -> bool {
        &&& self.enabled == other.enabled
        &&& self.auto_normalize == other.auto_normalize
        &&& same_level(self.target_headroom_db, other.target_headroom_db)
        &&& same_level(self.attack_ms, other.attack_ms)
        &&& same_level(self.release_ms, other.release_ms)
        &&& same_level(self.lookahead_ms, other.lookahead_ms)
        &&& same_level(self.normalization_amount, other.normalization_amount)
    }

    pub fn same(&self, other: &SmartMixControls) -> (same: bool)
        ensures
            same == self.same_as(*other),
    {
        self.enabled == other.enabled && self.auto_normalize == other.auto_normalize
            && self.target_headroom_db.same(other.target_headroom_db) && self.attack_ms.same(
            other.attack_ms,
        ) && self.release_ms.same(other.release_ms) && self.lookahead_ms.same(other.lookahead_ms)
            && self.normalization_amount.same(other.normalization_amount)
    }
}

/// One strip as the user sees it.
#[derive(Debug)]
pub struct MixerStripUiState {
    pub strip_id: u64,
    pub channel: u8,
    pub bank: u16,
    pub program: u8,
    pub is_percussion: bool,
    pub program_name: String,
    pub muted: bool,
    pub unsupported: bool,
    pub mute_policy_default: bool,
    pub volume_policy_default: bool,
    pub soloed: bool,
    pub levels: StripLevels,
    pub meter: Level,
    pub active: bool,
    pub current_note: String,
}

/// The contents of a strip.
pub ghost struct StripUiView {
    pub strip_id: u64,
    pub channel: u8,
    pub bank: u16,
    pub program: u8,
    pub is_percussion: bool,
    pub program_name: Seq<char>,
    pub muted: bool,
    pub unsupported: bool,
    pub mute_policy_default: bool,
    pub volume_policy_default: bool,
    pub soloed: bool,
    pub levels: StripLevels,
    pub meter: Level,
    pub active: bool,
    pub current_note: Seq<char>,
}

impl View for MixerStripUiState {
    type V = StripUiView;

    open spec fn view(&self) -> StripUiView {
        StripUiView {
            strip_id: self.strip_id,
            channel: self.channel,
            bank: self.bank,
            program: self.program,
            is_percussion: self.is_percussion,
            program_name: self.program_name@,
            muted: self.muted,
            unsupported: self.unsupported,
            mute_policy_default: self.mute_policy_default,
            volume_policy_default: self.volume_policy_default,
            soloed: self.soloed,
            levels: self.levels,
            meter: self.meter,
            active: self.active,
            current_note: self.current_note@,
        }
    }
}

/// One soundfont of the mixer as the user sees it.
#[derive(Debug)]
pub struct SoundFontUiRow {
    pub internal_id: String,
    pub display_name: String,
    pub is_default: bool,
    pub collapsed: bool,
    pub muted: bool,
    pub soloed: bool,
    pub strips: Vec<MixerStripUiState>,
}

/// The contents of a row.
pub ghost struct RowUiView {
    pub internal_id: Seq<char>,
    pub display_name: Seq<char>,
    pub is_default: bool,
    pub collapsed: bool,
    pub muted: bool,
    pub soloed: bool,
    pub strips: Seq<StripUiView>,
}

/// The contents of strips.
pub open spec fn strip_views(strips: Seq<MixerStripUiState>) -> Seq<StripUiView> {
    strips.map_values(|strip: MixerStripUiState| strip@)
}

/// The contents of rows.
pub open spec fn row_views(rows: Seq<SoundFontUiRow>) -> Seq<RowUiView> {
    rows.map_values(|row: SoundFontUiRow| row@)
}

impl View for SoundFontUiRow {
    type V = RowUiView;

    open spec fn view(&self) -> RowUiView {
        RowUiView {
            internal_id: self.internal_id@,
            display_name: self.display_name@,
            is_default: self.is_default,
            collapsed: self.collapsed,
            muted: self.muted,
            soloed: self.soloed,
            strips: strip_views(self.strips@),
        }
    }
}

/// The levels of a strip that nobody set.
pub open spec fn plain_levels() -> StripLevels {
    StripLevels {
        volume: Level { bits: ONE_BITS },
        pan: Level { bits: ZERO_BITS },
        gain_db: Level { bits: ZERO_BITS },
        limiter_enabled: false,
        limiter_amount: Level { bits: QUARTER_BITS },
        reverb: Level { bits: ZERO_BITS },
        chorus: Level { bits: ZERO_BITS },
    }
}

fn new_levels() -> (levels: StripLevels)
    ensures
        levels == plain_levels(),
{
    StripLevels {
        volume: Level { bits: ONE_BITS },
        pan: Level { bits: ZERO_BITS },
        gain_db: Level { bits: ZERO_BITS },
        limiter_enabled: false,
        limiter_amount: Level { bits: QUARTER_BITS },
        reverb: Level { bits: ZERO_BITS },
        chorus: Level { bits: ZERO_BITS },
    }
}

impl MixerStripUiState {
    /// The strip of a channel before anything is known of it.
    pub fn for_channel(soundfont_index: usize, channel_index: usize) -> (strip: MixerStripUiState)
        requires
            slot_fits(soundfont_index as int),
        ensures
            ({
                let channel = (channel_index % 256) as u8;
                strip@ == (StripUiView {
                    strip_id: stem_number(
                        soundfont_index as int,
                        Some(channel),
                        Some(0),
                        Some(0),
                        channel == 9,
                    ) as u64,
                    channel,
                    bank: 0,
                    program: 0,
                    is_percussion: channel == 9,
                    program_name: if channel == 9 {
                        "Percussion"@
                    } else {
                        "Acoustic Grand"@
                    },
                    muted: false,
                    unsupported: false,
                    mute_policy_default: true,
                    volume_policy_default: true,
                    soloed: false,
                    levels: plain_levels(),
                    meter: Level { bits: 0 },
                    active: false,
                    current_note: "--"@,
                })
            }),
    {
        let channel: u8 = (channel_index % 256) as u8;
        let is_percussion = channel == 9;
        MixerStripUiState {
            strip_id: strip_id_for(soundfont_index, channel, 0, 0, is_percussion),
            channel,
            bank: 0,
            program: 0,
            is_percussion,
            program_name: if is_percussion {
                "Percussion".to_owned()
            } else {
                "Acoustic Grand".to_owned()
            },
            muted: false,
            unsupported: false,
            mute_policy_default: true,
            volume_policy_default: true,
            soloed: false,
            levels: new_levels(),
            meter: Level { bits: 0 },
            active: false,
            current_note: "--".to_owned(),
        }
    }
}

/// The row of a catalog entry.
pub open spec fn row_of_entry(entry: SoundFontCatalogEntry) -> RowUiView {
    RowUiView {
        internal_id: entry.internal_id@,
        display_name: entry.display_name@,
        is_default: entry.is_default,
        collapsed: true,
        muted: false,
        soloed: false,
        strips: Seq::empty(),
    }
}

/// The row of a soundfont that the catalog does not have.
pub open spec fn row_of_stranger(id: Seq<char>) -> RowUiView {
    RowUiView {
        internal_id: id,
        display_name: id,
        is_default: false,
        collapsed: true,
        muted: false,
        soloed: false,
        strips: Seq::empty(),
    }
}

/// The row that is shown while there is no soundfont at all.
pub open spec fn retro_row() -> RowUiView {
    RowUiView {
        internal_id: "retro_gm"@,
        display_name: "Retro GM"@,
        is_default: true,
        collapsed: true,
        muted: false,
        soloed: false,
        strips: Seq::empty(),
    }
}

/// The row of a soundfont.
pub open spec fn row_for(catalog: Seq<SoundFontCatalogEntry>, id: Seq<char>) -> RowUiView {
    match first_entry(catalog, id, catalog.len() as int) {
        Some(i) => row_of_entry(catalog[i]),
        None => row_of_stranger(id),
    }
}

/// The rows of soundfonts; without any, that of the default one.
pub open spec fn rows_for(catalog: Seq<SoundFontCatalogEntry>, ids: Seq<Seq<char>>) -> Seq<
    RowUiView,
> {
    if ids.len() == 0 {
        match fallback_entry(catalog) {
            Some(i) => seq![row_of_entry(catalog[i])],
            None => seq![retro_row()],
        }
    } else {
        ids.map_values(|id: Seq<char>| row_for(catalog, id))
    }
}

impl SoundFontUiRow {
    pub fn from_catalog_entry(entry: &SoundFontCatalogEntry) -> (row: SoundFontUiRow)
        ensures
            row@ == row_of_entry(*entry),
    {
        let row = SoundFontUiRow {
            internal_id: entry.internal_id.clone(),
            display_name: entry.display_name.clone(),
            is_default: entry.is_default,
            collapsed: true,
            muted: false,
            soloed: false,
            strips: Vec::new(),
        };
        assert(strip_views(row.strips@) =~= Seq::<StripUiView>::empty());
        row
    }

    pub fn default_retro() -> (row: SoundFontUiRow)
        ensures
            row@ == retro_row(),
    {
        let row = SoundFontUiRow {
            internal_id: "retro_gm".to_owned(),
            display_name: "Retro GM".to_owned(),
            is_default: true,
            collapsed: true,
            muted: false,
            soloed: false,
            strips: Vec::new(),
        };
        assert(strip_views(row.strips@) =~= Seq::<StripUiView>::empty());
        row
    }

    fn of_stranger(id: &str) -> (row: SoundFontUiRow)
        ensures
            row@ == row_of_stranger(id@),
    {
        let row = SoundFontUiRow {
            internal_id: id.to_owned(),
            display_name: id.to_owned(),
            is_default: false,
            collapsed: true,
            muted: false,
            soloed: false,
            strips: Vec::new(),
        };
        assert(strip_views(row.strips@) =~= Seq::<StripUiView>::empty());
        row
    }
}

/// The rows of soundfonts; without any, that of the default one.
pub fn soundfont_rows_from_catalog(catalog: &[SoundFontCatalogEntry], ids: &[String]) -> (rows: Vec<
    SoundFontUiRow,
>)
    ensures
        row_views(rows@) == rows_for(catalog@, texts(ids@)),
{
    let mut rows: Vec<SoundFontUiRow> = Vec::new();
    if ids.len() == 0 {
        match find_fallback(catalog) {
            Some(i) => {
                rows.push(SoundFontUiRow::from_catalog_entry(&catalog[i]));
            },
            None => {
                rows.push(SoundFontUiRow::default_retro());
            },
        }
        assert(row_views(rows@) =~= rows_for(catalog@, texts(ids@)));
        return rows;
    }
    let mut i: usize = 0;
    while i < ids.len()
        invariant
            i <= ids@.len(),
            rows@.len() == i,
            forall|k: int| 0 <= k < i ==> (#[trigger] rows@[k])@ == row_for(catalog@, ids@[k]@),
        decreases ids@.len() - i,
    {
        let id = ids[i].as_str();
        match find_entry(catalog, id) {
            Some(k) => {
                rows.push(SoundFontUiRow::from_catalog_entry(&catalog[k]));
            },
            None => {
                rows.push(SoundFontUiRow::of_stranger(id));
            },
        }
        i = i + 1;
    }
    assert(row_views(rows@) =~= rows_for(catalog@, texts(ids@)));
    rows
}

/// The soundfonts of rows.
pub open spec fn row_ids(rows: Seq<RowUiView>) -> Seq<Seq<char>> {
    rows.map_values(|row: RowUiView| row.internal_id)
}

/// The soundfonts of rows.
pub fn ids_of_rows(rows: &[SoundFontUiRow]) -> (ids: Vec<String>)
    ensures
        texts(ids@) == row_ids(row_views(rows@)),
{
    let mut ids: Vec<String> = Vec::new();
    let mut i: usize = 0;
    while i < rows.len()
        invariant
            i <= rows@.len(),
            ids@.len() == i,
            forall|k: int| 0 <= k < i ==> (#[trigger] ids@[k])@ == rows@[k].internal_id@,
        decreases rows@.len() - i,
    {
        ids.push(rows[i].internal_id.clone());
        i = i + 1;
    }
    assert(texts(ids@) =~= row_ids(row_views(rows@)));
    ids
}

/// What a preset's routing says of a strip.
#[derive(Debug, Copy, Clone, PartialEq, Eq, Structural)]
pub struct StripRouting {
    pub volume: Level,
    pub muted: bool,
    pub unsupported: bool,
}

/// A strip of the layout of a MIDI file: channel, bank, program, and whether it is
/// percussion.
pub type StripPlace = (u8, u16, u8, bool);

/// The name of a program that has no other.
pub open spec fn program_text(place: StripPlace) -> Seq<char> {
    if place.3 {
        "Percussion"@
    } else {
        "Program "@ + decimal(place.2 as nat)
    }
}

/// A new strip, with what the routing says of it.
pub open spec fn laid_out_strip(
    font_index: int,
    place: StripPlace,
    routing: Option<StripRouting>,
) -> StripUiView {
    StripUiView {
        strip_id: stem_number(font_index, Some(place.0), Some(place.1), Some(place.2), place.3) as u64,
        channel: place.0,
        bank: place.1,
        program: place.2,
        is_percussion: place.3,
        program_name: program_text(place),
        muted: match routing {
            Some(routing) => routing.muted,
            None => false,
        },
        unsupported: match routing {
            Some(routing) => routing.unsupported,
            None => false,
        },
        mute_policy_default: routing is Some,
        volume_policy_default: routing is Some,
        soloed: false,
        levels: StripLevels {
            volume: match routing {
                Some(routing) => routing.volume,
                None => Level { bits: ONE_BITS },
            },
            ..plain_levels()
        },
        meter: Level { bits: 0 },
        active: false,
        current_note: "--"@,
    }
}

fn lay_out_strip(font_index: usize, place: StripPlace, routing: Option<StripRouting>) -> (strip:
    MixerStripUiState)
    requires
        slot_fits(font_index as int),
    ensures
        strip@ == laid_out_strip(font_index as int, place, routing),
{
    let (channel, bank, program, is_percussion) = place;
    let mut levels = new_levels();
    let (muted, unsupported) = match routing {
        Some(routing) => {
            levels.volume = routing.volume;
            (routing.muted, routing.unsupported)
        },
        None => (false, false),
    };
    let program_name = if is_percussion {
        "Percussion".to_owned()
    } else {
        let mut name = "Program ".to_owned();
        name.append(decimal_text(program as u128).as_str());
        name
    };
    MixerStripUiState {
        strip_id: strip_id_for(font_index, channel, bank, program, is_percussion),
        channel,
        bank,
        program,
        is_percussion,
        program_name,
        muted,
        unsupported,
        mute_policy_default: routing.is_some(),
        volume_policy_default: routing.is_some(),
        soloed: false,
        levels,
        meter: Level { bits: 0 },
        active: false,
        current_note: "--".to_owned(),
    }
}

/// The strips of a soundfont.
pub open spec fn laid_out_strips(
    font_index: int,
    layout: Seq<StripPlace>,
    routing: Seq<Option<StripRouting>>,
) -> Seq<StripUiView> {
    Seq::new(layout.len(), |j: int| laid_out_strip(font_index, layout[j], routing[j]))
}

/// The rows with new strips, neither muted nor soloed.
pub open spec fn laid_out_rows(
    rows: Seq<RowUiView>,
    layout: Seq<StripPlace>,
    routing: Seq<Vec<Option<StripRouting>>>,
) -> Seq<RowUiView> {
    Seq::new(
        rows.len(),
        |i: int|
            RowUiView {
                muted: false,
                soloed: false,
                strips: laid_out_strips(i, layout, routing[i]@),
                ..rows[i]
            },
    )
}

/// Gives every row the strips of a layout. `routing` says of each strip of each row
/// what the active preset's routing decided, if anything.
pub fn reset_strip_layout(
    rows: &mut Vec<SoundFontUiRow>,
    layout: &[StripPlace],
    routing: &[Vec<Option<StripRouting>>],
)
    requires
        slot_fits(old(rows)@.len() as int),
        routing@.len() == old(rows)@.len(),
        forall|i: int| 0 <= i < routing@.len() ==> (#[trigger] routing@[i])@.len() == layout@.len(),
    ensures
        row_views(final(rows)@) == laid_out_rows(row_views(old(rows)@), layout@, routing@),
{
    let ghost before = row_views(rows@);
    let ghost want = laid_out_rows(before, layout@, routing@);
    let mut i: usize = 0;
    while i < rows.len()
        invariant
            i <= rows@.len(),
            rows@.len() == before.len(),
            slot_fits(rows@.len() as int),
            routing@.len() == rows@.len(),
            want == laid_out_rows(before, layout@, routing@),
            forall|k: int|
                0 <= k < routing@.len() ==> (#[trigger] routing@[k])@.len() == layout@.len(),
            forall|k: int| 0 <= k < i ==> (#[trigger] rows@[k])@ == want[k],
            forall|k: int| i <= k < rows@.len() ==> (#[trigger] rows@[k])@ == before[k],
        decreases rows@.len() - i,
    {
        let decisions = &routing[i];
        let mut strips: Vec<MixerStripUiState> = Vec::new();
        let mut j: usize = 0;
        while j < layout.len()
            invariant
                j <= layout@.len(),
                i < rows@.len(),
                slot_fits(rows@.len() as int),
                decisions@.len() == layout@.len(),
                strips@.len() == j,
                forall|k: int|
                    0 <= k < j ==> (#[trigger] strips@[k])@ == laid_out_strip(
                        i as int,
                        layout@[k],
                        decisions@[k],
                    ),
            decreases layout@.len() - j,
        {
            strips.push(lay_out_strip(i, layout[j], decisions[j]));
            j = j + 1;
        }
        assert(strip_views(strips@) =~= laid_out_strips(i as int, layout@, routing@[i as int]@));
        rows[i].muted = false;
        rows[i].soloed = false;
        rows[i].strips = strips;
        i = i + 1;
    }
    assert(row_views(rows@) =~= want);
}

/// Whether a soundfont plays a strip.
pub open spec fn plays_strip(
    cache: Map<Seq<char>, SoundFontCoverage>,
    font: Seq<char>,
    strip: StripUiView,
) -> bool {
    cache.contains_key(font) && (if strip.is_percussion {
        cache[font].percussion
    } else {
        cache[font].plays_melodic(strip.bank, strip.program)
    })
}

pub fn coverage_supports_strip(
    coverage: Option<&SoundFontCoverage>,
    strip: &MixerStripUiState,
) -> (supports: bool)
    ensures
        supports == match coverage {
            Some(coverage) => if strip.is_percussion {
                coverage.percussion
            } else {
                coverage.plays_melodic(strip.bank, strip.program)
            },
            None => false,
        },
{
    match coverage {
        Some(coverage) => if strip.is_percussion {
            coverage.provides_percussion()
        } else {
            coverage.provides_melodic(strip.bank, strip.program)
        },
        None => false,
    }
}

/// Whether two strips stand for the same channel, bank and program.
pub open spec fn same_place(a: StripUiView, b: StripUiView) -> bool {
    a.channel == b.channel && a.bank == b.bank && a.program == b.program && a.is_percussion
        == b.is_percussion
}

fn is_same_place(a: &MixerStripUiState, b: &MixerStripUiState) -> (same: bool)
    ensures
        same == same_place(a@, b@),
{
    a.channel == b.channel && a.bank == b.bank && a.program == b.program && a.is_percussion
        == b.is_percussion
}

/// Whether a row has a strip for the same place that its soundfont plays.
pub open spec fn provides(
    row: RowUiView,
    cache: Map<Seq<char>, SoundFontCoverage>,
    strip: StripUiView,
) -> bool {
    exists|j: int|
        0 <= j < row.strips.len() && same_place(#[trigger] row.strips[j], strip) && plays_strip(
            cache,
            row.internal_id,
            row.strips[j],
        )
}

/// The last of the first `n` rows that provides a strip.
pub open spec fn top_provider(
    rows: Seq<RowUiView>,
    cache: Map<Seq<char>, SoundFontCoverage>,
    strip: StripUiView,
    n: int,
) -> Option<int>
    decreases n,
{
    if n <= 0 {
        None
    } else if provides(rows[n - 1], cache, strip) {
        Some(n - 1)
    } else {
        top_provider(rows, cache, strip, n - 1)
    }
}

fn row_provides(
    row: &SoundFontUiRow,
    cache: &TextMap<SoundFontCoverage>,
    strip: &MixerStripUiState,
) -> (found: bool)
    requires
        cache.wf(),
    ensures
        found == provides(row@, cache@, strip@),
{
    let coverage = cache.get(row.internal_id.as_str());
    let mut j: usize = 0;
    while j < row.strips.len()
        invariant
            j <= row.strips@.len(),
            match coverage {
                Some(c) => cache@.contains_key(row.internal_id@) && *c == cache@[row.internal_id@],
                None => !cache@.contains_key(row.internal_id@),
            },
            forall|k: int|
                0 <= k < j ==> !(same_place(#[trigger] row@.strips[k], strip@) && plays_strip(
                    cache@,
                    row@.internal_id,
                    row@.strips[k],
                )),
        decreases row.strips@.len() - j,
    {
        assert(row@.strips[j as int] == row.strips@[j as int]@);
        if is_same_place(&row.strips[j], strip) && coverage_supports_strip(
            coverage,
            &row.strips[j],
        ) {
            assert(plays_strip(cache@, row@.internal_id, row@.strips[j as int]));
            return true;
        }
        j = j + 1;
    }
    false
}

fn find_top_provider(
    rows: &[SoundFontUiRow],
    cache: &TextMap<SoundFontCoverage>,
    strip: &MixerStripUiState,
) -> (provider: Option<usize>)
    requires
        cache.wf(),
    ensures
        (match provider {
            Some(i) => Some(i as int),
            None => None,
        }) == top_provider(row_views(rows@), cache@, strip@, rows@.len() as int),
{
    let mut n: usize = rows.len();
    while n > 0
        invariant
            n <= rows@.len(),
            cache.wf(),
            top_provider(row_views(rows@), cache@, strip@, rows@.len() as int) == top_provider(
                row_views(rows@),
                cache@,
                strip@,
                n as int,
            ),
        decreases n,
    {
        assert(row_views(rows@)[n - 1] == rows@[n - 1]@);
        if row_provides(&rows[n - 1], cache, strip) {
            return Some(n - 1);
        }
        n = n - 1;
    }
    None
}

/// Whether a strip of a row is muted in an assignment mode.
pub open spec fn assigned_mute(
    rows: Seq<RowUiView>,
    cache: Map<Seq<char>, SoundFontCoverage>,
    mode: MixerAssignmentMode,
    row: int,
    strip: StripUiView,
) -> bool {
    match mode {
        MixerAssignmentMode::Manual => strip.muted,
        MixerAssignmentMode::Balance => false,
        MixerAssignmentMode::Layer => top_provider(rows, cache, strip, rows.len() as int) != Some(
            row,
        ),
    }
}

/// A strip in an assignment mode.
pub open spec fn assigned_strip(strip: StripUiView, muted: bool) -> StripUiView {
    StripUiView {
        levels: StripLevels { volume: Level { bits: ONE_BITS }, ..strip.levels },
        volume_policy_default: false,
        mute_policy_default: false,
        soloed: false,
        muted,
        ..strip
    }
}

/// The rows in an assignment mode.
pub open spec fn assigned_rows(
    rows: Seq<RowUiView>,
    cache: Map<Seq<char>, SoundFontCoverage>,
    mode: MixerAssignmentMode,
) -> Seq<RowUiView> {
    Seq::new(
        rows.len(),
        |i: int|
            RowUiView {
                muted: false,
                soloed: false,
                strips: Seq::new(
                    rows[i].strips.len(),
                    |j: int|
                        assigned_strip(
                            rows[i].strips[j],
                            assigned_mute(rows, cache, mode, i, rows[i].strips[j]),
                        ),
                ),
                ..rows[i]
            },
    )
}

/// The mutes of an assignment mode, row by row.
fn assigned_mutes(
    rows: &[SoundFontUiRow],
    cache: &TextMap<SoundFontCoverage>,
    mode: MixerAssignmentMode,
) -> (mutes: Vec<Vec<bool>>)
    requires
        cache.wf(),
    ensures
        mutes@.len() == rows@.len(),
        forall|i: int|
            0 <= i < rows@.len() ==> (#[trigger] mutes@[i])@.len() == rows@[i].strips@.len(),
        forall|i: int, j: int|
            0 <= i < rows@.len() && 0 <= j < rows@[i].strips@.len() ==> (
            #[trigger] mutes@[i]@[j]) == assigned_mute(
                row_views(rows@),
                cache@,
                mode,
                i,
                rows@[i].strips@[j]@,
            ),
{
    let mut mutes: Vec<Vec<bool>> = Vec::new();
    let mut i: usize = 0;
    while i < rows.len()
        invariant
            i <= rows@.len(),
            cache.wf(),
            mutes@.len() == i,
            forall|k: int| 0 <= k < i ==> (#[trigger] mutes@[k])@.len() == rows@[k].strips@.len(),
            forall|k: int, j: int|
                0 <= k < i && 0 <= j < rows@[k].strips@.len() ==> (#[trigger] mutes@[k]@[j])
                    == assigned_mute(row_views(rows@), cache@, mode, k, rows@[k].strips@[j]@),
        decreases rows@.len() - i,
    {
        let row = &rows[i];
        let mut muted: Vec<bool> = Vec::new();
        let mut j: usize = 0;
        while j < row.strips.len()
            invariant
                i < rows@.len(),
                *row == rows@[i as int],
                j <= row.strips@.len(),
                cache.wf(),
                muted@.len() == j,
                forall|k: int|
                    0 <= k < j ==> (#[trigger] muted@[k]) == assigned_mute(
                        row_views(rows@),
                        cache@,
                        mode,
                        i as int,
                        row.strips@[k]@,
                    ),
            decreases row.strips@.len() - j,
        {
            let strip = &row.strips[j];
            muted.push(
                match mode {
                    MixerAssignmentMode::Manual => strip.muted,
                    MixerAssignmentMode::Balance => false,
                    MixerAssignmentMode::Layer => match find_top_provider(rows, cache, strip) {
                        Some(provider) => provider != i,
                        None => true,
                    },
                },
            );
            j = j + 1;
        }
        mutes.push(muted);
        i = i + 1;
    }
    mutes
}

fn assign_row(row: &mut SoundFontUiRow, mutes: &Vec<bool>)
    requires
        mutes@.len() == old(row).strips@.len(),
    ensures
        final(row)@ == (RowUiView {
            muted: false,
            soloed: false,
            strips: Seq::new(
                old(row)@.strips.len(),
                |j: int| assigned_strip(old(row)@.strips[j], mutes@[j]),
            ),
            ..old(row)@
        }),
{
    let ghost before = row@;
    row.muted = false;
    row.soloed = false;
    let mut j: usize = 0;
    while j < row.strips.len()
        invariant
            j <= row.strips@.len(),
            mutes@.len() == row.strips@.len(),
            row.strips@.len() == before.strips.len(),
            row@ == (RowUiView { muted: false, soloed: false, strips: row@.strips, ..before }),
            forall|k: int|
                0 <= k < j ==> (#[trigger] row.strips@[k])@ == assigned_strip(
                    before.strips[k],
                    mutes@[k],
                ),
            forall|k: int| j <= k < row.strips@.len() ==> (#[trigger] row.strips@[k])@
                == before.strips[k],
        decreases row.strips@.len() - j,
    {
        assert(row.strips@[j as int]@ == before.strips[j as int]);
        row.strips[j].levels.volume = Level { bits: ONE_BITS };
        row.strips[j].volume_policy_default = false;
        row.strips[j].mute_policy_default = false;
        row.strips[j].soloed = false;
        row.strips[j].muted = mutes[j];
        j = j + 1;
    }
    assert(row@.strips =~= Seq::new(
        before.strips.len(),
        |j: int| assigned_strip(before.strips[j], mutes@[j]),
    ));
}

/// Assigns the strips to the soundfonts in the given mode.
pub fn assign_rows(
    rows: &mut Vec<SoundFontUiRow>,
    cache: &TextMap<SoundFontCoverage>,
    mode: MixerAssignmentMode,
)
    requires
        cache.wf(),
    ensures
        row_views(final(rows)@) == assigned_rows(row_views(old(rows)@), cache@, mode),
{
    let ghost before = row_views(rows@);
    let ghost want = assigned_rows(before, cache@, mode);
    let mutes = assigned_mutes(rows.as_slice(), cache, mode);
    let mut i: usize = 0;
    while i < rows.len()
        invariant
            i <= rows@.len(),
            rows@.len() == before.len(),
            mutes@.len() == before.len(),
            want == assigned_rows(before, cache@, mode),
            forall|k: int|
                0 <= k < before.len() ==> (#[trigger] mutes@[k])@.len() == before[k].strips.len(),
            forall|k: int, j: int|
                0 <= k < before.len() && 0 <= j < before[k].strips.len() ==> (
                #[trigger] mutes@[k]@[j]) == assigned_mute(
                    before,
                    cache@,
                    mode,
                    k,
                    before[k].strips[j],
                ),
            forall|k: int| 0 <= k < i ==> (#[trigger] rows@[k])@ == want[k],
            forall|k: int| i <= k < rows@.len() ==> (#[trigger] rows@[k])@ == before[k],
        decreases rows@.len() - i,
    {
        assert(rows@[i as int]@ == before[i as int]);
        assert(rows@[i as int]@.strips.len() == rows@[i as int].strips@.len());
        assert(mutes@[i as int]@.len() == before[i as int].strips.len());
        assign_row(&mut rows[i], &mutes[i]);
        assert(rows@[i as int]@.strips =~= want[i as int].strips);
        i = i + 1;
    }
    assert(row_views(rows@) =~= want);
}

/// Every strip is heard from at most one soundfont in layers, and from one that
/// plays it.
pub proof fn layered_strip_has_one_player(
    rows: Seq<RowUiView>,
    cache: Map<Seq<char>, SoundFontCoverage>,
    a: int,
    i: int,
    b: int,
    j: int,
)
    requires
        0 <= a < rows.len(),
        0 <= b < rows.len(),
        0 <= i < rows[a].strips.len(),
        0 <= j < rows[b].strips.len(),
        same_place(rows[a].strips[i], rows[b].strips[j]),
        !assigned_rows(rows, cache, MixerAssignmentMode::Layer)[a].strips[i].muted,
        !assigned_rows(rows, cache, MixerAssignmentMode::Layer)[b].strips[j].muted,
    ensures
        a == b,
        provides(rows[a], cache, rows[a].strips[i]),
{
    lemma_top_provider(rows, cache, rows[a].strips[i], rows.len() as int);
    lemma_same_place_same_provider(
        rows,
        cache,
        rows[a].strips[i],
        rows[b].strips[j],
        rows.len() as int,
    );
}

/// A strip that some soundfont plays is heard in layers.
pub proof fn layered_strip_is_heard(
    rows: Seq<RowUiView>,
    cache: Map<Seq<char>, SoundFontCoverage>,
    strip: StripUiView,
    row: int,
)
    requires
        0 <= row < rows.len(),
        provides(rows[row], cache, strip),
    ensures
        top_provider(rows, cache, strip, rows.len() as int) is Some,
        top_provider(rows, cache, strip, rows.len() as int)->Some_0 >= row,
{
    lemma_top_provider_found(rows, cache, strip, rows.len() as int, row);
}

proof fn lemma_top_provider(
    rows: Seq<RowUiView>,
    cache: Map<Seq<char>, SoundFontCoverage>,
    strip: StripUiView,
    n: int,
)
    requires
        0 <= n <= rows.len(),
    ensures
        match top_provider(rows, cache, strip, n) {
            Some(i) => 0 <= i < n && provides(rows[i], cache, strip),
            None => true,
        },
    decreases n,
{
    if n > 0 && !provides(rows[n - 1], cache, strip) {
        lemma_top_provider(rows, cache, strip, n - 1);
    }
}

proof fn lemma_top_provider_found(
    rows: Seq<RowUiView>,
    cache: Map<Seq<char>, SoundFontCoverage>,
    strip: StripUiView,
    n: int,
    row: int,
)
    requires
        0 <= row < n <= rows.len(),
        provides(rows[row], cache, strip),
    ensures
        top_provider(rows, cache, strip, n) is Some,
        top_provider(rows, cache, strip, n)->Some_0 >= row,
    decreases n,
{
    if !provides(rows[n - 1], cache, strip) {
        lemma_top_provider_found(rows, cache, strip, n - 1, row);
    }
}

proof fn lemma_same_place_same_provider(
    rows: Seq<RowUiView>,
    cache: Map<Seq<char>, SoundFontCoverage>,
    a: StripUiView,
    b: StripUiView,
    n: int,
)
    requires
        same_place(a, b),
        0 <= n <= rows.len(),
    ensures
        top_provider(rows, cache, a, n) == top_provider(rows, cache, b, n),
    decreases n,
{
    if n > 0 {
        let row = rows[n - 1];
        assert(provides(row, cache, a) == provides(row, cache, b)) by {
            if provides(row, cache, a) {
                let j = choose|j: int|
                    0 <= j < row.strips.len() && same_place(#[trigger] row.strips[j], a)
                        && plays_strip(cache, row.internal_id, row.strips[j]);
                assert(same_place(row.strips[j], b));
            }
            if provides(row, cache, b) {
                let j = choose|j: int|
                    0 <= j < row.strips.len() && same_place(#[trigger] row.strips[j], b)
                        && plays_strip(cache, row.internal_id, row.strips[j]);
                assert(same_place(row.strips[j], a));
            }
        }
        lemma_same_place_same_provider(rows, cache, a, b, n - 1);
    }
}

/// There is a row for each soundfont that is asked for, in the same order and with no strip
/// yet. It shows the name that the catalog has for the soundfont, or else its id.
pub proof fn rows_stand_for_the_soundfonts(
    catalog: Seq<SoundFontCatalogEntry>,
    ids: Seq<Seq<char>>,
    i: int,
)
    requires
        forall|a: int, b: int|
            0 <= a < b < catalog.len() ==> (#[trigger] catalog[a]).internal_id@ != (
            #[trigger] catalog[b]).internal_id@,
        0 <= i < ids.len(),
    ensures
        ({
            let rows = rows_for(catalog, ids);
            &&& rows.len() == ids.len()
            &&& rows[i].internal_id == ids[i]
            &&& !rows[i].muted && !rows[i].soloed && rows[i].strips.len() == 0
            &&& forall|k: int|
                0 <= k < catalog.len() && (#[trigger] catalog[k]).internal_id@ == ids[i]
                    ==> rows[i].display_name == catalog[k].display_name@ && rows[i].is_default
                    == catalog[k].is_default
            &&& (forall|k: int|
                0 <= k < catalog.len() ==> (#[trigger] catalog[k]).internal_id@ != ids[i])
                ==> rows[i].display_name == ids[i] && !rows[i].is_default
        }),
{
    crate::catalog::lemma_first_entry(catalog, ids[i], catalog.len() as int);
}

/// Each row gets a strip for each place of a layout, with the number under which playback
/// knows it. What the routing says of a strip is set on it; a strip of which it says nothing
/// is heard at full volume. Nothing is soloed, and rows keep what they are.
pub proof fn strips_are_laid_out_in_place(
    rows: Seq<RowUiView>,
    layout: Seq<StripPlace>,
    routing: Seq<Vec<Option<StripRouting>>>,
    i: int,
    j: int,
)
    requires
        slot_fits(rows.len() as int),
        0 <= i < rows.len(),
        0 <= j < layout.len(),
    ensures
        ({
            let after = laid_out_rows(rows, layout, routing);
            let strip = after[i].strips[j];
            &&& after.len() == rows.len()
            &&& after[i].internal_id == rows[i].internal_id
            &&& after[i].display_name == rows[i].display_name
            &&& after[i].collapsed == rows[i].collapsed
            &&& !after[i].muted && !after[i].soloed
            &&& after[i].strips.len() == layout.len()
            &&& strip.channel == layout[j].0
            &&& strip.bank == layout[j].1
            &&& strip.program == layout[j].2
            &&& strip.is_percussion == layout[j].3
            &&& strip.strip_id == (i + 1) * 100_000 + (if layout[j].3 {
                50_000int
            } else {
                0
            }) + layout[j].0 * 16_384 + layout[j].1 * 128 + layout[j].2 + 1
            &&& !strip.soloed
            &&& match routing[i]@[j] {
                Some(said) => strip.muted == said.muted && strip.unsupported == said.unsupported
                    && strip.levels.volume == said.volume && strip.mute_policy_default
                    && strip.volume_policy_default,
                None => !strip.muted && !strip.unsupported && strip.levels.volume.bits
                    == 0x3f80_0000 && !strip.mute_policy_default && !strip.volume_policy_default,
            }
            &&& strip.levels.pan.bits == 0
            &&& strip.levels.gain_db.bits == 0
            &&& strip.levels.reverb.bits == 0
            &&& strip.levels.chorus.bits == 0
            &&& !strip.levels.limiter_enabled
        }),
{
}

/// In layers a strip is heard from the last of the soundfonts that play it, and from no
/// other one: one that has percussion plays a percussion strip, one that has the bank and
/// program plays any other. (All rows have strips for the same places.)
pub proof fn layers_play_from_the_last_soundfont(
    rows: Seq<RowUiView>,
    cache: Map<Seq<char>, SoundFontCoverage>,
    a: int,
    j: int,
)
    requires
        0 <= a < rows.len(),
        0 <= j < rows[a].strips.len(),
        forall|b: int|
            0 <= b < rows.len() ==> (#[trigger] rows[b]).strips.len() == rows[a].strips.len(),
        forall|b: int, k: int|
            0 <= b < rows.len() && 0 <= k < rows[a].strips.len() ==> {
                let there = #[trigger] rows[b].strips[k];
                let here = rows[a].strips[k];
                there.channel == here.channel && there.bank == here.bank && there.program
                    == here.program && there.is_percussion == here.is_percussion
            },
    ensures
        ({
            let strip = rows[a].strips[j];
            let plays = |b: int|
                cache.contains_key(rows[b].internal_id) && (if strip.is_percussion {
                    cache[rows[b].internal_id].percussion
                } else {
                    cache[rows[b].internal_id].bank_programs@.contains(
                        (BankProgramDemand { bank: strip.bank, program: strip.program }),
                    )
                });
            !assigned_rows(rows, cache, MixerAssignmentMode::Layer)[a].strips[j].muted == (plays(a)
                && forall|b: int| a < b < rows.len() ==> !#[trigger] plays(b))
        }),
{
    let strip = rows[a].strips[j];
    let plays = |b: int|
        cache.contains_key(rows[b].internal_id) && (if strip.is_percussion {
            cache[rows[b].internal_id].percussion
        } else {
            cache[rows[b].internal_id].bank_programs@.contains(
                (BankProgramDemand { bank: strip.bank, program: strip.program }),
            )
        });
    assert forall|b: int| 0 <= b < rows.len() implies provides(rows[b], cache, strip)
        == #[trigger] plays(b) by {
        if plays(b) {
            assert(same_place(rows[b].strips[j], strip));
            assert(plays_strip(cache, rows[b].internal_id, rows[b].strips[j]));
        }
        if provides(rows[b], cache, strip) {
            let k = choose|k: int|
                0 <= k < rows[b].strips.len() && same_place(#[trigger] rows[b].strips[k], strip)
                    && plays_strip(cache, rows[b].internal_id, rows[b].strips[k]);
            assert(plays_strip(cache, rows[b].internal_id, rows[b].strips[k]));
        }
    }
    let n = rows.len() as int;
    lemma_top_provider(rows, cache, strip, n);
    assert(plays(a) == provides(rows[a], cache, strip));
    if top_provider(rows, cache, strip, n) == Some(a) {
        assert forall|b: int| a < b < rows.len() implies !#[trigger] plays(b) by {
            if plays(b) {
                lemma_top_provider_found(rows, cache, strip, n, b);
            }
        }
    } else if plays(a) {
        lemma_top_provider_found(rows, cache, strip, n, a);
        let b = top_provider(rows, cache, strip, n)->Some_0;
        assert(plays(b));
    }
}

/// Assigning strips puts all of them at full volume without a solo, and lifts the mutes and
/// solos of the rows. Where every soundfont plays, no strip is muted; where the user
/// decides, the mutes stay.
pub proof fn assignments_start_from_full_volume(
    rows: Seq<RowUiView>,
    cache: Map<Seq<char>, SoundFontCoverage>,
    mode: MixerAssignmentMode,
    i: int,
    j: int,
)
    requires
        0 <= i < rows.len(),
        0 <= j < rows[i].strips.len(),
    ensures
        ({
            let after = assigned_rows(rows, cache, mode);
            let strip = after[i].strips[j];
            &&& after.len() == rows.len()
            &&& after[i].internal_id == rows[i].internal_id
            &&& after[i].strips.len() == rows[i].strips.len()
            &&& !after[i].muted && !after[i].soloed && !strip.soloed
            &&& strip.levels.volume.bits == 0x3f80_0000
            &&& strip.levels.pan == rows[i].strips[j].levels.pan
            &&& strip.levels.reverb == rows[i].strips[j].levels.reverb
            &&& strip.strip_id == rows[i].strips[j].strip_id
            &&& mode == MixerAssignmentMode::Balance ==> !strip.muted
            &&& mode == MixerAssignmentMode::Manual ==> strip.muted == rows[i].strips[j].muted
        }),
{
}

/// Master controls are the same only if each of them is.
pub proof fn any_master_control_makes_a_difference(a: MasterControls, b: MasterControls)
    ensures
        a.limiter_enabled != b.limiter_enabled ==> !a.same_as(b),
        !same_level(a.volume_db, b.volume_db) ==> !a.same_as(b),
        !same_level(a.limiter_amount, b.limiter_amount) ==> !a.same_as(b),
        !same_level(a.reverb, b.reverb) ==> !a.same_as(b),
        !same_level(a.chorus, b.chorus) ==> !a.same_as(b),
        !same_level(a.eq_low, b.eq_low) ==> !a.same_as(b),
        !same_level(a.eq_mid, b.eq_mid) ==> !a.same_as(b),
        !same_level(a.eq_high, b.eq_high) ==> !a.same_as(b),
{
}

/// Controls of the automatic mix are the same only if each of them is.
pub proof fn any_smart_mix_control_makes_a_difference(a: SmartMixControls, b: SmartMixControls)
    ensures
        a.enabled != b.enabled ==> !a.same_as(b),
        a.auto_normalize != b.auto_normalize ==> !a.same_as(b),
        !same_level(a.target_headroom_db, b.target_headroom_db) ==> !a.same_as(b),
        !same_level(a.attack_ms, b.attack_ms) ==> !a.same_as(b),
        !same_level(a.release_ms, b.release_ms) ==> !a.same_as(b),
        !same_level(a.lookahead_ms, b.lookahead_ms) ==> !a.same_as(b),
        !same_level(a.normalization_amount, b.normalization_amount) ==> !a.same_as(b),
{
}

/// A new mix is 6 dB down with everything else at rest: no limiter, no effects, no
/// equalizer, and no automatic mix.
pub proof fn new_mixes_are_at_rest()
    ensures
        default_master().volume_db.bits == 0xc0c0_0000,
        !default_master().limiter_enabled,
        default_master().limiter_amount.bits == 0x3e80_0000,
        default_master().reverb.bits == 0,
        default_master().chorus.bits == 0,
        default_master().eq_low.bits == 0,
        default_master().eq_mid.bits == 0,
        default_master().eq_high.bits == 0,
        !default_smart_mix().enabled,
        !default_smart_mix().auto_normalize,
        default_smart_mix().target_headroom_db.bits == 0xc0c0_0000,
        default_smart_mix().attack_ms.bits == 0x3f80_0000,
        default_smart_mix().release_ms.bits == 0x4120_0000,
        default_smart_mix().lookahead_ms.bits == 0x43fa_0000,
        default_smart_mix().normalization_amount.bits == 0x41c8_0000,
{
}

} // verus!
