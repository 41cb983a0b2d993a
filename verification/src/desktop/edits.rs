//! Edits of the mixer: noticing what the user changed, putting saved settings back,
//! and showing what playback reports.
use crate::desktop::rows::{plain_levels, row_views, MasterControls};
use crate::desktop::rows::{MixerStripUiState, RowUiView, SmartMixControls, SoundFontUiRow};
use crate::desktop::rows::StripUiView;
use crate::level::{is_nan, same_level, Level};
use crate::level::{ONE_BITS, QUARTER_BITS, ZERO_BITS};
use crate::playback::strips::StripLevels;
use crate::text::text_eq;
use vstd::prelude::*;
use vstd::string::*;

verus! {

/// What the user can set on a strip.
#[derive(Debug, Copy, Clone, PartialEq, Eq, Structural)]
pub struct StripEditSnapshot {
    pub channel: u8,
    pub bank: u16,
    pub program: u8,
    pub is_percussion: bool,
    pub muted: bool,
    pub soloed: bool,
    pub levels: StripLevels,
}

/// What the user can set on a row.
#[derive(Debug)]
pub struct RowEditSnapshot {
    pub internal_id: String,
    pub muted: bool,
    pub soloed: bool,
    pub strips: Vec<StripEditSnapshot>,
}

/// The contents of a row's settings.
pub ghost struct RowEditView {
    pub internal_id: Seq<char>,
    pub muted: bool,
    pub soloed: bool,
    pub strips: Seq<StripEditSnapshot>,
}

impl View for RowEditSnapshot {
    type V = RowEditView;

    open spec fn view(&self) -> RowEditView {
        RowEditView {
            internal_id: self.internal_id@,
            muted: self.muted,
            soloed: self.soloed,
            strips: self.strips@,
        }
    }
}

/// The contents of the settings of rows.
pub open spec fn edit_views(rows: Seq<RowEditSnapshot>) -> Seq<RowEditView> {
    rows.map_values(|row: RowEditSnapshot| row@)
}

/// Everything that the user can set on the mixer.
#[derive(Debug)]
pub struct MixerEditSnapshot {
    pub master: MasterControls,
    pub smart_mix: SmartMixControls,
    pub rows: Vec<RowEditSnapshot>,
}

/// What is set on a strip.
pub open spec fn strip_settings(strip: StripUiView) -> StripEditSnapshot {
    StripEditSnapshot {
        channel: strip.channel,
        bank: strip.bank,
        program: strip.program,
        is_percussion: strip.is_percussion,
        muted: strip.muted,
        soloed: strip.soloed,
        levels: strip.levels,
    }
}

/// What is set on a row.
pub open spec fn row_settings(row: RowUiView) -> RowEditView {
    RowEditView {
        internal_id: row.internal_id,
        muted: row.muted,
        soloed: row.soloed,
        strips: row.strips.map_values(|strip: StripUiView| strip_settings(strip)),
    }
}

/// What is set on rows.
pub open spec fn rows_settings(rows: Seq<RowUiView>) -> Seq<RowEditView> {
    rows.map_values(|row: RowUiView| row_settings(row))
}

fn settings_of_row(row: &SoundFontUiRow) -> (settings: RowEditSnapshot)
    ensures
        settings@ == row_settings(row@),
{
    let mut strips: Vec<StripEditSnapshot> = Vec::new();
    let mut j: usize = 0;
    while j < row.strips.len()
        invariant
            j <= row.strips@.len(),
            strips@.len() == j,
            forall|k: int| 0 <= k < j ==> (#[trigger] strips@[k]) == strip_settings(row.strips@[k]@),
        decreases row.strips@.len() - j,
    {
        let strip = &row.strips[j];
        strips.push(
            StripEditSnapshot {
                channel: strip.channel,
                bank: strip.bank,
                program: strip.program,
                is_percussion: strip.is_percussion,
                muted: strip.muted,
                soloed: strip.soloed,
                levels: strip.levels,
            },
        );
        j = j + 1;
    }
    assert(strips@ =~= row_settings(row@).strips);
    RowEditSnapshot {
        internal_id: row.internal_id.clone(),
        muted: row.muted,
        soloed: row.soloed,
        strips,
    }
}

/// What is set on the mixer.
pub fn mixer_edit_snapshot(
    master: MasterControls,
    smart_mix: SmartMixControls,
    rows: &[SoundFontUiRow],
) -> (snapshot: MixerEditSnapshot)
    ensures
        snapshot.master == master,
        snapshot.smart_mix == smart_mix,
        edit_views(snapshot.rows@) == rows_settings(row_views(rows@)),
{
    let mut settings: Vec<RowEditSnapshot> = Vec::new();
    let mut i: usize = 0;
    while i < rows.len()
        invariant
            i <= rows@.len(),
            settings@.len() == i,
            forall|k: int| 0 <= k < i ==> (#[trigger] settings@[k])@ == row_settings(rows@[k]@),
        decreases rows@.len() - i,
    {
        settings.push(settings_of_row(&rows[i]));
        i = i + 1;
    }
    assert(edit_views(settings@) =~= rows_settings(row_views(rows@)));
    MixerEditSnapshot { master, smart_mix, rows: settings }
}

/// The last of the first `n` rows' settings with an id.
pub open spec fn last_settings(rows: Seq<RowEditView>, id: Seq<char>, n: int) -> Option<int>
    decreases n,
{
    if n <= 0 {
        None
    } else if rows[n - 1].internal_id == id {
        Some(n - 1)
    } else {
        last_settings(rows, id, n - 1)
    }
}

/// Whether settings are those of a strip.
pub open spec fn is_for_strip(settings: StripEditSnapshot, strip: StripUiView) -> bool {
    settings.channel == strip.channel && settings.bank == strip.bank && settings.program
        == strip.program && settings.is_percussion == strip.is_percussion
}

/// The last of the first `n` settings that are those of a strip.
pub open spec fn last_strip(
    settings: Seq<StripEditSnapshot>,
    strip: StripUiView,
    n: int,
) -> Option<int>
    decreases n,
{
    if n <= 0 {
        None
    } else if is_for_strip(settings[n - 1], strip) {
        Some(n - 1)
    } else {
        last_strip(settings, strip, n - 1)
    }
}

fn find_settings(rows: &[RowEditSnapshot], id: &str) -> (position: Option<usize>)
    ensures
        (match position {
            Some(i) => Some(i as int),
            None => None,
        }) == last_settings(edit_views(rows@), id@, rows@.len() as int),
        position is Some ==> position->Some_0 < rows@.len(),
{
    let mut n: usize = rows.len();
    while n > 0
        invariant
            n <= rows@.len(),
            last_settings(edit_views(rows@), id@, rows@.len() as int) == last_settings(
                edit_views(rows@),
                id@,
                n as int,
            ),
        decreases n,
    {
        assert(edit_views(rows@)[n - 1] == rows@[n - 1]@);
        if text_eq(rows[n - 1].internal_id.as_str(), id) {
            return Some(n - 1);
        }
        n = n - 1;
    }
    None
}

fn find_strip(settings: &[StripEditSnapshot], strip: &MixerStripUiState) -> (position: Option<
    usize,
>)
    ensures
        (match position {
            Some(i) => Some(i as int),
            None => None,
        }) == last_strip(settings@, strip@, settings@.len() as int),
        position is Some ==> position->Some_0 < settings@.len(),
{
    let mut n: usize = settings.len();
    while n > 0
        invariant
            n <= settings@.len(),
            last_strip(settings@, strip@, settings@.len() as int) == last_strip(
                settings@,
                strip@,
                n as int,
            ),
        decreases n,
    {
        let candidate = settings[n - 1];
        if candidate.channel == strip.channel && candidate.bank == strip.bank
            && candidate.program == strip.program && candidate.is_percussion
            == strip.is_percussion {
            return Some(n - 1);
        }
        n = n - 1;
    }
    None
}

/// Whether the levels other than the volume differ as numbers.
pub open spec fn tone_differs(a: StripLevels, b: StripLevels) -> bool {
    !same_level(a.pan, b.pan) || !same_level(a.gain_db, b.gain_db) || a.limiter_enabled
        != b.limiter_enabled || !same_level(a.limiter_amount, b.limiter_amount) || !same_level(
        a.reverb,
        b.reverb,
    ) || !same_level(a.chorus, b.chorus)
}

/// Whether a strip is no longer set as it was.
pub open spec fn strip_edited(strip: StripUiView, before: StripEditSnapshot) -> bool {
    !same_level(strip.levels.volume, before.levels.volume) || strip.muted != before.muted
        || strip.soloed != before.soloed || tone_differs(strip.levels, before.levels)
}

/// A strip after its edits were noticed: what the user touched no longer follows a
/// preset's policy.
pub open spec fn noticed_strip(strip: StripUiView, before: StripEditSnapshot) -> StripUiView {
    let tone = tone_differs(strip.levels, before.levels);
    StripUiView {
        volume_policy_default: strip.volume_policy_default && same_level(
            strip.levels.volume,
            before.levels.volume,
        ) && !tone,
        mute_policy_default: strip.mute_policy_default && strip.muted == before.muted && !tone,
        ..strip
    }
}

/// The settings that a strip had, if it was there.
pub open spec fn settings_before(settings: Seq<StripEditSnapshot>, strip: StripUiView) -> Option<
    StripEditSnapshot,
> {
    match last_strip(settings, strip, settings.len() as int) {
        Some(i) => Some(settings[i]),
        None => None,
    }
}

/// The settings that a row had, if it was there.
pub open spec fn row_before(rows: Seq<RowEditView>, id: Seq<char>) -> Option<RowEditView> {
    match last_settings(rows, id, rows.len() as int) {
        Some(i) => Some(rows[i]),
        None => None,
    }
}

/// A strip of a row that had the given settings, after its edits were noticed.
pub open spec fn noticed_in(strip: StripUiView, settings: Seq<StripEditSnapshot>) -> StripUiView {
    match settings_before(settings, strip) {
        Some(before) => noticed_strip(strip, before),
        None => strip,
    }
}

/// Whether a strip of a row that had the given settings was edited.
pub open spec fn edited_in(strip: StripUiView, settings: Seq<StripEditSnapshot>) -> bool {
    match settings_before(settings, strip) {
        Some(before) => strip_edited(strip, before),
        None => false,
    }
}

/// A row after its edits were noticed.
pub open spec fn noticed_row(row: RowUiView, snapshot: Seq<RowEditView>) -> RowUiView {
    match row_before(snapshot, row.internal_id) {
        Some(before) => RowUiView {
            strips: row.strips.map_values(|strip: StripUiView| noticed_in(strip, before.strips)),
            ..row
        },
        None => row,
    }
}

/// Whether a row was edited.
pub open spec fn row_edited(row: RowUiView, snapshot: Seq<RowEditView>) -> bool {
    match row_before(snapshot, row.internal_id) {
        Some(before) => row.muted != before.muted || row.soloed != before.soloed || exists|j: int|
            0 <= j < row.strips.len() && edited_in(#[trigger] row.strips[j], before.strips),
        None => false,
    }
}

fn notice_strip(strip: &mut MixerStripUiState, settings: &[StripEditSnapshot]) -> (edited: bool)
    ensures
        final(strip)@ == noticed_in(old(strip)@, settings@),
        edited == edited_in(old(strip)@, settings@),
{
    match find_strip(settings, strip) {
        Some(i) => {
            let before = settings[i];
            let volume_differs = !strip.levels.volume.same(before.levels.volume);
            let mute_differs = strip.muted != before.muted;
            let tone = !strip.levels.pan.same(before.levels.pan) || !strip.levels.gain_db.same(
                before.levels.gain_db,
            ) || strip.levels.limiter_enabled != before.levels.limiter_enabled
                || !strip.levels.limiter_amount.same(before.levels.limiter_amount)
                || !strip.levels.reverb.same(before.levels.reverb) || !strip.levels.chorus.same(
                before.levels.chorus,
            );
            if volume_differs || tone {
                strip.volume_policy_default = false;
            }
            if mute_differs || tone {
                strip.mute_policy_default = false;
            }
            volume_differs || mute_differs || strip.soloed != before.soloed || tone
        },
        None => false,
    }
}

fn notice_row(row: &mut SoundFontUiRow, snapshot: &[RowEditSnapshot]) -> (edited: bool)
    ensures
        final(row)@ == noticed_row(old(row)@, edit_views(snapshot@)),
        edited == row_edited(old(row)@, edit_views(snapshot@)),
{
    let ghost was = row@;
    let position = find_settings(snapshot, row.internal_id.as_str());
    let index: usize = match position {
        Some(index) => index,
        None => {
            return false;
        },
    };
    let before = &snapshot[index];
    assert(edit_views(snapshot@)[index as int] == before@);
    let mut edited = row.muted != before.muted || row.soloed != before.soloed;
    let row_part = edited;
    let mut j: usize = 0;
    while j < row.strips.len()
        invariant
            j <= row.strips@.len(),
            row.strips@.len() == was.strips.len(),
            row@ == (RowUiView { strips: row@.strips, ..was }),
            forall|k: int|
                0 <= k < j ==> (#[trigger] row.strips@[k])@ == noticed_in(
                    was.strips[k],
                    before.strips@,
                ),
            forall|k: int| j <= k < row.strips@.len() ==> (#[trigger] row.strips@[k])@
                == was.strips[k],
            edited == (row_part || exists|k: int|
                0 <= k < j && edited_in(#[trigger] was.strips[k], before.strips@)),
        decreases row.strips@.len() - j,
    {
        assert(row.strips@[j as int]@ == was.strips[j as int]);
        let touched = notice_strip(&mut row.strips[j], before.strips.as_slice());
        if touched {
            assert(edited_in(was.strips[j as int], before.strips@));
            edited = true;
        }
        j = j + 1;
    }
    assert(row@.strips =~= was.strips.map_values(
        |strip: StripUiView| noticed_in(strip, before.strips@),
    ));
    edited
}

/// Notices what the user changed since a snapshot, and returns whether anything was.
/// Rows and strips that were not there then count as unchanged.
pub fn apply_mixer_edit_snapshot(
    master: &MasterControls,
    smart_mix: &SmartMixControls,
    rows: &mut Vec<SoundFontUiRow>,
    snapshot: &MixerEditSnapshot,
) -> (changed: bool)
    ensures
        row_views(final(rows)@) == noticed_rows(row_views(old(rows)@), edit_views(snapshot.rows@)),
        changed == mixer_edited(
            *master,
            *smart_mix,
            row_views(old(rows)@),
            *snapshot,
        ),
{
    let ghost before = row_views(rows@);
    let ghost settings = edit_views(snapshot.rows@);
    let master_changed = !master.same(&snapshot.master) || !smart_mix.same(&snapshot.smart_mix);
    let mut changed = master_changed;
    let mut i: usize = 0;
    while i < rows.len()
        invariant
            i <= rows@.len(),
            rows@.len() == before.len(),
            settings == edit_views(snapshot.rows@),
            forall|k: int|
                0 <= k < i ==> (#[trigger] rows@[k])@ == noticed_row(before[k], settings),
            forall|k: int| i <= k < rows@.len() ==> (#[trigger] rows@[k])@ == before[k],
            changed == (master_changed || exists|k: int|
                0 <= k < i && row_edited(#[trigger] before[k], settings)),
        decreases rows@.len() - i,
    {
        assert(rows@[i as int]@ == before[i as int]);
        let edited = notice_row(&mut rows[i], snapshot.rows.as_slice());
        if edited {
            assert(row_edited(before[i as int], settings));
            changed = true;
        }
        i = i + 1;
    }
    assert(row_views(rows@) =~= noticed_rows(before, settings));
    changed
}

/// The rows after their edits were noticed.
pub open spec fn noticed_rows(rows: Seq<RowUiView>, snapshot: Seq<RowEditView>) -> Seq<RowUiView> {
    rows.map_values(|row: RowUiView| noticed_row(row, snapshot))
}

/// Whether anything on the mixer was edited.
pub open spec fn mixer_edited(
    master: MasterControls,
    smart_mix: SmartMixControls,
    rows: Seq<RowUiView>,
    snapshot: MixerEditSnapshot,
) -> bool {
    !master.same_as(snapshot.master) || !smart_mix.same_as(snapshot.smart_mix) || exists|i: int|
        0 <= i < rows.len() && row_edited(#[trigger] rows[i], edit_views(snapshot.rows@))
}

/// A strip with the saved settings, which no longer follow a policy.
pub open spec fn restored_strip(strip: StripUiView, saved: StripEditSnapshot) -> StripUiView {
    StripUiView {
        levels: saved.levels,
        muted: saved.muted,
        unsupported: false,
        mute_policy_default: false,
        volume_policy_default: false,
        ..strip
    }
}

/// A strip of a row that had the given settings, with its settings put back.
pub open spec fn restored_in(strip: StripUiView, settings: Seq<StripEditSnapshot>) -> StripUiView {
    match settings_before(settings, strip) {
        Some(saved) => restored_strip(strip, saved),
        None => strip,
    }
}

/// A previous row by its id: the last one.
pub open spec fn last_row(rows: Seq<RowUiView>, id: Seq<char>, n: int) -> Option<int>
    decreases n,
{
    if n <= 0 {
        None
    } else if rows[n - 1].internal_id == id {
        Some(n - 1)
    } else {
        last_row(rows, id, n - 1)
    }
}

/// A row with the settings of its predecessor, if it had one.
pub open spec fn restored_row(row: RowUiView, previous: Seq<RowUiView>) -> RowUiView {
    match last_row(previous, row.internal_id, previous.len() as int) {
        Some(i) => RowUiView {
            collapsed: previous[i].collapsed,
            muted: previous[i].muted,
            strips: row.strips.map_values(
                |strip: StripUiView| restored_in(strip, row_settings(previous[i]).strips),
            ),
            ..row
        },
        None => row,
    }
}

fn find_last_row(rows: &[SoundFontUiRow], id: &str) -> (position: Option<usize>)
    ensures
        (match position {
            Some(i) => Some(i as int),
            None => None,
        }) == last_row(row_views(rows@), id@, rows@.len() as int),
        position is Some ==> position->Some_0 < rows@.len(),
{
    let mut n: usize = rows.len();
    while n > 0
        invariant
            n <= rows@.len(),
            last_row(row_views(rows@), id@, rows@.len() as int) == last_row(
                row_views(rows@),
                id@,
                n as int,
            ),
        decreases n,
    {
        assert(row_views(rows@)[n - 1] == rows@[n - 1]@);
        if text_eq(rows[n - 1].internal_id.as_str(), id) {
            return Some(n - 1);
        }
        n = n - 1;
    }
    None
}

fn restore_row(row: &mut SoundFontUiRow, previous: &[SoundFontUiRow])
    ensures
        final(row)@ == restored_row(old(row)@, row_views(previous@)),
{
    let ghost was = row@;
    let position = find_last_row(previous, row.internal_id.as_str());
    let index: usize = match position {
        Some(index) => index,
        None => {
            return;
        },
    };
    assert(row_views(previous@)[index as int] == previous@[index as int]@);
    let saved = settings_of_row(&previous[index]);
    row.collapsed = previous[index].collapsed;
    row.muted = previous[index].muted;
    let ghost now = row@;
    let mut j: usize = 0;
    while j < row.strips.len()
        invariant
            j <= row.strips@.len(),
            row.strips@.len() == was.strips.len(),
            row@ == (RowUiView { strips: row@.strips, ..now }),
            forall|k: int|
                0 <= k < j ==> (#[trigger] row.strips@[k])@ == restored_in(
                    was.strips[k],
                    saved.strips@,
                ),
            forall|k: int| j <= k < row.strips@.len() ==> (#[trigger] row.strips@[k])@
                == was.strips[k],
        decreases row.strips@.len() - j,
    {
        assert(row.strips@[j as int]@ == was.strips[j as int]);
        match find_strip(saved.strips.as_slice(), &row.strips[j]) {
            Some(i) => {
                let settings = saved.strips[i];
                row.strips[j].levels = settings.levels;
                row.strips[j].muted = settings.muted;
                row.strips[j].unsupported = false;
                row.strips[j].mute_policy_default = false;
                row.strips[j].volume_policy_default = false;
            },
            None => {},
        }
        j = j + 1;
    }
    assert(row@.strips =~= was.strips.map_values(
        |strip: StripUiView| restored_in(strip, saved.strips@),
    ));
}

/// Gives rows the settings of the rows that stood there before.
pub fn restore_soundfont_row_controls(rows: &mut Vec<SoundFontUiRow>, previous: &[SoundFontUiRow])
    ensures
        row_views(final(rows)@) == row_views(old(rows)@).map_values(
            |row: RowUiView| restored_row(row, row_views(previous@)),
        ),
{
    let ghost before = row_views(rows@);
    let ghost saved = row_views(previous@);
    let mut i: usize = 0;
    while i < rows.len()
        invariant
            i <= rows@.len(),
            rows@.len() == before.len(),
            saved == row_views(previous@),
            forall|k: int|
                0 <= k < i ==> (#[trigger] rows@[k])@ == restored_row(before[k], saved),
            forall|k: int| i <= k < rows@.len() ==> (#[trigger] rows@[k])@ == before[k],
        decreases rows@.len() - i,
    {
        assert(rows@[i as int]@ == before[i as int]);
        restore_row(&mut rows[i], previous);
        i = i + 1;
    }
    assert(row_views(rows@) =~= before.map_values(|row: RowUiView| restored_row(row, saved)));
}

/// Where a mixer that nobody touched is compared with its own snapshot, nothing was
/// edited, and no strip loses its policy. (Every level is a number, and neither
/// soundfonts nor the places of strips occur twice.)
pub proof fn untouched_row_is_not_edited(rows: Seq<RowUiView>, i: int)
    requires
        0 <= i < rows.len(),
        forall|a: int, b: int|
            0 <= a < b < rows.len() ==> (#[trigger] rows[a]).internal_id != (
            #[trigger] rows[b]).internal_id,
        forall|j: int|
            0 <= j < rows[i].strips.len() ==> levels_are_numbers(
                (#[trigger] rows[i].strips[j]).levels,
            ),
        forall|a: int, b: int|
            0 <= a < b < rows[i].strips.len() ==> !crate::desktop::rows::same_place(
                #[trigger] rows[i].strips[a],
                #[trigger] rows[i].strips[b],
            ),
    ensures
        !row_edited(rows[i], rows_settings(rows)),
        noticed_row(rows[i], rows_settings(rows)) == rows[i],
{
    let settings = rows_settings(rows);
    lemma_last_settings(rows, i, rows.len() as int);
    let mine = row_settings(rows[i]).strips;
    assert(settings[i].strips == mine);
    assert forall|j: int| 0 <= j < rows[i].strips.len() implies settings_before(
        mine,
        #[trigger] rows[i].strips[j],
    ) == Some(strip_settings(rows[i].strips[j])) by {
        lemma_last_strip(rows[i].strips, j, rows[i].strips.len() as int);
    }
    assert(noticed_row(rows[i], settings).strips =~= rows[i].strips);
}

/// Every level is a number.
pub open spec fn levels_are_numbers(levels: StripLevels) -> bool {
    !is_nan(levels.volume.bits) && !is_nan(levels.pan.bits) && !is_nan(levels.gain_db.bits)
        && !is_nan(levels.limiter_amount.bits) && !is_nan(levels.reverb.bits) && !is_nan(
        levels.chorus.bits,
    )
}

proof fn lemma_last_settings(rows: Seq<RowUiView>, i: int, n: int)
    requires
        0 <= i < n <= rows.len(),
        forall|a: int, b: int|
            0 <= a < b < rows.len() ==> (#[trigger] rows[a]).internal_id != (
            #[trigger] rows[b]).internal_id,
    ensures
        last_settings(rows_settings(rows), rows[i].internal_id, n) == Some(i),
    decreases n,
{
    if n - 1 > i {
        assert(rows[i].internal_id != rows[n - 1].internal_id);
        lemma_last_settings(rows, i, n - 1);
    }
}

proof fn lemma_last_strip(strips: Seq<StripUiView>, j: int, n: int)
    requires
        0 <= j < n <= strips.len(),
        forall|a: int, b: int|
            0 <= a < b < strips.len() ==> !crate::desktop::rows::same_place(
                #[trigger] strips[a],
                #[trigger] strips[b],
            ),
    ensures
        last_strip(
            strips.map_values(|strip: StripUiView| strip_settings(strip)),
            strips[j],
            n,
        ) == Some(j),
    decreases n,
{
    if n - 1 > j {
        assert(!crate::desktop::rows::same_place(strips[j], strips[n - 1]));
        lemma_last_strip(strips, j, n - 1);
    }
}

/// A plain strip: not muted, with the levels that nobody set, and silent.
pub open spec fn plain_strip(strip: StripUiView) -> StripUiView {
    StripUiView {
        levels: plain_levels(),
        muted: false,
        unsupported: false,
        mute_policy_default: false,
        volume_policy_default: false,
        soloed: false,
        meter: Level { bits: 0 },
        active: false,
        current_note: "--"@,
        ..strip
    }
}

/// A plain row.
pub open spec fn plain_row(row: RowUiView) -> RowUiView {
    RowUiView {
        muted: false,
        soloed: false,
        strips: row.strips.map_values(|strip: StripUiView| plain_strip(strip)),
        ..row
    }
}

fn reset_row(row: &mut SoundFontUiRow)
    ensures
        final(row)@ == plain_row(old(row)@),
{
    let ghost was = row@;
    row.muted = false;
    row.soloed = false;
    let ghost now = row@;
    let mut j: usize = 0;
    while j < row.strips.len()
        invariant
            j <= row.strips@.len(),
            row.strips@.len() == was.strips.len(),
            row@ == (RowUiView { strips: row@.strips, ..now }),
            forall|k: int|
                0 <= k < j ==> (#[trigger] row.strips@[k])@ == plain_strip(was.strips[k]),
            forall|k: int| j <= k < row.strips@.len() ==> (#[trigger] row.strips@[k])@
                == was.strips[k],
        decreases row.strips@.len() - j,
    {
        assert(row.strips@[j as int]@ == was.strips[j as int]);
        row.strips[j].levels =
        StripLevels {
            volume: Level { bits: ONE_BITS },
            pan: Level { bits: ZERO_BITS },
            gain_db: Level { bits: ZERO_BITS },
            limiter_enabled: false,
            limiter_amount: Level { bits: QUARTER_BITS },
            reverb: Level { bits: ZERO_BITS },
            chorus: Level { bits: ZERO_BITS },
        };
        row.strips[j].muted = false;
        row.strips[j].unsupported = false;
        row.strips[j].mute_policy_default = false;
        row.strips[j].volume_policy_default = false;
        row.strips[j].soloed = false;
        row.strips[j].meter = Level { bits: 0 };
        row.strips[j].active = false;
        row.strips[j].current_note = "--".to_owned();
        j = j + 1;
    }
    assert(row@.strips =~= was.strips.map_values(|strip: StripUiView| plain_strip(strip)));
}

/// Puts every row back to what a plain MIDI file starts with.
pub fn reset_plain_rows(rows: &mut Vec<SoundFontUiRow>)
    ensures
        row_views(final(rows)@) == row_views(old(rows)@).map_values(
            |row: RowUiView| plain_row(row),
        ),
{
    let ghost before = row_views(rows@);
    let mut i: usize = 0;
    while i < rows.len()
        invariant
            i <= rows@.len(),
            rows@.len() == before.len(),
            forall|k: int| 0 <= k < i ==> (#[trigger] rows@[k])@ == plain_row(before[k]),
            forall|k: int| i <= k < rows@.len() ==> (#[trigger] rows@[k])@ == before[k],
        decreases rows@.len() - i,
    {
        assert(rows@[i as int]@ == before[i as int]);
        reset_row(&mut rows[i]);
        i = i + 1;
    }
    assert(row_views(rows@) =~= before.map_values(|row: RowUiView| plain_row(row)));
}

/// Whether a row is collapsed in every row, of which there is at least one.
pub open spec fn all_collapsed(rows: Seq<RowUiView>) -> bool {
    rows.len() > 0 && forall|i: int| 0 <= i < rows.len() ==> (#[trigger] rows[i]).collapsed
}

pub fn all_mixer_rows_collapsed(rows: &[SoundFontUiRow]) -> (collapsed: bool)
    ensures
        collapsed == all_collapsed(row_views(rows@)),
{
    let mut i: usize = 0;
    while i < rows.len()
        invariant
            i <= rows@.len(),
            forall|k: int| 0 <= k < i ==> (#[trigger] row_views(rows@)[k]).collapsed,
        decreases rows@.len() - i,
    {
        assert(row_views(rows@)[i as int] == rows@[i as int]@);
        if !rows[i].collapsed {
            return false;
        }
        i = i + 1;
    }
    rows.len() > 0
}

/// Collapses every row, or expands them if all are collapsed.
pub fn toggle_all_mixer_rows_collapsed(rows: &mut Vec<SoundFontUiRow>)
    ensures
        row_views(final(rows)@) == row_views(old(rows)@).map_values(
            |row: RowUiView|
                RowUiView { collapsed: !all_collapsed(row_views(old(rows)@)), ..row },
        ),
{
    let ghost before = row_views(rows@);
    let collapsed = !all_mixer_rows_collapsed(rows.as_slice());
    let mut i: usize = 0;
    while i < rows.len()
        invariant
            i <= rows@.len(),
            rows@.len() == before.len(),
            forall|k: int|
                0 <= k < i ==> (#[trigger] rows@[k])@ == (RowUiView { collapsed, ..before[k] }),
            forall|k: int| i <= k < rows@.len() ==> (#[trigger] rows@[k])@ == before[k],
        decreases rows@.len() - i,
    {
        assert(rows@[i as int]@ == before[i as int]);
        rows[i].collapsed = collapsed;
        i = i + 1;
    }
    assert(row_views(rows@) =~= before.map_values(
        |row: RowUiView| RowUiView { collapsed: !all_collapsed(before), ..row },
    ));
}

/// Collapsing rows that are not all collapsed collapses them all, and doing it
/// again expands them all.
pub proof fn collapsing_alternates(rows: Seq<RowUiView>)
    requires
        rows.len() > 0,
    ensures
        ({
            let once = rows.map_values(
                |row: RowUiView| RowUiView { collapsed: !all_collapsed(rows), ..row },
            );
            all_collapsed(once) == !all_collapsed(rows)
        }),
{
    let once = rows.map_values(
        |row: RowUiView| RowUiView { collapsed: !all_collapsed(rows), ..row },
    );
    assert(once[0].collapsed == !all_collapsed(rows));
}

/// Any setting of a strip that the user changes is an edit: volume, mute, solo, pan, gain,
/// limiter, reverb and chorus.
pub proof fn every_change_of_a_strip_is_an_edit(strip: StripUiView, before: StripEditSnapshot)
    ensures
        strip.muted != before.muted ==> strip_edited(strip, before),
        strip.soloed != before.soloed ==> strip_edited(strip, before),
        !same_level(strip.levels.volume, before.levels.volume) ==> strip_edited(strip, before),
        !same_level(strip.levels.pan, before.levels.pan) ==> strip_edited(strip, before),
        !same_level(strip.levels.gain_db, before.levels.gain_db) ==> strip_edited(strip, before),
        strip.levels.limiter_enabled != before.levels.limiter_enabled ==> strip_edited(
            strip,
            before,
        ),
        !same_level(strip.levels.limiter_amount, before.levels.limiter_amount) ==> strip_edited(
            strip,
            before,
        ),
        !same_level(strip.levels.reverb, before.levels.reverb) ==> strip_edited(strip, before),
        !same_level(strip.levels.chorus, before.levels.chorus) ==> strip_edited(strip, before),
{
}

/// What the user touches no longer follows the policy of a preset: a changed volume leaves
/// the policy on volume, a changed mute the one on mutes, and any other change but a solo
/// leaves both. Nothing that is set changes by that.
pub proof fn edits_end_the_policy(strip: StripUiView, before: StripEditSnapshot)
    ensures
        ({
            let after = noticed_strip(strip, before);
            &&& after.muted == strip.muted && after.soloed == strip.soloed && after.levels
                == strip.levels && after.strip_id == strip.strip_id
            &&& !same_level(strip.levels.volume, before.levels.volume)
                ==> !after.volume_policy_default
            &&& strip.muted != before.muted ==> !after.mute_policy_default
            &&& !same_level(strip.levels.pan, before.levels.pan) || !same_level(
                strip.levels.reverb,
                before.levels.reverb,
            ) || !same_level(strip.levels.chorus, before.levels.chorus)
                || strip.levels.limiter_enabled != before.levels.limiter_enabled || !same_level(
                strip.levels.gain_db,
                before.levels.gain_db,
            ) || !same_level(strip.levels.limiter_amount, before.levels.limiter_amount)
                ==> !after.volume_policy_default && !after.mute_policy_default
            &&& levels_are_numbers(strip.levels) && strip.levels == before.levels
                ==> after.volume_policy_default == strip.volume_policy_default && (strip.muted
                == before.muted ==> after.mute_policy_default == strip.mute_policy_default)
            &&& levels_are_numbers(strip.levels) && before.levels == (StripLevels {
                volume: before.levels.volume,
                ..strip.levels
            }) && strip.muted == before.muted ==> after.mute_policy_default
                == strip.mute_policy_default
        }),
{
}

/// Rows that were there before get back what the user had set: whether they are collapsed
/// and muted, and the levels and mutes of the strips of the same place. New rows and new
/// strips stay as they are. (Neither soundfonts nor the places of strips occur twice.)
pub proof fn settings_come_back_to_their_strips(
    row: RowUiView,
    previous: Seq<RowUiView>,
    p: int,
    q: int,
    j: int,
)
    requires
        forall|a: int, b: int|
            0 <= a < b < previous.len() ==> (#[trigger] previous[a]).internal_id != (
            #[trigger] previous[b]).internal_id,
        0 <= p < previous.len(),
        previous[p].internal_id == row.internal_id,
        forall|a: int, b: int|
            0 <= a < b < previous[p].strips.len() ==> !crate::desktop::rows::same_place(
                #[trigger] previous[p].strips[a],
                #[trigger] previous[p].strips[b],
            ),
        0 <= q < previous[p].strips.len(),
        0 <= j < row.strips.len(),
        row.strips[j].channel == previous[p].strips[q].channel,
        row.strips[j].bank == previous[p].strips[q].bank,
        row.strips[j].program == previous[p].strips[q].program,
        row.strips[j].is_percussion == previous[p].strips[q].is_percussion,
    ensures
        ({
            let after = restored_row(row, previous);
            &&& after.internal_id == row.internal_id
            &&& after.display_name == row.display_name
            &&& after.collapsed == previous[p].collapsed
            &&& after.muted == previous[p].muted
            &&& after.strips.len() == row.strips.len()
            &&& after.strips[j].levels == previous[p].strips[q].levels
            &&& after.strips[j].muted == previous[p].strips[q].muted
            &&& after.strips[j].strip_id == row.strips[j].strip_id
            &&& !after.strips[j].mute_policy_default
            &&& !after.strips[j].volume_policy_default
        }),
{
    lemma_last_row_found(previous, p, previous.len() as int);
    let settings = row_settings(previous[p]).strips;
    lemma_last_strip_found(settings, row.strips[j], q, settings.len() as int);
}

proof fn lemma_last_row_found(rows: Seq<RowUiView>, p: int, n: int)
    requires
        0 <= p < n <= rows.len(),
        forall|a: int, b: int|
            0 <= a < b < rows.len() ==> (#[trigger] rows[a]).internal_id != (
            #[trigger] rows[b]).internal_id,
    ensures
        last_row(rows, rows[p].internal_id, n) == Some(p),
    decreases n,
{
    if n - 1 > p {
        assert(rows[p].internal_id != rows[n - 1].internal_id);
        lemma_last_row_found(rows, p, n - 1);
    }
}

proof fn lemma_last_strip_found(
    settings: Seq<StripEditSnapshot>,
    strip: StripUiView,
    q: int,
    n: int,
)
    requires
        0 <= q < n <= settings.len(),
        is_for_strip(settings[q], strip),
        forall|b: int|
            q < b < settings.len() ==> !((#[trigger] settings[b]).channel == settings[q].channel
                && settings[b].bank == settings[q].bank && settings[b].program
                == settings[q].program && settings[b].is_percussion == settings[q].is_percussion),
    ensures
        last_strip(settings, strip, n) == Some(q),
    decreases n,
{
    if n - 1 > q {
        assert(!is_for_strip(settings[n - 1], strip));
        lemma_last_strip_found(settings, strip, q, n - 1);
    }
}

/// Resetting the mixer leaves no mute, no solo and no effect: every strip is at full volume
/// in the middle, and shows nothing.
pub proof fn plain_rows_are_at_rest(row: RowUiView, j: int)
    requires
        0 <= j < row.strips.len(),
    ensures
        ({
            let after = plain_row(row);
            let strip = after.strips[j];
            &&& !after.muted && !after.soloed
            &&& after.internal_id == row.internal_id
            &&& after.strips.len() == row.strips.len()
            &&& !strip.muted && !strip.soloed && !strip.unsupported && !strip.active
            &&& strip.levels.volume.bits == 0x3f80_0000
            &&& strip.levels.pan.bits == 0
            &&& strip.levels.gain_db.bits == 0
            &&& strip.levels.reverb.bits == 0
            &&& strip.levels.chorus.bits == 0
            &&& !strip.levels.limiter_enabled
            &&& strip.strip_id == row.strips[j].strip_id
        }),
{
}

/// The mixer was edited where its master or its automatic mix differs from before, or where a
/// row does; a change of one of these is enough.
pub proof fn any_change_edits_the_mixer(
    master: MasterControls,
    smart_mix: SmartMixControls,
    rows: Seq<RowUiView>,
    snapshot: MixerEditSnapshot,
    i: int,
)
    requires
        0 <= i < rows.len(),
    ensures
        !master.same_as(snapshot.master) ==> mixer_edited(master, smart_mix, rows, snapshot),
        !smart_mix.same_as(snapshot.smart_mix) ==> mixer_edited(master, smart_mix, rows, snapshot),
        row_before(edit_views(snapshot.rows@), rows[i].internal_id) is Some && rows[i].muted
            != row_before(edit_views(snapshot.rows@), rows[i].internal_id)->Some_0.muted
            ==> mixer_edited(master, smart_mix, rows, snapshot),
        row_before(edit_views(snapshot.rows@), rows[i].internal_id) is Some && rows[i].soloed
            != row_before(edit_views(snapshot.rows@), rows[i].internal_id)->Some_0.soloed
            ==> mixer_edited(master, smart_mix, rows, snapshot),
        master.same_as(snapshot.master) && smart_mix.same_as(snapshot.smart_mix) && (forall|k: int|
            0 <= k < rows.len() ==> row_before(
                edit_views(snapshot.rows@),
                (#[trigger] rows[k]).internal_id,
            ) is None) ==> !mixer_edited(master, smart_mix, rows, snapshot),
        noticed_rows(rows, edit_views(snapshot.rows@)).len() == rows.len(),
        noticed_rows(rows, edit_views(snapshot.rows@))[i].internal_id == rows[i].internal_id,
        noticed_rows(rows, edit_views(snapshot.rows@))[i].muted == rows[i].muted,
        noticed_rows(rows, edit_views(snapshot.rows@))[i].soloed == rows[i].soloed,
{
    if row_edited(rows[i], edit_views(snapshot.rows@)) {
        assert(mixer_edited(master, smart_mix, rows, snapshot));
    }
}

} // verus!
