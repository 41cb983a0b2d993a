//! FMID project files: what is saved of the player, and how it is put back.
use crate::desktop::feedback::{find_row, first_row, first_row_from};
use crate::desktop::loops::{FmidLoopRecord, LoopState, MediaLoop};
use crate::desktop::metadata::{field_views, kept_from, no_tags, normalized_fields};
use crate::desktop::metadata::{normalized_metadata_fields, MetadataEditState, MetadataField};
use crate::desktop::metadata::{MetadataView, TrackMetadata, TrackTags};
use crate::desktop::presets::{mixer_source_mode, preset_asked_for, MixerSourceMode, PresetSet};
use crate::desktop::rows::{ids_of_rows, row_ids, row_views, strip_views, MasterControls};
use crate::desktop::rows::{MixerStripUiState, RowUiView, SmartMixControls, SoundFontUiRow};
use crate::desktop::rows::StripUiView;
use crate::error::{ErrorKind, FlutzError};
use crate::playback::strips::StripLevels;
use crate::text::{clone_texts, text_eq, texts};
use vstd::prelude::*;
use vstd::string::*;

verus! {

/// The saved settings of a strip.
#[derive(Debug)]
pub struct FmidMixerStripRecord {
    pub soundfont_id: String,
    pub midi_channel: u64,
    pub midi_program: u64,
    pub is_percussion: bool,
    pub mute: bool,
    pub levels: StripLevels,
}

/// The contents of the saved settings of a strip.
pub ghost struct SavedStrip {
    pub font: Seq<char>,
    pub channel: u64,
    pub program: u64,
    pub is_percussion: bool,
    pub mute: bool,
    pub levels: StripLevels,
}

impl View for FmidMixerStripRecord {
    type V = SavedStrip;

    open spec fn view(&self) -> SavedStrip {
        SavedStrip {
            font: self.soundfont_id@,
            channel: self.midi_channel,
            program: self.midi_program,
            is_percussion: self.is_percussion,
            mute: self.mute,
            levels: self.levels,
        }
    }
}

/// Whether a row is saved as muted.
#[derive(Debug)]
pub struct SoundFontRowMuteRecord {
    pub soundfont_id: String,
    pub muted: bool,
}

/// The contents of saved strips.
pub open spec fn saved_views(strips: Seq<FmidMixerStripRecord>) -> Seq<SavedStrip> {
    strips.map_values(|strip: FmidMixerStripRecord| strip@)
}

/// The contents of saved mutes.
pub open spec fn mute_views(mutes: Seq<SoundFontRowMuteRecord>) -> Seq<(Seq<char>, bool)> {
    mutes.map_values(|mute: SoundFontRowMuteRecord| (mute.soundfont_id@, mute.muted))
}

/// A project file.
#[derive(Debug)]
pub struct FmidFile {
    pub midi_bytes: Vec<u8>,
    pub project: TrackMetadata,
    pub soundfonts: Vec<String>,
    pub master: MasterControls,
    pub row_mutes: Vec<SoundFontRowMuteRecord>,
    pub strips: Vec<FmidMixerStripRecord>,
    pub mixer_source_mode: MixerSourceMode,
    pub looping: FmidLoopRecord,
    pub smart_mix: SmartMixControls,
}

/// What is saved of a strip.
pub open spec fn saved_strip(font: Seq<char>, strip: StripUiView) -> SavedStrip {
    SavedStrip {
        font,
        channel: strip.channel as u64,
        program: strip.program as u64,
        is_percussion: strip.is_percussion,
        mute: strip.muted,
        levels: strip.levels,
    }
}

/// What is saved of the strips of a row.
pub open spec fn saved_row(row: RowUiView) -> Seq<SavedStrip> {
    row.strips.map_values(|strip: StripUiView| saved_strip(row.internal_id, strip))
}

/// What is saved of the strips of all rows, one row after the other.
pub open spec fn saved_strips(rows: Seq<RowUiView>) -> Seq<SavedStrip>
    decreases rows.len(),
{
    if rows.len() == 0 {
        Seq::empty()
    } else {
        saved_strips(rows.drop_last()) + saved_row(rows.last())
    }
}

/// What is saved of the mutes of rows.
pub open spec fn saved_mutes(rows: Seq<RowUiView>) -> Seq<(Seq<char>, bool)> {
    rows.map_values(|row: RowUiView| (row.internal_id, row.muted))
}

fn save_strips(rows: &[SoundFontUiRow]) -> (strips: Vec<FmidMixerStripRecord>)
    ensures
        saved_views(strips@) == saved_strips(row_views(rows@)),
{
    let ghost views = row_views(rows@);
    let mut strips: Vec<FmidMixerStripRecord> = Vec::new();
    let mut i: usize = 0;
    proof {
        assert(views.take(0) =~= Seq::<RowUiView>::empty());
        assert(saved_views(strips@) =~= Seq::<SavedStrip>::empty());
    }
    while i < rows.len()
        invariant
            i <= rows@.len(),
            views == row_views(rows@),
            saved_views(strips@) == saved_strips(views.take(i as int)),
        decreases rows@.len() - i,
    {
        let ghost before = saved_views(strips@);
        let row = &rows[i];
        proof {
            assert(views.take(i + 1).drop_last() =~= views.take(i as int));
            assert(views[i as int] == row@);
            assert(before + saved_row(row@).take(0) =~= before);
        }
        let mut j: usize = 0;
        while j < row.strips.len()
            invariant
                j <= row.strips@.len(),
                saved_views(strips@) == before + saved_row(row@).take(j as int),
            decreases row.strips@.len() - j,
        {
            let strip = &row.strips[j];
            let record = FmidMixerStripRecord {
                soundfont_id: row.internal_id.clone(),
                midi_channel: strip.channel as u64,
                midi_program: strip.program as u64,
                is_percussion: strip.is_percussion,
                mute: strip.muted,
                levels: strip.levels,
            };
            assert(saved_row(row@)[j as int] == record@);
            let ghost so_far = saved_views(strips@);
            strips.push(record);
            assert(saved_views(strips@) =~= so_far.push(record@));
            assert(so_far.push(record@) =~= before + saved_row(row@).take(j + 1));
            j = j + 1;
        }
        assert(saved_row(row@).take(j as int) =~= saved_row(row@));
        i = i + 1;
    }
    assert(views.take(i as int) =~= views);
    strips
}

fn save_mutes(rows: &[SoundFontUiRow]) -> (mutes: Vec<SoundFontRowMuteRecord>)
    ensures
        mute_views(mutes@) == saved_mutes(row_views(rows@)),
{
    let mut mutes: Vec<SoundFontRowMuteRecord> = Vec::new();
    let mut i: usize = 0;
    while i < rows.len()
        invariant
            i <= rows@.len(),
            mutes@.len() == i,
            forall|k: int|
                0 <= k < i ==> (#[trigger] mutes@[k]).soundfont_id@ == rows@[k].internal_id@
                    && mutes@[k].muted == rows@[k].muted,
        decreases rows@.len() - i,
    {
        mutes.push(
            SoundFontRowMuteRecord {
                soundfont_id: rows[i].internal_id.clone(),
                muted: rows[i].muted,
            },
        );
        i = i + 1;
    }
    assert(mute_views(mutes@) =~= saved_mutes(row_views(rows@)));
    mutes
}

/// Everything of the player that a project file is made of. `title` is the title of
/// the project and `midi_name` the name of its MIDI file.
pub struct ProjectParts<'a> {
    pub metadata: &'a MetadataEditState,
    pub title: &'a str,
    pub midi_name: Option<&'a str>,
    pub loaded_ids: &'a [String],
    pub rows: &'a [SoundFontUiRow],
    pub master: MasterControls,
    pub smart_mix: SmartMixControls,
    pub looping: LoopState,
    pub presets: &'a PresetSet,
    pub active_preset_id: &'a str,
}

/// Whether a file holds what there is to save.
pub open spec fn saves(file: FmidFile, bytes: Seq<u8>, parts: ProjectParts) -> bool {
    let midi_name = match parts.midi_name {
        Some(name) => name@,
        None => "embedded.mid"@,
    };
    &&& file.midi_bytes@ == bytes
    &&& file.project@ == kept_from(parts.metadata@, parts.title@, midi_name)
    &&& texts(file.soundfonts@) == if parts.loaded_ids@.len() == 0 {
        row_ids(row_views(parts.rows@))
    } else {
        texts(parts.loaded_ids@)
    }
    &&& file.master == parts.master
    &&& file.smart_mix == parts.smart_mix
    &&& mute_views(file.row_mutes@) == saved_mutes(row_views(parts.rows@))
    &&& saved_views(file.strips@) == saved_strips(row_views(parts.rows@))
    &&& file.looping == parts.looping.fmid_record()
    &&& preset_asked_for(file.mixer_source_mode) == match parts.presets.found(
        parts.active_preset_id@,
    ) {
        Some(i) => Some(parts.presets.presets@[i].id@),
        None => None,
    }
}

/// The project file of what is loaded. There is none without a MIDI file.
pub fn build_fmid_file(midi_bytes: Option<&[u8]>, parts: &ProjectParts) -> (file: Result<
    FmidFile,
    FlutzError,
>)
    ensures
        match midi_bytes {
            Some(bytes) => file is Ok && saves(file->Ok_0, bytes@, *parts),
            None => file is Err && file->Err_0@ == (
                ErrorKind::InvalidInput,
                "load a MIDI file before saving"@,
            ),
        },
{
    let bytes = match midi_bytes {
        Some(bytes) => bytes,
        None => {
            return Err(FlutzError::InvalidInput("load a MIDI file before saving".to_owned()));
        },
    };
    let mut copy: Vec<u8> = Vec::new();
    copy.extend_from_slice(bytes);
    assert(copy@ =~= bytes@);
    let midi_name = match parts.midi_name {
        Some(name) => name,
        None => "embedded.mid",
    };
    Ok(
        FmidFile {
            midi_bytes: copy,
            project: parts.metadata.to_fmid_project(parts.title, midi_name),
            soundfonts: if parts.loaded_ids.len() == 0 {
                ids_of_rows(parts.rows)
            } else {
                clone_texts(parts.loaded_ids)
            },
            master: parts.master,
            row_mutes: save_mutes(parts.rows),
            strips: save_strips(parts.rows),
            mixer_source_mode: mixer_source_mode(parts.presets, parts.active_preset_id),
            looping: parts.looping.to_fmid(),
            smart_mix: parts.smart_mix,
        },
    )
}

/// The saved mute of a row: the last one of the first `n`, or none.
pub open spec fn mute_of(mutes: Seq<(Seq<char>, bool)>, id: Seq<char>, n: int) -> bool
    decreases n,
{
    if n <= 0 {
        false
    } else if mutes[n - 1].0 == id {
        mutes[n - 1].1
    } else {
        mute_of(mutes, id, n - 1)
    }
}

fn find_mute(mutes: &[SoundFontRowMuteRecord], id: &str) -> (muted: bool)
    ensures
        muted == mute_of(mute_views(mutes@), id@, mutes@.len() as int),
{
    let mut n: usize = mutes.len();
    while n > 0
        invariant
            n <= mutes@.len(),
            mute_of(mute_views(mutes@), id@, mutes@.len() as int) == mute_of(
                mute_views(mutes@),
                id@,
                n as int,
            ),
        decreases n,
    {
        assert(mute_views(mutes@)[n - 1] == (mutes@[n - 1].soundfont_id@, mutes@[n - 1].muted));
        if text_eq(mutes[n - 1].soundfont_id.as_str(), id) {
            return mutes[n - 1].muted;
        }
        n = n - 1;
    }
    false
}

/// A row before the saved strips are put back: with its saved mute, nothing soloed
/// and no strip muted.
pub open spec fn cleared_row(row: RowUiView, mutes: Seq<(Seq<char>, bool)>) -> RowUiView {
    RowUiView {
        muted: mute_of(mutes, row.internal_id, mutes.len() as int),
        soloed: false,
        strips: row.strips.map_values(
            |strip: StripUiView| StripUiView { soloed: false, muted: false, ..strip },
        ),
        ..row
    }
}

fn clear_row(row: &mut SoundFontUiRow, mutes: &[SoundFontRowMuteRecord])
    ensures
        final(row)@ == cleared_row(old(row)@, mute_views(mutes@)),
{
    let ghost was = row@;
    row.muted = find_mute(mutes, row.internal_id.as_str());
    row.soloed = false;
    let ghost now = row@;
    let mut j: usize = 0;
    while j < row.strips.len()
        invariant
            j <= row.strips@.len(),
            row.strips@.len() == was.strips.len(),
            row@ == (RowUiView { strips: row@.strips, ..now }),
            forall|k: int|
                0 <= k < j ==> (#[trigger] row.strips@[k])@ == (StripUiView {
                    soloed: false,
                    muted: false,
                    ..was.strips[k]
                }),
            forall|k: int| j <= k < row.strips@.len() ==> (#[trigger] row.strips@[k])@
                == was.strips[k],
        decreases row.strips@.len() - j,
    {
        assert(row.strips@[j as int]@ == was.strips[j as int]);
        row.strips[j].soloed = false;
        row.strips[j].muted = false;
        j = j + 1;
    }
    assert(row@.strips =~= was.strips.map_values(
        |strip: StripUiView| StripUiView { soloed: false, muted: false, ..strip },
    ));
}

/// Whether saved settings are those of a strip. Banks are not saved.
pub open spec fn is_saved_for(saved: SavedStrip, strip: StripUiView) -> bool {
    strip.channel == saved.channel && strip.program == saved.program && strip.is_percussion
        == saved.is_percussion
}

/// The first of the strips from `from` on that saved settings are for.
pub open spec fn first_saved_from(strips: Seq<StripUiView>, saved: SavedStrip, from: int) -> Option<
    int,
>
    decreases strips.len() - from,
{
    if from >= strips.len() || from < 0 {
        None
    } else if is_saved_for(saved, strips[from]) {
        Some(from)
    } else {
        first_saved_from(strips, saved, from + 1)
    }
}

/// A strip with saved settings.
pub open spec fn with_saved(strip: StripUiView, saved: SavedStrip) -> StripUiView {
    StripUiView { muted: saved.mute, levels: saved.levels, ..strip }
}

/// The rows with the saved settings of one strip put back, where there is a place
/// for them.
pub open spec fn put_back(rows: Seq<RowUiView>, saved: SavedStrip) -> Seq<RowUiView> {
    match first_row(rows, saved.font) {
        None => rows,
        Some(row) => match first_saved_from(rows[row].strips, saved, 0) {
            None => rows,
            Some(strip) => rows.update(
                row,
                RowUiView {
                    strips: rows[row].strips.update(
                        strip,
                        with_saved(rows[row].strips[strip], saved),
                    ),
                    ..rows[row]
                },
            ),
        },
    }
}

/// The rows with the saved settings of strips put back, one after the other.
pub open spec fn put_back_all(rows: Seq<RowUiView>, saved: Seq<SavedStrip>) -> Seq<RowUiView>
    decreases saved.len(),
{
    if saved.len() == 0 {
        rows
    } else {
        put_back(put_back_all(rows, saved.drop_last()), saved.last())
    }
}

/// The rows with the saved settings of a project.
pub open spec fn loaded_rows(
    rows: Seq<RowUiView>,
    mutes: Seq<(Seq<char>, bool)>,
    saved: Seq<SavedStrip>,
) -> Seq<RowUiView> {
    put_back_all(rows.map_values(|row: RowUiView| cleared_row(row, mutes)), saved)
}

fn find_saved(strips: &[MixerStripUiState], saved: &FmidMixerStripRecord) -> (position: Option<
    usize,
>)
    ensures
        (match position {
            Some(i) => Some(i as int),
            None => None,
        }) == first_saved_from(strip_views(strips@), saved@, 0),
        position is Some ==> position->Some_0 < strips@.len(),
{
    let mut i: usize = 0;
    while i < strips.len()
        invariant
            i <= strips@.len(),
            first_saved_from(strip_views(strips@), saved@, 0) == first_saved_from(
                strip_views(strips@),
                saved@,
                i as int,
            ),
        decreases strips@.len() - i,
    {
        assert(strip_views(strips@)[i as int] == strips@[i as int]@);
        if strips[i].channel as u64 == saved.midi_channel && strips[i].program as u64
            == saved.midi_program && strips[i].is_percussion == saved.is_percussion {
            return Some(i);
        }
        i = i + 1;
    }
    None
}

fn put_back_in_row(row: &mut SoundFontUiRow, strip: usize, saved: &FmidMixerStripRecord)
    requires
        strip < old(row).strips@.len(),
    ensures
        final(row)@ == (RowUiView {
            strips: old(row)@.strips.update(
                strip as int,
                with_saved(old(row)@.strips[strip as int], saved@),
            ),
            ..old(row)@
        }),
{
    let ghost before = row@;
    row.strips[strip].levels = saved.levels;
    row.strips[strip].muted = saved.mute;
    assert(row@.strips =~= before.strips.update(
        strip as int,
        with_saved(before.strips[strip as int], saved@),
    ));
}

fn put_back_strip(rows: &mut Vec<SoundFontUiRow>, saved: &FmidMixerStripRecord)
    ensures
        row_views(final(rows)@) == put_back(row_views(old(rows)@), saved@),
{
    let ghost before = row_views(rows@);
    let row: usize = match find_row(rows.as_slice(), saved.soundfont_id.as_str()) {
        Some(row) => row,
        None => {
            return;
        },
    };
    assert(before[row as int] == rows@[row as int]@);
    match find_saved(rows[row].strips.as_slice(), saved) {
        Some(strip) => {
            put_back_in_row(&mut rows[row], strip, saved);
            assert(row_views(rows@) =~= before.update(row as int, rows@[row as int]@));
        },
        None => {},
    }
}

/// Puts the saved settings of a project back on the rows.
pub fn apply_fmid_mixer_settings(rows: &mut Vec<SoundFontUiRow>, file: &FmidFile)
    ensures
        row_views(final(rows)@) == loaded_rows(
            row_views(old(rows)@),
            mute_views(file.row_mutes@),
            saved_views(file.strips@),
        ),
{
    let ghost before = row_views(rows@);
    let ghost mutes = mute_views(file.row_mutes@);
    let ghost saved = saved_views(file.strips@);
    let ghost cleared = before.map_values(|row: RowUiView| cleared_row(row, mutes));
    let mut i: usize = 0;
    while i < rows.len()
        invariant
            i <= rows@.len(),
            rows@.len() == before.len(),
            mutes == mute_views(file.row_mutes@),
            forall|k: int| 0 <= k < i ==> (#[trigger] rows@[k])@ == cleared_row(before[k], mutes),
            forall|k: int| i <= k < rows@.len() ==> (#[trigger] rows@[k])@ == before[k],
        decreases rows@.len() - i,
    {
        assert(rows@[i as int]@ == before[i as int]);
        clear_row(&mut rows[i], file.row_mutes.as_slice());
        i = i + 1;
    }
    assert(row_views(rows@) =~= cleared);
    let mut n: usize = 0;
    assert(saved.take(0) =~= Seq::<SavedStrip>::empty());
    while n < file.strips.len()
        invariant
            n <= file.strips@.len(),
            saved == saved_views(file.strips@),
            row_views(rows@) == put_back_all(cleared, saved.take(n as int)),
        decreases file.strips@.len() - n,
    {
        assert(saved.take(n + 1).drop_last() =~= saved.take(n as int));
        put_back_strip(rows, &file.strips[n]);
        n = n + 1;
    }
    assert(saved.take(n as int) =~= saved);
}

/// Each soundfont has one row, and each channel and program at most one strip of it
/// in the rhythm section and one outside.
pub open spec fn rows_are_distinct(rows: Seq<RowUiView>) -> bool {
    &&& forall|a: int, b: int|
        0 <= a < b < rows.len() ==> (#[trigger] rows[a]).internal_id != (
        #[trigger] rows[b]).internal_id
    &&& forall|i: int, a: int, b: int|
        0 <= i < rows.len() && 0 <= a < b < rows[i].strips.len() ==> !(rows[i].strips[a].channel
            == rows[i].strips[b].channel && rows[i].strips[a].program == rows[i].strips[b].program
            && #[trigger] rows[i].strips[a].is_percussion
            == #[trigger] rows[i].strips[b].is_percussion)
}

/// Whether two lists of rows show the same soundfonts with the same strips.
pub open spec fn same_layout(a: Seq<RowUiView>, b: Seq<RowUiView>) -> bool {
    &&& a.len() == b.len()
    &&& forall|i: int|
        0 <= i < a.len() ==> (#[trigger] a[i]).internal_id == b[i].internal_id
            && a[i].strips.len() == b[i].strips.len()
    &&& forall|i: int, j: int|
        0 <= i < a.len() && 0 <= j < a[i].strips.len() ==> (#[trigger] a[i].strips[j]).channel
            == b[i].strips[j].channel && a[i].strips[j].program == b[i].strips[j].program
            && a[i].strips[j].is_percussion == b[i].strips[j].is_percussion
}

/// The rows with the settings of `saved` put back on the first `n` rows and the first
/// `m` strips of the next.
spec fn partly(rows: Seq<RowUiView>, saved: Seq<RowUiView>, n: int, m: int) -> Seq<RowUiView> {
    Seq::new(
        rows.len(),
        |i: int|
            RowUiView {
                strips: Seq::new(
                    rows[i].strips.len(),
                    |j: int|
                        if i < n || (i == n && j < m) {
                            with_saved(
                                rows[i].strips[j],
                                saved_strip(saved[i].internal_id, saved[i].strips[j]),
                            )
                        } else {
                            rows[i].strips[j]
                        },
                ),
                ..rows[i]
            },
    )
}

proof fn lemma_first_row_found(rows: Seq<RowUiView>, i: int, from: int)
    requires
        0 <= from <= i < rows.len(),
        forall|a: int, b: int|
            0 <= a < b < rows.len() ==> (#[trigger] rows[a]).internal_id != (
            #[trigger] rows[b]).internal_id,
    ensures
        first_row_from(rows, rows[i].internal_id, from) == Some(i),
    decreases i - from,
{
    if from < i {
        assert(rows[from].internal_id != rows[i].internal_id);
        lemma_first_row_found(rows, i, from + 1);
    }
}

proof fn lemma_first_saved_found(strips: Seq<StripUiView>, saved: SavedStrip, j: int, from: int)
    requires
        0 <= from <= j < strips.len(),
        is_saved_for(saved, strips[j]),
        forall|a: int| from <= a < j ==> !is_saved_for(saved, #[trigger] strips[a]),
    ensures
        first_saved_from(strips, saved, from) == Some(j),
    decreases j - from,
{
    if from < j {
        lemma_first_saved_found(strips, saved, j, from + 1);
    }
}

proof fn lemma_put_back_step(rows: Seq<RowUiView>, saved: Seq<RowUiView>, n: int, m: int)
    requires
        rows_are_distinct(saved),
        same_layout(saved, rows),
        0 <= n < rows.len(),
        0 <= m < saved[n].strips.len(),
    ensures
        put_back(
            partly(rows, saved, n, m),
            saved_strip(saved[n].internal_id, saved[n].strips[m]),
        ) == partly(rows, saved, n, m + 1),
{
    let now = partly(rows, saved, n, m);
    let record = saved_strip(saved[n].internal_id, saved[n].strips[m]);
    assert forall|a: int, b: int| 0 <= a < b < now.len() implies (
    #[trigger] now[a]).internal_id != (#[trigger] now[b]).internal_id by {
        assert(saved[a].internal_id != saved[b].internal_id);
        assert(saved[a].internal_id == rows[a].internal_id);
        assert(saved[b].internal_id == rows[b].internal_id);
    }
    assert(saved[n].internal_id == now[n].internal_id);
    lemma_first_row_found(now, n, 0);
    assert(saved[n].strips[m].channel == rows[n].strips[m].channel);
    assert forall|a: int| 0 <= a < m implies !is_saved_for(record, #[trigger] now[n].strips[a]) by {
        assert(saved[n].strips[a].channel == rows[n].strips[a].channel);
        assert(!(saved[n].strips[a].channel == saved[n].strips[m].channel
            && saved[n].strips[a].program == saved[n].strips[m].program
            && saved[n].strips[a].is_percussion == saved[n].strips[m].is_percussion));
    }
    lemma_first_saved_found(now[n].strips, record, m, 0);
    let after = partly(rows, saved, n, m + 1);
    assert(after[n].strips =~= now[n].strips.update(m, with_saved(now[n].strips[m], record)));
    assert(after =~= now.update(
        n,
        RowUiView {
            strips: now[n].strips.update(m, with_saved(now[n].strips[m], record)),
            ..now[n]
        },
    )) by {
        assert forall|i: int| 0 <= i < rows.len() && i != n implies after[i] == now[i] by {
            assert(after[i].strips =~= now[i].strips);
        }
    }
}

proof fn lemma_put_back_row(rows: Seq<RowUiView>, saved: Seq<RowUiView>, n: int, m: int)
    requires
        rows_are_distinct(saved),
        same_layout(saved, rows),
        0 <= n < rows.len(),
        0 <= m <= saved[n].strips.len(),
    ensures
        put_back_all(partly(rows, saved, n, 0), saved_row(saved[n]).take(m)) == partly(
            rows,
            saved,
            n,
            m,
        ),
    decreases m,
{
    if m > 0 {
        lemma_put_back_row(rows, saved, n, m - 1);
        let part = saved_row(saved[n]).take(m);
        assert(part.drop_last() =~= saved_row(saved[n]).take(m - 1));
        lemma_put_back_step(rows, saved, n, m - 1);
    } else {
        assert(saved_row(saved[n]).take(0) =~= Seq::<SavedStrip>::empty());
    }
}

proof fn lemma_put_back_concat(rows: Seq<RowUiView>, a: Seq<SavedStrip>, b: Seq<SavedStrip>)
    ensures
        put_back_all(rows, a + b) == put_back_all(put_back_all(rows, a), b),
    decreases b.len(),
{
    if b.len() > 0 {
        lemma_put_back_concat(rows, a, b.drop_last());
        assert((a + b).drop_last() =~= a + b.drop_last());
    } else {
        assert(a + b =~= a);
    }
}

proof fn lemma_put_back_rows(rows: Seq<RowUiView>, saved: Seq<RowUiView>, n: int)
    requires
        rows_are_distinct(saved),
        same_layout(saved, rows),
        0 <= n <= rows.len(),
    ensures
        put_back_all(rows, saved_strips(saved.take(n))) == partly(rows, saved, n, 0),
    decreases n,
{
    if n > 0 {
        lemma_put_back_rows(rows, saved, n - 1);
        assert(saved.take(n).drop_last() =~= saved.take(n - 1));
        lemma_put_back_concat(rows, saved_strips(saved.take(n - 1)), saved_row(saved[n - 1]));
        let length = saved[n - 1].strips.len() as int;
        lemma_put_back_row(rows, saved, n - 1, length);
        assert(saved_row(saved[n - 1]).take(length) =~= saved_row(saved[n - 1]));
        assert(partly(rows, saved, n - 1, length) =~= partly(rows, saved, n, 0)) by {
            assert forall|i: int| 0 <= i < rows.len() implies partly(
                rows,
                saved,
                n - 1,
                length,
            )[i] == partly(rows, saved, n, 0)[i] by {
                assert(saved[i].strips.len() == rows[i].strips.len());
                assert(partly(rows, saved, n - 1, length)[i].strips =~= partly(
                    rows,
                    saved,
                    n,
                    0,
                )[i].strips);
            }
        }
    } else {
        assert(saved.take(0) =~= Seq::<RowUiView>::empty());
        assert(partly(rows, saved, 0, 0) =~= rows) by {
            assert forall|i: int| 0 <= i < rows.len() implies partly(rows, saved, 0, 0)[i]
                == rows[i] by {
                assert(partly(rows, saved, 0, 0)[i].strips =~= rows[i].strips);
            }
        }
    }
}

proof fn lemma_mute_of(rows: Seq<RowUiView>, i: int, n: int)
    requires
        0 <= i < n <= rows.len(),
        forall|a: int, b: int|
            0 <= a < b < rows.len() ==> (#[trigger] rows[a]).internal_id != (
            #[trigger] rows[b]).internal_id,
    ensures
        mute_of(saved_mutes(rows), rows[i].internal_id, n) == rows[i].muted,
    decreases n,
{
    if n - 1 > i {
        assert(rows[i].internal_id != rows[n - 1].internal_id);
        lemma_mute_of(rows, i, n - 1);
    }
}

/// A mixer that is saved and put back on rows with the same layout is heard as
/// before: every row has its mute and every strip its mute and its levels. Nothing is
/// soloed, as that is not saved.
pub proof fn saved_mixer_is_restored(saved: Seq<RowUiView>, rows: Seq<RowUiView>)
    requires
        rows_are_distinct(saved),
        same_layout(saved, rows),
    ensures
        ({
            let loaded = loaded_rows(rows, saved_mutes(saved), saved_strips(saved));
            &&& same_layout(saved, loaded)
            &&& forall|i: int|
                0 <= i < saved.len() ==> (#[trigger] loaded[i]).muted == saved[i].muted
                    && !loaded[i].soloed
            &&& forall|i: int, j: int|
                0 <= i < saved.len() && 0 <= j < saved[i].strips.len() ==> (
                #[trigger] loaded[i].strips[j]).muted == saved[i].strips[j].muted
                    && loaded[i].strips[j].levels == saved[i].strips[j].levels
                    && !loaded[i].strips[j].soloed
        }),
{
    let mutes = saved_mutes(saved);
    let cleared = rows.map_values(|row: RowUiView| cleared_row(row, mutes));
    assert(same_layout(saved, cleared)) by {
        assert forall|i: int| 0 <= i < saved.len() implies (#[trigger] saved[i]).internal_id
            == cleared[i].internal_id && saved[i].strips.len() == cleared[i].strips.len() by {
            assert(cleared[i] == cleared_row(rows[i], mutes));
        }
        assert forall|i: int, j: int|
            0 <= i < saved.len() && 0 <= j < saved[i].strips.len() implies (
        #[trigger] saved[i].strips[j]).channel == cleared[i].strips[j].channel
            && saved[i].strips[j].program == cleared[i].strips[j].program
            && saved[i].strips[j].is_percussion == cleared[i].strips[j].is_percussion by {
            assert(cleared[i] == cleared_row(rows[i], mutes));
        }
    }
    lemma_put_back_rows(cleared, saved, saved.len() as int);
    assert(saved.take(saved.len() as int) =~= saved);
    let loaded = loaded_rows(rows, mutes, saved_strips(saved));
    assert(loaded == partly(cleared, saved, saved.len() as int, 0));
    assert forall|i: int| 0 <= i < saved.len() implies (#[trigger] loaded[i]).muted
        == saved[i].muted && !loaded[i].soloed by {
        assert(saved[i].internal_id == rows[i].internal_id);
        lemma_mute_of(saved, i, saved.len() as int);
    }
    assert forall|i: int, j: int|
        0 <= i < saved.len() && 0 <= j < saved[i].strips.len() implies (
    #[trigger] loaded[i].strips[j]).muted == saved[i].strips[j].muted && loaded[i].strips[j].levels
        == saved[i].strips[j].levels && !loaded[i].strips[j].soloed by {
        assert(cleared[i] == cleared_row(rows[i], mutes));
        assert(saved[i].strips.len() == cleared[i].strips.len());
    }
    assert(same_layout(saved, loaded)) by {
        assert forall|i: int, j: int|
            0 <= i < saved.len() && 0 <= j < saved[i].strips.len() implies (
        #[trigger] saved[i].strips[j]).channel == loaded[i].strips[j].channel
            && saved[i].strips[j].program == loaded[i].strips[j].program
            && saved[i].strips[j].is_percussion == loaded[i].strips[j].is_percussion by {
            assert(saved[i].strips.len() == cleared[i].strips.len());
            assert(saved[i].strips[j].channel == cleared[i].strips[j].channel);
        }
    }
}

/// Putting saved settings back adds no rows and takes none away.
pub proof fn loading_keeps_the_rows(
    rows: Seq<RowUiView>,
    mutes: Seq<(Seq<char>, bool)>,
    saved: Seq<SavedStrip>,
)
    ensures
        loaded_rows(rows, mutes, saved).len() == rows.len(),
{
    lemma_put_back_keeps_length(
        rows.map_values(|row: RowUiView| cleared_row(row, mutes)),
        saved,
    );
}

proof fn lemma_put_back_keeps_length(rows: Seq<RowUiView>, saved: Seq<SavedStrip>)
    ensures
        put_back_all(rows, saved).len() == rows.len(),
    decreases saved.len(),
{
    if saved.len() > 0 {
        lemma_put_back_keeps_length(rows, saved.drop_last());
        lemma_first_row_in_range(
            put_back_all(rows, saved.drop_last()),
            saved.last().font,
            0,
        );
    }
}

proof fn lemma_first_row_in_range(rows: Seq<RowUiView>, id: Seq<char>, from: int)
    requires
        0 <= from <= rows.len(),
    ensures
        match first_row_from(rows, id, from) {
            Some(i) => 0 <= i < rows.len(),
            None => true,
        },
    decreases rows.len() - from,
{
    if from < rows.len() {
        lemma_first_row_in_range(rows, id, from + 1);
    }
}

/// An audio wrapper: an audio file with its metadata and its loop.
#[derive(Debug)]
pub struct FlutzAudioWrapper {
    pub format_id: String,
    pub original_filename: String,
    pub media_type: String,
    pub source_bytes: Vec<u8>,
    pub metadata: TrackMetadata,
    pub native_metadata: Vec<MetadataField>,
    pub loop_region: Option<MediaLoop>,
}

/// Where the audio of a wrapper comes from when it is saved.
#[derive(Debug)]
pub enum WrapperSource {
    /// The wrapper has it.
    Own,
    /// It was kept when the wrapper was loaded.
    Kept,
    /// It is read from the file that was loaded.
    File(String),
}

/// Where the audio of a wrapper comes from when it is saved. `wrapper` says, of a
/// wrapper that is loaded, whether it has its audio.
pub fn wrapper_source(wrapper: Option<bool>, kept: bool, path: &Option<String>) -> (source: Result<
    WrapperSource,
    FlutzError,
>)
    ensures
        match wrapper {
            None => source is Err && source->Err_0@ == (
                ErrorKind::InvalidInput,
                "load decoded audio before saving"@,
            ),
            Some(true) => source is Ok && source->Ok_0 is Own,
            Some(false) => if kept {
                source is Ok && source->Ok_0 is Kept
            } else {
                match *path {
                    Some(path) => source is Ok && source->Ok_0 is File && source->Ok_0->File_0@
                        == path@,
                    None => source is Err && source->Err_0@ == (
                        ErrorKind::InvalidInput,
                        "decoded source bytes are unavailable for wrapper save"@,
                    ),
                }
            },
        },
{
    match wrapper {
        None => Err(FlutzError::InvalidInput("load decoded audio before saving".to_owned())),
        Some(has_audio) => if has_audio {
            Ok(WrapperSource::Own)
        } else if kept {
            Ok(WrapperSource::Kept)
        } else {
            match path {
                Some(path) => Ok(WrapperSource::File(path.clone())),
                None => Err(
                    FlutzError::InvalidInput(
                        "decoded source bytes are unavailable for wrapper save".to_owned(),
                    ),
                ),
            }
        },
    }
}

/// The error of a source that cannot be read.
pub fn wrapper_read_failure(path: &str, error: &str) -> (failure: FlutzError)
    ensures
        failure@ == (
            ErrorKind::Runtime,
            "failed to read decoded source "@ + path@ + " for wrapper save: "@ + error@,
        ),
{
    let mut text = "failed to read decoded source ".to_owned();
    text.append(path);
    text.append(" for wrapper save: ");
    text.append(error);
    FlutzError::Runtime(text)
}

/// The wrapper to save: with the edited metadata and the loop of the track.
pub fn build_decoded_wrapper_file(
    wrapper: FlutzAudioWrapper,
    source_bytes: Vec<u8>,
    metadata: &MetadataEditState,
    title: &str,
    looping: LoopState,
) -> (saved: FlutzAudioWrapper)
    ensures
        saved.format_id == wrapper.format_id,
        saved.original_filename == wrapper.original_filename,
        saved.media_type == wrapper.media_type,
        saved.source_bytes == source_bytes,
        saved.metadata@ == kept_from(metadata@, title@, wrapper.original_filename@),
        field_views(saved.native_metadata@) == normalized_fields(metadata@.native_metadata),
        saved.loop_region == Some(looping.region()),
{
    let kept = metadata.to_track_metadata(title, wrapper.original_filename.as_str());
    FlutzAudioWrapper {
        format_id: wrapper.format_id,
        original_filename: wrapper.original_filename,
        media_type: wrapper.media_type,
        source_bytes,
        metadata: kept,
        native_metadata: normalized_metadata_fields(metadata.native_metadata.as_slice()),
        loop_region: Some(looping.to_media_loop()),
    }
}

/// The names of an audio file that is no wrapper.
#[derive(Debug)]
pub struct PlainAudioNames {
    pub source_filename: String,
    pub project_name: String,
    pub media_type: String,
}

/// The names of an audio file of the given format, by the last part of its path and
/// its stem.
pub fn plain_audio_names(format_id: &str, file_name: Option<&str>, stem: Option<&str>) -> (names:
    PlainAudioNames)
    ensures
        names.source_filename@ == match file_name {
            Some(name) => name@,
            None => "embedded.audio"@,
        },
        names.project_name@ == match stem {
            Some(stem) => stem@,
            None => names.source_filename@,
        },
        names.media_type@ == "audio/"@ + format_id@,
{
    let source_filename = match file_name {
        Some(name) => name.to_owned(),
        None => "embedded.audio".to_owned(),
    };
    let project_name = match stem {
        Some(stem) => stem.to_owned(),
        None => source_filename.clone(),
    };
    let mut media_type = "audio/".to_owned();
    media_type.append(format_id);
    PlainAudioNames { source_filename, project_name, media_type }
}

/// The wrapper of an audio file that is none: without its audio, and with the metadata
/// that could be read, or only its names.
pub fn plain_audio_wrapper(
    format_id: &str,
    names: PlainAudioNames,
    read: Option<(TrackMetadata, Vec<MetadataField>)>,
) -> (wrapper: FlutzAudioWrapper)
    ensures
        wrapper.format_id@ == format_id@,
        wrapper.original_filename@ == names.source_filename@,
        wrapper.media_type == names.media_type,
        wrapper.source_bytes@.len() == 0,
        wrapper.loop_region is None,
        match read {
            Some((metadata, native)) => wrapper.metadata == metadata && wrapper.native_metadata
                == native,
            None => wrapper.metadata@ == (MetadataView {
                project_name: names.project_name@,
                source_filename: names.source_filename@,
                tags: no_tags(),
                extra_fields: Seq::empty(),
            }) && wrapper.native_metadata@.len() == 0,
        },
{
    let original_filename = names.source_filename.clone();
    let (metadata, native_metadata) = match read {
        Some((metadata, native)) => (metadata, native),
        None => {
            let metadata = TrackMetadata {
                project_name: names.project_name,
                source_filename: names.source_filename,
                tags: TrackTags::default(),
                extra_fields: Vec::new(),
            };
            assert(field_views(metadata.extra_fields@) =~= Seq::<(Seq<char>, Seq<char>)>::empty());
            (metadata, Vec::new())
        },
    };
    FlutzAudioWrapper {
        format_id: format_id.to_owned(),
        original_filename,
        media_type: names.media_type,
        source_bytes: Vec::new(),
        metadata,
        native_metadata,
        loop_region: None,
    }
}

/// The extension that tells the decoder what a wrapper holds: that of the original
/// file, or the first one of the format.
pub fn hint_extension(original: Option<&str>, extensions: &[String]) -> (hint: Option<String>)
    ensures
        crate::json::optional_text(hint) == match original {
            Some(original) => Some(original@),
            None => if extensions@.len() > 0 {
                Some(extensions@[0]@)
            } else {
                None
            },
        },
{
    match original {
        Some(original) => Some(original.to_owned()),
        None => if extensions.len() > 0 {
            Some(extensions[0].clone())
        } else {
            None
        },
    }
}

proof fn lemma_saved_strip(rows: Seq<RowUiView>, i: int, j: int)
    requires
        0 <= i < rows.len(),
        0 <= j < rows[i].strips.len(),
    ensures
        saved_strips(rows).contains(saved_strip(rows[i].internal_id, rows[i].strips[j])),
    decreases rows.len(),
{
    let shorter = rows.drop_last();
    let before = saved_strips(shorter);
    let now = saved_strips(rows);
    let wanted = saved_strip(rows[i].internal_id, rows[i].strips[j]);
    if i < shorter.len() {
        assert(shorter[i] == rows[i]);
        lemma_saved_strip(shorter, i, j);
        let k = choose|k: int| 0 <= k < before.len() && before[k] == wanted;
        assert(now[k] == wanted);
    } else {
        assert(saved_row(rows[i])[j] == wanted);
        assert(now[before.len() + j] == wanted);
    }
}

/// A project file holds the MIDI file, the soundfonts that are loaded, the controls of the
/// mix, the mute of each row, and each strip with its place, its mute and its levels; its
/// loop has a mode only while it is on, and its ends and its count in any case.
pub proof fn project_files_hold_the_project(
    file: FmidFile,
    bytes: Seq<u8>,
    parts: ProjectParts,
    i: int,
    j: int,
)
    requires
        saves(file, bytes, parts),
        0 <= i < parts.rows@.len(),
        0 <= j < parts.rows@[i].strips@.len(),
    ensures
        file.midi_bytes@ == bytes,
        parts.loaded_ids@.len() > 0 ==> texts(file.soundfonts@) == texts(parts.loaded_ids@),
        parts.loaded_ids@.len() == 0 ==> file.soundfonts@.len() == parts.rows@.len()
            && file.soundfonts@[i]@ == parts.rows@[i].internal_id@,
        file.master == parts.master,
        file.smart_mix == parts.smart_mix,
        file.row_mutes@.len() == parts.rows@.len(),
        file.row_mutes@[i].soundfont_id@ == parts.rows@[i].internal_id@,
        file.row_mutes@[i].muted == parts.rows@[i].muted,
        exists|k: int|
            0 <= k < file.strips@.len() && (#[trigger] file.strips@[k]).soundfont_id@
                == parts.rows@[i].internal_id@ && file.strips@[k].midi_channel
                == parts.rows@[i].strips@[j].channel && file.strips@[k].midi_program
                == parts.rows@[i].strips@[j].program && file.strips@[k].is_percussion
                == parts.rows@[i].strips@[j].is_percussion && file.strips@[k].mute
                == parts.rows@[i].strips@[j].muted && file.strips@[k].levels
                == parts.rows@[i].strips@[j].levels,
        file.looping.enabled == parts.looping.enabled,
        file.looping.start_tick == parts.looping.start_tick,
        file.looping.end_tick == parts.looping.end_tick,
        file.looping.loop_count == parts.looping.count,
        parts.looping.enabled ==> file.looping.mode == parts.looping.mode,
        file.project.tags@ == parts.metadata.tags@,
{
    let views = row_views(parts.rows@);
    assert(views[i] == parts.rows@[i]@);
    assert(views[i].strips[j] == parts.rows@[i].strips@[j]@);
    lemma_saved_strip(views, i, j);
    let wanted = saved_strip(views[i].internal_id, views[i].strips[j]);
    let k = choose|k: int|
        0 <= k < saved_views(file.strips@).len() && saved_views(file.strips@)[k] == wanted;
    assert(file.strips@[k]@ == wanted);
    assert(mute_views(file.row_mutes@).len() == file.row_mutes@.len());
    assert(saved_mutes(views).len() == views.len());
    assert(views.len() == parts.rows@.len());
    assert(mute_views(file.row_mutes@)[i] == (
        file.row_mutes@[i].soundfont_id@,
        file.row_mutes@[i].muted,
    ));
    assert(saved_mutes(views)[i] == (views[i].internal_id, views[i].muted));
    if parts.loaded_ids@.len() == 0 {
        assert(texts(file.soundfonts@).len() == file.soundfonts@.len());
        assert(row_ids(views).len() == views.len());
        assert(texts(file.soundfonts@)[i] == file.soundfonts@[i]@);
        assert(row_ids(views)[i] == views[i].internal_id);
    }
}

} // verus!
