//! What playback reports and what project files keep, shown on the rows of the
//! mixer, and the controls that the rows give to playback.
use crate::desktop::rows::{row_views, strip_views, MixerStripUiState, RowUiView, SoundFontUiRow};
use crate::desktop::rows::StripUiView;
use crate::level::{unit_clamped, Level};
use crate::playback::routing::{RealtimeStripSnapshot, StripVisual};
use crate::playback::snapshot::RealtimeMixerSnapshot;
use crate::playback::strips::{slot_fits, stem_number, strip_id_for, MixerStripControls};
use crate::sorted::{ascending_u64, insert_sorted_u64, lemma_ascending_unique_u64};
use crate::text::{decimal, decimal_text, push_signed_decimal, signed_decimal, text_eq};
use std::collections::BTreeMap;
use vstd::prelude::*;
use vstd::std_specs::iter::IteratorSpec;
use vstd::string::*;

verus! {

/// The name of a note within its octave.
pub open spec fn pitch_name(pitch: int) -> Seq<char> {
    if pitch == 0 {
        "C"@
    } else if pitch == 1 {
        "C#"@
    } else if pitch == 2 {
        "D"@
    } else if pitch == 3 {
        "D#"@
    } else if pitch == 4 {
        "E"@
    } else if pitch == 5 {
        "F"@
    } else if pitch == 6 {
        "F#"@
    } else if pitch == 7 {
        "G"@
    } else if pitch == 8 {
        "G#"@
    } else if pitch == 9 {
        "A"@
    } else if pitch == 10 {
        "A#"@
    } else {
        "B"@
    }
}

/// The name of a MIDI note with its octave; note 60 is C4.
pub open spec fn note_text(note: u8) -> Seq<char> {
    pitch_name(note as int % 12) + signed_decimal(note as int / 12 - 1)
}

pub fn note_name(note: u8) -> (name: String)
    ensures
        name@ == note_text(note),
{
    let pitch: u8 = note % 12;
    let mut name = if pitch == 0 {
        "C".to_owned()
    } else if pitch == 1 {
        "C#".to_owned()
    } else if pitch == 2 {
        "D".to_owned()
    } else if pitch == 3 {
        "D#".to_owned()
    } else if pitch == 4 {
        "E".to_owned()
    } else if pitch == 5 {
        "F".to_owned()
    } else if pitch == 6 {
        "F#".to_owned()
    } else if pitch == 7 {
        "G".to_owned()
    } else if pitch == 8 {
        "G#".to_owned()
    } else if pitch == 9 {
        "A".to_owned()
    } else if pitch == 10 {
        "A#".to_owned()
    } else {
        "B".to_owned()
    };
    let octave: i64 = (note / 12) as i64 - 1;
    push_signed_decimal(&mut name, octave);
    name
}

/// The first of the rows from `from` on with an id.
pub open spec fn first_row_from(rows: Seq<RowUiView>, id: Seq<char>, from: int) -> Option<int>
    decreases rows.len() - from,
{
    if from >= rows.len() || from < 0 {
        None
    } else if rows[from].internal_id == id {
        Some(from)
    } else {
        first_row_from(rows, id, from + 1)
    }
}

/// The first row with an id.
pub open spec fn first_row(rows: Seq<RowUiView>, id: Seq<char>) -> Option<int> {
    first_row_from(rows, id, 0)
}

pub(crate) fn find_row(rows: &[SoundFontUiRow], id: &str) -> (position: Option<usize>)
    ensures
        (match position {
            Some(i) => Some(i as int),
            None => None,
        }) == first_row(row_views(rows@), id@),
        position is Some ==> position->Some_0 < rows@.len(),
{
    let mut i: usize = 0;
    while i < rows.len()
        invariant
            i <= rows@.len(),
            first_row(row_views(rows@), id@) == first_row_from(row_views(rows@), id@, i as int),
        decreases rows@.len() - i,
    {
        assert(row_views(rows@)[i as int] == rows@[i as int]@);
        if text_eq(rows[i].internal_id.as_str(), id) {
            return Some(i);
        }
        i = i + 1;
    }
    None
}

/// The first of the strips from `from` on with a number.
pub open spec fn first_strip_from(strips: Seq<StripUiView>, id: u64, from: int) -> Option<int>
    decreases strips.len() - from,
{
    if from >= strips.len() || from < 0 {
        None
    } else if strips[from].strip_id == id {
        Some(from)
    } else {
        first_strip_from(strips, id, from + 1)
    }
}

fn find_strip_number(strips: &[MixerStripUiState], id: u64) -> (position: Option<usize>)
    ensures
        (match position {
            Some(i) => Some(i as int),
            None => None,
        }) == first_strip_from(strip_views(strips@), id, 0),
        position is Some ==> position->Some_0 < strips@.len(),
{
    let mut i: usize = 0;
    while i < strips.len()
        invariant
            i <= strips@.len(),
            first_strip_from(strip_views(strips@), id, 0) == first_strip_from(
                strip_views(strips@),
                id,
                i as int,
            ),
        decreases strips@.len() - i,
    {
        assert(strip_views(strips@)[i as int] == strips@[i as int]@);
        if strips[i].strip_id == id {
            return Some(i);
        }
        i = i + 1;
    }
    None
}

/// A strip that playback reported on but that no row shows.
#[derive(Debug)]
pub struct RealtimeStripKey {
    pub soundfont_id: String,
    pub channel: u8,
    pub bank: u16,
    pub program: u8,
    pub is_percussion: bool,
}

/// The contents of a key.
pub ghost struct StripKeyView {
    pub font: Seq<char>,
    pub channel: u8,
    pub bank: u16,
    pub program: u8,
    pub is_percussion: bool,
}

impl View for RealtimeStripKey {
    type V = StripKeyView;

    open spec fn view(&self) -> StripKeyView {
        StripKeyView {
            font: self.soundfont_id@,
            channel: self.channel,
            bank: self.bank,
            program: self.program,
            is_percussion: self.is_percussion,
        }
    }
}

/// The contents of keys.
pub open spec fn key_views(keys: Seq<RealtimeStripKey>) -> Seq<StripKeyView> {
    keys.map_values(|key: RealtimeStripKey| key@)
}

/// The key of a reported strip.
pub open spec fn key_of(visual: StripVisual) -> StripKeyView {
    StripKeyView {
        font: visual.font,
        channel: visual.channel,
        bank: visual.bank,
        program: visual.program,
        is_percussion: visual.is_percussion,
    }
}

impl RealtimeStripKey {
    pub fn from_snapshot(snapshot: &RealtimeStripSnapshot) -> (key: RealtimeStripKey)
        ensures
            key@ == key_of(snapshot@),
    {
        RealtimeStripKey {
            soundfont_id: snapshot.soundfont_id.clone(),
            channel: snapshot.midi_channel,
            bank: snapshot.midi_bank,
            program: snapshot.midi_program,
            is_percussion: snapshot.is_percussion,
        }
    }
}

/// The note that a strip shows: the last of those that sound.
pub open spec fn shown_note(notes: Seq<u8>) -> Seq<char> {
    if notes.len() > 0 {
        note_text(notes.last())
    } else {
        "--"@
    }
}

/// A strip with what playback reports of it.
pub open spec fn strip_showing(strip: StripUiView, visual: StripVisual) -> StripUiView {
    StripUiView {
        meter: unit_clamped(visual.meter.peak),
        active: visual.audible || visual.active_notes.len() > 0,
        program_name: match visual.display_name {
            Some(name) => name,
            None => strip.program_name,
        },
        current_note: shown_note(visual.active_notes),
        ..strip
    }
}

/// The number of the strip that a report is on, in a row.
pub open spec fn reported_number(row: int, visual: StripVisual) -> u64 {
    stem_number(
        row,
        Some(visual.channel),
        Some(visual.bank),
        Some(visual.program),
        visual.is_percussion,
    ) as u64
}

/// Where a report belongs.
pub ghost enum ReportPlace {
    /// Its soundfont has no row.
    NoRow,
    /// Its row has no such strip.
    NoStrip { row: int },
    /// A strip of a row.
    Strip { row: int, strip: int },
}

pub open spec fn place_of(rows: Seq<RowUiView>, visual: StripVisual) -> ReportPlace {
    match first_row(rows, visual.font) {
        None => ReportPlace::NoRow,
        Some(row) => match first_strip_from(rows[row].strips, reported_number(row, visual), 0) {
            None => ReportPlace::NoStrip { row },
            Some(strip) => ReportPlace::Strip { row, strip },
        },
    }
}

/// What is shown so far, what was told of strips without a place, and what is to be
/// told now.
pub ghost struct Feedback {
    pub rows: Seq<RowUiView>,
    pub logged: Seq<StripKeyView>,
    pub reports: Seq<(StripKeyView, u64)>,
}

impl Feedback {
    /// The feedback with one more report. A strip without a place is told of once,
    /// unless it carries the effects of all channels.
    pub open spec fn with(self, visual: StripVisual) -> Feedback {
        match place_of(self.rows, visual) {
            ReportPlace::NoRow => self,
            ReportPlace::NoStrip { row } => if visual.display_name == Some("Global effects"@)
                || self.logged.contains(key_of(visual)) {
                self
            } else {
                Feedback {
                    rows: self.rows,
                    logged: self.logged.push(key_of(visual)),
                    reports: self.reports.push((key_of(visual), reported_number(row, visual))),
                }
            },
            ReportPlace::Strip { row, strip } => Feedback {
                rows: self.rows.update(
                    row,
                    RowUiView {
                        strips: self.rows[row].strips.update(
                            strip,
                            strip_showing(self.rows[row].strips[strip], visual),
                        ),
                        ..self.rows[row]
                    },
                ),
                ..self
            },
        }
    }

    /// The feedback with some more reports.
    pub open spec fn with_all(self, visuals: Seq<StripVisual>) -> Feedback
        decreases visuals.len(),
    {
        if visuals.len() == 0 {
            self
        } else {
            self.with_all(visuals.drop_last()).with(visuals.last())
        }
    }
}

/// The contents of reports.
pub open spec fn report_views(reports: Seq<(RealtimeStripKey, u64)>) -> Seq<(StripKeyView, u64)> {
    reports.map_values(|report: (RealtimeStripKey, u64)| (report.0@, report.1))
}

fn is_logged(logged: &Vec<RealtimeStripKey>, key: &RealtimeStripKey) -> (found: bool)
    ensures
        found == key_views(logged@).contains(key@),
{
    let mut i: usize = 0;
    while i < logged.len()
        invariant
            i <= logged@.len(),
            forall|k: int| 0 <= k < i ==> key_views(logged@)[k] != key@,
        decreases logged@.len() - i,
    {
        assert(key_views(logged@)[i as int] == logged@[i as int]@);
        let other = &logged[i];
        if text_eq(other.soundfont_id.as_str(), key.soundfont_id.as_str()) && other.channel
            == key.channel && other.bank == key.bank && other.program == key.program
            && other.is_percussion == key.is_percussion {
            assert(logged@[i as int]@ == key@);
            return true;
        }
        i = i + 1;
    }
    false
}

fn show_on_strip(strip: &mut MixerStripUiState, visual: &RealtimeStripSnapshot)
    ensures
        final(strip)@ == strip_showing(old(strip)@, visual@),
{
    strip.meter = visual.meter.peak.clamped_to_unit();
    strip.active = visual.audible || visual.active_notes.len() > 0;
    match &visual.display_name {
        Some(name) => {
            strip.program_name = name.clone();
        },
        None => {},
    }
    strip.current_note = if visual.active_notes.len() > 0 {
        note_name(visual.active_notes[visual.active_notes.len() - 1])
    } else {
        "--".to_owned()
    };
}

fn show_on_row(row: &mut SoundFontUiRow, strip: usize, visual: &RealtimeStripSnapshot)
    requires
        strip < old(row).strips@.len(),
    ensures
        final(row)@ == (RowUiView {
            strips: old(row)@.strips.update(
                strip as int,
                strip_showing(old(row)@.strips[strip as int], visual@),
            ),
            ..old(row)@
        }),
{
    let ghost before = row@;
    show_on_strip(&mut row.strips[strip], visual);
    assert(row@.strips =~= before.strips.update(
        strip as int,
        strip_showing(before.strips[strip as int], visual@),
    ));
}

fn tell_of_strip(
    logged: &mut Vec<RealtimeStripKey>,
    reports: &mut Vec<(RealtimeStripKey, u64)>,
    visual: &RealtimeStripSnapshot,
    id: u64,
)
    ensures
        ({
            let known = visual@.display_name == Some("Global effects"@) || key_views(
                old(logged)@,
            ).contains(key_of(visual@));
            &&& key_views(final(logged)@) == if known {
                key_views(old(logged)@)
            } else {
                key_views(old(logged)@).push(key_of(visual@))
            }
            &&& report_views(final(reports)@) == if known {
                report_views(old(reports)@)
            } else {
                report_views(old(reports)@).push((key_of(visual@), id))
            }
        }),
{
    let ghost logged_before = key_views(logged@);
    let ghost reports_before = report_views(reports@);
    let is_global = match &visual.display_name {
        Some(name) => text_eq(name.as_str(), "Global effects"),
        None => false,
    };
    if is_global {
        return;
    }
    let key = RealtimeStripKey::from_snapshot(visual);
    if !is_logged(logged, &key) {
        let copy = RealtimeStripKey::from_snapshot(visual);
        logged.push(key);
        reports.push((copy, id));
        assert(key_views(logged@) =~= logged_before.push(key@));
        assert(report_views(reports@) =~= reports_before.push((copy@, id)));
    }
}

/// Shows one report on the rows.
pub fn show_report(
    rows: &mut Vec<SoundFontUiRow>,
    logged: &mut Vec<RealtimeStripKey>,
    reports: &mut Vec<(RealtimeStripKey, u64)>,
    visual: &RealtimeStripSnapshot,
)
    requires
        slot_fits(old(rows)@.len() as int),
    ensures
        final(rows)@.len() == old(rows)@.len(),
        (Feedback {
            rows: row_views(final(rows)@),
            logged: key_views(final(logged)@),
            reports: report_views(final(reports)@),
        }) == (Feedback {
            rows: row_views(old(rows)@),
            logged: key_views(old(logged)@),
            reports: report_views(old(reports)@),
        }).with(visual@),
{
    let ghost before = row_views(rows@);
    let row: usize = match find_row(rows.as_slice(), visual.soundfont_id.as_str()) {
        Some(row) => row,
        None => {
            return;
        },
    };
    assert(before[row as int] == rows@[row as int]@);
    let id: u64 = strip_id_for(
        row,
        visual.midi_channel,
        visual.midi_bank,
        visual.midi_program,
        visual.is_percussion,
    );
    match find_strip_number(rows[row].strips.as_slice(), id) {
        Some(strip) => {
            show_on_row(&mut rows[row], strip, visual);
            assert(row_views(rows@) =~= before.update(row as int, rows@[row as int]@));
        },
        None => {
            tell_of_strip(logged, reports, visual, id);
        },
    }
}

/// The numbers of the strips of a map, in order.
pub open spec fn is_key_order<V>(keys: Seq<u64>, map: Map<u64, V>) -> bool {
    &&& ascending_u64(keys)
    &&& forall|k: u64| #[trigger] keys.contains(k) == map.contains_key(k)
}

/// The numbers of the strips of a map, in order.
pub open spec fn key_order<V>(map: Map<u64, V>) -> Seq<u64> {
    choose|keys: Seq<u64>| is_key_order(keys, map)
}

fn keys_in_order(map: &BTreeMap<u64, RealtimeStripSnapshot>) -> (keys: Vec<u64>)
    ensures
        is_key_order(keys@, map@),
        keys@ == key_order(map@),
{
    broadcast use vstd::std_specs::btree::group_btree_axioms;

    let mut keys: Vec<u64> = Vec::new();
    let ghost mut n: int = 0;
    let iter = map.keys();
    let ghost all = iter.remaining().unref();
    for key in it: iter
        invariant
            it.seq().unref() == all,
            it.seq().len() == all.len(),
            all.to_set() == map@.dom(),
            n == it.index(),
            0 <= n <= all.len(),
            ascending_u64(keys@),
            forall|k: u64| #[trigger] keys@.contains(k) == all.take(n).contains(k),
    {
        let ghost before = keys@;
        assert(all[n] == *key);
        insert_sorted_u64(&mut keys, *key);
        assert forall|k: u64| #[trigger] keys@.contains(k) == all.take(n + 1).contains(k) by {
            if all.take(n).contains(k) {
                let i = choose|i: int| 0 <= i < n && all.take(n)[i] == k;
                assert(all.take(n + 1)[i] == k);
            }
            assert(all.take(n + 1)[n] == *key);
            if all.take(n + 1).contains(k) && k != *key {
                let i = choose|i: int| 0 <= i < n + 1 && #[trigger] all.take(n + 1)[i] == k;
                assert(all.take(n)[i] == k);
            }
        }
        proof {
            n = n + 1;
        }
    }
    proof {
        assert(all.take(n) =~= all);
        assert forall|k: u64| #[trigger] keys@.contains(k) == map@.contains_key(k) by {
            assert(all.to_set().contains(k) == all.contains(k));
        }
        assert(is_key_order(keys@, map@));
        lemma_ascending_unique_u64(keys@, key_order(map@));
    }
    keys
}

/// The reports of a snapshot, in the order of the strips' numbers.
pub open spec fn visuals_in_order(strips: Map<u64, RealtimeStripSnapshot>) -> Seq<StripVisual> {
    key_order(strips).map_values(|id: u64| strips[id]@)
}

/// Shows a snapshot of the mixer on the rows, and returns what is to be told of
/// strips that no row shows.
pub fn apply_realtime_snapshot(
    rows: &mut Vec<SoundFontUiRow>,
    logged: &mut Vec<RealtimeStripKey>,
    snapshot: &RealtimeMixerSnapshot,
) -> (reports: Vec<(RealtimeStripKey, u64)>)
    requires
        slot_fits(old(rows)@.len() as int),
    ensures
        final(rows)@.len() == old(rows)@.len(),
        (Feedback {
            rows: row_views(final(rows)@),
            logged: key_views(final(logged)@),
            reports: report_views(reports@),
        }) == (Feedback {
            rows: row_views(old(rows)@),
            logged: key_views(old(logged)@),
            reports: Seq::empty(),
        }).with_all(visuals_in_order(snapshot.strips@)),
{
    broadcast use vstd::std_specs::btree::group_btree_axioms;

    let ghost visuals = visuals_in_order(snapshot.strips@);
    let ghost start = Feedback {
        rows: row_views(rows@),
        logged: key_views(logged@),
        reports: Seq::empty(),
    };
    let keys = keys_in_order(&snapshot.strips);
    let mut reports: Vec<(RealtimeStripKey, u64)> = Vec::new();
    let mut i: usize = 0;
    proof {
        assert(report_views(reports@) =~= Seq::<(StripKeyView, u64)>::empty());
        assert(visuals.take(0) =~= Seq::<StripVisual>::empty());
    }
    while i < keys.len()
        invariant
            i <= keys@.len(),
            slot_fits(rows@.len() as int),
            rows@.len() == old(rows)@.len(),
            is_key_order(keys@, snapshot.strips@),
            keys@ == key_order(snapshot.strips@),
            visuals == visuals_in_order(snapshot.strips@),
            (Feedback {
                rows: row_views(rows@),
                logged: key_views(logged@),
                reports: report_views(reports@),
            }) == start.with_all(visuals.take(i as int)),
        decreases keys@.len() - i,
    {
        let key: u64 = keys[i];
        proof {
            assert(keys@.contains(key));
            assert(visuals.take(i + 1).drop_last() =~= visuals.take(i as int));
            assert(visuals.take(i + 1).last() == snapshot.strips@[key]@);
        }
        match snapshot.strips.get(&key) {
            Some(visual) => {
                show_report(rows, logged, &mut reports, visual);
            },
            None => {},
        }
        i = i + 1;
    }
    assert(visuals.take(i as int) =~= visuals);
    reports
}

/// What is told of a strip that no row shows.
pub open spec fn unmatched_details(key: StripKeyView, strip_id: u64) -> Seq<(Seq<char>, Seq<char>)> {
    seq![
        ("soundfont"@, key.font),
        ("channel"@, decimal(key.channel as nat)),
        ("bank"@, decimal(key.bank as nat)),
        ("program"@, decimal(key.program as nat)),
        ("is_percussion"@, crate::json::truth(key.is_percussion)),
        ("expected_strip_id"@, decimal(strip_id as nat)),
    ]
}

fn truth_text(value: bool) -> (text: String)
    ensures
        text@ == crate::json::truth(value),
{
    if value {
        "true".to_owned()
    } else {
        "false".to_owned()
    }
}

pub fn unmatched_strip_details(key: &RealtimeStripKey, strip_id: u64) -> (details: Vec<
    (String, String),
>)
    ensures
        crate::perf_trace::detail_views(details@) == unmatched_details(key@, strip_id),
{
    let mut details: Vec<(String, String)> = Vec::new();
    details.push(("soundfont".to_owned(), key.soundfont_id.clone()));
    details.push(("channel".to_owned(), decimal_text(key.channel as u128)));
    details.push(("bank".to_owned(), decimal_text(key.bank as u128)));
    details.push(("program".to_owned(), decimal_text(key.program as u128)));
    details.push(("is_percussion".to_owned(), truth_text(key.is_percussion)));
    details.push(("expected_strip_id".to_owned(), decimal_text(strip_id as u128)));
    assert(crate::perf_trace::detail_views(details@) =~= unmatched_details(key@, strip_id));
    details
}

/// A strip before reports come in: inactive, with a meter that has fallen.
pub open spec fn faded_strip(strip: StripUiView, meter: Level) -> StripUiView {
    StripUiView { meter, active: false, current_note: "--"@, ..strip }
}

/// Lets a strip fade before reports come in. `meter` is what is left of its meter.
pub fn fade_strip(strip: &mut MixerStripUiState, meter: Level)
    ensures
        final(strip)@ == faded_strip(old(strip)@, meter),
{
    strip.meter = meter;
    strip.active = false;
    strip.current_note = "--".to_owned();
}

/// The rows before reports come in.
pub open spec fn faded_rows(rows: Seq<RowUiView>, meters: Seq<Vec<Level>>) -> Seq<RowUiView> {
    Seq::new(
        rows.len(),
        |i: int|
            RowUiView {
                strips: Seq::new(
                    rows[i].strips.len(),
                    |j: int| faded_strip(rows[i].strips[j], meters[i]@[j]),
                ),
                ..rows[i]
            },
    )
}

fn fade_row(row: &mut SoundFontUiRow, meters: &[Level])
    requires
        meters@.len() == old(row).strips@.len(),
    ensures
        final(row)@ == (RowUiView {
            strips: Seq::new(
                old(row)@.strips.len(),
                |j: int| faded_strip(old(row)@.strips[j], meters@[j]),
            ),
            ..old(row)@
        }),
{
    let ghost before = row@;
    let ghost want = Seq::new(
        before.strips.len(),
        |j: int| faded_strip(before.strips[j], meters@[j]),
    );
    let mut j: usize = 0;
    while j < row.strips.len()
        invariant
            j <= row.strips@.len(),
            row.strips@.len() == before.strips.len(),
            meters@.len() == before.strips.len(),
            want == Seq::new(
                before.strips.len(),
                |j: int| faded_strip(before.strips[j], meters@[j]),
            ),
            row@ == (RowUiView { strips: row@.strips, ..before }),
            forall|k: int| 0 <= k < j ==> (#[trigger] row.strips@[k])@ == want[k],
            forall|k: int| j <= k < row.strips@.len() ==> (#[trigger] row.strips@[k])@
                == before.strips[k],
        decreases row.strips@.len() - j,
    {
        let meter = meters[j];
        fade_strip(&mut row.strips[j], meter);
        j = j + 1;
    }
    assert(row@.strips =~= want);
}

/// Lets the strips of all rows fade before reports come in. `meters` holds what is left
/// of the meter of each.
pub fn fade_rows(rows: &mut Vec<SoundFontUiRow>, meters: &[Vec<Level>])
    requires
        meters@.len() == old(rows)@.len(),
        forall|i: int|
            0 <= i < old(rows)@.len() ==> (#[trigger] old(rows)@[i]).strips@.len()
                == meters@[i]@.len(),
    ensures
        row_views(final(rows)@) == faded_rows(row_views(old(rows)@), meters@),
        final(rows)@.len() == old(rows)@.len(),
{
    let ghost before = row_views(rows@);
    let ghost old_rows = rows@;
    let ghost want = faded_rows(before, meters@);
    let mut i: usize = 0;
    while i < rows.len()
        invariant
            i <= rows@.len(),
            rows@.len() == old_rows.len(),
            meters@.len() == old_rows.len(),
            before == row_views(old_rows),
            want == faded_rows(before, meters@),
            forall|k: int|
                0 <= k < old_rows.len() ==> (#[trigger] old_rows[k]).strips@.len()
                    == meters@[k]@.len(),
            forall|k: int| 0 <= k < i ==> (#[trigger] rows@[k])@ == want[k],
            forall|k: int| i <= k < rows@.len() ==> #[trigger] rows@[k] == old_rows[k],
        decreases rows@.len() - i,
    {
        assert(before[i as int] == old_rows[i as int]@);
        assert(old_rows[i as int].strips@.len() == meters@[i as int]@.len());
        fade_row(&mut rows[i], meters[i].as_slice());
        i = i + 1;
    }
    assert(row_views(rows@) =~= want);
}

/// The controls that a strip of a row gives to playback.
pub open spec fn controls_of(row: RowUiView, strip: StripUiView) -> MixerStripControls {
    MixerStripControls {
        mute: row.muted || strip.muted,
        solo: row.soloed || strip.soloed,
        levels: strip.levels,
    }
}

/// The controls with those of the first `n` strips of a row.
pub open spec fn with_row_controls(
    controls: Map<u64, MixerStripControls>,
    row: RowUiView,
    n: int,
) -> Map<u64, MixerStripControls>
    decreases n,
{
    if n <= 0 {
        controls
    } else {
        with_row_controls(controls, row, n - 1).insert(
            row.strips[n - 1].strip_id,
            controls_of(row, row.strips[n - 1]),
        )
    }
}

/// The controls of the first `n` rows.
pub open spec fn rows_controls(rows: Seq<RowUiView>, n: int) -> Map<u64, MixerStripControls>
    decreases n,
{
    if n <= 0 {
        Map::empty()
    } else {
        with_row_controls(rows_controls(rows, n - 1), rows[n - 1], rows[n - 1].strips.len() as int)
    }
}

/// The controls that the rows give to playback, by strip number.
pub fn strip_controls_of_rows(rows: &[SoundFontUiRow]) -> (controls: BTreeMap<
    u64,
    MixerStripControls,
>)
    ensures
        controls@ == rows_controls(row_views(rows@), rows@.len() as int),
{
    broadcast use vstd::std_specs::btree::group_btree_axioms;

    let ghost views = row_views(rows@);
    let mut controls: BTreeMap<u64, MixerStripControls> = BTreeMap::new();
    let mut i: usize = 0;
    while i < rows.len()
        invariant
            i <= rows@.len(),
            views == row_views(rows@),
            controls@ == rows_controls(views, i as int),
        decreases rows@.len() - i,
    {
        let row = &rows[i];
        let ghost before = controls@;
        assert(views[i as int] == row@);
        let mut j: usize = 0;
        while j < row.strips.len()
            invariant
                j <= row.strips@.len(),
                controls@ == with_row_controls(before, row@, j as int),
            decreases row.strips@.len() - j,
        {
            let strip = &row.strips[j];
            assert(row@.strips[j as int] == strip@);
            controls.insert(
                strip.strip_id,
                MixerStripControls {
                    mute: row.muted || strip.muted,
                    solo: row.soloed || strip.soloed,
                    levels: strip.levels,
                },
            );
            j = j + 1;
        }
        i = i + 1;
    }
    controls
}

/// Playback knows a strip number exactly if some strip has it, and only as one of
/// the strips that have it.
pub proof fn playback_gets_the_strips_controls(rows: Seq<RowUiView>, id: u64)
    ensures
        rows_controls(rows, rows.len() as int).contains_key(id) == (exists|i: int, j: int|
            0 <= i < rows.len() && 0 <= j < rows[i].strips.len()
                && (#[trigger] rows[i].strips[j]).strip_id == id),
        rows_controls(rows, rows.len() as int).contains_key(id) ==> exists|i: int, j: int|
            0 <= i < rows.len() && 0 <= j < rows[i].strips.len()
                && (#[trigger] rows[i].strips[j]).strip_id == id && rows_controls(
                rows,
                rows.len() as int,
            )[id] == controls_of(rows[i], rows[i].strips[j]),
{
    lemma_rows_controls(rows, rows.len() as int, id);
}

proof fn lemma_row_controls(
    controls: Map<u64, MixerStripControls>,
    row: RowUiView,
    n: int,
    id: u64,
)
    requires
        0 <= n <= row.strips.len(),
    ensures
        ({
            let after = with_row_controls(controls, row, n);
            let mine = exists|j: int| 0 <= j < n && (#[trigger] row.strips[j]).strip_id == id;
            &&& after.contains_key(id) == (controls.contains_key(id) || mine)
            &&& mine ==> exists|j: int|
                0 <= j < n && (#[trigger] row.strips[j]).strip_id == id && after[id] == controls_of(
                    row,
                    row.strips[j],
                )
            &&& !mine && controls.contains_key(id) ==> after[id] == controls[id]
        }),
    decreases n,
{
    if n > 0 {
        lemma_row_controls(controls, row, n - 1, id);
        assert(row.strips[n - 1].strip_id == id || row.strips[n - 1].strip_id != id);
    }
}

proof fn lemma_rows_controls(rows: Seq<RowUiView>, n: int, id: u64)
    requires
        0 <= n <= rows.len(),
    ensures
        rows_controls(rows, n).contains_key(id) == (exists|i: int, j: int|
            0 <= i < n && 0 <= j < rows[i].strips.len()
                && (#[trigger] rows[i].strips[j]).strip_id == id),
        rows_controls(rows, n).contains_key(id) ==> exists|i: int, j: int|
            0 <= i < n && 0 <= j < rows[i].strips.len()
                && (#[trigger] rows[i].strips[j]).strip_id == id && rows_controls(rows, n)[id]
                == controls_of(rows[i], rows[i].strips[j]),
    decreases n,
{
    if n > 0 {
        lemma_rows_controls(rows, n - 1, id);
        let row = rows[n - 1];
        lemma_row_controls(rows_controls(rows, n - 1), row, row.strips.len() as int, id);
        if exists|j: int| 0 <= j < row.strips.len() && (#[trigger] row.strips[j]).strip_id == id {
            let j = choose|j: int|
                0 <= j < row.strips.len() && (#[trigger] row.strips[j]).strip_id == id
                    && rows_controls(rows, n)[id] == controls_of(row, row.strips[j]);
            assert(rows[n - 1].strips[j].strip_id == id);
        } else if rows_controls(rows, n - 1).contains_key(id) {
            let (i, j) = choose|i: int, j: int|
                0 <= i < n - 1 && 0 <= j < rows[i].strips.len()
                    && (#[trigger] rows[i].strips[j]).strip_id == id && rows_controls(rows, n - 1)[id]
                    == controls_of(rows[i], rows[i].strips[j]);
            assert(rows[i].strips[j].strip_id == id);
        }
        if exists|i: int, j: int|
            0 <= i < n && 0 <= j < rows[i].strips.len()
                && (#[trigger] rows[i].strips[j]).strip_id == id {
            let (i, j) = choose|i: int, j: int|
                0 <= i < n && 0 <= j < rows[i].strips.len()
                    && (#[trigger] rows[i].strips[j]).strip_id == id;
            if i == n - 1 {
                assert(row.strips[j].strip_id == id);
            }
        }
    }
}

/// A soloed row solos, and a muted row mutes, every strip that it gives to
/// playback.
pub proof fn row_switches_apply_to_its_strips(row: RowUiView, strip: StripUiView)
    ensures
        row.muted ==> controls_of(row, strip).mute,
        row.soloed ==> controls_of(row, strip).solo,
        !row.muted ==> controls_of(row, strip).mute == strip.muted,
        !row.soloed ==> controls_of(row, strip).solo == strip.soloed,
{
}

/// Notes are named by their pitch and octave: the white keys from C to B, each black key
/// after the white key below it, and an octave higher every twelve notes. The lowest note
/// is in octave -1.
pub proof fn notes_are_named_by_pitch_and_octave(note: u8)
    requires
        note < 128,
    ensures
        ({
            let octave = signed_decimal(note as int / 12 - 1);
            let key = note as int % 12;
            &&& key == 0 ==> note_text(note) == "C"@ + octave
            &&& key == 2 ==> note_text(note) == "D"@ + octave
            &&& key == 4 ==> note_text(note) == "E"@ + octave
            &&& key == 5 ==> note_text(note) == "F"@ + octave
            &&& key == 7 ==> note_text(note) == "G"@ + octave
            &&& key == 9 ==> note_text(note) == "A"@ + octave
            &&& key == 11 ==> note_text(note) == "B"@ + octave
            &&& key == 1 || key == 3 || key == 6 || key == 8 || key == 10 ==> note_text(note)
                == pitch_name(key - 1) + "#"@ + octave
        }),
{
    reveal_strlit("C");
    reveal_strlit("D");
    reveal_strlit("F");
    reveal_strlit("G");
    reveal_strlit("A");
    reveal_strlit("C#");
    reveal_strlit("D#");
    reveal_strlit("F#");
    reveal_strlit("G#");
    reveal_strlit("A#");
    reveal_strlit("#");
    assert("C"@ + "#"@ =~= "C#"@);
    assert("D"@ + "#"@ =~= "D#"@);
    assert("F"@ + "#"@ =~= "F#"@);
    assert("G"@ + "#"@ =~= "G#"@);
    assert("A"@ + "#"@ =~= "A#"@);
}

proof fn lemma_first_row_from(rows: Seq<RowUiView>, id: Seq<char>, from: int, r: int)
    requires
        0 <= from <= r < rows.len(),
        rows[r].internal_id == id,
        forall|k: int| from <= k < r ==> (#[trigger] rows[k]).internal_id != id,
    ensures
        first_row_from(rows, id, from) == Some(r),
    decreases r - from,
{
    if from < r {
        lemma_first_row_from(rows, id, from + 1, r);
    }
}

proof fn lemma_first_strip_from(strips: Seq<StripUiView>, id: u64, from: int, s: int)
    requires
        0 <= from <= s < strips.len(),
        strips[s].strip_id == id,
        forall|k: int| from <= k < s ==> (#[trigger] strips[k]).strip_id != id,
    ensures
        first_strip_from(strips, id, from) == Some(s),
    decreases s - from,
{
    if from < s {
        lemma_first_strip_from(strips, id, from + 1, s);
    }
}

/// A report on a strip is shown on that strip of its soundfont's row, and nowhere else: its
/// level, the last of its notes, its name if it has one, and whether it is active, which is
/// while it is heard or has a note that sounds.
pub proof fn reports_are_shown_on_their_strip(
    before: Feedback,
    visual: StripVisual,
    r: int,
    s: int,
)
    requires
        slot_fits(before.rows.len() as int),
        0 <= r < before.rows.len(),
        0 <= s < before.rows[r].strips.len(),
        before.rows[r].internal_id == visual.font,
        forall|k: int| 0 <= k < r ==> (#[trigger] before.rows[k]).internal_id != visual.font,
        before.rows[r].strips[s].strip_id == (r + 1) * 100_000 + (if visual.is_percussion {
            50_000int
        } else {
            0
        }) + visual.channel * 16_384 + visual.bank * 128 + visual.program + 1,
        forall|k: int|
            0 <= k < s ==> (#[trigger] before.rows[r].strips[k]).strip_id
                != before.rows[r].strips[s].strip_id,
    ensures
        ({
            let after = before.with(visual);
            let strip = after.rows[r].strips[s];
            let was = before.rows[r].strips[s];
            &&& after.logged == before.logged
            &&& after.reports == before.reports
            &&& after.rows.len() == before.rows.len()
            &&& after.rows[r].strips.len() == before.rows[r].strips.len()
            &&& strip.meter == unit_clamped(visual.meter.peak)
            &&& strip.active == (visual.audible || visual.active_notes.len() > 0)
            &&& visual.active_notes.len() > 0 ==> strip.current_note == note_text(
                visual.active_notes[visual.active_notes.len() - 1],
            )
            &&& visual.active_notes.len() == 0 ==> strip.current_note == "--"@
            &&& visual.display_name is Some ==> Some(strip.program_name) == visual.display_name
            &&& visual.display_name is None ==> strip.program_name == was.program_name
            &&& strip.muted == was.muted && strip.soloed == was.soloed && strip.levels
                == was.levels && strip.strip_id == was.strip_id
            &&& forall|i: int|
                0 <= i < before.rows.len() && i != r ==> #[trigger] after.rows[i]
                    == before.rows[i]
            &&& forall|k: int|
                0 <= k < before.rows[r].strips.len() && k != s ==> #[trigger] after.rows[r].strips[k]
                    == before.rows[r].strips[k]
        }),
{
    lemma_first_row_from(before.rows, visual.font, 0, r);
    lemma_first_strip_from(
        before.rows[r].strips,
        before.rows[r].strips[s].strip_id,
        0,
        s,
    );
}

/// A report on a strip that its row does not have changes no row. It is told of once,
/// unless it is the one of the effects that all channels share.
pub proof fn reports_without_a_strip_are_told_of_once(before: Feedback, visual: StripVisual)
    requires
        place_of(before.rows, visual) is NoStrip,
    ensures
        before.with(visual).rows == before.rows,
        visual.display_name == Some("Global effects"@) ==> before.with(visual) == before,
        visual.display_name != Some("Global effects"@) && !before.logged.contains(
            key_of(visual),
        ) ==> before.with(visual).reports.len() == before.reports.len() + 1,
        before.with(visual).with(visual) == before.with(visual),
{
    let after = before.with(visual);
    if visual.display_name != Some("Global effects"@) && !before.logged.contains(key_of(visual)) {
        assert(after.logged[after.logged.len() - 1] == key_of(visual));
    }
}

/// Before reports come in a strip is at rest, with what is left of its meter, and keeps
/// what the user has set.
pub proof fn fading_keeps_what_is_set(rows: Seq<RowUiView>, meters: Seq<Vec<Level>>, i: int, j: int)
    requires
        0 <= i < rows.len(),
        0 <= j < rows[i].strips.len(),
    ensures
        ({
            let after = faded_rows(rows, meters);
            let strip = after[i].strips[j];
            let was = rows[i].strips[j];
            &&& after.len() == rows.len()
            &&& after[i].strips.len() == rows[i].strips.len()
            &&& after[i].internal_id == rows[i].internal_id
            &&& after[i].muted == rows[i].muted && after[i].soloed == rows[i].soloed
            &&& strip.meter == meters[i]@[j]
            &&& !strip.active
            &&& strip.current_note == "--"@
            &&& strip.muted == was.muted && strip.soloed == was.soloed && strip.levels
                == was.levels && strip.strip_id == was.strip_id && strip.program_name
                == was.program_name
        }),
{
}

/// What the user set on a strip reaches playback under the strip's number: its levels as
/// they are, muted if the strip or its row is, and soloed if the strip or its row is.
/// (No two strips have the same number.)
pub proof fn settings_reach_playback(rows: Seq<RowUiView>, r: int, s: int)
    requires
        0 <= r < rows.len(),
        0 <= s < rows[r].strips.len(),
        forall|a: int, i: int, b: int, j: int|
            0 <= a < rows.len() && 0 <= i < rows[a].strips.len() && 0 <= b < rows.len() && 0 <= j
                < rows[b].strips.len() && (#[trigger] rows[a].strips[i]).strip_id == (
            #[trigger] rows[b].strips[j]).strip_id ==> a == b && i == j,
    ensures
        ({
            let controls = rows_controls(rows, rows.len() as int);
            let id = rows[r].strips[s].strip_id;
            &&& controls.contains_key(id)
            &&& controls[id].mute == (rows[r].muted || rows[r].strips[s].muted)
            &&& controls[id].solo == (rows[r].soloed || rows[r].strips[s].soloed)
            &&& controls[id].levels == rows[r].strips[s].levels
        }),
{
    let id = rows[r].strips[s].strip_id;
    playback_gets_the_strips_controls(rows, id);
    let controls = rows_controls(rows, rows.len() as int);
    assert(rows[r].strips[s].strip_id == id);
    let (i, j) = choose|i: int, j: int|
        0 <= i < rows.len() && 0 <= j < rows[i].strips.len()
            && (#[trigger] rows[i].strips[j]).strip_id == id && controls[id] == controls_of(
            rows[i],
            rows[i].strips[j],
        );
    assert(i == r && j == s);
}

/// Reports are taken in one after the other; none of them changes how many rows there are,
/// and what was told of once stays told.
pub proof fn reports_are_taken_in_order(feedback: Feedback, visuals: Seq<StripVisual>, next: StripVisual)
    ensures
        feedback.with_all(Seq::empty()) == feedback,
        feedback.with_all(visuals.push(next)) == feedback.with_all(visuals).with(next),
        feedback.with_all(visuals).rows.len() == feedback.rows.len(),
        feedback.with_all(visuals).logged.len() >= feedback.logged.len(),
        feedback.with_all(visuals).reports.len() - feedback.reports.len() == feedback.with_all(
            visuals,
        ).logged.len() - feedback.logged.len(),
    decreases visuals.len(),
{
    assert(visuals.push(next).drop_last() =~= visuals);
    if visuals.len() > 0 {
        reports_are_taken_in_order(feedback, visuals.drop_last(), next);
        lemma_row_is_there(feedback.with_all(visuals.drop_last()).rows, visuals.last().font, 0);
    }
}

proof fn lemma_row_is_there(rows: Seq<RowUiView>, id: Seq<char>, from: int)
    requires
        0 <= from,
    ensures
        match first_row_from(rows, id, from) {
            Some(r) => from <= r < rows.len(),
            None => true,
        },
    decreases rows.len() - from,
{
    if from < rows.len() && rows[from].internal_id != id {
        lemma_row_is_there(rows, id, from + 1);
    }
}

} // verus!
