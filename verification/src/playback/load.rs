//! Loading a MIDI file: which soundfont sets are tried, what is reported when
//! none can be loaded, and the summary of a load.
use crate::catalog::{catalog_ids, SoundFontCatalogEntry};
use crate::error::{ErrorKind, FlutzError};
use crate::playback::demand::{is_profile_of, MidiDemandProfile};
use crate::playback::midi_scan::MidiFileLoopType;
use crate::playback::strips::MidiStripDescriptor;
use crate::playback::trace::{scan_of, MidiInterpretation, PlaybackMidiScanDiagnostics};
use crate::text::{clone_texts, contains_text, decimal, decimal_text, join, joined, push_decimal};
use crate::text::{text_eq, texts};
use vstd::prelude::*;
use vstd::string::*;

verus! {

/// The texts of a list of string lists.
pub open spec fn text_lists(lists: Seq<Vec<String>>) -> Seq<Seq<Seq<char>>> {
    lists.map_values(|list: Vec<String>| texts(list@))
}

/// The catalog soundfonts that are not among `ids`, each as a set of its own.
pub open spec fn single_attempts(
    catalog: Seq<Seq<char>>,
    ids: Seq<Seq<char>>,
) -> Seq<Seq<Seq<char>>>
    decreases catalog.len(),
{
    if catalog.len() == 0 {
        Seq::empty()
    } else {
        let before = single_attempts(catalog.drop_last(), ids);
        if ids.contains(catalog.last()) {
            before
        } else {
            before.push(seq![catalog.last()])
        }
    }
}

/// The soundfont sets that are tried: the resolved one and, where the request
/// names none, every other soundfont of the catalog by itself.
pub open spec fn attempts_of(
    catalog: Seq<Seq<char>>,
    requested: Seq<Seq<char>>,
    ids: Seq<Seq<char>>,
) -> Seq<Seq<Seq<char>>> {
    if requested.len() == 0 {
        seq![ids] + single_attempts(catalog, ids)
    } else {
        seq![ids]
    }
}

/// The line for a soundfont set that could not be loaded.
pub open spec fn failure_line(ids: Seq<Seq<char>>, error: Seq<char>) -> Seq<char> {
    joined(ids, ","@) + " => "@ + error
}

/// The message when no soundfont set could be loaded.
pub open spec fn failure_message(errors: Seq<Seq<char>>) -> Seq<char> {
    "failed to initialize playback soundfont set: "@ + if errors.len() == 0 {
        "no candidate soundfonts could be loaded"@
    } else {
        joined(errors, "; "@)
    }
}

/// The search for a soundfont set that can be loaded.
#[derive(Debug)]
pub struct MidiLoadAttempts {
    pub attempts: Vec<Vec<String>>,
    pub next: usize,
    pub errors: Vec<String>,
}

impl MidiLoadAttempts {
    /// The position is inside the attempts.
    pub open spec fn wf(&self) -> bool {
        self.next <= self.attempts@.len()
    }

    /// Starts with the resolved soundfont set.
    pub fn start(
        catalog: &[SoundFontCatalogEntry],
        requested: &[String],
        soundfont_ids: &[String],
    ) -> (search: MidiLoadAttempts)
        ensures
            search.wf(),
            search.next == 0,
            text_lists(search.attempts@) == attempts_of(
                catalog_ids(catalog@),
                texts(requested@),
                texts(soundfont_ids@),
            ),
            search.errors@.len() == 0,
    {
        let ghost ids = texts(soundfont_ids@);
        let ghost all = catalog_ids(catalog@);
        let mut attempts: Vec<Vec<String>> = Vec::new();
        attempts.push(clone_texts(soundfont_ids));
        assert(text_lists(attempts@) =~= seq![ids]);
        if requested.len() == 0 {
            let mut i: usize = 0;
            assert(all.take(0) =~= Seq::<Seq<char>>::empty());
            assert(text_lists(attempts@) =~= seq![ids] + single_attempts(all.take(0), ids));
            while i < catalog.len()
                invariant
                    i <= catalog.len(),
                    ids == texts(soundfont_ids@),
                    all == catalog_ids(catalog@),
                    text_lists(attempts@) == seq![ids] + single_attempts(all.take(i as int), ids),
                decreases catalog.len() - i,
            {
                assert(all.take(i + 1).drop_last() =~= all.take(i as int));
                assert(all.take(i + 1).last() == catalog@[i as int].internal_id@);
                if !contains_text(soundfont_ids, catalog[i].internal_id.as_str()) {
                    let mut single: Vec<String> = Vec::new();
                    single.push(catalog[i].internal_id.clone());
                    assert(texts(single@) =~= seq![catalog@[i as int].internal_id@]);
                    let ghost before = attempts@;
                    attempts.push(single);
                    assert(text_lists(attempts@) =~= text_lists(before).push(texts(single@)));
                }
                i = i + 1;
                assert(text_lists(attempts@) =~= seq![ids] + single_attempts(
                    all.take(i as int),
                    ids,
                ));
            }
            assert(all.take(i as int) =~= all);
        }
        MidiLoadAttempts { attempts, next: 0, errors: Vec::new() }
    }

    /// The soundfont set to try now, if there is one left.
    pub fn current(&self) -> (ids: Option<&Vec<String>>)
        requires
            self.wf(),
        ensures
            match ids {
                Some(ids) => self.next < self.attempts@.len() && *ids
                    == self.attempts@[self.next as int],
                None => self.next == self.attempts@.len(),
            },
    {
        if self.next < self.attempts.len() {
            Some(&self.attempts[self.next])
        } else {
            None
        }
    }

    /// Notes that the current soundfont set could not be loaded.
    pub fn fail(&mut self, error: &str)
        requires
            old(self).wf(),
            old(self).next < old(self).attempts@.len(),
        ensures
            final(self).wf(),
            final(self).attempts == old(self).attempts,
            final(self).next == old(self).next + 1,
            texts(final(self).errors@) == texts(old(self).errors@).push(
                failure_line(texts(old(self).attempts@[old(self).next as int]@), error@),
            ),
    {
        let mut line = join(&self.attempts[self.next], ",");
        line.append(" => ");
        line.append(error);
        let ghost before = self.errors@;
        self.errors.push(line);
        assert(texts(self.errors@) =~= texts(before).push(line@));
        assert(self.next < self.attempts.len());
        self.next = self.next + 1;
    }

    /// The error when no soundfont set is left.
    pub fn failure(&self) -> (error: FlutzError)
        ensures
            error@ == (ErrorKind::InvalidInput, failure_message(texts(self.errors@))),
    {
        let mut message = "failed to initialize playback soundfont set: ".to_owned();
        if self.errors.len() == 0 {
            message.append("no candidate soundfonts could be loaded");
        } else {
            message.append(join(&self.errors, "; ").as_str());
        }
        FlutzError::InvalidInput(message)
    }
}

/// The note on a load that fell back to another soundfont set.
pub open spec fn fallback_note_of(
    ids: Seq<Seq<char>>,
    resolved: Seq<Seq<char>>,
) -> Option<Seq<char>> {
    if resolved == ids {
        None
    } else {
        Some(
            "Fallback soundfont selection: requested ["@ + joined(ids, ", "@) + "], loaded ["@
                + joined(resolved, ", "@) + "]"@,
        )
    }
}

/// Whether two lists hold the same texts in the same order.
pub fn same_texts(left: &[String], right: &[String]) -> (same: bool)
    ensures
        same == (texts(left@) == texts(right@)),
{
    if left.len() != right.len() {
        assert(texts(left@).len() != texts(right@).len());
        return false;
    }
    let mut i: usize = 0;
    while i < left.len()
        invariant
            left@.len() == right@.len(),
            i <= left.len(),
            forall|k: int| 0 <= k < i ==> (#[trigger] left@[k])@ == right@[k]@,
        decreases left.len() - i,
    {
        if !text_eq(left[i].as_str(), right[i].as_str()) {
            assert(texts(left@)[i as int] != texts(right@)[i as int]);
            return false;
        }
        i = i + 1;
    }
    assert(texts(left@) =~= texts(right@));
    true
}

pub fn fallback_note(soundfont_ids: &[String], resolved: &[String]) -> (note: Option<String>)
    ensures
        crate::json::optional_text(note) == fallback_note_of(
            texts(soundfont_ids@),
            texts(resolved@),
        ),
{
    if same_texts(resolved, soundfont_ids) {
        return None;
    }
    let mut note = "Fallback soundfont selection: requested [".to_owned();
    note.append(join(soundfont_ids, ", ").as_str());
    note.append("], loaded [");
    note.append(join(resolved, ", ").as_str());
    note.append("]");
    Some(note)
}

/// Whether the loaded engine can play another MIDI file as it is: it has the
/// soundfonts that are wanted, and what is loaded of them covers the demand.
pub fn can_reuse_loaded_engine(
    loaded: &[String],
    soundfont_ids: &[String],
    engine_loaded: bool,
    subsets_satisfied: bool,
) -> (reuse: bool)
    ensures
        reuse == (texts(loaded@) == texts(soundfont_ids@) && engine_loaded && subsets_satisfied),
{
    same_texts(loaded, soundfont_ids) && engine_loaded && subsets_satisfied
}

/// The decimal texts of numbers, joined.
pub open spec fn joined_numbers(numbers: Seq<u64>, separator: Seq<char>) -> Seq<char> {
    joined(numbers.map_values(|n: u64| decimal(n as nat)), separator)
}

pub fn join_numbers(numbers: &[u64], separator: &str) -> (text: String)
    ensures
        text@ == joined_numbers(numbers@, separator@),
{
    let mut parts: Vec<String> = Vec::new();
    let mut i: usize = 0;
    let ghost all = numbers@.map_values(|n: u64| decimal(n as nat));
    while i < numbers.len()
        invariant
            i <= numbers.len(),
            all == numbers@.map_values(|n: u64| decimal(n as nat)),
            texts(parts@) == all.take(i as int),
        decreases numbers.len() - i,
    {
        let ghost before = parts@;
        parts.push(decimal_text(numbers[i] as u128));
        i = i + 1;
        assert(texts(parts@) =~= texts(before).push(all[i - 1]));
        assert(texts(parts@) =~= all.take(i as int));
    }
    assert(all.take(i as int) =~= all);
    join(&parts, separator)
}

/// What the summary of a load reports. The duration is the number of seconds
/// with two decimals.
pub struct MidiLoadFacts {
    pub byte_len: usize,
    pub instance_count: usize,
    pub duration_seconds: String,
    pub tick_length: u64,
    pub jump_points: Vec<u64>,
    pub loop_type: MidiFileLoopType,
    pub sysex_event_count: usize,
    pub recognized_sysex_event_count: usize,
    pub percussion_channels: Vec<u64>,
    pub fallback_note: Option<String>,
}

/// The summary of a load: one line on the file, and one each on jump points, a
/// detected loop style, SysEx events and a fallback where there are any.
pub open spec fn load_summary(facts: MidiLoadFacts) -> Seq<char> {
    let head = "Loaded "@ + decimal(facts.byte_len as nat) + " byte MIDI with "@ + decimal(
        facts.instance_count as nat,
    ) + " RustySynth instance(s), "@ + facts.duration_seconds@ + "s, "@ + decimal(
        facts.tick_length as nat,
    ) + " ticks"@;
    let jumps = if facts.jump_points@.len() == 0 {
        head
    } else {
        head + "\nJump points (tick): "@ + joined_numbers(facts.jump_points@, ", "@)
    };
    let loops = if facts.loop_type.is_plain() {
        jumps
    } else {
        jumps + "\nAuto-detected loop style: "@ + facts.loop_type.label()
    };
    let sysex = if facts.sysex_event_count == 0 {
        loops
    } else {
        loops + "\nMIDI SysEx: "@ + decimal(facts.sysex_event_count as nat) + " event(s), "@
            + decimal(facts.recognized_sysex_event_count as nat)
            + " recognized, percussion channels ["@ + joined_numbers(
            facts.percussion_channels@,
            ", "@,
        ) + "]"@
    };
    match facts.fallback_note {
        Some(note) => sysex + "\n"@ + note@,
        None => sysex,
    }
}

pub fn midi_load_summary(facts: &MidiLoadFacts) -> (summary: String)
    ensures
        summary@ == load_summary(*facts),
{
    let mut summary = "Loaded ".to_owned();
    push_decimal(&mut summary, facts.byte_len as u128);
    summary.append(" byte MIDI with ");
    push_decimal(&mut summary, facts.instance_count as u128);
    summary.append(" RustySynth instance(s), ");
    summary.append(facts.duration_seconds.as_str());
    summary.append("s, ");
    push_decimal(&mut summary, facts.tick_length as u128);
    summary.append(" ticks");
    if facts.jump_points.len() > 0 {
        summary.append("\nJump points (tick): ");
        summary.append(join_numbers(&facts.jump_points, ", ").as_str());
    }
    if !facts.loop_type.is_plain_loop_point() {
        summary.append("\nAuto-detected loop style: ");
        summary.append(crate::playback::midi_scan::loop_type_label(facts.loop_type));
    }
    if facts.sysex_event_count > 0 {
        summary.append("\nMIDI SysEx: ");
        push_decimal(&mut summary, facts.sysex_event_count as u128);
        summary.append(" event(s), ");
        push_decimal(&mut summary, facts.recognized_sysex_event_count as u128);
        summary.append(" recognized, percussion channels [");
        summary.append(join_numbers(&facts.percussion_channels, ", ").as_str());
        summary.append("]");
    }
    match &facts.fallback_note {
        Some(note) => {
            summary.append("\n");
            summary.append(note.as_str());
        },
        None => {},
    }
    summary
}

/// What a scan of a MIDI file found.
#[derive(Debug)]
pub struct MidiFileScan {
    pub detected_loop_type: MidiFileLoopType,
    pub channel_roles: Vec<MidiStripDescriptor>,
    pub demand_profile: MidiDemandProfile,
    pub diagnostics: PlaybackMidiScanDiagnostics,
}

/// The scan of a MIDI file with the given loop style, once its roles and its system
/// exclusive messages were read.
pub fn midi_file_scan(
    loop_type: MidiFileLoopType,
    channel_roles: Vec<MidiStripDescriptor>,
    interpretation: &MidiInterpretation,
) -> (scan: MidiFileScan)
    ensures
        scan.detected_loop_type == loop_type,
        scan.channel_roles == channel_roles,
        is_profile_of(scan.demand_profile, channel_roles@),
        scan.diagnostics@ == scan_of(loop_type, *interpretation),
{
    let roles = channel_roles.clone();
    assert(roles@ =~= channel_roles@);
    MidiFileScan {
        detected_loop_type: loop_type,
        channel_roles,
        demand_profile: MidiDemandProfile::from_channel_roles(roles),
        diagnostics: PlaybackMidiScanDiagnostics::from_parts(loop_type, interpretation),
    }
}

/// The error of a MIDI file whose roles cannot be read.
pub fn midi_roles_failure(error: &str) -> (failure: FlutzError)
    ensures
        failure@ == (ErrorKind::InvalidInput, "failed to parse MIDI roles: "@ + error@),
{
    let mut message = "failed to parse MIDI roles: ".to_owned();
    message.append(error);
    FlutzError::InvalidInput(message)
}

/// The error of a MIDI file that cannot be read.
pub fn midi_read_failure(path: &str, error: &str) -> (failure: FlutzError)
    ensures
        failure@ == (ErrorKind::Runtime, "failed to read MIDI file "@ + path@ + ": "@ + error@),
{
    let mut message = "failed to read MIDI file ".to_owned();
    message.append(path);
    message.append(": ");
    message.append(error);
    FlutzError::Runtime(message)
}

/// Soundfonts that were asked for are never replaced by others: they are tried once,
/// and nothing else is.
pub proof fn named_soundfonts_are_not_replaced(
    catalog: Seq<Seq<char>>,
    requested: Seq<Seq<char>>,
    ids: Seq<Seq<char>>,
)
    requires
        requested.len() > 0,
    ensures
        attempts_of(catalog, requested, ids) == seq![ids],
{
}

/// Where no soundfonts were asked for, every soundfont of the catalog is tried in some
/// attempt, and the resolved set first.
pub proof fn every_soundfont_is_tried(
    catalog: Seq<Seq<char>>,
    ids: Seq<Seq<char>>,
    id: Seq<char>,
)
    requires
        catalog.contains(id),
    ensures
        attempts_of(catalog, Seq::empty(), ids)[0] == ids,
        exists|k: int|
            0 <= k < attempts_of(catalog, Seq::empty(), ids).len() && (
            #[trigger] attempts_of(catalog, Seq::empty(), ids)[k]).contains(id),
{
    let attempts = attempts_of(catalog, Seq::empty(), ids);
    if ids.contains(id) {
        assert(attempts[0].contains(id));
    } else {
        lemma_single_attempt(catalog, ids, id);
        let singles = single_attempts(catalog, ids);
        let k = choose|k: int| 0 <= k < singles.len() && (#[trigger] singles[k]).contains(id);
        assert(attempts[k + 1] == singles[k]);
    }
}

proof fn lemma_single_attempt(catalog: Seq<Seq<char>>, ids: Seq<Seq<char>>, id: Seq<char>)
    requires
        catalog.contains(id),
        !ids.contains(id),
    ensures
        exists|k: int|
            0 <= k < single_attempts(catalog, ids).len() && (
            #[trigger] single_attempts(catalog, ids)[k]).contains(id),
    decreases catalog.len(),
{
    let shorter = catalog.drop_last();
    let singles = single_attempts(catalog, ids);
    if catalog.last() == id {
        let last = singles[singles.len() - 1];
        assert(last[0] == id);
        assert(last.contains(id));
    } else {
        let at = choose|at: int| 0 <= at < catalog.len() && catalog[at] == id;
        assert(shorter[at] == id);
        lemma_single_attempt(shorter, ids, id);
        let before = single_attempts(shorter, ids);
        let k = choose|k: int| 0 <= k < before.len() && (#[trigger] before[k]).contains(id);
        assert(singles[k] == before[k]);
    }
}

/// Beyond the resolved set, only soundfonts of the catalog that are not in it are tried,
/// each alone and in the order of the catalog.
pub proof fn further_attempts_are_single_soundfonts(
    catalog: Seq<Seq<char>>,
    ids: Seq<Seq<char>>,
    k: int,
)
    requires
        0 < k < attempts_of(catalog, Seq::empty(), ids).len(),
    ensures
        ({
            let attempt = attempts_of(catalog, Seq::empty(), ids)[k];
            &&& attempt.len() == 1
            &&& catalog.contains(attempt[0])
            &&& !ids.contains(attempt[0])
        }),
{
    lemma_singles(catalog, ids, k - 1);
    assert(attempts_of(catalog, Seq::empty(), ids)[k] == single_attempts(catalog, ids)[k - 1]);
}

proof fn lemma_singles(catalog: Seq<Seq<char>>, ids: Seq<Seq<char>>, k: int)
    requires
        0 <= k < single_attempts(catalog, ids).len(),
    ensures
        ({
            let attempt = single_attempts(catalog, ids)[k];
            &&& attempt.len() == 1
            &&& catalog.contains(attempt[0])
            &&& !ids.contains(attempt[0])
        }),
    decreases catalog.len(),
{
    if catalog.len() > 0 {
        let before = single_attempts(catalog.drop_last(), ids);
        if k < before.len() {
            lemma_singles(catalog.drop_last(), ids, k);
            let id = before[k][0];
            let i = choose|i: int| 0 <= i < catalog.len() - 1 && catalog.drop_last()[i] == id;
            assert(catalog[i] == id);
        } else {
            assert(catalog[catalog.len() - 1] == catalog.last());
        }
    }
}

/// A note on the soundfonts is made exactly where others were loaded than were resolved.
pub proof fn other_soundfonts_are_noted(ids: Seq<Seq<char>>, resolved: Seq<Seq<char>>)
    ensures
        fallback_note_of(ids, resolved) is None <==> resolved == ids,
{
}

} // verus!
