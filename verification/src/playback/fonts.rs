//! Loading soundfonts from DAT files: which entries are read and in which order,
//! how their contents are put together, and what is counted on the way.
use crate::catalog::{find_last_entry, last_entry, SoundFontCatalogEntry};
use crate::error::{ErrorKind, FlutzError};
use crate::numbers::{u64_cap, usize_cap};
use crate::playback::subset::{compare_subset_transition, decode_smpl_i16, loaded_of, loaded_views};
use crate::playback::subset::{sample_at, transition_of, LoadedSubsetState, LoadedView, PlanView};
use crate::playback::subset::{PlaybackSubsetTransitionDiagnostics, SoundFontSubsetPlanDebug};
use crate::sorted::{is_stable_order, stable_order};
use crate::text::{contains_text, text_eq, texts};
use crate::text_map::TextMap;
use vstd::prelude::*;
use vstd::string::*;

verus! {

/// One entry of a DAT file.
#[derive(Debug)]
pub struct DatEntryKey {
    pub asset_type: String,
    pub internal_id: String,
}

/// An entry to read: the how-manieth it is of all, its soundfont, the file that
/// holds it and its number there.
#[derive(Debug)]
pub struct SoundFontDatReadTask {
    pub order: usize,
    pub soundfont_id: String,
    pub dat_path: String,
    pub entry: usize,
}

/// The contents of a task.
pub ghost struct TaskView {
    pub order: usize,
    pub soundfont_id: Seq<char>,
    pub dat_path: Seq<char>,
    pub entry: usize,
}

impl View for SoundFontDatReadTask {
    type V = TaskView;

    open spec fn view(&self) -> TaskView {
        TaskView {
            order: self.order,
            soundfont_id: self.soundfont_id@,
            dat_path: self.dat_path@,
            entry: self.entry,
        }
    }
}

/// The contents of tasks.
pub open spec fn task_views(tasks: Seq<SoundFontDatReadTask>) -> Seq<TaskView> {
    tasks.map_values(|task: SoundFontDatReadTask| task@)
}

/// Whether an entry is one of the wanted soundfonts.
pub open spec fn is_wanted(entry: DatEntryKey, wanted: Seq<Seq<char>>) -> bool {
    entry.asset_type@ == "soundfont"@ && wanted.contains(entry.internal_id@)
}

/// The tasks with those for the wanted entries of one more file, numbered on.
pub open spec fn with_file(
    tasks: Seq<TaskView>,
    path: Seq<char>,
    entries: Seq<DatEntryKey>,
    wanted: Seq<Seq<char>>,
) -> Seq<TaskView>
    decreases entries.len(),
{
    if entries.len() == 0 {
        tasks
    } else {
        let before = with_file(tasks, path, entries.drop_last(), wanted);
        if is_wanted(entries.last(), wanted) {
            before.push(
                TaskView {
                    order: before.len() as usize,
                    soundfont_id: entries.last().internal_id@,
                    dat_path: path,
                    entry: (entries.len() - 1) as usize,
                },
            )
        } else {
            before
        }
    }
}

/// What a DAT file says of a soundfont besides the soundfont itself, each part known
/// by a handle.
#[derive(Debug, Copy, Clone, PartialEq, Eq, Structural)]
pub struct SoundFontJsonResources {
    pub metadata: Option<usize>,
    pub coverage: Option<usize>,
    pub index: Option<usize>,
    pub pack_report: Option<usize>,
}

/// What one value or the other says, the first where both do.
pub open spec fn first_of(first: Option<usize>, second: Option<usize>) -> Option<usize> {
    match first {
        Some(_) => first,
        None => second,
    }
}

fn first_present(first: Option<usize>, second: Option<usize>) -> (value: Option<usize>)
    ensures
        value == first_of(first, second),
{
    match first {
        Some(found) => Some(found),
        None => second,
    }
}

impl SoundFontJsonResources {
    /// Whether anything is there.
    pub open spec fn is_present(&self) -> bool {
        self.metadata is Some || self.coverage is Some || self.index is Some
            || self.pack_report is Some
    }

    /// Whether all that playback needs is there.
    pub open spec fn is_complete(&self) -> bool {
        self.coverage is Some && self.index is Some
    }

    /// The resources, completed by those of a later file.
    pub open spec fn merged(self, incoming: SoundFontJsonResources) -> SoundFontJsonResources {
        SoundFontJsonResources {
            metadata: first_of(self.metadata, incoming.metadata),
            coverage: first_of(self.coverage, incoming.coverage),
            index: first_of(self.index, incoming.index),
            pack_report: first_of(self.pack_report, incoming.pack_report),
        }
    }
}

pub fn soundfont_json_resources_present(resources: &SoundFontJsonResources) -> (present: bool)
    ensures
        present == resources.is_present(),
{
    resources.metadata.is_some() || resources.coverage.is_some() || resources.index.is_some()
        || resources.pack_report.is_some()
}

pub fn soundfont_json_resources_complete(resources: &SoundFontJsonResources) -> (complete:
    bool)
    ensures
        complete == resources.is_complete(),
{
    resources.coverage.is_some() && resources.index.is_some()
}

/// Completes the resources of a soundfont by those of a later file.
pub fn merge_soundfont_json_resources(
    existing: SoundFontJsonResources,
    incoming: SoundFontJsonResources,
) -> (merged: SoundFontJsonResources)
    ensures
        merged == existing.merged(incoming),
{
    SoundFontJsonResources {
        metadata: first_present(existing.metadata, incoming.metadata),
        coverage: first_present(existing.coverage, incoming.coverage),
        index: first_present(existing.index, incoming.index),
        pack_report: first_present(existing.pack_report, incoming.pack_report),
    }
}

/// What was collected from the DAT files so far.
#[derive(Debug)]
pub struct SoundFontDatResources {
    pub read_tasks: Vec<SoundFontDatReadTask>,
    pub json_resources: TextMap<SoundFontJsonResources>,
}

impl SoundFontDatResources {
    /// Every soundfont with resources has some.
    pub open spec fn wf(&self) -> bool {
        &&& self.json_resources.wf()
        &&& forall|font: Seq<char>|
            self.json_resources@.contains_key(font) ==> (
            #[trigger] self.json_resources@[font]).is_present()
    }

    pub fn new() -> (resources: SoundFontDatResources)
        ensures
            resources.wf(),
            task_views(resources.read_tasks@) == Seq::<TaskView>::empty(),
            resources.json_resources@ == Map::<Seq<char>, SoundFontJsonResources>::empty(),
    {
        let resources = SoundFontDatResources {
            read_tasks: Vec::new(),
            json_resources: TextMap::new(),
        };
        assert(task_views(resources.read_tasks@) =~= Seq::<TaskView>::empty());
        resources
    }

    /// Adds a task for each wanted entry of a file.
    pub fn add_file(&mut self, dat_path: &str, entries: &[DatEntryKey], wanted: &[String])
        requires
            old(self).wf(),
        ensures
            final(self).wf(),
            task_views(final(self).read_tasks@) == with_file(
                task_views(old(self).read_tasks@),
                dat_path@,
                entries@,
                texts(wanted@),
            ),
            final(self).json_resources == old(self).json_resources,
    {
        let ghost before = task_views(self.read_tasks@);
        let mut i: usize = 0;
        assert(entries@.take(0) =~= Seq::<DatEntryKey>::empty());
        while i < entries.len()
            invariant
                i <= entries@.len(),
                self.json_resources == old(self).json_resources,
                task_views(self.read_tasks@) == with_file(
                    before,
                    dat_path@,
                    entries@.take(i as int),
                    texts(wanted@),
                ),
            decreases entries@.len() - i,
        {
            let ghost shown = task_views(self.read_tasks@);
            assert(entries@.take(i + 1).drop_last() =~= entries@.take(i as int));
            if text_eq(entries[i].asset_type.as_str(), "soundfont") && contains_text(
                wanted,
                entries[i].internal_id.as_str(),
            ) {
                let task = SoundFontDatReadTask {
                    order: self.read_tasks.len(),
                    soundfont_id: entries[i].internal_id.clone(),
                    dat_path: dat_path.to_owned(),
                    entry: i,
                };
                self.read_tasks.push(task);
                assert(task_views(self.read_tasks@) =~= shown.push(task@));
            }
            i = i + 1;
        }
        assert(entries@.take(i as int) =~= entries@);
    }

    /// Whether the next file is still to be asked for a soundfont's resources.
    pub fn wants_resources(&self, soundfont_id: &str) -> (wants: bool)
        requires
            self.wf(),
        ensures
            wants == !(self.json_resources@.contains_key(soundfont_id@)
                && self.json_resources@[soundfont_id@].is_complete()),
    {
        match self.json_resources.get(soundfont_id) {
            Some(resources) => !soundfont_json_resources_complete(resources),
            None => true,
        }
    }

    /// Adds what a file says of a soundfont; what earlier files said stands.
    pub fn add_resources(&mut self, soundfont_id: &str, resources: SoundFontJsonResources)
        requires
            old(self).wf(),
        ensures
            final(self).wf(),
            final(self).read_tasks == old(self).read_tasks,
            final(self).json_resources@ == if !resources.is_present() {
                old(self).json_resources@
            } else if old(self).json_resources@.contains_key(soundfont_id@) {
                old(self).json_resources@.insert(
                    soundfont_id@,
                    old(self).json_resources@[soundfont_id@].merged(resources),
                )
            } else {
                old(self).json_resources@.insert(soundfont_id@, resources)
            },
    {
        if !soundfont_json_resources_present(&resources) {
            return;
        }
        let merged = match self.json_resources.get(soundfont_id) {
            Some(existing) => merge_soundfont_json_resources(*existing, resources),
            None => resources,
        };
        self.json_resources.insert(soundfont_id.to_owned(), merged);
        proof {
            let map = self.json_resources@;
            assert forall|font: Seq<char>| map.contains_key(font) implies (
            #[trigger] map[font]).is_present() by {
                if font != soundfont_id@ {
                    assert(old(self).json_resources@[font].is_present());
                }
            }
        }
    }
}

/// The tasks of one soundfont, as positions in the list.
pub open spec fn tasks_of(tasks: Seq<TaskView>, font: Seq<char>) -> Seq<int>
    decreases tasks.len(),
{
    if tasks.len() == 0 {
        Seq::empty()
    } else if tasks.last().soundfont_id == font {
        tasks_of(tasks.drop_last(), font).push(tasks.len() - 1)
    } else {
        tasks_of(tasks.drop_last(), font)
    }
}

/// The tasks of one soundfont, as positions in the list.
pub fn read_tasks_of(tasks: &[SoundFontDatReadTask], soundfont_id: &str) -> (positions: Vec<usize>)
    ensures
        positions@.map_values(|p: usize| p as int) == tasks_of(task_views(tasks@), soundfont_id@),
        forall|k: int| 0 <= k < positions@.len() ==> (#[trigger] positions@[k]) < tasks@.len(),
{
    let ghost views = task_views(tasks@);
    let mut positions: Vec<usize> = Vec::new();
    let mut i: usize = 0;
    assert(views.take(0) =~= Seq::<TaskView>::empty());
    assert(positions@.map_values(|p: usize| p as int) =~= Seq::<int>::empty());
    while i < tasks.len()
        invariant
            i <= tasks@.len(),
            views == task_views(tasks@),
            positions@.map_values(|p: usize| p as int) == tasks_of(
                views.take(i as int),
                soundfont_id@,
            ),
            forall|k: int| 0 <= k < positions@.len() ==> (#[trigger] positions@[k]) < tasks@.len(),
        decreases tasks@.len() - i,
    {
        let ghost shown = positions@.map_values(|p: usize| p as int);
        assert(views.take(i + 1).drop_last() =~= views.take(i as int));
        if text_eq(tasks[i].soundfont_id.as_str(), soundfont_id) {
            positions.push(i);
            assert(positions@.map_values(|p: usize| p as int) =~= shown.push(i as int));
        }
        i = i + 1;
    }
    assert(views.take(i as int) =~= views);
    positions
}

/// The order in which tasks are carried out, as positions in the list.
pub fn read_order(tasks: &[SoundFontDatReadTask]) -> (order: Vec<usize>)
    ensures
        is_stable_order(order_keys(task_views(tasks@)), order@),
{
    let mut keys: Vec<u64> = Vec::new();
    let mut i: usize = 0;
    while i < tasks.len()
        invariant
            i <= tasks@.len(),
            keys@.len() == i,
            forall|k: int| 0 <= k < i ==> (#[trigger] keys@[k]) == tasks@[k].order as u64,
        decreases tasks@.len() - i,
    {
        keys.push(tasks[i].order as u64);
        i = i + 1;
    }
    assert(keys@ =~= order_keys(task_views(tasks@)));
    stable_order(keys.as_slice())
}

/// The numbers by which tasks are ordered.
pub open spec fn order_keys(tasks: Seq<TaskView>) -> Seq<u64> {
    tasks.map_values(|task: TaskView| task.order as u64)
}

/// The texts, each where it comes first.
pub open spec fn distinct_texts(list: Seq<Seq<char>>) -> Seq<Seq<char>>
    decreases list.len(),
{
    if list.len() == 0 {
        Seq::empty()
    } else {
        let before = distinct_texts(list.drop_last());
        if before.contains(list.last()) {
            before
        } else {
            before.push(list.last())
        }
    }
}

/// The DAT files of tasks, each where it comes first.
pub fn soundfont_dat_sources(paths: &[String]) -> (sources: Vec<String>)
    ensures
        texts(sources@) == distinct_texts(texts(paths@)),
{
    let ghost all = texts(paths@);
    let mut sources: Vec<String> = Vec::new();
    let mut i: usize = 0;
    assert(all.take(0) =~= Seq::<Seq<char>>::empty());
    assert(texts(sources@) =~= Seq::<Seq<char>>::empty());
    while i < paths.len()
        invariant
            i <= paths@.len(),
            all == texts(paths@),
            texts(sources@) == distinct_texts(all.take(i as int)),
        decreases paths@.len() - i,
    {
        let ghost shown = texts(sources@);
        assert(all.take(i + 1).drop_last() =~= all.take(i as int));
        if !contains_text(sources.as_slice(), paths[i].as_str()) {
            sources.push(paths[i].clone());
            assert(texts(sources@) =~= shown.push(paths@[i as int]@));
        }
        i = i + 1;
    }
    assert(all.take(i as int) =~= all);
    sources
}

/// A soundfont that was read in full.
#[derive(Debug)]
pub struct SoundFontDatPayload {
    pub bytes: Vec<u8>,
    pub sources: Vec<String>,
    pub entry_reads: usize,
    pub entry_read_bytes: usize,
}

/// The parts one after the other.
pub open spec fn concatenated(parts: Seq<Vec<u8>>) -> Seq<u8>
    decreases parts.len(),
{
    if parts.len() == 0 {
        Seq::empty()
    } else {
        concatenated(parts.drop_last()) + parts.last()@
    }
}

/// Puts a soundfont together from its parts and the files they come from, both in
/// reading order.
pub fn merge_dat_payloads(paths: &[String], parts: &[Vec<u8>]) -> (payload: SoundFontDatPayload)
    requires
        paths@.len() == parts@.len(),
    ensures
        payload.bytes@ == concatenated(parts@),
        texts(payload.sources@) == distinct_texts(texts(paths@)),
        payload.entry_reads == parts@.len(),
        payload.entry_read_bytes == usize_cap(concatenated(parts@).len() as int),
{
    let mut bytes: Vec<u8> = Vec::new();
    let mut entry_read_bytes: usize = 0;
    let mut i: usize = 0;
    assert(parts@.take(0) =~= Seq::<Vec<u8>>::empty());
    while i < parts.len()
        invariant
            i <= parts@.len(),
            bytes@ == concatenated(parts@.take(i as int)),
            entry_read_bytes == usize_cap(bytes@.len() as int),
        decreases parts@.len() - i,
    {
        assert(parts@.take(i + 1).drop_last() =~= parts@.take(i as int));
        entry_read_bytes = entry_read_bytes.saturating_add(parts[i].len());
        bytes.extend_from_slice(parts[i].as_slice());
        i = i + 1;
    }
    assert(parts@.take(i as int) =~= parts@);
    SoundFontDatPayload {
        bytes,
        sources: soundfont_dat_sources(paths),
        entry_reads: parts.len(),
        entry_read_bytes,
    }
}

/// The sample data of one sample.
#[derive(Debug)]
pub struct SoundFontSubsetSampleRange {
    pub sample_id: usize,
    pub samples: Vec<i16>,
}

/// A soundfont of which only a subset was read.
#[derive(Debug)]
pub struct SoundFontSubsetDatPayload {
    pub metadata_bytes: Vec<u8>,
    pub sample_ranges: Vec<SoundFontSubsetSampleRange>,
    pub sources: Vec<String>,
    pub range_reads: usize,
    pub range_read_bytes: usize,
}

/// What was read of the ranges of a soundfont: how often, and how much.
#[derive(Debug, Copy, Clone, PartialEq, Eq, Structural)]
pub struct RangeReads {
    pub read_count: usize,
    pub byte_count: usize,
}

/// Whether sample data has a whole number of samples.
pub open spec fn is_even(data: (u32, Vec<u8>)) -> bool {
    data.1@.len() % 2 == 0
}

/// Whether a range holds the samples that sample data encodes.
pub open spec fn holds_samples(range: SoundFontSubsetSampleRange, data: (u32, Vec<u8>)) -> bool {
    &&& range.sample_id == data.0
    &&& range.samples@.len() == data.1@.len() as int / 2
    &&& forall|i: int|
        0 <= i < range.samples@.len() ==> (#[trigger] range.samples@[i]) == sample_at(data.1@, i)
}

/// Puts a subset together from what was read of it. `paths` are the files of the
/// soundfont's entries.
pub fn subset_dat_payload(
    paths: &[String],
    metadata_bytes: Vec<u8>,
    metadata_reads: RangeReads,
    samples: &[(u32, Vec<u8>)],
    sample_reads: RangeReads,
) -> (payload: Result<SoundFontSubsetDatPayload, FlutzError>)
    ensures
        match payload {
            Ok(payload) => {
                &&& paths@.len() > 0
                &&& forall|i: int| 0 <= i < samples@.len() ==> is_even(#[trigger] samples@[i])
                &&& payload.metadata_bytes == metadata_bytes
                &&& payload.sample_ranges@.len() == samples@.len()
                &&& forall|i: int|
                    0 <= i < samples@.len() ==> holds_samples(
                        #[trigger] payload.sample_ranges@[i],
                        samples@[i],
                    )
                &&& texts(payload.sources@) == distinct_texts(texts(paths@))
                &&& payload.range_reads == usize_cap(
                    metadata_reads.read_count + sample_reads.read_count,
                )
                &&& payload.range_read_bytes == usize_cap(
                    metadata_reads.byte_count + sample_reads.byte_count,
                )
            },
            Err(error) => if paths@.len() == 0 {
                error@ == (ErrorKind::InvalidInput, "soundfont DAT subset has no DAT entries"@)
            } else {
                &&& exists|i: int| 0 <= i < samples@.len() && !is_even(#[trigger] samples@[i])
                &&& error@ == (
                    ErrorKind::InvalidInput,
                    "soundfont sample range has odd byte length"@,
                )
            },
        },
{
    if paths.len() == 0 {
        return Err(FlutzError::InvalidInput("soundfont DAT subset has no DAT entries".to_owned()));
    }
    let mut sample_ranges: Vec<SoundFontSubsetSampleRange> = Vec::new();
    let mut i: usize = 0;
    while i < samples.len()
        invariant
            i <= samples@.len(),
            paths@.len() > 0,
            sample_ranges@.len() == i,
            forall|k: int| 0 <= k < i ==> is_even(#[trigger] samples@[k]),
            forall|k: int|
                0 <= k < i ==> holds_samples(#[trigger] sample_ranges@[k], samples@[k]),
        decreases samples@.len() - i,
    {
        match decode_smpl_i16(samples[i].1.as_slice()) {
            Ok(decoded) => {
                sample_ranges.push(
                    SoundFontSubsetSampleRange {
                        sample_id: samples[i].0 as usize,
                        samples: decoded,
                    },
                );
            },
            Err(error) => {
                assert(!is_even(samples@[i as int]));
                return Err(error);
            },
        }
        i = i + 1;
    }
    Ok(
        SoundFontSubsetDatPayload {
            metadata_bytes,
            sample_ranges,
            sources: soundfont_dat_sources(paths),
            range_reads: metadata_reads.read_count.saturating_add(sample_reads.read_count),
            range_read_bytes: metadata_reads.byte_count.saturating_add(sample_reads.byte_count),
        },
    )
}

/// How a soundfont is to be loaded.
#[derive(Debug, Copy, Clone, PartialEq, Eq, Structural)]
pub enum LoadPath {
    /// Its subset first, and in full only if that fails.
    Subset,
    /// In full, though there is a plan: the plan's index cannot be had.
    Fallback,
    /// In full, as nothing is planned for it.
    Whole,
}

/// How a soundfont is to be loaded, or why it cannot be.
pub open spec fn load_path_of(
    id: Seq<char>,
    task_count: usize,
    catalog: Seq<SoundFontCatalogEntry>,
    planned: bool,
    has_index: bool,
) -> Result<LoadPath, (ErrorKind, Seq<char>)> {
    if task_count == 0 {
        Err((ErrorKind::InvalidInput, "soundfont payload not found in DAT files: "@ + id))
    } else {
        match last_entry(catalog, id, catalog.len() as int) {
            None => Err(
                (ErrorKind::InvalidInput, "soundfont is missing from startup catalog: "@ + id),
            ),
            Some(i) => if catalog[i].runtime_format@ != "sf2"@ || catalog[i].storage_format@
                != "sf2"@ {
                Err(
                    (
                        ErrorKind::UnsupportedFormat,
                        "soundfont "@ + id + " is "@ + catalog[i].runtime_format@ + " stored as "@
                            + catalog[i].storage_format@ + "; playback requires sf2"@,
                    ),
                )
            } else if !planned {
                Ok(LoadPath::Whole)
            } else if has_index {
                Ok(LoadPath::Subset)
            } else {
                Ok(LoadPath::Fallback)
            },
        }
    }
}

pub fn load_path(
    id: &str,
    task_count: usize,
    catalog: &[SoundFontCatalogEntry],
    plans: &TextMap<SoundFontSubsetPlanDebug>,
    has_index: bool,
) -> (path: Result<LoadPath, FlutzError>)
    requires
        plans.wf(),
    ensures
        (match path {
            Ok(path) => Ok(path),
            Err(error) => Err(error@),
        }) == load_path_of(id@, task_count, catalog@, plans@.contains_key(id@), has_index),
{
    if task_count == 0 {
        let mut message = "soundfont payload not found in DAT files: ".to_owned();
        message.append(id);
        return Err(FlutzError::InvalidInput(message));
    }
    match find_last_entry(catalog, id) {
        None => {
            let mut message = "soundfont is missing from startup catalog: ".to_owned();
            message.append(id);
            Err(FlutzError::InvalidInput(message))
        },
        Some(i) => {
            let entry = &catalog[i];
            if !text_eq(entry.runtime_format.as_str(), "sf2") || !text_eq(
                entry.storage_format.as_str(),
                "sf2",
            ) {
                let mut message = "soundfont ".to_owned();
                message.append(id);
                message.append(" is ");
                message.append(entry.runtime_format.as_str());
                message.append(" stored as ");
                message.append(entry.storage_format.as_str());
                message.append("; playback requires sf2");
                return Err(FlutzError::UnsupportedFormat(message));
            }
            if !plans.contains_key(id) {
                Ok(LoadPath::Whole)
            } else if has_index {
                Ok(LoadPath::Subset)
            } else {
                Ok(LoadPath::Fallback)
            }
        },
    }
}

/// How a soundfont was loaded, and what was read for it. A fallback may have read
/// ranges before the subset failed.
#[derive(Debug, Copy, Clone, PartialEq, Eq, Structural)]
pub enum FontOutcome {
    Subset { ranges: RangeReads },
    Fallback { ranges: RangeReads, entries: RangeReads, payload_bytes: usize },
    Whole { entries: RangeReads },
}

/// What a load of soundfonts did.
#[derive(Debug, Copy, Clone, PartialEq, Eq, Structural)]
pub struct PlaybackSoundFontLoadDiagnostics {
    pub load_invocations: u64,
    pub requested_font_count: usize,
    pub dat_read_task_count: usize,
    pub full_dat_entry_reads: usize,
    pub range_dat_reads: usize,
    pub full_dat_entry_bytes: u64,
    pub range_dat_read_bytes: u64,
    pub subset_request_count: usize,
    pub subset_source_clone_bytes: u64,
    pub full_fallback_count: usize,
    pub non_subset_full_load_count: usize,
    pub json_resource_font_count: usize,
    pub index_json_plan_count: usize,
    pub load_duration_ms: u128,
}

/// No load.
pub open spec fn no_load() -> PlaybackSoundFontLoadDiagnostics {
    PlaybackSoundFontLoadDiagnostics {
        load_invocations: 0,
        requested_font_count: 0,
        dat_read_task_count: 0,
        full_dat_entry_reads: 0,
        range_dat_reads: 0,
        full_dat_entry_bytes: 0,
        range_dat_read_bytes: 0,
        subset_request_count: 0,
        subset_source_clone_bytes: 0,
        full_fallback_count: 0,
        non_subset_full_load_count: 0,
        json_resource_font_count: 0,
        index_json_plan_count: 0,
        load_duration_ms: 0,
    }
}

impl Default for PlaybackSoundFontLoadDiagnostics {
    fn default() -> (diagnostics: Self)
        ensures
            diagnostics == no_load(),
    {
        PlaybackSoundFontLoadDiagnostics {
            load_invocations: 0,
            requested_font_count: 0,
            dat_read_task_count: 0,
            full_dat_entry_reads: 0,
            range_dat_reads: 0,
            full_dat_entry_bytes: 0,
            range_dat_read_bytes: 0,
            subset_request_count: 0,
            subset_source_clone_bytes: 0,
            full_fallback_count: 0,
            non_subset_full_load_count: 0,
            json_resource_font_count: 0,
            index_json_plan_count: 0,
            load_duration_ms: 0,
        }
    }
}

impl PlaybackSoundFontLoadDiagnostics {
    /// The counts with those of one more soundfont.
    pub open spec fn with_outcome(self, outcome: FontOutcome) -> PlaybackSoundFontLoadDiagnostics {
        match outcome {
            FontOutcome::Subset { ranges } => PlaybackSoundFontLoadDiagnostics {
                subset_request_count: usize_cap(self.subset_request_count + 1) as usize,
                range_dat_reads: usize_cap(self.range_dat_reads + ranges.read_count) as usize,
                range_dat_read_bytes: u64_cap(self.range_dat_read_bytes + ranges.byte_count) as u64,
                ..self
            },
            FontOutcome::Fallback { ranges, entries, payload_bytes } =>
                PlaybackSoundFontLoadDiagnostics {
                subset_request_count: usize_cap(self.subset_request_count + 1) as usize,
                range_dat_reads: usize_cap(self.range_dat_reads + ranges.read_count) as usize,
                range_dat_read_bytes: u64_cap(self.range_dat_read_bytes + ranges.byte_count) as u64,
                full_fallback_count: usize_cap(self.full_fallback_count + 1) as usize,
                full_dat_entry_reads: usize_cap(self.full_dat_entry_reads + entries.read_count) as usize,
                full_dat_entry_bytes: u64_cap(self.full_dat_entry_bytes + entries.byte_count) as u64,
                subset_source_clone_bytes: u64_cap(
                    self.subset_source_clone_bytes + payload_bytes,
                ) as u64,
                ..self
            },
            FontOutcome::Whole { entries } => PlaybackSoundFontLoadDiagnostics {
                non_subset_full_load_count: usize_cap(self.non_subset_full_load_count + 1) as usize,
                full_dat_entry_reads: usize_cap(self.full_dat_entry_reads + entries.read_count) as usize,
                full_dat_entry_bytes: u64_cap(self.full_dat_entry_bytes + entries.byte_count) as u64,
                ..self
            },
        }
    }

    fn add_outcome(&mut self, outcome: FontOutcome)
        ensures
            *final(self) == old(self).with_outcome(outcome),
    {
        match outcome {
            FontOutcome::Subset { ranges } => {
                self.subset_request_count = self.subset_request_count.saturating_add(1);
                self.range_dat_reads = self.range_dat_reads.saturating_add(ranges.read_count);
                self.range_dat_read_bytes = self.range_dat_read_bytes.saturating_add(
                    ranges.byte_count as u64,
                );
            },
            FontOutcome::Fallback { ranges, entries, payload_bytes } => {
                self.subset_request_count = self.subset_request_count.saturating_add(1);
                self.range_dat_reads = self.range_dat_reads.saturating_add(ranges.read_count);
                self.range_dat_read_bytes = self.range_dat_read_bytes.saturating_add(
                    ranges.byte_count as u64,
                );
                self.full_fallback_count = self.full_fallback_count.saturating_add(1);
                self.full_dat_entry_reads = self.full_dat_entry_reads.saturating_add(
                    entries.read_count,
                );
                self.full_dat_entry_bytes = self.full_dat_entry_bytes.saturating_add(
                    entries.byte_count as u64,
                );
                self.subset_source_clone_bytes = self.subset_source_clone_bytes.saturating_add(
                    payload_bytes as u64,
                );
            },
            FontOutcome::Whole { entries } => {
                self.non_subset_full_load_count = self.non_subset_full_load_count.saturating_add(1);
                self.full_dat_entry_reads = self.full_dat_entry_reads.saturating_add(
                    entries.read_count,
                );
                self.full_dat_entry_bytes = self.full_dat_entry_bytes.saturating_add(
                    entries.byte_count as u64,
                );
            },
        }
    }
}

/// The counts of soundfonts, one after the other.
pub open spec fn counted_outcomes(outcomes: Seq<FontOutcome>) -> PlaybackSoundFontLoadDiagnostics
    decreases outcomes.len(),
{
    if outcomes.len() == 0 {
        no_load()
    } else {
        counted_outcomes(outcomes.drop_last()).with_outcome(outcomes.last())
    }
}

/// The contents of loaded subsets, by soundfont.
pub open spec fn state_views(states: Map<Seq<char>, LoadedSubsetState>) -> Map<
    Seq<char>,
    LoadedView,
> {
    states.map_values(|state: LoadedSubsetState| state@)
}

/// The contents of plans, by soundfont.
pub open spec fn plan_views(plans: Map<Seq<char>, SoundFontSubsetPlanDebug>) -> Map<
    Seq<char>,
    PlanView,
> {
    plans.map_values(|plan: SoundFontSubsetPlanDebug| plan@)
}

/// What is loaded of each soundfont that has a plan.
pub open spec fn loaded_states(
    ids: Seq<Seq<char>>,
    plans: Map<Seq<char>, PlanView>,
    outcomes: Seq<FontOutcome>,
) -> Map<Seq<char>, LoadedView>
    decreases ids.len(),
{
    if ids.len() == 0 {
        Map::empty()
    } else {
        let before = loaded_states(ids.drop_last(), plans, outcomes.drop_last());
        if plans.contains_key(ids.last()) {
            before.insert(
                ids.last(),
                loaded_of(plans[ids.last()], outcomes.last() is Subset),
            )
        } else {
            before
        }
    }
}

/// How many plans come from an index.
pub open spec fn index_plans(plans: Seq<(String, SoundFontSubsetPlanDebug)>) -> int
    decreases plans.len(),
{
    if plans.len() == 0 {
        0
    } else {
        index_plans(plans.drop_last()) + if plans.last().1.used_index_json {
            1int
        } else {
            0
        }
    }
}

/// What stands after a load of soundfonts.
#[derive(Debug)]
pub struct SoundFontLoad {
    pub states: TextMap<LoadedSubsetState>,
    pub transition: PlaybackSubsetTransitionDiagnostics,
    pub diagnostics: PlaybackSoundFontLoadDiagnostics,
}

fn count_index_plans(plans: &TextMap<SoundFontSubsetPlanDebug>) -> (count: usize)
    ensures
        count == index_plans(plans.entries@),
{
    let mut count: usize = 0;
    let mut i: usize = 0;
    assert(plans.entries@.take(0) =~= Seq::<(String, SoundFontSubsetPlanDebug)>::empty());
    while i < plans.entries.len()
        invariant
            i <= plans.entries@.len(),
            count <= i,
            count == index_plans(plans.entries@.take(i as int)),
        decreases plans.entries@.len() - i,
    {
        assert(plans.entries@.take(i + 1).drop_last() =~= plans.entries@.take(i as int));
        if plans.entries[i].1.used_index_json {
            count = count + 1;
        }
        i = i + 1;
    }
    assert(plans.entries@.take(i as int) =~= plans.entries@);
    count
}

/// Settles a load once every soundfont was loaded: what is loaded now, how that
/// compares with what was loaded before, and the counts.
pub fn finish_soundfont_load(
    soundfont_ids: &[String],
    plans: &TextMap<SoundFontSubsetPlanDebug>,
    outcomes: &[FontOutcome],
    previous: &TextMap<LoadedSubsetState>,
    previous_invocations: u64,
    dat_read_task_count: usize,
    json_resource_font_count: usize,
    load_duration_ms: u128,
) -> (load: SoundFontLoad)
    requires
        plans.wf(),
        previous.wf(),
        outcomes@.len() == soundfont_ids@.len(),
    ensures
        load.states.wf(),
        state_views(load.states@) == loaded_states(
            texts(soundfont_ids@),
            plan_views(plans@),
            outcomes@,
        ),
        load.transition == transition_of(previous@, loaded_views(load.states.entries@)),
        load.diagnostics == (PlaybackSoundFontLoadDiagnostics {
            load_invocations: u64_cap(previous_invocations + 1) as u64,
            requested_font_count: soundfont_ids@.len() as usize,
            dat_read_task_count,
            json_resource_font_count,
            index_json_plan_count: index_plans(plans.entries@) as usize,
            load_duration_ms,
            ..counted_outcomes(outcomes@)
        }),
{
    let ghost ids = texts(soundfont_ids@);
    let ghost views = plan_views(plans@);
    let mut states: TextMap<LoadedSubsetState> = TextMap::new();
    let mut counts = PlaybackSoundFontLoadDiagnostics::default();
    let mut i: usize = 0;
    proof {
        assert(ids.take(0) =~= Seq::<Seq<char>>::empty());
        assert(outcomes@.take(0) =~= Seq::<FontOutcome>::empty());
        assert(state_views(states@) =~= Map::<Seq<char>, LoadedView>::empty());
    }
    while i < soundfont_ids.len()
        invariant
            i <= soundfont_ids@.len(),
            outcomes@.len() == soundfont_ids@.len(),
            plans.wf(),
            ids == texts(soundfont_ids@),
            views == plan_views(plans@),
            states.wf(),
            state_views(states@) == loaded_states(
                ids.take(i as int),
                views,
                outcomes@.take(i as int),
            ),
            counts == counted_outcomes(outcomes@.take(i as int)),
        decreases soundfont_ids@.len() - i,
    {
        let ghost before = states@;
        proof {
            assert(ids.take(i + 1).drop_last() =~= ids.take(i as int));
            assert(outcomes@.take(i + 1).drop_last() =~= outcomes@.take(i as int));
        }
        let id = soundfont_ids[i].as_str();
        let compact = match outcomes[i] {
            FontOutcome::Subset { .. } => true,
            _ => false,
        };
        match plans.get(id) {
            Some(plan) => {
                let state = LoadedSubsetState::from_plan(plan, compact);
                states.insert(soundfont_ids[i].clone(), state);
                assert(state_views(states@) =~= state_views(before).insert(id@, state@));
            },
            None => {},
        }
        counts.add_outcome(outcomes[i]);
        i = i + 1;
    }
    proof {
        assert(ids.take(i as int) =~= ids);
        assert(outcomes@.take(i as int) =~= outcomes@);
    }
    let transition = compare_subset_transition(previous, &states);
    counts.load_invocations = previous_invocations.saturating_add(1);
    counts.requested_font_count = soundfont_ids.len();
    counts.dat_read_task_count = dat_read_task_count;
    counts.json_resource_font_count = json_resource_font_count;
    counts.index_json_plan_count = count_index_plans(plans);
    counts.load_duration_ms = load_duration_ms;
    SoundFontLoad { states, transition, diagnostics: counts }
}

/// Every soundfont of a load is counted once: as a subset request or as one that
/// is loaded in full without a plan.
pub proof fn outcomes_are_counted_once(outcomes: Seq<FontOutcome>)
    requires
        outcomes.len() <= usize::MAX,
    ensures
        counted_outcomes(outcomes).subset_request_count + counted_outcomes(
            outcomes,
        ).non_subset_full_load_count == outcomes.len(),
        counted_outcomes(outcomes).full_fallback_count <= counted_outcomes(
            outcomes,
        ).subset_request_count,
    decreases outcomes.len(),
{
    if outcomes.len() > 0 {
        outcomes_are_counted_once(outcomes.drop_last());
    }
}

/// After a load every soundfont with a plan is loaded, and nothing else counts as
/// loaded.
pub proof fn planned_fonts_are_loaded(
    ids: Seq<Seq<char>>,
    plans: Map<Seq<char>, PlanView>,
    outcomes: Seq<FontOutcome>,
    font: Seq<char>,
)
    requires
        ids.len() == outcomes.len(),
    ensures
        loaded_states(ids, plans, outcomes).contains_key(font) == (ids.contains(font)
            && plans.contains_key(font)),
    decreases ids.len(),
{
    if ids.len() > 0 {
        planned_fonts_are_loaded(ids.drop_last(), plans, outcomes.drop_last(), font);
        assert(ids == ids.drop_last().push(ids.last()));
        assert(ids.contains(font) == (ids.drop_last().contains(font) || ids.last() == font)) by {
            if ids.drop_last().contains(font) {
                let k = choose|k: int| 0 <= k < ids.drop_last().len() && ids.drop_last()[k] == font;
                assert(ids[k] == font);
            }
            if ids.contains(font) && ids.last() != font {
                let k = choose|k: int| 0 <= k < ids.len() && ids[k] == font;
                assert(ids.drop_last()[k] == font);
            }
        }
    }
}

/// Resources that were merged are never lost, and merging complete resources
/// changes nothing that playback needs.
pub proof fn merging_keeps_what_is_there(
    existing: SoundFontJsonResources,
    incoming: SoundFontJsonResources,
)
    ensures
        existing.is_present() ==> existing.merged(incoming).is_present(),
        existing.is_complete() ==> existing.merged(incoming).is_complete(),
        existing.is_complete() ==> existing.merged(incoming).coverage == existing.coverage
            && existing.merged(incoming).index == existing.index,
        existing.merged(existing) == existing,
{
}

/// Tasks are numbered by their place.
pub proof fn tasks_are_numbered_by_place(
    tasks: Seq<TaskView>,
    path: Seq<char>,
    entries: Seq<DatEntryKey>,
    wanted: Seq<Seq<char>>,
)
    requires
        tasks.len() + entries.len() <= usize::MAX,
        forall|k: int| 0 <= k < tasks.len() ==> (#[trigger] tasks[k]).order == k,
    ensures
        with_file(tasks, path, entries, wanted).len() <= tasks.len() + entries.len(),
        forall|k: int|
            0 <= k < with_file(tasks, path, entries, wanted).len() ==> (
            #[trigger] with_file(tasks, path, entries, wanted)[k]).order == k,
    decreases entries.len(),
{
    if entries.len() > 0 {
        tasks_are_numbered_by_place(tasks, path, entries.drop_last(), wanted);
    }
}

/// A file adds a task for each of its soundfont entries that is wanted, under the file's
/// path and the number of the entry, and for no other entry.
pub proof fn wanted_entries_are_read(
    tasks: Seq<TaskView>,
    path: Seq<char>,
    entries: Seq<DatEntryKey>,
    wanted: Seq<Seq<char>>,
)
    requires
        entries.len() <= usize::MAX,
    ensures
        ({
            let after = with_file(tasks, path, entries, wanted);
            &&& tasks.len() <= after.len()
            &&& after.take(tasks.len() as int) == tasks
            &&& forall|e: int|
                0 <= e < entries.len() && (#[trigger] entries[e]).asset_type@ == "soundfont"@
                    && wanted.contains(entries[e].internal_id@) ==> exists|k: int|
                    tasks.len() <= k < after.len() && (#[trigger] after[k]).entry == e
                        && after[k].soundfont_id == entries[e].internal_id@ && after[k].dat_path
                        == path
            &&& forall|k: int|
                tasks.len() <= k < after.len() ==> (#[trigger] after[k]).dat_path == path
                    && after[k].entry < entries.len()
                    && entries[after[k].entry as int].internal_id@ == after[k].soundfont_id
                    && entries[after[k].entry as int].asset_type@ == "soundfont"@
                    && wanted.contains(after[k].soundfont_id)
        }),
    decreases entries.len(),
{
    let after = with_file(tasks, path, entries, wanted);
    if entries.len() > 0 {
        let shorter = entries.drop_last();
        let before = with_file(tasks, path, shorter, wanted);
        wanted_entries_are_read(tasks, path, shorter, wanted);
        assert(after.take(tasks.len() as int) =~= before.take(tasks.len() as int));
        assert forall|e: int|
            0 <= e < entries.len() && (#[trigger] entries[e]).asset_type@ == "soundfont"@
                && wanted.contains(entries[e].internal_id@) implies exists|k: int|
            tasks.len() <= k < after.len() && (#[trigger] after[k]).entry == e
                && after[k].soundfont_id == entries[e].internal_id@ && after[k].dat_path == path by {
            if e < shorter.len() {
                assert(shorter[e] == entries[e]);
                let k = choose|k: int|
                    tasks.len() <= k < before.len() && (#[trigger] before[k]).entry == e
                        && before[k].soundfont_id == shorter[e].internal_id@ && before[k].dat_path
                        == path;
                assert(after[k] == before[k]);
            } else {
                assert(after[before.len() as int].entry == e);
            }
        }
        assert forall|k: int| tasks.len() <= k < after.len() implies (
        #[trigger] after[k]).dat_path == path && after[k].entry < entries.len()
            && entries[after[k].entry as int].internal_id@ == after[k].soundfont_id
            && entries[after[k].entry as int].asset_type@ == "soundfont"@ && wanted.contains(
            after[k].soundfont_id,
        ) by {
            if k < before.len() {
                assert(after[k] == before[k]);
                assert(shorter[before[k].entry as int] == entries[before[k].entry as int]);
            }
        }
    } else {
        assert(after.take(tasks.len() as int) =~= tasks);
    }
}

/// Earlier files have the last word on each part of a soundfont's resources, and later ones
/// fill what is missing.
pub proof fn earlier_resources_stand(
    existing: SoundFontJsonResources,
    incoming: SoundFontJsonResources,
)
    ensures
        existing.metadata is Some ==> existing.merged(incoming).metadata == existing.metadata,
        existing.metadata is None ==> existing.merged(incoming).metadata == incoming.metadata,
        existing.coverage is Some ==> existing.merged(incoming).coverage == existing.coverage,
        existing.coverage is None ==> existing.merged(incoming).coverage == incoming.coverage,
        existing.index is Some ==> existing.merged(incoming).index == existing.index,
        existing.index is None ==> existing.merged(incoming).index == incoming.index,
        existing.pack_report is Some ==> existing.merged(incoming).pack_report
            == existing.pack_report,
        existing.pack_report is None ==> existing.merged(incoming).pack_report
            == incoming.pack_report,
        existing.is_complete() == (existing.coverage is Some && existing.index is Some),
        existing == (SoundFontJsonResources {
            metadata: None,
            coverage: None,
            index: None,
            pack_report: None,
        }) ==> !existing.is_present(),
        !existing.is_present() ==> existing.merged(incoming) == incoming,
{
}

/// A soundfont of the catalog in the format of playback is loaded as its plan says: as a
/// subset where the index is there, in full as a fallback where it is not, and in full
/// where nothing is planned. One in another format, one that the catalog does not have and
/// one without an entry is refused.
pub proof fn soundfonts_are_loaded_as_planned(
    catalog: Seq<SoundFontCatalogEntry>,
    k: int,
    id: Seq<char>,
    task_count: usize,
    planned: bool,
    has_index: bool,
)
    requires
        forall|a: int, b: int|
            0 <= a < b < catalog.len() ==> (#[trigger] catalog[a]).internal_id@ != (
            #[trigger] catalog[b]).internal_id@,
        0 <= k < catalog.len(),
    ensures
        ({
            let path = load_path_of(
                catalog[k].internal_id@,
                task_count,
                catalog,
                planned,
                has_index,
            );
            let plays = catalog[k].runtime_format@ == "sf2"@ && catalog[k].storage_format@
                == "sf2"@;
            &&& task_count == 0 ==> path is Err
            &&& task_count > 0 && !plays ==> path is Err && path->Err_0.0
                == ErrorKind::UnsupportedFormat
            &&& task_count > 0 && plays && !planned ==> path == Ok::<
                LoadPath,
                (ErrorKind, Seq<char>),
            >(LoadPath::Whole)
            &&& task_count > 0 && plays && planned && has_index ==> path == Ok::<
                LoadPath,
                (ErrorKind, Seq<char>),
            >(LoadPath::Subset)
            &&& task_count > 0 && plays && planned && !has_index ==> path == Ok::<
                LoadPath,
                (ErrorKind, Seq<char>),
            >(LoadPath::Fallback)
        }),
        (forall|n: int| 0 <= n < catalog.len() ==> (#[trigger] catalog[n]).internal_id@ != id)
            ==> load_path_of(id, task_count, catalog, planned, has_index) is Err,
{
    crate::catalog::entries_are_found_by_their_id(catalog, k);
    crate::catalog::lemma_last_entry(catalog, id, catalog.len() as int);
}

/// What a load read is what each soundfont read, as long as the counts fit: entries for
/// those that were loaded in full, ranges for those that were asked for as subsets.
pub proof fn a_load_counts_what_is_read(
    before: PlaybackSoundFontLoadDiagnostics,
    ranges: RangeReads,
    entries: RangeReads,
    payload_bytes: usize,
)
    requires
        before.range_dat_reads + ranges.read_count <= usize::MAX,
        before.range_dat_read_bytes + ranges.byte_count <= u64::MAX,
        before.full_dat_entry_reads + entries.read_count <= usize::MAX,
        before.full_dat_entry_bytes + entries.byte_count <= u64::MAX,
        before.subset_source_clone_bytes + payload_bytes <= u64::MAX,
        before.subset_request_count < usize::MAX,
        before.full_fallback_count < usize::MAX,
        before.non_subset_full_load_count < usize::MAX,
    ensures
        ({
            let after = before.with_outcome(FontOutcome::Subset { ranges });
            &&& after.range_dat_reads == before.range_dat_reads + ranges.read_count
            &&& after.range_dat_read_bytes == before.range_dat_read_bytes + ranges.byte_count
            &&& after.full_dat_entry_reads == before.full_dat_entry_reads
            &&& after.full_dat_entry_bytes == before.full_dat_entry_bytes
            &&& after.subset_request_count == before.subset_request_count + 1
            &&& after.full_fallback_count == before.full_fallback_count
        }),
        ({
            let after = before.with_outcome(FontOutcome::Whole { entries });
            &&& after.range_dat_reads == before.range_dat_reads
            &&& after.range_dat_read_bytes == before.range_dat_read_bytes
            &&& after.full_dat_entry_reads == before.full_dat_entry_reads + entries.read_count
            &&& after.full_dat_entry_bytes == before.full_dat_entry_bytes + entries.byte_count
            &&& after.non_subset_full_load_count == before.non_subset_full_load_count + 1
            &&& after.subset_request_count == before.subset_request_count
        }),
        ({
            let after = before.with_outcome(
                FontOutcome::Fallback { ranges, entries, payload_bytes },
            );
            &&& after.range_dat_reads == before.range_dat_reads + ranges.read_count
            &&& after.range_dat_read_bytes == before.range_dat_read_bytes + ranges.byte_count
            &&& after.full_dat_entry_reads == before.full_dat_entry_reads + entries.read_count
            &&& after.full_dat_entry_bytes == before.full_dat_entry_bytes + entries.byte_count
            &&& after.subset_source_clone_bytes == before.subset_source_clone_bytes
                + payload_bytes
            &&& after.subset_request_count == before.subset_request_count + 1
            &&& after.full_fallback_count == before.full_fallback_count + 1
        }),
{
}

/// Each soundfont with a plan is known as loaded with the samples of its plan, and as a
/// subset exactly if it was loaded as one.
pub proof fn loaded_fonts_are_known_by_their_outcome(
    ids: Seq<Seq<char>>,
    plans: Map<Seq<char>, PlanView>,
    outcomes: Seq<FontOutcome>,
    i: int,
)
    requires
        ids.no_duplicates(),
        ids.len() == outcomes.len(),
        0 <= i < ids.len(),
        plans.contains_key(ids[i]),
    ensures
        loaded_states(ids, plans, outcomes).contains_key(ids[i]),
        ({
            let loaded = loaded_states(ids, plans, outcomes)[ids[i]];
            &&& loaded.samples == plans[ids[i]].samples
            &&& loaded.presets == plans[ids[i]].presets
            &&& loaded.planned_bytes == plans[ids[i]].planned_bytes
            &&& loaded.compact == (match outcomes[i] {
                FontOutcome::Subset { ranges } => true,
                _ => false,
            })
        }),
    decreases ids.len(),
{
    if i < ids.len() - 1 {
        assert(ids.drop_last()[i] == ids[i]);
        assert(outcomes.drop_last()[i] == outcomes[i]);
        loaded_fonts_are_known_by_their_outcome(
            ids.drop_last(),
            plans,
            outcomes.drop_last(),
            i,
        );
        assert(ids.last() == ids[ids.len() - 1]);
    }
}

/// The sources of a soundfont are its files, each named once.
pub proof fn sources_are_named_once(paths: Seq<Seq<char>>, path: Seq<char>)
    ensures
        distinct_texts(paths).no_duplicates(),
        distinct_texts(paths).contains(path) == paths.contains(path),
    decreases paths.len(),
{
    if paths.len() > 0 {
        let shorter = paths.drop_last();
        let before = distinct_texts(shorter);
        let now = distinct_texts(paths);
        sources_are_named_once(shorter, path);
        assert(paths[paths.len() - 1] == paths.last());
        if shorter.contains(path) {
            let k = choose|k: int| 0 <= k < shorter.len() && shorter[k] == path;
            assert(paths[k] == path);
        }
        if paths.contains(path) && paths.last() != path {
            let k = choose|k: int| 0 <= k < paths.len() && paths[k] == path;
            assert(shorter[k] == path);
        }
        if !before.contains(paths.last()) {
            assert(now[before.len() as int] == paths.last());
            if before.contains(path) {
                let k = choose|k: int| 0 <= k < before.len() && before[k] == path;
                assert(now[k] == path);
            }
            if now.contains(path) && paths.last() != path {
                let k = choose|k: int| 0 <= k < now.len() && now[k] == path;
                assert(before[k] == path);
            }
        }
    }
}

/// A soundfont is put together from its parts in order: each part stands behind those
/// before it, whole.
pub proof fn parts_stand_in_order(parts: Seq<Vec<u8>>, n: int)
    requires
        0 <= n < parts.len(),
    ensures
        ({
            let at = concatenated(parts.take(n)).len() as int;
            let whole = concatenated(parts);
            &&& at + parts[n]@.len() <= whole.len()
            &&& whole.subrange(at, at + parts[n]@.len()) == parts[n]@
            &&& n == parts.len() - 1 ==> whole.len() == at + parts[n]@.len()
        }),
    decreases parts.len(),
{
    let shorter = parts.drop_last();
    let whole = concatenated(parts);
    let at = concatenated(parts.take(n)).len() as int;
    if n < shorter.len() {
        parts_stand_in_order(shorter, n);
        assert(shorter.take(n) =~= parts.take(n));
        assert(whole.subrange(at, at + parts[n]@.len()) =~= concatenated(shorter).subrange(
            at,
            at + parts[n]@.len(),
        ));
    } else {
        assert(parts.take(n) =~= shorter);
        assert(whole.subrange(at, at + parts[n]@.len()) =~= parts[n]@);
    }
}

/// The tasks of a soundfont are all those that name it, in their order.
pub proof fn tasks_are_gathered_by_soundfont(tasks: Seq<TaskView>, task: TaskView, font: Seq<char>)
    ensures
        tasks_of(Seq::empty(), font) == Seq::<int>::empty(),
        task.soundfont_id == font ==> tasks_of(tasks.push(task), font) == tasks_of(
            tasks,
            font,
        ).push(tasks.len() as int),
        task.soundfont_id != font ==> tasks_of(tasks.push(task), font) == tasks_of(tasks, font),
{
    assert(tasks.push(task).drop_last() =~= tasks);
}

/// Samples are read from two bytes each, under the number that they were read for.
pub proof fn samples_take_two_bytes(
    range: SoundFontSubsetSampleRange,
    data: (u32, Vec<u8>),
    i: int,
)
    requires
        holds_samples(range, data),
        is_even(data),
        0 <= i < range.samples@.len(),
    ensures
        range.sample_id == data.0,
        range.samples@.len() * 2 == data.1@.len(),
        range.samples@[i] == sample_at(data.1@, i),
{
}

/// A plan that was made from an index counts once.
pub proof fn plans_from_an_index_are_counted(
    plans: Seq<(String, SoundFontSubsetPlanDebug)>,
    plan: (String, SoundFontSubsetPlanDebug),
)
    ensures
        index_plans(Seq::empty()) == 0,
        index_plans(plans.push(plan)) == index_plans(plans) + (if plan.1.used_index_json {
            1int
        } else {
            0
        }),
{
    assert(plans.push(plan).drop_last() =~= plans);
}

} // verus!
