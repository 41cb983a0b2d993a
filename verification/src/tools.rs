//! The console tools: which DAT files a path stands for, and what is printed on a
//! file, on the data folder and on a test of playback.
use crate::dat::{catalog_from_fonts, dat_record_line, family_prefix, is_dat_extension, is_entry_of};
use crate::dat::{is_numbered_dat_stem, is_three_digits, numbered_dat_family, record_line};
use crate::dat::{DatFontSummary, DatRecord, DatStartupSummary, FileKind};
use crate::error::{ErrorKind, FlutzError};
use crate::json::{optional_text, truth};
use crate::memory_runtime::MemoryRuntimeSnapshot;
use crate::playback::controller::RenderProbeReport;
use crate::text::{ascii_lowered, decimal, is_text_before, lemma_text_before_total};
use crate::text::{lemma_text_before_transitive, push_decimal, text_before};
use crate::text_map::TextMap;
use vstd::prelude::*;
use vstd::string::*;

verus! {

/// The parts of a file's name.
#[derive(Debug)]
pub struct FileNames {
    pub name: String,
    pub stem: Option<String>,
    pub extension: Option<String>,
}

/// Whether a file is a DAT file, and one of a numbered family if one is given.
pub open spec fn is_wanted_file(file: FileNames, family: Option<Seq<char>>) -> bool {
    &&& match file.extension {
        Some(extension) => ascii_lowered(extension@) == "dat"@,
        None => false,
    }
    &&& match family {
        Some(prefix) => match file.stem {
            Some(stem) => is_member(stem@, prefix),
            None => false,
        },
        None => true,
    }
}

/// Whether a stem is a family's prefix, a dash and three digits.
pub open spec fn is_member(stem: Seq<char>, prefix: Seq<char>) -> bool {
    let head = prefix + "-"@;
    stem.len() >= head.len() && stem.take(head.len() as int) == head && is_three_digits(
        stem.skip(head.len() as int),
    )
}

fn is_wanted(file: &FileNames, family: &Option<String>) -> (wanted: bool)
    ensures
        wanted == is_wanted_file(*file, optional_text(*family)),
{
    let dat = match &file.extension {
        Some(extension) => is_dat_extension(Some(extension.as_str())),
        None => false,
    };
    if !dat {
        return false;
    }
    match family {
        Some(prefix) => match &file.stem {
            Some(stem) => {
                let mut head = prefix.clone();
                head.append("-");
                is_numbered_dat_stem(stem.as_str(), head.as_str())
            },
            None => false,
        },
        None => true,
    }
}

/// Whether positions list the wanted files, each once, sorted by their names.
pub open spec fn lists_files(
    order: Seq<usize>,
    files: Seq<FileNames>,
    family: Option<Seq<char>>,
) -> bool {
    &&& order.no_duplicates()
    &&& forall|i: int|
        0 <= i < order.len() ==> (#[trigger] order[i]) < files.len() && is_wanted_file(
            files[order[i] as int],
            family,
        )
    &&& forall|p: int|
        0 <= p < files.len() && is_wanted_file(#[trigger] files[p], family) ==> order.contains(
            p as usize,
        )
    &&& forall|i: int, j: int|
        0 <= i < j < order.len() ==> !text_before(
            files[(#[trigger] order[j]) as int].name@,
            files[(#[trigger] order[i]) as int].name@,
        )
}

fn insert_file(order: &mut Vec<usize>, files: &[FileNames], position: usize)
    requires
        position < files@.len(),
        old(order)@.no_duplicates(),
        forall|i: int| 0 <= i < old(order)@.len() ==> (#[trigger] old(order)@[i]) < position,
        forall|i: int, j: int|
            0 <= i < j < old(order)@.len() ==> !text_before(
                files@[(#[trigger] old(order)@[j]) as int].name@,
                files@[(#[trigger] old(order)@[i]) as int].name@,
            ),
    ensures
        final(order)@.no_duplicates(),
        forall|p: usize| #[trigger]
            final(order)@.contains(p) == (p == position || old(order)@.contains(p)),
        forall|i: int|
            0 <= i < final(order)@.len() ==> (#[trigger] final(order)@[i]) < position + 1,
        forall|i: int, j: int|
            0 <= i < j < final(order)@.len() ==> !text_before(
                files@[(#[trigger] final(order)@[j]) as int].name@,
                files@[(#[trigger] final(order)@[i]) as int].name@,
            ),
{
    let ghost before = order@;
    let ghost name = files@[position as int].name@;
    let mut at: usize = order.len();
    while at > 0 && is_text_before(
        files[position].name.as_str(),
        files[order[at - 1]].name.as_str(),
    )
        invariant
            at <= order@.len(),
            order@ == before,
            position < files@.len(),
            name == files@[position as int].name@,
            forall|i: int| 0 <= i < before.len() ==> (#[trigger] before[i]) < position,
            forall|i: int|
                at <= i < before.len() ==> text_before(
                    name,
                    files@[(#[trigger] before[i]) as int].name@,
                ),
        decreases at,
    {
        at = at - 1;
    }
    order.insert(at, position);
    proof {
        let after = order@;
        assert(after =~= before.insert(at as int, position));
        assert forall|i: int| 0 <= i < at implies !text_before(
            name,
            files@[(#[trigger] before[i]) as int].name@,
        ) by {
            if text_before(name, files@[before[i] as int].name@) && i < at - 1 {
                let a = files@[before[i] as int].name@;
                let b = files@[before[at - 1] as int].name@;
                assert(!text_before(b, a));
                lemma_text_before_total(a, b);
                if text_before(a, b) {
                    lemma_text_before_transitive(name, a, b);
                }
            }
        }
        assert forall|i: int| at <= i < before.len() implies !text_before(
            files@[(#[trigger] before[i]) as int].name@,
            name,
        ) by {
            lemma_text_before_total(name, files@[before[i] as int].name@);
        }
        assert forall|i: int, j: int| 0 <= i < j < after.len() implies !text_before(
            files@[(#[trigger] after[j]) as int].name@,
            files@[(#[trigger] after[i]) as int].name@,
        ) by {
            let a = if i < at {
                i
            } else {
                i - 1
            };
            let b = if j < at {
                j
            } else {
                j - 1
            };
            if i == at {
                assert(after[j] == before[j - 1]);
            } else if j == at {
                assert(after[i] == before[i]);
            } else {
                assert(after[i] == before[a]);
                assert(after[j] == before[b]);
            }
        }
        assert forall|p: usize| #[trigger] after.contains(p) == (p == position || before.contains(
            p,
        )) by {
            assert(after[at as int] == position);
            if before.contains(p) {
                let k = choose|k: int| 0 <= k < before.len() && before[k] == p;
                if k < at {
                    assert(after[k] == p);
                } else {
                    assert(after[k + 1] == p);
                }
            }
            if after.contains(p) && p != position {
                let k = choose|k: int| 0 <= k < after.len() && after[k] == p;
                if k < at {
                    assert(before[k] == p);
                } else {
                    assert(before[k - 1] == p);
                }
            }
        }
        assert(after.no_duplicates()) by {
            assert forall|i: int, j: int| 0 <= i < j < after.len() implies after[i] != after[j] by {
                let a = if i < at {
                    i
                } else {
                    i - 1
                };
                let b = if j < at {
                    j
                } else {
                    j - 1
                };
                if i != at && j != at {
                    assert(before[a] != before[b]);
                } else if i == at {
                    assert(before[b] < position);
                } else {
                    assert(before[a] < position);
                }
            }
        }
    }
}

/// What a path stands for.
#[derive(Debug)]
pub enum DatSource {
    /// The DAT files of the folder.
    Folder,
    /// The DAT files of a numbered family, beside the path, with the prefix of the family.
    Family(String),
    /// The file itself.
    File,
}

/// What a path stands for, given whether it leads to a folder, its stem and its extension.
pub fn dat_source(is_folder: bool, stem: Option<&str>, extension: Option<&str>) -> (source:
    DatSource)
    ensures
        match source {
            DatSource::Folder => is_folder,
            DatSource::Family(prefix) => !is_folder && extension is Some && ascii_lowered(
                extension->Some_0@,
            ) == "dat"@ && stem is Some && family_prefix(stem->Some_0@) == Some(prefix@),
            DatSource::File => !is_folder && (extension is None || ascii_lowered(
                extension->Some_0@,
            ) != "dat"@ || stem is None || family_prefix(stem->Some_0@) is None),
        },
{
    if is_folder {
        return DatSource::Folder;
    }
    match numbered_dat_family(stem, extension) {
        Some((prefix, _)) => DatSource::Family(prefix),
        None => DatSource::File,
    }
}

/// The bytes of DAT files with one more file.
pub fn add_dat_bytes(total_bytes: u64, length: u64) -> (total: u64)
    requires
        total_bytes + length <= u64::MAX,
    ensures
        total == total_bytes + length,
{
    total_bytes + length
}

/// The DAT files of a folder, sorted by their names: all of them, or those of a
/// numbered family. `input` is the path that stands for them.
pub fn collect_dat_paths(input: &str, files: &[FileNames], family: &Option<String>) -> (paths: Result<
    Vec<usize>,
    FlutzError,
>)
    ensures
        match paths {
            Ok(order) => order@.len() > 0 && lists_files(
                order@,
                files@,
                optional_text(*family),
            ),
            Err(error) => {
                &&& forall|p: int|
                    0 <= p < files@.len() ==> !is_wanted_file(
                        #[trigger] files@[p],
                        optional_text(*family),
                    )
                &&& error@ == (ErrorKind::InvalidInput, "no DAT files found in "@ + input@)
            },
        },
{
    let ghost prefix = optional_text(*family);
    let mut order: Vec<usize> = Vec::new();
    let mut i: usize = 0;
    while i < files.len()
        invariant
            i <= files@.len(),
            prefix == optional_text(*family),
            order@.no_duplicates(),
            forall|k: int| 0 <= k < order@.len() ==> (#[trigger] order@[k]) < i,
            forall|p: usize| #[trigger]
                order@.contains(p) == (p < i && is_wanted_file(files@[p as int], prefix)),
            forall|a: int, b: int|
                0 <= a < b < order@.len() ==> !text_before(
                    files@[(#[trigger] order@[b]) as int].name@,
                    files@[(#[trigger] order@[a]) as int].name@,
                ),
        decreases files@.len() - i,
    {
        if is_wanted(&files[i], family) {
            insert_file(&mut order, files, i);
        }
        i = i + 1;
    }
    if order.len() == 0 {
        let mut text = "no DAT files found in ".to_owned();
        text.append(input);
        proof {
            assert forall|p: int| 0 <= p < files@.len() implies !is_wanted_file(
                #[trigger] files@[p],
                prefix,
            ) by {
                assert(order@.contains(p as usize) == is_wanted_file(files@[p], prefix));
            }
        }
        return Err(FlutzError::InvalidInput(text));
    }
    proof {
        assert forall|k: int| 0 <= k < order@.len() implies (#[trigger] order@[k]) < files@.len()
            && is_wanted_file(files@[order@[k] as int], prefix) by {
            assert(order@.contains(order@[k]));
        }
        assert forall|p: int|
            0 <= p < files@.len() && is_wanted_file(
                #[trigger] files@[p],
                prefix,
            ) implies order@.contains(p as usize) by {
            assert(order@.contains(p as usize) == is_wanted_file(files@[p], prefix));
        }
    }
    Ok(order)
}

/// What is known of the data folder: that it is not there, or what its files hold.
pub fn summarize_dat_data_dir(
    found: bool,
    data_dir: &str,
    dat_file_count: usize,
    dat_byte_count: u64,
    fonts: TextMap<DatFontSummary>,
) -> (summary: DatStartupSummary)
    requires
        fonts.wf(),
    ensures
        if found {
            match summary {
                DatStartupSummary::Available {
                    dat_file_count: files,
                    dat_byte_count: bytes,
                    soundfonts,
                } => {
                    &&& files == dat_file_count
                    &&& bytes == dat_byte_count
                    &&& soundfonts@.len() == fonts.entries@.len()
                    &&& forall|i: int|
                        0 <= i < soundfonts@.len() ==> is_entry_of(
                            #[trigger] soundfonts@[i],
                            fonts.entries@[i].1@,
                        )
                },
                DatStartupSummary::Unavailable(_) => false,
            }
        } else {
            match summary {
                DatStartupSummary::Unavailable(message) => message@ == "data folder not found: "@
                    + data_dir@,
                _ => false,
            }
        },
{
    if !found {
        let mut message = "data folder not found: ".to_owned();
        message.append(data_dir);
        return DatStartupSummary::Unavailable(message);
    }
    DatStartupSummary::Available {
        dat_file_count,
        dat_byte_count,
        soundfonts: catalog_from_fonts(fonts),
    }
}

/// What was found out about a file that is verified.
#[derive(Debug)]
pub struct VerifiedFile {
    pub kind: FileKind,
    pub byte_len: usize,
    pub chunk_size: u64,
    pub chunk_count: usize,
    pub records: Vec<DatRecord>,
}

/// The lines on the entries of a DAT file.
pub open spec fn record_lines(records: Seq<DatRecord>) -> Seq<char>
    decreases records.len(),
{
    if records.len() == 0 {
        Seq::empty()
    } else {
        record_lines(records.drop_last()) + (record_line(records.last()) + "\n"@)
    }
}

/// The report on a file that is verified.
pub open spec fn verify_text(path: Seq<char>, file: VerifiedFile) -> Seq<char> {
    match file.kind {
        FileKind::Fmid => path + ": FMID container magic OK\nbytes: "@ + decimal(
            file.byte_len as nat,
        ) + "\n"@,
        FileKind::Midi => path + ": standard MIDI file OK\nbytes: "@ + decimal(file.byte_len as nat)
            + "\n"@,
        _ => path + ": DAT archive magic and index OK\nbytes: "@ + decimal(file.byte_len as nat)
            + "\nchunk_size: "@ + decimal(file.chunk_size as nat) + "\nentries: "@ + decimal(
            file.records@.len(),
        ) + "\nchunks: "@ + decimal(file.chunk_count as nat) + "\n"@ + record_lines(file.records@),
    }
}

/// The report on a file that is verified. A file of no known kind is refused.
pub fn verify_report(path: &str, file: &VerifiedFile) -> (report: Result<String, FlutzError>)
    ensures
        match report {
            Ok(text) => file.kind != FileKind::Unknown && text@ == verify_text(path@, *file),
            Err(error) => file.kind == FileKind::Unknown && error@ == (
                ErrorKind::InvalidInput,
                path@ + " is not recognized as FMID, MIDI, or DAT"@,
            ),
        },
{
    let mut text = path.to_owned();
    match file.kind {
        FileKind::Fmid => {
            text.append(": FMID container magic OK\nbytes: ");
            push_decimal(&mut text, file.byte_len as u128);
            text.append("\n");
            Ok(text)
        },
        FileKind::Midi => {
            text.append(": standard MIDI file OK\nbytes: ");
            push_decimal(&mut text, file.byte_len as u128);
            text.append("\n");
            Ok(text)
        },
        FileKind::Dat => {
            let lines = lines_of_records(file.records.as_slice());
            text.append(": DAT archive magic and index OK\nbytes: ");
            push_decimal(&mut text, file.byte_len as u128);
            text.append("\nchunk_size: ");
            push_decimal(&mut text, file.chunk_size as u128);
            text.append("\nentries: ");
            push_decimal(&mut text, file.records.len() as u128);
            text.append("\nchunks: ");
            push_decimal(&mut text, file.chunk_count as u128);
            text.append("\n");
            text.append(lines.as_str());
            Ok(text)
        },
        FileKind::Unknown => {
            text.append(" is not recognized as FMID, MIDI, or DAT");
            Err(FlutzError::InvalidInput(text))
        },
    }
}

fn lines_of_records(records: &[DatRecord]) -> (lines: String)
    ensures
        lines@ == record_lines(records@),
{
    let mut lines = String::new();
    let mut i: usize = 0;
    assert(records@.take(0) =~= Seq::<DatRecord>::empty());
    while i < records.len()
        invariant
            i <= records@.len(),
            lines@ == record_lines(records@.take(i as int)),
        decreases records@.len() - i,
    {
        assert(records@.take(i + 1).drop_last() =~= records@.take(i as int));
        let mut line = dat_record_line(&records[i]);
        line.append("\n");
        lines.append(line.as_str());
        i = i + 1;
    }
    assert(records@.take(i as int) =~= records@);
    lines
}

/// The report on a test of playback. `peak` is a number with six decimals.
pub open spec fn playback_check_text(
    path: Seq<char>,
    message: Seq<char>,
    probe: RenderProbeReport,
    peak: Seq<char>,
) -> Seq<char> {
    path + ": playback check OK\n"@ + message + "\nrender_frames: "@ + decimal(probe.frames as nat)
        + "\nrender_samples: "@ + decimal(probe.samples as nat) + "\nsoundfonts: "@ + decimal(
        probe.soundfont_count as nat,
    ) + "\nmidi_strips: "@ + decimal(probe.midi_strip_count as nat) + "\npeak: "@ + peak
        + "\nrecovered_render_errors: "@ + decimal(probe.recovered_error_count as nat) + "\n"@
}

pub fn playback_check_report(path: &str, message: &str, probe: &RenderProbeReport, peak: &str) -> (text:
    String)
    ensures
        text@ == playback_check_text(path@, message@, *probe, peak@),
{
    let mut text = path.to_owned();
    text.append(": playback check OK\n");
    text.append(message);
    text.append("\nrender_frames: ");
    push_decimal(&mut text, probe.frames as u128);
    text.append("\nrender_samples: ");
    push_decimal(&mut text, probe.samples as u128);
    text.append("\nsoundfonts: ");
    push_decimal(&mut text, probe.soundfont_count as u128);
    text.append("\nmidi_strips: ");
    push_decimal(&mut text, probe.midi_strip_count as u128);
    text.append("\npeak: ");
    text.append(peak);
    text.append("\nrecovered_render_errors: ");
    push_decimal(&mut text, probe.recovered_error_count as u128);
    text.append("\n");
    text
}

/// The error of a test of playback without soundfonts.
pub fn playback_check_failure(summary: &DatStartupSummary) -> (failure: Option<FlutzError>)
    ensures
        match summary {
            DatStartupSummary::Available { .. } => failure is None,
            DatStartupSummary::Unavailable(message) => failure is Some && failure->Some_0@ == (
                ErrorKind::InvalidInput,
                "DAT data is unavailable: "@ + message@,
            ),
        },
{
    match summary {
        DatStartupSummary::Available { .. } => None,
        DatStartupSummary::Unavailable(message) => {
            let mut text = "DAT data is unavailable: ".to_owned();
            text.append(message.as_str());
            Some(FlutzError::InvalidInput(text))
        },
    }
}

/// A numbered DAT file is among the files of its own family.
pub proof fn numbered_file_is_in_its_family(file: FileNames, prefix: Seq<char>)
    requires
        file.stem is Some,
        file.extension is Some,
        ascii_lowered(file.extension->Some_0@) == "dat"@,
        family_prefix(file.stem->Some_0@) == Some(prefix),
    ensures
        is_wanted_file(file, Some(prefix)),
{
    reveal_strlit("-");
    assert(prefix + "-"@ =~= prefix.push('-'));
    crate::dat::family_members_share_their_prefix(file.stem->Some_0@, prefix);
}

/// What the player finds around it.
#[derive(Debug)]
pub struct DebugEnvironment {
    pub current_dir: String,
    pub current_exe: String,
    pub data_dir: String,
    pub data_dir_exists: bool,
    pub stdout_terminal: bool,
    pub stderr_terminal: bool,
    pub launched_from_terminal: bool,
    /// The parent process and the number of console processes, each if it is known,
    /// on platforms that tell.
    pub processes: Option<(Option<String>, Option<u32>)>,
    pub target_os: String,
    pub target_arch: String,
    pub audio_backend_env: Option<String>,
}

/// A text, or a word for one that is missing.
pub open spec fn or_word(text: Option<Seq<char>>, word: Seq<char>) -> Seq<char> {
    match text {
        Some(text) => text,
        None => word,
    }
}

/// The lines on the processes around the player.
pub open spec fn process_lines(processes: Option<(Option<String>, Option<u32>)>) -> Seq<char> {
    match processes {
        Some((parent, count)) => "parent_process: "@ + or_word(
            optional_text(parent),
            "<unknown>"@,
        ) + "\nconsole_process_count: "@ + (match count {
            Some(count) => decimal(count as nat),
            None => "<unknown>"@,
        }) + "\n"@,
        None => Seq::empty(),
    }
}

/// The lines on the folders and terminals around the player.
pub open spec fn place_lines(environment: DebugEnvironment) -> Seq<char> {
    "flutzplayer debug environment\ncurrent_dir: "@ + environment.current_dir@
        + "\ncurrent_exe: "@ + environment.current_exe@ + "\ndata_dir: "@ + environment.data_dir@
        + "\ndata_dir_exists: "@ + truth(environment.data_dir_exists) + "\nstdout_terminal: "@
        + truth(environment.stdout_terminal) + "\nstderr_terminal: "@ + truth(
        environment.stderr_terminal,
    ) + "\nlaunched_from_terminal: "@ + truth(environment.launched_from_terminal) + "\n"@
}

/// The lines on the platform and on memory.
pub open spec fn platform_lines(environment: DebugEnvironment, memory: MemoryRuntimeSnapshot) -> Seq<
    char,
> {
    "target_os: "@ + environment.target_os@ + "\ntarget_arch: "@ + environment.target_arch@
        + "\naudio_backend_env: "@ + or_word(
        optional_text(environment.audio_backend_env),
        "<unset>"@,
    ) + "\nmemory_allocator: "@ + memory.allocator@ + "\nmemory_enabled: "@ + truth(
        memory.enabled,
    ) + "\nmemory_config: "@ + memory.config_summary@ + "\nmemory_stats_available: "@ + truth(
        memory.totals.available,
    ) + "\nmemory_resident_bytes: "@ + decimal(memory.totals.resident_bytes as nat)
        + "\nmemory_retained_bytes: "@ + decimal(memory.totals.retained_bytes as nat) + "\n"@
}

fn append_truth(text: &mut String, value: bool)
    ensures
        final(text)@ == old(text)@ + truth(value),
{
    if value {
        text.append("true");
    } else {
        text.append("false");
    }
}

fn append_or_word(text: &mut String, value: &Option<String>, word: &str)
    ensures
        final(text)@ == old(text)@ + or_word(optional_text(*value), word@),
{
    match value {
        Some(value) => text.append(value.as_str()),
        None => text.append(word),
    }
}

fn write_places(environment: &DebugEnvironment) -> (text: String)
    ensures
        text@ == place_lines(*environment),
{
    let mut text = "flutzplayer debug environment\ncurrent_dir: ".to_owned();
    text.append(environment.current_dir.as_str());
    text.append("\ncurrent_exe: ");
    text.append(environment.current_exe.as_str());
    text.append("\ndata_dir: ");
    text.append(environment.data_dir.as_str());
    text.append("\ndata_dir_exists: ");
    append_truth(&mut text, environment.data_dir_exists);
    text.append("\nstdout_terminal: ");
    append_truth(&mut text, environment.stdout_terminal);
    text.append("\nstderr_terminal: ");
    append_truth(&mut text, environment.stderr_terminal);
    text.append("\nlaunched_from_terminal: ");
    append_truth(&mut text, environment.launched_from_terminal);
    text.append("\n");
    text
}

fn write_processes(processes: &Option<(Option<String>, Option<u32>)>) -> (text: String)
    ensures
        text@ == process_lines(*processes),
{
    let mut text = String::new();
    match processes {
        Some((parent, count)) => {
            text = "parent_process: ".to_owned();
            append_or_word(&mut text, parent, "<unknown>");
            text.append("\nconsole_process_count: ");
            match count {
                Some(count) => push_decimal(&mut text, *count as u128),
                None => text.append("<unknown>"),
            }
            text.append("\n");
        },
        None => {},
    }
    text
}

fn write_platform(environment: &DebugEnvironment, memory: &MemoryRuntimeSnapshot) -> (text: String)
    ensures
        text@ == platform_lines(*environment, *memory),
{
    let mut text = "target_os: ".to_owned();
    text.append(environment.target_os.as_str());
    text.append("\ntarget_arch: ");
    text.append(environment.target_arch.as_str());
    text.append("\naudio_backend_env: ");
    append_or_word(&mut text, &environment.audio_backend_env, "<unset>");
    text.append("\nmemory_allocator: ");
    text.append(memory.allocator);
    text.append("\nmemory_enabled: ");
    append_truth(&mut text, memory.enabled);
    text.append("\nmemory_config: ");
    text.append(memory.config_summary.as_str());
    text.append("\nmemory_stats_available: ");
    append_truth(&mut text, memory.totals.available);
    text.append("\nmemory_resident_bytes: ");
    push_decimal(&mut text, memory.totals.resident_bytes as u128);
    text.append("\nmemory_retained_bytes: ");
    push_decimal(&mut text, memory.totals.retained_bytes as u128);
    text.append("\n");
    text
}

/// What is printed on what the player finds around it.
pub fn debug_environment_report(environment: &DebugEnvironment, memory: &MemoryRuntimeSnapshot) -> (
text: String)
    ensures
        text@ == place_lines(*environment) + process_lines(environment.processes) + platform_lines(
            *environment,
            *memory,
        ),
{
    let mut text = write_places(environment);
    let processes = write_processes(&environment.processes);
    text.append(processes.as_str());
    let platform = write_platform(environment, memory);
    text.append(platform.as_str());
    text
}

/// The name under which a file is loaded for a test of playback.
pub fn playback_input_name(file_name: Option<&str>) -> (name: String)
    ensures
        name@ == match file_name {
            Some(file_name) => file_name@,
            None => "playback-check.mid"@,
        },
{
    match file_name {
        Some(file_name) => file_name.to_owned(),
        None => "playback-check.mid".to_owned(),
    }
}

/// A file is inspected by its extension alone where no family is asked for; of a family only
/// the files that are named after it with a dash and three digits are.
pub proof fn files_are_wanted_by_their_names(
    file: FileNames,
    prefix: Seq<char>,
    number: Seq<char>,
)
    ensures
        is_wanted_file(file, None) <==> file.extension is Some && ascii_lowered(
            file.extension->Some_0@,
        ) == "dat"@,
        is_wanted_file(file, Some(prefix)) ==> is_wanted_file(file, None),
        number.len() == 3 && (forall|i: int| 0 <= i < 3 ==> '0' <= #[trigger] number[i] <= '9')
            ==> is_member(prefix.push('-') + number, prefix),
        !is_member(prefix, prefix),
{
    reveal_strlit("-");
    let head = prefix + "-"@;
    assert(head =~= prefix.push('-'));
    let stem = prefix.push('-') + number;
    assert(stem.take(head.len() as int) =~= head);
    assert(stem.skip(head.len() as int) =~= number);
}

/// Every wanted file is listed, once, and nothing else is.
pub proof fn every_wanted_file_is_listed(
    order: Seq<usize>,
    files: Seq<FileNames>,
    family: Option<Seq<char>>,
    p: int,
)
    requires
        lists_files(order, files, family),
        0 <= p < files.len() <= usize::MAX,
    ensures
        order.contains(p as usize) <==> is_wanted_file(files[p], family),
        order.no_duplicates(),
{
    if order.contains(p as usize) {
        let i = choose|i: int| 0 <= i < order.len() && order[i] == p as usize;
        assert(is_wanted_file(files[order[i] as int], family));
    }
}

} // verus!
