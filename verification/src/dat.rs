//! The DAT files of the data folder: which files belong together, and the
//! soundfonts they hold.
use crate::catalog::{SoundFontCatalogEntry, SoundFontCoverage};
use crate::json::optional_text;
use crate::launch::GuiLaunch;
use crate::playback::backend::AudioBackend;
use crate::text::{ascii_lowered, chars_of, decimal, hex, hex_text, join, joined};
use crate::text::{push_decimal, text_eq, texts, to_ascii_lower, zero_padded};
use crate::text_map::TextMap;
use vstd::prelude::*;
use vstd::string::*;

verus! {

/// One entry of the index of a DAT file.
#[derive(Debug)]
pub struct DatRecord {
    pub asset_type: String,
    pub internal_id: String,
    pub display_name: String,
    pub source_format: String,
    pub storage_format: String,
    pub runtime_format: String,
    pub total_size: u64,
    pub flags: u64,
}

/// A soundfont, put together from its parts in the DAT files.
#[derive(Debug)]
pub struct DatFontSummary {
    pub internal_id: String,
    pub display_name: String,
    pub source_format: String,
    pub storage_format: String,
    pub runtime_format: String,
    pub flags: u64,
    pub total_size: u64,
    pub part_count: u64,
    pub files: Vec<String>,
    pub is_default: bool,
    pub coverage_json_available: bool,
    pub coverage: Option<SoundFontCoverage>,
}

/// The contents of a font summary.
pub ghost struct FontView {
    pub internal_id: Seq<char>,
    pub display_name: Seq<char>,
    pub source_format: Seq<char>,
    pub storage_format: Seq<char>,
    pub runtime_format: Seq<char>,
    pub flags: u64,
    pub total_size: u64,
    pub part_count: u64,
    pub files: Seq<Seq<char>>,
    pub is_default: bool,
    pub coverage_json_available: bool,
    pub coverage: Option<SoundFontCoverage>,
}

impl View for DatFontSummary {
    type V = FontView;

    open spec fn view(&self) -> FontView {
        FontView {
            internal_id: self.internal_id@,
            display_name: self.display_name@,
            source_format: self.source_format@,
            storage_format: self.storage_format@,
            runtime_format: self.runtime_format@,
            flags: self.flags,
            total_size: self.total_size,
            part_count: self.part_count,
            files: texts(self.files@),
            is_default: self.is_default,
            coverage_json_available: self.coverage_json_available,
            coverage: self.coverage,
        }
    }
}

/// A soundfont of which no part is added yet.
pub open spec fn unfilled_font(record: DatRecord) -> FontView {
    FontView {
        internal_id: record.internal_id@,
        display_name: record.display_name@,
        source_format: record.source_format@,
        storage_format: record.storage_format@,
        runtime_format: record.runtime_format@,
        flags: 0,
        total_size: 0,
        part_count: 0,
        files: Seq::empty(),
        is_default: false,
        coverage_json_available: false,
        coverage: None,
    }
}

/// A soundfont with one more part: sizes and parts add up, flags accumulate,
/// and a file is listed once for parts that follow each other in it.
pub open spec fn with_part(
    font: FontView,
    record: DatRecord,
    file: Seq<char>,
    default_flag: u64,
) -> FontView {
    FontView {
        flags: font.flags | record.flags,
        total_size: (font.total_size + record.total_size) as u64,
        part_count: (font.part_count + 1) as u64,
        is_default: font.is_default || record.flags & default_flag != 0,
        files: if font.files.len() > 0 && font.files.last() == file {
            font.files
        } else {
            font.files.push(file)
        },
        ..font
    }
}

impl DatFontSummary {
    /// Adds a part that stands in `file`.
    pub fn add_part(&mut self, record: &DatRecord, file: &str, default_flag: u64)
        requires
            old(self).total_size + record.total_size <= u64::MAX,
            old(self).part_count < u64::MAX,
        ensures
            final(self)@ == with_part(old(self)@, *record, file@, default_flag),
    {
        self.flags = self.flags | record.flags;
        self.total_size = self.total_size + record.total_size;
        self.part_count = self.part_count + 1;
        self.is_default = self.is_default || record.flags & default_flag != 0;
        let count: usize = self.files.len();
        let ghost before = self.files@;
        if count == 0 || !text_eq(self.files[count - 1].as_str(), file) {
            let name = file.to_owned();
            self.files.push(name);
            assert(texts(self.files@) =~= texts(before).push(file@));
        }
    }

    /// A soundfont with its first part, which stands in `file`.
    pub fn from_part(record: &DatRecord, file: &str, default_flag: u64) -> (summary: Self)
        ensures
            summary@ == with_part(unfilled_font(*record), *record, file@, default_flag),
    {
        let mut summary = DatFontSummary {
            internal_id: record.internal_id.clone(),
            display_name: record.display_name.clone(),
            source_format: record.source_format.clone(),
            storage_format: record.storage_format.clone(),
            runtime_format: record.runtime_format.clone(),
            flags: 0,
            total_size: 0,
            part_count: 0,
            files: Vec::new(),
            is_default: false,
            coverage_json_available: false,
            coverage: None,
        };
        assert(texts(summary.files@) =~= Seq::<Seq<char>>::empty());
        assert(summary@ == unfilled_font(*record));
        summary.add_part(record, file, default_flag);
        summary
    }
}

/// The soundfonts of a set of DAT files.
pub open spec fn font_views(fonts: Map<Seq<char>, DatFontSummary>) -> Map<Seq<char>, FontView> {
    fonts.map_values(|font: DatFontSummary| font@)
}

/// The soundfonts after the first `n` records of a file.
pub open spec fn fonts_through(
    fonts: Map<Seq<char>, FontView>,
    records: Seq<DatRecord>,
    n: int,
    file: Seq<char>,
    default_flag: u64,
) -> Map<Seq<char>, FontView>
    decreases n,
{
    if n <= 0 {
        fonts
    } else {
        let before = fonts_through(fonts, records, n - 1, file, default_flag);
        let record = records[n - 1];
        let id = record.internal_id@;
        if record.asset_type@ != "soundfont"@ {
            before
        } else if before.contains_key(id) {
            before.insert(id, with_part(before[id], record, file, default_flag))
        } else {
            before.insert(id, with_part(unfilled_font(record), record, file, default_flag))
        }
    }
}

/// Every sum stays inside its machine type while the records are added.
pub open spec fn sums_fit(
    fonts: Map<Seq<char>, FontView>,
    records: Seq<DatRecord>,
    file: Seq<char>,
    default_flag: u64,
) -> bool {
    forall|n: int, id: Seq<char>|
        0 <= n < records.len() && #[trigger] fonts_through(
            fonts,
            records,
            n,
            file,
            default_flag,
        ).contains_key(id) && records[n].internal_id@ == id ==> fonts_through(
            fonts,
            records,
            n,
            file,
            default_flag,
        )[id].total_size + records[n].total_size <= u64::MAX && fonts_through(
            fonts,
            records,
            n,
            file,
            default_flag,
        )[id].part_count < u64::MAX
}

/// Adds the soundfont parts of one DAT file.
pub fn add_dat_records(
    fonts: &mut TextMap<DatFontSummary>,
    records: &[DatRecord],
    file: &str,
    default_flag: u64,
)
    requires
        old(fonts).wf(),
        sums_fit(font_views(old(fonts)@), records@, file@, default_flag),
    ensures
        final(fonts).wf(),
        font_views(final(fonts)@) == fonts_through(
            font_views(old(fonts)@),
            records@,
            records@.len() as int,
            file@,
            default_flag,
        ),
{
    let ghost start = font_views(fonts@);
    let mut i: usize = 0;
    while i < records.len()
        invariant
            i <= records@.len(),
            fonts.wf(),
            sums_fit(start, records@, file@, default_flag),
            font_views(fonts@) == fonts_through(start, records@, i as int, file@, default_flag),
        decreases records@.len() - i,
    {
        let record = &records[i];
        let ghost before = fonts@;
        if text_eq(record.asset_type.as_str(), "soundfont") {
            assert(font_views(before).contains_key(record.internal_id@) == before.contains_key(
                record.internal_id@,
            ));
            let known = fonts.contains_key(record.internal_id.as_str());
            if known {
                match fonts.get_mut(record.internal_id.as_str()) {
                    Some(summary) => {
                        summary.add_part(record, file, default_flag);
                    },
                    None => {},
                }
                assert(font_views(fonts@) =~= font_views(before).insert(
                    record.internal_id@,
                    with_part(
                        font_views(before)[record.internal_id@],
                        *record,
                        file@,
                        default_flag,
                    ),
                ));
            } else {
                let summary = DatFontSummary::from_part(record, file, default_flag);
                let ghost view = summary@;
                fonts.insert(record.internal_id.clone(), summary);
                assert(font_views(fonts@) =~= font_views(before).insert(
                    record.internal_id@,
                    view,
                ));
            }
        }
        i = i + 1;
    }
}

/// Notes what a soundfont can play, if the soundfont is known.
pub fn add_dat_coverage(
    fonts: &mut TextMap<DatFontSummary>,
    soundfont_id: &str,
    coverage: SoundFontCoverage,
)
    requires
        old(fonts).wf(),
    ensures
        final(fonts).wf(),
        font_views(final(fonts)@) == if old(fonts)@.contains_key(soundfont_id@) {
            font_views(old(fonts)@).insert(
                soundfont_id@,
                FontView {
                    coverage_json_available: true,
                    coverage: Some(coverage),
                    ..font_views(old(fonts)@)[soundfont_id@]
                },
            )
        } else {
            font_views(old(fonts)@)
        },
{
    let ghost before = fonts@;
    match fonts.get_mut(soundfont_id) {
        Some(summary) => {
            summary.coverage_json_available = true;
            summary.coverage = Some(coverage);
        },
        None => {},
    }
    proof {
        if before.contains_key(soundfont_id@) {
            assert(font_views(fonts@) =~= font_views(before).insert(
                soundfont_id@,
                FontView {
                    coverage_json_available: true,
                    coverage: Some(coverage),
                    ..font_views(before)[soundfont_id@]
                },
            ));
        }
    }
}

/// The character that ends the prefix of a numbered file.
pub open spec fn last_dash(text: Seq<char>, n: int) -> Option<int>
    decreases n,
{
    if n <= 0 {
        None
    } else if text[n - 1] == '-' {
        Some(n - 1)
    } else {
        last_dash(text, n - 1)
    }
}

/// Whether a text is three decimal digits.
pub open spec fn is_three_digits(text: Seq<char>) -> bool {
    text.len() == 3 && forall|i: int| 0 <= i < 3 ==> '0' <= #[trigger] text[i] <= '9'
}

/// The prefix of a numbered DAT file: what stands before the last dash, if three
/// digits follow it.
pub open spec fn family_prefix(stem: Seq<char>) -> Option<Seq<char>> {
    match last_dash(stem, stem.len() as int) {
        None => None,
        Some(at) => if is_three_digits(stem.skip(at + 1)) {
            Some(stem.take(at))
        } else {
            None
        },
    }
}

/// The extension in lower case.
pub fn normalized_extension(extension: Option<&str>) -> (normalized: Option<String>)
    ensures
        optional_text(normalized) == match extension {
            Some(text) => Some(ascii_lowered(text@)),
            None => None,
        },
{
    match extension {
        Some(text) => Some(to_ascii_lower(text)),
        None => None,
    }
}

/// Whether a file is a DAT file, by its extension.
pub fn is_dat_extension(extension: Option<&str>) -> (dat: bool)
    ensures
        dat == match extension {
            Some(text) => ascii_lowered(text@) == "dat"@,
            None => false,
        },
{
    match extension {
        Some(text) => text_eq(to_ascii_lower(text).as_str(), "dat"),
        None => false,
    }
}

fn three_digits_from(chars: &Vec<char>, at: usize) -> (found: bool)
    requires
        at <= chars@.len(),
    ensures
        found == is_three_digits(chars@.skip(at as int)),
{
    if chars.len() - at != 3 {
        return false;
    }
    let ghost tail = chars@.skip(at as int);
    assert(tail[0] == chars@[at as int] && tail[1] == chars@[at + 1] && tail[2] == chars@[at + 2]);
    let a: char = chars[at];
    let b: char = chars[at + 1];
    let c: char = chars[at + 2];
    '0' <= a && a <= '9' && '0' <= b && b <= '9' && '0' <= c && c <= '9'
}

/// The prefix and extension of the family that a numbered DAT file belongs to,
/// from the stem and the extension of the file.
pub fn numbered_dat_family(stem: Option<&str>, extension: Option<&str>) -> (family: Option<
    (String, String),
>)
    ensures
        match family {
            Some((prefix, ext)) => ext@ == "dat"@ && extension is Some && ascii_lowered(
                extension->Some_0@,
            ) == "dat"@ && stem is Some && family_prefix(stem->Some_0@) == Some(prefix@),
            None => extension is None || ascii_lowered(extension->Some_0@) != "dat"@ || stem is None
                || family_prefix(stem->Some_0@) is None,
        },
{
    let extension = match normalized_extension(extension) {
        Some(extension) => extension,
        None => {
            return None;
        },
    };
    if !text_eq(extension.as_str(), "dat") {
        return None;
    }
    let stem = match stem {
        Some(stem) => stem,
        None => {
            return None;
        },
    };
    let chars = chars_of(stem);
    let mut n: usize = chars.len();
    while n > 0 && chars[n - 1] != '-'
        invariant
            n <= chars@.len(),
            chars@ == stem@,
            last_dash(stem@, stem@.len() as int) == last_dash(stem@, n as int),
        decreases n,
    {
        n = n - 1;
    }
    if n == 0 {
        return None;
    }
    if !three_digits_from(&chars, n) {
        return None;
    }
    let prefix = stem.substring_char(0, n - 1);
    assert(prefix@ =~= stem@.take(n - 1));
    Some((prefix.to_owned(), extension))
}

/// Whether a stem is the family prefix followed by three digits.
pub fn is_numbered_dat_stem(stem: &str, family_prefix: &str) -> (numbered: bool)
    ensures
        numbered == (stem@.len() >= family_prefix@.len() && stem@.take(family_prefix@.len() as int)
            == family_prefix@ && is_three_digits(stem@.skip(family_prefix@.len() as int))),
{
    let chars = chars_of(stem);
    let len: usize = family_prefix.unicode_len();
    if chars.len() < len {
        return false;
    }
    let head = stem.substring_char(0, len);
    assert(head@ =~= stem@.take(len as int));
    text_eq(head, family_prefix) && three_digits_from(&chars, len)
}

proof fn lemma_last_dash_behind(text: Seq<char>, at: int, n: int)
    requires
        0 <= at < n <= text.len(),
        text[at] == '-',
        forall|i: int| at < i < n ==> text[i] != '-',
    ensures
        last_dash(text, n) == Some(at),
    decreases n,
{
    if n - 1 > at {
        lemma_last_dash_behind(text, at, n - 1);
    }
}

/// A stem belongs to the family of a file exactly if it has the same prefix: the
/// members of a family are told apart by their number alone.
pub proof fn family_members_share_their_prefix(stem: Seq<char>, prefix: Seq<char>)
    ensures
        ({
            let family = prefix.push('-');
            (stem.len() >= family.len() && stem.take(family.len() as int) == family
                && is_three_digits(stem.skip(family.len() as int))) == (family_prefix(stem)
                == Some(prefix))
        }),
{
    let family = prefix.push('-');
    if stem.len() >= family.len() && stem.take(family.len() as int) == family && is_three_digits(
        stem.skip(family.len() as int),
    ) {
        let tail = stem.skip(family.len() as int);
        assert(stem[prefix.len() as int] == stem.take(family.len() as int)[prefix.len() as int]);
        assert forall|i: int| prefix.len() < i < stem.len() implies stem[i] != '-' by {
            assert(stem[i] == tail[i - family.len()]);
        }
        lemma_last_dash_behind(stem, prefix.len() as int, stem.len() as int);
        assert(stem.take(prefix.len() as int) =~= prefix) by {
            assert forall|i: int| 0 <= i < prefix.len() implies stem[i] == prefix[i] by {
                assert(stem.take(family.len() as int)[i] == family[i]);
            }
        }
    }
    if family_prefix(stem) == Some(prefix) {
        let at = last_dash(stem, stem.len() as int)->Some_0;
        lemma_last_dash_is_dash(stem, stem.len() as int);
        assert(stem.take(at) == prefix);
        assert(stem.take(family.len() as int) =~= family);
    }
}

proof fn lemma_last_dash_is_dash(text: Seq<char>, n: int)
    requires
        0 <= n <= text.len(),
    ensures
        match last_dash(text, n) {
            Some(at) => 0 <= at < n && text[at] == '-',
            None => true,
        },
    decreases n,
{
    if n > 0 && text[n - 1] != '-' {
        lemma_last_dash_is_dash(text, n - 1);
    }
}

/// The kind of a file, by the bytes it starts with.
#[derive(Debug, Copy, Clone, PartialEq, Eq, Structural)]
pub enum FileKind {
    Fmid,
    Midi,
    Dat,
    Unknown,
}

/// Whether `bytes` starts with `magic`.
pub open spec fn starts_with(bytes: Seq<u8>, magic: Seq<u8>) -> bool {
    bytes.len() >= magic.len() && bytes.take(magic.len() as int) == magic
}

pub fn has_magic(bytes: &[u8], magic: &[u8]) -> (found: bool)
    ensures
        found == starts_with(bytes@, magic@),
{
    if bytes.len() < magic.len() {
        return false;
    }
    let mut i: usize = 0;
    while i < magic.len()
        invariant
            i <= magic@.len() <= bytes@.len(),
            forall|k: int| 0 <= k < i ==> bytes@[k] == magic@[k],
        decreases magic@.len() - i,
    {
        if bytes[i] != magic[i] {
            assert(bytes@.take(magic@.len() as int)[i as int] != magic@[i as int]);
            return false;
        }
        i = i + 1;
    }
    assert(bytes@.take(magic@.len() as int) =~= magic@);
    true
}

/// The kind of a file, given the magic bytes of the two own formats.
pub fn classify_file(bytes: &[u8], fmid_magic: &[u8], dat_magic: &[u8]) -> (kind: FileKind)
    ensures
        kind == if starts_with(bytes@, fmid_magic@) {
            FileKind::Fmid
        } else if starts_with(bytes@, crate::playback::midi_scan::header_tag()) {
            FileKind::Midi
        } else if starts_with(bytes@, dat_magic@) {
            FileKind::Dat
        } else {
            FileKind::Unknown
        },
{
    let midi_magic: [u8; 4] = [0x4d, 0x54, 0x68, 0x64];
    assert(midi_magic@ =~= crate::playback::midi_scan::header_tag());
    if has_magic(bytes, fmid_magic) {
        FileKind::Fmid
    } else if has_magic(bytes, &midi_magic) {
        FileKind::Midi
    } else if has_magic(bytes, dat_magic) {
        FileKind::Dat
    } else {
        FileKind::Unknown
    }
}

/// The lines about one soundfont.
pub open spec fn font_report(font: FontView) -> Seq<char> {
    "\n"@ + font.internal_id + (if font.is_default {
        " [default]"@
    } else {
        ""@
    }) + "\n  display: "@ + font.display_name + "\n  source:  "@ + font.source_format
        + "\n  storage: "@ + font.storage_format + "\n  runtime: "@ + font.runtime_format
        + "\n  bytes:   "@ + decimal(font.total_size as nat) + "\n  parts:   "@ + decimal(
        font.part_count as nat,
    ) + "\n  coverage JSON: "@ + (if font.coverage_json_available {
        "available"@
    } else {
        "unavailable"@
    }) + "\n  files:   "@ + joined(font.files, ", "@) + "\n"@
}

/// The lines about all soundfonts, in the order of their ids.
pub open spec fn fonts_report(fonts: Seq<(String, DatFontSummary)>) -> Seq<char>
    decreases fonts.len(),
{
    if fonts.len() == 0 {
        Seq::empty()
    } else {
        fonts_report(fonts.drop_last()) + font_report(fonts.last().1@)
    }
}

/// The report on a set of DAT files.
pub open spec fn inspect_text(
    files: usize,
    bytes: u64,
    fonts: Seq<(String, DatFontSummary)>,
) -> Seq<char> {
    "DAT files: "@ + decimal(files as nat) + "\nDAT bytes: "@ + decimal(bytes as nat)
        + "\nSoundFonts: "@ + decimal(fonts.len()) + "\n"@ + fonts_report(fonts)
}

fn push_font_report(text: &mut String, font: &DatFontSummary)
    ensures
        final(text)@ == old(text)@ + font_report(font@),
{
    let mut lines = "\n".to_owned();
    lines.append(font.internal_id.as_str());
    if font.is_default {
        lines.append(" [default]");
    } else {
        lines.append("");
    }
    lines.append("\n  display: ");
    lines.append(font.display_name.as_str());
    lines.append("\n  source:  ");
    lines.append(font.source_format.as_str());
    lines.append("\n  storage: ");
    lines.append(font.storage_format.as_str());
    lines.append("\n  runtime: ");
    lines.append(font.runtime_format.as_str());
    lines.append("\n  bytes:   ");
    push_decimal(&mut lines, font.total_size as u128);
    lines.append("\n  parts:   ");
    push_decimal(&mut lines, font.part_count as u128);
    lines.append("\n  coverage JSON: ");
    if font.coverage_json_available {
        lines.append("available");
    } else {
        lines.append("unavailable");
    }
    lines.append("\n  files:   ");
    lines.append(join(&font.files, ", ").as_str());
    lines.append("\n");
    assert(lines@ == font_report(font@));
    text.append(lines.as_str());
}

/// The report on a set of DAT files.
pub fn inspect_dat_report(files: usize, bytes: u64, fonts: &TextMap<DatFontSummary>) -> (text:
    String)
    requires
        fonts.wf(),
    ensures
        text@ == inspect_text(files, bytes, fonts.entries@),
{
    let mut text = "DAT files: ".to_owned();
    push_decimal(&mut text, files as u128);
    text.append("\nDAT bytes: ");
    push_decimal(&mut text, bytes as u128);
    text.append("\nSoundFonts: ");
    push_decimal(&mut text, fonts.entries.len() as u128);
    text.append("\n");
    let ghost head = text@;
    let mut i: usize = 0;
    assert(fonts_report(fonts.entries@.take(0)) =~= Seq::<char>::empty());
    assert(head + fonts_report(fonts.entries@.take(0)) =~= head);
    while i < fonts.entries.len()
        invariant
            i <= fonts.entries@.len(),
            text@ == head + fonts_report(fonts.entries@.take(i as int)),
        decreases fonts.entries@.len() - i,
    {
        let ghost before = fonts.entries@.take(i as int);
        push_font_report(&mut text, &fonts.entries[i].1);
        i = i + 1;
        assert(fonts.entries@.take(i as int).drop_last() =~= before);
        assert(text@ =~= head + fonts_report(fonts.entries@.take(i as int)));
    }
    assert(fonts.entries@.take(i as int) =~= fonts.entries@);
    text
}

/// The line on one entry of a DAT file.
pub open spec fn record_line(record: DatRecord) -> Seq<char> {
    "  "@ + record.internal_id@ + " ("@ + record.display_name@ + ") source="@
        + record.source_format@ + " storage="@ + record.storage_format@ + " runtime="@
        + record.runtime_format@ + " bytes="@ + decimal(record.total_size as nat) + " flags=0x"@
        + zero_padded(hex(record.flags as nat), 16)
}

pub fn dat_record_line(record: &DatRecord) -> (line: String)
    ensures
        line@ == record_line(*record),
{
    let mut line = "  ".to_owned();
    line.append(record.internal_id.as_str());
    line.append(" (");
    line.append(record.display_name.as_str());
    line.append(") source=");
    line.append(record.source_format.as_str());
    line.append(" storage=");
    line.append(record.storage_format.as_str());
    line.append(" runtime=");
    line.append(record.runtime_format.as_str());
    line.append(" bytes=");
    push_decimal(&mut line, record.total_size as u128);
    line.append(" flags=0x");
    line.append(hex_text(record.flags, 16).as_str());
    line
}

/// What is known of the data folder when the program starts.
#[derive(Debug)]
pub enum DatStartupSummary {
    Available { dat_file_count: usize, dat_byte_count: u64, soundfonts: Vec<SoundFontCatalogEntry> },
    Unavailable(String),
}

/// Whether a catalog entry tells what a font summary holds.
pub open spec fn is_entry_of(entry: SoundFontCatalogEntry, font: FontView) -> bool {
    &&& entry.internal_id@ == font.internal_id
    &&& entry.display_name@ == font.display_name
    &&& entry.source_format@ == font.source_format
    &&& entry.storage_format@ == font.storage_format
    &&& entry.runtime_format@ == font.runtime_format
    &&& entry.is_default == font.is_default
    &&& entry.total_size == font.total_size
    &&& entry.part_count == font.part_count
    &&& entry.coverage == font.coverage
}

/// The catalog of the soundfonts, in the order of their ids.
pub fn catalog_from_fonts(fonts: TextMap<DatFontSummary>) -> (catalog: Vec<SoundFontCatalogEntry>)
    requires
        fonts.wf(),
    ensures
        catalog@.len() == fonts.entries@.len(),
        forall|i: int|
            0 <= i < catalog@.len() ==> is_entry_of(
                #[trigger] catalog@[i],
                fonts.entries@[i].1@,
            ),
{
    let ghost all = fonts.entries@;
    let mut reversed: Vec<(String, DatFontSummary)> = Vec::new();
    let mut entries = fonts.entries;
    let mut catalog: Vec<SoundFontCatalogEntry> = Vec::new();
    let mut i: usize = 0;
    let count: usize = entries.len();
    while i < count
        invariant
            i <= count,
            count == all.len(),
            entries@ == all.take(count - i),
            reversed@.len() == i,
            forall|k: int| 0 <= k < i ==> #[trigger] reversed@[k] == all[count - 1 - k],
        decreases count - i,
    {
        match entries.pop() {
            Some(entry) => {
                reversed.push(entry);
            },
            None => {},
        }
        i = i + 1;
        assert(entries@ =~= all.take(count - i));
    }
    let mut n: usize = 0;
    while n < count
        invariant
            n <= count,
            count == all.len(),
            reversed@.len() == count - n,
            forall|k: int| 0 <= k < count - n ==> #[trigger] reversed@[k] == all[count - 1 - k],
            catalog@.len() == n,
            forall|k: int| 0 <= k < n ==> is_entry_of(#[trigger] catalog@[k], all[k].1@),
        decreases count - n,
    {
        match reversed.pop() {
            Some((_, font)) => {
                assert(font == all[n as int].1);
                catalog.push(
                    SoundFontCatalogEntry {
                        internal_id: font.internal_id,
                        display_name: font.display_name,
                        source_format: font.source_format,
                        storage_format: font.storage_format,
                        runtime_format: font.runtime_format,
                        is_default: font.is_default,
                        total_size: font.total_size,
                        part_count: font.part_count,
                        coverage: font.coverage,
                    },
                );
            },
            None => {},
        }
        n = n + 1;
    }
    catalog
}

/// The line that sums up the data folder.
pub open spec fn startup_line(summary: DatStartupSummary) -> Seq<char> {
    match summary {
        DatStartupSummary::Available { dat_file_count, dat_byte_count, soundfonts } => decimal(
            dat_file_count as nat,
        ) + " DAT file(s), "@ + decimal(dat_byte_count as nat) + " byte(s), "@ + decimal(
            soundfonts@.len(),
        ) + " soundfont(s)"@,
        DatStartupSummary::Unavailable(message) => message@,
    }
}

/// The status with which the player starts.
pub open spec fn startup_status(summary: DatStartupSummary) -> Seq<char> {
    match summary {
        DatStartupSummary::Available { soundfonts, .. } => if soundfonts@.len() == 0 {
            "No bundled soundfonts found in data folder"@
        } else {
            "Ready"@
        },
        DatStartupSummary::Unavailable(message) => message@,
    }
}

impl DatStartupSummary {
    pub fn data_summary(&self) -> (text: String)
        ensures
            text@ == startup_line(*self),
    {
        match self {
            DatStartupSummary::Available { dat_file_count, dat_byte_count, soundfonts } => {
                let mut text = crate::text::decimal_text(*dat_file_count as u128);
                text.append(" DAT file(s), ");
                push_decimal(&mut text, *dat_byte_count as u128);
                text.append(" byte(s), ");
                push_decimal(&mut text, soundfonts.len() as u128);
                text.append(" soundfont(s)");
                text
            },
            DatStartupSummary::Unavailable(message) => message.clone(),
        }
    }

    pub fn status(&self) -> (text: String)
        ensures
            text@ == startup_status(*self),
    {
        match self {
            DatStartupSummary::Available { soundfonts, .. } => if soundfonts.len() == 0 {
                "No bundled soundfonts found in data folder".to_owned()
            } else {
                "Ready".to_owned()
            },
            DatStartupSummary::Unavailable(message) => message.clone(),
        }
    }
}

/// The settings and the data with which the player starts.
#[derive(Debug)]
pub struct AppStartupConfig {
    pub data_dir: String,
    pub dat_summary: DatStartupSummary,
    pub audio_backend: AudioBackend,
    pub debug_memory: bool,
    pub debug_latency: bool,
    pub debug_analyzer: bool,
    pub debug_render_errors: bool,
    pub launch_open_path: Option<String>,
}

/// Puts a start together. Where the data folder could not be read, `summary` is
/// the error message, and the player starts without soundfonts.
pub fn startup_config(launch: GuiLaunch, summary: Result<DatStartupSummary, String>) -> (config:
    AppStartupConfig)
    ensures
        config == (AppStartupConfig {
            data_dir: launch.data_dir,
            dat_summary: match summary {
                Ok(summary) => summary,
                Err(message) => DatStartupSummary::Unavailable(message),
            },
            audio_backend: launch.audio_backend,
            debug_memory: launch.debug_memory,
            debug_latency: launch.debug_latency,
            debug_analyzer: launch.debug_analyzer,
            debug_render_errors: launch.debug_render_errors,
            launch_open_path: launch.launch_open_path,
        }),
{
    let dat_summary = match summary {
        Ok(summary) => summary,
        Err(message) => DatStartupSummary::Unavailable(message),
    };
    AppStartupConfig {
        data_dir: launch.data_dir,
        dat_summary,
        audio_backend: launch.audio_backend,
        debug_memory: launch.debug_memory,
        debug_latency: launch.debug_latency,
        debug_analyzer: launch.debug_analyzer,
        debug_render_errors: launch.debug_render_errors,
        launch_open_path: launch.launch_open_path,
    }
}

/// How much the soundfont records of an id add up to, among the first `n`.
pub open spec fn bytes_of_font(records: Seq<DatRecord>, id: Seq<char>, n: int) -> nat
    decreases n,
{
    if n <= 0 {
        0
    } else {
        bytes_of_font(records, id, n - 1) + if records[n - 1].asset_type@ == "soundfont"@
            && records[n - 1].internal_id@ == id {
            records[n - 1].total_size as nat
        } else {
            0
        }
    }
}

/// A soundfont of a DAT file is listed with the sizes of its records added up, and as the
/// default one if one of them is flagged so. Records of other kinds and of other soundfonts
/// do not count.
pub proof fn records_of_a_soundfont_add_up(
    records: Seq<DatRecord>,
    n: int,
    file: Seq<char>,
    default_flag: u64,
    id: Seq<char>,
)
    requires
        0 <= n <= records.len(),
        bytes_of_font(records, id, n) <= u64::MAX,
        n <= u64::MAX,
    ensures
        ({
            let fonts = fonts_through(Map::empty(), records, n, file, default_flag);
            let mine = |i: int|
                0 <= i < n && records[i].asset_type@ == "soundfont"@ && records[i].internal_id@
                    == id;
            &&& fonts.contains_key(id) == (exists|i: int| #[trigger] mine(i))
            &&& fonts.contains_key(id) ==> {
                &&& fonts[id].total_size == bytes_of_font(records, id, n)
                &&& fonts[id].part_count <= n
                &&& fonts[id].internal_id == id
                &&& fonts[id].is_default == (exists|i: int| #[trigger]
                    mine(i) && records[i].flags & default_flag != 0)
                &&& fonts[id].files == seq![file]
            }
        }),
    decreases n,
{
    let fonts = fonts_through(Map::empty(), records, n, file, default_flag);
    let mine = |i: int|
        0 <= i < n && records[i].asset_type@ == "soundfont"@ && records[i].internal_id@ == id;
    if n > 0 {
        records_of_a_soundfont_add_up(records, n - 1, file, default_flag, id);
        let before = fonts_through(Map::empty(), records, n - 1, file, default_flag);
        let earlier = |i: int|
            0 <= i < n - 1 && records[i].asset_type@ == "soundfont"@ && records[i].internal_id@
                == id;
        let record = records[n - 1];
        if exists|i: int| #[trigger] earlier(i) {
            let i = choose|i: int| #[trigger] earlier(i);
            assert(mine(i));
        }
        if exists|i: int| #[trigger] earlier(i) && records[i].flags & default_flag != 0 {
            let i = choose|i: int| #[trigger] earlier(i) && records[i].flags & default_flag != 0;
            assert(mine(i));
        }
        if record.asset_type@ == "soundfont"@ && record.internal_id@ == id {
            assert(mine(n - 1));
            if !before.contains_key(id) {
                assert forall|i: int| 0 <= i < n - 1 implies !((#[trigger] records[i]).asset_type@
                    == "soundfont"@ && records[i].internal_id@ == id) by {
                    assert(!earlier(i));
                }
                lemma_no_bytes(records, id, n - 1);
                assert(fonts[id].files =~= seq![file]);
            } else {
                assert(before[id].files.last() == file);
            }
        }
        assert forall|i: int| #[trigger] mine(i) implies earlier(i) || i == n - 1 by {
        }
        if exists|i: int| #[trigger] mine(i) && records[i].flags & default_flag != 0 {
            let i = choose|i: int| #[trigger] mine(i) && records[i].flags & default_flag != 0;
            assert(earlier(i) || i == n - 1);
        }
        if exists|i: int| #[trigger] mine(i) {
            let i = choose|i: int| #[trigger] mine(i);
            assert(earlier(i) || i == n - 1);
        }
    } else {
        assert(!fonts.contains_key(id));
        if exists|i: int| #[trigger] mine(i) {
            let i = choose|i: int| #[trigger] mine(i);
        }
    }
}

proof fn lemma_no_bytes(records: Seq<DatRecord>, id: Seq<char>, n: int)
    requires
        0 <= n <= records.len(),
        forall|i: int|
            0 <= i < n ==> !((#[trigger] records[i]).asset_type@ == "soundfont"@
                && records[i].internal_id@ == id),
    ensures
        bytes_of_font(records, id, n) == 0,
    decreases n,
{
    if n > 0 {
        lemma_no_bytes(records, id, n - 1);
    }
}

/// A numbered file is named after its family, a dash and three digits; what follows the
/// last dash has to be just these.
pub proof fn numbered_files_name_their_family(prefix: Seq<char>, number: Seq<char>)
    requires
        number.len() == 3,
        forall|i: int| 0 <= i < 3 ==> '0' <= #[trigger] number[i] <= '9',
    ensures
        family_prefix(prefix.push('-') + number) == Some(prefix),
        !prefix.contains('-') ==> family_prefix(prefix) is None,
{
    let stem = prefix.push('-') + number;
    family_members_share_their_prefix(stem, prefix);
    assert(stem.take(prefix.len() as int + 1) =~= prefix.push('-'));
    assert(stem.skip(prefix.len() as int + 1) =~= number);
    if !prefix.contains('-') {
        lemma_no_dash(prefix, prefix.len() as int);
    }
}

proof fn lemma_no_dash(text: Seq<char>, n: int)
    requires
        0 <= n <= text.len(),
        !text.contains('-'),
    ensures
        last_dash(text, n) is None,
    decreases n,
{
    if n > 0 {
        assert(text[n - 1] != '-');
        lemma_no_dash(text, n - 1);
    }
}

/// A catalog entry says of its soundfont what the DAT files say, and the player is ready
/// where there is a soundfont.
pub proof fn entries_say_what_the_files_say(
    entry: SoundFontCatalogEntry,
    font: FontView,
    summary: DatStartupSummary,
)
    requires
        is_entry_of(entry, font),
    ensures
        entry.internal_id@ == font.internal_id,
        entry.display_name@ == font.display_name,
        entry.source_format@ == font.source_format,
        entry.storage_format@ == font.storage_format,
        entry.runtime_format@ == font.runtime_format,
        entry.is_default == font.is_default,
        entry.total_size == font.total_size,
        entry.part_count == font.part_count,
        entry.coverage == font.coverage,
        summary is Available && summary->soundfonts@.len() > 0 ==> startup_status(summary)
            == "Ready"@,
        summary is Available && summary->soundfonts@.len() == 0 ==> startup_status(summary)
            == "No bundled soundfonts found in data folder"@,
        summary is Unavailable ==> startup_status(summary) == summary->Unavailable_0@
            && startup_line(summary) == summary->Unavailable_0@,
{
}

} // verus!
