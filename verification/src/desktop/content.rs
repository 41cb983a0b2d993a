//! What is loaded: its kind, how files are opened and saved, and their names.
use crate::desktop::metadata::{is_blank, is_blank_text};
use crate::error::{ErrorKind, FlutzError};
use crate::text::{ascii_lowered, eq_ignoring_ascii_case, text_before, text_eq, texts};
use crate::text::to_ascii_lower;
use crate::text::{trim, trim_leading, trim_trailing, trimmed, without_leading, without_trailing};
use crate::text_map::TextMap;
use vstd::prelude::*;
use vstd::string::*;

verus! {

/// The kind of a file.
#[derive(Debug, Copy, Clone, PartialEq, Eq, Structural)]
pub enum ContentKind {
    Midi,
    Fmid,
    DecodedAudio,
    DecodedAudioWrapper,
}

/// How the sound of a file can be worked on.
#[derive(Debug, Copy, Clone, PartialEq, Eq, Structural)]
pub enum MasteringCapability {
    Nothing,
    MidiMastering,
    DecodedAudioPeq,
}

/// A file format that can be opened.
#[derive(Debug)]
pub struct FormatDescriptor {
    pub id: String,
    pub friendly_name: String,
    pub content_kind: ContentKind,
    pub mastering: MasteringCapability,
    pub extensions: Vec<String>,
    pub wrapped_extensions: Vec<String>,
}

/// What is loaded.
#[derive(Debug)]
pub struct LoadedContentState {
    pub kind: ContentKind,
    pub format_id: String,
    pub friendly_name: String,
    pub mastering: MasteringCapability,
    pub wrapped_extension: Option<String>,
    pub decoded_source_path: Option<String>,
}

/// Whether what is loaded is decoded audio.
pub open spec fn is_decoded(content: Option<LoadedContentState>) -> bool {
    match content {
        Some(content) => content.mastering == MasteringCapability::DecodedAudioPeq,
        None => false,
    }
}

pub fn is_decoded_content(content: &Option<LoadedContentState>) -> (decoded: bool)
    ensures
        decoded == is_decoded(*content),
{
    match content {
        Some(content) => content.mastering == MasteringCapability::DecodedAudioPeq,
        None => false,
    }
}

/// Whether a kind is measured in sample frames.
pub open spec fn counts_frames(kind: Option<ContentKind>) -> bool {
    kind == Some(ContentKind::DecodedAudio) || kind == Some(ContentKind::DecodedAudioWrapper)
}

/// The unit of positions.
pub fn transport_unit_label(kind: Option<ContentKind>) -> (label: &'static str)
    ensures
        label@ == if counts_frames(kind) {
            "sample-frames"@
        } else {
            "ticks"@
        },
{
    match kind {
        Some(ContentKind::DecodedAudio) => "sample-frames",
        Some(ContentKind::DecodedAudioWrapper) => "sample-frames",
        Some(ContentKind::Midi) => "ticks",
        Some(ContentKind::Fmid) => "ticks",
        None => "ticks",
    }
}

/// The mark before positions.
pub fn transport_unit_prefix(kind: Option<ContentKind>) -> (prefix: &'static str)
    ensures
        prefix@ == if counts_frames(kind) {
            "f:"@
        } else {
            "t:"@
        },
{
    match kind {
        Some(ContentKind::DecodedAudio) => "f:",
        Some(ContentKind::DecodedAudioWrapper) => "f:",
        Some(ContentKind::Midi) => "t:",
        Some(ContentKind::Fmid) => "t:",
        None => "t:",
    }
}

/// What is known of the format of a file.
#[derive(Debug, Copy, Clone, PartialEq, Eq, Structural)]
pub struct FormatFacts {
    pub content_kind: ContentKind,
    pub mastering: MasteringCapability,
}

/// How a file is opened.
#[derive(Debug, Copy, Clone, PartialEq, Eq, Structural)]
pub enum OpenAction {
    Playlist,
    Fmid,
    Midi,
    DecodedAudio,
    Unsupported,
}

/// How a file of a known format is opened.
pub open spec fn action_for_format(format: Option<FormatFacts>) -> OpenAction {
    match format {
        Some(format) => if format.content_kind == ContentKind::Fmid {
            OpenAction::Fmid
        } else if format.content_kind == ContentKind::Midi {
            OpenAction::Midi
        } else if format.mastering == MasteringCapability::DecodedAudioPeq {
            OpenAction::DecodedAudio
        } else {
            OpenAction::Unsupported
        },
        None => OpenAction::Unsupported,
    }
}

fn format_action(format: Option<FormatFacts>) -> (action: OpenAction)
    ensures
        action == action_for_format(format),
{
    match format {
        Some(format) => match format.content_kind {
            ContentKind::Fmid => OpenAction::Fmid,
            ContentKind::Midi => OpenAction::Midi,
            _ => if format.mastering == MasteringCapability::DecodedAudioPeq {
                OpenAction::DecodedAudio
            } else {
                OpenAction::Unsupported
            },
        },
        None => OpenAction::Unsupported,
    }
}

/// How a file is opened, by its extension and its format, if that is known. A file
/// without an extension is taken for a MIDI file.
pub open spec fn opened_as(extension: Option<Seq<char>>, format: Option<FormatFacts>) -> OpenAction {
    match extension {
        Some(extension) => if ascii_lowered(extension) == "fplist"@ {
            OpenAction::Playlist
        } else {
            action_for_format(format)
        },
        None => OpenAction::Midi,
    }
}

pub fn open_action(extension: Option<&str>, format: Option<FormatFacts>) -> (action: OpenAction)
    ensures
        action == opened_as(
            match extension {
                Some(extension) => Some(extension@),
                None => None,
            },
            format,
        ),
{
    match extension {
        Some(extension) => if text_eq(to_ascii_lower(extension).as_str(), "fplist") {
            OpenAction::Playlist
        } else {
            format_action(format)
        },
        None => OpenAction::Midi,
    }
}

/// How an entry of a playlist is opened, by whether it has an extension and by its
/// format.
pub fn playlist_entry_action(has_extension: bool, format: Option<FormatFacts>) -> (action:
    OpenAction)
    ensures
        action == if has_extension {
            action_for_format(format)
        } else {
            OpenAction::Unsupported
        },
{
    if has_extension {
        format_action(format)
    } else {
        OpenAction::Unsupported
    }
}

/// Whether an extension is among some, whatever the case of its letters.
pub open spec fn has_extension(extensions: Seq<String>, extension: Seq<char>) -> bool {
    exists|i: int|
        0 <= i < extensions.len() && ascii_lowered((#[trigger] extensions[i])@) == ascii_lowered(
            extension,
        )
}

/// Whether a file is an audio wrapper, by its extension.
pub fn is_wrapped_file(extension: Option<&str>, wrapped_extensions: &[String]) -> (wrapped: bool)
    ensures
        wrapped == match extension {
            Some(extension) => has_extension(wrapped_extensions@, extension@),
            None => false,
        },
{
    match extension {
        Some(extension) => contains_extension(wrapped_extensions, extension),
        None => false,
    }
}

fn contains_extension(extensions: &[String], extension: &str) -> (found: bool)
    ensures
        found == has_extension(extensions@, extension@),
{
    let mut i: usize = 0;
    while i < extensions.len()
        invariant
            i <= extensions@.len(),
            forall|k: int|
                0 <= k < i ==> ascii_lowered((#[trigger] extensions@[k])@) != ascii_lowered(
                    extension@,
                ),
        decreases extensions@.len() - i,
    {
        if eq_ignoring_ascii_case(extensions[i].as_str(), extension) {
            assert(ascii_lowered(extensions@[i as int]@) == ascii_lowered(extension@));
            return true;
        }
        i = i + 1;
    }
    false
}

/// The state of decoded audio that was loaded.
pub fn decoded_content_state(descriptor: &FormatDescriptor, is_wrapped: bool, path: &str) -> (content:
    LoadedContentState)
    ensures
        content.kind == if is_wrapped {
            ContentKind::DecodedAudioWrapper
        } else {
            ContentKind::DecodedAudio
        },
        content.format_id@ == descriptor.id@,
        content.friendly_name@ == descriptor.friendly_name@,
        content.mastering == descriptor.mastering,
        crate::json::optional_text(content.wrapped_extension) == if descriptor.wrapped_extensions@.len()
            > 0 {
            Some(descriptor.wrapped_extensions@[0]@)
        } else {
            None
        },
        crate::json::optional_text(content.decoded_source_path) == if is_wrapped {
            None
        } else {
            Some(path@)
        },
{
    LoadedContentState {
        kind: if is_wrapped {
            ContentKind::DecodedAudioWrapper
        } else {
            ContentKind::DecodedAudio
        },
        format_id: descriptor.id.clone(),
        friendly_name: descriptor.friendly_name.clone(),
        mastering: descriptor.mastering,
        wrapped_extension: if descriptor.wrapped_extensions.len() > 0 {
            Some(descriptor.wrapped_extensions[0].clone())
        } else {
            None
        },
        decoded_source_path: if is_wrapped {
            None
        } else {
            Some(path.to_owned())
        },
    }
}

/// The state of a MIDI file that was loaded, or of an FMID file.
pub fn midi_content_state(fmid: bool) -> (content: LoadedContentState)
    ensures
        content.kind == if fmid {
            ContentKind::Fmid
        } else {
            ContentKind::Midi
        },
        content.format_id@ == if fmid {
            "fmid"@
        } else {
            "midi"@
        },
        content.friendly_name@ == if fmid {
            "Flutz MIDI project"@
        } else {
            "MIDI sequence"@
        },
        content.mastering == MasteringCapability::MidiMastering,
        crate::json::optional_text(content.wrapped_extension) == Some("fmid"@),
        content.decoded_source_path is None,
{
    let (kind, format_id, friendly_name) = if fmid {
        (ContentKind::Fmid, "fmid".to_owned(), "Flutz MIDI project".to_owned())
    } else {
        (ContentKind::Midi, "midi".to_owned(), "MIDI sequence".to_owned())
    };
    LoadedContentState {
        kind,
        format_id,
        friendly_name,
        mastering: MasteringCapability::MidiMastering,
        wrapped_extension: Some("fmid".to_owned()),
        decoded_source_path: None,
    }
}

/// The extension of the wrappers of what is loaded, without a dot.
pub open spec fn wrapper_extension(content: LoadedContentState) -> Seq<char> {
    without_leading(
        match content.wrapped_extension {
            Some(extension) => extension@,
            None => "faudio"@,
        },
        '.',
    )
}

fn extension_of_wrapper(content: &LoadedContentState) -> (extension: &str)
    ensures
        extension@ == wrapper_extension(*content),
{
    match &content.wrapped_extension {
        Some(extension) => trim_leading(extension.as_str(), '.'),
        None => trim_leading("faudio", '.'),
    }
}

/// What the user is told where decoded audio is saved under another extension.
pub open spec fn wrong_extension_text(extension: Seq<char>) -> Seq<char> {
    "decoded audio projects must be saved as ."@ + extension + " wrapper files"@
}

fn wrong_extension(extension: &str) -> (error: FlutzError)
    ensures
        error@ == (ErrorKind::InvalidInput, wrong_extension_text(extension@)),
{
    let mut text = "decoded audio projects must be saved as .".to_owned();
    text.append(extension);
    text.append(" wrapper files");
    FlutzError::InvalidInput(text)
}

/// Why decoded audio cannot be saved under a path.
pub open spec fn save_refusal(
    content: LoadedContentState,
    extension: Option<Seq<char>>,
    path: Seq<char>,
    is_source: bool,
) -> Option<Seq<char>> {
    let wrapper = wrapper_extension(content);
    match extension {
        None => Some(wrong_extension_text(wrapper)),
        Some(extension) => if ascii_lowered(wrapper) != ascii_lowered(extension) {
            Some(wrong_extension_text(wrapper))
        } else if content.decoded_source_path is Some && is_source {
            Some(
                "cannot overwrite the active decoded source "@ + path
                    + "; save to a different ."@ + wrapper + " wrapper path"@,
            )
        } else {
            None
        },
    }
}

/// Whether decoded audio can be saved under a path with the given extension.
/// `is_source` says whether the path is that of the audio that is loaded. Other
/// projects can be saved anywhere.
pub fn validate_decoded_wrapper_save_path(
    content: &Option<LoadedContentState>,
    extension: Option<&str>,
    path: &str,
    is_source: bool,
) -> (allowed: Result<(), FlutzError>)
    ensures
        match content {
            Some(content) => if content.mastering == MasteringCapability::DecodedAudioPeq {
                let refusal = save_refusal(
                    *content,
                    match extension {
                        Some(extension) => Some(extension@),
                        None => None,
                    },
                    path@,
                    is_source,
                );
                match allowed {
                    Ok(_) => refusal is None,
                    Err(error) => refusal is Some && error@ == (
                        ErrorKind::InvalidInput,
                        refusal->Some_0,
                    ),
                }
            } else {
                allowed is Ok
            },
            None => allowed is Ok,
        },
{
    let content = match content {
        Some(content) => content,
        None => {
            return Ok(());
        },
    };
    if content.mastering != MasteringCapability::DecodedAudioPeq {
        return Ok(());
    }
    let wrapper = extension_of_wrapper(content);
    let extension = match extension {
        Some(extension) => extension,
        None => {
            return Err(wrong_extension(wrapper));
        },
    };
    if !eq_ignoring_ascii_case(wrapper, extension) {
        return Err(wrong_extension(wrapper));
    }
    if content.decoded_source_path.is_some() && is_source {
        let mut text = "cannot overwrite the active decoded source ".to_owned();
        text.append(path);
        text.append("; save to a different .");
        text.append(wrapper);
        text.append(" wrapper path");
        return Err(FlutzError::InvalidInput(text));
    }
    Ok(())
}

/// The source of decoded audio is never overwritten, and decoded audio is only saved
/// as a wrapper.
pub proof fn decoded_source_is_never_overwritten(
    content: LoadedContentState,
    extension: Option<Seq<char>>,
    path: Seq<char>,
)
    ensures
        content.decoded_source_path is Some ==> save_refusal(content, extension, path, true) is Some,
        save_refusal(content, extension, path, false) is None ==> extension is Some
            && ascii_lowered(extension->Some_0) == ascii_lowered(wrapper_extension(content)),
{
}

/// As what a project is saved.
#[derive(Debug, Copy, Clone, PartialEq, Eq, Structural)]
pub enum SaveTarget {
    /// As an audio wrapper.
    Wrapper,
    /// As an FMID file.
    Fmid,
}

/// As what a project is saved under a path. Decoded audio is saved as a wrapper, if the
/// path will do, and everything else as an FMID file.
pub fn save_project_to_path(
    content: &Option<LoadedContentState>,
    extension: Option<&str>,
    path: &str,
    is_source: bool,
) -> (target: Result<SaveTarget, FlutzError>)
    ensures
        if is_decoded(*content) {
            let refusal = save_refusal(
                content->Some_0,
                match extension {
                    Some(extension) => Some(extension@),
                    None => None,
                },
                path@,
                is_source,
            );
            match target {
                Ok(target) => refusal is None && target == SaveTarget::Wrapper,
                Err(error) => refusal is Some && error@ == (
                    ErrorKind::InvalidInput,
                    refusal->Some_0,
                ),
            }
        } else {
            target == Ok::<SaveTarget, FlutzError>(SaveTarget::Fmid)
        },
{
    if !is_decoded_content(content) {
        return Ok(SaveTarget::Fmid);
    }
    match validate_decoded_wrapper_save_path(content, extension, path, is_source) {
        Ok(_) => Ok(SaveTarget::Wrapper),
        Err(error) => Err(error),
    }
}

/// Whether a project can be saved under the path it came from: as an FMID file, or
/// as a wrapper of the loaded audio.
pub open spec fn saves_in_place(
    content: Option<LoadedContentState>,
    extension: Option<Seq<char>>,
) -> bool {
    match extension {
        None => false,
        Some(extension) => ascii_lowered(extension) == ascii_lowered("fmid"@) || match content {
            Some(content) => content.mastering == MasteringCapability::DecodedAudioPeq
                && match content.wrapped_extension {
                Some(wrapped) => ascii_lowered(wrapped@) == ascii_lowered(extension),
                None => false,
            },
            None => false,
        },
    }
}

pub fn can_save_project_to_existing_path(
    content: &Option<LoadedContentState>,
    extension: Option<&str>,
) -> (can: bool)
    ensures
        can == saves_in_place(
            *content,
            match extension {
                Some(extension) => Some(extension@),
                None => None,
            },
        ),
{
    let extension = match extension {
        Some(extension) => extension,
        None => {
            return false;
        },
    };
    if eq_ignoring_ascii_case(extension, "fmid") {
        return true;
    }
    match content {
        Some(content) => content.mastering == MasteringCapability::DecodedAudioPeq
            && match &content.wrapped_extension {
            Some(wrapped) => eq_ignoring_ascii_case(wrapped.as_str(), extension),
            None => false,
        },
        None => false,
    }
}

/// What stands behind the last slash of a text, or all of it.
pub open spec fn last_part(path: Seq<char>) -> Seq<char>
    decreases path.len(),
{
    if path.len() == 0 || path.last() == '/' {
        Seq::empty()
    } else {
        last_part(path.drop_last()).push(path.last())
    }
}

/// A path without what stands behind its last part: slashes, and parts that are a dot.
pub open spec fn without_empty_end(path: Seq<char>) -> Seq<char>
    decreases path.len(),
{
    if path.len() > 0 && path.last() == '/' {
        without_empty_end(path.drop_last())
    } else if path.len() > 1 && path.last() == '.' && path[path.len() - 2] == '/' {
        without_empty_end(path.drop_last())
    } else {
        path
    }
}

/// Whether a path falls into its parts in the same way on every platform: a slash
/// separates parts everywhere, but a backslash, a colon behind the first character and two
/// slashes at the start mean something on some platforms only.
pub open spec fn is_portable(path: Seq<char>) -> bool {
    &&& !path.contains('\\')
    &&& !(path.len() > 1 && path[1] == ':')
    &&& !(path.len() > 1 && path[0] == '/' && path[1] == '/')
}

/// The place of the last dot, or -1.
pub open spec fn last_dot(name: Seq<char>) -> int
    decreases name.len(),
{
    if name.len() == 0 || name.last() == '.' {
        name.len() - 1
    } else {
        last_dot(name.drop_last())
    }
}

/// The stem of the last part of a path: what stands before its last dot, or the whole part
/// where no dot stands behind its first character. There is none of an empty part, of `.`
/// and of `..`.
pub open spec fn stem_of_name(name: Seq<char>) -> Option<Seq<char>> {
    if name.len() == 0 || name == seq!['.'] || name == seq!['.', '.'] {
        None
    } else if last_dot(name) <= 0 {
        Some(name)
    } else {
        Some(name.take(last_dot(name)))
    }
}

/// Whether a stem can be that of a path. For paths that platforms read in different ways
/// this is left open.
pub open spec fn may_be_stem(path: Seq<char>, stem: Option<Seq<char>>) -> bool {
    is_portable(path) ==> stem == stem_of_name(last_part(without_empty_end(path)))
}

/// The stem of a path with `Path::file_stem`, where it has one that is Unicode.
///
/// Trusted: slashes at the end, and parts that are a dot, do not count. Of the part behind
/// the last slash that is left the stem is what stands before the last dot, or all of it
/// where it holds no dot or only one at its start. There is none where nothing is left,
/// and none of `.` and `..`. Nothing is claimed of a path with a backslash, with a colon
/// behind its first character or with two slashes at its start, which platforms read in
/// different ways.
#[verifier::external_body]
pub(crate) fn file_stem(path: &str) -> (stem: Option<String>)
    ensures
        may_be_stem(path@, crate::json::optional_text(stem)),
{
    std::path::Path::new(path).file_stem().and_then(|stem| stem.to_str()).map(
        |stem| stem.to_owned(),
    )
}

/// The stem of a file name for a title: that of the title taken as a path, where it
/// has one, without dots at its end.
pub open spec fn title_stem(title: Seq<char>, stem: Option<Seq<char>>) -> Seq<char> {
    without_trailing(
        match stem {
            Some(stem) => if is_blank(stem) {
                trimmed(title)
            } else {
                stem
            },
            None => trimmed(title),
        },
        '.',
    )
}

/// The stem of a file name for a title whose own stem is given.
pub fn stem_for_title(title: &str, stem: &Option<String>) -> (name: String)
    ensures
        name@ == title_stem(title@, crate::json::optional_text(*stem)),
{
    match stem {
        Some(stem) => if !is_blank_text(stem.as_str()) {
            return trim_trailing(stem.as_str(), '.').to_owned();
        },
        None => {},
    }
    trim_trailing(trim(title), '.').to_owned()
}

/// The name under which an FMID file is saved first.
pub fn default_fmid_file_name(project_title: &str) -> (name: String)
    ensures
        exists|stem: Option<Seq<char>>|
            may_be_stem(trimmed(project_title@), stem) && name@ == #[trigger] title_stem(
                project_title@,
                stem,
            ) + ".fmid"@,
{
    let stem = file_stem(trim(project_title));
    let mut name = stem_for_title(project_title, &stem);
    name.append(".fmid");
    assert(name@ == title_stem(project_title@, crate::json::optional_text(stem)) + ".fmid"@);
    name
}

/// The name under which an audio wrapper is saved first.
pub fn default_wrapped_audio_file_name(project_title: &str, extension: &str) -> (name: String)
    ensures
        exists|stem: Option<Seq<char>>|
            may_be_stem(trimmed(project_title@), stem) && name@ == #[trigger] title_stem(
                project_title@,
                stem,
            ) + "."@ + extension@,
{
    let stem = file_stem(trim(project_title));
    let mut name = stem_for_title(project_title, &stem);
    name.append(".");
    name.append(extension);
    assert(name@ == title_stem(project_title@, crate::json::optional_text(stem)) + "."@
        + extension@);
    name
}

/// A stem that can stand alone, for a title whose own stem is given.
pub open spec fn sanitized_stem(title: Seq<char>, stem: Option<Seq<char>>) -> Seq<char> {
    if title_stem(title, stem).len() == 0 {
        "peq-preset"@
    } else {
        title_stem(title, stem)
    }
}

pub fn sanitized_stem_for_title(title: &str, stem: &Option<String>) -> (name: String)
    ensures
        name@ == sanitized_stem(title@, crate::json::optional_text(*stem)),
{
    let name = stem_for_title(title, stem);
    if name.as_str().unicode_len() == 0 {
        "peq-preset".to_owned()
    } else {
        name
    }
}

/// The stem under which an equalizer preset is saved first.
pub fn sanitize_file_stem(project_title: &str) -> (name: String)
    ensures
        exists|stem: Option<Seq<char>>|
            may_be_stem(trimmed(project_title@), stem) && name@ == #[trigger] sanitized_stem(
                project_title@,
                stem,
            ),
        name@.len() > 0,
{
    let stem = file_stem(trim(project_title));
    let name = sanitized_stem_for_title(project_title, &stem);
    proof {
        reveal_strlit("peq-preset");
        assert(name@ == sanitized_stem(project_title@, crate::json::optional_text(stem)));
    }
    name
}

/// What the dialog for saving offers: the name of the filter, the extensions and the
/// name of the file.
#[derive(Debug)]
pub struct SaveDialog {
    pub filter_name: String,
    pub extensions: Vec<String>,
    pub default_name: String,
}

/// What the dialog for saving offers for a title whose own stem is given.
pub fn save_as_dialog(
    content: &Option<LoadedContentState>,
    project_title: &str,
    stem: &Option<String>,
) -> (dialog: SaveDialog)
    ensures
        match *content {
            Some(content) if content.mastering == MasteringCapability::DecodedAudioPeq => {
                &&& dialog.filter_name@ == "Flutz "@ + content.friendly_name@ + " wrapper"@
                &&& texts(dialog.extensions@) == seq![wrapper_extension(content)]
                &&& dialog.default_name@ == title_stem(
                    project_title@,
                    crate::json::optional_text(*stem),
                ) + "."@ + wrapper_extension(content)
            },
            _ => {
                &&& dialog.filter_name@ == "FMID files"@
                &&& texts(dialog.extensions@) == seq!["fmid"@]
                &&& dialog.default_name@ == title_stem(
                    project_title@,
                    crate::json::optional_text(*stem),
                ) + ".fmid"@
            },
        },
{
    let mut default_name = stem_for_title(project_title, stem);
    let mut extensions: Vec<String> = Vec::new();
    match content {
        Some(content) => if content.mastering == MasteringCapability::DecodedAudioPeq {
            let extension = extension_of_wrapper(content);
            let mut filter_name = "Flutz ".to_owned();
            filter_name.append(content.friendly_name.as_str());
            filter_name.append(" wrapper");
            extensions.push(extension.to_owned());
            default_name.append(".");
            default_name.append(extension);
            assert(texts(extensions@) =~= seq![wrapper_extension(*content)]);
            return SaveDialog { filter_name, extensions, default_name };
        },
        None => {},
    }
    extensions.push("fmid".to_owned());
    default_name.append(".fmid");
    assert(texts(extensions@) =~= seq!["fmid"@]);
    SaveDialog { filter_name: "FMID files".to_owned(), extensions, default_name }
}

/// What the dialog for saving offers.
pub fn save_as_dialog_spec(content: &Option<LoadedContentState>, project_title: &str) -> (dialog:
    SaveDialog)
    ensures
        dialog.filter_name@ == (match *content {
            Some(content) if content.mastering == MasteringCapability::DecodedAudioPeq => "Flutz "@
                + content.friendly_name@ + " wrapper"@,
            _ => "FMID files"@,
        }),
        texts(dialog.extensions@) == (match *content {
            Some(content) if content.mastering == MasteringCapability::DecodedAudioPeq => seq![
                wrapper_extension(content),
            ],
            _ => seq!["fmid"@],
        }),
        exists|stem: Option<Seq<char>>|
            may_be_stem(trimmed(project_title@), stem) && dialog.default_name@
                == #[trigger] title_stem(project_title@, stem) + (match *content {
                Some(content) if content.mastering == MasteringCapability::DecodedAudioPeq => "."@
                    + wrapper_extension(content),
                _ => ".fmid"@,
            }),
{
    let stem = file_stem(trim(project_title));
    let dialog = save_as_dialog(content, project_title, &stem);
    proof {
        let name = title_stem(project_title@, crate::json::optional_text(stem));
        if is_decoded(*content) {
            assert(name + "."@ + wrapper_extension(content->Some_0) =~= name + ("."@
                + wrapper_extension(content->Some_0)));
        }
    }
    dialog
}

/// Texts in order, none of them twice.
pub open spec fn ascending_texts(list: Seq<Seq<char>>) -> bool {
    forall|i: int, j: int|
        0 <= i < j < list.len() ==> text_before(#[trigger] list[i], #[trigger] list[j])
}

fn insert_texts(set: &mut TextMap<bool>, list: &[String])
    requires
        old(set).wf(),
    ensures
        final(set).wf(),
        forall|text: Seq<char>| #[trigger]
            final(set)@.contains_key(text) == (old(set)@.contains_key(text) || texts(
                list@,
            ).contains(text)),
{
    let ghost before = set@;
    let mut i: usize = 0;
    while i < list.len()
        invariant
            i <= list@.len(),
            set.wf(),
            forall|text: Seq<char>| #[trigger]
                set@.contains_key(text) == (before.contains_key(text) || texts(list@).take(
                    i as int,
                ).contains(text)),
        decreases list@.len() - i,
    {
        let ghost shown = set@;
        set.insert(list[i].clone(), true);
        proof {
            let all = texts(list@);
            assert forall|text: Seq<char>| #[trigger]
                set@.contains_key(text) == (before.contains_key(text) || all.take(
                    i + 1,
                ).contains(text)) by {
                if all.take(i as int).contains(text) {
                    let k = choose|k: int| 0 <= k < i && all.take(i as int)[k] == text;
                    assert(all.take(i + 1)[k] == text);
                }
                assert(all.take(i + 1)[i as int] == list@[i as int]@);
                if all.take(i + 1).contains(text) && text != list@[i as int]@ {
                    let k = choose|k: int| 0 <= k < i + 1 && #[trigger] all.take(i + 1)[k] == text;
                    assert(all.take(i as int)[k] == text);
                }
            }
        }
        i = i + 1;
    }
    assert(texts(list@).take(i as int) =~= texts(list@));
}

/// Whether an extension belongs to one of the formats.
pub open spec fn is_format_extension(formats: Seq<FormatDescriptor>, extension: Seq<char>) -> bool {
    exists|i: int|
        0 <= i < formats.len() && (texts((#[trigger] formats[i]).extensions@).contains(extension)
            || texts(formats[i].wrapped_extensions@).contains(extension))
}

fn keys_of(set: TextMap<bool>) -> (keys: Vec<String>)
    requires
        set.wf(),
    ensures
        ascending_texts(texts(keys@)),
        forall|text: Seq<char>| #[trigger] texts(keys@).contains(text) == set@.contains_key(text),
{
    let mut keys: Vec<String> = Vec::new();
    let mut i: usize = 0;
    while i < set.entries.len()
        invariant
            i <= set.entries@.len(),
            keys@.len() == i,
            forall|k: int| 0 <= k < i ==> (#[trigger] keys@[k])@ == set.entries@[k].0@,
        decreases set.entries@.len() - i,
    {
        keys.push(set.entries[i].0.clone());
        i = i + 1;
    }
    proof {
        let list = texts(keys@);
        assert forall|a: int, b: int| 0 <= a < b < list.len() implies text_before(
            #[trigger] list[a],
            #[trigger] list[b],
        ) by {
            assert(text_before(set.entries@[a].0@, set.entries@[b].0@));
        }
        crate::text_map::lemma_ascending_is_distinct(set.entries@);
        crate::text_map::lemma_map_of(set.entries@);
        assert forall|text: Seq<char>| #[trigger] list.contains(text) == set@.contains_key(text) by {
            if list.contains(text) {
                let k = choose|k: int| 0 <= k < list.len() && list[k] == text;
                assert(set@.contains_key(set.entries@[k].0@));
            }
            if set@.contains_key(text) {
                let k = choose|k: int|
                    0 <= k < set.entries@.len() && (#[trigger] set.entries@[k]).0@ == text;
                assert(list[k] == text);
            }
        }
    }
    keys
}

fn format_extensions(formats: &[FormatDescriptor]) -> (set: TextMap<bool>)
    ensures
        set.wf(),
        forall|text: Seq<char>| #[trigger]
            set@.contains_key(text) == is_format_extension(formats@, text),
{
    let mut set: TextMap<bool> = TextMap::new();
    let mut i: usize = 0;
    while i < formats.len()
        invariant
            i <= formats@.len(),
            set.wf(),
            forall|text: Seq<char>| #[trigger]
                set@.contains_key(text) == is_format_extension(formats@.take(i as int), text),
        decreases formats@.len() - i,
    {
        insert_texts(&mut set, formats[i].extensions.as_slice());
        insert_texts(&mut set, formats[i].wrapped_extensions.as_slice());
        proof {
            let shorter = formats@.take(i as int);
            let longer = formats@.take(i + 1);
            let last = formats@[i as int];
            assert forall|text: Seq<char>| #[trigger]
                set@.contains_key(text) == is_format_extension(longer, text) by {
                if is_format_extension(shorter, text) {
                    let k = choose|k: int|
                        0 <= k < shorter.len() && (texts(
                            (#[trigger] shorter[k]).extensions@,
                        ).contains(text) || texts(shorter[k].wrapped_extensions@).contains(text));
                    assert(longer[k] == shorter[k]);
                }
                assert(longer[i as int] == last);
                if is_format_extension(longer, text) && !(texts(last.extensions@).contains(text)
                    || texts(last.wrapped_extensions@).contains(text)) {
                    let k = choose|k: int|
                        0 <= k < longer.len() && (texts(
                            (#[trigger] longer[k]).extensions@,
                        ).contains(text) || texts(longer[k].wrapped_extensions@).contains(text));
                    assert(shorter[k] == longer[k]);
                }
            }
        }
        i = i + 1;
    }
    assert(formats@.take(i as int) =~= formats@);
    set
}

/// The extensions of all formats, in order and each once.
pub fn playlist_dialog_extensions(formats: &[FormatDescriptor]) -> (extensions: Vec<String>)
    ensures
        ascending_texts(texts(extensions@)),
        forall|text: Seq<char>| #[trigger]
            texts(extensions@).contains(text) == is_format_extension(formats@, text),
{
    keys_of(format_extensions(formats))
}

/// The extensions of all formats and of playlists, in order and each once.
pub fn open_dialog_extensions(formats: &[FormatDescriptor]) -> (extensions: Vec<String>)
    ensures
        ascending_texts(texts(extensions@)),
        forall|text: Seq<char>| #[trigger]
            texts(extensions@).contains(text) == (is_format_extension(formats@, text) || text
                == "fplist"@),
{
    let mut set = format_extensions(formats);
    set.insert("fplist".to_owned(), true);
    keys_of(set)
}

/// A file is opened by what its format holds: projects, MIDI files and audio that can be
/// decoded. A playlist goes by its extension, in any letter case, and a file without an
/// extension is taken for a MIDI file.
pub proof fn files_are_opened_by_their_format(extension: Seq<char>, format: Option<FormatFacts>)
    ensures
        opened_as(None, format) == OpenAction::Midi,
        ascii_lowered(extension) == "fplist"@ ==> opened_as(Some(extension), format)
            == OpenAction::Playlist,
        ascii_lowered(extension) != "fplist"@ ==> {
            let action = opened_as(Some(extension), format);
            match format {
                None => action == OpenAction::Unsupported,
                Some(facts) => match facts.content_kind {
                    ContentKind::Fmid => action == OpenAction::Fmid,
                    ContentKind::Midi => action == OpenAction::Midi,
                    _ => (action == OpenAction::DecodedAudio) == (facts.mastering
                        == MasteringCapability::DecodedAudioPeq) && (action
                        == OpenAction::DecodedAudio || action == OpenAction::Unsupported),
                },
            }
        },
{
}

/// A project is saved where it is if that is an FMID file, or a wrapper of the decoded audio
/// that is loaded; letter case does not count, and a path without an extension never does.
pub proof fn projects_are_saved_in_place_by_extension(
    content: Option<LoadedContentState>,
    extension: Seq<char>,
)
    ensures
        !saves_in_place(content, None),
        ascii_lowered(extension) == "fmid"@ ==> saves_in_place(content, Some(extension)),
        content is Some && content->Some_0.mastering == MasteringCapability::DecodedAudioPeq
            && content->Some_0.wrapped_extension is Some && ascii_lowered(
            content->Some_0.wrapped_extension->Some_0@,
        ) == ascii_lowered(extension) ==> saves_in_place(content, Some(extension)),
        ascii_lowered(extension) != "fmid"@ && (content is None
            || content->Some_0.wrapped_extension is None || ascii_lowered(
            content->Some_0.wrapped_extension->Some_0@,
        ) != ascii_lowered(extension)) ==> !saves_in_place(content, Some(extension)),
        is_decoded(content) == (content is Some && content->Some_0.mastering
            == MasteringCapability::DecodedAudioPeq),
{
    reveal_strlit("fmid");
    assert(ascii_lowered("fmid"@) =~= "fmid"@);
}

/// Decoded audio may be saved under any path with the extension of its wrapper that is not
/// the audio itself.
pub proof fn wrappers_are_saved_beside_their_source(
    content: LoadedContentState,
    extension: Seq<char>,
    path: Seq<char>,
)
    ensures
        ascii_lowered(extension) == ascii_lowered(wrapper_extension(content)) ==> save_refusal(
            content,
            Some(extension),
            path,
            false,
        ) is None,
        content.decoded_source_path is None && ascii_lowered(extension) == ascii_lowered(
            wrapper_extension(content),
        ) ==> save_refusal(content, Some(extension), path, true) is None,
        save_refusal(content, None, path, false) is Some,
{
}

proof fn lemma_last_dot(base: Seq<char>, extension: Seq<char>)
    requires
        !extension.contains('.'),
    ensures
        last_dot(base.push('.') + extension) == base.len(),
    decreases extension.len(),
{
    let name = base.push('.') + extension;
    if extension.len() == 0 {
        assert(name =~= base.push('.'));
    } else {
        let shorter = extension.drop_last();
        assert(!shorter.contains('.')) by {
            if shorter.contains('.') {
                let k = choose|k: int| 0 <= k < shorter.len() && shorter[k] == '.';
                assert(extension[k] == '.');
            }
        }
        assert(name.drop_last() =~= base.push('.') + shorter);
        assert(name.last() == extension[extension.len() - 1]);
        lemma_last_dot(base, shorter);
    }
}

proof fn lemma_last_part(folder: Seq<char>, name: Seq<char>)
    requires
        !name.contains('/'),
        folder.len() > 0 ==> folder.last() == '/',
    ensures
        last_part(folder + name) == name,
    decreases name.len(),
{
    let path = folder + name;
    if name.len() == 0 {
        assert(path =~= folder);
        assert(last_part(path) =~= name);
    } else {
        let shorter = name.drop_last();
        assert(!shorter.contains('/')) by {
            if shorter.contains('/') {
                let k = choose|k: int| 0 <= k < shorter.len() && shorter[k] == '/';
                assert(name[k] == '/');
            }
        }
        assert(path.drop_last() =~= folder + shorter);
        assert(path.last() == name[name.len() - 1]);
        lemma_last_part(folder, shorter);
        assert(last_part(path) =~= name);
    }
}

/// The stem of a file in a folder is its name without the extension.
pub proof fn stems_are_names_without_extension(
    folder: Seq<char>,
    base: Seq<char>,
    extension: Seq<char>,
    stem: Option<Seq<char>>,
)
    requires
        folder.len() > 0 ==> folder.last() == '/',
        base.len() > 0,
        !base.contains('/'),
        extension.len() > 0,
        !extension.contains('/'),
        !extension.contains('.'),
        is_portable(folder + (base.push('.') + extension)),
        may_be_stem(folder + (base.push('.') + extension), stem),
    ensures
        stem == Some(base),
{
    let name = base.push('.') + extension;
    let path = folder + name;
    assert(!name.contains('/')) by {
        if name.contains('/') {
            let k = choose|k: int| 0 <= k < name.len() && name[k] == '/';
            if k < base.len() {
                assert(base[k] == '/');
            } else if k > base.len() {
                assert(extension[k - base.len() - 1] == '/');
            }
        }
    }
    assert(path.last() == extension[extension.len() - 1]);
    assert(path.last() != '.' && path.last() != '/');
    assert(without_empty_end(path) == path);
    lemma_last_part(folder, name);
    lemma_last_dot(base, extension);
    assert(name.len() > 2 || name[name.len() - 1] != '.');
    assert(name != seq!['.', '.']) by {
        assert(name[name.len() - 1] != '.');
    }
    assert(name.take(base.len() as int) =~= base);
}

/// A preset file is named after the stem of its title, or after the title itself where that
/// has none, never with a dot at the end and never with nothing.
pub proof fn preset_files_are_named_after_their_title(title: Seq<char>, stem: Option<Seq<char>>)
    ensures
        sanitized_stem(title, stem).len() > 0,
        stem is Some && !is_blank(stem->Some_0) && stem->Some_0.last() != '.'
            && stem->Some_0.len() > 0 ==> sanitized_stem(title, stem) == stem->Some_0,
        (stem is None || is_blank(stem->Some_0)) && trimmed(title).len() > 0 && trimmed(
            title,
        ).last() != '.' ==> sanitized_stem(title, stem) == trimmed(title),
        sanitized_stem(title, stem).last() != '.',
{
    reveal_strlit("peq-preset");
    let whole = match stem {
        Some(stem) => if is_blank(stem) {
            trimmed(title)
        } else {
            stem
        },
        None => trimmed(title),
    };
    crate::text::trailing_characters_are_cut_off(whole, '.');
}

/// Positions count frames for decoded audio, in a wrapper or not, and ticks for anything else.
/// An extension is found in a list in any letter case.
pub proof fn decoded_audio_counts_frames(extensions: Seq<String>, extension: Seq<char>, i: int)
    requires
        0 <= i < extensions.len(),
    ensures
        counts_frames(Some(ContentKind::DecodedAudio)),
        counts_frames(Some(ContentKind::DecodedAudioWrapper)),
        !counts_frames(Some(ContentKind::Midi)),
        !counts_frames(Some(ContentKind::Fmid)),
        !counts_frames(None),
        ascii_lowered(extensions[i]@) == ascii_lowered(extension) ==> has_extension(
            extensions,
            extension,
        ),
        (forall|k: int|
            0 <= k < extensions.len() ==> ascii_lowered((#[trigger] extensions[k])@)
                != ascii_lowered(extension)) ==> !has_extension(extensions, extension),
{
}

} // verus!
