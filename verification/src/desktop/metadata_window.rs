//! The window in which the metadata of a track is edited: its entries, and what an edit
//! does.
use crate::desktop::app::{FlutzDesktopApp, ProjectState};
use crate::desktop::metadata::{edit_field_list, field_views, MetadataEditState, MetadataField};
use crate::desktop::metadata::TrackTags;
use vstd::prelude::*;
use vstd::string::*;

verus! {

/// An entry of the window.
#[derive(Debug, Copy, Clone, PartialEq, Eq, Structural)]
pub enum MetadataEntry {
    ProjectTitle,
    SourceFilename,
    Artist,
    Album,
    AlbumArtist,
    Composer,
    Conductor,
    Genre,
    Date,
    TrackNumber,
    TrackTotal,
    DiscNumber,
    DiscTotal,
    Description,
    Copyright,
    Publisher,
    EncodedBy,
    Encoder,
    Language,
    Lyrics,
    Url,
    Notes,
}

impl MetadataEntry {
    /// The text beside an entry.
    pub open spec fn caption(self) -> Seq<char> {
        match self {
            MetadataEntry::ProjectTitle => "Project Title"@,
            MetadataEntry::SourceFilename => "Source Filename"@,
            MetadataEntry::Artist => "Artist"@,
            MetadataEntry::Album => "Album"@,
            MetadataEntry::AlbumArtist => "Album Artist"@,
            MetadataEntry::Composer => "Composer"@,
            MetadataEntry::Conductor => "Conductor"@,
            MetadataEntry::Genre => "Genre"@,
            MetadataEntry::Date => "Date"@,
            MetadataEntry::TrackNumber => "Track Number"@,
            MetadataEntry::TrackTotal => "Track Total"@,
            MetadataEntry::DiscNumber => "Disc Number"@,
            MetadataEntry::DiscTotal => "Disc Total"@,
            MetadataEntry::Description => "Description"@,
            MetadataEntry::Copyright => "Copyright"@,
            MetadataEntry::Publisher => "Publisher"@,
            MetadataEntry::EncodedBy => "Encoded By"@,
            MetadataEntry::Encoder => "Encoder"@,
            MetadataEntry::Language => "Language"@,
            MetadataEntry::Lyrics => "Lyrics"@,
            MetadataEntry::Url => "URL"@,
            MetadataEntry::Notes => "Notes"@,
        }
    }

    pub fn label(self) -> (label: &'static str)
        ensures
            label@ == self.caption(),
    {
        match self {
            MetadataEntry::ProjectTitle => "Project Title",
            MetadataEntry::SourceFilename => "Source Filename",
            MetadataEntry::Artist => "Artist",
            MetadataEntry::Album => "Album",
            MetadataEntry::AlbumArtist => "Album Artist",
            MetadataEntry::Composer => "Composer",
            MetadataEntry::Conductor => "Conductor",
            MetadataEntry::Genre => "Genre",
            MetadataEntry::Date => "Date",
            MetadataEntry::TrackNumber => "Track Number",
            MetadataEntry::TrackTotal => "Track Total",
            MetadataEntry::DiscNumber => "Disc Number",
            MetadataEntry::DiscTotal => "Disc Total",
            MetadataEntry::Description => "Description",
            MetadataEntry::Copyright => "Copyright",
            MetadataEntry::Publisher => "Publisher",
            MetadataEntry::EncodedBy => "Encoded By",
            MetadataEntry::Encoder => "Encoder",
            MetadataEntry::Language => "Language",
            MetadataEntry::Lyrics => "Lyrics",
            MetadataEntry::Url => "URL",
            MetadataEntry::Notes => "Notes",
        }
    }

    /// How many lines of an entry are shown.
    pub fn lines(self) -> (lines: usize)
        ensures
            lines == match self {
                MetadataEntry::Description => 3usize,
                MetadataEntry::Lyrics => 4usize,
                MetadataEntry::Notes => 6usize,
                _ => 1usize,
            },
    {
        match self {
            MetadataEntry::Description => 3,
            MetadataEntry::Lyrics => 4,
            MetadataEntry::Notes => 6,
            _ => 1,
        }
    }

    /// The column in which an entry stands.
    pub open spec fn stands_in_second_column(self) -> bool {
        match self {
            MetadataEntry::ProjectTitle => false,
            MetadataEntry::SourceFilename => false,
            MetadataEntry::Artist => false,
            MetadataEntry::Album => false,
            MetadataEntry::AlbumArtist => false,
            MetadataEntry::Composer => false,
            MetadataEntry::Conductor => false,
            MetadataEntry::Genre => false,
            MetadataEntry::Date => false,
            MetadataEntry::TrackNumber => false,
            MetadataEntry::TrackTotal => false,
            _ => true,
        }
    }

    /// The entries of a column, from top to bottom.
    pub open spec fn in_column(second: bool) -> Seq<MetadataEntry> {
        if second {
            seq![
                MetadataEntry::DiscNumber,
                MetadataEntry::DiscTotal,
                MetadataEntry::Description,
                MetadataEntry::Copyright,
                MetadataEntry::Publisher,
                MetadataEntry::EncodedBy,
                MetadataEntry::Encoder,
                MetadataEntry::Language,
                MetadataEntry::Lyrics,
                MetadataEntry::Url,
                MetadataEntry::Notes,
            ]
        } else {
            seq![
                MetadataEntry::ProjectTitle,
                MetadataEntry::SourceFilename,
                MetadataEntry::Artist,
                MetadataEntry::Album,
                MetadataEntry::AlbumArtist,
                MetadataEntry::Composer,
                MetadataEntry::Conductor,
                MetadataEntry::Genre,
                MetadataEntry::Date,
                MetadataEntry::TrackNumber,
                MetadataEntry::TrackTotal,
            ]
        }
    }

    pub fn column(second: bool) -> (entries: Vec<MetadataEntry>)
        ensures
            entries@ == MetadataEntry::in_column(second),
    {
        if second {
            vec![
                MetadataEntry::DiscNumber,
                MetadataEntry::DiscTotal,
                MetadataEntry::Description,
                MetadataEntry::Copyright,
                MetadataEntry::Publisher,
                MetadataEntry::EncodedBy,
                MetadataEntry::Encoder,
                MetadataEntry::Language,
                MetadataEntry::Lyrics,
                MetadataEntry::Url,
                MetadataEntry::Notes,
            ]
        } else {
            vec![
                MetadataEntry::ProjectTitle,
                MetadataEntry::SourceFilename,
                MetadataEntry::Artist,
                MetadataEntry::Album,
                MetadataEntry::AlbumArtist,
                MetadataEntry::Composer,
                MetadataEntry::Conductor,
                MetadataEntry::Genre,
                MetadataEntry::Date,
                MetadataEntry::TrackNumber,
                MetadataEntry::TrackTotal,
            ]
        }
    }
}

/// The window has each entry in one place.
pub proof fn every_entry_has_its_place(entry: MetadataEntry)
    ensures
        exists|i: int|
            0 <= i < MetadataEntry::in_column(entry.stands_in_second_column()).len()
                && #[trigger] MetadataEntry::in_column(entry.stands_in_second_column())[i] == entry,
        !MetadataEntry::in_column(!entry.stands_in_second_column()).contains(entry),
        MetadataEntry::in_column(entry.stands_in_second_column()).no_duplicates(),
{
    let column = MetadataEntry::in_column(entry.stands_in_second_column());
    match entry {
        MetadataEntry::ProjectTitle => {
            assert(column[0] == entry);
        },
        MetadataEntry::SourceFilename => {
            assert(column[1] == entry);
        },
        MetadataEntry::Artist => {
            assert(column[2] == entry);
        },
        MetadataEntry::Album => {
            assert(column[3] == entry);
        },
        MetadataEntry::AlbumArtist => {
            assert(column[4] == entry);
        },
        MetadataEntry::Composer => {
            assert(column[5] == entry);
        },
        MetadataEntry::Conductor => {
            assert(column[6] == entry);
        },
        MetadataEntry::Genre => {
            assert(column[7] == entry);
        },
        MetadataEntry::Date => {
            assert(column[8] == entry);
        },
        MetadataEntry::TrackNumber => {
            assert(column[9] == entry);
        },
        MetadataEntry::TrackTotal => {
            assert(column[10] == entry);
        },
        MetadataEntry::DiscNumber => {
            assert(column[0] == entry);
        },
        MetadataEntry::DiscTotal => {
            assert(column[1] == entry);
        },
        MetadataEntry::Description => {
            assert(column[2] == entry);
        },
        MetadataEntry::Copyright => {
            assert(column[3] == entry);
        },
        MetadataEntry::Publisher => {
            assert(column[4] == entry);
        },
        MetadataEntry::EncodedBy => {
            assert(column[5] == entry);
        },
        MetadataEntry::Encoder => {
            assert(column[6] == entry);
        },
        MetadataEntry::Language => {
            assert(column[7] == entry);
        },
        MetadataEntry::Lyrics => {
            assert(column[8] == entry);
        },
        MetadataEntry::Url => {
            assert(column[9] == entry);
        },
        MetadataEntry::Notes => {
            assert(column[10] == entry);
        },
    }
}

impl MetadataEditState {
    /// The text of an entry.
    pub open spec fn text_of(&self, entry: MetadataEntry) -> Seq<char> {
        match entry {
            MetadataEntry::ProjectTitle => self.project_name@,
            MetadataEntry::SourceFilename => self.source_filename@,
            MetadataEntry::Artist => self.tags.artist@,
            MetadataEntry::Album => self.tags.album@,
            MetadataEntry::AlbumArtist => self.tags.album_artist@,
            MetadataEntry::Composer => self.tags.composer@,
            MetadataEntry::Conductor => self.tags.conductor@,
            MetadataEntry::Genre => self.tags.genre@,
            MetadataEntry::Date => self.tags.date@,
            MetadataEntry::TrackNumber => self.tags.track_number@,
            MetadataEntry::TrackTotal => self.tags.track_total@,
            MetadataEntry::DiscNumber => self.tags.disc_number@,
            MetadataEntry::DiscTotal => self.tags.disc_total@,
            MetadataEntry::Description => self.tags.description@,
            MetadataEntry::Copyright => self.tags.copyright@,
            MetadataEntry::Publisher => self.tags.publisher@,
            MetadataEntry::EncodedBy => self.tags.encoded_by@,
            MetadataEntry::Encoder => self.tags.encoder@,
            MetadataEntry::Language => self.tags.language@,
            MetadataEntry::Lyrics => self.tags.lyrics@,
            MetadataEntry::Url => self.tags.url@,
            MetadataEntry::Notes => self.tags.notes@,
        }
    }

    /// The text of an entry.
    pub fn entry_text(&self, entry: MetadataEntry) -> (text: &str)
        ensures
            text@ == self.text_of(entry),
    {
        match entry {
            MetadataEntry::ProjectTitle => self.project_name.as_str(),
            MetadataEntry::SourceFilename => self.source_filename.as_str(),
            MetadataEntry::Artist => self.tags.artist.as_str(),
            MetadataEntry::Album => self.tags.album.as_str(),
            MetadataEntry::AlbumArtist => self.tags.album_artist.as_str(),
            MetadataEntry::Composer => self.tags.composer.as_str(),
            MetadataEntry::Conductor => self.tags.conductor.as_str(),
            MetadataEntry::Genre => self.tags.genre.as_str(),
            MetadataEntry::Date => self.tags.date.as_str(),
            MetadataEntry::TrackNumber => self.tags.track_number.as_str(),
            MetadataEntry::TrackTotal => self.tags.track_total.as_str(),
            MetadataEntry::DiscNumber => self.tags.disc_number.as_str(),
            MetadataEntry::DiscTotal => self.tags.disc_total.as_str(),
            MetadataEntry::Description => self.tags.description.as_str(),
            MetadataEntry::Copyright => self.tags.copyright.as_str(),
            MetadataEntry::Publisher => self.tags.publisher.as_str(),
            MetadataEntry::EncodedBy => self.tags.encoded_by.as_str(),
            MetadataEntry::Encoder => self.tags.encoder.as_str(),
            MetadataEntry::Language => self.tags.language.as_str(),
            MetadataEntry::Lyrics => self.tags.lyrics.as_str(),
            MetadataEntry::Url => self.tags.url.as_str(),
            MetadataEntry::Notes => self.tags.notes.as_str(),
        }
    }

    /// The metadata with another text for an entry.
    pub open spec fn with_text(self, entry: MetadataEntry, text: String) -> MetadataEditState {
        match entry {
            MetadataEntry::ProjectTitle => MetadataEditState { project_name: text, ..self },
            MetadataEntry::SourceFilename => MetadataEditState { source_filename: text, ..self },
            _ => MetadataEditState { tags: tags_with(self.tags, entry, text), ..self },
        }
    }

    /// Gives an entry another text.
    pub fn edit_entry(&mut self, entry: MetadataEntry, text: String)
        ensures
            *final(self) == old(self).with_text(entry, text),
    {
        match entry {
            MetadataEntry::ProjectTitle => self.project_name = text,
            MetadataEntry::SourceFilename => self.source_filename = text,
            MetadataEntry::Artist => self.tags.artist = text,
            MetadataEntry::Album => self.tags.album = text,
            MetadataEntry::AlbumArtist => self.tags.album_artist = text,
            MetadataEntry::Composer => self.tags.composer = text,
            MetadataEntry::Conductor => self.tags.conductor = text,
            MetadataEntry::Genre => self.tags.genre = text,
            MetadataEntry::Date => self.tags.date = text,
            MetadataEntry::TrackNumber => self.tags.track_number = text,
            MetadataEntry::TrackTotal => self.tags.track_total = text,
            MetadataEntry::DiscNumber => self.tags.disc_number = text,
            MetadataEntry::DiscTotal => self.tags.disc_total = text,
            MetadataEntry::Description => self.tags.description = text,
            MetadataEntry::Copyright => self.tags.copyright = text,
            MetadataEntry::Publisher => self.tags.publisher = text,
            MetadataEntry::EncodedBy => self.tags.encoded_by = text,
            MetadataEntry::Encoder => self.tags.encoder = text,
            MetadataEntry::Language => self.tags.language = text,
            MetadataEntry::Lyrics => self.tags.lyrics = text,
            MetadataEntry::Url => self.tags.url = text,
            MetadataEntry::Notes => self.tags.notes = text,
        }
    }
}

/// Tags with another text for an entry.
pub open spec fn tags_with(tags: TrackTags, entry: MetadataEntry, text: String) -> TrackTags {
    match entry {
        MetadataEntry::Artist => TrackTags { artist: text, ..tags },
        MetadataEntry::Album => TrackTags { album: text, ..tags },
        MetadataEntry::AlbumArtist => TrackTags { album_artist: text, ..tags },
        MetadataEntry::Composer => TrackTags { composer: text, ..tags },
        MetadataEntry::Conductor => TrackTags { conductor: text, ..tags },
        MetadataEntry::Genre => TrackTags { genre: text, ..tags },
        MetadataEntry::Date => TrackTags { date: text, ..tags },
        MetadataEntry::TrackNumber => TrackTags { track_number: text, ..tags },
        MetadataEntry::TrackTotal => TrackTags { track_total: text, ..tags },
        MetadataEntry::DiscNumber => TrackTags { disc_number: text, ..tags },
        MetadataEntry::DiscTotal => TrackTags { disc_total: text, ..tags },
        MetadataEntry::Description => TrackTags { description: text, ..tags },
        MetadataEntry::Copyright => TrackTags { copyright: text, ..tags },
        MetadataEntry::Publisher => TrackTags { publisher: text, ..tags },
        MetadataEntry::EncodedBy => TrackTags { encoded_by: text, ..tags },
        MetadataEntry::Encoder => TrackTags { encoder: text, ..tags },
        MetadataEntry::Language => TrackTags { language: text, ..tags },
        MetadataEntry::Lyrics => TrackTags { lyrics: text, ..tags },
        MetadataEntry::Url => TrackTags { url: text, ..tags },
        MetadataEntry::Notes => TrackTags { notes: text, ..tags },
        _ => tags,
    }
}

/// An edited entry has the text that it was given, and the others keep theirs.
pub proof fn edits_are_local(
    state: MetadataEditState,
    entry: MetadataEntry,
    text: String,
    other: MetadataEntry,
)
    ensures
        state.with_text(entry, text).text_of(other) == if other == entry {
            text@
        } else {
            state.text_of(other)
        },
        state.with_text(entry, text).extra_fields == state.extra_fields,
        state.with_text(entry, text).native_metadata == state.native_metadata,
{
}

/// An edit of the window.
#[derive(Debug)]
pub enum MetadataEdit {
    /// An entry has another text.
    Entry(MetadataEntry, String),
    /// Of the additional fields one is removed, or one is added, or both.
    ExtraFields { remove: Option<usize>, add: bool },
    /// The same of the tags that the audio file brought along.
    NativeFields { remove: Option<usize>, add: bool },
    /// One of the additional fields has another name or value.
    ExtraText { index: usize, field: MetadataField },
    /// The same of the tags that the audio file brought along.
    NativeText { index: usize, field: MetadataField },
}

/// A list of fields after one was removed or added.
pub open spec fn list_edited(
    fields: Seq<MetadataField>,
    remove: Option<usize>,
    add: bool,
    after: Seq<MetadataField>,
) -> bool {
    let shorter = match remove {
        Some(index) => field_views(fields).remove(index as int),
        None => field_views(fields),
    };
    field_views(after) == if add {
        shorter.push((Seq::empty(), Seq::empty()))
    } else {
        shorter
    }
}

/// Whether a field that is to be removed is there.
pub open spec fn can_remove(fields: Seq<MetadataField>, remove: Option<usize>) -> bool {
    match remove {
        Some(index) => index < fields.len(),
        None => true,
    }
}

impl MetadataEdit {
    /// Whether an edit can be made.
    pub open spec fn fits(&self, state: MetadataEditState) -> bool {
        match *self {
            MetadataEdit::Entry(_, _) => true,
            MetadataEdit::ExtraFields { remove, .. } => can_remove(state.extra_fields@, remove),
            MetadataEdit::NativeFields { remove, .. } => can_remove(state.native_metadata@, remove),
            MetadataEdit::ExtraText { index, .. } => index < state.extra_fields@.len(),
            MetadataEdit::NativeText { index, .. } => index < state.native_metadata@.len(),
        }
    }

    /// Whether an edit changes anything. The tags of the audio file are shown, and can be
    /// edited, only where the format has them.
    pub open spec fn changes(&self, state: MetadataEditState) -> bool {
        match *self {
            MetadataEdit::Entry(_, _) => true,
            MetadataEdit::ExtraFields { remove, add } => remove is Some || add,
            MetadataEdit::NativeFields { remove, add } => state.supports_native_metadata && (
            remove is Some || add),
            MetadataEdit::ExtraText { .. } => true,
            MetadataEdit::NativeText { .. } => state.supports_native_metadata,
        }
    }

    /// Whether metadata is what an edit makes of it.
    pub open spec fn makes(&self, state: MetadataEditState, after: MetadataEditState) -> bool {
        match *self {
            MetadataEdit::Entry(entry, text) => after == state.with_text(entry, text),
            MetadataEdit::ExtraFields { remove, add } => {
                &&& after == (MetadataEditState { extra_fields: after.extra_fields, ..state })
                &&& list_edited(state.extra_fields@, remove, add, after.extra_fields@)
            },
            MetadataEdit::NativeFields { remove, add } => if state.supports_native_metadata {
                &&& after == (MetadataEditState { native_metadata: after.native_metadata, ..state })
                &&& list_edited(state.native_metadata@, remove, add, after.native_metadata@)
            } else {
                after == state
            },
            MetadataEdit::ExtraText { index, field } => {
                &&& after == (MetadataEditState { extra_fields: after.extra_fields, ..state })
                &&& after.extra_fields@ == state.extra_fields@.update(index as int, field)
            },
            MetadataEdit::NativeText { index, field } => if state.supports_native_metadata {
                &&& after == (MetadataEditState { native_metadata: after.native_metadata, ..state })
                &&& after.native_metadata@ == state.native_metadata@.update(index as int, field)
            } else {
                after == state
            },
        }
    }
}

impl MetadataEditState {
    /// Makes an edit, and returns whether it changed anything.
    pub fn edit(&mut self, edit: MetadataEdit) -> (changed: bool)
        requires
            edit.fits(*old(self)),
        ensures
            edit.makes(*old(self), *final(self)),
            changed == edit.changes(*old(self)),
    {
        match edit {
            MetadataEdit::Entry(entry, text) => {
                self.edit_entry(entry, text);
                true
            },
            MetadataEdit::ExtraFields { remove, add } => edit_field_list(
                &mut self.extra_fields,
                remove,
                add,
            ),
            MetadataEdit::NativeFields { remove, add } => if self.supports_native_metadata {
                edit_field_list(&mut self.native_metadata, remove, add)
            } else {
                false
            },
            MetadataEdit::ExtraText { index, field } => {
                self.extra_fields[index] = field;
                true
            },
            MetadataEdit::NativeText { index, field } => {
                if self.supports_native_metadata {
                    self.native_metadata[index] = field;
                }
                self.supports_native_metadata
            },
        }
    }
}

impl<S> FlutzDesktopApp<S> {
    /// Takes in an edit of the metadata. One that changes something changes the
    /// project, whose title is that of the metadata.
    pub fn edit_metadata(&mut self, edit: MetadataEdit)
        requires
            old(self).wf(),
            edit.fits(old(self).project.metadata_edit_state),
        ensures
            final(self).wf(),
            edit.makes(
                old(self).project.metadata_edit_state,
                final(self).project.metadata_edit_state,
            ),
            ({
                let changes = edit.changes(old(self).project.metadata_edit_state);
                &&& *final(self) == (FlutzDesktopApp {
                    project: ProjectState {
                        metadata_edit_state: final(self).project.metadata_edit_state,
                        project_title: final(self).project.project_title,
                        metadata_edit_dirty: old(self).project.metadata_edit_dirty || changes,
                        dirty: old(self).project.dirty || changes,
                        ..old(self).project
                    },
                    ..*old(self)
                })
                &&& final(self).project.project_title@ == if changes {
                    final(self).project.metadata_edit_state.project_name@
                } else {
                    old(self).project.project_title@
                }
            }),
    {
        if self.project.metadata_edit_state.edit(edit) {
            self.metadata_changed();
        }
    }
}

/// Each entry of the window shows and edits the field that it is named after.
pub proof fn entries_show_their_field(state: MetadataEditState, text: String)
    ensures
        state.text_of(MetadataEntry::ProjectTitle) == state.project_name@,
        state.text_of(MetadataEntry::SourceFilename) == state.source_filename@,
        state.text_of(MetadataEntry::Artist) == state.tags.artist@,
        state.text_of(MetadataEntry::Album) == state.tags.album@,
        state.text_of(MetadataEntry::AlbumArtist) == state.tags.album_artist@,
        state.text_of(MetadataEntry::Composer) == state.tags.composer@,
        state.text_of(MetadataEntry::Conductor) == state.tags.conductor@,
        state.text_of(MetadataEntry::Genre) == state.tags.genre@,
        state.text_of(MetadataEntry::Date) == state.tags.date@,
        state.text_of(MetadataEntry::TrackNumber) == state.tags.track_number@,
        state.text_of(MetadataEntry::TrackTotal) == state.tags.track_total@,
        state.text_of(MetadataEntry::DiscNumber) == state.tags.disc_number@,
        state.text_of(MetadataEntry::DiscTotal) == state.tags.disc_total@,
        state.text_of(MetadataEntry::Description) == state.tags.description@,
        state.text_of(MetadataEntry::Copyright) == state.tags.copyright@,
        state.text_of(MetadataEntry::Publisher) == state.tags.publisher@,
        state.text_of(MetadataEntry::EncodedBy) == state.tags.encoded_by@,
        state.text_of(MetadataEntry::Encoder) == state.tags.encoder@,
        state.text_of(MetadataEntry::Language) == state.tags.language@,
        state.text_of(MetadataEntry::Lyrics) == state.tags.lyrics@,
        state.text_of(MetadataEntry::Url) == state.tags.url@,
        state.text_of(MetadataEntry::Notes) == state.tags.notes@,
        state.with_text(MetadataEntry::ProjectTitle, text).project_name == text,
        state.with_text(MetadataEntry::SourceFilename, text).source_filename == text,
        state.with_text(MetadataEntry::Artist, text).tags.artist == text,
        state.with_text(MetadataEntry::Album, text).tags.album == text,
        state.with_text(MetadataEntry::Notes, text).tags.notes == text,
{
}

/// Of the additional fields just the one that was named goes, a new one is empty and comes
/// last, and the others stand in their order.
pub proof fn field_lists_are_edited_in_place(
    fields: Seq<MetadataField>,
    remove: Option<usize>,
    add: bool,
    after: Seq<MetadataField>,
)
    requires
        list_edited(fields, remove, add, after),
        remove is Some ==> remove->Some_0 < fields.len(),
    ensures
        after.len() == fields.len() - (if remove is Some {
            1int
        } else {
            0
        }) + (if add {
            1int
        } else {
            0
        }),
        forall|i: int|
            0 <= i < fields.len() && (remove is Some ==> i < remove->Some_0) ==> (
            #[trigger] field_views(after)[i]) == field_views(fields)[i],
        remove is Some ==> forall|i: int|
            remove->Some_0 <= i < fields.len() - 1 ==> (#[trigger] field_views(after)[i])
                == field_views(fields)[i + 1],
        add ==> field_views(after).last() == (Seq::<char>::empty(), Seq::<char>::empty()),
{
    assert(field_views(after).len() == after.len());
    assert(field_views(fields).len() == fields.len());
}

/// An edit changes the entry or the list that it names, and nothing else. Tags of the audio
/// file are edited only where it can hold them, and an edit that neither removes nor adds
/// changes nothing.
pub proof fn edits_reach_what_they_name(
    edit: MetadataEdit,
    state: MetadataEditState,
    after: MetadataEditState,
)
    requires
        edit.makes(state, after),
    ensures
        match edit {
            MetadataEdit::Entry(entry, text) => {
                &&& edit.changes(state)
                &&& after.text_of(entry) == text@
                &&& after.extra_fields == state.extra_fields
                &&& after.native_metadata == state.native_metadata
            },
            MetadataEdit::ExtraFields { remove, add } => {
                &&& edit.changes(state) == (remove is Some || add)
                &&& after.tags == state.tags
                &&& after.native_metadata == state.native_metadata
                &&& after.project_name == state.project_name
            },
            MetadataEdit::NativeFields { remove, add } => {
                &&& after.tags == state.tags
                &&& after.extra_fields == state.extra_fields
                &&& !state.supports_native_metadata ==> after == state && !edit.changes(state)
                &&& state.supports_native_metadata ==> edit.changes(state) == (remove is Some
                    || add)
            },
            MetadataEdit::ExtraText { index, field } => {
                &&& edit.changes(state)
                &&& index < state.extra_fields@.len() ==> after.extra_fields@[index as int]
                    == field
                &&& index < state.extra_fields@.len() ==> after.extra_fields@.len()
                    == state.extra_fields@.len()
                &&& after.native_metadata == state.native_metadata
                &&& after.tags == state.tags
            },
            MetadataEdit::NativeText { index, field } => {
                &&& after.extra_fields == state.extra_fields
                &&& after.tags == state.tags
                &&& !state.supports_native_metadata ==> after == state && !edit.changes(state)
                &&& state.supports_native_metadata ==> edit.changes(state)
                &&& state.supports_native_metadata && index < state.native_metadata@.len()
                    ==> after.native_metadata@[index as int] == field
                    && after.native_metadata@.len() == state.native_metadata@.len()
            },
        },
{
    if edit is Entry {
        edits_are_local(state, edit->Entry_0, edit->Entry_1, edit->Entry_0);
    }
}

} // verus!
