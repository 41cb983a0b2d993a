//! The metadata of a track as the user edits it, and as the project files keep it.
use crate::text::{trim, trimmed, trimmed_end, trimmed_start};
use vstd::prelude::*;
use vstd::string::*;

verus! {

/// A field of metadata with a name of its own.
#[derive(Debug)]
pub struct MetadataField {
    pub key: String,
    pub value: String,
}

/// The contents of fields.
pub open spec fn field_views(fields: Seq<MetadataField>) -> Seq<(Seq<char>, Seq<char>)> {
    fields.map_values(|field: MetadataField| (field.key@, field.value@))
}

/// The metadata with fixed names.
#[derive(Debug)]
pub struct TrackTags {
    pub artist: String,
    pub album: String,
    pub album_artist: String,
    pub composer: String,
    pub conductor: String,
    pub genre: String,
    pub date: String,
    pub track_number: String,
    pub track_total: String,
    pub disc_number: String,
    pub disc_total: String,
    pub description: String,
    pub copyright: String,
    pub publisher: String,
    pub encoded_by: String,
    pub encoder: String,
    pub language: String,
    pub lyrics: String,
    pub url: String,
    pub notes: String,
}

/// The contents of the metadata with fixed names.
pub ghost struct TagsView {
    pub artist: Seq<char>,
    pub album: Seq<char>,
    pub album_artist: Seq<char>,
    pub composer: Seq<char>,
    pub conductor: Seq<char>,
    pub genre: Seq<char>,
    pub date: Seq<char>,
    pub track_number: Seq<char>,
    pub track_total: Seq<char>,
    pub disc_number: Seq<char>,
    pub disc_total: Seq<char>,
    pub description: Seq<char>,
    pub copyright: Seq<char>,
    pub publisher: Seq<char>,
    pub encoded_by: Seq<char>,
    pub encoder: Seq<char>,
    pub language: Seq<char>,
    pub lyrics: Seq<char>,
    pub url: Seq<char>,
    pub notes: Seq<char>,
}

impl View for TrackTags {
    type V = TagsView;

    open spec fn view(&self) -> TagsView {
        TagsView {
            artist: self.artist@,
            album: self.album@,
            album_artist: self.album_artist@,
            composer: self.composer@,
            conductor: self.conductor@,
            genre: self.genre@,
            date: self.date@,
            track_number: self.track_number@,
            track_total: self.track_total@,
            disc_number: self.disc_number@,
            disc_total: self.disc_total@,
            description: self.description@,
            copyright: self.copyright@,
            publisher: self.publisher@,
            encoded_by: self.encoded_by@,
            encoder: self.encoder@,
            language: self.language@,
            lyrics: self.lyrics@,
            url: self.url@,
            notes: self.notes@,
        }
    }
}

/// No metadata.
pub open spec fn no_tags() -> TagsView {
    TagsView {
        artist: Seq::empty(),
        album: Seq::empty(),
        album_artist: Seq::empty(),
        composer: Seq::empty(),
        conductor: Seq::empty(),
        genre: Seq::empty(),
        date: Seq::empty(),
        track_number: Seq::empty(),
        track_total: Seq::empty(),
        disc_number: Seq::empty(),
        disc_total: Seq::empty(),
        description: Seq::empty(),
        copyright: Seq::empty(),
        publisher: Seq::empty(),
        encoded_by: Seq::empty(),
        encoder: Seq::empty(),
        language: Seq::empty(),
        lyrics: Seq::empty(),
        url: Seq::empty(),
        notes: Seq::empty(),
    }
}

impl Default for TrackTags {
    fn default() -> (tags: TrackTags)
        ensures
            tags@ == no_tags(),
    {
        let tags = TrackTags {
            artist: String::new(),
            album: String::new(),
            album_artist: String::new(),
            composer: String::new(),
            conductor: String::new(),
            genre: String::new(),
            date: String::new(),
            track_number: String::new(),
            track_total: String::new(),
            disc_number: String::new(),
            disc_total: String::new(),
            description: String::new(),
            copyright: String::new(),
            publisher: String::new(),
            encoded_by: String::new(),
            encoder: String::new(),
            language: String::new(),
            lyrics: String::new(),
            url: String::new(),
            notes: String::new(),
        };
        tags
    }
}

impl TrackTags {
    fn duplicate(&self) -> (copy: TrackTags)
        ensures
            copy@ == self@,
    {
        TrackTags {
            artist: self.artist.clone(),
            album: self.album.clone(),
            album_artist: self.album_artist.clone(),
            composer: self.composer.clone(),
            conductor: self.conductor.clone(),
            genre: self.genre.clone(),
            date: self.date.clone(),
            track_number: self.track_number.clone(),
            track_total: self.track_total.clone(),
            disc_number: self.disc_number.clone(),
            disc_total: self.disc_total.clone(),
            description: self.description.clone(),
            copyright: self.copyright.clone(),
            publisher: self.publisher.clone(),
            encoded_by: self.encoded_by.clone(),
            encoder: self.encoder.clone(),
            language: self.language.clone(),
            lyrics: self.lyrics.clone(),
            url: self.url.clone(),
            notes: self.notes.clone(),
        }
    }
}

/// The metadata of a track, as an audio wrapper or an FMID file keeps it. In an FMID
/// file the source is a MIDI file.
#[derive(Debug)]
pub struct TrackMetadata {
    pub project_name: String,
    pub source_filename: String,
    pub tags: TrackTags,
    pub extra_fields: Vec<MetadataField>,
}

/// The metadata of a track as the user edits it. Only some files have native tags.
#[derive(Debug)]
pub struct MetadataEditState {
    pub project_name: String,
    pub source_filename: String,
    pub tags: TrackTags,
    pub extra_fields: Vec<MetadataField>,
    pub native_metadata: Vec<MetadataField>,
    pub supports_native_metadata: bool,
}

/// The contents of metadata.
pub ghost struct MetadataView {
    pub project_name: Seq<char>,
    pub source_filename: Seq<char>,
    pub tags: TagsView,
    pub extra_fields: Seq<(Seq<char>, Seq<char>)>,
}

/// The contents of edited metadata.
pub ghost struct EditedView {
    pub kept: MetadataView,
    pub native_metadata: Seq<(Seq<char>, Seq<char>)>,
    pub supports_native_metadata: bool,
}

impl View for TrackMetadata {
    type V = MetadataView;

    open spec fn view(&self) -> MetadataView {
        MetadataView {
            project_name: self.project_name@,
            source_filename: self.source_filename@,
            tags: self.tags@,
            extra_fields: field_views(self.extra_fields@),
        }
    }
}

impl View for MetadataEditState {
    type V = EditedView;

    open spec fn view(&self) -> EditedView {
        EditedView {
            kept: MetadataView {
                project_name: self.project_name@,
                source_filename: self.source_filename@,
                tags: self.tags@,
                extra_fields: field_views(self.extra_fields@),
            },
            native_metadata: field_views(self.native_metadata@),
            supports_native_metadata: self.supports_native_metadata,
        }
    }
}

/// Whether a text has nothing but white space.
pub open spec fn is_blank(text: Seq<char>) -> bool {
    trimmed(text).len() == 0
}

pub fn is_blank_text(text: &str) -> (blank: bool)
    ensures
        blank == is_blank(text@),
{
    trim(text).unicode_len() == 0
}

/// The first text, or the second where the first is blank.
pub open spec fn first_filled(primary: Seq<char>, fallback: Seq<char>) -> Seq<char> {
    if is_blank(primary) {
        fallback
    } else {
        primary
    }
}

pub fn first_non_empty(primary: &str, fallback: &str) -> (text: String)
    ensures
        text@ == first_filled(primary@, fallback@),
{
    if is_blank_text(primary) {
        fallback.to_owned()
    } else {
        primary.to_owned()
    }
}

/// The fields without white space at their ends, and without those of which
/// nothing is left.
pub open spec fn normalized_fields(fields: Seq<(Seq<char>, Seq<char>)>) -> Seq<
    (Seq<char>, Seq<char>),
>
    decreases fields.len(),
{
    if fields.len() == 0 {
        Seq::empty()
    } else {
        let before = normalized_fields(fields.drop_last());
        let (key, value) = fields.last();
        if is_blank(key) && is_blank(value) {
            before
        } else {
            before.push((trimmed(key), trimmed(value)))
        }
    }
}

pub fn normalized_metadata_fields(fields: &[MetadataField]) -> (normalized: Vec<MetadataField>)
    ensures
        field_views(normalized@) == normalized_fields(field_views(fields@)),
{
    let ghost all = field_views(fields@);
    let mut normalized: Vec<MetadataField> = Vec::new();
    let mut i: usize = 0;
    proof {
        assert(all.take(0) =~= Seq::<(Seq<char>, Seq<char>)>::empty());
        assert(field_views(normalized@) =~= Seq::<(Seq<char>, Seq<char>)>::empty());
    }
    while i < fields.len()
        invariant
            i <= fields@.len(),
            all == field_views(fields@),
            field_views(normalized@) == normalized_fields(all.take(i as int)),
        decreases fields@.len() - i,
    {
        let ghost before = field_views(normalized@);
        assert(all.take(i + 1).drop_last() =~= all.take(i as int));
        let key = trim(fields[i].key.as_str());
        let value = trim(fields[i].value.as_str());
        if !(key.unicode_len() == 0 && value.unicode_len() == 0) {
            normalized.push(MetadataField { key: key.to_owned(), value: value.to_owned() });
            assert(field_views(normalized@) =~= before.push((key@, value@)));
        }
        i = i + 1;
    }
    assert(all.take(i as int) =~= all);
    normalized
}

fn copy_fields(fields: &[MetadataField]) -> (copy: Vec<MetadataField>)
    ensures
        field_views(copy@) == field_views(fields@),
{
    let mut copy: Vec<MetadataField> = Vec::new();
    let mut i: usize = 0;
    while i < fields.len()
        invariant
            i <= fields@.len(),
            copy@.len() == i,
            forall|k: int|
                0 <= k < i ==> (#[trigger] copy@[k]).key@ == fields@[k].key@ && copy@[k].value@
                    == fields@[k].value@,
        decreases fields@.len() - i,
    {
        copy.push(
            MetadataField { key: fields[i].key.clone(), value: fields[i].value.clone() },
        );
        i = i + 1;
    }
    assert(field_views(copy@) =~= field_views(fields@));
    copy
}

impl Default for MetadataEditState {
    fn default() -> (state: MetadataEditState)
        ensures
            state@ == no_metadata(),
    {
        let state = MetadataEditState {
            project_name: String::new(),
            source_filename: String::new(),
            tags: TrackTags::default(),
            extra_fields: Vec::new(),
            native_metadata: Vec::new(),
            supports_native_metadata: false,
        };
        proof {
            assert(field_views(state.extra_fields@) =~= Seq::<(Seq<char>, Seq<char>)>::empty());
            assert(field_views(state.native_metadata@) =~= Seq::<(Seq<char>, Seq<char>)>::empty());
        }
        state
    }
}

/// No metadata.
pub open spec fn no_metadata() -> EditedView {
    EditedView {
        kept: MetadataView {
            project_name: Seq::empty(),
            source_filename: Seq::empty(),
            tags: no_tags(),
            extra_fields: Seq::empty(),
        },
        native_metadata: Seq::empty(),
        supports_native_metadata: false,
    }
}

/// Kept metadata as it is edited: with other names where those that are kept are
/// blank.
pub open spec fn edited_from(
    kept: MetadataView,
    project_name: Seq<char>,
    source_filename: Seq<char>,
) -> EditedView {
    EditedView {
        kept: MetadataView {
            project_name: first_filled(kept.project_name, project_name),
            source_filename: first_filled(kept.source_filename, source_filename),
            ..kept
        },
        native_metadata: Seq::empty(),
        supports_native_metadata: false,
    }
}

/// Edited metadata as it is kept: with other names where those that were edited are
/// blank, and with normalized fields.
pub open spec fn kept_from(
    edited: EditedView,
    project_name: Seq<char>,
    source_filename: Seq<char>,
) -> MetadataView {
    MetadataView {
        project_name: first_filled(edited.kept.project_name, project_name),
        source_filename: first_filled(edited.kept.source_filename, source_filename),
        tags: edited.kept.tags,
        extra_fields: normalized_fields(edited.kept.extra_fields),
    }
}

impl MetadataEditState {
    /// The metadata of an audio wrapper, to be edited.
    pub fn from_track_metadata(
        metadata: &TrackMetadata,
        fallback_project_name: &str,
        fallback_source_filename: &str,
    ) -> (state: MetadataEditState)
        ensures
            state@ == edited_from(metadata@, fallback_project_name@, fallback_source_filename@),
    {
        let state = MetadataEditState {
            project_name: first_non_empty(
                metadata.project_name.as_str(),
                fallback_project_name,
            ),
            source_filename: first_non_empty(
                metadata.source_filename.as_str(),
                fallback_source_filename,
            ),
            tags: metadata.tags.duplicate(),
            extra_fields: copy_fields(metadata.extra_fields.as_slice()),
            native_metadata: Vec::new(),
            supports_native_metadata: false,
        };
        assert(field_views(state.native_metadata@) =~= Seq::<(Seq<char>, Seq<char>)>::empty());
        state
    }

    /// The metadata of an FMID file, to be edited.
    pub fn from_fmid_project(
        project: &TrackMetadata,
        fallback_project_name: &str,
        fallback_source_filename: &str,
    ) -> (state: MetadataEditState)
        ensures
            state@ == edited_from(project@, fallback_project_name@, fallback_source_filename@),
    {
        MetadataEditState::from_track_metadata(
            project,
            fallback_project_name,
            fallback_source_filename,
        )
    }

    /// The metadata of a file that has none but its name.
    pub fn from_names(project_name: &str, source_filename: &str) -> (state: MetadataEditState)
        ensures
            state@ == (EditedView {
                kept: MetadataView {
                    project_name: project_name@,
                    source_filename: source_filename@,
                    ..no_metadata().kept
                },
                ..no_metadata()
            }),
    {
        let mut state = MetadataEditState::default();
        state.project_name = project_name.to_owned();
        state.source_filename = source_filename.to_owned();
        state
    }

    /// The metadata with the native tags of an audio file.
    pub fn with_native_metadata(self, native_metadata: Vec<MetadataField>) -> (state:
        MetadataEditState)
        ensures
            state@ == (EditedView {
                native_metadata: field_views(native_metadata@),
                supports_native_metadata: true,
                ..self@
            }),
    {
        let mut state = self;
        state.native_metadata = native_metadata;
        state.supports_native_metadata = true;
        state
    }

    /// The metadata as an audio wrapper keeps it.
    pub fn to_track_metadata(
        &self,
        fallback_project_name: &str,
        fallback_source_filename: &str,
    ) -> (metadata: TrackMetadata)
        ensures
            metadata@ == kept_from(self@, fallback_project_name@, fallback_source_filename@),
    {
        TrackMetadata {
            project_name: first_non_empty(self.project_name.as_str(), fallback_project_name),
            source_filename: first_non_empty(
                self.source_filename.as_str(),
                fallback_source_filename,
            ),
            tags: self.tags.duplicate(),
            extra_fields: normalized_metadata_fields(self.extra_fields.as_slice()),
        }
    }

    /// The metadata as an FMID file keeps it.
    pub fn to_fmid_project(
        &self,
        fallback_project_name: &str,
        fallback_source_filename: &str,
    ) -> (project: TrackMetadata)
        ensures
            project@ == kept_from(self@, fallback_project_name@, fallback_source_filename@),
    {
        self.to_track_metadata(fallback_project_name, fallback_source_filename)
    }
}

/// Removes a field of a list and adds an empty one, as the user asked, and returns
/// whether the list changed.
pub fn edit_field_list(fields: &mut Vec<MetadataField>, remove: Option<usize>, add: bool) -> (changed:
    bool)
    requires
        match remove {
            Some(index) => index < old(fields)@.len(),
            None => true,
        },
    ensures
        ({
            let shorter = match remove {
                Some(index) => field_views(old(fields)@).remove(index as int),
                None => field_views(old(fields)@),
            };
            &&& field_views(final(fields)@) == if add {
                shorter.push((Seq::empty(), Seq::empty()))
            } else {
                shorter
            }
            &&& changed == (remove is Some || add)
        }),
{
    let ghost before = field_views(fields@);
    let mut changed = false;
    match remove {
        Some(index) => {
            fields.remove(index);
            assert(field_views(fields@) =~= before.remove(index as int));
            changed = true;
        },
        None => {},
    }
    if add {
        let ghost shorter = field_views(fields@);
        fields.push(MetadataField { key: String::new(), value: String::new() });
        assert(field_views(fields@) =~= shorter.push((Seq::empty(), Seq::empty())));
        changed = true;
    }
    changed
}

proof fn lemma_trimmed_end(text: Seq<char>)
    ensures
        trimmed_end(text).len() == 0 || !crate::text::is_white_space(trimmed_end(text).last()),
        trimmed_end(text).len() > 0 ==> trimmed_end(text)[0] == text[0],
        trimmed_end(trimmed_end(text)) == trimmed_end(text),
    decreases text.len(),
{
    if text.len() > 0 && crate::text::is_white_space(text.last()) {
        lemma_trimmed_end(text.drop_last());
    }
}

proof fn lemma_trimmed_start(text: Seq<char>)
    ensures
        trimmed_start(text).len() == 0 || !crate::text::is_white_space(trimmed_start(text)[0]),
    decreases text.len(),
{
    if text.len() > 0 && crate::text::is_white_space(text[0]) {
        lemma_trimmed_start(text.drop_first());
    }
}

/// A text without white space at its ends stays as it is when it is trimmed.
pub proof fn trimming_twice_is_trimming_once(text: Seq<char>)
    ensures
        trimmed(trimmed(text)) == trimmed(text),
{
    lemma_trimmed_start(text);
    lemma_trimmed_end(trimmed_start(text));
    let once = trimmed(text);
    assert(trimmed_start(once) == once);
}

/// Normalizing fields twice is normalizing them once.
pub proof fn normalizing_twice_is_normalizing_once(fields: Seq<(Seq<char>, Seq<char>)>)
    ensures
        normalized_fields(normalized_fields(fields)) == normalized_fields(fields),
    decreases fields.len(),
{
    if fields.len() > 0 {
        normalizing_twice_is_normalizing_once(fields.drop_last());
        let before = normalized_fields(fields.drop_last());
        let (key, value) = fields.last();
        if !(is_blank(key) && is_blank(value)) {
            trimming_twice_is_trimming_once(key);
            trimming_twice_is_trimming_once(value);
            let all = before.push((trimmed(key), trimmed(value)));
            assert(all.drop_last() =~= before);
        }
    }
}

/// Metadata that is saved and loaded again is what was saved, where the edited names
/// are not blank: the tags and names as they were edited, the fields normalized.
pub proof fn saved_metadata_is_restored(
    edited: EditedView,
    saved_name: Seq<char>,
    saved_source: Seq<char>,
    loaded_name: Seq<char>,
    loaded_source: Seq<char>,
)
    requires
        !is_blank(edited.kept.project_name),
        !is_blank(edited.kept.source_filename),
    ensures
        ({
            let kept = kept_from(edited, saved_name, saved_source);
            let again = edited_from(kept, loaded_name, loaded_source);
            &&& again.kept.project_name == edited.kept.project_name
            &&& again.kept.source_filename == edited.kept.source_filename
            &&& again.kept.tags == edited.kept.tags
            &&& again.kept.extra_fields == normalized_fields(edited.kept.extra_fields)
            &&& kept_from(again, saved_name, saved_source) == kept
        }),
{
    normalizing_twice_is_normalizing_once(edited.kept.extra_fields);
}

proof fn lemma_normalized_field(fields: Seq<(Seq<char>, Seq<char>)>, i: int)
    requires
        0 <= i < fields.len(),
        trimmed(fields[i].0).len() > 0 || trimmed(fields[i].1).len() > 0,
    ensures
        normalized_fields(fields).contains((trimmed(fields[i].0), trimmed(fields[i].1))),
    decreases fields.len(),
{
    let shorter = fields.drop_last();
    let before = normalized_fields(shorter);
    let now = normalized_fields(fields);
    let wanted = (trimmed(fields[i].0), trimmed(fields[i].1));
    if i < shorter.len() {
        assert(shorter[i] == fields[i]);
        lemma_normalized_field(shorter, i);
        let k = choose|k: int| 0 <= k < before.len() && before[k] == wanted;
        assert(now[k] == wanted);
    } else {
        assert(now[before.len() as int] == wanted);
    }
}

/// A field with a name or a value is kept, without white space at the ends of either; an
/// empty one is not, and no field is made up.
pub proof fn filled_fields_are_kept(fields: Seq<(Seq<char>, Seq<char>)>)
    ensures
        normalized_fields(fields).len() <= fields.len(),
        forall|i: int|
            0 <= i < fields.len() && (trimmed((#[trigger] fields[i]).0).len() > 0 || trimmed(
                fields[i].1,
            ).len() > 0) ==> normalized_fields(fields).contains(
                (trimmed(fields[i].0), trimmed(fields[i].1)),
            ),
        forall|k: int|
            0 <= k < normalized_fields(fields).len() ==> {
                let field = #[trigger] normalized_fields(fields)[k];
                &&& field.0.len() > 0 || field.1.len() > 0
                &&& exists|i: int|
                    0 <= i < fields.len() && trimmed((#[trigger] fields[i]).0) == field.0
                        && trimmed(fields[i].1) == field.1
            },
    decreases fields.len(),
{
    if fields.len() > 0 {
        let shorter = fields.drop_last();
        let before = normalized_fields(shorter);
        let now = normalized_fields(fields);
        filled_fields_are_kept(shorter);
        assert forall|i: int|
            0 <= i < fields.len() && (trimmed((#[trigger] fields[i]).0).len() > 0 || trimmed(
                fields[i].1,
            ).len() > 0) implies normalized_fields(fields).contains(
            (trimmed(fields[i].0), trimmed(fields[i].1)),
        ) by {
            lemma_normalized_field(fields, i);
        }
        assert forall|k: int| 0 <= k < now.len() implies {
            let field = #[trigger] now[k];
            &&& field.0.len() > 0 || field.1.len() > 0
            &&& exists|i: int|
                0 <= i < fields.len() && trimmed((#[trigger] fields[i]).0) == field.0 && trimmed(
                    fields[i].1,
                ) == field.1
        } by {
            if k < before.len() {
                assert(now[k] == before[k]);
                let i = choose|i: int|
                    0 <= i < shorter.len() && trimmed((#[trigger] shorter[i]).0) == before[k].0
                        && trimmed(shorter[i].1) == before[k].1;
                assert(fields[i] == shorter[i]);
            } else {
                assert(fields[fields.len() - 1] == fields.last());
            }
        }
    }
}

/// A name that is not blank stands, and another takes the place of a blank one; everything
/// else of the metadata is edited as it is kept.
pub proof fn blank_names_are_replaced(
    kept: MetadataView,
    project_name: Seq<char>,
    source_filename: Seq<char>,
)
    ensures
        ({
            let edited = edited_from(kept, project_name, source_filename);
            &&& trimmed(kept.project_name).len() > 0 ==> edited.kept.project_name
                == kept.project_name
            &&& trimmed(kept.project_name).len() == 0 ==> edited.kept.project_name == project_name
            &&& trimmed(kept.source_filename).len() > 0 ==> edited.kept.source_filename
                == kept.source_filename
            &&& trimmed(kept.source_filename).len() == 0 ==> edited.kept.source_filename
                == source_filename
            &&& edited.kept.tags == kept.tags
            &&& edited.kept.extra_fields == kept.extra_fields
        }),
        ({
            let edited = edited_from(kept, project_name, source_filename);
            let again = kept_from(edited, project_name, source_filename);
            &&& again.tags == kept.tags
            &&& again.project_name == edited.kept.project_name
            &&& again.source_filename == edited.kept.source_filename
        }),
{
}

/// Metadata that was kept is edited as it is, with the names put in where it has none, and
/// brings no tags of an audio file; a new player has no metadata at all.
pub proof fn kept_metadata_has_no_tags_of_audio(
    kept: MetadataView,
    project_name: Seq<char>,
    source_filename: Seq<char>,
)
    ensures
        ({
            let edited = edited_from(kept, project_name, source_filename);
            &&& edited.kept.tags == kept.tags
            &&& edited.kept.extra_fields == kept.extra_fields
            &&& edited.native_metadata.len() == 0
            &&& !edited.supports_native_metadata
        }),
        !no_metadata().supports_native_metadata,
        no_metadata().native_metadata.len() == 0,
        no_metadata().kept.extra_fields.len() == 0,
        no_metadata().kept.project_name.len() == 0,
        no_metadata().kept.source_filename.len() == 0,
{
}

} // verus!
