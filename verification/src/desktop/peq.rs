//! The equalizer of decoded audio: where its settings come from and what they are
//! called. The settings themselves are numbers that live with the equalizer.
use crate::desktop::content::{file_stem, may_be_stem};
use crate::json::optional_text;
use crate::text::text_eq;
use vstd::prelude::*;
use vstd::string::*;

verus! {

/// Where the settings of the equalizer come from.
#[derive(Debug, Copy, Clone, PartialEq, Eq, Structural)]
pub enum PeqConfigSource {
    Inactive,
    Wrapper,
    Default,
    PresetFile,
    BuiltInPreset,
}

impl PeqConfigSource {
    pub open spec fn text(self) -> Seq<char> {
        match self {
            PeqConfigSource::Inactive => "No decoded audio"@,
            PeqConfigSource::Wrapper => "Embedded"@,
            PeqConfigSource::Default => "Default"@,
            PeqConfigSource::PresetFile => "Preset file"@,
            PeqConfigSource::BuiltInPreset => "Built-in preset"@,
        }
    }

    pub fn label(self) -> (label: &'static str)
        ensures
            label@ == self.text(),
    {
        match self {
            PeqConfigSource::Inactive => "No decoded audio",
            PeqConfigSource::Wrapper => "Embedded",
            PeqConfigSource::Default => "Default",
            PeqConfigSource::PresetFile => "Preset file",
            PeqConfigSource::BuiltInPreset => "Built-in preset",
        }
    }
}

/// What a preset of the equalizer is called.
#[derive(Debug)]
pub struct PeqPresetLabel {
    pub name: Option<String>,
    pub tags: Vec<String>,
}

impl PeqPresetLabel {
    /// The default preset has its own name, and no tags.
    pub open spec fn is_default(&self) -> bool {
        optional_text(self.name) == Some("Default"@) && self.tags@.len() == 0
    }
}

/// What a preset is called once it is the default one.
pub fn normalize_default_decoded_peq_preset(preset: PeqPresetLabel) -> (label: PeqPresetLabel)
    ensures
        label.is_default(),
{
    let mut label = preset;
    label.name = Some("Default".to_owned());
    label.tags.clear();
    label
}

/// What a preset is called while it is used for a track: it keeps its name alone.
pub fn normalize_runtime_decoded_peq_preset(preset: PeqPresetLabel) -> (label: PeqPresetLabel)
    ensures
        label.name == preset.name,
        label.tags@.len() == 0,
{
    let mut label = preset;
    label.tags.clear();
    label
}

/// The name of the settings of a track: that of its own preset, or of the default one.
pub open spec fn track_preset_name(embedded: Option<PeqPresetLabel>) -> Option<Seq<char>> {
    match embedded {
        Some(label) => optional_text(label.name),
        None => Some("Default"@),
    }
}

/// The settings of the equalizer as the user edits them.
#[derive(Debug)]
pub struct PeqEditState {
    pub preset_name: Option<String>,
    pub source: PeqConfigSource,
    pub preset_path: Option<String>,
    pub dirty: bool,
}

impl PeqEditState {
    /// The state while there is no decoded audio.
    pub open spec fn is_inactive(&self) -> bool {
        &&& optional_text(self.preset_name) == Some("Current Track Wrapper Settings"@)
        &&& self.source == PeqConfigSource::Inactive
        &&& self.preset_path is None
        &&& !self.dirty
    }
}

impl Default for PeqEditState {
    fn default() -> (state: PeqEditState)
        ensures
            state.is_inactive(),
    {
        PeqEditState {
            preset_name: Some("Current Track Wrapper Settings".to_owned()),
            source: PeqConfigSource::Inactive,
            preset_path: None,
            dirty: false,
        }
    }
}

/// The name of the settings, given the stem of the preset file's path.
pub open spec fn base_name(state: PeqEditState, stem: Option<Seq<char>>) -> Seq<char> {
    match state.source {
        PeqConfigSource::Inactive => "No decoded audio"@,
        PeqConfigSource::Wrapper => "Embedded"@,
        PeqConfigSource::Default => "Default"@,
        PeqConfigSource::PresetFile => match state.preset_name {
            Some(name) => name@,
            None => match state.preset_path {
                Some(_) => match stem {
                    Some(stem) => stem,
                    None => "Preset"@,
                },
                None => "Preset"@,
            },
        },
        PeqConfigSource::BuiltInPreset => match state.preset_name {
            Some(name) => name@,
            None => "Built-in"@,
        },
    }
}

/// The name of the settings, with a star where they were edited.
pub open spec fn display_name(state: PeqEditState, stem: Option<Seq<char>>) -> Seq<char> {
    if state.dirty {
        base_name(state, stem) + "*"@
    } else {
        base_name(state, stem)
    }
}

impl PeqEditState {
    /// The name of the settings, given the stem of the preset file's path.
    pub fn display_name_with_stem(&self, stem: &Option<String>) -> (name: String)
        ensures
            name@ == display_name(*self, optional_text(*stem)),
    {
        let mut name = match self.source {
            PeqConfigSource::Inactive => "No decoded audio".to_owned(),
            PeqConfigSource::Wrapper => "Embedded".to_owned(),
            PeqConfigSource::Default => "Default".to_owned(),
            PeqConfigSource::PresetFile => match &self.preset_name {
                Some(name) => name.clone(),
                None => match &self.preset_path {
                    Some(_) => match stem {
                        Some(stem) => stem.clone(),
                        None => "Preset".to_owned(),
                    },
                    None => "Preset".to_owned(),
                },
            },
            PeqConfigSource::BuiltInPreset => match &self.preset_name {
                Some(name) => name.clone(),
                None => "Built-in".to_owned(),
            },
        };
        if self.dirty {
            name.append("*");
        }
        name
    }

    /// The name of the settings.
    pub fn decoded_peq_preset_display_name(&self) -> (name: String)
        ensures
            exists|stem: Option<Seq<char>>|
                name@ == #[trigger] display_name(*self, stem) && (self.preset_path is Some
                    ==> may_be_stem(self.preset_path->Some_0@, stem)),
            !(self.source == PeqConfigSource::PresetFile && self.preset_name is None) ==> name@
                == display_name(*self, None),
    {
        let stem = match &self.preset_path {
            Some(path) => file_stem(path.as_str()),
            None => None,
        };
        let name = self.display_name_with_stem(&stem);
        assert(name@ == display_name(*self, optional_text(stem)));
        name
    }

    /// Where the settings are kept, for the user.
    pub open spec fn place(&self) -> Seq<char> {
        match self.source {
            PeqConfigSource::Inactive => "No decoded audio loaded"@,
            PeqConfigSource::Wrapper => "Embedded in current media file"@,
            PeqConfigSource::Default => "Stored in preferences.ini"@,
            PeqConfigSource::PresetFile => match self.preset_path {
                Some(path) => path@,
                None => "Preset file"@,
            },
            PeqConfigSource::BuiltInPreset => "Bundled with flutzPlayer"@,
        }
    }

    pub fn decoded_peq_preset_path_label(&self) -> (label: String)
        ensures
            label@ == self.place(),
    {
        match self.source {
            PeqConfigSource::Inactive => "No decoded audio loaded".to_owned(),
            PeqConfigSource::Wrapper => "Embedded in current media file".to_owned(),
            PeqConfigSource::Default => "Stored in preferences.ini".to_owned(),
            PeqConfigSource::PresetFile => match &self.preset_path {
                Some(path) => path.clone(),
                None => "Preset file".to_owned(),
            },
            PeqConfigSource::BuiltInPreset => "Bundled with flutzPlayer".to_owned(),
        }
    }

    /// Takes over settings that the equalizer accepted. `changed` says whether they
    /// differ from those before. Returns whether the project was changed.
    pub fn take_config(
        &mut self,
        source: PeqConfigSource,
        preset_path: Option<String>,
        changed: bool,
        mark_dirty: bool,
    ) -> (edited: bool)
        ensures
            *final(self) == (PeqEditState {
                preset_name: old(self).preset_name,
                source,
                preset_path,
                dirty: mark_dirty && changed,
            }),
            edited == (changed && mark_dirty),
    {
        self.source = source;
        self.preset_path = preset_path;
        self.dirty = mark_dirty && changed;
        changed && mark_dirty
    }

    /// Takes over the settings of a track: its own, or the default ones.
    pub fn take_track(&mut self, embedded: Option<PeqPresetLabel>)
        ensures
            final(self).is_of_track(embedded),
    {
        match embedded {
            Some(label) => {
                self.preset_name = normalize_runtime_decoded_peq_preset(label).name;
                self.source = PeqConfigSource::Wrapper;
            },
            None => {
                self.preset_name = Some("Default".to_owned());
                self.source = PeqConfigSource::Default;
            },
        }
        self.preset_path = None;
        self.dirty = false;
    }

    /// The settings are those of a track.
    pub open spec fn is_of_track(&self, embedded: Option<PeqPresetLabel>) -> bool {
        &&& optional_text(self.preset_name) == track_preset_name(embedded)
        &&& self.source == if embedded is Some {
            PeqConfigSource::Wrapper
        } else {
            PeqConfigSource::Default
        }
        &&& self.preset_path is None
        &&& !self.dirty
    }

    /// Notes that the settings became the default ones. Returns what the default preset is
    /// called then; `tags` are those of the settings.
    pub fn saved_as_default(&mut self, tags: Vec<String>) -> (default: PeqPresetLabel)
        ensures
            default.is_default(),
            *final(self) == (PeqEditState {
                dirty: old(self).dirty && old(self).source != PeqConfigSource::Default,
                ..*old(self)
            }),
    {
        if self.source == PeqConfigSource::Default {
            self.dirty = false;
        }
        let name = match &self.preset_name {
            Some(name) => Some(name.clone()),
            None => None,
        };
        normalize_default_decoded_peq_preset(PeqPresetLabel { name, tags })
    }

    /// The name under which the settings are saved: their own, or the project's.
    pub fn saved_name(&self, project_title: &str) -> (name: String)
        ensures
            name@ == match self.preset_name {
                Some(name) => name@,
                None => project_title@,
            },
    {
        match &self.preset_name {
            Some(name) => name.clone(),
            None => project_title.to_owned(),
        }
    }

    /// Notes that the settings were saved to a file under a name.
    pub fn saved_to_file(&mut self, name: String, path: String)
        ensures
            *final(self) == (PeqEditState {
                preset_name: Some(name),
                preset_path: Some(path),
                dirty: old(self).dirty && old(self).source != PeqConfigSource::PresetFile,
                ..*old(self)
            }),
    {
        self.preset_name = Some(name);
        self.preset_path = Some(path);
        if self.source == PeqConfigSource::PresetFile {
            self.dirty = false;
        }
    }

    /// Notes that the settings were saved with the project.
    pub fn saved_with_project(&mut self)
        ensures
            *final(self) == (PeqEditState {
                source: PeqConfigSource::Wrapper,
                preset_path: None,
                dirty: false,
                ..*old(self)
            }),
    {
        self.source = PeqConfigSource::Wrapper;
        self.preset_path = None;
        self.dirty = false;
    }
}

/// The names of the presets that come with the player.
pub fn builtin_decoded_peq_preset_names() -> (names: Vec<&'static str>)
    ensures
        names@.len() == 2,
        names@[0]@ == "Default"@,
        names@[1]@ == "Flat"@,
{
    vec!["Default", "Flat"]
}

/// The file of a preset that comes with the player.
pub fn builtin_decoded_peq_preset_file(name: &str) -> (file: Option<&'static str>)
    ensures
        match file {
            Some(file) => (name@ == "Default"@ && file@ == "eq-presets/Default.fpeq"@) || (name@
                != "Default"@ && name@ == "Flat"@ && file@ == "eq-presets/Flat.fpeq"@),
            None => name@ != "Default"@ && name@ != "Flat"@,
        },
{
    if text_eq(name, "Default") {
        Some("eq-presets/Default.fpeq")
    } else if text_eq(name, "Flat") {
        Some("eq-presets/Flat.fpeq")
    } else {
        None
    }
}

/// Settings go by their preset or by where they come from, with a star behind the name while
/// they are changed.
pub proof fn settings_are_named_by_their_source(state: PeqEditState, stem: Option<Seq<char>>)
    ensures
        state.dirty ==> display_name(state, stem) == display_name(
            PeqEditState { dirty: false, ..state },
            stem,
        ) + "*"@,
        !state.dirty && state.source == PeqConfigSource::PresetFile && state.preset_name is Some
            ==> display_name(state, stem) == state.preset_name->Some_0@,
        !state.dirty && state.source == PeqConfigSource::BuiltInPreset && state.preset_name is Some
            ==> display_name(state, stem) == state.preset_name->Some_0@,
        !state.dirty && state.source == PeqConfigSource::PresetFile && state.preset_name is None
            && state.preset_path is Some && stem is Some ==> display_name(state, stem)
            == stem->Some_0,
        state.source == PeqConfigSource::PresetFile && state.preset_path is Some ==> state.place()
            == state.preset_path->Some_0@,
{
}

/// A track brings its own settings, unchanged, or takes the default ones.
pub proof fn tracks_bring_their_settings(state: PeqEditState, embedded: Option<PeqPresetLabel>)
    requires
        state.is_of_track(embedded),
    ensures
        !state.dirty,
        state.preset_path is None,
        embedded is None ==> state.source == PeqConfigSource::Default && optional_text(
            state.preset_name,
        ) == Some("Default"@),
        embedded is Some ==> state.source == PeqConfigSource::Wrapper && optional_text(
            state.preset_name,
        ) == optional_text(embedded->Some_0.name),
{
}

} // verus!
