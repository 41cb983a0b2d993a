//! What the user does to the equalizer of decoded audio. What the settings are is the
//! equalizer's own matter: here is where they come from, whether they were edited, and
//! what the user is told.
use crate::desktop::app::{FlutzDesktopApp, ProjectState};
use crate::desktop::content::{may_be_stem, sanitize_file_stem, sanitized_stem, MasteringCapability};
use crate::desktop::peq::{PeqConfigSource, PeqEditState, PeqPresetLabel};
use crate::json::optional_text;
use crate::text::trimmed;
use vstd::prelude::*;
use vstd::string::*;

verus! {

/// What became of settings that were given to playback: whether they differ from those
/// before, or why playback refused them.
pub type Applied = Result<bool, String>;

/// Whether an equalizer's state is that after settings were applied.
pub open spec fn takes_settings(
    before: PeqEditState,
    source: PeqConfigSource,
    preset_path: Option<Seq<char>>,
    dirty: bool,
    after: PeqEditState,
) -> bool {
    &&& after == (PeqEditState { preset_path: after.preset_path, source, dirty, ..before })
    &&& optional_text(after.preset_path) == preset_path
}

fn sentence(start: &str, end: &str) -> (text: String)
    ensures
        text@ == start@ + end@,
{
    let mut text = start.to_owned();
    text.append(end);
    text
}

impl<S> FlutzDesktopApp<S> {
    /// Whether decoded audio is loaded, which the equalizer works on.
    pub open spec fn has_equalizer(&self) -> bool {
        self.mastering() == MasteringCapability::DecodedAudioPeq
    }

    /// Whether a player is another with settings that were applied, or with a word on why
    /// they were not.
    pub open spec fn settings_applied(
        &self,
        applied: Applied,
        source: PeqConfigSource,
        preset_path: Option<Seq<char>>,
        mark_dirty: bool,
        after: FlutzDesktopApp<S>,
    ) -> bool {
        if !self.has_equalizer() {
            &&& after == (FlutzDesktopApp { status: after.status, ..*self })
            &&& after.status@ == "Load decoded audio before editing PEQ"@
        } else {
            match applied {
                Ok(changed) => {
                    &&& takes_settings(
                        self.project.peq_edit_state,
                        source,
                        preset_path,
                        mark_dirty && changed,
                        after.project.peq_edit_state,
                    )
                    &&& after == (FlutzDesktopApp {
                        project: ProjectState {
                            peq_edit_state: after.project.peq_edit_state,
                            dirty: self.project.dirty || (changed && mark_dirty),
                            ..self.project
                        },
                        ..*self
                    })
                },
                Err(error) => {
                    &&& after == (FlutzDesktopApp { status: after.status, ..*self })
                    &&& after.status@ == error@
                },
            }
        }
    }

    fn apply_settings(
        &mut self,
        applied: Applied,
        source: PeqConfigSource,
        preset_path: Option<String>,
        mark_dirty: bool,
    )
        requires
            old(self).wf(),
        ensures
            final(self).wf(),
            old(self).settings_applied(
                applied,
                source,
                optional_text(preset_path),
                mark_dirty,
                *final(self),
            ),
    {
        if !self.require_decoded_audio("Load decoded audio before editing PEQ") {
            return;
        }
        match applied {
            Ok(changed) => self.peq_config_applied(source, preset_path, changed, mark_dirty),
            Err(error) => self.set_status(error),
        }
    }

    /// Takes in that settings were edited. They stay where they come from.
    pub fn apply_decoded_peq_config(&mut self, applied: Applied)
        requires
            old(self).wf(),
        ensures
            final(self).wf(),
            old(self).settings_applied(
                applied,
                old(self).project.peq_edit_state.source,
                optional_text(old(self).project.peq_edit_state.preset_path),
                true,
                *final(self),
            ),
    {
        let source = self.project.peq_edit_state.source;
        let path = match &self.project.peq_edit_state.preset_path {
            Some(path) => Some(path.clone()),
            None => None,
        };
        self.apply_settings(applied, source, path, true);
    }

    /// Takes in that the default settings were asked for.
    pub fn reset_decoded_peq_config(&mut self, applied: Applied)
        requires
            old(self).wf(),
        ensures
            final(self).wf(),
            old(self).settings_applied(
                applied,
                PeqConfigSource::Default,
                None,
                false,
                *final(self),
            ),
    {
        self.apply_settings(applied, PeqConfigSource::Default, None, false);
    }

    /// Takes in that a preset of the player was asked for, by its name.
    pub fn apply_builtin_decoded_peq_preset(&mut self, name: &str, applied: Applied)
        requires
            old(self).wf(),
        ensures
            final(self).wf(),
            if old(self).has_equalizer() {
                &&& exists|between: FlutzDesktopApp<S>|
                    {
                        &&& #[trigger] old(self).settings_applied(
                            applied,
                            PeqConfigSource::BuiltInPreset,
                            None,
                            true,
                            between,
                        )
                        &&& *final(self) == (FlutzDesktopApp {
                            project: ProjectState {
                                peq_edit_state: PeqEditState {
                                    preset_name: final(self).project.peq_edit_state.preset_name,
                                    ..between.project.peq_edit_state
                                },
                                ..between.project
                            },
                            status: final(self).status,
                            ..between
                        })
                    }
                &&& optional_text(final(self).project.peq_edit_state.preset_name) == Some(name@)
                &&& final(self).status@ == "Applied built-in PEQ preset "@ + name@
            } else {
                &&& *final(self) == (FlutzDesktopApp { status: final(self).status, ..*old(self) })
                &&& final(self).status@ == "Load decoded audio before selecting a PEQ preset"@
            },
    {
        if !self.require_decoded_audio("Load decoded audio before selecting a PEQ preset") {
            return;
        }
        self.apply_settings(applied, PeqConfigSource::BuiltInPreset, None, true);
        let ghost between = *self;
        assert(old(self).settings_applied(
            applied,
            PeqConfigSource::BuiltInPreset,
            None,
            true,
            between,
        ));
        self.project.peq_edit_state.preset_name = Some(name.to_owned());
        self.status = sentence("Applied built-in PEQ preset ", name);
    }

    /// Takes in a preset file that the user picked, if they picked one: the name of the
    /// preset and what became of its settings, or why the file cannot be read.
    pub fn decoded_peq_preset_loaded(
        &mut self,
        path: Option<&str>,
        loaded: Result<(Option<String>, Applied), String>,
    )
        requires
            old(self).wf(),
        ensures
            final(self).wf(),
            if !old(self).has_equalizer() {
                &&& *final(self) == (FlutzDesktopApp { status: final(self).status, ..*old(self) })
                &&& final(self).status@ == "Load decoded audio before loading a PEQ preset"@
            } else {
                match (path, loaded) {
                    (None, _) => {
                        &&& *final(self) == (FlutzDesktopApp {
                            status: final(self).status,
                            ..*old(self)
                        })
                        &&& final(self).status@ == "Load PEQ canceled"@
                    },
                    (Some(_), Err(error)) => {
                        &&& *final(self) == (FlutzDesktopApp {
                            status: final(self).status,
                            ..*old(self)
                        })
                        &&& final(self).status@ == error@
                    },
                    (Some(path), Ok((name, applied))) => {
                        &&& exists|between: FlutzDesktopApp<S>|
                            {
                                &&& #[trigger] old(self).settings_applied(
                                    applied,
                                    PeqConfigSource::PresetFile,
                                    Some(path@),
                                    false,
                                    between,
                                )
                                &&& *final(self) == (FlutzDesktopApp {
                                    project: ProjectState {
                                        peq_edit_state: PeqEditState {
                                            preset_name: name,
                                            dirty: false,
                                            ..between.project.peq_edit_state
                                        },
                                        ..between.project
                                    },
                                    status: final(self).status,
                                    ..between
                                })
                            }
                        &&& final(self).status@ == "Loaded PEQ preset "@ + path@
                    },
                }
            },
    {
        if !self.require_decoded_audio("Load decoded audio before loading a PEQ preset") {
            return;
        }
        let path = match path {
            Some(path) => path,
            None => {
                self.status = "Load PEQ canceled".to_owned();
                return;
            },
        };
        match loaded {
            Err(error) => {
                self.status = error;
            },
            Ok((name, applied)) => {
                self.apply_settings(
                    applied,
                    PeqConfigSource::PresetFile,
                    Some(path.to_owned()),
                    false,
                );
                let ghost between = *self;
                assert(old(self).settings_applied(
                    applied,
                    PeqConfigSource::PresetFile,
                    Some(path@),
                    false,
                    between,
                ));
                self.project.peq_edit_state.preset_name = name;
                self.project.peq_edit_state.dirty = false;
                self.status = sentence("Loaded PEQ preset ", path);
            },
        }
    }

    /// Makes the settings the default ones. Returns what the default preset is called then,
    /// which belongs into the preferences with the settings; `tags` are those of the
    /// settings.
    pub fn save_decoded_peq_default(&mut self, tags: Vec<String>) -> (default: PeqPresetLabel)
        requires
            old(self).wf(),
        ensures
            final(self).wf(),
            default.is_default(),
            *final(self) == (FlutzDesktopApp {
                project: ProjectState {
                    peq_edit_state: PeqEditState {
                        dirty: old(self).project.peq_edit_state.dirty
                            && old(self).project.peq_edit_state.source != PeqConfigSource::Default,
                        ..old(self).project.peq_edit_state
                    },
                    ..old(self).project
                },
                status: final(self).status,
                ..*old(self)
            }),
            final(self).status@ == "Saved decoded audio PEQ default to preferences.ini"@,
    {
        self.status = "Saved decoded audio PEQ default to preferences.ini".to_owned();
        self.project.peq_edit_state.saved_as_default(tags)
    }

    /// Where the settings are saved: where they come from, or where the user says.
    pub fn save_decoded_peq_preset(&self) -> (path: Option<String>)
        ensures
            optional_text(path) == optional_text(self.project.peq_edit_state.preset_path),
    {
        match &self.project.peq_edit_state.preset_path {
            Some(path) => Some(path.clone()),
            None => None,
        }
    }

    /// The name that the user is offered for the settings, if there is decoded audio.
    pub fn save_decoded_peq_preset_as(&mut self) -> (name: Option<String>)
        requires
            old(self).wf(),
        ensures
            final(self).wf(),
            *final(self) == (FlutzDesktopApp { status: final(self).status, ..*old(self) }),
            match name {
                Some(name) => {
                    &&& old(self).has_equalizer()
                    &&& final(self).status@ == old(self).status@
                    &&& exists|stem: Option<Seq<char>>|
                        may_be_stem(trimmed(old(self).project.project_title@), stem) && name@
                            == #[trigger] sanitized_stem(old(self).project.project_title@, stem)
                            + ".fpeq"@
                },
                None => {
                    &&& !old(self).has_equalizer()
                    &&& final(self).status@ == "Load decoded audio before saving a PEQ preset"@
                },
            },
    {
        if !self.require_decoded_audio("Load decoded audio before saving a PEQ preset") {
            return None;
        }
        let mut name = sanitize_file_stem(self.project.project_title.as_str());
        name.append(".fpeq");
        Some(name)
    }

    /// Takes in that settings were saved under a path, or why not; no path means that the
    /// user gave none. Settings without a name are saved under that of the project.
    pub fn decoded_peq_preset_saved(&mut self, path: Option<&str>, saved: Result<(), String>)
        requires
            old(self).wf(),
        ensures
            final(self).wf(),
            match (path, saved) {
                (None, _) => {
                    &&& *final(self) == (FlutzDesktopApp {
                        status: final(self).status,
                        ..*old(self)
                    })
                    &&& final(self).status@ == "Save PEQ canceled"@
                },
                (Some(_), Err(error)) => {
                    &&& *final(self) == (FlutzDesktopApp {
                        status: final(self).status,
                        ..*old(self)
                    })
                    &&& final(self).status@ == error@
                },
                (Some(path), Ok(_)) => {
                    let before = old(self).project.peq_edit_state;
                    let after = final(self).project.peq_edit_state;
                    &&& *final(self) == (FlutzDesktopApp {
                        project: ProjectState { peq_edit_state: after, ..old(self).project },
                        status: final(self).status,
                        ..*old(self)
                    })
                    &&& after.source == before.source
                    &&& optional_text(after.preset_path) == Some(path@)
                    &&& optional_text(after.preset_name) == Some(
                        match before.preset_name {
                            Some(name) => name@,
                            None => old(self).project.project_title@,
                        },
                    )
                    &&& after.dirty == (before.dirty && before.source
                        != PeqConfigSource::PresetFile)
                    &&& final(self).status@ == "Saved PEQ preset "@ + path@
                },
            },
    {
        let path = match path {
            Some(path) => path,
            None => {
                self.status = "Save PEQ canceled".to_owned();
                return;
            },
        };
        match saved {
            Err(error) => {
                self.status = error;
            },
            Ok(_) => {
                let name = self.project.peq_edit_state.saved_name(
                    self.project.project_title.as_str(),
                );
                self.project.peq_edit_state.saved_to_file(name, path.to_owned());
                self.status = sentence("Saved PEQ preset ", path);
            },
        }
    }

    /// Takes in that playback follows the bypass, or why it does not.
    pub fn decoded_peq_bypass_applied(&mut self, applied: Result<(), String>)
        requires
            old(self).wf(),
        ensures
            final(self).wf(),
            *final(self) == (FlutzDesktopApp { status: final(self).status, ..*old(self) }),
            final(self).status@ == match applied {
                Ok(_) => if old(self).project.decoded_peq_bypass_enabled {
                    "Bypass EQ enabled"@
                } else {
                    "Bypass EQ disabled"@
                },
                Err(error) => error@,
            },
    {
        self.status = match applied {
            Ok(_) => if self.project.decoded_peq_bypass_enabled {
                "Bypass EQ enabled".to_owned()
            } else {
                "Bypass EQ disabled".to_owned()
            },
            Err(error) => error,
        };
    }
}

/// Settings of the equalizer are taken where decoded audio is loaded and they could be
/// applied: with their source and their file. The project is changed by settings that differ
/// and are to be saved, and by no others; refused settings change nothing but the status.
pub proof fn settings_are_taken_where_they_apply<S>(
    app: FlutzDesktopApp<S>,
    applied: Applied,
    source: PeqConfigSource,
    preset_path: Option<Seq<char>>,
    mark_dirty: bool,
    after: FlutzDesktopApp<S>,
)
    requires
        app.settings_applied(applied, source, preset_path, mark_dirty, after),
    ensures
        ({
            let decoded = app.project.loaded_content is Some
                && app.project.loaded_content->Some_0.mastering
                == MasteringCapability::DecodedAudioPeq;
            let settings = after.project.peq_edit_state;
            &&& !decoded || applied is Err ==> after.project == app.project && after.playback
                == app.playback
            &&& decoded && applied is Ok ==> {
                &&& settings.source == source
                &&& optional_text(settings.preset_path) == preset_path
                &&& settings.preset_name == app.project.peq_edit_state.preset_name
                &&& settings.dirty == (mark_dirty && applied->Ok_0)
                &&& after.project.dirty == (app.project.dirty || (mark_dirty && applied->Ok_0))
                &&& after.status == app.status
            }
            &&& decoded && applied is Err ==> after.status@ == applied->Err_0@
        }),
{
}

} // verus!
