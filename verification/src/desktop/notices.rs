//! What the user is told, and what changes with it: opening files, background loads, moving
//! through a playlist, saving one, and the performance trace.
use crate::desktop::app::FlutzDesktopApp;
use crate::desktop::content::{action_for_format, open_action, opened_as, playlist_entry_action};
use crate::desktop::content::{FormatFacts, OpenAction};
use crate::desktop::playlist::{decoded_job_failure, job_failure, next_token, playlist_skip_reason};
use crate::desktop::playlist::{skip_text, AppRunState, DecodedLoadOrder, DecodedLoads, EntryFacts};
use crate::desktop::playlist::PlaylistFacts;
use crate::json::optional_text;
use vstd::prelude::*;
use vstd::string::*;

verus! {

/// What becomes of the performance trace. Where a file is written, its path comes with it,
/// or why it could not be.
#[derive(Debug)]
pub enum TraceNotice {
    LoggingStarted(Result<String, String>),
    LoggingStopped,
    Exported(Result<String, String>),
    Cleared,
}

impl TraceNotice {
    /// What the user is told of it.
    pub open spec fn told(self) -> Seq<char> {
        match self {
            TraceNotice::LoggingStarted(Ok(path)) => "Performance trace logging to "@ + path@,
            TraceNotice::LoggingStarted(Err(error)) => error@,
            TraceNotice::LoggingStopped => "Performance trace logging stopped"@,
            TraceNotice::Exported(Ok(path)) => "Performance trace exported to "@ + path@,
            TraceNotice::Exported(Err(error)) => error@,
            TraceNotice::Cleared => "Performance trace cleared"@,
        }
    }
}

/// Why a playlist was not saved: its folder or the file itself.
#[derive(Debug)]
pub enum PlaylistSaveFailure {
    Folder { path: String, error: String },
    File { error: String },
}

fn sentence(start: &str, end: &str) -> (text: String)
    ensures
        text@ == start@ + end@,
{
    let mut text = start.to_owned();
    text.append(end);
    text
}

impl<S> FlutzDesktopApp<S> {
    /// Tells the user what became of the performance trace.
    pub fn perf_trace_notice(&mut self, notice: TraceNotice)
        requires
            old(self).wf(),
        ensures
            final(self).wf(),
            *final(self) == (FlutzDesktopApp { status: final(self).status, ..*old(self) }),
            final(self).status@ == notice.told(),
    {
        self.status = match notice {
            TraceNotice::LoggingStarted(Ok(path)) => sentence(
                "Performance trace logging to ",
                path.as_str(),
            ),
            TraceNotice::LoggingStarted(Err(error)) => error,
            TraceNotice::LoggingStopped => "Performance trace logging stopped".to_owned(),
            TraceNotice::Exported(Ok(path)) => sentence(
                "Performance trace exported to ",
                path.as_str(),
            ),
            TraceNotice::Exported(Err(error)) => error,
            TraceNotice::Cleared => "Performance trace cleared".to_owned(),
        };
    }

    /// What the user is told when the playlist gives no track.
    pub open spec fn nothing_to_play(
        playlist: Option<PlaylistFacts>,
        entries: Seq<EntryFacts>,
    ) -> Seq<char> {
        match playlist {
            None => "No playlist loaded"@,
            Some(playlist) => if playlist.entry_count == 0 {
                "Playlist is empty"@
            } else {
                skip_text(entries)
            },
        }
    }

    /// Moves through the playlist. `target` is the entry that its order gives, and
    /// `entries` are all of them. Returns the entry to load and whether it is played right
    /// away.
    pub fn next_track(&mut self, target: Option<usize>, entries: &[EntryFacts]) -> (load: Option<
        (usize, bool),
    >)
        requires
            old(self).wf(),
        ensures
            final(self).wf(),
            match (old(self).playlist, target) {
                (Some(playlist), Some(index)) if playlist.entry_count > 0 => {
                    &&& load == Some((index, old(self).run_state == AppRunState::Playing))
                    &&& *final(self) == *old(self)
                },
                _ => {
                    &&& load is None
                    &&& *final(self) == (FlutzDesktopApp {
                        status: final(self).status,
                        ..*old(self)
                    })
                    &&& final(self).status@ == FlutzDesktopApp::<S>::nothing_to_play(
                        old(self).playlist,
                        entries@,
                    )
                },
            },
    {
        match self.playlist {
            None => {
                self.status = "No playlist loaded".to_owned();
                None
            },
            Some(playlist) => {
                if playlist.entry_count == 0 {
                    self.status = "Playlist is empty".to_owned();
                    return None;
                }
                match target {
                    Some(index) => Some((index, self.autoplays())),
                    None => {
                        self.status = playlist_skip_reason(Some(entries));
                        None
                    },
                }
            },
        }
    }

    /// Moves back through the playlist, in the same way.
    pub fn prev_track(&mut self, target: Option<usize>, entries: &[EntryFacts]) -> (load: Option<
        (usize, bool),
    >)
        requires
            old(self).wf(),
        ensures
            final(self).wf(),
            match (old(self).playlist, target) {
                (Some(playlist), Some(index)) if playlist.entry_count > 0 => {
                    &&& load == Some((index, old(self).run_state == AppRunState::Playing))
                    &&& *final(self) == *old(self)
                },
                _ => {
                    &&& load is None
                    &&& *final(self) == (FlutzDesktopApp {
                        status: final(self).status,
                        ..*old(self)
                    })
                    &&& final(self).status@ == FlutzDesktopApp::<S>::nothing_to_play(
                        old(self).playlist,
                        entries@,
                    )
                },
            },
    {
        self.next_track(target, entries)
    }

    /// Takes in that the playlist was saved under a path, or why not.
    pub fn playlist_saved(&mut self, path: &str, saved: Result<(), PlaylistSaveFailure>)
        requires
            old(self).wf(),
        ensures
            final(self).wf(),
            match (old(self).playlist, saved) {
                (None, _) => {
                    &&& *final(self) == (FlutzDesktopApp {
                        status: final(self).status,
                        ..*old(self)
                    })
                    &&& final(self).status@ == "No playlist loaded"@
                },
                (Some(playlist), Ok(_)) => {
                    &&& *final(self) == (FlutzDesktopApp {
                        playlist: Some(PlaylistFacts { dirty: false, ..playlist }),
                        status: final(self).status,
                        ..*old(self)
                    })
                    &&& final(self).status@ == "Saved playlist "@ + path@
                },
                (Some(_), Err(failure)) => {
                    &&& *final(self) == (FlutzDesktopApp {
                        status: final(self).status,
                        ..*old(self)
                    })
                    &&& final(self).status@ == match failure {
                        PlaylistSaveFailure::Folder { path, error } => "failed to create "@ + path@
                            + ": "@ + error@,
                        PlaylistSaveFailure::File { error } => error@,
                    }
                },
            },
    {
        let playlist = match self.playlist {
            Some(playlist) => playlist,
            None => {
                self.status = "No playlist loaded".to_owned();
                return;
            },
        };
        match saved {
            Ok(_) => {
                self.playlist = Some(PlaylistFacts { dirty: false, ..playlist });
                self.status = sentence("Saved playlist ", path);
            },
            Err(PlaylistSaveFailure::Folder { path, error }) => {
                let mut text = sentence("failed to create ", path.as_str());
                text.append(": ");
                text.append(error.as_str());
                self.status = text;
            },
            Err(PlaylistSaveFailure::File { error }) => {
                self.status = error;
            },
        }
    }
}

/// What a background load has to say when it is asked.
#[derive(Debug, Copy, Clone, PartialEq, Eq, Structural)]
pub enum LoadArrival {
    /// Nothing yet.
    Pending,
    /// It is gone without a result.
    Lost,
    /// A result, with the token of its order.
    Result(u64),
}

/// A dialog that the user closed without choosing anything.
#[derive(Debug, Copy, Clone, PartialEq, Eq, Structural)]
pub enum CanceledDialog {
    Open,
    SaveAs,
    SavePlaylistAs,
}

impl CanceledDialog {
    /// What the user is told of it.
    pub open spec fn told(self) -> Seq<char> {
        match self {
            CanceledDialog::Open => "Open canceled"@,
            CanceledDialog::SaveAs => "Save As canceled"@,
            CanceledDialog::SavePlaylistAs => "Playlist Save As canceled"@,
        }
    }
}

impl<S> FlutzDesktopApp<S> {
    /// Takes in that a dialog was closed without a choice.
    pub fn dialog_canceled(&mut self, dialog: CanceledDialog)
        requires
            old(self).wf(),
        ensures
            final(self).wf(),
            *final(self) == (FlutzDesktopApp { status: final(self).status, ..*old(self) }),
            final(self).status@ == dialog.told(),
    {
        self.status = match dialog {
            CanceledDialog::Open => "Open canceled".to_owned(),
            CanceledDialog::SaveAs => "Save As canceled".to_owned(),
            CanceledDialog::SavePlaylistAs => "Playlist Save As canceled".to_owned(),
        };
    }

    /// How a file is opened, by its extension and its format. The user is told of a file
    /// that cannot be.
    pub fn open_project_path(&mut self, extension: Option<&str>, format: Option<FormatFacts>) -> (action:
        OpenAction)
        requires
            old(self).wf(),
        ensures
            final(self).wf(),
            action == opened_as(
                match extension {
                    Some(extension) => Some(extension@),
                    None => None,
                },
                format,
            ),
            if action == OpenAction::Unsupported {
                &&& *final(self) == (FlutzDesktopApp { status: final(self).status, ..*old(self) })
                &&& final(self).status@ == "Unsupported file type"@
            } else {
                *final(self) == *old(self)
            },
    {
        let action = open_action(extension, format);
        if action == OpenAction::Unsupported {
            self.status = "Unsupported file type".to_owned();
        }
        action
    }

    /// How an entry of the playlist is opened. The user is told of one that is skipped.
    pub fn load_playlist_entry_path(&mut self, has_extension: bool, format: Option<FormatFacts>) -> (
    action: OpenAction)
        requires
            old(self).wf(),
        ensures
            final(self).wf(),
            action == if has_extension {
                action_for_format(format)
            } else {
                OpenAction::Unsupported
            },
            if action == OpenAction::Unsupported {
                &&& *final(self) == (FlutzDesktopApp { status: final(self).status, ..*old(self) })
                &&& final(self).status@
                    == "Skipped unsupported file: unsupported playlist entry type"@
            } else {
                *final(self) == *old(self)
            },
    {
        let action = playlist_entry_action(has_extension, format);
        if action == OpenAction::Unsupported {
            self.status = "Skipped unsupported file: unsupported playlist entry type".to_owned();
        }
        action
    }

    /// Whether a track that was loaded in place is played now.
    pub fn plays_after_load(&self, resume_after_load: bool) -> (plays: bool)
        ensures
            plays == (resume_after_load && self.project.current_path is Some),
    {
        resume_after_load && self.has_loaded_project()
    }

    /// Orders a background load of decoded audio, and returns its token.
    pub fn load_decoded_audio_path(&mut self, resume_after_load: bool, playlist_entry_load: bool) -> (
    token: u64)
        requires
            old(self).wf(),
        ensures
            final(self).wf(),
            *final(self) == (FlutzDesktopApp {
                decoded_loads: old(self).decoded_loads.ordered(
                    resume_after_load,
                    playlist_entry_load,
                ),
                ..*old(self)
            }),
            token == next_token(old(self).decoded_loads.token),
    {
        self.decoded_loads.order(resume_after_load, playlist_entry_load)
    }

    /// Takes in that a background load of a file was started, or why not, and returns what
    /// the trace notes of it.
    pub fn decoded_load_started(&mut self, path: &str, started: Result<(), String>) -> (outcome:
        &'static str)
        requires
            old(self).wf(),
        ensures
            final(self).wf(),
            match started {
                Ok(_) => {
                    &&& *final(self) == (FlutzDesktopApp {
                        status: final(self).status,
                        ..*old(self)
                    })
                    &&& final(self).status@ == "Loading decoded audio "@ + path@
                    &&& outcome@ == "scheduled"@
                },
                Err(error) => {
                    &&& *final(self) == (FlutzDesktopApp {
                        decoded_loads: DecodedLoads { pending: None, ..old(self).decoded_loads },
                        status: final(self).status,
                        ..*old(self)
                    })
                    &&& final(self).status@ == "failed to start decoded audio load: "@ + error@
                    &&& outcome@ == "spawn_error"@
                },
            },
    {
        match started {
            Ok(_) => {
                self.status = sentence("Loading decoded audio ", path);
                "scheduled"
            },
            Err(error) => {
                self.decoded_loads.abandon();
                self.status = sentence("failed to start decoded audio load: ", error.as_str());
                "spawn_error"
            },
        }
    }

    /// Takes in what a background load has to say, and returns the order to carry out, if
    /// there is a result and it is not out of date.
    pub fn process_pending_decoded_audio_load(&mut self, arrival: LoadArrival) -> (order: Option<
        DecodedLoadOrder,
    >)
        requires
            old(self).wf(),
        ensures
            final(self).wf(),
            if old(self).decoded_loads.pending is None || arrival == LoadArrival::Pending {
                order is None && *final(self) == *old(self)
            } else {
                &&& *final(self) == (FlutzDesktopApp {
                    decoded_loads: DecodedLoads { pending: None, ..old(self).decoded_loads },
                    status: final(self).status,
                    ..*old(self)
                })
                &&& match arrival {
                    LoadArrival::Result(token) => {
                        &&& order == old(self).decoded_loads.order_of(token)
                        &&& final(self).status == old(self).status
                    },
                    _ => {
                        &&& order is None
                        &&& final(self).status@
                            == "decoded audio load worker exited before reporting a result"@
                    },
                }
            },
    {
        if self.decoded_loads.pending.is_none() {
            return None;
        }
        match arrival {
            LoadArrival::Pending => None,
            LoadArrival::Lost => {
                self.decoded_loads.abandon();
                self.status =
                "decoded audio load worker exited before reporting a result".to_owned();
                None
            },
            LoadArrival::Result(token) => self.decoded_loads.finish(token),
        }
    }

    /// Takes in a result that cannot be used: why the load failed, or what it lacks.
    /// Returns whether it can.
    pub fn decoded_load_usable(
        &mut self,
        error: &Option<String>,
        stage: &str,
        has_wrapper: bool,
        has_source: bool,
    ) -> (usable: bool)
        requires
            old(self).wf(),
        ensures
            final(self).wf(),
            ({
                let failure = job_failure(optional_text(*error), stage@, has_wrapper, has_source);
                &&& usable == (failure is None)
                &&& match failure {
                    Some(text) => {
                        &&& *final(self) == (FlutzDesktopApp {
                            status: final(self).status,
                            ..*old(self)
                        })
                        &&& final(self).status@ == text
                    },
                    None => *final(self) == *old(self),
                }
            }),
    {
        match decoded_job_failure(error, stage, has_wrapper, has_source) {
            Some(text) => {
                self.status = text;
                false
            },
            None => true,
        }
    }
}

/// A saved playlist asks no question when another file is opened.
pub proof fn saved_playlist_is_clean(playlist: PlaylistFacts)
    ensures
        !crate::desktop::playlist::asks_before_opening(
            Some(PlaylistFacts { dirty: false, ..playlist }),
        ),
{
}

} // verus!
