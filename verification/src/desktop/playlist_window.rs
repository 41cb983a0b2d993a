//! The window that shows the playlist: what is marked and dragged in it, and what its
//! buttons and entries do.
use crate::desktop::app::{FlutzDesktopApp, Panels, ProjectState};
use crate::desktop::loops::PlaylistRepeatMode;
use crate::desktop::playlist::{entry_text, loop_toggled, playlist_entry_label, select_entry};
use crate::desktop::playlist::{toggle_playlist_loop, AppRunState, PlaylistFacts};
use crate::desktop::playlist::{asks_before_opening, must_ask_before_opening, of_one_file};
use crate::desktop::playlist::{opening_after_answer, opening_answered, single_entry_playlist};
use crate::desktop::playlist::{PlaylistOrderMode, PlaylistPreload, SaveAnswer};
use crate::json::optional_text;
use crate::playback::controller::TransportTarget;
use crate::sorted::{ascending_u64, insert_sorted_u64};
use crate::text::{ascii_lowered, text_eq, to_ascii_lower};
use std::collections::BTreeSet;
use vstd::prelude::*;
use vstd::std_specs::iter::IteratorSpec;

verus! {

/// What is known of the file of an entry.
#[derive(Debug, Copy, Clone, PartialEq, Eq, Structural)]
pub enum PlaylistEntryStatus {
    CurrentlyPlaying,
    Valid,
    Missing,
}

impl PlaylistEntryStatus {
    /// The sign in front of an entry.
    pub open spec fn sign(self) -> Seq<char> {
        match self {
            PlaylistEntryStatus::CurrentlyPlaying => "►"@,
            PlaylistEntryStatus::Valid => "✓"@,
            PlaylistEntryStatus::Missing => "✗"@,
        }
    }

    pub fn icon(self) -> (icon: &'static str)
        ensures
            icon@ == self.sign(),
    {
        match self {
            PlaylistEntryStatus::CurrentlyPlaying => "►",
            PlaylistEntryStatus::Valid => "✓",
            PlaylistEntryStatus::Missing => "✗",
        }
    }
}

/// An entry as the window shows it.
#[derive(Debug)]
pub struct PlaylistRow {
    pub icon: &'static str,
    pub label: String,
    pub selected: bool,
}

/// What is marked in the window, and what is being dragged.
#[derive(Debug)]
pub struct PlaylistWindow {
    pub selected: BTreeSet<u64>,
    pub drag_from: Option<u64>,
}

/// The marked entries after a click on one.
pub open spec fn marked(selected: Set<u64>, index: u64, several: bool) -> Set<u64> {
    if !several {
        Set::empty().insert(index)
    } else if selected.contains(index) {
        selected.remove(index)
    } else {
        selected.insert(index)
    }
}

fn in_order(selected: &BTreeSet<u64>) -> (indices: Vec<u64>)
    ensures
        ascending_u64(indices@),
        forall|k: u64| #[trigger] indices@.contains(k) == selected@.contains(k),
{
    broadcast use vstd::std_specs::btree::group_btree_axioms;

    let mut indices: Vec<u64> = Vec::new();
    let ghost mut n: int = 0;
    let iter = selected.iter();
    let ghost all = iter.remaining().unref();
    for index in it: iter
        invariant
            it.seq().unref() == all,
            it.seq().len() == all.len(),
            all.to_set() == selected@,
            n == it.index(),
            0 <= n <= all.len(),
            ascending_u64(indices@),
            forall|k: u64| #[trigger] indices@.contains(k) == all.take(n).contains(k),
    {
        assert(all[n] == *index);
        insert_sorted_u64(&mut indices, *index);
        assert forall|k: u64| #[trigger] indices@.contains(k) == all.take(n + 1).contains(k) by {
            if all.take(n).contains(k) {
                let i = choose|i: int| 0 <= i < n && all.take(n)[i] == k;
                assert(all.take(n + 1)[i] == k);
            }
            assert(all.take(n + 1)[n] == *index);
            if all.take(n + 1).contains(k) && k != *index {
                let i = choose|i: int| 0 <= i < n + 1 && #[trigger] all.take(n + 1)[i] == k;
                assert(all.take(n)[i] == k);
            }
        }
        proof {
            n = n + 1;
        }
    }
    proof {
        assert(all.take(n) =~= all);
        assert forall|k: u64| #[trigger] indices@.contains(k) == selected@.contains(k) by {
            assert(all.to_set().contains(k) == all.contains(k));
        }
    }
    indices
}

impl PlaylistWindow {
    /// A window in which nothing is marked or dragged.
    pub fn new() -> (window: PlaylistWindow)
        ensures
            window.selected@ == Set::<u64>::empty(),
            window.drag_from is None,
    {
        PlaylistWindow { selected: BTreeSet::new(), drag_from: None }
    }

    /// Forgets what is marked and dragged, for a new playlist.
    pub fn reset(&mut self)
        ensures
            final(self).selected@ == Set::<u64>::empty(),
            final(self).drag_from is None,
    {
        self.selected.clear();
        self.drag_from = None;
    }

    /// Takes in a click on an entry, with or without the key for several.
    pub fn clicked(&mut self, index: u64, several: bool)
        ensures
            final(self).selected@ == marked(old(self).selected@, index, several),
            final(self).drag_from == old(self).drag_from,
    {
        select_entry(&mut self.selected, index, several);
    }

    /// Takes in that an entry is being dragged.
    pub fn drag_started(&mut self, index: u64)
        ensures
            final(self).selected == old(self).selected,
            final(self).drag_from == Some(index),
    {
        self.drag_from = Some(index);
    }

    /// The move that letting go over an entry asks for: from where and to where.
    pub open spec fn dropped_on(drag_from: Option<u64>, index: u64) -> Option<(u64, u64)> {
        match drag_from {
            Some(from) => if from != index {
                Some((from, index))
            } else {
                None
            },
            None => None,
        }
    }

    /// Takes in that the pointer was let go over an entry, and returns the move of an
    /// entry that this asks for.
    pub fn released_over(&mut self, index: u64) -> (step: Option<(u64, u64)>)
        ensures
            final(self).selected == old(self).selected,
            final(self).drag_from is None,
            step == PlaylistWindow::dropped_on(old(self).drag_from, index),
    {
        match self.drag_from.take() {
            Some(from) => if from != index {
                Some((from, index))
            } else {
                None
            },
            None => None,
        }
    }

    /// Whether the button that removes entries can be pressed.
    pub fn can_remove(&self) -> (can: bool)
        ensures
            can == (self.selected@.len() != 0),
    {
        broadcast use vstd::std_specs::btree::group_btree_axioms;

        self.selected.len() != 0
    }

    /// An entry as the window shows it, by its extension.
    pub fn row(
        &self,
        index: u64,
        name: &str,
        extension: Option<&str>,
        status: PlaylistEntryStatus,
        current: Option<u64>,
    ) -> (row: PlaylistRow)
        ensures
            row.icon@ == status.sign(),
            row.selected == self.selected@.contains(index),
            row.label@ == entry_text(
                name@,
                match extension {
                    Some(extension) => Some(ascii_lowered(extension@)),
                    None => None,
                },
                current == Some(index),
            ),
    {
        broadcast use vstd::std_specs::btree::group_btree_axioms;

        let is_current = match current {
            Some(current) => current == index,
            None => false,
        };
        let label = match extension {
            Some(extension) => {
                let file_type = to_ascii_lower(extension);
                playlist_entry_label(name, Some(file_type.as_str()), is_current)
            },
            None => playlist_entry_label(name, None, is_current),
        };
        PlaylistRow { icon: status.icon(), label, selected: self.selected.contains(&index) }
    }
}

/// An entry that is dragged somewhere and back stays where it is, and nothing is moved
/// twice by one drag.
pub proof fn drag_moves_once(index: u64, other: u64)
    ensures
        PlaylistWindow::dropped_on(Some(index), index) is None,
        PlaylistWindow::dropped_on(None, other) is None,
        index != other ==> PlaylistWindow::dropped_on(Some(index), other) == Some((index, other)),
{
}

/// Clicking an entry twice with the key for several marks what was marked before.
pub proof fn marking_twice_changes_nothing(selected: Set<u64>, index: u64)
    ensures
        marked(marked(selected, index, true), index, true) == selected,
{
    assert(marked(marked(selected, index, true), index, true) =~= selected);
}

/// How a track of the playlist gets loaded.
#[derive(Debug, Copy, Clone, PartialEq, Eq, Structural)]
pub enum TrackLoad {
    /// There is no such track.
    Nothing,
    /// From what was prepared.
    Prepared,
    /// From its file.
    FromFile,
}

/// The loop button or the repeat mode of a playlist after the user changed it.
#[derive(Debug, Copy, Clone, PartialEq, Eq, Structural)]
pub struct RepeatChange {
    /// The repeat mode to give the playlist, if any.
    pub repeat_mode: Option<PlaylistRepeatMode>,
    /// Who is to be told of the loop of the track.
    pub target: TransportTarget,
}

/// The places at which something holds, in order.
pub open spec fn places_of(flags: Seq<bool>) -> Seq<int>
    decreases flags.len(),
{
    if flags.len() == 0 {
        Seq::empty()
    } else if flags.last() {
        places_of(flags.drop_last()).push(flags.len() - 1)
    } else {
        places_of(flags.drop_last())
    }
}

fn find_places(flags: &[bool]) -> (places: Vec<usize>)
    ensures
        places@.map_values(|place: usize| place as int) == places_of(flags@),
{
    let mut places: Vec<usize> = Vec::new();
    let mut i: usize = 0;
    assert(places@.map_values(|place: usize| place as int) =~= places_of(flags@.take(0)));
    while i < flags.len()
        invariant
            i <= flags@.len(),
            places@.map_values(|place: usize| place as int) == places_of(flags@.take(i as int)),
        decreases flags@.len() - i,
    {
        let ghost before = places@;
        assert(flags@.take(i + 1).drop_last() =~= flags@.take(i as int));
        if flags[i] {
            places.push(i);
            assert(places@.map_values(|place: usize| place as int) =~= before.map_values(
                |place: usize| place as int,
            ).push(i as int));
        }
        i = i + 1;
    }
    assert(flags@.take(i as int) =~= flags@);
    places
}

impl<S> FlutzDesktopApp<S> {
    /// The player with another playlist, whose repeat mode it follows.
    pub open spec fn follows_playlist(
        &self,
        playlist: PlaylistFacts,
        after: FlutzDesktopApp<S>,
        target: TransportTarget,
    ) -> bool {
        &&& after == (FlutzDesktopApp {
            project: ProjectState {
                dirty: self.project.dirty || after.looping != self.looping,
                ..self.project
            },
            looping: self.looping.switched(
                playlist.repeat_mode == PlaylistRepeatMode::Track,
                self.length(),
            ).normalized(self.length()),
            playback: after.playback,
            playlist: Some(playlist),
            ..*self
        })
        &&& self.loop_is_given(after, target)
    }

    fn follow_playlist(&mut self, playlist: PlaylistFacts) -> (target: TransportTarget)
        requires
            old(self).wf(),
        ensures
            final(self).wf(),
            old(self).follows_playlist(playlist, *final(self), target),
    {
        self.playlist = Some(playlist);
        self.sync_loop_button_from_playlist_repeat_mode(true)
    }

    /// Takes in that the loop button of the playlist was pressed.
    pub fn playlist_loop_clicked(&mut self) -> (change: RepeatChange)
        requires
            old(self).wf(),
        ensures
            final(self).wf(),
            match old(self).playlist {
                None => *final(self) == *old(self) && change == (RepeatChange {
                    repeat_mode: None,
                    target: TransportTarget::Nothing,
                }),
                Some(playlist) => {
                    let (enabled, mode) = loop_toggled(playlist.loop_enabled, playlist.repeat_mode);
                    &&& change.repeat_mode == mode
                    &&& match mode {
                        Some(mode) => old(self).follows_playlist(
                            PlaylistFacts {
                                loop_enabled: enabled,
                                repeat_mode: mode,
                                dirty: true,
                                ..playlist
                            },
                            *final(self),
                            change.target,
                        ),
                        None => change.target == TransportTarget::Nothing && *final(self) == (
                        FlutzDesktopApp {
                            playlist: Some(
                                PlaylistFacts { loop_enabled: enabled, dirty: true, ..playlist },
                            ),
                            ..*old(self)
                        }),
                    }
                },
            },
    {
        let mut playlist = match self.playlist {
            Some(playlist) => playlist,
            None => {
                return RepeatChange { repeat_mode: None, target: TransportTarget::Nothing };
            },
        };
        let (enabled, mode) = toggle_playlist_loop(playlist.loop_enabled, playlist.repeat_mode);
        playlist.loop_enabled = enabled;
        playlist.dirty = true;
        match mode {
            Some(repeat_mode) => {
                playlist.repeat_mode = repeat_mode;
                let target = self.follow_playlist(playlist);
                RepeatChange { repeat_mode: mode, target }
            },
            None => {
                self.playlist = Some(playlist);
                RepeatChange { repeat_mode: mode, target: TransportTarget::Nothing }
            },
        }
    }

    /// Takes in that a repeat mode was chosen for the playlist.
    pub fn playlist_repeat_chosen(&mut self, mode: PlaylistRepeatMode) -> (change: RepeatChange)
        requires
            old(self).wf(),
        ensures
            final(self).wf(),
            match old(self).playlist {
                Some(playlist) if playlist.repeat_mode != mode => {
                    &&& change.repeat_mode == Some(mode)
                    &&& old(self).follows_playlist(
                        PlaylistFacts {
                            loop_enabled: mode == PlaylistRepeatMode::Playlist,
                            repeat_mode: mode,
                            ..playlist
                        },
                        *final(self),
                        change.target,
                    )
                },
                _ => *final(self) == *old(self) && change == (RepeatChange {
                    repeat_mode: None,
                    target: TransportTarget::Nothing,
                }),
            },
    {
        match self.playlist {
            Some(playlist) => if playlist.repeat_mode != mode {
                let changed = PlaylistFacts {
                    loop_enabled: crate::desktop::playlist::loop_enabled_for(mode),
                    repeat_mode: mode,
                    ..playlist
                };
                let target = self.follow_playlist(changed);
                return RepeatChange { repeat_mode: Some(mode), target };
            },
            None => {},
        }
        RepeatChange { repeat_mode: None, target: TransportTarget::Nothing }
    }

    /// The order to give the playlist when the user chose one, if any.
    pub fn playlist_order_chosen(
        &self,
        chosen: PlaylistOrderMode,
        current: PlaylistOrderMode,
    ) -> (order: Option<PlaylistOrderMode>)
        ensures
            order == if self.playlist is Some && chosen != current {
                Some(chosen)
            } else {
                None
            },
    {
        if self.playlist.is_some() && chosen != current {
            Some(chosen)
        } else {
            None
        }
    }

    /// Takes in that the button that clears the playlist was pressed. Returns whether the
    /// preferences have to be saved.
    pub fn playlist_clear_clicked(&mut self, window: &mut PlaylistWindow) -> (changed: bool)
        requires
            old(self).wf(),
        ensures
            final(self).wf(),
            *final(self) == (FlutzDesktopApp {
                panels: Panels { playlist_window_open: true, ..old(self).panels },
                preload: old(self).preload.cleared(),
                playlist: Some(
                    PlaylistFacts {
                        entry_count: 0,
                        repeat_mode: PlaylistRepeatMode::Off,
                        loop_enabled: false,
                        dirty: false,
                    },
                ),
                status: final(self).status,
                ..*old(self)
            }),
            final(self).status@ == "New playlist"@,
            changed == !old(self).panels.playlist_window_open,
            final(window).selected@ == Set::<u64>::empty(),
            final(window).drag_from is None,
    {
        window.reset();
        self.new_playlist()
    }

    /// Takes in that the marked entries are to be removed, and returns them in order.
    /// What was prepared is dropped, and nothing is marked any more where there were
    /// entries to remove.
    pub fn remove_selected_playlist_entries(&mut self, window: &mut PlaylistWindow) -> (removed:
        Option<Vec<u64>>)
        requires
            old(self).wf(),
        ensures
            final(self).wf(),
            *final(self) == (FlutzDesktopApp {
                preload: old(self).preload.cleared(),
                ..*old(self)
            }),
            removed is Some == (old(self).playlist is Some && old(window).selected@.len() != 0),
            match removed {
                Some(removed) => {
                    &&& ascending_u64(removed@)
                    &&& forall|k: u64| #[trigger]
                        removed@.contains(k) == old(window).selected@.contains(k)
                    &&& final(window).selected@ == Set::<u64>::empty()
                    &&& final(window).drag_from == old(window).drag_from
                },
                None => *final(window) == *old(window),
            },
    {
        self.preload.clear_playlist_preload();
        if self.playlist.is_none() || !window.can_remove() {
            return None;
        }
        let indices = in_order(&window.selected);
        window.selected.clear();
        Some(indices)
    }

    /// The player ready to take tracks into its playlist.
    pub open spec fn ready_for_tracks(&self, after: FlutzDesktopApp<S>) -> bool {
        if self.playlist is None {
            &&& after == (FlutzDesktopApp {
                panels: Panels { playlist_window_open: true, ..self.panels },
                preload: self.preload.cleared().cleared(),
                playlist: Some(
                    PlaylistFacts {
                        entry_count: 0,
                        repeat_mode: PlaylistRepeatMode::Off,
                        loop_enabled: false,
                        dirty: false,
                    },
                ),
                status: after.status,
                ..*self
            })
            &&& after.status@ == "New playlist"@
        } else {
            after == (FlutzDesktopApp { preload: self.preload.cleared(), ..*self })
        }
    }

    /// Takes in that files were picked for the playlist: there is one to add them to,
    /// and what was prepared is dropped. Returns whether the preferences have to be saved.
    pub fn playlist_files_picked(&mut self, window: &mut PlaylistWindow) -> (changed: bool)
        requires
            old(self).wf(),
        ensures
            final(self).wf(),
            old(self).ready_for_tracks(*final(self)),
            changed == (old(self).playlist is None && !old(self).panels.playlist_window_open),
            if old(self).playlist is None {
                final(window).selected@ == Set::<u64>::empty() && final(window).drag_from is None
            } else {
                *final(window) == *old(window)
            },
    {
        let mut changed = false;
        if self.playlist.is_none() {
            changed = self.playlist_clear_clicked(window);
        }
        self.preload.clear_playlist_preload();
        changed
    }

    /// Takes in that files were dropped on the window, of which some can be played.
    /// Returns the places of those to add, and whether the preferences have to be saved.
    pub fn playlist_files_dropped(&mut self, window: &mut PlaylistWindow, supported: &[bool]) -> (
    added: (Vec<usize>, bool))
        requires
            old(self).wf(),
        ensures
            final(self).wf(),
            added.0@.map_values(|place: usize| place as int) == places_of(supported@),
            if places_of(supported@).len() == 0 {
                !added.1 && *final(self) == *old(self) && *final(window) == *old(window)
            } else {
                &&& exists|ready: FlutzDesktopApp<S>|
                    {
                        &&& #[trigger] old(self).ready_for_tracks(ready)
                        &&& *final(self) == (FlutzDesktopApp {
                            panels: Panels { playlist_window_open: true, ..ready.panels },
                            ..ready
                        })
                    }
                &&& added.1 == !old(self).panels.playlist_window_open
                &&& if old(self).playlist is None {
                    &&& final(window).selected@ == Set::<u64>::empty()
                    &&& final(window).drag_from is None
                } else {
                    *final(window) == *old(window)
                }
            },
    {
        let places = find_places(supported);
        if places.len() == 0 {
            return (places, false);
        }
        let begun = self.playlist_files_picked(window);
        let ghost ready = *self;
        let opened = self.set_playlist_window_open(true);
        assert(old(self).ready_for_tracks(ready));
        (places, begun || opened)
    }

    /// Makes a playlist of the one file that was opened, if that can stand in one.
    pub fn regenerate_playlist_with_single_entry(
        &mut self,
        window: &mut PlaylistWindow,
        supported: bool,
        align_repeat_to_loop: bool,
    )
        requires
            old(self).wf(),
        ensures
            final(self).wf(),
            if supported {
                &&& *final(self) == (FlutzDesktopApp {
                    playlist: Some(
                        of_one_file(align_repeat_to_loop, old(self).looping.enabled),
                    ),
                    ..*old(self)
                })
                &&& final(window).selected@ == Set::<u64>::empty()
                &&& final(window).drag_from is None
            } else {
                *final(self) == *old(self) && *final(window) == *old(window)
            },
    {
        if !supported {
            return;
        }
        self.playlist = Some(single_entry_playlist(align_repeat_to_loop, self.looping.enabled));
        window.reset();
    }

    /// Takes in that the file that the player was started with was opened, as far as it
    /// could be: one that is loaded but not playing becomes the playlist, which repeats as
    /// the track loops, unless it is a playlist itself.
    pub fn launch_path_opened(
        &mut self,
        window: &mut PlaylistWindow,
        extension: Option<&str>,
        supported: bool,
    )
        requires
            old(self).wf(),
        ensures
            final(self).wf(),
            if supported && old(self).project.current_path is Some && old(self).run_state
                != AppRunState::Playing && !(extension is Some && ascii_lowered(
                extension->Some_0@,
            ) == "fplist"@) {
                &&& *final(self) == (FlutzDesktopApp {
                    playlist: Some(of_one_file(true, old(self).looping.enabled)),
                    ..*old(self)
                })
                &&& final(window).selected@ == Set::<u64>::empty()
                &&& final(window).drag_from is None
            } else {
                *final(self) == *old(self) && *final(window) == *old(window)
            },
    {
        if !self.has_loaded_project() || self.run_state == AppRunState::Playing {
            return;
        }
        let is_playlist = match extension {
            Some(extension) => text_eq(to_ascii_lower(extension).as_str(), "fplist"),
            None => false,
        };
        if !is_playlist {
            self.regenerate_playlist_with_single_entry(window, supported, true);
        }
    }

    /// Takes in that a file is about to take the place of the playlist, once the user has
    /// answered if they had to be asked. Returns whether it may be opened. A file that
    /// cannot stand in a playlist leaves the playlist alone.
    pub fn prepare_playlist_for_open_path(
        &mut self,
        window: &mut PlaylistWindow,
        supported: bool,
        answer: Option<(SaveAnswer, bool)>,
    ) -> (opens: bool)
        requires
            old(self).wf(),
            supported && asks_before_opening(old(self).playlist) ==> answer is Some,
        ensures
            final(self).wf(),
            ({
                let (may_open, told) = if supported && asks_before_opening(old(self).playlist) {
                    opening_answered(answer->Some_0.0, answer->Some_0.1)
                } else {
                    (true, None)
                };
                &&& opens == may_open
                &&& if !opens {
                    &&& *final(self) == (FlutzDesktopApp {
                        status: final(self).status,
                        ..*old(self)
                    })
                    &&& told == Some(final(self).status@)
                    &&& *final(window) == *old(window)
                } else if supported {
                    &&& *final(self) == (FlutzDesktopApp {
                        playlist: Some(of_one_file(false, false)),
                        ..*old(self)
                    })
                    &&& final(window).selected@ == Set::<u64>::empty()
                    &&& final(window).drag_from is None
                } else {
                    *final(self) == *old(self) && *final(window) == *old(window)
                }
            }),
    {
        if !supported {
            return true;
        }
        if must_ask_before_opening(self.playlist) {
            match answer {
                Some((answer, saved)) => {
                    let (opens, told) = opening_after_answer(answer, saved);
                    if !opens {
                        match told {
                            Some(text) => {
                                self.status = text.to_owned();
                            },
                            None => {},
                        }
                        return false;
                    }
                },
                None => {},
            }
        }
        self.regenerate_playlist_with_single_entry(window, true, false);
        true
    }

    /// Takes in that a file that the user picked was opened: if it is what is loaded now,
    /// the playlist of that file repeats as the track loops.
    pub fn picked_path_opened(
        &mut self,
        window: &mut PlaylistWindow,
        path: &str,
        supported: bool,
    )
        requires
            old(self).wf(),
        ensures
            final(self).wf(),
            if supported && optional_text(old(self).project.current_path) == Some(path@) {
                &&& *final(self) == (FlutzDesktopApp {
                    playlist: Some(of_one_file(true, old(self).looping.enabled)),
                    ..*old(self)
                })
                &&& final(window).selected@ == Set::<u64>::empty()
                &&& final(window).drag_from is None
            } else {
                *final(self) == *old(self) && *final(window) == *old(window)
            },
    {
        let is_loaded = match &self.project.current_path {
            Some(current) => text_eq(current.as_str(), path),
            None => false,
        };
        if is_loaded {
            self.regenerate_playlist_with_single_entry(window, supported, true);
        }
    }

    /// Whether a track that is loaded now is played right away.
    pub fn autoplays(&self) -> (autoplay: bool)
        ensures
            autoplay == (self.run_state == AppRunState::Playing),
    {
        self.run_state == AppRunState::Playing
    }

    /// How a track of the playlist gets loaded. What was prepared is used for its own
    /// track and dropped for any other.
    pub fn load_playlist_track_by_index(&mut self, index: usize, path: &str) -> (load: TrackLoad)
        requires
            old(self).wf(),
        ensures
            final(self).wf(),
            match old(self).playlist {
                Some(playlist) if index < playlist.entry_count => {
                    &&& load == if old(self).preload.is_ready(index, path@) {
                        TrackLoad::Prepared
                    } else {
                        TrackLoad::FromFile
                    }
                    &&& *final(self) == (FlutzDesktopApp {
                        preload: if old(self).preload.is_ready(index, path@) {
                            PlaylistPreload {
                                token: old(self).preload.token,
                                pending: None,
                                ready: None,
                            }
                        } else {
                            old(self).preload.cleared()
                        },
                        ..*old(self)
                    })
                },
                _ => load == TrackLoad::Nothing && *final(self) == *old(self),
            },
    {
        match self.playlist {
            Some(playlist) => if index >= playlist.entry_count {
                return TrackLoad::Nothing;
            },
            None => {
                return TrackLoad::Nothing;
            },
        }
        if self.preload.take_ready_playlist_preload(index, path) {
            TrackLoad::Prepared
        } else {
            self.preload.clear_playlist_preload();
            TrackLoad::FromFile
        }
    }

    /// Takes in that a track of the playlist was loaded: the playlist says whether it
    /// loops. Returns who is to be told of the loop.
    pub fn playlist_track_loaded(&mut self) -> (target: TransportTarget)
        requires
            old(self).wf(),
        ensures
            final(self).wf(),
            match old(self).playlist {
                None => *final(self) == *old(self) && target == TransportTarget::Nothing,
                Some(playlist) => {
                    &&& *final(self) == (FlutzDesktopApp {
                        looping: old(self).looping.switched(
                            playlist.repeat_mode == PlaylistRepeatMode::Track,
                            old(self).length(),
                        ).normalized(old(self).length()),
                        playback: final(self).playback,
                        ..*old(self)
                    })
                    &&& old(self).loop_is_given(*final(self), target)
                },
            },
    {
        self.sync_loop_button_from_playlist_repeat_mode(false)
    }
}

/// The places of flags are those at which a flag is set, in order.
pub proof fn places_are_those_of_set_flags(flags: Seq<bool>)
    ensures
        forall|i: int|
            0 <= i < flags.len() ==> places_of(flags).contains(i) == #[trigger] flags[i],
        forall|k: int|
            0 <= k < places_of(flags).len() ==> 0 <= (#[trigger] places_of(flags)[k]) < flags.len(),
        forall|a: int, b: int|
            0 <= a < b < places_of(flags).len() ==> (#[trigger] places_of(flags)[a]) < (
            #[trigger] places_of(flags)[b]),
    decreases flags.len(),
{
    if flags.len() > 0 {
        let shorter = flags.drop_last();
        let before = places_of(shorter);
        let now = places_of(flags);
        places_are_those_of_set_flags(shorter);
        assert forall|i: int| 0 <= i < flags.len() implies now.contains(i)
            == #[trigger] flags[i] by {
            if i < shorter.len() {
                assert(shorter[i] == flags[i]);
                if before.contains(i) {
                    let k = choose|k: int| 0 <= k < before.len() && before[k] == i;
                    assert(now[k] == i);
                }
                if now.contains(i) {
                    let k = choose|k: int| 0 <= k < now.len() && now[k] == i;
                    if k < before.len() {
                        assert(before[k] == i);
                    }
                }
            } else {
                if flags[i] {
                    assert(now[before.len() as int] == i);
                } else if now.contains(i) {
                    let k = choose|k: int| 0 <= k < now.len() && now[k] == i;
                    assert(before[k] == i);
                }
            }
        }
    }
}

/// A click marks an entry alone; together with others it is marked, or no longer marked if
/// it was, and the others stay.
pub proof fn clicks_mark_entries(selected: Set<u64>, index: u64, other: u64)
    ensures
        marked(selected, index, false).contains(index),
        other != index ==> !marked(selected, index, false).contains(other),
        marked(selected, index, true).contains(index) == !selected.contains(index),
        other != index ==> marked(selected, index, true).contains(other) == selected.contains(
            other,
        ),
        index != other ==> PlaylistWindow::dropped_on(Some(other), index) == Some((other, index)),
        PlaylistWindow::dropped_on(Some(index), index) is None,
        PlaylistWindow::dropped_on(None, index) is None,
{
}

/// A playlist that repeats its track has the track loop, and one that does not has it play
/// on; the project is changed only where the loop is.
pub proof fn playlists_decide_the_loop<S>(
    app: FlutzDesktopApp<S>,
    playlist: PlaylistFacts,
    after: FlutzDesktopApp<S>,
    target: TransportTarget,
)
    requires
        app.follows_playlist(playlist, after, target),
    ensures
        after.playlist == Some(playlist),
        playlist.repeat_mode != PlaylistRepeatMode::Track ==> !after.looping.enabled,
        after.project.dirty == (app.project.dirty || after.looping != app.looping),
        after.mixer == app.mixer,
        app.playback.decoded is Some ==> target == TransportTarget::Decoded,
{
}

/// Tracks are added to the playlist that there is, or to a new empty one that is shown; what
/// was prepared of a track is forgotten.
pub proof fn tracks_are_added_to_a_playlist<S>(app: FlutzDesktopApp<S>, after: FlutzDesktopApp<S>)
    requires
        app.ready_for_tracks(after),
    ensures
        after.playlist is Some,
        app.playlist is Some ==> after.playlist == app.playlist && after.status == app.status
            && after.panels == app.panels,
        app.playlist is None ==> after.playlist->Some_0.entry_count == 0
            && !after.playlist->Some_0.dirty && after.playlist->Some_0.repeat_mode
            == PlaylistRepeatMode::Off && !after.playlist->Some_0.loop_enabled
            && after.panels.playlist_window_open,
        after.project == app.project,
        after.playback == app.playback,
        after.looping == app.looping,
{
}

} // verus!
