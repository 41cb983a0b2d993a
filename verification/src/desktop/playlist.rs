//! Playlists: how the user steps through them, what happens when a track ends, and
//! which track is prepared ahead.
use crate::desktop::loops::PlaylistRepeatMode;
use crate::json::optional_text;
use crate::text::text_eq;
use vstd::prelude::*;
use vstd::string::*;

verus! {

/// Whether the player plays.
#[derive(Debug, Copy, Clone, PartialEq, Eq, Structural)]
pub enum AppRunState {
    Idle,
    Playing,
    Paused,
}

/// In which order a playlist is played.
#[derive(Debug, Copy, Clone, PartialEq, Eq, Structural)]
pub enum PlaylistOrderMode {
    Sequential,
    Shuffle,
    Random,
}

/// What the decisions need to know of a playlist.
#[derive(Debug, Copy, Clone, PartialEq, Eq, Structural)]
pub struct PlaylistFacts {
    pub entry_count: usize,
    pub repeat_mode: PlaylistRepeatMode,
    pub loop_enabled: bool,
    pub dirty: bool,
}

impl PlaylistOrderMode {
    pub fn label(self) -> (label: &'static str)
        ensures
            label@ == match self {
                PlaylistOrderMode::Sequential => "Sequential"@,
                PlaylistOrderMode::Shuffle => "Shuffle"@,
                PlaylistOrderMode::Random => "Random"@,
            },
    {
        match self {
            PlaylistOrderMode::Sequential => "Sequential",
            PlaylistOrderMode::Shuffle => "Shuffle",
            PlaylistOrderMode::Random => "Random",
        }
    }
}

impl PlaylistRepeatMode {
    pub fn label(self) -> (label: &'static str)
        ensures
            label@ == match self {
                PlaylistRepeatMode::Off => "Repeat Off"@,
                PlaylistRepeatMode::Track => "Repeat Track"@,
                PlaylistRepeatMode::Playlist => "Repeat Playlist"@,
            },
    {
        match self {
            PlaylistRepeatMode::Off => "Repeat Off",
            PlaylistRepeatMode::Track => "Repeat Track",
            PlaylistRepeatMode::Playlist => "Repeat Playlist",
        }
    }
}

/// The loop button of a playlist after it was pressed: whether it is on, and the
/// repeat mode to set, if any.
pub open spec fn loop_toggled(loop_enabled: bool, repeat_mode: PlaylistRepeatMode) -> (
    bool,
    Option<PlaylistRepeatMode>,
) {
    (
        !loop_enabled,
        if !loop_enabled {
            Some(PlaylistRepeatMode::Playlist)
        } else if repeat_mode == PlaylistRepeatMode::Playlist {
            Some(PlaylistRepeatMode::Off)
        } else {
            None
        },
    )
}

pub fn toggle_playlist_loop(loop_enabled: bool, repeat_mode: PlaylistRepeatMode) -> (toggled: (
    bool,
    Option<PlaylistRepeatMode>,
))
    ensures
        toggled == loop_toggled(loop_enabled, repeat_mode),
{
    if !loop_enabled {
        (true, Some(PlaylistRepeatMode::Playlist))
    } else if repeat_mode == PlaylistRepeatMode::Playlist {
        (false, Some(PlaylistRepeatMode::Off))
    } else {
        (false, None)
    }
}

/// Pressing the loop button of a playlist twice lets the playlist repeat, and then no
/// longer.
pub proof fn loop_button_switches_back(repeat_mode: PlaylistRepeatMode)
    ensures
        ({
            let (on, mode) = loop_toggled(false, repeat_mode);
            let (off, last_mode) = loop_toggled(on, mode->Some_0);
            &&& on && mode == Some(PlaylistRepeatMode::Playlist)
            &&& !off && last_mode == Some(PlaylistRepeatMode::Off)
        }),
{
}

/// Whether the loop button is on in a repeat mode that the user chose.
pub fn loop_enabled_for(repeat_mode: PlaylistRepeatMode) -> (enabled: bool)
    ensures
        enabled == (repeat_mode == PlaylistRepeatMode::Playlist),
{
    repeat_mode == PlaylistRepeatMode::Playlist
}

/// The repeat mode that goes with the loop button of a track.
pub open spec fn repeat_mode_of_track(loop_enabled: bool) -> PlaylistRepeatMode {
    if loop_enabled {
        PlaylistRepeatMode::Track
    } else {
        PlaylistRepeatMode::Off
    }
}

/// The playlist after the loop button of a track was pressed: it repeats the track or
/// does not repeat, and is changed if it did otherwise before.
pub fn playlist_after_track_loop(playlist: PlaylistFacts, enabled: bool) -> (after: PlaylistFacts)
    ensures
        after == if playlist.repeat_mode == repeat_mode_of_track(enabled) {
            playlist
        } else {
            PlaylistFacts {
                repeat_mode: repeat_mode_of_track(enabled),
                loop_enabled: false,
                dirty: true,
                ..playlist
            }
        },
{
    let desired = if enabled {
        PlaylistRepeatMode::Track
    } else {
        PlaylistRepeatMode::Off
    };
    let mut after = playlist;
    if after.repeat_mode != desired {
        after.repeat_mode = desired;
        after.loop_enabled = false;
        after.dirty = true;
    }
    after
}

/// A playlist of the one file that was opened. It repeats as the track loops, or not
/// at all.
pub open spec fn of_one_file(align_repeat_to_loop: bool, loop_enabled: bool) -> PlaylistFacts {
    PlaylistFacts {
        entry_count: 1,
        repeat_mode: if align_repeat_to_loop {
            repeat_mode_of_track(loop_enabled)
        } else {
            PlaylistRepeatMode::Off
        },
        loop_enabled: false,
        dirty: false,
    }
}

pub fn single_entry_playlist(align_repeat_to_loop: bool, loop_enabled: bool) -> (playlist:
    PlaylistFacts)
    ensures
        playlist == of_one_file(align_repeat_to_loop, loop_enabled),
{
    PlaylistFacts {
        entry_count: 1,
        repeat_mode: if align_repeat_to_loop && loop_enabled {
            PlaylistRepeatMode::Track
        } else {
            PlaylistRepeatMode::Off
        },
        loop_enabled: false,
        dirty: false,
    }
}

/// Whether a playlist goes on to another track.
pub open spec fn goes_on(playlist: Option<PlaylistFacts>) -> bool {
    match playlist {
        Some(playlist) => playlist.entry_count > 1,
        None => false,
    }
}

pub fn playlist_has_multiple_entries(playlist: Option<PlaylistFacts>) -> (multiple: bool)
    ensures
        multiple == goes_on(playlist),
{
    match playlist {
        Some(playlist) => playlist.entry_count > 1,
        None => false,
    }
}

/// Whether the user has to be asked before a file takes the place of the playlist.
pub open spec fn asks_before_opening(playlist: Option<PlaylistFacts>) -> bool {
    goes_on(playlist) && playlist->Some_0.dirty
}

pub fn must_ask_before_opening(playlist: Option<PlaylistFacts>) -> (ask: bool)
    ensures
        ask == asks_before_opening(playlist),
{
    match playlist {
        Some(playlist) => playlist.entry_count > 1 && playlist.dirty,
        None => false,
    }
}

/// What the user answered when asked about an unsaved playlist.
#[derive(Debug, Copy, Clone, PartialEq, Eq, Structural)]
pub enum SaveAnswer {
    Yes,
    No,
    Cancel,
}

/// What becomes of opening a file after the answer: whether it goes on, and what the
/// user is told otherwise. `saved` says whether the playlist was saved.
pub open spec fn opening_answered(answer: SaveAnswer, saved: bool) -> (bool, Option<Seq<char>>) {
    match answer {
        SaveAnswer::Yes => if saved {
            (true, None)
        } else {
            (false, Some("Open canceled: playlist was not saved"@))
        },
        SaveAnswer::No => (true, None),
        SaveAnswer::Cancel => (false, Some("Open canceled"@)),
    }
}

pub fn opening_after_answer(answer: SaveAnswer, saved: bool) -> (outcome: (
    bool,
    Option<&'static str>,
))
    ensures
        outcome.0 == opening_answered(answer, saved).0,
        match outcome.1 {
            Some(text) => opening_answered(answer, saved).1 == Some(text@),
            None => opening_answered(answer, saved).1 is None,
        },
{
    match answer {
        SaveAnswer::Yes => if saved {
            (true, None)
        } else {
            (false, Some("Open canceled: playlist was not saved"))
        },
        SaveAnswer::No => (true, None),
        SaveAnswer::Cancel => (false, Some("Open canceled")),
    }
}

/// What happens when the user asks for another track.
#[derive(Debug, Copy, Clone, PartialEq, Eq, Structural)]
pub enum NavigationStep {
    NoPlaylist,
    EmptyPlaylist,
    /// No entry can be played.
    NothingToPlay,
    /// The entry is loaded.
    Load { index: usize },
}

/// What happens when the user asks for another track, of which `target` is the one
/// that the playlist has next.
pub fn navigate_playlist(playlist: Option<PlaylistFacts>, target: Option<usize>) -> (step:
    NavigationStep)
    ensures
        step == match playlist {
            None => NavigationStep::NoPlaylist,
            Some(playlist) => if playlist.entry_count == 0 {
                NavigationStep::EmptyPlaylist
            } else {
                match target {
                    Some(index) => NavigationStep::Load { index },
                    None => NavigationStep::NothingToPlay,
                }
            },
        },
{
    match playlist {
        None => NavigationStep::NoPlaylist,
        Some(playlist) => if playlist.entry_count == 0 {
            NavigationStep::EmptyPlaylist
        } else {
            match target {
                Some(index) => NavigationStep::Load { index },
                None => NavigationStep::NothingToPlay,
            }
        },
    }
}

/// An entry of a playlist, as far as skipping it goes.
#[derive(Debug)]
pub struct EntryFacts {
    pub display_name: String,
    pub file_exists: bool,
    pub supported: bool,
}

/// The first of the entries from `from` on that is missing, or that is there and
/// cannot be played.
pub open spec fn first_skipped(entries: Seq<EntryFacts>, missing: bool, from: int) -> Option<int>
    decreases entries.len() - from,
{
    if from >= entries.len() || from < 0 {
        None
    } else if (if missing {
        !entries[from].file_exists
    } else {
        entries[from].file_exists && !entries[from].supported
    }) {
        Some(from)
    } else {
        first_skipped(entries, missing, from + 1)
    }
}

/// Why no entry can be played.
pub open spec fn skip_text(entries: Seq<EntryFacts>) -> Seq<char> {
    match first_skipped(entries, true, 0) {
        Some(i) => "Skipped missing file: "@ + entries[i].display_name@,
        None => match first_skipped(entries, false, 0) {
            Some(i) => "Skipped unsupported file: "@ + entries[i].display_name@,
            None => "No valid playlist entries remain"@,
        },
    }
}

fn find_skipped(entries: &[EntryFacts], missing: bool) -> (position: Option<usize>)
    ensures
        (match position {
            Some(i) => Some(i as int),
            None => None,
        }) == first_skipped(entries@, missing, 0),
        position is Some ==> position->Some_0 < entries@.len(),
{
    let mut i: usize = 0;
    while i < entries.len()
        invariant
            i <= entries@.len(),
            first_skipped(entries@, missing, 0) == first_skipped(entries@, missing, i as int),
        decreases entries@.len() - i,
    {
        let skipped = if missing {
            !entries[i].file_exists
        } else {
            entries[i].file_exists && !entries[i].supported
        };
        if skipped {
            return Some(i);
        }
        i = i + 1;
    }
    None
}

/// Why no entry of a playlist can be played.
pub fn playlist_skip_reason(entries: Option<&[EntryFacts]>) -> (reason: String)
    ensures
        reason@ == match entries {
            Some(entries) => skip_text(entries@),
            None => "No valid playlist entries remain"@,
        },
{
    let entries = match entries {
        Some(entries) => entries,
        None => {
            return "No valid playlist entries remain".to_owned();
        },
    };
    match find_skipped(entries, true) {
        Some(i) => {
            let mut text = "Skipped missing file: ".to_owned();
            text.append(entries[i].display_name.as_str());
            text
        },
        None => match find_skipped(entries, false) {
            Some(i) => {
                let mut text = "Skipped unsupported file: ".to_owned();
                text.append(entries[i].display_name.as_str());
                text
            },
            None => "No valid playlist entries remain".to_owned(),
        },
    }
}

/// The text of an entry in the playlist window.
pub open spec fn entry_text(name: Seq<char>, file_type: Option<Seq<char>>, current: bool) -> Seq<char> {
    name + "  ["@ + (match file_type {
        Some(file_type) => file_type,
        None => "other"@,
    }) + (if current {
        "]  (current)"@
    } else {
        "]"@
    })
}

/// The text of an entry in the playlist window. `file_type` is its extension in
/// small letters.
pub fn playlist_entry_label(name: &str, file_type: Option<&str>, current: bool) -> (text: String)
    ensures
        text@ == entry_text(
            name@,
            match file_type {
                Some(file_type) => Some(file_type@),
                None => None,
            },
            current,
        ),
{
    let mut text = name.to_owned();
    text.append("  [");
    match file_type {
        Some(file_type) => text.append(file_type),
        None => text.append("other"),
    }
    if current {
        text.append("]  (current)");
    } else {
        text.append("]");
    }
    text
}

/// Whether playback came to its end by itself: it was going on, it is not, the user
/// wants it to, and the track does not loop.
pub fn track_ended(was_active: bool, is_active: bool, run_state: AppRunState, loop_enabled: bool) -> (
ended: bool)
    ensures
        ended == (was_active && !is_active && run_state == AppRunState::Playing && !loop_enabled),
{
    was_active && !is_active && run_state == AppRunState::Playing && !loop_enabled
}

/// What happens when a track ends.
#[derive(Debug, Copy, Clone, PartialEq, Eq, Structural)]
pub enum TrackEnd {
    /// It is played again.
    Repeat,
    /// The next track is loaded, and if there is none the first one.
    NextOrFirst,
    /// The next track is loaded, if there is one.
    Next,
}

pub fn on_track_end(playlist: Option<PlaylistFacts>) -> (end: TrackEnd)
    ensures
        end == match playlist {
            Some(playlist) => if playlist.repeat_mode == PlaylistRepeatMode::Track {
                TrackEnd::Repeat
            } else if playlist.loop_enabled || playlist.repeat_mode
                == PlaylistRepeatMode::Playlist {
                TrackEnd::NextOrFirst
            } else {
                TrackEnd::Next
            },
            None => TrackEnd::Next,
        },
{
    match playlist {
        Some(playlist) => if playlist.repeat_mode == PlaylistRepeatMode::Track {
            TrackEnd::Repeat
        } else if playlist.loop_enabled || playlist.repeat_mode == PlaylistRepeatMode::Playlist {
            TrackEnd::NextOrFirst
        } else {
            TrackEnd::Next
        },
        None => TrackEnd::Next,
    }
}

/// A track that is being prepared, or is ready.
#[derive(Debug)]
pub struct Preload {
    pub token: u64,
    pub index: usize,
    pub path: String,
}

/// The track that is prepared ahead. A token tells the newest order from older ones.
#[derive(Debug)]
pub struct PlaylistPreload {
    pub token: u64,
    pub pending: Option<Preload>,
    pub ready: Option<Preload>,
}

/// The next token.
pub open spec fn next_token(token: u64) -> u64 {
    if token == u64::MAX {
        0
    } else {
        (token + 1) as u64
    }
}

/// Whether an order is for a track.
pub open spec fn is_for(preload: Option<Preload>, index: usize, path: Seq<char>) -> bool {
    match preload {
        Some(preload) => preload.index == index && preload.path@ == path,
        None => false,
    }
}

fn is_preload_for(preload: &Option<Preload>, index: usize, path: &str) -> (same: bool)
    ensures
        same == is_for(*preload, index, path@),
{
    match preload {
        Some(preload) => preload.index == index && text_eq(preload.path.as_str(), path),
        None => false,
    }
}

/// What is to be done about preparing a track ahead.
#[derive(Debug, Copy, Clone, PartialEq, Eq, Structural)]
pub enum PreloadStep {
    /// Nothing.
    Keep,
    /// What is prepared is dropped.
    Clear,
    /// The candidate is looked at.
    LookAhead,
}

/// What is to be done about preparing a track ahead. `near_end` says whether the
/// track is about to end.
pub fn preload_step(
    run_state: AppRunState,
    active: bool,
    loop_enabled: bool,
    playlist: Option<PlaylistFacts>,
    near_end: bool,
) -> (step: PreloadStep)
    ensures
        step == if run_state != AppRunState::Playing || !active {
            PreloadStep::Keep
        } else if loop_enabled || (playlist is Some && playlist->Some_0.repeat_mode
            == PlaylistRepeatMode::Track) {
            PreloadStep::Clear
        } else if !near_end {
            PreloadStep::Keep
        } else {
            PreloadStep::LookAhead
        },
{
    if run_state != AppRunState::Playing || !active {
        return PreloadStep::Keep;
    }
    let repeats_track = match playlist {
        Some(playlist) => playlist.repeat_mode == PlaylistRepeatMode::Track,
        None => false,
    };
    if loop_enabled || repeats_track {
        return PreloadStep::Clear;
    }
    if !near_end {
        return PreloadStep::Keep;
    }
    PreloadStep::LookAhead
}

impl PlaylistPreload {
    pub fn new() -> (preload: PlaylistPreload)
        ensures
            preload == (PlaylistPreload { token: 0, pending: None, ready: None }),
    {
        PlaylistPreload { token: 0, pending: None, ready: None }
    }

    fn advance_token(&mut self)
        ensures
            *final(self) == (PlaylistPreload { token: next_token(old(self).token), ..*old(self) }),
    {
        if self.token == u64::MAX {
            self.token = 0;
        } else {
            self.token = self.token + 1;
        }
    }

    /// Nothing prepared, and nothing being prepared.
    pub open spec fn cleared(self) -> PlaylistPreload {
        PlaylistPreload { token: next_token(self.token), pending: None, ready: None }
    }

    /// Drops what is prepared, and what is being prepared.
    pub fn clear_playlist_preload(&mut self)
        ensures
            *final(self) == old(self).cleared(),
    {
        self.pending = None;
        self.ready = None;
        self.advance_token();
    }

    /// Looks at the track that comes next, and returns the token of the order to
    /// prepare it, if it is to be. Only decoded audio is prepared, and nothing twice.
    pub fn look_ahead(&mut self, candidate: Option<(usize, String, bool)>) -> (order: Option<u64>)
        ensures
            match candidate {
                None => order is None && *final(self) == old(self).cleared(),
                Some((index, path, decoded)) => if is_for(old(self).ready, index, path@) || is_for(
                    old(self).pending,
                    index,
                    path@,
                ) {
                    order is None && *final(self) == *old(self)
                } else if !decoded {
                    order is None && *final(self) == old(self).cleared()
                } else {
                    order == Some(next_token(old(self).token)) && *final(self) == (PlaylistPreload {
                        token: next_token(old(self).token),
                        ..*old(self)
                    })
                },
            },
    {
        match candidate {
            None => {
                self.clear_playlist_preload();
                None
            },
            Some((index, path, decoded)) => {
                if is_preload_for(&self.ready, index, path.as_str()) || is_preload_for(
                    &self.pending,
                    index,
                    path.as_str(),
                ) {
                    return None;
                }
                if !decoded {
                    self.clear_playlist_preload();
                    return None;
                }
                self.advance_token();
                Some(self.token)
            },
        }
    }

    /// Notes that an order was taken.
    pub fn order_taken(&mut self, token: u64, index: usize, path: String)
        ensures
            *final(self) == (PlaylistPreload {
                pending: Some(Preload { token, index, path }),
                ..*old(self)
            }),
    {
        self.pending = Some(Preload { token, index, path });
    }

    /// The end of the pending order: the track is ready if the order is the newest and
    /// succeeded.
    pub open spec fn done(self, succeeded: bool) -> PlaylistPreload {
        PlaylistPreload {
            token: self.token,
            pending: None,
            ready: match self.pending {
                Some(pending) => if succeeded && pending.token == self.token {
                    Some(pending)
                } else {
                    self.ready
                },
                None => self.ready,
            },
        }
    }

    /// Takes in the end of the pending order.
    pub fn order_done(&mut self, succeeded: bool)
        ensures
            *final(self) == old(self).done(succeeded),
    {
        match self.pending.take() {
            Some(pending) => {
                if succeeded && pending.token == self.token {
                    self.ready = Some(pending);
                }
            },
            None => {},
        }
    }

    /// Whether a track is ready.
    pub open spec fn is_ready(&self, index: usize, path: Seq<char>) -> bool {
        is_for(self.ready, index, path) && self.ready->Some_0.token == self.token
    }

    /// Takes a track that is ready, and returns whether it was.
    pub fn take_ready_playlist_preload(&mut self, index: usize, path: &str) -> (taken: bool)
        ensures
            taken == old(self).is_ready(index, path@),
            *final(self) == if taken {
                PlaylistPreload { token: old(self).token, pending: None, ready: None }
            } else {
                *old(self)
            },
    {
        let fits = match &self.ready {
            Some(ready) => ready.index == index && text_eq(ready.path.as_str(), path)
                && ready.token == self.token,
            None => false,
        };
        if fits {
            self.ready = None;
            self.pending = None;
        }
        fits
    }
}

/// What was prepared is not used once it was dropped.
pub proof fn dropped_tracks_are_not_used(preload: PlaylistPreload, index: usize, path: Seq<char>)
    ensures
        !preload.cleared().is_ready(index, path),
{
}

/// The track of the newest order is ready once that succeeds; an order that is no
/// longer the newest makes nothing ready.
pub proof fn newest_order_makes_its_track_ready(preload: PlaylistPreload)
    requires
        preload.pending is Some,
    ensures
        ({
            let order = preload.pending->Some_0;
            if order.token == preload.token {
                preload.done(true).is_ready(order.index, order.path@)
            } else {
                preload.done(true).ready == preload.ready
            }
        }),
        preload.done(false).ready == preload.ready,
{
}

/// The newest order to load decoded audio.
#[derive(Debug, Copy, Clone, PartialEq, Eq, Structural)]
pub struct DecodedLoadOrder {
    pub token: u64,
    pub resume_after_load: bool,
    pub playlist_entry_load: bool,
}

/// The orders to load decoded audio.
#[derive(Debug, Copy, Clone, PartialEq, Eq, Structural)]
pub struct DecodedLoads {
    pub token: u64,
    pub pending: Option<DecodedLoadOrder>,
}

impl DecodedLoads {
    /// The orders with a new one in place of one that is pending.
    pub open spec fn ordered(self, resume_after_load: bool, playlist_entry_load: bool) -> DecodedLoads {
        let token = next_token(self.token);
        DecodedLoads {
            token,
            pending: Some(DecodedLoadOrder { token, resume_after_load, playlist_entry_load }),
        }
    }

    /// Orders a load. It takes the place of one that is pending.
    pub fn order(&mut self, resume_after_load: bool, playlist_entry_load: bool) -> (token: u64)
        ensures
            token == next_token(old(self).token),
            *final(self) == old(self).ordered(resume_after_load, playlist_entry_load),
    {
        if self.token == u64::MAX {
            self.token = 0;
        } else {
            self.token = self.token + 1;
        }
        let token: u64 = self.token;
        self.pending =
        Some(DecodedLoadOrder { token, resume_after_load, playlist_entry_load });
        token
    }

    /// Drops a load that could not be started.
    pub fn abandon(&mut self)
        ensures
            *final(self) == (DecodedLoads { pending: None, ..*old(self) }),
    {
        self.pending = None;
    }

    /// The order that a result is for, unless that is out of date.
    pub open spec fn order_of(self, result_token: u64) -> Option<DecodedLoadOrder> {
        match self.pending {
            Some(pending) => if result_token == pending.token && result_token == self.token {
                Some(pending)
            } else {
                None
            },
            None => None,
        }
    }

    /// Takes in the result of a load, and returns the order it is for, unless that is
    /// out of date.
    pub fn finish(&mut self, result_token: u64) -> (order: Option<DecodedLoadOrder>)
        ensures
            *final(self) == (DecodedLoads { pending: None, ..*old(self) }),
            order == old(self).order_of(result_token),
    {
        let pending = self.pending;
        self.pending = None;
        match pending {
            Some(pending) => if result_token == pending.token && result_token == self.token {
                Some(pending)
            } else {
                None
            },
            None => None,
        }
    }
}

/// Of two loads that were ordered one after the other only the result of the second
/// is used.
pub proof fn newest_load_stands(loads: DecodedLoads, resume: bool, entry: bool, later_resume: bool, later_entry: bool)
    ensures
        ({
            let first = loads.ordered(resume, entry);
            let second = first.ordered(later_resume, later_entry);
            &&& first.order_of(first.token) == first.pending
            &&& second.order_of(first.token) is None
            &&& second.order_of(second.token) == second.pending
        }),
{
}

/// Why decoded audio could not be loaded by its job: an error with the stage in which
/// it came, or what the job did not produce.
pub open spec fn job_failure(
    error: Option<Seq<char>>,
    stage: Seq<char>,
    has_wrapper: bool,
    has_source: bool,
) -> Option<Seq<char>> {
    match error {
        Some(error) => Some("decoded audio "@ + stage + " failed: "@ + error),
        None => if !has_wrapper {
            Some("decoded audio load did not produce wrapper metadata"@)
        } else if !has_source {
            Some("decoded audio load did not produce a stream source"@)
        } else {
            None
        },
    }
}

pub fn decoded_job_failure(
    error: &Option<String>,
    stage: &str,
    has_wrapper: bool,
    has_source: bool,
) -> (failure: Option<String>)
    ensures
        optional_text(failure) == job_failure(
            optional_text(*error),
            stage@,
            has_wrapper,
            has_source,
        ),
{
    match error {
        Some(error) => {
            let mut text = "decoded audio ".to_owned();
            text.append(stage);
            text.append(" failed: ");
            text.append(error.as_str());
            Some(text)
        },
        None => if !has_wrapper {
            Some("decoded audio load did not produce wrapper metadata".to_owned())
        } else if !has_source {
            Some("decoded audio load did not produce a stream source".to_owned())
        } else {
            None
        },
    }
}

/// The selected entries after a click on one: with the key for several it is added or
/// removed, without it is the only one.
pub fn select_entry(selected: &mut std::collections::BTreeSet<u64>, index: u64, several: bool)
    ensures
        final(selected)@ == if !several {
            Set::empty().insert(index)
        } else if old(selected)@.contains(index) {
            old(selected)@.remove(index)
        } else {
            old(selected)@.insert(index)
        },
{
    broadcast use vstd::std_specs::btree::group_btree_axioms;

    if several {
        if selected.contains(&index) {
            selected.remove(&index);
        } else {
            selected.insert(index);
        }
    } else {
        selected.clear();
        selected.insert(index);
    }
}

/// What the user is told when a playlist was opened. `track` says whether its first
/// track that can be played was loaded, if there is one.
pub open spec fn opened_playlist_text(entries: usize, track: Option<bool>, path: Seq<char>) -> Seq<char> {
    if entries == 0 {
        "Loaded empty playlist"@
    } else {
        match track {
            None => "Loaded playlist, but no valid tracks were found"@,
            Some(false) => "Loaded playlist, but first valid track failed to load"@,
            Some(true) => "Loaded playlist "@ + path,
        }
    }
}

pub fn opened_playlist_status(entries: usize, track: Option<bool>, path: &str) -> (text: String)
    ensures
        text@ == opened_playlist_text(entries, track, path@),
{
    if entries == 0 {
        return "Loaded empty playlist".to_owned();
    }
    match track {
        None => "Loaded playlist, but no valid tracks were found".to_owned(),
        Some(loaded) => if loaded {
            let mut text = "Loaded playlist ".to_owned();
            text.append(path);
            text
        } else {
            "Loaded playlist, but first valid track failed to load".to_owned()
        },
    }
}

/// How a playlist is saved.
#[derive(Debug, Copy, Clone, PartialEq, Eq, Structural)]
pub enum PlaylistSave {
    /// There is none.
    Nothing,
    /// The user is asked for a path.
    Ask,
    /// Where it came from.
    InPlace,
}

pub fn save_playlist(has_playlist: bool, has_path: bool) -> (save: PlaylistSave)
    ensures
        save == if !has_playlist {
            PlaylistSave::Nothing
        } else if has_path {
            PlaylistSave::InPlace
        } else {
            PlaylistSave::Ask
        },
{
    if !has_playlist {
        PlaylistSave::Nothing
    } else if has_path {
        PlaylistSave::InPlace
    } else {
        PlaylistSave::Ask
    }
}

proof fn lemma_first_skipped(entries: Seq<EntryFacts>, missing: bool, from: int)
    requires
        0 <= from <= entries.len(),
    ensures
        match first_skipped(entries, missing, from) {
            Some(i) => from <= i < entries.len() && (if missing {
                !entries[i].file_exists
            } else {
                entries[i].file_exists && !entries[i].supported
            }) && forall|k: int|
                from <= k < i ==> (if missing {
                    (#[trigger] entries[k]).file_exists
                } else {
                    !entries[k].file_exists || entries[k].supported
                }),
            None => forall|k: int|
                from <= k < entries.len() ==> (if missing {
                    (#[trigger] entries[k]).file_exists
                } else {
                    !entries[k].file_exists || entries[k].supported
                }),
        },
    decreases entries.len() - from,
{
    if from < entries.len() && !(if missing {
        !entries[from].file_exists
    } else {
        entries[from].file_exists && !entries[from].supported
    }) {
        lemma_first_skipped(entries, missing, from + 1);
    }
}

/// The user is told of the first entry whose file is missing; only where no file is missing,
/// of the first one that cannot be played.
pub proof fn missing_files_are_told_of_first(entries: Seq<EntryFacts>, i: int)
    requires
        0 <= i < entries.len(),
    ensures
        !entries[i].file_exists && (forall|k: int|
            0 <= k < i ==> (#[trigger] entries[k]).file_exists) ==> skip_text(entries)
            == "Skipped missing file: "@ + entries[i].display_name@,
        (forall|k: int| 0 <= k < entries.len() ==> (#[trigger] entries[k]).file_exists)
            && !entries[i].supported && (forall|k: int|
            0 <= k < i ==> (#[trigger] entries[k]).supported) ==> skip_text(entries)
            == "Skipped unsupported file: "@ + entries[i].display_name@,
        (forall|k: int|
            0 <= k < entries.len() ==> (#[trigger] entries[k]).file_exists && entries[k].supported)
            ==> skip_text(entries) == "No valid playlist entries remain"@,
{
    lemma_first_skipped(entries, true, 0);
    lemma_first_skipped(entries, false, 0);
}

/// A file takes the place of a playlist without a question unless several entries are
/// unsaved. A playlist that the user wants to keep has to be saved first, and a question
/// that is dismissed opens nothing.
pub proof fn unsaved_playlists_are_protected(playlist: PlaylistFacts, saved: bool)
    ensures
        !asks_before_opening(None),
        playlist.entry_count > 1 && playlist.dirty ==> asks_before_opening(Some(playlist)),
        playlist.entry_count <= 1 || !playlist.dirty ==> !asks_before_opening(Some(playlist)),
        opening_answered(SaveAnswer::Yes, saved).0 == saved,
        opening_answered(SaveAnswer::No, saved).0,
        !opening_answered(SaveAnswer::Cancel, saved).0,
        opening_answered(SaveAnswer::Cancel, saved).1 is Some,
{
}

/// The loop button of a track and the repeat mode of the playlist go together.
pub proof fn track_loops_repeat_the_track(align: bool, loop_enabled: bool)
    ensures
        repeat_mode_of_track(true) == PlaylistRepeatMode::Track,
        repeat_mode_of_track(false) == PlaylistRepeatMode::Off,
        of_one_file(align, loop_enabled).entry_count == 1,
        !of_one_file(align, loop_enabled).dirty,
        (of_one_file(align, loop_enabled).repeat_mode == PlaylistRepeatMode::Track) == (align
            && loop_enabled),
        of_one_file(align, loop_enabled).repeat_mode != PlaylistRepeatMode::Playlist,
{
}

/// A track that was prepared is used only for the entry and the file it was prepared for,
/// and only while nothing newer was ordered.
pub proof fn prepared_tracks_are_used_where_they_belong(
    preload: PlaylistPreload,
    index: usize,
    path: Seq<char>,
)
    ensures
        preload.ready is None ==> !preload.is_ready(index, path),
        preload.ready is Some && preload.ready->Some_0.index != index ==> !preload.is_ready(
            index,
            path,
        ),
        preload.ready is Some && preload.ready->Some_0.path@ != path ==> !preload.is_ready(
            index,
            path,
        ),
        preload.ready is Some && preload.ready->Some_0.token != preload.token
            ==> !preload.is_ready(index, path),
        preload.ready is Some && preload.ready->Some_0.index == index
            && preload.ready->Some_0.path@ == path && preload.ready->Some_0.token == preload.token
            ==> preload.is_ready(index, path),
        preload.done(false).ready == preload.ready,
        preload.done(true).pending is None,
        preload.cleared().ready is None,
        preload.cleared().pending is None,
        preload.cleared().token != preload.token,
{
}

/// A job fails with what went wrong, or because its wrapper or its source is missing; a job
/// that brought both did not fail.
pub proof fn jobs_fail_where_something_is_missing(
    error: Option<Seq<char>>,
    stage: Seq<char>,
    has_wrapper: bool,
    has_source: bool,
)
    ensures
        job_failure(error, stage, has_wrapper, has_source) is None <==> error is None
            && has_wrapper && has_source,
        error is Some ==> job_failure(error, stage, has_wrapper, has_source) == Some(
            "decoded audio "@ + stage + " failed: "@ + error->Some_0,
        ),
{
}

} // verus!
