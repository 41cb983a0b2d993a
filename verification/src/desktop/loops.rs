//! The loop of a track: its mode, its ends, and how they follow what the user and
//! the files ask for.
use crate::numbers::{max_of, max_u32, min_of, min_u64};
use crate::playback::decoded::{fitted_loop, PlaybackLoopMode, PlaybackLoopSettings};
use crate::playback::load::{join_numbers, joined_numbers};
use crate::playback::transport::MidiTransportMetadata;
use crate::text::decimal;
use vstd::prelude::*;
use vstd::string::*;

verus! {

/// How a track loops.
#[derive(Debug, Copy, Clone, PartialEq, Eq, Structural)]
pub enum LoopMode {
    Off,
    Infinite,
    Counted,
}

impl LoopMode {
    pub open spec fn text(self) -> Seq<char> {
        match self {
            LoopMode::Off => "none"@,
            LoopMode::Infinite => "inf"@,
            LoopMode::Counted => "n"@,
        }
    }

    pub fn label(self) -> (label: &'static str)
        ensures
            label@ == self.text(),
    {
        match self {
            LoopMode::Off => "none",
            LoopMode::Infinite => "inf",
            LoopMode::Counted => "n",
        }
    }

    pub open spec fn mode_of_playback(self) -> PlaybackLoopMode {
        match self {
            LoopMode::Off => PlaybackLoopMode::Off,
            LoopMode::Infinite => PlaybackLoopMode::Infinite,
            LoopMode::Counted => PlaybackLoopMode::Counted,
        }
    }

    pub fn playback_mode(self) -> (mode: PlaybackLoopMode)
        ensures
            mode == self.mode_of_playback(),
    {
        match self {
            LoopMode::Off => PlaybackLoopMode::Off,
            LoopMode::Infinite => PlaybackLoopMode::Infinite,
            LoopMode::Counted => PlaybackLoopMode::Counted,
        }
    }
}

/// How a playlist repeats.
#[derive(Debug, Copy, Clone, PartialEq, Eq, Structural)]
pub enum PlaylistRepeatMode {
    Off,
    Track,
    Playlist,
}

/// The loop of a track. Positions are ticks or frames.
#[derive(Debug, Copy, Clone, PartialEq, Eq, Structural)]
pub struct LoopState {
    pub enabled: bool,
    pub mode: LoopMode,
    pub start_tick: u64,
    pub end_tick: u64,
    pub count: u32,
}

/// Where a loop starts and ends.
#[derive(Debug, Copy, Clone, PartialEq, Eq, Structural)]
pub struct LoopEnds {
    pub start: u64,
    pub end: u64,
}

/// The loop that a file asks for. The ends are there if they are given in the
/// units of the track.
#[derive(Debug, Copy, Clone, PartialEq, Eq, Structural)]
pub struct MediaLoop {
    pub enabled: bool,
    pub mode: LoopMode,
    pub ends: Option<LoopEnds>,
    pub loop_count: u64,
}

/// The loop that an FMID file asks for.
#[derive(Debug, Copy, Clone, PartialEq, Eq, Structural)]
pub struct FmidLoopRecord {
    pub enabled: bool,
    pub mode: LoopMode,
    pub start_tick: u64,
    pub end_tick: u64,
    pub loop_count: u64,
}

/// No loop.
pub open spec fn no_loop_state() -> LoopState {
    LoopState { enabled: false, mode: LoopMode::Off, start_tick: 0, end_tick: 0, count: 1 }
}

impl Default for LoopState {
    fn default() -> (state: LoopState)
        ensures
            state == no_loop_state(),
    {
        LoopState { enabled: false, mode: LoopMode::Off, start_tick: 0, end_tick: 0, count: 1 }
    }
}

impl LoopState {
    /// The loop fitted to a track of the given length: its ends inside the track,
    /// at least one repetition, and off where it has no mode or no extent.
    pub open spec fn normalized(self, length: u64) -> LoopState {
        let start = min_of(self.start_tick as int, length as int) as u64;
        let end = min_of(self.end_tick as int, length as int) as u64;
        LoopState {
            enabled: self.enabled && self.mode != LoopMode::Off && end > start,
            mode: self.mode,
            start_tick: start,
            end_tick: end,
            count: max_of(self.count as int, 1) as u32,
        }
    }

    /// Whether fitting the loop to a track switches it off for want of extent.
    pub open spec fn loses_extent(self, length: u64) -> bool {
        self.enabled && self.mode != LoopMode::Off && min_of(self.end_tick as int, length as int)
            <= min_of(self.start_tick as int, length as int)
    }

    /// Fits the loop to a track, and returns whether it was switched off because its
    /// start is not before its end.
    pub fn normalize_loop_state(&mut self, length: u64) -> (lost: bool)
        ensures
            *final(self) == old(self).normalized(length),
            lost == old(self).loses_extent(length),
    {
        self.start_tick = min_u64(self.start_tick, length);
        self.end_tick = min_u64(self.end_tick, length);
        self.count = max_u32(self.count, 1);
        if self.mode == LoopMode::Off {
            self.enabled = false;
            return false;
        }
        if self.enabled && self.end_tick <= self.start_tick {
            self.enabled = false;
            return true;
        }
        false
    }

    /// The loop switched, before it is fitted: a loop without a mode becomes an
    /// infinite one, and one without an end ends with the track.
    pub open spec fn switched(self, enabled: bool, length: u64) -> LoopState {
        LoopState {
            enabled,
            mode: if enabled && self.mode == LoopMode::Off {
                LoopMode::Infinite
            } else {
                self.mode
            },
            end_tick: if enabled && self.end_tick == 0 {
                length
            } else {
                self.end_tick
            },
            ..self
        }
    }

    pub fn set_enabled(&mut self, enabled: bool, length: u64) -> (lost: bool)
        ensures
            *final(self) == old(self).switched(enabled, length).normalized(length),
            lost == old(self).switched(enabled, length).loses_extent(length),
    {
        self.enabled = enabled;
        if enabled && self.mode == LoopMode::Off {
            self.mode = LoopMode::Infinite;
        }
        if enabled && self.end_tick == 0 {
            self.end_tick = length;
        }
        self.normalize_loop_state(length)
    }

    /// The loop with another mode, before it is fitted: it is on unless the mode
    /// is off.
    pub open spec fn with_mode(self, mode: LoopMode, length: u64) -> LoopState {
        LoopState {
            enabled: mode != LoopMode::Off,
            mode,
            end_tick: if mode != LoopMode::Off && self.end_tick == 0 {
                length
            } else {
                self.end_tick
            },
            ..self
        }
    }

    pub fn set_mode(&mut self, mode: LoopMode, length: u64) -> (lost: bool)
        ensures
            *final(self) == old(self).with_mode(mode, length).normalized(length),
            lost == old(self).with_mode(mode, length).loses_extent(length),
    {
        self.mode = mode;
        self.enabled = mode != LoopMode::Off;
        if self.enabled && self.end_tick == 0 {
            self.end_tick = length;
        }
        self.normalize_loop_state(length)
    }

    pub fn set_start(&mut self, tick: u64, length: u64) -> (lost: bool)
        ensures
            *final(self) == (LoopState { start_tick: tick, ..*old(self) }).normalized(length),
            lost == (LoopState { start_tick: tick, ..*old(self) }).loses_extent(length),
    {
        self.start_tick = tick;
        self.normalize_loop_state(length)
    }

    pub fn set_end(&mut self, tick: u64, length: u64) -> (lost: bool)
        ensures
            *final(self) == (LoopState { end_tick: tick, ..*old(self) }).normalized(length),
            lost == (LoopState { end_tick: tick, ..*old(self) }).loses_extent(length),
    {
        self.end_tick = tick;
        self.normalize_loop_state(length)
    }

    pub fn set_count(&mut self, count: u32, length: u64) -> (lost: bool)
        ensures
            *final(self) == (LoopState { count, ..*old(self) }).normalized(length),
            lost == old(self).loses_extent(length),
    {
        self.count = max_u32(count, 1);
        self.normalize_loop_state(length)
    }

    /// The loop as playback knows it.
    pub open spec fn settings(self) -> PlaybackLoopSettings {
        PlaybackLoopSettings {
            enabled: self.enabled,
            mode: self.mode.mode_of_playback(),
            start_tick: self.start_tick,
            end_tick: self.end_tick,
            loop_count: max_of(self.count as int, 1) as u32,
        }
    }

    pub fn current_loop_settings(&self) -> (settings: PlaybackLoopSettings)
        ensures
            settings == self.settings(),
    {
        PlaybackLoopSettings {
            enabled: self.enabled,
            mode: self.mode.playback_mode(),
            start_tick: self.start_tick,
            end_tick: self.end_tick,
            loop_count: max_u32(self.count, 1),
        }
    }

    /// Whether seeking ends the loop: a counted one that is left.
    pub open spec fn ends_by_seeking(self, tick: u64) -> bool {
        self.enabled && self.mode == LoopMode::Counted && !(self.start_tick <= tick
            < self.end_tick)
    }

    /// Switches off a counted loop that seeking leaves, and returns whether it did.
    pub fn handle_counted_loop_seek(&mut self, target_tick: u64) -> (ended: bool)
        ensures
            ended == old(self).ends_by_seeking(target_tick),
            *final(self) == (LoopState {
                enabled: old(self).enabled && !ended,
                ..*old(self)
            }),
    {
        if !self.enabled || self.mode != LoopMode::Counted {
            return false;
        }
        if target_tick >= self.start_tick && target_tick < self.end_tick {
            return false;
        }
        self.enabled = false;
        true
    }

    /// The loop that a MIDI file's jump points ask for, before it is fitted: it
    /// ends with the track where no end is given.
    pub open spec fn jumping(self, transport: MidiTransportMetadata) -> LoopState {
        let start = match transport.jump_start_tick {
            Some(tick) => tick,
            None => self.start_tick,
        };
        let end = match transport.jump_end_tick {
            Some(tick) => tick,
            None => if transport.tick_length > 0 {
                transport.tick_length
            } else {
                self.end_tick
            },
        };
        LoopState {
            enabled: self.enabled || start > 0 || end > 0,
            mode: if start > 0 || end > 0 {
                LoopMode::Infinite
            } else {
                self.mode
            },
            start_tick: start,
            end_tick: end,
            count: self.count,
        }
    }

    /// Takes over the jump points of a MIDI file.
    pub fn apply_midi_transport_metadata(&mut self, transport: &MidiTransportMetadata, length: u64)
        ensures
            *final(self) == old(self).jumping(*transport).normalized(length),
    {
        match transport.jump_start_tick {
            Some(tick) => {
                self.start_tick = tick;
            },
            None => {},
        }
        match transport.jump_end_tick {
            Some(tick) => {
                self.end_tick = tick;
            },
            None => if transport.tick_length > 0 {
                self.end_tick = transport.tick_length;
            },
        }
        if self.start_tick > 0 || self.end_tick > 0 {
            self.mode = LoopMode::Infinite;
            self.enabled = true;
        }
        self.normalize_loop_state(length);
    }

    /// The loop of a track that asks for none: over the whole track, or none.
    pub open spec fn whole_track(looping: bool, length: u64) -> LoopState {
        if looping {
            LoopState {
                enabled: length > 0,
                mode: LoopMode::Infinite,
                start_tick: 0,
                end_tick: length,
                count: 1,
            }
        } else {
            no_loop_state()
        }
    }

    /// The loop after a MIDI or FMID file was loaded: its own, else over the whole
    /// track unless a playlist goes on to another one.
    pub open spec fn after_load(self, own_loop: bool, playlist_goes_on: bool, length: u64) -> LoopState {
        if own_loop {
            self.normalized(length)
        } else {
            LoopState::whole_track(!playlist_goes_on, length)
        }
    }

    pub fn apply_loop_defaults_after_load(
        &mut self,
        own_loop: bool,
        playlist_goes_on: bool,
        length: u64,
    )
        ensures
            *final(self) == old(self).after_load(own_loop, playlist_goes_on, length),
    {
        if own_loop {
            self.normalize_loop_state(length);
            return;
        }
        if should_enable_loop_by_default(own_loop, playlist_goes_on) {
            self.mode = LoopMode::Infinite;
            self.enabled = length > 0;
            self.start_tick = 0;
            self.end_tick = length;
            self.count = 1;
        } else {
            self.mode = LoopMode::Off;
            self.enabled = false;
            self.start_tick = 0;
            self.end_tick = 0;
            self.count = 1;
        }
        self.normalize_loop_state(length);
    }

    /// The loop after decoded audio was loaded, before it is fitted: what the file
    /// asks for, else over the whole track unless a playlist goes on.
    pub open spec fn after_decoded_load(
        region: Option<MediaLoop>,
        playlist_goes_on: bool,
        length: u64,
    ) -> LoopState {
        match region {
            Some(region) => LoopState {
                enabled: region.enabled,
                mode: region.mode,
                start_tick: match region.ends {
                    Some(ends) => ends.start,
                    None => 0,
                },
                end_tick: match region.ends {
                    Some(ends) => ends.end,
                    None => length,
                },
                count: min_of(max_of(region.loop_count as int, 1), u32::MAX as int) as u32,
            },
            None => LoopState {
                enabled: !playlist_goes_on && length > 0,
                mode: if playlist_goes_on {
                    LoopMode::Off
                } else {
                    LoopMode::Infinite
                },
                start_tick: 0,
                end_tick: if playlist_goes_on {
                    0
                } else {
                    length
                },
                count: 1,
            },
        }
    }

    pub fn apply_decoded_audio_defaults(
        region: Option<MediaLoop>,
        playlist_goes_on: bool,
        length: u64,
    ) -> (state: LoopState)
        ensures
            state == LoopState::after_decoded_load(region, playlist_goes_on, length).normalized(
                length,
            ),
    {
        let mut state = match region {
            Some(region) => {
                let (start_tick, end_tick): (u64, u64) = match region.ends {
                    Some(ends) => (ends.start, ends.end),
                    None => (0, length),
                };
                let count: u32 = if region.loop_count == 0 {
                    1
                } else if region.loop_count > u32::MAX as u64 {
                    u32::MAX
                } else {
                    region.loop_count as u32
                };
                LoopState {
                    enabled: region.enabled,
                    mode: region.mode,
                    start_tick,
                    end_tick,
                    count,
                }
            },
            None => {
                let by_default = should_enable_loop_by_default(false, playlist_goes_on);
                let enabled = by_default && length > 0;
                LoopState {
                    enabled,
                    mode: if by_default {
                        LoopMode::Infinite
                    } else {
                        LoopMode::Off
                    },
                    start_tick: 0,
                    end_tick: if enabled {
                        length
                    } else {
                        0
                    },
                    count: 1,
                }
            },
        };
        state.normalize_loop_state(length);
        state
    }

    /// The loop that an FMID file asks for, before it is fitted. Of the count only
    /// the low 32 bits are kept.
    pub open spec fn of_fmid(looping: FmidLoopRecord) -> LoopState {
        LoopState {
            enabled: looping.enabled,
            mode: looping.mode,
            start_tick: looping.start_tick,
            end_tick: looping.end_tick,
            count: (looping.loop_count % 0x1_0000_0000) as u32,
        }
    }

    pub fn from_fmid(looping: FmidLoopRecord, length: u64) -> (state: LoopState)
        ensures
            state == LoopState::of_fmid(looping).normalized(length),
    {
        let mut state = LoopState {
            enabled: looping.enabled,
            mode: looping.mode,
            start_tick: looping.start_tick,
            end_tick: looping.end_tick,
            count: (looping.loop_count % 0x1_0000_0000) as u32,
        };
        state.normalize_loop_state(length);
        state
    }

    /// The loop as an FMID file keeps it: without a mode while it is off.
    pub open spec fn fmid_record(self) -> FmidLoopRecord {
        FmidLoopRecord {
            enabled: self.enabled,
            mode: if self.enabled {
                self.mode
            } else {
                LoopMode::Off
            },
            start_tick: self.start_tick,
            end_tick: self.end_tick,
            loop_count: self.count as u64,
        }
    }

    pub fn to_fmid(&self) -> (record: FmidLoopRecord)
        ensures
            record == self.fmid_record(),
    {
        FmidLoopRecord {
            enabled: self.enabled,
            mode: if self.enabled {
                self.mode
            } else {
                LoopMode::Off
            },
            start_tick: self.start_tick,
            end_tick: self.end_tick,
            loop_count: self.count as u64,
        }
    }

    /// The loop as an audio wrapper keeps it.
    pub open spec fn region(self) -> MediaLoop {
        MediaLoop {
            enabled: self.enabled,
            mode: self.mode,
            ends: Some(LoopEnds { start: self.start_tick, end: self.end_tick }),
            loop_count: max_of(self.count as int, 1) as u64,
        }
    }

    pub fn to_media_loop(&self) -> (region: MediaLoop)
        ensures
            region == self.region(),
    {
        MediaLoop {
            enabled: self.enabled,
            mode: self.mode,
            ends: Some(LoopEnds { start: self.start_tick, end: self.end_tick }),
            loop_count: max_u32(self.count, 1) as u64,
        }
    }
}

/// Whether a track loops where nobody said so: it has a loop of its own, or no
/// playlist goes on to another track.
pub fn should_enable_loop_by_default(own_loop: bool, playlist_goes_on: bool) -> (looping: bool)
    ensures
        looping == (own_loop || !playlist_goes_on),
{
    if own_loop {
        return true;
    }
    !playlist_goes_on
}

/// Whether a MIDI file has a loop of its own.
pub fn midi_has_non_default_loop_config(transport: &MidiTransportMetadata) -> (own: bool)
    ensures
        own == (transport.jump_start_tick is Some || transport.jump_end_tick is Some
            || transport.jump_points@.len() > 0),
{
    transport.jump_start_tick.is_some() || transport.jump_end_tick.is_some()
        || transport.jump_points.len() > 0
}

/// Whether an FMID file has a loop of its own.
pub fn fmid_has_non_default_loop_config(looping: FmidLoopRecord) -> (own: bool)
    ensures
        own == (looping.enabled || looping.mode != LoopMode::Off || looping.start_tick > 0
            || looping.end_tick > 0 || looping.loop_count > 1),
{
    looping.enabled || looping.mode != LoopMode::Off || looping.start_tick > 0 || looping.end_tick
        > 0 || looping.loop_count > 1
}

/// What the user is told of jump points.
pub open spec fn jump_points_text(points: Seq<u64>) -> Seq<char> {
    decimal(points.len()) + " jump point(s) parsed: "@ + joined_numbers(points, ", "@)
}

/// What the user is told of jump points, if there are any.
pub fn jump_points_status(points: &[u64]) -> (status: Option<String>)
    ensures
        match status {
            Some(status) => points@.len() > 0 && status@ == jump_points_text(points@),
            None => points@.len() == 0,
        },
{
    if points.len() == 0 {
        return None;
    }
    let mut text = crate::text::decimal_text(points.len() as u128);
    text.append(" jump point(s) parsed: ");
    text.append(join_numbers(points, ", ").as_str());
    Some(text)
}

/// A fitted loop lies inside the track, has at least one repetition, and is off
/// where it has no extent; fitting it again changes nothing.
pub proof fn normalized_loop_is_inside(state: LoopState, length: u64)
    ensures
        state.normalized(length).start_tick <= length,
        state.normalized(length).end_tick <= length,
        state.normalized(length).count >= 1,
        state.normalized(length).enabled ==> state.normalized(length).start_tick
            < state.normalized(length).end_tick && state.normalized(length).mode != LoopMode::Off,
        state.normalized(length).normalized(length) == state.normalized(length),
        !state.normalized(length).loses_extent(length),
{
}

/// Playback takes over a fitted loop as it is.
pub proof fn playback_takes_over_the_loop(state: LoopState, length: u64)
    ensures
        fitted_loop(state.normalized(length).settings(), length) == state.normalized(
            length,
        ).settings(),
{
}

/// A fitted loop that is on comes back from an FMID file as it was, and one that is
/// off comes back off.
pub proof fn saved_loop_is_restored(state: LoopState, length: u64)
    ensures
        state.normalized(length).enabled ==> LoopState::of_fmid(
            state.normalized(length).fmid_record(),
        ).normalized(length) == state.normalized(length),
        LoopState::of_fmid(state.normalized(length).fmid_record()).normalized(length).enabled
            == state.normalized(length).enabled,
{
}

/// A fitted loop comes back from an audio wrapper as it was.
pub proof fn wrapped_loop_is_restored(state: LoopState, playlist_goes_on: bool, length: u64)
    ensures
        LoopState::after_decoded_load(
            Some(state.normalized(length).region()),
            playlist_goes_on,
            length,
        ).normalized(length) == state.normalized(length),
{
}

/// Switching a loop on and off again leaves its ends and its mode, and it is off.
pub proof fn switched_off_loop_is_off(state: LoopState, length: u64)
    ensures
        !state.switched(false, length).normalized(length).enabled,
        state.switched(false, length).mode == state.mode,
        length > 0 && state.start_tick < length && (state.end_tick == 0 || state.start_tick
            < state.end_tick) ==> state.switched(true, length).normalized(length).enabled,
{
}

/// Seeking inside a counted loop keeps it.
pub proof fn seeking_inside_keeps_the_loop(state: LoopState, tick: u64)
    requires
        state.start_tick <= tick < state.end_tick,
    ensures
        !state.ends_by_seeking(tick),
{
}

/// A MIDI file with jump points inside the track loops between them without end, whatever
/// the loop was before; one that gives only a start loops from there to the end of the
/// track, and one that gives only an end up to there.
pub proof fn jump_points_make_a_loop(
    state: LoopState,
    transport: MidiTransportMetadata,
    length: u64,
    start: u64,
    end: u64,
)
    requires
        start < end <= length,
        transport.jump_start_tick == Some(start) || (transport.jump_start_tick is None
            && state.start_tick == start),
        transport.jump_end_tick == Some(end) || (transport.jump_end_tick is None
            && transport.tick_length == end),
    ensures
        ({
            let after = state.jumping(transport).normalized(length);
            &&& after.enabled
            &&& after.mode == LoopMode::Infinite
            &&& after.start_tick == start
            &&& after.end_tick == end
            &&& after.count == max_of(state.count as int, 1)
            &&& after.settings().enabled
            &&& after.settings().mode == PlaybackLoopMode::Infinite
            &&& after.settings().start_tick == start
            &&& after.settings().end_tick == end
        }),
{
}

/// A loop with a mode and its ends in order inside the track is fitted without a change,
/// and one whose ends lie in the wrong order or outside of the track is switched off.
pub proof fn fitting_keeps_a_loop_that_fits(state: LoopState, length: u64)
    ensures
        state.mode != LoopMode::Off && state.start_tick < state.end_tick <= length && state.count
            >= 1 ==> state.normalized(length) == state,
        state.start_tick >= state.end_tick || state.start_tick >= length || state.mode
            == LoopMode::Off ==> !state.normalized(length).enabled,
        state.enabled && state.mode != LoopMode::Off && state.start_tick < state.end_tick
            && state.start_tick < length ==> state.normalized(length).enabled,
        state.normalized(length).mode == state.mode,
        !state.enabled ==> !state.normalized(length).enabled,
        state.normalized(length).start_tick == state.start_tick || (state.start_tick > length
            && state.normalized(length).start_tick == length),
        state.normalized(length).end_tick == state.end_tick || (state.end_tick > length
            && state.normalized(length).end_tick == length),
        state.count >= 1 ==> state.normalized(length).count == state.count,
{
}

/// The user's edits of a loop: a mode switches it on or off, an end that was never set is
/// that of the track, and each edit leaves what it does not name.
pub proof fn loop_edits_do_what_they_say(state: LoopState, length: u64, mode: LoopMode)
    ensures
        ({
            let after = state.with_mode(mode, length).normalized(length);
            &&& after.mode == mode
            &&& mode == LoopMode::Off ==> !after.enabled
            &&& mode != LoopMode::Off && state.start_tick < length && state.end_tick == 0
                ==> after.enabled && after.end_tick == length
            &&& mode != LoopMode::Off && state.start_tick < state.end_tick <= length
                ==> after.enabled && after.start_tick == state.start_tick && after.end_tick
                == state.end_tick
        }),
        ({
            let on = state.switched(true, length).normalized(length);
            &&& on.mode != LoopMode::Off
            &&& state.mode != LoopMode::Off ==> on.mode == state.mode
            &&& state.mode == LoopMode::Off ==> on.mode == LoopMode::Infinite
            &&& state.start_tick < length && state.end_tick == 0 ==> on.enabled && on.end_tick
                == length
            &&& state.start_tick < state.end_tick <= length ==> on.enabled && on.start_tick
                == state.start_tick && on.end_tick == state.end_tick
        }),
        !state.switched(false, length).normalized(length).enabled,
        state.switched(false, length).normalized(length).mode == state.mode,
{
}

/// A seek ends a counted loop exactly if it goes before its start, or to its end or behind;
/// it ends no other loop.
pub proof fn seeks_end_counted_loops(state: LoopState, tick: u64)
    ensures
        state.enabled && state.mode == LoopMode::Counted && (tick < state.start_tick || tick
            >= state.end_tick) ==> state.ends_by_seeking(tick),
        !state.enabled || state.mode != LoopMode::Counted ==> !state.ends_by_seeking(tick),
{
}

/// A file without a loop of its own is looped as a whole, unless a playlist goes on to
/// another track; a file with one keeps it.
pub proof fn loaded_files_loop_by_default(state: LoopState, length: u64)
    requires
        length > 0,
    ensures
        ({
            let looped = state.after_load(false, false, length);
            &&& looped.enabled
            &&& looped.mode == LoopMode::Infinite
            &&& looped.start_tick == 0
            &&& looped.end_tick == length
        }),
        !state.after_load(false, true, length).enabled,
        state.after_load(false, true, length).mode == LoopMode::Off,
        state.enabled && state.mode != LoopMode::Off && state.start_tick < state.end_tick <= length
            && state.count >= 1 ==> state.after_load(true, true, length) == state
            && state.after_load(true, false, length) == state,
        ({
            let looped = LoopState::after_decoded_load(None, false, length).normalized(length);
            &&& looped.enabled
            &&& looped.mode == LoopMode::Infinite
            &&& looped.start_tick == 0
            &&& looped.end_tick == length
        }),
        !LoopState::after_decoded_load(None, true, length).normalized(length).enabled,
{
}

/// Audio that asks for a loop gets it: with its mode, its count and its ends, or over the
/// whole track where it gives none.
pub proof fn audio_gets_the_loop_it_asks_for(region: MediaLoop, playlist_goes_on: bool, length: u64)
    requires
        region.mode != LoopMode::Off,
        match region.ends {
            Some(ends) => ends.start < ends.end <= length,
            None => length > 0,
        },
    ensures
        ({
            let after = LoopState::after_decoded_load(
                Some(region),
                playlist_goes_on,
                length,
            ).normalized(length);
            &&& after.enabled == region.enabled
            &&& after.mode == region.mode
            &&& match region.ends {
                Some(ends) => after.start_tick == ends.start && after.end_tick == ends.end,
                None => after.start_tick == 0 && after.end_tick == length,
            }
            &&& 1 <= region.loop_count <= u32::MAX ==> after.count == region.loop_count
            &&& region.loop_count == 0 ==> after.count == 1
            &&& region.loop_count > u32::MAX ==> after.count == u32::MAX
        }),
{
}

/// Playback gets the loop as it is shown.
pub proof fn playback_gets_the_shown_loop(state: LoopState)
    ensures
        state.settings().enabled == state.enabled,
        state.settings().start_tick == state.start_tick,
        state.settings().end_tick == state.end_tick,
        state.count >= 1 ==> state.settings().loop_count == state.count,
        (state.settings().mode == PlaybackLoopMode::Infinite) == (state.mode
            == LoopMode::Infinite),
        (state.settings().mode == PlaybackLoopMode::Counted) == (state.mode == LoopMode::Counted),
{
}

} // verus!
