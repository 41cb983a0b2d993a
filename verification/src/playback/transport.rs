//! The transport of a MIDI file: its length and the points to jump to.
use crate::sorted::{ascending_u64, sorted_distinct_u64};
use vstd::prelude::*;

verus! {

/// A time in seconds: the bits of a double-precision number. The library carries
/// such times around and never computes with them.
#[derive(Debug, Copy, Clone, PartialEq, Eq, Structural)]
pub struct Seconds {
    pub bits: u64,
}

/// What a playback engine is doing.
#[derive(Debug, Copy, Clone, PartialEq, Eq, Structural)]
pub enum PlaybackState {
    Stopped,
    Playing,
    Paused,
}

impl PlaybackState {
    pub open spec fn text(self) -> Seq<char> {
        match self {
            PlaybackState::Stopped => "Stopped"@,
            PlaybackState::Playing => "Playing"@,
            PlaybackState::Paused => "Paused"@,
        }
    }

    pub fn label(self) -> (label: &'static str)
        ensures
            label@ == self.text(),
    {
        match self {
            PlaybackState::Stopped => "Stopped",
            PlaybackState::Playing => "Playing",
            PlaybackState::Paused => "Paused",
        }
    }
}

/// The transport of a MIDI file.
#[derive(Debug)]
pub struct MidiTransportMetadata {
    pub duration_seconds: Seconds,
    pub tick_length: u64,
    pub jump_start_tick: Option<u64>,
    pub jump_end_tick: Option<u64>,
    pub jump_points: Vec<u64>,
}

/// The first of some values.
pub open spec fn first_tick(ticks: Seq<u64>) -> Option<u64> {
    if ticks.len() > 0 {
        Some(ticks[0])
    } else {
        None
    }
}

/// The transport while nothing is loaded.
pub open spec fn is_no_transport(transport: MidiTransportMetadata) -> bool {
    &&& transport.duration_seconds.bits == 0
    &&& transport.tick_length == 0
    &&& transport.jump_start_tick is None
    &&& transport.jump_end_tick is None
    &&& transport.jump_points@.len() == 0
}

impl Default for MidiTransportMetadata {
    fn default() -> (transport: MidiTransportMetadata)
        ensures
            is_no_transport(transport),
    {
        MidiTransportMetadata {
            duration_seconds: Seconds { bits: 0 },
            tick_length: 0,
            jump_start_tick: None,
            jump_end_tick: None,
            jump_points: Vec::new(),
        }
    }
}

fn first_of_ticks(ticks: &[u64]) -> (first: Option<u64>)
    ensures
        first == first_tick(ticks@),
{
    if ticks.len() > 0 {
        Some(ticks[0])
    } else {
        None
    }
}

impl MidiTransportMetadata {
    /// The transport of a MIDI file with the given loop points: one can jump to
    /// each of them, in order, and the first ones are where a loop starts and ends.
    pub fn from_loaded_midi(
        duration_seconds: Seconds,
        tick_length: u64,
        loop_starts: &[u64],
        loop_ends: &[u64],
    ) -> (transport: MidiTransportMetadata)
        ensures
            transport.duration_seconds == duration_seconds,
            transport.tick_length == tick_length,
            transport.jump_start_tick == first_tick(loop_starts@),
            transport.jump_end_tick == first_tick(loop_ends@),
            ascending_u64(transport.jump_points@),
            forall|tick: u64| #[trigger]
                transport.jump_points@.contains(tick) == (loop_starts@.contains(tick)
                    || loop_ends@.contains(tick)),
    {
        let mut points: Vec<u64> = Vec::new();
        points.extend_from_slice(loop_starts);
        points.extend_from_slice(loop_ends);
        let jump_points = sorted_distinct_u64(points.as_slice());
        proof {
            assert(points@ =~= loop_starts@ + loop_ends@);
            assert forall|tick: u64| #[trigger]
                jump_points@.contains(tick) == (loop_starts@.contains(tick) || loop_ends@.contains(
                    tick,
                )) by {
                if loop_starts@.contains(tick) {
                    let k = choose|k: int| 0 <= k < loop_starts@.len() && loop_starts@[k] == tick;
                    assert(points@[k] == tick);
                }
                if loop_ends@.contains(tick) {
                    let k = choose|k: int| 0 <= k < loop_ends@.len() && loop_ends@[k] == tick;
                    assert(points@[loop_starts@.len() + k] == tick);
                }
            }
        }
        MidiTransportMetadata {
            duration_seconds,
            tick_length,
            jump_start_tick: first_of_ticks(loop_starts),
            jump_end_tick: first_of_ticks(loop_ends),
            jump_points,
        }
    }

    pub fn duplicate(&self) -> (copy: MidiTransportMetadata)
        ensures
            copy.duration_seconds == self.duration_seconds,
            copy.tick_length == self.tick_length,
            copy.jump_start_tick == self.jump_start_tick,
            copy.jump_end_tick == self.jump_end_tick,
            copy.jump_points@ == self.jump_points@,
    {
        let jump_points = self.jump_points.clone();
        assert(jump_points@ =~= self.jump_points@);
        MidiTransportMetadata {
            duration_seconds: self.duration_seconds,
            tick_length: self.tick_length,
            jump_start_tick: self.jump_start_tick,
            jump_end_tick: self.jump_end_tick,
            jump_points,
        }
    }
}

/// A loop's start and end are among the points to jump to.
pub proof fn loop_points_are_jump_points(
    transport: MidiTransportMetadata,
    loop_starts: Seq<u64>,
    loop_ends: Seq<u64>,
)
    requires
        transport.jump_start_tick == first_tick(loop_starts),
        transport.jump_end_tick == first_tick(loop_ends),
        forall|tick: u64| #[trigger]
            transport.jump_points@.contains(tick) == (loop_starts.contains(tick)
                || loop_ends.contains(tick)),
    ensures
        match transport.jump_start_tick {
            Some(tick) => transport.jump_points@.contains(tick),
            None => loop_starts.len() == 0,
        },
        match transport.jump_end_tick {
            Some(tick) => transport.jump_points@.contains(tick),
            None => loop_ends.len() == 0,
        },
{
    if loop_starts.len() > 0 {
        assert(loop_starts.contains(loop_starts[0]));
    }
    if loop_ends.len() > 0 {
        assert(loop_ends.contains(loop_ends[0]));
    }
}

} // verus!
