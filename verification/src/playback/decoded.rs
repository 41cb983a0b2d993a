//! Decoded audio: its transport with loops, and the cache of decoded frames that
//! a worker fills ahead of the playback position.
//!
//! Samples are carried around, never computed with, so their type is left open.
use crate::json::optional_text;
use crate::numbers::{max_of, max_u32, max_usize, min_of, min_u64, monus, saturating_mul_usize};
use crate::numbers::{u64_cap, usize_cap};
use vstd::prelude::*;

verus! {

/// How often a loop is repeated.
#[derive(Debug, Copy, Clone, PartialEq, Eq, Structural)]
pub enum PlaybackLoopMode {
    Off,
    Infinite,
    Counted,
}

/// The loop of a transport, in ticks of a MIDI file or frames of decoded audio.
#[derive(Debug, Copy, Clone, PartialEq, Eq, Structural)]
pub struct PlaybackLoopSettings {
    pub enabled: bool,
    pub mode: PlaybackLoopMode,
    pub start_tick: u64,
    pub end_tick: u64,
    pub loop_count: u32,
}

/// No loop.
pub open spec fn no_loop() -> PlaybackLoopSettings {
    PlaybackLoopSettings {
        enabled: false,
        mode: PlaybackLoopMode::Off,
        start_tick: 0,
        end_tick: 0,
        loop_count: 1,
    }
}

impl Default for PlaybackLoopSettings {
    fn default() -> (settings: Self)
        ensures
            settings == no_loop(),
    {
        PlaybackLoopSettings {
            enabled: false,
            mode: PlaybackLoopMode::Off,
            start_tick: 0,
            end_tick: 0,
            loop_count: 1,
        }
    }
}

#[derive(Debug, Copy, Clone, PartialEq, Eq, Structural)]
pub enum DecodedPlaybackState {
    Stopped,
    Playing,
    Paused,
}

/// A window of decoded frames, and the request for the next one. A request is
/// open while its generation is not the filled one.
pub struct DecodedStreamCache<S> {
    pub cache_start_frame: u64,
    pub cache_frames: usize,
    pub cache_capacity_frames: usize,
    pub source_channels: usize,
    pub samples: Vec<S>,
    pub request_start_frame: u64,
    pub request_generation: u64,
    pub filled_generation: u64,
    pub shutdown: bool,
    pub last_error: Option<String>,
}

/// What the worker of a cache has to do.
#[derive(Debug, Copy, Clone, PartialEq, Eq, Structural)]
pub enum StreamWork {
    Wait,
    Stop,
    Decode(StreamRequest),
}

/// A window of frames to decode.
#[derive(Debug, Copy, Clone, PartialEq, Eq, Structural)]
pub struct StreamRequest {
    pub start_frame: u64,
    pub generation: u64,
    pub capacity_frames: usize,
}

/// The two sides of the frame that starts at sample `index` of interleaved
/// samples: a single channel serves both sides, a missing sample is silent on
/// the left and repeats the left side on the right.
pub open spec fn stereo_at<S>(samples: Seq<S>, index: int, mono: bool, silence: S) -> (S, S) {
    let left = if index < samples.len() {
        samples[index]
    } else {
        silence
    };
    let right = if !mono && index + 1 < samples.len() {
        samples[index + 1]
    } else {
        left
    };
    (left, right)
}

fn stereo_frame<S: Copy>(
    samples: &Vec<S>,
    frame: u64,
    step: usize,
    mono: bool,
    silence: S,
) -> (sides: (S, S))
    ensures
        sides == stereo_at(samples@, frame * step, mono, silence),
{
    assert(0 <= frame * step <= u64::MAX * usize::MAX) by (nonlinear_arith)
        requires
            0 <= frame <= u64::MAX,
            0 <= step <= usize::MAX,
    ;
    let index: u128 = frame as u128 * step as u128;
    if index >= samples.len() as u128 {
        return (silence, silence);
    }
    let at: usize = index as usize;
    let left = samples[at];
    if !mono && at < samples.len() - 1 {
        (left, samples[at + 1])
    } else {
        (left, left)
    }
}

impl<S> DecodedStreamCache<S> {
    /// Whether a frame is in the cached window.
    pub open spec fn holds(&self, frame: int) -> bool {
        self.cache_start_frame <= frame < u64_cap(self.cache_start_frame + self.cache_frames)
    }

    /// Whether the worker still owes the requested window.
    pub open spec fn is_pending(&self) -> bool {
        self.request_generation != self.filled_generation
    }

    /// The cache with a new request.
    pub open spec fn requested(self, frame: u64) -> DecodedStreamCache<S> {
        DecodedStreamCache {
            request_start_frame: frame,
            request_generation: u64_cap(self.request_generation + 1) as u64,
            ..self
        }
    }

    /// Whether playback from a frame needs no new request: the frame and the
    /// next are cached, or the frame is requested already.
    pub open spec fn is_fill_covered(&self, frame: u64) -> bool {
        (self.holds(frame as int) && self.holds(u64_cap(frame + 1))) || (self.request_start_frame
            == frame && self.is_pending())
    }

    /// A cache for a stream, with its first request.
    pub fn new(
        sample_rate: u32,
        channels: usize,
        preallocated_frames: usize,
    ) -> (cache: DecodedStreamCache<S>)
        ensures
            cache.cache_start_frame == 0,
            cache.cache_frames == 0,
            cache.cache_capacity_frames == max_of(
                usize_cap(sample_rate as usize * PLAYAHEAD_SECONDS),
                usize_cap(preallocated_frames * 4),
            ),
            cache.source_channels == max_of(channels as int, 1),
            cache.samples@ == Seq::<S>::empty(),
            cache.request_start_frame == 0,
            cache.request_generation == 1,
            cache.filled_generation == 0,
            !cache.shutdown,
            cache.last_error is None,
    {
        DecodedStreamCache {
            cache_start_frame: 0,
            cache_frames: 0,
            cache_capacity_frames: max_usize(
                saturating_mul_usize(sample_rate as usize, PLAYAHEAD_SECONDS),
                saturating_mul_usize(preallocated_frames, 4),
            ),
            source_channels: max_usize(channels, 1),
            samples: Vec::new(),
            request_start_frame: 0,
            request_generation: 1,
            filled_generation: 0,
            shutdown: false,
            last_error: None,
        }
    }

    pub fn frame_in_cache(&self, frame: u64) -> (cached: bool)
        ensures
            cached == self.holds(frame as int),
    {
        let cache_end: u64 = self.cache_start_frame.saturating_add(self.cache_frames as u64);
        frame >= self.cache_start_frame && frame < cache_end
    }

    /// Asks for the window from `frame` on unless it is covered. Returns whether
    /// there is a new request.
    pub fn request_fill(&mut self, frame: u64) -> (notify: bool)
        ensures
            notify == !old(self).is_fill_covered(frame),
            *final(self) == if notify {
                old(self).requested(frame)
            } else {
                *old(self)
            },
    {
        if self.frame_in_cache(frame) && self.frame_in_cache(frame.saturating_add(1)) {
            return false;
        }
        if self.request_start_frame == frame && self.request_generation != self.filled_generation {
            return false;
        }
        self.request_start_frame = frame;
        self.request_generation = self.request_generation.saturating_add(1);
        true
    }

    /// Whether playback at `position` is far enough from the end of the window:
    /// more than `threshold` frames are left of it.
    pub open spec fn is_well_ahead(&self, position: u64, threshold: int) -> bool {
        self.holds(position as int) && monus(
            u64_cap(self.cache_start_frame + self.cache_frames),
            position as int,
        ) > threshold
    }

    /// Asks for the window from `position` on when playback gets close to the
    /// end of the current one. Returns whether there is a new request.
    pub fn request_prefetch(&mut self, position: u64, threshold_frames: usize) -> (notify: bool)
        ensures
            notify == !(old(self).is_well_ahead(position, threshold_frames as int) || (old(self).request_start_frame == position && old(self).is_pending())),
            *final(self) == if notify {
                old(self).requested(position)
            } else {
                *old(self)
            },
    {
        let cache_end: u64 = self.cache_start_frame.saturating_add(self.cache_frames as u64);
        let remaining: u64 = cache_end.saturating_sub(position);
        if position >= self.cache_start_frame && position < cache_end && remaining
            > threshold_frames as u64 {
            return false;
        }
        if self.request_start_frame == position && self.request_generation
            != self.filled_generation {
            return false;
        }
        self.request_start_frame = position;
        self.request_generation = self.request_generation.saturating_add(1);
        true
    }

    /// Tells the worker to end.
    pub fn shut_down(&mut self)
        ensures
            *final(self) == (DecodedStreamCache {
                shutdown: true,
                request_generation: u64_cap(old(self).request_generation + 1) as u64,
                ..*old(self)
            }),
    {
        self.shutdown = true;
        self.request_generation = self.request_generation.saturating_add(1);
    }

    /// What the worker has to do now.
    pub open spec fn work(&self) -> StreamWork {
        if self.shutdown {
            StreamWork::Stop
        } else if !self.is_pending() {
            StreamWork::Wait
        } else {
            StreamWork::Decode(
                StreamRequest {
                    start_frame: self.request_start_frame,
                    generation: self.request_generation,
                    capacity_frames: self.cache_capacity_frames,
                },
            )
        }
    }

    pub fn next_work(&self) -> (work: StreamWork)
        ensures
            work == self.work(),
    {
        if self.shutdown {
            StreamWork::Stop
        } else if self.request_generation == self.filled_generation {
            StreamWork::Wait
        } else {
            StreamWork::Decode(
                StreamRequest {
                    start_frame: self.request_start_frame,
                    generation: self.request_generation,
                    capacity_frames: self.cache_capacity_frames,
                },
            )
        }
    }

    /// Takes over what the worker decoded for a request: a window of samples and
    /// its number of frames, or an error. Returns whether the worker goes on.
    pub fn complete(&mut self, request: StreamRequest, decoded: Result<(Vec<S>, usize), String>) -> (
    goes_on: bool)
        ensures
            goes_on == !old(self).shutdown,
            old(self).shutdown ==> *final(self) == *old(self),
            !old(self).shutdown ==> {
                &&& final(self).cache_start_frame == request.start_frame
                &&& final(self).filled_generation == request.generation
                &&& match decoded {
                    Ok((samples, frames)) => final(self).samples@ == samples@ && final(self).cache_frames == frames && final(self).last_error is None,
                    Err(error) => final(self).samples@ == Seq::<S>::empty() && final(self).cache_frames == 0 && optional_text(final(self).last_error) == Some(error@),
                }
                &&& final(self).cache_capacity_frames == old(self).cache_capacity_frames
                &&& final(self).source_channels == old(self).source_channels
                &&& final(self).request_start_frame == old(self).request_start_frame
                &&& final(self).request_generation == old(self).request_generation
                &&& !final(self).shutdown
            },
    {
        if self.shutdown {
            return false;
        }
        match decoded {
            Ok(window) => {
                self.samples = window.0;
                self.cache_frames = window.1;
                self.last_error = None;
            },
            Err(error) => {
                self.samples = Vec::new();
                self.cache_frames = 0;
                self.last_error = Some(error);
            },
        }
        self.cache_start_frame = request.start_frame;
        self.filled_generation = request.generation;
        true
    }

    /// Whether waiting for a frame is over: it is cached, or it will not come.
    pub fn wait_is_over(&self, frame: u64) -> (over: bool)
        ensures
            over == (self.shutdown || self.last_error is Some || self.holds(frame as int)),
    {
        self.shutdown || self.last_error.is_some() || self.frame_in_cache(frame)
    }
}

impl<S: Copy> DecodedStreamCache<S> {
    /// The two sides of a frame: from the window if it is cached, else silence.
    pub open spec fn sides(&self, frame: u64, silence: S) -> (S, S) {
        if self.holds(frame as int) {
            stereo_at(
                self.samples@,
                (frame - self.cache_start_frame) * max_of(self.source_channels as int, 1),
                self.source_channels == 1,
                silence,
            )
        } else {
            (silence, silence)
        }
    }

    /// The cache after a frame was played: a frame that is not cached is
    /// requested unless it is already.
    pub open spec fn after_playing(self, frame: u64) -> DecodedStreamCache<S> {
        if self.holds(frame as int) || (self.request_start_frame == frame && self.is_pending()) {
            self
        } else {
            self.requested(frame)
        }
    }

    /// Plays one frame from the cache.
    pub fn play_frame(&mut self, frame: u64, silence: S) -> (sides: (S, S))
        ensures
            sides == old(self).sides(frame, silence),
            *final(self) == old(self).after_playing(frame),
    {
        if !self.frame_in_cache(frame) {
            if self.request_start_frame != frame || self.request_generation
                == self.filled_generation {
                self.request_start_frame = frame;
                self.request_generation = self.request_generation.saturating_add(1);
            }
            return (silence, silence);
        }
        let offset: u64 = frame - self.cache_start_frame;
        stereo_frame(
            &self.samples,
            offset,
            max_usize(self.source_channels, 1),
            self.source_channels == 1,
            silence,
        )
    }
}

/// The seconds that a cached window covers.
pub const PLAYAHEAD_SECONDS: usize = 10;

/// The transport of decoded audio and where its samples come from.
pub struct DecodedAudioPlaybackState<S> {
    pub sample_rate: u32,
    pub channels: usize,
    pub frame_length: u64,
    pub samples: Option<Vec<S>>,
    pub stream: Option<DecodedStreamCache<S>>,
    pub position_frame: u64,
    pub state: DecodedPlaybackState,
    pub loop_settings: PlaybackLoopSettings,
    pub counted_loops_remaining: u32,
}

/// Whether a loop has an effect.
pub open spec fn is_looping(settings: PlaybackLoopSettings) -> bool {
    settings.enabled && settings.end_tick > settings.start_tick
}

/// Loop settings fitted to a length: the ends inside it, at least one
/// repetition, and no loop where its end is not behind its start.
pub open spec fn fitted_loop(settings: PlaybackLoopSettings, length: u64) -> PlaybackLoopSettings {
    let start = min_of(settings.start_tick as int, length as int) as u64;
    let end = min_of(settings.end_tick as int, length as int) as u64;
    PlaybackLoopSettings {
        enabled: settings.enabled && end > start,
        mode: settings.mode,
        start_tick: start,
        end_tick: end,
        loop_count: max_of(settings.loop_count as int, 1) as u32,
    }
}

impl<S> DecodedAudioPlaybackState<S> {
    /// The position and the loop are inside the audio.
    pub open spec fn wf(&self) -> bool {
        &&& self.position_frame <= self.frame_length
        &&& self.loop_settings.start_tick <= self.frame_length
        &&& self.loop_settings.end_tick <= self.frame_length
        &&& self.loop_settings.loop_count >= 1
    }

    /// The frame at which playback turns back or ends.
    pub open spec fn play_end(&self) -> u64 {
        if is_looping(self.loop_settings) {
            self.loop_settings.end_tick
        } else {
            self.frame_length
        }
    }

    /// Whether playback turns back to the start of the loop.
    pub open spec fn turns_back(&self) -> bool {
        is_looping(self.loop_settings) && match self.loop_settings.mode {
            PlaybackLoopMode::Off => false,
            PlaybackLoopMode::Infinite => true,
            PlaybackLoopMode::Counted => self.counted_loops_remaining > 0,
        }
    }

    /// The stream with the fill request of a frame.
    pub open spec fn filled_stream(
        stream: Option<DecodedStreamCache<S>>,
        frame: u64,
    ) -> Option<DecodedStreamCache<S>> {
        match stream {
            None => None,
            Some(cache) => Some(
                if cache.is_fill_covered(frame) {
                    cache
                } else {
                    cache.requested(frame)
                },
            ),
        }
    }

    /// The state once playback turned back.
    pub open spec fn turned_back(self) -> DecodedAudioPlaybackState<S> {
        DecodedAudioPlaybackState {
            position_frame: self.loop_settings.start_tick,
            counted_loops_remaining: if self.loop_settings.mode == PlaybackLoopMode::Counted {
                (self.counted_loops_remaining - 1) as u32
            } else {
                self.counted_loops_remaining
            },
            stream: Self::filled_stream(self.stream, self.loop_settings.start_tick),
            ..self
        }
    }

    /// The state once playback was started.
    pub open spec fn started(self) -> DecodedAudioPlaybackState<S> {
        let position = if self.position_frame >= self.frame_length {
            0
        } else {
            self.position_frame
        };
        DecodedAudioPlaybackState {
            position_frame: position,
            counted_loops_remaining: if self.state == DecodedPlaybackState::Stopped {
                self.loop_settings.loop_count
            } else {
                self.counted_loops_remaining
            },
            stream: Self::filled_stream(self.stream, position),
            state: DecodedPlaybackState::Playing,
            ..self
        }
    }

    /// The state once playback was paused.
    pub open spec fn paused(self) -> DecodedAudioPlaybackState<S> {
        DecodedAudioPlaybackState {
            state: if self.state == DecodedPlaybackState::Playing {
                DecodedPlaybackState::Paused
            } else {
                self.state
            },
            ..self
        }
    }

    /// The state once playback was stopped.
    pub open spec fn stopped(self) -> DecodedAudioPlaybackState<S> {
        DecodedAudioPlaybackState {
            state: DecodedPlaybackState::Stopped,
            position_frame: 0,
            counted_loops_remaining: self.loop_settings.loop_count,
            ..self
        }
    }

    /// The state once playback was moved to a frame.
    pub open spec fn moved_to(self, frame: u64) -> DecodedAudioPlaybackState<S> {
        let target = min_of(frame as int, self.frame_length as int) as u64;
        DecodedAudioPlaybackState {
            position_frame: target,
            counted_loops_remaining: self.loop_settings.loop_count,
            stream: Self::filled_stream(self.stream, target),
            ..self
        }
    }

    /// The state once its loop was switched.
    pub open spec fn with_loop_switched(self, enabled: bool) -> DecodedAudioPlaybackState<S> {
        DecodedAudioPlaybackState {
            loop_settings: PlaybackLoopSettings {
                enabled,
                mode: if enabled && self.loop_settings.mode == PlaybackLoopMode::Off {
                    PlaybackLoopMode::Infinite
                } else {
                    self.loop_settings.mode
                },
                ..self.loop_settings
            },
            ..self
        }
    }

    /// The state with other loop settings, fitted to the audio.
    pub open spec fn with_loop(self, settings: PlaybackLoopSettings) -> DecodedAudioPlaybackState<
        S,
    > {
        let fitted = fitted_loop(settings, self.frame_length);
        DecodedAudioPlaybackState {
            loop_settings: fitted,
            counted_loops_remaining: fitted.loop_count,
            ..self
        }
    }

    /// The state after one frame was asked for.
    pub open spec fn advanced(self) -> DecodedAudioPlaybackState<S> {
        if self.state != DecodedPlaybackState::Playing || self.frame_length == 0 {
            self
        } else if self.position_frame < self.play_end() {
            DecodedAudioPlaybackState {
                position_frame: (self.position_frame + 1) as u64,
                ..self
            }
        } else if self.turns_back() {
            DecodedAudioPlaybackState {
                position_frame: (self.loop_settings.start_tick + 1) as u64,
                ..self.turned_back()
            }
        } else {
            DecodedAudioPlaybackState { state: DecodedPlaybackState::Stopped, ..self }
        }
    }

    /// The frame that is played when one is asked for.
    pub open spec fn frame_played(&self) -> Option<u64> {
        if self.state != DecodedPlaybackState::Playing || self.frame_length == 0 {
            None
        } else if self.position_frame < self.play_end() {
            Some(self.position_frame)
        } else if self.turns_back() {
            Some(self.loop_settings.start_tick)
        } else {
            None
        }
    }

    /// Decoded audio with all its samples, or with a stream cache.
    pub fn new(
        sample_rate: u32,
        channels: usize,
        frame_length: u64,
        samples: Option<Vec<S>>,
        stream: Option<DecodedStreamCache<S>>,
    ) -> (decoded: Self)
        ensures
            decoded == (DecodedAudioPlaybackState {
                sample_rate,
                channels,
                frame_length,
                samples,
                stream,
                position_frame: 0,
                state: DecodedPlaybackState::Stopped,
                loop_settings: no_loop(),
                counted_loops_remaining: 0,
            }),
            decoded.wf(),
    {
        DecodedAudioPlaybackState {
            sample_rate,
            channels,
            frame_length,
            samples,
            stream,
            position_frame: 0,
            state: DecodedPlaybackState::Stopped,
            loop_settings: PlaybackLoopSettings::default(),
            counted_loops_remaining: 0,
        }
    }

    fn request_stream_cache_fill(&mut self, frame: u64)
        ensures
            *final(self) == (DecodedAudioPlaybackState {
                stream: Self::filled_stream(old(self).stream, frame),
                ..*old(self)
            }),
    {
        match &mut self.stream {
            Some(stream) => {
                stream.request_fill(frame);
            },
            None => {},
        }
    }

    /// Starts or goes on playing, from the beginning if the end was reached.
    pub fn play(&mut self)
        requires
            old(self).wf(),
        ensures
            final(self).wf(),
            *final(self) == old(self).started(),
    {
        if self.position_frame >= self.frame_length {
            self.position_frame = 0;
        }
        if self.state == DecodedPlaybackState::Stopped {
            self.counted_loops_remaining = max_u32(self.loop_settings.loop_count, 1);
        }
        self.request_stream_cache_fill(self.position_frame);
        self.state = DecodedPlaybackState::Playing;
    }

    /// Holds playback where it is.
    pub fn pause(&mut self)
        requires
            old(self).wf(),
        ensures
            final(self).wf(),
            *final(self) == old(self).paused(),
    {
        if self.state == DecodedPlaybackState::Playing {
            self.state = DecodedPlaybackState::Paused;
        }
    }

    /// Ends playback and goes back to the beginning.
    pub fn stop(&mut self)
        requires
            old(self).wf(),
        ensures
            final(self).wf(),
            *final(self) == old(self).stopped(),
    {
        self.state = DecodedPlaybackState::Stopped;
        self.position_frame = 0;
        self.counted_loops_remaining = max_u32(self.loop_settings.loop_count, 1);
    }

    pub fn is_playing(&self) -> (playing: bool)
        ensures
            playing == (self.state == DecodedPlaybackState::Playing),
    {
        self.state == DecodedPlaybackState::Playing
    }

    pub fn state_label(&self) -> (label: &'static str)
        ensures
            label@ == match self.state {
                DecodedPlaybackState::Stopped => "Stopped"@,
                DecodedPlaybackState::Playing => "Playing"@,
                DecodedPlaybackState::Paused => "Paused"@,
            },
    {
        match self.state {
            DecodedPlaybackState::Stopped => "Stopped",
            DecodedPlaybackState::Playing => "Playing",
            DecodedPlaybackState::Paused => "Paused",
        }
    }

    /// Goes to a frame, at most to the end, and starts counting loops anew.
    pub fn seek_frame(&mut self, frame: u64)
        requires
            old(self).wf(),
        ensures
            final(self).wf(),
            *final(self) == old(self).moved_to(frame),
    {
        self.position_frame = min_u64(frame, self.frame_length);
        self.counted_loops_remaining = max_u32(self.loop_settings.loop_count, 1);
        self.request_stream_cache_fill(self.position_frame);
    }

    /// Switches the loop; a loop without a mode becomes an infinite one.
    pub fn set_loop_enabled(&mut self, enabled: bool)
        requires
            old(self).wf(),
        ensures
            final(self).wf(),
            *final(self) == old(self).with_loop_switched(enabled),
    {
        self.loop_settings.enabled = enabled;
        if enabled && self.loop_settings.mode == PlaybackLoopMode::Off {
            self.loop_settings.mode = PlaybackLoopMode::Infinite;
        }
    }

    /// Takes over loop settings, fitted to the audio.
    pub fn set_loop_settings(&mut self, settings: PlaybackLoopSettings)
        requires
            old(self).wf(),
        ensures
            final(self).wf(),
            *final(self) == old(self).with_loop(settings),
    {
        let mut settings = settings;
        settings.start_tick = min_u64(settings.start_tick, self.frame_length);
        settings.end_tick = min_u64(settings.end_tick, self.frame_length);
        settings.loop_count = max_u32(settings.loop_count, 1);
        if settings.end_tick <= settings.start_tick {
            settings.enabled = false;
        }
        self.loop_settings = settings;
        self.counted_loops_remaining = self.loop_settings.loop_count;
    }

    /// The frame at which playback turns back or ends.
    pub fn effective_play_end_frame(&self) -> (frame: u64)
        requires
            self.wf(),
        ensures
            frame == self.play_end(),
    {
        if self.loop_settings.enabled && self.loop_settings.end_tick
            > self.loop_settings.start_tick {
            min_u64(self.loop_settings.end_tick, self.frame_length)
        } else {
            self.frame_length
        }
    }

    /// Turns back to the start of the loop if there is a repetition left.
    pub fn apply_loop_boundary(&mut self) -> (turned: bool)
        requires
            old(self).wf(),
        ensures
            final(self).wf(),
            turned == old(self).turns_back(),
            *final(self) == if turned {
                old(self).turned_back()
            } else {
                *old(self)
            },
    {
        if !self.loop_settings.enabled || self.loop_settings.end_tick
            <= self.loop_settings.start_tick {
            return false;
        }
        match self.loop_settings.mode {
            PlaybackLoopMode::Off => {
                return false;
            },
            PlaybackLoopMode::Infinite => {},
            PlaybackLoopMode::Counted => {
                if self.counted_loops_remaining == 0 {
                    return false;
                }
                self.counted_loops_remaining = self.counted_loops_remaining - 1;
            },
        }
        self.position_frame = self.loop_settings.start_tick;
        self.request_stream_cache_fill(self.position_frame);
        true
    }

    /// Asks for the next frame to play. Playback that reaches its end stops.
    pub fn next_source_frame(&mut self) -> (frame: Option<u64>)
        requires
            old(self).wf(),
        ensures
            final(self).wf(),
            frame == old(self).frame_played(),
            *final(self) == old(self).advanced(),
            frame is Some ==> frame->Some_0 < old(self).play_end(),
    {
        if !self.is_playing() || self.frame_length == 0 {
            return None;
        }
        if self.position_frame >= self.effective_play_end_frame() && !self.apply_loop_boundary() {
            self.state = DecodedPlaybackState::Stopped;
            return None;
        }
        let frame: u64 = self.position_frame;
        self.position_frame = self.position_frame.saturating_add(1);
        Some(frame)
    }

    /// How many frames ahead of the position the cache should reach.
    pub open spec fn prefetch_threshold(&self, rendered_frames: int) -> int {
        max_of(usize_cap(rendered_frames * 4), max_of(self.sample_rate as int / 2, 1))
    }

    /// The stream after the prefetch request of a render call.
    pub open spec fn prefetched_stream(&self, rendered_frames: int) -> Option<
        DecodedStreamCache<S>,
    > {
        match self.stream {
            None => None,
            Some(cache) => Some(
                if cache.is_well_ahead(
                    self.position_frame,
                    self.prefetch_threshold(rendered_frames),
                ) || (cache.request_start_frame == self.position_frame && cache.is_pending()) {
                    cache
                } else {
                    cache.requested(self.position_frame)
                },
            ),
        }
    }

    /// Asks for more frames when the cached window runs out.
    pub fn request_stream_cache_prefetch(&mut self, rendered_frames: usize)
        requires
            old(self).wf(),
        ensures
            final(self).wf(),
            *final(self) == (DecodedAudioPlaybackState {
                stream: old(self).prefetched_stream(rendered_frames as int),
                ..*old(self)
            }),
    {
        let threshold: usize = max_usize(
            saturating_mul_usize(rendered_frames, 4),
            max_usize(self.sample_rate as usize / 2, 1),
        );
        let position: u64 = min_u64(self.position_frame, self.frame_length);
        match &mut self.stream {
            Some(stream) => {
                stream.request_prefetch(position, threshold);
            },
            None => {},
        }
    }
}

impl<S: Copy> DecodedAudioPlaybackState<S> {
    /// The two sides of a source frame.
    pub open spec fn source_sides(&self, frame: u64, silence: S) -> (S, S) {
        match self.samples {
            Some(samples) => stereo_at(
                samples@,
                frame * max_of(self.channels as int, 1),
                self.channels <= 1,
                silence,
            ),
            None => match self.stream {
                Some(stream) => stream.sides(frame, silence),
                None => (silence, silence),
            },
        }
    }

    /// The state after a source frame was read.
    pub open spec fn after_reading(self, frame: u64) -> DecodedAudioPlaybackState<S> {
        match self.samples {
            Some(_) => self,
            None => DecodedAudioPlaybackState {
                stream: match self.stream {
                    Some(stream) => Some(stream.after_playing(frame)),
                    None => None,
                },
                ..self
            },
        }
    }

    /// Reads one source frame.
    pub fn source_stereo_frame(&mut self, frame: u64, silence: S) -> (sides: (S, S))
        requires
            old(self).wf(),
        ensures
            final(self).wf(),
            sides == old(self).source_sides(frame, silence),
            *final(self) == old(self).after_reading(frame),
    {
        match &self.samples {
            Some(samples) => {
                return stereo_frame(
                    samples,
                    frame,
                    max_usize(self.channels, 1),
                    self.channels <= 1,
                    silence,
                );
            },
            None => {},
        }
        match &mut self.stream {
            Some(stream) => stream.play_frame(frame, silence),
            None => (silence, silence),
        }
    }

    /// The state after one output frame.
    pub open spec fn after_frame(self) -> DecodedAudioPlaybackState<S> {
        match self.frame_played() {
            Some(frame) => self.advanced().after_reading(frame),
            None => self.advanced(),
        }
    }

    /// One output frame: the next source frame, or silence.
    pub open spec fn output_frame(&self, silence: S) -> (S, S) {
        match self.frame_played() {
            Some(frame) => self.advanced().source_sides(frame, silence),
            None => (silence, silence),
        }
    }

    /// The state after `n` output frames.
    pub open spec fn after_frames(self, n: nat) -> DecodedAudioPlaybackState<S>
        decreases n,
    {
        if n == 0 {
            self
        } else {
            self.after_frames((n - 1) as nat).after_frame()
        }
    }

    /// Whether rendering `frames` frames from this state gives `output` and leaves
    /// `after`.
    pub open spec fn renders(
        self,
        after: DecodedAudioPlaybackState<S>,
        output: Seq<(S, S)>,
        frames: nat,
        silence: S,
    ) -> bool {
        let rendered = self.after_frames(frames);
        &&& output.len() == frames
        &&& forall|i: int|
            0 <= i < frames ==> #[trigger] output[i] == self.after_frames(i as nat).output_frame(
                silence,
            )
        &&& after == (DecodedAudioPlaybackState {
            stream: rendered.prefetched_stream(frames as int),
            ..rendered
        })
    }

    /// Renders `frames` frames, and asks for more frames when the cached window
    /// runs out.
    pub fn render_frames(&mut self, frames: usize, silence: S) -> (output: Vec<(S, S)>)
        requires
            old(self).wf(),
        ensures
            final(self).wf(),
            old(self).renders(*final(self), output@, frames as nat, silence),
    {
        let mut output: Vec<(S, S)> = Vec::new();
        let mut i: usize = 0;
        while i < frames
            invariant
                i <= frames,
                self.wf(),
                *self == old(self).after_frames(i as nat),
                output@.len() == i,
                forall|k: int|
                    0 <= k < i ==> #[trigger] output@[k] == old(self).after_frames(
                        k as nat,
                    ).output_frame(silence),
            decreases frames - i,
        {
            let ghost before = *self;
            match self.next_source_frame() {
                Some(frame) => {
                    let sides = self.source_stereo_frame(frame, silence);
                    output.push(sides);
                },
                None => {
                    output.push((silence, silence));
                },
            }
            assert(*self == before.after_frame());
            i = i + 1;
        }
        self.request_stream_cache_prefetch(frames);
        output
    }
}

/// What is known of the frames of decoded audio.
#[derive(Debug)]
pub struct DecodedStreamCacheDebug {
    pub streaming: bool,
    pub cache_start_frame: u64,
    pub cache_frames: usize,
    pub cache_capacity_frames: usize,
    pub source_channels: usize,
    pub cached_sample_capacity: usize,
    pub full_sample_len: usize,
    pub full_sample_capacity: usize,
    pub request_generation: u64,
    pub filled_generation: u64,
    pub last_error: Option<String>,
}

impl<S> DecodedAudioPlaybackState<S> {
    /// Whether `debug` shows the state of the cache. The capacities are those of the
    /// sample buffers, which depend on the allocator.
    pub open spec fn shows_cache(
        &self,
        debug: DecodedStreamCacheDebug,
        cached_sample_capacity: usize,
        full_sample_capacity: usize,
    ) -> bool {
        match self.stream {
            Some(stream) => {
                &&& debug.streaming
                &&& debug.cache_start_frame == stream.cache_start_frame
                &&& debug.cache_frames == stream.cache_frames
                &&& debug.cache_capacity_frames == stream.cache_capacity_frames
                &&& debug.source_channels == stream.source_channels
                &&& debug.cached_sample_capacity == cached_sample_capacity
                &&& debug.full_sample_len == 0
                &&& debug.full_sample_capacity == 0
                &&& debug.request_generation == stream.request_generation
                &&& debug.filled_generation == stream.filled_generation
                &&& optional_text(debug.last_error) == optional_text(stream.last_error)
            },
            None => {
                &&& !debug.streaming
                &&& debug.cache_start_frame == 0
                &&& debug.cache_frames == 0
                &&& debug.cache_capacity_frames == 0
                &&& debug.source_channels == self.channels
                &&& debug.cached_sample_capacity == 0
                &&& debug.full_sample_len == match self.samples {
                    Some(samples) => samples@.len(),
                    None => 0,
                }
                &&& debug.full_sample_capacity == match self.samples {
                    Some(_) => full_sample_capacity,
                    None => 0,
                }
                &&& debug.request_generation == 0
                &&& debug.filled_generation == 0
                &&& debug.last_error is None
            },
        }
    }

    /// The state of the cache, given the capacities of the sample buffers.
    pub fn stream_cache_debug(
        &self,
        cached_sample_capacity: usize,
        full_sample_capacity: usize,
    ) -> (debug: DecodedStreamCacheDebug)
        ensures
            self.shows_cache(debug, cached_sample_capacity, full_sample_capacity),
    {
        match &self.stream {
            Some(stream) => DecodedStreamCacheDebug {
                streaming: true,
                cache_start_frame: stream.cache_start_frame,
                cache_frames: stream.cache_frames,
                cache_capacity_frames: stream.cache_capacity_frames,
                source_channels: stream.source_channels,
                cached_sample_capacity,
                full_sample_len: 0,
                full_sample_capacity: 0,
                request_generation: stream.request_generation,
                filled_generation: stream.filled_generation,
                last_error: match &stream.last_error {
                    Some(error) => Some(error.clone()),
                    None => None,
                },
            },
            None => DecodedStreamCacheDebug {
                streaming: false,
                cache_start_frame: 0,
                cache_frames: 0,
                cache_capacity_frames: 0,
                source_channels: self.channels,
                cached_sample_capacity: 0,
                full_sample_len: match &self.samples {
                    Some(samples) => samples.len(),
                    None => 0,
                },
                full_sample_capacity: match &self.samples {
                    Some(_) => full_sample_capacity,
                    None => 0,
                },
                request_generation: 0,
                filled_generation: 0,
                last_error: None,
            },
        }
    }
}

/// A frame that is asked for while audio plays lies inside the audio, and inside
/// the loop or before it while a loop is on.
pub proof fn played_frames_are_inside<S>(decoded: DecodedAudioPlaybackState<S>)
    requires
        decoded.wf(),
        decoded.frame_played() is Some,
    ensures
        decoded.frame_played()->Some_0 < decoded.frame_length,
        is_looping(decoded.loop_settings) ==> decoded.frame_played()->Some_0
            < decoded.loop_settings.end_tick,
        decoded.advanced().wf(),
        decoded.advanced().position_frame == decoded.frame_played()->Some_0 + 1,
{
}

/// An infinite loop never ends playback.
pub proof fn infinite_loop_never_ends<S>(decoded: DecodedAudioPlaybackState<S>)
    requires
        decoded.wf(),
        decoded.state == DecodedPlaybackState::Playing,
        is_looping(decoded.loop_settings),
        decoded.loop_settings.mode == PlaybackLoopMode::Infinite,
    ensures
        decoded.frame_played() is Some,
        decoded.advanced().state == DecodedPlaybackState::Playing,
        decoded.advanced().loop_settings == decoded.loop_settings,
{
}

/// A counted loop turns back once for each repetition that is left, and playback
/// stops at its end when none is.
pub proof fn counted_loop_uses_up_its_repetitions<S>(decoded: DecodedAudioPlaybackState<S>)
    requires
        decoded.wf(),
        decoded.state == DecodedPlaybackState::Playing,
        is_looping(decoded.loop_settings),
        decoded.loop_settings.mode == PlaybackLoopMode::Counted,
    ensures
        decoded.position_frame < decoded.loop_settings.end_tick
            ==> decoded.advanced().counted_loops_remaining == decoded.counted_loops_remaining,
        decoded.position_frame >= decoded.loop_settings.end_tick && decoded.counted_loops_remaining
            > 0 ==> decoded.advanced().counted_loops_remaining == decoded.counted_loops_remaining
            - 1 && decoded.frame_played() == Some(decoded.loop_settings.start_tick),
        decoded.position_frame >= decoded.loop_settings.end_tick && decoded.counted_loops_remaining
            == 0 ==> decoded.advanced().state == DecodedPlaybackState::Stopped
            && decoded.frame_played() is None,
{
}

/// Audio that does not loop is played frame by frame to its end, where playback
/// stops.
pub proof fn unlooped_audio_plays_to_its_end<S: Copy>(
    decoded: DecodedAudioPlaybackState<S>,
    n: nat,
)
    requires
        decoded.wf(),
        decoded.state == DecodedPlaybackState::Playing,
        decoded.frame_length > 0,
        !is_looping(decoded.loop_settings),
    ensures
        decoded.position_frame + n <= decoded.frame_length ==> {
            let after = decoded.after_frames(n);
            &&& after.position_frame == decoded.position_frame + n
            &&& after.state == DecodedPlaybackState::Playing
            &&& after.loop_settings == decoded.loop_settings
            &&& after.frame_length == decoded.frame_length
        },
        decoded.position_frame + n == decoded.frame_length ==> {
            let after = decoded.after_frames(n);
            &&& after.frame_played() is None
            &&& after.after_frame().state == DecodedPlaybackState::Stopped
        },
    decreases n,
{
    if n > 0 {
        unlooped_audio_plays_to_its_end(decoded, (n - 1) as nat);
    }
}

/// Asking for a frame again right after it was asked for changes nothing.
pub proof fn fill_request_is_made_once<S>(cache: DecodedStreamCache<S>, frame: u64)
    requires
        cache.filled_generation <= cache.request_generation < u64::MAX,
    ensures
        ({
            let once = if cache.is_fill_covered(frame) {
                cache
            } else {
                cache.requested(frame)
            };
            once.is_fill_covered(frame)
        }),
{
}

/// Once the worker delivered the frames of a request, playback finds the
/// requested frame, and the request is closed unless another one was made.
pub proof fn delivered_frames_are_cached<S>(
    before: DecodedStreamCache<S>,
    after: DecodedStreamCache<S>,
    frames: usize,
)
    requires
        before.work() is Decode,
        frames > 0,
        before.request_start_frame < u64::MAX,
        after.cache_start_frame == before.work()->Decode_0.start_frame,
        after.cache_frames == frames,
        after.filled_generation == before.work()->Decode_0.generation,
        after.request_generation == before.request_generation,
    ensures
        after.holds(before.request_start_frame as int),
        !after.is_pending(),
{
}

/// Audio that was paused goes on where it was.
pub proof fn paused_audio_goes_on<S>(decoded: DecodedAudioPlaybackState<S>)
    requires
        decoded.state == DecodedPlaybackState::Playing,
        decoded.position_frame < decoded.frame_length,
    ensures
        decoded.paused().started().position_frame == decoded.position_frame,
        decoded.paused().started().counted_loops_remaining == decoded.counted_loops_remaining,
        decoded.paused().started().state == DecodedPlaybackState::Playing,
        decoded.paused().paused() == decoded.paused(),
{
}

/// Audio that was stopped starts from its beginning, with all its repetitions.
pub proof fn stopped_audio_starts_over<S>(decoded: DecodedAudioPlaybackState<S>)
    ensures
        decoded.stopped().started().position_frame == 0,
        decoded.stopped().started().counted_loops_remaining == decoded.loop_settings.loop_count,
        decoded.stopped().stopped() == decoded.stopped(),
{
}

/// Moving to a frame leaves playback as it is, and the frame is played next if it
/// lies before the end.
pub proof fn sought_frame_is_played_next<S>(decoded: DecodedAudioPlaybackState<S>, frame: u64)
    requires
        decoded.wf(),
    ensures
        decoded.moved_to(frame).state == decoded.state,
        decoded.state == DecodedPlaybackState::Playing && frame < decoded.play_end()
            ==> decoded.moved_to(frame).frame_played() == Some(frame),
{
}

/// A frame of audio with two or more channels that is held in full gives its first sample
/// to the left and its second to the right, one of a single channel gives its sample to
/// both sides, and one behind the samples is silent.
pub proof fn buffered_frames_have_their_sides<S: Copy>(
    decoded: DecodedAudioPlaybackState<S>,
    samples: Vec<S>,
    frame: u64,
    silence: S,
)
    requires
        decoded.samples == Some(samples),
    ensures
        decoded.channels >= 2 && frame * decoded.channels + 2 <= samples@.len()
            ==> decoded.source_sides(frame, silence) == (
            samples@[frame * decoded.channels],
            samples@[frame * decoded.channels + 1],
        ),
        decoded.channels <= 1 && frame < samples@.len() ==> decoded.source_sides(frame, silence)
            == (samples@[frame as int], samples@[frame as int]),
        frame >= samples@.len() ==> decoded.source_sides(frame, silence) == (silence, silence),
{
    let step = max_of(decoded.channels as int, 1);
    if decoded.channels <= 1 {
        assert(frame * step == frame) by (nonlinear_arith)
            requires
                step == 1,
        ;
    }
    if frame >= samples@.len() {
        assert(frame * step >= frame) by (nonlinear_arith)
            requires
                step >= 1,
                frame >= 0,
        ;
    }
}

/// The same of a frame of a stream, counted from the start of the window in which it is. A
/// frame that is in no window is silent, and is asked for.
pub proof fn streamed_frames_have_their_sides<S: Copy>(
    cache: DecodedStreamCache<S>,
    frame: u64,
    silence: S,
)
    requires
        cache.cache_start_frame + cache.cache_frames <= u64::MAX,
    ensures
        ({
            let inside = cache.cache_start_frame <= frame < cache.cache_start_frame
                + cache.cache_frames;
            let offset = frame - cache.cache_start_frame;
            &&& inside && cache.source_channels >= 2 && offset * cache.source_channels + 2
                <= cache.samples@.len() ==> cache.sides(frame, silence) == (
                cache.samples@[offset * cache.source_channels],
                cache.samples@[offset * cache.source_channels + 1],
            )
            &&& inside && cache.source_channels == 1 && offset < cache.samples@.len()
                ==> cache.sides(frame, silence) == (cache.samples@[offset], cache.samples@[offset])
            &&& inside ==> cache.after_playing(frame) == cache
            &&& !inside ==> cache.sides(frame, silence) == (silence, silence)
            &&& !inside && cache.filled_generation <= cache.request_generation < u64::MAX ==> {
                let after = cache.after_playing(frame);
                &&& after.request_start_frame == frame
                &&& after.request_generation != after.filled_generation
                &&& after.samples == cache.samples
                &&& after.cache_start_frame == cache.cache_start_frame
                &&& after.cache_frames == cache.cache_frames
            }
        }),
{
    if cache.source_channels == 1 && frame >= cache.cache_start_frame {
        let offset = frame - cache.cache_start_frame;
        assert(offset * 1 == offset);
    }
}

/// What audio that is held in full and is played needs of what it was started with.
pub open spec fn same_recording<S>(
    a: DecodedAudioPlaybackState<S>,
    b: DecodedAudioPlaybackState<S>,
) -> bool {
    &&& a.samples == b.samples
    &&& a.channels == b.channels
    &&& a.frame_length == b.frame_length
    &&& a.loop_settings == b.loop_settings
}

/// Audio that is held in full and does not loop is heard sample by sample: rendering gives
/// the two sides of each frame in turn, from where it stands up to its end, and silence from
/// there on.
pub proof fn recording_is_heard_in_order<S: Copy>(
    decoded: DecodedAudioPlaybackState<S>,
    after: DecodedAudioPlaybackState<S>,
    output: Seq<(S, S)>,
    samples: Vec<S>,
    frames: nat,
    silence: S,
)
    requires
        decoded.wf(),
        decoded.state == DecodedPlaybackState::Playing,
        decoded.samples == Some(samples),
        decoded.frame_length > 0,
        !decoded.loop_settings.enabled,
        decoded.frame_length * max_of(decoded.channels as int, 1) <= samples@.len(),
        decoded.renders(after, output, frames, silence),
    ensures
        output.len() == frames,
        forall|i: int|
            0 <= i < frames && decoded.position_frame + i < decoded.frame_length ==> {
                let frame = decoded.position_frame + i;
                #[trigger] output[i] == if decoded.channels >= 2 {
                    (samples@[frame * decoded.channels], samples@[frame * decoded.channels + 1])
                } else {
                    (samples@[frame], samples@[frame])
                }
            },
        forall|i: int|
            0 <= i < frames && decoded.position_frame + i >= decoded.frame_length
                ==> #[trigger] output[i] == (silence, silence),
        decoded.position_frame + frames > decoded.frame_length ==> after.state
            == DecodedPlaybackState::Stopped,
        decoded.position_frame + frames < decoded.frame_length ==> after.state
            == DecodedPlaybackState::Playing && after.position_frame == decoded.position_frame
            + frames,
{
    assert forall|i: int| 0 <= i < frames implies {
        let frame = decoded.position_frame + i;
        #[trigger] output[i] == if frame >= decoded.frame_length {
            (silence, silence)
        } else if decoded.channels >= 2 {
            (samples@[frame * decoded.channels], samples@[frame * decoded.channels + 1])
        } else {
            (samples@[frame], samples@[frame])
        }
    } by {
        lemma_plain_run(decoded, i as nat);
        let now = decoded.after_frames(i as nat);
        assert(output[i] == now.output_frame(silence));
        let frame = decoded.position_frame + i;
        if frame < decoded.frame_length {
            let step = max_of(decoded.channels as int, 1);
            assert((frame + 1) * step <= decoded.frame_length * step) by (nonlinear_arith)
                requires
                    frame + 1 <= decoded.frame_length,
                    step >= 1,
            ;
            assert((frame + 1) * step == frame * step + step) by (nonlinear_arith);
            assert(frame * 1 == frame);
            buffered_frames_have_their_sides(now.advanced(), samples, frame as u64, silence);
        }
    }
    lemma_plain_run(decoded, frames);
}

proof fn lemma_plain_run<S: Copy>(decoded: DecodedAudioPlaybackState<S>, n: nat)
    requires
        decoded.wf(),
        decoded.state == DecodedPlaybackState::Playing,
        decoded.samples is Some,
        !decoded.loop_settings.enabled,
    ensures
        ({
            let now = decoded.after_frames(n);
            &&& same_recording(now, decoded)
            &&& decoded.position_frame + n < decoded.frame_length ==> now.state
                == DecodedPlaybackState::Playing && now.position_frame == decoded.position_frame
                + n && now.frame_played() == Some((decoded.position_frame + n) as u64)
            &&& decoded.position_frame + n == decoded.frame_length ==> now.position_frame
                == decoded.frame_length && now.state == DecodedPlaybackState::Playing
            &&& decoded.position_frame + n >= decoded.frame_length ==> now.frame_played() is None
            &&& decoded.position_frame + n > decoded.frame_length && decoded.frame_length > 0
                ==> now.state == DecodedPlaybackState::Stopped
        }),
    decreases n,
{
    if n > 0 {
        lemma_plain_run(decoded, (n - 1) as nat);
    }
}

/// Audio that loops without end plays the frames of the loop over and over, from where it
/// stands in the loop: frame by frame to the end of the loop, and from its start again.
pub proof fn infinite_loop_goes_round<S: Copy>(decoded: DecodedAudioPlaybackState<S>, n: nat)
    requires
        decoded.wf(),
        decoded.state == DecodedPlaybackState::Playing,
        decoded.loop_settings.enabled,
        decoded.loop_settings.mode == PlaybackLoopMode::Infinite,
        decoded.loop_settings.start_tick <= decoded.position_frame < decoded.loop_settings.end_tick,
    ensures
        ({
            let start = decoded.loop_settings.start_tick as int;
            let length = decoded.loop_settings.end_tick - start;
            decoded.after_frames(n).frame_played() == Some(
                (start + (decoded.position_frame - start + n) % length) as u64,
            )
        }),
{
    lemma_looping_run(decoded, n);
}

proof fn lemma_looping_run<S: Copy>(decoded: DecodedAudioPlaybackState<S>, n: nat)
    requires
        decoded.wf(),
        decoded.state == DecodedPlaybackState::Playing,
        decoded.loop_settings.enabled,
        decoded.loop_settings.mode == PlaybackLoopMode::Infinite,
        decoded.loop_settings.start_tick <= decoded.position_frame < decoded.loop_settings.end_tick,
    ensures
        ({
            let start = decoded.loop_settings.start_tick as int;
            let length = decoded.loop_settings.end_tick - start;
            let now = decoded.after_frames(n);
            &&& now.state == DecodedPlaybackState::Playing
            &&& now.loop_settings == decoded.loop_settings
            &&& now.frame_length == decoded.frame_length
            &&& start <= now.position_frame <= decoded.loop_settings.end_tick
            &&& now.frame_played() == Some(
                (start + (decoded.position_frame - start + n) % length) as u64,
            )
        }),
    decreases n,
{
    let start = decoded.loop_settings.start_tick as int;
    let length = decoded.loop_settings.end_tick - start;
    let at = decoded.position_frame - start;
    if n == 0 {
        assert(at % length == at) by (nonlinear_arith)
            requires
                0 <= at < length,
        ;
    } else {
        lemma_looping_run(decoded, (n - 1) as nat);
        let before = (at + n - 1) % length;
        assert((at + n) % length == if before + 1 < length {
            before + 1
        } else {
            0
        }) by {
            lemma_next_remainder(at + n - 1, length);
        }
        assert(0 <= before < length) by (nonlinear_arith)
            requires
                before == (at + n - 1) % length,
                length > 0,
        ;
    }
}

proof fn lemma_next_remainder(a: int, length: int)
    requires
        0 <= a,
        0 < length,
    ensures
        (a + 1) % length == if a % length + 1 < length {
            a % length + 1
        } else {
            0
        },
{
    let q = a / length;
    let r = a % length;
    vstd::arithmetic::div_mod::lemma_fundamental_div_mod(a, length);
    vstd::arithmetic::div_mod::lemma_mod_bound(a, length);
    if r + 1 < length {
        vstd::arithmetic::div_mod::lemma_fundamental_div_mod_converse(a + 1, length, q, r + 1);
    } else {
        assert(a + 1 == (q + 1) * length) by (nonlinear_arith)
            requires
                a == length * q + r,
                r + 1 == length,
        ;
        assert((q + 1) * length == length * (q + 1)) by (nonlinear_arith);
        vstd::arithmetic::div_mod::lemma_fundamental_div_mod_converse(a + 1, length, q + 1, 0);
    }
}

/// Audio in a counted loop goes on to the end of the loop, plays the loop once more for each
/// repetition that is left, and then stops.
pub proof fn counted_loop_plays_its_repetitions<S: Copy>(
    decoded: DecodedAudioPlaybackState<S>,
    n: nat,
)
    requires
        decoded.wf(),
        decoded.state == DecodedPlaybackState::Playing,
        decoded.loop_settings.enabled,
        decoded.loop_settings.mode == PlaybackLoopMode::Counted,
        decoded.loop_settings.start_tick <= decoded.position_frame < decoded.loop_settings.end_tick,
    ensures
        ({
            let start = decoded.loop_settings.start_tick as int;
            let length = decoded.loop_settings.end_tick - start;
            let total = decoded.loop_settings.end_tick - decoded.position_frame
                + decoded.counted_loops_remaining * length;
            &&& n < total ==> decoded.after_frames(n).frame_played() == Some(
                (start + (decoded.position_frame - start + n) % length) as u64,
            )
            &&& n >= total ==> decoded.after_frames(n).frame_played() is None
            &&& n > total ==> decoded.after_frames(n).state == DecodedPlaybackState::Stopped
        }),
{
    lemma_counted_run(decoded, n);
}

proof fn lemma_counted_run<S: Copy>(decoded: DecodedAudioPlaybackState<S>, n: nat)
    requires
        decoded.wf(),
        decoded.state == DecodedPlaybackState::Playing,
        decoded.loop_settings.enabled,
        decoded.loop_settings.mode == PlaybackLoopMode::Counted,
        decoded.loop_settings.start_tick <= decoded.position_frame < decoded.loop_settings.end_tick,
    ensures
        ({
            let start = decoded.loop_settings.start_tick as int;
            let length = decoded.loop_settings.end_tick - start;
            let at = decoded.position_frame - start;
            let total = length - at + decoded.counted_loops_remaining * length;
            let now = decoded.after_frames(n);
            &&& now.loop_settings == decoded.loop_settings
            &&& now.frame_length == decoded.frame_length
            &&& start <= now.position_frame <= decoded.loop_settings.end_tick
            &&& n <= total ==> {
                &&& now.state == DecodedPlaybackState::Playing
                &&& decoded.loop_settings.end_tick - now.position_frame
                    + now.counted_loops_remaining * length == total - n
            }
            &&& n < total ==> now.frame_played() == Some((start + (at + n) % length) as u64)
            &&& n >= total ==> now.frame_played() is None
            &&& n > total ==> now.state == DecodedPlaybackState::Stopped
        }),
    decreases n,
{
    let start = decoded.loop_settings.start_tick as int;
    let end = decoded.loop_settings.end_tick as int;
    let length = end - start;
    let at = decoded.position_frame - start;
    let total = length - at + decoded.counted_loops_remaining * length;
    assert(decoded.counted_loops_remaining * length >= 0) by (nonlinear_arith)
        requires
            length > 0,
            decoded.counted_loops_remaining >= 0,
    ;
    if n == 0 {
        assert(at % length == at) by (nonlinear_arith)
            requires
                0 <= at < length,
        ;
    } else {
        lemma_counted_run(decoded, (n - 1) as nat);
        let before = decoded.after_frames((n - 1) as nat);
        let now = decoded.after_frames(n);
        assert(now == before.after_frame());
        lemma_next_remainder(at + n - 1, length);
        assert(0 <= (at + n - 1) % length < length) by (nonlinear_arith)
            requires
                length > 0,
        ;
        let left = before.counted_loops_remaining as int;
        assert(left > 0 ==> (left - 1) * length == left * length - length) by (nonlinear_arith);
        assert(left == 0 ==> left * length == 0) by (nonlinear_arith);
        assert(left >= 1 ==> left * length >= length) by (nonlinear_arith)
            requires
                length > 0,
        ;
        let remaining = now.counted_loops_remaining as int;
        assert(remaining >= 1 ==> remaining * length >= length) by (nonlinear_arith)
            requires
                length > 0,
        ;
        assert(remaining == 0 ==> remaining * length == 0) by (nonlinear_arith);
    }
}

/// Switching the loop on lets audio without a kind of loop repeat for ever; a kind that was
/// chosen stands, and so do the bounds of the loop and the place of playback.
pub proof fn switching_the_loop_keeps_its_bounds<S>(
    audio: DecodedAudioPlaybackState<S>,
    enabled: bool,
)
    ensures
        ({
            let after = audio.with_loop_switched(enabled);
            &&& after.loop_settings.enabled == enabled
            &&& enabled ==> after.loop_settings.mode != PlaybackLoopMode::Off
            &&& enabled && audio.loop_settings.mode == PlaybackLoopMode::Off
                ==> after.loop_settings.mode == PlaybackLoopMode::Infinite
            &&& audio.loop_settings.mode != PlaybackLoopMode::Off || !enabled
                ==> after.loop_settings.mode == audio.loop_settings.mode
            &&& after.position_frame == audio.position_frame
            &&& after.state == audio.state
            &&& after.loop_settings == (PlaybackLoopSettings {
                enabled,
                mode: after.loop_settings.mode,
                ..audio.loop_settings
            })
        }),
{
}

/// The cache is shown as it is where audio is streamed; otherwise the buffer is.
pub proof fn caches_are_shown_as_they_are<S>(
    audio: DecodedAudioPlaybackState<S>,
    debug: DecodedStreamCacheDebug,
    cached: usize,
    full: usize,
)
    requires
        audio.shows_cache(debug, cached, full),
    ensures
        debug.streaming == (audio.stream is Some),
        audio.stream is Some ==> {
            &&& debug.cache_start_frame == audio.stream->Some_0.cache_start_frame
            &&& debug.cache_frames == audio.stream->Some_0.cache_frames
            &&& debug.cache_capacity_frames == audio.stream->Some_0.cache_capacity_frames
            &&& debug.source_channels == audio.stream->Some_0.source_channels
            &&& debug.cached_sample_capacity == cached
            &&& debug.request_generation == audio.stream->Some_0.request_generation
            &&& debug.filled_generation == audio.stream->Some_0.filled_generation
        },
        audio.stream is None ==> debug.cache_frames == 0 && debug.source_channels
            == audio.channels,
        audio.stream is None && audio.samples is Some ==> debug.full_sample_len
            == audio.samples->Some_0@.len() && debug.full_sample_capacity == full,
{
}

/// A request asks the worker for the window from its frame on, under a number one higher than
/// the last; what is cached stands until the worker has filled it.
pub proof fn requests_ask_for_their_frame<S>(cache: DecodedStreamCache<S>, frame: u64)
    requires
        cache.request_generation < u64::MAX,
        cache.filled_generation <= cache.request_generation,
    ensures
        ({
            let after = cache.requested(frame);
            &&& after.request_start_frame == frame
            &&& after.request_generation == cache.request_generation + 1
            &&& after.is_pending()
            &&& after.cache_start_frame == cache.cache_start_frame
            &&& after.cache_frames == cache.cache_frames
            &&& after.filled_generation == cache.filled_generation
            &&& !cache.shutdown ==> after.work() is Decode && after.work()->Decode_0.start_frame
                == frame && after.work()->Decode_0.generation == cache.request_generation + 1
                && after.work()->Decode_0.capacity_frames == cache.cache_capacity_frames
            &&& cache.shutdown ==> after.work() == StreamWork::Stop
        }),
        cache.request_generation == cache.filled_generation && !cache.shutdown ==> cache.work()
            == StreamWork::Wait,
        cache.cache_start_frame + cache.cache_frames <= u64::MAX ==> cache.holds(frame as int) == (
        cache.cache_start_frame <= frame < cache.cache_start_frame + cache.cache_frames),
{
}

/// Streamed audio asks for the next window once no more than half a second, or four blocks,
/// are left of the one that it plays, and not before.
pub proof fn windows_are_asked_for_in_time<S>(
    audio: DecodedAudioPlaybackState<S>,
    rendered: nat,
)
    requires
        audio.stream is Some,
        audio.stream->Some_0.cache_start_frame <= audio.position_frame,
        audio.position_frame < audio.stream->Some_0.cache_start_frame
            + audio.stream->Some_0.cache_frames <= u64::MAX,
        !audio.stream->Some_0.is_pending(),
        audio.stream->Some_0.request_generation < u64::MAX,
        4 * rendered <= usize::MAX,
        audio.sample_rate >= 2,
    ensures
        ({
            let cache = audio.stream->Some_0;
            let after = audio.prefetched_stream(rendered as int)->Some_0;
            let left = cache.cache_start_frame + cache.cache_frames - audio.position_frame;
            &&& left > audio.sample_rate / 2 && left > 4 * rendered ==> after == cache
            &&& left <= audio.sample_rate / 2 || left <= 4 * rendered ==> after.is_pending()
                && after.request_start_frame == audio.position_frame
        }),
{
}

/// Moving stays within the audio, starts a counted loop anew and asks for a window that is
/// not cached.
pub proof fn moves_stay_within_the_audio<S>(audio: DecodedAudioPlaybackState<S>, frame: u64)
    ensures
        ({
            let after = audio.moved_to(frame);
            &&& after.position_frame <= audio.frame_length
            &&& frame <= audio.frame_length ==> after.position_frame == frame
            &&& frame > audio.frame_length ==> after.position_frame == audio.frame_length
            &&& after.counted_loops_remaining == audio.loop_settings.loop_count
            &&& after.state == audio.state
            &&& after.loop_settings == audio.loop_settings
            &&& audio.stream is Some && !audio.stream->Some_0.holds(after.position_frame as int)
                && !audio.stream->Some_0.is_pending() ==> after.stream is Some
                && after.stream->Some_0.request_start_frame == after.position_frame
        }),
{
}

} // verus!
