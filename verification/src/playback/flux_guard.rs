//! The flux guard: it adapts the render-ahead target of the audio output to the
//! pressure that the output reports.
use crate::numbers::{clamp_of, clamp_u32, max_of, max_u32, monus, saturating_mul_u32, u32_cap};
use vstd::prelude::*;

verus! {

/// What the audio output reports about its queue.
#[derive(Debug, Copy, Clone, PartialEq, Eq, Structural)]
pub struct RenderAheadState {
    pub effective_target_frames: u32,
    pub current_buffered_frames: u32,
    pub available_frames: u32,
    pub largest_callback_frames: u32,
    pub underrun_count: u64,
    pub queue_error_count: u64,
}

/// How far ahead the audio output renders.
#[derive(Debug, Copy, Clone, PartialEq, Eq, Structural)]
pub struct RenderAheadTarget {
    pub target_frames: u32,
    pub low_water_frames: u32,
    pub high_water_frames: u32,
}

#[derive(Debug, Copy, Clone, PartialEq, Eq, Structural)]
pub struct FluxGuardConfig {
    pub min_latency_ms: u32,
    pub initial_latency_ms: u32,
    pub max_latency_ms: u32,
    pub underrun_penalty_ms: u32,
    pub queue_error_penalty_ms: u32,
    pub low_water_headroom_ms: u32,
    pub stable_step_down_ms: u32,
    pub stable_observations_required: u32,
    pub cooldown_observations: u32,
}

#[derive(Debug, Copy, Clone, PartialEq, Eq, Structural)]
pub enum FluxGuardDecisionReason {
    NoAudio,
    Initialized,
    Stable,
    QueueErrorPressure,
    UnderrunPressure,
    LowWater,
    Cooldown,
}

#[derive(Debug, Copy, Clone, PartialEq, Eq, Structural)]
pub struct FluxGuardDecision {
    pub target: RenderAheadTarget,
    pub state: RenderAheadState,
    pub reason: FluxGuardDecisionReason,
    pub changed: bool,
}

#[derive(Debug, Copy, Clone, PartialEq, Eq, Structural)]
pub struct FluxGuardSnapshot {
    pub decision: FluxGuardDecision,
    pub initialized: bool,
    pub stable_observations: u32,
    pub cooldown_observations: u32,
}

#[derive(Debug, Copy, Clone, PartialEq, Eq, Structural)]
pub struct FluxGuard {
    pub config: FluxGuardConfig,
    pub target_frames: u32,
    pub last_underrun_count: u64,
    pub last_queue_error_count: u64,
    pub stable_observations: u32,
    pub cooldown_observations: u32,
    pub initialized: bool,
    pub last_decision: FluxGuardDecision,
}

/// The decision while no audio output is open.
pub open spec fn no_audio_decision() -> FluxGuardDecision {
    FluxGuardDecision {
        target: RenderAheadTarget { target_frames: 0, low_water_frames: 0, high_water_frames: 0 },
        state: RenderAheadState {
            effective_target_frames: 0,
            current_buffered_frames: 0,
            available_frames: 0,
            largest_callback_frames: 0,
            underrun_count: 0,
            queue_error_count: 0,
        },
        reason: FluxGuardDecisionReason::NoAudio,
        changed: false,
    }
}

/// The configuration every guard starts with.
pub open spec fn default_config() -> FluxGuardConfig {
    FluxGuardConfig {
        min_latency_ms: 12,
        initial_latency_ms: 80,
        max_latency_ms: 250,
        underrun_penalty_ms: 40,
        queue_error_penalty_ms: 60,
        low_water_headroom_ms: 20,
        stable_step_down_ms: 5,
        stable_observations_required: 30,
        cooldown_observations: 8,
    }
}

/// A guard that has observed nothing.
pub open spec fn fresh_guard() -> FluxGuard {
    FluxGuard {
        config: default_config(),
        target_frames: 0,
        last_underrun_count: 0,
        last_queue_error_count: 0,
        stable_observations: 0,
        cooldown_observations: 0,
        initialized: false,
        last_decision: no_audio_decision(),
    }
}

/// The frames played in `milliseconds`, at least 1 and at most `u32::MAX`.
pub open spec fn frames_of(sample_rate: u32, milliseconds: u32) -> int {
    u32_cap(max_of(1, (max_of(1, sample_rate as int) * milliseconds) / 1000))
}

pub fn frames_from_ms(sample_rate: u32, milliseconds: u32) -> (frames: u32)
    ensures
        frames == frames_of(sample_rate, milliseconds),
{
    let rate: u64 = max_u32(1, sample_rate) as u64;
    assert(0 <= rate * milliseconds <= u32::MAX * u32::MAX) by (nonlinear_arith)
        requires
            1 <= rate <= u32::MAX,
            0 <= milliseconds <= u32::MAX,
    ;
    let frames: u64 = (rate * (milliseconds as u64)) / 1000;
    let frames: u64 = if frames < 1 {
        1
    } else {
        frames
    };
    if frames > u32::MAX as u64 {
        u32::MAX
    } else {
        frames as u32
    }
}

impl FluxGuardDecisionReason {
    pub open spec fn name(self) -> Seq<char> {
        match self {
            FluxGuardDecisionReason::NoAudio => "no-audio"@,
            FluxGuardDecisionReason::Initialized => "initialized"@,
            FluxGuardDecisionReason::Stable => "stable"@,
            FluxGuardDecisionReason::QueueErrorPressure => "queue-error-pressure"@,
            FluxGuardDecisionReason::UnderrunPressure => "underrun-pressure"@,
            FluxGuardDecisionReason::LowWater => "low-water"@,
            FluxGuardDecisionReason::Cooldown => "cooldown"@,
        }
    }

    pub fn as_str(self) -> (text: &'static str)
        ensures
            text@ == self.name(),
    {
        match self {
            FluxGuardDecisionReason::NoAudio => "no-audio",
            FluxGuardDecisionReason::Initialized => "initialized",
            FluxGuardDecisionReason::Stable => "stable",
            FluxGuardDecisionReason::QueueErrorPressure => "queue-error-pressure",
            FluxGuardDecisionReason::UnderrunPressure => "underrun-pressure",
            FluxGuardDecisionReason::LowWater => "low-water",
            FluxGuardDecisionReason::Cooldown => "cooldown",
        }
    }
}

impl Default for FluxGuardDecisionReason {
    fn default() -> (reason: Self)
        ensures
            reason == FluxGuardDecisionReason::NoAudio,
    {
        FluxGuardDecisionReason::NoAudio
    }
}

impl Default for FluxGuardDecision {
    fn default() -> (decision: Self)
        ensures
            decision == no_audio_decision(),
    {
        FluxGuardDecision {
            target: RenderAheadTarget {
                target_frames: 0,
                low_water_frames: 0,
                high_water_frames: 0,
            },
            state: RenderAheadState {
                effective_target_frames: 0,
                current_buffered_frames: 0,
                available_frames: 0,
                largest_callback_frames: 0,
                underrun_count: 0,
                queue_error_count: 0,
            },
            reason: FluxGuardDecisionReason::NoAudio,
            changed: false,
        }
    }
}

impl Default for FluxGuardConfig {
    fn default() -> (config: Self)
        ensures
            config == default_config(),
    {
        FluxGuardConfig {
            min_latency_ms: 12,
            initial_latency_ms: 80,
            max_latency_ms: 250,
            underrun_penalty_ms: 40,
            queue_error_penalty_ms: 60,
            low_water_headroom_ms: 20,
            stable_step_down_ms: 5,
            stable_observations_required: 30,
            cooldown_observations: 8,
        }
    }
}

impl Default for FluxGuard {
    fn default() -> (guard: Self)
        ensures
            guard == fresh_guard(),
    {
        FluxGuard {
            config: FluxGuardConfig::default(),
            target_frames: 0,
            last_underrun_count: 0,
            last_queue_error_count: 0,
            stable_observations: 0,
            cooldown_observations: 0,
            initialized: false,
            last_decision: FluxGuardDecision::default(),
        }
    }
}

impl FluxGuard {
    pub open spec fn min_frames(&self, rate: u32) -> int {
        frames_of(rate, self.config.min_latency_ms)
    }

    pub open spec fn max_frames(&self, rate: u32) -> int {
        max_of(frames_of(rate, self.config.max_latency_ms), self.min_frames(rate))
    }

    pub open spec fn step_frames(&self, rate: u32) -> int {
        frames_of(rate, self.config.stable_step_down_ms)
    }

    /// The target an observation starts from: the initial latency on the first
    /// observation, the current target after that.
    pub open spec fn base_target(&self, rate: u32) -> int {
        if self.initialized {
            self.target_frames as int
        } else {
            clamp_of(
                frames_of(rate, self.config.initial_latency_ms),
                self.min_frames(rate),
                self.max_frames(rate),
            )
        }
    }

    /// The base target, raised to four of the largest callbacks.
    pub open spec fn covered_target(&self, state: RenderAheadState, rate: u32) -> int {
        max_of(
            self.base_target(rate),
            max_of(u32_cap(state.largest_callback_frames * 4), self.min_frames(rate)),
        )
    }

    /// The pressure that an observation shows, strongest first.
    pub open spec fn pressure(&self, state: RenderAheadState, rate: u32) -> FluxGuardDecisionReason {
        if state.queue_error_count > self.last_queue_error_count {
            FluxGuardDecisionReason::QueueErrorPressure
        } else if state.underrun_count > self.last_underrun_count {
            FluxGuardDecisionReason::UnderrunPressure
        } else if state.current_buffered_frames <= self.base_target(rate) / 2 {
            FluxGuardDecisionReason::LowWater
        } else if self.cooldown_observations > 0 {
            FluxGuardDecisionReason::Cooldown
        } else {
            FluxGuardDecisionReason::Stable
        }
    }

    /// Whether the queue is above its high-water mark.
    pub open spec fn above_high_water(&self, state: RenderAheadState, rate: u32) -> bool {
        state.current_buffered_frames >= u32_cap(
            self.base_target(rate) + self.base_target(rate) / 2,
        )
    }

    /// Whether this observation completes a run of stable ones.
    pub open spec fn steps_down(&self, state: RenderAheadState, rate: u32) -> bool {
        &&& self.pressure(state, rate) == FluxGuardDecisionReason::Stable
        &&& self.above_high_water(state, rate)
        &&& u32_cap(self.stable_observations + 1) >= self.config.stable_observations_required
    }

    /// The target that an observation asks for.
    pub open spec fn proposed_target(&self, state: RenderAheadState, rate: u32) -> int {
        let covered = self.covered_target(state, rate);
        let buffered = max_of(covered, state.current_buffered_frames as int);
        let wanted = match self.pressure(state, rate) {
            FluxGuardDecisionReason::QueueErrorPressure => u32_cap(
                buffered + frames_of(rate, self.config.queue_error_penalty_ms),
            ),
            FluxGuardDecisionReason::UnderrunPressure => u32_cap(
                buffered + frames_of(rate, self.config.underrun_penalty_ms),
            ),
            FluxGuardDecisionReason::LowWater => u32_cap(
                covered + frames_of(rate, self.config.low_water_headroom_ms),
            ),
            _ => if self.steps_down(state, rate) {
                monus(covered, self.step_frames(rate))
            } else {
                covered
            },
        };
        clamp_of(wanted, self.min_frames(rate), self.max_frames(rate))
    }

    /// Whether the proposed target is at least one step away from the base.
    pub open spec fn is_material(&self, state: RenderAheadState, rate: u32) -> bool {
        let proposed = self.proposed_target(state, rate);
        let base = self.base_target(rate);
        let distance = if proposed >= base {
            proposed - base
        } else {
            base - proposed
        };
        distance >= max_of(self.step_frames(rate), 1)
    }

    pub open spec fn next_target(&self, state: RenderAheadState, rate: u32) -> int {
        if self.is_material(state, rate) {
            self.proposed_target(state, rate)
        } else {
            self.base_target(rate)
        }
    }

    pub open spec fn next_cooldown(&self, state: RenderAheadState, rate: u32) -> int {
        match self.pressure(state, rate) {
            FluxGuardDecisionReason::Stable => 0,
            FluxGuardDecisionReason::Cooldown => self.cooldown_observations - 1,
            _ => self.config.cooldown_observations as int,
        }
    }

    pub open spec fn next_stable(&self, state: RenderAheadState, rate: u32) -> int {
        match self.pressure(state, rate) {
            FluxGuardDecisionReason::Cooldown => self.stable_observations as int,
            FluxGuardDecisionReason::Stable => if self.above_high_water(state, rate)
                && !self.steps_down(state, rate) {
                u32_cap(self.stable_observations + 1)
            } else {
                0
            },
            _ => 0,
        }
    }

    pub open spec fn next_decision(&self, state: RenderAheadState, rate: u32) -> FluxGuardDecision {
        let target = self.next_target(state, rate);
        FluxGuardDecision {
            target: RenderAheadTarget {
                target_frames: target as u32,
                low_water_frames: (target / 2) as u32,
                high_water_frames: u32_cap(target + target / 2) as u32,
            },
            state: RenderAheadState { effective_target_frames: target as u32, ..state },
            reason: if self.last_decision.reason == FluxGuardDecisionReason::NoAudio {
                FluxGuardDecisionReason::Initialized
            } else {
                self.pressure(state, rate)
            },
            changed: self.is_material(state, rate) || self.last_decision.reason != self.pressure(
                state,
                rate,
            ),
        }
    }

    /// The guard after one observation at a sample rate of at least 1.
    pub open spec fn observed(&self, state: RenderAheadState, rate: u32) -> FluxGuard {
        FluxGuard {
            config: self.config,
            target_frames: self.next_target(state, rate) as u32,
            last_underrun_count: state.underrun_count,
            last_queue_error_count: state.queue_error_count,
            stable_observations: self.next_stable(state, rate) as u32,
            cooldown_observations: self.next_cooldown(state, rate) as u32,
            initialized: true,
            last_decision: self.next_decision(state, rate),
        }
    }

    pub open spec fn snapshot_of(&self) -> FluxGuardSnapshot {
        FluxGuardSnapshot {
            decision: self.last_decision,
            initialized: self.initialized,
            stable_observations: self.stable_observations,
            cooldown_observations: self.cooldown_observations,
        }
    }

    /// Forgets everything observed.
    pub fn reset(&mut self)
        ensures
            *final(self) == fresh_guard(),
    {
        *self = FluxGuard::default();
    }

    /// Takes one report of the audio output, or its absence, and decides on the
    /// render-ahead target.
    pub fn observe(&mut self, state: Option<RenderAheadState>, sample_rate: u32) -> (snapshot:
        FluxGuardSnapshot)
        ensures
            match state {
                None => *final(self) == (FluxGuard {
                    last_decision: no_audio_decision(),
                    ..*old(self)
                }),
                Some(state) => *final(self) == old(self).observed(
                    state,
                    max_of(sample_rate as int, 1) as u32,
                ),
            },
            snapshot == final(self).snapshot_of(),
    {
        let state = match state {
            Some(state) => state,
            None => {
                self.last_decision = FluxGuardDecision::default();
                return self.snapshot();
            },
        };

        let rate: u32 = max_u32(sample_rate, 1);
        let min_frames: u32 = frames_from_ms(rate, self.config.min_latency_ms);
        let initial_frames: u32 = frames_from_ms(rate, self.config.initial_latency_ms);
        let max_frames: u32 = max_u32(
            frames_from_ms(rate, self.config.max_latency_ms),
            min_frames,
        );
        if !self.initialized {
            self.initialized = true;
            self.target_frames = clamp_u32(initial_frames, min_frames, max_frames);
        }
        let underrun_delta: u64 = state.underrun_count.saturating_sub(self.last_underrun_count);
        let queue_error_delta: u64 = state.queue_error_count.saturating_sub(
            self.last_queue_error_count,
        );
        self.last_underrun_count = state.underrun_count;
        self.last_queue_error_count = state.queue_error_count;

        let callback_headroom: u32 = max_u32(
            saturating_mul_u32(state.largest_callback_frames, 4),
            min_frames,
        );
        let mut proposed: u32 = max_u32(self.target_frames, callback_headroom);
        let mut reason = FluxGuardDecisionReason::Stable;

        if queue_error_delta > 0 {
            reason = FluxGuardDecisionReason::QueueErrorPressure;
            proposed = max_u32(proposed, state.current_buffered_frames).saturating_add(
                frames_from_ms(rate, self.config.queue_error_penalty_ms),
            );
            self.cooldown_observations = self.config.cooldown_observations;
            self.stable_observations = 0;
        } else if underrun_delta > 0 {
            reason = FluxGuardDecisionReason::UnderrunPressure;
            proposed = max_u32(proposed, state.current_buffered_frames).saturating_add(
                frames_from_ms(rate, self.config.underrun_penalty_ms),
            );
            self.cooldown_observations = self.config.cooldown_observations;
            self.stable_observations = 0;
        } else if state.current_buffered_frames <= self.low_water_frames() {
            reason = FluxGuardDecisionReason::LowWater;
            proposed = proposed.saturating_add(
                frames_from_ms(rate, self.config.low_water_headroom_ms),
            );
            self.cooldown_observations = self.config.cooldown_observations;
            self.stable_observations = 0;
        } else if self.cooldown_observations > 0 {
            reason = FluxGuardDecisionReason::Cooldown;
            self.cooldown_observations = self.cooldown_observations - 1;
        } else if state.current_buffered_frames >= self.high_water_frames() {
            self.stable_observations = self.stable_observations.saturating_add(1);
            if self.stable_observations >= self.config.stable_observations_required {
                proposed = proposed.saturating_sub(
                    frames_from_ms(rate, self.config.stable_step_down_ms),
                );
                self.stable_observations = 0;
            }
        } else {
            self.stable_observations = 0;
        }

        let proposed: u32 = clamp_u32(proposed, min_frames, max_frames);
        let step: u32 = max_u32(frames_from_ms(rate, self.config.stable_step_down_ms), 1);
        let distance: u32 = if proposed >= self.target_frames {
            proposed - self.target_frames
        } else {
            self.target_frames - proposed
        };
        let material: bool = distance >= step;
        let changed: bool = material || self.last_decision.reason != reason;
        if material {
            self.target_frames = proposed;
        }
        self.last_decision = FluxGuardDecision {
            target: RenderAheadTarget {
                target_frames: self.target_frames,
                low_water_frames: self.low_water_frames(),
                high_water_frames: self.high_water_frames(),
            },
            state: RenderAheadState { effective_target_frames: self.target_frames, ..state },
            reason: if self.last_decision.reason == FluxGuardDecisionReason::NoAudio {
                FluxGuardDecisionReason::Initialized
            } else {
                reason
            },
            changed,
        };
        self.snapshot()
    }

    pub fn snapshot(&self) -> (snapshot: FluxGuardSnapshot)
        ensures
            snapshot == self.snapshot_of(),
    {
        FluxGuardSnapshot {
            decision: self.last_decision,
            initialized: self.initialized,
            stable_observations: self.stable_observations,
            cooldown_observations: self.cooldown_observations,
        }
    }

    /// Half of the target.
    pub fn low_water_frames(&self) -> (frames: u32)
        ensures
            frames == self.target_frames as int / 2,
    {
        self.target_frames / 2
    }

    /// One and a half times the target, at most `u32::MAX`.
    pub fn high_water_frames(&self) -> (frames: u32)
        ensures
            frames == u32_cap(self.target_frames + self.target_frames as int / 2),
    {
        self.target_frames.saturating_add(self.target_frames / 2)
    }
}

/// A guard whose target is inside the latency range of a sample rate, or that
/// has no target yet, keeps its target inside that range.
pub proof fn target_stays_in_latency_range(guard: FluxGuard, state: RenderAheadState, rate: u32)
    requires
        guard.initialized ==> guard.min_frames(rate) <= guard.target_frames <= guard.max_frames(
            rate,
        ),
    ensures
        guard.min_frames(rate) <= guard.observed(state, rate).target_frames <= guard.max_frames(
            rate,
        ),
{
}

/// New underruns or queue errors never lower a target that is inside the
/// latency range.
pub proof fn pressure_never_lowers_target(guard: FluxGuard, state: RenderAheadState, rate: u32)
    requires
        guard.initialized,
        guard.min_frames(rate) <= guard.target_frames <= guard.max_frames(rate),
        state.queue_error_count > guard.last_queue_error_count || state.underrun_count
            > guard.last_underrun_count || state.current_buffered_frames
            <= guard.target_frames as int / 2,
    ensures
        guard.observed(state, rate).target_frames >= guard.target_frames,
{
}

/// A target inside the latency range is lowered only by an observation that is
/// free of pressure, finds the queue above its high-water mark and completes the
/// required run of stable observations; it then drops by at most one step.
pub proof fn target_falls_only_after_stable_run(
    guard: FluxGuard,
    state: RenderAheadState,
    rate: u32,
)
    requires
        guard.initialized,
        guard.min_frames(rate) <= guard.target_frames <= guard.max_frames(rate),
        guard.observed(state, rate).target_frames < guard.target_frames,
    ensures
        guard.cooldown_observations == 0,
        guard.above_high_water(state, rate),
        guard.stable_observations + 1 >= guard.config.stable_observations_required,
        guard.target_frames - guard.observed(state, rate).target_frames <= guard.step_frames(rate),
        guard.observed(state, rate).stable_observations == 0,
{
}

/// After pressure the guard cools down for the configured number of calm
/// observations, one at a time.
pub proof fn cooldown_counts_calm_observations(
    guard: FluxGuard,
    state: RenderAheadState,
    rate: u32,
)
    requires
        guard.cooldown_observations > 0,
    ensures
        guard.pressure(state, rate) == FluxGuardDecisionReason::Cooldown ==> guard.observed(
            state,
            rate,
        ).cooldown_observations == guard.cooldown_observations - 1,
        guard.pressure(state, rate) != FluxGuardDecisionReason::Cooldown ==> guard.observed(
            state,
            rate,
        ).cooldown_observations == guard.config.cooldown_observations,
{
}

/// A guard aims for 80 milliseconds at first, and stays between 12 and 250 milliseconds,
/// counted in frames of the sample rate.
pub proof fn latency_is_kept_in_milliseconds(state: RenderAheadState, rate: u32)
    requires
        1_000 <= rate <= 1_000_000,
    ensures
        fresh_guard().base_target(rate) == rate * 80 / 1000,
        fresh_guard().min_frames(rate) == rate * 12 / 1000,
        fresh_guard().max_frames(rate) == rate * 250 / 1000,
        state.underrun_count == 0 && state.queue_error_count == 0 && state.largest_callback_frames
            * 4 <= rate * 80 / 1000 && rate * 80 / 1000 / 2 < state.current_buffered_frames < rate
            * 80 / 1000 ==> fresh_guard().observed(state, rate).target_frames == rate * 80 / 1000,
{
}

/// New pressure raises the target by a fixed time: 60 milliseconds for a queue error, 40 for
/// an underrun, and 20 where half of what should be queued is gone. It also starts a
/// cooldown of eight observations and ends a run of stable ones.
pub proof fn pressure_raises_the_target(guard: FluxGuard, state: RenderAheadState, rate: u32)
    requires
        1_000 <= rate <= 1_000_000,
        guard.config == fresh_guard().config,
        guard.initialized,
        rate * 12 / 1000 <= guard.target_frames <= rate * 150 / 1000,
        state.largest_callback_frames * 4 <= guard.target_frames,
        state.current_buffered_frames <= guard.target_frames,
    ensures
        state.queue_error_count > guard.last_queue_error_count ==> {
            let after = guard.observed(state, rate);
            &&& after.target_frames == guard.target_frames + rate * 60 / 1000
            &&& after.cooldown_observations == 8
            &&& after.stable_observations == 0
            &&& guard.pressure(state, rate) == FluxGuardDecisionReason::QueueErrorPressure
        },
        state.queue_error_count <= guard.last_queue_error_count && state.underrun_count
            > guard.last_underrun_count ==> {
            let after = guard.observed(state, rate);
            &&& after.target_frames == guard.target_frames + rate * 40 / 1000
            &&& after.cooldown_observations == 8
            &&& after.stable_observations == 0
            &&& guard.pressure(state, rate) == FluxGuardDecisionReason::UnderrunPressure
        },
        state.queue_error_count <= guard.last_queue_error_count && state.underrun_count
            <= guard.last_underrun_count && state.current_buffered_frames * 2
            <= guard.target_frames ==> {
            let after = guard.observed(state, rate);
            &&& after.target_frames == guard.target_frames + rate * 20 / 1000
            &&& after.cooldown_observations == 8
            &&& after.stable_observations == 0
            &&& guard.pressure(state, rate) == FluxGuardDecisionReason::LowWater
        },
        state.queue_error_count <= guard.last_queue_error_count && state.underrun_count
            <= guard.last_underrun_count && state.current_buffered_frames * 2
            > guard.target_frames + 1 ==> {
            let after = guard.observed(state, rate);
            &&& after.target_frames == guard.target_frames
            &&& guard.cooldown_observations > 0 ==> after.cooldown_observations
                == guard.cooldown_observations - 1 && after.stable_observations
                == guard.stable_observations
            &&& guard.cooldown_observations == 0 && state.current_buffered_frames
                < guard.target_frames ==> after.stable_observations == 0
        },
{
}

/// Without pressure and cooldown a queue that is full half again counts as stable. The
/// thirtieth such observation in a row lowers the target by 5 milliseconds, and none before
/// it does.
pub proof fn stable_runs_lower_the_target(guard: FluxGuard, state: RenderAheadState, rate: u32)
    requires
        1_000 <= rate <= 1_000_000,
        guard.config == fresh_guard().config,
        guard.initialized,
        guard.cooldown_observations == 0,
        rate * 20 / 1000 <= guard.target_frames <= rate * 250 / 1000,
        state.largest_callback_frames * 4 <= guard.target_frames,
        state.queue_error_count <= guard.last_queue_error_count,
        state.underrun_count <= guard.last_underrun_count,
        state.current_buffered_frames >= 2 * guard.target_frames,
    ensures
        guard.stable_observations < 29 ==> guard.observed(state, rate).target_frames
            == guard.target_frames && guard.observed(state, rate).stable_observations
            == guard.stable_observations + 1,
        29 <= guard.stable_observations < u32::MAX ==> guard.observed(state, rate).target_frames
            == guard.target_frames - rate * 5 / 1000 && guard.observed(
            state,
            rate,
        ).stable_observations == 0,
{
}

/// What the output is told: the new target, with half of it and half more as its marks; and
/// the guard remembers the counts of errors, so that the same errors are not punished twice.
pub proof fn decisions_tell_the_target(guard: FluxGuard, state: RenderAheadState, rate: u32)
    requires
        1_000 <= rate <= 1_000_000,
        guard.config == fresh_guard().config,
        guard.initialized ==> guard.target_frames <= rate * 250 / 1000,
    ensures
        ({
            let after = guard.observed(state, rate);
            let told = after.last_decision;
            &&& told.target.target_frames == after.target_frames
            &&& told.target.low_water_frames == after.target_frames / 2
            &&& told.target.high_water_frames == after.target_frames + after.target_frames / 2
            &&& told.state.effective_target_frames == after.target_frames
            &&& told.state.current_buffered_frames == state.current_buffered_frames
            &&& told.state.underrun_count == state.underrun_count
            &&& told.state.queue_error_count == state.queue_error_count
            &&& after.last_underrun_count == state.underrun_count
            &&& after.last_queue_error_count == state.queue_error_count
            &&& after.initialized
            &&& guard.initialized && after.target_frames != guard.target_frames ==> told.changed
            &&& after.snapshot_of().decision == told
            &&& after.pressure(state, rate) != FluxGuardDecisionReason::QueueErrorPressure
            &&& after.pressure(state, rate) != FluxGuardDecisionReason::UnderrunPressure
        }),
{
}

} // verus!
