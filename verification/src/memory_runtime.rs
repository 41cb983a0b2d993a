//! The memory runtime: one allocator arena for each domain of the program, their
//! upkeep at bounded rates, and the samples of memory use.
//!
//! The allocator itself is outside: the functions here decide what it is asked
//! to do and return that as actions.
use crate::json::{array_of, no_members, object_of, optional_text, quoted, truth};
use crate::json::{json_string_array, JsonArray, JsonObject};
use crate::numbers::monus;
use crate::parse::{parse_signed, parse_switch, parse_unsigned, signed_in, switch_in, unsigned_in};
use crate::text::{contains_text, decimal, push_decimal};
use crate::text::{push_signed_decimal, signed_decimal, texts};
use vstd::prelude::*;
use vstd::string::*;

verus! {

/// The least time between two decays of a domain, in nanoseconds.
pub const DECAY_RATE_LIMIT_NS: u128 = 250_000_000;

/// The least time between two purges of a domain, in nanoseconds.
pub const PURGE_RATE_LIMIT_NS: u128 = 2_000_000_000;

/// The number of domains.
pub const DOMAIN_COUNT: usize = 12;

/// A part of the program with memory of its own.
#[derive(Debug, Copy, Clone, PartialEq, Eq, Structural)]
pub enum MemoryDomain {
    App,
    Ui,
    PerfTrace,
    FileLoad,
    PlaybackLoad,
    AudioCallback,
    PlaybackRender,
    RenderStems,
    RenderMixer,
    RenderSnapshot,
    SoundFontDecode,
    AudioBackend,
}

/// The domain with a number.
pub open spec fn domain_at(index: int) -> Option<MemoryDomain> {
    if index == 0 {
        Some(MemoryDomain::App)
    } else if index == 1 {
        Some(MemoryDomain::Ui)
    } else if index == 2 {
        Some(MemoryDomain::PerfTrace)
    } else if index == 3 {
        Some(MemoryDomain::FileLoad)
    } else if index == 4 {
        Some(MemoryDomain::PlaybackLoad)
    } else if index == 5 {
        Some(MemoryDomain::AudioCallback)
    } else if index == 6 {
        Some(MemoryDomain::PlaybackRender)
    } else if index == 7 {
        Some(MemoryDomain::RenderStems)
    } else if index == 8 {
        Some(MemoryDomain::RenderMixer)
    } else if index == 9 {
        Some(MemoryDomain::RenderSnapshot)
    } else if index == 10 {
        Some(MemoryDomain::SoundFontDecode)
    } else if index == 11 {
        Some(MemoryDomain::AudioBackend)
    } else {
        None
    }
}

/// The domain with a number.
pub fn domain_from_index(index: usize) -> (domain: Option<MemoryDomain>)
    ensures
        domain == domain_at(index as int),
{
    match index {
        0 => Some(MemoryDomain::App),
        1 => Some(MemoryDomain::Ui),
        2 => Some(MemoryDomain::PerfTrace),
        3 => Some(MemoryDomain::FileLoad),
        4 => Some(MemoryDomain::PlaybackLoad),
        5 => Some(MemoryDomain::AudioCallback),
        6 => Some(MemoryDomain::PlaybackRender),
        7 => Some(MemoryDomain::RenderStems),
        8 => Some(MemoryDomain::RenderMixer),
        9 => Some(MemoryDomain::RenderSnapshot),
        10 => Some(MemoryDomain::SoundFontDecode),
        11 => Some(MemoryDomain::AudioBackend),
        _ => None,
    }
}

impl MemoryDomain {
    /// The number of the domain.
    pub open spec fn number(self) -> int {
        match self {
            MemoryDomain::App => 0,
            MemoryDomain::Ui => 1,
            MemoryDomain::PerfTrace => 2,
            MemoryDomain::FileLoad => 3,
            MemoryDomain::PlaybackLoad => 4,
            MemoryDomain::AudioCallback => 5,
            MemoryDomain::PlaybackRender => 6,
            MemoryDomain::RenderStems => 7,
            MemoryDomain::RenderMixer => 8,
            MemoryDomain::RenderSnapshot => 9,
            MemoryDomain::SoundFontDecode => 10,
            MemoryDomain::AudioBackend => 11,
        }
    }

    pub open spec fn text(self) -> Seq<char> {
        match self {
            MemoryDomain::App => "app"@,
            MemoryDomain::Ui => "ui"@,
            MemoryDomain::PerfTrace => "perf.trace"@,
            MemoryDomain::FileLoad => "file.load"@,
            MemoryDomain::PlaybackLoad => "playback.load"@,
            MemoryDomain::AudioCallback => "audio.callback"@,
            MemoryDomain::PlaybackRender => "playback.render"@,
            MemoryDomain::RenderStems => "render.stems"@,
            MemoryDomain::RenderMixer => "render.mixer"@,
            MemoryDomain::RenderSnapshot => "render.snapshot"@,
            MemoryDomain::SoundFontDecode => "soundfont.decode"@,
            MemoryDomain::AudioBackend => "audio.backend"@,
        }
    }

    /// Whether playback reuses the memory of the domain all the time.
    pub open spec fn is_reuse_critical(self) -> bool {
        self is AudioCallback || self is PlaybackRender || self is RenderStems || self is RenderMixer
            || self is AudioBackend
    }

    pub fn index(self) -> (index: usize)
        ensures
            index == self.number(),
            index < DOMAIN_COUNT,
    {
        match self {
            MemoryDomain::App => 0,
            MemoryDomain::Ui => 1,
            MemoryDomain::PerfTrace => 2,
            MemoryDomain::FileLoad => 3,
            MemoryDomain::PlaybackLoad => 4,
            MemoryDomain::AudioCallback => 5,
            MemoryDomain::PlaybackRender => 6,
            MemoryDomain::RenderStems => 7,
            MemoryDomain::RenderMixer => 8,
            MemoryDomain::RenderSnapshot => 9,
            MemoryDomain::SoundFontDecode => 10,
            MemoryDomain::AudioBackend => 11,
        }
    }

    pub fn label(self) -> (label: &'static str)
        ensures
            label@ == self.text(),
    {
        match self {
            MemoryDomain::App => "app",
            MemoryDomain::Ui => "ui",
            MemoryDomain::PerfTrace => "perf.trace",
            MemoryDomain::FileLoad => "file.load",
            MemoryDomain::PlaybackLoad => "playback.load",
            MemoryDomain::AudioCallback => "audio.callback",
            MemoryDomain::PlaybackRender => "playback.render",
            MemoryDomain::RenderStems => "render.stems",
            MemoryDomain::RenderMixer => "render.mixer",
            MemoryDomain::RenderSnapshot => "render.snapshot",
            MemoryDomain::SoundFontDecode => "soundfont.decode",
            MemoryDomain::AudioBackend => "audio.backend",
        }
    }

    pub fn reuse_critical(self) -> (critical: bool)
        ensures
            critical == self.is_reuse_critical(),
    {
        match self {
            MemoryDomain::AudioCallback => true,
            MemoryDomain::PlaybackRender => true,
            MemoryDomain::RenderStems => true,
            MemoryDomain::RenderMixer => true,
            MemoryDomain::AudioBackend => true,
            _ => false,
        }
    }
}

/// Domains and their numbers correspond one to one.
pub proof fn domain_numbers_are_inverse(domain: MemoryDomain, index: int)
    ensures
        domain_at(domain.number()) == Some(domain),
        0 <= domain.number() < DOMAIN_COUNT,
        match domain_at(index) {
            Some(found) => found.number() == index && 0 <= index < DOMAIN_COUNT,
            None => index < 0 || index >= DOMAIN_COUNT,
        },
{
}

/// The settings of the memory runtime.
#[derive(Debug)]
pub struct MemoryRuntimeConfig {
    pub debug_memory: bool,
    pub retain: bool,
    pub background_thread: bool,
    pub max_background_threads: usize,
    pub dirty_decay_ms: i64,
    pub muzzy_decay_ms: i64,
    pub hot_dirty_decay_ms: i64,
    pub hot_muzzy_decay_ms: i64,
    pub lg_extent_max_active_fit: Option<usize>,
    pub dss: Option<String>,
    pub idle_working_set_growth_bytes: u64,
}

/// The environment variables that set up the memory runtime, where they are set.
#[derive(Debug)]
pub struct MemoryEnvironment {
    pub retain: Option<String>,
    pub background_thread: Option<String>,
    pub max_background_threads: Option<String>,
    pub dirty_decay_ms: Option<String>,
    pub muzzy_decay_ms: Option<String>,
    pub hot_dirty_decay_ms: Option<String>,
    pub hot_muzzy_decay_ms: Option<String>,
    pub lg_extent_max_active_fit: Option<String>,
    pub dss: Option<String>,
    pub idle_working_set_growth_bytes: Option<String>,
}

/// A switch of the environment, or its default.
pub open spec fn bool_or(value: Option<Seq<char>>, default: bool) -> bool {
    match value {
        Some(text) => match switch_in(text) {
            Some(v) => v,
            None => default,
        },
        None => default,
    }
}

/// An unsigned number of the environment.
pub open spec fn number_in(value: Option<Seq<char>>, max: int) -> Option<int> {
    match value {
        Some(text) => unsigned_in(text, max),
        None => None,
    }
}

/// A signed number of the environment, or its default.
pub open spec fn signed_or(value: Option<Seq<char>>, default: int) -> int {
    match value {
        Some(text) => match signed_in(text, i64::MIN as int, i64::MAX as int) {
            Some(v) => v,
            None => default,
        },
        None => default,
    }
}

pub fn env_bool(value: &Option<String>, default: bool) -> (result: bool)
    ensures
        result == bool_or(optional_text(*value), default),
{
    match value {
        Some(text) => match parse_switch(text.as_str()) {
            Some(v) => v,
            None => default,
        },
        None => default,
    }
}

pub fn env_u64(value: &Option<String>, default: u64) -> (result: u64)
    ensures
        result == (match number_in(optional_text(*value), u64::MAX as int) {
            Some(v) => v,
            None => default as int,
        }),
{
    match value {
        Some(text) => match parse_unsigned(text.as_str(), u64::MAX) {
            Some(v) => v,
            None => default,
        },
        None => default,
    }
}

fn env_optional_usize(value: &Option<String>) -> (result: Option<usize>)
    ensures
        (match result {
            Some(v) => Some(v as int),
            None => None,
        }) == number_in(optional_text(*value), usize::MAX as int),
{
    match value {
        Some(text) => match parse_unsigned(text.as_str(), usize::MAX as u64) {
            Some(v) => Some(v as usize),
            None => None,
        },
        None => None,
    }
}

pub fn env_usize(value: &Option<String>, default: usize) -> (result: usize)
    ensures
        result == (match number_in(optional_text(*value), usize::MAX as int) {
            Some(v) => v,
            None => default as int,
        }),
{
    env_optional_usize(value).unwrap_or(default)
}

pub fn env_isize(value: &Option<String>, default: i64) -> (result: i64)
    ensures
        result == signed_or(optional_text(*value), default as int),
{
    match value {
        Some(text) => match parse_signed(text.as_str()) {
            Some(v) => v,
            None => default,
        },
        None => default,
    }
}

/// The text of a setting that may be left to the allocator.
pub open spec fn or_default(value: Option<Seq<char>>) -> Seq<char> {
    match value {
        Some(text) => text,
        None => "<default>"@,
    }
}

impl MemoryRuntimeConfig {
    /// The settings that the environment asks for, with defaults for what it
    /// does not set or sets to something unreadable.
    pub fn from_env(debug_memory: bool, environment: &MemoryEnvironment) -> (config: Self)
        ensures
            config.debug_memory == debug_memory,
            config.retain == bool_or(optional_text(environment.retain), true),
            config.background_thread == bool_or(
                optional_text(environment.background_thread),
                false,
            ),
            config.max_background_threads == (match number_in(
                optional_text(environment.max_background_threads),
                usize::MAX as int,
            ) {
                Some(v) => v,
                None => 2,
            }),
            config.dirty_decay_ms == signed_or(optional_text(environment.dirty_decay_ms), 30_000),
            config.muzzy_decay_ms == signed_or(optional_text(environment.muzzy_decay_ms), 30_000),
            config.hot_dirty_decay_ms == signed_or(
                optional_text(environment.hot_dirty_decay_ms),
                120_000,
            ),
            config.hot_muzzy_decay_ms == signed_or(
                optional_text(environment.hot_muzzy_decay_ms),
                120_000,
            ),
            (match config.lg_extent_max_active_fit {
                Some(v) => Some(v as int),
                None => None,
            }) == number_in(optional_text(environment.lg_extent_max_active_fit), usize::MAX as int),
            optional_text(config.dss) == (match optional_text(environment.dss) {
                Some(text) => if text.len() == 0 {
                    None
                } else {
                    Some(text)
                },
                None => None,
            }),
            config.idle_working_set_growth_bytes == (match number_in(
                optional_text(environment.idle_working_set_growth_bytes),
                u64::MAX as int,
            ) {
                Some(v) => v,
                None => 33_554_432,
            }),
    {
        let dss = match &environment.dss {
            Some(text) => if text.as_str().is_empty() {
                None
            } else {
                Some(text.clone())
            },
            None => None,
        };
        MemoryRuntimeConfig {
            debug_memory,
            retain: env_bool(&environment.retain, true),
            background_thread: env_bool(&environment.background_thread, false),
            max_background_threads: env_usize(&environment.max_background_threads, 2),
            dirty_decay_ms: env_isize(&environment.dirty_decay_ms, 30_000),
            muzzy_decay_ms: env_isize(&environment.muzzy_decay_ms, 30_000),
            hot_dirty_decay_ms: env_isize(&environment.hot_dirty_decay_ms, 120_000),
            hot_muzzy_decay_ms: env_isize(&environment.hot_muzzy_decay_ms, 120_000),
            lg_extent_max_active_fit: env_optional_usize(&environment.lg_extent_max_active_fit),
            dss,
            idle_working_set_growth_bytes: env_u64(
                &environment.idle_working_set_growth_bytes,
                33_554_432,
            ),
        }
    }

    /// The settings as one line.
    pub open spec fn line(&self) -> Seq<char> {
        "retain="@ + truth(self.retain) + " background_thread="@ + truth(self.background_thread)
            + " max_background_threads="@ + decimal(self.max_background_threads as nat)
            + " dirty_decay_ms="@ + signed_decimal(self.dirty_decay_ms as int)
            + " muzzy_decay_ms="@ + signed_decimal(self.muzzy_decay_ms as int)
            + " hot_dirty_decay_ms="@ + signed_decimal(self.hot_dirty_decay_ms as int)
            + " hot_muzzy_decay_ms="@ + signed_decimal(self.hot_muzzy_decay_ms as int)
            + " lg_extent_max_active_fit="@ + or_default(
            match self.lg_extent_max_active_fit {
                Some(v) => Some(decimal(v as nat)),
                None => None,
            },
        ) + " dss="@ + or_default(optional_text(self.dss)) + " idle_working_set_growth_bytes="@
            + decimal(self.idle_working_set_growth_bytes as nat)
    }

    pub fn summary(&self) -> (text: String)
        ensures
            text@ == self.line(),
    {
        let mut text = "retain=".to_owned();
        push_truth(&mut text, self.retain);
        text.append(" background_thread=");
        push_truth(&mut text, self.background_thread);
        text.append(" max_background_threads=");
        push_decimal(&mut text, self.max_background_threads as u128);
        text.append(" dirty_decay_ms=");
        push_signed_decimal(&mut text, self.dirty_decay_ms);
        text.append(" muzzy_decay_ms=");
        push_signed_decimal(&mut text, self.muzzy_decay_ms);
        text.append(" hot_dirty_decay_ms=");
        push_signed_decimal(&mut text, self.hot_dirty_decay_ms);
        text.append(" hot_muzzy_decay_ms=");
        push_signed_decimal(&mut text, self.hot_muzzy_decay_ms);
        text.append(" lg_extent_max_active_fit=");
        match self.lg_extent_max_active_fit {
            Some(v) => push_decimal(&mut text, v as u128),
            None => text.append("<default>"),
        }
        text.append(" dss=");
        match &self.dss {
            Some(dss) => text.append(dss.as_str()),
            None => text.append("<default>"),
        }
        text.append(" idle_working_set_growth_bytes=");
        push_decimal(&mut text, self.idle_working_set_growth_bytes as u128);
        text
    }
}

fn push_truth(text: &mut String, value: bool)
    ensures
        final(text)@ == old(text)@ + truth(value),
{
    if value {
        text.append("true");
    } else {
        text.append("false");
    }
}

/// What the allocator is asked to do.
#[derive(Debug, Copy, Clone, PartialEq, Eq, Structural)]
pub enum MemoryAction {
    /// Bind the current thread to an arena.
    Bind(usize),
    /// Let unused pages of an arena decay.
    Decay(usize),
    /// Give all unused pages of an arena back.
    Purge(usize),
}

/// Which upkeep is done.
#[derive(Debug, Copy, Clone, PartialEq, Eq, Structural)]
pub enum Upkeep {
    Decay,
    Purge,
}

/// The arena of a domain and what has happened to it.
#[derive(Debug, Copy, Clone, PartialEq, Eq, Structural)]
pub struct DomainRuntime {
    pub domain: MemoryDomain,
    pub arena: Option<usize>,
    pub dirty_decay_ms: i64,
    pub muzzy_decay_ms: i64,
    pub bind_count: u64,
    pub decay_count: u64,
    pub purge_count: u64,
    pub growth_events: u64,
    pub retained_floor_hits: u64,
    pub zero_growth_streak: u64,
}

/// When a domain was last kept up, in nanoseconds of a steady clock.
#[derive(Debug, Copy, Clone, PartialEq, Eq, Structural)]
pub struct MaintenancePoint {
    pub last_decay: Option<u128>,
    pub last_purge: Option<u128>,
}

/// Memory use as the allocator reports it.
#[derive(Debug, Copy, Clone, PartialEq, Eq, Structural)]
pub struct MemoryTotalsSnapshot {
    pub available: bool,
    pub allocated_bytes: usize,
    pub active_bytes: usize,
    pub resident_bytes: usize,
    pub retained_bytes: usize,
    pub mapped_bytes: usize,
    pub active_growth_bytes: i64,
    pub resident_growth_bytes: i64,
    pub retained_growth_bytes: i64,
    /// What was allocated since the sample before.
    pub allocated_since_bytes: usize,
    /// The nanoseconds since the sample before.
    pub allocated_since_ns: u128,
}

/// Memory use as the operating system reports it.
#[derive(Debug, Copy, Clone, PartialEq, Eq, Structural)]
pub struct OsMemorySnapshot {
    pub available: bool,
    pub working_set_bytes: u64,
    pub peak_working_set_bytes: u64,
    pub pagefile_bytes: u64,
    pub peak_pagefile_bytes: u64,
    pub page_fault_count: u32,
    pub working_set_growth_bytes: i64,
    pub pagefile_growth_bytes: i64,
    pub working_set_minus_jemalloc_resident_bytes: i64,
    pub pagefile_minus_jemalloc_active_bytes: i64,
}

/// A sample of memory use and its time.
#[derive(Debug, Copy, Clone, PartialEq, Eq, Structural)]
pub struct SamplePoint {
    pub at: u128,
    pub totals: MemoryTotalsSnapshot,
    pub os: OsMemorySnapshot,
}

/// The memory runtime.
#[derive(Debug)]
pub struct MemoryRuntime {
    pub enabled: bool,
    pub config: MemoryRuntimeConfig,
    pub domains: Vec<DomainRuntime>,
    pub points: Vec<MaintenancePoint>,
    pub errors: Vec<String>,
    pub previous_sample: Option<SamplePoint>,
}

/// The domains and their upkeep.
pub ghost struct Arenas {
    pub domains: Seq<DomainRuntime>,
    pub points: Seq<MaintenancePoint>,
}

/// `n + 1`, starting again at 0 behind the largest number.
pub open spec fn counted(n: u64) -> u64 {
    if n == u64::MAX {
        0
    } else {
        (n + 1) as u64
    }
}

/// Whether upkeep is due: it was never done, or long enough ago.
pub open spec fn is_due(last: Option<u128>, now: u128, limit: u128) -> bool {
    match last {
        None => true,
        Some(previous) => monus(now as int, previous as int) >= limit,
    }
}

impl MaintenancePoint {
    /// When a domain was last kept up in one way.
    pub open spec fn last(self, decay: bool) -> Option<u128> {
        if decay {
            self.last_decay
        } else {
            self.last_purge
        }
    }

    pub open spec fn with_last(self, decay: bool, now: u128) -> MaintenancePoint {
        if decay {
            MaintenancePoint { last_decay: Some(now), ..self }
        } else {
            MaintenancePoint { last_purge: Some(now), ..self }
        }
    }
}

/// A question whether upkeep of a domain may run, with the time that has to lie between
/// two runs.
pub ghost struct MaintenanceCall {
    pub domain: MemoryDomain,
    pub rate_limit: u128,
    pub decay: bool,
    pub now: u128,
}

impl MaintenanceCall {
    /// Whether the upkeep may run.
    pub open spec fn runs(self, points: Seq<MaintenancePoint>) -> bool {
        is_due(points[self.domain.number()].last(self.decay), self.now, self.rate_limit)
    }

    /// The points after the question: a run is noted, a refusal is not.
    pub open spec fn noted(self, points: Seq<MaintenancePoint>) -> Seq<MaintenancePoint> {
        if self.runs(points) {
            points.update(
                self.domain.number(),
                points[self.domain.number()].with_last(self.decay, self.now),
            )
        } else {
            points
        }
    }
}

/// The points of domains that were never kept up.
pub open spec fn no_points() -> Seq<MaintenancePoint> {
    Seq::new(
        DOMAIN_COUNT as nat,
        |i: int| MaintenancePoint { last_decay: None, last_purge: None },
    )
}

/// The points after questions in a row.
pub open spec fn points_after(calls: Seq<MaintenanceCall>) -> Seq<MaintenancePoint>
    decreases calls.len(),
{
    if calls.len() == 0 {
        no_points()
    } else {
        calls.last().noted(points_after(calls.drop_last()))
    }
}

/// The time of the last of some questions that was asked of one domain and one way of
/// upkeep, and was answered with yes.
pub open spec fn last_run(calls: Seq<MaintenanceCall>, domain: MemoryDomain, decay: bool) -> Option<
    u128,
>
    decreases calls.len(),
{
    if calls.len() == 0 {
        None
    } else if calls.last().domain == domain && calls.last().decay == decay && calls.last().runs(
        points_after(calls.drop_last()),
    ) {
        Some(calls.last().now)
    } else {
        last_run(calls.drop_last(), domain, decay)
    }
}

/// Whatever was asked before, upkeep may run exactly if it never ran on the domain in this
/// way, or if the limit has passed since it last did. Refusals, other domains and the other
/// way of upkeep do not count.
pub proof fn maintenance_waits_for_its_limit(calls: Seq<MaintenanceCall>, call: MaintenanceCall)
    ensures
        points_after(calls).len() == DOMAIN_COUNT,
        points_after(calls)[call.domain.number()].last(call.decay) == last_run(
            calls,
            call.domain,
            call.decay,
        ),
        call.runs(points_after(calls)) == (match last_run(calls, call.domain, call.decay) {
            None => true,
            Some(last) => monus(call.now as int, last as int) >= call.rate_limit,
        }),
    decreases calls.len(),
{
    if calls.len() > 0 {
        maintenance_waits_for_its_limit(calls.drop_last(), call);
        let last = calls.last();
        domain_numbers_are_inverse(last.domain, last.domain.number());
        domain_numbers_are_inverse(call.domain, call.domain.number());
    }
}

/// A refused question changes nothing, and a run is noted for its own domain and its own
/// way of upkeep alone.
pub proof fn maintenance_is_noted_where_it_runs(
    points: Seq<MaintenancePoint>,
    call: MaintenanceCall,
    domain: MemoryDomain,
    decay: bool,
)
    requires
        points.len() == DOMAIN_COUNT,
    ensures
        !call.runs(points) ==> call.noted(points) == points,
        call.noted(points)[domain.number()].last(decay) == if call.runs(points) && call.domain
            == domain && call.decay == decay {
            Some(call.now)
        } else {
            points[domain.number()].last(decay)
        },
{
    domain_numbers_are_inverse(domain, domain.number());
    domain_numbers_are_inverse(call.domain, call.domain.number());
}

impl Arenas {
    /// Each domain stands at its number.
    pub open spec fn wf(self) -> bool {
        &&& self.domains.len() == DOMAIN_COUNT
        &&& self.points.len() == DOMAIN_COUNT
        &&& forall|i: int|
            0 <= i < DOMAIN_COUNT ==> domain_at(i) == Some((#[trigger] self.domains[i]).domain)
    }

    /// Whether a domain is due for upkeep.
    pub open spec fn due(self, i: int, upkeep: Upkeep, now: u128) -> bool {
        match upkeep {
            Upkeep::Decay => is_due(self.points[i].last_decay, now, DECAY_RATE_LIMIT_NS),
            Upkeep::Purge => is_due(self.points[i].last_purge, now, PURGE_RATE_LIMIT_NS),
        }
    }

    /// The arenas after upkeep of one domain, if that was due.
    pub open spec fn kept_up(self, i: int, upkeep: Upkeep, now: u128) -> Arenas {
        let domain = self.domains[i];
        let point = self.points[i];
        if !self.due(i, upkeep, now) {
            self
        } else {
            match upkeep {
                Upkeep::Decay => Arenas {
                    domains: self.domains.update(
                        i,
                        DomainRuntime { decay_count: counted(domain.decay_count), ..domain },
                    ),
                    points: self.points.update(
                        i,
                        MaintenancePoint { last_decay: Some(now), ..point },
                    ),
                },
                Upkeep::Purge => Arenas {
                    domains: self.domains.update(
                        i,
                        DomainRuntime { purge_count: counted(domain.purge_count), ..domain },
                    ),
                    points: self.points.update(
                        i,
                        MaintenancePoint { last_purge: Some(now), ..point },
                    ),
                },
            }
        }
    }

    /// What the allocator is asked to do for upkeep of one domain.
    pub open spec fn action(self, i: int, upkeep: Upkeep, now: u128) -> Option<MemoryAction> {
        match self.domains[i].arena {
            Some(arena) => if self.due(i, upkeep, now) {
                Some(
                    match upkeep {
                        Upkeep::Decay => MemoryAction::Decay(arena),
                        Upkeep::Purge => MemoryAction::Purge(arena),
                    },
                )
            } else {
                None
            },
            None => None,
        }
    }

    /// Whether a round of upkeep takes in a domain.
    pub open spec fn takes_in(self, i: int, spare_critical: bool) -> bool {
        !(spare_critical && self.domains[i].domain.is_reuse_critical())
    }

    /// The arenas after a round of upkeep over the first `n` domains.
    pub open spec fn after_round(
        self,
        n: int,
        upkeep: Upkeep,
        spare_critical: bool,
        now: u128,
    ) -> Arenas
        decreases n,
    {
        if n <= 0 {
            self
        } else {
            let before = self.after_round(n - 1, upkeep, spare_critical, now);
            if before.takes_in(n - 1, spare_critical) {
                before.kept_up(n - 1, upkeep, now)
            } else {
                before
            }
        }
    }

    /// What the allocator is asked to do in a round of upkeep over the first `n`
    /// domains.
    pub open spec fn round_actions(
        self,
        n: int,
        upkeep: Upkeep,
        spare_critical: bool,
        now: u128,
    ) -> Seq<MemoryAction>
        decreases n,
    {
        if n <= 0 {
            Seq::empty()
        } else {
            let before = self.after_round(n - 1, upkeep, spare_critical, now);
            let actions = self.round_actions(n - 1, upkeep, spare_critical, now);
            if before.takes_in(n - 1, spare_critical) {
                match before.action(n - 1, upkeep, now) {
                    Some(action) => actions.push(action),
                    None => actions,
                }
            } else {
                actions
            }
        }
    }

    /// The arenas after a whole round of upkeep.
    pub open spec fn round(self, upkeep: Upkeep, spare_critical: bool, now: u128) -> Arenas {
        self.after_round(DOMAIN_COUNT as int, upkeep, spare_critical, now)
    }

    /// What the allocator is asked to do in a whole round of upkeep.
    pub open spec fn actions(self, upkeep: Upkeep, spare_critical: bool, now: u128) -> Seq<
        MemoryAction,
    > {
        self.round_actions(DOMAIN_COUNT as int, upkeep, spare_critical, now)
    }
}

/// How long freed pages of a domain are kept, longer where playback reuses them.
pub open spec fn decay_times(config: MemoryRuntimeConfig, domain: MemoryDomain) -> (i64, i64) {
    if domain.is_reuse_critical() {
        (config.hot_dirty_decay_ms, config.hot_muzzy_decay_ms)
    } else {
        (config.dirty_decay_ms, config.muzzy_decay_ms)
    }
}

pub fn decay_times_of(config: &MemoryRuntimeConfig, domain: MemoryDomain) -> (times: (i64, i64))
    ensures
        times == decay_times(*config, domain),
{
    if domain.reuse_critical() {
        (config.hot_dirty_decay_ms, config.hot_muzzy_decay_ms)
    } else {
        (config.dirty_decay_ms, config.muzzy_decay_ms)
    }
}

/// A domain to which nothing has happened yet.
pub open spec fn fresh_domain(
    config: MemoryRuntimeConfig,
    domain: MemoryDomain,
    arena: Option<usize>,
) -> DomainRuntime {
    DomainRuntime {
        domain,
        arena,
        dirty_decay_ms: decay_times(config, domain).0,
        muzzy_decay_ms: decay_times(config, domain).1,
        bind_count: 0,
        decay_count: 0,
        purge_count: 0,
        growth_events: 0,
        retained_floor_hits: 0,
        zero_growth_streak: 0,
    }
}

/// The errors that are known once one more came, which is noted once.
pub open spec fn with_error(known: Seq<Seq<char>>, error: Seq<char>) -> Seq<Seq<char>> {
    if known.contains(error) {
        known
    } else {
        known.push(error)
    }
}

/// The errors that are known once some more came.
pub open spec fn with_errors(known: Seq<Seq<char>>, errors: Seq<Seq<char>>) -> Seq<Seq<char>>
    decreases errors.len(),
{
    if errors.len() == 0 {
        known
    } else {
        with_error(with_errors(known, errors.drop_last()), errors.last())
    }
}

impl MemoryRuntime {
    pub open spec fn arenas(&self) -> Arenas {
        Arenas { domains: self.domains@, points: self.points@ }
    }

    /// Each domain stands at its number.
    pub open spec fn wf(&self) -> bool {
        self.arenas().wf()
    }

    /// The parts that upkeep leaves as they are.
    pub open spec fn same_but_arenas(&self, other: &MemoryRuntime) -> bool {
        &&& self.enabled == other.enabled
        &&& self.config == other.config
        &&& self.errors == other.errors
        &&& self.previous_sample == other.previous_sample
    }

    /// The parts that an error leaves as they are.
    pub open spec fn same_but_errors(&self, other: &MemoryRuntime) -> bool {
        &&& self.enabled == other.enabled
        &&& self.config == other.config
        &&& self.arenas() == other.arenas()
        &&& self.previous_sample == other.previous_sample
    }

    /// A runtime with the arenas that the allocator created, one for each domain
    /// where it could.
    pub fn new(
        config: MemoryRuntimeConfig,
        enabled: bool,
        arenas: &[Option<usize>],
        errors: Vec<String>,
    ) -> (runtime: MemoryRuntime)
        requires
            arenas@.len() == DOMAIN_COUNT,
        ensures
            runtime.wf(),
            runtime.enabled == enabled,
            runtime.config == config,
            runtime.errors == errors,
            runtime.previous_sample is None,
            runtime.arenas() == fresh_arenas(config, arenas@),
    {
        let mut domains: Vec<DomainRuntime> = Vec::new();
        let mut points: Vec<MaintenancePoint> = Vec::new();
        let mut i: usize = 0;
        while i < DOMAIN_COUNT
            invariant
                i <= DOMAIN_COUNT,
                arenas@.len() == DOMAIN_COUNT,
                domains@.len() == i,
                points@.len() == i,
                forall|k: int|
                    0 <= k < i ==> #[trigger] domains@[k] == fresh_domain(
                        config,
                        domain_at(k)->Some_0,
                        arenas@[k],
                    ),
                forall|k: int|
                    0 <= k < i ==> #[trigger] points@[k] == (MaintenancePoint {
                        last_decay: None,
                        last_purge: None,
                    }),
            decreases DOMAIN_COUNT - i,
        {
            match domain_from_index(i) {
                Some(domain) => {
                    let (dirty_decay_ms, muzzy_decay_ms) = decay_times_of(&config, domain);
                    domains.push(
                        DomainRuntime {
                            domain,
                            arena: arenas[i],
                            dirty_decay_ms,
                            muzzy_decay_ms,
                            bind_count: 0,
                            decay_count: 0,
                            purge_count: 0,
                            growth_events: 0,
                            retained_floor_hits: 0,
                            zero_growth_streak: 0,
                        },
                    );
                    points.push(MaintenancePoint { last_decay: None, last_purge: None });
                },
                None => {},
            }
            i = i + 1;
        }
        assert(domains@ =~= fresh_arenas(config, arenas@).domains);
        assert(points@ =~= no_points());
        MemoryRuntime { enabled, config, domains, points, errors, previous_sample: None }
    }

    /// Whether upkeep of a domain may run, which is then noted: it was never run, or long
    /// enough ago. `rate_limit` is in nanoseconds.
    pub fn should_run_maintenance(
        &mut self,
        domain: MemoryDomain,
        rate_limit: u128,
        decay: bool,
        now: u128,
    ) -> (runs: bool)
        requires
            old(self).wf(),
        ensures
            final(self).wf(),
            final(self).same_but_arenas(old(self)),
            final(self).domains == old(self).domains,
            ({
                let call = MaintenanceCall { domain, rate_limit, decay, now };
                &&& runs == call.runs(old(self).points@)
                &&& final(self).points@ == call.noted(old(self).points@)
            }),
    {
        let i: usize = domain.index();
        let point = self.points[i];
        let last = if decay {
            point.last_decay
        } else {
            point.last_purge
        };
        match last {
            Some(previous) => {
                let elapsed: u128 = if now >= previous {
                    now - previous
                } else {
                    0
                };
                if elapsed < rate_limit {
                    return false;
                }
            },
            None => {},
        }
        if decay {
            self.points[i] = MaintenancePoint { last_decay: Some(now), ..point };
        } else {
            self.points[i] = MaintenancePoint { last_purge: Some(now), ..point };
        }
        true
    }

    /// Keeps one domain up if that is due.
    fn keep_up(&mut self, i: usize, upkeep: Upkeep, now: u128) -> (action: Option<MemoryAction>)
        requires
            old(self).wf(),
            i < DOMAIN_COUNT,
        ensures
            final(self).wf(),
            final(self).same_but_arenas(old(self)),
            final(self).arenas() == old(self).arenas().kept_up(i as int, upkeep, now),
            action == old(self).arenas().action(i as int, upkeep, now),
    {
        let domain = self.domains[i];
        assert(domain_at(i as int) == Some(self.arenas().domains[i as int].domain));
        let runs = match upkeep {
            Upkeep::Decay => self.should_run_maintenance(
                domain.domain,
                DECAY_RATE_LIMIT_NS,
                true,
                now,
            ),
            Upkeep::Purge => self.should_run_maintenance(
                domain.domain,
                PURGE_RATE_LIMIT_NS,
                false,
                now,
            ),
        };
        if !runs {
            return None;
        }
        match upkeep {
            Upkeep::Decay => {
                self.domains[i] = DomainRuntime {
                    decay_count: domain.decay_count.wrapping_add(1),
                    ..domain
                };
            },
            Upkeep::Purge => {
                self.domains[i] = DomainRuntime {
                    purge_count: domain.purge_count.wrapping_add(1),
                    ..domain
                };
            },
        }
        assert(self.arenas().domains =~= old(self).arenas().kept_up(
            i as int,
            upkeep,
            now,
        ).domains);
        assert(self.arenas().points =~= old(self).arenas().kept_up(i as int, upkeep, now).points);
        match domain.arena {
            Some(arena) => Some(
                match upkeep {
                    Upkeep::Decay => MemoryAction::Decay(arena),
                    Upkeep::Purge => MemoryAction::Purge(arena),
                },
            ),
            None => None,
        }
    }

    /// Keeps every domain up that is due, except, if asked, those that playback
    /// reuses.
    fn keep_all_up(&mut self, upkeep: Upkeep, spare_critical: bool, now: u128) -> (actions: Vec<
        MemoryAction,
    >)
        requires
            old(self).wf(),
        ensures
            final(self).wf(),
            final(self).same_but_arenas(old(self)),
            final(self).arenas() == old(self).arenas().round(upkeep, spare_critical, now),
            actions@ == old(self).arenas().actions(upkeep, spare_critical, now),
    {
        let mut actions: Vec<MemoryAction> = Vec::new();
        let mut i: usize = 0;
        while i < DOMAIN_COUNT
            invariant
                i <= DOMAIN_COUNT,
                self.wf(),
                self.same_but_arenas(old(self)),
                self.arenas() == old(self).arenas().after_round(
                    i as int,
                    upkeep,
                    spare_critical,
                    now,
                ),
                actions@ == old(self).arenas().round_actions(
                    i as int,
                    upkeep,
                    spare_critical,
                    now,
                ),
            decreases DOMAIN_COUNT - i,
        {
            if !(spare_critical && self.domains[i].domain.reuse_critical()) {
                match self.keep_up(i, upkeep, now) {
                    Some(action) => {
                        actions.push(action);
                    },
                    None => {},
                }
            }
            i = i + 1;
        }
        actions
    }

    /// Lets the memory of a domain decay, no more often than the limit allows.
    pub fn decay_domain(&mut self, domain: MemoryDomain, now: u128) -> (action: Option<
        MemoryAction,
    >)
        requires
            old(self).wf(),
        ensures
            final(self).wf(),
            final(self).same_but_arenas(old(self)),
            final(self).arenas() == old(self).arenas().kept_up(
                domain.number(),
                Upkeep::Decay,
                now,
            ),
            action == old(self).arenas().action(domain.number(), Upkeep::Decay, now),
    {
        self.keep_up(domain.index(), Upkeep::Decay, now)
    }

    /// Gives the memory of a domain back, no more often than the limit allows.
    pub fn purge_domain(&mut self, domain: MemoryDomain, now: u128) -> (action: Option<
        MemoryAction,
    >)
        requires
            old(self).wf(),
        ensures
            final(self).wf(),
            final(self).same_but_arenas(old(self)),
            final(self).arenas() == old(self).arenas().kept_up(
                domain.number(),
                Upkeep::Purge,
                now,
            ),
            action == old(self).arenas().action(domain.number(), Upkeep::Purge, now),
    {
        self.keep_up(domain.index(), Upkeep::Purge, now)
    }

    /// Lets every domain decay; while playback is active, those that it reuses
    /// are spared.
    pub fn decay_idle_reuse_preserving(&mut self, playback_active: bool, now: u128) -> (actions: Vec<
        MemoryAction,
    >)
        requires
            old(self).wf(),
        ensures
            final(self).wf(),
            final(self).same_but_arenas(old(self)),
            final(self).arenas() == old(self).arenas().round(Upkeep::Decay, playback_active, now),
            actions@ == old(self).arenas().actions(Upkeep::Decay, playback_active, now),
    {
        self.keep_all_up(Upkeep::Decay, playback_active, now)
    }

    /// Lets every domain decay that playback does not reuse.
    pub fn decay_all_idle_domains(&mut self, now: u128) -> (actions: Vec<MemoryAction>)
        requires
            old(self).wf(),
        ensures
            final(self).wf(),
            final(self).same_but_arenas(old(self)),
            final(self).arenas() == old(self).arenas().round(Upkeep::Decay, true, now),
            actions@ == old(self).arenas().actions(Upkeep::Decay, true, now),
    {
        self.keep_all_up(Upkeep::Decay, true, now)
    }

    /// Relieves the system: while playback is active the other domains decay;
    /// otherwise all decay and all give their memory back.
    pub fn remediate_idle_os_pressure(&mut self, playback_active: bool, now: u128) -> (actions: Vec<
        MemoryAction,
    >)
        requires
            old(self).wf(),
        ensures
            final(self).wf(),
            final(self).same_but_arenas(old(self)),
            (final(self).arenas(), actions@) == old(self).arenas().relieved(playback_active, now),
    {
        if playback_active {
            return self.decay_all_idle_domains(now);
        }
        let mut actions = self.decay_idle_reuse_preserving(false, now);
        let mut purges = self.keep_all_up(Upkeep::Purge, false, now);
        actions.append(&mut purges);
        actions
    }

    /// Gives the memory of every domain back.
    pub fn aggressive_release(&mut self, now: u128) -> (actions: Vec<MemoryAction>)
        requires
            old(self).wf(),
        ensures
            final(self).wf(),
            final(self).same_but_arenas(old(self)),
            final(self).arenas() == old(self).arenas().round(Upkeep::Purge, false, now),
            actions@ == old(self).arenas().actions(Upkeep::Purge, false, now),
    {
        self.keep_all_up(Upkeep::Purge, false, now)
    }

    /// Notes an error of the allocator, once.
    pub fn push_error(&mut self, error: String)
        requires
            old(self).wf(),
        ensures
            final(self).wf(),
            final(self).same_but_errors(old(self)),
            texts(final(self).errors@) == with_error(texts(old(self).errors@), error@),
    {
        if !contains_text(&self.errors, error.as_str()) {
            let ghost before = self.errors@;
            self.errors.push(error);
            assert(texts(self.errors@) =~= texts(before).push(error@));
        }
    }

    /// Notes errors of the allocator, each once.
    pub fn push_errors(&mut self, errors: Vec<String>)
        requires
            old(self).wf(),
        ensures
            final(self).wf(),
            final(self).same_but_errors(old(self)),
            texts(final(self).errors@) == with_errors(texts(old(self).errors@), texts(errors@)),
    {
        let mut i: usize = 0;
        assert(texts(errors@).take(0) =~= Seq::<Seq<char>>::empty());
        while i < errors.len()
            invariant
                i <= errors@.len(),
                self.wf(),
                self.same_but_errors(old(self)),
                texts(self.errors@) == with_errors(
                    texts(old(self).errors@),
                    texts(errors@).take(i as int),
                ),
            decreases errors@.len() - i,
        {
            assert(texts(errors@).take(i + 1).drop_last() =~= texts(errors@).take(i as int));
            self.push_error(errors[i].clone());
            i = i + 1;
        }
        assert(texts(errors@).take(i as int) =~= texts(errors@));
    }
}

/// While playback is active, no domain that it reuses decays, gives memory back
/// or is counted as kept up.
pub proof fn playback_memory_is_spared(
    arenas: Arenas,
    n: int,
    upkeep: Upkeep,
    now: u128,
    i: int,
)
    requires
        arenas.wf(),
        0 <= n <= DOMAIN_COUNT,
        0 <= i < DOMAIN_COUNT,
        arenas.domains[i].domain.is_reuse_critical(),
    ensures
        arenas.after_round(n, upkeep, true, now).wf(),
        arenas.after_round(n, upkeep, true, now).domains[i] == arenas.domains[i],
        arenas.after_round(n, upkeep, true, now).points[i] == arenas.points[i],
    decreases n,
{
    if n > 0 {
        playback_memory_is_spared(arenas, n - 1, upkeep, now, i);
    }
}

/// Upkeep of a domain is not due again before the limit has passed.
pub proof fn upkeep_respects_its_limit(
    arenas: Arenas,
    i: int,
    upkeep: Upkeep,
    now: u128,
    later: u128,
)
    requires
        arenas.wf(),
        0 <= i < DOMAIN_COUNT,
        arenas.due(i, upkeep, now),
        now <= later,
        later - now < (if upkeep == Upkeep::Decay {
            DECAY_RATE_LIMIT_NS
        } else {
            PURGE_RATE_LIMIT_NS
        }),
    ensures
        !arenas.kept_up(i, upkeep, now).due(i, upkeep, later),
        arenas.kept_up(i, upkeep, now).kept_up(i, upkeep, later) == arenas.kept_up(i, upkeep, now),
        arenas.kept_up(i, upkeep, now).action(i, upkeep, later) is None,
{
}

/// Upkeep of one domain leaves every other domain as it is.
pub proof fn upkeep_is_local(arenas: Arenas, i: int, j: int, upkeep: Upkeep, now: u128)
    requires
        arenas.wf(),
        0 <= i < DOMAIN_COUNT,
        0 <= j < DOMAIN_COUNT,
        i != j,
    ensures
        arenas.kept_up(i, upkeep, now).domains[j] == arenas.domains[j],
        arenas.kept_up(i, upkeep, now).points[j] == arenas.points[j],
        arenas.kept_up(i, upkeep, now).wf(),
{
}

/// The domain that the current thread works for.
#[derive(Debug, Copy, Clone, PartialEq, Eq, Structural)]
pub struct ThreadDomain {
    pub current: usize,
}

/// The domain that a thread goes back to when a binding ends.
#[derive(Debug, Copy, Clone, PartialEq, Eq, Structural)]
pub struct MemoryThreadGuard {
    pub previous_domain: Option<MemoryDomain>,
}

impl ThreadDomain {
    /// The thread works for a domain, or for none.
    pub open spec fn wf(self) -> bool {
        self.current < DOMAIN_COUNT || self.current == usize::MAX
    }

    /// A thread that works for no domain.
    pub fn unbound() -> (thread: ThreadDomain)
        ensures
            thread.wf(),
            thread.current == usize::MAX,
    {
        ThreadDomain { current: usize::MAX }
    }

    /// Ends a binding: the thread goes back to the domain it had before.
    pub fn release(&mut self, guard: MemoryThreadGuard)
        ensures
            final(self).wf(),
            final(self).current == (match guard.previous_domain {
                Some(domain) => domain.number(),
                None => usize::MAX as int,
            }),
    {
        self.current = match guard.previous_domain {
            Some(domain) => domain.index(),
            None => usize::MAX,
        };
    }
}

/// Binding a thread and ending the binding leaves it with the domain it had.
pub proof fn release_restores_the_domain(thread: ThreadDomain)
    requires
        thread.wf(),
    ensures
        (match domain_at(thread.current as int) {
            Some(domain) => domain.number(),
            None => usize::MAX as int,
        }) == thread.current,
{
}

impl MemoryRuntime {
    /// Binds a thread to a domain, and to its arena if it has one.
    pub fn bind_current_thread(&mut self, thread: &mut ThreadDomain, domain: MemoryDomain) -> (
    binding: (MemoryThreadGuard, Option<MemoryAction>))
        requires
            old(self).wf(),
            old(thread).wf(),
        ensures
            final(self).wf(),
            final(self).same_but_arenas(old(self)),
            final(self).points@ == old(self).points@,
            final(self).domains@ == old(self).domains@.update(
                domain.number(),
                DomainRuntime {
                    bind_count: counted(old(self).domains@[domain.number()].bind_count),
                    ..old(self).domains@[domain.number()]
                },
            ),
            final(thread).wf(),
            final(thread).current == domain.number(),
            binding.0.previous_domain == domain_at(old(thread).current as int),
            binding.1 == (match old(self).domains@[domain.number()].arena {
                Some(arena) => Some(MemoryAction::Bind(arena)),
                None => None,
            }),
    {
        let guard = MemoryThreadGuard { previous_domain: domain_from_index(thread.current) };
        thread.current = domain.index();
        let i: usize = domain.index();
        let runtime = self.domains[i];
        self.domains[i] = DomainRuntime {
            bind_count: runtime.bind_count.wrapping_add(1),
            ..runtime
        };
        let action = match runtime.arena {
            Some(arena) => Some(MemoryAction::Bind(arena)),
            None => None,
        };
        (guard, action)
    }
}

/// Memory counts that a signed number can hold.
pub open spec fn totals_fit(totals: MemoryTotalsSnapshot) -> bool {
    &&& totals.active_bytes <= i64::MAX
    &&& totals.resident_bytes <= i64::MAX
    &&& totals.retained_bytes <= i64::MAX
}

/// Memory counts that a signed number can hold.
pub open spec fn os_fits(os: OsMemorySnapshot) -> bool {
    os.working_set_bytes <= i64::MAX && os.pagefile_bytes <= i64::MAX
}

/// The counters of the operating system.
#[derive(Debug, Copy, Clone, PartialEq, Eq, Structural)]
pub struct OsMemoryCounters {
    pub available: bool,
    pub working_set_bytes: u64,
    pub peak_working_set_bytes: u64,
    pub pagefile_bytes: u64,
    pub peak_pagefile_bytes: u64,
    pub page_fault_count: u32,
}

impl OsMemorySnapshot {
    /// The counters of the operating system beside what the allocator reports.
    pub fn from_counters(counters: OsMemoryCounters, totals: MemoryTotalsSnapshot) -> (os: Self)
        requires
            counters.working_set_bytes <= i64::MAX,
            counters.pagefile_bytes <= i64::MAX,
            totals_fit(totals),
        ensures
            os == (OsMemorySnapshot {
                available: counters.available,
                working_set_bytes: counters.working_set_bytes,
                peak_working_set_bytes: counters.peak_working_set_bytes,
                pagefile_bytes: counters.pagefile_bytes,
                peak_pagefile_bytes: counters.peak_pagefile_bytes,
                page_fault_count: counters.page_fault_count,
                working_set_growth_bytes: 0,
                pagefile_growth_bytes: 0,
                working_set_minus_jemalloc_resident_bytes: (counters.working_set_bytes
                    - totals.resident_bytes) as i64,
                pagefile_minus_jemalloc_active_bytes: (counters.pagefile_bytes
                    - totals.active_bytes) as i64,
            }),
            os_fits(os),
    {
        OsMemorySnapshot {
            available: counters.available,
            working_set_bytes: counters.working_set_bytes,
            peak_working_set_bytes: counters.peak_working_set_bytes,
            pagefile_bytes: counters.pagefile_bytes,
            peak_pagefile_bytes: counters.peak_pagefile_bytes,
            page_fault_count: counters.page_fault_count,
            working_set_growth_bytes: 0,
            pagefile_growth_bytes: 0,
            working_set_minus_jemalloc_resident_bytes: counters.working_set_bytes as i64
                - totals.resident_bytes as i64,
            pagefile_minus_jemalloc_active_bytes: counters.pagefile_bytes as i64
                - totals.active_bytes as i64,
        }
    }
}

/// The totals with their growth since a sample. The rate of allocation is what was
/// allocated since then, or nothing where less is allocated now, by the time that passed.
pub open spec fn grown_totals(
    totals: MemoryTotalsSnapshot,
    previous: MemoryTotalsSnapshot,
    nanoseconds: u128,
) -> MemoryTotalsSnapshot {
    MemoryTotalsSnapshot {
        allocated_since_bytes: monus(
            totals.allocated_bytes as int,
            previous.allocated_bytes as int,
        ) as usize,
        allocated_since_ns: nanoseconds,
        active_growth_bytes: (totals.active_bytes - previous.active_bytes) as i64,
        resident_growth_bytes: (totals.resident_bytes - previous.resident_bytes) as i64,
        retained_growth_bytes: (totals.retained_bytes - previous.retained_bytes) as i64,
        ..totals
    }
}

/// The counters of the operating system with their growth since a sample.
pub open spec fn grown_os(os: OsMemorySnapshot, previous: OsMemorySnapshot) -> OsMemorySnapshot {
    OsMemorySnapshot {
        working_set_growth_bytes: (os.working_set_bytes - previous.working_set_bytes) as i64,
        pagefile_growth_bytes: (os.pagefile_bytes - previous.pagefile_bytes) as i64,
        ..os
    }
}

/// Whether time has passed since a sample.
pub open spec fn passes(previous: Option<SamplePoint>, now: u128) -> bool {
    previous is Some && now > previous->Some_0.at
}

/// What a sample shows: its counts and, if time has passed since the sample before, their
/// growth.
pub open spec fn shown_sample(
    previous: Option<SamplePoint>,
    totals: MemoryTotalsSnapshot,
    os: OsMemorySnapshot,
    now: u128,
) -> (MemoryTotalsSnapshot, OsMemorySnapshot) {
    if passes(previous, now) {
        (
            grown_totals(totals, previous->Some_0.totals, (now - previous->Some_0.at) as u128),
            grown_os(os, previous->Some_0.os),
        )
    } else {
        (totals, os)
    }
}

/// Counts as they are read, which show no growth yet.
pub open spec fn is_raw(totals: MemoryTotalsSnapshot, os: OsMemorySnapshot) -> bool {
    &&& totals.active_growth_bytes == 0
    &&& totals.resident_growth_bytes == 0
    &&& totals.retained_growth_bytes == 0
    &&& totals.allocated_since_bytes == 0
    &&& totals.allocated_since_ns == 0
    &&& os.working_set_growth_bytes == 0
    &&& os.pagefile_growth_bytes == 0
}

/// Of two samples in a row the first of a runtime shows no growth, and a second that comes
/// later shows the difference of what was read, below zero where it shrank. Its rate of
/// allocation is the difference of what was allocated, or nothing where that shrank, by the
/// time between the two.
pub proof fn growth_is_the_difference_between_samples(
    totals: MemoryTotalsSnapshot,
    os: OsMemorySnapshot,
    now: u128,
    later_totals: MemoryTotalsSnapshot,
    later_os: OsMemorySnapshot,
    later: u128,
)
    requires
        is_raw(totals, os),
        totals_fit(totals),
        os_fits(os),
        totals_fit(later_totals),
        os_fits(later_os),
        now < later,
    ensures
        ({
            let (t0, o0) = shown_sample(None, totals, os, now);
            let point = SamplePoint { at: now, totals: t0, os: o0 };
            let (t1, o1) = shown_sample(Some(point), later_totals, later_os, later);
            &&& is_raw(t0, o0)
            &&& t1.active_growth_bytes == later_totals.active_bytes - totals.active_bytes
            &&& t1.resident_growth_bytes == later_totals.resident_bytes - totals.resident_bytes
            &&& t1.retained_growth_bytes == later_totals.retained_bytes - totals.retained_bytes
            &&& o1.working_set_growth_bytes == later_os.working_set_bytes - os.working_set_bytes
            &&& o1.pagefile_growth_bytes == later_os.pagefile_bytes - os.pagefile_bytes
            &&& t1.allocated_since_bytes == monus(
                later_totals.allocated_bytes as int,
                totals.allocated_bytes as int,
            )
            &&& t1.allocated_since_ns == later - now
            &&& t1.active_bytes == later_totals.active_bytes
            &&& t1.resident_bytes == later_totals.resident_bytes
            &&& t1.retained_bytes == later_totals.retained_bytes
            &&& o1.working_set_bytes == later_os.working_set_bytes
            &&& o1.pagefile_bytes == later_os.pagefile_bytes
        }),
{
}

/// The same of any two samples in a row, whatever came before them.
pub proof fn growth_counts_from_the_last_sample(
    previous: Option<SamplePoint>,
    totals: MemoryTotalsSnapshot,
    os: OsMemorySnapshot,
    now: u128,
    later_totals: MemoryTotalsSnapshot,
    later_os: OsMemorySnapshot,
    later: u128,
)
    requires
        totals_fit(totals),
        os_fits(os),
        totals_fit(later_totals),
        os_fits(later_os),
        now < later,
    ensures
        ({
            let (t0, o0) = shown_sample(previous, totals, os, now);
            let point = SamplePoint { at: now, totals: t0, os: o0 };
            let (t1, o1) = shown_sample(Some(point), later_totals, later_os, later);
            &&& t1.active_growth_bytes == later_totals.active_bytes - totals.active_bytes
            &&& t1.resident_growth_bytes == later_totals.resident_bytes - totals.resident_bytes
            &&& t1.retained_growth_bytes == later_totals.retained_bytes - totals.retained_bytes
            &&& o1.working_set_growth_bytes == later_os.working_set_bytes - os.working_set_bytes
            &&& o1.pagefile_growth_bytes == later_os.pagefile_bytes - os.pagefile_bytes
            &&& t1.allocated_since_bytes == monus(
                later_totals.allocated_bytes as int,
                totals.allocated_bytes as int,
            )
            &&& t1.allocated_since_ns == later - now
        }),
{
}

/// A domain with one more sample: growth of retained memory, or its absence, is
/// counted for the domains that playback reuses.
pub open spec fn with_growth(domain: DomainRuntime, retained_growth_bytes: i64) -> DomainRuntime {
    if !domain.domain.is_reuse_critical() {
        domain
    } else if retained_growth_bytes > 0 {
        DomainRuntime {
            growth_events: counted(domain.growth_events),
            zero_growth_streak: 0,
            ..domain
        }
    } else {
        DomainRuntime {
            retained_floor_hits: counted(domain.retained_floor_hits),
            zero_growth_streak: counted(domain.zero_growth_streak),
            ..domain
        }
    }
}

/// The number whose 64 bits, read as a signed number, are those of `n`.
pub open spec fn as_signed(n: u64) -> int {
    if n <= i64::MAX {
        n as int
    } else {
        n - u64::MAX - 1
    }
}

/// Whether the working set grew by no more than the settings allow.
pub open spec fn is_pressure_safe(config: MemoryRuntimeConfig, os: OsMemorySnapshot) -> bool {
    os.working_set_growth_bytes <= as_signed(config.idle_working_set_growth_bytes)
}

/// A domain after samples in a row.
pub open spec fn with_growths(domain: DomainRuntime, growths: Seq<i64>) -> DomainRuntime
    decreases growths.len(),
{
    if growths.len() == 0 {
        domain
    } else {
        with_growth(with_growths(domain, growths.drop_last()), growths.last())
    }
}

/// How many samples show growth.
pub open spec fn growing(growths: Seq<i64>) -> nat
    decreases growths.len(),
{
    if growths.len() == 0 {
        0
    } else {
        growing(growths.drop_last()) + if growths.last() > 0 {
            1nat
        } else {
            0nat
        }
    }
}

/// How many samples at the end show no growth.
pub open spec fn calm_at_the_end(growths: Seq<i64>) -> nat
    decreases growths.len(),
{
    if growths.len() == 0 || growths.last() > 0 {
        0
    } else {
        calm_at_the_end(growths.drop_last()) + 1
    }
}

/// The samples at the end that show no growth are the longest run there: all of them show
/// none, and the one before them does.
pub proof fn calm_run_is_the_longest(growths: Seq<i64>)
    ensures
        calm_at_the_end(growths) <= growths.len(),
        forall|i: int|
            growths.len() - calm_at_the_end(growths) <= i < growths.len() ==> #[trigger] growths[i]
                <= 0,
        calm_at_the_end(growths) < growths.len() ==> growths[growths.len() - calm_at_the_end(
            growths,
        ) - 1] > 0,
    decreases growths.len(),
{
    if growths.len() > 0 && growths.last() <= 0 {
        let shorter = growths.drop_last();
        calm_run_is_the_longest(shorter);
        assert forall|i: int|
            growths.len() - calm_at_the_end(growths) <= i
                < growths.len() implies #[trigger] growths[i] <= 0 by {
            if i < shorter.len() {
                assert(shorter[i] <= 0);
            }
        }
        if calm_at_the_end(growths) < growths.len() {
            assert(shorter[shorter.len() - calm_at_the_end(shorter) - 1] > 0);
        }
    }
}

/// After samples in a row a new domain that playback reuses has counted the samples with
/// growth and those without, which are all of them, and its streak is the run without
/// growth at the end. Another domain has counted none.
pub proof fn growth_is_counted_sample_by_sample(
    config: MemoryRuntimeConfig,
    domain: MemoryDomain,
    arena: Option<usize>,
    growths: Seq<i64>,
)
    requires
        growths.len() <= u64::MAX,
    ensures
        ({
            let fresh = fresh_domain(config, domain, arena);
            let after = with_growths(fresh, growths);
            if domain.is_reuse_critical() {
                &&& after.growth_events == growing(growths)
                &&& after.growth_events + after.retained_floor_hits == growths.len()
                &&& after.zero_growth_streak == calm_at_the_end(growths)
                &&& after == (DomainRuntime {
                    growth_events: after.growth_events,
                    retained_floor_hits: after.retained_floor_hits,
                    zero_growth_streak: after.zero_growth_streak,
                    ..fresh
                })
            } else {
                &&& after == fresh
                &&& after.growth_events == 0
                &&& after.retained_floor_hits == 0
                &&& after.zero_growth_streak == 0
            }
        }),
    decreases growths.len(),
{
    calm_run_is_the_longest(growths);
    if growths.len() > 0 {
        calm_run_is_the_longest(growths.drop_last());
        growth_is_counted_sample_by_sample(config, domain, arena, growths.drop_last());
    }
}

impl Arenas {
    /// The arenas when the system was relieved of the memory that can be spared, and what
    /// was asked of the allocator: while playback goes on only what it does not reuse
    /// decays, otherwise everything decays and is given back.
    pub open spec fn relieved(self, playback_active: bool, now: u128) -> (
        Arenas,
        Seq<MemoryAction>,
    ) {
        if playback_active {
            (
                self.round(Upkeep::Decay, true, now),
                self.actions(Upkeep::Decay, true, now),
            )
        } else {
            let decayed = self.round(Upkeep::Decay, false, now);
            (
                decayed.round(Upkeep::Purge, false, now),
                self.actions(Upkeep::Decay, false, now) + decayed.actions(
                    Upkeep::Purge,
                    false,
                    now,
                ),
            )
        }
    }

    /// The arenas after samples of retained memory in a row.
    pub open spec fn with_samples(self, growths: Seq<i64>) -> Arenas
        decreases growths.len(),
    {
        if growths.len() == 0 {
            self
        } else {
            self.with_samples(growths.drop_last()).with_sample(growths.last())
        }
    }
}

/// Each domain of the arenas counts the samples by itself.
pub proof fn samples_reach_every_domain(arenas: Arenas, growths: Seq<i64>, i: int)
    requires
        0 <= i < arenas.domains.len(),
    ensures
        arenas.with_samples(growths).domains.len() == arenas.domains.len(),
        arenas.with_samples(growths).domains[i] == with_growths(arenas.domains[i], growths),
        arenas.with_samples(growths).points == arenas.points,
    decreases growths.len(),
{
    if growths.len() > 0 {
        samples_reach_every_domain(arenas, growths.drop_last(), i);
    }
}

/// The arenas of a new runtime.
pub open spec fn fresh_arenas(config: MemoryRuntimeConfig, arenas: Seq<Option<usize>>) -> Arenas {
    Arenas {
        domains: Seq::new(
            DOMAIN_COUNT as nat,
            |i: int| fresh_domain(config, domain_at(i)->Some_0, arenas[i]),
        ),
        points: no_points(),
    }
}

/// A new runtime that was given samples and nothing else has counted, for each domain that
/// playback reuses, the samples with growth and those without, and its streak is the run
/// without growth at the end. For every other domain it has counted none.
pub proof fn a_new_runtime_counts_its_samples(
    config: MemoryRuntimeConfig,
    arenas: Seq<Option<usize>>,
    growths: Seq<i64>,
    domain: MemoryDomain,
)
    requires
        growths.len() <= u64::MAX,
    ensures
        ({
            let after = fresh_arenas(config, arenas).with_samples(growths).domains[domain.number()];
            if domain.is_reuse_critical() {
                &&& after.growth_events == growing(growths)
                &&& after.retained_floor_hits == growths.len() - growing(growths)
                &&& after.zero_growth_streak == calm_at_the_end(growths)
            } else {
                &&& after.growth_events == 0
                &&& after.retained_floor_hits == 0
                &&& after.zero_growth_streak == 0
            }
        }),
{
    domain_numbers_are_inverse(domain, domain.number());
    samples_reach_every_domain(fresh_arenas(config, arenas), growths, domain.number());
    growth_is_counted_sample_by_sample(config, domain, arenas[domain.number()], growths);
}

impl Arenas {
    /// The arenas with one more sample of retained memory.
    pub open spec fn with_sample(self, retained_growth_bytes: i64) -> Arenas {
        Arenas {
            domains: self.domains.map_values(
                |domain: DomainRuntime| with_growth(domain, retained_growth_bytes),
            ),
            points: self.points,
        }
    }
}

impl MemoryRuntime {
    /// The last sample, if there is one, holds counts that fit.
    pub open spec fn sample_fits(&self) -> bool {
        match self.previous_sample {
            Some(sample) => totals_fit(sample.totals) && os_fits(sample.os),
            None => true,
        }
    }

    /// Whether `after` is the runtime with a sample of memory use, which shows the given
    /// totals and counters and asks for the given actions. Against the sample before, if
    /// time has passed, it shows growth.
    pub open spec fn sampled_as(
        &self,
        totals: MemoryTotalsSnapshot,
        os: OsMemorySnapshot,
        now: u128,
        after: MemoryRuntime,
        sample: (MemoryTotalsSnapshot, OsMemorySnapshot, Seq<MemoryAction>),
    ) -> bool {
        &&& after.enabled == self.enabled
        &&& after.config == self.config
        &&& (sample.0, sample.1) == shown_sample(self.previous_sample, totals, os, now)
        &&& after.previous_sample == Some(SamplePoint { at: now, totals: sample.0, os: sample.1 })
        &&& if passes(self.previous_sample, now) {
            let grown = self.arenas().with_sample(sample.0.retained_growth_bytes);
            if is_pressure_safe(self.config, sample.1) {
                after.arenas() == grown && sample.2 == Seq::<MemoryAction>::empty()
            } else {
                after.arenas() == grown.round(Upkeep::Purge, true, now) && sample.2
                    == grown.actions(Upkeep::Purge, true, now)
            }
        } else {
            after.arenas() == self.arenas() && sample.2 == Seq::<MemoryAction>::empty()
        }
    }

    /// Counts a sample of retained memory for the domains that playback reuses.
    pub fn record_growth(&mut self, retained_growth_bytes: i64)
        requires
            old(self).wf(),
        ensures
            final(self).wf(),
            final(self).same_but_arenas(old(self)),
            final(self).arenas() == old(self).arenas().with_sample(retained_growth_bytes),
    {
        let ghost before = self.domains@;
        let ghost want = self.arenas().with_sample(retained_growth_bytes).domains;
        let mut i: usize = 0;
        while i < DOMAIN_COUNT
            invariant
                i <= DOMAIN_COUNT,
                before.len() == DOMAIN_COUNT,
                self.domains@.len() == DOMAIN_COUNT,
                self.points == old(self).points,
                self.same_but_arenas(old(self)),
                want == before.map_values(
                    |domain: DomainRuntime| with_growth(domain, retained_growth_bytes),
                ),
                forall|k: int| 0 <= k < i ==> #[trigger] self.domains@[k] == want[k],
                forall|k: int| i <= k < DOMAIN_COUNT ==> #[trigger] self.domains@[k] == before[k],
            decreases DOMAIN_COUNT - i,
        {
            let domain = self.domains[i];
            if domain.domain.reuse_critical() {
                if retained_growth_bytes > 0 {
                    self.domains[i] = DomainRuntime {
                        growth_events: domain.growth_events.wrapping_add(1),
                        zero_growth_streak: 0,
                        ..domain
                    };
                } else {
                    self.domains[i] = DomainRuntime {
                        retained_floor_hits: domain.retained_floor_hits.wrapping_add(1),
                        zero_growth_streak: domain.zero_growth_streak.wrapping_add(1),
                        ..domain
                    };
                }
            }
            i = i + 1;
        }
        assert(self.domains@ =~= want);
    }

    fn is_playback_pressure_safe(&self, os: OsMemorySnapshot) -> (safe: bool)
        ensures
            safe == is_pressure_safe(self.config, os),
    {
        let limit: u64 = self.config.idle_working_set_growth_bytes;
        if limit <= i64::MAX as u64 {
            os.working_set_growth_bytes <= limit as i64
        } else {
            os.working_set_growth_bytes <= -((u64::MAX - limit) as i64) - 1
        }
    }

    /// Takes a sample of memory use. Against the sample before it shows growth,
    /// and where the working set grew too much, the domains that playback does
    /// not reuse give their memory back.
    pub fn record_sample(
        &mut self,
        totals: MemoryTotalsSnapshot,
        os: OsMemorySnapshot,
        now: u128,
    ) -> (sample: (MemoryTotalsSnapshot, OsMemorySnapshot, Vec<MemoryAction>))
        requires
            old(self).wf(),
            old(self).sample_fits(),
            totals_fit(totals),
            os_fits(os),
        ensures
            final(self).wf(),
            final(self).sample_fits(),
            old(self).sampled_as(totals, os, now, *final(self), (sample.0, sample.1, sample.2@)),
            final(self).errors == old(self).errors,
    {
        let mut totals = totals;
        let mut os = os;
        let mut actions: Vec<MemoryAction> = Vec::new();
        match self.previous_sample {
            Some(previous) => {
                if now > previous.at {
                    totals.allocated_since_bytes = totals.allocated_bytes.saturating_sub(
                        previous.totals.allocated_bytes,
                    );
                    totals.allocated_since_ns = now - previous.at;
                    totals.active_growth_bytes = totals.active_bytes as i64
                        - previous.totals.active_bytes as i64;
                    totals.resident_growth_bytes = totals.resident_bytes as i64
                        - previous.totals.resident_bytes as i64;
                    totals.retained_growth_bytes = totals.retained_bytes as i64
                        - previous.totals.retained_bytes as i64;
                    os.working_set_growth_bytes = os.working_set_bytes as i64
                        - previous.os.working_set_bytes as i64;
                    os.pagefile_growth_bytes = os.pagefile_bytes as i64
                        - previous.os.pagefile_bytes as i64;
                    self.record_growth(totals.retained_growth_bytes);
                    if !self.is_playback_pressure_safe(os) {
                        actions = self.keep_all_up(Upkeep::Purge, true, now);
                    }
                }
            },
            None => {},
        }
        self.previous_sample = Some(SamplePoint { at: now, totals, os });
        (totals, os, actions)
    }
}

/// What is shown of a domain.
#[derive(Debug)]
pub struct MemoryDomainSnapshot {
    pub name: &'static str,
    pub arena: Option<usize>,
    pub reuse_critical: bool,
    pub dirty_decay_ms: i64,
    pub muzzy_decay_ms: i64,
    pub bind_count: u64,
    pub decay_count: u64,
    pub purge_count: u64,
    pub growth_events: u64,
    pub retained_floor_hits: u64,
    pub zero_growth_streak: u64,
}

impl MemoryDomainSnapshot {
    /// The snapshot shows the domain.
    pub open spec fn shows(&self, domain: DomainRuntime) -> bool {
        &&& self.name@ == domain.domain.text()
        &&& self.arena == domain.arena
        &&& self.reuse_critical == domain.domain.is_reuse_critical()
        &&& self.dirty_decay_ms == domain.dirty_decay_ms
        &&& self.muzzy_decay_ms == domain.muzzy_decay_ms
        &&& self.bind_count == domain.bind_count
        &&& self.decay_count == domain.decay_count
        &&& self.purge_count == domain.purge_count
        &&& self.growth_events == domain.growth_events
        &&& self.retained_floor_hits == domain.retained_floor_hits
        &&& self.zero_growth_streak == domain.zero_growth_streak
    }
}

impl DomainRuntime {
    pub fn snapshot(&self) -> (snapshot: MemoryDomainSnapshot)
        ensures
            snapshot.shows(*self),
    {
        MemoryDomainSnapshot {
            name: self.domain.label(),
            arena: self.arena,
            reuse_critical: self.domain.reuse_critical(),
            dirty_decay_ms: self.dirty_decay_ms,
            muzzy_decay_ms: self.muzzy_decay_ms,
            bind_count: self.bind_count,
            decay_count: self.decay_count,
            purge_count: self.purge_count,
            growth_events: self.growth_events,
            retained_floor_hits: self.retained_floor_hits,
            zero_growth_streak: self.zero_growth_streak,
        }
    }
}

/// The JSON of a domain.
pub open spec fn domain_object(domain: MemoryDomainSnapshot) -> Seq<char> {
    object_of(
        no_members()
            .push(("name"@, quoted(domain.name@)))
            .push((
                "arena"@,
                match domain.arena {
                    Some(arena) => decimal(arena as nat),
                    None => "null"@,
                },
            ))
            .push(("reuse_critical"@, truth(domain.reuse_critical)))
            .push(("dirty_decay_ms"@, signed_decimal(domain.dirty_decay_ms as int)))
            .push(("muzzy_decay_ms"@, signed_decimal(domain.muzzy_decay_ms as int)))
            .push(("bind_count"@, decimal(domain.bind_count as nat)))
            .push(("decay_count"@, decimal(domain.decay_count as nat)))
            .push(("purge_count"@, decimal(domain.purge_count as nat)))
            .push(("growth_events"@, decimal(domain.growth_events as nat)))
            .push(("retained_floor_hits"@, decimal(domain.retained_floor_hits as nat)))
            .push(("zero_growth_streak"@, decimal(domain.zero_growth_streak as nat))),
    )
}

pub fn domain_json(domain: &MemoryDomainSnapshot) -> (text: String)
    ensures
        text@ == domain_object(*domain),
{
    let mut object = JsonObject::new();
    object.string("name", domain.name);
    match domain.arena {
        Some(arena) => object.number("arena", arena as u128),
        None => object.raw("arena", "null"),
    }
    object.boolean("reuse_critical", domain.reuse_critical);
    object.signed("dirty_decay_ms", domain.dirty_decay_ms);
    object.signed("muzzy_decay_ms", domain.muzzy_decay_ms);
    object.number("bind_count", domain.bind_count as u128);
    object.number("decay_count", domain.decay_count as u128);
    object.number("purge_count", domain.purge_count as u128);
    object.number("growth_events", domain.growth_events as u128);
    object.number("retained_floor_hits", domain.retained_floor_hits as u128);
    object.number("zero_growth_streak", domain.zero_growth_streak as u128);
    object.finish()
}

/// The JSON of the totals. The allocation rate is a number with three decimals.
pub open spec fn totals_object(totals: MemoryTotalsSnapshot, rate: Seq<char>) -> Seq<char> {
    object_of(
        no_members()
            .push(("available"@, truth(totals.available)))
            .push(("allocated_bytes"@, decimal(totals.allocated_bytes as nat)))
            .push(("active_bytes"@, decimal(totals.active_bytes as nat)))
            .push(("resident_bytes"@, decimal(totals.resident_bytes as nat)))
            .push(("retained_bytes"@, decimal(totals.retained_bytes as nat)))
            .push(("mapped_bytes"@, decimal(totals.mapped_bytes as nat)))
            .push(("allocated_bytes_per_sec"@, rate))
            .push(("active_growth_bytes"@, signed_decimal(totals.active_growth_bytes as int)))
            .push(("resident_growth_bytes"@, signed_decimal(totals.resident_growth_bytes as int)))
            .push(("retained_growth_bytes"@, signed_decimal(totals.retained_growth_bytes as int))),
    )
}

pub fn totals_json(totals: &MemoryTotalsSnapshot, rate: &str) -> (text: String)
    ensures
        text@ == totals_object(*totals, rate@),
{
    let mut object = JsonObject::new();
    object.boolean("available", totals.available);
    object.number("allocated_bytes", totals.allocated_bytes as u128);
    object.number("active_bytes", totals.active_bytes as u128);
    object.number("resident_bytes", totals.resident_bytes as u128);
    object.number("retained_bytes", totals.retained_bytes as u128);
    object.number("mapped_bytes", totals.mapped_bytes as u128);
    object.raw("allocated_bytes_per_sec", rate);
    object.signed("active_growth_bytes", totals.active_growth_bytes);
    object.signed("resident_growth_bytes", totals.resident_growth_bytes);
    object.signed("retained_growth_bytes", totals.retained_growth_bytes);
    object.finish()
}

/// The JSON of the counters of the operating system.
pub open spec fn os_object(os: OsMemorySnapshot) -> Seq<char> {
    object_of(
        no_members()
            .push(("available"@, truth(os.available)))
            .push(("working_set_bytes"@, decimal(os.working_set_bytes as nat)))
            .push(("peak_working_set_bytes"@, decimal(os.peak_working_set_bytes as nat)))
            .push(("pagefile_bytes"@, decimal(os.pagefile_bytes as nat)))
            .push(("peak_pagefile_bytes"@, decimal(os.peak_pagefile_bytes as nat)))
            .push(("page_fault_count"@, decimal(os.page_fault_count as nat)))
            .push(("working_set_growth_bytes"@, signed_decimal(os.working_set_growth_bytes as int)))
            .push(("pagefile_growth_bytes"@, signed_decimal(os.pagefile_growth_bytes as int)))
            .push((
                "working_set_minus_jemalloc_resident_bytes"@,
                signed_decimal(os.working_set_minus_jemalloc_resident_bytes as int),
            ))
            .push((
                "pagefile_minus_jemalloc_active_bytes"@,
                signed_decimal(os.pagefile_minus_jemalloc_active_bytes as int),
            )),
    )
}

pub fn os_json(os: &OsMemorySnapshot) -> (text: String)
    ensures
        text@ == os_object(*os),
{
    let mut object = JsonObject::new();
    object.boolean("available", os.available);
    object.number("working_set_bytes", os.working_set_bytes as u128);
    object.number("peak_working_set_bytes", os.peak_working_set_bytes as u128);
    object.number("pagefile_bytes", os.pagefile_bytes as u128);
    object.number("peak_pagefile_bytes", os.peak_pagefile_bytes as u128);
    object.number("page_fault_count", os.page_fault_count as u128);
    object.signed("working_set_growth_bytes", os.working_set_growth_bytes);
    object.signed("pagefile_growth_bytes", os.pagefile_growth_bytes);
    object.signed(
        "working_set_minus_jemalloc_resident_bytes",
        os.working_set_minus_jemalloc_resident_bytes,
    );
    object.signed("pagefile_minus_jemalloc_active_bytes", os.pagefile_minus_jemalloc_active_bytes);
    object.finish()
}

/// The name of the allocator.
pub open spec fn allocator_text(enabled: bool) -> Seq<char> {
    if enabled {
        "jemalloc"@
    } else {
        "system"@
    }
}

pub fn allocator_name(enabled: bool) -> (name: &'static str)
    ensures
        name@ == allocator_text(enabled),
{
    if enabled {
        "jemalloc"
    } else {
        "system"
    }
}

/// What is shown of the memory runtime. The allocation rate is a number with
/// three decimals.
#[derive(Debug)]
pub struct MemoryRuntimeSnapshot {
    pub enabled: bool,
    pub allocator: &'static str,
    pub config_summary: String,
    pub initialized: bool,
    pub totals: MemoryTotalsSnapshot,
    pub allocated_bytes_per_sec: String,
    pub os: OsMemorySnapshot,
    pub domains: Vec<MemoryDomainSnapshot>,
    pub errors: Vec<String>,
}

/// The JSON objects of domains.
pub open spec fn domain_objects(domains: Seq<MemoryDomainSnapshot>) -> Seq<Seq<char>> {
    domains.map_values(|domain: MemoryDomainSnapshot| domain_object(domain))
}

impl MemoryRuntimeSnapshot {
    /// The JSON of the snapshot; errors are listed if there are any.
    pub open spec fn json(&self) -> Seq<char> {
        let members = no_members()
            .push(("enabled"@, truth(self.enabled)))
            .push(("allocator"@, quoted(self.allocator@)))
            .push(("initialized"@, truth(self.initialized)))
            .push(("config"@, quoted(self.config_summary@)))
            .push(("totals"@, totals_object(self.totals, self.allocated_bytes_per_sec@)))
            .push(("os"@, os_object(self.os)))
            .push(("domains"@, array_of(domain_objects(self.domains@))));
        object_of(
            if self.errors@.len() == 0 {
                members
            } else {
                members.push(
                    (
                        "errors"@,
                        array_of(texts(self.errors@).map_values(|e: Seq<char>| quoted(e))),
                    ),
                )
            },
        )
    }

    pub fn to_json(&self) -> (text: String)
        ensures
            text@ == self.json(),
    {
        let ghost all = domain_objects(self.domains@);
        let mut domains = JsonArray::new();
        let mut i: usize = 0;
        while i < self.domains.len()
            invariant
                i <= self.domains@.len(),
                all == domain_objects(self.domains@),
                domains.wf(),
                domains.items() == all.take(i as int),
            decreases self.domains@.len() - i,
        {
            let item = domain_json(&self.domains[i]);
            domains.item(item.as_str());
            i = i + 1;
            assert(domains.items() =~= all.take(i as int));
        }
        assert(all.take(i as int) =~= all);
        let mut object = JsonObject::new();
        object.boolean("enabled", self.enabled);
        object.string("allocator", self.allocator);
        object.boolean("initialized", self.initialized);
        object.string("config", self.config_summary.as_str());
        let totals = totals_json(&self.totals, self.allocated_bytes_per_sec.as_str());
        object.raw("totals", totals.as_str());
        object.raw("os", os_json(&self.os).as_str());
        object.raw("domains", domains.finish().as_str());
        if self.errors.len() > 0 {
            object.raw("errors", json_string_array(&self.errors).as_str());
        }
        object.finish()
    }
}

impl MemoryRuntimeSnapshot {
    /// The snapshot shows a runtime, apart from the sample of memory use.
    pub open spec fn shows(&self, runtime: MemoryRuntime) -> bool {
        &&& self.enabled == runtime.enabled
        &&& self.allocator@ == allocator_text(runtime.enabled)
        &&& self.config_summary@ == runtime.config.line()
        &&& self.initialized
        &&& texts(self.errors@) == texts(runtime.errors@)
        &&& self.domains@.len() == DOMAIN_COUNT
        &&& forall|i: int|
            0 <= i < DOMAIN_COUNT ==> (#[trigger] self.domains@[i]).shows(runtime.domains@[i])
    }
}

/// Memory use as it was read at a moment.
#[derive(Debug)]
pub struct MemoryReading {
    pub at: u128,
    pub totals: MemoryTotalsSnapshot,
    pub os: OsMemorySnapshot,
}

impl MemoryReading {
    pub open spec fn fits(&self) -> bool {
        totals_fit(self.totals) && os_fits(self.os)
    }
}

/// Whether errors can be those of the allocator that is asked for actions. There are none
/// where it is asked for nothing.
pub open spec fn performs<P: Fn(Vec<MemoryAction>) -> Vec<String>>(
    perform: P,
    asked: Vec<MemoryAction>,
    errors: Vec<String>,
) -> bool {
    if asked@.len() == 0 {
        errors@.len() == 0
    } else {
        call_ensures(perform, (asked,), errors)
    }
}

impl MemoryRuntime {
    /// Whether a snapshot is that of a reading, and `after` the runtime that has taken it.
    /// The errors of what the sample asks of the allocator are noted before they are shown.
    pub open spec fn snapped_as<
        P: Fn(Vec<MemoryAction>) -> Vec<String>,
        R: Fn(usize, u128) -> String,
    >(
        &self,
        reading: MemoryReading,
        perform: P,
        rate: R,
        after: MemoryRuntime,
        taken: MemoryRuntimeSnapshot,
    ) -> bool {
        &&& exists|asked: Vec<MemoryAction>, errors: Vec<String>|
            {
                &&& self.sampled_as(
                    reading.totals,
                    reading.os,
                    reading.at,
                    after,
                    (taken.totals, taken.os, asked@),
                )
                &&& #[trigger] performs(perform, asked, errors)
                &&& texts(after.errors@) == with_errors(texts(self.errors@), texts(errors@))
            }
        &&& taken.shows(after)
        &&& call_ensures(
            rate,
            (taken.totals.allocated_since_bytes, taken.totals.allocated_since_ns),
            taken.allocated_bytes_per_sec,
        )
    }

    /// Whether a snapshot is taken after upkeep, of what was read once the allocator had
    /// done what the upkeep asked for and its errors were noted.
    pub open spec fn snapped_after<
        P: Fn(Vec<MemoryAction>) -> Vec<String>,
        F: FnOnce() -> MemoryReading,
        R: Fn(usize, u128) -> String,
    >(
        &self,
        upkeep: (Arenas, Seq<MemoryAction>),
        perform: P,
        read: F,
        rate: R,
        after: MemoryRuntime,
        taken: MemoryRuntimeSnapshot,
    ) -> bool {
        exists|
            kept: MemoryRuntime,
            asked: Vec<MemoryAction>,
            errors: Vec<String>,
            reading: MemoryReading,
        |
            {
                &&& kept.enabled == self.enabled
                &&& kept.config == self.config
                &&& kept.previous_sample == self.previous_sample
                &&& kept.arenas() == upkeep.0
                &&& asked@ == upkeep.1
                &&& #[trigger] performs(perform, asked, errors)
                &&& texts(kept.errors@) == with_errors(texts(self.errors@), texts(errors@))
                &&& call_ensures(read, (), reading)
                &&& #[trigger] kept.snapped_as(reading, perform, rate, after, taken)
            }
    }

    /// Has the allocator do what is asked of it, and notes its errors.
    fn carry_out<P: Fn(Vec<MemoryAction>) -> Vec<String>>(
        &mut self,
        asked: Vec<MemoryAction>,
        perform: &P,
    )
        requires
            old(self).wf(),
            forall|actions: Vec<MemoryAction>| call_requires(*perform, (actions,)),
        ensures
            final(self).wf(),
            final(self).same_but_errors(old(self)),
            exists|errors: Vec<String>|
                #[trigger] performs(*perform, asked, errors) && texts(final(self).errors@)
                    == with_errors(texts(old(self).errors@), texts(errors@)),
    {
        let errors: Vec<String> = if asked.len() == 0 {
            Vec::new()
        } else {
            perform(asked)
        };
        assert(performs(*perform, asked, errors));
        self.push_errors(errors);
    }

    /// Takes a sample of memory use, and shows the runtime with it once `perform` has had
    /// the allocator do what the sample asks for. `perform` returns the allocator's errors,
    /// and `rate` writes the rate at which some bytes were allocated in some nanoseconds, as
    /// a number with three decimals.
    pub fn take_snapshot<
        P: Fn(Vec<MemoryAction>) -> Vec<String>,
        R: Fn(usize, u128) -> String,
    >(&mut self, reading: MemoryReading, perform: &P, rate: &R) -> (taken: MemoryRuntimeSnapshot)
        requires
            old(self).wf(),
            old(self).sample_fits(),
            reading.fits(),
            forall|actions: Vec<MemoryAction>| call_requires(*perform, (actions,)),
            forall|bytes: usize, ns: u128| call_requires(*rate, (bytes, ns)),
        ensures
            final(self).wf(),
            final(self).sample_fits(),
            old(self).snapped_as(reading, *perform, *rate, *final(self), taken),
    {
        let (totals, os, asked) = self.record_sample(reading.totals, reading.os, reading.at);
        self.carry_out(asked, perform);
        let text = rate(totals.allocated_since_bytes, totals.allocated_since_ns);
        self.snapshot(totals, text, os)
    }

    /// Lets every domain decay that playback does not need, and then takes a snapshot.
    /// `perform` has the allocator do what is asked of it, `read` reads memory use, and
    /// `rate` writes the rate of allocation.
    pub fn snapshot_after_maintenance<
        P: Fn(Vec<MemoryAction>) -> Vec<String>,
        F: FnOnce() -> MemoryReading,
        R: Fn(usize, u128) -> String,
    >(&mut self, playback_active: bool, now: u128, perform: &P, read: F, rate: &R) -> (taken:
        MemoryRuntimeSnapshot)
        requires
            old(self).wf(),
            old(self).sample_fits(),
            forall|actions: Vec<MemoryAction>| call_requires(*perform, (actions,)),
            call_requires(read, ()),
            forall|reading: MemoryReading| call_ensures(read, (), reading) ==> reading.fits(),
            forall|bytes: usize, ns: u128| call_requires(*rate, (bytes, ns)),
        ensures
            final(self).wf(),
            final(self).sample_fits(),
            old(self).snapped_after(
                (
                    old(self).arenas().round(Upkeep::Decay, playback_active, now),
                    old(self).arenas().actions(Upkeep::Decay, playback_active, now),
                ),
                *perform,
                read,
                *rate,
                *final(self),
                taken,
            ),
    {
        let asked = self.decay_idle_reuse_preserving(playback_active, now);
        self.carry_out(asked, perform);
        let ghost kept = *self;
        let reading = read();
        let ghost seen = reading;
        let taken = self.take_snapshot(reading, perform, rate);
        assert(kept.snapped_as(seen, *perform, *rate, *self, taken));
        taken
    }

    /// Relieves the system of memory that the runtime can spare, and then takes a snapshot.
    /// `perform` has the allocator do what is asked of it, `read` reads memory use, and
    /// `rate` writes the rate of allocation.
    pub fn snapshot_after_pressure_remediation<
        P: Fn(Vec<MemoryAction>) -> Vec<String>,
        F: FnOnce() -> MemoryReading,
        R: Fn(usize, u128) -> String,
    >(&mut self, playback_active: bool, now: u128, perform: &P, read: F, rate: &R) -> (taken:
        MemoryRuntimeSnapshot)
        requires
            old(self).wf(),
            old(self).sample_fits(),
            forall|actions: Vec<MemoryAction>| call_requires(*perform, (actions,)),
            call_requires(read, ()),
            forall|reading: MemoryReading| call_ensures(read, (), reading) ==> reading.fits(),
            forall|bytes: usize, ns: u128| call_requires(*rate, (bytes, ns)),
        ensures
            final(self).wf(),
            final(self).sample_fits(),
            old(self).snapped_after(
                old(self).arenas().relieved(playback_active, now),
                *perform,
                read,
                *rate,
                *final(self),
                taken,
            ),
    {
        let asked = self.remediate_idle_os_pressure(playback_active, now);
        self.carry_out(asked, perform);
        let ghost kept = *self;
        let reading = read();
        let ghost seen = reading;
        let taken = self.take_snapshot(reading, perform, rate);
        assert(kept.snapped_as(seen, *perform, *rate, *self, taken));
        taken
    }
}

impl MemoryRuntime {
    /// What is shown of the runtime, with a sample of memory use and the
    /// allocation rate as a number with three decimals.
    pub fn snapshot(
        &self,
        totals: MemoryTotalsSnapshot,
        allocated_bytes_per_sec: String,
        os: OsMemorySnapshot,
    ) -> (snapshot: MemoryRuntimeSnapshot)
        requires
            self.wf(),
        ensures
            snapshot.shows(*self),
            snapshot.totals == totals,
            snapshot.allocated_bytes_per_sec == allocated_bytes_per_sec,
            snapshot.os == os,
    {
        let mut domains: Vec<MemoryDomainSnapshot> = Vec::new();
        let mut i: usize = 0;
        while i < DOMAIN_COUNT
            invariant
                i <= DOMAIN_COUNT,
                self.wf(),
                domains@.len() == i,
                forall|k: int|
                    0 <= k < i ==> (#[trigger] domains@[k]).shows(self.domains@[k]),
            decreases DOMAIN_COUNT - i,
        {
            domains.push(self.domains[i].snapshot());
            i = i + 1;
        }
        MemoryRuntimeSnapshot {
            enabled: self.enabled,
            allocator: allocator_name(self.enabled),
            config_summary: self.config.summary(),
            initialized: true,
            totals,
            allocated_bytes_per_sec,
            os,
            domains,
            errors: crate::text::clone_texts(&self.errors),
        }
    }
}

/// The line that sums up a snapshot.
pub open spec fn status_line_of(snapshot: MemoryRuntimeSnapshot) -> Seq<char> {
    "allocator="@ + snapshot.allocator@ + " enabled="@ + truth(snapshot.enabled) + " resident="@
        + decimal(snapshot.totals.resident_bytes as nat) + " retained="@ + decimal(
        snapshot.totals.retained_bytes as nat,
    ) + " config="@ + snapshot.config_summary@
}

/// The line that sums up a snapshot.
pub fn status_summary(snapshot: &MemoryRuntimeSnapshot) -> (text: String)
    ensures
        text@ == status_line_of(*snapshot),
{
    let mut text = "allocator=".to_owned();
    text.append(snapshot.allocator);
    text.append(" enabled=");
    push_truth(&mut text, snapshot.enabled);
    text.append(" resident=");
    push_decimal(&mut text, snapshot.totals.resident_bytes as u128);
    text.append(" retained=");
    push_decimal(&mut text, snapshot.totals.retained_bytes as u128);
    text.append(" config=");
    text.append(snapshot.config_summary.as_str());
    text
}

/// The name under which the allocator knows a property of an arena.
pub open spec fn arena_name(arena: usize, property: Seq<char>) -> Seq<char> {
    "arena."@ + decimal(arena as nat) + "."@ + property
}

/// The name under which the allocator knows a property of an arena.
pub fn arena_property(arena: usize, property: &str) -> (name: String)
    ensures
        name@ == arena_name(arena, property@),
{
    let mut name = "arena.".to_owned();
    push_decimal(&mut name, arena as u128);
    name.append(".");
    name.append(property);
    name
}

/// The name of the property that an action addresses.
pub open spec fn action_target(action: MemoryAction) -> Seq<char> {
    match action {
        MemoryAction::Bind(_) => "thread.arena"@,
        MemoryAction::Decay(arena) => arena_name(arena, "decay"@),
        MemoryAction::Purge(arena) => arena_name(arena, "purge"@),
    }
}

/// The name of the property that an action addresses.
pub fn action_name(action: MemoryAction) -> (name: String)
    ensures
        name@ == action_target(action),
{
    match action {
        MemoryAction::Bind(_) => "thread.arena".to_owned(),
        MemoryAction::Decay(arena) => arena_property(arena, "decay"),
        MemoryAction::Purge(arena) => arena_property(arena, "purge"),
    }
}

/// A setting of the allocator.
#[derive(Debug, Copy, Clone, PartialEq, Eq, Structural)]
pub enum AllocatorSetting {
    BackgroundThread,
    MaxBackgroundThreads(usize),
    LgExtentMaxActiveFit(usize),
}

/// The settings of the allocator that differ from its defaults.
pub open spec fn global_settings_of(config: MemoryRuntimeConfig) -> Seq<AllocatorSetting> {
    let threads = if config.background_thread {
        seq![
            AllocatorSetting::BackgroundThread,
            AllocatorSetting::MaxBackgroundThreads(config.max_background_threads),
        ]
    } else {
        Seq::empty()
    };
    match config.lg_extent_max_active_fit {
        Some(value) => threads.push(AllocatorSetting::LgExtentMaxActiveFit(value)),
        None => threads,
    }
}

/// What the allocator is set to when the program starts.
pub fn configure_global(config: &MemoryRuntimeConfig) -> (settings: Vec<AllocatorSetting>)
    ensures
        settings@ == global_settings_of(*config),
{
    let mut settings: Vec<AllocatorSetting> = Vec::new();
    if config.background_thread {
        settings.push(AllocatorSetting::BackgroundThread);
        settings.push(AllocatorSetting::MaxBackgroundThreads(config.max_background_threads));
    }
    match config.lg_extent_max_active_fit {
        Some(value) => settings.push(AllocatorSetting::LgExtentMaxActiveFit(value)),
        None => {},
    }
    assert(settings@ =~= global_settings_of(*config));
    settings
}

/// Binds a thread to a domain of the runtime.
pub fn bind_current_thread(
    runtime: &mut MemoryRuntime,
    thread: &mut ThreadDomain,
    domain: MemoryDomain,
) -> (binding: (MemoryThreadGuard, Option<MemoryAction>))
    requires
        old(runtime).wf(),
        old(thread).wf(),
    ensures
        final(runtime).wf(),
        final(runtime).same_but_arenas(old(runtime)),
        final(runtime).points@ == old(runtime).points@,
        final(thread).wf(),
        final(runtime).domains@ == old(runtime).domains@.update(
            domain.number(),
            DomainRuntime {
                bind_count: counted(old(runtime).domains@[domain.number()].bind_count),
                ..old(runtime).domains@[domain.number()]
            },
        ),
        final(thread).current == domain.number(),
        binding.0.previous_domain == domain_at(old(thread).current as int),
        binding.1 == (match old(runtime).domains@[domain.number()].arena {
            Some(arena) => Some(MemoryAction::Bind(arena)),
            None => None,
        }),
{
    runtime.bind_current_thread(thread, domain)
}

/// Lets the memory of a domain of the runtime decay.
pub fn decay_domain(runtime: &mut MemoryRuntime, domain: MemoryDomain, now: u128) -> (action: Option<
    MemoryAction,
>)
    requires
        old(runtime).wf(),
    ensures
        final(runtime).wf(),
        final(runtime).same_but_arenas(old(runtime)),
        final(runtime).arenas() == old(runtime).arenas().kept_up(
            domain.number(),
            Upkeep::Decay,
            now,
        ),
        action == old(runtime).arenas().action(domain.number(), Upkeep::Decay, now),
{
    runtime.decay_domain(domain, now)
}

/// Gives the memory of a domain of the runtime back.
pub fn purge_domain(runtime: &mut MemoryRuntime, domain: MemoryDomain, now: u128) -> (action: Option<
    MemoryAction,
>)
    requires
        old(runtime).wf(),
    ensures
        final(runtime).wf(),
        final(runtime).same_but_arenas(old(runtime)),
        final(runtime).arenas() == old(runtime).arenas().kept_up(
            domain.number(),
            Upkeep::Purge,
            now,
        ),
        action == old(runtime).arenas().action(domain.number(), Upkeep::Purge, now),
{
    runtime.purge_domain(domain, now)
}

/// Lets every domain of the runtime decay that playback does not need.
pub fn decay_idle_reuse_preserving(
    runtime: &mut MemoryRuntime,
    playback_active: bool,
    now: u128,
) -> (actions: Vec<MemoryAction>)
    requires
        old(runtime).wf(),
    ensures
        final(runtime).wf(),
        final(runtime).same_but_arenas(old(runtime)),
        final(runtime).arenas() == old(runtime).arenas().round(Upkeep::Decay, playback_active, now),
        actions@ == old(runtime).arenas().actions(Upkeep::Decay, playback_active, now),
{
    runtime.decay_idle_reuse_preserving(playback_active, now)
}

/// Lets every domain of the runtime decay that playback does not reuse.
pub fn decay_all_idle_domains(runtime: &mut MemoryRuntime, now: u128) -> (actions: Vec<MemoryAction>)
    requires
        old(runtime).wf(),
    ensures
        final(runtime).wf(),
        final(runtime).same_but_arenas(old(runtime)),
        final(runtime).arenas() == old(runtime).arenas().round(Upkeep::Decay, true, now),
        actions@ == old(runtime).arenas().actions(Upkeep::Decay, true, now),
{
    runtime.decay_all_idle_domains(now)
}

/// Relieves the system of memory that the runtime can spare.
pub fn remediate_idle_os_pressure(
    runtime: &mut MemoryRuntime,
    playback_active: bool,
    now: u128,
) -> (actions: Vec<MemoryAction>)
    requires
        old(runtime).wf(),
    ensures
        final(runtime).wf(),
        final(runtime).same_but_arenas(old(runtime)),
        (final(runtime).arenas(), actions@) == old(runtime).arenas().relieved(
            playback_active,
            now,
        ),
{
    runtime.remediate_idle_os_pressure(playback_active, now)
}

/// Gives the memory of every domain of the runtime back.
pub fn aggressive_release(runtime: &mut MemoryRuntime, now: u128) -> (actions: Vec<MemoryAction>)
    requires
        old(runtime).wf(),
    ensures
        final(runtime).wf(),
        final(runtime).same_but_arenas(old(runtime)),
        final(runtime).arenas() == old(runtime).arenas().round(Upkeep::Purge, false, now),
        actions@ == old(runtime).arenas().actions(Upkeep::Purge, false, now),
{
    runtime.aggressive_release(now)
}

/// Takes a snapshot of the runtime.
pub fn snapshot<P: Fn(Vec<MemoryAction>) -> Vec<String>, R: Fn(usize, u128) -> String>(
    runtime: &mut MemoryRuntime,
    reading: MemoryReading,
    perform: &P,
    rate: &R,
) -> (taken: MemoryRuntimeSnapshot)
    requires
        old(runtime).wf(),
        old(runtime).sample_fits(),
        reading.fits(),
        forall|actions: Vec<MemoryAction>| call_requires(*perform, (actions,)),
        forall|bytes: usize, ns: u128| call_requires(*rate, (bytes, ns)),
    ensures
        final(runtime).wf(),
        final(runtime).sample_fits(),
        old(runtime).snapped_as(reading, *perform, *rate, *final(runtime), taken),
{
    runtime.take_snapshot(reading, perform, rate)
}

/// Takes a snapshot of the runtime after its upkeep.
pub fn snapshot_after_maintenance<
    P: Fn(Vec<MemoryAction>) -> Vec<String>,
    F: FnOnce() -> MemoryReading,
    R: Fn(usize, u128) -> String,
>(
    runtime: &mut MemoryRuntime,
    playback_active: bool,
    now: u128,
    perform: &P,
    read: F,
    rate: &R,
) -> (taken: MemoryRuntimeSnapshot)
    requires
        old(runtime).wf(),
        old(runtime).sample_fits(),
        forall|actions: Vec<MemoryAction>| call_requires(*perform, (actions,)),
        call_requires(read, ()),
        forall|reading: MemoryReading| call_ensures(read, (), reading) ==> reading.fits(),
        forall|bytes: usize, ns: u128| call_requires(*rate, (bytes, ns)),
    ensures
        final(runtime).wf(),
        final(runtime).sample_fits(),
        old(runtime).snapped_after(
            (
                old(runtime).arenas().round(Upkeep::Decay, playback_active, now),
                old(runtime).arenas().actions(Upkeep::Decay, playback_active, now),
            ),
            *perform,
            read,
            *rate,
            *final(runtime),
            taken,
        ),
{
    runtime.snapshot_after_maintenance(playback_active, now, perform, read, rate)
}

/// Takes a snapshot of the runtime after the system was relieved.
pub fn snapshot_after_pressure_remediation<
    P: Fn(Vec<MemoryAction>) -> Vec<String>,
    F: FnOnce() -> MemoryReading,
    R: Fn(usize, u128) -> String,
>(
    runtime: &mut MemoryRuntime,
    playback_active: bool,
    now: u128,
    perform: &P,
    read: F,
    rate: &R,
) -> (taken: MemoryRuntimeSnapshot)
    requires
        old(runtime).wf(),
        old(runtime).sample_fits(),
        forall|actions: Vec<MemoryAction>| call_requires(*perform, (actions,)),
        call_requires(read, ()),
        forall|reading: MemoryReading| call_ensures(read, (), reading) ==> reading.fits(),
        forall|bytes: usize, ns: u128| call_requires(*rate, (bytes, ns)),
    ensures
        final(runtime).wf(),
        final(runtime).sample_fits(),
        old(runtime).snapped_after(
            old(runtime).arenas().relieved(playback_active, now),
            *perform,
            read,
            *rate,
            *final(runtime),
            taken,
        ),
{
    runtime.snapshot_after_pressure_remediation(playback_active, now, perform, read, rate)
}

/// Playback reuses the memory of the audio callback, of rendering, of stems, of the mixer
/// and of the audio backend, and of no other domain. Freed pages of these are kept for as
/// long as the settings for them say, those of the others for as long as the other settings
/// do.
pub proof fn playback_domains_are_kept_longer(config: MemoryRuntimeConfig, domain: MemoryDomain)
    ensures
        domain.is_reuse_critical() == (domain == MemoryDomain::AudioCallback || domain
            == MemoryDomain::PlaybackRender || domain == MemoryDomain::RenderStems || domain
            == MemoryDomain::RenderMixer || domain == MemoryDomain::AudioBackend),
        domain.is_reuse_critical() ==> decay_times(config, domain) == (
            config.hot_dirty_decay_ms,
            config.hot_muzzy_decay_ms,
        ),
        !domain.is_reuse_critical() ==> decay_times(config, domain) == (
            config.dirty_decay_ms,
            config.muzzy_decay_ms,
        ),
{
}

/// Upkeep that is due asks for the arena of its domain: to decay or to give back, as it was
/// meant. It is counted for the domain and noted with its time.
pub proof fn upkeep_addresses_its_arena(arenas: Arenas, i: int, now: u128)
    requires
        arenas.wf(),
        0 <= i < DOMAIN_COUNT,
        arenas.points[i].last_decay is None,
        arenas.points[i].last_purge is None,
    ensures
        match arenas.domains[i].arena {
            Some(arena) => arenas.action(i, Upkeep::Decay, now) == Some(
                MemoryAction::Decay(arena),
            ) && arenas.action(i, Upkeep::Purge, now) == Some(MemoryAction::Purge(arena)),
            None => arenas.action(i, Upkeep::Decay, now) is None && arenas.action(
                i,
                Upkeep::Purge,
                now,
            ) is None,
        },
        ({
            let after = arenas.kept_up(i, Upkeep::Decay, now);
            &&& after.points[i].last_decay == Some(now)
            &&& after.points[i].last_purge is None
            &&& arenas.domains[i].decay_count < u64::MAX ==> after.domains[i].decay_count
                == arenas.domains[i].decay_count + 1
            &&& after.domains[i].purge_count == arenas.domains[i].purge_count
        }),
        ({
            let after = arenas.kept_up(i, Upkeep::Purge, now);
            &&& after.points[i].last_purge == Some(now)
            &&& after.points[i].last_decay is None
            &&& arenas.domains[i].purge_count < u64::MAX ==> after.domains[i].purge_count
                == arenas.domains[i].purge_count + 1
            &&& after.domains[i].decay_count == arenas.domains[i].decay_count
        }),
{
}

/// A round of upkeep reaches every domain that it does not spare: where it was never done,
/// it is done now.
pub proof fn rounds_reach_every_domain(
    arenas: Arenas,
    n: int,
    upkeep: Upkeep,
    spare_critical: bool,
    now: u128,
    i: int,
)
    requires
        arenas.wf(),
        0 <= i < n <= DOMAIN_COUNT,
        upkeep == Upkeep::Decay ==> arenas.points[i].last_decay is None,
        upkeep == Upkeep::Purge ==> arenas.points[i].last_purge is None,
    ensures
        ({
            let after = arenas.after_round(n, upkeep, spare_critical, now);
            let reached = !(spare_critical && arenas.domains[i].domain.is_reuse_critical());
            &&& after.wf()
            &&& after.domains[i].domain == arenas.domains[i].domain
            &&& after.domains[i].arena == arenas.domains[i].arena
            &&& upkeep == Upkeep::Decay && reached ==> after.points[i].last_decay == Some(now)
            &&& upkeep == Upkeep::Purge && reached ==> after.points[i].last_purge == Some(now)
            &&& upkeep == Upkeep::Decay ==> after.points[i].last_purge
                == arenas.points[i].last_purge
            &&& upkeep == Upkeep::Purge ==> after.points[i].last_decay
                == arenas.points[i].last_decay
            &&& !reached ==> after.points[i] == arenas.points[i]
            &&& reached && arenas.domains[i].arena is Some ==> arenas.round_actions(
                n,
                upkeep,
                spare_critical,
                now,
            ).contains(
                match upkeep {
                    Upkeep::Decay => MemoryAction::Decay(arenas.domains[i].arena->Some_0),
                    Upkeep::Purge => MemoryAction::Purge(arenas.domains[i].arena->Some_0),
                },
            )
        }),
    decreases n,
{
    let before = arenas.after_round(n - 1, upkeep, spare_critical, now);
    let earlier = arenas.round_actions(n - 1, upkeep, spare_critical, now);
    let actions = arenas.round_actions(n, upkeep, spare_critical, now);
    lemma_round_keeps(arenas, n - 1, upkeep, spare_critical, now);
    if i < n - 1 {
        rounds_reach_every_domain(arenas, n - 1, upkeep, spare_critical, now, i);
        if arenas.domains[i].arena is Some {
            let wanted = match upkeep {
                Upkeep::Decay => MemoryAction::Decay(arenas.domains[i].arena->Some_0),
                Upkeep::Purge => MemoryAction::Purge(arenas.domains[i].arena->Some_0),
            };
            if earlier.contains(wanted) {
                let k = choose|k: int| 0 <= k < earlier.len() && earlier[k] == wanted;
                assert(actions[k] == wanted);
            }
        }
    } else {
        assert(before.points[i] == arenas.points[i]);
        if arenas.domains[i].arena is Some && before.takes_in(i, spare_critical) {
            assert(actions[earlier.len() as int] == before.action(i, upkeep, now)->Some_0);
        }
    }
}

proof fn lemma_round_keeps(
    arenas: Arenas,
    n: int,
    upkeep: Upkeep,
    spare_critical: bool,
    now: u128,
)
    requires
        arenas.wf(),
        0 <= n <= DOMAIN_COUNT,
    ensures
        arenas.after_round(n, upkeep, spare_critical, now).wf(),
        forall|k: int|
            n <= k < DOMAIN_COUNT ==> (#[trigger] arenas.after_round(
                n,
                upkeep,
                spare_critical,
                now,
            ).points[k]) == arenas.points[k],
        forall|k: int|
            n <= k < DOMAIN_COUNT ==> (#[trigger] arenas.after_round(
                n,
                upkeep,
                spare_critical,
                now,
            ).domains[k]) == arenas.domains[k],
    decreases n,
{
    if n > 0 {
        lemma_round_keeps(arenas, n - 1, upkeep, spare_critical, now);
    }
}

/// Growth of the working set by no more than the settings allow is safe, and more is not.
pub proof fn pressure_starts_above_the_setting(config: MemoryRuntimeConfig, os: OsMemorySnapshot)
    requires
        config.idle_working_set_growth_bytes <= i64::MAX,
    ensures
        is_pressure_safe(config, os) == (os.working_set_growth_bytes
            <= config.idle_working_set_growth_bytes),
{
}

/// Decay and return of memory go to the arena of the action, and a binding to the thread.
pub proof fn actions_address_their_arena(arena: usize)
    ensures
        action_target(MemoryAction::Decay(arena)) == "arena."@ + decimal(arena as nat) + "."@
            + "decay"@,
        action_target(MemoryAction::Purge(arena)) == "arena."@ + decimal(arena as nat) + "."@
            + "purge"@,
        action_target(MemoryAction::Bind(arena)) == "thread.arena"@,
{
}

/// An error is noted once, however often it comes, and none is lost.
pub proof fn errors_are_noted_once(known: Seq<Seq<char>>, error: Seq<char>, other: Seq<char>)
    ensures
        with_error(known, error).contains(error),
        known.contains(other) ==> with_error(known, error).contains(other),
        with_error(with_error(known, error), error) == with_error(known, error),
        known.no_duplicates() ==> with_error(known, error).no_duplicates(),
{
    let after = with_error(known, error);
    if !known.contains(error) {
        assert(after[known.len() as int] == error);
    }
    if known.contains(other) {
        let k = choose|k: int| 0 <= k < known.len() && known[k] == other;
        assert(after[k] == other);
    }
}

/// Relief while playback is on lets freed memory decay, and leaves that of playback alone;
/// without playback every domain is relieved, and what it had freed is given back too.
pub proof fn relief_gives_back_without_playback(arenas: Arenas, now: u128, i: int)
    requires
        arenas.wf(),
        0 <= i < DOMAIN_COUNT,
        arenas.points[i].last_decay is None,
        arenas.points[i].last_purge is None,
    ensures
        ({
            let (playing, asked) = arenas.relieved(true, now);
            let spared = arenas.domains[i].domain.is_reuse_critical();
            &&& spared ==> playing.points[i] == arenas.points[i]
            &&& !spared ==> playing.points[i].last_decay == Some(now)
            &&& playing.points[i].last_purge is None
            &&& !spared && arenas.domains[i].arena is Some ==> asked.contains(
                MemoryAction::Decay(arenas.domains[i].arena->Some_0),
            )
        }),
        ({
            let (idle, asked) = arenas.relieved(false, now);
            &&& idle.points[i].last_decay == Some(now)
            &&& idle.points[i].last_purge == Some(now)
            &&& arenas.domains[i].arena is Some ==> asked.contains(
                MemoryAction::Decay(arenas.domains[i].arena->Some_0),
            ) && asked.contains(MemoryAction::Purge(arenas.domains[i].arena->Some_0))
        }),
{
    let all = DOMAIN_COUNT as int;
    rounds_reach_every_domain(arenas, all, Upkeep::Decay, true, now, i);
    rounds_reach_every_domain(arenas, all, Upkeep::Decay, false, now, i);
    let decayed = arenas.round(Upkeep::Decay, false, now);
    rounds_reach_every_domain(decayed, all, Upkeep::Purge, false, now, i);
    if arenas.domains[i].arena is Some {
        let first = arenas.actions(Upkeep::Decay, false, now);
        let second = decayed.actions(Upkeep::Purge, false, now);
        let decay = MemoryAction::Decay(arenas.domains[i].arena->Some_0);
        let purge = MemoryAction::Purge(arenas.domains[i].arena->Some_0);
        let k = choose|k: int| 0 <= k < first.len() && first[k] == decay;
        assert((first + second)[k] == decay);
        let m = choose|m: int| 0 <= m < second.len() && second[m] == purge;
        assert((first + second)[first.len() + m] == purge);
    }
}

/// A sample is kept to compare the next one with. One that follows another and shows a
/// growth of the working set above the setting has memory given back, but not that of
/// playback; any other asks for nothing.
pub proof fn samples_ask_under_pressure_only(
    runtime: MemoryRuntime,
    totals: MemoryTotalsSnapshot,
    os: OsMemorySnapshot,
    now: u128,
    after: MemoryRuntime,
    sample: (MemoryTotalsSnapshot, OsMemorySnapshot, Seq<MemoryAction>),
    i: int,
)
    requires
        runtime.wf(),
        runtime.sampled_as(totals, os, now, after, sample),
        runtime.config.idle_working_set_growth_bytes <= i64::MAX,
        0 <= i < DOMAIN_COUNT,
        runtime.arenas().points[i].last_purge is None,
    ensures
        ({
            let before = runtime.arenas();
            let follows = runtime.previous_sample is Some && now
                > runtime.previous_sample->Some_0.at;
            let pressed = sample.1.working_set_growth_bytes
                > runtime.config.idle_working_set_growth_bytes;
            let spared = before.domains[i].domain.is_reuse_critical();
            &&& after.config == runtime.config
            &&& after.enabled == runtime.enabled
            &&& after.previous_sample is Some
            &&& after.previous_sample->Some_0.at == now
            &&& after.previous_sample->Some_0.totals == sample.0
            &&& after.previous_sample->Some_0.os == sample.1
            &&& !follows ==> (sample.0, sample.1) == (totals, os) && after.arenas() == before
            &&& !follows || !pressed ==> sample.2.len() == 0 && after.arenas().points
                == before.points
            &&& follows && pressed && spared ==> after.arenas().points[i] == before.points[i]
            &&& follows && pressed && !spared ==> after.arenas().points[i].last_purge == Some(now)
            &&& follows && pressed && !spared && before.domains[i].arena is Some
                ==> sample.2.contains(MemoryAction::Purge(before.domains[i].arena->Some_0))
        }),
{
    let grown = runtime.arenas().with_sample(sample.0.retained_growth_bytes);
    assert(grown.wf()) by {
        assert forall|k: int| 0 <= k < DOMAIN_COUNT implies domain_at(k) == Some(
            (#[trigger] grown.domains[k]).domain,
        ) by {
            assert(domain_at(k) == Some(runtime.arenas().domains[k].domain));
        }
    }
    assert(grown.domains[i].domain == runtime.arenas().domains[i].domain);
    assert(grown.domains[i].arena == runtime.arenas().domains[i].arena);
    rounds_reach_every_domain(grown, DOMAIN_COUNT as int, Upkeep::Purge, true, now, i);
}

/// A setting of the environment counts where it can be read, and the default where it is
/// missing or cannot.
pub proof fn unreadable_settings_fall_back(
    text: Seq<char>,
    default: bool,
    number: int,
    n: nat,
)
    ensures
        bool_or(None, default) == default,
        switch_in(text) is Some ==> bool_or(Some(text), default) == switch_in(text)->Some_0,
        switch_in(text) is None ==> bool_or(Some(text), default) == default,
        signed_or(None, number) == number,
        n <= i64::MAX ==> signed_or(Some(decimal(n)), number) == n,
        n <= i64::MAX ==> signed_or(Some(seq!['-'] + decimal(n)), number) == -n,
        signed_in(text, i64::MIN as int, i64::MAX as int) is None ==> signed_or(Some(text), number)
            == number,
        number_in(None, number) is None,
        n <= i64::MAX ==> number_in(Some(decimal(n)), i64::MAX as int) == Some(n as int),
{
    if n <= i64::MAX {
        crate::parse::signed_numbers_read_back(n);
        crate::parse::decimal_reads_back(n);
    }
}

/// Background threads are asked for, with their number, only where they are switched on, and
/// the limit on extents only where it is set.
pub proof fn allocators_are_asked_for_what_is_set(config: MemoryRuntimeConfig)
    ensures
        ({
            let settings = global_settings_of(config);
            &&& settings.contains(AllocatorSetting::BackgroundThread) == config.background_thread
            &&& config.background_thread ==> settings.contains(
                AllocatorSetting::MaxBackgroundThreads(config.max_background_threads),
            )
            &&& config.lg_extent_max_active_fit is Some ==> settings.contains(
                AllocatorSetting::LgExtentMaxActiveFit(config.lg_extent_max_active_fit->Some_0),
            )
            &&& !config.background_thread && config.lg_extent_max_active_fit is None
                ==> settings.len() == 0
        }),
{
    let settings = global_settings_of(config);
    if config.background_thread {
        assert(settings[0] == AllocatorSetting::BackgroundThread);
        assert(settings[1] == AllocatorSetting::MaxBackgroundThreads(
            config.max_background_threads,
        ));
    }
    if config.lg_extent_max_active_fit is Some {
        assert(settings[settings.len() - 1] == AllocatorSetting::LgExtentMaxActiveFit(
            config.lg_extent_max_active_fit->Some_0,
        ));
    }
}

} // verus!
