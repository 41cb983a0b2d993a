//! The allocation trace: what each part of the program allocates, and from where
//! the large allocations come.
use crate::memory_runtime::{counted, domain_at, MemoryAction, MemoryDomain, MemoryRuntime};
use crate::memory_runtime::{DomainRuntime, MemoryThreadGuard, ThreadDomain};
use crate::numbers::{max_of, max_u64};
use crate::sorted::{is_stable_order, stable_order};
use vstd::prelude::*;

verus! {

/// The number of scopes.
pub const SCOPE_COUNT: usize = 11;

/// The number of buckets for stack samples.
pub const STACK_BUCKET_COUNT: usize = 64;

/// An allocation of this size or more is sampled.
pub const LARGE_ALLOCATION_SAMPLE_BYTES: usize = 4096;

/// One in so many allocations is sampled whatever its size.
pub const PERIODIC_SAMPLE_CYCLE: u64 = 1024;

/// How many buckets a snapshot shows.
pub const SHOWN_BUCKETS: usize = 16;

/// The part of the program that is at work.
#[derive(Debug, Copy, Clone, PartialEq, Eq, Structural)]
pub enum AllocationScope {
    Unscoped,
    AppUpdate,
    PerfTrace,
    FileLoad,
    PlaybackLoad,
    AudioCallback,
    PlaybackRender,
    RenderStems,
    RenderMixer,
    RenderSnapshot,
    Ui,
}

/// The scope with a number; any other number stands for no scope.
pub open spec fn scope_at(index: int) -> AllocationScope {
    if index == 1 {
        AllocationScope::AppUpdate
    } else if index == 2 {
        AllocationScope::PerfTrace
    } else if index == 3 {
        AllocationScope::FileLoad
    } else if index == 4 {
        AllocationScope::PlaybackLoad
    } else if index == 5 {
        AllocationScope::AudioCallback
    } else if index == 6 {
        AllocationScope::PlaybackRender
    } else if index == 7 {
        AllocationScope::RenderStems
    } else if index == 8 {
        AllocationScope::RenderMixer
    } else if index == 9 {
        AllocationScope::RenderSnapshot
    } else if index == 10 {
        AllocationScope::Ui
    } else {
        AllocationScope::Unscoped
    }
}

impl AllocationScope {
    pub open spec fn number(self) -> int {
        match self {
            AllocationScope::Unscoped => 0,
            AllocationScope::AppUpdate => 1,
            AllocationScope::PerfTrace => 2,
            AllocationScope::FileLoad => 3,
            AllocationScope::PlaybackLoad => 4,
            AllocationScope::AudioCallback => 5,
            AllocationScope::PlaybackRender => 6,
            AllocationScope::RenderStems => 7,
            AllocationScope::RenderMixer => 8,
            AllocationScope::RenderSnapshot => 9,
            AllocationScope::Ui => 10,
        }
    }

    pub open spec fn text(self) -> Seq<char> {
        match self {
            AllocationScope::Unscoped => "unscoped"@,
            AllocationScope::AppUpdate => "app.update"@,
            AllocationScope::PerfTrace => "perf.trace"@,
            AllocationScope::FileLoad => "file.load"@,
            AllocationScope::PlaybackLoad => "playback.load"@,
            AllocationScope::AudioCallback => "audio.callback"@,
            AllocationScope::PlaybackRender => "playback.render"@,
            AllocationScope::RenderStems => "render.stems"@,
            AllocationScope::RenderMixer => "render.mixer"@,
            AllocationScope::RenderSnapshot => "render.snapshot"@,
            AllocationScope::Ui => "ui"@,
        }
    }

    /// The domain whose memory a scope uses.
    pub open spec fn domain(self) -> Option<MemoryDomain> {
        match self {
            AllocationScope::Unscoped => None,
            AllocationScope::AppUpdate => Some(MemoryDomain::App),
            AllocationScope::PerfTrace => Some(MemoryDomain::PerfTrace),
            AllocationScope::FileLoad => Some(MemoryDomain::FileLoad),
            AllocationScope::PlaybackLoad => Some(MemoryDomain::PlaybackLoad),
            AllocationScope::AudioCallback => Some(MemoryDomain::AudioCallback),
            AllocationScope::PlaybackRender => Some(MemoryDomain::PlaybackRender),
            AllocationScope::RenderStems => Some(MemoryDomain::RenderStems),
            AllocationScope::RenderMixer => Some(MemoryDomain::RenderMixer),
            AllocationScope::RenderSnapshot => Some(MemoryDomain::RenderSnapshot),
            AllocationScope::Ui => Some(MemoryDomain::Ui),
        }
    }

    pub fn index(self) -> (index: usize)
        ensures
            index == self.number(),
            index < SCOPE_COUNT,
    {
        match self {
            AllocationScope::Unscoped => 0,
            AllocationScope::AppUpdate => 1,
            AllocationScope::PerfTrace => 2,
            AllocationScope::FileLoad => 3,
            AllocationScope::PlaybackLoad => 4,
            AllocationScope::AudioCallback => 5,
            AllocationScope::PlaybackRender => 6,
            AllocationScope::RenderStems => 7,
            AllocationScope::RenderMixer => 8,
            AllocationScope::RenderSnapshot => 9,
            AllocationScope::Ui => 10,
        }
    }

    pub fn label(self) -> (label: &'static str)
        ensures
            label@ == self.text(),
    {
        match self {
            AllocationScope::Unscoped => "unscoped",
            AllocationScope::AppUpdate => "app.update",
            AllocationScope::PerfTrace => "perf.trace",
            AllocationScope::FileLoad => "file.load",
            AllocationScope::PlaybackLoad => "playback.load",
            AllocationScope::AudioCallback => "audio.callback",
            AllocationScope::PlaybackRender => "playback.render",
            AllocationScope::RenderStems => "render.stems",
            AllocationScope::RenderMixer => "render.mixer",
            AllocationScope::RenderSnapshot => "render.snapshot",
            AllocationScope::Ui => "ui",
        }
    }

    pub fn from_index(index: usize) -> (scope: AllocationScope)
        ensures
            scope == scope_at(index as int),
    {
        match index {
            1 => AllocationScope::AppUpdate,
            2 => AllocationScope::PerfTrace,
            3 => AllocationScope::FileLoad,
            4 => AllocationScope::PlaybackLoad,
            5 => AllocationScope::AudioCallback,
            6 => AllocationScope::PlaybackRender,
            7 => AllocationScope::RenderStems,
            8 => AllocationScope::RenderMixer,
            9 => AllocationScope::RenderSnapshot,
            10 => AllocationScope::Ui,
            _ => AllocationScope::Unscoped,
        }
    }
}

/// A scope is found again by its number.
pub proof fn scope_numbers_read_back(scope: AllocationScope)
    ensures
        scope_at(scope.number()) == scope,
        0 <= scope.number() < SCOPE_COUNT,
{
}

pub fn memory_domain_for_scope(scope: AllocationScope) -> (domain: Option<MemoryDomain>)
    ensures
        domain == scope.domain(),
{
    match scope {
        AllocationScope::Unscoped => None,
        AllocationScope::AppUpdate => Some(MemoryDomain::App),
        AllocationScope::PerfTrace => Some(MemoryDomain::PerfTrace),
        AllocationScope::FileLoad => Some(MemoryDomain::FileLoad),
        AllocationScope::PlaybackLoad => Some(MemoryDomain::PlaybackLoad),
        AllocationScope::AudioCallback => Some(MemoryDomain::AudioCallback),
        AllocationScope::PlaybackRender => Some(MemoryDomain::PlaybackRender),
        AllocationScope::RenderStems => Some(MemoryDomain::RenderStems),
        AllocationScope::RenderMixer => Some(MemoryDomain::RenderMixer),
        AllocationScope::RenderSnapshot => Some(MemoryDomain::RenderSnapshot),
        AllocationScope::Ui => Some(MemoryDomain::Ui),
    }
}

/// What the current thread works on: its scope and its memory domain.
#[derive(Debug, Copy, Clone, PartialEq, Eq, Structural)]
pub struct ThreadScope {
    pub scope: usize,
    pub domain: ThreadDomain,
}

/// What a thread goes back to when a scope ends. In a build without the trace there is
/// nothing to go back to.
#[derive(Debug, Copy, Clone, PartialEq, Eq, Structural)]
pub struct AllocationScopeGuard {
    pub previous: Option<usize>,
    pub memory_guard: Option<MemoryThreadGuard>,
}

impl ThreadScope {
    /// The thread once it has entered a scope, and what it goes back to. In a build without
    /// the trace this does nothing.
    pub open spec fn entered(self, compiled: bool, scope: AllocationScope) -> (
        ThreadScope,
        AllocationScopeGuard,
    ) {
        if !compiled {
            (self, AllocationScopeGuard { previous: None, memory_guard: None })
        } else {
            (
                ThreadScope {
                    scope: scope.number() as usize,
                    domain: match scope.domain() {
                        Some(domain) => ThreadDomain { current: domain.number() as usize },
                        None => self.domain,
                    },
                },
                AllocationScopeGuard {
                    previous: Some(self.scope),
                    memory_guard: match scope.domain() {
                        Some(_) => Some(
                            MemoryThreadGuard {
                                previous_domain: domain_at(self.domain.current as int),
                            },
                        ),
                        None => None,
                    },
                },
            )
        }
    }

    /// The thread once it has left a scope.
    pub open spec fn left(self, guard: AllocationScopeGuard) -> ThreadScope {
        ThreadScope {
            scope: match guard.previous {
                Some(previous) => previous,
                None => self.scope,
            },
            domain: match guard.memory_guard {
                Some(memory) => ThreadDomain {
                    current: match memory.previous_domain {
                        Some(domain) => domain.number() as usize,
                        None => usize::MAX,
                    },
                },
                None => self.domain,
            },
        }
    }

    /// The thread once it has entered scopes one inside the other, and left them again.
    pub open spec fn through(self, compiled: bool, scopes: Seq<AllocationScope>) -> ThreadScope
        decreases scopes.len(),
    {
        if scopes.len() == 0 {
            self
        } else {
            let (inside, guard) = self.entered(compiled, scopes[0]);
            inside.through(compiled, scopes.skip(1)).left(guard)
        }
    }
}

impl AllocationScopeGuard {
    /// Enters a scope. The thread is bound to the domain of the scope, if that
    /// has one, which may ask something of the allocator. `compiled` says whether the build
    /// has the trace: without it nothing happens.
    pub fn enter(
        compiled: bool,
        thread: &mut ThreadScope,
        memory: &mut MemoryRuntime,
        scope: AllocationScope,
    ) -> (entered: (AllocationScopeGuard, Option<MemoryAction>))
        requires
            old(thread).domain.wf(),
            old(memory).wf(),
        ensures
            final(memory).wf(),
            final(thread).domain.wf(),
            (*final(thread), entered.0) == old(thread).entered(compiled, scope),
            match scope.domain() {
                Some(domain) if compiled => {
                    &&& final(memory).same_but_arenas(old(memory))
                    &&& final(memory).points@ == old(memory).points@
                    &&& final(memory).domains@ == old(memory).domains@.update(
                        domain.number(),
                        DomainRuntime {
                            bind_count: counted(
                                old(memory).domains@[domain.number()].bind_count,
                            ),
                            ..old(memory).domains@[domain.number()]
                        },
                    )
                    &&& entered.1 == (match old(memory).domains@[domain.number()].arena {
                        Some(arena) => Some(MemoryAction::Bind(arena)),
                        None => None,
                    })
                },
                _ => entered.1 is None && *final(memory) == *old(memory),
            },
    {
        if !compiled {
            return (AllocationScopeGuard { previous: None, memory_guard: None }, None);
        }
        let previous = Some(thread.scope);
        thread.scope = scope.index();
        match memory_domain_for_scope(scope) {
            Some(domain) => {
                let (guard, action) = memory.bind_current_thread(&mut thread.domain, domain);
                (AllocationScopeGuard { previous, memory_guard: Some(guard) }, action)
            },
            None => (AllocationScopeGuard { previous, memory_guard: None }, None),
        }
    }

    /// Leaves the scope: the thread goes back to what it worked on before.
    pub fn leave(self, thread: &mut ThreadScope)
        ensures
            *final(thread) == old(thread).left(self),
    {
        match self.previous {
            Some(previous) => {
                thread.scope = previous;
            },
            None => {},
        }
        match self.memory_guard {
            Some(guard) => thread.domain.release(guard),
            None => {},
        }
    }
}

/// Leaving the scopes that a thread has entered one inside the other, the innermost first,
/// leaves the thread as it was.
pub proof fn leaving_restores_the_thread(
    thread: ThreadScope,
    compiled: bool,
    scopes: Seq<AllocationScope>,
)
    requires
        thread.domain.wf(),
    ensures
        thread.through(compiled, scopes) == thread,
    decreases scopes.len(),
{
    if scopes.len() > 0 {
        let (inside, guard) = thread.entered(compiled, scopes[0]);
        leaving_restores_the_thread(inside, compiled, scopes.skip(1));
    }
}

/// Inside a scope a thread is bound to a domain exactly if the scope has one: every scope
/// has but the one of work that belongs to none. Without the trace entering does nothing.
pub proof fn entering_binds_the_domain_of_the_scope(thread: ThreadScope, scope: AllocationScope)
    ensures
        thread.entered(true, scope).0.scope == scope.number(),
        (thread.entered(true, scope).1.memory_guard is Some) == (scope
            != AllocationScope::Unscoped),
        thread.entered(false, scope).0 == thread,
        thread.entered(false, scope).1.memory_guard is None,
{
}

/// What a thread allocates, releases or resizes inside a scope is booked to that scope and
/// to the whole, and to no other scope.
pub proof fn allocations_are_charged_to_the_scope(
    thread: ThreadScope,
    scope: AllocationScope,
    books: Books,
    entry: BookEntry,
)
    requires
        books.scopes.len() == SCOPE_COUNT,
        entry.scope() == thread.entered(true, scope).0.scope,
    ensures
        books.entered(entry).totals == entry.booked(books.totals),
        books.entered(entry).scopes[scope.number()] == entry.booked(books.scopes[scope.number()]),
        forall|other: AllocationScope|
            other != scope ==> books.entered(entry).scopes[#[trigger] other.number()]
                == books.scopes[other.number()],
{
    scope_numbers_read_back(scope);
    assert forall|other: AllocationScope| other != scope implies books.entered(
        entry,
    ).scopes[#[trigger] other.number()] == books.scopes[other.number()] by {
        scope_numbers_read_back(other);
    }
}

/// What was allocated in one scope.
#[derive(Debug, Copy, Clone, PartialEq, Eq, Structural)]
pub struct ScopeStats {
    pub alloc_calls: u64,
    pub dealloc_calls: u64,
    pub realloc_calls: u64,
    pub alloc_bytes: u64,
    pub dealloc_bytes: u64,
    pub realloc_in_bytes: u64,
    pub realloc_out_bytes: u64,
    pub net_bytes: i64,
    pub peak_net_bytes: u64,
}

/// Nothing allocated.
pub open spec fn no_stats() -> ScopeStats {
    ScopeStats {
        alloc_calls: 0,
        dealloc_calls: 0,
        realloc_calls: 0,
        alloc_bytes: 0,
        dealloc_bytes: 0,
        realloc_in_bytes: 0,
        realloc_out_bytes: 0,
        net_bytes: 0,
        peak_net_bytes: 0,
    }
}

/// A count that starts again at 0 behind the largest number.
pub open spec fn u64_wrapped(n: int) -> u64 {
    if n > u64::MAX {
        (n - u64::MAX - 1) as u64
    } else {
        n as u64
    }
}

/// A balance that wraps around at the ends of its range.
pub open spec fn i64_wrapped(n: int) -> i64 {
    if n > i64::MAX {
        (n - u64::MAX - 1) as i64
    } else if n < i64::MIN {
        (n + u64::MAX + 1) as i64
    } else {
        n as i64
    }
}

/// The larger of a peak and a balance, which counts as 0 below zero.
pub open spec fn peak_of(peak: u64, balance: int) -> u64 {
    max_of(peak as int, max_of(balance, 0)) as u64
}

impl ScopeStats {
    pub fn new() -> (stats: ScopeStats)
        ensures
            stats == no_stats(),
    {
        ScopeStats {
            alloc_calls: 0,
            dealloc_calls: 0,
            realloc_calls: 0,
            alloc_bytes: 0,
            dealloc_bytes: 0,
            realloc_in_bytes: 0,
            realloc_out_bytes: 0,
            net_bytes: 0,
            peak_net_bytes: 0,
        }
    }

    /// The books with one more allocation.
    pub open spec fn with_alloc(self, size: int) -> ScopeStats {
        ScopeStats {
            alloc_calls: counted(self.alloc_calls),
            alloc_bytes: u64_wrapped(self.alloc_bytes + size),
            net_bytes: (self.net_bytes + size) as i64,
            peak_net_bytes: peak_of(self.peak_net_bytes, self.net_bytes + size),
            ..self
        }
    }

    /// The books with one more release.
    pub open spec fn with_dealloc(self, size: int) -> ScopeStats {
        ScopeStats {
            dealloc_calls: counted(self.dealloc_calls),
            dealloc_bytes: u64_wrapped(self.dealloc_bytes + size),
            net_bytes: i64_wrapped(self.net_bytes - size),
            ..self
        }
    }

    /// The books with one more change of size.
    pub open spec fn with_realloc(self, old_size: int, new_size: int) -> ScopeStats {
        ScopeStats {
            realloc_calls: counted(self.realloc_calls),
            realloc_in_bytes: u64_wrapped(self.realloc_in_bytes + old_size),
            realloc_out_bytes: u64_wrapped(self.realloc_out_bytes + new_size),
            net_bytes: (self.net_bytes + new_size - old_size) as i64,
            peak_net_bytes: peak_of(self.peak_net_bytes, self.net_bytes + new_size - old_size),
            ..self
        }
    }

    fn book_alloc(&mut self, size: usize)
        requires
            size <= i64::MAX,
            old(self).net_bytes + size <= i64::MAX,
        ensures
            *final(self) == old(self).with_alloc(size as int),
    {
        self.alloc_calls = self.alloc_calls.wrapping_add(1);
        self.alloc_bytes = self.alloc_bytes.wrapping_add(size as u64);
        self.net_bytes = self.net_bytes + size as i64;
        self.peak_net_bytes = update_peak(self.peak_net_bytes, self.net_bytes);
    }

    fn book_dealloc(&mut self, size: usize)
        requires
            size <= i64::MAX,
        ensures
            *final(self) == old(self).with_dealloc(size as int),
    {
        self.dealloc_calls = self.dealloc_calls.wrapping_add(1);
        self.dealloc_bytes = self.dealloc_bytes.wrapping_add(size as u64);
        self.net_bytes = self.net_bytes.wrapping_sub(size as i64);
    }

    fn book_realloc(&mut self, old_size: usize, new_size: usize)
        requires
            old_size <= i64::MAX,
            new_size <= i64::MAX,
            i64::MIN <= old(self).net_bytes + new_size - old_size <= i64::MAX,
        ensures
            *final(self) == old(self).with_realloc(old_size as int, new_size as int),
    {
        self.realloc_calls = self.realloc_calls.wrapping_add(1);
        self.realloc_in_bytes = self.realloc_in_bytes.wrapping_add(old_size as u64);
        self.realloc_out_bytes = self.realloc_out_bytes.wrapping_add(new_size as u64);
        let delta: i64 = new_size as i64 - old_size as i64;
        self.net_bytes = self.net_bytes + delta;
        self.peak_net_bytes = update_peak(self.peak_net_bytes, self.net_bytes);
    }
}

fn update_peak(peak: u64, balance: i64) -> (updated: u64)
    ensures
        updated == peak_of(peak, balance as int),
{
    if balance > 0 && balance as u64 > peak {
        balance as u64
    } else {
        peak
    }
}

/// The samples of one call stack. A bucket without a hash is free.
#[derive(Debug, Copy, Clone, PartialEq, Eq, Structural)]
pub struct StackBucketStats {
    pub hash: u64,
    pub scope: usize,
    pub sample_calls: u64,
    pub sample_bytes: u64,
    pub max_sample_bytes: u64,
}

/// A free bucket.
pub open spec fn free_bucket() -> StackBucketStats {
    StackBucketStats { hash: 0, scope: 0, sample_calls: 0, sample_bytes: 0, max_sample_bytes: 0 }
}

impl StackBucketStats {
    pub fn new() -> (bucket: StackBucketStats)
        ensures
            bucket == free_bucket(),
    {
        StackBucketStats {
            hash: 0,
            scope: 0,
            sample_calls: 0,
            sample_bytes: 0,
            max_sample_bytes: 0,
        }
    }

    /// The bucket with one more sample of its call stack.
    pub open spec fn with_sample(self, hash: u64, scope: usize, bytes: u64) -> StackBucketStats {
        StackBucketStats {
            hash,
            scope,
            sample_calls: counted(self.sample_calls),
            sample_bytes: u64_wrapped(self.sample_bytes + bytes),
            max_sample_bytes: max_of(self.max_sample_bytes as int, bytes as int) as u64,
        }
    }
}

/// The place that is looked at in step `k` of the search for a hash.
pub open spec fn probe(hash: u64, k: int) -> int {
    (hash as int % 64 + k) % 64
}

/// The bucket for a hash, from step `k` of the search on: the first that holds
/// the hash or is free.
pub open spec fn bucket_for(buckets: Seq<StackBucketStats>, hash: u64, k: int) -> Option<int>
    decreases 64 - k,
{
    if k >= 64 {
        None
    } else if buckets[probe(hash, k)].hash == hash || buckets[probe(hash, k)].hash == 0 {
        Some(probe(hash, k))
    } else {
        bucket_for(buckets, hash, k + 1)
    }
}

/// Every hash is found in the bucket where it is.
pub open spec fn buckets_wf(buckets: Seq<StackBucketStats>) -> bool {
    &&& buckets.len() == STACK_BUCKET_COUNT
    &&& forall|i: int|
        0 <= i < buckets.len() && (#[trigger] buckets[i]).hash != 0 ==> bucket_for(
            buckets,
            buckets[i].hash,
            0,
        ) == Some(i)
}

/// The buckets after a sample; it is dropped if every bucket holds another hash.
pub open spec fn sampled(
    buckets: Seq<StackBucketStats>,
    hash: u64,
    scope: usize,
    bytes: u64,
) -> Seq<StackBucketStats> {
    if hash == 0 {
        buckets
    } else {
        match bucket_for(buckets, hash, 0) {
            Some(i) => buckets.update(i, buckets[i].with_sample(hash, scope, bytes)),
            None => buckets,
        }
    }
}

proof fn lemma_bucket_for_in_range(buckets: Seq<StackBucketStats>, hash: u64, k: int)
    requires
        0 <= k,
    ensures
        match bucket_for(buckets, hash, k) {
            Some(i) => 0 <= i < 64 && (buckets[i].hash == hash || buckets[i].hash == 0),
            None => true,
        },
    decreases 64 - k,
{
    if k < 64 && !(buckets[probe(hash, k)].hash == hash || buckets[probe(hash, k)].hash == 0) {
        lemma_bucket_for_in_range(buckets, hash, k + 1);
    }
}

/// Filling a free bucket, or adding to a used one, does not change where other
/// hashes are found.
proof fn lemma_other_hashes_stay(
    before: Seq<StackBucketStats>,
    s: int,
    bucket: StackBucketStats,
    other: u64,
    k: int,
)
    requires
        before.len() == STACK_BUCKET_COUNT,
        0 <= s < 64,
        0 <= k,
        other != 0,
        other != bucket.hash,
        bucket.hash != 0,
        before[s].hash == 0 || before[s].hash == bucket.hash,
        match bucket_for(before, other, k) {
            Some(i) => before[i].hash == other,
            None => true,
        },
        before[s].hash == 0 ==> bucket_for(before, other, k) is Some,
    ensures
        bucket_for(before.update(s, bucket), other, k) == bucket_for(before, other, k),
    decreases 64 - k,
{
    if k < 64 {
        let p = probe(other, k);
        let after = before.update(s, bucket);
        if !(before[p].hash == other || before[p].hash == 0) {
            lemma_other_hashes_stay(before, s, bucket, other, k + 1);
        }
    }
}

proof fn lemma_own_hash_found(
    before: Seq<StackBucketStats>,
    s: int,
    bucket: StackBucketStats,
    k: int,
)
    requires
        before.len() == STACK_BUCKET_COUNT,
        0 <= s < 64,
        0 <= k,
        bucket.hash != 0,
        bucket_for(before, bucket.hash, k) == Some(s),
    ensures
        bucket_for(before.update(s, bucket), bucket.hash, k) == Some(s),
    decreases 64 - k,
{
    if k < 64 {
        let p = probe(bucket.hash, k);
        if !(before[p].hash == bucket.hash || before[p].hash == 0) {
            if p == s {
                lemma_bucket_for_in_range(before, bucket.hash, k + 1);
            }
            lemma_own_hash_found(before, s, bucket, k + 1);
        }
    }
}

/// A sample keeps every hash where it is found.
pub proof fn sampling_keeps_buckets_findable(
    buckets: Seq<StackBucketStats>,
    hash: u64,
    scope: usize,
    bytes: u64,
)
    requires
        buckets_wf(buckets),
    ensures
        buckets_wf(sampled(buckets, hash, scope, bytes)),
{
    if hash != 0 {
        lemma_bucket_for_in_range(buckets, hash, 0);
        match bucket_for(buckets, hash, 0) {
            Some(s) => {
                let bucket = buckets[s].with_sample(hash, scope, bytes);
                let after = buckets.update(s, bucket);
                assert forall|i: int|
                    0 <= i < after.len() && (#[trigger] after[i]).hash != 0 implies bucket_for(
                    after,
                    after[i].hash,
                    0,
                ) == Some(i) by {
                    if i == s {
                        lemma_own_hash_found(buckets, s, bucket, 0);
                    } else {
                        assert(after[i] == buckets[i]);
                        assert(bucket_for(buckets, buckets[i].hash, 0) == Some(i));
                        if buckets[i].hash != hash {
                            lemma_other_hashes_stay(buckets, s, bucket, buckets[i].hash, 0);
                        }
                    }
                }
            },
            None => {},
        }
    }
}

/// No call stack has two buckets.
pub proof fn call_stacks_have_one_bucket(buckets: Seq<StackBucketStats>, i: int, j: int)
    requires
        buckets_wf(buckets),
        0 <= i < buckets.len(),
        0 <= j < buckets.len(),
        buckets[i].hash != 0,
        buckets[i].hash == buckets[j].hash,
    ensures
        i == j,
{
    assert(bucket_for(buckets, buckets[i].hash, 0) == Some(i));
    assert(bucket_for(buckets, buckets[j].hash, 0) == Some(j));
}

/// The hash of call stack frames, folded one after the other.
pub open spec fn folded_hash(frames: Seq<u64>, start: u64) -> u64
    decreases frames.len(),
{
    if frames.len() == 0 {
        start
    } else {
        let before = folded_hash(frames.drop_last(), start);
        let mixed = before ^ frames.last();
        ((mixed * 0x100000001b3u64) % 0x1_0000_0000_0000_0000) as u64
    }
}

/// The hash of a call stack. Where frames cannot be captured it is the seed, a
/// stack without frames has none, and 0 is never the hash of a stack.
pub open spec fn stack_hash(seed: u64, frames: Option<Seq<u64>>) -> u64 {
    match frames {
        None => max_of(seed as int, 1) as u64,
        Some(frames) => if frames.len() == 0 {
            0
        } else {
            max_of(folded_hash(frames, 0xcbf29ce484222325u64 ^ seed) as int, 1) as u64
        },
    }
}

/// The hash of a call stack, from its captured frames where those can be had.
pub fn capture_stack_hash(seed: u64, frames: Option<&[u64]>) -> (hash: u64)
    ensures
        hash == stack_hash(
            seed,
            match frames {
                Some(frames) => Some(frames@),
                None => None,
            },
        ),
{
    let frames = match frames {
        Some(frames) => frames,
        None => {
            return max_u64(seed, 1);
        },
    };
    if frames.len() == 0 {
        return 0;
    }
    let ghost start = 0xcbf29ce484222325u64 ^ seed;
    let mut hash: u64 = 0xcbf29ce484222325u64 ^ seed;
    let mut i: usize = 0;
    assert(frames@.take(0) =~= Seq::<u64>::empty());
    while i < frames.len()
        invariant
            i <= frames@.len(),
            hash == folded_hash(frames@.take(i as int), start),
        decreases frames@.len() - i,
    {
        assert(frames@.take(i + 1).drop_last() =~= frames@.take(i as int));
        hash = hash ^ frames[i];
        hash = hash.wrapping_mul(0x100000001b3u64);
        i = i + 1;
    }
    assert(frames@.take(i as int) =~= frames@);
    max_u64(hash, 1)
}

/// The books of the tracing allocator. A build without the trace keeps none.
#[derive(Debug)]
pub struct TracingAllocator {
    pub compiled: bool,
    pub suspended: bool,
    pub totals: ScopeStats,
    pub outstanding_allocations: i64,
    pub sequence: u64,
    pub scopes: Vec<ScopeStats>,
    pub buckets: Vec<StackBucketStats>,
}

/// The scope to which an allocation is counted.
pub open spec fn scope_slot(scope: usize) -> int {
    if scope < SCOPE_COUNT {
        scope as int
    } else {
        SCOPE_COUNT - 1
    }
}

fn current_scope_index(scope: usize) -> (index: usize)
    ensures
        index == scope_slot(scope),
        index < SCOPE_COUNT,
{
    if scope < SCOPE_COUNT {
        scope
    } else {
        SCOPE_COUNT - 1
    }
}

/// The books: those of the whole program, those of each scope, and how many allocations
/// are not released yet.
pub ghost struct Books {
    pub totals: ScopeStats,
    pub scopes: Seq<ScopeStats>,
    pub outstanding: i64,
}

/// What is booked, with the scope it is counted to and its sizes.
pub ghost enum BookEntry {
    Alloc(usize, int),
    Dealloc(usize, int),
    Realloc(usize, int, int),
}

impl BookEntry {
    /// The scope that the thread was in.
    pub open spec fn scope(self) -> usize {
        match self {
            BookEntry::Alloc(scope, _) => scope,
            BookEntry::Dealloc(scope, _) => scope,
            BookEntry::Realloc(scope, _, _) => scope,
        }
    }

    pub open spec fn slot(self) -> int {
        scope_slot(self.scope())
    }

    /// Books of one scope, or of all, with the entry.
    pub open spec fn booked(self, stats: ScopeStats) -> ScopeStats {
        match self {
            BookEntry::Alloc(_, size) => stats.with_alloc(size),
            BookEntry::Dealloc(_, size) => stats.with_dealloc(size),
            BookEntry::Realloc(_, old_size, new_size) => stats.with_realloc(old_size, new_size),
        }
    }

    /// The sizes are those of allocations, and nothing that the entry is counted in runs
    /// out of its range.
    pub open spec fn fits(self, stats: ScopeStats) -> bool {
        match self {
            BookEntry::Alloc(_, size) => {
                &&& 0 <= size <= i64::MAX
                &&& stats.alloc_calls < u64::MAX
                &&& stats.alloc_bytes + size <= u64::MAX
                &&& stats.net_bytes + size <= i64::MAX
            },
            BookEntry::Dealloc(_, size) => {
                &&& 0 <= size <= i64::MAX
                &&& stats.dealloc_calls < u64::MAX
                &&& stats.dealloc_bytes + size <= u64::MAX
                &&& stats.net_bytes - size >= i64::MIN
            },
            BookEntry::Realloc(_, old_size, new_size) => {
                &&& 0 <= old_size <= i64::MAX
                &&& 0 <= new_size <= i64::MAX
                &&& stats.realloc_calls < u64::MAX
                &&& stats.realloc_in_bytes + old_size <= u64::MAX
                &&& stats.realloc_out_bytes + new_size <= u64::MAX
                &&& i64::MIN <= stats.net_bytes + new_size - old_size <= i64::MAX
            },
        }
    }
}

/// Nothing booked.
pub open spec fn no_books() -> Books {
    Books {
        totals: no_stats(),
        scopes: Seq::new(SCOPE_COUNT as nat, |i: int| no_stats()),
        outstanding: 0,
    }
}

impl Books {
    /// The books with one more entry.
    pub open spec fn entered(self, entry: BookEntry) -> Books {
        Books {
            totals: entry.booked(self.totals),
            scopes: self.scopes.update(entry.slot(), entry.booked(self.scopes[entry.slot()])),
            outstanding: match entry {
                BookEntry::Alloc(_, _) => i64_wrapped(self.outstanding + 1),
                BookEntry::Dealloc(_, _) => i64_wrapped(self.outstanding - 1),
                BookEntry::Realloc(_, _, _) => self.outstanding,
            },
        }
    }

    /// The books after a history of entries.
    pub open spec fn after(self, history: Seq<BookEntry>) -> Books
        decreases history.len(),
    {
        if history.len() == 0 {
            self
        } else {
            self.after(history.drop_last()).entered(history.last())
        }
    }

    /// No count runs out of its range with an entry.
    pub open spec fn takes(self, entry: BookEntry) -> bool {
        &&& entry.fits(self.totals)
        &&& entry.fits(self.scopes[entry.slot()])
        &&& i64::MIN < self.outstanding < i64::MAX
    }

    /// No count runs out of its range in a history.
    pub open spec fn takes_all(self, history: Seq<BookEntry>) -> bool
        decreases history.len(),
    {
        history.len() > 0 ==> self.takes_all(history.drop_last()) && self.after(
            history.drop_last(),
        ).takes(history.last())
    }
}

impl ScopeStats {
    /// What is held is what was taken less what was released, and the peak covers it.
    pub open spec fn balances(self) -> bool {
        &&& self.net_bytes == self.alloc_bytes - self.dealloc_bytes + self.realloc_out_bytes
            - self.realloc_in_bytes
        &&& self.net_bytes <= self.peak_net_bytes
    }
}

/// The sum of one count over scopes.
pub open spec fn sum_over(scopes: Seq<ScopeStats>, count: spec_fn(ScopeStats) -> int) -> int
    decreases scopes.len(),
{
    if scopes.len() == 0 {
        0
    } else {
        sum_over(scopes.drop_last(), count) + count(scopes.last())
    }
}

proof fn lemma_sum_of_update(
    scopes: Seq<ScopeStats>,
    i: int,
    stats: ScopeStats,
    count: spec_fn(ScopeStats) -> int,
)
    requires
        0 <= i < scopes.len(),
    ensures
        sum_over(scopes.update(i, stats), count) == sum_over(scopes, count) - count(scopes[i])
            + count(stats),
    decreases scopes.len(),
{
    let updated = scopes.update(i, stats);
    if i == scopes.len() - 1 {
        assert(updated.drop_last() =~= scopes.drop_last());
    } else {
        assert(updated.drop_last() =~= scopes.drop_last().update(i, stats));
        lemma_sum_of_update(scopes.drop_last(), i, stats, count);
    }
}

proof fn lemma_sum_of_nothing(n: nat, count: spec_fn(ScopeStats) -> int)
    requires
        count(no_stats()) == 0,
    ensures
        sum_over(Seq::new(n, |i: int| no_stats()), count) == 0,
    decreases n,
{
    if n > 0 {
        let scopes = Seq::new(n, |i: int| no_stats());
        assert(scopes.drop_last() =~= Seq::new((n - 1) as nat, |i: int| no_stats()));
        lemma_sum_of_nothing((n - 1) as nat, count);
    }
}

impl Books {
    /// The totals are the sums over the scopes.
    pub open spec fn adds_up(self) -> bool {
        &&& self.totals.alloc_calls == sum_over(self.scopes, |s: ScopeStats| s.alloc_calls as int)
        &&& self.totals.dealloc_calls == sum_over(
            self.scopes,
            |s: ScopeStats| s.dealloc_calls as int,
        )
        &&& self.totals.realloc_calls == sum_over(
            self.scopes,
            |s: ScopeStats| s.realloc_calls as int,
        )
        &&& self.totals.alloc_bytes == sum_over(self.scopes, |s: ScopeStats| s.alloc_bytes as int)
        &&& self.totals.dealloc_bytes == sum_over(
            self.scopes,
            |s: ScopeStats| s.dealloc_bytes as int,
        )
        &&& self.totals.realloc_in_bytes == sum_over(
            self.scopes,
            |s: ScopeStats| s.realloc_in_bytes as int,
        )
        &&& self.totals.realloc_out_bytes == sum_over(
            self.scopes,
            |s: ScopeStats| s.realloc_out_bytes as int,
        )
        &&& self.totals.net_bytes == sum_over(self.scopes, |s: ScopeStats| s.net_bytes as int)
    }

    /// The books balance, in all and in each scope, and add up.
    pub open spec fn balance(self) -> bool {
        &&& self.scopes.len() == SCOPE_COUNT
        &&& self.totals.balances()
        &&& forall|i: int| 0 <= i < SCOPE_COUNT ==> (#[trigger] self.scopes[i]).balances()
        &&& self.outstanding == self.totals.alloc_calls - self.totals.dealloc_calls
        &&& self.adds_up()
    }
}

proof fn lemma_entry_keeps_sums(books: Books, entry: BookEntry)
    requires
        books.scopes.len() == SCOPE_COUNT,
        books.adds_up(),
        books.takes(entry),
    ensures
        books.entered(entry).adds_up(),
{
    let i = entry.slot();
    let stats = entry.booked(books.scopes[i]);
    lemma_sum_of_update(books.scopes, i, stats, |s: ScopeStats| s.alloc_calls as int);
    lemma_sum_of_update(books.scopes, i, stats, |s: ScopeStats| s.dealloc_calls as int);
    lemma_sum_of_update(books.scopes, i, stats, |s: ScopeStats| s.realloc_calls as int);
    lemma_sum_of_update(books.scopes, i, stats, |s: ScopeStats| s.alloc_bytes as int);
    lemma_sum_of_update(books.scopes, i, stats, |s: ScopeStats| s.dealloc_bytes as int);
    lemma_sum_of_update(books.scopes, i, stats, |s: ScopeStats| s.realloc_in_bytes as int);
    lemma_sum_of_update(books.scopes, i, stats, |s: ScopeStats| s.realloc_out_bytes as int);
    lemma_sum_of_update(books.scopes, i, stats, |s: ScopeStats| s.net_bytes as int);
}

proof fn lemma_no_books_balance()
    ensures
        no_books().balance(),
{
    let n = SCOPE_COUNT as nat;
    lemma_sum_of_nothing(n, |s: ScopeStats| s.alloc_calls as int);
    lemma_sum_of_nothing(n, |s: ScopeStats| s.dealloc_calls as int);
    lemma_sum_of_nothing(n, |s: ScopeStats| s.realloc_calls as int);
    lemma_sum_of_nothing(n, |s: ScopeStats| s.alloc_bytes as int);
    lemma_sum_of_nothing(n, |s: ScopeStats| s.dealloc_bytes as int);
    lemma_sum_of_nothing(n, |s: ScopeStats| s.realloc_in_bytes as int);
    lemma_sum_of_nothing(n, |s: ScopeStats| s.realloc_out_bytes as int);
    lemma_sum_of_nothing(n, |s: ScopeStats| s.net_bytes as int);
}

/// After any history in which no count runs out of its range the books balance: in all and
/// in each scope what is held is what was taken less what was released, the peak covers it,
/// what is outstanding is the allocations less the releases, and each total is the sum over
/// the scopes.
pub proof fn books_balance_after_any_history(history: Seq<BookEntry>)
    requires
        no_books().takes_all(history),
    ensures
        no_books().after(history).balance(),
    decreases history.len(),
{
    if history.len() == 0 {
        lemma_no_books_balance();
    } else {
        books_balance_after_any_history(history.drop_last());
        let before = no_books().after(history.drop_last());
        let entry = history.last();
        lemma_entry_keeps_sums(before, entry);
        let after = before.entered(entry);
        assert forall|i: int| 0 <= i < SCOPE_COUNT implies (
        #[trigger] after.scopes[i]).balances() by {
            assert(before.scopes[i].balances());
        }
    }
}

/// A snapshot of a trace after any history in which no count ran out of its range shows
/// books that balance.
pub proof fn snapshots_show_balanced_books(
    snapshot: AllocationTraceSnapshot,
    trace: TracingAllocator,
    history: Seq<BookEntry>,
)
    requires
        no_books().takes_all(history),
        trace.compiled,
        trace.books() == no_books().after(history),
        snapshot.shows(trace),
    ensures
        snapshot.live_bytes == snapshot.alloc_bytes - snapshot.dealloc_bytes
            + snapshot.realloc_out_bytes - snapshot.realloc_in_bytes,
        snapshot.outstanding_allocations == snapshot.alloc_calls - snapshot.dealloc_calls,
        snapshot.live_bytes <= snapshot.peak_live_bytes,
        snapshot.scopes@.len() == SCOPE_COUNT,
        forall|i: int|
            0 <= i < SCOPE_COUNT ==> (#[trigger] snapshot.scopes@[i]).shows(
                scope_at(i),
                trace.scopes@[i],
            ) && trace.scopes@[i].balances(),
        trace.books().adds_up(),
        snapshot.live_bytes == sum_over(trace.scopes@, |s: ScopeStats| s.net_bytes as int),
{
    books_balance_after_any_history(history);
    let books = trace.books();
    assert forall|i: int| 0 <= i < SCOPE_COUNT implies (#[trigger] snapshot.scopes@[i]).shows(
        scope_at(i),
        trace.scopes@[i],
    ) && trace.scopes@[i].balances() by {
        assert(books.scopes[i].balances());
    }
}

impl TracingAllocator {
    /// The books of the trace.
    pub open spec fn books(&self) -> Books {
        Books {
            totals: self.totals,
            scopes: self.scopes@,
            outstanding: self.outstanding_allocations,
        }
    }

    /// There are books for each scope, and every sampled stack is found again.
    pub open spec fn wf(&self) -> bool {
        self.scopes@.len() == SCOPE_COUNT && buckets_wf(self.buckets@)
    }

    /// The balances stay inside their range when memory of the given sizes is
    /// released and taken.
    pub open spec fn fits(&self, scope: usize, old_size: int, new_size: int) -> bool {
        &&& 0 <= old_size <= i64::MAX
        &&& 0 <= new_size <= i64::MAX
        &&& i64::MIN <= self.totals.net_bytes + new_size - old_size <= i64::MAX
        &&& i64::MIN <= self.scopes@[scope_slot(scope)].net_bytes + new_size - old_size <= i64::MAX
    }

    /// Whether allocations are booked now.
    pub open spec fn books_now(&self) -> bool {
        self.compiled && !self.suspended
    }

    pub fn new(compiled: bool) -> (trace: TracingAllocator)
        ensures
            trace.wf(),
            trace.compiled == compiled,
            !trace.suspended,
            trace.books() == no_books(),
            trace.sequence == 0,
            forall|i: int|
                0 <= i < STACK_BUCKET_COUNT ==> #[trigger] trace.buckets@[i] == free_bucket(),
    {
        let mut scopes: Vec<ScopeStats> = Vec::new();
        while scopes.len() < SCOPE_COUNT
            invariant
                scopes@.len() <= SCOPE_COUNT,
                forall|i: int| 0 <= i < scopes@.len() ==> #[trigger] scopes@[i] == no_stats(),
            decreases SCOPE_COUNT - scopes@.len(),
        {
            scopes.push(ScopeStats::new());
        }
        let mut buckets: Vec<StackBucketStats> = Vec::new();
        while buckets.len() < STACK_BUCKET_COUNT
            invariant
                buckets@.len() <= STACK_BUCKET_COUNT,
                forall|i: int| 0 <= i < buckets@.len() ==> #[trigger] buckets@[i] == free_bucket(),
            decreases STACK_BUCKET_COUNT - buckets@.len(),
        {
            buckets.push(StackBucketStats::new());
        }
        assert(scopes@ =~= no_books().scopes);
        TracingAllocator {
            compiled,
            suspended: false,
            totals: ScopeStats::new(),
            outstanding_allocations: 0,
            sequence: 0,
            scopes,
            buckets,
        }
    }

    fn record_stack_sample(&mut self, scope: usize, bytes: u64, hash: u64)
        requires
            old(self).wf(),
        ensures
            final(self).wf(),
            final(self).buckets@ == sampled(old(self).buckets@, hash, scope, bytes),
            final(self).scopes == old(self).scopes,
            final(self).totals == old(self).totals,
            final(self).compiled == old(self).compiled,
            final(self).suspended == old(self).suspended,
            final(self).outstanding_allocations == old(self).outstanding_allocations,
            final(self).sequence == old(self).sequence,
    {
        proof {
            sampling_keeps_buckets_findable(self.buckets@, hash, scope, bytes);
        }
        if hash == 0 {
            return;
        }
        let ghost before = self.buckets@;
        let start: usize = (hash % 64) as usize;
        let mut k: usize = 0;
        while k < STACK_BUCKET_COUNT
            invariant
                k <= STACK_BUCKET_COUNT,
                hash != 0,
                start == hash as int % 64,
                *self == *old(self),
                self.scopes@.len() == SCOPE_COUNT,
                before == self.buckets@,
                before.len() == STACK_BUCKET_COUNT,
                buckets_wf(sampled(before, hash, scope, bytes)),
                bucket_for(before, hash, 0) == bucket_for(before, hash, k as int),
            decreases STACK_BUCKET_COUNT - k,
        {
            let index: usize = (start + k) % STACK_BUCKET_COUNT;
            assert(index == probe(hash, k as int));
            let bucket = self.buckets[index];
            if bucket.hash == hash || bucket.hash == 0 {
                self.buckets[index] = StackBucketStats {
                    hash,
                    scope,
                    sample_calls: bucket.sample_calls.wrapping_add(1),
                    sample_bytes: bucket.sample_bytes.wrapping_add(bytes),
                    max_sample_bytes: max_u64(bucket.max_sample_bytes, bytes),
                };
                assert(self.buckets@ =~= sampled(before, hash, scope, bytes));
                return;
            }
            k = k + 1;
        }
    }

    /// Books an allocation, unless the trace is suspended or not there. Large allocations and
    /// one in a cycle of others are sampled under the hash of their call stack.
    pub fn record_alloc(&mut self, scope: usize, size: usize, hash: u64)
        requires
            old(self).wf(),
            old(self).books_now() ==> old(self).fits(scope, 0, size as int),
        ensures
            final(self).wf(),
            final(self).compiled == old(self).compiled,
            final(self).suspended == old(self).suspended,
            !old(self).books_now() ==> *final(self) == *old(self),
            old(self).books_now() ==> {
                &&& final(self).books() == old(self).books().entered(
                    BookEntry::Alloc(scope, size as int),
                )
                &&& final(self).sequence == counted(old(self).sequence)
                &&& final(self).buckets@ == if size >= LARGE_ALLOCATION_SAMPLE_BYTES || old(
                    self).sequence % PERIODIC_SAMPLE_CYCLE == 0 {
                    sampled(
                        old(self).buckets@,
                        hash,
                        scope_slot(scope) as usize,
                        size as u64,
                    )
                } else {
                    old(self).buckets@
                }
            },
    {
        if !self.compiled || self.suspended {
            return;
        }
        let slot: usize = current_scope_index(scope);
        self.outstanding_allocations = self.outstanding_allocations.wrapping_add(1);
        self.totals.book_alloc(size);
        self.scopes[slot].book_alloc(size);
        let sequence: u64 = self.sequence;
        self.sequence = sequence.wrapping_add(1);
        if size >= LARGE_ALLOCATION_SAMPLE_BYTES || sequence % PERIODIC_SAMPLE_CYCLE == 0 {
            self.record_stack_sample(slot, size as u64, hash);
        }
    }

    /// Books a release, unless the trace is suspended or not there.
    pub fn record_dealloc(&mut self, scope: usize, size: usize)
        requires
            old(self).wf(),
            old(self).books_now() ==> size <= i64::MAX,
        ensures
            final(self).wf(),
            final(self).compiled == old(self).compiled,
            final(self).suspended == old(self).suspended,
            final(self).sequence == old(self).sequence,
            final(self).buckets == old(self).buckets,
            !old(self).books_now() ==> *final(self) == *old(self),
            old(self).books_now() ==> {
                final(self).books() == old(self).books().entered(
                    BookEntry::Dealloc(scope, size as int),
                )
            },
    {
        if !self.compiled || self.suspended {
            return;
        }
        let slot: usize = current_scope_index(scope);
        self.outstanding_allocations = self.outstanding_allocations.wrapping_sub(1);
        self.totals.book_dealloc(size);
        self.scopes[slot].book_dealloc(size);
    }

    /// Books a change of size, unless the trace is suspended or not there.
    pub fn record_realloc(&mut self, scope: usize, old_size: usize, new_size: usize, hash: u64)
        requires
            old(self).wf(),
            old(self).books_now() ==> old(self).fits(scope, old_size as int, new_size as int),
        ensures
            final(self).wf(),
            final(self).compiled == old(self).compiled,
            final(self).suspended == old(self).suspended,
            final(self).sequence == old(self).sequence,
            !old(self).books_now() ==> *final(self) == *old(self),
            old(self).books_now() ==> {
                &&& final(self).books() == old(self).books().entered(
                    BookEntry::Realloc(scope, old_size as int, new_size as int),
                )
                &&& final(self).buckets@ == if new_size >= LARGE_ALLOCATION_SAMPLE_BYTES {
                    sampled(
                        old(self).buckets@,
                        hash,
                        scope_slot(scope) as usize,
                        new_size as u64,
                    )
                } else {
                    old(self).buckets@
                }
            },
    {
        if !self.compiled || self.suspended {
            return;
        }
        let slot: usize = current_scope_index(scope);
        self.totals.book_realloc(old_size, new_size);
        self.scopes[slot].book_realloc(old_size, new_size);
        if new_size >= LARGE_ALLOCATION_SAMPLE_BYTES {
            self.record_stack_sample(slot, new_size as u64, hash);
        }
    }
}

/// Releasing what was just allocated restores the balance.
pub proof fn release_balances_allocation(stats: ScopeStats, size: int)
    requires
        0 <= size <= i64::MAX,
        stats.net_bytes + size <= i64::MAX,
    ensures
        stats.with_alloc(size).with_dealloc(size).net_bytes == stats.net_bytes,
{
}

/// The peak never falls and, unless it is below zero, covers the balance after
/// an allocation or a change of size.
pub proof fn peak_covers_the_balance(stats: ScopeStats, old_size: int, new_size: int)
    requires
        0 <= old_size <= i64::MAX,
        0 <= new_size <= i64::MAX,
        i64::MIN <= stats.net_bytes + new_size - old_size <= i64::MAX,
        stats.net_bytes + new_size <= i64::MAX,
    ensures
        stats.with_alloc(new_size).peak_net_bytes >= stats.peak_net_bytes,
        stats.with_alloc(new_size).net_bytes <= stats.with_alloc(new_size).peak_net_bytes,
        stats.with_realloc(old_size, new_size).peak_net_bytes >= stats.peak_net_bytes,
        stats.with_realloc(old_size, new_size).net_bytes <= stats.with_realloc(
            old_size,
            new_size,
        ).peak_net_bytes,
        stats.with_dealloc(old_size).peak_net_bytes == stats.peak_net_bytes,
{
}

/// Changing the size of an allocation has the effect on the balance of releasing
/// it and allocating anew.
pub proof fn resizing_balances_like_replacing(stats: ScopeStats, old_size: int, new_size: int)
    requires
        0 <= old_size <= i64::MAX,
        0 <= new_size <= i64::MAX,
        i64::MIN <= stats.net_bytes - old_size,
        i64::MIN <= stats.net_bytes + new_size - old_size <= i64::MAX,
    ensures
        stats.with_realloc(old_size, new_size).net_bytes == stats.with_dealloc(
            old_size,
        ).with_alloc(new_size).net_bytes,
{
}

/// What is shown of a scope.
#[derive(Debug)]
pub struct AllocationScopeSnapshot {
    pub label: &'static str,
    pub alloc_calls: u64,
    pub dealloc_calls: u64,
    pub realloc_calls: u64,
    pub alloc_bytes: u64,
    pub dealloc_bytes: u64,
    pub realloc_in_bytes: u64,
    pub realloc_out_bytes: u64,
    pub net_bytes: i64,
    pub peak_net_bytes: u64,
}

/// What is shown of a sampled call stack.
#[derive(Debug)]
pub struct AllocationStackBucketSnapshot {
    pub hash: u64,
    pub scope: &'static str,
    pub sample_calls: u64,
    pub sample_bytes: u64,
    pub max_sample_bytes: u64,
}

/// What is shown of the trace.
#[derive(Debug)]
pub struct AllocationTraceSnapshot {
    pub alloc_calls: u64,
    pub dealloc_calls: u64,
    pub realloc_calls: u64,
    pub alloc_bytes: u64,
    pub dealloc_bytes: u64,
    pub realloc_in_bytes: u64,
    pub realloc_out_bytes: u64,
    pub live_bytes: i64,
    pub peak_live_bytes: u64,
    pub outstanding_allocations: i64,
    pub scopes: Vec<AllocationScopeSnapshot>,
    pub stack_buckets: Vec<AllocationStackBucketSnapshot>,
}

impl AllocationScopeSnapshot {
    /// The snapshot shows the books of a scope.
    pub open spec fn shows(&self, scope: AllocationScope, stats: ScopeStats) -> bool {
        &&& self.label@ == scope.text()
        &&& self.alloc_calls == stats.alloc_calls
        &&& self.dealloc_calls == stats.dealloc_calls
        &&& self.realloc_calls == stats.realloc_calls
        &&& self.alloc_bytes == stats.alloc_bytes
        &&& self.dealloc_bytes == stats.dealloc_bytes
        &&& self.realloc_in_bytes == stats.realloc_in_bytes
        &&& self.realloc_out_bytes == stats.realloc_out_bytes
        &&& self.net_bytes == stats.net_bytes
        &&& self.peak_net_bytes == stats.peak_net_bytes
    }
}

impl AllocationStackBucketSnapshot {
    /// The snapshot shows a bucket.
    pub open spec fn shows(&self, bucket: StackBucketStats) -> bool {
        &&& self.hash == bucket.hash
        &&& self.scope@ == scope_at(bucket.scope as int).text()
        &&& self.sample_calls == bucket.sample_calls
        &&& self.sample_bytes == bucket.sample_bytes
        &&& self.max_sample_bytes == bucket.max_sample_bytes
    }
}

/// The buckets in use, in their order.
pub open spec fn used_buckets(buckets: Seq<StackBucketStats>) -> Seq<StackBucketStats>
    decreases buckets.len(),
{
    if buckets.len() == 0 {
        Seq::empty()
    } else if buckets.last().hash != 0 {
        used_buckets(buckets.drop_last()).push(buckets.last())
    } else {
        used_buckets(buckets.drop_last())
    }
}

/// Keys that sort buckets by their sampled bytes, most first.
pub open spec fn weight_keys(buckets: Seq<StackBucketStats>) -> Seq<u64> {
    buckets.map_values(|bucket: StackBucketStats| (u64::MAX - bucket.sample_bytes) as u64)
}

/// Whether a list shows the buckets with the most sampled bytes, most first.
pub open spec fn shows_heaviest(
    shown: Seq<AllocationStackBucketSnapshot>,
    used: Seq<StackBucketStats>,
) -> bool {
    exists|order: Seq<usize>| #[trigger]
        is_stable_order(weight_keys(used), order) && shown.len() == (if used.len()
            < SHOWN_BUCKETS {
            used.len() as int
        } else {
            SHOWN_BUCKETS as int
        }) && forall|i: int|
            0 <= i < shown.len() ==> (#[trigger] shown[i]).shows(used[order[i] as int])
}

impl TracingAllocator {
    fn scope_snapshots(&self) -> (scopes: Vec<AllocationScopeSnapshot>)
        requires
            self.wf(),
        ensures
            scopes@.len() == SCOPE_COUNT,
            forall|i: int|
                0 <= i < SCOPE_COUNT ==> (#[trigger] scopes@[i]).shows(
                    scope_at(i),
                    self.scopes@[i],
                ),
    {
        let mut scopes: Vec<AllocationScopeSnapshot> = Vec::new();
        let mut i: usize = 0;
        while i < SCOPE_COUNT
            invariant
                i <= SCOPE_COUNT,
                self.wf(),
                scopes@.len() == i,
                forall|k: int|
                    0 <= k < i ==> (#[trigger] scopes@[k]).shows(scope_at(k), self.scopes@[k]),
            decreases SCOPE_COUNT - i,
        {
            let stats = self.scopes[i];
            scopes.push(
                AllocationScopeSnapshot {
                    label: AllocationScope::from_index(i).label(),
                    alloc_calls: stats.alloc_calls,
                    dealloc_calls: stats.dealloc_calls,
                    realloc_calls: stats.realloc_calls,
                    alloc_bytes: stats.alloc_bytes,
                    dealloc_bytes: stats.dealloc_bytes,
                    realloc_in_bytes: stats.realloc_in_bytes,
                    realloc_out_bytes: stats.realloc_out_bytes,
                    net_bytes: stats.net_bytes,
                    peak_net_bytes: stats.peak_net_bytes,
                },
            );
            i = i + 1;
        }
        scopes
    }

    fn bucket_snapshots(&self) -> (shown: Vec<AllocationStackBucketSnapshot>)
        requires
            self.wf(),
        ensures
            shows_heaviest(shown@, used_buckets(self.buckets@)),
    {
        let mut used: Vec<StackBucketStats> = Vec::new();
        let mut keys: Vec<u64> = Vec::new();
        let mut i: usize = 0;
        assert(self.buckets@.take(0) =~= Seq::<StackBucketStats>::empty());
        assert(keys@ =~= weight_keys(used@));
        while i < self.buckets.len()
            invariant
                i <= self.buckets@.len(),
                used@ == used_buckets(self.buckets@.take(i as int)),
                keys@ == weight_keys(used@),
            decreases self.buckets@.len() - i,
        {
            assert(self.buckets@.take(i + 1).drop_last() =~= self.buckets@.take(i as int));
            let bucket = self.buckets[i];
            if bucket.hash != 0 {
                used.push(bucket);
                keys.push(u64::MAX - bucket.sample_bytes);
                assert(keys@ =~= weight_keys(used@));
            }
            i = i + 1;
        }
        assert(self.buckets@.take(i as int) =~= self.buckets@);
        let order = stable_order(&keys);
        let mut shown: Vec<AllocationStackBucketSnapshot> = Vec::new();
        let mut n: usize = 0;
        while n < order.len() && n < SHOWN_BUCKETS
            invariant
                n <= order@.len(),
                n <= SHOWN_BUCKETS,
                is_stable_order(weight_keys(used@), order@),
                shown@.len() == n,
                forall|k: int|
                    0 <= k < n ==> (#[trigger] shown@[k]).shows(used@[order@[k] as int]),
            decreases order@.len() - n,
        {
            let bucket = used[order[n]];
            shown.push(
                AllocationStackBucketSnapshot {
                    hash: bucket.hash,
                    scope: AllocationScope::from_index(bucket.scope).label(),
                    sample_calls: bucket.sample_calls,
                    sample_bytes: bucket.sample_bytes,
                    max_sample_bytes: bucket.max_sample_bytes,
                },
            );
            n = n + 1;
        }
        assert(is_stable_order(weight_keys(used@), order@));
        shown
    }

    /// What is shown of the trace: the totals, every scope, and the call stacks
    /// with the most sampled bytes. A build without the trace shows nothing.
    pub fn snapshot_inner(&self) -> (snapshot: AllocationTraceSnapshot)
        requires
            self.wf(),
        ensures
            snapshot.shows(*self),
    {
        if !self.compiled {
            return AllocationTraceSnapshot::empty();
        }
        AllocationTraceSnapshot {
            alloc_calls: self.totals.alloc_calls,
            dealloc_calls: self.totals.dealloc_calls,
            realloc_calls: self.totals.realloc_calls,
            alloc_bytes: self.totals.alloc_bytes,
            dealloc_bytes: self.totals.dealloc_bytes,
            realloc_in_bytes: self.totals.realloc_in_bytes,
            realloc_out_bytes: self.totals.realloc_out_bytes,
            live_bytes: self.totals.net_bytes,
            peak_live_bytes: self.totals.peak_net_bytes,
            outstanding_allocations: self.outstanding_allocations,
            scopes: self.scope_snapshots(),
            stack_buckets: self.bucket_snapshots(),
        }
    }
}

impl AllocationTraceSnapshot {
    /// The snapshot shows nothing.
    pub open spec fn is_empty(&self) -> bool {
        &&& self.alloc_calls == 0
        &&& self.dealloc_calls == 0
        &&& self.realloc_calls == 0
        &&& self.alloc_bytes == 0
        &&& self.dealloc_bytes == 0
        &&& self.realloc_in_bytes == 0
        &&& self.realloc_out_bytes == 0
        &&& self.live_bytes == 0
        &&& self.peak_live_bytes == 0
        &&& self.outstanding_allocations == 0
        &&& self.scopes@.len() == 0
        &&& self.stack_buckets@.len() == 0
    }

    fn empty() -> (snapshot: AllocationTraceSnapshot)
        ensures
            snapshot.is_empty(),
    {
        AllocationTraceSnapshot {
            alloc_calls: 0,
            dealloc_calls: 0,
            realloc_calls: 0,
            alloc_bytes: 0,
            dealloc_bytes: 0,
            realloc_in_bytes: 0,
            realloc_out_bytes: 0,
            live_bytes: 0,
            peak_live_bytes: 0,
            outstanding_allocations: 0,
            scopes: Vec::new(),
            stack_buckets: Vec::new(),
        }
    }

    /// The snapshot shows the trace, which is nothing in a build without it.
    pub open spec fn shows(&self, trace: TracingAllocator) -> bool {
        if trace.compiled {
            self.shows_books(trace)
        } else {
            self.is_empty()
        }
    }

    /// The snapshot shows the books of the trace.
    pub open spec fn shows_books(&self, trace: TracingAllocator) -> bool {
        &&& self.alloc_calls == trace.totals.alloc_calls
        &&& self.dealloc_calls == trace.totals.dealloc_calls
        &&& self.realloc_calls == trace.totals.realloc_calls
        &&& self.alloc_bytes == trace.totals.alloc_bytes
        &&& self.dealloc_bytes == trace.totals.dealloc_bytes
        &&& self.realloc_in_bytes == trace.totals.realloc_in_bytes
        &&& self.realloc_out_bytes == trace.totals.realloc_out_bytes
        &&& self.live_bytes == trace.totals.net_bytes
        &&& self.peak_live_bytes == trace.totals.peak_net_bytes
        &&& self.outstanding_allocations == trace.outstanding_allocations
        &&& self.scopes@.len() == SCOPE_COUNT
        &&& forall|i: int|
            0 <= i < SCOPE_COUNT ==> (#[trigger] self.scopes@[i]).shows(
                scope_at(i),
                trace.scopes@[i],
            )
        &&& shows_heaviest(self.stack_buckets@, used_buckets(trace.buckets@))
    }
}

/// Takes a snapshot of the trace. What the snapshot itself allocates meanwhile is
/// not booked, as the trace is suspended for it.
pub fn snapshot(trace: &mut TracingAllocator) -> (snapshot: AllocationTraceSnapshot)
    requires
        old(trace).wf(),
    ensures
        *final(trace) == *old(trace),
        snapshot.shows(*old(trace)),
{
    let previous: bool = trace.suspended;
    trace.suspended = true;
    let snapshot = trace.snapshot_inner();
    trace.suspended = previous;
    snapshot
}

/// Each scope works in the memory domain that it is named after.
pub proof fn scopes_work_in_their_domain()
    ensures
        AllocationScope::Unscoped.domain() is None,
        AllocationScope::AppUpdate.domain() == Some(MemoryDomain::App),
        AllocationScope::PerfTrace.domain() == Some(MemoryDomain::PerfTrace),
        AllocationScope::FileLoad.domain() == Some(MemoryDomain::FileLoad),
        AllocationScope::PlaybackLoad.domain() == Some(MemoryDomain::PlaybackLoad),
        AllocationScope::AudioCallback.domain() == Some(MemoryDomain::AudioCallback),
        AllocationScope::PlaybackRender.domain() == Some(MemoryDomain::PlaybackRender),
        AllocationScope::RenderStems.domain() == Some(MemoryDomain::RenderStems),
        AllocationScope::RenderMixer.domain() == Some(MemoryDomain::RenderMixer),
        AllocationScope::RenderSnapshot.domain() == Some(MemoryDomain::RenderSnapshot),
        AllocationScope::Ui.domain() == Some(MemoryDomain::Ui),
{
}

/// A thread in a scope with a domain works in that domain; in the scope of work that belongs
/// to none it stays in the domain it had.
pub proof fn threads_work_in_the_domain_of_their_scope(thread: ThreadScope, scope: AllocationScope)
    ensures
        scope.domain() is Some ==> thread.entered(true, scope).0.domain.current
            == scope.domain()->Some_0.number(),
        scope == AllocationScope::Unscoped ==> thread.entered(true, scope).0.domain
            == thread.domain,
        thread.entered(true, scope).0.scope != thread.scope || thread.scope == scope.number(),
{
}

/// A call is counted where it belongs, with its bytes, while the counts are in range.
pub proof fn entries_are_counted_where_they_belong(stats: ScopeStats, entry: BookEntry)
    requires
        entry.fits(stats),
        stats.realloc_calls < u64::MAX,
    ensures
        ({
            let after = entry.booked(stats);
            match entry {
                BookEntry::Alloc(_, size) => {
                    &&& after.alloc_calls == stats.alloc_calls + 1
                    &&& after.alloc_bytes == stats.alloc_bytes + size
                    &&& after.net_bytes == stats.net_bytes + size
                    &&& after.dealloc_calls == stats.dealloc_calls
                    &&& after.realloc_calls == stats.realloc_calls
                    &&& after.dealloc_bytes == stats.dealloc_bytes
                },
                BookEntry::Dealloc(_, size) => {
                    &&& after.dealloc_calls == stats.dealloc_calls + 1
                    &&& after.dealloc_bytes == stats.dealloc_bytes + size
                    &&& after.net_bytes == stats.net_bytes - size
                    &&& after.alloc_calls == stats.alloc_calls
                    &&& after.realloc_calls == stats.realloc_calls
                    &&& after.alloc_bytes == stats.alloc_bytes
                    &&& after.peak_net_bytes == stats.peak_net_bytes
                },
                BookEntry::Realloc(_, old_size, new_size) => {
                    &&& after.realloc_calls == stats.realloc_calls + 1
                    &&& after.realloc_in_bytes == stats.realloc_in_bytes + old_size
                    &&& after.realloc_out_bytes == stats.realloc_out_bytes + new_size
                    &&& after.net_bytes == stats.net_bytes - old_size + new_size
                    &&& after.alloc_calls == stats.alloc_calls
                    &&& after.dealloc_calls == stats.dealloc_calls
                },
            }
        }),
{
}

/// A sampled call stack is counted in its bucket with its bytes, and every other bucket
/// stands.
pub proof fn samples_are_counted_in_their_bucket(
    buckets: Seq<StackBucketStats>,
    hash: u64,
    scope: usize,
    bytes: u64,
    i: int,
)
    requires
        buckets_wf(buckets),
        0 <= i < buckets.len(),
        hash != 0,
    ensures
        buckets[i].hash == hash ==> {
            let after = sampled(buckets, hash, scope, bytes)[i];
            &&& after.hash == hash
            &&& after.scope == scope
            &&& buckets[i].sample_calls < u64::MAX ==> after.sample_calls
                == buckets[i].sample_calls + 1
            &&& buckets[i].sample_bytes + bytes <= u64::MAX ==> after.sample_bytes
                == buckets[i].sample_bytes + bytes
            &&& after.max_sample_bytes >= bytes
            &&& after.max_sample_bytes >= buckets[i].max_sample_bytes
            &&& after.max_sample_bytes == bytes || after.max_sample_bytes
                == buckets[i].max_sample_bytes
        },
        buckets[i].hash != hash && buckets[i].hash != 0 ==> sampled(
            buckets,
            hash,
            scope,
            bytes,
        )[i] == buckets[i],
{
    lemma_bucket_for_in_range(buckets, hash, 0);
    if buckets[i].hash == hash {
        assert(bucket_for(buckets, buckets[i].hash, 0) == Some(i));
    }
    if bucket_for(buckets, hash, 0) is Some {
        lemma_bucket_is_fit(buckets, hash, 0);
    }
}

proof fn lemma_bucket_is_fit(buckets: Seq<StackBucketStats>, hash: u64, k: int)
    requires
        bucket_for(buckets, hash, k) is Some,
    ensures
        ({
            let i = bucket_for(buckets, hash, k)->Some_0;
            buckets[i].hash == hash || buckets[i].hash == 0
        }),
    decreases 64 - k,
{
    if !(buckets[probe(hash, k)].hash == hash || buckets[probe(hash, k)].hash == 0) {
        lemma_bucket_is_fit(buckets, hash, k + 1);
    }
}

/// A call stack with frames has a hash that is not 0, and one without has none; where frames
/// cannot be captured the seed stands for them.
pub proof fn only_stacks_have_hashes(seed: u64, frames: Seq<u64>)
    ensures
        frames.len() > 0 ==> stack_hash(seed, Some(frames)) != 0,
        stack_hash(seed, Some(Seq::empty())) == 0,
        seed > 0 ==> stack_hash(seed, None) == seed,
        stack_hash(0, None) == 1,
{
}

} // verus!
