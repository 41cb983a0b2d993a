//! The snapshots of the last seconds, so that the mixer can show what is heard
//! now and not what was rendered last.
use crate::numbers::{max_of, max_u32, monus};
use std::collections::VecDeque;
use vstd::prelude::*;

verus! {

/// One snapshot and the frame at which its render ended.
pub struct SnapshotFrame<S> {
    pub rendered_frame_end: u64,
    pub snapshot: S,
}

/// The retained snapshots, oldest first.
pub struct SnapshotHistory<S> {
    pub frames: VecDeque<SnapshotFrame<S>>,
}

/// The frames for which snapshots are kept: four seconds.
pub open spec fn retention(sample_rate: u32) -> int {
    max_of(sample_rate as int, 1) * 4
}

/// `frames` without the leading ones that ended before `cutoff`.
pub open spec fn pruned<S>(frames: Seq<SnapshotFrame<S>>, cutoff: int) -> Seq<SnapshotFrame<S>>
    decreases frames.len(),
{
    if frames.len() > 0 && frames[0].rendered_frame_end < cutoff {
        pruned(frames.drop_first(), cutoff)
    } else {
        frames
    }
}

/// The newest of the first `n` snapshots that ended at or before `target`.
pub open spec fn newest_at<S>(frames: Seq<SnapshotFrame<S>>, n: int, target: int) -> Option<S>
    decreases n,
{
    if n <= 0 {
        None
    } else if frames[n - 1].rendered_frame_end <= target {
        Some(frames[n - 1].snapshot)
    } else {
        newest_at(frames, n - 1, target)
    }
}

impl<S> SnapshotHistory<S> {
    pub fn new() -> (history: SnapshotHistory<S>)
        ensures
            history.frames@ == Seq::<SnapshotFrame<S>>::empty(),
    {
        SnapshotHistory { frames: VecDeque::new() }
    }

    /// Forgets every snapshot.
    pub fn clear(&mut self)
        ensures
            final(self).frames@ == Seq::<SnapshotFrame<S>>::empty(),
    {
        self.frames.clear();
    }

    /// Adds a snapshot and drops those that ended more than four seconds before.
    pub fn record(&mut self, rendered_frame_end: u64, snapshot: S, sample_rate: u32)
        requires
            old(self).frames@.len() < usize::MAX,
        ensures
            final(self).frames@ == pruned(
                old(self).frames@.push(SnapshotFrame { rendered_frame_end, snapshot }),
                monus(rendered_frame_end as int, retention(sample_rate)),
            ),
    {
        self.frames.push_back(SnapshotFrame { rendered_frame_end, snapshot });
        let ghost all = self.frames@;
        let retention_frames: u64 = max_u32(sample_rate, 1) as u64 * 4;
        let cutoff: u64 = rendered_frame_end.saturating_sub(retention_frames);
        while self.frames.len() > 0 && self.frames[0].rendered_frame_end < cutoff
            invariant
                pruned(all, cutoff as int) == pruned(self.frames@, cutoff as int),
            decreases self.frames.len(),
        {
            let ghost before = self.frames@;
            self.frames.pop_front();
            assert(self.frames@ =~= before.drop_first());
        }
    }

    /// The snapshot rendered last, or nothing while there is none.
    pub fn live_snapshot(&self) -> (snapshot: Option<&S>)
        ensures
            match snapshot {
                Some(s) => self.frames@.len() > 0 && *s == self.frames@.last().snapshot,
                None => self.frames@.len() == 0,
            },
    {
        if self.frames.len() == 0 {
            None
        } else {
            Some(&self.frames[self.frames.len() - 1].snapshot)
        }
    }

    /// The snapshot that is heard when `rendered_frames` were rendered and the
    /// output is `latency_frames` behind: the newest that had ended by then, or
    /// nothing if none had.
    pub fn delayed_snapshot(&self, rendered_frames: u64, latency_frames: u64) -> (snapshot: Option<
        &S,
    >)
        ensures
            (match snapshot {
                Some(s) => Some(*s),
                None => None,
            }) == newest_at(
                self.frames@,
                self.frames@.len() as int,
                monus(rendered_frames as int, latency_frames as int),
            ),
    {
        let target: u64 = rendered_frames.saturating_sub(latency_frames);
        let mut n: usize = self.frames.len();
        while n > 0
            invariant
                n <= self.frames@.len(),
                target == monus(rendered_frames as int, latency_frames as int),
                newest_at(self.frames@, self.frames@.len() as int, target as int) == newest_at(
                    self.frames@,
                    n as int,
                    target as int,
                ),
            decreases n,
        {
            if self.frames[n - 1].rendered_frame_end <= target {
                return Some(&self.frames[n - 1].snapshot);
            }
            n = n - 1;
        }
        None
    }
}

/// Pruning keeps the newest snapshot if that one is inside the retention.
pub proof fn lemma_pruned_keeps_last<S>(frames: Seq<SnapshotFrame<S>>, cutoff: int)
    requires
        frames.len() > 0,
        frames.last().rendered_frame_end >= cutoff,
    ensures
        pruned(frames, cutoff).len() > 0,
        pruned(frames, cutoff).last() == frames.last(),
        pruned(frames, cutoff)[0].rendered_frame_end >= cutoff,
    decreases frames.len(),
{
    if frames[0].rendered_frame_end < cutoff {
        assert(frames.drop_first().last() == frames.last());
        lemma_pruned_keeps_last(frames.drop_first(), cutoff);
    }
}

/// Right after a snapshot is recorded it is the live one, and with no latency
/// also the one that is heard.
pub proof fn recorded_snapshot_is_live<S>(
    frames: Seq<SnapshotFrame<S>>,
    frame: SnapshotFrame<S>,
    sample_rate: u32,
)
    ensures
        ({
            let cutoff = monus(frame.rendered_frame_end as int, retention(sample_rate));
            let after = pruned(frames.push(frame), cutoff);
            &&& after.len() > 0
            &&& after.last() == frame
            &&& newest_at(after, after.len() as int, frame.rendered_frame_end as int) == Some(
                frame.snapshot,
            )
        }),
{
    let cutoff = monus(frame.rendered_frame_end as int, retention(sample_rate));
    assert(frames.push(frame).last() == frame);
    lemma_pruned_keeps_last(frames.push(frame), cutoff);
}

/// The snapshot that is heard ended at or before the target, and every newer
/// one ended after it.
pub proof fn heard_snapshot_is_newest<S>(frames: Seq<SnapshotFrame<S>>, n: int, target: int)
    requires
        0 <= n <= frames.len(),
    ensures
        match newest_at(frames, n, target) {
            Some(s) => exists|i: int|
                0 <= i < n && (#[trigger] frames[i]).snapshot == s && frames[i].rendered_frame_end
                    <= target && (forall|j: int|
                    i < j < n ==> (#[trigger] frames[j]).rendered_frame_end > target),
            None => forall|j: int| 0 <= j < n ==> (#[trigger] frames[j]).rendered_frame_end > target,
        },
    decreases n,
{
    if n > 0 && frames[n - 1].rendered_frame_end > target {
        heard_snapshot_is_newest(frames, n - 1, target);
        match newest_at(frames, n - 1, target) {
            Some(s) => {
                let i = choose|i: int|
                    0 <= i < n - 1 && (#[trigger] frames[i]).snapshot == s
                        && frames[i].rendered_frame_end <= target && (forall|j: int|
                        i < j < n - 1 ==> (#[trigger] frames[j]).rendered_frame_end > target);
                assert(forall|j: int|
                    i < j < n ==> (#[trigger] frames[j]).rendered_frame_end > target);
            },
            None => {},
        }
    }
}

/// Of snapshots in the order of their time, those of the last four seconds are kept once
/// another is recorded, and no older ones.
pub proof fn history_spans_four_seconds<S>(
    frames: Seq<SnapshotFrame<S>>,
    frame: SnapshotFrame<S>,
    sample_rate: u32,
)
    requires
        sample_rate >= 1,
        forall|a: int, b: int|
            0 <= a <= b < frames.len() ==> (#[trigger] frames[a]).rendered_frame_end <= (
            #[trigger] frames[b]).rendered_frame_end,
        forall|a: int|
            0 <= a < frames.len() ==> (#[trigger] frames[a]).rendered_frame_end
                <= frame.rendered_frame_end,
    ensures
        ({
            let all = frames.push(frame);
            let after = pruned(
                all,
                monus(frame.rendered_frame_end as int, retention(sample_rate)),
            );
            &&& after.len() <= all.len()
            &&& after == all.skip(all.len() - after.len())
            &&& forall|i: int|
                0 <= i < all.len() ==> ((#[trigger] all[i]).rendered_frame_end + 4 * sample_rate
                    >= frame.rendered_frame_end) == (i >= all.len() - after.len())
        }),
{
    let all = frames.push(frame);
    lemma_pruned_is_a_tail(all, monus(frame.rendered_frame_end as int, retention(sample_rate)));
}

proof fn lemma_pruned_is_a_tail<S>(frames: Seq<SnapshotFrame<S>>, cutoff: int)
    requires
        forall|a: int, b: int|
            0 <= a <= b < frames.len() ==> (#[trigger] frames[a]).rendered_frame_end <= (
            #[trigger] frames[b]).rendered_frame_end,
    ensures
        pruned(frames, cutoff).len() <= frames.len(),
        pruned(frames, cutoff) == frames.skip(frames.len() - pruned(frames, cutoff).len()),
        forall|i: int|
            0 <= i < frames.len() ==> ((#[trigger] frames[i]).rendered_frame_end >= cutoff) == (i
                >= frames.len() - pruned(frames, cutoff).len()),
    decreases frames.len(),
{
    if frames.len() > 0 && frames[0].rendered_frame_end < cutoff {
        let rest = frames.drop_first();
        lemma_pruned_is_a_tail(rest, cutoff);
        let kept = pruned(rest, cutoff);
        assert(kept =~= frames.skip(frames.len() - kept.len()));
        assert forall|i: int| 0 <= i < frames.len() implies ((
        #[trigger] frames[i]).rendered_frame_end >= cutoff) == (i >= frames.len() - pruned(
            frames,
            cutoff,
        ).len()) by {
            if i > 0 {
                assert(rest[i - 1] == frames[i]);
            }
        }
    } else {
        assert(frames.skip(0) =~= frames);
    }
}

} // verus!
