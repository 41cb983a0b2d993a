//! What the mixer shows of one moment of playback.
use crate::level::Level;
use crate::playback::routing::{MeterReading, RealtimeStripSnapshot};
use std::collections::BTreeMap;
use vstd::prelude::*;
use vstd::std_specs::iter::IteratorSpec;

verus! {

/// What the mixer shows of one moment: the output and each strip.
#[derive(Debug)]
pub struct RealtimeMixerSnapshot {
    pub output_meter: MeterReading,
    pub strips: BTreeMap<u64, RealtimeStripSnapshot>,
}

/// A meter that shows nothing.
pub open spec fn silent_meter() -> MeterReading {
    MeterReading { peak: Level { bits: 0 }, rms: Level { bits: 0 } }
}

impl Default for RealtimeMixerSnapshot {
    fn default() -> (snapshot: RealtimeMixerSnapshot)
        ensures
            snapshot.output_meter == silent_meter(),
            snapshot.strips@ == Map::<u64, RealtimeStripSnapshot>::empty(),
    {
        RealtimeMixerSnapshot {
            output_meter: MeterReading { peak: Level { bits: 0 }, rms: Level { bits: 0 } },
            strips: BTreeMap::new(),
        }
    }
}

/// Whether a strip is heard or has notes that sound.
pub open spec fn is_active(strip: RealtimeStripSnapshot) -> bool {
    strip.audible || strip.active_notes@.len() > 0
}

/// The strips that are active.
pub open spec fn active_strips(strips: Map<u64, RealtimeStripSnapshot>) -> Set<u64> {
    strips.dom().filter(|id: u64| is_active(strips[id]))
}

/// The number of active strips.
pub fn active_strip_count(strips: &BTreeMap<u64, RealtimeStripSnapshot>) -> (count: usize)
    ensures
        count == active_strips(strips@).len(),
{
    broadcast use vstd::std_specs::btree::group_btree_axioms;

    let ghost mut seen: Set<u64> = Set::empty();
    let ghost mut n: int = 0;
    let mut count: usize = 0;
    let total: usize = strips.len();
    let keys = strips.keys();
    let ghost all = keys.remaining().unref();
    for id in it: keys
        invariant
            vstd::std_specs::btree::key_obeys_cmp_spec::<u64>(),
            it.seq().unref() == all,
            it.seq().len() == all.len(),
            all.no_duplicates(),
            all.to_set() == strips@.dom(),
            all.len() == total,
            n == it.index(),
            seen.finite(),
            count == seen.len(),
            count <= n <= all.len(),
            forall|id: u64| #[trigger]
                seen.contains(id) == (all.take(n).contains(id) && is_active(strips@[id])),
    {
        proof {
            assert(all[n] == *id);
            assert(all.to_set().contains(*id)) by {
                assert(all.contains(*id));
            }
            assert(strips@.contains_key(*id));
            assert(!all.take(n).contains(*id)) by {
                if all.take(n).contains(*id) {
                    let k = choose|k: int| 0 <= k < n && all.take(n)[k] == *id;
                    assert(all[k] == all[n]);
                }
            }
            assert forall|x: u64| all.take(n + 1).contains(x) == (all.take(n).contains(x) || x
                == *id) by {
                if all.take(n).contains(x) {
                    let k = choose|k: int| 0 <= k < n && all.take(n)[k] == x;
                    assert(all.take(n + 1)[k] == x);
                }
                assert(all.take(n + 1)[n] == *id);
                if all.take(n + 1).contains(x) && x != *id {
                    let k = choose|k: int|
                        0 <= k < n + 1 && #[trigger] all.take(n + 1)[k] == x;
                    assert(all.take(n)[k] == x);
                }
            }
        }
        match strips.get(id) {
            Some(strip) => {
                if strip.audible || strip.active_notes.len() > 0 {
                    count = count + 1;
                    proof {
                        seen = seen.insert(*id);
                    }
                }
            },
            None => {},
        }
        proof {
            n = n + 1;
        }
    }
    proof {
        assert(all.take(n) =~= all);
        assert(seen =~= active_strips(strips@)) by {
            assert forall|id: u64| seen.contains(id) == active_strips(strips@).contains(id) by {
                assert(all.to_set().contains(id) == all.contains(id));
            }
        }
    }
    count
}

/// A strip is active while it is heard or while it has a note, and at no other time.
pub proof fn strips_are_active_while_heard(strips: Map<u64, RealtimeStripSnapshot>, id: u64)
    requires
        strips.contains_key(id),
    ensures
        strips[id].audible ==> active_strips(strips).contains(id),
        strips[id].active_notes@.len() > 0 ==> active_strips(strips).contains(id),
        !strips[id].audible && strips[id].active_notes@.len() == 0 ==> !active_strips(
            strips,
        ).contains(id),
{
}

} // verus!
