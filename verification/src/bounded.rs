//! Logs that keep their newest entries.
use crate::numbers::monus;
use std::collections::VecDeque;
use vstd::prelude::*;

verus! {

/// The last `n` members of `entries`, or all of them if there are fewer.
pub open spec fn newest<T>(entries: Seq<T>, n: int) -> Seq<T> {
    entries.skip(monus(entries.len() as int, n))
}

/// Adds `record` to the log and drops the oldest entries beyond `max_len`.
pub fn push_bounded<T>(records: &mut VecDeque<T>, record: T, max_len: usize)
    requires
        max_len > 0,
    ensures
        final(records)@ == newest(old(records)@.push(record), max_len as int),
{
    let ghost before = records@;
    assert(before.skip(0) =~= before);
    let mut dropped: Ghost<int> = Ghost(0);
    while records.len() >= max_len
        invariant
            0 <= dropped@ <= before.len(),
            records@ == before.skip(dropped@),
            dropped@ > 0 ==> before.len() - dropped@ >= max_len - 1,
            max_len > 0,
        decreases records.len(),
    {
        let ghost was = records@;
        records.pop_front();
        proof {
            assert(records@ =~= was.drop_first());
            dropped@ = dropped@ + 1;
            assert(records@ =~= before.skip(dropped@));
        }
    }
    records.push_back(record);
    assert(records@ =~= newest(before.push(record), max_len as int));
}

/// A bounded log never holds more than its limit, ends in the newest entry and
/// keeps the order of the entries.
pub proof fn bounded_log_keeps_the_newest<T>(entries: Seq<T>, record: T, max_len: int)
    requires
        max_len > 0,
    ensures
        newest(entries.push(record), max_len).len() <= max_len,
        newest(entries.push(record), max_len).len() > 0,
        newest(entries.push(record), max_len).last() == record,
        entries.len() < max_len ==> newest(entries.push(record), max_len) == entries.push(record),
        newest(entries.push(record), max_len).is_suffix_of(entries.push(record)),
{
    let all = entries.push(record);
    assert(all.skip(0) =~= all);
    let kept = newest(all, max_len);
    assert(kept =~= all.subrange(all.len() - kept.len(), all.len() as int));
}

} // verus!
