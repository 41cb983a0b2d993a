//! Ascending lists of numbers without repetition, and stable sorting by key.
use vstd::prelude::*;

verus! {

/// Whether `ids` comes in strictly ascending order.
pub open spec fn ascending_u32(ids: Seq<u32>) -> bool {
    forall|i: int, j: int| 0 <= i < j < ids.len() ==> #[trigger] ids[i] < #[trigger] ids[j]
}

/// Adds `id` to an ascending list that does not hold it yet.
pub fn insert_sorted_u32(ids: &mut Vec<u32>, id: u32)
    requires
        ascending_u32(old(ids)@),
    ensures
        ascending_u32(final(ids)@),
        forall|x: u32| #[trigger] final(ids)@.contains(x) == (x == id || old(ids)@.contains(x)),
{
    let ghost before = ids@;
    let mut i: usize = 0;
    while i < ids.len() && ids[i] < id
        invariant
            i <= ids.len(),
            ids@ == before,
            forall|j: int| 0 <= j < i ==> #[trigger] before[j] < id,
        decreases ids.len() - i,
    {
        i = i + 1;
    }
    if i < ids.len() && ids[i] == id {
        assert(ids@.contains(id)) by {
            assert(ids@[i as int] == id);
        }
        return;
    }
    ids.insert(i, id);
    proof {
        let after = ids@;
        assert(after =~= before.insert(i as int, id));
        assert forall|a: int, b: int| 0 <= a < b < after.len() implies #[trigger] after[a]
            < #[trigger] after[b] by {
            if b < i {
                assert(before[a] < before[b]);
            } else if b == i {
                assert(after[a] == before[a]);
            } else if a < i {
                assert(after[a] == before[a] && after[b] == before[b - 1]);
                assert(before[a] < before[b - 1]);
            } else if a == i {
                assert(after[b] == before[b - 1]);
                if b - 1 > i {
                    assert(before[i as int] < before[b - 1]);
                }
            } else {
                assert(before[a - 1] < before[b - 1]);
            }
        }
        assert forall|x: u32| #[trigger] after.contains(x) == (x == id || before.contains(x)) by {
            if before.contains(x) {
                let k = choose|k: int| 0 <= k < before.len() && before[k] == x;
                if k < i {
                    assert(after[k] == x);
                } else {
                    assert(after[k + 1] == x);
                }
            }
            assert(after[i as int] == id);
            if after.contains(x) {
                let k = choose|k: int| 0 <= k < after.len() && after[k] == x;
                if k < i {
                    assert(before[k] == x);
                } else if k > i {
                    assert(before[k - 1] == x);
                }
            }
        }
    }
}

/// The distinct members of `ids`, ascending.
pub fn sorted_distinct_u32(ids: &[u32]) -> (sorted: Vec<u32>)
    ensures
        ascending_u32(sorted@),
        forall|x: u32| #[trigger] sorted@.contains(x) == ids@.contains(x),
{
    let mut sorted: Vec<u32> = Vec::new();
    let mut i: usize = 0;
    while i < ids.len()
        invariant
            i <= ids.len(),
            ascending_u32(sorted@),
            forall|x: u32| #[trigger] sorted@.contains(x) == ids@.take(i as int).contains(x),
        decreases ids.len() - i,
    {
        insert_sorted_u32(&mut sorted, ids[i]);
        i = i + 1;
        assert forall|x: u32| #[trigger] sorted@.contains(x) == ids@.take(i as int).contains(
            x,
        ) by {
            let before = ids@.take(i - 1);
            let now = ids@.take(i as int);
            assert(now =~= before.push(ids@[i - 1]));
            if before.contains(x) {
                let k = choose|k: int| 0 <= k < before.len() && before[k] == x;
                assert(now[k] == x);
            }
            assert(now[i - 1] == ids@[i - 1]);
            if now.contains(x) && x != ids@[i - 1] {
                let k = choose|k: int| 0 <= k < now.len() && now[k] == x;
                assert(before[k] == x);
            }
        }
    }
    assert(ids@.take(i as int) =~= ids@);
    sorted
}

/// Whether `id` is among `ids`.
pub fn contains_u32(ids: &[u32], id: u32) -> (found: bool)
    ensures
        found == ids@.contains(id),
{
    let mut i: usize = 0;
    while i < ids.len()
        invariant
            i <= ids.len(),
            forall|j: int| 0 <= j < i ==> ids@[j] != id,
        decreases ids.len() - i,
    {
        if ids[i] == id {
            assert(ids@[i as int] == id);
            return true;
        }
        i = i + 1;
    }
    false
}

/// An ascending list is determined by its members.
pub proof fn lemma_ascending_unique_u32(a: Seq<u32>, b: Seq<u32>)
    requires
        ascending_u32(a),
        ascending_u32(b),
        forall|x: u32| #[trigger] a.contains(x) == b.contains(x),
    ensures
        a == b,
    decreases a.len(),
{
    if a.len() == 0 {
        if b.len() > 0 {
            assert(b.contains(b[0]));
            assert(a.contains(b[0]));
        }
        assert(a =~= b);
    } else {
        let last = a.last();
        assert(a.contains(last)) by {
            assert(a[a.len() - 1] == last);
        }
        assert(b.contains(last));
        let k = choose|k: int| 0 <= k < b.len() && b[k] == last;
        if k < b.len() - 1 {
            assert(b.contains(b[b.len() - 1]));
            assert(a.contains(b[b.len() - 1]));
            let m = choose|m: int| 0 <= m < a.len() && a[m] == b[b.len() - 1];
            assert(b[k] < b[b.len() - 1]);
            if m < a.len() - 1 {
                assert(a[m] < a[a.len() - 1]);
            }
        }
        assert(b.last() == last);
        let a0 = a.drop_last();
        let b0 = b.drop_last();
        assert forall|x: u32| #[trigger] a0.contains(x) == b0.contains(x) by {
            if a0.contains(x) {
                let i = choose|i: int| 0 <= i < a0.len() && a0[i] == x;
                assert(a[i] == x);
                assert(a.contains(x));
                assert(a[i] < a[a.len() - 1]);
                let j = choose|j: int| 0 <= j < b.len() && b[j] == x;
                assert(b0[j] == x);
            }
            if b0.contains(x) {
                let i = choose|i: int| 0 <= i < b0.len() && b0[i] == x;
                assert(b[i] == x);
                assert(b.contains(x));
                assert(b[i] < b[b.len() - 1]);
                assert(a.contains(x));
                let j = choose|j: int| 0 <= j < a.len() && a[j] == x;
                assert(a0[j] == x);
            }
        }
        lemma_ascending_unique_u32(a0, b0);
        assert(a =~= a0.push(last));
        assert(b =~= b0.push(last));
    }
}

/// Whether `ids` comes in strictly ascending order.
pub open spec fn ascending_u64(ids: Seq<u64>) -> bool {
    forall|i: int, j: int| 0 <= i < j < ids.len() ==> #[trigger] ids[i] < #[trigger] ids[j]
}

/// Adds `id` to an ascending list that does not hold it yet.
pub fn insert_sorted_u64(ids: &mut Vec<u64>, id: u64)
    requires
        ascending_u64(old(ids)@),
    ensures
        ascending_u64(final(ids)@),
        forall|x: u64| #[trigger] final(ids)@.contains(x) == (x == id || old(ids)@.contains(x)),
{
    let ghost before = ids@;
    let mut i: usize = 0;
    while i < ids.len() && ids[i] < id
        invariant
            i <= ids.len(),
            ids@ == before,
            forall|j: int| 0 <= j < i ==> #[trigger] before[j] < id,
        decreases ids.len() - i,
    {
        i = i + 1;
    }
    if i < ids.len() && ids[i] == id {
        assert(ids@.contains(id)) by {
            assert(ids@[i as int] == id);
        }
        return;
    }
    ids.insert(i, id);
    proof {
        let after = ids@;
        assert(after =~= before.insert(i as int, id));
        assert forall|a: int, b: int| 0 <= a < b < after.len() implies #[trigger] after[a]
            < #[trigger] after[b] by {
            if b < i {
                assert(before[a] < before[b]);
            } else if b == i {
                assert(after[a] == before[a]);
            } else if a < i {
                assert(after[a] == before[a] && after[b] == before[b - 1]);
                assert(before[a] < before[b - 1]);
            } else if a == i {
                assert(after[b] == before[b - 1]);
                if b - 1 > i {
                    assert(before[i as int] < before[b - 1]);
                }
            } else {
                assert(before[a - 1] < before[b - 1]);
            }
        }
        assert forall|x: u64| #[trigger] after.contains(x) == (x == id || before.contains(x)) by {
            if before.contains(x) {
                let k = choose|k: int| 0 <= k < before.len() && before[k] == x;
                if k < i {
                    assert(after[k] == x);
                } else {
                    assert(after[k + 1] == x);
                }
            }
            assert(after[i as int] == id);
            if after.contains(x) {
                let k = choose|k: int| 0 <= k < after.len() && after[k] == x;
                if k < i {
                    assert(before[k] == x);
                } else if k > i {
                    assert(before[k - 1] == x);
                }
            }
        }
    }
}

/// The distinct members of `ids`, ascending.
pub fn sorted_distinct_u64(ids: &[u64]) -> (sorted: Vec<u64>)
    ensures
        ascending_u64(sorted@),
        forall|x: u64| #[trigger] sorted@.contains(x) == ids@.contains(x),
{
    let mut sorted: Vec<u64> = Vec::new();
    let mut i: usize = 0;
    while i < ids.len()
        invariant
            i <= ids.len(),
            ascending_u64(sorted@),
            forall|x: u64| #[trigger] sorted@.contains(x) == ids@.take(i as int).contains(x),
        decreases ids.len() - i,
    {
        insert_sorted_u64(&mut sorted, ids[i]);
        i = i + 1;
        assert forall|x: u64| #[trigger] sorted@.contains(x) == ids@.take(i as int).contains(
            x,
        ) by {
            let before = ids@.take(i - 1);
            let now = ids@.take(i as int);
            assert(now =~= before.push(ids@[i - 1]));
            if before.contains(x) {
                let k = choose|k: int| 0 <= k < before.len() && before[k] == x;
                assert(now[k] == x);
            }
            assert(now[i - 1] == ids@[i - 1]);
            if now.contains(x) && x != ids@[i - 1] {
                let k = choose|k: int| 0 <= k < now.len() && now[k] == x;
                assert(before[k] == x);
            }
        }
    }
    assert(ids@.take(i as int) =~= ids@);
    sorted
}

/// Whether `id` is among `ids`.
pub fn contains_u64(ids: &[u64], id: u64) -> (found: bool)
    ensures
        found == ids@.contains(id),
{
    let mut i: usize = 0;
    while i < ids.len()
        invariant
            i <= ids.len(),
            forall|j: int| 0 <= j < i ==> ids@[j] != id,
        decreases ids.len() - i,
    {
        if ids[i] == id {
            assert(ids@[i as int] == id);
            return true;
        }
        i = i + 1;
    }
    false
}

/// An ascending list is determined by its members.
pub proof fn lemma_ascending_unique_u64(a: Seq<u64>, b: Seq<u64>)
    requires
        ascending_u64(a),
        ascending_u64(b),
        forall|x: u64| #[trigger] a.contains(x) == b.contains(x),
    ensures
        a == b,
    decreases a.len(),
{
    if a.len() == 0 {
        if b.len() > 0 {
            assert(b.contains(b[0]));
            assert(a.contains(b[0]));
        }
        assert(a =~= b);
    } else {
        let last = a.last();
        assert(a.contains(last)) by {
            assert(a[a.len() - 1] == last);
        }
        assert(b.contains(last));
        let k = choose|k: int| 0 <= k < b.len() && b[k] == last;
        if k < b.len() - 1 {
            assert(b.contains(b[b.len() - 1]));
            assert(a.contains(b[b.len() - 1]));
            let m = choose|m: int| 0 <= m < a.len() && a[m] == b[b.len() - 1];
            assert(b[k] < b[b.len() - 1]);
            if m < a.len() - 1 {
                assert(a[m] < a[a.len() - 1]);
            }
        }
        assert(b.last() == last);
        let a0 = a.drop_last();
        let b0 = b.drop_last();
        assert forall|x: u64| #[trigger] a0.contains(x) == b0.contains(x) by {
            if a0.contains(x) {
                let i = choose|i: int| 0 <= i < a0.len() && a0[i] == x;
                assert(a[i] == x);
                assert(a.contains(x));
                assert(a[i] < a[a.len() - 1]);
                let j = choose|j: int| 0 <= j < b.len() && b[j] == x;
                assert(b0[j] == x);
            }
            if b0.contains(x) {
                let i = choose|i: int| 0 <= i < b0.len() && b0[i] == x;
                assert(b[i] == x);
                assert(b.contains(x));
                assert(b[i] < b[b.len() - 1]);
                assert(a.contains(x));
                let j = choose|j: int| 0 <= j < a.len() && a[j] == x;
                assert(a0[j] == x);
            }
        }
        lemma_ascending_unique_u64(a0, b0);
        assert(a =~= a0.push(last));
        assert(b =~= b0.push(last));
    }
}

/// Whether position `a` comes before position `b` when positions are sorted by
/// their keys, equal keys in the order in which they stand.
pub open spec fn key_before(keys: Seq<u64>, a: int, b: int) -> bool {
    keys[a] < keys[b] || (keys[a] == keys[b] && a < b)
}

/// Whether `order` lists every position of `keys` once, sorted by key, equal keys
/// in the order in which they stand.
pub open spec fn is_stable_order(keys: Seq<u64>, order: Seq<usize>) -> bool {
    &&& order.len() == keys.len()
    &&& forall|i: int| 0 <= i < order.len() ==> (#[trigger] order[i]) < keys.len()
    &&& forall|i: int, j: int|
        0 <= i < j < order.len() ==> key_before(
            keys,
            #[trigger] order[i] as int,
            #[trigger] order[j] as int,
        )
}

/// The positions of `keys`, sorted by key, equal keys in the order in which they
/// stand.
pub fn stable_order(keys: &[u64]) -> (order: Vec<usize>)
    ensures
        is_stable_order(keys@, order@),
{
    let mut order: Vec<usize> = Vec::new();
    let mut n: usize = 0;
    while n < keys.len()
        invariant
            n <= keys.len(),
            order@.len() == n,
            forall|i: int| 0 <= i < order@.len() ==> (#[trigger] order@[i]) < n,
            forall|i: int, j: int|
                0 <= i < j < order@.len() ==> key_before(
                    keys@,
                    #[trigger] order@[i] as int,
                    #[trigger] order@[j] as int,
                ),
        decreases keys.len() - n,
    {
        let mut p: usize = order.len();
        while p > 0 && keys[order[p - 1]] > keys[n]
            invariant
                p <= order@.len(),
                n < keys.len(),
                forall|i: int| 0 <= i < order@.len() ==> (#[trigger] order@[i]) < n,
                forall|i: int|
                    p <= i < order@.len() ==> keys@[(#[trigger] order@[i]) as int] > keys@[n as int],
            decreases p,
        {
            p = p - 1;
        }
        let ghost before = order@;
        order.insert(p, n);
        proof {
            let after = order@;
            assert(after =~= before.insert(p as int, n));
            assert forall|i: int| 0 <= i < p implies key_before(
                keys@,
                (#[trigger] before[i]) as int,
                n as int,
            ) by {
                if i < p - 1 {
                    assert(key_before(keys@, before[i] as int, before[p - 1] as int));
                }
            }
            assert forall|i: int, j: int| 0 <= i < j < after.len() implies key_before(
                keys@,
                #[trigger] after[i] as int,
                #[trigger] after[j] as int,
            ) by {
                if j < p {
                    assert(key_before(keys@, before[i] as int, before[j] as int));
                } else if j == p {
                    assert(after[i] == before[i]);
                } else if i < p {
                    assert(key_before(keys@, before[i] as int, before[j - 1] as int));
                } else if i == p {
                    assert(after[j] == before[j - 1]);
                } else {
                    assert(key_before(keys@, before[i - 1] as int, before[j - 1] as int));
                }
            }
            assert forall|i: int| 0 <= i < after.len() implies (#[trigger] after[i]) < n + 1 by {
                if i < p {
                    assert(after[i] == before[i]);
                } else if i > p {
                    assert(after[i] == before[i - 1]);
                }
            }
        }
        n = n + 1;
    }
    order
}

} // verus!
