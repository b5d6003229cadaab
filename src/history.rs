//! The mathematics of a bounded, key-ordered record history, and the merge
//! that every store performs.
use vstd::prelude::*;
use crate::record::Record;

verus! {

/// Most records a store keeps.
pub const CAPACITY: usize = 100;

/// Keys strictly increase from front to back.
pub open spec fn ascending<R: Record>(s: Seq<R>) -> bool {
    forall|i: int, j: int| 0 <= i < j < s.len() ==> s[i].key_of() < s[j].key_of()
}

/// Keys strictly decrease from front to back.
pub open spec fn descending<R: Record>(s: Seq<R>) -> bool {
    forall|i: int, j: int| 0 <= i < j < s.len() ==> s[i].key_of() > s[j].key_of()
}

/// Some record of `s` has key `k`.
pub open spec fn has_key<R: Record>(s: Seq<R>, k: i64) -> bool {
    exists|i: int| 0 <= i < s.len() && s[i].key_of() == k
}

/// How many leading records of `s` have a key below `k`: in an ascending
/// sequence, the position where a record with key `k` belongs.
pub open spec fn rank<R: Record>(s: Seq<R>, k: i64) -> nat
    decreases s.len(),
{
    if s.len() == 0 {
        0
    } else if s[0].key_of() < k {
        1 + rank(s.drop_first(), k)
    } else {
        0
    }
}

/// `s` with `r` put in its place by key; a record with the same key is replaced.
pub open spec fn insert_record<R: Record>(s: Seq<R>, r: R) -> Seq<R> {
    let p = rank(s, r.key_of()) as int;
    if p < s.len() && s[p].key_of() == r.key_of() {
        s.update(p, r)
    } else {
        s.insert(p, r)
    }
}

/// `s` with each record of `batch` inserted in turn.
pub open spec fn merge_all<R: Record>(s: Seq<R>, batch: Seq<R>) -> Seq<R>
    decreases batch.len(),
{
    if batch.len() == 0 {
        s
    } else {
        insert_record(merge_all(s, batch.drop_last()), batch.last())
    }
}

/// The last `n` elements of `s` (all of them when there are fewer).
pub open spec fn keep_last<T>(s: Seq<T>, n: nat) -> Seq<T> {
    if s.len() <= n {
        s
    } else {
        s.subrange(s.len() - n, s.len() as int)
    }
}

/// The history after a batch arrives: merged by key, then cut to the newest
/// `capacity` records.
pub open spec fn add_batch<R: Record>(s: Seq<R>, batch: Seq<R>, capacity: nat) -> Seq<R> {
    keep_last(merge_all(s, batch), capacity)
}

/// The key of the newest record.
pub open spec fn newest_key<R: Record>(s: Seq<R>) -> Option<i64> {
    if s.len() == 0 {
        None
    } else {
        Some(s.last().key_of())
    }
}

/// A well-formed history: ascending and within capacity.
pub open spec fn bounded_history<R: Record>(s: Seq<R>, capacity: nat) -> bool {
    ascending(s) && s.len() <= capacity
}

proof fn lemma_rank<R: Record>(s: Seq<R>, k: i64)
    ensures
        rank(s, k) <= s.len(),
        forall|j: int| 0 <= j < rank(s, k) ==> s[j].key_of() < k,
        ascending(s) ==> forall|j: int| rank(s, k) <= j < s.len() ==> s[j].key_of() >= k,
    decreases s.len(),
{
    if s.len() > 0 && s[0].key_of() < k {
        lemma_rank(s.drop_first(), k);
        assert forall|j: int| 0 <= j < rank(s, k) implies s[j].key_of() < k by {
            if j > 0 {
                assert(s[j] == s.drop_first()[j - 1]);
            }
        }
        if ascending(s) {
            assert(ascending(s.drop_first()));
            assert forall|j: int| rank(s, k) <= j < s.len() implies s[j].key_of() >= k by {
                assert(s[j] == s.drop_first()[j - 1]);
            }
        }
    }
}

/// In an ascending sequence, the first index whose key is not below `k` is its rank.
proof fn lemma_rank_at<R: Record>(s: Seq<R>, k: i64, i: int)
    requires
        ascending(s),
        0 <= i <= s.len(),
        forall|j: int| 0 <= j < i ==> s[j].key_of() < k,
        i < s.len() ==> s[i].key_of() >= k,
    ensures
        rank(s, k) == i,
{
    lemma_rank(s, k);
    let r = rank(s, k) as int;
    if r < i {
        assert(s[r].key_of() < k);
    } else if r > i {
        assert(s[i].key_of() < k);
    }
}

proof fn lemma_insert_record<R: Record>(s: Seq<R>, r: R)
    requires
        ascending(s),
    ensures
        ascending(insert_record(s, r)),
        s.len() <= insert_record(s, r).len() <= s.len() + 1,
        forall|k: i64| has_key(insert_record(s, r), k) <==> (has_key(s, k) || k == r.key_of()),
{
    let k = r.key_of();
    let p = rank(s, k) as int;
    lemma_rank(s, k);
    let t = insert_record(s, r);
    if p < s.len() && s[p].key_of() == k {
        assert forall|x: i64| has_key(t, x) <==> (has_key(s, x) || x == k) by {
            if has_key(t, x) {
                let i = choose|i: int| 0 <= i < t.len() && t[i].key_of() == x;
                if i != p {
                    assert(s[i].key_of() == x);
                }
            }
            if has_key(s, x) {
                let i = choose|i: int| 0 <= i < s.len() && s[i].key_of() == x;
                assert(t[i].key_of() == x);
            }
            if x == k {
                assert(t[p].key_of() == x);
            }
        }
    } else {
        assert forall|i: int, j: int| 0 <= i < j < t.len() implies t[i].key_of() < t[j].key_of() by {
            if j < p {
            } else if j == p {
            } else if i < p {
                assert(t[j] == s[j - 1]);
            } else if i == p {
                assert(t[j] == s[j - 1]);
            } else {
                assert(t[i] == s[i - 1] && t[j] == s[j - 1]);
            }
        }
        assert forall|x: i64| has_key(t, x) <==> (has_key(s, x) || x == k) by {
            if has_key(t, x) {
                let i = choose|i: int| 0 <= i < t.len() && t[i].key_of() == x;
                if i < p {
                    assert(s[i].key_of() == x);
                } else if i > p {
                    assert(s[i - 1].key_of() == x);
                }
            }
            if has_key(s, x) {
                let i = choose|i: int| 0 <= i < s.len() && s[i].key_of() == x;
                if i < p {
                    assert(t[i].key_of() == x);
                } else {
                    assert(t[i + 1].key_of() == x);
                }
            }
            if x == k {
                assert(t[p].key_of() == x);
            }
        }
    }
}

proof fn lemma_merge_all<R: Record>(s: Seq<R>, batch: Seq<R>)
    requires
        ascending(s),
    ensures
        ascending(merge_all(s, batch)),
        s.len() <= merge_all(s, batch).len() <= s.len() + batch.len(),
        forall|k: i64|
            has_key(merge_all(s, batch), k) <==> (has_key(s, k) || has_key(batch, k)),
    decreases batch.len(),
{
    if batch.len() > 0 {
        let b = batch.drop_last();
        lemma_merge_all(s, b);
        lemma_insert_record(merge_all(s, b), batch.last());
        assert forall|k: i64| has_key(batch, k) <==> (has_key(b, k) || k == batch.last().key_of()) by {
            if has_key(batch, k) {
                let i = choose|i: int| 0 <= i < batch.len() && batch[i].key_of() == k;
                if i < batch.len() - 1 {
                    assert(b[i].key_of() == k);
                }
            }
            if has_key(b, k) {
                let i = choose|i: int| 0 <= i < b.len() && b[i].key_of() == k;
                assert(batch[i].key_of() == k);
            }
            if k == batch.last().key_of() {
                assert(batch[batch.len() - 1].key_of() == k);
            }
        }
    }
}

proof fn lemma_keep_last_ascending<R: Record>(s: Seq<R>, n: nat)
    requires
        ascending(s),
    ensures
        ascending(keep_last(s, n)),
        keep_last(s, n).len() <= n || keep_last(s, n) == s,
        keep_last(s, n).len() == if s.len() <= n { s.len() } else { n },
        s.len() > 0 && n > 0 ==> keep_last(s, n).last() == s.last(),
{
}

/// Merging a batch into a well-formed history gives a well-formed history.
pub proof fn lemma_add_batch_bounded<R: Record>(s: Seq<R>, batch: Seq<R>, capacity: nat)
    requires
        bounded_history(s, capacity),
    ensures
        bounded_history(add_batch(s, batch, capacity), capacity),
{
    lemma_merge_all(s, batch);
    lemma_keep_last_ascending(merge_all(s, batch), capacity);
}

/// Inserts `r` into the ascending vector `v` at its place by key, replacing a
/// record with the same key.
pub fn insert_by_key<R: Record>(v: &mut Vec<R>, r: R)
    requires
        ascending(old(v)@),
    ensures
        final(v)@ == insert_record(old(v)@, r),
        ascending(final(v)@),
{
    let k = r.key();
    let mut i: usize = 0;
    while i < v.len() && v[i].key() < k
        invariant
            i <= v.len(),
            v@ == old(v)@,
            ascending(v@),
            forall|j: int| 0 <= j < i ==> v@[j].key_of() < k,
        decreases v.len() - i,
    {
        i += 1;
    }
    proof {
        lemma_rank_at(v@, k, i as int);
        lemma_insert_record(v@, r);
    }
    if i < v.len() && v[i].key() == k {
        let _replaced = v.remove(i);
        v.insert(i, r);
        assert(v@ =~= old(v)@.update(i as int, r));
    } else {
        v.insert(i, r);
    }
}

/// Merges `batch` into the ascending vector `v`, one record at a time in
/// batch order.
pub fn merge_by_key<R: Record>(v: &mut Vec<R>, batch: Vec<R>)
    requires
        ascending(old(v)@),
    ensures
        final(v)@ == merge_all(old(v)@, batch@),
        ascending(final(v)@),
{
    let ghost start = v@;
    let ghost all = batch@;
    let mut batch = batch;
    let mut rev: Vec<R> = Vec::new();
    while batch.len() > 0
        invariant
            batch@.len() + rev@.len() == all.len(),
            forall|j: int| 0 <= j < batch@.len() ==> batch@[j] == all[j],
            forall|j: int| 0 <= j < rev@.len() ==> rev@[j] == all[all.len() - 1 - j],
        decreases batch.len(),
    {
        let r = batch.pop().unwrap();
        rev.push(r);
    }
    let ghost mut n: int = 0;
    while rev.len() > 0
        invariant
            rev@.len() + n == all.len(),
            0 <= n <= all.len(),
            forall|j: int| 0 <= j < rev@.len() ==> rev@[j] == all[all.len() - 1 - j],
            v@ == merge_all(start, all.subrange(0, n)),
            ascending(v@),
        decreases rev.len(),
    {
        let r = rev.pop().unwrap();
        insert_by_key(v, r);
        proof {
            assert(all.subrange(0, n + 1).drop_last() =~= all.subrange(0, n));
            n = n + 1;
        }
    }
    assert(all.subrange(0, n) =~= all);
}

/// The history after each batch of `batches` has been added in turn.
pub open spec fn add_batches<R: Record>(s: Seq<R>, batches: Seq<Seq<R>>, capacity: nat) -> Seq<R>
    decreases batches.len(),
{
    if batches.len() == 0 {
        s
    } else {
        add_batch(add_batches(s, batches.drop_last(), capacity), batches.last(), capacity)
    }
}

/// Whatever batches arrive, starting from an empty store, the history stays
/// ascending and never holds more records than the store's capacity.
pub proof fn lemma_batches_stay_bounded<R: Record>(batches: Seq<Seq<R>>, capacity: nat)
    ensures
        bounded_history(add_batches(Seq::<R>::empty(), batches, capacity), capacity),
        add_batches(Seq::<R>::empty(), batches, capacity).len() <= capacity,
    decreases batches.len(),
{
    if batches.len() > 0 {
        lemma_batches_stay_bounded(batches.drop_last(), capacity);
        lemma_add_batch_bounded(
            add_batches(Seq::<R>::empty(), batches.drop_last(), capacity),
            batches.last(),
            capacity,
        );
    }
}
/// The newest-first view of an ascending history is descending, and reversing
/// it gives back the ascending history.
pub proof fn lemma_newest_first_round_trip<R: Record>(s: Seq<R>)
    requires
        ascending(s),
    ensures
        descending(s.reverse()),
        ascending(s.reverse().reverse()),
        s.reverse().reverse() == s,
{
    assert(s.reverse().reverse() =~= s);
}

/// After a non-empty batch, the newest key is the largest key of every record
/// ever added that is still held: it belongs to the old history or the batch,
/// no record of either has a larger key, and neither has any kept record.
pub proof fn lemma_newest_key_is_max<R: Record>(s: Seq<R>, batch: Seq<R>, capacity: nat)
    requires
        bounded_history(s, capacity),
        capacity > 0,
        batch.len() > 0,
    ensures
        add_batch(s, batch, capacity).len() > 0,
        newest_key(add_batch(s, batch, capacity)) == Some(add_batch(s, batch, capacity).last().key_of()),
        has_key(s, add_batch(s, batch, capacity).last().key_of()) || has_key(
            batch,
            add_batch(s, batch, capacity).last().key_of(),
        ),
        forall|i: int| 0 <= i < s.len() ==> s[i].key_of() <= add_batch(s, batch, capacity).last().key_of(),
        forall|i: int|
            0 <= i < batch.len() ==> batch[i].key_of() <= add_batch(s, batch, capacity).last().key_of(),
        forall|i: int|
            0 <= i < add_batch(s, batch, capacity).len() ==> add_batch(s, batch, capacity)[i].key_of() <= add_batch(s, batch, capacity).last().key_of(),
{
    let m = merge_all(s, batch);
    lemma_merge_all(s, batch);
    assert(has_key(batch, batch[0].key_of()));
    assert(has_key(m, batch[0].key_of()));
    lemma_keep_last_ascending(m, capacity);
    let t = add_batch(s, batch, capacity);
    let top = m.last().key_of();
    assert(t.last() == m.last());
    assert(has_key(m, top)) by {
        assert(m[m.len() - 1].key_of() == top);
    }
    assert forall|i: int| 0 <= i < s.len() implies s[i].key_of() <= top by {
        assert(has_key(s, s[i].key_of()));
        let j = choose|j: int| 0 <= j < m.len() && m[j].key_of() == s[i].key_of();
        if j < m.len() - 1 {
            assert(m[j].key_of() < m[m.len() - 1].key_of());
        }
    }
    assert forall|i: int| 0 <= i < batch.len() implies batch[i].key_of() <= top by {
        assert(has_key(batch, batch[i].key_of()));
        let j = choose|j: int| 0 <= j < m.len() && m[j].key_of() == batch[i].key_of();
        if j < m.len() - 1 {
            assert(m[j].key_of() < m[m.len() - 1].key_of());
        }
    }
    assert forall|i: int| 0 <= i < t.len() implies t[i].key_of() <= top by {
        if i < t.len() - 1 {
            assert(t[i].key_of() < t[t.len() - 1].key_of());
        }
    }
}

/// Writing a history newest first and adding what was written to an empty
/// store gives back the same history: the store side of a save followed by a
/// load.
pub proof fn lemma_reload_reproduces<R: Record>(s: Seq<R>, capacity: nat)
    requires
        bounded_history(s, capacity),
    ensures
        add_batch(Seq::<R>::empty(), s.reverse(), capacity) == s,
{
    lemma_merge_reversed(s);
}

proof fn lemma_merge_reversed<R: Record>(s: Seq<R>)
    requires
        ascending(s),
    ensures
        merge_all(Seq::<R>::empty(), s.reverse()) == s,
    decreases s.len(),
{
    if s.len() > 0 {
        let rest = s.drop_first();
        assert(ascending(rest));
        lemma_merge_reversed(rest);
        assert(s.reverse().drop_last() =~= rest.reverse());
        assert(s.reverse().last() == s[0]);
        let k = s[0].key_of();
        assert forall|j: int| 0 <= j < rest.len() implies rest[j].key_of() >= k by {
            assert(rest[j] == s[j + 1]);
        }
        lemma_rank_at(rest, k, 0);
        if rest.len() > 0 {
            assert(rest[0] == s[1]);
        }
        assert(rest.insert(0, s[0]) =~= s);
    }
}

} // verus!
