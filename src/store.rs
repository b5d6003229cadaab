//! The bounded record stores: the newest builds and alerts (`CAPACITY` of
//! each unless chosen otherwise), kept ascending by key and handed out newest
//! first.
use vstd::prelude::*;
use ringbuffer::AllocRingBuffer;
use crate::history::{
    CAPACITY, add_batch, ascending, bounded_history, keep_last, lemma_add_batch_bounded,
    merge_all, merge_by_key, newest_key,
};
use crate::record::{Alert, Build, Record};
use crate::ring::{
    alert_ring_capacity, alert_ring_items, alert_ring_to_vec, build_ring_capacity,
    build_ring_items, build_ring_to_vec, clear_alert_ring, clear_build_ring, enqueue_alert,
    enqueue_build, new_alert_ring, new_build_ring, newest_alert_time, newest_build_id,
    ring_after_enqueue,
};

verus! {

/// What a store holds after loading: the records read back merged into what
/// it held, or what it held when there was no store file.
pub open spec fn loaded_history<R: Record>(
    current: Seq<R>,
    loaded: Option<Seq<R>>,
    capacity: nat,
) -> Seq<R> {
    match loaded {
        Some(records) => add_batch(current, records, capacity),
        None => current,
    }
}

/// Keeping the last `n` of a sequence that grows by one is enqueuing into a
/// ring of capacity `n`.
proof fn lemma_keep_last_push<T>(s: Seq<T>, x: T, n: nat)
    requires
        n > 0,
    ensures
        keep_last(s.push(x), n) == ring_after_enqueue(keep_last(s, n), n, x),
{
    if s.len() < n {
    } else if s.len() == n {
        assert(keep_last(s.push(x), n) =~= s.drop_first().push(x));
    } else {
        assert(keep_last(s.push(x), n) =~= keep_last(s, n).drop_first().push(x));
    }
}

/// The newest builds, at most the store's capacity of them, deduplicated by id.
pub struct BuildStore {
    builds: AllocRingBuffer<Build>,
}

impl View for BuildStore {
    type V = Seq<Build>;

    /// The builds, ascending by id.
    closed spec fn view(&self) -> Seq<Build> {
        build_ring_items(self.builds)
    }
}

impl BuildStore {
    pub closed spec fn wf(&self) -> bool {
        &&& bounded_history(build_ring_items(self.builds), build_ring_capacity(self.builds))
        &&& build_ring_capacity(self.builds) > 0
    }

    /// The most records the store keeps.
    pub closed spec fn capacity(&self) -> nat {
        build_ring_capacity(self.builds)
    }

    /// A well-formed store holds an ascending history within its capacity.
    pub proof fn lemma_bounded(&self)
        requires
            self.wf(),
        ensures
            bounded_history(self@, self.capacity()),
            self.capacity() > 0,
    {
    }

    /// An empty store keeping the newest `CAPACITY` records.
    pub fn new() -> (r: Self)
        ensures
            r.wf(),
            r@ == Seq::<Build>::empty(),
            r.capacity() == CAPACITY,
    {
        BuildStore { builds: new_build_ring(CAPACITY) }
    }

    /// An empty store keeping the newest `capacity` records.
    pub fn with_capacity(capacity: usize) -> (r: Self)
        requires
            capacity > 0,
        ensures
            r.wf(),
            r@ == Seq::<Build>::empty(),
            r.capacity() == capacity,
    {
        BuildStore { builds: new_build_ring(capacity) }
    }

    /// Merges a batch: each build takes its place by id (replacing one with the
    /// same id), and only the newest `capacity()` stay. An empty batch changes
    /// nothing.
    pub fn add_builds(&mut self, new_builds: Vec<Build>)
        requires
            old(self).wf(),
        ensures
            final(self).wf(),
            final(self).capacity() == old(self).capacity(),
            final(self)@ == add_batch(old(self)@, new_builds@, old(self).capacity()),
    {
        if new_builds.len() == 0 {
            assert(merge_all(self@, new_builds@) == self@);
            return;
        }
        let ghost start = self@;
        let mut all = build_ring_to_vec(&self.builds);
        merge_by_key(&mut all, new_builds);
        let ghost merged = all@;
        proof {
            lemma_add_batch_bounded(start, new_builds@, self.capacity());
        }
        let ghost cap = self.capacity();
        clear_build_ring(&mut self.builds);
        let ghost mut n: int = 0;
        assert(merged.subrange(n, merged.len() as int) =~= merged);
        while all.len() > 0
            invariant
                0 <= n <= merged.len(),
                all@ == merged.subrange(n, merged.len() as int),
                build_ring_items(self.builds) == keep_last(merged.subrange(0, n), cap),
                build_ring_capacity(self.builds) == cap,
                cap > 0,
            decreases all.len(),
        {
            let b = all.remove(0);
            proof {
                lemma_keep_last_push(merged.subrange(0, n), b, cap);
                assert(merged.subrange(0, n).push(b) =~= merged.subrange(0, n + 1));
                assert(all@ =~= merged.subrange(n + 1, merged.len() as int));
            }
            enqueue_build(&mut self.builds, b);
            proof {
                n = n + 1;
            }
        }
        assert(merged.subrange(0, n) =~= merged);
    }

    /// Forgets every build.
    pub fn clear(&mut self)
        requires
            old(self).wf(),
        ensures
            final(self).wf(),
            final(self).capacity() == old(self).capacity(),
            final(self)@ == Seq::<Build>::empty(),
    {
        clear_build_ring(&mut self.builds);
    }

    /// The builds, newest first.
    pub fn get_all(&self) -> (r: Vec<Build>)
        requires
            self.wf(),
        ensures
            r@ == self@.reverse(),
            r@.len() <= self.capacity(),
            crate::history::descending(r@),
    {
        let mut all = build_ring_to_vec(&self.builds);
        let ghost asc = all@;
        let mut out: Vec<Build> = Vec::new();
        while all.len() > 0
            invariant
                all@ == asc.subrange(0, all@.len() as int),
                out@.len() + all@.len() == asc.len(),
                forall|j: int| 0 <= j < out@.len() ==> out@[j] == asc[asc.len() - 1 - j],
            decreases all.len(),
        {
            let b = all.pop().unwrap();
            out.push(b);
        }
        assert(out@ =~= asc.reverse());
        out
    }

    /// The id of the newest build: the cursor for the next fetch.
    pub fn get_last_notified_build_id(&self) -> (r: Option<i64>)
        ensures
            r == newest_key(self@),
    {
        newest_build_id(&self.builds)
    }

    /// Merges what was read back from disk. `None` means there was no store
    /// file, which is no error and changes nothing; a file that could not be
    /// read or parsed counts as holding no records (`Some` of an empty vector).
    pub fn load_from(&mut self, loaded: Option<Vec<Build>>)
        requires
            old(self).wf(),
        ensures
            final(self).wf(),
            final(self).capacity() == old(self).capacity(),
            final(self)@ == loaded_history(
                old(self)@,
                match loaded {
                    Some(v) => Some(v@),
                    None => None,
                },
                old(self).capacity(),
            ),
    {
        match loaded {
            Some(v) => self.add_builds(v),
            None => {},
        }
    }
}

/// The newest alerts, at most the store's capacity of them, deduplicated by
/// creation time.
pub struct AlertStore {
    alerts: AllocRingBuffer<Alert>,
}

impl View for AlertStore {
    type V = Seq<Alert>;

    /// The alerts, ascending by creation time.
    closed spec fn view(&self) -> Seq<Alert> {
        alert_ring_items(self.alerts)
    }
}

impl AlertStore {
    pub closed spec fn wf(&self) -> bool {
        &&& bounded_history(alert_ring_items(self.alerts), alert_ring_capacity(self.alerts))
        &&& alert_ring_capacity(self.alerts) > 0
    }

    /// The most records the store keeps.
    pub closed spec fn capacity(&self) -> nat {
        alert_ring_capacity(self.alerts)
    }

    /// A well-formed store holds an ascending history within its capacity.
    pub proof fn lemma_bounded(&self)
        requires
            self.wf(),
        ensures
            bounded_history(self@, self.capacity()),
            self.capacity() > 0,
    {
    }

    /// An empty store keeping the newest `CAPACITY` records.
    pub fn new() -> (r: Self)
        ensures
            r.wf(),
            r@ == Seq::<Alert>::empty(),
            r.capacity() == CAPACITY,
    {
        AlertStore { alerts: new_alert_ring(CAPACITY) }
    }

    /// An empty store keeping the newest `capacity` records.
    pub fn with_capacity(capacity: usize) -> (r: Self)
        requires
            capacity > 0,
        ensures
            r.wf(),
            r@ == Seq::<Alert>::empty(),
            r.capacity() == capacity,
    {
        AlertStore { alerts: new_alert_ring(capacity) }
    }

    /// Merges a batch: each alert takes its place by creation time (replacing
    /// one created at the same time), and only the newest `capacity()` stay.
    /// An empty batch changes nothing.
    pub fn add_alerts(&mut self, new_alerts: Vec<Alert>)
        requires
            old(self).wf(),
        ensures
            final(self).wf(),
            final(self).capacity() == old(self).capacity(),
            final(self)@ == add_batch(old(self)@, new_alerts@, old(self).capacity()),
    {
        if new_alerts.len() == 0 {
            assert(merge_all(self@, new_alerts@) == self@);
            return;
        }
        let ghost start = self@;
        let mut all = alert_ring_to_vec(&self.alerts);
        merge_by_key(&mut all, new_alerts);
        let ghost merged = all@;
        proof {
            lemma_add_batch_bounded(start, new_alerts@, self.capacity());
        }
        let ghost cap = self.capacity();
        clear_alert_ring(&mut self.alerts);
        let ghost mut n: int = 0;
        assert(merged.subrange(n, merged.len() as int) =~= merged);
        while all.len() > 0
            invariant
                0 <= n <= merged.len(),
                all@ == merged.subrange(n, merged.len() as int),
                alert_ring_items(self.alerts) == keep_last(merged.subrange(0, n), cap),
                alert_ring_capacity(self.alerts) == cap,
                cap > 0,
            decreases all.len(),
        {
            let a = all.remove(0);
            proof {
                lemma_keep_last_push(merged.subrange(0, n), a, cap);
                assert(merged.subrange(0, n).push(a) =~= merged.subrange(0, n + 1));
                assert(all@ =~= merged.subrange(n + 1, merged.len() as int));
            }
            enqueue_alert(&mut self.alerts, a);
            proof {
                n = n + 1;
            }
        }
        assert(merged.subrange(0, n) =~= merged);
    }

    /// Forgets every alert.
    pub fn clear(&mut self)
        requires
            old(self).wf(),
        ensures
            final(self).wf(),
            final(self).capacity() == old(self).capacity(),
            final(self)@ == Seq::<Alert>::empty(),
    {
        clear_alert_ring(&mut self.alerts);
    }

    /// The alerts, newest first.
    pub fn get_all(&self) -> (r: Vec<Alert>)
        requires
            self.wf(),
        ensures
            r@ == self@.reverse(),
            r@.len() <= self.capacity(),
            crate::history::descending(r@),
    {
        let mut all = alert_ring_to_vec(&self.alerts);
        let ghost asc = all@;
        let mut out: Vec<Alert> = Vec::new();
        while all.len() > 0
            invariant
                all@ == asc.subrange(0, all@.len() as int),
                out@.len() + all@.len() == asc.len(),
                forall|j: int| 0 <= j < out@.len() ==> out@[j] == asc[asc.len() - 1 - j],
            decreases all.len(),
        {
            let a = all.pop().unwrap();
            out.push(a);
        }
        assert(out@ =~= asc.reverse());
        out
    }

    /// The creation time of the newest alert: the cursor for the next fetch.
    pub fn get_last_notified_time(&self) -> (r: Option<i64>)
        ensures
            r == newest_key(self@),
    {
        newest_alert_time(&self.alerts)
    }

    /// Merges what was read back from disk. `None` means there was no store
    /// file, which is no error and changes nothing; a file that could not be
    /// read or parsed counts as holding no records (`Some` of an empty vector).
    pub fn load_from(&mut self, loaded: Option<Vec<Alert>>)
        requires
            old(self).wf(),
        ensures
            final(self).wf(),
            final(self).capacity() == old(self).capacity(),
            final(self)@ == loaded_history(
                old(self)@,
                match loaded {
                    Some(v) => Some(v@),
                    None => None,
                },
                old(self).capacity(),
            ),
    {
        match loaded {
            Some(v) => self.add_alerts(v),
            None => {},
        }
    }
}

} // verus!
