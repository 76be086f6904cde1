//! Per-time cache of sampled Maxwell source values, shared by concurrent inverse-curl queries.
//!
//! Each entry is keyed by the bit pattern of a sample time. An entry is `Sampling` while one
//! thread computes it (others wait), `Ready` once the values are stored, or `Failed` when the
//! sampling thread gave up. The cache holds at most [`MAXWELL_SOURCE_TIME_CACHE_LIMIT`]
//! entries as long as some entry can be evicted; entries still being sampled are never evicted.

use vstd::prelude::*;

verus! {

/// Number of sample times whose source values are kept.
pub const MAXWELL_SOURCE_TIME_CACHE_LIMIT: usize = 64;

/// Fewest samples the Maxwell solver takes along one axis.
pub const MAXWELL_MIN_AXIS_SAMPLES: usize = 5;

/// Most samples the Maxwell solver takes along one axis.
pub const MAXWELL_MAX_AXIS_SAMPLES: usize = 7;

/// State of one cached sample time.
pub enum MaxwellSourceCacheState<V> {
    Sampling,
    Ready(V),
    Failed,
}

/// What a cache lookup finds for one sample time.
pub enum MaxwellSourceCacheLookup<V> {
    Ready(V),
    Sampling,
    Failed,
    Missing,
}

/// One cached sample time.
pub struct MaxwellSourceCacheEntry<V> {
    pub time_bits: u64,
    pub state: MaxwellSourceCacheState<V>,
}

/// The cache: entries in insertion order, at most one per sample time.
pub struct MaxwellSourceTimeCache<V> {
    entries: Vec<MaxwellSourceCacheEntry<V>>,
}

/// Whether the entry is still being sampled.
pub open spec fn is_sampling<V>(e: MaxwellSourceCacheEntry<V>) -> bool {
    e.state is Sampling
}

/// Whether some entry has this sample time.
pub open spec fn has_time<V>(es: Seq<MaxwellSourceCacheEntry<V>>, t: u64) -> bool {
    exists|i: int| 0 <= i < es.len() && #[trigger] es[i].time_bits == t
}

/// No two entries share a sample time.
pub open spec fn distinct_times<V>(es: Seq<MaxwellSourceCacheEntry<V>>) -> bool {
    forall|i: int, j: int|
        0 <= i < es.len() && 0 <= j < es.len() && i != j ==> #[trigger] es[i].time_bits
            != #[trigger] es[j].time_bits
}

/// State recorded for the sample time `t`, if any.
pub open spec fn state_of<V>(es: Seq<MaxwellSourceCacheEntry<V>>, t: u64) -> Option<
    MaxwellSourceCacheState<V>,
> {
    if has_time(es, t) {
        Some(es[choose|i: int| 0 <= i < es.len() && es[i].time_bits == t].state)
    } else {
        None
    }
}

/// `out` is `es` with its first entry that is not being sampled removed, or `es` itself when
/// every entry is being sampled.
pub open spec fn evicted_one<V>(
    es: Seq<MaxwellSourceCacheEntry<V>>,
    out: Seq<MaxwellSourceCacheEntry<V>>,
) -> bool {
    ||| exists|i: int|
        0 <= i < es.len() && !is_sampling(#[trigger] es[i]) && (forall|j: int|
            0 <= j < i ==> is_sampling(#[trigger] es[j])) && out == es.remove(i)
    ||| (forall|j: int| 0 <= j < es.len() ==> is_sampling(#[trigger] es[j])) && out == es
}

/// `out` is `es` with room made for one more entry: one evictable entry is dropped when the
/// cache is full.
pub open spec fn made_room<V>(
    es: Seq<MaxwellSourceCacheEntry<V>>,
    out: Seq<MaxwellSourceCacheEntry<V>>,
) -> bool {
    if es.len() >= MAXWELL_SOURCE_TIME_CACHE_LIMIT {
        evicted_one(es, out)
    } else {
        out == es
    }
}

/// `out` is what reserving the sample time `t` in `es` gives.
pub open spec fn reserved<V>(
    es: Seq<MaxwellSourceCacheEntry<V>>,
    out: Seq<MaxwellSourceCacheEntry<V>>,
    t: u64,
) -> bool {
    if has_time(es, t) {
        out == es
    } else {
        &&& out.len() > 0
        &&& out.last().time_bits == t
        &&& out.last().state is Sampling
        &&& made_room(es, out.drop_last())
    }
}

/// `out` is what storing the values `v` for the sample time `t` in `es` gives.
pub open spec fn finished<V>(
    es: Seq<MaxwellSourceCacheEntry<V>>,
    out: Seq<MaxwellSourceCacheEntry<V>>,
    t: u64,
    v: V,
) -> bool {
    let entry = MaxwellSourceCacheEntry { time_bits: t, state: MaxwellSourceCacheState::Ready(v) };
    if has_time(es, t) {
        exists|i: int| 0 <= i < es.len() && es[i].time_bits == t && out == es.update(i, entry)
    } else {
        &&& out.len() > 0
        &&& out.last() == entry
        &&& made_room(es, out.drop_last())
    }
}

/// `out` is what marking the sample time `t` of `es` as failed gives.
pub open spec fn failed<V>(
    es: Seq<MaxwellSourceCacheEntry<V>>,
    out: Seq<MaxwellSourceCacheEntry<V>>,
    t: u64,
) -> bool {
    let entry = MaxwellSourceCacheEntry { time_bits: t, state: MaxwellSourceCacheState::Failed };
    if has_time(es, t) {
        exists|i: int| 0 <= i < es.len() && es[i].time_bits == t && out == es.update(i, entry)
    } else {
        out == es
    }
}

/// With distinct sample times, the state of `t` is that of any entry with time `t`.
pub proof fn lemma_state_of_index<V>(es: Seq<MaxwellSourceCacheEntry<V>>, t: u64, i: int)
    requires
        distinct_times(es),
        0 <= i < es.len(),
        es[i].time_bits == t,
    ensures
        state_of(es, t) == Some(es[i].state),
{
    let k = choose|k: int| 0 <= k < es.len() && es[k].time_bits == t;
    assert(es[k].time_bits == t);
    assert(k == i);
}

/// Making room never adds a sample time.
pub proof fn lemma_made_room_keeps_absent<V>(
    es: Seq<MaxwellSourceCacheEntry<V>>,
    out: Seq<MaxwellSourceCacheEntry<V>>,
    t: u64,
)
    requires
        made_room(es, out),
        !has_time(es, t),
    ensures
        forall|i: int| 0 <= i < out.len() ==> #[trigger] out[i].time_bits != t,
{
    assert forall|i: int| 0 <= i < out.len() implies #[trigger] out[i].time_bits != t by {
        if out == es {
            assert(es[i].time_bits != t);
        } else {
            let k = choose|k: int|
                0 <= k < es.len() && !is_sampling(#[trigger] es[k]) && (forall|j: int|
                    0 <= j < k ==> is_sampling(#[trigger] es[j])) && out == es.remove(k);
            let j = if i < k { i } else { i + 1 };
            assert(es[j] == out[i]);
            assert(es[j].time_bits != t);
        }
    }
}

/// Clamps a requested per-axis sample count into the range the Maxwell solver uses.
pub fn axis_sample_count(count: usize) -> (r: usize)
    ensures
        r == if count < MAXWELL_MIN_AXIS_SAMPLES {
            MAXWELL_MIN_AXIS_SAMPLES
        } else if count > MAXWELL_MAX_AXIS_SAMPLES {
            MAXWELL_MAX_AXIS_SAMPLES
        } else {
            count
        },
{
    if count < MAXWELL_MIN_AXIS_SAMPLES {
        MAXWELL_MIN_AXIS_SAMPLES
    } else if count > MAXWELL_MAX_AXIS_SAMPLES {
        MAXWELL_MAX_AXIS_SAMPLES
    } else {
        count
    }
}

impl<V> MaxwellSourceTimeCache<V> {
    /// The cached entries, in insertion order.
    pub closed spec fn entries_view(&self) -> Seq<MaxwellSourceCacheEntry<V>> {
        self.entries@
    }

    /// The cache is well formed: at most one entry per sample time.
    pub open spec fn wf(&self) -> bool {
        distinct_times(self.entries_view())
    }

    /// An empty cache.
    pub fn new() -> (r: Self)
        ensures
            r.wf(),
            r.entries_view() == Seq::<MaxwellSourceCacheEntry<V>>::empty(),
    {
        MaxwellSourceTimeCache { entries: Vec::new() }
    }

    /// Number of cached sample times.
    pub fn len(&self) -> (n: usize)
        ensures
            n == self.entries_view().len(),
    {
        self.entries.len()
    }

    /// Index of the entry with sample time `t`, if any.
    fn position(&self, time_bits: u64) -> (r: Option<usize>)
        ensures
            match r {
                Some(i) => i < self.entries_view().len() && self.entries_view()[i as int].time_bits
                    == time_bits,
                None => !has_time(self.entries_view(), time_bits),
            },
    {
        let mut i: usize = 0;
        while i < self.entries.len()
            invariant
                i <= self.entries@.len(),
                forall|j: int| 0 <= j < i ==> self.entries@[j].time_bits != time_bits,
            decreases self.entries.len() - i,
        {
            if self.entries[i].time_bits == time_bits {
                return Some(i);
            }
            i = i + 1;
        }
        None
    }

    /// Looks up the state of one sample time; ready values are handed out as clones.
    pub fn lookup(&self, time_bits: u64) -> (r: MaxwellSourceCacheLookup<V>) where V: Clone
        requires
            self.wf(),
        ensures
            match state_of(self.entries_view(), time_bits) {
                None => r is Missing,
                Some(MaxwellSourceCacheState::Sampling) => r is Sampling,
                Some(MaxwellSourceCacheState::Failed) => r is Failed,
                Some(MaxwellSourceCacheState::Ready(v)) => r matches MaxwellSourceCacheLookup::Ready(
                    c,
                ) && cloned(v, c),
            },
    {
        match self.position(time_bits) {
            None => MaxwellSourceCacheLookup::Missing,
            Some(i) => {
                proof {
                    lemma_state_of_index(self.entries@, time_bits, i as int);
                }
                match &self.entries[i].state {
                    MaxwellSourceCacheState::Ready(values) => MaxwellSourceCacheLookup::Ready(
                        values.clone(),
                    ),
                    MaxwellSourceCacheState::Sampling => MaxwellSourceCacheLookup::Sampling,
                    MaxwellSourceCacheState::Failed => MaxwellSourceCacheLookup::Failed,
                }
            },
        }
    }

    /// Drops the oldest entry that is not being sampled, if there is one.
    pub fn evict_one_ready_entry(&mut self)
        requires
            old(self).wf(),
        ensures
            final(self).wf(),
            evicted_one(old(self).entries_view(), final(self).entries_view()),
    {
        let mut i: usize = 0;
        while i < self.entries.len()
            invariant
                i <= self.entries@.len(),
                self.entries@ == old(self).entries@,
                distinct_times(self.entries@),
                forall|j: int| 0 <= j < i ==> is_sampling(#[trigger] self.entries@[j]),
            decreases self.entries.len() - i,
        {
            let sampling = match self.entries[i].state {
                MaxwellSourceCacheState::Sampling => true,
                _ => false,
            };
            if !sampling {
                let ghost es = self.entries@;
                let _ = self.entries.remove(i);
                proof {
                    assert(!is_sampling(es[i as int]));
                    assert forall|a: int, b: int|
                        0 <= a < self.entries@.len() && 0 <= b < self.entries@.len() && a
                            != b implies #[trigger] self.entries@[a].time_bits
                        != #[trigger] self.entries@[b].time_bits by {
                        let a2 = if a < i { a } else { a + 1 };
                        let b2 = if b < i { b } else { b + 1 };
                        assert(self.entries@[a] == es[a2]);
                        assert(self.entries@[b] == es[b2]);
                    }
                    assert(evicted_one(es, self.entries@));
                }
                return;
            }
            i = i + 1;
        }
    }

    /// Marks a sample time as being sampled unless it is already known, making room first.
    pub fn reserve(&mut self, time_bits: u64)
        requires
            old(self).wf(),
        ensures
            final(self).wf(),
            reserved(old(self).entries_view(), final(self).entries_view(), time_bits),
    {
        if self.position(time_bits).is_some() {
            return;
        }
        self.make_room();
        let ghost before = self.entries@;
        proof {
            lemma_made_room_keeps_absent(old(self).entries@, before, time_bits);
        }
        self.push_new(time_bits, MaxwellSourceCacheState::Sampling);
        assert(self.entries@.drop_last() =~= before);
    }

    /// Evicts one entry when the cache is full.
    fn make_room(&mut self)
        requires
            old(self).wf(),
        ensures
            final(self).wf(),
            made_room(old(self).entries_view(), final(self).entries_view()),
    {
        if self.entries.len() >= MAXWELL_SOURCE_TIME_CACHE_LIMIT {
            self.evict_one_ready_entry();
        }
    }

    /// Appends an entry for a sample time that no entry has.
    fn push_new(&mut self, time_bits: u64, state: MaxwellSourceCacheState<V>)
        requires
            old(self).wf(),
            forall|i: int|
                0 <= i < old(self).entries_view().len() ==> #[trigger] old(
                    self,
                ).entries_view()[i].time_bits != time_bits,
        ensures
            final(self).wf(),
            final(self).entries_view() == old(self).entries_view().push(
                MaxwellSourceCacheEntry { time_bits, state },
            ),
    {
        self.entries.push(MaxwellSourceCacheEntry { time_bits, state });
    }

    /// Stores the sampled values of one sample time, replacing its state or adding an entry.
    pub fn finish_sampling(&mut self, time_bits: u64, values: V)
        requires
            old(self).wf(),
        ensures
            final(self).wf(),
            state_of(final(self).entries_view(), time_bits) == Some(
                MaxwellSourceCacheState::Ready(values),
            ),
            finished(old(self).entries_view(), final(self).entries_view(), time_bits, values),
    {
        match self.position(time_bits) {
            Some(i) => {
                let ghost es = self.entries@;
                self.entries.set(
                    i,
                    MaxwellSourceCacheEntry {
                        time_bits,
                        state: MaxwellSourceCacheState::Ready(values),
                    },
                );
                proof {
                    assert forall|a: int, b: int|
                        0 <= a < self.entries@.len() && 0 <= b < self.entries@.len() && a
                            != b implies #[trigger] self.entries@[a].time_bits
                        != #[trigger] self.entries@[b].time_bits by {
                        assert(self.entries@[a].time_bits == es[a].time_bits);
                        assert(self.entries@[b].time_bits == es[b].time_bits);
                    }
                    lemma_state_of_index(self.entries@, time_bits, i as int);
                    assert(has_time(es, time_bits));
                }
            },
            None => {
                self.make_room();
                let ghost before = self.entries@;
                proof {
                    lemma_made_room_keeps_absent(old(self).entries@, before, time_bits);
                }
                self.push_new(time_bits, MaxwellSourceCacheState::Ready(values));
                assert(self.entries@.drop_last() =~= before);
                proof {
                    lemma_state_of_index(
                        self.entries@,
                        time_bits,
                        self.entries@.len() - 1,
                    );
                }
            },
        }
    }

    /// Marks a sample time that is being sampled as failed.
    pub fn fail_sampling(&mut self, time_bits: u64)
        requires
            old(self).wf(),
        ensures
            final(self).wf(),
            failed(old(self).entries_view(), final(self).entries_view(), time_bits),
    {
        if let Some(i) = self.position(time_bits) {
            let ghost es = self.entries@;
            self.entries.set(
                i,
                MaxwellSourceCacheEntry { time_bits, state: MaxwellSourceCacheState::Failed },
            );
            proof {
                assert forall|a: int, b: int|
                    0 <= a < self.entries@.len() && 0 <= b < self.entries@.len() && a
                        != b implies #[trigger] self.entries@[a].time_bits
                    != #[trigger] self.entries@[b].time_bits by {
                    assert(self.entries@[a].time_bits == es[a].time_bits);
                    assert(self.entries@[b].time_bits == es[b].time_bits);
                }
                assert(has_time(es, time_bits));
            }
        }
    }
}

/// After the values of a sample time are stored, looking it up finds them.
pub proof fn lemma_lookup_after_finish<V>(
    es: Seq<MaxwellSourceCacheEntry<V>>,
    out: Seq<MaxwellSourceCacheEntry<V>>,
    t: u64,
    v: V,
)
    requires
        distinct_times(es),
        distinct_times(out),
        finished(es, out, t, v),
    ensures
        state_of(out, t) == Some(MaxwellSourceCacheState::Ready(v)),
{
    if has_time(es, t) {
        let i = choose|i: int|
            0 <= i < es.len() && es[i].time_bits == t && out == es.update(
                i,
                MaxwellSourceCacheEntry { time_bits: t, state: MaxwellSourceCacheState::Ready(v) },
            );
        lemma_state_of_index(out, t, i);
    } else {
        lemma_state_of_index(out, t, out.len() - 1);
    }
}

/// After a sample time is reserved it is known: it keeps its state, or is being sampled when
/// it was new.
pub proof fn lemma_lookup_after_reserve<V>(
    es: Seq<MaxwellSourceCacheEntry<V>>,
    out: Seq<MaxwellSourceCacheEntry<V>>,
    t: u64,
)
    requires
        distinct_times(es),
        distinct_times(out),
        reserved(es, out, t),
    ensures
        state_of(out, t) == if has_time(es, t) {
            state_of(es, t)
        } else {
            Some(MaxwellSourceCacheState::<V>::Sampling)
        },
{
    if !has_time(es, t) {
        lemma_state_of_index(out, t, out.len() - 1);
    }
}

/// After a known sample time is marked as failed, looking it up finds the failure.
pub proof fn lemma_lookup_after_fail<V>(
    es: Seq<MaxwellSourceCacheEntry<V>>,
    out: Seq<MaxwellSourceCacheEntry<V>>,
    t: u64,
)
    requires
        distinct_times(es),
        distinct_times(out),
        failed(es, out, t),
        has_time(es, t),
    ensures
        state_of(out, t) == Some(MaxwellSourceCacheState::<V>::Failed),
{
    let i = choose|i: int|
        0 <= i < es.len() && es[i].time_bits == t && out == es.update(
            i,
            MaxwellSourceCacheEntry { time_bits: t, state: MaxwellSourceCacheState::Failed },
        );
    lemma_state_of_index(out, t, i);
}

/// Making room never drops an entry that is being sampled.
proof fn lemma_made_room_keeps_sampling<V>(
    es: Seq<MaxwellSourceCacheEntry<V>>,
    out: Seq<MaxwellSourceCacheEntry<V>>,
    i: int,
) -> (j: int)
    requires
        made_room(es, out),
        0 <= i < es.len(),
        is_sampling(es[i]),
    ensures
        0 <= j < out.len(),
        out[j] == es[i],
{
    if out == es {
        i
    } else {
        let k = choose|k: int|
            0 <= k < es.len() && !is_sampling(#[trigger] es[k]) && (forall|j: int|
                0 <= j < k ==> is_sampling(#[trigger] es[j])) && out == es.remove(k);
        assert(k != i);
        if i < k {
            i
        } else {
            i - 1
        }
    }
}

/// Reserving or storing one sample time never drops another sample time that is still being
/// sampled, so threads waiting for it find its values later.
pub proof fn lemma_sampling_entries_survive<V>(
    es: Seq<MaxwellSourceCacheEntry<V>>,
    out: Seq<MaxwellSourceCacheEntry<V>>,
    t: u64,
    other: u64,
    v: V,
)
    requires
        distinct_times(es),
        distinct_times(out),
        reserved(es, out, t) || finished(es, out, t, v),
        other != t,
        state_of(es, other) == Some(MaxwellSourceCacheState::<V>::Sampling),
    ensures
        state_of(out, other) == Some(MaxwellSourceCacheState::<V>::Sampling),
{
    let i = choose|i: int| 0 <= i < es.len() && es[i].time_bits == other;
    lemma_state_of_index(es, other, i);
    if has_time(es, t) {
        if reserved(es, out, t) {
            lemma_state_of_index(out, other, i);
        } else {
            let k = choose|k: int|
                0 <= k < es.len() && es[k].time_bits == t && out == es.update(
                    k,
                    MaxwellSourceCacheEntry {
                        time_bits: t,
                        state: MaxwellSourceCacheState::Ready(v),
                    },
                );
            assert(out[i] == es[i]);
            lemma_state_of_index(out, other, i);
        }
    } else {
        let j = lemma_made_room_keeps_sampling(es, out.drop_last(), i);
        assert(out[j] == es[i]);
        lemma_state_of_index(out, other, j);
    }
}

/// Reserving a new sample time keeps the cache within its limit whenever some entry can be
/// evicted or there is still room.
pub proof fn lemma_reserve_respects_limit<V>(
    es: Seq<MaxwellSourceCacheEntry<V>>,
    out: Seq<MaxwellSourceCacheEntry<V>>,
    t: u64,
)
    requires
        reserved(es, out, t),
        es.len() <= MAXWELL_SOURCE_TIME_CACHE_LIMIT,
        es.len() < MAXWELL_SOURCE_TIME_CACHE_LIMIT || exists|i: int|
            0 <= i < es.len() && !is_sampling(#[trigger] es[i]),
    ensures
        out.len() <= MAXWELL_SOURCE_TIME_CACHE_LIMIT,
{
    if !has_time(es, t) {
        assert(out.len() == out.drop_last().len() + 1);
        if es.len() >= MAXWELL_SOURCE_TIME_CACHE_LIMIT {
            let w = choose|i: int| 0 <= i < es.len() && !is_sampling(#[trigger] es[i]);
            if out.drop_last() == es {
                assert(is_sampling(es[w]));
            } else {
                let k = choose|k: int|
                    0 <= k < es.len() && !is_sampling(#[trigger] es[k]) && (forall|j: int|
                        0 <= j < k ==> is_sampling(#[trigger] es[j])) && out.drop_last()
                        == es.remove(k);
                assert(out.drop_last().len() == es.len() - 1);
            }
        }
    }
}

/// An entry of `es` either survives making room, unchanged, or its sample time is gone.
proof fn lemma_made_room_keeps_or_drops<V>(
    es: Seq<MaxwellSourceCacheEntry<V>>,
    out: Seq<MaxwellSourceCacheEntry<V>>,
    i: int,
) -> (j: Option<int>)
    requires
        made_room(es, out),
        distinct_times(es),
        0 <= i < es.len(),
    ensures
        j matches Some(j) ==> 0 <= j < out.len() && out[j] == es[i],
        j is None ==> forall|k: int| 0 <= k < out.len() ==> #[trigger] out[k].time_bits != es[i].time_bits,
{
    if out == es {
        Some(i)
    } else {
        let k = choose|k: int|
            0 <= k < es.len() && !is_sampling(#[trigger] es[k]) && (forall|j: int|
                0 <= j < k ==> is_sampling(#[trigger] es[j])) && out == es.remove(k);
        if i < k {
            Some(i)
        } else if i > k {
            Some(i - 1)
        } else {
            assert forall|m: int| 0 <= m < out.len() implies #[trigger] out[m].time_bits
                != es[i].time_bits by {
                let src = if m < k { m } else { m + 1 };
                assert(out[m] == es[src]);
                assert(src != i);
            }
            None
        }
    }
}

/// Each sample time is sampled once: once a reserved time has its values stored, reserving
/// it again changes nothing (no second sampling starts) and looking it up finds the stored
/// values.
pub proof fn lemma_time_sampled_once<V>(
    es0: Seq<MaxwellSourceCacheEntry<V>>,
    es1: Seq<MaxwellSourceCacheEntry<V>>,
    es2: Seq<MaxwellSourceCacheEntry<V>>,
    es3: Seq<MaxwellSourceCacheEntry<V>>,
    t: u64,
    v: V,
)
    requires
        distinct_times(es0),
        distinct_times(es1),
        distinct_times(es2),
        distinct_times(es3),
        reserved(es0, es1, t),
        finished(es1, es2, t, v),
        reserved(es2, es3, t),
    ensures
        has_time(es2, t),
        es3 == es2,
        state_of(es3, t) == Some(MaxwellSourceCacheState::Ready(v)),
{
    if !has_time(es0, t) {
        assert(es1[es1.len() - 1].time_bits == t);
    }
    assert(has_time(es1, t));
    let i = choose|i: int|
        0 <= i < es1.len() && es1[i].time_bits == t && es2 == es1.update(
            i,
            MaxwellSourceCacheEntry { time_bits: t, state: MaxwellSourceCacheState::Ready(v) },
        );
    assert(es2[i].time_bits == t);
    assert(has_time(es2, t));
    lemma_lookup_after_finish(es1, es2, t, v);
}

/// Stored values stay until their sample time is evicted: reserving, storing or failing
/// another sample time leaves the values of `t` in place, or drops `t` altogether.
pub proof fn lemma_ready_stays_until_evicted<V>(
    es: Seq<MaxwellSourceCacheEntry<V>>,
    out: Seq<MaxwellSourceCacheEntry<V>>,
    t: u64,
    v: V,
    other: u64,
    w: V,
)
    requires
        distinct_times(es),
        distinct_times(out),
        state_of(es, t) == Some(MaxwellSourceCacheState::Ready(v)),
        other != t,
        reserved(es, out, other) || finished(es, out, other, w) || failed(es, out, other),
    ensures
        state_of(out, t) == Some(MaxwellSourceCacheState::Ready(v)) || !has_time(out, t),
{
    let i = choose|i: int| 0 <= i < es.len() && es[i].time_bits == t;
    lemma_state_of_index(es, t, i);
    if has_time(es, other) {
        if reserved(es, out, other) {
            lemma_state_of_index(out, t, i);
        } else if finished(es, out, other, w) {
            let k = choose|k: int|
                0 <= k < es.len() && es[k].time_bits == other && out == es.update(
                    k,
                    MaxwellSourceCacheEntry {
                        time_bits: other,
                        state: MaxwellSourceCacheState::Ready(w),
                    },
                );
            assert(out[i] == es[i]);
            lemma_state_of_index(out, t, i);
        } else {
            let k = choose|k: int|
                0 <= k < es.len() && es[k].time_bits == other && out == es.update(
                    k,
                    MaxwellSourceCacheEntry {
                        time_bits: other,
                        state: MaxwellSourceCacheState::Failed,
                    },
                );
            assert(out[i] == es[i]);
            lemma_state_of_index(out, t, i);
        }
    } else if failed(es, out, other) {
        lemma_state_of_index(out, t, i);
    } else {
        let rest = out.drop_last();
        match lemma_made_room_keeps_or_drops(es, rest, i) {
            Some(j) => {
                assert(out[j] == rest[j]);
                lemma_state_of_index(out, t, j);
            },
            None => {
                assert forall|m: int| 0 <= m < out.len() implies #[trigger] out[m].time_bits
                    != t by {
                    if m < rest.len() {
                        assert(out[m] == rest[m]);
                    } else {
                        assert(out[m].time_bits == other);
                    }
                }
            },
        }
    }
}

} // verus!
