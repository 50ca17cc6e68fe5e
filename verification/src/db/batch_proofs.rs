//! What holds of a loader over several calls.

use crate::db::batch::{lemma_request_keeps_wf, LoaderState, Lookup, Step};
use vstd::prelude::*;

verus! {

impl<V> LoaderState<V> {
    /// The key has been handed out for a fetch: it is in flight or resolved.
    pub open spec fn fetched(self, key: i32) -> bool {
        self.resolved.contains_key(key) || self.in_flight.contains(key)
    }

    /// The loader after callers asked for each of `keys` in turn.
    pub open spec fn request_all(self, keys: Seq<i32>) -> Self
        decreases keys.len(),
    {
        if keys.len() == 0 {
            self
        } else {
            self.request_all(keys.drop_last()).request(keys.last())
        }
    }
}

impl<V> LoaderState<V> {
    /// The loader, and the number of batches fetched, after one caller asked
    /// for each of `keys` in turn and fetched a batch whenever told `Flush`.
    /// `fetch` says what the store brings for a batch.
    pub open spec fn drive(self, keys: Seq<i32>, fetch: spec_fn(Seq<i32>) -> Map<i32, V>) -> (
        Self,
        nat,
    )
        decreases keys.len(),
    {
        if keys.len() == 0 {
            (self, 0)
        } else {
            let (before, fetches) = self.drive(keys.drop_last(), fetch);
            let asked = before.request(keys.last());
            if before.step(keys.last()) == Step::Flush {
                (asked.take_batch().resolve(fetch(asked.batch())), fetches + 1)
            } else {
                (asked, fetches)
            }
        }
    }
}

/// Asking for several keys in turn changes nothing but the pending keys, and
/// those hold afterwards what they held before and each asked key that was
/// new to the loader, once.
pub proof fn lemma_request_all<V>(s: LoaderState<V>, keys: Seq<i32>)
    requires
        s.wf(),
    ensures
        s.request_all(keys).wf(),
        s.request_all(keys).resolved == s.resolved,
        s.request_all(keys).in_flight == s.in_flight,
        s.request_all(keys).threshold == s.threshold,
        forall|key: i32|
            #![trigger s.request_all(keys).pending.contains(key)]
            s.request_all(keys).pending.contains(key) <==> s.pending.contains(key) || (
            keys.contains(key) && !s.knows(key)),
    decreases keys.len(),
{
    if keys.len() > 0 {
        let front = keys.drop_last();
        let last = keys.last();
        let mid = s.request_all(front);
        lemma_request_all(s, front);
        lemma_request_keeps_wf(mid, last);
        let end = mid.request(last);
        assert forall|key: i32|
            #![trigger end.pending.contains(key)]
            end.pending.contains(key) <==> s.pending.contains(key) || (keys.contains(key)
                && !s.knows(key)) by {
            if end.pending.contains(key) {
                if mid.pending.contains(key) {
                    if front.contains(key) {
                        let i = choose|i: int| 0 <= i < front.len() && front[i] == key;
                        assert(keys[i] == key);
                    }
                } else {
                    let i = choose|i: int| 0 <= i < end.pending.len() && end.pending[i] == key;
                    assert(key == last);
                    assert(keys[keys.len() - 1] == key);
                }
            }
            if s.pending.contains(key) {
                assert(mid.pending.contains(key));
                let i = choose|i: int| 0 <= i < mid.pending.len() && mid.pending[i] == key;
                assert(end.pending[i] == key);
            }
            if keys.contains(key) && !s.knows(key) {
                let i = choose|i: int| 0 <= i < keys.len() && keys[i] == key;
                if i < front.len() {
                    assert(front[i] == key);
                    assert(mid.pending.contains(key));
                    let j = choose|j: int| 0 <= j < mid.pending.len() && mid.pending[j] == key;
                    assert(end.pending[j] == key);
                } else {
                    assert(key == last);
                    if mid.pending.contains(key) {
                        let j = choose|j: int|
                            0 <= j < mid.pending.len() && mid.pending[j] == key;
                        assert(end.pending[j] == key);
                    } else {
                        assert(!mid.knows(key));
                        assert(end.pending[end.pending.len() - 1] == key);
                    }
                }
            }
        }
    }
}

/// Whatever keys are asked for while no batch is in flight and none is
/// pending, the batch that is then taken holds each asked key that is not
/// resolved, once: one fetch serves them all. Once taken, the batch is not
/// handed out again, and asking for one of its keys changes nothing.
pub proof fn lemma_batch_is_deduplicated_union<V>(s: LoaderState<V>, keys: Seq<i32>)
    requires
        s.wf(),
        s.pending.len() == 0,
        s.in_flight.len() == 0,
    ensures
        s.request_all(keys).batch().no_duplicates(),
        s.request_all(keys).batch().to_set() == keys.to_set().difference(s.resolved.dom()),
        s.request_all(keys).take_batch().batch() == Seq::<i32>::empty(),
        forall|key: i32|
            s.request_all(keys).batch().contains(key) ==> #[trigger] s.request_all(
                keys,
            ).take_batch().request(key) == s.request_all(keys).take_batch(),
{
    lemma_request_all(s, keys);
    let asked = s.request_all(keys);
    assert(asked.batch() == asked.pending);
    assert forall|key: i32|
        asked.batch().to_set().contains(key) <==> keys.to_set().difference(
            s.resolved.dom(),
        ).contains(key) by {
        assert(asked.pending.contains(key) <==> s.pending.contains(key) || (keys.contains(key)
            && !s.knows(key)));
    }
    assert(asked.batch().to_set() =~= keys.to_set().difference(s.resolved.dom()));
    let taken = asked.take_batch();
    if asked.pending.len() > 0 {
        assert(taken.in_flight.len() > 0);
    }
    assert(taken.batch() =~= Seq::<i32>::empty());
}

/// A key that has been handed out for a fetch is in no later batch, and stays
/// handed out whatever is asked, taken or brought afterwards: one fetch at
/// most is made for it.
pub proof fn lemma_key_is_fetched_once<V>(s: LoaderState<V>, key: i32)
    requires
        s.wf(),
        s.fetched(key),
    ensures
        !s.batch().contains(key),
        forall|other: i32| #[trigger] s.request(other).fetched(key),
        s.take_batch().fetched(key),
        forall|fetched: Map<i32, V>| #[trigger] s.resolve(fetched).fetched(key),
{
}

/// A resolved key keeps its value: asking for it again changes nothing and
/// is answered `Ready`, and no later batch or outcome alters what is read.
pub proof fn lemma_resolved_value_is_kept<V>(s: LoaderState<V>, key: i32)
    requires
        s.wf(),
        s.resolved.contains_key(key),
    ensures
        s.request(key) == s,
        s.step(key) == Step::Ready,
        forall|other: i32| #[trigger] s.request(other).lookup(key) == s.lookup(key),
        s.take_batch().lookup(key) == s.lookup(key),
        forall|fetched: Map<i32, V>| #[trigger] s.resolve(fetched).lookup(key) == s.lookup(key),
{
}

/// A caller who asked for a key while its batch was in flight and one who
/// asks once the outcome is there read the same: the value that the fetch
/// brought for the key.
pub proof fn lemma_same_value_for_every_caller<V>(
    s: LoaderState<V>,
    fetched: Map<i32, V>,
    key: i32,
)
    requires
        s.wf(),
        s.in_flight.contains(key),
    ensures
        s.request(key) == s,
        s.step(key) == Step::Wait,
        s.resolve(fetched).lookup(key) == if fetched.contains_key(key) {
            Lookup::Found(fetched[key])
        } else {
            Lookup::Missing
        },
        s.resolve(fetched).step(key) == Step::Ready,
        s.resolve(fetched).request(key) == s.resolve(fetched),
{
    assert(s.in_flight.len() > 0);
}

/// A key of the batch that the fetch did not bring is resolved as missing:
/// an absent result, and the loader stays well-formed.
pub proof fn lemma_missing_key_is_absent<V>(s: LoaderState<V>, fetched: Map<i32, V>, key: i32)
    requires
        s.wf(),
        s.in_flight.contains(key),
        !fetched.contains_key(key),
    ensures
        s.resolve(fetched).lookup(key) == Lookup::<V>::Missing,
        s.resolve(fetched).wf(),
{
}

/// A key of the batch is resolved by what the fetch brought for it alone:
/// two outcomes that agree on the key resolve it alike, whatever they hold,
/// or lack, for the other keys of the batch.
pub proof fn lemma_resolution_is_per_key<V>(
    s: LoaderState<V>,
    one: Map<i32, V>,
    other: Map<i32, V>,
    key: i32,
)
    requires
        s.wf(),
        one.contains_key(key) <==> other.contains_key(key),
        one.contains_key(key) ==> one[key] == other[key],
    ensures
        s.resolve(one).lookup(key) == s.resolve(other).lookup(key),
{
}

/// Where the fetch brings an entry for every key of its batch, as the fetch
/// of a collection does, every key of the batch is resolved with its entry
/// and none as missing.
pub proof fn lemma_full_outcome_resolves_every_key<V>(
    s: LoaderState<V>,
    fetched: Map<i32, V>,
    key: i32,
)
    requires
        s.wf(),
        forall|other: i32| #[trigger] s.in_flight.contains(other) ==> fetched.contains_key(other),
        s.in_flight.contains(key),
    ensures
        s.resolve(fetched).lookup(key) == Lookup::Found(fetched[key]),
{
}

/// A failed fetch resolves every key of its batch as missing and no other.
pub proof fn lemma_failed_fetch_resolves_as_missing<V>(s: LoaderState<V>, key: i32)
    requires
        s.wf(),
    ensures
        s.in_flight.contains(key) ==> s.resolve(Map::empty()).lookup(key) == Lookup::<
            V,
        >::Missing,
        !s.in_flight.contains(key) ==> s.resolve(Map::empty()).lookup(key) == s.lookup(key),
{
}

/// A request that asks a fresh loader for `n` different keys, and fetches
/// whenever told to, has made one fetch for every full `threshold` of keys
/// when the last key is asked for; the keys beyond the last full batch are
/// pending, for one more fetch. So 150 keys at a threshold of 100 take two
/// fetches, of 100 and of 50 keys.
pub proof fn lemma_fetches_of_distinct_keys<V>(
    threshold: nat,
    keys: Seq<i32>,
    fetch: spec_fn(Seq<i32>) -> Map<i32, V>,
)
    requires
        threshold >= 1,
        keys.no_duplicates(),
    ensures
        ({
            let (end, fetches) = LoaderState::<V>::fresh(threshold).drive(keys, fetch);
            &&& end.wf()
            &&& end.threshold == threshold
            &&& fetches == keys.len() / threshold
            &&& end.pending.len() == keys.len() % threshold
            &&& end.in_flight.len() == 0
            &&& forall|key: i32| #[trigger] end.knows(key) <==> keys.contains(key)
            &&& end.batch().len() == keys.len() % threshold
        }),
    decreases keys.len(),
{
    let start = LoaderState::<V>::fresh(threshold);
    if keys.len() > 0 {
        let front = keys.drop_last();
        let last = keys.last();
        lemma_fetches_of_distinct_keys(threshold, front, fetch);
        let (before, fetches) = start.drive(front, fetch);
        let asked = before.request(last);
        let m = front.len();
        assert(!front.contains(last)) by {
            if front.contains(last) {
                let i = choose|i: int| 0 <= i < front.len() && front[i] == last;
                assert(keys[i] == keys[keys.len() - 1]);
            }
        }
        assert(!before.knows(last));
        lemma_request_keeps_wf(before, last);
        lemma_step_of_count(m, threshold);
        let (end, _) = start.drive(keys, fetch);
        assert forall|key: i32| #[trigger] end.knows(key) <==> keys.contains(key) by {
            if keys.contains(key) {
                let i = choose|i: int| 0 <= i < keys.len() && keys[i] == key;
                if i < front.len() {
                    assert(front[i] == key);
                    assert(before.knows(key));
                }
            }
            if before.knows(key) {
                assert(front.contains(key));
                let i = choose|i: int| 0 <= i < front.len() && front[i] == key;
                assert(keys[i] == key);
            }
            if key == last {
                assert(keys[keys.len() - 1] == key);
                assert(asked.pending.last() == key);
            }
            if before.pending.contains(key) {
                let i = choose|i: int| 0 <= i < before.pending.len() && before.pending[i] == key;
                assert(asked.pending[i] == key);
            }
            if asked.pending.contains(key) && key != last {
                let i = choose|i: int| 0 <= i < asked.pending.len() && asked.pending[i] == key;
                assert(before.pending[i] == key);
            }
        }
    }
}

/// How quotient and remainder move when one is added.
proof fn lemma_step_of_count(m: nat, d: nat)
    requires
        d >= 1,
    ensures
        m % d + 1 < d ==> (m + 1) / d == m / d && (m + 1) % d == m % d + 1,
        m % d + 1 >= d ==> (m + 1) / d == m / d + 1 && (m + 1) % d == 0,
{
    vstd::arithmetic::div_mod::lemma_fundamental_div_mod(m as int, d as int);
    vstd::arithmetic::div_mod::lemma_mod_bound(m as int, d as int);
    if m % d + 1 < d {
        assert(m as int + 1 == (m as int / d as int) * d + (m as int % d as int + 1))
            by (nonlinear_arith)
            requires
                m as int == d * (m as int / d as int) + m as int % d as int,
        ;
        vstd::arithmetic::div_mod::lemma_fundamental_div_mod_converse(
            m as int + 1,
            d as int,
            m as int / d as int,
            m as int % d as int + 1,
        );
    } else {
        assert(m as int + 1 == (m as int / d as int + 1) * d + 0) by (nonlinear_arith)
            requires
                m as int == d * (m as int / d as int) + m as int % d as int,
                m as int % d as int + 1 == d,
        ;
        vstd::arithmetic::div_mod::lemma_fundamental_div_mod_converse(
            m as int + 1,
            d as int,
            m as int / d as int + 1,
            0,
        );
    }
}

} // verus!
