//! The request-scoped loader: it collects the keys that callers ask for,
//! hands them out in batches without repeats, and caches what came back.
//!
//! The loader never runs a query. It says when one is due and with which keys;
//! whoever owns the connection runs it and hands the outcome back.

use crate::db::loaders::BackendFailure;
use std::collections::HashMap;
use vstd::prelude::*;

verus! {

/// What a caller who asked for a key is told.
#[derive(Debug, Clone, Copy, PartialEq, Eq, Structural)]
pub enum Step {
    /// The key is resolved: its value can be read.
    Ready,
    /// The key waits in a batch that is not due yet, or that is being fetched.
    Wait,
    /// The pending batch has reached the threshold: it is to be fetched now.
    Flush,
}

/// What the loader knows of a key.
#[derive(Debug, PartialEq, Eq)]
pub enum Lookup<T> {
    /// No fetch for this key has come back yet.
    Unresolved,
    /// The fetch came back without this key, or failed.
    Missing,
    /// The fetch came back with this value.
    Found(T),
}

/// A loader as a mathematical value.
#[verifier::ext_equal]
pub struct LoaderState<V> {
    /// The keys whose fetch has come back, each with what it brought.
    pub resolved: Map<i32, Option<V>>,
    /// The keys asked for since the last batch was taken, first asked first.
    pub pending: Seq<i32>,
    /// The keys of the batch that is being fetched.
    pub in_flight: Seq<i32>,
    /// The number of pending keys at which a batch is due.
    pub threshold: nat,
}

/// The mapping a fetch gave: an empty one where it failed.
pub open spec fn mapping_of<V>(outcome: Result<HashMap<i32, V>, BackendFailure>) -> Map<i32, V> {
    match outcome {
        Ok(fetched) => fetched@,
        Err(_) => Map::empty(),
    }
}

impl<V> LoaderState<V> {
    /// A loader that has seen no key.
    pub open spec fn fresh(threshold: nat) -> Self {
        LoaderState {
            resolved: Map::empty(),
            pending: Seq::empty(),
            in_flight: Seq::empty(),
            threshold,
        }
    }

    /// No key waits twice, and no key waits that is in flight or resolved.
    pub open spec fn wf(self) -> bool {
        &&& self.pending.no_duplicates()
        &&& self.in_flight.no_duplicates()
        &&& forall|key: i32| #[trigger]
            self.pending.contains(key) ==> !self.in_flight.contains(key)
                && !self.resolved.contains_key(key)
        &&& forall|key: i32| #[trigger]
            self.in_flight.contains(key) ==> !self.resolved.contains_key(key)
    }

    /// The key is resolved, in flight or pending.
    pub open spec fn knows(self, key: i32) -> bool {
        self.resolved.contains_key(key) || self.in_flight.contains(key) || self.pending.contains(
            key,
        )
    }

    /// The loader after a caller asked for `key`.
    pub open spec fn request(self, key: i32) -> Self {
        if self.knows(key) {
            self
        } else {
            LoaderState { pending: self.pending.push(key), ..self }
        }
    }

    /// What the caller who asked for `key` is told.
    pub open spec fn step(self, key: i32) -> Step {
        if self.resolved.contains_key(key) {
            Step::Ready
        } else if self.in_flight.len() == 0 && self.request(key).pending.len() >= self.threshold {
            Step::Flush
        } else {
            Step::Wait
        }
    }

    /// The keys that are handed out when a batch is taken: none while an
    /// earlier batch is in flight.
    pub open spec fn batch(self) -> Seq<i32> {
        if self.in_flight.len() > 0 {
            Seq::empty()
        } else {
            self.pending
        }
    }

    /// The loader after a batch was taken.
    pub open spec fn take_batch(self) -> Self {
        if self.in_flight.len() > 0 {
            self
        } else {
            LoaderState { pending: Seq::empty(), in_flight: self.pending, ..self }
        }
    }

    /// The loader after the fetch of the batch in flight came back with
    /// `fetched`. A key of the batch that `fetched` lacks is resolved as
    /// missing; a key of `fetched` that was not in the batch is ignored.
    pub open spec fn resolve(self, fetched: Map<i32, V>) -> Self {
        LoaderState {
            resolved: Map::new(
                |key: i32| self.resolved.contains_key(key) || self.in_flight.contains(key),
                |key: i32|
                    if self.resolved.contains_key(key) {
                        self.resolved[key]
                    } else if fetched.contains_key(key) {
                        Some(fetched[key])
                    } else {
                        None
                    },
            ),
            in_flight: Seq::empty(),
            ..self
        }
    }

    /// `after` is what resolving `key` at once, with `fetch` to call, makes
    /// of this loader. A resolved key changes nothing. While a batch is in
    /// flight the key is asked for and nothing more. Otherwise the key is asked
    /// for, the pending keys are taken as a batch, and what `fetch` gave for
    /// that batch resolves it.
    pub open spec fn loads<F: FnOnce(Vec<i32>) -> Result<HashMap<i32, V>, BackendFailure>>(
        self,
        key: i32,
        fetch: F,
        after: Self,
    ) -> bool {
        if self.resolved.contains_key(key) {
            after == self
        } else if self.in_flight.len() > 0 {
            after == self.request(key)
        } else {
            exists|batch: Vec<i32>, outcome: Result<HashMap<i32, V>, BackendFailure>|
                batch@ == self.request(key).batch() && call_ensures(fetch, (batch,), outcome)
                    && after == self.request(key).take_batch().resolve(mapping_of(outcome))
        }
    }

    /// What the loader knows of `key`.
    pub open spec fn lookup(self, key: i32) -> Lookup<V> {
        if !self.resolved.contains_key(key) {
            Lookup::Unresolved
        } else {
            match self.resolved[key] {
                Some(value) => Lookup::Found(value),
                None => Lookup::Missing,
            }
        }
    }
}

/// Asking for a key leaves a well-formed loader well-formed.
pub proof fn lemma_request_keeps_wf<V>(s: LoaderState<V>, key: i32)
    requires
        s.wf(),
    ensures
        s.request(key).wf(),
{
    if !s.knows(key) {
        let after = s.pending.push(key);
        assert forall|i: int, j: int|
            0 <= i < after.len() && 0 <= j < after.len() && i != j implies after[i]
            != after[j] by {
            if i < s.pending.len() {
                assert(s.pending.contains(after[i]));
            }
            if j < s.pending.len() {
                assert(s.pending.contains(after[j]));
            }
        }
        assert forall|other: i32| #[trigger] after.contains(other) implies !s.in_flight.contains(
            other,
        ) && !s.resolved.contains_key(other) by {
            let i = choose|i: int| 0 <= i < after.len() && after[i] == other;
            if i < s.pending.len() {
                assert(s.pending.contains(other));
            }
        }
    }
}

/// Taking a batch leaves a well-formed loader well-formed.
pub proof fn lemma_take_batch_keeps_wf<V>(s: LoaderState<V>)
    requires
        s.wf(),
    ensures
        s.take_batch().wf(),
{
}

/// Bringing the outcome of a fetch leaves a well-formed loader well-formed.
pub proof fn lemma_resolve_keeps_wf<V>(s: LoaderState<V>, fetched: Map<i32, V>)
    requires
        s.wf(),
    ensures
        s.resolve(fetched).wf(),
{
}

/// Whether `key` stands in `keys`.
fn has_key(keys: &Vec<i32>, key: i32) -> (found: bool)
    ensures
        found == keys@.contains(key),
{
    let mut i: usize = 0;
    while i < keys.len()
        invariant
            i <= keys@.len(),
            forall|j: int| 0 <= j < i ==> keys@[j] != key,
        decreases keys@.len() - i,
    {
        if keys[i] == key {
            return true;
        }
        i += 1;
    }
    false
}

/// A cache and batching coordinator for the lookups of one request, keyed by
/// post identifier.
pub struct BatchLoader<V> {
    resolved: HashMap<i32, Option<V>>,
    pending: Vec<i32>,
    in_flight: Vec<i32>,
    threshold: usize,
}

impl<V> View for BatchLoader<V> {
    type V = LoaderState<V>;

    closed spec fn view(&self) -> LoaderState<V> {
        LoaderState {
            resolved: self.resolved@,
            pending: self.pending@,
            in_flight: self.in_flight@,
            threshold: self.threshold as nat,
        }
    }
}

impl<V> BatchLoader<V> {
    /// A loader that has seen no key. A batch is due when `threshold` keys
    /// are pending; with a threshold of 0 or 1 every new key makes one due.
    pub fn new(threshold: usize) -> (loader: Self)
        ensures
            loader@ == LoaderState::<V>::fresh(threshold as nat),
            loader@.wf(),
    {
        BatchLoader {
            resolved: HashMap::new(),
            pending: Vec::new(),
            in_flight: Vec::new(),
            threshold,
        }
    }

    /// The number of pending keys at which a batch is due.
    pub fn threshold(&self) -> (threshold: usize)
        ensures
            threshold == self@.threshold,
    {
        self.threshold
    }

    /// The number of keys that wait for the next batch.
    pub fn pending_len(&self) -> (len: usize)
        ensures
            len == self@.pending.len(),
    {
        self.pending.len()
    }

    /// Whether a batch has been taken and its outcome is still owed.
    pub fn is_fetching(&self) -> (fetching: bool)
        ensures
            fetching == (self@.in_flight.len() > 0),
    {
        self.in_flight.len() > 0
    }

    /// Registers that a caller wants `key`. A key that is resolved, in flight
    /// or already pending changes nothing; a new key joins the pending batch.
    /// The answer is `Ready` for a resolved key, `Flush` where no batch is in
    /// flight and the pending keys have reached the threshold, else `Wait`.
    pub fn request(&mut self, key: i32) -> (step: Step)
        requires
            old(self)@.wf(),
        ensures
            final(self)@ == old(self)@.request(key),
            step == old(self)@.step(key),
            final(self)@.knows(key),
            final(self)@.wf(),
    {
        if self.resolved.contains_key(&key) {
            return Step::Ready;
        }
        if !has_key(&self.in_flight, key) && !has_key(&self.pending, key) {
            self.pending.push(key);
        }
        proof {
            lemma_request_keeps_wf(old(self)@, key);
            if !old(self)@.knows(key) {
                assert(self@.pending.last() == key);
            }
        }
        if self.in_flight.len() == 0 && self.pending.len() >= self.threshold {
            Step::Flush
        } else {
            Step::Wait
        }
    }

    /// Takes the pending keys as the next batch to fetch. They are in flight
    /// until `resolve` brings the outcome. While a batch is in flight none is
    /// handed out: the result is then empty, as it is where no key is pending.
    pub fn take_batch(&mut self) -> (batch: Vec<i32>)
        requires
            old(self)@.wf(),
        ensures
            batch@ == old(self)@.batch(),
            final(self)@ == old(self)@.take_batch(),
            final(self)@.wf(),
    {
        let mut batch: Vec<i32> = Vec::new();
        if self.in_flight.len() > 0 {
            return batch;
        }
        let mut i: usize = 0;
        while i < self.pending.len()
            invariant
                i <= self.pending@.len(),
                self.pending@ == old(self)@.pending,
                self.resolved == old(self).resolved,
                self.threshold == old(self).threshold,
                batch@ == self.pending@.take(i as int),
                self.in_flight@ == self.pending@.take(i as int),
            decreases self.pending@.len() - i,
        {
            let key = self.pending[i];
            batch.push(key);
            self.in_flight.push(key);
            proof {
                assert(self.pending@.take(i + 1) =~= self.pending@.take(i as int).push(key));
            }
            i += 1;
        }
        proof {
            assert(self.pending@.take(self.pending@.len() as int) =~= self.pending@);
        }
        self.pending = Vec::new();
        batch
    }

    /// Brings the outcome of the fetch of the batch in flight. Each key of the
    /// batch is resolved: with its value where the fetch brought one, else as
    /// missing. A failed fetch resolves every key of the batch as missing.
    /// What was resolved before stays as it was.
    pub fn resolve(&mut self, outcome: Result<HashMap<i32, V>, BackendFailure>)
        requires
            old(self)@.wf(),
        ensures
            final(self)@ == old(self)@.resolve(mapping_of(outcome)),
            final(self)@.wf(),
    {
        let ghost fetched = mapping_of(outcome);
        let ghost start = self@;
        let mut found: HashMap<i32, V> = match outcome {
            Ok(fetched) => fetched,
            Err(_) => HashMap::new(),
        };
        let mut i: usize = 0;
        while i < self.in_flight.len()
            invariant
                i <= self.in_flight@.len(),
                start.wf(),
                start == old(self)@,
                self.in_flight@ == start.in_flight,
                self.pending@ == start.pending,
                self.threshold == start.threshold,
                forall|key: i32|
                    self.resolved@.contains_key(key) <==> start.resolved.contains_key(key) || (
                    exists|j: int| 0 <= j < i && #[trigger] start.in_flight[j] == key),
                forall|key: i32| #[trigger]
                    self.resolved@.contains_key(key) ==> self.resolved@[key] == start.resolve(
                        fetched,
                    ).resolved[key],
                forall|j: int|
                    i <= j < start.in_flight.len() ==> (found@.contains_key(
                        #[trigger] start.in_flight[j],
                    ) <==> fetched.contains_key(start.in_flight[j])),
                forall|key: i32| #[trigger]
                    found@.contains_key(key) ==> fetched.contains_key(key) && found@[key]
                        == fetched[key],
            decreases self.in_flight@.len() - i,
        {
            let key = self.in_flight[i];
            proof {
                assert(start.in_flight.contains(key));
                assert forall|j: int| i < j < start.in_flight.len() implies start.in_flight[j]
                    != key by {}
            }
            let ghost before = self.resolved@;
            let value = found.remove(&key);
            self.resolved.insert(key, value);
            proof {
                assert forall|other: i32| self.resolved@.contains_key(other) implies (
                start.resolved.contains_key(other) || exists|j: int|
                    0 <= j < i + 1 && #[trigger] start.in_flight[j] == other) by {
                    if other == key {
                        assert(start.in_flight[i as int] == other);
                    } else if !start.resolved.contains_key(other) {
                        assert(before.contains_key(other));
                        let j = choose|j: int| 0 <= j < i && #[trigger] start.in_flight[j] == other;
                        assert(0 <= j < i + 1 && start.in_flight[j] == other);
                    }
                }
                assert forall|other: i32|
                    (start.resolved.contains_key(other) || exists|j: int|
                        0 <= j < i + 1 && #[trigger] start.in_flight[j]
                            == other) implies self.resolved@.contains_key(other) by {
                    if other != key && !start.resolved.contains_key(other) {
                        let j = choose|j: int|
                            0 <= j < i + 1 && #[trigger] start.in_flight[j] == other;
                        assert(0 <= j < i && start.in_flight[j] == other);
                        assert(before.contains_key(other));
                    } else if other != key {
                        assert(before.contains_key(other));
                    }
                }
            }
            i += 1;
        }
        self.in_flight = Vec::new();
        proof {
            assert(self@.resolved =~= start.resolve(fetched).resolved);
        }
    }

    /// Resolves `key` now and gives what the loader then knows of it. A
    /// resolved key is read from the cache and `fetch` is not called.
    /// Otherwise the key joins the pending keys, and unless a batch is in
    /// flight, all of them are taken as one batch, `fetch` is called on it,
    /// once, and its outcome resolves every key of the batch. While a batch is
    /// in flight the key is left pending, unresolved, and `fetch` is not
    /// called.
    pub fn load<F>(&mut self, key: i32, fetch: F) -> (found: Lookup<&V>)
        where F: FnOnce(Vec<i32>) -> Result<HashMap<i32, V>, BackendFailure>
        requires
            old(self)@.wf(),
            forall|batch: Vec<i32>|
                batch@ == old(self)@.request(key).batch() ==> call_requires(fetch, (batch,)),
        ensures
            old(self)@.loads(key, fetch, final(self)@),
            old(self)@.in_flight.len() == 0 ==> final(self)@.resolved.contains_key(key),
            match found {
                Lookup::Found(value) => final(self)@.lookup(key) == Lookup::Found(*value),
                Lookup::Missing => final(self)@.lookup(key) == Lookup::<V>::Missing,
                Lookup::Unresolved => final(self)@.lookup(key) == Lookup::<V>::Unresolved,
            },
            final(self)@.wf(),
    {
        if self.resolved.contains_key(&key) {
            return self.get(key);
        }
        let _ = self.request(key);
        if self.in_flight.len() > 0 {
            return Lookup::Unresolved;
        }
        let batch = self.take_batch();
        let ghost asked = batch;
        let outcome = fetch(batch);
        let ghost brought = outcome;
        self.resolve(outcome);
        proof {
            let before = old(self)@;
            if before.knows(key) {
                assert(before.pending.contains(key));
            } else {
                assert(before.request(key).pending.last() == key);
            }
            assert(before.request(key).take_batch().in_flight.contains(key));
            assert(call_ensures(fetch, (asked,), brought));
        }
        self.get(key)
    }

    /// What the loader knows of `key`.
    pub fn get(&self, key: i32) -> (found: Lookup<&V>)
        ensures
            match found {
                Lookup::Found(value) => self@.lookup(key) == Lookup::Found(*value),
                Lookup::Missing => self@.lookup(key) == Lookup::<V>::Missing,
                Lookup::Unresolved => self@.lookup(key) == Lookup::<V>::Unresolved,
            },
    {
        match self.resolved.get(&key) {
            None => Lookup::Unresolved,
            Some(None) => Lookup::Missing,
            Some(Some(value)) => Lookup::Found(value),
        }
    }
}

} // verus!
