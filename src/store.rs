use vstd::prelude::*;

verus! {

/// The value a store map holds for `key`; a key that was never set reads as zero.
pub open spec fn value_in(m: Map<Seq<char>, u64>, key: Seq<char>) -> u64 {
    if m.contains_key(key) {
        m[key]
    } else {
        0
    }
}

/// What one increment of `key` returns: the next value, or `None` when the
/// counter already holds `u64::MAX`.
pub open spec fn increment_result(m: Map<Seq<char>, u64>, key: Seq<char>) -> Option<u64> {
    if value_in(m, key) < u64::MAX {
        Some((value_in(m, key) + 1) as u64)
    } else {
        None
    }
}

/// The store map after one increment of `key`.
pub open spec fn incremented(m: Map<Seq<char>, u64>, key: Seq<char>) -> Map<Seq<char>, u64> {
    match increment_result(m, key) {
        Some(v) => m.insert(key, v),
        None => m,
    }
}

/// The store map after `n` increments of `key` in a row.
pub open spec fn increments(m: Map<Seq<char>, u64>, key: Seq<char>, n: nat) -> Map<Seq<char>, u64>
    decreases n,
{
    if n == 0 {
        m
    } else {
        incremented(increments(m, key, (n - 1) as nat), key)
    }
}

/// What those `n` increments return, in the order they were made.
pub open spec fn increment_results(m: Map<Seq<char>, u64>, key: Seq<char>, n: nat) -> Seq<Option<u64>>
    decreases n,
{
    if n == 0 {
        Seq::empty()
    } else {
        increment_results(m, key, (n - 1) as nat).push(
            increment_result(increments(m, key, (n - 1) as nat), key),
        )
    }
}

/// Starting from a counter that reads zero, `n` increments leave it at `n`,
/// and they return 1, 2, ..., n in turn: no two increments see the same value
/// and none is lost.
pub proof fn lemma_increments_from_zero(m: Map<Seq<char>, u64>, key: Seq<char>, n: nat)
    requires
        value_in(m, key) == 0,
        n <= u64::MAX,
    ensures
        value_in(increments(m, key, n), key) == n,
        increment_results(m, key, n) == Seq::new(n, |i: int| Some((i + 1) as u64)),
        increment_results(m, key, n).no_duplicates(),
    decreases n,
{
    if n > 0 {
        lemma_increments_from_zero(m, key, (n - 1) as nat);
        assert(increment_results(m, key, n) =~= Seq::new(n, |i: int| Some((i + 1) as u64)));
    }
    let r = increment_results(m, key, n);
    assert forall|i: int, j: int| 0 <= i < r.len() && 0 <= j < r.len() && i != j implies r[i]
        != r[j] by {
        assert(r[i] == Some((i + 1) as u64));
        assert(r[j] == Some((j + 1) as u64));
    }
}

/// A key that was never set reads as zero, and its first increment returns one.
pub proof fn lemma_absent_key_reads_zero(m: Map<Seq<char>, u64>, key: Seq<char>)
    requires
        !m.contains_key(key),
    ensures
        value_in(m, key) == 0,
        increment_result(m, key) == Some(1u64),
        value_in(incremented(m, key), key) == 1,
{
}

/// A keyed store of unsigned counters. Every write goes through `increment`,
/// which reads, adds one and writes back as a single step on `&mut self`, so
/// two increments can never observe the same previous value.
pub struct CounterStore {
    entries: Vec<(String, u64)>,
    contents: Ghost<Map<Seq<char>, u64>>,
}

impl View for CounterStore {
    type V = Map<Seq<char>, u64>;

    closed spec fn view(&self) -> Map<Seq<char>, u64> {
        self.contents@
    }
}

impl CounterStore {
    /// Each key is stored once, and the entries hold exactly the view.
    pub closed spec fn wf(&self) -> bool {
        &&& forall|i: int, j: int|
            0 <= i < j < self.entries@.len() ==> self.entries@[i].0@ != self.entries@[j].0@
        &&& forall|i: int|
            0 <= i < self.entries@.len() ==> {
                &&& self.contents@.contains_key(#[trigger] self.entries@[i].0@)
                &&& self.contents@[self.entries@[i].0@] == self.entries@[i].1
            }
        &&& forall|k: Seq<char>|
            self.contents@.contains_key(k) ==> exists|i: int|
                0 <= i < self.entries@.len() && #[trigger] self.entries@[i].0@ == k
    }

    /// An empty store: every counter reads as zero.
    pub fn new() -> (r: CounterStore)
        ensures
            r.wf(),
            r@ == Map::<Seq<char>, u64>::empty(),
    {
        CounterStore { entries: Vec::new(), contents: Ghost(Map::empty()) }
    }

    fn find(&self, key: &String) -> (r: Option<usize>)
        requires
            self.wf(),
        ensures
            match r {
                Some(i) => i < self.entries@.len() && self.entries@[i as int].0@ == key@,
                None => !self@.contains_key(key@),
            },
    {
        let mut i: usize = 0;
        while i < self.entries.len()
            invariant
                self.wf(),
                i <= self.entries@.len(),
                forall|j: int| 0 <= j < i ==> self.entries@[j].0@ != key@,
            decreases self.entries@.len() - i,
        {
            if self.entries[i].0 == *key {
                return Some(i);
            }
            i += 1;
        }
        None
    }

    /// The current value of `key`, zero when it was never set.
    pub fn get(&self, key: &str) -> (r: u64)
        requires
            self.wf(),
        ensures
            r == value_in(self@, key@),
    {
        let k = key.to_owned();
        match self.find(&k) {
            Some(i) => self.entries[i].1,
            None => 0,
        }
    }

    /// Stores `value` under `key`, as when a store is restored from
    /// persisted data.
    pub fn set(&mut self, key: &str, value: u64)
        requires
            old(self).wf(),
        ensures
            final(self).wf(),
            final(self)@ == old(self)@.insert(key@, value),
    {
        let k = key.to_owned();
        match self.find(&k) {
            Some(i) => {
                self.entries.set(i, (k, value));
                self.contents = Ghost(self.contents@.insert(key@, value));
                assert(forall|j: int|
                    0 <= j < self.entries@.len() && j != i ==> self.entries@[j] == old(self).entries@[j]);
                assert forall|kk: Seq<char>| self.contents@.contains_key(kk) implies exists|j: int|
                    0 <= j < self.entries@.len() && #[trigger] self.entries@[j].0@ == kk by {
                    if kk == key@ {
                        assert(self.entries@[i as int].0@ == kk);
                    } else {
                        let j = choose|j: int|
                            0 <= j < old(self).entries@.len() && #[trigger] old(self).entries@[j].0@ == kk;
                        assert(self.entries@[j].0@ == kk);
                    }
                }
            },
            None => {
                self.entries.push((k, value));
                self.contents = Ghost(self.contents@.insert(key@, value));
                let n = self.entries.len() - 1;
                assert(forall|j: int| 0 <= j < n ==> self.entries@[j] == old(self).entries@[j]);
                assert forall|kk: Seq<char>| self.contents@.contains_key(kk) implies exists|j: int|
                    0 <= j < self.entries@.len() && #[trigger] self.entries@[j].0@ == kk by {
                    if kk == key@ {
                        assert(self.entries@[n as int].0@ == kk);
                    } else {
                        let j = choose|j: int|
                            0 <= j < old(self).entries@.len() && #[trigger] old(self).entries@[j].0@ == kk;
                        assert(self.entries@[j].0@ == kk);
                    }
                }
            },
        }
    }

    /// Adds one to `key` and returns the new value. A counter at `u64::MAX`
    /// is left as it is and `None` comes back.
    pub fn increment(&mut self, key: &str) -> (r: Option<u64>)
        requires
            old(self).wf(),
        ensures
            final(self).wf(),
            r == increment_result(old(self)@, key@),
            final(self)@ == incremented(old(self)@, key@),
    {
        let current = self.get(key);
        if current == u64::MAX {
            return None;
        }
        let next = current + 1;
        self.set(key, next);
        Some(next)
    }
}

} // verus!
