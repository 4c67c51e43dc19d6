//! A bounded memoization cache with least-recently-used eviction.
//!
//! The cache is a fixed-capacity key-to-value store. Its model is a sequence of
//! key/value pairs ordered by recency, most recent first, with no key repeated.
//! A hit refreshes the entry's recency; an insert at capacity evicts the entry
//! at the back, the least recently used one. Eviction, explicit delete and
//! clear are the only ways a present entry becomes absent.
//!
//! Keys are compared through the mathematical value that `KeyEq` assigns them,
//! so that logically equal keys — a composite query key built twice, say —
//! address the same entry.

use vstd::prelude::*;

use crate::problem::Problem;
use crate::response::CachedResponse;

verus! {

/// A key type with a mathematical model and an executable equality test that
/// agrees with equality of models.
pub trait KeyEq: Sized {
    /// The mathematical value that distinguishes keys.
    type Model;

    spec fn model(&self) -> Self::Model;

    fn key_eq(&self, other: &Self) -> (r: bool)
        ensures
            r == (self.model() == other.model());
}

impl KeyEq for i32 {
    type Model = i32;

    open spec fn model(&self) -> i32 {
        *self
    }

    fn key_eq(&self, other: &Self) -> (r: bool)
        ensures
            r == (self.model() == other.model()),
    {
        *self == *other
    }
}

impl KeyEq for u128 {
    type Model = u128;

    open spec fn model(&self) -> u128 {
        *self
    }

    fn key_eq(&self, other: &Self) -> (r: bool)
        ensures
            r == (self.model() == other.model()),
    {
        *self == *other
    }
}

/// Whether some entry of `s` has key `k`.
pub open spec fn seq_has_key<K: KeyEq, V>(s: Seq<(K, V)>, k: K) -> bool {
    exists|i: int| 0 <= i < s.len() && (#[trigger] s[i]).0.model() == k.model()
}

/// The position of the entry with key `k`; meaningful only when `seq_has_key`.
pub open spec fn seq_index_of<K: KeyEq, V>(s: Seq<(K, V)>, k: K) -> int {
    choose|i: int| 0 <= i < s.len() && (#[trigger] s[i]).0.model() == k.model()
}

/// The value stored under key `k`; meaningful only when `seq_has_key`.
pub open spec fn seq_value_of<K: KeyEq, V>(s: Seq<(K, V)>, k: K) -> V {
    s[seq_index_of(s, k)].1
}

/// No two entries of `s` share a key.
pub open spec fn distinct_keys<K: KeyEq, V>(s: Seq<(K, V)>) -> bool {
    forall|i: int, j: int|
        #![trigger s[i], s[j]]
        0 <= i < j < s.len() ==> s[i].0.model() != s[j].0.model()
}

/// Recency refresh on a hit: the entry with key `k` moves to the front.
pub open spec fn spec_promote<K: KeyEq, V>(s: Seq<(K, V)>, k: K) -> Seq<(K, V)> {
    let i = seq_index_of(s, k);
    seq![s[i]] + s.remove(i)
}

/// Explicit removal: the entry with key `k` leaves; everything else stays.
pub open spec fn spec_delete<K: KeyEq, V>(s: Seq<(K, V)>, k: K) -> Seq<(K, V)> {
    if seq_has_key(s, k) {
        s.remove(seq_index_of(s, k))
    } else {
        s
    }
}

/// Insertion at the front of the recency order. An existing entry with the
/// same key is replaced; a fresh key at capacity evicts the least recently
/// used entry, the last one. A capacity of zero stores nothing.
pub open spec fn spec_insert<K: KeyEq, V>(s: Seq<(K, V)>, k: K, v: V, cap: nat) -> Seq<(K, V)> {
    if cap == 0 {
        s
    } else if seq_has_key(s, k) {
        seq![(k, v)] + s.remove(seq_index_of(s, k))
    } else if s.len() >= cap {
        seq![(k, v)] + s.drop_last()
    } else {
        seq![(k, v)] + s
    }
}

/// A named, fixed-capacity cache with least-recently-used eviction.
///
/// `log_keys` records whether diagnostics may echo keys; it is false for
/// caches keyed by sensitive values such as credentials. The flag has no
/// effect on the cache's behaviour.
pub struct Cache<K, V> {
    name: String,
    entries: Vec<(K, V)>,
    capacity: usize,
    log_keys: bool,
}

impl<K, V> View for Cache<K, V> {
    type V = Seq<(K, V)>;

    closed spec fn view(&self) -> Seq<(K, V)> {
        self.entries@
    }
}

impl<K, V> Cache<K, V> {
    /// The diagnostic name, the capacity, and the key-logging flag.
    pub closed spec fn config(&self) -> (Seq<char>, usize, bool) {
        (self.name@, self.capacity, self.log_keys)
    }

    pub open spec fn spec_name(&self) -> Seq<char> {
        self.config().0
    }

    pub open spec fn spec_capacity(&self) -> usize {
        self.config().1
    }

    pub open spec fn spec_log_keys(&self) -> bool {
        self.config().2
    }

    pub fn name(&self) -> (r: &String)
        ensures
            r@ == self.spec_name(),
    {
        &self.name
    }

    pub fn capacity(&self) -> (r: usize)
        ensures
            r == self.spec_capacity(),
    {
        self.capacity
    }

    pub fn logs_keys(&self) -> (r: bool)
        ensures
            r == self.spec_log_keys(),
    {
        self.log_keys
    }

    pub fn len(&self) -> (r: usize)
        ensures
            r == self@.len(),
    {
        self.entries.len()
    }

    /// The diagnostic line for an operation on this cache: the cache's name,
    /// the rendered key — only when this cache may echo keys — and the
    /// message. Emitting the line is the caller's side effect; it has no
    /// bearing on the cache's behaviour.
    pub fn log_with_key(&self, key_repr: &str, message: &str) -> (r: String)
        ensures
            self.spec_log_keys() ==> r@ == "cache="@ + self.spec_name() + " key="@ + key_repr@
                + " "@ + message@,
            !self.spec_log_keys() ==> r@ == "cache="@ + self.spec_name() + " "@ + message@,
    {
        let mut line = String::new();
        line.append("cache=");
        line.append(self.name.as_str());
        if self.log_keys {
            line.append(" key=");
            line.append(key_repr);
        }
        line.append(" ");
        line.append(message);
        proof {
            if self.spec_log_keys() {
                assert(line@ =~= "cache="@ + self.spec_name() + " key="@ + key_repr@ + " "@
                    + message@);
            } else {
                assert(line@ =~= "cache="@ + self.spec_name() + " "@ + message@);
            }
        }
        line
    }
}

impl<K: KeyEq, V> Cache<K, V> {
    /// Internal invariant: keys are unique and the bound is respected.
    pub open spec fn wf(&self) -> bool {
        distinct_keys(self@) && self@.len() <= self.spec_capacity() && self.spec_capacity() >= 1
    }

    pub fn new(name: &str, capacity: usize) -> (c: Self)
        requires
            capacity >= 1,
        ensures
            c.wf(),
            c@ == Seq::<(K, V)>::empty(),
            c.spec_name() == name@,
            c.spec_capacity() == capacity,
            c.spec_log_keys() == true,
    {
        Cache { name: name.to_owned(), entries: Vec::new(), capacity, log_keys: true }
    }

    /// Builder step choosing whether diagnostics may echo keys.
    pub fn log_keys(self, value: bool) -> (c: Self)
        ensures
            c@ == self@,
            c.spec_name() == self.spec_name(),
            c.spec_capacity() == self.spec_capacity(),
            c.spec_log_keys() == value,
    {
        Cache { log_keys: value, ..self }
    }

    /// The position of the entry with key `key`, if one is present.
    fn find_index(&self, key: &K) -> (r: Option<usize>)
        requires
            self.wf(),
        ensures
            match r {
                Some(i) => i < self@.len() && self@[i as int].0.model() == key.model() && i
                    == seq_index_of(self@, *key),
                None => !seq_has_key(self@, *key),
            },
    {
        let mut i: usize = 0;
        let n = self.entries.len();
        while i < n
            invariant
                self.wf(),
                n == self@.len(),
                0 <= i <= n,
                forall|j: int| 0 <= j < i ==> (#[trigger] self@[j]).0.model() != key.model(),
            decreases n - i,
        {
            if self.entries[i].0.key_eq(key) {
                proof {
                    assert(seq_has_key(self@, *key));
                    let w = seq_index_of(self@, *key);
                    assert(self@[w].0.model() == key.model());
                    assert(w == i as int);
                }
                return Some(i);
            }
            i = i + 1;
        }
        proof {
            assert(!seq_has_key(self@, *key));
        }
        None
    }

    /// Hit path: if `key` is present, refresh its recency and hand back the
    /// stored value; otherwise change nothing.
    pub fn lookup(&mut self, key: &K) -> (r: Option<&V>)
        requires
            old(self).wf(),
        ensures
            final(self).wf(),
            final(self).config() == old(self).config(),
            match r {
                Some(v) => seq_has_key(old(self)@, *key) && *v == seq_value_of(old(self)@, *key)
                    && final(self)@ == spec_promote(old(self)@, *key),
                None => !seq_has_key(old(self)@, *key) && final(self)@ == old(self)@,
            },
    {
        match self.find_index(key) {
            Some(i) => {
                let ghost s0 = self@;
                let entry = self.entries.remove(i);
                self.entries.insert(0, entry);
                proof {
                    assert(self@ =~= spec_promote(s0, *key));
                    lemma_promote_distinct(s0, *key);
                }
                let front = &self.entries[0];
                Some(&front.1)
            },
            None => None,
        }
    }

    /// Store `value` under `key` at the front of the recency order, replacing
    /// any entry with the same key, and evicting the least recently used entry
    /// when the cache is full.
    pub fn insert(&mut self, key: K, value: V)
        requires
            old(self).wf(),
        ensures
            final(self).wf(),
            final(self).config() == old(self).config(),
            final(self)@ == spec_insert(old(self)@, key, value, old(self).spec_capacity() as nat),
    {
        let ghost s0 = self@;
        match self.find_index(&key) {
            Some(i) => {
                self.entries.remove(i);
                self.entries.insert(0, (key, value));
                proof {
                    assert(self@ =~= spec_insert(s0, key, value, self.spec_capacity() as nat));
                    lemma_remove_distinct(s0, seq_index_of(s0, key));
                    lemma_cons_distinct(s0.remove(seq_index_of(s0, key)), key, value);
                }
            },
            None => {
                if self.entries.len() >= self.capacity {
                    self.entries.pop();
                    proof {
                        assert(self@ =~= s0.drop_last());
                        assert(distinct_keys(self@));
                        assert(!seq_has_key(self@, key));
                    }
                }
                let ghost s1 = self@;
                self.entries.insert(0, (key, value));
                proof {
                    assert(self@ =~= seq![(key, value)] + s1);
                    lemma_cons_distinct(s1, key, value);
                    assert(self@ =~= spec_insert(s0, key, value, self.spec_capacity() as nat));
                }
            },
        }
    }

    /// Remove the entry with key `key`, handing back its prior value; a no-op
    /// when the key is absent.
    pub fn delete(&mut self, key: &K) -> (r: Option<V>)
        requires
            old(self).wf(),
        ensures
            final(self).wf(),
            final(self).config() == old(self).config(),
            final(self)@ == spec_delete(old(self)@, *key),
            seq_has_key(old(self)@, *key) ==> r == Some(seq_value_of(old(self)@, *key)),
            !seq_has_key(old(self)@, *key) ==> r == None::<V>,
    {
        match self.find_index(key) {
            Some(i) => {
                let ghost s0 = self@;
                let entry = self.entries.remove(i);
                proof {
                    lemma_remove_distinct(s0, i as int);
                }
                Some(entry.1)
            },
            None => None,
        }
    }

    /// Drop every entry; used when a mutation could affect an unbounded set of
    /// keys, such as any list or filter query.
    pub fn clear(&mut self)
        requires
            old(self).wf(),
        ensures
            final(self).wf(),
            final(self).config() == old(self).config(),
            final(self)@ == Seq::<(K, V)>::empty(),
    {
        self.entries.clear();
        proof {
            assert(self@ =~= Seq::<(K, V)>::empty());
        }
    }

    /// Memoized read. On a hit the stored value is returned and its recency
    /// refreshed; `compute` is not invoked. On a miss `compute` runs; a
    /// successful result is stored and returned, while a failure is returned
    /// unchanged and nothing is stored, so the next read for the same key
    /// invokes `compute` again.
    pub fn get<E, F: FnOnce() -> Result<V, E>>(&mut self, key: K, compute: F) -> (r: Result<
        &V,
        E,
    >)
        requires
            old(self).wf(),
            call_requires(compute, ()),
        ensures
            final(self).wf(),
            final(self).config() == old(self).config(),
            seq_has_key(old(self)@, key) ==> match r {
                Ok(v) => *v == seq_value_of(old(self)@, key) && final(self)@ == spec_promote(
                    old(self)@,
                    key,
                ),
                Err(_) => false,
            },
            !seq_has_key(old(self)@, key) ==> match r {
                Ok(v) => call_ensures(compute, (), Ok::<V, E>(*v)) && final(self)@ == spec_insert(
                    old(self)@,
                    key,
                    *v,
                    old(self).spec_capacity() as nat,
                ),
                Err(e) => call_ensures(compute, (), Err::<V, E>(e)) && final(self)@ == old(self)@,
            },
    {
        let ghost s0 = self@;
        match self.find_index(&key) {
            Some(i) => {
                let entry = self.entries.remove(i);
                self.entries.insert(0, entry);
                proof {
                    assert(self@ =~= spec_promote(s0, key));
                    lemma_promote_distinct(s0, key);
                }
                let front = &self.entries[0];
                Ok(&front.1)
            },
            None => match compute() {
                Ok(v) => {
                    self.insert(key, v);
                    proof {
                        assert(self@[0] == (key, v));
                    }
                    let front = &self.entries[0];
                    Ok(&front.1)
                },
                Err(e) => Err(e),
            },
        }
    }
}

impl<K: KeyEq> Cache<K, CachedResponse> {
    /// Memoized read specialized for HTTP replies. On a hit the stored
    /// snapshot is replayed. On a miss `compute` runs; a successful reply is
    /// snapshotted into the cache and returned, while a failure is rendered
    /// as an uncacheable problem response: the error path stores nothing, so
    /// the next read for the same key computes again.
    pub fn get_response<F: FnOnce() -> Result<CachedResponse, Problem>>(
        &mut self,
        key: K,
        compute: F,
    ) -> (r: CachedResponse)
        requires
            old(self).wf(),
            call_requires(compute, ()),
        ensures
            final(self).wf(),
            final(self).config() == old(self).config(),
            seq_has_key(old(self)@, key) ==> r@ == seq_value_of(old(self)@, key)@ && final(self)@
                == spec_promote(old(self)@, key),
            !seq_has_key(old(self)@, key) ==> {
                ||| (call_ensures(compute, (), Ok::<CachedResponse, Problem>(r)) && exists|
                    stored: CachedResponse,
                |
                    stored@ == r@ && final(self)@ == #[trigger] spec_insert(
                        old(self)@,
                        key,
                        stored,
                        old(self).spec_capacity() as nat,
                    ))
                ||| (exists|p: Problem|
                    call_ensures(compute, (), Err::<CachedResponse, Problem>(p)) && r@
                        == #[trigger] p.spec_response() && final(self)@ == old(self)@)
            },
    {
        let ghost s0 = self@;
        match self.find_index(&key) {
            Some(i) => {
                let entry = self.entries.remove(i);
                self.entries.insert(0, entry);
                proof {
                    assert(self@ =~= spec_promote(s0, key));
                    lemma_promote_distinct(s0, key);
                }
                self.entries[0].1.dup()
            },
            None => match compute() {
                Ok(resp) => {
                    let stored = resp.dup();
                    let ghost g = stored;
                    self.insert(key, stored);
                    proof {
                        assert(g@ == resp@ && self@ == spec_insert(
                            s0,
                            key,
                            g,
                            self.spec_capacity() as nat,
                        ));
                    }
                    resp
                },
                Err(p) => {
                    let r = p.to_response();
                    let ghost gp = p;
                    proof {
                        assert(call_ensures(compute, (), Err::<CachedResponse, Problem>(gp)) && r@
                            == gp.spec_response());
                    }
                    r
                },
            },
        }
    }

    /// Remove the snapshot stored under `key`, handing back the prior one.
    pub fn delete_response(&mut self, key: &K) -> (r: Option<CachedResponse>)
        requires
            old(self).wf(),
        ensures
            final(self).wf(),
            final(self).config() == old(self).config(),
            final(self)@ == spec_delete(old(self)@, *key),
            seq_has_key(old(self)@, *key) ==> r == Some(seq_value_of(old(self)@, *key)),
            !seq_has_key(old(self)@, *key) ==> r == None::<CachedResponse>,
    {
        self.delete(key)
    }
}

/// With distinct keys, any position holding key `k` is the position that the
/// spec-level index function denotes.
pub proof fn lemma_index_of<K: KeyEq, V>(s: Seq<(K, V)>, k: K, i: int)
    requires
        distinct_keys(s),
        0 <= i < s.len(),
        s[i].0.model() == k.model(),
    ensures
        seq_has_key(s, k),
        seq_index_of(s, k) == i,
        seq_value_of(s, k) == s[i].1,
{
    assert(seq_has_key(s, k));
    let w = seq_index_of(s, k);
    assert(0 <= w < s.len() && s[w].0.model() == k.model());
    if w < i {
        assert(s[w].0.model() != s[i].0.model());
    } else if i < w {
        assert(s[i].0.model() != s[w].0.model());
    }
}

/// Inserting keeps the keys distinct.
pub proof fn lemma_insert_distinct<K: KeyEq, V>(s: Seq<(K, V)>, k: K, v: V, cap: nat)
    requires
        distinct_keys(s),
    ensures
        distinct_keys(spec_insert(s, k, v, cap)),
{
    if cap == 0 {
    } else if seq_has_key(s, k) {
        let i = seq_index_of(s, k);
        assert(0 <= i < s.len() && s[i].0.model() == k.model());
        lemma_remove_distinct(s, i);
        let r = s.remove(i);
        assert forall|j: int| 0 <= j < r.len() implies (#[trigger] r[j]).0.model()
            != k.model() by {
            let sj = if j < i {
                j
            } else {
                j + 1
            };
            assert(r[j] == s[sj]);
        }
        assert(!seq_has_key(r, k));
        lemma_cons_distinct(r, k, v);
    } else if s.len() >= cap {
        let d = s.drop_last();
        assert(distinct_keys(d)) by {
            assert forall|p: int, q: int| 0 <= p < q < d.len() implies (#[trigger] d[p]).0.model()
                != (#[trigger] d[q]).0.model() by {
                assert(d[p] == s[p]);
                assert(d[q] == s[q]);
            }
        }
        assert(!seq_has_key(d, k)) by {
            if exists|i: int| 0 <= i < d.len() && (#[trigger] d[i]).0.model() == k.model() {
                let i = choose|i: int| 0 <= i < d.len() && (#[trigger] d[i]).0.model()
                    == k.model();
                assert(s[i] == d[i]);
                assert(seq_has_key(s, k));
            }
        }
        lemma_cons_distinct(d, k, v);
    } else {
        lemma_cons_distinct(s, k, v);
    }
}

/// Idempotence of the hit path: refreshing recency neither removes the entry
/// nor changes its value, so a second read for the same key hits again and
/// yields the same value.
pub proof fn lemma_hit_idempotent<K: KeyEq, V>(s: Seq<(K, V)>, k: K)
    requires
        distinct_keys(s),
        seq_has_key(s, k),
    ensures
        distinct_keys(spec_promote(s, k)),
        seq_has_key(spec_promote(s, k), k),
        seq_value_of(spec_promote(s, k), k) == seq_value_of(s, k),
        spec_promote(s, k).len() == s.len(),
{
    lemma_promote_distinct(s, k);
    let i = seq_index_of(s, k);
    let p = spec_promote(s, k);
    assert(p[0] == s[i]);
    lemma_index_of(p, k, 0);
}

/// A freshly stored value is found by the next read for its key.
pub proof fn lemma_insert_then_hit<K: KeyEq, V>(s: Seq<(K, V)>, k: K, v: V, cap: nat)
    requires
        distinct_keys(s),
        cap > 0,
    ensures
        seq_has_key(spec_insert(s, k, v, cap), k),
        seq_value_of(spec_insert(s, k, v, cap), k) == v,
{
    lemma_insert_distinct(s, k, v, cap);
    let t = spec_insert(s, k, v, cap);
    assert(t[0] == (k, v));
    lemma_index_of(t, k, 0);
}

/// Idempotence of a memoized read: once a computed value is stored for a
/// fresh key, that key holds exactly that value, and it still does after the
/// recency refresh of a following read — so two sequential reads for the same
/// key return the same value and only the first one computes.
pub proof fn lemma_memoized_read<K: KeyEq, V>(s: Seq<(K, V)>, k: K, v: V, cap: nat)
    requires
        distinct_keys(s),
        !seq_has_key(s, k),
        cap > 0,
    ensures
        seq_has_key(spec_insert(s, k, v, cap), k),
        seq_value_of(spec_insert(s, k, v, cap), k) == v,
        seq_has_key(spec_promote(spec_insert(s, k, v, cap), k), k),
        seq_value_of(spec_promote(spec_insert(s, k, v, cap), k), k) == v,
{
    lemma_insert_then_hit(s, k, v, cap);
    lemma_insert_distinct(s, k, v, cap);
    lemma_hit_idempotent(spec_insert(s, k, v, cap), k);
}

/// Least-recently-used eviction: a fresh insert into a full cache evicts
/// exactly the entry at the back, the least recently accessed one; the new key
/// and every other old key are present afterwards, with their values kept.
pub proof fn lemma_eviction<K: KeyEq, V>(s: Seq<(K, V)>, k: K, v: V, cap: nat)
    requires
        distinct_keys(s),
        !seq_has_key(s, k),
        s.len() == cap,
        cap > 0,
    ensures
        !seq_has_key(spec_insert(s, k, v, cap), s.last().0),
        seq_has_key(spec_insert(s, k, v, cap), k),
        forall|i: int|
            0 <= i < s.len() - 1 ==> seq_has_key(spec_insert(s, k, v, cap), (#[trigger] s[i]).0)
                && seq_value_of(spec_insert(s, k, v, cap), s[i].0) == s[i].1,
{
    let t = spec_insert(s, k, v, cap);
    lemma_insert_distinct(s, k, v, cap);
    assert(t =~= seq![(k, v)] + s.drop_last());
    let last = s.last().0;
    assert(!seq_has_key(t, last)) by {
        if exists|j: int| 0 <= j < t.len() && (#[trigger] t[j]).0.model() == last.model() {
            let j = choose|j: int| 0 <= j < t.len() && (#[trigger] t[j]).0.model() == last.model();
            if j == 0 {
                assert(s[s.len() - 1].0.model() == k.model());
                assert(seq_has_key(s, k));
            } else {
                assert(t[j] == s[j - 1]);
                assert(s[j - 1].0.model() != s[s.len() - 1].0.model());
            }
        }
    }
    lemma_index_of(t, k, 0);
    assert forall|i: int| 0 <= i < s.len() - 1 implies seq_has_key(t, (#[trigger] s[i]).0)
        && seq_value_of(t, s[i].0) == s[i].1 by {
        assert(t[i + 1] == s[i]);
        lemma_index_of(t, s[i].0, i + 1);
    }
}

/// Invalidation: after an explicit delete the key is absent, so the next read
/// for it misses and invokes its compute step; every other entry stays, with
/// its value kept.
pub proof fn lemma_delete_misses<K: KeyEq, V>(s: Seq<(K, V)>, k: K)
    requires
        distinct_keys(s),
    ensures
        distinct_keys(spec_delete(s, k)),
        !seq_has_key(spec_delete(s, k), k),
        forall|i: int|
            0 <= i < s.len() && (#[trigger] s[i]).0.model() != k.model() ==> seq_has_key(
                spec_delete(s, k),
                s[i].0,
            ) && seq_value_of(spec_delete(s, k), s[i].0) == s[i].1,
{
    if seq_has_key(s, k) {
        let w = seq_index_of(s, k);
        assert(0 <= w < s.len() && s[w].0.model() == k.model());
        lemma_remove_distinct(s, w);
        let r = s.remove(w);
        assert forall|j: int| 0 <= j < r.len() implies (#[trigger] r[j]).0.model()
            != k.model() by {
            let sj = if j < w {
                j
            } else {
                j + 1
            };
            assert(r[j] == s[sj]);
        }
        assert(!seq_has_key(r, k));
        assert forall|i: int|
            0 <= i < s.len() && (#[trigger] s[i]).0.model() != k.model() implies seq_has_key(
            r,
            s[i].0,
        ) && seq_value_of(r, s[i].0) == s[i].1 by {
            let rj = if i < w {
                i
            } else {
                i - 1
            };
            assert(r[rj] == s[i]);
            lemma_index_of(r, s[i].0, rj);
        }
    } else {
        assert forall|i: int|
            0 <= i < s.len() && (#[trigger] s[i]).0.model() != k.model() implies seq_has_key(
            spec_delete(s, k),
            s[i].0,
        ) && seq_value_of(spec_delete(s, k), s[i].0) == s[i].1 by {
            lemma_index_of(s, s[i].0, i);
        }
    }
}

/// After a clear, every read misses.
pub proof fn lemma_empty_misses<K: KeyEq, V>(k: K)
    ensures
        !seq_has_key(Seq::<(K, V)>::empty(), k),
{
}

/// Removing any entry keeps the remaining keys distinct.
proof fn lemma_remove_distinct<K: KeyEq, V>(s: Seq<(K, V)>, i: int)
    requires
        distinct_keys(s),
        0 <= i < s.len(),
    ensures
        distinct_keys(s.remove(i)),
{
    let t = s.remove(i);
    assert forall|p: int, q: int| 0 <= p < q < t.len() implies (#[trigger] t[p]).0.model() != (
    #[trigger] t[q]).0.model() by {
        let sp = if p < i {
            p
        } else {
            p + 1
        };
        let sq = if q < i {
            q
        } else {
            q + 1
        };
        assert(t[p] == s[sp]);
        assert(t[q] == s[sq]);
    }
}

/// Prepending a fresh key keeps the keys distinct.
proof fn lemma_cons_distinct<K: KeyEq, V>(s: Seq<(K, V)>, k: K, v: V)
    requires
        distinct_keys(s),
        !seq_has_key(s, k),
    ensures
        distinct_keys(seq![(k, v)] + s),
{
    let t = seq![(k, v)] + s;
    assert forall|p: int, q: int| 0 <= p < q < t.len() implies (#[trigger] t[p]).0.model() != (
    #[trigger] t[q]).0.model() by {
        if p == 0 {
            assert(t[q] == s[q - 1]);
            assert(!(exists|i: int|
                0 <= i < s.len() && (#[trigger] s[i]).0.model() == k.model()));
        } else {
            assert(t[p] == s[p - 1]);
            assert(t[q] == s[q - 1]);
        }
    }
}

/// Promoting a present key keeps the keys distinct.
proof fn lemma_promote_distinct<K: KeyEq, V>(s: Seq<(K, V)>, k: K)
    requires
        distinct_keys(s),
        seq_has_key(s, k),
    ensures
        distinct_keys(spec_promote(s, k)),
        seq_has_key(spec_promote(s, k), k),
        spec_promote(s, k).len() == s.len(),
{
    let i = seq_index_of(s, k);
    assert(0 <= i < s.len() && s[i].0.model() == k.model());
    lemma_remove_distinct(s, i);
    let r = s.remove(i);
    assert forall|j: int| 0 <= j < r.len() implies (#[trigger] r[j]).0.model() != k.model() by {
        let sj = if j < i {
            j
        } else {
            j + 1
        };
        assert(r[j] == s[sj]);
    }
    assert(!seq_has_key(r, s[i].0)) by {
        assert(s[i].0.model() == k.model());
    }
    lemma_cons_distinct(r, s[i].0, s[i].1);
    assert(s[i] == (s[i].0, s[i].1));
    assert(spec_promote(s, k) =~= seq![(s[i].0, s[i].1)] + r);
    assert((spec_promote(s, k))[0].0.model() == k.model());
}

} // verus!
