//! Bounded, recency-ordered content cache with exact-timestamp staleness.
//!
//! The map itself is `lru::LruCache`; its contents are described by
//! [`lru_entries`], least recently used first.

use vstd::prelude::*;
use bytes::Bytes;
use lru::LruCache;
use std::num::NonZeroUsize;

verus! {

#[verifier::external_type_specification]
#[verifier::external_body]
pub struct ExBytes(Bytes);

#[verifier::external_type_specification]
#[verifier::external_body]
#[verifier::reject_recursive_types(K)]
#[verifier::reject_recursive_types(V)]
#[verifier::reject_recursive_types(S)]
pub struct ExLruCache<K, V, S>(LruCache<K, V, S>);

#[verifier::external_type_specification]
#[verifier::external_body]
pub struct ExDefaultHasher(lru::DefaultHasher);

/// The bytes that a shared buffer holds.
pub uninterp spec fn bytes_of(b: Bytes) -> Seq<u8>;

/// The entries of an LRU map, least recently used first: key, content bytes
/// and modification time.
pub uninterp spec fn lru_entries(c: LruCache<String, (Bytes, i128)>) -> Seq<(Seq<char>, Seq<u8>, i128)>;

/// The capacity that an LRU map was created with.
pub uninterp spec fn lru_cap(c: LruCache<String, (Bytes, i128)>) -> nat;

/// One cache entry in the model: key, content, modification time.
pub type Entry = (Seq<char>, Seq<u8>, i128);

pub open spec fn has_key(es: Seq<Entry>, k: Seq<char>) -> bool {
    exists|i: int| 0 <= i < es.len() && (#[trigger] es[i]).0 == k
}

/// Position of key `k`; meaningful when [`has_key`] holds.
pub open spec fn key_index(es: Seq<Entry>, k: Seq<char>) -> int {
    choose|i: int| 0 <= i < es.len() && (#[trigger] es[i]).0 == k
}

/// Keys are unique and the size stays within a positive capacity.
pub open spec fn valid_model(es: Seq<Entry>, cap: nat) -> bool {
    &&& 0 < cap
    &&& es.len() <= cap
    &&& forall|i: int, j: int| 0 <= i < j < es.len() ==> (#[trigger] es[i]).0 != (#[trigger] es[j]).0
}

/// Insert or replace `k`, making it the most recently used; a new key in a
/// full map first evicts the least recently used entry.
pub open spec fn put_model(es: Seq<Entry>, k: Seq<char>, b: Seq<u8>, t: i128, cap: nat) -> Seq<Entry> {
    if has_key(es, k) {
        es.remove(key_index(es, k)).push((k, b, t))
    } else if es.len() >= cap {
        es.drop_first().push((k, b, t))
    } else {
        es.push((k, b, t))
    }
}

/// Moves the entry at `i` to the most recently used end.
pub open spec fn touch(es: Seq<Entry>, i: int) -> Seq<Entry> {
    es.remove(i).push(es[i])
}

/// Result of a lookup of `k` against the current modification time `t`.
pub open spec fn find_result(es: Seq<Entry>, k: Seq<char>, t: i128) -> Option<Seq<u8>> {
    if has_key(es, k) && es[key_index(es, k)].2 == t {
        Some(es[key_index(es, k)].1)
    } else {
        None
    }
}

/// Entries after a lookup of `k`: a present key becomes most recently used,
/// whether or not its timestamp still matches.
pub open spec fn find_model(es: Seq<Entry>, k: Seq<char>) -> Seq<Entry> {
    if has_key(es, k) {
        touch(es, key_index(es, k))
    } else {
        es
    }
}

/// Relies on `Bytes::from(Vec<u8>)`: the buffer holds the vector's bytes.
#[verifier::external_body]
pub(crate) fn bytes_from_vec(v: Vec<u8>) -> (r: Bytes)
    ensures
        bytes_of(r) == v@,
{
    Bytes::from(v)
}

/// Relies on `Bytes`' `Deref` to its byte slice: the copy holds the same bytes.
#[verifier::external_body]
pub(crate) fn bytes_to_vec(b: &Bytes) -> (r: Vec<u8>)
    ensures
        r@ == bytes_of(*b),
{
    b.to_vec()
}

/// Relies on `LruCache::sparse`: an empty map with capacity `cap` that
/// allocates as entries arrive (so no capacity is too large to create).
#[verifier::external_body]
fn lru_new(cap: usize) -> (r: LruCache<String, (Bytes, i128)>)
    requires
        cap > 0,
    ensures
        lru_entries(r) == Seq::<Entry>::empty(),
        lru_cap(r) == cap,
{
    LruCache::sparse(NonZeroUsize::new(cap).unwrap())
}

/// Relies on `LruCache::put`: an existing key gets the new value and moves to
/// the most recent end; a new key in a full map replaces the least recently
/// used entry; otherwise the entry is added at the most recent end.
#[verifier::external_body]
fn lru_put(c: &mut LruCache<String, (Bytes, i128)>, k: String, v: (Bytes, i128))
    ensures
        lru_entries(*final(c)) == put_model(lru_entries(*old(c)), k@, bytes_of(v.0), v.1, lru_cap(*old(c))),
        lru_cap(*final(c)) == lru_cap(*old(c)),
{
    c.put(k, v);
}

/// Relies on `LruCache::get`, which moves a found key to the most recent end,
/// and on `Bytes::clone`, which shares the same bytes.
#[verifier::external_body]
fn lru_get(c: &mut LruCache<String, (Bytes, i128)>, k: &str) -> (r: Option<(Bytes, i128)>)
    ensures
        lru_cap(*final(c)) == lru_cap(*old(c)),
        lru_entries(*final(c)) == find_model(lru_entries(*old(c)), k@),
        has_key(lru_entries(*old(c)), k@) ==> (r matches Some(e) && bytes_of(e.0) == lru_entries(
            *old(c),
        )[key_index(lru_entries(*old(c)), k@)].1 && e.1 == lru_entries(*old(c))[key_index(
            lru_entries(*old(c)),
            k@,
        )].2),
        !has_key(lru_entries(*old(c)), k@) ==> r is None,
{
    c.get(k).cloned()
}

/// Relies on `LruCache::len`: the number of entries.
#[verifier::external_body]
fn lru_len(c: &LruCache<String, (Bytes, i128)>) -> (r: usize)
    ensures
        r == lru_entries(*c).len(),
{
    c.len()
}

/// Relies on `LruCache::cap`: the capacity given at creation.
#[verifier::external_body]
fn lru_capacity(c: &LruCache<String, (Bytes, i128)>) -> (r: usize)
    ensures
        r == lru_cap(*c),
{
    c.cap().get()
}

/// Content cache keyed by resource path (or `path:json` for the JSON
/// rendering of a directory).
pub struct FileCache {
    cache: LruCache<String, (Bytes, i128)>,
}

impl View for FileCache {
    type V = Seq<Entry>;

    closed spec fn view(&self) -> Seq<Entry> {
        lru_entries(self.cache)
    }
}

impl FileCache {
    /// The fixed capacity, in entries.
    pub closed spec fn cap(&self) -> nat {
        lru_cap(self.cache)
    }

    pub open spec fn wf(&self) -> bool {
        valid_model(self@, self.cap())
    }

    /// An empty cache holding at most `capacity` entries. A zero capacity is a
    /// configuration error and is not accepted.
    pub fn from_capacity(capacity: usize) -> (r: Self)
        requires
            capacity > 0,
        ensures
            r.wf(),
            r@ == Seq::<Entry>::empty(),
            r.cap() == capacity,
    {
        FileCache { cache: lru_new(capacity) }
    }

    /// Inserts or replaces `filename`, marking it most recently used; a new
    /// key in a full cache first evicts the least recently used entry.
    pub fn push(&mut self, filename: &str, bytes: Bytes, modified_time: i128)
        requires
            old(self).wf(),
        ensures
            final(self).wf(),
            final(self).cap() == old(self).cap(),
            final(self)@ == put_model(old(self)@, filename@, bytes_of(bytes), modified_time, old(self).cap()),
    {
        let key = filename.to_owned();
        lru_put(&mut self.cache, key, (bytes, modified_time));
        proof {
            lemma_put_valid(old(self)@, filename@, bytes_of(bytes), modified_time, old(self).cap());
        }
    }

    /// Whether a file of `file_size` bytes may be cached under `threshold`.
    pub fn should_cache(file_size: u64, threshold: u64) -> (r: bool)
        ensures
            r == (file_size <= threshold),
    {
        file_size <= threshold
    }

    /// Looks `filename` up. The stored bytes come back only when the stored
    /// modification time equals `current_modified_time` exactly; a present key
    /// becomes most recently used either way.
    pub fn find(&mut self, filename: &str, current_modified_time: i128) -> (r: Option<Bytes>)
        requires
            old(self).wf(),
        ensures
            final(self).wf(),
            final(self).cap() == old(self).cap(),
            final(self)@ == find_model(old(self)@, filename@),
            match r {
                Some(b) => find_result(old(self)@, filename@, current_modified_time) == Some(bytes_of(b)),
                None => find_result(old(self)@, filename@, current_modified_time) is None,
            },
    {
        let got = lru_get(&mut self.cache, filename);
        proof {
            lemma_find_valid(old(self)@, filename@, old(self).cap());
        }
        match got {
            Some(entry) => {
                if entry.1 == current_modified_time {
                    Some(entry.0)
                } else {
                    None
                }
            },
            None => None,
        }
    }

    /// Number of entries held.
    pub fn len(&self) -> (r: usize)
        ensures
            r == self@.len(),
    {
        lru_len(&self.cache)
    }

    /// The capacity given at construction.
    pub fn capacity(&self) -> (r: usize)
        ensures
            r == self.cap(),
    {
        lru_capacity(&self.cache)
    }
}

proof fn lemma_key_index(es: Seq<Entry>, k: Seq<char>)
    requires
        has_key(es, k),
    ensures
        0 <= key_index(es, k) < es.len(),
        es[key_index(es, k)].0 == k,
{
}

proof fn lemma_put_valid(es: Seq<Entry>, k: Seq<char>, b: Seq<u8>, t: i128, cap: nat)
    requires
        valid_model(es, cap),
    ensures
        valid_model(put_model(es, k, b, t, cap), cap),
{
    let r = put_model(es, k, b, t, cap);
    if has_key(es, k) {
        lemma_key_index(es, k);
        let m = key_index(es, k);
        assert forall|i: int, j: int| 0 <= i < j < r.len() implies (#[trigger] r[i]).0 != (#[trigger] r[j]).0 by {
            if j == r.len() - 1 {
                let i0 = if i < m { i } else { i + 1 };
                assert(r[i] == es[i0]);
            } else {
                let i0 = if i < m { i } else { i + 1 };
                let j0 = if j < m { j } else { j + 1 };
                assert(r[i] == es[i0]);
                assert(r[j] == es[j0]);
            }
        }
    } else if es.len() >= cap {
        assert forall|i: int, j: int| 0 <= i < j < r.len() implies (#[trigger] r[i]).0 != (#[trigger] r[j]).0 by {
            if j == r.len() - 1 {
                assert(r[i] == es[i + 1]);
            } else {
                assert(r[i] == es[i + 1]);
                assert(r[j] == es[j + 1]);
            }
        }
    } else {
        assert forall|i: int, j: int| 0 <= i < j < r.len() implies (#[trigger] r[i]).0 != (#[trigger] r[j]).0 by {
            if j == r.len() - 1 {
                assert(r[i] == es[i]);
            } else {
                assert(r[i] == es[i]);
                assert(r[j] == es[j]);
            }
        }
    }
}

proof fn lemma_find_valid(es: Seq<Entry>, k: Seq<char>, cap: nat)
    requires
        valid_model(es, cap),
    ensures
        valid_model(find_model(es, k), cap),
{
    if has_key(es, k) {
        lemma_key_index(es, k);
        let m = key_index(es, k);
        let r = find_model(es, k);
        assert forall|i: int, j: int| 0 <= i < j < r.len() implies (#[trigger] r[i]).0 != (#[trigger] r[j]).0 by {
            let i0 = if i < m { i } else { i + 1 };
            if j == r.len() - 1 {
                assert(r[i] == es[i0]);
                assert(r[j] == es[m]);
            } else {
                let j0 = if j < m { j } else { j + 1 };
                assert(r[i] == es[i0]);
                assert(r[j] == es[j0]);
            }
        }
    }
}

/// The entries after pushing each of `ops` in turn.
pub open spec fn push_all(es: Seq<Entry>, ops: Seq<Entry>, cap: nat) -> Seq<Entry>
    decreases ops.len(),
{
    if ops.len() == 0 {
        es
    } else {
        push_all(put_model(es, ops[0].0, ops[0].1, ops[0].2, cap), ops.drop_first(), cap)
    }
}

/// Whatever sequence of pushes is applied, the cache never holds more
/// entries than its capacity (and keys stay unique).
pub proof fn law_capacity_bound(es: Seq<Entry>, ops: Seq<Entry>, cap: nat)
    requires
        valid_model(es, cap),
    ensures
        valid_model(push_all(es, ops, cap), cap),
        push_all(es, ops, cap).len() <= cap,
    decreases ops.len(),
{
    if ops.len() > 0 {
        lemma_put_valid(es, ops[0].0, ops[0].1, ops[0].2, cap);
        law_capacity_bound(put_model(es, ops[0].0, ops[0].1, ops[0].2, cap), ops.drop_first(), cap);
    }
}

pub open spec fn distinct_keys(ops: Seq<Entry>) -> bool {
    forall|i: int, j: int| 0 <= i < j < ops.len() ==> (#[trigger] ops[i]).0 != (#[trigger] ops[j]).0
}

proof fn lemma_push_fresh(es: Seq<Entry>, ops: Seq<Entry>, cap: nat)
    requires
        es.len() + ops.len() <= cap,
        distinct_keys(ops),
        forall|i: int, j: int| 0 <= i < es.len() && 0 <= j < ops.len() ==> (#[trigger] es[i]).0 != (#[trigger] ops[j]).0,
    ensures
        push_all(es, ops, cap) == es + ops,
    decreases ops.len(),
{
    if ops.len() == 0 {
        assert(es + ops =~= es);
    } else {
        let k = ops[0].0;
        assert(!has_key(es, k)) by {
            if has_key(es, k) {
                let i = choose|i: int| 0 <= i < es.len() && (#[trigger] es[i]).0 == k;
                assert(es[i].0 != ops[0].0);
            }
        }
        let es1 = put_model(es, ops[0].0, ops[0].1, ops[0].2, cap);
        assert(es1 == es.push(ops[0]));
        let rest = ops.drop_first();
        assert forall|i: int, j: int| 0 <= i < es1.len() && 0 <= j < rest.len() implies (#[trigger] es1[i]).0 != (#[trigger] rest[j]).0 by {
            assert(rest[j] == ops[j + 1]);
            if i < es.len() {
                assert(es1[i] == es[i]);
            } else {
                assert(es1[i] == ops[0]);
            }
        }
        assert forall|i: int, j: int| 0 <= i < j < rest.len() implies (#[trigger] rest[i]).0 != (#[trigger] rest[j]).0 by {
            assert(rest[i] == ops[i + 1]);
            assert(rest[j] == ops[j + 1]);
        }
        lemma_push_fresh(es1, rest, cap);
        assert(es1 + rest =~= es + ops);
    }
}

/// Pushing `capacity + 1` distinct keys into an empty cache evicts exactly
/// the first (least recently used) one and keeps the rest in order.
pub proof fn law_overflow_evicts_least_recent(ops: Seq<Entry>, cap: nat)
    requires
        cap > 0,
        ops.len() == cap + 1,
        distinct_keys(ops),
    ensures
        push_all(Seq::<Entry>::empty(), ops, cap) == ops.subrange(1, ops.len() as int),
        !has_key(push_all(Seq::<Entry>::empty(), ops, cap), ops[0].0),
{
    let front = ops.take(cap as int);
    let last = ops[cap as int];
    assert forall|i: int, j: int| 0 <= i < j < front.len() implies (#[trigger] front[i]).0 != (#[trigger] front[j]).0 by {
        assert(front[i] == ops[i]);
        assert(front[j] == ops[j]);
    }
    lemma_push_fresh(Seq::<Entry>::empty(), front, cap);
    assert(Seq::<Entry>::empty() + front =~= front);
    lemma_push_all_split(Seq::<Entry>::empty(), front, seq![last], cap);
    assert(front + seq![last] =~= ops);
    assert(!has_key(front, last.0)) by {
        if has_key(front, last.0) {
            let i = choose|i: int| 0 <= i < front.len() && (#[trigger] front[i]).0 == last.0;
            assert(front[i] == ops[i]);
        }
    }
    let one = seq![last];
    assert(one.drop_first() =~= Seq::<Entry>::empty());
    assert(one[0] == last);
    let pm = put_model(front, last.0, last.1, last.2, cap);
    assert(push_all(pm, one.drop_first(), cap) == pm);
    assert(push_all(front, one, cap) == pm);
    assert((last.0, last.1, last.2) == last);
    assert(pm == front.drop_first().push(last));
    assert(front.drop_first().push(last) =~= ops.subrange(1, ops.len() as int));
    let r = ops.subrange(1, ops.len() as int);
    assert(!has_key(r, ops[0].0)) by {
        if has_key(r, ops[0].0) {
            let i = choose|i: int| 0 <= i < r.len() && (#[trigger] r[i]).0 == ops[0].0;
            assert(r[i] == ops[i + 1]);
        }
    }
}

proof fn lemma_push_all_split(es: Seq<Entry>, a: Seq<Entry>, b: Seq<Entry>, cap: nat)
    ensures
        push_all(es, a + b, cap) == push_all(push_all(es, a, cap), b, cap),
    decreases a.len(),
{
    if a.len() == 0 {
        assert(a + b =~= b);
    } else {
        assert((a + b).drop_first() =~= a.drop_first() + b);
        assert((a + b)[0] == a[0]);
        lemma_push_all_split(put_model(es, a[0].0, a[0].1, a[0].2, cap), a.drop_first(), b, cap);
    }
}

/// A lookup that hits makes its key most recently used, so the next push of
/// a new key cannot evict it (given room for at least two entries).
pub proof fn law_hit_protects_from_eviction(
    es: Seq<Entry>,
    cap: nat,
    k: Seq<char>,
    t: i128,
    k2: Seq<char>,
    b2: Seq<u8>,
    t2: i128,
)
    requires
        valid_model(es, cap),
        cap >= 2,
        find_result(es, k, t) is Some,
        !has_key(es, k2),
    ensures
        has_key(put_model(find_model(es, k), k2, b2, t2, cap), k),
{
    lemma_key_index(es, k);
    let m = key_index(es, k);
    let es1 = find_model(es, k);
    lemma_find_valid(es, k, cap);
    assert(es1[es1.len() - 1].0 == k);
    assert(!has_key(es1, k2)) by {
        if has_key(es1, k2) {
            let i = choose|i: int| 0 <= i < es1.len() && (#[trigger] es1[i]).0 == k2;
            if i == es1.len() - 1 {
                assert(es[m].0 == k2);
            } else if i < m {
                assert(es1[i] == es[i]);
            } else {
                assert(es1[i] == es[i + 1]);
            }
        }
    }
    let r = put_model(es1, k2, b2, t2, cap);
    if es1.len() >= cap {
        assert(r[es1.len() - 2] == es1[es1.len() - 1]);
        assert(r[es1.len() - 2].0 == k);
    } else {
        assert(r[es1.len() - 1] == es1[es1.len() - 1]);
    }
}

/// After `push(k, b, t1)`, a lookup of `k` hits with `b` at time `t1` and
/// misses at any other time.
pub proof fn law_staleness_is_exact(es: Seq<Entry>, cap: nat, k: Seq<char>, b: Seq<u8>, t1: i128, t2: i128)
    requires
        valid_model(es, cap),
    ensures
        find_result(put_model(es, k, b, t1, cap), k, t1) == Some(b),
        t2 != t1 ==> find_result(put_model(es, k, b, t1, cap), k, t2) is None,
{
    let r = put_model(es, k, b, t1, cap);
    lemma_put_valid(es, k, b, t1, cap);
    assert(r[r.len() - 1] == (k, b, t1));
    assert(has_key(r, k));
    lemma_key_index(r, k);
    assert(key_index(r, k) == r.len() - 1);
    assert(r[key_index(r, k)].2 == t1);
    assert(r[key_index(r, k)].1 == b);
}

} // verus!
