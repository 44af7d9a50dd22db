//! [`Ser`] for the ordered collections of std, `BTreeSet` and `BTreeMap`:
//! they are written in the order their iterators yield, increasing by key.
//! That order is stated for keys of [`OrderedKey`] types, whose comparison is
//! that of an integer rank: the integer types.
use std::collections::{BTreeMap, BTreeSet};

use vstd::prelude::*;
use vstd::std_specs::btree::{
    axiom_increasing_seq_meaning, increasing_seq, spec_btree_keys_iter, spec_keys_iter,
};
use vstd::laws_cmp::{lemma_ref_obeys_cmp_spec, obeys_cmp};
use vstd::std_specs::cmp::OrdSpec;
use vstd::std_specs::iter::IteratorSpec;

use crate::data::Data;
use crate::impls::{data_of, entries_data};
use crate::{Ser, SerializeMap, SerializeSeq, Serializer, SerializerBase};

verus! {

broadcast use vstd::std_specs::btree::group_btree_axioms;

/// Whether `key` strictly increases along `s`.
pub open spec fn increasing_by<K>(s: Seq<K>, key: spec_fn(K) -> int) -> bool {
    forall|i: int, j: int| 0 <= i < j < s.len() ==> key(s[i]) < key(s[j])
}

/// The elements of a finite set listed once each, in increasing order of
/// `key`.
pub open spec fn sorted_by<K>(set: Set<K>, key: spec_fn(K) -> int) -> Seq<K> {
    choose|s: Seq<K>| s.to_set() == set && increasing_by(s, key)
}

/// A set has at most one listing in strictly increasing order of a key.
proof fn lemma_sorted_unique<K>(a: Seq<K>, b: Seq<K>, key: spec_fn(K) -> int)
    requires
        a.to_set() == b.to_set(),
        increasing_by(a, key),
        increasing_by(b, key),
    ensures
        a == b,
{
    assert forall|n: int| 0 <= n <= a.len() && n <= b.len() implies #[trigger] a.take(n) == b.take(
        n,
    ) by {
        lemma_sorted_prefix(a, b, key, n);
    }
    let n = if a.len() <= b.len() { a.len() as int } else { b.len() as int };
    assert(a.take(n) == b.take(n));
    if a.len() < b.len() {
        assert(b.to_set().contains(b[n]));
        assert(a.to_set().contains(b[n]));
        let k = choose|k: int| 0 <= k < a.len() && a[k] == b[n];
        assert(a.take(n)[k] == b.take(n)[k]);
        assert(key(b[k]) < key(b[n]));
        assert(false);
    } else if b.len() < a.len() {
        assert(a.to_set().contains(a[n]));
        assert(b.to_set().contains(a[n]));
        let k = choose|k: int| 0 <= k < b.len() && b[k] == a[n];
        assert(a.take(n)[k] == b.take(n)[k]);
        assert(key(a[k]) < key(a[n]));
        assert(false);
    }
    assert(a.take(n) =~= a);
    assert(b.take(n) =~= b);
}

/// Two strictly increasing listings of one set agree on their first `n`
/// elements.
proof fn lemma_sorted_prefix<K>(a: Seq<K>, b: Seq<K>, key: spec_fn(K) -> int, n: int)
    requires
        a.to_set() == b.to_set(),
        increasing_by(a, key),
        increasing_by(b, key),
        0 <= n <= a.len(),
        n <= b.len(),
    ensures
        a.take(n) == b.take(n),
    decreases n,
{
    if n > 0 {
        let i = n - 1;
        lemma_sorted_prefix(a, b, key, i);
        assert(a.to_set().contains(a[i]));
        assert(b.to_set().contains(a[i]));
        let k = choose|k: int| 0 <= k < b.len() && b[k] == a[i];
        assert(a.to_set().contains(b[i]));
        let m = choose|m: int| 0 <= m < a.len() && a[m] == b[i];
        if k < i {
            assert(a.take(i)[k] == b.take(i)[k]);
        }
        if m < i {
            assert(a.take(i)[m] == b.take(i)[m]);
        }
        if k != i {
            assert(k > i && m > i);
            assert(key(b[i]) < key(b[k]));
            assert(key(a[i]) < key(a[m]));
            assert(false);
        }
        assert(a.take(n) =~= b.take(n)) by {
            assert forall|j: int| 0 <= j < n implies a.take(n)[j] == b.take(n)[j] by {
                if j < i {
                    assert(a.take(i)[j] == b.take(i)[j]);
                }
            }
        }
    }
}

/// A key type whose `Ord` comparison is that of an integer rank, so that a
/// set or map of such keys lists them in increasing order of rank.
pub trait OrderedKey: Ord + Sized {
    /// The integer a key stands for in the order.
    spec fn rank(self) -> int;

    /// The comparison obeys vstd's laws for `Ord`, and a key compares as
    /// less than another where its rank is smaller.
    proof fn lemma_rank_orders()
        ensures
            obeys_cmp::<Self>(),
            forall|a: Self, b: Self|
                #[trigger] OrdSpec::cmp_spec(&a, &b) is Less ==> a.rank() < b.rank(),
    ;
}

/// A sequence of keys that a B-tree iterator yields in increasing order has
/// strictly increasing ranks.
proof fn lemma_increasing_keys<K: OrderedKey>(s: Seq<K>)
    requires
        increasing_seq(s),
    ensures
        increasing_by(s, |k: K| k.rank()),
{
    K::lemma_rank_orders();
    axiom_increasing_seq_meaning::<K>(s);
    assert forall|i: int, j: int| 0 <= i < j < s.len() implies s[i].rank() < s[j].rank() by {
        assert(OrdSpec::cmp_spec(&s[i], &s[j]) is Less);
    }
}

/// A sequence of key references that a B-tree iterator yields in increasing
/// order has strictly increasing ranks.
proof fn lemma_increasing_key_refs<K: OrderedKey>(s: Seq<&K>)
    requires
        increasing_seq(s),
    ensures
        increasing_by(s.unref(), |k: K| k.rank()),
{
    K::lemma_rank_orders();
    broadcast use lemma_ref_obeys_cmp_spec;

    axiom_increasing_seq_meaning::<&K>(s);
    assert forall|i: int, j: int| 0 <= i < j < s.len() implies s.unref()[i].rank() < s.unref()[
        j
    ].rank() by {
        assert(OrdSpec::cmp_spec(&s[i], &s[j]) is Less);
    }
}

/// A set of ordered keys is listed with each element once, in increasing
/// order: the listing it is written as holds exactly its elements, and
/// their ranks strictly increase along it.
pub proof fn law_set_listed_in_order<K: OrderedKey>(set: &BTreeSet<K>)
    ensures
        sorted_by(set@, |k: K| k.rank()).to_set() == set@,
        increasing_by(sorted_by(set@, |k: K| k.rank()), |k: K| k.rank()),
{
    let listed = spec_btree_keys_iter(set).remaining();
    lemma_increasing_key_refs::<K>(listed);
    assert(listed.unref().to_set() == set@ && increasing_by(listed.unref(), |k: K| k.rank()));
}

/// A map with ordered keys is listed with each entry once, in increasing
/// key order: the listing it is written as holds exactly its key-value
/// pairs, and the ranks of their keys strictly increase along it.
pub proof fn law_map_listed_in_order<K: OrderedKey, V>(map: &BTreeMap<K, V>)
    ensures
        sorted_by(map@.kv_pairs(), |e: (K, V)| e.0.rank()).to_set() == map@.kv_pairs(),
        increasing_by(sorted_by(map@.kv_pairs(), |e: (K, V)| e.0.rank()), |e: (K, V)| e.0.rank()),
{
    let by_key = |e: (K, V)| e.0.rank();
    let keys = spec_keys_iter(map).remaining();
    lemma_increasing_key_refs::<K>(keys);
    let ks = keys.unref();
    let listed = ks.map_values(|k: K| (k, map@[k]));
    assert forall|e: (K, V)| #[trigger] map@.kv_pairs().contains(e) implies listed.to_set().contains(
        e,
    ) by {
        assert(ks.to_set().contains(e.0));
        let i = choose|i: int| 0 <= i < ks.len() && ks[i] == e.0;
        assert(listed[i] == e);
    }
    assert forall|e: (K, V)| #[trigger] listed.to_set().contains(e) implies map@.kv_pairs().contains(
        e,
    ) by {
        let i = choose|i: int| 0 <= i < listed.len() && listed[i] == e;
        assert(ks.to_set().contains(ks[i]));
    }
    assert(listed.to_set() =~= map@.kv_pairs());
    assert(increasing_by(listed, by_key));
}

/// A set of ordered keys is written whole: a sequence with one element per
/// member of the set, holding the members' values in increasing order.
pub proof fn law_set_written_whole<S: Serializer, K: OrderedKey + Ser<S>>(set: &BTreeSet<K>)
    ensures
        Ser::<S>::data(set) is Sequence,
        Ser::<S>::data(set)->Sequence_0.len() == set@.len(),
        exists|l: Seq<K>|
            {
                &&& l.len() == set@.len()
                &&& l.no_duplicates()
                &&& l.to_set() == set@
                &&& increasing_by(l, |k: K| k.rank())
                &&& forall|i: int|
                    0 <= i < l.len() ==> Ser::<S>::data(set)->Sequence_0[i] == #[trigger] l[i].data()
            },
{
    law_set_listed_in_order(set);
    let listed = spec_btree_keys_iter(set).remaining();
    lemma_increasing_key_refs::<K>(listed);
    let l = listed.unref();
    let sorted = sorted_by(set@, |k: K| k.rank());
    lemma_sorted_unique(l, sorted, |k: K| k.rank());
    assert(l.no_duplicates()) by {
        assert forall|i: int, j: int| 0 <= i < l.len() && 0 <= j < l.len() && i != j implies l[i]
            != l[j] by {
            assert(listed[i] != listed[j]);
        }
    }
    assert(l.len() == set@.len());
}

/// A map with ordered keys is written whole: one entry per key of the map,
/// holding the key's value and the value it maps to, in increasing key
/// order.
pub proof fn law_map_written_whole<S: Serializer, K: OrderedKey + Ser<S>, V: Ser<S>>(
    map: &BTreeMap<K, V>,
)
    ensures
        Ser::<S>::data(map) is Entries,
        Ser::<S>::data(map)->Entries_0.len() == map@.len(),
        exists|l: Seq<(K, V)>|
            {
                &&& l.len() == map@.len()
                &&& l.to_set() == map@.kv_pairs()
                &&& increasing_by(l, |e: (K, V)| e.0.rank())
                &&& forall|i: int|
                    0 <= i < l.len() ==> Ser::<S>::data(map)->Entries_0[i] == (
                        #[trigger] l[i].0.data(),
                        l[i].1.data(),
                    )
            },
{
    let by_key = |e: (K, V)| e.0.rank();
    law_map_listed_in_order(map);
    let keys = spec_keys_iter(map).remaining();
    lemma_increasing_key_refs::<K>(keys);
    let ks = keys.unref();
    let listed = ks.map_values(|k: K| (k, map@[k]));
    assert forall|e: (K, V)| #[trigger] map@.kv_pairs().contains(e) implies listed.to_set().contains(
        e,
    ) by {
        assert(ks.to_set().contains(e.0));
        let i = choose|i: int| 0 <= i < ks.len() && ks[i] == e.0;
        assert(listed[i] == e);
    }
    assert forall|e: (K, V)| #[trigger] listed.to_set().contains(e) implies map@.kv_pairs().contains(
        e,
    ) by {
        let i = choose|i: int| 0 <= i < listed.len() && listed[i] == e;
        assert(ks.to_set().contains(ks[i]));
    }
    assert(listed.to_set() =~= map@.kv_pairs());
    assert(increasing_by(listed, by_key));
    let sorted = sorted_by(map@.kv_pairs(), by_key);
    lemma_sorted_unique(listed, sorted, by_key);
    assert(listed.len() == map@.len());
}

/// A set is written as a sequence of its elements, each once, in increasing
/// order.
impl<S: Serializer, K: OrderedKey + Ser<S>> Ser<S> for BTreeSet<K> {
    open spec fn data(&self) -> Data {
        Data::Sequence(data_of::<S, K>(sorted_by(self@, |k: K| k.rank())))
    }

    fn serialize(&self, serializer: &mut S) -> (r: Result<S::Ok, S::Error>) {
        let ghost elems = sorted_by(self@, |k: K| k.rank());
        proof {
            K::lemma_rank_orders();
            let listed = spec_btree_keys_iter(self).remaining();
            lemma_increasing_key_refs::<K>(listed);
            lemma_sorted_unique(listed.unref(), elems, |k: K| k.rank());
            assert(data_of::<S, K>(elems.take(0)) =~= Seq::<Data>::empty());
        }
        let mut seq = match serializer.serialize_seq(Some(self.len())) {
            Ok(state) => state,
            Err(e) => {
                return Err(e);
            },
        };
        let ghost mut done: int = 0;
        for k in it: self.iter()
            invariant
                seq.wf(*serializer),
                seq.start() == *old(serializer),
                it.seq().unref() == elems,
                done == it.index(),
                seq.value() == Data::Sequence(data_of::<S, K>(elems.take(done))),
        {
            match seq.serialize_element(serializer, k) {
                Ok(()) => {},
                Err(e) => {
                    return Err(e);
                },
            }
            proof {
                assert(data_of::<S, K>(elems.take(done + 1)) =~= data_of::<S, K>(
                    elems.take(done),
                ).push(elems[done].data()));
                done = done + 1;
            }
        }
        proof {
            assert(elems.take(done) =~= elems);
        }
        seq.end(serializer)
    }
}

/// A map is written as its entries, each once, in increasing key order.
impl<S: Serializer, K: OrderedKey + Ser<S>, V: Ser<S>> Ser<S> for BTreeMap<K, V> {
    open spec fn data(&self) -> Data {
        Data::Entries(entries_data::<S, K, V>(sorted_by(self@.kv_pairs(), |e: (K, V)| e.0.rank())))
    }

    fn serialize(&self, serializer: &mut S) -> (r: Result<S::Ok, S::Error>) {
        let ghost entries = sorted_by(self@.kv_pairs(), |e: (K, V)| e.0.rank());
        let ghost by_key = |e: (K, V)| e.0.rank();
        proof {
            K::lemma_rank_orders();
        }
        let iter = self.iter();
        proof {
            let listed = iter.remaining();
            let keys = listed.map_values(|kv: (&K, &V)| *kv.0);
            lemma_increasing_keys::<K>(keys);
            assert forall|i: int, j: int| 0 <= i < j < listed.len() implies by_key(
                listed.unref()[i],
            ) < by_key(listed.unref()[j]) by {
                assert(keys[i] == listed.unref()[i].0);
                assert(keys[j] == listed.unref()[j].0);
            }
            lemma_sorted_unique(listed.unref(), entries, by_key);
            assert(entries_data::<S, K, V>(entries.take(0)) =~= Seq::<(Data, Data)>::empty());
        }
        let mut map = match serializer.serialize_map(Some(self.len())) {
            Ok(state) => state,
            Err(e) => {
                return Err(e);
            },
        };
        let ghost mut done: int = 0;
        for (k, v) in it: iter
            invariant
                map.wf(*serializer),
                map.start() == *old(serializer),
                map.pending_key() is None,
                it.seq().unref() == entries,
                done == it.index(),
                map.value() == Data::Entries(entries_data::<S, K, V>(entries.take(done))),
        {
            match map.serialize_entry(serializer, k, v) {
                Ok(()) => {},
                Err(e) => {
                    return Err(e);
                },
            }
            proof {
                assert(entries_data::<S, K, V>(entries.take(done + 1)) =~= entries_data::<S, K, V>(
                    entries.take(done),
                ).push((entries[done].0.data(), entries[done].1.data())));
                done = done + 1;
            }
        }
        proof {
            assert(entries.take(done) =~= entries);
        }
        map.end(serializer)
    }
}

/// A `u8` ranks as the integer it is.
impl OrderedKey for u8 {
    open spec fn rank(self) -> int {
        self as int
    }

    proof fn lemma_rank_orders() {
        broadcast use vstd::laws_cmp::group_laws_cmp;

    }
}

/// A `u16` ranks as the integer it is.
impl OrderedKey for u16 {
    open spec fn rank(self) -> int {
        self as int
    }

    proof fn lemma_rank_orders() {
        broadcast use vstd::laws_cmp::group_laws_cmp;

    }
}

/// A `u32` ranks as the integer it is.
impl OrderedKey for u32 {
    open spec fn rank(self) -> int {
        self as int
    }

    proof fn lemma_rank_orders() {
        broadcast use vstd::laws_cmp::group_laws_cmp;

    }
}

/// A `u64` ranks as the integer it is.
impl OrderedKey for u64 {
    open spec fn rank(self) -> int {
        self as int
    }

    proof fn lemma_rank_orders() {
        broadcast use vstd::laws_cmp::group_laws_cmp;

    }
}

/// A `u128` ranks as the integer it is.
impl OrderedKey for u128 {
    open spec fn rank(self) -> int {
        self as int
    }

    proof fn lemma_rank_orders() {
        broadcast use vstd::laws_cmp::group_laws_cmp;

    }
}

/// A `usize` ranks as the integer it is.
impl OrderedKey for usize {
    open spec fn rank(self) -> int {
        self as int
    }

    proof fn lemma_rank_orders() {
        broadcast use vstd::laws_cmp::group_laws_cmp;

    }
}

/// An `i8` ranks as the integer it is.
impl OrderedKey for i8 {
    open spec fn rank(self) -> int {
        self as int
    }

    proof fn lemma_rank_orders() {
        broadcast use vstd::laws_cmp::group_laws_cmp;

    }
}

/// An `i16` ranks as the integer it is.
impl OrderedKey for i16 {
    open spec fn rank(self) -> int {
        self as int
    }

    proof fn lemma_rank_orders() {
        broadcast use vstd::laws_cmp::group_laws_cmp;

    }
}

/// An `i32` ranks as the integer it is.
impl OrderedKey for i32 {
    open spec fn rank(self) -> int {
        self as int
    }

    proof fn lemma_rank_orders() {
        broadcast use vstd::laws_cmp::group_laws_cmp;

    }
}

/// An `i64` ranks as the integer it is.
impl OrderedKey for i64 {
    open spec fn rank(self) -> int {
        self as int
    }

    proof fn lemma_rank_orders() {
        broadcast use vstd::laws_cmp::group_laws_cmp;

    }
}

/// An `i128` ranks as the integer it is.
impl OrderedKey for i128 {
    open spec fn rank(self) -> int {
        self as int
    }

    proof fn lemma_rank_orders() {
        broadcast use vstd::laws_cmp::group_laws_cmp;

    }
}

/// An `isize` ranks as the integer it is.
impl OrderedKey for isize {
    open spec fn rank(self) -> int {
        self as int
    }

    proof fn lemma_rank_orders() {
        broadcast use vstd::laws_cmp::group_laws_cmp;

    }
}

} // verus!
