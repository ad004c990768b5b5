//! Associative containers, folded in the order of their keys.
//!
//! A map is walked by ascending key, so that two maps with the same entries
//! contribute the same bytes, in whatever order the entries were inserted.

use crate::encoding::{
    lemma_concat_assoc, lemma_list_prefix_free, lemma_seq_encoding_push, list_encoding,
    seq_encoding, Checksum,
};
use crate::hasher::{u64_le_bytes, ChecksumHasher};
use std::collections::BTreeMap;
use vstd::laws_cmp::obeys_cmp;
use vstd::prelude::*;
use vstd::relations::injective;
use vstd::std_specs::btree::{
    increasing_seq, key_obeys_cmp_spec, lemma_btree_map_deepview_properties,
};
use vstd::std_specs::cmp::OrdSpec;
use vstd::std_specs::iter::IteratorSpec;

verus! {

/// Whether every key is smaller than the keys behind it.
pub open spec fn ascending(keys: Seq<u64>) -> bool {
    forall|i: int, j: int| 0 <= i < j < keys.len() ==> keys[i] < keys[j]
}

/// Whether `keys` holds the members of `dom` and nothing else.
pub open spec fn lists(keys: Seq<u64>, dom: Set<u64>) -> bool {
    forall|k: u64| keys.contains(k) <==> dom.contains(k)
}

/// The members of `dom` in ascending order.
pub open spec fn sorted_keys(dom: Set<u64>) -> Seq<u64> {
    choose|keys: Seq<u64>| ascending(keys) && lists(keys, dom)
}

/// The entries of `m` by ascending key.
pub open spec fn sorted_entries<X>(m: Map<u64, X>) -> Seq<(u64, X)> {
    sorted_keys(m.dom()).map_values(|k: u64| (k, m[k]))
}

/// Two ascending sequences with the same members are the same sequence.
pub proof fn lemma_ascending_unique(a: Seq<u64>, b: Seq<u64>)
    requires
        ascending(a),
        ascending(b),
        forall|k: u64| a.contains(k) <==> b.contains(k),
    ensures
        a == b,
    decreases a.len(),
{
    if a.len() == 0 {
        if b.len() > 0 {
            assert(b.contains(b[0]));
        }
        assert(a =~= b);
    } else {
        let top = a.last();
        assert(a.contains(top));
        assert(b.contains(top));
        assert(b.len() > 0);
        assert(b.contains(b.last()));
        assert(a.contains(b.last()));
        assert(b.last() == top);
        let shorter_a = a.drop_last();
        let shorter_b = b.drop_last();
        assert forall|k: u64| shorter_a.contains(k) <==> shorter_b.contains(k) by {
            if shorter_a.contains(k) {
                let i = choose|i: int| 0 <= i < shorter_a.len() && shorter_a[i] == k;
                assert(a[i] == k);
                assert(b.contains(k));
                let j = choose|j: int| 0 <= j < b.len() && b[j] == k;
                assert(shorter_b[j] == k);
            }
            if shorter_b.contains(k) {
                let j = choose|j: int| 0 <= j < shorter_b.len() && shorter_b[j] == k;
                assert(b[j] == k);
                assert(a.contains(k));
                let i = choose|i: int| 0 <= i < a.len() && a[i] == k;
                assert(shorter_a[i] == k);
            }
        }
        lemma_ascending_unique(shorter_a, shorter_b);
        assert(a =~= shorter_a.push(top));
        assert(b =~= shorter_b.push(top));
    }
}

/// A finite set that is not empty has a greatest member.
pub proof fn lemma_has_greatest(dom: Set<u64>)
    requires
        dom.finite(),
        dom.len() > 0,
    ensures
        exists|top: u64| dom.contains(top) && forall|k: u64| dom.contains(k) ==> k <= top,
    decreases dom.len(),
{
    let x = dom.choose();
    let rest = dom.remove(x);
    if rest.len() == 0 {
        assert forall|k: u64| dom.contains(k) implies k <= x by {
            if k != x {
                assert(rest.contains(k));
            }
        }
    } else {
        lemma_has_greatest(rest);
        let other = choose|top: u64|
            rest.contains(top) && forall|k: u64| rest.contains(k) ==> k <= top;
        let top = if x > other {
            x
        } else {
            other
        };
        assert forall|k: u64| dom.contains(k) implies k <= top by {
            if k != x {
                assert(rest.contains(k));
            }
        }
    }
}

/// The members of a finite set can be put in ascending order.
pub proof fn lemma_sorted_keys_exist(dom: Set<u64>)
    requires
        dom.finite(),
    ensures
        exists|keys: Seq<u64>| ascending(keys) && lists(keys, dom),
    decreases dom.len(),
{
    if dom.len() == 0 {
        let keys = Seq::<u64>::empty();
        assert forall|k: u64| keys.contains(k) <==> dom.contains(k) by {
            if dom.contains(k) {
                assert(dom.len() != 0);
            }
        }
        assert(ascending(keys) && lists(keys, dom));
    } else {
        lemma_has_greatest(dom);
        let top = choose|top: u64|
            dom.contains(top) && forall|k: u64| dom.contains(k) ==> k <= top;
        let rest = dom.remove(top);
        lemma_sorted_keys_exist(rest);
        let shorter = choose|keys: Seq<u64>| ascending(keys) && lists(keys, rest);
        let keys = shorter.push(top);
        assert forall|i: int, j: int| 0 <= i < j < keys.len() implies keys[i] < keys[j] by {
            assert(shorter.contains(shorter[i]));
            assert(rest.contains(shorter[i]));
        }
        assert forall|k: u64| keys.contains(k) <==> dom.contains(k) by {
            if keys.contains(k) {
                let i = choose|i: int| 0 <= i < keys.len() && keys[i] == k;
                if i < shorter.len() {
                    assert(shorter.contains(shorter[i]));
                }
            }
            if dom.contains(k) {
                if k == top {
                    assert(keys[shorter.len() as int] == k);
                } else {
                    assert(rest.contains(k));
                    assert(shorter.contains(k));
                    let i = choose|i: int| 0 <= i < shorter.len() && shorter[i] == k;
                    assert(keys[i] == k);
                }
            }
        }
        assert(ascending(keys) && lists(keys, dom));
    }
}

/// An ascending sequence that lists a finite set is as long as the set is
/// large.
pub proof fn lemma_listing_len(keys: Seq<u64>, dom: Set<u64>)
    requires
        dom.finite(),
        ascending(keys),
        lists(keys, dom),
    ensures
        keys.len() == dom.len(),
    decreases keys.len(),
{
    if keys.len() == 0 {
        if dom.len() != 0 {
            assert(dom.contains(dom.choose()));
            assert(keys.contains(dom.choose()));
        }
    } else {
        let top = keys.last();
        let shorter = keys.drop_last();
        let rest = dom.remove(top);
        assert(keys.contains(top));
        assert forall|k: u64| shorter.contains(k) <==> rest.contains(k) by {
            if shorter.contains(k) {
                let i = choose|i: int| 0 <= i < shorter.len() && shorter[i] == k;
                assert(keys[i] == k);
                assert(keys.contains(k));
            }
            if rest.contains(k) {
                assert(keys.contains(k));
                let i = choose|i: int| 0 <= i < keys.len() && keys[i] == k;
                assert(shorter[i] == k);
            }
        }
        lemma_listing_len(shorter, rest);
    }
}

/// What the sorted keys of a finite set are: ascending, the members of the
/// set and nothing else, and as many as the set has members.
pub proof fn lemma_sorted_keys(dom: Set<u64>)
    requires
        dom.finite(),
    ensures
        ascending(sorted_keys(dom)),
        lists(sorted_keys(dom), dom),
        sorted_keys(dom).len() == dom.len(),
{
    lemma_sorted_keys_exist(dom);
    lemma_listing_len(sorted_keys(dom), dom);
}

/// A pair is its first part, then its second.
impl<A: Checksum, B: Checksum> Checksum for (A, B) {
    open spec fn encoding(v: (A::V, B::V)) -> Seq<u8> {
        A::encoding(v.0) + B::encoding(v.1)
    }

    fn checksum(&self, state: &mut ChecksumHasher) {
        self.0.checksum(state);
        self.1.checksum(state);
        proof {
            lemma_concat_assoc(
                old(state)@,
                A::encoding(self.0.deep_view()),
                B::encoding(self.1.deep_view()),
            );
        }
    }

    proof fn lemma_prefix_free(a: &Self, b: &Self, rest_a: Seq<u8>, rest_b: Seq<u8>) {
        let after_first_a = B::encoding(a.1.deep_view()) + rest_a;
        let after_first_b = B::encoding(b.1.deep_view()) + rest_b;
        lemma_concat_assoc(A::encoding(a.0.deep_view()), B::encoding(a.1.deep_view()), rest_a);
        lemma_concat_assoc(A::encoding(b.0.deep_view()), B::encoding(b.1.deep_view()), rest_b);
        A::lemma_prefix_free(&a.0, &b.0, after_first_a, after_first_b);
        B::lemma_prefix_free(&a.1, &b.1, rest_a, rest_b);
    }
}

/// The content of a map of integer keys: it has the keys of the map, and under
/// each key the content of the value found there.
pub proof fn lemma_map_content<V: DeepView>(m: &BTreeMap<u64, V>)
    ensures
        m@.dom().finite(),
        m.deep_view().dom() == m@.dom(),
        forall|k: u64| m@.contains_key(k) ==> #[trigger] m.deep_view()[k] == m@[k].deep_view(),
{
    assert(injective(|k: u64| k.deep_view()));
    lemma_btree_map_deepview_properties(*m);
    assert(m.deep_view().dom() =~= m@.dom()) by {
        assert forall|k: u64| m.deep_view().dom().contains(k) <==> m@.dom().contains(k) by {
            if m@.contains_key(k) {
                assert(m.deep_view().contains_key(k.deep_view()));
            }
            if m.deep_view().contains_key(k) {
                let orig = choose|orig: u64| orig.deep_view() == k && m@.contains_key(orig);
                assert(orig == k);
            }
        }
    }
    assert forall|k: u64| m@.contains_key(k) implies #[trigger] m.deep_view()[k]
        == m@[k].deep_view() by {
        assert(m.deep_view()[k.deep_view()] == m@[k].deep_view());
    }
}

/// Two maps of integer keys with the same entries have the same content,
/// however each of them was filled.
pub proof fn lemma_same_view_same_content<V: DeepView>(a: &BTreeMap<u64, V>, b: &BTreeMap<u64, V>)
    requires
        a@ == b@,
    ensures
        a.deep_view() == b.deep_view(),
{
    lemma_map_content(a);
    lemma_map_content(b);
    assert(a.deep_view() =~= b.deep_view());
}

/// The entries of a map by ascending key, as the values they are.
pub open spec fn walk_order<V>(m: &BTreeMap<u64, V>) -> Seq<(u64, V)> {
    sorted_entries(m@)
}

/// The sorted entries of a map's content are the contents of the map's sorted
/// entries.
pub proof fn lemma_sorted_entries_content<V: DeepView>(m: &BTreeMap<u64, V>)
    ensures
        sorted_entries(m.deep_view()) == walk_order(m).map_values(
            |entry: (u64, V)| entry.deep_view(),
        ),
        walk_order(m).len() == m@.dom().len(),
{
    lemma_map_content(m);
    lemma_sorted_keys(m@.dom());
    let keys = sorted_keys(m@.dom());
    assert(sorted_entries(m.deep_view()) =~= walk_order(m).map_values(
        |entry: (u64, V)| entry.deep_view(),
    )) by {
        assert forall|i: int| 0 <= i < keys.len() implies m@.contains_key(#[trigger] keys[i]) by {
            assert(keys.contains(keys[i]));
        }
    }
}

/// Integer keys are ordered as integers are.
pub proof fn lemma_integer_keys_are_ordered()
    ensures
        key_obeys_cmp_spec::<u64>(),
{
    assert(obeys_cmp::<u64>());
}

/// A walk that goes by increasing key and meets every entry of the map meets
/// the entries in the map's sorted order.
pub proof fn lemma_walk_is_sorted<V>(m: &BTreeMap<u64, V>, walk: Seq<(&u64, &V)>)
    requires
        increasing_seq(walk.map_values(|kv: (&u64, &V)| *kv.0)),
        forall|i: int|
            0 <= i < walk.len() ==> m@.contains_key(*(#[trigger] walk[i]).0) && m@[*walk[i].0]
                == *walk[i].1,
        forall|k: u64| #[trigger] m@.contains_key(k) ==> walk.contains((&k, &m@[k])),
    ensures
        walk.len() == walk_order(m).len(),
        forall|i: int|
            0 <= i < walk.len() ==> (*(#[trigger] walk[i]).0, *walk[i].1) == walk_order(m)[i],
{
    lemma_integer_keys_are_ordered();
    let keys = walk.map_values(|kv: (&u64, &V)| *kv.0);
    assert forall|i: int, j: int| 0 <= i < j < keys.len() implies keys[i] < keys[j] by {
        assert(keys[i].cmp_spec(&keys[j]) is Less);
    }
    assert forall|k: u64| keys.contains(k) <==> m@.dom().contains(k) by {
        if keys.contains(k) {
            let i = choose|i: int| 0 <= i < keys.len() && keys[i] == k;
            assert(m@.contains_key(*walk[i].0));
        }
        if m@.dom().contains(k) {
            assert(m@.contains_key(k));
            let entry = (&k, &m@[k]);
            assert(walk.contains(entry));
            let i = choose|i: int| 0 <= i < walk.len() && walk[i] == entry;
            assert(keys[i] == k);
        }
    }
    assert(m@.dom().finite());
    lemma_sorted_keys(m@.dom());
    lemma_ascending_unique(keys, sorted_keys(m@.dom()));
    assert forall|i: int| 0 <= i < walk.len() implies (*(#[trigger] walk[i]).0, *walk[i].1)
        == walk_order(m)[i] by {
        assert(keys[i] == *walk[i].0);
    }
}

/// A map is the number of its entries as a 64-bit integer, then its entries
/// by ascending key, each key before its value.
impl<V: Checksum> Checksum for BTreeMap<u64, V> {
    open spec fn encoding(m: Map<u64, V::V>) -> Seq<u8> {
        list_encoding::<(u64, V)>(sorted_entries(m))
    }

    fn checksum(&self, state: &mut ChecksumHasher) {
        proof {
            lemma_integer_keys_are_ordered();
            lemma_sorted_entries_content(self);
        }
        state.write_len(self.len());
        let ghost start = state@;
        let ghost entries = sorted_entries(self.deep_view());
        let ghost order = walk_order(self);
        let iter = self.iter();
        let ghost walk = iter.remaining();
        proof {
            lemma_walk_is_sorted(self, walk);
            assert(entries.take(0) =~= Seq::empty());
        }
        for entry in it: iter
            invariant
                it.seq() == walk,
                walk.len() == order.len(),
                forall|i: int|
                    0 <= i < walk.len() ==> (*(#[trigger] walk[i]).0, *walk[i].1) == order[i],
                entries == order.map_values(|entry: (u64, V)| entry.deep_view()),
                state@ == start + seq_encoding::<(u64, V)>(entries.take(it.index())),
        {
            let ghost done = it.index();
            let ghost before = state@;
            let (key, value) = entry;
            key.checksum(state);
            value.checksum(state);
            proof {
                let item = entries[done];
                assert(entry == walk[done]);
                assert(item == (*key, value.deep_view()));
                lemma_concat_assoc(before, u64::encoding(item.0), V::encoding(item.1));
                lemma_seq_encoding_push::<(u64, V)>(entries.take(done), item);
                assert(entries.take(done + 1) =~= entries.take(done).push(item));
                lemma_concat_assoc(
                    start,
                    seq_encoding::<(u64, V)>(entries.take(done)),
                    <(u64, V)>::encoding(item),
                );
            }
        }
        proof {
            assert(entries.take(entries.len() as int) =~= entries);
            lemma_concat_assoc(
                old(state)@,
                u64_le_bytes(entries.len() as u64),
                seq_encoding::<(u64, V)>(entries),
            );
        }
    }

    proof fn lemma_prefix_free(a: &Self, b: &Self, rest_a: Seq<u8>, rest_b: Seq<u8>) {
        lemma_integer_keys_are_ordered();
        lemma_map_content(a);
        lemma_map_content(b);
        lemma_sorted_entries_content(a);
        lemma_sorted_entries_content(b);
        assert(a@.dom().len() == a.len() && b@.dom().len() == b.len());
        lemma_list_prefix_free::<(u64, V)>(walk_order(a), walk_order(b), rest_a, rest_b);
        lemma_sorted_keys(a@.dom());
        lemma_sorted_keys(b@.dom());
        lemma_same_entries_same_map(a.deep_view(), b.deep_view());
    }
}

/// Two finite maps with the same sorted entries are the same map.
pub proof fn lemma_same_entries_same_map<X>(a: Map<u64, X>, b: Map<u64, X>)
    requires
        a.dom().finite(),
        b.dom().finite(),
        sorted_entries(a) == sorted_entries(b),
    ensures
        a == b,
{
    lemma_sorted_keys(a.dom());
    lemma_sorted_keys(b.dom());
    let keys_a = sorted_keys(a.dom());
    let keys_b = sorted_keys(b.dom());
    let entries = sorted_entries(a);
    assert(keys_a.len() == entries.len() && keys_b.len() == entries.len());
    assert forall|i: int| 0 <= i < entries.len() implies keys_a[i] == keys_b[i] && a[keys_a[i]]
        == b[keys_a[i]] by {
        assert(sorted_entries(a)[i] == (keys_a[i], a[keys_a[i]]));
        assert(sorted_entries(b)[i] == (keys_b[i], b[keys_b[i]]));
    }
    assert(keys_a =~= keys_b);
    assert(a =~= b) by {
        assert forall|k: u64| a.dom().contains(k) <==> b.dom().contains(k) by {
            assert(keys_a.contains(k) <==> a.dom().contains(k));
            assert(keys_b.contains(k) <==> b.dom().contains(k));
        }
        assert forall|k: u64| a.dom().contains(k) implies a[k] == b[k] by {
            assert(keys_a.contains(k));
            let i = choose|i: int| 0 <= i < keys_a.len() && keys_a[i] == k;
            assert(a[keys_a[i]] == b[keys_a[i]]);
        }
    }
}

} // verus!
