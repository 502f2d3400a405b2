//! Where the cache keeps its entries.

use std::collections::HashMap;
use std::hash::Hash;
use vstd::prelude::*;
use vstd::std_specs::hash::obeys_key_model;

verus! {

/// Whether every mapping of `part` is one of `whole`.
pub open spec fn within<K, V>(part: Map<K, V>, whole: Map<K, V>) -> bool {
    forall|key: K| #[trigger]
        part.contains_key(key) ==> whole.contains_key(key) && whole[key] == part[key]
}

/// What a backing may hold after an operation: nothing but `expected`, and all of it where the
/// backing retains what it was given.
pub open spec fn settles<K, V>(expected: Map<K, V>, actual: Map<K, V>, retains: bool) -> bool {
    &&& within(actual, expected)
    &&& retains ==> actual == expected
}

/// What may be handed out for the mapping of `key` in `before`: that mapping's value, or nothing
/// where there is none (or where a backing that evicts has just dropped it).
pub open spec fn hands_out<K, V>(
    before: Map<K, V>,
    key: K,
    retains: bool,
    handed: Option<V>,
) -> bool {
    &&& handed is Some ==> before.get(key) == handed
    &&& retains ==> before.get(key) == handed
}

/// Whether `predicate` can be asked about `mapping`.
pub open spec fn may_judge<K, V, P: Fn((&K, &V)) -> bool>(
    predicate: &P,
    mapping: (&K, &V),
) -> bool {
    call_requires(*predicate, (mapping,))
}

/// Whether `predicate` can be asked about every mapping of `contents`; about any mapping at all
/// where `contents` cannot be relied on.
pub open spec fn may_judge_all<K, V, P: Fn((&K, &V)) -> bool>(
    predicate: &P,
    contents: Map<K, V>,
    faithful: bool,
) -> bool {
    if faithful {
        forall|key: K| #[trigger]
            contents.contains_key(key) ==> may_judge(predicate, (&key, &contents[key]))
    } else {
        forall|mapping: (&K, &V)| #[trigger] may_judge(predicate, mapping)
    }
}

/// Whether `predicate` can answer `verdict` about `mapping`.
pub open spec fn judges<K, V, P: Fn((&K, &V)) -> bool>(
    predicate: &P,
    mapping: (&K, &V),
    verdict: bool,
) -> bool {
    call_ensures(*predicate, (mapping,), verdict)
}

/// What is left of `before` once every mapping that `predicate` accepts is gone: no mapping that
/// it accepted, and each that it rejected unless the backing evicts.
pub open spec fn sifted<K, V, P: Fn((&K, &V)) -> bool>(
    before: Map<K, V>,
    after: Map<K, V>,
    predicate: &P,
    retains: bool,
) -> bool {
    &&& within(after, before)
    &&& forall|key: K|
        #![trigger after.contains_key(key)]
        after.contains_key(key) ==> judges(predicate, (&key, &before[key]), false)
    &&& retains ==> forall|key: K|
        #![trigger before.contains_key(key)]
        #![trigger after.contains_key(key)]
        before.contains_key(key) && !after.contains_key(key) ==> judges(
            predicate,
            (&key, &before[key]),
            true,
        )
}

/// A store of mappings from keys to values, in which the cache keeps its entries.
///
/// A backing may evict: drop mappings on its own whenever it is used, to stay within a size or
/// because their time is over. One that never does is said to retain.
pub trait CacheBacking<K, V> where K: Eq + Hash + Sized + Clone + Send, V: Sized + Clone + Send {
    /// The mappings that the backing holds.
    spec fn contents(&self) -> Map<K, V>;

    /// Whether `contents` can be relied on. It cannot where the backing tells keys apart by
    /// code that does not tell them apart as equality does.
    spec fn faithful(&self) -> bool;

    /// Whether a mapping stays until it is removed.
    spec fn retains(&self) -> bool;

    /// Looks up the value of a key.
    fn get(&mut self, key: &K) -> (r: Option<&V>)
        ensures
            old(self).faithful() ==> {
                &&& final(self).faithful()
                &&& final(self).retains() == old(self).retains()
                &&& settles(old(self).contents(), final(self).contents(), old(self).retains())
                &&& match r {
                    Some(value) => final(self).contents().get(*key) == Some(*value),
                    None => final(self).contents().get(*key) is None,
                }
            },
    ;

    /// Maps a key to a value and hands out the value that it was mapped to before.
    fn set(&mut self, key: K, value: V) -> (r: Option<V>)
        ensures
            old(self).faithful() ==> {
                &&& final(self).faithful()
                &&& final(self).retains() == old(self).retains()
                &&& settles(
                    old(self).contents().insert(key, value),
                    final(self).contents(),
                    old(self).retains(),
                )
                &&& hands_out(old(self).contents(), key, old(self).retains(), r)
            },
    ;

    /// Removes the mapping of a key and hands out its value.
    fn remove(&mut self, key: &K) -> (r: Option<V>)
        ensures
            old(self).faithful() ==> {
                &&& final(self).faithful()
                &&& final(self).retains() == old(self).retains()
                &&& settles(
                    old(self).contents().remove(*key),
                    final(self).contents(),
                    old(self).retains(),
                )
                &&& hands_out(old(self).contents(), *key, old(self).retains(), r)
            },
    ;

    /// Tells whether a key is mapped.
    fn contains_key(&self, key: &K) -> (r: bool)
        ensures
            self.faithful() ==> r == self.contents().contains_key(*key),
    ;

    /// Removes every mapping that the predicate accepts.
    fn remove_if<P: Fn((&K, &V)) -> bool>(&mut self, predicate: P)
        requires
            may_judge_all(&predicate, old(self).contents(), old(self).faithful()),
        ensures
            old(self).faithful() ==> {
                &&& final(self).faithful()
                &&& final(self).retains() == old(self).retains()
                &&& sifted(
                    old(self).contents(),
                    final(self).contents(),
                    &predicate,
                    old(self).retains(),
                )
            },
    ;

    /// Removes every mapping.
    fn clear(&mut self)
        ensures
            old(self).faithful() ==> {
                &&& final(self).faithful()
                &&& final(self).retains() == old(self).retains()
                &&& final(self).contents() == Map::<K, V>::empty()
            },
    ;
}

/// `HashMap::retain` keeps the mappings for which its closure returns `true` and removes those
/// for which it returns `false`; it changes no value, as the closure is given none to change.
///
/// Stated where the keys' `Eq` and `Hash` agree with equality, without which the contents of a
/// `HashMap` are not modelled.
#[verifier::external_body]
fn retain<K, V, P: Fn((&K, &V)) -> bool>(map: &mut HashMap<K, V>, keep: P)
    requires
        may_judge_all(&keep, old(map)@, obeys_key_model::<K>()),
    ensures
        obeys_key_model::<K>() ==> {
            &&& within(final(map)@, old(map)@)
            &&& forall|key: K| #[trigger]
                old(map)@.contains_key(key) ==> call_ensures(
                    keep,
                    ((&key, &old(map)@[key]),),
                    final(map)@.contains_key(key),
                )
        },
{
    map.retain(|key, value| keep((key, &*value)))
}

/// The default backing: a hash map, which keeps every entry until it is removed.
pub struct HashMapBacking<K, V> {
    map: HashMap<K, V>,
}

impl<K, V> HashMapBacking<K, V> where
    K: Eq + Hash + Sized + Clone + Send,
    V: Sized + Clone + Send,
 {
    /// An empty backing.
    pub fn new() -> (r: HashMapBacking<K, V>)
        ensures
            r.contents() == Map::<K, V>::empty(),
            r.retains(),
            r.faithful() == obeys_key_model::<K>(),
    {
        HashMapBacking { map: HashMap::new() }
    }
}

impl<K, V> CacheBacking<K, V> for HashMapBacking<K, V> where
    K: Eq + Hash + Sized + Clone + Send,
    V: Sized + Clone + Send,
 {
    closed spec fn contents(&self) -> Map<K, V> {
        self.map@
    }

    open spec fn faithful(&self) -> bool {
        obeys_key_model::<K>()
    }

    open spec fn retains(&self) -> bool {
        true
    }

    fn get(&mut self, key: &K) -> (r: Option<&V>) {
        broadcast use vstd::std_specs::hash::group_hash_axioms;

        self.map.get(key)
    }

    fn set(&mut self, key: K, value: V) -> (r: Option<V>) {
        broadcast use vstd::std_specs::hash::group_hash_axioms;

        self.map.insert(key, value)
    }

    fn remove(&mut self, key: &K) -> (r: Option<V>) {
        broadcast use vstd::std_specs::hash::group_hash_axioms;

        self.map.remove(key)
    }

    fn contains_key(&self, key: &K) -> (r: bool) {
        broadcast use vstd::std_specs::hash::group_hash_axioms;

        self.map.contains_key(key)
    }

    fn remove_if<P: Fn((&K, &V)) -> bool>(&mut self, predicate: P) {
        let keep = |mapping: (&K, &V)| -> (b: bool)
            requires
                may_judge(&predicate, mapping),
            ensures
                judges(&predicate, mapping, !b),
            { !predicate(mapping) };
        retain(&mut self.map, keep);
        proof {
            if obeys_key_model::<K>() {
                let before = old(self).contents();
                let after = self.contents();
                assert forall|key: K| #[trigger] before.contains_key(key) implies judges(
                    &predicate,
                    (&key, &before[key]),
                    !after.contains_key(key),
                ) by {
                    assert(call_ensures(keep, ((&key, &before[key]),), after.contains_key(key)));
                }
            }
        }
    }

    fn clear(&mut self) {
        self.map.clear();
    }
}

} // verus!
