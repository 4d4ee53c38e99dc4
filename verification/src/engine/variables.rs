//! The variable store: the names that the user has bound, each to one value.

use crate::assoc::{
    distinct_keys, has_key, lemma_push_is_insert, lemma_remove_is_remove, lemma_to_map_domain,
    lemma_to_map_value, lemma_update_is_insert, to_map,
};
use crate::engine::types::VariableStore;
use vstd::prelude::*;

verus! {

/// What a lookup of `key` in `bindings` gives: the value bound to it, if any.
pub open spec fn lookup(bindings: Map<Seq<char>, Seq<char>>, key: Seq<char>) -> Option<
    Seq<char>,
> {
    if bindings.contains_key(key) {
        Some(bindings[key])
    } else {
        None
    }
}

/// The index of the pair with the key `key`, or the length of the list.
pub open spec fn position(pairs: Seq<(Seq<char>, Seq<char>)>, key: Seq<char>) -> int
    decreases pairs.len(),
{
    if pairs.len() == 0 {
        0
    } else if pairs[0].0 == key {
        0
    } else {
        1 + position(pairs.drop_first(), key)
    }
}

/// The list after `key` has been bound to `value`: the pair of `key` holds
/// the new value where the list has one, and stands at the end where not.
pub open spec fn bind(pairs: Seq<(Seq<char>, Seq<char>)>, key: Seq<char>, value: Seq<char>) -> Seq<
    (Seq<char>, Seq<char>),
> {
    let i = position(pairs, key);
    if i < pairs.len() {
        pairs.update(i, (key, value))
    } else {
        pairs.push((key, value))
    }
}

/// The list without the pair of `key`.
pub open spec fn unbind(pairs: Seq<(Seq<char>, Seq<char>)>, key: Seq<char>) -> Seq<
    (Seq<char>, Seq<char>),
> {
    let i = position(pairs, key);
    if i < pairs.len() {
        pairs.remove(i)
    } else {
        pairs
    }
}

/// The list that binding the pairs of `pairs` one after the other makes of
/// the empty list.
pub open spec fn bind_all(pairs: Seq<(Seq<char>, Seq<char>)>) -> Seq<(Seq<char>, Seq<char>)>
    decreases pairs.len(),
{
    if pairs.len() == 0 {
        Seq::empty()
    } else {
        bind(bind_all(pairs.drop_last()), pairs.last().0, pairs.last().1)
    }
}

/// The names of the pairs, in order.
pub open spec fn names(pairs: Seq<(Seq<char>, Seq<char>)>) -> Seq<Seq<char>> {
    Seq::new(pairs.len(), |i: int| pairs[i].0)
}

/// `position` finds the first pair with the key, and the length if there is
/// none.
pub proof fn lemma_position(pairs: Seq<(Seq<char>, Seq<char>)>, key: Seq<char>)
    ensures
        0 <= position(pairs, key) <= pairs.len(),
        position(pairs, key) < pairs.len() ==> pairs[position(pairs, key)].0 == key,
        forall|j: int| 0 <= j < position(pairs, key) ==> (#[trigger] pairs[j]).0 != key,
        position(pairs, key) < pairs.len() <==> has_key(pairs, key),
    decreases pairs.len(),
{
    if pairs.len() > 0 && pairs[0].0 != key {
        let rest = pairs.drop_first();
        lemma_position(rest, key);
        assert forall|j: int| 0 <= j < position(pairs, key) implies (#[trigger] pairs[j]).0
            != key by {
            if j > 0 {
                assert(rest[j - 1].0 != key);
            }
        }
        if has_key(rest, key) {
            let i = choose|i: int| 0 <= i < rest.len() && (#[trigger] rest[i]).0 == key;
            assert(pairs[i + 1].0 == key);
        }
        if has_key(pairs, key) {
            let i = choose|i: int| 0 <= i < pairs.len() && (#[trigger] pairs[i]).0 == key;
            assert(rest[i - 1].0 == key);
        }
    }
}

/// Binding a name in a list means inserting it into the map of the list.
pub proof fn lemma_bind(pairs: Seq<(Seq<char>, Seq<char>)>, key: Seq<char>, value: Seq<char>)
    requires
        distinct_keys(pairs),
    ensures
        distinct_keys(bind(pairs, key, value)),
        to_map(bind(pairs, key, value)) == to_map(pairs).insert(key, value),
{
    lemma_position(pairs, key);
    let i = position(pairs, key);
    if i < pairs.len() {
        lemma_update_is_insert(pairs, i, value);
    } else {
        lemma_push_is_insert(pairs, key, value);
    }
}

/// Unbinding a name in a list means removing it from the map of the list.
pub proof fn lemma_unbind(pairs: Seq<(Seq<char>, Seq<char>)>, key: Seq<char>)
    requires
        distinct_keys(pairs),
    ensures
        distinct_keys(unbind(pairs, key)),
        to_map(unbind(pairs, key)) == to_map(pairs).remove(key),
{
    lemma_position(pairs, key);
    let i = position(pairs, key);
    if i < pairs.len() {
        lemma_remove_is_remove(pairs, i);
    } else {
        lemma_to_map_domain(pairs, key);
        assert(to_map(pairs).remove(key) =~= to_map(pairs));
    }
}

/// Binding all pairs of a list gives a list without repeated names that
/// describes the same map.
pub proof fn lemma_bind_all(pairs: Seq<(Seq<char>, Seq<char>)>)
    ensures
        distinct_keys(bind_all(pairs)),
        to_map(bind_all(pairs)) == to_map(pairs),
    decreases pairs.len(),
{
    if pairs.len() > 0 {
        lemma_bind_all(pairs.drop_last());
        lemma_bind(bind_all(pairs.drop_last()), pairs.last().0, pairs.last().1);
    }
}

/// A name that has just been bound gives its value back, a name that has
/// just been unbound gives nothing, and neither step touches another name.
pub proof fn lemma_bind_then_lookup(
    bindings: Map<Seq<char>, Seq<char>>,
    key: Seq<char>,
    value: Seq<char>,
    other: Seq<char>,
)
    ensures
        lookup(bindings.insert(key, value), key) == Some(value),
        lookup(bindings.insert(key, value).remove(key), key) == None::<Seq<char>>,
        lookup(bindings.remove(key), key) == None::<Seq<char>>,
        other != key ==> lookup(bindings.insert(key, value), other) == lookup(bindings, other),
        other != key ==> lookup(bindings.remove(key), other) == lookup(bindings, other),
{
}

/// The variable store of the interpreter: a set of bindings in which every
/// name has one value.
///
/// The store keeps its bindings in the order in which their names were first
/// bound. It is plain data: a caller that shares it between threads puts it
/// behind a lock of its own, and each operation is then one atomic step.
#[derive(Debug)]
pub struct VariableManager {
    store: Vec<(String, String)>,
}

impl View for VariableManager {
    type V = Map<Seq<char>, Seq<char>>;

    /// The bindings as a map from names to values.
    open spec fn view(&self) -> Map<Seq<char>, Seq<char>> {
        to_map(self.entries())
    }
}

impl VariableManager {
    #[verifier::type_invariant]
    spec fn names_are_unique(&self) -> bool {
        distinct_keys(self.store.deep_view())
    }

    /// The bindings in the order in which the store lists them.
    pub closed spec fn entries(&self) -> Seq<(Seq<char>, Seq<char>)> {
        self.store.deep_view()
    }

    /// An empty store.
    pub fn new() -> (manager: Self)
        ensures
            manager.entries() == Seq::<(Seq<char>, Seq<char>)>::empty(),
            manager@ == Map::<Seq<char>, Seq<char>>::empty(),
    {
        let manager = VariableManager { store: Vec::new() };
        assert(manager.store.deep_view() =~= Seq::<(Seq<char>, Seq<char>)>::empty());
        manager
    }

    /// The index of the binding of `key`, or the number of bindings.
    fn find(&self, key: &String) -> (i: usize)
        ensures
            i == position(self.entries(), key@),
            i <= self.store.len(),
    {
        let mut i: usize = 0;
        proof {
            lemma_position(self.entries(), key@);
        }
        while i < self.store.len()
            invariant
                i <= self.store.len(),
                self.store.len() == self.entries().len(),
                self.entries() == self.store.deep_view(),
                forall|j: int| 0 <= j < i ==> (#[trigger] self.entries()[j]).0 != key@,
                0 <= position(self.entries(), key@) <= self.entries().len(),
                position(self.entries(), key@) < self.entries().len() ==> self.entries()[position(
                    self.entries(),
                    key@,
                )].0 == key@,
                forall|j: int|
                    0 <= j < position(self.entries(), key@) ==> (#[trigger] self.entries()[j]).0
                        != key@,
            decreases self.store.len() - i,
        {
            if self.store[i].0 == *key {
                assert(self.entries()[i as int].0 == key@);
                return i;
            }
            assert(self.entries()[i as int].0 != key@);
            i += 1;
        }
        i
    }

    /// Binds `key` to `value`, in place of any value it had.
    pub fn set(&mut self, key: String, value: String)
        ensures
            final(self)@ == old(self)@.insert(key@, value@),
            final(self).entries() == bind(old(self).entries(), key@, value@),
    {
        proof {
            use_type_invariant(&*self);
            lemma_bind(self.entries(), key@, value@);
        }
        let i = self.find(&key);
        let mut taken = VariableManager::new();
        core::mem::swap(self, &mut taken);
        let VariableManager { store: mut store } = taken;
        if i < store.len() {
            store.set(i, (key, value));
            assert(store.deep_view() =~= old(self).store.deep_view().update(
                i as int,
                (key@, value@),
            ));
        } else {
            store.push((key, value));
            assert(store.deep_view() =~= old(self).store.deep_view().push((key@, value@)));
        }
        *self = VariableManager { store };
    }

    /// The value bound to `key`, if any.
    pub fn get(&self, key: &str) -> (value: Option<String>)
        ensures
            value.deep_view() == lookup(self@, key@),
    {
        let key = key.to_owned();
        let i = self.find(&key);
        proof {
            use_type_invariant(self);
            lemma_position(self.entries(), key@);
            lemma_to_map_domain(self.entries(), key@);
            if i < self.store.len() {
                lemma_to_map_value(self.entries(), i as int);
            }
        }
        if i < self.store.len() {
            Some(self.store[i].1.clone())
        } else {
            None
        }
    }

    /// Unbinds `key` and returns the value it had, if any.
    pub fn remove(&mut self, key: &str) -> (value: Option<String>)
        ensures
            value.deep_view() == lookup(old(self)@, key@),
            final(self)@ == old(self)@.remove(key@),
            final(self).entries() == unbind(old(self).entries(), key@),
    {
        let key = key.to_owned();
        let i = self.find(&key);
        proof {
            use_type_invariant(&*self);
            lemma_position(self.entries(), key@);
            lemma_to_map_domain(self.entries(), key@);
            lemma_unbind(self.entries(), key@);
            if i < self.store.len() {
                lemma_to_map_value(self.entries(), i as int);
            }
        }
        if i < self.store.len() {
            let mut taken = VariableManager::new();
            core::mem::swap(self, &mut taken);
            let VariableManager { store: mut store } = taken;
            let pair = store.remove(i);
            assert(store.deep_view() =~= old(self).store.deep_view().remove(i as int));
            *self = VariableManager { store };
            Some(pair.1)
        } else {
            None
        }
    }

    /// A copy of all bindings, in the order in which the store lists them.
    pub fn get_all(&self) -> (snapshot: VariableStore)
        ensures
            snapshot.deep_view() == self.entries(),
            distinct_keys(snapshot.deep_view()),
            to_map(snapshot.deep_view()) == self@,
    {
        proof {
            use_type_invariant(self);
        }
        let mut snapshot: Vec<(String, String)> = Vec::new();
        let mut i: usize = 0;
        while i < self.store.len()
            invariant
                i <= self.store.len(),
                snapshot@.len() == i,
                snapshot.deep_view() == self.store.deep_view().take(i as int),
            decreases self.store.len() - i,
        {
            let ghost before = snapshot;
            snapshot.push((self.store[i].0.clone(), self.store[i].1.clone()));
            i += 1;
            proof {
                let target = self.store.deep_view().take(i as int);
                assert forall|j: int| 0 <= j < i implies snapshot.deep_view()[j] == target[j] by {
                    if j < i - 1 {
                        assert(snapshot@[j] == before@[j]);
                        assert(before.deep_view()[j] == self.store.deep_view().take(i - 1)[j]);
                    }
                }
                assert(snapshot.deep_view() =~= target);
            }
        }
        assert(self.store.deep_view().take(i as int) =~= self.store.deep_view());
        snapshot
    }

    /// The store that binding the pairs of `snapshot` one after the other
    /// makes of an empty one: of two pairs with one name the later one
    /// stays, at the place of the earlier.
    pub fn from_snapshot(snapshot: &VariableStore) -> (manager: Self)
        ensures
            manager@ == to_map(snapshot.deep_view()),
            manager.entries() == bind_all(snapshot.deep_view()),
    {
        let mut manager = VariableManager::new();
        let mut i: usize = 0;
        while i < snapshot.len()
            invariant
                i <= snapshot.len(),
                manager.entries() == bind_all(snapshot.deep_view().take(i as int)),
            decreases snapshot.len() - i,
        {
            manager.set(snapshot[i].0.clone(), snapshot[i].1.clone());
            proof {
                let next = snapshot.deep_view().take(i + 1);
                assert(next.drop_last() =~= snapshot.deep_view().take(i as int));
                assert(next.last() == (snapshot@[i as int].0@, snapshot@[i as int].1@));
            }
            i += 1;
        }
        proof {
            assert(snapshot.deep_view().take(i as int) =~= snapshot.deep_view());
            lemma_bind_all(snapshot.deep_view());
        }
        manager
    }

    /// Discards all bindings and binds the pairs of `new_store` one after the
    /// other, so that of two pairs with one name the later one stays.
    pub fn set_all(&mut self, new_store: VariableStore)
        ensures
            final(self)@ == to_map(new_store.deep_view()),
            final(self).entries() == bind_all(new_store.deep_view()),
    {
        *self = VariableManager::from_snapshot(&new_store);
    }

    /// The names that are bound, in the order in which the store lists them.
    pub fn keys(&self) -> (keys: Vec<String>)
        ensures
            keys.deep_view() == names(self.entries()),
            distinct_keys(self.entries()),
    {
        proof {
            use_type_invariant(self);
        }
        let mut keys: Vec<String> = Vec::new();
        let mut i: usize = 0;
        while i < self.store.len()
            invariant
                i <= self.store.len(),
                keys@.len() == i,
                keys.deep_view() == names(self.store.deep_view().take(i as int)),
            decreases self.store.len() - i,
        {
            let ghost before = keys;
            keys.push(self.store[i].0.clone());
            i += 1;
            proof {
                let target = names(self.store.deep_view().take(i as int));
                assert forall|j: int| 0 <= j < i implies keys.deep_view()[j] == target[j] by {
                    if j < i - 1 {
                        assert(keys@[j] == before@[j]);
                        assert(before.deep_view()[j] == names(
                            self.store.deep_view().take(i - 1),
                        )[j]);
                    }
                }
                assert(keys.deep_view() =~= target);
            }
        }
        assert(self.store.deep_view().take(i as int) =~= self.store.deep_view());
        keys
    }
}

impl Clone for VariableManager {
    fn clone(&self) -> (copy: Self)
        ensures
            copy.entries() == self.entries(),
            copy@ == self@,
    {
        VariableManager { store: self.get_all() }
    }
}

impl Default for VariableManager {
    fn default() -> (manager: Self)
        ensures
            manager@ == Map::<Seq<char>, Seq<char>>::empty(),
    {
        VariableManager::new()
    }
}

} // verus!
