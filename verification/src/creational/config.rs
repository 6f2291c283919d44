//! A store of settings, reached through two functions.  The store is a value
//! that the caller holds and hands in; who holds it decides how far it is
//! shared.

use vstd::prelude::*;

verus! {

/// Settings by key.  No key is held twice.
pub struct ConfigStore {
    entries: Vec<(String, String)>,
}

impl ConfigStore {
    /// The keys held, in the order in which they were first set.
    pub closed spec fn keys(&self) -> Seq<Seq<char>> {
        self.entries@.map_values(|entry: (String, String)| entry.0@)
    }

    /// The values held, each at the place of its key.
    pub closed spec fn values(&self) -> Seq<Seq<char>> {
        self.entries@.map_values(|entry: (String, String)| entry.1@)
    }

    /// No key is held twice.
    pub closed spec fn wf(&self) -> bool {
        self.keys().no_duplicates()
    }

    /// A store that holds nothing.
    pub fn new() -> (store: ConfigStore)
        ensures
            store.wf(),
            store@ == Map::<Seq<char>, Seq<char>>::empty(),
    {
        let store = ConfigStore { entries: Vec::new() };
        proof {
            assert(store@ =~= Map::<Seq<char>, Seq<char>>::empty());
        }
        store
    }

    /// The place at which `key` is held.
    fn position(&self, key: &String) -> (at: Option<usize>)
        ensures
            match at {
                Some(i) => i < self.keys().len() && self.keys()[i as int] == key@,
                None => !self.keys().contains(key@),
            },
    {
        let mut i: usize = 0;
        while i < self.entries.len()
            invariant
                i <= self.entries@.len(),
                forall|j: int| 0 <= j < i ==> self.keys()[j] != key@,
            decreases self.entries@.len() - i,
        {
            if self.entries[i].0 == *key {
                return Some(i);
            }
            i = i + 1;
        }
        None
    }
}

impl View for ConfigStore {
    type V = Map<Seq<char>, Seq<char>>;

    /// The settings as a map from key to value.
    closed spec fn view(&self) -> Map<Seq<char>, Seq<char>> {
        Map::new(
            |key: Seq<char>| self.keys().contains(key),
            |key: Seq<char>| self.values()[self.keys().index_of(key)],
        )
    }
}

/// In a sequence without duplicates, an item is found where it stands.
proof fn lemma_index_of_unique(keys: Seq<Seq<char>>, i: int)
    requires
        keys.no_duplicates(),
        0 <= i < keys.len(),
    ensures
        keys.index_of(keys[i]) == i,
{
    let j = keys.index_of(keys[i]);
    assert(0 <= j < keys.len() && keys[j] == keys[i]);
}

/// Sets `key` to `value` in `store`: a key that was held keeps its place and
/// gets the new value, a new key is added.
pub fn set(store: &mut ConfigStore, key: &str, value: &str)
    requires
        old(store).wf(),
    ensures
        final(store).wf(),
        final(store)@ == old(store)@.insert(key@, value@),
{
    let owned_key = key.to_owned();
    let owned_value = value.to_owned();
    match store.position(&owned_key) {
        Some(i) => {
            store.entries.set(i, (owned_key, owned_value));
            proof {
                assert(store.keys() =~= old(store).keys());
                assert(store.values() =~= old(store).values().update(i as int, value@));
                assert forall|k: Seq<char>| store.keys().contains(k) implies #[trigger] store@[k]
                    == old(store)@.insert(key@, value@)[k] by {
                    let j = choose|j: int| 0 <= j < store.keys().len() && store.keys()[j] == k;
                    lemma_index_of_unique(store.keys(), j);
                    lemma_index_of_unique(store.keys(), i as int);
                }
                assert(store@ =~= old(store)@.insert(key@, value@));
            }
        },
        None => {
            store.entries.push((owned_key, owned_value));
            proof {
                let n = old(store).keys().len() as int;
                assert(store.keys() =~= old(store).keys().push(key@));
                assert(store.values() =~= old(store).values().push(value@));
                assert(store.keys().no_duplicates()) by {
                    assert forall|a: int, b: int|
                        0 <= a < store.keys().len() && 0 <= b < store.keys().len() && a
                            != b implies store.keys()[a] != store.keys()[b] by {
                        if a < n {
                            assert(old(store).keys().contains(old(store).keys()[a]));
                        }
                        if b < n {
                            assert(old(store).keys().contains(old(store).keys()[b]));
                        }
                    }
                }
                assert(store.keys()[n] == key@);
                assert forall|k: Seq<char>|
                    store.keys().contains(k) <==> old(store).keys().contains(k) || k == key@ by {
                    if old(store).keys().contains(k) {
                        let j = choose|j: int| 0 <= j < n && old(store).keys()[j] == k;
                        assert(store.keys()[j] == k);
                    }
                }
                assert forall|k: Seq<char>| store.keys().contains(k) implies #[trigger] store@[k]
                    == old(store)@.insert(key@, value@)[k] by {
                    let j = choose|j: int| 0 <= j < store.keys().len() && store.keys()[j] == k;
                    lemma_index_of_unique(store.keys(), j);
                    if j < n {
                        lemma_index_of_unique(old(store).keys(), j);
                    }
                }
                assert(store@ =~= old(store)@.insert(key@, value@));
            }
        },
    }
}

/// The value that `key` is set to in `store`, if it is set.
pub fn get(store: &ConfigStore, key: &str) -> (value: Option<String>)
    requires
        store.wf(),
    ensures
        match value {
            Some(value) => store@.contains_key(key@) && value@ == store@[key@],
            None => !store@.contains_key(key@),
        },
{
    let owned_key = key.to_owned();
    match store.position(&owned_key) {
        Some(i) => {
            proof {
                lemma_index_of_unique(store.keys(), i as int);
            }
            Some(store.entries[i].1.clone())
        },
        None => None,
    }
}

} // verus!
