//! The key/value store that scripts read and write.

use vstd::prelude::*;
use vstd::hash_map::StringHashMap;

verus! {

/// A failure of the backend that holds the entries.
#[derive(Debug, Clone)]
pub struct StoreError {
    pub message: String,
}

/// A mapping from string keys to string values.
///
/// Implementations may keep the entries anywhere. Whatever the backend, a call
/// that fails leaves the entries as they were.
pub trait Store: Sized {
    /// The entries that the store holds.
    spec fn entries(&self) -> Map<Seq<char>, Seq<char>>;

    /// Whether the backend answers every call. A store for which this holds
    /// never returns an error.
    spec fn dependable(&self) -> bool;

    /// Binds `key` to `value` and returns the value that `key` had before, if
    /// any.
    fn set(&mut self, key: String, value: String) -> (r: Result<Option<String>, StoreError>)
        ensures
            final(self).dependable() == old(self).dependable(),
            old(self).dependable() ==> r is Ok,
            match r {
                Ok(previous) => {
                    &&& final(self).entries() == old(self).entries().insert(key@, value@)
                    &&& match previous {
                        Some(p) => {
                            &&& old(self).entries().contains_key(key@)
                            &&& p@ == old(self).entries()[key@]
                        },
                        None => !old(self).entries().contains_key(key@),
                    }
                },
                Err(_) => final(self).entries() == old(self).entries(),
            },
    ;

    /// Returns the value bound to `key`, if any.
    fn get(&self, key: String) -> (r: Result<Option<String>, StoreError>)
        ensures
            self.dependable() ==> r is Ok,
            r matches Ok(found) ==> match found {
                Some(v) => self.entries().contains_key(key@) && v@ == self.entries()[key@],
                None => !self.entries().contains_key(key@),
            },
    ;

    /// Returns the number of entries. A store that can count its entries
    /// holds finitely many.
    fn len(&self) -> (r: Result<usize, StoreError>)
        ensures
            self.dependable() ==> r is Ok,
            r matches Ok(n) ==> self.entries().dom().finite() && n == self.entries().len(),
    ;
}

/// Binding a key that the store does not hold raises the number of entries by
/// one; binding a key that it holds leaves the number as it is.
pub proof fn lemma_count_after_set(
    entries: Map<Seq<char>, Seq<char>>,
    key: Seq<char>,
    value: Seq<char>,
)
    requires
        entries.dom().finite(),
    ensures
        entries.insert(key, value).dom().finite(),
        entries.insert(key, value).len() == if entries.contains_key(key) {
            entries.len()
        } else {
            entries.len() + 1
        },
{
    assert(entries.insert(key, value).dom() =~= entries.dom().insert(key));
}

/// A store that keeps its entries in memory, in a hash map.
pub struct MemoryStore(StringHashMap<String>);

impl MemoryStore {
    /// The store holds finitely many entries.
    #[verifier::type_invariant]
    spec fn is_finite(&self) -> bool {
        self.0@.dom().finite()
    }

    /// Creates a store without entries.
    pub fn new() -> (store: Self)
        ensures
            store.entries() == Map::<Seq<char>, Seq<char>>::empty(),
            store.dependable(),
    {
        let store = MemoryStore(StringHashMap::new());
        assert(store.entries() =~= Map::<Seq<char>, Seq<char>>::empty());
        store
    }
}

impl Store for MemoryStore {
    closed spec fn entries(&self) -> Map<Seq<char>, Seq<char>> {
        self.0@.map_values(|v: String| v@)
    }

    open spec fn dependable(&self) -> bool {
        true
    }

    fn set(&mut self, key: String, value: String) -> (r: Result<Option<String>, StoreError>) {
        let previous = match self.0.get(key.as_str()) {
            Some(p) => Some(p.clone()),
            None => None,
        };
        proof {
            use_type_invariant(&*self);
        }
        let ghost before = self.0@;
        // The map leaves the store while it is changed, and comes back after.
        let mut map = StringHashMap::new();
        core::mem::swap(&mut self.0, &mut map);
        map.insert(key, value);
        assert(map@.dom() =~= before.dom().insert(key@));
        core::mem::swap(&mut self.0, &mut map);
        assert(self.0@.map_values(|v: String| v@) =~= before.map_values(|v: String| v@).insert(
            key@,
            value@,
        ));
        Ok(previous)
    }

    fn get(&self, key: String) -> (r: Result<Option<String>, StoreError>) {
        match self.0.get(key.as_str()) {
            Some(v) => Ok(Some(v.clone())),
            None => Ok(None),
        }
    }

    fn len(&self) -> (r: Result<usize, StoreError>) {
        proof {
            use_type_invariant(self);
        }
        assert(self.0@.map_values(|v: String| v@).dom() =~= self.0@.dom());
        Ok(self.0.len())
    }
}

} // verus!
