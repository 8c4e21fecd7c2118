use vstd::prelude::*;

use crate::types::SeetleError;

verus! {

/// The value a lookup of `key` in `items` gives: the stored bytes, if any.
pub open spec fn lookup(items: Map<Seq<char>, Seq<u8>>, key: Seq<char>) -> Option<Seq<u8>> {
    if items.dom().contains(key) {
        Some(items[key])
    } else {
        None
    }
}

/// The bytes an optional vector holds.
pub open spec fn bytes_of(o: Option<Vec<u8>>) -> Option<Seq<u8>> {
    match o {
        Some(v) => Some(v@),
        None => None,
    }
}

/// `names` lists the keys of `items`, each once.
pub open spec fn lists_keys(names: Seq<String>, items: Map<Seq<char>, Seq<u8>>) -> bool {
    &&& forall|i: int, j: int|
        0 <= i < names.len() && 0 <= j < names.len() && i != j ==> names[i]@ != names[j]@
    &&& forall|i: int| 0 <= i < names.len() ==> items.dom().contains(#[trigger] names[i]@)
    &&& forall|k: Seq<char>|
        items.dom().contains(k) ==> exists|i: int| 0 <= i < names.len() && #[trigger] names[i]@ == k
}

/// Persistent key/value storage for key metadata.
///
/// Each store is modelled by the map `items` from keys to the bytes that a
/// read of the key returns.
pub trait SecureStorage {
    /// The store's own well-formedness.
    spec fn wf(&self) -> bool;

    /// What a read of each key returns.
    spec fn items(&self) -> Map<Seq<char>, Seq<u8>>;

    /// The store answers every request: reads, writes, removals and
    /// listings all succeed. A store that can fail (one on a device or a
    /// service) is not available.
    spec fn available(&self) -> bool;

    /// Retrieves the value stored under `key`.
    fn get_item(&self, key: &str) -> (r: Result<Option<Vec<u8>>, SeetleError>)
        requires
            self.wf(),
        ensures
            r matches Ok(o) ==> bytes_of(o) == lookup(self.items(), key@),
            self.available() ==> r is Ok,
    ;

    /// Stores `value` under `key`.
    fn set_item(&mut self, key: &str, value: Vec<u8>) -> (r: Result<(), SeetleError>)
        requires
            old(self).wf(),
        ensures
            final(self).wf(),
            r is Ok ==> final(self).items() == old(self).items().insert(key@, value@),
            r is Err ==> final(self).items() == old(self).items(),
            old(self).available() ==> r is Ok,
            final(self).available() == old(self).available(),
    ;

    /// Deletes the value stored under `key`.
    fn remove_item(&mut self, key: &str) -> (r: Result<(), SeetleError>)
        requires
            old(self).wf(),
        ensures
            final(self).wf(),
            r is Ok ==> final(self).items() == old(self).items().remove(key@),
            r is Err ==> final(self).items() == old(self).items(),
            old(self).available() ==> r is Ok,
            final(self).available() == old(self).available(),
    ;

    /// Lists all keys stored.
    fn list_items(&self) -> (r: Result<Vec<String>, SeetleError>)
        requires
            self.wf(),
        ensures
            r matches Ok(names) ==> lists_keys(names@, self.items()),
            self.available() ==> r is Ok,
    ;
}

/// An in-memory implementation of `SecureStorage`.
pub struct MemoryStorage {
    keys: Vec<String>,
    values: Vec<Vec<u8>>,
    contents: Ghost<Map<Seq<char>, Seq<u8>>>,
}

impl MemoryStorage {
    /// The entries agree with the map, one entry per key.
    pub closed spec fn inv(&self) -> bool {
        &&& self.keys@.len() == self.values@.len()
        &&& forall|i: int, j: int|
            0 <= i < self.keys@.len() && 0 <= j < self.keys@.len() && i != j
                ==> self.keys@[i]@ != self.keys@[j]@
        &&& forall|i: int|
            0 <= i < self.keys@.len() ==> self.contents@.dom().contains(#[trigger] self.keys@[i]@)
                && self.contents@[self.keys@[i]@] == self.values@[i]@
        &&& forall|k: Seq<char>|
            self.contents@.dom().contains(k) ==> exists|i: int|
                0 <= i < self.keys@.len() && #[trigger] self.keys@[i]@ == k
    }

    pub closed spec fn contents(&self) -> Map<Seq<char>, Seq<u8>> {
        self.contents@
    }

    /// Creates an empty store.
    pub fn new() -> (s: Self)
        ensures
            s.wf(),
            s.items() == Map::<Seq<char>, Seq<u8>>::empty(),
    {
        MemoryStorage { keys: Vec::new(), values: Vec::new(), contents: Ghost(Map::empty()) }
    }

    /// The position of `key` among the entries.
    fn position(&self, key: &str) -> (r: Option<usize>)
        requires
            self.inv(),
        ensures
            r matches Some(i) ==> i < self.keys@.len() && self.keys@[i as int]@ == key@,
            r is None ==> !self.contents@.dom().contains(key@),
    {
        let wanted = String::from_str(key);
        let mut i: usize = 0;
        while i < self.keys.len()
            invariant
                self.inv(),
                wanted@ == key@,
                i <= self.keys@.len(),
                forall|j: int| 0 <= j < i ==> self.keys@[j]@ != key@,
            decreases self.keys@.len() - i,
        {
            if self.keys[i] == wanted {
                return Some(i);
            }
            i = i + 1;
        }
        None
    }
}

impl Default for MemoryStorage {
    fn default() -> (s: Self)
        ensures
            s.wf(),
            s.items() == Map::<Seq<char>, Seq<u8>>::empty(),
    {
        MemoryStorage::new()
    }
}

impl SecureStorage for MemoryStorage {
    open spec fn wf(&self) -> bool {
        self.inv()
    }

    open spec fn items(&self) -> Map<Seq<char>, Seq<u8>> {
        self.contents()
    }

    open spec fn available(&self) -> bool {
        true
    }

    fn get_item(&self, key: &str) -> (r: Result<Option<Vec<u8>>, SeetleError>)
        ensures
            r is Ok,
    {
        match self.position(key) {
            Some(i) => {
                let v = self.values[i].clone();
                assert(v@ =~= self.values@[i as int]@);
                Ok(Some(v))
            },
            None => Ok(None),
        }
    }

    fn set_item(&mut self, key: &str, value: Vec<u8>) -> (r: Result<(), SeetleError>)
        ensures
            r is Ok,
    {
        let ghost new_contents = self.contents@.insert(key@, value@);
        match self.position(key) {
            Some(i) => {
                let ghost old_keys = self.keys@;
                self.values.set(i, value);
                self.contents = Ghost(new_contents);
                assert(self.keys@ == old_keys);
                assert forall|k: Seq<char>| self.contents@.dom().contains(k) implies exists|j: int|
                    0 <= j < self.keys@.len() && #[trigger] self.keys@[j]@ == k by {
                    if k != key@ {
                        assert(old(self).contents@.dom().contains(k));
                    } else {
                        assert(self.keys@[i as int]@ == k);
                    }
                }
            },
            None => {
                self.keys.push(String::from_str(key));
                self.values.push(value);
                self.contents = Ghost(new_contents);
                let ghost n = (self.keys@.len() - 1) as int;
                assert(self.keys@[n]@ == key@);
                assert forall|k: Seq<char>| self.contents@.dom().contains(k) implies exists|j: int|
                    0 <= j < self.keys@.len() && #[trigger] self.keys@[j]@ == k by {
                    if k != key@ {
                        assert(old(self).contents@.dom().contains(k));
                        let j = choose|j: int|
                            0 <= j < old(self).keys@.len() && #[trigger] old(self).keys@[j]@ == k;
                        assert(self.keys@[j]@ == k);
                    } else {
                        assert(self.keys@[n]@ == k);
                    }
                }
            },
        }
        assert(self.contents() == old(self).items().insert(key@, value@));
        Ok(())
    }

    fn remove_item(&mut self, key: &str) -> (r: Result<(), SeetleError>)
        ensures
            r is Ok,
    {
        match self.position(key) {
            Some(i) => {
                let ghost old_keys = self.keys@;
                let ghost old_values = self.values@;
                self.keys.remove(i);
                self.values.remove(i);
                self.contents = Ghost(self.contents@.remove(key@));
                assert forall|j: int|
                    0 <= j < self.keys@.len() implies self.contents@.dom().contains(
                    #[trigger] self.keys@[j]@)
                    && self.contents@[self.keys@[j]@] == self.values@[j]@ by {
                    if j < i {
                        assert(self.keys@[j] == old_keys[j]);
                    } else {
                        assert(self.keys@[j] == old_keys[j + 1]);
                        assert(self.values@[j] == old_values[j + 1]);
                    }
                }
                assert forall|k: Seq<char>| self.contents@.dom().contains(k) implies exists|j: int|
                    0 <= j < self.keys@.len() && #[trigger] self.keys@[j]@ == k by {
                    let j = choose|j: int|
                        0 <= j < old_keys.len() && #[trigger] old_keys[j]@ == k;
                    if j < i {
                        assert(self.keys@[j]@ == k);
                    } else {
                        assert(j != i);
                        assert(self.keys@[j - 1]@ == k);
                    }
                }
            },
            None => {
                assert(self.contents@.remove(key@) =~= self.contents@);
            },
        }
        Ok(())
    }

    fn list_items(&self) -> (r: Result<Vec<String>, SeetleError>)
        ensures
            r is Ok,
    {
        let names = self.keys.clone();
        assert forall|i: int| 0 <= i < names@.len() implies #[trigger] names@[i] == self.keys@[i] by {
            assert(cloned::<String>(self.keys[i], names[i]));
        }
        Ok(names)
    }
}

/// A read after a write of `key` gives what was written; a read after a
/// removal gives nothing; other keys read as before either way.
pub proof fn law_read_after_write(
    items: Map<Seq<char>, Seq<u8>>,
    key: Seq<char>,
    value: Seq<u8>,
    other: Seq<char>,
)
    requires
        other != key,
    ensures
        lookup(items.insert(key, value), key) == Some(value),
        lookup(items.remove(key), key) is None,
        lookup(items.insert(key, value), other) == lookup(items, other),
        lookup(items.remove(key), other) == lookup(items, other),
{
}

} // verus!
