//! The concurrent keyed store's core: a mapping from 32-bit keys to byte
//! values in which every entry carries its own exclusive write guard.
//!
//! The store distinguishes three situations per key — "does not exist",
//! "exists and is free", and "exists and is currently being written" — and
//! each operation reports its outcome through [`DatabaseError`].  A write
//! (`set`) never waits for a held guard: it fails fast with `WriteBlocked`
//! so the caller can signal a transient conflict instead of stalling.
//! Structural changes (`insert`, `remove`) are atomic with respect to the
//! mapping, and `remove` deletes the key together with its guard.

use std::collections::HashMap;

use vstd::prelude::*;

use crate::types::DatabaseError;

verus! {

broadcast use vstd::std_specs::hash::group_hash_axioms;

/// One stored entry: its value and whether its exclusive write guard is
/// currently held.
struct Entry {
    value: Vec<u8>,
    write_held: bool,
}

/// The keyed byte-store.  Its mathematical content is a map from keys to
/// byte sequences ([`View`]) together with the set of keys whose write guard
/// is held ([`Repository::write_locked`]).
pub struct Repository {
    entries: HashMap<u32, Entry>,
}

impl View for Repository {
    type V = Map<u32, Seq<u8>>;

    /// The stored mapping: each present key to its value bytes.
    closed spec fn view(&self) -> Map<u32, Seq<u8>> {
        self.entries@.map_values(|e: Entry| e.value@)
    }
}

impl Repository {
    /// The keys whose exclusive write guard is currently held.
    pub closed spec fn write_locked(self) -> Set<u32> {
        self.entries@.dom().filter(|k: u32| self.entries@[k].write_held)
    }

    /// Every stored value fits in a response frame, whose length field is a
    /// 16-bit integer.
    pub open spec fn wf(self) -> bool {
        forall|k: u32| #[trigger] self@.contains_key(k) ==> self@[k].len() <= 65535
    }

    /// A held write guard always belongs to an existing key: the guard is
    /// part of the entry, and `remove` deletes the two together.
    pub proof fn lemma_write_locked_in_store(self)
        ensures
            forall|k: u32| #[trigger] self.write_locked().contains(k) ==> self@.contains_key(k),
    {
        assert forall|k: u32| #[trigger] self.write_locked().contains(k)
            implies self@.contains_key(k) by {
            assert(self.entries@.dom().contains(k));
        }
    }

    /// Creates an empty store: no keys, no held guards.
    pub fn new() -> (r: Repository)
        ensures
            r@ == Map::<u32, Seq<u8>>::empty(),
            r.write_locked() == Set::<u32>::empty(),
            r.wf(),
    {
        let r = Repository { entries: HashMap::new() };
        proof {
            assert(r@ =~= Map::<u32, Seq<u8>>::empty());
            assert(r.write_locked() =~= Set::<u32>::empty());
        }
        r
    }

    /// Returns a snapshot copy of the value under `id`, or `None` if the key
    /// does not exist.  Never mutates and never fails.
    pub fn get(&self, id: u32) -> (r: Option<Vec<u8>>)
        ensures
            match r {
                Some(v) => self@.contains_key(id) && v@ == self@[id],
                None => !self@.contains_key(id),
            },
    {
        match self.entries.get(&id) {
            Some(e) => {
                let v = e.value.clone();
                proof {
                    assert(v@ =~= e.value@);
                }
                Some(v)
            },
            None => None,
        }
    }

    /// Creates a new key with `data` as its initial value and a free guard.
    /// Fails with `AlreadyExists` — and changes nothing — exactly when the
    /// key is already present; it never overwrites.
    pub fn insert(&mut self, id: u32, data: Vec<u8>) -> (r: Result<(), DatabaseError>)
        requires
            data@.len() <= 65535,
        ensures
            final(self).write_locked() == old(self).write_locked(),
            old(self).wf() ==> final(self).wf(),
            match r {
                Ok(()) => !old(self)@.contains_key(id) && final(self)@ == old(self)@.insert(
                    id,
                    data@,
                ),
                Err(e) => e == DatabaseError::AlreadyExists(id) && old(self)@.contains_key(id)
                    && final(self)@ == old(self)@,
            },
    {
        if self.entries.contains_key(&id) {
            return Err(DatabaseError::AlreadyExists(id));
        }
        self.entries.insert(id, Entry { value: data, write_held: false });
        proof {
            assert(self@ =~= old(self)@.insert(id, data@));
            assert(self.write_locked() =~= old(self).write_locked());
        }
        Ok(())
    }

    /// Replaces the value of an existing, unblocked key.  Fails with
    /// `NotFound` when the key does not exist, and with `WriteBlocked` —
    /// without waiting — when the key's write guard is held; in both failing
    /// cases nothing changes.
    pub fn set(&mut self, id: u32, data: Vec<u8>) -> (r: Result<(), DatabaseError>)
        requires
            data@.len() <= 65535,
        ensures
            final(self).write_locked() == old(self).write_locked(),
            old(self).wf() ==> final(self).wf(),
            match r {
                Ok(()) => old(self)@.contains_key(id) && !old(self).write_locked().contains(id)
                    && final(self)@ == old(self)@.insert(id, data@),
                Err(e) => final(self)@ == old(self)@ && match e {
                    DatabaseError::NotFound(err_id) => err_id == id && !old(self)@.contains_key(id),
                    DatabaseError::WriteBlocked(err_id) => err_id == id && old(self)@.contains_key(id) && old(self).write_locked().contains(id),
                    DatabaseError::AlreadyExists(_) => false,
                },
            },
    {
        match self.entries.get(&id) {
            None => Err(DatabaseError::NotFound(id)),
            Some(e) => {
                if e.write_held {
                    assert(self.write_locked().contains(id));
                    Err(DatabaseError::WriteBlocked(id))
                } else {
                    assert(!self.write_locked().contains(id));
                    self.entries.insert(id, Entry { value: data, write_held: false });
                    proof {
                        assert(self@ =~= old(self)@.insert(id, data@));
                        assert(self.write_locked() =~= old(self).write_locked());
                    }
                    Ok(())
                }
            },
        }
    }

    /// Deletes the key and its guard entirely.  Fails with `NotFound` — and
    /// changes nothing — exactly when the key does not exist.
    pub fn remove(&mut self, id: u32) -> (r: Result<(), DatabaseError>)
        ensures
            final(self).write_locked() == old(self).write_locked().remove(id),
            old(self).wf() ==> final(self).wf(),
            match r {
                Ok(()) => old(self)@.contains_key(id) && final(self)@ == old(self)@.remove(id),
                Err(e) => e == DatabaseError::NotFound(id) && !old(self)@.contains_key(id) && final(self)@ == old(self)@,
            },
    {
        match self.entries.remove(&id) {
            Some(_) => {
                proof {
                    assert(self@ =~= old(self)@.remove(id));
                    assert(self.write_locked() =~= old(self).write_locked().remove(id));
                    if old(self).wf() {
                        assert forall|k: u32| #[trigger] self@.contains_key(k)
                            implies self@[k].len() <= 65535 by {
                            assert(old(self)@.contains_key(k));
                        }
                    }
                }
                Ok(())
            },
            None => {
                proof {
                    assert(self@ =~= old(self)@);
                    assert(self.write_locked() =~= old(self).write_locked().remove(id));
                }
                Err(DatabaseError::NotFound(id))
            },
        }
    }

    /// The non-blocking exclusive write attempt on a key's value guard.
    /// Fails with `NotFound` when the key does not exist and with
    /// `WriteBlocked` — immediately, never queuing — when the guard is
    /// already held; otherwise it acquires the guard.  The mapping itself
    /// never changes.
    pub fn try_write_lock(&mut self, id: u32) -> (r: Result<(), DatabaseError>)
        ensures
            final(self)@ == old(self)@,
            old(self).wf() ==> final(self).wf(),
            match r {
                Ok(()) => old(self)@.contains_key(id) && !old(self).write_locked().contains(id)
                    && final(self).write_locked() == old(self).write_locked().insert(id),
                Err(e) => final(self).write_locked() == old(self).write_locked() && match e {
                    DatabaseError::NotFound(err_id) => err_id == id && !old(self)@.contains_key(id),
                    DatabaseError::WriteBlocked(err_id) => err_id == id && old(self)@.contains_key(id) && old(self).write_locked().contains(id),
                    DatabaseError::AlreadyExists(_) => false,
                },
            },
    {
        match self.entries.remove(&id) {
            None => {
                proof {
                    assert(self@ =~= old(self)@);
                    assert(self.write_locked() =~= old(self).write_locked());
                }
                Err(DatabaseError::NotFound(id))
            },
            Some(e) => {
                if e.write_held {
                    self.entries.insert(id, e);
                    proof {
                        assert(self.entries@ =~= old(self).entries@);
                        assert(old(self).write_locked().contains(id));
                    }
                    Err(DatabaseError::WriteBlocked(id))
                } else {
                    self.entries.insert(id, Entry { value: e.value, write_held: true });
                    proof {
                        assert(self@ =~= old(self)@);
                        assert(self.write_locked() =~= old(self).write_locked().insert(id));
                    }
                    Ok(())
                }
            },
        }
    }

    /// Releases the write guard of `id`, if that key exists and its guard is
    /// held; in every case, afterwards the guard of `id` is not held, and
    /// the mapping itself never changes.
    pub fn write_unlock(&mut self, id: u32)
        ensures
            final(self)@ == old(self)@,
            old(self).wf() ==> final(self).wf(),
            final(self).write_locked() == old(self).write_locked().remove(id),
    {
        match self.entries.remove(&id) {
            None => {
                proof {
                    assert(self@ =~= old(self)@);
                    assert(self.write_locked() =~= old(self).write_locked().remove(id));
                }
            },
            Some(e) => {
                self.entries.insert(id, Entry { value: e.value, write_held: false });
                proof {
                    assert(self@ =~= old(self)@);
                    assert(self.write_locked() =~= old(self).write_locked().remove(id));
                }
            },
        }
    }
}

/// Inserting a value and then reading the same key yields exactly that
/// value: a successful [`Repository::insert`] of `v` under `id` leaves the
/// mapping `store.insert(id, v)`, and [`Repository::get`] returns the
/// mapping's value under the key.  The key being present afterwards is also
/// why a second insert of the same key must fail with `AlreadyExists` and
/// leave the first value unchanged.
pub proof fn lemma_insert_then_get(store: Map<u32, Seq<u8>>, id: u32, v: Seq<u8>)
    ensures
        store.insert(id, v).contains_key(id),
        store.insert(id, v)[id] == v,
{
}

/// Removing a key and then reading it finds nothing: a successful
/// [`Repository::remove`] of `id` leaves the mapping `store.remove(id)`, in
/// which the key is absent, so [`Repository::get`] returns `None`.  On a key
/// that is already absent, `remove`'s own contract makes `NotFound` the only
/// possible outcome.
pub proof fn lemma_remove_then_get(store: Map<u32, Seq<u8>>, id: u32)
    ensures
        !store.remove(id).contains_key(id),
{
}

/// Writing an existing, unblocked key and then reading it yields exactly
/// the written value: a successful [`Repository::set`] of `v` under `id`
/// leaves the mapping `store.insert(id, v)`, whose value under the key is
/// `v`.  On an absent key, `set`'s own contract makes `NotFound` the only
/// possible outcome.
pub proof fn lemma_set_then_get(store: Map<u32, Seq<u8>>, id: u32, v: Seq<u8>)
    ensures
        store.insert(id, v).contains_key(id),
        store.insert(id, v)[id] == v,
{
}

/// Two writes to the same key, applied one after the other — the only way
/// the store's operations apply them, each being atomic — leave exactly the
/// later value: one of the two submitted values, never a mixture of their
/// bytes.  And while one writer holds the guard — the locked set after a
/// successful [`Repository::try_write_lock`] of `id` is
/// `locked.insert(id)`, which contains `id` — a competing
/// [`Repository::set`] or [`Repository::try_write_lock`] on that key
/// observes `WriteBlocked` by their contracts instead of interleaving.
pub proof fn lemma_writes_serialize(
    store: Map<u32, Seq<u8>>,
    locked: Set<u32>,
    id: u32,
    v1: Seq<u8>,
    v2: Seq<u8>,
)
    ensures
        store.insert(id, v1).insert(id, v2)[id] == v2,
        store.insert(id, v1).insert(id, v2)[id] == v1 || store.insert(id, v1).insert(id, v2)[id]
            == v2,
        locked.insert(id).contains(id),
{
}

} // verus!
