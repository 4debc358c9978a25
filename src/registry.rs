use vstd::prelude::*;

use crate::error::KeyError;
use crate::key::{ApplicationEncryptionKey, ApplicationIdentity};

verus! {

/// Mapping from application identity to the key material issued to it.
/// Each identity holds at most one entry.
pub struct KeyRegistry {
    entries: Vec<(ApplicationIdentity, ApplicationEncryptionKey)>,
    contents: Ghost<Map<Seq<u8>, ApplicationEncryptionKey>>,
}

impl View for KeyRegistry {
    type V = Map<Seq<u8>, ApplicationEncryptionKey>;

    closed spec fn view(&self) -> Map<Seq<u8>, ApplicationEncryptionKey> {
        self.contents@
    }
}

impl KeyRegistry {
    /// The entries name distinct identities, and the map holds exactly them.
    pub closed spec fn wf(&self) -> bool {
        &&& forall|i: int, j: int|
            0 <= i < j < self.entries@.len() ==> (#[trigger] self.entries@[i]).0.name@
                != (#[trigger] self.entries@[j]).0.name@
        &&& forall|i: int|
            0 <= i < self.entries@.len() ==> {
                &&& self.contents@.contains_key((#[trigger] self.entries@[i]).0.name@)
                &&& self.contents@[self.entries@[i].0.name@] == self.entries@[i].1
            }
        &&& forall|k: Seq<u8>| #[trigger]
            self.contents@.contains_key(k) ==> exists|i: int|
                0 <= i < self.entries@.len() && (#[trigger] self.entries@[i]).0.name@ == k
    }

    /// An empty registry.
    pub fn new() -> (r: KeyRegistry)
        ensures
            r.wf(),
            r@ == Map::<Seq<u8>, ApplicationEncryptionKey>::empty(),
    {
        KeyRegistry { entries: Vec::new(), contents: Ghost(Map::empty()) }
    }

    /// Number of identities that hold a key.
    pub fn len(&self) -> (r: usize)
        requires
            self.wf(),
        ensures
            r == self@.len(),
    {
        proof {
            self.lemma_len();
        }
        self.entries.len()
    }

    proof fn lemma_len(&self)
        requires
            self.wf(),
        ensures
            self@.len() == self.entries@.len(),
            self@.dom().finite(),
    {
        let names = Seq::new(self.entries@.len(), |i: int| self.entries@[i].0.name@);
        assert(names.no_duplicates());
        assert(self@.dom() =~= names.to_set()) by {
            assert forall|k: Seq<u8>| self@.dom().contains(k) implies names.to_set().contains(k) by {
                let i = choose|i: int|
                    0 <= i < self.entries@.len() && (#[trigger] self.entries@[i]).0.name@ == k;
                assert(names[i] == k);
            }
            assert forall|k: Seq<u8>| names.to_set().contains(k) implies self@.dom().contains(k) by {
                let i = choose|i: int| 0 <= i < names.len() && names[i] == k;
                assert(self.entries@[i].0.name@ == k);
            }
        }
        names.unique_seq_to_set();
    }

    /// Position of the entry for `id`, if any.
    fn find(&self, id: &ApplicationIdentity) -> (r: Option<usize>)
        requires
            self.wf(),
        ensures
            match r {
                Some(i) => i < self.entries@.len() && self.entries@[i as int].0.name@ == id.name@
                    && self@.contains_key(id.name@) && self@[id.name@] == self.entries@[i as int].1,
                None => !self@.contains_key(id.name@),
            },
    {
        let mut i: usize = 0;
        while i < self.entries.len()
            invariant
                self.wf(),
                i <= self.entries@.len(),
                forall|j: int| 0 <= j < i ==> (#[trigger] self.entries@[j]).0.name@ != id.name@,
            decreases self.entries@.len() - i,
        {
            if self.entries[i].0.same_as(id) {
                return Some(i);
            }
            i = i + 1;
        }
        None
    }

    /// The key held by `id`.
    pub fn lookup(&self, id: &ApplicationIdentity) -> (r: Result<ApplicationEncryptionKey, KeyError>)
        requires
            self.wf(),
        ensures
            self@.contains_key(id.name@) ==> r == Ok::<ApplicationEncryptionKey, KeyError>(
                self@[id.name@],
            ),
            !self@.contains_key(id.name@) ==> r == Err::<ApplicationEncryptionKey, KeyError>(
                KeyError::KeyNotFound,
            ),
    {
        match self.find(id) {
            Some(i) => Ok(self.entries[i].1),
            None => Err(KeyError::KeyNotFound),
        }
    }

    /// Stores `key` for `id`, unless `id` already holds a key.
    pub fn issue_with(&mut self, id: ApplicationIdentity, key: ApplicationEncryptionKey) -> (r:
        Result<ApplicationEncryptionKey, KeyError>)
        requires
            old(self).wf(),
        ensures
            final(self).wf(),
            old(self)@.contains_key(id.name@) ==> r == Err::<ApplicationEncryptionKey, KeyError>(
                KeyError::DuplicateKeyIssuance,
            ) && final(self)@ == old(self)@,
            !old(self)@.contains_key(id.name@) ==> r == Ok::<ApplicationEncryptionKey, KeyError>(
                key,
            ) && final(self)@ == old(self)@.insert(id.name@, key),
    {
        match self.find(&id) {
            Some(_) => Err(KeyError::DuplicateKeyIssuance),
            None => {
                proof {
                    self.lemma_len();
                }
                let ghost before = self.entries@;
                self.entries.push((id, key));
                self.contents = Ghost(self.contents@.insert(id.name@, key));
                assert forall|k: Seq<u8>| #[trigger]
                    self.contents@.contains_key(k) implies exists|i: int|
                    0 <= i < self.entries@.len() && (#[trigger] self.entries@[i]).0.name@ == k by {
                    if k == id.name@ {
                        assert(self.entries@[before.len() as int].0.name@ == k);
                    } else {
                        let i = choose|i: int|
                            0 <= i < before.len() && (#[trigger] before[i]).0.name@ == k;
                        assert(self.entries@[i] == before[i]);
                    }
                }
                assert forall|i: int|
                    0 <= i < self.entries@.len() implies {
                    &&& self.contents@.contains_key((#[trigger] self.entries@[i]).0.name@)
                    &&& self.contents@[self.entries@[i].0.name@] == self.entries@[i].1
                } by {
                    if i < before.len() {
                        assert(self.entries@[i] == before[i]);
                    }
                }
                Ok(key)
            },
        }
    }

    /// Removes the key held by `id`; nothing happens if it holds none.
    pub fn revoke(&mut self, id: &ApplicationIdentity)
        requires
            old(self).wf(),
        ensures
            final(self).wf(),
            final(self)@ == old(self)@.remove(id.name@),
    {
        match self.find(id) {
            Some(i) => {
                let ghost before = self.entries@;
                let _ = self.entries.remove(i);
                self.contents = Ghost(self.contents@.remove(id.name@));
                assert forall|j: int| 0 <= j < self.entries@.len() implies #[trigger] self.entries@[j]
                    == before[if j < i { j } else { j + 1 }] by {}
                assert forall|k: Seq<u8>| #[trigger]
                    self.contents@.contains_key(k) implies exists|j: int|
                    0 <= j < self.entries@.len() && (#[trigger] self.entries@[j]).0.name@ == k by {
                    let m = choose|m: int|
                        0 <= m < before.len() && (#[trigger] before[m]).0.name@ == k;
                    assert(m != i);
                    if m < i {
                        assert(self.entries@[m] == before[m]);
                    } else {
                        assert(self.entries@[m - 1] == before[m]);
                    }
                }
                assert forall|a: int, b: int|
                    0 <= a < b < self.entries@.len() implies (#[trigger] self.entries@[a]).0.name@
                    != (#[trigger] self.entries@[b]).0.name@ by {
                    let a2 = if a < i { a } else { a + 1 };
                    let b2 = if b < i { b } else { b + 1 };
                    assert(self.entries@[a] == before[a2]);
                    assert(self.entries@[b] == before[b2]);
                }
                assert forall|j: int|
                    0 <= j < self.entries@.len() implies {
                    &&& self.contents@.contains_key((#[trigger] self.entries@[j]).0.name@)
                    &&& self.contents@[self.entries@[j].0.name@] == self.entries@[j].1
                } by {
                    let j2 = if j < i { j } else { j + 1 };
                    assert(self.entries@[j] == before[j2]);
                    assert(before[j2].0.name@ != before[i as int].0.name@);
                }
            },
            None => {
                assert(self.contents@.remove(id.name@) =~= self.contents@);
            },
        }
    }
}

} // verus!
