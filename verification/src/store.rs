//! An executable model of the keyed blob store: the set of keys that
//! currently have a blob. Blob contents never influence the pipeline's
//! consistency argument, so the model tracks presence only.
//!
//! The real store is remote and its operations can fail; each mutating
//! operation here takes the outcome of that remote call as an argument, so
//! the callers' proofs cover both the successful and the failed call.

use vstd::prelude::*;
use crate::error::{AppError, STATUS_INTERNAL_SERVER_ERROR};

verus! {

/// The set of object keys that currently hold a blob.
pub struct ObjectStoreModel {
    keys: Vec<String>,
}

impl View for ObjectStoreModel {
    type V = Set<Seq<char>>;

    closed spec fn view(&self) -> Set<Seq<char>> {
        Set::new(
            |k: Seq<char>|
                exists|i: int| 0 <= i < self.keys@.len() && #[trigger] self.keys@[i]@ == k,
        )
    }
}

/// The keys a best-effort cleanup pass actually removed: those whose delete
/// call succeeded.
pub open spec fn deleted_keys(keys: Seq<String>, oks: Seq<bool>) -> Set<Seq<char>> {
    Set::new(
        |k: Seq<char>|
            exists|i: int| 0 <= i < keys.len() && oks[i] && #[trigger] keys[i]@ == k,
    )
}

/// Cleanup is idempotent: deleting a key a second time changes nothing,
/// deleting a key that is not there changes nothing, and a delete never
/// disturbs any other key.
pub proof fn lemma_delete_idempotent(s: Set<Seq<char>>, key: Seq<char>, other: Seq<char>)
    ensures
        s.remove(key).remove(key) == s.remove(key),
        !s.contains(key) ==> s.remove(key) == s,
        other != key ==> s.remove(key).contains(other) == s.contains(other),
{
    assert(s.remove(key).remove(key) =~= s.remove(key));
    if !s.contains(key) {
        assert(s.remove(key) =~= s);
    }
}

/// Extending a cleanup pass by one key extends the removed set by that key
/// exactly when its delete succeeded.
proof fn lemma_deleted_keys_step(keys: Seq<String>, oks: Seq<bool>, i: int)
    requires
        0 <= i < keys.len(),
        keys.len() == oks.len(),
    ensures
        oks[i] ==> deleted_keys(keys.take(i + 1), oks.take(i + 1)) == deleted_keys(
            keys.take(i),
            oks.take(i),
        ).insert(keys[i]@),
        !oks[i] ==> deleted_keys(keys.take(i + 1), oks.take(i + 1)) == deleted_keys(
            keys.take(i),
            oks.take(i),
        ),
{
    let d1 = deleted_keys(keys.take(i + 1), oks.take(i + 1));
    let d0 = deleted_keys(keys.take(i), oks.take(i));
    assert forall|k: Seq<char>| d1.contains(k) implies d0.contains(k) || (oks[i] && keys[i]@
        == k) by {
        let j = choose|j: int|
            0 <= j < keys.take(i + 1).len() && oks.take(i + 1)[j] && #[trigger] keys.take(i + 1)[j]@
                == k;
        if j < i {
            assert(keys.take(i)[j]@ == k && oks.take(i)[j]);
        }
    }
    assert forall|k: Seq<char>| d0.contains(k) implies d1.contains(k) by {
        let j = choose|j: int|
            0 <= j < keys.take(i).len() && oks.take(i)[j] && #[trigger] keys.take(i)[j]@ == k;
        assert(keys.take(i + 1)[j]@ == k && oks.take(i + 1)[j]);
    }
    if oks[i] {
        assert(keys.take(i + 1)[i]@ == keys[i]@ && oks.take(i + 1)[i]);
        assert(d1.contains(keys[i]@));
        assert(d1 =~= d0.insert(keys[i]@));
    } else {
        assert(d1 =~= d0);
    }
}

impl ObjectStoreModel {
    /// An empty store.
    pub fn new() -> (r: ObjectStoreModel)
        ensures
            r@ == Set::<Seq<char>>::empty(),
    {
        let r = ObjectStoreModel { keys: Vec::new() };
        proof {
            assert(r@ =~= Set::<Seq<char>>::empty());
        }
        r
    }

    /// Whether a blob exists under this key.
    pub fn contains_key(&self, key: &String) -> (r: bool)
        ensures
            r == self@.contains(key@),
    {
        let mut i: usize = 0;
        while i < self.keys.len()
            invariant
                0 <= i <= self.keys.len(),
                forall|j: int| 0 <= j < i ==> self.keys@[j]@ != key@,
            decreases self.keys.len() - i,
        {
            if self.keys[i].eq(key) {
                return true;
            }
            i = i + 1;
        }
        false
    }

    /// Stores a blob under this key (an upload that the remote store
    /// confirmed).
    pub fn put(&mut self, key: &String)
        ensures
            final(self)@ == old(self)@.insert(key@),
    {
        self.keys.push(key.clone());
        proof {
            assert forall|k: Seq<char>| self@.contains(k) implies old(self)@.insert(key@).contains(
                k,
            ) by {
                let i = choose|i: int| 0 <= i < self.keys@.len() && self.keys@[i]@ == k;
                if i < old(self).keys@.len() {
                    assert(old(self).keys@[i]@ == k);
                }
            }
            assert forall|k: Seq<char>| old(self)@.insert(key@).contains(k) implies self@.contains(
                k,
            ) by {
                if old(self)@.contains(k) {
                    let i = choose|i: int|
                        0 <= i < old(self).keys@.len() && old(self).keys@[i]@ == k;
                    assert(self.keys@[i]@ == k);
                } else {
                    assert(self.keys@[old(self).keys@.len() as int]@ == k);
                }
            }
            assert(self@ =~= old(self)@.insert(key@));
        }
    }

    /// Deletes the blob under this key, `ok` being the outcome the remote
    /// store reported. Deleting a key that was already deleted, or that never
    /// existed, is not an error and leaves every other key untouched; a
    /// failed remote call leaves the store as it was and is reported.
    pub fn delete_object(&mut self, key: &String, ok: bool) -> (r: Result<(), AppError>)
        ensures
            ok ==> r is Ok && final(self)@ == old(self)@.remove(key@),
            !ok ==> r is Err && final(self)@ == old(self)@,
    {
        if !ok {
            return Err(AppError::Status(STATUS_INTERNAL_SERVER_ERROR));
        }
        let mut kept: Vec<String> = Vec::new();
        let mut i: usize = 0;
        while i < self.keys.len()
            invariant
                0 <= i <= self.keys.len(),
                forall|j: int|
                    0 <= j < kept@.len() ==> #[trigger] kept@[j]@ != key@ && exists|m: int|
                        0 <= m < i && self.keys@[m]@ == kept@[j]@,
                forall|m: int|
                    0 <= m < i && #[trigger] self.keys@[m]@ != key@ ==> exists|j: int|
                        0 <= j < kept@.len() && kept@[j]@ == self.keys@[m]@,
            decreases self.keys.len() - i,
        {
            let ghost prev_kept = kept@;
            if !self.keys[i].eq(key) {
                kept.push(self.keys[i].clone());
            }
            proof {
                assert forall|m: int|
                    0 <= m < i + 1 && #[trigger] self.keys@[m]@ != key@ implies exists|j: int|
                    0 <= j < kept@.len() && kept@[j]@ == self.keys@[m]@ by {
                    if m < i {
                        let j = choose|j: int|
                            0 <= j < prev_kept.len() && prev_kept[j]@ == self.keys@[m]@;
                        assert(kept@[j]@ == self.keys@[m]@);
                    } else {
                        assert(kept@[kept@.len() - 1]@ == self.keys@[m]@);
                    }
                }
            }
            i = i + 1;
        }
        proof {
            let new_view = Set::new(
                |k: Seq<char>|
                    exists|j: int| 0 <= j < kept@.len() && #[trigger] kept@[j]@ == k,
            );
            assert forall|k: Seq<char>| new_view.contains(k) implies old(self)@.remove(
                key@,
            ).contains(k) by {
                let j = choose|j: int| 0 <= j < kept@.len() && kept@[j]@ == k;
                let m = choose|m: int|
                    0 <= m < old(self).keys@.len() && old(self).keys@[m]@ == kept@[j]@;
                assert(old(self)@.contains(k));
            }
            assert forall|k: Seq<char>| old(self)@.remove(key@).contains(k) implies new_view
                .contains(k) by {
                let m = choose|m: int|
                    0 <= m < old(self).keys@.len() && old(self).keys@[m]@ == k;
            }
        }
        self.keys = kept;
        proof {
            assert(self@ =~= old(self)@.remove(key@));
        }
        Ok(())
    }

    /// Best-effort deletion of several keys: every delete is attempted even
    /// after one fails, the failures are aggregated, and the store ends up
    /// without exactly those keys whose remote delete succeeded.
    pub fn cleanup_objects(&mut self, keys: &Vec<String>, oks: &Vec<bool>) -> (r: Result<
        (),
        AppError,
    >)
        requires
            keys@.len() == oks@.len(),
        ensures
            final(self)@ == old(self)@.difference(deleted_keys(keys@, oks@)),
            r is Ok <==> (forall|i: int| 0 <= i < oks@.len() ==> oks@[i]),
    {
        let mut any_failed = false;
        let mut i: usize = 0;
        while i < keys.len()
            invariant
                0 <= i <= keys.len(),
                keys@.len() == oks@.len(),
                self@ == old(self)@.difference(deleted_keys(keys@.take(i as int), oks@.take(i as int))),
                any_failed <==> !(forall|j: int| 0 <= j < i ==> oks@[j]),
            decreases keys.len() - i,
        {
            let ghost prev = self@;
            let r = self.delete_object(&keys[i], oks[i]);
            if r.is_err() {
                any_failed = true;
            }
            proof {
                lemma_deleted_keys_step(keys@, oks@, i as int);
                assert(self@ =~= old(self)@.difference(
                    deleted_keys(keys@.take(i + 1), oks@.take(i + 1)),
                ));
            }
            i = i + 1;
        }
        proof {
            assert(keys@.take(keys@.len() as int) =~= keys@);
            assert(oks@.take(oks@.len() as int) =~= oks@);
        }
        if any_failed {
            Err(AppError::Status(STATUS_INTERNAL_SERVER_ERROR))
        } else {
            Ok(())
        }
    }
}

} // verus!
