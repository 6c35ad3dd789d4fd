//! An executable model of the metadata store: the committed image and
//! variant rows. Multi-row inserts go through one method each, mirroring the
//! single transaction the pipeline wraps them in, so a caller only ever sees
//! the rows of a unit of work appear together or not at all.

use vstd::prelude::*;
use crate::records::{ImageRecord, VariantRecord, QualityTier};
use crate::store::ObjectStoreModel;

verus! {

/// The committed rows of the metadata store.
pub struct DbModel {
    pub images: Vec<ImageRecord>,
    pub variants: Vec<VariantRecord>,
}

impl DbModel {
    /// Whether an image row with this id exists.
    pub open spec fn spec_has_image(&self, id: u128) -> bool {
        exists|i: int| 0 <= i < self.images@.len() && (#[trigger] self.images@[i]).id == id
    }

    /// Whether this account already has an image under this filename: the
    /// duplicate-upload guard. (Of the filename-only and filename-plus-
    /// timestamp policies, this model checks the filename only.)
    pub open spec fn spec_has_duplicate(&self, account_id: u128, filename: Seq<char>) -> bool {
        exists|i: int|
            0 <= i < self.images@.len() && (#[trigger] self.images@[i]).account_id == account_id
                && self.images@[i].filename@ == filename
    }

    /// Whether a variant row for this image at this tier exists.
    pub open spec fn spec_has_variant(&self, image_id: u128, tier: QualityTier) -> bool {
        exists|i: int|
            0 <= i < self.variants@.len() && (#[trigger] self.variants@[i]).image_id == image_id
                && self.variants@[i].quality == tier
    }

    /// An empty metadata store.
    pub fn new() -> (r: DbModel)
        ensures
            r.images@ =~= Seq::<ImageRecord>::empty(),
            r.variants@ =~= Seq::<VariantRecord>::empty(),
    {
        DbModel { images: Vec::new(), variants: Vec::new() }
    }

    /// Whether an image row with this id exists.
    pub fn has_image(&self, id: u128) -> (r: bool)
        ensures
            r == self.spec_has_image(id),
    {
        let mut i: usize = 0;
        while i < self.images.len()
            invariant
                0 <= i <= self.images.len(),
                forall|j: int| 0 <= j < i ==> (#[trigger] self.images@[j]).id != id,
            decreases self.images.len() - i,
        {
            if self.images[i].id == id {
                return true;
            }
            i = i + 1;
        }
        false
    }

    /// The duplicate-upload check: does this account already have an image
    /// under this filename?
    pub fn has_duplicate(&self, account_id: u128, filename: &String) -> (r: bool)
        ensures
            r == self.spec_has_duplicate(account_id, filename@),
    {
        let mut i: usize = 0;
        while i < self.images.len()
            invariant
                0 <= i <= self.images.len(),
                forall|j: int|
                    0 <= j < i ==> !((#[trigger] self.images@[j]).account_id == account_id
                        && self.images@[j].filename@ == filename@),
            decreases self.images.len() - i,
        {
            if self.images[i].account_id == account_id && self.images[i].filename.eq(filename) {
                return true;
            }
            i = i + 1;
        }
        false
    }

    /// The read path's decision: the object key serving this image at this
    /// tier, if such a variant exists. In a [`consistent`] state the
    /// returned key always has a blob (see [`lemma_reader_never_dangles`]),
    /// so a reader is never handed a dangling reference.
    pub fn find_variant_key(&self, image_id: u128, tier: QualityTier) -> (r: Option<&String>)
        ensures
            r is Some <==> self.spec_has_variant(image_id, tier),
            r matches Some(key) ==> exists|i: int|
                0 <= i < self.variants@.len() && (#[trigger] self.variants@[i]).image_id
                    == image_id && self.variants@[i].quality == tier
                    && self.variants@[i].object_name@ == key@,
    {
        let mut i: usize = 0;
        while i < self.variants.len()
            invariant
                0 <= i <= self.variants.len(),
                forall|j: int|
                    0 <= j < i ==> !((#[trigger] self.variants@[j]).image_id == image_id
                        && self.variants@[j].quality == tier),
            decreases self.variants.len() - i,
        {
            if self.variants[i].image_id == image_id && self.variants[i].quality == tier {
                return Some(&self.variants[i].object_name);
            }
            i = i + 1;
        }
        None
    }

    /// Commits the image row and its original variant row together, as one
    /// transaction: no state where only one of the two is visible exists.
    pub fn insert_image_with_original(&mut self, image: ImageRecord, variant: VariantRecord)
        ensures
            final(self).images@ == old(self).images@.push(image),
            final(self).variants@ == old(self).variants@.push(variant),
    {
        self.images.push(image);
        self.variants.push(variant);
    }

    /// Commits the two derived variant rows together, as one transaction.
    pub fn insert_variant_pair(&mut self, first: VariantRecord, second: VariantRecord)
        ensures
            final(self).images@ == old(self).images@,
            final(self).variants@ == old(self).variants@.push(first).push(second),
    {
        self.variants.push(first);
        self.variants.push(second);
    }
}

/// The central consistency invariant the pipeline protects: every committed
/// variant row points at a key under which the object store holds a blob.
/// The reverse may fail transiently (a blob uploaded moments before its row
/// commits, or orphaned by a failed compensating delete), which is accepted.
pub open spec fn consistent(db: &DbModel, object_store: &ObjectStoreModel) -> bool {
    forall|i: int|
        0 <= i < db.variants@.len() ==> object_store@.contains(
            (#[trigger] db.variants@[i]).object_name@,
        )
}

/// The existence invariant as a reader sees it: in a consistent state, every
/// variant row it can reach points at a key under which the object store
/// holds a blob, so a download of that key succeeds.
pub proof fn lemma_reader_never_dangles(db: &DbModel, object_store: &ObjectStoreModel, i: int)
    requires
        consistent(db, object_store),
        0 <= i < db.variants@.len(),
    ensures
        object_store@.contains(db.variants@[i].object_name@),
{
}

/// No dangling image: every committed image row has its original variant row.
/// Together with [`consistent`] this gives the upload guarantee: an image is
/// visible only with its original rendition and that rendition's blob.
pub open spec fn images_have_originals(db: &DbModel) -> bool {
    forall|i: int|
        0 <= i < db.images@.len() ==> exists|j: int|
            0 <= j < db.variants@.len() && (#[trigger] db.variants@[j]).image_id == (
            #[trigger] db.images@[i]).id && db.variants@[j].quality == QualityTier::Original
}

} // verus!
