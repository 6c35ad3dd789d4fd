//! The asynchronous worker: turns one [`ImageProcessingJob`] into durably
//! stored medium and small variants, compensating on any partial failure so
//! that no variant row ever outlives its blob.
//!
//! Per job: download the original, compute the target dimensions, upload
//! both re-encoded variants, then insert both variant rows in one
//! transaction. Until both uploads have succeeded nothing touches the
//! database; once anything fails, every blob this job uploaded is deleted
//! again (best effort) and the job is reported failed.

use vstd::prelude::*;
use crate::db::{DbModel, consistent, images_have_originals};
use crate::error::{AppError, STATUS_INTERNAL_SERVER_ERROR};
use crate::imaging::{compress_image, image_dims, image_dims_of, recompressed_of};
use crate::records::{ImageProcessingJob, VariantRecord, QualityTier, MEDIUM_QUALITY,
    SMALL_QUALITY, INITIAL_VERSION};
use crate::store::ObjectStoreModel;
use crate::utils::{fresh_id, get_object_name};

verus! {

/// The medium variant halves each side of the original.
pub const MEDIUM_REDUCTION: u32 = 2;
/// The small variant quarters each side of the original.
pub const SMALL_REDUCTION: u32 = 4;

/// The outcome of each remote or fallible step one job may reach:
/// downloading the original, decoding it (carrying the original's pixel
/// dimensions when it succeeds), the two concurrent variant uploads, the two
/// row inserts, the transaction commit, and — on the failure branches — the
/// compensating delete of each uploaded blob.
#[derive(Clone, Copy)]
pub struct JobOutcomes {
    pub download_ok: bool,
    pub decoded_dims: Option<(u32, u32)>,
    pub medium_upload_ok: bool,
    pub small_upload_ok: bool,
    pub medium_insert_ok: bool,
    pub small_insert_ok: bool,
    pub commit_ok: bool,
    pub medium_delete_ok: bool,
    pub small_delete_ok: bool,
}

impl JobOutcomes {
    /// A job succeeds exactly when every step it reaches does.
    pub open spec fn spec_success(&self) -> bool {
        self.download_ok && self.decoded_dims is Some && self.medium_upload_ok
            && self.small_upload_ok && self.medium_insert_ok && self.small_insert_ok
            && self.commit_ok
    }

    /// Whether the job got as far as uploading (both uploads are attempted
    /// concurrently once the variants are computed).
    pub open spec fn spec_uploads_reached(&self) -> bool {
        self.download_ok && self.decoded_dims is Some
    }
}

/// A set extended by one key when `present` holds: the shape of the object
/// store after a blob that may or may not have survived this job.
pub open spec fn with_key_if(s: Set<Seq<char>>, key: Seq<char>, present: bool) -> Set<Seq<char>> {
    if present {
        s.insert(key)
    } else {
        s
    }
}

/// Processes one job against the store models, from the point where fresh
/// variant identities and object keys have been drawn.
///
/// Success is returned exactly when every step succeeds; then both blobs and
/// both rows exist, mutually consistent. On every failure the database is
/// untouched, and each uploaded blob survives only if its compensating
/// delete failed, as an orphan that no row references. Keys other than this
/// job's two fresh ones are never touched, so concurrent jobs with disjoint
/// keys cannot interfere.
pub fn process_job(
    db: &mut DbModel,
    object_store: &mut ObjectStoreModel,
    job: &ImageProcessingJob,
    medium_variant_id: u128,
    small_variant_id: u128,
    object_name_medium: &String,
    object_name_small: &String,
    out: &JobOutcomes,
) -> (r: Result<(), AppError>)
    requires
        !old(object_store)@.contains(object_name_medium@),
        !old(object_store)@.contains(object_name_small@),
        object_name_medium@ != object_name_small@,
        consistent(old(db), old(object_store)),
        images_have_originals(old(db)),
    ensures
        consistent(final(db), final(object_store)),
        images_have_originals(final(db)),
        final(db).images@ == old(db).images@,
        r is Ok <==> out.spec_success(),
        // The database is a safe point: rows appear only on full success.
        r is Err ==> *final(db) == *old(db),
        // Before the uploads are reached nothing has been touched at all.
        !out.spec_uploads_reached() ==> final(object_store)@ == old(object_store)@,
        // On failure each uploaded blob is deleted again; one survives only
        // its own failed compensating delete.
        r is Err && out.spec_uploads_reached() ==> final(object_store)@ == with_key_if(
            with_key_if(
                old(object_store)@,
                object_name_medium@,
                out.medium_upload_ok && !out.medium_delete_ok,
            ),
            object_name_small@,
            out.small_upload_ok && !out.small_delete_ok,
        ),
        // Partial-failure compensation: if the medium upload succeeded, the
        // small one failed, and the delete went through, the medium blob is
        // gone and no rows were written.
        out.spec_uploads_reached() && out.medium_upload_ok && !out.small_upload_ok
            && out.medium_delete_ok ==> r is Err && !final(object_store)@.contains(
            object_name_medium@,
        ) && *final(db) == *old(db),
        // Which error each failing step surfaces.
        !out.download_ok ==> r == Err::<(), AppError>(
            AppError::Status(STATUS_INTERNAL_SERVER_ERROR),
        ),
        out.download_ok && out.decoded_dims is None ==> (r matches Err(e) && e is ImageError),
        out.spec_uploads_reached() && !(out.medium_upload_ok && out.small_upload_ok) ==> r
            == Err::<(), AppError>(AppError::Status(STATUS_INTERNAL_SERVER_ERROR)),
        out.spec_uploads_reached() && out.medium_upload_ok && out.small_upload_ok && !(
        out.medium_insert_ok && out.small_insert_ok && out.commit_ok) ==> (r matches Err(e)
            && e is DBError),
        // On success both rows and both blobs exist, with the halved and
        // quartered dimensions of the original.
        r is Ok ==> ({
            let dims = out.decoded_dims->0;
            let w = dims.0;
            let h = dims.1;
            let n = old(db).variants@.len() as int;
            &&& final(db).variants@.len() == n + 2
            &&& final(db).variants@.drop_last().drop_last() == old(db).variants@
            &&& final(db).variants@[n].id == medium_variant_id
            &&& final(db).variants@[n].image_id == job.image_id
            &&& final(db).variants@[n].object_name@ == object_name_medium@
            &&& final(db).variants@[n].width == w / MEDIUM_REDUCTION
            &&& final(db).variants@[n].height == h / MEDIUM_REDUCTION
            &&& final(db).variants@[n].compression_quality == MEDIUM_QUALITY
            &&& final(db).variants@[n].quality == QualityTier::Medium
            &&& final(db).variants@[n].version == INITIAL_VERSION
            &&& final(db).variants@[n + 1].id == small_variant_id
            &&& final(db).variants@[n + 1].image_id == job.image_id
            &&& final(db).variants@[n + 1].object_name@ == object_name_small@
            &&& final(db).variants@[n + 1].width == w / SMALL_REDUCTION
            &&& final(db).variants@[n + 1].height == h / SMALL_REDUCTION
            &&& final(db).variants@[n + 1].compression_quality == SMALL_QUALITY
            &&& final(db).variants@[n + 1].quality == QualityTier::Small
            &&& final(db).variants@[n + 1].version == INITIAL_VERSION
            &&& final(object_store)@ == old(object_store)@.insert(object_name_medium@).insert(
                object_name_small@,
            )
        }),
{
    // Download the original blob.
    if !out.download_ok {
        return Err(AppError::Status(STATUS_INTERNAL_SERVER_ERROR));
    }

    // Decode it and compute the target dimensions for both tiers.
    let (width, height) = match out.decoded_dims {
        Some(dims) => dims,
        None => {
            return Err(AppError::ImageError("could not decode original".to_owned()));
        },
    };
    let medium_width = width / MEDIUM_REDUCTION;
    let medium_height = height / MEDIUM_REDUCTION;
    let small_width = width / SMALL_REDUCTION;
    let small_height = height / SMALL_REDUCTION;

    // Upload both variants (concurrently in the running system): each lands
    // exactly when its own upload succeeds.
    if out.medium_upload_ok {
        object_store.put(object_name_medium);
    }
    if out.small_upload_ok {
        object_store.put(object_name_small);
    }
    if !(out.medium_upload_ok && out.small_upload_ok) {
        // Delete any variant that did land; the database was never touched,
        // so this is a safe point.
        if out.medium_upload_ok {
            let _ = object_store.delete_object(object_name_medium, out.medium_delete_ok);
        }
        if out.small_upload_ok {
            let _ = object_store.delete_object(object_name_small, out.small_delete_ok);
        }
        proof {
            lemma_job_keys_not_referenced(
                db,
                old(object_store)@,
                object_name_medium@,
                object_name_small@,
            );
            assert(object_store@ =~= with_key_if(
                with_key_if(
                    old(object_store)@,
                    object_name_medium@,
                    out.medium_upload_ok && !out.medium_delete_ok,
                ),
                object_name_small@,
                out.small_upload_ok && !out.small_delete_ok,
            ));
        }
        return Err(AppError::Status(STATUS_INTERNAL_SERVER_ERROR));
    }

    let medium = VariantRecord {
        id: medium_variant_id,
        image_id: job.image_id,
        object_name: object_name_medium.clone(),
        width: medium_width,
        height: medium_height,
        compression_quality: MEDIUM_QUALITY,
        quality: QualityTier::Medium,
        version: INITIAL_VERSION,
    };
    let small = VariantRecord {
        id: small_variant_id,
        image_id: job.image_id,
        object_name: object_name_small.clone(),
        width: small_width,
        height: small_height,
        compression_quality: SMALL_QUALITY,
        quality: QualityTier::Small,
        version: INITIAL_VERSION,
    };

    // One transaction for both rows: a failure of either insert or of the
    // commit rolls the database back and deletes both uploaded blobs.
    if !(out.medium_insert_ok && out.small_insert_ok && out.commit_ok) {
        let _ = object_store.delete_object(object_name_medium, out.medium_delete_ok);
        let _ = object_store.delete_object(object_name_small, out.small_delete_ok);
        proof {
            lemma_job_keys_not_referenced(
                db,
                old(object_store)@,
                object_name_medium@,
                object_name_small@,
            );
            assert(object_store@ =~= with_key_if(
                with_key_if(
                    old(object_store)@,
                    object_name_medium@,
                    !out.medium_delete_ok,
                ),
                object_name_small@,
                !out.small_delete_ok,
            ));
        }
        return Err(AppError::DBError("variant transaction failed".to_owned()));
    }
    db.insert_variant_pair(medium, small);
    proof {
        assert(db.variants@.drop_last().drop_last() =~= old(db).variants@);
        assert forall|i: int| 0 <= i < db.variants@.len() implies object_store@.contains(
            (#[trigger] db.variants@[i]).object_name@,
        ) by {
            if i < old(db).variants@.len() {
                assert(old(db).variants@[i] == db.variants@[i]);
            }
        }
        assert forall|i: int| 0 <= i < db.images@.len() implies exists|j: int|
            0 <= j < db.variants@.len() && (#[trigger] db.variants@[j]).image_id == (
            #[trigger] db.images@[i]).id && db.variants@[j].quality
            == QualityTier::Original by {
            let j = choose|j: int|
                0 <= j < old(db).variants@.len() && (#[trigger] old(db).variants@[j]).image_id
                    == old(db).images@[i].id && old(db).variants@[j].quality
                    == QualityTier::Original;
            assert(db.variants@[j].image_id == db.images@[i].id && db.variants@[j].quality
                == QualityTier::Original);
        }
    }
    Ok(())
}

/// These outcomes with the decode step's result filled in: the shape
/// `process_image` hands to the job saga after decoding the bytes itself.
pub open spec fn spec_with_decoded(out: JobOutcomes, dims: Option<(u32, u32)>) -> JobOutcomes {
    JobOutcomes { download_ok: true, decoded_dims: dims, ..out }
}

/// The full worker pass over one job, from the downloaded original bytes:
/// decodes them, re-encodes the medium (half-size) and small (quarter-size)
/// variants, draws fresh identities and keys, and runs the job saga. Returns
/// the two re-encoded variants on success.
///
/// `out.download_ok` carries the outcome of the download that produced
/// `original_data`; `out.decoded_dims` is ignored — the bytes decide.
pub fn process_image(
    db: &mut DbModel,
    object_store: &mut ObjectStoreModel,
    job: &ImageProcessingJob,
    original_data: &Vec<u8>,
    out: &JobOutcomes,
) -> (r: Result<(Vec<u8>, Vec<u8>), AppError>)
    requires
        consistent(old(db), old(object_store)),
        images_have_originals(old(db)),
    ensures
        consistent(final(db), final(object_store)),
        images_have_originals(final(db)),
        final(db).images@ == old(db).images@,
        r is Err ==> *final(db) == *old(db),
        // A failed download stops the job before anything is touched.
        !out.download_ok ==> r == Err::<(Vec<u8>, Vec<u8>), AppError>(
            AppError::Status(STATUS_INTERNAL_SERVER_ERROR),
        ) && final(object_store)@ == old(object_store)@,
        // Undecodable bytes stop the job before anything is touched.
        out.download_ok && image_dims_of(original_data@) is None ==> (r matches Err(e)
            && e is ImageError),
        // Decode and re-encode failures happen before the first upload.
        (r matches Err(e) && e is ImageError) ==> final(object_store)@ == old(object_store)@,
        ({
            let dims = image_dims_of(original_data@);
            let renditions_ok = dims matches Some(wh) && recompressed_of(
                original_data@,
                wh.0 / MEDIUM_REDUCTION,
                wh.1 / MEDIUM_REDUCTION,
                MEDIUM_QUALITY,
            ) is Some && recompressed_of(
                original_data@,
                wh.0 / SMALL_REDUCTION,
                wh.1 / SMALL_REDUCTION,
                SMALL_QUALITY,
            ) is Some;
            // A re-encode failure at either reduced size stops the job
            // before anything is touched, as an image error.
            &&& out.download_ok && dims is Some && !renditions_ok ==> (r matches Err(e)
                && e is ImageError)
            // Success is owed whenever the bytes decode and re-encode and
            // every remote step succeeds — short of the freshly drawn keys
            // colliding, which is refused before anything is touched.
            &&& spec_with_decoded(*out, dims).spec_success() && renditions_ok ==> (r is Ok || r
                == Err::<(Vec<u8>, Vec<u8>), AppError>(AppError::Status(
                STATUS_INTERNAL_SERVER_ERROR,
            )))
        }),
        r is Ok ==> ({
            let dims = image_dims_of(original_data@)->0;
            let n = old(db).variants@.len() as int;
            &&& out.download_ok && image_dims_of(original_data@) is Some
            &&& out.medium_upload_ok && out.small_upload_ok && out.medium_insert_ok
                && out.small_insert_ok && out.commit_ok
            &&& r->Ok_0.0@ == recompressed_of(
                original_data@,
                dims.0 / MEDIUM_REDUCTION,
                dims.1 / MEDIUM_REDUCTION,
                MEDIUM_QUALITY,
            )->0
            &&& r->Ok_0.1@ == recompressed_of(
                original_data@,
                dims.0 / SMALL_REDUCTION,
                dims.1 / SMALL_REDUCTION,
                SMALL_QUALITY,
            )->0
            &&& final(db).variants@.len() == n + 2
            &&& final(db).variants@.drop_last().drop_last() == old(db).variants@
            &&& final(db).variants@[n].image_id == job.image_id
            &&& final(db).variants@[n].quality == QualityTier::Medium
            &&& final(db).variants@[n].width == dims.0 / MEDIUM_REDUCTION
            &&& final(db).variants@[n].height == dims.1 / MEDIUM_REDUCTION
            &&& final(db).variants@[n].compression_quality == MEDIUM_QUALITY
            &&& final(db).variants@[n].version == INITIAL_VERSION
            &&& final(db).variants@[n + 1].image_id == job.image_id
            &&& final(db).variants@[n + 1].quality == QualityTier::Small
            &&& final(db).variants@[n + 1].width == dims.0 / SMALL_REDUCTION
            &&& final(db).variants@[n + 1].height == dims.1 / SMALL_REDUCTION
            &&& final(db).variants@[n + 1].compression_quality == SMALL_QUALITY
            &&& final(db).variants@[n + 1].version == INITIAL_VERSION
            &&& final(db).variants@[n].object_name@ != final(db).variants@[n + 1].object_name@
            &&& final(object_store)@ == old(object_store)@.insert(
                final(db).variants@[n].object_name@,
            ).insert(final(db).variants@[n + 1].object_name@)
        }),
{
    // The download's own outcome: without the original, nothing starts.
    if !out.download_ok {
        return Err(AppError::Status(STATUS_INTERNAL_SERVER_ERROR));
    }

    // Decode and compute both reduced renditions before touching anything.
    let dims = match image_dims(original_data) {
        Some(d) => d,
        None => {
            return Err(AppError::ImageError("could not decode original".to_owned()));
        },
    };
    let medium_bytes = match compress_image(
        original_data,
        dims.0 / MEDIUM_REDUCTION,
        dims.1 / MEDIUM_REDUCTION,
        MEDIUM_QUALITY,
    ) {
        Ok(b) => b,
        Err(e) => {
            return Err(e);
        },
    };
    let small_bytes = match compress_image(
        original_data,
        dims.0 / SMALL_REDUCTION,
        dims.1 / SMALL_REDUCTION,
        SMALL_QUALITY,
    ) {
        Ok(b) => b,
        Err(e) => {
            return Err(e);
        },
    };

    // Fresh identities and keys; colliding random keys are refused rather
    // than overwriting another job's blobs.
    let medium_variant_id = fresh_id();
    let small_variant_id = fresh_id();
    let object_name_medium = get_object_name();
    let object_name_small = get_object_name();
    if object_store.contains_key(&object_name_medium) || object_store.contains_key(
        &object_name_small,
    ) || object_name_medium.eq(&object_name_small) {
        return Err(AppError::Status(STATUS_INTERNAL_SERVER_ERROR));
    }

    let inner = JobOutcomes { download_ok: true, decoded_dims: Some(dims), ..*out };
    match process_job(
        db,
        object_store,
        job,
        medium_variant_id,
        small_variant_id,
        &object_name_medium,
        &object_name_small,
        &inner,
    ) {
        Ok(()) => Ok((medium_bytes, small_bytes)),
        Err(e) => Err(e),
    }
}

/// The two fresh keys of this job are referenced by no committed variant
/// row, so deleting them (or failing to) cannot break consistency.
proof fn lemma_job_keys_not_referenced(
    db: &DbModel,
    prior: Set<Seq<char>>,
    key_medium: Seq<char>,
    key_small: Seq<char>,
)
    requires
        !prior.contains(key_medium),
        !prior.contains(key_small),
        forall|i: int|
            0 <= i < db.variants@.len() ==> prior.contains(
                (#[trigger] db.variants@[i]).object_name@,
            ),
    ensures
        forall|i: int|
            0 <= i < db.variants@.len() ==> (#[trigger] db.variants@[i]).object_name@
                != key_medium && db.variants@[i].object_name@ != key_small,
{
}

} // verus!
