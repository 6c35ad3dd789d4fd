//! The synchronous upload coordinator: stores the original blob, commits the
//! image row together with its original variant row, and schedules variant
//! derivation — in an order chosen so that no failure leaves a database row
//! without its blob.
//!
//! The two stores cannot be committed atomically together, so the
//! coordinator writes the harder-to-compensate resource first (the blob),
//! then the database rows, and compensates forward (deletes the blob) on any
//! later failure. Each fallible remote step's outcome is a field of
//! [`UploadOutcomes`], so the contract covers every combination of success
//! and failure.

use vstd::prelude::*;
use crate::capture::{CaptureResolution, get_capture_timestamp, spec_capture_resolution};
use crate::db::{DbModel, consistent, images_have_originals};
use crate::error::{AppError, STATUS_BAD_REQUEST, STATUS_CONFLICT, STATUS_INTERNAL_SERVER_ERROR};
use crate::imaging::{exif_blob_of, exif_fields_of, extract_exif, image_dims, image_dims_of};
use crate::records::{ImageRecord, ImageProcessingJob, UploadRequest, VariantRecord, QualityTier,
    ORIGINAL_QUALITY, INITIAL_VERSION};
use crate::store::ObjectStoreModel;
use crate::utils::{fresh_id, get_object_name};

verus! {

/// The outcome of each remote step an upload attempt may reach: storing the
/// original blob, inserting the image and original-variant rows, enqueueing
/// the processing job, committing the transaction, and — on the failure
/// branches — the compensating delete of the blob.
#[derive(Clone, Copy, PartialEq, Eq, Structural)]
pub struct UploadOutcomes {
    pub put_ok: bool,
    pub insert_ok: bool,
    pub enqueue_ok: bool,
    pub commit_ok: bool,
    pub delete_ok: bool,
}

impl UploadOutcomes {
    /// An upload succeeds exactly when every remote step it reaches does.
    pub open spec fn spec_success(&self) -> bool {
        self.put_ok && self.insert_ok && self.enqueue_ok && self.commit_ok
    }

    /// The job is enqueued once the blob is stored and the rows are staged;
    /// a later commit failure cannot recall it from the channel.
    pub open spec fn spec_enqueued(&self) -> bool {
        self.put_ok && self.insert_ok && self.enqueue_ok
    }
}

/// One upload attempt against the store models, from the point where the
/// image bytes have been decoded (`width`/`height`), the capture timestamp
/// resolved, and fresh identities drawn.
///
/// Success is returned exactly when the attempt is a duplicate of nothing
/// and every remote step succeeds; then the image row, its original variant
/// row, the original blob and the scheduled job all exist. On every failure
/// the database and the queue are untouched (no state with only part of the
/// unit of work is ever visible), and the blob is deleted again wherever it
/// had been stored — it survives only a failed compensating delete, as an
/// orphan that no row references.
pub fn handle_upload(
    db: &mut DbModel,
    object_store: &mut ObjectStoreModel,
    queue: &mut Vec<ImageProcessingJob>,
    account_id: u128,
    filename: &String,
    captured_at: &String,
    width: u32,
    height: u32,
    metadata: Vec<(String, String)>,
    image_id: u128,
    variant_id: u128,
    object_name: &String,
    out: &UploadOutcomes,
) -> (r: Result<(), AppError>)
    requires
        !old(object_store)@.contains(object_name@),
        consistent(old(db), old(object_store)),
        images_have_originals(old(db)),
    ensures
        consistent(final(db), final(object_store)),
        images_have_originals(final(db)),
        ({
            let dup = old(db).spec_has_duplicate(account_id, filename@);
            &&& (r is Ok <==> !dup && out.spec_success())
            // A duplicate upload is refused with a conflict before any
            // storage operation: zero writes anywhere.
            &&& dup ==> r == Err::<(), AppError>(AppError::Status(STATUS_CONFLICT))
                && *final(db) == *old(db) && final(object_store)@ == old(object_store)@
                && final(queue)@ == old(queue)@
            // No dangling image: on failure, rows and queue are exactly as
            // before, and the blob is gone unless only its compensating
            // delete failed.
            &&& r is Err ==> *final(db) == *old(db)
            &&& r is Err && (out.delete_ok || !out.put_ok) ==> final(object_store)@
                == old(object_store)@
            &&& r is Err && !dup && out.put_ok && !out.delete_ok ==> final(object_store)@
                == old(object_store)@.insert(object_name@)
            // Exactly which error each failing step surfaces.
            &&& !dup && !out.put_ok ==> r == Err::<(), AppError>(
                AppError::Status(STATUS_INTERNAL_SERVER_ERROR),
            )
            &&& !dup && out.put_ok && !out.insert_ok ==> (r matches Err(e) && e is DBError)
            &&& !dup && out.put_ok && out.insert_ok && !out.enqueue_ok ==> r == Err::<(),
                AppError,
            >(AppError::Status(STATUS_INTERNAL_SERVER_ERROR))
            &&& !dup && out.spec_enqueued() && !out.commit_ok ==> (r matches Err(e)
                && e is DBError)
            // The job reaches the queue exactly when enqueueing is reached
            // and succeeds; a later commit failure cannot recall it.
            &&& !dup && out.spec_enqueued() ==> final(queue)@.len() == old(queue)@.len() + 1
                && final(queue)@.drop_last() == old(queue)@
                && final(queue)@.last().image_id == image_id
                && final(queue)@.last().account_id == account_id
                && final(queue)@.last().original_object_name@ == object_name@
            &&& !(!dup && out.spec_enqueued()) ==> final(queue)@ == old(queue)@
            // On success all three artifacts of the unit of work exist.
            &&& r is Ok ==> {
                &&& final(db).images@.len() == old(db).images@.len() + 1
                &&& final(db).variants@.len() == old(db).variants@.len() + 1
                &&& final(db).images@.drop_last() == old(db).images@
                &&& final(db).images@.last().id == image_id
                &&& final(db).images@.last().account_id == account_id
                &&& final(db).images@.last().filename@ == filename@
                &&& final(db).images@.last().captured_at@ == captured_at@
                &&& final(db).images@.last().width == width
                &&& final(db).images@.last().height == height
                &&& final(db).images@.last().metadata@ == metadata@
                &&& final(db).variants@.drop_last() == old(db).variants@
                &&& final(db).variants@.last().id == variant_id
                &&& final(db).variants@.last().image_id == image_id
                &&& final(db).variants@.last().object_name@ == object_name@
                &&& final(db).variants@.last().width == width
                &&& final(db).variants@.last().height == height
                &&& final(db).variants@.last().compression_quality == ORIGINAL_QUALITY
                &&& final(db).variants@.last().quality == QualityTier::Original
                &&& final(db).variants@.last().version == INITIAL_VERSION
                &&& final(object_store)@ == old(object_store)@.insert(object_name@)
            }
        }),
{
    // Duplicate detection: the idempotency guard against a second upload of
    // the same filename for the same account.
    if db.has_duplicate(account_id, filename) {
        return Err(AppError::Status(STATUS_CONFLICT));
    }

    // Store the original blob before any database write: a failed upload
    // must never produce a dangling database row.
    if !out.put_ok {
        return Err(AppError::Status(STATUS_INTERNAL_SERVER_ERROR));
    }
    object_store.put(object_name);

    // One transaction: the image row and its original variant row together.
    if !out.insert_ok {
        // Compensate forward: delete the just-uploaded blob (best effort).
        let _ = object_store.delete_object(object_name, out.delete_ok);
        proof {
            lemma_fresh_key_delete_preserves(db, old(object_store)@, object_name@);
            if out.delete_ok {
                assert(old(object_store)@.insert(object_name@).remove(object_name@)
                    =~= old(object_store)@);
            }
        }
        return Err(AppError::DBError("image insert failed".to_owned()));
    }
    let image = ImageRecord {
        id: image_id,
        account_id,
        filename: filename.clone(),
        captured_at: captured_at.clone(),
        width,
        height,
        metadata,
    };
    let variant = VariantRecord {
        id: variant_id,
        image_id,
        object_name: object_name.clone(),
        width,
        height,
        compression_quality: ORIGINAL_QUALITY,
        quality: QualityTier::Original,
        version: INITIAL_VERSION,
    };

    // Enqueue before committing: a committed image must never lack a path to
    // its smaller variants, so an enqueue failure rolls everything back.
    if !out.enqueue_ok {
        let _ = object_store.delete_object(object_name, out.delete_ok);
        proof {
            lemma_fresh_key_delete_preserves(db, old(object_store)@, object_name@);
            if out.delete_ok {
                assert(old(object_store)@.insert(object_name@).remove(object_name@)
                    =~= old(object_store)@);
            }
        }
        return Err(AppError::Status(STATUS_INTERNAL_SERVER_ERROR));
    }
    queue.push(ImageProcessingJob {
        image_id,
        account_id,
        original_object_name: object_name.clone(),
    });

    // Commit only now: the success response guarantees the original is
    // stored, the rows are durable and derivation is durably scheduled.
    if !out.commit_ok {
        let _ = object_store.delete_object(object_name, out.delete_ok);
        proof {
            lemma_fresh_key_delete_preserves(db, old(object_store)@, object_name@);
            if out.delete_ok {
                assert(old(object_store)@.insert(object_name@).remove(object_name@)
                    =~= old(object_store)@);
            }
            assert(queue@.drop_last() =~= old(queue)@);
        }
        return Err(AppError::DBError("transaction commit failed".to_owned()));
    }
    db.insert_image_with_original(image, variant);
    proof {
        assert(db.images@.drop_last() =~= old(db).images@);
        assert(db.variants@.drop_last() =~= old(db).variants@);
        assert(queue@.drop_last() =~= old(queue)@);
        assert forall|i: int| 0 <= i < db.variants@.len() implies object_store@.contains(
            (#[trigger] db.variants@[i]).object_name@,
        ) by {
            if i < old(db).variants@.len() {
                assert(old(db).variants@[i] == db.variants@[i]);
            }
        }
        assert forall|i: int| 0 <= i < db.images@.len() implies exists|j: int|
            0 <= j < db.variants@.len() && (#[trigger] db.variants@[j]).image_id == (
            #[trigger] db.images@[i]).id && db.variants@[j].quality
            == QualityTier::Original by {
            if i < old(db).images@.len() {
                let j = choose|j: int|
                    0 <= j < old(db).variants@.len() && (#[trigger] old(db).variants@[j]).image_id
                        == old(db).images@[i].id && old(db).variants@[j].quality
                        == QualityTier::Original;
                assert(db.variants@[j].image_id == db.images@[i].id && db.variants@[j].quality
                    == QualityTier::Original);
            } else {
                let j = old(db).variants@.len() as int;
                assert(db.variants@[j].image_id == db.images@[i].id && db.variants@[j].quality
                    == QualityTier::Original);
            }
        }
    }
    Ok(())
}

/// Whether every part of a multipart upload request is present.
pub open spec fn spec_upload_parts_present(req: &UploadRequest) -> bool {
    req.filename is Some && req.last_modified is Some && req.data is Some
}

/// Whether the embedded metadata of these image bytes can be read in full.
pub open spec fn spec_exif_ok(data: Seq<u8>) -> bool {
    exif_blob_of(data) matches Ok(blob) && (blob is None || exif_fields_of(blob->0) is Ok)
}

/// The metadata fields of these image bytes; empty where they carry none.
pub open spec fn spec_exif_fields(data: Seq<u8>) -> Seq<(Seq<char>, Seq<char>)> {
    match exif_blob_of(data) {
        Ok(Some(blob)) => exif_fields_of(blob)->Ok_0,
        _ => Seq::empty(),
    }
}

/// Everything an upload needs before its first remote write: all three parts
/// present, decodable image bytes, readable embedded metadata, and a capture
/// timestamp that resolves.
pub open spec fn spec_upload_input_ok(req: &UploadRequest) -> bool {
    &&& spec_upload_parts_present(req)
    &&& image_dims_of(req.data->0@) is Some
    &&& spec_exif_ok(req.data->0@)
    &&& !(spec_capture_resolution(spec_exif_fields(req.data->0@), req.last_modified->0@)
        is Unparseable)
}

/// The full upload coordinator over raw request parts: validates the
/// multipart fields, decodes the image, reads its embedded metadata,
/// resolves the capture timestamp, draws fresh identities and a fresh object
/// key, and runs the upload saga. Returns the new image's id.
///
/// Client input errors (missing part, undecodable bytes, unreadable
/// metadata, unresolvable capture time, duplicate filename) are surfaced
/// before any remote write happens.
pub fn upload_image(
    db: &mut DbModel,
    object_store: &mut ObjectStoreModel,
    queue: &mut Vec<ImageProcessingJob>,
    account_id: u128,
    req: &UploadRequest,
    out: &UploadOutcomes,
) -> (r: Result<u128, AppError>)
    requires
        consistent(old(db), old(object_store)),
        images_have_originals(old(db)),
    ensures
        consistent(final(db), final(object_store)),
        images_have_originals(final(db)),
        r is Err ==> *final(db) == *old(db),
        // A missing part is a client error before any storage operation.
        !spec_upload_parts_present(req) ==> r == Err::<u128, AppError>(
            AppError::Status(STATUS_BAD_REQUEST),
        ) && final(object_store)@ == old(object_store)@ && final(queue)@ == old(queue)@,
        // Undecodable bytes are rejected before any storage operation.
        spec_upload_parts_present(req) && image_dims_of(req.data->0@) is None ==> (
        r matches Err(e) && e is ImageError) && final(object_store)@ == old(object_store)@
            && final(queue)@ == old(queue)@,
        // Image bytes whose metadata container cannot be read are rejected
        // before any storage operation.
        spec_upload_parts_present(req) && image_dims_of(req.data->0@) is Some && exif_blob_of(
            req.data->0@,
        ) is Err ==> (r matches Err(e) && e is ImageError) && final(object_store)@ == old(
            object_store,
        )@ && final(queue)@ == old(queue)@,
        // Capture metadata that itself does not parse is rejected before any
        // storage operation.
        spec_upload_parts_present(req) && image_dims_of(req.data->0@) is Some && (exif_blob_of(
            req.data->0@,
        ) matches Ok(blob) && blob is Some && exif_fields_of(blob->0) is Err) ==> (r matches Err(e)
            && e is ExifError) && final(object_store)@ == old(object_store)@ && final(queue)@
            == old(queue)@,
        // An embedded capture time that does not parse is rejected before
        // any storage operation.
        spec_upload_parts_present(req) && image_dims_of(req.data->0@) is Some && spec_exif_ok(
            req.data->0@,
        ) && spec_capture_resolution(spec_exif_fields(req.data->0@), req.last_modified->0@)
            is Unparseable ==> (r matches Err(e) && e is DateParseError) && final(object_store)@
            == old(object_store)@ && final(queue)@ == old(queue)@,
        // A duplicate that gets past validation is refused with a conflict
        // and zero object-store or database writes.
        spec_upload_input_ok(req) && old(db).spec_has_duplicate(account_id, req.filename->0@)
            ==> r == Err::<u128, AppError>(AppError::Status(STATUS_CONFLICT))
                && final(object_store)@ == old(object_store)@ && final(queue)@ == old(queue)@,
        // Success is owed whenever the input is good, the attempt is no
        // duplicate and every remote step succeeds — short of the freshly
        // drawn object key colliding with an existing one, which is refused.
        spec_upload_input_ok(req) && !old(db).spec_has_duplicate(account_id, req.filename->0@)
            && out.spec_success() ==> (r is Ok || r == Err::<u128, AppError>(
            AppError::Status(STATUS_INTERNAL_SERVER_ERROR),
        )),
        r is Ok ==> ({
            let data = req.data->0@;
            let dims = image_dims_of(data)->0;
            let resolution = spec_capture_resolution(spec_exif_fields(data), req.last_modified->0@);
            &&& spec_upload_input_ok(req)
            &&& !old(db).spec_has_duplicate(account_id, req.filename->0@)
            &&& out.spec_success()
            &&& final(db).images@.len() == old(db).images@.len() + 1
            &&& final(db).variants@.len() == old(db).variants@.len() + 1
            &&& final(queue)@.len() == old(queue)@.len() + 1
            &&& final(db).images@.drop_last() == old(db).images@
            &&& final(db).images@.last().id == r->Ok_0
            &&& final(db).images@.last().account_id == account_id
            &&& final(db).images@.last().filename@ == req.filename->0@
            &&& final(db).images@.last().width == dims.0
            &&& final(db).images@.last().height == dims.1
            &&& final(db).images@.last().metadata.deep_view() == spec_exif_fields(data)
            &&& (resolution matches CaptureResolution::FromExif(ts)
                ==> final(db).images@.last().captured_at@ == ts)
            &&& (resolution matches CaptureResolution::FromMillis(ts)
                ==> final(db).images@.last().captured_at@ == ts)
            &&& final(db).variants@.drop_last() == old(db).variants@
            &&& final(db).variants@.last().image_id == r->Ok_0
            &&& final(db).variants@.last().quality == QualityTier::Original
            &&& final(db).variants@.last().width == dims.0
            &&& final(db).variants@.last().height == dims.1
            &&& final(db).variants@.last().compression_quality == ORIGINAL_QUALITY
            &&& final(db).variants@.last().version == INITIAL_VERSION
            &&& final(object_store)@ == old(object_store)@.insert(
                final(db).variants@.last().object_name@,
            )
            &&& final(queue)@.drop_last() == old(queue)@
            &&& final(queue)@.last().image_id == r->Ok_0
            &&& final(queue)@.last().account_id == account_id
            &&& final(queue)@.last().original_object_name@
                == final(db).variants@.last().object_name@
        }),
{
    // All three multipart parts are mandatory; a missing one fails before
    // any storage operation.
    let filename = match &req.filename {
        Some(f) => f,
        None => {
            return Err(AppError::Status(STATUS_BAD_REQUEST));
        },
    };
    let last_modified = match &req.last_modified {
        Some(l) => l,
        None => {
            return Err(AppError::Status(STATUS_BAD_REQUEST));
        },
    };
    let data = match &req.data {
        Some(d) => d,
        None => {
            return Err(AppError::Status(STATUS_BAD_REQUEST));
        },
    };

    // Decode the image and read its embedded capture metadata.
    let dims = match image_dims(data) {
        Some(d) => d,
        None => {
            return Err(AppError::ImageError("could not decode upload".to_owned()));
        },
    };
    let metadata = match extract_exif(data) {
        Ok(m) => m,
        Err(e) => {
            return Err(e);
        },
    };
    proof {
        if spec_exif_fields(req.data->0@).len() == 0 {
            assert(metadata.deep_view() =~= spec_exif_fields(req.data->0@));
        }
    }
    let captured_at = match get_capture_timestamp(&metadata, last_modified) {
        Ok(ts) => ts,
        Err(e) => {
            return Err(e);
        },
    };

    // Duplicate detection before any key is drawn: the idempotency guard.
    if db.has_duplicate(account_id, filename) {
        return Err(AppError::Status(STATUS_CONFLICT));
    }

    // Fresh identities and a fresh object key. A collision of the random
    // key with an existing blob is refused rather than overwriting it.
    let image_id = fresh_id();
    let variant_id = fresh_id();
    let object_name = get_object_name();
    if object_store.contains_key(&object_name) {
        return Err(AppError::Status(STATUS_INTERNAL_SERVER_ERROR));
    }

    match handle_upload(
        db,
        object_store,
        queue,
        account_id,
        filename,
        &captured_at,
        dims.0,
        dims.1,
        metadata,
        image_id,
        variant_id,
        &object_name,
        out,
    ) {
        Ok(()) => Ok(image_id),
        Err(e) => Err(e),
    }
}

/// Deleting a key that no committed variant row references (it was fresh
/// when this unit of work drew it) keeps the stores consistent, whether or
/// not the delete itself succeeded.
proof fn lemma_fresh_key_delete_preserves(db: &DbModel, prior: Set<Seq<char>>, key: Seq<char>)
    requires
        !prior.contains(key),
        forall|i: int|
            0 <= i < db.variants@.len() ==> prior.contains(
                (#[trigger] db.variants@[i]).object_name@,
            ),
    ensures
        forall|i: int|
            0 <= i < db.variants@.len() ==> prior.insert(key).remove(key).contains(
                (#[trigger] db.variants@[i]).object_name@,
            ),
        forall|i: int|
            0 <= i < db.variants@.len() ==> prior.insert(key).contains(
                (#[trigger] db.variants@[i]).object_name@,
            ),
{
    assert forall|i: int| 0 <= i < db.variants@.len() implies prior.insert(key).remove(
        key,
    ).contains((#[trigger] db.variants@[i]).object_name@) by {
        assert(db.variants@[i].object_name@ != key);
    }
}

} // verus!
