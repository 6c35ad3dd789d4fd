use photopipe::coordinator::{handle_upload, UploadOutcomes};
use photopipe::db::DbModel;
use photopipe::error::AppError;
use photopipe::records::{ImageProcessingJob, QualityTier};
use photopipe::store::ObjectStoreModel;

fn outcomes_from_bits(bits: u32) -> UploadOutcomes {
    UploadOutcomes {
        put_ok: bits & 1 != 0,
        insert_ok: bits & 2 != 0,
        enqueue_ok: bits & 4 != 0,
        commit_ok: bits & 8 != 0,
        delete_ok: bits & 16 != 0,
    }
}

fn run_one(out: &UploadOutcomes) -> (DbModel, ObjectStoreModel, Vec<ImageProcessingJob>, Result<(), AppError>) {
    let mut db = DbModel::new();
    let mut store = ObjectStoreModel::new();
    let mut queue: Vec<ImageProcessingJob> = Vec::new();
    let key = "key-original".to_string();
    let r = handle_upload(
        &mut db,
        &mut store,
        &mut queue,
        7,
        &"photo.jpg".to_string(),
        &"2023-05-01T12:00:00Z".to_string(),
        4000,
        3000,
        vec![("Make".to_string(), "camera".to_string())],
        100,
        200,
        &key,
        out,
    );
    (db, store, queue, r)
}

/// For every combination of step outcomes, either the image row, the
/// original variant row and the blob all exist, or none of them do (the blob
/// surviving only a failed compensating delete as an unreferenced orphan).
#[test]
fn upload_all_or_nothing_over_all_outcomes() {
    for bits in 0..32u32 {
        let out = outcomes_from_bits(bits);
        let (db, store, queue, r) = run_one(&out);
        let success = out.put_ok && out.insert_ok && out.enqueue_ok && out.commit_ok;
        assert_eq!(r.is_ok(), success, "bits {}", bits);
        if success {
            assert_eq!(db.images.len(), 1);
            assert_eq!(db.variants.len(), 1);
            assert!(store.contains_key(&db.variants[0].object_name));
            assert_eq!(queue.len(), 1);
            assert_eq!(queue[0].image_id, 100);
        } else {
            assert_eq!(db.images.len(), 0, "bits {}", bits);
            assert_eq!(db.variants.len(), 0, "bits {}", bits);
            if out.delete_ok || !out.put_ok {
                assert!(!store.contains_key(&"key-original".to_string()), "bits {}", bits);
            }
        }
        // No variant row ever points at a missing blob.
        for v in &db.variants {
            assert!(store.contains_key(&v.object_name));
        }
    }
}

/// A second upload of the same filename for the same account is refused with
/// a conflict and performs zero object-store or database writes.
#[test]
fn duplicate_upload_conflict() {
    let ok = UploadOutcomes { put_ok: true, insert_ok: true, enqueue_ok: true, commit_ok: true, delete_ok: true };
    let mut db = DbModel::new();
    let mut store = ObjectStoreModel::new();
    let mut queue: Vec<ImageProcessingJob> = Vec::new();
    let first = handle_upload(
        &mut db, &mut store, &mut queue, 7,
        &"photo.jpg".to_string(), &"t0".to_string(), 4000, 3000, Vec::new(),
        100, 200, &"key-a".to_string(), &ok,
    );
    assert!(first.is_ok());
    let second = handle_upload(
        &mut db, &mut store, &mut queue, 7,
        &"photo.jpg".to_string(), &"t1".to_string(), 4000, 3000, Vec::new(),
        101, 201, &"key-b".to_string(), &ok,
    );
    assert!(matches!(second, Err(AppError::Status(409))));
    assert_eq!(db.images.len(), 1);
    assert_eq!(db.variants.len(), 1);
    assert_eq!(queue.len(), 1);
    assert!(!store.contains_key(&"key-b".to_string()));
    // A different account may upload the same filename.
    let other_account = handle_upload(
        &mut db, &mut store, &mut queue, 8,
        &"photo.jpg".to_string(), &"t2".to_string(), 100, 50, Vec::new(),
        102, 202, &"key-c".to_string(), &ok,
    );
    assert!(other_account.is_ok());
    assert_eq!(db.images.len(), 2);
}

/// The committed image row carries what the coordinator was given.
#[test]
fn upload_records_fields() {
    let ok = UploadOutcomes { put_ok: true, insert_ok: true, enqueue_ok: true, commit_ok: true, delete_ok: true };
    let (db, store, queue, r) = run_one(&ok);
    assert!(r.is_ok());
    let image = &db.images[0];
    assert_eq!(image.id, 100);
    assert_eq!(image.account_id, 7);
    assert_eq!(image.filename, "photo.jpg");
    assert_eq!(image.captured_at, "2023-05-01T12:00:00Z");
    assert_eq!(image.width, 4000);
    assert_eq!(image.height, 3000);
    assert_eq!(image.metadata.len(), 1);
    assert_eq!(image.metadata[0].0, "Make");
    let variant = &db.variants[0];
    assert_eq!(variant.id, 200);
    assert_eq!(variant.image_id, 100);
    assert_eq!(variant.object_name, "key-original");
    assert_eq!(variant.width, 4000);
    assert_eq!(variant.height, 3000);
    assert_eq!(variant.compression_quality, 100);
    assert!(matches!(variant.quality, QualityTier::Original));
    assert_eq!(variant.version, 1);
    assert!(store.contains_key(&"key-original".to_string()));
    assert_eq!(queue[0].account_id, 7);
    assert_eq!(queue[0].original_object_name, "key-original");
}

/// A failed row insert surfaces the database error and deletes the blob.
#[test]
fn insert_failure_compensates() {
    let out = UploadOutcomes { put_ok: true, insert_ok: false, enqueue_ok: true, commit_ok: true, delete_ok: true };
    let (db, store, queue, r) = run_one(&out);
    assert!(matches!(r, Err(AppError::DBError(_))));
    assert_eq!(db.images.len(), 0);
    assert!(!store.contains_key(&"key-original".to_string()));
    assert_eq!(queue.len(), 0);
}

/// A failed blob upload surfaces a server error before any database write.
#[test]
fn put_failure_touches_nothing() {
    let out = UploadOutcomes { put_ok: false, insert_ok: true, enqueue_ok: true, commit_ok: true, delete_ok: true };
    let (db, store, queue, r) = run_one(&out);
    assert!(matches!(r, Err(AppError::Status(500))));
    assert_eq!(db.images.len(), 0);
    assert!(!store.contains_key(&"key-original".to_string()));
    assert_eq!(queue.len(), 0);
}

/// An enqueue failure rolls the transaction back and deletes the blob: a
/// committed image must never lack a path to its variants.
#[test]
fn enqueue_failure_rolls_back() {
    let out = UploadOutcomes { put_ok: true, insert_ok: true, enqueue_ok: false, commit_ok: true, delete_ok: true };
    let (db, store, queue, r) = run_one(&out);
    assert!(matches!(r, Err(AppError::Status(500))));
    assert_eq!(db.images.len(), 0);
    assert_eq!(queue.len(), 0);
    assert!(!store.contains_key(&"key-original".to_string()));
}

/// A commit failure after a successful enqueue deletes the blob and keeps
/// the database untouched; the job cannot be recalled from the channel and
/// will fail harmlessly at the worker.
#[test]
fn commit_failure_keeps_job_enqueued() {
    let out = UploadOutcomes { put_ok: true, insert_ok: true, enqueue_ok: true, commit_ok: false, delete_ok: true };
    let (db, store, queue, r) = run_one(&out);
    assert!(matches!(r, Err(AppError::DBError(_))));
    assert_eq!(db.images.len(), 0);
    assert_eq!(db.variants.len(), 0);
    assert!(!store.contains_key(&"key-original".to_string()));
    assert_eq!(queue.len(), 1);
}

/// A failed compensating delete leaves an orphan blob, never a dangling row.
#[test]
fn failed_compensating_delete_leaves_only_orphan() {
    let out = UploadOutcomes { put_ok: true, insert_ok: false, enqueue_ok: true, commit_ok: true, delete_ok: false };
    let (db, store, _queue, r) = run_one(&out);
    assert!(r.is_err());
    assert_eq!(db.images.len(), 0);
    assert_eq!(db.variants.len(), 0);
    assert!(store.contains_key(&"key-original".to_string()));
}
