use photopipe::coordinator::{handle_upload, UploadOutcomes};
use photopipe::db::DbModel;
use photopipe::error::AppError;
use photopipe::records::{ImageProcessingJob, QualityTier};
use photopipe::store::ObjectStoreModel;
use photopipe::worker::{process_job, JobOutcomes};

fn all_ok_upload() -> UploadOutcomes {
    UploadOutcomes { put_ok: true, insert_ok: true, enqueue_ok: true, commit_ok: true, delete_ok: true }
}

fn all_ok_job(dims: (u32, u32)) -> JobOutcomes {
    JobOutcomes {
        download_ok: true,
        decoded_dims: Some(dims),
        medium_upload_ok: true,
        small_upload_ok: true,
        medium_insert_ok: true,
        small_insert_ok: true,
        commit_ok: true,
        medium_delete_ok: true,
        small_delete_ok: true,
    }
}

/// One committed image with its original variant and blob, plus the queued
/// job, as the coordinator leaves them.
fn seeded_world() -> (DbModel, ObjectStoreModel, ImageProcessingJob) {
    let mut db = DbModel::new();
    let mut store = ObjectStoreModel::new();
    let mut queue: Vec<ImageProcessingJob> = Vec::new();
    let r = handle_upload(
        &mut db, &mut store, &mut queue, 7,
        &"photo.jpg".to_string(), &"t0".to_string(), 4000, 3000, Vec::new(),
        100, 200, &"key-original".to_string(), &all_ok_upload(),
    );
    assert!(r.is_ok());
    let job = queue.pop().unwrap();
    (db, store, job)
}

/// A fully successful job adds exactly the medium and small variant rows,
/// with halved and quartered dimensions, and both blobs.
#[test]
fn worker_success_adds_both_variants() {
    let (mut db, mut store, job) = seeded_world();
    let r = process_job(
        &mut db, &mut store, &job, 301, 302,
        &"key-medium".to_string(), &"key-small".to_string(),
        &all_ok_job((4000, 3000)),
    );
    assert!(r.is_ok());
    assert_eq!(db.images.len(), 1);
    assert_eq!(db.variants.len(), 3);
    let medium = &db.variants[1];
    assert_eq!(medium.image_id, job.image_id);
    assert!(matches!(medium.quality, QualityTier::Medium));
    assert_eq!((medium.width, medium.height), (2000, 1500));
    assert_eq!(medium.compression_quality, 80);
    assert_eq!(medium.object_name, "key-medium");
    let small = &db.variants[2];
    assert!(matches!(small.quality, QualityTier::Small));
    assert_eq!((small.width, small.height), (1000, 750));
    assert_eq!(small.compression_quality, 80);
    assert_eq!(small.object_name, "key-small");
    for v in &db.variants {
        assert!(store.contains_key(&v.object_name));
    }
}

/// Partial-failure compensation: the medium upload succeeds, the small one
/// fails; afterwards the medium blob has been deleted and no medium or small
/// rows exist.
#[test]
fn partial_failure_deletes_surviving_upload() {
    let (mut db, mut store, job) = seeded_world();
    let out = JobOutcomes { small_upload_ok: false, ..all_ok_job((4000, 3000)) };
    let r = process_job(
        &mut db, &mut store, &job, 301, 302,
        &"key-medium".to_string(), &"key-small".to_string(), &out,
    );
    assert!(matches!(r, Err(AppError::Status(500))));
    assert_eq!(db.variants.len(), 1);
    assert!(!store.contains_key(&"key-medium".to_string()));
    assert!(!store.contains_key(&"key-small".to_string()));
    assert!(store.contains_key(&"key-original".to_string()));
}

/// A row-insert failure rolls the transaction back and deletes both blobs.
#[test]
fn insert_failure_deletes_both_blobs() {
    let (mut db, mut store, job) = seeded_world();
    let out = JobOutcomes { medium_insert_ok: false, ..all_ok_job((4000, 3000)) };
    let r = process_job(
        &mut db, &mut store, &job, 301, 302,
        &"key-medium".to_string(), &"key-small".to_string(), &out,
    );
    assert!(matches!(r, Err(AppError::DBError(_))));
    assert_eq!(db.variants.len(), 1);
    assert!(!store.contains_key(&"key-medium".to_string()));
    assert!(!store.contains_key(&"key-small".to_string()));
}

/// A commit failure deletes both blobs and leaves the database untouched.
#[test]
fn commit_failure_deletes_both_blobs() {
    let (mut db, mut store, job) = seeded_world();
    let out = JobOutcomes { commit_ok: false, ..all_ok_job((4000, 3000)) };
    let r = process_job(
        &mut db, &mut store, &job, 301, 302,
        &"key-medium".to_string(), &"key-small".to_string(), &out,
    );
    assert!(matches!(r, Err(AppError::DBError(_))));
    assert_eq!(db.variants.len(), 1);
    assert!(!store.contains_key(&"key-medium".to_string()));
    assert!(!store.contains_key(&"key-small".to_string()));
}

/// Undecodable bytes stop the job before anything is touched.
#[test]
fn decode_failure_touches_nothing() {
    let (mut db, mut store, job) = seeded_world();
    let out = JobOutcomes { decoded_dims: None, ..all_ok_job((0, 0)) };
    let r = process_job(
        &mut db, &mut store, &job, 301, 302,
        &"key-medium".to_string(), &"key-small".to_string(), &out,
    );
    assert!(matches!(r, Err(AppError::ImageError(_))));
    assert_eq!(db.variants.len(), 1);
    assert!(!store.contains_key(&"key-medium".to_string()));
    assert!(!store.contains_key(&"key-small".to_string()));
}

/// Over every combination of step outcomes, no variant row ever points at a
/// missing blob, and rows appear only on full success.
#[test]
fn worker_consistency_over_all_outcomes() {
    for bits in 0..256u32 {
        let (mut db, mut store, job) = seeded_world();
        let out = JobOutcomes {
            download_ok: bits & 1 != 0,
            decoded_dims: if bits & 2 != 0 { Some((640, 480)) } else { None },
            medium_upload_ok: bits & 4 != 0,
            small_upload_ok: bits & 8 != 0,
            medium_insert_ok: bits & 16 != 0,
            small_insert_ok: bits & 32 != 0,
            commit_ok: bits & 64 != 0,
            medium_delete_ok: bits & 128 != 0,
            small_delete_ok: bits & 128 != 0,
        };
        let r = process_job(
            &mut db, &mut store, &job, 301, 302,
            &"key-medium".to_string(), &"key-small".to_string(), &out,
        );
        let success = out.download_ok && out.decoded_dims.is_some() && out.medium_upload_ok
            && out.small_upload_ok && out.medium_insert_ok && out.small_insert_ok && out.commit_ok;
        assert_eq!(r.is_ok(), success, "bits {}", bits);
        assert_eq!(db.variants.len(), if success { 3 } else { 1 }, "bits {}", bits);
        for v in &db.variants {
            assert!(store.contains_key(&v.object_name), "bits {}", bits);
        }
    }
}

/// Concurrent workers with disjoint jobs: three distinct jobs each produce
/// exactly two new variant rows and two new blobs, with no cross-job
/// interference between their keys.
#[test]
fn disjoint_jobs_do_not_interfere() {
    let mut db = DbModel::new();
    let mut store = ObjectStoreModel::new();
    let mut queue: Vec<ImageProcessingJob> = Vec::new();
    for n in 0..3u32 {
        let r = handle_upload(
            &mut db, &mut store, &mut queue, 7,
            &format!("photo-{}.jpg", n), &"t0".to_string(), 4000, 3000, Vec::new(),
            100 + n as u128, 200 + n as u128, &format!("key-original-{}", n), &all_ok_upload(),
        );
        assert!(r.is_ok());
    }
    let jobs: Vec<ImageProcessingJob> = queue.drain(..).collect();
    for (n, job) in jobs.iter().enumerate() {
        let before = db.variants.len();
        let r = process_job(
            &mut db, &mut store, job,
            301 + n as u128, 401 + n as u128,
            &format!("key-medium-{}", n), &format!("key-small-{}", n),
            &all_ok_job((4000, 3000)),
        );
        assert!(r.is_ok());
        assert_eq!(db.variants.len(), before + 2);
    }
    // Each image ends up with exactly three variants, and all keys are
    // distinct and present.
    for n in 0..3u128 {
        let count = db.variants.iter().filter(|v| v.image_id == 100 + n).count();
        assert_eq!(count, 3);
    }
    let mut keys: Vec<&String> = db.variants.iter().map(|v| &v.object_name).collect();
    let total = keys.len();
    keys.sort();
    keys.dedup();
    assert_eq!(keys.len(), total);
    for v in &db.variants {
        assert!(store.contains_key(&v.object_name));
    }
}
