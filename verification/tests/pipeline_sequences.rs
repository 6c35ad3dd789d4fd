use photopipe::coordinator::{handle_upload, UploadOutcomes};
use photopipe::db::DbModel;
use photopipe::records::{ImageProcessingJob, QualityTier};
use photopipe::store::ObjectStoreModel;
use photopipe::worker::{process_job, JobOutcomes};

/// A small deterministic generator, so the interleaving below is arbitrary
/// but reproducible.
struct Lcg(u64);

impl Lcg {
    fn next(&mut self) -> u64 {
        self.0 = self.0.wrapping_mul(6364136223846793005).wrapping_add(1442695040888963407);
        self.0 >> 33
    }

    fn flag(&mut self) -> bool {
        self.next() % 4 != 0
    }
}

/// Over a long arbitrary interleaving of uploads and worker passes, with
/// every remote step failing at random, no variant row ever points at a
/// missing blob, and every image row keeps its original variant.
#[test]
fn interleaved_pipeline_stays_consistent() {
    let mut rng = Lcg(42);
    let mut db = DbModel::new();
    let mut store = ObjectStoreModel::new();
    let mut queue: Vec<ImageProcessingJob> = Vec::new();
    let mut serial: u64 = 0;

    for step in 0..200u32 {
        serial += 1;
        if step % 2 == 0 || queue.is_empty() {
            let out = UploadOutcomes {
                put_ok: rng.flag(),
                insert_ok: rng.flag(),
                enqueue_ok: rng.flag(),
                commit_ok: rng.flag(),
                delete_ok: rng.flag(),
            };
            let _ = handle_upload(
                &mut db,
                &mut store,
                &mut queue,
                1 + (serial as u128 % 3),
                &format!("photo-{}.jpg", serial),
                &"t0".to_string(),
                4000,
                3000,
                Vec::new(),
                1000 + serial as u128,
                2000 + serial as u128,
                &format!("key-original-{}", serial),
                &out,
            );
        } else {
            let job = queue.remove((rng.next() as usize) % queue.len());
            let out = JobOutcomes {
                download_ok: rng.flag(),
                decoded_dims: if rng.flag() { Some((640, 480)) } else { None },
                medium_upload_ok: rng.flag(),
                small_upload_ok: rng.flag(),
                medium_insert_ok: rng.flag(),
                small_insert_ok: rng.flag(),
                commit_ok: rng.flag(),
                medium_delete_ok: rng.flag(),
                small_delete_ok: rng.flag(),
            };
            let _ = process_job(
                &mut db,
                &mut store,
                &job,
                3000 + serial as u128,
                4000 + serial as u128,
                &format!("key-medium-{}", serial),
                &format!("key-small-{}", serial),
                &out,
            );
        }

        // The existence invariant: every visible variant row has its blob.
        for v in &db.variants {
            assert!(store.contains_key(&v.object_name), "step {}", step);
        }
        // No dangling image: every image row has its original variant row,
        // and through it a blob a reader can fetch.
        for image in &db.images {
            let original = db
                .variants
                .iter()
                .find(|v| v.image_id == image.id && matches!(v.quality, QualityTier::Original));
            assert!(original.is_some(), "step {}", step);
        }
    }
    // The interleaving really exercised both kinds of step.
    assert!(db.images.len() > 2);
    assert!(db.variants.len() > db.images.len());
}

/// The read path never hands out a dangling reference: a key found for any
/// image and tier always has a blob.
#[test]
fn read_path_keys_always_resolve() {
    let mut db = DbModel::new();
    let mut store = ObjectStoreModel::new();
    let mut queue: Vec<ImageProcessingJob> = Vec::new();
    let ok = UploadOutcomes { put_ok: true, insert_ok: true, enqueue_ok: true, commit_ok: true, delete_ok: true };
    handle_upload(
        &mut db, &mut store, &mut queue, 1,
        &"photo.jpg".to_string(), &"t0".to_string(), 400, 300, Vec::new(),
        10, 20, &"key-original".to_string(), &ok,
    )
    .unwrap();
    let job = queue.pop().unwrap();
    let all_ok = JobOutcomes {
        download_ok: true,
        decoded_dims: Some((400, 300)),
        medium_upload_ok: true,
        small_upload_ok: true,
        medium_insert_ok: true,
        small_insert_ok: true,
        commit_ok: true,
        medium_delete_ok: true,
        small_delete_ok: true,
    };
    process_job(
        &mut db, &mut store, &job, 30, 40,
        &"key-medium".to_string(), &"key-small".to_string(), &all_ok,
    )
    .unwrap();

    for tier in [QualityTier::Original, QualityTier::Medium, QualityTier::Small] {
        let key = db.find_variant_key(10, tier).expect("variant exists");
        assert!(store.contains_key(key));
    }
    assert!(db.find_variant_key(10, QualityTier::Original).is_some());
    assert!(db.find_variant_key(99, QualityTier::Original).is_none());
}
