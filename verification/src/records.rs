//! The pipeline's data model: image and variant rows, and the job message
//! that links the upload coordinator to the worker pool.

use vstd::prelude::*;

verus! {

/// Compression quality used when the original is recorded.
pub const ORIGINAL_QUALITY: u8 = 100;
/// Compression quality used for the derived medium variant.
pub const MEDIUM_QUALITY: u8 = 80;
/// Compression quality used for the derived small variant.
pub const SMALL_QUALITY: u8 = 80;
/// Version number given to every newly derived variant.
pub const INITIAL_VERSION: u64 = 1;

/// The quality tier a variant belongs to.
#[derive(Clone, Copy, Debug, PartialEq, Eq, Structural)]
pub enum QualityTier {
    Original,
    Medium,
    Small,
}

/// A row of the image table. An image row exists exactly when its original
/// variant row and the original blob exist; the upload coordinator
/// guarantees this atomically from the caller's perspective.
pub struct ImageRecord {
    /// Opaque, time-sortable identity.
    pub id: u128,
    /// The account that owns the image.
    pub account_id: u128,
    /// Original filename as uploaded.
    pub filename: String,
    /// Capture timestamp, rendered as text.
    pub captured_at: String,
    /// Pixel width of the original; together with `height` this carries the
    /// aspect ratio.
    pub width: u32,
    /// Pixel height of the original.
    pub height: u32,
    /// Raw capture metadata, preserved verbatim as key/value pairs with no
    /// enforced schema.
    pub metadata: Vec<(String, String)>,
}

/// A row of the variant table. For every committed variant row the
/// corresponding object-store blob exists; this is the central consistency
/// invariant the pipeline protects.
pub struct VariantRecord {
    /// Opaque identity.
    pub id: u128,
    /// The image this variant renders.
    pub image_id: u128,
    /// Key of the blob in the object store.
    pub object_name: String,
    /// Pixel width of this rendition.
    pub width: u32,
    /// Pixel height of this rendition.
    pub height: u32,
    /// Compression quality the rendition was encoded with.
    pub compression_quality: u8,
    /// Which tier this rendition belongs to.
    pub quality: QualityTier,
    /// Monotonically increasing version, supporting future re-derivation.
    pub version: u64,
}

/// The message the upload coordinator enqueues for the worker pool, produced
/// exactly once per successful original upload and consumed by one worker.
pub struct ImageProcessingJob {
    pub image_id: u128,
    pub account_id: u128,
    pub original_object_name: String,
}

impl ImageProcessingJob {
    pub fn clone_job(&self) -> (r: ImageProcessingJob)
        ensures
            r == *self,
    {
        ImageProcessingJob {
            image_id: self.image_id,
            account_id: self.account_id,
            original_object_name: self.original_object_name.clone(),
        }
    }
}

/// The three parts of an inbound upload request, each as the multipart
/// decoder hands it over: any of them may be missing, which the coordinator
/// rejects before any storage operation.
pub struct UploadRequest {
    /// The client's filename part.
    pub filename: Option<String>,
    /// The client's last-modified part: a string-encoded count of epoch
    /// milliseconds.
    pub last_modified: Option<String>,
    /// The raw image bytes.
    pub data: Option<Vec<u8>>,
}

} // verus!
