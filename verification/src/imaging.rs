//! Decoding, resizing and re-encoding of image bytes, and extraction of the
//! embedded capture metadata. The pixel work itself is done by outside
//! codecs behind trusted wrappers whose results are functions of the bytes
//! alone; the pipeline's own logic only ever sees plain values.

use vstd::prelude::*;
use std::io::Cursor;
use crate::error::AppError;

verus! {

/// The pixel dimensions the bytes decode to, or nothing where they are not a
/// decodable image: a function of the bytes alone.
pub uninterp spec fn image_dims_of(data: Seq<u8>) -> Option<(u32, u32)>;

/// Relies on image's `ImageReader` (`with_guessed_format`, `decode`) and
/// `GenericImageView::dimensions`: whether the bytes decode, and to which
/// width and height, depends on the bytes alone.
#[verifier::external_body]
pub(crate) fn image_dims(data: &Vec<u8>) -> (r: Option<(u32, u32)>)
    ensures
        r == image_dims_of(data@),
{
    let reader = image::ImageReader::new(Cursor::new(data.as_slice())).with_guessed_format().ok()?;
    let img = reader.decode().ok()?;
    Some(image::GenericImageView::dimensions(&img))
}

/// The bytes image re-encodes an image to, after resizing it to fit within
/// the given bounds and JPEG-compressing it at the given quality, or nothing
/// where the bytes do not decode or cannot be re-encoded: a function of its
/// arguments alone.
pub uninterp spec fn recompressed_of(data: Seq<u8>, width: u32, height: u32, quality: u8) -> Option<
    Seq<u8>,
>;

/// Re-encodes the image at a reduced size: a resize to fit within the given
/// bounds (triangle filter), then a JPEG encoding at the given quality.
///
/// Relies on image's `ImageReader::decode`, `DynamicImage::resize` and
/// `write_with_encoder` with `JpegEncoder::new_with_quality`: decoding,
/// resizing and encoding consult the arguments alone, so whether a rendition
/// is produced, and its bytes, are a function of them.
#[verifier::external_body]
pub fn compress_image(data: &Vec<u8>, width: u32, height: u32, quality: u8) -> (r: Result<
    Vec<u8>,
    AppError,
>)
    ensures
        r is Ok <==> recompressed_of(data@, width, height, quality) is Some,
        r is Ok ==> r->Ok_0@ == recompressed_of(data@, width, height, quality)->0,
        image_dims_of(data@) is None ==> r is Err,
        r is Err ==> r->Err_0 is ImageError,
{
    let err = |e: image::ImageError| AppError::ImageError(e.to_string());
    let reader = Cursor::new(data.as_slice());
    let image = image::ImageReader::new(reader)
        .with_guessed_format()
        .map_err(|e| AppError::ImageError(e.to_string()))?
        .decode()
        .map_err(err)?;
    let image = image.resize(width, height, image::imageops::FilterType::Triangle);
    let mut bytes: Vec<u8> = Vec::new();
    let write = Cursor::new(&mut bytes);
    let encoder = image::codecs::jpeg::JpegEncoder::new_with_quality(write, quality);
    image.write_with_encoder(encoder).map_err(err)?;
    Ok(bytes)
}

/// The raw Exif blob embedded in the image bytes: `Err` where the container
/// cannot be read, `Ok(None)` where it holds no capture metadata. A function
/// of the bytes alone.
pub uninterp spec fn exif_blob_of(data: Seq<u8>) -> Result<Option<Seq<u8>>, ()>;

/// Relies on image's `ImageReader::into_decoder` and
/// `ImageDecoder::exif_metadata`: the embedded Exif blob, if any, depends on
/// the bytes alone.
#[verifier::external_body]
fn extract_exif_blob(data: &Vec<u8>) -> (r: Result<Option<Vec<u8>>, AppError>)
    ensures
        r is Ok <==> exif_blob_of(data@) is Ok,
        r is Ok ==> ({
            let blob = exif_blob_of(data@)->Ok_0;
            match r->Ok_0 {
                Some(v) => blob is Some && v@ == blob->0,
                None => blob is None,
            }
        }),
        r is Err ==> r->Err_0 is ImageError,
{
    let err = |e: image::ImageError| AppError::ImageError(e.to_string());
    let reader = Cursor::new(data.as_slice());
    let mut decoder = image::ImageReader::new(reader)
        .with_guessed_format()
        .map_err(|e| AppError::ImageError(e.to_string()))?
        .into_decoder()
        .map_err(err)?;
    image::ImageDecoder::exif_metadata(&mut decoder).map_err(err)
}

/// The capture-metadata fields kamadak-exif reads from a raw Exif blob, each
/// tag and value rendered as text, in field order; `Err` where the blob does
/// not parse. A function of the blob alone.
pub uninterp spec fn exif_fields_of(blob: Seq<u8>) -> Result<Seq<(Seq<char>, Seq<char>)>, ()>;

/// Relies on exif's `Reader::read_raw`, and on `Tag`'s and `DisplayValue`'s
/// renderings: the fields and their shown forms depend on the blob alone.
/// Each field is converted to a pair of plain strings.
#[verifier::external_body]
fn parse_exif_fields(blob: &Vec<u8>) -> (r: Result<Vec<(String, String)>, AppError>)
    ensures
        r is Ok <==> exif_fields_of(blob@) is Ok,
        r is Ok ==> r->Ok_0.deep_view() == exif_fields_of(blob@)->Ok_0,
        r is Err ==> r->Err_0 is ExifError,
{
    let exif = exif::Reader::new().read_raw(blob.clone()).map_err(
        |e| AppError::ExifError(e.to_string()),
    )?;
    Ok(
        exif.fields().map(
            |f| (f.tag.to_string(), f.display_value().to_string()),
        ).collect(),
    )
}

/// Reads the embedded capture metadata out of the image bytes as plain
/// key/value pairs, preserved verbatim: empty where the image carries none,
/// an error where the container or the metadata itself cannot be read.
pub fn extract_exif(data: &Vec<u8>) -> (r: Result<Vec<(String, String)>, AppError>)
    ensures
        r is Ok <==> (exif_blob_of(data@) matches Ok(blob) && (blob is None || exif_fields_of(
            blob->0,
        ) is Ok)),
        (exif_blob_of(data@) matches Ok(blob) && blob is Some && exif_fields_of(blob->0) is Ok)
            ==> r is Ok && r->Ok_0.deep_view() == exif_fields_of(exif_blob_of(data@)->Ok_0->0)->Ok_0,
        (exif_blob_of(data@) matches Ok(blob) && blob is None) ==> r is Ok && r->Ok_0@.len() == 0,
        exif_blob_of(data@) is Err ==> (r matches Err(e) && e is ImageError),
        (exif_blob_of(data@) matches Ok(blob) && blob is Some && exif_fields_of(blob->0) is Err)
            ==> (r matches Err(e) && e is ExifError),
{
    match extract_exif_blob(data) {
        Err(e) => Err(e),
        Ok(None) => Ok(Vec::new()),
        Ok(Some(blob)) => parse_exif_fields(&blob),
    }
}

} // verus!
