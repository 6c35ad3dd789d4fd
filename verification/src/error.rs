//! The pipeline's error type and its mapping to HTTP status codes.

use vstd::prelude::*;

verus! {

/// An HTTP status code, kept as its numeric value.
pub type StatusCode = u16;

pub const STATUS_BAD_REQUEST: u16 = 400;
pub const STATUS_NOT_FOUND: u16 = 404;
pub const STATUS_CONFLICT: u16 = 409;
pub const STATUS_INTERNAL_SERVER_ERROR: u16 = 500;

/// Every failure the ingestion pipeline can surface.
///
/// Errors arising in outside systems are carried as their rendered message,
/// so that the pipeline's own logic stays over plain values.
#[derive(Debug)]
pub enum AppError {
    /// A bare status code.
    Status(StatusCode),
    /// A status code with a human-readable description.
    Text(StatusCode, String),
    /// A database statement or transaction failed.
    DBError(String),
    /// Image bytes could not be decoded or re-encoded.
    ImageError(String),
    /// Embedded capture metadata could not be parsed.
    ExifError(String),
    /// A capture timestamp could not be parsed or represented.
    DateParseError(String),
}

impl AppError {
    /// The status code an HTTP response for this error carries: client input
    /// errors map to 400-class codes, failures of the stores to 500.
    pub fn status_code(&self) -> (code: u16)
        ensures
            code == self.spec_status_code(),
    {
        match self {
            AppError::Status(code) => *code,
            AppError::Text(code, _) => *code,
            AppError::DBError(_) => STATUS_INTERNAL_SERVER_ERROR,
            AppError::ImageError(_) => STATUS_BAD_REQUEST,
            AppError::ExifError(_) => STATUS_BAD_REQUEST,
            AppError::DateParseError(_) => STATUS_BAD_REQUEST,
        }
    }

    pub open spec fn spec_status_code(&self) -> u16 {
        match self {
            AppError::Status(code) => *code,
            AppError::Text(code, _) => *code,
            AppError::DBError(_) => STATUS_INTERNAL_SERVER_ERROR,
            AppError::ImageError(_) => STATUS_BAD_REQUEST,
            AppError::ExifError(_) => STATUS_BAD_REQUEST,
            AppError::DateParseError(_) => STATUS_BAD_REQUEST,
        }
    }
}

} // verus!
