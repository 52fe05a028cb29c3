//! The closed set of failures an evidence operation can report.

use vstd::prelude::*;

verus! {

/// Why an evidence operation did not succeed.
#[derive(Debug, Clone)]
pub enum EvidenceError {
    /// The tracking number is not 10 to 20 uppercase letters or digits.
    InvalidIdentifier,
    /// The tracking number is well-formed but absent from the catalog.
    UnknownTracking,
    /// The submission has no `image` part, or its bytes are empty.
    MissingFile,
    /// The image is larger than the ceiling; `size` is its byte length.
    PayloadTooLarge { size: usize },
    /// The declared content type is not an allowed image type.
    UnsupportedMediaType { content_type: String },
    /// Creating the directory or writing the file failed, or the record could
    /// not be indexed.
    PersistenceFailure,
    /// No evidence with the given id is attached to the tracking number.
    NotFound,
}

impl EvidenceError {
    /// The HTTP status this failure is reported with.
    pub fn status_code(&self) -> (r: u16)
        ensures
            r == match self {
                EvidenceError::InvalidIdentifier => 400u16,
                EvidenceError::UnknownTracking => 404u16,
                EvidenceError::MissingFile => 400u16,
                EvidenceError::PayloadTooLarge { .. } => 413u16,
                EvidenceError::UnsupportedMediaType { .. } => 400u16,
                EvidenceError::PersistenceFailure => 500u16,
                EvidenceError::NotFound => 404u16,
            },
    {
        match self {
            EvidenceError::InvalidIdentifier => 400,
            EvidenceError::UnknownTracking => 404,
            EvidenceError::MissingFile => 400,
            EvidenceError::PayloadTooLarge { .. } => 413,
            EvidenceError::UnsupportedMediaType { .. } => 400,
            EvidenceError::PersistenceFailure => 500,
            EvidenceError::NotFound => 404,
        }
    }

    /// The machine-readable code carried in an error response.
    pub fn error_code(&self) -> (r: String)
        ensures
            r@ == match self {
                EvidenceError::InvalidIdentifier => "invalid_tracking_number"@,
                EvidenceError::UnknownTracking => "tracking_not_found"@,
                EvidenceError::MissingFile => "missing_file"@,
                EvidenceError::PayloadTooLarge { .. } => "file_too_large"@,
                EvidenceError::UnsupportedMediaType { .. } => "invalid_file"@,
                EvidenceError::PersistenceFailure => "internal_error"@,
                EvidenceError::NotFound => "evidence_not_found"@,
            },
    {
        let code = match self {
            EvidenceError::InvalidIdentifier => "invalid_tracking_number",
            EvidenceError::UnknownTracking => "tracking_not_found",
            EvidenceError::MissingFile => "missing_file",
            EvidenceError::PayloadTooLarge { .. } => "file_too_large",
            EvidenceError::UnsupportedMediaType { .. } => "invalid_file",
            EvidenceError::PersistenceFailure => "internal_error",
            EvidenceError::NotFound => "evidence_not_found",
        };
        String::from_str(code)
    }
}

} // verus!
