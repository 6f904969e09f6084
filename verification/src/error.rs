use vstd::prelude::*;

verus! {

/// The closed set of failures the pipeline can produce, one variant per
/// stage, each carrying a human-readable message.
#[derive(Debug, PartialEq, Eq)]
pub enum CropError {
    /// An HTTP transport failure or a non-success HTTP status.
    NetworkError(String),
    /// The URL does not start with the required scheme prefix.
    InvalidUrlError(String),
    /// The downloaded bytes are not a decodable image.
    ImageDecodeError(String),
    /// The output could not be encoded or written for the given path.
    FileWriteError(String),
    /// The clipboard was unavailable or rejected the payload.
    ClipboardError(String),
}

} // verus!
