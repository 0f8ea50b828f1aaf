//! The ways a request of the reader can fail.
use vstd::prelude::*;

verus! {

/// Why the source could not answer.
#[derive(Debug)]
pub enum SourceError {
    /// No server address was set.
    ServerUrlNotConfigured,
    /// A manga, chapter or category key is not a 32-bit integer.
    InvalidId,
    /// No listing has the given id.
    UnknownListing(String),
    /// The request body could not be written.
    JsonSerialize,
}

/// The message shown for an error.
pub open spec fn error_message(e: SourceError) -> Seq<char> {
    match e {
        SourceError::ServerUrlNotConfigured =>
            "Server URL not configured. Please set the Suwayomi server URL in source settings."@,
        SourceError::InvalidId => "Invalid ID"@,
        SourceError::UnknownListing(id) => "Unknown listing: "@ + id@,
        SourceError::JsonSerialize => "JSON serialize error"@,
    }
}

impl SourceError {
    /// The message shown for this error.
    pub fn message(&self) -> (r: String)
        ensures
            r@ == error_message(*self),
    {
        match self {
            SourceError::ServerUrlNotConfigured => String::from_str(
                "Server URL not configured. Please set the Suwayomi server URL in source settings.",
            ),
            SourceError::InvalidId => String::from_str("Invalid ID"),
            SourceError::UnknownListing(id) => {
                let mut s = String::from_str("Unknown listing: ");
                s.append(id.as_str());
                s
            },
            SourceError::JsonSerialize => String::from_str("JSON serialize error"),
        }
    }
}

} // verus!
