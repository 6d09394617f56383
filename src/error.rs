use vstd::prelude::*;

verus! {

/// Why an extraction request did not produce text. Each variant carries a
/// human-readable description of the underlying cause.
pub enum ExtractError {
    /// The request string is not a well-formed absolute URL.
    InvalidUrl(String),
    /// The host could not be reached or the response could not be received.
    FetchFailed(String),
    /// The response body could not be read as text.
    DecodeFailed(String),
    /// No main-content region could be isolated in the page.
    ExtractionFailed(String),
}

impl ExtractError {
    /// The description of the cause, whatever the kind.
    pub fn message(&self) -> (r: &String)
        ensures
            r == match self {
                ExtractError::InvalidUrl(m) => m,
                ExtractError::FetchFailed(m) => m,
                ExtractError::DecodeFailed(m) => m,
                ExtractError::ExtractionFailed(m) => m,
            },
    {
        match self {
            ExtractError::InvalidUrl(m) => m,
            ExtractError::FetchFailed(m) => m,
            ExtractError::DecodeFailed(m) => m,
            ExtractError::ExtractionFailed(m) => m,
        }
    }
}

} // verus!
