//! The errors of the client.

use vstd::prelude::*;
use crate::report::ValidationErrors;

verus! {

/// The error of the `url` crate's parser. Nothing is known of its inside:
/// it is carried from the parser to the caller.
#[verifier::external_type_specification]
#[verifier::external_body]
pub struct ExParseError(url::ParseError);

/// Everything that can go wrong between building a descriptor and reading
/// the answer of the service.
#[derive(Debug)]
pub enum FirecrackerError {
    /// The exchange with the service could not be completed; the text is
    /// what the transport reported.
    HttpClient(String),
    /// The address of the service and the path of the resource do not make
    /// a URL.
    UrlParseError(url::ParseError),
    /// A body could not be written as JSON or read from it.
    Serialization(String),
    /// The descriptor was rejected before anything was sent.
    Validation(ValidationErrors),
    /// The service answered, and refused: its status and its answer, as
    /// they came.
    Api { status_code: u16, message: String },
    /// A path is not usable.
    InvalidPath(String),
    /// The file system refused an operation on `path`.
    FileSystem { path: String, source: String },
    /// The client is not configured as it must be.
    Config(String),
    /// A snapshot could not be taken or loaded.
    Snapshot(String),
    /// A rate limit was exceeded.
    RateLimit(String),
    /// The microVM is not in a state in which the operation is possible.
    InvalidState { current_state: String, expected_states: Vec<String> },
    /// The operation took longer than allowed.
    Timeout { duration_secs: u64 },
    /// A condition that validated input cannot produce.
    Internal(String),
}

/// The result of an operation of the client.
pub type FirecrackerResult<T> = Result<T, FirecrackerError>;

} // verus!
