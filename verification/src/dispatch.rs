//! Requests and the classification of what comes back.
//!
//! The library sends nothing itself. An operation yields a [`Request`];
//! the caller sends it with the transport of its choice and hands back
//! either a [`Response`] or the transport's failure, which
//! [`map_outcome`] classifies.

use vstd::prelude::*;
use crate::error::FirecrackerError;
use crate::wire::WireValue;

verus! {

/// The verb of a request.
#[derive(Clone, Copy, Debug, PartialEq, Eq, Structural)]
pub enum Method {
    /// Reads a resource.
    Get,
    /// Replaces a resource.
    Put,
    /// Updates a part of a resource.
    Patch,
}

/// One request to the service: verb, address and, for a write, the body.
#[derive(Debug)]
pub struct Request {
    pub method: Method,
    pub url: String,
    pub body: Option<WireValue>,
}

impl Request {
    /// The request with the given verb and body for the resource whose
    /// address the URL parser read as `address`: where the parser failed,
    /// its error is passed on.
    pub fn at(method: Method, address: Result<String, url::ParseError>, body: Option<WireValue>) -> (r:
        Result<Request, FirecrackerError>)
        ensures
            address matches Ok(url) ==> r == Ok::<Request, FirecrackerError>(
                Request { method, url, body },
            ),
            address matches Err(e) ==> r == Err::<Request, FirecrackerError>(
                FirecrackerError::UrlParseError(e),
            ),
    {
        match address {
            Ok(url) => Ok(Request { method, url, body }),
            Err(e) => Err(FirecrackerError::UrlParseError(e)),
        }
    }
}

/// What the service answered.
#[derive(Debug)]
pub struct Response {
    pub status_code: u16,
    pub body: String,
}

/// Whether a status is one of the 2xx family.
pub open spec fn is_success_status(status_code: u16) -> bool {
    200 <= status_code < 300
}

/// What an answer of the service means: its body when the status is 2xx,
/// an `Api` error with the status and the untouched body otherwise.
pub open spec fn response_verdict(response: Response) -> Result<String, FirecrackerError> {
    if is_success_status(response.status_code) {
        Ok(response.body)
    } else {
        Err(FirecrackerError::Api { status_code: response.status_code, message: response.body })
    }
}

/// What the outcome of a dispatch means: a transport failure becomes an
/// `HttpClient` error with the transport's own words, an answer is judged
/// by [`response_verdict`].
pub open spec fn outcome_verdict(outcome: Result<Response, String>) -> Result<
    String,
    FirecrackerError,
> {
    match outcome {
        Ok(response) => response_verdict(response),
        Err(failure) => Err(FirecrackerError::HttpClient(failure)),
    }
}

/// Decides [`is_success_status`].
pub fn is_success(status_code: u16) -> (b: bool)
    ensures
        b == is_success_status(status_code),
{
    200 <= status_code && status_code < 300
}

/// Classifies an answer of the service. Every 2xx status is a success,
/// whatever the verb was; the body of a refusal is passed on unread.
pub fn map_response(response: Response) -> (r: Result<String, FirecrackerError>)
    ensures
        r == response_verdict(response),
        r is Ok <==> is_success_status(response.status_code),
{
    if is_success(response.status_code) {
        Ok(response.body)
    } else {
        Err(FirecrackerError::Api { status_code: response.status_code, message: response.body })
    }
}

/// Classifies the outcome of a dispatch: the body of a successful answer,
/// or the error that says what went wrong.
pub fn map_outcome(outcome: Result<Response, String>) -> (r: Result<String, FirecrackerError>)
    ensures
        r == outcome_verdict(outcome),
        r is Ok <==> (outcome matches Ok(response) && is_success_status(response.status_code)),
{
    match outcome {
        Ok(response) => map_response(response),
        Err(failure) => Err(FirecrackerError::HttpClient(failure)),
    }
}

/// Classifies the outcome of a dispatch whose answer carries no value:
/// success is `Ok(())`, and the errors are those of [`map_outcome`].
pub fn acknowledge(outcome: Result<Response, String>) -> (r: Result<(), FirecrackerError>)
    ensures
        r is Ok <==> outcome_verdict(outcome) is Ok,
        r is Ok <==> (outcome matches Ok(response) && is_success_status(response.status_code)),
        r matches Err(e) ==> outcome_verdict(outcome) == Err::<String, FirecrackerError>(e),
{
    match map_outcome(outcome) {
        Ok(_) => Ok(()),
        Err(e) => Err(e),
    }
}

} // verus!
