//! A client for the management API of the Firecracker microVM monitor,
//! without the transport.
//!
//! A caller describes a resource with one of the descriptor types, asks
//! the [`FirecrackerClient`] for the request that configures it, sends
//! that request with a transport of its own and gives the answer to
//! [`dispatch::map_outcome`]. A descriptor that does not validate never
//! yields a request: the operation answers with every rejected field at
//! once.

use vstd::prelude::*;

pub mod action;
pub mod balloon;
pub mod boot;
pub mod cpu;
pub mod dispatch;
pub mod drive;
pub mod endpoint;
pub mod entropy;
pub mod error;
pub mod fields;
pub mod instance;
pub mod logger;
pub mod machine;
pub mod metrics;
pub mod mmds;
pub mod models;
pub mod network;
pub mod report;
pub mod snapshot;
pub mod text;
pub mod validation;
pub mod version;
pub mod vm;
pub mod vsock;
pub mod wire;

pub use crate::error::{FirecrackerError, FirecrackerResult};
pub use crate::models::{
    Balloon,
    BalloonStats,
    BootSource,
    CpuTemplate,
    Drive,
    FirecrackerVersion,
    InstanceInfo,
    Logger,
    MachineConfig,
    MmdsConfig,
    NetworkInterface,
    RateLimiter,
    TokenBucket,
    Vm,
    Vsock,
};
pub use crate::validation::{validate_existing_path, validate_unix_path, validate_writable_path};

use crate::dispatch::{Method, Request};
use crate::endpoint::{join_url, joined_url, parse_url, parsed_url};
use crate::report::{FieldError, ValidationErrors};
use crate::wire::{model_of, Wire, WireValue};

verus! {

/// The address of one Firecracker process.
#[derive(Debug)]
pub struct FirecrackerClient {
    base_url: String,
}

impl View for FirecrackerClient {
    type V = Seq<char>;

    /// The address of the service, as it was given to [`FirecrackerClient::new`].
    closed spec fn view(&self) -> Seq<char> {
        self.base_url@
    }
}

/// Whether `r` is what an operation owes: the failures of the descriptor
/// when there are any, else an error when the address of the resource is
/// no URL, else the request with that address, the verb and the body.
pub open spec fn request_built(
    r: Result<Request, FirecrackerError>,
    violations: Seq<FieldError>,
    method: Method,
    address: Option<Seq<char>>,
    body: Option<Wire>,
) -> bool {
    if violations.len() > 0 {
        r matches Err(FirecrackerError::Validation(errors)) && errors@ == violations
    } else {
        match address {
            None => r matches Err(FirecrackerError::UrlParseError(_)),
            Some(text) => r matches Ok(request) && request.method == method && request.url@ == text
                && model_of(request.body) == body,
        }
    }
}

/// Nothing is sent for a descriptor that was rejected: an operation that
/// yields a request found no failure, and one that found failures yields
/// them all and nothing else.
pub proof fn lemma_rejected_descriptor_is_not_sent(
    r: Result<Request, FirecrackerError>,
    violations: Seq<FieldError>,
    method: Method,
    address: Option<Seq<char>>,
    body: Option<Wire>,
)
    requires
        request_built(r, violations, method, address, body),
    ensures
        r is Ok ==> violations.len() == 0,
        violations.len() > 0 ==> (r matches Err(FirecrackerError::Validation(errors)) && errors@
            == violations),
        r is Ok <==> violations.len() == 0 && address is Some,
{
}

impl FirecrackerClient {
    /// A client for the service at `base_url`. The address is taken as it
    /// is; it is read as a URL when a request is built.
    pub fn new(base_url: &str) -> (r: Result<Self, FirecrackerError>)
        ensures
            r matches Ok(client) && client@ == base_url@,
    {
        Ok(FirecrackerClient { base_url: String::from_str(base_url) })
    }

    /// The address of the service.
    pub fn base_url(&self) -> (s: &str)
        ensures
            s@ == self@,
    {
        self.base_url.as_str()
    }

    /// The address of the resource at `path`, where the two make a URL.
    pub open spec fn address(&self, path: Seq<char>) -> Option<Seq<char>> {
        parsed_url(joined_url(self@, path))
    }

    /// The URL of the resource at `path`: the address of the service and
    /// `path`, joined by one slash and read by the URL parser.
    pub fn url(&self, path: &str) -> (r: Result<String, FirecrackerError>)
        ensures
            r matches Ok(text) ==> self.address(path@) == Some(text@),
            r matches Err(e) ==> e is UrlParseError && self.address(path@) is None,
    {
        let joined = join_url(self.base_url.as_str(), path);
        match parse_url(joined.as_str()) {
            Ok(text) => Ok(text),
            Err(e) => Err(FirecrackerError::UrlParseError(e)),
        }
    }

    /// The request for the resource at `path`, for a descriptor whose
    /// validation gave `validation`: a descriptor that was rejected
    /// yields its failures and no request.
    pub fn checked_request(
        &self,
        validation: Result<(), ValidationErrors>,
        method: Method,
        path: &str,
        body: WireValue,
    ) -> (r: Result<Request, FirecrackerError>)
        ensures
            validation matches Err(errors) ==> r == Err::<Request, FirecrackerError>(
                FirecrackerError::Validation(errors),
            ),
            validation is Ok ==> request_built(
                r,
                Seq::empty(),
                method,
                self.address(path@),
                Some(body.model()),
            ),
    {
        match validation {
            Err(errors) => Err(FirecrackerError::Validation(errors)),
            Ok(_) => self.request(method, path, Some(body)),
        }
    }

    /// The request with the given verb and body for the resource at
    /// `path`.
    pub fn request(&self, method: Method, path: &str, body: Option<WireValue>) -> (r: Result<
        Request,
        FirecrackerError,
    >)
        ensures
            request_built(r, Seq::empty(), method, self.address(path@), model_of(body)),
    {
        let joined = join_url(self.base_url.as_str(), path);
        Request::at(method, parse_url(joined.as_str()), body)
    }
}

} // verus!
