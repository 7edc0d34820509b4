//! The version of the service.

use vstd::prelude::*;
use crate::dispatch::{Method, Request};
use crate::error::FirecrackerError;
use crate::{request_built, FirecrackerClient};

verus! {

impl FirecrackerClient {
    /// The request that reads the version of the service.
    pub fn get_version(&self) -> (r: Result<Request, FirecrackerError>)
        ensures
            request_built(r, Seq::empty(), Method::Get, self.address("version"@), None),
    {
        self.request(Method::Get, "version", None)
    }
}

} // verus!
