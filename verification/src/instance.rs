//! The description of an instance.

use vstd::prelude::*;
use crate::dispatch::{Method, Request};
use crate::error::FirecrackerError;
use crate::{request_built, FirecrackerClient};

verus! {

impl FirecrackerClient {
    /// The request that reads what the instance says of itself: a read of
    /// the address of the service, with nothing behind its slash.
    pub fn describe_instance(&self) -> (r: Result<Request, FirecrackerError>)
        ensures
            request_built(r, Seq::empty(), Method::Get, self.address(""@), None),
    {
        self.request(Method::Get, "", None)
    }
}

} // verus!
