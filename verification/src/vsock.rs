//! The vsock device of a microVM.

use vstd::prelude::*;
use crate::dispatch::{Method, Request};
use crate::error::FirecrackerError;
use crate::models::Vsock;
use crate::{request_built, FirecrackerClient};

verus! {

impl FirecrackerClient {
    /// The request that creates the vsock device. A device that does not
    /// validate yields no request.
    pub fn put_vsock(&self, vsock: &Vsock) -> (r: Result<
        Request,
        FirecrackerError,
    >)
        ensures
            request_built(r, vsock.violations(), Method::Put, self.address("vsock"@), Some(vsock.wire())),
    {
        self.checked_request(vsock.validate(), Method::Put, "vsock", vsock.to_wire())
    }
}

} // verus!
