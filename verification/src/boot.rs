//! The boot source of a microVM.

use vstd::prelude::*;
use crate::dispatch::{Method, Request};
use crate::error::FirecrackerError;
use crate::models::BootSource;
use crate::validation::PathStatus;
use crate::{request_built, FirecrackerClient};

verus! {

impl FirecrackerClient {
    /// The request that sets what the microVM boots from. `initrd_path`
    /// and `kernel_image_path` are what the file system told of the two
    /// paths of `boot_source`; a boot source that does not validate yields
    /// no request.
    pub fn put_boot_source(
        &self,
        boot_source: &BootSource,
        initrd_path: PathStatus,
        kernel_image_path: PathStatus,
    ) -> (r: Result<Request, FirecrackerError>)
        ensures
            request_built(
                r,
                boot_source.violations(initrd_path, kernel_image_path),
                Method::Put,
                self.address("boot-source"@),
                Some(boot_source.wire()),
            ),
    {
        self.checked_request(
            boot_source.validate(initrd_path, kernel_image_path),
            Method::Put,
            "boot-source",
            boot_source.to_wire(),
        )
    }
}

} // verus!
