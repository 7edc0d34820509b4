//! The drives of a microVM.

use vstd::prelude::*;
use crate::dispatch::{Method, Request};
use crate::error::FirecrackerError;
use crate::models::Drive;
use crate::validation::PathStatus;
use crate::{request_built, FirecrackerClient};

verus! {

/// The path of the drive `drive_id` below the address of the service.
pub open spec fn drive_path(drive_id: Seq<char>) -> Seq<char> {
    "drives/"@ + drive_id
}

impl FirecrackerClient {
    /// The request that creates or replaces the drive `drive_id`.
    /// `path_on_host` is what the file system told of the backing file; a
    /// drive that does not validate yields no request.
    pub fn put_drive(&self, drive_id: &str, drive: &Drive, path_on_host: PathStatus) -> (r:
        Result<Request, FirecrackerError>)
        ensures
            request_built(
                r,
                drive.violations(path_on_host),
                Method::Put,
                self.address(drive_path(drive_id@)),
                Some(drive.wire()),
            ),
    {
        let path = String::from_str("drives/").concat(drive_id);
        self.checked_request(drive.validate(path_on_host), Method::Put, path.as_str(), drive.to_wire())
    }

    /// The request that updates the drive `drive_id`. `path_on_host` is
    /// what the file system told of the backing file; a drive that does
    /// not validate yields no request.
    pub fn patch_drive(&self, drive_id: &str, drive: &Drive, path_on_host: PathStatus) -> (r:
        Result<Request, FirecrackerError>)
        ensures
            request_built(
                r,
                drive.violations(path_on_host),
                Method::Patch,
                self.address(drive_path(drive_id@)),
                Some(drive.wire()),
            ),
    {
        let path = String::from_str("drives/").concat(drive_id);
        self.checked_request(drive.validate(path_on_host), Method::Patch, path.as_str(), drive.to_wire())
    }
}

} // verus!
