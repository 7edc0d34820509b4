//! The metadata service of a microVM.

use vstd::prelude::*;
use crate::dispatch::{Method, Request};
use crate::error::FirecrackerError;
use crate::wire::{Wire, WireValue};
use crate::{request_built, FirecrackerClient};

verus! {

impl FirecrackerClient {
    /// The request that replaces the metadata with `data`, which is
    /// passed on as it is.
    pub fn put_mmds(&self, data: serde_json::Value) -> (r: Result<Request, FirecrackerError>)
        ensures
            request_built(
                r,
                Seq::empty(),
                Method::Put,
                self.address("mmds"@),
                Some(Wire::Json(data)),
            ),
    {
        self.request(Method::Put, "mmds", Some(WireValue::Json(data)))
    }

    /// The request that merges `data` into the metadata.
    pub fn patch_mmds(&self, data: serde_json::Value) -> (r: Result<Request, FirecrackerError>)
        ensures
            request_built(
                r,
                Seq::empty(),
                Method::Patch,
                self.address("mmds"@),
                Some(Wire::Json(data)),
            ),
    {
        self.request(Method::Patch, "mmds", Some(WireValue::Json(data)))
    }

    /// The request that reads the metadata.
    pub fn get_mmds(&self) -> (r: Result<Request, FirecrackerError>)
        ensures
            request_built(r, Seq::empty(), Method::Get, self.address("mmds"@), None),
    {
        self.request(Method::Get, "mmds", None)
    }
}

} // verus!
