//! CPU and memory of a microVM.

use vstd::prelude::*;
use crate::dispatch::{Method, Request};
use crate::error::FirecrackerError;
use crate::models::MachineConfig;
use crate::{request_built, FirecrackerClient};

verus! {

impl FirecrackerClient {
    /// The request that reads the machine configuration.
    pub fn get_machine_config(&self) -> (r: Result<Request, FirecrackerError>)
        ensures
            request_built(r, Seq::empty(), Method::Get, self.address("machine-config"@), None),
    {
        self.request(Method::Get, "machine-config", None)
    }

    /// The request that replaces the machine configuration.
    pub fn put_machine_config(&self, config: &MachineConfig) -> (r: Result<
        Request,
        FirecrackerError,
    >)
        ensures
            request_built(
                r,
                Seq::empty(),
                Method::Put,
                self.address("machine-config"@),
                Some(config.wire()),
            ),
    {
        self.request(Method::Put, "machine-config", Some(config.to_wire()))
    }

    /// The request that updates a part of the machine configuration.
    pub fn patch_machine_config(&self, config: &MachineConfig) -> (r: Result<
        Request,
        FirecrackerError,
    >)
        ensures
            request_built(
                r,
                Seq::empty(),
                Method::Patch,
                self.address("machine-config"@),
                Some(config.wire()),
            ),
    {
        self.request(Method::Patch, "machine-config", Some(config.to_wire()))
    }
}

} // verus!
