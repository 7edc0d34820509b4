//! The network interfaces of a microVM.

use vstd::prelude::*;
use crate::dispatch::{Method, Request};
use crate::error::FirecrackerError;
use crate::models::NetworkInterface;
use crate::{request_built, FirecrackerClient};

verus! {

/// The path of the interface `iface_id` below the address of the service.
pub open spec fn network_interface_path(iface_id: Seq<char>) -> Seq<char> {
    "network-interfaces/"@ + iface_id
}

impl FirecrackerClient {
    /// The request that creates or replaces the interface `iface_id`. An
    /// interface that does not validate yields no request.
    pub fn put_network_interface(&self, iface_id: &str, interface: &NetworkInterface) -> (r:
        Result<Request, FirecrackerError>)
        ensures
            request_built(
                r,
                interface.violations(),
                Method::Put,
                self.address(network_interface_path(iface_id@)),
                Some(interface.wire()),
            ),
    {
        let path = String::from_str("network-interfaces/").concat(iface_id);
        self.checked_request(interface.validate(), Method::Put, path.as_str(), interface.to_wire())
    }

    /// The request that updates the interface `iface_id`. An interface
    /// that does not validate yields no request.
    pub fn patch_network_interface(&self, iface_id: &str, interface: &NetworkInterface) -> (r:
        Result<Request, FirecrackerError>)
        ensures
            request_built(
                r,
                interface.violations(),
                Method::Patch,
                self.address(network_interface_path(iface_id@)),
                Some(interface.wire()),
            ),
    {
        let path = String::from_str("network-interfaces/").concat(iface_id);
        self.checked_request(interface.validate(), Method::Patch, path.as_str(), interface.to_wire())
    }
}

} // verus!
