//! The entropy device of a microVM.

use vstd::prelude::*;
use crate::dispatch::{Method, Request};
use crate::error::FirecrackerError;
use crate::models::{rate_limiter_wire, RateLimiter};
use crate::wire::{optional_field, Wire, WireObject, WireValue};
use crate::{request_built, FirecrackerClient};

verus! {

/// A device that gives the guest random numbers.
#[derive(Clone, Debug, PartialEq)]
pub struct EntropyDevice {
    /// Limits on bandwidth and operations.
    pub rate_limiter: Option<RateLimiter>,
}

impl EntropyDevice {
    /// The fields of an entropy device as they go over the wire: in the order of
    /// the declaration, an absent field left out.
    pub open spec fn wire_fields(&self) -> Seq<(&'static str, Wire)> {
        optional_field("rate_limiter", rate_limiter_wire(self.rate_limiter))
    }

    /// An entropy device as it goes over the wire.
    pub open spec fn wire(&self) -> Wire {
        Wire::Object(self.wire_fields())
    }

    /// The body that describes an entropy device.
    pub fn to_wire(&self) -> (value: WireValue)
        ensures
            value.model() == self.wire(),
    {
        let mut object = WireObject::new();
        object.put_optional(
            "rate_limiter",
            match &self.rate_limiter {
                None => None,
                Some(limiter) => Some(limiter.to_wire()),
            },
        );
        assert(object.entries() =~= self.wire_fields());
        object.finish()
    }
}

impl FirecrackerClient {
    /// The request that creates the entropy device.
    pub fn put_entropy_device(&self, device: &EntropyDevice) -> (r: Result<
        Request,
        FirecrackerError,
    >)
        ensures
            request_built(r, Seq::empty(), Method::Put, self.address("entropy"@), Some(device.wire())),
    {
        self.request(Method::Put, "entropy", Some(device.to_wire()))
    }
}

} // verus!
