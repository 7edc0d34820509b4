//! The memory balloon of a microVM.

use vstd::prelude::*;
use crate::dispatch::{Method, Request};
use crate::error::FirecrackerError;
use crate::models::Balloon;
use crate::wire::{field, Wire, WireObject, WireValue};
use crate::{request_built, FirecrackerClient};

verus! {

/// A new target size for a balloon.
#[derive(Clone, Debug, PartialEq)]
pub struct BalloonUpdate {
    /// Target size of the balloon, in MiB.
    pub amount_mib: u32,
}

/// A new polling interval for the statistics of a balloon.
#[derive(Clone, Debug, PartialEq)]
pub struct BalloonStatsUpdate {
    /// Seconds between two refreshes of the statistics.
    pub stats_polling_interval_s: u32,
}

impl BalloonUpdate {
    /// The fields of a new target size as they go over the wire: in the order of
    /// the declaration, an absent field left out.
    pub open spec fn wire_fields(&self) -> Seq<(&'static str, Wire)> {
        field("amount_mib", Wire::Number(self.amount_mib as int))
    }

    /// A new target size as it goes over the wire.
    pub open spec fn wire(&self) -> Wire {
        Wire::Object(self.wire_fields())
    }

    /// The body that describes a new target size.
    pub fn to_wire(&self) -> (value: WireValue)
        ensures
            value.model() == self.wire(),
    {
        let mut object = WireObject::new();
        object.put_unsigned("amount_mib", self.amount_mib as u64);
        assert(object.entries() =~= self.wire_fields());
        object.finish()
    }
}

impl BalloonStatsUpdate {
    /// The fields of a polling interval as they go over the wire: in the order of
    /// the declaration, an absent field left out.
    pub open spec fn wire_fields(&self) -> Seq<(&'static str, Wire)> {
        field("stats_polling_interval_s", Wire::Number(self.stats_polling_interval_s as int))
    }

    /// A polling interval as it goes over the wire.
    pub open spec fn wire(&self) -> Wire {
        Wire::Object(self.wire_fields())
    }

    /// The body that describes a polling interval.
    pub fn to_wire(&self) -> (value: WireValue)
        ensures
            value.model() == self.wire(),
    {
        let mut object = WireObject::new();
        object.put_unsigned("stats_polling_interval_s", self.stats_polling_interval_s as u64);
        assert(object.entries() =~= self.wire_fields());
        object.finish()
    }
}

impl FirecrackerClient {
    /// The request that reads the configuration of the balloon.
    pub fn get_balloon_config(&self) -> (r: Result<Request, FirecrackerError>)
        ensures
            request_built(r, Seq::empty(), Method::Get, self.address("balloon"@), None),
    {
        self.request(Method::Get, "balloon", None)
    }

    /// The request that creates or replaces the balloon.
    pub fn put_balloon_config(&self, config: &Balloon) -> (r: Result<
        Request,
        FirecrackerError,
    >)
        ensures
            request_built(r, Seq::empty(), Method::Put, self.address("balloon"@), Some(config.wire())),
    {
        self.request(Method::Put, "balloon", Some(config.to_wire()))
    }

    /// The request that changes the target size of the balloon.
    pub fn patch_balloon_config(&self, update: &BalloonUpdate) -> (r: Result<
        Request,
        FirecrackerError,
    >)
        ensures
            request_built(r, Seq::empty(), Method::Patch, self.address("balloon"@), Some(update.wire())),
    {
        self.request(Method::Patch, "balloon", Some(update.to_wire()))
    }

    /// The request that reads the statistics of the balloon.
    pub fn get_balloon_stats(&self) -> (r: Result<Request, FirecrackerError>)
        ensures
            request_built(
                r,
                Seq::empty(),
                Method::Get,
                self.address("balloon/statistics"@),
                None,
            ),
    {
        self.request(Method::Get, "balloon/statistics", None)
    }

    /// The request that changes the polling interval of the statistics.
    pub fn patch_balloon_stats(&self, update: &BalloonStatsUpdate) -> (r: Result<
        Request,
        FirecrackerError,
    >)
        ensures
            request_built(
                r,
                Seq::empty(),
                Method::Patch,
                self.address("balloon/statistics"@),
                Some(update.wire()),
            ),
    {
        self.request(Method::Patch, "balloon/statistics", Some(update.to_wire()))
    }
}

} // verus!
