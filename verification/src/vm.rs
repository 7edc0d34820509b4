//! The microVM as a whole.

use vstd::prelude::*;
use crate::dispatch::{Method, Request};
use crate::error::FirecrackerError;
use crate::wire::{bool_of, i32_of, optional_field, Wire, WireObject, WireValue};
use crate::{request_built, FirecrackerClient};

verus! {

/// CPU and memory of a microVM, in the form that the `vm/config` resource
/// takes.
#[derive(Clone, Debug, PartialEq)]
pub struct VmConfig {
    /// Number of vCPUs.
    pub vcpu_count: Option<i32>,
    /// Memory in MiB.
    pub mem_size_mib: Option<i32>,
    /// Whether hyperthreading is on.
    pub ht_enabled: Option<bool>,
    /// Whether dirty pages are tracked.
    pub track_dirty_pages: Option<bool>,
}

/// State and identity of a microVM.
#[derive(Clone, Debug, PartialEq)]
pub struct VmInfo {
    /// State of the microVM.
    pub state: String,
    /// Identifier of the microVM.
    pub id: String,
}

impl VmConfig {
    /// The fields of a configuration as they go over the wire: in the order of
    /// the declaration, an absent field left out.
    pub open spec fn wire_fields(&self) -> Seq<(&'static str, Wire)> {
        optional_field("vcpu_count", i32_of(self.vcpu_count))
            + optional_field("mem_size_mib", i32_of(self.mem_size_mib))
            + optional_field("ht_enabled", bool_of(self.ht_enabled))
            + optional_field("track_dirty_pages", bool_of(self.track_dirty_pages))
    }

    /// A configuration as it goes over the wire.
    pub open spec fn wire(&self) -> Wire {
        Wire::Object(self.wire_fields())
    }

    /// The body that describes a configuration.
    pub fn to_wire(&self) -> (value: WireValue)
        ensures
            value.model() == self.wire(),
    {
        let mut object = WireObject::new();
        object.put_optional_i32("vcpu_count", self.vcpu_count);
        object.put_optional_i32("mem_size_mib", self.mem_size_mib);
        object.put_optional_bool("ht_enabled", self.ht_enabled);
        object.put_optional_bool("track_dirty_pages", self.track_dirty_pages);
        assert(object.entries() =~= self.wire_fields());
        object.finish()
    }
}

impl FirecrackerClient {
    /// The request that reads the state of the microVM.
    pub fn get_vm_info(&self) -> (r: Result<Request, FirecrackerError>)
        ensures
            request_built(r, Seq::empty(), Method::Get, self.address("vm"@), None),
    {
        self.request(Method::Get, "vm", None)
    }

    /// The request that sets CPU and memory of the microVM.
    pub fn put_vm_config(&self, config: &VmConfig) -> (r: Result<
        Request,
        FirecrackerError,
    >)
        ensures
            request_built(r, Seq::empty(), Method::Put, self.address("vm/config"@), Some(config.wire())),
    {
        self.request(Method::Put, "vm/config", Some(config.to_wire()))
    }
}

} // verus!
