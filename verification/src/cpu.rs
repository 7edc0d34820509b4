//! The CPU configuration of a microVM.

use vstd::prelude::*;
use crate::dispatch::{Method, Request};
use crate::error::FirecrackerError;
use crate::wire::{optional_field, text_of, Wire, WireObject, WireValue};
use crate::{request_built, FirecrackerClient};

verus! {

/// The CPU template of a microVM.
#[derive(Clone, Debug, PartialEq)]
pub struct CpuConfig {
    /// Name of the template.
    pub template: Option<String>,
}

impl CpuConfig {
    /// The fields of a CPU configuration as they go over the wire: in the order of
    /// the declaration, an absent field left out.
    pub open spec fn wire_fields(&self) -> Seq<(&'static str, Wire)> {
        optional_field("template", text_of(self.template))
    }

    /// A CPU configuration as it goes over the wire.
    pub open spec fn wire(&self) -> Wire {
        Wire::Object(self.wire_fields())
    }

    /// The body that describes a CPU configuration.
    pub fn to_wire(&self) -> (value: WireValue)
        ensures
            value.model() == self.wire(),
    {
        let mut object = WireObject::new();
        object.put_optional_text("template", &self.template);
        assert(object.entries() =~= self.wire_fields());
        object.finish()
    }
}

impl FirecrackerClient {
    /// The request that sets the CPU configuration.
    pub fn put_cpu_config(&self, config: &CpuConfig) -> (r: Result<
        Request,
        FirecrackerError,
    >)
        ensures
            request_built(r, Seq::empty(), Method::Put, self.address("cpu-config"@), Some(config.wire())),
    {
        self.request(Method::Put, "cpu-config", Some(config.to_wire()))
    }
}

} // verus!
