//! The metrics of a microVM.

use vstd::prelude::*;
use crate::dispatch::{Method, Request};
use crate::error::FirecrackerError;
use crate::report::{
    aggregate,
    failures,
    lemma_failures_of_one,
    FieldCheck,
    FieldError,
    ValidationErrors,
};
use crate::validation::{
    field_outcome,
    is_unix_path,
    path_outcome,
    validate_writable_path,
    writable_path_verdict,
    WriteStatus,
};
use crate::wire::{field, Wire, WireObject, WireValue};
use crate::{request_built, FirecrackerClient};

verus! {

/// Where the metrics go.
#[derive(Clone, Debug, PartialEq)]
pub struct Metrics {
    /// Path of the file that receives the metrics; it must be writable,
    /// or its directory where the file does not exist yet.
    pub metrics_path: String,
}

impl Metrics {
    /// The checks of a metrics configuration. `metrics_path` is what the
    /// file system told of the file and its directory.
    pub open spec fn checks(&self, metrics_path: WriteStatus) -> Seq<FieldCheck> {
        seq![
            FieldCheck {
                field: "metrics_path",
                outcome: path_outcome(
                    writable_path_verdict(
                        self.metrics_path@,
                        metrics_path.target,
                        metrics_path.parent,
                    ),
                ),
            },
        ]
    }

    /// The rejected fields of a metrics configuration.
    pub open spec fn violations(&self, metrics_path: WriteStatus) -> Seq<FieldError> {
        failures(self.checks(metrics_path))
    }

    /// Whether the configuration may be sent: the file can be written at
    /// a well-formed path.
    pub open spec fn valid(&self, metrics_path: WriteStatus) -> bool {
        &&& is_unix_path(self.metrics_path@)
        &&& metrics_path.writable()
    }

    /// A metrics configuration is valid exactly when no field of it is
    /// rejected.
    pub proof fn lemma_valid_iff_no_violation(&self, metrics_path: WriteStatus)
        ensures
            self.valid(metrics_path) <==> self.violations(metrics_path).len() == 0,
    {
        let checks = self.checks(metrics_path);
        lemma_failures_of_one(checks[0]);
        assert(checks =~= seq![checks[0]]);
    }

    /// Checks every constrained field and reports all that fail.
    pub fn validate(&self, metrics_path: WriteStatus) -> (r: Result<(), ValidationErrors>)
        ensures
            r is Ok <==> self.valid(metrics_path),
            r is Ok <==> self.violations(metrics_path).len() == 0,
            r matches Err(errors) ==> errors@ == self.violations(metrics_path),
    {
        let checks = vec![
            FieldCheck {
                field: "metrics_path",
                outcome: field_outcome(
                    validate_writable_path(
                        self.metrics_path.as_str(),
                        metrics_path.target,
                        metrics_path.parent,
                    ),
                ),
            },
        ];
        proof {
            assert(checks@ =~= self.checks(metrics_path));
            self.lemma_valid_iff_no_violation(metrics_path);
        }
        aggregate(&checks)
    }
}

impl Metrics {
    /// The fields of a metrics configuration as they go over the wire: in the order of
    /// the declaration, an absent field left out.
    pub open spec fn wire_fields(&self) -> Seq<(&'static str, Wire)> {
        field("metrics_path", Wire::Text(self.metrics_path@))
    }

    /// A metrics configuration as it goes over the wire.
    pub open spec fn wire(&self) -> Wire {
        Wire::Object(self.wire_fields())
    }

    /// The body that describes a metrics configuration.
    pub fn to_wire(&self) -> (value: WireValue)
        ensures
            value.model() == self.wire(),
    {
        let mut object = WireObject::new();
        object.put_text("metrics_path", self.metrics_path.as_str());
        assert(object.entries() =~= self.wire_fields());
        object.finish()
    }
}

impl FirecrackerClient {
    /// The request that configures the metrics. A configuration that does
    /// not validate yields no request.
    pub fn put_metrics(&self, metrics: &Metrics, metrics_path: WriteStatus) -> (r: Result<
        Request,
        FirecrackerError,
    >)
        ensures
            request_built(
                r,
                metrics.violations(metrics_path),
                Method::Put,
                self.address("metrics"@),
                Some(metrics.wire()),
            ),
    {
        self.checked_request(metrics.validate(metrics_path), Method::Put, "metrics", metrics.to_wire())
    }
}

} // verus!
