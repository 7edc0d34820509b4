//! Actions on a running instance.

use vstd::prelude::*;
use crate::dispatch::{Method, Request};
use crate::error::FirecrackerError;
use crate::fields::{action_type_outcome, is_action_type, validate_action_type};
use crate::report::{
    aggregate,
    failures,
    lemma_failures_of_one,
    FieldCheck,
    FieldError,
    ValidationErrors,
};
use crate::wire::{field, Wire, WireObject, WireValue};
use crate::{request_built, FirecrackerClient};

verus! {

/// An action that the service is asked to perform.
#[derive(Clone, Debug, PartialEq)]
pub struct InstanceActionInfo {
    /// `InstanceStart`, `InstanceHalt` or `SendCtrlAltDel`.
    pub action_type: String,
}

impl InstanceActionInfo {
    /// The action named `action_type`.
    pub fn new(action_type: &str) -> (action: Self)
        ensures
            action.action_type@ == action_type@,
    {
        InstanceActionInfo { action_type: String::from_str(action_type) }
    }

    /// The checks of an action.
    pub open spec fn checks(&self) -> Seq<FieldCheck> {
        seq![FieldCheck { field: "action_type", outcome: action_type_outcome(self.action_type@) }]
    }

    /// The rejected fields of an action.
    pub open spec fn violations(&self) -> Seq<FieldError> {
        failures(self.checks())
    }

    /// Whether the action may be sent: it is one that the service knows.
    pub open spec fn valid(&self) -> bool {
        is_action_type(self.action_type@)
    }

    /// An action is valid exactly when no field of it is rejected.
    pub proof fn lemma_valid_iff_no_violation(&self)
        ensures
            self.valid() <==> self.violations().len() == 0,
    {
        let checks = self.checks();
        lemma_failures_of_one(checks[0]);
        assert(checks =~= seq![checks[0]]);
    }

    /// Checks every constrained field and reports all that fail.
    pub fn validate(&self) -> (r: Result<(), ValidationErrors>)
        ensures
            r is Ok <==> self.valid(),
            r is Ok <==> self.violations().len() == 0,
            r matches Err(errors) ==> errors@ == self.violations(),
    {
        let checks = vec![
            FieldCheck {
                field: "action_type",
                outcome: validate_action_type(self.action_type.as_str()),
            },
        ];
        proof {
            assert(checks@ =~= self.checks());
            self.lemma_valid_iff_no_violation();
        }
        aggregate(&checks)
    }
}

impl InstanceActionInfo {
    /// The fields of an action as they go over the wire: in the order of
    /// the declaration, an absent field left out.
    pub open spec fn wire_fields(&self) -> Seq<(&'static str, Wire)> {
        field("action_type", Wire::Text(self.action_type@))
    }

    /// An action as it goes over the wire.
    pub open spec fn wire(&self) -> Wire {
        Wire::Object(self.wire_fields())
    }

    /// The body that describes an action.
    pub fn to_wire(&self) -> (value: WireValue)
        ensures
            value.model() == self.wire(),
    {
        let mut object = WireObject::new();
        object.put_text("action_type", self.action_type.as_str());
        assert(object.entries() =~= self.wire_fields());
        object.finish()
    }
}

impl FirecrackerClient {
    /// The request that asks the service to perform `action`. An action
    /// that the service does not know yields no request.
    pub fn create_sync_action(&self, action: &InstanceActionInfo) -> (r: Result<
        Request,
        FirecrackerError,
    >)
        ensures
            request_built(
                r,
                action.violations(),
                Method::Put,
                self.address("actions"@),
                Some(action.wire()),
            ),
    {
        self.checked_request(action.validate(), Method::Put, "actions", action.to_wire())
    }
}

} // verus!
