//! Snapshots of a microVM.

use vstd::prelude::*;
use crate::dispatch::{Method, Request};
use crate::error::FirecrackerError;
use crate::fields::{is_snapshot_type, snapshot_type_outcome, validate_snapshot_type};
use crate::report::{
    aggregate,
    failures,
    lemma_failures_of_three,
    lemma_failures_of_two,
    FieldCheck,
    FieldError,
    ValidationErrors,
};
use crate::validation::{
    existing_path_verdict,
    field_outcome,
    is_unix_path,
    path_outcome,
    validate_existing_path,
    validate_writable_path,
    writable_path_verdict,
    PathStatus,
    WriteStatus,
};
use crate::wire::{bool_of, field, optional_field, text_of, Wire, WireObject, WireValue};
use crate::{request_built, FirecrackerClient};

verus! {

/// What is needed to take a snapshot. Both files will be created, so
/// their paths must be writable.
#[derive(Clone, Debug, PartialEq)]
pub struct SnapshotCreateParams {
    /// Path of the file that receives the state of the microVM.
    pub snapshot_path: String,
    /// Path of the file that receives the memory of the guest.
    pub mem_file_path: String,
    /// `Full` or `Diff` where it is set.
    pub snapshot_type: Option<String>,
    /// Version of the snapshot format.
    pub version: Option<String>,
}

/// What is needed to load a snapshot. Both files are read, so they must
/// exist.
#[derive(Clone, Debug, PartialEq)]
pub struct SnapshotLoadParams {
    /// Path of the file that holds the state of the microVM.
    pub snapshot_path: String,
    /// Path of the file that holds the memory of the guest.
    pub mem_file_path: String,
    /// Whether snapshots taken after the load may be differential.
    pub enable_diff_snapshots: Option<bool>,
}

impl SnapshotCreateParams {
    /// The checks of these parameters, in the order of the fields.
    /// `snapshot_path` and `mem_file_path` are what the file system told
    /// of the two files and their directories.
    pub open spec fn checks(
        &self,
        snapshot_path: WriteStatus,
        mem_file_path: WriteStatus,
    ) -> Seq<FieldCheck> {
        seq![
            FieldCheck {
                field: "snapshot_path",
                outcome: path_outcome(
                    writable_path_verdict(
                        self.snapshot_path@,
                        snapshot_path.target,
                        snapshot_path.parent,
                    ),
                ),
            },
            FieldCheck {
                field: "mem_file_path",
                outcome: path_outcome(
                    writable_path_verdict(
                        self.mem_file_path@,
                        mem_file_path.target,
                        mem_file_path.parent,
                    ),
                ),
            },
            FieldCheck {
                field: "snapshot_type",
                outcome: snapshot_type_outcome(self.snapshot_type),
            },
        ]
    }

    /// The rejected fields of these parameters, in the order of the
    /// fields.
    pub open spec fn violations(
        &self,
        snapshot_path: WriteStatus,
        mem_file_path: WriteStatus,
    ) -> Seq<FieldError> {
        failures(self.checks(snapshot_path, mem_file_path))
    }

    /// Whether the parameters may be sent: both files can be written at
    /// well-formed paths, and the type, where one is set, is a kind of
    /// snapshot.
    pub open spec fn valid(&self, snapshot_path: WriteStatus, mem_file_path: WriteStatus) -> bool {
        &&& is_unix_path(self.snapshot_path@)
        &&& snapshot_path.writable()
        &&& is_unix_path(self.mem_file_path@)
        &&& mem_file_path.writable()
        &&& self.snapshot_type matches Some(kind) ==> is_snapshot_type(kind@)
    }

    /// The parameters are valid exactly when no field of them is
    /// rejected.
    pub proof fn lemma_valid_iff_no_violation(
        &self,
        snapshot_path: WriteStatus,
        mem_file_path: WriteStatus,
    )
        ensures
            self.valid(snapshot_path, mem_file_path) <==> self.violations(
                snapshot_path,
                mem_file_path,
            ).len() == 0,
    {
        let checks = self.checks(snapshot_path, mem_file_path);
        lemma_failures_of_three(checks[0], checks[1], checks[2]);
        assert(checks =~= seq![checks[0], checks[1], checks[2]]);
    }

    /// Checks every constrained field and reports all that fail.
    pub fn validate(&self, snapshot_path: WriteStatus, mem_file_path: WriteStatus) -> (r: Result<
        (),
        ValidationErrors,
    >)
        ensures
            r is Ok <==> self.valid(snapshot_path, mem_file_path),
            r is Ok <==> self.violations(snapshot_path, mem_file_path).len() == 0,
            r matches Err(errors) ==> errors@ == self.violations(snapshot_path, mem_file_path),
    {
        let checks = vec![
            FieldCheck {
                field: "snapshot_path",
                outcome: field_outcome(
                    validate_writable_path(
                        self.snapshot_path.as_str(),
                        snapshot_path.target,
                        snapshot_path.parent,
                    ),
                ),
            },
            FieldCheck {
                field: "mem_file_path",
                outcome: field_outcome(
                    validate_writable_path(
                        self.mem_file_path.as_str(),
                        mem_file_path.target,
                        mem_file_path.parent,
                    ),
                ),
            },
            FieldCheck {
                field: "snapshot_type",
                outcome: validate_snapshot_type(&self.snapshot_type),
            },
        ];
        proof {
            assert(checks@ =~= self.checks(snapshot_path, mem_file_path));
            self.lemma_valid_iff_no_violation(snapshot_path, mem_file_path);
        }
        aggregate(&checks)
    }
}

impl SnapshotLoadParams {
    /// The checks of these parameters, in the order of the fields.
    /// `snapshot_path` and `mem_file_path` are what the file system told
    /// of the two files.
    pub open spec fn checks(
        &self,
        snapshot_path: PathStatus,
        mem_file_path: PathStatus,
    ) -> Seq<FieldCheck> {
        seq![
            FieldCheck {
                field: "snapshot_path",
                outcome: path_outcome(existing_path_verdict(self.snapshot_path@, snapshot_path)),
            },
            FieldCheck {
                field: "mem_file_path",
                outcome: path_outcome(existing_path_verdict(self.mem_file_path@, mem_file_path)),
            },
        ]
    }

    /// The rejected fields of these parameters, in the order of the
    /// fields.
    pub open spec fn violations(
        &self,
        snapshot_path: PathStatus,
        mem_file_path: PathStatus,
    ) -> Seq<FieldError> {
        failures(self.checks(snapshot_path, mem_file_path))
    }

    /// Whether the parameters may be sent: both files exist at
    /// well-formed paths.
    pub open spec fn valid(&self, snapshot_path: PathStatus, mem_file_path: PathStatus) -> bool {
        &&& is_unix_path(self.snapshot_path@)
        &&& snapshot_path.present()
        &&& is_unix_path(self.mem_file_path@)
        &&& mem_file_path.present()
    }

    /// The parameters are valid exactly when no field of them is
    /// rejected.
    pub proof fn lemma_valid_iff_no_violation(
        &self,
        snapshot_path: PathStatus,
        mem_file_path: PathStatus,
    )
        ensures
            self.valid(snapshot_path, mem_file_path) <==> self.violations(
                snapshot_path,
                mem_file_path,
            ).len() == 0,
    {
        let checks = self.checks(snapshot_path, mem_file_path);
        lemma_failures_of_two(checks[0], checks[1]);
        assert(checks =~= seq![checks[0], checks[1]]);
    }

    /// Checks every constrained field and reports all that fail.
    pub fn validate(&self, snapshot_path: PathStatus, mem_file_path: PathStatus) -> (r: Result<
        (),
        ValidationErrors,
    >)
        ensures
            r is Ok <==> self.valid(snapshot_path, mem_file_path),
            r is Ok <==> self.violations(snapshot_path, mem_file_path).len() == 0,
            r matches Err(errors) ==> errors@ == self.violations(snapshot_path, mem_file_path),
    {
        let checks = vec![
            FieldCheck {
                field: "snapshot_path",
                outcome: field_outcome(
                    validate_existing_path(self.snapshot_path.as_str(), snapshot_path),
                ),
            },
            FieldCheck {
                field: "mem_file_path",
                outcome: field_outcome(
                    validate_existing_path(self.mem_file_path.as_str(), mem_file_path),
                ),
            },
        ];
        proof {
            assert(checks@ =~= self.checks(snapshot_path, mem_file_path));
            self.lemma_valid_iff_no_violation(snapshot_path, mem_file_path);
        }
        aggregate(&checks)
    }
}

impl SnapshotCreateParams {
    /// The fields of the parameters of a snapshot as they go over the wire: in the order of
    /// the declaration, an absent field left out.
    pub open spec fn wire_fields(&self) -> Seq<(&'static str, Wire)> {
        field("snapshot_path", Wire::Text(self.snapshot_path@))
            + field("mem_file_path", Wire::Text(self.mem_file_path@))
            + optional_field("snapshot_type", text_of(self.snapshot_type))
            + optional_field("version", text_of(self.version))
    }

    /// The parameters of a snapshot as it goes over the wire.
    pub open spec fn wire(&self) -> Wire {
        Wire::Object(self.wire_fields())
    }

    /// The body that describes the parameters of a snapshot.
    pub fn to_wire(&self) -> (value: WireValue)
        ensures
            value.model() == self.wire(),
    {
        let mut object = WireObject::new();
        object.put_text("snapshot_path", self.snapshot_path.as_str());
        object.put_text("mem_file_path", self.mem_file_path.as_str());
        object.put_optional_text("snapshot_type", &self.snapshot_type);
        object.put_optional_text("version", &self.version);
        assert(object.entries() =~= self.wire_fields());
        object.finish()
    }
}

impl SnapshotLoadParams {
    /// The fields of the parameters of a load as they go over the wire: in the order of
    /// the declaration, an absent field left out.
    pub open spec fn wire_fields(&self) -> Seq<(&'static str, Wire)> {
        field("snapshot_path", Wire::Text(self.snapshot_path@))
            + field("mem_file_path", Wire::Text(self.mem_file_path@))
            + optional_field("enable_diff_snapshots", bool_of(self.enable_diff_snapshots))
    }

    /// The parameters of a load as it goes over the wire.
    pub open spec fn wire(&self) -> Wire {
        Wire::Object(self.wire_fields())
    }

    /// The body that describes the parameters of a load.
    pub fn to_wire(&self) -> (value: WireValue)
        ensures
            value.model() == self.wire(),
    {
        let mut object = WireObject::new();
        object.put_text("snapshot_path", self.snapshot_path.as_str());
        object.put_text("mem_file_path", self.mem_file_path.as_str());
        object.put_optional_bool("enable_diff_snapshots", self.enable_diff_snapshots);
        assert(object.entries() =~= self.wire_fields());
        object.finish()
    }
}

impl FirecrackerClient {
    /// The request that takes a snapshot. `snapshot_path` and
    /// `mem_file_path` are what the file system told of the two files of
    /// `params`; parameters that do not validate yield no request.
    pub fn create_snapshot(
        &self,
        params: &SnapshotCreateParams,
        snapshot_path: WriteStatus,
        mem_file_path: WriteStatus,
    ) -> (r: Result<Request, FirecrackerError>)
        ensures
            request_built(
                r,
                params.violations(snapshot_path, mem_file_path),
                Method::Put,
                self.address("snapshot/create"@),
                Some(params.wire()),
            ),
    {
        self.checked_request(
            params.validate(snapshot_path, mem_file_path),
            Method::Put,
            "snapshot/create",
            params.to_wire(),
        )
    }

    /// The request that loads a snapshot. `snapshot_path` and
    /// `mem_file_path` are what the file system told of the two files of
    /// `params`; parameters that do not validate yield no request.
    pub fn load_snapshot(
        &self,
        params: &SnapshotLoadParams,
        snapshot_path: PathStatus,
        mem_file_path: PathStatus,
    ) -> (r: Result<Request, FirecrackerError>)
        ensures
            request_built(
                r,
                params.violations(snapshot_path, mem_file_path),
                Method::Put,
                self.address("snapshot/load"@),
                Some(params.wire()),
            ),
    {
        self.checked_request(
            params.validate(snapshot_path, mem_file_path),
            Method::Put,
            "snapshot/load",
            params.to_wire(),
        )
    }
}

} // verus!
