//! The logger of a microVM.

use vstd::prelude::*;
use crate::dispatch::{Method, Request};
use crate::error::FirecrackerError;
use crate::fields::{is_log_level, log_level_outcome, validate_log_level};
use crate::report::{
    aggregate,
    failures,
    lemma_failures_of_two,
    FieldCheck,
    FieldError,
    ValidationErrors,
};
use crate::validation::{
    field_outcome,
    is_unix_path,
    path_outcome,
    validate_writable_path,
    writable_path_verdict,
    WriteStatus,
};
use crate::wire::{bool_of, field, optional_field, text_of, Wire, WireObject, WireValue};
use crate::{request_built, FirecrackerClient};

verus! {

/// Where the log goes, and what goes into it.
#[derive(Clone, Debug, PartialEq)]
pub struct Logger {
    /// Path of the log file; it must be writable, or its directory where
    /// the file does not exist yet.
    pub log_path: String,
    /// The least severe level that is logged: `Error`, `Warning`, `Info`
    /// or `Debug` where it is set.
    pub level: Option<String>,
    /// Whether each line shows its level.
    pub show_level: Option<bool>,
    /// Whether each line shows where in the source it comes from.
    pub show_log_origin: Option<bool>,
}

impl Logger {
    /// The checks of a logger, in the order of its fields. `log_path` is
    /// what the file system told of the log file and its directory.
    pub open spec fn checks(&self, log_path: WriteStatus) -> Seq<FieldCheck> {
        seq![
            FieldCheck {
                field: "log_path",
                outcome: path_outcome(
                    writable_path_verdict(self.log_path@, log_path.target, log_path.parent),
                ),
            },
            FieldCheck { field: "level", outcome: log_level_outcome(self.level) },
        ]
    }

    /// The rejected fields of a logger, in the order of its fields.
    pub open spec fn violations(&self, log_path: WriteStatus) -> Seq<FieldError> {
        failures(self.checks(log_path))
    }

    /// Whether the logger may be sent: the log file can be written at a
    /// well-formed path, and the level, where one is set, is a log level.
    pub open spec fn valid(&self, log_path: WriteStatus) -> bool {
        &&& is_unix_path(self.log_path@)
        &&& log_path.writable()
        &&& self.level matches Some(level) ==> is_log_level(level@)
    }

    /// A logger is valid exactly when no field of it is rejected.
    pub proof fn lemma_valid_iff_no_violation(&self, log_path: WriteStatus)
        ensures
            self.valid(log_path) <==> self.violations(log_path).len() == 0,
    {
        let checks = self.checks(log_path);
        lemma_failures_of_two(checks[0], checks[1]);
        assert(checks =~= seq![checks[0], checks[1]]);
    }

    /// Checks every constrained field and reports all that fail.
    pub fn validate(&self, log_path: WriteStatus) -> (r: Result<(), ValidationErrors>)
        ensures
            r is Ok <==> self.valid(log_path),
            r is Ok <==> self.violations(log_path).len() == 0,
            r matches Err(errors) ==> errors@ == self.violations(log_path),
    {
        let checks = vec![
            FieldCheck {
                field: "log_path",
                outcome: field_outcome(
                    validate_writable_path(
                        self.log_path.as_str(),
                        log_path.target,
                        log_path.parent,
                    ),
                ),
            },
            FieldCheck { field: "level", outcome: validate_log_level(&self.level) },
        ];
        proof {
            assert(checks@ =~= self.checks(log_path));
            self.lemma_valid_iff_no_violation(log_path);
        }
        aggregate(&checks)
    }
}

impl Logger {
    /// The fields of a logger as they go over the wire: in the order of
    /// the declaration, an absent field left out.
    pub open spec fn wire_fields(&self) -> Seq<(&'static str, Wire)> {
        field("log_path", Wire::Text(self.log_path@))
            + optional_field("level", text_of(self.level))
            + optional_field("show_level", bool_of(self.show_level))
            + optional_field("show_log_origin", bool_of(self.show_log_origin))
    }

    /// A logger as it goes over the wire.
    pub open spec fn wire(&self) -> Wire {
        Wire::Object(self.wire_fields())
    }

    /// The body that describes a logger.
    pub fn to_wire(&self) -> (value: WireValue)
        ensures
            value.model() == self.wire(),
    {
        let mut object = WireObject::new();
        object.put_text("log_path", self.log_path.as_str());
        object.put_optional_text("level", &self.level);
        object.put_optional_bool("show_level", self.show_level);
        object.put_optional_bool("show_log_origin", self.show_log_origin);
        assert(object.entries() =~= self.wire_fields());
        object.finish()
    }
}

impl FirecrackerClient {
    /// The request that configures the logger. A logger that does not
    /// validate yields no request.
    pub fn put_logger(&self, logger: &Logger, log_path: WriteStatus) -> (r: Result<
        Request,
        FirecrackerError,
    >)
        ensures
            request_built(
                r,
                logger.violations(log_path),
                Method::Put,
                self.address("logger"@),
                Some(logger.wire()),
            ),
    {
        self.checked_request(logger.validate(log_path), Method::Put, "logger", logger.to_wire())
    }
}

} // verus!
