//! Field validators: the formats and ranges of single values.
//!
//! Each format is stated as a predicate over the characters of a string,
//! and each validator is proved to decide exactly that predicate.

use vstd::prelude::*;
use crate::report::ValidationError;
use crate::text::{chars_of, str_eq};

verus! {

/// The smallest context identifier that a guest may have: 0, 1 and 2 are
/// reserved.
pub const MIN_GUEST_CID: u64 = 3;

/// The largest context identifier: identifiers have 32 bits.
pub const MAX_GUEST_CID: u64 = 0xFFFF_FFFF;

/// Whether `c` is one of `0`-`9`, `a`-`f`, `A`-`F`.
pub open spec fn is_hex_digit(c: char) -> bool {
    ('0' <= c && c <= '9') || ('a' <= c && c <= 'f') || ('A' <= c && c <= 'F')
}

/// Whether `c` may stand at place `i` of a MAC address: every third
/// character separates two groups, the others are digits.
pub open spec fn fits_mac_address(i: int, c: char) -> bool {
    if i % 3 == 2 {
        c == ':' || c == '-'
    } else {
        is_hex_digit(c)
    }
}

/// Whether `s` is a MAC address: six groups of two hexadecimal digits,
/// each but the last followed by `:` or `-`.
pub open spec fn is_mac_address(s: Seq<char>) -> bool {
    &&& s.len() == 17
    &&& forall|i: int| 0 <= i < 17 ==> fits_mac_address(i, #[trigger] s[i])
}

/// Whether `i` is the place of a hyphen in a UUID of 36 characters.
pub open spec fn is_uuid_hyphen_position(i: int) -> bool {
    i == 8 || i == 13 || i == 18 || i == 23
}

/// Whether `c` may stand at place `i` of a UUID.
pub open spec fn fits_partition_uuid(i: int, c: char) -> bool {
    if is_uuid_hyphen_position(i) {
        c == '-'
    } else {
        is_hex_digit(c)
    }
}

/// Whether `s` is a UUID in its canonical form: hexadecimal digits in
/// groups of 8, 4, 4, 4 and 12, with a hyphen between the groups.
pub open spec fn is_partition_uuid(s: Seq<char>) -> bool {
    &&& s.len() == 36
    &&& forall|i: int| 0 <= i < 36 ==> fits_partition_uuid(i, #[trigger] s[i])
}

/// Whether `s` names a log level.
pub open spec fn is_log_level(s: Seq<char>) -> bool {
    s == "Error"@ || s == "Warning"@ || s == "Info"@ || s == "Debug"@
}

/// Whether `s` names a kind of snapshot.
pub open spec fn is_snapshot_type(s: Seq<char>) -> bool {
    s == "Full"@ || s == "Diff"@
}

/// Whether `s` names an action on an instance.
pub open spec fn is_action_type(s: Seq<char>) -> bool {
    s == "InstanceStart"@ || s == "InstanceHalt"@ || s == "SendCtrlAltDel"@
}

/// Whether `cid` may be the context identifier of a guest.
pub open spec fn is_guest_cid(cid: u64) -> bool {
    MIN_GUEST_CID <= cid <= MAX_GUEST_CID
}

/// Decides [`is_hex_digit`].
pub fn hex_digit(c: char) -> (b: bool)
    ensures
        b == is_hex_digit(c),
{
    ('0' <= c && c <= '9') || ('a' <= c && c <= 'f') || ('A' <= c && c <= 'F')
}

/// Decides [`is_mac_address`].
pub fn mac_address(s: &str) -> (b: bool)
    ensures
        b == is_mac_address(s@),
{
    let v = chars_of(s);
    if v.len() != 17 {
        return false;
    }
    let mut i: usize = 0;
    while i < 17
        invariant
            v@ == s@,
            v.len() == 17,
            i <= 17,
            forall|j: int| 0 <= j < i ==> fits_mac_address(j, #[trigger] v@[j]),
        decreases 17 - i,
    {
        let c = v[i];
        let fits = if i % 3 == 2 {
            c == ':' || c == '-'
        } else {
            hex_digit(c)
        };
        if !fits {
            return false;
        }
        i += 1;
    }
    true
}

/// Decides [`is_partition_uuid`].
pub fn partition_uuid(s: &str) -> (b: bool)
    ensures
        b == is_partition_uuid(s@),
{
    let v = chars_of(s);
    if v.len() != 36 {
        return false;
    }
    let mut i: usize = 0;
    while i < 36
        invariant
            v@ == s@,
            v.len() == 36,
            i <= 36,
            forall|j: int| 0 <= j < i ==> fits_partition_uuid(j, #[trigger] v@[j]),
        decreases 36 - i,
    {
        let c = v[i];
        let fits = if i == 8 || i == 13 || i == 18 || i == 23 {
            c == '-'
        } else {
            hex_digit(c)
        };
        if !fits {
            return false;
        }
        i += 1;
    }
    true
}

/// Decides [`is_log_level`].
pub fn log_level(s: &str) -> (b: bool)
    ensures
        b == is_log_level(s@),
{
    str_eq(s, "Error") || str_eq(s, "Warning") || str_eq(s, "Info") || str_eq(s, "Debug")
}

/// Decides [`is_snapshot_type`].
pub fn snapshot_type(s: &str) -> (b: bool)
    ensures
        b == is_snapshot_type(s@),
{
    str_eq(s, "Full") || str_eq(s, "Diff")
}

/// Decides [`is_action_type`].
pub fn action_type(s: &str) -> (b: bool)
    ensures
        b == is_action_type(s@),
{
    str_eq(s, "InstanceStart") || str_eq(s, "InstanceHalt") || str_eq(s, "SendCtrlAltDel")
}

/// Decides [`is_guest_cid`].
pub fn guest_cid(cid: u64) -> (b: bool)
    ensures
        b == is_guest_cid(cid),
{
    MIN_GUEST_CID <= cid && cid <= MAX_GUEST_CID
}

/// The error of a value that does not have the format of its field.
pub open spec fn format_error(message: &'static str) -> ValidationError {
    ValidationError { code: "regex", message: Some(message) }
}

/// The error of a text that is shorter than its field allows.
pub open spec fn length_error() -> ValidationError {
    ValidationError { code: "length", message: None }
}

/// The error of a number outside the range of its field.
pub open spec fn range_error(message: &'static str) -> ValidationError {
    ValidationError { code: "range", message: Some(message) }
}

/// The outcome for a field that must have a format when it is set: an
/// absent value is accepted, a present one when `fits` holds of it.
pub open spec fn format_outcome(
    value: Option<String>,
    fits: spec_fn(Seq<char>) -> bool,
    message: &'static str,
) -> Result<(), ValidationError> {
    match value {
        None => Ok(()),
        Some(text) => if fits(text@) {
            Ok(())
        } else {
            Err(format_error(message))
        },
    }
}

/// The outcome for the MAC address of a guest.
pub open spec fn mac_address_outcome(value: Option<String>) -> Result<(), ValidationError> {
    format_outcome(value, |s: Seq<char>| is_mac_address(s), "Invalid MAC address format")
}

/// The outcome for the UUID of a boot partition.
pub open spec fn partition_uuid_outcome(value: Option<String>) -> Result<(), ValidationError> {
    format_outcome(value, |s: Seq<char>| is_partition_uuid(s), "Invalid partition UUID format")
}

/// The outcome for a log level.
pub open spec fn log_level_outcome(value: Option<String>) -> Result<(), ValidationError> {
    format_outcome(
        value,
        |s: Seq<char>| is_log_level(s),
        "Invalid log level. Must be one of: Error, Warning, Info, Debug",
    )
}

/// The outcome for a kind of snapshot.
pub open spec fn snapshot_type_outcome(value: Option<String>) -> Result<(), ValidationError> {
    format_outcome(
        value,
        |s: Seq<char>| is_snapshot_type(s),
        "Invalid snapshot type. Must be one of: Full, Diff",
    )
}

/// The outcome for the name of an action.
pub open spec fn action_type_outcome(value: Seq<char>) -> Result<(), ValidationError> {
    if is_action_type(value) {
        Ok(())
    } else {
        Err(
            format_error(
                "Invalid action type. Must be one of: InstanceStart, InstanceHalt, SendCtrlAltDel",
            ),
        )
    }
}

/// The outcome for a text that must not be empty.
pub open spec fn not_empty_outcome(value: Seq<char>) -> Result<(), ValidationError> {
    if value.len() >= 1 {
        Ok(())
    } else {
        Err(length_error())
    }
}

/// The outcome for the context identifier of a guest.
pub open spec fn guest_cid_outcome(cid: u64) -> Result<(), ValidationError> {
    if is_guest_cid(cid) {
        Ok(())
    } else {
        Err(range_error("Guest CID must be between 3 and 4294967295"))
    }
}

/// The outcome for a number that must not be negative.
pub open spec fn non_negative_outcome(value: i64) -> Result<(), ValidationError> {
    if value >= 0 {
        Ok(())
    } else {
        Err(range_error("Value must not be negative"))
    }
}

/// Validates the MAC address of a guest, where one is set.
pub fn validate_mac_address(value: &Option<String>) -> (r: Result<(), ValidationError>)
    ensures
        r == mac_address_outcome(*value),
        r is Ok <==> (value matches Some(text) ==> is_mac_address(text@)),
{
    match value {
        None => Ok(()),
        Some(text) => if mac_address(text.as_str()) {
            Ok(())
        } else {
            Err(ValidationError { code: "regex", message: Some("Invalid MAC address format") })
        },
    }
}

/// Validates the UUID of a boot partition, where one is set.
pub fn validate_partition_uuid(value: &Option<String>) -> (r: Result<(), ValidationError>)
    ensures
        r == partition_uuid_outcome(*value),
        r is Ok <==> (value matches Some(text) ==> is_partition_uuid(text@)),
{
    match value {
        None => Ok(()),
        Some(text) => if partition_uuid(text.as_str()) {
            Ok(())
        } else {
            Err(ValidationError { code: "regex", message: Some("Invalid partition UUID format") })
        },
    }
}

/// Validates a log level, where one is set.
pub fn validate_log_level(value: &Option<String>) -> (r: Result<(), ValidationError>)
    ensures
        r == log_level_outcome(*value),
        r is Ok <==> (value matches Some(text) ==> is_log_level(text@)),
{
    match value {
        None => Ok(()),
        Some(text) => if log_level(text.as_str()) {
            Ok(())
        } else {
            Err(
                ValidationError {
                    code: "regex",
                    message: Some("Invalid log level. Must be one of: Error, Warning, Info, Debug"),
                },
            )
        },
    }
}

/// Validates a kind of snapshot, where one is set.
pub fn validate_snapshot_type(value: &Option<String>) -> (r: Result<(), ValidationError>)
    ensures
        r == snapshot_type_outcome(*value),
        r is Ok <==> (value matches Some(text) ==> is_snapshot_type(text@)),
{
    match value {
        None => Ok(()),
        Some(text) => if snapshot_type(text.as_str()) {
            Ok(())
        } else {
            Err(
                ValidationError {
                    code: "regex",
                    message: Some("Invalid snapshot type. Must be one of: Full, Diff"),
                },
            )
        },
    }
}

/// Validates the name of an action.
pub fn validate_action_type(value: &str) -> (r: Result<(), ValidationError>)
    ensures
        r == action_type_outcome(value@),
        r is Ok <==> is_action_type(value@),
{
    if action_type(value) {
        Ok(())
    } else {
        Err(
            ValidationError {
                code: "regex",
                message: Some(
                    "Invalid action type. Must be one of: InstanceStart, InstanceHalt, SendCtrlAltDel",
                ),
            },
        )
    }
}

/// Validates a text that must hold at least one character.
pub fn validate_not_empty(value: &str) -> (r: Result<(), ValidationError>)
    ensures
        r == not_empty_outcome(value@),
        r is Ok <==> value@.len() >= 1,
{
    if value.is_empty() {
        Err(ValidationError { code: "length", message: None })
    } else {
        Ok(())
    }
}

/// Validates the context identifier of a guest: 0, 1 and 2 are reserved,
/// and an identifier has 32 bits.
pub fn validate_guest_cid(cid: u64) -> (r: Result<(), ValidationError>)
    ensures
        r == guest_cid_outcome(cid),
        r is Ok <==> 3 <= cid <= 0xFFFF_FFFF,
{
    if guest_cid(cid) {
        Ok(())
    } else {
        Err(
            ValidationError {
                code: "range",
                message: Some("Guest CID must be between 3 and 4294967295"),
            },
        )
    }
}

/// Validates a number that must not be negative.
pub fn validate_non_negative(value: i64) -> (r: Result<(), ValidationError>)
    ensures
        r == non_negative_outcome(value),
        r is Ok <==> value >= 0,
{
    if value >= 0 {
        Ok(())
    } else {
        Err(ValidationError { code: "range", message: Some("Value must not be negative") })
    }
}

} // verus!
