use firecracker_http_client::fields::{
    action_type, guest_cid, hex_digit, log_level, mac_address, partition_uuid, snapshot_type,
    validate_action_type, validate_guest_cid, validate_log_level, validate_mac_address,
    validate_non_negative, validate_not_empty, validate_partition_uuid, validate_snapshot_type,
};
use firecracker_http_client::models::{RateLimiter, TokenBucket};
use firecracker_http_client::report::ValidationError;
use regex::Regex;

const MAC_ADDRESS: &str = r"^([0-9A-Fa-f]{2}[:-]){5}([0-9A-Fa-f]{2})$";
const PARTUUID: &str =
    r"^[0-9a-fA-F]{8}-[0-9a-fA-F]{4}-[0-9a-fA-F]{4}-[0-9a-fA-F]{4}-[0-9a-fA-F]{12}$";
const LOG_LEVEL: &str = r"^(Error|Warning|Info|Debug)$";
const SNAPSHOT_TYPE: &str = r"^(Full|Diff)$";
const ACTION_TYPE: &str = r"^(InstanceStart|InstanceHalt|SendCtrlAltDel)$";

fn samples() -> Vec<String> {
    let mut all: Vec<String> = vec![
        "",
        " ",
        "\n",
        "12:34:56:78:9A:BC",
        "12:34:56:78:9a:bc",
        "12-34-56-78-9A-BC",
        "12:34-56:78-9A:BC",
        "12:34:56:78:9A:BC\n",
        "\n12:34:56:78:9A:BC",
        " 12:34:56:78:9A:BC",
        "12:34:56:78:9A:BC ",
        "12:34:56:78:9A",
        "12:34:56:78:9A:BC:DE",
        "12:34:56:78:9A:BG",
        "12:34:56:78:9A:B",
        "12:34:56:78:9A:BCD",
        "12.34.56.78.9A.BC",
        "12:34:56:78:9A::C",
        "1234:56:78:9A:BC:",
        ":12:34:56:78:9A:B",
        "123456789ABC",
        "invalid:mac:address",
        "١٢:34:56:78:9A:BC",
        "１２:34:56:78:9A:BC",
        "12:34:56:78:9A:Bé",
        "00:00:00:00:00:00",
        "ff:ff:ff:ff:ff:ff",
        "FF-FF-FF-FF-FF-FF",
        "g0:00:00:00:00:00",
        "0/:00:00:00:00:00",
        "0::00:00:00:00:00",
        "0@:00:00:00:00:00",
        "0G:00:00:00:00:00",
        "0`:00:00:00:00:00",
        "00000000-1234-1234-1234-123456789abc",
        "00000000-1234-1234-1234-123456789ABC",
        "00000000-1234-1234-1234-123456789abc\n",
        "00000000-1234-1234-1234-123456789ab",
        "00000000-1234-1234-1234-123456789abcd",
        "0000000-01234-1234-1234-123456789abc",
        "00000000_1234_1234_1234_123456789abc",
        "00000000-1234-1234-1234-123456789abg",
        "00000000-1234-1234-1234-12345678-abc",
        "000000001234123412341234567890abcdef",
        "{00000000-1234-1234-1234-123456789abc}",
        "00000000-1234-1234-1234-123456789abé",
        "no-t-a-u-uid",
        "not-a-uuid",
        "invalid-uuid",
        "Error",
        "Warning",
        "Info",
        "Debug",
        "error",
        "INFO",
        "Info ",
        " Info",
        "Info\n",
        "Inf",
        "Infos",
        "Trace",
        "InvalidLevel",
        "ErrorWarning",
        "Error|Warning",
        "Full",
        "Diff",
        "full",
        "Full\n",
        "FullDiff",
        "Invalid",
        "InstanceStart",
        "InstanceHalt",
        "SendCtrlAltDel",
        "instancestart",
        "InstanceStart\n",
        "InstanceStop",
        "FlushMetrics",
    ]
    .into_iter()
    .map(|s| s.to_string())
    .collect();
    // Every character of a valid value replaced in turn by a neighbour of
    // the accepted ranges.
    for base in ["12:34:56:78:9A:BC", "00000000-1234-1234-1234-123456789abc"] {
        for place in 0..base.len() {
            for c in ['/', ':', '-', '@', 'G', '`', 'g', '0', 'a', 'F', '.'] {
                let mut changed: Vec<char> = base.chars().collect();
                changed[place] = c;
                all.push(changed.into_iter().collect());
            }
        }
    }
    all
}

#[test]
fn mac_address_agrees_with_the_pattern() {
    let pattern = Regex::new(MAC_ADDRESS).unwrap();
    for s in samples() {
        assert_eq!(mac_address(&s), pattern.is_match(&s), "{:?}", s);
    }
}

#[test]
fn partition_uuid_agrees_with_the_pattern() {
    let pattern = Regex::new(PARTUUID).unwrap();
    for s in samples() {
        assert_eq!(partition_uuid(&s), pattern.is_match(&s), "{:?}", s);
    }
}

#[test]
fn log_level_agrees_with_the_pattern() {
    let pattern = Regex::new(LOG_LEVEL).unwrap();
    for s in samples() {
        assert_eq!(log_level(&s), pattern.is_match(&s), "{:?}", s);
    }
}

#[test]
fn snapshot_type_agrees_with_the_pattern() {
    let pattern = Regex::new(SNAPSHOT_TYPE).unwrap();
    for s in samples() {
        assert_eq!(snapshot_type(&s), pattern.is_match(&s), "{:?}", s);
    }
}

#[test]
fn action_type_agrees_with_the_pattern() {
    let pattern = Regex::new(ACTION_TYPE).unwrap();
    for s in samples() {
        assert_eq!(action_type(&s), pattern.is_match(&s), "{:?}", s);
    }
}

#[test]
fn hex_digits() {
    for c in "0123456789abcdefABCDEF".chars() {
        assert!(hex_digit(c), "{:?}", c);
    }
    for c in "/:@G`g xX-_é٣".chars() {
        assert!(!hex_digit(c), "{:?}", c);
    }
}

#[test]
fn mac_address_examples() {
    assert!(mac_address("12:34:56:78:9A:BC"));
    assert!(mac_address("aa-bb-cc-dd-ee-ff"));
    assert!(!mac_address("invalid:mac:address"));
    assert!(!mac_address("12:34:56:78:9A"));
    assert!(!mac_address(""));
}

#[test]
fn partition_uuid_examples() {
    assert!(partition_uuid("00000000-1234-1234-1234-123456789abc"));
    assert!(!partition_uuid("not-a-uuid"));
    assert!(!partition_uuid("invalid-uuid"));
    assert!(!partition_uuid("00000000123412341234123456789abc"));
}

#[test]
fn guest_cid_range() {
    assert!(!guest_cid(0));
    assert!(!guest_cid(1));
    assert!(!guest_cid(2));
    assert!(guest_cid(3));
    assert!(guest_cid(4294967295));
    assert!(!guest_cid(4294967296));
    assert!(!guest_cid(u64::MAX));
}

#[test]
fn guest_cid_outcomes() {
    let refused = Err(ValidationError {
        code: "range",
        message: Some("Guest CID must be between 3 and 4294967295"),
    });
    assert_eq!(validate_guest_cid(2), refused);
    assert_eq!(validate_guest_cid(3), Ok(()));
    assert_eq!(validate_guest_cid(4294967296), refused);
}

#[test]
fn absent_values_are_not_validated() {
    assert_eq!(validate_mac_address(&None), Ok(()));
    assert_eq!(validate_partition_uuid(&None), Ok(()));
    assert_eq!(validate_log_level(&None), Ok(()));
    assert_eq!(validate_snapshot_type(&None), Ok(()));
}

#[test]
fn present_values_are_validated() {
    let some = |s: &str| Some(s.to_string());
    assert_eq!(validate_mac_address(&some("12:34:56:78:9A:BC")), Ok(()));
    assert_eq!(
        validate_mac_address(&some("")),
        Err(ValidationError { code: "regex", message: Some("Invalid MAC address format") })
    );
    assert_eq!(validate_partition_uuid(&some("00000000-1234-1234-1234-123456789abc")), Ok(()));
    assert_eq!(
        validate_partition_uuid(&some("not-a-uuid")),
        Err(ValidationError { code: "regex", message: Some("Invalid partition UUID format") })
    );
    assert_eq!(validate_log_level(&some("Debug")), Ok(()));
    assert_eq!(
        validate_log_level(&some("Trace")),
        Err(ValidationError {
            code: "regex",
            message: Some("Invalid log level. Must be one of: Error, Warning, Info, Debug"),
        })
    );
    assert_eq!(validate_snapshot_type(&some("Diff")), Ok(()));
    assert_eq!(
        validate_snapshot_type(&some("Partial")),
        Err(ValidationError {
            code: "regex",
            message: Some("Invalid snapshot type. Must be one of: Full, Diff"),
        })
    );
}

#[test]
fn action_type_outcomes() {
    assert_eq!(validate_action_type("InstanceStart"), Ok(()));
    assert_eq!(validate_action_type("InstanceHalt"), Ok(()));
    assert_eq!(validate_action_type("SendCtrlAltDel"), Ok(()));
    assert_eq!(
        validate_action_type("Invalid"),
        Err(ValidationError {
            code: "regex",
            message: Some(
                "Invalid action type. Must be one of: InstanceStart, InstanceHalt, SendCtrlAltDel"
            ),
        })
    );
}

#[test]
fn not_empty_counts_characters() {
    assert_eq!(validate_not_empty("eth0"), Ok(()));
    assert_eq!(validate_not_empty(" "), Ok(()));
    assert_eq!(validate_not_empty(""), Err(ValidationError { code: "length", message: None }));
}

#[test]
fn non_negative_numbers() {
    assert_eq!(validate_non_negative(0), Ok(()));
    assert_eq!(validate_non_negative(i64::MAX), Ok(()));
    let refused =
        Err(ValidationError { code: "range", message: Some("Value must not be negative") });
    assert_eq!(validate_non_negative(-1), refused);
    assert_eq!(validate_non_negative(i64::MIN), refused);
}

#[test]
fn token_bucket_validation() {
    let bucket = TokenBucket { one_time_burst: None, refill_time: 100, size: 1024 };
    assert!(bucket.validate().is_ok());
    assert!(TokenBucket { one_time_burst: Some(-5), refill_time: 0, size: 0 }.validate().is_ok());

    let errors = TokenBucket { refill_time: -1, ..bucket }.validate().unwrap_err();
    assert_eq!(errors.len(), 1);
    assert_eq!(errors.errors[0].field, "refill_time");

    let errors = TokenBucket { refill_time: -1, size: -1, ..bucket }.validate().unwrap_err();
    assert_eq!(errors.len(), 2);
    assert_eq!(errors.errors[0].field, "refill_time");
    assert_eq!(errors.errors[1].field, "size");
}

#[test]
fn rate_limiter_validation() {
    let good = TokenBucket { one_time_burst: None, refill_time: 100, size: 1024 };
    let bad = TokenBucket { one_time_burst: None, refill_time: -100, size: -1024 };
    assert!(RateLimiter { bandwidth: None, ops: None }.validate().is_ok());
    assert!(RateLimiter { bandwidth: Some(good), ops: Some(good) }.validate().is_ok());

    let errors = RateLimiter { bandwidth: Some(good), ops: Some(bad) }.validate().unwrap_err();
    assert_eq!(errors.len(), 2);
    assert_eq!(errors.errors[0].field, "ops.refill_time");
    assert_eq!(errors.errors[1].field, "ops.size");

    let errors = RateLimiter { bandwidth: Some(bad), ops: Some(bad) }.validate().unwrap_err();
    assert_eq!(errors.len(), 4);
    assert_eq!(errors.errors[0].field, "bandwidth.refill_time");
    assert_eq!(errors.errors[1].field, "bandwidth.size");
    assert_eq!(errors.errors[2].field, "ops.refill_time");
    assert_eq!(errors.errors[3].field, "ops.size");
}
