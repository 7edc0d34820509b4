use firecracker_http_client::action::InstanceActionInfo;
use firecracker_http_client::balloon::{BalloonStatsUpdate, BalloonUpdate};
use firecracker_http_client::cpu::CpuConfig;
use firecracker_http_client::dispatch::{
    acknowledge, is_success, map_outcome, map_response, Method, Response,
};
use firecracker_http_client::endpoint::join_url;
use firecracker_http_client::entropy::EntropyDevice;
use firecracker_http_client::error::FirecrackerError;
use firecracker_http_client::logger::Logger;
use firecracker_http_client::metrics::Metrics;
use firecracker_http_client::models::{
    Balloon, BootSource, Drive, MachineConfig, NetworkInterface, Vsock,
};
use firecracker_http_client::report::{
    aggregate, FieldCheck, FieldError, ValidationError, ValidationErrors,
};
use firecracker_http_client::snapshot::{SnapshotCreateParams, SnapshotLoadParams};
use firecracker_http_client::text::{
    chars_of, same_chars, str_eq, trim_leading_slashes, trim_trailing_slashes,
};
use firecracker_http_client::validation::{
    field_outcome, path_validation_error, validate_path, PathError, PathStatus, WriteStatus,
};
use firecracker_http_client::vm::VmConfig;
use firecracker_http_client::wire::WireValue;
use firecracker_http_client::FirecrackerClient;
use serde_json::Value;

fn client() -> FirecrackerClient {
    FirecrackerClient::new("http://localhost:8080").unwrap()
}

fn no_content() -> Result<Response, String> {
    Ok(Response { status_code: 204, body: String::new() })
}

fn fresh_file() -> WriteStatus {
    WriteStatus { target: PathStatus::Missing, parent: PathStatus::Present { mode: 0o755 } }
}

fn existing_file() -> PathStatus {
    PathStatus::Present { mode: 0o644 }
}

fn validation_errors(e: FirecrackerError) -> ValidationErrors {
    match e {
        FirecrackerError::Validation(errors) => errors,
        other => panic!("expected a validation error, got {:?}", other),
    }
}

#[test]
fn test_logger_configuration() {
    let logger = Logger {
        log_path: "/tmp/firecracker.log".to_string(),
        level: Some("Info".to_string()),
        show_level: Some(true),
        show_log_origin: Some(true),
    };
    let request = client().put_logger(&logger, fresh_file()).unwrap();
    assert_eq!(request.method, Method::Put);
    assert_eq!(request.url, "http://localhost:8080/logger");
    assert_eq!(request.body, Some(logger.to_wire()));
    acknowledge(no_content()).unwrap();
}

#[test]
fn test_logger_invalid_path() {
    let logger = Logger {
        log_path: "invalid/path".to_string(),
        level: Some("Info".to_string()),
        show_level: Some(true),
        show_log_origin: Some(true),
    };
    let result = client().put_logger(&logger, fresh_file());
    assert!(result.is_err());
}

#[test]
fn test_logger_invalid_level() {
    let logger = Logger {
        log_path: "/tmp/firecracker.log".to_string(),
        level: Some("InvalidLevel".to_string()),
        show_level: Some(true),
        show_log_origin: Some(true),
    };
    let result = client().put_logger(&logger, fresh_file());
    assert!(result.is_err());
}

#[test]
fn test_balloon_stats_update() {
    let update = BalloonStatsUpdate { stats_polling_interval_s: 5 };
    let request = client().patch_balloon_stats(&update).unwrap();
    assert_eq!(request.method, Method::Patch);
    assert_eq!(request.url, "http://localhost:8080/balloon/statistics");
    assert_eq!(request.body, Some(update.to_wire()));
    acknowledge(no_content()).unwrap();
}

#[test]
fn test_cpu_config() {
    let config = CpuConfig { template: Some("C3".to_string()) };
    let request = client().put_cpu_config(&config).unwrap();
    assert_eq!(request.method, Method::Put);
    assert_eq!(request.url, "http://localhost:8080/cpu-config");
    acknowledge(no_content()).unwrap();
}

#[test]
fn test_metrics_config() {
    let metrics = Metrics { metrics_path: "/tmp/metrics".to_string() };
    let request = client().put_metrics(&metrics, fresh_file()).unwrap();
    assert_eq!(request.method, Method::Put);
    assert_eq!(request.url, "http://localhost:8080/metrics");
    acknowledge(no_content()).unwrap();
}

#[test]
fn test_mmds_config() {
    let config = Value::Object(serde_json::Map::new());
    let request = client().put_mmds(config.clone()).unwrap();
    assert_eq!(request.method, Method::Put);
    assert_eq!(request.url, "http://localhost:8080/mmds");
    assert_eq!(request.body, Some(WireValue::Json(config)));
    acknowledge(no_content()).unwrap();
}

#[test]
fn test_vsock_config() {
    let vsock = Vsock { guest_cid: 3, uds_path: "/tmp/vsock".to_string(), vsock_id: None };
    let request = client().put_vsock(&vsock).unwrap();
    assert_eq!(request.method, Method::Put);
    assert_eq!(request.url, "http://localhost:8080/vsock");
    acknowledge(no_content()).unwrap();
}

#[test]
fn test_entropy_device() {
    let device = EntropyDevice { rate_limiter: None };
    let request = client().put_entropy_device(&device).unwrap();
    assert_eq!(request.method, Method::Put);
    assert_eq!(request.url, "http://localhost:8080/entropy");
    acknowledge(no_content()).unwrap();
}

#[test]
fn test_instance_actions() {
    let action = InstanceActionInfo::new("InstanceStart");
    assert_eq!(action.action_type, "InstanceStart");
    let request = client().create_sync_action(&action).unwrap();
    assert_eq!(request.method, Method::Put);
    assert_eq!(request.url, "http://localhost:8080/actions");
    assert_eq!(request.body, Some(action.to_wire()));
    acknowledge(no_content()).unwrap();
}

#[test]
fn test_vm_config() {
    let config = VmConfig {
        vcpu_count: Some(2),
        mem_size_mib: Some(1024),
        ht_enabled: Some(true),
        track_dirty_pages: Some(false),
    };
    let request = client().put_vm_config(&config).unwrap();
    assert_eq!(request.method, Method::Put);
    assert_eq!(request.url, "http://localhost:8080/vm/config");
    acknowledge(no_content()).unwrap();
}

#[test]
fn test_vm_info() {
    let request = client().get_vm_info().unwrap();
    assert_eq!(request.method, Method::Get);
    assert_eq!(request.url, "http://localhost:8080/vm");
    assert_eq!(request.body, None);
    let answer = Response {
        status_code: 200,
        body: r#"{"state": "Running", "id": "test-vm"}"#.to_string(),
    };
    let body = map_outcome(Ok(answer)).unwrap();
    assert_eq!(body, r#"{"state": "Running", "id": "test-vm"}"#);
}

#[test]
fn unknown_action_is_not_sent() {
    let action = InstanceActionInfo::new("Invalid");
    let errors = validation_errors(client().create_sync_action(&action).unwrap_err());
    assert_eq!(errors.len(), 1);
    assert_eq!(errors.errors[0].field, "action_type");
    assert!(action.validate().is_err());
    assert!(InstanceActionInfo::new("InstanceHalt").validate().is_ok());
    assert!(InstanceActionInfo::new("SendCtrlAltDel").validate().is_ok());
}

#[test]
fn every_read_has_its_address() {
    let c = client();
    let reads = [
        (c.get_balloon_config().unwrap(), "http://localhost:8080/balloon"),
        (c.get_balloon_stats().unwrap(), "http://localhost:8080/balloon/statistics"),
        (c.describe_instance().unwrap(), "http://localhost:8080/"),
        (c.get_machine_config().unwrap(), "http://localhost:8080/machine-config"),
        (c.get_mmds().unwrap(), "http://localhost:8080/mmds"),
        (c.get_version().unwrap(), "http://localhost:8080/version"),
        (c.get_vm_info().unwrap(), "http://localhost:8080/vm"),
    ];
    for (request, address) in reads {
        assert_eq!(request.method, Method::Get);
        assert_eq!(request.url, address);
        assert_eq!(request.body, None);
    }
}

#[test]
fn writes_without_constraints() {
    let c = client();
    let balloon = Balloon { amount_mib: 512, deflate_on_oom: Some(true), stats_polling_interval_s: Some(1) };
    let request = c.put_balloon_config(&balloon).unwrap();
    assert_eq!((request.method, request.url.as_str()), (Method::Put, "http://localhost:8080/balloon"));
    assert_eq!(request.body, Some(balloon.to_wire()));

    let update = BalloonUpdate { amount_mib: 256 };
    let request = c.patch_balloon_config(&update).unwrap();
    assert_eq!((request.method, request.url.as_str()), (Method::Patch, "http://localhost:8080/balloon"));

    let machine = MachineConfig { vcpu_count: Some(2), mem_size_mib: Some(1024), ..Default::default() };
    let request = c.put_machine_config(&machine).unwrap();
    assert_eq!((request.method, request.url.as_str()), (Method::Put, "http://localhost:8080/machine-config"));
    let request = c.patch_machine_config(&machine).unwrap();
    assert_eq!((request.method, request.url.as_str()), (Method::Patch, "http://localhost:8080/machine-config"));

    let data = Value::String("Hello, MMDS!".to_string());
    let request = c.patch_mmds(data.clone()).unwrap();
    assert_eq!((request.method, request.url.as_str()), (Method::Patch, "http://localhost:8080/mmds"));
    assert_eq!(request.body, Some(WireValue::Json(data)));
}

#[test]
fn drive_requests() {
    let c = client();
    let drive = Drive {
        drive_id: "rootfs".to_string(),
        path_on_host: "/path/to/rootfs".to_string(),
        is_root_device: true,
        is_read_only: false,
        ..Default::default()
    };
    let request = c.put_drive("rootfs", &drive, existing_file()).unwrap();
    assert_eq!(request.method, Method::Put);
    assert_eq!(request.url, "http://localhost:8080/drives/rootfs");
    assert_eq!(request.body, Some(drive.to_wire()));
    let request = c.patch_drive("rootfs", &drive, existing_file()).unwrap();
    assert_eq!(request.method, Method::Patch);
    assert_eq!(request.url, "http://localhost:8080/drives/rootfs");

    let errors = validation_errors(c.put_drive("rootfs", &drive, PathStatus::Missing).unwrap_err());
    assert_eq!(errors.len(), 1);
    assert_eq!(errors.errors[0].field, "path_on_host");
    assert!(c.patch_drive("rootfs", &drive, PathStatus::Missing).is_err());
}

#[test]
fn drive_with_two_invalid_fields_is_not_sent() {
    let drive = Drive {
        drive_id: "rootfs".to_string(),
        path_on_host: "/non/existent".to_string(),
        partuuid: Some("not-a-uuid".to_string()),
        ..Default::default()
    };
    let errors = validation_errors(client().put_drive("rootfs", &drive, PathStatus::Missing).unwrap_err());
    assert_eq!(errors.len(), 2);
    assert_eq!(errors.errors[0].field, "partuuid");
    assert_eq!(errors.errors[1].field, "path_on_host");
}

#[test]
fn network_interface_requests() {
    let c = client();
    let interface = NetworkInterface {
        iface_id: "eth0".to_string(),
        host_dev_name: "/dev/net/tap0".to_string(),
        ..Default::default()
    };
    let request = c.put_network_interface("eth0", &interface).unwrap();
    assert_eq!(request.method, Method::Put);
    assert_eq!(request.url, "http://localhost:8080/network-interfaces/eth0");
    let request = c.patch_network_interface("eth0", &interface).unwrap();
    assert_eq!(request.method, Method::Patch);
    assert_eq!(request.url, "http://localhost:8080/network-interfaces/eth0");

    let relative = NetworkInterface { host_dev_name: "tap0".to_string(), ..interface.clone() };
    assert!(c.put_network_interface("eth0", &relative).is_err());
    assert!(c.patch_network_interface("eth0", &relative).is_err());
}

#[test]
fn boot_source_requests() {
    let c = client();
    let boot = BootSource {
        kernel_image_path: "/path/to/kernel".to_string(),
        boot_args: Some("console=ttyS0 reboot=k panic=1 pci=off".to_string()),
        initrd_path: None,
    };
    // Without an initrd its status does not count.
    let request = c.put_boot_source(&boot, PathStatus::Missing, existing_file()).unwrap();
    assert_eq!(request.method, Method::Put);
    assert_eq!(request.url, "http://localhost:8080/boot-source");
    assert!(boot.validate(PathStatus::Missing, existing_file()).is_ok());

    let errors = boot.validate(existing_file(), PathStatus::Missing).unwrap_err();
    assert_eq!(errors.len(), 1);
    assert_eq!(errors.errors[0].field, "kernel_image_path");

    let with_initrd = BootSource { initrd_path: Some("initrd.img".to_string()), ..boot.clone() };
    let errors = with_initrd.validate(existing_file(), PathStatus::Missing).unwrap_err();
    assert_eq!(errors.len(), 2);
    assert_eq!(errors.errors[0].field, "initrd_path");
    assert_eq!(errors.errors[0].error.message, Some("Path must be absolute"));
    assert_eq!(errors.errors[1].field, "kernel_image_path");
    assert_eq!(errors.errors[1].error.message, Some("Path does not exist"));
    assert!(c.put_boot_source(&with_initrd, existing_file(), existing_file()).is_err());
}

#[test]
fn snapshot_requests() {
    let c = client();
    let create = SnapshotCreateParams {
        snapshot_type: Some("Full".to_string()),
        snapshot_path: "/path/to/snapshot".to_string(),
        mem_file_path: "/path/to/mem".to_string(),
        version: Some("1.0".to_string()),
    };
    let request = c.create_snapshot(&create, fresh_file(), fresh_file()).unwrap();
    assert_eq!(request.method, Method::Put);
    assert_eq!(request.url, "http://localhost:8080/snapshot/create");
    assert_eq!(request.body, Some(create.to_wire()));

    let load = SnapshotLoadParams {
        snapshot_path: "/path/to/snapshot".to_string(),
        mem_file_path: "/path/to/mem".to_string(),
        enable_diff_snapshots: Some(false),
    };
    let request = c.load_snapshot(&load, existing_file(), existing_file()).unwrap();
    assert_eq!(request.method, Method::Put);
    assert_eq!(request.url, "http://localhost:8080/snapshot/load");
    let errors = validation_errors(c.load_snapshot(&load, PathStatus::Missing, PathStatus::Missing).unwrap_err());
    assert_eq!(errors.len(), 2);
}

#[test]
fn vsock_with_reserved_cid_is_not_sent() {
    let vsock = Vsock { guest_cid: 2, uds_path: "/tmp/vsock".to_string(), vsock_id: None };
    let errors = validation_errors(client().put_vsock(&vsock).unwrap_err());
    assert_eq!(
        errors.errors,
        vec![FieldError {
            field: "guest_cid",
            error: ValidationError {
                code: "range",
                message: Some("Guest CID must be between 3 and 4294967295"),
            },
        }]
    );
}

#[test]
fn validation_comes_before_the_address() {
    // Neither the descriptor nor the address is good: the descriptor is
    // reported.
    let c = FirecrackerClient::new("no address").unwrap();
    let vsock = Vsock { guest_cid: 2, uds_path: "/tmp/vsock".to_string(), vsock_id: None };
    assert!(matches!(c.put_vsock(&vsock), Err(FirecrackerError::Validation(_))));
    let vsock = Vsock { guest_cid: 3, ..vsock };
    assert!(matches!(c.put_vsock(&vsock), Err(FirecrackerError::UrlParseError(_))));
}

#[test]
fn status_204_is_success_without_a_value() {
    assert!(matches!(acknowledge(no_content()), Ok(())));
    let answer = Response { status_code: 204, body: String::new() };
    assert_eq!(map_response(answer).unwrap(), "");
}

#[test]
fn status_400_is_an_api_failure_with_the_body() {
    let body = r#"{"error":"Invalid request"}"#;
    let answer = Response { status_code: 400, body: body.to_string() };
    match map_response(answer).unwrap_err() {
        FirecrackerError::Api { status_code, message } => {
            assert_eq!(status_code, 400);
            assert_eq!(message, body);
        }
        other => panic!("Expected Api error, got {:?}", other),
    }
    let answer = Response { status_code: 404, body: r#"{"error":"Not found"}"#.to_string() };
    match acknowledge(Ok(answer)).unwrap_err() {
        FirecrackerError::Api { status_code, message } => {
            assert_eq!(status_code, 404);
            assert_eq!(message, r#"{"error":"Not found"}"#);
        }
        other => panic!("Expected Api error, got {:?}", other),
    }
}

#[test]
fn only_2xx_is_success() {
    for status in [200u16, 201, 204, 226, 299] {
        assert!(is_success(status), "{}", status);
        assert!(map_response(Response { status_code: status, body: "x".to_string() }).is_ok());
    }
    for status in [0u16, 100, 199, 300, 301, 400, 404, 500, 599, u16::MAX] {
        assert!(!is_success(status), "{}", status);
        match map_response(Response { status_code: status, body: "x".to_string() }) {
            Err(FirecrackerError::Api { status_code, message }) => {
                assert_eq!(status_code, status);
                assert_eq!(message, "x");
            }
            other => panic!("Expected Api error, got {:?}", other),
        }
    }
}

#[test]
fn transport_failure_is_passed_on() {
    match map_outcome(Err("connection refused".to_string())).unwrap_err() {
        FirecrackerError::HttpClient(text) => assert_eq!(text, "connection refused"),
        other => panic!("Expected HttpClient error, got {:?}", other),
    }
    assert!(matches!(
        acknowledge(Err("timed out".to_string())),
        Err(FirecrackerError::HttpClient(_))
    ));
}

#[test]
fn join_url_puts_one_slash() {
    assert_eq!(join_url("http://localhost:8080", "actions"), "http://localhost:8080/actions");
    assert_eq!(join_url("http://localhost:8080/", "/actions"), "http://localhost:8080/actions");
    assert_eq!(join_url("http://localhost:8080///", "///a/b/"), "http://localhost:8080/a/b/");
    assert_eq!(join_url("http://localhost:8080", ""), "http://localhost:8080/");
    assert_eq!(join_url("", ""), "/");
    assert_eq!(join_url("///", "///"), "/");
    assert_eq!(join_url("http://hôte/", "/é"), "http://hôte/é");
}

#[test]
fn trimming_slashes() {
    assert_eq!(trim_trailing_slashes("a/b//"), "a/b");
    assert_eq!(trim_trailing_slashes("//"), "");
    assert_eq!(trim_trailing_slashes(""), "");
    assert_eq!(trim_trailing_slashes("/a"), "/a");
    assert_eq!(trim_trailing_slashes("é/"), "é");
    assert_eq!(trim_leading_slashes("//a/b/"), "a/b/");
    assert_eq!(trim_leading_slashes("//"), "");
    assert_eq!(trim_leading_slashes(""), "");
    assert_eq!(trim_leading_slashes("a/"), "a/");
    assert_eq!(trim_leading_slashes("/é"), "é");
}

#[test]
fn characters_of_a_string() {
    assert_eq!(chars_of("aé/"), vec!['a', 'é', '/']);
    assert_eq!(chars_of(""), Vec::<char>::new());
    assert!(same_chars(&vec!['a', 'b'], &vec!['a', 'b']));
    assert!(!same_chars(&vec!['a', 'b'], &vec!['a', 'c']));
    assert!(!same_chars(&vec!['a', 'b'], &vec!['a']));
    assert!(str_eq("Info", "Info"));
    assert!(!str_eq("Info", "Infos"));
    assert!(!str_eq("Info", "info"));
    assert!(str_eq("", ""));
}

#[test]
fn url_is_read_by_the_parser() {
    // The parser lowers the scheme and the host and drops the default port.
    let c = FirecrackerClient::new("HTTP://LocalHost:80/").unwrap();
    assert_eq!(c.base_url(), "HTTP://LocalHost:80/");
    assert_eq!(c.url("/actions").unwrap(), "http://localhost/actions");
    assert_eq!(client().url("drives/rootfs").unwrap(), "http://localhost:8080/drives/rootfs");
    assert_eq!(client().url("").unwrap(), "http://localhost:8080/");
}

#[test]
fn address_that_is_no_url() {
    let c = FirecrackerClient::new("not a url").unwrap();
    assert!(matches!(c.url("actions"), Err(FirecrackerError::UrlParseError(_))));
    assert!(matches!(c.get_version(), Err(FirecrackerError::UrlParseError(_))));
    let c = FirecrackerClient::new("").unwrap();
    assert!(matches!(c.url("actions"), Err(FirecrackerError::UrlParseError(_))));
    let c = FirecrackerClient::new("http://localhost:port").unwrap();
    assert!(matches!(c.url("actions"), Err(FirecrackerError::UrlParseError(_))));
}

#[test]
fn aggregate_keeps_every_failure_in_order() {
    let bad = |code: &'static str| Err(ValidationError { code, message: None });
    let checks = vec![
        FieldCheck { field: "a", outcome: bad("one") },
        FieldCheck { field: "b", outcome: Ok(()) },
        FieldCheck { field: "c", outcome: bad("three") },
        FieldCheck { field: "d", outcome: Ok(()) },
    ];
    let errors = aggregate(&checks).unwrap_err();
    assert_eq!(
        errors.errors,
        vec![
            FieldError { field: "a", error: ValidationError { code: "one", message: None } },
            FieldError { field: "c", error: ValidationError { code: "three", message: None } },
        ]
    );
    assert!(!errors.is_empty());
    assert!(aggregate(&vec![]).is_ok());
    assert!(aggregate(&vec![FieldCheck { field: "b", outcome: Ok(()) }]).is_ok());
    assert_eq!(aggregate(&checks), aggregate(&checks));
}

#[test]
fn accumulator_by_hand() {
    let mut errors = ValidationErrors::new();
    assert!(errors.is_empty());
    assert_eq!(errors.len(), 0);
    errors.record(FieldCheck { field: "a", outcome: Ok(()) });
    assert!(errors.is_empty());
    let error = ValidationError { code: "length", message: None };
    errors.record(FieldCheck { field: "b", outcome: Err(error) });
    errors.add("c", error);
    assert_eq!(errors.len(), 2);
    assert_eq!(errors.errors[0], FieldError { field: "b", error });
    assert_eq!(errors.errors[1], FieldError { field: "c", error });
    assert_eq!(errors.clone().into_result(), Err(errors));
    assert_eq!(ValidationErrors::new().into_result(), Ok(()));
}

#[test]
fn path_errors_as_field_errors() {
    let error = path_validation_error("Path does not exist");
    assert_eq!(error, ValidationError { code: "invalid_path", message: Some("Path does not exist") });
    assert_eq!(field_outcome(Ok(())), Ok(()));
    assert_eq!(field_outcome(Err(PathError::PathNotFound)), Err(error));
    assert!(validate_path(Ok(())).is_ok());
    let errors = validation_errors(validate_path(Err(PathError::NotAbsolute)).unwrap_err());
    assert_eq!(
        errors.errors,
        vec![FieldError { field: "path", error: path_validation_error("Path must be absolute") }]
    );
}
