//! The descriptors of the resources of a microVM.
//!
//! A descriptor is a plain value. Those with constrained fields state the
//! constraint as `valid` and check it with `validate`, which reports every
//! rejected field at once and never changes the descriptor.

use vstd::prelude::*;
use crate::fields::{
    guest_cid_outcome,
    is_guest_cid,
    is_mac_address,
    is_partition_uuid,
    mac_address_outcome,
    non_negative_outcome,
    not_empty_outcome,
    partition_uuid_outcome,
    validate_guest_cid,
    validate_mac_address,
    validate_non_negative,
    validate_not_empty,
    validate_partition_uuid,
};
use crate::report::{
    aggregate,
    failures,
    lemma_failures_of_three,
    lemma_failures_of_two,
    lemma_failures_push,
    FieldCheck,
    FieldError,
    ValidationError,
    ValidationErrors,
};
use crate::validation::{
    existing_path_verdict,
    field_outcome,
    is_unix_path,
    path_outcome,
    unix_path_verdict,
    validate_existing_path,
    validate_unix_path,
    PathStatus,
};

use crate::wire::{
    bool_of,
    field,
    i64_of,
    optional_field,
    text_list,
    text_of,
    texts_of,
    u32_of,
    Wire,
    WireObject,
    WireValue,
};

pub use crate::logger::Logger;

verus! {

/// A memory balloon: a device that takes memory back from the guest.
#[derive(Clone, Debug, PartialEq)]
pub struct Balloon {
    /// Target size of the balloon, in MiB.
    pub amount_mib: u32,
    /// Whether the balloon deflates when the guest runs out of memory.
    pub deflate_on_oom: Option<bool>,
    /// Seconds between two refreshes of the statistics; 0 switches them
    /// off.
    pub stats_polling_interval_s: Option<u32>,
}

/// The memory statistics that a balloon reports.
#[derive(Clone, Debug, PartialEq)]
pub struct BalloonStats {
    /// Memory that the device holds, in MiB.
    pub actual_mib: u32,
    /// Pages that the device holds.
    pub actual_pages: u32,
    /// Bytes available to new applications without swapping.
    pub available_memory: Option<i64>,
    /// Bytes that can be reclaimed quickly, such as file caches.
    pub disk_caches: Option<i64>,
    /// Bytes that are not used at all.
    pub free_memory: Option<i64>,
    /// Successful hugetlb page allocations in the guest.
    pub hugetlb_allocations: Option<i64>,
    /// Failed hugetlb page allocations in the guest.
    pub hugetlb_failures: Option<i64>,
    /// Major page faults.
    pub major_faults: Option<i64>,
    /// Minor page faults.
    pub minor_faults: Option<i64>,
    /// Bytes swapped in.
    pub swap_in: Option<i64>,
    /// Bytes swapped out.
    pub swap_out: Option<i64>,
    /// Memory that the device aims to hold, in MiB.
    pub target_mib: u32,
    /// Pages that the device aims to hold.
    pub target_pages: u32,
    /// Bytes of memory in total.
    pub total_memory: Option<i64>,
}

/// A new polling interval for the statistics of a balloon.
#[derive(Clone, Debug, PartialEq)]
pub struct BalloonStatsUpdate {
    /// Seconds between two refreshes of the statistics.
    pub stats_polling_interval_s: u32,
}

/// What a microVM boots from.
#[derive(Clone, Debug, Default, PartialEq)]
pub struct BootSource {
    /// Arguments for the kernel.
    pub boot_args: Option<String>,
    /// Path of the initrd image on the host; the file must exist.
    pub initrd_path: Option<String>,
    /// Path of the kernel image on the host; the file must exist.
    pub kernel_image_path: String,
}

/// Changes to the CPU features that the guest sees.
#[derive(Clone, Debug, Default, PartialEq)]
pub struct CpuConfig {
    /// CPUID entries to change (x86_64).
    pub cpuid_modifiers: Option<serde_json::Value>,
    /// KVM capabilities to change (aarch64).
    pub kvm_capabilities: Option<serde_json::Value>,
    /// Model specific registers to change (x86_64).
    pub msr_modifiers: Option<serde_json::Value>,
    /// Registers to change (aarch64).
    pub reg_modifiers: Option<serde_json::Value>,
    /// vCPU features to change (aarch64).
    pub vcpu_features: Option<serde_json::Value>,
}

/// A predefined set of CPU features.
#[derive(Clone, Copy, Debug, PartialEq, Eq)]
pub enum CpuTemplate {
    C3,
    /// No template: the guest sees the CPU of the host. On the wire this
    /// is `None`.
    NoTemplate,
    T2,
    T2A,
    T2CL,
    T2S,
    V1N1,
}

/// A block device of the guest, backed by a file or a device of the host.
#[derive(Clone, Debug, Default, PartialEq)]
pub struct Drive {
    /// Caching strategy.
    pub cache_type: Option<String>,
    /// Identifier of the drive.
    pub drive_id: String,
    /// Kind of I/O engine.
    pub io_engine: Option<String>,
    /// Whether the guest may only read.
    pub is_read_only: bool,
    /// Whether the guest boots from this drive.
    pub is_root_device: bool,
    /// UUID of the boot partition; a canonical UUID where it is set.
    pub partuuid: Option<String>,
    /// Path of the backing file on the host; the file must exist.
    pub path_on_host: String,
    /// Limits on bandwidth and operations.
    pub rate_limiter: Option<RateLimiter>,
    /// Path of a vhost-user socket.
    pub socket: Option<String>,
}

/// A device that gives the guest random numbers.
#[derive(Clone, Debug, Default, PartialEq)]
pub struct EntropyDevice {
    /// Limits on bandwidth and operations.
    pub rate_limiter: Option<RateLimiter>,
}

/// The fault that the service reports in the body of a refusal.
#[derive(Clone, Debug, PartialEq)]
pub struct Error {
    /// What went wrong.
    pub fault_message: String,
}

/// The version of the service.
#[derive(Clone, Debug, PartialEq)]
pub struct FirecrackerVersion {
    /// Version of the Firecracker process.
    pub firecracker_version: String,
}

/// What a Firecracker process says of itself.
#[derive(Clone, Debug, PartialEq)]
pub struct InstanceInfo {
    /// Name of the application.
    pub app_name: String,
    /// Identifier of the instance.
    pub id: String,
    /// State of the instance.
    pub state: String,
    /// Version of the monitor.
    pub vmm_version: String,
}

/// CPU and memory of a microVM.
#[derive(Clone, Debug, Default, PartialEq)]
pub struct MachineConfig {
    /// Template for the CPU features of the guest.
    pub cpu_template: Option<CpuTemplate>,
    /// Huge pages configuration.
    pub huge_pages: Option<String>,
    /// Memory in MiB.
    pub mem_size_mib: Option<u32>,
    /// Whether simultaneous multi-threading is on.
    pub smt: Option<bool>,
    /// Whether dirty pages are tracked.
    pub track_dirty_pages: Option<bool>,
    /// Number of vCPUs.
    pub vcpu_count: Option<u32>,
}

/// Where the metrics go.
#[derive(Clone, Debug, Default, PartialEq)]
pub struct Metrics {
    /// Path of the file that receives the metrics.
    pub metrics_path: String,
}

/// Configuration of the metadata service of a microVM.
#[derive(Clone, Debug, Default, PartialEq)]
pub struct MmdsConfig {
    /// IPv4 address of the service.
    pub ipv4_address: Option<String>,
    /// Interfaces through which the guest reaches the service.
    pub network_interfaces: Vec<String>,
    /// Version of the service.
    pub version: Option<String>,
}

/// A network interface of the guest.
#[derive(Clone, Debug, Default, PartialEq)]
pub struct NetworkInterface {
    /// MAC address of the interface in the guest; a MAC address where it
    /// is set.
    pub guest_mac: Option<String>,
    /// Path of the device on the host; a well-formed absolute path.
    pub host_dev_name: String,
    /// Identifier of the interface; not empty.
    pub iface_id: String,
    /// Limits on received traffic.
    pub rx_rate_limiter: Option<RateLimiter>,
    /// Limits on transmitted traffic.
    pub tx_rate_limiter: Option<RateLimiter>,
}

/// Limits on the bandwidth and on the number of operations of a device.
#[derive(Clone, Debug, Default, PartialEq)]
pub struct RateLimiter {
    /// Limit on bytes.
    pub bandwidth: Option<TokenBucket>,
    /// Limit on operations.
    pub ops: Option<TokenBucket>,
}

/// A token bucket: a sustained rate with room for a burst.
#[derive(Clone, Copy, Debug, Default, PartialEq, Eq)]
pub struct TokenBucket {
    /// Tokens for one initial burst.
    pub one_time_burst: Option<i64>,
    /// Milliseconds in which the bucket fills up; not negative.
    pub refill_time: i64,
    /// Tokens that the bucket holds; not negative.
    pub size: i64,
}

/// The state of a microVM.
#[derive(Clone, Debug, PartialEq)]
pub struct Vm {
    /// State of the microVM.
    pub state: String,
}

/// A vsock device: a channel between host and guest.
#[derive(Clone, Debug, PartialEq)]
pub struct Vsock {
    /// Context identifier of the guest: at least 3, and within 32 bits.
    pub guest_cid: u64,
    /// Path of the Unix socket on the host; a well-formed absolute path.
    pub uds_path: String,
    /// Identifier of the device.
    pub vsock_id: Option<String>,
}

/// The configuration of a microVM as a whole.
#[derive(Clone, Debug, Default, PartialEq)]
pub struct VmConfig {
    /// The balloon.
    pub balloon: Option<Balloon>,
    /// What the microVM boots from.
    pub boot_source: Option<BootSource>,
    /// The drives.
    pub drives: Vec<Drive>,
    /// CPU and memory.
    pub machine_config: Option<MachineConfig>,
    /// The network interfaces.
    pub network_interfaces: Vec<NetworkInterface>,
}

/// The name of a CPU template on the wire.
pub open spec fn cpu_template_name(template: CpuTemplate) -> &'static str {
    match template {
        CpuTemplate::C3 => "C3",
        CpuTemplate::NoTemplate => "None",
        CpuTemplate::T2 => "T2",
        CpuTemplate::T2A => "T2A",
        CpuTemplate::T2CL => "T2CL",
        CpuTemplate::T2S => "T2S",
        CpuTemplate::V1N1 => "V1N1",
    }
}

/// An optional CPU template as an optional wire value.
pub open spec fn cpu_template_wire(value: Option<CpuTemplate>) -> Option<Wire> {
    match value {
        None => None,
        Some(template) => Some(Wire::Text(cpu_template_name(template)@)),
    }
}

/// An optional token bucket as an optional wire value.
pub open spec fn token_bucket_wire(value: Option<TokenBucket>) -> Option<Wire> {
    match value {
        None => None,
        Some(bucket) => Some(bucket.wire()),
    }
}

/// An optional rate limiter as an optional wire value.
pub open spec fn rate_limiter_wire(value: Option<RateLimiter>) -> Option<Wire> {
    match value {
        None => None,
        Some(limiter) => Some(limiter.wire()),
    }
}

impl CpuTemplate {
    /// The name of the template on the wire.
    pub fn name(&self) -> (name: &'static str)
        ensures
            name == cpu_template_name(*self),
    {
        match self {
            CpuTemplate::C3 => "C3",
            CpuTemplate::NoTemplate => "None",
            CpuTemplate::T2 => "T2",
            CpuTemplate::T2A => "T2A",
            CpuTemplate::T2CL => "T2CL",
            CpuTemplate::T2S => "T2S",
            CpuTemplate::V1N1 => "V1N1",
        }
    }
}

impl TokenBucket {
    /// The fields of a token bucket as they go over the wire: in the order of
    /// the declaration, an absent field left out.
    pub open spec fn wire_fields(&self) -> Seq<(&'static str, Wire)> {
        optional_field("one_time_burst", i64_of(self.one_time_burst))
            + field("refill_time", Wire::Number(self.refill_time as int))
            + field("size", Wire::Number(self.size as int))
    }

    /// A token bucket as it goes over the wire.
    pub open spec fn wire(&self) -> Wire {
        Wire::Object(self.wire_fields())
    }

    /// The body that describes a token bucket.
    pub fn to_wire(&self) -> (value: WireValue)
        ensures
            value.model() == self.wire(),
    {
        let mut object = WireObject::new();
        object.put_optional_i64("one_time_burst", self.one_time_burst);
        object.put_signed("refill_time", self.refill_time);
        object.put_signed("size", self.size);
        assert(object.entries() =~= self.wire_fields());
        object.finish()
    }
}

impl RateLimiter {
    /// The fields of a rate limiter as they go over the wire: in the order of
    /// the declaration, an absent field left out.
    pub open spec fn wire_fields(&self) -> Seq<(&'static str, Wire)> {
        optional_field("bandwidth", token_bucket_wire(self.bandwidth))
            + optional_field("ops", token_bucket_wire(self.ops))
    }

    /// A rate limiter as it goes over the wire.
    pub open spec fn wire(&self) -> Wire {
        Wire::Object(self.wire_fields())
    }

    /// The body that describes a rate limiter.
    pub fn to_wire(&self) -> (value: WireValue)
        ensures
            value.model() == self.wire(),
    {
        let mut object = WireObject::new();
        object.put_optional(
            "bandwidth",
            match &self.bandwidth {
                None => None,
                Some(bucket) => Some(bucket.to_wire()),
            },
        );
        object.put_optional(
            "ops",
            match &self.ops {
                None => None,
                Some(bucket) => Some(bucket.to_wire()),
            },
        );
        assert(object.entries() =~= self.wire_fields());
        object.finish()
    }
}

impl Balloon {
    /// The fields of a balloon as they go over the wire: in the order of
    /// the declaration, an absent field left out.
    pub open spec fn wire_fields(&self) -> Seq<(&'static str, Wire)> {
        field("amount_mib", Wire::Number(self.amount_mib as int))
            + optional_field("deflate_on_oom", bool_of(self.deflate_on_oom))
            + optional_field("stats_polling_interval_s", u32_of(self.stats_polling_interval_s))
    }

    /// A balloon as it goes over the wire.
    pub open spec fn wire(&self) -> Wire {
        Wire::Object(self.wire_fields())
    }

    /// The body that describes a balloon.
    pub fn to_wire(&self) -> (value: WireValue)
        ensures
            value.model() == self.wire(),
    {
        let mut object = WireObject::new();
        object.put_unsigned("amount_mib", self.amount_mib as u64);
        object.put_optional_bool("deflate_on_oom", self.deflate_on_oom);
        object.put_optional_u32("stats_polling_interval_s", self.stats_polling_interval_s);
        assert(object.entries() =~= self.wire_fields());
        object.finish()
    }
}

impl BalloonStatsUpdate {
    /// The fields of a polling interval as they go over the wire: in the order of
    /// the declaration, an absent field left out.
    pub open spec fn wire_fields(&self) -> Seq<(&'static str, Wire)> {
        field("stats_polling_interval_s", Wire::Number(self.stats_polling_interval_s as int))
    }

    /// A polling interval as it goes over the wire.
    pub open spec fn wire(&self) -> Wire {
        Wire::Object(self.wire_fields())
    }

    /// The body that describes a polling interval.
    pub fn to_wire(&self) -> (value: WireValue)
        ensures
            value.model() == self.wire(),
    {
        let mut object = WireObject::new();
        object.put_unsigned("stats_polling_interval_s", self.stats_polling_interval_s as u64);
        assert(object.entries() =~= self.wire_fields());
        object.finish()
    }
}

impl BootSource {
    /// The fields of a boot source as they go over the wire: in the order of
    /// the declaration, an absent field left out.
    pub open spec fn wire_fields(&self) -> Seq<(&'static str, Wire)> {
        optional_field("boot_args", text_of(self.boot_args))
            + optional_field("initrd_path", text_of(self.initrd_path))
            + field("kernel_image_path", Wire::Text(self.kernel_image_path@))
    }

    /// A boot source as it goes over the wire.
    pub open spec fn wire(&self) -> Wire {
        Wire::Object(self.wire_fields())
    }

    /// The body that describes a boot source.
    pub fn to_wire(&self) -> (value: WireValue)
        ensures
            value.model() == self.wire(),
    {
        let mut object = WireObject::new();
        object.put_optional_text("boot_args", &self.boot_args);
        object.put_optional_text("initrd_path", &self.initrd_path);
        object.put_text("kernel_image_path", self.kernel_image_path.as_str());
        assert(object.entries() =~= self.wire_fields());
        object.finish()
    }
}

impl Drive {
    /// The fields of a drive as they go over the wire: in the order of
    /// the declaration, an absent field left out.
    pub open spec fn wire_fields(&self) -> Seq<(&'static str, Wire)> {
        optional_field("cache_type", text_of(self.cache_type))
            + field("drive_id", Wire::Text(self.drive_id@))
            + optional_field("io_engine", text_of(self.io_engine))
            + field("is_read_only", Wire::Bool(self.is_read_only))
            + field("is_root_device", Wire::Bool(self.is_root_device))
            + optional_field("partuuid", text_of(self.partuuid))
            + field("path_on_host", Wire::Text(self.path_on_host@))
            + optional_field("rate_limiter", rate_limiter_wire(self.rate_limiter))
            + optional_field("socket", text_of(self.socket))
    }

    /// A drive as it goes over the wire.
    pub open spec fn wire(&self) -> Wire {
        Wire::Object(self.wire_fields())
    }

    /// The body that describes a drive.
    pub fn to_wire(&self) -> (value: WireValue)
        ensures
            value.model() == self.wire(),
    {
        let mut object = WireObject::new();
        object.put_optional_text("cache_type", &self.cache_type);
        object.put_text("drive_id", self.drive_id.as_str());
        object.put_optional_text("io_engine", &self.io_engine);
        object.put_bool("is_read_only", self.is_read_only);
        object.put_bool("is_root_device", self.is_root_device);
        object.put_optional_text("partuuid", &self.partuuid);
        object.put_text("path_on_host", self.path_on_host.as_str());
        object.put_optional(
            "rate_limiter",
            match &self.rate_limiter {
                None => None,
                Some(limiter) => Some(limiter.to_wire()),
            },
        );
        object.put_optional_text("socket", &self.socket);
        assert(object.entries() =~= self.wire_fields());
        object.finish()
    }
}

impl EntropyDevice {
    /// The fields of an entropy device as they go over the wire: in the order of
    /// the declaration, an absent field left out.
    pub open spec fn wire_fields(&self) -> Seq<(&'static str, Wire)> {
        optional_field("rate_limiter", rate_limiter_wire(self.rate_limiter))
    }

    /// An entropy device as it goes over the wire.
    pub open spec fn wire(&self) -> Wire {
        Wire::Object(self.wire_fields())
    }

    /// The body that describes an entropy device.
    pub fn to_wire(&self) -> (value: WireValue)
        ensures
            value.model() == self.wire(),
    {
        let mut object = WireObject::new();
        object.put_optional(
            "rate_limiter",
            match &self.rate_limiter {
                None => None,
                Some(limiter) => Some(limiter.to_wire()),
            },
        );
        assert(object.entries() =~= self.wire_fields());
        object.finish()
    }
}

impl MachineConfig {
    /// The fields of a machine configuration as they go over the wire: in the order of
    /// the declaration, an absent field left out.
    pub open spec fn wire_fields(&self) -> Seq<(&'static str, Wire)> {
        optional_field("cpu_template", cpu_template_wire(self.cpu_template))
            + optional_field("huge_pages", text_of(self.huge_pages))
            + optional_field("mem_size_mib", u32_of(self.mem_size_mib))
            + optional_field("smt", bool_of(self.smt))
            + optional_field("track_dirty_pages", bool_of(self.track_dirty_pages))
            + optional_field("vcpu_count", u32_of(self.vcpu_count))
    }

    /// A machine configuration as it goes over the wire.
    pub open spec fn wire(&self) -> Wire {
        Wire::Object(self.wire_fields())
    }

    /// The body that describes a machine configuration.
    pub fn to_wire(&self) -> (value: WireValue)
        ensures
            value.model() == self.wire(),
    {
        let mut object = WireObject::new();
        object.put_optional(
            "cpu_template",
            match &self.cpu_template {
                None => None,
                Some(template) => Some(WireValue::Text(template.name().to_owned())),
            },
        );
        object.put_optional_text("huge_pages", &self.huge_pages);
        object.put_optional_u32("mem_size_mib", self.mem_size_mib);
        object.put_optional_bool("smt", self.smt);
        object.put_optional_bool("track_dirty_pages", self.track_dirty_pages);
        object.put_optional_u32("vcpu_count", self.vcpu_count);
        assert(object.entries() =~= self.wire_fields());
        object.finish()
    }
}

impl Metrics {
    /// The fields of a metrics configuration as they go over the wire: in the order of
    /// the declaration, an absent field left out.
    pub open spec fn wire_fields(&self) -> Seq<(&'static str, Wire)> {
        field("metrics_path", Wire::Text(self.metrics_path@))
    }

    /// A metrics configuration as it goes over the wire.
    pub open spec fn wire(&self) -> Wire {
        Wire::Object(self.wire_fields())
    }

    /// The body that describes a metrics configuration.
    pub fn to_wire(&self) -> (value: WireValue)
        ensures
            value.model() == self.wire(),
    {
        let mut object = WireObject::new();
        object.put_text("metrics_path", self.metrics_path.as_str());
        assert(object.entries() =~= self.wire_fields());
        object.finish()
    }
}

impl MmdsConfig {
    /// The fields of a metadata service configuration as they go over the
    /// wire: in the order of the declaration, an absent field left out.
    pub open spec fn wire_fields(&self) -> Seq<(&'static str, Wire)> {
        optional_field("ipv4_address", text_of(self.ipv4_address))
            + field("network_interfaces", Wire::List(texts_of(self.network_interfaces@)))
            + optional_field("version", text_of(self.version))
    }

    /// A metadata service configuration as it goes over the wire.
    pub open spec fn wire(&self) -> Wire {
        Wire::Object(self.wire_fields())
    }

    /// The body that describes a metadata service configuration.
    pub fn to_wire(&self) -> (value: WireValue)
        ensures
            value.model() == self.wire(),
    {
        let mut object = WireObject::new();
        object.put_optional_text("ipv4_address", &self.ipv4_address);
        object.put("network_interfaces", text_list(&self.network_interfaces));
        object.put_optional_text("version", &self.version);
        assert(object.entries() =~= self.wire_fields());
        object.finish()
    }
}

impl NetworkInterface {
    /// The fields of a network interface as they go over the wire: in the order of
    /// the declaration, an absent field left out.
    pub open spec fn wire_fields(&self) -> Seq<(&'static str, Wire)> {
        optional_field("guest_mac", text_of(self.guest_mac))
            + field("host_dev_name", Wire::Text(self.host_dev_name@))
            + field("iface_id", Wire::Text(self.iface_id@))
            + optional_field("rx_rate_limiter", rate_limiter_wire(self.rx_rate_limiter))
            + optional_field("tx_rate_limiter", rate_limiter_wire(self.tx_rate_limiter))
    }

    /// A network interface as it goes over the wire.
    pub open spec fn wire(&self) -> Wire {
        Wire::Object(self.wire_fields())
    }

    /// The body that describes a network interface.
    pub fn to_wire(&self) -> (value: WireValue)
        ensures
            value.model() == self.wire(),
    {
        let mut object = WireObject::new();
        object.put_optional_text("guest_mac", &self.guest_mac);
        object.put_text("host_dev_name", self.host_dev_name.as_str());
        object.put_text("iface_id", self.iface_id.as_str());
        object.put_optional(
            "rx_rate_limiter",
            match &self.rx_rate_limiter {
                None => None,
                Some(limiter) => Some(limiter.to_wire()),
            },
        );
        object.put_optional(
            "tx_rate_limiter",
            match &self.tx_rate_limiter {
                None => None,
                Some(limiter) => Some(limiter.to_wire()),
            },
        );
        assert(object.entries() =~= self.wire_fields());
        object.finish()
    }
}

impl Vsock {
    /// The fields of a vsock device as they go over the wire: in the order of
    /// the declaration, an absent field left out.
    pub open spec fn wire_fields(&self) -> Seq<(&'static str, Wire)> {
        field("guest_cid", Wire::Number(self.guest_cid as int))
            + field("uds_path", Wire::Text(self.uds_path@))
            + optional_field("vsock_id", text_of(self.vsock_id))
    }

    /// A vsock device as it goes over the wire.
    pub open spec fn wire(&self) -> Wire {
        Wire::Object(self.wire_fields())
    }

    /// The body that describes a vsock device.
    pub fn to_wire(&self) -> (value: WireValue)
        ensures
            value.model() == self.wire(),
    {
        let mut object = WireObject::new();
        object.put_unsigned("guest_cid", self.guest_cid);
        object.put_text("uds_path", self.uds_path.as_str());
        object.put_optional_text("vsock_id", &self.vsock_id);
        assert(object.entries() =~= self.wire_fields());
        object.finish()
    }
}

/// The outcome for a path that must exist where it is set.
pub open spec fn optional_existing_path_outcome(value: Option<String>, status: PathStatus) -> Result<
    (),
    ValidationError,
> {
    match value {
        None => Ok(()),
        Some(path) => path_outcome(existing_path_verdict(path@, status)),
    }
}

impl BootSource {
    /// The checks of a boot source, in the order of its fields.
    /// `initrd_path` and `kernel_image_path` are what the file system
    /// told of the two paths; the first counts only where an initrd is
    /// set.
    pub open spec fn checks(
        &self,
        initrd_path: PathStatus,
        kernel_image_path: PathStatus,
    ) -> Seq<FieldCheck> {
        seq![
            FieldCheck {
                field: "initrd_path",
                outcome: optional_existing_path_outcome(self.initrd_path, initrd_path),
            },
            FieldCheck {
                field: "kernel_image_path",
                outcome: path_outcome(
                    existing_path_verdict(self.kernel_image_path@, kernel_image_path),
                ),
            },
        ]
    }

    /// The rejected fields of a boot source, in the order of its fields.
    pub open spec fn violations(
        &self,
        initrd_path: PathStatus,
        kernel_image_path: PathStatus,
    ) -> Seq<FieldError> {
        failures(self.checks(initrd_path, kernel_image_path))
    }

    /// Whether the boot source may be sent: the kernel image exists at a
    /// well-formed path, and so does the initrd where one is set.
    pub open spec fn valid(&self, initrd_path: PathStatus, kernel_image_path: PathStatus) -> bool {
        &&& self.initrd_path matches Some(path) ==> is_unix_path(path@) && initrd_path.present()
        &&& is_unix_path(self.kernel_image_path@)
        &&& kernel_image_path.present()
    }

    /// A boot source is valid exactly when no field of it is rejected.
    pub proof fn lemma_valid_iff_no_violation(
        &self,
        initrd_path: PathStatus,
        kernel_image_path: PathStatus,
    )
        ensures
            self.valid(initrd_path, kernel_image_path) <==> self.violations(
                initrd_path,
                kernel_image_path,
            ).len() == 0,
    {
        let checks = self.checks(initrd_path, kernel_image_path);
        lemma_failures_of_two(checks[0], checks[1]);
        assert(checks =~= seq![checks[0], checks[1]]);
    }

    /// Checks every constrained field and reports all that fail.
    pub fn validate(&self, initrd_path: PathStatus, kernel_image_path: PathStatus) -> (r: Result<
        (),
        ValidationErrors,
    >)
        ensures
            r is Ok <==> self.valid(initrd_path, kernel_image_path),
            r is Ok <==> self.violations(initrd_path, kernel_image_path).len() == 0,
            r matches Err(errors) ==> errors@ == self.violations(initrd_path, kernel_image_path),
    {
        let initrd = match &self.initrd_path {
            None => Ok(()),
            Some(path) => field_outcome(validate_existing_path(path.as_str(), initrd_path)),
        };
        let kernel = field_outcome(
            validate_existing_path(self.kernel_image_path.as_str(), kernel_image_path),
        );
        let checks = vec![
            FieldCheck { field: "initrd_path", outcome: initrd },
            FieldCheck { field: "kernel_image_path", outcome: kernel },
        ];
        proof {
            assert(checks@ =~= self.checks(initrd_path, kernel_image_path));
            self.lemma_valid_iff_no_violation(initrd_path, kernel_image_path);
        }
        aggregate(&checks)
    }
}

impl Drive {
    /// The checks of a drive, in the order of its fields. `path_on_host`
    /// is what the file system told of the backing file.
    pub open spec fn checks(&self, path_on_host: PathStatus) -> Seq<FieldCheck> {
        seq![
            FieldCheck { field: "partuuid", outcome: partition_uuid_outcome(self.partuuid) },
            FieldCheck {
                field: "path_on_host",
                outcome: path_outcome(existing_path_verdict(self.path_on_host@, path_on_host)),
            },
        ]
    }

    /// The rejected fields of a drive, in the order of its fields.
    pub open spec fn violations(&self, path_on_host: PathStatus) -> Seq<FieldError> {
        failures(self.checks(path_on_host))
    }

    /// Whether the drive may be sent: the backing file exists at a
    /// well-formed path, and the partition UUID, where one is set, is a
    /// canonical UUID.
    pub open spec fn valid(&self, path_on_host: PathStatus) -> bool {
        &&& self.partuuid matches Some(uuid) ==> is_partition_uuid(uuid@)
        &&& is_unix_path(self.path_on_host@)
        &&& path_on_host.present()
    }

    /// A drive is valid exactly when no field of it is rejected.
    pub proof fn lemma_valid_iff_no_violation(&self, path_on_host: PathStatus)
        ensures
            self.valid(path_on_host) <==> self.violations(path_on_host).len() == 0,
    {
        let checks = self.checks(path_on_host);
        lemma_failures_of_two(checks[0], checks[1]);
        assert(checks =~= seq![checks[0], checks[1]]);
    }

    /// Checks every constrained field and reports all that fail.
    pub fn validate(&self, path_on_host: PathStatus) -> (r: Result<(), ValidationErrors>)
        ensures
            r is Ok <==> self.valid(path_on_host),
            r is Ok <==> self.violations(path_on_host).len() == 0,
            r matches Err(errors) ==> errors@ == self.violations(path_on_host),
    {
        let checks = vec![
            FieldCheck { field: "partuuid", outcome: validate_partition_uuid(&self.partuuid) },
            FieldCheck {
                field: "path_on_host",
                outcome: field_outcome(
                    validate_existing_path(self.path_on_host.as_str(), path_on_host),
                ),
            },
        ];
        proof {
            assert(checks@ =~= self.checks(path_on_host));
            self.lemma_valid_iff_no_violation(path_on_host);
        }
        aggregate(&checks)
    }
}

impl NetworkInterface {
    /// The checks of a network interface, in the order of its fields.
    pub open spec fn checks(&self) -> Seq<FieldCheck> {
        seq![
            FieldCheck { field: "guest_mac", outcome: mac_address_outcome(self.guest_mac) },
            FieldCheck {
                field: "host_dev_name",
                outcome: path_outcome(unix_path_verdict(self.host_dev_name@)),
            },
            FieldCheck { field: "iface_id", outcome: not_empty_outcome(self.iface_id@) },
        ]
    }

    /// The rejected fields of a network interface, in the order of its
    /// fields.
    pub open spec fn violations(&self) -> Seq<FieldError> {
        failures(self.checks())
    }

    /// Whether the interface may be sent: its identifier is not empty, the
    /// device on the host is named by a well-formed absolute path, and the
    /// MAC address, where one is set, is a MAC address.
    pub open spec fn valid(&self) -> bool {
        &&& self.guest_mac matches Some(mac) ==> is_mac_address(mac@)
        &&& is_unix_path(self.host_dev_name@)
        &&& self.iface_id@.len() >= 1
    }

    /// A network interface is valid exactly when no field of it is
    /// rejected.
    pub proof fn lemma_valid_iff_no_violation(&self)
        ensures
            self.valid() <==> self.violations().len() == 0,
    {
        let checks = self.checks();
        lemma_failures_of_three(checks[0], checks[1], checks[2]);
        assert(checks =~= seq![checks[0], checks[1], checks[2]]);
    }

    /// Checks every constrained field and reports all that fail.
    pub fn validate(&self) -> (r: Result<(), ValidationErrors>)
        ensures
            r is Ok <==> self.valid(),
            r is Ok <==> self.violations().len() == 0,
            r matches Err(errors) ==> errors@ == self.violations(),
    {
        let checks = vec![
            FieldCheck { field: "guest_mac", outcome: validate_mac_address(&self.guest_mac) },
            FieldCheck {
                field: "host_dev_name",
                outcome: field_outcome(validate_unix_path(self.host_dev_name.as_str())),
            },
            FieldCheck { field: "iface_id", outcome: validate_not_empty(self.iface_id.as_str()) },
        ];
        proof {
            assert(checks@ =~= self.checks());
            self.lemma_valid_iff_no_violation();
        }
        aggregate(&checks)
    }
}

impl Vsock {
    /// The checks of a vsock device, in the order of its fields.
    pub open spec fn checks(&self) -> Seq<FieldCheck> {
        seq![
            FieldCheck { field: "guest_cid", outcome: guest_cid_outcome(self.guest_cid) },
            FieldCheck {
                field: "uds_path",
                outcome: path_outcome(unix_path_verdict(self.uds_path@)),
            },
        ]
    }

    /// The rejected fields of a vsock device, in the order of its fields.
    pub open spec fn violations(&self) -> Seq<FieldError> {
        failures(self.checks())
    }

    /// Whether the device may be sent: the context identifier is none
    /// of the reserved ones and has 32 bits, and the socket is named by a
    /// well-formed absolute path.
    pub open spec fn valid(&self) -> bool {
        &&& is_guest_cid(self.guest_cid)
        &&& is_unix_path(self.uds_path@)
    }

    /// A vsock device is valid exactly when no field of it is rejected.
    pub proof fn lemma_valid_iff_no_violation(&self)
        ensures
            self.valid() <==> self.violations().len() == 0,
    {
        let checks = self.checks();
        lemma_failures_of_two(checks[0], checks[1]);
        assert(checks =~= seq![checks[0], checks[1]]);
    }

    /// Checks every constrained field and reports all that fail.
    pub fn validate(&self) -> (r: Result<(), ValidationErrors>)
        ensures
            r is Ok <==> self.valid(),
            r is Ok <==> self.violations().len() == 0,
            r matches Err(errors) ==> errors@ == self.violations(),
    {
        let checks = vec![
            FieldCheck { field: "guest_cid", outcome: validate_guest_cid(self.guest_cid) },
            FieldCheck {
                field: "uds_path",
                outcome: field_outcome(validate_unix_path(self.uds_path.as_str())),
            },
        ];
        proof {
            assert(checks@ =~= self.checks());
            self.lemma_valid_iff_no_violation();
        }
        aggregate(&checks)
    }
}

impl TokenBucket {
    /// The checks of a token bucket, in the order of its fields.
    pub open spec fn checks(&self) -> Seq<FieldCheck> {
        seq![
            FieldCheck { field: "refill_time", outcome: non_negative_outcome(self.refill_time) },
            FieldCheck { field: "size", outcome: non_negative_outcome(self.size) },
        ]
    }

    /// The rejected fields of a token bucket, in the order of its fields.
    pub open spec fn violations(&self) -> Seq<FieldError> {
        failures(self.checks())
    }

    /// Whether the bucket is well formed: neither its size nor its refill
    /// time is negative.
    pub open spec fn valid(&self) -> bool {
        &&& self.refill_time >= 0
        &&& self.size >= 0
    }

    /// A token bucket is valid exactly when no field of it is rejected.
    pub proof fn lemma_valid_iff_no_violation(&self)
        ensures
            self.valid() <==> self.violations().len() == 0,
    {
        let checks = self.checks();
        lemma_failures_of_two(checks[0], checks[1]);
        assert(checks =~= seq![checks[0], checks[1]]);
    }

    /// Checks every constrained field and reports all that fail.
    pub fn validate(&self) -> (r: Result<(), ValidationErrors>)
        ensures
            r is Ok <==> self.valid(),
            r is Ok <==> self.violations().len() == 0,
            r matches Err(errors) ==> errors@ == self.violations(),
    {
        let checks = vec![
            FieldCheck { field: "refill_time", outcome: validate_non_negative(self.refill_time) },
            FieldCheck { field: "size", outcome: validate_non_negative(self.size) },
        ];
        proof {
            assert(checks@ =~= self.checks());
            self.lemma_valid_iff_no_violation();
        }
        aggregate(&checks)
    }
}

/// The outcome for a number of a token bucket that may be absent: without
/// a bucket there is nothing to reject.
pub open spec fn bucket_outcome(value: Option<i64>) -> Result<(), ValidationError> {
    match value {
        None => Ok(()),
        Some(number) => non_negative_outcome(number),
    }
}

/// The refill time of a bucket that may be absent.
pub open spec fn refill_time_of(bucket: Option<TokenBucket>) -> Option<i64> {
    match bucket {
        None => None,
        Some(b) => Some(b.refill_time),
    }
}

/// The size of a bucket that may be absent.
pub open spec fn size_of(bucket: Option<TokenBucket>) -> Option<i64> {
    match bucket {
        None => None,
        Some(b) => Some(b.size),
    }
}

impl RateLimiter {
    /// The checks of a rate limiter: those of its bandwidth bucket, then
    /// those of its operations bucket.
    pub open spec fn checks(&self) -> Seq<FieldCheck> {
        seq![
            FieldCheck {
                field: "bandwidth.refill_time",
                outcome: bucket_outcome(refill_time_of(self.bandwidth)),
            },
            FieldCheck { field: "bandwidth.size", outcome: bucket_outcome(size_of(self.bandwidth)) },
            FieldCheck {
                field: "ops.refill_time",
                outcome: bucket_outcome(refill_time_of(self.ops)),
            },
            FieldCheck { field: "ops.size", outcome: bucket_outcome(size_of(self.ops)) },
        ]
    }

    /// The rejected fields of a rate limiter.
    pub open spec fn violations(&self) -> Seq<FieldError> {
        failures(self.checks())
    }

    /// Whether the rate limiter is well formed: each bucket that it has
    /// is.
    pub open spec fn valid(&self) -> bool {
        &&& self.bandwidth matches Some(bucket) ==> bucket.valid()
        &&& self.ops matches Some(bucket) ==> bucket.valid()
    }

    /// A rate limiter is valid exactly when no field of it is rejected.
    pub proof fn lemma_valid_iff_no_violation(&self)
        ensures
            self.valid() <==> self.violations().len() == 0,
    {
        let checks = self.checks();
        let first = seq![checks[0], checks[1], checks[2]];
        lemma_failures_of_three(checks[0], checks[1], checks[2]);
        lemma_failures_push(first, checks[3]);
        assert(checks =~= first.push(checks[3]));
    }

    /// Checks both buckets and reports every number that fails.
    pub fn validate(&self) -> (r: Result<(), ValidationErrors>)
        ensures
            r is Ok <==> self.valid(),
            r is Ok <==> self.violations().len() == 0,
            r matches Err(errors) ==> errors@ == self.violations(),
    {
        let (bandwidth_refill, bandwidth_size) = match &self.bandwidth {
            None => (Ok(()), Ok(())),
            Some(b) => (validate_non_negative(b.refill_time), validate_non_negative(b.size)),
        };
        let (ops_refill, ops_size) = match &self.ops {
            None => (Ok(()), Ok(())),
            Some(b) => (validate_non_negative(b.refill_time), validate_non_negative(b.size)),
        };
        let checks = vec![
            FieldCheck { field: "bandwidth.refill_time", outcome: bandwidth_refill },
            FieldCheck { field: "bandwidth.size", outcome: bandwidth_size },
            FieldCheck { field: "ops.refill_time", outcome: ops_refill },
            FieldCheck { field: "ops.size", outcome: ops_size },
        ];
        proof {
            assert(checks@ =~= self.checks());
            self.lemma_valid_iff_no_violation();
        }
        aggregate(&checks)
    }
}

} // verus!
