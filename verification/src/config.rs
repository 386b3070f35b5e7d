//! The configuration builder: assembling a complete, validated
//! virtual-machine configuration.
//!
//! The external device builders produce opaque, pre-validated configuration
//! objects; here each device configuration holds, as plain values, exactly
//! what the builder reads of it. Validation is a single pass that must
//! succeed before any virtual-machine handle is created: a failed validation
//! returns an error and never a partially valid configuration.

use vstd::prelude::*;
use vstd::pervasive::unreached;
use crate::errors::ErrorKind;
use crate::errors::ProvisioningError;
use crate::identity::VZMacPlatformConfiguration;

verus! {

/// The resource constraints of a provisioning run, supplied by the caller:
/// CPU count, memory size in bytes, guest command line, disk-image paths,
/// and display geometry.
pub struct ResourceSpec {
    pub cpu_count: usize,
    pub memory_size: usize,
    pub command_line: String,
    pub disk_paths: Vec<String>,
    pub pixel_width: i32,
    pub pixel_height: i32,
    pub pixel_per_inch: i32,
}

/// The graphics device: one display with the given geometry.
pub struct VZMacGraphicsDeviceConfiguration {
    pub pixel_width: i32,
    pub pixel_height: i32,
    pub pixel_per_inch: i32,
}

impl VZMacGraphicsDeviceConfiguration {
    pub fn new(pixel_width: i32, pixel_height: i32, pixel_per_inch: i32) -> (r:
        VZMacGraphicsDeviceConfiguration)
        ensures
            r.pixel_width == pixel_width,
            r.pixel_height == pixel_height,
            r.pixel_per_inch == pixel_per_inch,
    {
        VZMacGraphicsDeviceConfiguration { pixel_width, pixel_height, pixel_per_inch }
    }
}

/// The boot loader of the guest operating system. It carries no parameters;
/// the external framework instantiates it from the platform identity.
pub struct VZMacOSBootLoader {}

impl VZMacOSBootLoader {
    pub fn new() -> (r: VZMacOSBootLoader)
        ensures
            r == (VZMacOSBootLoader {  }),
    {
        VZMacOSBootLoader {  }
    }
}

/// The console serial port; its two file handles (guest input and output)
/// are attached by the unverified edge.
pub struct SerialPortConfiguration {}

/// The entropy device; it carries no parameters.
pub struct EntropyDeviceConfiguration {}

/// The memory-balloon device; it carries no parameters.
pub struct MemoryBalloonDeviceConfiguration {}

/// A storage device backed by one disk image.
pub struct StorageDeviceConfiguration {
    pub path: String,
    pub read_only: bool,
}

/// The network device: network address translation with a locally
/// administered MAC address.
pub struct NetworkDeviceConfiguration {
    pub nat: bool,
    pub mac_address: Vec<u8>,
}

/// A MAC first byte made locally administered: the locally-administered bit
/// set, the multicast bit cleared.
pub open spec fn spec_locally_administered(b: u8) -> u8 {
    (b | 0x02) & 0xfe
}

/// Law: a locally administered first byte has the locally-administered bit
/// set and the multicast bit cleared, whatever entropy it was made from.
pub proof fn lemma_locally_administered_bits(b: u8)
    ensures
        spec_locally_administered(b) & 0x02 == 0x02,
        spec_locally_administered(b) & 0x01 == 0x00,
{
    assert(((b | 0x02) & 0xfe) & 0x02 == 0x02) by (bit_vector);
    assert(((b | 0x02) & 0xfe) & 0x01 == 0x00) by (bit_vector);
}

impl NetworkDeviceConfiguration {
    /// A NAT-attached network device with a random locally administered MAC
    /// address; the six bytes of entropy are the unverified edge's draw.
    pub fn new(mac_entropy: &Vec<u8>) -> (r: NetworkDeviceConfiguration)
        requires
            mac_entropy@.len() == 6,
        ensures
            r.nat,
            r.mac_address@.len() == 6,
            r.mac_address@[0] == spec_locally_administered(mac_entropy@[0]),
            r.mac_address@[0] & 0x02 == 0x02,
            r.mac_address@[0] & 0x01 == 0x00,
            forall|i: int| 1 <= i < 6 ==> r.mac_address@[i] == mac_entropy@[i],
    {
        proof {
            lemma_locally_administered_bits(mac_entropy@[0]);
        }
        let mut mac_address: Vec<u8> = Vec::new();
        mac_address.push((mac_entropy[0] | 0x02) & 0xfe);
        mac_address.push(mac_entropy[1]);
        mac_address.push(mac_entropy[2]);
        mac_address.push(mac_entropy[3]);
        mac_address.push(mac_entropy[4]);
        mac_address.push(mac_entropy[5]);
        NetworkDeviceConfiguration { nat: true, mac_address }
    }
}

/// The fully assembled, validated configuration: the devices, the platform
/// identity, and the validated resource constraints. Immutable once built;
/// only `build` constructs one.
pub struct VMConfiguration {
    pub cpu_count: usize,
    pub memory_size: usize,
    pub boot_loader: VZMacOSBootLoader,
    pub graphics: VZMacGraphicsDeviceConfiguration,
    pub network: NetworkDeviceConfiguration,
    pub serial: SerialPortConfiguration,
    pub entropy: EntropyDeviceConfiguration,
    pub memory_balloon: MemoryBalloonDeviceConfiguration,
    pub storage: Vec<StorageDeviceConfiguration>,
    pub platform: VZMacPlatformConfiguration,
}

impl VMConfiguration {
    /// Well-formedness: what every configuration handed to the
    /// virtual-machine constructor satisfies. A configuration is never
    /// built from an identity that failed the supportability check.
    pub open spec fn wf(self) -> bool {
        &&& self.cpu_count >= 1
        &&& self.memory_size >= 1
        &&& self.platform.host_supported
        &&& self.network.mac_address@.len() == 6
    }
}

/// Whether a resource specification validates: non-zero CPU count, non-zero
/// memory size, and every disk path resolved to an existing file.
pub open spec fn spec_validation_ok(
    resource_spec: ResourceSpec,
    resolved_disks: Seq<Option<String>>,
) -> bool {
    &&& resource_spec.cpu_count >= 1
    &&& resource_spec.memory_size >= 1
    &&& forall|i: int| 0 <= i < resolved_disks.len() ==> resolved_disks[i] is Some
}

/// Law: a resource specification with zero CPU count or zero memory size
/// never validates, whatever its disks resolve to.
pub proof fn lemma_zero_resources_never_validate(
    resource_spec: ResourceSpec,
    resolved_disks: Seq<Option<String>>,
)
    requires
        resource_spec.cpu_count == 0 || resource_spec.memory_size == 0,
    ensures
        !spec_validation_ok(resource_spec, resolved_disks),
{
}

/// The diagnostic payload of a failed validation: the first check that
/// failed, in the builder's checking order.
pub open spec fn spec_validation_error_message(
    resource_spec: ResourceSpec,
    resolved_disks: Seq<Option<String>>,
) -> Seq<char> {
    if resource_spec.cpu_count == 0 {
        "resource specification has zero CPU count"@
    } else if resource_spec.memory_size == 0 {
        "resource specification has zero memory size"@
    } else {
        "a disk path did not resolve to an existing file"@
    }
}

/// Law: a disk path that did not resolve to an existing file fails
/// validation, whatever the rest of the specification holds.
pub proof fn lemma_unresolved_disk_never_validates(
    resource_spec: ResourceSpec,
    resolved_disks: Seq<Option<String>>,
    i: int,
)
    requires
        0 <= i < resolved_disks.len(),
        resolved_disks[i] is None,
    ensures
        !spec_validation_ok(resource_spec, resolved_disks),
{
}

/// Assemble and validate a virtual-machine configuration from the resource
/// specification, the canonical paths its disk images resolved to (`None`
/// where a path does not canonicalize to an existing file), the platform
/// identity, and six bytes of MAC-address entropy.
///
/// Returns the configuration exactly when the specification validates, and
/// `ConfigValidationError` otherwise — before any device configuration or
/// virtual-machine handle is produced. Path resolution is the unverified
/// edge's work; `resolved_disks` pairs with `resource_spec.disk_paths`.
pub fn build(
    resource_spec: &ResourceSpec,
    resolved_disks: Vec<Option<String>>,
    platform: VZMacPlatformConfiguration,
    mac_entropy: &Vec<u8>,
) -> (r: Result<VMConfiguration, ProvisioningError>)
    requires
        resolved_disks@.len() == resource_spec.disk_paths@.len(),
        mac_entropy@.len() == 6,
        platform.host_supported,
    ensures
        r is Ok <==> spec_validation_ok(*resource_spec, resolved_disks@),
        match r {
            Ok(c) => {
                &&& c.wf()
                &&& c.cpu_count == resource_spec.cpu_count
                &&& c.memory_size == resource_spec.memory_size
                &&& c.graphics.pixel_width == resource_spec.pixel_width
                &&& c.graphics.pixel_height == resource_spec.pixel_height
                &&& c.graphics.pixel_per_inch == resource_spec.pixel_per_inch
                &&& c.platform == platform
                &&& c.network.nat
                &&& c.network.mac_address@[0] == spec_locally_administered(mac_entropy@[0])
                &&& forall|i: int| 1 <= i < 6 ==> c.network.mac_address@[i] == mac_entropy@[i]
                &&& c.storage@.len() == resolved_disks@.len()
                &&& forall|i: int|
                    0 <= i < c.storage@.len() ==> (resolved_disks@[i] matches Some(p)
                        && (#[trigger] c.storage@[i]).path@ == p@ && !c.storage@[i].read_only)
            },
            Err(e) => {
                &&& e.kind == ErrorKind::ConfigValidationError
                &&& e.message@ == spec_validation_error_message(*resource_spec, resolved_disks@)
            },
        },
{
    if resource_spec.cpu_count == 0 {
        return Err(ProvisioningError::new(
            ErrorKind::ConfigValidationError,
            String::from_str("resource specification has zero CPU count"),
        ));
    }
    if resource_spec.memory_size == 0 {
        return Err(ProvisioningError::new(
            ErrorKind::ConfigValidationError,
            String::from_str("resource specification has zero memory size"),
        ));
    }
    let n: usize = resolved_disks.len();
    let mut i: usize = 0;
    while i < n
        invariant
            i <= n,
            n == resolved_disks@.len(),
            forall|j: int| 0 <= j < i ==> resolved_disks@[j] is Some,
            resource_spec.cpu_count >= 1,
            resource_spec.memory_size >= 1,
        decreases n - i,
    {
        if resolved_disks[i].is_none() {
            return Err(ProvisioningError::new(
                ErrorKind::ConfigValidationError,
                String::from_str("a disk path did not resolve to an existing file"),
            ));
        }
        i = i + 1;
    }
    let mut storage: Vec<StorageDeviceConfiguration> = Vec::new();
    let mut k: usize = 0;
    while k < n
        invariant
            k <= n,
            n == resolved_disks@.len(),
            forall|j: int| 0 <= j < n ==> resolved_disks@[j] is Some,
            storage@.len() == k,
            forall|j: int|
                0 <= j < k ==> (resolved_disks@[j] matches Some(p) && (
                #[trigger] storage@[j]).path@ == p@ && !storage@[j].read_only),
        decreases n - k,
    {
        let path = match &resolved_disks[k] {
            Some(p) => p.clone(),
            None => unreached(),
        };
        storage.push(StorageDeviceConfiguration { path, read_only: false });
        k = k + 1;
    }
    Ok(VMConfiguration {
        cpu_count: resource_spec.cpu_count,
        memory_size: resource_spec.memory_size,
        boot_loader: VZMacOSBootLoader::new(),
        graphics: VZMacGraphicsDeviceConfiguration::new(
            resource_spec.pixel_width,
            resource_spec.pixel_height,
            resource_spec.pixel_per_inch,
        ),
        network: NetworkDeviceConfiguration::new(mac_entropy),
        serial: SerialPortConfiguration {  },
        entropy: EntropyDeviceConfiguration {  },
        memory_balloon: MemoryBalloonDeviceConfiguration {  },
        storage,
        platform,
    })
}

} // verus!
