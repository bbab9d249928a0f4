//! VM resources, host mounts and port mappings, and the conversions between
//! the API's specs and the supervisor's types.

use vstd::prelude::*;

verus! {

/// Default agent VM memory in MiB.
pub const DEFAULT_MEMORY_MIB: u32 = 256;

/// Default agent VM vCPU count.
pub const DEFAULT_CPUS: u8 = 1;

/// Resources of a VM.
#[derive(Debug, Clone, Copy, PartialEq, Eq, Structural)]
pub struct VmResources {
    /// Number of vCPUs.
    pub cpus: u8,
    /// Memory in MiB.
    pub mem: u32,
    /// Whether the VM has network egress.
    pub network: bool,
}

/// A host directory shared into the VM.
#[derive(Debug, Clone)]
pub struct HostMount {
    pub source: String,
    pub target: String,
    pub read_only: bool,
}

impl HostMount {
    /// A read-only mount.
    pub fn new(source: &str, target: &str) -> (r: Self)
        ensures
            r.source@ == source@,
            r.target@ == target@,
            r.read_only,
    {
        HostMount { source: source.to_string(), target: target.to_string(), read_only: true }
    }

    /// A writable mount.
    pub fn new_writable(source: &str, target: &str) -> (r: Self)
        ensures
            r.source@ == source@,
            r.target@ == target@,
            !r.read_only,
    {
        HostMount { source: source.to_string(), target: target.to_string(), read_only: false }
    }
}

/// A host port forwarded to a guest port.
#[derive(Debug, Clone, Copy, PartialEq, Eq, Structural)]
pub struct PortMapping {
    pub host: u16,
    pub guest: u16,
}

impl PortMapping {
    /// `host` forwarded to `guest`.
    pub fn new(host: u16, guest: u16) -> (r: Self)
        ensures
            r.host == host,
            r.guest == guest,
    {
        PortMapping { host, guest }
    }

    /// The same port on both sides.
    pub fn same(port: u16) -> (r: Self)
        ensures
            r.host == port,
            r.guest == port,
    {
        PortMapping { host: port, guest: port }
    }
}

/// A mount as the API describes it.
#[derive(Debug, Clone)]
pub struct MountSpec {
    pub source: String,
    pub target: String,
    pub readonly: bool,
}

/// A port mapping as the API describes it.
#[derive(Debug, Clone, Copy, PartialEq, Eq, Structural)]
pub struct PortSpec {
    pub host: u16,
    pub guest: u16,
}

/// Resources as the API describes them; unset values take the defaults.
#[derive(Debug, Clone, Copy, PartialEq, Eq, Structural)]
pub struct ResourceSpec {
    pub cpus: Option<u8>,
    pub memory_mb: Option<u32>,
}

/// A registered sandbox's configuration.
#[derive(Debug, Clone)]
pub struct SandboxEntry {
    pub mounts: Vec<MountSpec>,
    pub ports: Vec<PortSpec>,
    pub resources: ResourceSpec,
}

/// Convert a `MountSpec` to a `HostMount`, keeping the read-only flag.
pub fn mount_spec_to_host_mount(spec: &MountSpec) -> (r: Result<HostMount, String>)
    ensures
        r is Ok,
        r->Ok_0.source@ == spec.source@,
        r->Ok_0.target@ == spec.target@,
        r->Ok_0.read_only == spec.readonly,
{
    let mount = if spec.readonly {
        HostMount::new(spec.source.as_str(), spec.target.as_str())
    } else {
        HostMount::new_writable(spec.source.as_str(), spec.target.as_str())
    };
    Ok(mount)
}

/// Convert a `PortSpec` to a `PortMapping`.
pub fn port_spec_to_mapping(spec: &PortSpec) -> (r: PortMapping)
    ensures
        r.host == spec.host,
        r.guest == spec.guest,
{
    PortMapping::new(spec.host, spec.guest)
}

/// Convert a `ResourceSpec` to `VmResources`: unset values take the agent
/// defaults (1 vCPU, 256 MiB), and the network stays off.
pub fn resource_spec_to_vm_resources(spec: &ResourceSpec) -> (r: VmResources)
    ensures
        r.cpus == (match spec.cpus { Some(c) => c, None => DEFAULT_CPUS }),
        r.mem == (match spec.memory_mb { Some(m) => m, None => DEFAULT_MEMORY_MIB }),
        !r.network,
{
    VmResources {
        cpus: match spec.cpus { Some(c) => c, None => DEFAULT_CPUS },
        mem: match spec.memory_mb { Some(m) => m, None => DEFAULT_MEMORY_MIB },
        network: false,
    }
}

/// Convert `VmResources` to a `ResourceSpec`.
pub fn vm_resources_to_spec(res: VmResources) -> (r: ResourceSpec)
    ensures
        r.cpus == Some(res.cpus),
        r.memory_mb == Some(res.mem),
{
    ResourceSpec { cpus: Some(res.cpus), memory_mb: Some(res.mem) }
}

/// Convert a `HostMount` to a `MountSpec`.
pub fn host_mount_to_spec(mount: &HostMount) -> (r: MountSpec)
    ensures
        r.source@ == mount.source@,
        r.target@ == mount.target@,
        r.readonly == mount.read_only,
{
    MountSpec { source: mount.source.clone(), target: mount.target.clone(), readonly: mount.read_only }
}

/// Convert a `PortMapping` to a `PortSpec`.
pub fn port_mapping_to_spec(mapping: &PortMapping) -> (r: PortSpec)
    ensures
        r.host == mapping.host,
        r.guest == mapping.guest,
{
    PortSpec { host: mapping.host, guest: mapping.guest }
}

pub open spec fn mount_view(m: HostMount) -> (Seq<char>, Seq<char>, bool) {
    (m.source@, m.target@, m.read_only)
}

/// `b` holds a mount equal to `m`.
pub open spec fn mount_in(m: HostMount, b: Seq<HostMount>) -> bool {
    exists|j: int| 0 <= j < b.len() && mount_view(m) == mount_view(#[trigger] b[j])
}

/// Every mount of `a` is a mount of `b`.
pub open spec fn mounts_within(a: Seq<HostMount>, b: Seq<HostMount>) -> bool {
    forall|i: int| 0 <= i < a.len() ==> #[trigger] mount_in(a[i], b)
}

fn same_mount(a: &HostMount, b: &HostMount) -> (r: bool)
    ensures
        r == (mount_view(*a) == mount_view(*b)),
{
    a.source == b.source && a.target == b.target && a.read_only == b.read_only
}

fn has_mount(b: &Vec<HostMount>, m: &HostMount) -> (r: bool)
    ensures
        r == mount_in(*m, b@),
{
    let mut j: usize = 0;
    while j < b.len()
        invariant
            0 <= j <= b@.len(),
            forall|y: int| 0 <= y < j ==> mount_view(*m) != mount_view(#[trigger] b@[y]),
        decreases b@.len() - j,
    {
        if same_mount(m, &b[j]) {
            return true;
        }
        j = j + 1;
    }
    false
}

fn all_within(a: &Vec<HostMount>, b: &Vec<HostMount>) -> (r: bool)
    ensures
        r == mounts_within(a@, b@),
{
    let mut i: usize = 0;
    while i < a.len()
        invariant
            0 <= i <= a@.len(),
            forall|x: int| 0 <= x < i ==> #[trigger] mount_in(a@[x], b@),
        decreases a@.len() - i,
    {
        if !has_mount(b, &a[i]) {
            return false;
        }
        i = i + 1;
    }
    true
}

/// A running VM matches a wanted configuration: the same set of mounts
/// (host path, guest path, read-only) and the same resources.
pub fn config_matches(
    running_mounts: &Vec<HostMount>,
    running: VmResources,
    wanted_mounts: &Vec<HostMount>,
    wanted: VmResources,
) -> (r: bool)
    ensures
        r == (mounts_within(running_mounts@, wanted_mounts@) && mounts_within(wanted_mounts@, running_mounts@)
            && running == wanted),
{
    running == wanted && all_within(running_mounts, wanted_mounts) && all_within(wanted_mounts, running_mounts)
}

} // verus!
