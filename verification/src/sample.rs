//! The sample configuration: a local Firecracker host, a macOS host, four
//! hosted Linux hosts behind the demo control plane, their hosted nodes and
//! host groups, seven machines and one local K3s cluster.
use vstd::prelude::*;

use crate::model::{
    PortConfig, ArtifactCatalog, ArtifactSpec, ArtifactReference, ArtifactDistribution,
    ArtifactStore, ArtifactVariant, ArtifactSelector, MachineArchitecture, ExecutionSubstrate,
    ProtectionMode, HostedControlPlaneSpec, HostedAuthTokenContract, HostedAuthScheme,
    HostedAuthTokenSource, HostSpec, HostPlatform, HostProvider, HostConnection,
    FirecrackerSupport, HostedNodeSpec, HostedNodeCapabilities, HostedPvmCapability,
    PvmCapabilityState, HostedHostGroupSpec, HostedPlacementPolicy, HostedSchedulerPolicy,
    MachineSpec, GuestControl, MachineNetworkSpec, ClusterSpec, ClusterFlavor, ClusterProvider,
    ClusterBootstrapSpec, ClusterGuestProfileSpec, ClusterLifecycleSpec, K3sClusterSpec,
};
use crate::named_map::{NameMap, name_lt, names_of, lemma_insert_after_last, lemma_find_sorted, lookup, sorted_names};
use crate::pvm::{
    firecracker_pvm_lanes, x86_64_firecracker_pvm_host_kit, x86_64_host_kit_view, is_x86_64_lane,
    is_aarch64_lane,
};
use crate::checks::cat3;
use crate::text::views;

verus! {

/// Stores `value` under `key`, a name after every stored one.
fn insert_last<V>(m: &mut NameMap<V>, key: &str, value: V)
    requires
        old(m)@.len() > 0 ==> name_lt(old(m)@.last().0, key@),
    ensures
        final(m)@ == old(m)@.push((key@, value)),
{
    let _ = m.len();
    proof {
        lemma_insert_after_last(m@, key@, value);
    }
    m.insert(String::from_str(key), value);
}

pub fn sample_artifact_variant(
    path: &str,
    architecture: MachineArchitecture,
    substrate: ExecutionSubstrate,
    protection_mode: ProtectionMode,
) -> (r: ArtifactVariant)
    ensures
        r.selector == (ArtifactSelector { architecture, substrate, protection_mode }),
        r.path@ == path@,
{
    ArtifactVariant {
        selector: ArtifactSelector { architecture, substrate, protection_mode },
        path: String::from_str(path),
    }
}

/// A variant at `<prefix><lane><file>`.
fn demo_variant(
    prefix: &str,
    lane: &str,
    file: &str,
    architecture: MachineArchitecture,
    substrate: ExecutionSubstrate,
    protection_mode: ProtectionMode,
) -> (r: ArtifactVariant)
    ensures
        r.selector == (ArtifactSelector { architecture, substrate, protection_mode }),
        r.path@ == prefix@ + lane@ + file@,
{
    let path = cat3(prefix, lane, file);
    sample_artifact_variant(path.as_str(), architecture, substrate, protection_mode)
}

/// A demo variant: the given selector, at `<prefix><lane><file>`.
pub open spec fn is_demo_variant(
    v: ArtifactVariant,
    prefix: Seq<char>,
    lane: Seq<char>,
    file: Seq<char>,
    architecture: MachineArchitecture,
    substrate: ExecutionSubstrate,
    protection_mode: ProtectionMode,
) -> bool {
    &&& v.selector == (ArtifactSelector { architecture, substrate, protection_mode })
    &&& v.path@ == prefix + lane + file
}

/// The seven demo variants, in order: x86_64 Firecracker standard, x86_64
/// Firecracker PVM, arm64 Firecracker standard, then x86_64 and arm64 Cloud
/// Hypervisor standard and x86_64 and arm64 AVF standard.
pub open spec fn is_demo_variants(v: Seq<ArtifactVariant>, prefix: Seq<char>, file: Seq<char>) -> bool {
    &&& v.len() == 7
    &&& is_demo_variant(v[0], prefix, "x86_64/firecracker/standard/"@, file, MachineArchitecture::X86_64, ExecutionSubstrate::Firecracker, ProtectionMode::Standard)
    &&& is_demo_variant(v[1], prefix, "x86_64/firecracker/pvm/"@, file, MachineArchitecture::X86_64, ExecutionSubstrate::Firecracker, ProtectionMode::Pvm)
    &&& is_demo_variant(v[2], prefix, "aarch64/firecracker/standard/"@, file, MachineArchitecture::Aarch64, ExecutionSubstrate::Firecracker, ProtectionMode::Standard)
    &&& is_demo_variant(v[3], prefix, "x86_64/cloud-hypervisor/standard/"@, file, MachineArchitecture::X86_64, ExecutionSubstrate::CloudHypervisor, ProtectionMode::Standard)
    &&& is_demo_variant(v[4], prefix, "aarch64/cloud-hypervisor/standard/"@, file, MachineArchitecture::Aarch64, ExecutionSubstrate::CloudHypervisor, ProtectionMode::Standard)
    &&& is_demo_variant(v[5], prefix, "x86_64/avf/standard/"@, file, MachineArchitecture::X86_64, ExecutionSubstrate::Avf, ProtectionMode::Standard)
    &&& is_demo_variant(v[6], prefix, "aarch64/avf/standard/"@, file, MachineArchitecture::Aarch64, ExecutionSubstrate::Avf, ProtectionMode::Standard)
}

/// A demo artifact: version `v1` in the `demo-fs` registry, pushed to and
/// pulled from the `artifact-store/demo-fs` file store, cached under
/// `.port/cache`, with the seven demo variants.
pub open spec fn is_demo_artifact(
    a: ArtifactSpec,
    repository: Seq<char>,
    build: Seq<char>,
    validate: Seq<char>,
    prefix: Seq<char>,
    file: Seq<char>,
) -> bool {
    &&& a.reference.registry@ == "demo-fs"@
    &&& a.reference.repository@ == repository
    &&& a.reference.version@ == "v1"@
    &&& a.build@ == build
    &&& a.validate@ == validate
    &&& a.distribution.push matches ArtifactStore::FileSystem { root } && root@ == "artifact-store/demo-fs"@
    &&& a.distribution.pull matches ArtifactStore::FileSystem { root } && root@ == "artifact-store/demo-fs"@
    &&& a.distribution.cache_root@ == ".port/cache"@
    &&& is_demo_variants(a.variants@, prefix, file)
}

/// The seven demo variants: x86_64 and arm64 on each substrate in standard
/// protection, and x86_64 Firecracker/PVM.
fn demo_variants(prefix: &str, file: &str) -> (r: Vec<ArtifactVariant>)
    ensures
        is_demo_variants(r@, prefix@, file@),
{
    vec![
        demo_variant(
            prefix,
            "x86_64/firecracker/standard/",
            file,
            MachineArchitecture::X86_64,
            ExecutionSubstrate::Firecracker,
            ProtectionMode::Standard,
        ),
        demo_variant(
            prefix,
            "x86_64/firecracker/pvm/",
            file,
            MachineArchitecture::X86_64,
            ExecutionSubstrate::Firecracker,
            ProtectionMode::Pvm,
        ),
        demo_variant(
            prefix,
            "aarch64/firecracker/standard/",
            file,
            MachineArchitecture::Aarch64,
            ExecutionSubstrate::Firecracker,
            ProtectionMode::Standard,
        ),
        demo_variant(
            prefix,
            "x86_64/cloud-hypervisor/standard/",
            file,
            MachineArchitecture::X86_64,
            ExecutionSubstrate::CloudHypervisor,
            ProtectionMode::Standard,
        ),
        demo_variant(
            prefix,
            "aarch64/cloud-hypervisor/standard/",
            file,
            MachineArchitecture::Aarch64,
            ExecutionSubstrate::CloudHypervisor,
            ProtectionMode::Standard,
        ),
        demo_variant(
            prefix,
            "x86_64/avf/standard/",
            file,
            MachineArchitecture::X86_64,
            ExecutionSubstrate::Avf,
            ProtectionMode::Standard,
        ),
        demo_variant(
            prefix,
            "aarch64/avf/standard/",
            file,
            MachineArchitecture::Aarch64,
            ExecutionSubstrate::Avf,
            ProtectionMode::Standard,
        ),
    ]
}

/// A demo artifact kept in the `demo-fs` file store.
fn demo_artifact(
    repository: &str,
    build: &str,
    validate: &str,
    prefix: &str,
    file: &str,
) -> (r: ArtifactSpec)
    ensures
        is_demo_artifact(r, repository@, build@, validate@, prefix@, file@),
{
    ArtifactSpec {
        reference: ArtifactReference {
            registry: String::from_str("demo-fs"),
            repository: String::from_str(repository),
            version: String::from_str("v1"),
        },
        build: String::from_str(build),
        validate: String::from_str(validate),
        distribution: ArtifactDistribution {
            push: ArtifactStore::FileSystem { root: String::from_str("artifact-store/demo-fs") },
            pull: ArtifactStore::FileSystem { root: String::from_str("artifact-store/demo-fs") },
            cache_root: String::from_str(".port/cache"),
        },
        variants: demo_variants(prefix, file),
    }
}

pub fn hosted_host(provider: HostProvider, control_plane: &str, notes: Vec<String>) -> (r: HostSpec)
    ensures
        r.platform == HostPlatform::Linux,
        r.provider == provider,
        r.connection matches HostConnection::HostedControlPlane { control_plane: cp } && cp@
            == control_plane@,
        !r.firecracker.local_launch,
        r.firecracker.pvm_lanes@.len() == 0,
        r.firecracker.notes@ == notes@,
{
    HostSpec {
        platform: HostPlatform::Linux,
        provider,
        connection: HostConnection::HostedControlPlane {
            control_plane: String::from_str(control_plane),
        },
        firecracker: FirecrackerSupport { local_launch: false, pvm_lanes: Vec::new(), notes },
    }
}

/// The network of a sample machine: the default network, switched off.
pub open spec fn is_sample_network(n: MachineNetworkSpec) -> bool {
    &&& !n.enabled
    &&& n.guest_ip@ == "172.16.0.2"@
    &&& n.host_ip@ == "172.16.0.1"@
    &&& n.prefix_len == 24
    &&& n.guest_mac@ == "AA:FC:00:00:00:01"@
    &&& views(n.dns_servers@) == seq!["8.8.8.8"@, "8.8.4.4"@]
}

/// A sample machine `name`: standard protection on the native
/// architecture, two vCPUs and 2 GiB, the demo artifacts, a writable root
/// file system, no volumes, and the default network switched off.
pub open spec fn is_sample_machine(
    m: MachineSpec,
    host: Seq<char>,
    name: Seq<char>,
    substrate: ExecutionSubstrate,
    vsock_cid: u32,
) -> bool {
    &&& m.host@ == host
    &&& m.kernel@ == "demo-kernel"@
    &&& m.guest_image@ == "demo-guest"@
    &&& m.substrate == substrate
    &&& m.protection_mode == ProtectionMode::Standard
    &&& m.architecture == MachineArchitecture::Native
    &&& m.vcpu_count == 2
    &&& m.memory_mib == 2048
    &&& m.kernel_args@ == "console=ttyS0 reboot=k panic=1 pci=off root=/dev/vda rw"@
    &&& !m.rootfs_read_only
    &&& m.rootfs_overlay is None
    &&& m.runtime_class is None
    &&& m.volumes@.len() == 0
    &&& m.guest.vsock_cid == vsock_cid
    &&& m.guest.control_port == 7000
    &&& m.guest.console_log@ == "runtime/"@ + name + "/console.log"@
    &&& m.network matches Some(n) && is_sample_network(n)
}

pub fn sample_machine(host: &str, name: &str, vsock_cid: u32) -> (r: MachineSpec)
    ensures
        is_sample_machine(r, host@, name@, ExecutionSubstrate::Firecracker, vsock_cid),
{
    let mut network = MachineNetworkSpec::default();
    network.enabled = false;
    MachineSpec {
        host: String::from_str(host),
        kernel: String::from_str("demo-kernel"),
        guest_image: String::from_str("demo-guest"),
        substrate: ExecutionSubstrate::Firecracker,
        protection_mode: ProtectionMode::Standard,
        architecture: MachineArchitecture::Native,
        vcpu_count: 2,
        memory_mib: 2048,
        kernel_args: String::from_str("console=ttyS0 reboot=k panic=1 pci=off root=/dev/vda rw"),
        rootfs_read_only: false,
        rootfs_overlay: None,
        runtime_class: None,
        volumes: Vec::new(),
        guest: GuestControl {
            vsock_cid,
            control_port: 7000,
            console_log: cat3("runtime/", name, "/console.log"),
        },
        network: Some(network),
    }
}

pub fn sample_avf_machine(host: &str, name: &str, vsock_cid: u32) -> (r: MachineSpec)
    ensures
        is_sample_machine(r, host@, name@, ExecutionSubstrate::Avf, vsock_cid),
{
    let mut m = sample_machine(host, name, vsock_cid);
    m.substrate = ExecutionSubstrate::Avf;
    m
}

pub fn sample_cloud_hypervisor_machine(host: &str, name: &str, vsock_cid: u32) -> (r: MachineSpec)
    ensures
        is_sample_machine(r, host@, name@, ExecutionSubstrate::CloudHypervisor, vsock_cid),
{
    let mut m = sample_machine(host, name, vsock_cid);
    m.substrate = ExecutionSubstrate::CloudHypervisor;
    m
}

fn note(text: &str) -> (r: Vec<String>)
    ensures
        views(r@) == seq![text@],
{
    let r = vec![String::from_str(text)];
    assert(views(r@) =~= seq![text@]);
    r
}

/// A sample hosted node on `host` with one x86_64 PVM lane that is planned.
fn sample_node(
    host: &str,
    runtime_root: &str,
    provider: HostProvider,
    prepared: bool,
    lane_note: &str,
    node_note: &str,
) -> (r: HostedNodeSpec)
    ensures
        is_sample_node(r, host@, runtime_root@, provider, prepared, lane_note@, node_note@),
{
    let host_kit = if prepared {
        Some(x86_64_firecracker_pvm_host_kit())
    } else {
        None
    };
    let r = HostedNodeSpec {
        host: String::from_str(host),
        runtime_root: String::from_str(runtime_root),
        capabilities: HostedNodeCapabilities {
            providers: vec![provider],
            platforms: vec![HostPlatform::Linux],
            substrates: vec![ExecutionSubstrate::Firecracker],
            architectures: vec![MachineArchitecture::X86_64],
            protection_modes: vec![ProtectionMode::Standard, ProtectionMode::Pvm],
            pvm_lanes: vec![
                HostedPvmCapability {
                    architecture: MachineArchitecture::X86_64,
                    state: PvmCapabilityState::Planned,
                    host_kit,
                    notes: note(lane_note),
                },
            ],
        },
        notes: note(node_note),
    };
    assert(r.capabilities.providers@ =~= seq![provider]);
    assert(r.capabilities.platforms@ =~= seq![HostPlatform::Linux]);
    assert(r.capabilities.substrates@ =~= seq![ExecutionSubstrate::Firecracker]);
    assert(r.capabilities.architectures@ =~= seq![MachineArchitecture::X86_64]);
    assert(r.capabilities.protection_modes@ =~= seq![ProtectionMode::Standard, ProtectionMode::Pvm]);
    r
}

/// What the sample configuration holds, name by name.
/// A sample hosted node: one x86_64 Firecracker PVM lane, planned, with the
/// x86_64 host kit when the node is prepared.
pub open spec fn is_sample_node(
    n: HostedNodeSpec,
    host: Seq<char>,
    runtime_root: Seq<char>,
    provider: HostProvider,
    prepared: bool,
    lane_note: Seq<char>,
    node_note: Seq<char>,
) -> bool {
    let lane = n.capabilities.pvm_lanes@[0];
    &&& n.host@ == host
    &&& n.runtime_root@ == runtime_root
    &&& n.capabilities.providers@ == seq![provider]
    &&& n.capabilities.platforms@ == seq![HostPlatform::Linux]
    &&& n.capabilities.substrates@ == seq![ExecutionSubstrate::Firecracker]
    &&& n.capabilities.architectures@ == seq![MachineArchitecture::X86_64]
    &&& n.capabilities.protection_modes@ == seq![ProtectionMode::Standard, ProtectionMode::Pvm]
    &&& n.capabilities.pvm_lanes@.len() == 1
    &&& lane.architecture == MachineArchitecture::X86_64
    &&& lane.state == PvmCapabilityState::Planned
    &&& if prepared {
        lane.host_kit matches Some(kit) && kit@ == x86_64_host_kit_view()
    } else {
        lane.host_kit is None
    }
    &&& views(lane.notes@) == seq![lane_note]
    &&& views(n.notes@) == seq![node_note]
}

/// A hosted Linux host of the sample behind the demo control plane, with no
/// local Firecracker launch.
pub open spec fn is_sample_hosted_host(h: HostSpec, provider: HostProvider, note: Seq<char>) -> bool {
    &&& h.platform == HostPlatform::Linux
    &&& h.provider == provider
    &&& h.connection matches HostConnection::HostedControlPlane { control_plane } && control_plane@
        == "demo"@
    &&& !h.firecracker.local_launch
    &&& h.firecracker.pvm_lanes@.len() == 0
    &&& views(h.firecracker.notes@) == seq![note]
}

/// A host group of the sample: explicit membership, first-fit scheduling.
pub open spec fn is_sample_group(g: HostedHostGroupSpec, nodes: Seq<Seq<char>>, note: Seq<char>) -> bool {
    &&& g.placement == HostedPlacementPolicy::ExplicitMembership
    &&& g.scheduler == HostedSchedulerPolicy::DeterministicFirstFit
    &&& views(g.nodes@) == nodes
    &&& views(g.notes@) == seq![note]
}

/// The sample's local K3s cluster on machine `demo`.
pub open spec fn is_sample_cluster(c: ClusterSpec) -> bool {
    &&& c.flavor == ClusterFlavor::K3s
    &&& c.provider == ClusterProvider::Local
    &&& c.count == 1
    &&& c.machine@ == "demo"@
    &&& c.version is None
    &&& views(c.args@) == seq!["--disable=traefik"@]
    &&& c.bootstrap.stage_root@ == "/opt/port/clusters/demo"@
    &&& c.bootstrap.install_script@ == "examples/bootstrap/demo-k3s/install-k3s-offline.sh"@
    &&& c.bootstrap.binary@ == "examples/bootstrap/demo-k3s/k3s"@
    &&& c.bootstrap.guest_profile.name@ == "kube-ready"@
    &&& views(c.bootstrap.guest_profile.required_commands@) == seq![
        "sh"@,
        "install"@,
        "ln"@,
        "chmod"@,
        "dirname"@,
        "setsid"@,
        "modprobe"@,
    ]
    &&& views(c.lifecycle.health_command@) == seq![
        "opt/port/clusters/demo/bin/k3s"@,
        "kubectl"@,
        "get"@,
        "nodes"@,
        "-o"@,
        "wide"@,
        "--request-timeout=15s"@,
    ]
    &&& c.lifecycle.kubeconfig_path@ == "/etc/rancher/k3s/k3s.yaml"@
    &&& c.lifecycle.api_forward_target@ == "127.0.0.1:6443"@
    &&& c.lifecycle.forwards@.len() == 0
}

/// The whole sample configuration, entry by entry.
pub open spec fn is_sample_config(c: PortConfig) -> bool {
    &&& names_of(c.artifacts.kernels@) == seq!["demo-kernel"@]
    &&& is_demo_artifact(
        c.artifacts.kernels@[0].1,
        "port/demo-kernel"@,
        "port artifacts build --artifact demo-kernel"@,
        "port artifacts validate --artifact demo-kernel"@,
        "artifacts/kernel/demo/"@,
        "vmlinux"@,
    )
    &&& names_of(c.artifacts.guest_images@) == seq!["demo-guest"@]
    &&& is_demo_artifact(
        c.artifacts.guest_images@[0].1,
        "port/demo-guest"@,
        "port artifacts build --artifact demo-guest"@,
        "port artifacts validate --artifact demo-guest"@,
        "artifacts/guest/demo/"@,
        "rootfs.ext4"@,
    )
    &&& names_of(c.control_planes@) == seq!["demo"@]
    &&& c.control_planes@[0].1.endpoint@ == "https://port.example.internal"@
    &&& c.control_planes@[0].1.audience@ == "port-hosted-demo"@
    &&& c.control_planes@[0].1.auth.scheme == HostedAuthScheme::Bearer
    &&& c.control_planes@[0].1.auth.header@ == "authorization"@
    &&& c.control_planes@[0].1.auth.source matches HostedAuthTokenSource::Env { variable }
        && variable@ == "PORT_DEMO_TOKEN"@
    &&& names_of(c.hosts@) == seq![
        "aws-linux"@,
        "azure-linux"@,
        "gcp-linux"@,
        "generic-linux"@,
        "local"@,
        "mac-local"@,
    ]
    &&& is_sample_hosted_host(
        c.hosts@[0].1,
        HostProvider::Aws,
        "AWS is a justified future Firecracker provider lane and is modeled through the demo hosted control plane contract."@,
    )
    &&& is_sample_hosted_host(
        c.hosts@[1].1,
        HostProvider::Azure,
        "Azure is modeled explicitly through the demo hosted control plane so diagnostics can report it as unsupported."@,
    )
    &&& is_sample_hosted_host(
        c.hosts@[2].1,
        HostProvider::Gcp,
        "GCP is a justified future Firecracker provider lane and is modeled through the demo hosted control plane contract."@,
    )
    &&& is_sample_hosted_host(
        c.hosts@[3].1,
        HostProvider::GenericLinux,
        "Remote Linux host is modeled through the demo hosted control plane contract."@,
    )
    &&& c.hosts@[4].1.platform == HostPlatform::Linux
    &&& c.hosts@[4].1.provider == HostProvider::Local
    &&& c.hosts@[4].1.connection is Local
    &&& c.hosts@[4].1.firecracker.local_launch
    &&& c.hosts@[4].1.firecracker.pvm_lanes@.len() == 2
    &&& is_x86_64_lane(c.hosts@[4].1.firecracker.pvm_lanes@[0])
    &&& is_aarch64_lane(c.hosts@[4].1.firecracker.pvm_lanes@[1])
    &&& views(c.hosts@[4].1.firecracker.notes@) == seq!["Requires /dev/kvm and the firecracker binary"@]
    &&& c.hosts@[5].1.platform == HostPlatform::Macos
    &&& c.hosts@[5].1.provider == HostProvider::Local
    &&& c.hosts@[5].1.connection is Local
    &&& !c.hosts@[5].1.firecracker.local_launch
    &&& c.hosts@[5].1.firecracker.pvm_lanes@.len() == 0
    &&& views(c.hosts@[5].1.firecracker.notes@) == seq![
        "AVF local execution is modeled separately from Firecracker."@,
    ]
    &&& names_of(c.nodes@) == seq!["aws-linux-node"@, "gcp-linux-node"@, "generic-linux-node"@]
    &&& is_sample_node(
        c.nodes@[0].1,
        "aws-linux"@,
        "runtime/hosted/aws-linux-node"@,
        HostProvider::Aws,
        true,
        "AWS declares the sample x86_64 PVM host-kit contract and becomes ready through imported preparation."@,
        "AWS stays explicit because later host-group and PVM planning will care about provider identity."@,
    )
    &&& is_sample_node(
        c.nodes@[1].1,
        "gcp-linux"@,
        "runtime/hosted/gcp-linux-node"@,
        HostProvider::Gcp,
        false,
        "GCP remains modeled as a planned PVM node until a prepared host kit is explicitly advertised."@,
        "GCP is modeled as a hosted node so placement and lifecycle work can remain provider-aware."@,
    )
    &&& is_sample_node(
        c.nodes@[2].1,
        "generic-linux"@,
        "runtime/hosted/generic-linux-node"@,
        HostProvider::GenericLinux,
        false,
        "Generic Linux is modeled as PVM-planned but not host-kit-ready in the sample inventory."@,
        "Generic Linux is the baseline hosted node contract before scheduler policy exists."@,
    )
    &&& names_of(c.host_groups@) == seq!["aws-builders"@, "remote-linux"@]
    &&& is_sample_group(
        c.host_groups@[0].1,
        seq!["aws-linux-node"@],
        "Provider-specific groups stay explicit so later scheduling and service placement can target them without creating a second host taxonomy."@,
    )
    &&& is_sample_group(
        c.host_groups@[1].1,
        seq!["generic-linux-node"@, "aws-linux-node"@, "gcp-linux-node"@],
        "This group is the first hosted placement boundary; later scheduler, monitoring, and services work should reuse it instead of inventing another inventory axis."@,
    )
    &&& names_of(c.machines@) == seq![
        "cloud-aws"@,
        "cloud-azure"@,
        "cloud-gcp"@,
        "cloud-generic"@,
        "demo"@,
        "demo-avf"@,
        "demo-ch"@,
    ]
    &&& is_sample_machine(c.machines@[0].1, "aws-linux"@, "cloud-aws"@, ExecutionSubstrate::Firecracker, 61)
    &&& is_sample_machine(c.machines@[1].1, "azure-linux"@, "cloud-azure"@, ExecutionSubstrate::Firecracker, 63)
    &&& is_sample_machine(c.machines@[2].1, "gcp-linux"@, "cloud-gcp"@, ExecutionSubstrate::Firecracker, 62)
    &&& is_sample_machine(
        c.machines@[3].1,
        "generic-linux"@,
        "cloud-generic"@,
        ExecutionSubstrate::Firecracker,
        60,
    )
    &&& is_sample_machine(c.machines@[4].1, "local"@, "demo"@, ExecutionSubstrate::Firecracker, 52)
    &&& is_sample_machine(c.machines@[5].1, "mac-local"@, "demo-avf"@, ExecutionSubstrate::Avf, 53)
    &&& is_sample_machine(c.machines@[6].1, "local"@, "demo-ch"@, ExecutionSubstrate::CloudHypervisor, 54)
    &&& names_of(c.clusters@) == seq!["demo"@]
    &&& is_sample_cluster(c.clusters@[0].1)
    &&& c.k3s_clusters@.len() == 0
    &&& c.state_root is None
}


/// Each entry of the sample configuration is found under its name.
pub open spec fn sample_lookups(c: PortConfig) -> bool {
    &&& lookup(c.artifacts.kernels@, "demo-kernel"@) == Some(c.artifacts.kernels@[0].1)
    &&& lookup(c.artifacts.guest_images@, "demo-guest"@) == Some(c.artifacts.guest_images@[0].1)
    &&& lookup(c.control_planes@, "demo"@) == Some(c.control_planes@[0].1)
    &&& lookup(c.hosts@, "aws-linux"@) == Some(c.hosts@[0].1)
    &&& lookup(c.hosts@, "azure-linux"@) == Some(c.hosts@[1].1)
    &&& lookup(c.hosts@, "gcp-linux"@) == Some(c.hosts@[2].1)
    &&& lookup(c.hosts@, "generic-linux"@) == Some(c.hosts@[3].1)
    &&& lookup(c.hosts@, "local"@) == Some(c.hosts@[4].1)
    &&& lookup(c.hosts@, "mac-local"@) == Some(c.hosts@[5].1)
    &&& lookup(c.nodes@, "aws-linux-node"@) == Some(c.nodes@[0].1)
    &&& lookup(c.nodes@, "gcp-linux-node"@) == Some(c.nodes@[1].1)
    &&& lookup(c.nodes@, "generic-linux-node"@) == Some(c.nodes@[2].1)
    &&& lookup(c.host_groups@, "aws-builders"@) == Some(c.host_groups@[0].1)
    &&& lookup(c.host_groups@, "remote-linux"@) == Some(c.host_groups@[1].1)
    &&& lookup(c.machines@, "cloud-aws"@) == Some(c.machines@[0].1)
    &&& lookup(c.machines@, "cloud-azure"@) == Some(c.machines@[1].1)
    &&& lookup(c.machines@, "cloud-gcp"@) == Some(c.machines@[2].1)
    &&& lookup(c.machines@, "cloud-generic"@) == Some(c.machines@[3].1)
    &&& lookup(c.machines@, "demo"@) == Some(c.machines@[4].1)
    &&& lookup(c.machines@, "demo-avf"@) == Some(c.machines@[5].1)
    &&& lookup(c.machines@, "demo-ch"@) == Some(c.machines@[6].1)
    &&& lookup(c.clusters@, "demo"@) == Some(c.clusters@[0].1)
}

/// In entries ordered by name, the `i`-th name finds the `i`-th value.
proof fn lemma_named_at<V>(s: Seq<(Seq<char>, V)>, names: Seq<Seq<char>>, i: int)
    requires
        sorted_names(s),
        names_of(s) == names,
        0 <= i < names.len(),
    ensures
        lookup(s, names[i]) == Some(s[i].1),
{
    assert(names_of(s)[i] == s[i].0);
    lemma_find_sorted(s, names[i], i);
}

/// The entries of the sample configuration are found under their names.
proof fn lemma_sample_lookups(c: PortConfig)
    requires
        is_sample_config(c),
        sorted_names(c.artifacts.kernels@),
        sorted_names(c.artifacts.guest_images@),
        sorted_names(c.control_planes@),
        sorted_names(c.hosts@),
        sorted_names(c.nodes@),
        sorted_names(c.host_groups@),
        sorted_names(c.machines@),
        sorted_names(c.clusters@),
    ensures
        sample_lookups(c),
{
    lemma_named_at(c.artifacts.kernels@, seq!["demo-kernel"@], 0);
    lemma_named_at(c.artifacts.guest_images@, seq!["demo-guest"@], 0);
    lemma_named_at(c.control_planes@, seq!["demo"@], 0);
    let hosts = seq!["aws-linux"@, "azure-linux"@, "gcp-linux"@, "generic-linux"@, "local"@, "mac-local"@];
    lemma_named_at(c.hosts@, hosts, 0);
    lemma_named_at(c.hosts@, hosts, 1);
    lemma_named_at(c.hosts@, hosts, 2);
    lemma_named_at(c.hosts@, hosts, 3);
    lemma_named_at(c.hosts@, hosts, 4);
    lemma_named_at(c.hosts@, hosts, 5);
    let nodes = seq!["aws-linux-node"@, "gcp-linux-node"@, "generic-linux-node"@];
    lemma_named_at(c.nodes@, nodes, 0);
    lemma_named_at(c.nodes@, nodes, 1);
    lemma_named_at(c.nodes@, nodes, 2);
    let groups = seq!["aws-builders"@, "remote-linux"@];
    lemma_named_at(c.host_groups@, groups, 0);
    lemma_named_at(c.host_groups@, groups, 1);
    let machines = seq!["cloud-aws"@, "cloud-azure"@, "cloud-gcp"@, "cloud-generic"@, "demo"@, "demo-avf"@, "demo-ch"@];
    lemma_named_at(c.machines@, machines, 0);
    lemma_named_at(c.machines@, machines, 1);
    lemma_named_at(c.machines@, machines, 2);
    lemma_named_at(c.machines@, machines, 3);
    lemma_named_at(c.machines@, machines, 4);
    lemma_named_at(c.machines@, machines, 5);
    lemma_named_at(c.machines@, machines, 6);
    lemma_named_at(c.clusters@, seq!["demo"@], 0);
}


impl PortConfig {
    /// The sample configuration.
    pub fn sample() -> (r: Self)
        ensures
            is_sample_config(r),
            sample_lookups(r),
    {
        let mut kernels: NameMap<ArtifactSpec> = NameMap::new();
        insert_last(
            &mut kernels,
            "demo-kernel",
            demo_artifact(
                "port/demo-kernel",
                "port artifacts build --artifact demo-kernel",
                "port artifacts validate --artifact demo-kernel",
                "artifacts/kernel/demo/",
                "vmlinux",
            ),
        );
        let mut guest_images: NameMap<ArtifactSpec> = NameMap::new();
        insert_last(
            &mut guest_images,
            "demo-guest",
            demo_artifact(
                "port/demo-guest",
                "port artifacts build --artifact demo-guest",
                "port artifacts validate --artifact demo-guest",
                "artifacts/guest/demo/",
                "rootfs.ext4",
            ),
        );
        let artifacts = ArtifactCatalog { kernels, guest_images };
        let mut control_planes: NameMap<HostedControlPlaneSpec> = NameMap::new();
        insert_last(
            &mut control_planes,
            "demo",
            HostedControlPlaneSpec {
                endpoint: String::from_str("https://port.example.internal"),
                audience: String::from_str("port-hosted-demo"),
                auth: HostedAuthTokenContract {
                    scheme: HostedAuthScheme::Bearer,
                    header: String::from_str("authorization"),
                    source: HostedAuthTokenSource::Env {
                        variable: String::from_str("PORT_DEMO_TOKEN"),
                    },
                },
            },
        );
        let mut hosts: NameMap<HostSpec> = NameMap::new();
        insert_last(&mut hosts, "aws-linux", hosted_host(
            HostProvider::Aws,
            "demo",
            note(
                "AWS is a justified future Firecracker provider lane and is modeled through the demo hosted control plane contract.",
            ),
        ));
        proof {
            reveal_strlit("aws-linux");
            reveal_strlit("azure-linux");
            reveal_with_fuel(name_lt, 3);
        }
        insert_last(&mut hosts, "azure-linux", hosted_host(
            HostProvider::Azure,
            "demo",
            note(
                "Azure is modeled explicitly through the demo hosted control plane so diagnostics can report it as unsupported.",
            ),
        ));
        proof {
            reveal_strlit("azure-linux");
            reveal_strlit("gcp-linux");
            reveal_with_fuel(name_lt, 2);
        }
        insert_last(&mut hosts, "gcp-linux", hosted_host(
            HostProvider::Gcp,
            "demo",
            note(
                "GCP is a justified future Firecracker provider lane and is modeled through the demo hosted control plane contract.",
            ),
        ));
        proof {
            reveal_strlit("gcp-linux");
            reveal_strlit("generic-linux");
            reveal_with_fuel(name_lt, 3);
        }
        insert_last(&mut hosts, "generic-linux", hosted_host(
            HostProvider::GenericLinux,
            "demo",
            note(
                "Remote Linux host is modeled through the demo hosted control plane contract.",
            ),
        ));
        proof {
            reveal_strlit("generic-linux");
            reveal_strlit("local");
            reveal_with_fuel(name_lt, 2);
        }
        insert_last(&mut hosts, "local", HostSpec {
            platform: HostPlatform::Linux,
            provider: HostProvider::Local,
            connection: HostConnection::Local,
            firecracker: FirecrackerSupport {
                local_launch: true,
                pvm_lanes: firecracker_pvm_lanes(),
                notes: note("Requires /dev/kvm and the firecracker binary"),
            },
        });
        proof {
            reveal_strlit("local");
            reveal_strlit("mac-local");
            reveal_with_fuel(name_lt, 2);
        }
        insert_last(&mut hosts, "mac-local", HostSpec {
            platform: HostPlatform::Macos,
            provider: HostProvider::Local,
            connection: HostConnection::Local,
            firecracker: FirecrackerSupport {
                local_launch: false,
                pvm_lanes: Vec::new(),
                notes: note("AVF local execution is modeled separately from Firecracker."),
            },
        });
        let mut nodes: NameMap<HostedNodeSpec> = NameMap::new();
        insert_last(&mut nodes, "aws-linux-node", sample_node(
            "aws-linux",
            "runtime/hosted/aws-linux-node",
            HostProvider::Aws,
            true,
            "AWS declares the sample x86_64 PVM host-kit contract and becomes ready through imported preparation.",
            "AWS stays explicit because later host-group and PVM planning will care about provider identity.",
        ));
        proof {
            reveal_strlit("aws-linux-node");
            reveal_strlit("gcp-linux-node");
            reveal_with_fuel(name_lt, 2);
        }
        insert_last(&mut nodes, "gcp-linux-node", sample_node(
            "gcp-linux",
            "runtime/hosted/gcp-linux-node",
            HostProvider::Gcp,
            false,
            "GCP remains modeled as a planned PVM node until a prepared host kit is explicitly advertised.",
            "GCP is modeled as a hosted node so placement and lifecycle work can remain provider-aware.",
        ));
        proof {
            reveal_strlit("gcp-linux-node");
            reveal_strlit("generic-linux-node");
            reveal_with_fuel(name_lt, 3);
        }
        insert_last(&mut nodes, "generic-linux-node", sample_node(
            "generic-linux",
            "runtime/hosted/generic-linux-node",
            HostProvider::GenericLinux,
            false,
            "Generic Linux is modeled as PVM-planned but not host-kit-ready in the sample inventory.",
            "Generic Linux is the baseline hosted node contract before scheduler policy exists.",
        ));
        let mut host_groups: NameMap<HostedHostGroupSpec> = NameMap::new();
        insert_last(&mut host_groups, "aws-builders", HostedHostGroupSpec {
            placement: HostedPlacementPolicy::ExplicitMembership,
            scheduler: HostedSchedulerPolicy::DeterministicFirstFit,
            nodes: vec![String::from_str("aws-linux-node")],
            notes: note(
                "Provider-specific groups stay explicit so later scheduling and service placement can target them without creating a second host taxonomy.",
            ),
        });
        proof {
            reveal_strlit("aws-builders");
            reveal_strlit("remote-linux");
            reveal_with_fuel(name_lt, 2);
        }
        insert_last(&mut host_groups, "remote-linux", HostedHostGroupSpec {
            placement: HostedPlacementPolicy::ExplicitMembership,
            scheduler: HostedSchedulerPolicy::DeterministicFirstFit,
            nodes: vec![
                String::from_str("generic-linux-node"),
                String::from_str("aws-linux-node"),
                String::from_str("gcp-linux-node"),
            ],
            notes: note(
                "This group is the first hosted placement boundary; later scheduler, monitoring, and services work should reuse it instead of inventing another inventory axis.",
            ),
        });
        let mut machines: NameMap<MachineSpec> = NameMap::new();
        insert_last(&mut machines, "cloud-aws", sample_machine("aws-linux", "cloud-aws", 61));
        proof {
            reveal_strlit("cloud-aws");
            reveal_strlit("cloud-azure");
            reveal_with_fuel(name_lt, 9);
        }
        insert_last(&mut machines, "cloud-azure", sample_machine("azure-linux", "cloud-azure", 63));
        proof {
            reveal_strlit("cloud-azure");
            reveal_strlit("cloud-gcp");
            reveal_with_fuel(name_lt, 8);
        }
        insert_last(&mut machines, "cloud-gcp", sample_machine("gcp-linux", "cloud-gcp", 62));
        proof {
            reveal_strlit("cloud-gcp");
            reveal_strlit("cloud-generic");
            reveal_with_fuel(name_lt, 9);
        }
        insert_last(&mut machines, "cloud-generic", sample_machine("generic-linux", "cloud-generic", 60));
        proof {
            reveal_strlit("cloud-generic");
            reveal_strlit("demo");
            reveal_with_fuel(name_lt, 2);
        }
        insert_last(&mut machines, "demo", sample_machine("local", "demo", 52));
        proof {
            reveal_strlit("demo");
            reveal_strlit("demo-avf");
            reveal_with_fuel(name_lt, 6);
        }
        insert_last(&mut machines, "demo-avf", sample_avf_machine("mac-local", "demo-avf", 53));
        proof {
            reveal_strlit("demo-avf");
            reveal_strlit("demo-ch");
            reveal_with_fuel(name_lt, 7);
        }
        insert_last(&mut machines, "demo-ch", sample_cloud_hypervisor_machine("local", "demo-ch", 54));
        let mut clusters: NameMap<ClusterSpec> = NameMap::new();
        insert_last(
            &mut clusters,
            "demo",
            ClusterSpec {
                flavor: ClusterFlavor::K3s,
                provider: ClusterProvider::Local,
                count: 1,
                machine: String::from_str("demo"),
                version: None,
                args: vec![String::from_str("--disable=traefik")],
                bootstrap: ClusterBootstrapSpec {
                    stage_root: String::from_str("/opt/port/clusters/demo"),
                    install_script: String::from_str(
                        "examples/bootstrap/demo-k3s/install-k3s-offline.sh",
                    ),
                    binary: String::from_str("examples/bootstrap/demo-k3s/k3s"),
                    guest_profile: ClusterGuestProfileSpec {
                        name: String::from_str("kube-ready"),
                        required_commands: vec![
                            String::from_str("sh"),
                            String::from_str("install"),
                            String::from_str("ln"),
                            String::from_str("chmod"),
                            String::from_str("dirname"),
                            String::from_str("setsid"),
                            String::from_str("modprobe"),
                        ],
                    },
                },
                lifecycle: ClusterLifecycleSpec {
                    health_command: vec![
                        String::from_str("opt/port/clusters/demo/bin/k3s"),
                        String::from_str("kubectl"),
                        String::from_str("get"),
                        String::from_str("nodes"),
                        String::from_str("-o"),
                        String::from_str("wide"),
                        String::from_str("--request-timeout=15s"),
                    ],
                    kubeconfig_path: String::from_str("/etc/rancher/k3s/k3s.yaml"),
                    api_forward_target: String::from_str("127.0.0.1:6443"),
                    forwards: Vec::new(),
                },
            },
        );
        let k3s_clusters: NameMap<K3sClusterSpec> = NameMap::new();
        let r = PortConfig {
            artifacts,
            control_planes,
            hosts,
            nodes,
            host_groups,
            machines,
            clusters,
            k3s_clusters,
            state_root: None,
        };
        proof {
            assert(names_of(r.artifacts.kernels@) =~= seq!["demo-kernel"@]);
            assert(names_of(r.artifacts.guest_images@) =~= seq!["demo-guest"@]);
            assert(names_of(r.control_planes@) =~= seq!["demo"@]);
            assert(names_of(r.hosts@) =~= seq![
                "aws-linux"@,
                "azure-linux"@,
                "gcp-linux"@,
                "generic-linux"@,
                "local"@,
                "mac-local"@,
            ]);
            assert(names_of(r.nodes@) =~= seq!["aws-linux-node"@, "gcp-linux-node"@, "generic-linux-node"@]);
            assert(names_of(r.host_groups@) =~= seq!["aws-builders"@, "remote-linux"@]);
            assert(views(r.host_groups@[0].1.nodes@) =~= seq!["aws-linux-node"@]);
            assert(views(r.host_groups@[1].1.nodes@) =~= seq![
                "generic-linux-node"@,
                "aws-linux-node"@,
                "gcp-linux-node"@,
            ]);
            assert(names_of(r.machines@) =~= seq![
                "cloud-aws"@,
                "cloud-azure"@,
                "cloud-gcp"@,
                "cloud-generic"@,
                "demo"@,
                "demo-avf"@,
                "demo-ch"@,
            ]);
            assert(names_of(r.clusters@) =~= seq!["demo"@]);
            let cl = r.clusters@[0].1;
            assert(views(cl.args@) =~= seq!["--disable=traefik"@]);
            assert(views(cl.bootstrap.guest_profile.required_commands@) =~= seq![
                "sh"@,
                "install"@,
                "ln"@,
                "chmod"@,
                "dirname"@,
                "setsid"@,
                "modprobe"@,
            ]);
            assert(views(cl.lifecycle.health_command@) =~= seq![
                "opt/port/clusters/demo/bin/k3s"@,
                "kubectl"@,
                "get"@,
                "nodes"@,
                "-o"@,
                "wide"@,
                "--request-timeout=15s"@,
            ]);
            assert(is_sample_cluster(cl));
            assert(is_sample_group(r.host_groups@[0].1, seq!["aws-linux-node"@], "Provider-specific groups stay explicit so later scheduling and service placement can target them without creating a second host taxonomy."@));
        }
        let _ = r.artifacts.kernels.len();
        let _ = r.artifacts.guest_images.len();
        let _ = r.control_planes.len();
        let _ = r.hosts.len();
        let _ = r.nodes.len();
        let _ = r.host_groups.len();
        let _ = r.machines.len();
        let _ = r.clusters.len();
        proof {
            lemma_sample_lookups(r);
        }
        r
    }
}

} // verus!
