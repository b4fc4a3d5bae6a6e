//! The configuration model: artifacts, hosts, hosted control planes and
//! nodes, machines, clusters, services, and the routing contracts derived
//! from them. Paths are carried as strings in Unix form.
use vstd::prelude::*;

use crate::named_map::NameMap;

verus! {

/// The whole configuration: named artifacts, control planes, hosts, hosted
/// nodes and host groups, machines, and clusters.
#[derive(Debug, Clone, PartialEq, Eq)]
pub struct PortConfig {
    pub artifacts: ArtifactCatalog,
    pub control_planes: NameMap<HostedControlPlaneSpec>,
    pub hosts: NameMap<HostSpec>,
    pub nodes: NameMap<HostedNodeSpec>,
    pub host_groups: NameMap<HostedHostGroupSpec>,
    pub machines: NameMap<MachineSpec>,
    pub clusters: NameMap<ClusterSpec>,
    pub k3s_clusters: NameMap<K3sClusterSpec>,
    pub state_root: Option<String>,
}

/// A validation failure, carrying the message that explains it.
#[derive(Debug, Clone, PartialEq, Eq)]
pub struct ValidationError {
    pub(crate) message: String,
}

impl View for ValidationError {
    type V = Seq<char>;

    closed spec fn view(&self) -> Seq<char> {
        self.message@
    }
}

impl ValidationError {
    pub fn new(message: String) -> (r: Self)
        ensures
            r@ == message@,
    {
        ValidationError { message }
    }

    /// The message, as the error's `Display` renders it.
    pub fn message(&self) -> (r: &str)
        ensures
            r@ == self@,
    {
        self.message.as_str()
    }
}

/// The kernels and guest images that machines boot from.
#[derive(Debug, Clone, PartialEq, Eq)]
pub struct ArtifactCatalog {
    pub kernels: NameMap<ArtifactSpec>,
    pub guest_images: NameMap<ArtifactSpec>,
}

#[derive(Debug, Clone, Copy, PartialEq, Eq, Structural)]
pub enum ArtifactKind {
    Kernel,
    GuestImage,
}

#[derive(Debug, Clone, PartialEq, Eq)]
pub struct ArtifactSpec {
    pub reference: ArtifactReference,
    pub build: String,
    pub validate: String,
    pub distribution: ArtifactDistribution,
    pub variants: Vec<ArtifactVariant>,
}

#[derive(Debug, Clone, PartialEq, Eq)]
pub struct ArtifactReference {
    pub registry: String,
    pub repository: String,
    pub version: String,
}

#[derive(Debug, Clone, PartialEq, Eq)]
pub struct ArtifactDistribution {
    pub push: ArtifactStore,
    pub pull: ArtifactStore,
    pub cache_root: String,
}

#[derive(Debug, Clone, PartialEq, Eq)]
pub enum ArtifactStore {
    FileSystem { root: String },
    OciRegistry { transport: OciRegistryTransport, auth: OciRegistryAuth },
    HostedApi { endpoint: String },
}

#[derive(Debug, Clone, Copy, PartialEq, Eq, Structural)]
pub enum OciRegistryTransport {
    Https,
    PlainHttp,
}

#[derive(Debug, Clone, PartialEq, Eq)]
pub enum OciRegistryAuth {
    Anonymous,
    BasicEnv { username_variable: String, password_variable: String },
}

#[derive(Debug, Clone, PartialEq, Eq)]
pub struct HostedControlPlaneSpec {
    pub endpoint: String,
    pub audience: String,
    pub auth: HostedAuthTokenContract,
}

#[derive(Debug, PartialEq, Eq)]
pub struct HostedAuthTokenContract {
    pub scheme: HostedAuthScheme,
    pub header: String,
    pub source: HostedAuthTokenSource,
}

#[derive(Debug, Clone, Copy, PartialEq, Eq, Structural)]
pub enum HostedAuthScheme {
    Bearer,
}

#[derive(Debug, PartialEq, Eq)]
pub enum HostedAuthTokenSource {
    Env { variable: String },
}

#[derive(Debug, Clone, PartialEq, Eq)]
pub struct HostedApiIdentityContract {
    pub control_plane: String,
    pub endpoint: String,
    pub audience: String,
    pub auth: HostedAuthTokenContract,
    pub route: MachineCommandRoute,
}

#[derive(Debug, Clone, PartialEq, Eq)]
pub struct HostedArtifactIdentityContract {
    pub control_plane: String,
    pub endpoint: String,
    pub audience: String,
    pub auth: HostedAuthTokenContract,
}

#[derive(Debug, Clone, PartialEq, Eq)]
pub struct HostedNodeSpec {
    pub host: String,
    pub runtime_root: String,
    pub capabilities: HostedNodeCapabilities,
    pub notes: Vec<String>,
}

#[derive(Debug, PartialEq, Eq)]
pub struct HostedNodeCapabilities {
    pub providers: Vec<HostProvider>,
    pub platforms: Vec<HostPlatform>,
    pub substrates: Vec<ExecutionSubstrate>,
    pub architectures: Vec<MachineArchitecture>,
    pub protection_modes: Vec<ProtectionMode>,
    pub pvm_lanes: Vec<HostedPvmCapability>,
}

#[derive(Debug, PartialEq, Eq)]
pub struct HostedPvmCapability {
    pub architecture: MachineArchitecture,
    pub state: PvmCapabilityState,
    pub host_kit: Option<PvmHostKit>,
    pub notes: Vec<String>,
}

#[derive(Debug, Clone, PartialEq, Eq)]
pub struct HostedPvmHostKitPackageAttachment {
    pub architecture: MachineArchitecture,
    pub package: PvmHostKitPackage,
}

#[derive(Debug, Clone, Copy, PartialEq, Eq, Structural)]
pub enum PvmCapabilityState {
    Ready,
    Planned,
    ResearchOnly,
}

#[derive(Debug, Clone, PartialEq, Eq)]
pub struct HostedHostGroupSpec {
    pub placement: HostedPlacementPolicy,
    pub scheduler: HostedSchedulerPolicy,
    pub nodes: Vec<String>,
    pub notes: Vec<String>,
}

#[derive(Debug, Clone, Copy, PartialEq, Eq, Structural)]
pub enum HostedPlacementPolicy {
    ExplicitMembership,
}

#[derive(Debug, Clone, Copy, PartialEq, Eq, Structural)]
pub enum HostedSchedulerPolicy {
    DeterministicFirstFit,
    Spread,
}

/// The hosted nodes and host groups, resolved against their control planes.
#[derive(Debug, Clone, PartialEq, Eq)]
pub struct HostedInventoryContract {
    pub nodes: NameMap<HostedNodeContract>,
    pub host_groups: NameMap<HostedHostGroupContract>,
}

#[derive(Debug, Clone, PartialEq, Eq)]
pub struct HostedImportedNodeRecord {
    pub provider: HostProvider,
    pub provenance: String,
    pub imported_at: u64,
    pub capability_summary: HostedNodeCapabilities,
    pub pvm_host_kit_packages: Vec<HostedPvmHostKitPackageAttachment>,
}

#[derive(Debug, Clone, PartialEq, Eq)]
pub struct HostedNodeRegistration {
    pub endpoint: String,
    pub token: String,
    pub registered_at: u64,
    pub refreshed_at: u64,
    pub ttl_seconds: u64,
}

#[derive(Debug, Clone, Copy, PartialEq, Eq, Structural)]
pub struct HostedNodeFreshnessContract {
    pub registered_at: u64,
    pub refreshed_at: u64,
    pub ttl_seconds: u64,
    pub fresh_until: u64,
}

#[derive(Debug, PartialEq, Eq)]
pub struct HostedRegisteredNodeContract {
    pub node_name: String,
    pub endpoint: String,
    pub freshness: HostedNodeFreshnessContract,
    pub node: HostedNodeContract,
    pub host_groups: Vec<String>,
}

#[derive(Debug, PartialEq, Eq)]
pub struct HostedNodeContract {
    pub host: String,
    pub runtime_root: String,
    pub control_plane: String,
    pub inventory_owner: MachineInventoryOwner,
    pub lifecycle_owner: MachineLifecycleOwner,
    pub capabilities: HostedNodeCapabilities,
    pub notes: Vec<String>,
}

#[derive(Debug, Clone, PartialEq, Eq)]
pub struct HostedHostGroupContract {
    pub control_plane: String,
    pub inventory_owner: MachineInventoryOwner,
    pub placement: HostedPlacementPolicy,
    pub scheduler: HostedSchedulerPolicy,
    pub nodes: Vec<String>,
    pub notes: Vec<String>,
}

/// Where a hosted machine can be placed, and why other nodes were rejected.
#[derive(Debug, Clone, PartialEq, Eq)]
pub struct HostedMachineSummaryContract {
    pub machine_name: String,
    pub host_name: String,
    pub provider: HostProvider,
    pub control_plane: String,
    pub candidate_nodes: Vec<String>,
    pub rejected_nodes: NameMap<String>,
    pub host_groups: Vec<String>,
    pub host_group_policies: NameMap<HostedSchedulerPolicy>,
    pub placement_detail: String,
    pub control: MachineControlContract,
}

#[derive(Debug, Clone, PartialEq, Eq)]
pub struct HostedMachineStatusContract {
    pub machine: HostedMachineSummaryContract,
    pub status_source: MachineStatusSource,
    pub status_route: MachineCommandRoute,
    pub detail: String,
}

#[derive(Debug, Clone, PartialEq, Eq)]
pub struct HostedMachineStopContract {
    pub machine: HostedMachineSummaryContract,
    pub lifecycle_owner: MachineLifecycleOwner,
    pub stop_route: MachineCommandRoute,
    pub detail: String,
}

#[derive(Debug, Clone, PartialEq, Eq)]
pub struct HostedMachineMonitorContract {
    pub machine: HostedMachineSummaryContract,
    pub lifecycle_owner: MachineLifecycleOwner,
    pub status_source: MachineStatusSource,
    pub monitor_route: MachineCommandRoute,
    pub top_route: MachineCommandRoute,
    pub detail: String,
}

#[derive(Debug, Clone, PartialEq, Eq)]
pub struct HostedServiceContract {
    pub machine: HostedMachineSummaryContract,
    pub lifecycle_owner: MachineLifecycleOwner,
    pub guest_broker: MachineGuestBroker,
    pub service_route: MachineCommandRoute,
    pub detail: String,
}

#[derive(Debug, Clone, PartialEq, Eq)]
pub struct HostedGuestAttachContract {
    pub machine: HostedMachineSummaryContract,
    pub guest_broker: MachineGuestBroker,
    pub guest_route: MachineCommandRoute,
    pub command_surface: Vec<GuestCommandVerb>,
    pub protocol: HostedGuestProtocolContract,
    pub attach_path: Vec<HostedGuestAttachHop>,
    pub detail: String,
}

#[derive(Debug, Clone, Copy, PartialEq, Eq, Structural)]
pub enum GuestCommandVerb {
    Exec,
    Copy,
    Pty,
    Logs,
    Forward,
}

#[derive(Debug, Clone, Copy, PartialEq, Eq, Structural)]
pub enum HostedGuestProtocolContract {
    PortAgentProtocol,
}

#[derive(Debug, Clone, PartialEq, Eq)]
pub struct HostedGuestAttachHop {
    pub actor: HostedGuestAttachActor,
    pub role: String,
}

#[derive(Debug, Clone, Copy, PartialEq, Eq, Structural)]
pub enum HostedGuestAttachActor {
    Cli,
    HostedControlPlane,
    HostedNodeAgent,
    GuestAgent,
}

#[derive(Debug, Clone, PartialEq, Eq)]
pub struct ArtifactVariant {
    pub selector: ArtifactSelector,
    pub path: String,
}

#[derive(Debug, Clone, Copy, PartialEq, Eq, Structural)]
pub struct ArtifactSelector {
    pub architecture: MachineArchitecture,
    pub substrate: ExecutionSubstrate,
    pub protection_mode: ProtectionMode,
}

#[derive(Debug, Clone, Copy, PartialEq, Eq, Structural)]
pub enum HostPlatform {
    Linux,
    Macos,
    Windows,
}

#[derive(Debug, Clone, Copy, PartialEq, Eq, Structural)]
pub enum HostProvider {
    Local,
    GenericLinux,
    Aws,
    Gcp,
    Azure,
}

#[derive(Debug, Clone, PartialEq, Eq)]
pub struct HostSpec {
    pub platform: HostPlatform,
    pub provider: HostProvider,
    pub connection: HostConnection,
    pub firecracker: FirecrackerSupport,
}

#[derive(Debug, Clone, PartialEq, Eq)]
pub enum HostConnection {
    Local,
    HostedControlPlane { control_plane: String },
    Ssh { destination: String, user: String, port: u16 },
}

#[derive(Debug, Clone, PartialEq, Eq)]
pub struct FirecrackerSupport {
    pub local_launch: bool,
    pub pvm_lanes: Vec<FirecrackerPvmLaneContract>,
    pub notes: Vec<String>,
}

#[derive(Debug, Clone, PartialEq, Eq)]
pub struct MachineSpec {
    pub host: String,
    pub kernel: String,
    pub guest_image: String,
    pub substrate: ExecutionSubstrate,
    pub protection_mode: ProtectionMode,
    pub architecture: MachineArchitecture,
    pub vcpu_count: u8,
    pub memory_mib: u32,
    pub kernel_args: String,
    pub rootfs_read_only: bool,
    pub rootfs_overlay: Option<MachineRootfsOverlaySpec>,
    pub runtime_class: Option<MachineRuntimeClassSpec>,
    pub volumes: Vec<MachineVolumeSpec>,
    pub guest: GuestControl,
    pub network: Option<MachineNetworkSpec>,
}

#[derive(Debug, Clone, PartialEq, Eq)]
pub struct MachineRuntimeClassSpec {
    pub kind: MachineRuntimeClassKind,
    pub trust: MachineRuntimeTrustPosture,
    pub state_isolation: MachineRuntimeStateIsolation,
    pub writable_roots: Vec<MachineRuntimeWritableRoot>,
    pub declared_inputs: Vec<MachineRuntimeDeclaredInput>,
    pub workspace: Option<MachineRuntimeWorkspaceBinding>,
}

#[derive(Debug, Clone, Copy, PartialEq, Eq, Structural)]
pub enum MachineRuntimeClassKind {
    WorkspaceScratchBuilder,
    BlessedClosurePromotionRunner,
}

#[derive(Debug, Clone, Copy, PartialEq, Eq, Structural)]
pub enum MachineRuntimeTrustPosture {
    WorkspaceUntrusted,
    PromotionTrusted,
}

#[derive(Debug, Clone, Copy, PartialEq, Eq, Structural)]
pub enum MachineRuntimeStateIsolation {
    WorkspaceWritable,
    CleanRoom,
}

#[derive(Debug, Clone, Copy, PartialEq, Eq, Structural)]
pub enum MachineRuntimeWritableRoot {
    NixStore,
    SourceRoot,
    TempRoot,
    EvidenceRoot,
}

#[derive(Debug, Clone, Copy, PartialEq, Eq, Structural)]
pub enum MachineRuntimeDeclaredInput {
    SourceBundle,
    RequestedOutputs,
    PolicySnapshot,
    CandidateClosure,
}

#[derive(Debug, Clone, PartialEq, Eq)]
pub struct MachineRuntimeWorkspaceBinding {
    pub workspace: String,
    pub lane: String,
}

#[derive(Debug, Clone, Copy, PartialEq, Eq, Structural)]
pub struct MachineRootfsOverlaySpec {
    pub size_mib: u32,
}

#[derive(Debug, Clone, Copy, PartialEq, Eq, Structural)]
pub enum MachineVolumeBackend {
    HostFile,
}

#[derive(Debug, Clone, Copy, PartialEq, Eq, Structural)]
pub enum MachineVolumePersistence {
    Persistent,
}

#[derive(Debug, Clone, PartialEq, Eq)]
pub struct MachineVolumeSpec {
    pub name: String,
    pub backend: MachineVolumeBackend,
    pub persistence: MachineVolumePersistence,
    pub path: String,
}

#[derive(Debug, Clone, PartialEq, Eq)]
pub struct GuestControl {
    pub vsock_cid: u32,
    pub control_port: u16,
    pub console_log: String,
}

#[derive(Debug, Clone, PartialEq, Eq)]
pub struct MachineNetworkSpec {
    pub enabled: bool,
    pub guest_ip: String,
    pub host_ip: String,
    pub prefix_len: u8,
    pub guest_mac: String,
    pub dns_servers: Vec<String>,
}

#[derive(Debug, Clone, PartialEq, Eq)]
pub struct ClusterSpec {
    pub flavor: ClusterFlavor,
    pub provider: ClusterProvider,
    pub count: u16,
    pub machine: String,
    pub version: Option<String>,
    pub args: Vec<String>,
    pub bootstrap: ClusterBootstrapSpec,
    pub lifecycle: ClusterLifecycleSpec,
}

#[derive(Debug, Clone, PartialEq, Eq)]
pub struct ClusterBootstrapSpec {
    pub stage_root: String,
    pub install_script: String,
    pub binary: String,
    pub guest_profile: ClusterGuestProfileSpec,
}

#[derive(Debug, Clone, PartialEq, Eq)]
pub struct ClusterGuestProfileSpec {
    pub name: String,
    pub required_commands: Vec<String>,
}

#[derive(Debug, Clone, PartialEq, Eq)]
pub struct ClusterLifecycleSpec {
    pub health_command: Vec<String>,
    pub kubeconfig_path: String,
    pub api_forward_target: String,
    pub forwards: Vec<ServiceForwardSpec>,
}

#[derive(Debug, Clone, PartialEq, Eq)]
pub struct ServiceForwardSpec {
    pub name: String,
    pub target: String,
}

#[derive(Debug, Clone, Copy, PartialEq, Eq, Structural)]
pub enum ClusterFlavor {
    K3s,
}

#[derive(Debug, Clone, Copy, PartialEq, Eq, Structural)]
pub enum ClusterProvider {
    Local,
    Hosted,
    Aws,
}

/// The least number of control-plane machines a hosted K3s cluster needs
/// before its topology can be highly available.
pub const HOSTED_K3S_REAL_HA_MIN_CONTROL_PLANES: usize = 3;

#[derive(Debug, Clone, Copy, PartialEq, Eq, Structural)]
pub enum HostedK3sHaTopologyPosture {
    NonHaTopology,
    HaEligibleTopology,
}

#[derive(Debug, Clone, PartialEq, Eq)]
pub struct K3sClusterSpec {
    pub control_plane: String,
    pub host_group: String,
    pub server_machines: Vec<String>,
    pub worker_machines: Vec<String>,
    pub api_endpoint: String,
    pub control_plane_scheduler: HostedSchedulerPolicy,
    pub version: Option<String>,
    pub server_args: Vec<String>,
    pub worker_args: Vec<String>,
}

#[derive(Debug, Clone, Copy, PartialEq, Eq, Structural)]
pub enum ServiceKind {
    Service,
    Sandbox,
}

#[derive(Debug, Clone, PartialEq, Eq)]
pub struct ServiceSecretBinding {
    pub env: String,
    pub secret: String,
}

#[derive(Debug, Clone, Copy, PartialEq, Eq, Structural)]
pub enum ServiceSecretBackend {
    RuntimeFile,
}

#[derive(Debug, Clone, Copy, PartialEq, Eq, Structural)]
pub enum ServiceSecretMaterialization {
    Env,
}

#[derive(Debug, Clone, PartialEq, Eq)]
pub struct ServiceSecretSourceStatus {
    pub env: String,
    pub secret: String,
    pub backend: ServiceSecretBackend,
    pub materialization: ServiceSecretMaterialization,
    pub path: String,
    pub detail: String,
}

#[derive(Debug, Clone, Copy, PartialEq, Eq, Structural)]
pub enum ServiceRestartPolicy {
    Never,
    OnFailure,
    Always,
}

#[derive(Debug, Clone, Copy, PartialEq, Eq, Structural)]
pub enum ServiceHealthPolicy {
    NoCheck,
    Command,
}

#[derive(Debug, Clone, Copy, PartialEq, Eq, Structural)]
pub enum ServiceHealthState {
    Unknown,
    Healthy,
    Unhealthy,
}

#[derive(Debug, Clone, PartialEq, Eq)]
pub struct ServiceHealthcheck {
    pub policy: ServiceHealthPolicy,
    pub command: Vec<String>,
}

#[derive(Debug, Clone, PartialEq, Eq)]
pub struct ServicePolicy {
    pub restart: ServiceRestartPolicy,
    pub healthcheck: ServiceHealthcheck,
}

/// Who owns a machine's inventory, lifecycle, status and guest traffic, and
/// which route each machine verb takes.
#[derive(Debug, Clone, Copy, PartialEq, Eq, Structural)]
pub struct MachineControlContract {
    pub inventory_scope: MachineInventoryScope,
    pub inventory_owner: MachineInventoryOwner,
    pub lifecycle_owner: MachineLifecycleOwner,
    pub guest_broker: MachineGuestBroker,
    pub status_source: MachineStatusSource,
    pub launch_route: MachineCommandRoute,
    pub inventory_route: MachineCommandRoute,
    pub status_route: MachineCommandRoute,
    pub stop_route: MachineCommandRoute,
    pub monitor_route: MachineCommandRoute,
    pub top_route: MachineCommandRoute,
    pub service_route: MachineCommandRoute,
    pub guest_route: MachineCommandRoute,
}

#[derive(Debug, Clone, PartialEq, Eq)]
pub struct FirecrackerPvmLaneContract {
    pub architecture: MachineArchitecture,
    pub decision: PvmLaneDecision,
    pub host_kit: Option<PvmHostKit>,
    pub artifact_kit: Option<PvmArtifactKit>,
    pub validation: Vec<PvmValidationExpectation>,
    pub operator_prerequisites: Vec<String>,
    pub follow_on_work: Vec<String>,
}

#[derive(Debug, Clone, Copy, PartialEq, Eq, Structural)]
pub enum PvmLaneDecision {
    Planned,
    ResearchOnly,
}

#[derive(Debug, PartialEq, Eq)]
pub struct PvmHostKitPackage {
    pub name: String,
    pub version: String,
    pub host_kernel_release: String,
    pub firecracker_build: String,
}

#[derive(Debug, PartialEq, Eq)]
pub struct PvmHostKit {
    pub package: PvmHostKitPackage,
    pub host_platform: HostPlatform,
    pub host_architecture: MachineArchitecture,
    pub requires_custom_host_kernel: bool,
    pub requires_patched_firecracker: bool,
    pub firecracker_binary_name: String,
    pub firecracker_binary_env: Option<String>,
    pub host_boot_args: Vec<String>,
    pub notes: Vec<String>,
}

#[derive(Debug, Clone, PartialEq, Eq)]
pub struct PvmArtifactKit {
    pub kernel_selector: ArtifactSelector,
    pub guest_image_selector: ArtifactSelector,
    pub requires_dedicated_variants: bool,
    pub notes: Vec<String>,
}

#[derive(Debug, Clone, PartialEq, Eq)]
pub struct PvmValidationExpectation {
    pub name: String,
    pub blocking: bool,
    pub detail: String,
}

#[derive(Debug, Clone, PartialEq, Eq)]
pub struct AvfExecutionContract {
    pub host_platform: HostPlatform,
    pub supported_host_architectures: Vec<MachineArchitecture>,
    pub launch_owners: Vec<AvfLaunchOwner>,
    pub guest_transport: AvfGuestTransport,
    pub console_transport: AvfConsoleTransport,
    pub directory_share: AvfDirectoryShareContract,
    pub operator_prerequisites: Vec<String>,
    pub follow_on_work: Vec<String>,
}

#[derive(Debug, Clone, Copy, PartialEq, Eq, Structural)]
pub enum AvfLaunchOwner {
    LocalPortRuntime,
    HostedNodeAgent,
}

#[derive(Debug, Clone, Copy, PartialEq, Eq, Structural)]
pub enum AvfGuestTransport {
    VirtioSocket,
}

#[derive(Debug, Clone, Copy, PartialEq, Eq, Structural)]
pub enum AvfConsoleTransport {
    SerialPort,
}

#[derive(Debug, Clone, PartialEq, Eq)]
pub struct AvfDirectoryShareContract {
    pub supported: bool,
    pub required_for_rosetta: bool,
    pub notes: Vec<String>,
}

#[derive(Debug, Clone, Copy, PartialEq, Eq, Structural)]
pub enum MachineInventoryScope {
    LocalRuntimeRoot,
    HostedFleet,
    SshRuntimeRoot,
}

#[derive(Debug, Clone, Copy, PartialEq, Eq, Structural)]
pub enum MachineInventoryOwner {
    LocalRuntimeRoot,
    HostedControlPlane,
    SshRemoteRuntime,
}

#[derive(Debug, Clone, Copy, PartialEq, Eq, Structural)]
pub enum MachineLifecycleOwner {
    LocalPortRuntime,
    HostedNodeAgent,
    SshRemotePortRuntime,
}

#[derive(Debug, Clone, Copy, PartialEq, Eq, Structural)]
pub enum MachineGuestBroker {
    LocalRuntimeTransport,
    ControlPlaneNodeAgentTunnel,
    SshRemoteRuntimeTransport,
}

#[derive(Debug, Clone, Copy, PartialEq, Eq, Structural)]
pub enum MachineStatusSource {
    RuntimeManifestAndHostProcess,
    ControlPlaneInventoryAndNodeAgentRuntime,
    SshRuntimeManifestAndHostProcess,
}

#[derive(Debug, Clone, Copy, PartialEq, Eq, Structural)]
pub enum MachineCommandRoute {
    DirectLocalRuntime,
    HostedControlPlane,
    SshManagedRemote,
}

#[derive(Debug, Clone, Copy, PartialEq, Eq, Structural)]
pub enum ExecutionSubstrate {
    Firecracker,
    CloudHypervisor,
    Avf,
}

#[derive(Debug, Clone, Copy, PartialEq, Eq, Structural)]
pub enum ProtectionMode {
    Standard,
    Pvm,
}

#[derive(Debug, Clone, Copy, PartialEq, Eq, Structural)]
pub enum MachineArchitecture {
    Native,
    X86_64,
    Aarch64,
}

} // verus!
