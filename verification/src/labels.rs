//! The labels that enums carry in messages and displays, and membership tests on lists of them.
use vstd::prelude::*;

use crate::model::{ArtifactSelector, ClusterFlavor, ClusterProvider, ExecutionSubstrate, GuestCommandVerb, HostPlatform, HostProvider, HostedGuestProtocolContract, HostedK3sHaTopologyPosture, HostedSchedulerPolicy, MachineArchitecture, MachineCommandRoute, MachineGuestBroker, MachineInventoryOwner, MachineInventoryScope, MachineLifecycleOwner, MachineRuntimeClassKind, MachineRuntimeDeclaredInput, MachineRuntimeStateIsolation, MachineRuntimeTrustPosture, MachineRuntimeWritableRoot, MachineStatusSource, MachineVolumeBackend, MachineVolumePersistence, OciRegistryTransport, ProtectionMode, PvmCapabilityState, PvmLaneDecision, ServiceHealthPolicy, ServiceHealthState, ServiceKind, ServiceRestartPolicy, ServiceSecretBackend, ServiceSecretMaterialization};

verus! {

impl MachineArchitecture {
    /// The architecture's label: `native`, `x86_64` or `aarch64`.
    pub open spec fn label_text(self) -> Seq<char> {
        match self {
            MachineArchitecture::Native => "native"@,
            MachineArchitecture::X86_64 => "x86_64"@,
            MachineArchitecture::Aarch64 => "aarch64"@,
        }
    }

    /// The architecture's label: `native`, `x86_64` or `aarch64`.
    pub fn label(self) -> (r: &'static str)
        ensures
            r@ == self.label_text(),
    {
        match self {
            MachineArchitecture::Native => "native",
            MachineArchitecture::X86_64 => "x86_64",
            MachineArchitecture::Aarch64 => "aarch64",
        }
    }

    /// The variant's name, as `{:?}` prints it.
    pub open spec fn debug_name_text(self) -> Seq<char> {
        match self {
            MachineArchitecture::Native => "Native"@,
            MachineArchitecture::X86_64 => "X86_64"@,
            MachineArchitecture::Aarch64 => "Aarch64"@,
        }
    }

    /// The variant's name, as `{:?}` prints it.
    pub fn debug_name(self) -> (r: &'static str)
        ensures
            r@ == self.debug_name_text(),
    {
        match self {
            MachineArchitecture::Native => "Native",
            MachineArchitecture::X86_64 => "X86_64",
            MachineArchitecture::Aarch64 => "Aarch64",
        }
    }
}

impl ExecutionSubstrate {
    /// The substrate's label.
    pub open spec fn label_text(self) -> Seq<char> {
        match self {
            ExecutionSubstrate::Firecracker => "firecracker"@,
            ExecutionSubstrate::CloudHypervisor => "cloud-hypervisor"@,
            ExecutionSubstrate::Avf => "avf"@,
        }
    }

    /// The substrate's label.
    pub fn label(self) -> (r: &'static str)
        ensures
            r@ == self.label_text(),
    {
        match self {
            ExecutionSubstrate::Firecracker => "firecracker",
            ExecutionSubstrate::CloudHypervisor => "cloud-hypervisor",
            ExecutionSubstrate::Avf => "avf",
        }
    }

    /// The variant's name, as `{:?}` prints it.
    pub open spec fn debug_name_text(self) -> Seq<char> {
        match self {
            ExecutionSubstrate::Firecracker => "Firecracker"@,
            ExecutionSubstrate::CloudHypervisor => "CloudHypervisor"@,
            ExecutionSubstrate::Avf => "Avf"@,
        }
    }

    /// The variant's name, as `{:?}` prints it.
    pub fn debug_name(self) -> (r: &'static str)
        ensures
            r@ == self.debug_name_text(),
    {
        match self {
            ExecutionSubstrate::Firecracker => "Firecracker",
            ExecutionSubstrate::CloudHypervisor => "CloudHypervisor",
            ExecutionSubstrate::Avf => "Avf",
        }
    }
}

impl ProtectionMode {
    /// The protection mode's label.
    pub open spec fn label_text(self) -> Seq<char> {
        match self {
            ProtectionMode::Standard => "standard"@,
            ProtectionMode::Pvm => "pvm"@,
        }
    }

    /// The protection mode's label.
    pub fn label(self) -> (r: &'static str)
        ensures
            r@ == self.label_text(),
    {
        match self {
            ProtectionMode::Standard => "standard",
            ProtectionMode::Pvm => "pvm",
        }
    }

    /// How a placement requirement names the protection mode.
    pub open spec fn requirement_label_text(self) -> Seq<char> {
        match self {
            ProtectionMode::Standard => "standard protection"@,
            ProtectionMode::Pvm => "PVM"@,
        }
    }

    /// How a placement requirement names the protection mode.
    pub fn requirement_label(self) -> (r: &'static str)
        ensures
            r@ == self.requirement_label_text(),
    {
        match self {
            ProtectionMode::Standard => "standard protection",
            ProtectionMode::Pvm => "PVM",
        }
    }

    /// The variant's name, as `{:?}` prints it.
    pub open spec fn debug_name_text(self) -> Seq<char> {
        match self {
            ProtectionMode::Standard => "Standard"@,
            ProtectionMode::Pvm => "Pvm"@,
        }
    }

    /// The variant's name, as `{:?}` prints it.
    pub fn debug_name(self) -> (r: &'static str)
        ensures
            r@ == self.debug_name_text(),
    {
        match self {
            ProtectionMode::Standard => "Standard",
            ProtectionMode::Pvm => "Pvm",
        }
    }
}

impl HostProvider {
    /// The provider's label.
    pub open spec fn label_text(self) -> Seq<char> {
        match self {
            HostProvider::Local => "local"@,
            HostProvider::GenericLinux => "generic-linux"@,
            HostProvider::Aws => "aws"@,
            HostProvider::Gcp => "gcp"@,
            HostProvider::Azure => "azure"@,
        }
    }

    /// The provider's label.
    pub fn label(self) -> (r: &'static str)
        ensures
            r@ == self.label_text(),
    {
        match self {
            HostProvider::Local => "local",
            HostProvider::GenericLinux => "generic-linux",
            HostProvider::Aws => "aws",
            HostProvider::Gcp => "gcp",
            HostProvider::Azure => "azure",
        }
    }

    /// The variant's name, as `{:?}` prints it.
    pub open spec fn debug_name_text(self) -> Seq<char> {
        match self {
            HostProvider::Local => "Local"@,
            HostProvider::GenericLinux => "GenericLinux"@,
            HostProvider::Aws => "Aws"@,
            HostProvider::Gcp => "Gcp"@,
            HostProvider::Azure => "Azure"@,
        }
    }

    /// The variant's name, as `{:?}` prints it.
    pub fn debug_name(self) -> (r: &'static str)
        ensures
            r@ == self.debug_name_text(),
    {
        match self {
            HostProvider::Local => "Local",
            HostProvider::GenericLinux => "GenericLinux",
            HostProvider::Aws => "Aws",
            HostProvider::Gcp => "Gcp",
            HostProvider::Azure => "Azure",
        }
    }
}

impl PvmCapabilityState {
    /// The capability state's label.
    pub open spec fn label_text(self) -> Seq<char> {
        match self {
            PvmCapabilityState::Ready => "ready"@,
            PvmCapabilityState::Planned => "planned"@,
            PvmCapabilityState::ResearchOnly => "research-only"@,
        }
    }

    /// The capability state's label.
    pub fn label(self) -> (r: &'static str)
        ensures
            r@ == self.label_text(),
    {
        match self {
            PvmCapabilityState::Ready => "ready",
            PvmCapabilityState::Planned => "planned",
            PvmCapabilityState::ResearchOnly => "research-only",
        }
    }
}

impl MachineVolumeBackend {
    /// The backend's label.
    pub open spec fn label_text(self) -> Seq<char> {
        match self {
            MachineVolumeBackend::HostFile => "host-file"@,
        }
    }

    /// The backend's label.
    pub fn label(self) -> (r: &'static str)
        ensures
            r@ == self.label_text(),
    {
        match self {
            MachineVolumeBackend::HostFile => "host-file",
        }
    }
}

impl MachineVolumePersistence {
    /// The persistence's label.
    pub open spec fn label_text(self) -> Seq<char> {
        match self {
            MachineVolumePersistence::Persistent => "persistent"@,
        }
    }

    /// The persistence's label.
    pub fn label(self) -> (r: &'static str)
        ensures
            r@ == self.label_text(),
    {
        match self {
            MachineVolumePersistence::Persistent => "persistent",
        }
    }
}

impl OciRegistryTransport {
    /// The transport's label.
    pub open spec fn describe_text(self) -> Seq<char> {
        match self {
            OciRegistryTransport::Https => "https"@,
            OciRegistryTransport::PlainHttp => "plain-http"@,
        }
    }

    /// The transport's label.
    pub fn describe(self) -> (r: &'static str)
        ensures
            r@ == self.describe_text(),
    {
        match self {
            OciRegistryTransport::Https => "https",
            OciRegistryTransport::PlainHttp => "plain-http",
        }
    }
}

impl HostedSchedulerPolicy {
    /// The policy as it is displayed.
    pub open spec fn label_text(self) -> Seq<char> {
        match self {
            HostedSchedulerPolicy::DeterministicFirstFit => "deterministic-first-fit"@,
            HostedSchedulerPolicy::Spread => "spread"@,
        }
    }

    /// The policy as it is displayed.
    pub fn label(self) -> (r: &'static str)
        ensures
            r@ == self.label_text(),
    {
        match self {
            HostedSchedulerPolicy::DeterministicFirstFit => "deterministic-first-fit",
            HostedSchedulerPolicy::Spread => "spread",
        }
    }

    /// The variant's name, as `{:?}` prints it.
    pub open spec fn debug_name_text(self) -> Seq<char> {
        match self {
            HostedSchedulerPolicy::DeterministicFirstFit => "DeterministicFirstFit"@,
            HostedSchedulerPolicy::Spread => "Spread"@,
        }
    }

    /// The variant's name, as `{:?}` prints it.
    pub fn debug_name(self) -> (r: &'static str)
        ensures
            r@ == self.debug_name_text(),
    {
        match self {
            HostedSchedulerPolicy::DeterministicFirstFit => "DeterministicFirstFit",
            HostedSchedulerPolicy::Spread => "Spread",
        }
    }
}

impl GuestCommandVerb {
    /// The verb as it is displayed.
    pub open spec fn label_text(self) -> Seq<char> {
        match self {
            GuestCommandVerb::Exec => "exec"@,
            GuestCommandVerb::Copy => "copy"@,
            GuestCommandVerb::Pty => "pty"@,
            GuestCommandVerb::Logs => "logs"@,
            GuestCommandVerb::Forward => "forward"@,
        }
    }

    /// The verb as it is displayed.
    pub fn label(self) -> (r: &'static str)
        ensures
            r@ == self.label_text(),
    {
        match self {
            GuestCommandVerb::Exec => "exec",
            GuestCommandVerb::Copy => "copy",
            GuestCommandVerb::Pty => "pty",
            GuestCommandVerb::Logs => "logs",
            GuestCommandVerb::Forward => "forward",
        }
    }
}

impl HostedGuestProtocolContract {
    /// The protocol as it is displayed.
    pub open spec fn label_text(self) -> Seq<char> {
        match self {
            HostedGuestProtocolContract::PortAgentProtocol => "port-agent-protocol"@,
        }
    }

    /// The protocol as it is displayed.
    pub fn label(self) -> (r: &'static str)
        ensures
            r@ == self.label_text(),
    {
        match self {
            HostedGuestProtocolContract::PortAgentProtocol => "port-agent-protocol",
        }
    }
}

impl MachineRuntimeClassKind {
    /// The kind as it is displayed.
    pub open spec fn label_text(self) -> Seq<char> {
        match self {
            MachineRuntimeClassKind::WorkspaceScratchBuilder => "workspace-scratch-builder"@,
            MachineRuntimeClassKind::BlessedClosurePromotionRunner => "blessed-closure-promotion-runner"@,
        }
    }

    /// The kind as it is displayed.
    pub fn label(self) -> (r: &'static str)
        ensures
            r@ == self.label_text(),
    {
        match self {
            MachineRuntimeClassKind::WorkspaceScratchBuilder => "workspace-scratch-builder",
            MachineRuntimeClassKind::BlessedClosurePromotionRunner => "blessed-closure-promotion-runner",
        }
    }
}

impl MachineRuntimeTrustPosture {
    /// The trust posture as it is displayed.
    pub open spec fn label_text(self) -> Seq<char> {
        match self {
            MachineRuntimeTrustPosture::WorkspaceUntrusted => "workspace-untrusted"@,
            MachineRuntimeTrustPosture::PromotionTrusted => "promotion-trusted"@,
        }
    }

    /// The trust posture as it is displayed.
    pub fn label(self) -> (r: &'static str)
        ensures
            r@ == self.label_text(),
    {
        match self {
            MachineRuntimeTrustPosture::WorkspaceUntrusted => "workspace-untrusted",
            MachineRuntimeTrustPosture::PromotionTrusted => "promotion-trusted",
        }
    }
}

impl MachineRuntimeStateIsolation {
    /// The isolation as it is displayed.
    pub open spec fn label_text(self) -> Seq<char> {
        match self {
            MachineRuntimeStateIsolation::WorkspaceWritable => "workspace-writable"@,
            MachineRuntimeStateIsolation::CleanRoom => "clean-room"@,
        }
    }

    /// The isolation as it is displayed.
    pub fn label(self) -> (r: &'static str)
        ensures
            r@ == self.label_text(),
    {
        match self {
            MachineRuntimeStateIsolation::WorkspaceWritable => "workspace-writable",
            MachineRuntimeStateIsolation::CleanRoom => "clean-room",
        }
    }
}

impl MachineRuntimeWritableRoot {
    /// The writable root as it is displayed.
    pub open spec fn label_text(self) -> Seq<char> {
        match self {
            MachineRuntimeWritableRoot::NixStore => "nix-store"@,
            MachineRuntimeWritableRoot::SourceRoot => "source-root"@,
            MachineRuntimeWritableRoot::TempRoot => "temp-root"@,
            MachineRuntimeWritableRoot::EvidenceRoot => "evidence-root"@,
        }
    }

    /// The writable root as it is displayed.
    pub fn label(self) -> (r: &'static str)
        ensures
            r@ == self.label_text(),
    {
        match self {
            MachineRuntimeWritableRoot::NixStore => "nix-store",
            MachineRuntimeWritableRoot::SourceRoot => "source-root",
            MachineRuntimeWritableRoot::TempRoot => "temp-root",
            MachineRuntimeWritableRoot::EvidenceRoot => "evidence-root",
        }
    }
}

impl MachineRuntimeDeclaredInput {
    /// The declared input as it is displayed.
    pub open spec fn label_text(self) -> Seq<char> {
        match self {
            MachineRuntimeDeclaredInput::SourceBundle => "source-bundle"@,
            MachineRuntimeDeclaredInput::RequestedOutputs => "requested-outputs"@,
            MachineRuntimeDeclaredInput::PolicySnapshot => "policy-snapshot"@,
            MachineRuntimeDeclaredInput::CandidateClosure => "candidate-closure"@,
        }
    }

    /// The declared input as it is displayed.
    pub fn label(self) -> (r: &'static str)
        ensures
            r@ == self.label_text(),
    {
        match self {
            MachineRuntimeDeclaredInput::SourceBundle => "source-bundle",
            MachineRuntimeDeclaredInput::RequestedOutputs => "requested-outputs",
            MachineRuntimeDeclaredInput::PolicySnapshot => "policy-snapshot",
            MachineRuntimeDeclaredInput::CandidateClosure => "candidate-closure",
        }
    }
}

impl ClusterFlavor {
    /// The flavor as it is displayed.
    pub open spec fn label_text(self) -> Seq<char> {
        match self {
            ClusterFlavor::K3s => "k3s"@,
        }
    }

    /// The flavor as it is displayed.
    pub fn label(self) -> (r: &'static str)
        ensures
            r@ == self.label_text(),
    {
        match self {
            ClusterFlavor::K3s => "k3s",
        }
    }
}

impl ClusterProvider {
    /// The provider as it is displayed.
    pub open spec fn label_text(self) -> Seq<char> {
        match self {
            ClusterProvider::Local => "local"@,
            ClusterProvider::Hosted => "hosted"@,
            ClusterProvider::Aws => "aws"@,
        }
    }

    /// The provider as it is displayed.
    pub fn label(self) -> (r: &'static str)
        ensures
            r@ == self.label_text(),
    {
        match self {
            ClusterProvider::Local => "local",
            ClusterProvider::Hosted => "hosted",
            ClusterProvider::Aws => "aws",
        }
    }
}

impl HostedK3sHaTopologyPosture {
    /// The posture as it is displayed.
    pub open spec fn label_text(self) -> Seq<char> {
        match self {
            HostedK3sHaTopologyPosture::NonHaTopology => "non-ha-topology"@,
            HostedK3sHaTopologyPosture::HaEligibleTopology => "ha-eligible-topology"@,
        }
    }

    /// The posture as it is displayed.
    pub fn label(self) -> (r: &'static str)
        ensures
            r@ == self.label_text(),
    {
        match self {
            HostedK3sHaTopologyPosture::NonHaTopology => "non-ha-topology",
            HostedK3sHaTopologyPosture::HaEligibleTopology => "ha-eligible-topology",
        }
    }
}

impl ServiceKind {
    /// The kind as it is displayed.
    pub open spec fn label_text(self) -> Seq<char> {
        match self {
            ServiceKind::Service => "service"@,
            ServiceKind::Sandbox => "sandbox"@,
        }
    }

    /// The kind as it is displayed.
    pub fn label(self) -> (r: &'static str)
        ensures
            r@ == self.label_text(),
    {
        match self {
            ServiceKind::Service => "service",
            ServiceKind::Sandbox => "sandbox",
        }
    }
}

impl ServiceSecretBackend {
    /// The backend as it is displayed.
    pub open spec fn label_text(self) -> Seq<char> {
        match self {
            ServiceSecretBackend::RuntimeFile => "runtime-file"@,
        }
    }

    /// The backend as it is displayed.
    pub fn label(self) -> (r: &'static str)
        ensures
            r@ == self.label_text(),
    {
        match self {
            ServiceSecretBackend::RuntimeFile => "runtime-file",
        }
    }
}

impl ServiceSecretMaterialization {
    /// The materialization as it is displayed.
    pub open spec fn label_text(self) -> Seq<char> {
        match self {
            ServiceSecretMaterialization::Env => "env"@,
        }
    }

    /// The materialization as it is displayed.
    pub fn label(self) -> (r: &'static str)
        ensures
            r@ == self.label_text(),
    {
        match self {
            ServiceSecretMaterialization::Env => "env",
        }
    }
}

impl ServiceRestartPolicy {
    /// The restart policy as it is displayed.
    pub open spec fn label_text(self) -> Seq<char> {
        match self {
            ServiceRestartPolicy::Never => "never"@,
            ServiceRestartPolicy::OnFailure => "on-failure"@,
            ServiceRestartPolicy::Always => "always"@,
        }
    }

    /// The restart policy as it is displayed.
    pub fn label(self) -> (r: &'static str)
        ensures
            r@ == self.label_text(),
    {
        match self {
            ServiceRestartPolicy::Never => "never",
            ServiceRestartPolicy::OnFailure => "on-failure",
            ServiceRestartPolicy::Always => "always",
        }
    }
}

impl ServiceHealthPolicy {
    /// The health policy as it is displayed.
    pub open spec fn label_text(self) -> Seq<char> {
        match self {
            ServiceHealthPolicy::NoCheck => "none"@,
            ServiceHealthPolicy::Command => "command"@,
        }
    }

    /// The health policy as it is displayed.
    pub fn label(self) -> (r: &'static str)
        ensures
            r@ == self.label_text(),
    {
        match self {
            ServiceHealthPolicy::NoCheck => "none",
            ServiceHealthPolicy::Command => "command",
        }
    }
}

impl ServiceHealthState {
    /// The health state as it is displayed.
    pub open spec fn label_text(self) -> Seq<char> {
        match self {
            ServiceHealthState::Unknown => "unknown"@,
            ServiceHealthState::Healthy => "healthy"@,
            ServiceHealthState::Unhealthy => "unhealthy"@,
        }
    }

    /// The health state as it is displayed.
    pub fn label(self) -> (r: &'static str)
        ensures
            r@ == self.label_text(),
    {
        match self {
            ServiceHealthState::Unknown => "unknown",
            ServiceHealthState::Healthy => "healthy",
            ServiceHealthState::Unhealthy => "unhealthy",
        }
    }
}

impl PvmLaneDecision {
    /// The decision as it is displayed.
    pub open spec fn label_text(self) -> Seq<char> {
        match self {
            PvmLaneDecision::Planned => "planned"@,
            PvmLaneDecision::ResearchOnly => "research-only"@,
        }
    }

    /// The decision as it is displayed.
    pub fn label(self) -> (r: &'static str)
        ensures
            r@ == self.label_text(),
    {
        match self {
            PvmLaneDecision::Planned => "planned",
            PvmLaneDecision::ResearchOnly => "research-only",
        }
    }
}

impl MachineInventoryScope {
    /// The scope as it is displayed.
    pub open spec fn label_text(self) -> Seq<char> {
        match self {
            MachineInventoryScope::LocalRuntimeRoot => "local-runtime-root"@,
            MachineInventoryScope::HostedFleet => "hosted-fleet"@,
            MachineInventoryScope::SshRuntimeRoot => "ssh-runtime-root"@,
        }
    }

    /// The scope as it is displayed.
    pub fn label(self) -> (r: &'static str)
        ensures
            r@ == self.label_text(),
    {
        match self {
            MachineInventoryScope::LocalRuntimeRoot => "local-runtime-root",
            MachineInventoryScope::HostedFleet => "hosted-fleet",
            MachineInventoryScope::SshRuntimeRoot => "ssh-runtime-root",
        }
    }
}

impl MachineInventoryOwner {
    /// The owner as it is displayed.
    pub open spec fn label_text(self) -> Seq<char> {
        match self {
            MachineInventoryOwner::LocalRuntimeRoot => "local-runtime-root"@,
            MachineInventoryOwner::HostedControlPlane => "hosted-control-plane"@,
            MachineInventoryOwner::SshRemoteRuntime => "ssh-remote-runtime"@,
        }
    }

    /// The owner as it is displayed.
    pub fn label(self) -> (r: &'static str)
        ensures
            r@ == self.label_text(),
    {
        match self {
            MachineInventoryOwner::LocalRuntimeRoot => "local-runtime-root",
            MachineInventoryOwner::HostedControlPlane => "hosted-control-plane",
            MachineInventoryOwner::SshRemoteRuntime => "ssh-remote-runtime",
        }
    }
}

impl MachineLifecycleOwner {
    /// The owner as it is displayed.
    pub open spec fn label_text(self) -> Seq<char> {
        match self {
            MachineLifecycleOwner::LocalPortRuntime => "local-port-runtime"@,
            MachineLifecycleOwner::HostedNodeAgent => "hosted-node-agent"@,
            MachineLifecycleOwner::SshRemotePortRuntime => "ssh-remote-port-runtime"@,
        }
    }

    /// The owner as it is displayed.
    pub fn label(self) -> (r: &'static str)
        ensures
            r@ == self.label_text(),
    {
        match self {
            MachineLifecycleOwner::LocalPortRuntime => "local-port-runtime",
            MachineLifecycleOwner::HostedNodeAgent => "hosted-node-agent",
            MachineLifecycleOwner::SshRemotePortRuntime => "ssh-remote-port-runtime",
        }
    }
}

impl MachineGuestBroker {
    /// The broker as it is displayed.
    pub open spec fn label_text(self) -> Seq<char> {
        match self {
            MachineGuestBroker::LocalRuntimeTransport => "local-runtime-transport"@,
            MachineGuestBroker::ControlPlaneNodeAgentTunnel => "control-plane-node-agent-tunnel"@,
            MachineGuestBroker::SshRemoteRuntimeTransport => "ssh-remote-runtime-transport"@,
        }
    }

    /// The broker as it is displayed.
    pub fn label(self) -> (r: &'static str)
        ensures
            r@ == self.label_text(),
    {
        match self {
            MachineGuestBroker::LocalRuntimeTransport => "local-runtime-transport",
            MachineGuestBroker::ControlPlaneNodeAgentTunnel => "control-plane-node-agent-tunnel",
            MachineGuestBroker::SshRemoteRuntimeTransport => "ssh-remote-runtime-transport",
        }
    }
}

impl MachineStatusSource {
    /// The status source as it is displayed.
    pub open spec fn label_text(self) -> Seq<char> {
        match self {
            MachineStatusSource::RuntimeManifestAndHostProcess => "runtime-manifest-and-host-process"@,
            MachineStatusSource::ControlPlaneInventoryAndNodeAgentRuntime => "control-plane-inventory-and-node-agent-runtime"@,
            MachineStatusSource::SshRuntimeManifestAndHostProcess => "ssh-runtime-manifest-and-host-process"@,
        }
    }

    /// The status source as it is displayed.
    pub fn label(self) -> (r: &'static str)
        ensures
            r@ == self.label_text(),
    {
        match self {
            MachineStatusSource::RuntimeManifestAndHostProcess => "runtime-manifest-and-host-process",
            MachineStatusSource::ControlPlaneInventoryAndNodeAgentRuntime => "control-plane-inventory-and-node-agent-runtime",
            MachineStatusSource::SshRuntimeManifestAndHostProcess => "ssh-runtime-manifest-and-host-process",
        }
    }
}

impl MachineCommandRoute {
    /// The route as it is displayed.
    pub open spec fn label_text(self) -> Seq<char> {
        match self {
            MachineCommandRoute::DirectLocalRuntime => "direct-local-runtime"@,
            MachineCommandRoute::HostedControlPlane => "hosted-control-plane"@,
            MachineCommandRoute::SshManagedRemote => "ssh-managed-remote"@,
        }
    }

    /// The route as it is displayed.
    pub fn label(self) -> (r: &'static str)
        ensures
            r@ == self.label_text(),
    {
        match self {
            MachineCommandRoute::DirectLocalRuntime => "direct-local-runtime",
            MachineCommandRoute::HostedControlPlane => "hosted-control-plane",
            MachineCommandRoute::SshManagedRemote => "ssh-managed-remote",
        }
    }
}

impl HostProvider {
    /// Whether the list holds this value.
    pub fn is_in(self, v: &Vec<HostProvider>) -> (r: bool)
        ensures
            r == v@.contains(self),
    {
        let n = v.len();
        let mut i: usize = 0;
        while i < n
            invariant
                n == v@.len(),
                i <= n,
                forall|j: int| 0 <= j < i ==> v@[j] != self,
            decreases n - i,
        {
            if v[i] == self {
                return true;
            }
            i = i + 1;
        }
        false
    }
}

impl HostPlatform {
    /// Whether the list holds this value.
    pub fn is_in(self, v: &Vec<HostPlatform>) -> (r: bool)
        ensures
            r == v@.contains(self),
    {
        let n = v.len();
        let mut i: usize = 0;
        while i < n
            invariant
                n == v@.len(),
                i <= n,
                forall|j: int| 0 <= j < i ==> v@[j] != self,
            decreases n - i,
        {
            if v[i] == self {
                return true;
            }
            i = i + 1;
        }
        false
    }
}

impl ExecutionSubstrate {
    /// Whether the list holds this value.
    pub fn is_in(self, v: &Vec<ExecutionSubstrate>) -> (r: bool)
        ensures
            r == v@.contains(self),
    {
        let n = v.len();
        let mut i: usize = 0;
        while i < n
            invariant
                n == v@.len(),
                i <= n,
                forall|j: int| 0 <= j < i ==> v@[j] != self,
            decreases n - i,
        {
            if v[i] == self {
                return true;
            }
            i = i + 1;
        }
        false
    }
}

impl MachineArchitecture {
    /// Whether the list holds this value.
    pub fn is_in(self, v: &Vec<MachineArchitecture>) -> (r: bool)
        ensures
            r == v@.contains(self),
    {
        let n = v.len();
        let mut i: usize = 0;
        while i < n
            invariant
                n == v@.len(),
                i <= n,
                forall|j: int| 0 <= j < i ==> v@[j] != self,
            decreases n - i,
        {
            if v[i] == self {
                return true;
            }
            i = i + 1;
        }
        false
    }
}

impl ProtectionMode {
    /// Whether the list holds this value.
    pub fn is_in(self, v: &Vec<ProtectionMode>) -> (r: bool)
        ensures
            r == v@.contains(self),
    {
        let n = v.len();
        let mut i: usize = 0;
        while i < n
            invariant
                n == v@.len(),
                i <= n,
                forall|j: int| 0 <= j < i ==> v@[j] != self,
            decreases n - i,
        {
            if v[i] == self {
                return true;
            }
            i = i + 1;
        }
        false
    }
}

impl MachineRuntimeWritableRoot {
    /// Whether the list holds this value.
    pub fn is_in(self, v: &Vec<MachineRuntimeWritableRoot>) -> (r: bool)
        ensures
            r == v@.contains(self),
    {
        let n = v.len();
        let mut i: usize = 0;
        while i < n
            invariant
                n == v@.len(),
                i <= n,
                forall|j: int| 0 <= j < i ==> v@[j] != self,
            decreases n - i,
        {
            if v[i] == self {
                return true;
            }
            i = i + 1;
        }
        false
    }
}

impl MachineRuntimeDeclaredInput {
    /// Whether the list holds this value.
    pub fn is_in(self, v: &Vec<MachineRuntimeDeclaredInput>) -> (r: bool)
        ensures
            r == v@.contains(self),
    {
        let n = v.len();
        let mut i: usize = 0;
        while i < n
            invariant
                n == v@.len(),
                i <= n,
                forall|j: int| 0 <= j < i ==> v@[j] != self,
            decreases n - i,
        {
            if v[i] == self {
                return true;
            }
            i = i + 1;
        }
        false
    }
}

impl ArtifactSelector {
    /// Whether the list holds this value.
    pub fn is_in(self, v: &Vec<ArtifactSelector>) -> (r: bool)
        ensures
            r == v@.contains(self),
    {
        let n = v.len();
        let mut i: usize = 0;
        while i < n
            invariant
                n == v@.len(),
                i <= n,
                forall|j: int| 0 <= j < i ==> v@[j] != self,
            decreases n - i,
        {
            if v[i] == self {
                return true;
            }
            i = i + 1;
        }
        false
    }
}

} // verus!
