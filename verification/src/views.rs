//! Mathematical views of the hosted inventory types, which hold lists, and
//! copies of them that keep their views.
use vstd::prelude::*;

use crate::model::{
    PvmHostKit, PvmHostKitPackage, HostPlatform, MachineArchitecture, HostedPvmCapability,
    PvmCapabilityState, HostedNodeCapabilities, HostProvider, ExecutionSubstrate, ProtectionMode,
    HostedNodeContract, MachineInventoryOwner, MachineLifecycleOwner, HostedHostGroupContract,
    HostedPlacementPolicy, HostedSchedulerPolicy, HostedInventoryContract,
    HostedMachineSummaryContract, MachineControlContract, HostedRegisteredNodeContract,
    HostedNodeFreshnessContract, HostedAuthTokenContract, HostedAuthTokenSource,
};
use crate::text::views;

verus! {

#[verifier::ext_equal]
pub struct PvmHostKitPackageView {
    pub name: Seq<char>,
    pub version: Seq<char>,
    pub host_kernel_release: Seq<char>,
    pub firecracker_build: Seq<char>,
}

impl View for PvmHostKitPackage {
    type V = PvmHostKitPackageView;

    open spec fn view(&self) -> PvmHostKitPackageView {
        PvmHostKitPackageView {
            name: self.name@,
            version: self.version@,
            host_kernel_release: self.host_kernel_release@,
            firecracker_build: self.firecracker_build@,
        }
    }
}

#[verifier::ext_equal]
pub struct PvmHostKitView {
    pub package: PvmHostKitPackageView,
    pub host_platform: HostPlatform,
    pub host_architecture: MachineArchitecture,
    pub requires_custom_host_kernel: bool,
    pub requires_patched_firecracker: bool,
    pub firecracker_binary_name: Seq<char>,
    pub firecracker_binary_env: Option<Seq<char>>,
    pub host_boot_args: Seq<Seq<char>>,
    pub notes: Seq<Seq<char>>,
}

pub open spec fn option_view(o: Option<String>) -> Option<Seq<char>> {
    match o {
        Some(s) => Some(s@),
        None => None,
    }
}

impl View for PvmHostKit {
    type V = PvmHostKitView;

    open spec fn view(&self) -> PvmHostKitView {
        PvmHostKitView {
            package: self.package@,
            host_platform: self.host_platform,
            host_architecture: self.host_architecture,
            requires_custom_host_kernel: self.requires_custom_host_kernel,
            requires_patched_firecracker: self.requires_patched_firecracker,
            firecracker_binary_name: self.firecracker_binary_name@,
            firecracker_binary_env: option_view(self.firecracker_binary_env),
            host_boot_args: views(self.host_boot_args@),
            notes: views(self.notes@),
        }
    }
}

#[verifier::ext_equal]
pub struct HostedPvmCapabilityView {
    pub architecture: MachineArchitecture,
    pub state: PvmCapabilityState,
    pub host_kit: Option<PvmHostKitView>,
    pub notes: Seq<Seq<char>>,
}

pub open spec fn host_kit_view(o: Option<PvmHostKit>) -> Option<PvmHostKitView> {
    match o {
        Some(kit) => Some(kit@),
        None => None,
    }
}

impl View for HostedPvmCapability {
    type V = HostedPvmCapabilityView;

    open spec fn view(&self) -> HostedPvmCapabilityView {
        HostedPvmCapabilityView {
            architecture: self.architecture,
            state: self.state,
            host_kit: host_kit_view(self.host_kit),
            notes: views(self.notes@),
        }
    }
}

#[verifier::ext_equal]
pub struct HostedNodeCapabilitiesView {
    pub providers: Seq<HostProvider>,
    pub platforms: Seq<HostPlatform>,
    pub substrates: Seq<ExecutionSubstrate>,
    pub architectures: Seq<MachineArchitecture>,
    pub protection_modes: Seq<ProtectionMode>,
    pub pvm_lanes: Seq<HostedPvmCapabilityView>,
}

pub open spec fn lane_views(lanes: Seq<HostedPvmCapability>) -> Seq<HostedPvmCapabilityView> {
    lanes.map_values(|lane: HostedPvmCapability| lane@)
}

impl View for HostedNodeCapabilities {
    type V = HostedNodeCapabilitiesView;

    open spec fn view(&self) -> HostedNodeCapabilitiesView {
        HostedNodeCapabilitiesView {
            providers: self.providers@,
            platforms: self.platforms@,
            substrates: self.substrates@,
            architectures: self.architectures@,
            protection_modes: self.protection_modes@,
            pvm_lanes: lane_views(self.pvm_lanes@),
        }
    }
}

#[verifier::ext_equal]
pub struct HostedNodeContractView {
    pub host: Seq<char>,
    pub runtime_root: Seq<char>,
    pub control_plane: Seq<char>,
    pub inventory_owner: MachineInventoryOwner,
    pub lifecycle_owner: MachineLifecycleOwner,
    pub capabilities: HostedNodeCapabilitiesView,
    pub notes: Seq<Seq<char>>,
}

impl View for HostedNodeContract {
    type V = HostedNodeContractView;

    open spec fn view(&self) -> HostedNodeContractView {
        HostedNodeContractView {
            host: self.host@,
            runtime_root: self.runtime_root@,
            control_plane: self.control_plane@,
            inventory_owner: self.inventory_owner,
            lifecycle_owner: self.lifecycle_owner,
            capabilities: self.capabilities@,
            notes: views(self.notes@),
        }
    }
}

#[verifier::ext_equal]
pub struct HostedHostGroupContractView {
    pub control_plane: Seq<char>,
    pub inventory_owner: MachineInventoryOwner,
    pub placement: HostedPlacementPolicy,
    pub scheduler: HostedSchedulerPolicy,
    pub nodes: Seq<Seq<char>>,
    pub notes: Seq<Seq<char>>,
}

impl View for HostedHostGroupContract {
    type V = HostedHostGroupContractView;

    open spec fn view(&self) -> HostedHostGroupContractView {
        HostedHostGroupContractView {
            control_plane: self.control_plane@,
            inventory_owner: self.inventory_owner,
            placement: self.placement,
            scheduler: self.scheduler,
            nodes: views(self.nodes@),
            notes: views(self.notes@),
        }
    }
}

/// The entries of a map, each value taken by its view.
pub open spec fn entry_views<V: View>(s: Seq<(Seq<char>, V)>) -> Seq<(Seq<char>, V::V)> {
    s.map_values(|e: (Seq<char>, V)| (e.0, e.1@))
}

#[verifier::ext_equal]
pub struct HostedInventoryContractView {
    pub nodes: Seq<(Seq<char>, HostedNodeContractView)>,
    pub host_groups: Seq<(Seq<char>, HostedHostGroupContractView)>,
}

impl View for HostedInventoryContract {
    type V = HostedInventoryContractView;

    open spec fn view(&self) -> HostedInventoryContractView {
        HostedInventoryContractView {
            nodes: entry_views(self.nodes@),
            host_groups: entry_views(self.host_groups@),
        }
    }
}

#[verifier::ext_equal]
pub struct HostedMachineSummaryContractView {
    pub machine_name: Seq<char>,
    pub host_name: Seq<char>,
    pub provider: HostProvider,
    pub control_plane: Seq<char>,
    pub candidate_nodes: Seq<Seq<char>>,
    pub rejected_nodes: Seq<(Seq<char>, Seq<char>)>,
    pub host_groups: Seq<Seq<char>>,
    pub host_group_policies: Seq<(Seq<char>, HostedSchedulerPolicy)>,
    pub placement_detail: Seq<char>,
    pub control: MachineControlContract,
}

impl View for HostedMachineSummaryContract {
    type V = HostedMachineSummaryContractView;

    open spec fn view(&self) -> HostedMachineSummaryContractView {
        HostedMachineSummaryContractView {
            machine_name: self.machine_name@,
            host_name: self.host_name@,
            provider: self.provider,
            control_plane: self.control_plane@,
            candidate_nodes: views(self.candidate_nodes@),
            rejected_nodes: entry_views(self.rejected_nodes@),
            host_groups: views(self.host_groups@),
            host_group_policies: self.host_group_policies@,
            placement_detail: self.placement_detail@,
            control: self.control,
        }
    }
}

#[verifier::ext_equal]
pub struct HostedRegisteredNodeContractView {
    pub node_name: Seq<char>,
    pub endpoint: Seq<char>,
    pub freshness: HostedNodeFreshnessContract,
    pub node: HostedNodeContractView,
    pub host_groups: Seq<Seq<char>>,
}

impl View for HostedRegisteredNodeContract {
    type V = HostedRegisteredNodeContractView;

    open spec fn view(&self) -> HostedRegisteredNodeContractView {
        HostedRegisteredNodeContractView {
            node_name: self.node_name@,
            endpoint: self.endpoint@,
            freshness: self.freshness,
            node: self.node@,
            host_groups: views(self.host_groups@),
        }
    }
}

// ---------------------------------------------------------------------------
// Copies

/// A copy of a list of strings.
pub fn copy_strings(v: &Vec<String>) -> (r: Vec<String>)
    ensures
        r@ == v@,
{
    let r = v.clone();
    assert(r@ =~= v@);
    r
}

impl Clone for PvmHostKitPackage {
    fn clone(&self) -> (r: Self)
        ensures
            r == *self,
    {
        PvmHostKitPackage {
            name: self.name.clone(),
            version: self.version.clone(),
            host_kernel_release: self.host_kernel_release.clone(),
            firecracker_build: self.firecracker_build.clone(),
        }
    }
}

impl Clone for PvmHostKit {
    fn clone(&self) -> (r: Self)
        ensures
            r@ == self@,
    {
        PvmHostKit {
            package: self.package.clone(),
            host_platform: self.host_platform,
            host_architecture: self.host_architecture,
            requires_custom_host_kernel: self.requires_custom_host_kernel,
            requires_patched_firecracker: self.requires_patched_firecracker,
            firecracker_binary_name: self.firecracker_binary_name.clone(),
            firecracker_binary_env: self.firecracker_binary_env.clone(),
            host_boot_args: copy_strings(&self.host_boot_args),
            notes: copy_strings(&self.notes),
        }
    }
}

impl Clone for HostedPvmCapability {
    fn clone(&self) -> (r: Self)
        ensures
            r@ == self@,
    {
        let host_kit = match &self.host_kit {
            Some(kit) => Some(kit.clone()),
            None => None,
        };
        HostedPvmCapability {
            architecture: self.architecture,
            state: self.state,
            host_kit,
            notes: copy_strings(&self.notes),
        }
    }
}

/// A copy of a list of PVM lanes.
pub fn copy_lanes(v: &Vec<HostedPvmCapability>) -> (r: Vec<HostedPvmCapability>)
    ensures
        lane_views(r@) == lane_views(v@),
{
    let mut r: Vec<HostedPvmCapability> = Vec::new();
    let n = v.len();
    let mut i: usize = 0;
    while i < n
        invariant
            n == v@.len(),
            i <= n,
            r@.len() == i,
            forall|j: int| 0 <= j < i ==> (#[trigger] r@[j])@ == v@[j]@,
        decreases n - i,
    {
        r.push(v[i].clone());
        i = i + 1;
    }
    assert(lane_views(r@) =~= lane_views(v@));
    r
}

impl Clone for HostedNodeCapabilities {
    fn clone(&self) -> (r: Self)
        ensures
            r@ == self@,
    {
        let providers = self.providers.clone();
        let platforms = self.platforms.clone();
        let substrates = self.substrates.clone();
        let architectures = self.architectures.clone();
        let protection_modes = self.protection_modes.clone();
        assert(providers@ =~= self.providers@);
        assert(platforms@ =~= self.platforms@);
        assert(substrates@ =~= self.substrates@);
        assert(architectures@ =~= self.architectures@);
        assert(protection_modes@ =~= self.protection_modes@);
        HostedNodeCapabilities {
            providers,
            platforms,
            substrates,
            architectures,
            protection_modes,
            pvm_lanes: copy_lanes(&self.pvm_lanes),
        }
    }
}

impl Clone for HostedNodeContract {
    fn clone(&self) -> (r: Self)
        ensures
            r@ == self@,
    {
        HostedNodeContract {
            host: self.host.clone(),
            runtime_root: self.runtime_root.clone(),
            control_plane: self.control_plane.clone(),
            inventory_owner: self.inventory_owner,
            lifecycle_owner: self.lifecycle_owner,
            capabilities: self.capabilities.clone(),
            notes: copy_strings(&self.notes),
        }
    }
}

impl Clone for HostedAuthTokenSource {
    fn clone(&self) -> (r: Self)
        ensures
            r == *self,
    {
        match self {
            HostedAuthTokenSource::Env { variable } => HostedAuthTokenSource::Env {
                variable: variable.clone(),
            },
        }
    }
}

impl Clone for HostedAuthTokenContract {
    fn clone(&self) -> (r: Self)
        ensures
            r == *self,
    {
        HostedAuthTokenContract {
            scheme: self.scheme,
            header: self.header.clone(),
            source: self.source.clone(),
        }
    }
}

impl Clone for HostedRegisteredNodeContract {
    fn clone(&self) -> (r: Self)
        ensures
            r@ == self@,
    {
        HostedRegisteredNodeContract {
            node_name: self.node_name.clone(),
            endpoint: self.endpoint.clone(),
            freshness: self.freshness,
            node: self.node.clone(),
            host_groups: copy_strings(&self.host_groups),
        }
    }
}

} // verus!
