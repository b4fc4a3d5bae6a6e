//! The machine control contract each host connection implies.
use vstd::prelude::*;

use crate::model::{
    HostConnection, MachineCommandRoute, MachineControlContract, MachineGuestBroker,
    MachineInventoryOwner, MachineInventoryScope, MachineLifecycleOwner, MachineStatusSource,
};

verus! {

/// Every verb of a contract takes `route`.
pub open spec fn all_routes(c: MachineControlContract, route: MachineCommandRoute) -> bool {
    &&& c.launch_route == route
    &&& c.inventory_route == route
    &&& c.status_route == route
    &&& c.stop_route == route
    &&& c.monitor_route == route
    &&& c.top_route == route
    &&& c.service_route == route
    &&& c.guest_route == route
}

/// The contract of a machine on a local host: the local runtime root owns everything.
pub open spec fn local_contract() -> MachineControlContract {
    MachineControlContract {
        inventory_scope: MachineInventoryScope::LocalRuntimeRoot,
        inventory_owner: MachineInventoryOwner::LocalRuntimeRoot,
        lifecycle_owner: MachineLifecycleOwner::LocalPortRuntime,
        guest_broker: MachineGuestBroker::LocalRuntimeTransport,
        status_source: MachineStatusSource::RuntimeManifestAndHostProcess,
        launch_route: MachineCommandRoute::DirectLocalRuntime,
        inventory_route: MachineCommandRoute::DirectLocalRuntime,
        status_route: MachineCommandRoute::DirectLocalRuntime,
        stop_route: MachineCommandRoute::DirectLocalRuntime,
        monitor_route: MachineCommandRoute::DirectLocalRuntime,
        top_route: MachineCommandRoute::DirectLocalRuntime,
        service_route: MachineCommandRoute::DirectLocalRuntime,
        guest_route: MachineCommandRoute::DirectLocalRuntime,
    }
}

/// The contract of a machine behind a hosted control plane: the control plane
/// owns inventory and the node agent owns lifecycle and guest traffic.
pub open spec fn hosted_contract() -> MachineControlContract {
    MachineControlContract {
        inventory_scope: MachineInventoryScope::HostedFleet,
        inventory_owner: MachineInventoryOwner::HostedControlPlane,
        lifecycle_owner: MachineLifecycleOwner::HostedNodeAgent,
        guest_broker: MachineGuestBroker::ControlPlaneNodeAgentTunnel,
        status_source: MachineStatusSource::ControlPlaneInventoryAndNodeAgentRuntime,
        launch_route: MachineCommandRoute::HostedControlPlane,
        inventory_route: MachineCommandRoute::HostedControlPlane,
        status_route: MachineCommandRoute::HostedControlPlane,
        stop_route: MachineCommandRoute::HostedControlPlane,
        monitor_route: MachineCommandRoute::HostedControlPlane,
        top_route: MachineCommandRoute::HostedControlPlane,
        service_route: MachineCommandRoute::HostedControlPlane,
        guest_route: MachineCommandRoute::HostedControlPlane,
    }
}

/// The contract of a machine on an ssh-managed host: the remote runtime owns everything.
pub open spec fn ssh_contract() -> MachineControlContract {
    MachineControlContract {
        inventory_scope: MachineInventoryScope::SshRuntimeRoot,
        inventory_owner: MachineInventoryOwner::SshRemoteRuntime,
        lifecycle_owner: MachineLifecycleOwner::SshRemotePortRuntime,
        guest_broker: MachineGuestBroker::SshRemoteRuntimeTransport,
        status_source: MachineStatusSource::SshRuntimeManifestAndHostProcess,
        launch_route: MachineCommandRoute::SshManagedRemote,
        inventory_route: MachineCommandRoute::SshManagedRemote,
        status_route: MachineCommandRoute::SshManagedRemote,
        stop_route: MachineCommandRoute::SshManagedRemote,
        monitor_route: MachineCommandRoute::SshManagedRemote,
        top_route: MachineCommandRoute::SshManagedRemote,
        service_route: MachineCommandRoute::SshManagedRemote,
        guest_route: MachineCommandRoute::SshManagedRemote,
    }
}

/// The contract a host connection implies.
pub open spec fn contract_for(connection: HostConnection) -> MachineControlContract {
    match connection {
        HostConnection::Local => local_contract(),
        HostConnection::HostedControlPlane { .. } => hosted_contract(),
        HostConnection::Ssh { .. } => ssh_contract(),
    }
}

impl MachineControlContract {
    pub fn for_connection(connection: &HostConnection) -> (r: Self)
        ensures
            r == contract_for(*connection),
    {
        match connection {
            HostConnection::Local => Self::local_runtime_root(),
            HostConnection::HostedControlPlane { .. } => Self::hosted_control_plane(),
            HostConnection::Ssh { .. } => Self::ssh_managed_remote(),
        }
    }

    pub fn local_runtime_root() -> (r: Self)
        ensures
            r == local_contract(),
    {
        MachineControlContract {
            inventory_scope: MachineInventoryScope::LocalRuntimeRoot,
            inventory_owner: MachineInventoryOwner::LocalRuntimeRoot,
            lifecycle_owner: MachineLifecycleOwner::LocalPortRuntime,
            guest_broker: MachineGuestBroker::LocalRuntimeTransport,
            status_source: MachineStatusSource::RuntimeManifestAndHostProcess,
            launch_route: MachineCommandRoute::DirectLocalRuntime,
            inventory_route: MachineCommandRoute::DirectLocalRuntime,
            status_route: MachineCommandRoute::DirectLocalRuntime,
            stop_route: MachineCommandRoute::DirectLocalRuntime,
            monitor_route: MachineCommandRoute::DirectLocalRuntime,
            top_route: MachineCommandRoute::DirectLocalRuntime,
            service_route: MachineCommandRoute::DirectLocalRuntime,
            guest_route: MachineCommandRoute::DirectLocalRuntime,
        }
    }

    pub fn hosted_control_plane() -> (r: Self)
        ensures
            r == hosted_contract(),
    {
        MachineControlContract {
            inventory_scope: MachineInventoryScope::HostedFleet,
            inventory_owner: MachineInventoryOwner::HostedControlPlane,
            lifecycle_owner: MachineLifecycleOwner::HostedNodeAgent,
            guest_broker: MachineGuestBroker::ControlPlaneNodeAgentTunnel,
            status_source: MachineStatusSource::ControlPlaneInventoryAndNodeAgentRuntime,
            launch_route: MachineCommandRoute::HostedControlPlane,
            inventory_route: MachineCommandRoute::HostedControlPlane,
            status_route: MachineCommandRoute::HostedControlPlane,
            stop_route: MachineCommandRoute::HostedControlPlane,
            monitor_route: MachineCommandRoute::HostedControlPlane,
            top_route: MachineCommandRoute::HostedControlPlane,
            service_route: MachineCommandRoute::HostedControlPlane,
            guest_route: MachineCommandRoute::HostedControlPlane,
        }
    }

    pub fn ssh_managed_remote() -> (r: Self)
        ensures
            r == ssh_contract(),
    {
        MachineControlContract {
            inventory_scope: MachineInventoryScope::SshRuntimeRoot,
            inventory_owner: MachineInventoryOwner::SshRemoteRuntime,
            lifecycle_owner: MachineLifecycleOwner::SshRemotePortRuntime,
            guest_broker: MachineGuestBroker::SshRemoteRuntimeTransport,
            status_source: MachineStatusSource::SshRuntimeManifestAndHostProcess,
            launch_route: MachineCommandRoute::SshManagedRemote,
            inventory_route: MachineCommandRoute::SshManagedRemote,
            status_route: MachineCommandRoute::SshManagedRemote,
            stop_route: MachineCommandRoute::SshManagedRemote,
            monitor_route: MachineCommandRoute::SshManagedRemote,
            top_route: MachineCommandRoute::SshManagedRemote,
            service_route: MachineCommandRoute::SshManagedRemote,
            guest_route: MachineCommandRoute::SshManagedRemote,
        }
    }
}

/// Each connection kind routes every verb one way: locally, through the
/// hosted control plane, or through the ssh-managed remote runtime.
pub proof fn lemma_contract_routes_uniform(connection: HostConnection)
    ensures
        all_routes(contract_for(connection), contract_for(connection).launch_route),
        connection is Local ==> contract_for(connection).launch_route
            == MachineCommandRoute::DirectLocalRuntime,
        connection is HostedControlPlane ==> contract_for(connection).launch_route
            == MachineCommandRoute::HostedControlPlane,
        connection is Ssh ==> contract_for(connection).launch_route
            == MachineCommandRoute::SshManagedRemote,
{
}

} // verus!
