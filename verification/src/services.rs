//! Service policies, network and cluster defaults, and the K3s topology and
//! version labels.
use vstd::prelude::*;

use crate::model::{
    ServiceRestartPolicy, ServiceHealthPolicy, ServiceHealthState, ServiceHealthcheck,
    ServicePolicy, ServiceKind, MachineNetworkSpec, HostedSchedulerPolicy, K3sClusterSpec,
    HostedK3sHaTopologyPosture, HOSTED_K3S_REAL_HA_MIN_CONTROL_PLANES,
};
use crate::text::views;

verus! {

impl Default for ServiceRestartPolicy {
    fn default() -> (r: Self)
        ensures
            r == ServiceRestartPolicy::Never,
    {
        ServiceRestartPolicy::Never
    }
}

impl Default for ServiceHealthPolicy {
    fn default() -> (r: Self)
        ensures
            r == ServiceHealthPolicy::NoCheck,
    {
        ServiceHealthPolicy::NoCheck
    }
}

impl Default for ServiceHealthState {
    fn default() -> (r: Self)
        ensures
            r == ServiceHealthState::Unknown,
    {
        ServiceHealthState::Unknown
    }
}

impl Default for ServiceHealthcheck {
    fn default() -> (r: Self)
        ensures
            r.policy == ServiceHealthPolicy::NoCheck,
            r.command@.len() == 0,
    {
        ServiceHealthcheck { policy: ServiceHealthPolicy::NoCheck, command: Vec::new() }
    }
}

impl Default for ServicePolicy {
    fn default() -> (r: Self)
        ensures
            r.restart == ServiceRestartPolicy::Never,
            r.healthcheck.policy == ServiceHealthPolicy::NoCheck,
            r.healthcheck.command@.len() == 0,
    {
        ServicePolicy {
            restart: ServiceRestartPolicy::default(),
            healthcheck: ServiceHealthcheck::default(),
        }
    }
}

/// What a service policy allows for a kind of service: sandboxes never
/// restart and have no health check, and a health command goes with the
/// command health policy and with it only.
pub open spec fn service_policy_spec(policy: ServicePolicy, kind: ServiceKind) -> Result<(), Seq<char>> {
    if kind == ServiceKind::Sandbox && policy.restart != ServiceRestartPolicy::Never {
        Err("sandbox services only support restart policy 'never'"@)
    } else if kind == ServiceKind::Sandbox && policy.healthcheck.policy
        != ServiceHealthPolicy::NoCheck {
        Err("sandbox services only support health policy 'none'"@)
    } else if policy.healthcheck.policy == ServiceHealthPolicy::Command
        && policy.healthcheck.command@.len() == 0 {
        Err("health policy 'command' requires at least one health command token"@)
    } else if policy.healthcheck.policy == ServiceHealthPolicy::NoCheck
        && policy.healthcheck.command@.len() > 0 {
        Err("health command requires health policy 'command', not health policy 'none'"@)
    } else {
        Ok(())
    }
}

impl ServicePolicy {
    /// Whether the policy suits a service of the given kind, and why not.
    pub fn validate_for_kind(&self, kind: ServiceKind) -> (r: Result<(), String>)
        ensures
            match r {
                Ok(_) => service_policy_spec(*self, kind) is Ok,
                Err(e) => service_policy_spec(*self, kind) == Err::<(), Seq<char>>(e@),
            },
    {
        if kind == ServiceKind::Sandbox && self.restart != ServiceRestartPolicy::Never {
            return Err(String::from_str("sandbox services only support restart policy 'never'"));
        }
        if kind == ServiceKind::Sandbox && self.healthcheck.policy != ServiceHealthPolicy::NoCheck {
            return Err(String::from_str("sandbox services only support health policy 'none'"));
        }
        if self.healthcheck.policy == ServiceHealthPolicy::Command
            && self.healthcheck.command.len() == 0 {
            return Err(
                String::from_str(
                    "health policy 'command' requires at least one health command token",
                ),
            );
        }
        if self.healthcheck.policy == ServiceHealthPolicy::NoCheck
            && self.healthcheck.command.len() > 0 {
            return Err(
                String::from_str(
                    "health command requires health policy 'command', not health policy 'none'",
                ),
            );
        }
        Ok(())
    }
}

/// The default policy suits every kind of service.
pub proof fn lemma_default_policy_suits_every_kind(policy: ServicePolicy, kind: ServiceKind)
    requires
        policy.restart == ServiceRestartPolicy::Never,
        policy.healthcheck.policy == ServiceHealthPolicy::NoCheck,
        policy.healthcheck.command@.len() == 0,
    ensures
        service_policy_spec(policy, kind) is Ok,
{
}

// ---------------------------------------------------------------------------
// Network defaults

pub fn default_network_enabled() -> (r: bool)
    ensures
        r,
{
    true
}

pub fn default_guest_ip() -> (r: String)
    ensures
        r@ == "172.16.0.2"@,
{
    String::from_str("172.16.0.2")
}

pub fn default_host_ip() -> (r: String)
    ensures
        r@ == "172.16.0.1"@,
{
    String::from_str("172.16.0.1")
}

pub fn default_network_prefix_len() -> (r: u8)
    ensures
        r == 24,
{
    24
}

pub fn default_guest_mac() -> (r: String)
    ensures
        r@ == "AA:FC:00:00:00:01"@,
{
    String::from_str("AA:FC:00:00:00:01")
}

pub fn default_dns_servers() -> (r: Vec<String>)
    ensures
        views(r@) == seq!["8.8.8.8"@, "8.8.4.4"@],
{
    let r = vec![String::from_str("8.8.8.8"), String::from_str("8.8.4.4")];
    assert(views(r@) =~= seq!["8.8.8.8"@, "8.8.4.4"@]);
    r
}

/// The network a machine gets when it names none: enabled, guest
/// 172.16.0.2 and host 172.16.0.1 on a /24, with Google's resolvers.
pub open spec fn is_default_network(n: MachineNetworkSpec) -> bool {
    &&& n.enabled
    &&& n.guest_ip@ == "172.16.0.2"@
    &&& n.host_ip@ == "172.16.0.1"@
    &&& n.prefix_len == 24
    &&& n.guest_mac@ == "AA:FC:00:00:00:01"@
    &&& views(n.dns_servers@) == seq!["8.8.8.8"@, "8.8.4.4"@]
}

impl Default for MachineNetworkSpec {
    fn default() -> (r: Self)
        ensures
            is_default_network(r),
    {
        MachineNetworkSpec {
            enabled: default_network_enabled(),
            guest_ip: default_guest_ip(),
            host_ip: default_host_ip(),
            prefix_len: default_network_prefix_len(),
            guest_mac: default_guest_mac(),
            dns_servers: default_dns_servers(),
        }
    }
}

// ---------------------------------------------------------------------------
// Cluster defaults and K3s

pub fn default_ssh_port() -> (r: u16)
    ensures
        r == 22,
{
    22
}

pub fn default_cluster_count() -> (r: u16)
    ensures
        r == 1,
{
    1
}

pub fn default_control_plane_scheduler() -> (r: HostedSchedulerPolicy)
    ensures
        r == HostedSchedulerPolicy::DeterministicFirstFit,
{
    HostedSchedulerPolicy::DeterministicFirstFit
}

pub fn control_plane_scheduler_is_default(policy: &HostedSchedulerPolicy) -> (r: bool)
    ensures
        r == (*policy == HostedSchedulerPolicy::DeterministicFirstFit),
{
    *policy == HostedSchedulerPolicy::DeterministicFirstFit
}

/// A K3s topology can be highly available with at least
/// `HOSTED_K3S_REAL_HA_MIN_CONTROL_PLANES` servers spread across nodes.
pub open spec fn ha_posture_spec(c: K3sClusterSpec) -> HostedK3sHaTopologyPosture {
    if c.server_machines@.len() >= HOSTED_K3S_REAL_HA_MIN_CONTROL_PLANES
        && c.control_plane_scheduler == HostedSchedulerPolicy::Spread {
        HostedK3sHaTopologyPosture::HaEligibleTopology
    } else {
        HostedK3sHaTopologyPosture::NonHaTopology
    }
}

impl K3sClusterSpec {
    /// Whether the cluster's control-plane topology can be highly available.
    pub fn ha_topology_posture(&self) -> (r: HostedK3sHaTopologyPosture)
        ensures
            r == ha_posture_spec(*self),
    {
        if self.server_machines.len() >= HOSTED_K3S_REAL_HA_MIN_CONTROL_PLANES
            && self.control_plane_scheduler == HostedSchedulerPolicy::Spread {
            HostedK3sHaTopologyPosture::HaEligibleTopology
        } else {
            HostedK3sHaTopologyPosture::NonHaTopology
        }
    }
}

/// The label shown for a K3s cluster without a version override.
pub const DEFAULT_K3S_VERSION_LABEL: &'static str = "default (packaged guest image)";

/// The version override, or the default label when there is none.
pub fn render_k3s_version_label(version: Option<&str>) -> (r: String)
    ensures
        r@ == match version {
            Some(v) => v@,
            None => "default (packaged guest image)"@,
        },
{
    match version {
        Some(v) => String::from_str(v),
        None => String::from_str(DEFAULT_K3S_VERSION_LABEL),
    }
}

} // verus!
