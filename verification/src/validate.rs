//! Validation of a configuration: every check that `PortConfig::validate`
//! runs, each stated as the first failure it reports.
use vstd::prelude::*;

use crate::checks::{Outcome, first_failure, lemma_first_failure_stable, outcome, fail2, fail3, fail5, fail6, fail7, followed_by};
use crate::model::{ValidationError, PortConfig, HostedNodeSpec, HostedPvmCapability, PvmCapabilityState, HostedNodeCapabilities, ProtectionMode, HostedHostGroupSpec, ArtifactStore, OciRegistryAuth, ArtifactSpec, ArtifactVariant, ArtifactSelector, FirecrackerPvmLaneContract, HostConnection, HostPlatform, HostSpec, HostedAuthTokenSource, HostedControlPlaneSpec, MachineArchitecture, PvmHostKit, PvmLaneDecision};
use crate::text::{is_blank, str_is_blank};
use crate::named_map::lookup;

verus! {

/// Whether some string in the list is blank.
pub open spec fn any_blank(v: Seq<String>) -> bool {
    exists|i: int| 0 <= i < v.len() && is_blank(#[trigger] v[i]@)
}

/// Whether `v.iter().any(|s| s.trim().is_empty())`.
pub fn vec_any_blank(v: &Vec<String>) -> (r: bool)
    ensures
        r == any_blank(v@),
{
    let n = v.len();
    let mut i: usize = 0;
    while i < n
        invariant
            n == v@.len(),
            i <= n,
            forall|j: int| 0 <= j < i ==> !is_blank(#[trigger] v@[j]@),
        decreases n - i,
    {
        if str_is_blank(v[i].as_str()) {
            return true;
        }
        i = i + 1;
    }
    false
}

// ---------------------------------------------------------------------------
// Control planes

pub open spec fn control_plane_check(name: Seq<char>, cp: HostedControlPlaneSpec) -> Outcome {
    if is_blank(cp.endpoint@) {
        Err("control plane '"@ + name + "' must declare a non-empty endpoint"@)
    } else if is_blank(cp.audience@) {
        Err("control plane '"@ + name + "' must declare a non-empty audience"@)
    } else if is_blank(cp.auth.header@) {
        Err("control plane '"@ + name + "' must declare a non-empty auth header"@)
    } else {
        match cp.auth.source {
            HostedAuthTokenSource::Env { variable } => if is_blank(variable@) {
                Err(
                    "control plane '"@ + name
                        + "' must declare a non-empty token environment variable"@,
                )
            } else {
                Ok(())
            },
        }
    }
}

pub fn validate_hosted_control_plane(name: &str, cp: &HostedControlPlaneSpec) -> (r: Result<
    (),
    ValidationError,
>)
    ensures
        outcome(r) == control_plane_check(name@, *cp),
{
    if str_is_blank(cp.endpoint.as_str()) {
        return Err(fail3("control plane '", name, "' must declare a non-empty endpoint"));
    }
    if str_is_blank(cp.audience.as_str()) {
        return Err(fail3("control plane '", name, "' must declare a non-empty audience"));
    }
    if str_is_blank(cp.auth.header.as_str()) {
        return Err(fail3("control plane '", name, "' must declare a non-empty auth header"));
    }
    match &cp.auth.source {
        HostedAuthTokenSource::Env { variable } => {
            if str_is_blank(variable.as_str()) {
                return Err(
                    fail3(
                        "control plane '",
                        name,
                        "' must declare a non-empty token environment variable",
                    ),
                );
            }
        },
    }
    Ok(())
}

// ---------------------------------------------------------------------------
// PVM host kits and lanes

pub open spec fn host_kit_check(
    context: Seq<char>,
    expected: MachineArchitecture,
    kit: PvmHostKit,
) -> Outcome {
    if is_blank(kit.package.name@) {
        Err(context + " must declare a non-empty host-kit package name"@)
    } else if is_blank(kit.package.version@) {
        Err(context + " must declare a non-empty host-kit package version"@)
    } else if is_blank(kit.package.host_kernel_release@) {
        Err(context + " must declare a non-empty host-kernel release in the host-kit package"@)
    } else if is_blank(kit.package.firecracker_build@) {
        Err(context + " must declare a non-empty Firecracker build in the host-kit package"@)
    } else if kit.host_platform != HostPlatform::Linux {
        Err(context + " must target host platform 'linux' for Firecracker/PVM"@)
    } else if kit.host_architecture != expected {
        Err(
            context + " must target host architecture '"@ + expected.debug_name_text() + "', not '"@
                + kit.host_architecture.debug_name_text() + "'"@,
        )
    } else if is_blank(kit.firecracker_binary_name@) {
        Err(
            context
                + " must declare a non-empty firecracker binary name in the host-kit contract"@,
        )
    } else if kit.firecracker_binary_env matches Some(env) && is_blank(env@) {
        Err(
            context
                + " must declare a non-empty firecracker binary environment variable in the host-kit contract when firecracker_binary_env is set"@,
        )
    } else if any_blank(kit.host_boot_args@) {
        Err(context + " host-kit contract must not contain empty host boot arguments"@)
    } else if kit.requires_custom_host_kernel && kit.host_boot_args@.len() == 0 {
        Err(
            context
                + " host-kit contract must declare at least one host boot argument for the custom host kernel"@,
        )
    } else {
        Ok(())
    }
}

pub fn validate_pvm_host_kit(
    context: &str,
    expected: MachineArchitecture,
    kit: &PvmHostKit,
) -> (r: Result<(), ValidationError>)
    ensures
        outcome(r) == host_kit_check(context@, expected, *kit),
{
    if str_is_blank(kit.package.name.as_str()) {
        return Err(fail2(context, " must declare a non-empty host-kit package name"));
    }
    if str_is_blank(kit.package.version.as_str()) {
        return Err(fail2(context, " must declare a non-empty host-kit package version"));
    }
    if str_is_blank(kit.package.host_kernel_release.as_str()) {
        return Err(
            fail2(context, " must declare a non-empty host-kernel release in the host-kit package"),
        );
    }
    if str_is_blank(kit.package.firecracker_build.as_str()) {
        return Err(
            fail2(context, " must declare a non-empty Firecracker build in the host-kit package"),
        );
    }
    if kit.host_platform != HostPlatform::Linux {
        return Err(fail2(context, " must target host platform 'linux' for Firecracker/PVM"));
    }
    if kit.host_architecture != expected {
        return Err(
            fail6(
                context,
                " must target host architecture '",
                expected.debug_name(),
                "', not '",
                kit.host_architecture.debug_name(),
                "'",
            ),
        );
    }
    if str_is_blank(kit.firecracker_binary_name.as_str()) {
        return Err(
            fail2(context, " must declare a non-empty firecracker binary name in the host-kit contract"),
        );
    }
    match &kit.firecracker_binary_env {
        Some(env) => {
            if str_is_blank(env.as_str()) {
                return Err(
                    fail2(context, " must declare a non-empty firecracker binary environment variable in the host-kit contract when firecracker_binary_env is set"),
                );
            }
        },
        None => {},
    }
    if vec_any_blank(&kit.host_boot_args) {
        return Err(
            fail2(context, " host-kit contract must not contain empty host boot arguments"),
        );
    }
    if kit.requires_custom_host_kernel && kit.host_boot_args.len() == 0 {
        return Err(
            fail2(context, " host-kit contract must declare at least one host boot argument for the custom host kernel"),
        );
    }
    Ok(())
}

pub open spec fn firecracker_lane_check(host_name: Seq<char>, lane: FirecrackerPvmLaneContract) -> Outcome {
    match lane.decision {
        PvmLaneDecision::Planned => match lane.host_kit {
            None => Err(
                "host '"@ + host_name + "' planned PVM lane '"@ + lane.architecture.debug_name_text()
                    + "' must declare a host-kit contract"@,
            ),
            Some(kit) => host_kit_check(
                "host '"@ + host_name + "' PVM lane '"@ + lane.architecture.debug_name_text() + "'"@,
                lane.architecture,
                kit,
            ),
        },
        PvmLaneDecision::ResearchOnly => if lane.host_kit is Some {
            Err(
                "host '"@ + host_name + "' research-only PVM lane '"@
                    + lane.architecture.debug_name_text()
                    + "' must not declare a host-kit contract"@,
            )
        } else {
            Ok(())
        },
    }
}

pub fn validate_firecracker_pvm_lane(host_name: &str, lane: &FirecrackerPvmLaneContract) -> (r:
    Result<(), ValidationError>)
    ensures
        outcome(r) == firecracker_lane_check(host_name@, *lane),
{
    match lane.decision {
        PvmLaneDecision::Planned => match &lane.host_kit {
            None => Err(
                fail5(
                    "host '",
                    host_name,
                    "' planned PVM lane '",
                    lane.architecture.debug_name(),
                    "' must declare a host-kit contract",
                ),
            ),
            Some(kit) => {
                let context = crate::checks::cat5(
                    "host '",
                    host_name,
                    "' PVM lane '",
                    lane.architecture.debug_name(),
                    "'",
                );
                validate_pvm_host_kit(context.as_str(), lane.architecture, kit)
            },
        },
        PvmLaneDecision::ResearchOnly => {
            if lane.host_kit.is_some() {
                Err(
                    fail5(
                        "host '",
                        host_name,
                        "' research-only PVM lane '",
                        lane.architecture.debug_name(),
                        "' must not declare a host-kit contract",
                    ),
                )
            } else {
                Ok(())
            }
        },
    }
}

// ---------------------------------------------------------------------------
// Hosts

pub open spec fn host_connection_check(name: Seq<char>, connection: HostConnection) -> Outcome {
    match connection {
        HostConnection::Local => Ok(()),
        HostConnection::HostedControlPlane { control_plane } => if is_blank(control_plane@) {
            Err("host '"@ + name + "' must declare a non-empty hosted control plane name"@)
        } else {
            Ok(())
        },
        HostConnection::Ssh { destination, user, port } => if is_blank(destination@) {
            Err("host '"@ + name + "' ssh connection must declare a non-empty destination"@)
        } else if is_blank(user@) {
            Err("host '"@ + name + "' ssh connection must declare a non-empty user"@)
        } else if port == 0 {
            Err("host '"@ + name + "' ssh connection must declare a non-zero port"@)
        } else {
            Ok(())
        },
    }
}

pub open spec fn host_check(name: Seq<char>, host: HostSpec) -> Outcome {
    followed_by(
        first_failure(
            host.firecracker.pvm_lanes@.len() as int,
            |i: int| firecracker_lane_check(name, host.firecracker.pvm_lanes@[i]),
        ),
        host_connection_check(name, host.connection),
    )
}

pub fn validate_host(name: &str, host: &HostSpec) -> (r: Result<(), ValidationError>)
    ensures
        outcome(r) == host_check(name@, *host),
{
    let ghost check = |i: int| firecracker_lane_check(name@, host.firecracker.pvm_lanes@[i]);
    let n = host.firecracker.pvm_lanes.len();
    let mut i: usize = 0;
    while i < n
        invariant
            n == host.firecracker.pvm_lanes@.len(),
            i <= n,
            check == (|i: int| firecracker_lane_check(name@, host.firecracker.pvm_lanes@[i])),
            first_failure(i as int, check) is Ok,
        decreases n - i,
    {
        let lane_result = validate_firecracker_pvm_lane(name, &host.firecracker.pvm_lanes[i]);
        if lane_result.is_err() {
            proof {
                lemma_first_failure_stable(i + 1, n as int, check);
            }
            return lane_result;
        }
        i = i + 1;
    }
    match &host.connection {
        HostConnection::Local => {},
        HostConnection::HostedControlPlane { control_plane } => {
            if str_is_blank(control_plane.as_str()) {
                return Err(
                    fail3("host '", name, "' must declare a non-empty hosted control plane name"),
                );
            }
        },
        HostConnection::Ssh { destination, user, port } => {
            if str_is_blank(destination.as_str()) {
                return Err(
                    fail3("host '", name, "' ssh connection must declare a non-empty destination"),
                );
            }
            if str_is_blank(user.as_str()) {
                return Err(fail3("host '", name, "' ssh connection must declare a non-empty user"));
            }
            if *port == 0 {
                return Err(fail3("host '", name, "' ssh connection must declare a non-zero port"));
            }
        },
    }
    Ok(())
}


// ---------------------------------------------------------------------------
// Hosted nodes

pub open spec fn node_pvm_capability_check(node_name: Seq<char>, lane: HostedPvmCapability) -> Outcome {
    let arch = lane.architecture.debug_name_text();
    match lane.state {
        PvmCapabilityState::Ready => match lane.host_kit {
            None => Err(
                "node '"@ + node_name + "' ready PVM lane '"@ + arch
                    + "' must declare a host-kit contract"@,
            ),
            Some(kit) => host_kit_check(
                "node '"@ + node_name + "' ready PVM lane '"@ + arch + "'"@,
                lane.architecture,
                kit,
            ),
        },
        PvmCapabilityState::Planned => match lane.host_kit {
            None => Ok(()),
            Some(kit) => host_kit_check(
                "node '"@ + node_name + "' planned PVM lane '"@ + arch + "'"@,
                lane.architecture,
                kit,
            ),
        },
        PvmCapabilityState::ResearchOnly => if lane.host_kit is Some {
            Err(
                "node '"@ + node_name + "' research-only PVM lane '"@ + arch
                    + "' must not declare a host-kit contract"@,
            )
        } else {
            Ok(())
        },
    }
}

pub fn validate_hosted_pvm_capability(node_name: &str, lane: &HostedPvmCapability) -> (r: Result<
    (),
    ValidationError,
>)
    ensures
        outcome(r) == node_pvm_capability_check(node_name@, *lane),
{
    let arch = lane.architecture.debug_name();
    match lane.state {
        PvmCapabilityState::Ready => match &lane.host_kit {
            None => Err(
                fail5(
                    "node '",
                    node_name,
                    "' ready PVM lane '",
                    arch,
                    "' must declare a host-kit contract",
                ),
            ),
            Some(kit) => {
                let context = crate::checks::cat5("node '", node_name, "' ready PVM lane '", arch, "'");
                validate_pvm_host_kit(context.as_str(), lane.architecture, kit)
            },
        },
        PvmCapabilityState::Planned => match &lane.host_kit {
            None => Ok(()),
            Some(kit) => {
                let context = crate::checks::cat5(
                    "node '",
                    node_name,
                    "' planned PVM lane '",
                    arch,
                    "'",
                );
                validate_pvm_host_kit(context.as_str(), lane.architecture, kit)
            },
        },
        PvmCapabilityState::ResearchOnly => {
            if lane.host_kit.is_some() {
                Err(
                    fail5(
                        "node '",
                        node_name,
                        "' research-only PVM lane '",
                        arch,
                        "' must not declare a host-kit contract",
                    ),
                )
            } else {
                Ok(())
            }
        },
    }
}

pub open spec fn node_lane_check(
    node_name: Seq<char>,
    caps: HostedNodeCapabilities,
    lane: HostedPvmCapability,
) -> Outcome {
    if lane.state != PvmCapabilityState::ResearchOnly && lane.architecture
        != MachineArchitecture::X86_64 {
        Err(
            "node '"@ + node_name + "' cannot declare a non-research PVM lane for architecture '"@
                + lane.architecture.debug_name_text() + "'"@,
        )
    } else if !caps.architectures@.contains(lane.architecture) {
        Err(
            "node '"@ + node_name + "' declares PVM lane '"@ + lane.architecture.debug_name_text()
                + "' without advertising that architecture in capabilities.architectures"@,
        )
    } else {
        node_pvm_capability_check(node_name, lane)
    }
}

/// Whether a node advertises a PVM lane that is ready or planned.
pub open spec fn has_non_research_lane(caps: HostedNodeCapabilities) -> bool {
    exists|i: int|
        0 <= i < caps.pvm_lanes@.len() && (#[trigger] caps.pvm_lanes@[i]).state
            != PvmCapabilityState::ResearchOnly
}

pub open spec fn capabilities_empty(caps: HostedNodeCapabilities) -> bool {
    ||| caps.providers@.len() == 0
    ||| caps.platforms@.len() == 0
    ||| caps.substrates@.len() == 0
    ||| caps.architectures@.len() == 0
    ||| caps.protection_modes@.len() == 0
}

pub open spec fn node_check(cfg: PortConfig, node_name: Seq<char>, node: HostedNodeSpec) -> Outcome {
    match lookup(cfg.hosts@, node.host@) {
        None => Err("node '"@ + node_name + "' references unknown host '"@ + node.host@ + "'"@),
        Some(host) => match host.connection {
            HostConnection::Local => Err(
                "node '"@ + node_name + "' references local host '"@ + node.host@
                    + "' but hosted nodes must resolve through a hosted control plane"@,
            ),
            HostConnection::Ssh { .. } => Err(
                "node '"@ + node_name + "' references ssh-managed host '"@ + node.host@
                    + "' but hosted nodes must resolve through a hosted control plane"@,
            ),
            HostConnection::HostedControlPlane { .. } => if node.runtime_root@.len() == 0 {
                Err("node '"@ + node_name + "' must declare a non-empty runtime_root"@)
            } else if capabilities_empty(node.capabilities) {
                Err(
                    "node '"@ + node_name
                        + "' must declare non-empty provider, platform, substrate, architecture, and protection-mode capabilities"@,
                )
            } else {
                node_lanes_check(node_name, node.capabilities)
            },
        },
    }
}

/// The checks on a node's PVM lanes, in order, then the check that a node
/// with a live lane advertises protection mode 'pvm'.
pub open spec fn node_lanes_check(node_name: Seq<char>, caps: HostedNodeCapabilities) -> Outcome {
    followed_by(
        first_failure(
            caps.pvm_lanes@.len() as int,
            |i: int| node_lane_check(node_name, caps, caps.pvm_lanes@[i]),
        ),
        if has_non_research_lane(caps) && !caps.protection_modes@.contains(ProtectionMode::Pvm) {
            Err(
                "node '"@ + node_name
                    + "' declares a PVM-ready or planned lane but does not advertise protection mode 'pvm'"@,
            )
        } else {
            Ok(())
        },
    )
}

pub fn validate_hosted_node(config: &PortConfig, node_name: &str, node: &HostedNodeSpec) -> (r:
    Result<(), ValidationError>)
    ensures
        outcome(r) == node_check(*config, node_name@, *node),
{
    let host = match config.hosts.get(node.host.as_str()) {
        Some(host) => host,
        None => {
            return Err(
                fail5("node '", node_name, "' references unknown host '", node.host.as_str(), "'"),
            );
        },
    };
    match &host.connection {
        HostConnection::Local => {
            return Err(
                fail5(
                    "node '",
                    node_name,
                    "' references local host '",
                    node.host.as_str(),
                    "' but hosted nodes must resolve through a hosted control plane",
                ),
            );
        },
        HostConnection::HostedControlPlane { .. } => {},
        HostConnection::Ssh { .. } => {
            return Err(
                fail5(
                    "node '",
                    node_name,
                    "' references ssh-managed host '",
                    node.host.as_str(),
                    "' but hosted nodes must resolve through a hosted control plane",
                ),
            );
        },
    }
    if node.runtime_root.unicode_len() == 0 {
        return Err(fail3("node '", node_name, "' must declare a non-empty runtime_root"));
    }
    let caps = &node.capabilities;
    if caps.providers.len() == 0 || caps.platforms.len() == 0 || caps.substrates.len() == 0
        || caps.architectures.len() == 0 || caps.protection_modes.len() == 0 {
        return Err(
            fail3(
                "node '",
                node_name,
                "' must declare non-empty provider, platform, substrate, architecture, and protection-mode capabilities",
            ),
        );
    }
    let ghost check = |i: int| node_lane_check(node_name@, *caps, caps.pvm_lanes@[i]);
    let n = caps.pvm_lanes.len();
    let mut any_live = false;
    let mut i: usize = 0;
    while i < n
        invariant
            n == caps.pvm_lanes@.len(),
            i <= n,
            check == (|i: int| node_lane_check(node_name@, *caps, caps.pvm_lanes@[i])),
            first_failure(i as int, check) is Ok,
            node_check(*config, node_name@, *node) == node_lanes_check(node_name@, *caps),
            any_live == exists|j: int|
                0 <= j < i && (#[trigger] caps.pvm_lanes@[j]).state
                    != PvmCapabilityState::ResearchOnly,
        decreases n - i,
    {
        let lane = &caps.pvm_lanes[i];
        assert(check(i as int) == node_lane_check(node_name@, *caps, *lane));
        if lane.state != PvmCapabilityState::ResearchOnly && lane.architecture
            != MachineArchitecture::X86_64 {
            proof {
                assert(check(i as int) is Err);
                lemma_first_failure_stable(i + 1, n as int, check);
            }
            return Err(
                fail5(
                    "node '",
                    node_name,
                    "' cannot declare a non-research PVM lane for architecture '",
                    lane.architecture.debug_name(),
                    "'",
                ),
            );
        }
        if !lane.architecture.is_in(&caps.architectures) {
            proof {
                assert(check(i as int) is Err);
                lemma_first_failure_stable(i + 1, n as int, check);
            }
            return Err(
                fail5(
                    "node '",
                    node_name,
                    "' declares PVM lane '",
                    lane.architecture.debug_name(),
                    "' without advertising that architecture in capabilities.architectures",
                ),
            );
        }
        let lane_result = validate_hosted_pvm_capability(node_name, lane);
        if lane_result.is_err() {
            proof {
                lemma_first_failure_stable(i + 1, n as int, check);
            }
            return lane_result;
        }
        if lane.state != PvmCapabilityState::ResearchOnly {
            any_live = true;
        }
        i = i + 1;
    }
    if any_live && !ProtectionMode::Pvm.is_in(&caps.protection_modes) {
        return Err(
            fail3(
                "node '",
                node_name,
                "' declares a PVM-ready or planned lane but does not advertise protection mode 'pvm'",
            ),
        );
    }
    Ok(())
}

// ---------------------------------------------------------------------------
// Host groups

/// The control plane that a host group member resolves through, or why it does not.
pub open spec fn group_member_control_plane(
    cfg: PortConfig,
    group_name: Seq<char>,
    node_name: Seq<char>,
) -> Result<Seq<char>, Seq<char>> {
    match lookup(cfg.nodes@, node_name) {
        None => Err(
            "host group '"@ + group_name + "' references unknown node '"@ + node_name + "'"@,
        ),
        Some(node) => match lookup(cfg.hosts@, node.host@) {
            None => Err(
                "node '"@ + node_name + "' references unknown host '"@ + node.host@ + "'"@,
            ),
            Some(host) => match host.connection {
                HostConnection::Local => Err(
                    "host group '"@ + group_name + "' references node '"@ + node_name
                        + "' on local host '"@ + node.host@ + "'"@,
                ),
                HostConnection::Ssh { .. } => Err(
                    "host group '"@ + group_name + "' references node '"@ + node_name
                        + "' on ssh-managed host '"@ + node.host@ + "'"@,
                ),
                HostConnection::HostedControlPlane { control_plane } => Ok(control_plane@),
            },
        },
    }
}

pub open spec fn group_member_check(cfg: PortConfig, group_name: Seq<char>, group: HostedHostGroupSpec, i: int) -> Outcome {
    match group_member_control_plane(cfg, group_name, group.nodes@[i]@) {
        Err(e) => Err(e),
        Ok(cp) => match group_member_control_plane(cfg, group_name, group.nodes@[0]@) {
            Ok(first) => if i > 0 && first != cp {
                Err(
                    "host group '"@ + group_name + "' mixes nodes from control planes '"@ + first
                        + "' and '"@ + cp + "'"@,
                )
            } else {
                Ok(())
            },
            Err(_) => Ok(()),
        },
    }
}

pub open spec fn group_check(cfg: PortConfig, group_name: Seq<char>, group: HostedHostGroupSpec) -> Outcome {
    if group.nodes@.len() == 0 {
        Err("host group '"@ + group_name + "' must declare at least one node"@)
    } else {
        first_failure(group.nodes@.len() as int, |i: int| group_member_check(cfg, group_name, group, i))
    }
}

/// The control plane a member resolves through, or the failure that says why it does not.
pub fn resolve_group_member<'a>(config: &'a PortConfig, group_name: &str, node_name: &str) -> (r: Result<
    &'a String,
    ValidationError,
>)
    ensures
        match r {
            Ok(cp) => group_member_control_plane(*config, group_name@, node_name@) == Ok::<
                Seq<char>,
                Seq<char>,
            >(cp@),
            Err(e) => group_member_control_plane(*config, group_name@, node_name@) == Err::<
                Seq<char>,
                Seq<char>,
            >(e@),
        },
{
    let node = match config.nodes.get(node_name) {
        Some(node) => node,
        None => {
            return Err(
                fail5("host group '", group_name, "' references unknown node '", node_name, "'"),
            );
        },
    };
    let host = match config.hosts.get(node.host.as_str()) {
        Some(host) => host,
        None => {
            return Err(
                fail5("node '", node_name, "' references unknown host '", node.host.as_str(), "'"),
            );
        },
    };
    match &host.connection {
        HostConnection::Local => Err(
            fail7(
                "host group '",
                group_name,
                "' references node '",
                node_name,
                "' on local host '",
                node.host.as_str(),
                "'",
            ),
        ),
        HostConnection::Ssh { .. } => Err(
            fail7(
                "host group '",
                group_name,
                "' references node '",
                node_name,
                "' on ssh-managed host '",
                node.host.as_str(),
                "'",
            ),
        ),
        HostConnection::HostedControlPlane { control_plane } => Ok(control_plane),
    }
}

pub fn validate_hosted_host_group(
    config: &PortConfig,
    group_name: &str,
    group: &HostedHostGroupSpec,
) -> (r: Result<(), ValidationError>)
    ensures
        outcome(r) == group_check(*config, group_name@, *group),
{
    let n = group.nodes.len();
    if n == 0 {
        return Err(fail3("host group '", group_name, "' must declare at least one node"));
    }
    let ghost check = |i: int| group_member_check(*config, group_name@, *group, i);
    let mut first: Option<&String> = None;
    let mut i: usize = 0;
    while i < n
        invariant
            n == group.nodes@.len(),
            n > 0,
            i <= n,
            check == (|i: int| group_member_check(*config, group_name@, *group, i)),
            first_failure(i as int, check) is Ok,
            (i > 0) == (first is Some),
            i > 0 ==> (first matches Some(cp) && group_member_control_plane(
                *config,
                group_name@,
                group.nodes@[0]@,
            ) == Ok::<Seq<char>, Seq<char>>(cp@)),
        decreases n - i,
    {
        let cp = match resolve_group_member(config, group_name, group.nodes[i].as_str()) {
            Ok(cp) => cp,
            Err(e) => {
                proof {
                    lemma_first_failure_stable(i + 1, n as int, check);
                }
                return Err(e);
            },
        };
        match first {
            Some(current) => {
                if !crate::text::str_eq(current.as_str(), cp.as_str()) {
                    proof {
                        assert(check(i as int) is Err);
                        lemma_first_failure_stable(i + 1, n as int, check);
                    }
                    return Err(
                        fail7(
                            "host group '",
                            group_name,
                            "' mixes nodes from control planes '",
                            current.as_str(),
                            "' and '",
                            cp.as_str(),
                            "'",
                        ),
                    );
                }
            },
            None => {
                first = Some(cp);
            },
        }
        i = i + 1;
    }
    Ok(())
}

// ---------------------------------------------------------------------------
// Artifact distribution

pub open spec fn store_check(artifact_name: Seq<char>, direction: Seq<char>, store: ArtifactStore) -> Outcome {
    match store {
        ArtifactStore::OciRegistry { auth, .. } => match auth {
            OciRegistryAuth::Anonymous => Ok(()),
            OciRegistryAuth::BasicEnv { username_variable, password_variable } => if is_blank(
                username_variable@,
            ) {
                Err(
                    "artifact '"@ + artifact_name + "' "@ + direction
                        + " OCI registry backend must declare a non-empty username environment variable"@,
                )
            } else if is_blank(password_variable@) {
                Err(
                    "artifact '"@ + artifact_name + "' "@ + direction
                        + " OCI registry backend must declare a non-empty password environment variable"@,
                )
            } else {
                Ok(())
            },
        },
        _ => Ok(()),
    }
}

pub open spec fn distribution_check(artifact_name: Seq<char>, artifact: ArtifactSpec) -> Outcome {
    followed_by(
        store_check(artifact_name, "push"@, artifact.distribution.push),
        store_check(artifact_name, "pull"@, artifact.distribution.pull),
    )
}

pub fn validate_artifact_store(artifact_name: &str, direction: &str, store: &ArtifactStore) -> (r:
    Result<(), ValidationError>)
    ensures
        outcome(r) == store_check(artifact_name@, direction@, *store),
{
    match store {
        ArtifactStore::OciRegistry { auth, .. } => match auth {
            OciRegistryAuth::Anonymous => Ok(()),
            OciRegistryAuth::BasicEnv { username_variable, password_variable } => {
                if str_is_blank(username_variable.as_str()) {
                    return Err(
                        fail5(
                            "artifact '",
                            artifact_name,
                            "' ",
                            direction,
                            " OCI registry backend must declare a non-empty username environment variable",
                        ),
                    );
                }
                if str_is_blank(password_variable.as_str()) {
                    return Err(
                        fail5(
                            "artifact '",
                            artifact_name,
                            "' ",
                            direction,
                            " OCI registry backend must declare a non-empty password environment variable",
                        ),
                    );
                }
                Ok(())
            },
        },
        _ => Ok(()),
    }
}

pub fn validate_artifact_distribution(artifact_name: &str, artifact: &ArtifactSpec) -> (r: Result<
    (),
    ValidationError,
>)
    ensures
        outcome(r) == distribution_check(artifact_name@, *artifact),
{
    let push = validate_artifact_store(artifact_name, "push", &artifact.distribution.push);
    if push.is_err() {
        return push;
    }
    validate_artifact_store(artifact_name, "pull", &artifact.distribution.pull)
}

// ---------------------------------------------------------------------------
// Machine artifacts

/// `architecture/substrate/protection` with each part as `{:?}` prints it.
pub open spec fn selector_debug(s: ArtifactSelector) -> Seq<char> {
    s.architecture.debug_name_text() + "/"@ + s.substrate.debug_name_text() + "/"@
        + s.protection_mode.debug_name_text()
}

pub open spec fn variant_duplicate_check(
    machine_name: Seq<char>,
    kind: Seq<char>,
    artifact_name: Seq<char>,
    variants: Seq<ArtifactVariant>,
    i: int,
) -> Outcome {
    if exists|j: int| 0 <= j < i && #[trigger] variants[j].selector == variants[i].selector {
        Err(
            "machine '"@ + machine_name + "': "@ + kind + " artifact '"@ + artifact_name
                + "' declares duplicate variant "@ + selector_debug(variants[i].selector),
        )
    } else {
        Ok(())
    }
}

pub open spec fn artifact_spec_check(
    machine_name: Seq<char>,
    kind: Seq<char>,
    artifact_name: Seq<char>,
    artifact: ArtifactSpec,
) -> Outcome {
    if artifact.variants@.len() == 0 {
        Err(
            "machine '"@ + machine_name + "': "@ + kind + " artifact '"@ + artifact_name
                + "' does not declare any variants"@,
        )
    } else {
        first_failure(
            artifact.variants@.len() as int,
            |i: int| variant_duplicate_check(machine_name, kind, artifact_name, artifact.variants@, i),
        )
    }
}

pub fn validate_artifact_spec(
    machine_name: &str,
    kind: &str,
    artifact_name: &str,
    artifact: &ArtifactSpec,
) -> (r: Result<(), ValidationError>)
    ensures
        outcome(r) == artifact_spec_check(machine_name@, kind@, artifact_name@, *artifact),
{
    let n = artifact.variants.len();
    if n == 0 {
        return Err(
            fail7(
                "machine '",
                machine_name,
                "': ",
                kind,
                " artifact '",
                artifact_name,
                "' does not declare any variants",
            ),
        );
    }
    let ghost check = |i: int|
        variant_duplicate_check(machine_name@, kind@, artifact_name@, artifact.variants@, i);
    let mut i: usize = 0;
    while i < n
        invariant
            n == artifact.variants@.len(),
            i <= n,
            check == (|i: int|
                variant_duplicate_check(machine_name@, kind@, artifact_name@, artifact.variants@, i)),
            first_failure(i as int, check) is Ok,
            artifact_spec_check(machine_name@, kind@, artifact_name@, *artifact) == first_failure(n as int, check),
        decreases n - i,
    {
        let selector = artifact.variants[i].selector;
        let mut j: usize = 0;
        while j < i
            invariant
                n == artifact.variants@.len(),
                j <= i < n,
                check == (|i: int|
                    variant_duplicate_check(machine_name@, kind@, artifact_name@, artifact.variants@, i)),
                first_failure(i as int, check) is Ok,
                artifact_spec_check(machine_name@, kind@, artifact_name@, *artifact) == first_failure(n as int, check),
                selector == artifact.variants@[i as int].selector,
                forall|m: int| 0 <= m < j ==> artifact.variants@[m].selector != selector,
            decreases i - j,
        {
            if artifact.variants[j].selector == selector {
                proof {
                    assert(artifact.variants@[j as int].selector == artifact.variants@[i as int].selector);
                    assert(check(i as int) is Err);
                    lemma_first_failure_stable(i + 1, n as int, check);
                }
                let mut m = String::from_str("machine '");
                m.append(machine_name);
                m.append("': ");
                m.append(kind);
                m.append(" artifact '");
                m.append(artifact_name);
                m.append("' declares duplicate variant ");
                m.append(selector.architecture.debug_name());
                m.append("/");
                m.append(selector.substrate.debug_name());
                m.append("/");
                m.append(selector.protection_mode.debug_name());
                assert(m@ =~= "machine '"@ + machine_name@ + "': "@ + kind@ + " artifact '"@
                    + artifact_name@ + "' declares duplicate variant "@ + selector_debug(selector));
                return Err(ValidationError::new(m));
            }
            j = j + 1;
        }
        i = i + 1;
    }
    Ok(())
}

} // verus!
