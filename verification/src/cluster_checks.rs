//! The checks on local clusters and hosted K3s clusters.
use vstd::prelude::*;

use crate::checks::{Outcome, outcome, fail3, fail5};
use crate::model::{ValidationError, PortConfig, ClusterSpec, ClusterProvider, HostSpec, MachineSpec, HostProvider, HostPlatform, ExecutionSubstrate, ProtectionMode, HostConnection};
use crate::text::{is_blank, str_is_blank, decimal, decimal_string, path_is_absolute, path_has_file_name, path_file_name_is_some};
use crate::validate::{any_blank, vec_any_blank};
use crate::control::contract_for;
use crate::named_map::{lookup, has_name, NameMap, insert_sorted, names_of};
use crate::model::{K3sClusterSpec, HostedHostGroupSpec, MachineArchitecture, HostedSchedulerPolicy, HostedMachineSummaryContract};
use crate::validate::{group_member_control_plane, resolve_group_member};
use crate::summary::summary_spec;
use crate::views::HostedMachineSummaryContractView;
use crate::checks::{first_failure, lemma_first_failure_stable, fail7};
use crate::machine_checks::repeats_earlier;
use crate::text::{starts_with, str_starts_with, str_eq, join, views, join_strings};

verus! {

/// The one lane that clusters run on: a local Linux host of the local
/// provider, running Firecracker in standard protection.
pub open spec fn cluster_local_lane_supported(host: HostSpec, machine: MachineSpec) -> bool {
    &&& host.connection is Local
    &&& host.provider == HostProvider::Local
    &&& host.platform == HostPlatform::Linux
    &&& machine.substrate == ExecutionSubstrate::Firecracker
    &&& machine.protection_mode == ProtectionMode::Standard
}

/// The checks on the cluster's own fields, before its machine is looked up.
pub open spec fn cluster_shape_check(name: Seq<char>, c: ClusterSpec) -> Outcome {
    let p = "cluster '"@ + name;
    let profile = c.bootstrap.guest_profile;
    if c.provider != ClusterProvider::Local {
        Err(
            p + "' requests provider '"@ + c.provider.label_text()
                + "'; only provider 'local' is supported in this slice"@,
        )
    } else if c.count != 1 {
        Err(
            p + "' requests count = "@ + decimal(c.count as nat)
                + "; only count = 1 is supported in this slice"@,
        )
    } else if is_blank(c.machine@) {
        Err(p + "' must declare a non-empty machine"@)
    } else if c.version matches Some(v) && is_blank(v@) {
        Err(p + "' version override must not be empty"@)
    } else if any_blank(c.args@) {
        Err(p + "' args must not contain empty values"@)
    } else if !path_is_absolute(c.bootstrap.stage_root@) {
        Err(
            p + "' bootstrap stage_root '"@ + c.bootstrap.stage_root@
                + "' must be an absolute guest path"@,
        )
    } else if c.bootstrap.install_script@.len() == 0 {
        Err(p + "' bootstrap install_script must declare a host path"@)
    } else if !path_has_file_name(c.bootstrap.install_script@) {
        Err(
            p + "' bootstrap install_script '"@ + c.bootstrap.install_script@
                + "' must reference a file"@,
        )
    } else if c.bootstrap.binary@.len() == 0 {
        Err(p + "' bootstrap binary must declare a host path"@)
    } else if !path_has_file_name(c.bootstrap.binary@) {
        Err(p + "' bootstrap binary '"@ + c.bootstrap.binary@ + "' must reference a file"@)
    } else if is_blank(profile.name@) {
        Err(p + "' bootstrap guest profile must declare a non-empty name"@)
    } else if profile.required_commands@.len() == 0 {
        Err(
            p + "' bootstrap guest profile '"@ + profile.name@
                + "' must declare at least one required command"@,
        )
    } else if any_blank(profile.required_commands@) {
        Err(
            p + "' bootstrap guest profile '"@ + profile.name@
                + "' required commands must not contain empty values"@,
        )
    } else if c.lifecycle.health_command@.len() == 0 {
        Err(p + "' lifecycle must declare a non-empty health_command"@)
    } else if any_blank(c.lifecycle.health_command@) {
        Err(p + "' lifecycle health_command must not contain empty values"@)
    } else if !path_is_absolute(c.lifecycle.kubeconfig_path@) {
        Err(
            p + "' lifecycle kubeconfig_path '"@ + c.lifecycle.kubeconfig_path@
                + "' must be an absolute guest path"@,
        )
    } else if is_blank(c.lifecycle.api_forward_target@) {
        Err(p + "' lifecycle api_forward_target must declare a non-empty guest endpoint"@)
    } else {
        Ok(())
    }
}

/// Every check on a local cluster, in order.
pub open spec fn cluster_check(cfg: PortConfig, name: Seq<char>, c: ClusterSpec) -> Outcome {
    match cluster_shape_check(name, c) {
        Err(e) => Err(e),
        Ok(_) => match lookup(cfg.machines@, c.machine@) {
            None => Err("cluster '"@ + name + "' references unknown machine '"@ + c.machine@ + "'"@),
            Some(machine) => match lookup(cfg.hosts@, machine.host@) {
                None => Err(
                    "cluster '"@ + name + "' machine '"@ + c.machine@ + "' references unknown host '"@
                        + machine.host@ + "'"@,
                ),
                Some(host) => if !cluster_local_lane_supported(host, machine) {
                    Err(
                        "cluster '"@ + name + "' machine '"@ + c.machine@ + "' targets host '"@
                            + machine.host@ + "' provider '"@ + host.provider.label_text()
                            + "' through launch route '"@
                            + contract_for(host.connection).launch_route.label_text()
                            + "' with substrate '"@ + machine.substrate.label_text()
                            + "' and protection mode '"@ + machine.protection_mode.label_text()
                            + "'; clusters only support the local Linux Firecracker standard lane in this slice"@,
                    )
                } else if machine.rootfs_read_only {
                    Err(
                        "cluster '"@ + name + "' machine '"@ + c.machine@
                            + "' must keep the guest rootfs writable for K3s bootstrap in this slice"@,
                    )
                } else {
                    Ok(())
                },
            },
        },
    }
}

fn validate_cluster_shape(name: &str, c: &ClusterSpec) -> (r: Result<(), ValidationError>)
    ensures
        outcome(r) == cluster_shape_check(name@, *c),
{
    let profile = &c.bootstrap.guest_profile;
    if c.provider != ClusterProvider::Local {
        return Err(
            fail5(
                "cluster '",
                name,
                "' requests provider '",
                c.provider.label(),
                "'; only provider 'local' is supported in this slice",
            ),
        );
    }
    if c.count != 1 {
        let count = decimal_string(c.count as u64);
        return Err(
            fail5(
                "cluster '",
                name,
                "' requests count = ",
                count.as_str(),
                "; only count = 1 is supported in this slice",
            ),
        );
    }
    if str_is_blank(c.machine.as_str()) {
        return Err(fail3("cluster '", name, "' must declare a non-empty machine"));
    }
    match &c.version {
        Some(v) => {
            if str_is_blank(v.as_str()) {
                return Err(fail3("cluster '", name, "' version override must not be empty"));
            }
        },
        None => {},
    }
    if vec_any_blank(&c.args) {
        return Err(fail3("cluster '", name, "' args must not contain empty values"));
    }
    let stage_root = c.bootstrap.stage_root.as_str();
    if !(stage_root.unicode_len() > 0 && stage_root.get_char(0) == '/') {
        return Err(
            fail5(
                "cluster '",
                name,
                "' bootstrap stage_root '",
                stage_root,
                "' must be an absolute guest path",
            ),
        );
    }
    if c.bootstrap.install_script.unicode_len() == 0 {
        return Err(fail3("cluster '", name, "' bootstrap install_script must declare a host path"));
    }
    if !path_file_name_is_some(c.bootstrap.install_script.as_str()) {
        return Err(
            fail5(
                "cluster '",
                name,
                "' bootstrap install_script '",
                c.bootstrap.install_script.as_str(),
                "' must reference a file",
            ),
        );
    }
    if c.bootstrap.binary.unicode_len() == 0 {
        return Err(fail3("cluster '", name, "' bootstrap binary must declare a host path"));
    }
    if !path_file_name_is_some(c.bootstrap.binary.as_str()) {
        return Err(
            fail5(
                "cluster '",
                name,
                "' bootstrap binary '",
                c.bootstrap.binary.as_str(),
                "' must reference a file",
            ),
        );
    }
    if str_is_blank(profile.name.as_str()) {
        return Err(
            fail3("cluster '", name, "' bootstrap guest profile must declare a non-empty name"),
        );
    }
    if profile.required_commands.len() == 0 {
        return Err(
            fail5(
                "cluster '",
                name,
                "' bootstrap guest profile '",
                profile.name.as_str(),
                "' must declare at least one required command",
            ),
        );
    }
    if vec_any_blank(&profile.required_commands) {
        return Err(
            fail5(
                "cluster '",
                name,
                "' bootstrap guest profile '",
                profile.name.as_str(),
                "' required commands must not contain empty values",
            ),
        );
    }
    if c.lifecycle.health_command.len() == 0 {
        return Err(fail3("cluster '", name, "' lifecycle must declare a non-empty health_command"));
    }
    if vec_any_blank(&c.lifecycle.health_command) {
        return Err(
            fail3("cluster '", name, "' lifecycle health_command must not contain empty values"),
        );
    }
    let kubeconfig = c.lifecycle.kubeconfig_path.as_str();
    if !(kubeconfig.unicode_len() > 0 && kubeconfig.get_char(0) == '/') {
        return Err(
            fail5(
                "cluster '",
                name,
                "' lifecycle kubeconfig_path '",
                kubeconfig,
                "' must be an absolute guest path",
            ),
        );
    }
    if str_is_blank(c.lifecycle.api_forward_target.as_str()) {
        return Err(
            fail3(
                "cluster '",
                name,
                "' lifecycle api_forward_target must declare a non-empty guest endpoint",
            ),
        );
    }
    Ok(())
}

pub fn validate_cluster(config: &PortConfig, name: &str, c: &ClusterSpec) -> (r: Result<
    (),
    ValidationError,
>)
    ensures
        outcome(r) == cluster_check(*config, name@, *c),
{
    let shape = validate_cluster_shape(name, c);
    if shape.is_err() {
        return shape;
    }
    let machine = match config.machines.get(c.machine.as_str()) {
        Some(machine) => machine,
        None => {
            return Err(
                fail5("cluster '", name, "' references unknown machine '", c.machine.as_str(), "'"),
            );
        },
    };
    let host = match config.hosts.get(machine.host.as_str()) {
        Some(host) => host,
        None => {
            return Err(
                crate::checks::fail7(
                    "cluster '",
                    name,
                    "' machine '",
                    c.machine.as_str(),
                    "' references unknown host '",
                    machine.host.as_str(),
                    "'",
                ),
            );
        },
    };
    let is_local = match &host.connection {
        HostConnection::Local => true,
        _ => false,
    };
    if !(is_local && host.provider == HostProvider::Local && host.platform == HostPlatform::Linux
        && machine.substrate == ExecutionSubstrate::Firecracker && machine.protection_mode
        == ProtectionMode::Standard) {
        let control = crate::model::MachineControlContract::for_connection(&host.connection);
        let mut m = String::from_str("cluster '");
        m.append(name);
        m.append("' machine '");
        m.append(c.machine.as_str());
        m.append("' targets host '");
        m.append(machine.host.as_str());
        m.append("' provider '");
        m.append(host.provider.label());
        m.append("' through launch route '");
        m.append(control.launch_route.label());
        m.append("' with substrate '");
        m.append(machine.substrate.label());
        m.append("' and protection mode '");
        m.append(machine.protection_mode.label());
        m.append(
            "'; clusters only support the local Linux Firecracker standard lane in this slice",
        );
        let ghost expected = cluster_check(*config, name@, *c);
        assert(expected is Err);
        assert(Err::<(), Seq<char>>(m@) == expected);
        return Err(ValidationError::new(m));
    }
    if machine.rootfs_read_only {
        return Err(
            crate::checks::fail5(
                "cluster '",
                name,
                "' machine '",
                c.machine.as_str(),
                "' must keep the guest rootfs writable for K3s bootstrap in this slice",
            ),
        );
    }
    Ok(())
}

// ---------------------------------------------------------------------------
// Hosted K3s clusters

/// The control plane a host group resolves through: that of its first member.
pub open spec fn group_cp_spec(cfg: PortConfig, group_name: Seq<char>, group: HostedHostGroupSpec) -> Result<
    Seq<char>,
    Seq<char>,
> {
    if group.nodes@.len() == 0 {
        Err("host group '"@ + group_name + "' must declare at least one node"@)
    } else {
        group_member_control_plane(cfg, group_name, group.nodes@[0]@)
    }
}

pub fn group_control_plane_name(config: &PortConfig, group_name: &str, group: &HostedHostGroupSpec) -> (r:
    Result<String, ValidationError>)
    ensures
        match r {
            Ok(cp) => group_cp_spec(*config, group_name@, *group) == Ok::<Seq<char>, Seq<char>>(cp@),
            Err(e) => group_cp_spec(*config, group_name@, *group) == Err::<Seq<char>, Seq<char>>(e@),
        },
{
    if group.nodes.len() == 0 {
        return Err(fail3("host group '", group_name, "' must declare at least one node"));
    }
    match resolve_group_member(config, group_name, group.nodes[0].as_str()) {
        Ok(cp) => Ok(cp.clone()),
        Err(e) => Err(e),
    }
}

/// The checks on the cluster's own fields and its control plane and host group.
pub open spec fn k3s_shape_check(cfg: PortConfig, name: Seq<char>, c: K3sClusterSpec) -> Outcome {
    let p = "k3s cluster '"@ + name;
    if is_blank(c.control_plane@) {
        Err(p + "' must declare a non-empty control plane"@)
    } else if !has_name(cfg.control_planes@, c.control_plane@) {
        Err(p + "' references unknown control plane '"@ + c.control_plane@ + "'"@)
    } else if is_blank(c.host_group@) {
        Err(p + "' must declare a non-empty host group"@)
    } else {
        match lookup(cfg.host_groups@, c.host_group@) {
            None => Err(p + "' references unknown host group '"@ + c.host_group@ + "'"@),
            Some(group) => match group_cp_spec(cfg, c.host_group@, group) {
                Err(e) => Err(e),
                Ok(group_cp) => if group_cp != c.control_plane@ {
                    Err(
                        p + "' binds control plane '"@ + c.control_plane@ + "' but host group '"@
                            + c.host_group@ + "' resolves through '"@ + group_cp + "'"@,
                    )
                } else if c.server_machines@.len() == 0 {
                    Err(p + "' must declare at least one control-plane machine"@)
                } else if is_blank(c.api_endpoint@) {
                    Err(p + "' must declare a non-empty api endpoint"@)
                } else if c.version matches Some(v) && is_blank(v@) {
                    Err(p + "' version override must not be empty"@)
                } else if !starts_with(c.api_endpoint@, "https://"@) {
                    Err(p + "' api endpoint '"@ + c.api_endpoint@ + "' must start with 'https://'"@)
                } else if any_blank(c.server_args@) {
                    Err(p + "' server args must not contain empty values"@)
                } else if any_blank(c.worker_args@) {
                    Err(p + "' worker args must not contain empty values"@)
                } else {
                    Ok(())
                },
            },
        }
    }
}

/// `k3s cluster '<name>' <role> machine '<machine>'`, how a machine's failures begin.
pub open spec fn k3s_machine_prefix(name: Seq<char>, role: Seq<char>, machine_name: Seq<char>) -> Seq<char> {
    "k3s cluster '"@ + name + "' "@ + role + " machine '"@ + machine_name
}

/// The summary of one machine of a K3s cluster, or why it cannot serve in `role`.
pub open spec fn k3s_machine_spec(
    cfg: PortConfig,
    native: MachineArchitecture,
    name: Seq<char>,
    control_plane: Seq<char>,
    host_group: Seq<char>,
    machine_name: Seq<char>,
    role: Seq<char>,
) -> Result<HostedMachineSummaryContractView, Seq<char>> {
    let p = k3s_machine_prefix(name, role, machine_name);
    match lookup(cfg.machines@, machine_name) {
        None => Err(
            "k3s cluster '"@ + name + "' references unknown "@ + role + " machine '"@ + machine_name
                + "'"@,
        ),
        Some(machine) => if machine.volumes@.len() > 0 {
            Err(p + "' must remain stateless; attached volumes are out of scope"@)
        } else if machine.substrate != ExecutionSubstrate::Firecracker {
            Err(p + "' must use Firecracker for the first slice"@)
        } else {
            match lookup(cfg.hosts@, machine.host@) {
                None => Err(
                    "machine '"@ + machine_name + "' references unknown host '"@ + machine.host@
                        + "'"@,
                ),
                Some(host) => if host.platform != HostPlatform::Linux {
                    Err(p + "' must target a Linux host"@)
                } else {
                    match host.connection {
                        HostConnection::Local => Err(
                            p + "' must target a hosted control plane, not local host '"@
                                + machine.host@ + "'"@,
                        ),
                        HostConnection::Ssh { .. } => Err(
                            p + "' must target a hosted control plane, not ssh-managed host '"@
                                + machine.host@ + "'"@,
                        ),
                        HostConnection::HostedControlPlane { control_plane: machine_cp } => if machine_cp@
                            != control_plane {
                            Err(
                                p + "' resolves through control plane '"@ + machine_cp@
                                    + "' instead of '"@ + control_plane + "'"@,
                            )
                        } else {
                            match summary_spec(cfg, native, machine_name) {
                                Err(e) => Err(e),
                                Ok(None) => Err(p + "' must resolve to a hosted machine summary"@),
                                Ok(Some(summary)) => if !summary.host_groups.contains(host_group) {
                                    Err(
                                        p + "' must belong to host group '"@ + host_group
                                            + "'; available groups: "@ + if summary.host_groups.len()
                                            == 0 {
                                            "(none)"@
                                        } else {
                                            join(summary.host_groups, ", "@)
                                        },
                                    )
                                } else if summary.candidate_nodes.len() == 0 {
                                    Err(
                                        p + "' has no hosted placement candidates: "@
                                            + summary.placement_detail,
                                    )
                                } else {
                                    Ok(summary)
                                },
                            }
                        },
                    }
                },
            }
        },
    }
}

/// The role of the `i`-th machine of a cluster, servers first.
pub open spec fn k3s_role(c: K3sClusterSpec, i: int) -> Seq<char> {
    if i < c.server_machines@.len() {
        "control-plane"@
    } else {
        "worker"@
    }
}

/// The servers, then the workers.
pub open spec fn k3s_machines(c: K3sClusterSpec) -> Seq<String> {
    c.server_machines@ + c.worker_machines@
}

pub open spec fn k3s_member_check(
    cfg: PortConfig,
    native: MachineArchitecture,
    name: Seq<char>,
    c: K3sClusterSpec,
    i: int,
) -> Outcome {
    let machines = views(k3s_machines(c));
    if is_blank(machines[i]) {
        if i < c.server_machines@.len() {
            Err("k3s cluster '"@ + name + "' control-plane machines must not contain empty names"@)
        } else {
            Err("k3s cluster '"@ + name + "' worker machines must not contain empty names"@)
        }
    } else if repeats_earlier(machines, i) {
        Err("k3s cluster '"@ + name + "' reuses machine '"@ + machines[i] + "' across K3s node roles"@)
    } else {
        match k3s_machine_spec(
            cfg,
            native,
            name,
            c.control_plane@,
            c.host_group@,
            machines[i],
            k3s_role(c, i),
        ) {
            Err(e) => Err(e),
            Ok(_) => Ok(()),
        }
    }
}

/// The candidate nodes of a machine's summary, none when it has no summary.
pub open spec fn summary_candidates(r: Result<HostedMachineSummaryContractView, Seq<char>>) -> Seq<
    Seq<char>,
> {
    match r {
        Ok(summary) => summary.candidate_nodes,
        Err(_) => Seq::empty(),
    }
}

/// The names inserted, one after another, into a set ordered by name.
pub open spec fn insert_names(s: Seq<(Seq<char>, ())>, names: Seq<Seq<char>>) -> Seq<(Seq<char>, ())>
    decreases names.len(),
{
    if names.len() == 0 {
        s
    } else {
        insert_sorted(insert_names(s, names.drop_last()), names.last(), ())
    }
}

/// The distinct candidate nodes of the first `k` servers, as an ordered set.
pub open spec fn distinct_candidates(
    cfg: PortConfig,
    native: MachineArchitecture,
    name: Seq<char>,
    c: K3sClusterSpec,
    k: int,
) -> Seq<(Seq<char>, ())>
    decreases k,
{
    if k <= 0 {
        Seq::empty()
    } else {
        insert_names(
            distinct_candidates(cfg, native, name, c, k - 1),
            summary_candidates(
                k3s_machine_spec(
                    cfg,
                    native,
                    name,
                    c.control_plane@,
                    c.host_group@,
                    c.server_machines@[k - 1]@,
                    "control-plane"@,
                ),
            ),
        )
    }
}

/// Under the spread scheduler, each server needs a distinct candidate node.
pub open spec fn k3s_spread_check(
    cfg: PortConfig,
    native: MachineArchitecture,
    name: Seq<char>,
    c: K3sClusterSpec,
) -> Outcome {
    let distinct = names_of(distinct_candidates(cfg, native, name, c, c.server_machines@.len() as int));
    if c.control_plane_scheduler == HostedSchedulerPolicy::Spread && distinct.len()
        < c.server_machines@.len() {
        Err(
            "k3s cluster '"@ + name + "' requires "@ + decimal(c.server_machines@.len())
                + " distinct hosted candidate nodes for control-plane scheduler 'spread', but only "@
                + decimal(distinct.len()) + " are available across host group '"@ + c.host_group@
                + "': "@ + if distinct.len() == 0 {
                "(none)"@
            } else {
                join(distinct, ", "@)
            },
        )
    } else {
        Ok(())
    }
}

/// Every check on a hosted K3s cluster, in order.
pub open spec fn k3s_check(cfg: PortConfig, native: MachineArchitecture, name: Seq<char>, c: K3sClusterSpec) -> Outcome {
    crate::checks::followed_by(
        k3s_shape_check(cfg, name, c),
        crate::checks::followed_by(
            first_failure(
                k3s_machines(c).len() as int,
                |i: int| k3s_member_check(cfg, native, name, c, i),
            ),
            k3s_spread_check(cfg, native, name, c),
        ),
    )
}

fn validate_k3s_shape(config: &PortConfig, name: &str, c: &K3sClusterSpec) -> (r: Result<
    (),
    ValidationError,
>)
    ensures
        outcome(r) == k3s_shape_check(*config, name@, *c),
{
    if str_is_blank(c.control_plane.as_str()) {
        return Err(fail3("k3s cluster '", name, "' must declare a non-empty control plane"));
    }
    if !config.control_planes.contains_key(c.control_plane.as_str()) {
        return Err(
            fail5(
                "k3s cluster '",
                name,
                "' references unknown control plane '",
                c.control_plane.as_str(),
                "'",
            ),
        );
    }
    if str_is_blank(c.host_group.as_str()) {
        return Err(fail3("k3s cluster '", name, "' must declare a non-empty host group"));
    }
    let group = match config.host_groups.get(c.host_group.as_str()) {
        Some(group) => group,
        None => {
            return Err(
                fail5(
                    "k3s cluster '",
                    name,
                    "' references unknown host group '",
                    c.host_group.as_str(),
                    "'",
                ),
            );
        },
    };
    let group_cp = match group_control_plane_name(config, c.host_group.as_str(), group) {
        Ok(cp) => cp,
        Err(e) => {
            return Err(e);
        },
    };
    if !str_eq(group_cp.as_str(), c.control_plane.as_str()) {
        let mut m = crate::checks::cat5(
            "k3s cluster '",
            name,
            "' binds control plane '",
            c.control_plane.as_str(),
            "' but host group '",
        );
        m.append(c.host_group.as_str());
        m.append("' resolves through '");
        m.append(group_cp.as_str());
        m.append("'");
        let ghost expected = k3s_shape_check(*config, name@, *c);
        assert(expected == Err::<(), Seq<char>>(m@));
        return Err(ValidationError::new(m));
    }
    if c.server_machines.len() == 0 {
        return Err(
            fail3("k3s cluster '", name, "' must declare at least one control-plane machine"),
        );
    }
    if str_is_blank(c.api_endpoint.as_str()) {
        return Err(fail3("k3s cluster '", name, "' must declare a non-empty api endpoint"));
    }
    match &c.version {
        Some(v) => {
            if str_is_blank(v.as_str()) {
                return Err(fail3("k3s cluster '", name, "' version override must not be empty"));
            }
        },
        None => {},
    }
    if !str_starts_with(c.api_endpoint.as_str(), "https://") {
        return Err(
            fail5(
                "k3s cluster '",
                name,
                "' api endpoint '",
                c.api_endpoint.as_str(),
                "' must start with 'https://'",
            ),
        );
    }
    if vec_any_blank(&c.server_args) {
        return Err(fail3("k3s cluster '", name, "' server args must not contain empty values"));
    }
    if vec_any_blank(&c.worker_args) {
        return Err(fail3("k3s cluster '", name, "' worker args must not contain empty values"));
    }
    Ok(())
}

pub fn validate_k3s_cluster_machine(
    config: &PortConfig,
    native: MachineArchitecture,
    name: &str,
    control_plane: &str,
    host_group: &str,
    machine_name: &str,
    role: &str,
) -> (r: Result<HostedMachineSummaryContract, ValidationError>)
    ensures
        crate::checks::viewed(r) == k3s_machine_spec(
            *config,
            native,
            name@,
            control_plane@,
            host_group@,
            machine_name@,
            role@,
        ),
{
    let machine = match config.machines.get(machine_name) {
        Some(machine) => machine,
        None => {
            return Err(
                fail7(
                    "k3s cluster '",
                    name,
                    "' references unknown ",
                    role,
                    " machine '",
                    machine_name,
                    "'",
                ),
            );
        },
    };
    let prefix = crate::checks::cat5("k3s cluster '", name, "' ", role, " machine '");
    let mut p = prefix;
    p.append(machine_name);
    assert(p@ == k3s_machine_prefix(name@, role@, machine_name@));
    if machine.volumes.len() > 0 {
        return Err(
            crate::checks::fail2(
                p.as_str(),
                "' must remain stateless; attached volumes are out of scope",
            ),
        );
    }
    if machine.substrate != ExecutionSubstrate::Firecracker {
        return Err(crate::checks::fail2(p.as_str(), "' must use Firecracker for the first slice"));
    }
    let host = match config.hosts.get(machine.host.as_str()) {
        Some(host) => host,
        None => {
            return Err(
                fail5(
                    "machine '",
                    machine_name,
                    "' references unknown host '",
                    machine.host.as_str(),
                    "'",
                ),
            );
        },
    };
    if host.platform != HostPlatform::Linux {
        return Err(crate::checks::fail2(p.as_str(), "' must target a Linux host"));
    }
    match &host.connection {
        HostConnection::Local => {
            return Err(
                crate::checks::fail4(
                    p.as_str(),
                    "' must target a hosted control plane, not local host '",
                    machine.host.as_str(),
                    "'",
                ),
            );
        },
        HostConnection::Ssh { .. } => {
            return Err(
                crate::checks::fail4(
                    p.as_str(),
                    "' must target a hosted control plane, not ssh-managed host '",
                    machine.host.as_str(),
                    "'",
                ),
            );
        },
        HostConnection::HostedControlPlane { control_plane: machine_cp } => {
            if !str_eq(machine_cp.as_str(), control_plane) {
                return Err(
                    crate::checks::fail6(
                        p.as_str(),
                        "' resolves through control plane '",
                        machine_cp.as_str(),
                        "' instead of '",
                        control_plane,
                        "'",
                    ),
                );
            }
        },
    }
    let summary = match config.hosted_machine_summary_contract(machine_name, native) {
        Ok(Some(summary)) => summary,
        Ok(None) => {
            return Err(
                crate::checks::fail2(p.as_str(), "' must resolve to a hosted machine summary"),
            );
        },
        Err(e) => {
            return Err(e);
        },
    };
    if !crate::registration::has_member(&summary.host_groups, host_group) {
        let mut m = crate::checks::cat3(p.as_str(), "' must belong to host group '", host_group);
        m.append("'; available groups: ");
        if summary.host_groups.len() == 0 {
            m.append("(none)");
        } else {
            let joined = join_strings(&summary.host_groups, ", ");
            m.append(joined.as_str());
        }
        let ghost expected = k3s_machine_spec(
            *config,
            native,
            name@,
            control_plane@,
            host_group@,
            machine_name@,
            role@,
        );
        assert(expected == Err::<HostedMachineSummaryContractView, Seq<char>>(m@));
        return Err(ValidationError::new(m));
    }
    if summary.candidate_nodes.len() == 0 {
        return Err(
            crate::checks::fail3(
                p.as_str(),
                "' has no hosted placement candidates: ",
                summary.placement_detail.as_str(),
            ),
        );
    }
    Ok(summary)
}

/// The position of a machine among all the cluster's machines: servers come first.
pub open spec fn k3s_index(c: K3sClusterSpec, worker: bool, k: int) -> int {
    if worker {
        c.server_machines@.len() + k
    } else {
        k
    }
}

/// Whether the `k`-th server (or worker) repeats an earlier machine of the cluster.
fn k3s_machine_repeats(c: &K3sClusterSpec, worker: bool, k: usize) -> (r: bool)
    requires
        worker ==> k < c.worker_machines@.len(),
        !worker ==> k < c.server_machines@.len(),
    ensures
        r == repeats_earlier(views(k3s_machines(*c)), k3s_index(*c, worker, k as int)),
{
    let ghost all = views(k3s_machines(*c));
    let ghost idx = k3s_index(*c, worker, k as int);
    let current = if worker {
        &c.worker_machines[k]
    } else {
        &c.server_machines[k]
    };
    assert(current@ == all[idx]);
    let servers = c.server_machines.len();
    let limit = if worker {
        servers
    } else {
        k
    };
    let mut j: usize = 0;
    while j < limit
        invariant
            servers == c.server_machines@.len(),
            limit <= servers,
            all == views(k3s_machines(*c)),
            0 <= idx < all.len(),
            current@ == all[idx],
            idx == k3s_index(*c, worker, k as int),
            worker ==> limit == servers && idx == servers + k,
            !worker ==> limit == k && idx == k,
            j <= limit,
            forall|a: int| 0 <= a < j ==> all[a] != all[idx],
        decreases limit - j,
    {
        assert(all[j as int] == c.server_machines@[j as int]@);
        if str_eq(c.server_machines[j].as_str(), current.as_str()) {
            return true;
        }
        j = j + 1;
    }
    if worker {
        let mut j: usize = 0;
        while j < k
            invariant
                servers == c.server_machines@.len(),
                k < c.worker_machines@.len(),
                worker,
                idx == k3s_index(*c, worker, k as int),
                all == views(k3s_machines(*c)),
                idx == servers + k,
                0 <= idx < all.len(),
                current@ == all[idx],
                j <= k,
                forall|a: int| 0 <= a < servers + j ==> all[a] != all[idx],
            decreases k - j,
        {
            assert(all[servers + j] == c.worker_machines@[j as int]@);
            if str_eq(c.worker_machines[j].as_str(), current.as_str()) {
                assert(all[servers + j] == all[idx]);
                return true;
            }
            j = j + 1;
        }
    }
    false
}

/// The summary of the `k`-th server (or worker), or the first failure of its checks.
fn check_k3s_member(
    config: &PortConfig,
    native: MachineArchitecture,
    name: &str,
    c: &K3sClusterSpec,
    worker: bool,
    k: usize,
) -> (r: Result<HostedMachineSummaryContract, ValidationError>)
    requires
        worker ==> k < c.worker_machines@.len(),
        !worker ==> k < c.server_machines@.len(),
    ensures
        match r {
            Ok(summary) => k3s_member_check(*config, native, name@, *c, k3s_index(*c, worker, k as int))
                is Ok && k3s_machine_spec(
                *config,
                native,
                name@,
                c.control_plane@,
                c.host_group@,
                views(k3s_machines(*c))[k3s_index(*c, worker, k as int)],
                k3s_role(*c, k3s_index(*c, worker, k as int)),
            ) == Ok::<HostedMachineSummaryContractView, Seq<char>>(summary@),
            Err(e) => k3s_member_check(*config, native, name@, *c, k3s_index(*c, worker, k as int))
                == Err::<(), Seq<char>>(e@),
        },
{
    let ghost idx = k3s_index(*c, worker, k as int);
    let ghost all = views(k3s_machines(*c));
    let machine_name = if worker {
        &c.worker_machines[k]
    } else {
        &c.server_machines[k]
    };
    assert(machine_name@ == all[idx]);
    if str_is_blank(machine_name.as_str()) {
        if worker {
            return Err(
                fail3("k3s cluster '", name, "' worker machines must not contain empty names"),
            );
        } else {
            return Err(
                fail3("k3s cluster '", name, "' control-plane machines must not contain empty names"),
            );
        }
    }
    if k3s_machine_repeats(c, worker, k) {
        return Err(
            fail5(
                "k3s cluster '",
                name,
                "' reuses machine '",
                machine_name.as_str(),
                "' across K3s node roles",
            ),
        );
    }
    let role = if worker {
        "worker"
    } else {
        "control-plane"
    };
    validate_k3s_cluster_machine(
        config,
        native,
        name,
        c.control_plane.as_str(),
        c.host_group.as_str(),
        machine_name.as_str(),
        role,
    )
}

pub fn validate_k3s_cluster(
    config: &PortConfig,
    native: MachineArchitecture,
    name: &str,
    c: &K3sClusterSpec,
) -> (r: Result<(), ValidationError>)
    ensures
        outcome(r) == k3s_check(*config, native, name@, *c),
{
    let shape = validate_k3s_shape(config, name, c);
    if shape.is_err() {
        return shape;
    }
    let ghost check = |i: int| k3s_member_check(*config, native, name@, *c, i);
    let ghost total = k3s_machines(*c).len() as int;
    let servers = c.server_machines.len();
    let mut distinct: NameMap<()> = NameMap::new();
    let mut k: usize = 0;
    assert(distinct@ =~= distinct_candidates(*config, native, name@, *c, 0));
    while k < servers
        invariant
            servers == c.server_machines@.len(),
            total == k3s_machines(*c).len(),
            k3s_shape_check(*config, name@, *c) is Ok,
            k <= servers,
            check == (|i: int| k3s_member_check(*config, native, name@, *c, i)),
            first_failure(k as int, check) is Ok,
            distinct@ == distinct_candidates(*config, native, name@, *c, k as int),
        decreases servers - k,
    {
        let summary = match check_k3s_member(config, native, name, c, false, k) {
            Ok(summary) => summary,
            Err(e) => {
                proof {
                    assert(check(k as int) is Err);
                    lemma_first_failure_stable(k + 1, total, check);
                }
                return Err(e);
            },
        };
        assert(check(k as int) is Ok);
        let ghost base = distinct@;
        let ghost cands = summary@.candidate_nodes;
        assert(views(k3s_machines(*c))[k as int] == c.server_machines@[k as int]@);
        let m = summary.candidate_nodes.len();
        let mut j: usize = 0;
        assert(cands.take(0) =~= Seq::<Seq<char>>::empty());
        while j < m
            invariant
                m == summary.candidate_nodes@.len(),
                cands == views(summary.candidate_nodes@),
                j <= m,
                distinct@ == insert_names(base, cands.take(j as int)),
            decreases m - j,
        {
            distinct.insert(summary.candidate_nodes[j].clone(), ());
            proof {
                assert(cands.take(j + 1).drop_last() =~= cands.take(j as int));
                assert(cands.take(j + 1).last() == summary.candidate_nodes@[j as int]@);
            }
            j = j + 1;
        }
        assert(cands.take(m as int) =~= cands);
        k = k + 1;
    }
    let workers = c.worker_machines.len();
    let mut k: usize = 0;
    while k < workers
        invariant
            servers == c.server_machines@.len(),
            workers == c.worker_machines@.len(),
            total == k3s_machines(*c).len(),
            total == servers + workers,
            k3s_shape_check(*config, name@, *c) is Ok,
            k <= workers,
            check == (|i: int| k3s_member_check(*config, native, name@, *c, i)),
            first_failure(servers + k, check) is Ok,
        decreases workers - k,
    {
        match check_k3s_member(config, native, name, c, true, k) {
            Ok(_) => {},
            Err(e) => {
                proof {
                    assert(check(servers + k) is Err);
                    lemma_first_failure_stable(servers + k + 1, total, check);
                }
                return Err(e);
            },
        }
        assert(check(servers + k) is Ok);
        k = k + 1;
    }
    if c.control_plane_scheduler == HostedSchedulerPolicy::Spread {
        let keys = distinct.keys();
        assert(views(keys@) =~= names_of(distinct@));
        if keys.len() < servers {
            let required = decimal_string(servers as u64);
            let available = decimal_string(keys.len() as u64);
            let mut m = crate::checks::cat5(
                "k3s cluster '",
                name,
                "' requires ",
                required.as_str(),
                " distinct hosted candidate nodes for control-plane scheduler 'spread', but only ",
            );
            m.append(available.as_str());
            m.append(" are available across host group '");
            m.append(c.host_group.as_str());
            m.append("': ");
            if keys.len() == 0 {
                m.append("(none)");
            } else {
                let joined = join_strings(&keys, ", ");
                m.append(joined.as_str());
            }
            let ghost expected = k3s_spread_check(*config, native, name@, *c);
            assert(expected == Err::<(), Seq<char>>(m@));
            return Err(ValidationError::new(m));
        }
    }
    Ok(())
}

} // verus!
