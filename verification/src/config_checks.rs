//! `PortConfig::validate`: every check on a configuration, stage by stage,
//! reporting the first failure.
use vstd::prelude::*;

use crate::checks::{Outcome, first_failure, followed_by, lemma_first_failure_stable, outcome};
use crate::cluster_checks::{cluster_check, k3s_check, validate_cluster, validate_k3s_cluster};
use crate::machine_checks::{machine_check, validate_machine};
use crate::model::{PortConfig, ValidationError, MachineArchitecture, HostedControlPlaneSpec};
use crate::text::{trim, trimmed, str_eq};
use crate::validate::{control_plane_check, host_check, node_check, group_check, distribution_check, validate_hosted_control_plane, validate_host, validate_hosted_node, validate_hosted_host_group, validate_artifact_distribution};

verus! {

/// The first control plane before `i`, at or after `j`, whose trimmed endpoint is `e`.
pub open spec fn earlier_endpoint_owner(
    cps: Seq<(Seq<char>, HostedControlPlaneSpec)>,
    e: Seq<char>,
    j: int,
    i: int,
) -> Option<int>
    decreases i - j,
{
    if j < 0 || j >= i {
        None
    } else if trim(cps[j].1.endpoint@) == e {
        Some(j)
    } else {
        earlier_endpoint_owner(cps, e, j + 1, i)
    }
}

/// A control plane's own checks, then the check that no earlier control
/// plane has the same trimmed endpoint.
pub open spec fn control_plane_stage_check(cps: Seq<(Seq<char>, HostedControlPlaneSpec)>, i: int) -> Outcome {
    let e = trim(cps[i].1.endpoint@);
    followed_by(
        control_plane_check(cps[i].0, cps[i].1),
        match earlier_endpoint_owner(cps, e, 0, i) {
            Some(j) => Err(
                "duplicate hosted control-plane endpoint '"@ + e + "' is configured for '"@
                    + cps[j].0 + "' and '"@ + cps[i].0 + "'"@,
            ),
            None => Ok(()),
        },
    )
}

/// The artifacts in the order they are checked: kernels, then guest images.
pub open spec fn artifact_entries(cfg: PortConfig) -> Seq<(Seq<char>, crate::model::ArtifactSpec)> {
    cfg.artifacts.kernels@ + cfg.artifacts.guest_images@
}

/// Every check on a configuration, in order: control planes, hosts, hosted
/// nodes, host groups, artifact distribution, machines, clusters and K3s
/// clusters, each stage in name order.
pub open spec fn validate_spec(cfg: PortConfig, native: MachineArchitecture) -> Outcome {
    let cps = cfg.control_planes@;
    let hosts = cfg.hosts@;
    let nodes = cfg.nodes@;
    let groups = cfg.host_groups@;
    let artifacts = artifact_entries(cfg);
    let machines = cfg.machines@;
    let clusters = cfg.clusters@;
    let k3s = cfg.k3s_clusters@;
    followed_by(
        first_failure(cps.len() as int, |i: int| control_plane_stage_check(cps, i)),
        followed_by(
            first_failure(hosts.len() as int, |i: int| host_check(hosts[i].0, hosts[i].1)),
            followed_by(
                first_failure(nodes.len() as int, |i: int| node_check(cfg, nodes[i].0, nodes[i].1)),
                followed_by(
                    first_failure(
                        groups.len() as int,
                        |i: int| group_check(cfg, groups[i].0, groups[i].1),
                    ),
                    followed_by(
                        first_failure(
                            artifacts.len() as int,
                            |i: int| distribution_check(artifacts[i].0, artifacts[i].1),
                        ),
                        followed_by(
                            first_failure(
                                machines.len() as int,
                                |i: int| machine_check(cfg, native, machines[i].0, machines[i].1),
                            ),
                            followed_by(
                                first_failure(
                                    clusters.len() as int,
                                    |i: int| cluster_check(cfg, clusters[i].0, clusters[i].1),
                                ),
                                first_failure(
                                    k3s.len() as int,
                                    |i: int| k3s_check(cfg, native, k3s[i].0, k3s[i].1),
                                ),
                            ),
                        ),
                    ),
                ),
            ),
        ),
    )
}

fn validate_control_planes(config: &PortConfig) -> (r: Result<(), ValidationError>)
    ensures
        outcome(r) == first_failure(
            config.control_planes@.len() as int,
            |i: int| control_plane_stage_check(config.control_planes@, i),
        ),
{
    let ghost cps = config.control_planes@;
    let ghost check = |i: int| control_plane_stage_check(cps, i);
    let n = config.control_planes.len();
    let mut endpoints: Vec<String> = Vec::new();
    let mut i: usize = 0;
    while i < n
        invariant
            n == cps.len(),
            cps == config.control_planes@,
            i <= n,
            check == (|i: int| control_plane_stage_check(cps, i)),
            first_failure(i as int, check) is Ok,
            endpoints@.len() == i,
            forall|j: int| 0 <= j < i ==> (#[trigger] endpoints@[j])@ == trim(cps[j].1.endpoint@),
        decreases n - i,
    {
        let name = config.control_planes.name_at(i);
        let cp = config.control_planes.value_at(i);
        let own = validate_hosted_control_plane(name.as_str(), cp);
        if own.is_err() {
            proof {
                assert(check(i as int) is Err);
                lemma_first_failure_stable(i + 1, n as int, check);
            }
            return own;
        }
        assert(control_plane_check(cps[i as int].0, cps[i as int].1) is Ok);
        let endpoint = trimmed(cp.endpoint.as_str());
        let ghost e = endpoint@;
        let mut j: usize = 0;
        while j < i
            invariant
                n == cps.len(),
                cps == config.control_planes@,
                i < n,
                j <= i,
                e == trim(cps[i as int].1.endpoint@),
                endpoint@ == e,
                name@ == cps[i as int].0,
                check == (|i: int| control_plane_stage_check(cps, i)),
                first_failure(i as int, check) is Ok,
                control_plane_check(cps[i as int].0, cps[i as int].1) is Ok,
                endpoints@.len() == i,
                forall|a: int| 0 <= a < i ==> (#[trigger] endpoints@[a])@ == trim(cps[a].1.endpoint@),
                earlier_endpoint_owner(cps, e, 0, i as int) == earlier_endpoint_owner(
                    cps,
                    e,
                    j as int,
                    i as int,
                ),
            decreases i - j,
        {
            if str_eq(endpoints[j].as_str(), endpoint.as_str()) {
                proof {
                    assert(earlier_endpoint_owner(cps, e, j as int, i as int) == Some(j as int));
                    assert(check(i as int) is Err);
                    lemma_first_failure_stable(i + 1, n as int, check);
                }
                let mut m = crate::checks::cat5(
                    "duplicate hosted control-plane endpoint '",
                    endpoint.as_str(),
                    "' is configured for '",
                    config.control_planes.name_at(j).as_str(),
                    "' and '",
                );
                m.append(name.as_str());
                m.append("'");
                let ghost expected = check(i as int);
                assert(expected == Err::<(), Seq<char>>(m@));
                return Err(ValidationError::new(m));
            }
            j = j + 1;
        }
        assert(check(i as int) is Ok);
        endpoints.push(endpoint);
        i = i + 1;
    }
    Ok(())
}

fn validate_hosts(config: &PortConfig) -> (r: Result<(), ValidationError>)
    ensures
        outcome(r) == first_failure(
            config.hosts@.len() as int,
            |i: int| host_check(config.hosts@[i].0, config.hosts@[i].1),
        ),
{
    let ghost check = |i: int| host_check(config.hosts@[i].0, config.hosts@[i].1);
    let n = config.hosts.len();
    let mut i: usize = 0;
    while i < n
        invariant
            n == config.hosts@.len(),
            i <= n,
            check == (|i: int| host_check(config.hosts@[i].0, config.hosts@[i].1)),
            first_failure(i as int, check) is Ok,
        decreases n - i,
    {
        let r = validate_host(config.hosts.name_at(i).as_str(), config.hosts.value_at(i));
        if r.is_err() {
            proof {
                lemma_first_failure_stable(i + 1, n as int, check);
            }
            return r;
        }
        i = i + 1;
    }
    Ok(())
}

fn validate_nodes(config: &PortConfig) -> (r: Result<(), ValidationError>)
    ensures
        outcome(r) == first_failure(
            config.nodes@.len() as int,
            |i: int| node_check(*config, config.nodes@[i].0, config.nodes@[i].1),
        ),
{
    let ghost check = |i: int| node_check(*config, config.nodes@[i].0, config.nodes@[i].1);
    let n = config.nodes.len();
    let mut i: usize = 0;
    while i < n
        invariant
            n == config.nodes@.len(),
            i <= n,
            check == (|i: int| node_check(*config, config.nodes@[i].0, config.nodes@[i].1)),
            first_failure(i as int, check) is Ok,
        decreases n - i,
    {
        let r = validate_hosted_node(config, config.nodes.name_at(i).as_str(), config.nodes.value_at(i));
        if r.is_err() {
            proof {
                lemma_first_failure_stable(i + 1, n as int, check);
            }
            return r;
        }
        i = i + 1;
    }
    Ok(())
}

fn validate_host_groups(config: &PortConfig) -> (r: Result<(), ValidationError>)
    ensures
        outcome(r) == first_failure(
            config.host_groups@.len() as int,
            |i: int| group_check(*config, config.host_groups@[i].0, config.host_groups@[i].1),
        ),
{
    let ghost check = |i: int| group_check(*config, config.host_groups@[i].0, config.host_groups@[i].1);
    let n = config.host_groups.len();
    let mut i: usize = 0;
    while i < n
        invariant
            n == config.host_groups@.len(),
            i <= n,
            check == (|i: int|
                group_check(*config, config.host_groups@[i].0, config.host_groups@[i].1)),
            first_failure(i as int, check) is Ok,
        decreases n - i,
    {
        let r = validate_hosted_host_group(
            config,
            config.host_groups.name_at(i).as_str(),
            config.host_groups.value_at(i),
        );
        if r.is_err() {
            proof {
                lemma_first_failure_stable(i + 1, n as int, check);
            }
            return r;
        }
        i = i + 1;
    }
    Ok(())
}

fn validate_distributions(config: &PortConfig) -> (r: Result<(), ValidationError>)
    ensures
        outcome(r) == first_failure(
            artifact_entries(*config).len() as int,
            |i: int| distribution_check(artifact_entries(*config)[i].0, artifact_entries(*config)[i].1),
        ),
{
    let ghost entries = artifact_entries(*config);
    let ghost check = |i: int| distribution_check(entries[i].0, entries[i].1);
    let all = config.artifacts.all();
    let n = all.len();
    let ghost k = config.artifacts.kernels@.len();
    assert(n == entries.len());
    let mut i: usize = 0;
    while i < n
        invariant
            n == all@.len(),
            n == entries.len(),
            entries == artifact_entries(*config),
            k == config.artifacts.kernels@.len(),
            forall|j: int|
                0 <= j < k ==> (#[trigger] all@[j]).0@ == config.artifacts.kernels@[j].0
                    && *all@[j].1 == config.artifacts.kernels@[j].1,
            forall|j: int|
                0 <= j < config.artifacts.guest_images@.len() ==> (#[trigger] all@[j + k]).0@
                    == config.artifacts.guest_images@[j].0 && *all@[j + k].1
                    == config.artifacts.guest_images@[j].1,
            i <= n,
            check == (|i: int| distribution_check(entries[i].0, entries[i].1)),
            first_failure(i as int, check) is Ok,
        decreases n - i,
    {
        let (name, artifact) = all[i];
        proof {
            if i < k {
                assert(all@[i as int].0@ == entries[i as int].0);
                assert(*all@[i as int].1 == entries[i as int].1);
            } else {
                let j = i - k;
                assert(all@[j + k].0@ == config.artifacts.guest_images@[j].0);
                assert(entries[i as int] == config.artifacts.guest_images@[j]);
            }
        }
        let r = validate_artifact_distribution(name.as_str(), artifact);
        if r.is_err() {
            proof {
                lemma_first_failure_stable(i + 1, n as int, check);
            }
            return r;
        }
        i = i + 1;
    }
    Ok(())
}

fn validate_machines(config: &PortConfig, native: MachineArchitecture) -> (r: Result<(), ValidationError>)
    ensures
        outcome(r) == first_failure(
            config.machines@.len() as int,
            |i: int| machine_check(*config, native, config.machines@[i].0, config.machines@[i].1),
        ),
{
    let ghost check = |i: int|
        machine_check(*config, native, config.machines@[i].0, config.machines@[i].1);
    let n = config.machines.len();
    let mut i: usize = 0;
    while i < n
        invariant
            n == config.machines@.len(),
            i <= n,
            check == (|i: int|
                machine_check(*config, native, config.machines@[i].0, config.machines@[i].1)),
            first_failure(i as int, check) is Ok,
        decreases n - i,
    {
        let r = validate_machine(
            config,
            native,
            config.machines.name_at(i).as_str(),
            config.machines.value_at(i),
        );
        if r.is_err() {
            proof {
                lemma_first_failure_stable(i + 1, n as int, check);
            }
            return r;
        }
        i = i + 1;
    }
    Ok(())
}

fn validate_clusters(config: &PortConfig) -> (r: Result<(), ValidationError>)
    ensures
        outcome(r) == first_failure(
            config.clusters@.len() as int,
            |i: int| cluster_check(*config, config.clusters@[i].0, config.clusters@[i].1),
        ),
{
    let ghost check = |i: int| cluster_check(*config, config.clusters@[i].0, config.clusters@[i].1);
    let n = config.clusters.len();
    let mut i: usize = 0;
    while i < n
        invariant
            n == config.clusters@.len(),
            i <= n,
            check == (|i: int| cluster_check(*config, config.clusters@[i].0, config.clusters@[i].1)),
            first_failure(i as int, check) is Ok,
        decreases n - i,
    {
        let r = validate_cluster(
            config,
            config.clusters.name_at(i).as_str(),
            config.clusters.value_at(i),
        );
        if r.is_err() {
            proof {
                lemma_first_failure_stable(i + 1, n as int, check);
            }
            return r;
        }
        i = i + 1;
    }
    Ok(())
}

fn validate_k3s_clusters(config: &PortConfig, native: MachineArchitecture) -> (r: Result<
    (),
    ValidationError,
>)
    ensures
        outcome(r) == first_failure(
            config.k3s_clusters@.len() as int,
            |i: int| k3s_check(*config, native, config.k3s_clusters@[i].0, config.k3s_clusters@[i].1),
        ),
{
    let ghost check = |i: int|
        k3s_check(*config, native, config.k3s_clusters@[i].0, config.k3s_clusters@[i].1);
    let n = config.k3s_clusters.len();
    let mut i: usize = 0;
    while i < n
        invariant
            n == config.k3s_clusters@.len(),
            i <= n,
            check == (|i: int|
                k3s_check(*config, native, config.k3s_clusters@[i].0, config.k3s_clusters@[i].1)),
            first_failure(i as int, check) is Ok,
        decreases n - i,
    {
        let r = validate_k3s_cluster(
            config,
            native,
            config.k3s_clusters.name_at(i).as_str(),
            config.k3s_clusters.value_at(i),
        );
        if r.is_err() {
            proof {
                lemma_first_failure_stable(i + 1, n as int, check);
            }
            return r;
        }
        i = i + 1;
    }
    Ok(())
}

impl PortConfig {
    /// Checks the whole configuration and reports the first failure.
    /// `native` is the architecture of this host, for machines that ask for
    /// `Native`; `Native` itself stands for a host whose architecture Port
    /// does not model.
    pub fn validate(&self, native: MachineArchitecture) -> (r: Result<(), ValidationError>)
        ensures
            outcome(r) == validate_spec(*self, native),
    {
        let r = validate_control_planes(self);
        if r.is_err() {
            return r;
        }
        let r = validate_hosts(self);
        if r.is_err() {
            return r;
        }
        let r = validate_nodes(self);
        if r.is_err() {
            return r;
        }
        let r = validate_host_groups(self);
        if r.is_err() {
            return r;
        }
        let r = validate_distributions(self);
        if r.is_err() {
            return r;
        }
        let r = validate_machines(self, native);
        if r.is_err() {
            return r;
        }
        let r = validate_clusters(self);
        if r.is_err() {
            return r;
        }
        validate_k3s_clusters(self, native)
    }
}

} // verus!
