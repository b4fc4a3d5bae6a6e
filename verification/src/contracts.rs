//! The contracts derived from a configuration: who controls a machine, which
//! hosted identity it uses, and what the hosted inventory holds.
use vstd::prelude::*;

use crate::checks::{Outcome, first_failure, followed_by, with_message, viewed, fail3, fail5, fail7, lemma_first_failure_stable};
use crate::control::contract_for;
use crate::model::{PortConfig, ValidationError, MachineControlContract, HostConnection, HostedApiIdentityContract, HostedArtifactIdentityContract, HostedControlPlaneSpec, MachineCommandRoute};
use crate::named_map::{lookup, NameMap, lemma_insert_sorted_greatest, sorted_names, find};
use crate::model::{HostedNodeSpec, HostedHostGroupSpec, HostedInventoryContract, HostedNodeContract, HostedHostGroupContract, MachineInventoryOwner, MachineLifecycleOwner};
use crate::views::{HostedNodeContractView, HostedHostGroupContractView, HostedInventoryContractView};
use crate::text::views;
use crate::text::{trim, trimmed, str_eq};

verus! {

/// `unknown machine '<name>'`.
pub open spec fn unknown_machine_text(machine_name: Seq<char>) -> Seq<char> {
    "unknown machine '"@ + machine_name + "'"@
}

/// `machine '<name>' references unknown host '<host>'`.
pub open spec fn unknown_host_text(machine_name: Seq<char>, host: Seq<char>) -> Seq<char> {
    "machine '"@ + machine_name + "' references unknown host '"@ + host + "'"@
}

/// The control contract of a machine: the one its host's connection calls for.
pub open spec fn machine_control_spec(cfg: PortConfig, machine_name: Seq<char>) -> Result<
    MachineControlContract,
    Seq<char>,
> {
    match lookup(cfg.machines@, machine_name) {
        None => Err(unknown_machine_text(machine_name)),
        Some(machine) => match lookup(cfg.hosts@, machine.host@) {
            None => Err(unknown_host_text(machine_name, machine.host@)),
            Some(host) => Ok(contract_for(host.connection)),
        },
    }
}

/// The hosted API identity of a machine: none for local and ssh-managed
/// hosts, else the identity of the control plane that its host names.
pub open spec fn api_identity_spec(cfg: PortConfig, machine_name: Seq<char>) -> Result<
    Option<HostedApiIdentityContract>,
    Seq<char>,
> {
    match lookup(cfg.machines@, machine_name) {
        None => Err(unknown_machine_text(machine_name)),
        Some(machine) => match lookup(cfg.hosts@, machine.host@) {
            None => Err(unknown_host_text(machine_name, machine.host@)),
            Some(host) => match host.connection {
                HostConnection::HostedControlPlane { control_plane } => match lookup(
                    cfg.control_planes@,
                    control_plane@,
                ) {
                    None => Err(
                        "host '"@ + machine.host@ + "' references unknown control plane '"@
                            + control_plane@ + "'"@,
                    ),
                    Some(spec) => Ok(
                        Some(
                            HostedApiIdentityContract {
                                control_plane,
                                endpoint: spec.endpoint,
                                audience: spec.audience,
                                auth: spec.auth,
                                route: MachineCommandRoute::HostedControlPlane,
                            },
                        ),
                    ),
                },
                _ => Ok(None),
            },
        },
    }
}

/// The index of the first control plane at or after `i` whose endpoint is exactly `endpoint`.
pub open spec fn endpoint_owner_from(
    cps: Seq<(Seq<char>, HostedControlPlaneSpec)>,
    endpoint: Seq<char>,
    i: int,
) -> Option<int>
    decreases cps.len() - i,
{
    if i < 0 || i >= cps.len() {
        None
    } else if cps[i].1.endpoint@ == endpoint {
        Some(i)
    } else {
        endpoint_owner_from(cps, endpoint, i + 1)
    }
}

pub proof fn lemma_endpoint_owner_from(
    cps: Seq<(Seq<char>, HostedControlPlaneSpec)>,
    endpoint: Seq<char>,
    i: int,
)
    requires
        0 <= i,
    ensures
        endpoint_owner_from(cps, endpoint, i) matches Some(j) ==> i <= j < cps.len()
            && cps[j].1.endpoint@ == endpoint,
    decreases cps.len() - i,
{
    if i < cps.len() && cps[i].1.endpoint@ != endpoint {
        lemma_endpoint_owner_from(cps, endpoint, i + 1);
    }
}

/// The position of the one control plane whose endpoint is exactly the
/// trimmed `endpoint`, or why there is none.
pub open spec fn artifact_endpoint_owner(cfg: PortConfig, endpoint: Seq<char>) -> Result<
    int,
    Seq<char>,
> {
    let e = trim(endpoint);
    let cps = cfg.control_planes@;
    if e.len() == 0 {
        Err("hosted artifact backend must declare a non-empty endpoint"@)
    } else {
        match endpoint_owner_from(cps, e, 0) {
            None => Err(
                "no control plane is configured for hosted artifact endpoint '"@ + e + "'"@,
            ),
            Some(i) => match endpoint_owner_from(cps, e, i + 1) {
                Some(j) => Err(
                    "hosted artifact endpoint '"@ + e + "' is ambiguous across control planes '"@
                        + cps[i].0 + "' and '"@ + cps[j].0 + "'"@,
                ),
                None => Ok(i),
            },
        }
    }
}

impl PortConfig {
    /// The control contract of the machine named `machine_name`.
    pub fn machine_control_contract(&self, machine_name: &str) -> (r: Result<
        MachineControlContract,
        ValidationError,
    >)
        ensures
            with_message(r) == machine_control_spec(*self, machine_name@),
    {
        let machine = match self.machines.get(machine_name) {
            Some(machine) => machine,
            None => {
                return Err(fail3("unknown machine '", machine_name, "'"));
            },
        };
        let host = match self.hosts.get(machine.host.as_str()) {
            Some(host) => host,
            None => {
                return Err(
                    fail5(
                        "machine '",
                        machine_name,
                        "' references unknown host '",
                        machine.host.as_str(),
                        "'",
                    ),
                );
            },
        };
        Ok(MachineControlContract::for_connection(&host.connection))
    }

    /// The hosted API identity of the machine named `machine_name`, when its
    /// host resolves through a hosted control plane.
    pub fn hosted_api_identity_contract(&self, machine_name: &str) -> (r: Result<
        Option<HostedApiIdentityContract>,
        ValidationError,
    >)
        ensures
            with_message(r) == api_identity_spec(*self, machine_name@),
    {
        let machine = match self.machines.get(machine_name) {
            Some(machine) => machine,
            None => {
                return Err(fail3("unknown machine '", machine_name, "'"));
            },
        };
        let host = match self.hosts.get(machine.host.as_str()) {
            Some(host) => host,
            None => {
                return Err(
                    fail5(
                        "machine '",
                        machine_name,
                        "' references unknown host '",
                        machine.host.as_str(),
                        "'",
                    ),
                );
            },
        };
        match &host.connection {
            HostConnection::HostedControlPlane { control_plane } => {
                let spec = match self.control_planes.get(control_plane.as_str()) {
                    Some(spec) => spec,
                    None => {
                        return Err(
                            fail5(
                                "host '",
                                machine.host.as_str(),
                                "' references unknown control plane '",
                                control_plane.as_str(),
                                "'",
                            ),
                        );
                    },
                };
                Ok(
                    Some(
                        HostedApiIdentityContract {
                            control_plane: control_plane.clone(),
                            endpoint: spec.endpoint.clone(),
                            audience: spec.audience.clone(),
                            auth: spec.auth.clone(),
                            route: MachineCommandRoute::HostedControlPlane,
                        },
                    ),
                )
            },
            _ => Ok(None),
        }
    }

    /// The identity of the control plane that serves hosted artifacts at `endpoint`.
    pub fn hosted_artifact_identity_contract(&self, endpoint: &str) -> (r: Result<
        HostedArtifactIdentityContract,
        ValidationError,
    >)
        ensures
            match r {
                Ok(c) => artifact_endpoint_owner(*self, endpoint@) matches Ok(i) && 0 <= i
                    < self.control_planes@.len() && c.control_plane@ == self.control_planes@[i].0
                    && c.endpoint == self.control_planes@[i].1.endpoint && c.audience
                    == self.control_planes@[i].1.audience && c.auth
                    == self.control_planes@[i].1.auth,
                Err(e) => artifact_endpoint_owner(*self, endpoint@) == Err::<int, Seq<char>>(e@),
            },
    {
        let e = trimmed(endpoint);
        if e.unicode_len() == 0 {
            return Err(
                ValidationError::new(
                    String::from_str("hosted artifact backend must declare a non-empty endpoint"),
                ),
            );
        }
        let ghost cps = self.control_planes@;
        let n = self.control_planes.len();
        let mut first: Option<usize> = None;
        let mut i: usize = 0;
        while i < n
            invariant
                n == cps.len(),
                cps == self.control_planes@,
                e@ == trim(endpoint@),
                e@.len() > 0,
                i <= n,
                match first {
                    None => endpoint_owner_from(cps, e@, 0) == endpoint_owner_from(cps, e@, i as int),
                    Some(f) => f < i && endpoint_owner_from(cps, e@, 0) == Some(f as int)
                        && endpoint_owner_from(cps, e@, f + 1) == endpoint_owner_from(
                        cps,
                        e@,
                        i as int,
                    ),
                },
            decreases n - i,
        {
            let spec = self.control_planes.value_at(i);
            if str_eq(spec.endpoint.as_str(), e.as_str()) {
                assert(endpoint_owner_from(cps, e@, i as int) == Some(i as int));
                match first {
                    None => {
                        first = Some(i);
                    },
                    Some(f) => {
                        proof {
                            lemma_endpoint_owner_from(cps, e@, f + 1);
                        }
                        return Err(
                            fail7(
                                "hosted artifact endpoint '",
                                e.as_str(),
                                "' is ambiguous across control planes '",
                                self.control_planes.name_at(f).as_str(),
                                "' and '",
                                self.control_planes.name_at(i).as_str(),
                                "'",
                            ),
                        );
                    },
                }
            }
            proof {
                if !(spec.endpoint@ == e@) {
                    assert(endpoint_owner_from(cps, e@, i as int) == endpoint_owner_from(cps, e@, i + 1));
                }
            }
            i = i + 1;
        }
        match first {
            None => Err(
                fail3(
                    "no control plane is configured for hosted artifact endpoint '",
                    e.as_str(),
                    "'",
                ),
            ),
            Some(f) => {
                proof {
                    lemma_endpoint_owner_from(cps, e@, 0);
                }
                let spec = self.control_planes.value_at(f);
                Ok(
                    HostedArtifactIdentityContract {
                        control_plane: self.control_planes.name_at(f).clone(),
                        endpoint: spec.endpoint.clone(),
                        audience: spec.audience.clone(),
                        auth: spec.auth.clone(),
                    },
                )
            },
        }
    }
}

// ---------------------------------------------------------------------------
// The hosted inventory

/// The control plane a hosted node resolves through, or why it does not.
pub open spec fn node_control_plane(cfg: PortConfig, node_name: Seq<char>, node: HostedNodeSpec) -> Result<
    Seq<char>,
    Seq<char>,
> {
    match lookup(cfg.hosts@, node.host@) {
        None => Err("node '"@ + node_name + "' references unknown host '"@ + node.host@ + "'"@),
        Some(host) => match host.connection {
            HostConnection::Local => Err(
                "node '"@ + node_name + "' references local host '"@ + node.host@
                    + "' but hosted nodes must target a hosted control plane"@,
            ),
            HostConnection::Ssh { .. } => Err(
                "node '"@ + node_name + "' references ssh-managed host '"@ + node.host@
                    + "' but hosted nodes must target a hosted control plane"@,
            ),
            HostConnection::HostedControlPlane { control_plane } => Ok(control_plane@),
        },
    }
}

/// The control plane of a hosted node, empty when it resolves through none.
pub open spec fn node_cp(cfg: PortConfig, node: HostedNodeSpec) -> Seq<char> {
    match node_control_plane(cfg, Seq::empty(), node) {
        Ok(cp) => cp,
        Err(_) => Seq::empty(),
    }
}

/// The control plane of the hosted node named `name`, empty when there is none.
pub open spec fn member_cp(cfg: PortConfig, name: Seq<char>) -> Seq<char> {
    match lookup(cfg.nodes@, name) {
        Some(node) => node_cp(cfg, node),
        None => Seq::empty(),
    }
}

pub open spec fn inventory_node_check(cfg: PortConfig, i: int) -> Outcome {
    match node_control_plane(cfg, cfg.nodes@[i].0, cfg.nodes@[i].1) {
        Ok(_) => Ok(()),
        Err(e) => Err(e),
    }
}

/// The contract of a hosted node that resolves through `control_plane`.
pub open spec fn node_contract_view(node: HostedNodeSpec, control_plane: Seq<char>) -> HostedNodeContractView {
    HostedNodeContractView {
        host: node.host@,
        runtime_root: node.runtime_root@,
        control_plane,
        inventory_owner: MachineInventoryOwner::HostedControlPlane,
        lifecycle_owner: MachineLifecycleOwner::HostedNodeAgent,
        capabilities: node.capabilities@,
        notes: views(node.notes@),
    }
}

pub open spec fn inventory_member_check(
    cfg: PortConfig,
    group_name: Seq<char>,
    members: Seq<String>,
    k: int,
) -> Outcome {
    match lookup(cfg.nodes@, members[k]@) {
        None => Err(
            "host group '"@ + group_name + "' references unknown node '"@ + members[k]@ + "'"@,
        ),
        Some(node) => if k > 0 && member_cp(cfg, members[0]@) != node_cp(cfg, node) {
            Err(
                "host group '"@ + group_name + "' mixes nodes from control planes '"@ + member_cp(
                    cfg,
                    members[0]@,
                ) + "' and '"@ + node_cp(cfg, node) + "'"@,
            )
        } else {
            Ok(())
        },
    }
}

/// A host group's members resolve to nodes of one control plane, and there is one at least.
pub open spec fn inventory_group_check(cfg: PortConfig, group_name: Seq<char>, group: HostedHostGroupSpec) -> Outcome {
    followed_by(
        first_failure(
            group.nodes@.len() as int,
            |k: int| inventory_member_check(cfg, group_name, group.nodes@, k),
        ),
        if group.nodes@.len() == 0 {
            Err("host group '"@ + group_name + "' must contain at least one node"@)
        } else {
            Ok(())
        },
    )
}

pub open spec fn group_contract_view(cfg: PortConfig, group: HostedHostGroupSpec) -> HostedHostGroupContractView {
    HostedHostGroupContractView {
        control_plane: member_cp(cfg, group.nodes@[0]@),
        inventory_owner: MachineInventoryOwner::HostedControlPlane,
        placement: group.placement,
        scheduler: group.scheduler,
        nodes: views(group.nodes@),
        notes: views(group.notes@),
    }
}

/// The hosted inventory: every node with the control plane it resolves
/// through, then every host group with its members, each in name order.
pub open spec fn inventory_spec(cfg: PortConfig) -> Result<HostedInventoryContractView, Seq<char>> {
    let nodes = cfg.nodes@;
    let groups = cfg.host_groups@;
    match followed_by(
        first_failure(nodes.len() as int, |i: int| inventory_node_check(cfg, i)),
        first_failure(
            groups.len() as int,
            |i: int| inventory_group_check(cfg, groups[i].0, groups[i].1),
        ),
    ) {
        Err(e) => Err(e),
        Ok(_) => Ok(
            HostedInventoryContractView {
                nodes: Seq::new(
                    nodes.len(),
                    |i: int| (nodes[i].0, node_contract_view(nodes[i].1, node_cp(cfg, nodes[i].1))),
                ),
                host_groups: Seq::new(
                    groups.len(),
                    |i: int| (groups[i].0, group_contract_view(cfg, groups[i].1)),
                ),
            },
        ),
    }
}

fn inventory_node(config: &PortConfig, node_name: &str, node: &HostedNodeSpec) -> (r: Result<
    HostedNodeContract,
    ValidationError,
>)
    ensures
        match r {
            Ok(c) => node_control_plane(*config, node_name@, *node) is Ok && c@ == node_contract_view(
                *node,
                node_cp(*config, *node),
            ),
            Err(e) => node_control_plane(*config, node_name@, *node) == Err::<Seq<char>, Seq<char>>(
                e@,
            ),
        },
{
    let host = match config.hosts.get(node.host.as_str()) {
        Some(host) => host,
        None => {
            return Err(
                fail5("node '", node_name, "' references unknown host '", node.host.as_str(), "'"),
            );
        },
    };
    let control_plane = match &host.connection {
        HostConnection::Local => {
            return Err(
                fail5(
                    "node '",
                    node_name,
                    "' references local host '",
                    node.host.as_str(),
                    "' but hosted nodes must target a hosted control plane",
                ),
            );
        },
        HostConnection::HostedControlPlane { control_plane } => control_plane.clone(),
        HostConnection::Ssh { .. } => {
            return Err(
                fail5(
                    "node '",
                    node_name,
                    "' references ssh-managed host '",
                    node.host.as_str(),
                    "' but hosted nodes must target a hosted control plane",
                ),
            );
        },
    };
    Ok(
        HostedNodeContract {
            host: node.host.clone(),
            runtime_root: node.runtime_root.clone(),
            control_plane,
            inventory_owner: MachineInventoryOwner::HostedControlPlane,
            lifecycle_owner: MachineLifecycleOwner::HostedNodeAgent,
            capabilities: node.capabilities.clone(),
            notes: crate::views::copy_strings(&node.notes),
        },
    )
}

fn inventory_group(
    config: &PortConfig,
    nodes: &NameMap<HostedNodeContract>,
    group_name: &str,
    group: &HostedHostGroupSpec,
) -> (r: Result<HostedHostGroupContract, ValidationError>)
    requires
        names_match(nodes@, config.nodes@),
        forall|i: int|
            0 <= i < nodes@.len() ==> (#[trigger] nodes@[i]).1.control_plane@ == node_cp(
                *config,
                config.nodes@[i].1,
            ),
    ensures
        match r {
            Ok(c) => inventory_group_check(*config, group_name@, *group) is Ok && c@
                == group_contract_view(*config, *group),
            Err(e) => inventory_group_check(*config, group_name@, *group) == Err::<(), Seq<char>>(
                e@,
            ),
        },
{
    let ghost check = |k: int| inventory_member_check(*config, group_name@, group.nodes@, k);
    let n = group.nodes.len();
    let mut members: Vec<String> = Vec::new();
    let mut control_plane: Option<String> = None;
    let mut k: usize = 0;
    while k < n
        invariant
            n == group.nodes@.len(),
            k <= n,
            names_match(nodes@, config.nodes@),
            forall|i: int|
                0 <= i < nodes@.len() ==> (#[trigger] nodes@[i]).1.control_plane@ == node_cp(
                    *config,
                    config.nodes@[i].1,
                ),
            check == (|k: int| inventory_member_check(*config, group_name@, group.nodes@, k)),
            first_failure(k as int, check) is Ok,
            members@ == group.nodes@.take(k as int),
            match control_plane {
                None => k == 0,
                Some(cp) => k > 0 && cp@ == member_cp(*config, group.nodes@[0]@),
            },
        decreases n - k,
    {
        let member = &group.nodes[k];
        let node = match nodes.get(member.as_str()) {
            Some(node) => node,
            None => {
                proof {
                    lemma_lookup_names_match(nodes@, config.nodes@, member@);
                    assert(check(k as int) is Err);
                    lemma_first_failure_stable(k + 1, n as int, check);
                }
                return Err(
                    fail5(
                        "host group '",
                        group_name,
                        "' references unknown node '",
                        member.as_str(),
                        "'",
                    ),
                );
            },
        };
        proof {
            lemma_lookup_names_match(nodes@, config.nodes@, member@);
        }
        match &control_plane {
            Some(current) => {
                if !str_eq(current.as_str(), node.control_plane.as_str()) {
                    proof {
                        assert(check(k as int) is Err);
                        lemma_first_failure_stable(k + 1, n as int, check);
                    }
                    return Err(
                        fail7(
                            "host group '",
                            group_name,
                            "' mixes nodes from control planes '",
                            current.as_str(),
                            "' and '",
                            node.control_plane.as_str(),
                            "'",
                        ),
                    );
                }
            },
            None => {
                control_plane = Some(node.control_plane.clone());
            },
        }
        assert(check(k as int) is Ok);
        members.push(member.clone());
        assert(members@ =~= group.nodes@.take(k + 1));
        k = k + 1;
    }
    assert(group.nodes@.take(n as int) =~= group.nodes@);
    match control_plane {
        None => Err(fail3("host group '", group_name, "' must contain at least one node")),
        Some(cp) => Ok(
            HostedHostGroupContract {
                control_plane: cp,
                inventory_owner: MachineInventoryOwner::HostedControlPlane,
                placement: group.placement,
                scheduler: group.scheduler,
                nodes: members,
                notes: crate::views::copy_strings(&group.notes),
            },
        ),
    }
}

/// Two entry lists hold the same names in the same order.
pub open spec fn names_match<V, W>(a: Seq<(Seq<char>, V)>, b: Seq<(Seq<char>, W)>) -> bool {
    &&& a.len() == b.len()
    &&& forall|i: int| 0 <= i < a.len() ==> (#[trigger] a[i]).0 == b[i].0
}

/// Looking a name up in lists with the same names finds the same position.
pub proof fn lemma_lookup_names_match<V, W>(a: Seq<(Seq<char>, V)>, b: Seq<(Seq<char>, W)>, k: Seq<char>)
    requires
        names_match(a, b),
    ensures
        find(a, k) == find(b, k),
        lookup(a, k) matches Some(v) ==> find(a, k) matches Some(i) && 0 <= i < a.len() && a[i].1 == v,
        lookup(b, k) matches Some(w) ==> find(b, k) matches Some(i) && 0 <= i < b.len() && b[i].1 == w,
{
    lemma_find_names_match(a, b, k, 0);
    crate::named_map::lemma_find_from_found(a, k, 0);
}

proof fn lemma_find_names_match<V, W>(a: Seq<(Seq<char>, V)>, b: Seq<(Seq<char>, W)>, k: Seq<char>, i: int)
    requires
        names_match(a, b),
        0 <= i,
    ensures
        crate::named_map::find_from(a, k, i) == crate::named_map::find_from(b, k, i),
    decreases a.len() - i,
{
    if i < a.len() {
        lemma_find_names_match(a, b, k, i + 1);
    }
}

impl PortConfig {
    /// The hosted inventory: each node with the control plane it resolves
    /// through, and each host group with its members.
    pub fn hosted_inventory_contract(&self) -> (r: Result<HostedInventoryContract, ValidationError>)
        ensures
            viewed(r) == inventory_spec(*self),
    {
        let ghost cfg = *self;
        let ghost node_check = |i: int| inventory_node_check(cfg, i);
        let n = self.nodes.len();
        let mut nodes: NameMap<HostedNodeContract> = NameMap::new();
        let mut i: usize = 0;
        while i < n
            invariant
                cfg == *self,
                n == self.nodes@.len(),
                sorted_names(self.nodes@),
                i <= n,
                node_check == (|i: int| inventory_node_check(cfg, i)),
                first_failure(i as int, node_check) is Ok,
                nodes@.len() == i,
                forall|j: int|
                    0 <= j < i ==> (#[trigger] nodes@[j]).0 == self.nodes@[j].0 && nodes@[j].1@
                        == node_contract_view(self.nodes@[j].1, node_cp(cfg, self.nodes@[j].1)),
            decreases n - i,
        {
            let name = self.nodes.name_at(i);
            let node = self.nodes.value_at(i);
            let contract = match inventory_node(self, name.as_str(), node) {
                Ok(contract) => contract,
                Err(e) => {
                    proof {
                        assert(node_check(i as int) is Err);
                        lemma_first_failure_stable(i + 1, n as int, node_check);
                    }
                    return Err(e);
                },
            };
            proof {
                assert(node_check(i as int) is Ok);
                assert forall|j: int| 0 <= j < nodes@.len() implies crate::named_map::name_lt(
                    #[trigger] nodes@[j].0,
                    name@,
                ) by {
                    assert(nodes@[j].0 == self.nodes@[j].0);
                }
                lemma_insert_sorted_greatest(nodes@, name@, contract);
            }
            nodes.insert(name.clone(), contract);
            i = i + 1;
        }
        let ghost groups = self.host_groups@;
        let ghost group_check = |i: int| inventory_group_check(cfg, groups[i].0, groups[i].1);
        let m = self.host_groups.len();
        let mut host_groups: NameMap<HostedHostGroupContract> = NameMap::new();
        let mut g: usize = 0;
        while g < m
            invariant
                cfg == *self,
                groups == self.host_groups@,
                m == groups.len(),
                sorted_names(groups),
                g <= m,
                n == self.nodes@.len(),
                first_failure(n as int, node_check) is Ok,
                node_check == (|i: int| inventory_node_check(cfg, i)),
                group_check == (|i: int| inventory_group_check(cfg, groups[i].0, groups[i].1)),
                first_failure(g as int, group_check) is Ok,
                names_match(nodes@, self.nodes@),
                forall|j: int|
                    0 <= j < nodes@.len() ==> (#[trigger] nodes@[j]).1@ == node_contract_view(
                        self.nodes@[j].1,
                        node_cp(cfg, self.nodes@[j].1),
                    ),
                host_groups@.len() == g,
                forall|j: int|
                    0 <= j < g ==> (#[trigger] host_groups@[j]).0 == groups[j].0
                        && host_groups@[j].1@ == group_contract_view(cfg, groups[j].1),
            decreases m - g,
        {
            let name = self.host_groups.name_at(g);
            let group = self.host_groups.value_at(g);
            let contract = match inventory_group(self, &nodes, name.as_str(), group) {
                Ok(contract) => contract,
                Err(e) => {
                    proof {
                        assert(group_check(g as int) is Err);
                        lemma_first_failure_stable(g + 1, m as int, group_check);
                    }
                    return Err(e);
                },
            };
            proof {
                assert(group_check(g as int) is Ok);
                assert forall|j: int| 0 <= j < host_groups@.len() implies crate::named_map::name_lt(
                    #[trigger] host_groups@[j].0,
                    name@,
                ) by {
                    assert(host_groups@[j].0 == groups[j].0);
                }
                lemma_insert_sorted_greatest(host_groups@, name@, contract);
            }
            host_groups.insert(name.clone(), contract);
            g = g + 1;
        }
        let r = HostedInventoryContract { nodes, host_groups };
        proof {
            let expected = inventory_spec(cfg);
            assert(expected is Ok);
            assert(r@.nodes =~= expected->Ok_0.nodes);
            assert(r@.host_groups =~= expected->Ok_0.host_groups);
        }
        Ok(r)
    }
}

} // verus!
