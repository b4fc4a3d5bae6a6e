//! The summary of a hosted machine: the nodes of its host that can run it,
//! the nodes that cannot and why, and the host groups those nodes belong to.
use vstd::prelude::*;

use crate::checks::{fail3, fail5};
use crate::contracts::{machine_control_spec, api_identity_spec, inventory_spec, unknown_machine_text, unknown_host_text};
use crate::model::{PortConfig, ValidationError, MachineArchitecture, MachineSpec, MachineInventoryScope, HostedMachineSummaryContract, HostedSchedulerPolicy, HostedMachineStatusContract, HostedMachineStopContract, HostedMachineMonitorContract, HostedServiceContract, HostedGuestAttachContract, GuestCommandVerb, HostedGuestProtocolContract, HostedGuestAttachHop, HostedGuestAttachActor};
use crate::named_map::{lookup, NameMap, name_lt, lemma_insert_sorted_greatest, lemma_name_lt_transitive, sorted_names};
use crate::placement::{rejection_reason, placement_detail_spec, hosted_node_rejection_reason, hosted_placement_detail};
use crate::text::{views, str_eq};
use crate::views::{HostedNodeContractView, HostedHostGroupContractView, HostedMachineSummaryContractView, entry_views};

verus! {

/// The inventory nodes that sit on `host`, in order.
pub open spec fn nodes_on_host(nodes: Seq<(Seq<char>, HostedNodeContractView)>, host: Seq<char>) -> Seq<
    (Seq<char>, HostedNodeContractView),
>
    decreases nodes.len(),
{
    if nodes.len() == 0 {
        Seq::empty()
    } else {
        let rest = nodes_on_host(nodes.drop_last(), host);
        if nodes.last().1.host == host {
            rest.push(nodes.last())
        } else {
            rest
        }
    }
}

/// The candidate nodes and the rejected nodes with their reasons, in order,
/// or the first failure to decide one node.
pub open spec fn placement_outcome(
    native: MachineArchitecture,
    machine_name: Seq<char>,
    machine: MachineSpec,
    host_nodes: Seq<(Seq<char>, HostedNodeContractView)>,
) -> Result<(Seq<Seq<char>>, Seq<(Seq<char>, Seq<char>)>), Seq<char>>
    decreases host_nodes.len(),
{
    if host_nodes.len() == 0 {
        Ok((Seq::empty(), Seq::empty()))
    } else {
        match placement_outcome(native, machine_name, machine, host_nodes.drop_last()) {
            Err(e) => Err(e),
            Ok((candidates, rejected)) => {
                let node = host_nodes.last();
                match rejection_reason(native, machine_name, node.0, machine, node.1) {
                    Err(e) => Err(e),
                    Ok(None) => Ok((candidates.push(node.0), rejected)),
                    Ok(Some(reason)) => Ok((candidates, rejected.push((node.0, reason)))),
                }
            },
        }
    }
}

/// Whether some member of the group is one of `names`.
pub open spec fn group_touches(group: HostedHostGroupContractView, names: Seq<Seq<char>>) -> bool {
    exists|j: int| 0 <= j < group.nodes.len() && names.contains(#[trigger] group.nodes[j])
}

/// The host groups that hold one of `names`, in order.
pub open spec fn groups_touching(
    groups: Seq<(Seq<char>, HostedHostGroupContractView)>,
    names: Seq<Seq<char>>,
) -> Seq<(Seq<char>, HostedHostGroupContractView)>
    decreases groups.len(),
{
    if groups.len() == 0 {
        Seq::empty()
    } else {
        let rest = groups_touching(groups.drop_last(), names);
        if group_touches(groups.last().1, names) {
            rest.push(groups.last())
        } else {
            rest
        }
    }
}

pub open spec fn entry_names<V>(s: Seq<(Seq<char>, V)>) -> Seq<Seq<char>> {
    s.map_values(|e: (Seq<char>, V)| e.0)
}

pub open spec fn group_policies(s: Seq<(Seq<char>, HostedHostGroupContractView)>) -> Seq<
    (Seq<char>, HostedSchedulerPolicy),
> {
    s.map_values(|e: (Seq<char>, HostedHostGroupContractView)| (e.0, e.1.scheduler))
}

/// `machine '<name>' does not resolve to a hosted control plane`.
pub open spec fn not_hosted_text(machine_name: Seq<char>) -> Seq<char> {
    "machine '"@ + machine_name + "' does not resolve to a hosted control plane"@
}

/// The summary of a hosted machine, `None` for a machine outside the hosted fleet.
pub open spec fn summary_spec(cfg: PortConfig, native: MachineArchitecture, machine_name: Seq<char>) -> Result<
    Option<HostedMachineSummaryContractView>,
    Seq<char>,
> {
    match machine_control_spec(cfg, machine_name) {
        Err(e) => Err(e),
        Ok(control) => if control.inventory_scope != MachineInventoryScope::HostedFleet {
            Ok(None)
        } else {
            match lookup(cfg.machines@, machine_name) {
                None => Err(unknown_machine_text(machine_name)),
                Some(machine) => match api_identity_spec(cfg, machine_name) {
                    Err(e) => Err(e),
                    Ok(None) => Err(not_hosted_text(machine_name)),
                    Ok(Some(identity)) => match inventory_spec(cfg) {
                        Err(e) => Err(e),
                        Ok(inventory) => {
                            let host_nodes = nodes_on_host(inventory.nodes, machine.host@);
                            if host_nodes.len() == 0 {
                                Err(
                                    "machine '"@ + machine_name + "' targets hosted host '"@
                                        + machine.host@
                                        + "' but no hosted node inventory record matches that host"@,
                                )
                            } else {
                                match placement_outcome(native, machine_name, machine, host_nodes) {
                                    Err(e) => Err(e),
                                    Ok((candidates, rejected)) => {
                                        let groups = groups_touching(
                                            inventory.host_groups,
                                            entry_names(host_nodes),
                                        );
                                        match lookup(cfg.hosts@, machine.host@) {
                                            None => Err(unknown_host_text(machine_name, machine.host@)),
                                            Some(host) => match placement_detail_spec(
                                                native,
                                                machine_name,
                                                machine,
                                                machine.host@,
                                                host.provider,
                                                candidates,
                                                rejected,
                                            ) {
                                                Err(e) => Err(e),
                                                Ok(detail) => Ok(
                                                    Some(
                                                        HostedMachineSummaryContractView {
                                                            machine_name,
                                                            host_name: machine.host@,
                                                            provider: host.provider,
                                                            control_plane: identity.control_plane@,
                                                            candidate_nodes: candidates,
                                                            rejected_nodes: rejected,
                                                            host_groups: entry_names(groups),
                                                            host_group_policies: group_policies(groups),
                                                            placement_detail: detail,
                                                            control,
                                                        },
                                                    ),
                                                ),
                                            },
                                        }
                                    },
                                }
                            }
                        },
                    },
                },
            }
        },
    }
}

/// The summary as a result whose value is taken by its view.
pub open spec fn summary_view(r: Result<Option<HostedMachineSummaryContract>, ValidationError>) -> Result<
    Option<HostedMachineSummaryContractView>,
    Seq<char>,
> {
    match r {
        Ok(Some(s)) => Ok(Some(s@)),
        Ok(None) => Ok(None),
        Err(e) => Err(e@),
    }
}

/// Whether some member is one of the names.
fn any_member_in(members: &Vec<String>, names: &Vec<String>) -> (r: bool)
    ensures
        r == exists|j: int| 0 <= j < members@.len() && views(names@).contains(#[trigger] members@[j]@),
{
    let n = members.len();
    let m = names.len();
    let mut j: usize = 0;
    while j < n
        invariant
            n == members@.len(),
            m == names@.len(),
            j <= n,
            forall|a: int| 0 <= a < j ==> !views(names@).contains(#[trigger] members@[a]@),
        decreases n - j,
    {
        let mut k: usize = 0;
        while k < m
            invariant
                n == members@.len(),
                m == names@.len(),
                j < n,
                k <= m,
                forall|a: int| 0 <= a < j ==> !views(names@).contains(#[trigger] members@[a]@),
                forall|b: int| 0 <= b < k ==> names@[b]@ != members@[j as int]@,
            decreases m - k,
        {
            if str_eq(names[k].as_str(), members[j].as_str()) {
                assert(views(names@)[k as int] == members@[j as int]@);
                return true;
            }
            k = k + 1;
        }
        proof {
            if views(names@).contains(members@[j as int]@) {
                let b = choose|b: int| 0 <= b < views(names@).len() && views(names@)[b] == members@[j as int]@;
                assert(names@[b]@ == members@[j as int]@);
            }
        }
        j = j + 1;
    }
    false
}

impl PortConfig {
    /// The summary of the hosted machine named `machine_name`: `None` when
    /// its host does not resolve through a hosted control plane. `native`
    /// is the architecture of this host, for machines that ask for `Native`.
    pub fn hosted_machine_summary_contract(&self, machine_name: &str, native: MachineArchitecture) -> (r:
        Result<Option<HostedMachineSummaryContract>, ValidationError>)
        ensures
            summary_view(r) == summary_spec(*self, native, machine_name@),
    {
        let control = match self.machine_control_contract(machine_name) {
            Ok(control) => control,
            Err(e) => {
                return Err(e);
            },
        };
        if control.inventory_scope != MachineInventoryScope::HostedFleet {
            return Ok(None);
        }
        let machine = match self.machines.get(machine_name) {
            Some(machine) => machine,
            None => {
                return Err(fail3("unknown machine '", machine_name, "'"));
            },
        };
        let identity = match self.hosted_api_identity_contract(machine_name) {
            Ok(Some(identity)) => identity,
            Ok(None) => {
                return Err(
                    fail3("machine '", machine_name, "' does not resolve to a hosted control plane"),
                );
            },
            Err(e) => {
                return Err(e);
            },
        };
        let inventory = match self.hosted_inventory_contract() {
            Ok(inventory) => inventory,
            Err(e) => {
                return Err(e);
            },
        };
        let ghost nv = inventory@.nodes;
        let ghost host = machine.host@;
        let n = inventory.nodes.len();
        let mut host_names: Vec<String> = Vec::new();
        let mut candidates: Vec<String> = Vec::new();
        let mut rejected: NameMap<String> = NameMap::new();
        let mut failure: Option<ValidationError> = None;
        let mut i: usize = 0;
        proof {
            assert(nv.take(0) =~= Seq::<(Seq<char>, HostedNodeContractView)>::empty());
            assert(views(candidates@) =~= Seq::<Seq<char>>::empty());
            assert(views(host_names@) =~= Seq::<Seq<char>>::empty());
            assert(entry_views(rejected@) =~= Seq::<(Seq<char>, Seq<char>)>::empty());
        }
        while i < n
            invariant
                n == inventory.nodes@.len(),
                nv == inventory@.nodes,
                nv == entry_views(inventory.nodes@),
                nv.len() == n,
                sorted_names(inventory.nodes@),
                host == machine.host@,
                i <= n,
                views(host_names@) == entry_names(nodes_on_host(nv.take(i as int), host)),
                match failure {
                    None => placement_outcome(
                        native,
                        machine_name@,
                        *machine,
                        nodes_on_host(nv.take(i as int), host),
                    ) == Ok::<(Seq<Seq<char>>, Seq<(Seq<char>, Seq<char>)>), Seq<char>>(
                        (views(candidates@), entry_views(rejected@)),
                    ),
                    Some(e) => nodes_on_host(nv.take(i as int), host).len() > 0
                        && placement_outcome(
                        native,
                        machine_name@,
                        *machine,
                        nodes_on_host(nv.take(i as int), host),
                    ) == Err::<(Seq<Seq<char>>, Seq<(Seq<char>, Seq<char>)>), Seq<char>>(e@),
                },
                i < n ==> forall|j: int|
                    0 <= j < rejected@.len() ==> name_lt(#[trigger] rejected@[j].0, nv[i as int].0),
            decreases n - i,
        {
            let name = inventory.nodes.name_at(i);
            let node = inventory.nodes.value_at(i);
            let ghost before = nv.take(i as int);
            proof {
                assert(nv.take(i + 1).drop_last() =~= before);
                assert(nv.take(i + 1).last() == nv[i as int]);
                assert(nv[i as int] == (name@, node@));
            }
            let ghost hn_before = nodes_on_host(before, host);
            let ghost hn_after = nodes_on_host(nv.take(i + 1), host);
            if str_eq(node.host.as_str(), machine.host.as_str()) {
                proof {
                    assert(hn_after == hn_before.push(nv[i as int]));
                    assert(hn_after.drop_last() =~= hn_before);
                    assert(hn_after.last() == nv[i as int]);
                }
                let ghost names_before = host_names@;
                host_names.push(name.clone());
                proof {
                    assert(views(host_names@) =~= views(names_before).push(name@));
                }
                if failure.is_none() {
                    match hosted_node_rejection_reason(native, machine_name, name.as_str(), machine, node) {
                        Err(e) => {
                            failure = Some(e);
                        },
                        Ok(None) => {
                            let ghost cands_before = candidates@;
                            candidates.push(name.clone());
                            assert(views(candidates@) =~= views(cands_before).push(name@));
                        },
                        Ok(Some(reason)) => {
                            proof {
                                lemma_insert_sorted_greatest(rejected@, name@, reason);
                            }
                            let ghost reason_view = reason@;
                            let ghost rejected_before = rejected@;
                            rejected.insert(name.clone(), reason);
                            assert(entry_views(rejected@) =~= entry_views(rejected_before).push(
                                (name@, reason_view),
                            ));
                        },
                    }
                }
            }
            proof {
                if node.host@ != machine.host@ {
                    assert(hn_after == hn_before);
                }
                if i + 1 < n {
                    assert(name_lt(nv[i as int].0, nv[i + 1].0));
                    assert forall|j: int| 0 <= j < rejected@.len() implies name_lt(
                        #[trigger] rejected@[j].0,
                        nv[i + 1].0,
                    ) by {
                        if rejected@[j].0 != nv[i as int].0 {
                            lemma_name_lt_transitive(rejected@[j].0, nv[i as int].0, nv[i + 1].0);
                        }
                    }
                }
            }
            i = i + 1;
        }
        proof {
            assert(nv.take(n as int) =~= nv);
        }
        let ghost host_nodes = nodes_on_host(nv, host);
        if host_names.len() == 0 {
            return Err(
                fail5(
                    "machine '",
                    machine_name,
                    "' targets hosted host '",
                    machine.host.as_str(),
                    "' but no hosted node inventory record matches that host",
                ),
            );
        }
        match failure {
            Some(e) => {
                return Err(e);
            },
            None => {},
        }
        let ghost gv = inventory@.host_groups;
        let ghost touched_names = entry_names(host_nodes);
        let m = inventory.host_groups.len();
        let mut group_names: Vec<String> = Vec::new();
        let mut policies: NameMap<HostedSchedulerPolicy> = NameMap::new();
        let mut g: usize = 0;
        while g < m
            invariant
                m == inventory.host_groups@.len(),
                gv == inventory@.host_groups,
                gv == entry_views(inventory.host_groups@),
                gv.len() == m,
                sorted_names(inventory.host_groups@),
                views(host_names@) == touched_names,
                g <= m,
                views(group_names@) == entry_names(groups_touching(gv.take(g as int), touched_names)),
                policies@ == group_policies(groups_touching(gv.take(g as int), touched_names)),
                g < m ==> forall|j: int|
                    0 <= j < policies@.len() ==> name_lt(#[trigger] policies@[j].0, gv[g as int].0),
            decreases m - g,
        {
            let name = inventory.host_groups.name_at(g);
            let group = inventory.host_groups.value_at(g);
            proof {
                assert(gv.take(g + 1).drop_last() =~= gv.take(g as int));
                assert(gv.take(g + 1).last() == gv[g as int]);
                assert(gv[g as int] == (name@, group@));
            }
            let touches = any_member_in(&group.nodes, &host_names);
            proof {
                if touches {
                    let j = choose|j: int|
                        0 <= j < group.nodes@.len() && views(host_names@).contains(
                            #[trigger] group.nodes@[j]@,
                        );
                    assert(group@.nodes[j] == group.nodes@[j]@);
                } else {
                    assert forall|j: int| 0 <= j < group@.nodes.len() implies !touched_names.contains(
                        #[trigger] group@.nodes[j],
                    ) by {
                        assert(group@.nodes[j] == group.nodes@[j]@);
                    }
                }
                assert(touches == group_touches(group@, touched_names));
            }
            if touches {
                let ghost names_before = group_names@;
                let ghost policies_before = policies@;
                group_names.push(name.clone());
                proof {
                    assert(views(group_names@) =~= views(names_before).push(name@));
                    lemma_insert_sorted_greatest(policies@, name@, group.scheduler);
                }
                policies.insert(name.clone(), group.scheduler);
                proof {
                    let t = groups_touching(gv.take(g + 1), touched_names);
                    assert(entry_names(t) =~= views(group_names@));
                    assert(group_policies(t) =~= policies_before.push((name@, group.scheduler)));
                }
            }
            proof {
                if g + 1 < m {
                    assert(name_lt(gv[g as int].0, gv[g + 1].0));
                    assert forall|j: int| 0 <= j < policies@.len() implies name_lt(
                        #[trigger] policies@[j].0,
                        gv[g + 1].0,
                    ) by {
                        if policies@[j].0 != gv[g as int].0 {
                            lemma_name_lt_transitive(policies@[j].0, gv[g as int].0, gv[g + 1].0);
                        }
                    }
                }
            }
            g = g + 1;
        }
        proof {
            assert(gv.take(m as int) =~= gv);
        }
        let host = match self.hosts.get(machine.host.as_str()) {
            Some(host) => host,
            None => {
                return Err(
                    fail5(
                        "machine '",
                        machine_name,
                        "' references unknown host '",
                        machine.host.as_str(),
                        "'",
                    ),
                );
            },
        };
        let placement_detail = match hosted_placement_detail(
            native,
            machine_name,
            machine,
            machine.host.as_str(),
            host.provider,
            &candidates,
            &rejected,
        ) {
            Ok(detail) => detail,
            Err(e) => {
                return Err(e);
            },
        };
        let summary = HostedMachineSummaryContract {
            machine_name: String::from_str(machine_name),
            host_name: machine.host.clone(),
            provider: host.provider,
            control_plane: identity.control_plane,
            candidate_nodes: candidates,
            rejected_nodes: rejected,
            host_groups: group_names,
            host_group_policies: policies,
            placement_detail,
            control,
        };
        proof {
            let expected = summary_spec(*self, native, machine_name@);
            assert(expected matches Ok(Some(v)) && v =~= summary@);
        }
        Ok(Some(summary))
    }
}

} // verus!

verus! {

pub open spec fn status_detail_text() -> Seq<char> {
    "Hosted machine status is modeled as control-plane inventory plus node-agent runtime state; the canonical `port machine status` verb remains the future surface."@
}

pub open spec fn stop_detail_text() -> Seq<char> {
    "Hosted machine stop remains routed through the control plane, with the node agent owning the host-local stop action once the runtime path exists."@
}

pub open spec fn monitor_detail_text() -> Seq<char> {
    "Hosted monitoring and top remain routed through the control plane, with the node agent owning host-local runtime inspection and detached forward state."@
}

pub open spec fn service_detail_text() -> Seq<char> {
    "Hosted secrets, services, and sandboxes stay on the canonical service surface and reuse the same control-plane plus node-agent runtime ownership as machine and guest operations."@
}

pub open spec fn guest_attach_detail_text() -> Seq<char> {
    "Hosted guest attach preserves the canonical `port guest exec|copy|pty|logs|forward` surface. The control plane authorizes the attach, the node agent bridges the host-local guest transport, and the existing Port guest protocol frames continue unchanged to the in-guest agent."@
}

/// A contract built on a machine's summary: `None` exactly when the summary
/// is `None`, the summary's failure when it fails, and otherwise a contract
/// that holds the summary and meets `holds`.
pub open spec fn built_on_summary<C>(
    cfg: PortConfig,
    native: MachineArchitecture,
    machine_name: Seq<char>,
    r: Result<Option<C>, ValidationError>,
    machine_of: spec_fn(C) -> HostedMachineSummaryContract,
    holds: spec_fn(C) -> bool,
) -> bool {
    match r {
        Ok(Some(c)) => summary_spec(cfg, native, machine_name) == Ok::<
            Option<HostedMachineSummaryContractView>,
            Seq<char>,
        >(Some(machine_of(c)@)) && holds(c),
        Ok(None) => summary_spec(cfg, native, machine_name) == Ok::<
            Option<HostedMachineSummaryContractView>,
            Seq<char>,
        >(None),
        Err(e) => summary_spec(cfg, native, machine_name) == Err::<
            Option<HostedMachineSummaryContractView>,
            Seq<char>,
        >(e@),
    }
}

impl PortConfig {
    /// How a hosted machine's status is read: from the summary's control contract.
    pub fn hosted_machine_status_contract(&self, machine_name: &str, native: MachineArchitecture) -> (r:
        Result<Option<HostedMachineStatusContract>, ValidationError>)
        ensures
            built_on_summary(
                *self,
                native,
                machine_name@,
                r,
                |c: HostedMachineStatusContract| c.machine,
                |c: HostedMachineStatusContract|
                    c.status_source == c.machine.control.status_source && c.status_route
                        == c.machine.control.status_route && c.detail@ == status_detail_text(),
            ),
    {
        let summary = match self.hosted_machine_summary_contract(machine_name, native) {
            Ok(Some(summary)) => summary,
            Ok(None) => {
                return Ok(None);
            },
            Err(e) => {
                return Err(e);
            },
        };
        let control = summary.control;
        Ok(
            Some(
                HostedMachineStatusContract {
                    machine: summary,
                    status_source: control.status_source,
                    status_route: control.status_route,
                    detail: String::from_str(
                        "Hosted machine status is modeled as control-plane inventory plus node-agent runtime state; the canonical `port machine status` verb remains the future surface.",
                    ),
                },
            ),
        )
    }

    /// How a hosted machine is stopped: by its lifecycle owner along the stop route.
    pub fn hosted_machine_stop_contract(&self, machine_name: &str, native: MachineArchitecture) -> (r:
        Result<Option<HostedMachineStopContract>, ValidationError>)
        ensures
            built_on_summary(
                *self,
                native,
                machine_name@,
                r,
                |c: HostedMachineStopContract| c.machine,
                |c: HostedMachineStopContract|
                    c.lifecycle_owner == c.machine.control.lifecycle_owner && c.stop_route
                        == c.machine.control.stop_route && c.detail@ == stop_detail_text(),
            ),
    {
        let summary = match self.hosted_machine_summary_contract(machine_name, native) {
            Ok(Some(summary)) => summary,
            Ok(None) => {
                return Ok(None);
            },
            Err(e) => {
                return Err(e);
            },
        };
        let control = summary.control;
        Ok(
            Some(
                HostedMachineStopContract {
                    machine: summary,
                    lifecycle_owner: control.lifecycle_owner,
                    stop_route: control.stop_route,
                    detail: String::from_str(
                        "Hosted machine stop remains routed through the control plane, with the node agent owning the host-local stop action once the runtime path exists.",
                    ),
                },
            ),
        )
    }

    /// How a hosted machine is monitored: the monitor and top routes of its control contract.
    pub fn hosted_machine_monitor_contract(&self, machine_name: &str, native: MachineArchitecture) -> (r:
        Result<Option<HostedMachineMonitorContract>, ValidationError>)
        ensures
            built_on_summary(
                *self,
                native,
                machine_name@,
                r,
                |c: HostedMachineMonitorContract| c.machine,
                |c: HostedMachineMonitorContract|
                    c.lifecycle_owner == c.machine.control.lifecycle_owner && c.status_source
                        == c.machine.control.status_source && c.monitor_route
                        == c.machine.control.monitor_route && c.top_route
                        == c.machine.control.top_route && c.detail@ == monitor_detail_text(),
            ),
    {
        let summary = match self.hosted_machine_summary_contract(machine_name, native) {
            Ok(Some(summary)) => summary,
            Ok(None) => {
                return Ok(None);
            },
            Err(e) => {
                return Err(e);
            },
        };
        let control = summary.control;
        Ok(
            Some(
                HostedMachineMonitorContract {
                    machine: summary,
                    lifecycle_owner: control.lifecycle_owner,
                    status_source: control.status_source,
                    monitor_route: control.monitor_route,
                    top_route: control.top_route,
                    detail: String::from_str(
                        "Hosted monitoring and top remain routed through the control plane, with the node agent owning host-local runtime inspection and detached forward state.",
                    ),
                },
            ),
        )
    }

    /// How a hosted machine's services are reached: the service route of its control contract.
    pub fn hosted_service_contract(&self, machine_name: &str, native: MachineArchitecture) -> (r:
        Result<Option<HostedServiceContract>, ValidationError>)
        ensures
            built_on_summary(
                *self,
                native,
                machine_name@,
                r,
                |c: HostedServiceContract| c.machine,
                |c: HostedServiceContract|
                    c.lifecycle_owner == c.machine.control.lifecycle_owner && c.guest_broker
                        == c.machine.control.guest_broker && c.service_route
                        == c.machine.control.service_route && c.detail@ == service_detail_text(),
            ),
    {
        let summary = match self.hosted_machine_summary_contract(machine_name, native) {
            Ok(Some(summary)) => summary,
            Ok(None) => {
                return Ok(None);
            },
            Err(e) => {
                return Err(e);
            },
        };
        let control = summary.control;
        Ok(
            Some(
                HostedServiceContract {
                    machine: summary,
                    lifecycle_owner: control.lifecycle_owner,
                    guest_broker: control.guest_broker,
                    service_route: control.service_route,
                    detail: String::from_str(
                        "Hosted secrets, services, and sandboxes stay on the canonical service surface and reuse the same control-plane plus node-agent runtime ownership as machine and guest operations.",
                    ),
                },
            ),
        )
    }

    /// How a guest of a hosted machine is attached: the guest route, the
    /// canonical guest verbs, and the four hops from the CLI to the guest agent.
    pub fn hosted_guest_attach_contract(&self, machine_name: &str, native: MachineArchitecture) -> (r:
        Result<Option<HostedGuestAttachContract>, ValidationError>)
        ensures
            built_on_summary(
                *self,
                native,
                machine_name@,
                r,
                |c: HostedGuestAttachContract| c.machine,
                |c: HostedGuestAttachContract|
                    c.guest_broker == c.machine.control.guest_broker && c.guest_route
                        == c.machine.control.guest_route && c.command_surface@ == seq![
                        GuestCommandVerb::Exec,
                        GuestCommandVerb::Copy,
                        GuestCommandVerb::Pty,
                        GuestCommandVerb::Logs,
                        GuestCommandVerb::Forward,
                    ] && c.protocol == HostedGuestProtocolContract::PortAgentProtocol
                        && attach_hops(c.attach_path@) && c.detail@ == guest_attach_detail_text(),
            ),
    {
        let summary = match self.hosted_machine_summary_contract(machine_name, native) {
            Ok(Some(summary)) => summary,
            Ok(None) => {
                return Ok(None);
            },
            Err(e) => {
                return Err(e);
            },
        };
        let control = summary.control;
        let command_surface = vec![
            GuestCommandVerb::Exec,
            GuestCommandVerb::Copy,
            GuestCommandVerb::Pty,
            GuestCommandVerb::Logs,
            GuestCommandVerb::Forward,
        ];
        let attach_path = vec![
            HostedGuestAttachHop {
                actor: HostedGuestAttachActor::Cli,
                role: String::from_str("initiates a canonical `port guest ...` request"),
            },
            HostedGuestAttachHop {
                actor: HostedGuestAttachActor::HostedControlPlane,
                role: String::from_str("authorizes guest attachment and resolves the owning node"),
            },
            HostedGuestAttachHop {
                actor: HostedGuestAttachActor::HostedNodeAgent,
                role: String::from_str(
                    "opens the host-local guest transport and bridges the byte stream",
                ),
            },
            HostedGuestAttachHop {
                actor: HostedGuestAttachActor::GuestAgent,
                role: String::from_str(
                    "continues serving the existing guest request and response frames",
                ),
            },
        ];
        Ok(
            Some(
                HostedGuestAttachContract {
                    machine: summary,
                    guest_broker: control.guest_broker,
                    guest_route: control.guest_route,
                    command_surface,
                    protocol: HostedGuestProtocolContract::PortAgentProtocol,
                    attach_path,
                    detail: String::from_str(
                        "Hosted guest attach preserves the canonical `port guest exec|copy|pty|logs|forward` surface. The control plane authorizes the attach, the node agent bridges the host-local guest transport, and the existing Port guest protocol frames continue unchanged to the in-guest agent.",
                    ),
                },
            ),
        )
    }
}

/// The four hops of a hosted guest attach, in order, each with its role.
pub open spec fn attach_hops(path: Seq<HostedGuestAttachHop>) -> bool {
    &&& path.len() == 4
    &&& path[0].actor == HostedGuestAttachActor::Cli
    &&& path[0].role@ == "initiates a canonical `port guest ...` request"@
    &&& path[1].actor == HostedGuestAttachActor::HostedControlPlane
    &&& path[1].role@ == "authorizes guest attachment and resolves the owning node"@
    &&& path[2].actor == HostedGuestAttachActor::HostedNodeAgent
    &&& path[2].role@ == "opens the host-local guest transport and bridges the byte stream"@
    &&& path[3].actor == HostedGuestAttachActor::GuestAgent
    &&& path[3].role@ == "continues serving the existing guest request and response frames"@
}

} // verus!
