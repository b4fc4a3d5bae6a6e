//! How a control plane picks the node agent that serves a hosted machine:
//! live registrations first, then the bindings it was started with, and
//! never a node whose registration went stale.
use vstd::prelude::*;

use crate::hosted_state::{
    hosted_placeholder_runtime_root, runtime_root_spec, HostedNodeBinding, RegisteredNodeRecord,
};
use crate::model::{HostedMachineSummaryContract, HostedNodeFreshnessContract, PortConfig};
use crate::named_map::{lookup, name_lt, str_lt, NameMap};
use crate::contracts::{inventory_spec, names_match, lemma_lookup_names_match};
use crate::views::{entry_views, HostedHostGroupContractView};
use crate::registration::has_member;
use crate::text::{decimal, decimal_string, join, join_strings, views};

verus! {

impl Clone for HostedNodeBinding {
    fn clone(&self) -> (r: Self)
        ensures
            r == *self,
    {
        HostedNodeBinding {
            node_name: self.node_name.clone(),
            endpoint: self.endpoint.clone(),
            token: self.token.clone(),
        }
    }
}

/// What std's `Debug` formatting (`{:?}`) prints for a list of names.
pub uninterp spec fn debug_name_list(names: Seq<Seq<char>>) -> Seq<char>;

/// Formats `names` with std's `Debug` implementation for `Vec<String>`.
/// Not proved: the contract claims only that the text depends on nothing but
/// the names, in order; what the text looks like (brackets, quotes, escapes)
/// is left to std, whose documentation does not fix it.
#[verifier::external_body]
pub(crate) fn format_name_list(names: &Vec<String>) -> (r: String)
    ensures
        r@ == debug_name_list(views(names@)),
{
    format!("{:?}", names)
}

/// Why a registered node is not routed to.
pub open spec fn stale_message(node: Seq<char>, f: HostedNodeFreshnessContract) -> Seq<char> {
    "node '"@ + node + "' is registered but stale; last refresh "@ + decimal(f.refreshed_at as nat)
        + " with ttl "@ + decimal(f.ttl_seconds as nat) + "s expired at "@ + decimal(
        f.fresh_until as nat,
    )
}

/// A binding with its runtime root, by views.
pub type BindingView = (HostedNodeBinding, Seq<char>);

/// How the control plane reaches `node` at time `now`: through its
/// registration when that is fresh, refused when it is stale, else through
/// the binding it was started with, else not at all.
pub open spec fn known_binding(
    cfg: PortConfig,
    control_plane: Seq<char>,
    registered: Seq<(Seq<char>, RegisteredNodeRecord)>,
    statics: Seq<(Seq<char>, HostedNodeBinding)>,
    node: Seq<char>,
    now: u64,
) -> Result<Option<BindingView>, Seq<char>> {
    match lookup(registered, node) {
        Some(record) => if record.contract.freshness.fresh_until < now {
            Err(stale_message(node, record.contract.freshness))
        } else {
            Ok(Some((record.binding, record.contract.node.runtime_root@)))
        },
        None => match lookup(statics, node) {
            Some(binding) => Ok(
                Some(
                    (
                        binding,
                        match lookup(cfg.nodes@, node) {
                            Some(spec) => spec.runtime_root@,
                            None => runtime_root_spec(control_plane),
                        },
                    ),
                ),
            ),
            None => Ok(None),
        },
    }
}

/// The view of a found binding.
pub open spec fn found_view(r: Result<Option<(HostedNodeBinding, String)>, String>) -> Result<
    Option<BindingView>,
    Seq<char>,
> {
    match r {
        Ok(Some((b, root))) => Ok(Some((b, root@))),
        Ok(None) => Ok(None),
        Err(e) => Err(e@),
    }
}

/// How the control plane reaches `node_name` at time `now`, with the
/// runtime root there.
pub fn resolve_known_node_binding(
    config: &PortConfig,
    control_plane: &str,
    registered: &NameMap<RegisteredNodeRecord>,
    statics: &NameMap<HostedNodeBinding>,
    node_name: &str,
    now: u64,
) -> (r: Result<Option<(HostedNodeBinding, String)>, String>)
    ensures
        found_view(r) == known_binding(*config, control_plane@, registered@, statics@, node_name@, now),
{
    match registered.get(node_name) {
        Some(record) => {
            let f = record.contract.freshness;
            if f.fresh_until < now {
                let mut m = String::from_str("node '");
                m.append(node_name);
                m.append("' is registered but stale; last refresh ");
                let refreshed = decimal_string(f.refreshed_at);
                let ttl = decimal_string(f.ttl_seconds);
                let until = decimal_string(f.fresh_until);
                m.append(refreshed.as_str());
                m.append(" with ttl ");
                m.append(ttl.as_str());
                m.append("s expired at ");
                m.append(until.as_str());
                return Err(m);
            }
            Ok(Some((record.binding.clone(), record.contract.node.runtime_root.clone())))
        },
        None => match statics.get(node_name) {
            Some(binding) => {
                let root = match config.nodes.get(node_name) {
                    Some(spec) => spec.runtime_root.clone(),
                    None => hosted_placeholder_runtime_root(control_plane),
                };
                Ok(Some((binding.clone(), root)))
            },
            None => Ok(None),
        },
    }
}

/// The candidates walked in order: the first one the control plane can
/// reach, with its binding, and the stale registrations met before it.
pub open spec fn route_scan(
    cfg: PortConfig,
    control_plane: Seq<char>,
    candidates: Seq<Seq<char>>,
    registered: Seq<(Seq<char>, RegisteredNodeRecord)>,
    statics: Seq<(Seq<char>, HostedNodeBinding)>,
    now: u64,
) -> (Option<(Seq<char>, BindingView)>, Seq<Seq<char>>)
    decreases candidates.len(),
{
    if candidates.len() == 0 {
        (None, Seq::empty())
    } else {
        let prior = route_scan(cfg, control_plane, candidates.drop_last(), registered, statics, now);
        if prior.0 is Some {
            prior
        } else {
            match known_binding(cfg, control_plane, registered, statics, candidates.last(), now) {
                Ok(Some(found)) => (Some((candidates.last(), found)), prior.1),
                Ok(None) => prior,
                Err(m) => (None, prior.1.push(m)),
            }
        }
    }
}

/// Once a prefix of the candidates found a node, the whole walk finds it.
pub proof fn lemma_route_scan_stable(
    cfg: PortConfig,
    control_plane: Seq<char>,
    candidates: Seq<Seq<char>>,
    registered: Seq<(Seq<char>, RegisteredNodeRecord)>,
    statics: Seq<(Seq<char>, HostedNodeBinding)>,
    now: u64,
    i: int,
)
    requires
        0 <= i <= candidates.len(),
        route_scan(cfg, control_plane, candidates.take(i), registered, statics, now).0 is Some,
    ensures
        route_scan(cfg, control_plane, candidates, registered, statics, now) == route_scan(
            cfg,
            control_plane,
            candidates.take(i),
            registered,
            statics,
            now,
        ),
    decreases candidates.len() - i,
{
    if i < candidates.len() {
        assert(candidates.take(i + 1).drop_last() =~= candidates.take(i));
        assert(route_scan(cfg, control_plane, candidates.take(i + 1), registered, statics, now)
            == route_scan(cfg, control_plane, candidates.take(i), registered, statics, now));
        lemma_route_scan_stable(cfg, control_plane, candidates, registered, statics, now, i + 1);
    } else {
        assert(candidates.take(i) =~= candidates);
    }
}

/// The node that serves machine `summary` at time `now`: the first
/// candidate the control plane can reach; if none, why not.
pub open spec fn route_machine(
    cfg: PortConfig,
    control_plane: Seq<char>,
    summary: HostedMachineSummaryContract,
    registered: Seq<(Seq<char>, RegisteredNodeRecord)>,
    statics: Seq<(Seq<char>, HostedNodeBinding)>,
    now: u64,
) -> Result<(Seq<char>, BindingView), Seq<char>> {
    let candidates = views(summary.candidate_nodes@);
    let machine = summary.machine_name@;
    if candidates.len() == 0 {
        Err(
            "control plane '"@ + control_plane + "' cannot place machine '"@ + machine + "': "@
                + summary.placement_detail@,
        )
    } else {
        let scan = route_scan(cfg, control_plane, candidates, registered, statics, now);
        match scan.0 {
            Some(found) => Ok(found),
            None => Err(
                "control plane '"@ + control_plane + "' could not route machine '"@ + machine
                    + "' because none of the candidate nodes "@ + debug_name_list(candidates)
                    + " have a live registered node-agent endpoint."@ + (if scan.1.len() > 0 {
                    " Stale registrations: "@ + join(scan.1, ", "@) + "."@
                } else {
                    Seq::empty()
                }) + " "@ + summary.placement_detail@,
            ),
        }
    }
}

/// The view of a routed node.
pub open spec fn routed_view(r: Result<(String, HostedNodeBinding, String), String>) -> Result<
    (Seq<char>, BindingView),
    Seq<char>,
> {
    match r {
        Ok((node, binding, root)) => Ok((node@, (binding, root@))),
        Err(e) => Err(e@),
    }
}

/// The node that serves machine `summary` at time `now`, with its binding
/// and runtime root: the first candidate node with a live registration or a
/// static binding.
pub fn resolve_node_binding(
    config: &PortConfig,
    control_plane: &str,
    summary: &HostedMachineSummaryContract,
    registered: &NameMap<RegisteredNodeRecord>,
    statics: &NameMap<HostedNodeBinding>,
    now: u64,
) -> (r: Result<(String, HostedNodeBinding, String), String>)
    ensures
        routed_view(r) == route_machine(*config, control_plane@, *summary, registered@, statics@, now),
{
    let candidates = &summary.candidate_nodes;
    let ghost cands = views(candidates@);
    let n = candidates.len();
    if n == 0 {
        let mut m = String::from_str("control plane '");
        m.append(control_plane);
        m.append("' cannot place machine '");
        m.append(summary.machine_name.as_str());
        m.append("': ");
        m.append(summary.placement_detail.as_str());
        return Err(m);
    }
    let mut stale: Vec<String> = Vec::new();
    let mut i: usize = 0;
    while i < n
        invariant
            n == candidates@.len(),
            cands == views(candidates@),
            candidates@ == summary.candidate_nodes@,
            i <= n,
            route_scan(*config, control_plane@, cands.take(i as int), registered@, statics@, now)
                == (None::<(Seq<char>, BindingView)>, views(stale@)),
        decreases n - i,
    {
        proof {
            assert(cands.take(i + 1).drop_last() =~= cands.take(i as int));
            assert(cands.take(i + 1).last() == candidates@[i as int]@);
        }
        match resolve_known_node_binding(
            config,
            control_plane,
            registered,
            statics,
            candidates[i].as_str(),
            now,
        ) {
            Ok(Some((binding, root))) => {
                proof {
                    assert(route_scan(*config, control_plane@, cands.take(i + 1), registered@, statics@, now).0
                        == Some((cands[i as int], (binding, root@))));
                    lemma_route_scan_stable(
                        *config,
                        control_plane@,
                        cands,
                        registered@,
                        statics@,
                        now,
                        i + 1,
                    );
                }
                let node = candidates[i].clone();
                assert(node@ == cands[i as int]);
                assert(route_scan(*config, control_plane@, cands, registered@, statics@, now).0
                    == Some((node@, (binding, root@))));
                return Ok((node, binding, root));
            },
            Ok(None) => {},
            Err(m) => {
                let ghost before = stale@;
                stale.push(m);
                assert(views(stale@) =~= views(before).push(stale@[i as int - (i as int - before.len())]@));
            },
        }
        i = i + 1;
    }
    proof {
        assert(cands.take(n as int) =~= cands);
    }
    let listed = format_name_list(candidates);
    let mut m = String::from_str("control plane '");
    m.append(control_plane);
    m.append("' could not route machine '");
    m.append(summary.machine_name.as_str());
    m.append("' because none of the candidate nodes ");
    m.append(listed.as_str());
    m.append(" have a live registered node-agent endpoint.");
    if stale.len() > 0 {
        m.append(" Stale registrations: ");
        let joined = join_strings(&stale, ", ");
        m.append(joined.as_str());
        m.append(".");
    }
    m.append(" ");
    m.append(summary.placement_detail.as_str());
    proof {
        let scan = route_scan(*config, control_plane@, cands, registered@, statics@, now);
        assert(scan.1 == views(stale@));
        let expected = "control plane '"@ + control_plane@ + "' could not route machine '"@
            + summary.machine_name@ + "' because none of the candidate nodes "@ + debug_name_list(cands)
            + " have a live registered node-agent endpoint."@ + (if scan.1.len() > 0 {
            " Stale registrations: "@ + join(scan.1, ", "@) + "."@
        } else {
            Seq::empty()
        }) + " "@ + summary.placement_detail@;
        assert(m@ =~= expected);
    }
    Err(m)
}

/// The members of a host group walked in order, keeping the machine's
/// candidates: those the control plane can reach, those with no binding, and
/// the stale registrations met.
pub open spec fn group_scan(
    cfg: PortConfig,
    control_plane: Seq<char>,
    members: Seq<Seq<char>>,
    candidates: Seq<Seq<char>>,
    registered: Seq<(Seq<char>, RegisteredNodeRecord)>,
    statics: Seq<(Seq<char>, HostedNodeBinding)>,
    now: u64,
) -> (Seq<(Seq<char>, BindingView)>, Seq<Seq<char>>, Seq<Seq<char>>)
    decreases members.len(),
{
    if members.len() == 0 {
        (Seq::empty(), Seq::empty(), Seq::empty())
    } else {
        let prior = group_scan(cfg, control_plane, members.drop_last(), candidates, registered, statics, now);
        let node = members.last();
        if !candidates.contains(node) {
            prior
        } else {
            match known_binding(cfg, control_plane, registered, statics, node, now) {
                Ok(Some(found)) => (prior.0.push((node, found)), prior.1, prior.2),
                Ok(None) => (prior.0, prior.1.push(node), prior.2),
                Err(m) => (prior.0, prior.1, prior.2.push(m)),
            }
        }
    }
}

/// The entry with the least name, the earliest among equal names.
pub open spec fn least_named(entries: Seq<(Seq<char>, BindingView)>) -> Option<(Seq<char>, BindingView)>
    decreases entries.len(),
{
    if entries.len() == 0 {
        None
    } else {
        match least_named(entries.drop_last()) {
            None => Some(entries.last()),
            Some(best) => if name_lt(entries.last().0, best.0) {
                Some(entries.last())
            } else {
                Some(best)
            },
        }
    }
}

/// "`node` (`reason`)" for each member that placement rejected, in order.
pub open spec fn rejected_members(members: Seq<Seq<char>>, rejected: Seq<(Seq<char>, String)>) -> Seq<Seq<char>>
    decreases members.len(),
{
    if members.len() == 0 {
        Seq::empty()
    } else {
        let prior = rejected_members(members.drop_last(), rejected);
        match lookup(rejected, members.last()) {
            Some(reason) => prior.push(members.last() + " ("@ + reason@ + ")"@),
            None => prior,
        }
    }
}

/// The host groups listed for a message.
pub open spec fn groups_text(groups: Seq<Seq<char>>) -> Seq<char> {
    if groups.len() == 0 {
        "(none)"@
    } else {
        join(groups, ", "@)
    }
}

/// Why no member of `group` can take the service.
pub open spec fn no_member_message(
    control_plane: Seq<char>,
    summary: HostedMachineSummaryContract,
    host_group: Seq<char>,
    group: HostedHostGroupContractView,
    scan: (Seq<(Seq<char>, BindingView)>, Seq<Seq<char>>, Seq<Seq<char>>),
) -> Seq<char> {
    let rejected = rejected_members(group.nodes, summary.rejected_nodes@);
    "control plane '"@ + control_plane + "' cannot place service for machine '"@ + summary.machine_name@
        + "' in host group '"@ + host_group + "' with scheduler '"@ + group.scheduler.debug_name_text()
        + "'"@ + (if rejected.len() > 0 {
        "; rejected nodes: "@ + join(rejected, ", "@)
    } else {
        Seq::empty()
    }) + (if scan.1.len() > 0 {
        "; eligible nodes without live registrations: "@ + join(scan.1, ", "@)
    } else {
        Seq::empty()
    }) + (if scan.2.len() > 0 {
        "; stale registrations: "@ + join(scan.2, ", "@)
    } else {
        Seq::empty()
    }) + (if rejected.len() == 0 && scan.1.len() == 0 {
        "; no candidate nodes in the requested host group are eligible"@
    } else {
        Seq::empty()
    }) + "; "@ + summary.placement_detail@
}

/// The node that runs a service of machine `summary` in `host_group` at
/// time `now`: among the group's members that are candidates of the machine
/// and reachable, the one with the least name.
pub open spec fn place_service(
    cfg: PortConfig,
    control_plane: Seq<char>,
    summary: HostedMachineSummaryContract,
    host_group: Option<Seq<char>>,
    registered: Seq<(Seq<char>, RegisteredNodeRecord)>,
    statics: Seq<(Seq<char>, HostedNodeBinding)>,
    now: u64,
) -> Result<(Seq<char>, BindingView), Seq<char>> {
    let machine = summary.machine_name@;
    let groups = views(summary.host_groups@);
    match host_group {
        None => Err(
            "control plane '"@ + control_plane
                + "' requires a host group for hosted service placement on machine '"@ + machine
                + "'; available groups: "@ + groups_text(groups),
        ),
        Some(g) => if !groups.contains(g) {
            Err(
                "control plane '"@ + control_plane + "' cannot place service for machine '"@ + machine
                    + "' in host group '"@ + g + "'; available groups: "@ + groups_text(groups) + ". "@
                    + summary.placement_detail@,
            )
        } else {
            match inventory_spec(cfg) {
                Err(e) => Err(
                    "control plane '"@ + control_plane + "' could not inspect hosted inventory for machine '"@
                        + machine + "': "@ + e,
                ),
                Ok(inventory) => match lookup(inventory.host_groups, g) {
                    None => Err(
                        "control plane '"@ + control_plane + "' does not declare host group '"@ + g
                            + "' for machine '"@ + machine + "'"@,
                    ),
                    Some(group) => {
                        let scan = group_scan(
                            cfg,
                            control_plane,
                            group.nodes,
                            views(summary.candidate_nodes@),
                            registered,
                            statics,
                            now,
                        );
                        match least_named(scan.0) {
                            Some(best) => Ok(best),
                            None => Err(no_member_message(control_plane, summary, g, group, scan)),
                        }
                    },
                },
            }
        },
    }
}

/// The host groups listed for a message.
fn groups_text_string(groups: &Vec<String>) -> (r: String)
    ensures
        r@ == groups_text(views(groups@)),
{
    if groups.len() == 0 {
        String::from_str("(none)")
    } else {
        join_strings(groups, ", ")
    }
}

/// "`node` (`reason`)" for each member that placement rejected, in order.
fn rejected_member_list(members: &Vec<String>, rejected: &NameMap<String>) -> (r: Vec<String>)
    ensures
        views(r@) == rejected_members(views(members@), rejected@),
{
    let mut r: Vec<String> = Vec::new();
    let n = members.len();
    let mut i: usize = 0;
    while i < n
        invariant
            n == members@.len(),
            i <= n,
            views(r@) == rejected_members(views(members@).take(i as int), rejected@),
        decreases n - i,
    {
        proof {
            let v = views(members@);
            assert(v.take(i + 1).drop_last() =~= v.take(i as int));
            assert(v.take(i + 1).last() == members@[i as int]@);
        }
        match rejected.get(members[i].as_str()) {
            Some(reason) => {
                let mut m = members[i].clone();
                m.append(" (");
                m.append(reason.as_str());
                m.append(")");
                let ghost before = r@;
                r.push(m);
                assert(views(r@) =~= views(before).push(m@));
            },
            None => {},
        }
        i = i + 1;
    }
    proof {
        assert(views(members@).take(n as int) =~= views(members@));
    }
    r
}

/// The node that runs a service of machine `summary` in `host_group` at
/// time `now`, with its binding and runtime root: among the members of the
/// group that are candidates of the machine and reachable, the one with the
/// least name.
pub fn resolve_service_apply_binding(
    config: &PortConfig,
    control_plane: &str,
    summary: &HostedMachineSummaryContract,
    host_group: Option<&str>,
    registered: &NameMap<RegisteredNodeRecord>,
    statics: &NameMap<HostedNodeBinding>,
    now: u64,
) -> (r: Result<(String, HostedNodeBinding, String), String>)
    ensures
        routed_view(r) == place_service(
            *config,
            control_plane@,
            *summary,
            match host_group {
                Some(g) => Some(g@),
                None => None,
            },
            registered@,
            statics@,
            now,
        ),
{
    let g = match host_group {
        None => {
            let mut m = String::from_str("control plane '");
            m.append(control_plane);
            m.append("' requires a host group for hosted service placement on machine '");
            m.append(summary.machine_name.as_str());
            m.append("'; available groups: ");
            let groups = groups_text_string(&summary.host_groups);
            m.append(groups.as_str());
            return Err(m);
        },
        Some(g) => g,
    };
    if !has_member(&summary.host_groups, g) {
        let mut m = String::from_str("control plane '");
        m.append(control_plane);
        m.append("' cannot place service for machine '");
        m.append(summary.machine_name.as_str());
        m.append("' in host group '");
        m.append(g);
        m.append("'; available groups: ");
        let groups = groups_text_string(&summary.host_groups);
        m.append(groups.as_str());
        m.append(". ");
        m.append(summary.placement_detail.as_str());
        return Err(m);
    }
    let inventory = match config.hosted_inventory_contract() {
        Ok(inventory) => inventory,
        Err(e) => {
            let mut m = String::from_str("control plane '");
            m.append(control_plane);
            m.append("' could not inspect hosted inventory for machine '");
            m.append(summary.machine_name.as_str());
            m.append("': ");
            m.append(e.message());
            return Err(m);
        },
    };
    proof {
        let groups = inventory.host_groups@;
        assert(names_match(groups, entry_views(groups)));
        lemma_lookup_names_match(groups, entry_views(groups), g@);
    }
    let group = match inventory.host_groups.get(g) {
        None => {
            let mut m = String::from_str("control plane '");
            m.append(control_plane);
            m.append("' does not declare host group '");
            m.append(g);
            m.append("' for machine '");
            m.append(summary.machine_name.as_str());
            m.append("'");
            return Err(m);
        },
        Some(group) => group,
    };
    assert(lookup(inventory@.host_groups, g@) == Some(group@));
    let members = &group.nodes;
    let ghost member_names = views(members@);
    let ghost candidates = views(summary.candidate_nodes@);
    let n = members.len();
    let mut best: Option<(String, HostedNodeBinding, String)> = None;
    let mut missing: Vec<String> = Vec::new();
    let mut stale: Vec<String> = Vec::new();
    let mut i: usize = 0;
    while i < n
        invariant
            n == members@.len(),
            member_names == views(members@),
            candidates == views(summary.candidate_nodes@),
            i <= n,
            ({
                let scan = group_scan(
                    *config,
                    control_plane@,
                    member_names.take(i as int),
                    candidates,
                    registered@,
                    statics@,
                    now,
                );
                &&& views(missing@) == scan.1
                &&& views(stale@) == scan.2
                &&& least_named(scan.0) == match best {
                    Some((node, binding, root)) => Some((node@, (binding, root@))),
                    None => None::<(Seq<char>, BindingView)>,
                }
            }),
        decreases n - i,
    {
        proof {
            assert(member_names.take(i + 1).drop_last() =~= member_names.take(i as int));
            assert(member_names.take(i + 1).last() == members@[i as int]@);
        }
        let node = &members[i];
        let ghost prior = group_scan(
            *config,
            control_plane@,
            member_names.take(i as int),
            candidates,
            registered@,
            statics@,
            now,
        );
        if has_member(&summary.candidate_nodes, node.as_str()) {
            match resolve_known_node_binding(config, control_plane, registered, statics, node.as_str(), now) {
                Ok(Some((binding, root))) => {
                    let replace = match &best {
                        None => true,
                        Some((name, _, _)) => str_lt(node.as_str(), name.as_str()),
                    };
                    let ghost entry = (node@, (binding, root@));
                    assert(prior.0.push(entry).drop_last() =~= prior.0);
                    if replace {
                        best = Some((node.clone(), binding, root));
                    }
                },
                Ok(None) => {
                    let ghost before = missing@;
                    missing.push(node.clone());
                    assert(views(missing@) =~= views(before).push(node@));
                },
                Err(m) => {
                    let ghost before = stale@;
                    stale.push(m);
                    assert(views(stale@) =~= views(before).push(m@));
                },
            }
        }
        i = i + 1;
    }
    proof {
        assert(member_names.take(n as int) =~= member_names);
        assert(member_names == group@.nodes);
    }
    match best {
        Some(found) => Ok(found),
        None => {
            let rejected = rejected_member_list(members, &summary.rejected_nodes);
            let mut m = String::from_str("control plane '");
            m.append(control_plane);
            m.append("' cannot place service for machine '");
            m.append(summary.machine_name.as_str());
            m.append("' in host group '");
            m.append(g);
            m.append("' with scheduler '");
            m.append(group.scheduler.debug_name());
            m.append("'");
            if rejected.len() > 0 {
                m.append("; rejected nodes: ");
                let joined = join_strings(&rejected, ", ");
                m.append(joined.as_str());
            }
            if missing.len() > 0 {
                m.append("; eligible nodes without live registrations: ");
                let joined = join_strings(&missing, ", ");
                m.append(joined.as_str());
            }
            if stale.len() > 0 {
                m.append("; stale registrations: ");
                let joined = join_strings(&stale, ", ");
                m.append(joined.as_str());
            }
            if rejected.len() == 0 && missing.len() == 0 {
                m.append("; no candidate nodes in the requested host group are eligible");
            }
            m.append("; ");
            m.append(summary.placement_detail.as_str());
            proof {
                let scan = group_scan(
                    *config,
                    control_plane@,
                    group@.nodes,
                    candidates,
                    registered@,
                    statics@,
                    now,
                );
                assert(m@ =~= no_member_message(control_plane@, *summary, g@, group@, scan));
            }
            Err(m)
        },
    }
}

/// The summary of a machine that `control_plane` serves, or why it refuses
/// the machine.
pub open spec fn served_summary(
    cfg: PortConfig,
    native: crate::model::MachineArchitecture,
    control_plane: Seq<char>,
    machine: Seq<char>,
) -> Result<crate::views::HostedMachineSummaryContractView, (crate::route::RequestRefusal, Seq<char>)> {
    match crate::summary::summary_spec(cfg, native, machine) {
        Err(e) => Err(
            (
                crate::route::RequestRefusal::BadRequest,
                "control plane '"@ + control_plane + "' could not resolve hosted machine '"@ + machine
                    + "': "@ + e,
            ),
        ),
        Ok(None) => Err(
            (
                crate::route::RequestRefusal::NotFound,
                "machine '"@ + machine + "' does not resolve to hosted control plane '"@ + control_plane
                    + "'"@,
            ),
        ),
        Ok(Some(summary)) => if summary.control_plane != control_plane {
            Err(
                (
                    crate::route::RequestRefusal::NotFound,
                    "machine '"@ + machine + "' belongs to control plane '"@ + summary.control_plane
                        + "', not '"@ + control_plane + "'"@,
                ),
            )
        } else {
            Ok(summary)
        },
    }
}

/// The summary of hosted machine `machine_name` when `control_plane` serves
/// it, or why it refuses the machine.
pub fn resolve_summary(
    config: &PortConfig,
    native: crate::model::MachineArchitecture,
    control_plane: &str,
    machine_name: &str,
) -> (r: Result<HostedMachineSummaryContract, (crate::route::RequestRefusal, String)>)
    ensures
        match r {
            Ok(summary) => served_summary(*config, native, control_plane@, machine_name@) == Ok::<
                crate::views::HostedMachineSummaryContractView,
                (crate::route::RequestRefusal, Seq<char>),
            >(summary@),
            Err((kind, message)) => served_summary(*config, native, control_plane@, machine_name@)
                == Err::<crate::views::HostedMachineSummaryContractView, (crate::route::RequestRefusal, Seq<char>)>(
                (kind, message@),
            ),
        },
{
    match config.hosted_machine_summary_contract(machine_name, native) {
        Err(e) => {
            let mut m = String::from_str("control plane '");
            m.append(control_plane);
            m.append("' could not resolve hosted machine '");
            m.append(machine_name);
            m.append("': ");
            m.append(e.message());
            Err((crate::route::RequestRefusal::BadRequest, m))
        },
        Ok(None) => {
            let mut m = String::from_str("machine '");
            m.append(machine_name);
            m.append("' does not resolve to hosted control plane '");
            m.append(control_plane);
            m.append("'");
            Err((crate::route::RequestRefusal::NotFound, m))
        },
        Ok(Some(summary)) => {
            if !crate::text::str_eq(summary.control_plane.as_str(), control_plane) {
                let mut m = String::from_str("machine '");
                m.append(machine_name);
                m.append("' belongs to control plane '");
                m.append(summary.control_plane.as_str());
                m.append("', not '");
                m.append(control_plane);
                m.append("'");
                return Err((crate::route::RequestRefusal::NotFound, m));
            }
            Ok(summary)
        },
    }
}

/// Whether `control_plane` serves machine `machine`: its summary resolves
/// and names that control plane.
pub open spec fn serves_machine(
    cfg: PortConfig,
    native: crate::model::MachineArchitecture,
    control_plane: Seq<char>,
    machine: Seq<char>,
) -> bool {
    crate::summary::summary_spec(cfg, native, machine) matches Ok(Some(summary)) && summary.control_plane
        == control_plane
}

/// The machines `control_plane` serves, in name order.
pub open spec fn served_machines(
    cfg: PortConfig,
    native: crate::model::MachineArchitecture,
    control_plane: Seq<char>,
    names: Seq<Seq<char>>,
) -> Seq<Seq<char>>
    decreases names.len(),
{
    if names.len() == 0 {
        Seq::empty()
    } else {
        let prior = served_machines(cfg, native, control_plane, names.drop_last());
        if serves_machine(cfg, native, control_plane, names.last()) {
            prior.push(names.last())
        } else {
            prior
        }
    }
}

/// The names of the machines that `control_plane` lists: every configured
/// machine whose summary resolves to that control plane, in name order;
/// machines whose summary does not resolve are left out.
pub fn served_machine_names(
    config: &PortConfig,
    native: crate::model::MachineArchitecture,
    control_plane: &str,
) -> (r: Vec<String>)
    ensures
        views(r@) == served_machines(
            *config,
            native,
            control_plane@,
            crate::named_map::names_of(config.machines@),
        ),
{
    let ghost names = crate::named_map::names_of(config.machines@);
    let n = config.machines.len();
    let mut r: Vec<String> = Vec::new();
    let mut i: usize = 0;
    while i < n
        invariant
            n == config.machines@.len(),
            names == crate::named_map::names_of(config.machines@),
            i <= n,
            views(r@) == served_machines(*config, native, control_plane@, names.take(i as int)),
        decreases n - i,
    {
        let name = config.machines.name_at(i);
        proof {
            assert(names.take(i + 1).drop_last() =~= names.take(i as int));
            assert(names.take(i + 1).last() == name@);
        }
        match config.hosted_machine_summary_contract(name.as_str(), native) {
            Ok(Some(summary)) => {
                if crate::text::str_eq(summary.control_plane.as_str(), control_plane) {
                    let ghost before = r@;
                    r.push(name.clone());
                    assert(views(r@) =~= views(before).push(name@));
                }
            },
            _ => {},
        }
        i = i + 1;
    }
    proof {
        assert(names.take(n as int) =~= names);
    }
    r
}

/// The service a `<service>:stop` command names; other commands name none.
pub open spec fn stop_target(command: Seq<char>) -> Option<Seq<char>> {
    let suffix = ":stop"@;
    if command.len() >= suffix.len() && command.subrange(command.len() - suffix.len(), command.len() as int)
        == suffix {
        Some(command.subrange(0, command.len() - suffix.len()))
    } else {
        None
    }
}

/// The service that a `<service>:stop` command stops; the control plane
/// serves no other service command.
pub fn service_stop_target(command: &str) -> (r: Option<String>)
    ensures
        match r {
            Some(s) => stop_target(command@) == Some(s@),
            None => stop_target(command@) is None,
        },
{
    proof {
        reveal_strlit(":stop");
    }
    let n = command.unicode_len();
    if n < 5 {
        return None;
    }
    let tail = command.substring_char(n - 5, n);
    if crate::text::str_eq(tail, ":stop") {
        Some(String::from_str(command.substring_char(0, n - 5)))
    } else {
        None
    }
}

/// Why the control plane refuses a service command other than a stop.
pub fn unsupported_service_command(control_plane: &str) -> (r: String)
    ensures
        r@ == "control plane '"@ + control_plane@
            + "' only serves service stop through '/v1/machines/{machine}/services/{service}:stop'"@,
{
    let mut m = String::from_str("control plane '");
    m.append(control_plane);
    m.append("' only serves service stop through '/v1/machines/{machine}/services/{service}:stop'");
    m
}

} // verus!
