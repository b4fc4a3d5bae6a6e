//! The hosted fleet report of a machine: for every node that takes part in
//! its routing, what the configured inventory, the imported inventory and
//! the node registrations say of it.
use vstd::prelude::*;

use crate::checks::{first_failure, lemma_first_failure_at, lemma_first_failure_all_ok, Outcome};
use crate::hosted_state::{ImportedNodeRecord, RegisteredNodeRecord};
use crate::model::{HostedMachineSummaryContract, PortConfig};
use crate::named_map::{insert_sorted, lookup, names_of, NameMap};
use crate::pvm::{caps_populated, caps_subset};
use crate::text::{decimal, decimal_string, join, join_strings, str_eq, views};

verus! {

/// How recent a node's registration is.
#[derive(Debug, Clone, Copy, PartialEq, Eq, Structural)]
pub enum HostedFleetFreshnessState {
    Live,
    Stale,
    MissingRegistration,
}

/// Whether the control plane may route to a node, and if not, why.
#[derive(Debug, Clone, Copy, PartialEq, Eq, Structural)]
pub enum HostedFleetRoutingEligibility {
    Eligible,
    Rejected,
    StaleRegistration,
    MissingRegistration,
}

/// One node of a machine's fleet report.
#[derive(Debug, PartialEq, Eq)]
pub struct HostedFleetNodeStatus {
    pub node_name: String,
    pub configured: bool,
    pub imported: bool,
    pub registered: bool,
    pub selected: bool,
    pub freshness: HostedFleetFreshnessState,
    pub routing_eligibility: HostedFleetRoutingEligibility,
    pub import_provenance: Option<String>,
    pub imported_at_unix_s: Option<u64>,
    pub refreshed_at_unix_s: Option<u64>,
    pub ttl_seconds: Option<u64>,
    pub fresh_until_unix_s: Option<u64>,
    pub detail: String,
}

pub struct HostedFleetNodeStatusView {
    pub node_name: Seq<char>,
    pub configured: bool,
    pub imported: bool,
    pub registered: bool,
    pub selected: bool,
    pub freshness: HostedFleetFreshnessState,
    pub routing_eligibility: HostedFleetRoutingEligibility,
    pub import_provenance: Option<Seq<char>>,
    pub imported_at_unix_s: Option<u64>,
    pub refreshed_at_unix_s: Option<u64>,
    pub ttl_seconds: Option<u64>,
    pub fresh_until_unix_s: Option<u64>,
    pub detail: Seq<char>,
}

impl View for HostedFleetNodeStatus {
    type V = HostedFleetNodeStatusView;

    open spec fn view(&self) -> HostedFleetNodeStatusView {
        HostedFleetNodeStatusView {
            node_name: self.node_name@,
            configured: self.configured,
            imported: self.imported,
            registered: self.registered,
            selected: self.selected,
            freshness: self.freshness,
            routing_eligibility: self.routing_eligibility,
            import_provenance: crate::views::option_view(self.import_provenance),
            imported_at_unix_s: self.imported_at_unix_s,
            refreshed_at_unix_s: self.refreshed_at_unix_s,
            ttl_seconds: self.ttl_seconds,
            fresh_until_unix_s: self.fresh_until_unix_s,
            detail: self.detail@,
        }
    }
}

/// The views of a list of statuses.
pub open spec fn status_views(v: Seq<HostedFleetNodeStatus>) -> Seq<HostedFleetNodeStatusView> {
    v.map_values(|s: HostedFleetNodeStatus| s@)
}

/// The ordered set of names after adding `names` to `set`, one by one.
pub open spec fn with_names(set: Seq<(Seq<char>, ())>, names: Seq<Seq<char>>) -> Seq<(Seq<char>, ())>
    decreases names.len(),
{
    if names.len() == 0 {
        set
    } else {
        insert_sorted(with_names(set, names.drop_last()), names.last(), ())
    }
}

/// The nodes that a machine's fleet report covers, each once and in name
/// order: its candidate nodes, its rejected nodes and the selected node.
pub open spec fn fleet_nodes(summary: HostedMachineSummaryContract, selected: Option<Seq<char>>) -> Seq<Seq<char>> {
    let routed = with_names(
        with_names(Seq::empty(), views(summary.candidate_nodes@)),
        names_of(summary.rejected_nodes@),
    );
    names_of(
        match selected {
            Some(node) => insert_sorted(routed, node, ()),
            None => routed,
        },
    )
}

/// The start of every message about merging the fleet state of `node`.
pub open spec fn merge_prefix(control_plane: Seq<char>, machine: Seq<char>, node: Seq<char>) -> Seq<char> {
    "control plane '"@ + control_plane + "' could not merge hosted fleet state for machine '"@ + machine
        + "': affected node '"@ + node
}

/// Whether the configured, imported and registered views of `node` agree.
pub open spec fn fleet_merge_check(
    cfg: PortConfig,
    control_plane: Seq<char>,
    machine: Seq<char>,
    node: Seq<char>,
    imported: Seq<(Seq<char>, ImportedNodeRecord)>,
) -> Outcome {
    let p = merge_prefix(control_plane, machine, node);
    match lookup(cfg.nodes@, node) {
        None => Err(p + "' is not present in the configured hosted inventory"@),
        Some(configured) => match lookup(cfg.hosts@, configured.host@) {
            None => Err(p + "' references unknown host '"@ + configured.host@ + "'"@),
            Some(host) => match lookup(imported, node) {
                None => Ok(()),
                Some(record) => if record.provider != host.provider {
                    Err(
                        p + "' has imported provider '"@ + record.provider.debug_name_text()
                            + "' but configured provider '"@ + host.provider.debug_name_text() + "'"@,
                    )
                } else if !caps_populated(record.capability_summary@) {
                    Err(p + "' has an empty imported capability summary"@)
                } else if !caps_subset(record.capability_summary@, configured.capabilities@) {
                    Err(p + "' has imported capabilities outside the configured node contract"@)
                } else {
                    Ok(())
                },
            },
        },
    }
}

/// The freshness of a registration at time `now`.
pub open spec fn freshness_at(registration: Option<RegisteredNodeRecord>, now: u64) -> HostedFleetFreshnessState {
    match registration {
        None => HostedFleetFreshnessState::MissingRegistration,
        Some(record) => if record.contract.freshness.fresh_until >= now {
            HostedFleetFreshnessState::Live
        } else {
            HostedFleetFreshnessState::Stale
        },
    }
}

/// The sentences that explain a node's place in the fleet report.
pub open spec fn fleet_detail_parts(
    summary: HostedMachineSummaryContract,
    selected: bool,
    node: Seq<char>,
    registration: Option<RegisteredNodeRecord>,
    imported: Option<ImportedNodeRecord>,
    now: u64,
) -> Seq<Seq<char>> {
    let p0 = if selected {
        seq!["Selected by the current control-plane route."@]
    } else {
        Seq::empty()
    };
    let p1 = match lookup(summary.rejected_nodes@, node) {
        Some(reason) => p0.push("Rejected for routing: "@ + reason@),
        None => p0,
    };
    let p2 = p1.push(
        match imported {
            Some(record) => "Imported from '"@ + record.provenance@ + "' at "@ + decimal(
                record.imported_at as nat,
            ) + "."@,
            None => "No imported inventory record."@,
        },
    );
    p2.push(
        match registration {
            None => "No registered node-agent endpoint."@,
            Some(record) => {
                let f = record.contract.freshness;
                if f.fresh_until >= now {
                    "Registered with a live node-agent refresh at "@ + decimal(f.refreshed_at as nat)
                        + " and ttl "@ + decimal(f.ttl_seconds as nat) + "s (fresh until "@ + decimal(
                        f.fresh_until as nat,
                    ) + ")."@
                } else {
                    "Registered node-agent refresh at "@ + decimal(f.refreshed_at as nat) + " with ttl "@
                        + decimal(f.ttl_seconds as nat) + "s expired at "@ + decimal(
                        f.fresh_until as nat,
                    ) + "."@
                }
            },
        },
    )
}

/// The fleet status of `node` at time `now`.
pub open spec fn fleet_status(
    summary: HostedMachineSummaryContract,
    selected: Option<Seq<char>>,
    registered: Seq<(Seq<char>, RegisteredNodeRecord)>,
    imported: Seq<(Seq<char>, ImportedNodeRecord)>,
    node: Seq<char>,
    now: u64,
) -> HostedFleetNodeStatusView {
    let is_selected = selected == Some(node);
    let registration = lookup(registered, node);
    let record = lookup(imported, node);
    let freshness = freshness_at(registration, now);
    HostedFleetNodeStatusView {
        node_name: node,
        configured: true,
        imported: record is Some,
        registered: registration is Some,
        selected: is_selected,
        freshness,
        routing_eligibility: if lookup(summary.rejected_nodes@, node) is Some {
            HostedFleetRoutingEligibility::Rejected
        } else {
            match freshness {
                HostedFleetFreshnessState::Live => HostedFleetRoutingEligibility::Eligible,
                HostedFleetFreshnessState::Stale => HostedFleetRoutingEligibility::StaleRegistration,
                HostedFleetFreshnessState::MissingRegistration => HostedFleetRoutingEligibility::MissingRegistration,
            }
        },
        import_provenance: match record {
            Some(r) => Some(r.provenance@),
            None => None,
        },
        imported_at_unix_s: match record {
            Some(r) => Some(r.imported_at),
            None => None,
        },
        refreshed_at_unix_s: match registration {
            Some(r) => Some(r.contract.freshness.refreshed_at),
            None => None,
        },
        ttl_seconds: match registration {
            Some(r) => Some(r.contract.freshness.ttl_seconds),
            None => None,
        },
        fresh_until_unix_s: match registration {
            Some(r) => Some(r.contract.freshness.fresh_until),
            None => None,
        },
        detail: join(fleet_detail_parts(summary, is_selected, node, registration, record, now), " "@),
    }
}

/// The merge check of each node of `nodes`, by index.
pub open spec fn fleet_checks(
    cfg: PortConfig,
    control_plane: Seq<char>,
    summary: HostedMachineSummaryContract,
    nodes: Seq<Seq<char>>,
    imported: Seq<(Seq<char>, ImportedNodeRecord)>,
) -> spec_fn(int) -> Outcome {
    |i: int| fleet_merge_check(cfg, control_plane, summary.machine_name@, nodes[i], imported)
}

/// The fleet report of a machine at time `now`: the first node, in name
/// order, whose views disagree fails it; otherwise every node's status.
pub open spec fn fleet_spec(
    cfg: PortConfig,
    control_plane: Seq<char>,
    summary: HostedMachineSummaryContract,
    selected: Option<Seq<char>>,
    registered: Seq<(Seq<char>, RegisteredNodeRecord)>,
    imported: Seq<(Seq<char>, ImportedNodeRecord)>,
    now: u64,
) -> Result<Seq<HostedFleetNodeStatusView>, Seq<char>> {
    let nodes = fleet_nodes(summary, selected);
    match first_failure(nodes.len() as int, fleet_checks(cfg, control_plane, summary, nodes, imported)) {
        Err(e) => Err(e),
        Ok(_) => Ok(
            nodes.map_values(
                |node: Seq<char>| fleet_status(summary, selected, registered, imported, node, now),
            ),
        ),
    }
}

/// Adds each of `names` to `set`.
fn add_names(set: &mut NameMap<()>, names: &Vec<String>)
    ensures
        final(set)@ == with_names(old(set)@, views(names@)),
{
    let ghost start = set@;
    let n = names.len();
    let mut i: usize = 0;
    while i < n
        invariant
            n == names@.len(),
            i <= n,
            set@ == with_names(start, views(names@).take(i as int)),
        decreases n - i,
    {
        proof {
            let v = views(names@);
            assert(v.take(i + 1).drop_last() =~= v.take(i as int));
            assert(v.take(i + 1).last() == names@[i as int]@);
        }
        set.insert(names[i].clone(), ());
        i = i + 1;
    }
    proof {
        assert(views(names@).take(n as int) =~= views(names@));
    }
}

/// Adds each name of `map` to `set`.
fn add_map_names(set: &mut NameMap<()>, map: &NameMap<String>)
    ensures
        final(set)@ == with_names(old(set)@, names_of(map@)),
{
    let ghost start = set@;
    let n = map.len();
    let mut i: usize = 0;
    while i < n
        invariant
            n == map@.len(),
            i <= n,
            set@ == with_names(start, names_of(map@).take(i as int)),
        decreases n - i,
    {
        proof {
            let v = names_of(map@);
            assert(v.take(i + 1).drop_last() =~= v.take(i as int));
            assert(v.take(i + 1).last() == map@[i as int].0);
        }
        set.insert(map.name_at(i).clone(), ());
        i = i + 1;
    }
    proof {
        assert(names_of(map@).take(n as int) =~= names_of(map@));
    }
}

/// Appends `a`, `b` and `c` to `s`.
fn append3(s: &mut String, a: &str, b: &str, c: &str)
    ensures
        final(s)@ == old(s)@ + a@ + b@ + c@,
{
    s.append(a);
    s.append(b);
    s.append(c);
}

/// The start of every message about merging the fleet state of `node`.
fn merge_message(control_plane: &str, machine: &str, node: &str, rest: &str) -> (r: String)
    ensures
        r@ == merge_prefix(control_plane@, machine@, node@) + rest@,
{
    let mut m = String::from_str("control plane '");
    append3(&mut m, control_plane, "' could not merge hosted fleet state for machine '", machine);
    append3(&mut m, "': affected node '", node, rest);
    m
}

/// Checks that the configured, imported and registered views of `node` agree.
fn check_fleet_node(
    config: &PortConfig,
    control_plane: &str,
    machine: &str,
    node: &str,
    imported: &NameMap<ImportedNodeRecord>,
) -> (r: Result<(), String>)
    ensures
        match r {
            Ok(_) => fleet_merge_check(*config, control_plane@, machine@, node@, imported@) is Ok,
            Err(e) => fleet_merge_check(*config, control_plane@, machine@, node@, imported@) == Err::<
                (),
                Seq<char>,
            >(e@),
        },
{
    let configured = match config.nodes.get(node) {
        Some(configured) => configured,
        None => {
            return Err(
                merge_message(
                    control_plane,
                    machine,
                    node,
                    "' is not present in the configured hosted inventory",
                ),
            );
        },
    };
    let host = match config.hosts.get(configured.host.as_str()) {
        Some(host) => host,
        None => {
            let mut m = merge_message(control_plane, machine, node, "' references unknown host '");
            m.append(configured.host.as_str());
            m.append("'");
            return Err(m);
        },
    };
    match imported.get(node) {
        None => Ok(()),
        Some(record) => {
            if record.provider != host.provider {
                let mut m = merge_message(
                    control_plane,
                    machine,
                    node,
                    "' has imported provider '",
                );
                append3(
                    &mut m,
                    record.provider.debug_name(),
                    "' but configured provider '",
                    host.provider.debug_name(),
                );
                m.append("'");
                Err(m)
            } else if !record.capability_summary.is_populated() {
                Err(
                    merge_message(
                        control_plane,
                        machine,
                        node,
                        "' has an empty imported capability summary",
                    ),
                )
            } else if !record.capability_summary.is_subset_of(&configured.capabilities) {
                Err(
                    merge_message(
                        control_plane,
                        machine,
                        node,
                        "' has imported capabilities outside the configured node contract",
                    ),
                )
            } else {
                Ok(())
            }
        },
    }
}

/// The fleet status of `node` at time `now`.
fn fleet_node_status(
    summary: &HostedMachineSummaryContract,
    selected: Option<&str>,
    registered: &NameMap<RegisteredNodeRecord>,
    imported: &NameMap<ImportedNodeRecord>,
    node: &str,
    now: u64,
) -> (r: HostedFleetNodeStatus)
    ensures
        r@ == fleet_status(
            *summary,
            match selected {
                Some(s) => Some(s@),
                None => None,
            },
            registered@,
            imported@,
            node@,
            now,
        ),
{
    let ghost sel = match selected {
        Some(s) => Some(s@),
        None => None::<Seq<char>>,
    };
    let is_selected = match selected {
        Some(s) => str_eq(s, node),
        None => false,
    };
    assert(is_selected == (sel == Some(node@)));
    let registration = registered.get(node);
    let record = imported.get(node);
    let rejected = summary.rejected_nodes.get(node);
    let mut parts: Vec<String> = Vec::new();
    if is_selected {
        parts.push(String::from_str("Selected by the current control-plane route."));
    }
    match rejected {
        Some(reason) => {
            let mut m = String::from_str("Rejected for routing: ");
            m.append(reason.as_str());
            parts.push(m);
        },
        None => {},
    }
    match record {
        Some(rec) => {
            let mut m = String::from_str("Imported from '");
            let at = decimal_string(rec.imported_at);
            append3(&mut m, rec.provenance.as_str(), "' at ", at.as_str());
            m.append(".");
            parts.push(m);
        },
        None => {
            parts.push(String::from_str("No imported inventory record."));
        },
    }
    let freshness;
    match registration {
        None => {
            freshness = HostedFleetFreshnessState::MissingRegistration;
            parts.push(String::from_str("No registered node-agent endpoint."));
        },
        Some(reg) => {
            let f = reg.contract.freshness;
            let refreshed = decimal_string(f.refreshed_at);
            let ttl = decimal_string(f.ttl_seconds);
            let until = decimal_string(f.fresh_until);
            if f.fresh_until >= now {
                freshness = HostedFleetFreshnessState::Live;
                let mut m = String::from_str("Registered with a live node-agent refresh at ");
                append3(&mut m, refreshed.as_str(), " and ttl ", ttl.as_str());
                append3(&mut m, "s (fresh until ", until.as_str(), ").");
                parts.push(m);
            } else {
                freshness = HostedFleetFreshnessState::Stale;
                let mut m = String::from_str("Registered node-agent refresh at ");
                append3(&mut m, refreshed.as_str(), " with ttl ", ttl.as_str());
                append3(&mut m, "s expired at ", until.as_str(), ".");
                parts.push(m);
            }
        },
    }
    proof {
        assert(views(parts@) =~= fleet_detail_parts(
            *summary,
            is_selected,
            node@,
            lookup(registered@, node@),
            lookup(imported@, node@),
            now,
        ));
    }
    let routing_eligibility = if rejected.is_some() {
        HostedFleetRoutingEligibility::Rejected
    } else {
        match freshness {
            HostedFleetFreshnessState::Live => HostedFleetRoutingEligibility::Eligible,
            HostedFleetFreshnessState::Stale => HostedFleetRoutingEligibility::StaleRegistration,
            HostedFleetFreshnessState::MissingRegistration => HostedFleetRoutingEligibility::MissingRegistration,
        }
    };
    let detail = join_strings(&parts, " ");
    HostedFleetNodeStatus {
        node_name: String::from_str(node),
        configured: true,
        imported: record.is_some(),
        registered: registration.is_some(),
        selected: is_selected,
        freshness,
        routing_eligibility,
        import_provenance: match record {
            Some(rec) => Some(rec.provenance.clone()),
            None => None,
        },
        imported_at_unix_s: match record {
            Some(rec) => Some(rec.imported_at),
            None => None,
        },
        refreshed_at_unix_s: match registration {
            Some(reg) => Some(reg.contract.freshness.refreshed_at),
            None => None,
        },
        ttl_seconds: match registration {
            Some(reg) => Some(reg.contract.freshness.ttl_seconds),
            None => None,
        },
        fresh_until_unix_s: match registration {
            Some(reg) => Some(reg.contract.freshness.fresh_until),
            None => None,
        },
        detail,
    }
}

/// The fleet report of machine `summary` on `control_plane` at time `now`:
/// one status per node among its candidate nodes, its rejected nodes and the
/// node the current route selected, in name order. A node whose imported
/// record disagrees with the configured inventory fails the report.
pub fn hosted_fleet_node_statuses(
    config: &PortConfig,
    control_plane: &str,
    summary: &HostedMachineSummaryContract,
    selected: Option<&str>,
    registered: &NameMap<RegisteredNodeRecord>,
    imported: &NameMap<ImportedNodeRecord>,
    now: u64,
) -> (r: Result<Vec<HostedFleetNodeStatus>, String>)
    ensures
        match r {
            Ok(v) => fleet_spec(
                *config,
                control_plane@,
                *summary,
                match selected {
                    Some(s) => Some(s@),
                    None => None,
                },
                registered@,
                imported@,
                now,
            ) == Ok::<Seq<HostedFleetNodeStatusView>, Seq<char>>(status_views(v@)),
            Err(e) => fleet_spec(
                *config,
                control_plane@,
                *summary,
                match selected {
                    Some(s) => Some(s@),
                    None => None,
                },
                registered@,
                imported@,
                now,
            ) == Err::<Seq<HostedFleetNodeStatusView>, Seq<char>>(e@),
        },
{
    let ghost sel = match selected {
        Some(s) => Some(s@),
        None => None::<Seq<char>>,
    };
    let mut relevant: NameMap<()> = NameMap::new();
    add_names(&mut relevant, &summary.candidate_nodes);
    add_map_names(&mut relevant, &summary.rejected_nodes);
    match selected {
        Some(s) => {
            relevant.insert(String::from_str(s), ());
        },
        None => {},
    }
    let ghost nodes = fleet_nodes(*summary, sel);
    assert(names_of(relevant@) == nodes);
    let ghost check = fleet_checks(*config, control_plane@, *summary, nodes, imported@);
    let n = relevant.len();
    let mut statuses: Vec<HostedFleetNodeStatus> = Vec::new();
    let mut i: usize = 0;
    while i < n
        invariant
            n == relevant@.len(),
            nodes == names_of(relevant@),
            nodes == fleet_nodes(*summary, sel),
            sel == match selected {
                Some(s) => Some(s@),
                None => None::<Seq<char>>,
            },
            nodes.len() == n,
            i <= n,
            check == fleet_checks(*config, control_plane@, *summary, nodes, imported@),
            forall|k: int| 0 <= k < i ==> #[trigger] check(k) is Ok,
            status_views(statuses@) =~= nodes.take(i as int).map_values(
                |node: Seq<char>| fleet_status(*summary, sel, registered@, imported@, node, now),
            ),
        decreases n - i,
    {
        let node = relevant.name_at(i);
        assert(node@ == nodes[i as int]);
        match check_fleet_node(config, control_plane, summary.machine_name.as_str(), node.as_str(), imported) {
            Ok(_) => {},
            Err(e) => {
                proof {
                    lemma_first_failure_at(n as int, i as int, check);
                }
                return Err(e);
            },
        }
        assert(check(i as int) is Ok);
        let status = fleet_node_status(summary, selected, registered, imported, node.as_str(), now);
        let ghost before = statuses@;
        statuses.push(status);
        proof {
            assert(status_views(statuses@) =~= status_views(before).push(status@));
            assert(nodes.take(i + 1) =~= nodes.take(i as int).push(nodes[i as int]));
        }
        i = i + 1;
    }
    proof {
        lemma_first_failure_all_ok(n as int, check);
        assert(nodes.take(n as int) =~= nodes);
    }
    Ok(statuses)
}

} // verus!
