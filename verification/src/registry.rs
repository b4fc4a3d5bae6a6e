//! How a control plane's durable state changes: a node agent refreshing its
//! registration, and a machine being placed on a node.
use vstd::prelude::*;

use crate::contracts::{lemma_lookup_names_match, names_match};
use crate::hosted_state::{
    registered_node_records, registered_state_spec, record_matches, HostedMachinePlacementRecord,
    MachinePlacementStateFile, RegisteredNodeRecord, RegisteredNodeStateFile,
};
use crate::model::{HostedNodeRegistration, PortConfig};
use crate::named_map::{insert_sorted, lookup, NameMap};
use crate::text::{decimal, decimal_string};
use crate::views::{option_view, HostedRegisteredNodeContractView};

verus! {

impl Clone for RegisteredNodeRecord {
    fn clone(&self) -> (r: Self)
        ensures
            r.binding == self.binding,
            r.contract@ == self.contract@,
    {
        RegisteredNodeRecord { binding: self.binding.clone(), contract: self.contract.clone() }
    }
}

/// Why a refresh older than the stored registration is refused.
pub open spec fn stale_refresh_message(control_plane: Seq<char>, node: Seq<char>, refreshed_at: u64, current: u64) -> Seq<
    char,
> {
    "control plane '"@ + control_plane + "' rejected stale registration refresh for node '"@ + node
        + "': refreshed_at "@ + decimal(refreshed_at as nat) + " is older than current "@ + decimal(
        current as nat,
    )
}

/// Whether a refresh of `node` may replace what is stored: it may not be
/// older than the stored registration.
pub open spec fn refresh_allowed(
    nodes: Seq<(Seq<char>, HostedNodeRegistration)>,
    node: Seq<char>,
    registration: HostedNodeRegistration,
) -> bool {
    match lookup(nodes, node) {
        Some(existing) => registration.refreshed_at >= existing.refreshed_at,
        None => true,
    }
}

/// The contract that a control plane derives for `node` when it refreshes
/// with `registration`: refused when the refresh is older than what is
/// stored, else the contract of the node in the refreshed state.
pub open spec fn refresh_spec(
    cfg: PortConfig,
    control_plane: Seq<char>,
    nodes: Seq<(Seq<char>, HostedNodeRegistration)>,
    node: Seq<char>,
    registration: HostedNodeRegistration,
) -> Result<HostedRegisteredNodeContractView, Seq<char>> {
    if !refresh_allowed(nodes, node, registration) {
        Err(
            stale_refresh_message(
                control_plane,
                node,
                registration.refreshed_at,
                lookup(nodes, node)->Some_0.refreshed_at,
            ),
        )
    } else {
        match registered_state_spec(cfg, control_plane, insert_sorted(nodes, node, registration)) {
            Err(e) => Err(e),
            Ok(contracts) => match lookup(contracts, node) {
                Some(contract) => Ok(contract),
                None => Err(
                    "control plane '"@ + control_plane + "' could not derive a registered-node record for '"@
                        + node + "'"@,
                ),
            },
        }
    }
}

/// The records of a valid registration state, one per registration, in order.
pub open spec fn records_of(
    cfg: PortConfig,
    state: RegisteredNodeStateFile,
    records: Seq<(Seq<char>, RegisteredNodeRecord)>,
) -> bool {
    registered_state_spec(cfg, state.control_plane@, state.nodes@) matches Ok(contracts) && records.len()
        == contracts.len() && forall|i: int|
        0 <= i < records.len() ==> (#[trigger] records[i]).0 == contracts[i].0 && record_matches(
            records[i].1,
            contracts[i].0,
            state.nodes@[i].1,
            contracts[i].1,
        )
}

/// Stores a node agent's refreshed `registration` for `node_name` in the
/// registration state of `control_plane`, and derives the records of the
/// refreshed state. A refresh older than the stored registration is refused.
pub fn refresh_registration(
    config: &PortConfig,
    control_plane: &str,
    state: RegisteredNodeStateFile,
    node_name: &str,
    registration: HostedNodeRegistration,
) -> (r: Result<(RegisteredNodeStateFile, NameMap<RegisteredNodeRecord>, RegisteredNodeRecord), String>)
    ensures
        match r {
            Ok((next, records, record)) => {
                &&& refresh_spec(*config, control_plane@, state.nodes@, node_name@, registration) == Ok::<
                    HostedRegisteredNodeContractView,
                    Seq<char>,
                >(record.contract@)
                &&& record.binding.node_name@ == node_name@
                &&& record.binding.endpoint@ == registration.endpoint@
                &&& record.binding.token@ == registration.token@
                &&& next.control_plane@ == control_plane@
                &&& next.nodes@ == insert_sorted(state.nodes@, node_name@, registration)
                &&& records_of(*config, next, records@)
            },
            Err(e) => refresh_spec(*config, control_plane@, state.nodes@, node_name@, registration)
                == Err::<HostedRegisteredNodeContractView, Seq<char>>(e@),
        },
{
    let ghost old_nodes = state.nodes@;
    let ghost reg = registration;
    let _ = state.nodes.len();
    match state.nodes.get(node_name) {
        Some(existing) => {
            if registration.refreshed_at < existing.refreshed_at {
                let mut m = String::from_str("control plane '");
                m.append(control_plane);
                m.append("' rejected stale registration refresh for node '");
                m.append(node_name);
                m.append("': refreshed_at ");
                let newer = decimal_string(registration.refreshed_at);
                let current = decimal_string(existing.refreshed_at);
                m.append(newer.as_str());
                m.append(" is older than current ");
                m.append(current.as_str());
                return Err(m);
            }
        },
        None => {},
    }
    let mut next = state;
    next.control_plane = String::from_str(control_plane);
    next.nodes.insert(String::from_str(node_name), registration);
    proof {
        crate::laws::lemma_read_after_insert(old_nodes, node_name@, reg, node_name@);
    }
    let records = match registered_node_records(config, &next) {
        Ok(records) => records,
        Err(e) => {
            return Err(e);
        },
    };
    let ghost contracts = registered_state_spec(*config, next.control_plane@, next.nodes@)->Ok_0;
    proof {
        assert(names_match(records@, contracts));
        lemma_lookup_names_match(records@, contracts, node_name@);
        match crate::contracts::inventory_spec(*config) {
            Ok(inventory) => crate::hosted_state::lemma_registered_entries_names(
                inventory,
                next.control_plane@,
                next.nodes@,
            ),
            Err(_) => {},
        }
        lemma_lookup_names_match(contracts, next.nodes@, node_name@);
    }
    let record = match records.get(node_name) {
        Some(record) => record.clone(),
        None => {
            let mut m = String::from_str("control plane '");
            m.append(control_plane);
            m.append("' could not derive a registered-node record for '");
            m.append(node_name);
            m.append("'");
            return Err(m);
        },
    };
    proof {
        assert(refresh_allowed(old_nodes, node_name@, reg));
        assert(records_of(*config, next, records@));
        assert(lookup(records@, node_name@) is Some);
        let i = crate::named_map::find(records@, node_name@)->Some_0;
        crate::named_map::lemma_find_from_found(records@, node_name@, 0);
        assert(records@[i].0 == node_name@);
        assert(lookup(contracts, node_name@) == Some(contracts[i].1));
        assert(record.contract@ == contracts[i].1);
        assert(next.nodes@[i].0 == node_name@);
        assert(lookup(next.nodes@, node_name@) == Some(reg));
        assert(next.nodes@[i].1 == reg);
    }
    Ok((next, records, record))
}

/// The placement a launch on `node` records, or why none can be recorded.
pub open spec fn placement_spec(
    control_plane: Seq<char>,
    machine: Seq<char>,
    node: Option<Seq<char>>,
    runtime_root: Option<Seq<char>>,
    placement_detail: Option<Seq<char>>,
    launched_at: u64,
) -> Result<(Seq<char>, Seq<char>, u64, Option<Seq<char>>), Seq<char>> {
    match node {
        None => Err(
            "control plane '"@ + control_plane + "' resolved machine '"@ + machine
                + "' without a selected node"@,
        ),
        Some(n) => match runtime_root {
            None => Err(
                "control plane '"@ + control_plane + "' resolved machine '"@ + machine
                    + "' without a selected runtime root"@,
            ),
            Some(root) => Ok((n, root, launched_at, placement_detail)),
        },
    }
}

/// The fields of a placement record, by views.
pub open spec fn placement_view(p: HostedMachinePlacementRecord) -> (Seq<char>, Seq<char>, u64, Option<Seq<char>>) {
    (p.node_name@, p.runtime_root@, p.placed_at_unix_s, option_view(p.placement_detail))
}

/// Records that `machine_name` was launched at `launched_at` on the node
/// and runtime root the route selected, in the placement state of
/// `control_plane`.
pub fn record_machine_placement(
    control_plane: &str,
    state: MachinePlacementStateFile,
    machine_name: &str,
    node_name: Option<&str>,
    runtime_root: Option<&str>,
    placement_detail: Option<&str>,
    launched_at: u64,
) -> (r: Result<(MachinePlacementStateFile, HostedMachinePlacementRecord), String>)
    ensures
        match r {
            Ok((next, placement)) => {
                &&& placement_spec(
                    control_plane@,
                    machine_name@,
                    match node_name {
                        Some(n) => Some(n@),
                        None => None,
                    },
                    match runtime_root {
                        Some(n) => Some(n@),
                        None => None,
                    },
                    match placement_detail {
                        Some(n) => Some(n@),
                        None => None,
                    },
                    launched_at,
                ) == Ok::<(Seq<char>, Seq<char>, u64, Option<Seq<char>>), Seq<char>>(placement_view(placement))
                &&& next.control_plane@ == control_plane@
                &&& next.machines@ == insert_sorted(state.machines@, machine_name@, placement)
            },
            Err(e) => placement_spec(
                control_plane@,
                machine_name@,
                match node_name {
                    Some(n) => Some(n@),
                    None => None,
                },
                match runtime_root {
                    Some(n) => Some(n@),
                    None => None,
                },
                match placement_detail {
                    Some(n) => Some(n@),
                    None => None,
                },
                launched_at,
            ) == Err::<(Seq<char>, Seq<char>, u64, Option<Seq<char>>), Seq<char>>(e@),
        },
{
    let node = match node_name {
        Some(n) => n,
        None => {
            let mut m = String::from_str("control plane '");
            m.append(control_plane);
            m.append("' resolved machine '");
            m.append(machine_name);
            m.append("' without a selected node");
            return Err(m);
        },
    };
    let root = match runtime_root {
        Some(root) => root,
        None => {
            let mut m = String::from_str("control plane '");
            m.append(control_plane);
            m.append("' resolved machine '");
            m.append(machine_name);
            m.append("' without a selected runtime root");
            return Err(m);
        },
    };
    let placement = HostedMachinePlacementRecord {
        node_name: String::from_str(node),
        runtime_root: String::from_str(root),
        placed_at_unix_s: launched_at,
        placement_detail: match placement_detail {
            Some(d) => Some(String::from_str(d)),
            None => None,
        },
    };
    let mut next = state;
    next.control_plane = String::from_str(control_plane);
    next.machines.insert(String::from_str(machine_name), placement.clone());
    Ok((next, placement))
}

/// `message`, followed by the route's placement detail where it has one.
pub fn machine_placement_detail(placement_detail: Option<&str>, message: String) -> (r: String)
    ensures
        r@ == match placement_detail {
            Some(d) => if d@.len() > 0 {
                message@ + " "@ + d@
            } else {
                message@
            },
            None => message@,
        },
{
    match placement_detail {
        Some(d) => {
            if d.unicode_len() > 0 {
                let mut m = message;
                m.append(" ");
                m.append(d);
                m
            } else {
                message
            }
        },
        None => message,
    }
}

} // verus!
