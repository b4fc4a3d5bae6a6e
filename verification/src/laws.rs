//! Properties that hold across the library's operations.
use vstd::prelude::*;

use crate::named_map::{name_lt, sorted_names, find_from, find, lookup, insert_sorted, remove_name, lemma_name_lt_irreflexive, lemma_name_lt_trichotomy, lemma_name_lt_transitive, lemma_find_from_found, lemma_find_sorted};

use crate::machine_checks::resolve_architecture;
use crate::model::{MachineSpec, MachineArchitecture, ProtectionMode, PvmCapabilityState, PortConfig};
use crate::placement::{rejection_reason, hosted_lane_from};
use crate::summary::{nodes_on_host, placement_outcome, summary_spec};
use crate::contracts::inventory_spec;
use crate::views::{HostedNodeContractView, HostedNodeCapabilitiesView, HostedPvmCapabilityView};
use crate::registration::freshness_spec;
use crate::pvm::{demote_ready, caps_subset, all_in};
use crate::hosted_state::node_agent_endpoint_spec;
use crate::text::starts_with;
use crate::contracts::{inventory_group_check, inventory_member_check, member_cp};
use crate::checks::lemma_first_failure_ok_all;
use crate::model::{HostedNodeRegistration, HostedSchedulerPolicy, K3sClusterSpec};
use crate::cluster_checks::{k3s_check, distinct_candidates};

use crate::routing::{known_binding, route_scan, route_machine, group_scan, least_named, place_service, BindingView};
use crate::registry::refresh_spec;
use crate::fleet::{fleet_status, fleet_nodes, with_names, fleet_spec, fleet_checks, HostedFleetRoutingEligibility, HostedFleetFreshnessState};
use crate::hosted_state::{HostedNodeBinding, RegisteredNodeRecord, ImportedNodeRecord};
use crate::model::HostedMachineSummaryContract;
use crate::text::views;
use crate::localize::localize_refusal;
use crate::service_stop::{stop_step, unreachable_stop, ServiceStatusView, ServiceStopActionView};
use crate::contracts::machine_control_spec;
use crate::model::MachineInventoryScope;
use crate::listing::listing_route;
use crate::hosted_state::HostedMachinePlacementRecord;
use crate::hosted_state::{registered_entries, placement_check};
use crate::contracts::api_identity_spec;
use crate::machine_requests::{machine_stop_outcome, StopResultView};
use crate::listing::{MachineRoutingView, RuntimeLayout};
use crate::route::HostedRouteContextView;
use crate::service_status::{refresh_step, unreachable_refresh, ServiceRefreshView};
use crate::machine_checks::{repeats_earlier, runtime_class_check};
use crate::model::{
    MachineRuntimeClassKind, MachineRuntimeDeclaredInput, MachineRuntimeStateIsolation, MachineRuntimeTrustPosture,
    MachineRuntimeWritableRoot,
};
use crate::text::{is_blank, trim};
use crate::contracts::{artifact_endpoint_owner, endpoint_owner_from};
use crate::checks::lemma_first_failure_all_ok;
use crate::hosted_state::{import_check, imported_state_spec};
use crate::named_map::has_name;
use crate::pvm::caps_populated;
use crate::model::HostedImportedNodeRecord;
use crate::contracts::{node_cp, inventory_node_check};
use crate::model::HostConnection;
use crate::model::{
    HostSpec, HostedK3sHaTopologyPosture, PvmLaneDecision, ServiceHealthPolicy, ServiceKind, ServicePolicy,
    ServiceRestartPolicy, HOSTED_K3S_REAL_HA_MIN_CONTROL_PLANES,
};
use crate::validate::{
    host_check, control_plane_check, host_kit_check, store_check, artifact_spec_check, node_check, group_check,
    distribution_check,
};
use crate::cluster_checks::cluster_check;
use crate::model::{HostedNodeSpec, HostedHostGroupSpec, ClusterSpec, ClusterProvider, HostProvider};

use crate::model::{
    HostedControlPlaneSpec, HostedAuthTokenSource, PvmHostKit, ArtifactStore, OciRegistryAuth, ArtifactSpec,
    HostPlatform, ExecutionSubstrate,
};
use crate::services::{ha_posture_spec, service_policy_spec};
use crate::config_checks::{control_plane_stage_check, earlier_endpoint_owner, validate_spec};
use crate::machine_checks::{machine_check, machine_issues, machine_selector, issue_if, missing_variant_text};
use crate::artifacts::has_variant;
use crate::summary::{groups_touching, group_touches, entry_names, group_policies};
use crate::artifacts::catalog_lookup;
use crate::service_status::{insert_by_name, ordered_by_name, sorted_by_name, status_step, ServiceStatusActionView};
use crate::registration::{groups_with_member, registered_spec};
use crate::views::{HostedHostGroupContractView, HostedInventoryContractView};

verus! {

// ---------------------------------------------------------------------------
// Maps ordered by name

proof fn lemma_find_from_cons<V>(x: (Seq<char>, V), t: Seq<(Seq<char>, V)>, k: Seq<char>, i: int)
    requires
        0 <= i,
    ensures
        find_from(seq![x] + t, k, i + 1) == match find_from(t, k, i) {
            Some(j) => Some(j + 1),
            None => None::<int>,
        },
    decreases t.len() - i,
{
    let s = seq![x] + t;
    if i < t.len() {
        assert(s[i + 1] == t[i]);
        lemma_find_from_cons(x, t, k, i + 1);
    }
}

/// Looking a name up in an entry followed by more entries.
proof fn lemma_lookup_cons<V>(x: (Seq<char>, V), t: Seq<(Seq<char>, V)>, k: Seq<char>)
    ensures
        lookup(seq![x] + t, k) == if x.0 == k {
            Some(x.1)
        } else {
            lookup(t, k)
        },
{
    let s = seq![x] + t;
    assert(s[0] == x);
    if x.0 != k {
        lemma_find_from_cons(x, t, k, 0);
        lemma_find_from_found(t, k, 0);
        if let Some(j) = find_from(t, k, 0) {
            assert(s[j + 1] == t[j]);
        }
    }
}

/// A name smaller than every stored name is not stored.
/// Storing a value under a name keeps the entries ordered; the name then
/// reads back that value, and every other name reads back what it did.
pub proof fn lemma_read_after_insert<V>(s: Seq<(Seq<char>, V)>, k: Seq<char>, v: V, other: Seq<char>)
    requires
        sorted_names(s),
    ensures
        sorted_names(insert_sorted(s, k, v)),
        lookup(insert_sorted(s, k, v), k) == Some(v),
        other != k ==> lookup(insert_sorted(s, k, v), other) == lookup(s, other),
    decreases s.len(),
{
    if s.len() == 0 {
        lemma_lookup_cons((k, v), s, k);
        lemma_lookup_cons((k, v), s, other);
    } else {
        let x = s[0];
        let t = s.drop_first();
        assert(s =~= seq![x] + t);
        assert forall|i: int, j: int| 0 <= i < j < t.len() implies name_lt(
            #[trigger] t[i].0,
            #[trigger] t[j].0,
        ) by {
            assert(t[i] == s[i + 1] && t[j] == s[j + 1]);
        }
        lemma_name_lt_trichotomy(x.0, k);
        lemma_lookup_cons(x, t, other);
        if name_lt(x.0, k) {
            lemma_read_after_insert(t, k, v, other);
            let r = insert_sorted(t, k, v);
            lemma_lookup_cons(x, r, k);
            lemma_lookup_cons(x, r, other);
            lemma_name_lt_irreflexive(k);
            assert forall|i: int, j: int|
                0 <= i < j < (seq![x] + r).len() implies name_lt(
                #[trigger] (seq![x] + r)[i].0,
                #[trigger] (seq![x] + r)[j].0,
            ) by {
                let u = seq![x] + r;
                if i == 0 {
                    let m = j - 1;
                    assert(u[j] == r[m]);
                    if u[j].0 == k {
                    } else {
                        if r[m].0 != k {
                            lemma_read_after_insert(t, k, v, r[m].0);
                            assert(lookup(r, r[m].0) is Some) by {
                                lemma_find_from_found(r, r[m].0, 0);
                                lemma_find_sorted(r, r[m].0, m);
                            }
                            if lookup(t, r[m].0) is None {
                                assert(false);
                            }
                            lemma_find_from_found(t, r[m].0, 0);
                            let p = find(t, r[m].0)->Some_0;
                            assert(t[p] == s[p + 1]);
                            assert(name_lt(s[0].0, s[p + 1].0));
                        }
                    }
                } else {
                    assert(u[i] == r[i - 1] && u[j] == r[j - 1]);
                }
            }
        } else if x.0 == k {
            lemma_lookup_cons((k, v), t, k);
            lemma_lookup_cons((k, v), t, other);
            assert forall|i: int, j: int|
                0 <= i < j < (seq![(k, v)] + t).len() implies name_lt(
                #[trigger] (seq![(k, v)] + t)[i].0,
                #[trigger] (seq![(k, v)] + t)[j].0,
            ) by {
                let u = seq![(k, v)] + t;
                assert(u[j] == s[j]);
                if i > 0 {
                    assert(u[i] == s[i]);
                }
            }
        } else {
            lemma_lookup_cons((k, v), s, k);
            lemma_lookup_cons((k, v), s, other);
            assert forall|i: int, j: int|
                0 <= i < j < (seq![(k, v)] + s).len() implies name_lt(
                #[trigger] (seq![(k, v)] + s)[i].0,
                #[trigger] (seq![(k, v)] + s)[j].0,
            ) by {
                let u = seq![(k, v)] + s;
                assert(u[j] == s[j - 1]);
                if i > 0 {
                    assert(u[i] == s[i - 1]);
                } else if j > 1 {
                    lemma_name_lt_transitive(k, s[0].0, s[j - 1].0);
                }
            }
        }
    }
}

/// Dropping a name leaves it unstored, and every other name reads back
/// what it did.
pub proof fn lemma_read_after_remove<V>(s: Seq<(Seq<char>, V)>, k: Seq<char>, other: Seq<char>)
    requires
        sorted_names(s),
    ensures
        sorted_names(remove_name(s, k)),
        lookup(remove_name(s, k), k) is None,
        other != k ==> lookup(remove_name(s, k), other) == lookup(s, other),
{
    lemma_find_from_found(s, k, 0);
    match find(s, k) {
        None => {},
        Some(i) => {
            let r = s.remove(i);
            assert forall|a: int, b: int| 0 <= a < b < r.len() implies name_lt(
                #[trigger] r[a].0,
                #[trigger] r[b].0,
            ) by {
                if a < i && b < i {
                    assert(r[a] == s[a] && r[b] == s[b]);
                } else if a < i {
                    assert(r[a] == s[a] && r[b] == s[b + 1]);
                } else {
                    assert(r[a] == s[a + 1] && r[b] == s[b + 1]);
                }
            }
            lemma_find_from_found(r, k, 0);
            if let Some(j) = find(r, k) {
                if j < i {
                    assert(r[j] == s[j]);
                    lemma_find_sorted(s, k, j);
                } else {
                    assert(r[j] == s[j + 1]);
                    lemma_find_sorted(s, k, j + 1);
                }
            }
            if other != k {
                lemma_find_from_found(s, other, 0);
                lemma_find_from_found(r, other, 0);
                match find(s, other) {
                    Some(p) => {
                        if p < i {
                            assert(r[p] == s[p]);
                            lemma_find_sorted(r, other, p);
                        } else {
                            assert(p != i);
                            assert(r[p - 1] == s[p]);
                            lemma_find_sorted(r, other, p - 1);
                        }
                    },
                    None => {
                        if let Some(q) = find(r, other) {
                            if q < i {
                                assert(r[q] == s[q]);
                                lemma_find_sorted(s, other, q);
                            } else {
                                assert(r[q] == s[q + 1]);
                                lemma_find_sorted(s, other, q + 1);
                            }
                        }
                    },
                }
            }
        },
    }
}

// ---------------------------------------------------------------------------
// Hosted placement

/// A node can run a machine of the resolved architecture: it advertises the
/// machine's substrate, architecture and protection mode, and for a PVM
/// machine its PVM lane for that architecture is ready.
pub open spec fn node_can_run(node: HostedNodeContractView, machine: MachineSpec, architecture: MachineArchitecture) -> bool {
    let caps = node.capabilities;
    &&& caps.substrates.contains(machine.substrate)
    &&& caps.architectures.contains(architecture)
    &&& caps.protection_modes.contains(machine.protection_mode)
    &&& machine.protection_mode == ProtectionMode::Pvm ==> (hosted_lane_from(
        caps.pvm_lanes,
        architecture,
        0,
    ) matches Some(l) && caps.pvm_lanes[l].state == PvmCapabilityState::Ready)
}

/// A node that is not rejected can run the machine; a PVM machine never
/// falls back to a node whose PVM lane is not ready.
pub proof fn lemma_unrejected_node_can_run(
    native: MachineArchitecture,
    machine_name: Seq<char>,
    node_name: Seq<char>,
    machine: MachineSpec,
    node: HostedNodeContractView,
)
    requires
        rejection_reason(native, machine_name, node_name, machine, node) == Ok::<
            Option<Seq<char>>,
            Seq<char>,
        >(None),
    ensures
        resolve_architecture(machine.architecture, native) matches Ok(arch) && node_can_run(
            node,
            machine,
            arch,
        ),
{
}

/// The nodes on a host come from the inventory, in order, and sit on that host.
pub proof fn lemma_nodes_on_host(nodes: Seq<(Seq<char>, HostedNodeContractView)>, host: Seq<char>)
    ensures
        forall|i: int|
            0 <= i < nodes_on_host(nodes, host).len() ==> (#[trigger] nodes_on_host(nodes, host)[i]).1.host
                == host && nodes.contains(nodes_on_host(nodes, host)[i]),
        nodes_on_host(nodes, host).len() <= nodes.len(),
    decreases nodes.len(),
{
    if nodes.len() > 0 {
        let rest = nodes.drop_last();
        lemma_nodes_on_host(rest, host);
        let h = nodes_on_host(nodes, host);
        assert forall|i: int| 0 <= i < h.len() implies (#[trigger] h[i]).1.host == host
            && nodes.contains(h[i]) by {
            if i < nodes_on_host(rest, host).len() {
                let x = nodes_on_host(rest, host)[i];
                assert(h[i] == x);
                let j = choose|j: int| 0 <= j < rest.len() && rest[j] == x;
                assert(nodes[j] == rest[j]);
            } else {
                assert(h[i] == nodes.last());
                assert(nodes[nodes.len() - 1] == nodes.last());
            }
        }
    }
}

/// Each node on the host is either a candidate or rejected with a reason,
/// and candidates are exactly the nodes that no reason rejects.
pub proof fn lemma_placement_outcome(
    native: MachineArchitecture,
    machine_name: Seq<char>,
    machine: MachineSpec,
    host_nodes: Seq<(Seq<char>, HostedNodeContractView)>,
)
    ensures
        placement_outcome(native, machine_name, machine, host_nodes) matches Ok((candidates, rejected))
            ==> {
            &&& candidates.len() + rejected.len() == host_nodes.len()
            &&& forall|i: int|
                0 <= i < candidates.len() ==> exists|j: int|
                    0 <= j < host_nodes.len() && host_nodes[j].0 == #[trigger] candidates[i]
                        && rejection_reason(
                        native,
                        machine_name,
                        host_nodes[j].0,
                        machine,
                        host_nodes[j].1,
                    ) == Ok::<Option<Seq<char>>, Seq<char>>(None)
            &&& forall|i: int|
                0 <= i < rejected.len() ==> exists|j: int|
                    0 <= j < host_nodes.len() && host_nodes[j].0 == (#[trigger] rejected[i]).0
                        && rejection_reason(
                        native,
                        machine_name,
                        host_nodes[j].0,
                        machine,
                        host_nodes[j].1,
                    ) == Ok::<Option<Seq<char>>, Seq<char>>(Some(rejected[i].1))
        },
    decreases host_nodes.len(),
{
    if host_nodes.len() > 0 {
        let rest = host_nodes.drop_last();
        lemma_placement_outcome(native, machine_name, machine, rest);
        if let Ok((c, r)) = placement_outcome(native, machine_name, machine, host_nodes) {
            let (c0, r0) = placement_outcome(native, machine_name, machine, rest)->Ok_0;
            let last = host_nodes.last();
            assert(host_nodes[host_nodes.len() - 1] == last);
            assert forall|i: int| 0 <= i < c.len() implies exists|j: int|
                0 <= j < host_nodes.len() && host_nodes[j].0 == #[trigger] c[i] && rejection_reason(
                    native,
                    machine_name,
                    host_nodes[j].0,
                    machine,
                    host_nodes[j].1,
                ) == Ok::<Option<Seq<char>>, Seq<char>>(None) by {
                if i < c0.len() {
                    assert(c[i] == c0[i]);
                    let j = choose|j: int|
                        0 <= j < rest.len() && rest[j].0 == #[trigger] c0[i] && rejection_reason(
                            native,
                            machine_name,
                            rest[j].0,
                            machine,
                            rest[j].1,
                        ) == Ok::<Option<Seq<char>>, Seq<char>>(None);
                    assert(host_nodes[j] == rest[j]);
                } else {
                    assert(c[i] == last.0);
                }
            }
            assert forall|i: int| 0 <= i < r.len() implies exists|j: int|
                0 <= j < host_nodes.len() && host_nodes[j].0 == (#[trigger] r[i]).0
                    && rejection_reason(
                    native,
                    machine_name,
                    host_nodes[j].0,
                    machine,
                    host_nodes[j].1,
                ) == Ok::<Option<Seq<char>>, Seq<char>>(Some(r[i].1)) by {
                if i < r0.len() {
                    assert(r[i] == r0[i]);
                    let j = choose|j: int|
                        0 <= j < rest.len() && rest[j].0 == (#[trigger] r0[i]).0 && rejection_reason(
                            native,
                            machine_name,
                            rest[j].0,
                            machine,
                            rest[j].1,
                        ) == Ok::<Option<Seq<char>>, Seq<char>>(Some(r0[i].1));
                    assert(host_nodes[j] == rest[j]);
                } else {
                    assert(r[i].0 == last.0);
                }
            }
        }
    }
}

/// Every candidate node of a hosted machine is an inventory node on the
/// machine's host that can run the machine; the candidates and the rejected
/// nodes together account for every node on that host.
pub proof fn lemma_summary_candidates_can_run(
    cfg: PortConfig,
    native: MachineArchitecture,
    machine_name: Seq<char>,
)
    requires
        summary_spec(cfg, native, machine_name) matches Ok(Some(_)),
    ensures
        summary_spec(cfg, native, machine_name) matches Ok(Some(summary)) && inventory_spec(cfg) matches Ok(inventory)
            && lookup(cfg.machines@, machine_name) matches Some(machine) && resolve_architecture(
            machine.architecture,
            native,
        ) matches Ok(arch) && {
            &&& summary.candidate_nodes.len() + summary.rejected_nodes.len() == nodes_on_host(
                inventory.nodes,
                machine.host@,
            ).len()
            &&& forall|i: int|
                0 <= i < summary.candidate_nodes.len() ==> exists|j: int|
                    0 <= j < inventory.nodes.len() && inventory.nodes[j].0
                        == #[trigger] summary.candidate_nodes[i] && inventory.nodes[j].1.host
                        == machine.host@ && node_can_run(inventory.nodes[j].1, machine, arch)
        },
{
    let summary = summary_spec(cfg, native, machine_name)->Ok_0->Some_0;
    let inventory = inventory_spec(cfg)->Ok_0;
    let machine = lookup(cfg.machines@, machine_name)->Some_0;
    let hn = nodes_on_host(inventory.nodes, machine.host@);
    lemma_placement_outcome(native, machine_name, machine, hn);
    lemma_nodes_on_host(inventory.nodes, machine.host@);
    assert(hn.len() > 0);
    let (c, r) = placement_outcome(native, machine_name, machine, hn)->Ok_0;
    assert(summary.candidate_nodes == c);
    lemma_unrejected_or_not(native, machine_name, machine, hn, 0);
    let arch = resolve_architecture(machine.architecture, native)->Ok_0;
    assert forall|i: int| 0 <= i < c.len() implies exists|j: int|
        0 <= j < inventory.nodes.len() && inventory.nodes[j].0 == #[trigger] c[i]
            && inventory.nodes[j].1.host == machine.host@ && node_can_run(
            inventory.nodes[j].1,
            machine,
            arch,
        ) by {
        let k = choose|k: int|
            0 <= k < hn.len() && hn[k].0 == #[trigger] c[i] && rejection_reason(
                native,
                machine_name,
                hn[k].0,
                machine,
                hn[k].1,
            ) == Ok::<Option<Seq<char>>, Seq<char>>(None);
        lemma_unrejected_node_can_run(native, machine_name, hn[k].0, machine, hn[k].1);
        assert(hn[k].1.host == machine.host@);
        assert(inventory.nodes.contains(hn[k]));
        let j = choose|j: int| 0 <= j < inventory.nodes.len() && inventory.nodes[j] == hn[k];
        assert(inventory.nodes[j].0 == c[i]);
    }
}

/// Deciding any one node resolves the machine's architecture.
proof fn lemma_unrejected_or_not(
    native: MachineArchitecture,
    machine_name: Seq<char>,
    machine: MachineSpec,
    host_nodes: Seq<(Seq<char>, HostedNodeContractView)>,
    j: int,
)
    requires
        0 <= j < host_nodes.len(),
        placement_outcome(native, machine_name, machine, host_nodes) is Ok,
    ensures
        resolve_architecture(machine.architecture, native) is Ok,
    decreases host_nodes.len(),
{
    let rest = host_nodes.drop_last();
    if j < rest.len() {
        assert(rest[j] == host_nodes[j]);
        lemma_unrejected_or_not(native, machine_name, machine, rest, j);
    }
}

// ---------------------------------------------------------------------------
// Registration, capabilities and endpoints

/// A fresh registration lasts `ttl_seconds` from its last refresh, which
/// comes no earlier than the registration itself.
pub proof fn lemma_freshness_window(
    registration: HostedNodeRegistration,
    control_plane: Seq<char>,
    node_name: Seq<char>,
)
    requires
        freshness_spec(registration, control_plane, node_name) is Ok,
    ensures
        freshness_spec(registration, control_plane, node_name) matches Ok(f) && f.fresh_until
            == f.refreshed_at + f.ttl_seconds && f.registered_at <= f.refreshed_at < f.fresh_until
            && f.registered_at == registration.registered_at && f.refreshed_at
            == registration.refreshed_at && f.ttl_seconds == registration.ttl_seconds,
{
}

/// Looking a PVM lane up by architecture finds the first lane of that
/// architecture, and finds none exactly when no lane has it.
pub proof fn lemma_lane_lookup_finds_first(
    lanes: Seq<HostedPvmCapabilityView>,
    architecture: MachineArchitecture,
)
    ensures
        match hosted_lane_from(lanes, architecture, 0) {
            Some(i) => 0 <= i < lanes.len() && lanes[i].architecture == architecture && forall|j: int|
                0 <= j < i ==> (#[trigger] lanes[j]).architecture != architecture,
            None => forall|j: int| 0 <= j < lanes.len() ==> (#[trigger] lanes[j]).architecture != architecture,
        },
{
    lemma_lane_lookup_from(lanes, architecture, 0);
}

proof fn lemma_lane_lookup_from(
    lanes: Seq<HostedPvmCapabilityView>,
    architecture: MachineArchitecture,
    k: int,
)
    requires
        0 <= k <= lanes.len(),
    ensures
        match hosted_lane_from(lanes, architecture, k) {
            Some(i) => k <= i < lanes.len() && lanes[i].architecture == architecture && forall|j: int|
                k <= j < i ==> (#[trigger] lanes[j]).architecture != architecture,
            None => forall|j: int| k <= j < lanes.len() ==> (#[trigger] lanes[j]).architecture != architecture,
        },
    decreases lanes.len() - k,
{
    if k < lanes.len() && lanes[k].architecture != architecture {
        lemma_lane_lookup_from(lanes, architecture, k + 1);
    }
}

/// The lanes that remain once imported readiness is demoted, as
/// `without_imported_pvm_readiness` states them.
pub open spec fn demoted_lanes(lanes: Seq<HostedPvmCapabilityView>) -> Seq<HostedPvmCapabilityView> {
    lanes.map_values(|l: HostedPvmCapabilityView| demote_ready(l))
}

/// Demoting imported readiness leaves no lane ready, keeps every lane's
/// identity, and demoting twice is demoting once.
pub proof fn lemma_demotion_leaves_no_ready_lane(lanes: Seq<HostedPvmCapabilityView>)
    ensures
        demoted_lanes(lanes).len() == lanes.len(),
        forall|i: int|
            0 <= i < lanes.len() ==> (#[trigger] demoted_lanes(lanes)[i]).state
                != PvmCapabilityState::Ready && demoted_lanes(lanes)[i].architecture
                    == lanes[i].architecture,
        demoted_lanes(demoted_lanes(lanes)) == demoted_lanes(lanes),
{
    let once = demoted_lanes(lanes);
    let twice = demoted_lanes(once);
    assert(twice =~= once);
}

/// Every capability set is within itself.
pub proof fn lemma_capabilities_subset_reflexive(caps: HostedNodeCapabilitiesView)
    ensures
        caps_subset(caps, caps),
{
    assert(all_in(caps.providers, caps.providers)) by {
        assert forall|i: int| 0 <= i < caps.providers.len() implies caps.providers.contains(
            #[trigger] caps.providers[i],
        ) by {}
    }
    assert(all_in(caps.platforms, caps.platforms)) by {
        assert forall|i: int| 0 <= i < caps.platforms.len() implies caps.platforms.contains(
            #[trigger] caps.platforms[i],
        ) by {}
    }
    assert(all_in(caps.substrates, caps.substrates)) by {
        assert forall|i: int| 0 <= i < caps.substrates.len() implies caps.substrates.contains(
            #[trigger] caps.substrates[i],
        ) by {}
    }
    assert(all_in(caps.architectures, caps.architectures)) by {
        assert forall|i: int| 0 <= i < caps.architectures.len() implies caps.architectures.contains(
            #[trigger] caps.architectures[i],
        ) by {}
    }
    assert(all_in(caps.protection_modes, caps.protection_modes)) by {
        assert forall|i: int|
            0 <= i < caps.protection_modes.len() implies caps.protection_modes.contains(
            #[trigger] caps.protection_modes[i],
        ) by {}
    }
    assert(all_in(caps.pvm_lanes, caps.pvm_lanes)) by {
        assert forall|i: int| 0 <= i < caps.pvm_lanes.len() implies caps.pvm_lanes.contains(
            #[trigger] caps.pvm_lanes[i],
        ) by {}
    }
}

/// A normalized node-agent endpoint is left as it is by a second normalization.
pub proof fn lemma_endpoint_normalization_idempotent(bind: Seq<char>)
    ensures
        node_agent_endpoint_spec(node_agent_endpoint_spec(bind)) == node_agent_endpoint_spec(bind),
{
    let http = "http://"@;
    if !(starts_with(bind, http) || starts_with(bind, "https://"@)) {
        let r = http + bind;
        assert(r.subrange(0, http.len() as int) =~= http);
    }
}

// ---------------------------------------------------------------------------
// Inventory and clusters

/// In a hosted inventory, each host group holds at least one node, and every
/// member is a configured hosted node that resolves through the group's
/// control plane: a group never mixes control planes.
pub proof fn lemma_host_groups_share_one_control_plane(cfg: PortConfig)
    requires
        inventory_spec(cfg) is Ok,
    ensures
        inventory_spec(cfg) matches Ok(inventory) && forall|g: int|
            0 <= g < inventory.host_groups.len() ==> {
                let group = (#[trigger] inventory.host_groups[g]).1;
                &&& group.nodes.len() > 0
                &&& forall|k: int|
                    0 <= k < group.nodes.len() ==> lookup(cfg.nodes@, #[trigger] group.nodes[k])
                        is Some && member_cp(cfg, group.nodes[k]) == group.control_plane
            },
{
    let groups = cfg.host_groups@;
    let nodes = cfg.nodes@;
    let gcheck = |i: int| inventory_group_check(cfg, groups[i].0, groups[i].1);
    lemma_first_failure_ok_all(groups.len() as int, gcheck);
    let inventory = inventory_spec(cfg)->Ok_0;
    assert forall|g: int| 0 <= g < inventory.host_groups.len() implies {
        let group = (#[trigger] inventory.host_groups[g]).1;
        &&& group.nodes.len() > 0
        &&& forall|k: int|
            0 <= k < group.nodes.len() ==> lookup(cfg.nodes@, #[trigger] group.nodes[k]) is Some
                && member_cp(cfg, group.nodes[k]) == group.control_plane
    } by {
        let spec = groups[g].1;
        assert(gcheck(g) is Ok);
        let mcheck = |k: int| inventory_member_check(cfg, groups[g].0, spec.nodes@, k);
        lemma_first_failure_ok_all(spec.nodes@.len() as int, mcheck);
        let group = inventory.host_groups[g].1;
        assert forall|k: int| 0 <= k < group.nodes.len() implies lookup(
            cfg.nodes@,
            #[trigger] group.nodes[k],
        ) is Some && member_cp(cfg, group.nodes[k]) == group.control_plane by {
            assert(mcheck(k) is Ok);
            assert(mcheck(0) is Ok);
            assert(group.nodes[k] == spec.nodes@[k]@);
        }
    }
}

/// A hosted K3s cluster that passes its checks under the spread scheduler
/// has at least as many distinct candidate nodes as control-plane machines.
pub proof fn lemma_spread_clusters_have_distinct_candidates(
    cfg: PortConfig,
    native: MachineArchitecture,
    name: Seq<char>,
    c: K3sClusterSpec,
)
    requires
        k3s_check(cfg, native, name, c) is Ok,
        c.control_plane_scheduler == HostedSchedulerPolicy::Spread,
    ensures
        crate::named_map::names_of(
            distinct_candidates(cfg, native, name, c, c.server_machines@.len() as int),
        ).len() >= c.server_machines@.len(),
{
}

// ---------------------------------------------------------------------------
// Routing, registrations and the fleet report

/// The control plane never reaches a node through a stale registration: a
/// registered node is reachable exactly while its registration is fresh,
/// and then through the binding it registered.
pub proof fn lemma_no_route_through_stale_registration(
    cfg: PortConfig,
    control_plane: Seq<char>,
    registered: Seq<(Seq<char>, RegisteredNodeRecord)>,
    statics: Seq<(Seq<char>, HostedNodeBinding)>,
    node: Seq<char>,
    now: u64,
)
    requires
        lookup(registered, node) is Some,
    ensures
        ({
            let record = lookup(registered, node)->Some_0;
            &&& (known_binding(cfg, control_plane, registered, statics, node, now) is Ok)
                <==> record.contract.freshness.fresh_until >= now
            &&& known_binding(cfg, control_plane, registered, statics, node, now) matches Ok(found)
                ==> found == Some((record.binding, record.contract.node.runtime_root@))
        }),
{
}

proof fn lemma_route_scan_first(
    cfg: PortConfig,
    control_plane: Seq<char>,
    candidates: Seq<Seq<char>>,
    registered: Seq<(Seq<char>, RegisteredNodeRecord)>,
    statics: Seq<(Seq<char>, HostedNodeBinding)>,
    now: u64,
)
    ensures
        match route_scan(cfg, control_plane, candidates, registered, statics, now).0 {
            Some((node, found)) => exists|i: int|
                0 <= i < candidates.len() && candidates[i] == node && known_binding(
                    cfg,
                    control_plane,
                    registered,
                    statics,
                    node,
                    now,
                ) == Ok::<Option<BindingView>, Seq<char>>(Some(found)) && forall|j: int|
                    0 <= j < i ==> !(known_binding(
                        cfg,
                        control_plane,
                        registered,
                        statics,
                        #[trigger] candidates[j],
                        now,
                    ) matches Ok(Some(_))),
            None => forall|j: int|
                0 <= j < candidates.len() ==> !(known_binding(
                    cfg,
                    control_plane,
                    registered,
                    statics,
                    #[trigger] candidates[j],
                    now,
                ) matches Ok(Some(_))),
        },
    decreases candidates.len(),
{
    if candidates.len() > 0 {
        let prior = candidates.drop_last();
        lemma_route_scan_first(cfg, control_plane, prior, registered, statics, now);
        assert forall|j: int| 0 <= j < prior.len() implies #[trigger] prior[j] == candidates[j] by {}
        match route_scan(cfg, control_plane, prior, registered, statics, now).0 {
            Some((node, found)) => {
                let i = choose|i: int|
                    0 <= i < prior.len() && prior[i] == node && known_binding(
                        cfg,
                        control_plane,
                        registered,
                        statics,
                        node,
                        now,
                    ) == Ok::<Option<BindingView>, Seq<char>>(Some(found)) && forall|j: int|
                        0 <= j < i ==> !(known_binding(
                            cfg,
                            control_plane,
                            registered,
                            statics,
                            #[trigger] prior[j],
                            now,
                        ) matches Ok(Some(_)));
                assert(candidates[i] == node);
                assert forall|j: int| 0 <= j < i implies !(known_binding(
                    cfg,
                    control_plane,
                    registered,
                    statics,
                    #[trigger] candidates[j],
                    now,
                ) matches Ok(Some(_))) by {
                    assert(prior[j] == candidates[j]);
                }
            },
            None => {
                assert forall|j: int| 0 <= j < candidates.len() - 1 implies !(known_binding(
                    cfg,
                    control_plane,
                    registered,
                    statics,
                    #[trigger] candidates[j],
                    now,
                ) matches Ok(Some(_))) by {
                    assert(prior[j] == candidates[j]);
                }
            },
        }
    }
}

/// A hosted machine is routed to its first candidate node that the control
/// plane can reach, and is refused only when it can reach none of them.
pub proof fn lemma_machine_routes_to_first_reachable_candidate(
    cfg: PortConfig,
    control_plane: Seq<char>,
    summary: HostedMachineSummaryContract,
    registered: Seq<(Seq<char>, RegisteredNodeRecord)>,
    statics: Seq<(Seq<char>, HostedNodeBinding)>,
    now: u64,
)
    ensures
        ({
            let candidates = views(summary.candidate_nodes@);
            match route_machine(cfg, control_plane, summary, registered, statics, now) {
                Ok((node, found)) => exists|i: int|
                    0 <= i < candidates.len() && candidates[i] == node && known_binding(
                        cfg,
                        control_plane,
                        registered,
                        statics,
                        node,
                        now,
                    ) == Ok::<Option<BindingView>, Seq<char>>(Some(found)) && forall|j: int|
                        0 <= j < i ==> !(known_binding(
                            cfg,
                            control_plane,
                            registered,
                            statics,
                            #[trigger] candidates[j],
                            now,
                        ) matches Ok(Some(_))),
                Err(_) => forall|j: int|
                    0 <= j < candidates.len() ==> !(known_binding(
                        cfg,
                        control_plane,
                        registered,
                        statics,
                        #[trigger] candidates[j],
                        now,
                    ) matches Ok(Some(_))),
            }
        }),
{
    lemma_route_scan_first(cfg, control_plane, views(summary.candidate_nodes@), registered, statics, now);
}

/// A refresh that the control plane accepts is never older than what it
/// replaces, reads back as the stored registration of its node, and leaves
/// every other node's registration as it was.
pub proof fn lemma_refresh_reads_back(
    cfg: PortConfig,
    control_plane: Seq<char>,
    nodes: Seq<(Seq<char>, crate::model::HostedNodeRegistration)>,
    node: Seq<char>,
    registration: crate::model::HostedNodeRegistration,
    other: Seq<char>,
)
    requires
        sorted_names(nodes),
        refresh_spec(cfg, control_plane, nodes, node, registration) is Ok,
    ensures
        lookup(nodes, node) matches Some(existing) ==> existing.refreshed_at <= registration.refreshed_at,
        lookup(insert_sorted(nodes, node, registration), node) == Some(registration),
        other != node ==> lookup(insert_sorted(nodes, node, registration), other) == lookup(nodes, other),
{
    lemma_read_after_insert(nodes, node, registration, other);
}

/// A refresh older than the stored registration of its node is refused.
pub proof fn lemma_older_refresh_refused(
    cfg: PortConfig,
    control_plane: Seq<char>,
    nodes: Seq<(Seq<char>, crate::model::HostedNodeRegistration)>,
    node: Seq<char>,
    registration: crate::model::HostedNodeRegistration,
)
    requires
        lookup(nodes, node) matches Some(existing) && registration.refreshed_at < existing.refreshed_at,
    ensures
        refresh_spec(cfg, control_plane, nodes, node, registration) is Err,
{
}

/// The fleet report calls a node eligible exactly when placement did not
/// reject it and it holds a fresh registration; such a node is one the
/// control plane routes to through that registration.
pub proof fn lemma_fleet_eligibility_matches_routing(
    cfg: PortConfig,
    control_plane: Seq<char>,
    summary: HostedMachineSummaryContract,
    selected: Option<Seq<char>>,
    registered: Seq<(Seq<char>, RegisteredNodeRecord)>,
    statics: Seq<(Seq<char>, HostedNodeBinding)>,
    imported: Seq<(Seq<char>, ImportedNodeRecord)>,
    node: Seq<char>,
    now: u64,
)
    ensures
        ({
            let status = fleet_status(summary, selected, registered, imported, node, now);
            &&& (status.routing_eligibility == HostedFleetRoutingEligibility::Eligible) <==> (lookup(
                summary.rejected_nodes@,
                node,
            ) is None && (lookup(registered, node) matches Some(record)
                && record.contract.freshness.fresh_until >= now))
            &&& status.routing_eligibility == HostedFleetRoutingEligibility::Eligible ==> (known_binding(
                cfg,
                control_plane,
                registered,
                statics,
                node,
                now,
            ) matches Ok(Some(_)))
            &&& status.freshness == HostedFleetFreshnessState::Stale ==> known_binding(
                cfg,
                control_plane,
                registered,
                statics,
                node,
                now,
            ) is Err
        }),
{
}

proof fn lemma_least_named(entries: Seq<(Seq<char>, BindingView)>)
    ensures
        match least_named(entries) {
            Some(best) => entries.contains(best) && forall|k: int|
                0 <= k < entries.len() ==> !name_lt(#[trigger] entries[k].0, best.0),
            None => entries.len() == 0,
        },
    decreases entries.len(),
{
    if entries.len() > 0 {
        let prior = entries.drop_last();
        lemma_least_named(prior);
        let last = entries.last();
        match least_named(prior) {
            None => {
                assert(entries[entries.len() - 1] == last);
                lemma_name_lt_irreflexive(last.0);
            },
            Some(best) => {
                let i = choose|i: int| 0 <= i < prior.len() && prior[i] == best;
                assert(entries[i] == best);
                if name_lt(last.0, best.0) {
                    assert(entries[entries.len() - 1] == last);
                    assert forall|k: int| 0 <= k < entries.len() implies !name_lt(
                        #[trigger] entries[k].0,
                        last.0,
                    ) by {
                        if k < prior.len() {
                            assert(entries[k] == prior[k]);
                            if name_lt(entries[k].0, last.0) {
                                lemma_name_lt_transitive(entries[k].0, last.0, best.0);
                            }
                        } else {
                            lemma_name_lt_irreflexive(last.0);
                        }
                    }
                } else {
                    assert forall|k: int| 0 <= k < entries.len() implies !name_lt(
                        #[trigger] entries[k].0,
                        best.0,
                    ) by {
                        if k < prior.len() {
                            assert(entries[k] == prior[k]);
                        }
                    }
                }
            },
        }
    }
}

proof fn lemma_group_scan(
    cfg: PortConfig,
    control_plane: Seq<char>,
    members: Seq<Seq<char>>,
    candidates: Seq<Seq<char>>,
    registered: Seq<(Seq<char>, RegisteredNodeRecord)>,
    statics: Seq<(Seq<char>, HostedNodeBinding)>,
    now: u64,
)
    ensures
        ({
            let eligible = group_scan(cfg, control_plane, members, candidates, registered, statics, now).0;
            &&& forall|k: int|
                0 <= k < eligible.len() ==> members.contains(#[trigger] eligible[k].0) && candidates.contains(
                    eligible[k].0,
                ) && known_binding(cfg, control_plane, registered, statics, eligible[k].0, now) == Ok::<
                    Option<BindingView>,
                    Seq<char>,
                >(Some(eligible[k].1))
            &&& forall|j: int|
                0 <= j < members.len() && candidates.contains(#[trigger] members[j]) && (known_binding(
                    cfg,
                    control_plane,
                    registered,
                    statics,
                    members[j],
                    now,
                ) matches Ok(Some(_))) ==> eligible.contains(
                    (
                        members[j],
                        known_binding(cfg, control_plane, registered, statics, members[j], now)->Ok_0->Some_0,
                    ),
                )
        }),
    decreases members.len(),
{
    if members.len() > 0 {
        let prior_members = members.drop_last();
        lemma_group_scan(cfg, control_plane, prior_members, candidates, registered, statics, now);
        let prior = group_scan(cfg, control_plane, prior_members, candidates, registered, statics, now).0;
        let eligible = group_scan(cfg, control_plane, members, candidates, registered, statics, now).0;
        assert forall|k: int| 0 <= k < eligible.len() implies members.contains(#[trigger] eligible[k].0)
            && candidates.contains(eligible[k].0) && known_binding(
            cfg,
            control_plane,
            registered,
            statics,
            eligible[k].0,
            now,
        ) == Ok::<Option<BindingView>, Seq<char>>(Some(eligible[k].1)) by {
            if k < prior.len() {
                assert(eligible[k] == prior[k]);
                let i = choose|i: int| 0 <= i < prior_members.len() && prior_members[i] == prior[k].0;
                assert(members[i] == prior_members[i]);
            } else {
                assert(members[members.len() - 1] == members.last());
            }
        }
        assert forall|j: int|
            0 <= j < members.len() && candidates.contains(#[trigger] members[j]) && (known_binding(
                cfg,
                control_plane,
                registered,
                statics,
                members[j],
                now,
            ) matches Ok(Some(f))) implies eligible.contains(
            (members[j], known_binding(cfg, control_plane, registered, statics, members[j], now)->Ok_0->Some_0),
        ) by {
            let f = known_binding(cfg, control_plane, registered, statics, members[j], now)->Ok_0->Some_0;
            if j < prior_members.len() {
                assert(prior_members[j] == members[j]);
                let k = choose|k: int| 0 <= k < prior.len() && prior[k] == (members[j], f);
                assert(eligible[k] == prior[k]);
            } else {
                assert(eligible[eligible.len() - 1] == (members[j], f));
            }
        }
    }
}

/// A service is placed on a member of the requested host group that is a
/// candidate node of the machine and that the control plane can reach; of
/// all such members, on the one with the least name.
pub proof fn lemma_service_placed_on_least_reachable_member(
    cfg: PortConfig,
    control_plane: Seq<char>,
    summary: HostedMachineSummaryContract,
    host_group: Option<Seq<char>>,
    registered: Seq<(Seq<char>, RegisteredNodeRecord)>,
    statics: Seq<(Seq<char>, HostedNodeBinding)>,
    now: u64,
)
    requires
        place_service(cfg, control_plane, summary, host_group, registered, statics, now) is Ok,
    ensures
        ({
            let (node, found) = place_service(cfg, control_plane, summary, host_group, registered, statics, now)->Ok_0;
            let candidates = views(summary.candidate_nodes@);
            &&& host_group matches Some(g) && views(summary.host_groups@).contains(g)
            &&& inventory_spec(cfg) matches Ok(inventory) && lookup(
                inventory.host_groups,
                host_group->Some_0,
            ) matches Some(group) && {
                &&& group.nodes.contains(node)
                &&& candidates.contains(node)
                &&& known_binding(cfg, control_plane, registered, statics, node, now) == Ok::<
                    Option<BindingView>,
                    Seq<char>,
                >(Some(found))
                &&& forall|j: int|
                    0 <= j < group.nodes.len() && candidates.contains(#[trigger] group.nodes[j]) && (
                    known_binding(cfg, control_plane, registered, statics, group.nodes[j], now) matches Ok(
                        Some(_),
                    )) ==> !name_lt(group.nodes[j], node)
            }
        }),
{
    let g = host_group->Some_0;
    let inventory = inventory_spec(cfg)->Ok_0;
    let group = lookup(inventory.host_groups, g)->Some_0;
    let candidates = views(summary.candidate_nodes@);
    lemma_group_scan(cfg, control_plane, group.nodes, candidates, registered, statics, now);
    let eligible = group_scan(cfg, control_plane, group.nodes, candidates, registered, statics, now).0;
    lemma_least_named(eligible);
    let best = least_named(eligible)->Some_0;
    let k = choose|k: int| 0 <= k < eligible.len() && eligible[k] == best;
    assert(eligible[k].0 == best.0);
    assert forall|j: int|
        0 <= j < group.nodes.len() && candidates.contains(#[trigger] group.nodes[j]) && (known_binding(
            cfg,
            control_plane,
            registered,
            statics,
            group.nodes[j],
            now,
        ) matches Ok(Some(_))) implies !name_lt(group.nodes[j], best.0) by {
        let f = known_binding(cfg, control_plane, registered, statics, group.nodes[j], now)->Ok_0->Some_0;
        let m = choose|m: int| 0 <= m < eligible.len() && eligible[m] == (group.nodes[j], f);
        assert(eligible[m].0 == group.nodes[j]);
    }
}

proof fn lemma_lookup_iff_named<V>(s: Seq<(Seq<char>, V)>, x: Seq<char>)
    requires
        sorted_names(s),
    ensures
        (lookup(s, x) is Some) <==> crate::named_map::names_of(s).contains(x),
{
    let names = crate::named_map::names_of(s);
    if lookup(s, x) is Some {
        lemma_find_from_found(s, x, 0);
        let i = find(s, x)->Some_0;
        assert(names[i] == x);
    }
    if names.contains(x) {
        let i = choose|i: int| 0 <= i < names.len() && names[i] == x;
        lemma_find_sorted(s, x, i);
    }
}

proof fn lemma_with_names(set: Seq<(Seq<char>, ())>, names: Seq<Seq<char>>)
    requires
        sorted_names(set),
    ensures
        sorted_names(with_names(set, names)),
        forall|x: Seq<char>|
            (#[trigger] lookup(with_names(set, names), x) is Some) <==> (lookup(set, x) is Some
                || names.contains(x)),
    decreases names.len(),
{
    if names.len() > 0 {
        let prior = names.drop_last();
        lemma_with_names(set, prior);
        let w = with_names(set, prior);
        lemma_read_after_insert(w, names.last(), (), names.last());
        assert forall|x: Seq<char>|
            (#[trigger] lookup(with_names(set, names), x) is Some) <==> (lookup(set, x) is Some
                || names.contains(x)) by {
            lemma_read_after_insert(w, names.last(), (), x);
            if prior.contains(x) {
                let i = choose|i: int| 0 <= i < prior.len() && prior[i] == x;
                assert(names[i] == x);
            }
            if names.contains(x) && x != names.last() {
                let i = choose|i: int| 0 <= i < names.len() && names[i] == x;
                assert(i != names.len() - 1);
                assert(prior[i] == x);
            }
            if x == names.last() {
                assert(names[names.len() - 1] == x);
            }
        }
    }
}

/// The fleet report of a machine covers its candidate nodes, its rejected
/// nodes and the selected node, and no other node, each once and in name
/// order.
pub proof fn lemma_fleet_covers_each_node_once(summary: HostedMachineSummaryContract, selected: Option<Seq<char>>)
    ensures
        ({
            let nodes = fleet_nodes(summary, selected);
            &&& forall|i: int, j: int| 0 <= i < j < nodes.len() ==> name_lt(#[trigger] nodes[i], #[trigger] nodes[j])
            &&& forall|x: Seq<char>|
                #[trigger] nodes.contains(x) <==> (views(summary.candidate_nodes@).contains(x)
                    || crate::named_map::names_of(summary.rejected_nodes@).contains(x) || selected == Some(x))
        }),
{
    let empty = Seq::<(Seq<char>, ())>::empty();
    let cands = views(summary.candidate_nodes@);
    let rejected = crate::named_map::names_of(summary.rejected_nodes@);
    lemma_with_names(empty, cands);
    let a = with_names(empty, cands);
    lemma_with_names(a, rejected);
    let b = with_names(a, rejected);
    let set = match selected {
        Some(n) => insert_sorted(b, n, ()),
        None => b,
    };
    match selected {
        Some(n) => {
            lemma_read_after_insert(b, n, (), n);
        },
        None => {},
    }
    let nodes = fleet_nodes(summary, selected);
    assert(nodes == crate::named_map::names_of(set));
    assert forall|i: int, j: int| 0 <= i < j < nodes.len() implies name_lt(#[trigger] nodes[i], #[trigger] nodes[j]) by {
        assert(nodes[i] == set[i].0);
        assert(nodes[j] == set[j].0);
    }
    assert forall|x: Seq<char>|
        #[trigger] nodes.contains(x) <==> (cands.contains(x) || rejected.contains(x) || selected == Some(x)) by {
        lemma_lookup_iff_named(set, x);
        assert(lookup(a, x) is Some <==> (lookup(empty, x) is Some || cands.contains(x)));
        assert(lookup(b, x) is Some <==> (lookup(a, x) is Some || rejected.contains(x)));
        match selected {
            Some(n) => {
                lemma_read_after_insert(b, n, (), x);
            },
            None => {},
        }
    }
}

/// A node agent runs a hosted machine only when the machine resolves and
/// that node is one of its candidate nodes; a Firecracker PVM machine runs
/// only where the node advertises a PVM lane for its architecture with a
/// prepared host kit.
pub proof fn lemma_node_agent_runs_only_routed_machines(
    cfg: PortConfig,
    native: MachineArchitecture,
    node: Seq<char>,
    machine_name: Seq<char>,
)
    requires
        localize_refusal(cfg, native, node, machine_name) is None,
    ensures
        summary_spec(cfg, native, machine_name) matches Ok(Some(summary)) && summary.candidate_nodes.contains(
            node,
        ),
        match lookup(cfg.machines@, machine_name) {
            Some(machine) => machine.substrate == crate::model::ExecutionSubstrate::Firecracker
                && machine.protection_mode == ProtectionMode::Pvm ==> match lookup(cfg.nodes@, node) {
                Some(spec) => match hosted_lane_from(
                    spec.capabilities@.pvm_lanes,
                    crate::placement::resolve_pvm_architecture(machine.architecture, native),
                    0,
                ) {
                    Some(i) => spec.capabilities@.pvm_lanes[i].host_kit is Some,
                    None => false,
                },
                None => false,
            },
            None => false,
        },
{
    lemma_summary_candidates_can_run(cfg, native, machine_name);
    lemma_inventory_copies_nodes_and_groups(cfg);
    let summary = summary_spec(cfg, native, machine_name)->Ok_0->Some_0;
    let inventory = inventory_spec(cfg)->Ok_0;
    let c = summary.candidate_nodes;
    let k = choose|k: int| 0 <= k < c.len() && c[k] == node;
    let j = choose|j: int|
        0 <= j < inventory.nodes.len() && inventory.nodes[j].0 == #[trigger] c[k] && inventory.nodes[j].1.host
            == lookup(cfg.machines@, machine_name)->Some_0.host@ && node_can_run(
            inventory.nodes[j].1,
            lookup(cfg.machines@, machine_name)->Some_0,
            resolve_architecture(lookup(cfg.machines@, machine_name)->Some_0.architecture, native)->Ok_0,
        );
    assert(cfg.nodes@[j].0 == node);
    lemma_found_if_present(cfg.nodes@, node, 0, j);
}

/// A name held at position `j` is found by a search from any `i <= j`.
proof fn lemma_found_if_present<V>(s: Seq<(Seq<char>, V)>, k: Seq<char>, i: int, j: int)
    requires
        0 <= i <= j < s.len(),
        s[j].0 == k,
    ensures
        find_from(s, k, i) is Some,
    decreases j - i,
{
    if s[i].0 != k {
        lemma_found_if_present(s, k, i + 1, j);
    }
}


// ---------------------------------------------------------------------------
// Summaries and service stops

/// A machine has no hosted summary exactly when its control contract keeps
/// it outside the hosted fleet.
pub proof fn lemma_summary_absent_iff_not_hosted(cfg: PortConfig, native: MachineArchitecture, machine_name: Seq<char>)
    ensures
        (summary_spec(cfg, native, machine_name) matches Ok(None)) <==> (machine_control_spec(
            cfg,
            machine_name,
        ) matches Ok(control) && control.inventory_scope != MachineInventoryScope::HostedFleet),
{
}

/// A stop is refused exactly when the stored placements of the service
/// could not be read, or there is not exactly one of them; a single stored
/// placement is always answered or forwarded.
pub proof fn lemma_stop_refused_iff_not_single(
    cfg: PortConfig,
    control_plane: Seq<char>,
    machine: Seq<char>,
    service: Seq<char>,
    summary: HostedMachineSummaryContract,
    placements: Result<Seq<ServiceStatusView>, Seq<char>>,
    registered: Seq<(Seq<char>, RegisteredNodeRecord)>,
    statics: Seq<(Seq<char>, HostedNodeBinding)>,
    now: u64,
)
    ensures
        (stop_step(cfg, control_plane, machine, service, summary, placements, registered, statics, now) is Refuse)
            <==> !(placements matches Ok(ps) && ps.len() == 1),
{
}

/// A status request and a stop request about the same service are refused
/// on the same stored placements, in the same way, naming the same route.
pub proof fn lemma_status_and_stop_refuse_alike(
    cfg: PortConfig,
    control_plane: Seq<char>,
    machine: Seq<char>,
    service: Seq<char>,
    summary: HostedMachineSummaryContract,
    placements: Result<Seq<ServiceStatusView>, Seq<char>>,
    registered: Seq<(Seq<char>, RegisteredNodeRecord)>,
    statics: Seq<(Seq<char>, HostedNodeBinding)>,
    now: u64,
)
    ensures
        (status_step(control_plane, machine, service, summary, placements) is Refuse) <==> (stop_step(
            cfg,
            control_plane,
            machine,
            service,
            summary,
            placements,
            registered,
            statics,
            now,
        ) is Refuse),
        status_step(control_plane, machine, service, summary, placements) matches ServiceStatusActionView::Refuse {
            refusal,
            message,
            route,
        } ==> stop_step(cfg, control_plane, machine, service, summary, placements, registered, statics, now)
            == (ServiceStopActionView::Refuse { refusal, message, route }),
{
}

/// A stop is forwarded only to the node its stored placement names, through
/// the binding the control plane knows for that node, and never through a
/// stale registration; otherwise the stored status is reported unchanged, or
/// with a note that the node could not be reached.
pub proof fn lemma_stop_goes_to_the_stored_node(
    cfg: PortConfig,
    control_plane: Seq<char>,
    machine: Seq<char>,
    service: Seq<char>,
    summary: HostedMachineSummaryContract,
    status: ServiceStatusView,
    registered: Seq<(Seq<char>, RegisteredNodeRecord)>,
    statics: Seq<(Seq<char>, HostedNodeBinding)>,
    now: u64,
)
    ensures
        ({
            let action = stop_step(
                cfg,
                control_plane,
                machine,
                service,
                summary,
                Ok(seq![status]),
                registered,
                statics,
                now,
            );
            &&& action matches ServiceStopActionView::Forward { binding, node_name, status: s, .. } ==> {
                &&& status.node_name == Some(node_name)
                &&& s == status
                &&& known_binding(cfg, control_plane, registered, statics, node_name, now) matches Ok(Some(found))
                    && found.0 == binding
                &&& lookup(registered, node_name) matches Some(record) ==> record.contract.freshness.fresh_until
                    >= now
            }
            &&& action matches ServiceStopActionView::Report { status: s, .. } ==> (s == status
                || (status.node_name matches Some(node) && s == unreachable_stop(status, node)))
        }),
{
    assert(seq![status][0] == status);
}


// ---------------------------------------------------------------------------
// Registered nodes

/// The host groups that hold a node are host groups of the inventory, in
/// the inventory's order.
proof fn lemma_groups_with_member_keep_order(groups: Seq<(Seq<char>, HostedHostGroupContractView)>, node: Seq<char>)
    ensures
        forall|i: int|
            0 <= i < groups_with_member(groups, node).len() ==> groups.contains(
                #[trigger] groups_with_member(groups, node)[i],
            ),
        sorted_names(groups) ==> sorted_names(groups_with_member(groups, node)),
    decreases groups.len(),
{
    if groups.len() > 0 {
        let rest = groups.drop_last();
        let last = groups.last();
        lemma_groups_with_member_keep_order(rest, node);
        let r0 = groups_with_member(rest, node);
        let r = groups_with_member(groups, node);
        assert(groups[groups.len() - 1] == last);
        assert forall|i: int| 0 <= i < r.len() implies groups.contains(#[trigger] r[i]) by {
            if i < r0.len() {
                assert(r[i] == r0[i]);
                assert(rest.contains(r0[i]));
                let k = choose|k: int| 0 <= k < rest.len() && rest[k] == r0[i];
                assert(groups[k] == rest[k]);
            } else {
                assert(r[i] == last);
            }
        }
        if sorted_names(groups) {
            assert(sorted_names(rest)) by {
                assert forall|i: int, j: int| 0 <= i < j < rest.len() implies name_lt(
                    #[trigger] rest[i].0,
                    #[trigger] rest[j].0,
                ) by {
                    assert(rest[i] == groups[i] && rest[j] == groups[j]);
                }
            }
            assert forall|i: int, j: int| 0 <= i < j < r.len() implies name_lt(
                #[trigger] r[i].0,
                #[trigger] r[j].0,
            ) by {
                if j < r0.len() {
                    assert(r[i] == r0[i] && r[j] == r0[j]);
                } else {
                    assert(r[i] == r0[i]);
                    assert(r[j] == last);
                    assert(rest.contains(r0[i]));
                    let k = choose|k: int| 0 <= k < rest.len() && rest[k] == r0[i];
                    assert(groups[k] == rest[k]);
                    assert(name_lt(groups[k].0, groups[groups.len() - 1].0));
                }
            }
        }
    }
}

/// A registered node's host groups are named in ascending order, each once,
/// when the inventory's host groups are.
pub proof fn lemma_registered_host_groups_ascend(
    inventory: HostedInventoryContractView,
    control_plane: Seq<char>,
    node_name: Seq<char>,
    registration: HostedNodeRegistration,
)
    requires
        sorted_names(inventory.host_groups),
    ensures
        registered_spec(inventory, control_plane, node_name, registration) matches Ok(contract) ==> forall|
            i: int,
            j: int,
        |
            0 <= i < j < contract.host_groups.len() ==> name_lt(
                #[trigger] contract.host_groups[i],
                #[trigger] contract.host_groups[j],
            ),
{
    lemma_groups_with_member_keep_order(inventory.host_groups, node_name);
    let g = groups_with_member(inventory.host_groups, node_name);
    if let Ok(contract) = registered_spec(inventory, control_plane, node_name, registration) {
        assert forall|i: int, j: int| 0 <= i < j < contract.host_groups.len() implies name_lt(
            #[trigger] contract.host_groups[i],
            #[trigger] contract.host_groups[j],
        ) by {
            assert(contract.host_groups[i] == g[i].0);
            assert(contract.host_groups[j] == g[j].0);
        }
    }
}


// ---------------------------------------------------------------------------
// Listed services

/// Placing a status by name keeps statuses ordered by name, and adds just
/// that status.
proof fn lemma_insert_by_name_ordered(s: Seq<ServiceStatusView>, x: ServiceStatusView)
    requires
        ordered_by_name(s),
    ensures
        ordered_by_name(insert_by_name(s, x)),
        insert_by_name(s, x).to_multiset() =~= s.to_multiset().insert(x),
        forall|i: int|
            0 <= i < insert_by_name(s, x).len() ==> #[trigger] insert_by_name(s, x)[i] == x || s.contains(
                insert_by_name(s, x)[i],
            ),
    decreases s.len(),
{
    let r = insert_by_name(s, x);
    if s.len() == 0 {
        assert(r =~= seq![x]);
        assert(s =~= Seq::<ServiceStatusView>::empty());
        vstd::seq_lib::to_multiset_build(s, x);
        assert(s.push(x) =~= seq![x]);
    } else {
        let t = s.drop_last();
        let last = s.last();
        assert(s[s.len() - 1] == last);
        assert(t.push(last) =~= s);
        vstd::seq_lib::to_multiset_build(t, last);
        assert(ordered_by_name(t)) by {
            assert forall|i: int, j: int| 0 <= i < j < t.len() implies !name_lt(
                #[trigger] t[j].name,
                #[trigger] t[i].name,
            ) by {
                assert(t[i] == s[i] && t[j] == s[j]);
            }
        }
        if name_lt(x.name, last.name) {
            lemma_insert_by_name_ordered(t, x);
            let u = insert_by_name(t, x);
            assert(r == u.push(last));
            vstd::seq_lib::to_multiset_build(u, last);
            lemma_name_lt_trichotomy(x.name, last.name);
            assert forall|i: int, j: int| 0 <= i < j < r.len() implies !name_lt(
                #[trigger] r[j].name,
                #[trigger] r[i].name,
            ) by {
                if j < u.len() {
                    assert(r[i] == u[i] && r[j] == u[j]);
                } else {
                    assert(r[j] == last);
                    assert(r[i] == u[i]);
                    if u[i] != x {
                        assert(t.contains(u[i]));
                        let k = choose|k: int| 0 <= k < t.len() && t[k] == u[i];
                        assert(s[k] == t[k]);
                        assert(!name_lt(s[s.len() - 1].name, s[k].name));
                    }
                }
            }
            assert forall|i: int| 0 <= i < r.len() implies #[trigger] r[i] == x || s.contains(r[i]) by {
                if i < u.len() {
                    assert(r[i] == u[i]);
                    if u[i] != x {
                        assert(t.contains(u[i]));
                        let k = choose|k: int| 0 <= k < t.len() && t[k] == u[i];
                        assert(s[k] == t[k]);
                    }
                } else {
                    assert(r[i] == s[s.len() - 1]);
                }
            }
        } else {
            assert(r == s.push(x));
            vstd::seq_lib::to_multiset_build(s, x);
            assert forall|i: int, j: int| 0 <= i < j < r.len() implies !name_lt(
                #[trigger] r[j].name,
                #[trigger] r[i].name,
            ) by {
                if j < s.len() {
                    assert(r[i] == s[i] && r[j] == s[j]);
                } else {
                    assert(r[j] == x);
                    assert(r[i] == s[i]);
                    lemma_name_lt_trichotomy(last.name, s[i].name);
                    if i < s.len() - 1 {
                        assert(!name_lt(s[s.len() - 1].name, s[i].name));
                    }
                    if name_lt(x.name, s[i].name) && name_lt(s[i].name, last.name) {
                        lemma_name_lt_transitive(x.name, s[i].name, last.name);
                    }
                }
            }
            assert forall|i: int| 0 <= i < r.len() implies #[trigger] r[i] == x || s.contains(r[i]) by {
                if i < s.len() {
                    assert(r[i] == s[i]);
                }
            }
        }
    }
}

/// Listed services come ordered by name, each listed status exactly as
/// often as it was stored.
pub proof fn lemma_listed_services_ordered_by_name(s: Seq<ServiceStatusView>)
    ensures
        ordered_by_name(sorted_by_name(s)),
        sorted_by_name(s).to_multiset() =~= s.to_multiset(),
    decreases s.len(),
{
    if s.len() == 0 {
        assert(sorted_by_name(s) == s);
    } else {
        let t = s.drop_last();
        lemma_listed_services_ordered_by_name(t);
        lemma_insert_by_name_ordered(sorted_by_name(t), s.last());
        assert(t.push(s.last()) =~= s);
        vstd::seq_lib::to_multiset_build(t, s.last());
    }
}


// ---------------------------------------------------------------------------
// Runtime classes and artifact endpoints

/// What a machine's runtime class demands, stated directly: no writable
/// root and no declared input twice, and the rules of its kind.
pub open spec fn runtime_class_admits(machine: MachineSpec) -> bool {
    match machine.runtime_class {
        None => true,
        Some(rc) => {
            let roots = rc.writable_roots@;
            let inputs = rc.declared_inputs@;
            &&& forall|i: int| 0 <= i < roots.len() ==> !#[trigger] repeats_earlier(roots, i)
            &&& forall|i: int| 0 <= i < inputs.len() ==> !#[trigger] repeats_earlier(inputs, i)
            &&& machine.rootfs_read_only
            &&& machine.rootfs_overlay is Some
            &&& match rc.kind {
                MachineRuntimeClassKind::WorkspaceScratchBuilder => {
                    &&& rc.workspace matches Some(binding) && !is_blank(binding.workspace@) && !is_blank(
                        binding.lane@,
                    )
                    &&& rc.trust == MachineRuntimeTrustPosture::WorkspaceUntrusted
                    &&& rc.state_isolation == MachineRuntimeStateIsolation::WorkspaceWritable
                    &&& roots.contains(MachineRuntimeWritableRoot::NixStore)
                    &&& roots.contains(MachineRuntimeWritableRoot::SourceRoot)
                    &&& roots.contains(MachineRuntimeWritableRoot::TempRoot)
                },
                MachineRuntimeClassKind::BlessedClosurePromotionRunner => {
                    &&& rc.workspace is None
                    &&& rc.trust == MachineRuntimeTrustPosture::PromotionTrusted
                    &&& rc.state_isolation == MachineRuntimeStateIsolation::CleanRoom
                    &&& !roots.contains(MachineRuntimeWritableRoot::NixStore)
                    &&& !roots.contains(MachineRuntimeWritableRoot::SourceRoot)
                    &&& !roots.contains(MachineRuntimeWritableRoot::TempRoot)
                    &&& roots.contains(MachineRuntimeWritableRoot::EvidenceRoot)
                    &&& inputs.contains(MachineRuntimeDeclaredInput::SourceBundle)
                    &&& inputs.contains(MachineRuntimeDeclaredInput::RequestedOutputs)
                    &&& inputs.contains(MachineRuntimeDeclaredInput::PolicySnapshot)
                },
            }
        },
    }
}

/// A machine's runtime class is accepted exactly when it meets what the
/// class demands.
pub proof fn lemma_runtime_class_accepted_iff(machine_name: Seq<char>, machine: MachineSpec)
    ensures
        (runtime_class_check(machine_name, machine) is Ok) <==> runtime_class_admits(machine),
{
    if let Some(rc) = machine.runtime_class {
        let prefix = crate::machine_checks::runtime_class_prefix(machine_name, rc.kind);
        let roots = rc.writable_roots@;
        let inputs = rc.declared_inputs@;
        let root_check = |i: int| crate::machine_checks::repeated_root_check(prefix, roots, i);
        let input_check = |i: int| crate::machine_checks::repeated_input_check(prefix, inputs, i);
        if runtime_class_check(machine_name, machine) is Ok {
            lemma_first_failure_ok_all(roots.len() as int, root_check);
            lemma_first_failure_ok_all(inputs.len() as int, input_check);
            assert forall|i: int| 0 <= i < roots.len() implies !#[trigger] repeats_earlier(roots, i) by {
                assert(root_check(i) is Ok);
            }
            assert forall|i: int| 0 <= i < inputs.len() implies !#[trigger] repeats_earlier(inputs, i) by {
                assert(input_check(i) is Ok);
            }
        }
        if runtime_class_admits(machine) {
            assert forall|i: int| 0 <= i < roots.len() implies #[trigger] root_check(i) is Ok by {
                assert(!repeats_earlier(roots, i));
            }
            assert forall|i: int| 0 <= i < inputs.len() implies #[trigger] input_check(i) is Ok by {
                assert(!repeats_earlier(inputs, i));
            }
            lemma_first_failure_all_ok(roots.len() as int, root_check);
            lemma_first_failure_all_ok(inputs.len() as int, input_check);
        }
    }
}

/// No control plane at or after `i` has `endpoint` when the search finds none.
proof fn lemma_endpoint_owner_none(
    cps: Seq<(Seq<char>, crate::model::HostedControlPlaneSpec)>,
    endpoint: Seq<char>,
    i: int,
)
    requires
        0 <= i,
        endpoint_owner_from(cps, endpoint, i) is None,
    ensures
        forall|j: int| i <= j < cps.len() ==> (#[trigger] cps[j]).1.endpoint@ != endpoint,
    decreases cps.len() - i,
{
    if i < cps.len() {
        lemma_endpoint_owner_none(cps, endpoint, i + 1);
    }
}

/// The search from `i` finds the first control plane with `endpoint`.
proof fn lemma_endpoint_owner_first(
    cps: Seq<(Seq<char>, crate::model::HostedControlPlaneSpec)>,
    endpoint: Seq<char>,
    i: int,
    k: int,
)
    requires
        0 <= i <= k < cps.len(),
        cps[k].1.endpoint@ == endpoint,
    ensures
        endpoint_owner_from(cps, endpoint, i) matches Some(j) && j <= k,
    decreases k - i,
{
    if cps[i].1.endpoint@ != endpoint {
        lemma_endpoint_owner_first(cps, endpoint, i + 1, k);
    }
}

/// Control plane `i` is the only one whose endpoint is `e`.
pub open spec fn sole_endpoint_owner(
    cps: Seq<(Seq<char>, crate::model::HostedControlPlaneSpec)>,
    e: Seq<char>,
    i: int,
) -> bool {
    &&& 0 <= i < cps.len()
    &&& cps[i].1.endpoint@ == e
    &&& forall|j: int| 0 <= j < cps.len() && j != i ==> (#[trigger] cps[j]).1.endpoint@ != e
}

/// The search finds `i` and nothing after it exactly when `i` is the only
/// control plane with that endpoint.
proof fn lemma_search_finds_sole_owner(
    cps: Seq<(Seq<char>, crate::model::HostedControlPlaneSpec)>,
    e: Seq<char>,
    i: int,
)
    ensures
        (endpoint_owner_from(cps, e, 0) == Some(i) && endpoint_owner_from(cps, e, i + 1) is None)
            <==> sole_endpoint_owner(cps, e, i),
{
    crate::contracts::lemma_endpoint_owner_from(cps, e, 0);
    if endpoint_owner_from(cps, e, 0) == Some(i) && endpoint_owner_from(cps, e, i + 1) is None {
        lemma_endpoint_owner_none(cps, e, i + 1);
        assert forall|j: int| 0 <= j < cps.len() && j != i implies (#[trigger] cps[j]).1.endpoint@ != e by {
            if j < i && cps[j].1.endpoint@ == e {
                lemma_endpoint_owner_first(cps, e, 0, j);
            }
        }
    }
    if sole_endpoint_owner(cps, e, i) {
        lemma_endpoint_owner_first(cps, e, 0, i);
        let j = endpoint_owner_from(cps, e, 0)->Some_0;
        assert(cps[j].1.endpoint@ == e);
        crate::contracts::lemma_endpoint_owner_from(cps, e, i + 1);
        if let Some(k) = endpoint_owner_from(cps, e, i + 1) {
            assert(cps[k].1.endpoint@ == e);
        }
    }
}

/// An artifact endpoint resolves to control plane `i` exactly when, once
/// trimmed, it is not empty and `i` is the only control plane that has it
/// as its endpoint.
pub proof fn lemma_artifact_endpoint_owned_by_exactly_one(cfg: PortConfig, endpoint: Seq<char>, i: int)
    ensures
        (artifact_endpoint_owner(cfg, endpoint) == Ok::<int, Seq<char>>(i)) <==> (trim(endpoint).len() > 0
            && sole_endpoint_owner(cfg.control_planes@, trim(endpoint), i)),
{
    let e = trim(endpoint);
    let cps = cfg.control_planes@;
    lemma_search_finds_sole_owner(cps, e, i);
    if e.len() > 0 {
        if let Some(k) = endpoint_owner_from(cps, e, 0) {
            if endpoint_owner_from(cps, e, k + 1) is None && sole_endpoint_owner(cps, e, i) {
                lemma_search_finds_sole_owner(cps, e, k);
            }
        }
    }
}


// ---------------------------------------------------------------------------
// Imported inventory

/// What an imported inventory state demands, stated directly: a known,
/// non-blank control plane, a hosted inventory that loads, and for every
/// record a node configured under that control plane whose configured
/// providers include the imported one, with a populated capability summary
/// within the configured capabilities.
pub open spec fn imports_admitted(
    cfg: PortConfig,
    control_plane: Seq<char>,
    nodes: Seq<(Seq<char>, HostedImportedNodeRecord)>,
) -> bool {
    &&& !is_blank(control_plane)
    &&& has_name(cfg.control_planes@, control_plane)
    &&& inventory_spec(cfg) matches Ok(inventory) && forall|i: int|
        0 <= i < nodes.len() ==> (lookup(inventory.nodes, (#[trigger] nodes[i]).0) matches Some(configured)
            && configured.control_plane == control_plane
            && configured.capabilities.providers.contains(nodes[i].1.provider)
            && caps_populated(nodes[i].1.capability_summary@)
            && caps_subset(nodes[i].1.capability_summary@, configured.capabilities))
}

/// An imported inventory state is accepted exactly when it meets what such a
/// state demands.
pub proof fn lemma_imported_state_accepted_iff(
    cfg: PortConfig,
    path: Seq<char>,
    control_plane: Seq<char>,
    nodes: Seq<(Seq<char>, HostedImportedNodeRecord)>,
)
    ensures
        (imported_state_spec(cfg, path, control_plane, nodes) is Ok) <==> imports_admitted(cfg, control_plane, nodes),
{
    if !is_blank(control_plane) && has_name(cfg.control_planes@, control_plane) {
        if let Ok(inventory) = inventory_spec(cfg) {
            let check = |i: int| import_check(inventory, path, control_plane, nodes[i].0, nodes[i].1);
            if imported_state_spec(cfg, path, control_plane, nodes) is Ok {
                lemma_first_failure_ok_all(nodes.len() as int, check);
                assert forall|i: int| 0 <= i < nodes.len() implies (lookup(
                    inventory.nodes,
                    (#[trigger] nodes[i]).0,
                ) matches Some(configured) && configured.control_plane == control_plane
                    && configured.capabilities.providers.contains(nodes[i].1.provider) && caps_populated(
                    nodes[i].1.capability_summary@,
                ) && caps_subset(nodes[i].1.capability_summary@, configured.capabilities)) by {
                    assert(check(i) is Ok);
                }
            }
            if imports_admitted(cfg, control_plane, nodes) {
                assert forall|i: int| 0 <= i < nodes.len() implies #[trigger] check(i) is Ok by {
                    assert(lookup(inventory.nodes, nodes[i].0) is Some);
                }
                lemma_first_failure_all_ok(nodes.len() as int, check);
            }
        }
    }
}


// ---------------------------------------------------------------------------
// The hosted inventory

/// Every member of a host group is a configured node that resolves through
/// the same control plane as the group's first member.
pub open spec fn members_agree(cfg: PortConfig, members: Seq<String>) -> bool {
    forall|k: int|
        0 <= k < members.len() ==> (lookup(cfg.nodes@, (#[trigger] members[k])@) matches Some(node) && (k
            == 0 || node_cp(cfg, node) == member_cp(cfg, members[0]@)))
}

/// What the hosted inventory demands, stated directly: every node sits on a
/// host reached through a hosted control plane, and every host group has a
/// member and members that agree on their control plane.
pub open spec fn inventory_admitted(cfg: PortConfig) -> bool {
    &&& forall|i: int|
        0 <= i < cfg.nodes@.len() ==> (lookup(cfg.hosts@, (#[trigger] cfg.nodes@[i]).1.host@) matches Some(host)
            && host.connection is HostedControlPlane)
    &&& forall|g: int|
        0 <= g < cfg.host_groups@.len() ==> (#[trigger] cfg.host_groups@[g]).1.nodes@.len() > 0 && members_agree(
            cfg,
            cfg.host_groups@[g].1.nodes@,
        )
}

/// A host group passes its check exactly when it has a member and its
/// members agree on their control plane.
proof fn lemma_group_check_iff(cfg: PortConfig, group_name: Seq<char>, group: crate::model::HostedHostGroupSpec)
    ensures
        (inventory_group_check(cfg, group_name, group) is Ok) <==> (group.nodes@.len() > 0 && members_agree(
            cfg,
            group.nodes@,
        )),
{
    let members = group.nodes@;
    let check = |k: int| inventory_member_check(cfg, group_name, members, k);
    if inventory_group_check(cfg, group_name, group) is Ok {
        lemma_first_failure_ok_all(members.len() as int, check);
        assert forall|k: int| 0 <= k < members.len() implies (lookup(cfg.nodes@, (#[trigger] members[k])@) matches Some(
            node,
        ) && (k == 0 || node_cp(cfg, node) == member_cp(cfg, members[0]@))) by {
            assert(check(k) is Ok);
        }
    }
    if members.len() > 0 && members_agree(cfg, members) {
        assert forall|k: int| 0 <= k < members.len() implies #[trigger] check(k) is Ok by {
            assert(lookup(cfg.nodes@, members[k]@) is Some);
        }
        lemma_first_failure_all_ok(members.len() as int, check);
    }
}

/// The hosted inventory loads exactly when the configuration meets what it
/// demands; it then holds every configured node and host group, in order,
/// with the node's host, runtime root and capabilities and the control
/// plane it resolves through, and the group's members, placement and
/// scheduler.
pub proof fn lemma_inventory_copies_nodes_and_groups(cfg: PortConfig)
    ensures
        (inventory_spec(cfg) is Ok) <==> inventory_admitted(cfg),
        inventory_spec(cfg) matches Ok(inventory) ==> {
            &&& inventory.nodes.len() == cfg.nodes@.len()
            &&& inventory.host_groups.len() == cfg.host_groups@.len()
            &&& forall|i: int|
                0 <= i < cfg.nodes@.len() ==> {
                    let node = (#[trigger] inventory.nodes[i]);
                    &&& node.0 == cfg.nodes@[i].0
                    &&& node.1.host == cfg.nodes@[i].1.host@
                    &&& node.1.runtime_root == cfg.nodes@[i].1.runtime_root@
                    &&& node.1.capabilities == cfg.nodes@[i].1.capabilities@
                    &&& node.1.control_plane == node_cp(cfg, cfg.nodes@[i].1)
                }
            &&& forall|g: int|
                0 <= g < cfg.host_groups@.len() ==> {
                    let group = (#[trigger] inventory.host_groups[g]);
                    &&& group.0 == cfg.host_groups@[g].0
                    &&& group.1.nodes == views(cfg.host_groups@[g].1.nodes@)
                    &&& group.1.placement == cfg.host_groups@[g].1.placement
                    &&& group.1.scheduler == cfg.host_groups@[g].1.scheduler
                }
        },
{
    let nodes = cfg.nodes@;
    let groups = cfg.host_groups@;
    let node_check = |i: int| inventory_node_check(cfg, i);
    let group_check = |i: int| inventory_group_check(cfg, groups[i].0, groups[i].1);
    if inventory_spec(cfg) is Ok {
        lemma_first_failure_ok_all(nodes.len() as int, node_check);
        lemma_first_failure_ok_all(groups.len() as int, group_check);
        assert forall|i: int| 0 <= i < nodes.len() implies (lookup(cfg.hosts@, (#[trigger] nodes[i]).1.host@) matches Some(
            host,
        ) && host.connection is HostedControlPlane) by {
            assert(node_check(i) is Ok);
        }
        assert forall|g: int| 0 <= g < groups.len() implies (#[trigger] groups[g]).1.nodes@.len() > 0 && members_agree(
            cfg,
            groups[g].1.nodes@,
        ) by {
            assert(group_check(g) is Ok);
            lemma_group_check_iff(cfg, groups[g].0, groups[g].1);
        }
    }
    if inventory_admitted(cfg) {
        assert forall|i: int| 0 <= i < nodes.len() implies #[trigger] node_check(i) is Ok by {
            assert(lookup(cfg.hosts@, nodes[i].1.host@) is Some);
        }
        assert forall|g: int| 0 <= g < groups.len() implies #[trigger] group_check(g) is Ok by {
            assert(groups[g].1.nodes@.len() > 0);
            lemma_group_check_iff(cfg, groups[g].0, groups[g].1);
        }
        lemma_first_failure_all_ok(nodes.len() as int, node_check);
        lemma_first_failure_all_ok(groups.len() as int, group_check);
    }
}


// ---------------------------------------------------------------------------
// Validated configurations

/// No control plane before `i`, from `j` on, has trimmed endpoint `e` when
/// the search finds none.
proof fn lemma_no_earlier_endpoint(
    cps: Seq<(Seq<char>, crate::model::HostedControlPlaneSpec)>,
    e: Seq<char>,
    j: int,
    i: int,
)
    requires
        0 <= j,
        i <= cps.len(),
        earlier_endpoint_owner(cps, e, j, i) is None,
    ensures
        forall|k: int| j <= k < i ==> trim((#[trigger] cps[k]).1.endpoint@) != e,
    decreases i - j,
{
    if j < i {
        lemma_no_earlier_endpoint(cps, e, j + 1, i);
    }
}

/// What validation establishes of one machine: its host is configured and,
/// when reached through a hosted control plane, names a configured one; its
/// kernel and guest image artifacts are configured and each has a variant
/// for the machine's architecture (resolved on this host), substrate and
/// protection mode; its substrate suits its host (Firecracker and Cloud
/// Hypervisor need Linux, AVF a local macOS host) and protection mode (no
/// PVM on Cloud Hypervisor or AVF, no arm64 Firecracker PVM); it attaches
/// at most one volume, named and with a path, and only as a local Linux
/// Firecracker guest in standard protection;
/// its runtime class meets
/// what it demands; and a rootfs overlay means a non-empty overlay over a
/// read-only base on an x86_64 Firecracker guest.
pub open spec fn validated_machine(cfg: PortConfig, native: MachineArchitecture, machine: MachineSpec) -> bool {
    &&& lookup(cfg.hosts@, machine.host@) matches Some(host) && (host.connection matches HostConnection::HostedControlPlane {
        control_plane,
    } ==> has_name(cfg.control_planes@, control_plane@))
    &&& catalog_lookup(cfg.artifacts, machine.kernel@) matches Some((_, kernel))
        && catalog_lookup(cfg.artifacts, machine.guest_image@) matches Some((_, guest_image))
        && resolve_architecture(machine.architecture, native) matches Ok(arch)
        && has_variant(kernel, machine_selector(machine, arch)) && has_variant(
        guest_image,
        machine_selector(machine, arch),
    )
    &&& lookup(cfg.hosts@, machine.host@) matches Some(host) && resolve_architecture(machine.architecture, native)
        matches Ok(arch) && match machine.substrate {
        ExecutionSubstrate::Firecracker => host.platform == HostPlatform::Linux && !(machine.protection_mode
            == ProtectionMode::Pvm && arch == MachineArchitecture::Aarch64),
        ExecutionSubstrate::CloudHypervisor => host.platform == HostPlatform::Linux && machine.protection_mode
            != ProtectionMode::Pvm,
        ExecutionSubstrate::Avf => host.platform == HostPlatform::Macos && host.connection is Local
            && machine.protection_mode != ProtectionMode::Pvm,
    }
    &&& machine.volumes@.len() <= 1
    &&& machine.volumes@.len() > 0 ==> (lookup(cfg.hosts@, machine.host@) matches Some(host)
        && host.connection is Local && host.platform == HostPlatform::Linux && machine.substrate
        == ExecutionSubstrate::Firecracker && machine.protection_mode == ProtectionMode::Standard)
    &&& forall|i: int|
        0 <= i < machine.volumes@.len() ==> !is_blank((#[trigger] machine.volumes@[i]).name@)
            && machine.volumes@[i].path@.len() > 0
    &&& runtime_class_admits(machine)
    &&& machine.rootfs_overlay matches Some(overlay) ==> {
        &&& overlay.size_mib > 0
        &&& machine.rootfs_read_only
        &&& machine.substrate == crate::model::ExecutionSubstrate::Firecracker
        &&& resolve_architecture(machine.architecture, native) == Ok::<MachineArchitecture, Seq<char>>(
            MachineArchitecture::X86_64,
        )
    }
}

/// A machine that passes its check meets what validation establishes of it.
proof fn lemma_machine_check_establishes(
    cfg: PortConfig,
    native: MachineArchitecture,
    machine_name: Seq<char>,
    machine: MachineSpec,
)
    requires
        machine_check(cfg, native, machine_name, machine) is Ok,
    ensures
        validated_machine(cfg, native, machine),
{
    lemma_runtime_class_accepted_iff(machine_name, machine);
    let volume_check_at = |i: int| crate::machine_checks::volume_check(machine_name, machine.volumes@, i);
    if crate::machine_checks::volumes_check(machine_name, machine) is Ok {
        lemma_first_failure_ok_all(machine.volumes@.len() as int, volume_check_at);
        assert forall|i: int| 0 <= i < machine.volumes@.len() implies !is_blank(
            (#[trigger] machine.volumes@[i]).name@,
        ) && machine.volumes@[i].path@.len() > 0 by {
            assert(volume_check_at(i) is Ok);
        }
    }
    let host = lookup(cfg.hosts@, machine.host@)->Some_0;
    let kernel = catalog_lookup(cfg.artifacts, machine.kernel@)->Some_0.1;
    let guest_image = catalog_lookup(cfg.artifacts, machine.guest_image@)->Some_0.1;
    let arch = resolve_architecture(machine.architecture, native)->Ok_0;
    let issues = machine_issues(host, machine, arch, kernel, guest_image);
    assert(issues.len() == 0);
    assert(crate::machine_checks::substrate_issues(host, machine, arch).len() == 0);
    let sel = machine_selector(machine, arch);
    assert(issue_if(!has_variant(kernel, sel), missing_variant_text("Kernel"@, machine.kernel@, machine, arch)).len()
        == 0);
    assert(issue_if(
        !has_variant(guest_image, sel),
        missing_variant_text("Guest image"@, machine.guest_image@, machine, arch),
    ).len() == 0);
}

/// A configuration that validates has control planes with non-blank
/// endpoints, audiences and auth headers and pairwise distinct trimmed
/// endpoints, and every machine meets what validation establishes of it.
pub proof fn lemma_validated_config_invariants(cfg: PortConfig, native: MachineArchitecture)
    requires
        validate_spec(cfg, native) is Ok,
    ensures
        forall|i: int|
            0 <= i < cfg.control_planes@.len() ==> {
                let cp = (#[trigger] cfg.control_planes@[i]).1;
                &&& !is_blank(cp.endpoint@)
                &&& !is_blank(cp.audience@)
                &&& !is_blank(cp.auth.header@)
            },
        forall|i: int, j: int|
            0 <= j < i < cfg.control_planes@.len() ==> trim((#[trigger] cfg.control_planes@[j]).1.endpoint@)
                != trim((#[trigger] cfg.control_planes@[i]).1.endpoint@),
        forall|m: int|
            0 <= m < cfg.machines@.len() ==> validated_machine(cfg, native, (#[trigger] cfg.machines@[m]).1),
{
    let cps = cfg.control_planes@;
    let machines = cfg.machines@;
    let cp_check = |i: int| control_plane_stage_check(cps, i);
    let m_check = |i: int| machine_check(cfg, native, machines[i].0, machines[i].1);
    lemma_first_failure_ok_all(cps.len() as int, cp_check);
    assert forall|i: int| 0 <= i < cps.len() implies {
        let cp = (#[trigger] cps[i]).1;
        &&& !is_blank(cp.endpoint@)
        &&& !is_blank(cp.audience@)
        &&& !is_blank(cp.auth.header@)
    } by {
        assert(cp_check(i) is Ok);
    }
    assert forall|i: int, j: int| 0 <= j < i < cps.len() implies trim((#[trigger] cps[j]).1.endpoint@) != trim(
        (#[trigger] cps[i]).1.endpoint@,
    ) by {
        assert(cp_check(i) is Ok);
        lemma_no_earlier_endpoint(cps, trim(cps[i].1.endpoint@), 0, i);
    }
    lemma_first_failure_ok_all(machines.len() as int, m_check);
    assert forall|m: int| 0 <= m < machines.len() implies validated_machine(cfg, native, (#[trigger] machines[m]).1) by {
        assert(m_check(m) is Ok);
        lemma_machine_check_establishes(cfg, native, machines[m].0, machines[m].1);
    }
}

// ---------------------------------------------------------------------------
// Machine listings

/// A listed machine's routing names a node agent exactly when it carries no
/// detail, so a listing never meets an inconsistent routing; a machine with
/// a stored placement is routed to the placement's node, and reached only
/// through the binding the control plane knows for that node, never through
/// a stale registration.
pub proof fn lemma_listing_routes_consistently(
    cfg: PortConfig,
    control_plane: Seq<char>,
    summary: HostedMachineSummaryContract,
    placement: Option<HostedMachinePlacementRecord>,
    registered: Seq<(Seq<char>, RegisteredNodeRecord)>,
    statics: Seq<(Seq<char>, HostedNodeBinding)>,
    now: u64,
)
    ensures
        ({
            let routing = listing_route(cfg, control_plane, summary, placement, registered, statics, now);
            &&& (routing.binding is Some) <==> (routing.detail is None)
            &&& placement matches Some(p) ==> {
                &&& routing.route.node_name == Some(p.node_name@)
                &&& routing.binding matches Some(b) ==> known_binding(
                    cfg,
                    control_plane,
                    registered,
                    statics,
                    p.node_name@,
                    now,
                ) matches Ok(Some(found)) && found.0 == b
                &&& (lookup(registered, p.node_name@) matches Some(record) && record.contract.freshness.fresh_until
                    < now) ==> routing.binding is None
            }
        }),
{
}


// ---------------------------------------------------------------------------
// Machine summaries

/// Names that ascend strictly.
pub open spec fn strictly_ascending(names: Seq<Seq<char>>) -> bool {
    forall|i: int, j: int| 0 <= i < j < names.len() ==> name_lt(#[trigger] names[i], #[trigger] names[j])
}

/// Once the machine's architecture resolves, deciding a node never fails,
/// and a node is not rejected exactly when it can run the machine.
pub proof fn lemma_candidacy_iff_can_run(
    native: MachineArchitecture,
    machine_name: Seq<char>,
    node_name: Seq<char>,
    machine: MachineSpec,
    node: HostedNodeContractView,
)
    requires
        resolve_architecture(machine.architecture, native) is Ok,
    ensures
        rejection_reason(native, machine_name, node_name, machine, node) is Ok,
        (rejection_reason(native, machine_name, node_name, machine, node) == Ok::<
            Option<Seq<char>>,
            Seq<char>,
        >(None)) <==> node_can_run(node, machine, resolve_architecture(machine.architecture, native)->Ok_0),
{
}

/// The nodes on a host include every inventory node on that host, and keep
/// the inventory's name order.
proof fn lemma_nodes_on_host_complete(nodes: Seq<(Seq<char>, HostedNodeContractView)>, host: Seq<char>)
    ensures
        forall|j: int|
            0 <= j < nodes.len() && (#[trigger] nodes[j]).1.host == host ==> nodes_on_host(nodes, host).contains(
                nodes[j],
            ),
        sorted_names(nodes) ==> sorted_names(nodes_on_host(nodes, host)),
    decreases nodes.len(),
{
    if nodes.len() > 0 {
        let rest = nodes.drop_last();
        let last = nodes.last();
        lemma_nodes_on_host_complete(rest, host);
        lemma_nodes_on_host(rest, host);
        let h0 = nodes_on_host(rest, host);
        let h = nodes_on_host(nodes, host);
        assert(nodes[nodes.len() - 1] == last);
        assert forall|j: int| 0 <= j < nodes.len() && (#[trigger] nodes[j]).1.host == host implies h.contains(
            nodes[j],
        ) by {
            if j < rest.len() {
                assert(rest[j] == nodes[j]);
                assert(h0.contains(rest[j]));
                let k = choose|k: int| 0 <= k < h0.len() && h0[k] == rest[j];
                assert(h[k] == h0[k]);
            } else {
                assert(h[h.len() - 1] == last);
            }
        }
        if sorted_names(nodes) {
            assert(sorted_names(rest)) by {
                assert forall|i: int, j: int| 0 <= i < j < rest.len() implies name_lt(
                    #[trigger] rest[i].0,
                    #[trigger] rest[j].0,
                ) by {
                    assert(rest[i] == nodes[i] && rest[j] == nodes[j]);
                }
            }
            assert forall|i: int, j: int| 0 <= i < j < h.len() implies name_lt(
                #[trigger] h[i].0,
                #[trigger] h[j].0,
            ) by {
                if j < h0.len() {
                    assert(h[i] == h0[i] && h[j] == h0[j]);
                } else {
                    assert(h[i] == h0[i]);
                    assert(h[j] == last);
                    assert(rest.contains(h0[i]));
                    let k = choose|k: int| 0 <= k < rest.len() && rest[k] == h0[i];
                    assert(nodes[k] == rest[k]);
                }
            }
        }
    }
}

/// Deciding every node on a host decides each of them: a node no reason
/// rejects is a candidate, a node rejected for a reason is listed with it,
/// and in name order the candidates ascend strictly, as do the rejected
/// nodes.
proof fn lemma_placement_outcome_complete(
    native: MachineArchitecture,
    machine_name: Seq<char>,
    machine: MachineSpec,
    host_nodes: Seq<(Seq<char>, HostedNodeContractView)>,
)
    requires
        placement_outcome(native, machine_name, machine, host_nodes) is Ok,
    ensures
        ({
            let (c, r) = placement_outcome(native, machine_name, machine, host_nodes)->Ok_0;
            &&& forall|j: int|
                0 <= j < host_nodes.len() ==> (rejection_reason(
                    native,
                    machine_name,
                    (#[trigger] host_nodes[j]).0,
                    machine,
                    host_nodes[j].1,
                ) matches Ok(reason) && match reason {
                    None => c.contains(host_nodes[j].0),
                    Some(why) => r.contains((host_nodes[j].0, why)),
                })
            &&& sorted_names(host_nodes) ==> strictly_ascending(c) && sorted_names(r)
        }),
    decreases host_nodes.len(),
{
    if host_nodes.len() > 0 {
        let rest = host_nodes.drop_last();
        let last = host_nodes.last();
        assert(host_nodes[host_nodes.len() - 1] == last);
        lemma_placement_outcome_complete(native, machine_name, machine, rest);
        lemma_placement_outcome(native, machine_name, machine, rest);
        let (c0, r0) = placement_outcome(native, machine_name, machine, rest)->Ok_0;
        let (c, r) = placement_outcome(native, machine_name, machine, host_nodes)->Ok_0;
        assert forall|j: int| 0 <= j < host_nodes.len() implies (rejection_reason(
            native,
            machine_name,
            (#[trigger] host_nodes[j]).0,
            machine,
            host_nodes[j].1,
        ) matches Ok(reason) && match reason {
            None => c.contains(host_nodes[j].0),
            Some(why) => r.contains((host_nodes[j].0, why)),
        }) by {
            if j < rest.len() {
                assert(rest[j] == host_nodes[j]);
                match rejection_reason(native, machine_name, rest[j].0, machine, rest[j].1) {
                    Ok(None) => {
                        let k = choose|k: int| 0 <= k < c0.len() && c0[k] == rest[j].0;
                        assert(c[k] == c0[k]);
                    },
                    Ok(Some(why)) => {
                        let k = choose|k: int| 0 <= k < r0.len() && r0[k] == (rest[j].0, why);
                        assert(r[k] == r0[k]);
                    },
                    Err(_) => {},
                }
            } else {
                match rejection_reason(native, machine_name, last.0, machine, last.1) {
                    Ok(None) => {
                        assert(c[c.len() - 1] == last.0);
                    },
                    Ok(Some(why)) => {
                        assert(r[r.len() - 1] == (last.0, why));
                    },
                    Err(_) => {},
                }
            }
        }
        if sorted_names(host_nodes) {
            assert(sorted_names(rest)) by {
                assert forall|i: int, j: int| 0 <= i < j < rest.len() implies name_lt(
                    #[trigger] rest[i].0,
                    #[trigger] rest[j].0,
                ) by {
                    assert(rest[i] == host_nodes[i] && rest[j] == host_nodes[j]);
                }
            }
            assert forall|i: int, j: int| 0 <= i < j < c.len() implies name_lt(#[trigger] c[i], #[trigger] c[j]) by {
                if j < c0.len() {
                    assert(c[i] == c0[i] && c[j] == c0[j]);
                } else {
                    assert(c[i] == c0[i]);
                    assert(c[j] == last.0);
                    let k = choose|k: int|
                        0 <= k < rest.len() && rest[k].0 == #[trigger] c0[i] && rejection_reason(
                            native,
                            machine_name,
                            rest[k].0,
                            machine,
                            rest[k].1,
                        ) == Ok::<Option<Seq<char>>, Seq<char>>(None);
                    assert(host_nodes[k] == rest[k]);
                }
            }
            assert forall|i: int, j: int| 0 <= i < j < r.len() implies name_lt(
                #[trigger] r[i].0,
                #[trigger] r[j].0,
            ) by {
                if j < r0.len() {
                    assert(r[i] == r0[i] && r[j] == r0[j]);
                } else {
                    assert(r[i] == r0[i]);
                    assert(r[j].0 == last.0);
                    let k = choose|k: int|
                        0 <= k < rest.len() && rest[k].0 == (#[trigger] r0[i]).0 && rejection_reason(
                            native,
                            machine_name,
                            rest[k].0,
                            machine,
                            rest[k].1,
                        ) == Ok::<Option<Seq<char>>, Seq<char>>(Some(r0[i].1));
                    assert(host_nodes[k] == rest[k]);
                }
            }
        }
    }
}

/// The host groups that meet some of `names` include every such group, and
/// keep the groups' name order.
proof fn lemma_groups_touching_complete(groups: Seq<(Seq<char>, HostedHostGroupContractView)>, names: Seq<Seq<char>>)
    ensures
        forall|i: int|
            0 <= i < groups_touching(groups, names).len() ==> groups.contains(
                #[trigger] groups_touching(groups, names)[i],
            ) && group_touches(groups_touching(groups, names)[i].1, names),
        forall|k: int|
            0 <= k < groups.len() && group_touches((#[trigger] groups[k]).1, names) ==> groups_touching(
                groups,
                names,
            ).contains(groups[k]),
        sorted_names(groups) ==> sorted_names(groups_touching(groups, names)),
    decreases groups.len(),
{
    if groups.len() > 0 {
        let rest = groups.drop_last();
        let last = groups.last();
        assert(groups[groups.len() - 1] == last);
        lemma_groups_touching_complete(rest, names);
        let g0 = groups_touching(rest, names);
        let g = groups_touching(groups, names);
        assert forall|i: int| 0 <= i < g.len() implies groups.contains(#[trigger] g[i]) && group_touches(
            g[i].1,
            names,
        ) by {
            if i < g0.len() {
                assert(g[i] == g0[i]);
                let k = choose|k: int| 0 <= k < rest.len() && rest[k] == g0[i];
                assert(groups[k] == rest[k]);
            } else {
                assert(g[i] == last);
            }
        }
        assert forall|k: int| 0 <= k < groups.len() && group_touches((#[trigger] groups[k]).1, names) implies g.contains(
            groups[k],
        ) by {
            if k < rest.len() {
                assert(rest[k] == groups[k]);
                assert(g0.contains(rest[k]));
                let m = choose|m: int| 0 <= m < g0.len() && g0[m] == rest[k];
                assert(g[m] == g0[m]);
            } else {
                assert(g[g.len() - 1] == last);
            }
        }
        if sorted_names(groups) {
            assert(sorted_names(rest)) by {
                assert forall|i: int, j: int| 0 <= i < j < rest.len() implies name_lt(
                    #[trigger] rest[i].0,
                    #[trigger] rest[j].0,
                ) by {
                    assert(rest[i] == groups[i] && rest[j] == groups[j]);
                }
            }
            assert forall|i: int, j: int| 0 <= i < j < g.len() implies name_lt(
                #[trigger] g[i].0,
                #[trigger] g[j].0,
            ) by {
                if j < g0.len() {
                    assert(g[i] == g0[i] && g[j] == g0[j]);
                } else {
                    assert(g[i] == g0[i]);
                    assert(g[j] == last);
                    let k = choose|k: int| 0 <= k < rest.len() && rest[k] == g0[i];
                    assert(groups[k] == rest[k]);
                }
            }
        }
    }
}

/// Whether an inventory node named `n` sits on `host`.
pub open spec fn on_host(inventory: HostedInventoryContractView, host: Seq<char>, n: Seq<char>) -> bool {
    exists|j: int|
        0 <= j < inventory.nodes.len() && (#[trigger] inventory.nodes[j]).0 == n && inventory.nodes[j].1.host == host
}

/// The names of the inventory nodes on `host`, in name order.
pub open spec fn host_node_names(inventory: HostedInventoryContractView, host: Seq<char>) -> Seq<Seq<char>> {
    entry_names(nodes_on_host(inventory.nodes, host))
}

/// In entries ordered by name, two positions with the same name are one.
proof fn lemma_sorted_names_distinct<V>(s: Seq<(Seq<char>, V)>, j: int, k: int)
    requires
        sorted_names(s),
        0 <= j < s.len(),
        0 <= k < s.len(),
        s[j].0 == s[k].0,
    ensures
        j == k,
{
    if j < k {
        assert(name_lt(s[j].0, s[k].0));
        lemma_name_lt_irreflexive(s[j].0);
    } else if k < j {
        assert(name_lt(s[k].0, s[j].0));
        lemma_name_lt_irreflexive(s[j].0);
    }
}

/// The candidates and rejected nodes of a placement over the inventory
/// nodes on `host` partition those nodes: candidates, in strictly ascending
/// order, are exactly the nodes that can run the machine; every other node
/// is rejected, once and in name order.
proof fn lemma_host_partition(
    native: MachineArchitecture,
    machine_name: Seq<char>,
    machine: MachineSpec,
    inventory: HostedInventoryContractView,
    host: Seq<char>,
)
    requires
        sorted_names(inventory.nodes),
        nodes_on_host(inventory.nodes, host).len() > 0,
        placement_outcome(native, machine_name, machine, nodes_on_host(inventory.nodes, host)) is Ok,
    ensures
        resolve_architecture(machine.architecture, native) matches Ok(arch) && {
            let (c, r) = placement_outcome(native, machine_name, machine, nodes_on_host(inventory.nodes, host))->Ok_0;
            &&& forall|n: Seq<char>| host_node_names(inventory, host).contains(n) <==> on_host(inventory, host, n)
            &&& strictly_ascending(c)
            &&& sorted_names(r)
            &&& forall|n: Seq<char>|
                on_host(inventory, host, n) <==> (c.contains(n) || exists|k: int|
                    0 <= k < r.len() && (#[trigger] r[k]).0 == n)
            &&& forall|n: Seq<char>|
                !(c.contains(n) && exists|k: int| 0 <= k < r.len() && (#[trigger] r[k]).0 == n)
            &&& forall|j: int|
                0 <= j < inventory.nodes.len() && (#[trigger] inventory.nodes[j]).1.host == host ==> (c.contains(
                    inventory.nodes[j].0,
                ) <==> node_can_run(inventory.nodes[j].1, machine, arch))
        },
{
    let hn = nodes_on_host(inventory.nodes, host);
    let names = host_node_names(inventory, host);
    let (c, r) = placement_outcome(native, machine_name, machine, hn)->Ok_0;
    lemma_nodes_on_host(inventory.nodes, host);
    lemma_nodes_on_host_complete(inventory.nodes, host);
    lemma_placement_outcome(native, machine_name, machine, hn);
    lemma_placement_outcome_complete(native, machine_name, machine, hn);
    lemma_unrejected_or_not(native, machine_name, machine, hn, 0);
    let arch = resolve_architecture(machine.architecture, native)->Ok_0;
    assert forall|n: Seq<char>| names.contains(n) <==> on_host(inventory, host, n) by {
        if names.contains(n) {
            let i = choose|i: int| 0 <= i < names.len() && names[i] == n;
            assert(names[i] == hn[i].0);
            assert(inventory.nodes.contains(hn[i]));
            let j = choose|j: int| 0 <= j < inventory.nodes.len() && inventory.nodes[j] == hn[i];
            assert(inventory.nodes[j].0 == n && inventory.nodes[j].1.host == host);
        }
        if on_host(inventory, host, n) {
            let j = choose|j: int|
                0 <= j < inventory.nodes.len() && (#[trigger] inventory.nodes[j]).0 == n && inventory.nodes[j].1.host
                    == host;
            assert(hn.contains(inventory.nodes[j]));
            let i = choose|i: int| 0 <= i < hn.len() && hn[i] == inventory.nodes[j];
            assert(names[i] == n);
        }
    }
    assert forall|n: Seq<char>|
        on_host(inventory, host, n) <==> (c.contains(n) || exists|k: int| 0 <= k < r.len() && (#[trigger] r[k]).0 == n) by {
        if on_host(inventory, host, n) {
            let j = choose|j: int|
                0 <= j < inventory.nodes.len() && (#[trigger] inventory.nodes[j]).0 == n && inventory.nodes[j].1.host
                    == host;
            assert(hn.contains(inventory.nodes[j]));
            let i = choose|i: int| 0 <= i < hn.len() && hn[i] == inventory.nodes[j];
            match rejection_reason(native, machine_name, hn[i].0, machine, hn[i].1) {
                Ok(Some(why)) => {
                    assert(r.contains((hn[i].0, why)));
                    let k = choose|k: int| 0 <= k < r.len() && r[k] == (hn[i].0, why);
                    assert(r[k].0 == n);
                },
                _ => {},
            }
        }
        if c.contains(n) {
            let i = choose|i: int| 0 <= i < c.len() && c[i] == n;
            let j = choose|j: int|
                0 <= j < hn.len() && hn[j].0 == #[trigger] c[i] && rejection_reason(
                    native,
                    machine_name,
                    hn[j].0,
                    machine,
                    hn[j].1,
                ) == Ok::<Option<Seq<char>>, Seq<char>>(None);
            assert(inventory.nodes.contains(hn[j]));
            let m = choose|m: int| 0 <= m < inventory.nodes.len() && inventory.nodes[m] == hn[j];
            assert(inventory.nodes[m].0 == n && inventory.nodes[m].1.host == host);
        }
        if exists|k: int| 0 <= k < r.len() && (#[trigger] r[k]).0 == n {
            let k = choose|k: int| 0 <= k < r.len() && (#[trigger] r[k]).0 == n;
            let j = choose|j: int|
                0 <= j < hn.len() && hn[j].0 == (#[trigger] r[k]).0 && rejection_reason(
                    native,
                    machine_name,
                    hn[j].0,
                    machine,
                    hn[j].1,
                ) == Ok::<Option<Seq<char>>, Seq<char>>(Some(r[k].1));
            assert(inventory.nodes.contains(hn[j]));
            let m = choose|m: int| 0 <= m < inventory.nodes.len() && inventory.nodes[m] == hn[j];
            assert(inventory.nodes[m].0 == n && inventory.nodes[m].1.host == host);
        }
    }
    assert forall|n: Seq<char>| !(c.contains(n) && exists|k: int| 0 <= k < r.len() && (#[trigger] r[k]).0 == n) by {
        if c.contains(n) && exists|k: int| 0 <= k < r.len() && (#[trigger] r[k]).0 == n {
            let i = choose|i: int| 0 <= i < c.len() && c[i] == n;
            let j = choose|j: int|
                0 <= j < hn.len() && hn[j].0 == #[trigger] c[i] && rejection_reason(
                    native,
                    machine_name,
                    hn[j].0,
                    machine,
                    hn[j].1,
                ) == Ok::<Option<Seq<char>>, Seq<char>>(None);
            let k = choose|k: int| 0 <= k < r.len() && (#[trigger] r[k]).0 == n;
            let j2 = choose|j2: int|
                0 <= j2 < hn.len() && hn[j2].0 == (#[trigger] r[k]).0 && rejection_reason(
                    native,
                    machine_name,
                    hn[j2].0,
                    machine,
                    hn[j2].1,
                ) == Ok::<Option<Seq<char>>, Seq<char>>(Some(r[k].1));
            lemma_sorted_names_distinct(hn, j, j2);
        }
    }
    assert forall|j: int|
        0 <= j < inventory.nodes.len() && (#[trigger] inventory.nodes[j]).1.host == host implies (c.contains(
        inventory.nodes[j].0,
    ) <==> node_can_run(inventory.nodes[j].1, machine, arch)) by {
        assert(hn.contains(inventory.nodes[j]));
        let i = choose|i: int| 0 <= i < hn.len() && hn[i] == inventory.nodes[j];
        lemma_candidacy_iff_can_run(native, machine_name, hn[i].0, machine, hn[i].1);
        if c.contains(inventory.nodes[j].0) {
            let a = choose|a: int| 0 <= a < c.len() && c[a] == inventory.nodes[j].0;
            let b = choose|b: int|
                0 <= b < hn.len() && hn[b].0 == #[trigger] c[a] && rejection_reason(
                    native,
                    machine_name,
                    hn[b].0,
                    machine,
                    hn[b].1,
                ) == Ok::<Option<Seq<char>>, Seq<char>>(None);
            lemma_sorted_names_distinct(hn, i, b);
        }
    }
}

/// The host groups that meet a node on `host` come in strictly ascending
/// order, are exactly the inventory's groups that meet such a node, and
/// carry each group's scheduler as its policy.
proof fn lemma_host_groups_part(inventory: HostedInventoryContractView, host: Seq<char>)
    requires
        sorted_names(inventory.host_groups),
    ensures
        ({
            let groups = groups_touching(inventory.host_groups, host_node_names(inventory, host));
            let gn = entry_names(groups);
            let policies = group_policies(groups);
            &&& strictly_ascending(gn)
            &&& forall|g: Seq<char>|
                gn.contains(g) <==> exists|k: int|
                    0 <= k < inventory.host_groups.len() && (#[trigger] inventory.host_groups[k]).0 == g
                        && group_touches(inventory.host_groups[k].1, host_node_names(inventory, host))
            &&& policies.len() == gn.len()
            &&& forall|i: int| 0 <= i < gn.len() ==> #[trigger] lookup(inventory.host_groups, gn[i]) is Some
            &&& forall|i: int|
                0 <= i < gn.len() ==> #[trigger] policies[i] == (
                    gn[i],
                    lookup(inventory.host_groups, gn[i])->Some_0.scheduler,
                )
        }),
{
    let names = host_node_names(inventory, host);
    let groups = groups_touching(inventory.host_groups, names);
    let gn = entry_names(groups);
    let policies = group_policies(groups);
    lemma_groups_touching_complete(inventory.host_groups, names);
    assert forall|i: int, j: int| 0 <= i < j < gn.len() implies name_lt(#[trigger] gn[i], #[trigger] gn[j]) by {
        assert(gn[i] == groups[i].0 && gn[j] == groups[j].0);
    }
    assert(strictly_ascending(gn));
    assert(policies.len() == gn.len());
    assert forall|g: Seq<char>|
        gn.contains(g) <==> exists|k: int|
            0 <= k < inventory.host_groups.len() && (#[trigger] inventory.host_groups[k]).0 == g && group_touches(
                inventory.host_groups[k].1,
                names,
            ) by {
        if gn.contains(g) {
            let i = choose|i: int| 0 <= i < gn.len() && gn[i] == g;
            assert(gn[i] == groups[i].0);
            assert(inventory.host_groups.contains(groups[i]));
            let k = choose|k: int| 0 <= k < inventory.host_groups.len() && inventory.host_groups[k] == groups[i];
            assert(inventory.host_groups[k].0 == g);
        }
        if exists|k: int|
            0 <= k < inventory.host_groups.len() && (#[trigger] inventory.host_groups[k]).0 == g && group_touches(
                inventory.host_groups[k].1,
                names,
            ) {
            let k = choose|k: int|
                0 <= k < inventory.host_groups.len() && (#[trigger] inventory.host_groups[k]).0 == g && group_touches(
                    inventory.host_groups[k].1,
                    names,
                );
            assert(groups.contains(inventory.host_groups[k]));
            let i = choose|i: int| 0 <= i < groups.len() && groups[i] == inventory.host_groups[k];
            assert(gn[i] == g);
        }
    }
    assert forall|i: int| 0 <= i < gn.len() implies #[trigger] lookup(inventory.host_groups, gn[i]) is Some
        && policies[i] == (gn[i], lookup(inventory.host_groups, gn[i])->Some_0.scheduler) by {
        assert(gn[i] == groups[i].0);
        assert(policies[i] == (groups[i].0, groups[i].1.scheduler));
        assert(inventory.host_groups.contains(groups[i]));
        let k = choose|k: int| 0 <= k < inventory.host_groups.len() && inventory.host_groups[k] == groups[i];
        lemma_find_sorted(inventory.host_groups, gn[i], k);
    }
}

/// A hosted machine's summary partitions the inventory nodes on its host,
/// a non-empty set: the candidates, in strictly ascending name order, are
/// exactly the nodes that can run the machine, and every other node is
/// rejected, each once and in name order. Its host groups are, in strictly
/// ascending order, exactly the inventory's groups that meet a node on the
/// host, and each group's policy is that group's scheduler. (The
/// configuration's node and host-group maps are ordered by name, as every
/// map of names is.)
pub proof fn lemma_summary_partitions_host_nodes(cfg: PortConfig, native: MachineArchitecture, machine_name: Seq<char>)
    requires
        summary_spec(cfg, native, machine_name) matches Ok(Some(_)),
        sorted_names(cfg.nodes@),
        sorted_names(cfg.host_groups@),
    ensures
        summary_spec(cfg, native, machine_name) matches Ok(Some(s)) && inventory_spec(cfg) matches Ok(inventory)
            && lookup(cfg.machines@, machine_name) matches Some(machine) && resolve_architecture(
            machine.architecture,
            native,
        ) matches Ok(arch) && {
            let host = machine.host@;
            let rejected = s.rejected_nodes;
            &&& host_node_names(inventory, host).len() > 0
            &&& forall|n: Seq<char>| host_node_names(inventory, host).contains(n) <==> on_host(inventory, host, n)
            &&& strictly_ascending(s.candidate_nodes)
            &&& sorted_names(rejected)
            &&& forall|n: Seq<char>|
                on_host(inventory, host, n) <==> (s.candidate_nodes.contains(n) || exists|k: int|
                    0 <= k < rejected.len() && (#[trigger] rejected[k]).0 == n)
            &&& forall|n: Seq<char>|
                !(s.candidate_nodes.contains(n) && exists|k: int|
                    0 <= k < rejected.len() && (#[trigger] rejected[k]).0 == n)
            &&& forall|j: int|
                0 <= j < inventory.nodes.len() && (#[trigger] inventory.nodes[j]).1.host == host ==> (
                s.candidate_nodes.contains(inventory.nodes[j].0) <==> node_can_run(
                    inventory.nodes[j].1,
                    machine,
                    arch,
                ))
            &&& strictly_ascending(s.host_groups)
            &&& forall|g: Seq<char>|
                s.host_groups.contains(g) <==> exists|k: int|
                    0 <= k < inventory.host_groups.len() && (#[trigger] inventory.host_groups[k]).0 == g
                        && group_touches(inventory.host_groups[k].1, host_node_names(inventory, host))
            &&& s.host_group_policies.len() == s.host_groups.len()
            &&& forall|i: int|
                0 <= i < s.host_groups.len() ==> #[trigger] lookup(inventory.host_groups, s.host_groups[i]) is Some
            &&& forall|i: int|
                0 <= i < s.host_groups.len() ==> #[trigger] s.host_group_policies[i] == (
                    s.host_groups[i],
                    lookup(inventory.host_groups, s.host_groups[i])->Some_0.scheduler,
                )
        },
{
    let s = summary_spec(cfg, native, machine_name)->Ok_0->Some_0;
    let inventory = inventory_spec(cfg)->Ok_0;
    let machine = lookup(cfg.machines@, machine_name)->Some_0;
    let host = machine.host@;
    let hn = nodes_on_host(inventory.nodes, host);
    assert(hn.len() > 0);
    assert(host_node_names(inventory, host).len() == hn.len());
    assert(s.candidate_nodes == placement_outcome(native, machine_name, machine, hn)->Ok_0.0);
    assert(s.rejected_nodes == placement_outcome(native, machine_name, machine, hn)->Ok_0.1);
    assert(s.host_groups == entry_names(groups_touching(inventory.host_groups, host_node_names(inventory, host))));
    assert(s.host_group_policies == group_policies(
        groups_touching(inventory.host_groups, host_node_names(inventory, host)),
    ));
    lemma_inventory_copies_nodes_and_groups(cfg);
    assert(sorted_names(inventory.nodes)) by {
        assert forall|i: int, j: int| 0 <= i < j < inventory.nodes.len() implies name_lt(
            #[trigger] inventory.nodes[i].0,
            #[trigger] inventory.nodes[j].0,
        ) by {
            assert(inventory.nodes[i].0 == cfg.nodes@[i].0);
            assert(inventory.nodes[j].0 == cfg.nodes@[j].0);
        }
    }
    assert(sorted_names(inventory.host_groups)) by {
        assert forall|i: int, j: int| 0 <= i < j < inventory.host_groups.len() implies name_lt(
            #[trigger] inventory.host_groups[i].0,
            #[trigger] inventory.host_groups[j].0,
        ) by {
            assert(inventory.host_groups[i].0 == cfg.host_groups@[i].0);
            assert(inventory.host_groups[j].0 == cfg.host_groups@[j].0);
        }
    }
    lemma_host_partition(native, machine_name, machine, inventory, host);
    lemma_host_groups_part(inventory, host);
}


// ---------------------------------------------------------------------------
// Hosts, registrations, capabilities, K3s topology and service policies

/// What a host that passes its check satisfies: a hosted connection names a
/// non-blank control plane; an ssh connection has a non-blank destination, a
/// non-blank user and a non-zero port; every planned Firecracker PVM lane
/// declares a host kit and no research-only lane does.
pub open spec fn host_admitted(host: HostSpec) -> bool {
    &&& match host.connection {
        HostConnection::Local => true,
        HostConnection::HostedControlPlane { control_plane } => !is_blank(control_plane@),
        HostConnection::Ssh { destination, user, port } => !is_blank(destination@) && !is_blank(user@) && port
            != 0,
    }
    &&& forall|i: int|
        0 <= i < host.firecracker.pvm_lanes@.len() ==> match (#[trigger] host.firecracker.pvm_lanes@[i]).decision {
            PvmLaneDecision::Planned => host.firecracker.pvm_lanes@[i].host_kit is Some,
            PvmLaneDecision::ResearchOnly => host.firecracker.pvm_lanes@[i].host_kit is None,
        }
}

/// A host passes its check only when its connection is complete (an ssh
/// connection names a destination, a user and a port) and its PVM lanes
/// declare host kits exactly where they are planned; a host whose connection
/// is incomplete is refused.
pub proof fn lemma_host_check_admits_only_complete_hosts(name: Seq<char>, host: HostSpec)
    ensures
        host_check(name, host) is Ok ==> host_admitted(host),
        !(match host.connection {
            HostConnection::Local => true,
            HostConnection::HostedControlPlane { control_plane } => !is_blank(control_plane@),
            HostConnection::Ssh { destination, user, port } => !is_blank(destination@) && !is_blank(user@)
                && port != 0,
        }) ==> host_check(name, host) is Err,
{
    let lanes = host.firecracker.pvm_lanes@;
    let check = |i: int| crate::validate::firecracker_lane_check(name, lanes[i]);
    if host_check(name, host) is Ok {
        lemma_first_failure_ok_all(lanes.len() as int, check);
        assert forall|i: int| 0 <= i < lanes.len() implies match (#[trigger] lanes[i]).decision {
            PvmLaneDecision::Planned => lanes[i].host_kit is Some,
            PvmLaneDecision::ResearchOnly => lanes[i].host_kit is None,
        } by {
            assert(check(i) is Ok);
        }
    }
}

/// A configuration that validates has only hosts that pass their check.
pub proof fn lemma_validated_config_hosts(cfg: PortConfig, native: MachineArchitecture)
    requires
        validate_spec(cfg, native) is Ok,
    ensures
        forall|h: int| 0 <= h < cfg.hosts@.len() ==> host_admitted((#[trigger] cfg.hosts@[h]).1),
{
    let cps = cfg.control_planes@;
    let hosts = cfg.hosts@;
    let cp_check = |i: int| control_plane_stage_check(cps, i);
    let h_check = |i: int| host_check(hosts[i].0, hosts[i].1);
    assert(crate::checks::first_failure(cps.len() as int, cp_check) is Ok);
    assert(crate::checks::first_failure(hosts.len() as int, h_check) is Ok);
    lemma_first_failure_ok_all(hosts.len() as int, h_check);
    assert forall|h: int| 0 <= h < hosts.len() implies host_admitted((#[trigger] hosts[h]).1) by {
        assert(h_check(h) is Ok);
        lemma_host_check_admits_only_complete_hosts(hosts[h].0, hosts[h].1);
    }
}

/// A node is admitted as registered with a control plane only when the
/// inventory holds it under that very control plane: the contract carries
/// the inventory's record of the node, its name, the trimmed endpoint and
/// the registration's freshness window. A node the inventory lacks, or holds
/// under another control plane, is refused.
pub proof fn lemma_registration_needs_the_node_control_plane(
    inventory: HostedInventoryContractView,
    control_plane: Seq<char>,
    node_name: Seq<char>,
    registration: HostedNodeRegistration,
)
    ensures
        registered_spec(inventory, control_plane, node_name, registration) matches Ok(contract) ==> {
            &&& lookup(inventory.nodes, node_name) == Some(contract.node)
            &&& contract.node.control_plane == control_plane
            &&& contract.node_name == node_name
            &&& contract.endpoint == trim(registration.endpoint@)
            &&& freshness_spec(registration, control_plane, node_name) == Ok::<
                crate::model::HostedNodeFreshnessContract,
                Seq<char>,
            >(contract.freshness)
        },
        !(lookup(inventory.nodes, node_name) matches Some(node) && node.control_plane == control_plane)
            ==> registered_spec(inventory, control_plane, node_name, registration) is Err,
{
}

/// One capability summary is within another exactly when every provider,
/// platform, substrate, architecture, protection mode and PVM lane it
/// advertises is also advertised by the other.
pub proof fn lemma_capability_subset_is_containment(a: HostedNodeCapabilitiesView, b: HostedNodeCapabilitiesView)
    ensures
        caps_subset(a, b) <==> {
            &&& forall|x: crate::model::HostProvider| a.providers.contains(x) ==> b.providers.contains(x)
            &&& forall|x: crate::model::HostPlatform| a.platforms.contains(x) ==> b.platforms.contains(x)
            &&& forall|x: crate::model::ExecutionSubstrate| a.substrates.contains(x) ==> b.substrates.contains(x)
            &&& forall|x: MachineArchitecture| a.architectures.contains(x) ==> b.architectures.contains(x)
            &&& forall|x: ProtectionMode| a.protection_modes.contains(x) ==> b.protection_modes.contains(x)
            &&& forall|x: HostedPvmCapabilityView| a.pvm_lanes.contains(x) ==> b.pvm_lanes.contains(x)
        },
{
    if caps_subset(a, b) {
        assert forall|x: ProtectionMode| a.protection_modes.contains(x) implies b.protection_modes.contains(x) by {
            let i = choose|i: int| 0 <= i < a.protection_modes.len() && a.protection_modes[i] == x;
            assert(b.protection_modes.contains(a.protection_modes[i]));
        }
        assert forall|x: crate::model::HostProvider| a.providers.contains(x) implies b.providers.contains(x) by {
            let i = choose|i: int| 0 <= i < a.providers.len() && a.providers[i] == x;
            assert(b.providers.contains(a.providers[i]));
        }
        assert forall|x: crate::model::HostPlatform| a.platforms.contains(x) implies b.platforms.contains(x) by {
            let i = choose|i: int| 0 <= i < a.platforms.len() && a.platforms[i] == x;
            assert(b.platforms.contains(a.platforms[i]));
        }
        assert forall|x: crate::model::ExecutionSubstrate| a.substrates.contains(x) implies b.substrates.contains(
            x,
        ) by {
            let i = choose|i: int| 0 <= i < a.substrates.len() && a.substrates[i] == x;
            assert(b.substrates.contains(a.substrates[i]));
        }
        assert forall|x: MachineArchitecture| a.architectures.contains(x) implies b.architectures.contains(x) by {
            let i = choose|i: int| 0 <= i < a.architectures.len() && a.architectures[i] == x;
            assert(b.architectures.contains(a.architectures[i]));
        }
        assert forall|x: HostedPvmCapabilityView| a.pvm_lanes.contains(x) implies b.pvm_lanes.contains(x) by {
            let i = choose|i: int| 0 <= i < a.pvm_lanes.len() && a.pvm_lanes[i] == x;
            assert(b.pvm_lanes.contains(a.pvm_lanes[i]));
        }
    }
    if (forall|x: crate::model::HostProvider| a.providers.contains(x) ==> b.providers.contains(x)) && (forall|
        x: crate::model::HostPlatform,
    | a.platforms.contains(x) ==> b.platforms.contains(x)) && (forall|x: crate::model::ExecutionSubstrate|
        a.substrates.contains(x) ==> b.substrates.contains(x)) && (forall|x: MachineArchitecture|
        a.architectures.contains(x) ==> b.architectures.contains(x)) && (forall|x: ProtectionMode|
        a.protection_modes.contains(x) ==> b.protection_modes.contains(x)) && (forall|x: HostedPvmCapabilityView|
        a.pvm_lanes.contains(x) ==> b.pvm_lanes.contains(x)) {
        assert forall|i: int| 0 <= i < a.providers.len() implies b.providers.contains(#[trigger] a.providers[i]) by {
            assert(a.providers.contains(a.providers[i]));
        }
        assert forall|i: int| 0 <= i < a.platforms.len() implies b.platforms.contains(#[trigger] a.platforms[i]) by {
            assert(a.platforms.contains(a.platforms[i]));
        }
        assert forall|i: int| 0 <= i < a.substrates.len() implies b.substrates.contains(
            #[trigger] a.substrates[i],
        ) by {
            assert(a.substrates.contains(a.substrates[i]));
        }
        assert forall|i: int| 0 <= i < a.architectures.len() implies b.architectures.contains(
            #[trigger] a.architectures[i],
        ) by {
            assert(a.architectures.contains(a.architectures[i]));
        }
        assert forall|i: int| 0 <= i < a.protection_modes.len() implies b.protection_modes.contains(
            #[trigger] a.protection_modes[i],
        ) by {
            assert(a.protection_modes.contains(a.protection_modes[i]));
        }
        assert forall|i: int| 0 <= i < a.pvm_lanes.len() implies b.pvm_lanes.contains(#[trigger] a.pvm_lanes[i]) by {
            assert(a.pvm_lanes.contains(a.pvm_lanes[i]));
        }
    }
}

/// A hosted K3s cluster's topology is HA-eligible exactly when it has at
/// least the minimum number of control-plane servers and spreads them with
/// the spread scheduler; any other scheduler, or fewer servers, leaves it
/// non-HA.
pub proof fn lemma_ha_needs_enough_spread_servers(c: K3sClusterSpec)
    ensures
        (ha_posture_spec(c) == HostedK3sHaTopologyPosture::HaEligibleTopology) <==> (c.server_machines@.len()
            >= 3 && c.control_plane_scheduler == HostedSchedulerPolicy::Spread),
        ha_posture_spec(c) == HostedK3sHaTopologyPosture::HaEligibleTopology || ha_posture_spec(c)
            == HostedK3sHaTopologyPosture::NonHaTopology,
{
    assert(HOSTED_K3S_REAL_HA_MIN_CONTROL_PLANES == 3);
}

/// A service policy is accepted exactly when: a sandbox never restarts and
/// runs no health check; a command health check has at least one command
/// token; and no health command is given without a command health check.
pub proof fn lemma_service_policy_accepted_iff(policy: ServicePolicy, kind: ServiceKind)
    ensures
        (service_policy_spec(policy, kind) is Ok) <==> {
            &&& kind == ServiceKind::Sandbox ==> policy.restart == ServiceRestartPolicy::Never
                && policy.healthcheck.policy == ServiceHealthPolicy::NoCheck
            &&& policy.healthcheck.policy == ServiceHealthPolicy::Command ==> policy.healthcheck.command@.len() > 0
            &&& policy.healthcheck.policy == ServiceHealthPolicy::NoCheck ==> policy.healthcheck.command@.len() == 0
        },
{
}


// ---------------------------------------------------------------------------
// Field checks

/// A control plane passes its check exactly when its endpoint, audience,
/// auth header and token environment variable are all non-blank.
pub proof fn lemma_control_plane_check_iff(name: Seq<char>, cp: HostedControlPlaneSpec)
    ensures
        (control_plane_check(name, cp) is Ok) <==> {
            &&& !is_blank(cp.endpoint@)
            &&& !is_blank(cp.audience@)
            &&& !is_blank(cp.auth.header@)
            &&& cp.auth.source matches HostedAuthTokenSource::Env { variable } && !is_blank(variable@)
        },
{
}

/// A registration has a freshness window exactly when its endpoint and
/// token are non-blank, its ttl is positive, it was refreshed no earlier
/// than it registered, and the window's end fits in 64 bits.
pub proof fn lemma_freshness_accepted_iff(
    registration: HostedNodeRegistration,
    control_plane: Seq<char>,
    node_name: Seq<char>,
)
    ensures
        (freshness_spec(registration, control_plane, node_name) is Ok) <==> {
            &&& !is_blank(registration.endpoint@)
            &&& !is_blank(registration.token@)
            &&& registration.ttl_seconds > 0
            &&& registration.registered_at <= registration.refreshed_at
            &&& registration.refreshed_at + registration.ttl_seconds <= u64::MAX
        },
{
}

/// A PVM host kit passes its check for `expected` exactly when its package
/// fields and binary name are non-blank, it targets Linux on `expected`, a
/// binary environment variable (if any) is non-blank, no boot argument is
/// blank, and a kit that needs a custom host kernel gives boot arguments.
pub proof fn lemma_host_kit_check_iff(context: Seq<char>, expected: MachineArchitecture, kit: PvmHostKit)
    ensures
        (host_kit_check(context, expected, kit) is Ok) <==> {
            &&& !is_blank(kit.package.name@)
            &&& !is_blank(kit.package.version@)
            &&& !is_blank(kit.package.host_kernel_release@)
            &&& !is_blank(kit.package.firecracker_build@)
            &&& kit.host_platform == HostPlatform::Linux
            &&& kit.host_architecture == expected
            &&& !is_blank(kit.firecracker_binary_name@)
            &&& kit.firecracker_binary_env matches Some(env) ==> !is_blank(env@)
            &&& forall|i: int| 0 <= i < kit.host_boot_args@.len() ==> !is_blank(#[trigger] kit.host_boot_args@[i]@)
            &&& kit.requires_custom_host_kernel ==> kit.host_boot_args@.len() > 0
        },
{
}

/// An artifact store passes its check exactly when an OCI registry with
/// basic credentials names non-blank username and password variables.
pub proof fn lemma_store_check_iff(artifact_name: Seq<char>, direction: Seq<char>, store: ArtifactStore)
    ensures
        (store_check(artifact_name, direction, store) is Ok) <==> (store matches ArtifactStore::OciRegistry {
            auth: OciRegistryAuth::BasicEnv { username_variable, password_variable },
            ..
        } ==> !is_blank(username_variable@) && !is_blank(password_variable@)),
{
}

/// An artifact that passes its check for a machine declares variants, no
/// two of them for the same selector.
pub proof fn lemma_artifact_check_variants_distinct(
    machine_name: Seq<char>,
    kind: Seq<char>,
    artifact_name: Seq<char>,
    artifact: ArtifactSpec,
)
    ensures
        artifact_spec_check(machine_name, kind, artifact_name, artifact) is Ok ==> {
            &&& artifact.variants@.len() > 0
            &&& forall|i: int, j: int|
                0 <= i < j < artifact.variants@.len() ==> (#[trigger] artifact.variants@[i]).selector
                    != (#[trigger] artifact.variants@[j]).selector
        },
{
    let vs = artifact.variants@;
    let check = |i: int| crate::validate::variant_duplicate_check(machine_name, kind, artifact_name, vs, i);
    if artifact_spec_check(machine_name, kind, artifact_name, artifact) is Ok {
        lemma_first_failure_ok_all(vs.len() as int, check);
        assert forall|i: int, j: int| 0 <= i < j < vs.len() implies (#[trigger] vs[i]).selector
            != (#[trigger] vs[j]).selector by {
            assert(check(j) is Ok);
        }
    }
}


// ---------------------------------------------------------------------------
// Nodes, host groups, clusters and K3s clusters that pass their checks

/// The control plane a configured node resolves through, when its host is
/// configured and reached through a hosted control plane.
pub open spec fn configured_node_control_plane(cfg: PortConfig, node_name: Seq<char>) -> Option<Seq<char>> {
    match lookup(cfg.nodes@, node_name) {
        Some(node) => match lookup(cfg.hosts@, node.host@) {
            Some(host) => match host.connection {
                HostConnection::HostedControlPlane { control_plane } => Some(control_plane@),
                _ => None,
            },
            None => None,
        },
        None => None,
    }
}

/// What a node that passes its check satisfies: its host is configured and
/// reached through a hosted control plane; it has a runtime root and every
/// capability list but the lanes is non-empty; each PVM lane's architecture
/// is advertised, only an x86_64 lane may be ready or planned, a ready lane
/// declares a host kit, a research-only lane none, and a node with a ready
/// or planned lane advertises protection mode PVM.
pub open spec fn node_admitted(cfg: PortConfig, node: HostedNodeSpec) -> bool {
    let caps = node.capabilities;
    let lanes = caps.pvm_lanes@;
    &&& lookup(cfg.hosts@, node.host@) matches Some(host) && host.connection is HostedControlPlane
    &&& node.runtime_root@.len() > 0
    &&& caps.providers@.len() > 0 && caps.platforms@.len() > 0 && caps.substrates@.len() > 0
        && caps.architectures@.len() > 0 && caps.protection_modes@.len() > 0
    &&& forall|i: int|
        0 <= i < lanes.len() ==> {
            let lane = #[trigger] lanes[i];
            &&& caps.architectures@.contains(lane.architecture)
            &&& lane.state != PvmCapabilityState::ResearchOnly ==> lane.architecture == MachineArchitecture::X86_64
            &&& lane.state == PvmCapabilityState::Ready ==> lane.host_kit is Some
            &&& lane.state == PvmCapabilityState::ResearchOnly ==> lane.host_kit is None
            &&& lane.state != PvmCapabilityState::ResearchOnly ==> caps.protection_modes@.contains(
                ProtectionMode::Pvm,
            )
        }
}

/// A node that passes its check meets what such a node satisfies.
pub proof fn lemma_node_check_admits(cfg: PortConfig, node_name: Seq<char>, node: HostedNodeSpec)
    ensures
        node_check(cfg, node_name, node) is Ok ==> node_admitted(cfg, node),
{
    let caps = node.capabilities;
    let lanes = caps.pvm_lanes@;
    let check = |i: int| crate::validate::node_lane_check(node_name, caps, lanes[i]);
    if node_check(cfg, node_name, node) is Ok {
        lemma_first_failure_ok_all(lanes.len() as int, check);
        assert forall|i: int| 0 <= i < lanes.len() implies {
            let lane = #[trigger] lanes[i];
            &&& caps.architectures@.contains(lane.architecture)
            &&& lane.state != PvmCapabilityState::ResearchOnly ==> lane.architecture == MachineArchitecture::X86_64
            &&& lane.state == PvmCapabilityState::Ready ==> lane.host_kit is Some
            &&& lane.state == PvmCapabilityState::ResearchOnly ==> lane.host_kit is None
            &&& lane.state != PvmCapabilityState::ResearchOnly ==> caps.protection_modes@.contains(
                ProtectionMode::Pvm,
            )
        } by {
            assert(check(i) is Ok);
            if lanes[i].state != PvmCapabilityState::ResearchOnly {
                assert(crate::validate::has_non_research_lane(caps));
            }
        }
    }
}

/// A host group that passes its check has members, and every member is a
/// configured node resolving through the same control plane as the first.
pub proof fn lemma_group_check_admits(cfg: PortConfig, group_name: Seq<char>, group: HostedHostGroupSpec)
    ensures
        group_check(cfg, group_name, group) is Ok ==> {
            &&& group.nodes@.len() > 0
            &&& forall|i: int|
                0 <= i < group.nodes@.len() ==> configured_node_control_plane(cfg, (#[trigger] group.nodes@[i])@)
                    is Some && configured_node_control_plane(cfg, group.nodes@[i]@)
                    == configured_node_control_plane(cfg, group.nodes@[0]@)
        },
{
    let check = |i: int| crate::validate::group_member_check(cfg, group_name, group, i);
    if group_check(cfg, group_name, group) is Ok {
        lemma_first_failure_ok_all(group.nodes@.len() as int, check);
        assert(check(0) is Ok);
        assert forall|i: int| 0 <= i < group.nodes@.len() implies configured_node_control_plane(
            cfg,
            (#[trigger] group.nodes@[i])@,
        ) is Some && configured_node_control_plane(cfg, group.nodes@[i]@) == configured_node_control_plane(
            cfg,
            group.nodes@[0]@,
        ) by {
            assert(check(i) is Ok);
        }
    }
}

/// A local cluster that passes its check asks for one machine of the local
/// provider; that machine is configured, runs Firecracker in standard
/// protection on a local Linux host of the local provider, and keeps its
/// root filesystem writable; the cluster names a machine, a non-blank
/// version override if any, and no blank argument; its bootstrap stages at
/// an absolute guest path from an install script and a binary that name
/// files, with a named guest profile requiring at least one command, none
/// blank; and its lifecycle has a health command with no blank word, an
/// absolute kubeconfig path and an API forward target.
pub proof fn lemma_cluster_check_admits(cfg: PortConfig, name: Seq<char>, c: ClusterSpec)
    ensures
        cluster_check(cfg, name, c) is Ok ==> {
            let profile = c.bootstrap.guest_profile;
            &&& c.provider == ClusterProvider::Local
            &&& c.count == 1
            &&& !is_blank(c.machine@)
            &&& c.version matches Some(v) ==> !is_blank(v@)
            &&& forall|i: int| 0 <= i < c.args@.len() ==> !is_blank((#[trigger] c.args@[i])@)
            &&& c.bootstrap.stage_root@.len() > 0 && c.bootstrap.stage_root@[0] == '/'
            &&& crate::text::path_has_file_name(c.bootstrap.install_script@)
            &&& crate::text::path_has_file_name(c.bootstrap.binary@)
            &&& !is_blank(profile.name@)
            &&& profile.required_commands@.len() > 0
            &&& forall|i: int|
                0 <= i < profile.required_commands@.len() ==> !is_blank((#[trigger] profile.required_commands@[i])@)
            &&& c.lifecycle.health_command@.len() > 0
            &&& forall|i: int|
                0 <= i < c.lifecycle.health_command@.len() ==> !is_blank(
                    (#[trigger] c.lifecycle.health_command@[i])@,
                )
            &&& c.lifecycle.kubeconfig_path@.len() > 0 && c.lifecycle.kubeconfig_path@[0] == '/'
            &&& !is_blank(c.lifecycle.api_forward_target@)
            &&& lookup(cfg.machines@, c.machine@) matches Some(machine) && lookup(cfg.hosts@, machine.host@)
                matches Some(host) && host.connection is Local && host.provider == HostProvider::Local
                && host.platform == HostPlatform::Linux && machine.substrate == ExecutionSubstrate::Firecracker
                && machine.protection_mode == ProtectionMode::Standard && !machine.rootfs_read_only
        },
{
    if cluster_check(cfg, name, c) is Ok {
        let profile = c.bootstrap.guest_profile;
        assert forall|i: int| 0 <= i < c.args@.len() implies !is_blank((#[trigger] c.args@[i])@) by {
            if is_blank(c.args@[i]@) {
                assert(crate::validate::any_blank(c.args@));
            }
        }
        assert forall|i: int| 0 <= i < profile.required_commands@.len() implies !is_blank(
            (#[trigger] profile.required_commands@[i])@,
        ) by {
            if is_blank(profile.required_commands@[i]@) {
                assert(crate::validate::any_blank(profile.required_commands@));
            }
        }
        assert forall|i: int| 0 <= i < c.lifecycle.health_command@.len() implies !is_blank(
            (#[trigger] c.lifecycle.health_command@[i])@,
        ) by {
            if is_blank(c.lifecycle.health_command@[i]@) {
                assert(crate::validate::any_blank(c.lifecycle.health_command@));
            }
        }
    }
}

/// A hosted K3s cluster that passes its check names a configured control
/// plane and a configured host group that resolves through it, has at least
/// one control-plane machine, an `https://` API endpoint, a non-blank
/// version override if any and no blank server or worker argument; every
/// machine it names is non-blank, serves in one role only, and is a
/// configured, volume-less Firecracker machine on a Linux host reached
/// through the cluster's control plane, whose hosted summary lists the
/// cluster's host group and at least one candidate node.
pub proof fn lemma_k3s_check_admits(cfg: PortConfig, native: MachineArchitecture, name: Seq<char>, c: K3sClusterSpec)
    ensures
        k3s_check(cfg, native, name, c) is Ok ==> {
            let machines = views(crate::cluster_checks::k3s_machines(c));
            &&& !is_blank(c.control_plane@)
            &&& has_name(cfg.control_planes@, c.control_plane@)
            &&& lookup(cfg.host_groups@, c.host_group@) matches Some(group) && group.nodes@.len() > 0
                && configured_node_control_plane(cfg, group.nodes@[0]@) == Some(c.control_plane@)
            &&& c.server_machines@.len() > 0
            &&& starts_with(c.api_endpoint@, "https://"@)
            &&& c.version matches Some(v) ==> !is_blank(v@)
            &&& forall|i: int| 0 <= i < c.server_args@.len() ==> !is_blank((#[trigger] c.server_args@[i])@)
            &&& forall|i: int| 0 <= i < c.worker_args@.len() ==> !is_blank((#[trigger] c.worker_args@[i])@)
            &&& forall|i: int| 0 <= i < machines.len() ==> !is_blank(#[trigger] machines[i])
            &&& forall|i: int| 0 <= i < machines.len() ==> k3s_member_admitted(cfg, native, c, #[trigger] machines[i])
            &&& forall|i: int, j: int| 0 <= i < j < machines.len() ==> #[trigger] machines[i] != #[trigger] machines[j]
        },
{
    let machines = views(crate::cluster_checks::k3s_machines(c));
    let check = |i: int| crate::cluster_checks::k3s_member_check(cfg, native, name, c, i);
    if k3s_check(cfg, native, name, c) is Ok {
        assert(crate::cluster_checks::k3s_shape_check(cfg, name, c) is Ok);
        assert forall|i: int| 0 <= i < c.server_args@.len() implies !is_blank((#[trigger] c.server_args@[i])@) by {
            if is_blank(c.server_args@[i]@) {
                assert(crate::validate::any_blank(c.server_args@));
            }
        }
        assert forall|i: int| 0 <= i < c.worker_args@.len() implies !is_blank((#[trigger] c.worker_args@[i])@) by {
            if is_blank(c.worker_args@[i]@) {
                assert(crate::validate::any_blank(c.worker_args@));
            }
        }
        lemma_first_failure_ok_all(crate::cluster_checks::k3s_machines(c).len() as int, check);
        assert forall|i: int| 0 <= i < machines.len() implies !is_blank(#[trigger] machines[i]) by {
            assert(check(i) is Ok);
        }
        assert forall|i: int| 0 <= i < machines.len() implies k3s_member_admitted(cfg, native, c, #[trigger] machines[i]) by {
            assert(check(i) is Ok);
        }
        assert forall|i: int, j: int| 0 <= i < j < machines.len() implies #[trigger] machines[i]
            != #[trigger] machines[j] by {
            assert(check(j) is Ok);
            if machines[i] == machines[j] {
                assert(crate::machine_checks::repeats_earlier(machines, j));
            }
        }
    }
}

/// What a machine of a K3s cluster that passes its check satisfies: it is
/// configured, has no volume, runs Firecracker on a configured Linux host
/// reached through the cluster's control plane, and its hosted summary
/// lists the cluster's host group and at least one candidate node.
pub open spec fn k3s_member_admitted(
    cfg: PortConfig,
    native: MachineArchitecture,
    c: K3sClusterSpec,
    machine_name: Seq<char>,
) -> bool {
    &&& match lookup(cfg.machines@, machine_name) {
        Some(machine) => {
            &&& machine.volumes@.len() == 0
            &&& machine.substrate == ExecutionSubstrate::Firecracker
            &&& match lookup(cfg.hosts@, machine.host@) {
                Some(host) => {
                    &&& host.platform == HostPlatform::Linux
                    &&& host.connection matches HostConnection::HostedControlPlane { control_plane }
                        && control_plane@ == c.control_plane@
                },
                None => false,
            }
        },
        None => false,
    }
    &&& summary_spec(cfg, native, machine_name) matches Ok(Some(summary)) && summary.host_groups.contains(
        c.host_group@,
    ) && summary.candidate_nodes.len() > 0
}

/// In a configuration that validates, every control plane, node, host
/// group, artifact store, local cluster and hosted K3s cluster meets what
/// passing its check means.
pub proof fn lemma_validated_config_stages(cfg: PortConfig, native: MachineArchitecture)
    requires
        validate_spec(cfg, native) is Ok,
    ensures
        forall|i: int|
            0 <= i < cfg.control_planes@.len() ==> ((#[trigger] cfg.control_planes@[i]).1.auth.source matches
                HostedAuthTokenSource::Env { variable } && !is_blank(variable@)),
        forall|i: int| 0 <= i < cfg.nodes@.len() ==> node_admitted(cfg, (#[trigger] cfg.nodes@[i]).1),
        forall|i: int|
            0 <= i < cfg.host_groups@.len() ==> (#[trigger] cfg.host_groups@[i]).1.nodes@.len() > 0,
        forall|i: int|
            0 <= i < crate::config_checks::artifact_entries(cfg).len() ==> {
                let a = (#[trigger] crate::config_checks::artifact_entries(cfg)[i]).1;
                &&& store_check(crate::config_checks::artifact_entries(cfg)[i].0, "push"@, a.distribution.push) is Ok
                &&& store_check(crate::config_checks::artifact_entries(cfg)[i].0, "pull"@, a.distribution.pull) is Ok
            },
        forall|i: int|
            0 <= i < cfg.clusters@.len() ==> cluster_check(
                cfg,
                cfg.clusters@[i].0,
                (#[trigger] cfg.clusters@[i]).1,
            ) is Ok,
        forall|i: int|
            0 <= i < cfg.k3s_clusters@.len() ==> k3s_check(
                cfg,
                native,
                cfg.k3s_clusters@[i].0,
                (#[trigger] cfg.k3s_clusters@[i]).1,
            ) is Ok,
{
    let cps = cfg.control_planes@;
    let hosts = cfg.hosts@;
    let nodes = cfg.nodes@;
    let groups = cfg.host_groups@;
    let artifacts = crate::config_checks::artifact_entries(cfg);
    let machines = cfg.machines@;
    let clusters = cfg.clusters@;
    let k3s = cfg.k3s_clusters@;
    let cp_check = |i: int| control_plane_stage_check(cps, i);
    let h_check = |i: int| host_check(hosts[i].0, hosts[i].1);
    let n_check = |i: int| node_check(cfg, nodes[i].0, nodes[i].1);
    let g_check = |i: int| group_check(cfg, groups[i].0, groups[i].1);
    let a_check = |i: int| distribution_check(artifacts[i].0, artifacts[i].1);
    let m_check = |i: int| machine_check(cfg, native, machines[i].0, machines[i].1);
    let c_check = |i: int| cluster_check(cfg, clusters[i].0, clusters[i].1);
    let k_check = |i: int| k3s_check(cfg, native, k3s[i].0, k3s[i].1);
    assert(crate::checks::first_failure(cps.len() as int, cp_check) is Ok);
    assert(crate::checks::first_failure(hosts.len() as int, h_check) is Ok);
    assert(crate::checks::first_failure(nodes.len() as int, n_check) is Ok);
    assert(crate::checks::first_failure(groups.len() as int, g_check) is Ok);
    assert(crate::checks::first_failure(artifacts.len() as int, a_check) is Ok);
    assert(crate::checks::first_failure(machines.len() as int, m_check) is Ok);
    assert(crate::checks::first_failure(clusters.len() as int, c_check) is Ok);
    assert(crate::checks::first_failure(k3s.len() as int, k_check) is Ok);
    lemma_first_failure_ok_all(cps.len() as int, cp_check);
    lemma_first_failure_ok_all(nodes.len() as int, n_check);
    lemma_first_failure_ok_all(groups.len() as int, g_check);
    lemma_first_failure_ok_all(artifacts.len() as int, a_check);
    lemma_first_failure_ok_all(clusters.len() as int, c_check);
    lemma_first_failure_ok_all(k3s.len() as int, k_check);
    assert forall|i: int| 0 <= i < cps.len() implies ((#[trigger] cps[i]).1.auth.source matches
        HostedAuthTokenSource::Env { variable } && !is_blank(variable@)) by {
        assert(cp_check(i) is Ok);
        lemma_control_plane_check_iff(cps[i].0, cps[i].1);
    }
    assert forall|i: int| 0 <= i < nodes.len() implies node_admitted(cfg, (#[trigger] nodes[i]).1) by {
        assert(n_check(i) is Ok);
        lemma_node_check_admits(cfg, nodes[i].0, nodes[i].1);
    }
    assert forall|i: int| 0 <= i < groups.len() implies (#[trigger] groups[i]).1.nodes@.len() > 0 by {
        assert(g_check(i) is Ok);
    }
    assert forall|i: int| 0 <= i < artifacts.len() implies {
        let a = (#[trigger] artifacts[i]).1;
        &&& store_check(artifacts[i].0, "push"@, a.distribution.push) is Ok
        &&& store_check(artifacts[i].0, "pull"@, a.distribution.pull) is Ok
    } by {
        assert(a_check(i) is Ok);
    }
    assert forall|i: int| 0 <= i < clusters.len() implies cluster_check(
        cfg,
        clusters[i].0,
        (#[trigger] clusters[i]).1,
    ) is Ok by {
        assert(c_check(i) is Ok);
    }
    assert forall|i: int| 0 <= i < k3s.len() implies k3s_check(cfg, native, k3s[i].0, (#[trigger] k3s[i]).1) is Ok by {
        assert(k_check(i) is Ok);
    }
}


// ---------------------------------------------------------------------------
// Capability summaries

/// A capability summary is populated exactly when it names at least one
/// provider, platform, substrate, architecture and protection mode; its PVM
/// lanes play no part.
pub proof fn lemma_populated_iff_every_list_named(c: HostedNodeCapabilitiesView)
    ensures
        caps_populated(c) <==> (c.providers.len() > 0 && c.platforms.len() > 0 && c.substrates.len() > 0
            && c.architectures.len() > 0 && c.protection_modes.len() > 0),
        caps_populated(c) == caps_populated(HostedNodeCapabilitiesView { pvm_lanes: Seq::empty(), ..c }),
{
}

/// Demoting a lane takes a ready lane to planned and changes nothing else;
/// a lane that is not ready is left as it is.
pub proof fn lemma_demotion_changes_only_ready_state(lane: HostedPvmCapabilityView)
    ensures
        demote_ready(lane).state != PvmCapabilityState::Ready,
        lane.state == PvmCapabilityState::Ready ==> demote_ready(lane).state == PvmCapabilityState::Planned,
        lane.state != PvmCapabilityState::Ready ==> demote_ready(lane) == lane,
        demote_ready(lane).architecture == lane.architecture,
        demote_ready(lane).host_kit == lane.host_kit,
        demote_ready(lane).notes == lane.notes,
{
}


/// The host groups that hold a node are exactly the inventory's groups that
/// list it as a member.
proof fn lemma_groups_with_member_exact(groups: Seq<(Seq<char>, HostedHostGroupContractView)>, node: Seq<char>)
    ensures
        forall|g: Seq<char>|
            entry_names(groups_with_member(groups, node)).contains(g) <==> exists|k: int|
                0 <= k < groups.len() && (#[trigger] groups[k]).0 == g && groups[k].1.nodes.contains(node),
    decreases groups.len(),
{
    if groups.len() > 0 {
        let rest = groups.drop_last();
        let last = groups.last();
        assert(groups[groups.len() - 1] == last);
        lemma_groups_with_member_exact(rest, node);
        let r0 = entry_names(groups_with_member(rest, node));
        let r = entry_names(groups_with_member(groups, node));
        assert forall|g: Seq<char>| r.contains(g) <==> exists|k: int|
            0 <= k < groups.len() && (#[trigger] groups[k]).0 == g && groups[k].1.nodes.contains(node) by {
            if r.contains(g) {
                let i = choose|i: int| 0 <= i < r.len() && r[i] == g;
                if i < r0.len() {
                    assert(r0[i] == r[i]);
                    assert(r0.contains(g));
                    let k = choose|k: int|
                        0 <= k < rest.len() && (#[trigger] rest[k]).0 == g && rest[k].1.nodes.contains(node);
                    assert(groups[k] == rest[k]);
                } else {
                    assert(r[i] == last.0);
                }
            }
            if exists|k: int| 0 <= k < groups.len() && (#[trigger] groups[k]).0 == g && groups[k].1.nodes.contains(node) {
                let k = choose|k: int|
                    0 <= k < groups.len() && (#[trigger] groups[k]).0 == g && groups[k].1.nodes.contains(node);
                if k < rest.len() {
                    assert(rest[k] == groups[k]);
                    assert(r0.contains(g));
                    let i = choose|i: int| 0 <= i < r0.len() && r0[i] == g;
                    assert(r[i] == r0[i]);
                } else {
                    assert(r[r.len() - 1] == last.0);
                }
            }
        }
    }
}

/// A registered node's contract lists exactly the inventory's host groups
/// that hold the node.
pub proof fn lemma_registered_host_groups_hold_the_node(
    inventory: HostedInventoryContractView,
    control_plane: Seq<char>,
    node_name: Seq<char>,
    registration: HostedNodeRegistration,
)
    ensures
        registered_spec(inventory, control_plane, node_name, registration) matches Ok(contract) ==> forall|
            g: Seq<char>,
        |
            contract.host_groups.contains(g) <==> exists|k: int|
                0 <= k < inventory.host_groups.len() && (#[trigger] inventory.host_groups[k]).0 == g
                    && inventory.host_groups[k].1.nodes.contains(node_name),
{
    lemma_groups_with_member_exact(inventory.host_groups, node_name);
}


// ---------------------------------------------------------------------------
// Fleet reports

/// A fleet report is produced only when every node it covers is a
/// configured node on a configured host, and any imported record of the
/// node agrees with the configuration: the same provider as the host, a
/// populated capability summary, and no capability outside the configured
/// ones.
pub proof fn lemma_fleet_report_needs_agreement(
    cfg: PortConfig,
    control_plane: Seq<char>,
    summary: HostedMachineSummaryContract,
    selected: Option<Seq<char>>,
    registered: Seq<(Seq<char>, RegisteredNodeRecord)>,
    imported: Seq<(Seq<char>, ImportedNodeRecord)>,
    now: u64,
)
    ensures
        fleet_spec(cfg, control_plane, summary, selected, registered, imported, now) is Ok ==> forall|i: int|
            0 <= i < fleet_nodes(summary, selected).len() ==> {
                let node = #[trigger] fleet_nodes(summary, selected)[i];
                match lookup(cfg.nodes@, node) {
                    Some(configured) => match lookup(cfg.hosts@, configured.host@) {
                        Some(host) => lookup(imported, node) matches Some(record) ==> {
                            &&& record.provider == host.provider
                            &&& caps_populated(record.capability_summary@)
                            &&& caps_subset(record.capability_summary@, configured.capabilities@)
                        },
                        None => false,
                    },
                    None => false,
                }
            },
{
    let nodes = fleet_nodes(summary, selected);
    let check = fleet_checks(cfg, control_plane, summary, nodes, imported);
    if fleet_spec(cfg, control_plane, summary, selected, registered, imported, now) is Ok {
        lemma_first_failure_ok_all(nodes.len() as int, check);
        assert forall|i: int| 0 <= i < nodes.len() implies {
            let node = #[trigger] nodes[i];
            match lookup(cfg.nodes@, node) {
                Some(configured) => match lookup(cfg.hosts@, configured.host@) {
                    Some(host) => lookup(imported, node) matches Some(record) ==> {
                        &&& record.provider == host.provider
                        &&& caps_populated(record.capability_summary@)
                        &&& caps_subset(record.capability_summary@, configured.capabilities@)
                    },
                    None => false,
                },
                None => false,
            }
        } by {
            assert(check(i) is Ok);
        }
    }
}

/// A node's fleet status reports what is known of it: it is imported
/// exactly when an imported record exists, registered exactly when a
/// registration exists, selected exactly when the route selected it, and
/// its registration is live while fresh, stale once expired, and missing
/// when there is none; a rejected node is never eligible for routing.
pub proof fn lemma_fleet_status_reports_what_is_known(
    summary: HostedMachineSummaryContract,
    selected: Option<Seq<char>>,
    registered: Seq<(Seq<char>, RegisteredNodeRecord)>,
    imported: Seq<(Seq<char>, ImportedNodeRecord)>,
    node: Seq<char>,
    now: u64,
)
    ensures
        ({
            let status = fleet_status(summary, selected, registered, imported, node, now);
            &&& status.node_name == node
            &&& status.imported == (lookup(imported, node) is Some)
            &&& status.registered == (lookup(registered, node) is Some)
            &&& status.selected == (selected == Some(node))
            &&& (status.freshness == HostedFleetFreshnessState::Live) <==> (lookup(registered, node) matches Some(
                record,
            ) && record.contract.freshness.fresh_until >= now)
            &&& (status.freshness == HostedFleetFreshnessState::Stale) <==> (lookup(registered, node) matches Some(
                record,
            ) && record.contract.freshness.fresh_until < now)
            &&& (status.freshness == HostedFleetFreshnessState::MissingRegistration) <==> (lookup(registered, node)
                is None)
            &&& lookup(summary.rejected_nodes@, node) is Some ==> status.routing_eligibility
                == HostedFleetRoutingEligibility::Rejected
        }),
{
}


// ---------------------------------------------------------------------------
// Durable state files

/// A registration file is accepted only when every node in it is admitted as
/// registered with the file's control plane: each entry keeps its node's
/// name and is that node's registered contract, so each node is held by the
/// inventory under that control plane.
pub proof fn lemma_registration_file_admits_each_node(
    inventory: HostedInventoryContractView,
    control_plane: Seq<char>,
    nodes: Seq<(Seq<char>, HostedNodeRegistration)>,
)
    ensures
        registered_entries(inventory, control_plane, nodes) matches Ok(entries) ==> {
            &&& entries.len() == nodes.len()
            &&& forall|i: int|
                0 <= i < nodes.len() ==> (#[trigger] entries[i]).0 == nodes[i].0 && registered_spec(
                    inventory,
                    control_plane,
                    nodes[i].0,
                    nodes[i].1,
                ) == Ok::<crate::views::HostedRegisteredNodeContractView, Seq<char>>(entries[i].1)
                    && lookup(inventory.nodes, nodes[i].0) is Some && lookup(inventory.nodes, nodes[i].0)->Some_0.control_plane
                    == control_plane
        },
    decreases nodes.len(),
{
    if nodes.len() > 0 {
        let rest = nodes.drop_last();
        lemma_registration_file_admits_each_node(inventory, control_plane, rest);
        if let Ok(entries) = registered_entries(inventory, control_plane, nodes) {
            let done = registered_entries(inventory, control_plane, rest)->Ok_0;
            assert forall|i: int| 0 <= i < nodes.len() implies (#[trigger] entries[i]).0 == nodes[i].0
                && registered_spec(inventory, control_plane, nodes[i].0, nodes[i].1) == Ok::<
                crate::views::HostedRegisteredNodeContractView,
                Seq<char>,
            >(entries[i].1) && lookup(inventory.nodes, nodes[i].0) is Some && lookup(inventory.nodes, nodes[i].0)->Some_0.control_plane
                == control_plane by {
                if i < rest.len() {
                    assert(entries[i] == done[i]);
                    assert(rest[i] == nodes[i]);
                } else {
                    assert(nodes[i] == nodes.last());
                }
                lemma_registration_needs_the_node_control_plane(inventory, control_plane, nodes[i].0, nodes[i].1);
            }
        }
    }
}

/// A recorded placement passes its check only when its machine is a hosted
/// machine of the control plane, and its node is still in the inventory
/// under that control plane with the recorded runtime root.
pub proof fn lemma_placement_check_needs_current_node(
    cfg: PortConfig,
    native: MachineArchitecture,
    inventory: HostedInventoryContractView,
    control_plane: Seq<char>,
    machine_name: Seq<char>,
    placement: HostedMachinePlacementRecord,
)
    ensures
        placement_check(cfg, native, inventory, control_plane, machine_name, placement) is Ok ==> {
            &&& summary_spec(cfg, native, machine_name) matches Ok(Some(summary)) && summary.control_plane
                == control_plane
            &&& lookup(inventory.nodes, placement.node_name@) matches Some(node) && node.control_plane
                == control_plane && node.runtime_root == placement.runtime_root@
        },
{
}


// ---------------------------------------------------------------------------
// Architectures, endpoints, identities and refreshes

/// A machine's architecture resolves to itself when it is named, to this
/// host's architecture when it is `Native`, and fails only when both are
/// `Native`; a resolved architecture is never `Native`.
pub proof fn lemma_architecture_resolution(architecture: MachineArchitecture, native: MachineArchitecture)
    ensures
        (resolve_architecture(architecture, native) is Err) <==> (architecture == MachineArchitecture::Native
            && native == MachineArchitecture::Native),
        resolve_architecture(architecture, native) matches Ok(a) ==> a != MachineArchitecture::Native && (
        architecture != MachineArchitecture::Native ==> a == architecture) && (architecture
            == MachineArchitecture::Native ==> a == native),
{
}

/// A node agent's endpoint always names a scheme: a bind address that
/// already names `http://` or `https://` is kept as given, and any other is
/// reached over plain HTTP at that address.
pub proof fn lemma_node_agent_endpoint_names_scheme(bind: Seq<char>)
    ensures
        starts_with(crate::hosted_state::node_agent_endpoint_spec(bind), "http://"@) || starts_with(
            crate::hosted_state::node_agent_endpoint_spec(bind),
            "https://"@,
        ),
        (starts_with(bind, "http://"@) || starts_with(bind, "https://"@)) ==> crate::hosted_state::node_agent_endpoint_spec(bind) == bind,
        !(starts_with(bind, "http://"@) || starts_with(bind, "https://"@)) ==> crate::hosted_state::node_agent_endpoint_spec(bind)
            == "http://"@ + bind,
{
    reveal_strlit("http://");
    let e = crate::hosted_state::node_agent_endpoint_spec(bind);
    if !(starts_with(bind, "http://"@) || starts_with(bind, "https://"@)) {
        assert(e.subrange(0, 7) =~= "http://"@);
    }
}

/// A machine has a hosted API identity exactly when its host is reached
/// through a hosted control plane; the identity is that control plane's
/// endpoint, audience and auth, routed through the control plane.
pub proof fn lemma_api_identity_is_the_hosts_control_plane(cfg: PortConfig, machine_name: Seq<char>)
    ensures
        api_identity_spec(cfg, machine_name) matches Ok(Some(identity)) ==> {
            &&& lookup(cfg.machines@, machine_name) matches Some(machine) && lookup(cfg.hosts@, machine.host@)
                matches Some(host) && host.connection == (HostConnection::HostedControlPlane {
                control_plane: identity.control_plane,
            })
            &&& lookup(cfg.control_planes@, identity.control_plane@) matches Some(cp) && identity.endpoint
                == cp.endpoint && identity.audience == cp.audience && identity.auth == cp.auth
        },
        api_identity_spec(cfg, machine_name) matches Ok(None) ==> (lookup(cfg.machines@, machine_name) matches Some(
            machine,
        ) && lookup(cfg.hosts@, machine.host@) matches Some(host) && !(host.connection is HostedControlPlane)),
{
}

/// A stored service status is refreshed by asking a node agent only when it
/// names a node the control plane can reach (never through a stale
/// registration), along the stored route; otherwise it is reported as
/// stored, with a note when it names a node that cannot be reached.
pub proof fn lemma_refresh_asks_only_reachable_nodes(
    cfg: PortConfig,
    control_plane: Seq<char>,
    status: crate::service_stop::ServiceStatusView,
    registered: Seq<(Seq<char>, RegisteredNodeRecord)>,
    statics: Seq<(Seq<char>, HostedNodeBinding)>,
    now: u64,
)
    ensures
        ({
            let step = refresh_step(cfg, control_plane, status, registered, statics, now);
            &&& step matches ServiceRefreshView::Ask { binding, node_name, status: s, .. } ==> {
                &&& status.node_name == Some(node_name)
                &&& s == status
                &&& known_binding(cfg, control_plane, registered, statics, node_name, now) matches Ok(Some(found))
                    && found.0 == binding
                &&& lookup(registered, node_name) matches Some(record) ==> record.contract.freshness.fresh_until
                    >= now
            }
            &&& step matches ServiceRefreshView::Stored(s) ==> (s == status || (status.node_name matches Some(node)
                && s == unreachable_refresh(status, node)))
            &&& status.node_name is None ==> step == ServiceRefreshView::Stored(status)
        }),
{
}


/// An artifact variant's OCI reference is the artifact's displayed
/// reference, tagged with the variant's architecture, substrate and
/// protection mode; so variants of one reference differ only in that tag.
pub proof fn lemma_oci_reference_extends_display(
    reference: crate::model::ArtifactReference,
    selector: crate::model::ArtifactSelector,
)
    ensures
        crate::artifacts::oci_reference_text(reference, selector) == crate::artifacts::reference_text(reference)
            + "-"@ + selector.architecture.label_text() + "-"@ + selector.substrate.label_text() + "-"@
            + selector.protection_mode.label_text(),
{
}


/// A machine stop answers the node agent's own result and route whenever the
/// machine was routed to a node agent that answered; when it could not be
/// asked or did not answer, it reports a malformed result on the machine's
/// route, with the reason as its detail, before and after the stop alike.
pub proof fn lemma_machine_stop_answers_the_node_agent(
    control_plane: Seq<char>,
    summary: HostedMachineSummaryContract,
    routing: MachineRoutingView,
    layout: RuntimeLayout,
    proxied: Option<Result<(StopResultView, HostedRouteContextView), Seq<char>>>,
)
    ensures
        ({
            let outcome = machine_stop_outcome(control_plane, summary, routing, layout, proxied);
            &&& (routing.binding is Some && routing.detail is None) ==> match proxied {
                Some(Ok(answer)) => outcome == Ok::<
                    (StopResultView, HostedRouteContextView),
                    (Seq<char>, HostedRouteContextView),
                >(answer),
                Some(Err(m)) => match outcome {
                    Ok((result, route)) => {
                        &&& route == routing.route
                        &&& result.detail == m
                        &&& result.previous_state == crate::listing::MachineRuntimeState::Malformed
                        &&& result.current_state == crate::listing::MachineRuntimeState::Malformed
                        &&& result.pid is None
                    },
                    Err(_) => false,
                },
                None => true,
            }
            &&& routing.binding is None ==> match routing.detail {
                Some(d) => match outcome {
                    Ok((result, route)) => {
                        &&& route == routing.route
                        &&& result.detail == d
                        &&& result.current_state == crate::listing::MachineRuntimeState::Malformed
                    },
                    Err(_) => false,
                },
                None => true,
            }
        }),
{
}

} // verus!
