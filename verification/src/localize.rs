//! The configuration a node agent runs a hosted machine with: only that
//! machine and its host, launched locally, with the node's prepared PVM
//! host kit where the machine needs one.
use vstd::prelude::*;


use crate::laws::lemma_summary_candidates_can_run;
use crate::model::{ExecutionSubstrate, FirecrackerPvmLaneContract, FirecrackerSupport, HostConnection, HostSpec, MachineArchitecture, PortConfig, ProtectionMode};
use crate::named_map::{lemma_find_sorted, lookup, NameMap};
use crate::placement::{hosted_lane_from, resolve_pvm_architecture};
use crate::pvm::{aarch64_lane_shape, x86_64_lane_shape};
use crate::registration::has_member;
use crate::route::RequestRefusal;
use crate::routing::{debug_name_list, format_name_list};
use crate::summary::summary_spec;

use crate::views::{host_kit_view, PvmHostKitView};

verus! {

/// Whether a machine runs on the Firecracker PVM lane.
pub open spec fn needs_pvm_lane(machine: crate::model::MachineSpec) -> bool {
    machine.substrate == ExecutionSubstrate::Firecracker && machine.protection_mode == ProtectionMode::Pvm
}

/// A PVM machine whose architecture is this host's, on a host whose
/// architecture has no name: its PVM lane cannot be resolved.
pub open spec fn native_pvm_machine(cfg: PortConfig, native: MachineArchitecture, machine_name: Seq<char>) -> bool {
    native == MachineArchitecture::Native && match lookup(cfg.machines@, machine_name) {
        Some(machine) => needs_pvm_lane(machine) && machine.architecture == MachineArchitecture::Native,
        None => false,
    }
}

/// Why the node agent of `node` refuses machine `machine_name`, if it does.
pub open spec fn localize_refusal(
    cfg: PortConfig,
    native: MachineArchitecture,
    node: Seq<char>,
    machine_name: Seq<char>,
) -> Option<(RequestRefusal, Seq<char>)> {
    match summary_spec(cfg, native, machine_name) {
        Err(e) => Some(
            (
                RequestRefusal::BadRequest,
                "node '"@ + node + "' could not resolve hosted machine '"@ + machine_name + "': "@ + e,
            ),
        ),
        Ok(None) => Some(
            (
                RequestRefusal::NotFound,
                "machine '"@ + machine_name + "' does not resolve to a hosted machine owned by node '"@
                    + node + "'"@,
            ),
        ),
        Ok(Some(summary)) => if !summary.candidate_nodes.contains(node) {
            Some(
                (
                    RequestRefusal::NotFound,
                    "machine '"@ + machine_name + "' is not routed to node '"@ + node
                        + "' (candidate nodes: "@ + debug_name_list(summary.candidate_nodes) + ")"@,
                ),
            )
        } else {
            let machine = lookup(cfg.machines@, machine_name)->Some_0;
            let lanes = lookup(cfg.nodes@, node)->Some_0.capabilities@.pvm_lanes;
            if !needs_pvm_lane(machine) {
                None
            } else {
                match hosted_lane_from(lanes, resolve_pvm_architecture(machine.architecture, native), 0) {
                    None => Some(
                        (
                            RequestRefusal::BadRequest,
                            "node '"@ + node + "' does not advertise a PVM lane for machine '"@
                                + machine_name + "'"@,
                        ),
                    ),
                    Some(i) => if lanes[i].host_kit is None {
                        Some(
                            (
                                RequestRefusal::BadRequest,
                                "node '"@ + node
                                    + "' does not declare a prepared PVM host-kit contract for machine '"@
                                    + machine_name + "'"@,
                            ),
                        )
                    } else {
                        None
                    },
                }
            }
        },
    }
}

/// The lanes whose architecture is not `architecture`, in order.
pub open spec fn lanes_except(lanes: Seq<FirecrackerPvmLaneContract>, architecture: MachineArchitecture) -> Seq<
    FirecrackerPvmLaneContract,
>
    decreases lanes.len(),
{
    if lanes.len() == 0 {
        Seq::empty()
    } else {
        let prior = lanes_except(lanes.drop_last(), architecture);
        if lanes.last().architecture != architecture {
            prior.push(lanes.last())
        } else {
            prior
        }
    }
}

/// The lane a node agent launches with: the Firecracker lane of that
/// architecture, holding the node's prepared host kit.
pub open spec fn is_localized_lane(
    lane: FirecrackerPvmLaneContract,
    architecture: MachineArchitecture,
    kit: PvmHostKitView,
) -> bool {
    &&& architecture == MachineArchitecture::X86_64 ==> x86_64_lane_shape(lane)
    &&& architecture == MachineArchitecture::Aarch64 ==> aarch64_lane_shape(lane)
    &&& host_kit_view(lane.host_kit) == Some(kit)
}

/// The host as a node agent launches on it: locally, with the node's PVM
/// lane in place of the host's lane of that architecture where the machine
/// needs one.
pub open spec fn is_localized_host(
    out: HostSpec,
    host: HostSpec,
    pvm: Option<(MachineArchitecture, PvmHostKitView)>,
) -> bool {
    &&& out.platform == host.platform
    &&& out.provider == host.provider
    &&& out.connection == HostConnection::Local
    &&& out.firecracker.local_launch
    &&& out.firecracker.notes == host.firecracker.notes
    &&& match pvm {
        None => out.firecracker.pvm_lanes@ == host.firecracker.pvm_lanes@,
        Some((architecture, kit)) => {
            let lanes = out.firecracker.pvm_lanes@;
            &&& lanes.len() > 0
            &&& lanes.drop_last() == lanes_except(host.firecracker.pvm_lanes@, architecture)
            &&& is_localized_lane(lanes.last(), architecture, kit)
        },
    }
}

/// The PVM lane a machine launches with on `node`: its architecture and the
/// node's host kit.
pub open spec fn node_pvm_lane(
    cfg: PortConfig,
    native: MachineArchitecture,
    node: Seq<char>,
    machine_name: Seq<char>,
) -> Option<(MachineArchitecture, PvmHostKitView)> {
    let machine = lookup(cfg.machines@, machine_name)->Some_0;
    let lanes = lookup(cfg.nodes@, node)->Some_0.capabilities@.pvm_lanes;
    let architecture = resolve_pvm_architecture(machine.architecture, native);
    if needs_pvm_lane(machine) {
        Some((architecture, lanes[hosted_lane_from(lanes, architecture, 0)->Some_0].host_kit->Some_0))
    } else {
        None
    }
}

/// The configuration the node agent of `node` runs `machine_name` with:
/// that machine and its host only, with the host launched locally; no
/// nodes, host groups or control planes; everything else as it was.
pub open spec fn is_localized_config(
    out: PortConfig,
    cfg: PortConfig,
    native: MachineArchitecture,
    node: Seq<char>,
    machine_name: Seq<char>,
) -> bool {
    let machine = lookup(cfg.machines@, machine_name)->Some_0;
    let host = lookup(cfg.hosts@, machine.host@)->Some_0;
    &&& out.machines@ == seq![(machine_name, machine)]
    &&& out.hosts@.len() == 1
    &&& out.hosts@[0].0 == machine.host@
    &&& is_localized_host(out.hosts@[0].1, host, node_pvm_lane(cfg, native, node, machine_name))
    &&& out.nodes@.len() == 0
    &&& out.host_groups@.len() == 0
    &&& out.control_planes@.len() == 0
    &&& out.artifacts == cfg.artifacts
    &&& out.clusters == cfg.clusters
    &&& out.k3s_clusters == cfg.k3s_clusters
    &&& out.state_root == cfg.state_root
}

/// Keeps the lanes whose architecture is not `architecture`.
fn keep_lanes_except(lanes: Vec<FirecrackerPvmLaneContract>, architecture: MachineArchitecture) -> (r: Vec<
    FirecrackerPvmLaneContract,
>)
    ensures
        r@ == lanes_except(lanes@, architecture),
{
    let ghost all = lanes@;
    let mut rest = lanes;
    let mut kept: Vec<FirecrackerPvmLaneContract> = Vec::new();
    let ghost mut k: int = 0;
    while rest.len() > 0
        invariant
            0 <= k <= all.len(),
            rest@ == all.skip(k),
            kept@ == lanes_except(all.take(k), architecture),
        decreases rest@.len(),
    {
        let lane = rest.remove(0);
        proof {
            assert(lane == all[k]);
            assert(all.take(k + 1).drop_last() =~= all.take(k));
            assert(all.take(k + 1).last() == all[k]);
            assert(rest@ =~= all.skip(k + 1));
        }
        if lane.architecture != architecture {
            kept.push(lane);
        }
        proof {
            k = k + 1;
        }
    }
    proof {
        assert(all.take(k) =~= all);
    }
    kept
}

/// The configuration that the node agent of `node_name` runs hosted
/// machine `machine_name` with, or why it refuses the machine.
pub fn localize_machine_for_node(
    config: PortConfig,
    native: MachineArchitecture,
    node_name: &str,
    machine_name: &str,
) -> (r: Result<PortConfig, (RequestRefusal, String)>)
    requires
        !native_pvm_machine(config, native, machine_name@),
    ensures
        match r {
            Ok(out) => localize_refusal(config, native, node_name@, machine_name@) is None
                && is_localized_config(out, config, native, node_name@, machine_name@),
            Err((kind, message)) => localize_refusal(config, native, node_name@, machine_name@)
                == Some((kind, message@)),
        },
{
    let ghost cfg = config;
    let summary = match config.hosted_machine_summary_contract(machine_name, native) {
        Err(e) => {
            let mut m = String::from_str("node '");
            m.append(node_name);
            m.append("' could not resolve hosted machine '");
            m.append(machine_name);
            m.append("': ");
            m.append(e.message());
            return Err((RequestRefusal::BadRequest, m));
        },
        Ok(None) => {
            let mut m = String::from_str("machine '");
            m.append(machine_name);
            m.append("' does not resolve to a hosted machine owned by node '");
            m.append(node_name);
            m.append("'");
            return Err((RequestRefusal::NotFound, m));
        },
        Ok(Some(summary)) => summary,
    };
    if !has_member(&summary.candidate_nodes, node_name) {
        let listed = format_name_list(&summary.candidate_nodes);
        let mut m = String::from_str("machine '");
        m.append(machine_name);
        m.append("' is not routed to node '");
        m.append(node_name);
        m.append("' (candidate nodes: ");
        m.append(listed.as_str());
        m.append(")");
        return Err((RequestRefusal::NotFound, m));
    }
    proof {
        lemma_summary_candidates_can_run(cfg, native, machine_name@);
        let s = summary_spec(cfg, native, machine_name@)->Ok_0->Some_0;
        let inventory = crate::contracts::inventory_spec(cfg)->Ok_0;
        let i = choose|i: int| 0 <= i < s.candidate_nodes.len() && s.candidate_nodes[i] == node_name@;
        assert(s.candidate_nodes[i] == node_name@);
        let j = choose|j: int|
            0 <= j < inventory.nodes.len() && inventory.nodes[j].0 == #[trigger] s.candidate_nodes[i]
                && inventory.nodes[j].1.host == lookup(cfg.machines@, machine_name@)->Some_0.host@
                && crate::laws::node_can_run(
                inventory.nodes[j].1,
                lookup(cfg.machines@, machine_name@)->Some_0,
                crate::machine_checks::resolve_architecture(
                    lookup(cfg.machines@, machine_name@)->Some_0.architecture,
                    native,
                )->Ok_0,
            );
        assert(cfg.nodes@[j].0 == node_name@);
    }
    let _ = config.nodes.len();
    let _ = config.machines.len();
    let _ = config.hosts.len();
    proof {
        let s = summary_spec(cfg, native, machine_name@)->Ok_0->Some_0;
        let inventory = crate::contracts::inventory_spec(cfg)->Ok_0;
        let j = choose|j: int| 0 <= j < cfg.nodes@.len() && cfg.nodes@[j].0 == node_name@;
        lemma_find_sorted(cfg.nodes@, node_name@, j);
    }
    let node_kit = {
        let machine = match config.machines.get(machine_name) {
            Some(machine) => machine,
            None => vstd::pervasive::unreached(),
        };
        let node = match config.nodes.get(node_name) {
            Some(node) => node,
            None => vstd::pervasive::unreached(),
        };
        if machine.substrate == ExecutionSubstrate::Firecracker && machine.protection_mode
            == ProtectionMode::Pvm {
            let lane = match node.capabilities.pvm_lane_for(machine.architecture, native) {
                Some(lane) => lane,
                None => {
                    let mut m = String::from_str("node '");
                    m.append(node_name);
                    m.append("' does not advertise a PVM lane for machine '");
                    m.append(machine_name);
                    m.append("'");
                    return Err((RequestRefusal::BadRequest, m));
                },
            };
            let kit = match &lane.host_kit {
                Some(kit) => kit.clone(),
                None => {
                    let mut m = String::from_str("node '");
                    m.append(node_name);
                    m.append("' does not declare a prepared PVM host-kit contract for machine '");
                    m.append(machine_name);
                    m.append("'");
                    return Err((RequestRefusal::BadRequest, m));
                },
            };
            proof {
                let lanes = node.capabilities@.pvm_lanes;
                let target = resolve_pvm_architecture(machine.architecture, native);
                let i = hosted_lane_from(lanes, target, 0)->Some_0;
                assert(*lane == node.capabilities.pvm_lanes@[i]);
                assert(lanes[i] == node.capabilities.pvm_lanes@[i]@);
                assert(lanes[i].host_kit == Some(kit@));
                crate::laws::lemma_lane_lookup_finds_first(lanes, target);
                assert(lane.architecture == target);
            }
            Some((lane.architecture, kit))
        } else {
            None
        }
    };
    assert(match node_kit {
        Some((a, k)) => node_pvm_lane(cfg, native, node_name@, machine_name@) == Some((a, k@)),
        None => node_pvm_lane(cfg, native, node_name@, machine_name@) is None,
    });
    let mut config = config;
    let machine = match config.machines.remove(machine_name) {
        Some(machine) => machine,
        None => vstd::pervasive::unreached(),
    };
    let host = match config.hosts.remove(machine.host.as_str()) {
        Some(host) => host,
        None => vstd::pervasive::unreached(),
    };
    let HostSpec { platform, provider, connection: _, firecracker } = host;
    let FirecrackerSupport { local_launch: _, pvm_lanes, notes } = firecracker;
    let pvm_lanes = match node_kit {
        None => pvm_lanes,
        Some((architecture, kit)) => {
            let mut lanes = keep_lanes_except(pvm_lanes, architecture);
            assert(architecture != MachineArchitecture::Native);
            let mut contract = FirecrackerPvmLaneContract::for_architecture(architecture, native);
            let ghost kit_view = kit@;
            contract.host_kit = Some(kit);
            assert(is_localized_lane(contract, architecture, kit_view));
            let ghost kept = lanes@;
            lanes.push(contract);
            assert(lanes@.drop_last() =~= kept);
            lanes
        },
    };
    let host_name = machine.host.clone();
    let mut machines: NameMap<crate::model::MachineSpec> = NameMap::new();
    machines.insert(String::from_str(machine_name), machine);
    let mut hosts: NameMap<HostSpec> = NameMap::new();
    hosts.insert(
        host_name,
        HostSpec {
            platform,
            provider,
            connection: HostConnection::Local,
            firecracker: FirecrackerSupport { local_launch: true, pvm_lanes, notes },
        },
    );
    let out = PortConfig {
            artifacts: config.artifacts,
            control_planes: NameMap::new(),
            hosts,
            nodes: NameMap::new(),
            host_groups: NameMap::new(),
            machines,
            clusters: config.clusters,
            k3s_clusters: config.k3s_clusters,
            state_root: config.state_root,
        };
    proof {
        assert(localize_refusal(cfg, native, node_name@, machine_name@) is None);
        assert(out.machines@ =~= seq![(machine_name@, lookup(cfg.machines@, machine_name@)->Some_0)]);
        assert(out.hosts@.len() == 1);
        assert(out.artifacts == cfg.artifacts);
        let m = lookup(cfg.machines@, machine_name@)->Some_0;
        let h = lookup(cfg.hosts@, m.host@)->Some_0;
        assert(out.hosts@[0].0 == m.host@);
        assert(is_localized_host(out.hosts@[0].1, h, node_pvm_lane(cfg, native, node_name@, machine_name@)));
    }
    Ok(out)
}

} // verus!
