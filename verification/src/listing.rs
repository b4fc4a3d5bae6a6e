//! Listing hosted machines through a control plane: where each machine is
//! routed, and the status the listing shows for it when the node agent
//! answers, when it does not, and when the machine cannot be routed.
use vstd::prelude::*;

use crate::fleet::{fleet_spec, hosted_fleet_node_statuses, status_views, HostedFleetNodeStatus, HostedFleetNodeStatusView};
use crate::hosted_state::{
    hosted_placeholder_runtime_root, runtime_root_spec, HostedMachinePlacementRecord, HostedNodeBinding,
    ImportedNodeRecord, RegisteredNodeRecord,
};
use crate::model::{HostedMachineSummaryContract, MachineControlContract, PortConfig};
use crate::named_map::NameMap;
use crate::route::{route_from_summary, summary_route, with_node, HostedRouteContext, HostedRouteContextView};
use crate::routing::{known_binding, resolve_known_node_binding, resolve_node_binding, route_machine};
use crate::text::{path_join, path_join_string};
use crate::views::option_view;

verus! {

/// The state a machine's runtime reports.
#[derive(Debug, Clone, Copy, PartialEq, Eq, Structural)]
pub enum MachineRuntimeState {
    Running,
    Stopped,
    Malformed,
}

/// The file names a machine's runtime directory holds. The runtime that
/// launches machines decides them; a listing only joins them to the
/// directory.
pub struct RuntimeLayout {
    pub config_file: String,
    pub manifest_file: String,
    pub pid_file: String,
    pub firecracker_log: String,
    pub stdout_log: String,
    pub stderr_log: String,
}

/// The status of a machine as a listing shows it.
#[derive(Debug, PartialEq, Eq)]
pub struct MachineStatus {
    pub machine_name: String,
    pub state: MachineRuntimeState,
    pub pid: Option<u32>,
    pub control: MachineControlContract,
    pub runtime_dir: String,
    pub config_path: String,
    pub manifest_path: String,
    pub pid_path: String,
    pub firecracker_log: String,
    pub stdout_log: String,
    pub stderr_log: String,
    pub hosted_fleet_nodes: Vec<HostedFleetNodeStatus>,
    pub detail: String,
}

pub struct MachineStatusView {
    pub machine_name: Seq<char>,
    pub state: MachineRuntimeState,
    pub pid: Option<u32>,
    pub control: MachineControlContract,
    pub runtime_dir: Seq<char>,
    pub config_path: Seq<char>,
    pub manifest_path: Seq<char>,
    pub pid_path: Seq<char>,
    pub firecracker_log: Seq<char>,
    pub stdout_log: Seq<char>,
    pub stderr_log: Seq<char>,
    pub hosted_fleet_nodes: Seq<HostedFleetNodeStatusView>,
    pub detail: Seq<char>,
}

impl View for MachineStatus {
    type V = MachineStatusView;

    open spec fn view(&self) -> MachineStatusView {
        MachineStatusView {
            machine_name: self.machine_name@,
            state: self.state,
            pid: self.pid,
            control: self.control,
            runtime_dir: self.runtime_dir@,
            config_path: self.config_path@,
            manifest_path: self.manifest_path@,
            pid_path: self.pid_path@,
            firecracker_log: self.firecracker_log@,
            stdout_log: self.stdout_log@,
            stderr_log: self.stderr_log@,
            hosted_fleet_nodes: status_views(self.hosted_fleet_nodes@),
            detail: self.detail@,
        }
    }
}

/// Where a listed machine is routed: the binding of its node agent, the
/// route, and why it cannot be reached when it cannot.
pub struct MachineRouting {
    pub binding: Option<HostedNodeBinding>,
    pub route: HostedRouteContext,
    pub detail: Option<String>,
}

/// A routing by views.
pub struct MachineRoutingView {
    pub binding: Option<HostedNodeBinding>,
    pub route: HostedRouteContextView,
    pub detail: Option<Seq<char>>,
}

impl View for MachineRouting {
    type V = MachineRoutingView;

    open spec fn view(&self) -> MachineRoutingView {
        MachineRoutingView { binding: self.binding, route: self.route@, detail: option_view(self.detail) }
    }
}

/// The route of a machine placed earlier on a node: that node and runtime
/// root, and the placement's detail where it recorded one.
pub open spec fn stored_route(summary: HostedMachineSummaryContract, placement: HostedMachinePlacementRecord) -> HostedRouteContextView {
    let route = with_node(summary_route(summary), placement.node_name@, placement.runtime_root@);
    match option_view(placement.placement_detail) {
        Some(d) => HostedRouteContextView { placement_detail: Some(d), ..route },
        None => route,
    }
}

/// `message`, followed by the route's placement detail where it has one.
pub open spec fn with_placement_detail(route: HostedRouteContextView, message: Seq<char>) -> Seq<char> {
    match route.placement_detail {
        Some(d) => if d.len() > 0 {
            message + " "@ + d
        } else {
            message
        },
        None => message,
    }
}

/// Where a listed machine is routed at time `now`: through its stored
/// placement when it has one, else through the first reachable candidate.
pub open spec fn listing_route(
    cfg: PortConfig,
    control_plane: Seq<char>,
    summary: HostedMachineSummaryContract,
    placement: Option<HostedMachinePlacementRecord>,
    registered: Seq<(Seq<char>, RegisteredNodeRecord)>,
    statics: Seq<(Seq<char>, HostedNodeBinding)>,
    now: u64,
) -> MachineRoutingView {
    match placement {
        Some(p) => {
            let route = stored_route(summary, p);
            let node = p.node_name@;
            match known_binding(cfg, control_plane, registered, statics, node, now) {
                Ok(Some((binding, _))) => MachineRoutingView { binding: Some(binding), route, detail: None },
                Ok(None) => MachineRoutingView {
                    binding: None,
                    route,
                    detail: Some(
                        with_placement_detail(
                            route,
                            "stored placement points at node '"@ + node
                                + "' but the control plane has no live registered node-agent endpoint for it."@,
                        ),
                    ),
                },
                Err(m) => MachineRoutingView {
                    binding: None,
                    route,
                    detail: Some(
                        with_placement_detail(
                            route,
                            "stored placement on node '"@ + node + "' is not currently usable: "@ + m,
                        ),
                    ),
                },
            }
        },
        None => match route_machine(cfg, control_plane, summary, registered, statics, now) {
            Ok((node, (binding, root))) => MachineRoutingView {
                binding: Some(binding),
                route: with_node(summary_route(summary), node, root),
                detail: None,
            },
            Err(m) => MachineRoutingView { binding: None, route: summary_route(summary), detail: Some(m) },
        },
    }
}

/// `message`, followed by the route's placement detail where it has one.
fn append_placement_detail(route: &HostedRouteContext, message: String) -> (r: String)
    ensures
        r@ == with_placement_detail(route@, message@),
{
    match &route.placement_detail {
        Some(d) => {
            if d.unicode_len() > 0 {
                let mut m = message;
                m.append(" ");
                m.append(d.as_str());
                m
            } else {
                message
            }
        },
        None => message,
    }
}

/// Where a listed machine is routed at time `now`: through its stored
/// placement when it has one, else through the first candidate node the
/// control plane can reach. The result names the node agent's binding
/// exactly when it carries no detail.
pub fn machine_list_step(
    config: &PortConfig,
    control_plane: &str,
    summary: &HostedMachineSummaryContract,
    placement: Option<&HostedMachinePlacementRecord>,
    registered: &NameMap<RegisteredNodeRecord>,
    statics: &NameMap<HostedNodeBinding>,
    now: u64,
) -> (r: MachineRouting)
    ensures
        r@ == listing_route(
            *config,
            control_plane@,
            *summary,
            match placement {
                Some(p) => Some(*p),
                None => None,
            },
            registered@,
            statics@,
            now,
        ),
{
    match placement {
        Some(p) => {
            let mut route = route_from_summary(summary);
            route.node_name = Some(p.node_name.clone());
            route.runtime_root = Some(p.runtime_root.clone());
            match &p.placement_detail {
                Some(d) => {
                    route.placement_detail = Some(d.clone());
                },
                None => {},
            }
            assert(route@ == stored_route(*summary, *p));
            match resolve_known_node_binding(config, control_plane, registered, statics, p.node_name.as_str(), now) {
                Ok(Some((binding, _))) => MachineRouting { binding: Some(binding), route, detail: None },
                Ok(None) => {
                    let mut m = String::from_str("stored placement points at node '");
                    m.append(p.node_name.as_str());
                    m.append("' but the control plane has no live registered node-agent endpoint for it.");
                    let detail = append_placement_detail(&route, m);
                    MachineRouting { binding: None, route, detail: Some(detail) }
                },
                Err(e) => {
                    let mut m = String::from_str("stored placement on node '");
                    m.append(p.node_name.as_str());
                    m.append("' is not currently usable: ");
                    m.append(e.as_str());
                    let detail = append_placement_detail(&route, m);
                    MachineRouting { binding: None, route, detail: Some(detail) }
                },
            }
        },
        None => match resolve_node_binding(config, control_plane, summary, registered, statics, now) {
            Ok((node, binding, root)) => {
                let mut route = route_from_summary(summary);
                route.node_name = Some(node);
                route.runtime_root = Some(root);
                MachineRouting { binding: Some(binding), route, detail: None }
            },
            Err(m) => MachineRouting { binding: None, route: route_from_summary(summary), detail: Some(m) },
        },
    }
}

/// The status a listing shows for a machine it could not ask: malformed,
/// with the runtime paths under the route's runtime root (the control
/// plane's placeholder root when the route has none) and `detail`.
pub open spec fn malformed_status(
    summary: HostedMachineSummaryContract,
    route: HostedRouteContextView,
    layout: RuntimeLayout,
    detail: Seq<char>,
) -> MachineStatusView {
    let root = match route.runtime_root {
        Some(r) => r,
        None => runtime_root_spec(summary.control_plane@),
    };
    let dir = path_join(root, summary.machine_name@);
    MachineStatusView {
        machine_name: summary.machine_name@,
        state: MachineRuntimeState::Malformed,
        pid: None,
        control: summary.control,
        runtime_dir: dir,
        config_path: path_join(dir, layout.config_file@),
        manifest_path: path_join(dir, layout.manifest_file@),
        pid_path: path_join(dir, layout.pid_file@),
        firecracker_log: path_join(dir, layout.firecracker_log@),
        stdout_log: path_join(dir, layout.stdout_log@),
        stderr_log: path_join(dir, layout.stderr_log@),
        hosted_fleet_nodes: Seq::empty(),
        detail,
    }
}

/// `status` with the fleet report for the node `route` selected, or why
/// the report failed.
pub open spec fn with_fleet(
    cfg: PortConfig,
    control_plane: Seq<char>,
    summary: HostedMachineSummaryContract,
    status: MachineStatusView,
    route: HostedRouteContextView,
    registered: Seq<(Seq<char>, RegisteredNodeRecord)>,
    imported: Seq<(Seq<char>, ImportedNodeRecord)>,
    now: u64,
) -> Result<MachineStatusView, Seq<char>> {
    match fleet_spec(cfg, control_plane, summary, route.node_name, registered, imported, now) {
        Ok(fleet) => Ok(MachineStatusView { hosted_fleet_nodes: fleet, ..status }),
        Err(m) => Err(m),
    }
}

/// Why a routing that names both a binding and a detail, or neither, is refused.
pub open spec fn inconsistent_message(control_plane: Seq<char>, machine: Seq<char>) -> Seq<char> {
    "control plane '"@ + control_plane + "' resolved an inconsistent routing state for machine '"@ + machine
        + "'"@
}

/// What a listing shows for a machine: the node agent's status when it
/// answered, else a malformed status saying why, each with its fleet
/// report; an error when the fleet report fails.
pub open spec fn listing_entry(
    cfg: PortConfig,
    control_plane: Seq<char>,
    summary: HostedMachineSummaryContract,
    routing: MachineRoutingView,
    layout: RuntimeLayout,
    proxied: Option<Result<(MachineStatusView, HostedRouteContextView), Seq<char>>>,
    registered: Seq<(Seq<char>, RegisteredNodeRecord)>,
    imported: Seq<(Seq<char>, ImportedNodeRecord)>,
    now: u64,
) -> Result<MachineStatusView, Seq<char>> {
    if routing.binding is Some && routing.detail is None {
        match proxied {
            Some(Ok((status, route))) => with_fleet(cfg, control_plane, summary, status, route, registered, imported, now),
            Some(Err(m)) => with_fleet(
                cfg,
                control_plane,
                summary,
                malformed_status(summary, routing.route, layout, m),
                routing.route,
                registered,
                imported,
                now,
            ),
            None => Err(inconsistent_message(control_plane, summary.machine_name@)),
        }
    } else if routing.binding is None && routing.detail is Some {
        with_fleet(
            cfg,
            control_plane,
            summary,
            malformed_status(summary, routing.route, layout, routing.detail->Some_0),
            routing.route,
            registered,
            imported,
            now,
        )
    } else {
        with_fleet(
            cfg,
            control_plane,
            summary,
            malformed_status(summary, summary_route(summary), layout, inconsistent_message(control_plane, summary.machine_name@)),
            summary_route(summary),
            registered,
            imported,
            now,
        )
    }
}

/// The view of a proxied status.
pub open spec fn proxied_view(p: Option<Result<(MachineStatus, HostedRouteContext), String>>) -> Option<
    Result<(MachineStatusView, HostedRouteContextView), Seq<char>>,
> {
    match p {
        Some(Ok((status, route))) => Some(Ok((status@, route@))),
        Some(Err(m)) => Some(Err(m@)),
        None => None,
    }
}

/// The status a listing shows for a machine it could not ask.
pub(crate) fn malformed_machine_status(
    summary: &HostedMachineSummaryContract,
    route: &HostedRouteContext,
    layout: &RuntimeLayout,
    detail: String,
) -> (r: MachineStatus)
    ensures
        r@ == malformed_status(*summary, route@, *layout, detail@),
{
    let root = match &route.runtime_root {
        Some(root) => root.clone(),
        None => hosted_placeholder_runtime_root(summary.control_plane.as_str()),
    };
    let dir = path_join_string(root.as_str(), summary.machine_name.as_str());
    let hosted_fleet_nodes: Vec<HostedFleetNodeStatus> = Vec::new();
    assert(status_views(hosted_fleet_nodes@) =~= Seq::<HostedFleetNodeStatusView>::empty());
    MachineStatus {
        machine_name: summary.machine_name.clone(),
        state: MachineRuntimeState::Malformed,
        pid: None,
        control: summary.control,
        config_path: path_join_string(dir.as_str(), layout.config_file.as_str()),
        manifest_path: path_join_string(dir.as_str(), layout.manifest_file.as_str()),
        pid_path: path_join_string(dir.as_str(), layout.pid_file.as_str()),
        firecracker_log: path_join_string(dir.as_str(), layout.firecracker_log.as_str()),
        stdout_log: path_join_string(dir.as_str(), layout.stdout_log.as_str()),
        stderr_log: path_join_string(dir.as_str(), layout.stderr_log.as_str()),
        runtime_dir: dir,
        hosted_fleet_nodes,
        detail,
    }
}

/// `status` with the fleet report for the node `route` selected.
pub(crate) fn attach_fleet(
    config: &PortConfig,
    control_plane: &str,
    summary: &HostedMachineSummaryContract,
    status: MachineStatus,
    route: &HostedRouteContext,
    registered: &NameMap<RegisteredNodeRecord>,
    imported: &NameMap<ImportedNodeRecord>,
    now: u64,
) -> (r: Result<MachineStatus, String>)
    ensures
        match r {
            Ok(s) => with_fleet(*config, control_plane@, *summary, status@, route@, registered@, imported@, now)
                == Ok::<MachineStatusView, Seq<char>>(s@),
            Err(e) => with_fleet(*config, control_plane@, *summary, status@, route@, registered@, imported@, now)
                == Err::<MachineStatusView, Seq<char>>(e@),
        },
{
    let selected = match &route.node_name {
        Some(n) => Some(n.as_str()),
        None => None,
    };
    match hosted_fleet_node_statuses(config, control_plane, summary, selected, registered, imported, now) {
        Ok(fleet) => {
            let mut status = status;
            status.hosted_fleet_nodes = fleet;
            Ok(status)
        },
        Err(e) => Err(e),
    }
}

/// What a listing shows for a machine routed as `routing` says, given the
/// node agent's answer when the control plane asked it (`None` when it did
/// not ask). An error fails the whole listing; it belongs to the route of
/// the machine's summary.
pub fn machine_list_entry(
    config: &PortConfig,
    control_plane: &str,
    summary: &HostedMachineSummaryContract,
    routing: MachineRouting,
    layout: &RuntimeLayout,
    proxied: Option<Result<(MachineStatus, HostedRouteContext), String>>,
    registered: &NameMap<RegisteredNodeRecord>,
    imported: &NameMap<ImportedNodeRecord>,
    now: u64,
) -> (r: Result<MachineStatus, String>)
    ensures
        match r {
            Ok(s) => listing_entry(
                *config,
                control_plane@,
                *summary,
                routing@,
                *layout,
                proxied_view(proxied),
                registered@,
                imported@,
                now,
            ) == Ok::<MachineStatusView, Seq<char>>(s@),
            Err(e) => listing_entry(
                *config,
                control_plane@,
                *summary,
                routing@,
                *layout,
                proxied_view(proxied),
                registered@,
                imported@,
                now,
            ) == Err::<MachineStatusView, Seq<char>>(e@),
        },
{
    let bound = routing.binding.is_some();
    let MachineRouting { binding: _, route, detail } = routing;
    if bound && detail.is_none() {
        match proxied {
            Some(Ok((status, node_route))) => attach_fleet(
                config,
                control_plane,
                summary,
                status,
                &node_route,
                registered,
                imported,
                now,
            ),
            Some(Err(m)) => {
                let status = malformed_machine_status(summary, &route, layout, m);
                attach_fleet(config, control_plane, summary, status, &route, registered, imported, now)
            },
            None => {
                let mut m = String::from_str("control plane '");
                m.append(control_plane);
                m.append("' resolved an inconsistent routing state for machine '");
                m.append(summary.machine_name.as_str());
                m.append("'");
                Err(m)
            },
        }
    } else if !bound && detail.is_some() {
        let m = match detail {
            Some(m) => m,
            None => String::new(),
        };
        let status = malformed_machine_status(summary, &route, layout, m);
        attach_fleet(config, control_plane, summary, status, &route, registered, imported, now)
    } else {
        let mut m = String::from_str("control plane '");
        m.append(control_plane);
        m.append("' resolved an inconsistent routing state for machine '");
        m.append(summary.machine_name.as_str());
        m.append("'");
        let summary_route_context = route_from_summary(summary);
        let status = malformed_machine_status(summary, &summary_route_context, layout, m);
        attach_fleet(config, control_plane, summary, status, &summary_route_context, registered, imported, now)
    }
}

} // verus!
