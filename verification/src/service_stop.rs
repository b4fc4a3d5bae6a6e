//! Stopping a hosted service through a control plane: which stored placement
//! the request concerns, whether it is forwarded to the node agent that runs
//! the service, and what is reported when it cannot be.
use vstd::prelude::*;

use crate::hosted_state::{HostedNodeBinding, RegisteredNodeRecord};
use crate::model::{HostedMachineSummaryContract, PortConfig};
use crate::named_map::NameMap;
use crate::route::{route_from_summary, summary_route, HostedRouteContext, HostedRouteContextView, RequestRefusal};
use crate::routing::{known_binding, resolve_known_node_binding};
use crate::text::views;
use crate::views::{copy_strings, option_view};

verus! {

/// The fields of a stored service status that stopping the service reads or
/// changes.
#[derive(Debug, PartialEq, Eq)]
pub struct ServiceStatus {
    pub name: String,
    pub machine_name: String,
    pub control_plane: Option<String>,
    pub node_name: Option<String>,
    pub host_groups: Vec<String>,
    pub manifest_path: String,
    pub detail: String,
}

/// A service status by views.
pub struct ServiceStatusView {
    pub name: Seq<char>,
    pub machine_name: Seq<char>,
    pub control_plane: Option<Seq<char>>,
    pub node_name: Option<Seq<char>>,
    pub host_groups: Seq<Seq<char>>,
    pub manifest_path: Seq<char>,
    pub detail: Seq<char>,
}

impl View for ServiceStatus {
    type V = ServiceStatusView;

    open spec fn view(&self) -> ServiceStatusView {
        ServiceStatusView {
            name: self.name@,
            machine_name: self.machine_name@,
            control_plane: option_view(self.control_plane),
            node_name: option_view(self.node_name),
            host_groups: views(self.host_groups@),
            manifest_path: self.manifest_path@,
            detail: self.detail@,
        }
    }
}

/// The views of a list of service statuses.
pub open spec fn service_views(s: Seq<ServiceStatus>) -> Seq<ServiceStatusView> {
    s.map_values(|x: ServiceStatus| x@)
}

/// The parent of path `p` as `std::path::Path::parent` gives it, by the path
/// rules of the platform the library is built for; `None` for a root or an
/// empty path.
pub uninterp spec fn path_parent(p: Seq<char>) -> Option<Seq<char>>;

/// Calls `std::path::Path::parent` on `p` and returns the parent as text.
/// Claimed: the result is `path_parent(p)`, a function of `p` alone. The
/// parent is a prefix of `p`, which is valid UTF-8, so the text conversion
/// loses nothing.
#[verifier::external_body]
fn parent_path(p: &str) -> (r: Option<String>)
    ensures
        option_view(r) == path_parent(p@),
{
    match std::path::Path::new(p).parent() {
        Some(q) => Some(q.to_string_lossy().into_owned()),
        None => None,
    }
}

/// The runtime root a service's manifest lies under: two levels above the
/// manifest.
pub open spec fn manifest_runtime_root(manifest_path: Seq<char>) -> Option<Seq<char>> {
    match path_parent(manifest_path) {
        Some(dir) => path_parent(dir),
        None => None,
    }
}

/// The route of a stored service: its control plane, machine, service name,
/// node and host groups, the runtime root its manifest lies under, and its
/// detail as the placement detail.
pub open spec fn stored_service_route(s: ServiceStatusView) -> HostedRouteContextView {
    HostedRouteContextView {
        control_plane: s.control_plane,
        machine_name: Some(s.machine_name),
        forward_name: None,
        service_name: Some(s.name),
        node_name: s.node_name,
        runtime_root: manifest_runtime_root(s.manifest_path),
        placement_detail: Some(s.detail),
        host_groups: s.host_groups,
    }
}

/// The route of a stored service.
pub fn stored_service_route_context(status: &ServiceStatus) -> (r: HostedRouteContext)
    ensures
        r@ == stored_service_route(status@),
{
    let runtime_root = match parent_path(status.manifest_path.as_str()) {
        Some(dir) => parent_path(dir.as_str()),
        None => None,
    };
    HostedRouteContext {
        control_plane: status.control_plane.clone(),
        machine_name: Some(status.machine_name.clone()),
        forward_name: None,
        service_name: Some(status.name.clone()),
        node_name: status.node_name.clone(),
        runtime_root,
        placement_detail: Some(status.detail.clone()),
        host_groups: copy_strings(&status.host_groups),
    }
}

/// What a control plane does with a request to stop a service.
pub enum ServiceStopAction {
    /// Refuse the request with `message`, naming `route`.
    Refuse { refusal: RequestRefusal, message: String, route: HostedRouteContext },
    /// Answer with `status` without asking a node agent.
    Report { status: ServiceStatus, route: HostedRouteContext },
    /// Forward the stop to the node agent at `binding`, which runs the
    /// service on `node_name`.
    Forward { binding: HostedNodeBinding, node_name: String, status: ServiceStatus, route: HostedRouteContext },
}

/// A stop action by views.
pub enum ServiceStopActionView {
    Refuse { refusal: RequestRefusal, message: Seq<char>, route: HostedRouteContextView },
    Report { status: ServiceStatusView, route: HostedRouteContextView },
    Forward {
        binding: HostedNodeBinding,
        node_name: Seq<char>,
        status: ServiceStatusView,
        route: HostedRouteContextView,
    },
}

impl View for ServiceStopAction {
    type V = ServiceStopActionView;

    open spec fn view(&self) -> ServiceStopActionView {
        match self {
            ServiceStopAction::Refuse { refusal, message, route } => ServiceStopActionView::Refuse {
                refusal: *refusal,
                message: message@,
                route: route@,
            },
            ServiceStopAction::Report { status, route } => ServiceStopActionView::Report {
                status: status@,
                route: route@,
            },
            ServiceStopAction::Forward { binding, node_name, status, route } => ServiceStopActionView::Forward {
                binding: *binding,
                node_name: node_name@,
                status: status@,
                route: route@,
            },
        }
    }
}

/// The route a stop request names before a stored placement is chosen: the
/// machine's route, with the service named.
pub open spec fn stop_request_route(summary: HostedMachineSummaryContract, service: Seq<char>) -> HostedRouteContextView {
    HostedRouteContextView { service_name: Some(service), ..summary_route(summary) }
}

/// `status` with a note that the stop could not reach `node`.
pub open spec fn unreachable_stop(status: ServiceStatusView, node: Seq<char>) -> ServiceStatusView {
    ServiceStatusView {
        detail: status.detail + " Stop request could not reach node '"@ + node
            + "' because the control plane has no live registered node-agent endpoint for it."@,
        ..status
    }
}

/// The one stored placement of `service` on `machine`, or how a request
/// about it is refused: when the placements could not be read, when none is
/// stored (with the machine's placement detail), and when several are.
pub open spec fn single_placement(
    control_plane: Seq<char>,
    machine: Seq<char>,
    service: Seq<char>,
    summary: HostedMachineSummaryContract,
    placements: Result<Seq<ServiceStatusView>, Seq<char>>,
) -> Result<ServiceStatusView, (RequestRefusal, Seq<char>)> {
    match placements {
        Err(e) => Err(
            (
                RequestRefusal::BadGateway,
                "control plane '"@ + control_plane + "' could not inspect stored placement for service '"@
                    + service + "' on machine '"@ + machine + "': "@ + e,
            ),
        ),
        Ok(ps) => if ps.len() == 0 {
            Err(
                (
                    RequestRefusal::NotFound,
                    "control plane '"@ + control_plane + "' could not find stored placement for service '"@
                        + service + "' on machine '"@ + machine + "'. "@ + summary.placement_detail@,
                ),
            )
        } else if ps.len() > 1 {
            Err(
                (
                    RequestRefusal::BadGateway,
                    "control plane '"@ + control_plane + "' found multiple stored placements for service '"@
                        + service + "' on machine '"@ + machine + "'"@,
                ),
            )
        } else {
            Ok(ps[0])
        },
    }
}

/// What a control plane does with a request to stop `service` on `machine`,
/// given the stored placements of that service (or why they could not be
/// read): refuse unless exactly one is stored; report the stored status
/// when it names no node, or, with a note, when the node has no live
/// endpoint (a stale registration included); otherwise forward the stop to
/// the node's agent.
pub open spec fn stop_step(
    cfg: PortConfig,
    control_plane: Seq<char>,
    machine: Seq<char>,
    service: Seq<char>,
    summary: HostedMachineSummaryContract,
    placements: Result<Seq<ServiceStatusView>, Seq<char>>,
    registered: Seq<(Seq<char>, RegisteredNodeRecord)>,
    statics: Seq<(Seq<char>, HostedNodeBinding)>,
    now: u64,
) -> ServiceStopActionView {
    match single_placement(control_plane, machine, service, summary, placements) {
        Err((refusal, message)) => ServiceStopActionView::Refuse {
            refusal,
            message,
            route: stop_request_route(summary, service),
        },
        Ok(s) => match s.node_name {
            None => ServiceStopActionView::Report { status: s, route: stored_service_route(s) },
            Some(node) => match known_binding(cfg, control_plane, registered, statics, node, now) {
                Ok(Some((binding, _))) => ServiceStopActionView::Forward {
                    binding,
                    node_name: node,
                    status: s,
                    route: stored_service_route(s),
                },
                _ => ServiceStopActionView::Report {
                    status: unreachable_stop(s, node),
                    route: stored_service_route(unreachable_stop(s, node)),
                },
            },
        },
    }
}

/// The view of the stored placements handed to a stop.
pub open spec fn placements_view(p: Result<Vec<ServiceStatus>, String>) -> Result<Seq<ServiceStatusView>, Seq<char>> {
    match p {
        Ok(v) => Ok(service_views(v@)),
        Err(e) => Err(e@),
    }
}

/// The start of a refusal message that names the control plane.
fn control_plane_says(control_plane: &str, text: &str) -> (r: String)
    ensures
        r@ == "control plane '"@ + control_plane@ + text@,
{
    let mut m = String::from_str("control plane '");
    m.append(control_plane);
    m.append(text);
    m
}

/// The one stored placement of `service` on `machine`, or how a request
/// about it is refused.
pub fn single_stored_placement(
    control_plane: &str,
    machine: &str,
    service: &str,
    summary: &HostedMachineSummaryContract,
    placements: Result<Vec<ServiceStatus>, String>,
) -> (r: Result<ServiceStatus, (RequestRefusal, String)>)
    ensures
        match r {
            Ok(s) => single_placement(control_plane@, machine@, service@, *summary, placements_view(placements))
                == Ok::<ServiceStatusView, (RequestRefusal, Seq<char>)>(s@),
            Err((refusal, m)) => single_placement(
                control_plane@,
                machine@,
                service@,
                *summary,
                placements_view(placements),
            ) == Err::<ServiceStatusView, (RequestRefusal, Seq<char>)>((refusal, m@)),
        },
{
    let mut ps = match placements {
        Ok(ps) => ps,
        Err(e) => {
            let mut m = control_plane_says(control_plane, "' could not inspect stored placement for service '");
            m.append(service);
            m.append("' on machine '");
            m.append(machine);
            m.append("': ");
            m.append(e.as_str());
            return Err((RequestRefusal::BadGateway, m));
        },
    };
    if ps.len() == 0 {
        let mut m = control_plane_says(control_plane, "' could not find stored placement for service '");
        m.append(service);
        m.append("' on machine '");
        m.append(machine);
        m.append("'. ");
        m.append(summary.placement_detail.as_str());
        return Err((RequestRefusal::NotFound, m));
    }
    if ps.len() > 1 {
        let mut m = control_plane_says(control_plane, "' found multiple stored placements for service '");
        m.append(service);
        m.append("' on machine '");
        m.append(machine);
        m.append("'");
        return Err((RequestRefusal::BadGateway, m));
    }
    let ghost stored = ps@;
    match ps.pop() {
        Some(s) => {
            assert(s@ == service_views(stored)[0]);
            Ok(s)
        },
        None => vstd::pervasive::unreached(),
    }
}

/// The route a request about `service` names before a stored placement is
/// chosen.
pub(crate) fn service_request_route(summary: &HostedMachineSummaryContract, service: &str) -> (r: HostedRouteContext)
    ensures
        r@ == stop_request_route(*summary, service@),
{
    let mut route = route_from_summary(summary);
    route.service_name = Some(String::from_str(service));
    route
}

/// What a control plane does at time `now` with a request to stop `service`
/// on `machine`, given the stored placements of that service or why they
/// could not be read.
pub fn service_stop_step(
    config: &PortConfig,
    control_plane: &str,
    machine: &str,
    service: &str,
    summary: &HostedMachineSummaryContract,
    placements: Result<Vec<ServiceStatus>, String>,
    registered: &NameMap<RegisteredNodeRecord>,
    statics: &NameMap<HostedNodeBinding>,
    now: u64,
) -> (r: ServiceStopAction)
    ensures
        r@ == stop_step(
            *config,
            control_plane@,
            machine@,
            service@,
            *summary,
            placements_view(placements),
            registered@,
            statics@,
            now,
        ),
{
    let mut status = match single_stored_placement(control_plane, machine, service, summary, placements) {
        Ok(s) => s,
        Err((refusal, message)) => {
            let route = service_request_route(summary, service);
            return ServiceStopAction::Refuse { refusal, message, route };
        },
    };
    let node_name = match &status.node_name {
        Some(n) => n.clone(),
        None => {
            let route = stored_service_route_context(&status);
            return ServiceStopAction::Report { status, route };
        },
    };
    match resolve_known_node_binding(config, control_plane, registered, statics, node_name.as_str(), now) {
        Ok(Some((binding, _))) => {
            let route = stored_service_route_context(&status);
            ServiceStopAction::Forward { binding, node_name, status, route }
        },
        _ => {
            let ghost before = status@;
            status.detail.append(" Stop request could not reach node '");
            status.detail.append(node_name.as_str());
            status.detail.append("' because the control plane has no live registered node-agent endpoint for it.");
            assert(status@ == unreachable_stop(before, node_name@));
            let route = stored_service_route_context(&status);
            ServiceStopAction::Report { status, route }
        },
    }
}

/// The status and route a stop reports once the node agent was asked: its
/// answer when it gave one, else the stored status with a note why the
/// node could not be refreshed, on the stored route.
pub open spec fn stop_outcome(
    status: ServiceStatusView,
    node: Seq<char>,
    route: HostedRouteContextView,
    proxied: Result<(ServiceStatusView, HostedRouteContextView), Seq<char>>,
) -> (ServiceStatusView, HostedRouteContextView) {
    match proxied {
        Ok(answer) => answer,
        Err(m) => (
            ServiceStatusView {
                detail: status.detail + " Stop request could not refresh node '"@ + node + "': "@ + m,
                ..status
            },
            route,
        ),
    }
}

/// The view of a node agent's answer to a stop.
pub open spec fn proxied_stop_view(p: Result<(ServiceStatus, HostedRouteContext), String>) -> Result<
    (ServiceStatusView, HostedRouteContextView),
    Seq<char>,
> {
    match p {
        Ok((s, r)) => Ok((s@, r@)),
        Err(m) => Err(m@),
    }
}

/// The status and route a forwarded stop reports, given the node agent's
/// answer or why it could not be had.
pub fn service_stop_after_proxy(
    status: ServiceStatus,
    node_name: &str,
    route: HostedRouteContext,
    proxied: Result<(ServiceStatus, HostedRouteContext), String>,
) -> (r: (ServiceStatus, HostedRouteContext))
    ensures
        (r.0@, r.1@) == stop_outcome(status@, node_name@, route@, proxied_stop_view(proxied)),
{
    match proxied {
        Ok(answer) => answer,
        Err(m) => {
            let mut status = status;
            status.detail.append(" Stop request could not refresh node '");
            status.detail.append(node_name);
            status.detail.append("': ");
            status.detail.append(m.as_str());
            (status, route)
        },
    }
}

} // verus!
