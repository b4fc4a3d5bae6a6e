//! Where a hosted request was routed, and how that reads in messages.
use vstd::prelude::*;

use crate::hosted_state::runtime_root_spec;
use crate::text::join;
use crate::views::option_view;

verus! {

/// How a control plane or node agent refuses a request it cannot serve.
#[derive(Debug, Clone, Copy, PartialEq, Eq, Structural)]
pub enum RequestRefusal {
    BadRequest,
    NotFound,
    BadGateway,
}

/// Where a hosted request was routed.
#[derive(Debug, PartialEq, Eq)]
pub struct HostedRouteContext {
    pub control_plane: Option<String>,
    pub machine_name: Option<String>,
    pub forward_name: Option<String>,
    pub service_name: Option<String>,
    pub node_name: Option<String>,
    pub runtime_root: Option<String>,
    pub placement_detail: Option<String>,
    pub host_groups: Vec<String>,
}

/// `detail`, followed by the control plane and node the request was routed
/// through when the route names both, and the route's placement detail when
/// it is not empty.
pub open spec fn route_detail(detail: Seq<char>, route: HostedRouteContext) -> Seq<char> {
    match (option_view(route.control_plane), option_view(route.node_name)) {
        (Some(control_plane), Some(node)) => {
            let routed = detail + " Routed through control plane '"@ + control_plane + "' and node '"@ + node
                + "'."@;
            match option_view(route.placement_detail) {
                Some(p) => if p.len() > 0 {
                    routed + " "@ + p
                } else {
                    routed
                },
                None => routed,
            }
        },
        _ => detail,
    }
}

/// Appends where the request was routed to `detail`.
pub fn append_route_detail(detail: String, route: &HostedRouteContext) -> (r: String)
    ensures
        r@ == route_detail(detail@, *route),
{
    let control_plane = match &route.control_plane {
        Some(c) => c,
        None => {
            return detail;
        },
    };
    let node_name = match &route.node_name {
        Some(n) => n,
        None => {
            return detail;
        },
    };
    let mut output = detail;
    output.append(" Routed through control plane '");
    output.append(control_plane.as_str());
    output.append("' and node '");
    output.append(node_name.as_str());
    output.append("'.");
    match &route.placement_detail {
        Some(p) => {
            if p.unicode_len() > 0 {
                output.append(" ");
                output.append(p.as_str());
            }
        },
        None => {},
    }
    output
}

/// `label=value` when the value is present.
pub open spec fn labelled(parts: Seq<Seq<char>>, label: Seq<char>, value: Option<Seq<char>>) -> Seq<Seq<char>> {
    match value {
        Some(v) => parts.push(label + v),
        None => parts,
    }
}

/// The labelled parts of a route, in a fixed order.
pub open spec fn route_parts(route: HostedRouteContext) -> Seq<Seq<char>> {
    let p = labelled(Seq::empty(), "control-plane="@, option_view(route.control_plane));
    let p = labelled(p, "machine="@, option_view(route.machine_name));
    let p = labelled(p, "forward="@, option_view(route.forward_name));
    let p = labelled(p, "service="@, option_view(route.service_name));
    let p = labelled(p, "node="@, option_view(route.node_name));
    let p = labelled(p, "runtime-root="@, option_view(route.runtime_root));
    labelled(p, "placement="@, option_view(route.placement_detail))
}

/// How a route reads at the end of a message: ` [label=value ...]`, or
/// nothing when there is no route or it names nothing.
pub open spec fn route_text(route: Option<HostedRouteContext>) -> Seq<char> {
    match route {
        None => Seq::empty(),
        Some(r) => {
            let parts = route_parts(r);
            if parts.len() == 0 {
                Seq::empty()
            } else {
                " ["@ + join(parts, " "@) + "]"@
            }
        },
    }
}

/// Pushes `label=value` when the value is present.
fn push_labelled(parts: &mut Vec<String>, label: &str, value: &Option<String>)
    ensures
        crate::text::views(final(parts)@) == labelled(crate::text::views(old(parts)@), label@, option_view(*value)),
{
    match value {
        Some(v) => {
            let mut part = String::from_str(label);
            part.append(v.as_str());
            let ghost before = parts@;
            parts.push(part);
            assert(crate::text::views(parts@) =~= crate::text::views(before).push(part@));
        },
        None => {},
    }
}

/// How a route reads at the end of a message.
pub fn render_route_context(route: Option<&HostedRouteContext>) -> (r: String)
    ensures
        r@ == route_text(
            match route {
                Some(r) => Some(*r),
                None => None,
            },
        ),
{
    let route = match route {
        Some(route) => route,
        None => {
            return String::new();
        },
    };
    let mut parts: Vec<String> = Vec::new();
    assert(crate::text::views(parts@) =~= Seq::<Seq<char>>::empty());
    push_labelled(&mut parts, "control-plane=", &route.control_plane);
    push_labelled(&mut parts, "machine=", &route.machine_name);
    push_labelled(&mut parts, "forward=", &route.forward_name);
    push_labelled(&mut parts, "service=", &route.service_name);
    push_labelled(&mut parts, "node=", &route.node_name);
    push_labelled(&mut parts, "runtime-root=", &route.runtime_root);
    push_labelled(&mut parts, "placement=", &route.placement_detail);
    if parts.len() == 0 {
        String::new()
    } else {
        let mut r = String::from_str(" [");
        let joined = crate::text::join_strings(&parts, " ");
        r.append(joined.as_str());
        r.append("]");
        r
    }
}

/// The route of an artifact transfer through `control_plane`.
pub fn hosted_artifact_route_context(control_plane: &str) -> (r: HostedRouteContext)
    ensures
        option_view(r.control_plane) == Some(control_plane@),
        option_view(r.runtime_root) == Some(runtime_root_spec(control_plane@)),
        r.machine_name is None && r.forward_name is None && r.service_name is None,
        r.node_name is None && r.placement_detail is None && r.host_groups@.len() == 0,
{
    HostedRouteContext {
        control_plane: Some(String::from_str(control_plane)),
        machine_name: None,
        forward_name: None,
        service_name: None,
        node_name: None,
        runtime_root: Some(crate::hosted_state::hosted_placeholder_runtime_root(control_plane)),
        placement_detail: None,
        host_groups: Vec::new(),
    }
}

/// The route of a request that a node agent serves.
pub fn node_route_context(node_name: &str, runtime_root: &str, machine_name: Option<&str>) -> (r: HostedRouteContext)
    ensures
        r.control_plane is None,
        option_view(r.machine_name) == match machine_name {
            Some(m) => Some(m@),
            None => None,
        },
        option_view(r.node_name) == Some(node_name@),
        option_view(r.runtime_root) == Some(runtime_root@),
        r.forward_name is None && r.service_name is None && r.placement_detail is None,
        r.host_groups@.len() == 0,
{
    HostedRouteContext {
        control_plane: None,
        machine_name: match machine_name {
            Some(m) => Some(String::from_str(m)),
            None => None,
        },
        forward_name: None,
        service_name: None,
        node_name: Some(String::from_str(node_name)),
        runtime_root: Some(String::from_str(runtime_root)),
        placement_detail: None,
        host_groups: Vec::new(),
    }
}

/// A route by views.
pub struct HostedRouteContextView {
    pub control_plane: Option<Seq<char>>,
    pub machine_name: Option<Seq<char>>,
    pub forward_name: Option<Seq<char>>,
    pub service_name: Option<Seq<char>>,
    pub node_name: Option<Seq<char>>,
    pub runtime_root: Option<Seq<char>>,
    pub placement_detail: Option<Seq<char>>,
    pub host_groups: Seq<Seq<char>>,
}

impl View for HostedRouteContext {
    type V = HostedRouteContextView;

    open spec fn view(&self) -> HostedRouteContextView {
        HostedRouteContextView {
            control_plane: option_view(self.control_plane),
            machine_name: option_view(self.machine_name),
            forward_name: option_view(self.forward_name),
            service_name: option_view(self.service_name),
            node_name: option_view(self.node_name),
            runtime_root: option_view(self.runtime_root),
            placement_detail: option_view(self.placement_detail),
            host_groups: crate::text::views(self.host_groups@),
        }
    }
}

/// The route of a hosted machine before a node is selected: its control
/// plane, name, host groups and placement detail.
pub open spec fn summary_route(summary: crate::model::HostedMachineSummaryContract) -> HostedRouteContextView {
    HostedRouteContextView {
        control_plane: Some(summary.control_plane@),
        machine_name: Some(summary.machine_name@),
        forward_name: None,
        service_name: None,
        node_name: None,
        runtime_root: None,
        placement_detail: Some(summary.placement_detail@),
        host_groups: crate::text::views(summary.host_groups@),
    }
}

/// `route` with `node` selected, at `runtime_root`.
pub open spec fn with_node(route: HostedRouteContextView, node: Seq<char>, runtime_root: Seq<char>) -> HostedRouteContextView {
    HostedRouteContextView { node_name: Some(node), runtime_root: Some(runtime_root), ..route }
}

/// The route of a hosted machine before a node is selected.
pub fn route_from_summary(summary: &crate::model::HostedMachineSummaryContract) -> (r: HostedRouteContext)
    ensures
        r@ == summary_route(*summary),
{
    HostedRouteContext {
        control_plane: Some(summary.control_plane.clone()),
        machine_name: Some(summary.machine_name.clone()),
        forward_name: None,
        service_name: None,
        node_name: None,
        runtime_root: None,
        placement_detail: Some(summary.placement_detail.clone()),
        host_groups: crate::views::copy_strings(&summary.host_groups),
    }
}

} // verus!
