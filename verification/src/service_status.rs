//! Reading a hosted service's status through a control plane: the stored
//! placement is refreshed from the node agent that runs the service when the
//! control plane can reach it, and reported as stored, with a note, when it
//! cannot.
use vstd::prelude::*;

use crate::hosted_state::{HostedNodeBinding, RegisteredNodeRecord};
use crate::model::{HostedMachineSummaryContract, PortConfig};
use crate::named_map::{name_lt, str_lt, NameMap};
use crate::route::{HostedRouteContext, HostedRouteContextView, RequestRefusal};
use crate::routing::{known_binding, resolve_known_node_binding};
use crate::service_stop::{
    placements_view, service_request_route, service_views, single_placement, single_stored_placement,
    stop_request_route, stored_service_route, stored_service_route_context,
    ServiceStatus, ServiceStatusView,
};

verus! {

/// How a control plane refreshes one stored service status.
pub enum ServiceRefresh {
    /// The stored status is the answer.
    Stored(ServiceStatus),
    /// Ask the node agent at `binding`, which runs the service on
    /// `node_name`, along `route`; `status` is what was stored.
    Ask { binding: HostedNodeBinding, node_name: String, status: ServiceStatus, route: HostedRouteContext },
}

/// A refresh by views.
pub enum ServiceRefreshView {
    Stored(ServiceStatusView),
    Ask { binding: HostedNodeBinding, node_name: Seq<char>, status: ServiceStatusView, route: HostedRouteContextView },
}

impl View for ServiceRefresh {
    type V = ServiceRefreshView;

    open spec fn view(&self) -> ServiceRefreshView {
        match self {
            ServiceRefresh::Stored(s) => ServiceRefreshView::Stored(s@),
            ServiceRefresh::Ask { binding, node_name, status, route } => ServiceRefreshView::Ask {
                binding: *binding,
                node_name: node_name@,
                status: status@,
                route: route@,
            },
        }
    }
}

/// `status` with a note that its node has no live endpoint.
pub open spec fn unreachable_refresh(status: ServiceStatusView, node: Seq<char>) -> ServiceStatusView {
    ServiceStatusView {
        detail: status.detail + " Stored placement points at node '"@ + node
            + "' but the control plane has no live registered node-agent endpoint for it."@,
        ..status
    }
}

/// How a stored service status is refreshed at time `now`: as stored when it
/// names no node, with a note when its node has no live endpoint (a stale
/// registration included), and otherwise by asking the node's agent along
/// the stored route.
pub open spec fn refresh_step(
    cfg: PortConfig,
    control_plane: Seq<char>,
    status: ServiceStatusView,
    registered: Seq<(Seq<char>, RegisteredNodeRecord)>,
    statics: Seq<(Seq<char>, HostedNodeBinding)>,
    now: u64,
) -> ServiceRefreshView {
    match status.node_name {
        None => ServiceRefreshView::Stored(status),
        Some(node) => match known_binding(cfg, control_plane, registered, statics, node, now) {
            Ok(Some((binding, _))) => ServiceRefreshView::Ask {
                binding,
                node_name: node,
                status,
                route: stored_service_route(status),
            },
            _ => ServiceRefreshView::Stored(unreachable_refresh(status, node)),
        },
    }
}

/// How a stored service status is refreshed at time `now`.
pub fn service_refresh_step(
    config: &PortConfig,
    control_plane: &str,
    status: ServiceStatus,
    registered: &NameMap<RegisteredNodeRecord>,
    statics: &NameMap<HostedNodeBinding>,
    now: u64,
) -> (r: ServiceRefresh)
    ensures
        r@ == refresh_step(*config, control_plane@, status@, registered@, statics@, now),
{
    let node_name = match &status.node_name {
        Some(n) => n.clone(),
        None => {
            return ServiceRefresh::Stored(status);
        },
    };
    match resolve_known_node_binding(config, control_plane, registered, statics, node_name.as_str(), now) {
        Ok(Some((binding, _))) => {
            let route = stored_service_route_context(&status);
            ServiceRefresh::Ask { binding, node_name, status, route }
        },
        _ => {
            let mut status = status;
            let ghost before = status@;
            status.detail.append(" Stored placement points at node '");
            status.detail.append(node_name.as_str());
            status.detail.append("' but the control plane has no live registered node-agent endpoint for it.");
            assert(status@ == unreachable_refresh(before, node_name@));
            ServiceRefresh::Stored(status)
        },
    }
}

/// The status a refresh reports once the node agent was asked: its answer
/// when it gave one, else the stored status with a note why it could not be
/// refreshed.
pub open spec fn refresh_outcome(
    status: ServiceStatusView,
    node: Seq<char>,
    proxied: Result<ServiceStatusView, Seq<char>>,
) -> ServiceStatusView {
    match proxied {
        Ok(answer) => answer,
        Err(m) => ServiceStatusView {
            detail: status.detail + " Stored placement on node '"@ + node + "' could not be refreshed: "@ + m,
            ..status
        },
    }
}

/// The view of a node agent's answer to a refresh.
pub open spec fn proxied_refresh_view(p: Result<ServiceStatus, String>) -> Result<ServiceStatusView, Seq<char>> {
    match p {
        Ok(s) => Ok(s@),
        Err(m) => Err(m@),
    }
}

/// The status a refresh reports, given the node agent's answer or why it
/// could not be had.
pub fn service_refresh_after_proxy(
    status: ServiceStatus,
    node_name: &str,
    proxied: Result<ServiceStatus, String>,
) -> (r: ServiceStatus)
    ensures
        r@ == refresh_outcome(status@, node_name@, proxied_refresh_view(proxied)),
{
    match proxied {
        Ok(answer) => answer,
        Err(m) => {
            let mut status = status;
            status.detail.append(" Stored placement on node '");
            status.detail.append(node_name);
            status.detail.append("' could not be refreshed: ");
            status.detail.append(m.as_str());
            status
        },
    }
}

/// What a control plane does with a request for the status of one service.
pub enum ServiceStatusAction {
    /// Refuse the request with `message`, naming `route`.
    Refuse { refusal: RequestRefusal, message: String, route: HostedRouteContext },
    /// Refresh the single stored placement.
    Refresh(ServiceStatus),
}

/// A status action by views.
pub enum ServiceStatusActionView {
    Refuse { refusal: RequestRefusal, message: Seq<char>, route: HostedRouteContextView },
    Refresh(ServiceStatusView),
}

impl View for ServiceStatusAction {
    type V = ServiceStatusActionView;

    open spec fn view(&self) -> ServiceStatusActionView {
        match self {
            ServiceStatusAction::Refuse { refusal, message, route } => ServiceStatusActionView::Refuse {
                refusal: *refusal,
                message: message@,
                route: route@,
            },
            ServiceStatusAction::Refresh(s) => ServiceStatusActionView::Refresh(s@),
        }
    }
}

/// What a control plane does with a request for the status of `service` on
/// `machine`, given the stored placements of that service (or why they
/// could not be read): refuse unless exactly one is stored, and refresh
/// that one.
pub open spec fn status_step(
    control_plane: Seq<char>,
    machine: Seq<char>,
    service: Seq<char>,
    summary: HostedMachineSummaryContract,
    placements: Result<Seq<ServiceStatusView>, Seq<char>>,
) -> ServiceStatusActionView {
    match single_placement(control_plane, machine, service, summary, placements) {
        Err((refusal, message)) => ServiceStatusActionView::Refuse {
            refusal,
            message,
            route: stop_request_route(summary, service),
        },
        Ok(s) => ServiceStatusActionView::Refresh(s),
    }
}

/// What a control plane does with a request for the status of `service` on
/// `machine`, given the stored placements of that service or why they could
/// not be read.
pub fn service_status_step(
    control_plane: &str,
    machine: &str,
    service: &str,
    summary: &HostedMachineSummaryContract,
    placements: Result<Vec<ServiceStatus>, String>,
) -> (r: ServiceStatusAction)
    ensures
        r@ == status_step(control_plane@, machine@, service@, *summary, placements_view(placements)),
{
    match single_stored_placement(control_plane, machine, service, summary, placements) {
        Ok(s) => ServiceStatusAction::Refresh(s),
        Err((refusal, message)) => {
            let route = service_request_route(summary, service);
            ServiceStatusAction::Refuse { refusal, message, route }
        },
    }
}

/// Why a control plane cannot list the services of `machine`.
pub fn service_list_refusal(control_plane: &str, machine: &str, error: &str) -> (r: String)
    ensures
        r@ == "control plane '"@ + control_plane@ + "' could not inspect stored service placement for machine '"@
            + machine@ + "': "@ + error@,
{
    let mut m = String::from_str("control plane '");
    m.append(control_plane);
    m.append("' could not inspect stored service placement for machine '");
    m.append(machine);
    m.append("': ");
    m.append(error);
    m
}

/// `s` with `x` placed after every entry, from the end, whose name is not
/// greater than the name of `x`.
pub open spec fn insert_by_name(s: Seq<ServiceStatusView>, x: ServiceStatusView) -> Seq<ServiceStatusView>
    decreases s.len(),
{
    if s.len() == 0 {
        seq![x]
    } else if name_lt(x.name, s.last().name) {
        insert_by_name(s.drop_last(), x).push(s.last())
    } else {
        s.push(x)
    }
}

/// The statuses ordered by name; statuses with equal names keep the order
/// they were given in.
pub open spec fn sorted_by_name(s: Seq<ServiceStatusView>) -> Seq<ServiceStatusView>
    decreases s.len(),
{
    if s.len() == 0 {
        s
    } else {
        insert_by_name(sorted_by_name(s.drop_last()), s.last())
    }
}

/// Statuses ordered by name: no status has a smaller name than one before it.
pub open spec fn ordered_by_name(s: Seq<ServiceStatusView>) -> bool {
    forall|i: int, j: int| 0 <= i < j < s.len() ==> !name_lt(#[trigger] s[j].name, #[trigger] s[i].name)
}

/// Inserting at the position past every entry that is not greater.
proof fn lemma_insert_by_name_at(s: Seq<ServiceStatusView>, x: ServiceStatusView, k: int)
    requires
        0 <= k <= s.len(),
        forall|j: int| k <= j < s.len() ==> name_lt(x.name, #[trigger] s[j].name),
        k > 0 ==> !name_lt(x.name, s[k - 1].name),
    ensures
        insert_by_name(s, x) == s.insert(k, x),
    decreases s.len(),
{
    if s.len() == 0 {
        assert(s.insert(k, x) =~= seq![x]);
    } else if name_lt(x.name, s.last().name) {
        assert(s[s.len() - 1] == s.last());
        assert(k < s.len());
        let t = s.drop_last();
        assert forall|j: int| k <= j < t.len() implies name_lt(x.name, #[trigger] t[j].name) by {
            assert(t[j] == s[j]);
        }
        if k > 0 {
            assert(t[k - 1] == s[k - 1]);
        }
        lemma_insert_by_name_at(t, x, k);
        assert(t.insert(k, x).push(s.last()) =~= s.insert(k, x));
    } else {
        assert(s[s.len() - 1] == s.last());
        assert(k == s.len());
        assert(s.push(x) =~= s.insert(k, x));
    }
}

/// Places `x` in `out` after every status whose name is not greater.
fn insert_service_by_name(out: &mut Vec<ServiceStatus>, x: ServiceStatus)
    ensures
        service_views(final(out)@) == insert_by_name(service_views(old(out)@), x@),
{
    let mut k: usize = out.len();
    while k > 0 && str_lt(x.name.as_str(), out[k - 1].name.as_str())
        invariant
            k <= out@.len(),
            forall|j: int| k <= j < out@.len() ==> name_lt(x@.name, #[trigger] out@[j]@.name),
        decreases k,
    {
        k = k - 1;
    }
    let ghost before = out@;
    proof {
        let s = service_views(before);
        assert forall|j: int| k <= j < s.len() implies name_lt(x@.name, #[trigger] s[j].name) by {
            assert(s[j] == before[j]@);
        }
        if k > 0 {
            assert(s[k - 1] == before[k - 1]@);
        }
        lemma_insert_by_name_at(s, x@, k as int);
    }
    out.insert(k, x);
    assert(service_views(out@) =~= service_views(before).insert(k as int, x@));
}

/// The statuses ordered by name; statuses with equal names keep the order
/// they were given in.
pub fn sort_services_by_name(services: Vec<ServiceStatus>) -> (r: Vec<ServiceStatus>)
    ensures
        service_views(r@) == sorted_by_name(service_views(services@)),
{
    let ghost all = service_views(services@);
    let mut rest = services;
    let mut out: Vec<ServiceStatus> = Vec::new();
    let ghost mut done: int = 0;
    assert(all.take(0) =~= Seq::<ServiceStatusView>::empty());
    assert(service_views(out@) =~= Seq::<ServiceStatusView>::empty());
    while rest.len() > 0
        invariant
            0 <= done <= all.len(),
            service_views(rest@) == all.skip(done),
            service_views(out@) == sorted_by_name(all.take(done)),
        decreases rest.len(),
    {
        let ghost r0 = rest@;
        let x = rest.remove(0);
        proof {
            assert(rest@ == r0.remove(0));
            assert(r0.len() > 0);
            assert(service_views(r0).len() == r0.len());
            assert(all.skip(done).len() == all.len() - done);
            assert(done < all.len());
            assert(x@ == service_views(r0)[0]);
            assert(service_views(r0)[0] == all.skip(done)[0]);
            assert(x@ == all[done]);
            assert forall|i: int| 0 <= i < service_views(rest@).len() implies service_views(rest@)[i]
                == all.skip(done + 1)[i] by {
                assert(service_views(rest@)[i] == rest@[i]@);
                assert(rest@[i] == r0[i + 1]);
                assert(service_views(r0)[i + 1] == r0[i + 1]@);
                assert(service_views(r0)[i + 1] == all.skip(done)[i + 1]);
            }
            assert(service_views(rest@) =~= all.skip(done + 1));
            assert(all.take(done + 1).drop_last() =~= all.take(done));
            assert(all.take(done + 1).last() == all[done]);
        }
        insert_service_by_name(&mut out, x);
        proof {
            done = done + 1;
        }
    }
    assert(service_views(rest@).len() == 0);
    assert(done == all.len());
    assert(all.take(done) =~= all);
    out
}

} // verus!
