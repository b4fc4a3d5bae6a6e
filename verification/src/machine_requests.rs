//! Machine requests a control plane serves through a node agent: which
//! command a request path names, and what a status or stop request answers
//! once the machine was routed and, when it could be, its node agent asked.
use vstd::prelude::*;

use crate::hosted_state::{ImportedNodeRecord, RegisteredNodeRecord};
use crate::listing::{
    attach_fleet, inconsistent_message, malformed_machine_status, malformed_status, with_fleet, MachineRouting,
    MachineRoutingView, MachineRuntimeState, MachineStatus, MachineStatusView, RuntimeLayout,
};
use crate::model::{HostedMachineSummaryContract, MachineControlContract, PortConfig};
use crate::named_map::NameMap;
use crate::route::{route_from_summary, summary_route, HostedRouteContext, HostedRouteContextView};

verus! {

/// The part of `command` before `suffix` when `command` ends with it.
pub open spec fn command_target(command: Seq<char>, suffix: Seq<char>) -> Option<Seq<char>> {
    if command.len() >= suffix.len() && command.subrange(command.len() - suffix.len(), command.len() as int)
        == suffix {
        Some(command.subrange(0, command.len() - suffix.len()))
    } else {
        None
    }
}

/// The part of `command` before `suffix` when `command` ends with it.
fn strip_command_suffix(command: &str, suffix: &str) -> (r: Option<String>)
    ensures
        match r {
            Some(s) => command_target(command@, suffix@) == Some(s@),
            None => command_target(command@, suffix@) is None,
        },
{
    let n = command.unicode_len();
    let k = suffix.unicode_len();
    if n < k {
        return None;
    }
    let tail = command.substring_char(n - k, n);
    if crate::text::str_eq(tail, suffix) {
        Some(String::from_str(command.substring_char(0, n - k)))
    } else {
        None
    }
}

/// What a machine command path asks for.
#[derive(Debug, PartialEq, Eq)]
pub enum MachineCommand {
    Launch(String),
    Stop(String),
}

/// A machine command by views.
pub enum MachineCommandView {
    Launch(Seq<char>),
    Stop(Seq<char>),
}

impl View for MachineCommand {
    type V = MachineCommandView;

    open spec fn view(&self) -> MachineCommandView {
        match self {
            MachineCommand::Launch(m) => MachineCommandView::Launch(m@),
            MachineCommand::Stop(m) => MachineCommandView::Stop(m@),
        }
    }
}

/// The command a `<machine>:launch` or `<machine>:stop` path names, the
/// launch suffix read first; other paths name none.
pub open spec fn machine_command_spec(command: Seq<char>) -> Option<MachineCommandView> {
    match command_target(command, ":launch"@) {
        Some(m) => Some(MachineCommandView::Launch(m)),
        None => match command_target(command, ":stop"@) {
            Some(m) => Some(MachineCommandView::Stop(m)),
            None => None,
        },
    }
}

/// The command a machine command path names.
pub fn machine_command(command: &str) -> (r: Option<MachineCommand>)
    ensures
        match r {
            Some(c) => machine_command_spec(command@) == Some(c@),
            None => machine_command_spec(command@) is None,
        },
{
    proof {
        reveal_strlit(":launch");
        reveal_strlit(":stop");
    }
    match strip_command_suffix(command, ":launch") {
        Some(m) => Some(MachineCommand::Launch(m)),
        None => match strip_command_suffix(command, ":stop") {
            Some(m) => Some(MachineCommand::Stop(m)),
            None => None,
        },
    }
}

/// Why the control plane refuses a machine command other than a launch or
/// a stop.
pub fn unsupported_machine_command(control_plane: &str) -> (r: String)
    ensures
        r@ == "control plane '"@ + control_plane@
            + "' only serves launch and stop through '/v1/machines/{machine}:launch' and '/v1/machines/{machine}:stop'"@,
{
    let mut m = String::from_str("control plane '");
    m.append(control_plane);
    m.append("' only serves launch and stop through '/v1/machines/{machine}:launch' and '/v1/machines/{machine}:stop'");
    m
}

/// The answer to a status request, or the refusal message with the route it
/// names.
pub open spec fn status_answer(
    cfg: PortConfig,
    control_plane: Seq<char>,
    summary: HostedMachineSummaryContract,
    status: MachineStatusView,
    route: HostedRouteContextView,
    registered: Seq<(Seq<char>, RegisteredNodeRecord)>,
    imported: Seq<(Seq<char>, ImportedNodeRecord)>,
    now: u64,
    refusal_route: HostedRouteContextView,
) -> Result<(MachineStatusView, HostedRouteContextView), (Seq<char>, HostedRouteContextView)> {
    match with_fleet(cfg, control_plane, summary, status, route, registered, imported, now) {
        Ok(s) => Ok((s, route)),
        Err(m) => Err((m, refusal_route)),
    }
}

/// What a status request for a machine routed as `routing` answers: the
/// node agent's status on its route when it answered, else a malformed
/// status saying why on the machine's route, each with its fleet report; a
/// refusal when the fleet report fails, or when the routing names both a
/// binding and a detail, or neither (or a binding the node agent was not
/// asked through).
pub open spec fn status_outcome(
    cfg: PortConfig,
    control_plane: Seq<char>,
    summary: HostedMachineSummaryContract,
    routing: MachineRoutingView,
    layout: RuntimeLayout,
    proxied: Option<Result<(MachineStatusView, HostedRouteContextView), Seq<char>>>,
    registered: Seq<(Seq<char>, RegisteredNodeRecord)>,
    imported: Seq<(Seq<char>, ImportedNodeRecord)>,
    now: u64,
) -> Result<(MachineStatusView, HostedRouteContextView), (Seq<char>, HostedRouteContextView)> {
    let inconsistent = Err((inconsistent_message(control_plane, summary.machine_name@), summary_route(summary)));
    if routing.binding is Some && routing.detail is None {
        match proxied {
            Some(Ok((status, route))) => status_answer(
                cfg,
                control_plane,
                summary,
                status,
                route,
                registered,
                imported,
                now,
                routing.route,
            ),
            Some(Err(m)) => status_answer(
                cfg,
                control_plane,
                summary,
                malformed_status(summary, routing.route, layout, m),
                routing.route,
                registered,
                imported,
                now,
                routing.route,
            ),
            None => inconsistent,
        }
    } else if routing.binding is None && routing.detail is Some {
        status_answer(
            cfg,
            control_plane,
            summary,
            malformed_status(summary, routing.route, layout, routing.detail->Some_0),
            routing.route,
            registered,
            imported,
            now,
            routing.route,
        )
    } else {
        inconsistent
    }
}

/// The view of a node agent's answer to a status request.
pub open spec fn proxied_status_view(p: Option<Result<(MachineStatus, HostedRouteContext), String>>) -> Option<
    Result<(MachineStatusView, HostedRouteContextView), Seq<char>>,
> {
    match p {
        Some(Ok((s, r))) => Some(Ok((s@, r@))),
        Some(Err(m)) => Some(Err(m@)),
        None => None,
    }
}

/// The view of a status answer.
pub open spec fn status_answer_view(r: Result<(MachineStatus, HostedRouteContext), (String, HostedRouteContext)>) -> Result<
    (MachineStatusView, HostedRouteContextView),
    (Seq<char>, HostedRouteContextView),
> {
    match r {
        Ok((s, route)) => Ok((s@, route@)),
        Err((m, route)) => Err((m@, route@)),
    }
}

/// The inconsistent-routing refusal for `summary`.
fn inconsistent_refusal(control_plane: &str, summary: &HostedMachineSummaryContract) -> (r: (String, HostedRouteContext))
    ensures
        r.0@ == inconsistent_message(control_plane@, summary.machine_name@),
        r.1@ == summary_route(*summary),
{
    let mut m = String::from_str("control plane '");
    m.append(control_plane);
    m.append("' resolved an inconsistent routing state for machine '");
    m.append(summary.machine_name.as_str());
    m.append("'");
    (m, route_from_summary(summary))
}

/// What a status request for a machine routed as `routing` answers, given
/// the node agent's answer when the control plane asked it (`None` when it
/// did not ask).
pub fn machine_status_outcome(
    config: &PortConfig,
    control_plane: &str,
    summary: &HostedMachineSummaryContract,
    routing: MachineRouting,
    layout: &RuntimeLayout,
    proxied: Option<Result<(MachineStatus, HostedRouteContext), String>>,
    registered: &NameMap<RegisteredNodeRecord>,
    imported: &NameMap<ImportedNodeRecord>,
    now: u64,
) -> (r: Result<(MachineStatus, HostedRouteContext), (String, HostedRouteContext)>)
    ensures
        status_answer_view(r) == status_outcome(
            *config,
            control_plane@,
            *summary,
            routing@,
            *layout,
            proxied_status_view(proxied),
            registered@,
            imported@,
            now,
        ),
{
    let bound = routing.binding.is_some();
    let MachineRouting { binding: _, route, detail } = routing;
    if bound && detail.is_none() {
        match proxied {
            Some(Ok((status, node_route))) => {
                match attach_fleet(config, control_plane, summary, status, &node_route, registered, imported, now) {
                    Ok(s) => Ok((s, node_route)),
                    Err(m) => Err((m, route)),
                }
            },
            Some(Err(m)) => {
                let status = malformed_machine_status(summary, &route, layout, m);
                match attach_fleet(config, control_plane, summary, status, &route, registered, imported, now) {
                    Ok(s) => Ok((s, route)),
                    Err(m) => Err((m, route)),
                }
            },
            None => Err(inconsistent_refusal(control_plane, summary)),
        }
    } else if !bound && detail.is_some() {
        let m = match detail {
            Some(m) => m,
            None => String::new(),
        };
        let status = malformed_machine_status(summary, &route, layout, m);
        match attach_fleet(config, control_plane, summary, status, &route, registered, imported, now) {
            Ok(s) => Ok((s, route)),
            Err(m) => Err((m, route)),
        }
    } else {
        Err(inconsistent_refusal(control_plane, summary))
    }
}

/// The result of a machine stop.
#[derive(Debug, PartialEq, Eq)]
pub struct StopResult {
    pub machine_name: String,
    pub previous_state: MachineRuntimeState,
    pub current_state: MachineRuntimeState,
    pub pid: Option<u32>,
    pub control: MachineControlContract,
    pub runtime_dir: String,
    pub detail: String,
}

/// A stop result by views.
pub struct StopResultView {
    pub machine_name: Seq<char>,
    pub previous_state: MachineRuntimeState,
    pub current_state: MachineRuntimeState,
    pub pid: Option<u32>,
    pub control: MachineControlContract,
    pub runtime_dir: Seq<char>,
    pub detail: Seq<char>,
}

impl View for StopResult {
    type V = StopResultView;

    open spec fn view(&self) -> StopResultView {
        StopResultView {
            machine_name: self.machine_name@,
            previous_state: self.previous_state,
            current_state: self.current_state,
            pid: self.pid,
            control: self.control,
            runtime_dir: self.runtime_dir@,
            detail: self.detail@,
        }
    }
}

/// The stop result reported for a machine whose node agent could not be
/// asked: malformed before and after, in the runtime directory a malformed
/// status names, with `detail`.
pub open spec fn malformed_stop(
    summary: HostedMachineSummaryContract,
    route: HostedRouteContextView,
    layout: RuntimeLayout,
    detail: Seq<char>,
) -> StopResultView {
    let status = malformed_status(summary, route, layout, detail);
    StopResultView {
        machine_name: status.machine_name,
        previous_state: status.state,
        current_state: status.state,
        pid: status.pid,
        control: status.control,
        runtime_dir: status.runtime_dir,
        detail: status.detail,
    }
}

/// The stop result reported for a machine whose node agent could not be asked.
pub fn malformed_stop_result(
    summary: &HostedMachineSummaryContract,
    route: &HostedRouteContext,
    layout: &RuntimeLayout,
    detail: String,
) -> (r: StopResult)
    ensures
        r@ == malformed_stop(*summary, route@, *layout, detail@),
{
    let status = malformed_machine_status(summary, route, layout, detail);
    StopResult {
        machine_name: status.machine_name,
        previous_state: status.state,
        current_state: status.state,
        pid: status.pid,
        control: status.control,
        runtime_dir: status.runtime_dir,
        detail: status.detail,
    }
}

/// What a stop request for a machine routed as `routing` answers: the node
/// agent's result on its route when it answered, else a malformed result
/// saying why on the machine's route; a refusal when the routing names both
/// a binding and a detail, or neither (or a binding the node agent was not
/// asked through).
pub open spec fn machine_stop_outcome(
    control_plane: Seq<char>,
    summary: HostedMachineSummaryContract,
    routing: MachineRoutingView,
    layout: RuntimeLayout,
    proxied: Option<Result<(StopResultView, HostedRouteContextView), Seq<char>>>,
) -> Result<(StopResultView, HostedRouteContextView), (Seq<char>, HostedRouteContextView)> {
    let inconsistent = Err((inconsistent_message(control_plane, summary.machine_name@), summary_route(summary)));
    if routing.binding is Some && routing.detail is None {
        match proxied {
            Some(Ok(answer)) => Ok(answer),
            Some(Err(m)) => Ok((malformed_stop(summary, routing.route, layout, m), routing.route)),
            None => inconsistent,
        }
    } else if routing.binding is None && routing.detail is Some {
        Ok((malformed_stop(summary, routing.route, layout, routing.detail->Some_0), routing.route))
    } else {
        inconsistent
    }
}

/// The view of a node agent's answer to a stop.
pub open spec fn proxied_stop_result_view(p: Option<Result<(StopResult, HostedRouteContext), String>>) -> Option<
    Result<(StopResultView, HostedRouteContextView), Seq<char>>,
> {
    match p {
        Some(Ok((s, r))) => Some(Ok((s@, r@))),
        Some(Err(m)) => Some(Err(m@)),
        None => None,
    }
}

/// The view of a stop answer.
pub open spec fn stop_answer_view(r: Result<(StopResult, HostedRouteContext), (String, HostedRouteContext)>) -> Result<
    (StopResultView, HostedRouteContextView),
    (Seq<char>, HostedRouteContextView),
> {
    match r {
        Ok((s, route)) => Ok((s@, route@)),
        Err((m, route)) => Err((m@, route@)),
    }
}

/// What a stop request for a machine routed as `routing` answers, given the
/// node agent's answer when the control plane asked it (`None` when it did
/// not ask).
pub fn machine_stop_answer(
    control_plane: &str,
    summary: &HostedMachineSummaryContract,
    routing: MachineRouting,
    layout: &RuntimeLayout,
    proxied: Option<Result<(StopResult, HostedRouteContext), String>>,
) -> (r: Result<(StopResult, HostedRouteContext), (String, HostedRouteContext)>)
    ensures
        stop_answer_view(r) == machine_stop_outcome(
            control_plane@,
            *summary,
            routing@,
            *layout,
            proxied_stop_result_view(proxied),
        ),
{
    let bound = routing.binding.is_some();
    let MachineRouting { binding: _, route, detail } = routing;
    if bound && detail.is_none() {
        match proxied {
            Some(Ok(answer)) => Ok(answer),
            Some(Err(m)) => {
                let result = malformed_stop_result(summary, &route, layout, m);
                Ok((result, route))
            },
            None => Err(inconsistent_refusal(control_plane, summary)),
        }
    } else if !bound && detail.is_some() {
        let m = match detail {
            Some(m) => m,
            None => String::new(),
        };
        let result = malformed_stop_result(summary, &route, layout, m);
        Ok((result, route))
    } else {
        Err(inconsistent_refusal(control_plane, summary))
    }
}

} // verus!
