//! What a control plane and a node agent serve with: who they are, the
//! token they expect, and where a node agent registers.
use vstd::prelude::*;

use crate::hosted_state::{node_agent_endpoint_spec, normalize_node_agent_endpoint, HostedNodeBinding};
use crate::model::{HostConnection, HostedAuthTokenSource, PortConfig};
use crate::named_map::{insert_sorted, lookup, NameMap};

verus! {

/// What a control plane is asked to serve.
pub struct ControlPlaneServeRequest {
    pub control_plane: String,
    pub bind: String,
    pub node_bindings: Vec<HostedNodeBinding>,
}

/// The settings a control plane serves with.
pub struct ControlPlaneSettings {
    pub control_plane: String,
    pub auth_header: String,
    pub auth_value: String,
    pub static_node_bindings: NameMap<HostedNodeBinding>,
}

/// Where a node agent registers, and how it authenticates.
#[derive(Debug, PartialEq, Eq)]
pub struct NodeAgentRegistrationTarget {
    pub control_plane: String,
    pub endpoint: String,
    pub node_endpoint: String,
    pub auth_header: String,
    pub auth_value: String,
    pub audience: String,
}

/// The header that carries a node agent's token.
pub open spec fn node_agent_token_header() -> Seq<char> {
    "x-port-node-agent-token"@
}

/// The environment variable that holds a token.
pub open spec fn token_variable(source: HostedAuthTokenSource) -> Seq<char> {
    match source {
        HostedAuthTokenSource::Env { variable } => variable@,
    }
}

/// Why a token is missing.
pub open spec fn missing_token_message(control_plane: Seq<char>, variable: Seq<char>) -> Seq<char> {
    "control plane '"@ + control_plane + "' expects token in environment variable '"@ + variable + "'"@
}

/// The bindings by node name; a later binding for a node replaces an earlier one.
pub open spec fn bindings_by_name(bindings: Seq<HostedNodeBinding>) -> Seq<(Seq<char>, HostedNodeBinding)>
    decreases bindings.len(),
{
    if bindings.len() == 0 {
        Seq::empty()
    } else {
        insert_sorted(bindings_by_name(bindings.drop_last()), bindings.last().node_name@, bindings.last())
    }
}

/// The environment variable that holds the token of `control_plane`.
pub open spec fn control_plane_token_spec(cfg: PortConfig, control_plane: Seq<char>) -> Result<Seq<char>, Seq<char>> {
    match lookup(cfg.control_planes@, control_plane) {
        None => Err("unknown control plane '"@ + control_plane + "' for control-plane serve"@),
        Some(spec) => Ok(token_variable(spec.auth.source)),
    }
}

/// The environment variable that holds the token a control plane expects.
pub fn control_plane_token_variable(config: &PortConfig, control_plane: &str) -> (r: Result<String, String>)
    ensures
        match r {
            Ok(v) => control_plane_token_spec(*config, control_plane@) == Ok::<Seq<char>, Seq<char>>(v@),
            Err(e) => control_plane_token_spec(*config, control_plane@) == Err::<Seq<char>, Seq<char>>(e@),
        },
{
    match config.control_planes.get(control_plane) {
        None => {
            let mut m = String::from_str("unknown control plane '");
            m.append(control_plane);
            m.append("' for control-plane serve");
            Err(m)
        },
        Some(spec) => match &spec.auth.source {
            HostedAuthTokenSource::Env { variable } => Ok(variable.clone()),
        },
    }
}

/// The settings of a control plane that serves `request`, given the token
/// read from its environment variable, if that was set.
pub fn control_plane_settings(
    config: &PortConfig,
    request: ControlPlaneServeRequest,
    token: Option<&str>,
) -> (r: Result<ControlPlaneSettings, String>)
    ensures
        match r {
            Ok(settings) => {
                &&& token is Some
                &&& settings.control_plane@ == request.control_plane@
                &&& lookup(config.control_planes@, request.control_plane@) matches Some(spec)
                    && settings.auth_header@ == spec.auth.header@
                &&& settings.auth_value@ == "Bearer "@ + token->Some_0@
                &&& settings.static_node_bindings@ == bindings_by_name(request.node_bindings@)
            },
            Err(e) => match control_plane_token_spec(*config, request.control_plane@) {
                Err(m) => e@ == m,
                Ok(variable) => token is None && e@ == missing_token_message(
                    request.control_plane@,
                    variable,
                ),
            },
        },
{
    let variable = match control_plane_token_variable(config, request.control_plane.as_str()) {
        Ok(variable) => variable,
        Err(e) => {
            return Err(e);
        },
    };
    let token = match token {
        Some(token) => token,
        None => {
            let mut m = String::from_str("control plane '");
            m.append(request.control_plane.as_str());
            m.append("' expects token in environment variable '");
            m.append(variable.as_str());
            m.append("'");
            return Err(m);
        },
    };
    let spec = match config.control_planes.get(request.control_plane.as_str()) {
        Some(spec) => spec,
        None => {
            return Err(variable);
        },
    };
    let mut auth_value = String::from_str("Bearer ");
    auth_value.append(token);
    let mut bindings: NameMap<HostedNodeBinding> = NameMap::new();
    let n = request.node_bindings.len();
    let mut i: usize = 0;
    while i < n
        invariant
            n == request.node_bindings@.len(),
            i <= n,
            bindings@ == bindings_by_name(request.node_bindings@.take(i as int)),
        decreases n - i,
    {
        proof {
            let v = request.node_bindings@;
            assert(v.take(i + 1).drop_last() =~= v.take(i as int));
            assert(v.take(i + 1).last() == v[i as int]);
        }
        let binding = request.node_bindings[i].clone();
        bindings.insert(binding.node_name.clone(), binding);
        i = i + 1;
    }
    proof {
        assert(request.node_bindings@.take(n as int) =~= request.node_bindings@);
    }
    Ok(
        ControlPlaneSettings {
            control_plane: request.control_plane,
            auth_header: spec.auth.header.clone(),
            auth_value,
            static_node_bindings: bindings,
        },
    )
}

/// Admits a request to the control plane when it presents exactly the
/// expected value in the auth header.
pub fn authorize_control_plane(settings: &ControlPlaneSettings, presented: Option<&str>) -> (r: Result<
    (),
    String,
>)
    ensures
        r is Ok <==> (presented matches Some(p) && p@ == settings.auth_value@),
        r matches Err(e) ==> e@ == "control plane '"@ + settings.control_plane@
            + "' expects a bearer token in the '"@ + settings.auth_header@ + "' header"@,
{
    match presented {
        Some(value) => {
            if crate::text::str_eq(value, settings.auth_value.as_str()) {
                return Ok(());
            }
        },
        None => {},
    }
    let mut m = String::from_str("control plane '");
    m.append(settings.control_plane.as_str());
    m.append("' expects a bearer token in the '");
    m.append(settings.auth_header.as_str());
    m.append("' header");
    Err(m)
}

/// Admits a request to the node agent of `node_name` when it presents
/// exactly `token` in the node-agent token header.
pub fn authorize_node_agent(node_name: &str, token: &str, presented: Option<&str>) -> (r: Result<(), String>)
    ensures
        r is Ok <==> (presented matches Some(p) && p@ == token@),
        r matches Err(e) ==> e@ == "node '"@ + node_name@ + "' expects an auth token in the '"@
            + node_agent_token_header() + "' header"@,
{
    match presented {
        Some(value) => {
            if crate::text::str_eq(value, token) {
                return Ok(());
            }
        },
        None => {},
    }
    let mut m = String::from_str("node '");
    m.append(node_name);
    m.append("' expects an auth token in the '");
    m.append("x-port-node-agent-token");
    m.append("' header");
    Err(m)
}

/// The control plane that the node agent of `node` registers with.
pub open spec fn registration_control_plane(cfg: PortConfig, node: Seq<char>) -> Result<Seq<char>, Seq<char>> {
    match lookup(cfg.nodes@, node) {
        None => Err("unknown hosted node '"@ + node + "' for node-agent registration"@),
        Some(spec) => match lookup(cfg.hosts@, spec.host@) {
            None => Err("node '"@ + node + "' references unknown host '"@ + spec.host@ + "'"@),
            Some(host) => match host.connection {
                HostConnection::HostedControlPlane { control_plane } => if lookup(
                    cfg.control_planes@,
                    control_plane@,
                ) is Some {
                    Ok(control_plane@)
                } else {
                    Err(
                        "node '"@ + node + "' references unknown control plane '"@ + control_plane@
                            + "'"@,
                    )
                },
                _ => Err("node '"@ + node + "' does not target a hosted control plane"@),
            },
        },
    }
}

/// The control plane that the node agent of `node_name` registers with.
pub fn node_agent_control_plane(config: &PortConfig, node_name: &str) -> (r: Result<String, String>)
    ensures
        match r {
            Ok(c) => registration_control_plane(*config, node_name@) == Ok::<Seq<char>, Seq<char>>(c@),
            Err(e) => registration_control_plane(*config, node_name@) == Err::<Seq<char>, Seq<char>>(e@),
        },
{
    let node = match config.nodes.get(node_name) {
        Some(node) => node,
        None => {
            let mut m = String::from_str("unknown hosted node '");
            m.append(node_name);
            m.append("' for node-agent registration");
            return Err(m);
        },
    };
    let host = match config.hosts.get(node.host.as_str()) {
        Some(host) => host,
        None => {
            let mut m = String::from_str("node '");
            m.append(node_name);
            m.append("' references unknown host '");
            m.append(node.host.as_str());
            m.append("'");
            return Err(m);
        },
    };
    match &host.connection {
        HostConnection::HostedControlPlane { control_plane } => {
            if config.control_planes.contains_key(control_plane.as_str()) {
                Ok(control_plane.clone())
            } else {
                let mut m = String::from_str("node '");
                m.append(node_name);
                m.append("' references unknown control plane '");
                m.append(control_plane.as_str());
                m.append("'");
                Err(m)
            }
        },
        _ => {
            let mut m = String::from_str("node '");
            m.append(node_name);
            m.append("' does not target a hosted control plane");
            Err(m)
        },
    }
}

/// The environment variable that holds the token the node agent of
/// `node_name` registers with.
pub fn node_agent_token_variable(config: &PortConfig, node_name: &str) -> (r: Result<String, String>)
    ensures
        match r {
            Ok(v) => registration_control_plane(*config, node_name@) matches Ok(c) && lookup(
                config.control_planes@,
                c,
            ) matches Some(spec) && v@ == token_variable(spec.auth.source),
            Err(e) => registration_control_plane(*config, node_name@) == Err::<Seq<char>, Seq<char>>(e@),
        },
{
    let control_plane = match node_agent_control_plane(config, node_name) {
        Ok(c) => c,
        Err(e) => {
            return Err(e);
        },
    };
    match config.control_planes.get(control_plane.as_str()) {
        Some(spec) => match &spec.auth.source {
            HostedAuthTokenSource::Env { variable } => Ok(variable.clone()),
        },
        None => Err(control_plane),
    }
}

/// Where the node agent of `node_name`, bound at `bind`, registers, given
/// the token read from the control plane's environment variable, if set.
pub fn node_agent_registration_target(
    config: &PortConfig,
    node_name: &str,
    bind: &str,
    token: Option<&str>,
) -> (r: Result<NodeAgentRegistrationTarget, String>)
    ensures
        match r {
            Ok(target) => registration_control_plane(*config, node_name@) matches Ok(c) && lookup(
                config.control_planes@,
                c,
            ) matches Some(spec) && token matches Some(t) && target.control_plane@ == c
                && target.endpoint@ == spec.endpoint@ && target.node_endpoint@ == node_agent_endpoint_spec(
                bind@,
            ) && target.auth_header@ == spec.auth.header@ && target.auth_value@ == "Bearer "@ + t@
                && target.audience@ == spec.audience@,
            Err(e) => match registration_control_plane(*config, node_name@) {
                Err(m) => e@ == m,
                Ok(c) => {
                    &&& token is None
                    &&& lookup(config.control_planes@, c) matches Some(spec) && e@
                        == missing_token_message(c, token_variable(spec.auth.source))
                },
            },
        },
{
    let control_plane = match node_agent_control_plane(config, node_name) {
        Ok(c) => c,
        Err(e) => {
            return Err(e);
        },
    };
    let spec = match config.control_planes.get(control_plane.as_str()) {
        Some(spec) => spec,
        None => {
            return Err(control_plane);
        },
    };
    let token = match token {
        Some(token) => token,
        None => {
            let variable = match &spec.auth.source {
                HostedAuthTokenSource::Env { variable } => variable,
            };
            let mut m = String::from_str("control plane '");
            m.append(control_plane.as_str());
            m.append("' expects token in environment variable '");
            m.append(variable.as_str());
            m.append("'");
            return Err(m);
        },
    };
    let mut auth_value = String::from_str("Bearer ");
    auth_value.append(token);
    Ok(
        NodeAgentRegistrationTarget {
            control_plane,
            endpoint: spec.endpoint.clone(),
            node_endpoint: normalize_node_agent_endpoint(bind),
            auth_header: spec.auth.header.clone(),
            auth_value,
            audience: spec.audience.clone(),
        },
    )
}

} // verus!
