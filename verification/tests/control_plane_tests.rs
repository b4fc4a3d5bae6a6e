use port_model::fleet::{
    hosted_fleet_node_statuses, HostedFleetFreshnessState, HostedFleetRoutingEligibility,
};
use port_model::hosted_state::{
    registered_node_records, HostedMachinePlacementRecord, HostedNodeBinding, ImportedNodeRecord, MachinePlacementStateFile,
    RegisteredNodeRecord, RegisteredNodeStateFile,
};
use port_model::localize::localize_machine_for_node;
use port_model::machine_requests::{
    machine_command, machine_status_outcome, machine_stop_answer, malformed_stop_result,
    unsupported_machine_command, MachineCommand,
};
use port_model::service_status::{
    service_list_refusal, service_refresh_after_proxy, sort_services_by_name, service_refresh_step, service_status_step,
    ServiceRefresh, ServiceStatusAction,
};
use port_model::listing::{machine_list_entry, machine_list_step, MachineRuntimeState, RuntimeLayout};
use port_model::service_stop::{
    service_stop_after_proxy, service_stop_step, stored_service_route_context, ServiceStatus,
    ServiceStopAction,
};
use port_model::route::RequestRefusal;
use port_model::model::{
    HostConnection, HostedMachineSummaryContract, HostedNodeRegistration, MachineArchitecture,
    PortConfig, ProtectionMode, PvmCapabilityState,
};
use port_model::named_map::NameMap;
use port_model::registry::{machine_placement_detail, record_machine_placement, refresh_registration};
use port_model::requests::HttpMethod;
use port_model::route::{append_route_detail, render_route_context, HostedRouteContext};
use port_model::routing::{
    resolve_known_node_binding, resolve_node_binding, resolve_service_apply_binding,
    resolve_summary, served_machine_names, service_stop_target, unsupported_service_command,
};
use port_model::serve::{
    authorize_control_plane, authorize_node_agent, control_plane_settings,
    control_plane_token_variable, node_agent_registration_target, node_agent_token_variable,
    ControlPlaneServeRequest,
};
use port_model::transfer::{canonicalize_artifact_transfer_request, HostedArtifactTransferRequest};
use port_model::artifacts::hosted_artifact_store_path;
use port_model::model::{ArtifactReference, ArtifactSelector, ExecutionSubstrate};

fn registration(registered_at: u64, refreshed_at: u64, ttl_seconds: u64) -> HostedNodeRegistration {
    HostedNodeRegistration {
        endpoint: String::from("http://127.0.0.1:9001"),
        token: String::from("node-secret"),
        registered_at,
        refreshed_at,
        ttl_seconds,
    }
}

fn aws_summary(config: &PortConfig) -> HostedMachineSummaryContract {
    match config.hosted_machine_summary_contract("cloud-aws", MachineArchitecture::X86_64) {
        Ok(Some(summary)) => summary,
        Ok(None) => panic!("cloud-aws should be hosted"),
        Err(error) => panic!("{}", error.message()),
    }
}

fn registered_aws(config: &PortConfig) -> NameMap<RegisteredNodeRecord> {
    let mut nodes = NameMap::new();
    nodes.insert(String::from("aws-linux-node"), registration(10, 25, 30));
    let state = RegisteredNodeStateFile {
        control_plane: String::from("demo"),
        nodes,
    };
    match registered_node_records(config, &state) {
        Ok(records) => records,
        Err(error) => panic!("{}", error),
    }
}

#[test]
fn known_binding_follows_fresh_registrations_only() {
    let config = PortConfig::sample();
    let registered = registered_aws(&config);
    let statics = NameMap::new();
    let (binding, root) =
        resolve_known_node_binding(&config, "demo", &registered, &statics, "aws-linux-node", 55)
            .expect("fresh until 55")
            .expect("registered");
    assert_eq!(binding.endpoint, "http://127.0.0.1:9001");
    assert_eq!(binding.token, "node-secret");
    assert_eq!(root, "runtime/hosted/aws-linux-node");

    let stale =
        resolve_known_node_binding(&config, "demo", &registered, &statics, "aws-linux-node", 56)
            .expect_err("stale after 55");
    assert_eq!(
        stale,
        "node 'aws-linux-node' is registered but stale; last refresh 25 with ttl 30s expired at 55"
    );

    assert!(
        resolve_known_node_binding(&config, "demo", &registered, &statics, "gcp-linux-node", 40)
            .expect("no error")
            .is_none()
    );
}

#[test]
fn static_bindings_fall_back_to_the_placeholder_root() {
    let config = PortConfig::sample();
    let registered = NameMap::new();
    let mut statics = NameMap::new();
    statics.insert(
        String::from("unlisted-node"),
        HostedNodeBinding {
            node_name: String::from("unlisted-node"),
            endpoint: String::from("http://10.0.0.9:9001"),
            token: String::from("t"),
        },
    );
    statics.insert(
        String::from("gcp-linux-node"),
        HostedNodeBinding {
            node_name: String::from("gcp-linux-node"),
            endpoint: String::from("http://10.0.0.8:9001"),
            token: String::from("t"),
        },
    );
    let (_, root) =
        resolve_known_node_binding(&config, "demo", &registered, &statics, "unlisted-node", 0)
            .expect("no error")
            .expect("static binding");
    assert_eq!(root, ".port/hosted/demo");
    let (binding, root) =
        resolve_known_node_binding(&config, "demo", &registered, &statics, "gcp-linux-node", 0)
            .expect("no error")
            .expect("static binding");
    assert_eq!(binding.endpoint, "http://10.0.0.8:9001");
    assert_eq!(root, "runtime/hosted/gcp-linux-node");
}

#[test]
fn machines_route_to_the_first_reachable_candidate() {
    let config = PortConfig::sample();
    let summary = aws_summary(&config);
    assert_eq!(summary.candidate_nodes, vec![String::from("aws-linux-node")]);
    let registered = registered_aws(&config);
    let statics = NameMap::new();
    let (node, binding, root) =
        resolve_node_binding(&config, "demo", &summary, &registered, &statics, 40)
            .expect("live registration");
    assert_eq!(node, "aws-linux-node");
    assert_eq!(binding.node_name, "aws-linux-node");
    assert_eq!(root, "runtime/hosted/aws-linux-node");

    let error = resolve_node_binding(&config, "demo", &summary, &registered, &statics, 90)
        .expect_err("stale registration");
    assert!(error.starts_with(
        "control plane 'demo' could not route machine 'cloud-aws' because none of the candidate nodes [\"aws-linux-node\"] have a live registered node-agent endpoint. Stale registrations: node 'aws-linux-node' is registered but stale; last refresh 25 with ttl 30s expired at 55. "
    ), "{}", error);
    assert!(error.ends_with(&summary.placement_detail));

    let empty = NameMap::new();
    let error = resolve_node_binding(&config, "demo", &summary, &empty, &statics, 40)
        .expect_err("no binding");
    assert!(!error.contains("Stale registrations"));
}

#[test]
fn services_need_a_known_host_group() {
    let config = PortConfig::sample();
    let summary = aws_summary(&config);
    let registered = registered_aws(&config);
    let statics = NameMap::new();
    let error = resolve_service_apply_binding(&config, "demo", &summary, None, &registered, &statics, 40)
        .expect_err("a host group is required");
    assert_eq!(
        error,
        format!(
            "control plane 'demo' requires a host group for hosted service placement on machine 'cloud-aws'; available groups: {}",
            summary.host_groups.join(", ")
        )
    );
    let error = resolve_service_apply_binding(
        &config,
        "demo",
        &summary,
        Some("elsewhere"),
        &registered,
        &statics,
        40,
    )
    .expect_err("unknown group");
    assert!(error.starts_with(
        "control plane 'demo' cannot place service for machine 'cloud-aws' in host group 'elsewhere'; available groups: "
    ));

    let (node, _, root) = resolve_service_apply_binding(
        &config,
        "demo",
        &summary,
        Some("aws-builders"),
        &registered,
        &statics,
        40,
    )
    .expect("aws-linux-node is live");
    assert_eq!(node, "aws-linux-node");
    assert_eq!(root, "runtime/hosted/aws-linux-node");

    let error = resolve_service_apply_binding(
        &config,
        "demo",
        &summary,
        Some("aws-builders"),
        &registered,
        &statics,
        90,
    )
    .expect_err("stale");
    assert!(error.contains("with scheduler 'DeterministicFirstFit'"), "{}", error);
    assert!(error.contains("; stale registrations: node 'aws-linux-node' is registered but stale"), "{}", error);
}

#[test]
fn refreshes_never_move_backwards() {
    let config = PortConfig::sample();
    let state = RegisteredNodeStateFile {
        control_plane: String::from("demo"),
        nodes: NameMap::new(),
    };
    let (state, records, record) =
        refresh_registration(&config, "demo", state, "aws-linux-node", registration(10, 25, 30))
            .expect("first registration");
    assert_eq!(record.contract.freshness.fresh_until, 55);
    assert_eq!(records.len(), 1);
    assert_eq!(state.nodes.get("aws-linux-node"), Some(&registration(10, 25, 30)));

    let error = refresh_registration(&config, "demo", state, "aws-linux-node", registration(10, 20, 30))
        .err()
        .expect("older refresh");
    assert_eq!(
        error,
        "control plane 'demo' rejected stale registration refresh for node 'aws-linux-node': refreshed_at 20 is older than current 25"
    );

    let state = RegisteredNodeStateFile {
        control_plane: String::from("demo"),
        nodes: NameMap::new(),
    };
    let (state, _, _) =
        refresh_registration(&config, "demo", state, "aws-linux-node", registration(10, 25, 30))
            .expect("first registration");
    let (state, _, record) =
        refresh_registration(&config, "demo", state, "aws-linux-node", registration(10, 40, 30))
            .expect("newer refresh");
    assert_eq!(record.contract.freshness.fresh_until, 70);
    assert_eq!(state.nodes.get("aws-linux-node").map(|r| r.refreshed_at), Some(40));

    let state = RegisteredNodeStateFile {
        control_plane: String::from("demo"),
        nodes: NameMap::new(),
    };
    let error = refresh_registration(&config, "demo", state, "ghost-node", registration(10, 25, 30))
        .err()
        .expect("unknown node");
    assert!(error.contains("registered node 'ghost-node' does not exist in hosted inventory"), "{}", error);
}

#[test]
fn placements_read_back() {
    let state = MachinePlacementStateFile {
        control_plane: String::from("demo"),
        machines: NameMap::new(),
    };
    let error = record_machine_placement("demo", state, "cloud-aws", None, Some("root"), None, 7)
        .err()
        .expect("no node");
    assert_eq!(error, "control plane 'demo' resolved machine 'cloud-aws' without a selected node");

    let state = MachinePlacementStateFile {
        control_plane: String::from("demo"),
        machines: NameMap::new(),
    };
    let error = record_machine_placement("demo", state, "cloud-aws", Some("aws-linux-node"), None, None, 7)
        .err()
        .expect("no root");
    assert_eq!(
        error,
        "control plane 'demo' resolved machine 'cloud-aws' without a selected runtime root"
    );

    let state = MachinePlacementStateFile {
        control_plane: String::new(),
        machines: NameMap::new(),
    };
    let (next, placement) = record_machine_placement(
        "demo",
        state,
        "cloud-aws",
        Some("aws-linux-node"),
        Some("runtime/hosted/aws-linux-node"),
        Some("placed first-fit"),
        7,
    )
    .expect("placement");
    assert_eq!(next.control_plane, "demo");
    assert_eq!(next.machines.get("cloud-aws"), Some(&placement));
    assert_eq!(placement.placed_at_unix_s, 7);
    assert_eq!(placement.placement_detail, Some(String::from("placed first-fit")));

    assert_eq!(
        machine_placement_detail(Some("detail"), String::from("message")),
        "message detail"
    );
    assert_eq!(machine_placement_detail(Some(""), String::from("message")), "message");
    assert_eq!(machine_placement_detail(None, String::from("message")), "message");
}

#[test]
fn serving_settings_and_authorization() {
    let config = PortConfig::sample();
    assert_eq!(
        control_plane_token_variable(&config, "demo").expect("demo exists"),
        "PORT_DEMO_TOKEN"
    );
    assert_eq!(
        control_plane_token_variable(&config, "other").err(),
        Some(String::from("unknown control plane 'other' for control-plane serve"))
    );
    let request = ControlPlaneServeRequest {
        control_plane: String::from("demo"),
        bind: String::from("127.0.0.1:0"),
        node_bindings: vec![],
    };
    let error = match control_plane_settings(&config, request, None) {
        Ok(_) => panic!("missing token"),
        Err(error) => error,
    };
    assert_eq!(
        error,
        "control plane 'demo' expects token in environment variable 'PORT_DEMO_TOKEN'"
    );
    let request = ControlPlaneServeRequest {
        control_plane: String::from("demo"),
        bind: String::from("127.0.0.1:0"),
        node_bindings: vec![
            HostedNodeBinding {
                node_name: String::from("n1"),
                endpoint: String::from("http://a"),
                token: String::from("t"),
            },
            HostedNodeBinding {
                node_name: String::from("n1"),
                endpoint: String::from("http://b"),
                token: String::from("t"),
            },
        ],
    };
    let settings = match control_plane_settings(&config, request, Some("secret")) {
        Ok(settings) => settings,
        Err(error) => panic!("{}", error),
    };
    assert_eq!(settings.auth_header, "authorization");
    assert_eq!(settings.auth_value, "Bearer secret");
    assert_eq!(settings.static_node_bindings.len(), 1);
    assert_eq!(
        settings.static_node_bindings.get("n1").map(|b| b.endpoint.clone()),
        Some(String::from("http://b"))
    );
    assert!(authorize_control_plane(&settings, Some("Bearer secret")).is_ok());
    assert_eq!(
        authorize_control_plane(&settings, Some("Bearer wrong")).err(),
        Some(String::from(
            "control plane 'demo' expects a bearer token in the 'authorization' header"
        ))
    );
    assert!(authorize_control_plane(&settings, None).is_err());
    assert!(authorize_node_agent("n1", "tok", Some("tok")).is_ok());
    assert_eq!(
        authorize_node_agent("n1", "tok", None).err(),
        Some(String::from(
            "node 'n1' expects an auth token in the 'x-port-node-agent-token' header"
        ))
    );
}

#[test]
fn node_agents_register_with_their_control_plane() {
    let config = PortConfig::sample();
    assert_eq!(
        node_agent_token_variable(&config, "aws-linux-node").expect("variable"),
        "PORT_DEMO_TOKEN"
    );
    let target = node_agent_registration_target(&config, "aws-linux-node", "127.0.0.1:9001", Some("secret"))
        .expect("target");
    assert_eq!(target.control_plane, "demo");
    assert_eq!(target.endpoint, "https://port.example.internal");
    assert_eq!(target.node_endpoint, "http://127.0.0.1:9001");
    assert_eq!(target.auth_header, "authorization");
    assert_eq!(target.auth_value, "Bearer secret");
    assert_eq!(target.audience, "port-hosted-demo");
    assert_eq!(
        node_agent_registration_target(&config, "aws-linux-node", "127.0.0.1:9001", None).err(),
        Some(String::from(
            "control plane 'demo' expects token in environment variable 'PORT_DEMO_TOKEN'"
        ))
    );
    assert_eq!(
        node_agent_registration_target(&config, "nobody", "127.0.0.1:9001", Some("s")).err(),
        Some(String::from("unknown hosted node 'nobody' for node-agent registration"))
    );

    let mut local = PortConfig::sample();
    let mut host = local.hosts.remove("aws-linux").expect("aws host");
    host.connection = HostConnection::Local;
    local.hosts.insert(String::from("aws-linux"), host);
    assert_eq!(
        node_agent_registration_target(&local, "aws-linux-node", "127.0.0.1:9001", Some("s")).err(),
        Some(String::from("node 'aws-linux-node' does not target a hosted control plane"))
    );
}

#[test]
fn artifact_transfers_use_the_canonical_store_path() {
    let config = PortConfig::sample();
    let reference = ArtifactReference {
        registry: String::from("demo-fs"),
        repository: String::from("port/demo-kernel"),
        version: String::from("v1"),
    };
    let selector = ArtifactSelector {
        architecture: MachineArchitecture::X86_64,
        substrate: ExecutionSubstrate::Firecracker,
        protection_mode: ProtectionMode::Standard,
    };
    let canonical = hosted_artifact_store_path("demo", &reference, selector, "vmlinux");
    let request = HostedArtifactTransferRequest {
        artifact_name: String::from("demo-kernel"),
        reference: reference.clone(),
        selector,
        filename: String::from("vmlinux"),
        store_path: canonical.clone(),
    };
    let accepted = canonicalize_artifact_transfer_request(&config, "demo", request)
        .expect("canonical path");
    assert_eq!(accepted.store_path, canonical);

    let request = HostedArtifactTransferRequest {
        artifact_name: String::from("demo-kernel"),
        reference,
        selector,
        filename: String::from("vmlinux"),
        store_path: String::from("/tmp/elsewhere"),
    };
    let error = canonicalize_artifact_transfer_request(&config, "demo", request)
        .expect_err("non-canonical path");
    assert_eq!(
        error,
        format!(
            "hosted-api artifact 'demo-kernel' (demo-fs/port/demo-kernel:v1, selector 'x86_64/firecracker/standard') for control plane 'demo' endpoint 'https://port.example.internal' at '/tmp/elsewhere' requested non-canonical store path '/tmp/elsewhere'; canonical control-plane store path is '{}'",
            canonical
        )
    );
}

#[test]
fn node_agents_run_only_the_routed_machine() {
    let config = PortConfig::sample();
    let localized = localize_machine_for_node(
        PortConfig::sample(),
        MachineArchitecture::X86_64,
        "aws-linux-node",
        "cloud-aws",
    )
    .expect("cloud-aws runs on aws-linux-node");
    assert_eq!(localized.machines.keys(), vec![String::from("cloud-aws")]);
    assert_eq!(localized.hosts.keys(), vec![String::from("aws-linux")]);
    let host = localized.hosts.get("aws-linux").expect("host");
    assert_eq!(host.connection, HostConnection::Local);
    assert!(host.firecracker.local_launch);
    assert_eq!(
        host.firecracker.pvm_lanes,
        config.hosts.get("aws-linux").expect("host").firecracker.pvm_lanes
    );
    assert!(localized.nodes.is_empty());
    assert!(localized.host_groups.is_empty());
    assert!(localized.control_planes.is_empty());
    assert_eq!(localized.clusters, config.clusters);

    let refusal = localize_machine_for_node(
        PortConfig::sample(),
        MachineArchitecture::X86_64,
        "gcp-linux-node",
        "cloud-aws",
    )
    .err()
    .expect("not a candidate");
    assert_eq!(refusal.0, RequestRefusal::NotFound);
    assert_eq!(
        refusal.1,
        "machine 'cloud-aws' is not routed to node 'gcp-linux-node' (candidate nodes: [\"aws-linux-node\"])"
    );

    let refusal = localize_machine_for_node(
        PortConfig::sample(),
        MachineArchitecture::X86_64,
        "aws-linux-node",
        "demo",
    )
    .err()
    .expect("demo is local");
    assert_eq!(refusal.0, RequestRefusal::NotFound);
    assert_eq!(
        refusal.1,
        "machine 'demo' does not resolve to a hosted machine owned by node 'aws-linux-node'"
    );
}

#[test]
fn pvm_machines_launch_with_the_node_host_kit() {
    let mut config = PortConfig::sample();
    let mut machine = config.machines.remove("cloud-aws").expect("cloud-aws");
    machine.protection_mode = ProtectionMode::Pvm;
    machine.architecture = MachineArchitecture::X86_64;
    config.machines.insert(String::from("cloud-aws"), machine);
    let mut node = config.nodes.remove("aws-linux-node").expect("aws node");
    node.capabilities.pvm_lanes[0].state = PvmCapabilityState::Ready;
    let kit = node.capabilities.pvm_lanes[0].host_kit.clone();
    config.nodes.insert(String::from("aws-linux-node"), node);

    let localized = localize_machine_for_node(
        config,
        MachineArchitecture::X86_64,
        "aws-linux-node",
        "cloud-aws",
    )
    .expect("ready PVM lane");
    let host = localized.hosts.get("aws-linux").expect("host");
    let lane = host.firecracker.pvm_lanes.last().expect("a PVM lane");
    assert_eq!(lane.architecture, MachineArchitecture::X86_64);
    assert_eq!(lane.host_kit, kit);
    assert_eq!(
        host.firecracker
            .pvm_lanes
            .iter()
            .filter(|l| l.architecture == MachineArchitecture::X86_64)
            .count(),
        1
    );
}

#[test]
fn fleet_report_tracks_registration_freshness() {
    let config = PortConfig::sample();
    let summary = aws_summary(&config);
    let registered = registered_aws(&config);
    let imported: NameMap<ImportedNodeRecord> = NameMap::new();
    let live = hosted_fleet_node_statuses(
        &config,
        "demo",
        &summary,
        Some("aws-linux-node"),
        &registered,
        &imported,
        40,
    )
    .expect("fleet report");
    assert_eq!(live.len(), 1);
    assert_eq!(live[0].node_name, "aws-linux-node");
    assert!(live[0].selected && live[0].registered && !live[0].imported);
    assert_eq!(live[0].freshness, HostedFleetFreshnessState::Live);
    assert_eq!(live[0].routing_eligibility, HostedFleetRoutingEligibility::Eligible);
    assert_eq!(live[0].fresh_until_unix_s, Some(55));
    assert_eq!(
        live[0].detail,
        "Selected by the current control-plane route. No imported inventory record. Registered with a live node-agent refresh at 25 and ttl 30s (fresh until 55)."
    );

    let stale = hosted_fleet_node_statuses(&config, "demo", &summary, None, &registered, &imported, 90)
        .expect("fleet report");
    assert_eq!(stale[0].freshness, HostedFleetFreshnessState::Stale);
    assert_eq!(stale[0].routing_eligibility, HostedFleetRoutingEligibility::StaleRegistration);
    assert!(!stale[0].selected);
    assert_eq!(
        stale[0].detail,
        "No imported inventory record. Registered node-agent refresh at 25 with ttl 30s expired at 55."
    );

    let empty = NameMap::new();
    let missing = hosted_fleet_node_statuses(&config, "demo", &summary, Some("zz-extra"), &empty, &imported, 40)
        .err()
        .expect("the selected node is not configured");
    assert_eq!(
        missing,
        "control plane 'demo' could not merge hosted fleet state for machine 'cloud-aws': affected node 'zz-extra' is not present in the configured hosted inventory"
    );
}

#[test]
fn route_context_reads_at_the_end_of_messages() {
    let route = HostedRouteContext {
        control_plane: Some(String::from("demo")),
        machine_name: Some(String::from("cloud-aws")),
        forward_name: None,
        service_name: None,
        node_name: Some(String::from("aws-linux-node")),
        runtime_root: Some(String::from("runtime/hosted/aws-linux-node")),
        placement_detail: Some(String::from("first fit")),
        host_groups: vec![],
    };
    assert_eq!(
        render_route_context(Some(&route)),
        " [control-plane=demo machine=cloud-aws node=aws-linux-node runtime-root=runtime/hosted/aws-linux-node placement=first fit]"
    );
    assert_eq!(render_route_context(None), "");
    assert_eq!(
        append_route_detail(String::from("running."), &route),
        "running. Routed through control plane 'demo' and node 'aws-linux-node'. first fit"
    );
    let unrouted = HostedRouteContext {
        control_plane: None,
        machine_name: None,
        forward_name: None,
        service_name: None,
        node_name: None,
        runtime_root: None,
        placement_detail: None,
        host_groups: vec![],
    };
    assert_eq!(render_route_context(Some(&unrouted)), "");
    assert_eq!(append_route_detail(String::from("running."), &unrouted), "running.");
    assert_eq!(HttpMethod::Delete.label(), "DELETE");
    assert_eq!(HttpMethod::Get.label(), "GET");
}

#[test]
fn control_planes_serve_only_their_own_machines() {
    let config = PortConfig::sample();
    let summary = resolve_summary(&config, MachineArchitecture::X86_64, "demo", "cloud-aws")
        .expect("cloud-aws belongs to demo");
    assert_eq!(summary.control_plane, "demo");
    let refusal = resolve_summary(&config, MachineArchitecture::X86_64, "other", "cloud-aws")
        .err()
        .expect("another control plane");
    assert_eq!(refusal.0, RequestRefusal::NotFound);
    assert_eq!(refusal.1, "machine 'cloud-aws' belongs to control plane 'demo', not 'other'");
    let refusal = resolve_summary(&config, MachineArchitecture::X86_64, "demo", "demo")
        .err()
        .expect("a local machine");
    assert_eq!(refusal.0, RequestRefusal::NotFound);
    assert_eq!(refusal.1, "machine 'demo' does not resolve to hosted control plane 'demo'");
    let refusal = resolve_summary(&config, MachineArchitecture::X86_64, "demo", "missing")
        .err()
        .expect("an unknown machine");
    assert_eq!(refusal.0, RequestRefusal::BadRequest);
    assert!(refusal.1.starts_with("control plane 'demo' could not resolve hosted machine 'missing': "));
}

#[test]
fn fleet_report_merges_imported_inventory() {
    let config = PortConfig::sample();
    let summary = aws_summary(&config);
    let registered = NameMap::new();
    let capabilities = config
        .nodes
        .get("aws-linux-node")
        .expect("aws node")
        .capabilities
        .clone();
    let mut imported = NameMap::new();
    imported.insert(
        String::from("aws-linux-node"),
        ImportedNodeRecord {
            node_name: String::from("aws-linux-node"),
            provider: port_model::model::HostProvider::Aws,
            provenance: String::from("inventory-sync"),
            imported_at: 456,
            capability_summary: capabilities.clone(),
        },
    );
    let report = hosted_fleet_node_statuses(&config, "demo", &summary, None, &registered, &imported, 40)
        .expect("fleet report");
    assert!(report[0].imported && !report[0].registered);
    assert_eq!(report[0].routing_eligibility, HostedFleetRoutingEligibility::MissingRegistration);
    assert_eq!(report[0].import_provenance, Some(String::from("inventory-sync")));
    assert_eq!(
        report[0].detail,
        "Imported from 'inventory-sync' at 456. No registered node-agent endpoint."
    );

    let mut conflicting = NameMap::new();
    conflicting.insert(
        String::from("aws-linux-node"),
        ImportedNodeRecord {
            node_name: String::from("aws-linux-node"),
            provider: port_model::model::HostProvider::Gcp,
            provenance: String::from("inventory-sync"),
            imported_at: 456,
            capability_summary: capabilities,
        },
    );
    let error = hosted_fleet_node_statuses(&config, "demo", &summary, None, &registered, &conflicting, 40)
        .err()
        .expect("provider conflict");
    assert_eq!(
        error,
        "control plane 'demo' could not merge hosted fleet state for machine 'cloud-aws': affected node 'aws-linux-node' has imported provider 'Gcp' but configured provider 'Aws'"
    );
}

#[test]
fn control_planes_list_their_hosted_machines() {
    let config = PortConfig::sample();
    assert_eq!(
        served_machine_names(&config, MachineArchitecture::X86_64, "demo"),
        vec![
            String::from("cloud-aws"),
            String::from("cloud-gcp"),
            String::from("cloud-generic"),
        ]
    );
    assert!(served_machine_names(&config, MachineArchitecture::X86_64, "other").is_empty());
}

#[test]
fn only_service_stop_commands_are_served() {
    assert_eq!(service_stop_target("web:stop"), Some(String::from("web")));
    assert_eq!(service_stop_target(":stop"), Some(String::new()));
    assert_eq!(service_stop_target("web:start"), None);
    assert_eq!(service_stop_target("stop"), None);
    assert_eq!(
        unsupported_service_command("demo"),
        "control plane 'demo' only serves service stop through '/v1/machines/{machine}/services/{service}:stop'"
    );
}

fn layout() -> RuntimeLayout {
    RuntimeLayout {
        config_file: String::from("vm-config.json"),
        manifest_file: String::from("launch.json"),
        pid_file: String::from("vm.pid"),
        firecracker_log: String::from("vm.log"),
        stdout_log: String::from("out.log"),
        stderr_log: String::from("err.log"),
    }
}

fn stored_web(node_name: Option<&str>) -> ServiceStatus {
    ServiceStatus {
        name: String::from("web"),
        machine_name: String::from("cloud-aws"),
        control_plane: Some(String::from("demo")),
        node_name: node_name.map(String::from),
        host_groups: vec![String::from("aws-builders")],
        manifest_path: String::from("runtime/hosted/aws-linux-node/cloud-aws/services/web.json"),
        detail: String::from("stored on aws-linux-node."),
    }
}

#[test]
fn service_stop_refuses_unreadable_missing_and_ambiguous_placements() {
    let config = PortConfig::sample();
    let summary = aws_summary(&config);
    let registered = registered_aws(&config);
    let statics = NameMap::new();

    let action = service_stop_step(
        &config, "demo", "cloud-aws", "web", &summary,
        Err(String::from("state file is corrupt")), &registered, &statics, 40,
    );
    match action {
        ServiceStopAction::Refuse { refusal, message, route } => {
            assert_eq!(refusal, RequestRefusal::BadGateway);
            assert_eq!(
                message,
                "control plane 'demo' could not inspect stored placement for service 'web' on machine 'cloud-aws': state file is corrupt"
            );
            assert_eq!(route.service_name, Some(String::from("web")));
            assert_eq!(route.machine_name, Some(String::from("cloud-aws")));
            assert_eq!(route.node_name, None);
        }
        _ => panic!("an unreadable placement is refused"),
    }

    let action = service_stop_step(
        &config, "demo", "cloud-aws", "web", &summary, Ok(Vec::new()), &registered, &statics, 40,
    );
    match action {
        ServiceStopAction::Refuse { refusal, message, .. } => {
            assert_eq!(refusal, RequestRefusal::NotFound);
            assert_eq!(
                message,
                format!(
                    "control plane 'demo' could not find stored placement for service 'web' on machine 'cloud-aws'. {}",
                    summary.placement_detail
                )
            );
        }
        _ => panic!("a missing placement is refused"),
    }

    let action = service_stop_step(
        &config, "demo", "cloud-aws", "web", &summary,
        Ok(vec![stored_web(None), stored_web(Some("aws-linux-node"))]), &registered, &statics, 40,
    );
    match action {
        ServiceStopAction::Refuse { refusal, message, .. } => {
            assert_eq!(refusal, RequestRefusal::BadGateway);
            assert_eq!(
                message,
                "control plane 'demo' found multiple stored placements for service 'web' on machine 'cloud-aws'"
            );
        }
        _ => panic!("several placements are refused"),
    }
}

#[test]
fn service_stop_reports_or_forwards_a_single_placement() {
    let config = PortConfig::sample();
    let summary = aws_summary(&config);
    let registered = registered_aws(&config);
    let statics = NameMap::new();

    match service_stop_step(
        &config, "demo", "cloud-aws", "web", &summary, Ok(vec![stored_web(None)]), &registered, &statics, 40,
    ) {
        ServiceStopAction::Report { status, route } => {
            assert_eq!(status, stored_web(None));
            assert_eq!(route.runtime_root, Some(String::from("runtime/hosted/aws-linux-node/cloud-aws")));
            assert_eq!(route.placement_detail, Some(String::from("stored on aws-linux-node.")));
            assert_eq!(route.service_name, Some(String::from("web")));
            assert_eq!(route.host_groups, vec![String::from("aws-builders")]);
        }
        _ => panic!("a placement without a node is reported as stored"),
    }

    match service_stop_step(
        &config, "demo", "cloud-aws", "web", &summary,
        Ok(vec![stored_web(Some("aws-linux-node"))]), &registered, &statics, 40,
    ) {
        ServiceStopAction::Forward { binding, node_name, status, route } => {
            assert_eq!(binding.endpoint, "http://127.0.0.1:9001");
            assert_eq!(node_name, "aws-linux-node");
            assert_eq!(status, stored_web(Some("aws-linux-node")));
            assert_eq!(route.node_name, Some(String::from("aws-linux-node")));
        }
        _ => panic!("a live node receives the stop"),
    }

    match service_stop_step(
        &config, "demo", "cloud-aws", "web", &summary,
        Ok(vec![stored_web(Some("aws-linux-node"))]), &registered, &statics, 90,
    ) {
        ServiceStopAction::Report { status, route } => {
            let detail = "stored on aws-linux-node. Stop request could not reach node 'aws-linux-node' because the control plane has no live registered node-agent endpoint for it.";
            assert_eq!(status.detail, detail);
            assert_eq!(route.placement_detail, Some(String::from(detail)));
        }
        _ => panic!("a stale node is reported, not asked"),
    }
}

#[test]
fn service_stop_notes_a_node_that_could_not_be_refreshed() {
    let status = stored_web(Some("aws-linux-node"));
    let route = stored_service_route_context(&status);
    let (reported, reported_route) = service_stop_after_proxy(
        stored_web(Some("aws-linux-node")),
        "aws-linux-node",
        stored_service_route_context(&status),
        Err(String::from("connection refused")),
    );
    assert_eq!(
        reported.detail,
        "stored on aws-linux-node. Stop request could not refresh node 'aws-linux-node': connection refused"
    );
    assert_eq!(reported_route, route);

    let mut answered = stored_web(Some("aws-linux-node"));
    answered.detail = String::from("stopped");
    let answered_route = stored_service_route_context(&answered);
    let (reported, reported_route) = service_stop_after_proxy(
        stored_web(Some("aws-linux-node")),
        "aws-linux-node",
        route,
        Ok((answered, answered_route)),
    );
    assert_eq!(reported.detail, "stopped");
    assert_eq!(reported_route.placement_detail, Some(String::from("stopped")));
}

#[test]
fn machine_listing_routes_through_stored_placements_first() {
    let config = PortConfig::sample();
    let summary = aws_summary(&config);
    let registered = registered_aws(&config);
    let statics = NameMap::new();
    let placement = HostedMachinePlacementRecord {
        node_name: String::from("aws-linux-node"),
        runtime_root: String::from("runtime/hosted/aws-linux-node"),
        placed_at_unix_s: 20,
        placement_detail: Some(String::from("placed by the spread scheduler.")),
    };

    let routing = machine_list_step(&config, "demo", &summary, Some(&placement), &registered, &statics, 40);
    assert_eq!(routing.binding.as_ref().map(|b| b.endpoint.clone()), Some(String::from("http://127.0.0.1:9001")));
    assert_eq!(routing.detail, None);
    assert_eq!(routing.route.node_name, Some(String::from("aws-linux-node")));
    assert_eq!(routing.route.placement_detail, Some(String::from("placed by the spread scheduler.")));

    let routing = machine_list_step(&config, "demo", &summary, Some(&placement), &registered, &statics, 90);
    assert!(routing.binding.is_none());
    assert_eq!(
        routing.detail,
        Some(String::from(
            "stored placement on node 'aws-linux-node' is not currently usable: node 'aws-linux-node' is registered but stale; last refresh 25 with ttl 30s expired at 55 placed by the spread scheduler."
        ))
    );

    let empty = NameMap::new();
    let routing = machine_list_step(&config, "demo", &summary, Some(&placement), &empty, &statics, 40);
    assert_eq!(
        routing.detail,
        Some(String::from(
            "stored placement points at node 'aws-linux-node' but the control plane has no live registered node-agent endpoint for it. placed by the spread scheduler."
        ))
    );

    let routing = machine_list_step(&config, "demo", &summary, None, &registered, &statics, 40);
    assert_eq!(routing.route.runtime_root, Some(String::from("runtime/hosted/aws-linux-node")));
    assert!(routing.detail.is_none());
}

#[test]
fn machine_listing_shows_malformed_status_when_unreachable() {
    let config = PortConfig::sample();
    let summary = aws_summary(&config);
    let registered = registered_aws(&config);
    let statics = NameMap::new();
    let imported = NameMap::new();
    let placement = HostedMachinePlacementRecord {
        node_name: String::from("aws-linux-node"),
        runtime_root: String::from("runtime/hosted/aws-linux-node"),
        placed_at_unix_s: 20,
        placement_detail: None,
    };
    let routing = machine_list_step(&config, "demo", &summary, Some(&placement), &registered, &statics, 90);
    let detail = routing.detail.clone().expect("stale");
    let status = machine_list_entry(&config, "demo", &summary, routing, &layout(), None, &registered, &imported, 90)
        .expect("listing");
    assert_eq!(status.state, MachineRuntimeState::Malformed);
    assert_eq!(status.detail, detail);
    assert_eq!(status.runtime_dir, "runtime/hosted/aws-linux-node/cloud-aws");
    assert_eq!(status.manifest_path, "runtime/hosted/aws-linux-node/cloud-aws/launch.json");
    assert_eq!(status.stderr_log, "runtime/hosted/aws-linux-node/cloud-aws/err.log");
    assert_eq!(status.pid, None);

    let routing = machine_list_step(&config, "demo", &summary, Some(&placement), &registered, &statics, 40);
    let status = machine_list_entry(
        &config, "demo", &summary, routing, &layout(), Some(Err(String::from("timed out"))), &registered, &imported, 40,
    )
    .expect("listing");
    assert_eq!(status.state, MachineRuntimeState::Malformed);
    assert_eq!(status.detail, "timed out");

    let routing = machine_list_step(&config, "demo", &summary, Some(&placement), &registered, &statics, 40);
    let error = machine_list_entry(&config, "demo", &summary, routing, &layout(), None, &registered, &imported, 40)
        .expect_err("a bound routing needs the node's answer");
    assert_eq!(
        error,
        "control plane 'demo' resolved an inconsistent routing state for machine 'cloud-aws'"
    );
}

#[test]
fn machine_commands_launch_or_stop() {
    assert_eq!(machine_command("cloud-aws:launch"), Some(MachineCommand::Launch(String::from("cloud-aws"))));
    assert_eq!(machine_command("cloud-aws:stop"), Some(MachineCommand::Stop(String::from("cloud-aws"))));
    assert_eq!(machine_command(":stop"), Some(MachineCommand::Stop(String::new())));
    assert_eq!(machine_command("cloud-aws:restart"), None);
    assert_eq!(machine_command("launch"), None);
    assert_eq!(
        unsupported_machine_command("demo"),
        "control plane 'demo' only serves launch and stop through '/v1/machines/{machine}:launch' and '/v1/machines/{machine}:stop'"
    );
}

#[test]
fn machine_status_answers_on_the_route_it_was_asked_through() {
    let config = PortConfig::sample();
    let summary = aws_summary(&config);
    let registered = registered_aws(&config);
    let statics = NameMap::new();
    let imported = NameMap::new();

    let routing = machine_list_step(&config, "demo", &summary, None, &registered, &statics, 90);
    let expected_detail = routing.detail.clone().expect("stale registration");
    let (status, route) = machine_status_outcome(
        &config, "demo", &summary, routing, &layout(), None, &registered, &imported, 90,
    )
    .expect("a malformed status");
    assert_eq!(status.state, MachineRuntimeState::Malformed);
    assert_eq!(status.detail, expected_detail);
    assert_eq!(route.node_name, None);
    assert_eq!(status.runtime_dir, ".port/hosted/demo/cloud-aws");

    let routing = machine_list_step(&config, "demo", &summary, None, &registered, &statics, 40);
    let (status, route) = machine_status_outcome(
        &config, "demo", &summary, routing, &layout(), Some(Err(String::from("refused"))), &registered, &imported, 40,
    )
    .expect("a malformed status");
    assert_eq!(status.detail, "refused");
    assert_eq!(route.node_name, Some(String::from("aws-linux-node")));
    assert_eq!(status.runtime_dir, "runtime/hosted/aws-linux-node/cloud-aws");

    let routing = machine_list_step(&config, "demo", &summary, None, &registered, &statics, 40);
    let (message, route) = machine_status_outcome(
        &config, "demo", &summary, routing, &layout(), None, &registered, &imported, 40,
    )
    .expect_err("the node agent must be asked");
    assert_eq!(message, "control plane 'demo' resolved an inconsistent routing state for machine 'cloud-aws'");
    assert_eq!(route.node_name, None);
}

#[test]
fn machine_stop_reports_a_malformed_result_when_unreachable() {
    let config = PortConfig::sample();
    let summary = aws_summary(&config);
    let registered = registered_aws(&config);
    let statics = NameMap::new();

    let routing = machine_list_step(&config, "demo", &summary, None, &registered, &statics, 40);
    let (result, route) = machine_stop_answer(
        "demo", &summary, routing, &layout(), Some(Err(String::from("connection reset"))),
    )
    .expect("a malformed stop result");
    assert_eq!(result.previous_state, MachineRuntimeState::Malformed);
    assert_eq!(result.current_state, MachineRuntimeState::Malformed);
    assert_eq!(result.detail, "connection reset");
    assert_eq!(result.pid, None);
    assert_eq!(result.runtime_dir, "runtime/hosted/aws-linux-node/cloud-aws");
    assert_eq!(route.node_name, Some(String::from("aws-linux-node")));

    let routing = machine_list_step(&config, "demo", &summary, None, &registered, &statics, 40);
    let answered = malformed_stop_result(&summary, &routing.route, &layout(), String::from("stopped"));
    let answered_route = machine_list_step(&config, "demo", &summary, None, &registered, &statics, 40).route;
    let (result, _) = machine_stop_answer(
        "demo", &summary, routing, &layout(), Some(Ok((answered, answered_route))),
    )
    .expect("the node agent's answer");
    assert_eq!(result.detail, "stopped");

    let routing = machine_list_step(&config, "demo", &summary, None, &registered, &statics, 90);
    let (result, _) = machine_stop_answer("demo", &summary, routing, &layout(), None).expect("malformed");
    assert!(result.detail.starts_with("control plane 'demo' could not route machine 'cloud-aws'"));
}

#[test]
fn service_status_refreshes_the_single_stored_placement() {
    let config = PortConfig::sample();
    let summary = aws_summary(&config);
    let registered = registered_aws(&config);
    let statics = NameMap::new();

    match service_status_step("demo", "cloud-aws", "web", &summary, Ok(vec![stored_web(Some("aws-linux-node"))])) {
        ServiceStatusAction::Refresh(status) => assert_eq!(status, stored_web(Some("aws-linux-node"))),
        _ => panic!("a single placement is refreshed"),
    }
    match service_status_step("demo", "cloud-aws", "web", &summary, Ok(Vec::new())) {
        ServiceStatusAction::Refuse { refusal, message, route } => {
            assert_eq!(refusal, RequestRefusal::NotFound);
            assert!(message.starts_with(
                "control plane 'demo' could not find stored placement for service 'web' on machine 'cloud-aws'. "
            ));
            assert_eq!(route.service_name, Some(String::from("web")));
        }
        _ => panic!("a missing placement is refused"),
    }
    match service_status_step(
        "demo", "cloud-aws", "web", &summary, Ok(vec![stored_web(None), stored_web(None)]),
    ) {
        ServiceStatusAction::Refuse { refusal, .. } => assert_eq!(refusal, RequestRefusal::BadGateway),
        _ => panic!("several placements are refused"),
    }

    match service_refresh_step(&config, "demo", stored_web(None), &registered, &statics, 40) {
        ServiceRefresh::Stored(status) => assert_eq!(status, stored_web(None)),
        _ => panic!("a placement without a node is reported as stored"),
    }
    match service_refresh_step(&config, "demo", stored_web(Some("aws-linux-node")), &registered, &statics, 40) {
        ServiceRefresh::Ask { binding, node_name, route, .. } => {
            assert_eq!(binding.node_name, "aws-linux-node");
            assert_eq!(node_name, "aws-linux-node");
            assert_eq!(route.runtime_root, Some(String::from("runtime/hosted/aws-linux-node/cloud-aws")));
        }
        _ => panic!("a live node is asked"),
    }
    match service_refresh_step(&config, "demo", stored_web(Some("aws-linux-node")), &registered, &statics, 90) {
        ServiceRefresh::Stored(status) => assert_eq!(
            status.detail,
            "stored on aws-linux-node. Stored placement points at node 'aws-linux-node' but the control plane has no live registered node-agent endpoint for it."
        ),
        _ => panic!("a stale node is not asked"),
    }

    let refreshed = service_refresh_after_proxy(
        stored_web(Some("aws-linux-node")),
        "aws-linux-node",
        Err(String::from("timed out")),
    );
    assert_eq!(
        refreshed.detail,
        "stored on aws-linux-node. Stored placement on node 'aws-linux-node' could not be refreshed: timed out"
    );
    assert_eq!(
        service_list_refusal("demo", "cloud-aws", "unreadable"),
        "control plane 'demo' could not inspect stored service placement for machine 'cloud-aws': unreadable"
    );
}

#[test]
fn listed_services_are_ordered_by_name() {
    let named = |name: &str, detail: &str| {
        let mut status = stored_web(None);
        status.name = String::from(name);
        status.detail = String::from(detail);
        status
    };
    let sorted = sort_services_by_name(vec![
        named("web", "first web"),
        named("api", "api"),
        named("web", "second web"),
        named("db", "db"),
    ]);
    let order: Vec<(String, String)> = sorted.into_iter().map(|s| (s.name, s.detail)).collect();
    assert_eq!(
        order,
        vec![
            (String::from("api"), String::from("api")),
            (String::from("db"), String::from("db")),
            (String::from("web"), String::from("first web")),
            (String::from("web"), String::from("second web")),
        ]
    );
    assert!(sort_services_by_name(Vec::new()).is_empty());
}

#[test]
fn control_plane_reports_missing_node_binding_with_route_context() {
    let config = PortConfig::sample();
    let summary = aws_summary(&config);
    let registered = NameMap::new();
    let statics = NameMap::new();
    let imported = NameMap::new();
    let routing = machine_list_step(&config, "demo", &summary, None, &registered, &statics, 40);
    assert!(routing.binding.is_none());
    let (status, route) = machine_status_outcome(
        &config, "demo", &summary, routing, &layout(), None, &registered, &imported, 40,
    )
    .expect("a malformed status");
    assert_eq!(status.state, MachineRuntimeState::Malformed);
    assert!(status.detail.contains("aws-linux-node"));
    assert_eq!(route.control_plane, Some(String::from("demo")));
    assert_eq!(status.hosted_fleet_nodes.len(), 1);
    assert_eq!(
        status.hosted_fleet_nodes[0].routing_eligibility,
        HostedFleetRoutingEligibility::MissingRegistration
    );
}

#[test]
fn hosted_fleet_state_reports_merge_failures_with_control_plane_and_node_detail() {
    let config = PortConfig::sample();
    let summary = aws_summary(&config);
    let registered = NameMap::new();
    let statics = NameMap::new();
    let capabilities = config
        .nodes
        .get("aws-linux-node")
        .expect("aws node")
        .capabilities
        .clone();
    let mut imported = NameMap::new();
    imported.insert(
        String::from("aws-linux-node"),
        ImportedNodeRecord {
            node_name: String::from("aws-linux-node"),
            provider: port_model::model::HostProvider::Gcp,
            provenance: String::from("inventory-sync"),
            imported_at: 123,
            capability_summary: capabilities,
        },
    );
    let routing = machine_list_step(&config, "demo", &summary, None, &registered, &statics, 40);
    let (message, route) = machine_status_outcome(
        &config, "demo", &summary, routing, &layout(), None, &registered, &imported, 40,
    )
    .expect_err("the fleet state cannot be merged");
    assert!(message.contains("control plane 'demo'"), "{}", message);
    assert!(message.contains("cloud-aws"), "{}", message);
    assert!(message.contains("aws-linux-node"), "{}", message);
    assert_eq!(route.control_plane.as_deref(), Some("demo"));
    assert_eq!(route.machine_name.as_deref(), Some("cloud-aws"));
}
