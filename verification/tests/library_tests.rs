use port_model::hosted_state::{
    build_node_agent_state, imported_inventory_records, normalize_node_agent_endpoint,
    validate_machine_placement_state, validate_registered_node_state,
    ImportedInventoryStateFile, MachinePlacementStateFile, NodeAgentServeRequest,
    RegisteredNodeStateFile,
};
use port_model::model::{
    HostedImportedNodeRecord,
    ArtifactReference, ArtifactSelector, ExecutionSubstrate, HostPlatform, HostProvider,
    HostedNodeCapabilities, HostedNodeRegistration, HostedPvmCapability, MachineArchitecture,
    PortConfig, ProtectionMode, PvmCapabilityState,
};
use port_model::named_map::NameMap;
use port_model::services::render_k3s_version_label;

fn registration(registered_at: u64, refreshed_at: u64, ttl_seconds: u64) -> HostedNodeRegistration {
    HostedNodeRegistration {
        endpoint: String::from("http://127.0.0.1:9001"),
        token: String::from("node-secret"),
        registered_at,
        refreshed_at,
        ttl_seconds,
    }
}

fn lane(architecture: MachineArchitecture, state: PvmCapabilityState, note: &str) -> HostedPvmCapability {
    HostedPvmCapability {
        architecture,
        state,
        host_kit: None,
        notes: vec![String::from(note)],
    }
}

fn capabilities(lanes: Vec<HostedPvmCapability>) -> HostedNodeCapabilities {
    HostedNodeCapabilities {
        providers: vec![HostProvider::Aws],
        platforms: vec![HostPlatform::Linux],
        substrates: vec![ExecutionSubstrate::Firecracker],
        architectures: vec![MachineArchitecture::X86_64],
        protection_modes: vec![ProtectionMode::Standard, ProtectionMode::Pvm],
        pvm_lanes: lanes,
    }
}

#[test]
fn name_map_reads_back_what_was_written() {
    let mut map: NameMap<u64> = NameMap::new();
    assert!(map.insert(String::from("b"), 2).is_none());
    assert!(map.insert(String::from("a"), 1).is_none());
    assert_eq!(map.insert(String::from("b"), 3), Some(2));
    assert_eq!(map.get("a"), Some(&1));
    assert_eq!(map.get("b"), Some(&3));
    assert_eq!(map.get("c"), None);
    assert_eq!(map.keys(), vec![String::from("a"), String::from("b")]);
    assert_eq!(map.remove("a"), Some(1));
    assert_eq!(map.get("a"), None);
    assert_eq!(map.get("b"), Some(&3));
    assert_eq!(map.len(), 1);
    assert_eq!(map.remove("a"), None);
}

#[test]
fn freshness_window_runs_from_the_last_refresh() {
    let contract = registration(10, 25, 30)
        .freshness("demo", "aws-linux-node")
        .expect("registration should be fresh");
    assert_eq!(contract.registered_at, 10);
    assert_eq!(contract.refreshed_at, 25);
    assert_eq!(contract.ttl_seconds, 30);
    assert_eq!(contract.fresh_until, 55);
}

#[test]
fn freshness_rejects_each_invalid_registration() {
    let mut blank_endpoint = registration(10, 25, 30);
    blank_endpoint.endpoint = String::from("  ");
    assert_eq!(
        blank_endpoint.freshness("demo", "n1").unwrap_err().message(),
        "registered node 'n1' for control plane 'demo' must declare a non-empty endpoint"
    );

    let mut blank_token = registration(10, 25, 30);
    blank_token.token = String::new();
    assert_eq!(
        blank_token.freshness("demo", "n1").unwrap_err().message(),
        "registered node 'n1' for control plane 'demo' must declare a non-empty token"
    );

    assert_eq!(
        registration(10, 25, 0).freshness("demo", "n1").unwrap_err().message(),
        "registered node 'n1' for control plane 'demo' must declare a ttl_seconds greater than zero"
    );

    assert_eq!(
        registration(10, 5, 30).freshness("demo", "n1").unwrap_err().message(),
        "registered node 'n1' for control plane 'demo' cannot refresh before its initial registration (5 < 10)"
    );

    assert_eq!(
        registration(10, u64::MAX, 1).freshness("demo", "n1").unwrap_err().message(),
        "registered node 'n1' for control plane 'demo' overflowed its freshness window"
    );
}

#[test]
fn node_agent_endpoints_gain_a_scheme_once() {
    let normalized = normalize_node_agent_endpoint("127.0.0.1:9001");
    assert_eq!(normalized, "http://127.0.0.1:9001");
    assert_eq!(normalize_node_agent_endpoint(&normalized), normalized);
    assert_eq!(
        normalize_node_agent_endpoint("https://node.example:9001"),
        "https://node.example:9001"
    );
}

#[test]
fn demoting_imported_readiness_leaves_no_ready_lane() {
    let caps = capabilities(vec![
        lane(MachineArchitecture::X86_64, PvmCapabilityState::Ready, "imported"),
        lane(MachineArchitecture::Aarch64, PvmCapabilityState::ResearchOnly, "research"),
    ]);
    let once = caps.without_imported_pvm_readiness();
    assert_eq!(once.pvm_lanes.len(), 2);
    assert_eq!(once.pvm_lanes[0].state, PvmCapabilityState::Planned);
    assert_eq!(once.pvm_lanes[0].architecture, MachineArchitecture::X86_64);
    assert_eq!(once.pvm_lanes[0].notes, vec![String::from("imported")]);
    assert_eq!(once.pvm_lanes[1].state, PvmCapabilityState::ResearchOnly);
    assert_eq!(once.providers, caps.providers);
    let twice = once.without_imported_pvm_readiness();
    assert_eq!(twice, once);
}

#[test]
fn capability_sets_are_within_themselves() {
    let caps = capabilities(vec![lane(
        MachineArchitecture::X86_64,
        PvmCapabilityState::Ready,
        "ready",
    )]);
    assert!(caps.is_subset_of(&caps));

    let mut wider = capabilities(vec![]);
    wider.providers.push(HostProvider::Gcp);
    assert!(!wider.is_subset_of(&caps));
    assert!(caps.is_populated());
}

#[test]
fn pvm_lane_lookup_finds_the_first_lane_of_an_architecture() {
    let caps = capabilities(vec![
        lane(MachineArchitecture::Aarch64, PvmCapabilityState::Planned, "arm"),
        lane(MachineArchitecture::X86_64, PvmCapabilityState::Ready, "first"),
        lane(MachineArchitecture::X86_64, PvmCapabilityState::Planned, "second"),
    ]);
    let found = caps
        .pvm_lane_for(MachineArchitecture::X86_64, MachineArchitecture::Aarch64)
        .expect("an x86_64 lane exists");
    assert_eq!(found.notes, vec![String::from("first")]);
    let native = caps
        .pvm_lane_for(MachineArchitecture::Native, MachineArchitecture::Aarch64)
        .expect("native resolves to aarch64");
    assert_eq!(native.notes, vec![String::from("arm")]);

    let only_arm = capabilities(vec![lane(
        MachineArchitecture::Aarch64,
        PvmCapabilityState::Planned,
        "arm",
    )]);
    assert!(only_arm
        .pvm_lane_for(MachineArchitecture::X86_64, MachineArchitecture::X86_64)
        .is_none());
}

#[test]
fn sample_host_groups_each_share_one_control_plane() {
    let config = PortConfig::sample();
    let inventory = config
        .hosted_inventory_contract()
        .expect("sample inventory should resolve");
    assert_eq!(
        inventory.host_groups.keys(),
        vec![String::from("aws-builders"), String::from("remote-linux")]
    );
    let mut i = 0;
    while i < inventory.host_groups.len() {
        let group = inventory.host_groups.value_at(i);
        assert!(!group.nodes.is_empty());
        for node in &group.nodes {
            let contract = inventory.nodes.get(node).expect("member node is in the inventory");
            assert_eq!(contract.control_plane, group.control_plane);
        }
        i += 1;
    }
    let remote = inventory.host_groups.get("remote-linux").expect("remote-linux group");
    assert_eq!(remote.nodes.len(), 3);
    assert_eq!(remote.control_plane, "demo");
}

#[test]
fn k3s_version_label_falls_back_to_the_packaged_image() {
    assert_eq!(render_k3s_version_label(None), "default (packaged guest image)");
    assert_eq!(render_k3s_version_label(Some("v1.30.4+k3s1")), "v1.30.4+k3s1");
}

#[test]
fn oci_remote_reference_joins_reference_and_selector() {
    let selector = ArtifactSelector {
        architecture: MachineArchitecture::X86_64,
        substrate: ExecutionSubstrate::Firecracker,
        protection_mode: ProtectionMode::Standard,
    };
    let reference = ArtifactReference {
        registry: String::from("registry.port.test:5000"),
        repository: String::from("artifacts/demo-kernel"),
        version: String::from("v1"),
    };
    assert_eq!(
        reference.oci_remote_reference(selector),
        "registry.port.test:5000/artifacts/demo-kernel:v1-x86_64-firecracker-standard"
    );
}

#[test]
fn node_agent_state_requires_a_configured_node() {
    let error = match build_node_agent_state(
        PortConfig::sample(),
        NodeAgentServeRequest {
            node_name: String::from("missing-node"),
            bind: String::from("127.0.0.1:9001"),
            token: String::from("secret"),
        },
    ) {
        Ok(_) => panic!("an unknown node should be refused"),
        Err(error) => error,
    };
    assert_eq!(error, "unknown hosted node 'missing-node' for node-agent serve");

    let state = match build_node_agent_state(
        PortConfig::sample(),
        NodeAgentServeRequest {
            node_name: String::from("aws-linux-node"),
            bind: String::from("127.0.0.1:9001"),
            token: String::from("secret"),
        },
    ) {
        Ok(state) => state,
        Err(error) => panic!("{}", error),
    };
    assert_eq!(state.node_name, "aws-linux-node");
    assert_eq!(state.bind, "127.0.0.1:9001");
    assert_eq!(state.token, "secret");
}

#[test]
fn registered_state_refuses_unknown_or_blank_control_planes() {
    let config = PortConfig::sample();
    let blank = RegisteredNodeStateFile {
        control_plane: String::from(" "),
        nodes: NameMap::new(),
    };
    assert_eq!(
        validate_registered_node_state(&config, &blank).err(),
        Some(String::from("registered node state must declare a non-empty control plane"))
    );
    let unknown = RegisteredNodeStateFile {
        control_plane: String::from("elsewhere"),
        nodes: NameMap::new(),
    };
    assert_eq!(
        validate_registered_node_state(&config, &unknown).err(),
        Some(String::from(
            "registered node state references unknown control plane 'elsewhere'"
        ))
    );
}

#[test]
fn registered_state_refuses_nodes_outside_the_inventory() {
    let config = PortConfig::sample();
    let mut nodes = NameMap::new();
    nodes.insert(String::from("ghost-node"), registration(10, 25, 30));
    let state = RegisteredNodeStateFile {
        control_plane: String::from("demo"),
        nodes,
    };
    let error = validate_registered_node_state(&config, &state).err().expect("should fail");
    assert!(
        error.contains("registered node 'ghost-node' does not exist in hosted inventory for control plane 'demo'"),
        "{}",
        error
    );
}

#[test]
fn placement_state_refuses_unknown_control_planes() {
    let config = PortConfig::sample();
    let state = MachinePlacementStateFile {
        control_plane: String::from("elsewhere"),
        machines: NameMap::new(),
    };
    assert_eq!(
        validate_machine_placement_state(&config, MachineArchitecture::X86_64, &state).err(),
        Some(String::from(
            "machine placement state references unknown control plane 'elsewhere'"
        ))
    );
    let empty = MachinePlacementStateFile {
        control_plane: String::from("demo"),
        machines: NameMap::new(),
    };
    let records = validate_machine_placement_state(&config, MachineArchitecture::X86_64, &empty)
        .expect("an empty placement state is valid");
    assert_eq!(records.len(), 0);
}

#[test]
fn imported_inventory_refuses_unknown_control_planes() {
    let config = PortConfig::sample();
    let state = ImportedInventoryStateFile {
        control_plane: String::from("elsewhere"),
        nodes: NameMap::new(),
    };
    let error = match imported_inventory_records(&config, "state/imported.json", &state) {
        Ok(_) => panic!("an unknown control plane should be refused"),
        Err(error) => error,
    };
    assert_eq!(
        error,
        "imported inventory state at 'state/imported.json' references unknown control plane 'elsewhere'"
    );
}

fn imported(provider: HostProvider, config: &PortConfig) -> HostedImportedNodeRecord {
    HostedImportedNodeRecord {
        provider,
        provenance: String::from("inventory-sync"),
        imported_at: 456,
        capability_summary: config
            .nodes
            .get("aws-linux-node")
            .expect("aws node")
            .capabilities
            .clone(),
        pvm_host_kit_packages: vec![],
    }
}

#[test]
fn imported_inventory_names_the_import_and_the_node() {
    let config = PortConfig::sample();
    let mut nodes = NameMap::new();
    nodes.insert(String::from("runtime-only-node"), imported(HostProvider::Aws, &config));
    let state = ImportedInventoryStateFile {
        control_plane: String::from("demo"),
        nodes,
    };
    let error = match imported_inventory_records(&config, "state/imported.json", &state) {
        Ok(_) => panic!("an unknown node should be refused"),
        Err(error) => error,
    };
    assert_eq!(
        error,
        "imported inventory state at 'state/imported.json' for control plane 'demo' references unknown configured node 'runtime-only-node'"
    );

    let mut nodes = NameMap::new();
    nodes.insert(String::from("aws-linux-node"), imported(HostProvider::Gcp, &config));
    let state = ImportedInventoryStateFile {
        control_plane: String::from("demo"),
        nodes,
    };
    let error = match imported_inventory_records(&config, "state/imported.json", &state) {
        Ok(_) => panic!("a conflicting provider should be refused"),
        Err(error) => error,
    };
    assert_eq!(
        error,
        "imported inventory state at 'state/imported.json' for node 'aws-linux-node' conflicts on provider: imported 'gcp' is not permitted by configured capabilities"
    );

    let mut nodes = NameMap::new();
    nodes.insert(String::from("aws-linux-node"), imported(HostProvider::Aws, &config));
    let state = ImportedInventoryStateFile {
        control_plane: String::from("demo"),
        nodes,
    };
    let records = match imported_inventory_records(&config, "state/imported.json", &state) {
        Ok(records) => records,
        Err(error) => panic!("{}", error),
    };
    let record = records.get("aws-linux-node").expect("imported record");
    assert_eq!(record.provider, HostProvider::Aws);
    assert_eq!(record.provenance, "inventory-sync");
    assert_eq!(record.imported_at, 456);
}

#[test]
fn registered_node_host_groups_come_in_name_order() {
    let config = PortConfig::sample();
    let inventory = config
        .hosted_inventory_contract()
        .expect("sample inventory should resolve");
    let contract = match inventory.hosted_registered_node_contract(
        "demo",
        "aws-linux-node",
        &registration(10, 25, 30),
    ) {
        Ok(contract) => contract,
        Err(error) => panic!("{}", error.message()),
    };
    assert_eq!(
        contract.host_groups,
        vec![String::from("aws-builders"), String::from("remote-linux")]
    );
}

#[test]
fn local_machines_have_no_hosted_summary() {
    let config = PortConfig::sample();
    match config.hosted_machine_summary_contract("demo", MachineArchitecture::X86_64) {
        Ok(None) => {}
        _ => panic!("a machine on the local host is outside the hosted fleet"),
    }
    match config.hosted_machine_summary_contract("cloud-aws", MachineArchitecture::X86_64) {
        Ok(Some(summary)) => {
            assert_eq!(summary.candidate_nodes.len() + summary.rejected_nodes.len(), 1);
        }
        _ => panic!("cloud-aws is hosted"),
    }
}

#[test]
fn artifact_endpoints_need_exactly_one_owner() {
    let mut config = PortConfig::sample();
    let identity = config
        .hosted_artifact_identity_contract("  https://port.example.internal  ")
        .expect("the demo control plane owns its trimmed endpoint");
    assert_eq!(identity.control_plane, "demo");
    assert!(config.hosted_artifact_identity_contract("https://other.example").is_err());
    assert!(config.hosted_artifact_identity_contract("   ").is_err());
    let demo = config.control_planes.get("demo").expect("demo").clone();
    config.control_planes.insert(String::from("second"), demo);
    let error = config
        .hosted_artifact_identity_contract("https://port.example.internal")
        .expect_err("two owners are ambiguous");
    assert!(error.message().contains("is ambiguous across control planes 'demo' and 'second'"));
}

#[test]
fn summary_partitions_the_nodes_on_the_host() {
    let config = PortConfig::sample();
    let summary = match config.hosted_machine_summary_contract("cloud-aws", MachineArchitecture::X86_64) {
        Ok(Some(summary)) => summary,
        _ => panic!("cloud-aws is hosted"),
    };
    let rejected = summary.rejected_nodes.keys();
    let mut on_host = summary.candidate_nodes.clone();
    on_host.extend(rejected.iter().cloned());
    on_host.sort();
    assert_eq!(on_host, vec![String::from("aws-linux-node")]);
    assert!(summary.candidate_nodes.iter().all(|n| !rejected.contains(n)));
    assert_eq!(
        summary.host_groups,
        vec![String::from("aws-builders"), String::from("remote-linux")]
    );
    assert_eq!(summary.host_group_policies.keys(), summary.host_groups);
    let inventory = config.hosted_inventory_contract().expect("inventory");
    for group in &summary.host_groups {
        assert_eq!(
            summary.host_group_policies.get(group),
            Some(&inventory.host_groups.get(group).expect("group").scheduler)
        );
    }
}
