use port_model::hosted_state::{
    machine_placement_state_path, registered_node_state_path, validate_registered_node_state,
    RegisteredNodeStateFile,
};
use port_model::model::{HostedNodeRegistration, PortConfig};
use port_model::named_map::NameMap;

#[test]
fn registered_node_state_path_is_scoped_under_control_plane_runtime_root() {
    assert_eq!(
        registered_node_state_path("demo"),
        String::from(".port/hosted/demo/registered-nodes.json")
    );
}

#[test]
fn machine_placement_state_path_is_scoped_under_control_plane_runtime_root() {
    assert_eq!(
        machine_placement_state_path("demo"),
        String::from(".port/hosted/demo/machine-placements.json")
    );
}

fn sample_control_plane_config(root: &str) -> PortConfig {
    let mut config = PortConfig::sample();
    let mut control_plane = config
        .control_planes
        .remove("demo")
        .expect("demo control plane");
    control_plane.endpoint = String::from("http://127.0.0.1:0");
    config.control_planes.insert(String::from("demo"), control_plane);
    let mut node = config
        .nodes
        .remove("aws-linux-node")
        .expect("aws node should exist");
    node.runtime_root = format!("{}/hosted/aws-linux-node", root);
    config.nodes.insert(String::from("aws-linux-node"), node);
    config
}

#[test]
fn registered_node_state_validates_into_registered_contracts() {
    let config = sample_control_plane_config("/tmp/port-registered-state");
    let mut nodes = NameMap::new();
    nodes.insert(
        String::from("aws-linux-node"),
        HostedNodeRegistration {
            endpoint: String::from("http://127.0.0.1:9001"),
            token: String::from("node-secret"),
            registered_at: 10,
            refreshed_at: 25,
            ttl_seconds: 30,
        },
    );
    let state = RegisteredNodeStateFile {
        control_plane: String::from("demo"),
        nodes,
    };

    let contracts = match validate_registered_node_state(&config, &state) {
        Ok(contracts) => contracts,
        Err(error) => panic!("state should validate: {}", error),
    };
    let contract = contracts.get("aws-linux-node").expect("contract for aws-linux-node");
    assert_eq!(contract.node_name, "aws-linux-node");
    assert_eq!(contract.endpoint, "http://127.0.0.1:9001");
    assert_eq!(contract.freshness.fresh_until, 55);
    assert!(contract.host_groups.contains(&String::from("aws-builders")));
    assert!(contract.host_groups.contains(&String::from("remote-linux")));
}

#[test]
fn registered_node_state_rejects_invalid_registration_detail() {
    let config = sample_control_plane_config("/tmp/port-registered-state");
    let mut nodes = NameMap::new();
    nodes.insert(
        String::from("aws-linux-node"),
        HostedNodeRegistration {
            endpoint: String::from("http://127.0.0.1:9001"),
            token: String::from(" "),
            registered_at: 10,
            refreshed_at: 25,
            ttl_seconds: 30,
        },
    );
    let state = RegisteredNodeStateFile {
        control_plane: String::from("demo"),
        nodes,
    };

    let error = match validate_registered_node_state(&config, &state) {
        Ok(_) => panic!("blank token should fail"),
        Err(error) => error,
    };
    assert!(
        error.to_string().contains("must declare a non-empty token"),
        "{}",
        error
    );
}
