use port_model::artifacts::hosted_artifact_store_path;
use port_model::model::{
    ArtifactKind, ArtifactReference, ArtifactSelector, ArtifactStore, AvfConsoleTransport,
    AvfExecutionContract, AvfGuestTransport, AvfLaunchOwner, ClusterProvider,
    ExecutionSubstrate, FirecrackerPvmLaneContract, GuestCommandVerb, HostConnection,
    HostPlatform, HostProvider, HostedAuthScheme, HostedAuthTokenContract,
    HostedAuthTokenSource, HostedControlPlaneSpec, HostedGuestAttachActor, HostedGuestAttachHop,
    HostedGuestProtocolContract, HostedK3sHaTopologyPosture, HostedNodeCapabilities,
    HostedNodeRegistration, HostedNodeSpec, HostedPlacementPolicy, HostedSchedulerPolicy,
    K3sClusterSpec, MachineArchitecture, MachineCommandRoute, MachineControlContract,
    MachineGuestBroker, MachineInventoryOwner, MachineInventoryScope, MachineLifecycleOwner,
    MachineRootfsOverlaySpec, MachineRuntimeClassKind, MachineRuntimeClassSpec,
    MachineRuntimeDeclaredInput, MachineRuntimeStateIsolation, MachineRuntimeTrustPosture,
    MachineRuntimeWorkspaceBinding, MachineRuntimeWritableRoot, MachineStatusSource,
    OciRegistryAuth, OciRegistryTransport, PortConfig, ProtectionMode, PvmCapabilityState,
    PvmLaneDecision, ServiceHealthPolicy, ServiceHealthcheck, ServiceKind, ServicePolicy,
    ServiceRestartPolicy,
};

fn sample_avf_config() -> PortConfig {
    let mut config = PortConfig::sample();
    config.clusters.clear();
    let mut machine = config.machines.remove("demo").expect("sample machine should exist");
    machine.host = String::from("mac-local");
    machine.substrate = ExecutionSubstrate::Avf;
    machine.architecture = MachineArchitecture::X86_64;
    machine.protection_mode = ProtectionMode::Standard;
    config.machines.insert(String::from("demo"), machine);

    config
}

#[test]
fn workspace_scratch_runtime_class_rejects_publish_trust() {
    let mut sample = PortConfig::sample();
    sample.clusters.clear();
    let mut machine = sample.machines.remove("demo").expect("sample machine should exist");
    machine.architecture = MachineArchitecture::X86_64;
    machine.rootfs_read_only = true;
    machine.rootfs_overlay = Some(MachineRootfsOverlaySpec { size_mib: 4096 });
    machine.runtime_class = Some(MachineRuntimeClassSpec {
        kind: MachineRuntimeClassKind::WorkspaceScratchBuilder,
        trust: MachineRuntimeTrustPosture::PromotionTrusted,
        state_isolation: MachineRuntimeStateIsolation::WorkspaceWritable,
        writable_roots: vec![
            MachineRuntimeWritableRoot::NixStore,
            MachineRuntimeWritableRoot::SourceRoot,
            MachineRuntimeWritableRoot::TempRoot,
        ],
        declared_inputs: Vec::new(),
        workspace: Some(MachineRuntimeWorkspaceBinding {
            workspace: String::from("demo"),
            lane: String::from("scratch"),
        }),
    });
    sample.machines.insert(String::from("demo"), machine);

    let error = sample
        .validate(MachineArchitecture::X86_64)
        .expect_err("scratch builder should reject publish trust");
    assert!(
        error
            .message()
            .contains("must stay 'workspace-untrusted' and cannot imply publish trust"),
        "{}", error.message()
    );
}

#[test]
fn workspace_scratch_runtime_class_requires_declared_writable_roots() {
    let mut sample = PortConfig::sample();
    sample.clusters.clear();
    let mut machine = sample.machines.remove("demo").expect("sample machine should exist");
    machine.architecture = MachineArchitecture::X86_64;
    machine.rootfs_read_only = true;
    machine.rootfs_overlay = Some(MachineRootfsOverlaySpec { size_mib: 4096 });
    machine.runtime_class = Some(MachineRuntimeClassSpec {
        kind: MachineRuntimeClassKind::WorkspaceScratchBuilder,
        trust: MachineRuntimeTrustPosture::WorkspaceUntrusted,
        state_isolation: MachineRuntimeStateIsolation::WorkspaceWritable,
        writable_roots: vec![
            MachineRuntimeWritableRoot::NixStore,
            MachineRuntimeWritableRoot::SourceRoot,
        ],
        declared_inputs: Vec::new(),
        workspace: Some(MachineRuntimeWorkspaceBinding {
            workspace: String::from("demo"),
            lane: String::from("scratch"),
        }),
    });
    sample.machines.insert(String::from("demo"), machine);

    let error = sample
        .validate(MachineArchitecture::X86_64)
        .expect_err("scratch builder should require the temp root");
    assert!(
        error
            .message()
            .contains("must declare writable root 'temp-root'"),
        "{}", error.message()
    );
}

#[test]
fn promotion_runner_runtime_class_rejects_workspace_binding() {
    let mut sample = PortConfig::sample();
    sample.clusters.clear();
    let mut machine = sample.machines.remove("cloud-aws").expect("sample machine should exist");
    machine.architecture = MachineArchitecture::X86_64;
    machine.rootfs_read_only = true;
    machine.rootfs_overlay = Some(MachineRootfsOverlaySpec { size_mib: 4096 });
    machine.runtime_class = Some(MachineRuntimeClassSpec {
        kind: MachineRuntimeClassKind::BlessedClosurePromotionRunner,
        trust: MachineRuntimeTrustPosture::PromotionTrusted,
        state_isolation: MachineRuntimeStateIsolation::CleanRoom,
        writable_roots: vec![MachineRuntimeWritableRoot::EvidenceRoot],
        declared_inputs: vec![
            MachineRuntimeDeclaredInput::SourceBundle,
            MachineRuntimeDeclaredInput::RequestedOutputs,
            MachineRuntimeDeclaredInput::PolicySnapshot,
        ],
        workspace: Some(MachineRuntimeWorkspaceBinding {
            workspace: String::from("demo"),
            lane: String::from("scratch"),
        }),
    });
    sample.machines.insert(String::from("cloud-aws"), machine);

    let error = sample
        .validate(MachineArchitecture::X86_64)
        .expect_err("promotion runner should reject workspace binding");
    assert!(
        error
            .message()
            .contains("must not carry a workspace binding or creator-scoped identity"),
        "{}", error.message()
    );
}

#[test]
fn promotion_runner_runtime_class_rejects_scratch_writable_roots() {
    let mut sample = PortConfig::sample();
    sample.clusters.clear();
    let mut machine = sample.machines.remove("cloud-aws").expect("sample machine should exist");
    machine.architecture = MachineArchitecture::X86_64;
    machine.rootfs_read_only = true;
    machine.rootfs_overlay = Some(MachineRootfsOverlaySpec { size_mib: 4096 });
    machine.runtime_class = Some(MachineRuntimeClassSpec {
        kind: MachineRuntimeClassKind::BlessedClosurePromotionRunner,
        trust: MachineRuntimeTrustPosture::PromotionTrusted,
        state_isolation: MachineRuntimeStateIsolation::CleanRoom,
        writable_roots: vec![
            MachineRuntimeWritableRoot::EvidenceRoot,
            MachineRuntimeWritableRoot::TempRoot,
        ],
        declared_inputs: vec![
            MachineRuntimeDeclaredInput::SourceBundle,
            MachineRuntimeDeclaredInput::RequestedOutputs,
            MachineRuntimeDeclaredInput::PolicySnapshot,
        ],
        workspace: None,
    });
    sample.machines.insert(String::from("cloud-aws"), machine);

    let error = sample
        .validate(MachineArchitecture::X86_64)
        .expect_err("promotion runner should reject scratch writable roots");
    assert!(
        error
            .message()
            .contains("must not reuse scratch writable roots"),
        "{}", error.message()
    );
}

#[test]
fn local_cluster_contract_rejects_follow_on_provider_and_count_shapes() {
    let mut config = PortConfig::sample();
    {
        let mut entry = config.clusters.remove("demo").expect("sample local cluster should exist");
        entry.provider = ClusterProvider::Aws;
        config.clusters.insert(String::from("demo"), entry);
    }

    let error = config
        .validate(MachineArchitecture::X86_64)
        .expect_err("aws cluster provider should fail validation");
    assert!(
        error
            .message()
            .contains("only provider 'local' is supported in this slice")
    );

    let mut config = PortConfig::sample();
    {
        let mut entry = config.clusters.remove("demo").expect("sample local cluster should exist");
        entry.count = 2;
        config.clusters.insert(String::from("demo"), entry);
    }

    let error = config
        .validate(MachineArchitecture::X86_64)
        .expect_err("multi-node cluster should fail validation");
    assert!(
        error
            .message()
            .contains("only count = 1 is supported in this slice")
    );
}

#[test]
fn local_cluster_contract_rejects_relative_stage_root_and_empty_guest_profile_commands() {
    let mut config = PortConfig::sample();
    {
        let mut entry = config.clusters.remove("demo").expect("sample local cluster should exist");
        entry.bootstrap.stage_root = String::from("opt/port/clusters/demo");
        config.clusters.insert(String::from("demo"), entry);
    }

    let error = config
        .validate(MachineArchitecture::X86_64)
        .expect_err("relative cluster stage root should fail validation");
    assert!(error.message().contains("must be an absolute guest path"));

    let mut config = PortConfig::sample();
    {
        let mut entry = config.clusters.remove("demo").expect("sample local cluster should exist");
        entry.bootstrap.guest_profile.required_commands = Vec::new();
        config.clusters.insert(String::from("demo"), entry);
    }

    let error = config
        .validate(MachineArchitecture::X86_64)
        .expect_err("empty guest profile commands should fail validation");
    assert!(
        error
            .message()
            .contains("must declare at least one required command")
    );

    let mut config = PortConfig::sample();
    {
        let mut entry = config.clusters.remove("demo").expect("sample local cluster should exist");
        entry.lifecycle.health_command = Vec::new();
        config.clusters.insert(String::from("demo"), entry);
    }

    let error = config
        .validate(MachineArchitecture::X86_64)
        .expect_err("empty lifecycle health command should fail validation");
    assert!(error.message().contains("non-empty health_command"));

    let mut config = PortConfig::sample();
    {
        let mut entry = config.clusters.remove("demo").expect("sample local cluster should exist");
        entry.lifecycle.kubeconfig_path = String::from("etc/rancher/k3s/k3s.yaml");
        config.clusters.insert(String::from("demo"), entry);
    }

    let error = config
        .validate(MachineArchitecture::X86_64)
        .expect_err("relative kubeconfig path should fail validation");
    assert!(error.message().contains("must be an absolute guest path"));

    let mut config = PortConfig::sample();
    {
        let mut entry = config.clusters.remove("demo").expect("sample local cluster should exist");
        entry.lifecycle.api_forward_target = String::new();
        config.clusters.insert(String::from("demo"), entry);
    }

    let error = config
        .validate(MachineArchitecture::X86_64)
        .expect_err("empty api forward target should fail validation");
    assert!(error.message().contains("non-empty guest endpoint"));
}

#[test]
fn local_cluster_contract_preserves_existing_machine_routes() {
    let config = PortConfig::sample();

    config
        .validate(MachineArchitecture::X86_64)
        .expect("sample config with local cluster should remain valid");
    assert_eq!(
        config
            .machine_control_contract("demo")
            .expect("local machine contract should resolve"),
        MachineControlContract::local_runtime_root()
    );
    assert_eq!(
        config
            .machine_control_contract("cloud-aws")
            .expect("hosted machine contract should resolve"),
        MachineControlContract::hosted_control_plane()
    );
    assert!(
        config
            .hosted_guest_attach_contract("cloud-aws", MachineArchitecture::X86_64)
            .expect("hosted guest attach contract should resolve")
            .is_some(),
        "hosted guest contract should remain available with local clusters present"
    );
}

#[test]
fn hosted_k3s_spread_scheduler_requires_distinct_candidate_nodes() {
    let mut sample = PortConfig::sample();
    let mut server_b = sample
        .machines
        .get("cloud-aws")
        .expect("cloud-aws should exist")
        .clone();
    server_b.guest.vsock_cid = 62;
    server_b.guest.control_port = 7002;
    server_b.guest.console_log = String::from("runtime/cloud-aws-b/console.log");
    sample
        .machines
        .insert(String::from("cloud-aws-b"), server_b);
    sample.k3s_clusters.insert(
        String::from("demo"),
        K3sClusterSpec {
            control_plane: String::from("demo"),
            host_group: String::from("aws-builders"),
            server_machines: vec![String::from("cloud-aws"), String::from("cloud-aws-b")],
            worker_machines: Vec::new(),
            api_endpoint: String::from("https://demo-k3s.internal:6443"),
            control_plane_scheduler: HostedSchedulerPolicy::Spread,
            version: Some(String::from("v1.35.2+k3s1")),
            server_args: vec![String::from("--disable=traefik")],
            worker_args: Vec::new(),
        },
    );

    let error = sample
        .validate(MachineArchitecture::X86_64)
        .expect_err("spread should fail when only one candidate node exists");
    let message = error.message();
    assert!(message.contains("control-plane scheduler 'spread'"));
    assert!(message.contains("distinct hosted candidate nodes"));
    assert!(message.contains("aws-builders"));
}

#[test]
fn hosted_k3s_two_control_planes_with_spread_stay_non_ha_topology() {
    let mut sample = PortConfig::sample();
    let mut server_b = sample
        .machines
        .get("cloud-aws")
        .expect("cloud-aws should exist")
        .clone();
    server_b.guest.vsock_cid = 62;
    server_b.guest.control_port = 7002;
    server_b.guest.console_log = String::from("runtime/cloud-aws-b/console.log");
    sample
        .machines
        .insert(String::from("cloud-aws-b"), server_b);
    sample.k3s_clusters.insert(
        String::from("demo"),
        K3sClusterSpec {
            control_plane: String::from("demo"),
            host_group: String::from("aws-builders"),
            server_machines: vec![String::from("cloud-aws"), String::from("cloud-aws-b")],
            worker_machines: Vec::new(),
            api_endpoint: String::from("https://demo-k3s.internal:6443"),
            control_plane_scheduler: HostedSchedulerPolicy::Spread,
            version: Some(String::from("v1.35.2+k3s1")),
            server_args: vec![String::from("--disable=traefik")],
            worker_args: Vec::new(),
        },
    );

    let cluster = sample
        .k3s_clusters
        .get("demo")
        .expect("demo cluster should exist");
    assert_eq!(
        cluster.ha_topology_posture(),
        HostedK3sHaTopologyPosture::NonHaTopology
    );
}

#[test]
fn hosted_k3s_three_control_planes_with_spread_become_ha_eligible_topology() {
    let mut sample = PortConfig::sample();
    for (name, cid, port, log) in [
        ("cloud-aws-b", 62, 7002, "runtime/cloud-aws-b/console.log"),
        ("cloud-aws-c", 63, 7003, "runtime/cloud-aws-c/console.log"),
    ] {
        let mut machine = sample
            .machines
            .get("cloud-aws")
            .expect("cloud-aws should exist")
            .clone();
        machine.guest.vsock_cid = cid;
        machine.guest.control_port = port;
        machine.guest.console_log = String::from(log);
        sample.machines.insert(String::from(name), machine);
    }
    sample.k3s_clusters.insert(
        String::from("demo"),
        K3sClusterSpec {
            control_plane: String::from("demo"),
            host_group: String::from("aws-builders"),
            server_machines: vec![
                String::from("cloud-aws"),
                String::from("cloud-aws-b"),
                String::from("cloud-aws-c"),
            ],
            worker_machines: Vec::new(),
            api_endpoint: String::from("https://demo-k3s.internal:6443"),
            control_plane_scheduler: HostedSchedulerPolicy::Spread,
            version: Some(String::from("v1.35.2+k3s1")),
            server_args: vec![String::from("--disable=traefik")],
            worker_args: Vec::new(),
        },
    );

    let cluster = sample
        .k3s_clusters
        .get("demo")
        .expect("demo cluster should exist");
    assert_eq!(
        cluster.ha_topology_posture(),
        HostedK3sHaTopologyPosture::HaEligibleTopology
    );
}

#[test]
fn hosted_k3s_cluster_accepts_pvm_control_plane_machines() {
    let mut sample = PortConfig::sample();
    {
        let mut entry = sample.nodes.remove("aws-linux-node").expect("aws-linux-node should exist");
        entry.capabilities.pvm_lanes[0].state = PvmCapabilityState::Ready;
        sample.nodes.insert(String::from("aws-linux-node"), entry);
    }
    {
        let mut entry = sample.machines.remove("cloud-aws").expect("cloud-aws should exist");
        entry.protection_mode = ProtectionMode::Pvm;
        sample.machines.insert(String::from("cloud-aws"), entry);
    }
    sample.k3s_clusters.insert(
        String::from("demo"),
        K3sClusterSpec {
            control_plane: String::from("demo"),
            host_group: String::from("aws-builders"),
            server_machines: vec![String::from("cloud-aws")],
            worker_machines: Vec::new(),
            api_endpoint: String::from("https://demo-k3s.internal:6443"),
            control_plane_scheduler: HostedSchedulerPolicy::Spread,
            version: Some(String::from("v1.35.2+k3s1")),
            server_args: vec![String::from("--disable=traefik")],
            worker_args: Vec::new(),
        },
    );

    sample
        .validate(MachineArchitecture::X86_64)
        .expect("hosted k3s should accept Firecracker PVM control-plane machines");
}

#[test]
fn service_policy_defaults_to_never_and_no_healthcheck() {
    let policy = ServicePolicy::default();

    assert_eq!(policy.restart, ServiceRestartPolicy::Never);
    assert_eq!(policy.healthcheck.policy, ServiceHealthPolicy::NoCheck);
    assert!(policy.healthcheck.command.is_empty());
    policy
        .validate_for_kind(ServiceKind::Service)
        .expect("default policy should be valid");
}

#[test]
fn service_policy_invalid_combinations_reject_restart_and_health_mismatches() {
    let sandbox_error = ServicePolicy {
        restart: ServiceRestartPolicy::Always,
        healthcheck: ServiceHealthcheck::default(),
    }
    .validate_for_kind(ServiceKind::Sandbox)
    .expect_err("sandbox restart policy should reject");
    assert!(sandbox_error.contains("sandbox"), "{sandbox_error}");
    assert!(
        sandbox_error.contains("restart policy 'never'"),
        "{sandbox_error}"
    );

    let missing_command = ServicePolicy {
        restart: ServiceRestartPolicy::OnFailure,
        healthcheck: ServiceHealthcheck {
            policy: ServiceHealthPolicy::Command,
            command: Vec::new(),
        },
    }
    .validate_for_kind(ServiceKind::Service)
    .expect_err("command health policy should require a command");
    assert!(
        missing_command.contains("health policy 'command'"),
        "{missing_command}"
    );

    let stray_command = ServicePolicy {
        restart: ServiceRestartPolicy::Never,
        healthcheck: ServiceHealthcheck {
            policy: ServiceHealthPolicy::NoCheck,
            command: vec![String::from("/bin/true")],
        },
    }
    .validate_for_kind(ServiceKind::Service)
    .expect_err("health command should reject when policy is none");
    assert!(stray_command.contains("health command"), "{stray_command}");
    assert!(
        stray_command.contains("health policy 'none'"),
        "{stray_command}"
    );
}

#[test]
fn artifact_catalog_reports_kernel_and_guest_image_kinds() {
    let config = PortConfig::sample();

    let (kernel_kind, _) = config
        .artifacts
        .lookup_named("demo-kernel")
        .expect("kernel artifact should exist");
    let (guest_kind, _) = config
        .artifacts
        .lookup_named("demo-guest")
        .expect("guest image artifact should exist");

    assert_eq!(kernel_kind, ArtifactKind::Kernel);
    assert_eq!(guest_kind, ArtifactKind::GuestImage);
}

#[test]
fn sample_config_models_all_remote_provider_lanes() {
    let config = PortConfig::sample();

    assert_eq!(config.hosts.get("local").unwrap().provider, HostProvider::Local);
    assert_eq!(config.hosts.get("mac-local").unwrap().platform, HostPlatform::Macos);
    assert_eq!(
        config.hosts.get("generic-linux").unwrap().provider,
        HostProvider::GenericLinux
    );
    assert_eq!(config.hosts.get("aws-linux").unwrap().provider, HostProvider::Aws);
    assert_eq!(config.hosts.get("gcp-linux").unwrap().provider, HostProvider::Gcp);
    assert_eq!(config.hosts.get("azure-linux").unwrap().provider, HostProvider::Azure);
    assert_eq!(config.machines.get("cloud-aws").unwrap().host, "aws-linux");
    assert_eq!(config.machines.get("demo-avf").unwrap().host, "mac-local");
    assert_eq!(config.machines.get("demo-ch").unwrap().host, "local");
    assert_eq!(
        config.machines.get("demo").unwrap().substrate,
        ExecutionSubstrate::Firecracker
    );
    assert_eq!(
        config.machines.get("demo-ch").unwrap().substrate,
        ExecutionSubstrate::CloudHypervisor
    );
    assert_eq!(
        config.machines.get("demo-avf").unwrap().substrate,
        ExecutionSubstrate::Avf
    );
    assert_eq!(
        config.machines.get("demo-avf").unwrap().architecture,
        MachineArchitecture::Native
    );
    assert_eq!(
        config.machines.get("demo").unwrap().protection_mode,
        ProtectionMode::Standard
    );
    assert_eq!(
        config.machines.get("demo").unwrap().architecture,
        MachineArchitecture::Native
    );
    assert_eq!(
        config.artifacts.kernels.get("demo-kernel").unwrap()
            .reference
            .display(),
        "demo-fs/port/demo-kernel:v1"
    );
}

#[test]
fn sample_config_includes_cloud_hypervisor_standard_variants() {
    let config = PortConfig::sample();
    let kernel = &config.artifacts.kernels.get("demo-kernel").unwrap();
    let guest = &config.artifacts.guest_images.get("demo-guest").unwrap();

    assert!(kernel.supports(
        MachineArchitecture::X86_64,
        ExecutionSubstrate::CloudHypervisor,
        ProtectionMode::Standard
    ));
    assert!(kernel.supports(
        MachineArchitecture::Aarch64,
        ExecutionSubstrate::CloudHypervisor,
        ProtectionMode::Standard
    ));
    assert!(guest.supports(
        MachineArchitecture::X86_64,
        ExecutionSubstrate::CloudHypervisor,
        ProtectionMode::Standard
    ));
    assert!(guest.supports(
        MachineArchitecture::Aarch64,
        ExecutionSubstrate::CloudHypervisor,
        ProtectionMode::Standard
    ));
}

#[test]
fn sample_config_derives_local_machine_control_contract() {
    let config = PortConfig::sample();

    let contract = config
        .machine_control_contract("demo")
        .expect("demo contract should resolve");

    assert_eq!(contract, MachineControlContract::local_runtime_root());
    assert_eq!(
        contract.inventory_scope,
        MachineInventoryScope::LocalRuntimeRoot
    );
    assert_eq!(
        contract.inventory_owner,
        MachineInventoryOwner::LocalRuntimeRoot
    );
    assert_eq!(
        contract.lifecycle_owner,
        MachineLifecycleOwner::LocalPortRuntime
    );
    assert_eq!(
        contract.guest_broker,
        MachineGuestBroker::LocalRuntimeTransport
    );
    assert_eq!(
        contract.status_source,
        MachineStatusSource::RuntimeManifestAndHostProcess
    );
    assert_eq!(
        contract.status_route,
        MachineCommandRoute::DirectLocalRuntime
    );
    assert_eq!(
        contract.monitor_route,
        MachineCommandRoute::DirectLocalRuntime
    );
    assert_eq!(contract.top_route, MachineCommandRoute::DirectLocalRuntime);
    assert_eq!(
        contract.service_route,
        MachineCommandRoute::DirectLocalRuntime
    );
}

#[test]
fn sample_config_derives_hosted_machine_control_contract() {
    let config = PortConfig::sample();

    let contract = config
        .machine_control_contract("cloud-aws")
        .expect("cloud contract should resolve");

    assert_eq!(contract, MachineControlContract::hosted_control_plane());
    assert_eq!(contract.inventory_scope, MachineInventoryScope::HostedFleet);
    assert_eq!(
        contract.inventory_owner,
        MachineInventoryOwner::HostedControlPlane
    );
    assert_eq!(
        contract.lifecycle_owner,
        MachineLifecycleOwner::HostedNodeAgent
    );
    assert_eq!(
        contract.guest_broker,
        MachineGuestBroker::ControlPlaneNodeAgentTunnel
    );
    assert_eq!(
        contract.status_source,
        MachineStatusSource::ControlPlaneInventoryAndNodeAgentRuntime
    );
    assert_eq!(
        contract.status_route,
        MachineCommandRoute::HostedControlPlane
    );
    assert_eq!(
        contract.monitor_route,
        MachineCommandRoute::HostedControlPlane
    );
    assert_eq!(contract.top_route, MachineCommandRoute::HostedControlPlane);
    assert_eq!(
        contract.service_route,
        MachineCommandRoute::HostedControlPlane
    );
}

#[test]
fn hybrid_route_regression_local_and_hosted() {
    let config = PortConfig::sample();

    assert_eq!(
        config
            .machine_control_contract("demo")
            .expect("local contract should resolve"),
        MachineControlContract::local_runtime_root()
    );
    assert_eq!(
        config
            .machine_control_contract("cloud-aws")
            .expect("hosted contract should resolve"),
        MachineControlContract::hosted_control_plane()
    );
    assert_eq!(
        config
            .hosted_api_identity_contract("demo")
            .expect("local identity should resolve"),
        None
    );
    assert!(
        config
            .hosted_api_identity_contract("cloud-aws")
            .expect("hosted identity should resolve")
            .is_some(),
        "hosted machines should continue to resolve hosted API identity"
    );
}

#[test]
fn sample_config_derives_hosted_api_identity_contract() {
    let config = PortConfig::sample();

    let contract = config
        .hosted_api_identity_contract("cloud-aws")
        .expect("cloud aws contract should resolve")
        .expect("cloud aws should target a hosted control plane");

    assert_eq!(contract.control_plane, "demo");
    assert_eq!(contract.endpoint, "https://port.example.internal");
    assert_eq!(contract.audience, "port-hosted-demo");
    assert_eq!(contract.route, MachineCommandRoute::HostedControlPlane);
    assert_eq!(contract.auth.header, "authorization");
    assert!(matches!(
        contract.auth.source,
        HostedAuthTokenSource::Env { variable } if variable == "PORT_DEMO_TOKEN"
    ));
    assert_eq!(
        config.hosts.get("aws-linux").unwrap().connection,
        HostConnection::HostedControlPlane {
            control_plane: String::from("demo")
        }
    );
}

#[test]
fn sample_config_derives_hosted_artifact_identity_contract() {
    let config = PortConfig::sample();

    let contract = config
        .hosted_artifact_identity_contract("https://port.example.internal")
        .expect("hosted artifact contract should resolve");

    assert_eq!(contract.control_plane, "demo");
    assert_eq!(contract.endpoint, "https://port.example.internal");
    assert_eq!(contract.audience, "port-hosted-demo");
    assert_eq!(contract.auth.header, "authorization");
    assert!(matches!(
        contract.auth.source,
        HostedAuthTokenSource::Env { variable } if variable == "PORT_DEMO_TOKEN"
    ));
}

#[test]
fn hosted_artifact_store_path_is_deterministic() {
    let path = hosted_artifact_store_path(
        "demo",
        &ArtifactReference {
            registry: String::from("demo-fs"),
            repository: String::from("port/demo-kernel"),
            version: String::from("v1"),
        },
        ArtifactSelector {
            architecture: MachineArchitecture::X86_64,
            substrate: ExecutionSubstrate::Firecracker,
            protection_mode: ProtectionMode::Standard,
        },
        "vmlinux",
    );

    assert_eq!(
        path,
        String::from(
            ".port/hosted/demo/artifacts/demo-fs/port/demo-kernel/v1/x86_64/firecracker/standard/vmlinux"
        )
    );
}

#[test]
fn oci_registry_contract_rejects_empty_basic_auth_environment_variables() {
    let mut config = PortConfig::sample();
    {
        let mut entry = config.artifacts.kernels.remove("demo-kernel").unwrap();
        entry.distribution.push = ArtifactStore::OciRegistry {
        transport: OciRegistryTransport::PlainHttp,
        auth: OciRegistryAuth::BasicEnv {
            username_variable: String::new(),
            password_variable: String::from("PORT_OCI_PASSWORD"),
        },
    };
        config.artifacts.kernels.insert(String::from("demo-kernel"), entry);
    }

    let error = config
        .validate(MachineArchitecture::X86_64)
        .expect_err("empty OCI auth variable names should fail validation");

    assert!(
        error.message().contains("OCI registry backend"),
        "unexpected validation error: {}", error.message()
    );
}

#[test]
fn validate_rejects_duplicate_control_plane_endpoints() {
    let mut config = PortConfig::sample();
    config.control_planes.insert(
        String::from("shadow"),
        HostedControlPlaneSpec {
            endpoint: String::from("https://port.example.internal"),
            audience: String::from("shadow-audience"),
            auth: HostedAuthTokenContract {
                scheme: HostedAuthScheme::Bearer,
                header: String::from("authorization"),
                source: HostedAuthTokenSource::Env {
                    variable: String::from("PORT_SHADOW_TOKEN"),
                },
            },
        },
    );

    let error = config
        .validate(MachineArchitecture::X86_64)
        .expect_err("duplicate control-plane endpoints should be rejected");

    assert!(
        error
            .message()
            .contains("duplicate hosted control-plane endpoint"),
        "unexpected error: {}", error.message()
    );
}

#[test]
fn validate_rejects_unknown_control_plane_reference() {
    let mut config = PortConfig::sample();
    {
        let mut entry = config.hosts.remove("aws-linux").expect("aws host");
        entry.connection = HostConnection::HostedControlPlane {
        control_plane: String::from("missing"),
    };
        config.hosts.insert(String::from("aws-linux"), entry);
    }
    config.host_groups.clear();

    let error = config
        .validate(MachineArchitecture::X86_64)
        .expect_err("missing control plane should fail validation");

    assert!(
        error
            .message()
            .contains("references unknown control plane 'missing'")
    );
}

#[test]
fn sample_config_derives_hosted_node_inventory_contract() {
    let config = PortConfig::sample();

    let contract = config
        .hosted_inventory_contract()
        .expect("hosted inventory contract should resolve");

    let aws_node = &contract.nodes.get("aws-linux-node").unwrap();
    assert_eq!(aws_node.host, "aws-linux");
    assert_eq!(
        aws_node.runtime_root,
        String::from("runtime/hosted/aws-linux-node")
    );
    assert_eq!(aws_node.control_plane, "demo");
    assert_eq!(
        aws_node.inventory_owner,
        MachineInventoryOwner::HostedControlPlane
    );
    assert_eq!(
        aws_node.lifecycle_owner,
        MachineLifecycleOwner::HostedNodeAgent
    );
    assert_eq!(aws_node.capabilities.providers, vec![HostProvider::Aws]);

    let remote_group = &contract.host_groups.get("remote-linux").unwrap();
    assert_eq!(remote_group.control_plane, "demo");
    assert_eq!(
        remote_group.inventory_owner,
        MachineInventoryOwner::HostedControlPlane
    );
    assert_eq!(
        remote_group.placement,
        HostedPlacementPolicy::ExplicitMembership
    );
    assert_eq!(
        remote_group.scheduler,
        HostedSchedulerPolicy::DeterministicFirstFit
    );
    assert!(
        remote_group
            .nodes
            .contains(&String::from("generic-linux-node"))
    );

    let registered = contract
        .hosted_registered_node_contract(
            "demo",
            "aws-linux-node",
            &HostedNodeRegistration {
                endpoint: String::from("http://127.0.0.1:9001"),
                token: String::from("node-demo-token"),
                registered_at: 10,
                refreshed_at: 25,
                ttl_seconds: 30,
            },
        )
        .expect("registered node contract should resolve");
    assert_eq!(registered.node_name, "aws-linux-node");
    assert_eq!(registered.endpoint, "http://127.0.0.1:9001");
    assert_eq!(registered.freshness.registered_at, 10);
    assert_eq!(registered.freshness.refreshed_at, 25);
    assert_eq!(registered.freshness.fresh_until, 55);
    assert_eq!(registered.node.runtime_root, aws_node.runtime_root);
    assert!(
        registered
            .host_groups
            .contains(&String::from("remote-linux"))
    );
    assert!(
        registered
            .host_groups
            .contains(&String::from("aws-builders"))
    );
}

#[test]
fn hosted_registered_node_contract_rejects_invalid_registration_inputs() {
    let config = PortConfig::sample();
    let contract = config
        .hosted_inventory_contract()
        .expect("hosted inventory contract should resolve");

    let missing_endpoint = contract
        .hosted_registered_node_contract(
            "demo",
            "aws-linux-node",
            &HostedNodeRegistration {
                endpoint: String::from(" "),
                token: String::from("node-demo-token"),
                registered_at: 10,
                refreshed_at: 25,
                ttl_seconds: 30,
            },
        )
        .expect_err("blank endpoint should fail");
    assert!(
        missing_endpoint
            .message()
            .contains("must declare a non-empty endpoint")
    );

    let stale_refresh = contract
        .hosted_registered_node_contract(
            "demo",
            "aws-linux-node",
            &HostedNodeRegistration {
                endpoint: String::from("http://127.0.0.1:9001"),
                token: String::from("node-demo-token"),
                registered_at: 50,
                refreshed_at: 25,
                ttl_seconds: 30,
            },
        )
        .expect_err("refresh before registration should fail");
    assert!(
        stale_refresh
            .message()
            .contains("cannot refresh before its initial registration")
    );
}

#[test]
fn sample_config_derives_hosted_machine_lifecycle_contracts() {
    let config = PortConfig::sample();

    let summary = config
        .hosted_machine_summary_contract("cloud-aws", MachineArchitecture::X86_64)
        .expect("hosted machine summary should resolve")
        .expect("cloud-aws should be hosted");
    assert_eq!(summary.host_name, "aws-linux");
    assert_eq!(summary.provider, HostProvider::Aws);
    assert_eq!(summary.control_plane, "demo");
    assert_eq!(
        summary.candidate_nodes,
        vec![String::from("aws-linux-node")]
    );
    assert!(summary.placement_detail.contains("host 'aws-linux'"));
    assert!(summary.placement_detail.contains("provider 'aws'"));
    assert!(summary.host_groups.contains(&String::from("remote-linux")));
    assert!(summary.host_groups.contains(&String::from("aws-builders")));
    assert_eq!(
        *summary.host_group_policies.get("remote-linux").unwrap(),
        HostedSchedulerPolicy::DeterministicFirstFit
    );
    assert_eq!(
        *summary.host_group_policies.get("aws-builders").unwrap(),
        HostedSchedulerPolicy::DeterministicFirstFit
    );
    assert_eq!(
        summary.control.status_route,
        MachineCommandRoute::HostedControlPlane
    );

    let status = config
        .hosted_machine_status_contract("cloud-aws", MachineArchitecture::X86_64)
        .expect("hosted machine status should resolve")
        .expect("cloud-aws status should be hosted");
    assert_eq!(
        status.status_source,
        MachineStatusSource::ControlPlaneInventoryAndNodeAgentRuntime
    );
    assert!(status.detail.contains("control-plane inventory"));

    let stop = config
        .hosted_machine_stop_contract("cloud-aws", MachineArchitecture::X86_64)
        .expect("hosted machine stop should resolve")
        .expect("cloud-aws stop should be hosted");
    assert_eq!(stop.stop_route, MachineCommandRoute::HostedControlPlane);
    assert_eq!(stop.lifecycle_owner, MachineLifecycleOwner::HostedNodeAgent);
    assert!(stop.detail.contains("node agent"));

    let monitor = config
        .hosted_machine_monitor_contract("cloud-aws", MachineArchitecture::X86_64)
        .expect("hosted machine monitor should resolve")
        .expect("cloud-aws monitor should be hosted");
    assert_eq!(
        monitor.status_source,
        MachineStatusSource::ControlPlaneInventoryAndNodeAgentRuntime
    );
    assert_eq!(
        monitor.monitor_route,
        MachineCommandRoute::HostedControlPlane
    );
    assert_eq!(monitor.top_route, MachineCommandRoute::HostedControlPlane);
    assert_eq!(
        monitor.lifecycle_owner,
        MachineLifecycleOwner::HostedNodeAgent
    );
    assert!(monitor.detail.contains("detached forward"));

    let service = config
        .hosted_service_contract("cloud-aws", MachineArchitecture::X86_64)
        .expect("hosted service contract should resolve")
        .expect("cloud-aws service should be hosted");
    assert_eq!(
        service.lifecycle_owner,
        MachineLifecycleOwner::HostedNodeAgent
    );
    assert_eq!(
        service.guest_broker,
        MachineGuestBroker::ControlPlaneNodeAgentTunnel
    );
    assert_eq!(
        service.service_route,
        MachineCommandRoute::HostedControlPlane
    );
    assert!(service.detail.contains("canonical service surface"));
}

#[test]
fn hosted_pvm_summary_filters_candidates_to_ready_nodes() {
    let mut config = PortConfig::sample();
    {
        let mut entry = config.machines.remove("cloud-generic").expect("cloud-generic should exist");
        entry.protection_mode = ProtectionMode::Pvm;
        config.machines.insert(String::from("cloud-generic"), entry);
    }

    let summary = config
        .hosted_machine_summary_contract("cloud-generic", MachineArchitecture::X86_64)
        .expect("hosted pvm summary should resolve")
        .expect("cloud-generic should be hosted");

    assert!(summary.candidate_nodes.is_empty());
    assert!(
        summary.rejected_nodes.get("generic-linux-node").unwrap()
            .contains("without a provider-backed host-kit contract")
    );
    assert!(summary.rejected_nodes.get("generic-linux-node").unwrap().contains("cloud-generic"));
    assert!(summary.placement_detail.contains("generic-linux-node"));
    assert!(summary.placement_detail.contains("planned"));
}

#[test]
fn hosted_pvm_summary_keeps_aws_contract_provider_aware() {
    let mut config = PortConfig::sample();
    {
        let mut entry = config.machines.remove("cloud-aws").expect("cloud-aws should exist");
        entry.protection_mode = ProtectionMode::Pvm;
        config.machines.insert(String::from("cloud-aws"), entry);
    }

    let summary = config
        .hosted_machine_summary_contract("cloud-aws", MachineArchitecture::X86_64)
        .expect("cloud-aws hosted pvm summary should resolve")
        .expect("cloud-aws should be hosted");

    assert_eq!(summary.host_name, "aws-linux");
    assert_eq!(summary.provider, HostProvider::Aws);
    assert!(summary.candidate_nodes.is_empty());
    assert!(summary.rejected_nodes.get("aws-linux-node").unwrap().contains("prepare-pvm-node"));
    assert!(summary.rejected_nodes.get("aws-linux-node").unwrap().contains("cloud-aws"));
    assert!(summary.rejected_nodes.get("aws-linux-node").unwrap().contains("planned"));
    assert!(summary.placement_detail.contains("aws-linux-node"));
    assert!(summary.placement_detail.contains("provider 'aws'"));
    assert!(!summary.placement_detail.contains("generic-linux-node"));
}

#[test]
fn hosted_standard_summary_tracks_host_and_provider_for_each_demo_lane() {
    let config = PortConfig::sample();

    let generic = config
        .hosted_machine_summary_contract("cloud-generic", MachineArchitecture::X86_64)
        .expect("cloud-generic summary should resolve")
        .expect("cloud-generic should be hosted");
    assert_eq!(generic.host_name, "generic-linux");
    assert_eq!(generic.provider, HostProvider::GenericLinux);
    assert_eq!(
        generic.candidate_nodes,
        vec![String::from("generic-linux-node")]
    );
    assert!(generic.placement_detail.contains("host 'generic-linux'"));
    assert!(
        generic
            .placement_detail
            .contains("provider 'generic-linux'")
    );

    let gcp = config
        .hosted_machine_summary_contract("cloud-gcp", MachineArchitecture::X86_64)
        .expect("cloud-gcp summary should resolve")
        .expect("cloud-gcp should be hosted");
    assert_eq!(gcp.host_name, "gcp-linux");
    assert_eq!(gcp.provider, HostProvider::Gcp);
    assert_eq!(gcp.candidate_nodes, vec![String::from("gcp-linux-node")]);
    assert!(gcp.placement_detail.contains("host 'gcp-linux'"));
    assert!(gcp.placement_detail.contains("provider 'gcp'"));
}

#[test]
fn hosted_standard_summary_reports_explicit_rejection_context() {
    let mut config = PortConfig::sample();
    {
        let mut entry = config.nodes.remove("generic-linux-node").expect("generic-linux-node should exist");
        entry.capabilities.protection_modes = vec![ProtectionMode::Pvm];
        config.nodes.insert(String::from("generic-linux-node"), entry);
    }

    let summary = config
        .hosted_machine_summary_contract("cloud-generic", MachineArchitecture::X86_64)
        .expect("cloud-generic summary should resolve")
        .expect("cloud-generic should be hosted");

    assert!(summary.candidate_nodes.is_empty());
    assert_eq!(
        summary.rejected_nodes.get("generic-linux-node").unwrap(),
        "protection mode 'standard' is required but node advertises pvm"
    );
    assert!(summary.placement_detail.contains("generic-linux-node"));
    assert!(
        summary
            .placement_detail
            .contains("provider 'generic-linux'")
    );
    assert!(
        !summary
            .placement_detail
            .contains("run Port on that host directly")
    );
}

#[test]
fn hosted_standard_summary_reports_missing_host_inventory_explicitly() {
    let mut config = PortConfig::sample();
    config.nodes.remove("generic-linux-node");
    {
        let mut group = config
            .host_groups
            .remove("remote-linux")
            .expect("remote-linux host group should exist");
        group.nodes.retain(|node| node != "generic-linux-node");
        config.host_groups.insert(String::from("remote-linux"), group);
    }

    let error = config
        .hosted_machine_summary_contract("cloud-generic", MachineArchitecture::X86_64)
        .expect_err("missing hosted node inventory should fail resolution");

    assert!(error.message().contains(
        "machine 'cloud-generic' targets hosted host 'generic-linux' but no hosted node inventory record matches that host"
    ));
    assert!(!error.message().contains("run Port on that host directly"));
}

#[test]
fn sample_config_derives_hosted_guest_attach_contract() {
    let config = PortConfig::sample();

    let contract = config
        .hosted_guest_attach_contract("cloud-aws", MachineArchitecture::X86_64)
        .expect("hosted guest attach contract should resolve")
        .expect("cloud-aws guest attach should be hosted");

    assert_eq!(contract.machine.control_plane, "demo");
    assert_eq!(
        contract.guest_broker,
        MachineGuestBroker::ControlPlaneNodeAgentTunnel
    );
    assert_eq!(
        contract.guest_route,
        MachineCommandRoute::HostedControlPlane
    );
    assert_eq!(
        contract.command_surface,
        vec![
            GuestCommandVerb::Exec,
            GuestCommandVerb::Copy,
            GuestCommandVerb::Pty,
            GuestCommandVerb::Logs,
            GuestCommandVerb::Forward
        ]
    );
    assert_eq!(
        contract.protocol,
        HostedGuestProtocolContract::PortAgentProtocol
    );
    assert_eq!(
        contract.attach_path,
        vec![
            HostedGuestAttachHop {
                actor: HostedGuestAttachActor::Cli,
                role: String::from("initiates a canonical `port guest ...` request"),
            },
            HostedGuestAttachHop {
                actor: HostedGuestAttachActor::HostedControlPlane,
                role: String::from("authorizes guest attachment and resolves the owning node",),
            },
            HostedGuestAttachHop {
                actor: HostedGuestAttachActor::HostedNodeAgent,
                role: String::from(
                    "opens the host-local guest transport and bridges the byte stream",
                ),
            },
            HostedGuestAttachHop {
                actor: HostedGuestAttachActor::GuestAgent,
                role: String::from(
                    "continues serving the existing guest request and response frames",
                ),
            },
        ]
    );
    assert!(
        contract
            .detail
            .contains("port guest exec|copy|pty|logs|forward")
    );
}

#[test]
fn validate_rejects_hosted_node_on_local_host() {
    let mut config = PortConfig::sample();
    config.nodes.insert(
        String::from("bad-node"),
        HostedNodeSpec {
            host: String::from("local"),
            runtime_root: String::from("runtime/hosted/bad-node"),
            capabilities: HostedNodeCapabilities {
                providers: vec![HostProvider::Local],
                platforms: vec![HostPlatform::Linux],
                substrates: vec![ExecutionSubstrate::Firecracker],
                architectures: vec![MachineArchitecture::X86_64],
                protection_modes: vec![ProtectionMode::Standard],
                pvm_lanes: vec![],
            },
            notes: vec![],
        },
    );

    let error = config
        .validate(MachineArchitecture::X86_64)
        .expect_err("local hosted node should fail validation");

    assert!(
        error
            .message()
            .contains("hosted nodes must resolve through a hosted control plane")
    );
}

#[test]
fn validate_rejects_hosted_node_without_runtime_root() {
    let mut config = PortConfig::sample();
    {
        let mut entry = config.nodes.remove("aws-linux-node").expect("aws-linux-node should exist");
        entry.runtime_root = String::new();
        config.nodes.insert(String::from("aws-linux-node"), entry);
    }

    let error = config
        .validate(MachineArchitecture::X86_64)
        .expect_err("missing runtime_root should fail validation");

    assert!(
        error
            .message()
            .contains("must declare a non-empty runtime_root")
    );
}

#[test]
fn x86_firecracker_pvm_contract_requires_host_and_artifact_kits() {
    let contract = FirecrackerPvmLaneContract::for_architecture(MachineArchitecture::X86_64, MachineArchitecture::X86_64);

    assert_eq!(contract.decision, PvmLaneDecision::Planned);
    assert!(contract.host_kit.is_some());
    assert!(contract.artifact_kit.is_some());
    assert!(
        contract
            .host_kit
            .as_ref()
            .expect("x86 host kit should exist")
            .firecracker_binary_name
            == "firecracker-pvm"
    );
    assert_eq!(
        contract
            .host_kit
            .as_ref()
            .expect("x86 host kit should exist")
            .firecracker_binary_env
            .as_deref(),
        Some("PORT_PVM_FIRECRACKER_BINARY")
    );
    assert!(
        contract
            .host_kit
            .as_ref()
            .expect("x86 host kit should exist")
            .host_boot_args
            .contains(&String::from("pti=off"))
    );
    assert!(
        contract
            .validation
            .iter()
            .any(|check| check.name == "host-kernel")
    );
    assert!(
        contract
            .follow_on_work
            .iter()
            .any(|item| item.contains("port doctor"))
    );
}

#[test]
fn arm64_firecracker_pvm_contract_is_research_only() {
    let contract = FirecrackerPvmLaneContract::for_architecture(MachineArchitecture::Aarch64, MachineArchitecture::X86_64);

    assert_eq!(contract.decision, PvmLaneDecision::ResearchOnly);
    assert!(contract.host_kit.is_none());
    assert!(contract.artifact_kit.is_none());
    assert!(
        contract.validation[0]
            .detail
            .contains("supportable Firecracker/PVM runtime path")
    );
}

#[test]
fn local_firecracker_support_resolves_serialized_pvm_lanes_by_architecture() {
    let config = PortConfig::sample();
    let firecracker = &config.hosts.get("local").unwrap().firecracker;

    assert_eq!(
        firecracker
            .pvm_lane_for(MachineArchitecture::X86_64, MachineArchitecture::X86_64)
            .expect("x86_64 lane should exist")
            .decision,
        PvmLaneDecision::Planned
    );
    assert_eq!(
        firecracker
            .pvm_lane_for(MachineArchitecture::Aarch64, MachineArchitecture::X86_64)
            .expect("aarch64 lane should exist")
            .decision,
        PvmLaneDecision::ResearchOnly
    );
    assert_eq!(
        firecracker
            .pvm_lane_for(MachineArchitecture::X86_64, MachineArchitecture::X86_64)
            .expect("x86_64 lane should exist")
            .capability_state(),
        PvmCapabilityState::Planned
    );
}

#[test]
fn sample_config_derives_hosted_node_pvm_capability_states() {
    let config = PortConfig::sample();

    let inventory = config
        .hosted_inventory_contract()
        .expect("hosted inventory contract should resolve");

    assert_eq!(
        inventory.nodes.get("aws-linux-node").unwrap().capabilities.pvm_lanes[0].state,
        PvmCapabilityState::Planned
    );
    assert_eq!(
        inventory.nodes.get("generic-linux-node").unwrap().capabilities.pvm_lanes[0].state,
        PvmCapabilityState::Planned
    );
    assert_eq!(
        inventory.nodes.get("gcp-linux-node").unwrap().capabilities.pvm_lanes[0].state,
        PvmCapabilityState::Planned
    );
}

#[test]
fn sample_config_derives_hosted_node_pvm_host_kit_contracts() {
    let config = PortConfig::sample();

    let inventory = config
        .hosted_inventory_contract()
        .expect("hosted inventory contract should resolve");

    let aws_lane = &inventory.nodes.get("aws-linux-node").unwrap().capabilities.pvm_lanes[0];
    let aws_host_kit = aws_lane
        .host_kit
        .as_ref()
        .expect("planned hosted PVM lane should declare a host-kit contract");
    assert_eq!(aws_host_kit.host_platform, HostPlatform::Linux);
    assert_eq!(aws_host_kit.host_architecture, MachineArchitecture::X86_64);
    assert_eq!(
        aws_host_kit.firecracker_binary_name,
        String::from("firecracker-pvm")
    );
    assert_eq!(
        aws_host_kit.firecracker_binary_env.as_deref(),
        Some("PORT_PVM_FIRECRACKER_BINARY")
    );
    assert!(
        aws_host_kit
            .host_boot_args
            .contains(&String::from("pti=off"))
    );

    let generic_lane = &inventory.nodes.get("generic-linux-node").unwrap().capabilities.pvm_lanes[0];
    assert!(generic_lane.host_kit.is_none());
}

#[test]
fn sample_config_derives_hosted_node_pvm_host_kit_package_identity() {
    let config = PortConfig::sample();

    let inventory = config
        .hosted_inventory_contract()
        .expect("hosted inventory contract should resolve");

    let aws_lane = &inventory.nodes.get("aws-linux-node").unwrap().capabilities.pvm_lanes[0];
    let aws_host_kit = aws_lane
        .host_kit
        .as_ref()
        .expect("planned hosted PVM lane should declare a host-kit contract");

    assert_eq!(aws_host_kit.package.name, "firecracker-pvm-host-kit");
    assert_eq!(aws_host_kit.package.version, "2026.04");
    assert_eq!(aws_host_kit.package.host_kernel_release, "6.12.0-port-pvm");
    assert_eq!(
        aws_host_kit.package.firecracker_build,
        "v1.13.0-dev+loopholelabs.pvm.7f6c070fa09c"
    );
}

#[test]
fn ready_hosted_pvm_lane_requires_an_explicit_host_kit_contract() {
    let mut config = PortConfig::sample();
    {
        let mut entry = config.nodes.remove("aws-linux-node").expect("aws-linux-node should exist");
        entry.capabilities.pvm_lanes[0].state = PvmCapabilityState::Ready;
        config.nodes.insert(String::from("aws-linux-node"), entry);
    }
    {
        let mut entry = config.nodes.remove("aws-linux-node").expect("aws-linux-node should exist");
        entry.capabilities.pvm_lanes[0].host_kit = None;
        config.nodes.insert(String::from("aws-linux-node"), entry);
    }

    let error = config
        .validate(MachineArchitecture::X86_64)
        .expect_err("ready hosted PVM lane without host-kit should fail validation");

    assert!(
        error
            .message()
            .contains("must declare a host-kit contract")
    );
}

#[test]
fn ready_hosted_pvm_lane_requires_host_kit_package_identity() {
    let mut config = PortConfig::sample();
    {
        let mut entry = config.nodes.remove("aws-linux-node").expect("aws-linux-node should exist");
        entry.capabilities.pvm_lanes[0].state = PvmCapabilityState::Ready;
        config.nodes.insert(String::from("aws-linux-node"), entry);
    }
    {
        let mut node = config
            .nodes
            .remove("aws-linux-node")
            .expect("aws-linux-node should exist");
        let host_kit = node.capabilities.pvm_lanes[0]
            .host_kit
            .as_mut()
            .expect("ready hosted PVM lane should declare a host-kit contract");
        host_kit.package.version.clear();
        config.nodes.insert(String::from("aws-linux-node"), node);
    }

    let error = config
        .validate(MachineArchitecture::X86_64)
        .expect_err("ready hosted PVM lane without a package version should fail validation");

    assert!(error.message().contains("package"));
}

#[test]
fn avf_contract_maps_guest_transport_and_console() {
    let contract = AvfExecutionContract::linux_guest();

    assert_eq!(contract.host_platform, HostPlatform::Macos);
    assert_eq!(contract.guest_transport, AvfGuestTransport::VirtioSocket);
    assert_eq!(contract.console_transport, AvfConsoleTransport::SerialPort);
    assert!(
        contract
            .supported_host_architectures
            .contains(&MachineArchitecture::Aarch64)
    );
    assert!(
        contract
            .launch_owners
            .contains(&AvfLaunchOwner::LocalPortRuntime)
    );
    assert!(contract.directory_share.supported);
    assert!(contract.directory_share.required_for_rosetta);
    assert!(contract.follow_on_work[0].contains("VZVirtualMachineConfiguration"));
}

#[test]
fn validate_accepts_local_macos_standard_avf_machine_contract() {
    let config = sample_avf_config();

    config
        .validate(MachineArchitecture::X86_64)
        .expect("local macOS AVF contract should validate");
}

#[test]
fn validate_rejects_non_macos_avf_machine_contract() {
    let mut config = sample_avf_config();
    {
        let mut entry = config.hosts.remove("mac-local").expect("mac-local host should exist");
        entry.platform = HostPlatform::Linux;
        config.hosts.insert(String::from("mac-local"), entry);
    }

    let error = config
        .validate(MachineArchitecture::X86_64)
        .expect_err("non-macOS AVF machine should fail validation");

    assert!(
        error
            .message()
            .contains("Apple Virtualization Framework requires a macOS host platform")
    );
}

#[test]
fn validate_rejects_hosted_control_plane_avf_machine_contract() {
    let mut config = sample_avf_config();
    {
        let mut entry = config.hosts.remove("mac-local").expect("mac-local host should exist");
        entry.connection = HostConnection::HostedControlPlane {
        control_plane: String::from("demo"),
    };
        config.hosts.insert(String::from("mac-local"), entry);
    }

    let error = config
        .validate(MachineArchitecture::X86_64)
        .expect_err("hosted-control-plane AVF machine should fail validation");

    assert!(
        error
            .message()
            .contains("AVF local runtime currently requires a local host connection")
    );
}

#[test]
fn validate_rejects_avf_pvm_machine_contract() {
    let mut config = sample_avf_config();
    {
        let mut entry = config.machines.remove("demo").expect("sample machine should exist");
        entry.protection_mode = ProtectionMode::Pvm;
        config.machines.insert(String::from("demo"), entry);
    }

    let error = config
        .validate(MachineArchitecture::X86_64)
        .expect_err("AVF/PVM machine should fail validation");

    assert!(
        error
            .message()
            .contains("Apple Virtualization Framework does not currently define a PVM lane")
    );
}

#[test]
fn validate_accepts_firecracker_overlay_on_x86_64_read_only_rootfs() {
    let mut config = PortConfig::sample();
    let mut machine = config.machines.remove("cloud-aws").expect("cloud-aws should exist");
    machine.architecture = MachineArchitecture::X86_64;
    machine.rootfs_read_only = true;
    machine.rootfs_overlay = Some(MachineRootfsOverlaySpec { size_mib: 4096 });
    config.machines.insert(String::from("cloud-aws"), machine);

    config
        .validate(MachineArchitecture::X86_64)
        .expect("x86_64 Firecracker overlay contract should validate");
}

#[test]
fn validate_rejects_rootfs_overlay_without_read_only_base() {
    let mut config = PortConfig::sample();
    {
        let mut entry = config.machines.remove("cloud-aws").expect("cloud-aws should exist");
        entry.rootfs_overlay = Some(MachineRootfsOverlaySpec { size_mib: 4096 });
        config.machines.insert(String::from("cloud-aws"), entry);
    }

    let error = config
        .validate(MachineArchitecture::X86_64)
        .expect_err("overlay without read-only rootfs should fail validation");

    assert!(error.message().contains("rootfs_read_only = true"));
}

#[test]
fn validate_rejects_rootfs_overlay_on_non_x86_64_firecracker_guest() {
    let mut config = PortConfig::sample();
    let mut machine = config.machines.remove("cloud-aws").expect("cloud-aws should exist");
    machine.architecture = MachineArchitecture::Aarch64;
    machine.rootfs_read_only = true;
    machine.rootfs_overlay = Some(MachineRootfsOverlaySpec { size_mib: 4096 });
    config.machines.insert(String::from("cloud-aws"), machine);

    let error = config
        .validate(MachineArchitecture::X86_64)
        .expect_err("non-x86_64 overlay contract should fail validation");

    assert!(error.message().contains("currently requires x86_64"));
}

#[test]
fn artifact_compatibility_supports_x86_pvm_and_rejects_arm64_pvm() {
    let config = PortConfig::sample();
    let kernel = &config.artifacts.kernels.get("demo-kernel").unwrap();
    let guest = &config.artifacts.guest_images.get("demo-guest").unwrap();

    assert!(kernel.supports(
        MachineArchitecture::X86_64,
        ExecutionSubstrate::Firecracker,
        ProtectionMode::Pvm
    ));
    assert!(guest.supports(
        MachineArchitecture::X86_64,
        ExecutionSubstrate::Firecracker,
        ProtectionMode::Pvm
    ));
    assert!(!kernel.supports(
        MachineArchitecture::Aarch64,
        ExecutionSubstrate::Firecracker,
        ProtectionMode::Pvm
    ));
    assert!(guest.supports(
        MachineArchitecture::X86_64,
        ExecutionSubstrate::Firecracker,
        ProtectionMode::Standard
    ));
    assert!(!guest.supports(
        MachineArchitecture::Aarch64,
        ExecutionSubstrate::Firecracker,
        ProtectionMode::Pvm
    ));
}

#[test]
fn artifact_variants_cover_file_store_distribution_and_resolution() {
    let config = PortConfig::sample();
    let kernel = &config.artifacts.kernels.get("demo-kernel").unwrap();

    assert!(matches!(
        kernel.distribution.push,
        ArtifactStore::FileSystem { .. }
    ));
    assert!(
        kernel
            .variant(
                MachineArchitecture::Aarch64,
                ExecutionSubstrate::Firecracker,
                ProtectionMode::Standard
            )
            .is_some()
    );
    assert!(
        kernel
            .variant(
                MachineArchitecture::X86_64,
                ExecutionSubstrate::Firecracker,
                ProtectionMode::Pvm
            )
            .is_some()
    );
}
