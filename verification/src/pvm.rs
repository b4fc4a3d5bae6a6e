//! The Firecracker/PVM lane contracts, the AVF execution contract, and the
//! comparisons between advertised and configured hosted node capabilities.
use vstd::prelude::*;

use crate::model::{FirecrackerPvmLaneContract, PvmLaneDecision, PvmCapabilityState, MachineArchitecture, PvmHostKit, PvmHostKitPackage, HostPlatform, PvmArtifactKit, ArtifactSelector, ExecutionSubstrate, ProtectionMode, PvmValidationExpectation, AvfExecutionContract, AvfLaunchOwner, AvfGuestTransport, AvfConsoleTransport, AvfDirectoryShareContract, HostedNodeCapabilities, HostedPvmCapability, HostProvider};
use crate::placement::resolve_pvm_architecture;
use crate::text::{views, str_eq};
use crate::views::{PvmHostKitView, PvmHostKitPackageView, HostedPvmCapabilityView, lane_views};

verus! {

impl FirecrackerPvmLaneContract {
    /// The hosted capability state that the lane's decision stands for.
    pub fn capability_state(&self) -> (r: PvmCapabilityState)
        ensures
            r == match self.decision {
                PvmLaneDecision::Planned => PvmCapabilityState::Planned,
                PvmLaneDecision::ResearchOnly => PvmCapabilityState::ResearchOnly,
            },
    {
        match self.decision {
            PvmLaneDecision::Planned => PvmCapabilityState::Planned,
            PvmLaneDecision::ResearchOnly => PvmCapabilityState::ResearchOnly,
        }
    }
}

/// The host kit of the x86_64 Firecracker/PVM lane.
pub open spec fn x86_64_host_kit_view() -> PvmHostKitView {
    PvmHostKitView {
        package: PvmHostKitPackageView {
            name: "firecracker-pvm-host-kit"@,
            version: "2026.04"@,
            host_kernel_release: "6.12.0-port-pvm"@,
            firecracker_build: "v1.13.0-dev+loopholelabs.pvm.7f6c070fa09c"@,
        },
        host_platform: HostPlatform::Linux,
        host_architecture: MachineArchitecture::X86_64,
        requires_custom_host_kernel: true,
        requires_patched_firecracker: true,
        firecracker_binary_name: "firecracker-pvm"@,
        firecracker_binary_env: Some("PORT_PVM_FIRECRACKER_BINARY"@),
        host_boot_args: seq!["pti=off"@],
        notes: seq![
            "The host kernel must carry the Firecracker/PVM-capable KVM changes rather than stock KVM alone."@,
            "The VMM binary must be a PVM-capable Firecracker build, not the current standard lane binary."@,
        ],
    }
}

pub fn x86_64_firecracker_pvm_host_kit() -> (r: PvmHostKit)
    ensures
        r@ == x86_64_host_kit_view(),
{
    let r = PvmHostKit {
        package: PvmHostKitPackage {
            name: String::from_str("firecracker-pvm-host-kit"),
            version: String::from_str("2026.04"),
            host_kernel_release: String::from_str("6.12.0-port-pvm"),
            firecracker_build: String::from_str("v1.13.0-dev+loopholelabs.pvm.7f6c070fa09c"),
        },
        host_platform: HostPlatform::Linux,
        host_architecture: MachineArchitecture::X86_64,
        requires_custom_host_kernel: true,
        requires_patched_firecracker: true,
        firecracker_binary_name: String::from_str("firecracker-pvm"),
        firecracker_binary_env: Some(String::from_str("PORT_PVM_FIRECRACKER_BINARY")),
        host_boot_args: vec![String::from_str("pti=off")],
        notes: vec![
            String::from_str(
                "The host kernel must carry the Firecracker/PVM-capable KVM changes rather than stock KVM alone.",
            ),
            String::from_str(
                "The VMM binary must be a PVM-capable Firecracker build, not the current standard lane binary.",
            ),
        ],
    };
    assert(r@ =~= x86_64_host_kit_view());
    r
}

/// The selector of x86_64 Firecracker/PVM artifacts.
pub open spec fn x86_64_pvm_selector() -> ArtifactSelector {
    ArtifactSelector {
        architecture: MachineArchitecture::X86_64,
        substrate: ExecutionSubstrate::Firecracker,
        protection_mode: ProtectionMode::Pvm,
    }
}

/// The artifact kit of the x86_64 Firecracker/PVM lane: dedicated PVM kernel
/// and guest-image variants.
pub open spec fn is_x86_64_artifact_kit(kit: PvmArtifactKit) -> bool {
    &&& kit.kernel_selector == x86_64_pvm_selector()
    &&& kit.guest_image_selector == x86_64_pvm_selector()
    &&& kit.requires_dedicated_variants
    &&& views(kit.notes@) == seq![
        "PVM guests require dedicated kernel and guest-image variants; standard Firecracker artifacts are insufficient."@,
        "The guest image must boot with the guest-side PVM expectations rather than the current standard guest contract."@,
    ]
}

pub fn x86_64_firecracker_pvm_artifact_kit() -> (r: PvmArtifactKit)
    ensures
        is_x86_64_artifact_kit(r),
{
    let r = PvmArtifactKit {
        kernel_selector: ArtifactSelector {
            architecture: MachineArchitecture::X86_64,
            substrate: ExecutionSubstrate::Firecracker,
            protection_mode: ProtectionMode::Pvm,
        },
        guest_image_selector: ArtifactSelector {
            architecture: MachineArchitecture::X86_64,
            substrate: ExecutionSubstrate::Firecracker,
            protection_mode: ProtectionMode::Pvm,
        },
        requires_dedicated_variants: true,
        notes: vec![
            String::from_str(
                "PVM guests require dedicated kernel and guest-image variants; standard Firecracker artifacts are insufficient.",
            ),
            String::from_str(
                "The guest image must boot with the guest-side PVM expectations rather than the current standard guest contract.",
            ),
        ],
    };
    assert(views(r.notes@) =~= seq![
        "PVM guests require dedicated kernel and guest-image variants; standard Firecracker artifacts are insufficient."@,
        "The guest image must boot with the guest-side PVM expectations rather than the current standard guest contract."@,
    ]);
    r
}

/// A blocking validation step with the given name and detail.
pub open spec fn blocking_step(v: PvmValidationExpectation, name: Seq<char>, detail: Seq<char>) -> bool {
    v.name@ == name && v.blocking && v.detail@ == detail
}

/// The x86_64 lane: planned, with the x86_64 host and artifact kits, four
/// blocking validation steps, two prerequisites and three follow-ons.
pub open spec fn is_x86_64_lane(lane: FirecrackerPvmLaneContract) -> bool {
    &&& lane.host_kit matches Some(kit) && kit@ == x86_64_host_kit_view()
    &&& x86_64_lane_shape(lane)
}

/// The x86_64 lane apart from its host kit.
pub open spec fn x86_64_lane_shape(lane: FirecrackerPvmLaneContract) -> bool {
    &&& lane.architecture == MachineArchitecture::X86_64
    &&& lane.decision == PvmLaneDecision::Planned
    &&& lane.artifact_kit matches Some(kit) && is_x86_64_artifact_kit(kit)
    &&& lane.validation@.len() == 4
    &&& blocking_step(
        lane.validation@[0],
        "host-architecture"@,
        "Confirm the execution host is Linux/x86_64 before attempting the Firecracker/PVM lane."@,
    )
    &&& blocking_step(
        lane.validation@[1],
        "host-kernel"@,
        "Confirm the host is booted into the custom PVM-capable kernel and that the host boot line includes pti=off."@,
    )
    &&& blocking_step(
        lane.validation@[2],
        "firecracker-binary"@,
        "Confirm the selected Firecracker binary is the patched PVM-capable build rather than the standard local-launch binary."@,
    )
    &&& blocking_step(
        lane.validation@[3],
        "artifact-variants"@,
        "Confirm both kernel and guest-image artifacts exist for x86_64/firecracker/pvm and pass their variant-specific validation steps."@,
    )
    &&& views(lane.operator_prerequisites@) == seq![
        "Prepare a dedicated Linux/x86_64 host kit before enabling Firecracker/PVM in Port."@,
        "Do not reuse the standard Firecracker host or standard guest artifacts for the PVM lane."@,
    ]
    &&& views(lane.follow_on_work@) == seq![
        "Teach port doctor to validate the x86_64 PVM host kit and host boot-line requirements."@,
        "Add build, pull, and validate pipelines for x86_64/firecracker/pvm kernel and guest-image variants."@,
        "Add a Firecracker/PVM driver path that selects the PVM host kit and fails fast when the host kit is absent."@,
    ]
}

/// The arm64 lane: research-only, with no kits and one blocking step.
pub open spec fn is_aarch64_lane(lane: FirecrackerPvmLaneContract) -> bool {
    &&& lane.host_kit is None
    &&& aarch64_lane_shape(lane)
}

/// The arm64 lane apart from its host kit.
pub open spec fn aarch64_lane_shape(lane: FirecrackerPvmLaneContract) -> bool {
    &&& lane.architecture == MachineArchitecture::Aarch64
    &&& lane.decision == PvmLaneDecision::ResearchOnly
    &&& lane.artifact_kit is None
    &&& lane.validation@.len() == 1
    &&& blocking_step(
        lane.validation@[0],
        "runtime-path"@,
        "Upstream arm64 protected virtualization work exists, but Port does not yet have a supportable Firecracker/PVM runtime path to validate."@,
    )
    &&& views(lane.operator_prerequisites@) == seq![
        "Treat arm64 Firecracker/PVM as research-only until Port ships a host-kit, VMM, and artifact contract backed by a real runtime path."@,
    ]
    &&& views(lane.follow_on_work@) == seq![
        "Track upstream arm64 protected-virtualization and guest-memory work relevant to Firecracker."@,
        "Reassess arm64 only after a supportable Firecracker runtime path exists, not only because upstream kernel capability exists."@,
    ]
}

fn blocking(name: &str, detail: &str) -> (r: PvmValidationExpectation)
    ensures
        blocking_step(r, name@, detail@),
{
    PvmValidationExpectation {
        name: String::from_str(name),
        blocking: true,
        detail: String::from_str(detail),
    }
}

fn x86_64_lane() -> (r: FirecrackerPvmLaneContract)
    ensures
        is_x86_64_lane(r),
{
    let validation = vec![
        blocking(
            "host-architecture",
            "Confirm the execution host is Linux/x86_64 before attempting the Firecracker/PVM lane.",
        ),
        blocking(
            "host-kernel",
            "Confirm the host is booted into the custom PVM-capable kernel and that the host boot line includes pti=off.",
        ),
        blocking(
            "firecracker-binary",
            "Confirm the selected Firecracker binary is the patched PVM-capable build rather than the standard local-launch binary.",
        ),
        blocking(
            "artifact-variants",
            "Confirm both kernel and guest-image artifacts exist for x86_64/firecracker/pvm and pass their variant-specific validation steps.",
        ),
    ];
    let operator_prerequisites = vec![
        String::from_str(
            "Prepare a dedicated Linux/x86_64 host kit before enabling Firecracker/PVM in Port.",
        ),
        String::from_str(
            "Do not reuse the standard Firecracker host or standard guest artifacts for the PVM lane.",
        ),
    ];
    let follow_on_work = vec![
        String::from_str(
            "Teach port doctor to validate the x86_64 PVM host kit and host boot-line requirements.",
        ),
        String::from_str(
            "Add build, pull, and validate pipelines for x86_64/firecracker/pvm kernel and guest-image variants.",
        ),
        String::from_str(
            "Add a Firecracker/PVM driver path that selects the PVM host kit and fails fast when the host kit is absent.",
        ),
    ];
    let r = FirecrackerPvmLaneContract {
        architecture: MachineArchitecture::X86_64,
        decision: PvmLaneDecision::Planned,
        host_kit: Some(x86_64_firecracker_pvm_host_kit()),
        artifact_kit: Some(x86_64_firecracker_pvm_artifact_kit()),
        validation,
        operator_prerequisites,
        follow_on_work,
    };
    assert(views(r.operator_prerequisites@) =~= seq![
        "Prepare a dedicated Linux/x86_64 host kit before enabling Firecracker/PVM in Port."@,
        "Do not reuse the standard Firecracker host or standard guest artifacts for the PVM lane."@,
    ]);
    assert(views(r.follow_on_work@) =~= seq![
        "Teach port doctor to validate the x86_64 PVM host kit and host boot-line requirements."@,
        "Add build, pull, and validate pipelines for x86_64/firecracker/pvm kernel and guest-image variants."@,
        "Add a Firecracker/PVM driver path that selects the PVM host kit and fails fast when the host kit is absent."@,
    ]);
    r
}

fn aarch64_lane() -> (r: FirecrackerPvmLaneContract)
    ensures
        is_aarch64_lane(r),
{
    let validation = vec![
        blocking(
            "runtime-path",
            "Upstream arm64 protected virtualization work exists, but Port does not yet have a supportable Firecracker/PVM runtime path to validate.",
        ),
    ];
    let operator_prerequisites = vec![
        String::from_str(
            "Treat arm64 Firecracker/PVM as research-only until Port ships a host-kit, VMM, and artifact contract backed by a real runtime path.",
        ),
    ];
    let follow_on_work = vec![
        String::from_str(
            "Track upstream arm64 protected-virtualization and guest-memory work relevant to Firecracker.",
        ),
        String::from_str(
            "Reassess arm64 only after a supportable Firecracker runtime path exists, not only because upstream kernel capability exists.",
        ),
    ];
    let r = FirecrackerPvmLaneContract {
        architecture: MachineArchitecture::Aarch64,
        decision: PvmLaneDecision::ResearchOnly,
        host_kit: None,
        artifact_kit: None,
        validation,
        operator_prerequisites,
        follow_on_work,
    };
    assert(views(r.operator_prerequisites@) =~= seq![
        "Treat arm64 Firecracker/PVM as research-only until Port ships a host-kit, VMM, and artifact contract backed by a real runtime path."@,
    ]);
    assert(views(r.follow_on_work@) =~= seq![
        "Track upstream arm64 protected-virtualization and guest-memory work relevant to Firecracker."@,
        "Reassess arm64 only after a supportable Firecracker runtime path exists, not only because upstream kernel capability exists."@,
    ]);
    r
}

impl FirecrackerPvmLaneContract {
    /// The PVM lane contract for `architecture`, where `Native` stands for
    /// `native`, the architecture of this host. x86_64 is a planned lane with
    /// host and artifact kits; arm64 stays research-only.
    pub fn for_architecture(architecture: MachineArchitecture, native: MachineArchitecture) -> (r: Self)
        requires
            resolve_pvm_architecture(architecture, native) != MachineArchitecture::Native,
        ensures
            resolve_pvm_architecture(architecture, native) == MachineArchitecture::X86_64
                ==> is_x86_64_lane(r),
            resolve_pvm_architecture(architecture, native) == MachineArchitecture::Aarch64
                ==> is_aarch64_lane(r),
    {
        let target = if architecture == MachineArchitecture::Native {
            native
        } else {
            architecture
        };
        match target {
            MachineArchitecture::X86_64 => x86_64_lane(),
            _ => aarch64_lane(),
        }
    }
}

/// The lanes of the sample Firecracker support: x86_64, then arm64.
pub fn firecracker_pvm_lanes() -> (r: Vec<FirecrackerPvmLaneContract>)
    ensures
        r@.len() == 2,
        is_x86_64_lane(r@[0]),
        is_aarch64_lane(r@[1]),
{
    vec![
        FirecrackerPvmLaneContract::for_architecture(
            MachineArchitecture::X86_64,
            MachineArchitecture::X86_64,
        ),
        FirecrackerPvmLaneContract::for_architecture(
            MachineArchitecture::Aarch64,
            MachineArchitecture::Aarch64,
        ),
    ]
}

// ---------------------------------------------------------------------------
// AVF

/// The AVF contract for Linux guests: a macOS host on either architecture,
/// launched locally or by a hosted node agent, over virtio sockets and a
/// serial console, with directory sharing that Rosetta needs.
pub open spec fn is_avf_linux_guest(c: AvfExecutionContract) -> bool {
    &&& c.host_platform == HostPlatform::Macos
    &&& c.supported_host_architectures@ == seq![MachineArchitecture::Aarch64, MachineArchitecture::X86_64]
    &&& c.launch_owners@ == seq![AvfLaunchOwner::LocalPortRuntime, AvfLaunchOwner::HostedNodeAgent]
    &&& c.guest_transport == AvfGuestTransport::VirtioSocket
    &&& c.console_transport == AvfConsoleTransport::SerialPort
    &&& c.directory_share.supported
    &&& c.directory_share.required_for_rosetta
    &&& views(c.directory_share.notes@) == seq![
        "Directory sharing is optional for Port guest control, but required when enabling Rosetta support for Linux guests on Apple silicon."@,
        "Port should keep guest exec/copy/pty/logs/forward on the guest-agent protocol rather than replacing it with host directory mounts."@,
    ]
    &&& views(c.operator_prerequisites@) == seq![
        "Run the AVF lane on macOS with the Virtualization framework available."@,
        "Distributed macOS app targets need Apple's virtualization entitlement; sandboxed distributions also need the relevant network and file-access entitlements."@,
    ]
    &&& views(c.follow_on_work@) == seq![
        "Implement an AVF driver that maps machine launch onto VZVirtualMachineConfiguration plus a Linux boot loader."@,
        "Bridge the guest agent through AVF virtio sockets and map console/log capture onto AVF serial ports."@,
        "Add macOS-focused port doctor checks for AVF availability, entitlements, and optional Rosetta support."@,
    ]
}

impl AvfExecutionContract {
    /// The AVF execution contract for Linux guests.
    pub fn linux_guest() -> (r: Self)
        ensures
            is_avf_linux_guest(r),
    {
        let r = AvfExecutionContract {
            host_platform: HostPlatform::Macos,
            supported_host_architectures: vec![
                MachineArchitecture::Aarch64,
                MachineArchitecture::X86_64,
            ],
            launch_owners: vec![AvfLaunchOwner::LocalPortRuntime, AvfLaunchOwner::HostedNodeAgent],
            guest_transport: AvfGuestTransport::VirtioSocket,
            console_transport: AvfConsoleTransport::SerialPort,
            directory_share: AvfDirectoryShareContract {
                supported: true,
                required_for_rosetta: true,
                notes: vec![
                    String::from_str(
                        "Directory sharing is optional for Port guest control, but required when enabling Rosetta support for Linux guests on Apple silicon.",
                    ),
                    String::from_str(
                        "Port should keep guest exec/copy/pty/logs/forward on the guest-agent protocol rather than replacing it with host directory mounts.",
                    ),
                ],
            },
            operator_prerequisites: vec![
                String::from_str(
                    "Run the AVF lane on macOS with the Virtualization framework available.",
                ),
                String::from_str(
                    "Distributed macOS app targets need Apple's virtualization entitlement; sandboxed distributions also need the relevant network and file-access entitlements.",
                ),
            ],
            follow_on_work: vec![
                String::from_str(
                    "Implement an AVF driver that maps machine launch onto VZVirtualMachineConfiguration plus a Linux boot loader.",
                ),
                String::from_str(
                    "Bridge the guest agent through AVF virtio sockets and map console/log capture onto AVF serial ports.",
                ),
                String::from_str(
                    "Add macOS-focused port doctor checks for AVF availability, entitlements, and optional Rosetta support.",
                ),
            ],
        };
        assert(r.supported_host_architectures@ =~= seq![MachineArchitecture::Aarch64, MachineArchitecture::X86_64]);
        assert(r.launch_owners@ =~= seq![AvfLaunchOwner::LocalPortRuntime, AvfLaunchOwner::HostedNodeAgent]);
        assert(views(r.directory_share.notes@) =~= seq![
            "Directory sharing is optional for Port guest control, but required when enabling Rosetta support for Linux guests on Apple silicon."@,
            "Port should keep guest exec/copy/pty/logs/forward on the guest-agent protocol rather than replacing it with host directory mounts."@,
        ]);
        assert(views(r.operator_prerequisites@) =~= seq![
            "Run the AVF lane on macOS with the Virtualization framework available."@,
            "Distributed macOS app targets need Apple's virtualization entitlement; sandboxed distributions also need the relevant network and file-access entitlements."@,
        ]);
        assert(views(r.follow_on_work@) =~= seq![
            "Implement an AVF driver that maps machine launch onto VZVirtualMachineConfiguration plus a Linux boot loader."@,
            "Bridge the guest agent through AVF virtio sockets and map console/log capture onto AVF serial ports."@,
            "Add macOS-focused port doctor checks for AVF availability, entitlements, and optional Rosetta support."@,
        ]);
        r
    }
}

// ---------------------------------------------------------------------------
// Advertised and configured capabilities

/// A lane that was ready reads as planned.
pub open spec fn demote_ready(lane: HostedPvmCapabilityView) -> HostedPvmCapabilityView {
    if lane.state == PvmCapabilityState::Ready {
        HostedPvmCapabilityView { state: PvmCapabilityState::Planned, ..lane }
    } else {
        lane
    }
}

/// Each item of `a` is in `b`.
pub open spec fn all_in<T>(a: Seq<T>, b: Seq<T>) -> bool {
    forall|i: int| 0 <= i < a.len() ==> b.contains(#[trigger] a[i])
}

/// Every capability list but the PVM lanes is non-empty.
pub open spec fn caps_populated(c: crate::views::HostedNodeCapabilitiesView) -> bool {
    c.providers.len() > 0 && c.platforms.len() > 0 && c.substrates.len() > 0
        && c.architectures.len() > 0 && c.protection_modes.len() > 0
}

/// Everything advertised in `a` is also in `b`.
pub open spec fn caps_subset(
    a: crate::views::HostedNodeCapabilitiesView,
    b: crate::views::HostedNodeCapabilitiesView,
) -> bool {
    &&& all_in(a.providers, b.providers)
    &&& all_in(a.platforms, b.platforms)
    &&& all_in(a.substrates, b.substrates)
    &&& all_in(a.architectures, b.architectures)
    &&& all_in(a.protection_modes, b.protection_modes)
    &&& all_in(a.pvm_lanes, b.pvm_lanes)
}

/// Whether two lists of strings hold the same strings in the same order.
pub fn strings_equal(a: &Vec<String>, b: &Vec<String>) -> (r: bool)
    ensures
        r == (views(a@) == views(b@)),
{
    if a.len() != b.len() {
        proof {
            if views(a@) == views(b@) {
                assert(views(a@).len() == views(b@).len());
            }
        }
        return false;
    }
    let n = a.len();
    let mut i: usize = 0;
    while i < n
        invariant
            n == a@.len(),
            n == b@.len(),
            i <= n,
            forall|j: int| 0 <= j < i ==> a@[j]@ == b@[j]@,
        decreases n - i,
    {
        if !str_eq(a[i].as_str(), b[i].as_str()) {
            proof {
                if views(a@) == views(b@) {
                    assert(views(a@)[i as int] == views(b@)[i as int]);
                }
            }
            return false;
        }
        i = i + 1;
    }
    assert(views(a@) =~= views(b@));
    true
}

fn host_kits_equal(a: &PvmHostKit, b: &PvmHostKit) -> (r: bool)
    ensures
        r == (a@ == b@),
{
    let env_equal = match (&a.firecracker_binary_env, &b.firecracker_binary_env) {
        (Some(x), Some(y)) => str_eq(x.as_str(), y.as_str()),
        (None, None) => true,
        _ => false,
    };
    let r = str_eq(a.package.name.as_str(), b.package.name.as_str()) && str_eq(
        a.package.version.as_str(),
        b.package.version.as_str(),
    ) && str_eq(a.package.host_kernel_release.as_str(), b.package.host_kernel_release.as_str())
        && str_eq(a.package.firecracker_build.as_str(), b.package.firecracker_build.as_str())
        && a.host_platform == b.host_platform && a.host_architecture == b.host_architecture
        && a.requires_custom_host_kernel == b.requires_custom_host_kernel
        && a.requires_patched_firecracker == b.requires_patched_firecracker && str_eq(
        a.firecracker_binary_name.as_str(),
        b.firecracker_binary_name.as_str(),
    ) && env_equal && strings_equal(&a.host_boot_args, &b.host_boot_args) && strings_equal(
        &a.notes,
        &b.notes,
    );
    proof {
        if r {
            assert(a@.package =~= b@.package);
            assert(a@ =~= b@);
        }
    }
    r
}

/// Whether two hosted PVM lanes are equal, field by field.
pub fn lanes_equal(a: &HostedPvmCapability, b: &HostedPvmCapability) -> (r: bool)
    ensures
        r == (a@ == b@),
{
    let kits_equal = match (&a.host_kit, &b.host_kit) {
        (Some(x), Some(y)) => host_kits_equal(x, y),
        (None, None) => true,
        _ => false,
    };
    let r = a.architecture == b.architecture && a.state == b.state && kits_equal && strings_equal(
        &a.notes,
        &b.notes,
    );
    proof {
        if r {
            assert(a@ =~= b@);
        }
    }
    r
}

fn lane_is_in(lane: &HostedPvmCapability, lanes: &Vec<HostedPvmCapability>) -> (r: bool)
    ensures
        r == lane_views(lanes@).contains(lane@),
{
    let n = lanes.len();
    let mut i: usize = 0;
    while i < n
        invariant
            n == lanes@.len(),
            i <= n,
            forall|j: int| 0 <= j < i ==> lanes@[j]@ != lane@,
        decreases n - i,
    {
        if lanes_equal(&lanes[i], lane) {
            assert(lane_views(lanes@)[i as int] == lane@);
            return true;
        }
        i = i + 1;
    }
    proof {
        if lane_views(lanes@).contains(lane@) {
            let j = choose|j: int| 0 <= j < lane_views(lanes@).len() && lane_views(lanes@)[j] == lane@;
            assert(lanes@[j]@ == lane@);
        }
    }
    false
}

impl HostedNodeCapabilities {
    /// The capabilities with every ready PVM lane demoted to planned: an
    /// imported record cannot vouch for readiness.
    pub fn without_imported_pvm_readiness(&self) -> (r: Self)
        ensures
            r@ == (crate::views::HostedNodeCapabilitiesView {
                pvm_lanes: self@.pvm_lanes.map_values(|l: HostedPvmCapabilityView| demote_ready(l)),
                ..self@
            }),
    {
        let mut next = self.clone();
        let n = next.pvm_lanes.len();
        let mut lanes: Vec<HostedPvmCapability> = Vec::new();
        let mut i: usize = 0;
        while i < n
            invariant
                n == next.pvm_lanes@.len(),
                lane_views(next.pvm_lanes@) == lane_views(self.pvm_lanes@),
                i <= n,
                lanes@.len() == i,
                forall|j: int| 0 <= j < i ==> (#[trigger] lanes@[j])@ == demote_ready(self@.pvm_lanes[j]),
            decreases n - i,
        {
            let mut lane = next.pvm_lanes[i].clone();
            assert(lane@ == self@.pvm_lanes[i as int]);
            if lane.state == PvmCapabilityState::Ready {
                lane.state = PvmCapabilityState::Planned;
            }
            assert(lane@ =~= demote_ready(self@.pvm_lanes[i as int]));
            lanes.push(lane);
            i = i + 1;
        }
        next.pvm_lanes = lanes;
        assert(next@.pvm_lanes =~= self@.pvm_lanes.map_values(
            |l: HostedPvmCapabilityView| demote_ready(l),
        ));
        next
    }

    /// Whether every capability list but the PVM lanes is non-empty.
    pub fn is_populated(&self) -> (r: bool)
        ensures
            r == caps_populated(self@),
    {
        self.providers.len() > 0 && self.platforms.len() > 0 && self.substrates.len() > 0
            && self.architectures.len() > 0 && self.protection_modes.len() > 0
    }

    /// Whether everything advertised here is also in `configured`.
    pub fn is_subset_of(&self, configured: &Self) -> (r: bool)
        ensures
            r == caps_subset(self@, configured@),
    {
        let providers = providers_in(&self.providers, &configured.providers);
        let platforms = platforms_in(&self.platforms, &configured.platforms);
        let substrates = substrates_in(&self.substrates, &configured.substrates);
        let architectures = architectures_in(&self.architectures, &configured.architectures);
        let modes = modes_in(&self.protection_modes, &configured.protection_modes);
        let n = self.pvm_lanes.len();
        let mut lanes = true;
        let mut i: usize = 0;
        while i < n
            invariant
                n == self.pvm_lanes@.len(),
                i <= n,
                lanes == forall|j: int|
                    0 <= j < i ==> lane_views(configured.pvm_lanes@).contains(
                        #[trigger] lane_views(self.pvm_lanes@)[j],
                    ),
            decreases n - i,
        {
            assert(lane_views(self.pvm_lanes@)[i as int] == self.pvm_lanes@[i as int]@);
            let found = lane_is_in(&self.pvm_lanes[i], &configured.pvm_lanes);
            if !found {
                lanes = false;
            }
            proof {
                if lanes {
                    assert forall|j: int| 0 <= j < i + 1 implies lane_views(configured.pvm_lanes@).contains(
                        #[trigger] lane_views(self.pvm_lanes@)[j],
                    ) by {
                        if j == i as int {
                            assert(found);
                        }
                    }
                }
            }
            i = i + 1;
        }
        providers && platforms && substrates && architectures && modes && lanes
    }
}

fn providers_in(a: &Vec<HostProvider>, b: &Vec<HostProvider>) -> (r: bool)
    ensures
        r == all_in(a@, b@),
{
    let n = a.len();
    let mut i: usize = 0;
    while i < n
        invariant
            n == a@.len(),
            i <= n,
            forall|j: int| 0 <= j < i ==> b@.contains(#[trigger] a@[j]),
        decreases n - i,
    {
        if !a[i].is_in(b) {
            return false;
        }
        i = i + 1;
    }
    true
}

fn platforms_in(a: &Vec<HostPlatform>, b: &Vec<HostPlatform>) -> (r: bool)
    ensures
        r == all_in(a@, b@),
{
    let n = a.len();
    let mut i: usize = 0;
    while i < n
        invariant
            n == a@.len(),
            i <= n,
            forall|j: int| 0 <= j < i ==> b@.contains(#[trigger] a@[j]),
        decreases n - i,
    {
        if !a[i].is_in(b) {
            return false;
        }
        i = i + 1;
    }
    true
}

fn substrates_in(a: &Vec<ExecutionSubstrate>, b: &Vec<ExecutionSubstrate>) -> (r: bool)
    ensures
        r == all_in(a@, b@),
{
    let n = a.len();
    let mut i: usize = 0;
    while i < n
        invariant
            n == a@.len(),
            i <= n,
            forall|j: int| 0 <= j < i ==> b@.contains(#[trigger] a@[j]),
        decreases n - i,
    {
        if !a[i].is_in(b) {
            return false;
        }
        i = i + 1;
    }
    true
}

fn architectures_in(a: &Vec<MachineArchitecture>, b: &Vec<MachineArchitecture>) -> (r: bool)
    ensures
        r == all_in(a@, b@),
{
    let n = a.len();
    let mut i: usize = 0;
    while i < n
        invariant
            n == a@.len(),
            i <= n,
            forall|j: int| 0 <= j < i ==> b@.contains(#[trigger] a@[j]),
        decreases n - i,
    {
        if !a[i].is_in(b) {
            return false;
        }
        i = i + 1;
    }
    true
}

fn modes_in(a: &Vec<ProtectionMode>, b: &Vec<ProtectionMode>) -> (r: bool)
    ensures
        r == all_in(a@, b@),
{
    let n = a.len();
    let mut i: usize = 0;
    while i < n
        invariant
            n == a@.len(),
            i <= n,
            forall|j: int| 0 <= j < i ==> b@.contains(#[trigger] a@[j]),
        decreases n - i,
    {
        if !a[i].is_in(b) {
            return false;
        }
        i = i + 1;
    }
    true
}

} // verus!
