//! The checks on a single machine: its architecture, rootfs overlay, runtime
//! class, volumes, and the issues that its host and artifacts raise.
use vstd::prelude::*;

use crate::checks::{Outcome, first_failure, lemma_first_failure_all_ok, lemma_first_failure_at, outcome, fail2, cat5, followed_by};
use crate::model::{
    ValidationError, MachineSpec, MachineVolumeSpec, HostSpec, HostConnection, HostPlatform,
    ProtectionMode, ArtifactSpec, ArtifactSelector, PortConfig, MachineArchitecture, ExecutionSubstrate,
    MachineRuntimeClassSpec, MachineRuntimeClassKind, MachineRuntimeTrustPosture,
    MachineRuntimeStateIsolation, MachineRuntimeWritableRoot, MachineRuntimeDeclaredInput,
};
use crate::text::{is_blank, str_is_blank, str_eq, join, views, join_strings};
use crate::control::contract_for;
use crate::artifacts::{has_variant, catalog_lookup};
use crate::named_map::{lookup, has_name};
use crate::validate::artifact_spec_check;

verus! {

/// The message given when the host's own architecture has no model.
pub open spec fn unmodeled_architecture_text() -> Seq<char> {
    "host architecture is not yet modeled by Port"@
}

/// The concrete architecture a machine runs: `Native` stands for `native`,
/// the architecture of the host that runs the check, which is itself
/// `Native` when that host's architecture is not modeled.
pub open spec fn resolve_architecture(
    architecture: MachineArchitecture,
    native: MachineArchitecture,
) -> Result<MachineArchitecture, Seq<char>> {
    match architecture {
        MachineArchitecture::Native => if native == MachineArchitecture::Native {
            Err(unmodeled_architecture_text())
        } else {
            Ok(native)
        },
        _ => Ok(architecture),
    }
}

/// The concrete architecture a machine runs, or why it cannot be resolved.
pub fn resolve_machine_architecture(
    architecture: MachineArchitecture,
    native: MachineArchitecture,
) -> (r: Result<MachineArchitecture, &'static str>)
    ensures
        match r {
            Ok(a) => resolve_architecture(architecture, native) == Ok::<
                MachineArchitecture,
                Seq<char>,
            >(a),
            Err(e) => resolve_architecture(architecture, native) == Err::<
                MachineArchitecture,
                Seq<char>,
            >(e@),
        },
{
    match architecture {
        MachineArchitecture::Native => {
            if native == MachineArchitecture::Native {
                Err("host architecture is not yet modeled by Port")
            } else {
                Ok(native)
            }
        },
        concrete => Ok(concrete),
    }
}

// ---------------------------------------------------------------------------
// Rootfs overlay

pub open spec fn rootfs_overlay_check(
    machine_name: Seq<char>,
    machine: MachineSpec,
    architecture: MachineArchitecture,
) -> Outcome {
    match machine.rootfs_overlay {
        None => Ok(()),
        Some(overlay) => if overlay.size_mib == 0 {
            Err("machine '"@ + machine_name + "' rootfs overlay size must be greater than zero MiB"@)
        } else if !machine.rootfs_read_only {
            Err(
                "machine '"@ + machine_name
                    + "' rootfs overlay requires rootfs_read_only = true so Port can boot a read-only base image with a writable overlay"@,
            )
        } else if machine.substrate != ExecutionSubstrate::Firecracker {
            Err(
                "machine '"@ + machine_name
                    + "' rootfs overlay is only supported on the Firecracker lane in this slice"@,
            )
        } else if architecture != MachineArchitecture::X86_64 {
            Err(
                "machine '"@ + machine_name
                    + "' rootfs overlay currently requires x86_64 Firecracker guests because the overlay initrd contract is only shipped for that architecture"@,
            )
        } else {
            Ok(())
        },
    }
}

pub fn validate_machine_rootfs_overlay(
    machine_name: &str,
    machine: &MachineSpec,
    architecture: MachineArchitecture,
) -> (r: Result<(), ValidationError>)
    ensures
        outcome(r) == rootfs_overlay_check(machine_name@, *machine, architecture),
{
    let overlay = match &machine.rootfs_overlay {
        Some(overlay) => overlay,
        None => {
            return Ok(());
        },
    };
    if overlay.size_mib == 0 {
        return Err(
            crate::checks::fail3(
                "machine '",
                machine_name,
                "' rootfs overlay size must be greater than zero MiB",
            ),
        );
    }
    if !machine.rootfs_read_only {
        return Err(
            crate::checks::fail3(
                "machine '",
                machine_name,
                "' rootfs overlay requires rootfs_read_only = true so Port can boot a read-only base image with a writable overlay",
            ),
        );
    }
    if machine.substrate != ExecutionSubstrate::Firecracker {
        return Err(
            crate::checks::fail3(
                "machine '",
                machine_name,
                "' rootfs overlay is only supported on the Firecracker lane in this slice",
            ),
        );
    }
    if architecture != MachineArchitecture::X86_64 {
        return Err(
            crate::checks::fail3(
                "machine '",
                machine_name,
                "' rootfs overlay currently requires x86_64 Firecracker guests because the overlay initrd contract is only shipped for that architecture",
            ),
        );
    }
    Ok(())
}

// ---------------------------------------------------------------------------
// Runtime classes

/// Whether the item at `i` repeats an earlier one.
pub open spec fn repeats_earlier<T>(s: Seq<T>, i: int) -> bool {
    exists|j: int| 0 <= j < i && s[j] == s[i]
}

/// The index of the first writable root that repeats an earlier one.
pub fn first_repeated_root(v: &Vec<MachineRuntimeWritableRoot>) -> (r: Option<usize>)
    ensures
        match r {
            Some(i) => i < v@.len() && repeats_earlier(v@, i as int) && forall|k: int|
                0 <= k < i ==> !#[trigger] repeats_earlier(v@, k),
            None => forall|k: int| 0 <= k < v@.len() ==> !#[trigger] repeats_earlier(v@, k),
        },
{
    let n = v.len();
    let mut i: usize = 0;
    while i < n
        invariant
            n == v@.len(),
            i <= n,
            forall|k: int| 0 <= k < i ==> !#[trigger] repeats_earlier(v@, k),
        decreases n - i,
    {
        let mut j: usize = 0;
        while j < i
            invariant
                n == v@.len(),
                j <= i < n,
                forall|k: int| 0 <= k < i ==> !#[trigger] repeats_earlier(v@, k),
                forall|m: int| 0 <= m < j ==> v@[m] != v@[i as int],
            decreases i - j,
        {
            if v[j] == v[i] {
                assert(repeats_earlier(v@, i as int));
                return Some(i);
            }
            j = j + 1;
        }
        i = i + 1;
    }
    None
}

/// The index of the first declared input that repeats an earlier one.
pub fn first_repeated_input(v: &Vec<MachineRuntimeDeclaredInput>) -> (r: Option<usize>)
    ensures
        match r {
            Some(i) => i < v@.len() && repeats_earlier(v@, i as int) && forall|k: int|
                0 <= k < i ==> !#[trigger] repeats_earlier(v@, k),
            None => forall|k: int| 0 <= k < v@.len() ==> !#[trigger] repeats_earlier(v@, k),
        },
{
    let n = v.len();
    let mut i: usize = 0;
    while i < n
        invariant
            n == v@.len(),
            i <= n,
            forall|k: int| 0 <= k < i ==> !#[trigger] repeats_earlier(v@, k),
        decreases n - i,
    {
        let mut j: usize = 0;
        while j < i
            invariant
                n == v@.len(),
                j <= i < n,
                forall|k: int| 0 <= k < i ==> !#[trigger] repeats_earlier(v@, k),
                forall|m: int| 0 <= m < j ==> v@[m] != v@[i as int],
            decreases i - j,
        {
            if v[j] == v[i] {
                assert(repeats_earlier(v@, i as int));
                return Some(i);
            }
            j = j + 1;
        }
        i = i + 1;
    }
    None
}

/// `machine '<name>' runtime class '<kind>'`, the start of every runtime-class message.
pub open spec fn runtime_class_prefix(machine_name: Seq<char>, kind: MachineRuntimeClassKind) -> Seq<
    char,
> {
    "machine '"@ + machine_name + "' runtime class '"@ + kind.label_text() + "'"@
}

pub open spec fn repeated_root_check(prefix: Seq<char>, roots: Seq<MachineRuntimeWritableRoot>, i: int) -> Outcome {
    if repeats_earlier(roots, i) {
        Err(prefix + " declares duplicate writable root '"@ + roots[i].label_text() + "'"@)
    } else {
        Ok(())
    }
}

pub open spec fn repeated_input_check(prefix: Seq<char>, inputs: Seq<MachineRuntimeDeclaredInput>, i: int) -> Outcome {
    if repeats_earlier(inputs, i) {
        Err(prefix + " declares duplicate declared input '"@ + inputs[i].label_text() + "'"@)
    } else {
        Ok(())
    }
}

/// The rules of the runtime class's kind.
pub open spec fn runtime_kind_check(prefix: Seq<char>, machine: MachineSpec, rc: MachineRuntimeClassSpec) -> Outcome {
    let roots = rc.writable_roots@;
    let inputs = rc.declared_inputs@;
    match rc.kind {
        MachineRuntimeClassKind::WorkspaceScratchBuilder => match rc.workspace {
            None => Err(prefix + " must declare a workspace binding"@),
            Some(binding) => if is_blank(binding.workspace@) {
                Err(prefix + " must declare a non-empty workspace name"@)
            } else if is_blank(binding.lane@) {
                Err(prefix + " must declare a non-empty workspace lane"@)
            } else if rc.trust != MachineRuntimeTrustPosture::WorkspaceUntrusted {
                Err(prefix + " must stay 'workspace-untrusted' and cannot imply publish trust"@)
            } else if rc.state_isolation != MachineRuntimeStateIsolation::WorkspaceWritable {
                Err(prefix + " must use state isolation 'workspace-writable'"@)
            } else if !machine.rootfs_read_only || machine.rootfs_overlay is None {
                Err(
                    prefix
                        + " requires a read-only base guest plus a writable rootfs overlay so scratch state stays explicit"@,
                )
            } else if !roots.contains(MachineRuntimeWritableRoot::NixStore) {
                Err(prefix + " must declare writable root 'nix-store'"@)
            } else if !roots.contains(MachineRuntimeWritableRoot::SourceRoot) {
                Err(prefix + " must declare writable root 'source-root'"@)
            } else if !roots.contains(MachineRuntimeWritableRoot::TempRoot) {
                Err(prefix + " must declare writable root 'temp-root'"@)
            } else {
                Ok(())
            },
        },
        MachineRuntimeClassKind::BlessedClosurePromotionRunner => if rc.workspace is Some {
            Err(prefix + " must not carry a workspace binding or creator-scoped identity"@)
        } else if rc.trust != MachineRuntimeTrustPosture::PromotionTrusted {
            Err(prefix + " must stay 'promotion-trusted'"@)
        } else if rc.state_isolation != MachineRuntimeStateIsolation::CleanRoom {
            Err(prefix + " must use state isolation 'clean-room'"@)
        } else if !machine.rootfs_read_only || machine.rootfs_overlay is None {
            Err(
                prefix
                    + " requires a read-only base guest plus a writable rootfs overlay for clean-room execution"@,
            )
        } else if roots.contains(MachineRuntimeWritableRoot::NixStore) || roots.contains(
            MachineRuntimeWritableRoot::SourceRoot,
        ) || roots.contains(MachineRuntimeWritableRoot::TempRoot) {
            Err(
                prefix
                    + " must not reuse scratch writable roots 'nix-store', 'source-root', or 'temp-root'"@,
            )
        } else if !roots.contains(MachineRuntimeWritableRoot::EvidenceRoot) {
            Err(prefix + " must declare writable root 'evidence-root'"@)
        } else if !inputs.contains(MachineRuntimeDeclaredInput::SourceBundle) {
            Err(prefix + " must declare input 'source-bundle'"@)
        } else if !inputs.contains(MachineRuntimeDeclaredInput::RequestedOutputs) {
            Err(prefix + " must declare input 'requested-outputs'"@)
        } else if !inputs.contains(MachineRuntimeDeclaredInput::PolicySnapshot) {
            Err(prefix + " must declare input 'policy-snapshot'"@)
        } else {
            Ok(())
        },
    }
}

/// Repeated writable roots, then repeated declared inputs, then the kind's rules.
pub open spec fn runtime_class_check(machine_name: Seq<char>, machine: MachineSpec) -> Outcome {
    match machine.runtime_class {
        None => Ok(()),
        Some(rc) => {
            let prefix = runtime_class_prefix(machine_name, rc.kind);
            followed_by(
                first_failure(
                    rc.writable_roots@.len() as int,
                    |i: int| repeated_root_check(prefix, rc.writable_roots@, i),
                ),
                followed_by(
                    first_failure(
                        rc.declared_inputs@.len() as int,
                        |i: int| repeated_input_check(prefix, rc.declared_inputs@, i),
                    ),
                    runtime_kind_check(prefix, machine, rc),
                ),
            )
        },
    }
}

fn validate_runtime_kind(prefix: &str, machine: &MachineSpec, rc: &MachineRuntimeClassSpec) -> (r:
    Result<(), ValidationError>)
    ensures
        outcome(r) == runtime_kind_check(prefix@, *machine, *rc),
{
    let roots = &rc.writable_roots;
    let inputs = &rc.declared_inputs;
    match rc.kind {
        MachineRuntimeClassKind::WorkspaceScratchBuilder => {
            let binding = match &rc.workspace {
                Some(binding) => binding,
                None => {
                    return Err(fail2(prefix, " must declare a workspace binding"));
                },
            };
            if str_is_blank(binding.workspace.as_str()) {
                return Err(fail2(prefix, " must declare a non-empty workspace name"));
            }
            if str_is_blank(binding.lane.as_str()) {
                return Err(fail2(prefix, " must declare a non-empty workspace lane"));
            }
            if rc.trust != MachineRuntimeTrustPosture::WorkspaceUntrusted {
                return Err(
                    fail2(prefix, " must stay 'workspace-untrusted' and cannot imply publish trust"),
                );
            }
            if rc.state_isolation != MachineRuntimeStateIsolation::WorkspaceWritable {
                return Err(fail2(prefix, " must use state isolation 'workspace-writable'"));
            }
            if !machine.rootfs_read_only || machine.rootfs_overlay.is_none() {
                return Err(
                    fail2(
                        prefix,
                        " requires a read-only base guest plus a writable rootfs overlay so scratch state stays explicit",
                    ),
                );
            }
            if !MachineRuntimeWritableRoot::NixStore.is_in(roots) {
                return Err(fail2(prefix, " must declare writable root 'nix-store'"));
            }
            if !MachineRuntimeWritableRoot::SourceRoot.is_in(roots) {
                return Err(fail2(prefix, " must declare writable root 'source-root'"));
            }
            if !MachineRuntimeWritableRoot::TempRoot.is_in(roots) {
                return Err(fail2(prefix, " must declare writable root 'temp-root'"));
            }
            Ok(())
        },
        MachineRuntimeClassKind::BlessedClosurePromotionRunner => {
            if rc.workspace.is_some() {
                return Err(
                    fail2(prefix, " must not carry a workspace binding or creator-scoped identity"),
                );
            }
            if rc.trust != MachineRuntimeTrustPosture::PromotionTrusted {
                return Err(fail2(prefix, " must stay 'promotion-trusted'"));
            }
            if rc.state_isolation != MachineRuntimeStateIsolation::CleanRoom {
                return Err(fail2(prefix, " must use state isolation 'clean-room'"));
            }
            if !machine.rootfs_read_only || machine.rootfs_overlay.is_none() {
                return Err(
                    fail2(
                        prefix,
                        " requires a read-only base guest plus a writable rootfs overlay for clean-room execution",
                    ),
                );
            }
            if MachineRuntimeWritableRoot::NixStore.is_in(roots)
                || MachineRuntimeWritableRoot::SourceRoot.is_in(roots)
                || MachineRuntimeWritableRoot::TempRoot.is_in(roots) {
                return Err(
                    fail2(
                        prefix,
                        " must not reuse scratch writable roots 'nix-store', 'source-root', or 'temp-root'",
                    ),
                );
            }
            if !MachineRuntimeWritableRoot::EvidenceRoot.is_in(roots) {
                return Err(fail2(prefix, " must declare writable root 'evidence-root'"));
            }
            if !MachineRuntimeDeclaredInput::SourceBundle.is_in(inputs) {
                return Err(fail2(prefix, " must declare input 'source-bundle'"));
            }
            if !MachineRuntimeDeclaredInput::RequestedOutputs.is_in(inputs) {
                return Err(fail2(prefix, " must declare input 'requested-outputs'"));
            }
            if !MachineRuntimeDeclaredInput::PolicySnapshot.is_in(inputs) {
                return Err(fail2(prefix, " must declare input 'policy-snapshot'"));
            }
            Ok(())
        },
    }
}

pub fn validate_machine_runtime_class(machine_name: &str, machine: &MachineSpec) -> (r: Result<
    (),
    ValidationError,
>)
    ensures
        outcome(r) == runtime_class_check(machine_name@, *machine),
{
    let rc = match &machine.runtime_class {
        Some(rc) => rc,
        None => {
            return Ok(());
        },
    };
    let prefix = cat5("machine '", machine_name, "' runtime class '", rc.kind.label(), "'");
    let ghost p = runtime_class_prefix(machine_name@, rc.kind);
    assert(prefix@ == p);
    let ghost root_check = |i: int| repeated_root_check(p, rc.writable_roots@, i);
    let ghost input_check = |i: int| repeated_input_check(p, rc.declared_inputs@, i);
    match first_repeated_root(&rc.writable_roots) {
        Some(i) => {
            proof {
                assert forall|k: int| 0 <= k < i implies #[trigger] root_check(k) is Ok by {
                    assert(!repeats_earlier(rc.writable_roots@, k));
                }
                assert(root_check(i as int) is Err);
                lemma_first_failure_at(rc.writable_roots@.len() as int, i as int, root_check);
            }
            return Err(
                crate::checks::fail4(
                    prefix.as_str(),
                    " declares duplicate writable root '",
                    rc.writable_roots[i].label(),
                    "'",
                ),
            );
        },
        None => {
            proof {
                assert forall|k: int| 0 <= k < rc.writable_roots@.len() implies #[trigger] root_check(k) is Ok by {
                    assert(!repeats_earlier(rc.writable_roots@, k));
                }
                lemma_first_failure_all_ok(rc.writable_roots@.len() as int, root_check);
            }
        },
    }
    match first_repeated_input(&rc.declared_inputs) {
        Some(i) => {
            proof {
                assert forall|k: int| 0 <= k < i implies #[trigger] input_check(k) is Ok by {
                    assert(!repeats_earlier(rc.declared_inputs@, k));
                }
                assert(input_check(i as int) is Err);
                lemma_first_failure_at(rc.declared_inputs@.len() as int, i as int, input_check);
            }
            return Err(
                crate::checks::fail4(
                    prefix.as_str(),
                    " declares duplicate declared input '",
                    rc.declared_inputs[i].label(),
                    "'",
                ),
            );
        },
        None => {
            proof {
                assert forall|k: int| 0 <= k < rc.declared_inputs@.len() implies #[trigger] input_check(k) is Ok by {
                    assert(!repeats_earlier(rc.declared_inputs@, k));
                }
                lemma_first_failure_all_ok(rc.declared_inputs@.len() as int, input_check);
            }
        },
    }
    validate_runtime_kind(prefix.as_str(), machine, rc)
}

// ---------------------------------------------------------------------------
// Volumes

pub open spec fn volume_check(machine_name: Seq<char>, volumes: Seq<MachineVolumeSpec>, i: int) -> Outcome {
    let v = volumes[i];
    if is_blank(v.name@) {
        Err("machine '"@ + machine_name + "' volume name must be non-empty"@)
    } else if v.path@.len() == 0 {
        Err("machine '"@ + machine_name + "' volume '"@ + v.name@ + "' must declare a non-empty path"@)
    } else if exists|j: int| 0 <= j < i && #[trigger] volumes[j].name@ == v.name@ {
        Err("machine '"@ + machine_name + "' declares duplicate volume '"@ + v.name@ + "'"@)
    } else {
        Ok(())
    }
}

/// At most one volume, each named, with a path, and no name used twice.
pub open spec fn volumes_check(machine_name: Seq<char>, machine: MachineSpec) -> Outcome {
    if machine.volumes@.len() > 1 {
        Err(
            "machine '"@ + machine_name
                + "' currently supports at most one attached volume in the first storage slice"@,
        )
    } else {
        first_failure(
            machine.volumes@.len() as int,
            |i: int| volume_check(machine_name, machine.volumes@, i),
        )
    }
}

pub fn validate_machine_volumes(machine_name: &str, machine: &MachineSpec) -> (r: Result<
    (),
    ValidationError,
>)
    ensures
        outcome(r) == volumes_check(machine_name@, *machine),
{
    let n = machine.volumes.len();
    if n > 1 {
        return Err(
            crate::checks::fail3(
                "machine '",
                machine_name,
                "' currently supports at most one attached volume in the first storage slice",
            ),
        );
    }
    let ghost check = |i: int| volume_check(machine_name@, machine.volumes@, i);
    let mut i: usize = 0;
    while i < n
        invariant
            n == machine.volumes@.len(),
            n <= 1,
            i <= n,
            check == (|i: int| volume_check(machine_name@, machine.volumes@, i)),
            forall|k: int| 0 <= k < i ==> #[trigger] check(k) is Ok,
        decreases n - i,
    {
        let volume = &machine.volumes[i];
        if str_is_blank(volume.name.as_str()) {
            proof {
                lemma_first_failure_at(n as int, i as int, check);
            }
            return Err(
                crate::checks::fail3("machine '", machine_name, "' volume name must be non-empty"),
            );
        }
        if volume.path.unicode_len() == 0 {
            proof {
                lemma_first_failure_at(n as int, i as int, check);
            }
            return Err(
                crate::checks::fail5(
                    "machine '",
                    machine_name,
                    "' volume '",
                    volume.name.as_str(),
                    "' must declare a non-empty path",
                ),
            );
        }
        let mut j: usize = 0;
        while j < i
            invariant
                n == machine.volumes@.len(),
                j <= i < n,
                n <= 1,
                *volume == machine.volumes@[i as int],
                check == (|i: int| volume_check(machine_name@, machine.volumes@, i)),
                forall|k: int| 0 <= k < i ==> #[trigger] check(k) is Ok,
                forall|m: int| 0 <= m < j ==> machine.volumes@[m].name@ != machine.volumes@[i as int].name@,
            decreases i - j,
        {
            if str_eq(machine.volumes[j].name.as_str(), volume.name.as_str()) {
                proof {
                    assert(machine.volumes@[j as int].name@ == machine.volumes@[i as int].name@);
                    assert(check(i as int) is Err);
                    lemma_first_failure_at(n as int, i as int, check);
                }
                return Err(
                    crate::checks::fail5(
                        "machine '",
                        machine_name,
                        "' declares duplicate volume '",
                        volume.name.as_str(),
                        "'",
                    ),
                );
            }
            j = j + 1;
        }
        assert(check(i as int) is Ok);
        i = i + 1;
    }
    proof {
        lemma_first_failure_all_ok(n as int, check);
    }
    Ok(())
}

/// The one lane where volumes can be attached: a local Linux host running
/// Firecracker in standard protection.
pub open spec fn volume_lane_supported(host: HostSpec, machine: MachineSpec) -> bool {
    &&& host.connection is Local
    &&& host.platform == HostPlatform::Linux
    &&& machine.substrate == ExecutionSubstrate::Firecracker
    &&& machine.protection_mode == ProtectionMode::Standard
}

pub open spec fn volume_lane_check(
    machine_name: Seq<char>,
    host_name: Seq<char>,
    host: HostSpec,
    machine: MachineSpec,
) -> Outcome {
    if machine.volumes@.len() == 0 || volume_lane_supported(host, machine) {
        Ok(())
    } else {
        let control = contract_for(host.connection);
        let volume = machine.volumes@[0];
        Err(
            "machine '"@ + machine_name + "' attached volume '"@ + volume.name@ + "' backend '"@
                + volume.backend.label_text() + "' persistence '"@ + volume.persistence.label_text()
                + "' host path '"@ + volume.path@ + "' targets host '"@ + host_name
                + "' through launch route '"@ + control.launch_route.label_text()
                + "' with inventory owner '"@ + control.inventory_owner.label_text()
                + "' and lifecycle owner '"@ + control.lifecycle_owner.label_text()
                + "'; attached volumes are only supported on the local Firecracker standard lane in this slice"@,
        )
    }
}

pub fn validate_machine_volume_lane(
    machine_name: &str,
    host_name: &str,
    host: &HostSpec,
    machine: &MachineSpec,
) -> (r: Result<(), ValidationError>)
    ensures
        outcome(r) == volume_lane_check(machine_name@, host_name@, *host, *machine),
{
    let supported = match &host.connection {
        HostConnection::Local => true,
        _ => false,
    } && host.platform == HostPlatform::Linux && machine.substrate == ExecutionSubstrate::Firecracker
        && machine.protection_mode == ProtectionMode::Standard;
    if machine.volumes.len() == 0 || supported {
        return Ok(());
    }
    let control = crate::model::MachineControlContract::for_connection(&host.connection);
    let volume = &machine.volumes[0];
    let mut m = String::from_str("machine '");
    m.append(machine_name);
    m.append("' attached volume '");
    m.append(volume.name.as_str());
    m.append("' backend '");
    m.append(volume.backend.label());
    m.append("' persistence '");
    m.append(volume.persistence.label());
    m.append("' host path '");
    m.append(volume.path.as_str());
    m.append("' targets host '");
    m.append(host_name);
    m.append("' through launch route '");
    m.append(control.launch_route.label());
    m.append("' with inventory owner '");
    m.append(control.inventory_owner.label());
    m.append("' and lifecycle owner '");
    m.append(control.lifecycle_owner.label());
    m.append(
        "'; attached volumes are only supported on the local Firecracker standard lane in this slice",
    );
    let ghost expected = volume_lane_check(machine_name@, host_name@, *host, *machine);
    assert(expected is Err);
    assert(Err::<(), Seq<char>>(m@) == expected);
    Err(ValidationError::new(m))
}

// ---------------------------------------------------------------------------
// Issues raised by the host and the artifacts

pub open spec fn issue_if(cond: bool, text: Seq<char>) -> Seq<Seq<char>> {
    if cond {
        seq![text]
    } else {
        Seq::empty()
    }
}

/// What the substrate asks of the host and the protection mode.
pub open spec fn substrate_issues(host: HostSpec, machine: MachineSpec, architecture: MachineArchitecture) -> Seq<
    Seq<char>,
> {
    match machine.substrate {
        ExecutionSubstrate::Firecracker => issue_if(
            host.platform != HostPlatform::Linux,
            "Firecracker execution requires a Linux host platform."@,
        ) + issue_if(
            machine.protection_mode == ProtectionMode::Pvm && architecture
                == MachineArchitecture::Aarch64,
            "Firecracker/PVM currently requires x86_64; arm64 remains a research lane."@,
        ),
        ExecutionSubstrate::CloudHypervisor => issue_if(
            host.platform != HostPlatform::Linux,
            "Cloud Hypervisor execution currently expects a Linux host platform."@,
        ) + issue_if(
            machine.protection_mode == ProtectionMode::Pvm,
            "Port does not currently define a Cloud Hypervisor PVM lane."@,
        ),
        ExecutionSubstrate::Avf => issue_if(
            host.platform != HostPlatform::Macos,
            "Apple Virtualization Framework requires a macOS host platform."@,
        ) + issue_if(
            !(host.connection is Local),
            "AVF local runtime currently requires a local host connection."@,
        ) + issue_if(
            machine.protection_mode == ProtectionMode::Pvm,
            "Apple Virtualization Framework does not currently define a PVM lane."@,
        ),
    }
}

/// `<Label> artifact '<name>' has no variant for <substrate>/<protection>/<architecture>.`
pub open spec fn missing_variant_text(
    label: Seq<char>,
    artifact_name: Seq<char>,
    machine: MachineSpec,
    architecture: MachineArchitecture,
) -> Seq<char> {
    label + " artifact '"@ + artifact_name + "' has no variant for "@
        + machine.substrate.debug_name_text() + "/"@ + machine.protection_mode.debug_name_text()
        + "/"@ + architecture.debug_name_text() + "."@
}

pub open spec fn machine_selector(machine: MachineSpec, architecture: MachineArchitecture) -> ArtifactSelector {
    ArtifactSelector {
        architecture,
        substrate: machine.substrate,
        protection_mode: machine.protection_mode,
    }
}

/// Every issue with the machine's host and artifacts, in the order they are reported.
pub open spec fn machine_issues(
    host: HostSpec,
    machine: MachineSpec,
    architecture: MachineArchitecture,
    kernel: ArtifactSpec,
    guest_image: ArtifactSpec,
) -> Seq<Seq<char>> {
    substrate_issues(host, machine, architecture) + issue_if(
        !has_variant(kernel, machine_selector(machine, architecture)),
        missing_variant_text("Kernel"@, machine.kernel@, machine, architecture),
    ) + issue_if(
        !has_variant(guest_image, machine_selector(machine, architecture)),
        missing_variant_text("Guest image"@, machine.guest_image@, machine, architecture),
    )
}

fn push_issue(issues: &mut Vec<String>, cond: bool, text: &str)
    ensures
        views(final(issues)@) == views(old(issues)@) + issue_if(cond, text@),
{
    if cond {
        issues.push(String::from_str(text));
        assert(views(issues@) =~= views(old(issues)@) + issue_if(cond, text@));
    } else {
        assert(views(issues@) =~= views(old(issues)@) + issue_if(cond, text@));
    }
}

fn missing_variant_message(
    label: &str,
    artifact_name: &str,
    machine: &MachineSpec,
    architecture: MachineArchitecture,
) -> (r: String)
    ensures
        r@ == missing_variant_text(label@, artifact_name@, *machine, architecture),
{
    let mut m = String::from_str(label);
    m.append(" artifact '");
    m.append(artifact_name);
    m.append("' has no variant for ");
    m.append(machine.substrate.debug_name());
    m.append("/");
    m.append(machine.protection_mode.debug_name());
    m.append("/");
    m.append(architecture.debug_name());
    m.append(".");
    assert(m@ =~= missing_variant_text(label@, artifact_name@, *machine, architecture));
    m
}

pub fn machine_issue_list(
    host: &HostSpec,
    machine: &MachineSpec,
    architecture: MachineArchitecture,
    kernel: &ArtifactSpec,
    guest_image: &ArtifactSpec,
) -> (r: Vec<String>)
    ensures
        views(r@) == machine_issues(*host, *machine, architecture, *kernel, *guest_image),
{
    let mut issues: Vec<String> = Vec::new();
    assert(views(issues@) =~= Seq::<Seq<char>>::empty());
    let is_local = match &host.connection {
        HostConnection::Local => true,
        _ => false,
    };
    match machine.substrate {
        ExecutionSubstrate::Firecracker => {
            push_issue(
                &mut issues,
                host.platform != HostPlatform::Linux,
                "Firecracker execution requires a Linux host platform.",
            );
            push_issue(
                &mut issues,
                machine.protection_mode == ProtectionMode::Pvm && architecture
                    == MachineArchitecture::Aarch64,
                "Firecracker/PVM currently requires x86_64; arm64 remains a research lane.",
            );
        },
        ExecutionSubstrate::CloudHypervisor => {
            push_issue(
                &mut issues,
                host.platform != HostPlatform::Linux,
                "Cloud Hypervisor execution currently expects a Linux host platform.",
            );
            push_issue(
                &mut issues,
                machine.protection_mode == ProtectionMode::Pvm,
                "Port does not currently define a Cloud Hypervisor PVM lane.",
            );
        },
        ExecutionSubstrate::Avf => {
            push_issue(
                &mut issues,
                host.platform != HostPlatform::Macos,
                "Apple Virtualization Framework requires a macOS host platform.",
            );
            push_issue(
                &mut issues,
                !is_local,
                "AVF local runtime currently requires a local host connection.",
            );
            push_issue(
                &mut issues,
                machine.protection_mode == ProtectionMode::Pvm,
                "Apple Virtualization Framework does not currently define a PVM lane.",
            );
        },
    }
    let ghost after_substrate = views(issues@);
    assert(after_substrate =~= substrate_issues(*host, *machine, architecture));
    if !kernel.supports(architecture, machine.substrate, machine.protection_mode) {
        let text = missing_variant_message("Kernel", machine.kernel.as_str(), machine, architecture);
        push_issue(&mut issues, true, text.as_str());
    } else {
        push_issue(&mut issues, false, "");
    }
    if !guest_image.supports(architecture, machine.substrate, machine.protection_mode) {
        let text = missing_variant_message(
            "Guest image",
            machine.guest_image.as_str(),
            machine,
            architecture,
        );
        push_issue(&mut issues, true, text.as_str());
    } else {
        push_issue(&mut issues, false, "");
    }
    assert(views(issues@) =~= machine_issues(*host, *machine, architecture, *kernel, *guest_image));
    issues
}

// ---------------------------------------------------------------------------
// A whole machine

pub open spec fn issues_check(machine_name: Seq<char>, issues: Seq<Seq<char>>) -> Outcome {
    if issues.len() == 0 {
        Ok(())
    } else {
        Err("machine '"@ + machine_name + "': "@ + join(issues, " "@))
    }
}

/// The checks that need the machine's artifacts and architecture, in order.
pub open spec fn machine_artifacts_check(
    cfg: PortConfig,
    native: MachineArchitecture,
    machine_name: Seq<char>,
    machine: MachineSpec,
    host: HostSpec,
) -> Outcome {
    match catalog_lookup(cfg.artifacts, machine.kernel@) {
        None => Err(
            "machine '"@ + machine_name + "' references unknown kernel artifact '"@ + machine.kernel@
                + "'"@,
        ),
        Some((_, kernel)) => match catalog_lookup(cfg.artifacts, machine.guest_image@) {
            None => Err(
                "machine '"@ + machine_name + "' references unknown guest image artifact '"@
                    + machine.guest_image@ + "'"@,
            ),
            Some((_, guest_image)) => match resolve_architecture(machine.architecture, native) {
                Err(e) => Err("machine '"@ + machine_name + "': "@ + e),
                Ok(arch) => followed_by(
                    artifact_spec_check(machine_name, "kernel"@, machine.kernel@, kernel),
                    followed_by(
                        artifact_spec_check(
                            machine_name,
                            "guest image"@,
                            machine.guest_image@,
                            guest_image,
                        ),
                        followed_by(
                            rootfs_overlay_check(machine_name, machine, arch),
                            followed_by(
                                runtime_class_check(machine_name, machine),
                                followed_by(
                                    volumes_check(machine_name, machine),
                                    followed_by(
                                        volume_lane_check(machine_name, machine.host@, host, machine),
                                        issues_check(
                                            machine_name,
                                            machine_issues(host, machine, arch, kernel, guest_image),
                                        ),
                                    ),
                                ),
                            ),
                        ),
                    ),
                ),
            },
        },
    }
}

/// Every check on one machine, in the order `PortConfig::validate` runs them.
pub open spec fn machine_check(
    cfg: PortConfig,
    native: MachineArchitecture,
    machine_name: Seq<char>,
    machine: MachineSpec,
) -> Outcome {
    match lookup(cfg.hosts@, machine.host@) {
        None => Err(
            "machine '"@ + machine_name + "' references unknown host '"@ + machine.host@ + "'"@,
        ),
        Some(host) => followed_by(
            match host.connection {
                HostConnection::HostedControlPlane { control_plane } => if !has_name(
                    cfg.control_planes@,
                    control_plane@,
                ) {
                    Err(
                        "machine '"@ + machine_name + "' references host '"@ + machine.host@
                            + "' which references unknown control plane '"@ + control_plane@
                            + "'"@,
                    )
                } else {
                    Ok(())
                },
                _ => Ok(()),
            },
            machine_artifacts_check(cfg, native, machine_name, machine, host),
        ),
    }
}

pub fn validate_machine(
    config: &PortConfig,
    native: MachineArchitecture,
    machine_name: &str,
    machine: &MachineSpec,
) -> (r: Result<(), ValidationError>)
    ensures
        outcome(r) == machine_check(*config, native, machine_name@, *machine),
{
    let host = match config.hosts.get(machine.host.as_str()) {
        Some(host) => host,
        None => {
            return Err(
                crate::checks::fail5(
                    "machine '",
                    machine_name,
                    "' references unknown host '",
                    machine.host.as_str(),
                    "'",
                ),
            );
        },
    };
    match &host.connection {
        HostConnection::HostedControlPlane { control_plane } => {
            if !config.control_planes.contains_key(control_plane.as_str()) {
                return Err(
                    crate::checks::fail7(
                        "machine '",
                        machine_name,
                        "' references host '",
                        machine.host.as_str(),
                        "' which references unknown control plane '",
                        control_plane.as_str(),
                        "'",
                    ),
                );
            }
        },
        _ => {},
    }
    let kernel = match config.artifact(machine.kernel.as_str()) {
        Some(kernel) => kernel,
        None => {
            return Err(
                crate::checks::fail5(
                    "machine '",
                    machine_name,
                    "' references unknown kernel artifact '",
                    machine.kernel.as_str(),
                    "'",
                ),
            );
        },
    };
    let guest_image = match config.artifact(machine.guest_image.as_str()) {
        Some(guest_image) => guest_image,
        None => {
            return Err(
                crate::checks::fail5(
                    "machine '",
                    machine_name,
                    "' references unknown guest image artifact '",
                    machine.guest_image.as_str(),
                    "'",
                ),
            );
        },
    };
    let architecture = match resolve_machine_architecture(machine.architecture, native) {
        Ok(architecture) => architecture,
        Err(e) => {
            return Err(crate::checks::fail4("machine '", machine_name, "': ", e));
        },
    };
    let issues = machine_issue_list(host, machine, architecture, kernel, guest_image);
    let r = crate::validate::validate_artifact_spec(
        machine_name,
        "kernel",
        machine.kernel.as_str(),
        kernel,
    );
    if r.is_err() {
        return r;
    }
    let r = crate::validate::validate_artifact_spec(
        machine_name,
        "guest image",
        machine.guest_image.as_str(),
        guest_image,
    );
    if r.is_err() {
        return r;
    }
    let r = validate_machine_rootfs_overlay(machine_name, machine, architecture);
    if r.is_err() {
        return r;
    }
    let r = validate_machine_runtime_class(machine_name, machine);
    if r.is_err() {
        return r;
    }
    let r = validate_machine_volumes(machine_name, machine);
    if r.is_err() {
        return r;
    }
    let r = validate_machine_volume_lane(machine_name, machine.host.as_str(), host, machine);
    if r.is_err() {
        return r;
    }
    if issues.len() > 0 {
        let joined = join_strings(&issues, " ");
        return Err(crate::checks::fail4("machine '", machine_name, "': ", joined.as_str()));
    }
    Ok(())
}

} // verus!
