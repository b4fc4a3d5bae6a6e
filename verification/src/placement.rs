//! Hosted placement: which nodes of a host can run a machine, why the others
//! are rejected, and the sentence that explains the outcome.
use vstd::prelude::*;

use crate::checks::fail4;
use crate::machine_checks::{resolve_architecture, resolve_machine_architecture};
use crate::model::{
    ValidationError, HostedNodeCapabilities, HostedPvmCapability, MachineArchitecture,
    ExecutionSubstrate, ProtectionMode, MachineSpec, HostedNodeContract, PvmCapabilityState,
    HostProvider, FirecrackerSupport, FirecrackerPvmLaneContract,
};
use crate::text::{join, views, join_strings};
use crate::named_map::NameMap;
use crate::views::entry_views;
use crate::views::{HostedPvmCapabilityView, HostedNodeContractView};

verus! {

/// `Native` resolved to the architecture of the host that runs the code.
pub open spec fn resolve_pvm_architecture(
    architecture: MachineArchitecture,
    native: MachineArchitecture,
) -> MachineArchitecture {
    if architecture == MachineArchitecture::Native {
        native
    } else {
        architecture
    }
}

/// The index of the first hosted PVM lane at or after `i` for `architecture`.
pub open spec fn hosted_lane_from(lanes: Seq<HostedPvmCapabilityView>, architecture: MachineArchitecture, i: int) -> Option<int>
    decreases lanes.len() - i,
{
    if i < 0 || i >= lanes.len() {
        None
    } else if lanes[i].architecture == architecture {
        Some(i)
    } else {
        hosted_lane_from(lanes, architecture, i + 1)
    }
}

/// The index of the first Firecracker PVM lane at or after `i` for `architecture`.
pub open spec fn firecracker_lane_from(lanes: Seq<FirecrackerPvmLaneContract>, architecture: MachineArchitecture, i: int) -> Option<int>
    decreases lanes.len() - i,
{
    if i < 0 || i >= lanes.len() {
        None
    } else if lanes[i].architecture == architecture {
        Some(i)
    } else {
        firecracker_lane_from(lanes, architecture, i + 1)
    }
}

impl HostedNodeCapabilities {
    /// The first PVM lane the node advertises for `architecture`, where
    /// `Native` stands for `native`, the architecture of this host.
    pub fn pvm_lane_for(&self, architecture: MachineArchitecture, native: MachineArchitecture) -> (r: Option<
        &HostedPvmCapability,
    >)
        ensures
            match hosted_lane_from(
                self@.pvm_lanes,
                resolve_pvm_architecture(architecture, native),
                0,
            ) {
                Some(i) => r matches Some(lane) && 0 <= i < self.pvm_lanes@.len() && *lane
                    == self.pvm_lanes@[i],
                None => r is None,
            },
    {
        let target = if architecture == MachineArchitecture::Native {
            native
        } else {
            architecture
        };
        let ghost lanes = self@.pvm_lanes;
        let n = self.pvm_lanes.len();
        let mut i: usize = 0;
        while i < n
            invariant
                n == self.pvm_lanes@.len(),
                lanes == self@.pvm_lanes,
                lanes.len() == n,
                i <= n,
                target == resolve_pvm_architecture(architecture, native),
                hosted_lane_from(lanes, target, 0) == hosted_lane_from(lanes, target, i as int),
            decreases n - i,
        {
            assert(lanes[i as int].architecture == self.pvm_lanes@[i as int].architecture);
            if self.pvm_lanes[i].architecture == target {
                return Some(&self.pvm_lanes[i]);
            }
            i = i + 1;
        }
        None
    }
}

impl FirecrackerSupport {
    /// The first Firecracker PVM lane for `architecture`, where `Native`
    /// stands for `native`, the architecture of this host.
    pub fn pvm_lane_for(&self, architecture: MachineArchitecture, native: MachineArchitecture) -> (r: Option<
        &FirecrackerPvmLaneContract,
    >)
        ensures
            match firecracker_lane_from(
                self.pvm_lanes@,
                resolve_pvm_architecture(architecture, native),
                0,
            ) {
                Some(i) => r == Some(&self.pvm_lanes@[i]),
                None => r is None,
            },
    {
        let target = if architecture == MachineArchitecture::Native {
            native
        } else {
            architecture
        };
        let n = self.pvm_lanes.len();
        let mut i: usize = 0;
        while i < n
            invariant
                n == self.pvm_lanes@.len(),
                i <= n,
                target == resolve_pvm_architecture(architecture, native),
                firecracker_lane_from(self.pvm_lanes@, target, 0) == firecracker_lane_from(
                    self.pvm_lanes@,
                    target,
                    i as int,
                ),
            decreases n - i,
        {
            if self.pvm_lanes[i].architecture == target {
                return Some(&self.pvm_lanes[i]);
            }
            i = i + 1;
        }
        None
    }
}

// ---------------------------------------------------------------------------
// Label lists

pub open spec fn substrate_labels(v: Seq<ExecutionSubstrate>) -> Seq<Seq<char>> {
    v.map_values(|s: ExecutionSubstrate| s.label_text())
}

pub open spec fn architecture_labels(v: Seq<MachineArchitecture>) -> Seq<Seq<char>> {
    v.map_values(|a: MachineArchitecture| a.label_text())
}

pub open spec fn protection_labels(v: Seq<ProtectionMode>) -> Seq<Seq<char>> {
    v.map_values(|p: ProtectionMode| p.label_text())
}

/// The substrates' labels joined with `, `.
pub fn substrate_list(v: &Vec<ExecutionSubstrate>) -> (r: String)
    ensures
        r@ == join(substrate_labels(v@), ", "@),
{
    let mut r = String::new();
    let n = v.len();
    let mut i: usize = 0;
    while i < n
        invariant
            n == v@.len(),
            i <= n,
            r@ == join(substrate_labels(v@).take(i as int), ", "@),
        decreases n - i,
    {
        proof {
            let pv = substrate_labels(v@);
            assert(pv.take(i + 1).drop_last() =~= pv.take(i as int));
            if i == 0 {
                assert(pv.take(1) =~= seq![pv[0]]);
            }
        }
        if i > 0 {
            r.append(", ");
        }
        r.append(v[i].label());
        i = i + 1;
    }
    assert(substrate_labels(v@).take(n as int) =~= substrate_labels(v@));
    r
}

/// The architectures' labels joined with `, `.
pub fn architecture_list(v: &Vec<MachineArchitecture>) -> (r: String)
    ensures
        r@ == join(architecture_labels(v@), ", "@),
{
    let mut r = String::new();
    let n = v.len();
    let mut i: usize = 0;
    while i < n
        invariant
            n == v@.len(),
            i <= n,
            r@ == join(architecture_labels(v@).take(i as int), ", "@),
        decreases n - i,
    {
        proof {
            let pv = architecture_labels(v@);
            assert(pv.take(i + 1).drop_last() =~= pv.take(i as int));
            if i == 0 {
                assert(pv.take(1) =~= seq![pv[0]]);
            }
        }
        if i > 0 {
            r.append(", ");
        }
        r.append(v[i].label());
        i = i + 1;
    }
    assert(architecture_labels(v@).take(n as int) =~= architecture_labels(v@));
    r
}

/// The protection modes' labels joined with `, `.
pub fn protection_list(v: &Vec<ProtectionMode>) -> (r: String)
    ensures
        r@ == join(protection_labels(v@), ", "@),
{
    let mut r = String::new();
    let n = v.len();
    let mut i: usize = 0;
    while i < n
        invariant
            n == v@.len(),
            i <= n,
            r@ == join(protection_labels(v@).take(i as int), ", "@),
        decreases n - i,
    {
        proof {
            let pv = protection_labels(v@);
            assert(pv.take(i + 1).drop_last() =~= pv.take(i as int));
            if i == 0 {
                assert(pv.take(1) =~= seq![pv[0]]);
            }
        }
        if i > 0 {
            r.append(", ");
        }
        r.append(v[i].label());
        i = i + 1;
    }
    assert(protection_labels(v@).take(n as int) =~= protection_labels(v@));
    r
}

// ---------------------------------------------------------------------------
// Rejection reasons

/// `machine '<name>' cannot resolve hosted placement architecture: <why>`.
pub open spec fn placement_architecture_error(machine_name: Seq<char>, why: Seq<char>) -> Seq<char> {
    "machine '"@ + machine_name + "' cannot resolve hosted placement architecture: "@ + why
}

/// Why a hosted node cannot run the machine, or `None` when it can.
pub open spec fn rejection_reason(
    native: MachineArchitecture,
    machine_name: Seq<char>,
    node_name: Seq<char>,
    machine: MachineSpec,
    node: HostedNodeContractView,
) -> Result<Option<Seq<char>>, Seq<char>> {
    let caps = node.capabilities;
    match resolve_architecture(machine.architecture, native) {
        Err(why) => Err(placement_architecture_error(machine_name, why)),
        Ok(arch) => if !caps.substrates.contains(machine.substrate) {
            Ok(
                Some(
                    "substrate '"@ + machine.substrate.label_text()
                        + "' is required but node advertises "@ + join(
                        substrate_labels(caps.substrates),
                        ", "@,
                    ),
                ),
            )
        } else if !caps.architectures.contains(arch) {
            Ok(
                Some(
                    "architecture '"@ + arch.label_text() + "' is required but node advertises "@
                        + join(architecture_labels(caps.architectures), ", "@),
                ),
            )
        } else if !caps.protection_modes.contains(machine.protection_mode) {
            Ok(
                Some(
                    "protection mode '"@ + machine.protection_mode.label_text()
                        + "' is required but node advertises "@ + join(
                        protection_labels(caps.protection_modes),
                        ", "@,
                    ),
                ),
            )
        } else if machine.protection_mode == ProtectionMode::Pvm {
            match hosted_lane_from(caps.pvm_lanes, arch, 0) {
                None => Ok(
                    Some(
                        "pvm-ready state is required but node does not advertise a '"@
                            + arch.label_text() + "' PVM lane"@,
                    ),
                ),
                Some(i) => {
                    let lane = caps.pvm_lanes[i];
                    if lane.state == PvmCapabilityState::Ready {
                        Ok(None)
                    } else if lane.host_kit is Some {
                        Ok(
                            Some(
                                "pvm-ready state is required but node advertises "@
                                    + lane.state.label_text()
                                    + ". Run `port control-plane prepare-pvm-node --control-plane "@
                                    + node.control_plane + " --node "@ + node_name
                                    + " --architecture "@ + arch.label_text()
                                    + "` before launching `"@ + machine_name
                                    + "`; Port does not silently fall back to the standard lane."@,
                            ),
                        )
                    } else {
                        Ok(
                            Some(
                                "pvm-ready state is required but node advertises "@
                                    + lane.state.label_text()
                                    + " without a provider-backed host-kit contract. `"@
                                    + machine_name
                                    + "` stays outside the hosted PVM lane until Port owns a prepared host contract for node '"@
                                    + node_name
                                    + "'; Port does not silently fall back to the standard lane."@,
                            ),
                        )
                    }
                },
            }
        } else {
            Ok(None)
        },
    }
}

pub fn hosted_node_rejection_reason(
    native: MachineArchitecture,
    machine_name: &str,
    node_name: &str,
    machine: &MachineSpec,
    node: &HostedNodeContract,
) -> (r: Result<Option<String>, ValidationError>)
    ensures
        match r {
            Ok(Some(reason)) => rejection_reason(native, machine_name@, node_name@, *machine, node@)
                == Ok::<Option<Seq<char>>, Seq<char>>(Some(reason@)),
            Ok(None) => rejection_reason(native, machine_name@, node_name@, *machine, node@)
                == Ok::<Option<Seq<char>>, Seq<char>>(None),
            Err(e) => rejection_reason(native, machine_name@, node_name@, *machine, node@)
                == Err::<Option<Seq<char>>, Seq<char>>(e@),
        },
{
    let arch = match resolve_machine_architecture(machine.architecture, native) {
        Ok(arch) => arch,
        Err(why) => {
            return Err(
                fail4(
                    "machine '",
                    machine_name,
                    "' cannot resolve hosted placement architecture: ",
                    why,
                ),
            );
        },
    };
    let caps = &node.capabilities;
    if !machine.substrate.is_in(&caps.substrates) {
        let list = substrate_list(&caps.substrates);
        let mut reason = crate::checks::cat3("substrate '", machine.substrate.label(), "' is required but node advertises ");
        reason.append(list.as_str());
        assert(reason@ =~= "substrate '"@ + machine.substrate.label_text()
            + "' is required but node advertises "@ + list@);
        return Ok(Some(reason));
    }
    if !arch.is_in(&caps.architectures) {
        let list = architecture_list(&caps.architectures);
        let mut reason = crate::checks::cat3("architecture '", arch.label(), "' is required but node advertises ");
        reason.append(list.as_str());
        assert(reason@ =~= "architecture '"@ + arch.label_text()
            + "' is required but node advertises "@ + list@);
        return Ok(Some(reason));
    }
    if !machine.protection_mode.is_in(&caps.protection_modes) {
        let list = protection_list(&caps.protection_modes);
        let mut reason = crate::checks::cat3("protection mode '", machine.protection_mode.label(), "' is required but node advertises ");
        reason.append(list.as_str());
        assert(reason@ =~= "protection mode '"@ + machine.protection_mode.label_text()
            + "' is required but node advertises "@ + list@);
        return Ok(Some(reason));
    }
    if machine.protection_mode == ProtectionMode::Pvm {
        let lane = match caps.pvm_lane_for(arch, arch) {
            Some(lane) => lane,
            None => {
                return Ok(
                    Some(
                        crate::checks::cat3(
                            "pvm-ready state is required but node does not advertise a '",
                            arch.label(),
                            "' PVM lane",
                        ),
                    ),
                );
            },
        };
        if lane.state != PvmCapabilityState::Ready {
            let mut m = String::from_str("pvm-ready state is required but node advertises ");
            m.append(lane.state.label());
            if lane.host_kit.is_some() {
                m.append(". Run `port control-plane prepare-pvm-node --control-plane ");
                m.append(node.control_plane.as_str());
                m.append(" --node ");
                m.append(node_name);
                m.append(" --architecture ");
                m.append(arch.label());
                m.append("` before launching `");
                m.append(machine_name);
                m.append("`; Port does not silently fall back to the standard lane.");
            } else {
                m.append(" without a provider-backed host-kit contract. `");
                m.append(machine_name);
                m.append(
                    "` stays outside the hosted PVM lane until Port owns a prepared host contract for node '",
                );
                m.append(node_name);
                m.append("'; Port does not silently fall back to the standard lane.");
            }
            let ghost expected = rejection_reason(native, machine_name@, node_name@, *machine, node@);
            assert(expected == Ok::<Option<Seq<char>>, Seq<char>>(Some(m@)));
            return Ok(Some(m));
        }
    }
    Ok(None)
}

// ---------------------------------------------------------------------------
// Requirement and placement detail

/// `<protection> on <architecture> via <substrate> for host '<host>' provider '<provider>'`.
pub open spec fn requirement_spec(
    native: MachineArchitecture,
    machine_name: Seq<char>,
    machine: MachineSpec,
    host_name: Seq<char>,
    provider: HostProvider,
) -> Result<Seq<char>, Seq<char>> {
    match resolve_architecture(machine.architecture, native) {
        Err(why) => Err(placement_architecture_error(machine_name, why)),
        Ok(arch) => Ok(
            machine.protection_mode.requirement_label_text() + " on "@ + arch.label_text()
                + " via "@ + machine.substrate.label_text() + " for host '"@ + host_name
                + "' provider '"@ + provider.label_text() + "'"@,
        ),
    }
}

pub fn hosted_machine_requirement(
    native: MachineArchitecture,
    machine_name: &str,
    machine: &MachineSpec,
    host_name: &str,
    provider: HostProvider,
) -> (r: Result<String, ValidationError>)
    ensures
        match r {
            Ok(s) => requirement_spec(native, machine_name@, *machine, host_name@, provider) == Ok::<
                Seq<char>,
                Seq<char>,
            >(s@),
            Err(e) => requirement_spec(native, machine_name@, *machine, host_name@, provider)
                == Err::<Seq<char>, Seq<char>>(e@),
        },
{
    let arch = match resolve_machine_architecture(machine.architecture, native) {
        Ok(arch) => arch,
        Err(why) => {
            return Err(
                fail4(
                    "machine '",
                    machine_name,
                    "' cannot resolve hosted placement architecture: ",
                    why,
                ),
            );
        },
    };
    let mut m = String::from_str(machine.protection_mode.requirement_label());
    m.append(" on ");
    m.append(arch.label());
    m.append(" via ");
    m.append(machine.substrate.label());
    m.append(" for host '");
    m.append(host_name);
    m.append("' provider '");
    m.append(provider.label());
    m.append("'");
    let ghost expected = requirement_spec(native, machine_name@, *machine, host_name@, provider);
    assert(expected == Ok::<Seq<char>, Seq<char>>(m@));
    Ok(m)
}

/// `<name> (<reason>)` for each rejected node.
pub open spec fn rejected_texts(rejected: Seq<(Seq<char>, Seq<char>)>) -> Seq<Seq<char>> {
    rejected.map_values(|e: (Seq<char>, Seq<char>)| e.0 + " ("@ + e.1 + ")"@)
}

/// The sentence that explains where a hosted machine can be placed.
pub open spec fn placement_detail_spec(
    native: MachineArchitecture,
    machine_name: Seq<char>,
    machine: MachineSpec,
    host_name: Seq<char>,
    provider: HostProvider,
    candidates: Seq<Seq<char>>,
    rejected: Seq<(Seq<char>, Seq<char>)>,
) -> Result<Seq<char>, Seq<char>> {
    match requirement_spec(native, machine_name, machine, host_name, provider) {
        Err(e) => Err(e),
        Ok(requirement) => Ok(
            "machine '"@ + machine_name + "' requires "@ + requirement + if candidates.len() == 0 {
                "; no hosted nodes satisfy that requirement"@
            } else {
                "; candidate nodes: "@ + join(candidates, ", "@)
            } + if rejected.len() == 0 {
                Seq::<char>::empty()
            } else {
                "; rejected nodes: "@ + join(rejected_texts(rejected), ", "@)
            },
        ),
    }
}

pub fn hosted_placement_detail(
    native: MachineArchitecture,
    machine_name: &str,
    machine: &MachineSpec,
    host_name: &str,
    provider: HostProvider,
    candidates: &Vec<String>,
    rejected: &NameMap<String>,
) -> (r: Result<String, ValidationError>)
    ensures
        match r {
            Ok(s) => placement_detail_spec(
                native,
                machine_name@,
                *machine,
                host_name@,
                provider,
                views(candidates@),
                entry_views(rejected@),
            ) == Ok::<Seq<char>, Seq<char>>(s@),
            Err(e) => placement_detail_spec(
                native,
                machine_name@,
                *machine,
                host_name@,
                provider,
                views(candidates@),
                entry_views(rejected@),
            ) == Err::<Seq<char>, Seq<char>>(e@),
        },
{
    let requirement = match hosted_machine_requirement(
        native,
        machine_name,
        machine,
        host_name,
        provider,
    ) {
        Ok(requirement) => requirement,
        Err(e) => {
            return Err(e);
        },
    };
    let mut detail = crate::checks::cat3("machine '", machine_name, "' requires ");
    detail.append(requirement.as_str());
    let ghost head = detail@;
    if candidates.len() == 0 {
        detail.append("; no hosted nodes satisfy that requirement");
    } else {
        let joined = join_strings(candidates, ", ");
        detail.append("; candidate nodes: ");
        detail.append(joined.as_str());
    }
    let ghost middle = detail@;
    let n = rejected.len();
    if n > 0 {
        let mut parts: Vec<String> = Vec::new();
        let mut i: usize = 0;
        while i < n
            invariant
                n == rejected@.len(),
                i <= n,
                views(parts@) == rejected_texts(entry_views(rejected@)).take(i as int),
            decreases n - i,
        {
            let part = crate::checks::cat3(rejected.name_at(i).as_str(), " (", rejected.value_at(i).as_str());
            let mut part = part;
            part.append(")");
            assert(entry_views(rejected@)[i as int] == (rejected@[i as int].0, rejected@[i as int].1@));
            assert(part@ == rejected_texts(entry_views(rejected@))[i as int]);
            let ghost before = parts@;
            let ghost part_view = part@;
            parts.push(part);
            proof {
                let texts = rejected_texts(entry_views(rejected@));
                assert(views(parts@) =~= views(before).push(part_view));
                assert(texts.take(i + 1) =~= texts.take(i as int).push(texts[i as int]));
            }
            i = i + 1;
        }
        assert(rejected_texts(entry_views(rejected@)).take(n as int) =~= rejected_texts(
            entry_views(rejected@),
        ));
        let joined = join_strings(&parts, ", ");
        detail.append("; rejected nodes: ");
        detail.append(joined.as_str());
    }
    let ghost expected = placement_detail_spec(
        native,
        machine_name@,
        *machine,
        host_name@,
        provider,
        views(candidates@),
        entry_views(rejected@),
    );
    proof {
        if n > 0 {
            assert(detail@ =~= middle + ("; rejected nodes: "@ + join(
                rejected_texts(entry_views(rejected@)),
                ", "@,
            )));
        } else {
            assert(detail@ =~= middle + Seq::<char>::empty());
        }
        if candidates@.len() == 0 {
            assert(middle =~= head + "; no hosted nodes satisfy that requirement"@);
        } else {
            assert(middle =~= head + ("; candidate nodes: "@ + join(views(candidates@), ", "@)));
        }
        assert(detail@ =~= expected->Ok_0);
    }
    Ok(detail)
}

} // verus!
