//! The hosted control plane's durable state: where each state file lives
//! under the control plane's runtime root, and how the registered nodes,
//! machine placements and imported inventory it holds are checked against
//! the configuration.
use vstd::prelude::*;

use crate::contracts::{inventory_spec, names_match, lemma_lookup_names_match};
use crate::model::{PortConfig, HostedNodeRegistration, HostedImportedNodeRecord, HostedRegisteredNodeContract, HostedNodeCapabilities, HostProvider, MachineArchitecture, ArtifactSelector};
use crate::named_map::{NameMap, lookup, has_name, name_lt, lemma_insert_sorted_greatest, sorted_names};
use crate::registration::registered_spec;
use crate::summary::summary_spec;
use crate::text::{is_blank, str_is_blank, path_join, path_join_string, str_eq, starts_with, str_starts_with};
use crate::pvm::{caps_populated, caps_subset};
use crate::views::{HostedRegisteredNodeContractView, HostedInventoryContractView, entry_views};

verus! {

// ---------------------------------------------------------------------------
// State file locations

/// The runtime root that the hosted control plane keeps its state under.
pub open spec fn runtime_root_spec(control_plane: Seq<char>) -> Seq<char> {
    path_join(".port/hosted"@, control_plane)
}

pub fn hosted_placeholder_runtime_root(control_plane: &str) -> (r: String)
    ensures
        r@ == runtime_root_spec(control_plane@),
{
    path_join_string(".port/hosted", control_plane)
}

pub fn registered_node_state_path(control_plane: &str) -> (r: String)
    ensures
        r@ == path_join(runtime_root_spec(control_plane@), "registered-nodes.json"@),
{
    let root = hosted_placeholder_runtime_root(control_plane);
    path_join_string(root.as_str(), "registered-nodes.json")
}

pub fn imported_inventory_state_path(control_plane: &str) -> (r: String)
    ensures
        r@ == path_join(runtime_root_spec(control_plane@), "imported-inventory.json"@),
{
    let root = hosted_placeholder_runtime_root(control_plane);
    path_join_string(root.as_str(), "imported-inventory.json")
}

pub fn machine_placement_state_path(control_plane: &str) -> (r: String)
    ensures
        r@ == path_join(runtime_root_spec(control_plane@), "machine-placements.json"@),
{
    let root = hosted_placeholder_runtime_root(control_plane);
    path_join_string(root.as_str(), "machine-placements.json")
}

// ---------------------------------------------------------------------------
// State file contents

/// The registrations a control plane has recorded, by node name.
pub struct RegisteredNodeStateFile {
    pub control_plane: String,
    pub nodes: NameMap<HostedNodeRegistration>,
}

/// The node records a control plane has imported, by node name.
pub struct ImportedInventoryStateFile {
    pub control_plane: String,
    pub nodes: NameMap<HostedImportedNodeRecord>,
}

/// Where a hosted machine was placed.
#[derive(Debug, PartialEq, Eq)]
pub struct HostedMachinePlacementRecord {
    pub node_name: String,
    pub runtime_root: String,
    pub placed_at_unix_s: u64,
    pub placement_detail: Option<String>,
}

/// The placements a control plane has recorded, by machine name.
pub struct MachinePlacementStateFile {
    pub control_plane: String,
    pub machines: NameMap<HostedMachinePlacementRecord>,
}

/// How the control plane reaches a node agent.
#[derive(Debug, PartialEq, Eq)]
pub struct HostedNodeBinding {
    pub node_name: String,
    pub endpoint: String,
    pub token: String,
}

/// A registered node: how to reach it, and its contract.
pub struct RegisteredNodeRecord {
    pub binding: HostedNodeBinding,
    pub contract: HostedRegisteredNodeContract,
}

/// An imported node record that the configured inventory admits.
pub struct ImportedNodeRecord {
    pub node_name: String,
    pub provider: HostProvider,
    pub provenance: String,
    pub imported_at: u64,
    pub capability_summary: HostedNodeCapabilities,
}

// ---------------------------------------------------------------------------
// Registered nodes

/// The contracts of the first nodes of a registration file, or the first failure.
pub open spec fn registered_entries(
    inventory: HostedInventoryContractView,
    control_plane: Seq<char>,
    nodes: Seq<(Seq<char>, HostedNodeRegistration)>,
) -> Result<Seq<(Seq<char>, HostedRegisteredNodeContractView)>, Seq<char>>
    decreases nodes.len(),
{
    if nodes.len() == 0 {
        Ok(Seq::empty())
    } else {
        match registered_entries(inventory, control_plane, nodes.drop_last()) {
            Err(e) => Err(e),
            Ok(done) => match registered_spec(
                inventory,
                control_plane,
                nodes.last().0,
                nodes.last().1,
            ) {
                Err(e) => Err(
                    "registered node state for control plane '"@ + control_plane + "' is invalid: "@
                        + e,
                ),
                Ok(contract) => Ok(done.push((nodes.last().0, contract))),
            },
        }
    }
}

/// Once a prefix of a registration file fails, the whole file fails the same way.
pub proof fn lemma_registered_entries_prefix_failure(
    inventory: HostedInventoryContractView,
    control_plane: Seq<char>,
    nodes: Seq<(Seq<char>, HostedNodeRegistration)>,
    k: int,
)
    requires
        0 <= k <= nodes.len(),
        registered_entries(inventory, control_plane, nodes.take(k)) is Err,
    ensures
        registered_entries(inventory, control_plane, nodes) == registered_entries(
            inventory,
            control_plane,
            nodes.take(k),
        ),
    decreases nodes.len() - k,
{
    if k < nodes.len() {
        assert(nodes.take(k + 1).drop_last() =~= nodes.take(k));
        lemma_registered_entries_prefix_failure(inventory, control_plane, nodes, k + 1);
    } else {
        assert(nodes.take(k) =~= nodes);
    }
}

/// The contracts of every node in a registration file, or why it is invalid.
pub open spec fn registered_state_spec(cfg: PortConfig, control_plane: Seq<char>, nodes: Seq<(Seq<char>, HostedNodeRegistration)>) -> Result<
    Seq<(Seq<char>, HostedRegisteredNodeContractView)>,
    Seq<char>,
> {
    if is_blank(control_plane) {
        Err("registered node state must declare a non-empty control plane"@)
    } else if !has_name(cfg.control_planes@, control_plane) {
        Err("registered node state references unknown control plane '"@ + control_plane + "'"@)
    } else {
        match inventory_spec(cfg) {
            Err(e) => Err("registered node state could not load hosted inventory: "@ + e),
            Ok(inventory) => registered_entries(inventory, control_plane, nodes),
        }
    }
}

pub fn validate_registered_node_state(config: &PortConfig, state: &RegisteredNodeStateFile) -> (r:
    Result<NameMap<HostedRegisteredNodeContract>, String>)
    ensures
        match r {
            Ok(m) => registered_state_spec(*config, state.control_plane@, state.nodes@) == Ok::<
                Seq<(Seq<char>, HostedRegisteredNodeContractView)>,
                Seq<char>,
            >(entry_views(m@)),
            Err(e) => registered_state_spec(*config, state.control_plane@, state.nodes@) == Err::<
                Seq<(Seq<char>, HostedRegisteredNodeContractView)>,
                Seq<char>,
            >(e@),
        },
{
    if str_is_blank(state.control_plane.as_str()) {
        return Err(String::from_str("registered node state must declare a non-empty control plane"));
    }
    if !config.control_planes.contains_key(state.control_plane.as_str()) {
        return Err(
            crate::checks::cat3(
                "registered node state references unknown control plane '",
                state.control_plane.as_str(),
                "'",
            ),
        );
    }
    let inventory = match config.hosted_inventory_contract() {
        Ok(inventory) => inventory,
        Err(e) => {
            let mut m = String::from_str("registered node state could not load hosted inventory: ");
            m.append(e.message());
            return Err(m);
        },
    };
    let ghost inv = inventory@;
    let ghost cp = state.control_plane@;
    let ghost nodes = state.nodes@;
    let n = state.nodes.len();
    let mut contracts: NameMap<HostedRegisteredNodeContract> = NameMap::new();
    let mut i: usize = 0;
    proof {
        assert(nodes.take(0) =~= Seq::<(Seq<char>, HostedNodeRegistration)>::empty());
        assert(entry_views(contracts@) =~= Seq::<(Seq<char>, HostedRegisteredNodeContractView)>::empty());
    }
    while i < n
        invariant
            n == nodes.len(),
            nodes == state.nodes@,
            sorted_names(nodes),
            inv == inventory@,
            cp == state.control_plane@,
            inventory_spec(*config) == Ok::<HostedInventoryContractView, Seq<char>>(inv),
            !is_blank(cp),
            has_name(config.control_planes@, cp),
            i <= n,
            registered_entries(inv, cp, nodes.take(i as int)) == Ok::<
                Seq<(Seq<char>, HostedRegisteredNodeContractView)>,
                Seq<char>,
            >(entry_views(contracts@)),
            forall|j: int| 0 <= j < contracts@.len() ==> (#[trigger] contracts@[j]).0 == nodes[j].0,
            contracts@.len() == i,
        decreases n - i,
    {
        let name = state.nodes.name_at(i);
        let registration = state.nodes.value_at(i);
        proof {
            assert(nodes.take(i + 1).drop_last() =~= nodes.take(i as int));
            assert(nodes.take(i + 1).last() == nodes[i as int]);
        }
        let contract = match inventory.hosted_registered_node_contract(
            state.control_plane.as_str(),
            name.as_str(),
            registration,
        ) {
            Ok(contract) => contract,
            Err(e) => {
                let mut m = crate::checks::cat3(
                    "registered node state for control plane '",
                    state.control_plane.as_str(),
                    "' is invalid: ",
                );
                m.append(e.message());
                proof {
                    lemma_registered_entries_prefix_failure(inv, cp, nodes, i + 1);
                }
                return Err(m);
            },
        };
        proof {
            assert forall|j: int| 0 <= j < contracts@.len() implies name_lt(
                #[trigger] contracts@[j].0,
                name@,
            ) by {
                assert(contracts@[j].0 == nodes[j].0);
            }
            lemma_insert_sorted_greatest(contracts@, name@, contract);
        }
        let ghost before = contracts@;
        let ghost contract_view = contract@;
        contracts.insert(name.clone(), contract);
        assert(entry_views(contracts@) =~= entry_views(before).push((name@, contract_view)));
        i = i + 1;
    }
    assert(nodes.take(n as int) =~= nodes);
    Ok(contracts)
}

/// What a registered node record holds: the binding from the registration
/// and the node's contract.
pub open spec fn record_matches(
    record: RegisteredNodeRecord,
    name: Seq<char>,
    registration: HostedNodeRegistration,
    contract: HostedRegisteredNodeContractView,
) -> bool {
    &&& record.binding.node_name@ == name
    &&& record.binding.endpoint@ == registration.endpoint@
    &&& record.binding.token@ == registration.token@
    &&& record.contract@ == contract
}

/// The entries of a valid registration file name the same nodes, in order.
pub proof fn lemma_registered_entries_names(
    inventory: HostedInventoryContractView,
    control_plane: Seq<char>,
    nodes: Seq<(Seq<char>, HostedNodeRegistration)>,
)
    ensures
        registered_entries(inventory, control_plane, nodes) matches Ok(entries) ==> names_match(
            entries,
            nodes,
        ),
    decreases nodes.len(),
{
    if nodes.len() > 0 {
        lemma_registered_entries_names(inventory, control_plane, nodes.drop_last());
    }
}

pub fn registered_node_records(config: &PortConfig, state: &RegisteredNodeStateFile) -> (r: Result<
    NameMap<RegisteredNodeRecord>,
    String,
>)
    ensures
        match r {
            Ok(m) => registered_state_spec(*config, state.control_plane@, state.nodes@) matches Ok(
                contracts,
            ) && m@.len() == contracts.len() && forall|i: int|
                0 <= i < m@.len() ==> (#[trigger] m@[i]).0 == contracts[i].0 && record_matches(
                    m@[i].1,
                    contracts[i].0,
                    state.nodes@[i].1,
                    contracts[i].1,
                ),
            Err(e) => registered_state_spec(*config, state.control_plane@, state.nodes@) == Err::<
                Seq<(Seq<char>, HostedRegisteredNodeContractView)>,
                Seq<char>,
            >(e@),
        },
{
    let contracts = match validate_registered_node_state(config, state) {
        Ok(contracts) => contracts,
        Err(e) => {
            return Err(e);
        },
    };
    let ghost expected = entry_views(contracts@);
    proof {
        if !is_blank(state.control_plane@) && has_name(config.control_planes@, state.control_plane@) {
            lemma_registered_entries_names(
                inventory_spec(*config)->Ok_0,
                state.control_plane@,
                state.nodes@,
            );
        }
    }
    let n = contracts.len();
    let _ = state.nodes.len();
    let mut records: NameMap<RegisteredNodeRecord> = NameMap::new();
    let mut i: usize = 0;
    while i < n
        invariant
            n == contracts@.len(),
            expected == entry_views(contracts@),
            sorted_names(contracts@),
            sorted_names(state.nodes@),
            names_match(expected, state.nodes@),
            i <= n,
            records@.len() == i,
            forall|j: int|
                0 <= j < i ==> (#[trigger] records@[j]).0 == expected[j].0 && record_matches(
                    records@[j].1,
                    expected[j].0,
                    state.nodes@[j].1,
                    expected[j].1,
                ),
        decreases n - i,
    {
        let name = contracts.name_at(i);
        assert(expected[i as int].0 == name@);
        assert(state.nodes@[i as int].0 == name@);
        proof {
            crate::named_map::lemma_find_sorted(state.nodes@, name@, i as int);
        }
        let registration = match state.nodes.get(name.as_str()) {
            Some(registration) => registration,
            None => {
                return Err(
                    crate::checks::cat3(
                        "registered node '",
                        name.as_str(),
                        "' is missing persisted state",
                    ),
                );
            },
        };
        let record = RegisteredNodeRecord {
            binding: HostedNodeBinding {
                node_name: name.clone(),
                endpoint: registration.endpoint.clone(),
                token: registration.token.clone(),
            },
            contract: contracts.value_at(i).clone(),
        };
        proof {
            assert forall|j: int| 0 <= j < records@.len() implies name_lt(
                #[trigger] records@[j].0,
                name@,
            ) by {
                assert(records@[j].0 == expected[j].0);
                assert(expected[j].0 == contracts@[j].0);
            }
            lemma_insert_sorted_greatest(records@, name@, record);
        }
        records.insert(name.clone(), record);
        i = i + 1;
    }
    Ok(records)
}

impl Clone for HostedMachinePlacementRecord {
    fn clone(&self) -> (r: Self)
        ensures
            r == *self,
    {
        HostedMachinePlacementRecord {
            node_name: self.node_name.clone(),
            runtime_root: self.runtime_root.clone(),
            placed_at_unix_s: self.placed_at_unix_s,
            placement_detail: self.placement_detail.clone(),
        }
    }
}

// ---------------------------------------------------------------------------
// Machine placements

/// The check on one recorded placement: the machine is a hosted machine of
/// this control plane, and its node is still in the inventory under this
/// control plane with the recorded runtime root.
pub open spec fn placement_check(
    cfg: PortConfig,
    native: MachineArchitecture,
    inventory: HostedInventoryContractView,
    control_plane: Seq<char>,
    machine_name: Seq<char>,
    placement: HostedMachinePlacementRecord,
) -> Result<(), Seq<char>> {
    let p = "machine placement state for '"@ + machine_name;
    match summary_spec(cfg, native, machine_name) {
        Err(e) => Err(
            "machine placement state could not resolve hosted machine '"@ + machine_name + "': "@ + e,
        ),
        Ok(None) => Err(
            "machine placement state references unknown hosted machine '"@ + machine_name + "'"@,
        ),
        Ok(Some(summary)) => if summary.control_plane != control_plane {
            Err(
                p + "' belongs to control plane '"@ + summary.control_plane + "', not '"@
                    + control_plane + "'"@,
            )
        } else {
            match lookup(inventory.nodes, placement.node_name@) {
                None => Err(p + "' references unknown node '"@ + placement.node_name@ + "'"@),
                Some(node) => if node.control_plane != control_plane {
                    Err(
                        p + "' references node '"@ + placement.node_name@ + "' on control plane '"@
                            + node.control_plane + "', not '"@ + control_plane + "'"@,
                    )
                } else if node.runtime_root != placement.runtime_root@ {
                    Err(
                        p + "' records runtime root '"@ + placement.runtime_root@ + "' for node '"@
                            + placement.node_name@ + "', but inventory now declares '"@
                            + node.runtime_root + "'"@,
                    )
                } else {
                    Ok(())
                },
            }
        },
    }
}

/// The placements of a state file, all kept when every one checks, or the first failure.
pub open spec fn placement_state_spec(
    cfg: PortConfig,
    native: MachineArchitecture,
    control_plane: Seq<char>,
    machines: Seq<(Seq<char>, HostedMachinePlacementRecord)>,
) -> Result<(), Seq<char>> {
    if is_blank(control_plane) {
        Err("machine placement state must declare a non-empty control plane"@)
    } else if !has_name(cfg.control_planes@, control_plane) {
        Err("machine placement state references unknown control plane '"@ + control_plane + "'"@)
    } else {
        match inventory_spec(cfg) {
            Err(e) => Err("machine placement state could not load hosted inventory: "@ + e),
            Ok(inventory) => crate::checks::first_failure(
                machines.len() as int,
                |i: int|
                    placement_check(
                        cfg,
                        native,
                        inventory,
                        control_plane,
                        machines[i].0,
                        machines[i].1,
                    ),
            ),
        }
    }
}

fn check_placement(
    config: &PortConfig,
    native: MachineArchitecture,
    inventory: &crate::model::HostedInventoryContract,
    control_plane: &str,
    machine_name: &str,
    placement: &HostedMachinePlacementRecord,
) -> (r: Result<(), String>)
    ensures
        match r {
            Ok(_) => placement_check(
                *config,
                native,
                inventory@,
                control_plane@,
                machine_name@,
                *placement,
            ) is Ok,
            Err(e) => placement_check(
                *config,
                native,
                inventory@,
                control_plane@,
                machine_name@,
                *placement,
            ) == Err::<(), Seq<char>>(e@),
        },
{
    let summary = match config.hosted_machine_summary_contract(machine_name, native) {
        Ok(Some(summary)) => summary,
        Ok(None) => {
            return Err(
                crate::checks::cat3(
                    "machine placement state references unknown hosted machine '",
                    machine_name,
                    "'",
                ),
            );
        },
        Err(e) => {
            let mut m = crate::checks::cat3(
                "machine placement state could not resolve hosted machine '",
                machine_name,
                "': ",
            );
            m.append(e.message());
            return Err(m);
        },
    };
    let mut p = String::from_str("machine placement state for '");
    p.append(machine_name);
    if !str_eq(summary.control_plane.as_str(), control_plane) {
        let mut m = crate::checks::cat5(
            p.as_str(),
            "' belongs to control plane '",
            summary.control_plane.as_str(),
            "', not '",
            control_plane,
        );
        m.append("'");
        return Err(m);
    }
    proof {
        assert(names_match(entry_views(inventory.nodes@), inventory.nodes@));
        lemma_lookup_names_match(entry_views(inventory.nodes@), inventory.nodes@, placement.node_name@);
        crate::named_map::lemma_find_from_found(inventory.nodes@, placement.node_name@, 0);
    }
    let node = match inventory.nodes.get(placement.node_name.as_str()) {
        Some(node) => node,
        None => {
            let mut m = crate::checks::cat3(
                p.as_str(),
                "' references unknown node '",
                placement.node_name.as_str(),
            );
            m.append("'");
            return Err(m);
        },
    };
    if !str_eq(node.control_plane.as_str(), control_plane) {
        let mut m = crate::checks::cat5(
            p.as_str(),
            "' references node '",
            placement.node_name.as_str(),
            "' on control plane '",
            node.control_plane.as_str(),
        );
        m.append("', not '");
        m.append(control_plane);
        m.append("'");
        return Err(m);
    }
    if !str_eq(node.runtime_root.as_str(), placement.runtime_root.as_str()) {
        let mut m = crate::checks::cat5(
            p.as_str(),
            "' records runtime root '",
            placement.runtime_root.as_str(),
            "' for node '",
            placement.node_name.as_str(),
        );
        m.append("', but inventory now declares '");
        m.append(node.runtime_root.as_str());
        m.append("'");
        return Err(m);
    }
    Ok(())
}

pub fn validate_machine_placement_state(
    config: &PortConfig,
    native: MachineArchitecture,
    state: &MachinePlacementStateFile,
) -> (r: Result<NameMap<HostedMachinePlacementRecord>, String>)
    ensures
        match r {
            Ok(m) => placement_state_spec(*config, native, state.control_plane@, state.machines@)
                is Ok && m@ == state.machines@,
            Err(e) => placement_state_spec(*config, native, state.control_plane@, state.machines@)
                == Err::<(), Seq<char>>(e@),
        },
{
    if str_is_blank(state.control_plane.as_str()) {
        return Err(String::from_str("machine placement state must declare a non-empty control plane"));
    }
    if !config.control_planes.contains_key(state.control_plane.as_str()) {
        return Err(
            crate::checks::cat3(
                "machine placement state references unknown control plane '",
                state.control_plane.as_str(),
                "'",
            ),
        );
    }
    let inventory = match config.hosted_inventory_contract() {
        Ok(inventory) => inventory,
        Err(e) => {
            let mut m = String::from_str("machine placement state could not load hosted inventory: ");
            m.append(e.message());
            return Err(m);
        },
    };
    let ghost inv = inventory@;
    let ghost cp = state.control_plane@;
    let ghost machines = state.machines@;
    let ghost check = |i: int| placement_check(*config, native, inv, cp, machines[i].0, machines[i].1);
    let n = state.machines.len();
    let mut placements: NameMap<HostedMachinePlacementRecord> = NameMap::new();
    let mut i: usize = 0;
    while i < n
        invariant
            n == machines.len(),
            machines == state.machines@,
            sorted_names(machines),
            inv == inventory@,
            cp == state.control_plane@,
            inventory_spec(*config) == Ok::<HostedInventoryContractView, Seq<char>>(inv),
            !is_blank(cp),
            has_name(config.control_planes@, cp),
            check == (|i: int| placement_check(*config, native, inv, cp, machines[i].0, machines[i].1)),
            i <= n,
            crate::checks::first_failure(i as int, check) is Ok,
            placements@ == machines.take(i as int),
        decreases n - i,
    {
        let name = state.machines.name_at(i);
        let placement = state.machines.value_at(i);
        match check_placement(
            config,
            native,
            &inventory,
            state.control_plane.as_str(),
            name.as_str(),
            placement,
        ) {
            Ok(_) => {},
            Err(e) => {
                proof {
                    crate::checks::lemma_first_failure_stable(i + 1, n as int, check);
                }
                return Err(e);
            },
        }
        proof {
            assert forall|j: int| 0 <= j < placements@.len() implies name_lt(
                #[trigger] placements@[j].0,
                name@,
            ) by {
                assert(placements@[j] == machines[j]);
            }
            lemma_insert_sorted_greatest(placements@, name@, *placement);
        }
        placements.insert(name.clone(), placement.clone());
        assert(placements@ =~= machines.take(i + 1));
        i = i + 1;
    }
    assert(machines.take(n as int) =~= machines);
    Ok(placements)
}

// ---------------------------------------------------------------------------
// Imported inventory

/// The check on one imported node record: the node is configured under this
/// control plane, its provider is one the configuration permits, and its
/// capability summary is populated and within the configured capabilities.
pub open spec fn import_check(
    inventory: HostedInventoryContractView,
    path: Seq<char>,
    control_plane: Seq<char>,
    node_name: Seq<char>,
    imported: HostedImportedNodeRecord,
) -> Result<(), Seq<char>> {
    let p = "imported inventory state at '"@ + path;
    match lookup(inventory.nodes, node_name) {
        None => Err(
            p + "' for control plane '"@ + control_plane + "' references unknown configured node '"@
                + node_name + "'"@,
        ),
        Some(configured) => if configured.control_plane != control_plane {
            Err(
                p + "' for node '"@ + node_name + "' belongs to control plane '"@
                    + configured.control_plane + "', not '"@ + control_plane + "'"@,
            )
        } else if !configured.capabilities.providers.contains(imported.provider) {
            Err(
                p + "' for node '"@ + node_name + "' conflicts on provider: imported '"@
                    + imported.provider.label_text()
                    + "' is not permitted by configured capabilities"@,
            )
        } else if !caps_populated(imported.capability_summary@) {
            Err(p + "' for node '"@ + node_name + "' must declare a populated capability summary"@)
        } else if !caps_subset(imported.capability_summary@, configured.capabilities) {
            Err(
                p + "' for node '"@ + node_name
                    + "' conflicts on capability_summary with the configured inventory contract"@,
            )
        } else {
            Ok(())
        },
    }
}

/// Every imported record checks, or the first failure.
pub open spec fn imported_state_spec(
    cfg: PortConfig,
    path: Seq<char>,
    control_plane: Seq<char>,
    nodes: Seq<(Seq<char>, HostedImportedNodeRecord)>,
) -> Result<(), Seq<char>> {
    let p = "imported inventory state at '"@ + path;
    if is_blank(control_plane) {
        Err(p + "' must declare a non-empty control plane"@)
    } else if !has_name(cfg.control_planes@, control_plane) {
        Err(p + "' references unknown control plane '"@ + control_plane + "'"@)
    } else {
        match inventory_spec(cfg) {
            Err(e) => Err(p + "' could not load hosted inventory: "@ + e),
            Ok(inventory) => crate::checks::first_failure(
                nodes.len() as int,
                |i: int| import_check(inventory, path, control_plane, nodes[i].0, nodes[i].1),
            ),
        }
    }
}

/// What a kept imported record holds: the imported fields, under its node's name.
pub open spec fn imported_record_matches(
    record: ImportedNodeRecord,
    node_name: Seq<char>,
    imported: HostedImportedNodeRecord,
) -> bool {
    &&& record.node_name@ == node_name
    &&& record.provider == imported.provider
    &&& record.provenance@ == imported.provenance@
    &&& record.imported_at == imported.imported_at
    &&& record.capability_summary@ == imported.capability_summary@
}

fn check_import(
    inventory: &crate::model::HostedInventoryContract,
    path: &str,
    control_plane: &str,
    node_name: &str,
    imported: &HostedImportedNodeRecord,
) -> (r: Result<(), String>)
    ensures
        match r {
            Ok(_) => import_check(inventory@, path@, control_plane@, node_name@, *imported) is Ok,
            Err(e) => import_check(inventory@, path@, control_plane@, node_name@, *imported)
                == Err::<(), Seq<char>>(e@),
        },
{
    let mut p = String::from_str("imported inventory state at '");
    p.append(path);
    proof {
        assert(names_match(entry_views(inventory.nodes@), inventory.nodes@));
        lemma_lookup_names_match(entry_views(inventory.nodes@), inventory.nodes@, node_name@);
        crate::named_map::lemma_find_from_found(inventory.nodes@, node_name@, 0);
    }
    let configured = match inventory.nodes.get(node_name) {
        Some(configured) => configured,
        None => {
            let mut m = crate::checks::cat5(
                p.as_str(),
                "' for control plane '",
                control_plane,
                "' references unknown configured node '",
                node_name,
            );
            m.append("'");
            return Err(m);
        },
    };
    if !str_eq(configured.control_plane.as_str(), control_plane) {
        let mut m = crate::checks::cat5(
            p.as_str(),
            "' for node '",
            node_name,
            "' belongs to control plane '",
            configured.control_plane.as_str(),
        );
        m.append("', not '");
        m.append(control_plane);
        m.append("'");
        return Err(m);
    }
    if !imported.provider.is_in(&configured.capabilities.providers) {
        let mut m = crate::checks::cat5(
            p.as_str(),
            "' for node '",
            node_name,
            "' conflicts on provider: imported '",
            imported.provider.label(),
        );
        m.append("' is not permitted by configured capabilities");
        return Err(m);
    }
    if !imported.capability_summary.is_populated() {
        let mut m = crate::checks::cat3(p.as_str(), "' for node '", node_name);
        m.append("' must declare a populated capability summary");
        return Err(m);
    }
    if !imported.capability_summary.is_subset_of(&configured.capabilities) {
        let mut m = crate::checks::cat3(p.as_str(), "' for node '", node_name);
        m.append("' conflicts on capability_summary with the configured inventory contract");
        return Err(m);
    }
    Ok(())
}

pub fn imported_inventory_records(
    config: &PortConfig,
    path: &str,
    state: &ImportedInventoryStateFile,
) -> (r: Result<NameMap<ImportedNodeRecord>, String>)
    ensures
        match r {
            Ok(m) => imported_state_spec(*config, path@, state.control_plane@, state.nodes@) is Ok
                && m@.len() == state.nodes@.len() && forall|i: int|
                0 <= i < m@.len() ==> (#[trigger] m@[i]).0 == state.nodes@[i].0
                    && imported_record_matches(m@[i].1, state.nodes@[i].0, state.nodes@[i].1),
            Err(e) => imported_state_spec(*config, path@, state.control_plane@, state.nodes@)
                == Err::<(), Seq<char>>(e@),
        },
{
    if str_is_blank(state.control_plane.as_str()) {
        return Err(
            crate::checks::cat3(
                "imported inventory state at '",
                path,
                "' must declare a non-empty control plane",
            ),
        );
    }
    if !config.control_planes.contains_key(state.control_plane.as_str()) {
        let mut m = crate::checks::cat5(
            "imported inventory state at '",
            path,
            "' references unknown control plane '",
            state.control_plane.as_str(),
            "'",
        );
        return Err(m);
    }
    let inventory = match config.hosted_inventory_contract() {
        Ok(inventory) => inventory,
        Err(e) => {
            let mut m = crate::checks::cat3(
                "imported inventory state at '",
                path,
                "' could not load hosted inventory: ",
            );
            m.append(e.message());
            return Err(m);
        },
    };
    let ghost inv = inventory@;
    let ghost cp = state.control_plane@;
    let ghost nodes = state.nodes@;
    let ghost check = |i: int| import_check(inv, path@, cp, nodes[i].0, nodes[i].1);
    let n = state.nodes.len();
    let mut records: NameMap<ImportedNodeRecord> = NameMap::new();
    let mut i: usize = 0;
    while i < n
        invariant
            n == nodes.len(),
            nodes == state.nodes@,
            sorted_names(nodes),
            inv == inventory@,
            cp == state.control_plane@,
            inventory_spec(*config) == Ok::<HostedInventoryContractView, Seq<char>>(inv),
            !is_blank(cp),
            has_name(config.control_planes@, cp),
            check == (|i: int| import_check(inv, path@, cp, nodes[i].0, nodes[i].1)),
            i <= n,
            crate::checks::first_failure(i as int, check) is Ok,
            records@.len() == i,
            forall|j: int|
                0 <= j < i ==> (#[trigger] records@[j]).0 == nodes[j].0 && imported_record_matches(
                    records@[j].1,
                    nodes[j].0,
                    nodes[j].1,
                ),
        decreases n - i,
    {
        let name = state.nodes.name_at(i);
        let imported = state.nodes.value_at(i);
        match check_import(&inventory, path, state.control_plane.as_str(), name.as_str(), imported) {
            Ok(_) => {},
            Err(e) => {
                proof {
                    crate::checks::lemma_first_failure_stable(i + 1, n as int, check);
                }
                return Err(e);
            },
        }
        let record = ImportedNodeRecord {
            node_name: name.clone(),
            provider: imported.provider,
            provenance: imported.provenance.clone(),
            imported_at: imported.imported_at,
            capability_summary: imported.capability_summary.clone(),
        };
        proof {
            assert forall|j: int| 0 <= j < records@.len() implies name_lt(
                #[trigger] records@[j].0,
                name@,
            ) by {
                assert(records@[j].0 == nodes[j].0);
            }
            lemma_insert_sorted_greatest(records@, name@, record);
        }
        records.insert(name.clone(), record);
        i = i + 1;
    }
    Ok(records)
}

// ---------------------------------------------------------------------------
// Artifact selector labels and node agents

/// `architecture/substrate/protection`, each by its label.
pub fn hosted_artifact_selector_label(selector: ArtifactSelector) -> (r: String)
    ensures
        r@ == selector.architecture.label_text() + "/"@ + selector.substrate.label_text() + "/"@
            + selector.protection_mode.label_text(),
{
    let mut r = crate::checks::cat3(
        hosted_artifact_architecture_label(selector.architecture),
        "/",
        hosted_artifact_substrate_label(selector.substrate),
    );
    r.append("/");
    r.append(hosted_artifact_protection_mode_label(selector.protection_mode));
    r
}

pub fn hosted_artifact_architecture_label(architecture: MachineArchitecture) -> (r: &'static str)
    ensures
        r@ == architecture.label_text(),
{
    architecture.label()
}

pub fn hosted_artifact_substrate_label(substrate: crate::model::ExecutionSubstrate) -> (r: &'static str)
    ensures
        r@ == substrate.label_text(),
{
    substrate.label()
}

pub fn hosted_artifact_protection_mode_label(mode: crate::model::ProtectionMode) -> (r: &'static str)
    ensures
        r@ == mode.label_text(),
{
    mode.label()
}

/// The endpoint a node agent is reached at: the bind address as given when
/// it names its scheme, else over plain HTTP.
pub open spec fn node_agent_endpoint_spec(bind: Seq<char>) -> Seq<char> {
    if starts_with(bind, "http://"@) || starts_with(bind, "https://"@) {
        bind
    } else {
        "http://"@ + bind
    }
}

pub fn normalize_node_agent_endpoint(bind: &str) -> (r: String)
    ensures
        r@ == node_agent_endpoint_spec(bind@),
{
    if str_starts_with(bind, "http://") || str_starts_with(bind, "https://") {
        String::from_str(bind)
    } else {
        let mut r = String::from_str("http://");
        r.append(bind);
        r
    }
}

/// What a node agent serves with: the configuration, the node's name and
/// runtime root, and the address and token it is reached with.
pub struct NodeAgentState {
    pub config: PortConfig,
    pub node_name: String,
    pub runtime_root: String,
    pub bind: String,
    pub token: String,
}

/// What a node agent is asked to serve.
pub struct NodeAgentServeRequest {
    pub node_name: String,
    pub bind: String,
    pub token: String,
}

pub fn build_node_agent_state(config: PortConfig, request: NodeAgentServeRequest) -> (r: Result<
    NodeAgentState,
    String,
>)
    ensures
        match r {
            Ok(s) => lookup(config.nodes@, request.node_name@) matches Some(node) && s.runtime_root@
                == node.runtime_root@ && s.config == config && s.node_name == request.node_name
                && s.bind == request.bind && s.token == request.token,
            Err(e) => lookup(config.nodes@, request.node_name@) is None && e@
                == "unknown hosted node '"@ + request.node_name@ + "' for node-agent serve"@,
        },
{
    let runtime_root = match config.nodes.get(request.node_name.as_str()) {
        Some(node) => node.runtime_root.clone(),
        None => {
            return Err(
                crate::checks::cat3(
                    "unknown hosted node '",
                    request.node_name.as_str(),
                    "' for node-agent serve",
                ),
            );
        },
    };
    Ok(
        NodeAgentState {
            config,
            node_name: request.node_name,
            runtime_root,
            bind: request.bind,
            token: request.token,
        },
    )
}

} // verus!
