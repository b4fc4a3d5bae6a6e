//! Registered hosted nodes: the freshness window of a registration and the
//! contract of a node that registered with its control plane.
use vstd::prelude::*;

use crate::checks::{fail5, fail7};
use crate::contracts::{names_match, lemma_lookup_names_match};
use crate::model::{ValidationError, HostedNodeRegistration, HostedNodeFreshnessContract, HostedInventoryContract, HostedRegisteredNodeContract};
use crate::named_map::lookup;
use crate::summary::entry_names;
use crate::text::{is_blank, str_is_blank, decimal, decimal_string, trim, trimmed, views, str_eq};
use crate::views::{HostedHostGroupContractView, HostedRegisteredNodeContractView, entry_views};

verus! {

/// `registered node '<node>' for control plane '<cp>`, how every freshness
/// failure begins; the closing quote opens each failure's own text.
pub open spec fn registration_prefix(control_plane: Seq<char>, node_name: Seq<char>) -> Seq<char> {
    "registered node '"@ + node_name + "' for control plane '"@ + control_plane
}

/// The freshness window of a registration: it lasts `ttl_seconds` from the
/// last refresh, which comes no earlier than the registration.
pub open spec fn freshness_spec(
    registration: HostedNodeRegistration,
    control_plane: Seq<char>,
    node_name: Seq<char>,
) -> Result<HostedNodeFreshnessContract, Seq<char>> {
    let p = registration_prefix(control_plane, node_name);
    if is_blank(registration.endpoint@) {
        Err(p + "' must declare a non-empty endpoint"@)
    } else if is_blank(registration.token@) {
        Err(p + "' must declare a non-empty token"@)
    } else if registration.ttl_seconds == 0 {
        Err(p + "' must declare a ttl_seconds greater than zero"@)
    } else if registration.refreshed_at < registration.registered_at {
        Err(
            p + "' cannot refresh before its initial registration ("@ + decimal(
                registration.refreshed_at as nat,
            ) + " < "@ + decimal(registration.registered_at as nat) + ")"@,
        )
    } else if registration.refreshed_at + registration.ttl_seconds > u64::MAX {
        Err(p + "' overflowed its freshness window"@)
    } else {
        Ok(
            HostedNodeFreshnessContract {
                registered_at: registration.registered_at,
                refreshed_at: registration.refreshed_at,
                ttl_seconds: registration.ttl_seconds,
                fresh_until: (registration.refreshed_at + registration.ttl_seconds) as u64,
            },
        )
    }
}

impl HostedNodeRegistration {
    /// The freshness window of this registration of `node_name` with `control_plane`.
    pub fn freshness(&self, control_plane: &str, node_name: &str) -> (r: Result<
        HostedNodeFreshnessContract,
        ValidationError,
    >)
        ensures
            crate::checks::with_message(r) == freshness_spec(*self, control_plane@, node_name@),
    {
        if str_is_blank(self.endpoint.as_str()) {
            return Err(
                fail5(
                    "registered node '",
                    node_name,
                    "' for control plane '",
                    control_plane,
                    "' must declare a non-empty endpoint",
                ),
            );
        }
        if str_is_blank(self.token.as_str()) {
            return Err(
                fail5(
                    "registered node '",
                    node_name,
                    "' for control plane '",
                    control_plane,
                    "' must declare a non-empty token",
                ),
            );
        }
        if self.ttl_seconds == 0 {
            return Err(
                fail5(
                    "registered node '",
                    node_name,
                    "' for control plane '",
                    control_plane,
                    "' must declare a ttl_seconds greater than zero",
                ),
            );
        }
        if self.refreshed_at < self.registered_at {
            let refreshed = decimal_string(self.refreshed_at);
            let registered = decimal_string(self.registered_at);
            let mut m = crate::checks::cat5(
                "registered node '",
                node_name,
                "' for control plane '",
                control_plane,
                "' cannot refresh before its initial registration (",
            );
            m.append(refreshed.as_str());
            m.append(" < ");
            m.append(registered.as_str());
            m.append(")");
            let ghost expected = freshness_spec(*self, control_plane@, node_name@);
            assert(expected == Err::<HostedNodeFreshnessContract, Seq<char>>(m@));
            return Err(ValidationError::new(m));
        }
        let fresh_until = match self.refreshed_at.checked_add(self.ttl_seconds) {
            Some(fresh_until) => fresh_until,
            None => {
                return Err(
                    fail5(
                        "registered node '",
                        node_name,
                        "' for control plane '",
                        control_plane,
                        "' overflowed its freshness window",
                    ),
                );
            },
        };
        Ok(
            HostedNodeFreshnessContract {
                registered_at: self.registered_at,
                refreshed_at: self.refreshed_at,
                ttl_seconds: self.ttl_seconds,
                fresh_until,
            },
        )
    }
}

/// The host groups that hold `node_name`, in order.
pub open spec fn groups_with_member(
    groups: Seq<(Seq<char>, HostedHostGroupContractView)>,
    node_name: Seq<char>,
) -> Seq<(Seq<char>, HostedHostGroupContractView)>
    decreases groups.len(),
{
    if groups.len() == 0 {
        Seq::empty()
    } else {
        let rest = groups_with_member(groups.drop_last(), node_name);
        if groups.last().1.nodes.contains(node_name) {
            rest.push(groups.last())
        } else {
            rest
        }
    }
}

/// The contract of a node that registered with `control_plane`: it must be
/// in the inventory under that control plane, and its registration fresh.
pub open spec fn registered_spec(
    inventory: crate::views::HostedInventoryContractView,
    control_plane: Seq<char>,
    node_name: Seq<char>,
    registration: HostedNodeRegistration,
) -> Result<HostedRegisteredNodeContractView, Seq<char>> {
    match lookup(inventory.nodes, node_name) {
        None => Err(
            "registered node '"@ + node_name + "' does not exist in hosted inventory for control plane '"@
                + control_plane + "'"@,
        ),
        Some(node) => if node.control_plane != control_plane {
            Err(
                "registered node '"@ + node_name + "' belongs to control plane '"@
                    + node.control_plane + "', not '"@ + control_plane + "'"@,
            )
        } else {
            match freshness_spec(registration, control_plane, node_name) {
                Err(e) => Err(e),
                Ok(freshness) => Ok(
                    HostedRegisteredNodeContractView {
                        node_name,
                        endpoint: trim(registration.endpoint@),
                        freshness,
                        node,
                        host_groups: entry_names(
                            groups_with_member(inventory.host_groups, node_name),
                        ),
                    },
                ),
            }
        },
    }
}

/// Whether some member is `name`.
pub fn has_member(members: &Vec<String>, name: &str) -> (r: bool)
    ensures
        r == views(members@).contains(name@),
{
    let n = members.len();
    let mut j: usize = 0;
    while j < n
        invariant
            n == members@.len(),
            j <= n,
            forall|a: int| 0 <= a < j ==> members@[a]@ != name@,
        decreases n - j,
    {
        if str_eq(members[j].as_str(), name) {
            assert(views(members@)[j as int] == name@);
            return true;
        }
        j = j + 1;
    }
    proof {
        if views(members@).contains(name@) {
            let b = choose|b: int| 0 <= b < views(members@).len() && views(members@)[b] == name@;
            assert(members@[b]@ == name@);
        }
    }
    false
}

impl HostedInventoryContract {
    /// The contract of `node_name`, registered with `control_plane` by `registration`.
    pub fn hosted_registered_node_contract(
        &self,
        control_plane: &str,
        node_name: &str,
        registration: &HostedNodeRegistration,
    ) -> (r: Result<HostedRegisteredNodeContract, ValidationError>)
        ensures
            crate::checks::viewed(r) == registered_spec(
                self@,
                control_plane@,
                node_name@,
                *registration,
            ),
    {
        proof {
            assert(names_match(entry_views(self.nodes@), self.nodes@));
            lemma_lookup_names_match(entry_views(self.nodes@), self.nodes@, node_name@);
        }
        let node = match self.nodes.get(node_name) {
            Some(node) => node,
            None => {
                return Err(
                    fail5(
                        "registered node '",
                        node_name,
                        "' does not exist in hosted inventory for control plane '",
                        control_plane,
                        "'",
                    ),
                );
            },
        };
        proof {
            crate::named_map::lemma_find_from_found(self.nodes@, node_name@, 0);
        }
        if !str_eq(node.control_plane.as_str(), control_plane) {
            return Err(
                fail7(
                    "registered node '",
                    node_name,
                    "' belongs to control plane '",
                    node.control_plane.as_str(),
                    "', not '",
                    control_plane,
                    "'",
                ),
            );
        }
        let freshness = match registration.freshness(control_plane, node_name) {
            Ok(freshness) => freshness,
            Err(e) => {
                return Err(e);
            },
        };
        let ghost gv = self@.host_groups;
        let m = self.host_groups.len();
        let mut host_groups: Vec<String> = Vec::new();
        let mut g: usize = 0;
        proof {
            assert(gv.take(0) =~= Seq::<(Seq<char>, HostedHostGroupContractView)>::empty());
            assert(views(host_groups@) =~= Seq::<Seq<char>>::empty());
        }
        while g < m
            invariant
                m == self.host_groups@.len(),
                gv == self@.host_groups,
                gv == entry_views(self.host_groups@),
                gv.len() == m,
                g <= m,
                views(host_groups@) == entry_names(groups_with_member(gv.take(g as int), node_name@)),
            decreases m - g,
        {
            let name = self.host_groups.name_at(g);
            let group = self.host_groups.value_at(g);
            proof {
                assert(gv.take(g + 1).drop_last() =~= gv.take(g as int));
                assert(gv.take(g + 1).last() == gv[g as int]);
                assert(gv[g as int] == (name@, group@));
            }
            if has_member(&group.nodes, node_name) {
                let ghost before = host_groups@;
                host_groups.push(name.clone());
                assert(views(host_groups@) =~= views(before).push(name@));
            }
            g = g + 1;
        }
        proof {
            assert(gv.take(m as int) =~= gv);
        }
        let r = HostedRegisteredNodeContract {
            node_name: String::from_str(node_name),
            endpoint: trimmed(registration.endpoint.as_str()),
            freshness,
            node: node.clone(),
            host_groups,
        };
        proof {
            let expected = registered_spec(self@, control_plane@, node_name@, *registration);
            assert(expected matches Ok(v) && v =~= r@);
        }
        Ok(r)
    }
}

} // verus!
