//! The allow-list: which peers may pull at all.

use crate::addr::{ip_net_of_text, parse_ip_net, IpAddress, IpNetwork};
use vstd::prelude::*;

verus! {

/// One entry of the allow-list as it was configured.
///
/// `text` is the entry itself and is read here as a network. `exact` is the
/// single address that the entry spells, for the caller to fill in with the
/// platform's own address parser: `None` where it spells none.
#[derive(Debug)]
pub struct AllowRule {
    pub text: String,
    pub exact: Option<IpAddress>,
}

/// An entry admits a peer that lies in the network it spells, or that is the
/// address it spells.
pub open spec fn rule_matches(rule: AllowRule, peer: IpAddress) -> bool {
    ||| (ip_net_of_text(rule.text@) matches Some(net) && net.spec_contains(peer))
    ||| rule.exact == Some(peer)
}

/// An entry that spells neither a network nor an address.
pub open spec fn rule_is_malformed(rule: AllowRule) -> bool {
    ip_net_of_text(rule.text@) is None && rule.exact is None
}

/// An empty list admits everyone; any other list admits the peers that one
/// of its entries admits.
pub open spec fn spec_is_addr_allowed(peer: IpAddress, rules: Seq<AllowRule>) -> bool {
    rules.len() == 0 || exists|i: int|
        0 <= i < rules.len() && rule_matches(#[trigger] rules[i], peer)
}

/// Whether a peer may pull, by the allow-list.
pub fn is_addr_allowed(addr: &IpAddress, allowed_ip: &[AllowRule]) -> (res: bool)
    ensures
        res == spec_is_addr_allowed(*addr, allowed_ip@),
{
    if allowed_ip.len() == 0 {
        return true;
    }
    let mut i: usize = 0;
    while i < allowed_ip.len()
        invariant
            i <= allowed_ip@.len(),
            forall|j: int| 0 <= j < i ==> !rule_matches(#[trigger] allowed_ip@[j], *addr),
        decreases allowed_ip@.len() - i,
    {
        let rule = &allowed_ip[i];
        if let Some(net) = parse_ip_net(rule.text.as_str()) {
            if net.contains(addr) {
                return true;
            }
        }
        if let Some(exact) = rule.exact {
            if exact == *addr {
                return true;
            }
        }
        i += 1;
    }
    false
}

/// With no rules configured, every peer is admitted.
pub proof fn lemma_empty_list_allows_all(peer: IpAddress)
    ensures
        spec_is_addr_allowed(peer, Seq::<AllowRule>::empty()),
{
}

/// A peer is admitted as soon as one entry admits it, wherever in the list
/// that entry stands and whatever the other entries hold.
pub proof fn lemma_matching_rule_allows(peer: IpAddress, rules: Seq<AllowRule>, i: int)
    requires
        0 <= i < rules.len(),
        rule_matches(rules[i], peer),
    ensures
        spec_is_addr_allowed(peer, rules),
{
}

/// A peer inside the prefix of a network on the list is admitted.
pub proof fn lemma_peer_in_prefix_allowed(
    peer: IpAddress,
    rules: Seq<AllowRule>,
    i: int,
    net: IpNetwork,
)
    requires
        0 <= i < rules.len(),
        ip_net_of_text(rules[i].text@) == Some(net),
        net.wf(),
        net.spec_shares_prefix(peer),
    ensures
        spec_is_addr_allowed(peer, rules),
{
    crate::addr::lemma_contains_is_prefix_match(net, peer);
    assert(rule_matches(rules[i], peer));
}

/// A peer whose address is spelled by an entry of the list is admitted.
pub proof fn lemma_exact_peer_allowed(peer: IpAddress, rules: Seq<AllowRule>, i: int)
    requires
        0 <= i < rules.len(),
        rules[i].exact == Some(peer),
    ensures
        spec_is_addr_allowed(peer, rules),
{
    assert(rule_matches(rules[i], peer));
}

/// A list with entries denies a peer that none of them admits.
pub proof fn lemma_unmatched_peer_denied(peer: IpAddress, rules: Seq<AllowRule>)
    requires
        rules.len() > 0,
        forall|i: int| 0 <= i < rules.len() ==> !rule_matches(#[trigger] rules[i], peer),
    ensures
        !spec_is_addr_allowed(peer, rules),
{
}

/// A malformed entry admits nobody.
pub proof fn lemma_malformed_rule_matches_nobody(rule: AllowRule, peer: IpAddress)
    requires
        rule_is_malformed(rule),
    ensures
        !rule_matches(rule, peer),
{
}

/// Putting a malformed entry anywhere into a list that has entries changes
/// the verdict for no peer.
pub proof fn lemma_malformed_rule_is_ignored(
    peer: IpAddress,
    rules: Seq<AllowRule>,
    at: int,
    bad: AllowRule,
)
    requires
        rules.len() > 0,
        0 <= at <= rules.len(),
        rule_is_malformed(bad),
    ensures
        spec_is_addr_allowed(peer, rules.insert(at, bad)) == spec_is_addr_allowed(peer, rules),
{
    let longer = rules.insert(at, bad);
    if spec_is_addr_allowed(peer, rules) {
        let i = choose|i: int| 0 <= i < rules.len() && rule_matches(#[trigger] rules[i], peer);
        let k = if i < at { i } else { i + 1 };
        assert(longer[k] == rules[i]);
        assert(rule_matches(longer[k], peer));
    }
    if spec_is_addr_allowed(peer, longer) {
        let k = choose|k: int| 0 <= k < longer.len() && rule_matches(#[trigger] longer[k], peer);
        assert(k != at);
        let i = if k < at { k } else { k - 1 };
        assert(rules[i] == longer[k]);
        assert(rule_matches(rules[i], peer));
    }
}

/// Entries match by what they spell, not by how they spell it: two entries
/// that spell the same network and the same address admit the same peers.
pub proof fn lemma_rules_match_by_what_they_spell(a: AllowRule, b: AllowRule, peer: IpAddress)
    requires
        ip_net_of_text(a.text@) == ip_net_of_text(b.text@),
        a.exact == b.exact,
    ensures
        rule_matches(a, peer) == rule_matches(b, peer),
{
}

} // verus!
