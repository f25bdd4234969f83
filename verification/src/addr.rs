//! IP addresses and networks as integers.

use vstd::prelude::*;

verus! {

/// An IP address, held as the integer that its octets spell, first octet
/// highest.
#[derive(Clone, Copy, Debug, PartialEq, Eq, Structural, Hash)]
pub enum IpAddress {
    V4(u32),
    V6(u128),
}

/// An address together with the number of its leading bits that name the
/// network.
#[derive(Clone, Copy, Debug, PartialEq, Eq, Structural, Hash)]
#[allow(inconsistent_fields)]
pub enum IpNetwork {
    V4 { addr: u32, prefix_len: u8 },
    V6 { addr: u128, prefix_len: u8 },
}

/// The mask that keeps the leading `prefix_len` bits of an IPv4 address.
pub open spec fn v4_netmask(prefix_len: u8) -> u32 {
    if 0 < prefix_len <= 32 {
        u32::MAX << ((32 - prefix_len) as u32)
    } else {
        0
    }
}

/// The mask that keeps the bits of an IPv4 address behind the prefix.
pub open spec fn v4_hostmask(prefix_len: u8) -> u32 {
    if prefix_len < 32 {
        u32::MAX >> (prefix_len as u32)
    } else {
        0
    }
}

/// The mask that keeps the leading `prefix_len` bits of an IPv6 address.
pub open spec fn v6_netmask(prefix_len: u8) -> u128 {
    if 0 < prefix_len <= 128 {
        u128::MAX << ((128 - prefix_len) as u128)
    } else {
        0
    }
}

/// The mask that keeps the bits of an IPv6 address behind the prefix.
pub open spec fn v6_hostmask(prefix_len: u8) -> u128 {
    if prefix_len < 128 {
        u128::MAX >> (prefix_len as u128)
    } else {
        0
    }
}

impl IpNetwork {
    /// The prefix is no longer than the address.
    pub open spec fn wf(self) -> bool {
        match self {
            IpNetwork::V4 { prefix_len, .. } => prefix_len <= 32,
            IpNetwork::V6 { prefix_len, .. } => prefix_len <= 128,
        }
    }

    /// An address lies in a network of its own family when it is neither
    /// below the network's first address nor above its last one. A network
    /// whose prefix is longer than its address holds nothing.
    pub open spec fn spec_contains(self, ip: IpAddress) -> bool {
        match (self, ip) {
            (IpNetwork::V4 { addr, prefix_len }, IpAddress::V4(bits)) => {
                &&& prefix_len <= 32
                &&& (addr & v4_netmask(prefix_len)) <= bits <= (addr | v4_hostmask(prefix_len))
            },
            (IpNetwork::V6 { addr, prefix_len }, IpAddress::V6(bits)) => {
                &&& prefix_len <= 128
                &&& (addr & v6_netmask(prefix_len)) <= bits <= (addr | v6_hostmask(prefix_len))
            },
            _ => false,
        }
    }

    /// An address shares a network's prefix when it is of the network's
    /// family and agrees with the network's address in every bit that the
    /// netmask keeps.
    pub open spec fn spec_shares_prefix(self, ip: IpAddress) -> bool {
        match (self, ip) {
            (IpNetwork::V4 { addr, prefix_len }, IpAddress::V4(bits)) => {
                bits & v4_netmask(prefix_len) == addr & v4_netmask(prefix_len)
            },
            (IpNetwork::V6 { addr, prefix_len }, IpAddress::V6(bits)) => {
                bits & v6_netmask(prefix_len) == addr & v6_netmask(prefix_len)
            },
            _ => false,
        }
    }

    /// Whether `ip` lies in this network.
    pub fn contains(&self, ip: &IpAddress) -> (res: bool)
        ensures
            res == self.spec_contains(*ip),
    {
        match (*self, *ip) {
            (IpNetwork::V4 { addr, prefix_len }, IpAddress::V4(bits)) => {
                if prefix_len > 32 {
                    return false;
                }
                let netmask: u32 = if prefix_len == 0 {
                    0
                } else {
                    u32::MAX << ((32 - prefix_len) as u32)
                };
                let hostmask: u32 = if prefix_len == 32 {
                    0
                } else {
                    u32::MAX >> (prefix_len as u32)
                };
                (addr & netmask) <= bits && bits <= (addr | hostmask)
            },
            (IpNetwork::V6 { addr, prefix_len }, IpAddress::V6(bits)) => {
                if prefix_len > 128 {
                    return false;
                }
                let netmask: u128 = if prefix_len == 0 {
                    0
                } else {
                    u128::MAX << ((128 - prefix_len) as u128)
                };
                let hostmask: u128 = if prefix_len == 128 {
                    0
                } else {
                    u128::MAX >> (prefix_len as u128)
                };
                (addr & netmask) <= bits && bits <= (addr | hostmask)
            },
            _ => false,
        }
    }
}

/// In IPv4, the addresses from a network's first to its last are those that
/// agree with the network's address under the netmask.
proof fn lemma_v4_range_is_prefix(addr: u32, bits: u32, prefix_len: u8)
    requires
        prefix_len <= 32,
    ensures
        (addr & v4_netmask(prefix_len)) <= bits <= (addr | v4_hostmask(prefix_len)) <==> bits
            & v4_netmask(prefix_len) == addr & v4_netmask(prefix_len),
{
    let p: u32 = prefix_len as u32;
    let net: u32 = v4_netmask(prefix_len);
    let host: u32 = v4_hostmask(prefix_len);
    if p == 0 {
        assert(host == 0xffff_ffffu32) by (bit_vector)
            requires
                host == 0xffff_ffffu32 >> 0u32,
        ;
        assert(((addr & 0u32) <= bits && bits <= (addr | 0xffff_ffffu32)) <==> (bits & 0u32) == (
        addr & 0u32)) by (bit_vector);
    } else if p == 32 {
        assert(net == 0xffff_ffffu32) by (bit_vector)
            requires
                net == 0xffff_ffffu32 << 0u32,
        ;
        assert(((addr & 0xffff_ffffu32) <= bits && bits <= (addr | 0u32)) <==> (bits
            & 0xffff_ffffu32) == (addr & 0xffff_ffffu32)) by (bit_vector);
    } else {
        assert(((addr & net) <= bits && bits <= (addr | host)) <==> (bits & net) == (addr & net))
            by (bit_vector)
            requires
                0 < p < 32,
                net == 0xffff_ffffu32 << ((32 - p) as u32),
                host == 0xffff_ffffu32 >> p,
        ;
    }
}

/// In IPv6, the addresses from a network's first to its last are those that
/// agree with the network's address under the netmask.
proof fn lemma_v6_range_is_prefix(addr: u128, bits: u128, prefix_len: u8)
    requires
        prefix_len <= 128,
    ensures
        (addr & v6_netmask(prefix_len)) <= bits <= (addr | v6_hostmask(prefix_len)) <==> bits
            & v6_netmask(prefix_len) == addr & v6_netmask(prefix_len),
{
    let p: u128 = prefix_len as u128;
    let net: u128 = v6_netmask(prefix_len);
    let host: u128 = v6_hostmask(prefix_len);
    let ones: u128 = u128::MAX;
    if p == 0 {
        assert(host == ones) by (bit_vector)
            requires
                host == ones >> 0u128,
        ;
        assert(((addr & 0u128) <= bits && bits <= (addr | ones)) <==> (bits & 0u128) == (addr
            & 0u128)) by (bit_vector)
            requires
                ones == 0xffff_ffff_ffff_ffff_ffff_ffff_ffff_ffffu128,
        ;
    } else if p == 128 {
        assert(net == ones) by (bit_vector)
            requires
                net == ones << 0u128,
        ;
        assert(((addr & ones) <= bits && bits <= (addr | 0u128)) <==> (bits & ones) == (addr
            & ones)) by (bit_vector)
            requires
                ones == 0xffff_ffff_ffff_ffff_ffff_ffff_ffff_ffffu128,
        ;
    } else {
        assert(((addr & net) <= bits && bits <= (addr | host)) <==> (bits & net) == (addr & net))
            by (bit_vector)
            requires
                0 < p < 128,
                ones == 0xffff_ffff_ffff_ffff_ffff_ffff_ffff_ffffu128,
                net == ones << ((128 - p) as u128),
                host == ones >> p,
        ;
    }
}

/// The range between a network's first and last address holds exactly the
/// addresses that share the network's prefix.
pub proof fn lemma_contains_is_prefix_match(net: IpNetwork, ip: IpAddress)
    requires
        net.wf(),
    ensures
        net.spec_contains(ip) <==> net.spec_shares_prefix(ip),
{
    match (net, ip) {
        (IpNetwork::V4 { addr, prefix_len }, IpAddress::V4(bits)) => {
            lemma_v4_range_is_prefix(addr, bits, prefix_len);
        },
        (IpNetwork::V6 { addr, prefix_len }, IpAddress::V6(bits)) => {
            lemma_v6_range_is_prefix(addr, bits, prefix_len);
        },
        _ => {},
    }
}

/// The network that a text spells in the notation of the `ipnet` crate: an
/// address, a slash and a prefix length. `None` where the text spells none.
pub uninterp spec fn ip_net_of_text(text: Seq<char>) -> Option<IpNetwork>;

/// Reads a network with `ipnet::IpNet`'s `FromStr` and hands its address and
/// prefix length out as integers. Trusted: the result is the named parse of
/// the text.
#[verifier::external_body]
pub(crate) fn parse_ip_net(text: &str) -> (res: Option<IpNetwork>)
    ensures
        res == ip_net_of_text(text@),
{
    match text.parse::<ipnet::IpNet>() {
        Ok(ipnet::IpNet::V4(net)) => Some(
            IpNetwork::V4 { addr: u32::from(net.addr()), prefix_len: net.prefix_len() },
        ),
        Ok(ipnet::IpNet::V6(net)) => Some(
            IpNetwork::V6 { addr: u128::from(net.addr()), prefix_len: net.prefix_len() },
        ),
        Err(_) => None,
    }
}

} // verus!
