//! IP addresses as plain octets, and the classification rules that decide
//! whether an address can carry outbound traffic.
use vstd::prelude::*;

verus! {

/// An IPv4 address, most significant octet first.
#[derive(Clone, Copy, Debug, PartialEq, Eq)]
pub struct V4Addr {
    pub octets: [u8; 4],
}

/// An IPv6 address, most significant octet first.
#[derive(Clone, Copy, Debug, PartialEq, Eq)]
pub struct V6Addr {
    pub octets: [u8; 16],
}

/// An address of either family.
#[derive(Clone, Copy, Debug, PartialEq, Eq)]
pub enum IpAddr {
    V4(V4Addr),
    V6(V6Addr),
}

/// `127.0.0.0/8`.
pub open spec fn v4_is_loopback(o: Seq<u8>) -> bool {
    o[0] == 127
}

/// `169.254.0.0/16`.
pub open spec fn v4_is_link_local(o: Seq<u8>) -> bool {
    o[0] == 169 && o[1] == 254
}

/// `0.0.0.0`.
pub open spec fn v4_is_unspecified(o: Seq<u8>) -> bool {
    o[0] == 0 && o[1] == 0 && o[2] == 0 && o[3] == 0
}

/// An IPv4 address that can be an egress source.
pub open spec fn v4_usable(o: Seq<u8>) -> bool {
    !v4_is_loopback(o) && !v4_is_link_local(o) && !v4_is_unspecified(o)
}

/// The first `n` octets are all zero.
pub open spec fn zero_prefix(o: Seq<u8>, n: int) -> bool {
    forall|j: int| 0 <= j < n ==> o[j] == 0
}

/// `::`.
pub open spec fn v6_is_unspecified(o: Seq<u8>) -> bool {
    zero_prefix(o, 16)
}

/// `::1`.
pub open spec fn v6_is_loopback(o: Seq<u8>) -> bool {
    zero_prefix(o, 15) && o[15] == 1
}

/// `ff00::/8`.
pub open spec fn v6_is_multicast(o: Seq<u8>) -> bool {
    o[0] == 0xff
}

/// A multicast address whose scope field is "global" (`ffxe::/16`).
pub open spec fn v6_multicast_scope_global(o: Seq<u8>) -> bool {
    o[1] % 16 == 14
}

/// `fe80::/10`.
pub open spec fn v6_is_unicast_link_local(o: Seq<u8>) -> bool {
    o[0] == 0xfe && o[1] / 64 == 2
}

/// `fc00::/7`.
pub open spec fn v6_is_unique_local(o: Seq<u8>) -> bool {
    o[0] / 2 == 0x7e
}

/// `2001:db8::/32`.
pub open spec fn v6_is_documentation(o: Seq<u8>) -> bool {
    o[0] == 0x20 && o[1] == 0x01 && o[2] == 0x0d && o[3] == 0xb8
}

/// `2001:2::/48`.
pub open spec fn v6_is_benchmarking(o: Seq<u8>) -> bool {
    o[0] == 0x20 && o[1] == 0x01 && o[2] == 0 && o[3] == 0x02 && o[4] == 0 && o[5] == 0
}

/// A unicast address routable on the public internet.
pub open spec fn v6_is_unicast_global(o: Seq<u8>) -> bool {
    &&& !v6_is_multicast(o)
    &&& !v6_is_loopback(o)
    &&& !v6_is_unicast_link_local(o)
    &&& !v6_is_unique_local(o)
    &&& !v6_is_unspecified(o)
    &&& !v6_is_documentation(o)
    &&& !v6_is_benchmarking(o)
}

/// An address of global scope: global-scope multicast, or global unicast.
pub open spec fn v6_is_global(o: Seq<u8>) -> bool {
    if v6_is_multicast(o) {
        v6_multicast_scope_global(o)
    } else {
        v6_is_unicast_global(o)
    }
}

/// An IPv6 address that can be an egress source.
pub open spec fn v6_usable(o: Seq<u8>) -> bool {
    v6_is_global(o) && !v6_is_unspecified(o)
}

fn octets_zero_up_to(o: &[u8; 16], n: usize) -> (r: bool)
    requires
        n <= 16,
    ensures
        r == zero_prefix(o@, n as int),
{
    let mut i: usize = 0;
    while i < n
        invariant
            i <= n <= 16,
            zero_prefix(o@, i as int),
        decreases n - i,
    {
        if o[i] != 0 {
            return false;
        }
        i = i + 1;
    }
    true
}

impl V4Addr {
    pub fn is_loopback(&self) -> (r: bool)
        ensures
            r == v4_is_loopback(self.octets@),
    {
        self.octets[0] == 127
    }

    pub fn is_link_local(&self) -> (r: bool)
        ensures
            r == v4_is_link_local(self.octets@),
    {
        self.octets[0] == 169 && self.octets[1] == 254
    }

    pub fn is_unspecified(&self) -> (r: bool)
        ensures
            r == v4_is_unspecified(self.octets@),
    {
        self.octets[0] == 0 && self.octets[1] == 0 && self.octets[2] == 0 && self.octets[3] == 0
    }

    /// Neither loopback, link-local nor unspecified.
    pub fn is_usable_outbound(&self) -> (r: bool)
        ensures
            r == v4_usable(self.octets@),
    {
        !self.is_loopback() && !self.is_link_local() && !self.is_unspecified()
    }
}

impl V6Addr {
    pub fn is_unspecified(&self) -> (r: bool)
        ensures
            r == v6_is_unspecified(self.octets@),
    {
        octets_zero_up_to(&self.octets, 16)
    }

    pub fn is_loopback(&self) -> (r: bool)
        ensures
            r == v6_is_loopback(self.octets@),
    {
        octets_zero_up_to(&self.octets, 15) && self.octets[15] == 1
    }

    pub fn is_multicast(&self) -> (r: bool)
        ensures
            r == v6_is_multicast(self.octets@),
    {
        self.octets[0] == 0xff
    }

    pub fn is_unicast_link_local(&self) -> (r: bool)
        ensures
            r == v6_is_unicast_link_local(self.octets@),
    {
        self.octets[0] == 0xfe && self.octets[1] / 64 == 2
    }

    pub fn is_unique_local(&self) -> (r: bool)
        ensures
            r == v6_is_unique_local(self.octets@),
    {
        self.octets[0] / 2 == 0x7e
    }

    pub fn is_documentation(&self) -> (r: bool)
        ensures
            r == v6_is_documentation(self.octets@),
    {
        let o = &self.octets;
        o[0] == 0x20 && o[1] == 0x01 && o[2] == 0x0d && o[3] == 0xb8
    }

    pub fn is_benchmarking(&self) -> (r: bool)
        ensures
            r == v6_is_benchmarking(self.octets@),
    {
        let o = &self.octets;
        o[0] == 0x20 && o[1] == 0x01 && o[2] == 0 && o[3] == 0x02 && o[4] == 0 && o[5] == 0
    }

    pub fn is_unicast_global(&self) -> (r: bool)
        ensures
            r == v6_is_unicast_global(self.octets@),
    {
        !self.is_multicast() && !self.is_loopback() && !self.is_unicast_link_local()
            && !self.is_unique_local() && !self.is_unspecified() && !self.is_documentation()
            && !self.is_benchmarking()
    }

    pub fn is_global(&self) -> (r: bool)
        ensures
            r == v6_is_global(self.octets@),
    {
        if self.is_multicast() {
            self.octets[1] % 16 == 14
        } else {
            self.is_unicast_global()
        }
    }

    /// A global-scope address that is not unspecified.
    pub fn is_usable_outbound(&self) -> (r: bool)
        ensures
            r == v6_usable(self.octets@),
    {
        self.is_global() && !self.is_unspecified()
    }
}

} // verus!
