//! Discovery results, the per-interface address scan, and the ranking that
//! picks the default outbound interface.
use vstd::prelude::*;
use crate::addr::{
    IpAddr, V4Addr, V6Addr, v4_is_link_local, v4_is_loopback, v4_usable, v6_is_unicast_global,
    v6_usable,
};
use crate::text::{contains_str, has_substring};

verus! {

/// A live interface as the operating system lists it.
#[derive(Clone, Debug)]
pub struct NetIface {
    pub name: String,
    pub addrs: Vec<IpAddr>,
    pub index: u32,
}

/// An interface that survived filtering, with the one usable address of each
/// family that the scan recorded.
#[derive(Clone, Debug)]
pub struct OutboundInterface {
    pub name: String,
    pub addr_v4: Option<V4Addr>,
    pub addr_v6: Option<V6Addr>,
    pub index: u32,
}

/// The address scan from the state `(v4, v6)` over `s`: each usable address
/// fills the slot of its family, and the scan stops once both slots are full.
pub open spec fn scan_addrs(s: Seq<IpAddr>, v4: Option<V4Addr>, v6: Option<V6Addr>) -> (
    Option<V4Addr>,
    Option<V6Addr>,
)
    decreases s.len(),
{
    if s.len() == 0 || (v4.is_some() && v6.is_some()) {
        (v4, v6)
    } else {
        match s[0] {
            IpAddr::V4(a) => scan_addrs(
                s.drop_first(),
                if v4_usable(a.octets@) {
                    Some(a)
                } else {
                    v4
                },
                v6,
            ),
            IpAddr::V6(a) => scan_addrs(
                s.drop_first(),
                v4,
                if v6_usable(a.octets@) {
                    Some(a)
                } else {
                    v6
                },
            ),
        }
    }
}

/// The usable addresses that an interface with addresses `s` offers.
pub open spec fn outbound_addrs(s: Seq<IpAddr>) -> (Option<V4Addr>, Option<V6Addr>) {
    scan_addrs(s, None, None)
}

/// The name of the proxy's own capture interface.
pub open spec fn tun_pattern() -> Seq<char> {
    seq!['t', 'u', 'n']
}

/// The administrative priority list, earliest preferred: Ethernet, `en`,
/// wireless, cellular.
pub open spec fn priority_pattern(k: int) -> Seq<char> {
    if k == 0 {
        seq!['e', 't', 'h']
    } else if k == 1 {
        seq!['e', 'n']
    } else if k == 2 {
        seq!['w', 'l', 'a', 'n']
    } else {
        seq!['p', 'd', 'p', '_', 'i', 'p']
    }
}

/// Position of the first priority entry that the name contains, or 4 when
/// it contains none.
pub open spec fn name_priority(name: Seq<char>) -> nat {
    if has_substring(name, priority_pattern(0)) {
        0
    } else if has_substring(name, priority_pattern(1)) {
        1
    } else if has_substring(name, priority_pattern(2)) {
        2
    } else if has_substring(name, priority_pattern(3)) {
        3
    } else {
        4
    }
}

/// Address tier: 0 for a global unicast IPv6 address, 1 for another IPv6
/// address, 2 for no IPv6 address.
pub open spec fn v6_tier(v6: Option<V6Addr>) -> nat {
    match v6 {
        Some(a) => if v6_is_unicast_global(a.octets@) {
            0
        } else {
            1
        },
        None => 2,
    }
}

/// The ranking key, lower preferred: the address tier first, then the name
/// priority.
pub open spec fn rank(v6: Option<V6Addr>, name: Seq<char>) -> nat {
    5 * v6_tier(v6) + name_priority(name)
}

/// An interface that selection may return: not a capture interface, and with
/// at least one usable address.
pub open spec fn is_candidate(i: NetIface) -> bool {
    &&& !has_substring(i.name@, tun_pattern())
    &&& (outbound_addrs(i.addrs@).0.is_some() || outbound_addrs(i.addrs@).1.is_some())
}

pub open spec fn iface_rank(i: NetIface) -> nat {
    rank(outbound_addrs(i.addrs@).1, i.name@)
}

/// `ifaces[k]` is the earliest candidate of least rank.
pub open spec fn is_selected(ifaces: Seq<NetIface>, k: int) -> bool {
    &&& 0 <= k < ifaces.len()
    &&& is_candidate(ifaces[k])
    &&& forall|j: int|
        0 <= j < ifaces.len() && is_candidate(#[trigger] ifaces[j]) ==> iface_rank(ifaces[k])
            <= iface_rank(ifaces[j])
    &&& forall|j: int|
        0 <= j < k && is_candidate(#[trigger] ifaces[j]) ==> iface_rank(ifaces[k]) < iface_rank(
            ifaces[j],
        )
}

/// `o` is what the scan makes of `i`.
pub open spec fn describes(o: OutboundInterface, i: NetIface) -> bool {
    &&& o.name@ == i.name@
    &&& o.addr_v4 == outbound_addrs(i.addrs@).0
    &&& o.addr_v6 == outbound_addrs(i.addrs@).1
    &&& o.index == i.index
}

/// Scans the interface's addresses once and records at most one usable
/// address of each family.
pub fn get_outbound_ip_from_interface(iface: &NetIface) -> (r: (Option<V4Addr>, Option<V6Addr>))
    ensures
        r == outbound_addrs(iface.addrs@),
{
    let mut v4: Option<V4Addr> = None;
    let mut v6: Option<V6Addr> = None;
    let ghost s = iface.addrs@;
    let mut i: usize = 0;
    assert(s.subrange(0, s.len() as int) =~= s);
    while i < iface.addrs.len()
        invariant
            s == iface.addrs@,
            i <= s.len(),
            scan_addrs(s.subrange(i as int, s.len() as int), v4, v6) == outbound_addrs(s),
        ensures
            i == s.len() || (v4.is_some() && v6.is_some()),
            scan_addrs(s.subrange(i as int, s.len() as int), v4, v6) == outbound_addrs(s),
        decreases s.len() - i,
    {
        if v4.is_some() && v6.is_some() {
            break;
        }
        let ghost rest = s.subrange(i as int, s.len() as int);
        assert(rest.drop_first() =~= s.subrange(i + 1, s.len() as int));
        match &iface.addrs[i] {
            IpAddr::V4(a) => {
                if a.is_usable_outbound() {
                    v4 = Some(*a);
                }
            },
            IpAddr::V6(a) => {
                if a.is_usable_outbound() {
                    v6 = Some(*a);
                }
            },
        }
        i = i + 1;
    }
    assert(scan_addrs(s.subrange(i as int, s.len() as int), v4, v6) == (v4, v6));
    (v4, v6)
}

/// The name priority of `name` (see `name_priority`).
pub fn interface_priority(name: &str) -> (r: u64)
    ensures
        r == name_priority(name@),
{
    proof {
        reveal_strlit("eth");
        reveal_strlit("en");
        reveal_strlit("wlan");
        reveal_strlit("pdp_ip");
        assert("eth"@ =~= priority_pattern(0));
        assert("en"@ =~= priority_pattern(1));
        assert("wlan"@ =~= priority_pattern(2));
        assert("pdp_ip"@ =~= priority_pattern(3));
    }
    if contains_str(name, "eth") {
        0
    } else if contains_str(name, "en") {
        1
    } else if contains_str(name, "wlan") {
        2
    } else if contains_str(name, "pdp_ip") {
        3
    } else {
        4
    }
}

/// The ranking key of an interface with IPv6 slot `v6` and name `name`.
pub fn outbound_rank(v6: &Option<V6Addr>, name: &str) -> (r: u64)
    ensures
        r == rank(*v6, name@),
{
    let tier: u64 = match v6 {
        Some(a) => if a.is_unicast_global() {
            0
        } else {
            1
        },
        None => 2,
    };
    5 * tier + interface_priority(name)
}

/// Filters out capture interfaces and interfaces without a usable address,
/// ranks the rest, and returns the earliest one of least rank.
pub fn get_outbound_interface(ifaces: &Vec<NetIface>) -> (r: Option<OutboundInterface>)
    ensures
        r is None <==> forall|j: int| 0 <= j < ifaces@.len() ==> !is_candidate(#[trigger] ifaces@[j]),
        r matches Some(o) ==> exists|k: int| is_selected(ifaces@, k) && describes(o, ifaces@[k]),
{
    let mut best: Option<OutboundInterface> = None;
    let mut best_rank: u64 = 0;
    let ghost mut best_k: int = 0;
    let mut i: usize = 0;
    while i < ifaces.len()
        invariant
            i <= ifaces@.len(),
            best is None <==> forall|j: int| 0 <= j < i ==> !is_candidate(#[trigger] ifaces@[j]),
            best matches Some(o) ==> {
                &&& is_selected(ifaces@.subrange(0, i as int), best_k)
                &&& describes(o, ifaces@[best_k])
                &&& best_rank == iface_rank(ifaces@[best_k])
            },
        decreases ifaces@.len() - i,
    {
        let iface = &ifaces[i];
        let (addr_v4, addr_v6) = get_outbound_ip_from_interface(iface);
        let name = iface.name.as_str();
        let usable = !contains_str(name, "tun") && (addr_v4.is_some() || addr_v6.is_some());
        let ghost prev = ifaces@.subrange(0, i as int);
        let ghost next = ifaces@.subrange(0, i + 1);
        assert(forall|j: int| 0 <= j < i ==> next[j] == prev[j]);
        assert(next[i as int] == ifaces@[i as int]);
        assert(name@ == iface.name@);
        assert(outbound_addrs(ifaces@[i as int].addrs@) == (addr_v4, addr_v6));
        proof {
            reveal_strlit("tun");
            assert("tun"@ =~= tun_pattern());
        }
        assert(usable == is_candidate(ifaces@[i as int]));
        if usable {
            let r = outbound_rank(&addr_v6, name);
            assert(r == iface_rank(ifaces@[i as int]));
            if best.is_none() || r < best_rank {
                best = Some(
                    OutboundInterface { name: iface.name.clone(), addr_v4, addr_v6, index: iface.index },
                );
                best_rank = r;
                proof {
                    best_k = i as int;
                }
            }
        }
        i = i + 1;
    }
    assert(ifaces@.subrange(0, ifaces@.len() as int) =~= ifaces@);
    best
}

/// Every address of `s` is an IPv4 loopback or link-local address.
pub open spec fn only_local_v4(s: Seq<IpAddr>) -> bool {
    forall|m: int|
        0 <= m < s.len() ==> match #[trigger] s[m] {
            IpAddr::V4(a) => v4_is_loopback(a.octets@) || v4_is_link_local(a.octets@),
            IpAddr::V6(_) => false,
        }
}

proof fn lemma_only_local_v4_scan(s: Seq<IpAddr>)
    requires
        only_local_v4(s),
    ensures
        scan_addrs(s, None, None) == (None::<V4Addr>, None::<V6Addr>),
    decreases s.len(),
{
    if s.len() > 0 {
        assert(match s[0] {
            IpAddr::V4(a) => v4_is_loopback(a.octets@) || v4_is_link_local(a.octets@),
            IpAddr::V6(_) => false,
        });
        let rest = s.drop_first();
        assert forall|m: int| 0 <= m < rest.len() implies match #[trigger] rest[m] {
            IpAddr::V4(a) => v4_is_loopback(a.octets@) || v4_is_link_local(a.octets@),
            IpAddr::V6(_) => false,
        } by {
            assert(rest[m] == s[m + 1]);
        }
        lemma_only_local_v4_scan(rest);
    }
}

/// The selected interface never has a name that contains "tun".
pub proof fn lemma_tun_never_selected(ifaces: Seq<NetIface>, k: int)
    requires
        is_selected(ifaces, k),
    ensures
        !has_substring(ifaces[k].name@, tun_pattern()),
{
}

/// When some candidate has a usable IPv6 address, the selected interface has
/// one too.
pub proof fn lemma_ipv6_preferred(ifaces: Seq<NetIface>, k: int, j: int)
    requires
        is_selected(ifaces, k),
        0 <= j < ifaces.len(),
        is_candidate(ifaces[j]),
        outbound_addrs(ifaces[j].addrs@).1 is Some,
    ensures
        outbound_addrs(ifaces[k].addrs@).1 is Some,
{
    assert(iface_rank(ifaces[k]) <= iface_rank(ifaces[j]));
}

/// Of two candidates in the same address tier, the one whose name matches an
/// earlier priority entry ranks strictly above the other, so the later one is
/// never selected.
pub proof fn lemma_name_priority_breaks_ties(ifaces: Seq<NetIface>, k: int, j1: int, j2: int)
    requires
        is_selected(ifaces, k),
        0 <= j1 < ifaces.len(),
        0 <= j2 < ifaces.len(),
        is_candidate(ifaces[j1]),
        is_candidate(ifaces[j2]),
        v6_tier(outbound_addrs(ifaces[j1].addrs@).1) == v6_tier(outbound_addrs(ifaces[j2].addrs@).1),
        name_priority(ifaces[j1].name@) < name_priority(ifaces[j2].name@),
    ensures
        iface_rank(ifaces[k]) < iface_rank(ifaces[j2]),
        k != j2,
{
    assert(iface_rank(ifaces[k]) <= iface_rank(ifaces[j1]));
}

/// An interface whose only addresses are IPv4 loopback or link-local
/// addresses is never selected.
pub proof fn lemma_local_only_never_selected(ifaces: Seq<NetIface>, k: int, j: int)
    requires
        is_selected(ifaces, k),
        0 <= j < ifaces.len(),
        only_local_v4(ifaces[j].addrs@),
    ensures
        k != j,
{
    lemma_only_local_v4_scan(ifaces[j].addrs@);
}

} // verus!
