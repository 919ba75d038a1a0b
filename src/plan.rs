//! The configuration of outbound TCP and UDP sockets, decided before any
//! socket call: family, binding, protection, routing mark and options.
use vstd::prelude::*;
use crate::bind::{
    AddressFamily, BindTarget, EgressError, Platform, SocketAddress, address_family, bind_target,
    binds_as, family_of,
};
use crate::iface::Interface;

verus! {

/// Keepalive idle time before the first probe, in seconds.
pub const KEEPALIVE_IDLE_SECS: u64 = 10;

/// Keepalive interval between probes, in seconds.
pub const KEEPALIVE_INTERVAL_SECS: u64 = 1;

/// Keepalive probes sent before the connection is dropped.
pub const KEEPALIVE_RETRIES: u32 = 3;

/// Deadline of a TCP connect, in seconds.
pub const CONNECT_TIMEOUT_SECS: u64 = 10;

/// TCP keepalive timing.
#[derive(Clone, Copy, Debug, PartialEq, Eq)]
pub struct KeepaliveConfig {
    pub idle_secs: u64,
    pub interval_secs: u64,
    /// The probe count, where the platform can set it.
    pub retries: Option<u32>,
}

/// How an outbound TCP socket is created and configured before it connects.
#[derive(Clone, Debug, PartialEq, Eq)]
pub struct TcpPlan {
    pub family: AddressFamily,
    pub bind: Option<BindTarget>,
    /// Hand the descriptor to the socket protector before any other use.
    pub protect: bool,
    pub mark: Option<u32>,
    pub keepalive: bool,
    pub keepalive_timing: KeepaliveConfig,
    pub nodelay: bool,
    pub nonblocking: bool,
    pub connect_timeout_secs: u64,
}

/// How an outbound UDP socket is created and configured.
#[derive(Clone, Debug, PartialEq, Eq)]
pub struct UdpPlan {
    pub family: AddressFamily,
    pub bind: Option<BindTarget>,
    /// Both a local address and an interface were given, and the interface
    /// binding replaced the address.
    pub local_overridden: bool,
    pub protect: bool,
    pub mark: Option<u32>,
    pub broadcast: bool,
    pub nonblocking: bool,
}

/// The routing mark that a socket carries on `platform`.
pub open spec fn mark_on(platform: Platform, so_mark: Option<u32>) -> Option<u32> {
    if platform.routing_mark {
        so_mark
    } else {
        None
    }
}

/// The keepalive timing of outbound TCP sockets: 10 s idle, 1 s between
/// probes, 3 probes where the platform can set the count.
pub open spec fn keepalive_on(platform: Platform) -> KeepaliveConfig {
    KeepaliveConfig {
        idle_secs: 10,
        interval_secs: 1,
        retries: if platform.keepalive_retries {
            Some(3u32)
        } else {
            None
        },
    }
}

/// The keepalive timing of outbound TCP sockets on `platform`.
pub fn tcp_keepalive(platform: &Platform) -> (r: KeepaliveConfig)
    ensures
        r == keepalive_on(*platform),
{
    KeepaliveConfig {
        idle_secs: KEEPALIVE_IDLE_SECS,
        interval_secs: KEEPALIVE_INTERVAL_SECS,
        retries: if platform.keepalive_retries {
            Some(KEEPALIVE_RETRIES)
        } else {
            None
        },
    }
}

/// Plans a TCP socket to `endpoint`: the family of the endpoint, a bind on
/// `iface` unless the platform protects sockets instead, the routing mark
/// where supported, keepalive with its fixed timing, no-delay, non-blocking,
/// and a 10 s connect deadline.
pub fn plan_tcp_stream(
    endpoint: &SocketAddress,
    iface: &Option<Interface>,
    so_mark: Option<u32>,
    platform: &Platform,
) -> (r: Result<TcpPlan, EgressError>)
    ensures
        match r {
            Ok(p) => {
                &&& p.family == family_of(endpoint.ip)
                &&& p.protect == platform.protect_required
                &&& p.mark == mark_on(*platform, so_mark)
                &&& p.keepalive && p.nodelay && p.nonblocking
                &&& p.keepalive_timing == keepalive_on(*platform)
                &&& p.connect_timeout_secs == 10
                &&& (p.bind matches Some(t) ==> (*iface matches Some(i)
                    && !platform.protect_required && binds_as(i, p.family, *platform, Ok(t))))
                &&& (p.bind is None ==> platform.protect_required || iface is None)
            },
            Err(e) => *iface matches Some(i) && !platform.protect_required && binds_as(
                i,
                family_of(endpoint.ip),
                *platform,
                Err(e),
            ),
        },
{
    let family = address_family(&endpoint.ip);
    let mut bind: Option<BindTarget> = None;
    if !platform.protect_required {
        if let Some(i) = iface {
            match bind_target(i, family, platform) {
                Ok(t) => {
                    bind = Some(t);
                },
                Err(e) => {
                    return Err(e);
                },
            }
        }
    }
    Ok(
        TcpPlan {
            family,
            bind,
            protect: platform.protect_required,
            mark: if platform.routing_mark {
                so_mark
            } else {
                None
            },
            keepalive: true,
            keepalive_timing: tcp_keepalive(platform),
            nodelay: true,
            nonblocking: true,
            connect_timeout_secs: CONNECT_TIMEOUT_SECS,
        },
    )
}

/// Plans a UDP socket: the family of `src`, else IPv4. Unless the platform
/// protects sockets instead, an interface binding takes precedence over the
/// local address, a lone local address is bound as it is, and with neither
/// the socket stays unbound. Broadcast and non-blocking are on.
pub fn plan_udp_socket(
    src: &Option<SocketAddress>,
    iface: &Option<Interface>,
    so_mark: Option<u32>,
    platform: &Platform,
) -> (r: Result<UdpPlan, EgressError>)
    ensures
        ({
            let family = match *src {
                Some(a) => family_of(a.ip),
                None => AddressFamily::Ipv4,
            };
            match r {
                Ok(p) => {
                    &&& p.family == family
                    &&& p.protect == platform.protect_required
                    &&& p.mark == mark_on(*platform, so_mark)
                    &&& p.broadcast && p.nonblocking
                    &&& p.local_overridden == (!platform.protect_required && src is Some
                        && iface is Some)
                    &&& if platform.protect_required {
                        p.bind is None
                    } else {
                        match *iface {
                            Some(i) => p.bind matches Some(t) && binds_as(i, family, *platform, Ok(t)),
                            None => match *src {
                                Some(a) => p.bind == Some(BindTarget::Address(a)),
                                None => p.bind is None,
                            },
                        }
                    }
                },
                Err(e) => *iface matches Some(i) && !platform.protect_required && binds_as(
                    i,
                    family,
                    *platform,
                    Err(e),
                ),
            }
        }),
{
    let family = match src {
        Some(a) => address_family(&a.ip),
        None => AddressFamily::Ipv4,
    };
    let mut bind: Option<BindTarget> = None;
    let mut local_overridden = false;
    if !platform.protect_required {
        match (src, iface) {
            (Some(_), Some(i)) => {
                local_overridden = true;
                match bind_target(i, family, platform) {
                    Ok(t) => {
                        bind = Some(t);
                    },
                    Err(e) => {
                        return Err(e);
                    },
                }
            },
            (Some(a), None) => {
                bind = Some(BindTarget::Address(*a));
            },
            (None, Some(i)) => match bind_target(i, family, platform) {
                Ok(t) => {
                    bind = Some(t);
                },
                Err(e) => {
                    return Err(e);
                },
            },
            (None, None) => {},
        }
    }
    Ok(
        UdpPlan {
            family,
            bind,
            local_overridden,
            protect: platform.protect_required,
            mark: if platform.routing_mark {
                so_mark
            } else {
                None
            },
            broadcast: true,
            nonblocking: true,
        },
    )
}

} // verus!
