//! Platform capabilities, socket addresses, errors, and the decision of
//! what a socket is bound to for a given interface identity.
use vstd::prelude::*;
use crate::addr::IpAddr;
use crate::iface::Interface;

verus! {

/// What the build target offers, fixed per target.
#[derive(Clone, Copy, Debug, PartialEq, Eq)]
pub struct Platform {
    /// Sockets can be bound to a named device.
    pub device_bind: bool,
    /// Sockets can carry a policy-routing mark.
    pub routing_mark: bool,
    /// Traffic is captured natively, and each socket must be exempted by the
    /// protector instead of being bound to an interface.
    pub protect_required: bool,
    /// Keepalive probe counts can be set.
    pub keepalive_retries: bool,
}

#[derive(Clone, Copy, Debug, PartialEq, Eq)]
pub enum AddressFamily {
    Ipv4,
    Ipv6,
}

/// An IP address with a port.
#[derive(Clone, Copy, Debug, PartialEq, Eq)]
pub struct SocketAddress {
    pub ip: IpAddr,
    pub port: u16,
}

/// What a socket is bound to.
#[derive(Clone, Debug, PartialEq, Eq)]
pub enum BindTarget {
    Address(SocketAddress),
    Device(String),
}

/// Failures decided by this library; operating-system failures are reported
/// by the caller that performs the socket calls.
#[derive(Clone, Debug, PartialEq, Eq)]
pub enum EgressError {
    /// An address identity lacks an address of the socket's family.
    AddressUnavailable,
    /// A device-name bind was asked for where the platform cannot do it.
    UnsupportedPlatform(String),
    /// Protection was needed and no protector is registered.
    ProtectorUnset,
    /// A TCP connect did not finish within its deadline.
    ConnectTimeout,
}

pub open spec fn family_of(ip: IpAddr) -> AddressFamily {
    match ip {
        IpAddr::V4(_) => AddressFamily::Ipv4,
        IpAddr::V6(_) => AddressFamily::Ipv6,
    }
}

/// The family of `ip`.
pub fn address_family(ip: &IpAddr) -> (r: AddressFamily)
    ensures
        r == family_of(*ip),
{
    match ip {
        IpAddr::V4(_) => AddressFamily::Ipv4,
        IpAddr::V6(_) => AddressFamily::Ipv6,
    }
}

/// `r` is what binding a socket of `family` on `iface` comes to: the
/// address of that family with port 0, or the device, or the error.
pub open spec fn binds_as(
    iface: Interface,
    family: AddressFamily,
    platform: Platform,
    r: Result<BindTarget, EgressError>,
) -> bool {
    match iface {
        Interface::IpAddr(v4, v6) => match family {
            AddressFamily::Ipv4 => match v4 {
                Some(a) => r == Ok::<BindTarget, EgressError>(
                    BindTarget::Address(SocketAddress { ip: IpAddr::V4(a), port: 0 }),
                ),
                None => r == Err::<BindTarget, EgressError>(EgressError::AddressUnavailable),
            },
            AddressFamily::Ipv6 => match v6 {
                Some(a) => r == Ok::<BindTarget, EgressError>(
                    BindTarget::Address(SocketAddress { ip: IpAddr::V6(a), port: 0 }),
                ),
                None => r == Err::<BindTarget, EgressError>(EgressError::AddressUnavailable),
            },
        },
        Interface::Name(n) => if platform.device_bind {
            r matches Ok(BindTarget::Device(d)) && d@ == n@
        } else {
            r matches Err(EgressError::UnsupportedPlatform(d)) && d@ == n@
        },
    }
}

/// What a socket of `family` is bound to for `iface`: the identity's address
/// of that family with an ephemeral port, or its device where the platform
/// binds devices.
pub fn bind_target(iface: &Interface, family: AddressFamily, platform: &Platform) -> (r: Result<
    BindTarget,
    EgressError,
>)
    ensures
        binds_as(*iface, family, *platform, r),
{
    match iface {
        Interface::IpAddr(v4, v6) => match family {
            AddressFamily::Ipv4 => match v4 {
                Some(a) => Ok(BindTarget::Address(SocketAddress { ip: IpAddr::V4(*a), port: 0 })),
                None => Err(EgressError::AddressUnavailable),
            },
            AddressFamily::Ipv6 => match v6 {
                Some(a) => Ok(BindTarget::Address(SocketAddress { ip: IpAddr::V6(*a), port: 0 })),
                None => Err(EgressError::AddressUnavailable),
            },
        },
        Interface::Name(name) => {
            if platform.device_bind {
                Ok(BindTarget::Device(name.clone()))
            } else {
                Err(EgressError::UnsupportedPlatform(name.clone()))
            }
        },
    }
}

} // verus!
