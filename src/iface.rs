//! The identity of an egress binding target: a device name or a pair of
//! local addresses.
use vstd::prelude::*;
use crate::addr::{IpAddr, V4Addr, V6Addr};
use crate::select::OutboundInterface;

verus! {

/// Where an outbound socket is bound: to local addresses, chosen by the
/// socket's family, or to a named device.
#[derive(Clone, Debug, PartialEq, Eq)]
pub enum Interface {
    IpAddr(Option<V4Addr>, Option<V6Addr>),
    Name(String),
}

impl Interface {
    /// A device-name identity.
    pub fn from_name(name: &str) -> (r: Interface)
        ensures
            r matches Interface::Name(n) && n@ == name@,
    {
        Interface::Name(String::from_str(name))
    }

    /// The device name of a name identity; nothing for an address identity.
    pub fn into_iface_name(self) -> (r: Option<String>)
        ensures
            r == match self {
                Interface::IpAddr(..) => None,
                Interface::Name(name) => Some(name),
            },
    {
        match self {
            Interface::IpAddr(..) => None,
            Interface::Name(name) => Some(name),
        }
    }
}

impl From<OutboundInterface> for Interface {
    fn from(value: OutboundInterface) -> (r: Self) {
        Interface::Name(value.name)
    }
}

impl vstd::std_specs::convert::FromSpecImpl<OutboundInterface> for Interface {
    open spec fn obeys_from_spec() -> bool {
        true
    }

    open spec fn from_spec(v: OutboundInterface) -> Self {
        Interface::Name(v.name)
    }
}

impl From<IpAddr> for Interface {
    fn from(value: IpAddr) -> (r: Self) {
        match value {
            IpAddr::V4(addr) => Interface::IpAddr(Some(addr), None),
            IpAddr::V6(addr) => Interface::IpAddr(None, Some(addr)),
        }
    }
}

impl vstd::std_specs::convert::FromSpecImpl<IpAddr> for Interface {
    open spec fn obeys_from_spec() -> bool {
        true
    }

    open spec fn from_spec(v: IpAddr) -> Self {
        match v {
            IpAddr::V4(addr) => Interface::IpAddr(Some(addr), None),
            IpAddr::V6(addr) => Interface::IpAddr(None, Some(addr)),
        }
    }
}

} // verus!
