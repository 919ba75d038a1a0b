//! The socket protector: a host-supplied handler that exempts a socket from
//! the proxy's own traffic capture, held in a replaceable slot.
use vstd::prelude::*;
use std::sync::Arc;
use crate::bind::EgressError;

verus! {

/// Exempts the socket with descriptor `fd` from the proxy's traffic capture.
/// Implemented by the host environment.
pub trait SocketProtector: Send + Sync {
    /// The socket with descriptor `fd` has been handed to this protector.
    spec fn protected(&self, fd: i32) -> bool;

    fn protect(&self, fd: i32)
        ensures
            self.protected(fd),
    ;
}

/// Holds the registered protector, if any. A process publishes one slot at
/// a time through an atomic swap; a slot is never changed once published.
pub struct ProtectorSlot<P: SocketProtector + ?Sized> {
    handler: Option<Arc<P>>,
}

impl<P: SocketProtector + ?Sized> ProtectorSlot<P> {
    /// The registered protector, if any.
    pub closed spec fn handler(&self) -> Option<Arc<P>> {
        self.handler
    }

    /// A protector is registered.
    pub open spec fn is_set(&self) -> bool {
        self.handler() is Some
    }

    /// A slot with no protector.
    pub fn new() -> (r: ProtectorSlot<P>)
        ensures
            !r.is_set(),
    {
        ProtectorSlot { handler: None }
    }
}

/// Registers `protector` in `slot`, replacing any earlier one.
pub fn set_socket_protector<P: SocketProtector + ?Sized>(
    slot: &mut ProtectorSlot<P>,
    protector: Arc<P>,
)
    ensures
        final(slot).handler() == Some(protector),
{
    slot.handler = Some(protector);
}

/// Hands `fd` to the registered protector, once; fails with
/// `ProtectorUnset` when there is none.
pub fn protect_socket<P: SocketProtector + ?Sized>(slot: &ProtectorSlot<P>, fd: i32) -> (r: Result<(), EgressError>)
    ensures
        slot.is_set() <==> r is Ok,
        slot.handler() matches Some(h) ==> h.protected(fd),
        !slot.is_set() ==> r == Err::<(), EgressError>(EgressError::ProtectorUnset),
{
    match &slot.handler {
        Some(p) => {
            p.protect(fd);
            Ok(())
        },
        None => Err(EgressError::ProtectorUnset),
    }
}

} // verus!
