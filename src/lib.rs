//! Outbound egress helpers: address classification, interface ranking and
//! selection, interface identities, bind decisions, the socket protector
//! slot, and the option plans that configure outbound sockets.
pub mod addr;
pub mod bind;
pub mod iface;
pub mod plan;
pub mod protector;
pub mod select;
pub mod text;
