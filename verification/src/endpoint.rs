//! Remote endpoints as plain values.

use vstd::prelude::*;

verus! {

/// An internet address.
#[derive(Clone, Copy, Debug, PartialEq, Eq, Hash)]
pub enum Address {
    /// An IPv4 address: its four octets as one big-endian number.
    V4(u32),
    /// An IPv6 address, with what a socket address adds to it.
    V6 {
        /// The sixteen octets as one big-endian number.
        bits: u128,
        /// The flow label and traffic class.
        flowinfo: u32,
        /// The scope identifier.
        scope_id: u32,
    },
}

/// The address and port of a remote peer.
///
/// The relay never looks inside an endpoint: it stores the one it was given,
/// replaces it by the source of a datagram, and hands it out as the target of
/// a send. The fields hold exactly what a socket address holds, so that a
/// caller can convert in both directions without loss.
#[derive(Clone, Copy, Debug, PartialEq, Eq, Hash)]
pub struct Endpoint {
    /// The address of the peer.
    pub address: Address,
    /// Its UDP port.
    pub port: u16,
}

} // verus!
