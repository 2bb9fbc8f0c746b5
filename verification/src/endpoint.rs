//! Network addresses as plain values.
use vstd::prelude::*;

verus! {

/// The host part of an address: the four bytes of an IPv4 address or the
/// sixteen bytes of an IPv6 address, most significant byte first.
#[derive(Debug, Clone, Copy, PartialEq, Eq, Structural, Hash)]
pub enum Host {
    V4(u32),
    V6(u128),
}

/// A socket address: a host and a port.
///
/// Two endpoints are the same peer exactly when both fields agree.
#[derive(Debug, Clone, Copy, PartialEq, Eq, Structural, Hash)]
pub struct Endpoint {
    pub host: Host,
    pub port: u16,
}

impl Endpoint {
    /// The IPv4 endpoint `host:port`.
    pub fn v4(host: u32, port: u16) -> (e: Endpoint)
        ensures
            e == (Endpoint { host: Host::V4(host), port }),
    {
        Endpoint { host: Host::V4(host), port }
    }

    /// The IPv6 endpoint `[host]:port`.
    pub fn v6(host: u128, port: u16) -> (e: Endpoint)
        ensures
            e == (Endpoint { host: Host::V6(host), port }),
    {
        Endpoint { host: Host::V6(host), port }
    }
}

} // verus!
