use vstd::prelude::*;

verus! {

/// The host part of a network address, as the routing key is read: an IPv4
/// address as its 32 bits, an IPv6 address as its 128 bits.
#[derive(Clone, Copy, Debug, PartialEq, Eq, Structural)]
pub enum HostIp {
    V4(u32),
    V6(u128),
}

/// An upstream target: a host and a port.
#[derive(Clone, Copy, Debug, PartialEq, Eq, Structural)]
pub struct Target {
    pub ip: HostIp,
    pub port: u16,
}

} // verus!
