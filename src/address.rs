//! Network addresses as plain values.
use vstd::prelude::*;

verus! {

/// An IP address: four octets for IPv4, sixteen for IPv6.
#[derive(Clone, Copy, Debug, PartialEq, Eq)]
pub enum IpAddress {
    V4([u8; 4]),
    V6([u8; 16]),
}

/// An IPv4 address together with a UDP port.
#[derive(Clone, Copy, Debug, PartialEq, Eq)]
pub struct SocketAddressV4 {
    pub ip: [u8; 4],
    pub port: u16,
}

/// An IPv4 or IPv6 address together with a UDP port.
#[derive(Clone, Copy, Debug, PartialEq, Eq)]
pub struct SocketAddress {
    pub ip: IpAddress,
    pub port: u16,
}

} // verus!
