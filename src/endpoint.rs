use vstd::prelude::*;

verus! {

/// An IP address held as plain integers: an IPv4 address as its 32-bit
/// big-endian value, an IPv6 address as its 128-bit big-endian value.
#[derive(Clone, Copy, Debug, PartialEq, Eq, Structural)]
pub enum IpAddress {
    V4(u32),
    V6(u128),
}

/// A network peer: an IP address and a UDP port.
#[derive(Clone, Copy, Debug, PartialEq, Eq, Structural)]
pub struct ClientEndpoint {
    pub ip: IpAddress,
    pub port: u16,
}

impl ClientEndpoint {
    pub fn new(ip: IpAddress, port: u16) -> (r: ClientEndpoint)
        ensures
            r.ip == ip,
            r.port == port,
    {
        ClientEndpoint { ip, port }
    }

    /// The IPv4 endpoint `a.b.c.d:port`.
    pub fn v4(a: u8, b: u8, c: u8, d: u8, port: u16) -> (r: ClientEndpoint)
        ensures
            r.ip == IpAddress::V4(ipv4_value(a, b, c, d)),
            r.port == port,
    {
        let v: u32 = (a as u32) * 16777216 + (b as u32) * 65536 + (c as u32) * 256 + (d as u32);
        ClientEndpoint { ip: IpAddress::V4(v), port }
    }
}

/// The 32-bit value of the IPv4 address with octets `a.b.c.d`.
pub open spec fn ipv4_value(a: u8, b: u8, c: u8, d: u8) -> u32 {
    (a as int * 16777216 + b as int * 65536 + c as int * 256 + d as int) as u32
}

} // verus!
