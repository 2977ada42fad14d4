//! IP and socket addresses as plain values.
//!
//! An address is held as the integer that its bytes spell in network order, so
//! `127.0.0.1` is `0x7f00_0001`. Two socket addresses are equal exactly when
//! all their fields are.

use vstd::prelude::*;

verus! {

/// An IPv4 or IPv6 address.
#[derive(Clone, Copy, Debug, PartialEq, Eq, Hash, Structural)]
pub enum IpAddress {
    /// The four bytes of an IPv4 address, first byte most significant.
    V4(u32),
    /// The sixteen bytes of an IPv6 address, first byte most significant.
    V6(u128),
}

/// An IP address with a port.
///
/// `flowinfo` and `scope_id` belong to IPv6; an IPv4 socket address carries
/// zero in both.
#[derive(Clone, Copy, Debug, PartialEq, Eq, Hash, Structural)]
pub struct SocketAddress {
    pub ip: IpAddress,
    pub port: u16,
    pub flowinfo: u32,
    pub scope_id: u32,
}

impl IpAddress {
    pub open spec fn spec_is_ipv4(&self) -> bool {
        self is V4
    }

    /// Whether this is an IPv4 address.
    #[verifier::when_used_as_spec(spec_is_ipv4)]
    pub fn is_ipv4(&self) -> (v4: bool)
        ensures
            v4 == self.spec_is_ipv4(),
    {
        match self {
            IpAddress::V4(_) => true,
            IpAddress::V6(_) => false,
        }
    }

    /// The address as a number: the integer that its bytes spell.
    pub open spec fn bits(self) -> nat {
        match self {
            IpAddress::V4(b) => b as nat,
            IpAddress::V6(b) => b as nat,
        }
    }
}

impl SocketAddress {
    pub open spec fn spec_new(ip: IpAddress, port: u16) -> SocketAddress {
        SocketAddress { ip, port, flowinfo: 0, scope_id: 0 }
    }

    /// The socket address made of `ip` and `port`, with flow information and
    /// scope zero.
    #[verifier::when_used_as_spec(spec_new)]
    pub fn new(ip: IpAddress, port: u16) -> (addr: SocketAddress)
        ensures
            addr == Self::spec_new(ip, port),
    {
        SocketAddress { ip, port, flowinfo: 0, scope_id: 0 }
    }

    /// The number under which the flow table files this address: for IPv4 the
    /// address and the port side by side, for IPv6 the address alone. Equal
    /// addresses have equal numbers; different ones may share a number.
    pub open spec fn shelf(self) -> u128 {
        match self.ip {
            IpAddress::V4(b) => ((b as nat) * 65536 + (self.port as nat)) as u128,
            IpAddress::V6(b) => b,
        }
    }

    /// Computes [`SocketAddress::shelf`].
    pub fn shelf_number(&self) -> (number: u128)
        ensures
            number == self.shelf(),
    {
        match self.ip {
            IpAddress::V4(b) => {
                let wide: u128 = b as u128;
                let low: u128 = self.port as u128;
                wide * 65536 + low
            },
            IpAddress::V6(b) => b,
        }
    }
}

/// The wildcard address of the family of `addr`, with port zero.
pub open spec fn spec_get_unspecified(addr: &IpAddress) -> SocketAddress {
    if addr is V4 {
        SocketAddress::spec_new(IpAddress::V4(0), 0)
    } else {
        SocketAddress::spec_new(IpAddress::V6(0), 0)
    }
}

/// The address that a flow's upstream socket binds to: the wildcard address
/// of the family of `addr` and port zero, so that the system picks the local
/// address and port.
#[verifier::when_used_as_spec(spec_get_unspecified)]
pub fn get_unspecified(addr: &IpAddress) -> (local: SocketAddress)
    ensures
        local == spec_get_unspecified(addr),
        local.ip.is_ipv4() == addr.is_ipv4(),
        local.ip.bits() == 0,
        local.port == 0,
{
    if addr.is_ipv4() {
        SocketAddress::new(IpAddress::V4(0), 0)
    } else {
        SocketAddress::new(IpAddress::V6(0), 0)
    }
}

} // verus!
