use vstd::prelude::*;

verus! {

/// An IP address: four octets for IPv4, one 128-bit number for IPv6.
#[derive(Clone, Copy, Debug, PartialEq, Eq, Structural, Hash)]
pub enum IpAddress {
    V4(u8, u8, u8, u8),
    V6(u128),
}

/// A UDP endpoint: an IP address and a port.
#[derive(Clone, Copy, Debug, PartialEq, Eq, Structural, Hash)]
pub struct SockAddr {
    pub ip: IpAddress,
    pub port: u16,
}

/// Port that relay servers listen on when the server name gives none.
pub const DEFAULT_RELAY_PORT: u16 = 3478;

/// Port of the default forward target on the loopback interface.
pub const DEFAULT_FWD_PORT: u16 = 34197;

impl SockAddr {
    pub open spec fn loopback_spec(port: u16) -> SockAddr {
        SockAddr { ip: IpAddress::V4(127, 0, 0, 1), port }
    }

    /// `127.0.0.1:port`.
    pub fn loopback(port: u16) -> (r: SockAddr)
        ensures
            r == Self::loopback_spec(port),
    {
        SockAddr { ip: IpAddress::V4(127, 0, 0, 1), port }
    }

    /// `127.0.0.1:0`: any free port on the loopback interface.
    pub fn local_dyn() -> (r: SockAddr)
        ensures
            r == Self::loopback_spec(0),
    {
        Self::loopback(0)
    }

    /// `0.0.0.0:0`: any free port on every interface.
    pub fn all_dyn() -> (r: SockAddr)
        ensures
            r == (SockAddr { ip: IpAddress::V4(0, 0, 0, 0), port: 0 }),
    {
        SockAddr { ip: IpAddress::V4(0, 0, 0, 0), port: 0 }
    }

    /// `127.0.0.1:34197`: where relayed data goes until another target is set.
    pub fn default_fwd() -> (r: SockAddr)
        ensures
            r == Self::loopback_spec(DEFAULT_FWD_PORT),
    {
        Self::loopback(DEFAULT_FWD_PORT)
    }
}

} // verus!
