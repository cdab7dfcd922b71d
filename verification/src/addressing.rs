//! Static addressing data: IPv4/IPv6 addresses, CIDR blocks, per-family
//! static configurations, and the resolution step that turns a supplied
//! addressing configuration into the record handed to stack construction.

use vstd::prelude::*;

use crate::errors::BringupError;

verus! {

/// Largest number of DNS servers a per-family configuration may carry;
/// the stack's configuration record has room for no more.
pub const MAX_DNS_SERVERS: usize = 3;

/// An IPv4 address, as its four octets, most significant first.
#[derive(Clone, Copy, PartialEq, Eq, Debug)]
pub struct Ipv4Address {
    pub octets: [u8; 4],
}

impl Ipv4Address {
    /// Build an address from its four octets.
    pub fn new(a0: u8, a1: u8, a2: u8, a3: u8) -> (r: Ipv4Address)
        ensures
            r.octets@ == seq![a0, a1, a2, a3],
    {
        Ipv4Address { octets: [a0, a1, a2, a3] }
    }
}

/// An IPv6 address, as its eight 16-bit segments, most significant first.
#[derive(Clone, Copy, PartialEq, Eq, Debug)]
pub struct Ipv6Address {
    pub segments: [u16; 8],
}

impl Ipv6Address {
    /// Build an address from its eight segments.
    pub fn new(
        s0: u16,
        s1: u16,
        s2: u16,
        s3: u16,
        s4: u16,
        s5: u16,
        s6: u16,
        s7: u16,
    ) -> (r: Ipv6Address)
        ensures
            r.segments@ == seq![s0, s1, s2, s3, s4, s5, s6, s7],
    {
        Ipv6Address { segments: [s0, s1, s2, s3, s4, s5, s6, s7] }
    }
}

/// An IPv4 network block: an address together with a prefix length.
#[derive(Clone, Copy, PartialEq, Eq, Debug)]
pub struct Ipv4Cidr {
    pub address: Ipv4Address,
    pub prefix_len: u8,
}

impl Ipv4Cidr {
    /// A prefix length can cover at most all 32 address bits.
    pub open spec fn wf(self) -> bool {
        self.prefix_len <= 32
    }

    /// Build a block from an address and a prefix length.
    pub fn new(address: Ipv4Address, prefix_len: u8) -> (r: Ipv4Cidr)
        requires
            prefix_len <= 32,
        ensures
            r.address == address,
            r.prefix_len == prefix_len,
            r.wf(),
    {
        Ipv4Cidr { address, prefix_len }
    }
}

/// An IPv6 network block: an address together with a prefix length.
#[derive(Clone, Copy, PartialEq, Eq, Debug)]
pub struct Ipv6Cidr {
    pub address: Ipv6Address,
    pub prefix_len: u8,
}

impl Ipv6Cidr {
    /// A prefix length can cover at most all 128 address bits.
    pub open spec fn wf(self) -> bool {
        self.prefix_len <= 128
    }

    /// Build a block from an address and a prefix length.
    pub fn new(address: Ipv6Address, prefix_len: u8) -> (r: Ipv6Cidr)
        requires
            prefix_len <= 128,
        ensures
            r.address == address,
            r.prefix_len == prefix_len,
            r.wf(),
    {
        Ipv6Cidr { address, prefix_len }
    }
}

/// A static IPv4 assignment: the interface's block, an optional gateway, and
/// up to [`MAX_DNS_SERVERS`] DNS servers.
#[derive(Clone, PartialEq, Eq, Debug)]
pub struct StaticConfigV4 {
    pub address: Ipv4Cidr,
    pub gateway: Option<Ipv4Address>,
    pub dns_servers: Vec<Ipv4Address>,
}

impl StaticConfigV4 {
    /// The block is well formed and the DNS list fits the stack's record.
    pub open spec fn wf(self) -> bool {
        &&& self.address.wf()
        &&& self.dns_servers@.len() <= MAX_DNS_SERVERS
    }
}

/// A static IPv6 assignment: the interface's block, an optional gateway, and
/// up to [`MAX_DNS_SERVERS`] DNS servers.
#[derive(Clone, PartialEq, Eq, Debug)]
pub struct StaticConfigV6 {
    pub address: Ipv6Cidr,
    pub gateway: Option<Ipv6Address>,
    pub dns_servers: Vec<Ipv6Address>,
}

impl StaticConfigV6 {
    /// The block is well formed and the DNS list fits the stack's record.
    pub open spec fn wf(self) -> bool {
        &&& self.address.wf()
        &&& self.dns_servers@.len() <= MAX_DNS_SERVERS
    }
}

/// The addressing a caller supplies: a static IPv4 assignment, a static IPv6
/// assignment, or both. Supplying neither is a configuration error.
#[derive(Clone, PartialEq, Eq, Debug)]
pub struct AddressingConfig {
    pub ipv4: Option<StaticConfigV4>,
    pub ipv6: Option<StaticConfigV6>,
}

impl AddressingConfig {
    /// Every supplied assignment is itself well formed.
    pub open spec fn wf(self) -> bool {
        &&& (self.ipv4 matches Some(c) ==> c.wf())
        &&& (self.ipv6 matches Some(c) ==> c.wf())
    }

    /// At least one address family is supplied.
    pub open spec fn has_any(self) -> bool {
        self.ipv4 is Some || self.ipv6 is Some
    }
}

/// The addressing record handed to stack construction: the supplied
/// assignments, unchanged, with at least one family present.
#[derive(Clone, PartialEq, Eq, Debug)]
pub struct ResolvedConfig {
    pub ipv4: Option<StaticConfigV4>,
    pub ipv6: Option<StaticConfigV6>,
}

impl ResolvedConfig {
    /// Both assignments are well formed and at least one is present.
    pub open spec fn wf(self) -> bool {
        &&& (self.ipv4 matches Some(c) ==> c.wf())
        &&& (self.ipv6 matches Some(c) ==> c.wf())
        &&& (self.ipv4 is Some || self.ipv6 is Some)
    }

    /// Whether an IPv4 assignment is active in this record.
    pub fn has_ipv4(&self) -> (r: bool)
        ensures
            r == (self.ipv4 is Some),
    {
        self.ipv4.is_some()
    }

    /// Whether an IPv6 assignment is active in this record.
    pub fn has_ipv6(&self) -> (r: bool)
        ensures
            r == (self.ipv6 is Some),
    {
        self.ipv6.is_some()
    }
}

/// Resolve a supplied addressing configuration into the record handed to
/// stack construction. Each supplied family is kept exactly as given; a
/// configuration supplying neither family is rejected, and nothing else is.
pub fn resolve(config: AddressingConfig) -> (r: Result<ResolvedConfig, BringupError>)
    requires
        config.wf(),
    ensures
        r is Ok <==> config.has_any(),
        r matches Ok(c) ==> c.ipv4 == config.ipv4 && c.ipv6 == config.ipv6 && c.wf(),
        r matches Err(e) ==> e == BringupError::NoAddressing,
{
    if config.ipv4.is_some() || config.ipv6.is_some() {
        Ok(ResolvedConfig { ipv4: config.ipv4, ipv6: config.ipv6 })
    } else {
        Err(BringupError::NoAddressing)
    }
}

} // verus!
