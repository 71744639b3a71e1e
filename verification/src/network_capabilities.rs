//! Capabilities specifying a capsule's access to network resources.
//!
//! A network capability records (1) with what IP addresses its holder may
//! communicate, (2) from which UDP ports the holder may send, and (3) to
//! which UDP ports the holder may send. Address ranges are expressed with
//! [`AddrRange`], port ranges with [`PortRange`].
//!
//! Capabilities are handed out by trusted code: constructing a
//! [`NetworkCapability`] demands a creation-capability token, and reading
//! its fields demands the matching visibility token. The tokens are
//! marker traits that such trusted code implements on types of its own.

use vstd::prelude::*;

verus! {

/// Capability to create a [`NetworkCapability`].
pub trait NetCapCreateCap {

}

/// Capability to inspect the IP side of a [`NetworkCapability`].
pub trait IpVisCap {

}

/// Capability to inspect the UDP side of a [`NetworkCapability`].
pub trait UdpVisCap {

}

/// Largest number of addresses an [`AddrRange::AddrSet`] can hold.
pub const MAX_ADDR_SET_SIZE: usize = 8;

/// Largest number of ports a [`PortRange::PortSet`] can hold.
pub const MAX_PORT_SET_SIZE: usize = 8;

/// An IPv6 address as sixteen bytes.
#[derive(Clone, Copy, Debug, PartialEq, Eq)]
pub struct IPAddr(pub [u8; 16]);

/// Byte-wise equality of two addresses.
fn ip_addr_eq(a: &IPAddr, b: &IPAddr) -> (r: bool)
    ensures
        r == (a.0@ == b.0@),
{
    let mut i: usize = 0;
    while i < 16
        invariant
            i <= 16,
            forall|j: int| 0 <= j < i ==> a.0@[j] == b.0@[j],
        decreases 16 - i,
    {
        if a.0[i] != b.0[i] {
            return false;
        }
        i = i + 1;
    }
    proof {
        assert(a.0@ =~= b.0@);
    }
    true
}

/// A range of permitted IP addresses.
#[derive(Clone, Copy, Debug, PartialEq)]
pub enum AddrRange {
    Any,
    NoAddrs,
    AddrSet([IPAddr; MAX_ADDR_SET_SIZE]),
    Addr(IPAddr),
    Subnet(IPAddr, usize),
}

impl AddrRange {
    /// A `Subnet` range reads one byte beyond its whole prefix bytes and
    /// shifts by the remainder bit count, so its prefix length must leave
    /// both in bounds.
    pub open spec fn prefix_wf(self) -> bool {
        self matches AddrRange::Subnet(_, prefix_len) ==> prefix_len % 8 != 0 && prefix_len < 128
    }

    /// Whether `addr` is permitted by this range. An `AddrSet` permits
    /// its members; a `Subnet` constrains only the whole bytes of its
    /// prefix, since the check of the final partial byte compares the
    /// permitted address's byte against itself.
    pub fn is_addr_valid(&self, addr: IPAddr) -> (r: bool)
        requires
            self.prefix_wf(),
        ensures
            r == match *self {
                AddrRange::Any => true,
                AddrRange::NoAddrs => false,
                AddrRange::AddrSet(allowed_addrs) => exists|i: int|
                    0 <= i < MAX_ADDR_SET_SIZE && allowed_addrs@[i].0@ == addr.0@,
                AddrRange::Addr(allowed_addr) => allowed_addr.0@ == addr.0@,
                AddrRange::Subnet(allowed_addr, prefix_len) => forall|j: int|
                    0 <= j < prefix_len / 8 ==> allowed_addr.0@[j] == addr.0@[j],
            },
    {
        match self {
            AddrRange::Any => true,
            AddrRange::NoAddrs => false,
            AddrRange::AddrSet(allowed_addrs) => {
                let mut i: usize = 0;
                let mut found = false;
                while i < MAX_ADDR_SET_SIZE
                    invariant
                        i <= MAX_ADDR_SET_SIZE,
                        found == exists|k: int| 0 <= k < i && allowed_addrs@[k].0@ == addr.0@,
                    decreases MAX_ADDR_SET_SIZE - i,
                {
                    if ip_addr_eq(&allowed_addrs[i], &addr) {
                        found = true;
                    }
                    i = i + 1;
                }
                found
            },
            AddrRange::Addr(allowed_addr) => ip_addr_eq(allowed_addr, &addr),
            AddrRange::Subnet(allowed_addr, prefix_len) => {
                let full_bytes: usize = prefix_len / 8;
                let remainder_bits: usize = prefix_len % 8;
                let mut j: usize = 0;
                let mut prefix_matches = true;
                while j < full_bytes
                    invariant
                        j <= full_bytes,
                        full_bytes < 16,
                        prefix_matches == forall|k: int|
                            0 <= k < j ==> allowed_addr.0@[k] == addr.0@[k],
                    decreases full_bytes - j,
                {
                    if allowed_addr.0[j] != addr.0[j] {
                        prefix_matches = false;
                    }
                    j = j + 1;
                }
                if !prefix_matches {
                    false
                } else {
                    // This compares the permitted address's partial byte
                    // against itself, so it never rejects: only the whole
                    // bytes of the prefix constrain the match.
                    allowed_addr.0[full_bytes] >> (8 - remainder_bits) as u8 == allowed_addr.0[full_bytes]
                        >> (8 - remainder_bits) as u8
                }
            },
        }
    }
}

/// A range of permitted UDP ports.
#[derive(Clone, Copy, Debug, PartialEq)]
pub enum PortRange {
    Any,
    NoPorts,
    PortSet([u16; MAX_PORT_SET_SIZE]),
    Range(u16, u16),
    Port(u16),
}

impl PortRange {
    /// Whether `port` is permitted by this range.
    pub fn is_port_valid(&self, port: u16) -> (r: bool)
        ensures
            r == match *self {
                PortRange::Any => true,
                PortRange::NoPorts => false,
                PortRange::PortSet(allowed_ports) => exists|i: int|
                    0 <= i < MAX_PORT_SET_SIZE && allowed_ports@[i] == port,
                PortRange::Range(low, high) => low <= port <= high,
                PortRange::Port(allowed_port) => allowed_port == port,
            },
    {
        match self {
            PortRange::Any => true,
            PortRange::NoPorts => false,
            PortRange::PortSet(allowed_ports) => {
                let mut i: usize = 0;
                let mut found = false;
                while i < MAX_PORT_SET_SIZE
                    invariant
                        i <= MAX_PORT_SET_SIZE,
                        found == exists|k: int| 0 <= k < i && allowed_ports@[k] == port,
                    decreases MAX_PORT_SET_SIZE - i,
                {
                    if allowed_ports[i] == port {
                        found = true;
                    }
                    i = i + 1;
                }
                found
            },
            PortRange::Range(low, high) => *low <= port && port <= *high,
            PortRange::Port(allowed_port) => port == *allowed_port,
        }
    }
}

/// Specifies the remote IP addresses its holder may communicate with
/// (`remote_addrs`), the ports to which it may send (`remote_ports`), and
/// the ports from which it may send (`local_ports`).
pub struct NetworkCapability {
    remote_addrs: AddrRange,
    remote_ports: PortRange,
    local_ports: PortRange,
}

impl NetworkCapability {
    /// The remote address range this capability permits.
    pub closed spec fn spec_remote_addrs(self) -> AddrRange {
        self.remote_addrs
    }

    /// The remote port range this capability permits.
    pub closed spec fn spec_remote_ports(self) -> PortRange {
        self.remote_ports
    }

    /// The local port range this capability permits.
    pub closed spec fn spec_local_ports(self) -> PortRange {
        self.local_ports
    }

    /// Create a capability; demands a creation token.
    pub fn new<C: NetCapCreateCap>(
        remote_addrs: AddrRange,
        remote_ports: PortRange,
        local_ports: PortRange,
        _create_net_cap: &C,
    ) -> (r: NetworkCapability)
        ensures
            r.spec_remote_addrs() == remote_addrs,
            r.spec_remote_ports() == remote_ports,
            r.spec_local_ports() == local_ports,
    {
        NetworkCapability { remote_addrs, remote_ports, local_ports }
    }

    /// The permitted remote address range; demands an IP visibility token.
    pub fn get_range<C: IpVisCap>(&self, _ip_cap: &C) -> (r: AddrRange)
        ensures
            r == self.spec_remote_addrs(),
    {
        self.remote_addrs
    }

    /// Whether `remote_addr` is a permitted remote address.
    pub fn remote_addr_valid<C: IpVisCap>(&self, remote_addr: IPAddr, _ip_cap: &C) -> (r: bool)
        requires
            self.spec_remote_addrs().prefix_wf(),
        ensures
            r == match self.spec_remote_addrs() {
                AddrRange::Any => true,
                AddrRange::NoAddrs => false,
                AddrRange::AddrSet(allowed_addrs) => exists|i: int|
                    0 <= i < MAX_ADDR_SET_SIZE && allowed_addrs@[i].0@ == remote_addr.0@,
                AddrRange::Addr(allowed_addr) => allowed_addr.0@ == remote_addr.0@,
                AddrRange::Subnet(allowed_addr, prefix_len) => forall|j: int|
                    0 <= j < prefix_len / 8 ==> allowed_addr.0@[j] == remote_addr.0@[j],
            },
    {
        self.remote_addrs.is_addr_valid(remote_addr)
    }

    /// The permitted remote port range; demands a UDP visibility token.
    pub fn get_remote_ports<C: UdpVisCap>(&self, _udp_cap: &C) -> (r: PortRange)
        ensures
            r == self.spec_remote_ports(),
    {
        self.remote_ports
    }

    /// The permitted local port range; demands a UDP visibility token.
    pub fn get_local_ports<C: UdpVisCap>(&self, _udp_cap: &C) -> (r: PortRange)
        ensures
            r == self.spec_local_ports(),
    {
        self.local_ports
    }

    /// Whether `remote_port` is a permitted destination port.
    pub fn remote_port_valid<C: UdpVisCap>(&self, remote_port: u16, _udp_cap: &C) -> (r: bool)
        ensures
            r == match self.spec_remote_ports() {
                PortRange::Any => true,
                PortRange::NoPorts => false,
                PortRange::PortSet(allowed_ports) => exists|i: int|
                    0 <= i < MAX_PORT_SET_SIZE && allowed_ports@[i] == remote_port,
                PortRange::Range(low, high) => low <= remote_port <= high,
                PortRange::Port(allowed_port) => allowed_port == remote_port,
            },
    {
        self.remote_ports.is_port_valid(remote_port)
    }

    /// Whether `local_port` is a permitted source port.
    pub fn local_port_valid<C: UdpVisCap>(&self, local_port: u16, _udp_cap: &C) -> (r: bool)
        ensures
            r == match self.spec_local_ports() {
                PortRange::Any => true,
                PortRange::NoPorts => false,
                PortRange::PortSet(allowed_ports) => exists|i: int|
                    0 <= i < MAX_PORT_SET_SIZE && allowed_ports@[i] == local_port,
                PortRange::Range(low, high) => low <= local_port <= high,
                PortRange::Port(allowed_port) => allowed_port == local_port,
            },
    {
        self.local_ports.is_port_valid(local_port)
    }
}

} // verus!
