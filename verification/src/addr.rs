use vstd::prelude::*;

verus! {

/// An IP address: the IPv4 address as its 32-bit big-endian value, the IPv6
/// address as its 128-bit big-endian value.
#[derive(Debug, Clone, Copy, PartialEq, Eq, Structural)]
pub enum IpAddress {
    V4(u32),
    V6(u128),
}

/// A transport address: IP address and port.
#[derive(Debug, Clone, Copy, PartialEq, Eq, Structural)]
pub struct SocketAddress {
    pub ip: IpAddress,
    pub port: u16,
}

impl SocketAddress {
    pub open spec fn spec_is_ipv4(self) -> bool {
        self.ip is V4
    }

    /// Whether this is an IPv4 transport address.
    pub fn is_ipv4(&self) -> (b: bool)
        ensures
            b == self.spec_is_ipv4(),
    {
        match self.ip {
            IpAddress::V4(_) => true,
            IpAddress::V6(_) => false,
        }
    }

    /// `0.0.0.0:0`, the address reported when a STUN reply carries no mapped address.
    pub open spec fn spec_unspecified_v4() -> SocketAddress {
        SocketAddress { ip: IpAddress::V4(0), port: 0 }
    }

    pub fn unspecified_v4() -> (a: SocketAddress)
        ensures
            a == Self::spec_unspecified_v4(),
    {
        SocketAddress { ip: IpAddress::V4(0), port: 0 }
    }
}

/// The IPv4 addresses among `addrs`, in their order.
pub open spec fn ipv4_only_spec(addrs: Seq<SocketAddress>) -> Seq<SocketAddress> {
    addrs.filter(|a: SocketAddress| a.spec_is_ipv4())
}

/// Keeps the IPv4 addresses of a name lookup's results, in their order, as the
/// resolution of STUN server names does.
pub fn ipv4_only(addrs: &Vec<SocketAddress>) -> (r: Vec<SocketAddress>)
    ensures
        r@ == ipv4_only_spec(addrs@),
{
    let mut r: Vec<SocketAddress> = Vec::new();
    let n = addrs.len();
    for i in 0..n
        invariant
            n == addrs.len(),
            r@ == ipv4_only_spec(addrs@.take(i as int)),
    {
        proof {
            reveal_with_fuel(Seq::<_>::filter, 1);
            assert(addrs@.take(i + 1).drop_last() =~= addrs@.take(i as int));
        }
        if addrs[i].is_ipv4() {
            r.push(addrs[i]);
        }
    }
    proof {
        assert(addrs@.take(n as int) =~= addrs@);
    }
    r
}

} // verus!
