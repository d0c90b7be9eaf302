use vstd::prelude::*;

use crate::addr::SocketAddress;
use crate::tcp::{tcp_begin, TcpAction, TcpDetection};
use crate::udp::{udp_begin, UdpAction, UdpDetection};

verus! {

/// The NAT type detector: the STUN servers it asks over UDP (which must
/// honour RFC 3489 change requests) and over TCP.
#[derive(Debug)]
pub struct NatTypeDetector {
    udp_stun_servers: Vec<SocketAddress>,
    tcp_stun_servers: Vec<SocketAddress>,
}

impl NatTypeDetector {
    pub closed spec fn udp_servers(&self) -> Seq<SocketAddress> {
        self.udp_stun_servers@
    }

    pub closed spec fn tcp_servers(&self) -> Seq<SocketAddress> {
        self.tcp_stun_servers@
    }

    pub fn new(udp_stun_servers: Vec<SocketAddress>, tcp_stun_servers: Vec<SocketAddress>) -> (d: Self)
        ensures
            d.udp_servers() == udp_stun_servers@,
            d.tcp_servers() == tcp_stun_servers@,
    {
        NatTypeDetector { udp_stun_servers, tcp_stun_servers }
    }

    /// Starts the UDP detection against the first two UDP servers: with fewer
    /// than two it is over at once with `NotEnoughUdpServers`.
    pub fn detect_udp_nat_type(&self) -> (r: (UdpDetection, UdpAction))
        ensures
            self.udp_servers().len() >= 2 ==> r == udp_begin(
                self.udp_servers().len(),
                self.udp_servers()[0],
                self.udp_servers()[1],
            ),
            self.udp_servers().len() < 2 ==> (r.0.phase is Done && (r.1 matches UdpAction::Finish(
                Err(e),
            ) && e is NotEnoughUdpServers)),
    {
        UdpDetection::begin(&self.udp_stun_servers)
    }

    /// Starts the TCP detection against the TCP servers: with none it is over
    /// at once with `NoTcpServer`.
    pub fn detect_tcp_nat_type(&self) -> (r: (TcpDetection, TcpAction))
        ensures
            r.0.servers@ == self.tcp_servers(),
            r.0.phase == tcp_begin(self.tcp_servers()),
            self.tcp_servers().len() == 0 ==> (r.1 matches TcpAction::Finish(Err(e))
                && e is NoTcpServer),
            self.tcp_servers().len() > 0 ==> r.1 == (TcpAction::FindFreePort { announce: None }),
    {
        TcpDetection::begin(self.tcp_stun_servers.clone())
    }
}


/// Which tests to run for the `--tcp` and `--udp` flags: each flag selects its
/// test, and with neither flag both run. The result is `(tcp, udp)`.
pub fn protocols_to_detect(tcp_flag: bool, udp_flag: bool) -> (r: (bool, bool))
    ensures
        r.0 == (tcp_flag || !udp_flag),
        r.1 == (udp_flag || !tcp_flag),
{
    let neither = !tcp_flag && !udp_flag;
    (tcp_flag || neither, udp_flag || neither)
}

} // verus!
