use vstd::prelude::*;

use crate::addr::SocketAddress;
use crate::client::BindRequestResponse;
use crate::error::DetectError;
use crate::nat_type::NatType;
use crate::upnp::UpnpPortMappingLease;

verus! {

/// Which UDP socket a Binding request goes out on: the one the detection
/// opened first, or the one bound to the port a gateway mapped.
#[derive(Debug, Clone, Copy, PartialEq, Eq, Structural)]
pub enum UdpSocketChoice {
    Primary,
    Mapped,
}

/// What the UDP detection asks its driver to do next.
#[derive(Debug)]
pub enum UdpAction {
    /// Bind a UDP socket on `0.0.0.0:0`; answer with `SocketOpened`.
    OpenPrimarySocket,
    /// Run a Binding request on the chosen socket; answer with `Bound`.
    Bind { socket: UdpSocketChoice, server: SocketAddress, change_ip: bool, change_port: bool },
    /// Find a free local port; answer with `FreePort`.
    FindFreePort,
    /// Ask the gateway to map the UDP port; answer with `PortMapping`.
    OpenPortMapping { local_port: u16 },
    /// Bind a UDP socket on `0.0.0.0:local_port`; answer with `SocketOpened`.
    OpenMappedSocket { local_port: u16 },
    /// The detection is over.
    Finish(Result<NatType, DetectError>),
}

/// What the driver observed when it carried out the last action.
#[derive(Debug)]
pub enum UdpEvent {
    SocketOpened(Result<(), DetectError>),
    Bound(Result<BindRequestResponse, DetectError>),
    FreePort(Result<u16, DetectError>),
    PortMapping(Option<UpnpPortMappingLease>),
}

/// Where the UDP detection stands.
#[derive(Debug, Clone, Copy)]
pub enum UdpPhase {
    Start,
    Test1First,
    Test1Second { first: BindRequestResponse },
    Test2 { first: BindRequestResponse },
    Test3 { first: BindRequestResponse, test2_valid: bool },
    FreePort { test3_ok: bool },
    PortMapping { test3_ok: bool, local_port: u16 },
    MappedSocket { test3_ok: bool },
    MappedTest1 { test3_ok: bool },
    MappedTest2 { test3_ok: bool, test1: Option<BindRequestResponse> },
    Done,
}

/// The RFC 3489 style UDP detection, run against two STUN servers.
#[derive(Debug, Clone, Copy)]
pub struct UdpDetection {
    pub first_server: SocketAddress,
    pub second_server: SocketAddress,
    pub phase: UdpPhase,
}

/// The verdict when neither test 2 nor the test through a mapped port showed
/// a full cone: restricted when test 3 got a reply, else port restricted.
pub open spec fn spec_fallback(test3_ok: bool) -> NatType {
    if test3_ok {
        NatType::Restricted
    } else {
        NatType::PortRestricted
    }
}

/// Test 2 counts when its reply came from another IP address and another port.
pub open spec fn spec_test2_valid(r: Result<BindRequestResponse, DetectError>) -> bool {
    match r {
        Ok(resp) => resp.real_ip_changed && resp.real_port_changed,
        Err(_) => false,
    }
}

/// How the detection starts with `n` servers, the first two being `s0` and `s1`.
pub open spec fn udp_begin(n: nat, s0: SocketAddress, s1: SocketAddress) -> (UdpDetection, UdpAction) {
    if n < 2 {
        (
            UdpDetection { first_server: s0, second_server: s1, phase: UdpPhase::Done },
            UdpAction::Finish(Err(DetectError::NotEnoughUdpServers)),
        )
    } else {
        (
            UdpDetection { first_server: s0, second_server: s1, phase: UdpPhase::Start },
            UdpAction::OpenPrimarySocket,
        )
    }
}

pub open spec fn finish(d: UdpDetection, r: Result<NatType, DetectError>) -> (UdpDetection, UdpAction) {
    (UdpDetection { phase: UdpPhase::Done, ..d }, UdpAction::Finish(r))
}

pub open spec fn bind_action(socket: UdpSocketChoice, server: SocketAddress, change_ip: bool, change_port: bool) -> UdpAction {
    UdpAction::Bind { socket, server, change_ip, change_port }
}

/// Whether the detection can take `ev` now: it is not over, the event answers
/// the action asked for, and the reply whose mapped address the verdict reads
/// carries one.
pub open spec fn udp_admissible(d: UdpDetection, ev: UdpEvent) -> bool {
    match d.phase {
        UdpPhase::Start => ev is SocketOpened,
        UdpPhase::Test1First => ev is Bound,
        UdpPhase::Test1Second { .. } => ev is Bound,
        UdpPhase::Test2 { .. } => ev is Bound,
        UdpPhase::Test3 { first, .. } => ev is Bound && first.mapped_socket_addr is Some,
        UdpPhase::FreePort { .. } => ev is FreePort,
        UdpPhase::PortMapping { .. } => ev is PortMapping,
        UdpPhase::MappedSocket { .. } => ev is SocketOpened,
        UdpPhase::MappedTest1 { .. } => ev is Bound,
        UdpPhase::MappedTest2 { test1, .. } => ev is Bound && (test1 matches Some(r)
            ==> r.mapped_socket_addr is Some),
        UdpPhase::Done => false,
    }
}

/// One step of the UDP detection.
pub open spec fn udp_next(d: UdpDetection, ev: UdpEvent) -> (UdpDetection, UdpAction) {
    let s0 = d.first_server;
    let s1 = d.second_server;
    match (d.phase, ev) {
        (UdpPhase::Start, UdpEvent::SocketOpened(Ok(()))) => (
            UdpDetection { phase: UdpPhase::Test1First, ..d },
            bind_action(UdpSocketChoice::Primary, s0, false, false),
        ),
        (UdpPhase::Test1First, UdpEvent::Bound(Ok(r))) => (
            UdpDetection { phase: UdpPhase::Test1Second { first: r }, ..d },
            bind_action(UdpSocketChoice::Primary, s1, false, false),
        ),
        (UdpPhase::Test1Second { first }, UdpEvent::Bound(Ok(r))) => if first.mapped_socket_addr
            != r.mapped_socket_addr {
            finish(d, Ok(NatType::Symmetric))
        } else {
            (
                UdpDetection { phase: UdpPhase::Test2 { first }, ..d },
                bind_action(UdpSocketChoice::Primary, s1, true, true),
            )
        },
        (UdpPhase::Test2 { first }, UdpEvent::Bound(r)) => (
            UdpDetection { phase: UdpPhase::Test3 { first, test2_valid: spec_test2_valid(r) }, ..d },
            bind_action(UdpSocketChoice::Primary, s1, false, true),
        ),
        (UdpPhase::Test3 { first, test2_valid }, UdpEvent::Bound(r)) => {
            if first.local_addr == first.mapped_socket_addr.unwrap() {
                if test2_valid {
                    finish(d, Ok(NatType::OpenInternet))
                } else {
                    finish(d, Ok(NatType::SymUdpFirewall))
                }
            } else if test2_valid {
                finish(d, Ok(NatType::FullCone))
            } else {
                (
                    UdpDetection { phase: UdpPhase::FreePort { test3_ok: r is Ok }, ..d },
                    UdpAction::FindFreePort,
                )
            }
        },
        (UdpPhase::FreePort { test3_ok }, UdpEvent::FreePort(Ok(p))) => (
            UdpDetection { phase: UdpPhase::PortMapping { test3_ok, local_port: p }, ..d },
            UdpAction::OpenPortMapping { local_port: p },
        ),
        (UdpPhase::PortMapping { test3_ok, local_port }, UdpEvent::PortMapping(lease)) => {
            match lease {
                Some(_) => (
                    UdpDetection { phase: UdpPhase::MappedSocket { test3_ok }, ..d },
                    UdpAction::OpenMappedSocket { local_port },
                ),
                None => finish(d, Ok(spec_fallback(test3_ok))),
            }
        },
        (UdpPhase::MappedSocket { test3_ok }, UdpEvent::SocketOpened(Ok(()))) => (
            UdpDetection { phase: UdpPhase::MappedTest1 { test3_ok }, ..d },
            bind_action(UdpSocketChoice::Mapped, s0, false, false),
        ),
        (UdpPhase::MappedTest1 { test3_ok }, UdpEvent::Bound(r)) => (
            UdpDetection {
                phase: UdpPhase::MappedTest2 {
                    test3_ok,
                    test1: match r {
                        Ok(x) => Some(x),
                        Err(_) => None,
                    },
                },
                ..d
            },
            bind_action(UdpSocketChoice::Mapped, s0, true, true),
        ),
        (UdpPhase::MappedTest2 { test3_ok, test1 }, UdpEvent::Bound(r)) => {
            if test1 is Some && r is Ok {
                finish(d, Ok(NatType::FullCone))
            } else {
                finish(d, Ok(spec_fallback(test3_ok)))
            }
        },
        (_, UdpEvent::SocketOpened(Err(e))) => finish(d, Err(e)),
        (_, UdpEvent::Bound(Err(e))) => finish(d, Err(e)),
        (_, UdpEvent::FreePort(Err(e))) => finish(d, Err(e)),
        // events the detection cannot take (see `udp_admissible`)
        _ => (d, UdpAction::Finish(Err(DetectError::NotEnoughUdpServers))),
    }
}

impl UdpDetection {
    /// Starts the detection against `servers`; it needs two of them.
    pub fn begin(servers: &Vec<SocketAddress>) -> (r: (UdpDetection, UdpAction))
        ensures
            servers@.len() >= 2 ==> r == udp_begin(servers@.len(), servers@[0], servers@[1]),
            servers@.len() < 2 ==> (r.0.phase is Done && (r.1 matches UdpAction::Finish(Err(e))
                && e is NotEnoughUdpServers)),
    {
        if servers.len() < 2 {
            let unused = SocketAddress::unspecified_v4();
            (
                UdpDetection { first_server: unused, second_server: unused, phase: UdpPhase::Done },
                UdpAction::Finish(Err(DetectError::NotEnoughUdpServers)),
            )
        } else {
            (
                UdpDetection { first_server: servers[0], second_server: servers[1], phase: UdpPhase::Start },
                UdpAction::OpenPrimarySocket,
            )
        }
    }

    /// Whether the detection can take `ev` now; see [`udp_admissible`].
    pub fn admits(&self, ev: &UdpEvent) -> (b: bool)
        ensures
            b == udp_admissible(*self, *ev),
    {
        match self.phase {
            UdpPhase::Start => matches!(ev, UdpEvent::SocketOpened(_)),
            UdpPhase::Test1First => matches!(ev, UdpEvent::Bound(_)),
            UdpPhase::Test1Second { .. } => matches!(ev, UdpEvent::Bound(_)),
            UdpPhase::Test2 { .. } => matches!(ev, UdpEvent::Bound(_)),
            UdpPhase::Test3 { first, .. } => matches!(ev, UdpEvent::Bound(_))
                && first.mapped_socket_addr.is_some(),
            UdpPhase::FreePort { .. } => matches!(ev, UdpEvent::FreePort(_)),
            UdpPhase::PortMapping { .. } => matches!(ev, UdpEvent::PortMapping(_)),
            UdpPhase::MappedSocket { .. } => matches!(ev, UdpEvent::SocketOpened(_)),
            UdpPhase::MappedTest1 { .. } => matches!(ev, UdpEvent::Bound(_)),
            UdpPhase::MappedTest2 { test1, .. } => {
                matches!(ev, UdpEvent::Bound(_)) && match test1 {
                    Some(r) => r.mapped_socket_addr.is_some(),
                    None => true,
                }
            },
            UdpPhase::Done => false,
        }
    }

    /// Takes what the driver observed and says what to do next.
    pub fn step(self, ev: UdpEvent) -> (r: (UdpDetection, UdpAction))
        requires
            udp_admissible(self, ev),
        ensures
            r == udp_next(self, ev),
    {
        let d = self;
        let s0 = d.first_server;
        let s1 = d.second_server;
        let done = UdpDetection { phase: UdpPhase::Done, ..d };
        match (d.phase, ev) {
            (UdpPhase::Start, UdpEvent::SocketOpened(Ok(()))) => (
                UdpDetection { phase: UdpPhase::Test1First, ..d },
                UdpAction::Bind { socket: UdpSocketChoice::Primary, server: s0, change_ip: false, change_port: false },
            ),
            (UdpPhase::Test1First, UdpEvent::Bound(Ok(r))) => (
                UdpDetection { phase: UdpPhase::Test1Second { first: r }, ..d },
                UdpAction::Bind { socket: UdpSocketChoice::Primary, server: s1, change_ip: false, change_port: false },
            ),
            (UdpPhase::Test1Second { first }, UdpEvent::Bound(Ok(r))) => {
                if first.mapped_socket_addr != r.mapped_socket_addr {
                    (done, UdpAction::Finish(Ok(NatType::Symmetric)))
                } else {
                    (
                        UdpDetection { phase: UdpPhase::Test2 { first }, ..d },
                        UdpAction::Bind { socket: UdpSocketChoice::Primary, server: s1, change_ip: true, change_port: true },
                    )
                }
            },
            (UdpPhase::Test2 { first }, UdpEvent::Bound(r)) => {
                let valid = match &r {
                    Ok(resp) => resp.real_ip_changed && resp.real_port_changed,
                    Err(_) => false,
                };
                (
                    UdpDetection { phase: UdpPhase::Test3 { first, test2_valid: valid }, ..d },
                    UdpAction::Bind { socket: UdpSocketChoice::Primary, server: s1, change_ip: false, change_port: true },
                )
            },
            (UdpPhase::Test3 { first, test2_valid }, UdpEvent::Bound(r)) => {
                let mapped = first.mapped_socket_addr.unwrap();
                if first.local_addr == mapped {
                    if test2_valid {
                        (done, UdpAction::Finish(Ok(NatType::OpenInternet)))
                    } else {
                        (done, UdpAction::Finish(Ok(NatType::SymUdpFirewall)))
                    }
                } else if test2_valid {
                    (done, UdpAction::Finish(Ok(NatType::FullCone)))
                } else {
                    (
                        UdpDetection { phase: UdpPhase::FreePort { test3_ok: r.is_ok() }, ..d },
                        UdpAction::FindFreePort,
                    )
                }
            },
            (UdpPhase::FreePort { test3_ok }, UdpEvent::FreePort(Ok(p))) => (
                UdpDetection { phase: UdpPhase::PortMapping { test3_ok, local_port: p }, ..d },
                UdpAction::OpenPortMapping { local_port: p },
            ),
            (UdpPhase::PortMapping { test3_ok, local_port }, UdpEvent::PortMapping(lease)) => {
                match lease {
                    Some(_) => (
                        UdpDetection { phase: UdpPhase::MappedSocket { test3_ok }, ..d },
                        UdpAction::OpenMappedSocket { local_port },
                    ),
                    None => (done, UdpAction::Finish(Ok(fallback(test3_ok)))),
                }
            },
            (UdpPhase::MappedSocket { test3_ok }, UdpEvent::SocketOpened(Ok(()))) => (
                UdpDetection { phase: UdpPhase::MappedTest1 { test3_ok }, ..d },
                UdpAction::Bind { socket: UdpSocketChoice::Mapped, server: s0, change_ip: false, change_port: false },
            ),
            (UdpPhase::MappedTest1 { test3_ok }, UdpEvent::Bound(r)) => {
                let test1 = match r {
                    Ok(x) => Some(x),
                    Err(_) => None,
                };
                (
                    UdpDetection { phase: UdpPhase::MappedTest2 { test3_ok, test1 }, ..d },
                    UdpAction::Bind { socket: UdpSocketChoice::Mapped, server: s0, change_ip: true, change_port: true },
                )
            },
            (UdpPhase::MappedTest2 { test3_ok, test1 }, UdpEvent::Bound(r)) => {
                if test1.is_some() && r.is_ok() {
                    (done, UdpAction::Finish(Ok(NatType::FullCone)))
                } else {
                    (done, UdpAction::Finish(Ok(fallback(test3_ok))))
                }
            },
            (_, UdpEvent::SocketOpened(Err(e))) => (done, UdpAction::Finish(Err(e))),
            (_, UdpEvent::Bound(Err(e))) => (done, UdpAction::Finish(Err(e))),
            (_, UdpEvent::FreePort(Err(e))) => (done, UdpAction::Finish(Err(e))),
            // events the detection cannot take (see `udp_admissible`)
        _ => (d, UdpAction::Finish(Err(DetectError::NotEnoughUdpServers))),
        }
    }
}

fn fallback(test3_ok: bool) -> (t: NatType)
    ensures
        t == spec_fallback(test3_ok),
{
    if test3_ok {
        NatType::Restricted
    } else {
        NatType::PortRestricted
    }
}


/// What a driver observes in a whole UDP detection: the outcome of each
/// action the detection may ask for, in the order it asks.
pub struct UdpObservations {
    pub primary_socket: Result<(), DetectError>,
    pub test1_first: Result<BindRequestResponse, DetectError>,
    pub test1_second: Result<BindRequestResponse, DetectError>,
    pub test2: Result<BindRequestResponse, DetectError>,
    pub test3: Result<BindRequestResponse, DetectError>,
    pub free_port: Result<u16, DetectError>,
    pub port_mapping: Option<UpnpPortMappingLease>,
    pub mapped_socket: Result<(), DetectError>,
    pub mapped_test1: Result<BindRequestResponse, DetectError>,
    pub mapped_test2: Result<BindRequestResponse, DetectError>,
}

/// The observation that answers the action a phase waits on.
pub open spec fn udp_response(phase: UdpPhase, o: UdpObservations) -> UdpEvent {
    match phase {
        UdpPhase::Start => UdpEvent::SocketOpened(o.primary_socket),
        UdpPhase::Test1First => UdpEvent::Bound(o.test1_first),
        UdpPhase::Test1Second { .. } => UdpEvent::Bound(o.test1_second),
        UdpPhase::Test2 { .. } => UdpEvent::Bound(o.test2),
        UdpPhase::Test3 { .. } => UdpEvent::Bound(o.test3),
        UdpPhase::FreePort { .. } => UdpEvent::FreePort(o.free_port),
        UdpPhase::PortMapping { .. } => UdpEvent::PortMapping(o.port_mapping),
        UdpPhase::MappedSocket { .. } => UdpEvent::SocketOpened(o.mapped_socket),
        UdpPhase::MappedTest1 { .. } => UdpEvent::Bound(o.mapped_test1),
        UdpPhase::MappedTest2 { .. } => UdpEvent::Bound(o.mapped_test2),
        UdpPhase::Done => UdpEvent::Bound(o.test1_first),
    }
}

/// Drives the detection with the observations for at most `fuel + 1` steps:
/// the last action asked for, or `None` if a step could not be taken.
pub open spec fn udp_run(d: UdpDetection, o: UdpObservations, fuel: nat) -> Option<UdpAction>
    decreases fuel,
{
    let ev = udp_response(d.phase, o);
    if !udp_admissible(d, ev) {
        None
    } else {
        let r = udp_next(d, ev);
        if fuel == 0 || r.1 is Finish {
            Some(r.1)
        } else {
            udp_run(r.0, o, (fuel - 1) as nat)
        }
    }
}

/// The verdict of the UDP test on what was observed, `None` where a reply
/// whose mapped address the verdict reads carries none:
/// - any failure before test 2 ends the test with that failure;
/// - different mapped addresses for the two servers mean a symmetric NAT;
/// - a mapped address equal to the local one means no NAT: open internet when
///   test 2 (reply from another IP and port) worked, else a symmetric UDP firewall;
/// - a working test 2 means a full cone;
/// - otherwise a mapped port is tried: a reply to both tests through it means
///   a full cone; failing that, a reply to test 3 means restricted, none port
///   restricted. Failing to find a free port or to bind the mapped one ends the
///   test with that failure.
pub open spec fn udp_verdict(o: UdpObservations) -> Option<Result<NatType, DetectError>> {
    match (o.primary_socket, o.test1_first, o.test1_second) {
        (Err(e), _, _) => Some(Err(e)),
        (Ok(_), Err(e), _) => Some(Err(e)),
        (Ok(_), Ok(_), Err(e)) => Some(Err(e)),
        (Ok(_), Ok(first), Ok(second)) => {
            if first.mapped_socket_addr != second.mapped_socket_addr {
                Some(Ok(NatType::Symmetric))
            } else if first.mapped_socket_addr is None {
                None
            } else {
                let valid = spec_test2_valid(o.test2);
                let fallback = spec_fallback(o.test3 is Ok);
                if first.local_addr == first.mapped_socket_addr.unwrap() {
                    Some(Ok(if valid { NatType::OpenInternet } else { NatType::SymUdpFirewall }))
                } else if valid {
                    Some(Ok(NatType::FullCone))
                } else {
                    match (o.free_port, o.port_mapping, o.mapped_socket) {
                        (Err(e), _, _) => Some(Err(e)),
                        (Ok(_), None, _) => Some(Ok(fallback)),
                        (Ok(_), Some(_), Err(e)) => Some(Err(e)),
                        (Ok(_), Some(_), Ok(_)) => match o.mapped_test1 {
                            Ok(r) => if r.mapped_socket_addr is None {
                                None
                            } else if o.mapped_test2 is Ok {
                                Some(Ok(NatType::FullCone))
                            } else {
                                Some(Ok(fallback))
                            },
                            Err(_) => Some(Ok(fallback)),
                        },
                    }
                }
            }
        },
    }
}

/// Every Binding request the UDP detection asks for goes where the RFC 3489
/// procedure prescribes for the test it starts, and a step never changes the
/// two servers:
/// - test 1, first request: primary socket, first server, no change flags;
/// - test 1, second request: primary socket, second server, no change flags;
/// - test 2: primary socket, second server, change IP and port;
/// - test 3: primary socket, second server, change port only;
/// - test 1 through the mapped port: mapped socket, first server, no flags;
/// - test 2 through the mapped port: mapped socket, first server, change IP and port.
pub proof fn lemma_udp_bind_targets(d: UdpDetection, ev: UdpEvent)
    requires
        udp_admissible(d, ev),
    ensures
        ({
            let (d2, a) = udp_next(d, ev);
            &&& d2.first_server == d.first_server
            &&& d2.second_server == d.second_server
            &&& a matches UdpAction::Bind { socket, server, change_ip, change_port } ==> match d2.phase {
                UdpPhase::Test1First => socket == UdpSocketChoice::Primary && server == d.first_server
                    && !change_ip && !change_port,
                UdpPhase::Test1Second { .. } => socket == UdpSocketChoice::Primary && server
                    == d.second_server && !change_ip && !change_port,
                UdpPhase::Test2 { .. } => socket == UdpSocketChoice::Primary && server == d.second_server
                    && change_ip && change_port,
                UdpPhase::Test3 { .. } => socket == UdpSocketChoice::Primary && server == d.second_server
                    && !change_ip && change_port,
                UdpPhase::MappedTest1 { .. } => socket == UdpSocketChoice::Mapped && server
                    == d.first_server && !change_ip && !change_port,
                UdpPhase::MappedTest2 { .. } => socket == UdpSocketChoice::Mapped && server
                    == d.first_server && change_ip && change_port,
                _ => false,
            }
        }),
{
}

/// The two test 1 requests go to two different servers: once the first
/// server answered test 1, the next request is test 1 again, on the primary
/// socket, without change flags, to the second server; when that reply
/// reports another mapped address than the first, the NAT is symmetric.
pub proof fn lemma_udp_test1_asks_both_servers(d: UdpDetection, first: BindRequestResponse, second: BindRequestResponse)
    requires
        d.phase is Test1First,
    ensures
        ({
            let (d2, a) = udp_next(d, UdpEvent::Bound(Ok(first)));
            &&& a == (UdpAction::Bind {
                socket: UdpSocketChoice::Primary,
                server: d.second_server,
                change_ip: false,
                change_port: false,
            })
            &&& first.mapped_socket_addr != second.mapped_socket_addr ==> udp_next(
                d2,
                UdpEvent::Bound(Ok(second)),
            ).1 == UdpAction::Finish(Ok(NatType::Symmetric))
        }),
{
}

/// With fewer than two servers the UDP detection ends at once with
/// `NotEnoughUdpServers`. With two or more, driving it with any observations
/// ends, within ten steps, in the verdict [`udp_verdict`] gives for them; where
/// the verdict is `None`, the detection stops at a step it cannot take.
#[verifier::rlimit(50)]
pub proof fn lemma_udp_detection_outcome(n: nat, s0: SocketAddress, s1: SocketAddress, o: UdpObservations)
    ensures
        n < 2 ==> udp_begin(n, s0, s1).1 == UdpAction::Finish(Err(DetectError::NotEnoughUdpServers)),
        n >= 2 ==> udp_begin(n, s0, s1).1 is OpenPrimarySocket,
        n >= 2 ==> udp_run(udp_begin(n, s0, s1).0, o, 9) == match udp_verdict(o) {
            Some(v) => Some(UdpAction::Finish(v)),
            None => None,
        },
{
    reveal_with_fuel(udp_run, 10);
}

} // verus!
