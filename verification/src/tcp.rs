use vstd::prelude::*;

use crate::addr::SocketAddress;
use crate::error::DetectError;
use crate::nat_type::NatType;
use crate::upnp::UpnpPortMappingLease;

verus! {

/// How many servers the cone test asks at most.
pub const CONE_TEST_SERVERS: usize = 3;

/// What the TCP detection asks its driver to do next.
#[derive(Debug)]
pub enum TcpAction {
    /// Find a free local port; answer with `FreePort`. `announce` is the
    /// verdict of the cone test when the port is for the port mapping test.
    FindFreePort { announce: Option<NatType> },
    /// Connect from `local_port` to the STUN server and run a Binding request
    /// over the connection; answer with `Probed`. With `keep_open` the
    /// connection stays open until the next port or connection is asked for,
    /// or the detection ends.
    Probe { server: SocketAddress, local_port: u16, keep_open: bool },
    /// Ask the port check service whether `port` is reachable from outside;
    /// answer with `Reachable`.
    CheckReachable { port: u16 },
    /// Ask the gateway to map the TCP port; answer with `PortMapping`.
    OpenPortMapping { local_port: u16 },
    /// Listen on `0.0.0.0:local_port` (address reuse on) until the next check
    /// is done; answer with `Listening`.
    Listen { local_port: u16 },
    /// The detection is over.
    Finish(Result<NatType, DetectError>),
}

/// What the driver observed when it carried out the last action.
#[derive(Debug)]
pub enum TcpEvent {
    FreePort(Result<u16, DetectError>),
    /// The local address of the connection and the mapped address the server
    /// reported.
    Probed(Result<(SocketAddress, SocketAddress), DetectError>),
    Reachable(Result<bool, DetectError>),
    PortMapping(Option<UpnpPortMappingLease>),
    Listening(Result<(), DetectError>),
}

/// Where the TCP detection stands.
#[derive(Debug, Clone, Copy)]
pub enum TcpPhase {
    /// Waiting for the port of the full cone test.
    FullConePort,
    /// Asking server `index` from `port` for the full cone test.
    FullConeProbe { port: u16, index: usize },
    /// Waiting for the port check of the full cone test.
    FullConeCheck,
    /// Waiting for the port of the cone test.
    ConePort,
    /// Asking server `index` from `port` for the cone test; `first` is the
    /// first mapped address seen, `count` the replies that agreed with it.
    ConeProbe { port: u16, index: usize, first: Option<SocketAddress>, count: usize },
    /// Waiting for the port of the port mapping test; `cone` is the verdict so far.
    MappingPort { cone: NatType },
    MappingRequest { cone: NatType, port: u16 },
    MappingProbe { cone: NatType, port: u16, index: usize },
    MappingListen { cone: NatType, public_port: u16 },
    MappingCheck { cone: NatType },
    Done,
}

/// The TCP detection against a list of STUN servers.
#[derive(Debug)]
pub struct TcpDetection {
    pub servers: Vec<SocketAddress>,
    pub phase: TcpPhase,
}

/// The verdict of the cone test once its probes are over.
pub open spec fn spec_cone_verdict(count: usize) -> NatType {
    if count >= 3 {
        NatType::PortRestricted
    } else {
        NatType::Unknown
    }
}

pub open spec fn cone_limit(n: nat) -> nat {
    if n < 3 {
        n
    } else {
        3
    }
}

pub open spec fn tcp_begin(servers: Seq<SocketAddress>) -> TcpPhase {
    if servers.len() == 0 {
        TcpPhase::Done
    } else {
        TcpPhase::FullConePort
    }
}

/// Whether the detection can take `ev` now: it is not over, the event answers
/// the action asked for, and the server it stands at exists.
pub open spec fn tcp_admissible(servers: Seq<SocketAddress>, phase: TcpPhase, ev: TcpEvent) -> bool {
    match phase {
        TcpPhase::FullConePort => ev is FreePort && servers.len() > 0,
        TcpPhase::FullConeProbe { index, .. } => ev is Probed && index < servers.len(),
        TcpPhase::FullConeCheck => ev is Reachable,
        TcpPhase::ConePort => ev is FreePort && servers.len() > 0,
        TcpPhase::ConeProbe { index, count, .. } => ev is Probed && index < cone_limit(servers.len())
            && count <= index,
        TcpPhase::MappingPort { .. } => ev is FreePort,
        TcpPhase::MappingRequest { .. } => ev is PortMapping && servers.len() > 0,
        TcpPhase::MappingProbe { index, .. } => ev is Probed && index < servers.len(),
        TcpPhase::MappingListen { .. } => ev is Listening,
        TcpPhase::MappingCheck { .. } => ev is Reachable,
        TcpPhase::Done => false,
    }
}

pub open spec fn probe(server: SocketAddress, port: u16, keep_open: bool) -> TcpAction {
    TcpAction::Probe { server, local_port: port, keep_open }
}

/// The phase after a cone probe whose reply was `r`.
pub open spec fn cone_after(
    servers: Seq<SocketAddress>,
    port: u16,
    index: usize,
    first: Option<SocketAddress>,
    count: usize,
    r: Result<(SocketAddress, SocketAddress), DetectError>,
) -> (TcpPhase, TcpAction) {
    let (first2, count2, mismatch) = match r {
        Ok((_, mapped)) => match first {
            Some(f) => if mapped != f {
                (first, count, true)
            } else {
                (first, (count + 1) as usize, false)
            },
            None => (Some(mapped), (count + 1) as usize, false),
        },
        Err(_) => (first, count, false),
    };
    if mismatch {
        (
            TcpPhase::MappingPort { cone: NatType::Symmetric },
            TcpAction::FindFreePort { announce: Some(NatType::Symmetric) },
        )
    } else if index + 1 < cone_limit(servers.len()) {
        (
            TcpPhase::ConeProbe { port, index: (index + 1) as usize, first: first2, count: count2 },
            probe(servers[index + 1], port, false),
        )
    } else {
        (
            TcpPhase::MappingPort { cone: spec_cone_verdict(count2) },
            TcpAction::FindFreePort { announce: Some(spec_cone_verdict(count2)) },
        )
    }
}

/// One step of the TCP detection.
pub open spec fn tcp_next(servers: Seq<SocketAddress>, phase: TcpPhase, ev: TcpEvent) -> (
    TcpPhase,
    TcpAction,
) {
    match (phase, ev) {
        (TcpPhase::FullConePort, TcpEvent::FreePort(Ok(p))) => (
            TcpPhase::FullConeProbe { port: p, index: 0 },
            probe(servers[0], p, true),
        ),
        (TcpPhase::FullConeProbe { port, index }, TcpEvent::Probed(r)) => match r {
            Ok((local, mapped)) => if local == mapped {
                (TcpPhase::Done, TcpAction::Finish(Ok(NatType::OpenInternet)))
            } else {
                (TcpPhase::FullConeCheck, TcpAction::CheckReachable { port: mapped.port })
            },
            Err(_) => if index + 1 < servers.len() {
                (
                    TcpPhase::FullConeProbe { port, index: (index + 1) as usize },
                    probe(servers[index + 1], port, true),
                )
            } else {
                (TcpPhase::Done, TcpAction::Finish(Err(DetectError::NoAvailableStunServer)))
            },
        },
        (TcpPhase::FullConeCheck, TcpEvent::Reachable(Ok(reachable))) => if reachable {
            (TcpPhase::Done, TcpAction::Finish(Ok(NatType::FullCone)))
        } else {
            (TcpPhase::ConePort, TcpAction::FindFreePort { announce: None })
        },
        (TcpPhase::ConePort, TcpEvent::FreePort(Ok(p))) => (
            TcpPhase::ConeProbe { port: p, index: 0, first: None, count: 0 },
            probe(servers[0], p, false),
        ),
        (TcpPhase::ConeProbe { port, index, first, count }, TcpEvent::Probed(r)) => cone_after(
            servers,
            port,
            index,
            first,
            count,
            r,
        ),
        (TcpPhase::MappingPort { cone }, TcpEvent::FreePort(Ok(p))) => (
            TcpPhase::MappingRequest { cone, port: p },
            TcpAction::OpenPortMapping { local_port: p },
        ),
        (TcpPhase::MappingRequest { cone, port }, TcpEvent::PortMapping(lease)) => match lease {
            Some(_) => (TcpPhase::MappingProbe { cone, port, index: 0 }, probe(servers[0], port, true)),
            None => (TcpPhase::Done, TcpAction::Finish(Ok(cone))),
        },
        (TcpPhase::MappingProbe { cone, port, index }, TcpEvent::Probed(r)) => match r {
            Ok((_, mapped)) => (
                TcpPhase::MappingListen { cone, public_port: mapped.port },
                TcpAction::Listen { local_port: port },
            ),
            Err(_) => if index + 1 < servers.len() {
                (
                    TcpPhase::MappingProbe { cone, port, index: (index + 1) as usize },
                    probe(servers[index + 1], port, true),
                )
            } else {
                (TcpPhase::Done, TcpAction::Finish(Ok(cone)))
            },
        },
        (TcpPhase::MappingListen { cone, public_port }, TcpEvent::Listening(Ok(()))) => (
            TcpPhase::MappingCheck { cone },
            TcpAction::CheckReachable { port: public_port },
        ),
        (TcpPhase::MappingCheck { cone }, TcpEvent::Reachable(Ok(reachable))) => if reachable {
            (TcpPhase::Done, TcpAction::Finish(Ok(NatType::FullCone)))
        } else {
            (TcpPhase::Done, TcpAction::Finish(Ok(cone)))
        },
        (_, TcpEvent::FreePort(Err(e))) => (TcpPhase::Done, TcpAction::Finish(Err(e))),
        (_, TcpEvent::Reachable(Err(e))) => (TcpPhase::Done, TcpAction::Finish(Err(e))),
        (_, TcpEvent::Listening(Err(e))) => (TcpPhase::Done, TcpAction::Finish(Err(e))),
        // events the detection cannot take (see `tcp_admissible`)
        _ => (phase, TcpAction::Finish(Err(DetectError::NoTcpServer))),
    }
}

impl TcpDetection {
    /// Starts the detection against `servers`; it needs one of them.
    pub fn begin(servers: Vec<SocketAddress>) -> (r: (TcpDetection, TcpAction))
        ensures
            r.0.servers@ == servers@,
            r.0.phase == tcp_begin(servers@),
            servers@.len() == 0 ==> (r.1 matches TcpAction::Finish(Err(e)) && e is NoTcpServer),
            servers@.len() > 0 ==> r.1 == (TcpAction::FindFreePort { announce: None }),
    {
        if servers.len() == 0 {
            (
                TcpDetection { servers, phase: TcpPhase::Done },
                TcpAction::Finish(Err(DetectError::NoTcpServer)),
            )
        } else {
            (
                TcpDetection { servers, phase: TcpPhase::FullConePort },
                TcpAction::FindFreePort { announce: None },
            )
        }
    }

    /// Whether the detection can take `ev` now; see [`tcp_admissible`].
    pub fn admits(&self, ev: &TcpEvent) -> (b: bool)
        ensures
            b == tcp_admissible(self.servers@, self.phase, *ev),
    {
        let n = self.servers.len();
        let limit = if n < CONE_TEST_SERVERS { n } else { CONE_TEST_SERVERS };
        match self.phase {
            TcpPhase::FullConePort => matches!(ev, TcpEvent::FreePort(_)) && n > 0,
            TcpPhase::FullConeProbe { index, .. } => matches!(ev, TcpEvent::Probed(_)) && index < n,
            TcpPhase::FullConeCheck => matches!(ev, TcpEvent::Reachable(_)),
            TcpPhase::ConePort => matches!(ev, TcpEvent::FreePort(_)) && n > 0,
            TcpPhase::ConeProbe { index, count, .. } => matches!(ev, TcpEvent::Probed(_)) && index
                < limit && count <= index,
            TcpPhase::MappingPort { .. } => matches!(ev, TcpEvent::FreePort(_)),
            TcpPhase::MappingRequest { .. } => matches!(ev, TcpEvent::PortMapping(_)) && n > 0,
            TcpPhase::MappingProbe { index, .. } => matches!(ev, TcpEvent::Probed(_)) && index < n,
            TcpPhase::MappingListen { .. } => matches!(ev, TcpEvent::Listening(_)),
            TcpPhase::MappingCheck { .. } => matches!(ev, TcpEvent::Reachable(_)),
            TcpPhase::Done => false,
        }
    }

    /// Takes what the driver observed and says what to do next.
    pub fn step(self, ev: TcpEvent) -> (r: (TcpDetection, TcpAction))
        requires
            tcp_admissible(self.servers@, self.phase, ev),
        ensures
            r.0.servers@ == self.servers@,
            (r.0.phase, r.1) == tcp_next(self.servers@, self.phase, ev),
    {
        let servers = self.servers;
        let n = servers.len();
        let (phase, action) = match (self.phase, ev) {
            (TcpPhase::FullConePort, TcpEvent::FreePort(Ok(p))) => (
                TcpPhase::FullConeProbe { port: p, index: 0 },
                TcpAction::Probe { server: servers[0], local_port: p, keep_open: true },
            ),
            (TcpPhase::FullConeProbe { port, index }, TcpEvent::Probed(r)) => match r {
                Ok((local, mapped)) => {
                    if local == mapped {
                        (TcpPhase::Done, TcpAction::Finish(Ok(NatType::OpenInternet)))
                    } else {
                        (TcpPhase::FullConeCheck, TcpAction::CheckReachable { port: mapped.port })
                    }
                },
                Err(_) => {
                    if index + 1 < n {
                        (
                            TcpPhase::FullConeProbe { port, index: index + 1 },
                            TcpAction::Probe { server: servers[index + 1], local_port: port, keep_open: true },
                        )
                    } else {
                        (TcpPhase::Done, TcpAction::Finish(Err(DetectError::NoAvailableStunServer)))
                    }
                },
            },
            (TcpPhase::FullConeCheck, TcpEvent::Reachable(Ok(reachable))) => {
                if reachable {
                    (TcpPhase::Done, TcpAction::Finish(Ok(NatType::FullCone)))
                } else {
                    (TcpPhase::ConePort, TcpAction::FindFreePort { announce: None })
                }
            },
            (TcpPhase::ConePort, TcpEvent::FreePort(Ok(p))) => (
                TcpPhase::ConeProbe { port: p, index: 0, first: None, count: 0 },
                TcpAction::Probe { server: servers[0], local_port: p, keep_open: false },
            ),
            (TcpPhase::ConeProbe { port, index, first, count }, TcpEvent::Probed(r)) => {
                let limit = if n < CONE_TEST_SERVERS { n } else { CONE_TEST_SERVERS };
                let mut first2 = first;
                let mut count2 = count;
                let mut mismatch = false;
                match r {
                    Ok((_, mapped)) => match first {
                        Some(f) => {
                            if mapped != f {
                                mismatch = true;
                            } else {
                                count2 = count + 1;
                            }
                        },
                        None => {
                            first2 = Some(mapped);
                            count2 = count + 1;
                        },
                    },
                    Err(_) => {},
                }
                if mismatch {
                    (
                        TcpPhase::MappingPort { cone: NatType::Symmetric },
                        TcpAction::FindFreePort { announce: Some(NatType::Symmetric) },
                    )
                } else if index + 1 < limit {
                    (
                        TcpPhase::ConeProbe { port, index: index + 1, first: first2, count: count2 },
                        TcpAction::Probe { server: servers[index + 1], local_port: port, keep_open: false },
                    )
                } else {
                    let cone = cone_verdict(count2);
                    (TcpPhase::MappingPort { cone }, TcpAction::FindFreePort { announce: Some(cone) })
                }
            },
            (TcpPhase::MappingPort { cone }, TcpEvent::FreePort(Ok(p))) => (
                TcpPhase::MappingRequest { cone, port: p },
                TcpAction::OpenPortMapping { local_port: p },
            ),
            (TcpPhase::MappingRequest { cone, port }, TcpEvent::PortMapping(lease)) => match lease {
                Some(_) => (
                    TcpPhase::MappingProbe { cone, port, index: 0 },
                    TcpAction::Probe { server: servers[0], local_port: port, keep_open: true },
                ),
                None => (TcpPhase::Done, TcpAction::Finish(Ok(cone))),
            },
            (TcpPhase::MappingProbe { cone, port, index }, TcpEvent::Probed(r)) => match r {
                Ok((_, mapped)) => (
                    TcpPhase::MappingListen { cone, public_port: mapped.port },
                    TcpAction::Listen { local_port: port },
                ),
                Err(_) => {
                    if index + 1 < n {
                        (
                            TcpPhase::MappingProbe { cone, port, index: index + 1 },
                            TcpAction::Probe { server: servers[index + 1], local_port: port, keep_open: true },
                        )
                    } else {
                        (TcpPhase::Done, TcpAction::Finish(Ok(cone)))
                    }
                },
            },
            (TcpPhase::MappingListen { cone, public_port }, TcpEvent::Listening(Ok(()))) => (
                TcpPhase::MappingCheck { cone },
                TcpAction::CheckReachable { port: public_port },
            ),
            (TcpPhase::MappingCheck { cone }, TcpEvent::Reachable(Ok(reachable))) => {
                if reachable {
                    (TcpPhase::Done, TcpAction::Finish(Ok(NatType::FullCone)))
                } else {
                    (TcpPhase::Done, TcpAction::Finish(Ok(cone)))
                }
            },
            (_, TcpEvent::FreePort(Err(e))) => (TcpPhase::Done, TcpAction::Finish(Err(e))),
            (_, TcpEvent::Reachable(Err(e))) => (TcpPhase::Done, TcpAction::Finish(Err(e))),
            (_, TcpEvent::Listening(Err(e))) => (TcpPhase::Done, TcpAction::Finish(Err(e))),
            // excluded by the precondition
            (phase, _) => (phase, TcpAction::Finish(Err(DetectError::NoTcpServer))),
        };
        (TcpDetection { servers, phase }, action)
    }
}

fn cone_verdict(count: usize) -> (t: NatType)
    ensures
        t == spec_cone_verdict(count),
{
    if count >= 3 {
        NatType::PortRestricted
    } else {
        NatType::Unknown
    }
}


/// Every connection the TCP detection asks for goes to the server its phase
/// stands at, from the local port of that phase: the probe of index `i` goes
/// to `servers[i]`. The full cone test and the port mapping test keep the
/// connection open for the check that follows; the cone test does not.
pub proof fn lemma_tcp_probe_targets(servers: Seq<SocketAddress>, phase: TcpPhase, ev: TcpEvent)
    requires
        tcp_admissible(servers, phase, ev),
        servers.len() <= usize::MAX,
    ensures
        ({
            let (p2, a) = tcp_next(servers, phase, ev);
            a matches TcpAction::Probe { server, local_port, keep_open } ==> match p2 {
                TcpPhase::FullConeProbe { port, index } => index < servers.len() && server
                    == servers[index as int] && local_port == port && keep_open,
                TcpPhase::ConeProbe { port, index, .. } => index < servers.len() && server
                    == servers[index as int] && local_port == port && !keep_open,
                TcpPhase::MappingProbe { port, index, .. } => index < servers.len() && server
                    == servers[index as int] && local_port == port && keep_open,
                _ => false,
            }
        }),
{
}

/// The servers are tried in list order. Each test starts at the first server
/// with the port it was given; after a failed connection to server `i` the
/// next one goes to server `i + 1` from the same port, as long as the test has
/// servers left (all of them, or the first three for the cone test); past the
/// last one the full cone test fails with `NoAvailableStunServer`, the cone
/// test gives its verdict, and the port mapping test keeps the cone verdict.
pub proof fn lemma_tcp_servers_in_turn(servers: Seq<SocketAddress>, phase: TcpPhase, ev: TcpEvent)
    requires
        tcp_admissible(servers, phase, ev),
        servers.len() <= usize::MAX,
    ensures
        ({
            let (p2, a) = tcp_next(servers, phase, ev);
            &&& ev matches TcpEvent::FreePort(Ok(p)) ==> match phase {
                TcpPhase::FullConePort => a == probe(servers[0], p, true),
                TcpPhase::ConePort => a == probe(servers[0], p, false),
                _ => true,
            }
            &&& phase matches TcpPhase::MappingRequest { port, .. } ==> (ev matches TcpEvent::PortMapping(
                Some(_),
            ) ==> a == probe(servers[0], port, true))
            &&& ev matches TcpEvent::Probed(Err(_)) ==> match phase {
                TcpPhase::FullConeProbe { port, index } => if index + 1 < servers.len() {
                    p2 == (TcpPhase::FullConeProbe { port, index: (index + 1) as usize })
                        && a == probe(servers[index + 1], port, true)
                } else {
                    a == TcpAction::Finish(Err(DetectError::NoAvailableStunServer))
                },
                TcpPhase::ConeProbe { port, index, first, count } => if index + 1 < cone_limit(
                    servers.len(),
                ) {
                    p2 == (TcpPhase::ConeProbe { port, index: (index + 1) as usize, first, count })
                        && a == probe(servers[index + 1], port, false)
                } else {
                    a == (TcpAction::FindFreePort { announce: Some(spec_cone_verdict(count)) })
                },
                TcpPhase::MappingProbe { cone, port, index } => if index + 1 < servers.len() {
                    p2 == (TcpPhase::MappingProbe { cone, port, index: (index + 1) as usize })
                        && a == probe(servers[index + 1], port, true)
                } else {
                    a == TcpAction::Finish(Ok(cone))
                },
                _ => true,
            }
        }),
{
}

/// The port checked for reachability is the public port the STUN server
/// reported. In the full cone test, a reply whose mapped address differs from
/// the local one leads to checking that mapped address's port. In the port
/// mapping test, a reply through the mapped local port leads to listening on
/// that local port, and then to checking the reported mapped port; a
/// reachable port then means a full cone.
pub proof fn lemma_tcp_checks_reported_port(
    servers: Seq<SocketAddress>,
    cone: NatType,
    port: u16,
    index: usize,
    local: SocketAddress,
    mapped: SocketAddress,
)
    requires
        index < servers.len(),
    ensures
        ({
            let (p1, a1) = tcp_next(
                servers,
                TcpPhase::FullConeProbe { port, index },
                TcpEvent::Probed(Ok((local, mapped))),
            );
            &&& local == mapped ==> a1 == TcpAction::Finish(Ok(NatType::OpenInternet))
            &&& local != mapped ==> a1 == (TcpAction::CheckReachable { port: mapped.port })
            &&& local != mapped ==> tcp_next(servers, p1, TcpEvent::Reachable(Ok(true))).1
                == TcpAction::Finish(Ok(NatType::FullCone))
        }),
        ({
            let (p1, a1) = tcp_next(
                servers,
                TcpPhase::MappingProbe { cone, port, index },
                TcpEvent::Probed(Ok((local, mapped))),
            );
            let (p2, a2) = tcp_next(servers, p1, TcpEvent::Listening(Ok(())));
            &&& a1 == (TcpAction::Listen { local_port: port })
            &&& tcp_admissible(servers, p1, TcpEvent::Listening(Ok(())))
            &&& a2 == (TcpAction::CheckReachable { port: mapped.port })
            &&& tcp_admissible(servers, p2, TcpEvent::Reachable(Ok(true)))
            &&& tcp_next(servers, p2, TcpEvent::Reachable(Ok(true))).1 == TcpAction::Finish(
                Ok(NatType::FullCone),
            )
            &&& tcp_next(servers, p2, TcpEvent::Reachable(Ok(false))).1 == TcpAction::Finish(Ok(cone))
        }),
{
}

/// What one connection of the TCP test gave: the local address of the
/// connection and the mapped address the server reported.
pub type ProbeResult = Result<(SocketAddress, SocketAddress), DetectError>;

/// What a driver observes in a whole TCP detection: the outcome of each action
/// the detection may ask for, one entry per server where it asks servers in turn.
pub struct TcpObservations {
    pub full_cone_port: Result<u16, DetectError>,
    pub full_cone_probes: Seq<ProbeResult>,
    pub full_cone_reachable: Result<bool, DetectError>,
    pub cone_port: Result<u16, DetectError>,
    pub cone_probes: Seq<ProbeResult>,
    pub mapping_port: Result<u16, DetectError>,
    pub port_mapping: Option<UpnpPortMappingLease>,
    pub mapping_probes: Seq<ProbeResult>,
    pub listening: Result<(), DetectError>,
    pub mapping_reachable: Result<bool, DetectError>,
}

/// The observation that answers the action a phase waits on.
pub open spec fn tcp_response(phase: TcpPhase, o: TcpObservations) -> TcpEvent {
    match phase {
        TcpPhase::FullConePort => TcpEvent::FreePort(o.full_cone_port),
        TcpPhase::FullConeProbe { index, .. } => TcpEvent::Probed(o.full_cone_probes[index as int]),
        TcpPhase::FullConeCheck => TcpEvent::Reachable(o.full_cone_reachable),
        TcpPhase::ConePort => TcpEvent::FreePort(o.cone_port),
        TcpPhase::ConeProbe { index, .. } => TcpEvent::Probed(o.cone_probes[index as int]),
        TcpPhase::MappingPort { .. } => TcpEvent::FreePort(o.mapping_port),
        TcpPhase::MappingRequest { .. } => TcpEvent::PortMapping(o.port_mapping),
        TcpPhase::MappingProbe { index, .. } => TcpEvent::Probed(o.mapping_probes[index as int]),
        TcpPhase::MappingListen { .. } => TcpEvent::Listening(o.listening),
        TcpPhase::MappingCheck { .. } => TcpEvent::Reachable(o.mapping_reachable),
        TcpPhase::Done => TcpEvent::FreePort(o.full_cone_port),
    }
}

/// Drives the detection with the observations for at most `fuel + 1` steps:
/// the last action asked for, or `None` if a step could not be taken.
pub open spec fn tcp_run(servers: Seq<SocketAddress>, phase: TcpPhase, o: TcpObservations, fuel: nat) -> Option<TcpAction>
    decreases fuel,
{
    let ev = tcp_response(phase, o);
    if !tcp_admissible(servers, phase, ev) {
        None
    } else {
        let r = tcp_next(servers, phase, ev);
        if fuel == 0 || r.1 is Finish {
            Some(r.1)
        } else {
            tcp_run(servers, r.0, o, (fuel - 1) as nat)
        }
    }
}

/// The first answer among the connections to servers `i` to `n - 1`.
pub open spec fn first_answer(probes: Seq<ProbeResult>, n: nat, i: nat) -> Option<(SocketAddress, SocketAddress)>
    decreases n - i,
{
    if i >= n {
        None
    } else {
        match probes[i as int] {
            Ok(x) => Some(x),
            Err(_) => first_answer(probes, n, i + 1),
        }
    }
}

/// The cone test over connections `i` to `m - 1` from one local port:
/// symmetric as soon as a mapped address differs from the first one seen,
/// port restricted when three servers answered alike, else unknown.
pub open spec fn cone_scan(probes: Seq<ProbeResult>, m: nat, i: nat, first: Option<SocketAddress>, count: nat) -> NatType
    decreases m - i,
{
    if i >= m {
        if count >= 3 {
            NatType::PortRestricted
        } else {
            NatType::Unknown
        }
    } else {
        match probes[i as int] {
            Ok((_, mapped)) => match first {
                Some(f) => if mapped != f {
                    NatType::Symmetric
                } else {
                    cone_scan(probes, m, i + 1, first, count + 1)
                },
                None => cone_scan(probes, m, i + 1, Some(mapped), count + 1),
            },
            Err(_) => cone_scan(probes, m, i + 1, first, count),
        }
    }
}

/// The end of the port mapping test once a reply came: reachable means a full
/// cone, not reachable leaves `cone`.
pub open spec fn mapping_check_verdict(o: TcpObservations, cone: NatType) -> Result<NatType, DetectError> {
    match o.listening {
        Err(e) => Err(e),
        Ok(_) => match o.mapping_reachable {
            Err(e) => Err(e),
            Ok(reachable) => Ok(if reachable { NatType::FullCone } else { cone }),
        },
    }
}

/// The port mapping test: without a mapping, or without any server answering
/// through it, the verdict stays `cone`.
pub open spec fn mapping_verdict(o: TcpObservations, n: nat, cone: NatType) -> Result<NatType, DetectError> {
    match o.mapping_port {
        Err(e) => Err(e),
        Ok(_) => match o.port_mapping {
            None => Ok(cone),
            Some(_) => match first_answer(o.mapping_probes, n, 0) {
                None => Ok(cone),
                Some(_) => mapping_check_verdict(o, cone),
            },
        },
    }
}

/// The verdict of the full cone test once a server answered from `local` with
/// `mapped`: no NAT when they agree, a full cone when the mapped port is
/// reachable, else the cone test and the port mapping test decide.
pub open spec fn full_cone_answer_verdict(o: TcpObservations, n: nat, local: SocketAddress, mapped: SocketAddress) -> Result<NatType, DetectError> {
    if local == mapped {
        Ok(NatType::OpenInternet)
    } else {
        match o.full_cone_reachable {
            Err(e) => Err(e),
            Ok(true) => Ok(NatType::FullCone),
            Ok(false) => match o.cone_port {
                Err(e) => Err(e),
                Ok(_) => mapping_verdict(o, n, cone_scan(o.cone_probes, cone_limit(n), 0, None, 0)),
            },
        }
    }
}

/// The verdict of the TCP test on what was observed with `n` servers.
pub open spec fn tcp_verdict(o: TcpObservations, n: nat) -> Result<NatType, DetectError> {
    if n == 0 {
        Err(DetectError::NoTcpServer)
    } else {
        match o.full_cone_port {
            Err(e) => Err(e),
            Ok(_) => match first_answer(o.full_cone_probes, n, 0) {
                None => Err(DetectError::NoAvailableStunServer),
                Some((local, mapped)) => full_cone_answer_verdict(o, n, local, mapped),
            },
        }
    }
}

proof fn lemma_mapping_probes(servers: Seq<SocketAddress>, cone: NatType, port: u16, i: usize, o: TcpObservations, fuel: nat)
    requires
        i < servers.len() <= usize::MAX,
        fuel >= servers.len() - i + 2,
    ensures
        tcp_run(servers, TcpPhase::MappingProbe { cone, port, index: i }, o, fuel) == Some(
            TcpAction::Finish(
                match first_answer(o.mapping_probes, servers.len(), i as nat) {
                    None => Ok(cone),
                    Some(_) => mapping_check_verdict(o, cone),
                },
            ),
        ),
    decreases servers.len() - i,
{
    reveal_with_fuel(tcp_run, 3);
    reveal_with_fuel(first_answer, 2);
    if o.mapping_probes[i as int] is Err && i + 1 < servers.len() {
        lemma_mapping_probes(servers, cone, port, (i + 1) as usize, o, (fuel - 1) as nat);
    }
}

proof fn lemma_mapping_stage(servers: Seq<SocketAddress>, cone: NatType, o: TcpObservations, fuel: nat)
    requires
        0 < servers.len() <= usize::MAX,
        fuel >= servers.len() + 4,
    ensures
        tcp_run(servers, TcpPhase::MappingPort { cone }, o, fuel) == Some(
            TcpAction::Finish(mapping_verdict(o, servers.len(), cone)),
        ),
{
    reveal_with_fuel(tcp_run, 3);
    if let Ok(p) = o.mapping_port {
        if o.port_mapping is Some {
            lemma_mapping_probes(servers, cone, p, 0, o, (fuel - 2) as nat);
        }
    }
}

proof fn lemma_cone_probes(servers: Seq<SocketAddress>, port: u16, i: usize, first: Option<SocketAddress>, count: usize, o: TcpObservations, fuel: nat)
    requires
        0 < servers.len() <= usize::MAX,
        i < cone_limit(servers.len()),
        count <= i,
        fuel >= cone_limit(servers.len()) - i + servers.len() + 5,
    ensures
        tcp_run(servers, TcpPhase::ConeProbe { port, index: i, first, count }, o, fuel) == Some(
            TcpAction::Finish(
                mapping_verdict(o, servers.len(), cone_scan(o.cone_probes, cone_limit(servers.len()), i as nat, first, count as nat)),
            ),
        ),
    decreases cone_limit(servers.len()) - i,
{
    let n = servers.len();
    reveal_with_fuel(cone_scan, 2);
    let ev = tcp_response(TcpPhase::ConeProbe { port, index: i, first, count }, o);
    let r = tcp_next(servers, TcpPhase::ConeProbe { port, index: i, first, count }, ev);
    assert(tcp_run(servers, TcpPhase::ConeProbe { port, index: i, first, count }, o, fuel) == tcp_run(servers, r.0, o, (fuel - 1) as nat));
    match r.0 {
        TcpPhase::MappingPort { cone } => {
            lemma_mapping_stage(servers, cone, o, (fuel - 1) as nat);
        },
        TcpPhase::ConeProbe { port: p2, index: i2, first: f2, count: c2 } => {
            lemma_cone_probes(servers, p2, i2, f2, c2, o, (fuel - 1) as nat);
        },
        _ => {},
    }
}

proof fn lemma_full_cone_probes(servers: Seq<SocketAddress>, port: u16, i: usize, o: TcpObservations, fuel: nat)
    requires
        i < servers.len() <= usize::MAX,
        fuel >= servers.len() - i + 2 * servers.len() + 9,
    ensures
        tcp_run(servers, TcpPhase::FullConeProbe { port, index: i }, o, fuel) == Some(
            TcpAction::Finish(
                match first_answer(o.full_cone_probes, servers.len(), i as nat) {
                    None => Err(DetectError::NoAvailableStunServer),
                    Some((local, mapped)) => full_cone_answer_verdict(o, servers.len(), local, mapped),
                },
            ),
        ),
    decreases servers.len() - i,
{
    reveal_with_fuel(tcp_run, 4);
    reveal_with_fuel(first_answer, 2);
    match o.full_cone_probes[i as int] {
        Ok((local, mapped)) => {
            if local != mapped && o.full_cone_reachable == Ok::<bool, DetectError>(false) {
                if let Ok(p) = o.cone_port {
                    lemma_cone_probes(servers, p, 0, None, 0, o, (fuel - 3) as nat);
                }
            }
        },
        Err(_) => {
            if i + 1 < servers.len() {
                lemma_full_cone_probes(servers, port, (i + 1) as usize, o, (fuel - 1) as nat);
            }
        },
    }
}

/// With no server the TCP detection ends at once with `NoTcpServer`. With
/// `n` servers, driving it with any observations ends, within `3n + 10`
/// steps, in the verdict [`tcp_verdict`] gives for them.
pub proof fn lemma_tcp_detection_outcome(servers: Seq<SocketAddress>, o: TcpObservations)
    requires
        servers.len() <= usize::MAX,
    ensures
        servers.len() == 0 ==> tcp_begin(servers) is Done,
        servers.len() > 0 ==> tcp_run(servers, tcp_begin(servers), o, 3 * servers.len() + 10) == Some(
            TcpAction::Finish(tcp_verdict(o, servers.len())),
        ),
{
    if servers.len() > 0 {
        reveal_with_fuel(tcp_run, 2);
        if let Ok(p) = o.full_cone_port {
            lemma_full_cone_probes(servers, p, 0, o, (3 * servers.len() + 9) as nat);
        }
    }
}

} // verus!
