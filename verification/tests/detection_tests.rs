use nattype::addr::{IpAddress, SocketAddress};
use nattype::client::BindRequestResponse;
use nattype::detector::{protocols_to_detect, NatTypeDetector};
use nattype::error::DetectError;
use nattype::nat_type::NatType;
use nattype::portcheck::{parse_port_check_reply, PORT_TEST_SERVER};
use nattype::tcp::{TcpAction, TcpDetection, TcpEvent};
use nattype::udp::{UdpAction, UdpDetection, UdpEvent, UdpSocketChoice};
use nattype::upnp::{after_igd, after_nat_pmp, nat_pmp_gateway_found, MappingAttempt, MappingStep, UpnpPortMappingLease};

fn v4(a: u8, b: u8, c: u8, d: u8, port: u16) -> SocketAddress {
    SocketAddress {
        ip: IpAddress::V4(u32::from_be_bytes([a, b, c, d])),
        port,
    }
}

fn reply(server: SocketAddress, local: SocketAddress, mapped: Option<SocketAddress>, ip_changed: bool, port_changed: bool) -> BindRequestResponse {
    BindRequestResponse {
        local_addr: local,
        stun_server_addr: server,
        recv_from_addr: server,
        mapped_socket_addr: mapped,
        changed_socket_addr: None,
        change_ip: ip_changed,
        change_port: port_changed,
        real_ip_changed: ip_changed,
        real_port_changed: port_changed,
        latency_us: 0,
    }
}

fn net_err() -> DetectError {
    DetectError::Network("unreachable".to_string())
}

/// Drives the UDP detection: `answer` gives the event for each action. Returns
/// the verdict and the actions asked for.
fn run_udp(servers: Vec<SocketAddress>, mut answer: impl FnMut(&UdpAction) -> UdpEvent) -> (Result<NatType, DetectError>, Vec<String>) {
    let detector = NatTypeDetector::new(servers, vec![]);
    let (mut d, mut action) = detector.detect_udp_nat_type();
    let mut log = Vec::new();
    loop {
        log.push(format!("{:?}", action));
        if let UdpAction::Finish(r) = action {
            return (r, log);
        }
        let ev = answer(&action);
        assert!(d.admits(&ev));
        let (d2, a2) = d.step(ev);
        d = d2;
        action = a2;
    }
}

const S0: (u8, u16) = (10, 3478);

fn servers() -> Vec<SocketAddress> {
    vec![v4(198, 51, 100, S0.0, S0.1), v4(203, 0, 113, 20, 3478), v4(192, 0, 2, 30, 3478)]
}

/// A NAT that maps the local port to `public` for every server, answers test 2
/// when `full_cone`, test 3 when `restricted`, and offers a port mapping when
/// `mapping` is given.
fn udp_nat(public: SocketAddress, full_cone: bool, restricted: bool, mapping: Option<u16>, via_mapping: bool) -> impl FnMut(&UdpAction) -> UdpEvent {
    let local = v4(0, 0, 0, 0, 40000);
    move |a| match a {
        UdpAction::OpenPrimarySocket | UdpAction::OpenMappedSocket { .. } => UdpEvent::SocketOpened(Ok(())),
        UdpAction::Bind { socket, server, change_ip, change_port } => {
            let ok = match (socket, change_ip, change_port) {
                (_, false, false) => true,
                (UdpSocketChoice::Primary, true, true) => full_cone,
                (UdpSocketChoice::Primary, false, true) => restricted,
                (UdpSocketChoice::Mapped, true, true) => via_mapping,
                _ => false,
            };
            if ok {
                UdpEvent::Bound(Ok(reply(*server, local, Some(public), *change_ip, *change_port)))
            } else {
                UdpEvent::Bound(Err(DetectError::StunTimeout))
            }
        }
        UdpAction::FindFreePort => UdpEvent::FreePort(Ok(45000)),
        UdpAction::OpenPortMapping { .. } => UdpEvent::PortMapping(mapping.map(UpnpPortMappingLease::new)),
        UdpAction::Finish(_) => unreachable!(),
    }
}

#[test]
fn udp_needs_two_servers() {
    let (r, log) = run_udp(vec![v4(1, 1, 1, 1, 3478)], |_| unreachable!());
    assert!(matches!(r, Err(DetectError::NotEnoughUdpServers)));
    assert_eq!(log.len(), 1);
}

#[test]
fn udp_full_cone_when_test2_answers() {
    let (r, log) = run_udp(servers(), udp_nat(v4(203, 0, 113, 99, 50000), true, true, None, false));
    assert_eq!(r.unwrap(), NatType::FullCone);
    // open socket, test 1 twice, test 2, test 3, finish
    assert_eq!(log.len(), 6);
    assert!(log[1].contains("change_ip: false, change_port: false"));
    assert!(log[3].contains("change_ip: true, change_port: true"));
    assert!(log[4].contains("change_ip: false, change_port: true"));
}

#[test]
fn udp_symmetric_when_mappings_differ() {
    let mut n = 0u16;
    let (r, log) = run_udp(servers(), move |a| match a {
        UdpAction::OpenPrimarySocket => UdpEvent::SocketOpened(Ok(())),
        UdpAction::Bind { server, .. } => {
            n += 1;
            UdpEvent::Bound(Ok(reply(*server, v4(0, 0, 0, 0, 40000), Some(v4(203, 0, 113, 99, 50000 + n)), false, false)))
        }
        _ => unreachable!(),
    });
    assert_eq!(r.unwrap(), NatType::Symmetric);
    assert_eq!(log.len(), 4);
}

#[test]
fn udp_open_internet_and_firewall() {
    let local = v4(0, 0, 0, 0, 40000);
    let (r, _) = run_udp(servers(), udp_nat(local, true, true, None, false));
    assert_eq!(r.unwrap(), NatType::OpenInternet);
    let (r, _) = run_udp(servers(), udp_nat(local, false, true, None, false));
    assert_eq!(r.unwrap(), NatType::SymUdpFirewall);
}

#[test]
fn udp_restricted_or_port_restricted_without_mapping() {
    let public = v4(203, 0, 113, 99, 50000);
    let (r, log) = run_udp(servers(), udp_nat(public, false, true, None, false));
    assert_eq!(r.unwrap(), NatType::Restricted);
    assert!(log.iter().any(|l| l.contains("OpenPortMapping")));
    let (r, _) = run_udp(servers(), udp_nat(public, false, false, None, false));
    assert_eq!(r.unwrap(), NatType::PortRestricted);
}

#[test]
fn udp_full_cone_through_mapped_port() {
    let public = v4(203, 0, 113, 99, 50000);
    let (r, log) = run_udp(servers(), udp_nat(public, false, false, Some(45000), true));
    assert_eq!(r.unwrap(), NatType::FullCone);
    assert!(log.iter().any(|l| l.contains("OpenMappedSocket { local_port: 45000 }")));
    // the mapping works but the server does not answer from elsewhere
    let (r, _) = run_udp(servers(), udp_nat(public, false, true, Some(45000), false));
    assert_eq!(r.unwrap(), NatType::Restricted);
}

#[test]
fn udp_failures_end_the_test() {
    let (r, _) = run_udp(servers(), |a| match a {
        UdpAction::OpenPrimarySocket => UdpEvent::SocketOpened(Err(net_err())),
        _ => unreachable!(),
    });
    assert!(matches!(r, Err(DetectError::Network(_))));
    let (r, _) = run_udp(servers(), |a| match a {
        UdpAction::OpenPrimarySocket => UdpEvent::SocketOpened(Ok(())),
        _ => UdpEvent::Bound(Err(DetectError::StunTimeout)),
    });
    assert!(matches!(r, Err(DetectError::StunTimeout)));
    let mut inner = udp_nat(v4(203, 0, 113, 99, 50000), false, false, None, false);
    let (r, _) = run_udp(servers(), move |a| match a {
        UdpAction::FindFreePort => UdpEvent::FreePort(Err(net_err())),
        other => inner(other),
    });
    assert!(matches!(r, Err(DetectError::Network(_))));
}

#[test]
fn udp_refuses_a_reply_without_mapped_address() {
    let detector = NatTypeDetector::new(servers(), vec![]);
    let (d, _) = detector.detect_udp_nat_type();
    let (d, _) = d.step(UdpEvent::SocketOpened(Ok(())));
    let none = reply(servers()[0], v4(0, 0, 0, 0, 1), None, false, false);
    let (d, _) = d.step(UdpEvent::Bound(Ok(none)));
    let (d, _) = d.step(UdpEvent::Bound(Ok(none)));
    let (d, _) = d.step(UdpEvent::Bound(Err(DetectError::StunTimeout)));
    assert!(!d.admits(&UdpEvent::Bound(Err(DetectError::StunTimeout))));
    assert!(!d.admits(&UdpEvent::FreePort(Ok(1))));
}

/// Drives the TCP detection.
fn run_tcp(servers: Vec<SocketAddress>, mut answer: impl FnMut(&TcpAction) -> TcpEvent) -> (Result<NatType, DetectError>, Vec<String>) {
    let detector = NatTypeDetector::new(vec![], servers);
    let (mut d, mut action) = detector.detect_tcp_nat_type();
    let mut log = Vec::new();
    loop {
        log.push(format!("{:?}", action));
        if let TcpAction::Finish(r) = action {
            return (r, log);
        }
        let ev = answer(&action);
        assert!(d.admits(&ev));
        let (d2, a2) = d.step(ev);
        d = d2;
        action = a2;
    }
}

/// A TCP NAT: `mapped(server, local_port)` is the mapping (None: no answer),
/// `reachable(port)` the port check, `mapping` the gateway's lease.
fn tcp_nat(
    mut mapped: impl FnMut(SocketAddress, u16) -> Option<SocketAddress>,
    mut reachable: impl FnMut(u16) -> bool,
    mapping: Option<u16>,
) -> impl FnMut(&TcpAction) -> TcpEvent {
    let mut next_port = 41000u16;
    move |a| match a {
        TcpAction::FindFreePort { .. } => {
            next_port += 1;
            TcpEvent::FreePort(Ok(next_port))
        }
        TcpAction::Probe { server, local_port, .. } => match mapped(*server, *local_port) {
            Some(m) => TcpEvent::Probed(Ok((v4(192, 168, 1, 2, *local_port), m))),
            None => TcpEvent::Probed(Err(net_err())),
        },
        TcpAction::CheckReachable { port } => TcpEvent::Reachable(Ok(reachable(*port))),
        TcpAction::OpenPortMapping { .. } => TcpEvent::PortMapping(mapping.map(UpnpPortMappingLease::new)),
        TcpAction::Listen { .. } => TcpEvent::Listening(Ok(())),
        TcpAction::Finish(_) => unreachable!(),
    }
}

#[test]
fn tcp_needs_a_server() {
    let (r, _) = run_tcp(vec![], |_| unreachable!());
    assert!(matches!(r, Err(DetectError::NoTcpServer)));
}

#[test]
fn tcp_full_cone_when_port_reachable() {
    let (r, log) = run_tcp(servers(), tcp_nat(|_, p| Some(v4(203, 0, 113, 99, p + 1000)), |_| true, None));
    assert_eq!(r.unwrap(), NatType::FullCone);
    assert!(log[2].contains("CheckReachable { port: 42001 }"));
}

#[test]
fn tcp_open_internet() {
    let (r, _) = run_tcp(servers(), tcp_nat(|_, p| Some(v4(192, 168, 1, 2, p)), |_| false, None));
    assert_eq!(r.unwrap(), NatType::OpenInternet);
}

#[test]
fn tcp_first_answering_server_is_used() {
    let first = servers()[0];
    let (r, log) = run_tcp(
        servers(),
        tcp_nat(move |s, p| if s == first { None } else { Some(v4(203, 0, 113, 99, p)) }, |_| true, None),
    );
    assert_eq!(r.unwrap(), NatType::FullCone);
    assert_eq!(log.iter().filter(|l| l.contains("Probe")).count(), 2);
    let (r, _) = run_tcp(servers(), tcp_nat(|_, _| None, |_| true, None));
    assert!(matches!(r, Err(DetectError::NoAvailableStunServer)));
}

#[test]
fn tcp_symmetric_and_port_restricted() {
    // every server sees another port: symmetric
    let (r, log) = run_tcp(
        servers(),
        tcp_nat(|s, p| Some(v4(203, 0, 113, 99, p + (s.port % 7) + (s.ip == servers()[1].ip) as u16)), |_| false, None),
    );
    assert_eq!(r.unwrap(), NatType::Symmetric);
    assert!(log.iter().any(|l| l.contains("announce: Some(Symmetric)")));
    // three servers agree: port restricted
    let (r, _) = run_tcp(servers(), tcp_nat(|_, p| Some(v4(203, 0, 113, 99, p)), |_| false, None));
    assert_eq!(r.unwrap(), NatType::PortRestricted);
    // only two servers: unknown
    let two = vec![servers()[0], servers()[1]];
    let (r, _) = run_tcp(two, tcp_nat(|_, p| Some(v4(203, 0, 113, 99, p)), |_| false, None));
    assert_eq!(r.unwrap(), NatType::Unknown);
}

#[test]
fn tcp_full_cone_through_port_mapping() {
    let mut checks = 0;
    let (r, log) = run_tcp(
        servers(),
        tcp_nat(|_, p| Some(v4(203, 0, 113, 99, p)), move |_| {
            checks += 1;
            checks > 1
        }, Some(50000)),
    );
    assert_eq!(r.unwrap(), NatType::FullCone);
    assert!(log.iter().any(|l| l.contains("Listen { local_port: 41003 }")));
    // the mapping does not help: the cone verdict stays
    let (r, _) = run_tcp(servers(), tcp_nat(|_, p| Some(v4(203, 0, 113, 99, p)), |_| false, Some(50000)));
    assert_eq!(r.unwrap(), NatType::PortRestricted);
}

#[test]
fn tcp_port_check_failure_ends_the_test() {
    let mut inner = tcp_nat(|_, p| Some(v4(203, 0, 113, 99, p)), |_| false, None);
    let (r, _) = run_tcp(servers(), move |a| match a {
        TcpAction::CheckReachable { .. } => TcpEvent::Reachable(Err(DetectError::UnexpectedPortCheckReply("x".to_string()))),
        other => inner(other),
    });
    assert!(matches!(r, Err(DetectError::UnexpectedPortCheckReply(s)) if s == "x"));
}

#[test]
fn port_check_replies() {
    assert_eq!(PORT_TEST_SERVER, "portcheck.transmissionbt.com");
    assert_eq!(parse_port_check_reply("1").unwrap(), true);
    assert_eq!(parse_port_check_reply("1\n").unwrap(), true);
    assert_eq!(parse_port_check_reply("  0 \r\n").unwrap(), false);
    assert_eq!(parse_port_check_reply("\u{3000}0\u{a0}").unwrap(), false);
    assert!(matches!(parse_port_check_reply("\t 11 \n"), Err(DetectError::UnexpectedPortCheckReply(s)) if s == "11"));
    assert!(matches!(parse_port_check_reply("<html>"), Err(DetectError::UnexpectedPortCheckReply(s)) if s == "<html>"));
    assert!(matches!(parse_port_check_reply(" \n "), Err(DetectError::UnexpectedPortCheckReply(s)) if s.is_empty()));
}

#[test]
fn port_mapping_decisions() {
    match after_igd(&MappingAttempt::Mapped(50123)) {
        MappingStep::Done(l) => assert_eq!(l.gateway_external_port(), 50123),
        MappingStep::TryNatPmp => panic!("expected a lease"),
    }
    assert!(matches!(after_igd(&MappingAttempt::NoGateway), MappingStep::TryNatPmp));
    assert!(matches!(after_igd(&MappingAttempt::Failed("x".to_string())), MappingStep::TryNatPmp));
    assert_eq!(after_nat_pmp(&MappingAttempt::Mapped(7)).unwrap().gateway_external_port(), 7);
    assert!(after_nat_pmp(&MappingAttempt::NoGateway).is_none());
    assert!(!nat_pmp_gateway_found(0));
    assert!(nat_pmp_gateway_found(u32::from_be_bytes([192, 168, 1, 1])));
}

#[test]
fn chooses_tests_from_flags() {
    assert_eq!(protocols_to_detect(false, false), (true, true));
    assert_eq!(protocols_to_detect(true, false), (true, false));
    assert_eq!(protocols_to_detect(false, true), (false, true));
    assert_eq!(protocols_to_detect(true, true), (true, true));
}

#[test]
fn detector_keeps_its_servers() {
    let d = NatTypeDetector::new(servers(), vec![servers()[2]]);
    let (_, a) = d.detect_tcp_nat_type();
    assert!(matches!(a, TcpAction::FindFreePort { announce: None }));
    let (u, a) = d.detect_udp_nat_type();
    assert!(matches!(a, UdpAction::OpenPrimarySocket));
    assert_eq!(u.first_server, servers()[0]);
    assert_eq!(u.second_server, servers()[1]);
    let (t, _) = TcpDetection::begin(vec![servers()[2]]);
    assert_eq!(t.servers, vec![servers()[2]]);
    let (_, a) = UdpDetection::begin(&vec![]);
    assert!(matches!(a, UdpAction::Finish(Err(DetectError::NotEnoughUdpServers))));
}
