use nattype::addr::{ipv4_only, IpAddress, SocketAddress};
use nattype::client::{tcp_binding_request, tcp_mapped_address, BindRequestResponse, StunTransaction};
use nattype::error::DetectError;
use nattype::nat_type::NatType;
use nattype::client::mapped_address_or_unspecified;
use nattype::stun::{
    encode_binding, StunAttribute,
    change_request, changed_address, decode_message, is_well_formed, mapped_address, parse_address,
    tid_to_u32, u32_to_tid, unxor, StunClass, ATTR_CHANGE_REQUEST, BINDING,
};

fn v4(a: u8, b: u8, c: u8, d: u8, port: u16) -> SocketAddress {
    SocketAddress {
        ip: IpAddress::V4(u32::from_be_bytes([a, b, c, d])),
        port,
    }
}

/// The sample IPv4 Binding response of RFC 5769, section 2.2.
fn rfc5769_ipv4_response() -> Vec<u8> {
    vec![
        0x01, 0x01, 0x00, 0x3c, 0x21, 0x12, 0xa4, 0x42, 0xb7, 0xe7, 0xa7, 0x01, 0xbc, 0x34, 0xd6,
        0x86, 0xfa, 0x87, 0xdf, 0xae, 0x80, 0x22, 0x00, 0x0b, 0x74, 0x65, 0x73, 0x74, 0x20, 0x76,
        0x65, 0x63, 0x74, 0x6f, 0x72, 0x20, 0x00, 0x20, 0x00, 0x08, 0x00, 0x01, 0xa1, 0x47, 0xe1,
        0x12, 0xa6, 0x43, 0x00, 0x08, 0x00, 0x14, 0x2b, 0x91, 0xf5, 0x99, 0xfd, 0x9e, 0x90, 0xc3,
        0x8c, 0x74, 0x89, 0xf9, 0x2a, 0xf9, 0xba, 0x53, 0xf0, 0x6b, 0xe7, 0xd7, 0x80, 0x28, 0x00,
        0x04, 0xc0, 0x7d, 0x4c, 0x96,
    ]
}

/// A Binding success response with transaction id `u32_to_tid(tid)`, an
/// `XOR-MAPPED-ADDRESS` of 1.2.3.4:5678 and a `CHANGED-ADDRESS` of 10.0.0.1:3478.
fn success_response(class_bits: [u8; 2], tid: u32) -> Vec<u8> {
    let mut m = vec![class_bits[0], class_bits[1], 0x00, 0x18, 0x21, 0x12, 0xa4, 0x42];
    m.extend_from_slice(&u32_to_tid(tid));
    m.extend_from_slice(&[0x00, 0x20, 0x00, 0x08, 0x00, 0x01, 0x37, 0x3c, 0x20, 0x10, 0xa7, 0x46]);
    m.extend_from_slice(&[0x00, 0x05, 0x00, 0x08, 0x00, 0x01, 0x0d, 0x96, 0x0a, 0x00, 0x00, 0x01]);
    m
}

#[test]
fn nat_type_codes_follow_the_protocol() {
    assert_eq!(NatType::FullCone.code(), 3);
    assert_eq!(NatType::PortRestricted.code(), 5);
    assert_eq!(NatType::Symmetric.code(), 6);
    let all = [
        NatType::Unknown,
        NatType::OpenInternet,
        NatType::NoPat,
        NatType::FullCone,
        NatType::Restricted,
        NatType::PortRestricted,
        NatType::Symmetric,
        NatType::SymUdpFirewall,
        NatType::SymmetricEasyInc,
        NatType::SymmetricEasyDec,
    ];
    for (i, t) in all.iter().enumerate() {
        assert_eq!(t.code() as usize, i);
    }
}

#[test]
fn nat_type_names() {
    assert_eq!(NatType::FullCone.name(), "FullCone");
    assert_eq!(NatType::PortRestricted.name(), "PortRestricted");
    assert_eq!(NatType::Symmetric.name(), "Symmetric");
    assert_eq!(NatType::SymUdpFirewall.name(), "SymUdpFirewall");
    assert_eq!(NatType::Unknown.name(), "Unknown");
    assert_eq!(NatType::OpenInternet.name(), "OpenInternet");
    assert_eq!(NatType::NoPat.name(), "NoPat");
    assert_eq!(NatType::Restricted.name(), "Restricted");
    assert_eq!(NatType::SymmetricEasyInc.name(), "SymmetricEasyInc");
    assert_eq!(NatType::SymmetricEasyDec.name(), "SymmetricEasyDec");
    assert_eq!(format!("{} ({})", NatType::FullCone.name(), NatType::FullCone.code()), "FullCone (3)");
}

#[test]
fn transaction_id_carries_a_number() {
    let tid = u32_to_tid(0x1234_5678);
    assert_eq!(tid, [0x78, 0x56, 0x34, 0x12, 0, 0, 0, 0, 0, 0, 0, 0]);
    assert_eq!(tid_to_u32(&tid), 0x1234_5678);
    assert_eq!(tid_to_u32(&u32_to_tid(0)), 0);
    assert_eq!(tid_to_u32(&u32_to_tid(u32::MAX)), u32::MAX);
    assert_eq!(tid_to_u32(&[1, 0, 0, 0, 9, 9, 9, 9, 9, 9, 9, 9]), 1);
}

#[test]
fn change_request_flags() {
    let a = change_request(true, true);
    assert_eq!(a.attr_type, ATTR_CHANGE_REQUEST);
    assert_eq!(a.value, vec![0, 0, 0, 6]);
    assert_eq!(change_request(true, false).value, vec![0, 0, 0, 4]);
    assert_eq!(change_request(false, true).value, vec![0, 0, 0, 2]);
    assert_eq!(change_request(false, false).value, vec![0, 0, 0, 0]);
}

#[test]
fn address_values() {
    assert_eq!(parse_address(&[0, 1, 0, 80, 127, 0, 0, 1]), Some(v4(127, 0, 0, 1, 80)));
    assert_eq!(
        parse_address(&[0, 2, 0, 90, 0, 0, 0, 0, 0, 0, 0, 0, 0, 0, 0, 0, 0, 0, 0, 1]),
        Some(SocketAddress { ip: IpAddress::V6(1), port: 90 })
    );
    // the first byte is ignored
    assert_eq!(parse_address(&[7, 1, 1, 0, 10, 0, 0, 2]), Some(v4(10, 0, 0, 2, 256)));
    // unknown family, wrong lengths
    assert_eq!(parse_address(&[0, 3, 0, 80, 127, 0, 0, 1]), None);
    assert_eq!(parse_address(&[0, 1, 0, 80, 127, 0, 0]), None);
    assert_eq!(parse_address(&[0, 1, 0, 80, 127, 0, 0, 1, 0]), None);
    assert_eq!(parse_address(&[0, 2, 0, 80, 127, 0, 0, 1]), None);
    assert_eq!(parse_address(&[]), None);
}

#[test]
fn xor_mapped_address_values() {
    let tid = [0xb7, 0xe7, 0xa7, 0x01, 0xbc, 0x34, 0xd6, 0x86, 0xfa, 0x87, 0xdf, 0xae];
    let plain = unxor(&[0x00, 0x01, 0xa1, 0x47, 0xe1, 0x12, 0xa6, 0x43], &tid);
    assert_eq!(parse_address(&plain), Some(v4(192, 0, 2, 1, 32853)));
    let v6 = unxor(
        &[
            0x00, 0x02, 0xa1, 0x47, 0x01, 0x13, 0xa9, 0xfa, 0xa5, 0xd3, 0xf1, 0x79, 0xbc, 0x25, 0xf4,
            0xb5, 0xbe, 0xd2, 0xb9, 0xd9,
        ],
        &tid,
    );
    assert_eq!(
        parse_address(&v6),
        Some(SocketAddress { ip: IpAddress::V6(0x2001_0db8_1234_5678_0011_2233_4455_6677), port: 32853 })
    );
}

#[test]
fn decodes_the_rfc5769_response() {
    let m = decode_message(&rfc5769_ipv4_response()).expect("decodes");
    assert_eq!(m.class, StunClass::SuccessResponse);
    assert_eq!(m.method, BINDING);
    assert_eq!(m.transaction_id, vec![0xb7, 0xe7, 0xa7, 0x01, 0xbc, 0x34, 0xd6, 0x86, 0xfa, 0x87, 0xdf, 0xae]);
    let types: Vec<u16> = m.attributes.iter().map(|a| a.attr_type).collect();
    assert_eq!(types, vec![0x8022, 0x0020, 0x0008, 0x8028]);
    assert_eq!(m.attributes[0].value, b"test vector".to_vec());
    assert!(is_well_formed(&m));
    assert_eq!(mapped_address(&m), Some(v4(192, 0, 2, 1, 32853)));
    assert_eq!(changed_address(&m), None);
}

#[test]
fn readable_messages() {
    let mut m = decode_message(&success_response([0x01, 0x01], 9)).expect("decodes");
    assert!(is_well_formed(&m));
    m.transaction_id.pop();
    assert!(!is_well_formed(&m));
    let mut m = decode_message(&success_response([0x01, 0x01], 9)).expect("decodes");
    m.attributes[1].value.push(0);
    assert!(!is_well_formed(&m));
    m.attributes[1].attr_type = 0x8022;
    assert!(is_well_formed(&m));
    assert_eq!(changed_address(&m), None);
}

#[test]
fn rejects_what_is_not_stun() {
    assert!(decode_message(&[]).is_none());
    assert!(decode_message(b"GET / HTTP/1.1\r\n\r\n").is_none());
    let mut bad_cookie = rfc5769_ipv4_response();
    bad_cookie[4] = 0;
    assert!(decode_message(&bad_cookie).is_none());
}

#[test]
fn binding_request_encoding() {
    let server = v4(198, 51, 100, 7, 3478);
    let mut tx = StunTransaction::new(server, true, true);
    let bytes = tx.next_request().expect("encodes");
    assert_eq!(tx.tids.len(), 1);
    assert_eq!(&bytes[0..8], &[0x00, 0x01, 0x00, 0x08, 0x21, 0x12, 0xa4, 0x42]);
    assert_eq!(&bytes[8..20], &u32_to_tid(tx.tids[0]));
    assert_eq!(&bytes[20..], &[0x00, 0x03, 0x00, 0x04, 0, 0, 0, 6]);
    let m = decode_message(&bytes).expect("decodes");
    assert_eq!(m.class, StunClass::Request);
    assert_eq!(m.method, BINDING);
    assert_eq!(tid_to_u32(&m.transaction_id), tx.tids[0]);
    assert_eq!(m.attributes.len(), 1);
    assert_eq!(m.attributes[0].value, vec![0, 0, 0, 6]);
    let second = tx.next_request().expect("encodes");
    assert_eq!(tx.tids.len(), 2);
    assert_eq!(&second[8..20], &u32_to_tid(tx.tids[1]));
}

#[test]
fn accepts_only_the_reply_it_waits_for() {
    let server = v4(198, 51, 100, 7, 3478);
    let mut tx = StunTransaction::new(server, false, true);
    tx.tids.push(0xdead_beef);
    let other_port = v4(198, 51, 100, 7, 3479);
    let reply = success_response([0x01, 0x01], 0xdead_beef);

    let m = tx.accept(&reply, other_port).expect("accepted");
    assert_eq!(mapped_address(&m), Some(v4(1, 2, 3, 4, 5678)));
    assert_eq!(changed_address(&m), Some(v4(10, 0, 0, 1, 3478)));

    // from the same port, or from another IP address: not the origin asked for
    assert!(tx.accept(&reply, server).is_none());
    assert!(tx.accept(&reply, v4(203, 0, 113, 1, 3479)).is_none());
    // unknown transaction id
    assert!(tx.accept(&success_response([0x01, 0x01], 7), other_port).is_none());
    // an error response, a request
    assert!(tx.accept(&success_response([0x01, 0x11], 0xdead_beef), other_port).is_none());
    assert!(tx.accept(&success_response([0x00, 0x01], 0xdead_beef), other_port).is_none());
    // garbage
    assert!(tx.accept(&[1, 2, 3], other_port).is_none());
    // a malformed mapped address makes the reply unreadable
    let mut broken = reply.clone();
    broken[25] = 9;
    assert!(tx.accept(&broken, other_port).is_none());
}

#[test]
fn bind_response_summary() {
    let server = v4(198, 51, 100, 7, 3478);
    let mut tx = StunTransaction::new(server, true, true);
    tx.tids.push(5);
    let from = v4(198, 51, 100, 8, 3479);
    let m = tx.accept(&success_response([0x01, 0x01], 5), from).expect("accepted");
    let local = v4(0, 0, 0, 0, 40000);
    let r = BindRequestResponse::from_reply(&tx, local, from, &m);
    assert_eq!(r.local_addr, local);
    assert_eq!(r.stun_server_addr, server);
    assert_eq!(r.recv_from_addr, from);
    assert_eq!(r.mapped_socket_addr, Some(v4(1, 2, 3, 4, 5678)));
    assert_eq!(r.changed_socket_addr, Some(v4(10, 0, 0, 1, 3478)));
    assert!(r.change_ip && r.change_port);
    assert!(r.real_ip_changed && r.real_port_changed);
    assert_eq!(r.latency_us, 0);
}

#[test]
fn tcp_binding_exchange() {
    let req = tcp_binding_request().expect("encodes");
    assert_eq!(req.len(), 20);
    let m = decode_message(&req).expect("decodes");
    assert_eq!(m.class, StunClass::Request);
    assert_eq!(m.method, BINDING);
    assert!(m.attributes.is_empty());

    assert_eq!(tcp_mapped_address(&rfc5769_ipv4_response()).unwrap(), v4(192, 0, 2, 1, 32853));
    // a reply without a mapped address reports 0.0.0.0:0
    assert_eq!(tcp_mapped_address(&req).unwrap(), v4(0, 0, 0, 0, 0));
    assert!(matches!(tcp_mapped_address(&[0, 1, 2]), Err(DetectError::StunDecode)));
}

#[test]
fn keeps_ipv4_servers_in_order() {
    let a = v4(1, 1, 1, 1, 3478);
    let b = SocketAddress { ip: IpAddress::V6(1), port: 3478 };
    let c = v4(8, 8, 8, 8, 19302);
    assert_eq!(ipv4_only(&vec![a, b, c, b]), vec![a, c]);
    assert_eq!(ipv4_only(&vec![b]), vec![]);
    assert_eq!(ipv4_only(&vec![]), vec![]);
}

#[test]
fn encoding_pads_and_refuses_too_long_requests() {
    let tid = u32_to_tid(1);
    let attrs = vec![StunAttribute { attr_type: 0x8022, value: vec![b'a', b'b', b'c'] }];
    let bytes = encode_binding(tid, &attrs).expect("encodes");
    let mut expected = vec![0x00, 0x01, 0x00, 0x08, 0x21, 0x12, 0xa4, 0x42];
    expected.extend_from_slice(&tid);
    expected.extend_from_slice(&[0x80, 0x22, 0x00, 0x03, b'a', b'b', b'c', 0]);
    assert_eq!(bytes, expected);
    let long = vec![StunAttribute { attr_type: 0x8022, value: vec![0; 0x10000] }];
    assert!(encode_binding(tid, &long).is_none());
    let two = vec![
        StunAttribute { attr_type: 0x8022, value: vec![0; 0x8000] },
        StunAttribute { attr_type: 0x8023, value: vec![0; 0x8000] },
    ];
    assert!(encode_binding(tid, &two).is_none());
    let fits = vec![StunAttribute { attr_type: 0x8022, value: vec![0; 0xFFF0] }];
    assert_eq!(encode_binding(tid, &fits).expect("encodes").len(), 20 + 4 + 0xFFF0);
}

#[test]
fn tcp_reading_of_mapped_address() {
    let m = decode_message(&rfc5769_ipv4_response()).expect("decodes");
    assert_eq!(mapped_address_or_unspecified(&m), v4(192, 0, 2, 1, 32853));
    let req = tcp_binding_request().expect("encodes");
    let m = decode_message(&req).expect("decodes");
    assert_eq!(mapped_address_or_unspecified(&m), v4(0, 0, 0, 0, 0));
    assert_eq!(mapped_address(&m), None);
}
