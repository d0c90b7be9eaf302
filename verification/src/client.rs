use vstd::prelude::*;

use crate::addr::SocketAddress;
use crate::error::DetectError;
use crate::stun::{
    attributes_view, attribute_padding, be16, encoded_attributes, spec_change_request_value, change_request, changed_address, decode_message,
    encode_binding, is_well_formed, mapped_address, message_option_view, spec_change_request,
    spec_first_changed, spec_first_mapped, spec_tid_to_u32, lemma_tid_roundtrip, spec_u32_to_tid, spec_well_formed,
    stun_decoding, tid_to_u32, u32_to_tid, StunAttribute, StunAttributeView, StunClass, StunMessage,
    StunMessageView, BINDING,
};

verus! {

/// How many copies of a UDP Binding request are sent, each with its own
/// transaction id.
pub const STUN_REQUEST_REPEAT: u32 = 2;

/// How long a UDP Binding request waits for its reply, in milliseconds.
pub const STUN_RESPONSE_TIMEOUT_MS: u64 = 3000;

/// The size of the buffer a received UDP datagram is read into.
pub const STUN_BUFFER_LEN: usize = 1620;

/// Draws a number with `rand::random::<u32>()`; nothing is claimed of it.
#[verifier::external_body]
fn random_u32() -> u32 {
    rand::random::<u32>()
}

/// Draws a number with `rand::random::<u128>()` and hands out its big-endian
/// bytes (`u128::to_be_bytes`); nothing is claimed of them.
#[verifier::external_body]
fn random_u128_be_bytes() -> [u8; 16] {
    rand::random::<u128>().to_be_bytes()
}

/// One UDP Binding transaction with one STUN server: the change flags it
/// asked for and the transaction ids of the requests sent so far.
#[derive(Debug)]
pub struct StunTransaction {
    pub server: SocketAddress,
    pub change_ip: bool,
    pub change_port: bool,
    pub tids: Vec<u32>,
}

/// Whether a datagram from `from` came from where a reply to a request that
/// asked `change_ip` / `change_port` of `server` must come from.
pub open spec fn origin_matches(
    server: SocketAddress,
    change_ip: bool,
    change_port: bool,
    from: SocketAddress,
) -> bool {
    &&& (server.ip != from.ip) == change_ip
    &&& (server.port != from.port) == change_port
}

impl StunTransaction {
    /// A transaction that has sent nothing yet.
    pub fn new(server: SocketAddress, change_ip: bool, change_port: bool) -> (t: StunTransaction)
        ensures
            t.server == server,
            t.change_ip == change_ip,
            t.change_port == change_port,
            t.tids@ == Seq::<u32>::empty(),
    {
        StunTransaction { server, change_ip, change_port, tids: Vec::new() }
    }

    /// Draws a fresh transaction id, records it, and encodes the Binding
    /// request that carries it and the transaction's `CHANGE-REQUEST`.
    pub fn next_request(&mut self) -> (r: Result<Vec<u8>, DetectError>)
        ensures
            final(self).server == old(self).server,
            final(self).change_ip == old(self).change_ip,
            final(self).change_port == old(self).change_port,
            final(self).tids@.len() == old(self).tids@.len() + 1,
            final(self).tids@.drop_last() == old(self).tids@,
            r matches Ok(b) && b@ == seq![0x00u8, 0x01u8, 0x00u8, 0x08u8, 0x21u8, 0x12u8, 0xA4u8, 0x42u8]
                + spec_u32_to_tid(final(self).tids@.last()) + seq![0x00u8, 0x03u8, 0x00u8, 0x04u8]
                + spec_change_request_value(old(self).change_ip, old(self).change_port),
    {
        let tid = random_u32();
        self.tids.push(tid);
        let attrs = vec![change_request(self.change_ip, self.change_port)];
        proof {
            let a = spec_change_request(self.change_ip, self.change_port);
            assert(attributes_view(attrs@) =~= seq![a]);
            reveal_with_fuel(encoded_attributes, 2);
            assert(seq![a].drop_first() =~= Seq::<StunAttributeView>::empty());
            assert(be16(3) =~= seq![0x00u8, 0x03u8]);
            assert(be16(4) =~= seq![0x00u8, 0x04u8]);
            assert(be16(8) =~= seq![0x00u8, 0x08u8]);
            assert(attribute_padding(4) =~= Seq::<u8>::empty());
            assert(encoded_attributes(seq![a]) =~= seq![0x00u8, 0x03u8, 0x00u8, 0x04u8]
                + spec_change_request_value(self.change_ip, self.change_port));
        }
        match encode_binding(u32_to_tid(tid), &attrs) {
            Some(b) => Ok(b),
            None => Err(DetectError::StunEncode),
        }
    }

    /// What a decoded datagram from the right origin gives: the reply, when
    /// it is a well formed Binding success response to one of the requests.
    pub open spec fn spec_accept_decoded(self, decoded: Option<StunMessageView>) -> Option<
        StunMessageView,
    > {
        match decoded {
            Some(m) => if spec_well_formed(m) && m.class == StunClass::SuccessResponse && m.method
                == BINDING && self.tids@.contains(spec_tid_to_u32(m.transaction_id)) {
                Some(m)
            } else {
                None
            },
            None => None,
        }
    }

    /// Keeps a decoded datagram when it answers this transaction.
    pub fn accept_decoded(&self, decoded: Option<StunMessage>) -> (r: Option<StunMessage>)
        ensures
            message_option_view(r) == self.spec_accept_decoded(message_option_view(decoded)),
    {
        match decoded {
            Some(m) => {
                if is_well_formed(&m) && m.class == StunClass::SuccessResponse && m.method
                    == BINDING {
                    let t = tid_to_u32(m.transaction_id.as_slice());
                    if self.has_tid(t) {
                        return Some(m);
                    }
                }
                None
            },
            None => None,
        }
    }

    fn has_tid(&self, t: u32) -> (b: bool)
        ensures
            b == self.tids@.contains(t),
    {
        let n = self.tids.len();
        for i in 0..n
            invariant
                n == self.tids@.len(),
                forall|k: int| 0 <= k < i ==> self.tids@[k] != t,
        {
            if self.tids[i] == t {
                return true;
            }
        }
        false
    }

    /// What a received datagram gives: nothing when it came from another
    /// origin than the reply must, else the decoded reply it carries, if any.
    pub open spec fn spec_accept(self, packet: Seq<u8>, from: SocketAddress) -> Option<
        StunMessageView,
    > {
        if origin_matches(self.server, self.change_ip, self.change_port, from) {
            self.spec_accept_decoded(stun_decoding(packet))
        } else {
            None
        }
    }

    /// Whether a datagram from `from` came from where the reply must come from.
    pub fn expects_origin(&self, from: SocketAddress) -> (b: bool)
        ensures
            b == origin_matches(self.server, self.change_ip, self.change_port, from),
    {
        (self.server.ip != from.ip) == self.change_ip && (self.server.port != from.port)
            == self.change_port
    }

    /// Looks at one datagram received while waiting for the reply.
    pub fn accept(&self, packet: &[u8], from: SocketAddress) -> (r: Option<StunMessage>)
        requires
            origin_matches(self.server, self.change_ip, self.change_port, from) ==> packet@.len()
                <= STUN_BUFFER_LEN,
        ensures
            message_option_view(r) == self.spec_accept(packet@, from),
    {
        if !self.expects_origin(from) {
            return None;
        }
        self.accept_decoded(decode_message(packet))
    }
}

/// The outcome of one UDP Binding request.
#[derive(Debug, Clone, Copy)]
pub struct BindRequestResponse {
    pub local_addr: SocketAddress,
    pub stun_server_addr: SocketAddress,
    pub recv_from_addr: SocketAddress,
    pub mapped_socket_addr: Option<SocketAddress>,
    pub changed_socket_addr: Option<SocketAddress>,
    pub change_ip: bool,
    pub change_port: bool,
    pub real_ip_changed: bool,
    pub real_port_changed: bool,
    pub latency_us: u32,
}

impl BindRequestResponse {
    /// Summarises the reply `reply` to `tx`, received from `recv_from` on the
    /// socket bound at `local_addr`.
    pub fn from_reply(
        tx: &StunTransaction,
        local_addr: SocketAddress,
        recv_from: SocketAddress,
        reply: &StunMessage,
    ) -> (r: BindRequestResponse)
        requires
            reply.transaction_id@.len() == 12,
        ensures
            r.local_addr == local_addr,
            r.stun_server_addr == tx.server,
            r.recv_from_addr == recv_from,
            r.mapped_socket_addr == spec_first_mapped(reply@.attributes, reply@.transaction_id),
            r.changed_socket_addr == spec_first_changed(reply@.attributes, reply@.transaction_id),
            r.change_ip == tx.change_ip,
            r.change_port == tx.change_port,
            r.real_ip_changed == (tx.server.ip != recv_from.ip),
            r.real_port_changed == (tx.server.port != recv_from.port),
            r.latency_us == 0,
    {
        BindRequestResponse {
            local_addr,
            stun_server_addr: tx.server,
            recv_from_addr: recv_from,
            mapped_socket_addr: mapped_address(reply),
            changed_socket_addr: changed_address(reply),
            change_ip: tx.change_ip,
            change_port: tx.change_port,
            real_ip_changed: tx.server.ip != recv_from.ip,
            real_port_changed: tx.server.port != recv_from.port,
            latency_us: 0,
        }
    }
}

/// Encodes the Binding request of the TCP test: no attributes, and a fresh
/// random transaction id (the last twelve bytes of a random 128-bit number).
pub fn tcp_binding_request() -> (r: Result<Vec<u8>, DetectError>)
    ensures
        r matches Ok(b) && b@.len() == 20 && b@.subrange(0, 8) == seq![
            0x00u8,
            0x01u8,
            0x00u8,
            0x00u8,
            0x21u8,
            0x12u8,
            0xA4u8,
            0x42u8,
        ],
{
    let x = random_u128_be_bytes();
    let tid: [u8; 12] = [x[4], x[5], x[6], x[7], x[8], x[9], x[10], x[11], x[12], x[13], x[14], x[15]];
    let attrs: Vec<StunAttribute> = Vec::new();
    proof {
        assert(attributes_view(attrs@) =~= Seq::<StunAttributeView>::empty());
        assert(encoded_attributes(Seq::<StunAttributeView>::empty()) =~= Seq::<u8>::empty());
        assert(be16(0) =~= seq![0x00u8, 0x00u8]);
    }
    match encode_binding(tid, &attrs) {
        Some(b) => {
            assert(tid@.len() == 12);
            assert(b@.subrange(0, 8) =~= seq![0x00u8, 0x01u8, 0x00u8, 0x00u8, 0x21u8, 0x12u8, 0xA4u8, 0x42u8]);
            Ok(b)
        },
        None => Err(DetectError::StunEncode),
    }
}

/// What the TCP test reads from a decoded reply: an error when it could not
/// be decoded or read, else its mapped address, or `0.0.0.0:0` when it has none.
pub open spec fn spec_tcp_reply_address(decoded: Option<StunMessageView>) -> Result<SocketAddress, ()> {
    match decoded {
        Some(m) => if spec_well_formed(m) {
            match spec_first_mapped(m.attributes, m.transaction_id) {
                Some(a) => Ok(a),
                None => Ok(SocketAddress::spec_unspecified_v4()),
            }
        } else {
            Err(())
        },
        None => Err(()),
    }
}

/// The mapped address the TCP test reads from a reply: that of the first
/// `MAPPED-ADDRESS` or `XOR-MAPPED-ADDRESS` attribute, or `0.0.0.0:0` when
/// there is none.
pub open spec fn spec_mapped_or_unspecified(m: StunMessageView) -> SocketAddress {
    match spec_first_mapped(m.attributes, m.transaction_id) {
        Some(a) => a,
        None => SocketAddress::spec_unspecified_v4(),
    }
}

/// Reads the mapped address of a TCP reply, `0.0.0.0:0` when it has none.
pub fn mapped_address_or_unspecified(m: &StunMessage) -> (a: SocketAddress)
    requires
        m.transaction_id@.len() == 12,
    ensures
        a == spec_mapped_or_unspecified(m@),
{
    match mapped_address(m) {
        Some(a) => a,
        None => SocketAddress::unspecified_v4(),
    }
}

/// The TCP test and the UDP test read a reply's mapped address alike: for
/// every reply, the TCP reading is the UDP one, with `0.0.0.0:0` where the UDP
/// one finds none; a readable reply gives the TCP test exactly that address,
/// an unreadable one an error.
pub proof fn lemma_tcp_reads_mapped_address(m: StunMessageView)
    ensures
        spec_mapped_or_unspecified(m) == spec_first_mapped(m.attributes, m.transaction_id).unwrap_or(
            SocketAddress::spec_unspecified_v4(),
        ),
        spec_well_formed(m) ==> spec_tcp_reply_address(Some(m)) == Ok::<SocketAddress, ()>(
            spec_mapped_or_unspecified(m),
        ),
        !spec_well_formed(m) ==> spec_tcp_reply_address(Some(m)) is Err,
{
}

/// Reads the mapped address out of a decoded TCP Binding reply.
pub fn tcp_reply_address(decoded: Option<StunMessage>) -> (r: Result<SocketAddress, DetectError>)
    ensures
        r matches Ok(a) ==> spec_tcp_reply_address(message_option_view(decoded)) == Ok::<SocketAddress, ()>(a),
        r matches Err(e) ==> e is StunDecode && spec_tcp_reply_address(message_option_view(decoded)) is Err,
{
    match decoded {
        Some(m) => {
            if !is_well_formed(&m) {
                return Err(DetectError::StunDecode);
            }
            Ok(mapped_address_or_unspecified(&m))
        },
        None => Err(DetectError::StunDecode),
    }
}

/// Decodes the reply of the TCP test and reads its mapped address.
pub fn tcp_mapped_address(reply: &[u8]) -> (r: Result<SocketAddress, DetectError>)
    ensures
        r matches Ok(a) ==> spec_tcp_reply_address(stun_decoding(reply@)) == Ok::<SocketAddress, ()>(a),
        r matches Err(e) ==> e is StunDecode && spec_tcp_reply_address(stun_decoding(reply@)) is Err,
{
    tcp_reply_address(decode_message(reply))
}


/// A reply is accepted when it echoes one of the transaction's requests: a
/// readable Binding success response that carries the transaction id of a
/// request the transaction sent, received from an IP address that differs
/// from the server's exactly when a change of IP was asked, and from a port
/// that differs from the server's exactly when a change of port was asked.
/// So a request without change flags takes its reply from the server's own
/// address.
pub proof fn lemma_echoed_reply_accepted(
    tx: StunTransaction,
    k: int,
    packet: Seq<u8>,
    m: StunMessageView,
    from: SocketAddress,
)
    requires
        0 <= k < tx.tids@.len(),
        stun_decoding(packet) == Some(m),
        m.transaction_id == spec_u32_to_tid(tx.tids@[k]),
        m.class == StunClass::SuccessResponse,
        m.method == BINDING,
        spec_well_formed(m),
        (from.ip != tx.server.ip) == tx.change_ip,
        (from.port != tx.server.port) == tx.change_port,
    ensures
        tx.spec_accept(packet, from) == Some(m),
{
    lemma_tid_roundtrip(tx.tids@[k]);
    assert(tx.tids@.contains(spec_tid_to_u32(m.transaction_id)));
}

/// Only a datagram from where the reply must come from is ever accepted: its
/// IP address differs from the server's exactly when a change of IP was asked,
/// and its port differs from the server's exactly when a change of port was
/// asked. Whether a datagram's origin passes depends on nothing else.
pub proof fn lemma_accepted_origin(tx: StunTransaction, packet: Seq<u8>, from: SocketAddress)
    ensures
        tx.spec_accept(packet, from) is Some ==> (from.ip != tx.server.ip) == tx.change_ip && (from.port
            != tx.server.port) == tx.change_port,
        ((from.ip != tx.server.ip) == tx.change_ip && (from.port != tx.server.port) == tx.change_port)
            ==> tx.spec_accept(packet, from) == tx.spec_accept_decoded(stun_decoding(packet)),
        !((from.ip != tx.server.ip) == tx.change_ip && (from.port != tx.server.port) == tx.change_port)
            ==> tx.spec_accept(packet, from) is None,
{
}

/// Whatever is accepted is the decoded datagram itself, and it answers the
/// transaction: a Binding success response, readable, with the transaction id
/// of one of the requests the transaction sent.
pub proof fn lemma_accepted_reply_answers(tx: StunTransaction, packet: Seq<u8>, from: SocketAddress)
    ensures
        tx.spec_accept(packet, from) matches Some(m) ==> {
            &&& stun_decoding(packet) == Some(m)
            &&& m.class == StunClass::SuccessResponse
            &&& m.method == 0x0001u16
            &&& spec_well_formed(m)
            &&& exists|k: int| 0 <= k < tx.tids@.len() && tx.tids@[k] == spec_tid_to_u32(m.transaction_id)
        },
{
}

} // verus!
