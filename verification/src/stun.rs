use vstd::prelude::*;

use bytecodec::{DecodeExt, EncodeExt};
use stun_codec::Attribute;
use stun_codec::MessageClass as C;

use crate::addr::{IpAddress, SocketAddress};

verus! {

/// The STUN Binding method.
pub const BINDING: u16 = 0x0001;

/// `MAPPED-ADDRESS` (RFC 5389).
pub const ATTR_MAPPED_ADDRESS: u16 = 0x0001;

/// `CHANGE-REQUEST` (RFC 5780).
pub const ATTR_CHANGE_REQUEST: u16 = 0x0003;

/// `CHANGED-ADDRESS` (RFC 3489).
pub const ATTR_CHANGED_ADDRESS: u16 = 0x0005;

/// `XOR-MAPPED-ADDRESS` (RFC 5389).
pub const ATTR_XOR_MAPPED_ADDRESS: u16 = 0x0020;

/// The class of a STUN message.
#[derive(Debug, Clone, Copy, PartialEq, Eq, Structural)]
pub enum StunClass {
    Request,
    Indication,
    SuccessResponse,
    ErrorResponse,
}

/// A STUN attribute: its type and its value bytes (without padding).
#[derive(Debug, Clone)]
pub struct StunAttribute {
    pub attr_type: u16,
    pub value: Vec<u8>,
}

pub struct StunAttributeView {
    pub attr_type: u16,
    pub value: Seq<u8>,
}

impl View for StunAttribute {
    type V = StunAttributeView;

    open spec fn view(&self) -> StunAttributeView {
        StunAttributeView { attr_type: self.attr_type, value: self.value@ }
    }
}

/// A decoded STUN message with its attributes in wire order.
#[derive(Debug, Clone)]
pub struct StunMessage {
    pub class: StunClass,
    pub method: u16,
    pub transaction_id: Vec<u8>,
    pub attributes: Vec<StunAttribute>,
}

pub struct StunMessageView {
    pub class: StunClass,
    pub method: u16,
    pub transaction_id: Seq<u8>,
    pub attributes: Seq<StunAttributeView>,
}

pub open spec fn attributes_view(attrs: Seq<StunAttribute>) -> Seq<StunAttributeView> {
    attrs.map_values(|a: StunAttribute| a@)
}

impl View for StunMessage {
    type V = StunMessageView;

    open spec fn view(&self) -> StunMessageView {
        StunMessageView {
            class: self.class,
            method: self.method,
            transaction_id: self.transaction_id@,
            attributes: attributes_view(self.attributes@),
        }
    }
}

pub open spec fn message_option_view(m: Option<StunMessage>) -> Option<StunMessageView> {
    match m {
        Some(m) => Some(m@),
        None => None,
    }
}

/// A 16-bit number in network byte order.
pub open spec fn be16(x: nat) -> Seq<u8> {
    seq![((x / 256) % 256) as u8, (x % 256) as u8]
}

/// The zero bytes that pad an attribute value of `n` bytes to a multiple of four.
pub open spec fn attribute_padding(n: nat) -> Seq<u8> {
    Seq::new(((4 - n % 4) % 4) as nat, |i: int| 0u8)
}

/// An attribute on the wire: type, value length, value, padding.
pub open spec fn encoded_attribute(a: StunAttributeView) -> Seq<u8> {
    be16(a.attr_type as nat) + be16(a.value.len()) + a.value + attribute_padding(a.value.len())
}

/// The attributes on the wire, in order.
pub open spec fn encoded_attributes(attrs: Seq<StunAttributeView>) -> Seq<u8>
    decreases attrs.len(),
{
    if attrs.len() == 0 {
        Seq::empty()
    } else {
        encoded_attribute(attrs[0]) + encoded_attributes(attrs.drop_first())
    }
}

/// The bytes of a STUN Binding request (RFC 5389): the message type `0x0001`,
/// the length of the attributes, the magic cookie `0x2112A442`, the
/// transaction id, then the attributes; `None` where the attributes take more
/// than `0xFFFF` bytes, which the header cannot express.
pub open spec fn binding_request_encoding(
    transaction_id: Seq<u8>,
    attributes: Seq<StunAttributeView>,
) -> Option<Seq<u8>> {
    let body = encoded_attributes(attributes);
    if body.len() >= 0x10000 {
        None
    } else {
        Some(
            seq![0x00u8, 0x01u8] + be16(body.len()) + seq![0x21u8, 0x12u8, 0xA4u8, 0x42u8]
                + transaction_id + body,
        )
    }
}

/// The STUN message that stun_codec decodes from `bytes`, or `None` where it
/// rejects them.
pub uninterp spec fn stun_decoding(bytes: Seq<u8>) -> Option<StunMessageView>;

#[verifier::external_type_specification]
#[verifier::external_body]
pub struct ExCodecError(bytecodec::Error);

/// Encodes a Binding request (class Request, method Binding, the given
/// transaction id and attributes in order) with `stun_codec::MessageEncoder`
/// through `bytecodec::EncodeExt::encode_into_bytes`, each attribute carried as
/// a `stun_codec::RawAttribute`, with a fresh encoder. Claimed: the outcome is
/// `binding_request_encoding` of these arguments: the RFC 5389 wire format on
/// success, and a failure exactly where the attributes (an attribute value
/// included) are too long for a 16-bit length field.
#[verifier::external_body]
fn encode_binding_request(transaction_id: [u8; 12], attributes: &Vec<StunAttribute>) -> (r: Result<
    Vec<u8>,
    bytecodec::Error,
>)
    ensures
        match r {
            Ok(b) => binding_request_encoding(transaction_id@, attributes_view(attributes@)) == Some(
                b@,
            ),
            Err(_) => binding_request_encoding(transaction_id@, attributes_view(attributes@)) is None,
        },
{
    let id = stun_codec::TransactionId::new(transaction_id);
    let mut message = stun_codec::Message::<stun_codec::RawAttribute>::new(
        stun_codec::MessageClass::Request,
        stun_codec::rfc5389::methods::BINDING,
        id,
    );
    for a in attributes.iter() {
        let t = stun_codec::AttributeType::new(a.attr_type);
        message.add_attribute(stun_codec::RawAttribute::new(t, a.value.clone()));
    }
    stun_codec::MessageEncoder::<stun_codec::RawAttribute>::new().encode_into_bytes(message)
}

/// Decodes `bytes` with `stun_codec::MessageDecoder::<RawAttribute>` through
/// `bytecodec::DecodeExt::decode_from_bytes`; a decoding error or a broken
/// message gives `None`. Claimed: the result is the message named by
/// `stun_decoding` of the bytes, and a transaction id is twelve bytes long.
#[verifier::external_body]
fn decode_stun_message(bytes: &[u8]) -> (r: Option<StunMessage>)
    ensures
        message_option_view(r) == stun_decoding(bytes@),
        r matches Some(m) ==> m.transaction_id@.len() == 12,
{
    match stun_codec::MessageDecoder::<stun_codec::RawAttribute>::new().decode_from_bytes(bytes) {
        Ok(Ok(m)) => Some(StunMessage {
            class: match m.class() {
                C::Request => StunClass::Request,
                C::Indication => StunClass::Indication,
                C::SuccessResponse => StunClass::SuccessResponse,
                C::ErrorResponse => StunClass::ErrorResponse,
            },
            method: m.method().as_u16(),
            transaction_id: m.transaction_id().as_bytes().to_vec(),
            attributes: m.attributes().map(|a| StunAttribute { attr_type: a.get_type().as_u16(), value: a.value().to_vec() }).collect(),
        }),
        _ => None,
    }
}

/// Encodes a Binding request; `None` where the encoder fails. See
/// [`binding_request_encoding`].
pub fn encode_binding(transaction_id: [u8; 12], attributes: &Vec<StunAttribute>) -> (r: Option<Vec<u8>>)
    ensures
        match r {
            Some(b) => binding_request_encoding(transaction_id@, attributes_view(attributes@)) == Some(
                b@,
            ),
            None => binding_request_encoding(transaction_id@, attributes_view(attributes@)) is None,
        },
{
    match encode_binding_request(transaction_id, attributes) {
        Ok(b) => Some(b),
        Err(_) => None,
    }
}

/// Decodes a STUN message from bytes; see [`stun_decoding`].
pub fn decode_message(bytes: &[u8]) -> (r: Option<StunMessage>)
    ensures
        message_option_view(r) == stun_decoding(bytes@),
        r matches Some(m) ==> m.transaction_id@.len() == 12,
{
    decode_stun_message(bytes)
}

// ---------------------------------------------------------------------------
// Big-endian numbers
// ---------------------------------------------------------------------------

/// The unsigned big-endian number written by `s`.
pub open spec fn be_value(s: Seq<u8>) -> nat
    decreases s.len(),
{
    if s.len() == 0 {
        0
    } else {
        be_value(s.drop_last()) * 256 + s.last() as nat
    }
}

pub open spec fn pow256(n: nat) -> nat
    decreases n,
{
    if n == 0 {
        1
    } else {
        256 * pow256((n - 1) as nat)
    }
}

pub proof fn lemma_be_value_bound(s: Seq<u8>)
    ensures
        be_value(s) < pow256(s.len()),
    decreases s.len(),
{
    if s.len() > 0 {
        lemma_be_value_bound(s.drop_last());
    }
}

proof fn lemma_pow256_monotone(a: nat, b: nat)
    requires
        a <= b,
    ensures
        pow256(a) <= pow256(b),
    decreases b,
{
    if a < b {
        lemma_pow256_monotone(a, (b - 1) as nat);
    }
}

proof fn lemma_pow256_values()
    ensures
        pow256(2) == 0x1_0000,
        pow256(4) == 0x1_0000_0000,
        pow256(16) == 0x1_0000_0000_0000_0000_0000_0000_0000_0000,
{
    reveal_with_fuel(pow256, 17);
}

/// Reads the big-endian number in `bytes[from..to]`, at most sixteen bytes.
fn be_uint(bytes: &[u8], from: usize, to: usize) -> (v: u128)
    requires
        from <= to <= bytes@.len(),
        to - from <= 16,
    ensures
        v == be_value(bytes@.subrange(from as int, to as int)),
{
    let mut acc: u128 = 0;
    let mut i: usize = from;
    proof {
        assert(bytes@.subrange(from as int, from as int) =~= Seq::<u8>::empty());
    }
    while i < to
        invariant
            from <= i <= to <= bytes@.len(),
            to - from <= 16,
            acc == be_value(bytes@.subrange(from as int, i as int)),
        decreases to - i,
    {
        proof {
            let s = bytes@.subrange(from as int, i as int);
            lemma_be_value_bound(s);
            lemma_pow256_monotone(s.len(), 15);
            lemma_pow256_values();
            assert(pow256(16) == 256 * pow256(15));
            assert(bytes@.subrange(from as int, i + 1).drop_last() =~= s);
        }
        acc = acc * 256 + bytes[i] as u128;
        i = i + 1;
    }
    acc
}

// ---------------------------------------------------------------------------
// Transaction ids
// ---------------------------------------------------------------------------

/// The transaction id that carries `tid`: its four little-endian bytes, then
/// eight zero bytes.
pub open spec fn spec_u32_to_tid(tid: u32) -> Seq<u8> {
    seq![
        (tid & 0xff) as u8,
        ((tid >> 8) & 0xff) as u8,
        ((tid >> 16) & 0xff) as u8,
        ((tid >> 24) & 0xff) as u8,
        0u8, 0u8, 0u8, 0u8, 0u8, 0u8, 0u8, 0u8,
    ]
}

/// The number carried by a transaction id: its first four bytes, little-endian.
pub open spec fn spec_tid_to_u32(tid: Seq<u8>) -> u32 {
    (tid[0] as u32) | ((tid[1] as u32) << 8) | ((tid[2] as u32) << 16) | ((tid[3] as u32) << 24)
}

/// Builds the transaction id that carries `tid`.
pub fn u32_to_tid(tid: u32) -> (r: [u8; 12])
    ensures
        r@ == spec_u32_to_tid(tid),
{
    let r = [
        (tid & 0xff) as u8,
        ((tid >> 8) & 0xff) as u8,
        ((tid >> 16) & 0xff) as u8,
        ((tid >> 24) & 0xff) as u8,
        0u8, 0u8, 0u8, 0u8, 0u8, 0u8, 0u8, 0u8,
    ];
    assert(r@ =~= spec_u32_to_tid(tid));
    r
}

/// Reads the number carried by a transaction id.
pub fn tid_to_u32(tid: &[u8]) -> (r: u32)
    requires
        tid@.len() >= 4,
    ensures
        r == spec_tid_to_u32(tid@),
{
    (tid[0] as u32) | ((tid[1] as u32) << 8) | ((tid[2] as u32) << 16) | ((tid[3] as u32) << 24)
}

/// Reading back the number of a transaction id built from a number gives that number.
pub proof fn lemma_tid_roundtrip(tid: u32)
    ensures
        spec_tid_to_u32(spec_u32_to_tid(tid)) == tid,
{
    let s = spec_u32_to_tid(tid);
    let b0 = (tid & 0xff) as u8;
    let b1 = ((tid >> 8) & 0xff) as u8;
    let b2 = ((tid >> 16) & 0xff) as u8;
    let b3 = ((tid >> 24) & 0xff) as u8;
    assert(s[0] == b0 && s[1] == b1 && s[2] == b2 && s[3] == b3);
    assert(((b0 as u32) | ((b1 as u32) << 8) | ((b2 as u32) << 16) | ((b3 as u32) << 24)) == tid)
        by (bit_vector)
        requires
            b0 == (tid & 0xff) as u8,
            b1 == ((tid >> 8) & 0xff) as u8,
            b2 == ((tid >> 16) & 0xff) as u8,
            b3 == ((tid >> 24) & 0xff) as u8,
    ;
}


// ---------------------------------------------------------------------------
// Attributes
// ---------------------------------------------------------------------------

/// The value of a `CHANGE-REQUEST` attribute: a 32-bit big-endian word with
/// the change-IP flag at bit 2 and the change-port flag at bit 1.
pub open spec fn spec_change_request_value(change_ip: bool, change_port: bool) -> Seq<u8> {
    seq![0u8, 0u8, 0u8, ((if change_ip { 4u8 } else { 0u8 }) + (if change_port { 2u8 } else { 0u8 })) as u8]
}

pub open spec fn spec_change_request(change_ip: bool, change_port: bool) -> StunAttributeView {
    StunAttributeView {
        attr_type: ATTR_CHANGE_REQUEST,
        value: spec_change_request_value(change_ip, change_port),
    }
}

/// Builds the `CHANGE-REQUEST` attribute that asks the server to answer from
/// another IP address and/or another port.
pub fn change_request(change_ip: bool, change_port: bool) -> (a: StunAttribute)
    ensures
        a@ == spec_change_request(change_ip, change_port),
{
    let ip: u8 = if change_ip { 4 } else { 0 };
    let port: u8 = if change_port { 2 } else { 0 };
    let value = vec![0u8, 0u8, 0u8, ip + port];
    assert(value@ =~= spec_change_request_value(change_ip, change_port));
    StunAttribute { attr_type: ATTR_CHANGE_REQUEST, value }
}

/// A transport address attribute value: one ignored byte, the family (1 for
/// IPv4, 2 for IPv6), the port, then the four or sixteen address bytes, all
/// big-endian and nothing more.
pub open spec fn spec_parse_address(v: Seq<u8>) -> Option<SocketAddress> {
    if v.len() == 8 && v[1] == 1 {
        Some(
            SocketAddress {
                ip: IpAddress::V4(be_value(v.subrange(4, 8)) as u32),
                port: be_value(v.subrange(2, 4)) as u16,
            },
        )
    } else if v.len() == 20 && v[1] == 2 {
        Some(
            SocketAddress {
                ip: IpAddress::V6(be_value(v.subrange(4, 20)) as u128),
                port: be_value(v.subrange(2, 4)) as u16,
            },
        )
    } else {
        None
    }
}

/// The key of `XOR-MAPPED-ADDRESS`: the magic cookie followed by the
/// transaction id.
pub open spec fn xor_key(tid: Seq<u8>) -> Seq<u8> {
    seq![0x21u8, 0x12u8, 0xA4u8, 0x42u8] + tid
}

/// An `XOR-MAPPED-ADDRESS` value with the port and the address bytes xored
/// back with the key.
pub open spec fn spec_unxor(v: Seq<u8>, tid: Seq<u8>) -> Seq<u8> {
    Seq::new(
        v.len(),
        |i: int|
            if 2 <= i < 4 {
                v[i] ^ xor_key(tid)[i - 2]
            } else if 4 <= i < 20 {
                v[i] ^ xor_key(tid)[i - 4]
            } else {
                v[i]
            },
    )
}

/// The transport address an address attribute carries, if its value is well
/// formed; `XOR-MAPPED-ADDRESS` is read through the key of `tid`.
pub open spec fn spec_attribute_address(a: StunAttributeView, tid: Seq<u8>) -> Option<SocketAddress> {
    if a.attr_type == ATTR_XOR_MAPPED_ADDRESS {
        spec_parse_address(spec_unxor(a.value, tid))
    } else {
        spec_parse_address(a.value)
    }
}

pub open spec fn is_address_attribute(t: u16) -> bool {
    t == ATTR_MAPPED_ADDRESS || t == ATTR_XOR_MAPPED_ADDRESS || t == ATTR_CHANGED_ADDRESS
}

pub open spec fn is_mapped_attribute(t: u16) -> bool {
    t == ATTR_MAPPED_ADDRESS || t == ATTR_XOR_MAPPED_ADDRESS
}

/// A message the detector can read: a twelve-byte transaction id, and every
/// address attribute well formed.
pub open spec fn spec_well_formed(m: StunMessageView) -> bool {
    &&& m.transaction_id.len() == 12
    &&& forall|i: int|
        0 <= i < m.attributes.len() && is_address_attribute(#[trigger] m.attributes[i].attr_type)
            ==> spec_attribute_address(m.attributes[i], m.transaction_id) is Some
}

/// The address of the first `MAPPED-ADDRESS` or `XOR-MAPPED-ADDRESS` attribute.
pub open spec fn spec_first_mapped(attrs: Seq<StunAttributeView>, tid: Seq<u8>) -> Option<SocketAddress>
    decreases attrs.len(),
{
    if attrs.len() == 0 {
        None
    } else if is_mapped_attribute(attrs[0].attr_type) {
        spec_attribute_address(attrs[0], tid)
    } else {
        spec_first_mapped(attrs.drop_first(), tid)
    }
}

/// The address of the first `CHANGED-ADDRESS` attribute.
pub open spec fn spec_first_changed(attrs: Seq<StunAttributeView>, tid: Seq<u8>) -> Option<SocketAddress>
    decreases attrs.len(),
{
    if attrs.len() == 0 {
        None
    } else if attrs[0].attr_type == ATTR_CHANGED_ADDRESS {
        spec_attribute_address(attrs[0], tid)
    } else {
        spec_first_changed(attrs.drop_first(), tid)
    }
}

/// The mapped address of a reply is read from its first attribute of type
/// `0x0001` (`MAPPED-ADDRESS`) or `0x0020` (`XOR-MAPPED-ADDRESS`), whichever
/// comes first: a `MAPPED-ADDRESS` value is read as it stands, an
/// `XOR-MAPPED-ADDRESS` value through the key of the transaction id; with
/// neither type present there is no mapped address. Attributes of other types
/// before it change nothing.
pub proof fn lemma_first_mapped_attribute(attrs: Seq<StunAttributeView>, tid: Seq<u8>, i: int)
    requires
        0 <= i <= attrs.len(),
        forall|j: int| 0 <= j < i ==> attrs[j].attr_type != 0x0001u16 && attrs[j].attr_type != 0x0020u16,
    ensures
        i < attrs.len() && attrs[i].attr_type == 0x0001u16 ==> spec_first_mapped(attrs, tid)
            == spec_parse_address(attrs[i].value),
        i < attrs.len() && attrs[i].attr_type == 0x0020u16 ==> spec_first_mapped(attrs, tid)
            == spec_parse_address(spec_unxor(attrs[i].value, tid)),
        i == attrs.len() ==> spec_first_mapped(attrs, tid) is None,
    decreases i,
{
    if i > 0 {
        let rest = attrs.drop_first();
        assert forall|j: int| 0 <= j < i - 1 implies rest[j].attr_type != 0x0001u16 && rest[j].attr_type
            != 0x0020u16 by {
            assert(rest[j] == attrs[j + 1]);
        }
        lemma_first_mapped_attribute(rest, tid, i - 1);
        if i < attrs.len() {
            assert(rest[i - 1] == attrs[i]);
        }
    }
}

/// The changed address of a reply is read from its first attribute of type
/// `0x0005` (`CHANGED-ADDRESS`), as its value stands; with none there is no
/// changed address. Attributes of other types before it change nothing.
pub proof fn lemma_first_changed_attribute(attrs: Seq<StunAttributeView>, tid: Seq<u8>, i: int)
    requires
        0 <= i <= attrs.len(),
        forall|j: int| 0 <= j < i ==> attrs[j].attr_type != 0x0005u16,
    ensures
        i < attrs.len() && attrs[i].attr_type == 0x0005u16 ==> spec_first_changed(attrs, tid)
            == spec_parse_address(attrs[i].value),
        i == attrs.len() ==> spec_first_changed(attrs, tid) is None,
    decreases i,
{
    if i > 0 {
        let rest = attrs.drop_first();
        assert forall|j: int| 0 <= j < i - 1 implies rest[j].attr_type != 0x0005u16 by {
            assert(rest[j] == attrs[j + 1]);
        }
        lemma_first_changed_attribute(rest, tid, i - 1);
        if i < attrs.len() {
            assert(rest[i - 1] == attrs[i]);
        }
    }
}

/// An IPv4 address value (eight bytes, family 1) gives the port of bytes 2
/// and 3 and the address of bytes 4 to 7, most significant byte first.
pub proof fn lemma_parse_ipv4_address(v: Seq<u8>)
    requires
        v.len() == 8,
        v[1] == 1,
    ensures
        spec_parse_address(v) == Some(
            SocketAddress {
                ip: IpAddress::V4((v[4] * 0x100_0000 + v[5] * 0x1_0000 + v[6] * 0x100 + v[7]) as u32),
                port: (v[2] * 0x100 + v[3]) as u16,
            },
        ),
{
    let a = v.subrange(4, 8);
    let p = v.subrange(2, 4);
    reveal_with_fuel(be_value, 5);
    assert(a.drop_last().drop_last().drop_last().drop_last().len() == 0);
    assert(p.drop_last().drop_last().len() == 0);
    assert(be_value(a) == v[4] * 0x100_0000 + v[5] * 0x1_0000 + v[6] * 0x100 + v[7]);
    assert(be_value(p) == v[2] * 0x100 + v[3]);
}

/// Reading an `XOR-MAPPED-ADDRESS` value back keeps its length and its first
/// two bytes, xors the port with `0x2112`, the next four bytes with the magic
/// cookie `0x2112A442`, the twelve after them with the transaction id, and
/// keeps the rest.
pub proof fn lemma_unxor_bytes(v: Seq<u8>, tid: Seq<u8>)
    requires
        tid.len() == 12,
    ensures
        spec_unxor(v, tid).len() == v.len(),
        forall|i: int| 0 <= i < v.len() && (i < 2 || i >= 20) ==> #[trigger] spec_unxor(v, tid)[i] == v[i],
        v.len() >= 8 ==> spec_unxor(v, tid)[2] == v[2] ^ 0x21u8 && spec_unxor(v, tid)[3] == v[3] ^ 0x12u8
            && spec_unxor(v, tid)[4] == v[4] ^ 0x21u8 && spec_unxor(v, tid)[5] == v[5] ^ 0x12u8
            && spec_unxor(v, tid)[6] == v[6] ^ 0xA4u8 && spec_unxor(v, tid)[7] == v[7] ^ 0x42u8,
        forall|i: int| 8 <= i < v.len() && i < 20 ==> #[trigger] spec_unxor(v, tid)[i] == v[i] ^ tid[i - 8],
{
}

/// Reads a transport address attribute value.
pub fn parse_address(v: &[u8]) -> (r: Option<SocketAddress>)
    ensures
        r == spec_parse_address(v@),
{
    proof {
        lemma_pow256_values();
    }
    if v.len() == 8 && v[1] == 1 {
        proof {
            lemma_be_value_bound(v@.subrange(4, 8));
            lemma_be_value_bound(v@.subrange(2, 4));
        }
        let ip = be_uint(v, 4, 8) as u32;
        let port = be_uint(v, 2, 4) as u16;
        Some(SocketAddress { ip: IpAddress::V4(ip), port })
    } else if v.len() == 20 && v[1] == 2 {
        proof {
            lemma_be_value_bound(v@.subrange(2, 4));
        }
        let ip = be_uint(v, 4, 20);
        let port = be_uint(v, 2, 4) as u16;
        Some(SocketAddress { ip: IpAddress::V6(ip), port })
    } else {
        None
    }
}

/// Xors the port and address bytes of an `XOR-MAPPED-ADDRESS` value back.
pub fn unxor(v: &[u8], tid: &[u8]) -> (r: Vec<u8>)
    requires
        tid@.len() == 12,
    ensures
        r@ == spec_unxor(v@, tid@),
{
    let mut key: Vec<u8> = vec![0x21u8, 0x12u8, 0xA4u8, 0x42u8];
    let mut j: usize = 0;
    while j < 12
        invariant
            0 <= j <= 12,
            tid@.len() == 12,
            key@ =~= seq![0x21u8, 0x12u8, 0xA4u8, 0x42u8] + tid@.take(j as int),
        decreases 12 - j,
    {
        key.push(tid[j]);
        j = j + 1;
    }
    assert(key@ =~= xor_key(tid@));
    let mut r: Vec<u8> = Vec::new();
    let n = v.len();
    for i in 0..n
        invariant
            n == v@.len(),
            key@ == xor_key(tid@),
            key@.len() == 16,
            r@.len() == i,
            forall|k: int| 0 <= k < i ==> #[trigger] r@[k] == spec_unxor(v@, tid@)[k],
    {
        let b = if 2 <= i && i < 4 {
            v[i] ^ key[i - 2]
        } else if 4 <= i && i < 20 {
            v[i] ^ key[i - 4]
        } else {
            v[i]
        };
        r.push(b);
    }
    assert(r@ =~= spec_unxor(v@, tid@));
    r
}

/// The transport address of an address attribute.
pub fn attribute_address(a: &StunAttribute, tid: &[u8]) -> (r: Option<SocketAddress>)
    requires
        tid@.len() == 12,
    ensures
        r == spec_attribute_address(a@, tid@),
{
    if a.attr_type == ATTR_XOR_MAPPED_ADDRESS {
        let plain = unxor(a.value.as_slice(), tid);
        parse_address(plain.as_slice())
    } else {
        parse_address(a.value.as_slice())
    }
}

/// Whether the message is one the detector can read; see [`spec_well_formed`].
pub fn is_well_formed(m: &StunMessage) -> (b: bool)
    ensures
        b == spec_well_formed(m@),
{
    if m.transaction_id.len() != 12 {
        return false;
    }
    let n = m.attributes.len();
    for i in 0..n
        invariant
            n == m.attributes@.len(),
            m.transaction_id@.len() == 12,
            forall|k: int|
                0 <= k < i && is_address_attribute(#[trigger] m@.attributes[k].attr_type)
                    ==> spec_attribute_address(m@.attributes[k], m@.transaction_id) is Some,
    {
        let a = &m.attributes[i];
        assert(m@.attributes[i as int] == a@);
        if a.attr_type == ATTR_MAPPED_ADDRESS || a.attr_type == ATTR_XOR_MAPPED_ADDRESS
            || a.attr_type == ATTR_CHANGED_ADDRESS {
            if attribute_address(a, m.transaction_id.as_slice()).is_none() {
                return false;
            }
        }
    }
    true
}

/// The mapped address a reply reports: that of its first `MAPPED-ADDRESS` or
/// `XOR-MAPPED-ADDRESS` attribute.
pub fn mapped_address(m: &StunMessage) -> (r: Option<SocketAddress>)
    requires
        m.transaction_id@.len() == 12,
    ensures
        r == spec_first_mapped(m@.attributes, m@.transaction_id),
{
    let n = m.attributes.len();
    let ghost attrs = m@.attributes;
    let ghost tid = m@.transaction_id;
    proof {
        assert(attrs.skip(0) =~= attrs);
    }
    for i in 0..n
        invariant
            n == m.attributes@.len(),
            attrs == m@.attributes,
            tid == m@.transaction_id,
            tid.len() == 12,
            spec_first_mapped(attrs, tid) == spec_first_mapped(attrs.skip(i as int), tid),
    {
        let a = &m.attributes[i];
        proof {
            assert(attrs[i as int] == a@);
            assert(attrs.skip(i as int)[0] == attrs[i as int]);
            assert(attrs.skip(i as int).drop_first() =~= attrs.skip(i + 1));
        }
        if a.attr_type == ATTR_MAPPED_ADDRESS || a.attr_type == ATTR_XOR_MAPPED_ADDRESS {
            return attribute_address(a, m.transaction_id.as_slice());
        }
    }
    proof {
        assert(attrs.skip(n as int).len() == 0);
    }
    None
}

/// The changed address a reply reports: that of its first `CHANGED-ADDRESS`
/// attribute.
pub fn changed_address(m: &StunMessage) -> (r: Option<SocketAddress>)
    requires
        m.transaction_id@.len() == 12,
    ensures
        r == spec_first_changed(m@.attributes, m@.transaction_id),
{
    let n = m.attributes.len();
    let ghost attrs = m@.attributes;
    let ghost tid = m@.transaction_id;
    proof {
        assert(attrs.skip(0) =~= attrs);
    }
    for i in 0..n
        invariant
            n == m.attributes@.len(),
            attrs == m@.attributes,
            tid == m@.transaction_id,
            tid.len() == 12,
            spec_first_changed(attrs, tid) == spec_first_changed(attrs.skip(i as int), tid),
    {
        let a = &m.attributes[i];
        proof {
            assert(attrs[i as int] == a@);
            assert(attrs.skip(i as int)[0] == attrs[i as int]);
            assert(attrs.skip(i as int).drop_first() =~= attrs.skip(i + 1));
        }
        if a.attr_type == ATTR_CHANGED_ADDRESS {
            return attribute_address(a, m.transaction_id.as_slice());
        }
    }
    proof {
        assert(attrs.skip(n as int).len() == 0);
    }
    None
}

} // verus!
