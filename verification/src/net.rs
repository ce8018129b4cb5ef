//! Socket addresses as plain values, and their bincode wire format.

use vstd::prelude::*;

verus! {

/// A socket address: an IPv4 address (as the big-endian `u32` of its four
/// octets) and port, or an IPv6 address (as the big-endian `u128` of its
/// sixteen octets), port, flow info and scope id.
#[allow(inconsistent_fields)]
#[derive(Clone, Copy, Debug, PartialEq, Eq, Structural)]
pub enum SocketAddress {
    V4 { ip: u32, port: u16 },
    V6 { ip: u128, port: u16, flowinfo: u32, scope_id: u32 },
}

/// The four octets of an IPv4 address, first octet first.
pub open spec fn u32_be_bytes(v: u32) -> Seq<u8> {
    seq![(v >> 24u32) as u8, (v >> 16u32) as u8, (v >> 8u32) as u8, v as u8]
}

pub open spec fn u64_be_bytes(v: u64) -> Seq<u8> {
    u32_be_bytes((v >> 32u64) as u32) + u32_be_bytes(v as u32)
}

/// The sixteen octets of an IPv6 address, first octet first.
pub open spec fn u128_be_bytes(v: u128) -> Seq<u8> {
    u64_be_bytes((v >> 64u128) as u64) + u64_be_bytes(v as u64)
}

/// A port as two bytes, low byte first.
pub open spec fn u16_le_bytes(v: u16) -> Seq<u8> {
    seq![v as u8, (v >> 8u16) as u8]
}

/// A `u32` as four bytes, low byte first.
pub open spec fn u32_le_bytes(v: u32) -> Seq<u8> {
    seq![v as u8, (v >> 8u32) as u8, (v >> 16u32) as u8, (v >> 24u32) as u8]
}

pub open spec fn le_u32_of(b: Seq<u8>) -> u32 {
    ((b[3] as u32) << 24u32) | ((b[2] as u32) << 16u32) | ((b[1] as u32) << 8u32) | (b[0] as u32)
}

/// The bincode (fixed-int, little-endian) encoding of a socket address:
/// a four-byte variant index, the octets, then the port. Flow info and
/// scope id of an IPv6 address are not encoded.
pub open spec fn socket_address_bytes(a: SocketAddress) -> Seq<u8> {
    match a {
        SocketAddress::V4 { ip, port } => u32_le_bytes(0) + u32_be_bytes(ip) + u16_le_bytes(port),
        SocketAddress::V6 { ip, port, .. } => u32_le_bytes(1) + u128_be_bytes(ip) + u16_le_bytes(port),
    }
}

pub open spec fn be_u32_of(b: Seq<u8>) -> u32 {
    ((b[0] as u32) << 24u32) | ((b[1] as u32) << 16u32) | ((b[2] as u32) << 8u32) | (b[3] as u32)
}

pub open spec fn be_u64_of(b: Seq<u8>) -> u64 {
    ((be_u32_of(b.subrange(0, 4)) as u64) << 32u64) | (be_u32_of(b.subrange(4, 8)) as u64)
}

pub open spec fn be_u128_of(b: Seq<u8>) -> u128 {
    ((be_u64_of(b.subrange(0, 8)) as u128) << 64u128) | (be_u64_of(b.subrange(8, 16)) as u128)
}

pub open spec fn le_u16_of(lo: u8, hi: u8) -> u16 {
    ((hi as u16) << 8u16) | (lo as u16)
}

/// What bincode's `deserialize::<SocketAddr>` gives for `b`: variant index 0
/// with at least ten bytes is IPv4, variant index 1 with at least twenty-two
/// bytes is IPv6 (flow info and scope id zero); anything else is an error.
/// Bytes after the address are ignored.
pub open spec fn socket_address_of_bytes(b: Seq<u8>) -> Option<SocketAddress> {
    if b.len() >= 10 && le_u32_of(b.subrange(0, 4)) == 0 {
        Some(SocketAddress::V4 { ip: be_u32_of(b.subrange(4, 8)), port: le_u16_of(b[8], b[9]) })
    } else if b.len() >= 22 && le_u32_of(b.subrange(0, 4)) == 1 {
        Some(SocketAddress::V6 {
            ip: be_u128_of(b.subrange(4, 20)),
            port: le_u16_of(b[20], b[21]),
            flowinfo: 0,
            scope_id: 0,
        })
    } else {
        None
    }
}

/// The address as the wire carries it: flow info and scope id dropped.
pub open spec fn wire_form(a: SocketAddress) -> SocketAddress {
    match a {
        SocketAddress::V4 { .. } => a,
        SocketAddress::V6 { ip, port, .. } => SocketAddress::V6 { ip, port, flowinfo: 0, scope_id: 0 },
    }
}

pub proof fn lemma_u32_bytes_roundtrip(v: u32)
    ensures
        u32_be_bytes(v).len() == 4,
        be_u32_of(u32_be_bytes(v)) == v,
{
    let b = u32_be_bytes(v);
    let (b0, b1, b2, b3) = (b[0], b[1], b[2], b[3]);
    assert(b0 == (v >> 24u32) as u8 && b1 == (v >> 16u32) as u8 && b2 == (v >> 8u32) as u8 && b3 == v as u8);
    assert(((b0 as u32) << 24u32) | ((b1 as u32) << 16u32) | ((b2 as u32) << 8u32) | (b3 as u32) == v)
        by (bit_vector)
        requires
            b0 == (v >> 24u32) as u8,
            b1 == (v >> 16u32) as u8,
            b2 == (v >> 8u32) as u8,
            b3 == v as u8,
    ;
}

pub proof fn lemma_u64_bytes_roundtrip(v: u64)
    ensures
        u64_be_bytes(v).len() == 8,
        be_u64_of(u64_be_bytes(v)) == v,
{
    let hi = (v >> 32u64) as u32;
    let lo = v as u32;
    lemma_u32_bytes_roundtrip(hi);
    lemma_u32_bytes_roundtrip(lo);
    let b = u64_be_bytes(v);
    assert(b.subrange(0, 4) =~= u32_be_bytes(hi));
    assert(b.subrange(4, 8) =~= u32_be_bytes(lo));
    assert(((hi as u64) << 32u64) | (lo as u64) == v) by (bit_vector)
        requires
            hi == (v >> 32u64) as u32,
            lo == v as u32,
    ;
}

pub proof fn lemma_u128_bytes_roundtrip(v: u128)
    ensures
        u128_be_bytes(v).len() == 16,
        be_u128_of(u128_be_bytes(v)) == v,
{
    let hi = (v >> 64u128) as u64;
    let lo = v as u64;
    lemma_u64_bytes_roundtrip(hi);
    lemma_u64_bytes_roundtrip(lo);
    let b = u128_be_bytes(v);
    assert(b.subrange(0, 8) =~= u64_be_bytes(hi));
    assert(b.subrange(8, 16) =~= u64_be_bytes(lo));
    assert(((hi as u128) << 64u128) | (lo as u128) == v) by (bit_vector)
        requires
            hi == (v >> 64u128) as u64,
            lo == v as u64,
    ;
}

pub proof fn lemma_u32_le_bytes_roundtrip(v: u32)
    ensures
        u32_le_bytes(v).len() == 4,
        le_u32_of(u32_le_bytes(v)) == v,
{
    let b = u32_le_bytes(v);
    let (b0, b1, b2, b3) = (b[0], b[1], b[2], b[3]);
    assert(((b3 as u32) << 24u32) | ((b2 as u32) << 16u32) | ((b1 as u32) << 8u32) | (b0 as u32) == v)
        by (bit_vector)
        requires
            b0 == v as u8,
            b1 == (v >> 8u32) as u8,
            b2 == (v >> 16u32) as u8,
            b3 == (v >> 24u32) as u8,
    ;
}

pub proof fn lemma_u16_bytes_roundtrip(v: u16)
    ensures
        u16_le_bytes(v).len() == 2,
        le_u16_of(u16_le_bytes(v)[0], u16_le_bytes(v)[1]) == v,
{
    let lo = v as u8;
    let hi = (v >> 8u16) as u8;
    assert(((hi as u16) << 8u16) | (lo as u16) == v) by (bit_vector)
        requires
            lo == v as u8,
            hi == (v >> 8u16) as u8,
    ;
}

/// Decoding the bincode bytes of an address gives the address back, in its
/// wire form (an IPv6 address loses its flow info and scope id).
pub proof fn lemma_socket_address_roundtrip(a: SocketAddress)
    ensures
        socket_address_of_bytes(socket_address_bytes(a)) == Some(wire_form(a)),
{
    let b = socket_address_bytes(a);
    match a {
        SocketAddress::V4 { ip, port } => {
            lemma_u32_le_bytes_roundtrip(0);
            assert(b.subrange(0, 4) =~= u32_le_bytes(0));
            lemma_u32_bytes_roundtrip(ip);
            lemma_u16_bytes_roundtrip(port);
            assert(b.subrange(4, 8) =~= u32_be_bytes(ip));
            assert(b[8] == u16_le_bytes(port)[0] && b[9] == u16_le_bytes(port)[1]);
        },
        SocketAddress::V6 { ip, port, .. } => {
            lemma_u32_le_bytes_roundtrip(1);
            assert(b.subrange(0, 4) =~= u32_le_bytes(1));
            lemma_u128_bytes_roundtrip(ip);
            lemma_u16_bytes_roundtrip(port);
            assert(b.subrange(4, 20) =~= u128_be_bytes(ip));
            assert(b[20] == u16_le_bytes(port)[0] && b[21] == u16_le_bytes(port)[1]);
        },
    }
}


#[verifier::external_type_specification]
#[verifier::external_body]
pub struct ExBincodeErrorKind(bincode::ErrorKind);

/// Calls `bincode::serialize` on the tuple `(tag, octets, port)`, the serde
/// shape of `SocketAddr::V4` with variant index `tag`. Claimed: the call
/// succeeds (bincode's default options write into a growable buffer with no
/// size limit) and yields the `u32` little-endian, the four octets, and the
/// `u16` little-endian, in that order.
#[verifier::external_body]
fn bincode_serialize_v4_layout(tag: u32, octets: [u8; 4], port: u16) -> (r: Result<Vec<u8>, Box<bincode::ErrorKind>>)
    ensures
        r is Ok,
        r matches Ok(b) ==> b@ == u32_le_bytes(tag) + octets@ + u16_le_bytes(port),
{
    bincode::serialize(&(tag, octets, port))
}

/// Calls `bincode::serialize` on the tuple `(tag, octets, port)`, the serde
/// shape of `SocketAddr::V6` with variant index `tag` (serde does not write
/// flow info or scope id). Claimed as for the IPv4 layout, with sixteen
/// octets.
#[verifier::external_body]
fn bincode_serialize_v6_layout(tag: u32, octets: [u8; 16], port: u16) -> (r: Result<Vec<u8>, Box<bincode::ErrorKind>>)
    ensures
        r is Ok,
        r matches Ok(b) ==> b@ == u32_le_bytes(tag) + octets@ + u16_le_bytes(port),
{
    bincode::serialize(&(tag, octets, port))
}

/// Calls `bincode::deserialize::<(u32, [u8; 4], u16)>`. Claimed: it fails
/// exactly when fewer than ten bytes are given (trailing bytes are allowed),
/// and otherwise reads a little-endian `u32`, four octets and a
/// little-endian `u16` from the front.
#[verifier::external_body]
fn bincode_deserialize_v4_layout(bytes: &[u8]) -> (r: Result<(u32, [u8; 4], u16), Box<bincode::ErrorKind>>)
    ensures
        r is Ok <==> bytes@.len() >= 10,
        r matches Ok(t) ==> t.0 == le_u32_of(bytes@.subrange(0, 4)) && t.1@ == bytes@.subrange(4, 8)
            && t.2 == le_u16_of(bytes@[8], bytes@[9]),
{
    bincode::deserialize::<(u32, [u8; 4], u16)>(bytes)
}

/// Calls `bincode::deserialize::<(u32, [u8; 16], u16)>`. Claimed: it fails
/// exactly when fewer than twenty-two bytes are given, and otherwise reads a
/// little-endian `u32`, sixteen octets and a little-endian `u16` from the
/// front.
#[verifier::external_body]
fn bincode_deserialize_v6_layout(bytes: &[u8]) -> (r: Result<(u32, [u8; 16], u16), Box<bincode::ErrorKind>>)
    ensures
        r is Ok <==> bytes@.len() >= 22,
        r matches Ok(t) ==> t.0 == le_u32_of(bytes@.subrange(0, 4)) && t.1@ == bytes@.subrange(4, 20)
            && t.2 == le_u16_of(bytes@[20], bytes@[21]),
{
    bincode::deserialize::<(u32, [u8; 16], u16)>(bytes)
}

/// Why a reply did not carry an address.
#[derive(Clone, Copy, Debug, PartialEq, Eq, Structural)]
pub enum AddressError {
    /// The payload is not the bincode encoding of a socket address.
    Malformed,
}

/// The four octets of `v`, first octet first.
fn octets_of_u32(v: u32) -> (r: [u8; 4])
    ensures
        r@ == u32_be_bytes(v),
{
    let r = [(v >> 24u32) as u8, (v >> 16u32) as u8, (v >> 8u32) as u8, v as u8];
    assert(r@ =~= u32_be_bytes(v));
    r
}

/// The sixteen octets of `v`, first octet first.
fn octets_of_u128(v: u128) -> (r: [u8; 16])
    ensures
        r@ == u128_be_bytes(v),
{
    let hi = (v >> 64u128) as u64;
    let lo = v as u64;
    let a = octets_of_u32((hi >> 32u64) as u32);
    let b = octets_of_u32(hi as u32);
    let c = octets_of_u32((lo >> 32u64) as u32);
    let d = octets_of_u32(lo as u32);
    let r = [
        a[0], a[1], a[2], a[3], b[0], b[1], b[2], b[3],
        c[0], c[1], c[2], c[3], d[0], d[1], d[2], d[3],
    ];
    assert(r@ =~= u128_be_bytes(v));
    r
}

/// The big-endian `u32` of four octets.
fn u32_of_octets(o: [u8; 4]) -> (r: u32)
    ensures
        r == be_u32_of(o@),
{
    ((o[0] as u32) << 24u32) | ((o[1] as u32) << 16u32) | ((o[2] as u32) << 8u32) | (o[3] as u32)
}

/// The big-endian `u128` of sixteen octets.
fn u128_of_octets(o: [u8; 16]) -> (r: u128)
    ensures
        r == be_u128_of(o@),
{
    let w0 = u32_of_octets([o[0], o[1], o[2], o[3]]);
    let w1 = u32_of_octets([o[4], o[5], o[6], o[7]]);
    let w2 = u32_of_octets([o[8], o[9], o[10], o[11]]);
    let w3 = u32_of_octets([o[12], o[13], o[14], o[15]]);
    let hi = ((w0 as u64) << 32u64) | (w1 as u64);
    let lo = ((w2 as u64) << 32u64) | (w3 as u64);
    let ghost s = o@;
    assert(w0 == be_u32_of(s.subrange(0, 8).subrange(0, 4)));
    assert(w1 == be_u32_of(s.subrange(0, 8).subrange(4, 8)));
    assert(w2 == be_u32_of(s.subrange(8, 16).subrange(0, 4)));
    assert(w3 == be_u32_of(s.subrange(8, 16).subrange(4, 8)));
    ((hi as u128) << 64u128) | (lo as u128)
}

/// The payload with which a server tells a peer the address the peer's
/// packet came from: the bincode encoding of that address.
pub fn echo_address_payload(from: SocketAddress) -> (payload: Vec<u8>)
    ensures
        payload@ == socket_address_bytes(from),
{
    let r = match from {
        SocketAddress::V4 { ip, port } => bincode_serialize_v4_layout(0, octets_of_u32(ip), port),
        SocketAddress::V6 { ip, port, .. } => bincode_serialize_v6_layout(1, octets_of_u128(ip), port),
    };
    match r {
        Ok(bytes) => bytes,
        Err(_) => Vec::new(),
    }
}

/// The address that a server's echo reply carries.
pub fn address_from_echo(payload: &[u8]) -> (r: Result<SocketAddress, AddressError>)
    ensures
        match socket_address_of_bytes(payload@) {
            Some(a) => r == Ok::<SocketAddress, AddressError>(a),
            None => r == Err::<SocketAddress, AddressError>(AddressError::Malformed),
        },
{
    if let Ok((tag, octets, port)) = bincode_deserialize_v4_layout(payload) {
        if tag == 0 {
            return Ok(SocketAddress::V4 { ip: u32_of_octets(octets), port });
        }
    }
    if let Ok((tag, octets, port)) = bincode_deserialize_v6_layout(payload) {
        if tag == 1 {
            return Ok(SocketAddress::V6 { ip: u128_of_octets(octets), port, flowinfo: 0, scope_id: 0 });
        }
    }
    Err(AddressError::Malformed)
}

/// A peer that decodes the server's echo of its address learns that address
/// as the wire carries it.
pub proof fn law_echo_roundtrip(from: SocketAddress)
    ensures
        socket_address_of_bytes(socket_address_bytes(from)) == Some(wire_form(from)),
{
    lemma_socket_address_roundtrip(from);
}

/// An IPv4 socket address from the address's four octets and a port.
pub fn socket_v4(a: u8, b: u8, c: u8, d: u8, port: u16) -> (r: SocketAddress)
    ensures
        r == (SocketAddress::V4 { ip: ipv4_spec(a, b, c, d), port }),
{
    SocketAddress::V4 { ip: ipv4(a, b, c, d), port }
}

/// The big-endian `u32` of four IPv4 octets.
pub open spec fn ipv4_spec(a: u8, b: u8, c: u8, d: u8) -> u32 {
    ((a as u32) << 24u32) | ((b as u32) << 16u32) | ((c as u32) << 8u32) | (d as u32)
}

/// The IPv4 address with octets `a.b.c.d`.
pub fn ipv4(a: u8, b: u8, c: u8, d: u8) -> (r: u32)
    ensures
        r == ipv4_spec(a, b, c, d),
        u32_be_bytes(r) == seq![a, b, c, d],
{
    let r = ((a as u32) << 24u32) | ((b as u32) << 16u32) | ((c as u32) << 8u32) | (d as u32);
    assert((r >> 24u32) as u8 == a && (r >> 16u32) as u8 == b && (r >> 8u32) as u8 == c && r as u8 == d)
        by (bit_vector)
        requires
            r == ((a as u32) << 24u32) | ((b as u32) << 16u32) | ((c as u32) << 8u32) | (d as u32),
    ;
    assert(u32_be_bytes(r) =~= seq![a, b, c, d]);
    r
}

} // verus!
