//! Endpoint addresses and the request URI built from them.
use vstd::prelude::*;
use vstd::utf8::encode_utf8;
use crate::hexcode::{encode_hex, hex_text};

verus! {

broadcast use vstd::string::group_string_axioms;

/// An IP address: four octets, or eight 16-bit groups and a scope id.
#[derive(Clone, Copy, Debug)]
pub enum IpAddress {
    V4([u8; 4]),
    V6([u16; 8], u32),
}

/// An IP address and a port.
#[derive(Clone, Copy, Debug)]
pub struct SocketAddress {
    pub ip: IpAddress,
    pub port: u16,
}

/// Where a peer is: an IP endpoint, or the path of a local domain socket.
#[derive(Debug)]
pub enum Address {
    Ip(SocketAddress),
    Unix(String),
}

impl Clone for Address {
    fn clone(&self) -> (r: Address)
        ensures
            r == *self,
    {
        match self {
            Address::Ip(a) => Address::Ip(*a),
            Address::Unix(p) => Address::Unix(p.clone()),
        }
    }
}

impl Address {
    /// The address that text names: the IP endpoint that the text parsed as
    /// (`parsed`, from std's `ip:port` parser), else the socket path it is.
    pub fn from_text(text: String, parsed: Option<SocketAddress>) -> (r: Address)
        ensures
            parsed matches Some(a) ==> r == Address::Ip(a),
            parsed is None ==> r == Address::Unix(text),
    {
        match parsed {
            Some(a) => Address::Ip(a),
            None => Address::Unix(text),
        }
    }
}

/// The text of an IP endpoint as std's `SocketAddr` writes it.
pub uninterp spec fn socket_addr_text(a: SocketAddress) -> Seq<char>;

/// Whether the `http` crate reads the bytes as a URI.
pub uninterp spec fn uri_accepted(text: Seq<u8>) -> bool;

/// Relies on `Display` of std's `SocketAddr` (re-exported by async-std):
/// `a.b.c.d:port`, or `[v6%scope]:port` in its shortest form.
#[verifier::external_body]
fn socket_addr_string(a: SocketAddress) -> (r: String)
    ensures
        r@ == socket_addr_text(a),
{
    let addr = match a.ip {
        IpAddress::V4(o) => async_std::net::SocketAddr::V4(
            async_std::net::SocketAddrV4::new(o.into(), a.port),
        ),
        IpAddress::V6(g, scope) => async_std::net::SocketAddr::V6(
            async_std::net::SocketAddrV6::new(g.into(), a.port, 0, scope),
        ),
    };
    addr.to_string()
}

/// Relies on `http::Uri::try_from(&[u8])`: whether the text parses as a URI.
#[verifier::external_body]
fn parses_as_uri(text: &[u8]) -> (r: bool)
    ensures
        r == uri_accepted(text@),
{
    http::Uri::try_from(text).is_ok()
}

pub open spec fn http_scheme() -> Seq<u8> {
    seq![104u8, 116, 116, 112, 58, 47, 47]
}

pub open spec fn unix_scheme() -> Seq<u8> {
    seq![104u8, 116, 116, 112, 43, 117, 110, 105, 120, 58, 47, 47]
}

/// The URI text of a call to `path` on `addr`: `http://` and the IP
/// endpoint's text, or `http+unix://` and the socket path in hexadecimal;
/// then the path.
pub open spec fn uri_text(addr: Address, path: Seq<u8>) -> Seq<u8> {
    match addr {
        Address::Ip(a) => http_scheme() + encode_utf8(socket_addr_text(a)) + path,
        Address::Unix(p) => unix_scheme() + hex_text(encode_utf8(p@)) + path,
    }
}

fn push_bytes(out: &mut Vec<u8>, bytes: &[u8])
    ensures
        final(out)@ == old(out)@ + bytes@,
{
    let mut i: usize = 0;
    let ghost start = out@;
    while i < bytes.len()
        invariant
            i <= bytes@.len(),
            out@ == start + bytes@.subrange(0, i as int),
        decreases bytes@.len() - i,
    {
        out.push(bytes[i]);
        assert(bytes@.subrange(0, i + 1) =~= bytes@.subrange(0, i as int).push(bytes@[i as int]));
        i = i + 1;
    }
    assert(bytes@.subrange(0, i as int) =~= bytes@);
}

/// The request URI for a call to `path` on `addr`; `None` when the text is
/// not a URI (a path that is not a valid path and query).
pub fn build_uri(addr: &Address, path: &str) -> (r: Option<Vec<u8>>)
    ensures
        r is Some <==> uri_accepted(uri_text(*addr, encode_utf8(path@))),
        r matches Some(v) ==> v@ == uri_text(*addr, encode_utf8(path@)),
{
    let mut out: Vec<u8> = Vec::new();
    match addr {
        Address::Ip(a) => {
            let s = vec![104u8, 116, 116, 112, 58, 47, 47];
            push_bytes(&mut out, s.as_slice());
            let t = socket_addr_string(*a);
            push_bytes(&mut out, t.as_str().as_bytes());
        },
        Address::Unix(p) => {
            let s = vec![104u8, 116, 116, 112, 43, 117, 110, 105, 120, 58, 47, 47];
            push_bytes(&mut out, s.as_slice());
            let h = encode_hex(p.as_str().as_bytes());
            push_bytes(&mut out, h.as_slice());
        },
    }
    push_bytes(&mut out, path.as_bytes());
    assert(out@ =~= uri_text(*addr, encode_utf8(path@)));
    if parses_as_uri(out.as_slice()) {
        Some(out)
    } else {
        None
    }
}

} // verus!
