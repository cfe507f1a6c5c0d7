//! Key-value metadata carried beside a payload: request and response headers
//! and trailers. Values are raw bytes, as on the wire.
use vstd::prelude::*;
use vstd::utf8::{encode_utf8, encode_utf8_decode_utf8};
use crate::compression::bytes_equal;

verus! {

/// A header name: the ones this library reads or writes, or any other.
pub enum HeaderName {
    GrpcStatus,
    GrpcMessage,
    GrpcStatusDetails,
    ContentType,
    Te,
    GrpcEncoding,
    GrpcAcceptEncoding,
    Custom(String),
}

/// Two names denote the same header.
pub open spec fn same_name(a: HeaderName, b: HeaderName) -> bool {
    match (a, b) {
        (HeaderName::Custom(x), HeaderName::Custom(y)) => x@ == y@,
        (HeaderName::Custom(_), _) => false,
        (_, HeaderName::Custom(_)) => false,
        _ => a == b,
    }
}

/// The text of a header name on the wire (lowercase).
pub open spec fn wire_text(n: HeaderName) -> Seq<char> {
    match n {
        HeaderName::GrpcStatus => "grpc-status"@,
        HeaderName::GrpcMessage => "grpc-message"@,
        HeaderName::GrpcStatusDetails => "grpc-status-details-bin"@,
        HeaderName::ContentType => "content-type"@,
        HeaderName::Te => "te"@,
        HeaderName::GrpcEncoding => "grpc-encoding"@,
        HeaderName::GrpcAcceptEncoding => "grpc-accept-encoding"@,
        HeaderName::Custom(s) => s@,
    }
}

/// The text is the name of a header that the protocol itself uses.
pub open spec fn is_protocol_text(t: Seq<char>) -> bool {
    ||| t == "grpc-status"@
    ||| t == "grpc-message"@
    ||| t == "grpc-status-details-bin"@
    ||| t == "content-type"@
    ||| t == "te"@
    ||| t == "grpc-encoding"@
    ||| t == "grpc-accept-encoding"@
}

fn same_text(a: &str, b: &str) -> (r: bool)
    ensures
        r == (a@ == b@),
{
    let r = bytes_equal(a.as_bytes(), b.as_bytes());
    proof {
        encode_utf8_decode_utf8(a@);
        encode_utf8_decode_utf8(b@);
    }
    r
}

impl HeaderName {
    /// The name as it goes on the wire.
    pub fn as_str(&self) -> (r: &str)
        ensures
            r@ == wire_text(*self),
    {
        match self {
            HeaderName::GrpcStatus => "grpc-status",
            HeaderName::GrpcMessage => "grpc-message",
            HeaderName::GrpcStatusDetails => "grpc-status-details-bin",
            HeaderName::ContentType => "content-type",
            HeaderName::Te => "te",
            HeaderName::GrpcEncoding => "grpc-encoding",
            HeaderName::GrpcAcceptEncoding => "grpc-accept-encoding",
            HeaderName::Custom(s) => s.as_str(),
        }
    }

    /// The header named by lowercase wire text: one the protocol uses, or a
    /// custom one.
    pub fn from_wire(s: &str) -> (r: HeaderName)
        ensures
            wire_text(r) == s@,
            r is Custom ==> !is_protocol_text(s@),
    {
        if same_text(s, "grpc-status") {
            HeaderName::GrpcStatus
        } else if same_text(s, "grpc-message") {
            HeaderName::GrpcMessage
        } else if same_text(s, "grpc-status-details-bin") {
            HeaderName::GrpcStatusDetails
        } else if same_text(s, "content-type") {
            HeaderName::ContentType
        } else if same_text(s, "te") {
            HeaderName::Te
        } else if same_text(s, "grpc-encoding") {
            HeaderName::GrpcEncoding
        } else if same_text(s, "grpc-accept-encoding") {
            HeaderName::GrpcAcceptEncoding
        } else {
            HeaderName::Custom(s.to_owned())
        }
    }

    pub fn is_same(&self, other: &HeaderName) -> (r: bool)
        ensures
            r == same_name(*self, *other),
    {
        match (self, other) {
            (HeaderName::Custom(x), HeaderName::Custom(y)) => x.eq(y),
            (HeaderName::GrpcStatus, HeaderName::GrpcStatus) => true,
            (HeaderName::GrpcMessage, HeaderName::GrpcMessage) => true,
            (HeaderName::GrpcStatusDetails, HeaderName::GrpcStatusDetails) => true,
            (HeaderName::ContentType, HeaderName::ContentType) => true,
            (HeaderName::Te, HeaderName::Te) => true,
            (HeaderName::GrpcEncoding, HeaderName::GrpcEncoding) => true,
            (HeaderName::GrpcAcceptEncoding, HeaderName::GrpcAcceptEncoding) => true,
            _ => false,
        }
    }
}

pub struct HeaderEntry {
    pub name: HeaderName,
    pub value: Vec<u8>,
}

/// An ordered list of headers; a name may occur more than once.
pub struct HeaderMap {
    pub entries: Vec<HeaderEntry>,
}

/// The value of the first entry named `name`, if any.
pub open spec fn lookup(entries: Seq<HeaderEntry>, name: HeaderName) -> Option<Seq<u8>>
    decreases entries.len(),
{
    if entries.len() == 0 {
        None
    } else if same_name(entries[0].name, name) {
        Some(entries[0].value@)
    } else {
        lookup(entries.drop_first(), name)
    }
}

pub proof fn lemma_lookup_append(entries: Seq<HeaderEntry>, e: HeaderEntry, name: HeaderName)
    ensures
        lookup(entries.push(e), name) == (match lookup(entries, name) {
            Some(v) => Some(v),
            None => if same_name(e.name, name) { Some(e.value@) } else { None },
        }),
    decreases entries.len(),
{
    if entries.len() == 0 {
        assert(entries.push(e).drop_first() =~= Seq::<HeaderEntry>::empty());
        assert(entries.push(e)[0] == e);
        assert(lookup(Seq::<HeaderEntry>::empty(), name) is None);
    } else {
        assert(entries.push(e)[0] == entries[0]);
        assert(entries.push(e).drop_first() =~= entries.drop_first().push(e));
        lemma_lookup_append(entries.drop_first(), e, name);
    }
}

impl HeaderMap {
    pub open spec fn get_spec(&self, name: HeaderName) -> Option<Seq<u8>> {
        lookup(self.entries@, name)
    }

    pub fn new() -> (r: HeaderMap)
        ensures
            r.entries@.len() == 0,
    {
        HeaderMap { entries: Vec::new() }
    }

    /// Appends an entry; earlier entries of the same name keep precedence in `get`.
    pub fn append(&mut self, name: HeaderName, value: Vec<u8>)
        ensures
            final(self).entries@ == old(self).entries@.push(
                HeaderEntry { name: name, value: value },
            ),
    {
        self.entries.push(HeaderEntry { name, value });
    }

    /// The value of the first entry named `name`.
    pub fn get(&self, name: &HeaderName) -> (r: Option<&Vec<u8>>)
        ensures
            r matches Some(v) ==> self.get_spec(*name) == Some(v@),
            r is None ==> self.get_spec(*name) is None,
    {
        let mut i: usize = 0;
        assert(self.entries@.subrange(0, self.entries@.len() as int) =~= self.entries@);
        while i < self.entries.len()
            invariant
                i <= self.entries@.len(),
                lookup(self.entries@, *name) == lookup(
                    self.entries@.subrange(i as int, self.entries@.len() as int),
                    *name,
                ),
            decreases self.entries@.len() - i,
        {
            let ghost rest = self.entries@.subrange(i as int, self.entries@.len() as int);
            assert(rest[0] == self.entries@[i as int]);
            if self.entries[i].name.is_same(name) {
                return Some(&self.entries[i].value);
            }
            assert(rest.drop_first() =~= self.entries@.subrange(
                i + 1,
                self.entries@.len() as int,
            ));
            i = i + 1;
        }
        assert(self.entries@.subrange(i as int, self.entries@.len() as int).len() == 0);
        None
    }
}

} // verus!
