//! Choice of payload compression: the encoding to send with, the
//! accept-encoding advertisement, and the check of the peer's encoding.
use vstd::prelude::*;
use crate::metadata::{HeaderMap, HeaderName};
use crate::status::{Code, Status, StatusModel};

verus! {

/// Payload compression algorithms; `Identity` is no compression.
#[derive(Clone, Copy, Debug, PartialEq, Eq, Structural)]
pub enum CompressionEncoding {
    Identity,
    Gzip,
    Zlib,
    Zstd,
}

/// The wire token of an encoding: `identity`, `gzip`, `deflate`, `zstd`.
pub open spec fn token(e: CompressionEncoding) -> Seq<u8> {
    match e {
        CompressionEncoding::Identity => seq![105u8, 100, 101, 110, 116, 105, 116, 121],
        CompressionEncoding::Gzip => seq![103u8, 122, 105, 112],
        CompressionEncoding::Zlib => seq![100u8, 101, 102, 108, 97, 116, 101],
        CompressionEncoding::Zstd => seq![122u8, 115, 116, 100],
    }
}

/// The encoding whose token is `s`, if any.
pub open spec fn encoding_named(s: Seq<u8>) -> Option<CompressionEncoding> {
    if s == token(CompressionEncoding::Identity) {
        Some(CompressionEncoding::Identity)
    } else if s == token(CompressionEncoding::Gzip) {
        Some(CompressionEncoding::Gzip)
    } else if s == token(CompressionEncoding::Zlib) {
        Some(CompressionEncoding::Zlib)
    } else if s == token(CompressionEncoding::Zstd) {
        Some(CompressionEncoding::Zstd)
    } else {
        None
    }
}

/// The accept-encoding text for a preference list: the tokens of its
/// non-identity members, in order, joined by commas.
pub open spec fn accept_text(l: Seq<CompressionEncoding>) -> Seq<u8>
    decreases l.len(),
{
    if l.len() == 0 {
        Seq::empty()
    } else {
        let prev = accept_text(l.drop_last());
        let e = l.last();
        if e == CompressionEncoding::Identity {
            prev
        } else if prev.len() == 0 {
            token(e)
        } else {
            prev + seq![44u8] + token(e)
        }
    }
}

/// The encoding chosen for sending: the first of the preference list.
pub open spec fn send_choice(send: Option<Seq<CompressionEncoding>>) -> Option<CompressionEncoding> {
    match send {
        Some(l) => if l.len() > 0 { Some(l[0]) } else { None },
        None => None,
    }
}

/// How the peer's content-encoding header is taken: no header or `identity`
/// means an uncompressed payload; an encoding of the accepted list is used;
/// anything else is refused (`Err`).
pub open spec fn negotiated(
    value: Option<Seq<u8>>,
    accepted: Option<Seq<CompressionEncoding>>,
) -> Result<Option<CompressionEncoding>, ()> {
    match value {
        None => Ok(None),
        Some(v) => match encoding_named(v) {
            Some(CompressionEncoding::Identity) => Ok(None),
            Some(e) => match accepted {
                Some(l) => if l.contains(e) { Ok(Some(e)) } else { Err(()) },
                None => Err(()),
            },
            None => Err(()),
        },
    }
}

/// The status of a payload in an encoding that is not accepted: the code
/// `Unimplemented`, and a message that tells it from other failures.
pub open spec fn unsupported_encoding() -> StatusModel {
    StatusModel {
        code: Code::Unimplemented,
        message: "unsupported compression encoding"@,
        details: Seq::empty(),
    }
}

fn unsupported_encoding_status() -> (r: Status)
    ensures
        r@ == unsupported_encoding(),
{
    Status::new(Code::Unimplemented, "unsupported compression encoding".to_owned())
}

/// The encoding chosen for sending is always the first of the preference list.
pub proof fn lemma_send_choice_is_first(l: Seq<CompressionEncoding>)
    requires
        l.len() > 0,
    ensures
        send_choice(Some(l)) == Some(l[0]),
{
}

/// Each token names its own encoding.
pub proof fn lemma_token_names(e: CompressionEncoding)
    ensures
        encoding_named(token(e)) == Some(e),
{
    let t = token(e);
    assert(token(CompressionEncoding::Identity).len() == 8);
    assert(token(CompressionEncoding::Gzip).len() == 4);
    assert(token(CompressionEncoding::Zlib).len() == 7);
    assert(token(CompressionEncoding::Zstd).len() == 4);
    assert(token(CompressionEncoding::Gzip)[0] != token(CompressionEncoding::Zstd)[0]);
}

/// Whether two byte strings are equal.
pub fn bytes_equal(a: &[u8], b: &[u8]) -> (r: bool)
    ensures
        r == (a@ == b@),
{
    if a.len() != b.len() {
        return false;
    }
    let mut i: usize = 0;
    while i < a.len()
        invariant
            i <= a@.len(),
            a@.len() == b@.len(),
            a@.subrange(0, i as int) == b@.subrange(0, i as int),
        decreases a@.len() - i,
    {
        if a[i] != b[i] {
            return false;
        }
        assert(a@.subrange(0, i + 1) =~= a@.subrange(0, i as int).push(a@[i as int]));
        assert(b@.subrange(0, i + 1) =~= b@.subrange(0, i as int).push(b@[i as int]));
        i = i + 1;
    }
    assert(a@.subrange(0, i as int) =~= a@);
    assert(b@.subrange(0, i as int) =~= b@);
    true
}

fn contains_encoding(l: &Vec<CompressionEncoding>, e: CompressionEncoding) -> (r: bool)
    ensures
        r == l@.contains(e),
{
    let mut i: usize = 0;
    while i < l.len()
        invariant
            i <= l@.len(),
            forall|j: int| 0 <= j < i ==> l@[j] != e,
        decreases l@.len() - i,
    {
        if l[i] == e {
            return true;
        }
        i = i + 1;
    }
    false
}

impl CompressionEncoding {
    /// The wire token of the encoding.
    pub fn into_header_value(self) -> (r: Vec<u8>)
        ensures
            r@ == token(self),
    {
        let r = match self {
            CompressionEncoding::Identity => vec![105u8, 100, 101, 110, 116, 105, 116, 121],
            CompressionEncoding::Gzip => vec![103u8, 122, 105, 112],
            CompressionEncoding::Zlib => vec![100u8, 101, 102, 108, 97, 116, 101],
            CompressionEncoding::Zstd => vec![122u8, 115, 116, 100],
        };
        assert(r@ =~= token(self));
        r
    }

    /// The encoding that a wire token names.
    pub fn from_token(s: &[u8]) -> (r: Option<CompressionEncoding>)
        ensures
            r == encoding_named(s@),
    {
        let id = CompressionEncoding::Identity.into_header_value();
        if bytes_equal(s, id.as_slice()) {
            return Some(CompressionEncoding::Identity);
        }
        let gz = CompressionEncoding::Gzip.into_header_value();
        if bytes_equal(s, gz.as_slice()) {
            return Some(CompressionEncoding::Gzip);
        }
        let zl = CompressionEncoding::Zlib.into_header_value();
        if bytes_equal(s, zl.as_slice()) {
            return Some(CompressionEncoding::Zlib);
        }
        let zs = CompressionEncoding::Zstd.into_header_value();
        if bytes_equal(s, zs.as_slice()) {
            return Some(CompressionEncoding::Zstd);
        }
        None
    }

    /// The accept-encoding advertisement for a preference list; `None` when
    /// the list names nothing but `identity`.
    pub fn into_accept_encoding_header_value(encodings: &[CompressionEncoding]) -> (r: Option<
        Vec<u8>,
    >)
        ensures
            r is None <==> accept_text(encodings@).len() == 0,
            r matches Some(v) ==> v@ == accept_text(encodings@),
    {
        let mut out: Vec<u8> = Vec::new();
        let mut i: usize = 0;
        assert(encodings@.subrange(0, 0) =~= Seq::<CompressionEncoding>::empty());
        while i < encodings.len()
            invariant
                i <= encodings@.len(),
                out@ == accept_text(encodings@.subrange(0, i as int)),
            decreases encodings@.len() - i,
        {
            let e = encodings[i];
            assert(encodings@.subrange(0, i + 1).drop_last() =~= encodings@.subrange(0, i as int));
            if e != CompressionEncoding::Identity {
                if out.len() > 0 {
                    out.push(44);
                }
                let mut t = e.into_header_value();
                out.append(&mut t);
            }
            i = i + 1;
        }
        assert(encodings@.subrange(0, i as int) =~= encodings@);
        if out.len() == 0 {
            None
        } else {
            Some(out)
        }
    }

    /// The encoding to send with: the first of the configured preference list.
    pub fn select_send(send: &Option<Vec<CompressionEncoding>>) -> (r: Option<CompressionEncoding>)
        ensures
            r == send_choice(match send {
                Some(l) => Some(l@),
                None => None,
            }),
    {
        match send {
            Some(l) => if l.len() > 0 {
                Some(l[0])
            } else {
                None
            },
            None => None,
        }
    }

    /// Reads the peer's content-encoding header and checks it against the
    /// locally accepted list. An encoding outside that list is an error, never
    /// read as uncompressed.
    pub fn from_encoding_header(
        headers: &HeaderMap,
        accepted: &Option<Vec<CompressionEncoding>>,
    ) -> (r: Result<Option<CompressionEncoding>, Status>)
        ensures
            r is Ok <==> negotiated(
                headers.get_spec(HeaderName::GrpcEncoding),
                match accepted {
                    Some(l) => Some(l@),
                    None => None,
                },
            ) is Ok,
            r matches Ok(x) ==> negotiated(
                headers.get_spec(HeaderName::GrpcEncoding),
                match accepted {
                    Some(l) => Some(l@),
                    None => None,
                },
            ) == Ok::<Option<CompressionEncoding>, ()>(x),
            r matches Err(st) ==> st@ == unsupported_encoding(),
    {
        let v = match headers.get(&HeaderName::GrpcEncoding) {
            Some(v) => v,
            None => return Ok(None),
        };
        match CompressionEncoding::from_token(v.as_slice()) {
            Some(CompressionEncoding::Identity) => Ok(None),
            Some(e) => match accepted {
                Some(l) => if contains_encoding(l, e) {
                    Ok(Some(e))
                } else {
                    Err(unsupported_encoding_status())
                },
                None => Err(unsupported_encoding_status()),
            },
            None => Err(unsupported_encoding_status()),
        }
    }
}

} // verus!
