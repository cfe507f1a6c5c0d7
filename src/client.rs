//! One call of the client: the wire request built from a typed request and
//! the call's context, and the outcome read from the wire response.
use vstd::prelude::*;
use vstd::utf8::encode_utf8;
use crate::address::{build_uri, uri_accepted, uri_text, Address};
use crate::compression::{
    accept_text, lemma_token_names, negotiated, send_choice, token, unsupported_encoding,
    CompressionEncoding,
};
use crate::metadata::{HeaderEntry, HeaderMap, HeaderName};
use crate::status::{status_of_fields, Code, Status, StatusModel};

verus! {

/// Per-call settings, read once when the call starts.
pub struct Config {
    pub connect_timeout: Option<std::time::Duration>,
    pub read_timeout: Option<std::time::Duration>,
    pub write_timeout: Option<std::time::Duration>,
    /// Encodings to send with, most preferred first.
    pub send_compressions: Option<Vec<CompressionEncoding>>,
    /// Encodings accepted in responses, most preferred first.
    pub accept_compressions: Option<Vec<CompressionEncoding>>,
}

/// The context of one call: the callee, the method path and the settings.
pub struct RpcInfo {
    pub callee: Option<Address>,
    pub method: String,
    pub config: Config,
}

/// A request: metadata sent as headers, the encoded message, and free-form
/// extensions that travel with the request to the transport but are not sent.
/// The message is already compressed with the send encoding of the call's
/// settings (`CompressionEncoding::select_send`) when that is not identity.
pub struct Request {
    pub metadata: HeaderMap,
    pub message: Vec<u8>,
    pub extensions: HeaderMap,
}

/// A response: its headers, the message, the trailers that followed it and
/// the encoding it arrived in.
pub struct Response {
    pub metadata: HeaderMap,
    pub message: Vec<u8>,
    pub trailers: HeaderMap,
    pub encoding: Option<CompressionEncoding>,
}

/// A request as it goes on the wire.
pub struct WireRequest {
    pub uri: Vec<u8>,
    pub headers: HeaderMap,
    pub body: Vec<u8>,
    /// The encoding that the message in `body` is compressed with.
    pub send_compression: Option<CompressionEncoding>,
    pub extensions: HeaderMap,
}

/// A response as it comes off the wire.
pub struct WireResponse {
    pub headers: HeaderMap,
    pub body: Vec<u8>,
    pub trailers: HeaderMap,
}

/// How a call failed below the protocol.
#[derive(Clone, Copy, Debug, PartialEq, Eq, Structural)]
pub enum TransportError {
    ConnectionRefused,
    ConnectionReset,
    Other,
}

pub open spec fn opt_seq(o: Option<Vec<CompressionEncoding>>) -> Option<Seq<CompressionEncoding>> {
    match o {
        Some(l) => Some(l@),
        None => None,
    }
}

pub open spec fn trailers_text() -> Seq<u8> {
    seq![116u8, 114, 97, 105, 108, 101, 114, 115]
}

pub open spec fn grpc_content_type() -> Seq<u8> {
    seq![97u8, 112, 112, 108, 105, 99, 97, 116, 105, 111, 110, 47, 103, 114, 112, 99]
}

/// The protocol headers of a request, in order: trailers acceptance, content
/// type, the send encoding unless it is identity, and the accept-encoding
/// advertisement unless it is empty.
pub open spec fn protocol_headers(
    send: Option<CompressionEncoding>,
    accept: Option<Seq<CompressionEncoding>>,
) -> Seq<(HeaderName, Seq<u8>)> {
    let base = seq![(HeaderName::Te, trailers_text()), (HeaderName::ContentType, grpc_content_type())];
    let with_enc = match send {
        Some(e) => if e != CompressionEncoding::Identity {
            base.push((HeaderName::GrpcEncoding, token(e)))
        } else {
            base
        },
        None => base,
    };
    match accept {
        Some(l) => if accept_text(l).len() > 0 {
            with_enc.push((HeaderName::GrpcAcceptEncoding, accept_text(l)))
        } else {
            with_enc
        },
        None => with_enc,
    }
}

/// Big-endian four-byte form of a length.
pub open spec fn be32(n: nat) -> Seq<u8> {
    seq![
        (n / 16777216 % 256) as u8,
        (n / 65536 % 256) as u8,
        (n / 256 % 256) as u8,
        (n % 256) as u8,
    ]
}

/// A length-prefixed message: compression flag, four-byte length, bytes.
pub open spec fn frame(compressed: bool, payload: Seq<u8>) -> Seq<u8> {
    seq![if compressed { 1u8 } else { 0u8 }] + be32(payload.len()) + payload
}

pub open spec fn be_value(b: Seq<u8>) -> nat {
    b[1] as nat * 16777216 + b[2] as nat * 65536 + b[3] as nat * 256 + b[4] as nat
}

/// The message in a response body: one length-prefixed message whose flag
/// is 0, or 1 with an encoding in force; `Err` for anything else.
pub open spec fn unframe(body: Seq<u8>, enc: Option<CompressionEncoding>) -> Result<Seq<u8>, ()> {
    if body.len() >= 5 && be_value(body) == body.len() - 5 && (body[0] == 0 || (body[0] == 1
        && enc is Some)) {
        Ok(body.subrange(5, body.len() as int))
    } else {
        Err(())
    }
}

/// The status that headers or trailers carry, if any.
pub open spec fn carried_status(h: HeaderMap) -> Option<StatusModel> {
    match h.get_spec(HeaderName::GrpcStatus) {
        Some(c) => Some(
            status_of_fields(
                c,
                h.get_spec(HeaderName::GrpcMessage),
                h.get_spec(HeaderName::GrpcStatusDetails),
            ),
        ),
        None => None,
    }
}

/// A carried status that reports a failure.
pub open spec fn carried_failure(h: HeaderMap) -> Option<StatusModel> {
    match carried_status(h) {
        Some(s) => if s.code != Code::Success { Some(s) } else { None },
        None => None,
    }
}

pub open spec fn malformed_body() -> StatusModel {
    StatusModel { code: Code::Internal, message: Seq::empty(), details: Seq::empty() }
}

/// The outcome of a call from its response: a failure status in the headers
/// first, without looking at the body; then the response encoding; then a
/// failure status in the trailers, which wins over the body; then the body.
pub open spec fn response_outcome(
    resp: WireResponse,
    accept: Option<Seq<CompressionEncoding>>,
) -> Result<(Seq<u8>, Option<CompressionEncoding>), StatusModel> {
    match carried_failure(resp.headers) {
        Some(s) => Err(s),
        None => match negotiated(resp.headers.get_spec(HeaderName::GrpcEncoding), accept) {
            Err(_) => Err(unsupported_encoding()),
            Ok(enc) => match carried_failure(resp.trailers) {
                Some(s) => Err(s),
                None => match unframe(resp.body@, enc) {
                    Ok(m) => Ok((m, enc)),
                    Err(_) => Err(malformed_body()),
                },
            },
        },
    }
}

/// The status of a call without a callee address.
pub open spec fn missing_address() -> StatusModel {
    StatusModel { code: Code::InvalidArgument, message: Seq::empty(), details: Seq::empty() }
}

/// The status of a call whose callee and method make no URI.
pub open spec fn invalid_target() -> StatusModel {
    StatusModel { code: Code::InvalidArgument, message: Seq::empty(), details: Seq::empty() }
}

/// The status of a message too long for its length prefix.
pub open spec fn oversized_message() -> StatusModel {
    StatusModel { code: Code::ResourceExhausted, message: Seq::empty(), details: Seq::empty() }
}

/// The status code that a transport failure is reported with.
pub open spec fn transport_code(e: TransportError) -> Code {
    match e {
        TransportError::ConnectionRefused => Code::Unavailable,
        TransportError::ConnectionReset => Code::Unavailable,
        TransportError::Other => Code::Unknown,
    }
}

/// Reports a transport failure as a status, for the caller to branch on.
pub fn transport_failure(e: TransportError) -> (r: Status)
    ensures
        r@ == (StatusModel { code: transport_code(e), message: Seq::empty(), details: Seq::empty() }),
{
    match e {
        TransportError::ConnectionRefused => Status::from_code(Code::Unavailable),
        TransportError::ConnectionReset => Status::from_code(Code::Unavailable),
        TransportError::Other => Status::from_code(Code::Unknown),
    }
}

/// Frames a message with its compression flag and length.
pub fn encode_frame(compressed: bool, payload: &[u8]) -> (r: Vec<u8>)
    requires
        payload@.len() <= u32::MAX,
    ensures
        r@ == frame(compressed, payload@),
{
    let n = payload.len() as u32;
    let mut out: Vec<u8> = Vec::new();
    out.push(if compressed { 1 } else { 0 });
    out.push((n / 16777216 % 256) as u8);
    out.push((n / 65536 % 256) as u8);
    out.push((n / 256 % 256) as u8);
    out.push((n % 256) as u8);
    let mut i: usize = 0;
    let ghost head = out@;
    while i < payload.len()
        invariant
            i <= payload@.len(),
            out@ == head + payload@.subrange(0, i as int),
        decreases payload@.len() - i,
    {
        out.push(payload[i]);
        assert(payload@.subrange(0, i + 1) =~= payload@.subrange(0, i as int).push(
            payload@[i as int],
        ));
        i = i + 1;
    }
    assert(payload@.subrange(0, i as int) =~= payload@);
    assert(out@ =~= frame(compressed, payload@));
    out
}

/// Reads the one message of a response body.
pub fn decode_frame(body: &[u8], enc: Option<CompressionEncoding>) -> (r: Result<Vec<u8>, Status>)
    ensures
        r is Ok <==> unframe(body@, enc) is Ok,
        r matches Ok(m) ==> unframe(body@, enc) == Ok::<Seq<u8>, ()>(m@),
        r matches Err(st) ==> st@ == malformed_body(),
{
    if body.len() < 5 {
        return Err(Status::from_code(Code::Internal));
    }
    let flag = body[0];
    if !(flag == 0 || (flag == 1 && enc.is_some())) {
        return Err(Status::from_code(Code::Internal));
    }
    let n: u64 = body[1] as u64 * 16777216 + body[2] as u64 * 65536 + body[3] as u64 * 256
        + body[4] as u64;
    if n != (body.len() - 5) as u64 {
        return Err(Status::from_code(Code::Internal));
    }
    let mut out: Vec<u8> = Vec::new();
    let mut i: usize = 5;
    while i < body.len()
        invariant
            5 <= i <= body@.len(),
            out@ == body@.subrange(5, i as int),
        decreases body@.len() - i,
    {
        out.push(body[i]);
        assert(body@.subrange(5, i + 1) =~= body@.subrange(5, i as int).push(body@[i as int]));
        i = i + 1;
    }
    Ok(out)
}

/// Builds the wire request of a call: the URI from the callee and the method
/// path, the protocol headers followed by the request's metadata, and the
/// framed message; the extensions are carried along. Fails when the context
/// names no callee, when the message is too long for its length prefix, or
/// when callee and method make no URI.
pub fn build_request(info: &RpcInfo, req: Request) -> (r: Result<WireRequest, Status>)
    ensures
        info.callee is None ==> (r matches Err(st) && st@ == missing_address()),
        info.callee is Some && req.message@.len() > u32::MAX ==> (r matches Err(st) && st@
            == oversized_message()),
        info.callee is Some && req.message@.len() <= u32::MAX && !uri_accepted(
            uri_text(info.callee->Some_0, encode_utf8(info.method@)),
        ) ==> (r matches Err(st) && st@ == invalid_target()),
        info.callee is Some && req.message@.len() <= u32::MAX && uri_accepted(
            uri_text(info.callee->Some_0, encode_utf8(info.method@)),
        ) ==> r is Ok,
        r matches Ok(w) ==> {
            let send = send_choice(opt_seq(info.config.send_compressions));
            let p = protocol_headers(send, opt_seq(info.config.accept_compressions));
            &&& w.uri@ == uri_text(info.callee->Some_0, encode_utf8(info.method@))
            &&& w.send_compression == send
            &&& w.extensions == req.extensions
            &&& w.body@ == frame(
                send is Some && send != Some(CompressionEncoding::Identity),
                req.message@,
            )
            &&& w.headers.entries@.len() == p.len() + req.metadata.entries@.len()
            &&& forall|i: int|
                0 <= i < p.len() ==> #[trigger] w.headers.entries@[i].name == p[i].0
                    && w.headers.entries@[i].value@ == p[i].1
            &&& w.headers.entries@.subrange(p.len() as int, w.headers.entries@.len() as int)
                == req.metadata.entries@
        },
{
    let target = match &info.callee {
        Some(a) => a,
        None => return Err(Status::from_code(Code::InvalidArgument)),
    };
    if req.message.len() > 4294967295 {
        return Err(Status::from_code(Code::ResourceExhausted));
    }
    let ghost send_s = send_choice(opt_seq(info.config.send_compressions));
    let ghost accept_s = opt_seq(info.config.accept_compressions);
    let send = CompressionEncoding::select_send(&info.config.send_compressions);
    assert(send == send_s);
    let compressed = match send {
        Some(e) => e != CompressionEncoding::Identity,
        None => false,
    };
    let body = encode_frame(compressed, req.message.as_slice());
    let uri = match build_uri(target, info.method.as_str()) {
        Some(u) => u,
        None => return Err(Status::from_code(Code::InvalidArgument)),
    };

    let mut headers = HeaderMap::new();
    headers.append(HeaderName::Te, vec![116u8, 114, 97, 105, 108, 101, 114, 115]);
    headers.append(
        HeaderName::ContentType,
        vec![97u8, 112, 112, 108, 105, 99, 97, 116, 105, 111, 110, 47, 103, 114, 112, 99],
    );
    assert(headers.entries@[0].value@ =~= trailers_text());
    assert(headers.entries@[1].value@ =~= grpc_content_type());
    if let Some(e) = send {
        if e != CompressionEncoding::Identity {
            headers.append(HeaderName::GrpcEncoding, e.into_header_value());
        }
    }
    if let Some(l) = &info.config.accept_compressions {
        if let Some(v) = CompressionEncoding::into_accept_encoding_header_value(l.as_slice()) {
            headers.append(HeaderName::GrpcAcceptEncoding, v);
        }
    }
    let ghost p = protocol_headers(send_s, accept_s);
    assert(headers.entries@.len() == p.len());
    assert(forall|i: int|
        0 <= i < p.len() ==> #[trigger] headers.entries@[i].name == p[i].0
            && headers.entries@[i].value@ == p[i].1);
    let ghost prefix = headers.entries@;
    let Request { metadata, message: _, extensions } = req;
    let HeaderMap { entries: mut rest } = metadata;
    let ghost rest0 = rest@;
    headers.entries.append(&mut rest);
    assert(headers.entries@.subrange(p.len() as int, headers.entries@.len() as int) =~= rest0);
    Ok(WireRequest { uri, headers, body, send_compression: send, extensions })
}

/// Reads the outcome of a call from its wire response. A failure status in
/// the headers is returned at once and the body is not read; an encoding
/// outside the accepted list is refused; a failure status in the trailers
/// wins over the message.
pub fn handle_response(config: &Config, resp: WireResponse) -> (r: Result<Response, Status>)
    ensures
        r matches Ok(x) ==> response_outcome(resp, opt_seq(config.accept_compressions)) == Ok::<
            (Seq<u8>, Option<CompressionEncoding>),
            StatusModel,
        >((x.message@, x.encoding)) && x.metadata == resp.headers && x.trailers == resp.trailers,
        r matches Err(st) ==> response_outcome(resp, opt_seq(config.accept_compressions))
            == Err::<(Seq<u8>, Option<CompressionEncoding>), StatusModel>(st@),
{
    if let Some(st) = Status::from_header_map(&resp.headers) {
        if st.code != Code::Success {
            return Err(st);
        }
    }
    let enc = match CompressionEncoding::from_encoding_header(
        &resp.headers,
        &config.accept_compressions,
    ) {
        Ok(e) => e,
        Err(st) => return Err(st),
    };
    if let Some(st) = Status::from_header_map(&resp.trailers) {
        if st.code != Code::Success {
            return Err(st);
        }
    }
    let message = match decode_frame(resp.body.as_slice(), enc) {
        Ok(m) => m,
        Err(st) => return Err(st),
    };
    let WireResponse { headers, body: _, trailers } = resp;
    Ok(Response { metadata: headers, message, trailers, encoding: enc })
}

/// A response compressed with an encoding that is not accepted is refused
/// with the unsupported-encoding status; it is never read as uncompressed.
pub proof fn lemma_unaccepted_encoding_refused(
    resp: WireResponse,
    accept: Option<Seq<CompressionEncoding>>,
    e: CompressionEncoding,
)
    requires
        carried_failure(resp.headers) is None,
        resp.headers.get_spec(HeaderName::GrpcEncoding) == Some(token(e)),
        e != CompressionEncoding::Identity,
        accept matches Some(l) ==> !l.contains(e),
    ensures
        response_outcome(resp, accept) == Err::<(Seq<u8>, Option<CompressionEncoding>), StatusModel>(
            unsupported_encoding(),
        ),
{
    lemma_token_names(e);
}

/// A failure status in the response headers decides the outcome: the body
/// and the trailers are not looked at, however well-formed the body is.
pub proof fn lemma_early_failure_ignores_body(
    resp: WireResponse,
    other: WireResponse,
    accept: Option<Seq<CompressionEncoding>>,
)
    requires
        carried_failure(resp.headers) is Some,
        other.headers == resp.headers,
    ensures
        response_outcome(resp, accept) == Err::<(Seq<u8>, Option<CompressionEncoding>), StatusModel>(
            carried_failure(resp.headers)->Some_0,
        ),
        response_outcome(other, accept) == response_outcome(resp, accept),
{
}

/// A framed message reads back as the same message: uncompressed always,
/// compressed when an encoding is in force.
pub proof fn lemma_frame_round_trip(
    compressed: bool,
    payload: Seq<u8>,
    enc: Option<CompressionEncoding>,
)
    requires
        payload.len() <= u32::MAX,
        compressed ==> enc is Some,
    ensures
        unframe(frame(compressed, payload), enc) == Ok::<Seq<u8>, ()>(payload),
{
    let f = frame(compressed, payload);
    let n = payload.len();
    assert(be_value(f) == n) by {
        assert(f[1] == (n / 16777216 % 256) as u8);
        assert(f[2] == (n / 65536 % 256) as u8);
        assert(f[3] == (n / 256 % 256) as u8);
        assert(f[4] == (n % 256) as u8);
        assert((n / 16777216 % 256) * 16777216 + (n / 65536 % 256) * 65536 + (n / 256 % 256) * 256
            + n % 256 == n) by (nonlinear_arith)
            requires n <= 4294967295;
    }
    assert(f.subrange(5, f.len() as int) =~= payload);
}

} // verus!
