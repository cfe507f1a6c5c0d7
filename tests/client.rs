use volo_grpc::address::{Address, IpAddress, SocketAddress};
use volo_grpc::client::{
    build_request, decode_frame, encode_frame, handle_response, transport_failure, Config,
    Request, RpcInfo, TransportError, WireResponse,
};
use volo_grpc::compression::CompressionEncoding;
use volo_grpc::metadata::{HeaderMap, HeaderName};
use volo_grpc::router::Router;
use volo_grpc::status::{Code, Status};

fn config(
    send: Option<Vec<CompressionEncoding>>,
    accept: Option<Vec<CompressionEncoding>>,
) -> Config {
    Config {
        connect_timeout: None,
        read_timeout: None,
        write_timeout: None,
        send_compressions: send,
        accept_compressions: accept,
    }
}

fn local(port: u16) -> Address {
    Address::Ip(SocketAddress { ip: IpAddress::V4([127, 0, 0, 1]), port })
}

fn pb_string(s: &str) -> Vec<u8> {
    let mut v = vec![0x0a, s.len() as u8];
    v.extend_from_slice(s.as_bytes());
    v
}

fn ext() -> HeaderMap {
    let mut x = HeaderMap::new();
    x.append(HeaderName::Custom(String::from("trace-id")), b"t7".to_vec());
    x
}

fn ok_trailers() -> HeaderMap {
    Status::from_code(Code::Success).to_header_map()
}

#[test]
fn request_carries_protocol_headers_then_metadata() {
    let info = RpcInfo {
        callee: Some(local(8080)),
        method: String::from("/hello.Greeter/SayHello"),
        config: config(
            Some(vec![CompressionEncoding::Gzip, CompressionEncoding::Zstd]),
            Some(vec![CompressionEncoding::Identity, CompressionEncoding::Gzip]),
        ),
    };
    let mut metadata = HeaderMap::new();
    metadata.append(HeaderName::Custom(String::from("x-user")), b"u1".to_vec());
    let w = build_request(&info, Request { metadata, message: vec![7, 8], extensions: ext() }).ok().unwrap();
    assert_eq!(w.uri, b"http://127.0.0.1:8080/hello.Greeter/SayHello".to_vec());
    assert_eq!(w.send_compression, Some(CompressionEncoding::Gzip));
    assert_eq!(w.body, vec![1, 0, 0, 0, 2, 7, 8]);
    let e = &w.headers.entries;
    assert_eq!(e.len(), 5);
    assert_eq!(w.headers.get(&HeaderName::Te).unwrap(), &b"trailers".to_vec());
    assert_eq!(w.headers.get(&HeaderName::ContentType).unwrap(), &b"application/grpc".to_vec());
    assert_eq!(w.headers.get(&HeaderName::GrpcEncoding).unwrap(), &b"gzip".to_vec());
    assert_eq!(w.headers.get(&HeaderName::GrpcAcceptEncoding).unwrap(), &b"gzip".to_vec());
    assert_eq!(e[4].value, b"u1".to_vec());
    assert_eq!(w.extensions.get(&HeaderName::Custom(String::from("trace-id"))).unwrap(), &b"t7".to_vec());
}

#[test]
fn identity_send_encoding_is_not_announced() {
    let info = RpcInfo {
        callee: Some(local(1)),
        method: String::from("/a/b"),
        config: config(Some(vec![CompressionEncoding::Identity]), None),
    };
    let w = build_request(&info, Request { metadata: HeaderMap::new(), extensions: HeaderMap::new(), message: vec![] }).ok().unwrap();
    assert!(w.headers.get(&HeaderName::GrpcEncoding).is_none());
    assert!(w.headers.get(&HeaderName::GrpcAcceptEncoding).is_none());
    assert_eq!(w.body, vec![0, 0, 0, 0, 0]);
}

#[test]
fn missing_callee_fails() {
    let info = RpcInfo { callee: None, method: String::from("/a/b"), config: config(None, None) };
    let e = build_request(&info, Request { metadata: HeaderMap::new(), extensions: HeaderMap::new(), message: vec![1] }).err().unwrap();
    assert_eq!(e.code, Code::InvalidArgument);
}

#[test]
fn method_that_is_no_path_fails() {
    let info = RpcInfo { callee: Some(local(1)), method: String::from("/a b"), config: config(None, None) };
    let e = build_request(&info, Request { metadata: HeaderMap::new(), extensions: HeaderMap::new(), message: vec![] }).err().unwrap();
    assert_eq!(e.code, Code::InvalidArgument);
}

#[test]
fn frames_round_trip_and_reject_garbage() {
    let f = encode_frame(false, &[1, 2, 3]);
    assert_eq!(f, vec![0, 0, 0, 0, 3, 1, 2, 3]);
    assert_eq!(decode_frame(&f, None).ok().unwrap(), vec![1, 2, 3]);
    assert_eq!(decode_frame(&[0, 0, 0, 0, 4, 1], None).err().unwrap().code, Code::Internal);
    assert_eq!(decode_frame(&[1, 0, 0, 0, 0], None).err().unwrap().code, Code::Internal);
    assert!(decode_frame(&[1, 0, 0, 0, 0], Some(CompressionEncoding::Gzip)).is_ok());
    assert_eq!(decode_frame(&[], None).err().unwrap().code, Code::Internal);
}

#[test]
fn early_status_short_circuits_well_formed_body() {
    let headers = Status::new(Code::PermissionDenied, String::from("no")).to_header_map();
    let resp = WireResponse {
        headers,
        body: encode_frame(false, &pb_string("fine")),
        trailers: ok_trailers(),
    };
    let e = handle_response(&config(None, None), resp).err().unwrap();
    assert_eq!(e.code, Code::PermissionDenied);
    assert_eq!(e.message, "no");
}

#[test]
fn unaccepted_response_encoding_is_refused() {
    let mut headers = HeaderMap::new();
    headers.append(HeaderName::GrpcEncoding, b"zstd".to_vec());
    let resp = WireResponse { headers, body: encode_frame(true, &[1]), trailers: ok_trailers() };
    let cfg = config(None, Some(vec![CompressionEncoding::Gzip]));
    let e = handle_response(&cfg, resp).err().unwrap();
    assert_eq!(e.code, Code::Unimplemented);
}

#[test]
fn late_status_in_trailers_wins_over_payload() {
    let resp = WireResponse {
        headers: HeaderMap::new(),
        body: encode_frame(false, &[9]),
        trailers: Status::from_code(Code::DataLoss).to_header_map(),
    };
    let e = handle_response(&config(None, None), resp).err().unwrap();
    assert_eq!(e.code, Code::DataLoss);
}

#[test]
fn transport_failures_map_to_status() {
    assert_eq!(transport_failure(TransportError::ConnectionRefused).code, Code::Unavailable);
    assert_eq!(transport_failure(TransportError::ConnectionReset).code, Code::Unavailable);
    assert_eq!(transport_failure(TransportError::Other).code, Code::Unknown);
}

#[test]
fn end_to_end_say_hello() {
    let info = RpcInfo {
        callee: Some(local(8080)),
        method: String::from("/hello.Greeter/SayHello"),
        config: config(None, None),
    };
    let w = build_request(&info, Request { metadata: HeaderMap::new(), extensions: HeaderMap::new(), message: pb_string("Volo") })
        .ok()
        .unwrap();

    let mut router = Router::new();
    assert!(router.add_service(String::from("hello.Greeter")));
    assert!(router.serve());
    let path = String::from_utf8(w.uri.clone()).unwrap();
    let service = path.trim_start_matches("http://127.0.0.1:8080/").split('/').next().unwrap();
    assert_eq!(router.start_call(&String::from(service)).ok(), Some(0));
    let name = &decode_frame(&w.body, None).ok().unwrap()[2..];
    let reply = format!("Hello, {}!", String::from_utf8(name.to_vec()).unwrap());
    router.finish_call();

    let resp = WireResponse {
        headers: HeaderMap::new(),
        body: encode_frame(false, &pb_string(&reply)),
        trailers: ok_trailers(),
    };
    let r = handle_response(&info.config, resp).ok().unwrap();
    assert_eq!(r.message, pb_string("Hello, Volo!"));
    assert_eq!(r.encoding, None);
    assert_eq!(Status::from_header_map(&r.trailers).unwrap().code, Code::Success);
}
