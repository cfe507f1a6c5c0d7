use volo_grpc::address::{build_uri, Address, IpAddress, SocketAddress};

fn uri_of(addr: &Address, path: &str) -> http::Uri {
    http::Uri::try_from(build_uri(addr, path).unwrap()).unwrap()
}

#[test]
fn test_build_uri_ip() {
    let addr = Address::Ip(SocketAddress { ip: IpAddress::V4([127, 0, 0, 1]), port: 8000 });
    let path = "/path?query=1";
    let uri = "http://127.0.0.1:8000/path?query=1".parse::<http::Uri>().unwrap();
    assert_eq!(uri_of(&addr, path), uri);
}

#[test]
fn test_build_uri_unix() {
    let addr = Address::Unix(String::from("/tmp/rpc.sock"));
    let path = "/path?query=1";
    let uri = "http+unix://2f746d702f7270632e736f636b/path?query=1".parse::<http::Uri>().unwrap();
    assert_eq!(uri_of(&addr, path), uri);
}

#[test]
fn build_uri_ip_text_is_exact() {
    let addr = Address::Ip(SocketAddress { ip: IpAddress::V4([10, 0, 255, 9]), port: 65535 });
    assert_eq!(build_uri(&addr, "/a"), Some(b"http://10.0.255.9:65535/a".to_vec()));
}

#[test]
fn build_uri_ipv6_in_shortest_form() {
    let addr = Address::Ip(SocketAddress {
        ip: IpAddress::V6([0x2001, 0xdb8, 0, 0, 0, 0, 0, 1], 0),
        port: 50051,
    });
    assert_eq!(build_uri(&addr, "/svc/M"), Some(b"http://[2001:db8::1]:50051/svc/M".to_vec()));
    let loopback = Address::Ip(SocketAddress { ip: IpAddress::V6([0, 0, 0, 0, 0, 0, 0, 1], 0), port: 8000 });
    assert_eq!(uri_of(&loopback, "/p"), "http://[::1]:8000/p".parse::<http::Uri>().unwrap());
}

#[test]
fn build_uri_refuses_a_bad_path() {
    let addr = Address::Ip(SocketAddress { ip: IpAddress::V4([127, 0, 0, 1]), port: 1 });
    assert_eq!(build_uri(&addr, "/a b"), None);
}

#[test]
fn address_from_text() {
    let a = Address::from_text(String::from("/tmp/x.sock"), None);
    assert!(matches!(a, Address::Unix(ref p) if p == "/tmp/x.sock"));
    let ip = SocketAddress { ip: IpAddress::V4([1, 2, 3, 4]), port: 5 };
    assert!(matches!(Address::from_text(String::from("1.2.3.4:5"), Some(ip)), Address::Ip(_)));
}

#[test]
fn build_uri_unix_path_is_hex_not_plain() {
    let addr = Address::Unix(String::from("/s"));
    assert_eq!(build_uri(&addr, "/x"), Some(b"http+unix://2f73/x".to_vec()));
}
