use volo_grpc::client::{
    build_request, decode_frame, encode_frame, handle_response, Config, Request, Response,
    RpcInfo, WireResponse,
};
use volo_grpc::address::{Address, IpAddress, SocketAddress};
use volo_grpc::metadata::HeaderMap;
use volo_grpc::router::ServerState;
use volo_grpc::server::Server;
use volo_grpc::service::GrpcService;
use volo_grpc::status::{Code, Status};

struct Greeter {
    ready: bool,
    calls: usize,
}

fn pb_string(s: &str) -> Vec<u8> {
    let mut v = vec![0x0a, s.len() as u8];
    v.extend_from_slice(s.as_bytes());
    v
}

impl GrpcService for Greeter {
    fn can_take(&self) -> bool {
        self.ready
    }

    fn is_ready(&self) -> bool {
        self.ready
    }

    fn answer(&self, request: Request) -> Result<Response, Status> {
        let name = String::from_utf8(request.message[2..].to_vec()).unwrap();
        Ok(Response {
            metadata: HeaderMap::new(),
            message: pb_string(&format!("Hello, {}!", name)),
            trailers: Status::from_code(Code::Success).to_header_map(),
            encoding: None,
        })
    }

    fn poll_ready(&mut self) -> bool {
        self.ready
    }

    fn call(&mut self, request: Request) -> Result<Response, Status> {
        self.calls += 1;
        self.answer(request)
    }
}

fn serving() -> Server {
    let mut server = Server::new();
    assert!(server.router.add_service(String::from("hello.Greeter")));
    assert!(server.router.serve());
    server
}

#[test]
fn end_to_end_through_dispatch() {
    let info = RpcInfo {
        callee: Some(Address::Ip(SocketAddress { ip: IpAddress::V4([127, 0, 0, 1]), port: 8080 })),
        method: String::from("/hello.Greeter/SayHello"),
        config: Config {
            connect_timeout: None,
            read_timeout: None,
            write_timeout: None,
            send_compressions: None,
            accept_compressions: None,
        },
    };
    let wire = build_request(&info, Request { metadata: HeaderMap::new(), message: pb_string("Volo"), extensions: HeaderMap::new() })
        .ok()
        .unwrap();
    let inbound = Request {
        metadata: wire.headers,
        message: decode_frame(&wire.body, None).ok().unwrap(),
        extensions: wire.extensions,
    };

    let mut server = serving();
    let mut services = vec![Greeter { ready: true, calls: 0 }];
    let reply = server
        .dispatch(&mut services, &String::from("hello.Greeter"), inbound)
        .ok()
        .unwrap();
    assert_eq!(services[0].calls, 1);
    assert_eq!(server.router.in_flight(), 0);

    let resp = WireResponse {
        headers: reply.metadata,
        body: encode_frame(false, &reply.message),
        trailers: reply.trailers,
    };
    let r = handle_response(&info.config, resp).ok().unwrap();
    assert_eq!(r.message, pb_string("Hello, Volo!"));
    assert_eq!(Status::from_header_map(&r.trailers).unwrap().code, Code::Success);
}

#[test]
fn dispatch_unknown_name_or_unready_service() {
    let mut server = serving();
    let mut services = vec![Greeter { ready: false, calls: 0 }];
    let req = || Request { metadata: HeaderMap::new(), message: pb_string("x"), extensions: HeaderMap::new() };
    let e = server.dispatch(&mut services, &String::from("hello.Other"), req()).err().unwrap();
    assert_eq!(e.code, Code::Unimplemented);
    let e = server.dispatch(&mut services, &String::from("hello.Greeter"), req()).err().unwrap();
    assert_eq!(e.code, Code::Unavailable);
    assert_eq!(services[0].calls, 0);
    assert_eq!(server.router.in_flight(), 0);
}

#[test]
fn call_in_flight_at_shutdown_gets_its_reply() {
    let mut server = serving();
    let mut services = vec![Greeter { ready: true, calls: 0 }];
    let i = server.router.start_call(&String::from("hello.Greeter")).ok().unwrap();
    server.router.shutdown();
    assert_eq!(server.router.state(), ServerState::Draining);
    let again = server.dispatch(&mut services, &String::from("hello.Greeter"), Request {
        metadata: HeaderMap::new(),
        message: pb_string("B"),
        extensions: HeaderMap::new(),
    });
    assert_eq!(again.err().unwrap().code, Code::Unavailable);
    let req = Request { metadata: HeaderMap::new(), message: pb_string("A"), extensions: HeaderMap::new() };
    let reply = server.complete_call(&mut services, i, req).ok().unwrap();
    assert_eq!(reply.message, pb_string("Hello, A!"));
    assert_eq!(services[0].calls, 1);
    assert_eq!(server.router.state(), ServerState::Stopped);
}
