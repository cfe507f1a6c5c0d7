use std::time::Duration;
use volo_grpc::router::{Router, ServerState};
use volo_grpc::server::Server;
use volo_grpc::status::Code;

fn s(x: &str) -> String {
    String::from(x)
}

#[test]
fn dispatch_by_name() {
    let mut r = Router::new();
    assert!(r.add_service(s("a.A")));
    assert!(r.add_service(s("b.B")));
    assert!(!r.add_service(s("a.A")));
    assert_eq!(r.start_call(&s("b.B")).err().map(|e| e.code), Some(Code::Unavailable));
    assert!(r.serve());
    assert!(!r.add_service(s("c.C")));
    assert_eq!(r.start_call(&s("b.B")).ok(), Some(1));
    assert_eq!(r.start_call(&s("a.A")).ok(), Some(0));
    assert_eq!(r.start_call(&s("c.C")).err().map(|e| e.code), Some(Code::Unimplemented));
    assert_eq!(r.in_flight(), 2);
}

#[test]
fn shutdown_drains_in_flight_calls() {
    let mut r = Router::new();
    r.add_service(s("a.A"));
    r.serve();
    assert_eq!(r.start_call(&s("a.A")).ok(), Some(0));
    r.shutdown();
    assert_eq!(r.state(), ServerState::Draining);
    assert_eq!(r.start_call(&s("a.A")).err().map(|e| e.code), Some(Code::Unavailable));
    r.finish_call();
    assert_eq!(r.state(), ServerState::Stopped);
}

#[test]
fn shutdown_when_idle_stops() {
    let mut r = Router::new();
    r.serve();
    r.shutdown();
    assert_eq!(r.state(), ServerState::Stopped);
}

#[test]
fn server_settings() {
    let srv = Server::new()
        .timeout(Duration::from_secs(2))
        .concurrency_limit_per_connection(8)
        .tcp_nodelay(false)
        .accept_http1(true);
    assert_eq!(srv.timeout, Some(Duration::from_secs(2)));
    assert_eq!(srv.concurrency_limit, Some(8));
    assert!(!srv.tcp_nodelay && srv.accept_http1);
    assert_eq!(srv.call_timeout().unwrap().delay, Duration::from_secs(2));
    assert!(Server::new().call_timeout().is_none());
    assert_eq!(srv.router.state(), ServerState::Building);
}
