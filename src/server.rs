//! The server's settings and its router.
use vstd::prelude::*;
use crate::client::{Request, Response};
use crate::router::{finish_step, start_step, status_model, Router, RouterModel, ServerState};
use crate::service::GrpcService;
use crate::status::{Code, Status};
use crate::timeout::{make_timeout_future, TimeoutFuture};

verus! {

/// A server: transport settings, a per-call timeout, and the router of its
/// services.
pub struct Server {
    pub timeout: Option<std::time::Duration>,
    pub concurrency_limit: Option<usize>,
    pub init_stream_window_size: Option<u32>,
    pub init_connection_window_size: Option<u32>,
    pub max_concurrent_streams: Option<u32>,
    pub tcp_keepalive: Option<std::time::Duration>,
    pub tcp_nodelay: bool,
    pub http2_keepalive_interval: Option<std::time::Duration>,
    pub http2_keepalive_timeout: Option<std::time::Duration>,
    pub http2_adaptive_window: Option<bool>,
    pub max_frame_size: Option<u32>,
    pub accept_http1: bool,
    pub router: Router,
}

impl Server {
    /// A server with no services and default settings: no timeout or limits,
    /// Nagle's algorithm off, HTTP/2 only.
    pub fn new() -> (r: Server)
        ensures
            r.router.well_formed(),
            r.router@ == (RouterModel {
                state: ServerState::Building,
                services: Seq::empty(),
                in_flight: 0,
            }),
            r.timeout is None,
            r.concurrency_limit is None,
            r.init_stream_window_size is None,
            r.init_connection_window_size is None,
            r.max_concurrent_streams is None,
            r.tcp_keepalive is None,
            r.tcp_nodelay,
            r.http2_keepalive_interval is None,
            r.http2_keepalive_timeout is None,
            r.http2_adaptive_window is None,
            r.max_frame_size is None,
            !r.accept_http1,
    {
        Server {
            timeout: None,
            concurrency_limit: None,
            init_stream_window_size: None,
            init_connection_window_size: None,
            max_concurrent_streams: None,
            tcp_keepalive: None,
            tcp_nodelay: true,
            http2_keepalive_interval: None,
            http2_keepalive_timeout: None,
            http2_adaptive_window: None,
            max_frame_size: None,
            accept_http1: false,
            router: Router::new(),
        }
    }

    /// Bounds every call by `timeout`.
    pub fn timeout(self, timeout: std::time::Duration) -> (r: Server)
        ensures
            r == (Server { timeout: Some(timeout), ..self }),
    {
        Server { timeout: Some(timeout), ..self }
    }

    /// Bounds the calls in flight on one connection.
    pub fn concurrency_limit_per_connection(self, limit: usize) -> (r: Server)
        ensures
            r == (Server { concurrency_limit: Some(limit), ..self }),
    {
        Server { concurrency_limit: Some(limit), ..self }
    }

    /// Sets whether Nagle's algorithm is off on accepted connections.
    pub fn tcp_nodelay(self, enabled: bool) -> (r: Server)
        ensures
            r == (Server { tcp_nodelay: enabled, ..self }),
    {
        Server { tcp_nodelay: enabled, ..self }
    }

    /// Sets whether HTTP/1 connections are accepted beside HTTP/2.
    pub fn accept_http1(self, accept: bool) -> (r: Server)
        ensures
            r == (Server { accept_http1: accept, ..self }),
    {
        Server { accept_http1: accept, ..self }
    }

    /// The deadline race that bounds one call, when a timeout is set.
    pub fn call_timeout(&self) -> (r: Option<TimeoutFuture>)
        ensures
            self.timeout is None ==> r is None,
            self.timeout matches Some(d) ==> (r matches Some(f) && f.delay == d && !f.is_finished()),
    {
        match self.timeout {
            Some(d) => Some(make_timeout_future(d)),
            None => None,
        }
    }

    /// Runs one call: the router picks the service registered as `name`
    /// (`services` holds the handlers in order of registration) and the call
    /// is completed as `complete_call` says. Calls the router refuses are
    /// answered with its status and reach no handler.
    pub fn dispatch<S: GrpcService>(
        &mut self,
        services: &mut Vec<S>,
        name: &String,
        request: Request,
    ) -> (r: Result<Response, Status>)
        requires
            old(self).router.well_formed(),
            old(services)@.len() == old(self).router@.services.len(),
        ensures
            final(self).router.well_formed(),
            final(services)@.len() == old(services)@.len(),
            final(self).timeout == old(self).timeout,
            ({
                let (started, outcome) = start_step(old(self).router@, name@);
                match outcome {
                    Err(code) => {
                        &&& final(self).router@ == started
                        &&& r matches Err(st) && st.code == code && st@ == status_model(code)
                        &&& final(services)@ == old(services)@
                    },
                    Ok(i) => {
                        &&& i < old(services)@.len()
                        &&& old(self).router@.services[i as int] == name@
                        &&& final(self).router@ == finish_step(started)
                        &&& old(services)@[i as int].can_take() ==> r == old(services)@[i as int].answer(
                            request,
                        )
                        &&& !old(services)@[i as int].can_take() ==> (r matches Err(st) && st@
                            == status_model(Code::Unavailable))
                        &&& forall|j: int|
                            0 <= j < old(services)@.len() && j != i ==> final(services)@[j]
                                == old(services)@[j]
                    },
                }
            }),
    {
        let i = match self.router.start_call(name) {
            Ok(i) => i,
            Err(st) => return Err(st),
        };
        self.complete_call(services, i, request)
    }

    /// Completes a call in flight to service `i`, whatever the router's state:
    /// a call started before the shutdown signal still gets its answer. A
    /// service that is not ready is answered `Unavailable`; otherwise the
    /// service's answer, success or failure, is returned unchanged. No other
    /// service is touched.
    pub fn complete_call<S: GrpcService>(
        &mut self,
        services: &mut Vec<S>,
        i: usize,
        request: Request,
    ) -> (r: Result<Response, Status>)
        requires
            old(self).router.well_formed(),
            old(self).router@.in_flight > 0,
            i < old(services)@.len(),
        ensures
            final(self).router.well_formed(),
            final(self).router@ == finish_step(old(self).router@),
            final(self).timeout == old(self).timeout,
            final(services)@.len() == old(services)@.len(),
            old(services)@[i as int].can_take() ==> r == old(services)@[i as int].answer(request),
            !old(services)@[i as int].can_take() ==> (r matches Err(st) && st@ == status_model(
                Code::Unavailable,
            )),
            forall|j: int|
                0 <= j < old(services)@.len() && j != i ==> final(services)@[j] == old(services)@[j],
    {
        let ghost before = services@;
        let mut handler = services.remove(i);
        let r = if handler.poll_ready() {
            handler.call(request)
        } else {
            Err(Status::from_code(Code::Unavailable))
        };
        services.insert(i, handler);
        assert(services@ =~= before.update(i as int, handler));
        self.router.finish_call();
        r
    }
}

} // verus!
