//! The handler of calls that users implement.
use vstd::prelude::*;
use crate::client::{Request, Response};
use crate::status::Status;

verus! {

/// A handler of calls. It says first whether it can take a request, and a
/// request is handed over only after it said so. What it answers is a
/// function of its state and the request; asking for readiness does not
/// change it.
pub trait GrpcService {
    /// What `poll_ready` reports in the present state.
    spec fn can_take(&self) -> bool;

    /// Whether the service has said it can take a request.
    spec fn is_ready(&self) -> bool;

    /// What the service answers to `request` in the present state.
    spec fn answer(&self, request: Request) -> Result<Response, Status>;

    /// Asks whether the service can take a request now.
    fn poll_ready(&mut self) -> (r: bool)
        ensures
            r == old(self).can_take(),
            final(self).is_ready() == r,
            forall|q: Request| #[trigger] final(self).answer(q) == old(self).answer(q),
    ;

    /// Processes one request.
    fn call(&mut self, request: Request) -> (r: Result<Response, Status>)
        requires
            old(self).is_ready(),
        ensures
            r == old(self).answer(request),
    ;
}

} // verus!
