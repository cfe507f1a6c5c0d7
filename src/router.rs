//! The server side: named services, dispatch of calls to them, and the
//! lifecycle from building to a drained stop.
use vstd::prelude::*;
use crate::status::{Code, Status, StatusModel};

verus! {

/// Where a server is in its life.
#[derive(Clone, Copy, Debug, PartialEq, Eq, Structural)]
pub enum ServerState {
    /// Services and layers are being registered.
    Building,
    /// Connections are accepted and calls dispatched.
    Running,
    /// No new calls are accepted; calls in flight finish.
    Draining,
    Stopped,
}

/// What a router is: its state, the names of its services in order of
/// registration, and the number of calls in flight.
pub struct RouterModel {
    pub state: ServerState,
    pub services: Seq<Seq<char>>,
    pub in_flight: nat,
}

/// Dispatches calls to services registered by name.
pub struct Router {
    state: ServerState,
    services: Vec<String>,
    in_flight: usize,
}

pub open spec fn status_model(code: Code) -> StatusModel {
    StatusModel { code: code, message: Seq::empty(), details: Seq::empty() }
}

/// The position of the first service named `name`.
pub open spec fn first_index(s: Seq<Seq<char>>, name: Seq<char>) -> nat
    decreases s.len(),
{
    if s.len() == 0 || s[0] == name {
        0
    } else {
        1 + first_index(s.drop_first(), name)
    }
}

pub proof fn lemma_first_index(s: Seq<Seq<char>>, name: Seq<char>, i: int)
    requires
        0 <= i < s.len(),
        s[i] == name,
        forall|j: int| 0 <= j < i ==> s[j] != name,
    ensures
        first_index(s, name) == i,
    decreases i,
{
    if i > 0 {
        lemma_first_index(s.drop_first(), name, i - 1);
    }
}

/// Registration: only while building, and only of a new name.
pub open spec fn add_step(m: RouterModel, name: Seq<char>) -> (RouterModel, bool) {
    if m.state == ServerState::Building && !m.services.contains(name) {
        (RouterModel { services: m.services.push(name), ..m }, true)
    } else {
        (m, false)
    }
}

/// Start of serving.
pub open spec fn serve_step(m: RouterModel) -> (RouterModel, bool) {
    if m.state == ServerState::Building {
        (RouterModel { state: ServerState::Running, ..m }, true)
    } else {
        (m, false)
    }
}

/// A new call for the service `name`: refused unless running, answered
/// `Unimplemented` for a name that is not registered, else counted in flight
/// and sent to the index of that service.
pub open spec fn start_step(m: RouterModel, name: Seq<char>) -> (RouterModel, Result<nat, Code>) {
    if m.state != ServerState::Running {
        (m, Err(Code::Unavailable))
    } else if !m.services.contains(name) {
        (m, Err(Code::Unimplemented))
    } else if m.in_flight >= usize::MAX {
        (m, Err(Code::ResourceExhausted))
    } else {
        (
            RouterModel { in_flight: m.in_flight + 1, ..m },
            Ok(first_index(m.services, name)),
        )
    }
}

/// The end of a call in flight; the last one ends draining.
pub open spec fn finish_step(m: RouterModel) -> RouterModel {
    let n = (m.in_flight - 1) as nat;
    if m.state == ServerState::Draining && n == 0 {
        RouterModel { state: ServerState::Stopped, in_flight: n, ..m }
    } else {
        RouterModel { in_flight: n, ..m }
    }
}

/// The shutdown signal: a running server drains (or stops at once when no
/// call is in flight); one that never ran stops.
pub open spec fn shutdown_step(m: RouterModel) -> RouterModel {
    if m.state == ServerState::Running {
        if m.in_flight == 0 {
            RouterModel { state: ServerState::Stopped, ..m }
        } else {
            RouterModel { state: ServerState::Draining, ..m }
        }
    } else if m.state == ServerState::Building {
        RouterModel { state: ServerState::Stopped, ..m }
    } else {
        m
    }
}

/// Service names are unique.
pub open spec fn names_unique(s: Seq<Seq<char>>) -> bool {
    forall|i: int, j: int| 0 <= i < s.len() && 0 <= j < s.len() && s[i] == s[j] ==> i == j
}

impl View for Router {
    type V = RouterModel;

    closed spec fn view(&self) -> RouterModel {
        RouterModel {
            state: self.state,
            services: self.services@.map_values(|s: String| s@),
            in_flight: self.in_flight as nat,
        }
    }
}

impl Router {
    pub open spec fn well_formed(&self) -> bool {
        names_unique(self@.services) && self@.in_flight <= usize::MAX
    }

    pub fn new() -> (r: Router)
        ensures
            r.well_formed(),
            r@ == (RouterModel { state: ServerState::Building, services: Seq::empty(), in_flight: 0 }),
    {
        let r = Router { state: ServerState::Building, services: Vec::new(), in_flight: 0 };
        assert(r@.services =~= Seq::<Seq<char>>::empty());
        r
    }

    pub fn state(&self) -> (r: ServerState)
        ensures
            r == self@.state,
    {
        self.state
    }

    pub fn in_flight(&self) -> (r: usize)
        ensures
            r == self@.in_flight,
    {
        self.in_flight
    }

    fn find(&self, name: &String) -> (r: Option<usize>)
        ensures
            r matches Some(i) ==> i < self@.services.len() && self@.services[i as int] == name@
                && forall|j: int| 0 <= j < i ==> self@.services[j] != name@,
            r is None ==> !self@.services.contains(name@),
    {
        let mut i: usize = 0;
        while i < self.services.len()
            invariant
                i <= self.services@.len(),
                self@.services == self.services@.map_values(|s: String| s@),
                forall|j: int| 0 <= j < i ==> self@.services[j] != name@,
            decreases self.services@.len() - i,
        {
            if self.services[i].eq(name) {
                return Some(i);
            }
            i = i + 1;
        }
        None
    }

    /// Registers a service under `name`; refused (and `false`) once serving
    /// has begun or when the name is taken.
    pub fn add_service(&mut self, name: String) -> (r: bool)
        requires
            old(self).well_formed(),
        ensures
            final(self).well_formed(),
            (final(self)@, r) == add_step(old(self)@, name@),
    {
        if self.state != ServerState::Building {
            return false;
        }
        if let Some(_) = self.find(&name) {
            return false;
        }
        let ghost before = self@.services;
        self.services.push(name);
        assert(self@.services =~= before.push(name@));
        true
    }

    /// Begins serving; only a router that is still being built can.
    pub fn serve(&mut self) -> (r: bool)
        requires
            old(self).well_formed(),
        ensures
            final(self).well_formed(),
            (final(self)@, r) == serve_step(old(self)@),
    {
        if self.state != ServerState::Building {
            return false;
        }
        self.state = ServerState::Running;
        true
    }

    /// Dispatches a new call to the service named `name`, by index.
    pub fn start_call(&mut self, name: &String) -> (r: Result<usize, Status>)
        requires
            old(self).well_formed(),
        ensures
            final(self).well_formed(),
            final(self)@ == start_step(old(self)@, name@).0,
            r matches Ok(i) ==> start_step(old(self)@, name@).1 == Ok::<nat, Code>(i as nat)
                && i < old(self)@.services.len() && old(self)@.services[i as int] == name@,
            r matches Err(st) ==> start_step(old(self)@, name@).1 == Err::<nat, Code>(st.code)
                && st@ == status_model(st.code),
    {
        if self.state != ServerState::Running {
            return Err(Status::from_code(Code::Unavailable));
        }
        let i = match self.find(name) {
            Some(i) => i,
            None => return Err(Status::from_code(Code::Unimplemented)),
        };
        if self.in_flight == usize::MAX {
            return Err(Status::from_code(Code::ResourceExhausted));
        }
        self.in_flight = self.in_flight + 1;
        proof {
            let m = old(self)@;
            lemma_first_index(m.services, name@, i as int);
        }
        Ok(i)
    }

    /// Ends a call in flight.
    pub fn finish_call(&mut self)
        requires
            old(self).well_formed(),
            old(self)@.in_flight > 0,
        ensures
            final(self).well_formed(),
            final(self)@ == finish_step(old(self)@),
    {
        self.in_flight = self.in_flight - 1;
        if self.state == ServerState::Draining && self.in_flight == 0 {
            self.state = ServerState::Stopped;
        }
    }

    /// Takes the shutdown signal.
    pub fn shutdown(&mut self)
        requires
            old(self).well_formed(),
        ensures
            final(self).well_formed(),
            final(self)@ == shutdown_step(old(self)@),
    {
        if self.state == ServerState::Running {
            if self.in_flight == 0 {
                self.state = ServerState::Stopped;
            } else {
                self.state = ServerState::Draining;
            }
        } else if self.state == ServerState::Building {
            self.state = ServerState::Stopped;
        }
    }
}

/// Dispatch and shutdown of a running router: a call to a registered name
/// reaches that service; a call to any other name is answered
/// `Unimplemented`; after the shutdown signal new calls are refused, while a
/// call started before it is still in flight, can finish, and its end stops
/// the router.
pub proof fn lemma_router_dispatch(m: RouterModel, name: Seq<char>, other: Seq<char>)
    requires
        m.state == ServerState::Running,
        m.in_flight == 0,
        m.services.contains(name),
        !m.services.contains(other),
    ensures
        start_step(m, name).1 matches Ok(i) && m.services[i as int] == name,
        start_step(m, other).1 == Err::<nat, Code>(Code::Unimplemented),
        ({
            let started = start_step(m, name).0;
            let drained = shutdown_step(started);
            &&& drained.state == ServerState::Draining
            &&& drained.in_flight == 1
            &&& start_step(drained, name).1 == Err::<nat, Code>(Code::Unavailable)
            &&& start_step(drained, other).1 == Err::<nat, Code>(Code::Unavailable)
            &&& finish_step(drained).state == ServerState::Stopped
            &&& finish_step(drained).in_flight == 0
        }),
{
    let j: int = choose|j: int| 0 <= j < m.services.len() && m.services[j] == name;
    lemma_first_index_found(m.services, name, j);
}

proof fn lemma_first_index_found(s: Seq<Seq<char>>, name: Seq<char>, j: int)
    requires
        0 <= j < s.len(),
        s[j] == name,
    ensures
        first_index(s, name) < s.len(),
        s[first_index(s, name) as int] == name,
    decreases j,
{
    if s[0] != name {
        assert(s.drop_first()[j - 1] == name);
        lemma_first_index_found(s.drop_first(), name, j - 1);
    }
}

} // verus!
