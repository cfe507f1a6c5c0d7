//! A deadline raced against an operation.
use vstd::prelude::*;
use crate::status::{Code, Status, StatusModel};

verus! {

/// The error of an operation that did not finish before its deadline.
#[derive(Clone, Copy, Debug, PartialEq, Eq)]
pub struct TimeoutError {
    _private: (),
}

/// The timeout error (it carries nothing).
pub closed spec fn timeout_error() -> TimeoutError {
    TimeoutError { _private: () }
}

impl TimeoutError {
    pub fn new() -> (r: TimeoutError)
        ensures
            r == timeout_error(),
    {
        TimeoutError { _private: () }
    }

    /// The status that a lost race is reported with.
    pub fn to_status(&self) -> (r: Status)
        ensures
            r@ == (StatusModel {
                code: Code::DeadlineExceeded,
                message: Seq::empty(),
                details: Seq::empty(),
            }),
    {
        Status::from_code(Code::DeadlineExceeded)
    }
}

/// One look at a race: still running, or decided.
pub enum RaceStep<T> {
    Pending,
    Ready(Result<T, TimeoutError>),
}

/// The decision of one look at the race: once the deadline has passed the
/// race is lost, whatever the operation did; before it, a finished operation
/// wins.
pub open spec fn race_step<T>(inner: Option<T>, deadline_passed: bool) -> RaceStep<T> {
    if deadline_passed {
        RaceStep::Ready(Err(timeout_error()))
    } else {
        match inner {
            Some(v) => RaceStep::Ready(Ok(v)),
            None => RaceStep::Pending,
        }
    }
}

/// Decides one look at the race.
pub fn poll_race<T>(inner: Option<T>, deadline_passed: bool) -> (r: RaceStep<T>)
    ensures
        r == race_step(inner, deadline_passed),
{
    if deadline_passed {
        RaceStep::Ready(Err(TimeoutError::new()))
    } else {
        match inner {
            Some(v) => RaceStep::Ready(Ok(v)),
            None => RaceStep::Pending,
        }
    }
}

/// A race against a deadline `delay` after its start. The timer that measures
/// the delay, and the operation, are driven from outside; the future only
/// decides. The deadline is looked at before the operation, which is not
/// polled once the race is lost.
pub struct TimeoutFuture {
    pub delay: std::time::Duration,
    pub finished: bool,
}

impl TimeoutFuture {
    pub open spec fn is_finished(&self) -> bool {
        self.finished
    }

    pub fn new(dur: std::time::Duration) -> (r: TimeoutFuture)
        ensures
            r.delay == dur,
            !r.is_finished(),
    {
        TimeoutFuture { delay: dur, finished: false }
    }

    /// One look at the race; a decided race is not looked at again.
    pub fn poll<T>(&mut self, inner: Option<T>, deadline_passed: bool) -> (r: RaceStep<T>)
        requires
            !old(self).is_finished(),
        ensures
            r == race_step(inner, deadline_passed),
            final(self).delay == old(self).delay,
            final(self).is_finished() == (r is Ready),
    {
        let r = poll_race(inner, deadline_passed);
        if let RaceStep::Ready(_) = &r {
            self.finished = true;
        }
        r
    }
}

/// A future that fails with a timeout once `dur` has passed.
pub fn make_timeout_future(dur: std::time::Duration) -> (r: TimeoutFuture)
    ensures
        r.delay == dur,
        !r.is_finished(),
{
    TimeoutFuture::new(dur)
}

/// Runs a race on a logical clock: the operation yields `value` at tick
/// `done_at`, the deadline passes at tick `deadline`, and the race is looked
/// at on every tick from zero. The operation wins exactly when it finishes
/// before the deadline.
pub fn run_race<T>(done_at: u64, deadline: u64, value: T) -> (r: Result<T, TimeoutError>)
    ensures
        done_at < deadline ==> r == Ok::<T, TimeoutError>(value),
        done_at >= deadline ==> r == Err::<T, TimeoutError>(timeout_error()),
{
    let ghost v0 = value;
    let mut held: Option<T> = Some(value);
    let mut now: u64 = 0;
    loop
        invariant
            now <= done_at,
            now <= deadline,
            held == Some(v0),
            v0 == value,
        decreases deadline - now,
    {
        let inner = if now >= done_at {
            held.take()
        } else {
            None
        };
        match poll_race(inner, now >= deadline) {
            RaceStep::Ready(r) => {
                return r;
            },
            RaceStep::Pending => {},
        }
        now = now + 1;
    }
}

/// A call bounded by a timeout: its outcome, success or error, when it
/// arrives at tick `done_at` before the deadline at tick `deadline`; else a
/// `DeadlineExceeded` status.
pub fn bounded_outcome<T>(outcome: Result<T, Status>, done_at: u64, deadline: u64) -> (r: Result<
    T,
    Status,
>)
    ensures
        done_at < deadline ==> r == outcome,
        done_at >= deadline ==> (r matches Err(st) && st@ == (StatusModel {
            code: Code::DeadlineExceeded,
            message: Seq::empty(),
            details: Seq::empty(),
        })),
{
    match run_race(done_at, deadline, outcome) {
        Ok(inner) => inner,
        Err(e) => Err(e.to_status()),
    }
}

} // verus!
