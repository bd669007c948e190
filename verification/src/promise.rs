use vstd::prelude::*;

verus! {

/// What polling a future that awaits a KJ promise does once the promise's awaiter has been
/// polled.
#[derive(Clone, Copy, Debug, PartialEq, Eq, Structural)]
pub enum PromiseStep {
    /// The promise has not resolved: report pending and wait to be woken.
    Wait,
    /// The promise has resolved: take its node back from the awaiter, unwrap its result and
    /// report it ready.
    TakeAndUnwrap,
}

/// Decides the next step of a promise-awaiting future from whether its awaiter is ready.
pub fn promise_poll_step(awaiter_ready: bool) -> (s: PromiseStep)
    ensures
        s == (if awaiter_ready { PromiseStep::TakeAndUnwrap } else { PromiseStep::Wait }),
{
    if awaiter_ready {
        PromiseStep::TakeAndUnwrap
    } else {
        PromiseStep::Wait
    }
}

} // verus!
