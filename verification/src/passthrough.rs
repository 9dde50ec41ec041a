//! The pass-through middleware: it forwards every request to the next stage
//! unchanged and returns that stage's result unchanged.

use crate::stage::{Readiness, Stage, StageBuilder};
use vstd::prelude::*;

verus! {

/// Pass-through middleware builder; attaching it always succeeds.
pub struct Dummy;

/// The built form of `Dummy`: it wraps the next stage and delegates every
/// call and every readiness check to it, changing nothing.
pub struct DummyMiddleware<S> {
    pub service: S,
}

impl<S> StageBuilder<S, DummyMiddleware<S>> for Dummy {
    open spec fn build_spec(&self, service: S) -> Result<DummyMiddleware<S>, ()> {
        Ok(DummyMiddleware { service })
    }

    fn new_transform(&self, service: S) -> (r: Result<DummyMiddleware<S>, ()>) {
        Ok(DummyMiddleware { service })
    }
}

impl<Req, Resp, F, S: Stage<Req, Resp, F>> Stage<Req, Resp, F> for DummyMiddleware<S> {
    open spec fn call_spec(&self, req: Req) -> Result<Resp, F> {
        self.service.call_spec(req)
    }

    open spec fn ready_spec(&self) -> Readiness {
        self.service.ready_spec()
    }

    fn call(&self, req: Req) -> (r: Result<Resp, F>) {
        self.service.call(req)
    }

    fn poll_ready(&self) -> (r: Readiness) {
        self.service.poll_ready()
    }
}

/// Round trip: wrapping a stage in the pass-through middleware changes
/// nothing. Attaching always succeeds, a call against the wrapper returns
/// exactly what the wrapped stage returns, the same response or the same
/// failure, and readiness is exactly the wrapped stage's readiness.
pub proof fn lemma_pass_through_transparent<Req, Resp, F, S: Stage<Req, Resp, F>>(
    d: Dummy,
    service: S,
    req: Req,
)
    ensures
        d.build_spec(service) == Ok::<DummyMiddleware<S>, ()>(DummyMiddleware { service }),
        (DummyMiddleware { service }).call_spec(req) == service.call_spec(req),
        (DummyMiddleware { service }).ready_spec() == service.ready_spec(),
{
}

} // verus!
