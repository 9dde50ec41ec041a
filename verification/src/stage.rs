//! The two capabilities a pipeline slot deals in: builders, which attach a
//! middleware to the next stage of a pipeline, and stages, which answer
//! requests and report readiness.

use vstd::prelude::*;

verus! {

/// Whether a stage may currently accept a call, or the caller must wait.
#[derive(Clone, Copy, Debug, PartialEq, Eq, Structural)]
pub enum Readiness {
    Ready,
    Pending,
}

/// A factory that attaches a middleware to `service`, the next stage of a
/// pipeline, producing a built stage or reporting that initialisation
/// failed. Initialisation failure carries no payload, only the fact of
/// failure, and is shared across every builder of a pipeline slot.
pub trait StageBuilder<S, Built>: Sized {
    /// What `new_transform` returns, as a function of the builder and the
    /// next stage.
    spec fn build_spec(&self, service: S) -> Result<Built, ()>;

    /// Attach to `service`, the next stage, yielding the built middleware.
    fn new_transform(&self, service: S) -> (r: Result<Built, ()>)
        ensures
            r == self.build_spec(service),
    ;
}

/// One unit of a request-processing pipeline: it consumes a request and
/// produces a response or a failure, and it tells callers whether it may
/// currently be called at all.
pub trait Stage<Req, Resp, F>: Sized {
    /// What `call` returns, as a function of the stage and the request.
    spec fn call_spec(&self, req: Req) -> Result<Resp, F>;

    /// What `poll_ready` returns, as a function of the stage alone.
    spec fn ready_spec(&self) -> Readiness;

    /// Handle one request.
    fn call(&self, req: Req) -> (r: Result<Resp, F>)
        ensures
            r == self.call_spec(req),
    ;

    /// Non-blocking readiness check; it cannot change the stage, so probing
    /// it never changes what a later call returns.
    fn poll_ready(&self) -> (r: Readiness)
        ensures
            r == self.ready_spec(),
    ;
}

} // verus!
