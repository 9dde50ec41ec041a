//! Small concrete stages that exercise the selector: a terminal endpoint, a
//! header-injecting middleware standing for a "real" branch, and a builder
//! that refuses to attach. They are the demonstration glue around the
//! selector, and what the test suite wires pipelines out of.

use crate::group::Group;
use crate::passthrough::Dummy;
use crate::stage::{Readiness, Stage, StageBuilder};
use std::rc::Rc;
use vstd::prelude::*;

verus! {

/// Relies on Rc::clone: the returned handle points at the same allocation,
/// so it holds the same value as the one cloned.
#[verifier::external_body]
fn rc_clone<T>(v: &Rc<T>) -> (r: Rc<T>)
    ensures
        r == *v,
{
    Rc::clone(v)
}

/// A response of the demonstration pipeline: a body, and at most one header
/// injected by middleware on the way out. Both parts are shared handles, so
/// a response can be handed out repeatedly without deep copies.
pub struct DemoResponse {
    pub body: Rc<Vec<u8>>,
    pub header: Option<Rc<(String, String)>>,
}

impl DemoResponse {
    /// A handle-level copy: it shares the body and the header and equals
    /// the original.
    pub fn duplicate(&self) -> (r: DemoResponse)
        ensures
            r == *self,
    {
        DemoResponse {
            body: rc_clone(&self.body),
            header: match &self.header {
                Some(h) => Some(rc_clone(h)),
                None => None,
            },
        }
    }
}

/// A terminal stage: it answers every request with its fixed response, or
/// fails every request with its fixed code, and reports a fixed readiness.
/// It stands in for "the next stage" when a pipeline is assembled.
pub struct Endpoint {
    pub resp: DemoResponse,
    pub fail: Option<u64>,
    pub ready: bool,
}

impl<Req> Stage<Req, DemoResponse, u64> for Endpoint {
    open spec fn call_spec(&self, req: Req) -> Result<DemoResponse, u64> {
        match self.fail {
            Some(code) => Err(code),
            None => Ok(self.resp),
        }
    }

    open spec fn ready_spec(&self) -> Readiness {
        if self.ready {
            Readiness::Ready
        } else {
            Readiness::Pending
        }
    }

    fn call(&self, _req: Req) -> (r: Result<DemoResponse, u64>) {
        match self.fail {
            Some(code) => Err(code),
            None => Ok(self.resp.duplicate()),
        }
    }

    fn poll_ready(&self) -> (r: Readiness) {
        if self.ready {
            Readiness::Ready
        } else {
            Readiness::Pending
        }
    }
}

/// A "real" middleware for demonstrations: it injects one fixed header into
/// every successful response of the stage it wraps; failures pass through
/// verbatim.
pub struct HeaderInjector {
    pub header: Rc<(String, String)>,
}

/// The built form of `HeaderInjector`.
pub struct HeaderInjectorMiddleware<S> {
    pub header: Rc<(String, String)>,
    pub service: S,
}

impl<S> StageBuilder<S, HeaderInjectorMiddleware<S>> for HeaderInjector {
    open spec fn build_spec(&self, service: S) -> Result<HeaderInjectorMiddleware<S>, ()> {
        Ok(HeaderInjectorMiddleware { header: self.header, service })
    }

    fn new_transform(&self, service: S) -> (r: Result<HeaderInjectorMiddleware<S>, ()>) {
        Ok(HeaderInjectorMiddleware { header: rc_clone(&self.header), service })
    }
}

impl<Req, F, S: Stage<Req, DemoResponse, F>> Stage<Req, DemoResponse, F> for HeaderInjectorMiddleware<
    S,
> {
    open spec fn call_spec(&self, req: Req) -> Result<DemoResponse, F> {
        match self.service.call_spec(req) {
            Ok(resp) => Ok(DemoResponse { body: resp.body, header: Some(self.header) }),
            Err(e) => Err(e),
        }
    }

    open spec fn ready_spec(&self) -> Readiness {
        self.service.ready_spec()
    }

    fn call(&self, req: Req) -> (r: Result<DemoResponse, F>) {
        match self.service.call(req) {
            Ok(resp) => Ok(
                DemoResponse { body: resp.body, header: Some(rc_clone(&self.header)) },
            ),
            Err(e) => Err(e),
        }
    }

    fn poll_ready(&self) -> (r: Readiness) {
        self.service.poll_ready()
    }
}

/// A builder whose attachment always fails; initialisation failure carries
/// no payload, and whoever wraps this builder must pass the failure on
/// verbatim.
pub struct FailingBuilder;

impl<S> StageBuilder<S, Endpoint> for FailingBuilder {
    open spec fn build_spec(&self, _service: S) -> Result<Endpoint, ()> {
        Err(())
    }

    fn new_transform(&self, _service: S) -> (r: Result<Endpoint, ()>) {
        Err(())
    }
}

/// The demonstration wiring, end to end: against the same endpoint, the
/// selector holding the injector answers every request with the endpoint's
/// body and exactly the configured header, while the pass-through selector
/// answers with exactly the endpoint's response, injecting nothing.
pub proof fn lemma_injector_vs_pass_through<Req>(
    inj: Group<Dummy, HeaderInjector>,
    pass: Group<Dummy, HeaderInjector>,
    next: Endpoint,
    req: Req,
)
    requires
        inj is Real,
        pass is Dummy,
        next.fail is None,
    ensures
        inj.build_spec(next) matches Ok(m) && m.call_spec(req) matches Ok(resp) && resp.header
            == Some((*(inj->Real_0)).header) && resp.body == next.resp.body,
        pass.build_spec(next) matches Ok(m) && m.call_spec(req) == Ok::<DemoResponse, u64>(
            next.resp,
        ),
{
}

} // verus!
