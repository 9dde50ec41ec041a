//! The selector: one pipeline slot wired, at configuration time, to either
//! the pass-through branch or the real branch, and built, once per pipeline
//! assembly, into an instance of the same shape that dispatches every
//! request to whichever branch was chosen.

use crate::stage::{Readiness, Stage, StageBuilder};
use std::rc::Rc;
use vstd::prelude::*;

verus! {

/// The discriminant of a selector: which of the two branches it holds.
#[derive(Clone, Copy, Debug, PartialEq, Eq, Structural)]
pub enum Branch {
    Dummy,
    Real,
}

/// A two-case selector over middleware builders: either the pass-through
/// builder or the real one, chosen once at configuration time and immutable
/// thereafter. Each branch is held under shared ownership, so the same
/// configuration may be built any number of times, once per pipeline.
pub enum Group<D, R> {
    Dummy(Rc<D>),
    Real(Rc<R>),
}

/// The post-build twin of `Group`: the same two cases, now holding built
/// middleware instead of builders. Its tag never changes once built.
pub enum GroupMiddleware<D, R> {
    Dummy(D),
    Real(R),
}

impl<D, R> Group<D, R> {
    /// Which branch this selector holds.
    pub open spec fn tag(&self) -> Branch {
        match self {
            Group::Dummy(_) => Branch::Dummy,
            Group::Real(_) => Branch::Real,
        }
    }
}

impl<D, R> GroupMiddleware<D, R> {
    /// Which branch this instance holds; fixed at build time.
    pub open spec fn tag(&self) -> Branch {
        match self {
            GroupMiddleware::Dummy(_) => Branch::Dummy,
            GroupMiddleware::Real(_) => Branch::Real,
        }
    }
}

impl<S, DS, RS, D, R> StageBuilder<S, GroupMiddleware<DS, RS>> for Group<D, R> where
    D: StageBuilder<S, DS>,
    R: StageBuilder<S, RS>,
 {
    /// The case-preserving build: the chosen branch's builder attaches to
    /// `service`, its result is wrapped under the same tag, and its failure
    /// is passed on verbatim. The other branch takes no part.
    open spec fn build_spec(&self, service: S) -> Result<GroupMiddleware<DS, RS>, ()> {
        match self {
            Group::Real(val) => match val.build_spec(service) {
                Ok(t) => Ok(GroupMiddleware::Real(t)),
                Err(e) => Err(e),
            },
            Group::Dummy(val) => match val.build_spec(service) {
                Ok(t) => Ok(GroupMiddleware::Dummy(t)),
                Err(e) => Err(e),
            },
        }
    }

    fn new_transform(&self, service: S) -> (r: Result<GroupMiddleware<DS, RS>, ()>) {
        match self {
            Group::Real(val) => match val.new_transform(service) {
                Ok(t) => Ok(GroupMiddleware::Real(t)),
                Err(e) => Err(e),
            },
            Group::Dummy(val) => match val.new_transform(service) {
                Ok(t) => Ok(GroupMiddleware::Dummy(t)),
                Err(e) => Err(e),
            },
        }
    }
}

impl<Req, Resp, F, D, R> Stage<Req, Resp, F> for GroupMiddleware<D, R> where
    D: Stage<Req, Resp, F>,
    R: Stage<Req, Resp, F>,
 {
    /// Dispatch to whichever branch was fixed at build time; the branch's
    /// result is returned unchanged, with no retry and no translation.
    open spec fn call_spec(&self, req: Req) -> Result<Resp, F> {
        match self {
            GroupMiddleware::Real(val) => val.call_spec(req),
            GroupMiddleware::Dummy(val) => val.call_spec(req),
        }
    }

    open spec fn ready_spec(&self) -> Readiness {
        match self {
            GroupMiddleware::Real(val) => val.ready_spec(),
            GroupMiddleware::Dummy(val) => val.ready_spec(),
        }
    }

    fn call(&self, req: Req) -> (r: Result<Resp, F>) {
        match self {
            GroupMiddleware::Real(val) => val.call(req),
            GroupMiddleware::Dummy(val) => val.call(req),
        }
    }

    fn poll_ready(&self) -> (r: Readiness) {
        match self {
            GroupMiddleware::Real(val) => val.poll_ready(),
            GroupMiddleware::Dummy(val) => val.poll_ready(),
        }
    }
}

/// Exactly one of the two branches is active in any selector value, and the
/// tag names that branch.
pub proof fn lemma_exactly_one_branch<D, R>(g: Group<D, R>)
    ensures
        (g is Dummy) != (g is Real),
        g.tag() == Branch::Dummy <==> g is Dummy,
        g.tag() == Branch::Real <==> g is Real,
{
}

/// Exactly one of the two branches is active in any built instance.
pub proof fn lemma_instance_exactly_one_branch<D, R>(m: GroupMiddleware<D, R>)
    ensures
        (m is Dummy) != (m is Real),
        m.tag() == Branch::Dummy <==> m is Dummy,
        m.tag() == Branch::Real <==> m is Real,
{
}

/// Building preserves the case tag, and fails exactly when the chosen
/// branch's own attachment fails.
pub proof fn lemma_build_preserves_tag<S, DS, RS, D, R>(g: Group<D, R>, service: S) where
    D: StageBuilder<S, DS>,
    R: StageBuilder<S, RS>,

    ensures
        g.build_spec(service) matches Ok(m) ==> m.tag() == g.tag(),
        g is Dummy ==> ((g.build_spec(service) is Err) <==> ((g->Dummy_0).build_spec(
            service,
        ) is Err)),
        g is Real ==> ((g.build_spec(service) is Err) <==> ((g->Real_0).build_spec(
            service,
        ) is Err)),
{
}

/// The inactive branch never takes part in a build: two configurations that
/// hold the same pass-through branch build to the same result, whatever
/// their real branches hold.
pub proof fn lemma_inactive_real_branch_never_consulted<S, DS, RS, D, R1, R2>(
    g1: Group<D, R1>,
    g2: Group<D, R2>,
    service: S,
) where D: StageBuilder<S, DS>, R1: StageBuilder<S, RS>, R2: StageBuilder<S, RS>
    requires
        g1 is Dummy,
        g2 is Dummy,
        g1->Dummy_0 == g2->Dummy_0,
    ensures
        g1.build_spec(service) == g2.build_spec(service),
{
}

/// The inactive branch never takes part in a build: two configurations that
/// hold the same real branch build to the same result, whatever their
/// pass-through branches hold.
pub proof fn lemma_inactive_dummy_branch_never_consulted<S, DS, RS, D1, D2, R>(
    g1: Group<D1, R>,
    g2: Group<D2, R>,
    service: S,
) where D1: StageBuilder<S, DS>, D2: StageBuilder<S, DS>, R: StageBuilder<S, RS>
    requires
        g1 is Real,
        g2 is Real,
        g1->Real_0 == g2->Real_0,
    ensures
        g1.build_spec(service) == g2.build_spec(service),
{
}

/// However many calls are issued against one built instance, every one of
/// them is answered by the branch fixed at build time, each with that
/// branch's own result; no call observes the other branch.
pub proof fn lemma_calls_observe_one_branch<Req, Resp, F, D, R>(
    m: GroupMiddleware<D, R>,
    reqs: Seq<Req>,
) where D: Stage<Req, Resp, F>, R: Stage<Req, Resp, F>
    ensures
        m is Dummy ==> forall|i: int|
            0 <= i < reqs.len() ==> #[trigger] m.call_spec(reqs[i]) == (m->Dummy_0).call_spec(
                reqs[i],
            ),
        m is Real ==> forall|i: int|
            0 <= i < reqs.len() ==> #[trigger] m.call_spec(reqs[i]) == (m->Real_0).call_spec(
                reqs[i],
            ),
{
}

/// A real branch whose built middleware marks every one of its results
/// yields an instance every one of whose results is marked.
pub proof fn lemma_real_branch_marks_responses<Req, Resp, F, S, DS, RS, D, R>(
    g: Group<D, R>,
    service: S,
    m: GroupMiddleware<DS, RS>,
    req: Req,
    marked: spec_fn(Result<Resp, F>) -> bool,
) where
    D: StageBuilder<S, DS>,
    R: StageBuilder<S, RS>,
    DS: Stage<Req, Resp, F>,
    RS: Stage<Req, Resp, F>,

    requires
        g is Real,
        g.build_spec(service) == Ok::<GroupMiddleware<DS, RS>, ()>(m),
        forall|q: Req| #[trigger] marked((m->Real_0).call_spec(q)),
    ensures
        m is Real,
        marked(m.call_spec(req)),
{
    assert(marked((m->Real_0).call_spec(req)));
}

/// Round trip at the selector level: a pass-through selector always builds,
/// builds under the pass-through tag, and yields an instance whose every
/// call returns exactly what the wrapped stage returns, the same response
/// or the same failure, and whose readiness is the wrapped stage's.
pub proof fn lemma_pass_through_round_trip<Req, Resp, F, S, RS, R>(
    g: Group<crate::passthrough::Dummy, R>,
    service: S,
    req: Req,
) where S: Stage<Req, Resp, F>, R: StageBuilder<S, RS>, RS: Stage<Req, Resp, F>
    requires
        g is Dummy,
    ensures
        g.build_spec(service) matches Ok(m) && m is Dummy && m.call_spec(req) == service.call_spec(
            req,
        ) && m.ready_spec() == service.ready_spec(),
{
}

} // verus!
