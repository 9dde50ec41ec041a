use std::rc::Rc;

use actix_optional_middleware::demo::{DemoResponse, Endpoint, FailingBuilder, HeaderInjector};
use actix_optional_middleware::group::{Group, GroupMiddleware};
use actix_optional_middleware::passthrough::Dummy;
use actix_optional_middleware::stage::{Readiness, Stage, StageBuilder};

fn endpoint(body: &[u8]) -> Endpoint {
    Endpoint {
        resp: DemoResponse {
            body: Rc::new(body.to_vec()),
            header: None,
        },
        fail: None,
        ready: true,
    }
}

fn injector(name: &str, value: &str) -> HeaderInjector {
    HeaderInjector {
        header: Rc::new((name.to_string(), value.to_string())),
    }
}

fn header_of(resp: &DemoResponse) -> Option<(String, String)> {
    resp.header.as_ref().map(|h| (h.0.clone(), h.1.clone()))
}

fn ready_of<S: Stage<String, DemoResponse, u64>>(stage: &S) -> Readiness {
    stage.poll_ready()
}

#[test]
fn exactly_one_branch_is_active() {
    let real: Group<Dummy, HeaderInjector> = Group::Real(Rc::new(injector("X-Mark", "yes")));
    let pass: Group<Dummy, HeaderInjector> = Group::Dummy(Rc::new(Dummy));

    let built_real = real.new_transform(endpoint(b"hello")).unwrap();
    let built_pass = pass.new_transform(endpoint(b"hello")).unwrap();

    assert!(matches!(&built_real, GroupMiddleware::Real(_)));
    assert!(matches!(&built_pass, GroupMiddleware::Dummy(_)));

    // The marker unique to the real branch appears only behind the real tag.
    let r1 = built_real.call("GET /".to_string()).unwrap();
    let r2 = built_pass.call("GET /".to_string()).unwrap();
    assert_eq!(
        header_of(&r1),
        Some(("X-Mark".to_string(), "yes".to_string()))
    );
    assert_eq!(header_of(&r2), None);
}

#[test]
fn pass_through_is_indistinguishable_from_next() {
    let pass: Group<Dummy, HeaderInjector> = Group::Dummy(Rc::new(Dummy));
    let built = pass.new_transform(endpoint(b"payload")).unwrap();

    let direct = endpoint(b"payload").call("GET /".to_string()).unwrap();
    let wrapped = built.call("GET /".to_string()).unwrap();

    assert_eq!(*wrapped.body, *direct.body);
    assert_eq!(header_of(&wrapped), header_of(&direct));
}

#[test]
fn pass_through_propagates_next_failure() {
    let mut next = endpoint(b"");
    next.fail = Some(7);
    let mut next2 = endpoint(b"");
    next2.fail = Some(7);

    let pass: Group<Dummy, HeaderInjector> = Group::Dummy(Rc::new(Dummy));
    let built = pass.new_transform(next).unwrap();

    assert!(matches!(built.call("GET /".to_string()), Err(7)));
    assert!(matches!(next2.call("GET /".to_string()), Err(7)));
}

#[test]
fn real_branch_marks_every_response() {
    let real: Group<Dummy, HeaderInjector> = Group::Real(Rc::new(injector("X-Mark", "on")));
    let built = real.new_transform(endpoint(b"data")).unwrap();

    for i in 0..5 {
        let resp = built.call(format!("GET /{}", i)).unwrap();
        assert_eq!(
            header_of(&resp),
            Some(("X-Mark".to_string(), "on".to_string()))
        );
        assert_eq!(*resp.body, b"data".to_vec());
    }
}

#[test]
fn readiness_probes_change_nothing() {
    let real: Group<Dummy, HeaderInjector> = Group::Real(Rc::new(injector("X-Mark", "on")));
    let built = real.new_transform(endpoint(b"data")).unwrap();

    let before = built.call("GET /".to_string());
    for _ in 0..100 {
        assert_eq!(ready_of(&built), Readiness::Ready);
    }
    let after = built.call("GET /".to_string());

    assert!(matches!(&built, GroupMiddleware::Real(_)));
    assert_eq!(header_of(before.as_ref().unwrap()), header_of(after.as_ref().unwrap()));
    assert_eq!(*before.unwrap().body, *after.unwrap().body);
}

#[test]
fn pending_next_reports_pending_through_selector() {
    let mut next = endpoint(b"");
    next.ready = false;
    let pass: Group<Dummy, HeaderInjector> = Group::Dummy(Rc::new(Dummy));
    let built = pass.new_transform(next).unwrap();
    assert_eq!(ready_of(&built), Readiness::Pending);
}

#[test]
fn two_endpoints_one_real_one_pass() {
    // One endpoint wired through the header-injecting real branch, the
    // other through the pass-through branch, both issued one GET.
    let real: Group<Dummy, HeaderInjector> = Group::Real(Rc::new(injector(
        "Permissions-Policy",
        "interest-cohort=()",
    )));
    let pass: Group<Dummy, HeaderInjector> = Group::Dummy(Rc::new(Dummy));

    let first = real.new_transform(endpoint(b"one")).unwrap();
    let second = pass.new_transform(endpoint(b"two")).unwrap();

    let resp1 = first.call("GET /one".to_string()).unwrap();
    let resp2 = second.call("GET /two".to_string()).unwrap();

    let h = resp1.header.as_ref().expect("header must be injected");
    assert_eq!(h.0, "Permissions-Policy");
    assert_eq!(h.1, "interest-cohort=()");
    assert!(resp2.header.is_none());
}

#[test]
fn many_calls_observe_the_same_branch() {
    let real: Group<Dummy, HeaderInjector> = Group::Real(Rc::new(injector("X-Mark", "fixed")));
    let built = real.new_transform(endpoint(b"n")).unwrap();

    let mut results = Vec::new();
    for i in 0..10 {
        results.push(built.call(format!("GET /{}", i)));
    }
    for r in results {
        let resp = r.unwrap();
        assert_eq!(
            header_of(&resp),
            Some(("X-Mark".to_string(), "fixed".to_string()))
        );
        assert_eq!(*resp.body, b"n".to_vec());
    }
}

#[test]
fn build_failure_is_propagated_verbatim() {
    let real: Group<Dummy, FailingBuilder> = Group::Real(Rc::new(FailingBuilder));
    assert!(matches!(real.new_transform(endpoint(b"x")), Err(())));

    let pass: Group<FailingBuilder, HeaderInjector> = Group::Dummy(Rc::new(FailingBuilder));
    assert!(matches!(pass.new_transform(endpoint(b"x")), Err(())));
}

#[test]
fn shared_configuration_builds_more_than_once() {
    // The same selector value is asked to attach to two next stages, as a
    // host with one pipeline per worker would; both builds succeed and
    // behave alike.
    let real: Group<Dummy, HeaderInjector> = Group::Real(Rc::new(injector("X-Mark", "w")));

    let a = real.new_transform(endpoint(b"alpha")).unwrap();
    let b = real.new_transform(endpoint(b"beta")).unwrap();

    let ra = a.call("GET /".to_string()).unwrap();
    let rb = b.call("GET /".to_string()).unwrap();
    assert_eq!(header_of(&ra), Some(("X-Mark".to_string(), "w".to_string())));
    assert_eq!(header_of(&rb), Some(("X-Mark".to_string(), "w".to_string())));
    assert_eq!(*ra.body, b"alpha".to_vec());
    assert_eq!(*rb.body, b"beta".to_vec());
}

#[test]
fn selectors_compose_with_selectors() {
    // A selector is itself a builder, so it can stand as the real branch of
    // another selector.
    let inner: Group<Dummy, HeaderInjector> = Group::Real(Rc::new(injector("X-Inner", "deep")));
    let outer: Group<Dummy, Group<Dummy, HeaderInjector>> = Group::Real(Rc::new(inner));

    let built = outer.new_transform(endpoint(b"nested")).unwrap();
    let resp = built.call("GET /".to_string()).unwrap();
    assert_eq!(
        header_of(&resp),
        Some(("X-Inner".to_string(), "deep".to_string()))
    );
}
