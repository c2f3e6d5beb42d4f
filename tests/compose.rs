use discux::compose::{
    compose, Binding, Composer, Composed, Criticality, FailReason, FetchOutcome, FetchSpec, Method,
};
use discux::record::{duplicate_all, Record};

fn s(x: &str) -> String {
    x.to_string()
}

fn rec(pairs: &[(&str, &str)]) -> Record {
    Record::new(pairs.iter().map(|(k, v)| (s(k), s(v))).collect())
}

fn spec(slot: &str, crit: Criticality, default_value: Vec<Record>, bindings: Vec<Binding>) -> FetchSpec {
    FetchSpec {
        slot: s(slot),
        method: Method::Get,
        path: format!("/v1/{}", slot),
        params: vec![],
        criticality: crit,
        default_value,
        bindings,
    }
}

fn page_specs() -> Vec<FetchSpec> {
    vec![
        spec("post", Criticality::Required, vec![], vec![]),
        spec("comments", Criticality::Optional, vec![], vec![]),
        spec("author", Criticality::Optional, vec![rec(&[])], vec![]),
        spec("subspace", Criticality::Required, vec![], vec![]),
    ]
}

fn items(v: Vec<Record>) -> FetchOutcome {
    FetchOutcome::Items(v)
}

#[test]
fn optional_failures_take_defaults() {
    let out = compose(
        page_specs(),
        vec![
            items(vec![rec(&[("id", "post-1")])]),
            FetchOutcome::Failed(s("timeout")),
            items(vec![]),
            items(vec![rec(&[("id", "s1")])]),
        ],
    );
    assert!(out.is_ok());
    assert_eq!(out.values.len(), 4);
    assert_eq!(out.values[0][0].field(&s("id")), "post-1");
    assert!(out.values[1].is_empty());
    assert_eq!(out.values[2].len(), 1);
    assert!(out.values[2][0].fields.is_empty());
    assert_eq!(out.values[3][0].field(&s("id")), "s1");
}

#[test]
fn required_empty_fails_naming_slot() {
    for optional in [items(vec![rec(&[("x", "1")])]), FetchOutcome::Failed(s("e"))] {
        let opt2 = match &optional {
            FetchOutcome::Items(v) => FetchOutcome::Items(duplicate_all(v)),
            FetchOutcome::Failed(m) => FetchOutcome::Failed(m.clone()),
        };
        let out = compose(
            page_specs(),
            vec![items(vec![rec(&[("id", "post-1")])]), optional, opt2, items(vec![])],
        );
        let f = out.failure.expect("composition must fail");
        assert_eq!(f.index, 3);
        assert_eq!(f.slot, "subspace");
        assert!(matches!(f.reason, FailReason::Empty));
    }
}

#[test]
fn first_failing_required_slot_is_named() {
    let out = compose(
        page_specs(),
        vec![FetchOutcome::Failed(s("refused")), items(vec![]), items(vec![]), items(vec![])],
    );
    let f = out.failure.unwrap();
    assert_eq!(f.index, 0);
    assert_eq!(f.slot, "post");
    assert!(matches!(f.reason, FailReason::Upstream(ref m) if m == "refused"));
    assert!(out.values.is_empty());
}

#[test]
fn empty_composition_is_ok() {
    let out: Composed = compose(vec![], vec![]);
    assert!(out.is_ok());
    assert!(out.values.is_empty());
}

#[test]
fn composer_binds_dependent_params_from_first_record() {
    let mut specs = page_specs();
    specs.truncate(2);
    specs[1].params = vec![(s("limit"), s("10"))];
    specs[1].bindings = vec![Binding { from: 0, field: s("id"), param: s("post_id") }];
    let mut c = Composer::new(specs);
    let first = c.next_request().unwrap();
    assert_eq!(first.method, Method::Get);
    assert_eq!(first.path, "/v1/post");
    c.feed(items(vec![rec(&[("title", "t"), ("id", "post-9")]), rec(&[("id", "post-10")])]));
    let second = c.next_request().unwrap();
    assert_eq!(second.path, "/v1/comments");
    assert_eq!(second.params, vec![(s("limit"), s("10")), (s("post_id"), s("post-9"))]);
    c.feed(items(vec![]));
    assert!(c.next_request().is_none());
    let out = c.finish();
    assert!(out.is_ok());
    assert_eq!(out.values[0].len(), 2);
}

#[test]
fn composer_stops_at_required_failure() {
    let mut c = Composer::new(page_specs());
    c.next_request().unwrap();
    c.feed(items(vec![]));
    assert!(c.next_request().is_none());
    assert_eq!(c.finish().failure.unwrap().slot, "post");
}

#[test]
fn record_field_lookup() {
    let r = rec(&[("id", "1"), ("name", "a"), ("id", "2")]);
    assert_eq!(r.field(&s("id")), "1");
    assert_eq!(r.field(&s("name")), "a");
    assert_eq!(r.field(&s("missing")), "");
    assert_eq!(r.duplicate().fields, r.fields);
}
