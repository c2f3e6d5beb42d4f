//! What a page handler gives back: fetches to compose, or a reply (a page to
//! render, a redirect, or an error signal).

use vstd::prelude::*;
use vstd::string::*;
use crate::compose::{Binding, Composed, ComposedModel, Criticality, FailReason, FetchSpec, FetchSpecModel, Method, ReasonModel, RecordsModel};
use crate::record::{Record, field_of};
use crate::outside::{format_timestamp, timestamp_text};
use crate::signal::ErrorSignal;

verus! {

/// A page to render: its template, the composed slots, and the logged-in
/// user, if any.
#[derive(Debug)]
pub struct PageView {
    pub template: String,
    pub values: Vec<Vec<Record>>,
    pub user_id: Option<String>,
}

/// A handler's answer to the browser.
#[derive(Debug)]
pub enum Reply {
    Render(PageView),
    Redirect(String),
    Error(ErrorSignal),
}

pub enum ReplyModel {
    Render(Seq<char>, Seq<RecordsModel>, Option<Seq<char>>),
    Redirect(Seq<char>),
    Error(Seq<char>, Seq<char>),
}

impl DeepView for Reply {
    type V = ReplyModel;

    open spec fn deep_view(&self) -> ReplyModel {
        match self {
            Reply::Render(p) => ReplyModel::Render(
                p.template@,
                p.values.deep_view(),
                match p.user_id {
                    Some(u) => Some(u@),
                    None => None,
                },
            ),
            Reply::Redirect(l) => ReplyModel::Redirect(l@),
            Reply::Error(s) => ReplyModel::Error(s.action@, s.reason@),
        }
    }
}

/// What a handler does next.
#[derive(Debug)]
pub enum Step {
    /// Compose these fetches and hand the result back.
    Fetch(Vec<FetchSpec>),
    /// Answer the browser.
    Done(Reply),
}

pub enum StepModel {
    Fetch(Seq<FetchSpecModel>),
    Done(ReplyModel),
}

impl DeepView for Step {
    type V = StepModel;

    open spec fn deep_view(&self) -> StepModel {
        match self {
            Step::Fetch(specs) => StepModel::Fetch(specs.deep_view()),
            Step::Done(r) => StepModel::Done(r.deep_view()),
        }
    }
}

/// The reply to a request that needs a session and has none.
pub open spec fn not_logged_in() -> ReplyModel {
    ReplyModel::Error("Not logged in"@, "Need login firstly to get proper permission."@)
}

/// The named field of the first record of slot `k`; empty where there is none.
pub open spec fn first_field(values: Seq<RecordsModel>, k: int, name: Seq<char>) -> Seq<char> {
    if 0 <= k < values.len() && values[k].len() > 0 {
        field_of(values[k][0], name)
    } else {
        Seq::empty()
    }
}

/// The error for a request that needs a session and has none.
pub fn not_logged_in_reply() -> (r: Reply)
    ensures
        r.deep_view() == not_logged_in(),
{
    Reply::Error(ErrorSignal::new(
        String::from_str("Not logged in"),
        String::from_str("Need login firstly to get proper permission."),
    ))
}

/// An error reply whose action is a prefix followed by a subject.
pub fn error_about(prefix: &str, subject: &String, reason: &str) -> (r: Reply)
    ensures
        r.deep_view() == ReplyModel::Error(prefix@ + subject@, reason@),
{
    let mut action = String::from_str(prefix);
    action.append(subject.as_str());
    Reply::Error(ErrorSignal::new(action, String::from_str(reason)))
}

/// A redirect to a location made of a prefix and a subject.
pub fn redirect_to(prefix: &str, subject: &String) -> (r: Reply)
    ensures
        r.deep_view() == ReplyModel::Redirect(prefix@ + subject@),
{
    let mut location = String::from_str(prefix);
    location.append(subject.as_str());
    Reply::Redirect(location)
}

/// A page to render from a composition.
pub fn render(template: &str, composed: Composed, identity_user: Option<String>) -> (r: Reply)
    ensures
        r.deep_view() == ReplyModel::Render(
            template@,
            composed.values.deep_view(),
            match identity_user {
                Some(u) => Some(u@),
                None => None,
            },
        ),
{
    Reply::Render(PageView { template: String::from_str(template), values: composed.values, user_id: identity_user })
}

/// The named field of the first record of slot `k`.
pub fn first_field_of(values: &Vec<Vec<Record>>, k: usize, name: &str) -> (r: String)
    ensures
        r@ == first_field(values.deep_view(), k as int, name@),
{
    if k < values.len() && values[k].len() > 0 {
        values[k][0].field(&String::from_str(name))
    } else {
        String::new()
    }
}

/// A name/value pair.
pub fn pair(name: &str, value: String) -> (r: (String, String))
    ensures
        r.0@ == name@,
        r.1@ == value@,
{
    (String::from_str(name), value)
}

/// A parameter bound from a field of the first record of slot `from`.
pub fn bind(from: usize, field: &str, param: &str) -> (r: Binding)
    ensures
        r.deep_view() == (from as int, field@, param@),
{
    Binding { from, field: String::from_str(field), param: String::from_str(param) }
}

/// A fetch spec with the given parts.
pub fn fetch_spec(
    slot: &str,
    method: Method,
    path: &str,
    params: Vec<(String, String)>,
    criticality: Criticality,
    default_value: Vec<Record>,
    bindings: Vec<Binding>,
) -> (r: FetchSpec)
    ensures
        r.deep_view() == (FetchSpecModel {
            slot: slot@,
            method,
            path: path@,
            params: params.deep_view(),
            criticality,
            default_value: default_value.deep_view(),
            bindings: bindings.deep_view(),
        }),
        r.bindings@ == bindings@,
        r.criticality == criticality,
{
    FetchSpec {
        slot: String::from_str(slot),
        method,
        path: String::from_str(path),
        params,
        criticality,
        default_value,
        bindings,
    }
}

/// A default of one record with no fields, standing for a zero-value entity.
pub fn zero_record() -> (r: Vec<Record>)
    ensures
        r.deep_view() == seq![Seq::<(Seq<char>, Seq<char>)>::empty()],
{
    let rec = Record { fields: Vec::new() };
    assert(rec.deep_view() =~= Seq::<(Seq<char>, Seq<char>)>::empty());
    let r = vec![rec];
    assert(r.deep_view() =~= seq![Seq::<(Seq<char>, Seq<char>)>::empty()]);
    r
}

/// A GET of one entity by id, which the page cannot do without.
pub open spec fn required_by_id(slot: Seq<char>, path: Seq<char>, id: Seq<char>) -> FetchSpecModel {
    FetchSpecModel {
        slot,
        method: Method::Get,
        path,
        params: seq![("id"@, id)],
        criticality: Criticality::Required,
        default_value: Seq::empty(),
        bindings: Seq::empty(),
    }
}

/// A GET keyed by a field of the first slot, replaced by `default` when it
/// fails or finds nothing.
pub open spec fn optional_keyed(
    slot: Seq<char>,
    path: Seq<char>,
    field: Seq<char>,
    param: Seq<char>,
    default: Seq<Seq<(Seq<char>, Seq<char>)>>,
) -> FetchSpecModel {
    FetchSpecModel {
        slot,
        method: Method::Get,
        path,
        params: Seq::empty(),
        criticality: Criticality::Optional,
        default_value: default,
        bindings: seq![(0, field, param)],
    }
}

/// The spec of a GET of one entity by id, which the page cannot do without.
pub fn required_get(slot: &str, path: &str, id: &String) -> (r: FetchSpec)
    ensures
        r.deep_view() == required_by_id(slot@, path@, id@),
        r.bindings@.len() == 0,
{
    let params = vec![pair("id", id.clone())];
    assert(params.deep_view() =~= seq![("id"@, id@)]);
    let bindings = Vec::new();
    let r = fetch_spec(slot, Method::Get, path, params, Criticality::Required, Vec::new(), bindings);
    assert(r.deep_view().default_value =~= Seq::empty());
    assert(r.deep_view().bindings =~= Seq::empty());
    r
}

/// The spec of a GET keyed by a field of the first slot; `zero` picks a
/// default of one zero-value record over an empty list.
pub fn optional_get(slot: &str, path: &str, field: &str, param: &str, zero: bool) -> (r: FetchSpec)
    ensures
        r.deep_view() == optional_keyed(
            slot@,
            path@,
            field@,
            param@,
            if zero { seq![Seq::empty()] } else { Seq::empty() },
        ),
        r.bindings@.len() == 1,
        r.bindings@[0].from == 0,
{
    let default_value = if zero { zero_record() } else { Vec::new() };
    let bindings = vec![bind(0, field, param)];
    let r = fetch_spec(slot, Method::Get, path, Vec::new(), Criticality::Optional, default_value, bindings);
    assert(r.deep_view().params =~= Seq::empty());
    assert(r.deep_view().bindings =~= seq![(0int, field@, param@)]);
    if !zero {
        assert(r.deep_view().default_value =~= Seq::empty());
    }
    r
}

/// A form POST that the page cannot do without.
pub open spec fn required_post(
    slot: Seq<char>,
    path: Seq<char>,
    params: Seq<(Seq<char>, Seq<char>)>,
    bindings: Seq<(int, Seq<char>, Seq<char>)>,
) -> FetchSpecModel {
    FetchSpecModel {
        slot,
        method: Method::Post,
        path,
        params,
        criticality: Criticality::Required,
        default_value: Seq::empty(),
        bindings,
    }
}

/// A form POST that deletes the entity with an id.
pub open spec fn delete_post(slot: Seq<char>, path: Seq<char>, id: Seq<char>) -> FetchSpecModel {
    FetchSpecModel {
        slot,
        method: Method::Post,
        path,
        params: seq![("id"@, id)],
        criticality: Criticality::Required,
        default_value: Seq::empty(),
        bindings: Seq::empty(),
    }
}

/// The spec of a form POST that deletes the entity with an id.
pub fn delete_post_spec(slot: &str, path: &str, id: &String) -> (r: FetchSpec)
    ensures
        r.deep_view() == delete_post(slot@, path@, id@),
        r.bindings@.len() == 0,
{
    let params = vec![pair("id", id.clone())];
    assert(params.deep_view() =~= seq![("id"@, id@)]);
    let r = fetch_spec(slot, Method::Post, path, params, Criticality::Required, Vec::new(), Vec::new());
    assert(r.deep_view().default_value =~= Seq::empty());
    assert(r.deep_view().bindings =~= Seq::empty());
    r
}

/// A Unix time as `YYYY-MM-DD HH:MM:SS` in UTC; `None` out of the range of
/// dates.
pub fn date(t: i64) -> (r: Option<String>)
    ensures
        match r {
            Some(s) => timestamp_text(t) == Some(s@),
            None => timestamp_text(t) is None,
        },
{
    format_timestamp(t)
}

/// The reply for a slot that aborted a page: the page's own text when the
/// content API found nothing, the failure itself when the call failed.
pub open spec fn failure_reply(action: Seq<char>, not_found: Seq<char>, reason: ReasonModel) -> ReplyModel {
    match reason {
        ReasonModel::Empty => ReplyModel::Error(action, not_found),
        ReasonModel::Upstream(msg) => ReplyModel::Error(action, "Content service failed: "@ + msg),
    }
}

/// The reply for a slot that aborted a page, whose action is a prefix
/// followed by a subject.
pub fn failure_about(prefix: &str, subject: &String, not_found: &str, reason: &FailReason) -> (r: Reply)
    ensures
        r.deep_view() == failure_reply(prefix@ + subject@, not_found@, reason.deep_view()),
{
    let mut action = String::from_str(prefix);
    action.append(subject.as_str());
    let why = match reason {
        FailReason::Empty => String::from_str(not_found),
        FailReason::Upstream(msg) => {
            let mut w = String::from_str("Content service failed: ");
            w.append(msg.as_str());
            w
        },
    };
    Reply::Error(ErrorSignal::new(action, why))
}

/// The reply once a deletion was sent: an error signal when the call
/// failed; otherwise the given location, an empty answer included (the
/// content API's way of saying that nothing is left).
pub open spec fn after_delete(action: Seq<char>, location: Seq<char>, c: ComposedModel) -> ReplyModel {
    match c.failure {
        Some((_, ReasonModel::Upstream(msg))) => failure_reply(action, "Unknown"@, ReasonModel::Upstream(msg)),
        _ => ReplyModel::Redirect(location),
    }
}

/// The reply once a deletion was sent, whose action and location are each
/// a prefix followed by a subject.
pub fn after_delete_reply(
    prefix: &str,
    subject: &String,
    to_prefix: &str,
    to_subject: &String,
    composed: &Composed,
) -> (r: Reply)
    ensures
        r.deep_view() == after_delete(prefix@ + subject@, to_prefix@ + to_subject@, composed.deep_view()),
{
    if let Some(f) = &composed.failure {
        if let FailReason::Upstream(_) = &f.reason {
            return failure_about(prefix, subject, "Unknown", &f.reason);
        }
    }
    redirect_to(to_prefix, to_subject)
}

} // verus!
