//! Subspace pages: viewing, creating and deleting a subspace.

use vstd::prelude::*;
use vstd::string::*;
use crate::compose::{Composed, ComposedModel, Criticality, Method, ReasonModel, specs_wf};
use crate::identity::Identity;
use crate::page::{
    Reply, ReplyModel, Step, StepModel, after_delete, after_delete_reply, error_about, fetch_spec, delete_post, delete_post_spec, first_field,
    first_field_of, failure_about, failure_reply, not_logged_in, not_logged_in_reply, optional_get, optional_keyed, pair, redirect_to, render,
    required_by_id, required_get, required_post,
};

verus! {

#[derive(Debug)]
pub struct ViewSubspaceParams {
    pub id: String,
}

#[derive(Debug)]
pub struct ViewSubspaceCreateParams {}

#[derive(Debug)]
pub struct PostSubspaceCreateParams {
    pub title: String,
    pub description: String,
}

#[derive(Debug)]
pub struct ViewSubspaceDeleteParams {
    pub id: String,
}

#[derive(Debug)]
pub struct PostSubspaceDeleteParams {
    pub id: String,
}

/// The subspace, then its posts, which default to none.
pub open spec fn subspace_with_posts(id: Seq<char>) -> StepModel {
    StepModel::Fetch(
        seq![
            required_by_id("subspace"@, "/v1/subspace"@, id),
            optional_keyed("posts"@, "/v1/post/list_by_subspace"@, "id"@, "subspace_id"@, Seq::empty()),
        ],
    )
}

fn subspace_with_posts_step(id: &String) -> (r: Step)
    ensures
        r.deep_view() == subspace_with_posts(id@),
        r matches Step::Fetch(specs) && specs_wf(specs@),
{
    let specs = vec![
        required_get("subspace", "/v1/subspace", id),
        optional_get("posts", "/v1/post/list_by_subspace", "id", "subspace_id", false),
    ];
    assert(specs.deep_view() =~= subspace_with_posts(id@)->Fetch_0);
    Step::Fetch(specs)
}

/// The reply when the subspace could not be read.
pub open spec fn no_such_subspace(id: Seq<char>, reason: ReasonModel) -> ReplyModel {
    failure_reply("Query subspace: "@ + id, "No this subspace."@, reason)
}

/// The reply when the subspace still holds posts.
pub open spec fn subspace_has_posts(c: ComposedModel) -> ReplyModel {
    ReplyModel::Error(
        "Intend to delete subspace: "@ + first_field(c.values, 0, "id"@),
        "This subspace has article attached, could not be deleted!"@,
    )
}

/// Whether the composed posts of a subspace are not empty.
pub open spec fn holds_posts(c: ComposedModel) -> bool {
    c.values.len() > 1 && c.values[1].len() > 0
}

/// The fetches of the subspace page, which needs no session: the subspace
/// and its posts.
pub fn view_subspace(params: &ViewSubspaceParams) -> (r: Step)
    ensures
        r.deep_view() == subspace_with_posts(params.id@),
        r matches Step::Fetch(specs) && specs_wf(specs@),
{
    subspace_with_posts_step(&params.id)
}

/// The reply once the fetches of `view_subspace` are composed.
pub open spec fn view_subspace_finish(id: Seq<char>, user: Option<Seq<char>>, c: ComposedModel) -> ReplyModel {
    match c.failure {
        Some((_, reason)) => no_such_subspace(id, reason),
        None => ReplyModel::Render("subspace"@, c.values, user),
    }
}

/// The reply once the fetches of `view_subspace` are composed.
pub fn view_subspace_reply(params: &ViewSubspaceParams, identity: &Identity, composed: Composed) -> (r: Reply)
    ensures
        r.deep_view() == view_subspace_finish(params.id@, identity@, composed.deep_view()),
{
    if let Some(f) = &composed.failure {
        return failure_about("Query subspace: ", &params.id, "No this subspace.", &f.reason);
    }
    render("subspace", composed, identity.user_id())
}

/// The form for a new subspace, for a logged-in user.
pub fn view_subspace_create(identity: &Identity, params: &ViewSubspaceCreateParams) -> (r: Reply)
    ensures
        r.deep_view() == match identity@ {
            None => not_logged_in(),
            Some(u) => ReplyModel::Render("subspace_create"@, Seq::empty(), Some(u)),
        },
{
    if !identity.is_logged_in() {
        return not_logged_in_reply();
    }
    let r = render("subspace_create", Composed { values: Vec::new(), failure: None }, identity.user_id());
    assert(r.deep_view()->Render_1 =~= Seq::empty());
    r
}

/// Needs a session; creates a public subspace owned by the user.
pub open spec fn post_subspace_create_plan(user: Option<Seq<char>>, title: Seq<char>, description: Seq<char>) -> StepModel {
    match user {
        None => StepModel::Done(not_logged_in()),
        Some(uid) => StepModel::Fetch(
            seq![
                required_post(
                    "subspace"@,
                    "/v1/subspace/create"@,
                    seq![
                        ("title"@, title),
                        ("description"@, description),
                        ("banner"@, Seq::empty()),
                        ("owner_id"@, uid),
                        ("profession"@, "it"@),
                        ("appid"@, "discux"@),
                        ("is_public"@, "true"@),
                        ("slug"@, Seq::empty()),
                    ],
                    Seq::empty(),
                ),
            ],
        ),
    }
}

/// The reply once the fetches of `post_subspace_create` are composed.
pub open spec fn post_subspace_create_finish(c: ComposedModel) -> ReplyModel {
    if let Some((_, reason)) = c.failure {
        failure_reply("Create subspace"@, "Unknown"@, reason)
    } else {
        ReplyModel::Redirect("/subspace?id="@ + first_field(c.values, 0, "id"@))
    }
}

/// The first step of this page: its fetches, or the reply when it cannot
/// fetch (no session).
pub fn post_subspace_create(identity: &Identity, params: &PostSubspaceCreateParams) -> (r: Step)
    ensures
        r.deep_view() == post_subspace_create_plan(identity@, params.title@, params.description@),
        r matches Step::Fetch(specs) ==> specs_wf(specs@),
{
    let uid = match identity.user_id() {
        None => return Step::Done(not_logged_in_reply()),
        Some(u) => u,
    };
    let fields = vec![
        pair("title", params.title.clone()),
        pair("description", params.description.clone()),
        pair("banner", String::new()),
        pair("owner_id", uid),
        pair("profession", String::from_str("it")),
        pair("appid", String::from_str("discux")),
        pair("is_public", String::from_str("true")),
        pair("slug", String::new()),
    ];
    assert(fields.deep_view() =~= seq![
        ("title"@, params.title@),
        ("description"@, params.description@),
        ("banner"@, Seq::<char>::empty()),
        ("owner_id"@, identity@->0),
        ("profession"@, "it"@),
        ("appid"@, "discux"@),
        ("is_public"@, "true"@),
        ("slug"@, Seq::<char>::empty()),
    ]);
    let create = fetch_spec("subspace", Method::Post, "/v1/subspace/create", fields, Criticality::Required, Vec::new(), Vec::new());
    assert(create.deep_view().default_value =~= Seq::empty());
    assert(create.deep_view().bindings =~= Seq::empty());
    let specs = vec![create];
    assert(specs.deep_view() =~= post_subspace_create_plan(identity@, params.title@, params.description@)->Fetch_0);
    Step::Fetch(specs)
}

/// The reply once the fetches of `post_subspace_create` are composed.
pub fn post_subspace_create_reply(composed: Composed) -> (r: Reply)
    ensures
        r.deep_view() == post_subspace_create_finish(composed.deep_view()),
{
    match &composed.failure {
        Some(f) => {
            let r = failure_about("Create subspace", &String::new(), "Unknown", &f.reason);
            assert("Create subspace"@ + Seq::<char>::empty() =~= "Create subspace"@);
            r
        },
        None => redirect_to("/subspace?id=", &first_field_of(&composed.values, 0, "id")),
    }
}

/// Needs a session, then the subspace and its posts.
pub open spec fn subspace_delete_plan(user: Option<Seq<char>>, id: Seq<char>) -> StepModel {
    match user {
        None => StepModel::Done(not_logged_in()),
        Some(_) => subspace_with_posts(id),
    }
}

/// The first step of this page: its fetches, or the reply when it cannot
/// fetch (no session).
pub fn view_subspace_delete(identity: &Identity, params: &ViewSubspaceDeleteParams) -> (r: Step)
    ensures
        r.deep_view() == subspace_delete_plan(identity@, params.id@),
        r matches Step::Fetch(specs) ==> specs_wf(specs@),
{
    if !identity.is_logged_in() {
        return Step::Done(not_logged_in_reply());
    }
    subspace_with_posts_step(&params.id)
}

/// A subspace that holds posts cannot be deleted.
pub open spec fn view_subspace_delete_finish(id: Seq<char>, user: Option<Seq<char>>, c: ComposedModel) -> ReplyModel {
    if let Some((_, reason)) = c.failure {
        no_such_subspace(id, reason)
    } else if holds_posts(c) {
        subspace_has_posts(c)
    } else {
        ReplyModel::Render("subspace_delete"@, c.values, user)
    }
}

/// The reply once the fetches of `view_subspace_delete` are composed.
pub fn view_subspace_delete_reply(params: &ViewSubspaceDeleteParams, identity: &Identity, composed: Composed) -> (r: Reply)
    ensures
        r.deep_view() == view_subspace_delete_finish(params.id@, identity@, composed.deep_view()),
{
    if let Some(f) = &composed.failure {
        return failure_about("Query subspace: ", &params.id, "No this subspace.", &f.reason);
    }
    if composed.values.len() > 1 && composed.values[1].len() > 0 {
        conflict(&composed)
    } else {
        render("subspace_delete", composed, identity.user_id())
    }
}

fn conflict(composed: &Composed) -> (r: Reply)
    ensures
        r.deep_view() == subspace_has_posts(composed.deep_view()),
{
    error_about(
        "Intend to delete subspace: ",
        &first_field_of(&composed.values, 0, "id"),
        "This subspace has article attached, could not be deleted!",
    )
}

/// The first step of this page: its fetches, or the reply when it cannot
/// fetch (no session).
pub fn post_subspace_delete(identity: &Identity, params: &PostSubspaceDeleteParams) -> (r: Step)
    ensures
        r.deep_view() == subspace_delete_plan(identity@, params.id@),
        r matches Step::Fetch(specs) ==> specs_wf(specs@),
{
    if !identity.is_logged_in() {
        return Step::Done(not_logged_in_reply());
    }
    subspace_with_posts_step(&params.id)
}

/// After the check: the deletion is asked for only when the subspace
/// exists and holds no posts.
pub open spec fn post_subspace_delete_checked_model(id: Seq<char>, c: ComposedModel) -> StepModel {
    if let Some((_, reason)) = c.failure {
        StepModel::Done(no_such_subspace(id, reason))
    } else if holds_posts(c) {
        StepModel::Done(subspace_has_posts(c))
    } else {
        StepModel::Fetch(seq![delete_post("delete"@, "/v1/subspace/delete"@, first_field(c.values, 0, "id"@))])
    }
}

/// The second step of deleting a subspace, once the subspace and its posts
/// are composed: the deletion, or the reply that refuses it.
pub fn post_subspace_delete_checked(params: &PostSubspaceDeleteParams, composed: Composed) -> (r: Step)
    ensures
        r.deep_view() == post_subspace_delete_checked_model(params.id@, composed.deep_view()),
        r matches Step::Fetch(specs) ==> specs_wf(specs@),
{
    if let Some(f) = &composed.failure {
        return Step::Done(failure_about("Query subspace: ", &params.id, "No this subspace.", &f.reason));
    }
    if composed.values.len() > 1 && composed.values[1].len() > 0 {
        Step::Done(conflict(&composed))
    } else {
        let id = first_field_of(&composed.values, 0, "id");
        let specs = vec![delete_post_spec("delete", "/v1/subspace/delete", &id)];
        assert(specs.deep_view() =~= seq![delete_post("delete"@, "/v1/subspace/delete"@, id@)]);
        Step::Fetch(specs)
    }
}

/// Home once the subspace is deleted; an error signal when the deletion
/// failed.
pub fn post_subspace_delete_reply(params: &PostSubspaceDeleteParams, composed: Composed) -> (r: Reply)
    ensures
        r.deep_view() == after_delete("Delete subspace: "@ + params.id@, "/"@, composed.deep_view()),
{
    let r = after_delete_reply("Delete subspace: ", &params.id, "/", &String::new(), &composed);
    assert("/"@ + Seq::<char>::empty() =~= "/"@);
    r
}

} // verus!
