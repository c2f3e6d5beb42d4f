//! Comment pages: creating and deleting a comment on a post.

use vstd::prelude::*;
use vstd::string::*;
use crate::compose::{Composed, ComposedModel, Criticality, Method, ReasonModel, specs_wf};
use crate::identity::Identity;
use crate::page::{
    Reply, ReplyModel, Step, StepModel, after_delete, after_delete_reply, bind, failure_about, failure_reply, fetch_spec, delete_post, delete_post_spec, first_field,
    first_field_of, not_logged_in, not_logged_in_reply, pair, redirect_to, render, required_by_id, required_get,
    required_post,
};

verus! {

#[derive(Debug)]
pub struct ViewCommentCreateParams {
    pub post_id: String,
}

#[derive(Debug)]
pub struct PostCommentCreateParams {
    pub post_id: String,
    pub content: String,
}

#[derive(Debug)]
pub struct ViewCommentDeleteParams {
    pub id: String,
}

#[derive(Debug)]
pub struct PostCommentDeleteParams {
    pub id: String,
    pub post_id: String,
}

/// The reply when the post to comment on could not be read.
pub open spec fn no_post_to_comment(post_id: Seq<char>, reason: ReasonModel) -> ReplyModel {
    failure_reply("Query Article: "@ + post_id, "Article doesn't exist, comment couldn't be added to it!"@, reason)
}

/// Needs a session, then the post to comment on.
pub open spec fn view_comment_create_plan(user: Option<Seq<char>>, post_id: Seq<char>) -> StepModel {
    match user {
        None => StepModel::Done(not_logged_in()),
        Some(_) => StepModel::Fetch(seq![required_by_id("post"@, "/v1/post"@, post_id)]),
    }
}

/// The reply once the fetches of `view_comment_create` are composed.
pub open spec fn view_comment_create_finish(post_id: Seq<char>, user: Option<Seq<char>>, c: ComposedModel) -> ReplyModel {
    if let Some((_, reason)) = c.failure {
        no_post_to_comment(post_id, reason)
    } else {
        ReplyModel::Render("comment_create"@, c.values, user)
    }
}

/// The first step of this page: its fetches, or the reply when it cannot
/// fetch (no session).
pub fn view_comment_create(identity: &Identity, params: &ViewCommentCreateParams) -> (r: Step)
    ensures
        r.deep_view() == view_comment_create_plan(identity@, params.post_id@),
        r matches Step::Fetch(specs) ==> specs_wf(specs@),
{
    if !identity.is_logged_in() {
        return Step::Done(not_logged_in_reply());
    }
    let specs = vec![required_get("post", "/v1/post", &params.post_id)];
    assert(specs.deep_view() =~= seq![required_by_id("post"@, "/v1/post"@, params.post_id@)]);
    Step::Fetch(specs)
}

/// The reply once the fetches of `view_comment_create` are composed.
pub fn view_comment_create_reply(params: &ViewCommentCreateParams, identity: &Identity, composed: Composed) -> (r: Reply)
    ensures
        r.deep_view() == view_comment_create_finish(params.post_id@, identity@, composed.deep_view()),
{
    if let Some(f) = &composed.failure {
        return failure_about(
            "Query Article: ",
            &params.post_id,
            "Article doesn't exist, comment couldn't be added to it!",
            &f.reason,
        );
    }
    render("comment_create", composed, identity.user_id())
}

/// Needs a session; reads the post and the author, then creates the comment
/// under the post's id and the author's id and nickname.
pub open spec fn post_comment_create_plan(user: Option<Seq<char>>, post_id: Seq<char>, content: Seq<char>) -> StepModel {
    match user {
        None => StepModel::Done(not_logged_in()),
        Some(uid) => StepModel::Fetch(
            seq![
                required_by_id("post"@, "/v1/post"@, post_id),
                required_by_id("author"@, "/v1/user"@, uid),
                required_post(
                    "comment"@,
                    "/v1/comment/create"@,
                    seq![("content"@, content), ("parent_comment_id"@, Seq::empty()), ("is_public"@, "true"@)],
                    seq![(0, "id"@, "post_id"@), (1, "id"@, "author_id"@), (1, "nickname"@, "author_nickname"@)],
                ),
            ],
        ),
    }
}

/// The reply once the fetches of `post_comment_create` are composed.
pub open spec fn post_comment_create_finish(post_id: Seq<char>, uid: Seq<char>, c: ComposedModel) -> ReplyModel {
    match c.failure {
        Some((k, reason)) => if k == 0 {
            no_post_to_comment(post_id, reason)
        } else if k == 1 {
            failure_reply("Query author: "@ + uid, "Unknown"@, reason)
        } else {
            failure_reply("Create comment for article: "@ + first_field(c.values, 0, "id"@), "Unknown"@, reason)
        },
        None => ReplyModel::Redirect("/article?id="@ + first_field(c.values, 2, "post_id"@)),
    }
}

/// The first step of this page: its fetches, or the reply when it cannot
/// fetch (no session).
pub fn post_comment_create(identity: &Identity, params: &PostCommentCreateParams) -> (r: Step)
    ensures
        r.deep_view() == post_comment_create_plan(identity@, params.post_id@, params.content@),
        r matches Step::Fetch(specs) ==> specs_wf(specs@),
{
    let uid = match identity.user_id() {
        None => return Step::Done(not_logged_in_reply()),
        Some(u) => u,
    };
    let fields = vec![
        pair("content", params.content.clone()),
        pair("parent_comment_id", String::new()),
        pair("is_public", String::from_str("true")),
    ];
    assert(fields.deep_view() =~= seq![
        ("content"@, params.content@),
        ("parent_comment_id"@, Seq::<char>::empty()),
        ("is_public"@, "true"@),
    ]);
    let bindings = vec![bind(0, "id", "post_id"), bind(1, "id", "author_id"), bind(1, "nickname", "author_nickname")];
    assert(bindings.deep_view() =~= seq![
        (0int, "id"@, "post_id"@),
        (1int, "id"@, "author_id"@),
        (1int, "nickname"@, "author_nickname"@),
    ]);
    let create = fetch_spec("comment", Method::Post, "/v1/comment/create", fields, Criticality::Required, Vec::new(), bindings);
    assert(create.deep_view().default_value =~= Seq::empty());
    let specs = vec![
        required_get("post", "/v1/post", &params.post_id),
        required_get("author", "/v1/user", &uid),
        create,
    ];
    assert(specs.deep_view() =~= post_comment_create_plan(identity@, params.post_id@, params.content@)->Fetch_0);
    Step::Fetch(specs)
}

/// The reply once the fetches of `post_comment_create` are composed.
pub fn post_comment_create_reply(params: &PostCommentCreateParams, uid: &String, composed: Composed) -> (r: Reply)
    ensures
        r.deep_view() == post_comment_create_finish(params.post_id@, uid@, composed.deep_view()),
{
    match &composed.failure {
        Some(f) => if f.index == 0 {
            failure_about(
                "Query Article: ",
                &params.post_id,
                "Article doesn't exist, comment couldn't be added to it!",
                &f.reason,
            )
        } else if f.index == 1 {
            failure_about("Query author: ", uid, "Unknown", &f.reason)
        } else {
            failure_about("Create comment for article: ", &first_field_of(&composed.values, 0, "id"), "Unknown", &f.reason)
        },
        None => redirect_to("/article?id=", &first_field_of(&composed.values, 2, "post_id")),
    }
}

/// Needs a session, then the comment to delete.
pub open spec fn view_comment_delete_plan(user: Option<Seq<char>>, id: Seq<char>) -> StepModel {
    match user {
        None => StepModel::Done(not_logged_in()),
        Some(_) => StepModel::Fetch(seq![required_by_id("comment"@, "/v1/comment"@, id)]),
    }
}

/// The reply once the fetches of `view_comment_delete` are composed.
pub open spec fn view_comment_delete_finish(id: Seq<char>, user: Option<Seq<char>>, c: ComposedModel) -> ReplyModel {
    if let Some((_, reason)) = c.failure {
        failure_reply("Query comment: "@ + id, "Comment doesn't exist!"@, reason)
    } else {
        ReplyModel::Render("comment_delete"@, c.values, user)
    }
}

/// The first step of this page: its fetches, or the reply when it cannot
/// fetch (no session).
pub fn view_comment_delete(identity: &Identity, params: &ViewCommentDeleteParams) -> (r: Step)
    ensures
        r.deep_view() == view_comment_delete_plan(identity@, params.id@),
        r matches Step::Fetch(specs) ==> specs_wf(specs@),
{
    if !identity.is_logged_in() {
        return Step::Done(not_logged_in_reply());
    }
    let specs = vec![required_get("comment", "/v1/comment", &params.id)];
    assert(specs.deep_view() =~= seq![required_by_id("comment"@, "/v1/comment"@, params.id@)]);
    Step::Fetch(specs)
}

/// The reply once the fetches of `view_comment_delete` are composed.
pub fn view_comment_delete_reply(params: &ViewCommentDeleteParams, identity: &Identity, composed: Composed) -> (r: Reply)
    ensures
        r.deep_view() == view_comment_delete_finish(params.id@, identity@, composed.deep_view()),
{
    if let Some(f) = &composed.failure {
        return failure_about("Query comment: ", &params.id, "Comment doesn't exist!", &f.reason);
    }
    render("comment_delete", composed, identity.user_id())
}

/// Needs a session; asks for the deletion.
pub open spec fn post_comment_delete_plan(user: Option<Seq<char>>, id: Seq<char>) -> StepModel {
    match user {
        None => StepModel::Done(not_logged_in()),
        Some(_) => StepModel::Fetch(seq![delete_post("delete"@, "/v1/comment/delete"@, id)]),
    }
}

/// The first step of this page: its fetches, or the reply when it cannot
/// fetch (no session).
pub fn post_comment_delete(identity: &Identity, params: &PostCommentDeleteParams) -> (r: Step)
    ensures
        r.deep_view() == post_comment_delete_plan(identity@, params.id@),
        r matches Step::Fetch(specs) ==> specs_wf(specs@),
{
    if !identity.is_logged_in() {
        return Step::Done(not_logged_in_reply());
    }
    let specs = vec![delete_post_spec("delete", "/v1/comment/delete", &params.id)];
    assert(specs.deep_view() =~= seq![delete_post("delete"@, "/v1/comment/delete"@, params.id@)]);
    Step::Fetch(specs)
}

/// Back to the post once the comment is deleted; an error signal when the
/// deletion failed.
pub fn post_comment_delete_reply(params: &PostCommentDeleteParams, composed: Composed) -> (r: Reply)
    ensures
        r.deep_view() == after_delete(
            "Delete comment: "@ + params.id@,
            "/article?id="@ + params.post_id@,
            composed.deep_view(),
        ),
{
    after_delete_reply("Delete comment: ", &params.id, "/article?id=", &params.post_id, &composed)
}

} // verus!
