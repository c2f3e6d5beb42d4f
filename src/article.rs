//! Article pages: viewing, creating, editing and deleting a post.

use vstd::prelude::*;
use vstd::string::*;
use crate::compose::{Composed, ComposedModel, Criticality, FetchSpecModel, Method, specs_wf};
use crate::identity::Identity;
use crate::page::{
    Reply, ReplyModel, Step, StepModel, after_delete, after_delete_reply, bind, error_about, fetch_spec, first_field, first_field_of, not_logged_in,
    not_logged_in_reply, failure_about, failure_reply, delete_post, delete_post_spec, optional_get, optional_keyed, pair, redirect_to, render, required_by_id, required_get, required_post,
};

verus! {

#[derive(Debug)]
pub struct ViewArticleParams {
    pub id: String,
}

#[derive(Debug)]
pub struct ViewArticleCreateParams {
    pub subspace_id: String,
}

#[derive(Debug)]
pub struct PostArticleCreateParams {
    pub subspace_id: String,
    pub title: String,
    pub content: String,
    pub extlink: String,
}

#[derive(Debug)]
pub struct ViewArticleEditParams {
    pub id: String,
}

#[derive(Debug)]
pub struct PostArticleEditParams {
    pub id: String,
    pub title: String,
    pub content: String,
    pub extlink: String,
}

#[derive(Debug)]
pub struct ViewArticleDeleteParams {
    pub id: String,
}

#[derive(Debug)]
pub struct PostArticleDeleteParams {
    pub id: String,
    pub subspace_id: String,
}

/// The article, then its comments, its subspace and its author; only the
/// article itself is needed.
pub open spec fn view_article_plan(id: Seq<char>) -> Seq<FetchSpecModel> {
    seq![
        required_by_id("post"@, "/v1/post"@, id),
        optional_keyed("comments"@, "/v1/comment/list_by_post"@, "id"@, "post_id"@, Seq::empty()),
        optional_keyed("subspace"@, "/v1/subspace"@, "subspace_id"@, "id"@, seq![Seq::empty()]),
        optional_keyed("author"@, "/v1/user"@, "author_id"@, "id"@, seq![Seq::empty()]),
    ]
}

/// The reply once the fetches of `view_article` are composed.
pub open spec fn view_article_finish(id: Seq<char>, user: Option<Seq<char>>, c: ComposedModel) -> ReplyModel {
    match c.failure {
        Some((_, reason)) => failure_reply("Query article: "@ + id, "Article doesn't exist!"@, reason),
        None => ReplyModel::Render("article"@, c.values, user),
    }
}

/// The fetches of the article page.
pub fn view_article(params: &ViewArticleParams) -> (r: Step)
    ensures
        r.deep_view() == StepModel::Fetch(view_article_plan(params.id@)),
        r matches Step::Fetch(specs) && specs_wf(specs@),
{
    let specs = vec![
        required_get("post", "/v1/post", &params.id),
        optional_get("comments", "/v1/comment/list_by_post", "id", "post_id", false),
        optional_get("subspace", "/v1/subspace", "subspace_id", "id", true),
        optional_get("author", "/v1/user", "author_id", "id", true),
    ];
    assert(specs.deep_view() =~= view_article_plan(params.id@));
    Step::Fetch(specs)
}

/// The article page, or an error when the article does not exist.
pub fn view_article_reply(params: &ViewArticleParams, identity: &Identity, composed: Composed) -> (r: Reply)
    ensures
        r.deep_view() == view_article_finish(params.id@, identity@, composed.deep_view()),
{
    if let Some(f) = &composed.failure {
        return failure_about("Query article: ", &params.id, "Article doesn't exist!", &f.reason);
    }
    render("article", composed, identity.user_id())
}

/// Needs a session, then the subspace the article will go into.
pub open spec fn view_article_create_plan(user: Option<Seq<char>>, subspace_id: Seq<char>) -> StepModel {
    match user {
        None => StepModel::Done(not_logged_in()),
        Some(_) => StepModel::Fetch(seq![required_by_id("subspace"@, "/v1/subspace"@, subspace_id)]),
    }
}

/// The reply once the fetches of `view_article_create` are composed.
pub open spec fn view_article_create_finish(subspace_id: Seq<char>, user: Option<Seq<char>>, c: ComposedModel) -> ReplyModel {
    match c.failure {
        Some((_, reason)) => failure_reply(
            "Query subspace: "@ + subspace_id,
            "Subspace doesn't exist, article couldn't be added to it!"@,
            reason,
        ),
        None => ReplyModel::Render("article_create"@, c.values, user),
    }
}

/// The first step of this page: its fetches, or the reply when it cannot
/// fetch (no session).
pub fn view_article_create(identity: &Identity, params: &ViewArticleCreateParams) -> (r: Step)
    ensures
        r.deep_view() == view_article_create_plan(identity@, params.subspace_id@),
        r matches Step::Fetch(specs) ==> specs_wf(specs@),
{
    if !identity.is_logged_in() {
        return Step::Done(not_logged_in_reply());
    }
    let specs = vec![required_get("subspace", "/v1/subspace", &params.subspace_id)];
    assert(specs.deep_view() =~= seq![required_by_id("subspace"@, "/v1/subspace"@, params.subspace_id@)]);
    Step::Fetch(specs)
}

/// The reply once the fetches of `view_article_create` are composed.
pub fn view_article_create_reply(params: &ViewArticleCreateParams, identity: &Identity, composed: Composed) -> (r: Reply)
    ensures
        r.deep_view() == view_article_create_finish(params.subspace_id@, identity@, composed.deep_view()),
{
    if let Some(f) = &composed.failure {
        return failure_about(
            "Query subspace: ",
            &params.subspace_id,
            "Subspace doesn't exist, article couldn't be added to it!",
            &f.reason,
        );
    }
    render("article_create", composed, identity.user_id())
}

/// Needs a session; reads the author, then creates the post under the
/// author's id and nickname.
pub open spec fn post_article_create_plan(
    user: Option<Seq<char>>,
    subspace_id: Seq<char>,
    title: Seq<char>,
    content: Seq<char>,
    extlink: Seq<char>,
) -> StepModel {
    match user {
        None => StepModel::Done(not_logged_in()),
        Some(uid) => StepModel::Fetch(
            seq![
                required_by_id("user"@, "/v1/user"@, uid),
                required_post(
                    "post"@,
                    "/v1/post/create"@,
                    seq![
                        ("title"@, title),
                        ("content"@, content),
                        ("subspace_id"@, subspace_id),
                        ("extlink"@, extlink),
                        ("profession"@, "it"@),
                        ("appid"@, "discux"@),
                        ("is_public"@, "true"@),
                    ],
                    seq![(0, "id"@, "author_id"@), (0, "nickname"@, "author_nickname"@)],
                ),
            ],
        ),
    }
}

/// The reply once the fetches of `post_article_create` are composed.
pub open spec fn post_article_create_finish(uid: Seq<char>, subspace_id: Seq<char>, c: ComposedModel) -> ReplyModel {
    match c.failure {
        Some((k, reason)) => if k == 0 {
            failure_reply("Query user: "@ + uid, "Unknown error."@, reason)
        } else {
            failure_reply("Create article in subspace: "@ + subspace_id, "Unknown"@, reason)
        },
        None => ReplyModel::Redirect("/article?id="@ + first_field(c.values, 1, "id"@)),
    }
}

/// The first step of this page: its fetches, or the reply when it cannot
/// fetch (no session).
pub fn post_article_create(identity: &Identity, params: &PostArticleCreateParams) -> (r: Step)
    ensures
        r.deep_view() == post_article_create_plan(
            identity@,
            params.subspace_id@,
            params.title@,
            params.content@,
            params.extlink@,
        ),
        r matches Step::Fetch(specs) ==> specs_wf(specs@),
{
    let uid = match identity.user_id() {
        None => return Step::Done(not_logged_in_reply()),
        Some(u) => u,
    };
    let fields = vec![
        pair("title", params.title.clone()),
        pair("content", params.content.clone()),
        pair("subspace_id", params.subspace_id.clone()),
        pair("extlink", params.extlink.clone()),
        pair("profession", String::from_str("it")),
        pair("appid", String::from_str("discux")),
        pair("is_public", String::from_str("true")),
    ];
    assert(fields.deep_view() =~= seq![
        ("title"@, params.title@),
        ("content"@, params.content@),
        ("subspace_id"@, params.subspace_id@),
        ("extlink"@, params.extlink@),
        ("profession"@, "it"@),
        ("appid"@, "discux"@),
        ("is_public"@, "true"@),
    ]);
    let bindings = vec![bind(0, "id", "author_id"), bind(0, "nickname", "author_nickname")];
    assert(bindings.deep_view() =~= seq![(0int, "id"@, "author_id"@), (0int, "nickname"@, "author_nickname"@)]);
    let create = fetch_spec("post", Method::Post, "/v1/post/create", fields, Criticality::Required, Vec::new(), bindings);
    let specs = vec![required_get("user", "/v1/user", &uid), create];
    assert(create.deep_view().default_value =~= Seq::empty());
    assert(specs.deep_view() =~= post_article_create_plan(
        identity@,
        params.subspace_id@,
        params.title@,
        params.content@,
        params.extlink@,
    )->Fetch_0);
    Step::Fetch(specs)
}

/// The reply once the fetches of `post_article_create` are composed.
pub fn post_article_create_reply(params: &PostArticleCreateParams, uid: &String, composed: Composed) -> (r: Reply)
    ensures
        r.deep_view() == post_article_create_finish(uid@, params.subspace_id@, composed.deep_view()),
{
    match &composed.failure {
        Some(f) => if f.index == 0 {
            failure_about("Query user: ", uid, "Unknown error.", &f.reason)
        } else {
            failure_about("Create article in subspace: ", &params.subspace_id, "Unknown", &f.reason)
        },
        None => redirect_to("/article?id=", &first_field_of(&composed.values, 1, "id")),
    }
}

/// Needs a session, then the post to edit.
pub open spec fn view_article_edit_plan(user: Option<Seq<char>>, id: Seq<char>) -> StepModel {
    match user {
        None => StepModel::Done(not_logged_in()),
        Some(_) => StepModel::Fetch(seq![required_by_id("post"@, "/v1/post"@, id)]),
    }
}

/// The reply once the fetches of `view_article_edit` are composed.
pub open spec fn view_article_edit_finish(id: Seq<char>, user: Option<Seq<char>>, c: ComposedModel) -> ReplyModel {
    match c.failure {
        Some((_, reason)) => failure_reply("Query Article: "@ + id, "Article doesn't exist!"@, reason),
        None => ReplyModel::Render("article_edit"@, c.values, user),
    }
}

/// The first step of this page: its fetches, or the reply when it cannot
/// fetch (no session).
pub fn view_article_edit(identity: &Identity, params: &ViewArticleEditParams) -> (r: Step)
    ensures
        r.deep_view() == view_article_edit_plan(identity@, params.id@),
        r matches Step::Fetch(specs) ==> specs_wf(specs@),
{
    if !identity.is_logged_in() {
        return Step::Done(not_logged_in_reply());
    }
    let specs = vec![required_get("post", "/v1/post", &params.id)];
    assert(specs.deep_view() =~= seq![required_by_id("post"@, "/v1/post"@, params.id@)]);
    Step::Fetch(specs)
}

/// The reply once the fetches of `view_article_edit` are composed.
pub fn view_article_edit_reply(params: &ViewArticleEditParams, identity: &Identity, composed: Composed) -> (r: Reply)
    ensures
        r.deep_view() == view_article_edit_finish(params.id@, identity@, composed.deep_view()),
{
    if let Some(f) = &composed.failure {
        return failure_about("Query Article: ", &params.id, "Article doesn't exist!", &f.reason);
    }
    render("article_edit", composed, identity.user_id())
}

/// Needs a session; updates the post as its author.
pub open spec fn post_article_edit_plan(
    user: Option<Seq<char>>,
    id: Seq<char>,
    title: Seq<char>,
    content: Seq<char>,
    extlink: Seq<char>,
) -> StepModel {
    match user {
        None => StepModel::Done(not_logged_in()),
        Some(uid) => StepModel::Fetch(
            seq![
                required_post(
                    "post"@,
                    "/v1/post/update"@,
                    seq![
                        ("id"@, id),
                        ("title"@, title),
                        ("content"@, content),
                        ("author_id"@, uid),
                        ("extlink"@, extlink),
                        ("is_public"@, "true"@),
                    ],
                    Seq::empty(),
                ),
            ],
        ),
    }
}

/// The reply once the fetches of `post_article_edit` are composed.
pub open spec fn post_article_edit_finish(id: Seq<char>, c: ComposedModel) -> ReplyModel {
    match c.failure {
        Some((_, reason)) => failure_reply("Edit article: "@ + id, "Unknown"@, reason),
        None => ReplyModel::Redirect("/article?id="@ + first_field(c.values, 0, "id"@)),
    }
}

/// The first step of this page: its fetches, or the reply when it cannot
/// fetch (no session).
pub fn post_article_edit(identity: &Identity, params: &PostArticleEditParams) -> (r: Step)
    ensures
        r.deep_view() == post_article_edit_plan(identity@, params.id@, params.title@, params.content@, params.extlink@),
        r matches Step::Fetch(specs) ==> specs_wf(specs@),
{
    let uid = match identity.user_id() {
        None => return Step::Done(not_logged_in_reply()),
        Some(u) => u,
    };
    let fields = vec![
        pair("id", params.id.clone()),
        pair("title", params.title.clone()),
        pair("content", params.content.clone()),
        pair("author_id", uid),
        pair("extlink", params.extlink.clone()),
        pair("is_public", String::from_str("true")),
    ];
    assert(fields.deep_view() =~= seq![
        ("id"@, params.id@),
        ("title"@, params.title@),
        ("content"@, params.content@),
        ("author_id"@, identity@->0),
        ("extlink"@, params.extlink@),
        ("is_public"@, "true"@),
    ]);
    let update = fetch_spec("post", Method::Post, "/v1/post/update", fields, Criticality::Required, Vec::new(), Vec::new());
    assert(update.deep_view().default_value =~= Seq::empty());
    assert(update.deep_view().bindings =~= Seq::empty());
    let specs = vec![update];
    assert(specs.deep_view() =~= post_article_edit_plan(
        identity@,
        params.id@,
        params.title@,
        params.content@,
        params.extlink@,
    )->Fetch_0);
    Step::Fetch(specs)
}

/// The reply once the fetches of `post_article_edit` are composed.
pub fn post_article_edit_reply(params: &PostArticleEditParams, composed: Composed) -> (r: Reply)
    ensures
        r.deep_view() == post_article_edit_finish(params.id@, composed.deep_view()),
{
    match &composed.failure {
        Some(f) => failure_about("Edit article: ", &params.id, "Unknown", &f.reason),
        None => redirect_to("/article?id=", &first_field_of(&composed.values, 0, "id")),
    }
}

/// Needs a session, then the post and its comments.
pub open spec fn view_article_delete_plan(user: Option<Seq<char>>, id: Seq<char>) -> StepModel {
    match user {
        None => StepModel::Done(not_logged_in()),
        Some(_) => StepModel::Fetch(
            seq![
                required_by_id("post"@, "/v1/post"@, id),
                optional_keyed("comments"@, "/v1/comment/list_by_post"@, "id"@, "post_id"@, Seq::empty()),
            ],
        ),
    }
}

/// A post with comments cannot be deleted.
pub open spec fn view_article_delete_finish(id: Seq<char>, user: Option<Seq<char>>, c: ComposedModel) -> ReplyModel {
    if let Some((_, reason)) = c.failure {
        failure_reply("Query article: "@ + id, "Article doesn't exist!"@, reason)
    } else if c.values.len() > 1 && c.values[1].len() > 0 {
        ReplyModel::Error(
            "Intend to delete article: "@ + id,
            "Article has comments attached, could not be deleted!"@,
        )
    } else {
        ReplyModel::Render("article_delete"@, c.values, user)
    }
}

/// The first step of this page: its fetches, or the reply when it cannot
/// fetch (no session).
pub fn view_article_delete(identity: &Identity, params: &ViewArticleDeleteParams) -> (r: Step)
    ensures
        r.deep_view() == view_article_delete_plan(identity@, params.id@),
        r matches Step::Fetch(specs) ==> specs_wf(specs@),
{
    if !identity.is_logged_in() {
        return Step::Done(not_logged_in_reply());
    }
    let specs = vec![
        required_get("post", "/v1/post", &params.id),
        optional_get("comments", "/v1/comment/list_by_post", "id", "post_id", false),
    ];
    assert(specs.deep_view() =~= view_article_delete_plan(identity@, params.id@)->Fetch_0);
    Step::Fetch(specs)
}

/// The reply once the fetches of `view_article_delete` are composed.
pub fn view_article_delete_reply(params: &ViewArticleDeleteParams, identity: &Identity, composed: Composed) -> (r: Reply)
    ensures
        r.deep_view() == view_article_delete_finish(params.id@, identity@, composed.deep_view()),
{
    if let Some(f) = &composed.failure {
        return failure_about("Query article: ", &params.id, "Article doesn't exist!", &f.reason);
    }
    if composed.values.len() > 1 && composed.values[1].len() > 0 {
        error_about(
            "Intend to delete article: ",
            &params.id,
            "Article has comments attached, could not be deleted!",
        )
    } else {
        render("article_delete", composed, identity.user_id())
    }
}

/// Needs a session; asks for the deletion.
pub open spec fn post_article_delete_plan(user: Option<Seq<char>>, id: Seq<char>) -> StepModel {
    match user {
        None => StepModel::Done(not_logged_in()),
        Some(_) => StepModel::Fetch(seq![delete_post("delete"@, "/v1/post/delete"@, id)]),
    }
}

/// The first step of this page: its fetches, or the reply when it cannot
/// fetch (no session).
pub fn post_article_delete(identity: &Identity, params: &PostArticleDeleteParams) -> (r: Step)
    ensures
        r.deep_view() == post_article_delete_plan(identity@, params.id@),
        r matches Step::Fetch(specs) ==> specs_wf(specs@),
{
    if !identity.is_logged_in() {
        return Step::Done(not_logged_in_reply());
    }
    let specs = vec![delete_post_spec("delete", "/v1/post/delete", &params.id)];
    assert(specs.deep_view() =~= seq![delete_post("delete"@, "/v1/post/delete"@, params.id@)]);
    Step::Fetch(specs)
}

/// Back to the subspace once the post is deleted; an error signal when the
/// deletion failed.
pub fn post_article_delete_reply(params: &PostArticleDeleteParams, composed: Composed) -> (r: Reply)
    ensures
        r.deep_view() == after_delete(
            "Delete article: "@ + params.id@,
            "/subspace?id="@ + params.subspace_id@,
            composed.deep_view(),
        ),
{
    after_delete_reply("Delete article: ", &params.id, "/subspace?id=", &params.subspace_id, &composed)
}

} // verus!
