use discux::article::{
    post_article_create, post_article_create_reply, post_article_delete, post_article_delete_reply,
    post_article_edit, view_article, view_article_delete, view_article_delete_reply, view_article_reply,
    PostArticleCreateParams, PostArticleDeleteParams, PostArticleEditParams, ViewArticleDeleteParams,
    ViewArticleParams,
};
use discux::comment::{
    post_comment_create, post_comment_create_reply, post_comment_delete, post_comment_delete_reply,
    PostCommentCreateParams, PostCommentDeleteParams,
};
use discux::compose::{compose, Criticality, FetchOutcome, FetchSpec, Method};
use discux::identity::{Identity, LoggedUser};
use discux::index::{view_index, view_index_reply};
use discux::page::{Reply, Step};
use discux::record::Record;
use discux::store::StoreCommand;
use discux::subspace::{
    post_subspace_create, post_subspace_create_reply, PostSubspaceCreateParams, post_subspace_delete, post_subspace_delete_checked, post_subspace_delete_reply, view_subspace,
    view_subspace_create, view_subspace_reply, PostSubspaceDeleteParams, ViewSubspaceCreateParams,
    ViewSubspaceParams,
};
use discux::user::{signout, view_account, Signout};

fn s(x: &str) -> String {
    x.to_string()
}

fn rec(pairs: &[(&str, &str)]) -> Record {
    Record::new(pairs.iter().map(|(k, v)| (s(k), s(v))).collect())
}

fn logged(id: &str) -> Identity {
    Identity::Authenticated(LoggedUser { user_id: s(id) })
}

fn specs_of(step: Step) -> Vec<FetchSpec> {
    match step {
        Step::Fetch(specs) => specs,
        Step::Done(r) => panic!("expected fetches, got {:?}", r),
    }
}

fn error_of(reply: &Reply) -> (String, String) {
    match reply {
        Reply::Error(sig) => (sig.action.clone(), sig.reason.clone()),
        other => panic!("expected an error, got {:?}", other),
    }
}

#[test]
fn missing_article_redirects_to_error_page() {
    let params = ViewArticleParams { id: s("abc") };
    let specs = specs_of(view_article(&params));
    assert_eq!(specs.len(), 4);
    assert_eq!(specs[0].path, "/v1/post");
    assert_eq!(specs[0].params, vec![(s("id"), s("abc"))]);
    assert_eq!(specs[0].criticality, Criticality::Required);
    let outcomes = vec![
        FetchOutcome::Items(vec![]),
        FetchOutcome::Items(vec![]),
        FetchOutcome::Items(vec![]),
        FetchOutcome::Items(vec![]),
    ];
    let reply = view_article_reply(&params, &Identity::Anonymous, compose(specs, outcomes));
    let (action, reason) = error_of(&reply);
    assert_eq!(action, "Query article: abc");
    assert!(!reason.is_empty());
    match reply {
        Reply::Error(sig) => assert_eq!(
            sig.location(),
            "/error/info?action=Query+article%3A+abc&err_info=Article+doesn%27t+exist%21"
        ),
        _ => unreachable!(),
    }
}

#[test]
fn article_page_defaults_optional_slots() {
    let params = ViewArticleParams { id: s("post-1") };
    let specs = specs_of(view_article(&params));
    let outcomes = vec![
        FetchOutcome::Items(vec![rec(&[("id", "post-1"), ("subspace_id", "s1"), ("author_id", "u1")])]),
        FetchOutcome::Failed(s("down")),
        FetchOutcome::Items(vec![]),
        FetchOutcome::Failed(s("down")),
    ];
    match view_article_reply(&params, &logged("me"), compose(specs, outcomes)) {
        Reply::Render(page) => {
            assert_eq!(page.template, "article");
            assert_eq!(page.user_id, Some(s("me")));
            assert!(page.values[1].is_empty());
            assert_eq!(page.values[2].len(), 1);
            assert_eq!(page.values[3].len(), 1);
        }
        other => panic!("unexpected {:?}", other),
    }
}

#[test]
fn subspace_with_posts_is_not_deleted() {
    let params = PostSubspaceDeleteParams { id: s("sp1") };
    let specs = specs_of(post_subspace_delete(&logged("u1"), &params));
    assert_eq!(specs.len(), 2);
    assert!(specs.iter().all(|f| f.method == Method::Get));
    let outcomes = vec![
        FetchOutcome::Items(vec![rec(&[("id", "sp1")])]),
        FetchOutcome::Items(vec![rec(&[("id", "post1")])]),
    ];
    match post_subspace_delete_checked(&params, compose(specs, outcomes)) {
        Step::Done(reply) => {
            let (action, reason) = error_of(&reply);
            assert_eq!(action, "Intend to delete subspace: sp1");
            assert_eq!(reason, "This subspace has article attached, could not be deleted!");
        }
        Step::Fetch(specs) => panic!("a delete was planned: {:?}", specs),
    }
}

#[test]
fn empty_subspace_is_deleted_then_home() {
    let params = PostSubspaceDeleteParams { id: s("sp1") };
    let specs = specs_of(post_subspace_delete(&logged("u1"), &params));
    let outcomes = vec![FetchOutcome::Items(vec![rec(&[("id", "sp1")])]), FetchOutcome::Items(vec![])];
    let delete = specs_of(post_subspace_delete_checked(&params, compose(specs, outcomes)));
    assert_eq!(delete.len(), 1);
    assert_eq!(delete[0].method, Method::Post);
    assert_eq!(delete[0].path, "/v1/subspace/delete");
    assert_eq!(delete[0].params, vec![(s("id"), s("sp1"))]);
    assert_eq!(delete[0].criticality, Criticality::Required);
    let done = compose(delete, vec![FetchOutcome::Items(vec![])]);
    assert!(matches!(post_subspace_delete_reply(&params, done), Reply::Redirect(l) if l == "/"));
}

#[test]
fn missing_subspace_is_reported() {
    let params = ViewSubspaceParams { id: s("nope") };
    let specs = specs_of(view_subspace(&params));
    let out = compose(specs, vec![FetchOutcome::Items(vec![]), FetchOutcome::Items(vec![])]);
    let (action, reason) = error_of(&view_subspace_reply(&params, &Identity::Anonymous, out));
    assert_eq!(action, "Query subspace: nope");
    assert_eq!(reason, "No this subspace.");
}

#[test]
fn anonymous_user_cannot_write() {
    let anon = Identity::Anonymous;
    let expect = (s("Not logged in"), s("Need login firstly to get proper permission."));
    let p = PostArticleCreateParams { subspace_id: s("s"), title: s("t"), content: s("c"), extlink: s("") };
    match post_article_create(&anon, &p) {
        Step::Done(r) => assert_eq!(error_of(&r), expect),
        _ => panic!("anonymous create must not fetch"),
    }
    match post_subspace_delete(&anon, &PostSubspaceDeleteParams { id: s("x") }) {
        Step::Done(r) => assert_eq!(error_of(&r), expect),
        _ => panic!("anonymous delete must not fetch"),
    }
    assert_eq!(error_of(&view_subspace_create(&anon, &ViewSubspaceCreateParams {})), expect);
    assert!(matches!(view_subspace_create(&logged("u"), &ViewSubspaceCreateParams {}), Reply::Render(_)));
}

#[test]
fn article_create_binds_author_and_redirects() {
    let p = PostArticleCreateParams { subspace_id: s("s1"), title: s("T"), content: s("C"), extlink: s("L") };
    let specs = specs_of(post_article_create(&logged("u1"), &p));
    assert_eq!(specs[0].path, "/v1/user");
    assert_eq!(specs[1].path, "/v1/post/create");
    assert_eq!(specs[1].bindings.len(), 2);
    assert!(specs[1].params.contains(&(s("appid"), s("discux"))));
    let out = compose(
        specs,
        vec![
            FetchOutcome::Items(vec![rec(&[("id", "u1"), ("nickname", "nick")])]),
            FetchOutcome::Items(vec![rec(&[("id", "new-post")])]),
        ],
    );
    assert!(matches!(post_article_create_reply(&p, &s("u1"), out), Reply::Redirect(l) if l == "/article?id=new-post"));
}

#[test]
fn article_create_reports_missing_author() {
    let p = PostArticleCreateParams { subspace_id: s("s1"), title: s("T"), content: s("C"), extlink: s("L") };
    let specs = specs_of(post_article_create(&logged("u1"), &p));
    let out = compose(specs, vec![FetchOutcome::Items(vec![]), FetchOutcome::Items(vec![])]);
    assert_eq!(
        error_of(&post_article_create_reply(&p, &s("u1"), out)),
        (s("Query user: u1"), s("Unknown error."))
    );
}

#[test]
fn article_with_comments_is_not_deletable() {
    let p = ViewArticleDeleteParams { id: s("post-1") };
    let specs = specs_of(view_article_delete(&logged("u"), &p));
    let out = compose(
        specs,
        vec![FetchOutcome::Items(vec![rec(&[("id", "post-1")])]), FetchOutcome::Items(vec![rec(&[("id", "c1")])])],
    );
    assert_eq!(
        error_of(&view_article_delete_reply(&p, &logged("u"), out)),
        (s("Intend to delete article: post-1"), s("Article has comments attached, could not be deleted!"))
    );
}

#[test]
fn article_edit_and_delete_requests() {
    let e = PostArticleEditParams { id: s("post-1"), title: s("T"), content: s("C"), extlink: s("") };
    let specs = specs_of(post_article_edit(&logged("u7"), &e));
    assert_eq!(specs[0].path, "/v1/post/update");
    assert!(specs[0].params.contains(&(s("author_id"), s("u7"))));
    let d = PostArticleDeleteParams { id: s("post-1"), subspace_id: s("s1") };
    let specs = specs_of(post_article_delete(&logged("u7"), &d));
    assert_eq!(specs[0].path, "/v1/post/delete");
    assert_eq!(specs[0].criticality, Criticality::Required);
    let done = compose(specs, vec![FetchOutcome::Items(vec![rec(&[("id", "post-1")])])]);
    assert!(matches!(post_article_delete_reply(&d, done), Reply::Redirect(l) if l == "/subspace?id=s1"));
}

#[test]
fn comment_create_flow() {
    let p = PostCommentCreateParams { post_id: s("post-1"), content: s("hello") };
    let specs = specs_of(post_comment_create(&logged("u1"), &p));
    assert_eq!(specs.len(), 3);
    let out = compose(
        specs,
        vec![
            FetchOutcome::Items(vec![rec(&[("id", "post-1")])]),
            FetchOutcome::Items(vec![rec(&[("id", "u1"), ("nickname", "n")])]),
            FetchOutcome::Failed(s("boom")),
        ],
    );
    assert_eq!(
        error_of(&post_comment_create_reply(&p, &s("u1"), out)),
        (s("Create comment for article: post-1"), s("Content service failed: boom"))
    );
    let specs = specs_of(post_comment_create(&logged("u1"), &p));
    let out = compose(
        specs,
        vec![
            FetchOutcome::Items(vec![rec(&[("id", "post-1")])]),
            FetchOutcome::Items(vec![rec(&[("id", "u1"), ("nickname", "n")])]),
            FetchOutcome::Items(vec![]),
        ],
    );
    assert_eq!(
        error_of(&post_comment_create_reply(&p, &s("u1"), out)),
        (s("Create comment for article: post-1"), s("Unknown"))
    );
}

#[test]
fn index_lists_subspaces_or_nothing() {
    let specs = specs_of(view_index());
    assert_eq!(specs[0].path, "/v1/subspace/list");
    let out = compose(specs, vec![FetchOutcome::Failed(s("down"))]);
    match view_index_reply(&Identity::Anonymous, out) {
        Reply::Render(page) => {
            assert_eq!(page.template, "index");
            assert!(page.values[0].is_empty());
        }
        other => panic!("unexpected {:?}", other),
    }
}

#[test]
fn account_and_signout() {
    assert!(matches!(view_account(&Identity::Anonymous), Step::Done(Reply::Redirect(l)) if l == "/user/login"));
    assert_eq!(specs_of(view_account(&logged("u1")))[0].params, vec![(s("id"), s("u1"))]);
    match signout(&Identity::Anonymous, &Some(s("t"))) {
        Signout::Reply(r) => assert_eq!(error_of(&r).0, "Not logged in"),
        other => panic!("unexpected {:?}", other),
    }
    assert!(matches!(signout(&logged("u"), &None), Signout::Reply(Reply::Redirect(l)) if l == "/user/login"));
    assert!(matches!(signout(&logged("u"), &Some(s("t"))),
        Signout::Revoke(StoreCommand::Delete { key }) if key == "discux_sid:t"));
}

#[test]
fn failed_call_is_reported_as_such() {
    let params = ViewArticleParams { id: s("abc") };
    let specs = specs_of(view_article(&params));
    let outcomes = vec![
        FetchOutcome::Failed(s("connection refused")),
        FetchOutcome::Items(vec![]),
        FetchOutcome::Items(vec![]),
        FetchOutcome::Items(vec![]),
    ];
    let reply = view_article_reply(&params, &Identity::Anonymous, compose(specs, outcomes));
    assert_eq!(
        error_of(&reply),
        (s("Query article: abc"), s("Content service failed: connection refused"))
    );
}

#[test]
fn subspace_create_failure_has_plain_action() {
    let p = PostSubspaceCreateParams { title: s("T"), description: s("D") };
    let specs = specs_of(post_subspace_create(&logged("u1"), &p));
    assert!(specs[0].params.contains(&(s("owner_id"), s("u1"))));
    let out = compose(specs, vec![FetchOutcome::Items(vec![])]);
    assert_eq!(error_of(&post_subspace_create_reply(out)), (s("Create subspace"), s("Unknown")));
}

#[test]
fn failed_deletes_are_reported() {
    let d = PostArticleDeleteParams { id: s("post-1"), subspace_id: s("s1") };
    let specs = specs_of(post_article_delete(&logged("u7"), &d));
    let out = compose(specs, vec![FetchOutcome::Failed(s("timed out"))]);
    assert_eq!(
        error_of(&post_article_delete_reply(&d, out)),
        (s("Delete article: post-1"), s("Content service failed: timed out"))
    );

    let c = PostCommentDeleteParams { id: s("c1"), post_id: s("post-1") };
    let specs = specs_of(post_comment_delete(&logged("u7"), &c));
    assert_eq!(specs[0].path, "/v1/comment/delete");
    let out = compose(specs, vec![FetchOutcome::Failed(s("refused"))]);
    assert_eq!(
        error_of(&post_comment_delete_reply(&c, out)),
        (s("Delete comment: c1"), s("Content service failed: refused"))
    );
    let specs = specs_of(post_comment_delete(&logged("u7"), &c));
    let out = compose(specs, vec![FetchOutcome::Items(vec![])]);
    assert!(matches!(post_comment_delete_reply(&c, out), Reply::Redirect(l) if l == "/article?id=post-1"));

    let p = PostSubspaceDeleteParams { id: s("sp1") };
    let specs = specs_of(post_subspace_delete(&logged("u1"), &p));
    let checked = compose(specs, vec![FetchOutcome::Items(vec![rec(&[("id", "sp1")])]), FetchOutcome::Items(vec![])]);
    let delete = specs_of(post_subspace_delete_checked(&p, checked));
    let out = compose(delete, vec![FetchOutcome::Failed(s("down"))]);
    assert_eq!(
        error_of(&post_subspace_delete_reply(&p, out)),
        (s("Delete subspace: sp1"), s("Content service failed: down"))
    );
}
