//! Account pages: the user's own account, and signing out.

use vstd::prelude::*;
use vstd::string::*;
use crate::compose::{Composed, ComposedModel, specs_wf};
use crate::identity::Identity;
use crate::page::{Reply, ReplyModel, Step, StepModel, failure_about, failure_reply, not_logged_in, not_logged_in_reply, render, required_by_id, required_get};
use crate::session::{destroy_command, session_key_of};
use crate::store::StoreCommand;

verus! {

/// The login page for anonymous users; else the user's own record.
pub open spec fn view_account_plan(user: Option<Seq<char>>) -> StepModel {
    match user {
        None => StepModel::Done(ReplyModel::Redirect("/user/login"@)),
        Some(uid) => StepModel::Fetch(seq![required_by_id("user"@, "/v1/user"@, uid)]),
    }
}

/// The reply once the fetches of `view_account` are composed.
pub open spec fn view_account_finish(uid: Seq<char>, c: ComposedModel) -> ReplyModel {
    if let Some((_, reason)) = c.failure {
        failure_reply("Query user: "@ + uid, "Unknown."@, reason)
    } else {
        ReplyModel::Render("account"@, c.values, Some(uid))
    }
}

/// The first step of this page: its fetches, or the reply when it cannot
/// fetch (no session).
pub fn view_account(identity: &Identity) -> (r: Step)
    ensures
        r.deep_view() == view_account_plan(identity@),
        r matches Step::Fetch(specs) ==> specs_wf(specs@),
{
    match identity.user_id() {
        None => Step::Done(Reply::Redirect(String::from_str("/user/login"))),
        Some(uid) => {
            let specs = vec![required_get("user", "/v1/user", &uid)];
            assert(specs.deep_view() =~= seq![required_by_id("user"@, "/v1/user"@, uid@)]);
            Step::Fetch(specs)
        },
    }
}

/// The reply once the fetches of `view_account` are composed.
pub fn view_account_reply(uid: &String, composed: Composed) -> (r: Reply)
    ensures
        r.deep_view() == view_account_finish(uid@, composed.deep_view()),
{
    if let Some(f) = &composed.failure {
        return failure_about("Query user: ", uid, "Unknown.", &f.reason);
    }
    render("account", composed, Some(uid.clone()))
}

/// What signing out does.
#[derive(Debug)]
pub enum Signout {
    /// Answer at once.
    Reply(Reply),
    /// Run the command that revokes the session, clear the session cookie,
    /// and go home.
    Revoke(StoreCommand),
}

/// Signing out needs a session; it revokes the session of the cookie, and
/// sends a browser without the cookie to the login page.
pub fn signout(identity: &Identity, cookie_value: &Option<String>) -> (r: Signout)
    ensures
        identity@ is None ==> (r matches Signout::Reply(rep) && rep.deep_view() == not_logged_in()),
        identity@ is Some ==> match cookie_value {
            None => r matches Signout::Reply(rep) && rep.deep_view() == ReplyModel::Redirect("/user/login"@),
            Some(t) => r matches Signout::Revoke(StoreCommand::Delete { key }) && key@ == session_key_of(t@),
        },
{
    if !identity.is_logged_in() {
        return Signout::Reply(not_logged_in_reply());
    }
    match cookie_value {
        None => Signout::Reply(Reply::Redirect(String::from_str("/user/login"))),
        Some(t) => Signout::Revoke(destroy_command(t)),
    }
}

} // verus!
