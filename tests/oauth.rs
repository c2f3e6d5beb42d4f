use discux::compose::{FetchOutcome, Method};
use discux::oauth::{
    access_token, start, step, ExternalAccount, LoginAction, LoginEvent, LoginFailure, LoginState,
};
use discux::record::Record;

fn s(x: &str) -> String {
    x.to_string()
}

fn user(id: &str) -> Record {
    Record::new(vec![(s("id"), s(id)), (s("account"), s("octo"))])
}

fn profile() -> LoginEvent {
    LoginEvent::ProfileReply(Some(ExternalAccount { external_login: s("octo"), display_name: s("Octo Cat") }))
}

/// Runs the flow over the events and returns the final state and actions.
fn run(events: Vec<LoginEvent>) -> (LoginState, Vec<LoginAction>) {
    let (mut state, first) = start(s("the-code"));
    let mut actions = vec![first];
    for e in events {
        let (next, a) = step(state, e);
        state = next;
        actions.push(a);
    }
    (state, actions)
}

#[test]
fn access_token_is_read_from_form_reply() {
    assert_eq!(access_token(&s("access_token=gho_abc&scope=&token_type=bearer")), Some(s("gho_abc")));
    assert_eq!(access_token(&s("error=bad_verification_code&error_description=bad")), None);
    assert_eq!(access_token(&s("")), None);
}

#[test]
fn start_exchanges_the_code() {
    let (state, action) = start(s("c1"));
    assert!(matches!(state, LoginState::CodeReceived));
    assert!(matches!(action, LoginAction::ExchangeCode { code } if code == "c1"));
}

#[test]
fn failed_token_exchange_ends_without_session() {
    for reply in [None, Some(s("error=bad_verification_code"))] {
        let (state, actions) = run(vec![
            LoginEvent::TokenReply(reply),
            profile(),
            LoginEvent::LookupReply(FetchOutcome::Items(vec![user("u1")])),
            LoginEvent::SessionIssued(s("tok")),
        ]);
        assert!(matches!(state, LoginState::Failed(LoginFailure::TokenExchange)));
        assert!(matches!(&actions[1], LoginAction::Fail(sig)
            if sig.action == "Get access token from github"
            && sig.reason == "Failed to request access token from github"));
        assert!(!actions.iter().any(|a| matches!(a, LoginAction::IssueSession { .. })));
        assert!(actions[2..].iter().all(|a| matches!(a, LoginAction::Nothing)));
    }
}

#[test]
fn matched_user_gets_exactly_one_session() {
    let (state, actions) = run(vec![
        LoginEvent::TokenReply(Some(s("access_token=t0k&token_type=bearer"))),
        profile(),
        LoginEvent::LookupReply(FetchOutcome::Items(vec![user("u1"), user("u2")])),
        LoginEvent::SessionIssued(s("sess")),
        LoginEvent::SessionIssued(s("again")),
    ]);
    assert!(matches!(state, LoginState::SessionEstablished { ref subject_id } if subject_id == "u1"));
    assert!(matches!(&actions[1], LoginAction::FetchProfile { access_token } if access_token == "t0k"));
    match &actions[2] {
        LoginAction::Fetch(q) => {
            assert_eq!(q.method, Method::Get);
            assert_eq!(q.path, "/v1/user/get_by_account");
            assert_eq!(q.params, vec![(s("account"), s("octo"))]);
        }
        other => panic!("unexpected {:?}", other),
    }
    let sessions: Vec<&LoginAction> =
        actions.iter().filter(|a| matches!(a, LoginAction::IssueSession { .. })).collect();
    assert_eq!(sessions.len(), 1);
    assert!(matches!(sessions[0], LoginAction::IssueSession { subject_id } if subject_id == "u1"));
    assert!(!actions.iter().any(|a| matches!(a, LoginAction::Fetch(q) if q.method == Method::Post)));
    assert!(matches!(&actions[4], LoginAction::Finish { token } if token == "sess"));
    assert!(matches!(actions[5], LoginAction::Nothing));
}

#[test]
fn unknown_user_is_created() {
    let (state, actions) = run(vec![
        LoginEvent::TokenReply(Some(s("access_token=t"))),
        profile(),
        LoginEvent::LookupReply(FetchOutcome::Items(vec![])),
        LoginEvent::CreateReply(FetchOutcome::Items(vec![user("new1")])),
        LoginEvent::SessionIssued(s("sess")),
    ]);
    assert!(matches!(state, LoginState::SessionEstablished { ref subject_id } if subject_id == "new1"));
    match &actions[3] {
        LoginAction::Fetch(q) => {
            assert_eq!(q.method, Method::Post);
            assert_eq!(q.path, "/v1/user/create");
            assert_eq!(q.params[0], (s("account"), s("octo")));
            assert_eq!(q.params[1], (s("oauth_source"), s("github")));
            assert_eq!(q.params[2], (s("nickname"), s("Octo Cat")));
            assert_eq!(q.params.len(), 6);
        }
        other => panic!("unexpected {:?}", other),
    }
    assert!(matches!(&actions[4], LoginAction::IssueSession { subject_id } if subject_id == "new1"));
}

#[test]
fn failed_creation_fails_the_login() {
    let (state, actions) = run(vec![
        LoginEvent::TokenReply(Some(s("access_token=t"))),
        profile(),
        LoginEvent::LookupReply(FetchOutcome::Failed(s("down"))),
        LoginEvent::CreateReply(FetchOutcome::Items(vec![])),
    ]);
    assert!(matches!(state, LoginState::Failed(LoginFailure::UserCreate)));
    assert!(matches!(&actions[4], LoginAction::Fail(sig)
        if sig.action == "Register user: octo" && sig.reason == "Unknown"));
}

#[test]
fn failed_profile_fetch_fails_the_login() {
    let (state, actions) = run(vec![
        LoginEvent::TokenReply(Some(s("access_token=t"))),
        LoginEvent::ProfileReply(None),
    ]);
    assert!(matches!(state, LoginState::Failed(LoginFailure::ProfileFetch)));
    assert!(matches!(&actions[2], LoginAction::Fail(sig)
        if sig.action == "Get user info from github" && sig.reason == "Failed to get response from github"));
}

#[test]
fn out_of_order_event_is_ignored() {
    let (state, action) = step(LoginState::CodeReceived, LoginEvent::SessionIssued(s("x")));
    assert!(matches!(state, LoginState::CodeReceived));
    assert!(matches!(action, LoginAction::Nothing));
}
