//! The OAuth login flow as an explicit state machine. The app performs each
//! action (a call to the provider, to the content API, or to the session
//! store) and hands back what came of it as the next event; no call is
//! retried.

use vstd::prelude::*;
use vstd::string::*;
use crate::compose::{FetchOutcome, FetchRequest, Method, OutcomeModel};
use crate::record::{FieldsModel, field_of};
use crate::signal::ErrorSignal;
use crate::store::{lookup, find_latest};
use crate::outside::{decode_form, form_decoded};

verus! {

/// The query of the provider's redirect back to the site.
#[derive(Debug)]
pub struct GithubOauthCallbackParams {
    pub code: String,
}

/// Why a login failed.
#[derive(Clone, Copy, Debug, PartialEq, Eq, Structural)]
pub enum LoginFailure {
    TokenExchange,
    ProfileFetch,
    UserCreate,
}

/// Where a login stands.
#[derive(Debug)]
pub enum LoginState {
    /// The provider's code is in hand; the token exchange is under way.
    CodeReceived,
    /// The access token is in hand; the profile fetch is under way.
    TokenExchanged,
    /// The profile is in hand; the user lookup is under way.
    ProfileFetched { login: String, name: String },
    /// No user has this login; the user creation is under way.
    Registering { login: String },
    /// An existing user matched; the session is being issued.
    UserMatched { subject_id: String },
    /// A new user was created; the session is being issued.
    UserCreated { subject_id: String },
    /// Logged in (terminal).
    SessionEstablished { subject_id: String },
    /// The login failed (terminal).
    Failed(LoginFailure),
}

pub enum StateModel {
    CodeReceived,
    TokenExchanged,
    ProfileFetched(Seq<char>, Seq<char>),
    Registering(Seq<char>),
    UserMatched(Seq<char>),
    UserCreated(Seq<char>),
    SessionEstablished(Seq<char>),
    Failed(LoginFailure),
}

impl View for LoginState {
    type V = StateModel;

    open spec fn view(&self) -> StateModel {
        match self {
            LoginState::CodeReceived => StateModel::CodeReceived,
            LoginState::TokenExchanged => StateModel::TokenExchanged,
            LoginState::ProfileFetched { login, name } => StateModel::ProfileFetched(login@, name@),
            LoginState::Registering { login } => StateModel::Registering(login@),
            LoginState::UserMatched { subject_id } => StateModel::UserMatched(subject_id@),
            LoginState::UserCreated { subject_id } => StateModel::UserCreated(subject_id@),
            LoginState::SessionEstablished { subject_id } => StateModel::SessionEstablished(subject_id@),
            LoginState::Failed(f) => StateModel::Failed(*f),
        }
    }
}

/// The account the provider vouches for.
#[derive(Debug)]
pub struct ExternalAccount {
    pub external_login: String,
    pub display_name: String,
}

/// What came of the last action.
#[derive(Debug)]
pub enum LoginEvent {
    /// The token endpoint's reply body; `None` where the call failed.
    TokenReply(Option<String>),
    /// The provider's profile; `None` where fetching or reading it failed.
    ProfileReply(Option<ExternalAccount>),
    /// The content API's users with the external login.
    LookupReply(FetchOutcome),
    /// The content API's answer to creating the user.
    CreateReply(FetchOutcome),
    /// The token of the session the store now holds.
    SessionIssued(String),
}

pub enum EventModel {
    TokenReply(Option<Seq<char>>),
    ProfileReply(Option<(Seq<char>, Seq<char>)>),
    LookupReply(OutcomeModel),
    CreateReply(OutcomeModel),
    SessionIssued(Seq<char>),
}

impl DeepView for LoginEvent {
    type V = EventModel;

    open spec fn deep_view(&self) -> EventModel {
        match self {
            LoginEvent::TokenReply(b) => EventModel::TokenReply(match b {
                Some(s) => Some(s@),
                None => None,
            }),
            LoginEvent::ProfileReply(p) => EventModel::ProfileReply(match p {
                Some(a) => Some((a.external_login@, a.display_name@)),
                None => None,
            }),
            LoginEvent::LookupReply(o) => EventModel::LookupReply(o.deep_view()),
            LoginEvent::CreateReply(o) => EventModel::CreateReply(o.deep_view()),
            LoginEvent::SessionIssued(t) => EventModel::SessionIssued(t@),
        }
    }
}

/// What the app is to do next.
#[derive(Debug)]
pub enum LoginAction {
    /// Exchange the code, with the client credentials, for an access token.
    ExchangeCode { code: String },
    /// Fetch the profile with the access token.
    FetchProfile { access_token: String },
    /// Send a call to the content API.
    Fetch(FetchRequest),
    /// Issue a session for the subject.
    IssueSession { subject_id: String },
    /// Set the session cookie for the token and redirect home.
    Finish { token: String },
    /// Report the failure.
    Fail(ErrorSignal),
    /// Nothing: the event does not fit the state.
    Nothing,
}

pub enum ActionModel {
    ExchangeCode(Seq<char>),
    FetchProfile(Seq<char>),
    Fetch(Method, Seq<char>, FieldsModel),
    IssueSession(Seq<char>),
    Finish(Seq<char>),
    Fail(Seq<char>, Seq<char>),
    Nothing,
}

impl DeepView for LoginAction {
    type V = ActionModel;

    open spec fn deep_view(&self) -> ActionModel {
        match self {
            LoginAction::ExchangeCode { code } => ActionModel::ExchangeCode(code@),
            LoginAction::FetchProfile { access_token } => ActionModel::FetchProfile(access_token@),
            LoginAction::Fetch(q) => ActionModel::Fetch(q.method, q.path@, q.params.deep_view()),
            LoginAction::IssueSession { subject_id } => ActionModel::IssueSession(subject_id@),
            LoginAction::Finish { token } => ActionModel::Finish(token@),
            LoginAction::Fail(s) => ActionModel::Fail(s.action@, s.reason@),
            LoginAction::Nothing => ActionModel::Nothing,
        }
    }
}

/// The access token in the token endpoint's form-encoded reply.
pub open spec fn access_token_of(body: Seq<char>) -> Option<Seq<char>> {
    match form_decoded(body) {
        Some(pairs) => lookup(pairs, "access_token"@),
        None => None,
    }
}

/// The lookup of the users with an external login.
pub open spec fn lookup_action(login: Seq<char>) -> ActionModel {
    ActionModel::Fetch(Method::Get, "/v1/user/get_by_account"@, seq![("account"@, login)])
}

/// The creation of a user for an external account.
pub open spec fn create_action(login: Seq<char>, name: Seq<char>) -> ActionModel {
    ActionModel::Fetch(
        Method::Post,
        "/v1/user/create"@,
        seq![
            ("account"@, login),
            ("oauth_source"@, "github"@),
            ("nickname"@, name),
            ("avatar"@, Seq::empty()),
            ("pub_settings"@, Seq::empty()),
            ("ext"@, Seq::empty()),
        ],
    )
}

/// The error signal of a failed login.
pub open spec fn failure_action(f: LoginFailure, login: Seq<char>) -> ActionModel {
    match f {
        LoginFailure::TokenExchange => ActionModel::Fail(
            "Get access token from github"@,
            "Failed to request access token from github"@,
        ),
        LoginFailure::ProfileFetch => ActionModel::Fail(
            "Get user info from github"@,
            "Failed to get response from github"@,
        ),
        LoginFailure::UserCreate => ActionModel::Fail("Register user: "@ + login, "Unknown"@),
    }
}

/// One transition of the flow.
pub open spec fn step_model(s: StateModel, e: EventModel) -> (StateModel, ActionModel) {
    match (s, e) {
        (StateModel::CodeReceived, EventModel::TokenReply(body)) => {
            match body {
                Some(b) => match access_token_of(b) {
                    Some(t) => (StateModel::TokenExchanged, ActionModel::FetchProfile(t)),
                    None => (StateModel::Failed(LoginFailure::TokenExchange),
                        failure_action(LoginFailure::TokenExchange, Seq::empty())),
                },
                None => (StateModel::Failed(LoginFailure::TokenExchange),
                    failure_action(LoginFailure::TokenExchange, Seq::empty())),
            }
        },
        (StateModel::TokenExchanged, EventModel::ProfileReply(p)) => {
            match p {
                Some((login, name)) => (StateModel::ProfileFetched(login, name), lookup_action(login)),
                None => (StateModel::Failed(LoginFailure::ProfileFetch),
                    failure_action(LoginFailure::ProfileFetch, Seq::empty())),
            }
        },
        (StateModel::ProfileFetched(login, name), EventModel::LookupReply(o)) => {
            match o {
                OutcomeModel::Items(users) => if users.len() > 0 {
                    let id = field_of(users[0], "id"@);
                    (StateModel::UserMatched(id), ActionModel::IssueSession(id))
                } else {
                    (StateModel::Registering(login), create_action(login, name))
                },
                OutcomeModel::Failed(_) => (StateModel::Registering(login), create_action(login, name)),
            }
        },
        (StateModel::Registering(login), EventModel::CreateReply(o)) => {
            match o {
                OutcomeModel::Items(users) => if users.len() > 0 {
                    let id = field_of(users[0], "id"@);
                    (StateModel::UserCreated(id), ActionModel::IssueSession(id))
                } else {
                    (StateModel::Failed(LoginFailure::UserCreate), failure_action(LoginFailure::UserCreate, login))
                },
                OutcomeModel::Failed(_) => (StateModel::Failed(LoginFailure::UserCreate),
                    failure_action(LoginFailure::UserCreate, login)),
            }
        },
        (StateModel::UserMatched(id), EventModel::SessionIssued(t)) => (StateModel::SessionEstablished(id), ActionModel::Finish(t)),
        (StateModel::UserCreated(id), EventModel::SessionIssued(t)) => (StateModel::SessionEstablished(id), ActionModel::Finish(t)),
        (s, _) => (s, ActionModel::Nothing),
    }
}

/// The flow's state after a sequence of events, and the actions it asked
/// for, in order.
pub open spec fn run_model(s: StateModel, events: Seq<EventModel>) -> (StateModel, Seq<ActionModel>)
    decreases events.len(),
{
    if events.len() == 0 {
        (s, Seq::empty())
    } else {
        let (next, a) = step_model(s, events[0]);
        let (last, rest) = run_model(next, events.drop_first());
        (last, seq![a] + rest)
    }
}

pub open spec fn is_terminal(s: StateModel) -> bool {
    s is SessionEstablished || s is Failed
}

/// A finished login ignores every later event and asks for nothing more.
pub proof fn lemma_terminal_is_final(s: StateModel, events: Seq<EventModel>)
    requires
        is_terminal(s),
    ensures
        run_model(s, events).0 == s,
        forall|i: int| 0 <= i < events.len() ==> #[trigger] run_model(s, events).1[i] is Nothing,
        run_model(s, events).1.len() == events.len(),
    decreases events.len(),
{
    if events.len() > 0 {
        lemma_terminal_is_final(s, events.drop_first());
        let rest = run_model(s, events.drop_first()).1;
        assert forall|i: int| 0 <= i < events.len() implies #[trigger] run_model(s, events).1[i] is Nothing by {
            if i > 0 {
                assert(run_model(s, events).1[i] == rest[i - 1]);
            }
        }
    }
}

/// A code whose token exchange fails ends the login in the token-exchange
/// failure, whatever comes after, and no session is ever issued.
pub proof fn lemma_failed_exchange_issues_no_session(reply: Option<Seq<char>>, later: Seq<EventModel>)
    requires
        match reply {
            Some(b) => access_token_of(b) is None,
            None => true,
        },
    ensures
        run_model(StateModel::CodeReceived, seq![EventModel::TokenReply(reply)] + later).0
            == StateModel::Failed(LoginFailure::TokenExchange),
        forall|i: int| 0 <= i < later.len() + 1 ==>
            !(#[trigger] run_model(StateModel::CodeReceived, seq![EventModel::TokenReply(reply)] + later).1[i] is IssueSession),
{
    let events = seq![EventModel::TokenReply(reply)] + later;
    assert(events.drop_first() =~= later);
    let failed = StateModel::Failed(LoginFailure::TokenExchange);
    lemma_terminal_is_final(failed, later);
    let acts = run_model(StateModel::CodeReceived, events).1;
    assert forall|i: int| 0 <= i < later.len() + 1 implies !(#[trigger] acts[i] is IssueSession) by {
        if i > 0 {
            assert(acts[i] == run_model(failed, later).1[i - 1]);
        }
    }
}

/// A login whose external account matches an existing user never sends a
/// POST to the content API (so creates no user) and issues exactly one
/// session, for that user's id.
pub proof fn lemma_matched_user_gets_one_session(
    body: Seq<char>,
    login: Seq<char>,
    name: Seq<char>,
    users: Seq<FieldsModel>,
    token: Seq<char>,
    later: Seq<EventModel>,
)
    requires
        access_token_of(body) is Some,
        users.len() > 0,
    ensures
        ({
            let events = seq![
                EventModel::TokenReply(Some(body)),
                EventModel::ProfileReply(Some((login, name))),
                EventModel::LookupReply(OutcomeModel::Items(users)),
                EventModel::SessionIssued(token),
            ] + later;
            let (last, acts) = run_model(StateModel::CodeReceived, events);
            &&& last == StateModel::SessionEstablished(field_of(users[0], "id"@))
            &&& acts[2] == ActionModel::IssueSession(field_of(users[0], "id"@))
            &&& forall|i: int| 0 <= i < acts.len() && i != 2 ==> !(#[trigger] acts[i] is IssueSession)
            &&& forall|i: int| 0 <= i < acts.len() ==> !(#[trigger] acts[i] matches ActionModel::Fetch(Method::Post, _, _))
        }),
{
    let events = seq![
        EventModel::TokenReply(Some(body)),
        EventModel::ProfileReply(Some((login, name))),
        EventModel::LookupReply(OutcomeModel::Items(users)),
        EventModel::SessionIssued(token),
    ] + later;
    let id = field_of(users[0], "id"@);
    let e1 = events.drop_first();
    let e2 = e1.drop_first();
    let e3 = e2.drop_first();
    let e4 = e3.drop_first();
    assert(e4 =~= later);
    let done = StateModel::SessionEstablished(id);
    lemma_terminal_is_final(done, later);
    let t = access_token_of(body)->0;
    let r4 = run_model(done, e4);
    let r3 = run_model(StateModel::UserMatched(id), e3);
    let r2 = run_model(StateModel::ProfileFetched(login, name), e2);
    let r1 = run_model(StateModel::TokenExchanged, e1);
    let r0 = run_model(StateModel::CodeReceived, events);
    assert(r3.1 == seq![ActionModel::Finish(token)] + r4.1);
    assert(r2.1 == seq![ActionModel::IssueSession(id)] + r3.1);
    assert(r1.1 == seq![lookup_action(login)] + r2.1);
    assert(r0.1 == seq![ActionModel::FetchProfile(t)] + r1.1);
    let acts = r0.1;
    assert forall|i: int| 0 <= i < acts.len() && i != 2 implies !(#[trigger] acts[i] is IssueSession) by {
        if i >= 4 {
            assert(acts[i] == r4.1[i - 4]);
        }
    }
    assert forall|i: int| 0 <= i < acts.len() implies !(#[trigger] acts[i] matches ActionModel::Fetch(Method::Post, _, _)) by {
        if i >= 4 {
            assert(acts[i] == r4.1[i - 4]);
        }
    }
}

/// The start of a login: the provider's code is exchanged.
pub fn start(code: String) -> (r: (LoginState, LoginAction))
    ensures
        r.0@ == StateModel::CodeReceived,
        r.1.deep_view() == ActionModel::ExchangeCode(code@),
{
    (LoginState::CodeReceived, LoginAction::ExchangeCode { code })
}

/// The access token in the token endpoint's reply body.
pub fn access_token(body: &String) -> (r: Option<String>)
    ensures
        match r {
            Some(t) => access_token_of(body@) == Some(t@),
            None => access_token_of(body@) is None,
        },
{
    match decode_form(body) {
        Some(pairs) => find_latest(&pairs, &String::from_str("access_token")),
        None => None,
    }
}

fn failure(f: LoginFailure, login: &String) -> (r: LoginAction)
    ensures
        r.deep_view() == failure_action(f, login@),
{
    match f {
        LoginFailure::TokenExchange => LoginAction::Fail(ErrorSignal::new(
            String::from_str("Get access token from github"),
            String::from_str("Failed to request access token from github"),
        )),
        LoginFailure::ProfileFetch => LoginAction::Fail(ErrorSignal::new(
            String::from_str("Get user info from github"),
            String::from_str("Failed to get response from github"),
        )),
        LoginFailure::UserCreate => {
            let mut action = String::from_str("Register user: ");
            action.append(login.as_str());
            LoginAction::Fail(ErrorSignal::new(action, String::from_str("Unknown")))
        },
    }
}

fn lookup_request(login: &String) -> (r: LoginAction)
    ensures
        r.deep_view() == lookup_action(login@),
{
    let params = vec![(String::from_str("account"), login.clone())];
    let r = LoginAction::Fetch(FetchRequest {
        method: Method::Get,
        path: String::from_str("/v1/user/get_by_account"),
        params,
    });
    assert(params.deep_view() =~= seq![("account"@, login@)]);
    r
}

fn create_request(login: &String, name: &String) -> (r: LoginAction)
    ensures
        r.deep_view() == create_action(login@, name@),
{
    let params = vec![
        (String::from_str("account"), login.clone()),
        (String::from_str("oauth_source"), String::from_str("github")),
        (String::from_str("nickname"), name.clone()),
        (String::from_str("avatar"), String::new()),
        (String::from_str("pub_settings"), String::new()),
        (String::from_str("ext"), String::new()),
    ];
    assert(params.deep_view() =~= seq![
        ("account"@, login@),
        ("oauth_source"@, "github"@),
        ("nickname"@, name@),
        ("avatar"@, Seq::<char>::empty()),
        ("pub_settings"@, Seq::<char>::empty()),
        ("ext"@, Seq::<char>::empty()),
    ]);
    LoginAction::Fetch(FetchRequest {
        method: Method::Post,
        path: String::from_str("/v1/user/create"),
        params,
    })
}

/// One transition of the flow.
pub fn step(state: LoginState, event: LoginEvent) -> (r: (LoginState, LoginAction))
    ensures
        (r.0@, r.1.deep_view()) == step_model(state@, event.deep_view()),
{
    let ghost s = state@;
    let ghost e = event.deep_view();
    match (state, event) {
        (LoginState::CodeReceived, LoginEvent::TokenReply(body)) => {
            let token = match body {
                Some(b) => access_token(&b),
                None => None,
            };
            match token {
                Some(t) => (LoginState::TokenExchanged, LoginAction::FetchProfile { access_token: t }),
                None => (
                    LoginState::Failed(LoginFailure::TokenExchange),
                    failure(LoginFailure::TokenExchange, &String::new()),
                ),
            }
        },
        (LoginState::TokenExchanged, LoginEvent::ProfileReply(p)) => {
            match p {
                Some(account) => {
                    let a = lookup_request(&account.external_login);
                    (LoginState::ProfileFetched { login: account.external_login, name: account.display_name }, a)
                },
                None => (
                    LoginState::Failed(LoginFailure::ProfileFetch),
                    failure(LoginFailure::ProfileFetch, &String::new()),
                ),
            }
        },
        (LoginState::ProfileFetched { login, name }, LoginEvent::LookupReply(o)) => {
            match o {
                FetchOutcome::Items(users) if users.len() > 0 => {
                    let id = users[0].field(&String::from_str("id"));
                    let a = LoginAction::IssueSession { subject_id: id.clone() };
                    (LoginState::UserMatched { subject_id: id }, a)
                },
                _ => {
                    let a = create_request(&login, &name);
                    (LoginState::Registering { login }, a)
                },
            }
        },
        (LoginState::Registering { login }, LoginEvent::CreateReply(o)) => {
            match o {
                FetchOutcome::Items(users) if users.len() > 0 => {
                    let id = users[0].field(&String::from_str("id"));
                    let a = LoginAction::IssueSession { subject_id: id.clone() };
                    (LoginState::UserCreated { subject_id: id }, a)
                },
                _ => {
                    let a = failure(LoginFailure::UserCreate, &login);
                    (LoginState::Failed(LoginFailure::UserCreate), a)
                },
            }
        },
        (LoginState::UserMatched { subject_id }, LoginEvent::SessionIssued(token)) => {
            (LoginState::SessionEstablished { subject_id }, LoginAction::Finish { token })
        },
        (LoginState::UserCreated { subject_id }, LoginEvent::SessionIssued(token)) => {
            (LoginState::SessionEstablished { subject_id }, LoginAction::Finish { token })
        },
        (state, _) => (state, LoginAction::Nothing),
    }
}

/// The event for an answer of the content API: the creation's answer while
/// registering, the lookup's otherwise.
pub fn content_event(state: &LoginState, outcome: FetchOutcome) -> (r: LoginEvent)
    ensures
        state@ is Registering ==> r.deep_view() == EventModel::CreateReply(outcome.deep_view()),
        !(state@ is Registering) ==> r.deep_view() == EventModel::LookupReply(outcome.deep_view()),
{
    match state {
        LoginState::Registering { .. } => LoginEvent::CreateReply(outcome),
        _ => LoginEvent::LookupReply(outcome),
    }
}

} // verus!
