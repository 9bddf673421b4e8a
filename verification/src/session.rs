//! The issuing of a session after a login through the provider: the steps
//! between the callback and the answer, and what each may lead to.

use crate::github::{
    first_trusted, select_email, token_outcome, AuthorizedParams, Email, GitHubError,
    TokenAccessError, TokenResponse, User,
};
use crate::scope::{scope_set_for, scopes_for, RoleGrant};
use crate::sso::{state_verdict, SsoError};
use crate::token::{
    issue, raw_of, token_claims, token_signed, SessionView, TokenConfig, TokenError,
};
use crate::user::{
    reconcile, reconciliation, Connection, Provider, UserDocument, UserError, UserView, Write,
};
use vstd::prelude::*;

verus! {

/// Why a login did not end in a session.
#[derive(Clone, Copy, Debug, PartialEq, Eq, Structural)]
pub enum LoginError {
    /// The login protocol or the provider refused.
    Sso(SsoError),
    /// No account could be established.
    User(UserError),
    /// No token could be issued, or a token was not accepted.
    Token(TokenError),
    /// The provider did not answer, or not with success.
    UpstreamUnavailable,
    /// The storage failed.
    Storage,
    /// An event arrived that the login was not waiting for.
    OutOfOrder,
}

/// What a successful login is answered with.
#[derive(Clone, Debug, PartialEq, Eq)]
pub struct SessionResponse {
    pub user: String,
    pub token: String,
    /// Unix seconds at which the token expires.
    pub expires_at: u64,
}

/// Keys, policy and role table of one deployment.
#[derive(Clone)]
pub struct Settings {
    pub token: TokenConfig,
    pub allowed_domains: Vec<String>,
    pub roles: Vec<RoleGrant>,
}

/// What the storage answered to the combined query for an account.
#[derive(Clone, Debug, PartialEq, Eq)]
pub enum Lookup {
    /// The account with a connection to the provider account, or the email.
    Found(UserDocument),
    /// There is none; a new account would get this identifier.
    NotFound { fresh_id: String },
    /// The storage failed.
    Failed,
}

/// Where a login stands: what outside work it waits for.
#[derive(Clone, Debug, PartialEq, Eq)]
pub enum Flow {
    /// Nothing has happened yet.
    Start,
    /// The code is being exchanged for an access token.
    AwaitingToken,
    /// Profile and emails are being fetched.
    AwaitingIdentity,
    /// The storage is being asked for the account.
    AwaitingUser { connection: Connection, email: String },
    /// The storage is writing the account.
    AwaitingWrite,
    /// The storage is noting the time of the session.
    AwaitingRecord { response: SessionResponse },
    /// The login has been answered.
    Finished,
}

/// What came back from outside.
#[derive(Clone, Debug, PartialEq, Eq)]
pub enum Event {
    /// The callback, with its parameters and the state cookie, if any.
    Callback { params: AuthorizedParams, cookie: Option<String> },
    /// The token endpoint's answer; `None` where it did not answer with
    /// success.
    Token(Option<TokenResponse>),
    /// Profile and emails; `None` unless both requests succeeded.
    Identity(Option<(User, Vec<Email>)>),
    /// The storage's answer to the query for the account.
    Account(Lookup),
    /// The account as the storage holds it after the write; `None` where
    /// the write failed.
    Written(Option<UserDocument>),
    /// Whether the time of the session was noted.
    Recorded(bool),
}

/// What is to be done outside next.
#[derive(Clone, Debug, PartialEq, Eq)]
pub enum Action {
    /// Exchange the code for an access token, once.
    ExchangeCode { code: String },
    /// Fetch profile and emails with the access token, both at once.
    FetchIdentity { access_token: String },
    /// Ask the storage, in one query, for the account that has a connection
    /// to this provider account or this email.
    FindUser { provider: Provider, user_id: i64, email: String },
    /// Write the account in one step: the whole account, or the one
    /// connection that `write` names.
    Store { user: UserDocument, write: Write },
    /// Note on the account when its last session began.
    RecordSession { user: String, at: u64 },
    /// Answer with the session, as created.
    Respond(SessionResponse),
    /// Answer with the error.
    Fail(LoginError),
}

/// The HTTP status that an error is answered with.
pub open spec fn error_status(error: LoginError) -> u16 {
    match error {
        LoginError::Sso(SsoError::StateMissing) => 401,
        LoginError::Sso(SsoError::InvalidState) => 401,
        LoginError::Sso(SsoError::EmailInvalid) => 401,
        LoginError::Sso(SsoError::InvalidRedirect) => 500,
        LoginError::Sso(SsoError::GitHub(GitHubError::TokenAccess(TokenAccessError::BadVerificationCode))) => 401,
        LoginError::Sso(SsoError::GitHub(GitHubError::TokenAccess(TokenAccessError::RedirectUriMismatch))) => 401,
        LoginError::Sso(SsoError::GitHub(GitHubError::TokenAccess(TokenAccessError::IncorrectClientCredentials))) => 500,
        LoginError::Sso(SsoError::GitHub(GitHubError::UnknownError)) => 500,
        LoginError::User(UserError::InvalidAddr) => 400,
        LoginError::User(UserError::DomainNotAllowed) => 403,
        LoginError::Token(TokenError::Signing) => 500,
        LoginError::Token(_) => 401,
        LoginError::UpstreamUnavailable => 500,
        LoginError::Storage => 500,
        LoginError::OutOfOrder => 500,
    }
}

/// The session that is issued to `user` at `now`: its claims name the
/// account, the configured audience and the scopes of the account's roles.
pub open spec fn session_claims_for(user: UserDocument, settings: &Settings, now: u64)
    -> SessionView {
    SessionView {
        sub: user.id@,
        aud: settings.token.audience@,
        scope: scope_set_for(settings.roles@, user.roles@),
        iat: now,
        exp: (now + settings.token.ttl) as u64,
    }
}

/// `response` is a session of `user`, issued at `now`.
pub open spec fn is_session_of(
    response: SessionResponse,
    user: UserDocument,
    settings: &Settings,
    now: u64,
) -> bool {
    &&& response.user@ == user.id@
    &&& response.expires_at == now + settings.token.ttl
    &&& token_claims(response.token@) == Some(raw_of(session_claims_for(user, settings, now)))
    &&& token_signed(response.token@, settings.token.algorithm, settings.token.secret@)
}

/// The step after the account is settled: the session is issued and its
/// time is to be noted.
pub open spec fn session_step(
    user: UserDocument,
    settings: &Settings,
    now: u64,
    next: Flow,
    action: Action,
) -> bool {
    match (next, action) {
        (Flow::AwaitingRecord { response }, Action::RecordSession { user: id, at }) => id@
            == user.id@ && at == now && is_session_of(response, user, settings, now),
        _ => false,
    }
}

/// The view of what was found, for `reconciliation`.
pub open spec fn found_view(lookup: Lookup) -> Option<UserView> {
    match lookup {
        Lookup::Found(user) => Some(user@),
        _ => None,
    }
}

/// The identifier that a new account would get.
pub open spec fn fresh_id(lookup: Lookup) -> Seq<char> {
    match lookup {
        Lookup::NotFound { fresh_id } => fresh_id@,
        _ => Seq::<char>::empty(),
    }
}

/// `next` and `action` are what follows `event` in `flow`.
///
/// The callback is checked against its state before anything is asked of
/// the provider. Each failure ends the login with its error; only the
/// noting of the session's time may fail without one. An account that is
/// settled always gets its session.
pub open spec fn follows(
    flow: Flow,
    event: Event,
    settings: &Settings,
    now: u64,
    next: Flow,
    action: Action,
) -> bool {
    match (flow, event) {
        (Flow::Start, Event::Callback { params, cookie }) => match cookie {
            None => next is Finished && action == Action::Fail(
                LoginError::Sso(SsoError::StateMissing),
            ),
            Some(c) => match state_verdict(
                Some(params.state@),
                Some(c@),
                token_claims(c@),
                token_signed(c@, settings.token.algorithm, settings.token.secret@),
                settings.token.audience@,
                now,
            ) {
                Ok(_) => next is AwaitingToken && (action matches Action::ExchangeCode { code }
                    && code@ == params.code@),
                Err(e) => next is Finished && action == Action::Fail(LoginError::Sso(e)),
            },
        },
        (Flow::AwaitingToken, Event::Token(None)) => next is Finished && action == Action::Fail(
            LoginError::UpstreamUnavailable,
        ),
        (Flow::AwaitingToken, Event::Token(Some(response))) => match token_outcome(
            match response.access_token {
                Some(a) => Some(a@),
                None => None,
            },
            match response.error {
                Some(c) => Some(c@),
                None => None,
            },
        ) {
            Ok(t) => next is AwaitingIdentity && (action matches Action::FetchIdentity {
                access_token,
            } && access_token@ == t),
            Err(e) => next is Finished && action == Action::Fail(
                LoginError::Sso(SsoError::GitHub(e)),
            ),
        },
        (Flow::AwaitingIdentity, Event::Identity(None)) => next is Finished && action
            == Action::Fail(LoginError::UpstreamUnavailable),
        (Flow::AwaitingIdentity, Event::Identity(Some((user, emails)))) => {
            let at = first_trusted(emails@);
            if at < emails@.len() {
                &&& next matches Flow::AwaitingUser { connection, email }
                &&& connection.provider == Provider::GitHub
                &&& connection.user_id == user.id
                &&& connection.login@ == user.login@
                &&& connection.two_factor_enabled == user.two_factor_authentication
                &&& email@ == emails@[at].address@
                &&& action matches Action::FindUser { provider, user_id, email: wanted }
                &&& provider == Provider::GitHub
                &&& user_id == user.id
                &&& wanted@ == emails@[at].address@
            } else {
                next is Finished && action == Action::Fail(LoginError::Sso(SsoError::EmailInvalid))
            }
        },
        (Flow::AwaitingUser { connection, email }, Event::Account(Lookup::Failed)) => next
            is Finished && action == Action::Fail(LoginError::Storage),
        (Flow::AwaitingUser { connection, email }, Event::Account(lookup)) => match reconciliation(
            found_view(lookup),
            connection@,
            email@,
            settings.allowed_domains@,
            fresh_id(lookup),
        ) {
            Err(e) => next is Finished && action == Action::Fail(LoginError::User(e)),
            Ok((after, Write::Nothing)) => exists|user: UserDocument|
                user@ == after && #[trigger] session_step(user, settings, now, next, action),
            Ok((after, write)) => next is AwaitingWrite && (action matches Action::Store {
                user,
                write: w,
            } && user@ == after && w == write),
        },
        (Flow::AwaitingWrite, Event::Written(None)) => next is Finished && action == Action::Fail(
            LoginError::Storage,
        ),
        (Flow::AwaitingWrite, Event::Written(Some(user))) => session_step(
            user,
            settings,
            now,
            next,
            action,
        ),
        (Flow::AwaitingRecord { response }, Event::Recorded(_)) => next is Finished && (
        action matches Action::Respond(sent) && sent == response),
        _ => next is Finished && action == Action::Fail(LoginError::OutOfOrder),
    }
}

impl LoginError {
    /// The HTTP status that the error is answered with.
    pub fn status_code(&self) -> (r: u16)
        ensures
            r == error_status(*self),
    {
        match self {
            LoginError::Sso(SsoError::StateMissing) => 401,
            LoginError::Sso(SsoError::InvalidState) => 401,
            LoginError::Sso(SsoError::EmailInvalid) => 401,
            LoginError::Sso(SsoError::InvalidRedirect) => 500,
            LoginError::Sso(SsoError::GitHub(e)) => e.status_code(),
            LoginError::User(UserError::InvalidAddr) => 400,
            LoginError::User(UserError::DomainNotAllowed) => 403,
            LoginError::Token(TokenError::Signing) => 500,
            LoginError::Token(_) => 401,
            LoginError::UpstreamUnavailable => 500,
            LoginError::Storage => 500,
            LoginError::OutOfOrder => 500,
        }
    }
}

/// Issues the session of an account at `now`: computes the scopes of its
/// roles and signs a token for it. It always succeeds.
pub fn issue_session(user: &UserDocument, settings: &Settings, now: u64) -> (r: Result<
    SessionResponse,
    TokenError,
>)
    requires
        0 < settings.token.ttl,
        now + settings.token.ttl <= u64::MAX,
    ensures
        r is Ok,
        match r {
            Ok(response) => is_session_of(response, *user, settings, now),
            Err(_) => false,
        },
{
    let scope = scopes_for(&settings.roles, &user.roles);
    let token = issue(user.id.clone(), settings.token.audience.clone(), scope, &settings.token, now);
    match token {
        Ok(token) => Ok(
            SessionResponse { user: user.id.clone(), token, expires_at: now + settings.token.ttl },
        ),
        Err(e) => Err(e),
    }
}

/// The step after the account is settled.
fn settle(user: UserDocument, settings: &Settings, now: u64) -> (r: (Flow, Action))
    requires
        0 < settings.token.ttl,
        now + settings.token.ttl <= u64::MAX,
    ensures
        session_step(user, settings, now, r.0, r.1),
{
    match issue_session(&user, settings, now) {
        Ok(response) => (
            Flow::AwaitingRecord { response },
            Action::RecordSession { user: user.id, at: now },
        ),
        Err(e) => (Flow::Finished, Action::Fail(LoginError::Token(e))),
    }
}

/// Takes a login one step further: from where it stands and what came back
/// from outside to where it stands next and what is to be done outside.
/// See `follows` for each step.
pub fn authorized(flow: Flow, event: Event, settings: &Settings, now: u64) -> (r: (Flow, Action))
    requires
        0 < settings.token.ttl,
        now + settings.token.ttl <= u64::MAX,
    ensures
        follows(flow, event, settings, now, r.0, r.1),
{
    match (flow, event) {
        (Flow::Start, Event::Callback { params, cookie }) => {
            let query = Some(params.state);
            match crate::sso::verify(&query, &cookie, &settings.token, now) {
                Ok(_) => (Flow::AwaitingToken, Action::ExchangeCode { code: params.code }),
                Err(e) => (Flow::Finished, Action::Fail(LoginError::Sso(e))),
            }
        },
        (Flow::AwaitingToken, Event::Token(None)) => (
            Flow::Finished,
            Action::Fail(LoginError::UpstreamUnavailable),
        ),
        (Flow::AwaitingToken, Event::Token(Some(response))) => match response.into_access_token() {
            Ok(access_token) => (Flow::AwaitingIdentity, Action::FetchIdentity { access_token }),
            Err(e) => (Flow::Finished, Action::Fail(LoginError::Sso(SsoError::GitHub(e)))),
        },
        (Flow::AwaitingIdentity, Event::Identity(None)) => (
            Flow::Finished,
            Action::Fail(LoginError::UpstreamUnavailable),
        ),
        (Flow::AwaitingIdentity, Event::Identity(Some((user, emails)))) => match select_email(
            &emails,
        ) {
            Ok(email) => {
                let connection = user.connection();
                let wanted = email.clone();
                (
                    Flow::AwaitingUser { connection, email },
                    Action::FindUser { provider: Provider::GitHub, user_id: user.id, email: wanted },
                )
            },
            Err(e) => (Flow::Finished, Action::Fail(LoginError::Sso(e))),
        },
        (Flow::AwaitingUser { connection, email }, Event::Account(lookup)) => {
            let (found, fresh) = match lookup {
                Lookup::Failed => {
                    return (Flow::Finished, Action::Fail(LoginError::Storage));
                },
                Lookup::Found(user) => (Some(user), String::new()),
                Lookup::NotFound { fresh_id } => (None, fresh_id),
            };
            match reconcile(found, connection, email, &settings.allowed_domains, fresh) {
                Err(e) => (Flow::Finished, Action::Fail(LoginError::User(e))),
                Ok(done) => match done.write {
                    Write::Nothing => settle(done.user, settings, now),
                    _ => (Flow::AwaitingWrite, Action::Store { user: done.user, write: done.write }),
                },
            }
        },
        (Flow::AwaitingWrite, Event::Written(None)) => (
            Flow::Finished,
            Action::Fail(LoginError::Storage),
        ),
        (Flow::AwaitingWrite, Event::Written(Some(user))) => settle(user, settings, now),
        (Flow::AwaitingRecord { response }, Event::Recorded(_)) => (
            Flow::Finished,
            Action::Respond(response),
        ),
        _ => (Flow::Finished, Action::Fail(LoginError::OutOfOrder)),
    }
}

/// Nothing is asked of the provider before the state of the callback has
/// been verified: the code is exchanged only for a callback whose cookie
/// and query hold the same valid state.
pub proof fn lemma_state_guards_exchange(
    flow: Flow,
    event: Event,
    settings: &Settings,
    now: u64,
    next: Flow,
    action: Action,
)
    requires
        follows(flow, event, settings, now, next, action),
        action is ExchangeCode,
    ensures
        flow is Start,
        event matches Event::Callback { params, cookie } && (cookie matches Some(c)
            && state_verdict(
            Some(params.state@),
            Some(c@),
            token_claims(c@),
            token_signed(c@, settings.token.algorithm, settings.token.secret@),
            settings.token.audience@,
            now,
        ) is Ok),
{
}

/// A login is answered with a session only after the session's time was to
/// be noted, whether or not that succeeded, and with the very session that
/// was issued then. Each other end of a login is a failure.
pub proof fn lemma_answers(
    flow: Flow,
    event: Event,
    settings: &Settings,
    now: u64,
    next: Flow,
    action: Action,
)
    requires
        follows(flow, event, settings, now, next, action),
    ensures
        action is Respond ==> next is Finished && event is Recorded && (
        flow matches Flow::AwaitingRecord { response } && action == Action::Respond(response)),
        action is Fail <==> next is Finished && !(action is Respond),
        flow is Finished ==> action == Action::Fail(LoginError::OutOfOrder),
{
}

/// The guard of the callback. Without the cookie the login ends with
/// `StateMissing`. With it, the login ends with `InvalidState` exactly when
/// the query's state is not the cookie's, or the cookie's token cannot be
/// read, was issued for another audience, has expired or is not validly
/// signed. Either way the login is finished and nothing is asked of the
/// provider or the storage. Otherwise the guard passes: the only thing
/// asked for is the exchange of the callback's code.
pub proof fn lemma_callback_guard(
    params: AuthorizedParams,
    cookie: Option<String>,
    settings: &Settings,
    now: u64,
    next: Flow,
    action: Action,
)
    requires
        follows(Flow::Start, Event::Callback { params, cookie }, settings, now, next, action),
    ensures
        cookie is None <==> action == Action::Fail(LoginError::Sso(SsoError::StateMissing)),
        cookie matches Some(c) ==> {
            let claims = token_claims(c@);
            let signed = token_signed(c@, settings.token.algorithm, settings.token.secret@);
            let refused = params.state@ != c@ || claims is None || claims->Some_0.aud
                != settings.token.audience@ || claims->Some_0.exp <= now || !signed;
            &&& refused <==> action == Action::Fail(LoginError::Sso(SsoError::InvalidState))
            &&& !refused <==> (action matches Action::ExchangeCode { code } && code@
                == params.code@)
            &&& !refused <==> next is AwaitingToken
        },
        action is Fail ==> next is Finished,
        action is Fail || action is ExchangeCode,
{
}

} // verus!
