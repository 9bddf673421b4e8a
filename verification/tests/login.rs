use sso_auth::github::{AuthorizedParams, Email, GitHubError, TokenAccessError, TokenResponse, User};
use sso_auth::scope::{scopes_for, RoleGrant, Scope};
use sso_auth::session::{
    authorized, issue_session, Action, Event, Flow, LoginError, Lookup, Settings,
};
use sso_auth::sso::{begin, SsoError};
use sso_auth::token::{verify, Algorithm, TokenConfig, TokenError};
use sso_auth::user::{Connection, Provider, UserDocument, UserError, Write};

fn settings() -> Settings {
    Settings {
        token: TokenConfig {
            algorithm: Algorithm::HS256,
            secret: b"login secret".to_vec(),
            audience: "clients".to_string(),
            ttl: 3600,
            state_ttl: 600,
        },
        allowed_domains: vec!["x.com".to_string()],
        roles: vec![RoleGrant { role: "admin".to_string(), scope: Scope::ClientWrite }],
    }
}

fn callback(code: &str, state: &str, cookie: Option<&str>) -> Event {
    Event::Callback {
        params: AuthorizedParams { code: code.to_string(), state: state.to_string() },
        cookie: cookie.map(|c| c.to_string()),
    }
}

fn emails() -> Vec<Email> {
    vec![
        Email { address: "a@x.com".to_string(), verified: false, primary: true },
        Email { address: "b@x.com".to_string(), verified: true, primary: false },
        Email { address: "c@x.com".to_string(), verified: true, primary: true },
    ]
}

fn alice() -> User {
    User { login: "alice".to_string(), id: 1, two_factor_authentication: false }
}

#[test]
fn first_login_ends_in_a_session() {
    let s = settings();
    let (state, cookie) = begin(&s.token, 1000).unwrap();

    let (flow, action) = authorized(Flow::Start, callback("good", &state, Some(&cookie)), &s, 1010);
    assert_eq!(flow, Flow::AwaitingToken);
    assert_eq!(action, Action::ExchangeCode { code: "good".to_string() });

    let answer = TokenResponse { access_token: Some("tok".to_string()), error: None };
    let (flow, action) = authorized(flow, Event::Token(Some(answer)), &s, 1010);
    assert_eq!(flow, Flow::AwaitingIdentity);
    assert_eq!(action, Action::FetchIdentity { access_token: "tok".to_string() });

    let (flow, action) = authorized(flow, Event::Identity(Some((alice(), emails()))), &s, 1010);
    assert_eq!(
        action,
        Action::FindUser { provider: Provider::GitHub, user_id: 1, email: "c@x.com".to_string() }
    );

    let lookup = Lookup::NotFound { fresh_id: "0123456789abcdef01234567".to_string() };
    let (flow, action) = authorized(flow, Event::Account(lookup), &s, 1010);
    assert_eq!(flow, Flow::AwaitingWrite);
    let created = UserDocument {
        id: "0123456789abcdef01234567".to_string(),
        email: "c@x.com".to_string(),
        connections: vec![Connection {
            provider: Provider::GitHub,
            user_id: 1,
            login: "alice".to_string(),
            two_factor_enabled: false,
        }],
        roles: vec![],
        can_login: true,
        verified: true,
        last_session_at: None,
    };
    assert_eq!(action, Action::Store { user: created.clone(), write: Write::InsertUser });

    let (flow, action) = authorized(flow, Event::Written(Some(created.clone())), &s, 1010);
    assert_eq!(
        action,
        Action::RecordSession { user: "0123456789abcdef01234567".to_string(), at: 1010 }
    );

    let (flow, action) = authorized(flow, Event::Recorded(false), &s, 1011);
    assert_eq!(flow, Flow::Finished);
    let response = match action {
        Action::Respond(r) => r,
        other => panic!("no session: {:?}", other),
    };
    assert_eq!(response.user, "0123456789abcdef01234567");
    assert_eq!(response.expires_at, 4610);
    let claims = verify(&response.token, &"clients".to_string(), &s.token, 1011).unwrap();
    assert_eq!(claims.sub, "0123456789abcdef01234567");
    assert_eq!(claims.scope, scopes_for(&s.roles, &created.roles));
    assert_eq!(claims.iat, 1010);
    assert_eq!(claims.exp, 4610);
}

#[test]
fn returning_login_skips_the_write() {
    let s = settings();
    let connection = Connection {
        provider: Provider::GitHub,
        user_id: 1,
        login: "alice".to_string(),
        two_factor_enabled: false,
    };
    let stored = UserDocument {
        id: "u1".to_string(),
        email: "c@x.com".to_string(),
        connections: vec![connection.clone()],
        roles: vec!["admin".to_string()],
        can_login: true,
        verified: true,
        last_session_at: None,
    };
    let flow = Flow::AwaitingUser { connection, email: "c@x.com".to_string() };
    let (flow, action) = authorized(flow, Event::Account(Lookup::Found(stored)), &s, 10);
    assert_eq!(action, Action::RecordSession { user: "u1".to_string(), at: 10 });
    let (_, action) = authorized(flow, Event::Recorded(true), &s, 10);
    match action {
        Action::Respond(r) => {
            let claims = verify(&r.token, &"clients".to_string(), &s.token, 10).unwrap();
            assert!(claims.scope.contains(Scope::ClientWrite));
            assert!(!claims.scope.contains(Scope::ClientRead));
        }
        other => panic!("no session: {:?}", other),
    }
}

#[test]
fn callback_without_cookie_asks_nothing_of_the_provider() {
    let s = settings();
    let (state, _) = begin(&s.token, 1000).unwrap();
    let r = authorized(Flow::Start, callback("good", &state, None), &s, 1001);
    assert_eq!(r, (Flow::Finished, Action::Fail(LoginError::Sso(SsoError::StateMissing))));
}

#[test]
fn callback_with_forged_state_asks_nothing_of_the_provider() {
    let s = settings();
    let (_, cookie) = begin(&s.token, 1000).unwrap();
    let r = authorized(Flow::Start, callback("good", "forged", Some(&cookie)), &s, 1001);
    assert_eq!(r, (Flow::Finished, Action::Fail(LoginError::Sso(SsoError::InvalidState))));
    let (state, cookie) = begin(&s.token, 1000).unwrap();
    let late = authorized(Flow::Start, callback("good", &state, Some(&cookie)), &s, 1600);
    assert_eq!(late, (Flow::Finished, Action::Fail(LoginError::Sso(SsoError::InvalidState))));
}

#[test]
fn callback_with_state_of_another_deployment_asks_nothing_of_the_provider() {
    let s = settings();
    let mut other = settings();
    other.token.audience = "services".to_string();
    let (state, cookie) = begin(&other.token, 1000).unwrap();
    let r = authorized(Flow::Start, callback("good", &state, Some(&cookie)), &s, 1001);
    assert_eq!(r, (Flow::Finished, Action::Fail(LoginError::Sso(SsoError::InvalidState))));
    let mut forged = settings();
    forged.token.secret = b"not ours".to_vec();
    let (state, cookie) = begin(&forged.token, 1000).unwrap();
    let r = authorized(Flow::Start, callback("good", &state, Some(&cookie)), &s, 1001);
    assert_eq!(r, (Flow::Finished, Action::Fail(LoginError::Sso(SsoError::InvalidState))));
    let (state, cookie) = begin(&s.token, 1000).unwrap();
    let r = authorized(Flow::Start, callback("good", &state, Some(&cookie)), &s, 1599);
    assert_eq!(r, (Flow::AwaitingToken, Action::ExchangeCode { code: "good".to_string() }));
}

#[test]
fn refused_code_ends_the_login() {
    let s = settings();
    let answer = TokenResponse { access_token: None, error: Some("bad_verification_code".to_string()) };
    let r = authorized(Flow::AwaitingToken, Event::Token(Some(answer)), &s, 1);
    let e = LoginError::Sso(SsoError::GitHub(GitHubError::TokenAccess(
        TokenAccessError::BadVerificationCode,
    )));
    assert_eq!(r, (Flow::Finished, Action::Fail(e)));
    assert_eq!(e.status_code(), 401);
    let silent = authorized(Flow::AwaitingToken, Event::Token(None), &s, 1);
    assert_eq!(silent, (Flow::Finished, Action::Fail(LoginError::UpstreamUnavailable)));
}

#[test]
fn identity_without_trusted_email_ends_the_login() {
    let s = settings();
    let untrusted = vec![Email { address: "a@x.com".to_string(), verified: false, primary: true }];
    let r = authorized(Flow::AwaitingIdentity, Event::Identity(Some((alice(), untrusted))), &s, 1);
    assert_eq!(r, (Flow::Finished, Action::Fail(LoginError::Sso(SsoError::EmailInvalid))));
    let half = authorized(Flow::AwaitingIdentity, Event::Identity(None), &s, 1);
    assert_eq!(half, (Flow::Finished, Action::Fail(LoginError::UpstreamUnavailable)));
}

#[test]
fn foreign_domain_ends_the_login() {
    let s = settings();
    let flow = Flow::AwaitingUser { connection: alice().connection(), email: "c@evil.net".to_string() };
    let r = authorized(flow, Event::Account(Lookup::NotFound { fresh_id: "n".to_string() }), &s, 1);
    assert_eq!(r, (Flow::Finished, Action::Fail(LoginError::User(UserError::DomainNotAllowed))));
}

#[test]
fn storage_failure_ends_the_login() {
    let s = settings();
    let flow = Flow::AwaitingUser { connection: alice().connection(), email: "c@x.com".to_string() };
    let r = authorized(flow, Event::Account(Lookup::Failed), &s, 1);
    assert_eq!(r, (Flow::Finished, Action::Fail(LoginError::Storage)));
    let w = authorized(Flow::AwaitingWrite, Event::Written(None), &s, 1);
    assert_eq!(w, (Flow::Finished, Action::Fail(LoginError::Storage)));
}

#[test]
fn event_out_of_turn_ends_the_login() {
    let s = settings();
    let r = authorized(Flow::Start, Event::Recorded(true), &s, 1);
    assert_eq!(r, (Flow::Finished, Action::Fail(LoginError::OutOfOrder)));
    let again = authorized(Flow::Finished, callback("c", "s", Some("s")), &s, 1);
    assert_eq!(again, (Flow::Finished, Action::Fail(LoginError::OutOfOrder)));
}

#[test]
fn session_carries_the_scopes_of_the_roles() {
    let s = settings();
    let user = UserDocument {
        id: "u7".to_string(),
        email: "c@x.com".to_string(),
        connections: vec![],
        roles: vec!["admin".to_string(), "ghost".to_string()],
        can_login: true,
        verified: true,
        last_session_at: None,
    };
    let r = issue_session(&user, &s, 100).unwrap();
    assert_eq!(r.user, "u7");
    assert_eq!(r.expires_at, 3700);
    let claims = verify(&r.token, &"clients".to_string(), &s.token, 3699).unwrap();
    assert_eq!(claims.scope, scopes_for(&s.roles, &user.roles));
    assert_eq!(verify(&r.token, &"clients".to_string(), &s.token, 3700), Err(TokenError::TokenExpired));
}

#[test]
fn errors_are_answered_by_class() {
    assert_eq!(LoginError::Sso(SsoError::StateMissing).status_code(), 401);
    assert_eq!(LoginError::Sso(SsoError::InvalidState).status_code(), 401);
    assert_eq!(LoginError::Sso(SsoError::EmailInvalid).status_code(), 401);
    assert_eq!(
        LoginError::Sso(SsoError::GitHub(GitHubError::TokenAccess(
            TokenAccessError::IncorrectClientCredentials
        )))
        .status_code(),
        500
    );
    assert_eq!(LoginError::User(UserError::InvalidAddr).status_code(), 400);
    assert_eq!(LoginError::User(UserError::DomainNotAllowed).status_code(), 403);
    assert_eq!(LoginError::Token(TokenError::Signing).status_code(), 500);
    assert_eq!(LoginError::Token(TokenError::TokenExpired).status_code(), 401);
    assert_eq!(LoginError::Token(TokenError::Malformed).status_code(), 401);
    assert_eq!(LoginError::UpstreamUnavailable.status_code(), 500);
    assert_eq!(LoginError::Storage.status_code(), 500);
}
