use sso_auth::user::{
    find_provider, find_user, get_email_domain, is_allowed_domain, reconcile, Connection,
    Provider, UserDocument, UserError, Write,
};

fn github(user_id: i64, login: &str, two_factor: bool) -> Connection {
    Connection {
        provider: Provider::GitHub,
        user_id,
        login: login.to_string(),
        two_factor_enabled: two_factor,
    }
}

fn account(id: &str, email: &str, connections: Vec<Connection>) -> UserDocument {
    UserDocument {
        id: id.to_string(),
        email: email.to_string(),
        connections,
        roles: vec!["auditor".to_string()],
        can_login: true,
        verified: false,
        last_session_at: Some(5),
    }
}

fn allowed() -> Vec<String> {
    vec!["x.com".to_string(), "example.org".to_string()]
}

// Applies the write to the accounts, as a storage would.
fn store(users: &mut Vec<UserDocument>, found: Option<usize>, user: &UserDocument, write: Write) {
    match (write, found) {
        (Write::Nothing, _) => {}
        (Write::InsertUser, _) => users.push(user.clone()),
        (_, Some(i)) => users[i] = user.clone(),
        (_, None) => panic!("a write to an account that was not found"),
    }
}

fn login(
    users: &mut Vec<UserDocument>,
    connection: Connection,
    email: &str,
    fresh_id: &str,
) -> Result<(String, Write), UserError> {
    let at = find_user(users, connection.provider, connection.user_id, &email.to_string());
    let found = at.map(|i| users[i].clone());
    let done = reconcile(found, connection, email.to_string(), &allowed(), fresh_id.to_string())?;
    store(users, at, &done.user, done.write);
    Ok((done.user.id, done.write))
}

#[test]
fn unchanged_connection_writes_nothing() {
    let mut users = vec![account("u1", "a@x.com", vec![github(1, "alice", false)])];
    let before = users.clone();
    let first = login(&mut users, github(1, "alice", false), "a@x.com", "n1").unwrap();
    let second = login(&mut users, github(1, "alice", false), "a@x.com", "n2").unwrap();
    assert_eq!(first, ("u1".to_string(), Write::Nothing));
    assert_eq!(second, ("u1".to_string(), Write::Nothing));
    assert_eq!(users, before);
}

#[test]
fn changed_flag_updates_one_field() {
    let other = Connection {
        provider: Provider::GitLab,
        user_id: 77,
        login: "al".to_string(),
        two_factor_enabled: false,
    };
    let stored = account("u1", "a@x.com", vec![other.clone(), github(1, "alice", false)]);
    let done = reconcile(
        Some(stored.clone()),
        github(1, "alice", true),
        "a@x.com".to_string(),
        &allowed(),
        "n1".to_string(),
    )
    .unwrap();
    assert_eq!(done.write, Write::UpdateConnection { index: 1 });
    let mut expected = stored;
    expected.connections[1].two_factor_enabled = true;
    assert_eq!(done.user, expected);
    assert_eq!(done.user.id, "u1");
    assert_eq!(done.user.connections[0], other);
}

#[test]
fn renamed_login_updates_in_place_then_settles() {
    let mut users = vec![account("u1", "a@x.com", vec![github(1, "alice", false)])];
    let first = login(&mut users, github(1, "alicia", false), "new@x.com", "n1").unwrap();
    assert_eq!(first, ("u1".to_string(), Write::UpdateConnection { index: 0 }));
    assert_eq!(users.len(), 1);
    assert_eq!(users[0].connections, vec![github(1, "alicia", false)]);
    assert_eq!(users[0].email, "a@x.com");
    let second = login(&mut users, github(1, "alicia", false), "new@x.com", "n2").unwrap();
    assert_eq!(second, ("u1".to_string(), Write::Nothing));
}

#[test]
fn email_match_appends_connection() {
    let other = Connection {
        provider: Provider::GitLab,
        user_id: 77,
        login: "al".to_string(),
        two_factor_enabled: false,
    };
    let mut users = vec![
        account("u0", "z@x.com", vec![]),
        account("u1", "a@x.com", vec![other.clone()]),
    ];
    let first = login(&mut users, github(1, "alice", true), "a@x.com", "n1").unwrap();
    assert_eq!(first, ("u1".to_string(), Write::InsertConnection));
    assert_eq!(users.len(), 2);
    assert_eq!(users[1].connections, vec![other, github(1, "alice", true)]);
    assert_eq!(users[1].roles, vec!["auditor".to_string()]);
    assert_eq!(users[1].last_session_at, Some(5));
    assert!(!users[1].verified);
}

#[test]
fn first_login_creates_account() {
    let mut users = vec![account("u0", "z@x.com", vec![github(9, "zed", false)])];
    let first = login(&mut users, github(1, "alice", false), "c@x.com", "n1").unwrap();
    assert_eq!(first, ("n1".to_string(), Write::InsertUser));
    assert_eq!(users.len(), 2);
    assert_eq!(
        users[1],
        UserDocument {
            id: "n1".to_string(),
            email: "c@x.com".to_string(),
            connections: vec![github(1, "alice", false)],
            roles: vec![],
            can_login: true,
            verified: true,
            last_session_at: None,
        }
    );
    let second = login(&mut users, github(1, "alice", false), "c@x.com", "n2").unwrap();
    assert_eq!(second, ("n1".to_string(), Write::Nothing));
    assert_eq!(users.len(), 2);
}

#[test]
fn foreign_domain_creates_nothing() {
    let mut users = vec![account("u0", "z@x.com", vec![])];
    let r = login(&mut users, github(1, "alice", false), "c@evil.net", "n1");
    assert_eq!(r, Err(UserError::DomainNotAllowed));
    assert_eq!(users.len(), 1);
}

#[test]
fn email_without_domain_is_invalid() {
    for email in ["alice", "alice@", ""] {
        let r = reconcile(None, github(1, "a", false), email.to_string(), &allowed(), "n".to_string());
        assert_eq!(r, Err(UserError::InvalidAddr));
    }
}

#[test]
fn domain_is_what_follows_the_last_at() {
    assert_eq!(get_email_domain("c@x.com"), Some("x.com".to_string()));
    assert_eq!(get_email_domain("\"a@b\"@example.org"), Some("example.org".to_string()));
    assert_eq!(get_email_domain("@x"), Some("x".to_string()));
    assert_eq!(get_email_domain("ü@bücher.de"), Some("bücher.de".to_string()));
    assert_eq!(get_email_domain("x.com"), None);
    assert_eq!(get_email_domain("a@"), None);
    assert_eq!(get_email_domain(""), None);
}

#[test]
fn allowlist_is_exact() {
    assert!(is_allowed_domain(&allowed(), &"x.com".to_string()));
    assert!(is_allowed_domain(&allowed(), &"example.org".to_string()));
    assert!(!is_allowed_domain(&allowed(), &"X.com".to_string()));
    assert!(!is_allowed_domain(&allowed(), &"sub.x.com".to_string()));
    assert!(!is_allowed_domain(&vec![], &"x.com".to_string()));
}

#[test]
fn first_connection_of_provider_is_found() {
    let list = vec![
        Connection { provider: Provider::GitLab, user_id: 1, login: "a".to_string(), two_factor_enabled: false },
        github(2, "b", false),
        github(3, "c", false),
    ];
    assert_eq!(find_provider(&list, Provider::GitHub), 1);
    assert_eq!(find_provider(&list, Provider::GitLab), 0);
    assert_eq!(find_provider(&list[..1].to_vec(), Provider::GitHub), 1);
    assert_eq!(find_provider(&vec![], Provider::GitHub), 0);
}

#[test]
fn connection_match_goes_before_email_match() {
    let users = vec![
        account("u0", "a@x.com", vec![]),
        account("u1", "b@x.com", vec![github(1, "alice", false)]),
    ];
    assert_eq!(find_user(&users, Provider::GitHub, 1, &"a@x.com".to_string()), Some(1));
    assert_eq!(find_user(&users, Provider::GitHub, 2, &"a@x.com".to_string()), Some(0));
    assert_eq!(find_user(&users, Provider::GitLab, 1, &"c@x.com".to_string()), None);
    assert!(users[1].is_connected(Provider::GitHub, 1));
    assert!(!users[1].is_connected(Provider::GitLab, 1));
}

#[test]
fn connections_compare_by_every_field() {
    let c = github(1, "alice", false);
    assert!(c.same(&github(1, "alice", false)));
    assert!(!c.same(&github(2, "alice", false)));
    assert!(!c.same(&github(1, "alicia", false)));
    assert!(!c.same(&github(1, "alice", true)));
    let mut d = github(1, "alice", false);
    d.provider = Provider::GitLab;
    assert!(!c.same(&d));
}
