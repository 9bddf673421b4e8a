use sso_auth::scope::{is_granted, scopes_for, RoleGrant, Scope, ScopeSet};

fn table() -> Vec<RoleGrant> {
    vec![
        RoleGrant { role: "admin".to_string(), scope: Scope::ClientRead },
        RoleGrant { role: "admin".to_string(), scope: Scope::ClientWrite },
        RoleGrant { role: "auditor".to_string(), scope: Scope::ClientRead },
    ]
}

#[test]
fn no_roles_give_no_scopes() {
    let set = scopes_for(&table(), &vec![]);
    assert_eq!(set, ScopeSet { client_read: false, client_write: false });
    assert_eq!(set, ScopeSet::empty());
}

#[test]
fn unknown_role_gives_no_scopes() {
    let set = scopes_for(&table(), &vec!["janitor".to_string()]);
    assert!(!set.contains(Scope::ClientRead));
    assert!(!set.contains(Scope::ClientWrite));
}

#[test]
fn auditor_reads_only() {
    let set = scopes_for(&table(), &vec!["auditor".to_string()]);
    assert_eq!(set, ScopeSet { client_read: true, client_write: false });
}

#[test]
fn admin_reads_and_writes() {
    let set = scopes_for(&table(), &vec!["janitor".to_string(), "admin".to_string()]);
    assert_eq!(set, ScopeSet { client_read: true, client_write: true });
}

#[test]
fn scopes_for_is_deterministic() {
    let roles = vec!["auditor".to_string(), "admin".to_string()];
    assert_eq!(scopes_for(&table(), &roles), scopes_for(&table(), &roles));
}

#[test]
fn empty_table_grants_nothing() {
    assert!(!is_granted(&vec![], &vec!["admin".to_string()], Scope::ClientRead));
    assert!(is_granted(&table(), &vec!["admin".to_string()], Scope::ClientWrite));
    assert!(!is_granted(&table(), &vec!["auditor".to_string()], Scope::ClientWrite));
}

#[test]
fn scope_names_are_fixed() {
    assert_eq!(Scope::ClientRead.name(), "client:read");
    assert_eq!(Scope::ClientWrite.name(), "client:write");
    let both = ScopeSet { client_read: true, client_write: true };
    assert_eq!(both.names(), vec!["client:read".to_string(), "client:write".to_string()]);
    assert_eq!(ScopeSet::empty().names(), Vec::<String>::new());
}

#[test]
fn scope_names_read_back() {
    for read in [false, true] {
        for write in [false, true] {
            let set = ScopeSet { client_read: read, client_write: write };
            assert_eq!(ScopeSet::from_names(&set.names()), Some(set));
        }
    }
    let twice = vec!["client:write".to_string(), "client:write".to_string()];
    assert_eq!(
        ScopeSet::from_names(&twice),
        Some(ScopeSet { client_read: false, client_write: true })
    );
}

#[test]
fn unknown_scope_name_is_refused() {
    let names = vec!["client:read".to_string(), "client:erase".to_string()];
    assert_eq!(ScopeSet::from_names(&names), None);
}

#[test]
fn insert_adds_one_scope() {
    let set = ScopeSet::empty().insert(Scope::ClientWrite);
    assert_eq!(set, ScopeSet { client_read: false, client_write: true });
    assert_eq!(set.insert(Scope::ClientWrite), set);
}
