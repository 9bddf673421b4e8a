//! Stored user accounts and their reconciliation with an external identity.

use vstd::prelude::*;
use vstd::string::StrSliceExecFns;
use vstd::string::StringExecFns;

verus! {

/// An identity provider that a connection can point to.
#[derive(Clone, Copy, Debug, PartialEq, Eq, Structural)]
pub enum Provider {
    GitHub,
    GitLab,
}

/// The link between a user account and one account at an identity provider.
#[derive(Clone, Debug, PartialEq, Eq)]
pub struct Connection {
    pub provider: Provider,
    pub user_id: i64,
    pub login: String,
    pub two_factor_enabled: bool,
}

/// What a `Connection` holds.
pub struct ConnectionView {
    pub provider: Provider,
    pub user_id: i64,
    pub login: Seq<char>,
    pub two_factor_enabled: bool,
}

impl View for Connection {
    type V = ConnectionView;

    open spec fn view(&self) -> ConnectionView {
        ConnectionView {
            provider: self.provider,
            user_id: self.user_id,
            login: self.login@,
            two_factor_enabled: self.two_factor_enabled,
        }
    }
}

/// A stored user account.
#[derive(Clone, Debug, PartialEq, Eq)]
pub struct UserDocument {
    pub id: String,
    pub email: String,
    pub connections: Vec<Connection>,
    pub roles: Vec<String>,
    pub can_login: bool,
    pub verified: bool,
    /// Unix seconds of the last session issued, if any.
    pub last_session_at: Option<u64>,
}

/// What a `UserDocument` holds.
pub struct UserView {
    pub id: Seq<char>,
    pub email: Seq<char>,
    pub connections: Seq<ConnectionView>,
    pub roles: Seq<Seq<char>>,
    pub can_login: bool,
    pub verified: bool,
    pub last_session_at: Option<u64>,
}

impl View for UserDocument {
    type V = UserView;

    open spec fn view(&self) -> UserView {
        UserView {
            id: self.id@,
            email: self.email@,
            connections: self.connections@.map_values(|c: Connection| c@),
            roles: self.roles@.map_values(|r: String| r@),
            can_login: self.can_login,
            verified: self.verified,
            last_session_at: self.last_session_at,
        }
    }
}

/// Why an account could not be established.
#[derive(Clone, Copy, Debug, PartialEq, Eq, Structural)]
pub enum UserError {
    /// The email address has no domain.
    InvalidAddr,
    /// The email's domain is not among the allowed ones.
    DomainNotAllowed,
}

/// The write that the storage has to perform after a reconciliation.
#[derive(Clone, Copy, Debug, PartialEq, Eq, Structural)]
pub enum Write {
    /// The stored account is current.
    Nothing,
    /// Overwrite the connection at this place of the account's sequence.
    UpdateConnection { index: usize },
    /// Append the connection to the account's sequence.
    InsertConnection,
    /// Store the account, which is new.
    InsertUser,
}

/// The account that an identity was reconciled to, and the write that brings
/// the storage to it.
#[derive(Clone, Debug, PartialEq, Eq)]
pub struct Reconciled {
    pub user: UserDocument,
    pub write: Write,
}

/// The place of the last `@` in `s`, if it has one.
pub open spec fn last_at(s: Seq<char>) -> Option<int>
    decreases s.len(),
{
    if s.len() == 0 {
        None
    } else if s.last() == '@' {
        Some(s.len() - 1)
    } else {
        last_at(s.drop_last())
    }
}

/// The domain of an email address: what follows its last `@`, unless that is
/// nothing.
pub open spec fn email_domain(email: Seq<char>) -> Option<Seq<char>> {
    match last_at(email) {
        Some(i) if i + 1 < email.len() => Some(email.subrange(i + 1, email.len() as int)),
        _ => None,
    }
}

/// `domain` is one of `allowed`.
pub open spec fn domain_allowed(allowed: Seq<String>, domain: Seq<char>) -> bool {
    exists|i: int| 0 <= i < allowed.len() && (#[trigger] allowed[i])@ == domain
}

/// The place of the first connection to `provider`, or the length where
/// there is none.
pub open spec fn first_of_provider(connections: Seq<ConnectionView>, provider: Provider) -> int
    decreases connections.len(),
{
    if connections.len() == 0 {
        0
    } else if connections[0].provider == provider {
        0
    } else {
        1 + first_of_provider(connections.drop_first(), provider)
    }
}

/// The account that a first login creates.
pub open spec fn created_user(id: Seq<char>, email: Seq<char>, connection: ConnectionView)
    -> UserView {
    UserView {
        id,
        email,
        connections: seq![connection],
        roles: Seq::<Seq<char>>::empty(),
        can_login: true,
        verified: true,
        last_session_at: None,
    }
}

/// The outcome of reconciling `connection` and the verified `email` with
/// `found`, the one stored account that has a connection to the same
/// provider account or the same email.
///
/// A stored connection to the provider that equals the fresh one leaves the
/// account as it is; one that differs is overwritten in place; an account
/// without one gets the fresh one appended. Without an account a new one is
/// made under `new_id`, provided the email's domain is allowed.
pub open spec fn reconciliation(
    found: Option<UserView>,
    connection: ConnectionView,
    email: Seq<char>,
    allowed: Seq<String>,
    new_id: Seq<char>,
) -> Result<(UserView, Write), UserError> {
    match found {
        Some(user) => {
            let at = first_of_provider(user.connections, connection.provider);
            if at < user.connections.len() {
                if user.connections[at] == connection {
                    Ok((user, Write::Nothing))
                } else {
                    Ok(
                        (
                            UserView { connections: user.connections.update(at, connection), ..user },
                            Write::UpdateConnection { index: at as usize },
                        ),
                    )
                }
            } else {
                Ok(
                    (
                        UserView { connections: user.connections.push(connection), ..user },
                        Write::InsertConnection,
                    ),
                )
            }
        },
        None => match email_domain(email) {
            None => Err(UserError::InvalidAddr),
            Some(domain) => if domain_allowed(allowed, domain) {
                Ok((created_user(new_id, email, connection), Write::InsertUser))
            } else {
                Err(UserError::DomainNotAllowed)
            },
        },
    }
}

impl Connection {
    /// Whether two connections agree in every field.
    pub fn same(&self, other: &Connection) -> (r: bool)
        ensures
            r == (self@ == other@),
    {
        let r = self.provider == other.provider && self.user_id == other.user_id && self.login
            == other.login && self.two_factor_enabled == other.two_factor_enabled;
        r
    }
}

/// The domain of an email address: what follows its last `@`.
pub fn get_email_domain(email: &str) -> (r: Option<String>)
    ensures
        match r {
            Some(d) => email_domain(email@) == Some(d@),
            None => email_domain(email@) is None,
        },
{
    let n = email.unicode_len();
    let mut i: usize = n;
    proof {
        assert(email@.take(n as int) =~= email@);
    }
    while i > 0
        invariant
            0 <= i <= n,
            n == email@.len(),
            last_at(email@) == last_at(email@.take(i as int)),
        decreases i,
    {
        proof {
            assert(email@.take(i as int).drop_last() =~= email@.take(i - 1));
        }
        if email.get_char(i - 1) == '@' {
            if i < n {
                return Some(String::from_str(email.substring_char(i, n)));
            } else {
                return None;
            }
        }
        i -= 1;
    }
    None
}

/// Whether `domain` is one of the allowed domains.
pub fn is_allowed_domain(allowed: &Vec<String>, domain: &String) -> (r: bool)
    ensures
        r == domain_allowed(allowed@, domain@),
{
    let mut i: usize = 0;
    while i < allowed.len()
        invariant
            0 <= i <= allowed.len(),
            forall|k: int| 0 <= k < i ==> (#[trigger] allowed@[k])@ != domain@,
        decreases allowed.len() - i,
    {
        if allowed[i] == *domain {
            return true;
        }
        i += 1;
    }
    false
}

/// The place of the first connection to `provider` among `connections`, or
/// their number where there is none.
pub fn find_provider(connections: &Vec<Connection>, provider: Provider) -> (r: usize)
    ensures
        r == first_of_provider(connections@.map_values(|c: Connection| c@), provider),
        r <= connections.len(),
{
    let ghost all = connections@.map_values(|c: Connection| c@);
    let mut i: usize = 0;
    proof {
        assert(all.skip(0) =~= all);
    }
    while i < connections.len()
        invariant
            0 <= i <= connections.len(),
            all == connections@.map_values(|c: Connection| c@),
            first_of_provider(all, provider) == i + first_of_provider(
                all.skip(i as int),
                provider,
            ),
        decreases connections.len() - i,
    {
        proof {
            assert(all.skip(i as int).drop_first() =~= all.skip(i + 1));
            assert(all.skip(i as int)[0] == connections@[i as int]@);
        }
        if connections[i].provider == provider {
            return i;
        }
        i += 1;
    }
    i
}

/// The account has a connection to this account at the provider.
pub open spec fn has_connection(user: UserView, provider: Provider, user_id: i64) -> bool {
    exists|k: int|
        0 <= k < user.connections.len() && (#[trigger] user.connections[k]).provider == provider
            && user.connections[k].user_id == user_id
}

/// The answer to the combined query for an identity: the first account
/// with a connection to the provider account; without one, the first with
/// the email; else none. An account found by its connection goes before one
/// found by its email.
pub open spec fn is_lookup(
    users: Seq<UserDocument>,
    provider: Provider,
    user_id: i64,
    email: Seq<char>,
    found: Option<usize>,
) -> bool {
    match found {
        Some(i) => {
            &&& i < users.len()
            &&& if has_connection(users[i as int]@, provider, user_id) {
                forall|k: int|
                    0 <= k < i ==> !has_connection((#[trigger] users[k])@, provider, user_id)
            } else {
                &&& forall|k: int|
                    0 <= k < users.len() ==> !has_connection(
                        (#[trigger] users[k])@,
                        provider,
                        user_id,
                    )
                &&& users[i as int].email@ == email
                &&& forall|k: int| 0 <= k < i ==> (#[trigger] users[k]).email@ != email
            }
        },
        None => forall|k: int|
            0 <= k < users.len() ==> !has_connection((#[trigger] users[k])@, provider, user_id)
                && users[k].email@ != email,
    }
}

impl UserDocument {
    /// Whether the account has a connection to this account at the provider.
    pub fn is_connected(&self, provider: Provider, user_id: i64) -> (r: bool)
        ensures
            r == has_connection(self@, provider, user_id),
    {
        let mut k: usize = 0;
        while k < self.connections.len()
            invariant
                0 <= k <= self.connections.len(),
                forall|j: int|
                    0 <= j < k ==> !((#[trigger] self@.connections[j]).provider == provider
                        && self@.connections[j].user_id == user_id),
            decreases self.connections.len() - k,
        {
            if self.connections[k].provider == provider && self.connections[k].user_id == user_id {
                assert(self@.connections[k as int] == self.connections@[k as int]@);
                return true;
            }
            assert(self@.connections[k as int] == self.connections@[k as int]@);
            k += 1;
        }
        false
    }
}

/// Answers the combined query for an identity over the accounts given: see
/// `is_lookup`.
pub fn find_user(users: &Vec<UserDocument>, provider: Provider, user_id: i64, email: &String) -> (r:
    Option<usize>)
    ensures
        is_lookup(users@, provider, user_id, email@, r),
{
    let mut i: usize = 0;
    while i < users.len()
        invariant
            0 <= i <= users.len(),
            forall|k: int| 0 <= k < i ==> !has_connection((#[trigger] users@[k])@, provider, user_id),
        decreases users.len() - i,
    {
        if users[i].is_connected(provider, user_id) {
            return Some(i);
        }
        i += 1;
    }
    let mut j: usize = 0;
    while j < users.len()
        invariant
            0 <= j <= users.len(),
            forall|k: int|
                0 <= k < users.len() ==> !has_connection((#[trigger] users@[k])@, provider, user_id),
            forall|k: int| 0 <= k < j ==> (#[trigger] users@[k]).email@ != email@,
        decreases users.len() - j,
    {
        if users[j].email == *email {
            return Some(j);
        }
        j += 1;
    }
    None
}

/// Reconciles an external identity with the stored accounts.
///
/// `found` is the answer of the storage to one combined query: the account
/// that has a connection to the same provider account, or the verified
/// `email`. The result is the account as it stands afterwards and the one
/// write that the storage has to make. `new_id` names the account if one is
/// created.
pub fn reconcile(
    found: Option<UserDocument>,
    connection: Connection,
    email: String,
    allowed: &Vec<String>,
    new_id: String,
) -> (r: Result<Reconciled, UserError>)
    ensures
        match r {
            Ok(done) => reconciliation(
                match found {
                    Some(u) => Some(u@),
                    None => None,
                },
                connection@,
                email@,
                allowed@,
                new_id@,
            ) == Ok::<(UserView, Write), UserError>((done.user@, done.write)),
            Err(e) => reconciliation(
                match found {
                    Some(u) => Some(u@),
                    None => None,
                },
                connection@,
                email@,
                allowed@,
                new_id@,
            ) == Err::<(UserView, Write), UserError>(e),
        },
{
    match found {
        Some(user) => {
            let at = find_provider(&user.connections, connection.provider);
            let ghost before = user@;
            let mut user = user;
            if at < user.connections.len() {
                if user.connections[at].same(&connection) {
                    Ok(Reconciled { user, write: Write::Nothing })
                } else {
                    user.connections.set(at, connection);
                    proof {
                        assert(user@.connections =~= before.connections.update(
                            at as int,
                            connection@,
                        ));
                    }
                    Ok(Reconciled { user, write: Write::UpdateConnection { index: at } })
                }
            } else {
                user.connections.push(connection);
                proof {
                    assert(user@.connections =~= before.connections.push(connection@));
                }
                Ok(Reconciled { user, write: Write::InsertConnection })
            }
        },
        None => match get_email_domain(email.as_str()) {
            None => Err(UserError::InvalidAddr),
            Some(domain) => {
                if !is_allowed_domain(allowed, &domain) {
                    return Err(UserError::DomainNotAllowed);
                }
                let mut connections: Vec<Connection> = Vec::new();
                connections.push(connection);
                let user = UserDocument {
                    id: new_id,
                    email,
                    connections,
                    roles: Vec::new(),
                    can_login: true,
                    verified: true,
                    last_session_at: None,
                };
                proof {
                    assert(user@.connections =~= seq![connection@]);
                    assert(user@.roles =~= Seq::<Seq<char>>::empty());
                }
                Ok(Reconciled { user, write: Write::InsertUser })
            },
        },
    }
}

/// What `first_of_provider` returns: no connection before that place is to
/// the provider, and the one at that place, if there is one, is.
pub proof fn lemma_first_of_provider(connections: Seq<ConnectionView>, provider: Provider)
    ensures
        0 <= first_of_provider(connections, provider) <= connections.len(),
        forall|k: int|
            0 <= k < first_of_provider(connections, provider) ==> (
            #[trigger] connections[k]).provider != provider,
        first_of_provider(connections, provider) < connections.len()
            ==> connections[first_of_provider(connections, provider)].provider == provider,
    decreases connections.len(),
{
    if connections.len() > 0 && connections[0].provider != provider {
        let rest = connections.drop_first();
        lemma_first_of_provider(rest, provider);
        assert forall|k: int|
            0 <= k < first_of_provider(connections, provider) implies (
        #[trigger] connections[k]).provider != provider by {
            if k > 0 {
                assert(rest[k - 1] == connections[k]);
            }
        }
    }
}

/// A place with a connection to the provider, before which none is to it, is
/// the one that `first_of_provider` returns.
pub proof fn lemma_first_of_provider_is(
    connections: Seq<ConnectionView>,
    provider: Provider,
    at: int,
)
    requires
        0 <= at < connections.len(),
        connections[at].provider == provider,
        forall|k: int| 0 <= k < at ==> (#[trigger] connections[k]).provider != provider,
    ensures
        first_of_provider(connections, provider) == at,
{
    lemma_first_of_provider(connections, provider);
}

/// A second reconciliation of the same identity finds the account that the
/// first one left and changes nothing: it returns that account, with the
/// same identifier, and asks for no write.
pub proof fn lemma_reconcile_settles(
    found: Option<UserView>,
    connection: ConnectionView,
    email: Seq<char>,
    allowed: Seq<String>,
    new_id: Seq<char>,
    other_id: Seq<char>,
)
    requires
        reconciliation(found, connection, email, allowed, new_id) is Ok,
    ensures
        ({
            let first = reconciliation(found, connection, email, allowed, new_id)->Ok_0;
            reconciliation(Some(first.0), connection, email, allowed, other_id) == Ok::<
                (UserView, Write),
                UserError,
            >((first.0, Write::Nothing))
        }),
{
    let first = reconciliation(found, connection, email, allowed, new_id)->Ok_0;
    match found {
        Some(user) => {
            lemma_first_of_provider(user.connections, connection.provider);
            let at = first_of_provider(user.connections, connection.provider);
            if at < user.connections.len() {
                if user.connections[at] != connection {
                    lemma_first_of_provider_is(first.0.connections, connection.provider, at);
                }
            } else {
                lemma_first_of_provider_is(first.0.connections, connection.provider, at);
            }
        },
        None => {
            lemma_first_of_provider_is(first.0.connections, connection.provider, 0);
        },
    }
}

/// Reconciling with a stored account keeps its identifier, email, roles and
/// flags, and touches at most one connection: none where the stored
/// connection is current, exactly the drifted one where it is not, and a
/// new last one where the account had none to the provider.
pub proof fn lemma_reconcile_existing(
    user: UserView,
    connection: ConnectionView,
    email: Seq<char>,
    allowed: Seq<String>,
    new_id: Seq<char>,
)
    requires
        user.connections.len() <= usize::MAX,
    ensures
        reconciliation(Some(user), connection, email, allowed, new_id) is Ok,
        ({
            let (after, write) = reconciliation(Some(user), connection, email, allowed, new_id)->Ok_0;
            &&& after.id == user.id
            &&& after.email == user.email
            &&& after.roles == user.roles
            &&& after.can_login == user.can_login
            &&& after.verified == user.verified
            &&& after.last_session_at == user.last_session_at
            &&& match write {
                Write::Nothing => after == user,
                Write::UpdateConnection { index } => {
                    &&& index < user.connections.len()
                    &&& user.connections[index as int].provider == connection.provider
                    &&& user.connections[index as int] != connection
                    &&& after.connections.len() == user.connections.len()
                    &&& after.connections[index as int] == connection
                    &&& forall|k: int|
                        0 <= k < user.connections.len() && k != index
                            ==> after.connections[k] == user.connections[k]
                },
                Write::InsertConnection => {
                    &&& forall|k: int|
                        0 <= k < user.connections.len() ==> (
                        #[trigger] user.connections[k]).provider != connection.provider
                    &&& after.connections == user.connections.push(connection)
                },
                Write::InsertUser => false,
            }
        }),
{
    lemma_first_of_provider(user.connections, connection.provider);
}

/// Without a stored account, an account is created exactly when the email
/// has a domain and the domain is allowed; it then holds the one connection
/// and no role. Otherwise the call fails and there is no account to write.
pub proof fn lemma_reconcile_first_login(
    connection: ConnectionView,
    email: Seq<char>,
    allowed: Seq<String>,
    new_id: Seq<char>,
)
    ensures
        match reconciliation(None, connection, email, allowed, new_id) {
            Ok((after, write)) => {
                &&& email_domain(email) is Some
                &&& domain_allowed(allowed, email_domain(email)->Some_0)
                &&& write == Write::InsertUser
                &&& after.id == new_id
                &&& after.email == email
                &&& after.connections == seq![connection]
                &&& after.connections.len() == 1
                &&& after.roles.len() == 0
                &&& after.can_login
                &&& after.verified
            },
            Err(UserError::InvalidAddr) => email_domain(email) is None,
            Err(UserError::DomainNotAllowed) => email_domain(email) is Some && !domain_allowed(
                allowed,
                email_domain(email)->Some_0,
            ),
            Err(_) => false,
        },
{
}

/// After a reconciliation the account holds the fresh connection, so that
/// the combined query finds an account by its connection the next time.
pub proof fn lemma_reconciled_is_connected(
    found: Option<UserView>,
    connection: ConnectionView,
    email: Seq<char>,
    allowed: Seq<String>,
    new_id: Seq<char>,
)
    requires
        reconciliation(found, connection, email, allowed, new_id) is Ok,
    ensures
        ({
            let after = reconciliation(found, connection, email, allowed, new_id)->Ok_0.0;
            &&& has_connection(after, connection.provider, connection.user_id)
            &&& exists|k: int| 0 <= k < after.connections.len() && after.connections[k] == connection
        }),
{
    let after = reconciliation(found, connection, email, allowed, new_id)->Ok_0.0;
    match found {
        Some(user) => {
            lemma_first_of_provider(user.connections, connection.provider);
            let at = first_of_provider(user.connections, connection.provider);
            assert(after.connections[at] == connection);
        },
        None => {
            assert(after.connections[0] == connection);
        },
    }
}

} // verus!
