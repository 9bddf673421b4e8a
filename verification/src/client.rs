//! The requests on API clients: what each may do by the scope of the
//! session that makes it, and what it asks of the storage.

use crate::scope::Scope;
use crate::token::SessionClaims;
use vstd::prelude::*;
use vstd::string::StrSliceExecFns;

verus! {

/// Why a request on API clients was refused.
#[derive(Clone, Copy, Debug, PartialEq, Eq, Structural)]
pub enum RequestError {
    /// The client's identifier is not one.
    InvalidClientId,
    /// The identifier of a user or a service is not one.
    InvalidId,
    /// The session's scope does not allow the request.
    InsufficientPermission,
    /// The request changes nothing.
    InvalidBody,
}

/// A stored API client. Times are Unix seconds.
#[derive(Clone, Debug, PartialEq, Eq)]
pub struct ClientDocument {
    pub id: String,
    pub user: String,
    pub service: String,
    pub name: String,
    pub scope: Vec<String>,
    pub unlocked: bool,
    pub last_issued: i64,
    pub last_modified: i64,
}

/// An API client as it is shown.
#[derive(Clone, Debug, PartialEq, Eq)]
pub struct ClientResponse {
    pub id: String,
    pub user: String,
    pub service: String,
    pub name: String,
    pub scope: Vec<String>,
    pub unlocked: bool,
    pub last_issued: i64,
    pub last_modified: i64,
}

/// The conditions of a listing.
#[derive(Clone, Debug, PartialEq, Eq)]
pub struct Filter {
    pub user: Option<String>,
    pub approved: Option<bool>,
    pub service: Option<String>,
}

/// The body of a request to create a client.
#[derive(Clone, Debug, PartialEq, Eq)]
pub struct CreateRequest {
    pub user: Option<String>,
    pub name: String,
    pub service: String,
    pub scope: Option<Vec<String>>,
}

/// The body of a request to change a client.
#[derive(Clone, Debug, PartialEq, Eq)]
pub struct UpdateRequest {
    pub user: Option<String>,
    pub name: Option<String>,
    pub scope: Option<Vec<String>>,
    pub unlocked: Option<bool>,
}

/// The query for one client: by identifier, and by owner where the session
/// may read its own clients only.
#[derive(Clone, Debug, PartialEq, Eq)]
pub struct ClientQuery {
    pub id: String,
    pub owner: Option<String>,
}

/// The client to create, before the storage has named it.
#[derive(Clone, Debug, PartialEq, Eq)]
pub struct NewClient {
    pub user: String,
    pub name: String,
    pub service: String,
}

/// The change to one client: the fields to set, and the owner the client
/// must have where the session may change its own clients only.
#[derive(Clone, Debug, PartialEq, Eq)]
pub struct ClientUpdate {
    pub id: String,
    pub owner: Option<String>,
    pub user: Option<String>,
    pub unlocked: Option<bool>,
    pub name: Option<String>,
    pub scope: Option<Vec<String>>,
}

/// The text of an optional string.
pub open spec fn text_of(value: Option<String>) -> Option<Seq<char>> {
    match value {
        Some(s) => Some(s@),
        None => None,
    }
}

/// A digit of base sixteen, in either case.
pub open spec fn is_hex_digit(c: char) -> bool {
    ('0' <= c && c <= '9') || ('a' <= c && c <= 'f') || ('A' <= c && c <= 'F')
}

/// The text of a stored identifier: twenty-four digits of base sixteen.
pub open spec fn is_object_id(text: Seq<char>) -> bool {
    text.len() == 24 && forall|i: int| 0 <= i < text.len() ==> is_hex_digit(#[trigger] text[i])
}

/// Whether the text is that of a stored identifier.
pub fn valid_object_id(text: &str) -> (r: bool)
    ensures
        r == is_object_id(text@),
{
    if text.unicode_len() != 24 {
        return false;
    }
    let mut i: usize = 0;
    while i < 24
        invariant
            0 <= i <= 24,
            text@.len() == 24,
            forall|k: int| 0 <= k < i ==> is_hex_digit(#[trigger] text@[k]),
        decreases 24 - i,
    {
        let c = text.get_char(i);
        if !(('0' <= c && c <= '9') || ('a' <= c && c <= 'f') || ('A' <= c && c <= 'F')) {
            return false;
        }
        i += 1;
    }
    true
}

/// Whether an optional identifier, where there is one, is valid.
fn valid_optional_id(value: &Option<String>) -> (r: bool)
    ensures
        r == (value matches Some(s) ==> is_object_id(s@)),
{
    match value {
        Some(s) => valid_object_id(s.as_str()),
        None => true,
    }
}

impl ClientResponse {
    /// The client as it is shown: every field as it is stored.
    pub fn from(doc: ClientDocument) -> (r: ClientResponse)
        ensures
            r.id == doc.id,
            r.user == doc.user,
            r.service == doc.service,
            r.name == doc.name,
            r.scope == doc.scope,
            r.unlocked == doc.unlocked,
            r.last_issued == doc.last_issued,
            r.last_modified == doc.last_modified,
    {
        ClientResponse {
            id: doc.id,
            user: doc.user,
            service: doc.service,
            name: doc.name,
            scope: doc.scope,
            unlocked: doc.unlocked,
            last_issued: doc.last_issued,
            last_modified: doc.last_modified,
        }
    }
}

/// The user whose clients a session lists: its own, unless it has the
/// scope to read all clients; then the one it asked for, if any.
pub open spec fn listed_user(claims: SessionClaims, filter: Filter) -> Option<Seq<char>> {
    if claims.scope.client_read {
        text_of(filter.user)
    } else {
        Some(claims.sub@)
    }
}

/// An optional identifier, where there is one, is valid.
pub open spec fn is_optional_id(value: Option<Seq<char>>) -> bool {
    value matches Some(text) ==> is_object_id(text)
}

/// The conditions under which a session lists clients. Without the scope
/// to read all clients it sees its own only, whatever user it asked for.
pub fn list(claims: &SessionClaims, filter: Filter) -> (r: Result<Filter, RequestError>)
    ensures
        match r {
            Ok(query) => {
                &&& is_optional_id(listed_user(*claims, filter))
                &&& is_optional_id(text_of(filter.service))
                &&& text_of(query.user) == listed_user(*claims, filter)
                &&& query.approved == filter.approved
                &&& query.service == filter.service
            },
            Err(e) => e == RequestError::InvalidId && !(is_optional_id(
                listed_user(*claims, filter),
            ) && is_optional_id(text_of(filter.service))),
        },
{
    let user = if !claims.scope.contains(Scope::ClientRead) {
        Some(claims.sub.clone())
    } else {
        filter.user
    };
    if !valid_optional_id(&user) || !valid_optional_id(&filter.service) {
        return Err(RequestError::InvalidId);
    }
    Ok(Filter { user, approved: filter.approved, service: filter.service })
}

/// The query by which a session reads one client. Without the scope to
/// read all clients the client must be its own.
pub fn get_by_id(id: String, claims: &SessionClaims) -> (r: Result<ClientQuery, RequestError>)
    ensures
        match r {
            Ok(query) => {
                &&& is_object_id(id@)
                &&& query.id == id
                &&& text_of(query.owner) == if claims.scope.client_read {
                    None
                } else {
                    Some(claims.sub@)
                }
                &&& query.owner matches Some(o) ==> is_object_id(o@)
            },
            Err(RequestError::InvalidClientId) => !is_object_id(id@),
            Err(RequestError::InvalidId) => is_object_id(id@) && !claims.scope.client_read
                && !is_object_id(claims.sub@),
            Err(_) => false,
        },
{
    if !valid_object_id(id.as_str()) {
        return Err(RequestError::InvalidClientId);
    }
    let owner = if !claims.scope.contains(Scope::ClientRead) {
        if !valid_object_id(claims.sub.as_str()) {
            return Err(RequestError::InvalidId);
        }
        Some(claims.sub.clone())
    } else {
        None
    };
    Ok(ClientQuery { id, owner })
}

/// The client that a session may create. It belongs to the session's user,
/// or, with the scope to write all clients, to the user named.
pub fn create(claims: &SessionClaims, body: CreateRequest) -> (r: Result<NewClient, RequestError>)
    ensures
        match r {
            Ok(client) => {
                &&& body.user matches Some(u) ==> claims.scope.client_write || claims.sub@ == u@
                &&& client.user@ == match body.user {
                    Some(u) => u@,
                    None => claims.sub@,
                }
                &&& is_object_id(client.user@)
                &&& is_object_id(client.service@)
                &&& client.service == body.service
                &&& client.name == body.name
            },
            Err(RequestError::InsufficientPermission) => body.user matches Some(u)
                && !claims.scope.client_write && claims.sub@ != u@,
            Err(RequestError::InvalidId) => (body.user matches Some(u) ==> claims.scope.client_write
                || claims.sub@ == u@) && !(is_object_id(
                match body.user {
                    Some(u) => u@,
                    None => claims.sub@,
                },
            ) && is_object_id(body.service@)),
            Err(_) => false,
        },
{
    let user = match body.user {
        Some(id) => {
            if !claims.scope.contains(Scope::ClientWrite) && claims.sub != id {
                return Err(RequestError::InsufficientPermission);
            }
            id
        },
        None => claims.sub.clone(),
    };
    if !valid_object_id(user.as_str()) || !valid_object_id(body.service.as_str()) {
        return Err(RequestError::InvalidId);
    }
    Ok(NewClient { user, name: body.name, service: body.service })
}

/// The stored form of a client just created: locked, never issued, with
/// the default scope of its service.
pub fn new_document(client: NewClient, id: String, scope_default: Vec<String>, now: i64) -> (r:
    ClientDocument)
    ensures
        r.id == id,
        r.user == client.user,
        r.name == client.name,
        r.service == client.service,
        r.scope == scope_default,
        !r.unlocked,
        r.last_issued == 0,
        r.last_modified == now,
{
    ClientDocument {
        id,
        user: client.user,
        name: client.name,
        service: client.service,
        scope: scope_default,
        unlocked: false,
        last_issued: 0,
        last_modified: now,
    }
}

/// The change that a session may make to a client. Name and scope are open
/// to the owner; the owner and the lock only to a session with the scope to
/// write all clients, and are passed over otherwise. A change of nothing is
/// refused.
pub fn update(id: String, claims: &SessionClaims, body: UpdateRequest) -> (r: Result<
    ClientUpdate,
    RequestError,
>)
    ensures
        match r {
            Ok(change) => {
                &&& is_object_id(id@)
                &&& change.id == id
                &&& change.name == body.name
                &&& change.scope == body.scope
                &&& change.user == if claims.scope.client_write {
                    body.user
                } else {
                    None
                }
                &&& change.unlocked == if claims.scope.client_write {
                    body.unlocked
                } else {
                    None
                }
                &&& change.user matches Some(u) ==> is_object_id(u@)
                &&& text_of(change.owner) == if claims.scope.client_write {
                    None
                } else {
                    Some(claims.sub@)
                }
                &&& change.owner matches Some(o) ==> is_object_id(o@)
                &&& change.user is Some || change.unlocked is Some || change.name is Some
                    || change.scope is Some
            },
            Err(RequestError::InvalidClientId) => !is_object_id(id@),
            Err(RequestError::InvalidId) => is_object_id(id@) && if claims.scope.client_write {
                body.user matches Some(u) && !is_object_id(u@)
            } else {
                (body.name is Some || body.scope is Some) && !is_object_id(claims.sub@)
            },
            Err(RequestError::InvalidBody) => is_object_id(id@) && body.name is None && body.scope
                is None && (claims.scope.client_write ==> body.unlocked is None && body.user
                is None),
            Err(_) => false,
        },
{
    if !valid_object_id(id.as_str()) {
        return Err(RequestError::InvalidClientId);
    }
    let all = claims.scope.contains(Scope::ClientWrite);
    let mut user: Option<String> = None;
    let mut unlocked: Option<bool> = None;
    if all {
        if !valid_optional_id(&body.user) {
            return Err(RequestError::InvalidId);
        }
        user = body.user;
        unlocked = body.unlocked;
    }
    if user.is_none() && unlocked.is_none() && body.name.is_none() && body.scope.is_none() {
        return Err(RequestError::InvalidBody);
    }
    let owner = if !all {
        if !valid_object_id(claims.sub.as_str()) {
            return Err(RequestError::InvalidId);
        }
        Some(claims.sub.clone())
    } else {
        None
    };
    Ok(ClientUpdate { id, owner, user, unlocked, name: body.name, scope: body.scope })
}

/// The identifier of the client that a session may delete: only the scope
/// to write all clients allows it.
pub fn delete(id: String, claims: &SessionClaims) -> (r: Result<String, RequestError>)
    ensures
        match r {
            Ok(client) => claims.scope.client_write && is_object_id(id@) && client == id,
            Err(RequestError::InsufficientPermission) => !claims.scope.client_write,
            Err(RequestError::InvalidClientId) => claims.scope.client_write && !is_object_id(id@),
            Err(_) => false,
        },
{
    if !claims.scope.contains(Scope::ClientWrite) {
        return Err(RequestError::InsufficientPermission);
    }
    if !valid_object_id(id.as_str()) {
        return Err(RequestError::InvalidClientId);
    }
    Ok(id)
}

} // verus!
