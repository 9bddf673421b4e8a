//! Permission scopes and the mapping from stored roles to scopes.

use vstd::prelude::*;
use vstd::string::StringExecFns;

verus! {

/// A permission unit that gates one class of operations.
#[derive(Clone, Copy, Debug, PartialEq, Eq, Structural)]
pub enum Scope {
    /// Read the API clients of every user.
    ClientRead,
    /// Create, change and delete the API clients of every user.
    ClientWrite,
}

/// One line of the role table: holders of `role` are granted `scope`.
#[derive(Clone, Debug, PartialEq, Eq)]
pub struct RoleGrant {
    pub role: String,
    pub scope: Scope,
}

/// A set of scopes. Each scope is a flag, so no scope can occur twice and
/// no order exists.
#[derive(Clone, Copy, Debug, PartialEq, Eq, Structural)]
pub struct ScopeSet {
    pub client_read: bool,
    pub client_write: bool,
}

/// `table` grants `scope` to a holder of one of `roles`.
pub open spec fn grants(table: Seq<RoleGrant>, roles: Seq<String>, scope: Scope) -> bool {
    exists|i: int, j: int|
        0 <= i < table.len() && 0 <= j < roles.len() && #[trigger] table[i].scope == scope
            && table[i].role@ == (#[trigger] roles[j])@
}

/// `role` is one of `roles`.
pub open spec fn holds_role(roles: Seq<String>, role: Seq<char>) -> bool {
    exists|k: int| 0 <= k < roles.len() && (#[trigger] roles[k])@ == role
}

/// The scopes that `table` grants to a holder of `roles`.
pub open spec fn granted_scopes(table: Seq<RoleGrant>, roles: Seq<String>) -> Set<Scope> {
    Set::new(|s: Scope| grants(table, roles, s))
}

/// The scopes that `table` grants to a holder of `roles`, as a `ScopeSet`.
pub open spec fn scope_set_for(table: Seq<RoleGrant>, roles: Seq<String>) -> ScopeSet {
    ScopeSet {
        client_read: grants(table, roles, Scope::ClientRead),
        client_write: grants(table, roles, Scope::ClientWrite),
    }
}

/// The name under which a scope travels in a token.
pub open spec fn scope_name(scope: Scope) -> Seq<char> {
    match scope {
        Scope::ClientRead => "client:read"@,
        Scope::ClientWrite => "client:write"@,
    }
}

/// The names of the scopes of `set`, in the order of declaration.
pub open spec fn scope_names(set: ScopeSet) -> Seq<Seq<char>> {
    let read = if set.client_read {
        seq![scope_name(Scope::ClientRead)]
    } else {
        Seq::<Seq<char>>::empty()
    };
    let write = if set.client_write {
        seq![scope_name(Scope::ClientWrite)]
    } else {
        Seq::<Seq<char>>::empty()
    };
    read + write
}

/// The set named by `names`, or `None` where a name is no scope's.
pub open spec fn scopes_named(names: Seq<Seq<char>>) -> Option<ScopeSet>
    decreases names.len(),
{
    if names.len() == 0 {
        Some(ScopeSet { client_read: false, client_write: false })
    } else {
        match scopes_named(names.drop_last()) {
            None => None,
            Some(rest) => if names.last() == scope_name(Scope::ClientRead) {
                Some(ScopeSet { client_read: true, client_write: rest.client_write })
            } else if names.last() == scope_name(Scope::ClientWrite) {
                Some(ScopeSet { client_read: rest.client_read, client_write: true })
            } else {
                None
            },
        }
    }
}

impl View for ScopeSet {
    type V = Set<Scope>;

    open spec fn view(&self) -> Set<Scope> {
        Set::new(
            |s: Scope|
                match s {
                    Scope::ClientRead => self.client_read,
                    Scope::ClientWrite => self.client_write,
                },
        )
    }
}

impl Scope {
    /// The name under which the scope travels in a token.
    pub fn name(&self) -> (r: String)
        ensures
            r@ == scope_name(*self),
    {
        match self {
            Scope::ClientRead => String::from_str("client:read"),
            Scope::ClientWrite => String::from_str("client:write"),
        }
    }
}

impl ScopeSet {
    /// The set without any scope.
    pub fn empty() -> (r: ScopeSet)
        ensures
            r@ == Set::<Scope>::empty(),
            r == (ScopeSet { client_read: false, client_write: false }),
    {
        let r = ScopeSet { client_read: false, client_write: false };
        assert(r@ =~= Set::<Scope>::empty());
        r
    }

    /// Whether `required` is in the set: the test every gated operation makes.
    pub fn contains(&self, required: Scope) -> (r: bool)
        ensures
            r == self@.contains(required),
    {
        match required {
            Scope::ClientRead => self.client_read,
            Scope::ClientWrite => self.client_write,
        }
    }

    /// The set with `scope` added.
    pub fn insert(&self, scope: Scope) -> (r: ScopeSet)
        ensures
            r@ == self@.insert(scope),
    {
        let r = match scope {
            Scope::ClientRead => ScopeSet { client_read: true, client_write: self.client_write },
            Scope::ClientWrite => ScopeSet { client_read: self.client_read, client_write: true },
        };
        assert(r@ =~= self@.insert(scope));
        r
    }

    /// The names of the set's scopes, as a token carries them.
    pub fn names(&self) -> (r: Vec<String>)
        ensures
            r@.len() == scope_names(*self).len(),
            forall|i: int| 0 <= i < r@.len() ==> (#[trigger] r@[i])@ == scope_names(*self)[i],
    {
        let mut out: Vec<String> = Vec::new();
        if self.client_read {
            out.push(Scope::ClientRead.name());
        }
        if self.client_write {
            out.push(Scope::ClientWrite.name());
        }
        out
    }

    /// Reads a set from the names a token carries. A name that belongs to
    /// no scope makes the whole list invalid.
    pub fn from_names(names: &Vec<String>) -> (r: Option<ScopeSet>)
        ensures
            r == scopes_named(names@.map_values(|s: String| s@)),
    {
        let ghost all = names@.map_values(|s: String| s@);
        let read = Scope::ClientRead.name();
        let write = Scope::ClientWrite.name();
        let mut set = ScopeSet { client_read: false, client_write: false };
        let mut i: usize = 0;
        while i < names.len()
            invariant
                0 <= i <= names.len(),
                all == names@.map_values(|s: String| s@),
                read@ == scope_name(Scope::ClientRead),
                write@ == scope_name(Scope::ClientWrite),
                scopes_named(all.take(i as int)) == Some(set),
            decreases names.len() - i,
        {
            proof {
                assert(all.take(i + 1).drop_last() =~= all.take(i as int));
                assert(all.take(i + 1).last() == names@[i as int]@);
            }
            if names[i] == read {
                set = ScopeSet { client_read: true, client_write: set.client_write };
            } else if names[i] == write {
                set = ScopeSet { client_read: set.client_read, client_write: true };
            } else {
                proof {
                    lemma_bad_name_spoils(all, i as int);
                }
                return None;
            }
            i += 1;
        }
        proof {
            assert(all.take(i as int) =~= all);
        }
        Some(set)
    }
}

/// Once a prefix of `names` is invalid, the whole list is.
proof fn lemma_bad_name_spoils(names: Seq<Seq<char>>, i: int)
    requires
        0 <= i < names.len(),
        scopes_named(names.take(i + 1)) is None,
    ensures
        scopes_named(names) is None,
    decreases names.len() - i,
{
    if i + 1 < names.len() {
        assert(names.take(i + 2).drop_last() =~= names.take(i + 1));
        lemma_bad_name_spoils(names, i + 1);
    } else {
        assert(names.take(i + 1) =~= names);
    }
}

/// Whether `table` grants `scope` to a holder of one of `roles`.
pub fn is_granted(table: &Vec<RoleGrant>, roles: &Vec<String>, scope: Scope) -> (r: bool)
    ensures
        r == grants(table@, roles@, scope),
{
    let mut i: usize = 0;
    while i < table.len()
        invariant
            0 <= i <= table.len(),
            forall|a: int, b: int|
                0 <= a < i && 0 <= b < roles@.len() ==> !(#[trigger] table@[a].scope == scope
                    && table@[a].role@ == (#[trigger] roles@[b])@),
        decreases table.len() - i,
    {
        if table[i].scope == scope {
            let mut j: usize = 0;
            while j < roles.len()
                invariant
                    0 <= j <= roles.len(),
                    i < table.len(),
                    table@[i as int].scope == scope,
                    forall|b: int|
                        0 <= b < j ==> table@[i as int].role@ != (#[trigger] roles@[b])@,
                decreases roles.len() - j,
            {
                if table[i].role == roles[j] {
                    return true;
                }
                j += 1;
            }
        }
        i += 1;
    }
    false
}

/// The scopes of a user who holds `roles`, by the role table `table`. A role
/// that the table does not list contributes nothing.
pub fn scopes_for(table: &Vec<RoleGrant>, roles: &Vec<String>) -> (r: ScopeSet)
    ensures
        r@ == granted_scopes(table@, roles@),
        r == scope_set_for(table@, roles@),
{
    let r = ScopeSet {
        client_read: is_granted(table, roles, Scope::ClientRead),
        client_write: is_granted(table, roles, Scope::ClientWrite),
    };
    assert(r@ =~= granted_scopes(table@, roles@));
    r
}

/// Every scope in the result of `scopes_for` comes from a line of the table
/// whose role is among the roles given; without roles, or without a table,
/// the result is empty.
pub proof fn lemma_scopes_only_from_held_roles(
    table: Seq<RoleGrant>,
    roles: Seq<String>,
    scope: Scope,
)
    ensures
        granted_scopes(table, roles).contains(scope) ==> exists|i: int, j: int|
            0 <= i < table.len() && 0 <= j < roles.len() && #[trigger] table[i].scope == scope
                && table[i].role@ == (#[trigger] roles[j])@,
        roles.len() == 0 ==> granted_scopes(table, roles) == Set::<Scope>::empty(),
        table.len() == 0 ==> granted_scopes(table, roles) == Set::<Scope>::empty(),
{
    if roles.len() == 0 || table.len() == 0 {
        assert(granted_scopes(table, roles) =~= Set::<Scope>::empty());
    }
}

/// The scopes depend on which roles are held, not on how the roles are
/// listed: two lists that hold the same roles, in any order and any number
/// of times, give the same scopes.
pub proof fn lemma_scopes_of_same_roles(
    table: Seq<RoleGrant>,
    first: Seq<String>,
    second: Seq<String>,
)
    requires
        forall|j: int| 0 <= j < first.len() ==> holds_role(second, (#[trigger] first[j])@),
        forall|k: int| 0 <= k < second.len() ==> holds_role(first, (#[trigger] second[k])@),
    ensures
        scope_set_for(table, first) == scope_set_for(table, second),
        granted_scopes(table, first) == granted_scopes(table, second),
{
    assert forall|s: Scope| grants(table, first, s) == grants(table, second, s) by {
        if grants(table, first, s) {
            let (i, j) = choose|i: int, j: int|
                0 <= i < table.len() && 0 <= j < first.len() && #[trigger] table[i].scope == s
                    && table[i].role@ == (#[trigger] first[j])@;
            assert(holds_role(second, first[j]@));
            let k = choose|k: int| 0 <= k < second.len() && (#[trigger] second[k])@ == first[j]@;
            assert(table[i].scope == s && table[i].role@ == second[k]@);
        }
        if grants(table, second, s) {
            let (i, k) = choose|i: int, k: int|
                0 <= i < table.len() && 0 <= k < second.len() && #[trigger] table[i].scope == s
                    && table[i].role@ == (#[trigger] second[k])@;
            assert(holds_role(first, second[k]@));
            let j = choose|j: int| 0 <= j < first.len() && (#[trigger] first[j])@ == second[k]@;
            assert(table[i].scope == s && table[i].role@ == first[j]@);
        }
    }
    assert(granted_scopes(table, first) =~= granted_scopes(table, second));
}

/// A set read back from its own names is the set itself.
pub proof fn lemma_names_round_trip(set: ScopeSet)
    ensures
        scopes_named(scope_names(set)) == Some(set),
{
    reveal_strlit("client:read");
    reveal_strlit("client:write");
    let names = scope_names(set);
    assert("client:read"@.len() != "client:write"@.len());
    reveal_with_fuel(scopes_named, 3);
    if set.client_read && set.client_write {
        assert(names.drop_last() =~= seq![scope_name(Scope::ClientRead)]);
        assert(names.drop_last().drop_last() =~= Seq::<Seq<char>>::empty());
    } else if set.client_read || set.client_write {
        assert(names.drop_last() =~= Seq::<Seq<char>>::empty());
    }
}

} // verus!
