use vstd::prelude::*;
use crate::text::{owned, str_eq};

verus! {

/// The access level of a signed-in (or anonymous) person.
#[derive(Debug, Clone, Copy, PartialEq, Eq, Structural)]
pub enum Role {
    Root,
    User,
    Visitor,
}

/// The numeric rank of a role: the higher, the more it may do.
pub open spec fn role_level(r: Role) -> u8 {
    match r {
        Role::Root => 2,
        Role::User => 1,
        Role::Visitor => 0,
    }
}

/// The stored and displayed name of a role.
pub open spec fn role_name(r: Role) -> Seq<char> {
    match r {
        Role::Root => "root"@,
        Role::User => "user"@,
        Role::Visitor => "visitor"@,
    }
}

/// The role that a stored or submitted name stands for; only `root` and
/// `user` can be chosen, so `visitor` has none.
pub open spec fn role_parse(s: Seq<char>) -> Option<Role> {
    if s == "root"@ {
        Some(Role::Root)
    } else if s == "user"@ {
        Some(Role::User)
    } else {
        None
    }
}

/// The roles that can be given to an account, in the order a form lists them.
pub open spec fn assignable_roles() -> Seq<Role> {
    seq![Role::Root, Role::User]
}

impl Role {
    /// The rank of this role; roles are ordered by it.
    pub fn level(&self) -> (l: u8)
        ensures
            l == role_level(*self),
    {
        match self {
            Role::Root => 2,
            Role::User => 1,
            Role::Visitor => 0,
        }
    }

    /// The roles that can be assigned to an account.
    pub fn all_roles() -> (v: Vec<Role>)
        ensures
            v@ == assignable_roles(),
    {
        let v = vec![Role::Root, Role::User];
        assert(v@ =~= assignable_roles());
        v
    }

    /// The name of this role as stored in the database and shown in forms.
    pub fn as_stringed(&self) -> (s: String)
        ensures
            s@ == role_name(*self),
    {
        match self {
            Role::Root => owned("root"),
            Role::User => owned("user"),
            Role::Visitor => owned("visitor"),
        }
    }

    /// The name of a role (the `From<&Role> for String` conversion).
    pub fn to_name(r: &Role) -> (s: String)
        ensures
            s@ == role_name(*r),
    {
        r.as_stringed()
    }

    /// Reads a role from its name; only `root` and `user` are accepted.
    pub fn try_from(s: &str) -> (r: Result<Role, ()>)
        ensures
            r matches Ok(role) ==> role_parse(s@) == Some(role),
            r is Err ==> role_parse(s@) is None,
    {
        if str_eq(s, "root") {
            Ok(Role::Root)
        } else if str_eq(s, "user") {
            Ok(Role::User)
        } else {
            Err(())
        }
    }

    /// Reads a stored role, falling back to the default role (`User`) when the
    /// stored name is not one that can be assigned.
    pub fn from_stored(s: &str) -> (r: Role)
        ensures
            r == (match role_parse(s@) {
                Some(role) => role,
                None => Role::User,
            }),
    {
        match Role::try_from(s) {
            Ok(role) => role,
            Err(_) => Role::default(),
        }
    }

    /// The options of a role selector: each assignable role's name, and whether
    /// it is the one currently chosen.
    pub fn html_option(&self) -> (v: Vec<(String, bool)>)
        ensures
            v@.len() == assignable_roles().len(),
            forall|i: int| #![trigger v@[i]] 0 <= i < v@.len() ==>
                v@[i].0@ == role_name(assignable_roles()[i])
                && v@[i].1 == (assignable_roles()[i] == *self),
    {
        let roles = Role::all_roles();
        let mut out: Vec<(String, bool)> = Vec::new();
        let mut i: usize = 0;
        while i < roles.len()
            invariant
                roles@ == assignable_roles(),
                i <= roles@.len(),
                out@.len() == i,
                forall|k: int| #![trigger out@[k]] 0 <= k < i ==>
                    out@[k].0@ == role_name(assignable_roles()[k])
                    && out@[k].1 == (assignable_roles()[k] == *self),
            decreases roles@.len() - i,
        {
            let role = roles[i];
            out.push((role.as_stringed(), role == *self));
            i = i + 1;
        }
        out
    }
}

impl Default for Role {
    fn default() -> (r: Role)
        ensures
            r == Role::User,
    {
        Role::User
    }
}

impl PartialOrd for Role {
    fn partial_cmp(&self, other: &Role) -> (r: Option<core::cmp::Ordering>) {
        let a = self.level();
        let b = other.level();
        if a < b {
            Some(core::cmp::Ordering::Less)
        } else if a == b {
            Some(core::cmp::Ordering::Equal)
        } else {
            Some(core::cmp::Ordering::Greater)
        }
    }
}

impl vstd::std_specs::cmp::PartialOrdSpecImpl for Role {
    open spec fn obeys_partial_cmp_spec() -> bool {
        true
    }

    open spec fn partial_cmp_spec(&self, other: &Role) -> Option<core::cmp::Ordering> {
        if role_level(*self) < role_level(*other) {
            Some(core::cmp::Ordering::Less)
        } else if role_level(*self) == role_level(*other) {
            Some(core::cmp::Ordering::Equal)
        } else {
            Some(core::cmp::Ordering::Greater)
        }
    }
}

/// `r` ranks strictly below `other`.
pub open spec fn role_below(r: Role, other: Role) -> bool {
    role_level(r) < role_level(other)
}

/// Whether role `a` ranks strictly below role `b` (roles compare by rank).
pub fn role_less(a: &Role, b: &Role) -> (r: bool)
    ensures
        r == role_below(*a, *b),
{
    a.level() < b.level()
}

/// Every role that can be assigned reads back from its own name.
pub proof fn lemma_role_name_roundtrip(r: Role)
    requires
        r != Role::Visitor,
    ensures
        role_parse(role_name(r)) == Some(r),
{
    reveal_strlit("root");
    reveal_strlit("user");
    assert("root"@[0] != "user"@[0]);
}

/// The anonymous role cannot be read back from its name: no submitted form can
/// give an account the visitor role.
pub proof fn lemma_visitor_not_assignable()
    ensures
        role_parse(role_name(Role::Visitor)) is None,
{
    reveal_strlit("root");
    reveal_strlit("user");
    reveal_strlit("visitor");
    assert("visitor"@.len() != "root"@.len());
    assert("visitor"@.len() != "user"@.len());
}

/// Roles are totally ordered by rank, and the rank tells roles apart.
pub proof fn lemma_role_order_total(a: Role, b: Role)
    ensures
        role_below(a, b) || role_below(b, a) || a == b,
        !(role_below(a, b) && role_below(b, a)),
        role_level(a) == role_level(b) <==> a == b,
{
}

} // verus!
