//! Roles: the closed set of roles, how a role name maps to one, and when a
//! set of claims satisfies a required role.

use crate::auth::jwt::Claims;
use crate::services::error::AppError;
use crate::text::{lowered, lowered_is};
use vstd::prelude::*;
use vstd::string::StringExecFns;

verus! {

#[derive(Debug, Clone, PartialEq, Eq, Structural)]
pub enum Role {
    User,
    Editor,
    Admin,
}

/// The role that a name stands for: `admin` and `editor` in any mix of
/// cases, and `User` for every other name.
pub open spec fn role_of(name: Seq<char>) -> Role {
    if lowered(name) == "admin"@ {
        Role::Admin
    } else if lowered(name) == "editor"@ {
        Role::Editor
    } else {
        Role::User
    }
}

/// A holder of the role named `name` may do what `required` may do.
pub open spec fn grants(name: Seq<char>, required: Role) -> bool {
    role_of(name) == required || role_of(name) == Role::Admin
}

/// Some role name in `roles` grants `required`.
pub open spec fn satisfies(roles: Seq<Seq<char>>, required: Role) -> bool {
    exists|i: int| 0 <= i < roles.len() && grants(#[trigger] roles[i], required)
}

/// Some role name in `roles` grants some role of `required`.
pub open spec fn satisfies_any(roles: Seq<Seq<char>>, required: Seq<Role>) -> bool {
    exists|j: int| 0 <= j < required.len() && satisfies(roles, #[trigger] required[j])
}

impl Role {
    /// The role's name in lower case.
    pub open spec fn spec_name(&self) -> Seq<char> {
        match self {
            Role::User => "user"@,
            Role::Editor => "editor"@,
            Role::Admin => "admin"@,
        }
    }

    pub fn name(&self) -> (r: String)
        ensures
            r@ == self.spec_name(),
    {
        match self {
            Role::User => String::from_str("user"),
            Role::Editor => String::from_str("editor"),
            Role::Admin => String::from_str("admin"),
        }
    }

    /// The role that `role` names.
    pub fn from_name(role: &str) -> (r: Role)
        ensures
            r == role_of(role@),
    {
        if lowered_is(role, "admin") {
            Role::Admin
        } else if lowered_is(role, "editor") {
            Role::Editor
        } else {
            Role::User
        }
    }
}

impl<'a> From<&'a str> for Role {
    fn from(role: &'a str) -> (r: Role) {
        Role::from_name(role)
    }
}

impl<'a> vstd::std_specs::convert::FromSpecImpl<&'a str> for Role {
    open spec fn obeys_from_spec() -> bool {
        true
    }

    open spec fn from_spec(role: &'a str) -> Role {
        role_of(role@)
    }
}

/// Whether the claims hold a role that grants `required_role`.
pub fn has_role(claims: &Claims, required_role: &Role) -> (r: bool)
    ensures
        r == satisfies(claims@.roles, *required_role),
{
    let mut i: usize = 0;
    while i < claims.roles.len()
        invariant
            i <= claims.roles.len(),
            forall|k: int| 0 <= k < i ==> !grants(#[trigger] claims@.roles[k], *required_role),
        decreases claims.roles.len() - i,
    {
        let found: Role = Role::from_name(claims.roles[i].as_str());
        assert(claims@.roles[i as int] == claims.roles@[i as int]@);
        if found == *required_role || found == Role::Admin {
            return true;
        }
        i += 1;
    }
    false
}

/// Whether the claims hold a role that grants one of `required_roles`.
pub fn has_any_role(claims: &Claims, required_roles: &[Role]) -> (r: bool)
    ensures
        r == satisfies_any(claims@.roles, required_roles@),
{
    let mut j: usize = 0;
    while j < required_roles.len()
        invariant
            j <= required_roles.len(),
            forall|k: int| 0 <= k < j ==> !satisfies(claims@.roles, #[trigger] required_roles@[k]),
        decreases required_roles.len() - j,
    {
        if has_role(claims, &required_roles[j]) {
            return true;
        }
        j += 1;
    }
    false
}

/// The text of the refusal for a caller who lacks `required`.
pub open spec fn refusal_text(required: Role) -> Seq<char> {
    "Requires "@ + required.spec_name() + " role"@
}

/// The role check of a route. A request without claims is answered `Unauthorized`, one
/// whose claims do not satisfy `required_role` is answered `Forbidden` with
/// the role's name, and every other request goes on to its handler.
pub fn require_role(required_role: &Role, claims: Option<&Claims>) -> (r: Result<(), AppError>)
    ensures
        match claims {
            None => r matches Err(AppError::Unauthorized(m)) && m@ == "Not authenticated"@,
            Some(c) => if satisfies(c@.roles, *required_role) {
                r is Ok
            } else {
                r matches Err(AppError::Forbidden(m)) && m@ == refusal_text(*required_role)
            },
        },
{
    match claims {
        None => Err(AppError::Unauthorized(String::from_str("Not authenticated"))),
        Some(c) => {
            if has_role(c, required_role) {
                Ok(())
            } else {
                let text: String = String::from_str("Requires ").concat(
                    required_role.name().as_str(),
                ).concat(" role");
                Err(AppError::Forbidden(text))
            }
        },
    }
}

/// A role list that holds a name for `Admin` satisfies every required role.
pub proof fn admin_satisfies_every_role(roles: Seq<Seq<char>>, i: int, required: Role)
    requires
        0 <= i < roles.len(),
        role_of(roles[i]) == Role::Admin,
    ensures
        satisfies(roles, required),
{
    assert(grants(roles[i], required));
}

/// Satisfying one required role is satisfying any list that holds it.
pub proof fn one_role_satisfies_any(roles: Seq<Seq<char>>, required: Seq<Role>, j: int)
    requires
        0 <= j < required.len(),
        satisfies(roles, required[j]),
    ensures
        satisfies_any(roles, required),
{
}

/// An empty role list satisfies no role.
pub proof fn no_roles_satisfy_nothing(required: Role)
    ensures
        !satisfies(Seq::<Seq<char>>::empty(), required),
{
}

/// A name that is neither `admin` nor `editor` in any mix of cases stands
/// for the least role, `User`.
pub proof fn unknown_names_are_users(name: Seq<char>)
    requires
        lowered(name) != "admin"@,
        lowered(name) != "editor"@,
    ensures
        role_of(name) == Role::User,
{
}

} // verus!
