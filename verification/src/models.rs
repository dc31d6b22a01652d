//! Data model of the persistence layer that the core hands records to:
//! user roles and the user-creation request.

use vstd::prelude::*;
use vstd::string::*;
use crate::text::{lower_of, lowercase, str_eq_check};

verus! {

/// A user's role.
#[derive(Clone, Copy, PartialEq, Eq, Structural, Debug)]
pub enum UserRole {
    Admin,
    User,
}

/// The canonical text of a role.
pub open spec fn spec_role_text(r: UserRole) -> Seq<char> {
    match r {
        UserRole::Admin => "admin"@,
        UserRole::User => "user"@,
    }
}

/// How a role is read from text: case-insensitively, with the offending
/// input echoed in the error.
pub open spec fn spec_role_from(s: Seq<char>) -> Result<UserRole, Seq<char>> {
    if lower_of(s) == "admin"@ {
        Ok(UserRole::Admin)
    } else if lower_of(s) == "user"@ {
        Ok(UserRole::User)
    } else {
        Err("Invalid role: "@.add(s))
    }
}

impl UserRole {
    /// The canonical text of the role.
    pub fn as_text(&self) -> (r: String)
        ensures
            r@ == spec_role_text(*self),
    {
        match self {
            UserRole::Admin => "admin".to_owned(),
            UserRole::User => "user".to_owned(),
        }
    }

    /// Read a role from text, ignoring case.
    pub fn from_str(s: &str) -> (r: Result<UserRole, String>)
        ensures
            match r {
                Ok(v) => spec_role_from(s@) == Ok::<UserRole, Seq<char>>(v),
                Err(e) => spec_role_from(s@) matches Err(m) && e@ == m,
            },
    {
        let lowered = lowercase(s);
        if str_eq_check(lowered.as_str(), "admin") {
            Ok(UserRole::Admin)
        } else if str_eq_check(lowered.as_str(), "user") {
            Ok(UserRole::User)
        } else {
            let mut e = String::new();
            e.append("Invalid role: ");
            e.append(s);
            proof {
                assert(e@ =~= "Invalid role: "@.add(s@));
            }
            Err(e)
        }
    }
}

/// A request to create a user.
pub struct CreateUser {
    pub username: String,
    pub email: String,
    pub password: String,
    pub role: Option<UserRole>,
}

} // verus!
