//! Claims of an authentication token and the checks the middleware
//! applies to them. Signing and verifying the token itself is the
//! embedding program's concern; what goes into the claims and how they
//! gate access is decided here.

use vstd::prelude::*;
use vstd::string::*;
use crate::text::{is_prefix, str_eq_check, str_prefix_check};

verus! {

/// The claims carried by an authentication token.
#[derive(Clone, Debug)]
pub struct Claims {
    pub sub: String,
    pub username: String,
    pub role: String,
    pub exp: usize,
    pub iat: usize,
}

/// Assemble the claims for a user: issued now, expiring `expiration`
/// seconds later.
pub fn make_claims(user_id: &str, username: &str, role: &str, now: usize, expiration: u64) -> (r:
    Claims)
    requires
        now as int + expiration as int <= usize::MAX as int,
    ensures
        r.sub@ == user_id@,
        r.username@ == username@,
        r.role@ == role@,
        r.iat == now,
        r.exp as int == now as int + expiration as int,
{
    Claims {
        sub: user_id.to_owned(),
        username: username.to_owned(),
        role: role.to_owned(),
        exp: now + expiration as usize,
        iat: now,
    }
}

/// The token of a `Bearer` authorization header, if it is one.
pub open spec fn spec_bearer_token(header: Seq<char>) -> Option<Seq<char>> {
    if is_prefix("Bearer "@, header) {
        Some(header.skip(7))
    } else {
        None
    }
}

/// Strip the `Bearer ` scheme off an authorization header.
pub fn extract_bearer_token(header: &str) -> (r: Option<String>)
    ensures
        r.deep_view() == spec_bearer_token(header@),
{
    proof {
        reveal_strlit("Bearer ");
    }
    if str_prefix_check(header, "Bearer ") {
        let n = header.unicode_len();
        let token = header.substring_char(7, n);
        proof {
            assert(token@ =~= header@.skip(7));
        }
        Some(token.to_owned())
    } else {
        None
    }
}

/// Whether these claims grant administrator access.
pub fn is_admin(claims: &Claims) -> (r: bool)
    ensures
        r == (claims.role@ == "admin"@),
{
    str_eq_check(claims.role.as_str(), "admin")
}

} // verus!
