//! Users and how to make one.

use vstd::prelude::*;

verus! {

pub struct User {
    pub username: String,
    pub email: String,
    pub sign_in_count: u64,
    pub is_active: bool,
}

/// A new user: active, and signed in once.
pub fn build_user(email: String, username: String) -> (user: User)
    ensures
        user.email == email,
        user.username == username,
        user.is_active,
        user.sign_in_count == 1,
{
    User { email, username, is_active: true, sign_in_count: 1 }
}

} // verus!
