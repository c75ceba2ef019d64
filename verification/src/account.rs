//! Accounts: the signed-in user and what sign-in returns.
use vstd::prelude::*;

use crate::documents::opt_text;

verus! {

/// The signed-in user.
#[derive(Debug, Clone, PartialEq)]
pub struct User {
    pub id: String,
    pub email: String,
    pub username: Option<String>,
    pub avatar_url: Option<String>,
    pub display_name: Option<String>,
}

/// A user as the account endpoints describe it.
#[derive(Debug, Clone, PartialEq)]
pub struct UserData {
    pub id: String,
    pub email: String,
    pub username: Option<String>,
    pub avatar_url: Option<String>,
}

/// The outcome of a sign-in: the session token and the user.
#[derive(Debug, Clone, PartialEq)]
pub struct LoginResult {
    pub token: String,
    pub user: User,
}

/// The changes of a profile update.
#[derive(Debug, Clone, PartialEq)]
pub struct UpdateProfileRequest {
    pub username: Option<String>,
    pub avatar_url: Option<String>,
}

/// The user that the account endpoints describe; no display name is known.
pub fn user_from_data(data: UserData) -> (u: User)
    ensures
        u.id@ == data.id@,
        u.email@ == data.email@,
        opt_text(u.username) == opt_text(data.username),
        opt_text(u.avatar_url) == opt_text(data.avatar_url),
        u.display_name is None,
{
    User {
        id: data.id,
        email: data.email,
        username: data.username,
        avatar_url: data.avatar_url,
        display_name: None,
    }
}

/// What a sign-in reply gives: its token and its user.
pub fn login_result(token: String, user: UserData) -> (r: LoginResult)
    ensures
        r.token@ == token@,
        r.user.id@ == user.id@,
        r.user.email@ == user.email@,
        opt_text(r.user.username) == opt_text(user.username),
        opt_text(r.user.avatar_url) == opt_text(user.avatar_url),
        r.user.display_name is None,
{
    LoginResult { token, user: user_from_data(user) }
}

} // verus!
