//! Signing in and signing up.
//!
//! Hashing a password, signing a token and drawing an id are for the caller.

use vstd::prelude::*;
use crate::schema::users::User;
use crate::server::rest::error;
use crate::server::rest::IrisError;
use crate::server::rest::UserAuthResponse;
use crate::server::rest::UserSelfResponse;
use crate::server::rest::UNAUTHORIZED;
use vstd::std_specs::convert::FromSpec;

verus! {

/// The wish to sign in.
#[derive(Clone, Debug, PartialEq, Eq)]
pub struct LoginRequest {
    pub identifier: String,
    pub password: String,
}

/// The wish to sign up.
#[derive(Clone, Debug, PartialEq, Eq)]
pub struct RegisterRequest {
    pub name: String,
    pub username: String,
    pub password: String,
    pub email: String,
}

/// The name under which a token carries the id of its user.
pub const CLAIM_ID: &'static str = "id";

/// The answer to a wish to sign in.
///
/// `user` is the user that the identifier names, if it names one, and
/// `token` is the token signed for them, which there is if the password
/// matched. Without either the credentials are refused, and the answer
/// does not say which of the two was missing.
pub fn login(user: Option<User>, token: Option<String>) -> (response: Result<
    UserAuthResponse,
    IrisError,
>)
    ensures
        match response {
            Ok(granted) => user is Some && token is Some && granted == (UserAuthResponse {
                user: UserSelfResponse::from_spec(user->0),
                token: token->0,
            }),
            Err(failure) => !(user is Some && token is Some) && failure.status == UNAUTHORIZED
                && failure.message@ == "Invalid credentials"@,
        },
{
    match user {
        Some(user) => match token {
            Some(token) => Ok(UserAuthResponse { user: UserSelfResponse::from(user), token }),
            None => Err(error(UNAUTHORIZED, "Invalid credentials")),
        },
        None => Err(error(UNAUTHORIZED, "Invalid credentials")),
    }
}

/// The row of a user who signs up with `request`, under the id `user_id`
/// and with the password hashed to `password_hash`.
pub fn register(user_id: i64, request: RegisterRequest, password_hash: String) -> (user: User)
    ensures
        user == (User {
            user_id,
            name: request.name,
            username: request.username,
            password: password_hash,
            email: request.email,
        }),
{
    User {
        user_id,
        name: request.name,
        username: request.username,
        password: password_hash,
        email: request.email,
    }
}

/// The answer to a user who has signed up and holds `token`.
pub fn registered(user: User, token: String) -> (response: UserAuthResponse)
    ensures
        response == (UserAuthResponse { user: UserSelfResponse::from_spec(user), token }),
{
    UserAuthResponse { user: UserSelfResponse::from(user), token }
}

} // verus!
