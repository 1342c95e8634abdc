//! The user behind a request.

use vstd::prelude::*;
use crate::schema::users::User;
use crate::server::rest::UserSelfResponse;
use vstd::std_specs::convert::FromSpec;

verus! {

/// What the user behind a request is told about themselves.
pub fn get_self(user: User) -> (response: UserSelfResponse)
    ensures
        response == UserSelfResponse::from_spec(user),
{
    UserSelfResponse::from(user)
}

} // verus!
