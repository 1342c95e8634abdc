//! Users.

use vstd::prelude::*;

verus! {

/// A row of `users`.
#[derive(Clone, Debug, PartialEq, Eq)]
pub struct User {
    pub user_id: i64,
    pub name: String,
    pub username: String,
    pub password: String,
    pub email: String,
}

/// What a [`User`] holds.
pub struct UserView {
    pub user_id: i64,
    pub name: Seq<char>,
    pub username: Seq<char>,
    pub password: Seq<char>,
    pub email: Seq<char>,
}

impl View for User {
    type V = UserView;

    open spec fn view(&self) -> UserView {
        UserView {
            user_id: self.user_id,
            name: self.name@,
            username: self.username@,
            password: self.password@,
            email: self.email@,
        }
    }
}

} // verus!
