//! The account record that signup stores and signin reads.

use vstd::prelude::*;

verus! {

/// An account. In a request `password` is the plaintext that the caller
/// typed; in the store it is the digest of that plaintext.
#[derive(Clone, Debug, PartialEq, Eq)]
pub struct User {
    pub user_id: String,
    pub email: String,
    pub password: String,
}

/// An account as plain mathematical values.
pub struct UserView {
    pub user_id: Seq<char>,
    pub email: Seq<char>,
    pub password: Seq<char>,
}

impl View for User {
    type V = UserView;

    open spec fn view(&self) -> UserView {
        UserView { user_id: self.user_id@, email: self.email@, password: self.password@ }
    }
}

} // verus!
