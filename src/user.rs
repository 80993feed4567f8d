use vstd::prelude::*;

verus! {

/// A user of the service, as submitted in a form and as stored.
///
/// When stored, `password` holds a password hash and `confirm_password` is
/// empty; in a submitted form both hold the plaintext the user typed.
#[derive(Clone, Debug, PartialEq, Eq)]
pub struct User {
    pub first_name: String,
    pub last_name: String,
    pub username: String,
    pub email: String,
    pub password: String,
    pub confirm_password: String,
}

/// The mathematical content of a [`User`].
pub ghost struct UserView {
    pub first_name: Seq<char>,
    pub last_name: Seq<char>,
    pub username: Seq<char>,
    pub email: Seq<char>,
    pub password: Seq<char>,
    pub confirm_password: Seq<char>,
}

impl View for User {
    type V = UserView;

    open spec fn view(&self) -> UserView {
        UserView {
            first_name: self.first_name@,
            last_name: self.last_name@,
            username: self.username@,
            email: self.email@,
            password: self.password@,
            confirm_password: self.confirm_password@,
        }
    }
}

impl User {
    /// A field-by-field copy.
    pub fn duplicate(&self) -> (r: User)
        ensures
            r@ == self@,
    {
        User {
            first_name: self.first_name.clone(),
            last_name: self.last_name.clone(),
            username: self.username.clone(),
            email: self.email.clone(),
            password: self.password.clone(),
            confirm_password: self.confirm_password.clone(),
        }
    }
}

} // verus!
