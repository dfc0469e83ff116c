use vstd::prelude::*;

verus! {

/// A registered account: a store-assigned identifier plus profile text.
///
/// The identifier is unique among all users the store ever issued and never
/// changes after creation.
#[derive(Debug)]
pub struct User {
    pub id: u64,
    pub name: String,
    pub email: String,
}

/// The mathematical value of a [`User`]: the identifier together with the
/// character sequences of the profile fields.
pub ghost struct UserView {
    pub id: u64,
    pub name: Seq<char>,
    pub email: Seq<char>,
}

impl View for User {
    type V = UserView;

    open spec fn view(&self) -> UserView {
        UserView { id: self.id, name: self.name@, email: self.email@ }
    }
}

impl Clone for User {
    /// Cloning keeps every field.
    fn clone(&self) -> (res: Self)
        ensures
            res == *self,
    {
        User { id: self.id, name: self.name.clone(), email: self.email.clone() }
    }
}

/// The input to user creation: profile text without an identifier.
///
/// It is consumed by the creation operation; the store assigns the identifier.
pub struct CreateUser {
    pub name: String,
    pub email: String,
}

} // verus!
