use vstd::prelude::*;

verus! {

/// An immutable (email, password) pair. It is owned by the session engine for
/// the lifetime of one run and never changes after construction.
pub struct Account {
    email: String,
    password: String,
}

impl Account {
    /// The account's email address.
    pub closed spec fn spec_email(&self) -> Seq<char> {
        self.email@
    }

    /// The account's password.
    pub closed spec fn spec_password(&self) -> Seq<char> {
        self.password@
    }

    pub fn new(email: String, password: String) -> (a: Account)
        ensures
            a.spec_email() == email@,
            a.spec_password() == password@,
    {
        Account { email, password }
    }

    pub fn email(&self) -> (r: &str)
        ensures
            r@ == self.spec_email(),
    {
        &self.email
    }

    pub fn password(&self) -> (r: &str)
        ensures
            r@ == self.spec_password(),
    {
        &self.password
    }
}

} // verus!
