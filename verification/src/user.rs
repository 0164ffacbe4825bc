use vstd::prelude::*;

verus! {

/// Credentials held as owned strings, built from borrowed input.
pub struct User {
    email: String,
    password: String,
}

impl User {
    /// The user's email address.
    pub closed spec fn spec_email(&self) -> Seq<char> {
        self.email@
    }

    /// The user's password.
    pub closed spec fn spec_password(&self) -> Seq<char> {
        self.password@
    }

    pub fn new(email: &str, password: &str) -> (u: User)
        ensures
            u.spec_email() == email@,
            u.spec_password() == password@,
    {
        User { email: email.to_owned(), password: password.to_owned() }
    }

    pub fn email(&self) -> (r: &str)
        ensures
            r@ == self.spec_email(),
    {
        self.email.as_str()
    }

    pub fn password(&self) -> (r: &str)
        ensures
            r@ == self.spec_password(),
    {
        self.password.as_str()
    }
}

} // verus!
