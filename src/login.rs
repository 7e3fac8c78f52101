//! The body of a username and password login.
use vstd::prelude::*;

verus! {

/// Credentials for a username and password login.
pub struct AuthObject {
    username: String,
    password: String,
    password2: Option<String>,
    email: Option<String>,
}

impl AuthObject {
    /// Credentials with a username and a password and nothing else.
    pub fn new(username: String, password: String) -> (r: AuthObject)
        ensures
            r.username() == username@,
            r.password() == password@,
            !r.has_extras(),
    {
        AuthObject { username, password, password2: None, email: None }
    }

    pub closed spec fn username(&self) -> Seq<char> {
        self.username@
    }

    pub closed spec fn password(&self) -> Seq<char> {
        self.password@
    }

    /// Whether a second password or an email is set.
    pub closed spec fn has_extras(&self) -> bool {
        self.password2 is Some || self.email is Some
    }
}

} // verus!
