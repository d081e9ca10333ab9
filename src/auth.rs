use vstd::prelude::*;

use crate::errors::{Error, ErrorKind};

verus! {

/// The user name that the default gate admits.
pub const ALLOWED_USERNAME: &'static str = "admin";

/// The password that the default gate admits.
pub const ALLOWED_PASSWORD: &'static str = "admin";

/// A user name and password as a request presents them.
#[derive(Debug, Clone)]
pub struct Credentials {
    pub username: String,
    pub password: String,
}

/// Admits exactly one user name and password pair, fixed when it is made.
#[derive(Debug, Clone)]
pub struct AuthGate {
    username: String,
    password: String,
}

impl AuthGate {
    pub closed spec fn allowed_username(&self) -> Seq<char> {
        self.username@
    }

    pub closed spec fn allowed_password(&self) -> Seq<char> {
        self.password@
    }

    /// Whether `credentials` are the pair this gate admits.
    pub open spec fn admits(&self, credentials: Option<Credentials>) -> bool {
        match credentials {
            Some(c) => c.username@ == self.allowed_username() && c.password@
                == self.allowed_password(),
            None => false,
        }
    }

    /// A gate that admits `username` with `password`.
    pub fn new(username: String, password: String) -> (r: AuthGate)
        ensures
            r.allowed_username() == username@,
            r.allowed_password() == password@,
    {
        AuthGate { username, password }
    }

    /// A gate that admits the default user name and password.
    pub fn fixed() -> (r: AuthGate)
        ensures
            r.allowed_username() == ALLOWED_USERNAME@,
            r.allowed_password() == ALLOWED_PASSWORD@,
    {
        AuthGate { username: ALLOWED_USERNAME.to_owned(), password: ALLOWED_PASSWORD.to_owned() }
    }

    /// Decides whether a request that presents `credentials` (or none) may go on.
    pub fn authorize(&self, credentials: Option<&Credentials>) -> (r: bool)
        ensures
            r == self.admits(
                match credentials {
                    Some(c) => Some(*c),
                    None => None,
                },
            ),
    {
        match credentials {
            Some(c) => c.username == self.username && c.password == self.password,
            None => false,
        }
    }
}

/// Lets a request through, or refuses it as unauthorized, before it reaches
/// the store.
pub fn auth(gate: &AuthGate, credentials: Option<&Credentials>) -> (r: Result<(), Error>)
    ensures
        r is Ok <==> gate.admits(
            match credentials {
                Some(c) => Some(*c),
                None => None,
            },
        ),
        r is Err ==> r->Err_0.kind == ErrorKind::Unauthorized,
{
    if gate.authorize(credentials) {
        Ok(())
    } else {
        Err(Error::with_text(ErrorKind::Unauthorized, "missing or wrong credentials"))
    }
}

} // verus!
