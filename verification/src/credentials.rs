use vstd::prelude::*;

verus! {

/// The username/password pair produced by the registration step and
/// consumed, unchanged, by the authentication step.
///
/// The pair is a mapping with exactly two required keys, `USERNAME` and
/// `PASSWORD`; `as_map` gives that view.
#[derive(Debug)]
pub struct Credentials {
    pub username: String,
    pub password: String,
}

/// The key under which the username travels to the authentication endpoint.
pub open spec fn username_key() -> Seq<char> {
    "USERNAME"@
}

/// The key under which the password travels to the authentication endpoint.
pub open spec fn password_key() -> Seq<char> {
    "PASSWORD"@
}

impl Credentials {
    /// The mapping view: exactly the two required keys, each bound to the
    /// stored value.
    pub open spec fn as_map(self) -> Map<Seq<char>, Seq<char>> {
        map![username_key() => self.username@, password_key() => self.password@]
    }

    pub fn new(username: String, password: String) -> (r: Credentials)
        ensures
            r.username == username,
            r.password == password,
    {
        Credentials { username, password }
    }

    /// Both required keys are always present in the mapping view, and no
    /// other key is.
    pub proof fn lemma_has_required_keys(self)
        ensures
            self.as_map().contains_key(username_key()),
            self.as_map().contains_key(password_key()),
            self.as_map()[username_key()] == self.username@,
            self.as_map()[password_key()] == self.password@,
    {
        reveal_strlit("USERNAME");
        reveal_strlit("PASSWORD");
        assert(username_key()[0] == 'U' && password_key()[0] == 'P');
        assert(username_key() != password_key());
    }
}

impl Clone for Credentials {
    fn clone(&self) -> (r: Self)
        ensures
            r == *self,
    {
        Credentials { username: self.username.clone(), password: self.password.clone() }
    }
}

} // verus!
