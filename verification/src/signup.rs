use vstd::prelude::*;

use crate::credentials::Credentials;
use crate::credentials::password_key;
use crate::credentials::username_key;

verus! {

/// A registration request ready for the remote identity service: the
/// account is created under `username`/`password`, and the email travels
/// as the single user attribute.
#[derive(Debug)]
pub struct SignupRequest {
    pub client_id: String,
    pub username: String,
    pub password: String,
    /// Attribute name/value pairs attached to the account.
    pub attributes: Vec<(String, String)>,
}

/// The name of the attribute under which the email is attached.
pub open spec fn email_attribute_name() -> Seq<char> {
    "email"@
}

/// Builds the registration request from the three collected values: each
/// value is passed through unchanged, and the email becomes the single
/// `email` attribute.
pub fn build_signup_request(
    client_id: String,
    email: String,
    username: String,
    password: String,
) -> (r: SignupRequest)
    ensures
        r.client_id == client_id,
        r.username == username,
        r.password == password,
        r.attributes@.len() == 1,
        r.attributes@[0].0@ == email_attribute_name(),
        r.attributes@[0].1 == email,
{
    let mut attributes: Vec<(String, String)> = Vec::new();
    attributes.push((String::from_str("email"), email));
    SignupRequest { client_id, username, password, attributes }
}

/// What a successful registration hands on: credentials whose `USERNAME`
/// and `PASSWORD` entries exactly echo the submitted username and
/// password.
pub fn registration_credentials(username: String, password: String) -> (r: Credentials)
    ensures
        r.username == username,
        r.password == password,
        r.as_map()[username_key()] == username@,
        r.as_map()[password_key()] == password@,
{
    let r = Credentials::new(username, password);
    proof {
        r.lemma_has_required_keys();
    }
    r
}

} // verus!
