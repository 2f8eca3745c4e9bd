use vstd::prelude::*;

use crate::credentials::Credentials;
use crate::credentials::password_key;
use crate::credentials::username_key;

verus! {

/// An authentication request ready for the remote identity service: the
/// stored credentials travel as key/value parameters under the two
/// required keys.
#[derive(Debug)]
pub struct AuthRequest {
    pub client_id: String,
    /// Parameter name/value pairs submitted to the authentication
    /// endpoint.
    pub parameters: Vec<(String, String)>,
}

/// The parameters are exactly the credentials mapping: `USERNAME` bound to
/// the stored username, `PASSWORD` bound to the stored password.
pub open spec fn parameters_carry_credentials(
    parameters: Seq<(String, String)>,
    credentials: Credentials,
) -> bool {
    &&& parameters.len() == 2
    &&& parameters[0].0@ == username_key()
    &&& parameters[0].1 == credentials.username
    &&& parameters[1].0@ == password_key()
    &&& parameters[1].1 == credentials.password
}

/// Builds the authentication request from the credentials the
/// registration step produced: both required keys are present, bound to
/// the stored values, and nothing else is submitted.
pub fn build_auth_request(client_id: String, credentials: &Credentials) -> (r: AuthRequest)
    ensures
        r.client_id == client_id,
        parameters_carry_credentials(r.parameters@, *credentials),
{
    let mut parameters: Vec<(String, String)> = Vec::new();
    parameters.push((String::from_str("USERNAME"), credentials.username.clone()));
    parameters.push((String::from_str("PASSWORD"), credentials.password.clone()));
    AuthRequest { client_id, parameters }
}

} // verus!
