use vstd::prelude::*;

verus! {

/// A verification request ready for the remote identity service: it
/// correlates the collected one-time code with the username being
/// confirmed.
///
/// The code is carried as the raw collected string; the remote service is
/// its sole validator.
#[derive(Debug)]
pub struct ConfirmationRequest {
    pub client_id: String,
    pub username: String,
    pub confirmation_code: String,
}

/// Builds the verification request: every value, the raw code included,
/// is passed through unchanged.
pub fn build_confirmation_request(
    client_id: String,
    username: String,
    confirmation_code: String,
) -> (r: ConfirmationRequest)
    ensures
        r.client_id == client_id,
        r.username == username,
        r.confirmation_code == confirmation_code,
{
    ConfirmationRequest { client_id, username, confirmation_code }
}

} // verus!
