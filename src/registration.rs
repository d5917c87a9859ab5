//! The client side of the OPAQUE password registration. Its values are
//! handed between the two halves of the exchange in serialized form.

use vstd::prelude::*;
use vstd::utf8::encode_utf8;
use lldap_auth::opaque::client::registration as reg;

verus! {

/// A started registration: the client's state, kept for the second half,
/// and the request for the server.
pub struct RegistrationStart {
    pub state: Vec<u8>,
    pub message: Vec<u8>,
}

/// Length of a serialized ristretto255 scalar or group element.
pub const ELEMENT_LEN: usize = 32;

/// The serialized client state of a registration started for `password`:
/// a 32-byte blinding scalar, then the password's UTF-8 bytes as given.
pub open spec fn holds_password(state: Seq<u8>, password: Seq<char>) -> bool {
    &&& state.len() == ELEMENT_LEN + encode_utf8(password).len()
    &&& state.subrange(ELEMENT_LEN as int, state.len() as int) == encode_utf8(password)
}

/// Relies on `lldap_auth::opaque::client::registration::start_registration`
/// (with the operating system's random source), which calls opaque-ke's
/// `ClientRegistration::start` on `password.as_bytes()`. For this cipher
/// suite it cannot fail (the only error path, `expand_message_xmd`'s length
/// check, is not reached with SHA-512). The request serializes to one
/// 32-byte group element; the state serializes to the 32-byte blind
/// followed by the password bytes. The blind, and so the request, is random.
#[verifier::external_body]
pub(crate) fn start_registration(password: &str) -> (r: Result<
    RegistrationStart,
    lldap_auth::opaque::AuthenticationError,
>)
    ensures
        r is Ok,
        r matches Ok(s) ==> s.message@.len() == ELEMENT_LEN && holds_password(s.state@, password@),
{
    let mut rng = rand::rngs::OsRng;
    match reg::start_registration(password, &mut rng) {
        Ok(start) => Ok(
            RegistrationStart { state: start.state.serialize(), message: start.message.serialize() },
        ),
        Err(e) => Err(e),
    }
}

/// Relies on `lldap_auth::opaque::client::registration::finish_registration`
/// (with the operating system's random source), after opaque-ke's
/// `deserialize` of the client state and of the server's response: it
/// returns the serialized upload for the server, or the protocol error.
#[verifier::external_body]
pub(crate) fn finish_registration(state: &[u8], response: &[u8]) -> (r: Result<
    Vec<u8>,
    lldap_auth::opaque::AuthenticationError,
>) {
    let mut rng = rand::rngs::OsRng;
    let state = reg::ClientRegistration::deserialize(state)?;
    let response = reg::RegistrationResponse::deserialize(response)?;
    let finish = reg::finish_registration(state, response, &mut rng)?;
    Ok(finish.message.serialize())
}

} // verus!
