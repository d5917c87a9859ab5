//! The credentials secret of a service user.

use vstd::prelude::*;
use crate::resources::{OwnerReference, SecretData};

verus! {

/// Length of a generated password.
pub const PASSWORD_LENGTH: usize = 32;

/// An ASCII digit.
pub open spec fn is_digit(c: char) -> bool {
    '0' <= c && c <= '9'
}

/// An ASCII lowercase letter.
pub open spec fn is_lowercase(c: char) -> bool {
    'a' <= c && c <= 'z'
}

/// An ASCII uppercase letter.
pub open spec fn is_uppercase(c: char) -> bool {
    'A' <= c && c <= 'Z'
}

/// `p` has `length` characters, each a digit or a letter (uppercase only if
/// allowed), and if `strict` each allowed class occurs at least once.
pub open spec fn password_shape(p: Seq<char>, length: nat, uppercase: bool, strict: bool) -> bool {
    &&& p.len() == length
    &&& forall|i: int|
        0 <= i < p.len() ==> is_digit(#[trigger] p[i]) || is_lowercase(p[i]) || (uppercase
            && is_uppercase(p[i]))
    &&& strict ==> exists|i: int| 0 <= i < p.len() && is_digit(#[trigger] p[i])
    &&& strict ==> exists|i: int| 0 <= i < p.len() && is_lowercase(#[trigger] p[i])
    &&& strict && uppercase ==> exists|i: int| 0 <= i < p.len() && is_uppercase(#[trigger] p[i])
}

/// A freshly generated password of 32 letters and digits with each class present.
pub open spec fn is_generated_password(p: Seq<char>) -> bool {
    password_shape(p, PASSWORD_LENGTH as nat, true, true)
}

/// Relies on `passwords::PasswordGenerator::generate_one` with digits and
/// lowercase letters (the generator's defaults), optional uppercase letters
/// and optional strict mode: it fails exactly when the length is 0 or, in
/// strict mode, shorter than the number of character classes; otherwise it
/// returns `length` characters drawn from the classes, and in strict mode
/// draws again until every class occurs.
#[verifier::external_body]
fn generate_password(length: usize, uppercase: bool, strict: bool) -> (r: Result<
    String,
    &'static str,
>)
    ensures
        r is Ok <==> (length > 0 && !(strict && length < (if uppercase {
            3usize
        } else {
            2usize
        }))),
        r matches Ok(p) ==> password_shape(p@, length as nat, uppercase, strict),
{
    passwords::PasswordGenerator::new().length(length).uppercase_letters(uppercase).strict(
        strict,
    ).generate_one()
}

/// A new, not yet stored credentials secret for the directory login
/// `username`, owned through `oref`, with a freshly generated password.
pub fn new_secret(username: &str, oref: OwnerReference) -> (r: SecretData)
    ensures
        r.owner_references@ == seq![oref],
        r.username matches Some(u) && u@ == username@,
        r.password matches Some(p) && is_generated_password(p@),
        r.creation_timestamp is None,
{
    let password = match generate_password(PASSWORD_LENGTH, true, true) {
        Ok(p) => p,
        Err(_) => {
            proof {
                assert(false);
            }
            unreached()
        },
    };
    let mut owner_references = Vec::new();
    owner_references.push(oref);
    SecretData {
        owner_references,
        username: Some(username.to_owned()),
        password: Some(password),
        creation_timestamp: None,
    }
}

} // verus!
