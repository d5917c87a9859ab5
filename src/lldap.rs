//! What the controller decides when it talks to the directory: which GraphQL
//! answers are errors, which errors mean "not found", where requests go, and
//! which group memberships to add and remove.

use vstd::prelude::*;
use vstd::string::StringExecFns;
use crate::queries::{Group, User};

verus! {

/// Declares `lldap_auth::opaque::AuthenticationError`, the error of the
/// OPAQUE client functions, so that errors can carry it; it is opaque here.
#[verifier::external_type_specification]
#[verifier::external_body]
pub struct ExAuthenticationError(lldap_auth::opaque::AuthenticationError);

/// The first entry of a GraphQL response's `errors` array.
#[derive(Debug)]
pub struct GraphQlError {
    pub message: String,
}

/// A GraphQL response: the data, and the errors the server reported.
pub struct GraphQlResponse<T> {
    pub data: Option<T>,
    pub errors: Option<Vec<GraphQlError>>,
}

/// A failure while talking to the directory.
#[derive(Debug)]
pub enum Error {
    /// The GraphQL request could not be sent or its answer not read.
    Cynic(String),
    /// An HTTP request failed or timed out.
    Reqwest(String),
    /// The OPAQUE exchange or the login failed.
    Authentication(lldap_auth::opaque::AuthenticationError),
    /// The directory answered with an error.
    GraphQl(GraphQlError),
}

/// Where to reach the directory, and the administrator it logs in as.
pub struct LldapConfig {
    pub username: String,
    pub password: String,
    pub url: String,
}

/// Whether the server reported at least one error.
pub open spec fn has_errors<T>(response: GraphQlResponse<T>) -> bool {
    match response.errors {
        Some(errors) => errors@.len() > 0,
        None => false,
    }
}

/// Turns a GraphQL response into its data, or into the first error it reports.
pub fn check_graphql_errors<T>(response: GraphQlResponse<T>) -> (r: Result<T, Error>)
    requires
        has_errors(response) || response.data is Some,
    ensures
        has_errors(response) ==> (r matches Err(Error::GraphQl(e)) && e == response.errors->0@[0]),
        !has_errors(response) ==> r == Ok::<T, Error>(response.data->0),
{
    match response.errors {
        Some(mut errors) => {
            if errors.len() > 0 {
                return Err(Error::GraphQl(errors.remove(0)));
            }
        },
        None => {},
    }
    match response.data {
        Some(data) => Ok(data),
        None => {
            proof {
                assert(false);
            }
            unreached()
        },
    }
}

/// The message of the directory when `getUser` finds no user `login`.
pub open spec fn user_not_found_message(login: Seq<char>) -> Seq<char> {
    "Entity not found: `"@ + login + "`"@
}

/// The message of the directory when `deleteUser` finds no user `login`.
pub open spec fn no_such_user_message(login: Seq<char>) -> Seq<char> {
    "Entity not found: `No such user: '"@ + login + "'`"@
}

/// Whether `err` is a directory error whose message is `message`.
pub open spec fn is_graphql_message(err: Error, message: Seq<char>) -> bool {
    match err {
        Error::GraphQl(e) => e.message@ == message,
        _ => false,
    }
}

/// Whether `err` is the answer of `getUser` for a login that does not exist.
pub fn is_user_not_found(err: &Error, login: &str) -> (r: bool)
    ensures
        r == is_graphql_message(*err, user_not_found_message(login@)),
{
    match err {
        Error::GraphQl(e) => {
            let mut expected = String::from_str("Entity not found: `");
            expected.append(login);
            expected.append("`");
            e.message == expected
        },
        _ => false,
    }
}

/// Whether `err` is the answer of `deleteUser` for a login that does not exist.
pub fn is_no_such_user(err: &Error, login: &str) -> (r: bool)
    ensures
        r == is_graphql_message(*err, no_such_user_message(login@)),
{
    match err {
        Error::GraphQl(e) => {
            let mut expected = String::from_str("Entity not found: `No such user: '");
            expected.append(login);
            expected.append("'`");
            e.message == expected
        },
        _ => false,
    }
}

impl LldapConfig {
    /// A configuration from the administrator's credentials and the directory's base URL.
    pub fn new(username: String, password: String, url: String) -> (r: Self)
        ensures
            r.username == username,
            r.password == password,
            r.url == url,
    {
        LldapConfig { username, password, url }
    }

    /// `<url>/auth/simple/login`.
    pub fn login_url(&self) -> (r: String)
        ensures
            r@ == self.url@ + "/auth/simple/login"@,
    {
        let mut r = self.url.clone();
        r.append("/auth/simple/login");
        r
    }

    /// `<url>/api/graphql`.
    pub fn graphql_url(&self) -> (r: String)
        ensures
            r@ == self.url@ + "/api/graphql"@,
    {
        let mut r = self.url.clone();
        r.append("/api/graphql");
        r
    }

    /// `<url>/auth/opaque/register/start`.
    pub fn register_start_url(&self) -> (r: String)
        ensures
            r@ == self.url@ + "/auth/opaque/register/start"@,
    {
        let mut r = self.url.clone();
        r.append("/auth/opaque/register/start");
        r
    }

    /// `<url>/auth/opaque/register/finish`.
    pub fn register_finish_url(&self) -> (r: String)
        ensures
            r@ == self.url@ + "/auth/opaque/register/finish"@,
    {
        let mut r = self.url.clone();
        r.append("/auth/opaque/register/finish");
        r
    }
}

/// The value of the `Authorization` header for a session token.
pub fn bearer_header(token: &str) -> (r: String)
    ensures
        r@ == "Bearer "@ + token@,
{
    let mut r = String::from_str("Bearer ");
    r.append(token);
    r
}

} // verus!
