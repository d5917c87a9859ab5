//! Names that the controller derives from a resource's identity.

use vstd::prelude::*;
use vstd::string::StringExecFns;

verus! {

/// The controller's identity: finalizer string, field manager and event reporter.
pub const CONTROLLER_NAME: &'static str = "lldap.huizinga.dev";

/// Group granted to service users that may manage passwords.
pub const PASSWORD_MANAGER_GROUP: &'static str = "lldap_password_manager";

/// Group granted to every other service user.
pub const READONLY_GROUP: &'static str = "lldap_strict_readonly";

/// Suffix of the secret that holds a service user's credentials.
pub const SECRET_SUFFIX: &'static str = "-lldap-credentials";

/// The directory login of the service user `name` in `namespace`: `<name>.<namespace>`.
pub open spec fn login_of(name: Seq<char>, namespace: Seq<char>) -> Seq<char> {
    name + seq!['.'] + namespace
}

/// The name of the credentials secret of the service user `name`.
pub open spec fn secret_name_of(name: Seq<char>) -> Seq<char> {
    name + SECRET_SUFFIX@
}

/// The role group that a service user always belongs to.
pub open spec fn role_group_of(password_manager: bool) -> Seq<char> {
    if password_manager {
        PASSWORD_MANAGER_GROUP@
    } else {
        READONLY_GROUP@
    }
}

/// Formats the directory login of a service user.
pub fn format_username(name: &str, namespace: &str) -> (r: String)
    ensures
        r@ == login_of(name@, namespace@),
{
    let mut r = String::from_str(name);
    proof {
        reveal_strlit(".");
    }
    r.append(".");
    r.append(namespace);
    r
}

/// Formats the name of a service user's credentials secret.
pub fn secret_name(name: &str) -> (r: String)
    ensures
        r@ == secret_name_of(name@),
{
    let mut r = String::from_str(name);
    r.append(SECRET_SUFFIX);
    r
}

/// The role group of a service user.
pub fn role_group(password_manager: bool) -> (r: &'static str)
    ensures
        r@ == role_group_of(password_manager),
{
    if password_manager {
        PASSWORD_MANAGER_GROUP
    } else {
        READONLY_GROUP
    }
}

} // verus!
