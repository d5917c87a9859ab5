//! The cluster objects the controller reads and writes, as plain values:
//! the two custom kinds, their metadata, and the errors of a reconcile.

use vstd::prelude::*;
use crate::lldap;

verus! {

/// A point in time, as seconds and nanoseconds since the Unix epoch (UTC).
#[derive(Debug, Clone, Copy, PartialEq, Eq)]
pub struct Timestamp {
    pub seconds: i64,
    pub nanos: u32,
}

/// A reference from an owned object to the object that owns it.
#[derive(Debug, Clone)]
pub struct OwnerReference {
    pub api_version: String,
    pub kind: String,
    pub name: String,
    pub uid: String,
    pub controller: bool,
    pub block_owner_deletion: bool,
}

/// The part of an object's metadata that the controller reads.
#[derive(Debug, Clone)]
pub struct ObjectMeta {
    pub name: Option<String>,
    pub namespace: Option<String>,
    pub finalizers: Vec<String>,
    /// Whether the object carries a deletion timestamp.
    pub deleting: bool,
}

/// Desired state of a service user.
#[derive(Debug, Clone)]
pub struct ServiceUserSpec {
    /// Whether the user may manage passwords.
    pub password_manager: bool,
    /// Directory groups the user belongs to besides its role group.
    pub additional_groups: Vec<String>,
}

/// Observed state of a service user.
#[derive(Debug, Clone, Copy, PartialEq, Eq)]
pub struct ServiceUserStatus {
    /// When the user's credentials secret was created.
    pub secret_created: Option<Timestamp>,
}

/// Desired state of a group: its name is all there is.
#[derive(Debug, Clone, Copy, PartialEq, Eq)]
pub struct GroupSpec {}

/// A `ServiceUser` object.
#[derive(Debug)]
pub struct ServiceUser {
    pub metadata: ObjectMeta,
    pub spec: ServiceUserSpec,
}

/// A `Group` object; cluster-scoped.
#[derive(Debug)]
pub struct Group {
    pub metadata: ObjectMeta,
    pub spec: GroupSpec,
}

/// The credentials secret of a service user.
#[derive(Debug, Clone)]
pub struct SecretData {
    pub owner_references: Vec<OwnerReference>,
    /// The `username` entry.
    pub username: Option<String>,
    /// The `password` entry, if present and UTF-8.
    pub password: Option<String>,
    pub creation_timestamp: Option<Timestamp>,
}

/// How the finalizer wrapper failed.
#[derive(Debug)]
pub enum FinalizerError {
    /// The apply step failed.
    ApplyFailed(Error),
    /// The cleanup step failed.
    CleanupFailed(Error),
    /// Adding the finalizer to the object failed.
    AddFinalizer(String),
    /// Removing the finalizer from the object failed.
    RemoveFinalizer(String),
    /// The object has no name.
    UnnamedObject,
}

/// A failed reconcile.
#[derive(Debug)]
pub enum Error {
    /// Writing the credentials secret was rejected.
    Commit(String),
    /// Another cluster API call failed.
    Kube(String),
    /// The directory failed.
    Lldap(lldap::Error),
    /// The finalizer wrapper failed.
    Finalizer(Box<FinalizerError>),
    /// A field that the API server fills in is absent.
    MissingObjectKey(&'static str),
}

impl ServiceUserSpec {
    /// A spec from its two fields.
    pub fn new(password_manager: bool, additional_groups: Vec<String>) -> (r: Self)
        ensures
            r.password_manager == password_manager,
            r.additional_groups == additional_groups,
    {
        ServiceUserSpec { password_manager, additional_groups }
    }
}

} // verus!
