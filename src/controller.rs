//! The reconcile dispatcher: finalizer handling around the per-kind apply
//! and cleanup, the actions handed back to the work queue, and the requests
//! through which the per-kind reconcilers reach the cluster and the directory.

use vstd::prelude::*;
use crate::events::Notice;
use crate::queries::{Group, User};
use crate::resources::{Error, FinalizerError, ObjectMeta, SecretData, ServiceUserStatus};

verus! {

/// Seconds until a successfully applied object is reconciled again.
pub const APPLY_REQUEUE_SECONDS: u64 = 3600;

/// Seconds until an object whose reconcile failed is tried again.
pub const ERROR_REQUEUE_SECONDS: u64 = 5;

/// What the work queue does with an object after a reconcile.
#[derive(Debug, Clone, Copy, PartialEq, Eq, Structural)]
pub enum Action {
    /// Reconcile again after this many seconds.
    Requeue { seconds: u64 },
    /// Reconcile again only when the object changes.
    AwaitChange,
}

/// What the dispatcher does with an object.
#[derive(Debug, Clone, Copy, PartialEq, Eq, Structural)]
pub enum Dispatch {
    /// Add the finalizer; `create_list` when the object has no finalizers
    /// yet. The write brings the object back, so nothing else happens now.
    AddFinalizer { create_list: bool },
    /// Run the kind's apply.
    Apply,
    /// Run the kind's cleanup, then remove the finalizer at `index`.
    Cleanup { index: usize },
    /// The object is going away and this controller is done with it.
    Nothing,
}

/// A call on the cluster or the directory that a reconciler needs made.
#[derive(Debug)]
pub enum Request {
    /// Read a secret; answered by [`Response::Secret`].
    GetSecret { namespace: String, name: String },
    /// Create or update a secret as this controller; answered by [`Response::Committed`].
    CommitSecret { namespace: String, name: String, secret: SecretData },
    /// Log in to the directory with the configured credentials; answered by [`Response::Done`].
    Login,
    /// Look up a directory user; answered by [`Response::User`].
    GetUser { login: String },
    /// Create a directory user; answered by [`Response::User`].
    CreateUser { login: String },
    /// List the directory's groups; answered by [`Response::Groups`].
    ListGroups,
    /// Answered by [`Response::Done`].
    RemoveUserFromGroup { login: String, group: i32 },
    /// Answered by [`Response::Done`].
    AddUserToGroup { login: String, group: i32 },
    /// First half of the OPAQUE registration; answered by [`Response::RegistrationStarted`].
    RegisterStart { login: String, message: Vec<u8> },
    /// Second half of the OPAQUE registration; answered by [`Response::Done`].
    RegisterFinish { server_data: String, upload: Vec<u8> },
    /// Merge-patch a service user's status; answered by [`Response::Done`].
    PatchStatus { namespace: String, name: String, status: ServiceUserStatus },
    /// Delete a directory user; answered by [`Response::Done`].
    DeleteUser { login: String },
    /// Create a directory group; answered by [`Response::Done`].
    CreateGroup { name: String },
    /// Delete a directory group; answered by [`Response::Done`].
    DeleteGroup { id: i32 },
}

/// The answer to a successful [`Request`].
#[derive(Debug)]
pub enum Response {
    Secret(Option<SecretData>),
    Committed(SecretData),
    User(User),
    Groups(Vec<Group>),
    RegistrationStarted { server_data: String, registration_response: Vec<u8> },
    Done,
}

/// What a reconciler does next: make a request, or finish with a result.
#[derive(Debug)]
pub enum Next {
    Send(Request),
    Finish(Result<Action, Error>),
}

/// One step of a reconciler: an event to publish first, if any, then what
/// comes next. Publishing is best-effort: its failure changes nothing.
#[derive(Debug)]
pub struct Step {
    pub notice: Option<Notice>,
    pub next: Next,
}

/// Whether `list` holds `name`.
pub open spec fn has_finalizer(list: Seq<String>, name: Seq<char>) -> bool {
    exists|j: int| 0 <= j < list.len() && list[j]@ == name
}

/// `index` is the first position of `name` in `list`.
pub open spec fn first_position(list: Seq<String>, name: Seq<char>, index: int) -> bool {
    &&& 0 <= index < list.len()
    &&& list[index]@ == name
    &&& forall|j: int| 0 <= j < index ==> list[j]@ != name
}

/// The first position of `name` in `list`.
pub fn finalizer_index(list: &Vec<String>, name: &str) -> (r: Option<usize>)
    ensures
        r matches Some(i) ==> first_position(list@, name@, i as int),
        r is None ==> !has_finalizer(list@, name@),
{
    let wanted = name.to_owned();
    let mut i: usize = 0;
    while i < list.len()
        invariant
            i <= list@.len(),
            wanted@ == name@,
            forall|j: int| 0 <= j < i ==> list@[j]@ != name@,
        decreases list.len() - i,
    {
        if list[i] == wanted {
            return Some(i);
        }
        i += 1;
    }
    None
}

/// Decides what to do with an object, from its finalizers and whether it is
/// being deleted. An object without a name cannot be patched, so adding or
/// removing the finalizer fails for it.
pub fn dispatch(meta: &ObjectMeta, finalizer: &str) -> (r: Result<Dispatch, FinalizerError>)
    ensures
        has_finalizer(meta.finalizers@, finalizer@) && !meta.deleting ==> r == Ok::<
            Dispatch,
            FinalizerError,
        >(Dispatch::Apply),
        has_finalizer(meta.finalizers@, finalizer@) && meta.deleting && meta.name is None
            ==> r matches Err(FinalizerError::UnnamedObject),
        has_finalizer(meta.finalizers@, finalizer@) && meta.deleting && meta.name is Some ==> (
        r matches Ok(Dispatch::Cleanup { index }) && first_position(
            meta.finalizers@,
            finalizer@,
            index as int,
        )),
        !has_finalizer(meta.finalizers@, finalizer@) && !meta.deleting && meta.name is None
            ==> r matches Err(FinalizerError::UnnamedObject),
        !has_finalizer(meta.finalizers@, finalizer@) && !meta.deleting && meta.name is Some
            ==> r == Ok::<Dispatch, FinalizerError>(
            Dispatch::AddFinalizer { create_list: meta.finalizers@.len() == 0 },
        ),
        !has_finalizer(meta.finalizers@, finalizer@) && meta.deleting ==> r == Ok::<
            Dispatch,
            FinalizerError,
        >(Dispatch::Nothing),
{
    match finalizer_index(&meta.finalizers, finalizer) {
        Some(index) => {
            if !meta.deleting {
                Ok(Dispatch::Apply)
            } else if meta.name.is_none() {
                Err(FinalizerError::UnnamedObject)
            } else {
                Ok(Dispatch::Cleanup { index })
            }
        },
        None => {
            if meta.deleting {
                Ok(Dispatch::Nothing)
            } else if meta.name.is_none() {
                Err(FinalizerError::UnnamedObject)
            } else {
                Ok(Dispatch::AddFinalizer { create_list: meta.finalizers.len() == 0 })
            }
        },
    }
}

/// The finalizer list with `name` added at its end.
pub fn with_finalizer(list: &Vec<String>, name: &str) -> (r: Vec<String>)
    ensures
        r@.len() == list@.len() + 1,
        forall|j: int| 0 <= j < list@.len() ==> r@[j] == list@[j],
        r@[list@.len() as int]@ == name@,
        has_finalizer(r@, name@),
{
    let mut r: Vec<String> = Vec::new();
    let mut i: usize = 0;
    while i < list.len()
        invariant
            i <= list@.len(),
            r@.len() == i,
            forall|j: int| 0 <= j < i ==> r@[j] == list@[j],
        decreases list.len() - i,
    {
        r.push(list[i].clone());
        i += 1;
    }
    r.push(name.to_owned());
    assert(r@[list@.len() as int]@ == name@);
    r
}

/// The finalizer list without its entry at `index`.
pub fn without_finalizer(list: &Vec<String>, index: usize) -> (r: Vec<String>)
    requires
        index < list@.len(),
    ensures
        r@ == list@.remove(index as int),
{
    let mut r: Vec<String> = Vec::new();
    let mut i: usize = 0;
    while i < list.len()
        invariant
            i <= list@.len(),
            index < list@.len(),
            r@.len() == if i <= index {
                i as int
            } else {
                i - 1
            },
            forall|j: int|
                0 <= j < r@.len() ==> r@[j] == if j < index {
                    list@[j]
                } else {
                    list@[j + 1]
                },
        decreases list.len() - i,
    {
        if i != index {
            r.push(list[i].clone());
        }
        i += 1;
    }
    assert(r@ =~= list@.remove(index as int));
    r
}

/// The result of a reconcile once the finalizer was added (`patch` is the
/// outcome of that write): wait for the change it causes.
pub fn finalizer_added(patch: Result<(), String>) -> (r: Result<Action, Error>)
    ensures
        patch is Ok ==> r == Ok::<Action, Error>(Action::AwaitChange),
        patch matches Err(m) ==> (r matches Err(Error::Finalizer(b)) && *b
            == FinalizerError::AddFinalizer(m)),
{
    match patch {
        Ok(()) => Ok(Action::AwaitChange),
        Err(m) => Err(Error::Finalizer(Box::new(FinalizerError::AddFinalizer(m)))),
    }
}

/// The result of a reconcile whose apply ended with `outcome`.
pub fn apply_finished(outcome: Result<Action, Error>) -> (r: Result<Action, Error>)
    ensures
        outcome matches Ok(a) ==> r == Ok::<Action, Error>(a),
        outcome matches Err(e) ==> (r matches Err(Error::Finalizer(b)) && *b
            == FinalizerError::ApplyFailed(e)),
{
    match outcome {
        Ok(a) => Ok(a),
        Err(e) => Err(Error::Finalizer(Box::new(FinalizerError::ApplyFailed(e)))),
    }
}

/// Whether the finalizer may be removed after a cleanup that ended with
/// `outcome`: only a successful cleanup releases the object.
pub fn cleanup_finished(outcome: Result<Action, Error>) -> (r: Result<Action, Error>)
    ensures
        outcome matches Ok(a) ==> r == Ok::<Action, Error>(a),
        outcome matches Err(e) ==> (r matches Err(Error::Finalizer(b)) && *b
            == FinalizerError::CleanupFailed(e)),
{
    match outcome {
        Ok(a) => Ok(a),
        Err(e) => Err(Error::Finalizer(Box::new(FinalizerError::CleanupFailed(e)))),
    }
}

/// The result of a reconcile once the finalizer's removal after a
/// successful cleanup (ending with `action`) came back as `patch`.
pub fn finalizer_removed(action: Action, patch: Result<(), String>) -> (r: Result<Action, Error>)
    ensures
        patch is Ok ==> r == Ok::<Action, Error>(action),
        patch matches Err(m) ==> (r matches Err(Error::Finalizer(b)) && *b
            == FinalizerError::RemoveFinalizer(m)),
{
    match patch {
        Ok(()) => Ok(action),
        Err(m) => Err(Error::Finalizer(Box::new(FinalizerError::RemoveFinalizer(m)))),
    }
}

/// What the work queue does after a failed reconcile: try again in 5 seconds.
pub fn error_policy(err: &Error) -> (r: Action)
    ensures
        r == (Action::Requeue { seconds: ERROR_REQUEUE_SECONDS }),
{
    Action::Requeue { seconds: ERROR_REQUEUE_SECONDS }
}

} // verus!
