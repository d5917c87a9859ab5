//! Reconciling a `Group`: a directory group with the object's name exists
//! while the object does, and goes when it is deleted.

use vstd::prelude::*;
use crate::controller::{Action, APPLY_REQUEUE_SECONDS, Next, Request, Response, Step};
use crate::events::{EventKind, Notice};
use crate::membership::{find_group, find_group_id};
use crate::resources::{Error, Group};

verus! {

/// Where a group reconcile stands.
#[derive(Debug, Clone, Copy, PartialEq, Eq, Structural)]
pub enum GroupState {
    /// Logging in to the directory.
    LoggingIn,
    /// Listing the directory's groups.
    Listing,
    /// Creating the directory group.
    Creating,
    /// Deleting the directory group.
    Deleting,
    /// Done; no request is in flight.
    Finished,
}

/// The apply (`cleanup == false`) or the cleanup of one `Group`.
#[derive(Debug)]
pub struct GroupReconcile {
    /// The object's name: the directory group's display name.
    pub name: String,
    pub cleanup: bool,
    pub state: GroupState,
}

/// Whether `event` answers the request that `state` has in flight.
pub open spec fn group_awaits(state: GroupState, event: Result<Response, Error>) -> bool {
    match event {
        Err(_) => state != GroupState::Finished,
        Ok(resp) => match state {
            GroupState::Listing => resp is Groups,
            GroupState::Finished => false,
            _ => resp is Done,
        },
    }
}

/// What a finished apply or cleanup hands to the work queue.
pub open spec fn done_action(cleanup: bool) -> Action {
    if cleanup {
        Action::AwaitChange
    } else {
        Action::Requeue { seconds: APPLY_REQUEUE_SECONDS }
    }
}

/// One step of a group reconcile: from `before`, given the answer `event`,
/// to `after`, doing `r`.
pub open spec fn group_step(
    before: GroupReconcile,
    event: Result<Response, Error>,
    after: GroupReconcile,
    r: Step,
) -> bool {
    let name = before.name;
    match event {
        Err(e) => {
            &&& after.state == GroupState::Finished
            &&& r.notice is None
            &&& r.next == Next::Finish(Err::<Action, Error>(e))
        },
        Ok(resp) => match before.state {
            GroupState::LoggingIn => {
                &&& after.state == GroupState::Listing
                &&& r.notice is None
                &&& r.next == Next::Send(Request::ListGroups)
            },
            GroupState::Listing => match resp {
                Response::Groups(groups) => {
                    &&& r.notice is None
                    &&& match (before.cleanup, find_group(groups@, name@)) {
                        (false, None) => after.state == GroupState::Creating && r.next
                            == Next::Send(Request::CreateGroup { name }),
                        (true, Some(g)) => after.state == GroupState::Deleting && r.next
                            == Next::Send(Request::DeleteGroup { id: g.id }),
                        _ => after.state == GroupState::Finished && r.next == Next::Finish(
                            Ok::<Action, Error>(done_action(before.cleanup)),
                        ),
                    }
                },
                _ => false,
            },
            GroupState::Creating => {
                &&& after.state == GroupState::Finished
                &&& r.notice == Some(Notice { kind: EventKind::GroupCreated, subject: name })
                &&& r.next == Next::Finish(Ok::<Action, Error>(done_action(false)))
            },
            GroupState::Deleting => {
                &&& after.state == GroupState::Finished
                &&& r.notice == Some(Notice { kind: EventKind::GroupDeleted, subject: name })
                &&& r.next == Next::Finish(Ok::<Action, Error>(done_action(true)))
            },
            GroupState::Finished => false,
        },
    }
}

impl GroupReconcile {
    /// Starts the apply (or, with `cleanup`, the cleanup) of `group`: log in
    /// to the directory. Fails when the object has no name.
    pub fn start(group: &Group, cleanup: bool) -> (r: (Self, Step))
        ensures
            r.0.cleanup == cleanup,
            r.1.notice is None,
            group.metadata.name is None ==> r.0.state == GroupState::Finished && r.1.next
                == Next::Finish(Err::<Action, Error>(Error::MissingObjectKey(".metadata.name"))),
            group.metadata.name matches Some(n) ==> {
                &&& r.0.name == n
                &&& r.0.state == GroupState::LoggingIn
                &&& r.1.next == Next::Send(Request::Login)
            },
    {
        match &group.metadata.name {
            Some(name) => (
                GroupReconcile { name: name.clone(), cleanup, state: GroupState::LoggingIn },
                Step { notice: None, next: Next::Send(Request::Login) },
            ),
            None => (
                GroupReconcile { name: String::new(), cleanup, state: GroupState::Finished },
                Step {
                    notice: None,
                    next: Next::Finish(Err(Error::MissingObjectKey(".metadata.name"))),
                },
            ),
        }
    }

    /// Whether `event` answers the request in flight.
    pub fn awaits(&self, event: &Result<Response, Error>) -> (r: bool)
        ensures
            r == group_awaits(self.state, *event),
    {
        match event {
            Err(_) => self.state != GroupState::Finished,
            Ok(Response::Groups(_)) => self.state == GroupState::Listing,
            Ok(Response::Done) => self.state != GroupState::Listing && self.state
                != GroupState::Finished,
            Ok(_) => false,
        }
    }

    /// Advances the reconcile with the answer to the request in flight.
    pub fn step(&mut self, event: Result<Response, Error>) -> (r: Step)
        requires
            group_awaits(old(self).state, event),
        ensures
            final(self).name == old(self).name,
            final(self).cleanup == old(self).cleanup,
            group_step(*old(self), event, *final(self), r),
    {
        let state = self.state;
        self.state = GroupState::Finished;
        let resp = match event {
            Err(e) => {
                return Step { notice: None, next: Next::Finish(Err(e)) };
            },
            Ok(resp) => resp,
        };
        match state {
            GroupState::LoggingIn => {
                self.state = GroupState::Listing;
                Step { notice: None, next: Next::Send(Request::ListGroups) }
            },
            GroupState::Listing => {
                let groups = match resp {
                    Response::Groups(groups) => groups,
                    _ => {
                        proof {
                            assert(false);
                        }
                        unreached()
                    },
                };
                let found = find_group_id(&groups, &self.name);
                if !self.cleanup && found.is_none() {
                    self.state = GroupState::Creating;
                    Step {
                        notice: None,
                        next: Next::Send(Request::CreateGroup { name: self.name.clone() }),
                    }
                } else if self.cleanup && found.is_some() {
                    self.state = GroupState::Deleting;
                    let id = found.unwrap();
                    Step { notice: None, next: Next::Send(Request::DeleteGroup { id }) }
                } else {
                    let action = if self.cleanup {
                        Action::AwaitChange
                    } else {
                        Action::Requeue { seconds: APPLY_REQUEUE_SECONDS }
                    };
                    Step { notice: None, next: Next::Finish(Ok(action)) }
                }
            },
            GroupState::Creating => {
                let notice = Notice { kind: EventKind::GroupCreated, subject: self.name.clone() };
                Step {
                    notice: Some(notice),
                    next: Next::Finish(Ok(Action::Requeue { seconds: APPLY_REQUEUE_SECONDS })),
                }
            },
            GroupState::Deleting => {
                let notice = Notice { kind: EventKind::GroupDeleted, subject: self.name.clone() };
                Step { notice: Some(notice), next: Next::Finish(Ok(Action::AwaitChange)) }
            },
            GroupState::Finished => {
                proof {
                    assert(false);
                }
                unreached()
            },
        }
    }
}

} // verus!
