//! Reconciling a `ServiceUser`: its credentials secret, its directory user,
//! the user's groups and password, and the object's status. Each reconcile
//! is a sequence of requests; the caller makes each request and hands the
//! answer back to `step`.

use vstd::prelude::*;
use crate::controller::{Action, APPLY_REQUEUE_SECONDS, Next, Request, Response, Step};
use crate::events::{EventKind, Notice};
use crate::lldap;
use crate::membership::{GroupUpdate, group_ids, ids_without, plan_group_update, resolve_ids};
use crate::naming::{format_username, login_of, role_group, role_group_of, secret_name, secret_name_of};
use crate::queries::User;
use crate::registration::{
    ELEMENT_LEN, RegistrationStart, finish_registration, holds_password, start_registration,
};
use crate::resources::{Error, OwnerReference, SecretData, ServiceUser, ServiceUserSpec, ServiceUserStatus};
use crate::secret::{is_generated_password, new_secret};

verus! {

/// The groups a service user should be in: its additional groups, then its role group.
pub open spec fn desired_groups_of(spec: ServiceUserSpec) -> Seq<Seq<char>> {
    spec.additional_groups.deep_view().push(role_group_of(spec.password_manager))
}

/// The names of the groups a service user should be in.
pub fn desired_groups(spec: &ServiceUserSpec) -> (r: Vec<String>)
    ensures
        r.deep_view() == desired_groups_of(*spec),
{
    let mut out: Vec<String> = Vec::new();
    let mut i: usize = 0;
    while i < spec.additional_groups.len()
        invariant
            i <= spec.additional_groups@.len(),
            out@.len() == i,
            forall|j: int| 0 <= j < i ==> out@[j]@ == spec.additional_groups@[j]@,
        decreases spec.additional_groups.len() - i,
    {
        let g = spec.additional_groups[i].clone();
        out.push(g);
        i += 1;
    }
    out.push(role_group(spec.password_manager).to_owned());
    assert(out.deep_view() =~= desired_groups_of(*spec));
    out
}

/// Where an apply stands: which request is in flight, and what it has
/// gathered so far.
#[derive(Debug)]
pub enum ApplyState {
    /// Reading the credentials secret.
    FetchingSecret,
    /// Writing the secret; `created` when it is a new one.
    CommittingSecret { created: bool },
    /// Logging in to the directory.
    LoggingIn { secret: SecretData },
    /// Looking up the directory user.
    GettingUser { secret: SecretData },
    /// Creating the directory user.
    CreatingUser { secret: SecretData },
    /// Listing the directory's groups.
    ListingGroups { secret: SecretData, user: User },
    /// Leaving `update.remove[index]`.
    Leaving { secret: SecretData, update: GroupUpdate, index: usize },
    /// Joining `update.add[index]`.
    Joining { secret: SecretData, update: GroupUpdate, index: usize },
    /// Sent the first half of the password registration.
    Registering { secret: SecretData, state: Vec<u8> },
    /// Sent the second half of the password registration.
    FinishingRegistration { secret: SecretData },
    /// Patching the status.
    PatchingStatus,
    /// Done; no request is in flight.
    Finished,
}

/// The apply of one `ServiceUser`.
pub struct ServiceUserApply {
    pub name: String,
    pub namespace: String,
    /// The directory login, `<name>.<namespace>`.
    pub login: String,
    /// `<name>-lldap-credentials`.
    pub secret_name: String,
    /// Owner of a secret created for the user; taken when it is used.
    pub owner: Option<OwnerReference>,
    /// The group names the user should be in.
    pub groups: Vec<String>,
    pub state: ApplyState,
    /// Whether the directory has returned a user for this apply's lookup
    /// or creation of the login.
    pub user_confirmed: Ghost<bool>,
}

/// The states in which the directory user has been looked up or created.
pub open spec fn past_user_lookup(state: ApplyState) -> bool {
    ||| state is ListingGroups
    ||| state is Leaving
    ||| state is Joining
    ||| state is Registering
    ||| state is FinishingRegistration
    ||| state is PatchingStatus
}

/// Whether `event` answers the request that `state` has in flight. A
/// failure answers every request.
pub open spec fn apply_awaits(state: ApplyState, event: Result<Response, Error>) -> bool {
    match event {
        Err(_) => !(state is Finished),
        Ok(resp) => match state {
            ApplyState::FetchingSecret => resp is Secret,
            ApplyState::CommittingSecret { .. } => resp is Committed,
            ApplyState::LoggingIn { .. } => resp is Done,
            ApplyState::GettingUser { .. } => resp is User,
            ApplyState::CreatingUser { .. } => resp is User,
            ApplyState::ListingGroups { .. } => resp is Groups,
            ApplyState::Leaving { .. } => resp is Done,
            ApplyState::Joining { .. } => resp is Done,
            ApplyState::Registering { .. } => resp is RegistrationStarted,
            ApplyState::FinishingRegistration { .. } => resp is Done,
            ApplyState::PatchingStatus => resp is Done,
            ApplyState::Finished => false,
        },
    }
}

/// Whether `err` is the directory's answer that the user `login` does not exist.
pub open spec fn is_missing_user(err: Error, login: Seq<char>) -> bool {
    match err {
        Error::Lldap(e) => lldap::is_graphql_message(e, lldap::user_not_found_message(login)),
        _ => false,
    }
}

/// The step that starts the password registration for `login` with the
/// password in `secret`: it fails if the secret holds no password.
pub open spec fn password_step(
    login: Seq<char>,
    secret: SecretData,
    state: ApplyState,
    r: Step,
) -> bool {
    &&& r.notice is None
    &&& secret.password is None ==> (state is Finished && r.next == Next::Finish(
        Err::<Action, Error>(Error::MissingObjectKey(".data.password")),
    ))
    &&& secret.password matches Some(p) ==> registration_sent(login, secret, p@, state, r)
}

/// The first half of the registration for `login` went out: a 32-byte
/// request, with the password itself kept back in the client state, which
/// holds it byte for byte after the blind. The state keeps `secret`.
pub open spec fn registration_sent(
    login: Seq<char>,
    secret: SecretData,
    password: Seq<char>,
    state: ApplyState,
    r: Step,
) -> bool {
    &&& state matches ApplyState::Registering { secret: s, state: st }
    &&& s == secret
    &&& holds_password(st@, password)
    &&& r.next matches Next::Send(Request::RegisterStart { login: l, message: m })
    &&& l@ == login
    &&& m@.len() == ELEMENT_LEN
}

/// The OPAQUE exchange failed and the apply ends with that error.
pub open spec fn authentication_failed(state: ApplyState, r: Step) -> bool {
    &&& state is Finished
    &&& r.next matches Next::Finish(Err(Error::Lldap(lldap::Error::Authentication(_))))
}

/// The step after the memberships before `leave` in `update.remove` and
/// before `join` in `update.add` are done: the next of them, or else the
/// password registration.
pub open spec fn membership_step(
    login: Seq<char>,
    secret: SecretData,
    update: GroupUpdate,
    leave: int,
    join: int,
    state: ApplyState,
    r: Step,
) -> bool {
    if leave < update.remove@.len() {
        &&& r.notice is None
        &&& state matches ApplyState::Leaving { secret: s, update: u, index }
        &&& s == secret && u == update && index == leave
        &&& r.next matches Next::Send(Request::RemoveUserFromGroup { login: l, group })
        &&& l@ == login && group == update.remove@[leave]
    } else if join < update.add@.len() {
        &&& r.notice is None
        &&& state matches ApplyState::Joining { secret: s, update: u, index }
        &&& s == secret && u == update && index == join
        &&& r.next matches Next::Send(Request::AddUserToGroup { login: l, group })
        &&& l@ == login && group == update.add@[join]
    } else {
        password_step(login, secret, state, r)
    }
}

/// `secret` is a new secret for `login`, owned through `owner`, with a
/// freshly generated password.
pub open spec fn is_fresh_secret(secret: SecretData, login: Seq<char>, owner: OwnerReference) -> bool {
    &&& secret.owner_references@ == seq![owner]
    &&& secret.username matches Some(u) && u@ == login
    &&& secret.password matches Some(p) && is_generated_password(p@)
    &&& secret.creation_timestamp is None
}

/// `update` takes a user in `user`'s groups to the groups that `names` name
/// among `groups`.
pub open spec fn is_planned(update: GroupUpdate, user: User, names: Seq<Seq<char>>, groups: Seq<crate::queries::Group>) -> bool {
    &&& update.remove@ == ids_without(group_ids(user.groups@), resolve_ids(names, groups))
    &&& update.add@ == ids_without(resolve_ids(names, groups), group_ids(user.groups@))
}

/// The second half of the registration went out with the server's data,
/// and the state keeps `secret`.
pub open spec fn finish_sent(server_data: String, secret: SecretData, state: ApplyState, r: Step) -> bool {
    &&& state == ApplyState::FinishingRegistration { secret }
    &&& r.next matches Next::Send(Request::RegisterFinish { server_data: d, .. })
    &&& d == server_data
}

/// A membership change in flight is one of its update's.
pub open spec fn index_in_range(state: ApplyState) -> bool {
    match state {
        ApplyState::Leaving { update, index, .. } => index < update.remove@.len(),
        ApplyState::Joining { update, index, .. } => index < update.add@.len(),
        _ => true,
    }
}

/// One step of an apply: from `before`, given the answer `event`, to
/// `after`, doing `r`.
pub open spec fn apply_step(
    before: ServiceUserApply,
    event: Result<Response, Error>,
    after: ServiceUserApply,
    r: Step,
) -> bool {
    let login = before.login;
    match event {
        Err(e) => {
            match before.state {
                ApplyState::GettingUser { secret } if is_missing_user(e, login@) => {
                    &&& after.state == ApplyState::CreatingUser { secret }
                    &&& r.notice is None
                    &&& r.next == Next::Send(Request::CreateUser { login })
                },
                _ => {
                    &&& after.state is Finished
                    &&& r.notice is None
                    &&& r.next == Next::Finish(Err::<Action, Error>(e))
                },
            }
        },
        Ok(resp) => match before.state {
            ApplyState::FetchingSecret => match resp {
                Response::Secret(Some(s)) => {
                    &&& after.state == ApplyState::CommittingSecret { created: false }
                    &&& r.notice is None
                    &&& r.next == Next::Send(
                        Request::CommitSecret {
                            namespace: before.namespace,
                            name: before.secret_name,
                            secret: s,
                        },
                    )
                },
                Response::Secret(None) => {
                    &&& after.state == ApplyState::CommittingSecret { created: true }
                    &&& r.notice is None
                    &&& r.next matches Next::Send(Request::CommitSecret { namespace, name, secret })
                    &&& namespace == before.namespace
                    &&& name == before.secret_name
                    &&& is_fresh_secret(secret, login@, before.owner->0)
                },
                _ => false,
            },
            ApplyState::CommittingSecret { created } => match resp {
                Response::Committed(s) => {
                    &&& after.state == ApplyState::LoggingIn { secret: s }
                    &&& r.next == Next::Send(Request::Login)
                    &&& created ==> r.notice == Some(
                        Notice { kind: EventKind::SecretCreated, subject: before.secret_name },
                    )
                    &&& !created ==> r.notice is None
                },
                _ => false,
            },
            ApplyState::LoggingIn { secret } => {
                &&& resp is Done
                &&& after.state == ApplyState::GettingUser { secret }
                &&& r.notice is None
                &&& r.next == Next::Send(Request::GetUser { login })
            },
            ApplyState::GettingUser { secret } => match resp {
                Response::User(user) => {
                    &&& after.state == ApplyState::ListingGroups { secret, user }
                    &&& r.notice is None
                    &&& r.next == Next::Send(Request::ListGroups)
                },
                _ => false,
            },
            ApplyState::CreatingUser { secret } => match resp {
                Response::User(user) => {
                    &&& after.state == ApplyState::ListingGroups { secret, user }
                    &&& r.notice == Some(Notice { kind: EventKind::UserCreated, subject: login })
                    &&& r.next == Next::Send(Request::ListGroups)
                },
                _ => false,
            },
            ApplyState::ListingGroups { secret, user } => match resp {
                Response::Groups(groups) => exists|update: GroupUpdate|
                    #[trigger] is_planned(update, user, before.groups.deep_view(), groups@)
                        && membership_step(login@, secret, update, 0, 0, after.state, r),
                _ => false,
            },
            ApplyState::Leaving { secret, update, index } => {
                &&& resp is Done
                &&& membership_step(login@, secret, update, index + 1, 0, after.state, r)
            },
            ApplyState::Joining { secret, update, index } => {
                &&& resp is Done
                &&& membership_step(
                    login@,
                    secret,
                    update,
                    update.remove@.len() as int,
                    index + 1,
                    after.state,
                    r,
                )
            },
            ApplyState::Registering { secret, .. } => match resp {
                Response::RegistrationStarted { server_data, .. } => {
                    &&& r.notice is None
                    &&& finish_sent(server_data, secret, after.state, r) || authentication_failed(
                        after.state,
                        r,
                    )
                },
                _ => false,
            },
            ApplyState::FinishingRegistration { secret } => {
                &&& resp is Done
                &&& after.state is PatchingStatus
                &&& r.notice is None
                &&& r.next == Next::Send(
                    Request::PatchStatus {
                        namespace: before.namespace,
                        name: before.name,
                        status: ServiceUserStatus { secret_created: secret.creation_timestamp },
                    },
                )
            },
            ApplyState::PatchingStatus => {
                &&& resp is Done
                &&& after.state is Finished
                &&& r.notice is None
                &&& r.next == Next::Finish(
                    Ok::<Action, Error>(Action::Requeue { seconds: APPLY_REQUEUE_SECONDS }),
                )
            },
            ApplyState::Finished => false,
        },
    }
}

impl ServiceUserApply {
    /// The identity fields agree with each other, and a secret can still be
    /// created while it is being fetched.
    pub open spec fn wf(&self) -> bool {
        &&& self.login@ == login_of(self.name@, self.namespace@)
        &&& self.secret_name@ == secret_name_of(self.name@)
        &&& self.state is FetchingSecret ==> self.owner is Some
        &&& index_in_range(self.state)
        &&& past_user_lookup(self.state) ==> self.user_confirmed@
    }

    /// Starts the apply of `user`, whose controller owner reference is
    /// `owner`: read the credentials secret. Fails when the object lacks a
    /// name, a namespace or a uid (`owner`).
    pub fn start(user: &ServiceUser, owner: Option<OwnerReference>) -> (r: (Self, Step))
        ensures
            r.0.wf(),
            r.1.notice is None,
            user.metadata.name is None ==> r.0.state is Finished && r.1.next == Next::Finish(
                Err::<Action, Error>(Error::MissingObjectKey(".metadata.name")),
            ),
            user.metadata.name is Some && user.metadata.namespace is None ==> r.0.state is Finished
                && r.1.next == Next::Finish(
                Err::<Action, Error>(Error::MissingObjectKey(".metadata.namespace")),
            ),
            user.metadata.name is Some && user.metadata.namespace is Some && owner is None
                ==> r.0.state is Finished && r.1.next == Next::Finish(
                Err::<Action, Error>(Error::MissingObjectKey(".metadata.uid")),
            ),
            user.metadata.name is Some && user.metadata.namespace is Some && owner is Some ==> {
                &&& r.0.name == user.metadata.name->0
                &&& r.0.namespace == user.metadata.namespace->0
                &&& r.0.owner == owner
                &&& r.0.groups.deep_view() == desired_groups_of(user.spec)
                &&& r.0.state is FetchingSecret
                &&& r.1.next == Next::Send(
                    Request::GetSecret { namespace: r.0.namespace, name: r.0.secret_name },
                )
            },
    {
        let groups = desired_groups(&user.spec);
        let (name, namespace) = match (&user.metadata.name, &user.metadata.namespace) {
            (Some(n), Some(ns)) => (n.clone(), ns.clone()),
            _ => {
                let err = if user.metadata.name.is_none() {
                    Error::MissingObjectKey(".metadata.name")
                } else {
                    Error::MissingObjectKey(".metadata.namespace")
                };
                return Self::failed(groups, err);
            },
        };
        if owner.is_none() {
            return Self::failed(groups, Error::MissingObjectKey(".metadata.uid"));
        }
        let login = format_username(name.as_str(), namespace.as_str());
        let secret_name = secret_name(name.as_str());
        let request = Request::GetSecret { namespace: namespace.clone(), name: secret_name.clone() };
        let apply = ServiceUserApply {
            name,
            namespace,
            login,
            secret_name,
            owner,
            groups,
            state: ApplyState::FetchingSecret,
            user_confirmed: Ghost(false),
        };
        (apply, Step { notice: None, next: Next::Send(request) })
    }

    /// An apply that ended before it started.
    fn failed(groups: Vec<String>, err: Error) -> (r: (Self, Step))
        ensures
            r.0.wf(),
            r.0.state is Finished,
            r.1.notice is None,
            r.1.next == Next::Finish(Err::<Action, Error>(err)),
    {
        let name = String::new();
        let namespace = String::new();
        let login = format_username(name.as_str(), namespace.as_str());
        let secret_name = secret_name(name.as_str());
        let apply = ServiceUserApply {
            name,
            namespace,
            login,
            secret_name,
            owner: None,
            groups,
            state: ApplyState::Finished,
            user_confirmed: Ghost(false),
        };
        (apply, Step { notice: None, next: Next::Finish(Err(err)) })
    }

    /// Whether `event` answers the request in flight.
    pub fn awaits(&self, event: &Result<Response, Error>) -> (r: bool)
        ensures
            r == apply_awaits(self.state, *event),
    {
        match event {
            Err(_) => !matches!(self.state, ApplyState::Finished),
            Ok(resp) => match (&self.state, resp) {
                (ApplyState::FetchingSecret, Response::Secret(_)) => true,
                (ApplyState::CommittingSecret { .. }, Response::Committed(_)) => true,
                (ApplyState::LoggingIn { .. }, Response::Done) => true,
                (ApplyState::GettingUser { .. }, Response::User(_)) => true,
                (ApplyState::CreatingUser { .. }, Response::User(_)) => true,
                (ApplyState::ListingGroups { .. }, Response::Groups(_)) => true,
                (ApplyState::Leaving { .. }, Response::Done) => true,
                (ApplyState::Joining { .. }, Response::Done) => true,
                (ApplyState::Registering { .. }, Response::RegistrationStarted { .. }) => true,
                (ApplyState::FinishingRegistration { .. }, Response::Done) => true,
                (ApplyState::PatchingStatus, Response::Done) => true,
                _ => false,
            },
        }
    }

    /// Starts the password registration with the password of `secret`.
    fn register_password(&mut self, secret: SecretData) -> (r: Step)
        ensures
            password_step(old(self).login@, secret, final(self).state, r),
            final(self).name == old(self).name,
            final(self).namespace == old(self).namespace,
            final(self).login == old(self).login,
            final(self).secret_name == old(self).secret_name,
            final(self).owner == old(self).owner,
            final(self).groups == old(self).groups,
            final(self).user_confirmed == old(self).user_confirmed,
    {
        let started = match &secret.password {
            None => {
                self.state = ApplyState::Finished;
                return Step {
                    notice: None,
                    next: Next::Finish(Err(Error::MissingObjectKey(".data.password"))),
                };
            },
            Some(password) => start_registration(password.as_str()),
        };
        self.registration_started(secret, started)
    }

    /// Goes on from the first half of the registration as the OPAQUE client
    /// returned it: sends its request and keeps its state, or ends with its error.
    pub fn registration_started(
        &mut self,
        secret: SecretData,
        started: Result<RegistrationStart, lldap_auth::opaque::AuthenticationError>,
    ) -> (r: Step)
        ensures
            r.notice is None,
            started matches Ok(s) ==> final(self).state == (ApplyState::Registering {
                secret,
                state: s.state,
            }) && r.next == Next::Send(
                Request::RegisterStart { login: old(self).login, message: s.message },
            ),
            started matches Err(e) ==> final(self).state is Finished && r.next == Next::Finish(
                Err::<Action, Error>(Error::Lldap(lldap::Error::Authentication(e))),
            ),
            final(self).name == old(self).name,
            final(self).namespace == old(self).namespace,
            final(self).login == old(self).login,
            final(self).secret_name == old(self).secret_name,
            final(self).owner == old(self).owner,
            final(self).groups == old(self).groups,
            final(self).user_confirmed == old(self).user_confirmed,
    {
        match started {
            Ok(start) => {
                let request = Request::RegisterStart {
                    login: self.login.clone(),
                    message: start.message,
                };
                self.state = ApplyState::Registering { secret, state: start.state };
                Step { notice: None, next: Next::Send(request) }
            },
            Err(e) => {
                self.state = ApplyState::Finished;
                Step {
                    notice: None,
                    next: Next::Finish(Err(Error::Lldap(lldap::Error::Authentication(e)))),
                }
            },
        }
    }

    /// Goes on from the second half of the registration as the OPAQUE
    /// client returned it: sends its upload with the server's data, or ends
    /// with its error.
    pub fn registration_finished(
        &mut self,
        secret: SecretData,
        server_data: String,
        finished: Result<Vec<u8>, lldap_auth::opaque::AuthenticationError>,
    ) -> (r: Step)
        ensures
            r.notice is None,
            finished matches Ok(u) ==> final(self).state == (ApplyState::FinishingRegistration {
                secret,
            }) && r.next == Next::Send(Request::RegisterFinish { server_data, upload: u }),
            finished matches Err(e) ==> final(self).state is Finished && r.next == Next::Finish(
                Err::<Action, Error>(Error::Lldap(lldap::Error::Authentication(e))),
            ),
            final(self).name == old(self).name,
            final(self).namespace == old(self).namespace,
            final(self).login == old(self).login,
            final(self).secret_name == old(self).secret_name,
            final(self).owner == old(self).owner,
            final(self).groups == old(self).groups,
            final(self).user_confirmed == old(self).user_confirmed,
    {
        match finished {
            Ok(upload) => {
                self.state = ApplyState::FinishingRegistration { secret };
                Step { notice: None, next: Next::Send(Request::RegisterFinish { server_data, upload }) }
            },
            Err(e) => {
                self.state = ApplyState::Finished;
                Step {
                    notice: None,
                    next: Next::Finish(Err(Error::Lldap(lldap::Error::Authentication(e)))),
                }
            },
        }
    }

    /// Sends the next membership change of `update`, from `leave` in its
    /// removals and `join` in its additions, or else registers the password.
    fn next_membership(&mut self, secret: SecretData, update: GroupUpdate, leave: usize, join: usize) -> (r:
        Step)
        ensures
            membership_step(
                old(self).login@,
                secret,
                update,
                leave as int,
                join as int,
                final(self).state,
                r,
            ),
            final(self).name == old(self).name,
            final(self).namespace == old(self).namespace,
            final(self).login == old(self).login,
            final(self).secret_name == old(self).secret_name,
            final(self).owner == old(self).owner,
            final(self).groups == old(self).groups,
            final(self).user_confirmed == old(self).user_confirmed,
    {
        if leave < update.remove.len() {
            let request = Request::RemoveUserFromGroup {
                login: self.login.clone(),
                group: update.remove[leave],
            };
            self.state = ApplyState::Leaving { secret, update, index: leave };
            Step { notice: None, next: Next::Send(request) }
        } else if join < update.add.len() {
            let request = Request::AddUserToGroup {
                login: self.login.clone(),
                group: update.add[join],
            };
            self.state = ApplyState::Joining { secret, update, index: join };
            Step { notice: None, next: Next::Send(request) }
        } else {
            self.register_password(secret)
        }
    }

    /// Advances the apply with the answer to the request in flight.
    pub fn step(&mut self, event: Result<Response, Error>) -> (r: Step)
        requires
            old(self).wf(),
            apply_awaits(old(self).state, event),
        ensures
            final(self).wf(),
            final(self).name == old(self).name,
            final(self).namespace == old(self).namespace,
            final(self).login == old(self).login,
            final(self).secret_name == old(self).secret_name,
            final(self).groups == old(self).groups,
            apply_step(*old(self), event, *final(self), r),
            final(self).user_confirmed@ == (old(self).user_confirmed@ || ((old(self).state is GettingUser
                || old(self).state is CreatingUser) && event matches Ok(Response::User(_)))),
    {
        let mut state = ApplyState::Finished;
        std::mem::swap(&mut self.state, &mut state);
        let resp = match event {
            Err(e) => {
                if let ApplyState::GettingUser { secret } = state {
                    let missing = match &e {
                        Error::Lldap(le) => lldap::is_user_not_found(le, self.login.as_str()),
                        _ => false,
                    };
                    if missing {
                        self.state = ApplyState::CreatingUser { secret };
                        let request = Request::CreateUser { login: self.login.clone() };
                        return Step { notice: None, next: Next::Send(request) };
                    }
                }
                return Step { notice: None, next: Next::Finish(Err(e)) };
            },
            Ok(resp) => resp,
        };
        match (state, resp) {
            (ApplyState::FetchingSecret, Response::Secret(Some(s))) => {
                self.state = ApplyState::CommittingSecret { created: false };
                let request = Request::CommitSecret {
                    namespace: self.namespace.clone(),
                    name: self.secret_name.clone(),
                    secret: s,
                };
                Step { notice: None, next: Next::Send(request) }
            },
            (ApplyState::FetchingSecret, Response::Secret(None)) => {
                let owner = match self.owner.take() {
                    Some(o) => o,
                    None => {
                        proof {
                            assert(false);
                        }
                        unreached()
                    },
                };
                let secret = new_secret(self.login.as_str(), owner);
                self.state = ApplyState::CommittingSecret { created: true };
                let request = Request::CommitSecret {
                    namespace: self.namespace.clone(),
                    name: self.secret_name.clone(),
                    secret,
                };
                Step { notice: None, next: Next::Send(request) }
            },
            (ApplyState::CommittingSecret { created }, Response::Committed(s)) => {
                self.state = ApplyState::LoggingIn { secret: s };
                let notice = if created {
                    Some(Notice { kind: EventKind::SecretCreated, subject: self.secret_name.clone() })
                } else {
                    None
                };
                Step { notice, next: Next::Send(Request::Login) }
            },
            (ApplyState::LoggingIn { secret }, Response::Done) => {
                self.state = ApplyState::GettingUser { secret };
                Step { notice: None, next: Next::Send(Request::GetUser { login: self.login.clone() }) }
            },
            (ApplyState::GettingUser { secret }, Response::User(user)) => {
                self.user_confirmed = Ghost(true);
                self.state = ApplyState::ListingGroups { secret, user };
                Step { notice: None, next: Next::Send(Request::ListGroups) }
            },
            (ApplyState::CreatingUser { secret }, Response::User(user)) => {
                self.user_confirmed = Ghost(true);
                self.state = ApplyState::ListingGroups { secret, user };
                let notice = Notice { kind: EventKind::UserCreated, subject: self.login.clone() };
                Step { notice: Some(notice), next: Next::Send(Request::ListGroups) }
            },
            (ApplyState::ListingGroups { secret, user }, Response::Groups(groups)) => {
                let update = plan_group_update(&user, &self.groups, &groups);
                let ghost planned = update;
                let r = self.next_membership(secret, update, 0, 0);
                assert(is_planned(planned, user, self.groups.deep_view(), groups@));
                r
            },
            (ApplyState::Leaving { secret, update, index }, Response::Done) => {
                let leaving = update.remove.len();
                assert(index < leaving);
                self.next_membership(secret, update, index + 1, 0)
            },
            (ApplyState::Joining { secret, update, index }, Response::Done) => {
                let joining = update.add.len();
                assert(index < joining);
                let leave = update.remove.len();
                self.next_membership(secret, update, leave, index + 1)
            },
            (
                ApplyState::Registering { secret, state },
                Response::RegistrationStarted { server_data, registration_response },
            ) => {
                let finished = finish_registration(state.as_slice(), registration_response.as_slice());
                self.registration_finished(secret, server_data, finished)
            },
            (ApplyState::FinishingRegistration { secret }, Response::Done) => {
                self.state = ApplyState::PatchingStatus;
                let request = Request::PatchStatus {
                    namespace: self.namespace.clone(),
                    name: self.name.clone(),
                    status: ServiceUserStatus { secret_created: secret.creation_timestamp },
                };
                Step { notice: None, next: Next::Send(request) }
            },
            (ApplyState::PatchingStatus, Response::Done) => Step {
                notice: None,
                next: Next::Finish(Ok(Action::Requeue { seconds: APPLY_REQUEUE_SECONDS })),
            },
            _ => {
                proof {
                    assert(false);
                }
                unreached()
            },
        }
    }
}

/// Where a cleanup stands.
#[derive(Debug, Clone, Copy, PartialEq, Eq, Structural)]
pub enum CleanupState {
    /// Logging in to the directory.
    LoggingIn,
    /// Deleting the directory user.
    DeletingUser,
    /// Done; no request is in flight.
    Finished,
}

/// The cleanup of one `ServiceUser` that is being deleted: its directory
/// user goes; the secret goes with the object, which owns it.
#[derive(Debug)]
pub struct ServiceUserCleanup {
    /// The directory login, `<name>.<namespace>`.
    pub login: String,
    pub state: CleanupState,
}

/// Whether `event` answers the request that `state` has in flight.
pub open spec fn cleanup_awaits(state: CleanupState, event: Result<Response, Error>) -> bool {
    &&& state != CleanupState::Finished
    &&& event matches Ok(resp) ==> resp is Done
}

/// Whether `err` is the directory's answer that there is no user `login` to delete.
pub open spec fn is_absent_user(err: Error, login: Seq<char>) -> bool {
    match err {
        Error::Lldap(e) => lldap::is_graphql_message(e, lldap::no_such_user_message(login)),
        _ => false,
    }
}

impl ServiceUserCleanup {
    /// Starts the cleanup of `user`: log in to the directory. Fails when the
    /// object lacks a name or a namespace.
    pub fn start(user: &ServiceUser) -> (r: (Self, Step))
        ensures
            r.1.notice is None,
            user.metadata.name is None ==> r.0.state == CleanupState::Finished && r.1.next
                == Next::Finish(Err::<Action, Error>(Error::MissingObjectKey(".metadata.name"))),
            user.metadata.name is Some && user.metadata.namespace is None ==> r.0.state
                == CleanupState::Finished && r.1.next == Next::Finish(
                Err::<Action, Error>(Error::MissingObjectKey(".metadata.namespace")),
            ),
            user.metadata.name is Some && user.metadata.namespace is Some ==> {
                &&& r.0.login@ == login_of(
                    user.metadata.name->0@,
                    user.metadata.namespace->0@,
                )
                &&& r.0.state == CleanupState::LoggingIn
                &&& r.1.next == Next::Send(Request::Login)
            },
    {
        match (&user.metadata.name, &user.metadata.namespace) {
            (Some(name), Some(namespace)) => {
                let login = format_username(name.as_str(), namespace.as_str());
                (
                    ServiceUserCleanup { login, state: CleanupState::LoggingIn },
                    Step { notice: None, next: Next::Send(Request::Login) },
                )
            },
            _ => {
                let err = if user.metadata.name.is_none() {
                    Error::MissingObjectKey(".metadata.name")
                } else {
                    Error::MissingObjectKey(".metadata.namespace")
                };
                (
                    ServiceUserCleanup { login: String::new(), state: CleanupState::Finished },
                    Step { notice: None, next: Next::Finish(Err(err)) },
                )
            },
        }
    }

    /// Whether `event` answers the request in flight.
    pub fn awaits(&self, event: &Result<Response, Error>) -> (r: bool)
        ensures
            r == cleanup_awaits(self.state, *event),
    {
        match event {
            Ok(Response::Done) | Err(_) => self.state != CleanupState::Finished,
            _ => false,
        }
    }

    /// Advances the cleanup with the answer to the request in flight. A
    /// user that is already gone counts as deleted, with a warning event.
    pub fn step(&mut self, event: Result<Response, Error>) -> (r: Step)
        requires
            cleanup_awaits(old(self).state, event),
        ensures
            final(self).login == old(self).login,
            event is Ok && old(self).state == CleanupState::LoggingIn ==> {
                &&& final(self).state == CleanupState::DeletingUser
                &&& r.notice is None
                &&& r.next == Next::Send(Request::DeleteUser { login: old(self).login })
            },
            event is Ok && old(self).state == CleanupState::DeletingUser ==> {
                &&& final(self).state == CleanupState::Finished
                &&& r.notice == Some(
                    Notice { kind: EventKind::UserDeleted, subject: old(self).login },
                )
                &&& r.next == Next::Finish(Ok::<Action, Error>(Action::AwaitChange))
            },
            event matches Err(e) ==> final(self).state == CleanupState::Finished,
            event matches Err(e) ==> if old(self).state == CleanupState::DeletingUser
                && is_absent_user(e, old(self).login@) {
                &&& r.notice == Some(
                    Notice { kind: EventKind::UserNotFound, subject: old(self).login },
                )
                &&& r.next == Next::Finish(Ok::<Action, Error>(Action::AwaitChange))
            } else {
                &&& r.notice is None
                &&& r.next == Next::Finish(Err::<Action, Error>(e))
            },
    {
        let state = self.state;
        self.state = CleanupState::Finished;
        match event {
            Ok(_) => {
                if state == CleanupState::LoggingIn {
                    self.state = CleanupState::DeletingUser;
                    let request = Request::DeleteUser { login: self.login.clone() };
                    Step { notice: None, next: Next::Send(request) }
                } else {
                    let notice = Notice { kind: EventKind::UserDeleted, subject: self.login.clone() };
                    Step { notice: Some(notice), next: Next::Finish(Ok(Action::AwaitChange)) }
                }
            },
            Err(e) => {
                let absent = state == CleanupState::DeletingUser && match &e {
                    Error::Lldap(le) => lldap::is_no_such_user(le, self.login.as_str()),
                    _ => false,
                };
                if absent {
                    let notice = Notice { kind: EventKind::UserNotFound, subject: self.login.clone() };
                    Step { notice: Some(notice), next: Next::Finish(Ok(Action::AwaitChange)) }
                } else {
                    Step { notice: None, next: Next::Finish(Err(e)) }
                }
            },
        }
    }
}

} // verus!
