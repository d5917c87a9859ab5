use std::collections::BTreeMap;

use lldap_auth::opaque::server::registration::{start_registration, RegistrationRequest, RegistrationUpload};
use lldap_auth::opaque::server::ServerSetup;
use lldap_controller::controller::{error_policy, Action, Next, Request, Response, Step};
use lldap_controller::events::EventKind;
use lldap_controller::group::GroupReconcile;
use lldap_controller::lldap::{self, GraphQlError};
use lldap_controller::queries::{Group as DirGroup, User};
use lldap_controller::resources::{
    Error, Group, GroupSpec, ObjectMeta, OwnerReference, SecretData, ServiceUser, ServiceUserSpec,
    ServiceUserStatus, Timestamp,
};
use lldap_controller::service_user::{ServiceUserApply, ServiceUserCleanup};

/// A cluster and a directory that answer the reconcilers' requests.
struct World {
    secrets: BTreeMap<(String, String), SecretData>,
    status: Option<ServiceUserStatus>,
    users: BTreeMap<String, Vec<i32>>,
    groups: Vec<(i32, String)>,
    next_id: i32,
    logins: usize,
    outages: usize,
    corrupt_registration: bool,
    registered: Vec<String>,
    requests: Vec<String>,
    events: Vec<(EventKind, String)>,
    server: ServerSetup,
}

impl World {
    fn new() -> Self {
        World {
            secrets: BTreeMap::new(),
            status: None,
            users: BTreeMap::new(),
            groups: vec![(1, "lldap_strict_readonly".into()), (2, "lldap_password_manager".into())],
            next_id: 10,
            logins: 0,
            outages: 0,
            corrupt_registration: false,
            registered: vec![],
            requests: vec![],
            events: vec![],
            server: ServerSetup::new(&mut rand::rngs::OsRng),
        }
    }

    fn user(&self, login: &str) -> User {
        let groups = self.users[login]
            .iter()
            .map(|id| DirGroup {
                id: *id,
                display_name: self.groups.iter().find(|g| g.0 == *id).unwrap().1.clone(),
            })
            .collect();
        User { id: login.to_string(), groups }
    }

    fn gql(message: String) -> Result<Response, Error> {
        Err(Error::Lldap(lldap::Error::GraphQl(GraphQlError { message })))
    }

    fn answer(&mut self, request: Request) -> Result<Response, Error> {
        self.requests.push(format!("{request:?}").split([' ', '{', '(']).next().unwrap().to_string());
        match request {
            Request::GetSecret { namespace, name } => {
                Ok(Response::Secret(self.secrets.get(&(namespace, name)).cloned()))
            }
            Request::CommitSecret { namespace, name, mut secret } => {
                if secret.creation_timestamp.is_none() {
                    secret.creation_timestamp = Some(Timestamp { seconds: 1_700_000_000, nanos: 0 });
                }
                self.secrets.insert((namespace, name), secret.clone());
                Ok(Response::Committed(secret))
            }
            Request::Login => {
                self.logins += 1;
                if self.outages > 0 {
                    self.outages -= 1;
                    return Err(Error::Lldap(lldap::Error::Reqwest("operation timed out".into())));
                }
                Ok(Response::Done)
            }
            Request::GetUser { login } => {
                if self.users.contains_key(&login) {
                    Ok(Response::User(self.user(&login)))
                } else {
                    Self::gql(format!("Entity not found: `{login}`"))
                }
            }
            Request::CreateUser { login } => {
                self.users.insert(login.clone(), vec![]);
                Ok(Response::User(self.user(&login)))
            }
            Request::ListGroups => Ok(Response::Groups(
                self.groups.iter().map(|g| DirGroup { id: g.0, display_name: g.1.clone() }).collect(),
            )),
            Request::RemoveUserFromGroup { login, group } => {
                self.users.get_mut(&login).unwrap().retain(|g| *g != group);
                Ok(Response::Done)
            }
            Request::AddUserToGroup { login, group } => {
                self.users.get_mut(&login).unwrap().push(group);
                Ok(Response::Done)
            }
            Request::RegisterStart { login, message } => {
                let request = RegistrationRequest::deserialize(&message).unwrap();
                let start = start_registration(&self.server, request, &login).unwrap();
                let mut registration_response = start.message.serialize();
                if self.corrupt_registration {
                    registration_response.truncate(3);
                }
                Ok(Response::RegistrationStarted { server_data: login, registration_response })
            }
            Request::RegisterFinish { server_data, upload } => {
                RegistrationUpload::deserialize(&upload).unwrap();
                self.registered.push(server_data);
                Ok(Response::Done)
            }
            Request::PatchStatus { status, .. } => {
                self.status = Some(status);
                Ok(Response::Done)
            }
            Request::DeleteUser { login } => {
                if self.users.remove(&login).is_some() {
                    Ok(Response::Done)
                } else {
                    Self::gql(format!("Entity not found: `No such user: '{login}'`"))
                }
            }
            Request::CreateGroup { name } => {
                self.groups.push((self.next_id, name));
                self.next_id += 1;
                Ok(Response::Done)
            }
            Request::DeleteGroup { id } => {
                self.groups.retain(|g| g.0 != id);
                Ok(Response::Done)
            }
        }
    }

    fn run(&mut self, mut step: Step, mut advance: impl FnMut(Result<Response, Error>) -> Step) -> Result<Action, Error> {
        loop {
            if let Some(notice) = step.notice.take() {
                self.events.push((notice.kind, notice.subject.clone()));
            }
            match step.next {
                Next::Finish(result) => return result,
                Next::Send(request) => {
                    let event = self.answer(request);
                    step = advance(event);
                }
            }
        }
    }

    fn apply(&mut self, user: &ServiceUser) -> Result<Action, Error> {
        let (mut apply, step) = ServiceUserApply::start(user, Some(owner()));
        self.run(step, |event| {
            assert!(apply.awaits(&event));
            apply.step(event)
        })
    }

    fn cleanup(&mut self, user: &ServiceUser) -> Result<Action, Error> {
        let (mut cleanup, step) = ServiceUserCleanup::start(user);
        self.run(step, |event| {
            assert!(cleanup.awaits(&event));
            cleanup.step(event)
        })
    }

    fn group(&mut self, group: &Group, cleanup: bool) -> Result<Action, Error> {
        let (mut reconcile, step) = GroupReconcile::start(group, cleanup);
        self.run(step, |event| {
            assert!(reconcile.awaits(&event));
            reconcile.step(event)
        })
    }

    fn group_names(&self, login: &str) -> Vec<String> {
        let mut names: Vec<String> = self.user(login).groups.into_iter().map(|g| g.display_name).collect();
        names.sort();
        names
    }
}

fn owner() -> OwnerReference {
    OwnerReference {
        api_version: "lldap.huizinga.dev/v1".into(),
        kind: "ServiceUser".into(),
        name: "gitea".into(),
        uid: "uid-gitea".into(),
        controller: true,
        block_owner_deletion: true,
    }
}

fn service_user(password_manager: bool, groups: &[&str]) -> ServiceUser {
    ServiceUser {
        metadata: ObjectMeta {
            name: Some("gitea".into()),
            namespace: Some("apps".into()),
            finalizers: vec!["lldap.huizinga.dev".into()],
            deleting: false,
        },
        spec: ServiceUserSpec::new(password_manager, groups.iter().map(|g| g.to_string()).collect()),
    }
}

fn group_object(name: &str) -> Group {
    Group {
        metadata: ObjectMeta { name: Some(name.into()), namespace: None, finalizers: vec![], deleting: false },
        spec: GroupSpec {},
    }
}

fn key() -> (String, String) {
    ("apps".to_string(), "gitea-lldap-credentials".to_string())
}

#[test]
fn fresh_service_user() {
    let mut world = World::new();
    let action = world.apply(&service_user(false, &[])).unwrap();
    assert_eq!(action, Action::Requeue { seconds: 3600 });
    let secret = &world.secrets[&key()];
    assert_eq!(secret.username.as_deref(), Some("gitea.apps"));
    assert_eq!(secret.password.as_ref().unwrap().chars().count(), 32);
    assert_eq!(secret.owner_references[0].uid, "uid-gitea");
    assert_eq!(world.group_names("gitea.apps"), vec!["lldap_strict_readonly"]);
    assert_eq!(world.registered, vec!["gitea.apps"]);
    assert_eq!(world.status.unwrap().secret_created, secret.creation_timestamp);
    assert!(world.status.unwrap().secret_created.is_some());
    assert_eq!(
        world.events,
        vec![
            (EventKind::SecretCreated, "gitea-lldap-credentials".to_string()),
            (EventKind::UserCreated, "gitea.apps".to_string()),
        ]
    );
}

#[test]
fn second_apply_changes_nothing() {
    let mut world = World::new();
    world.apply(&service_user(true, &[])).unwrap();
    let password = world.secrets[&key()].password.clone();
    let events = world.events.len();
    world.requests.clear();
    world.apply(&service_user(true, &[])).unwrap();
    assert_eq!(world.events.len(), events);
    assert_eq!(world.secrets[&key()].password, password);
    assert!(!world.requests.iter().any(|r| r == "CreateUser" || r == "AddUserToGroup" || r == "RemoveUserFromGroup"));
    assert_eq!(world.group_names("gitea.apps"), vec!["lldap_password_manager"]);
    assert_eq!(world.logins, 2);
}

#[test]
fn adding_a_group() {
    let mut world = World::new();
    world.groups.push((5, "grafana-admins".into()));
    world.apply(&service_user(false, &[])).unwrap();
    let password = world.secrets[&key()].password.clone();
    let events = world.events.len();
    world.apply(&service_user(false, &["grafana-admins"])).unwrap();
    assert_eq!(world.group_names("gitea.apps"), vec!["grafana-admins", "lldap_strict_readonly"]);
    assert_eq!(world.secrets[&key()].password, password);
    assert_eq!(world.events.len(), events);
}

#[test]
fn unknown_groups_and_role_change() {
    let mut world = World::new();
    world.apply(&service_user(false, &["no-such-group"])).unwrap();
    assert_eq!(world.group_names("gitea.apps"), vec!["lldap_strict_readonly"]);
    world.apply(&service_user(true, &[])).unwrap();
    assert_eq!(world.group_names("gitea.apps"), vec!["lldap_password_manager"]);
}

#[test]
fn deleting_a_service_user() {
    let mut world = World::new();
    world.apply(&service_user(false, &[])).unwrap();
    let action = world.cleanup(&service_user(false, &[])).unwrap();
    assert_eq!(action, Action::AwaitChange);
    assert!(!world.users.contains_key("gitea.apps"));
    assert_eq!(world.events.last().unwrap(), &(EventKind::UserDeleted, "gitea.apps".to_string()));
}

#[test]
fn deleting_a_service_user_already_gone() {
    let mut world = World::new();
    let action = world.cleanup(&service_user(false, &[])).unwrap();
    assert_eq!(action, Action::AwaitChange);
    assert_eq!(world.events, vec![(EventKind::UserNotFound, "gitea.apps".to_string())]);
}

#[test]
fn apply_then_cleanup_pairs_end_with_last() {
    let mut world = World::new();
    for _ in 0..2 {
        world.apply(&service_user(false, &[])).unwrap();
        world.cleanup(&service_user(false, &[])).unwrap();
    }
    assert!(!world.users.contains_key("gitea.apps"));
    world.apply(&service_user(false, &[])).unwrap();
    assert_eq!(world.group_names("gitea.apps"), vec!["lldap_strict_readonly"]);
}

#[test]
fn fresh_group_then_noop() {
    let mut world = World::new();
    let action = world.group(&group_object("grafana-admins"), false).unwrap();
    assert_eq!(action, Action::Requeue { seconds: 3600 });
    assert_eq!(world.groups.iter().filter(|g| g.1 == "grafana-admins").count(), 1);
    assert_eq!(world.events, vec![(EventKind::GroupCreated, "grafana-admins".to_string())]);
    world.group(&group_object("grafana-admins"), false).unwrap();
    assert_eq!(world.groups.iter().filter(|g| g.1 == "grafana-admins").count(), 1);
    assert_eq!(world.events.len(), 1);
}

#[test]
fn group_cleanup_deletes_and_is_idempotent() {
    let mut world = World::new();
    world.group(&group_object("grafana-admins"), false).unwrap();
    assert_eq!(world.group(&group_object("grafana-admins"), true).unwrap(), Action::AwaitChange);
    assert!(!world.groups.iter().any(|g| g.1 == "grafana-admins"));
    assert_eq!(world.events.last().unwrap(), &(EventKind::GroupDeleted, "grafana-admins".to_string()));
    assert_eq!(world.group(&group_object("grafana-admins"), true).unwrap(), Action::AwaitChange);
    assert_eq!(world.events.len(), 2);
}

#[test]
fn transient_directory_outage() {
    let mut world = World::new();
    world.outages = 1;
    let err = world.apply(&service_user(false, &[])).unwrap_err();
    assert!(matches!(err, Error::Lldap(lldap::Error::Reqwest(_))));
    assert_eq!(error_policy(&err), Action::Requeue { seconds: 5 });
    assert!(world.status.is_none());
    world.apply(&service_user(false, &[])).unwrap();
    assert_eq!(world.group_names("gitea.apps"), vec!["lldap_strict_readonly"]);
    assert_eq!(world.registered, vec!["gitea.apps"]);
    assert!(world.status.unwrap().secret_created.is_some());
    assert_eq!(world.events.iter().filter(|e| e.0 == EventKind::SecretCreated).count(), 1);
}

#[test]
fn non_ascii_password_is_registered() {
    let mut world = World::new();
    let mut secret = lldap_controller::secret::new_secret("gitea.apps", owner());
    secret.password = Some("pässwörd ✓ \u{1F511}".to_string());
    world.secrets.insert(key(), secret);
    world.apply(&service_user(false, &[])).unwrap();
    assert_eq!(world.registered, vec!["gitea.apps"]);
}

#[test]
fn missing_password_fails_apply() {
    let mut world = World::new();
    let mut secret = lldap_controller::secret::new_secret("gitea.apps", owner());
    secret.password = None;
    world.secrets.insert(key(), secret);
    let err = world.apply(&service_user(false, &[])).unwrap_err();
    assert!(matches!(err, Error::MissingObjectKey(".data.password")));
}

#[test]
fn missing_object_keys() {
    let mut user = service_user(false, &[]);
    user.metadata.namespace = None;
    let (_, step) = ServiceUserApply::start(&user, Some(owner()));
    assert!(matches!(step.next, Next::Finish(Err(Error::MissingObjectKey(".metadata.namespace")))));
    let (_, step) = ServiceUserCleanup::start(&user);
    assert!(matches!(step.next, Next::Finish(Err(Error::MissingObjectKey(".metadata.namespace")))));
    user.metadata.name = None;
    let (_, step) = ServiceUserApply::start(&user, Some(owner()));
    assert!(matches!(step.next, Next::Finish(Err(Error::MissingObjectKey(".metadata.name")))));
    let (_, step) = ServiceUserApply::start(&service_user(false, &[]), None);
    assert!(matches!(step.next, Next::Finish(Err(Error::MissingObjectKey(".metadata.uid")))));
    let mut group = group_object("g");
    group.metadata.name = None;
    let (_, step) = GroupReconcile::start(&group, false);
    assert!(matches!(step.next, Next::Finish(Err(Error::MissingObjectKey(".metadata.name")))));
}

#[test]
fn each_reconcile_logs_in() {
    let mut world = World::new();
    world.apply(&service_user(false, &[])).unwrap();
    world.apply(&service_user(false, &[])).unwrap();
    world.cleanup(&service_user(false, &[])).unwrap();
    assert_eq!(world.logins, 3);
}

#[test]
fn corrupt_registration_response_fails_apply() {
    let mut world = World::new();
    world.corrupt_registration = true;
    let err = world.apply(&service_user(false, &[])).unwrap_err();
    assert!(matches!(err, Error::Lldap(lldap::Error::Authentication(_))));
    assert!(world.registered.is_empty());
    assert!(world.status.is_none());
}

#[test]
fn role_group_listed_twice_is_joined_once() {
    let mut world = World::new();
    world.apply(&service_user(false, &["lldap_strict_readonly"])).unwrap();
    assert_eq!(world.users["gitea.apps"], vec![1]);
    assert_eq!(world.requests.iter().filter(|r| *r == "AddUserToGroup").count(), 1);
}
