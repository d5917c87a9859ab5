//! The GraphQL operations that the controller sends to the directory, their
//! variables and the shapes of their results.

use vstd::prelude::*;

verus! {

/// Variables of [`DeleteUser`].
#[derive(Debug)]
pub struct DeleteUserVariables<'a> {
    pub username: &'a str,
}

/// `deleteUser(userId)` mutation.
#[derive(Debug)]
pub struct DeleteUser {
    pub delete_user: Success,
}

/// Result of a mutation that reports only success.
#[derive(Debug)]
pub struct Success {
    pub ok: bool,
}

/// Variables of [`CreateUser`]; the login is used as both id and email.
#[derive(Debug)]
pub struct CreateUserVariables<'a> {
    pub username: &'a str,
}

/// `createUser(user: {id, email})` mutation.
#[derive(Debug)]
pub struct CreateUser {
    pub create_user: User,
}

/// Variables of [`AddUserToGroup`].
#[derive(Debug)]
pub struct AddUserToGroupVariables<'a> {
    pub group: i32,
    pub username: &'a str,
}

/// `addUserToGroup(userId, groupId)` mutation.
#[derive(Debug)]
pub struct AddUserToGroup {
    pub add_user_to_group: Success,
}

/// Variables of [`RemoveUserFromGroup`].
#[derive(Debug)]
pub struct RemoveUserFromGroupVariables<'a> {
    pub group: i32,
    pub username: &'a str,
}

/// `removeUserFromGroup(userId, groupId)` mutation.
#[derive(Debug)]
pub struct RemoveUserFromGroup {
    pub remove_user_from_group: Success,
}

/// Variables of [`GetUser`].
#[derive(Debug)]
pub struct GetUserVariables<'a> {
    pub username: &'a str,
}

/// `user(userId)` query.
#[derive(Debug)]
pub struct GetUser {
    pub user: User,
}

/// A directory user with the groups it belongs to.
#[derive(Debug, Clone)]
pub struct User {
    pub id: String,
    pub groups: Vec<Group>,
}

/// A directory group: its id, assigned by the directory, and its display name.
#[derive(Debug, Clone)]
pub struct Group {
    pub id: i32,
    pub display_name: String,
}

/// `groups` query.
#[derive(Debug)]
pub struct GetGroups {
    pub groups: Vec<Group>,
}

/// Document of [`DeleteUser`].
pub const DELETE_USER_QUERY: &'static str =
    "mutation DeleteUser($username: String!) {\n  deleteUser(userId: $username) {\n    ok\n  }\n}\n";

/// Document of [`CreateUser`].
pub const CREATE_USER_QUERY: &'static str =
    "mutation CreateUser($username: String!) {\n  createUser(user: {email: $username, id: $username}) {\n    id\n    groups {\n      id\n      displayName\n    }\n  }\n}\n";

/// Document of [`AddUserToGroup`].
pub const ADD_USER_TO_GROUP_QUERY: &'static str =
    "mutation AddUserToGroup($group: Int!, $username: String!) {\n  addUserToGroup(groupId: $group, userId: $username) {\n    ok\n  }\n}\n";

/// Document of [`RemoveUserFromGroup`].
pub const REMOVE_USER_FROM_GROUP_QUERY: &'static str =
    "mutation RemoveUserFromGroup($group: Int!, $username: String!) {\n  removeUserFromGroup(groupId: $group, userId: $username) {\n    ok\n  }\n}\n";

/// Document of [`GetUser`].
pub const GET_USER_QUERY: &'static str =
    "query GetUser($username: String!) {\n  user(userId: $username) {\n    id\n    groups {\n      id\n      displayName\n    }\n  }\n}\n";

/// Document of [`GetGroups`].
pub const GET_GROUPS_QUERY: &'static str =
    "query GetGroups {\n  groups {\n    id\n    displayName\n  }\n}\n";

/// Document of the `createGroup(name)` mutation.
pub const CREATE_GROUP_QUERY: &'static str =
    "mutation CreateGroup($name: String!) {\n  createGroup(name: $name) {\n    id\n    displayName\n  }\n}\n";

/// Document of the `deleteGroup(groupId)` mutation.
pub const DELETE_GROUP_QUERY: &'static str =
    "mutation DeleteGroup($group: Int!) {\n  deleteGroup(groupId: $group) {\n    ok\n  }\n}\n";

} // verus!
