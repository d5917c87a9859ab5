use lldap_controller::lldap::{
    bearer_header, check_graphql_errors, is_no_such_user, is_user_not_found, Error, GraphQlError,
    GraphQlResponse, LldapConfig,
};
use lldap_controller::membership::{
    contains_id, find_group_id, ids_not_in, plan_group_update, resolve_group_ids, user_group_ids,
};
use lldap_controller::queries::{
    Group, User, ADD_USER_TO_GROUP_QUERY, CREATE_USER_QUERY, DELETE_USER_QUERY, GET_GROUPS_QUERY,
    GET_USER_QUERY, REMOVE_USER_FROM_GROUP_QUERY,
};

fn group(id: i32, name: &str) -> Group {
    Group { id, display_name: name.to_string() }
}

fn gql(message: &str) -> Error {
    Error::GraphQl(GraphQlError { message: message.to_string() })
}

#[test]
fn graphql_errors_surface_first_entry() {
    let response: GraphQlResponse<i32> = GraphQlResponse {
        data: None,
        errors: Some(vec![
            GraphQlError { message: "first".to_string() },
            GraphQlError { message: "second".to_string() },
        ]),
    };
    match check_graphql_errors(response) {
        Err(Error::GraphQl(e)) => assert_eq!(e.message, "first"),
        other => panic!("unexpected {other:?}"),
    }
}

#[test]
fn graphql_data_without_errors() {
    let response = GraphQlResponse { data: Some(7), errors: Some(vec![]) };
    assert_eq!(check_graphql_errors(response).unwrap(), 7);
    let response = GraphQlResponse { data: Some(8), errors: None };
    assert_eq!(check_graphql_errors(response).unwrap(), 8);
}

#[test]
fn not_found_messages_are_recognised() {
    assert!(is_user_not_found(&gql("Entity not found: `gitea.apps`"), "gitea.apps"));
    assert!(!is_user_not_found(&gql("Entity not found: `other.apps`"), "gitea.apps"));
    assert!(!is_user_not_found(&Error::Reqwest("Entity not found: `gitea.apps`".into()), "gitea.apps"));
    assert!(is_no_such_user(&gql("Entity not found: `No such user: 'gitea.apps'`"), "gitea.apps"));
    assert!(!is_no_such_user(&gql("Entity not found: `gitea.apps`"), "gitea.apps"));
    assert!(!is_user_not_found(&gql("Entity not found: `No such user: 'gitea.apps'`"), "gitea.apps"));
}

#[test]
fn endpoint_urls() {
    let config = LldapConfig::new("admin".into(), "pw".into(), "http://lldap:17170".into());
    assert_eq!(config.login_url(), "http://lldap:17170/auth/simple/login");
    assert_eq!(config.graphql_url(), "http://lldap:17170/api/graphql");
    assert_eq!(config.register_start_url(), "http://lldap:17170/auth/opaque/register/start");
    assert_eq!(config.register_finish_url(), "http://lldap:17170/auth/opaque/register/finish");
    assert_eq!(bearer_header("abc"), "Bearer abc");
}

#[test]
fn unknown_group_names_are_ignored() {
    let groups = vec![group(1, "a"), group(2, "b"), group(3, "b")];
    let names = vec!["b".to_string(), "missing".to_string(), "a".to_string()];
    assert_eq!(resolve_group_ids(&names, &groups), vec![2, 1]);
    assert_eq!(find_group_id(&groups, &"b".to_string()), Some(2));
    assert_eq!(find_group_id(&groups, &"c".to_string()), None);
}

#[test]
fn membership_plan_removes_and_adds() {
    let groups = vec![group(1, "lldap_strict_readonly"), group(2, "grafana-admins"), group(3, "old")];
    let user = User { id: "gitea.apps".into(), groups: vec![group(1, "lldap_strict_readonly"), group(3, "old")] };
    let needed = vec!["grafana-admins".to_string(), "lldap_strict_readonly".to_string()];
    let update = plan_group_update(&user, &needed, &groups);
    assert_eq!(update.remove, vec![3]);
    assert_eq!(update.add, vec![2]);
    assert_eq!(user_group_ids(&user), vec![1, 3]);
    assert!(contains_id(&vec![4, 5], 5));
    assert!(!contains_id(&vec![], 5));
    assert_eq!(ids_not_in(&vec![1, 2, 3, 2], &vec![2]), vec![1, 3]);
}

#[test]
fn membership_plan_is_empty_when_in_place() {
    let groups = vec![group(1, "lldap_strict_readonly")];
    let user = User { id: "gitea.apps".into(), groups: vec![group(1, "lldap_strict_readonly")] };
    let update = plan_group_update(&user, &vec!["lldap_strict_readonly".to_string()], &groups);
    assert!(update.remove.is_empty());
    assert!(update.add.is_empty());
}

#[test]
fn delete_user_gql_output() {
    assert!(DELETE_USER_QUERY.starts_with("mutation DeleteUser($username: String!)"));
    assert!(DELETE_USER_QUERY.contains("deleteUser(userId: $username)"));
}

#[test]
fn create_user_gql_output() {
    assert!(CREATE_USER_QUERY.starts_with("mutation CreateUser($username: String!)"));
    assert!(CREATE_USER_QUERY.contains("createUser(user: {email: $username, id: $username})"));
}

#[test]
fn add_user_to_group_gql_output() {
    assert!(ADD_USER_TO_GROUP_QUERY.contains("addUserToGroup(groupId: $group, userId: $username)"));
}

#[test]
fn remove_user_from_group_gql_output() {
    assert!(REMOVE_USER_FROM_GROUP_QUERY
        .contains("removeUserFromGroup(groupId: $group, userId: $username)"));
}

#[test]
fn get_user_gql_output() {
    assert!(GET_USER_QUERY.starts_with("query GetUser($username: String!)"));
    assert!(GET_USER_QUERY.contains("user(userId: $username)"));
}

#[test]
fn get_groups_gql_output() {
    assert!(GET_GROUPS_QUERY.starts_with("query GetGroups"));
    assert!(GET_GROUPS_QUERY.contains("displayName"));
}

#[test]
fn repeated_group_names_join_once() {
    let groups = vec![group(1, "lldap_strict_readonly"), group(2, "grafana-admins")];
    let user = User { id: "gitea.apps".into(), groups: vec![] };
    let needed = vec![
        "lldap_strict_readonly".to_string(),
        "grafana-admins".to_string(),
        "grafana-admins".to_string(),
        "lldap_strict_readonly".to_string(),
    ];
    assert_eq!(resolve_group_ids(&needed, &groups), vec![1, 2]);
    let update = plan_group_update(&user, &needed, &groups);
    assert_eq!(update.add, vec![1, 2]);
    assert!(update.remove.is_empty());
}
