use lldap_controller::events::{EventKind, Notice};
use lldap_controller::naming::{format_username, role_group, secret_name, CONTROLLER_NAME};
use lldap_controller::resources::ServiceUserSpec;
use lldap_controller::service_user::desired_groups;

#[test]
fn username_is_name_dot_namespace() {
    assert_eq!(format_username("gitea", "apps"), "gitea.apps");
    assert_eq!(format_username("", ""), ".");
}

#[test]
fn secret_name_has_credentials_suffix() {
    assert_eq!(secret_name("gitea"), "gitea-lldap-credentials");
}

#[test]
fn role_group_depends_on_password_manager() {
    assert_eq!(role_group(true), "lldap_password_manager");
    assert_eq!(role_group(false), "lldap_strict_readonly");
    assert_eq!(CONTROLLER_NAME, "lldap.huizinga.dev");
}

#[test]
fn desired_groups_append_role_group() {
    let spec = ServiceUserSpec::new(false, vec![]);
    assert_eq!(desired_groups(&spec), vec!["lldap_strict_readonly".to_string()]);
    let spec = ServiceUserSpec::new(true, vec!["grafana-admins".to_string(), "b".to_string()]);
    assert_eq!(
        desired_groups(&spec),
        vec!["grafana-admins".to_string(), "b".to_string(), "lldap_password_manager".to_string()]
    );
}

#[test]
fn event_reasons_and_notes() {
    let cases = [
        (EventKind::SecretCreated, "SecretCreated", "Created secret 'x'", false),
        (EventKind::UserCreated, "UserCreated", "Created user 'x'", false),
        (EventKind::GroupCreated, "GroupCreated", "Created group 'x'", false),
        (EventKind::UserDeleted, "UserDeleted", "Deleted user 'x'", false),
        (EventKind::GroupDeleted, "GroupDeleted", "Deleted group 'x'", false),
        (EventKind::UserNotFound, "UserNotFound", "User 'x' not found", true),
    ];
    for (kind, reason, note, warning) in cases {
        assert_eq!(kind.reason(), reason);
        assert_eq!(kind.action(), reason);
        assert_eq!(kind.is_warning(), warning);
        let notice = Notice { kind, subject: "x".to_string() };
        assert_eq!(notice.note(), note);
    }
}
