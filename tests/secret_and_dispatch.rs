use lldap_controller::controller::{
    apply_finished, cleanup_finished, dispatch, error_policy, finalizer_added, finalizer_index,
    finalizer_removed, Action, Dispatch,
};
use lldap_controller::resources::{Error, FinalizerError, ObjectMeta, OwnerReference};
use lldap_controller::secret::new_secret;

fn oref() -> OwnerReference {
    OwnerReference {
        api_version: "lldap.huizinga.dev/v1".into(),
        kind: "ServiceUser".into(),
        name: "gitea".into(),
        uid: "uid-1".into(),
        controller: true,
        block_owner_deletion: true,
    }
}

fn meta(name: Option<&str>, finalizers: &[&str], deleting: bool) -> ObjectMeta {
    ObjectMeta {
        name: name.map(|n| n.to_string()),
        namespace: Some("apps".into()),
        finalizers: finalizers.iter().map(|f| f.to_string()).collect(),
        deleting,
    }
}

#[test]
fn new_secret_holds_login_owner_and_password() {
    let s = new_secret("gitea.apps", oref());
    assert_eq!(s.username.as_deref(), Some("gitea.apps"));
    assert_eq!(s.owner_references.len(), 1);
    assert_eq!(s.owner_references[0].uid, "uid-1");
    assert!(s.creation_timestamp.is_none());
    let p = s.password.unwrap();
    assert_eq!(p.chars().count(), 32);
    assert!(p.chars().all(|c| c.is_ascii_alphanumeric()));
    assert!(p.chars().any(|c| c.is_ascii_uppercase()));
    assert!(p.chars().any(|c| c.is_ascii_lowercase()));
    assert!(p.chars().any(|c| c.is_ascii_digit()));
    let q = new_secret("gitea.apps", oref()).password.unwrap();
    assert_ne!(p, q);
}

#[test]
fn dispatch_adds_missing_finalizer() {
    let f = "lldap.huizinga.dev";
    assert_eq!(dispatch(&meta(Some("a"), &[], false), f).unwrap(), Dispatch::AddFinalizer { create_list: true });
    assert_eq!(
        dispatch(&meta(Some("a"), &["other"], false), f).unwrap(),
        Dispatch::AddFinalizer { create_list: false }
    );
    assert!(matches!(dispatch(&meta(None, &[], false), f), Err(FinalizerError::UnnamedObject)));
}

#[test]
fn dispatch_applies_and_cleans_up() {
    let f = "lldap.huizinga.dev";
    assert_eq!(dispatch(&meta(Some("a"), &["x", f], false), f).unwrap(), Dispatch::Apply);
    assert_eq!(dispatch(&meta(Some("a"), &["x", f], true), f).unwrap(), Dispatch::Cleanup { index: 1 });
    assert_eq!(dispatch(&meta(Some("a"), &["x"], true), f).unwrap(), Dispatch::Nothing);
    assert!(matches!(dispatch(&meta(None, &[f], true), f), Err(FinalizerError::UnnamedObject)));
    assert_eq!(finalizer_index(&vec!["a".into(), "b".into(), "b".into()], "b"), Some(1));
    assert_eq!(finalizer_index(&vec![], "b"), None);
}

#[test]
fn dispatch_results() {
    assert_eq!(finalizer_added(Ok(())).unwrap(), Action::AwaitChange);
    match finalizer_added(Err("denied".into())) {
        Err(Error::Finalizer(b)) => assert!(matches!(*b, FinalizerError::AddFinalizer(ref m) if m == "denied")),
        other => panic!("unexpected {other:?}"),
    }
    assert_eq!(apply_finished(Ok(Action::Requeue { seconds: 3600 })).unwrap(), Action::Requeue { seconds: 3600 });
    match apply_finished(Err(Error::Kube("x".into()))) {
        Err(Error::Finalizer(b)) => assert!(matches!(*b, FinalizerError::ApplyFailed(Error::Kube(_)))),
        other => panic!("unexpected {other:?}"),
    }
    match cleanup_finished(Err(Error::MissingObjectKey(".metadata.name"))) {
        Err(Error::Finalizer(b)) => assert!(matches!(*b, FinalizerError::CleanupFailed(Error::MissingObjectKey(_)))),
        other => panic!("unexpected {other:?}"),
    }
    assert_eq!(cleanup_finished(Ok(Action::AwaitChange)).unwrap(), Action::AwaitChange);
    assert_eq!(finalizer_removed(Action::AwaitChange, Ok(())).unwrap(), Action::AwaitChange);
    assert!(matches!(
        finalizer_removed(Action::AwaitChange, Err("conflict".into())),
        Err(Error::Finalizer(_))
    ));
    assert_eq!(error_policy(&Error::Kube("x".into())), Action::Requeue { seconds: 5 });
}
