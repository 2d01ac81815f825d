use dash::api::model_storage_binding::ModelStorageBindingState;
use dash::api::storage::object::{ModelStorageObjectOwnedSpec, ModelStorageObjectSpec};
use dash::api::storage::ModelStorageKindSpec;
use dash::sidecar::table::{handle_event, BindingEvent, BindingTable};
use dash::sidecar::{BindingRoute, RouteStatus};

fn ready(name: &str) -> BindingRoute {
    BindingRoute {
        name: name.into(),
        namespace: None,
        status: Some(RouteStatus {
            state: ModelStorageBindingState::Ready,
            storage_source: None,
            storage_sync_policy: None,
            storage_target: Some(ModelStorageKindSpec::ObjectStorage(ModelStorageObjectSpec::Owned(
                ModelStorageObjectOwnedSpec::new_default(),
            ))),
        }),
    }
}

fn pending(name: &str) -> BindingRoute {
    BindingRoute { name: name.into(), namespace: None, status: None }
}

fn names(t: &BindingTable) -> Vec<String> {
    t.bindings().iter().map(|b| b.name.clone()).collect()
}

#[test]
fn table_keeps_bindings_by_name_in_order() {
    let mut t = BindingTable::new();
    assert!(names(&t).is_empty());
    t.insert(pending("m"));
    t.insert(pending("b"));
    t.insert(pending("z"));
    t.insert(pending("a"));
    assert_eq!(names(&t), vec!["a", "b", "m", "z"]);
    // the same name replaces the binding in place
    t.insert(ready("m"));
    assert_eq!(names(&t), vec!["a", "b", "m", "z"]);
    assert!(t.bindings()[2].status.is_some());
    t.remove("b");
    t.remove("missing");
    assert_eq!(names(&t), vec!["a", "m", "z"]);
}

#[test]
fn events_change_the_table_and_rebuild_the_routes() {
    let mut t = BindingTable::new();
    let conf = handle_event(&mut t, BindingEvent::Applied(ready("beta")), "dash");
    assert!(conf.contains("location /beta {"));
    let conf = handle_event(&mut t, BindingEvent::Applied(ready("alpha")), "dash");
    let a = conf.find("location /alpha").unwrap();
    let b = conf.find("location /beta").unwrap();
    assert!(a < b);
    let conf = handle_event(&mut t, BindingEvent::Deleted(pending("beta")), "dash");
    assert!(!conf.contains("location /beta"));
    assert!(conf.contains("location /alpha"));
    // a restart adds each listed binding in turn, the later of two with one name winning
    let conf = handle_event(
        &mut t,
        BindingEvent::Restarted(vec![ready("gamma"), pending("alpha"), ready("delta"), ready("alpha")]),
        "dash",
    );
    assert_eq!(names(&t), vec!["alpha", "delta", "gamma"]);
    assert!(conf.contains("location /alpha"));
    let conf = handle_event(&mut t, BindingEvent::Restarted(vec![pending("alpha")]), "dash");
    assert!(!conf.contains("location /alpha"));
    assert!(conf.contains("location /delta"));
}
