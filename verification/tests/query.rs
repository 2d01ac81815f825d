use dash::api::model_storage_binding::ModelStorageBindingState;
use dash::api::storage::kubernetes::ModelStorageKubernetesSpec;
use dash::api::storage::object::{ModelStorageObjectOwnedSpec, ModelStorageObjectSpec};
use dash::api::storage::{ModelStorageKind, ModelStorageKindSpec};
use dash::operator::validator::ValidationError;
use dash::provider::storage::{first_found, read_plan, require_bindings, ReadAction, ReadError};
use dash::query::{load_models, ModelBinding};
use dash::sidecar::RouteStatus;

fn binding(model: &str, storage: &str, state: ModelStorageBindingState, object: bool) -> ModelBinding {
    let target = if object {
        ModelStorageKindSpec::ObjectStorage(ModelStorageObjectSpec::Owned(ModelStorageObjectOwnedSpec::new_default()))
    } else {
        ModelStorageKindSpec::Kubernetes(ModelStorageKubernetesSpec {})
    };
    ModelBinding {
        model: model.into(),
        storage: storage.into(),
        status: Some(RouteStatus { state, storage_source: None, storage_sync_policy: None, storage_target: Some(target) }),
    }
}

#[test]
fn only_the_first_ready_object_binding_of_each_model_and_storage_is_loaded() {
    let bindings = vec![
        binding("a", "s1", ModelStorageBindingState::Ready, true),
        binding("a", "s1", ModelStorageBindingState::Ready, true),
        binding("b", "s1", ModelStorageBindingState::Pending, true),
        // the first binding of a model and storage decides, though it is not ready
        binding("b", "s1", ModelStorageBindingState::Ready, true),
        binding("a", "s2", ModelStorageBindingState::Ready, true),
        binding("c", "s1", ModelStorageBindingState::Ready, false),
        ModelBinding { model: "d".into(), storage: "s1".into(), status: None },
    ];
    let models = load_models(bindings);
    let got: Vec<(String, String)> = models.iter().map(|m| (m.model.clone(), m.storage.clone())).collect();
    assert_eq!(got, vec![("a".to_string(), "s1".to_string()), ("a".to_string(), "s2".to_string())]);
    assert!(load_models(vec![]).is_empty());
}

#[test]
fn reads_are_routed_by_storage_kind() {
    let db = ModelStorageKind::Database;
    let kube = ModelStorageKind::Kubernetes;
    let obj = ModelStorageKind::ObjectStorage;
    assert_eq!(read_plan(db, None, false).unwrap(), ReadAction::Database);
    assert_eq!(read_plan(kube, None, true).unwrap(), ReadAction::CustomResources);
    assert_eq!(read_plan(kube, None, false).unwrap(), ReadAction::Nothing);
    assert_eq!(read_plan(obj, None, false).unwrap(), ReadAction::ObjectStorage);
    assert_eq!(read_plan(obj, Some(obj), false).unwrap(), ReadAction::ObjectStorage);
    assert!(matches!(
        read_plan(db, Some(obj), false),
        Err(ValidationError::SyncNotSupported { target: ModelStorageKind::Database, source: None })
    ));
    assert!(matches!(
        read_plan(obj, Some(db), false),
        Err(ValidationError::SyncNotSupported { target: ModelStorageKind::ObjectStorage, source: Some(ModelStorageKind::Database) })
    ));
}

#[test]
fn objects_come_from_the_first_storage_that_has_them() {
    assert_eq!(first_found(vec![None, Some(2), Some(3)], "x").ok(), Some(2));
    assert!(matches!(first_found::<u8>(vec![None, None], "x"), Err(ReadError::NoSuchObject { ref name }) if name == "x"));
    assert!(matches!(require_bindings::<u8>(vec![], "m"), Err(ReadError::NotBound { ref model }) if model == "m"));
    assert_eq!(require_bindings(vec![1u8], "m").ok(), Some(vec![1u8]));
}
