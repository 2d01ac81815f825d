use dash::api::model_claim::{ModelClaimBindingPolicy, ModelClaimDeletionPolicy, ModelClaimSpec};
use dash::api::model_storage_binding::{
    ModelStorageBindingDeletionPolicy, ModelStorageBindingState, ModelStorageBindingStorageSourceSpec,
    ModelStorageBindingSyncPolicy, ModelStorageBindingSyncPolicyPull, ModelStorageBindingSyncPolicyPush,
};
use dash::api::resources::ResourceRequirements;
use dash::api::storage::ModelStorageKind::{Database, Kubernetes, ObjectStorage};
use dash::api::storage::{ModelStorageKind, ModelStorageState};
use dash::k8s::ResourceKind;
use dash::operator::action::{has_finalizer, Action, FALLBACK_SECONDS};
use dash::operator::ctx::model_storage_binding::{BindingCommand, Ctx as BindingCtx};
use dash::operator::ctx::storage::{Ctx as StorageCtx, KindSource, StorageCommand};
use dash::operator::optimizer::{affordable, select_storage, storage_kind_matches, OptimizeError};
use dash::operator::validator::{BindAction, BindingUpdateStep, ClaimUpdateStep, UnbindAction, ValidationError, assert_source_is_none, assert_source_is_same, bind_plan, binding_deletion_policy, binding_owner_references, binding_update_step, check_storage_conflict, check_storage_unbound, claim_deletes_model, claim_is_changed, claim_update_step, claimed_storage, conflicting_storages, owner_references_of, resources_eq, to_owner_reference, unbind_plan, validated_quota};
use dash::provider_api::Capacity;
use dash::strmap::StrMap;

fn kind(api_version: &str, kind: &str) -> ResourceKind {
    ResourceKind { api_version: api_version.to_string(), kind: kind.to_string() }
}

#[test]
fn finalizer_lookup() {
    let finalizers = vec!["a".to_string(), "dash.ulagbulag.io/finalizer-model-storages".to_string()];
    assert!(has_finalizer(&finalizers, "dash.ulagbulag.io/finalizer-model-storages"));
    assert!(!has_finalizer(&finalizers, "b"));
}

#[test]
fn storage_reconcile_steps() {
    assert_eq!(
        StorageCtx::begin(true, Some(ModelStorageState::Ready), true),
        StorageCommand::PatchStatus { state: ModelStorageState::Deleting, kind: KindSource::Status, total_quota: None }
    );
    assert_eq!(StorageCtx::begin(true, Some(ModelStorageState::Deleting), true), StorageCommand::Delete);
    assert_eq!(StorageCtx::begin(false, None, false), StorageCommand::AddFinalizer);
    assert_eq!(StorageCtx::begin(false, None, true), StorageCommand::Validate);
    assert_eq!(
        StorageCtx::begin(false, Some(ModelStorageState::Ready), true),
        StorageCommand::Finish(Action::AwaitChange)
    );
    assert_eq!(
        StorageCtx::on_validated(Some(Some(42))),
        StorageCommand::PatchStatus { state: ModelStorageState::Ready, kind: KindSource::Spec, total_quota: Some(42) }
    );
    assert_eq!(StorageCtx::on_validated(None), StorageCommand::Finish(Action::Requeue { seconds: FALLBACK_SECONDS }));
    assert_eq!(StorageCtx::on_deleted(true), StorageCommand::RemoveFinalizer);
    assert_eq!(StorageCtx::on_status_patched(false), StorageCommand::Finish(Action::Requeue { seconds: 30 }));
}

#[test]
fn binding_reconcile_steps() {
    let retain = ModelStorageBindingDeletionPolicy::Retain;
    let delete = ModelStorageBindingDeletionPolicy::Delete;
    assert_eq!(
        BindingCtx::begin(true, Some((ModelStorageBindingState::Ready, retain)), true, delete),
        BindingCommand::MarkDeleting { deletion_policy: retain }
    );
    assert_eq!(BindingCtx::begin(true, None, true, delete), BindingCommand::MarkDeleting { deletion_policy: delete });
    assert_eq!(
        BindingCtx::begin(false, Some((ModelStorageBindingState::Ready, retain)), true, delete),
        BindingCommand::Update
    );
    assert_eq!(BindingCtx::on_updated(Some(false)), BindingCommand::Finish(Action::AwaitChange));
    assert_eq!(BindingCtx::on_updated(Some(true)), BindingCommand::PatchStatus);
    assert_eq!(BindingCtx::on_updated(None), BindingCommand::Finish(Action::Requeue { seconds: 30 }));
}

#[test]
fn optimizer_picks_last_most_free_storage() {
    let caps = vec![
        Some(Capacity { capacity: 100, usage: 10 }),
        None,
        Some(Capacity { capacity: 200, usage: 110 }),
        Some(Capacity { capacity: 50, usage: 60 }),
    ];
    assert_eq!(select_storage(ModelClaimBindingPolicy::LowestCopy, None, &caps).unwrap(), Some(2));
    assert_eq!(select_storage(ModelClaimBindingPolicy::LowestCopy, Some(95), &caps).unwrap(), None);
    assert_eq!(select_storage(ModelClaimBindingPolicy::LowestCopy, Some(80), &caps).unwrap(), Some(2));
    assert_eq!(
        select_storage(ModelClaimBindingPolicy::Balanced, None, &caps).unwrap_err(),
        OptimizeError::Unimplemented(ModelClaimBindingPolicy::Balanced)
    );
    assert!(!affordable(Some(1), None));
    assert!(affordable(None, None));
    assert!(storage_kind_matches(None, ModelStorageKind::Database));
    assert!(!storage_kind_matches(Some(ModelStorageKind::Kubernetes), ModelStorageKind::Database));
}

#[test]
fn owner_references() {
    let model = kind("dash.ulagbulag.io/v1alpha1", "Model");
    let storage = kind("dash.ulagbulag.io/v1alpha1", "ModelStorage");
    let refs = binding_owner_references(
        &model,
        "m".to_string(),
        Some("uid-m".to_string()),
        &storage,
        "t".to_string(),
        "uid-t".to_string(),
        Some("s".to_string()),
        Some("uid-s".to_string()),
    )
    .unwrap();
    assert_eq!(refs.len(), 3);
    assert_eq!(refs[0].kind, "Model");
    assert_eq!(refs[2].uid, "uid-s");
    assert_eq!(refs[1].block_owner_deletion, Some(true));
    let refs = binding_owner_references(&model, "m".into(), Some("u".into()), &storage, "t".into(), "v".into(), Some("s".into()), None).unwrap();
    assert_eq!(refs.len(), 2);
    match binding_owner_references(&model, "m".into(), None, &storage, "t".into(), "v".into(), None, None) {
        Err(ValidationError::MissingUid { name }) => assert_eq!(name, "m"),
        _ => panic!("expected a missing uid"),
    }
    assert!(matches!(to_owner_reference(&model, None, None), Err(ValidationError::MissingName)));
    let all = owner_references_of(&model, vec![(Some("a".into()), Some("1".into())), (Some("b".into()), None)]);
    assert!(matches!(all, Err(ValidationError::MissingUid { .. })));
}

#[test]
fn claim_rules() {
    let spec = ModelClaimSpec::default();
    assert!(spec.allow_replacement);
    assert_eq!(spec.binding_policy, ModelClaimBindingPolicy::LowestCopy);
    assert_eq!(binding_deletion_policy(ModelClaimDeletionPolicy::Delete), ModelStorageBindingDeletionPolicy::Delete);
    assert!(!claim_deletes_model(ModelClaimDeletionPolicy::Retain));
    assert_eq!(claim_update_step(false, true), ClaimUpdateStep::Keep);
    assert_eq!(claim_update_step(true, false), ClaimUpdateStep::Rebind);
    assert_eq!(claim_update_step(true, true), ClaimUpdateStep::Replace);
    assert!(matches!(claimed_storage(None), Err(ValidationError::NoSuitableStorage)));
    // with both names given, a claim has changed where anything differs
    assert!(!claim_is_changed(Some("a"), Some("a"), &None, &None, None, None));
    assert!(claim_is_changed(Some("a"), Some("b"), &None, &None, None, None));
    assert!(claim_is_changed(Some("a"), Some("a"), &None, &None, None, Some(ObjectStorage)));
    assert!(claim_is_changed(Some("a"), None, &None, &None, None, None));
    assert!(!claim_is_changed(None, None, &None, &None, None, None));
    let mut r = StrMap::new();
    r.insert("storage".into(), "1Gi".into());
    let a = Some(ResourceRequirements { claims: None, limits: None, requests: Some(r.duplicate()) });
    let b = Some(ResourceRequirements { claims: None, limits: None, requests: Some(r) });
    assert!(resources_eq(&a, &b));
    assert!(!resources_eq(&a, &None));
    let c = Some(ResourceRequirements { claims: Some(vec!["gpu".to_string()]), limits: None, requests: None });
    let d = Some(ResourceRequirements { claims: Some(vec!["fpga".to_string()]), limits: None, requests: None });
    assert!(!resources_eq(&c, &d));
    assert!(resources_eq(&c, &Some(ResourceRequirements { claims: Some(vec!["gpu".to_string()]), limits: None, requests: None })));
}

#[test]
fn storage_conflicts() {
    let storages = vec![
        ("a".to_string(), true, ModelStorageKind::ObjectStorage),
        ("b".to_string(), false, ModelStorageKind::ObjectStorage),
        ("c".to_string(), true, ModelStorageKind::ObjectStorage),
        ("d".to_string(), true, ModelStorageKind::Kubernetes),
    ];
    let conflicts = conflicting_storages(ModelStorageKind::ObjectStorage, &storages);
    assert_eq!(conflicts, vec!["a".to_string(), "c".to_string()]);
    match check_storage_conflict("new", ModelStorageKind::ObjectStorage, &conflicts) {
        Err(ValidationError::StorageConflict { message }) => {
            assert_eq!(message, "model storage already exists (new => ObjectStorage): a,c")
        }
        _ => panic!("expected a conflict"),
    }
    assert!(check_storage_conflict("new", ModelStorageKind::ObjectStorage, &vec![]).is_ok());
    assert!(check_storage_unbound(0).is_ok());
    assert!(matches!(check_storage_unbound(2), Err(ValidationError::StorageBound)));
    assert_eq!(validated_quota(ModelStorageKind::ObjectStorage, 7), Some(7));
    assert_eq!(validated_quota(ModelStorageKind::Database, 7), None);
}

#[test]
fn bind_and_unbind_plans() {
    assert_eq!(bind_plan(Database, None, false).unwrap(), BindAction::UpdateTable);
    assert!(matches!(bind_plan(Database, Some(Database), false), Err(ValidationError::SyncNotSupported { .. })));
    assert!(matches!(bind_plan(Kubernetes, None, false), Err(ValidationError::KubernetesNeedsCrd)));
    assert_eq!(bind_plan(Kubernetes, None, true).unwrap(), BindAction::Nothing);
    assert_eq!(bind_plan(ObjectStorage, Some(ObjectStorage), false).unwrap(), BindAction::CreateBucket);
    assert!(matches!(
        bind_plan(ObjectStorage, Some(Database), false),
        Err(ValidationError::SyncNotSupported { target: ObjectStorage, source: Some(Database) })
    ));
    let delete = ModelStorageBindingDeletionPolicy::Delete;
    let retain = ModelStorageBindingDeletionPolicy::Retain;
    assert_eq!(unbind_plan(ObjectStorage, None, delete, false).unwrap(), UnbindAction::DeleteBucket);
    assert_eq!(unbind_plan(ObjectStorage, None, retain, false).unwrap(), UnbindAction::UnsyncBucket);
    assert_eq!(unbind_plan(Database, None, retain, false).unwrap(), UnbindAction::Nothing);
    assert!(matches!(unbind_plan(Kubernetes, None, delete, false), Err(ValidationError::KubernetesNeedsCrd)));
    assert!(matches!(unbind_plan(Database, Some(ObjectStorage), retain, false), Err(ValidationError::SyncNotSupported { .. })));
    let none: Option<u8> = None;
    assert!(matches!(assert_source_is_none::<u8, u8>(none, Database), Ok(None)));
    assert!(matches!(assert_source_is_none::<u8, u8>(Some(1), Database), Err(ValidationError::SyncNotSupported { .. })));
    let source = ModelStorageBindingStorageSourceSpec {
        name: "src".to_string(),
        storage: 7u32,
        sync_policy: ModelStorageBindingSyncPolicy {
            pull: ModelStorageBindingSyncPolicyPull::Always,
            push: ModelStorageBindingSyncPolicyPush::Never,
        },
    };
    let same = assert_source_is_same(Some(source), ObjectStorage, |x: u32| if x == 7 { Ok(x + 1) } else { Err(Database) });
    assert_eq!(same.unwrap().unwrap().storage, 8);
    assert_eq!(binding_update_step(true, true).unwrap(), BindingUpdateStep::Keep);
    assert_eq!(binding_update_step(true, false).unwrap(), BindingUpdateStep::Rebind);
    assert!(matches!(binding_update_step(false, true), Err(ValidationError::ModelChanged)));
}
