use dash::api::model_storage_binding::{
    ModelStorageBindingSyncPolicy, ModelStorageBindingSyncPolicyPull as Pull, ModelStorageBindingSyncPolicyPush as Push,
};
use dash::api::resources::{quota_of_map, ResourceRequirements};
use dash::api::storage::object::{
    get_kubernetes_minio_endpoint, ModelStorageObjectOwnedReplicationSpec, ModelStorageObjectOwnedSpec,
};
use dash::provider::bucket::{BucketJobSide, BucketServiceError, GetOrCreate, PathType, ServiceBackend, ServiceSession, bucket_ingress_paths, bucket_job_env, bucket_job_name, delete_bucket_runs_job, delete_flags, get_or_create_step, push_on_delete_flags, service_backend, service_session};
use dash::provider::crypto::{encryption_inputs, frame_ciphertext, CIPHER_ID};
use dash::provider::job::{ApplyStep, RenderedDoc, TemplateError, plan_templates, all_exist, create_step, delete_step, is_immutable, require_types, split_api_version, template_identity, template_refs};
use dash::provider::sync::{ReplicationRuleView, StorageRef, SyncError, SyncStep, UnsyncStep, inverted_bucket, may_delete_after_unsync, plan_replication, sync_steps, unsync_steps};
use dash::provider::tenant::{get_default_ingress_annotations, get_default_tenant_name, get_ingress_class_name, minio_env_configuration, new_env_configuration, new_user_credentials, split_resources, storage_names, tenant_labels, tenant_service_type, tenant_volumes};
use dash::provider_api::{bucket_capacity, bucket_quota_and_usage, Capacity};
use dash::strmap::StrMap;

fn policy(pull: Pull, push: Push) -> ModelStorageBindingSyncPolicy {
    ModelStorageBindingSyncPolicy { pull, push }
}

#[test]
fn capacity_rules() {
    let c = Capacity { capacity: 100, usage: 30 };
    assert_eq!(c.available(), 70);
    assert_eq!(Capacity { capacity: 10, usage: 30 }.available(), 0);
    assert_eq!(c.limit_on(50), Capacity { capacity: 50, usage: 30 });
    assert_eq!(c.limit_on(500), c);
    let sum = Capacity::sum(&vec![c, Capacity { capacity: u64::MAX, usage: 1 }]);
    assert_eq!(sum, Capacity { capacity: u64::MAX, usage: 31 });
    assert_eq!(Capacity::sum(&vec![]), Capacity::zero());
    // the capped totals, in any order
    let parts = vec![Capacity { capacity: u64::MAX - 1, usage: 5 }, Capacity { capacity: 3, usage: 7 }, Capacity { capacity: 0, usage: 1 }];
    let reversed: Vec<Capacity> = parts.iter().rev().copied().collect();
    assert_eq!(Capacity::sum(&parts), Capacity { capacity: u64::MAX, usage: 13 });
    assert_eq!(Capacity::sum(&parts), Capacity::sum(&reversed));
    assert_eq!(bucket_capacity(c, None), c);
    assert_eq!(bucket_capacity(c, Some(Capacity { capacity: 300, usage: 5 })), Capacity { capacity: 100, usage: 5 });
    assert_eq!(bucket_quota_and_usage(Some(1), None), None);
    assert_eq!(bucket_quota_and_usage(Some(1), Some(2)), Some(Capacity { capacity: 1, usage: 2 }));
}

#[test]
fn quota_parses_storage_entry() {
    let mut m = StrMap::new();
    m.insert("storage".into(), "1TiB".into());
    assert_eq!(quota_of_map(&m), Some(1_099_511_627_776));
    m.insert("storage".into(), "not a size".into());
    assert_eq!(quota_of_map(&m), None);
    let r = ModelStorageObjectOwnedReplicationSpec::default_resources();
    assert_eq!(r.quota(), Some(1_099_511_627_776));
}

#[test]
fn owned_storage_defaults() {
    let owned = ModelStorageObjectOwnedSpec::new_default();
    assert_eq!(owned.storage_class_name, "ceph-block");
    assert_eq!(owned.runtime_class_name, "");
    assert_eq!(owned.replication.total_nodes, 4);
    assert_eq!(owned.replication.total_volumes_per_node, 4);
    assert!(!owned.minio_external_service.is_enabled());
}

#[test]
fn minio_endpoint() {
    let url = get_kubernetes_minio_endpoint("dash").unwrap();
    assert_eq!(url.as_str(), "http://object-storage.dash.svc/");
}

#[test]
fn tenant_names_and_labels() {
    assert_eq!(get_default_tenant_name(), "object-storage");
    assert_eq!(get_ingress_class_name("ns", "object-storage"), "dash.object-storage.ns");
    let names = storage_names("ns", "object-storage");
    assert_eq!(names.cluster_role, "dash:object-storage");
    assert_eq!(names.ingress_class_controller, "k8s.io/dash/object-storage/ns");
    assert_eq!(names.service_metrics, "object-storage-metrics");
    let mut labels = StrMap::new();
    labels.insert("ark.ulagbulag.io/is-external".into(), "true".into());
    let labels = tenant_labels(Some(labels), "object-storage");
    assert_eq!(labels.get("app").map(|s| s.as_str()), Some("object-storage"));
    assert_eq!(tenant_service_type(&labels), Some("LoadBalancer"));
    assert_eq!(tenant_service_type(&StrMap::new()), None);
    assert_eq!(get_default_ingress_annotations().len(), 3);
    assert_eq!(tenant_volumes(4, 4), (16, 4));
}

#[test]
fn split_resources_by_volume() {
    let (compute, storage) = split_resources(&ResourceRequirements { claims: None, limits: None, requests: None }, 16).unwrap();
    let limits = compute.limits.unwrap();
    assert_eq!(limits.get("cpu").map(|s| s.as_str()), Some("16"));
    assert_eq!(limits.get("memory").map(|s| s.as_str()), Some("31Gi"));
    assert!(!limits.contains_key("storage"));
    assert!(compute.requests.is_none());
    assert_eq!(storage.limits.unwrap().get("storage").map(|s| s.as_str()), Some("68719476736"));
    assert!(storage.requests.is_none());
    let mut requests = StrMap::new();
    requests.insert("storage".into(), "4KiB".into());
    requests.insert("cpu".into(), "1".into());
    let (compute, storage) =
        split_resources(&ResourceRequirements { claims: None, limits: None, requests: Some(requests) }, 4).unwrap();
    assert_eq!(compute.requests.unwrap().len(), 1);
    assert_eq!(storage.requests.unwrap().get("storage").map(|s| s.as_str()), Some("1024"));
    let mut bad = StrMap::new();
    bad.insert("storage".into(), "lots".into());
    let err = split_resources(&ResourceRequirements { claims: None, limits: Some(bad), requests: None }, 4).unwrap_err();
    assert_eq!(err.text, "lots");
    let mut bad = StrMap::new();
    bad.insert("storage".into(), "lots".into());
    let err = split_resources(&ResourceRequirements { claims: None, limits: Some(bad), requests: None }, 0).unwrap_err();
    assert_eq!(err.text, "lots");
    let claims = Some(vec!["gpu".to_string()]);
    let (compute, storage) =
        split_resources(&ResourceRequirements { claims: claims.clone(), limits: None, requests: None }, 2).unwrap();
    assert_eq!(compute.claims, claims);
    assert_eq!(storage.claims, claims);
}

#[test]
fn env_configuration_and_credentials() {
    let conf = minio_env_configuration(4, "user", "pass");
    assert_eq!(
        conf,
        "\nexport MINIO_BROWSER=\"on\"\nexport MINIO_STORAGE_CLASS_STANDARD=\"EC:4\"\nexport MINIO_ROOT_USER=\"user\"\nexport MINIO_ROOT_PASSWORD=\"pass\"\n"
    );
    let fresh = new_env_configuration(2);
    assert!(fresh.contains("EC:2"));
    let creds = new_user_credentials();
    assert_eq!(creds.get("CONSOLE_ACCESS_KEY").unwrap().len(), 16);
    assert_eq!(creds.get("CONSOLE_SECRET_KEY").unwrap().len(), 32);
    assert!(creds.get("CONSOLE_SECRET_KEY").unwrap().chars().all(|c| c.is_ascii_alphanumeric()));
}

#[test]
fn sync_and_unsync_steps() {
    assert!(sync_steps(None).is_empty());
    assert_eq!(sync_steps(Some(policy(Pull::Always, Push::Always))), vec![SyncStep::PullAlways, SyncStep::PushAlways]);
    assert_eq!(sync_steps(Some(policy(Pull::OnCreate, Push::OnDelete))), vec![SyncStep::PullOnCreate]);
    let steps = unsync_steps(Some(policy(Pull::Always, Push::OnDelete)));
    assert_eq!(steps, vec![UnsyncStep::UnsyncPullAlways, UnsyncStep::PushOnDelete]);
    assert!(!may_delete_after_unsync(&steps));
    assert!(may_delete_after_unsync(&unsync_steps(None)));
    assert!(policy(Pull::Never, Push::Never).is_none());
    assert!(matches!(inverted_bucket(false, None, "b"), Err(SyncError::NoSource)));
    assert_eq!(inverted_bucket(true, Some("src"), "b").unwrap(), "src");
    assert_eq!(inverted_bucket(true, None, "b").unwrap(), "b");
}

#[test]
fn replication_plans() {
    let plan = plan_replication(&vec![], "arn:a").unwrap();
    assert_eq!(plan.new_rule_priority, Some(1));
    assert_eq!(plan.role.as_deref(), Some("arn:a"));
    let rules = vec![
        ReplicationRuleView { bucket_arn: "arn:x".into(), priority: Some(5) },
        ReplicationRuleView { bucket_arn: "arn:y".into(), priority: None },
    ];
    let plan = plan_replication(&rules, "arn:a").unwrap();
    assert_eq!(plan.new_rule_priority, Some(6));
    assert_eq!(plan.role, None);
    assert!(plan_replication(&rules, "arn:y").is_none());
    let full = vec![ReplicationRuleView { bucket_arn: "arn:x".into(), priority: Some(i32::MAX) }];
    assert_eq!(plan_replication(&full, "arn:a").unwrap().new_rule_priority, None);
}

#[test]
fn bucket_service_and_job() {
    let none_policy = policy(Pull::Never, Push::Never);
    assert_eq!(service_session(Some(none_policy)), ServiceSession::Source);
    assert_eq!(service_session(Some(policy(Pull::Always, Push::Never))), ServiceSession::Target);
    assert_eq!(service_session(None), ServiceSession::Target);
    assert!(matches!(service_backend(None, false), Err(BucketServiceError::UnknownEndpointHost)));
    assert!(matches!(service_backend(Some("10.0.0.1"), true), Ok(ServiceBackend::Endpoints { .. })));
    match service_backend(Some("minio.local"), false) {
        Ok(ServiceBackend::ExternalName { name }) => assert_eq!(name, "minio.local"),
        _ => panic!("expected an external name"),
    }
    let paths = bucket_ingress_paths("model");
    assert_eq!(paths[0], ("/model".to_string(), PathType::Exact));
    assert_eq!(paths[1], ("/model/".to_string(), PathType::Prefix));
    assert_eq!(bucket_job_name("model", "pull", 1700000000), "model-pull-1700000000");
    assert_eq!(bucket_job_name("model", "push", -5), "model-push--5");
    let target = BucketJobSide { endpoint: "http://t/".into(), access_key: "ta".into(), secret_key: "ts".into() };
    let env = bucket_job_env("model", None, None, &target, delete_flags());
    assert_eq!(env.len(), 12);
    assert_eq!(env[0], ("SOURCE_ACCESS_KEY".to_string(), None));
    assert_eq!(env[1], ("SOURCE_BUCKET".to_string(), Some("model".to_string())));
    assert_eq!(env[9], ("TARGET_DELETE_BUCKET".to_string(), Some("true".to_string())));
    let source = BucketJobSide { endpoint: "http://s/".into(), access_key: "sa".into(), secret_key: "ss".into() };
    let env = bucket_job_env("model", Some("origin"), Some(&source), &target, push_on_delete_flags(true));
    assert_eq!(env[1].1.as_deref(), Some("origin"));
    assert_eq!(env[2].1.as_deref(), Some("true"));
    assert_eq!(env[3].1.as_deref(), Some("http://s/"));
    assert!(delete_bucket_runs_job(true, true));
    assert!(!delete_bucket_runs_job(true, false));
    assert_eq!(get_or_create_step(Ok(false)), GetOrCreate::Create);
    assert_eq!(get_or_create_step(Err(())), GetOrCreate::Fail);
}

#[test]
fn ciphertext_frame() {
    let inputs = encryption_inputs(b"secret");
    let mut expected = [0u8; 32];
    argon2::Argon2::new(
        argon2::Algorithm::Argon2id,
        argon2::Version::V0x13,
        argon2::Params::new(64 * 1024, 1, 4, Some(32)).unwrap(),
    )
    .hash_password_into(b"secret", &inputs.salt, &mut expected)
    .unwrap();
    assert_eq!(inputs.key, expected);
    let frame = frame_ciphertext(&inputs.salt, &inputs.nonce, &[9, 9]);
    assert_eq!(frame.len(), 32 + 1 + 8 + 2);
    assert_eq!(&frame[..32], &inputs.salt[..]);
    assert_eq!(frame[32], CIPHER_ID);
    assert_eq!(&frame[33..41], &inputs.nonce[..]);
    assert_eq!(&frame[41..], &[9, 9]);
}

#[test]
fn job_templates() {
    let (name, ns) = template_identity("sess", "dash", None, None, true).unwrap();
    assert_eq!((name.as_str(), ns.as_str()), ("sess", "dash"));
    assert!(matches!(
        template_identity("sess", "dash", Some("other".into()), None, true),
        Err(TemplateError::NameNotPrefixed { .. })
    ));
    assert!(template_identity("sess", "dash", Some("other".into()), Some("x".into()), false).is_ok());
    assert!(matches!(
        template_identity("sess", "dash", Some("sess-1".into()), Some("kube".into()), true),
        Err(TemplateError::NamespaceNotPrefixed { .. })
    ));
    assert!(matches!(require_types("n", None), Err(TemplateError::Untyped { .. })));
    assert_eq!(split_api_version("apps/v1"), ("apps".to_string(), Some("v1".to_string())));
    assert_eq!(split_api_version("v1"), (String::new(), None));
    assert_eq!(split_api_version("a/b/c"), ("a".to_string(), Some("b".to_string())));
    assert!(is_immutable("", "PersistentVolume"));
    assert!(is_immutable("storage.k8s.io", "StorageClass"));
    assert!(!is_immutable("apps", "Deployment"));
    assert_eq!(create_step(true, true), ApplyStep::Skip);
    assert_eq!(create_step(true, false), ApplyStep::Patch);
    assert_eq!(create_step(false, true), ApplyStep::Create);
    assert!(!delete_step(Some("v1"), Some("PersistentVolumeClaim"), true));
    assert!(delete_step(Some("v1"), Some("Pod"), true));
    assert!(!delete_step(Some("v1"), Some("Pod"), false));
    assert!(all_exist(&vec![true, true]));
    assert!(!all_exist(&vec![true, false]));
    let refs = template_refs(&vec!["a".into(), "b".into()]);
    assert_eq!(refs[1].name, "b");
}

#[test]
fn inverting_sessions_swaps_source_and_target() {
    let p = policy(Pull::Always, Push::Never);
    let r = StorageRef { target: 1u32, source: Some((2u32, p)), source_binding_name: None };
    let (inv, bucket) = r.inverted("b").unwrap();
    assert_eq!(inv.target, 2);
    assert_eq!(inv.source, Some((1, p)));
    assert_eq!(inv.source_binding_name.as_deref(), Some("b"));
    assert_eq!(bucket, "b");
    let r = StorageRef { target: 1u32, source: Some((2u32, p)), source_binding_name: Some("src".to_string()) };
    assert_eq!(r.inverted("b").unwrap().1, "src");
    let r: StorageRef<u32> = StorageRef { target: 1, source: None, source_binding_name: None };
    assert!(matches!(r.inverted("b"), Err(SyncError::NoSource)));
}

fn doc(name: Option<&str>, namespace: Option<&str>, types: Option<(&str, &str)>) -> RenderedDoc {
    RenderedDoc {
        name: name.map(|s| s.to_string()),
        namespace: namespace.map(|s| s.to_string()),
        types: types.map(|(a, k)| (a.to_string(), k.to_string())),
    }
}

#[test]
fn templates_are_planned_all_or_nothing() {
    let docs = vec![
        doc(None, None, Some(("v1", "PersistentVolume"))),
        doc(Some("job-a"), Some("ns-x"), Some(("batch/v1", "Job"))),
        doc(Some("job-b"), None, Some(("storage.k8s.io/v1", "StorageClass"))),
    ];
    let plans = plan_templates(docs, "job", "ns", true).unwrap();
    assert_eq!(plans.len(), 3);
    assert_eq!((plans[0].name.as_str(), plans[0].namespace.as_str()), ("job", "ns"));
    assert_eq!(plans[0].group, "");
    assert!(plans[0].immutable);
    assert_eq!((plans[1].group.as_str(), plans[1].version.as_deref()), ("batch", Some("v1")));
    assert!(!plans[1].immutable);
    assert!(plans[2].immutable);

    // the first refused document decides, and nothing is planned
    let docs = vec![
        doc(Some("job-a"), None, Some(("v1", "ConfigMap"))),
        doc(Some("other"), None, None),
        doc(Some("job-c"), None, None),
    ];
    match plan_templates(docs, "job", "ns", true) {
        Err(TemplateError::NameNotPrefixed { prefix, name }) => {
            assert_eq!(prefix, "job");
            assert_eq!(name, "other");
        },
        _ => panic!("expected a refused name"),
    }
    let docs = vec![doc(Some("other"), None, None)];
    assert!(matches!(plan_templates(docs, "job", "ns", false), Err(TemplateError::Untyped { .. })));
}
