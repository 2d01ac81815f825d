use dash::provider::tenant::{
    get_default_node_affinity, get_default_pod_affinity, ingress_controller_args, ingress_controller_image, tenant_annotations,
    tenant_env, tenant_object_names, TenantError,
};
use dash::strmap::StrMap;

#[test]
fn node_affinity_prefers_gateways_and_requires_a_role() {
    let a = get_default_node_affinity();
    let weights: Vec<i32> = a.preferred.iter().map(|p| p.weight).collect();
    assert_eq!(weights, vec![1, 2, 4, 8]);
    assert_eq!(a.preferred[0].requirement.key, "node-role.kubernetes.io/kiss-ephemeral-control-plane");
    assert_eq!(a.preferred[0].requirement.operator, "DoesNotExist");
    assert!(a.preferred[0].requirement.values.is_none());
    assert_eq!(a.preferred[3].requirement.key, "node-role.kubernetes.io/kiss");
    assert_eq!(a.preferred[3].requirement.values, Some(vec!["Gateway".to_string()]));
    assert_eq!(a.required.operator, "In");
    assert_eq!(
        a.required.values,
        Some(vec!["Compute".to_string(), "ControlPlane".to_string(), "Desktop".to_string(), "Gateway".to_string()])
    );
}

#[test]
fn pod_affinity_keeps_servers_of_a_storage_type_together() {
    let a = get_default_pod_affinity("object-storage");
    assert_eq!(a.preferred.weight, 32);
    assert_eq!(a.preferred.requirement.key, "dash.ulagbulag.io/modelstorage-type");
    assert_eq!(a.preferred.requirement.values, Some(vec!["object-storage".to_string()]));
    assert_eq!(a.topology_key, "kubernetes.io/hostname");
}

#[test]
fn ingress_controller_command_line() {
    let args = ingress_controller_args("object-storage", "k8s.io/dash/object-storage/ns", "dash.object-storage.ns");
    assert_eq!(
        args,
        vec![
            "/nginx-ingress-controller",
            "--publish-service=$(POD_NAMESPACE)/object-storage",
            "--election-id=ingress-nginx-leader",
            "--controller-class=k8s.io/dash/object-storage/ns",
            "--ingress-class=dash.object-storage.ns",
            "--configmap=$(POD_NAMESPACE)/object-storage",
        ]
    );
    assert_eq!(ingress_controller_image(), "registry.k8s.io/ingress-nginx/controller:v1.10.0");
}

#[test]
fn tenant_objects_are_named_after_the_tenant() {
    let n = tenant_object_names("object-storage");
    assert_eq!(n.env_configuration, "object-storage-env-configuration");
    assert_eq!(n.credentials, "object-storage-secret");
    assert_eq!(n.user, "object-storage-user-0");
    assert_eq!(n.job_service_account, "object-storage-minio-job");
    assert_eq!(n.service_monitor, "object-storage-minio");

    let mut base = StrMap::new();
    base.insert("team".to_string(), "data".to_string());
    base.insert("prometheus.io/port".to_string(), "1".to_string());
    let a = tenant_annotations(&base);
    assert_eq!(a.len(), 4);
    assert_eq!(a.get("team").map(|s| s.as_str()), Some("data"));
    assert_eq!(a.get("prometheus.io/port").map(|s| s.as_str()), Some("9000"));
    assert_eq!(a.get("prometheus.io/scrape").map(|s| s.as_str()), Some("true"));
    assert_eq!(a.get("prometheus.io/path").map(|s| s.as_str()), Some("/minio/v2/metrics/cluster"));
}

#[test]
fn tenant_env_needs_a_prometheus_endpoint() {
    let env = tenant_env("object-storage", "ns", Some("http://prometheus:9090")).unwrap();
    assert_eq!(
        env,
        vec![
            ("MINIO_PROMETHEUS_AUTH_TYPE".to_string(), "public".to_string()),
            ("MINIO_PROMETHEUS_JOB_ID".to_string(), "object-storage-minio-job".to_string()),
            ("MINIO_PROMETHEUS_URL".to_string(), "http://prometheus:9090".to_string()),
        ]
    );
    match tenant_env("object-storage", "ns", None) {
        Err(TenantError::NoSuchStorage { namespace, name }) => {
            assert_eq!(namespace, "ns");
            assert_eq!(name, "object-storage");
        },
        _ => panic!("expected no such storage"),
    }
}
