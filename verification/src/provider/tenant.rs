use vstd::prelude::*;
use rand::Rng;
use crate::api::resources::{ResourceRequirements, clone_opt_strings, opt_map_view, opt_strings_view, parsed_byte_quantity};
use crate::api::storage::MODEL_STORAGE_LABEL_IS_EXTERNAL;
use crate::strmap::StrMap;
use crate::text::{char_to_string, concat2, concat4, decimal, spec_decimal, str_eq, views};

verus! {

/// The name of the platform's own object storage in each namespace.
pub fn get_default_tenant_name() -> (s: &'static str)
    ensures
        s@ == "object-storage"@,
{
    "object-storage"
}

/// The ingress class of a tenant in a namespace.
pub fn get_ingress_class_name(namespace: &str, tenant_name: &str) -> (s: String)
    ensures
        s@ == "dash."@ + tenant_name@ + "."@ + namespace@,
{
    concat4("dash.", tenant_name, ".", namespace)
}

/// The annotations of the ingresses of buckets: a large body size and long
/// timeouts.
pub fn get_default_ingress_annotations() -> (m: StrMap)
    ensures
        m@ == Map::<Seq<char>, Seq<char>>::empty().insert(
            "nginx.ingress.kubernetes.io/proxy-body-size"@,
            "100M"@,
        ).insert("nginx.ingress.kubernetes.io/proxy-read-timeout"@, "3600"@).insert(
            "nginx.ingress.kubernetes.io/proxy-send-timeout"@,
            "3600"@,
        ),
{
    let mut m = StrMap::new();
    m.insert("nginx.ingress.kubernetes.io/proxy-body-size".to_owned(), "100M".to_owned());
    m.insert("nginx.ingress.kubernetes.io/proxy-read-timeout".to_owned(), "3600".to_owned());
    m.insert("nginx.ingress.kubernetes.io/proxy-send-timeout".to_owned(), "3600".to_owned());
    m
}

/// The names of the objects that make up the object storage of a
/// namespace.
#[derive(Debug)]
pub struct StorageNames {
    pub cluster_role: String,
    pub ingress_class_controller: String,
    pub ingress_class: String,
    pub service_metrics: String,
    pub service_minio: String,
}

/// The names of the objects of the tenant in `namespace`: its cluster role,
/// the controller and name of its ingress class, and its metrics and
/// server services.
pub fn storage_names(namespace: &str, tenant_name: &str) -> (r: StorageNames)
    ensures
        r.cluster_role@ == "dash:"@ + tenant_name@,
        r.ingress_class_controller@ == "k8s.io/dash/"@ + tenant_name@ + "/"@ + namespace@,
        r.ingress_class@ == "dash."@ + tenant_name@ + "."@ + namespace@,
        r.service_metrics@ == tenant_name@ + "-metrics"@,
        r.service_minio@ == "minio"@,
{
    StorageNames {
        cluster_role: concat2("dash:", tenant_name),
        ingress_class_controller: concat4("k8s.io/dash/", tenant_name, "/", namespace),
        ingress_class: get_ingress_class_name(namespace, tenant_name),
        service_metrics: concat2(tenant_name, "-metrics"),
        service_minio: "minio".to_owned(),
    }
}

/// The labels of the objects of a tenant: those of the storage, with the
/// app and the storage type set to the tenant's name.
pub fn tenant_labels(labels: Option<StrMap>, tenant_name: &str) -> (m: StrMap)
    ensures
        m@ == (match labels {
            Some(l) => l@,
            None => Map::empty(),
        }).insert("app"@, tenant_name@).insert("dash.ulagbulag.io/modelstorage-type"@, tenant_name@),
{
    let mut m = match labels {
        Some(l) => l,
        None => StrMap::new(),
    };
    m.insert("app".to_owned(), tenant_name.to_owned());
    m.insert("dash.ulagbulag.io/modelstorage-type".to_owned(), tenant_name.to_owned());
    m
}

/// The type of the services of a tenant: a load balancer where the
/// storage is labelled as external with `true`, else the default.
pub fn tenant_service_type(labels: &StrMap) -> (r: Option<&'static str>)
    ensures
        (labels@.dom().contains(MODEL_STORAGE_LABEL_IS_EXTERNAL@) && labels@[MODEL_STORAGE_LABEL_IS_EXTERNAL@]
            == "true"@) ==> (r matches Some(t) && t@ == "LoadBalancer"@),
        !(labels@.dom().contains(MODEL_STORAGE_LABEL_IS_EXTERNAL@) && labels@[MODEL_STORAGE_LABEL_IS_EXTERNAL@]
            == "true"@) ==> r is None,
{
    match labels.get(MODEL_STORAGE_LABEL_IS_EXTERNAL) {
        Some(v) => if str_eq(v.as_str(), "true") {
            Some("LoadBalancer")
        } else {
            None
        },
        None => None,
    }
}

/// The labels of a service of a tenant: those of the tenant, with the
/// service named.
pub fn labels_with_service(labels: &StrMap, service: &str) -> (m: StrMap)
    ensures
        m@ == labels@.insert("v1.min.io/service"@, service@),
{
    let mut m = labels.duplicate();
    m.insert("v1.min.io/service".to_owned(), service.to_owned());
    m
}

/// How many volumes an owned storage spreads over, and how many of them
/// hold parity: a quarter.
pub fn tenant_volumes(total_nodes: u32, total_volumes_per_node: u32) -> (r: (u32, u32))
    requires
        total_nodes * total_volumes_per_node <= u32::MAX,
    ensures
        r.0 == total_nodes * total_volumes_per_node,
        r.1 == r.0 / 4,
{
    let total = total_nodes * total_volumes_per_node;
    (total, total / 4)
}

/// The configuration of a tenant's servers: the browser on, the parity of
/// its standard storage class, and its root user and password.
pub fn minio_env_configuration(parity_level: u32, username: &str, password: &str) -> (s: String)
    ensures
        s@ == "\nexport MINIO_BROWSER=\"on\"\nexport MINIO_STORAGE_CLASS_STANDARD=\"EC:"@ + spec_decimal(
            parity_level as nat,
        ) + "\"\nexport MINIO_ROOT_USER=\""@ + username@ + "\"\nexport MINIO_ROOT_PASSWORD=\""@ + password@
            + "\"\n"@,
{
    let mut s = "\nexport MINIO_BROWSER=\"on\"\nexport MINIO_STORAGE_CLASS_STANDARD=\"EC:".to_owned();
    s.append(decimal(parity_level as u64).as_str());
    s.append("\"\nexport MINIO_ROOT_USER=\"");
    s.append(username);
    s.append("\"\nexport MINIO_ROOT_PASSWORD=\"");
    s.append(password);
    s.append("\"\n");
    s
}

/// Is `c` an ASCII letter or digit?
pub open spec fn is_alphanumeric(c: char) -> bool {
    ('a' <= c && c <= 'z') || ('A' <= c && c <= 'Z') || ('0' <= c && c <= '9')
}

/// Draws one character from `rand`'s `Alphanumeric` distribution with
/// the thread-local generator. Trusted: as the distribution's
/// documentation says, it is an ASCII letter or digit; which one is left
/// to chance.
#[verifier::external_body]
fn random_alphanumeric() -> (c: char)
    ensures
        is_alphanumeric(c),
{
    ::rand::thread_rng().sample(::rand::distributions::Alphanumeric) as char
}

/// A random text of `n` ASCII letters and digits.
pub(crate) fn random_string(n: usize) -> (s: String)
    ensures
        s@.len() == n,
        forall|i: int| 0 <= i < n ==> is_alphanumeric(#[trigger] s@[i]),
{
    let mut s = String::new();
    let mut i: usize = 0;
    while i < n
        invariant
            i <= n,
            s@.len() == i,
            forall|j: int| 0 <= j < i ==> is_alphanumeric(#[trigger] s@[j]),
        decreases n - i,
    {
        let c = random_alphanumeric();
        let t = char_to_string(c);
        let ghost before = s@;
        s.append(t.as_str());
        proof {
            assert(s@ == before + seq![c]);
            assert forall|j: int| 0 <= j < i + 1 implies is_alphanumeric(#[trigger] s@[j]) by {
                if j < i {
                    assert(s@[j] == before[j]);
                }
            }
        }
        i = i + 1;
    }
    s
}

/// A fresh configuration of a tenant's servers with a random root user of
/// 16 characters and a random password of 32, each an ASCII letter or
/// digit.
pub fn new_env_configuration(parity_level: u32) -> (s: String)
    ensures
        exists|user: Seq<char>, password: Seq<char>|
            user.len() == 16 && password.len() == 32 && (forall|i: int|
                0 <= i < 16 ==> is_alphanumeric(#[trigger] user[i])) && (forall|i: int|
                0 <= i < 32 ==> is_alphanumeric(#[trigger] password[i])) && s@
                == "\nexport MINIO_BROWSER=\"on\"\nexport MINIO_STORAGE_CLASS_STANDARD=\"EC:"@ + spec_decimal(
                parity_level as nat,
            ) + "\"\nexport MINIO_ROOT_USER=\""@ + user + "\"\nexport MINIO_ROOT_PASSWORD=\""@ + password
                + "\"\n"@,
{
    let user = random_string(16);
    let password = random_string(32);
    minio_env_configuration(parity_level, user.as_str(), password.as_str())
}

/// The credentials of the first user of a tenant: a random access key of 16
/// characters and a random secret key of 32, all ASCII letters or digits,
/// under the keys that the secret reference of a model user names by
/// default.
pub fn new_user_credentials() -> (m: StrMap)
    ensures
        m@.dom() == Set::<Seq<char>>::empty().insert("CONSOLE_ACCESS_KEY"@).insert("CONSOLE_SECRET_KEY"@),
        m@["CONSOLE_ACCESS_KEY"@].len() == 16,
        m@["CONSOLE_SECRET_KEY"@].len() == 32,
        forall|i: int| 0 <= i < 16 ==> is_alphanumeric(#[trigger] m@["CONSOLE_ACCESS_KEY"@][i]),
        forall|i: int| 0 <= i < 32 ==> is_alphanumeric(#[trigger] m@["CONSOLE_SECRET_KEY"@][i]),
{
    let mut m = StrMap::new();
    m.insert("CONSOLE_ACCESS_KEY".to_owned(), random_string(16));
    m.insert("CONSOLE_SECRET_KEY".to_owned(), random_string(32));
    proof {
        reveal_strlit("CONSOLE_ACCESS_KEY");
        reveal_strlit("CONSOLE_SECRET_KEY");
        assert("CONSOLE_ACCESS_KEY"@ != "CONSOLE_SECRET_KEY"@) by {
            assert("CONSOLE_ACCESS_KEY"@[8] != "CONSOLE_SECRET_KEY"@[8]);
        }
        assert(m@.dom() =~= Set::<Seq<char>>::empty().insert("CONSOLE_ACCESS_KEY"@).insert("CONSOLE_SECRET_KEY"@));
    }
    m
}

/// The error of splitting resources: a storage size that does not parse.
#[derive(Debug)]
pub struct StorageSizeError {
    pub text: String,
}

/// Does splitting a map of resources divide a storage size over the
/// volumes: is there a storage entry (or, where asked, a default) that
/// parses?
pub open spec fn spec_split_divides(m: Option<Map<Seq<char>, Seq<char>>>, fill_default: bool) -> bool {
    if m is None && !fill_default {
        false
    } else {
        let base = match m {
            Some(m) => m,
            None => Map::empty(),
        };
        let with_cpu = if fill_default && !base.dom().contains("cpu"@) {
            base.insert("cpu"@, "16"@)
        } else {
            base
        };
        let filled = if fill_default && !with_cpu.dom().contains("memory"@) {
            with_cpu.insert("memory"@, "31Gi"@)
        } else {
            with_cpu
        };
        let storage = if filled.dom().contains("storage"@) {
            Some(filled["storage"@])
        } else if fill_default {
            Some("1TiB"@)
        } else {
            None
        };
        match storage {
            Some(text) => parsed_byte_quantity(text) is Some,
            None => false,
        }
    }
}

/// One half of splitting the resources of a tenant: the compute map left
/// once its `storage` entry is taken out (with CPU and memory defaults
/// filled in where asked), and the storage of each volume, as a map with
/// the one `storage` entry, or none where there was no map and no default.
/// `Err` carries a storage size that does not parse.
pub open spec fn spec_split_storage(m: Option<Map<Seq<char>, Seq<char>>>, total_volumes: nat, fill_default: bool) -> Result<
    (Option<Map<Seq<char>, Seq<char>>>, Option<Map<Seq<char>, Seq<char>>>),
    Seq<char>,
> {
    if m is None && !fill_default {
        Ok((None, None))
    } else {
        let base = match m {
            Some(m) => m,
            None => Map::empty(),
        };
        let with_cpu = if fill_default && !base.dom().contains("cpu"@) {
            base.insert("cpu"@, "16"@)
        } else {
            base
        };
        let filled = if fill_default && !with_cpu.dom().contains("memory"@) {
            with_cpu.insert("memory"@, "31Gi"@)
        } else {
            with_cpu
        };
        let storage = if filled.dom().contains("storage"@) {
            Some(filled["storage"@])
        } else if fill_default {
            Some("1TiB"@)
        } else {
            None
        };
        let compute = filled.remove("storage"@);
        match storage {
            Some(text) => match parsed_byte_quantity(text) {
                Some(bytes) => Ok(
                    (
                        Some(compute),
                        Some(Map::empty().insert("storage"@, spec_decimal(bytes as nat / total_volumes))),
                    ),
                ),
                None => Err(text),
            },
            None => Ok((Some(compute), Some(Map::empty()))),
        }
    }
}

fn split_storage(m: Option<StrMap>, total_volumes: u32, fill_default: bool) -> (r: Result<
    (Option<StrMap>, Option<StrMap>),
    StorageSizeError,
>)
    requires
        total_volumes > 0 || !spec_split_divides(opt_map_view(m), fill_default),
    ensures
        match spec_split_storage(opt_map_view(m), total_volumes as nat, fill_default) {
            Ok((c, s)) => r matches Ok((c2, s2)) && opt_map_view(c2) == c && opt_map_view(s2) == s,
            Err(t) => r matches Err(e) && e.text@ == t,
        },
{
    let mut base = match m {
        Some(m) => m,
        None => {
            if !fill_default {
                return Ok((None, None));
            }
            StrMap::new()
        },
    };
    proof {
        reveal_strlit("cpu");
        reveal_strlit("memory");
        reveal_strlit("storage");
    }
    if fill_default && !base.contains_key("cpu") {
        base.insert("cpu".to_owned(), "16".to_owned());
    }
    if fill_default && !base.contains_key("memory") {
        base.insert("memory".to_owned(), "31Gi".to_owned());
    }
    let removed = base.remove("storage");
    let storage = match removed {
        Some(text) => Some(text),
        None => if fill_default {
            Some("1TiB".to_owned())
        } else {
            None
        },
    };
    match storage {
        Some(text) => match crate::api::resources::parse_quantity(text.as_str()) {
            Some(bytes) => {
                let per_volume = bytes / (total_volumes as u64);
                let mut out = StrMap::new();
                out.insert("storage".to_owned(), decimal(per_volume));
                Ok((Some(base), Some(out)))
            },
            None => Err(StorageSizeError { text }),
        },
        None => Ok((Some(base), Some(StrMap::new()))),
    }
}

/// Splits the resources of a tenant into those of its servers (without
/// storage, with CPU and memory limits filled in from the defaults) and
/// those of each of its volumes (the storage limit, or `1TiB` by default,
/// and the storage request, each divided over the volumes); both keep the
/// resource claims. There must be volumes wherever a storage size is
/// divided; a storage limit that does not parse is refused before that.
pub fn split_resources(resources: &ResourceRequirements, total_volumes: u32) -> (r: Result<
    (ResourceRequirements, ResourceRequirements),
    StorageSizeError,
>)
    requires
        total_volumes > 0 || (!spec_split_divides(opt_map_view(resources.limits), true) && (spec_split_storage(
            opt_map_view(resources.limits),
            total_volumes as nat,
            true,
        ) is Err || !spec_split_divides(opt_map_view(resources.requests), false))),
    ensures
        match (
            spec_split_storage(opt_map_view(resources.limits), total_volumes as nat, true),
            spec_split_storage(opt_map_view(resources.requests), total_volumes as nat, false),
        ) {
            (Ok((cl, sl)), Ok((cr, sr))) => r matches Ok((compute, storage)) && opt_map_view(compute.limits)
                == cl && opt_map_view(compute.requests) == cr && opt_map_view(storage.limits) == sl
                && opt_map_view(storage.requests) == sr && opt_strings_view(compute.claims)
                == opt_strings_view(resources.claims) && opt_strings_view(storage.claims) == opt_strings_view(
                resources.claims,
            ),
            (Err(t), _) => r matches Err(e) && e.text@ == t,
            (Ok(_), Err(t)) => r matches Err(e) && e.text@ == t,
        },
{
    let copy = resources.duplicate();
    let (limits, storage_limits) = split_storage(copy.limits, total_volumes, true)?;
    let (requests, storage_requests) = split_storage(copy.requests, total_volumes, false)?;
    let storage_claims = clone_opt_strings(&copy.claims);
    Ok((
        ResourceRequirements { claims: copy.claims, limits, requests },
        ResourceRequirements { claims: storage_claims, limits: storage_limits, requests: storage_requests },
    ))
}

/// One condition of a node or pod selector: the label `key` related by
/// `operator` to `values`.
#[derive(Debug)]
pub struct SelectorRequirement {
    pub key: String,
    pub operator: String,
    pub values: Option<Vec<String>>,
}

/// A condition that the scheduler prefers, with its weight.
#[derive(Debug)]
pub struct WeightedRequirement {
    pub requirement: SelectorRequirement,
    pub weight: i32,
}

/// Where the servers of a tenant may run: the nodes it prefers, with their
/// weights, and the condition that each node must meet.
#[derive(Debug)]
pub struct NodeAffinity {
    pub preferred: Vec<WeightedRequirement>,
    pub required: SelectorRequirement,
}

/// Which pods the servers of a tenant prefer to run beside, on the same
/// host.
#[derive(Debug)]
pub struct PodAffinity {
    pub preferred: WeightedRequirement,
    pub topology_key: String,
}

/// A selector condition as plain values.
pub open spec fn requirement_view(r: SelectorRequirement) -> (Seq<char>, Seq<char>, Option<Seq<Seq<char>>>) {
    (
        r.key@,
        r.operator@,
        match r.values {
            Some(v) => Some(v@.map_values(|s: String| s@)),
            None => None,
        },
    )
}

/// The node role label of the cluster.
pub open spec fn node_role_key() -> Seq<char> {
    "node-role.kubernetes.io/kiss"@
}

fn in_values(key: &str, values: Vec<String>) -> (r: SelectorRequirement)
    ensures
        r.key@ == key@,
        r.operator@ == "In"@,
        r.values == Some(values),
{
    SelectorRequirement { key: key.to_owned(), operator: "In".to_owned(), values: Some(values) }
}

fn one_value(v: &str) -> (r: Vec<String>)
    ensures
        r@.map_values(|s: String| s@) == seq![v@],
{
    let mut r: Vec<String> = Vec::new();
    r.push(v.to_owned());
    assert(r@.map_values(|s: String| s@) =~= seq![v@]);
    r
}

/// The nodes that the servers of a tenant run on: any node with a role of
/// the cluster, compute, control plane, desktop or gateway; preferring,
/// with weights that double from one to the next, nodes that are not
/// ephemeral control planes, control planes, compute nodes, and most of
/// all gateways.
pub fn get_default_node_affinity() -> (a: NodeAffinity)
    ensures
        a.preferred@.len() == 4,
        requirement_view(a.preferred@[0].requirement) == (
            "node-role.kubernetes.io/kiss-ephemeral-control-plane"@,
            "DoesNotExist"@,
            None::<Seq<Seq<char>>>,
        ),
        requirement_view(a.preferred@[1].requirement) == (node_role_key(), "In"@, Some(seq!["ControlPlane"@])),
        requirement_view(a.preferred@[2].requirement) == (node_role_key(), "In"@, Some(seq!["Compute"@])),
        requirement_view(a.preferred@[3].requirement) == (node_role_key(), "In"@, Some(seq!["Gateway"@])),
        a.preferred@[0].weight == 1,
        a.preferred@[1].weight == 2,
        a.preferred@[2].weight == 4,
        a.preferred@[3].weight == 8,
        requirement_view(a.required) == (
            node_role_key(),
            "In"@,
            Some(seq!["Compute"@, "ControlPlane"@, "Desktop"@, "Gateway"@]),
        ),
{
    let key: &str = "node-role.kubernetes.io/kiss";
    proof {
        assert(key@ == node_role_key());
    }
    let mut preferred: Vec<WeightedRequirement> = Vec::new();
    preferred.push(
        WeightedRequirement {
            requirement: SelectorRequirement {
                key: "node-role.kubernetes.io/kiss-ephemeral-control-plane".to_owned(),
                operator: "DoesNotExist".to_owned(),
                values: None,
            },
            weight: 1,
        },
    );
    preferred.push(WeightedRequirement { requirement: in_values(key, one_value("ControlPlane")), weight: 2 });
    preferred.push(WeightedRequirement { requirement: in_values(key, one_value("Compute")), weight: 4 });
    preferred.push(WeightedRequirement { requirement: in_values(key, one_value("Gateway")), weight: 8 });
    let mut roles: Vec<String> = Vec::new();
    roles.push("Compute".to_owned());
    roles.push("ControlPlane".to_owned());
    roles.push("Desktop".to_owned());
    roles.push("Gateway".to_owned());
    proof {
        assert(roles@.map_values(|s: String| s@) =~= seq!["Compute"@, "ControlPlane"@, "Desktop"@, "Gateway"@]);
    }
    NodeAffinity { preferred, required: in_values(key, roles) }
}

/// The pods that the servers of a tenant prefer to share a host with:
/// those of the same storage type, with weight 32.
pub fn get_default_pod_affinity(tenant_name: &str) -> (a: PodAffinity)
    ensures
        requirement_view(a.preferred.requirement) == (
            "dash.ulagbulag.io/modelstorage-type"@,
            "In"@,
            Some(seq![tenant_name@]),
        ),
        a.preferred.weight == 32,
        a.topology_key@ == "kubernetes.io/hostname"@,
{
    PodAffinity {
        preferred: WeightedRequirement {
            requirement: in_values("dash.ulagbulag.io/modelstorage-type", one_value(tenant_name)),
            weight: 32,
        },
        topology_key: "kubernetes.io/hostname".to_owned(),
    }
}

/// The image of the ingress controller of the object storage.
pub fn ingress_controller_image() -> (s: &'static str)
    ensures
        s@ == "registry.k8s.io/ingress-nginx/controller:v1.10.0"@,
{
    "registry.k8s.io/ingress-nginx/controller:v1.10.0"
}

/// The command line of the ingress controller of a tenant: the controller,
/// the service it publishes and the configuration map (both the tenant's,
/// in the pod's namespace), its leader election, and its ingress class
/// controller and name.
pub fn ingress_controller_args(tenant_name: &str, ingress_class_controller: &str, ingress_class_name: &str) -> (r: Vec<
    String,
>)
    ensures
        views(r@) == seq![
            "/nginx-ingress-controller"@,
            "--publish-service=$(POD_NAMESPACE)/"@ + tenant_name@,
            "--election-id=ingress-nginx-leader"@,
            "--controller-class="@ + ingress_class_controller@,
            "--ingress-class="@ + ingress_class_name@,
            "--configmap=$(POD_NAMESPACE)/"@ + tenant_name@,
        ],
{
    let mut r: Vec<String> = Vec::new();
    r.push("/nginx-ingress-controller".to_owned());
    r.push(concat2("--publish-service=$(POD_NAMESPACE)/", tenant_name));
    r.push("--election-id=ingress-nginx-leader".to_owned());
    r.push(concat2("--controller-class=", ingress_class_controller));
    r.push(concat2("--ingress-class=", ingress_class_name));
    r.push(concat2("--configmap=$(POD_NAMESPACE)/", tenant_name));
    proof {
        assert(views(r@) =~= seq![
            "/nginx-ingress-controller"@,
            "--publish-service=$(POD_NAMESPACE)/"@ + tenant_name@,
            "--election-id=ingress-nginx-leader"@,
            "--controller-class="@ + ingress_class_controller@,
            "--ingress-class="@ + ingress_class_name@,
            "--configmap=$(POD_NAMESPACE)/"@ + tenant_name@,
        ]);
    }
    r
}

/// The names of the objects that belong to the tenant `name`.
#[derive(Debug)]
pub struct TenantObjectNames {
    /// The secret with the servers' environment.
    pub env_configuration: String,
    /// The secret with the (empty) credentials of the tenant.
    pub credentials: String,
    /// The secret with the console user.
    pub user: String,
    /// The service account of the tenant's jobs.
    pub job_service_account: String,
    /// The service monitor of the tenant's metrics.
    pub service_monitor: String,
}

/// The names of the objects of the tenant `name`, each the tenant's name
/// with a suffix.
pub fn tenant_object_names(name: &str) -> (r: TenantObjectNames)
    ensures
        r.env_configuration@ == name@ + "-env-configuration"@,
        r.credentials@ == name@ + "-secret"@,
        r.user@ == name@ + "-user-0"@,
        r.job_service_account@ == name@ + "-minio-job"@,
        r.service_monitor@ == name@ + "-minio"@,
{
    TenantObjectNames {
        env_configuration: concat2(name, "-env-configuration"),
        credentials: concat2(name, "-secret"),
        user: concat2(name, "-user-0"),
        job_service_account: concat2(name, "-minio-job"),
        service_monitor: concat2(name, "-minio"),
    }
}

/// The annotations of a tenant: those of the storage, with the servers'
/// metrics announced to Prometheus (path, port 9000, scraped).
pub fn tenant_annotations(annotations: &StrMap) -> (m: StrMap)
    ensures
        m@ == annotations@.insert("prometheus.io/path"@, "/minio/v2/metrics/cluster"@).insert(
            "prometheus.io/port"@,
            "9000"@,
        ).insert("prometheus.io/scrape"@, "true"@),
{
    let mut m = annotations.duplicate();
    m.insert("prometheus.io/path".to_owned(), "/minio/v2/metrics/cluster".to_owned());
    m.insert("prometheus.io/port".to_owned(), "9000".to_owned());
    m.insert("prometheus.io/scrape".to_owned(), "true".to_owned());
    m
}

/// Why the servers of a tenant cannot be described.
#[derive(Debug)]
pub enum TenantError {
    /// No Prometheus endpoint is known for the storage `namespace/name`.
    NoSuchStorage { namespace: String, name: String },
}

/// The environment of the servers of the tenant `name`: public metrics,
/// the tenant's metrics job, and the Prometheus endpoint, which must be
/// known.
pub fn tenant_env(name: &str, namespace: &str, prometheus_url: Option<&str>) -> (r: Result<
    Vec<(String, String)>,
    TenantError,
>)
    ensures
        prometheus_url is None ==> (r matches Err(TenantError::NoSuchStorage { namespace: ns, name: n }) && ns@
            == namespace@ && n@ == name@),
        prometheus_url matches Some(url) ==> (r matches Ok(env) && env@.map_values(
            |e: (String, String)| (e.0@, e.1@),
        ) == seq![
            ("MINIO_PROMETHEUS_AUTH_TYPE"@, "public"@),
            ("MINIO_PROMETHEUS_JOB_ID"@, name@ + "-minio-job"@),
            ("MINIO_PROMETHEUS_URL"@, url@),
        ]),
{
    let url = match prometheus_url {
        Some(url) => url,
        None => return Err(TenantError::NoSuchStorage { namespace: namespace.to_owned(), name: name.to_owned() }),
    };
    let mut env: Vec<(String, String)> = Vec::new();
    env.push(("MINIO_PROMETHEUS_AUTH_TYPE".to_owned(), "public".to_owned()));
    env.push(("MINIO_PROMETHEUS_JOB_ID".to_owned(), concat2(name, "-minio-job")));
    env.push(("MINIO_PROMETHEUS_URL".to_owned(), url.to_owned()));
    proof {
        assert(env@.map_values(|e: (String, String)| (e.0@, e.1@)) =~= seq![
            ("MINIO_PROMETHEUS_AUTH_TYPE"@, "public"@),
            ("MINIO_PROMETHEUS_JOB_ID"@, name@ + "-minio-job"@),
            ("MINIO_PROMETHEUS_URL"@, url@),
        ]);
    }
    Ok(env)
}

} // verus!
