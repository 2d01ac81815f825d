use vstd::prelude::*;
use crate::api::model_storage_binding::ModelStorageBindingSyncPolicy;
use crate::strmap::StrMap;
use crate::text::{concat2, concat3, concat5, signed_decimal, spec_signed_decimal};

verus! {

/// Which storage the service of a bucket points at.
#[derive(Copy, Clone, Debug, PartialEq, Eq, Structural)]
pub enum ServiceSession {
    /// The source storage, whose bucket is used as it is.
    Source,
    /// The target storage, which holds the bucket.
    Target,
}

/// The storage that the service of a bucket points at: the source where it
/// is synced with a policy that moves no data, else the target.
pub fn service_session(source_policy: Option<ModelStorageBindingSyncPolicy>) -> (r: ServiceSession)
    ensures
        (source_policy matches Some(p) && p.spec_is_none()) <==> r == ServiceSession::Source,
{
    match source_policy {
        Some(p) => if p.is_none() {
            ServiceSession::Source
        } else {
            ServiceSession::Target
        },
        None => ServiceSession::Target,
    }
}

/// How the service of a bucket reaches the storage.
#[derive(Debug)]
pub enum ServiceBackend {
    /// Through endpoints at the IP address of the storage.
    Endpoints { ip: String },
    /// Through a DNS name.
    ExternalName { name: String },
}

/// Why a bucket service cannot be made.
#[derive(Debug)]
pub enum BucketServiceError {
    /// The endpoint of the storage has no host.
    UnknownEndpointHost,
}

/// The backend of the service of a bucket, from the host of the storage's
/// endpoint and whether that host is an IP address.
pub fn service_backend(host: Option<&str>, host_is_ip: bool) -> (r: Result<ServiceBackend, BucketServiceError>)
    ensures
        host is None ==> (r matches Err(BucketServiceError::UnknownEndpointHost)),
        host is Some && host_is_ip ==> (r matches Ok(ServiceBackend::Endpoints { ip }) && ip@ == host->0@),
        host is Some && !host_is_ip ==> (r matches Ok(ServiceBackend::ExternalName { name }) && name@
            == host->0@),
{
    match host {
        None => Err(BucketServiceError::UnknownEndpointHost),
        Some(h) => if host_is_ip {
            Ok(ServiceBackend::Endpoints { ip: h.to_owned() })
        } else {
            Ok(ServiceBackend::ExternalName { name: h.to_owned() })
        },
    }
}

/// The labels of the service of a bucket.
pub fn bucket_service_labels(bucket: &str, storage_name: &str, tenant_name: &str) -> (m: StrMap)
    ensures
        m@ == Map::<Seq<char>, Seq<char>>::empty().insert("dash.ulagbulag.io/model-name"@, bucket@).insert(
            "dash.ulagbulag.io/modelstorage-name"@,
            storage_name@,
        ).insert("dash.ulagbulag.io/modelstorage-type"@, tenant_name@),
{
    let mut m = StrMap::new();
    m.insert("dash.ulagbulag.io/model-name".to_owned(), bucket.to_owned());
    m.insert("dash.ulagbulag.io/modelstorage-name".to_owned(), storage_name.to_owned());
    m.insert("dash.ulagbulag.io/modelstorage-type".to_owned(), tenant_name.to_owned());
    m
}

/// How an ingress path matches.
#[derive(Copy, Clone, Debug, PartialEq, Eq, Structural)]
pub enum PathType {
    Exact,
    Prefix,
}

/// The paths under which the ingress of a bucket serves it: the bucket
/// itself, exactly, and everything under it.
pub fn bucket_ingress_paths(bucket: &str) -> (r: Vec<(String, PathType)>)
    ensures
        r@.len() == 2,
        r@[0].0@ == "/"@ + bucket@ && r@[0].1 == PathType::Exact,
        r@[1].0@ == "/"@ + bucket@ + "/"@ && r@[1].1 == PathType::Prefix,
{
    let mut r: Vec<(String, PathType)> = Vec::new();
    r.push((concat2("/", bucket), PathType::Exact));
    r.push((concat3("/", bucket, "/"), PathType::Prefix));
    r
}

/// What a bucket job is told to do.
#[derive(Copy, Clone, Debug, PartialEq, Eq, Structural)]
pub struct BucketJobFlags {
    pub delete_source: bool,
    pub delete_target: bool,
    pub sync_source: bool,
    pub sync_source_overwrite: bool,
}

/// The endpoint and the credentials of one side of a bucket job.
#[derive(Debug)]
pub struct BucketJobSide {
    pub endpoint: String,
    pub access_key: String,
    pub secret_key: String,
}

/// The name of a bucket job: the bucket, the command and the time.
pub fn bucket_job_name(bucket: &str, command: &str, timestamp: i64) -> (s: String)
    ensures
        s@ == bucket@ + "-"@ + command@ + "-"@ + spec_signed_decimal(timestamp as int),
{
    let t = signed_decimal(timestamp);
    concat5(bucket, "-", command, "-", t.as_str())
}

/// The labels of a bucket job.
pub fn bucket_job_labels(bucket: &str, command: &str, tenant_name: &str) -> (m: StrMap)
    ensures
        m@ == Map::<Seq<char>, Seq<char>>::empty().insert("dash.ulagbulag.io/modelstorage-name"@, bucket@).insert(
            "dash.ulagbulag.io/modelstorage-objectstorage-command"@,
            command@,
        ).insert("dash.ulagbulag.io/modelstorage-type"@, tenant_name@),
{
    let mut m = StrMap::new();
    m.insert("dash.ulagbulag.io/modelstorage-name".to_owned(), bucket.to_owned());
    m.insert("dash.ulagbulag.io/modelstorage-objectstorage-command".to_owned(), command.to_owned());
    m.insert("dash.ulagbulag.io/modelstorage-type".to_owned(), tenant_name.to_owned());
    m
}

/// The text of a flag in the environment of a job.
pub open spec fn flag_text(b: bool) -> Seq<char> {
    if b {
        "true"@
    } else {
        "false"@
    }
}

fn bool_text(b: bool) -> (s: String)
    ensures
        s@ == flag_text(b),
{
    if b {
        "true".to_owned()
    } else {
        "false".to_owned()
    }
}

pub open spec fn opt_str(s: Option<String>) -> Option<Seq<char>> {
    match s {
        Some(s) => Some(s@),
        None => None,
    }
}

/// The environment of a bucket job, name by name, in order: the source's
/// access key, bucket, deletion flag, endpoint, secret key, sync flag and
/// overwrite flag, then the target's access key, bucket, deletion flag,
/// endpoint and secret key. The source side is unset where there is no
/// source; the source bucket is the source binding's name where it is
/// given, else the bucket itself.
pub open spec fn spec_bucket_job_env(
    bucket: Seq<char>,
    source_binding_name: Option<Seq<char>>,
    source: Option<(Seq<char>, Seq<char>, Seq<char>)>,
    target: (Seq<char>, Seq<char>, Seq<char>),
    flags: BucketJobFlags,
) -> Seq<(Seq<char>, Option<Seq<char>>)> {
    let source_bucket = match source_binding_name {
        Some(n) => n,
        None => bucket,
    };
    seq![
        ("SOURCE_ACCESS_KEY"@, match source { Some(s) => Some(s.1), None => None }),
        ("SOURCE_BUCKET"@, Some(source_bucket)),
        ("SOURCE_DELETE_BUCKET"@, Some(flag_text(flags.delete_source))),
        ("SOURCE_ENDPOINT"@, match source { Some(s) => Some(s.0), None => None }),
        ("SOURCE_SECRET_KEY"@, match source { Some(s) => Some(s.2), None => None }),
        ("SOURCE_SYNC"@, Some(flag_text(flags.sync_source))),
        ("SOURCE_SYNC_OVERWRITE"@, Some(flag_text(flags.sync_source_overwrite))),
        ("TARGET_ACCESS_KEY"@, Some(target.1)),
        ("TARGET_BUCKET"@, Some(bucket)),
        ("TARGET_DELETE_BUCKET"@, Some(flag_text(flags.delete_target))),
        ("TARGET_ENDPOINT"@, Some(target.0)),
        ("TARGET_SECRET_KEY"@, Some(target.2)),
    ]
}

pub open spec fn side_view(s: BucketJobSide) -> (Seq<char>, Seq<char>, Seq<char>) {
    (s.endpoint@, s.access_key@, s.secret_key@)
}

pub open spec fn env_view(e: Seq<(String, Option<String>)>) -> Seq<(Seq<char>, Option<Seq<char>>)> {
    e.map_values(|x: (String, Option<String>)| (x.0@, opt_str(x.1)))
}

/// The environment of a bucket job.
pub fn bucket_job_env(
    bucket: &str,
    source_binding_name: Option<&str>,
    source: Option<&BucketJobSide>,
    target: &BucketJobSide,
    flags: BucketJobFlags,
) -> (r: Vec<(String, Option<String>)>)
    ensures
        env_view(r@) == spec_bucket_job_env(
            bucket@,
            match source_binding_name { Some(n) => Some(n@), None => None },
            match source { Some(s) => Some(side_view(*s)), None => None },
            side_view(*target),
            flags,
        ),
{
    let source_bucket = match source_binding_name {
        Some(n) => n.to_owned(),
        None => bucket.to_owned(),
    };
    let (source_access, source_endpoint, source_secret) = match source {
        Some(s) => (Some(s.access_key.clone()), Some(s.endpoint.clone()), Some(s.secret_key.clone())),
        None => (None, None, None),
    };
    let mut r: Vec<(String, Option<String>)> = Vec::new();
    r.push(("SOURCE_ACCESS_KEY".to_owned(), source_access));
    r.push(("SOURCE_BUCKET".to_owned(), Some(source_bucket)));
    r.push(("SOURCE_DELETE_BUCKET".to_owned(), Some(bool_text(flags.delete_source))));
    r.push(("SOURCE_ENDPOINT".to_owned(), source_endpoint));
    r.push(("SOURCE_SECRET_KEY".to_owned(), source_secret));
    r.push(("SOURCE_SYNC".to_owned(), Some(bool_text(flags.sync_source))));
    r.push(("SOURCE_SYNC_OVERWRITE".to_owned(), Some(bool_text(flags.sync_source_overwrite))));
    r.push(("TARGET_ACCESS_KEY".to_owned(), Some(target.access_key.clone())));
    r.push(("TARGET_BUCKET".to_owned(), Some(bucket.to_owned())));
    r.push(("TARGET_DELETE_BUCKET".to_owned(), Some(bool_text(flags.delete_target))));
    r.push(("TARGET_ENDPOINT".to_owned(), Some(target.endpoint.clone())));
    r.push(("TARGET_SECRET_KEY".to_owned(), Some(target.secret_key.clone())));
    proof {
        assert(env_view(r@) =~= spec_bucket_job_env(
            bucket@,
            match source_binding_name { Some(n) => Some(n@), None => None },
            match source { Some(s) => Some(side_view(*s)), None => None },
            side_view(*target),
            flags,
        ));
    }
    r
}

/// The flags of the job that copies a source bucket once on creation.
pub fn pull_on_create_flags() -> (f: BucketJobFlags)
    ensures
        f == (BucketJobFlags { delete_source: false, delete_target: false, sync_source: true, sync_source_overwrite: false }),
{
    BucketJobFlags { delete_source: false, delete_target: false, sync_source: true, sync_source_overwrite: false }
}

/// The flags of the job that pushes a bucket back to its source on
/// deletion, deleting the pushed bucket where the bucket is deleted.
pub fn push_on_delete_flags(delete_bucket: bool) -> (f: BucketJobFlags)
    ensures
        f == (BucketJobFlags {
            delete_source: delete_bucket,
            delete_target: false,
            sync_source: true,
            sync_source_overwrite: false,
        }),
{
    BucketJobFlags { delete_source: delete_bucket, delete_target: false, sync_source: true, sync_source_overwrite: false }
}

/// The flags of the job that deletes a bucket.
pub fn delete_flags() -> (f: BucketJobFlags)
    ensures
        f == (BucketJobFlags { delete_source: false, delete_target: true, sync_source: false, sync_source_overwrite: false }),
{
    BucketJobFlags { delete_source: false, delete_target: true, sync_source: false, sync_source_overwrite: false }
}

/// What deleting the bucket of a model does: nothing where the bucket does
/// not exist or must stay for a push back to the source; else a job that
/// deletes it.
pub fn delete_bucket_runs_job(bucket_exists: bool, may_delete: bool) -> (r: bool)
    ensures
        r == (bucket_exists && may_delete),
{
    bucket_exists && may_delete
}

/// The outcome of looking an object up before creating it.
#[derive(Copy, Clone, Debug, PartialEq, Eq, Structural)]
pub enum GetOrCreate {
    /// Use the object that exists.
    UseExisting,
    /// Create the object.
    Create,
    /// The lookup failed.
    Fail,
}

/// The step after a lookup: use what exists, create what is missing, or
/// fail where the lookup failed.
pub open spec fn spec_get_or_create_step(lookup: Result<bool, ()>) -> GetOrCreate {
    match lookup {
        Ok(true) => GetOrCreate::UseExisting,
        Ok(false) => GetOrCreate::Create,
        Err(_) => GetOrCreate::Fail,
    }
}

/// An object is created only where the lookup succeeded and found none.
pub fn get_or_create_step(lookup: Result<bool, ()>) -> (r: GetOrCreate)
    ensures
        r == spec_get_or_create_step(lookup),
        lookup == Ok::<bool, ()>(true) ==> r == GetOrCreate::UseExisting,
        lookup == Ok::<bool, ()>(false) ==> r == GetOrCreate::Create,
        lookup is Err ==> r == GetOrCreate::Fail,
{
    match lookup {
        Ok(true) => GetOrCreate::UseExisting,
        Ok(false) => GetOrCreate::Create,
        Err(_) => GetOrCreate::Fail,
    }
}

/// The names of the objects in a store after getting or creating `name`,
/// where the lookup and any creation succeed.
pub open spec fn store_after_get_or_create(store: Set<Seq<char>>, name: Seq<char>) -> Set<Seq<char>> {
    match spec_get_or_create_step(Ok(store.contains(name))) {
        GetOrCreate::Create => store.insert(name),
        _ => store,
    }
}

/// Getting or creating an object twice creates it at most once: the second
/// lookup finds what the first created, and leaves the store as it is.
pub proof fn lemma_get_or_create_creates_once(store: Set<Seq<char>>, name: Seq<char>)
    ensures
        ({
            let after = store_after_get_or_create(store, name);
            &&& after.contains(name)
            &&& spec_get_or_create_step(Ok(after.contains(name))) == GetOrCreate::UseExisting
            &&& store_after_get_or_create(after, name) == after
            &&& store.contains(name) ==> after == store
        }),
{
}

} // verus!
