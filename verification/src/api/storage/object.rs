use vstd::prelude::*;
use crate::api::model_user::ModelUserAccessTokenSecretRefSpec;
use crate::api::resources::{ResourceRequirements, spec_quota};
use crate::strmap::StrMap;
use crate::text::concat3;
use crate::url::{Url, parsed_url};

verus! {

/// An object storage that stores models: borrowed from elsewhere, cloned
/// from another one into a storage of the platform, or owned.
#[derive(Debug)]
pub enum ModelStorageObjectSpec {
    Borrowed(ModelStorageObjectBorrowedSpec),
    Cloned(ModelStorageObjectClonedSpec),
    Owned(ModelStorageObjectOwnedSpec),
}

impl Default for ModelStorageObjectSpec {
    fn default() -> (s: Self)
        ensures
            s matches ModelStorageObjectSpec::Owned(o) && o.is_default(),
    {
        ModelStorageObjectSpec::Owned(ModelStorageObjectOwnedSpec::new_default())
    }
}

impl ModelStorageObjectSpec {
    /// The endpoint: that of the reference where the storage is borrowed,
    /// else the in-cluster endpoint of the platform's own object storage.
    pub fn endpoint(&self, namespace: &str) -> (r: Option<Url>)
        ensures
            self matches ModelStorageObjectSpec::Borrowed(b) ==> (r matches Some(u) && u.spec_parts()
                == b.reference.endpoint.spec_parts()),
            !(self is Borrowed) ==> (r is Some <==> parsed_url(minio_endpoint_text(namespace@)) is Some),
            !(self is Borrowed) ==> (r matches Some(u) ==> parsed_url(minio_endpoint_text(namespace@))
                == Some(u.spec_parts())),
    {
        match self {
            ModelStorageObjectSpec::Borrowed(spec) => spec.endpoint(),
            ModelStorageObjectSpec::Cloned(spec) => spec.endpoint(namespace),
            ModelStorageObjectSpec::Owned(spec) => spec.endpoint(namespace),
        }
    }

    /// A borrowed storage may be shared; a cloned or owned one may not.
    pub fn is_unique(&self) -> (r: bool)
        ensures
            r == !(self is Borrowed),
    {
        match self {
            ModelStorageObjectSpec::Borrowed(_) => false,
            ModelStorageObjectSpec::Cloned(_) => true,
            ModelStorageObjectSpec::Owned(_) => true,
        }
    }
}

/// An object storage reached through a reference.
#[derive(Debug)]
pub struct ModelStorageObjectBorrowedSpec {
    pub reference: ModelStorageObjectRefSpec,
}

impl ModelStorageObjectBorrowedSpec {
    /// The endpoint of the reference.
    pub fn endpoint(&self) -> (r: Option<Url>)
        ensures
            r matches Some(u) && u.spec_parts() == self.reference.endpoint.spec_parts(),
    {
        self.reference.endpoint()
    }
}

/// An object storage of the platform that mirrors another one.
#[derive(Debug)]
pub struct ModelStorageObjectClonedSpec {
    pub reference: ModelStorageObjectRefSpec,
    pub owned: ModelStorageObjectOwnedSpec,
}

impl ModelStorageObjectClonedSpec {
    /// The endpoint of the platform's own storage.
    pub fn endpoint(&self, namespace: &str) -> (r: Option<Url>)
        ensures
            r is Some <==> parsed_url(minio_endpoint_text(namespace@)) is Some,
            r matches Some(u) ==> parsed_url(minio_endpoint_text(namespace@)) == Some(u.spec_parts()),
    {
        self.owned.endpoint(namespace)
    }
}

/// An object storage that the platform runs itself.
#[derive(Debug)]
pub struct ModelStorageObjectOwnedSpec {
    pub minio_console_external_service: ModelStorageObjectOwnedExternalServiceSpec,
    pub minio_external_service: ModelStorageObjectOwnedExternalServiceSpec,
    pub replication: ModelStorageObjectOwnedReplicationSpec,
    pub runtime_class_name: String,
    pub storage_class_name: String,
}

/// The storage class that an owned object storage uses by default.
pub open spec fn default_storage_class_name() -> Seq<char> {
    "ceph-block"@
}

impl ModelStorageObjectOwnedSpec {
    /// Does every field hold its default?
    pub open spec fn is_default(&self) -> bool {
        &&& self.minio_console_external_service.address_pool is None
        &&& self.minio_console_external_service.ip is None
        &&& self.minio_external_service.address_pool is None
        &&& self.minio_external_service.ip is None
        &&& self.replication.is_default()
        &&& self.runtime_class_name@ == Seq::<char>::empty()
        &&& self.storage_class_name@ == default_storage_class_name()
    }

    /// An owned storage with every field at its default.
    pub fn new_default() -> (s: Self)
        ensures
            s.is_default(),
    {
        ModelStorageObjectOwnedSpec {
            minio_console_external_service: ModelStorageObjectOwnedExternalServiceSpec {
                address_pool: None,
                ip: None,
            },
            minio_external_service: ModelStorageObjectOwnedExternalServiceSpec {
                address_pool: None,
                ip: None,
            },
            replication: ModelStorageObjectOwnedReplicationSpec::new_default(),
            runtime_class_name: Self::default_runtime_class_name(),
            storage_class_name: Self::default_storage_class_name(),
        }
    }

    /// No runtime class by default.
    pub fn default_runtime_class_name() -> (s: String)
        ensures
            s@ == Seq::<char>::empty(),
    {
        String::new()
    }

    /// The block storage class of the cluster by default.
    pub fn default_storage_class_name() -> (s: String)
        ensures
            s@ == default_storage_class_name(),
    {
        "ceph-block".to_owned()
    }

    /// The in-cluster endpoint of the storage.
    pub fn endpoint(&self, namespace: &str) -> (r: Option<Url>)
        ensures
            r is Some <==> parsed_url(minio_endpoint_text(namespace@)) is Some,
            r matches Some(u) ==> parsed_url(minio_endpoint_text(namespace@)) == Some(u.spec_parts()),
    {
        get_kubernetes_minio_endpoint(namespace)
    }
}

impl Default for ModelStorageObjectOwnedSpec {
    fn default() -> (s: Self)
        ensures
            s.is_default(),
    {
        Self::new_default()
    }
}

/// How an owned object storage is spread over the cluster.
#[derive(Debug)]
pub struct ModelStorageObjectOwnedReplicationSpec {
    pub resources: ResourceRequirements,
    pub total_nodes: u32,
    pub total_volumes_per_node: u32,
}

impl ModelStorageObjectOwnedReplicationSpec {
    /// Does every field hold its default?
    pub open spec fn is_default(&self) -> bool {
        &&& self.resources.limits is None
        &&& self.resources.requests matches Some(m) && m@ == default_requests()
        &&& self.total_nodes == 4
        &&& self.total_volumes_per_node == 4
    }

    /// A replication with every field at its default.
    pub fn new_default() -> (s: Self)
        ensures
            s.is_default(),
    {
        ModelStorageObjectOwnedReplicationSpec {
            resources: Self::default_resources(),
            total_nodes: Self::default_total_nodes(),
            total_volumes_per_node: Self::default_total_volumes_per_node(),
        }
    }

    /// The CPU that each node requests by default.
    pub fn default_resources_cpu() -> (s: &'static str)
        ensures
            s@ == "16"@,
    {
        "16"
    }

    /// The memory that each node requests by default.
    pub fn default_resources_memory() -> (s: &'static str)
        ensures
            s@ == "31Gi"@,
    {
        "31Gi"
    }

    /// The storage that each node requests by default.
    pub fn default_resources_storage() -> (s: &'static str)
        ensures
            s@ == "1TiB"@,
    {
        "1TiB"
    }

    /// The resources requested by default: the CPU, memory and storage
    /// above, and no limits.
    pub fn default_resources() -> (r: ResourceRequirements)
        ensures
            r.limits is None,
            r.requests matches Some(m) && m@ == default_requests(),
            spec_quota(r) == crate::api::resources::parsed_byte_quantity("1TiB"@),
    {
        let mut m = StrMap::new();
        m.insert("cpu".to_owned(), Self::default_resources_cpu().to_owned());
        m.insert("memory".to_owned(), Self::default_resources_memory().to_owned());
        m.insert("storage".to_owned(), Self::default_resources_storage().to_owned());
        proof {
            reveal_strlit("cpu");
            reveal_strlit("memory");
            reveal_strlit("storage");
            assert("storage"@ =~= crate::api::resources::storage_key());
            assert(m@ =~= default_requests());
        }
        ResourceRequirements { claims: None, limits: None, requests: Some(m) }
    }

    /// Four nodes by default.
    pub fn default_total_nodes() -> (n: u32)
        ensures
            n == 4,
    {
        4
    }

    /// Four volumes on each node by default.
    pub fn default_total_volumes_per_node() -> (n: u32)
        ensures
            n == 4,
    {
        4
    }
}

/// The requests of the default replication.
pub open spec fn default_requests() -> Map<Seq<char>, Seq<char>> {
    Map::empty().insert("cpu"@, "16"@).insert("memory"@, "31Gi"@).insert("storage"@, "1TiB"@)
}

impl Default for ModelStorageObjectOwnedReplicationSpec {
    fn default() -> (s: Self)
        ensures
            s.is_default(),
    {
        Self::new_default()
    }
}

/// How a service of an owned storage is exposed outside the cluster: from
/// an address pool, or at a fixed IPv4 address.
#[derive(Debug)]
pub struct ModelStorageObjectOwnedExternalServiceSpec {
    pub address_pool: Option<String>,
    pub ip: Option<[u8; 4]>,
}

impl ModelStorageObjectOwnedExternalServiceSpec {
    /// Is the service exposed at all?
    pub fn is_enabled(&self) -> (r: bool)
        ensures
            r == (self.address_pool is Some || self.ip is Some),
    {
        self.address_pool.is_some() || self.ip.is_some()
    }
}

/// A reference to an object storage: its endpoint and the secret that
/// holds its credentials.
#[derive(Debug)]
pub struct ModelStorageObjectRefSpec {
    pub endpoint: Url,
    pub secret_ref: ModelUserAccessTokenSecretRefSpec,
}

impl ModelStorageObjectRefSpec {
    /// The endpoint of the referenced storage.
    pub fn endpoint(&self) -> (r: Option<Url>)
        ensures
            r matches Some(u) && u.spec_parts() == self.endpoint.spec_parts(),
    {
        Some(self.endpoint.duplicate())
    }
}

/// The text of the in-cluster endpoint of the object storage in a
/// namespace.
pub open spec fn minio_endpoint_text(namespace: Seq<char>) -> Seq<char> {
    "http://object-storage."@ + namespace + ".svc"@
}

/// The in-cluster endpoint of the object storage in `namespace`, where
/// that text parses as a URL.
pub fn get_kubernetes_minio_endpoint(namespace: &str) -> (r: Option<Url>)
    ensures
        r is Some <==> parsed_url(minio_endpoint_text(namespace@)) is Some,
        r matches Some(u) ==> parsed_url(minio_endpoint_text(namespace@)) == Some(u.spec_parts()),
{
    let text = concat3("http://object-storage.", namespace, ".svc");
    Url::parse(text.as_str())
}

} // verus!
