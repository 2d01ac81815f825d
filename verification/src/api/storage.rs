//! Model storages: where the data of models is kept.

pub mod db;
pub mod kubernetes;
pub mod object;

use vstd::prelude::*;
use crate::url::{Url, parsed_url};
use crate::api::storage::db::ModelStorageDatabaseSpec;
use crate::api::storage::kubernetes::ModelStorageKubernetesSpec;
use crate::api::storage::object::{ModelStorageObjectSpec, minio_endpoint_text};

verus! {

/// The finalizer that the operator puts on model storages.
pub const MODEL_STORAGE_FINALIZER_NAME: &'static str = "dash.ulagbulag.io/finalizer-model-storages";

/// The label that marks a storage as reached from outside the cluster.
pub const MODEL_STORAGE_LABEL_IS_EXTERNAL: &'static str = "ark.ulagbulag.io/is-external";

/// The specification of a model storage.
#[derive(Debug)]
pub struct ModelStorageSpec {
    pub kind: ModelStorageKindSpec,
    pub default: bool,
}

/// The kinds of model storage, each with its own specification.
#[derive(Debug)]
pub enum ModelStorageKindSpec {
    Database(ModelStorageDatabaseSpec),
    Kubernetes(ModelStorageKubernetesSpec),
    ObjectStorage(ModelStorageObjectSpec),
}

/// The kind of a model storage, without its specification.
#[derive(Copy, Clone, Debug, PartialEq, Eq, Structural, PartialOrd, Ord, Hash)]
pub enum ModelStorageKind {
    Database,
    Kubernetes,
    ObjectStorage,
}

/// The life cycle of a model storage.
#[derive(Copy, Clone, Debug, PartialEq, Eq, Structural, PartialOrd, Ord, Hash)]
pub enum ModelStorageState {
    Pending,
    Ready,
    Deleting,
}

impl Default for ModelStorageState {
    fn default() -> (s: Self)
        ensures
            s == ModelStorageState::Pending,
    {
        ModelStorageState::Pending
    }
}

/// What the endpoint of a storage is, as the result of `parsed_url` on its
/// text, or `None` where the storage has no fixed endpoint.
pub open spec fn spec_endpoint(spec: ModelStorageKindSpec, namespace: Seq<char>) -> Option<
    (Seq<char>, Seq<char>, Option<Seq<char>>),
> {
    match spec {
        ModelStorageKindSpec::Database(db) => match db {
            ModelStorageDatabaseSpec::Borrowed(b) => Some(b.url.spec_parts()),
            ModelStorageDatabaseSpec::Owned(_) => None,
        },
        ModelStorageKindSpec::Kubernetes(_) => None,
        ModelStorageKindSpec::ObjectStorage(o) => match o {
            ModelStorageObjectSpec::Borrowed(b) => Some(b.reference.endpoint.spec_parts()),
            ModelStorageObjectSpec::Cloned(_) => parsed_url(minio_endpoint_text(namespace)),
            ModelStorageObjectSpec::Owned(_) => parsed_url(minio_endpoint_text(namespace)),
        },
    }
}

/// May only one binding use a storage of this specification at a time?
pub open spec fn spec_is_unique(spec: ModelStorageKindSpec) -> bool {
    match spec {
        ModelStorageKindSpec::Database(_) => false,
        ModelStorageKindSpec::Kubernetes(_) => true,
        ModelStorageKindSpec::ObjectStorage(o) => !(o is Borrowed),
    }
}

/// The kind of a storage specification.
pub open spec fn spec_to_kind(spec: ModelStorageKindSpec) -> ModelStorageKind {
    match spec {
        ModelStorageKindSpec::Database(_) => ModelStorageKind::Database,
        ModelStorageKindSpec::Kubernetes(_) => ModelStorageKind::Kubernetes,
        ModelStorageKindSpec::ObjectStorage(_) => ModelStorageKind::ObjectStorage,
    }
}

pub open spec fn opt_url_parts(u: Option<Url>) -> Option<(Seq<char>, Seq<char>, Option<Seq<char>>)> {
    match u {
        Some(u) => Some(u.spec_parts()),
        None => None,
    }
}

impl ModelStorageKindSpec {
    /// The endpoint of the storage in `namespace`, where it has one.
    pub fn endpoint(&self, namespace: &str) -> (r: Option<Url>)
        ensures
            opt_url_parts(r) == spec_endpoint(*self, namespace@),
    {
        match self {
            ModelStorageKindSpec::Database(spec) => spec.endpoint(),
            ModelStorageKindSpec::Kubernetes(spec) => spec.endpoint(),
            ModelStorageKindSpec::ObjectStorage(spec) => spec.endpoint(namespace),
        }
    }

    /// May only one binding use this storage at a time?
    pub fn is_unique(&self) -> (r: bool)
        ensures
            r == spec_is_unique(*self),
    {
        match self {
            ModelStorageKindSpec::Database(_) => false,
            ModelStorageKindSpec::Kubernetes(_) => true,
            ModelStorageKindSpec::ObjectStorage(spec) => spec.is_unique(),
        }
    }

    /// The kind of this specification.
    pub fn to_kind(&self) -> (r: ModelStorageKind)
        ensures
            r == spec_to_kind(*self),
    {
        match self {
            ModelStorageKindSpec::Database(_) => ModelStorageKind::Database,
            ModelStorageKindSpec::Kubernetes(_) => ModelStorageKind::Kubernetes,
            ModelStorageKindSpec::ObjectStorage(_) => ModelStorageKind::ObjectStorage,
        }
    }
}

impl ModelStorageKind {
    /// The name of the kind, as it is written in resources.
    pub fn as_str(&self) -> (s: &'static str)
        ensures
            s@ == spec_kind_name(*self),
    {
        match self {
            ModelStorageKind::Database => "Database",
            ModelStorageKind::Kubernetes => "Kubernetes",
            ModelStorageKind::ObjectStorage => "ObjectStorage",
        }
    }
}

/// The name of a storage kind.
pub open spec fn spec_kind_name(k: ModelStorageKind) -> Seq<char> {
    match k {
        ModelStorageKind::Database => "Database"@,
        ModelStorageKind::Kubernetes => "Kubernetes"@,
        ModelStorageKind::ObjectStorage => "ObjectStorage"@,
    }
}

} // verus!
