//! The parts of cluster objects that the library reads and writes.

use vstd::prelude::*;

verus! {

/// The API version and the kind of a resource type.
#[derive(Debug)]
pub struct ResourceKind {
    pub api_version: String,
    pub kind: String,
}

impl ResourceKind {
    /// A copy of this resource type.
    pub fn duplicate(&self) -> (r: ResourceKind)
        ensures
            r == *self,
    {
        ResourceKind { api_version: self.api_version.clone(), kind: self.kind.clone() }
    }
}

/// The API version of the model storage resource.
pub const MODEL_STORAGE_API_VERSION: &'static str = "dash.ulagbulag.io/v1alpha1";

/// The kind of the model storage resource.
pub const MODEL_STORAGE_KIND: &'static str = "ModelStorage";

/// A reference from an object to the object that owns it.
#[derive(Debug)]
pub struct OwnerReference {
    pub api_version: String,
    pub block_owner_deletion: Option<bool>,
    pub controller: Option<bool>,
    pub kind: String,
    pub name: String,
    pub uid: String,
}

/// A reference to the owner of the given type, name and uid that blocks
/// the deletion of the owner while the owned object exists.
pub open spec fn spec_blocking_owner(kind: ResourceKind, name: Seq<char>, uid: Seq<char>, r: OwnerReference) -> bool {
    &&& r.api_version@ == kind.api_version@
    &&& r.block_owner_deletion == Some(true)
    &&& r.controller is None
    &&& r.kind@ == kind.kind@
    &&& r.name@ == name
    &&& r.uid@ == uid
}

/// A reference to an owner that blocks its deletion.
pub fn blocking_owner(kind: &ResourceKind, name: String, uid: String) -> (r: OwnerReference)
    ensures
        spec_blocking_owner(*kind, name@, uid@, r),
{
    OwnerReference {
        api_version: kind.api_version.clone(),
        block_owner_deletion: Some(true),
        controller: None,
        kind: kind.kind.clone(),
        name,
        uid,
    }
}

} // verus!
