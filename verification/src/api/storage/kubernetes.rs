use vstd::prelude::*;
use crate::url::Url;

verus! {

/// The cluster itself, used as a model storage.
#[derive(Debug)]
pub struct ModelStorageKubernetesSpec {}

impl Default for ModelStorageKubernetesSpec {
    fn default() -> (s: Self) {
        ModelStorageKubernetesSpec {  }
    }
}

impl ModelStorageKubernetesSpec {
    /// The cluster has no endpoint of its own.
    pub fn endpoint(&self) -> (r: Option<Url>)
        ensures
            r is None,
    {
        None
    }
}

} // verus!
