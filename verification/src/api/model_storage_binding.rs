use vstd::prelude::*;

verus! {

/// The life cycle of a binding between a model and a storage.
#[derive(Copy, Clone, Debug, PartialEq, Eq, Structural, PartialOrd, Ord, Hash)]
pub enum ModelStorageBindingState {
    Pending,
    Ready,
    Deleting,
}

impl Default for ModelStorageBindingState {
    fn default() -> (s: Self)
        ensures
            s == ModelStorageBindingState::Pending,
    {
        ModelStorageBindingState::Pending
    }
}

/// What becomes of the data of a model when its binding is deleted.
#[derive(Copy, Clone, Debug, PartialEq, Eq, Structural, PartialOrd, Ord, Hash)]
pub enum ModelStorageBindingDeletionPolicy {
    Delete,
    Retain,
}

/// When the target storage pulls the data of a model from the source.
#[derive(Copy, Clone, Debug, PartialEq, Eq, Structural, PartialOrd, Ord, Hash)]
pub enum ModelStorageBindingSyncPolicyPull {
    Always,
    OnCreate,
    Never,
}

/// When the target storage pushes the data of a model back to the source.
#[derive(Copy, Clone, Debug, PartialEq, Eq, Structural, PartialOrd, Ord, Hash)]
pub enum ModelStorageBindingSyncPolicyPush {
    Always,
    OnDelete,
    Never,
}

/// How the data of a model moves between a source and a target storage.
#[derive(Copy, Clone, Debug, PartialEq, Eq, Structural)]
pub struct ModelStorageBindingSyncPolicy {
    pub pull: ModelStorageBindingSyncPolicyPull,
    pub push: ModelStorageBindingSyncPolicyPush,
}

impl ModelStorageBindingSyncPolicy {
    /// Does the policy move no data at all?
    pub open spec fn spec_is_none(&self) -> bool {
        self.pull == ModelStorageBindingSyncPolicyPull::Never && self.push
            == ModelStorageBindingSyncPolicyPush::Never
    }

    /// Does the policy move no data at all?
    pub fn is_none(&self) -> (r: bool)
        ensures
            r == self.spec_is_none(),
    {
        matches!(self.pull, ModelStorageBindingSyncPolicyPull::Never) && matches!(
            self.push,
            ModelStorageBindingSyncPolicyPush::Never
        )
    }
}

/// The source storage of a binding: its name, its specification and how
/// data moves from it.
#[derive(Debug)]
pub struct ModelStorageBindingStorageSourceSpec<T> {
    pub name: String,
    pub storage: T,
    pub sync_policy: ModelStorageBindingSyncPolicy,
}

} // verus!
