use vstd::prelude::*;
use crate::api::storage::ModelStorageState;
use crate::operator::action::{Action, FALLBACK_SECONDS};

verus! {

/// Where the kind written into the status of a storage comes from.
#[derive(Copy, Clone, Debug, PartialEq, Eq, Structural)]
pub enum KindSource {
    /// The kind already in the status, if any.
    Status,
    /// The kind of the specification.
    Spec,
}

/// The next request of the storage reconciler.
#[derive(Copy, Clone, Debug, PartialEq, Eq, Structural)]
pub enum StorageCommand {
    /// Write the status: its state, where its kind comes from and the total
    /// quota of the storage.
    PatchStatus { state: ModelStorageState, kind: KindSource, total_quota: Option<u128> },
    /// Put the finalizer on the storage.
    AddFinalizer,
    /// Take the finalizer off the storage.
    RemoveFinalizer,
    /// Check the storage and measure its quota.
    Validate,
    /// Check that nothing is bound to the storage any more.
    Delete,
    /// End this reconciliation with an action.
    Finish(Action),
}

/// The first request of a reconciliation, from whether the storage is
/// being deleted, the state in its status, and whether it carries the
/// finalizer.
pub open spec fn spec_begin(deleting: bool, state: Option<ModelStorageState>, has_finalizer: bool) -> StorageCommand {
    if deleting && state != Some(ModelStorageState::Deleting) {
        StorageCommand::PatchStatus {
            state: ModelStorageState::Deleting,
            kind: KindSource::Status,
            total_quota: None,
        }
    } else if !has_finalizer {
        StorageCommand::AddFinalizer
    } else {
        match state {
            Some(ModelStorageState::Ready) => StorageCommand::Finish(Action::AwaitChange),
            Some(ModelStorageState::Deleting) => StorageCommand::Delete,
            _ => StorageCommand::Validate,
        }
    }
}

/// The reconciler of model storages.
#[derive(Debug)]
pub struct Ctx {}

impl Ctx {
    /// The first request of a reconciliation.
    pub fn begin(deleting: bool, state: Option<ModelStorageState>, has_finalizer: bool) -> (c: StorageCommand)
        ensures
            c == spec_begin(deleting, state, has_finalizer),
    {
        let marked = match state {
            Some(ModelStorageState::Deleting) => true,
            _ => false,
        };
        if deleting && !marked {
            return StorageCommand::PatchStatus {
                state: ModelStorageState::Deleting,
                kind: KindSource::Status,
                total_quota: None,
            };
        }
        if !has_finalizer {
            return StorageCommand::AddFinalizer;
        }
        match state {
            Some(ModelStorageState::Ready) => StorageCommand::Finish(Action::AwaitChange),
            Some(ModelStorageState::Deleting) => StorageCommand::Delete,
            _ => StorageCommand::Validate,
        }
    }

    /// After validation: mark the storage ready with its quota, or try
    /// again later where validation failed (`None`).
    pub fn on_validated(total_quota: Option<Option<u128>>) -> (c: StorageCommand)
        ensures
            c == spec_on_validated(total_quota),
    {
        match total_quota {
            Some(q) => StorageCommand::PatchStatus {
                state: ModelStorageState::Ready,
                kind: KindSource::Spec,
                total_quota: q,
            },
            None => StorageCommand::Finish(Action::requeue_fallback()),
        }
    }

    /// After the check for bindings: release the storage, or try again
    /// later where something is still bound or the check failed.
    pub fn on_deleted(ok: bool) -> (c: StorageCommand)
        ensures
            ok ==> c == StorageCommand::RemoveFinalizer,
            !ok ==> c == StorageCommand::Finish(Action::Requeue { seconds: FALLBACK_SECONDS }),
    {
        if ok {
            StorageCommand::RemoveFinalizer
        } else {
            StorageCommand::Finish(Action::requeue_fallback())
        }
    }

    /// After the status was written, or failed to be: reconcile again after
    /// the fallback delay either way.
    pub fn on_status_patched(ok: bool) -> (c: StorageCommand)
        ensures
            c == StorageCommand::Finish(Action::Requeue { seconds: FALLBACK_SECONDS }),
    {
        let _ = ok;
        StorageCommand::Finish(Action::requeue_fallback())
    }
}

/// A storage being deleted is never validated, and never left waiting for
/// a change: it is marked, given its finalizer, or checked for deletion.
pub proof fn lemma_deleting_storage_is_not_validated(state: Option<ModelStorageState>, has_finalizer: bool)
    ensures
        spec_begin(true, state, has_finalizer) != StorageCommand::Validate,
        spec_begin(true, state, has_finalizer) != StorageCommand::Finish(Action::AwaitChange),
        has_finalizer ==> (spec_begin(true, state, has_finalizer) == StorageCommand::Delete <==> state
            == Some(ModelStorageState::Deleting)),
{
}

/// Once the deletion mark is written, the next reconciliation of a storage
/// that keeps its finalizer goes on to the deletion check.
pub proof fn lemma_marked_storage_is_deleted(state: Option<ModelStorageState>)
    ensures
        spec_begin(true, state, true) matches StorageCommand::PatchStatus { state: s, .. } ==> spec_begin(
            true,
            Some(s),
            true,
        ) == StorageCommand::Delete,
{
}

/// The request after a validation: mark the storage ready with its quota,
/// or try again later where validation failed (`None`).
pub open spec fn spec_on_validated(total_quota: Option<Option<u128>>) -> StorageCommand {
    match total_quota {
        Some(q) => StorageCommand::PatchStatus {
            state: ModelStorageState::Ready,
            kind: KindSource::Spec,
            total_quota: q,
        },
        None => StorageCommand::Finish(Action::Requeue { seconds: FALLBACK_SECONDS }),
    }
}

/// A storage that is not being deleted and carries its finalizer is
/// validated while pending; once validation succeeds it is marked ready,
/// and from then on it waits for a change.
pub proof fn lemma_storage_life_cycle(quota: Option<u128>)
    ensures
        spec_begin(false, None, true) == StorageCommand::Validate,
        spec_begin(false, Some(ModelStorageState::Pending), true) == StorageCommand::Validate,
        spec_on_validated(Some(quota)) matches StorageCommand::PatchStatus { state: s, .. }
            && spec_begin(false, Some(s), true) == StorageCommand::Finish(Action::AwaitChange),
{
}

} // verus!
