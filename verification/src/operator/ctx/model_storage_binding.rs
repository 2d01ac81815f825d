use vstd::prelude::*;
use crate::api::model_storage_binding::{ModelStorageBindingDeletionPolicy, ModelStorageBindingState};
use crate::operator::action::{Action, FALLBACK_SECONDS};

verus! {

/// The next request of the binding reconciler.
#[derive(Copy, Clone, Debug, PartialEq, Eq, Structural)]
pub enum BindingCommand {
    /// Mark the binding as being deleted, keeping what its status says of
    /// the model and the storages, under the given deletion policy.
    MarkDeleting { deletion_policy: ModelStorageBindingDeletionPolicy },
    /// Write the status that the last validation or update produced.
    PatchStatus,
    /// Put the finalizer on the binding.
    AddFinalizer,
    /// Take the finalizer off the binding.
    RemoveFinalizer,
    /// Bind the model to its storages.
    Validate,
    /// Rebind the model where its storages changed.
    Update,
    /// Unbind the model from its storages.
    Delete,
    /// End this reconciliation with an action.
    Finish(Action),
}

/// The deletion policy written when a binding is marked as being deleted:
/// the one of its status, else the one of its specification.
pub open spec fn spec_marking_policy(
    status_policy: Option<ModelStorageBindingDeletionPolicy>,
    spec_policy: ModelStorageBindingDeletionPolicy,
) -> ModelStorageBindingDeletionPolicy {
    match status_policy {
        Some(p) => p,
        None => spec_policy,
    }
}

/// The first request of a reconciliation, from whether the binding is
/// being deleted, its status (its state and deletion policy), whether it
/// carries the finalizer, and the deletion policy of its specification.
pub open spec fn spec_begin(
    deleting: bool,
    status: Option<(ModelStorageBindingState, ModelStorageBindingDeletionPolicy)>,
    has_finalizer: bool,
    spec_policy: ModelStorageBindingDeletionPolicy,
) -> BindingCommand {
    let state = match status {
        Some(s) => Some(s.0),
        None => None,
    };
    let status_policy = match status {
        Some(s) => Some(s.1),
        None => None,
    };
    if deleting && state != Some(ModelStorageBindingState::Deleting) {
        BindingCommand::MarkDeleting { deletion_policy: spec_marking_policy(status_policy, spec_policy) }
    } else if !has_finalizer {
        BindingCommand::AddFinalizer
    } else {
        match state {
            Some(ModelStorageBindingState::Ready) => BindingCommand::Update,
            Some(ModelStorageBindingState::Deleting) => BindingCommand::Delete,
            _ => BindingCommand::Validate,
        }
    }
}

/// The request after an update: write the new status where the storages
/// changed (`Some(true)`), wait for a change where nothing changed
/// (`Some(false)`), or try again later where the update failed (`None`).
pub open spec fn spec_on_updated(changed: Option<bool>) -> BindingCommand {
    match changed {
        Some(true) => BindingCommand::PatchStatus,
        Some(false) => BindingCommand::Finish(Action::AwaitChange),
        None => BindingCommand::Finish(Action::Requeue { seconds: FALLBACK_SECONDS }),
    }
}

/// The reconciler of model storage bindings.
#[derive(Debug)]
pub struct Ctx {}

impl Ctx {
    /// The first request of a reconciliation.
    pub fn begin(
        deleting: bool,
        status: Option<(ModelStorageBindingState, ModelStorageBindingDeletionPolicy)>,
        has_finalizer: bool,
        spec_policy: ModelStorageBindingDeletionPolicy,
    ) -> (c: BindingCommand)
        ensures
            c == spec_begin(deleting, status, has_finalizer, spec_policy),
    {
        let (state, status_policy) = match status {
            Some((state, policy)) => (Some(state), Some(policy)),
            None => (None, None),
        };
        let marked = match state {
            Some(ModelStorageBindingState::Deleting) => true,
            _ => false,
        };
        if deleting && !marked {
            let deletion_policy = match status_policy {
                Some(p) => p,
                None => spec_policy,
            };
            return BindingCommand::MarkDeleting { deletion_policy };
        }
        if !has_finalizer {
            return BindingCommand::AddFinalizer;
        }
        match state {
            Some(ModelStorageBindingState::Ready) => BindingCommand::Update,
            Some(ModelStorageBindingState::Deleting) => BindingCommand::Delete,
            _ => BindingCommand::Validate,
        }
    }

    /// After binding: write the status it produced, or try again later
    /// where it failed.
    pub fn on_validated(ok: bool) -> (c: BindingCommand)
        ensures
            ok ==> c == BindingCommand::PatchStatus,
            !ok ==> c == BindingCommand::Finish(Action::Requeue { seconds: FALLBACK_SECONDS }),
    {
        if ok {
            BindingCommand::PatchStatus
        } else {
            BindingCommand::Finish(Action::requeue_fallback())
        }
    }

    /// After an update of a ready binding.
    pub fn on_updated(changed: Option<bool>) -> (c: BindingCommand)
        ensures
            c == spec_on_updated(changed),
    {
        match changed {
            Some(true) => BindingCommand::PatchStatus,
            Some(false) => BindingCommand::Finish(Action::AwaitChange),
            None => BindingCommand::Finish(Action::requeue_fallback()),
        }
    }

    /// After unbinding: release the binding, or try again later where it
    /// failed.
    pub fn on_deleted(ok: bool) -> (c: BindingCommand)
        ensures
            ok ==> c == BindingCommand::RemoveFinalizer,
            !ok ==> c == BindingCommand::Finish(Action::Requeue { seconds: FALLBACK_SECONDS }),
    {
        if ok {
            BindingCommand::RemoveFinalizer
        } else {
            BindingCommand::Finish(Action::requeue_fallback())
        }
    }

    /// After the status was written, or failed to be: reconcile again after
    /// the fallback delay either way.
    pub fn on_status_patched(ok: bool) -> (c: BindingCommand)
        ensures
            c == BindingCommand::Finish(Action::Requeue { seconds: FALLBACK_SECONDS }),
    {
        let _ = ok;
        BindingCommand::Finish(Action::requeue_fallback())
    }
}

/// A binding being deleted is never bound nor rebound; where its status
/// already says so and it keeps its finalizer, it is unbound.
pub proof fn lemma_deleting_binding_is_not_bound(
    status: Option<(ModelStorageBindingState, ModelStorageBindingDeletionPolicy)>,
    has_finalizer: bool,
    spec_policy: ModelStorageBindingDeletionPolicy,
)
    ensures
        spec_begin(true, status, has_finalizer, spec_policy) != BindingCommand::Validate,
        spec_begin(true, status, has_finalizer, spec_policy) != BindingCommand::Update,
        (has_finalizer && (status matches Some(s) && s.0 == ModelStorageBindingState::Deleting))
            ==> spec_begin(true, status, has_finalizer, spec_policy) == BindingCommand::Delete,
{
}

/// Marking a binding for deletion keeps the deletion policy that its
/// status recorded; only a binding without status takes the policy of its
/// specification.
pub proof fn lemma_marking_keeps_recorded_policy(
    state: ModelStorageBindingState,
    recorded: ModelStorageBindingDeletionPolicy,
    spec_policy: ModelStorageBindingDeletionPolicy,
)
    ensures
        state != ModelStorageBindingState::Deleting ==> spec_begin(
            true,
            Some((state, recorded)),
            true,
            spec_policy,
        ) == (BindingCommand::MarkDeleting { deletion_policy: recorded }),
        spec_begin(true, None, true, spec_policy) == (BindingCommand::MarkDeleting {
            deletion_policy: spec_policy,
        }),
{
}

/// A ready binding whose storages did not change waits for a change; one
/// whose storages changed has its new status written.
pub proof fn lemma_ready_binding_waits_unless_changed(
    policy: ModelStorageBindingDeletionPolicy,
    spec_policy: ModelStorageBindingDeletionPolicy,
)
    ensures
        spec_begin(false, Some((ModelStorageBindingState::Ready, policy)), true, spec_policy)
            == BindingCommand::Update,
        spec_on_updated(Some(false)) == BindingCommand::Finish(Action::AwaitChange),
        spec_on_updated(Some(true)) == BindingCommand::PatchStatus,
{
}

} // verus!
