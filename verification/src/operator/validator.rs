use vstd::prelude::*;
use crate::api::model_claim::ModelClaimDeletionPolicy;
use crate::api::model_storage_binding::{
    ModelStorageBindingDeletionPolicy, ModelStorageBindingStorageSourceSpec,
    ModelStorageBindingSyncPolicy,
};
use crate::api::resources::{ResourceRequirements, opt_map_view, opt_strings_view};
use crate::api::storage::{ModelStorageKind, spec_kind_name};
use crate::k8s::{OwnerReference, ResourceKind, blocking_owner, spec_blocking_owner};
use crate::text::{concat5, join, spec_join, str_eq, strings_eq, views};

verus! {

/// Why the operator refuses a request.
#[derive(Debug)]
pub enum ValidationError {
    /// An object lacks its name.
    MissingName,
    /// The named object lacks its uid.
    MissingUid { name: String },
    /// No storage can hold the model.
    NoSuitableStorage,
    /// Storages of a kind that allows only one already exist.
    StorageConflict { message: String },
    /// Bindings still use the storage.
    StorageBound,
    /// A binding tried to sync data into a storage from a source it cannot
    /// read.
    SyncNotSupported { target: ModelStorageKind, source: Option<ModelStorageKind> },
    /// Only custom resource definitions can be kept in the cluster itself.
    KubernetesNeedsCrd,
    /// The model of a binding changed.
    ModelChanged,
    /// The step is not implemented.
    Unimplemented,
}

// ---------------------------------------------------------------------
// Owner references
// ---------------------------------------------------------------------

/// A blocking owner reference to the object of the given name and uid,
/// where both are known.
pub fn to_owner_reference(kind: &ResourceKind, name: Option<String>, uid: Option<String>) -> (r: Result<
    OwnerReference,
    ValidationError,
>)
    ensures
        name is None ==> (r matches Err(ValidationError::MissingName)),
        name is Some && uid is None ==> (r matches Err(ValidationError::MissingUid { name: m }) && m@
            == name->0@),
        name is Some && uid is Some ==> (r matches Ok(o) && spec_blocking_owner(
            *kind,
            name->0@,
            uid->0@,
            o,
        )),
{
    match name {
        None => Err(ValidationError::MissingName),
        Some(name) => match uid {
            None => Err(ValidationError::MissingUid { name }),
            Some(uid) => Ok(blocking_owner(kind, name, uid)),
        },
    }
}

/// The owner references of a binding: its model, its target storage and,
/// where both its name and uid are known, its source storage. The model
/// must have a uid.
pub fn binding_owner_references(
    model_kind: &ResourceKind,
    model_name: String,
    model_uid: Option<String>,
    storage_kind: &ResourceKind,
    target_name: String,
    target_uid: String,
    source_name: Option<String>,
    source_uid: Option<String>,
) -> (r: Result<Vec<OwnerReference>, ValidationError>)
    ensures
        model_uid is None ==> (r matches Err(ValidationError::MissingUid { name: m }) && m@ == model_name@),
        model_uid is Some ==> (r matches Ok(refs) && {
            &&& refs@.len() == (if source_name is Some && source_uid is Some { 3int } else { 2int })
            &&& spec_blocking_owner(*model_kind, model_name@, model_uid->0@, refs@[0])
            &&& spec_blocking_owner(*storage_kind, target_name@, target_uid@, refs@[1])
            &&& (source_name is Some && source_uid is Some) ==> spec_blocking_owner(
                *storage_kind,
                source_name->0@,
                source_uid->0@,
                refs@[2],
            )
        }),
{
    let model_uid = match model_uid {
        Some(uid) => uid,
        None => return Err(ValidationError::MissingUid { name: model_name }),
    };
    let mut refs: Vec<OwnerReference> = Vec::new();
    refs.push(blocking_owner(model_kind, model_name, model_uid));
    refs.push(blocking_owner(storage_kind, target_name, target_uid));
    match (source_name, source_uid) {
        (Some(name), Some(uid)) => {
            refs.push(blocking_owner(storage_kind, name, uid));
        },
        _ => {},
    }
    Ok(refs)
}

/// The owner references of the bindings of a claimed model, each from its
/// name and uid; the first binding that lacks either fails the whole.
pub fn owner_references_of(kind: &ResourceKind, objects: Vec<(Option<String>, Option<String>)>) -> (r: Result<
    Vec<OwnerReference>,
    ValidationError,
>)
    ensures
        r is Ok <==> forall|i: int| 0 <= i < objects@.len() ==> (#[trigger] objects@[i]).0 is Some
            && objects@[i].1 is Some,
        r matches Ok(refs) ==> refs@.len() == objects@.len() && forall|i: int|
            0 <= i < objects@.len() ==> spec_blocking_owner(
                *kind,
                (#[trigger] objects@[i]).0->0@,
                objects@[i].1->0@,
                refs@[i],
            ),
{
    let mut refs: Vec<OwnerReference> = Vec::new();
    let n = objects.len();
    let mut i: usize = 0;
    while i < n
        invariant
            n == objects@.len(),
            i <= n,
            refs@.len() == i,
            forall|j: int| 0 <= j < i ==> (#[trigger] objects@[j]).0 is Some && objects@[j].1 is Some,
            forall|j: int|
                0 <= j < i ==> spec_blocking_owner(
                    *kind,
                    (#[trigger] objects@[j]).0->0@,
                    objects@[j].1->0@,
                    refs@[j],
                ),
        decreases n - i,
    {
        let (name, uid) = (objects[i].0.clone(), objects[i].1.clone());
        match to_owner_reference(kind, name, uid) {
            Ok(o) => refs.push(o),
            Err(e) => {
                proof {
                    assert(!(objects@[i as int].0 is Some && objects@[i as int].1 is Some));
                }
                return Err(e);
            },
        }
        i = i + 1;
    }
    Ok(refs)
}

// ---------------------------------------------------------------------
// Model claims
// ---------------------------------------------------------------------

/// The deletion policy that a claim gives to the binding it creates.
pub fn binding_deletion_policy(p: ModelClaimDeletionPolicy) -> (r: ModelStorageBindingDeletionPolicy)
    ensures
        p == ModelClaimDeletionPolicy::Delete <==> r == ModelStorageBindingDeletionPolicy::Delete,
{
    match p {
        ModelClaimDeletionPolicy::Delete => ModelStorageBindingDeletionPolicy::Delete,
        ModelClaimDeletionPolicy::Retain => ModelStorageBindingDeletionPolicy::Retain,
    }
}

/// Does deleting a claim delete its model too?
pub fn claim_deletes_model(p: ModelClaimDeletionPolicy) -> (r: bool)
    ensures
        r == (p == ModelClaimDeletionPolicy::Delete),
{
    match p {
        ModelClaimDeletionPolicy::Delete => true,
        ModelClaimDeletionPolicy::Retain => false,
    }
}

/// Two optional resource requirements are equal: both absent, or both
/// given with the same claims, limits and requests.
pub open spec fn spec_resources_eq(a: Option<ResourceRequirements>, b: Option<ResourceRequirements>) -> bool {
    match (a, b) {
        (None, None) => true,
        (Some(x), Some(y)) => opt_strings_view(x.claims) == opt_strings_view(y.claims) && opt_map_view(x.limits)
            == opt_map_view(y.limits) && opt_map_view(x.requests) == opt_map_view(y.requests),
        _ => false,
    }
}

/// Are two optional resource requirements equal?
pub fn resources_eq(a: &Option<ResourceRequirements>, b: &Option<ResourceRequirements>) -> (r: bool)
    ensures
        r == spec_resources_eq(*a, *b),
{
    match (a, b) {
        (None, None) => true,
        (Some(x), Some(y)) => {
            let claims = match (&x.claims, &y.claims) {
                (None, None) => true,
                (Some(p), Some(q)) => strings_eq(p, q),
                _ => false,
            };
            let limits = match (&x.limits, &y.limits) {
                (None, None) => true,
                (Some(p), Some(q)) => p.same_entries(q),
                _ => false,
            };
            let requests = match (&x.requests, &y.requests) {
                (None, None) => true,
                (Some(p), Some(q)) => p.same_entries(q),
                _ => false,
            };
            claims && limits && requests
        },
        _ => false,
    }
}

/// Has a claim changed since it was last bound? Where exactly one of the
/// last and the wanted storage names is given it has; where neither is, it
/// has not; where both are, it has exactly when the resources, the storage
/// kinds or the storage names differ.
pub open spec fn spec_claim_is_changed(
    last_name: Option<Seq<char>>,
    wanted_name: Option<Seq<char>>,
    same_resources: bool,
    last_storage: Option<ModelStorageKind>,
    wanted_storage: Option<ModelStorageKind>,
) -> bool {
    match (last_name, wanted_name) {
        (Some(before), Some(after)) => !(same_resources && last_storage == wanted_storage && before == after),
        (Some(_), None) => true,
        (None, Some(_)) => true,
        (None, None) => false,
    }
}

/// Whether a claim is bound anew, from its last status and its
/// specification.
pub fn claim_is_changed(
    last_name: Option<&str>,
    wanted_name: Option<&str>,
    last_resources: &Option<ResourceRequirements>,
    wanted_resources: &Option<ResourceRequirements>,
    last_storage: Option<ModelStorageKind>,
    wanted_storage: Option<ModelStorageKind>,
) -> (r: bool)
    ensures
        r == spec_claim_is_changed(
            match last_name { Some(s) => Some(s@), None => None },
            match wanted_name { Some(s) => Some(s@), None => None },
            spec_resources_eq(*last_resources, *wanted_resources),
            last_storage,
            wanted_storage,
        ),
{
    match (last_name, wanted_name) {
        (Some(before), Some(after)) => {
            let same_resources = resources_eq(last_resources, wanted_resources);
            let same_storage = match (last_storage, wanted_storage) {
                (None, None) => true,
                (Some(x), Some(y)) => x == y,
                _ => false,
            };
            !(same_resources && same_storage && str_eq(before, after))
        },
        (Some(_), None) => true,
        (None, Some(_)) => true,
        (None, None) => false,
    }
}

/// The next step of updating a ready claim.
#[derive(Copy, Clone, Debug, PartialEq, Eq, Structural)]
pub enum ClaimUpdateStep {
    /// Leave the claim as it is.
    Keep,
    /// Unbind the model and bind it again.
    Rebind,
    /// Move the model to another storage.
    Replace,
}

/// What an update of a ready claim does: nothing unless the change test
/// holds; then a claim that forbids replacement is rebound, and one that
/// allows it is replaced.
pub fn claim_update_step(changed: bool, allow_replacement: bool) -> (r: ClaimUpdateStep)
    ensures
        !changed ==> r == ClaimUpdateStep::Keep,
        changed && !allow_replacement ==> r == ClaimUpdateStep::Rebind,
        changed && allow_replacement ==> r == ClaimUpdateStep::Replace,
{
    if !changed {
        ClaimUpdateStep::Keep
    } else if !allow_replacement {
        ClaimUpdateStep::Rebind
    } else {
        ClaimUpdateStep::Replace
    }
}

/// Replacing the storage of a claim is not implemented.
pub fn replace_claim() -> (r: Result<(), ValidationError>)
    ensures
        r matches Err(ValidationError::Unimplemented),
{
    Err(ValidationError::Unimplemented)
}

/// The storage name of a claim once the optimizer has chosen a binding
/// (given by the name of its target storage), or the refusal where it
/// found none.
pub fn claimed_storage(target: Option<String>) -> (r: Result<String, ValidationError>)
    ensures
        target matches Some(t) ==> (r matches Ok(n) && n@ == t@),
        target is None ==> r matches Err(ValidationError::NoSuitableStorage),
{
    match target {
        Some(t) => Ok(t),
        None => Err(ValidationError::NoSuitableStorage),
    }
}

// ---------------------------------------------------------------------
// Model storages
// ---------------------------------------------------------------------

/// The names of the storages that conflict with a new unique storage of
/// `kind`: those that are unique and of the same kind, in order.
pub open spec fn spec_conflicts(kind: ModelStorageKind, storages: Seq<(String, bool, ModelStorageKind)>) -> Seq<
    Seq<char>,
>
    decreases storages.len(),
{
    if storages.len() == 0 {
        Seq::empty()
    } else {
        let rest = spec_conflicts(kind, storages.drop_last());
        let s = storages.last();
        if s.1 && s.2 == kind {
            rest.push(s.0@)
        } else {
            rest
        }
    }
}

/// The names of the unique storages of `kind` among `storages`, each given
/// by its name, whether it is unique, and its kind.
pub fn conflicting_storages(kind: ModelStorageKind, storages: &Vec<(String, bool, ModelStorageKind)>) -> (r: Vec<
    String,
>)
    ensures
        views(r@) == spec_conflicts(kind, storages@),
{
    let mut r: Vec<String> = Vec::new();
    let mut i: usize = 0;
    while i < storages.len()
        invariant
            i <= storages@.len(),
            views(r@) == spec_conflicts(kind, storages@.take(i as int)),
        decreases storages@.len() - i,
    {
        proof {
            assert(storages@.take(i + 1).drop_last() =~= storages@.take(i as int));
        }
        let (name, unique, k) = (&storages[i].0, storages[i].1, storages[i].2);
        if unique && k == kind {
            r.push(name.clone());
            proof {
                assert(views(r@) =~= spec_conflicts(kind, storages@.take(i as int)).push(name@));
            }
        }
        i = i + 1;
    }
    proof {
        assert(storages@.take(storages@.len() as int) =~= storages@);
    }
    r
}

/// The refusal of a new unique storage that conflicts with others: none
/// where nothing conflicts, else a message that names the storage, its
/// kind and the conflicting storages joined by commas.
pub fn check_storage_conflict(name: &str, kind: ModelStorageKind, conflicts: &Vec<String>) -> (r: Result<
    (),
    ValidationError,
>)
    ensures
        conflicts@.len() == 0 ==> r is Ok,
        conflicts@.len() > 0 ==> (r matches Err(ValidationError::StorageConflict { message: m }) && m@
            == "model storage already exists ("@ + name@ + " => "@ + spec_kind_name(kind) + "): "@
            + spec_join(views(conflicts@), ","@)),
{
    if conflicts.len() == 0 {
        return Ok(());
    }
    let list = join(conflicts, ",");
    let head = concat5("model storage already exists (", name, " => ", kind.as_str(), "): ");
    let mut message = head;
    message.append(list.as_str());
    Err(ValidationError::StorageConflict { message })
}

/// A storage may be released only when no binding uses it.
pub fn check_storage_unbound(bindings: usize) -> (r: Result<(), ValidationError>)
    ensures
        bindings == 0 <==> r is Ok,
        bindings > 0 ==> r matches Err(ValidationError::StorageBound),
{
    if bindings == 0 {
        Ok(())
    } else {
        Err(ValidationError::StorageBound)
    }
}

/// The total quota recorded for a validated storage: the whole capacity of
/// an object storage, and none for the other kinds.
pub fn validated_quota(kind: ModelStorageKind, object_capacity: u64) -> (r: Option<u128>)
    ensures
        kind == ModelStorageKind::ObjectStorage ==> r == Some(object_capacity as u128),
        kind != ModelStorageKind::ObjectStorage ==> r is None,
{
    match kind {
        ModelStorageKind::ObjectStorage => Some(object_capacity as u128),
        _ => None,
    }
}

// ---------------------------------------------------------------------
// Binding and unbinding a model
// ---------------------------------------------------------------------

/// Refuses a source storage where the target cannot sync from any.
pub fn assert_source_is_none<T, R>(source: Option<T>, name: ModelStorageKind) -> (r: Result<Option<R>, ValidationError>)
    ensures
        source is None ==> (r matches Ok(None)),
        source is Some ==> (r matches Err(ValidationError::SyncNotSupported { target: t, source: None }) && t
            == name),
{
    match source {
        Some(_) => Err(ValidationError::SyncNotSupported { target: name, source: None }),
        None => Ok(None),
    }
}

/// Keeps a source storage where it is of the kind of the target, taking
/// out its specification with `map`; refuses it otherwise.
pub fn assert_source_is_same<T, R, F: FnOnce(T) -> Result<R, ModelStorageKind>>(
    source: Option<ModelStorageBindingStorageSourceSpec<T>>,
    name: ModelStorageKind,
    map: F,
) -> (r: Result<Option<ModelStorageBindingStorageSourceSpec<R>>, ValidationError>)
    requires
        source matches Some(s) ==> call_requires(map, (s.storage,)),
    ensures
        source is None ==> (r matches Ok(None)),
        source matches Some(s) ==> (match r {
            Ok(Some(out)) => out.name == s.name && out.sync_policy == s.sync_policy && call_ensures(
                map,
                (s.storage,),
                Ok(out.storage),
            ),
            Err(ValidationError::SyncNotSupported { target: t, source: Some(k) }) => t == name
                && call_ensures(map, (s.storage,), Err(k)),
            _ => false,
        }),
{
    match source {
        None => Ok(None),
        Some(s) => {
            let ModelStorageBindingStorageSourceSpec { name: source_name, storage, sync_policy } = s;
            match map(storage) {
                Ok(storage) => Ok(Some(ModelStorageBindingStorageSourceSpec { name: source_name, storage, sync_policy })),
                Err(kind) => Err(ValidationError::SyncNotSupported { target: name, source: Some(kind) }),
            }
        },
    }
}

/// What binding a model to a storage does.
#[derive(Copy, Clone, Debug, PartialEq, Eq, Structural)]
pub enum BindAction {
    /// Create or update the table of the model in the database.
    UpdateTable,
    /// Nothing: the cluster keeps the custom resources itself.
    Nothing,
    /// Create the bucket of the model, with its quota, sync and service.
    CreateBucket,
}

/// How a model is bound, from the kind of the target storage, the kind of
/// the source storage if any, and whether the model is a reference to a
/// custom resource definition: a database or the cluster take no source;
/// an object storage takes only an object storage as source; the cluster
/// keeps only custom resources.
pub open spec fn spec_bind(target: ModelStorageKind, source: Option<ModelStorageKind>, model_is_crd: bool) -> Result<
    BindAction,
    (ModelStorageKind, Option<ModelStorageKind>),
> {
    match target {
        ModelStorageKind::Database => if source is Some {
            Err((target, None))
        } else {
            Ok(BindAction::UpdateTable)
        },
        ModelStorageKind::Kubernetes => if source is Some {
            Err((target, None))
        } else if model_is_crd {
            Ok(BindAction::Nothing)
        } else {
            Err((target, Some(target)))
        },
        ModelStorageKind::ObjectStorage => match source {
            Some(k) => if k == ModelStorageKind::ObjectStorage {
                Ok(BindAction::CreateBucket)
            } else {
                Err((target, Some(k)))
            },
            None => Ok(BindAction::CreateBucket),
        },
    }
}

/// How a model is bound; see `spec_bind`. A model that the cluster cannot
/// keep is refused with `KubernetesNeedsCrd`.
pub fn bind_plan(target: ModelStorageKind, source: Option<ModelStorageKind>, model_is_crd: bool) -> (r: Result<
    BindAction,
    ValidationError,
>)
    ensures
        match spec_bind(target, source, model_is_crd) {
            Ok(a) => r == Ok::<BindAction, ValidationError>(a),
            Err((t, s)) => if t == ModelStorageKind::Kubernetes && s == Some(t) {
                r matches Err(ValidationError::KubernetesNeedsCrd)
            } else {
                r matches Err(ValidationError::SyncNotSupported { target: t2, source: s2 }) && t2 == t && s2
                    == s
            },
        },
{
    match target {
        ModelStorageKind::Database => {
            let _: Option<()> = assert_source_is_none(source, ModelStorageKind::Database)?;
            Ok(BindAction::UpdateTable)
        },
        ModelStorageKind::Kubernetes => {
            let _: Option<()> = assert_source_is_none(source, ModelStorageKind::Kubernetes)?;
            if model_is_crd {
                Ok(BindAction::Nothing)
            } else {
                Err(ValidationError::KubernetesNeedsCrd)
            }
        },
        ModelStorageKind::ObjectStorage => match source {
            Some(ModelStorageKind::ObjectStorage) | None => Ok(BindAction::CreateBucket),
            Some(k) => Err(ValidationError::SyncNotSupported { target, source: Some(k) }),
        },
    }
}

/// What unbinding a model from a storage does.
#[derive(Copy, Clone, Debug, PartialEq, Eq, Structural)]
pub enum UnbindAction {
    /// Nothing is deleted.
    Nothing,
    /// Drop the table of the model.
    DeleteTable,
    /// Delete the bucket of the model, once its data is pushed back.
    DeleteBucket,
    /// Stop syncing the bucket of the model and keep it.
    UnsyncBucket,
}

/// How a model is unbound, from the kinds of its target and source
/// storages, the deletion policy, and whether the model is a reference to
/// a custom resource definition: a source must be of the kind of the
/// target; `Retain` keeps the data, `Delete` deletes it.
pub open spec fn spec_unbind(
    target: ModelStorageKind,
    source: Option<ModelStorageKind>,
    policy: ModelStorageBindingDeletionPolicy,
    model_is_crd: bool,
) -> Result<UnbindAction, (ModelStorageKind, Option<ModelStorageKind>)> {
    if source is Some && source->0 != target {
        Err((target, source))
    } else {
        match (target, policy) {
            (ModelStorageKind::Database, ModelStorageBindingDeletionPolicy::Delete) => Ok(
                UnbindAction::DeleteTable,
            ),
            (ModelStorageKind::Kubernetes, ModelStorageBindingDeletionPolicy::Delete) => if model_is_crd {
                Ok(UnbindAction::Nothing)
            } else {
                Err((target, Some(target)))
            },
            (ModelStorageKind::ObjectStorage, ModelStorageBindingDeletionPolicy::Delete) => Ok(
                UnbindAction::DeleteBucket,
            ),
            (ModelStorageKind::ObjectStorage, ModelStorageBindingDeletionPolicy::Retain) => Ok(
                UnbindAction::UnsyncBucket,
            ),
            (_, ModelStorageBindingDeletionPolicy::Retain) => Ok(UnbindAction::Nothing),
        }
    }
}

/// How a model is unbound; see `spec_unbind`.
pub fn unbind_plan(
    target: ModelStorageKind,
    source: Option<ModelStorageKind>,
    policy: ModelStorageBindingDeletionPolicy,
    model_is_crd: bool,
) -> (r: Result<UnbindAction, ValidationError>)
    ensures
        match spec_unbind(target, source, policy, model_is_crd) {
            Ok(a) => r == Ok::<UnbindAction, ValidationError>(a),
            Err((t, s)) => if s == Some(t) {
                r matches Err(ValidationError::KubernetesNeedsCrd)
            } else {
                r matches Err(ValidationError::SyncNotSupported { target: t2, source: s2 }) && t2 == t && s2
                    == s
            },
        },
{
    match source {
        Some(k) => {
            if k != target {
                return Err(ValidationError::SyncNotSupported { target, source: Some(k) });
            }
        },
        None => {},
    }
    match (target, policy) {
        (ModelStorageKind::Database, ModelStorageBindingDeletionPolicy::Delete) => Ok(
            UnbindAction::DeleteTable,
        ),
        (ModelStorageKind::Kubernetes, ModelStorageBindingDeletionPolicy::Delete) => if model_is_crd {
            Ok(UnbindAction::Nothing)
        } else {
            Err(ValidationError::KubernetesNeedsCrd)
        },
        (ModelStorageKind::ObjectStorage, ModelStorageBindingDeletionPolicy::Delete) => Ok(
            UnbindAction::DeleteBucket,
        ),
        (ModelStorageKind::ObjectStorage, ModelStorageBindingDeletionPolicy::Retain) => Ok(
            UnbindAction::UnsyncBucket,
        ),
        (_, ModelStorageBindingDeletionPolicy::Retain) => Ok(UnbindAction::Nothing),
    }
}

/// Retaining the data of a model never deletes anything, whatever the
/// storage: the model's table, custom resources and bucket stay.
pub proof fn lemma_retain_deletes_nothing(
    target: ModelStorageKind,
    source: Option<ModelStorageKind>,
    model_is_crd: bool,
)
    ensures
        spec_unbind(target, source, ModelStorageBindingDeletionPolicy::Retain, model_is_crd) matches Ok(
            a,
        ) ==> a != UnbindAction::DeleteTable && a != UnbindAction::DeleteBucket,
{
}

/// A binding that could be made can be undone: where binding succeeds,
/// unbinding under either policy succeeds too.
pub proof fn lemma_bound_can_be_unbound(
    target: ModelStorageKind,
    source: Option<ModelStorageKind>,
    policy: ModelStorageBindingDeletionPolicy,
    model_is_crd: bool,
)
    requires
        spec_bind(target, source, model_is_crd) is Ok,
    ensures
        spec_unbind(target, source, policy, model_is_crd) is Ok,
{
}

// ---------------------------------------------------------------------
// Updating a binding
// ---------------------------------------------------------------------

/// The next step of updating a ready binding.
#[derive(Copy, Clone, Debug, PartialEq, Eq, Structural)]
pub enum BindingUpdateStep {
    /// The storages did not change: keep the binding.
    Keep,
    /// Unbind the model from the storages of the last status, then bind it
    /// to the new ones.
    Rebind,
}

/// What an update of a ready binding does: its model may not change; where
/// its storages did not change either, it is kept, else rebound.
pub fn binding_update_step(model_unchanged: bool, storages_unchanged: bool) -> (r: Result<
    BindingUpdateStep,
    ValidationError,
>)
    ensures
        !model_unchanged ==> (r matches Err(ValidationError::ModelChanged)),
        model_unchanged && storages_unchanged ==> r == Ok::<BindingUpdateStep, ValidationError>(
            BindingUpdateStep::Keep,
        ),
        model_unchanged && !storages_unchanged ==> r == Ok::<BindingUpdateStep, ValidationError>(
            BindingUpdateStep::Rebind,
        ),
{
    if !model_unchanged {
        Err(ValidationError::ModelChanged)
    } else if storages_unchanged {
        Ok(BindingUpdateStep::Keep)
    } else {
        Ok(BindingUpdateStep::Rebind)
    }
}

/// The sync policy recorded for a binding: that of its source, if any.
pub fn recorded_sync_policy<T>(source: &Option<ModelStorageBindingStorageSourceSpec<T>>) -> (r: Option<
    ModelStorageBindingSyncPolicy,
>)
    ensures
        source is None ==> r is None,
        source matches Some(s) ==> r == Some(s.sync_policy),
{
    match source {
        Some(s) => Some(s.sync_policy),
        None => None,
    }
}

} // verus!
