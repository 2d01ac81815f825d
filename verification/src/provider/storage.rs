//! How the storage client reads the objects of a model: which storage
//! serves them, and which storages may act as sources there.

use vstd::prelude::*;
use crate::api::storage::ModelStorageKind;
use crate::operator::validator::{ValidationError, assert_source_is_none, spec_bind};

verus! {

/// Where the objects of a model are read from.
#[derive(Copy, Clone, Debug, PartialEq, Eq, Structural)]
pub enum ReadAction {
    /// The table of the model in the database.
    Database,
    /// The custom resources that the model refers to, in the cluster.
    CustomResources,
    /// Nothing: the cluster keeps no objects of such a model.
    Nothing,
    /// The bucket of the model in the object storage.
    ObjectStorage,
}

/// Where the objects of a model bound to a storage of kind `target` are
/// read from, the source storage of the binding being of kind `source` if
/// there is one: a database or the cluster take no source, and the cluster
/// keeps only the objects of models that refer to custom resources; an
/// object storage takes only an object storage as source.
pub open spec fn spec_read(target: ModelStorageKind, source: Option<ModelStorageKind>, model_is_crd: bool) -> Result<
    ReadAction,
    (ModelStorageKind, Option<ModelStorageKind>),
> {
    match target {
        ModelStorageKind::Database => if source is Some {
            Err((target, None))
        } else {
            Ok(ReadAction::Database)
        },
        ModelStorageKind::Kubernetes => if source is Some {
            Err((target, None))
        } else if model_is_crd {
            Ok(ReadAction::CustomResources)
        } else {
            Ok(ReadAction::Nothing)
        },
        ModelStorageKind::ObjectStorage => match source {
            Some(k) => if k == ModelStorageKind::ObjectStorage {
                Ok(ReadAction::ObjectStorage)
            } else {
                Err((target, Some(k)))
            },
            None => Ok(ReadAction::ObjectStorage),
        },
    }
}

/// Where the objects of a model are read from; see `spec_read`. A source
/// that the target cannot take is refused with `SyncNotSupported`.
pub fn read_plan(target: ModelStorageKind, source: Option<ModelStorageKind>, model_is_crd: bool) -> (r: Result<
    ReadAction,
    ValidationError,
>)
    ensures
        match spec_read(target, source, model_is_crd) {
            Ok(a) => r == Ok::<ReadAction, ValidationError>(a),
            Err((t, s)) => r matches Err(ValidationError::SyncNotSupported { target: t2, source: s2 }) && t2 == t
                && s2 == s,
        },
{
    match target {
        ModelStorageKind::Database => {
            let _: Option<()> = assert_source_is_none(source, ModelStorageKind::Database)?;
            Ok(ReadAction::Database)
        },
        ModelStorageKind::Kubernetes => {
            let _: Option<()> = assert_source_is_none(source, ModelStorageKind::Kubernetes)?;
            if model_is_crd {
                Ok(ReadAction::CustomResources)
            } else {
                Ok(ReadAction::Nothing)
            }
        },
        ModelStorageKind::ObjectStorage => match source {
            Some(ModelStorageKind::ObjectStorage) | None => Ok(ReadAction::ObjectStorage),
            Some(k) => Err(ValidationError::SyncNotSupported { target, source: Some(k) }),
        },
    }
}

/// Why a model's objects cannot be read.
#[derive(Debug)]
pub enum ReadError {
    /// The model is bound to no storage.
    NotBound { model: String },
    /// No storage of the model holds the object.
    NoSuchObject { name: String },
}

/// The bindings of a model, which must have at least one.
pub fn require_bindings<T>(bindings: Vec<T>, model_name: &str) -> (r: Result<Vec<T>, ReadError>)
    ensures
        bindings@.len() > 0 ==> r == Ok::<Vec<T>, ReadError>(bindings),
        bindings@.len() == 0 ==> (r matches Err(ReadError::NotBound { model }) && model@ == model_name@),
{
    if bindings.len() == 0 {
        Err(ReadError::NotBound { model: model_name.to_owned() })
    } else {
        Ok(bindings)
    }
}

/// The first value that was found, if any.
pub open spec fn spec_first_found<V>(found: Seq<Option<V>>) -> Option<V>
    decreases found.len(),
{
    if found.len() == 0 {
        None
    } else {
        match found[0] {
            Some(v) => Some(v),
            None => spec_first_found(found.skip(1)),
        }
    }
}

/// An object of a model, from what each of its storages found in turn: the
/// first that found it.
pub fn first_found<V>(found: Vec<Option<V>>, ref_name: &str) -> (r: Result<V, ReadError>)
    ensures
        match (r, spec_first_found(found@)) {
            (Ok(v), Some(w)) => v == w,
            (Err(ReadError::NoSuchObject { name }), None) => name@ == ref_name@,
            _ => false,
        },
{
    let ghost all = found@;
    let mut rest = found;
    while rest.len() > 0
        invariant
            all == found@,
            spec_first_found(rest@) == spec_first_found(all),
        decreases rest@.len(),
    {
        let ghost before = rest@;
        let item = rest.remove(0);
        proof {
            assert(before[0] == item);
            assert(rest@ =~= before.skip(1));
        }
        match item {
            Some(v) => {
                proof {
                    assert(spec_first_found(before) == Some(v));
                }
                return Ok(v);
            },
            None => {},
        }
    }
    Err(ReadError::NoSuchObject { name: ref_name.to_owned() })
}

/// The objects of a model can be read through every binding that the
/// operator accepts, and reading refuses a source storage exactly where
/// binding does.
pub proof fn lemma_bound_models_can_be_read(target: ModelStorageKind, source: Option<ModelStorageKind>, model_is_crd: bool)
    ensures
        spec_bind(target, source, model_is_crd) is Ok ==> spec_read(target, source, model_is_crd) is Ok,
        spec_read(target, source, model_is_crd) is Err <==> spec_bind(target, source, true) is Err,
{
}

} // verus!
