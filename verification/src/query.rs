//! The query engine's choice of the models it can read: one table per
//! model and storage, from the bindings that are ready on an object
//! storage.

use vstd::prelude::*;
use crate::api::model_storage_binding::ModelStorageBindingState;
use crate::api::storage::ModelStorageKindSpec;
use crate::api::storage::object::ModelStorageObjectSpec;
use crate::sidecar::RouteStatus;
use crate::text::str_eq;

verus! {

/// A binding as the query engine reads it: the model, the name of the
/// storage it targets, and its status.
#[derive(Debug)]
pub struct ModelBinding {
    pub model: String,
    pub storage: String,
    pub status: Option<RouteStatus>,
}

/// A model that the engine reads, from the object storage that holds it.
#[derive(Debug)]
pub struct ModelSource {
    pub model: String,
    pub storage: String,
    pub target: ModelStorageObjectSpec,
}

/// Do two bindings bind the same model to the same storage?
pub open spec fn same_key(a: ModelBinding, b: ModelBinding) -> bool {
    a.model@ == b.model@ && a.storage@ == b.storage@
}

/// Is the binding at `i` the first of its model and storage?
pub open spec fn first_of_key(s: Seq<ModelBinding>, i: int) -> bool {
    forall|j: int| 0 <= j < i ==> !same_key(#[trigger] s[j], s[i])
}

/// The object storage that a binding reads from, where it is ready on one.
pub open spec fn ready_object_target(b: ModelBinding) -> Option<ModelStorageObjectSpec> {
    match b.status {
        Some(status) => if status.state == ModelStorageBindingState::Ready {
            match status.storage_target {
                Some(ModelStorageKindSpec::ObjectStorage(spec)) => Some(spec),
                _ => None,
            }
        } else {
            None
        },
        None => None,
    }
}

/// The models read from the bindings, in order: of the bindings of one
/// model to one storage only the first counts, and it counts where it is
/// ready on an object storage.
pub open spec fn spec_models(s: Seq<ModelBinding>) -> Seq<(Seq<char>, Seq<char>, ModelStorageObjectSpec)>
    decreases s.len(),
{
    if s.len() == 0 {
        Seq::empty()
    } else {
        let rest = spec_models(s.drop_last());
        let b = s.last();
        if first_of_key(s, s.len() - 1) {
            match ready_object_target(b) {
                Some(spec) => rest.push((b.model@, b.storage@, spec)),
                None => rest,
            }
        } else {
            rest
        }
    }
}

/// A model source as plain values.
pub open spec fn source_view(m: ModelSource) -> (Seq<char>, Seq<char>, ModelStorageObjectSpec) {
    (m.model@, m.storage@, m.target)
}

proof fn lemma_first_of_key_prefix(s: Seq<ModelBinding>, n: int, i: int)
    requires
        0 <= i < n <= s.len(),
    ensures
        first_of_key(s.take(n), i) == first_of_key(s, i),
{
    assert forall|j: int| 0 <= j < i implies s.take(n)[j] == s[j] by {}
    assert(s.take(n)[i] == s[i]);
    if first_of_key(s, i) {
        assert forall|j: int| 0 <= j < i implies !same_key(#[trigger] s.take(n)[j], s.take(n)[i]) by {
            assert(s.take(n)[j] == s[j]);
        }
    } else {
        let j = choose|j: int| 0 <= j < i && same_key(#[trigger] s[j], s[i]);
        assert(s.take(n)[j] == s[j]);
    }
}

/// The models that the query engine loads: for each model and storage the
/// first binding between them, where that binding is ready on an object
/// storage.
pub fn load_models(bindings: Vec<ModelBinding>) -> (r: Vec<ModelSource>)
    ensures
        r@.map_values(|m: ModelSource| source_view(m)) == spec_models(bindings@),
{
    let ghost all = bindings@;
    let total: usize = bindings.len();
    let mut bs = bindings;
    let mut seen: Vec<(String, String)> = Vec::new();
    let mut out: Vec<ModelSource> = Vec::new();
    let mut done: usize = 0;
    while bs.len() > 0
        invariant
            total == all.len(),
            done + bs@.len() == all.len(),
            bs@ == all.skip(done as int),
            seen@.len() == done,
            forall|j: int| 0 <= j < done ==> (#[trigger] seen@[j]).0@ == all[j].model@ && seen@[j].1@ == all[j].storage@,
            out@.map_values(|m: ModelSource| source_view(m)) == spec_models(all.take(done as int)),
        decreases bs@.len(),
    {
        let b = bs.remove(0);
        proof {
            assert(all[done as int] == b);
            assert(bs@ =~= all.skip(done + 1));
        }
        let mut first = true;
        let mut j: usize = 0;
        while j < seen.len()
            invariant
                j <= seen@.len(),
                seen@.len() == done,
                done < all.len(),
                all[done as int] == b,
                forall|k: int| 0 <= k < done ==> (#[trigger] seen@[k]).0@ == all[k].model@ && seen@[k].1@ == all[k].storage@,
                first == (forall|k: int| 0 <= k < j ==> !same_key(#[trigger] all[k], b)),
            decreases seen@.len() - j,
        {
            if str_eq(seen[j].0.as_str(), b.model.as_str()) && str_eq(seen[j].1.as_str(), b.storage.as_str()) {
                proof {
                    assert(same_key(all[j as int], b));
                }
                first = false;
            }
            proof {
                if !first {
                    if !same_key(all[j as int], b) {
                        let k = choose|k: int| 0 <= k < j && same_key(#[trigger] all[k], b);
                        assert(0 <= k < j + 1 && same_key(all[k], b));
                    }
                }
            }
            j = j + 1;
        }
        let ghost n = done + 1;
        proof {
            let t = all.take(n);
            assert(t.drop_last() =~= all.take(done as int));
            assert(t.last() == b);
            lemma_first_of_key_prefix(all, n, done as int);
            assert(first == first_of_key(t, t.len() - 1)) by {
                if first {
                    assert forall|k: int| 0 <= k < done implies !same_key(#[trigger] t[k], t[done as int]) by {
                        assert(t[k] == all[k]);
                    }
                } else {
                    let k = choose|k: int| 0 <= k < done && same_key(#[trigger] all[k], b);
                    assert(t[k] == all[k]);
                }
            }
        }
        seen.push((b.model.clone(), b.storage.clone()));
        let ModelBinding { model, storage, status } = b;
        if first {
            match status {
                Some(status) => {
                    let ready = match status.state {
                        ModelStorageBindingState::Ready => true,
                        _ => false,
                    };
                    if ready {
                        match status.storage_target {
                            Some(ModelStorageKindSpec::ObjectStorage(target)) => {
                                out.push(ModelSource { model, storage, target });
                            },
                            _ => {},
                        }
                    }
                },
                None => {},
            }
        }
        proof {
            assert(out@.map_values(|m: ModelSource| source_view(m)) =~= spec_models(all.take(n)));
        }
        done = done + 1;
    }
    proof {
        assert(all.take(done as int) =~= all);
    }
    out
}

} // verus!
