use vstd::prelude::*;
use crate::api::model_claim::ModelClaimBindingPolicy;
use crate::api::storage::ModelStorageKind;
use crate::provider_api::{Capacity, spec_available};

verus! {

/// Why the optimizer chose no storage.
#[derive(Copy, Clone, Debug, PartialEq, Eq, Structural)]
pub enum OptimizeError {
    /// The binding policy is not implemented.
    Unimplemented(ModelClaimBindingPolicy),
}

/// Is a storage of `kind` one that a claim for `wanted` may use? Any kind
/// where the claim names none.
pub fn storage_kind_matches(wanted: Option<ModelStorageKind>, kind: ModelStorageKind) -> (r: bool)
    ensures
        r == (wanted is None || wanted == Some(kind)),
{
    match wanted {
        Some(w) => w == kind,
        None => true,
    }
}

/// Can a storage of the given capacity hold the quota? Without a quota
/// any storage can; with one, only a storage whose capacity is known and
/// whose free bytes reach the quota.
pub open spec fn spec_affordable(quota: Option<u64>, capacity: Option<Capacity>) -> bool {
    match (quota, capacity) {
        (Some(q), Some(c)) => q <= spec_available(c),
        (Some(_), None) => false,
        (None, _) => true,
    }
}

/// A candidate of the lowest-copy policy: affordable, with a known
/// capacity.
pub open spec fn spec_candidate(quota: Option<u64>, capacity: Option<Capacity>) -> bool {
    spec_affordable(quota, capacity) && capacity is Some
}

/// The free bytes of a known capacity.
pub open spec fn free_of(capacity: Option<Capacity>) -> u64 {
    match capacity {
        Some(c) => spec_available(c),
        None => 0,
    }
}

/// `i` is the storage that the lowest-copy policy picks: a candidate with
/// the most free bytes, and the last such one where several tie.
pub open spec fn spec_best(quota: Option<u64>, capacities: Seq<Option<Capacity>>, i: int) -> bool {
    &&& 0 <= i < capacities.len()
    &&& spec_candidate(quota, capacities[i])
    &&& forall|j: int|
        0 <= j < capacities.len() && #[trigger] spec_candidate(quota, capacities[j]) ==> free_of(capacities[j])
            <= free_of(capacities[i])
    &&& forall|j: int|
        i < j < capacities.len() && #[trigger] spec_candidate(quota, capacities[j]) ==> free_of(capacities[j])
            < free_of(capacities[i])
}

/// Can a storage of the given capacity hold the quota?
pub fn affordable(quota: Option<u64>, capacity: Option<Capacity>) -> (r: bool)
    ensures
        r == spec_affordable(quota, capacity),
{
    match (quota, capacity) {
        (Some(q), Some(c)) => q <= c.available(),
        (Some(_), None) => false,
        (None, _) => true,
    }
}

/// The storage that a claim is bound to, among storages given by their
/// capacity (unknown where it could not be measured): under the
/// lowest-copy policy, the candidate with the most free bytes (the last of
/// several that tie), or none where no storage is a candidate; the other
/// policies are not implemented.
pub fn select_storage(
    policy: ModelClaimBindingPolicy,
    quota: Option<u64>,
    capacities: &Vec<Option<Capacity>>,
) -> (r: Result<Option<usize>, OptimizeError>)
    ensures
        policy != ModelClaimBindingPolicy::LowestCopy ==> r == Err::<Option<usize>, OptimizeError>(
            OptimizeError::Unimplemented(policy),
        ),
        policy == ModelClaimBindingPolicy::LowestCopy ==> (r matches Ok(choice) && match choice {
            Some(i) => spec_best(quota, capacities@, i as int),
            None => forall|j: int|
                0 <= j < capacities@.len() ==> !#[trigger] spec_candidate(quota, capacities@[j]),
        }),
{
    match policy {
        ModelClaimBindingPolicy::LowestCopy => {},
        _ => return Err(OptimizeError::Unimplemented(policy)),
    }
    let mut best: Option<usize> = None;
    let mut best_free: u64 = 0;
    let mut i: usize = 0;
    while i < capacities.len()
        invariant
            i <= capacities@.len(),
            best matches Some(b) ==> b < i && spec_candidate(quota, capacities@[b as int]) && best_free
                == free_of(capacities@[b as int]),
            best is None ==> forall|j: int| 0 <= j < i ==> !#[trigger] spec_candidate(quota, capacities@[j]),
            best is Some ==> forall|j: int|
                0 <= j < i && #[trigger] spec_candidate(quota, capacities@[j]) ==> free_of(capacities@[j])
                    <= best_free,
            best matches Some(b) ==> forall|j: int|
                b < j < i && #[trigger] spec_candidate(quota, capacities@[j]) ==> free_of(capacities@[j])
                    < best_free,
        decreases capacities@.len() - i,
    {
        let c = capacities[i];
        if affordable(quota, c) {
            match c {
                Some(cap) => {
                    let free = cap.available();
                    let take = match best {
                        None => true,
                        Some(_) => best_free <= free,
                    };
                    if take {
                        best = Some(i);
                        best_free = free;
                    }
                },
                None => {},
            }
        }
        i = i + 1;
    }
    Ok(best)
}

/// The storage chosen under the lowest-copy policy can hold the quota of
/// the claim, and no candidate offers more free bytes.
pub proof fn lemma_best_is_affordable(quota: Option<u64>, capacities: Seq<Option<Capacity>>, i: int)
    requires
        spec_best(quota, capacities, i),
    ensures
        quota matches Some(q) ==> capacities[i] matches Some(c) && q <= spec_available(c),
        forall|j: int|
            0 <= j < capacities.len() && #[trigger] spec_candidate(quota, capacities[j]) ==> free_of(capacities[j])
                <= free_of(capacities[i]),
{
}

/// At most one storage is the pick of the lowest-copy policy.
pub proof fn lemma_best_is_unique(quota: Option<u64>, capacities: Seq<Option<Capacity>>, i: int, k: int)
    requires
        spec_best(quota, capacities, i),
        spec_best(quota, capacities, k),
    ensures
        i == k,
{
    if i < k {
        assert(spec_candidate(quota, capacities[k]));
    } else if k < i {
        assert(spec_candidate(quota, capacities[i]));
    }
}

} // verus!
