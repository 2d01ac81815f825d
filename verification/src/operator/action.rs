use vstd::prelude::*;
use crate::text::str_eq;

verus! {

/// The seconds after which a resource is reconciled again when a step
/// failed or changed it.
pub const FALLBACK_SECONDS: u64 = 30;

/// What the controller does with a resource after a reconciliation.
#[derive(Copy, Clone, Debug, PartialEq, Eq, Structural)]
pub enum Action {
    /// Reconcile again after the given seconds.
    Requeue { seconds: u64 },
    /// Reconcile again only when the resource changes.
    AwaitChange,
}

impl Action {
    /// Reconcile again after the fallback delay.
    pub fn requeue_fallback() -> (a: Action)
        ensures
            a == (Action::Requeue { seconds: FALLBACK_SECONDS }),
    {
        Action::Requeue { seconds: FALLBACK_SECONDS }
    }
}

/// Is `name` among the finalizers of a resource?
pub open spec fn spec_has_finalizer(finalizers: Seq<Seq<char>>, name: Seq<char>) -> bool {
    finalizers.contains(name)
}

/// Is `name` among `finalizers`?
pub fn has_finalizer(finalizers: &Vec<String>, name: &str) -> (r: bool)
    ensures
        r == spec_has_finalizer(finalizers@.map_values(|f: String| f@), name@),
{
    let ghost names = finalizers@.map_values(|f: String| f@);
    let mut i: usize = 0;
    while i < finalizers.len()
        invariant
            i <= finalizers@.len(),
            names == finalizers@.map_values(|f: String| f@),
            forall|j: int| 0 <= j < i ==> names[j] != name@,
        decreases finalizers@.len() - i,
    {
        if str_eq(finalizers[i].as_str(), name) {
            proof {
                assert(names[i as int] == name@);
            }
            return true;
        }
        i = i + 1;
    }
    proof {
        if names.contains(name@) {
            let j = choose|j: int| 0 <= j < names.len() && names[j] == name@;
            assert(names[j] != name@);
        }
    }
    false
}

} // verus!
