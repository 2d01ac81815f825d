use vstd::prelude::*;
use crate::api::resources::ResourceRequirements;
use crate::api::storage::ModelStorageKind;
use crate::text::str_eq;

verus! {

/// The finalizer that the operator puts on model claims.
pub const MODEL_CLAIM_FINALIZER_NAME: &'static str = "dash.ulagbulag.io/finalizer-model-claims";

/// What a model claim asks of the storage that will hold its model.
#[derive(Debug)]
pub struct ModelClaimSpec {
    pub affinity: ModelClaimAffinity,
    pub allow_replacement: bool,
    pub binding_policy: ModelClaimBindingPolicy,
    pub deletion_policy: ModelClaimDeletionPolicy,
    pub resources: Option<ResourceRequirements>,
    pub storage: Option<ModelStorageKind>,
    pub storage_name: Option<String>,
}

impl ModelClaimSpec {
    /// A claim may be moved to another storage unless it says otherwise.
    pub fn default_allow_replacement() -> (b: bool)
        ensures
            b,
    {
        true
    }
}

impl Default for ModelClaimSpec {
    fn default() -> (s: Self)
        ensures
            s.allow_replacement,
            s.binding_policy == ModelClaimBindingPolicy::LowestCopy,
            s.deletion_policy == ModelClaimDeletionPolicy::Retain,
            s.resources is None,
            s.storage is None,
            s.storage_name is None,
            s.affinity.is_empty(),
    {
        ModelClaimSpec {
            affinity: ModelClaimAffinity::default(),
            allow_replacement: Self::default_allow_replacement(),
            binding_policy: ModelClaimBindingPolicy::default(),
            deletion_policy: ModelClaimDeletionPolicy::default(),
            resources: None,
            storage: None,
            storage_name: None,
        }
    }
}

/// Where a claimed model may be placed, and where it may be moved.
#[derive(Debug)]
pub struct ModelClaimAffinity {
    pub placement_affinity: ModelClaimAffinityRequirements,
    pub replacement_affinity: ModelClaimAffinityRequirements,
}

impl ModelClaimAffinity {
    /// Does this affinity state no preference nor requirement at all?
    pub open spec fn is_empty(&self) -> bool {
        &&& self.placement_affinity.preferred@.len() == 0
        &&& self.placement_affinity.required@.len() == 0
        &&& self.replacement_affinity.preferred@.len() == 0
        &&& self.replacement_affinity.required@.len() == 0
    }
}

impl Default for ModelClaimAffinity {
    fn default() -> (s: Self)
        ensures
            s.is_empty(),
    {
        ModelClaimAffinity {
            placement_affinity: ModelClaimAffinityRequirements::default(),
            replacement_affinity: ModelClaimAffinityRequirements::default(),
        }
    }
}

/// The preferred and the required affinities of one placement.
#[derive(Debug)]
pub struct ModelClaimAffinityRequirements {
    pub preferred: Vec<ModelClaimPreferredAffinity>,
    pub required: Vec<ModelClaimAffinityPreference>,
}

impl Default for ModelClaimAffinityRequirements {
    fn default() -> (s: Self)
        ensures
            s.preferred@.len() == 0,
            s.required@.len() == 0,
    {
        ModelClaimAffinityRequirements { preferred: Vec::new(), required: Vec::new() }
    }
}

/// An affinity with the weight of its preference.
#[derive(Debug)]
pub struct ModelClaimPreferredAffinity {
    pub base: ModelClaimAffinityPreference,
    pub weight: u8,
}

/// A list of expressions that a storage should match.
#[derive(Debug)]
pub struct ModelClaimAffinityPreference {
    pub match_expressions: Vec<ModelClaimAffinityExpression>,
}

impl Default for ModelClaimAffinityPreference {
    fn default() -> (s: Self)
        ensures
            s.match_expressions@.len() == 0,
    {
        ModelClaimAffinityPreference { match_expressions: Vec::new() }
    }
}

/// A query over the metrics of a storage.
#[derive(Debug)]
pub struct ModelClaimAffinityExpression {
    pub query: String,
    pub source: ModelClaimAffinityExpressionSource,
}

/// Where the metrics of an affinity expression come from.
#[derive(Copy, Clone, Debug, PartialEq, Eq, Structural, PartialOrd, Ord, Hash)]
pub enum ModelClaimAffinityExpressionSource {
    Prometheus,
}

impl Default for ModelClaimAffinityExpressionSource {
    fn default() -> (s: Self)
        ensures
            s == ModelClaimAffinityExpressionSource::Prometheus,
    {
        ModelClaimAffinityExpressionSource::Prometheus
    }
}

/// How the storage of a claim is chosen.
#[derive(Copy, Clone, Debug, PartialEq, Eq, Structural, PartialOrd, Ord, Hash)]
pub enum ModelClaimBindingPolicy {
    Balanced,
    LowestCopy,
    LowestLatency,
}

impl Default for ModelClaimBindingPolicy {
    fn default() -> (s: Self)
        ensures
            s == ModelClaimBindingPolicy::LowestCopy,
    {
        ModelClaimBindingPolicy::LowestCopy
    }
}

/// The name of a binding policy.
pub open spec fn spec_binding_policy_name(p: ModelClaimBindingPolicy) -> Seq<char> {
    match p {
        ModelClaimBindingPolicy::Balanced => "Balanced"@,
        ModelClaimBindingPolicy::LowestCopy => "LowestCopy"@,
        ModelClaimBindingPolicy::LowestLatency => "LowestLatency"@,
    }
}

impl ModelClaimBindingPolicy {
    /// The name of the policy.
    pub fn as_str(&self) -> (s: &'static str)
        ensures
            s@ == spec_binding_policy_name(*self),
    {
        match self {
            ModelClaimBindingPolicy::Balanced => "Balanced",
            ModelClaimBindingPolicy::LowestCopy => "LowestCopy",
            ModelClaimBindingPolicy::LowestLatency => "LowestLatency",
        }
    }

    /// The policy of a given name.
    pub fn from_name(name: &str) -> (r: Option<ModelClaimBindingPolicy>)
        ensures
            r matches Some(p) ==> spec_binding_policy_name(p) == name@,
            r is None ==> forall|p: ModelClaimBindingPolicy| spec_binding_policy_name(p) != name@,
    {
        if str_eq(name, "Balanced") {
            Some(ModelClaimBindingPolicy::Balanced)
        } else if str_eq(name, "LowestCopy") {
            Some(ModelClaimBindingPolicy::LowestCopy)
        } else if str_eq(name, "LowestLatency") {
            Some(ModelClaimBindingPolicy::LowestLatency)
        } else {
            proof {
                assert forall|p: ModelClaimBindingPolicy| spec_binding_policy_name(p) != name@ by {
                    match p {
                        ModelClaimBindingPolicy::Balanced => {},
                        ModelClaimBindingPolicy::LowestCopy => {},
                        ModelClaimBindingPolicy::LowestLatency => {},
                    }
                }
            }
            None
        }
    }
}

/// The names of the binding policies are distinct, so a name read back
/// gives the policy that was written.
pub proof fn lemma_binding_policy_name_roundtrip(p: ModelClaimBindingPolicy, q: ModelClaimBindingPolicy)
    ensures
        spec_binding_policy_name(p) == spec_binding_policy_name(q) ==> p == q,
{
    reveal_strlit("Balanced");
    reveal_strlit("LowestCopy");
    reveal_strlit("LowestLatency");
    if p != q {
        match (p, q) {
            (ModelClaimBindingPolicy::Balanced, _) => {
                assert(spec_binding_policy_name(p)[0] != spec_binding_policy_name(q)[0]);
            },
            (_, ModelClaimBindingPolicy::Balanced) => {
                assert(spec_binding_policy_name(p)[0] != spec_binding_policy_name(q)[0]);
            },
            _ => {
                assert(spec_binding_policy_name(p).len() != spec_binding_policy_name(q).len());
            },
        }
    }
}

/// What becomes of the binding of a claim when the claim is deleted.
#[derive(Copy, Clone, Debug, PartialEq, Eq, Structural, PartialOrd, Ord, Hash)]
pub enum ModelClaimDeletionPolicy {
    Delete,
    Retain,
}

impl Default for ModelClaimDeletionPolicy {
    fn default() -> (s: Self)
        ensures
            s == ModelClaimDeletionPolicy::Retain,
    {
        ModelClaimDeletionPolicy::Retain
    }
}

/// The life cycle of a model claim.
#[derive(Copy, Clone, Debug, PartialEq, Eq, Structural, PartialOrd, Ord, Hash)]
pub enum ModelClaimState {
    Pending,
    Ready,
    Replacing,
    Deleting,
}

impl Default for ModelClaimState {
    fn default() -> (s: Self)
        ensures
            s == ModelClaimState::Pending,
    {
        ModelClaimState::Pending
    }
}

} // verus!
