use vstd::prelude::*;
use crate::strmap::StrMap;
use crate::text::{clone_strings, views};

verus! {

/// What `byte_unit::Byte` makes of a quantity such as `1TiB`: `None` where
/// its parser refuses the text, else the number of bytes.
pub uninterp spec fn parsed_byte_quantity(text: Seq<char>) -> Option<u64>;

/// Calls the `FromStr` parser of `byte_unit::Byte` (case-sensitive units)
/// and keeps the number of bytes. Trusted: the result is
/// `parsed_byte_quantity` of the text; nothing is claimed of which texts
/// the parser accepts.
#[verifier::external_body]
pub(crate) fn parse_quantity(text: &str) -> (r: Option<u64>)
    ensures
        r == parsed_byte_quantity(text@),
{
    text.parse::<::byte_unit::Byte>().ok().map(|b| b.as_u64())
}

/// The name of the resource that holds the storage quota.
pub open spec fn storage_key() -> Seq<char> {
    seq!['s', 't', 'o', 'r', 'a', 'g', 'e']
}

/// The storage quota that a map of resource quantities asks for.
pub open spec fn spec_quota_of_map(m: Map<Seq<char>, Seq<char>>) -> Option<u64> {
    if m.dom().contains(storage_key()) {
        parsed_byte_quantity(m[storage_key()])
    } else {
        None
    }
}

/// The storage quota of a map of resource quantities: the `storage`
/// entry, read as a number of bytes.
pub fn quota_of_map(m: &StrMap) -> (r: Option<u64>)
    ensures
        r == spec_quota_of_map(m@),
{
    let key = "storage";
    proof {
        reveal_strlit("storage");
        assert(key@ =~= storage_key());
    }
    match m.get(key) {
        Some(v) => parse_quantity(v.as_str()),
        None => None,
    }
}

/// The compute resources that a workload asks for (`requests`) and may
/// not exceed (`limits`), each a map from a resource name to a quantity,
/// and the names of the resource claims it uses.
#[derive(Debug)]
pub struct ResourceRequirements {
    pub claims: Option<Vec<String>>,
    pub limits: Option<StrMap>,
    pub requests: Option<StrMap>,
}

/// Optional texts as plain values.
pub open spec fn opt_strings_view(v: Option<Vec<String>>) -> Option<Seq<Seq<char>>> {
    match v {
        Some(v) => Some(views(v@)),
        None => None,
    }
}

/// A copy of optional texts.
pub fn clone_opt_strings(v: &Option<Vec<String>>) -> (r: Option<Vec<String>>)
    ensures
        opt_strings_view(r) == opt_strings_view(*v),
{
    match v {
        Some(v) => Some(clone_strings(v)),
        None => None,
    }
}

pub open spec fn opt_map_view(m: Option<StrMap>) -> Option<Map<Seq<char>, Seq<char>>> {
    match m {
        Some(m) => Some(m@),
        None => None,
    }
}

/// The storage quota that resource requirements ask for.
pub open spec fn spec_quota(r: ResourceRequirements) -> Option<u64> {
    match r.requests {
        Some(m) => spec_quota_of_map(m@),
        None => None,
    }
}

/// The storage quota of optional resource requirements.
pub open spec fn spec_quota_opt(r: Option<ResourceRequirements>) -> Option<u64> {
    match r {
        Some(r) => spec_quota(r),
        None => None,
    }
}

impl ResourceRequirements {
    /// The storage quota that these requirements request.
    pub fn quota(&self) -> (r: Option<u64>)
        ensures
            r == spec_quota(*self),
    {
        match &self.requests {
            Some(m) => quota_of_map(m),
            None => None,
        }
    }

    /// A copy of these requirements.
    pub fn duplicate(&self) -> (r: ResourceRequirements)
        ensures
            opt_strings_view(r.claims) == opt_strings_view(self.claims),
            opt_map_view(r.limits) == opt_map_view(self.limits),
            opt_map_view(r.requests) == opt_map_view(self.requests),
            spec_quota(r) == spec_quota(*self),
    {
        ResourceRequirements {
            claims: clone_opt_strings(&self.claims),
            limits: match &self.limits {
                Some(m) => Some(m.duplicate()),
                None => None,
            },
            requests: match &self.requests {
                Some(m) => Some(m.duplicate()),
                None => None,
            },
        }
    }
}

/// The storage quota of optional resource requirements.
pub fn quota_opt(r: &Option<ResourceRequirements>) -> (q: Option<u64>)
    ensures
        q == spec_quota_opt(*r),
{
    match r {
        Some(r) => r.quota(),
        None => None,
    }
}

} // verus!
