use vstd::prelude::*;
use crate::name::{Name, NameError, valid_name};

verus! {

/// The model of the raw metrics that the collector gathers.
pub fn model() -> (r: Result<Name, NameError>)
    ensures
        r matches Ok(n) && n@ == "dash.raw.metrics"@,
{
    let text = "dash.raw.metrics";
    proof {
        reveal_strlit("dash.raw.metrics");
        assert(valid_name(text@));
    }
    Name::parse(text)
}

} // verus!
