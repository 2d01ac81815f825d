use vstd::prelude::*;
use crate::name::{Name, NameError, valid_name};

verus! {

/// The model of the raw trace that the collector gathers.
pub fn model() -> (r: Result<Name, NameError>)
    ensures
        r matches Ok(n) && n@ == "dash.raw.trace"@,
{
    let text = "dash.raw.trace";
    proof {
        reveal_strlit("dash.raw.trace");
        assert(valid_name(text@));
    }
    Name::parse(text)
}

} // verus!
