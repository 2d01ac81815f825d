use vstd::prelude::*;
use crate::name::{Name, NameError, valid_name};

verus! {

/// The model of the raw logs that the collector gathers.
pub fn model() -> (r: Result<Name, NameError>)
    ensures
        r matches Ok(n) && n@ == "dash.raw.logs"@,
{
    let text = "dash.raw.logs";
    proof {
        reveal_strlit("dash.raw.logs");
        assert(valid_name(text@));
    }
    Name::parse(text)
}

} // verus!
