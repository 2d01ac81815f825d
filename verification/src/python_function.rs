//! The arguments of a pipe function written in Python.

use vstd::prelude::*;

verus! {

/// Which Python script to run, and which of its methods each tick calls.
#[derive(Debug)]
pub struct FunctionArgs {
    pub python_script: String,
    pub python_tick_method: String,
}

impl FunctionArgs {
    /// The method called on each tick by default.
    pub fn default_python_tick_method() -> (s: String)
        ensures
            s@ == "tick"@,
    {
        Self::default_python_tick_method_str().to_owned()
    }

    /// The method called on each tick by default.
    pub fn default_python_tick_method_str() -> (s: &'static str)
        ensures
            s@ == "tick"@,
    {
        "tick"
    }

    /// The arguments of a script, with the default tick method.
    pub fn with_default_tick(python_script: String) -> (a: Self)
        ensures
            a.python_script@ == python_script@,
            a.python_tick_method@ == "tick"@,
    {
        FunctionArgs { python_script, python_tick_method: Self::default_python_tick_method() }
    }
}

} // verus!
