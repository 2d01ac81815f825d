use vstd::prelude::*;
use crate::text::concat2;

verus! {

/// Why a setting could not be read from the environment.
#[derive(Debug)]
pub enum InferError {
    /// The variable is not set.
    Missing { key: String },
}

impl InferError {
    /// The message of the error.
    pub fn message(&self) -> (s: String)
        ensures
            self matches InferError::Missing { key } ==> s@ == "failed to find the environment variable: "@
                + key@,
    {
        match self {
            InferError::Missing { key } => concat2("failed to find the environment variable: ", key.as_str()),
        }
    }
}

/// The value of the environment variable `key`, given what the
/// environment holds under it; its parsing is left to the caller.
pub fn infer(key: &str, value: Option<String>) -> (r: Result<String, InferError>)
    ensures
        value matches Some(v) ==> (r matches Ok(s) && s@ == v@),
        value is None ==> (r matches Err(InferError::Missing { key: k }) && k@ == key@),
{
    match value {
        Some(v) => Ok(v),
        None => Err(InferError::Missing { key: key.to_owned() }),
    }
}

/// The message of a variable whose value does not parse.
pub fn parse_error_message(key: &str, error: &str) -> (s: String)
    ensures
        s@ == "failed to parse the environment variable ("@ + key@ + "): "@ + error@,
{
    let mut s = concat2("failed to parse the environment variable (", key);
    s.append("): ");
    s.append(error);
    s
}

} // verus!
