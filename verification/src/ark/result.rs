use vstd::prelude::*;

verus! {

/// A result as it is sent over the wire: a value, or an error message.
#[derive(Debug)]
pub enum Result<T> {
    Success(T),
    Failure(String),
}

impl<T> Result<T> {
    /// The wire form of a result whose error is already a message.
    pub fn from_std(value: core::result::Result<T, String>) -> (r: Self)
        ensures
            value matches core::result::Result::Ok(v) ==> (r matches Result::Success(w) && w == v),
            value matches core::result::Result::Err(e) ==> (r matches Result::Failure(m) && m@ == e@),
    {
        match value {
            core::result::Result::Ok(v) => Result::Success(v),
            core::result::Result::Err(e) => Result::Failure(e),
        }
    }

    /// Is this a success? A success is answered with the value, a failure
    /// is refused.
    pub fn is_ok(&self) -> (b: bool)
        ensures
            b == (self is Success),
    {
        match self {
            Result::Success(_) => true,
            Result::Failure(_) => false,
        }
    }
}

} // verus!
