//! The connector that replays the metadata of a storage into a pipe.

use vstd::prelude::*;

verus! {

/// The connector takes no arguments of its own.
#[derive(Debug)]
pub struct FunctionArgs {}

/// What the storage connector turns off in its pipe: it neither loads nor
/// stores payloads, nor stores metadata.
#[derive(Copy, Clone, Debug, PartialEq, Eq, Structural)]
pub struct ContextFlags {
    pub load: bool,
    pub store: bool,
    pub store_metadata: bool,
}

/// The context flags of the storage connector: everything off.
pub fn storage_connector_flags() -> (f: ContextFlags)
    ensures
        !f.load && !f.store && !f.store_metadata,
{
    ContextFlags { load: false, store: false, store_metadata: false }
}

} // verus!
