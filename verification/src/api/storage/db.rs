use vstd::prelude::*;
use crate::url::Url;

verus! {

/// A database that stores models: borrowed from elsewhere, or owned.
#[derive(Debug)]
pub enum ModelStorageDatabaseSpec {
    Borrowed(ModelStorageDatabaseBorrowedSpec),
    Owned(ModelStorageDatabaseOwnedSpec),
}

impl Default for ModelStorageDatabaseSpec {
    fn default() -> (s: Self)
        ensures
            s is Owned,
    {
        ModelStorageDatabaseSpec::Owned(ModelStorageDatabaseOwnedSpec {  })
    }
}

impl ModelStorageDatabaseSpec {
    /// The URL of a borrowed database; an owned one has none.
    pub fn endpoint(&self) -> (r: Option<Url>)
        ensures
            r is Some <==> self is Borrowed,
            r matches Some(u) ==> self matches ModelStorageDatabaseSpec::Borrowed(b) && u.spec_parts()
                == b.url.spec_parts(),
    {
        match self {
            ModelStorageDatabaseSpec::Borrowed(spec) => spec.endpoint(),
            ModelStorageDatabaseSpec::Owned(spec) => spec.endpoint(),
        }
    }
}

/// A database reached at a given URL.
#[derive(Debug)]
pub struct ModelStorageDatabaseBorrowedSpec {
    pub url: Url,
}

impl ModelStorageDatabaseBorrowedSpec {
    /// The URL of the database.
    pub fn endpoint(&self) -> (r: Option<Url>)
        ensures
            r matches Some(u) && u.spec_parts() == self.url.spec_parts(),
    {
        Some(self.url.duplicate())
    }
}

/// A database that the platform runs itself.
#[derive(Debug)]
pub struct ModelStorageDatabaseOwnedSpec {}

impl Default for ModelStorageDatabaseOwnedSpec {
    fn default() -> (s: Self) {
        ModelStorageDatabaseOwnedSpec {  }
    }
}

impl ModelStorageDatabaseOwnedSpec {
    /// An owned database has no fixed endpoint.
    pub fn endpoint(&self) -> (r: Option<Url>)
        ensures
            r is None,
    {
        None
    }
}

} // verus!
