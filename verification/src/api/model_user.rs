use vstd::prelude::*;

verus! {

/// Where the access token of a model user is kept.
#[derive(Debug)]
pub struct ModelUserAccessTokenSecretRefSpec {
    pub map_access_key: String,
    pub map_secret_key: String,
    pub name: String,
}

impl ModelUserAccessTokenSecretRefSpec {
    /// The secret key under which the access key is stored by default.
    pub fn default_map_access_key() -> (s: String)
        ensures
            s@ == "CONSOLE_ACCESS_KEY"@,
    {
        "CONSOLE_ACCESS_KEY".to_owned()
    }

    /// The secret key under which the secret key is stored by default.
    pub fn default_map_secret_key() -> (s: String)
        ensures
            s@ == "CONSOLE_SECRET_KEY"@,
    {
        "CONSOLE_SECRET_KEY".to_owned()
    }

    /// The name of the secret that holds the token by default.
    pub fn default_name() -> (s: String)
        ensures
            s@ == "object-storage-user-0"@,
    {
        "object-storage-user-0".to_owned()
    }

    /// A reference that takes every field from its default.
    pub fn new_default() -> (spec: Self)
        ensures
            spec.map_access_key@ == "CONSOLE_ACCESS_KEY"@,
            spec.map_secret_key@ == "CONSOLE_SECRET_KEY"@,
            spec.name@ == "object-storage-user-0"@,
    {
        ModelUserAccessTokenSecretRefSpec {
            map_access_key: Self::default_map_access_key(),
            map_secret_key: Self::default_map_secret_key(),
            name: Self::default_name(),
        }
    }

    /// A copy of this reference.
    pub fn duplicate(&self) -> (r: Self)
        ensures
            r == *self,
    {
        ModelUserAccessTokenSecretRefSpec {
            map_access_key: self.map_access_key.clone(),
            map_secret_key: self.map_secret_key.clone(),
            name: self.name.clone(),
        }
    }
}

impl Default for ModelUserAccessTokenSecretRefSpec {
    fn default() -> (spec: Self)
        ensures
            spec.map_access_key@ == "CONSOLE_ACCESS_KEY"@,
            spec.map_secret_key@ == "CONSOLE_SECRET_KEY"@,
            spec.name@ == "object-storage-user-0"@,
    {
        Self::new_default()
    }
}

/// How a model user gets its access token.
#[derive(Debug)]
pub enum ModelUserAccessTokenSpec {
    SecretRef(ModelUserAccessTokenSecretRefSpec),
}

impl Default for ModelUserAccessTokenSpec {
    fn default() -> (spec: Self)
        ensures
            spec matches ModelUserAccessTokenSpec::SecretRef(r) && r.map_access_key@
                == "CONSOLE_ACCESS_KEY"@ && r.map_secret_key@ == "CONSOLE_SECRET_KEY"@ && r.name@
                == "object-storage-user-0"@,
    {
        ModelUserAccessTokenSpec::SecretRef(ModelUserAccessTokenSecretRefSpec::new_default())
    }
}

/// The specification of a model user.
#[derive(Debug)]
pub struct ModelUserSpec {
    pub access_token: Option<ModelUserAccessTokenSpec>,
}

} // verus!
