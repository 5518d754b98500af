//! What the invalidation service needs to know of a site. The library passes it
//! through and reads nothing from it.

use vstd::prelude::*;

verus! {

/// Settings of the invalidation service.
#[derive(Debug)]
pub struct Config {
    /// Identifier of the site at the service.
    pub site_uuid: String,
    /// Command that prints the token to authenticate with.
    pub api_token_cmd: String,
}

impl Clone for Config {
    fn clone(&self) -> (copy: Self)
        ensures
            copy == *self,
    {
        Config { site_uuid: self.site_uuid.clone(), api_token_cmd: self.api_token_cmd.clone() }
    }
}

} // verus!
