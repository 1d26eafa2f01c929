//! The endpoint configuration that every request is composed from.
use vstd::prelude::*;
use crate::auth::Auth;

verus! {

/// The serialized base URL of the API (scheme, host and API prefix) and the
/// credential for requests.
#[derive(Debug)]
pub struct Config {
    pub base_url: String,
    pub token: Auth,
}

impl Clone for Config {
    fn clone(&self) -> (r: Self)
        ensures
            r == *self,
    {
        Config { base_url: self.base_url.clone(), token: self.token.clone() }
    }
}

} // verus!
