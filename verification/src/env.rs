//! The settings the service reads from its environment.

use vstd::prelude::*;

verus! {

/// Where the service listens and which database it uses.
#[derive(Clone, Debug)]
pub struct AppEnvironment {
    pub api_address: String,
    pub database_url: String,
}

/// The address the service listens on when none is configured.
pub open spec fn default_api_address() -> Seq<char> {
    "127.0.0.1:8080"@
}

impl AppEnvironment {
    /// The settings from the values of the variables `API_ADDRESS` and
    /// `DATABASE_URL`: an address that cannot be read falls back to
    /// `127.0.0.1:8080`; a database URL that cannot be read is the error.
    pub fn from_vars<E>(api_address: Option<String>, database_url: Result<String, E>) -> (r: Result<
        AppEnvironment,
        E,
    >)
        ensures
            match database_url {
                Err(e) => r == Err::<AppEnvironment, E>(e),
                Ok(url) => r matches Ok(env) && env.database_url == url && match api_address {
                    Some(address) => env.api_address == address,
                    None => env.api_address@ == default_api_address(),
                },
            },
    {
        let database_url: String = match database_url {
            Ok(url) => url,
            Err(e) => return Err(e),
        };
        let api_address: String = match api_address {
            Some(address) => address,
            None => "127.0.0.1:8080".to_owned(),
        };
        Ok(AppEnvironment { api_address, database_url })
    }
}

} // verus!
