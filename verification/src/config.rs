use vstd::prelude::*;

verus! {

/// The persisted configuration document: a school identifier, and at most
/// one meaningful credential — a durable access token, or a temporary
/// auth code waiting to be exchanged.
#[derive(Debug, Clone, PartialEq, Eq)]
pub struct Config {
    pub school: String,
    pub access_token: Option<String>,
    pub temp: Option<Temp>,
}

/// The temporary section of the config: an auth code that a bootstrap
/// consumes and replaces with an access token.
#[derive(Debug, Clone, PartialEq, Eq)]
pub struct Temp {
    pub auth_code: String,
}

impl Config {
    /// The config as it is rewritten after a successful bootstrap: the new
    /// access token stored, the temporary auth code dropped.
    pub fn after_bootstrap(school: String, access_token: String) -> (c: Config)
        ensures
            c.school == school,
            c.access_token == Some(access_token),
            c.temp is None,
    {
        Config { school, access_token: Some(access_token), temp: None }
    }
}

} // verus!
