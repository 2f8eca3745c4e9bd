use vstd::prelude::*;

verus! {

/// Why startup was refused before any step could run.
#[derive(Clone, Copy, PartialEq, Eq, Debug, Structural)]
pub enum ConfigError {
    /// The mandatory client identifier was not supplied.
    MissingClientId,
}

/// Connection settings resolved at startup, handed to the workflow before
/// any prompt is shown or any remote call is made.
#[derive(Debug)]
pub struct StartupConfig {
    pub region: String,
    pub client_id: String,
}

/// The region used when neither the flag nor the ambient provider gives one.
pub open spec fn default_region() -> Seq<char> {
    "us-east-1"@
}

/// The region precedence rule: explicit flag, then ambient provider, then
/// the hardcoded default.
pub open spec fn chosen_region(flag: Option<String>, ambient: Option<String>) -> Seq<char> {
    match flag {
        Some(f) => f@,
        None => match ambient {
            Some(a) => a@,
            None => default_region(),
        },
    }
}

/// Picks the region: an explicit flag wins, an ambient value comes next,
/// and the hardcoded default is last.
pub fn resolve_region(flag: Option<String>, ambient: Option<String>) -> (r: String)
    ensures
        r@ == chosen_region(flag, ambient),
{
    match flag {
        Some(f) => f,
        None => match ambient {
            Some(a) => a,
            None => String::from_str("us-east-1"),
        },
    }
}

/// The client identifier is mandatory: its absence is a fatal startup
/// error, and a supplied one is passed through unchanged.
pub fn validate_client_id(client_id: Option<String>) -> (r: Result<String, ConfigError>)
    ensures
        client_id matches Some(c) ==> (r matches Ok(s) && s == c),
        client_id is None ==> (r matches Err(e) && e == ConfigError::MissingClientId),
{
    match client_id {
        Some(c) => Ok(c),
        None => Err(ConfigError::MissingClientId),
    }
}

/// Resolves the whole startup configuration. Fails exactly when the client
/// identifier is missing; otherwise the region follows the precedence rule
/// and the client identifier is passed through unchanged.
pub fn resolve_startup(
    region_flag: Option<String>,
    ambient_region: Option<String>,
    client_id: Option<String>,
) -> (r: Result<StartupConfig, ConfigError>)
    ensures
        client_id is None ==> (r matches Err(e) && e == ConfigError::MissingClientId),
        client_id matches Some(c) ==> (r matches Ok(cfg) && cfg.client_id == c
            && cfg.region@ == chosen_region(region_flag, ambient_region)),
{
    match validate_client_id(client_id) {
        Ok(c) => Ok(StartupConfig { region: resolve_region(region_flag, ambient_region), client_id: c }),
        Err(e) => Err(e),
    }
}

} // verus!
