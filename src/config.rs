use vstd::prelude::*;

verus! {

/// The settings the service starts with.
pub struct EvaltorArgs {
    /// Root of the submissions, one directory per attempt below it.
    pub submissions: String,
    /// Root of the fixtures, one directory per test below it.
    pub tests: String,
    /// The address the service is reached at.
    pub hostname: String,
    /// The port it listens on.
    pub port: u16,
    /// The identity-provider client identifier.
    pub google_client_id: String,
    /// The identity-provider client secret.
    pub google_client_secret: String,
}

} // verus!
