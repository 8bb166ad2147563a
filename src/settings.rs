use vstd::prelude::*;

verus! {

/// Database settings.
#[derive(Clone, Debug)]
pub struct Database {
    /// Database URL.
    pub url: String,
    /// Maximum number of connections to the database.
    pub max_connections: u32,
}

/// Authentication settings.
#[derive(Clone, Copy, Debug)]
pub struct Auth {
    /// Develop mode, where no authentication is needed.
    pub develop: bool,
}

/// The develop-mode setting when the configuration names none: off.
pub fn default_dev() -> (r: bool)
    ensures
        !r,
{
    false
}

/// Application-wide settings.
#[derive(Clone, Debug)]
pub struct BaseSettings {
    /// The URL the application is served from.
    pub url: String,
    /// The log filter.
    pub rust_log: Option<String>,
}

/// All the settings of the server.
#[derive(Clone, Debug)]
pub struct Settings {
    /// Database settings.
    pub database: Database,
    /// Authentication settings.
    pub auth: Auth,
    /// Application-wide settings.
    pub base: BaseSettings,
}

} // verus!
