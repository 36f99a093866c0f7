//! The configuration the process reads once at startup: immutable
//! plain values.  Reading and parsing the config file is I/O and lives
//! with the application; the library holds the typed fields.

use vstd::prelude::*;
use vstd::string::StringExecFns;

verus! {

/// Marker for the source-control API client; constructing the real
/// client is I/O and lives with the application.
#[derive(Clone, Copy, Debug)]
pub struct Client;

/// Credentials for the source-control host.
#[derive(Clone, Debug)]
pub struct GithubConfig {
    pub access_token: String,
    pub app_client_id: String,
    pub app_client_secret: String,
}

/// Where the web server binds.
#[derive(Clone, Debug)]
pub struct WebConfig {
    pub host: String,
    pub port: String,
}

/// Where state is stored.
#[derive(Clone, Debug)]
pub struct DbConfig {
    pub file: String,
}

/// Per-repository policy: who reviews, who may try, and the shared
/// secrets under which the notifiers sign their callbacks.
#[derive(Clone, Debug)]
pub struct RepoConfig {
    pub owner: String,
    pub name: String,
    pub reviewers: Vec<String>,
    pub try_users: Vec<String>,
    pub secret: String,
    pub travis_token: String,
}

/// The whole configuration, read once at startup and immutable after.
#[derive(Clone, Debug)]
pub struct Config {
    pub name: String,
    pub github: GithubConfig,
    pub web: WebConfig,
    pub db: DbConfig,
    pub repos: Vec<RepoConfig>,
}

impl Config {
    /// The bind address of the web server: the host, a colon, the
    /// port.
    pub fn url(&self) -> (r: String)
        ensures
            r@ == self.web.host@ + ":"@ + self.web.port@,
    {
        let mut s = self.web.host.clone();
        s.append(":");
        s.append(self.web.port.as_str());
        s
    }
}

} // verus!
