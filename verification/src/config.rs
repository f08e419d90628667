//! Process configuration: network binding, database location, per-provider
//! OAuth settings, and the client version the server expects.

use vstd::prelude::*;

verus! {

/// OAuth settings for one upstream provider.
pub struct OAuthConfig {
    pub redirect: String,
    pub scopes: String,
    pub client: String,
    pub secret: String,
}

impl OAuthConfig {
    pub fn new(redirect: String, scopes: String, client: String, secret: String) -> (r: OAuthConfig)
        ensures
            r.redirect@ == redirect@,
            r.scopes@ == scopes@,
            r.client@ == client@,
            r.secret@ == secret@,
    {
        OAuthConfig { redirect, scopes, client, secret }
    }

    pub fn redirect(&self) -> (r: &str)
        ensures
            r@ == self.redirect@,
    {
        self.redirect.as_str()
    }

    pub fn scopes(&self) -> (r: &str)
        ensures
            r@ == self.scopes@,
    {
        self.scopes.as_str()
    }

    pub fn client(&self) -> (r: &str)
        ensures
            r@ == self.client@,
    {
        self.client.as_str()
    }

    pub fn secret(&self) -> (r: &str)
        ensures
            r@ == self.secret@,
    {
        self.secret.as_str()
    }
}

/// Full server configuration.
pub struct Config {
    pub host: String,
    pub port: u16,
    pub db_url: String,
    pub twitch_oauth: OAuthConfig,
    pub streamlabs_oauth: OAuthConfig,
    pub client_version: String,
}

impl Config {
    pub fn new(
        host: String,
        port: u16,
        db_url: String,
        twitch_oauth: OAuthConfig,
        streamlabs_oauth: OAuthConfig,
        client_version: String,
    ) -> (r: Config)
        ensures
            r.host@ == host@,
            r.port == port,
            r.db_url@ == db_url@,
            r.twitch_oauth == twitch_oauth,
            r.streamlabs_oauth == streamlabs_oauth,
            r.client_version@ == client_version@,
    {
        Config { host, port, db_url, twitch_oauth, streamlabs_oauth, client_version }
    }

    pub fn db_url(&self) -> (r: &str)
        ensures
            r@ == self.db_url@,
    {
        self.db_url.as_str()
    }

    pub fn server_host(&self) -> (r: &str)
        ensures
            r@ == self.host@,
    {
        self.host.as_str()
    }

    pub fn server_port(&self) -> (r: u16)
        ensures
            r == self.port,
    {
        self.port
    }

    pub fn twitch_oauth(&self) -> (r: &OAuthConfig)
        ensures
            r == &self.twitch_oauth,
    {
        &self.twitch_oauth
    }

    pub fn streamlabs_oauth(&self) -> (r: &OAuthConfig)
        ensures
            r == &self.streamlabs_oauth,
    {
        &self.streamlabs_oauth
    }

    pub fn client_version(&self) -> (r: &str)
        ensures
            r@ == self.client_version@,
    {
        self.client_version.as_str()
    }
}

} // verus!
