//! The service's configuration, built once at startup and passed by reference
//! to whatever needs it.

use vstd::prelude::*;
use vstd::string::*;

verus! {

/// Clock skew, in seconds, tolerated when a configuration names none.
pub const DEFAULT_LEEWAY: u64 = 5;

/// The identity provider's application id and secret, the user pool, and the
/// clock skew tolerated when checking a token's time claims.
#[derive(Debug, Clone, PartialEq, Eq)]
pub struct Config {
    pub client_id: String,
    pub client_secret: String,
    pub user_pool_id: String,
    pub user_pool_region: String,
    pub leeway: u64,
}

/// What a `Config` is, mathematically.
pub struct ConfigView {
    pub client_id: Seq<char>,
    pub client_secret: Seq<char>,
    pub user_pool_id: Seq<char>,
    pub user_pool_region: Seq<char>,
    pub leeway: nat,
}

impl View for Config {
    type V = ConfigView;

    open spec fn view(&self) -> ConfigView {
        ConfigView {
            client_id: self.client_id@,
            client_secret: self.client_secret@,
            user_pool_id: self.user_pool_id@,
            user_pool_region: self.user_pool_region@,
            leeway: self.leeway as nat,
        }
    }
}

/// The issuer URL of a user pool in a region.
pub open spec fn issuer_url(region: Seq<char>, pool_id: Seq<char>) -> Seq<char> {
    "https://cognito-idp."@ + region + ".amazonaws.com/"@ + pool_id
}

/// The URL at which a user pool publishes its key set.
pub open spec fn jwks_url(region: Seq<char>, pool_id: Seq<char>) -> Seq<char> {
    issuer_url(region, pool_id) + "/.well-known/jwks.json"@
}

impl ConfigView {
    /// The issuer every accepted token must name.
    pub open spec fn issuer(self) -> Seq<char> {
        issuer_url(self.user_pool_region, self.user_pool_id)
    }

    /// Where the issuer's key set is fetched from.
    pub open spec fn jwks_url(self) -> Seq<char> {
        jwks_url(self.user_pool_region, self.user_pool_id)
    }
}

impl Config {
    /// A configuration with the default leeway.
    pub fn new(
        client_id: String,
        client_secret: String,
        user_pool_id: String,
        user_pool_region: String,
    ) -> (config: Config)
        ensures
            config@ == (ConfigView {
                client_id: client_id@,
                client_secret: client_secret@,
                user_pool_id: user_pool_id@,
                user_pool_region: user_pool_region@,
                leeway: DEFAULT_LEEWAY as nat,
            }),
    {
        Config { client_id, client_secret, user_pool_id, user_pool_region, leeway: DEFAULT_LEEWAY }
    }

    /// The same configuration with another leeway.
    pub fn with_leeway(self, leeway: u64) -> (config: Config)
        ensures
            config@ == (ConfigView { leeway: leeway as nat, ..self@ }),
    {
        Config { leeway, ..self }
    }

    /// The issuer URL of the configured user pool.
    pub fn issuer(&self) -> (url: String)
        ensures
            url@ == self@.issuer(),
    {
        let mut url = String::from_str("https://cognito-idp.");
        url.append(self.user_pool_region.as_str());
        url.append(".amazonaws.com/");
        url.append(self.user_pool_id.as_str());
        url
    }

    /// The URL of the configured user pool's key set.
    pub fn jwks_url(&self) -> (url: String)
        ensures
            url@ == self@.jwks_url(),
    {
        let mut url = self.issuer();
        url.append("/.well-known/jwks.json");
        url
    }
}

} // verus!
