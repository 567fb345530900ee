//! The configuration container and its model.

use vstd::prelude::*;
use vstd::utf8::encode_utf8;

use crate::decimal::{decimal_text, push_decimal};
use crate::environment::{
    env_lookup, flag_setting, load_env_bool, load_env_string, load_env_u16, load_env_u64,
    text_setting, u16_setting, u64_setting,
};

verus! {

/// What a [`DpsConfig`] holds: each setting either present or absent.
pub struct ConfigView {
    pub domain: Option<Seq<char>>,
    pub api_subdomain: Option<Seq<char>>,
    pub development_mode: Option<bool>,
    pub auth_api_subdomain: Option<Seq<char>>,
    pub auth_api_port: Option<u16>,
    pub auth_api_protocol: Option<Seq<char>>,
    pub auth_api_insecure_cookie: Option<bool>,
    pub auth_api_sqlite_main_file_path: Option<Seq<char>>,
    pub auth_api_sqlite_main_pool_size: Option<u16>,
    pub auth_api_session_secret: Option<Seq<char>>,
    pub auth_api_session_ttl_seconds: Option<u64>,
}

/// The text `v` holds, or `default` where it holds none.
pub open spec fn text_or(v: Option<Seq<char>>, default: Seq<char>) -> Seq<char> {
    match v {
        Some(s) => s,
        None => default,
    }
}

impl ConfigView {
    /// A snapshot in which every setting is absent.
    pub open spec fn unset() -> ConfigView {
        ConfigView {
            domain: None,
            api_subdomain: None,
            development_mode: None,
            auth_api_subdomain: None,
            auth_api_port: None,
            auth_api_protocol: None,
            auth_api_insecure_cookie: None,
            auth_api_sqlite_main_file_path: None,
            auth_api_sqlite_main_pool_size: None,
            auth_api_session_secret: None,
            auth_api_session_ttl_seconds: None,
        }
    }

    /// The snapshot loaded from the environment `env`.
    pub open spec fn from_env(env: Seq<(Seq<char>, Seq<char>)>) -> ConfigView {
        ConfigView {
            domain: text_setting(env_lookup(env, "DPS_DOMAIN"@)),
            api_subdomain: text_setting(env_lookup(env, "DPS_API_SUBDOMAIN"@)),
            development_mode: flag_setting(env_lookup(env, "DPS_DEVELOPMENT_MODE"@)),
            auth_api_subdomain: text_setting(env_lookup(env, "DPS_AUTH_API_SUBDOMAIN"@)),
            auth_api_port: u16_setting(env_lookup(env, "DPS_AUTH_API_PORT"@)),
            auth_api_protocol: text_setting(env_lookup(env, "DPS_AUTH_API_PROTOCOL"@)),
            auth_api_insecure_cookie: flag_setting(
                env_lookup(env, "DPS_AUTH_API_INSECURE_COOKIE"@),
            ),
            auth_api_sqlite_main_file_path: text_setting(
                env_lookup(env, "DPS_AUTH_API_SQLITE_MAIN_FILE_PATH"@),
            ),
            auth_api_sqlite_main_pool_size: u16_setting(
                env_lookup(env, "DPS_AUTH_API_SQLITE_MAIN_POOL_SIZE"@),
            ),
            auth_api_session_secret: text_setting(env_lookup(env, "DPS_AUTH_API_SESSION_SECRET"@)),
            auth_api_session_ttl_seconds: u64_setting(
                env_lookup(env, "DPS_AUTH_API_SESSION_TTL_SECONDS"@),
            ),
        }
    }

    /// The domain, `dps.localhost` by default.
    pub open spec fn domain(self) -> Seq<char> {
        text_or(self.domain, "dps.localhost"@)
    }

    /// The API subdomain, `api` by default.
    pub open spec fn api_subdomain(self) -> Seq<char> {
        text_or(self.api_subdomain, "api"@)
    }

    /// Whether development mode is on, `false` by default.
    pub open spec fn development_mode(self) -> bool {
        match self.development_mode {
            Some(b) => b,
            None => false,
        }
    }

    /// The auth API subdomain, `auth` by default.
    pub open spec fn auth_api_subdomain(self) -> Seq<char> {
        text_or(self.auth_api_subdomain, "auth"@)
    }

    /// The auth API protocol, `https` by default.
    pub open spec fn auth_api_protocol(self) -> Seq<char> {
        text_or(self.auth_api_protocol, "https"@)
    }

    /// Whether the auth API uses insecure cookies, `false` by default.
    pub open spec fn auth_api_insecure_cookie(self) -> bool {
        match self.auth_api_insecure_cookie {
            Some(b) => b,
            None => false,
        }
    }

    /// The auth API's main database file, `data/main-development.db` by default.
    pub open spec fn auth_api_sqlite_main_file_path(self) -> Seq<char> {
        text_or(self.auth_api_sqlite_main_file_path, "data/main-development.db"@)
    }

    /// The auth API's main database pool size, 1 by default.
    pub open spec fn auth_api_sqlite_main_pool_size(self) -> u16 {
        match self.auth_api_sqlite_main_pool_size {
            Some(n) => n,
            None => 1,
        }
    }

    /// The auth API session lifetime in seconds, 14 days by default.
    pub open spec fn auth_api_session_ttl_seconds(self) -> u64 {
        match self.auth_api_session_ttl_seconds {
            Some(n) => n,
            None => 1209600,
        }
    }

    /// The bytes of the session secret's UTF-8 text, where there is a secret.
    pub open spec fn auth_api_session_secret_bytes(self) -> Option<Seq<u8>> {
        match self.auth_api_session_secret {
            Some(s) => Some(encode_utf8(s)),
            None => None,
        }
    }

    /// `<api_subdomain>.<domain>`.
    pub open spec fn api_domain(self) -> Seq<char> {
        self.api_subdomain() + "."@ + self.domain()
    }

    /// `:<port>` where a port is set, else nothing.
    pub open spec fn port_suffix(self) -> Seq<char> {
        match self.auth_api_port {
            Some(p) => ":"@ + decimal_text(p as nat),
            None => Seq::empty(),
        }
    }

    /// `<protocol>://<auth_subdomain>.<api_domain>`, then `:<port>` where a
    /// port is set.
    pub open spec fn auth_api_url(self) -> Seq<char> {
        self.auth_api_protocol() + "://"@ + self.auth_api_subdomain() + "."@ + self.api_domain()
            + self.port_suffix()
    }
}

/// Configuration for DPS components.
///
/// Every setting is optional. Getters give a default where a setting is
/// absent; setters override whatever was loaded. No value is validated here.
pub struct DpsConfig {
    domain: Option<String>,
    api_subdomain: Option<String>,
    development_mode: Option<bool>,
    auth_api_subdomain: Option<String>,
    auth_api_port: Option<u16>,
    auth_api_protocol: Option<String>,
    auth_api_insecure_cookie: Option<bool>,
    auth_api_sqlite_main_file_path: Option<String>,
    auth_api_sqlite_main_pool_size: Option<u16>,
    auth_api_session_secret: Option<String>,
    auth_api_session_ttl_seconds: Option<u64>,
}

impl View for DpsConfig {
    type V = ConfigView;

    closed spec fn view(&self) -> ConfigView {
        ConfigView {
            domain: self.domain.deep_view(),
            api_subdomain: self.api_subdomain.deep_view(),
            development_mode: self.development_mode,
            auth_api_subdomain: self.auth_api_subdomain.deep_view(),
            auth_api_port: self.auth_api_port,
            auth_api_protocol: self.auth_api_protocol.deep_view(),
            auth_api_insecure_cookie: self.auth_api_insecure_cookie,
            auth_api_sqlite_main_file_path: self.auth_api_sqlite_main_file_path.deep_view(),
            auth_api_sqlite_main_pool_size: self.auth_api_sqlite_main_pool_size,
            auth_api_session_secret: self.auth_api_session_secret.deep_view(),
            auth_api_session_ttl_seconds: self.auth_api_session_ttl_seconds,
        }
    }
}

/// The text `v` holds, or `default` where it holds none.
fn text_or_default(v: &Option<String>, default: &str) -> (r: String)
    ensures
        r@ == text_or(v.deep_view(), default@),
{
    match v {
        Some(s) => s.clone(),
        None => String::from_str(default),
    }
}

impl DpsConfig {
    /// A configuration with every setting absent: what an environment that
    /// sets none of the variables gives.
    pub fn new() -> (r: DpsConfig)
        ensures
            r@ == ConfigView::unset(),
    {
        DpsConfig {
            domain: None,
            api_subdomain: None,
            development_mode: None,
            auth_api_subdomain: None,
            auth_api_port: None,
            auth_api_protocol: None,
            auth_api_insecure_cookie: None,
            auth_api_sqlite_main_file_path: None,
            auth_api_sqlite_main_pool_size: None,
            auth_api_session_secret: None,
            auth_api_session_ttl_seconds: None,
        }
    }

    /// Loads a configuration from the environment snapshot `env`.
    ///
    /// Variables: `DPS_DOMAIN`, `DPS_API_SUBDOMAIN`, `DPS_DEVELOPMENT_MODE`,
    /// `DPS_AUTH_API_SUBDOMAIN`, `DPS_AUTH_API_PORT`, `DPS_AUTH_API_PROTOCOL`,
    /// `DPS_AUTH_API_INSECURE_COOKIE`, `DPS_AUTH_API_SQLITE_MAIN_FILE_PATH`,
    /// `DPS_AUTH_API_SQLITE_MAIN_POOL_SIZE`, `DPS_AUTH_API_SESSION_SECRET`,
    /// `DPS_AUTH_API_SESSION_TTL_SECONDS`. Flags are true when set to `Y`;
    /// empty text, and numbers that do not parse, count as unset.
    pub fn from_env(env: &Vec<(String, String)>) -> (r: DpsConfig)
        ensures
            r@ == ConfigView::from_env(env.deep_view()),
    {
        DpsConfig {
            domain: load_env_string(env, "DPS_DOMAIN"),
            api_subdomain: load_env_string(env, "DPS_API_SUBDOMAIN"),
            development_mode: load_env_bool(env, "DPS_DEVELOPMENT_MODE"),
            auth_api_subdomain: load_env_string(env, "DPS_AUTH_API_SUBDOMAIN"),
            auth_api_port: load_env_u16(env, "DPS_AUTH_API_PORT"),
            auth_api_protocol: load_env_string(env, "DPS_AUTH_API_PROTOCOL"),
            auth_api_insecure_cookie: load_env_bool(env, "DPS_AUTH_API_INSECURE_COOKIE"),
            auth_api_sqlite_main_file_path: load_env_string(
                env,
                "DPS_AUTH_API_SQLITE_MAIN_FILE_PATH",
            ),
            auth_api_sqlite_main_pool_size: load_env_u16(
                env,
                "DPS_AUTH_API_SQLITE_MAIN_POOL_SIZE",
            ),
            auth_api_session_secret: load_env_string(env, "DPS_AUTH_API_SESSION_SECRET"),
            auth_api_session_ttl_seconds: load_env_u64(env, "DPS_AUTH_API_SESSION_TTL_SECONDS"),
        }
    }

    /// The domain, `dps.localhost` by default. Variable: `DPS_DOMAIN`.
    pub fn get_domain(&self) -> (r: String)
        ensures
            r@ == self@.domain(),
    {
        text_or_default(&self.domain, "dps.localhost")
    }

    /// Sets the domain, over any loaded value.
    pub fn set_domain(&mut self, value: &str)
        ensures
            final(self)@ == (ConfigView { domain: Some(value@), ..old(self)@ }),
    {
        self.domain = Some(String::from_str(value));
    }

    /// The API subdomain, `api` by default. Variable: `DPS_API_SUBDOMAIN`.
    pub fn get_api_subdomain(&self) -> (r: String)
        ensures
            r@ == self@.api_subdomain(),
    {
        text_or_default(&self.api_subdomain, "api")
    }

    /// Sets the API subdomain, over any loaded value.
    pub fn set_api_subdomain(&mut self, value: &str)
        ensures
            final(self)@ == (ConfigView { api_subdomain: Some(value@), ..old(self)@ }),
    {
        self.api_subdomain = Some(String::from_str(value));
    }

    /// Whether development mode is on, `false` by default. Variable:
    /// `DPS_DEVELOPMENT_MODE`, `Y` for true.
    pub fn get_development_mode(&self) -> (r: bool)
        ensures
            r == self@.development_mode(),
    {
        match self.development_mode {
            Some(b) => b,
            None => false,
        }
    }

    /// Sets development mode.
    pub fn set_development_mode(&mut self, value: bool)
        ensures
            final(self)@ == (ConfigView { development_mode: Some(value), ..old(self)@ }),
    {
        self.development_mode = Some(value);
    }

    /// The auth API subdomain, `auth` by default. Variable:
    /// `DPS_AUTH_API_SUBDOMAIN`.
    pub fn get_auth_api_subdomain(&self) -> (r: String)
        ensures
            r@ == self@.auth_api_subdomain(),
    {
        text_or_default(&self.auth_api_subdomain, "auth")
    }

    /// Sets the auth API subdomain.
    pub fn set_auth_api_subdomain(&mut self, value: &str)
        ensures
            final(self)@ == (ConfigView { auth_api_subdomain: Some(value@), ..old(self)@ }),
    {
        self.auth_api_subdomain = Some(String::from_str(value));
    }

    /// The auth API port, if one is set. Variable: `DPS_AUTH_API_PORT`.
    pub fn get_auth_api_port(&self) -> (r: Option<u16>)
        ensures
            r == self@.auth_api_port,
    {
        self.auth_api_port
    }

    /// Sets the auth API port; `None` unsets it.
    pub fn set_auth_api_port(&mut self, value: Option<u16>)
        ensures
            final(self)@ == (ConfigView { auth_api_port: value, ..old(self)@ }),
    {
        self.auth_api_port = value;
    }

    /// The auth API protocol, `https` by default. Variable:
    /// `DPS_AUTH_API_PROTOCOL`.
    pub fn get_auth_api_protocol(&self) -> (r: String)
        ensures
            r@ == self@.auth_api_protocol(),
    {
        text_or_default(&self.auth_api_protocol, "https")
    }

    /// Sets the auth API protocol (such as `http` or `https`).
    pub fn set_auth_api_protocol(&mut self, value: &str)
        ensures
            final(self)@ == (ConfigView { auth_api_protocol: Some(value@), ..old(self)@ }),
    {
        self.auth_api_protocol = Some(String::from_str(value));
    }

    /// Whether the auth API uses insecure cookies, `false` by default.
    /// Variable: `DPS_AUTH_API_INSECURE_COOKIE`, `Y` for true.
    pub fn get_auth_api_insecure_cookie(&self) -> (r: bool)
        ensures
            r == self@.auth_api_insecure_cookie(),
    {
        match self.auth_api_insecure_cookie {
            Some(b) => b,
            None => false,
        }
    }

    /// Sets whether the auth API uses insecure cookies.
    pub fn set_auth_api_insecure_cookie(&mut self, value: bool)
        ensures
            final(self)@ == (ConfigView { auth_api_insecure_cookie: Some(value), ..old(self)@ }),
    {
        self.auth_api_insecure_cookie = Some(value);
    }

    /// The auth API's main database file, `data/main-development.db` by
    /// default. Variable: `DPS_AUTH_API_SQLITE_MAIN_FILE_PATH`.
    pub fn get_auth_api_sqlite_main_file_path(&self) -> (r: String)
        ensures
            r@ == self@.auth_api_sqlite_main_file_path(),
    {
        text_or_default(&self.auth_api_sqlite_main_file_path, "data/main-development.db")
    }

    /// Sets the auth API's main database file.
    pub fn set_auth_api_sqlite_main_file_path(&mut self, value: &str)
        ensures
            final(self)@ == (ConfigView {
                auth_api_sqlite_main_file_path: Some(value@),
                ..old(self)@
            }),
    {
        self.auth_api_sqlite_main_file_path = Some(String::from_str(value));
    }

    /// The auth API's main database pool size, 1 by default. Variable:
    /// `DPS_AUTH_API_SQLITE_MAIN_POOL_SIZE`.
    pub fn get_auth_api_sqlite_main_pool_size(&self) -> (r: u16)
        ensures
            r == self@.auth_api_sqlite_main_pool_size(),
    {
        match self.auth_api_sqlite_main_pool_size {
            Some(n) => n,
            None => 1,
        }
    }

    /// Sets the auth API's main database pool size; `None` restores the
    /// default.
    pub fn set_auth_api_sqlite_main_pool_size(&mut self, value: Option<u16>)
        ensures
            final(self)@ == (ConfigView { auth_api_sqlite_main_pool_size: value, ..old(self)@ }),
    {
        self.auth_api_sqlite_main_pool_size = value;
    }

    /// The auth API session secret, if one is set. Variable:
    /// `DPS_AUTH_API_SESSION_SECRET`.
    pub fn get_auth_api_session_secret(&self) -> (r: Option<String>)
        ensures
            r.deep_view() == self@.auth_api_session_secret,
    {
        match &self.auth_api_session_secret {
            Some(s) => Some(s.clone()),
            None => None,
        }
    }

    /// Sets the auth API session secret; `None` unsets it.
    pub fn set_auth_api_session_secret(&mut self, value: Option<&str>)
        ensures
            final(self)@ == (ConfigView {
                auth_api_session_secret: value.deep_view(),
                ..old(self)@
            }),
    {
        self.auth_api_session_secret = match value {
            Some(s) => Some(String::from_str(s)),
            None => None,
        };
    }

    /// The session secret as the bytes of its UTF-8 text, if one is set.
    pub fn get_auth_api_session_secret_bytes(&self) -> (r: Option<Vec<u8>>)
        ensures
            r.deep_view() == self@.auth_api_session_secret_bytes(),
    {
        match &self.auth_api_session_secret {
            Some(s) => Some(s.as_str().as_bytes_vec()),
            None => None,
        }
    }

    /// The auth API session lifetime in seconds, 1209600 (14 days) by
    /// default. Variable: `DPS_AUTH_API_SESSION_TTL_SECONDS`.
    pub fn get_auth_api_session_ttl_seconds(&self) -> (r: u64)
        ensures
            r == self@.auth_api_session_ttl_seconds(),
    {
        match self.auth_api_session_ttl_seconds {
            Some(n) => n,
            None => 1209600,
        }
    }

    /// Sets the auth API session lifetime in seconds; `None` restores the
    /// default.
    pub fn set_auth_api_session_ttl_seconds(&mut self, value: Option<u64>)
        ensures
            final(self)@ == (ConfigView { auth_api_session_ttl_seconds: value, ..old(self)@ }),
    {
        self.auth_api_session_ttl_seconds = value;
    }

    /// The API domain, `<api_subdomain>.<domain>`, such as
    /// `api.dps.localhost`.
    pub fn get_api_domain(&self) -> (r: String)
        ensures
            r@ == self@.api_domain(),
    {
        let mut r = self.get_api_subdomain();
        r.append(".");
        r.append(self.get_domain().as_str());
        r
    }

    /// The auth API URL, `<protocol>://<auth_subdomain>.<api_domain>`, then
    /// `:<port>` where a port is set: such as `https://auth.api.dps.localhost`
    /// or `http://auth.api.dps.localhost:3000`.
    pub fn get_auth_api_url(&self) -> (r: String)
        ensures
            r@ == self@.auth_api_url(),
    {
        let mut r = self.get_auth_api_protocol();
        r.append("://");
        r.append(self.get_auth_api_subdomain().as_str());
        r.append(".");
        r.append(self.get_api_domain().as_str());
        if let Some(port) = self.auth_api_port {
            r.append(":");
            push_decimal(&mut r, port as u64);
        }
        assert(r@ =~= self@.auth_api_url());
        r
    }
}

impl Default for DpsConfig {
    /// The same as [`DpsConfig::new`].
    fn default() -> (r: DpsConfig)
        ensures
            r@ == ConfigView::unset(),
    {
        DpsConfig::new()
    }
}

} // verus!
