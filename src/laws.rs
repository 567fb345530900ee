//! Laws that relate loading, setting and reading a configuration.

use vstd::prelude::*;

use crate::config::ConfigView;
use crate::decimal::parse_unsigned_spec;
use crate::environment::{env_lookup, lemma_lookup_after_remove, remove_var};

verus! {

/// A variable that no value of `env` sets leaves its setting at its
/// default; a configuration built from an environment that sets nothing is
/// the one in which every setting is absent.
pub proof fn lemma_unset_variables_give_defaults(env: Seq<(Seq<char>, Seq<char>)>)
    ensures
        ConfigView::from_env(Seq::empty()) == ConfigView::unset(),
        env_lookup(env, "DPS_DOMAIN"@) is None ==> ConfigView::from_env(env).domain()
            == "dps.localhost"@,
        env_lookup(env, "DPS_API_SUBDOMAIN"@) is None ==> ConfigView::from_env(env).api_subdomain()
            == "api"@,
        env_lookup(env, "DPS_DEVELOPMENT_MODE"@) is None ==> !ConfigView::from_env(
            env,
        ).development_mode(),
        env_lookup(env, "DPS_AUTH_API_SUBDOMAIN"@) is None ==> ConfigView::from_env(
            env,
        ).auth_api_subdomain() == "auth"@,
        env_lookup(env, "DPS_AUTH_API_PORT"@) is None ==> ConfigView::from_env(env).auth_api_port
            is None,
        env_lookup(env, "DPS_AUTH_API_PROTOCOL"@) is None ==> ConfigView::from_env(
            env,
        ).auth_api_protocol() == "https"@,
        env_lookup(env, "DPS_AUTH_API_INSECURE_COOKIE"@) is None ==> !ConfigView::from_env(
            env,
        ).auth_api_insecure_cookie(),
        env_lookup(env, "DPS_AUTH_API_SQLITE_MAIN_FILE_PATH"@) is None ==> ConfigView::from_env(
            env,
        ).auth_api_sqlite_main_file_path() == "data/main-development.db"@,
        env_lookup(env, "DPS_AUTH_API_SQLITE_MAIN_POOL_SIZE"@) is None ==> ConfigView::from_env(
            env,
        ).auth_api_sqlite_main_pool_size() == 1,
        env_lookup(env, "DPS_AUTH_API_SESSION_SECRET"@) is None ==> ConfigView::from_env(
            env,
        ).auth_api_session_secret is None,
        env_lookup(env, "DPS_AUTH_API_SESSION_TTL_SECONDS"@) is None ==> ConfigView::from_env(
            env,
        ).auth_api_session_ttl_seconds() == 1209600,
{
}

/// A value that was set is the value read back, whatever was there before.
pub proof fn lemma_set_then_get(
    c: ConfigView,
    text: Seq<char>,
    flag: bool,
    port: Option<u16>,
    pool_size: u16,
    secret: Option<Seq<char>>,
    ttl: u64,
)
    ensures
        (ConfigView { domain: Some(text), ..c }).domain() == text,
        (ConfigView { api_subdomain: Some(text), ..c }).api_subdomain() == text,
        (ConfigView { development_mode: Some(flag), ..c }).development_mode() == flag,
        (ConfigView { auth_api_subdomain: Some(text), ..c }).auth_api_subdomain() == text,
        (ConfigView { auth_api_port: port, ..c }).auth_api_port == port,
        (ConfigView { auth_api_protocol: Some(text), ..c }).auth_api_protocol() == text,
        (ConfigView { auth_api_insecure_cookie: Some(flag), ..c }).auth_api_insecure_cookie()
            == flag,
        (ConfigView {
            auth_api_sqlite_main_file_path: Some(text),
            ..c
        }).auth_api_sqlite_main_file_path() == text,
        (ConfigView {
            auth_api_sqlite_main_pool_size: Some(pool_size),
            ..c
        }).auth_api_sqlite_main_pool_size() == pool_size,
        (ConfigView { auth_api_session_secret: secret, ..c }).auth_api_session_secret == secret,
        (ConfigView {
            auth_api_session_ttl_seconds: Some(ttl),
            ..c
        }).auth_api_session_ttl_seconds() == ttl,
{
}

/// A flag variable reads true exactly when it is set to `Y`: any other
/// value, and no value, reads false.
pub proof fn lemma_flag_variables(env: Seq<(Seq<char>, Seq<char>)>)
    ensures
        ConfigView::from_env(env).development_mode() == (env_lookup(env, "DPS_DEVELOPMENT_MODE"@)
            == Some("Y"@)),
        ConfigView::from_env(env).auth_api_insecure_cookie() == (env_lookup(
            env,
            "DPS_AUTH_API_INSECURE_COOKIE"@,
        ) == Some("Y"@)),
{
}

/// Clearing a setting that may be absent brings its default back.
pub proof fn lemma_clear_restores_default(c: ConfigView)
    ensures
        (ConfigView { auth_api_port: None, ..c }).auth_api_port is None,
        (ConfigView { auth_api_sqlite_main_pool_size: None, ..c }).auth_api_sqlite_main_pool_size()
            == 1,
        (ConfigView { auth_api_session_secret: None, ..c }).auth_api_session_secret is None,
        (ConfigView { auth_api_session_secret: None, ..c }).auth_api_session_secret_bytes()
            is None,
        (ConfigView {
            auth_api_session_ttl_seconds: None,
            ..c
        }).auth_api_session_ttl_seconds() == 1209600,
{
}

/// What tells the names of the variables apart: their lengths, and one
/// character where two lengths agree.
proof fn lemma_config_var_names()
    ensures
        "DPS_DOMAIN"@.len() == 10,
        "DPS_API_SUBDOMAIN"@.len() == 17,
        "DPS_DEVELOPMENT_MODE"@.len() == 20,
        "DPS_AUTH_API_SUBDOMAIN"@.len() == 22,
        "DPS_AUTH_API_PORT"@.len() == 17,
        "DPS_AUTH_API_PROTOCOL"@.len() == 21,
        "DPS_AUTH_API_INSECURE_COOKIE"@.len() == 28,
        "DPS_AUTH_API_SQLITE_MAIN_FILE_PATH"@.len() == 34,
        "DPS_AUTH_API_SQLITE_MAIN_POOL_SIZE"@.len() == 34,
        "DPS_AUTH_API_SESSION_SECRET"@.len() == 27,
        "DPS_AUTH_API_SESSION_TTL_SECONDS"@.len() == 32,
        "DPS_API_SUBDOMAIN"@[5] == 'P',
        "DPS_AUTH_API_PORT"@[5] == 'U',
        "DPS_AUTH_API_SQLITE_MAIN_FILE_PATH"@[25] == 'F',
        "DPS_AUTH_API_SQLITE_MAIN_POOL_SIZE"@[25] == 'P',
{
    reveal_strlit("DPS_DOMAIN");
    reveal_strlit("DPS_API_SUBDOMAIN");
    reveal_strlit("DPS_DEVELOPMENT_MODE");
    reveal_strlit("DPS_AUTH_API_SUBDOMAIN");
    reveal_strlit("DPS_AUTH_API_PORT");
    reveal_strlit("DPS_AUTH_API_PROTOCOL");
    reveal_strlit("DPS_AUTH_API_INSECURE_COOKIE");
    reveal_strlit("DPS_AUTH_API_SQLITE_MAIN_FILE_PATH");
    reveal_strlit("DPS_AUTH_API_SQLITE_MAIN_POOL_SIZE");
    reveal_strlit("DPS_AUTH_API_SESSION_SECRET");
    reveal_strlit("DPS_AUTH_API_SESSION_TTL_SECONDS");
}

/// Taking one variable out of the environment changes no setting but the
/// one that the variable feeds.
proof fn lemma_remove_keeps_others(env: Seq<(Seq<char>, Seq<char>)>, key: Seq<char>)
    ensures
        ({
            let a = ConfigView::from_env(env);
            let b = ConfigView::from_env(remove_var(env, key));
            &&& key != "DPS_DOMAIN"@ ==> a.domain == b.domain
            &&& key != "DPS_API_SUBDOMAIN"@ ==> a.api_subdomain == b.api_subdomain
            &&& key != "DPS_DEVELOPMENT_MODE"@ ==> a.development_mode == b.development_mode
            &&& key != "DPS_AUTH_API_SUBDOMAIN"@ ==> a.auth_api_subdomain == b.auth_api_subdomain
            &&& key != "DPS_AUTH_API_PORT"@ ==> a.auth_api_port == b.auth_api_port
            &&& key != "DPS_AUTH_API_PROTOCOL"@ ==> a.auth_api_protocol == b.auth_api_protocol
            &&& key != "DPS_AUTH_API_INSECURE_COOKIE"@ ==> a.auth_api_insecure_cookie
                == b.auth_api_insecure_cookie
            &&& key != "DPS_AUTH_API_SQLITE_MAIN_FILE_PATH"@ ==> a.auth_api_sqlite_main_file_path
                == b.auth_api_sqlite_main_file_path
            &&& key != "DPS_AUTH_API_SQLITE_MAIN_POOL_SIZE"@ ==> a.auth_api_sqlite_main_pool_size
                == b.auth_api_sqlite_main_pool_size
            &&& key != "DPS_AUTH_API_SESSION_SECRET"@ ==> a.auth_api_session_secret
                == b.auth_api_session_secret
            &&& key != "DPS_AUTH_API_SESSION_TTL_SECONDS"@ ==> a.auth_api_session_ttl_seconds
                == b.auth_api_session_ttl_seconds
            &&& key == "DPS_DOMAIN"@ ==> b.domain is None
            &&& key == "DPS_API_SUBDOMAIN"@ ==> b.api_subdomain is None
            &&& key == "DPS_AUTH_API_SUBDOMAIN"@ ==> b.auth_api_subdomain is None
            &&& key == "DPS_AUTH_API_PORT"@ ==> b.auth_api_port is None
            &&& key == "DPS_AUTH_API_PROTOCOL"@ ==> b.auth_api_protocol is None
            &&& key == "DPS_AUTH_API_SQLITE_MAIN_FILE_PATH"@ ==> b.auth_api_sqlite_main_file_path
                is None
            &&& key == "DPS_AUTH_API_SQLITE_MAIN_POOL_SIZE"@ ==> b.auth_api_sqlite_main_pool_size
                is None
            &&& key == "DPS_AUTH_API_SESSION_SECRET"@ ==> b.auth_api_session_secret is None
            &&& key == "DPS_AUTH_API_SESSION_TTL_SECONDS"@ ==> b.auth_api_session_ttl_seconds
                is None
        }),
{
    lemma_lookup_after_remove(env, key, "DPS_DOMAIN"@);
    lemma_lookup_after_remove(env, key, "DPS_API_SUBDOMAIN"@);
    lemma_lookup_after_remove(env, key, "DPS_DEVELOPMENT_MODE"@);
    lemma_lookup_after_remove(env, key, "DPS_AUTH_API_SUBDOMAIN"@);
    lemma_lookup_after_remove(env, key, "DPS_AUTH_API_PORT"@);
    lemma_lookup_after_remove(env, key, "DPS_AUTH_API_PROTOCOL"@);
    lemma_lookup_after_remove(env, key, "DPS_AUTH_API_INSECURE_COOKIE"@);
    lemma_lookup_after_remove(env, key, "DPS_AUTH_API_SQLITE_MAIN_FILE_PATH"@);
    lemma_lookup_after_remove(env, key, "DPS_AUTH_API_SQLITE_MAIN_POOL_SIZE"@);
    lemma_lookup_after_remove(env, key, "DPS_AUTH_API_SESSION_SECRET"@);
    lemma_lookup_after_remove(env, key, "DPS_AUTH_API_SESSION_TTL_SECONDS"@);
}

/// A number variable whose text is no number of its setting's width (not
/// decimal, or too large) loads as if it were unset.
pub proof fn lemma_malformed_number_is_unset(env: Seq<(Seq<char>, Seq<char>)>, key: Seq<char>)
    requires
        env_lookup(env, key) matches Some(s) && (((key == "DPS_AUTH_API_PORT"@ || key
            == "DPS_AUTH_API_SQLITE_MAIN_POOL_SIZE"@) && parse_unsigned_spec(s, u16::MAX as nat)
            is None) || (key == "DPS_AUTH_API_SESSION_TTL_SECONDS"@ && parse_unsigned_spec(
            s,
            u64::MAX as nat,
        ) is None)),
    ensures
        ConfigView::from_env(env) == ConfigView::from_env(remove_var(env, key)),
{
    lemma_remove_keeps_others(env, key);
    lemma_config_var_names();
}

/// A text variable set to empty text loads as if it were unset.
pub proof fn lemma_empty_text_is_unset(env: Seq<(Seq<char>, Seq<char>)>, key: Seq<char>)
    requires
        env_lookup(env, key) == Some(Seq::<char>::empty()),
        key == "DPS_DOMAIN"@ || key == "DPS_API_SUBDOMAIN"@ || key == "DPS_AUTH_API_SUBDOMAIN"@
            || key == "DPS_AUTH_API_PROTOCOL"@ || key == "DPS_AUTH_API_SQLITE_MAIN_FILE_PATH"@
            || key == "DPS_AUTH_API_SESSION_SECRET"@,
    ensures
        ConfigView::from_env(env) == ConfigView::from_env(remove_var(env, key)),
{
    lemma_remove_keeps_others(env, key);
    lemma_config_var_names();
}

} // verus!
