use dps_config::DpsConfig;

fn vars(pairs: &[(&str, &str)]) -> Vec<(String, String)> {
    pairs.iter().map(|(k, v)| (k.to_string(), v.to_string())).collect()
}

#[test]
fn test_default_values() {
    let config = DpsConfig::new();
    assert_eq!(config.get_domain(), "dps.localhost");
    assert_eq!(config.get_api_subdomain(), "api");
    assert!(!config.get_development_mode());
    assert_eq!(config.get_auth_api_subdomain(), "auth");
    assert_eq!(config.get_auth_api_protocol(), "https");
    assert!(!config.get_auth_api_insecure_cookie());
    assert_eq!(config.get_auth_api_sqlite_main_file_path(), "data/main-development.db");
    assert_eq!(config.get_auth_api_sqlite_main_pool_size(), 1);
    assert!(config.get_auth_api_port().is_none());
    assert!(config.get_auth_api_session_secret().is_none());
    assert!(config.get_auth_api_session_secret_bytes().is_none());
}

#[test]
fn test_setters() {
    let mut config = DpsConfig::new();
    config.set_domain("example.com");
    config.set_development_mode(true);
    config.set_auth_api_port(Some(3000));
    config.set_auth_api_session_secret(Some("s3cr3t"));

    assert_eq!(config.get_domain(), "example.com");
    assert!(config.get_development_mode());
    assert_eq!(config.get_auth_api_port(), Some(3000));
    assert_eq!(config.get_auth_api_session_secret(), Some("s3cr3t".to_string()));
}

#[test]
fn test_api_domain_computed() {
    let mut config = DpsConfig::new();
    config.set_api_subdomain("api");
    config.set_domain("dps.localhost");
    assert_eq!(config.get_api_domain(), "api.dps.localhost");
}

#[test]
fn test_auth_api_url_without_port() {
    let mut config = DpsConfig::new();
    config.set_auth_api_protocol("https");
    config.set_auth_api_subdomain("auth");
    config.set_api_subdomain("api");
    config.set_domain("dps.localhost");
    assert_eq!(config.get_auth_api_url(), "https://auth.api.dps.localhost");
}

#[test]
fn test_auth_api_url_with_port() {
    let mut config = DpsConfig::new();
    config.set_auth_api_protocol("http");
    config.set_auth_api_port(Some(3000));
    config.set_auth_api_subdomain("auth");
    config.set_api_subdomain("api");
    config.set_domain("dps.localhost");
    assert_eq!(config.get_auth_api_url(), "http://auth.api.dps.localhost:3000");
}

#[test]
fn test_readme_example() {
    let mut config = DpsConfig::new();
    config.set_domain("test.local");
    config.set_auth_api_protocol("http");
    config.set_auth_api_port(Some(8080));
    assert_eq!(config.get_auth_api_url(), "http://auth.api.test.local:8080");
}

#[test]
fn test_auth_api_insecure_cookie() {
    let mut c = DpsConfig::new();
    assert!(!c.get_auth_api_insecure_cookie());
    c.set_auth_api_insecure_cookie(true);
    assert!(c.get_auth_api_insecure_cookie());
    c.set_auth_api_insecure_cookie(false);
    assert!(!c.get_auth_api_insecure_cookie());

    let c2 = DpsConfig::from_env(&vars(&[("DPS_AUTH_API_INSECURE_COOKIE", "Y")]));
    assert!(c2.get_auth_api_insecure_cookie());
}

#[test]
fn test_auth_api_sqlite_main_pool_size() {
    let mut c = DpsConfig::new();
    assert_eq!(c.get_auth_api_sqlite_main_pool_size(), 1);
    c.set_auth_api_sqlite_main_pool_size(Some(12));
    assert_eq!(c.get_auth_api_sqlite_main_pool_size(), 12);
    c.set_auth_api_sqlite_main_pool_size(None);
    assert_eq!(c.get_auth_api_sqlite_main_pool_size(), 1);

    let c2 = DpsConfig::from_env(&vars(&[("DPS_AUTH_API_SQLITE_MAIN_POOL_SIZE", "8")]));
    assert_eq!(c2.get_auth_api_sqlite_main_pool_size(), 8);
}

#[test]
fn test_auth_api_sqlite_main_file_path() {
    let mut c = DpsConfig::new();
    assert_eq!(c.get_auth_api_sqlite_main_file_path(), "data/main-development.db");
    c.set_auth_api_sqlite_main_file_path("data/custom.db");
    assert_eq!(c.get_auth_api_sqlite_main_file_path(), "data/custom.db");

    let c2 = DpsConfig::from_env(&vars(&[(
        "DPS_AUTH_API_SQLITE_MAIN_FILE_PATH",
        "data/test-main.db",
    )]));
    assert_eq!(c2.get_auth_api_sqlite_main_file_path(), "data/test-main.db");
}

#[test]
fn test_auth_api_session_secret_bytes() {
    let mut config = DpsConfig::new();
    config.set_auth_api_session_secret(Some("my-secret-key"));

    let secret_bytes = config.get_auth_api_session_secret_bytes();
    assert!(secret_bytes.is_some());
    assert_eq!(secret_bytes.unwrap(), b"my-secret-key".to_vec());
}

#[test]
fn test_auth_api_session_secret_bytes_none() {
    let config = DpsConfig::new();
    assert!(config.get_auth_api_session_secret_bytes().is_none());
}

#[test]
fn test_auth_api_session_ttl_seconds() {
    let mut c = DpsConfig::new();
    assert_eq!(c.get_auth_api_session_ttl_seconds(), 1209600);
    c.set_auth_api_session_ttl_seconds(Some(3600));
    assert_eq!(c.get_auth_api_session_ttl_seconds(), 3600);

    let c2 = DpsConfig::from_env(&vars(&[("DPS_AUTH_API_SESSION_TTL_SECONDS", "1800")]));
    assert_eq!(c2.get_auth_api_session_ttl_seconds(), 1800);
}
