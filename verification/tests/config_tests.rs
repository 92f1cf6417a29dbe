use d365_odata_mcp::chrono_lite;
use d365_odata_mcp::config::{Config, ConfigError, EnvOverrides, ProductType, product_from_name};
use d365_odata_mcp::strutil::{parse_u64_dec, u64_to_dec};

fn empty_env() -> EnvOverrides {
    EnvOverrides {
        tenant_id: None,
        client_id: None,
        client_secret: None,
        endpoint: None,
        product: None,
        auth_type: None,
        token_url: None,
        resource: None,
    }
}

fn full_env() -> EnvOverrides {
    EnvOverrides {
        tenant_id: Some("tenant".to_string()),
        client_id: Some("client".to_string()),
        client_secret: Some("secret".to_string()),
        endpoint: Some("https://env.example.com/data/".to_string()),
        product: Some("FINOPS".to_string()),
        auth_type: Some("adfs".to_string()),
        token_url: Some("https://fs.example.com/adfs/oauth2/token".to_string()),
        resource: Some("https://env.example.com".to_string()),
    }
}

#[test]
fn test_product_type_default() {
    assert_eq!(ProductType::default(), ProductType::Dataverse);
}

#[test]
fn test_product_from_name() {
    assert_eq!(product_from_name("dataverse"), Some(ProductType::Dataverse));
    assert_eq!(product_from_name("FINOPS"), Some(ProductType::Finops));
    assert_eq!(product_from_name("fno"), Some(ProductType::Finops));
    assert_eq!(product_from_name("fo"), Some(ProductType::Finops));
    assert_eq!(product_from_name("something"), None);
}

#[test]
fn test_load_default() {
    let c = Config::load_default();
    assert_eq!(c.global.product, ProductType::Dataverse);
    assert_eq!(c.global.endpoint, "");
    assert_eq!(c.global.page_size, Some(500));
    assert_eq!(c.global.concurrency, Some(4));
    assert_eq!(c.global.max_retries, Some(3));
    assert_eq!(c.global.retry_delay_ms, Some(1000));
    assert!(c.entities.is_none());
}

#[test]
fn test_to_runtime_missing_vars() {
    let c = Config::load_default();
    let mut env = empty_env();
    assert_eq!(c.to_runtime(&env).unwrap_err(), ConfigError::MissingTenantId);
    env.tenant_id = Some("t".to_string());
    assert_eq!(c.to_runtime(&env).unwrap_err(), ConfigError::MissingClientId);
    env.client_id = Some("c".to_string());
    assert_eq!(c.to_runtime(&env).unwrap_err(), ConfigError::MissingClientSecret);
    env.client_secret = Some("s".to_string());
    // the default configuration has an empty endpoint, and none comes
    // from the environment
    assert_eq!(c.to_runtime(&env).unwrap_err(), ConfigError::MissingEndpoint);
    assert_eq!(
        ConfigError::MissingTenantId.message(),
        "TENANT_ID environment variable is required"
    );
    assert_eq!(
        ConfigError::MissingEndpoint.message(),
        "ENDPOINT environment variable or config endpoint is required"
    );
}

#[test]
fn test_to_runtime_env_precedence() {
    let mut c = Config::load_default();
    c.global.endpoint = "https://file.example.com/data/".to_string();
    let rc = c.to_runtime(&full_env()).unwrap();
    assert_eq!(rc.endpoint, "https://env.example.com/data/");
    assert_eq!(rc.product, ProductType::Finops);
    assert_eq!(rc.tenant_id, "tenant");
    assert_eq!(rc.client_id, "client");
    assert_eq!(rc.client_secret, "secret");
    assert_eq!(rc.auth_type, "adfs");
    assert_eq!(rc.token_url.as_deref(), Some("https://fs.example.com/adfs/oauth2/token"));
    assert_eq!(rc.resource.as_deref(), Some("https://env.example.com"));
    assert_eq!(rc.page_size, 500);
    assert_eq!(rc.concurrency, 4);
    assert_eq!(rc.max_retries, 3);
    assert_eq!(rc.retry_delay_ms, 1000);
    assert_eq!(rc.log_level, "info");
    assert!(!rc.enable_tracing);
    assert_eq!(rc.delta_storage_path, "./delta_state.json");
    assert!(rc.entities.is_empty());
}

#[test]
fn test_to_runtime_file_fallbacks() {
    let mut c = Config::load_default();
    c.global.endpoint = "https://file.example.com/data/".to_string();
    c.global.product = ProductType::Finops;
    let mut env = empty_env();
    env.tenant_id = Some("t".to_string());
    env.client_id = Some("c".to_string());
    env.client_secret = Some("s".to_string());
    // an unrecognized environment product falls back to the file value
    env.product = Some("mystery".to_string());
    let rc = c.to_runtime(&env).unwrap();
    assert_eq!(rc.endpoint, "https://file.example.com/data/");
    assert_eq!(rc.product, ProductType::Finops);
    assert_eq!(rc.auth_type, "azure");
    assert!(rc.token_url.is_none());
    assert!(rc.resource.is_none());
}

#[test]
fn test_u64_rendering_and_parsing() {
    assert_eq!(u64_to_dec(0), "0");
    assert_eq!(u64_to_dec(10), "10");
    assert_eq!(u64_to_dec(18446744073709551615), "18446744073709551615");
    assert_eq!(parse_u64_dec("120"), Some(120));
    assert_eq!(parse_u64_dec("+7"), Some(7));
    assert_eq!(parse_u64_dec("0"), Some(0));
    assert_eq!(parse_u64_dec(""), None);
    assert_eq!(parse_u64_dec("12a"), None);
    assert_eq!(parse_u64_dec("-3"), None);
    assert_eq!(parse_u64_dec("18446744073709551615"), Some(u64::MAX));
    assert_eq!(parse_u64_dec("18446744073709551616"), None);
}

#[test]
fn test_chrono_lite_is_decimal() {
    let s = chrono_lite();
    assert!(!s.is_empty());
    assert!(s.chars().all(|c| c.is_ascii_digit()));
}
