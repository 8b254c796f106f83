use zeroclaw::bootstrap::{composio_credentials, provider_runtime_options};
use zeroclaw::config::Config;

#[test]
fn composio_credentials_disabled_returns_none() {
    let config = Config::default();
    let (key, entity) = composio_credentials(&config);
    assert!(key.is_none());
    assert!(entity.is_none());
}

#[test]
fn composio_credentials_enabled_returns_configured_values() {
    let mut config = Config::default();
    config.composio.enabled = true;
    config.composio.api_key = Some("test-key".to_string());
    config.composio.entity_id = "entity-123".to_string();

    let (key, entity) = composio_credentials(&config);
    assert_eq!(key, Some("test-key"));
    assert_eq!(entity, Some("entity-123"));
}

#[test]
fn provider_runtime_options_maps_config_fields() {
    let mut config = Config::default();
    config.config_path = "/tmp/zeroclaw/config.toml".to_string();
    config.secrets.encrypt = false;
    config.runtime.reasoning_enabled = Some(true);
    let levels = vec![("default".to_string(), "high".to_string())];
    config.provider.reasoning_level = levels.clone();

    let options = provider_runtime_options(&config);
    assert_eq!(options.auth_profile_override, None);
    assert_eq!(options.zeroclaw_dir, Some("/tmp/zeroclaw".to_string()));
    assert!(!options.secrets_encrypt);
    assert_eq!(options.reasoning_enabled, Some(true));
    assert_eq!(options.reasoning_level, levels);
}
