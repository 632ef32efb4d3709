use ht_mcp::config::TunnelConfig;

#[test]
fn test_config_creation() {
    // Test config creation
    let config = TunnelConfig::new(8080);
    assert_eq!(config.port, 8080);
    assert_eq!(config.timeout_secs, Some(30));
    assert_eq!(config.verbose, Some(false));
    assert_eq!(config.provider, Some("cloudflare".to_string()));

    // Test different port
    let config = TunnelConfig::new(3000);
    assert_eq!(config.port, 3000);
}

#[test]
fn test_config_builder() {
    let config = TunnelConfig::new(8080)
        .with_timeout(60)
        .with_verbose(true)
        .with_provider("cloudflare".to_string());

    assert_eq!(config.port, 8080);
    assert_eq!(config.timeout_secs, Some(60));
    assert_eq!(config.verbose, Some(true));
    assert_eq!(config.provider, Some("cloudflare".to_string()));
}

#[test]
fn config_default_uses_port_8080() {
    let config = TunnelConfig::default();
    assert_eq!(config.port, 8080);
    assert_eq!(config.timeout_secs, Some(30));
    assert!(config.bin_path.is_none());
    assert!(config.auth_token.is_none());
    assert!(config.custom_domain.is_none());
}

#[test]
fn config_builder_sets_remaining_fields() {
    let config = TunnelConfig::new(9000)
        .with_bin_path(std::path::PathBuf::from("/usr/local/bin/cloudflared"))
        .with_auth_token("token".to_string())
        .with_custom_domain("example.org".to_string());
    assert_eq!(config.port, 9000);
    assert_eq!(config.bin_path, Some(std::path::PathBuf::from("/usr/local/bin/cloudflared")));
    assert_eq!(config.auth_token, Some("token".to_string()));
    assert_eq!(config.custom_domain, Some("example.org".to_string()));
    assert_eq!(config.timeout_secs, Some(30));
}
