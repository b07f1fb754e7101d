use mahoraga::types::Config;

#[test]
fn test_config_default() {
    let config = Config::default();
    assert_eq!(config.provider.active.as_str(), "azure");
}
