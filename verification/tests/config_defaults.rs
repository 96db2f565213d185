use ossify::config::{
    config_from_raw, ConfigError, OssifyConfig, RawConfig, RawDefaults, RawRuleOverride,
    RuleRequirement,
};

#[test]
fn default_config_has_strict_threshold() {
    let config = OssifyConfig::default();
    assert_eq!(config.minimum_score(), 85);
    assert!(config.source().is_none());
}

#[test]
fn raw_config_is_cleaned_and_clamped() {
    let raw = RawConfig {
        version: Some(1),
        profile: None,
        minimum_score: Some(150),
        defaults: Some(RawDefaults {
            owner: Some(String::from("  @acme  ")),
            license: Some(String::from("   ")),
            funding: None,
        }),
        rules: vec![
            (String::from("funding"), RawRuleOverride { enabled: Some(false), weight: None, required_level: None }),
            (String::from("readme"), RawRuleOverride { enabled: None, weight: Some(0), required_level: Some(RuleRequirement::Strong) }),
        ],
    };
    let config = match config_from_raw(raw, String::from("/repo/ossify.toml")) {
        Ok(c) => c,
        Err(_) => panic!("version 1 is read"),
    };
    assert_eq!(config.minimum_score(), 100);
    assert_eq!(config.source(), Some("/repo/ossify.toml"));
    assert_eq!(config.default_owner(), Some("@acme"));
    assert_eq!(config.default_license(), None);
    assert!(!config.rule_enabled("funding"));
    assert!(config.rule_enabled("license"));
    assert_eq!(config.rule_weight("readme"), None);
    assert_eq!(config.rule_requirement("readme"), Some(RuleRequirement::Strong));
}

#[test]
fn other_versions_are_refused() {
    let raw = RawConfig { version: Some(2), profile: None, minimum_score: None, defaults: None, rules: vec![] };
    assert!(matches!(config_from_raw(raw, String::from("x")), Err(ConfigError::UnsupportedVersion(2))));
    let raw = RawConfig { version: None, profile: None, minimum_score: Some(0), defaults: None, rules: vec![] };
    match config_from_raw(raw, String::from("x")) {
        Ok(c) => assert_eq!(c.minimum_score(), 1),
        Err(_) => panic!("no version is read as version 1"),
    }
}
