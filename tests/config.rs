use eden::config::{init_target, BinaryCheck, Config, ConfigError, ConfigFormat};

#[test]
fn binary_check_accessors() {
    let simple = BinaryCheck::Simple("docker".to_string());
    assert_eq!(simple.name(), "docker");
    assert_eq!(simple.version(), None);
    let pinned = BinaryCheck::WithVersion { name: "node".to_string(), version: Some(">=18".to_string()) };
    assert_eq!(pinned.name(), "node");
    assert_eq!(pinned.version(), Some(">=18"));
    let open = BinaryCheck::WithVersion { name: "go".to_string(), version: None };
    assert_eq!(open.version(), None);
}

#[test]
fn find_config_priority() {
    assert_eq!(Config::find_config(&vec![true, true, false, true, true]).unwrap(), "eden.toml");
    assert_eq!(Config::find_config(&vec![false, false, true, true, false]).unwrap(), "eden.yml");
    assert_eq!(Config::find_config(&vec![false, false, false, false, true]).unwrap(), "eden.jsonc");
    assert!(matches!(Config::find_config(&vec![false; 5]), Err(ConfigError::NotFound)));
    assert!(matches!(Config::find_config(&vec![]), Err(ConfigError::NotFound)));
}

#[test]
fn format_by_extension() {
    assert_eq!(Config::config_format("test.toml").unwrap(), ConfigFormat::Toml);
    assert_eq!(Config::config_format("dir/eden.yaml").unwrap(), ConfigFormat::Yaml);
    assert_eq!(Config::config_format("eden.yml").unwrap(), ConfigFormat::Yaml);
    assert_eq!(Config::config_format("test.json").unwrap(), ConfigFormat::Json);
    assert_eq!(Config::config_format("eden.jsonc").unwrap(), ConfigFormat::Jsonc);
    match Config::config_format("eden.ini") {
        Err(ConfigError::UnsupportedFormat(ext)) => assert_eq!(ext, "ini"),
        other => panic!("unexpected {:?}", other),
    }
    match Config::config_format("eden") {
        Err(ConfigError::UnsupportedFormat(ext)) => assert_eq!(ext, ""),
        other => panic!("unexpected {:?}", other),
    }
}

#[test]
fn init_targets() {
    assert_eq!(init_target("toml"), Some("eden.toml"));
    assert_eq!(init_target("yaml"), Some("eden.yaml"));
    assert_eq!(init_target("yml"), Some("eden.yaml"));
    assert_eq!(init_target("json"), Some("eden.json"));
    assert_eq!(init_target("jsonc"), None);
    assert_eq!(init_target("xml"), None);
}

#[test]
fn test_parse_toml() {
    let content = r#"
[checks]
binaries = ["docker", "node"]
environment = ["DATABASE_URL"]
"#;
    let config = Config::parse("test.toml", content).unwrap();
    assert_eq!(config.checks.binaries.len(), 2);
    assert_eq!(config.checks.environment.len(), 1);
}

#[test]
fn test_parse_yaml() {
    let content = r#"
checks:
  binaries:
    - docker
    - node
  environment:
    - DATABASE_URL
"#;
    let config = Config::parse("test.yaml", content).unwrap();
    assert_eq!(config.checks.binaries.len(), 2);
}

#[test]
fn test_parse_json() {
    let content = r#"{"checks": {"binaries": ["docker"], "environment": []}}"#;
    let config = Config::parse("test.json", content).unwrap();
    assert_eq!(config.checks.binaries.len(), 1);
}

fn summary(config: &Config) -> (Vec<String>, Vec<Option<String>>, Vec<String>) {
    (
        config.checks.binaries.iter().map(|b| b.name().to_string()).collect(),
        config.checks.binaries.iter().map(|b| b.version().map(|v| v.to_string())).collect(),
        config.checks.environment.clone(),
    )
}

#[test]
fn same_content_in_every_format() {
    let toml = r#"
[checks]
binaries = ["git", { name = "node", version = ">=18" }]
environment = ["HOME", "API_KEY"]
"#;
    let yaml = r#"
checks:
  binaries:
    - git
    - name: node
      version: ">=18"
  environment: [HOME, API_KEY]
"#;
    let json = r#"{"checks": {"binaries": ["git", {"name": "node", "version": ">=18"}], "environment": ["HOME", "API_KEY"]}}"#;
    let jsonc = r#"{
  // the tools
  checks: { binaries: ["git", {name: "node", version: ">=18"}], environment: ["HOME", "API_KEY",] },
}"#;
    let expected = (
        vec!["git".to_string(), "node".to_string()],
        vec![None, Some(">=18".to_string())],
        vec!["HOME".to_string(), "API_KEY".to_string()],
    );
    for (path, content) in [("eden.toml", toml), ("eden.yaml", yaml), ("eden.json", json), ("eden.jsonc", jsonc)] {
        let config = Config::parse(path, content).unwrap();
        assert_eq!(config.checks.binaries.len(), 2);
        assert_eq!(config.checks.environment.len(), 2);
        assert_eq!(summary(&config), expected);
    }
}

#[test]
fn missing_sections_default_to_empty() {
    let config = Config::parse("eden.toml", "").unwrap();
    assert!(config.checks.binaries.is_empty());
    assert!(config.checks.environment.is_empty());
    let config = Config::parse("eden.json", r#"{"checks": {"binaries": ["ls"]}}"#).unwrap();
    assert_eq!(config.checks.binaries.len(), 1);
    assert!(config.checks.environment.is_empty());
}

#[test]
fn legacy_environment_key() {
    let config = Config::parse("eden.yml", "checks:\n  env_vars:\n    - TOKEN\n").unwrap();
    assert_eq!(config.checks.environment, vec!["TOKEN".to_string()]);
    let both = r#"{"checks": {"environment": ["A"], "env_vars": ["B"]}}"#;
    assert!(matches!(Config::parse("eden.json", both), Err(ConfigError::JsonError(_))));
}

#[test]
fn parse_errors() {
    assert!(matches!(Config::parse("eden.toml", "[checks\n"), Err(ConfigError::TomlError(_))));
    assert!(matches!(Config::parse("eden.json", "{"), Err(ConfigError::JsonError(_))));
    assert!(matches!(Config::parse("eden.jsonc", "{checks: [}"), Err(ConfigError::Json5Error(_))));
    assert!(matches!(Config::parse("eden.yaml", "checks: [a, b"), Err(ConfigError::YamlError(_))));
    assert!(matches!(Config::parse("eden.json", r#"{"checks": {"binaries": [3]}}"#), Err(ConfigError::JsonError(_))));
    assert!(matches!(Config::parse("eden.json", "[1, 2]"), Err(ConfigError::JsonError(_))));
    match Config::parse("eden.ini", "x = 1") {
        Err(ConfigError::UnsupportedFormat(ext)) => assert_eq!(ext, "ini"),
        other => panic!("unexpected {:?}", other),
    }
}
