use aish::config::{
    get_default_system_prompt, replace_system_prompt_placeholders, Config, ConfigError, ConfigKey,
    ConfigManager, HostFacts,
};

fn manager_at(home: &str) -> ConfigManager {
    let dir = std::path::Path::new(home).join(".aish");
    let file = |name: &str| dir.join(name).to_string_lossy().into_owned();
    ConfigManager::new(
        dir.to_string_lossy().into_owned(),
        file("config.toml"),
        file("tokens.env"),
        file(".aishignore"),
        file("system_prompt.txt"),
    )
}

fn manager() -> ConfigManager {
    manager_at("/home/operator")
}

#[test]
fn default_config_is_the_fresh_installation() {
    let config = Config::default();
    assert_eq!(config.llm.provider, "OpenAI");
    assert_eq!(config.llm.api_url, "https://api.openai.com/v1");
    assert_eq!(config.llm.model, "gpt-4");
    assert_eq!(config.llm.max_tokens, 4096);
    assert!(!config.security.allow_absolute_paths);
    assert!(!config.security.allow_config_path_access);
    assert_eq!(config.security.blocked_extensions, vec![".env".to_string()]);
    let allowed = config.security.allowed_operations;
    assert!(allowed.fs_makedir && allowed.fs_makefile && allowed.fs_writefile);
    assert!(allowed.fs_readfile && allowed.fs_listdir && allowed.shell);
    assert!(config.whitelist.is_empty());
}

#[test]
fn permissions_are_looked_up_by_the_name_of_the_kind() {
    let mut allowed = Config::default().security.allowed_operations;
    allowed.fs_readfile = false;
    assert!(allowed.allows("shell"));
    assert!(allowed.allows("fs.writefile"));
    assert!(!allowed.allows("fs.readfile"));
    assert!(!allowed.allows("fs_readfile"));
    assert!(!allowed.allows("SHELL"));
    assert!(!allowed.allows(""));
    assert!(!allowed.allows("network"));
}

#[test]
fn manager_hands_back_the_paths_it_was_given() {
    let manager = ConfigManager::new(
        "dir".to_string(),
        "settings".to_string(),
        "key".to_string(),
        "ignore".to_string(),
        "prompt".to_string(),
    );
    assert_eq!(manager.get_config_dir(), "dir");
    assert_eq!(manager.get_config_path(), "settings");
    assert_eq!(manager.get_env_path(), "key");
    assert_eq!(manager.get_ignore_path(), "ignore");
    assert_eq!(manager.get_system_prompt_path(), "prompt");
}

#[test]
fn configuration_files_have_fixed_names() {
    assert_eq!(aish::config::CONFIG_DIR_NAME, ".aish");
    assert_eq!(aish::config::CONFIG_FILE_NAME, "config.toml");
    assert_eq!(aish::config::ENV_FILE_NAME, "tokens.env");
    assert_eq!(aish::config::IGNORE_FILE_NAME, ".aishignore");
    assert_eq!(aish::config::SYSTEM_PROMPT_FILE_NAME, "system_prompt.txt");
}

#[test]
fn is_initialized_needs_both_files() {
    let manager = manager();
    assert!(manager.is_initialized(true, true));
    assert!(!manager.is_initialized(true, false));
    assert!(!manager.is_initialized(false, true));
    assert!(!manager.is_initialized(false, false));
}

#[test]
fn get_config_value_reads_each_setting() {
    let manager = manager();
    let config = Config::default();
    assert_eq!(manager.get_config_value(&config, "llm.max_tokens").unwrap(), "4096");
    assert_eq!(manager.get_config_value(&config, "llm.model").unwrap(), "gpt-4");
    assert_eq!(manager.get_config_value(&config, "llm.provider").unwrap(), "OpenAI");
    assert_eq!(
        manager.get_config_value(&config, "llm.api_url").unwrap(),
        "https://api.openai.com/v1"
    );
    assert_eq!(
        manager.get_config_value(&config, "security.allow_absolute_paths").unwrap(),
        "false"
    );
    assert_eq!(
        manager.get_config_value(&config, "security.allow_config_path_access").unwrap(),
        "false"
    );
}

#[test]
fn get_config_value_refuses_unknown_keys() {
    let manager = manager();
    let config = Config::default();
    for key in ["llm", "llm.", "llm.max_tokens.x", "max_tokens", "", "whitelist", "LLM.model"] {
        match manager.get_config_value(&config, key) {
            Err(ConfigError::UnknownKey(named)) => assert_eq!(named, key),
            other => panic!("{:?} gave {:?}", key, other),
        }
    }
    let error = manager.get_config_value(&config, "nope").unwrap_err();
    assert_eq!(error.message(), "Unknown config key: nope");
}

#[test]
fn set_config_value_changes_one_setting() {
    let manager = manager();
    let mut config = Config::default();
    manager.set_config_value(&mut config, "llm.max_tokens", "8192").unwrap();
    assert_eq!(config.llm.max_tokens, 8192);
    manager.set_config_value(&mut config, "llm.model", "gpt-4o").unwrap();
    assert_eq!(config.llm.model, "gpt-4o");
    manager.set_config_value(&mut config, "llm.provider", "OpenRouter").unwrap();
    assert_eq!(config.llm.provider, "OpenRouter");
    manager.set_config_value(&mut config, "llm.api_url", "https://openrouter.ai/api/v1").unwrap();
    assert_eq!(config.llm.api_url, "https://openrouter.ai/api/v1");
    manager.set_config_value(&mut config, "security.allow_absolute_paths", "true").unwrap();
    assert!(config.security.allow_absolute_paths);
    assert!(!config.security.allow_config_path_access);
    manager.set_config_value(&mut config, "security.allow_config_path_access", "true").unwrap();
    assert!(config.security.allow_config_path_access);
    assert_eq!(config.security.blocked_extensions, vec![".env".to_string()]);
}

#[test]
fn set_config_value_refuses_values_of_the_wrong_type() {
    let manager = manager();
    let mut config = Config::default();
    assert!(matches!(
        manager.set_config_value(&mut config, "llm.max_tokens", "many"),
        Err(ConfigError::InvalidNumber(v)) if v == "many"
    ));
    assert!(matches!(
        manager.set_config_value(&mut config, "llm.max_tokens", "-5"),
        Err(ConfigError::InvalidNumber(_))
    ));
    assert!(matches!(
        manager.set_config_value(&mut config, "security.allow_absolute_paths", "yes"),
        Err(ConfigError::InvalidBool(v)) if v == "yes"
    ));
    assert!(matches!(
        manager.set_config_value(&mut config, "security.allow_config_path_access", "True"),
        Err(ConfigError::InvalidBool(_))
    ));
    assert!(matches!(
        manager.set_config_value(&mut config, "security.unknown", "true"),
        Err(ConfigError::UnknownKey(k)) if k == "security.unknown"
    ));
    assert_eq!(config.llm.max_tokens, 4096);
    assert!(!config.security.allow_absolute_paths);
    assert!(!config.security.allow_config_path_access);
}

#[test]
fn config_key_parse_knows_six_names() {
    assert_eq!(ConfigKey::parse("llm.max_tokens"), Some(ConfigKey::MaxTokens));
    assert_eq!(ConfigKey::parse("llm.model"), Some(ConfigKey::Model));
    assert_eq!(ConfigKey::parse("llm.provider"), Some(ConfigKey::Provider));
    assert_eq!(ConfigKey::parse("llm.api_url"), Some(ConfigKey::ApiUrl));
    assert_eq!(
        ConfigKey::parse("security.allow_absolute_paths"),
        Some(ConfigKey::AllowAbsolutePaths)
    );
    assert_eq!(
        ConfigKey::parse("security.allow_config_path_access"),
        Some(ConfigKey::AllowConfigPathAccess)
    );
    assert_eq!(ConfigKey::parse("security.blocked_extensions"), None);
}

#[test]
fn ignore_patterns_are_the_lines_of_the_file() {
    let manager = manager();
    assert_eq!(
        manager.load_ignore_patterns(Some("*.log\nsecret/*\r\n\nbuild")),
        vec!["*.log".to_string(), "secret/*".to_string(), "".to_string(), "build".to_string()]
    );
    assert_eq!(manager.load_ignore_patterns(Some("")), Vec::<String>::new());
    assert_eq!(manager.load_ignore_patterns(None), Vec::<String>::new());
}

fn facts() -> HostFacts {
    HostFacts {
        hostname: Some("box".to_string()),
        os: Some("Linux".to_string()),
        distribution: Some("Debian 12".to_string()),
        user: Some("ada".to_string()),
    }
}

#[test]
fn placeholders_of_the_machine_are_filled_in() {
    let prompt = "{{USER}}@{{HOSTNAME}} on {{OS}} ({{DISTRIBUTION}}) in {{CWD}}: {{FLAGS}}";
    assert_eq!(
        replace_system_prompt_placeholders(prompt, &facts()),
        "ada@box on Linux (Debian 12) in {{CWD}}: {{FLAGS}}"
    );
}

#[test]
fn unknown_machine_facts_are_shown_by_fixed_words() {
    let nothing = HostFacts { hostname: None, os: None, distribution: None, user: None };
    assert_eq!(
        replace_system_prompt_placeholders("{{HOSTNAME}}|{{OS}}|{{DISTRIBUTION}}|{{USER}}", &nothing),
        "unknown|Linux|Unknown|unknown"
    );
}

#[test]
fn default_system_prompt_holds_every_placeholder() {
    let prompt = get_default_system_prompt();
    for placeholder in
        ["{{HOSTNAME}}", "{{OS}}", "{{DISTRIBUTION}}", "{{USER}}", "{{CWD}}", "{{FLAGS}}"]
    {
        assert!(prompt.contains(placeholder), "{}", placeholder);
    }
}

#[test]
fn load_system_prompt_uses_the_stored_prompt_or_the_default() {
    let manager = manager();
    assert_eq!(manager.load_system_prompt(Some("I am {{USER}}."), &facts()), "I am ada.");
    let loaded = manager.load_system_prompt(None, &facts());
    assert_eq!(loaded, replace_system_prompt_placeholders(&get_default_system_prompt(), &facts()));
    assert!(loaded.contains("- Hostname: box\n"));
    assert!(loaded.contains("{{CWD}}"));
}

#[test]
fn distribution_is_the_pretty_name_of_the_release_file() {
    let release = "NAME=\"Ubuntu\"\nVERSION=\"22.04\"\nPRETTY_NAME=\"Ubuntu 22.04.3 LTS\"\n";
    assert_eq!(
        aish::config::get_distribution(Some(release), None, None).as_deref(),
        Some("Ubuntu 22.04.3 LTS")
    );
}

#[test]
fn distribution_falls_back_to_the_name() {
    let release = "ID=arch\nNAME=\"Arch Linux\"\n";
    assert_eq!(
        aish::config::get_distribution(Some(release), Some("ignored"), None).as_deref(),
        Some("Arch Linux")
    );
    let release = "NAME= Alpine \n";
    assert_eq!(
        aish::config::get_distribution(Some(release), None, None).as_deref(),
        Some("Alpine")
    );
    let release = "PRETTY_NAME=\"\n";
    assert_eq!(aish::config::get_distribution(Some(release), None, None).as_deref(), Some("\""));
    let release = "PRETTY_NAME=\"\"\n";
    assert_eq!(aish::config::get_distribution(Some(release), None, None).as_deref(), Some(""));
}

#[test]
fn distribution_falls_back_to_the_other_release_files() {
    assert_eq!(
        aish::config::get_distribution(Some("ID=x\n"), Some("CentOS release 7\n"), Some("12.1")).as_deref(),
        Some("CentOS release 7")
    );
    assert_eq!(
        aish::config::get_distribution(None, None, Some("12.1\n")).as_deref(),
        Some("Debian 12.1")
    );
    assert_eq!(aish::config::get_distribution(None, None, None), None);
    let commented = "# PRETTY_NAME is set below\nNAME=\"X\"\n";
    assert_eq!(aish::config::get_distribution(Some(commented), None, None), None);
}
