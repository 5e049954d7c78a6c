use ququer_client::config::{
    config_path, default_output, default_server, output_style, ququer_dir, set_config_dir, Config,
    ConfigDir, ConfigError, OutputStyle,
};
use ququer_client::keys::keys_path;

#[test]
fn default_config_values() {
    let config = Config::default();
    assert_eq!(config.server, "https://ququer.ai");
    assert_eq!(config.output, "json");
}

#[test]
fn default_setting_functions() {
    assert_eq!(default_server(), "https://ququer.ai");
    assert_eq!(default_output(), "json");
}

#[test]
fn output_style_text_is_pretty() {
    let mut config = Config::default();
    assert_eq!(output_style(&config), OutputStyle::Compact);
    config.output = "text".to_string();
    assert_eq!(output_style(&config), OutputStyle::Pretty);
    config.output = "TEXT".to_string();
    assert_eq!(output_style(&config), OutputStyle::Compact);
}

#[test]
fn config_dir_first_choice_wins() {
    let mut dir = ConfigDir::new();
    assert!(dir.get().is_none());
    set_config_dir(&mut dir, "/tmp/one".to_string());
    set_config_dir(&mut dir, "/tmp/two".to_string());
    assert_eq!(dir.get().map(|s| s.as_str()), Some("/tmp/one"));
}

#[test]
fn ququer_dir_resolution() {
    let mut chosen = ConfigDir::new();
    assert_eq!(ququer_dir(&chosen, Some("/home/bot")), Ok("/home/bot/.ququer".to_string()));
    assert_eq!(ququer_dir(&chosen, Some("/")), Ok("/.ququer".to_string()));
    assert_eq!(ququer_dir(&chosen, None), Err(ConfigError::NoHomeDirectory));
    assert_eq!(ConfigError::NoHomeDirectory.message(), "cannot determine home directory");
    set_config_dir(&mut chosen, "/etc/q".to_string());
    assert_eq!(ququer_dir(&chosen, None), Ok("/etc/q".to_string()));
}

#[test]
fn client_file_paths() {
    assert_eq!(keys_path("/home/bot/.ququer"), "/home/bot/.ququer/keys.json");
    assert_eq!(keys_path("/home/bot/.ququer/"), "/home/bot/.ququer/keys.json");
    assert_eq!(keys_path(""), "keys.json");
    assert_eq!(config_path("/x"), "/x/config.toml");
}
