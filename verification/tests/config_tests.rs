use glitchtip_relay::config::ConfigManager;
use glitchtip_relay::config::ConfigMetadata;
use glitchtip_relay::config::LazyConfigManager;
use glitchtip_relay::config::is_yaml_path;
use glitchtip_relay::types::Config;
use glitchtip_relay::types::FeishuConfig;
use glitchtip_relay::types::ForwardConfig;
use glitchtip_relay::types::WebhookConfig;
use glitchtip_relay::types::WebhookRuntimeConfig;

fn file_config() -> Config {
    Config {
        server_port: 9000,
        server_host: String::from("0.0.0.0"),
        template_dir: Some(String::from("/etc/templates")),
        webhooks: vec![WebhookConfig {
            name: String::from("team"),
            url: vec![String::from("https://hooks.example.test/a")],
            enabled: true,
            forward_config: ForwardConfig::FeishuRobotMsg(FeishuConfig {
                card_theme: None,
                mention_all: None,
                buttons: None,
                color_mapping: None,
            }),
            config: WebhookRuntimeConfig { n_par: 1, timeout: 30, retry: 3 },
        }],
    }
}

#[test]
fn first_get_installs_the_loaded_file() {
    let mut manager = LazyConfigManager::new();
    let c = manager.get_config(Some(file_config()), None, None);
    assert_eq!(c.server_port, 9000);
    assert_eq!(c.webhooks.len(), 1);
    assert_eq!(c.webhooks[0].name, "team");
}

#[test]
fn get_without_a_file_falls_back_to_defaults() {
    let mut manager = LazyConfigManager::new();
    let c = manager.get_config(None, None, None);
    assert_eq!(c.server_port, 7876);
    assert_eq!(c.server_host, "127.0.0.1");
    assert!(c.template_dir.is_none());
    assert!(c.webhooks.is_empty());
}

#[test]
fn repeated_gets_return_the_cached_config() {
    let mut manager = LazyConfigManager::new();
    manager.get_config(Some(file_config()), None, None);
    // A later caller passing nothing still sees the cached configuration.
    let c = manager.get_config(None, None, None);
    assert_eq!(c.server_port, 9000);
    assert_eq!(c.webhooks.len(), 1);
}

#[test]
fn failed_reload_keeps_the_cached_config() {
    let mut manager = LazyConfigManager::new();
    manager.get_config(Some(file_config()), None, None);
    // The reload found no readable file: the cache must stay untouched.
    let c = manager.force_reload(None, None, None);
    assert_eq!(c.server_port, 9000);
    assert_eq!(c.webhooks.len(), 1);
    assert_eq!(c.webhooks[0].name, "team");
}

#[test]
fn failed_reload_without_cache_falls_back_to_defaults() {
    let mut manager = LazyConfigManager::new();
    let c = manager.force_reload(None, None, None);
    assert_eq!(c.server_port, 7876);
    assert!(c.webhooks.is_empty());
}

#[test]
fn successful_reload_replaces_the_cache() {
    let mut manager = LazyConfigManager::new();
    manager.get_config(Some(file_config()), None, None);
    let mut newer = file_config();
    newer.server_port = 9100;
    let c = manager.force_reload(Some(newer), None, None);
    assert_eq!(c.server_port, 9100);
}

#[test]
fn port_override_applies() {
    let c = ConfigManager::load(Some(file_config()), Some(7000), None);
    assert_eq!(c.server_port, 7000);
    let d = ConfigManager::load(None, Some(7001), None);
    assert_eq!(d.server_port, 7001);
}

#[test]
fn env_webhook_is_appended_once() {
    let mut c = file_config();
    c.apply_env_overrides(None, Some(String::from("https://hooks.example.test/env")));
    assert_eq!(c.webhooks.len(), 2);
    let entry = &c.webhooks[1];
    assert_eq!(entry.name, "env_webhook");
    assert_eq!(entry.url, vec![String::from("https://hooks.example.test/env")]);
    assert!(entry.enabled);
}

#[test]
fn env_webhook_is_upserted_not_duplicated() {
    let mut c = file_config();
    c.apply_env_overrides(None, Some(String::from("https://hooks.example.test/env1")));
    c.apply_env_overrides(None, Some(String::from("https://hooks.example.test/env2")));
    assert_eq!(c.webhooks.len(), 2);
    let names: Vec<_> = c.webhooks.iter().filter(|w| w.name == "env_webhook").collect();
    assert_eq!(names.len(), 1);
    assert_eq!(names[0].url, vec![String::from("https://hooks.example.test/env2")]);
}

#[test]
fn empty_env_url_changes_nothing() {
    let mut c = file_config();
    c.apply_env_overrides(None, Some(String::new()));
    assert_eq!(c.webhooks.len(), 1);
}

#[test]
fn metadata_detects_content_and_path_changes() {
    let meta = ConfigMetadata::of("config.yaml", "server_port: 7876\n");
    assert!(!meta.needs_reload("config.yaml", "server_port: 7876\n"));
    assert!(meta.needs_reload("config.yaml", "server_port: 9000\n"));
    assert!(meta.needs_reload("other.yaml", "server_port: 7876\n"));
}

#[test]
fn yaml_path_recognition() {
    assert!(is_yaml_path("config.yaml"));
    assert!(is_yaml_path("/etc/glitchtip-relay/config.yml"));
    assert!(!is_yaml_path("config.toml"));
    assert!(!is_yaml_path("config.json"));
}
