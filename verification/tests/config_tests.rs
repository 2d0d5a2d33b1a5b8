use chatty::config::{config_path, ClientConfig, ServerConfig, CLIENT_CONFIG_PATH, SERVER_CONFIG_PATH};

#[test]
fn client_default_values() {
    let c = ClientConfig::default();
    assert_eq!(c.username, "Default Username");
    assert_eq!(c.user_color, [255, 255, 255]);
    assert_eq!(c.ip, "127.0.0.1:5678");
}

#[test]
fn server_default_values() {
    let c = ServerConfig::default();
    assert_eq!(c.name, "Default Server Name");
    assert_eq!(c.motd, "Default MOTD");
    assert_eq!(c.color, [255, 247, 0]);
    assert_eq!(c.tickrate, 50);
    assert_eq!(c.ip, "127.0.0.1:5678");
}

#[test]
fn client_load_keeps_saved_config() {
    let saved = ClientConfig { username: "alice".to_string(), user_color: [1, 2, 3], ip: "10.0.0.1:1".to_string() };
    let (c, created) = ClientConfig::load(Some(saved));
    assert!(!created);
    assert_eq!(c.username, "alice");
    assert_eq!(c.user_color, [1, 2, 3]);
    assert_eq!(c.ip, "10.0.0.1:1");
}

#[test]
fn client_load_without_saved_config_creates_default() {
    let (c, created) = ClientConfig::load(None);
    assert!(created);
    assert_eq!(c.username, "Default Username");
    assert_eq!(c.user_color, [255, 255, 255]);
}

#[test]
fn server_load_keeps_saved_config() {
    let saved = ServerConfig {
        name: "srv".to_string(),
        motd: "hi".to_string(),
        color: [9, 9, 9],
        tickrate: 7,
        ip: "0.0.0.0:1".to_string(),
    };
    let (c, created) = ServerConfig::load(Some(saved));
    assert!(!created);
    assert_eq!(c.name, "srv");
    assert_eq!(c.motd, "hi");
    assert_eq!(c.tickrate, 7);
}

#[test]
fn server_load_without_saved_config_creates_default() {
    let (c, created) = ServerConfig::load(None);
    assert!(created);
    assert_eq!(c.name, "Default Server Name");
    assert_eq!(c.tickrate, 50);
}

#[test]
fn config_paths_are_in_config_dir() {
    assert_eq!(config_path(CLIENT_CONFIG_PATH), "config/client_config.json");
    assert_eq!(config_path(SERVER_CONFIG_PATH), "config/server_config.json");
}
