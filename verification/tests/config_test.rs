use qbittorrent_mcp_rs::cli::parse_args;
use qbittorrent_mcp_rs::config::{AppConfig, ConfigFile, ConfigLayer, QBitInstance};

fn load_with(layer: ConfigLayer, args: Vec<String>) -> AppConfig {
    let cli = parse_args(&args).expect("Failed to load config with CLI args");
    AppConfig::load(layer, &cli)
}

#[test]
fn test_cli_overrides() {
    // Simulate CLI args
    let args = vec![
        "app".to_string(),
        "--qbittorrent-host".to_string(),
        "cli_host".to_string(),
        "--qbittorrent-port".to_string(),
        "9999".to_string(),
    ];
    let config = load_with(ConfigLayer::empty(), args);

    assert_eq!(config.qbittorrent_host, "cli_host");
    assert_eq!(config.qbittorrent_port, Some(9999));
}

#[test]
fn defaults_apply_when_nothing_is_set() {
    let config = load_with(ConfigLayer::empty(), vec![]);
    assert_eq!(config.qbittorrent_host, "localhost");
    assert_eq!(config.qbittorrent_port, None);
    assert_eq!(config.server_mode, "stdio");
    assert!(!config.lazy_mode);
    assert!(!config.no_verify_ssl);
    assert_eq!(config.log_level, "info");
    assert!(!config.log_file_enable);
    assert_eq!(config.log_dir, ".");
    assert_eq!(config.log_filename, "qbittorrent-mcp-rs.log");
    assert_eq!(config.log_rotate, "daily");
    assert_eq!(config.polling_interval_ms, 2000);
    assert!(config.instances.is_none());
}

#[test]
fn command_line_beats_file_which_beats_defaults() {
    let mut layer = ConfigLayer::empty();
    layer.qbittorrent_host = Some("file_host".to_string());
    layer.qbittorrent_port = Some(1234);
    layer.server_mode = Some("http".to_string());
    layer.polling_interval_ms = Some(500);
    layer.lazy_mode = Some(true);
    let args = vec!["app".to_string(), "--qbittorrent-host".to_string(), "cli_host".to_string()];
    let config = load_with(layer, args);
    assert_eq!(config.qbittorrent_host, "cli_host");
    assert_eq!(config.qbittorrent_port, Some(1234));
    assert_eq!(config.server_mode, "http");
    assert_eq!(config.polling_interval_ms, 500);
    assert!(config.lazy_mode);
}

#[test]
fn flags_only_switch_settings_on() {
    let mut layer = ConfigLayer::empty();
    layer.no_verify_ssl = Some(true);
    let args = vec!["app".to_string(), "--lazy".to_string()];
    let config = load_with(layer, args);
    assert!(config.lazy_mode);
    assert!(config.no_verify_ssl);
}

#[test]
fn config_file_choice() {
    let cli = parse_args(&vec!["app".to_string()]).unwrap();
    match AppConfig::config_file(None, &cli) {
        ConfigFile::Optional(p) => assert_eq!(p, "config"),
        other => panic!("unexpected {:?}", other),
    }
    match AppConfig::config_file(Some("x.toml".to_string()), &cli) {
        ConfigFile::Required(p) => assert_eq!(p, "x.toml"),
        other => panic!("unexpected {:?}", other),
    }
    let cli = parse_args(&vec!["app".to_string(), "--config".to_string(), "c.json".to_string()]).unwrap();
    match AppConfig::config_file(None, &cli) {
        ConfigFile::Required(p) => assert_eq!(p, "c.json"),
        other => panic!("unexpected {:?}", other),
    }
}

#[test]
fn empty_instance_list_falls_back_to_single_instance() {
    let mut layer = ConfigLayer::empty();
    layer.instances = Some(Vec::<QBitInstance>::new());
    layer.qbittorrent_username = Some("admin".to_string());
    let config = load_with(layer, vec![]);
    let instances = config.get_instances();
    assert_eq!(instances.len(), 1);
    assert_eq!(instances[0].name, "default");
    assert_eq!(instances[0].host, "localhost");
    assert_eq!(instances[0].username.as_deref(), Some("admin"));
    assert_eq!(instances[0].no_verify_ssl, Some(false));
}

#[test]
fn file_log_settings_apply_unless_the_command_line_gives_them() {
    let mut layer = ConfigLayer::empty();
    layer.log_level = Some("debug".to_string());
    layer.log_rotate = Some("hourly".to_string());
    layer.log_dir = Some("/var/log".to_string());
    layer.log_filename = Some("file.log".to_string());
    let config = load_with(layer, vec![]);
    assert_eq!(config.log_level, "debug");
    assert_eq!(config.log_rotate, "hourly");
    assert_eq!(config.log_dir, "/var/log");
    assert_eq!(config.log_filename, "file.log");

    let mut layer = ConfigLayer::empty();
    layer.log_level = Some("debug".to_string());
    layer.log_rotate = Some("hourly".to_string());
    let args = vec!["app".to_string(), "--log-level".to_string(), "warn".to_string()];
    let config = load_with(layer, args);
    assert_eq!(config.log_level, "warn");
    assert_eq!(config.log_rotate, "hourly");
    assert_eq!(config.log_dir, ".");
}
