use qbittorrent_mcp_rs::app::{plan_clients, base_url, log_rotation, LogRotation, is_blank, serves_http, http_listen_address};
use qbittorrent_mcp_rs::config::{AppConfig, QBitInstance};

fn instance(name: &str, host: &str, port: Option<u16>, user: Option<&str>, pass: Option<&str>, nv: Option<bool>) -> QBitInstance {
    QBitInstance {
        name: name.to_string(),
        host: host.to_string(),
        port,
        username: user.map(|u| u.to_string()),
        password: pass.map(|p| p.to_string()),
        no_verify_ssl: nv,
    }
}

fn config(instances: Option<Vec<QBitInstance>>, host: &str, port: Option<u16>) -> AppConfig {
    AppConfig {
        instances,
        qbittorrent_host: host.to_string(),
        qbittorrent_port: port,
        qbittorrent_username: None,
        qbittorrent_password: None,
        server_mode: "stdio".to_string(),
        lazy_mode: false,
        no_verify_ssl: false,
        log_level: "info".to_string(),
        log_file_enable: false,
        log_dir: ".".to_string(),
        log_filename: "x.log".to_string(),
        log_rotate: "daily".to_string(),
        http_auth_token: None,
        polling_interval_ms: 100,
    }
}

#[test]
fn base_urls() {
    assert_eq!(base_url("localhost", Some(8080)), "http://localhost:8080");
    assert_eq!(base_url("localhost", None), "http://localhost:80");
    assert_eq!(base_url("https://secure.host", Some(443)), "https://secure.host:443");
    assert_eq!(base_url("https://secure.host2", None), "https://secure.host2");
    assert_eq!(base_url("http://h1:8080", None), "http://h1:8080");
}

#[test]
fn https_instances_and_ports() {
    let c = config(Some(vec![
        instance("https_inst", "https://secure.host", Some(443), Some("u"), Some("p"), Some(true)),
        instance("https_no_port", "https://secure.host2", None, None, None, None),
        instance("plain", "h3", None, None, None, Some(true)),
    ]), "localhost", None);
    let plans = plan_clients(&c).unwrap();
    assert_eq!(plans.len(), 3);
    assert_eq!(plans[0].client.base_url, "https://secure.host:443");
    assert!(plans[0].client.no_verify_ssl);
    assert!(plans[0].login);
    assert_eq!(plans[0].client.username.as_deref(), Some("u"));
    assert_eq!(plans[1].client.base_url, "https://secure.host2");
    assert!(!plans[1].client.no_verify_ssl);
    assert!(!plans[1].login);
    assert_eq!(plans[2].client.base_url, "http://h3:80");
    assert!(!plans[2].client.no_verify_ssl);
}

#[test]
fn user_without_password_logs_in_without_credentials() {
    let c = config(Some(vec![instance("a", "h", None, Some("u"), None, None)]), "localhost", None);
    let plans = plan_clients(&c).unwrap();
    assert!(plans[0].login);
    assert!(plans[0].client.username.is_none());
}

#[test]
fn no_instances_is_an_error() {
    let c = config(None, "   ", None);
    assert_eq!(plan_clients(&c).unwrap_err(), "No qBittorrent instances configured");
}

#[test]
fn later_instances_replace_earlier_ones_of_the_same_name_after_logging_in() {
    let c = config(Some(vec![
        instance("a", "h1", None, None, None, None),
        instance("b", "h2", None, None, None, None),
        instance("a", "h3", Some(1), None, None, None),
        instance("c", " \t", None, None, None, None),
    ]), "localhost", None);
    let plans = plan_clients(&c).unwrap();
    assert_eq!(plans.len(), 3);
    assert_eq!(plans[0].name, "a");
    assert_eq!(plans[0].client.base_url, "http://h1:80");
    assert!(!plans[0].serves);
    assert_eq!(plans[1].name, "b");
    assert!(plans[1].serves);
    assert_eq!(plans[2].name, "a");
    assert_eq!(plans[2].client.base_url, "http://h3:1");
    assert!(plans[2].serves);
}

#[test]
fn legacy_instance_is_named_default() {
    let plans = plan_clients(&config(None, "localhost", Some(8080))).unwrap();
    assert_eq!(plans[0].name, "default");
    assert_eq!(plans[0].client.base_url, "http://localhost:8080");
}

#[test]
fn rotations_and_modes() {
    assert_eq!(log_rotation("hourly"), LogRotation::Hourly);
    assert_eq!(log_rotation("HOURLY"), LogRotation::Hourly);
    assert_eq!(log_rotation("Never"), LogRotation::Never);
    assert_eq!(log_rotation("daily"), LogRotation::Daily);
    assert_eq!(log_rotation("invalid"), LogRotation::Daily);
    assert!(is_blank(""));
    assert!(is_blank(" \u{3000}\n"));
    assert!(!is_blank(" x "));
    assert!(serves_http("http"));
    assert!(!serves_http("stdio"));
    assert_eq!(http_listen_address(), ("0.0.0.0".to_string(), 3000));
}
