use qbittorrent_mcp_rs::cli::{parse_args, CliError};

fn args(v: &[&str]) -> Vec<String> {
    v.iter().map(|s| s.to_string()).collect()
}

#[test]
fn parses_all_value_options() {
    let c = parse_args(&args(&[
        "app", "--qbittorrent-host", "h", "--qbittorrent-port=8081", "--server-mode", "http",
        "--qbittorrent-username", "u", "--qbittorrent-password", "p", "-L", "debug",
        "--log-dir", "/var/log", "--log-filename", "x.log", "--log-rotate", "hourly",
        "--http-auth-token", "t", "--polling-interval-ms", "250", "-c", "conf.toml",
    ])).unwrap();
    assert_eq!(c.qbittorrent_host.as_deref(), Some("h"));
    assert_eq!(c.qbittorrent_port, Some(8081));
    assert_eq!(c.server_mode.as_deref(), Some("http"));
    assert_eq!(c.qbittorrent_username.as_deref(), Some("u"));
    assert_eq!(c.qbittorrent_password.as_deref(), Some("p"));
    assert_eq!(c.log_level.as_deref(), Some("debug"));
    assert_eq!(c.log_dir.as_deref(), Some("/var/log"));
    assert_eq!(c.log_filename.as_deref(), Some("x.log"));
    assert_eq!(c.log_rotate.as_deref(), Some("hourly"));
    assert_eq!(c.http_auth_token.as_deref(), Some("t"));
    assert_eq!(c.polling_interval_ms, Some(250));
    assert_eq!(c.config.as_deref(), Some("conf.toml"));
}

#[test]
fn flags_and_defaults() {
    let c = parse_args(&args(&["app", "--lazy", "--no-verify-ssl", "--log-file-enable"])).unwrap();
    assert!(c.lazy_mode && c.no_verify_ssl && c.log_file_enable);
    let d = parse_args(&args(&["app"])).unwrap();
    assert!(!d.lazy_mode && !d.no_verify_ssl && !d.log_file_enable);
    assert!(d.log_level.is_none());
    assert!(d.log_dir.is_none());
    assert!(d.log_filename.is_none());
    assert!(d.log_rotate.is_none());
    assert!(d.qbittorrent_host.is_none());
    let e = parse_args(&Vec::new()).unwrap();
    assert!(e.qbittorrent_port.is_none());
}

#[test]
fn attached_short_values() {
    let c = parse_args(&args(&["app", "-Lwarn", "-c=my.toml"])).unwrap();
    assert_eq!(c.log_level.as_deref(), Some("warn"));
    assert_eq!(c.config.as_deref(), Some("my.toml"));
}

#[test]
fn help_is_requested() {
    assert_eq!(parse_args(&args(&["app", "--help"])).unwrap_err(), CliError::HelpRequested);
    assert_eq!(parse_args(&args(&["app", "-h"])).unwrap_err(), CliError::HelpRequested);
}

#[test]
fn command_line_errors() {
    assert_eq!(parse_args(&args(&["app", "--bogus"])).unwrap_err(), CliError::UnknownArgument("--bogus".to_string()));
    assert_eq!(parse_args(&args(&["app", "stray"])).unwrap_err(), CliError::UnknownArgument("stray".to_string()));
    assert_eq!(parse_args(&args(&["app", "--qbittorrent-host"])).unwrap_err(), CliError::ValueRequired("qbittorrent-host".to_string()));
    assert_eq!(parse_args(&args(&["app", "--lazy=yes"])).unwrap_err(), CliError::UnexpectedValue("lazy".to_string(), "yes".to_string()));
    assert_eq!(parse_args(&args(&["app", "--lazy", "--lazy"])).unwrap_err(), CliError::Repeated("lazy".to_string()));
    assert_eq!(
        parse_args(&args(&["app", "--qbittorrent-port", "70000"])).unwrap_err(),
        CliError::InvalidValue("qbittorrent-port".to_string(), "70000".to_string())
    );
    assert_eq!(
        parse_args(&args(&["app", "--polling-interval-ms", "-5"])).unwrap_err(),
        CliError::ValueRequired("polling-interval-ms".to_string())
    );
}
