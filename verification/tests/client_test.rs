use qbittorrent_mcp_rs::client::{QBitClient, HttpMethod, Body, HttpStatus, CallStep, next_step, speed_limits_mode};

fn form(body: &Body) -> Vec<(String, String)> {
    match body {
        Body::Form(f) => f.clone(),
        other => panic!("not a form: {:?}", other),
    }
}

fn status(code: u16, text: &str) -> HttpStatus {
    HttpStatus { code, text: text.to_string() }
}

#[test]
fn login_request() {
    let c = QBitClient::new("http://localhost:8080", "admin", "password", false);
    let call = c.login();
    assert_eq!(call.request.method, HttpMethod::Post);
    assert_eq!(call.request.url, "http://localhost:8080/api/v2/auth/login");
    assert_eq!(call.request.headers[0], ("Referer".to_string(), "http://localhost:8080/".to_string()));
    assert_eq!(call.request.headers[1], ("Origin".to_string(), "http://localhost:8080".to_string()));
    assert_eq!(form(&call.request.body), vec![("username".to_string(), "admin".to_string()), ("password".to_string(), "password".to_string())]);
    let slash = QBitClient::new("http://h/", "a", "b", false).login();
    assert_eq!(slash.request.headers[0].1, "http://h/");
    assert_eq!(slash.request.url, "http://h/api/v2/auth/login");
}

#[test]
fn test_login_base_url_slash() {
    let c = QBitClient::new("http://127.0.0.1:9/", "admin", "password", false);
    let call = c.login();
    assert_eq!(call.request.url, "http://127.0.0.1:9/api/v2/auth/login");
    assert_eq!(call.request.headers[0].1, "http://127.0.0.1:9/");
    assert!(matches!(next_step(call, 0, &status(200, "200 OK")), CallStep::Succeeded));
    let files = c.get_torrent_files("abc");
    assert_eq!(files.request.url, "http://127.0.0.1:9/api/v2/torrents/files?hash=abc");
}

#[test]
fn no_auth_client_logs_in_with_empty_credentials() {
    let c = QBitClient::new_no_auth("http://h", true);
    assert!(c.no_verify_ssl);
    let call = c.login();
    assert_eq!(form(&call.request.body), vec![("username".to_string(), String::new()), ("password".to_string(), String::new())]);
}

#[test]
fn torrent_list_query() {
    let c = QBitClient::new_no_auth("http://localhost:8080", false);
    let call = c.get_torrent_list(Some("all"), Some("cat1"), Some("tag1"), Some("name"), Some(true), Some(10), Some(10)).unwrap();
    assert_eq!(call.request.method, HttpMethod::Get);
    assert_eq!(
        call.request.url,
        "http://localhost:8080/api/v2/torrents/info?filter=all&category=cat1&tag=tag1&sort=name&reverse=true&limit=10&offset=10"
    );
    let plain = c.get_torrent_list(None, None, None, None, None, None, None).unwrap();
    assert!(plain.request.url.starts_with("http://localhost:8080/api/v2/torrents/info"));
    let spaced = c.get_torrent_list(None, Some("a b&c"), None, None, None, None, None).unwrap();
    assert!(spaced.request.url.ends_with("?category=a+b%26c"));
}

#[test]
fn torrent_list_rejects_a_bad_base_url() {
    let c = QBitClient::new_no_auth("not a url", false);
    assert!(c.get_torrent_list(None, None, None, None, None, None, None).is_err());
}

#[test]
fn pause_falls_back_to_the_old_endpoint() {
    let c = QBitClient::new_no_auth("http://h", false);
    let call = c.pause_torrents("abc");
    assert_eq!(call.request.url, "http://h/api/v2/torrents/stop");
    assert_eq!(form(&call.request.body), vec![("hashes".to_string(), "abc".to_string())]);
    let again = c.pause_torrents("abc");
    match next_step(call, 0, &status(404, "404 Not Found")) {
        CallStep::Send(r) => assert_eq!(r.url, "http://h/api/v2/torrents/pause"),
        other => panic!("unexpected {:?}", other),
    }
    match next_step(again, 1, &status(500, "500 Internal Server Error")) {
        CallStep::Failed(m) => assert_eq!(m, "Failed to pause torrents: 500 Internal Server Error"),
        other => panic!("unexpected {:?}", other),
    }
}

#[test]
fn call_outcomes() {
    let c = QBitClient::new_no_auth("http://h", false);
    assert!(matches!(next_step(c.resume_torrents("x"), 0, &status(200, "200 OK")), CallStep::Succeeded));
    match next_step(c.resume_torrents("x"), 0, &status(500, "500 Internal Server Error")) {
        CallStep::Failed(m) => assert_eq!(m, "Failed to start/resume torrents: 500 Internal Server Error"),
        other => panic!("unexpected {:?}", other),
    }
    match next_step(c.add_torrent("magnet:...", None, None), 0, &status(404, "404 Not Found")) {
        CallStep::Failed(m) => assert_eq!(m, "Failed to add torrent: 404 Not Found"),
        other => panic!("unexpected {:?}", other),
    }
}

#[test]
fn request_shapes() {
    let c = QBitClient::new_no_auth("http://h", false);
    let d = c.delete_torrents("hash1|hash2", true);
    assert_eq!(d.request.url, "http://h/api/v2/torrents/delete");
    assert_eq!(form(&d.request.body), vec![("hashes".to_string(), "hash1|hash2".to_string()), ("deleteFiles".to_string(), "true".to_string())]);
    let l = c.get_main_log(true, false, true, false, Some(5));
    assert_eq!(l.request.url, "http://h/api/v2/log/main?normal=true&info=false&warning=true&critical=false&last_id=5");
    let s = c.set_torrent_share_limits("abc", "1.5", 120, None);
    assert_eq!(form(&s.request.body)[3], ("inactiveSeedingTimeLimit".to_string(), "-2".to_string()));
    let a = c.add_torrent("magnet:?xt=urn:btih:test", Some("/downloads"), Some("linux"));
    match &a.request.body {
        Body::Multipart(f) => assert_eq!(f.len(), 3),
        other => panic!("unexpected {:?}", other),
    }
}

#[test]
fn speed_limits_mode_body() {
    assert_eq!(speed_limits_mode("1"), Ok(1));
    assert_eq!(speed_limits_mode("x").unwrap_err(), "invalid digit found in string");
}
