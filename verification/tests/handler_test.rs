use qbittorrent_mcp_rs::json::Json;
use qbittorrent_mcp_rs::client::QBitClient;
use qbittorrent_mcp_rs::server::handler::{AppHandler, HandlerStep, HandlerCall, ErrorCode, handler_done_text, search_start_failure, wait_not_found};

fn obj(entries: Vec<(&str, Json)>) -> Json {
    Json::Obj(entries.into_iter().map(|(k, v)| (k.to_string(), v)).collect())
}

fn s(v: &str) -> Json {
    Json::Str(v.to_string())
}

fn handler(lazy: bool) -> AppHandler {
    AppHandler::new(QBitClient::new_no_auth("http://localhost:8080", false), lazy)
}

fn tool_names(step: &HandlerStep) -> Vec<String> {
    match step {
        HandlerStep::Reply(j) => match j.get("tools") {
            Some(Json::Arr(ts)) => ts.iter().map(|t| match t.get("name") { Some(Json::Str(n)) => n.clone(), _ => String::new() }).collect(),
            other => panic!("no tools: {:?}", other),
        },
        other => panic!("unexpected {:?}", other),
    }
}

fn error(r: Result<HandlerStep, qbittorrent_mcp_rs::server::handler::ProtocolError>) -> (ErrorCode, String) {
    match r {
        Err(e) => (e.code, e.message),
        Ok(step) => panic!("unexpected {:?}", step),
    }
}

#[test]
fn lazy_tool_list() {
    let mut h = handler(true);
    let names = tool_names(&h.handle_method("tools/list", None).unwrap());
    assert_eq!(names, vec!["list_torrents", "show_all_tools"]);
}

#[test]
fn full_tool_list_after_show_all_tools() {
    let mut h = handler(true);
    let reply = h.handle_method("tools/call", Some(obj(vec![("name", s("show_all_tools"))]))).unwrap();
    match reply {
        HandlerStep::Reply(j) => assert!(matches!(j.get("isError"), Some(Json::Bool(false)))),
        other => panic!("unexpected {:?}", other),
    }
    assert!(!h.lazy_mode);
    let names = tool_names(&h.handle_method("tools/list", None).unwrap());
    assert_eq!(names.len(), 26);
    assert_eq!(names[0], "list_torrents");
    assert_eq!(names[1], "search_torrents");
    assert_eq!(names[25], "set_app_preferences");
}

#[test]
fn handler_errors() {
    let mut h = handler(false);
    assert_eq!(error(h.handle_method("other", None)), (ErrorCode::MethodNotFound, "other".to_string()));
    assert_eq!(error(h.handle_method("tools/call", None)), (ErrorCode::InvalidParams, "Missing params".to_string()));
    assert_eq!(error(h.handle_method("tools/call", Some(obj(vec![])))), (ErrorCode::InvalidParams, "Missing name".to_string()));
    assert_eq!(
        error(h.handle_method("tools/call", Some(obj(vec![("name", s("add_torrent"))])))),
        (ErrorCode::InvalidParams, "Missing arguments".to_string())
    );
    assert_eq!(
        error(h.handle_method("tools/call", Some(obj(vec![("name", s("add_torrent")), ("arguments", obj(vec![]))])))),
        (ErrorCode::InvalidParams, "Missing url".to_string())
    );
    assert_eq!(
        error(h.handle_method("tools/call", Some(obj(vec![("name", s("ghost"))])))),
        (ErrorCode::MethodNotFound, "Tool not found: ghost".to_string())
    );
    let (code, message) = error(h.handle_method("tools/call", Some(obj(vec![("name", s("set_app_preferences")), ("arguments", obj(vec![("preferences", s("{bad"))]))]))));
    assert_eq!(code, ErrorCode::InvalidParams);
    assert!(message.starts_with("Invalid JSON: "));
}

#[test]
fn handler_calls() {
    let mut h = handler(false);
    match h.handle_method("tools/call", Some(obj(vec![("name", s("list_torrents"))]))).unwrap() {
        HandlerStep::Perform(HandlerCall::ListTorrents) => {},
        other => panic!("unexpected {:?}", other),
    }
    let args = obj(vec![("hash", s("abc")), ("target_status", s("uploading"))]);
    match h.handle_method("tools/call", Some(obj(vec![("name", s("wait_for_torrent_status")), ("arguments", args)]))).unwrap() {
        HandlerStep::Perform(HandlerCall::WaitForTorrentStatus { hash, target_status, timeout_seconds }) => {
            assert_eq!(hash, "abc");
            assert_eq!(target_status, "uploading");
            assert_eq!(timeout_seconds, 60);
        },
        other => panic!("unexpected {:?}", other),
    }
    let args = obj(vec![("dl_limit", Json::Int(5000))]);
    match h.handle_method("tools/call", Some(obj(vec![("name", s("set_global_transfer_limits")), ("arguments", args)]))).unwrap() {
        HandlerStep::Perform(c) => {
            assert!(matches!(c, HandlerCall::SetGlobalTransferLimits { dl_limit: Some(5000), up_limit: None }));
            assert_eq!(handler_done_text(&c).as_deref(), Some("Transfer limits updated successfully"));
        },
        other => panic!("unexpected {:?}", other),
    }
}

#[test]
fn handler_failures() {
    let e = search_start_failure("boom");
    assert_eq!(e.code, ErrorCode::InternalError);
    assert_eq!(e.message, "Failed to start search: boom");
    let w = wait_not_found("abc");
    assert_eq!(w.code, ErrorCode::InvalidParams);
    assert_eq!(w.message, "Torrent not found: abc");
}
