use qbittorrent_mcp_rs::json::Json;
use qbittorrent_mcp_rs::server::mcp::{McpServer, McpState, JsonRpcResponse, RpcRoute, route_request, select_instance};
use qbittorrent_mcp_rs::server::resources::{ResourceKind, route_resource, resource_contents};
use qbittorrent_mcp_rs::server::session::{RequestStep, initialize_result, resource_to_read};

fn obj(entries: Vec<(&str, Json)>) -> Json {
    Json::Obj(entries.into_iter().map(|(k, v)| (k.to_string(), v)).collect())
}

fn s(v: &str) -> Json {
    Json::Str(v.to_string())
}

fn text_of(reply: &Json) -> String {
    let content = reply.get("content").expect("content");
    match content {
        Json::Arr(items) => match items[0].get("text") {
            Some(Json::Str(t)) => t.clone(),
            other => panic!("no text: {:?}", other),
        },
        other => panic!("no items: {:?}", other),
    }
}

#[test]
fn test_push_notification() {
    let mut server = McpServer::new(Vec::new(), false);
    server.push_notification("test_method", obj(vec![("param", s("val"))]));

    let state = &server.state;
    assert_eq!(state.notification_queue.len(), 1);
    assert_eq!(state.notification_queue[0].method, "test_method");
}

#[test]
fn test_resource_definitions() {
    let server = McpServer::new(vec!["test".to_string()], false);
    let res = server.get_resource_definitions();
    assert!(!res.is_empty());
    // Should have qbittorrent://test/torrents etc.
    let found = res.iter().any(|r| matches!(r.get("uri"), Some(Json::Str(u)) if u == "qbittorrent://test/torrents"));
    assert!(found);
}

#[test]
fn resource_definitions_list_each_instance_then_templates() {
    let res = McpServer::new(vec!["a".to_string(), "b".to_string()], false).get_resource_definitions();
    assert_eq!(res.len(), 9);
    let uris: Vec<String> = res.iter().take(6).map(|r| match r.get("uri") { Some(Json::Str(u)) => u.clone(), _ => String::new() }).collect();
    assert_eq!(uris, vec![
        "qbittorrent://a/torrents", "qbittorrent://a/transfer", "qbittorrent://a/categories",
        "qbittorrent://b/torrents", "qbittorrent://b/transfer", "qbittorrent://b/categories",
    ]);
    assert!(matches!(res[6].get("uriTemplate"), Some(Json::Str(t)) if t == "qbittorrent://{instance}/torrent/{hash}/properties"));
    assert!(matches!(res[8].get("uriTemplate"), Some(Json::Str(t)) if t == "qbittorrent://{instance}/torrent/{hash}/trackers"));
    assert!(matches!(res[0].get("name"), Some(Json::Str(t)) if t == "Torrent List (a)"));
}

#[test]
fn handle_request_errors() {
    let mut server = McpServer::new(Vec::new(), false);
    match server.handle_request("unknown_method", None, "1.0") {
        Err(m) => assert_eq!(m, "Method not found: unknown_method"),
        Ok(_) => panic!("unknown method accepted"),
    }
    match server.handle_request("prompts/get", None, "1.0") {
        Err(m) => assert_eq!(m, "Missing params for prompts/get"),
        Ok(_) => panic!("missing params accepted"),
    }
}

#[test]
fn initialize_and_ping() {
    let mut server = McpServer::new(vec!["default".to_string()], false);
    match server.handle_request("initialize", None, "0.4.2") {
        Ok(RequestStep::Reply(j)) => {
            assert!(matches!(j.get("protocolVersion"), Some(Json::Str(v)) if v == "2024-11-05"));
            let info = j.get("serverInfo").unwrap();
            assert!(matches!(info.get("name"), Some(Json::Str(v)) if v == "qbittorrent-mcp-rs"));
            assert!(matches!(info.get("version"), Some(Json::Str(v)) if v == "0.4.2"));
        },
        other => panic!("unexpected {:?}", other),
    }
    match server.handle_request("ping", None, "0.4.2") {
        Ok(RequestStep::Reply(Json::Obj(e))) => assert!(e.is_empty()),
        other => panic!("unexpected {:?}", other),
    }
    match server.handle_request("notifications/initialized", None, "0.4.2") {
        Ok(RequestStep::Reply(Json::Null)) => {},
        other => panic!("unexpected {:?}", other),
    }
    let caps = initialize_result("x");
    let tools = caps.get("capabilities").unwrap().get("tools").unwrap();
    assert!(matches!(tools.get("listChanged"), Some(Json::Bool(true))));
}

#[test]
fn resource_routing() {
    let instances = vec!["default".to_string()];
    for (uri, kind) in [
        ("qbittorrent://default/torrents", ResourceKind::Torrents),
        ("qbittorrent://default/transfer", ResourceKind::Transfer),
        ("qbittorrent://default/categories", ResourceKind::Categories),
    ] {
        let read = resource_to_read(uri, &instances).expect("routed");
        assert_eq!(read.instance, 0);
        assert_eq!(read.kind, kind);
        assert!(read.hash.is_none());
    }
    let read = resource_to_read("qbittorrent://default/torrent/abc/properties", &instances).unwrap();
    assert_eq!(read.kind, ResourceKind::Properties);
    assert_eq!(read.hash.as_deref(), Some("abc"));
    let read = resource_to_read("qbittorrent://default/torrent/abc/files", &instances).unwrap();
    assert_eq!(read.kind, ResourceKind::Files);
    let read = resource_to_read("qbittorrent://default/torrent/abc/trackers", &instances).unwrap();
    assert_eq!(read.kind, ResourceKind::Trackers);
}

#[test]
fn resource_read_errors() {
    let instances = vec!["default".to_string()];
    match resource_to_read("qbittorrent://unknown/torrents", &instances) {
        Err(m) => assert_eq!(m, "Instance not found: unknown"),
        Ok(_) => panic!("unknown instance accepted"),
    }
    match resource_to_read("unknown://uri", &instances) {
        Err(m) => assert_eq!(m, "Resource not found: unknown://uri"),
        Ok(_) => panic!("unknown uri accepted"),
    }
    match resource_to_read("qbittorrent://torrents", &Vec::new()) {
        Err(m) => assert_eq!(m, "No instances configured"),
        Ok(_) => panic!("no instance accepted"),
    }
}

#[test]
fn legacy_resources_use_the_default_instance() {
    let instances = vec!["other".to_string(), "default".to_string()];
    let read = resource_to_read("qbittorrent://transfer", &instances).unwrap();
    assert_eq!(read.instance, 1);
    assert_eq!(read.kind, ResourceKind::Transfer);
    let route = route_resource("qbittorrent://categories").unwrap();
    assert!(route.instance.is_none());
}

#[test]
fn listed_resource_reads_back() {
    let route = route_resource("qbittorrent://my-box/transfer").unwrap();
    assert_eq!(route.kind, ResourceKind::Transfer);
    assert_eq!(route.instance.as_deref(), Some("my-box"));
}

#[test]
fn resource_contents_shape() {
    let j = resource_contents("qbittorrent://a/torrents", "[]".to_string());
    match j.get("contents") {
        Some(Json::Arr(items)) => {
            assert!(matches!(items[0].get("uri"), Some(Json::Str(u)) if u == "qbittorrent://a/torrents"));
            assert!(matches!(items[0].get("mimeType"), Some(Json::Str(u)) if u == "application/json"));
            assert!(matches!(items[0].get("text"), Some(Json::Str(u)) if u == "[]"));
        },
        other => panic!("unexpected {:?}", other),
    }
}

#[test]
fn instance_selection() {
    let names = vec!["a".to_string(), "default".to_string()];
    assert_eq!(select_instance(&names, None).unwrap(), 1);
    assert_eq!(select_instance(&names, Some("a")).unwrap(), 0);
    assert_eq!(select_instance(&vec!["x".to_string()], None).unwrap(), 0);
    assert_eq!(select_instance(&names, Some("zz")).unwrap_err(), "Instance not found: zz");
    assert_eq!(select_instance(&Vec::new(), None).unwrap_err(), "No instances configured");
}

#[test]
fn show_all_tools_notifies_once() {
    let mut server = McpServer::new(vec!["default".to_string()], true);
    assert!(!server.check_notification());
    let params = obj(vec![("name", s("show_all_tools"))]);
    match server.handle_request("tools/call", Some(params), "1") {
        Ok(RequestStep::Reply(j)) => assert_eq!(text_of(&j), "All tools enabled. Please refresh your tool list."),
        other => panic!("unexpected {:?}", other),
    }
    assert!(!server.state.lazy_mode);
    assert!(server.check_notification());
    assert!(!server.check_notification());
}

#[test]
fn pending_notifications_come_out_in_order() {
    let mut state = McpState::new(true);
    state.push_notification("first", Json::Null);
    state.show_all_tools();
    state.push_notification("second", Json::Null);
    let pending = state.take_pending();
    let methods: Vec<&str> = pending.iter().map(|n| n.method.as_str()).collect();
    assert_eq!(methods, vec!["notifications/tools/list_changed", "first", "second"]);
    assert!(state.take_pending().is_empty());
}

#[test]
fn tool_calls_go_to_their_instance() {
    let mut server = McpServer::new(vec!["a".to_string(), "b".to_string()], false);
    let params = obj(vec![("name", s("pause_torrent")), ("arguments", obj(vec![("hash", s("abc")), ("instance", s("b"))]))]);
    match server.handle_request("tools/call", Some(params), "1") {
        Ok(RequestStep::CallTool(inv)) => assert_eq!(inv.instance, Some(1)),
        other => panic!("unexpected {:?}", other),
    }
    let params = obj(vec![("name", s("pause_torrent")), ("arguments", obj(vec![]))]);
    match server.handle_request("tools/call", Some(params), "1") {
        Err(m) => assert_eq!(m, "Missing hash"),
        other => panic!("unexpected {:?}", other),
    }
    let params = obj(vec![("name", s("no_such_tool"))]);
    match server.handle_request("tools/call", Some(params), "1") {
        Err(m) => assert_eq!(m, "Unknown tool: no_such_tool"),
        other => panic!("unexpected {:?}", other),
    }
}

#[test]
fn routes_and_replies() {
    let params = obj(vec![("name", s("x")), ("arguments", obj(vec![]))]);
    match route_request("tools/call", Some(params)) {
        Ok(RpcRoute::ToolsCall { name, .. }) => assert_eq!(name, "x"),
        other => panic!("unexpected {:?}", other),
    }
    let r = JsonRpcResponse::reply(Json::Int(7), Err("boom".to_string()));
    assert_eq!(r.jsonrpc, "2.0");
    let e = r.error.unwrap();
    assert_eq!(e.code, -32603);
    assert_eq!(e.message, "boom");
}

#[test]
fn resource_reads_are_handed_on() {
    let mut server = McpServer::new(vec!["default".to_string()], false);
    let params = obj(vec![("uri", s("qbittorrent://default/torrent/abc/files"))]);
    match server.handle_request("resources/read", Some(params), "1") {
        Ok(RequestStep::ReadResource(read)) => {
            assert_eq!(read.instance, 0);
            assert_eq!(read.kind, ResourceKind::Files);
            assert_eq!(read.hash.as_deref(), Some("abc"));
        },
        other => panic!("unexpected {:?}", other),
    }
    match server.handle_request("resources/list", None, "1") {
        Ok(RequestStep::Reply(j)) => assert!(matches!(j.get("resources"), Some(Json::Arr(rs)) if rs.len() == 6)),
        other => panic!("unexpected {:?}", other),
    }
    match server.handle_request("prompts/list", None, "1") {
        Ok(RequestStep::Reply(j)) => assert!(matches!(j.get("prompts"), Some(Json::Arr(ps)) if ps.len() == 5)),
        other => panic!("unexpected {:?}", other),
    }
    match server.handle_request("tools/list", None, "1") {
        Ok(RequestStep::Reply(j)) => assert!(matches!(j.get("tools"), Some(Json::Arr(ts)) if ts.len() == 55)),
        other => panic!("unexpected {:?}", other),
    }
}

#[test]
fn show_all_tools_reply_has_only_its_content() {
    let mut server = McpServer::new(Vec::new(), true);
    let reply = match server.call_tool("show_all_tools", &Json::Null) {
        Ok(RequestStep::Reply(j)) => j,
        other => panic!("unexpected {:?}", other),
    };
    match &reply {
        Json::Obj(e) => {
            assert_eq!(e.len(), 1);
            assert_eq!(e[0].0, "content");
        },
        other => panic!("not an object: {:?}", other),
    }
    assert_eq!(text_of(&reply), "All tools enabled. Please refresh your tool list.");
    match reply.get("content") {
        Some(Json::Arr(items)) => match &items[0] {
            Json::Obj(f) => assert_eq!(f.len(), 2),
            other => panic!("not an object: {:?}", other),
        },
        other => panic!("no items: {:?}", other),
    }
    assert!(server.is_running());
}
