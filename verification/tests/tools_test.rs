use qbittorrent_mcp_rs::json::Json;
use qbittorrent_mcp_rs::server::mcp::McpState;
use qbittorrent_mcp_rs::server::tools::tool_definitions;
use qbittorrent_mcp_rs::server::prompts::{prompt_definitions, prompt_get};
use qbittorrent_mcp_rs::server::calls::{parse_tool_call, prepare_tool_call, ToolCall, done_text};

fn obj(entries: Vec<(&str, Json)>) -> Json {
    Json::Obj(entries.into_iter().map(|(k, v)| (k.to_string(), v)).collect())
}

fn s(v: &str) -> Json {
    Json::Str(v.to_string())
}

fn str_at(j: &Json, key: &str) -> String {
    match j.get(key) {
        Some(Json::Str(t)) => t.clone(),
        other => panic!("no {}: {:?}", key, other),
    }
}

fn message(reply: &Json, i: usize) -> (String, String) {
    match reply.get("messages") {
        Some(Json::Arr(ms)) => (str_at(&ms[i], "role"), str_at(ms[i].get("content").unwrap(), "text")),
        other => panic!("no messages: {:?}", other),
    }
}

fn properties(tool: &Json) -> Vec<String> {
    match tool.get("inputSchema").and_then(|s| s.get("properties")) {
        Some(Json::Obj(e)) => e.iter().map(|(k, _)| k.clone()).collect(),
        other => panic!("no properties: {:?}", other),
    }
}

#[test]
fn lazy_mode_lists_two_tools() {
    let tools = tool_definitions(&McpState::new(true));
    let names: Vec<String> = tools.iter().map(|t| str_at(t, "name")).collect();
    assert_eq!(names, vec!["list_torrents", "show_all_tools"]);
}

#[test]
fn full_mode_lists_every_tool_with_an_instance() {
    let tools = tool_definitions(&McpState::new(false));
    assert_eq!(tools.len(), 55);
    assert_eq!(str_at(&tools[0], "name"), "list_torrents");
    assert_eq!(str_at(&tools[54], "name"), "shutdown_app");
    for t in &tools {
        let props = properties(t);
        assert_eq!(props.last().map(|p| p.as_str()), Some("instance"), "{:?}", t);
        let name = str_at(t, "name");
        if let Err(m) = parse_tool_call(&name, &Json::Null) {
            assert!(!m.starts_with("Unknown tool"), "{}", m);
        }
    }
}

#[test]
fn test_rules_of_engagement_prompt() {
    let prompts = prompt_definitions();
    assert!(prompts.iter().any(|p| str_at(p, "name") == "rules-of-engagement"));
    let reply = prompt_get("rules-of-engagement", &Json::Null).unwrap();
    let (role, text) = message(&reply, 1);
    assert_eq!(role, "assistant");
    for word in ["State Verification", "Destructive Actions", "Search Etiquette", "Error Handling", "Idempotency", "Semantic Feedback", "Security"] {
        assert!(text.contains(word), "{}", word);
    }
    assert_eq!(message(&reply, 0).0, "user");
}

#[test]
fn stalled_torrent_prompt() {
    let reply = prompt_get("fix_stalled_torrent", &obj(vec![("hash", s("abc"))])).unwrap();
    assert_eq!(str_at(&reply, "description"), "Troubleshooting for torrent abc on instance default");
    let (_, text) = message(&reply, 0);
    assert!(text.starts_with("I have a torrent with hash 'abc' on instance 'default' that is stalled or slow. Please investigate it. Follow these steps:\n1. Check the torrent properties using 'qbittorrent://default/torrent/abc/properties'."));
    assert_eq!(prompt_get("fix_stalled_torrent", &Json::Null).unwrap_err(), "Missing hash");
    assert_eq!(prompt_get("nope", &Json::Null).unwrap_err(), "Prompt not found: nope");
}

#[test]
fn instance_prompts() {
    let reply = prompt_get("optimize_speed", &obj(vec![("instance", s("nas"))])).unwrap();
    assert_eq!(str_at(&reply, "description"), "Optimize download speeds on instance nas");
    let (_, text) = message(&reply, 0);
    assert!(text.starts_with("My downloads are slow on instance 'nas'."));
    let disk = prompt_get("analyze_disk_space", &Json::Null).unwrap();
    assert_eq!(str_at(&disk, "description"), "Analyze disk space on instance default");
    let conn = prompt_get("troubleshoot_connection", &Json::Null).unwrap();
    assert_eq!(str_at(&conn, "description"), "Troubleshoot connection issues on instance default");
}

#[test]
fn tool_call_reading() {
    let names = vec!["default".to_string()];
    let inv = prepare_tool_call("wait_for_torrent_status", &obj(vec![("hash", s("abc")), ("target_status", s("uploading")), ("timeout_seconds", Json::Int(1000))]), &names).unwrap();
    match inv.call {
        ToolCall::WaitForTorrentStatus { hash, target_status, timeout_seconds } => {
            assert_eq!(hash, "abc");
            assert_eq!(target_status, "uploading");
            assert_eq!(timeout_seconds, 300);
        },
        other => panic!("unexpected {:?}", other),
    }
    let inv = prepare_tool_call("delete_torrent", &obj(vec![("hash", s("h"))]), &names).unwrap();
    assert!(matches!(inv.call, ToolCall::DeleteTorrent { delete_files: false, .. }));
    assert_eq!(done_text(&inv.call).as_deref(), Some("Torrent deleted successfully"));
    assert!(prepare_tool_call("mass_rename", &obj(vec![("hash", s("h")), ("pattern", s("(")), ("replacement", s("x"))]), &names).is_err());
    assert_eq!(prepare_tool_call("set_torrent_share_limits", &obj(vec![("hashes", s("h"))]), &names).unwrap_err(), "Missing ratio_limit");
}

#[test]
fn preferences_are_normalized_json() {
    let names = vec!["default".to_string()];
    let inv = prepare_tool_call("set_app_preferences", &obj(vec![("preferences", s("{ \"save_path\" : \"/new/path\" }"))]), &names).unwrap();
    match inv.call {
        ToolCall::SetAppPreferences { preferences_json } => assert_eq!(preferences_json, "{\"save_path\":\"/new/path\"}"),
        other => panic!("unexpected {:?}", other),
    }
    assert!(prepare_tool_call("set_app_preferences", &obj(vec![("preferences", s("{not json"))]), &names).is_err());
}
