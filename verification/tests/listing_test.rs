use qbittorrent_mcp_rs::json::Json;
use qbittorrent_mcp_rs::server::calls::{parse_tool_call, ToolCall};
use qbittorrent_mcp_rs::server::listing::{
    fields_listing, holds_search, listing_mode, search_keeps, summary_table, ListingMode, SummaryRow,
};

fn obj(entries: Vec<(&str, Json)>) -> Json {
    Json::Obj(entries.into_iter().map(|(k, v)| (k.to_string(), v)).collect())
}

fn s(v: &str) -> Json {
    Json::Str(v.to_string())
}

#[test]
fn list_arguments_are_read() {
    let args = obj(vec![
        ("search", s("ubuntu")),
        ("summary", Json::Bool(true)),
        ("limit", Json::Int(5)),
        ("fields", Json::Arr(vec![s("name"), Json::Int(3), s("state")])),
    ]);
    match parse_tool_call("list_torrents", &args).unwrap() {
        ToolCall::ListTorrents { search, summary, fields, limit, .. } => {
            assert_eq!(search.as_deref(), Some("ubuntu"));
            assert!(summary);
            assert_eq!(fields, Some(vec!["name".to_string(), "state".to_string()]));
            assert_eq!(limit, Some(5));
        }
        other => panic!("unexpected {:?}", other),
    }
    match parse_tool_call("list_torrents", &obj(vec![])).unwrap() {
        ToolCall::ListTorrents { search, summary, fields, .. } => {
            assert!(search.is_none());
            assert!(!summary);
            assert!(fields.is_none());
        }
        other => panic!("unexpected {:?}", other),
    }
}

#[test]
fn search_ignores_ascii_case() {
    assert!(holds_search("Ubuntu 24.04 Desktop", "ubuntu"));
    assert!(holds_search("Ben 10 - S01", "ben 10"));
    assert!(!holds_search("Debian", "ubuntu"));
    assert!(holds_search("anything", ""));
    assert!(!holds_search("ab", "abc"));
    let names = vec!["Ubuntu ISO".to_string(), "Fedora".to_string(), "xUBUNTUx".to_string()];
    assert_eq!(search_keeps(&names, Some("ubuntu")), vec![true, false, true]);
    assert_eq!(search_keeps(&names, None), vec![true, true, true]);
    assert_eq!(search_keeps(&names, Some("xyznonexistenttorrent999")), vec![false, false, false]);
}

#[test]
fn summary_table_text() {
    let rows = vec![SummaryRow {
        name: "Ubuntu ISO".to_string(),
        progress: "50.0".to_string(),
        state: "downloading".to_string(),
        hash: "abc".to_string(),
    }];
    assert_eq!(
        summary_table(&rows),
        "Found 1 torrents\nName | Prog % | State | Hash\n-----|--------|-------|-----\nUbuntu ISO | 50.0 | downloading | abc\n"
    );
    let empty = summary_table(&Vec::new());
    assert!(empty.contains("Found 0 torrents"));
    for line in summary_table(&rows).lines().skip(3) {
        assert!(line.to_lowercase().contains("ubuntu"));
    }
}

#[test]
fn chosen_fields_only() {
    let t = obj(vec![("hash", s("h1")), ("name", s("A")), ("progress", Json::Num("0.5".to_string())), ("state", s("uploading")), ("dlspeed", Json::Int(0))]);
    let fields = vec!["name".to_string(), "progress".to_string(), "state".to_string()];
    let listing = fields_listing(vec![t], &fields);
    assert!(matches!(listing.get("total"), Some(Json::Int(1))));
    match listing.get("torrents") {
        Some(Json::Arr(items)) => {
            assert_eq!(items.len(), 1);
            assert!(items[0].get("name").is_some());
            assert!(items[0].get("progress").is_some());
            assert!(items[0].get("state").is_some());
            assert!(items[0].get("hash").is_none());
            assert!(items[0].get("dlspeed").is_none());
        }
        other => panic!("unexpected {:?}", other),
    }
}

#[test]
fn listing_modes() {
    assert_eq!(listing_mode(true, true), ListingMode::Table);
    assert_eq!(listing_mode(false, true), ListingMode::Fields);
    assert_eq!(listing_mode(false, false), ListingMode::Full);
}
