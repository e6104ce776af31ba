use qbittorrent_mcp_rs::json::Json;
use qbittorrent_mcp_rs::models::{SearchResult, SearchResultsResponse};
use qbittorrent_mcp_rs::server::mcp::McpState;
use qbittorrent_mcp_rs::server::polling::{
    check_wait, WaitCheck, keep_waiting, reached_text, timeout_text, timeout_text_with_status, not_found_text,
    after_search_poll, search_poll_count, FinishWatch, TorrentUpdate,
};

#[test]
fn waiting_for_a_status() {
    assert!(matches!(check_wait("uploading", &vec!["uploading".to_string()]), WaitCheck::Reached));
    assert!(matches!(check_wait("uploading", &Vec::new()), WaitCheck::NotFound));
    match check_wait("uploading", &vec!["downloading".to_string(), "uploading".to_string()]) {
        WaitCheck::Pending(s) => assert_eq!(s, "downloading"),
        other => panic!("unexpected {:?}", other),
    }
    assert!(keep_waiting(0, 1));
    assert!(!keep_waiting(1, 1));
    assert_eq!(reached_text("uploading"), "Torrent reached target status: uploading");
    assert_eq!(timeout_text("uploading"), "Timed out waiting for status uploading");
    assert_eq!(timeout_text_with_status("uploading", "stalledDL"), "Timed out waiting for status uploading. Current status: stalledDL");
    assert_eq!(not_found_text("abc"), "Torrent not found: abc");
}

fn hit(name: &str) -> SearchResult {
    SearchResult { file_name: name.to_string(), file_url: "magnet:...".to_string(), file_size: 100, nb_seeders: 1, nb_leechers: 2, site_url: "http://example.com".to_string() }
}

#[test]
fn search_polling() {
    assert_eq!(search_poll_count(), 5);
    let (kept, stop) = after_search_poll(Vec::new(), Some(SearchResultsResponse { results: vec![hit("a")], status: "Running".to_string(), total: 1 }));
    assert_eq!(kept.len(), 1);
    assert!(!stop);
    let (kept, stop) = after_search_poll(kept, None);
    assert_eq!(kept[0].file_name, "a");
    assert!(!stop);
    let (kept, stop) = after_search_poll(kept, Some(SearchResultsResponse { results: vec![hit("b"), hit("c")], status: "Stopped".to_string(), total: 2 }));
    assert_eq!(kept.len(), 2);
    assert!(stop);
}

fn update(hash: &str, name: Option<&str>, state: Option<&str>, complete: bool) -> TorrentUpdate {
    TorrentUpdate { hash: hash.to_string(), name: name.map(|n| n.to_string()), state: state.map(|s| s.to_string()), progress_complete: complete }
}

fn member(j: &Json, key: &str) -> String {
    match j.get(key) {
        Some(Json::Str(s)) => s.clone(),
        other => panic!("no {}: {:?}", key, other),
    }
}

#[test]
fn finished_torrents_are_announced_once() {
    let mut state = McpState::new(false);
    let mut watch = FinishWatch::new();
    let first = vec![
        update("h1", Some("Ubuntu"), Some("downloading"), true),
        update("h2", None, Some("stalledUP"), false),
        update("h3", Some("Arch"), Some("downloading"), false),
    ];
    watch.observe(&mut state, "default", 7, &first);
    assert_eq!(watch.last_rid, 7);
    let q = &state.notification_queue;
    assert_eq!(q.len(), 4);
    assert_eq!(q[0].method, "notifications/torrent_finished");
    let p = q[0].params.as_ref().unwrap();
    assert_eq!(member(p, "instance"), "default");
    assert_eq!(member(p, "hash"), "h1");
    assert_eq!(member(p, "name"), "Ubuntu");
    assert_eq!(q[1].method, "notifications/resources/updated");
    assert_eq!(member(q[1].params.as_ref().unwrap(), "uri"), "qbittorrent://default/torrents");
    assert_eq!(member(q[2].params.as_ref().unwrap(), "name"), "h2");

    let second = vec![update("h1", Some("Ubuntu"), Some("uploading"), true), update("h3", Some("Arch"), Some("queuedUP"), false)];
    watch.observe(&mut state, "default", 8, &second);
    assert_eq!(state.notification_queue.len(), 6);
    assert_eq!(member(state.notification_queue[4].params.as_ref().unwrap(), "hash"), "h3");
}
