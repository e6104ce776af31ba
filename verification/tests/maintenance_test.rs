use qbittorrent_mcp_rs::server::maintenance::{
    compile_pattern, rename_plan, renamed_message, select_for_cleanup, CleanupCandidate, cleaned_message,
    nothing_cleaned_message, duplicate_groups, no_duplicates_message, join,
};

#[test]
fn mass_rename_plan() {
    let p = compile_pattern(r"(.*)\.(mp4|mkv)").unwrap();
    let names = vec!["a.mp4".to_string(), "b.mkv".to_string(), "c.txt".to_string()];
    let plan = rename_plan(&p, &names, "video_$1.$2");
    assert_eq!(plan, vec![
        ("a.mp4".to_string(), "video_a.mp4".to_string()),
        ("b.mkv".to_string(), "video_b.mkv".to_string()),
    ]);
    assert_eq!(renamed_message(plan.len()), "Successfully renamed 2 files.");
}

#[test]
fn unchanged_names_are_not_renamed() {
    let p = compile_pattern("x").unwrap();
    let names = vec!["abc".to_string(), "xyz".to_string()];
    assert_eq!(rename_plan(&p, &names, "x"), Vec::<(String, String)>::new());
}

#[test]
fn invalid_pattern_is_an_error() {
    let e = compile_pattern("(unclosed").unwrap_err();
    assert!(e.contains("unclosed"));
}

fn candidate(hash: &str, completion_on: i64, ratio_reached: bool) -> CleanupCandidate {
    CleanupCandidate { hash: hash.to_string(), completion_on, ratio_reached }
}

#[test]
fn cleanup_by_ratio() {
    let cs = vec![candidate("a", 0, true), candidate("b", 0, false)];
    let chosen = select_for_cleanup(&cs, true, None, 1_000_000);
    assert_eq!(chosen, vec!["a".to_string()]);
    assert_eq!(cleaned_message(chosen.len()), "Successfully cleaned up 1 torrents.");
}

#[test]
fn cleanup_by_age() {
    let now = 100 * 86400;
    let cs = vec![candidate("old", now - 10 * 86400, false), candidate("new", now - 3600, false), candidate("unknown", 0, false)];
    assert_eq!(select_for_cleanup(&cs, false, Some(1), now), vec!["old".to_string()]);
}

#[test]
fn cleanup_needs_a_criterion() {
    let cs = vec![candidate("a", 5, true)];
    assert!(select_for_cleanup(&cs, false, None, 1_000_000).is_empty());
    assert_eq!(nothing_cleaned_message(), "No torrents matched the cleanup criteria.");
}

#[test]
fn duplicates_by_name() {
    let names = vec!["Ubuntu".to_string(), "Arch".to_string(), "Ubuntu".to_string(), "Arch".to_string(), "Solo".to_string()];
    let groups = duplicate_groups(&names);
    assert_eq!(groups.len(), 2);
    assert_eq!(groups[0].name, "Ubuntu");
    assert_eq!(groups[0].indices, vec![0, 2]);
    assert_eq!(groups[1].name, "Arch");
    assert_eq!(groups[1].indices, vec![1, 3]);
    assert!(duplicate_groups(&vec!["x".to_string()]).is_empty());
    assert_eq!(no_duplicates_message(), "No duplicate torrents found.");
}

#[test]
fn joining() {
    assert_eq!(join(&vec!["a".to_string(), "b".to_string()], "|"), "a|b");
    assert_eq!(join(&Vec::new(), "|"), "");
}
