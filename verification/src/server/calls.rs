//! The tools an agent can call: reading the arguments of a call, and the
//! replies of the tools that only perform an action.
use vstd::prelude::*;
use crate::json::Json;
use crate::text::{owned, cat, same};
use crate::cli::opt_view;
use crate::server::mcp::{str_member, bool_member, int_member, number_member, get_str, get_bool, get_int, has_number, select_instance, chosen_instance};
use crate::server::maintenance::{Pattern, compile_pattern, pattern_error, names_view};
use crate::server::listing::{fields_member, get_fields};

verus! {

/// Compact JSON text of the JSON document `text` (`serde_json::from_str`
/// into a `serde_json::Value`, then `to_string`), or the text of the parse
/// error.
pub uninterp spec fn compact_json(text: Seq<char>) -> Result<Seq<char>, Seq<char>>;

/// Reads `text` as JSON with `serde_json::from_str::<serde_json::Value>` and
/// writes it back with `to_string`; on failure the message is the error's
/// text. The contract names the outcome `compact_json`.
#[verifier::external_body]
pub fn normalize_json(text: &str) -> (r: Result<String, String>)
    ensures
        match r {
            Ok(t) => compact_json(text@) == Ok::<Seq<char>, Seq<char>>(t@),
            Err(m) => compact_json(text@) == Err::<Seq<char>, Seq<char>>(m@),
        },
{
    match serde_json::from_str::<serde_json::Value>(text) {
        Ok(v) => Ok(v.to_string()),
        Err(e) => Err(e.to_string()),
    }
}

/// Which severities of the main log to ask for.
#[derive(Debug, Clone, Copy, PartialEq, Eq, Structural)]
pub struct LogLevels {
    pub normal: bool,
    pub info: bool,
    pub warning: bool,
    pub critical: bool,
}

/// The severities for a severity filter: `info`, `warning` or `critical`
/// alone, else all of them.
pub open spec fn log_levels(severity: Option<Seq<char>>) -> LogLevels {
    if severity == Some("info"@) {
        LogLevels { normal: false, info: true, warning: false, critical: false }
    } else if severity == Some("warning"@) {
        LogLevels { normal: false, info: false, warning: true, critical: false }
    } else if severity == Some("critical"@) {
        LogLevels { normal: false, info: false, warning: false, critical: true }
    } else {
        LogLevels { normal: true, info: true, warning: true, critical: true }
    }
}

fn levels_for(severity: Option<String>) -> (r: LogLevels)
    ensures
        r == log_levels(opt_view(severity)),
{
    match severity {
        Some(s) => {
            if same(s.as_str(), "info") {
                LogLevels { normal: false, info: true, warning: false, critical: false }
            } else if same(s.as_str(), "warning") {
                LogLevels { normal: false, info: false, warning: true, critical: false }
            } else if same(s.as_str(), "critical") {
                LogLevels { normal: false, info: false, warning: false, critical: true }
            } else {
                LogLevels { normal: true, info: true, warning: true, critical: true }
            }
        },
        None => LogLevels { normal: true, info: true, warning: true, critical: true },
    }
}

/// The time to wait for a status, in seconds: the given one (60 when not
/// given) brought into `1..=300`.
pub open spec fn clamp_timeout(given: Option<i64>) -> i64 {
    let t = match given { Some(t) => t, None => 60 };
    if t < 1 { 1 } else if t > 300 { 300 } else { t }
}

/// The wait lasts the given time when it lies in `1..=300` seconds, the
/// nearest end of that range otherwise, and 60 seconds when none is given.
pub proof fn timeout_is_clamped(t: i64)
    ensures
        clamp_timeout(None) == 60,
        1 <= t <= 300 ==> clamp_timeout(Some(t)) == t,
        t < 1 ==> clamp_timeout(Some(t)) == 1,
        t > 300 ==> clamp_timeout(Some(t)) == 300,
{
}

pub(crate) fn timeout_of(given: Option<i64>) -> (r: i64)
    ensures
        r == clamp_timeout(given),
        1 <= r <= 300,
        given is None ==> r == 60,
        given is Some && 1 <= given->0 <= 300 ==> r == given->0,
        given is Some && given->0 < 1 ==> r == 1,
        given is Some && given->0 > 300 ==> r == 300,
{
    let t = match given { Some(t) => t, None => 60 };
    if t < 1 { 1 } else if t > 300 { 300 } else { t }
}

/// A tool call with its arguments read.
#[derive(Debug)]
#[allow(inconsistent_fields)]
pub enum ToolCall {
    ShowAllTools,
    ListTorrents { filter: Option<String>, category: Option<String>, tag: Option<String>, sort: Option<String>, reverse: Option<bool>, limit: Option<i64>, offset: Option<i64>, search: Option<String>, summary: bool, fields: Option<Vec<String>> },
    AddTorrent { url: String, save_path: Option<String>, category: Option<String> },
    PauseTorrent { hash: String },
    ResumeTorrent { hash: String },
    DeleteTorrent { hash: String, delete_files: bool },
    ReannounceTorrent { hash: String },
    RecheckTorrent { hash: String },
    GetTorrentFiles { hash: String },
    GetTorrentProperties { hash: String },
    CreateCategory { name: String, save_path: String },
    SetTorrentCategory { hashes: String, category: String },
    GetCategories,
    AddTorrentTags { hashes: String, tags: String },
    WaitForTorrentStatus { hash: String, target_status: String, timeout_seconds: i64 },
    CleanupCompleted { min_ratio_given: bool, max_age_days: Option<i64>, delete_files: bool },
    MassRename { hash: String, pattern: Pattern, replacement: String },
    FindDuplicates,
    SetTorrentShareLimits { hashes: String, seeding_time_limit: i64, inactive_seeding_time_limit: Option<i64> },
    SetTorrentSpeedLimits { hashes: String, dl_limit: Option<i64>, up_limit: Option<i64> },
    ToggleSequentialDownload { hashes: String },
    ToggleFirstLastPiecePriority { hashes: String },
    SetForceStart { hashes: String, value: bool },
    SetSuperSeeding { hashes: String, value: bool },
    AddTrackers { hashes: String, urls: String },
    EditTracker { hash: String, orig_url: String, new_url: String },
    RemoveTrackers { hashes: String, urls: String },
    RenameFolder { hash: String, old_path: String, new_path: String },
    SetFilePriority { hash: String, id: String, priority: i32 },
    RemoveCategories { categories: String },
    RemoveTags { hashes: String, tags: String },
    CreateTags { tags: String },
    DeleteTags { tags: String },
    SearchTorrents { query: String, category: Option<String> },
    InstallSearchPlugin { url: String },
    UninstallSearchPlugin { name: String },
    EnableSearchPlugin { name: String, enable: bool },
    UpdateSearchPlugins,
    GetSearchPlugins,
    AddRssFeed { url: String, path: String },
    GetRssFeeds,
    SetRssRule { name: String, definition: String },
    GetRssRules,
    MoveRssItem { item_path: String, dest_path: String },
    GetGlobalTransferInfo,
    SetGlobalTransferLimits { dl_limit: Option<i64>, up_limit: Option<i64> },
    ToggleAlternativeSpeedLimits,
    GetSpeedLimitsMode,
    BanPeers { peers: String },
    GetAppPreferences,
    SetAppPreferences { preferences_json: String },
    GetMainLog { severity: LogLevels, last_id: Option<i64> },
    GetPeerLog { last_id: Option<i64> },
    GetAppVersion,
    GetBuildInfo,
    ShutdownApp,
}

/// Whether the server has a tool named `name` (besides `show_all_tools`).
pub open spec fn known_tool(name: Seq<char>) -> bool {
    name == "list_torrents"@
        || name == "add_torrent"@
        || name == "pause_torrent"@
        || name == "resume_torrent"@
        || name == "delete_torrent"@
        || name == "reannounce_torrent"@
        || name == "recheck_torrent"@
        || name == "get_torrent_files"@
        || name == "get_torrent_properties"@
        || name == "create_category"@
        || name == "set_torrent_category"@
        || name == "get_categories"@
        || name == "add_torrent_tags"@
        || name == "wait_for_torrent_status"@
        || name == "cleanup_completed"@
        || name == "mass_rename"@
        || name == "find_duplicates"@
        || name == "set_torrent_share_limits"@
        || name == "set_torrent_speed_limits"@
        || name == "toggle_sequential_download"@
        || name == "toggle_first_last_piece_priority"@
        || name == "set_force_start"@
        || name == "set_super_seeding"@
        || name == "add_trackers"@
        || name == "edit_tracker"@
        || name == "remove_trackers"@
        || name == "rename_folder"@
        || name == "set_file_priority"@
        || name == "remove_categories"@
        || name == "remove_tags"@
        || name == "create_tags"@
        || name == "delete_tags"@
        || name == "search_torrents"@
        || name == "install_search_plugin"@
        || name == "uninstall_search_plugin"@
        || name == "enable_search_plugin"@
        || name == "update_search_plugins"@
        || name == "get_search_plugins"@
        || name == "add_rss_feed"@
        || name == "get_rss_feeds"@
        || name == "set_rss_rule"@
        || name == "get_rss_rules"@
        || name == "move_rss_item"@
        || name == "get_global_transfer_info"@
        || name == "set_global_transfer_limits"@
        || name == "toggle_alternative_speed_limits"@
        || name == "get_speed_limits_mode"@
        || name == "ban_peers"@
        || name == "get_app_preferences"@
        || name == "set_app_preferences"@
        || name == "get_main_log"@
        || name == "get_peer_log"@
        || name == "get_app_version"@
        || name == "get_build_info"@
        || name == "shutdown_app"@
}

/// The error of a tool call whose instance was found: `Unknown tool: ..` for a
/// name that is no tool, else `Missing ..` for the first required argument
/// that is absent or of the wrong type, else the error of reading the
/// argument that must be a pattern or JSON text.
pub open spec fn tool_args_error(name: Seq<char>, args: Json) -> Option<Seq<char>> {
    if !known_tool(name) {
        Some("Unknown tool: "@ + name)
    } else if name == "list_torrents"@ {
        None
    } else if name == "add_torrent"@ {
        if str_member(args, "url"@) is None { Some("Missing "@ + "url"@) } else { None }
    } else if name == "pause_torrent"@ {
        if str_member(args, "hash"@) is None { Some("Missing "@ + "hash"@) } else { None }
    } else if name == "resume_torrent"@ {
        if str_member(args, "hash"@) is None { Some("Missing "@ + "hash"@) } else { None }
    } else if name == "delete_torrent"@ {
        if str_member(args, "hash"@) is None { Some("Missing "@ + "hash"@) } else { None }
    } else if name == "reannounce_torrent"@ {
        if str_member(args, "hash"@) is None { Some("Missing "@ + "hash"@) } else { None }
    } else if name == "recheck_torrent"@ {
        if str_member(args, "hash"@) is None { Some("Missing "@ + "hash"@) } else { None }
    } else if name == "get_torrent_files"@ {
        if str_member(args, "hash"@) is None { Some("Missing "@ + "hash"@) } else { None }
    } else if name == "get_torrent_properties"@ {
        if str_member(args, "hash"@) is None { Some("Missing "@ + "hash"@) } else { None }
    } else if name == "create_category"@ {
        if str_member(args, "name"@) is None { Some("Missing "@ + "name"@) } else if str_member(args, "save_path"@) is None { Some("Missing "@ + "save_path"@) } else { None }
    } else if name == "set_torrent_category"@ {
        if str_member(args, "hashes"@) is None { Some("Missing "@ + "hashes"@) } else if str_member(args, "category"@) is None { Some("Missing "@ + "category"@) } else { None }
    } else if name == "get_categories"@ {
        None
    } else if name == "add_torrent_tags"@ {
        if str_member(args, "hashes"@) is None { Some("Missing "@ + "hashes"@) } else if str_member(args, "tags"@) is None { Some("Missing "@ + "tags"@) } else { None }
    } else if name == "wait_for_torrent_status"@ {
        if str_member(args, "hash"@) is None { Some("Missing "@ + "hash"@) } else if str_member(args, "target_status"@) is None { Some("Missing "@ + "target_status"@) } else { None }
    } else if name == "cleanup_completed"@ {
        None
    } else if name == "mass_rename"@ {
        if str_member(args, "hash"@) is None { Some("Missing "@ + "hash"@) } else if str_member(args, "pattern"@) is None { Some("Missing "@ + "pattern"@) } else if str_member(args, "replacement"@) is None { Some("Missing "@ + "replacement"@) } else { pattern_error(str_member(args, "pattern"@)->0) }
    } else if name == "find_duplicates"@ {
        None
    } else if name == "set_torrent_share_limits"@ {
        if str_member(args, "hashes"@) is None { Some("Missing "@ + "hashes"@) } else if !number_member(args, "ratio_limit"@) { Some("Missing "@ + "ratio_limit"@) } else if int_member(args, "seeding_time_limit"@) is None { Some("Missing "@ + "seeding_time_limit"@) } else { None }
    } else if name == "set_torrent_speed_limits"@ {
        if str_member(args, "hashes"@) is None { Some("Missing "@ + "hashes"@) } else { None }
    } else if name == "toggle_sequential_download"@ {
        if str_member(args, "hashes"@) is None { Some("Missing "@ + "hashes"@) } else { None }
    } else if name == "toggle_first_last_piece_priority"@ {
        if str_member(args, "hashes"@) is None { Some("Missing "@ + "hashes"@) } else { None }
    } else if name == "set_force_start"@ {
        if str_member(args, "hashes"@) is None { Some("Missing "@ + "hashes"@) } else if bool_member(args, "value"@) is None { Some("Missing "@ + "value"@) } else { None }
    } else if name == "set_super_seeding"@ {
        if str_member(args, "hashes"@) is None { Some("Missing "@ + "hashes"@) } else if bool_member(args, "value"@) is None { Some("Missing "@ + "value"@) } else { None }
    } else if name == "add_trackers"@ {
        if str_member(args, "hashes"@) is None { Some("Missing "@ + "hashes"@) } else if str_member(args, "urls"@) is None { Some("Missing "@ + "urls"@) } else { None }
    } else if name == "edit_tracker"@ {
        if str_member(args, "hash"@) is None { Some("Missing "@ + "hash"@) } else if str_member(args, "orig_url"@) is None { Some("Missing "@ + "orig_url"@) } else if str_member(args, "new_url"@) is None { Some("Missing "@ + "new_url"@) } else { None }
    } else if name == "remove_trackers"@ {
        if str_member(args, "hashes"@) is None { Some("Missing "@ + "hashes"@) } else if str_member(args, "urls"@) is None { Some("Missing "@ + "urls"@) } else { None }
    } else if name == "rename_folder"@ {
        if str_member(args, "hash"@) is None { Some("Missing "@ + "hash"@) } else if str_member(args, "old_path"@) is None { Some("Missing "@ + "old_path"@) } else if str_member(args, "new_path"@) is None { Some("Missing "@ + "new_path"@) } else { None }
    } else if name == "set_file_priority"@ {
        if str_member(args, "hash"@) is None { Some("Missing "@ + "hash"@) } else if str_member(args, "id"@) is None { Some("Missing "@ + "id"@) } else if int_member(args, "priority"@) is None { Some("Missing "@ + "priority"@) } else { None }
    } else if name == "remove_categories"@ {
        if str_member(args, "categories"@) is None { Some("Missing "@ + "categories"@) } else { None }
    } else if name == "remove_tags"@ {
        if str_member(args, "hashes"@) is None { Some("Missing "@ + "hashes"@) } else if str_member(args, "tags"@) is None { Some("Missing "@ + "tags"@) } else { None }
    } else if name == "create_tags"@ {
        if str_member(args, "tags"@) is None { Some("Missing "@ + "tags"@) } else { None }
    } else if name == "delete_tags"@ {
        if str_member(args, "tags"@) is None { Some("Missing "@ + "tags"@) } else { None }
    } else if name == "search_torrents"@ {
        if str_member(args, "query"@) is None { Some("Missing "@ + "query"@) } else { None }
    } else if name == "install_search_plugin"@ {
        if str_member(args, "url"@) is None { Some("Missing "@ + "url"@) } else { None }
    } else if name == "uninstall_search_plugin"@ {
        if str_member(args, "name"@) is None { Some("Missing "@ + "name"@) } else { None }
    } else if name == "enable_search_plugin"@ {
        if str_member(args, "name"@) is None { Some("Missing "@ + "name"@) } else if bool_member(args, "enable"@) is None { Some("Missing "@ + "enable"@) } else { None }
    } else if name == "update_search_plugins"@ {
        None
    } else if name == "get_search_plugins"@ {
        None
    } else if name == "add_rss_feed"@ {
        if str_member(args, "url"@) is None { Some("Missing "@ + "url"@) } else if str_member(args, "path"@) is None { Some("Missing "@ + "path"@) } else { None }
    } else if name == "get_rss_feeds"@ {
        None
    } else if name == "set_rss_rule"@ {
        if str_member(args, "name"@) is None { Some("Missing "@ + "name"@) } else if str_member(args, "definition"@) is None { Some("Missing "@ + "definition"@) } else { None }
    } else if name == "get_rss_rules"@ {
        None
    } else if name == "move_rss_item"@ {
        if str_member(args, "item_path"@) is None { Some("Missing "@ + "item_path"@) } else if str_member(args, "dest_path"@) is None { Some("Missing "@ + "dest_path"@) } else { None }
    } else if name == "get_global_transfer_info"@ {
        None
    } else if name == "set_global_transfer_limits"@ {
        None
    } else if name == "toggle_alternative_speed_limits"@ {
        None
    } else if name == "get_speed_limits_mode"@ {
        None
    } else if name == "ban_peers"@ {
        if str_member(args, "peers"@) is None { Some("Missing "@ + "peers"@) } else { None }
    } else if name == "get_app_preferences"@ {
        None
    } else if name == "set_app_preferences"@ {
        if str_member(args, "preferences"@) is None { Some("Missing "@ + "preferences"@) } else { match compact_json(str_member(args, "preferences"@)->0) { Ok(_) => None, Err(m) => Some(m) } }
    } else if name == "get_main_log"@ {
        None
    } else if name == "get_peer_log"@ {
        None
    } else if name == "get_app_version"@ {
        None
    } else if name == "get_build_info"@ {
        None
    } else {
        None
    }
}

/// Whether `c` is the call of `tool` with the arguments `args`.
pub open spec fn reads_call(c: ToolCall, tool: Seq<char>, args: Json) -> bool {
    match c {
        ToolCall::ShowAllTools => false,
        ToolCall::ListTorrents { filter, category, tag, sort, reverse, limit, offset, search, summary, fields } => tool == "list_torrents"@
            && str_member(args, "filter"@) == opt_view(filter)
            && str_member(args, "category"@) == opt_view(category)
            && str_member(args, "tag"@) == opt_view(tag)
            && str_member(args, "sort"@) == opt_view(sort)
            && bool_member(args, "reverse"@) == reverse
            && int_member(args, "limit"@) == limit
            && int_member(args, "offset"@) == offset
            && str_member(args, "search"@) == opt_view(search)
            && summary == (bool_member(args, "summary"@) == Some(true))
            && fields_member(args) == match fields {
                Some(v) => Some(names_view(v@)),
                None => None::<Seq<Seq<char>>>,
            },
        ToolCall::AddTorrent { url, save_path, category } => tool == "add_torrent"@
            && str_member(args, "url"@) == Some(url@)
            && str_member(args, "save_path"@) == opt_view(save_path)
            && str_member(args, "category"@) == opt_view(category),
        ToolCall::PauseTorrent { hash } => tool == "pause_torrent"@
            && str_member(args, "hash"@) == Some(hash@),
        ToolCall::ResumeTorrent { hash } => tool == "resume_torrent"@
            && str_member(args, "hash"@) == Some(hash@),
        ToolCall::DeleteTorrent { hash, delete_files } => tool == "delete_torrent"@
            && str_member(args, "hash"@) == Some(hash@)
            && delete_files == (bool_member(args, "delete_files"@) == Some(true)),
        ToolCall::ReannounceTorrent { hash } => tool == "reannounce_torrent"@
            && str_member(args, "hash"@) == Some(hash@),
        ToolCall::RecheckTorrent { hash } => tool == "recheck_torrent"@
            && str_member(args, "hash"@) == Some(hash@),
        ToolCall::GetTorrentFiles { hash } => tool == "get_torrent_files"@
            && str_member(args, "hash"@) == Some(hash@),
        ToolCall::GetTorrentProperties { hash } => tool == "get_torrent_properties"@
            && str_member(args, "hash"@) == Some(hash@),
        ToolCall::CreateCategory { name, save_path } => tool == "create_category"@
            && str_member(args, "name"@) == Some(name@)
            && str_member(args, "save_path"@) == Some(save_path@),
        ToolCall::SetTorrentCategory { hashes, category } => tool == "set_torrent_category"@
            && str_member(args, "hashes"@) == Some(hashes@)
            && str_member(args, "category"@) == Some(category@),
        ToolCall::GetCategories => tool == "get_categories"@,
        ToolCall::AddTorrentTags { hashes, tags } => tool == "add_torrent_tags"@
            && str_member(args, "hashes"@) == Some(hashes@)
            && str_member(args, "tags"@) == Some(tags@),
        ToolCall::WaitForTorrentStatus { hash, target_status, timeout_seconds } => tool == "wait_for_torrent_status"@
            && str_member(args, "hash"@) == Some(hash@)
            && str_member(args, "target_status"@) == Some(target_status@)
            && timeout_seconds == clamp_timeout(int_member(args, "timeout_seconds"@)),
        ToolCall::CleanupCompleted { min_ratio_given, max_age_days, delete_files } => tool == "cleanup_completed"@
            && min_ratio_given == number_member(args, "min_ratio"@)
            && int_member(args, "max_age_days"@) == max_age_days
            && delete_files == (bool_member(args, "delete_files"@) == Some(true)),
        ToolCall::MassRename { hash, pattern, replacement } => tool == "mass_rename"@
            && str_member(args, "hash"@) == Some(hash@)
            && str_member(args, "pattern"@) == Some(pattern.source())
            && str_member(args, "replacement"@) == Some(replacement@),
        ToolCall::FindDuplicates => tool == "find_duplicates"@,
        ToolCall::SetTorrentShareLimits { hashes, seeding_time_limit, inactive_seeding_time_limit } => tool == "set_torrent_share_limits"@
            && str_member(args, "hashes"@) == Some(hashes@)
            && int_member(args, "seeding_time_limit"@) == Some(seeding_time_limit)
            && int_member(args, "inactive_seeding_time_limit"@) == inactive_seeding_time_limit,
        ToolCall::SetTorrentSpeedLimits { hashes, dl_limit, up_limit } => tool == "set_torrent_speed_limits"@
            && str_member(args, "hashes"@) == Some(hashes@)
            && int_member(args, "dl_limit"@) == dl_limit
            && int_member(args, "up_limit"@) == up_limit,
        ToolCall::ToggleSequentialDownload { hashes } => tool == "toggle_sequential_download"@
            && str_member(args, "hashes"@) == Some(hashes@),
        ToolCall::ToggleFirstLastPiecePriority { hashes } => tool == "toggle_first_last_piece_priority"@
            && str_member(args, "hashes"@) == Some(hashes@),
        ToolCall::SetForceStart { hashes, value } => tool == "set_force_start"@
            && str_member(args, "hashes"@) == Some(hashes@)
            && bool_member(args, "value"@) == Some(value),
        ToolCall::SetSuperSeeding { hashes, value } => tool == "set_super_seeding"@
            && str_member(args, "hashes"@) == Some(hashes@)
            && bool_member(args, "value"@) == Some(value),
        ToolCall::AddTrackers { hashes, urls } => tool == "add_trackers"@
            && str_member(args, "hashes"@) == Some(hashes@)
            && str_member(args, "urls"@) == Some(urls@),
        ToolCall::EditTracker { hash, orig_url, new_url } => tool == "edit_tracker"@
            && str_member(args, "hash"@) == Some(hash@)
            && str_member(args, "orig_url"@) == Some(orig_url@)
            && str_member(args, "new_url"@) == Some(new_url@),
        ToolCall::RemoveTrackers { hashes, urls } => tool == "remove_trackers"@
            && str_member(args, "hashes"@) == Some(hashes@)
            && str_member(args, "urls"@) == Some(urls@),
        ToolCall::RenameFolder { hash, old_path, new_path } => tool == "rename_folder"@
            && str_member(args, "hash"@) == Some(hash@)
            && str_member(args, "old_path"@) == Some(old_path@)
            && str_member(args, "new_path"@) == Some(new_path@),
        ToolCall::SetFilePriority { hash, id, priority } => tool == "set_file_priority"@
            && str_member(args, "hash"@) == Some(hash@)
            && str_member(args, "id"@) == Some(id@)
            && (int_member(args, "priority"@) matches Some(p) && priority == p as i32),
        ToolCall::RemoveCategories { categories } => tool == "remove_categories"@
            && str_member(args, "categories"@) == Some(categories@),
        ToolCall::RemoveTags { hashes, tags } => tool == "remove_tags"@
            && str_member(args, "hashes"@) == Some(hashes@)
            && str_member(args, "tags"@) == Some(tags@),
        ToolCall::CreateTags { tags } => tool == "create_tags"@
            && str_member(args, "tags"@) == Some(tags@),
        ToolCall::DeleteTags { tags } => tool == "delete_tags"@
            && str_member(args, "tags"@) == Some(tags@),
        ToolCall::SearchTorrents { query, category } => tool == "search_torrents"@
            && str_member(args, "query"@) == Some(query@)
            && str_member(args, "category"@) == opt_view(category),
        ToolCall::InstallSearchPlugin { url } => tool == "install_search_plugin"@
            && str_member(args, "url"@) == Some(url@),
        ToolCall::UninstallSearchPlugin { name } => tool == "uninstall_search_plugin"@
            && str_member(args, "name"@) == Some(name@),
        ToolCall::EnableSearchPlugin { name, enable } => tool == "enable_search_plugin"@
            && str_member(args, "name"@) == Some(name@)
            && bool_member(args, "enable"@) == Some(enable),
        ToolCall::UpdateSearchPlugins => tool == "update_search_plugins"@,
        ToolCall::GetSearchPlugins => tool == "get_search_plugins"@,
        ToolCall::AddRssFeed { url, path } => tool == "add_rss_feed"@
            && str_member(args, "url"@) == Some(url@)
            && str_member(args, "path"@) == Some(path@),
        ToolCall::GetRssFeeds => tool == "get_rss_feeds"@,
        ToolCall::SetRssRule { name, definition } => tool == "set_rss_rule"@
            && str_member(args, "name"@) == Some(name@)
            && str_member(args, "definition"@) == Some(definition@),
        ToolCall::GetRssRules => tool == "get_rss_rules"@,
        ToolCall::MoveRssItem { item_path, dest_path } => tool == "move_rss_item"@
            && str_member(args, "item_path"@) == Some(item_path@)
            && str_member(args, "dest_path"@) == Some(dest_path@),
        ToolCall::GetGlobalTransferInfo => tool == "get_global_transfer_info"@,
        ToolCall::SetGlobalTransferLimits { dl_limit, up_limit } => tool == "set_global_transfer_limits"@
            && int_member(args, "dl_limit"@) == dl_limit
            && int_member(args, "up_limit"@) == up_limit,
        ToolCall::ToggleAlternativeSpeedLimits => tool == "toggle_alternative_speed_limits"@,
        ToolCall::GetSpeedLimitsMode => tool == "get_speed_limits_mode"@,
        ToolCall::BanPeers { peers } => tool == "ban_peers"@
            && str_member(args, "peers"@) == Some(peers@),
        ToolCall::GetAppPreferences => tool == "get_app_preferences"@,
        ToolCall::SetAppPreferences { preferences_json } => tool == "set_app_preferences"@
            && compact_json(str_member(args, "preferences"@)->0) == Ok::<Seq<char>, Seq<char>>(preferences_json@),
        ToolCall::GetMainLog { severity, last_id } => tool == "get_main_log"@
            && severity == log_levels(str_member(args, "severity"@))
            && int_member(args, "last_id"@) == last_id,
        ToolCall::GetPeerLog { last_id } => tool == "get_peer_log"@
            && int_member(args, "last_id"@) == last_id,
        ToolCall::GetAppVersion => tool == "get_app_version"@,
        ToolCall::GetBuildInfo => tool == "get_build_info"@,
        ToolCall::ShutdownApp => tool == "shutdown_app"@,
    }
}

fn missing(key: &str) -> (r: String)
    ensures
        r@ == "Missing "@ + key@,
{
    cat("Missing ", key)
}

/// Reads the arguments of tool `name` (any tool but `show_all_tools`).
pub fn parse_tool_call(name: &str, args: &Json) -> (r: Result<ToolCall, String>)
    ensures
        match r {
            Ok(c) => tool_args_error(name@, *args) is None && reads_call(c, name@, *args),
            Err(m) => tool_args_error(name@, *args) == Some(m@),
        },
{
    if same(name, "list_torrents") {
        let filter = get_str(args, "filter");
        let category = get_str(args, "category");
        let tag = get_str(args, "tag");
        let sort = get_str(args, "sort");
        let reverse = get_bool(args, "reverse");
        let limit = get_int(args, "limit");
        let offset = get_int(args, "offset");
        let search = get_str(args, "search");
        let summary = match get_bool(args, "summary") {
            Some(b) => b,
            None => false,
        };
        let fields = get_fields(args);
        Ok(ToolCall::ListTorrents { filter, category, tag, sort, reverse, limit, offset, search, summary, fields })
    } else if same(name, "add_torrent") {
        let url = match get_str(args, "url") { Some(v) => v, None => { return Err(missing("url")); } };
        let save_path = get_str(args, "save_path");
        let category = get_str(args, "category");
        Ok(ToolCall::AddTorrent { url, save_path, category })
    } else if same(name, "pause_torrent") {
        let hash = match get_str(args, "hash") { Some(v) => v, None => { return Err(missing("hash")); } };
        Ok(ToolCall::PauseTorrent { hash })
    } else if same(name, "resume_torrent") {
        let hash = match get_str(args, "hash") { Some(v) => v, None => { return Err(missing("hash")); } };
        Ok(ToolCall::ResumeTorrent { hash })
    } else if same(name, "delete_torrent") {
        let hash = match get_str(args, "hash") { Some(v) => v, None => { return Err(missing("hash")); } };
        let delete_files = match get_bool(args, "delete_files") { Some(v) => v, None => false };
        Ok(ToolCall::DeleteTorrent { hash, delete_files })
    } else if same(name, "reannounce_torrent") {
        let hash = match get_str(args, "hash") { Some(v) => v, None => { return Err(missing("hash")); } };
        Ok(ToolCall::ReannounceTorrent { hash })
    } else if same(name, "recheck_torrent") {
        let hash = match get_str(args, "hash") { Some(v) => v, None => { return Err(missing("hash")); } };
        Ok(ToolCall::RecheckTorrent { hash })
    } else if same(name, "get_torrent_files") {
        let hash = match get_str(args, "hash") { Some(v) => v, None => { return Err(missing("hash")); } };
        Ok(ToolCall::GetTorrentFiles { hash })
    } else if same(name, "get_torrent_properties") {
        let hash = match get_str(args, "hash") { Some(v) => v, None => { return Err(missing("hash")); } };
        Ok(ToolCall::GetTorrentProperties { hash })
    } else if same(name, "create_category") {
        let name = match get_str(args, "name") { Some(v) => v, None => { return Err(missing("name")); } };
        let save_path = match get_str(args, "save_path") { Some(v) => v, None => { return Err(missing("save_path")); } };
        Ok(ToolCall::CreateCategory { name, save_path })
    } else if same(name, "set_torrent_category") {
        let hashes = match get_str(args, "hashes") { Some(v) => v, None => { return Err(missing("hashes")); } };
        let category = match get_str(args, "category") { Some(v) => v, None => { return Err(missing("category")); } };
        Ok(ToolCall::SetTorrentCategory { hashes, category })
    } else if same(name, "get_categories") {
        Ok(ToolCall::GetCategories)
    } else if same(name, "add_torrent_tags") {
        let hashes = match get_str(args, "hashes") { Some(v) => v, None => { return Err(missing("hashes")); } };
        let tags = match get_str(args, "tags") { Some(v) => v, None => { return Err(missing("tags")); } };
        Ok(ToolCall::AddTorrentTags { hashes, tags })
    } else if same(name, "wait_for_torrent_status") {
        let hash = match get_str(args, "hash") { Some(v) => v, None => { return Err(missing("hash")); } };
        let target_status = match get_str(args, "target_status") { Some(v) => v, None => { return Err(missing("target_status")); } };
        let timeout_seconds = timeout_of(get_int(args, "timeout_seconds"));
        Ok(ToolCall::WaitForTorrentStatus { hash, target_status, timeout_seconds })
    } else if same(name, "cleanup_completed") {
        let min_ratio_given = has_number(args, "min_ratio");
        let max_age_days = get_int(args, "max_age_days");
        let delete_files = match get_bool(args, "delete_files") { Some(v) => v, None => false };
        Ok(ToolCall::CleanupCompleted { min_ratio_given, max_age_days, delete_files })
    } else if same(name, "mass_rename") {
        let hash = match get_str(args, "hash") { Some(v) => v, None => { return Err(missing("hash")); } };
        let pattern = match get_str(args, "pattern") { Some(v) => v, None => { return Err(missing("pattern")); } };
        let replacement = match get_str(args, "replacement") { Some(v) => v, None => { return Err(missing("replacement")); } };
        let pattern = match compile_pattern(pattern.as_str()) { Ok(p) => p, Err(m) => { return Err(m); } };
        Ok(ToolCall::MassRename { hash, pattern, replacement })
    } else if same(name, "find_duplicates") {
        Ok(ToolCall::FindDuplicates)
    } else if same(name, "set_torrent_share_limits") {
        let hashes = match get_str(args, "hashes") { Some(v) => v, None => { return Err(missing("hashes")); } };
        if !has_number(args, "ratio_limit") { return Err(missing("ratio_limit")); }
        let seeding_time_limit = match get_int(args, "seeding_time_limit") { Some(v) => v, None => { return Err(missing("seeding_time_limit")); } };
        let inactive_seeding_time_limit = get_int(args, "inactive_seeding_time_limit");
        Ok(ToolCall::SetTorrentShareLimits { hashes, seeding_time_limit, inactive_seeding_time_limit })
    } else if same(name, "set_torrent_speed_limits") {
        let hashes = match get_str(args, "hashes") { Some(v) => v, None => { return Err(missing("hashes")); } };
        let dl_limit = get_int(args, "dl_limit");
        let up_limit = get_int(args, "up_limit");
        Ok(ToolCall::SetTorrentSpeedLimits { hashes, dl_limit, up_limit })
    } else if same(name, "toggle_sequential_download") {
        let hashes = match get_str(args, "hashes") { Some(v) => v, None => { return Err(missing("hashes")); } };
        Ok(ToolCall::ToggleSequentialDownload { hashes })
    } else if same(name, "toggle_first_last_piece_priority") {
        let hashes = match get_str(args, "hashes") { Some(v) => v, None => { return Err(missing("hashes")); } };
        Ok(ToolCall::ToggleFirstLastPiecePriority { hashes })
    } else if same(name, "set_force_start") {
        let hashes = match get_str(args, "hashes") { Some(v) => v, None => { return Err(missing("hashes")); } };
        let value = match get_bool(args, "value") { Some(v) => v, None => { return Err(missing("value")); } };
        Ok(ToolCall::SetForceStart { hashes, value })
    } else if same(name, "set_super_seeding") {
        let hashes = match get_str(args, "hashes") { Some(v) => v, None => { return Err(missing("hashes")); } };
        let value = match get_bool(args, "value") { Some(v) => v, None => { return Err(missing("value")); } };
        Ok(ToolCall::SetSuperSeeding { hashes, value })
    } else if same(name, "add_trackers") {
        let hashes = match get_str(args, "hashes") { Some(v) => v, None => { return Err(missing("hashes")); } };
        let urls = match get_str(args, "urls") { Some(v) => v, None => { return Err(missing("urls")); } };
        Ok(ToolCall::AddTrackers { hashes, urls })
    } else if same(name, "edit_tracker") {
        let hash = match get_str(args, "hash") { Some(v) => v, None => { return Err(missing("hash")); } };
        let orig_url = match get_str(args, "orig_url") { Some(v) => v, None => { return Err(missing("orig_url")); } };
        let new_url = match get_str(args, "new_url") { Some(v) => v, None => { return Err(missing("new_url")); } };
        Ok(ToolCall::EditTracker { hash, orig_url, new_url })
    } else if same(name, "remove_trackers") {
        let hashes = match get_str(args, "hashes") { Some(v) => v, None => { return Err(missing("hashes")); } };
        let urls = match get_str(args, "urls") { Some(v) => v, None => { return Err(missing("urls")); } };
        Ok(ToolCall::RemoveTrackers { hashes, urls })
    } else if same(name, "rename_folder") {
        let hash = match get_str(args, "hash") { Some(v) => v, None => { return Err(missing("hash")); } };
        let old_path = match get_str(args, "old_path") { Some(v) => v, None => { return Err(missing("old_path")); } };
        let new_path = match get_str(args, "new_path") { Some(v) => v, None => { return Err(missing("new_path")); } };
        Ok(ToolCall::RenameFolder { hash, old_path, new_path })
    } else if same(name, "set_file_priority") {
        let hash = match get_str(args, "hash") { Some(v) => v, None => { return Err(missing("hash")); } };
        let id = match get_str(args, "id") { Some(v) => v, None => { return Err(missing("id")); } };
        let priority = match get_int(args, "priority") { Some(v) => v as i32, None => { return Err(missing("priority")); } };
        Ok(ToolCall::SetFilePriority { hash, id, priority })
    } else if same(name, "remove_categories") {
        let categories = match get_str(args, "categories") { Some(v) => v, None => { return Err(missing("categories")); } };
        Ok(ToolCall::RemoveCategories { categories })
    } else if same(name, "remove_tags") {
        let hashes = match get_str(args, "hashes") { Some(v) => v, None => { return Err(missing("hashes")); } };
        let tags = match get_str(args, "tags") { Some(v) => v, None => { return Err(missing("tags")); } };
        Ok(ToolCall::RemoveTags { hashes, tags })
    } else if same(name, "create_tags") {
        let tags = match get_str(args, "tags") { Some(v) => v, None => { return Err(missing("tags")); } };
        Ok(ToolCall::CreateTags { tags })
    } else if same(name, "delete_tags") {
        let tags = match get_str(args, "tags") { Some(v) => v, None => { return Err(missing("tags")); } };
        Ok(ToolCall::DeleteTags { tags })
    } else if same(name, "search_torrents") {
        let query = match get_str(args, "query") { Some(v) => v, None => { return Err(missing("query")); } };
        let category = get_str(args, "category");
        Ok(ToolCall::SearchTorrents { query, category })
    } else if same(name, "install_search_plugin") {
        let url = match get_str(args, "url") { Some(v) => v, None => { return Err(missing("url")); } };
        Ok(ToolCall::InstallSearchPlugin { url })
    } else if same(name, "uninstall_search_plugin") {
        let name = match get_str(args, "name") { Some(v) => v, None => { return Err(missing("name")); } };
        Ok(ToolCall::UninstallSearchPlugin { name })
    } else if same(name, "enable_search_plugin") {
        let name = match get_str(args, "name") { Some(v) => v, None => { return Err(missing("name")); } };
        let enable = match get_bool(args, "enable") { Some(v) => v, None => { return Err(missing("enable")); } };
        Ok(ToolCall::EnableSearchPlugin { name, enable })
    } else if same(name, "update_search_plugins") {
        Ok(ToolCall::UpdateSearchPlugins)
    } else if same(name, "get_search_plugins") {
        Ok(ToolCall::GetSearchPlugins)
    } else if same(name, "add_rss_feed") {
        let url = match get_str(args, "url") { Some(v) => v, None => { return Err(missing("url")); } };
        let path = match get_str(args, "path") { Some(v) => v, None => { return Err(missing("path")); } };
        Ok(ToolCall::AddRssFeed { url, path })
    } else if same(name, "get_rss_feeds") {
        Ok(ToolCall::GetRssFeeds)
    } else if same(name, "set_rss_rule") {
        let name = match get_str(args, "name") { Some(v) => v, None => { return Err(missing("name")); } };
        let definition = match get_str(args, "definition") { Some(v) => v, None => { return Err(missing("definition")); } };
        Ok(ToolCall::SetRssRule { name, definition })
    } else if same(name, "get_rss_rules") {
        Ok(ToolCall::GetRssRules)
    } else if same(name, "move_rss_item") {
        let item_path = match get_str(args, "item_path") { Some(v) => v, None => { return Err(missing("item_path")); } };
        let dest_path = match get_str(args, "dest_path") { Some(v) => v, None => { return Err(missing("dest_path")); } };
        Ok(ToolCall::MoveRssItem { item_path, dest_path })
    } else if same(name, "get_global_transfer_info") {
        Ok(ToolCall::GetGlobalTransferInfo)
    } else if same(name, "set_global_transfer_limits") {
        let dl_limit = get_int(args, "dl_limit");
        let up_limit = get_int(args, "up_limit");
        Ok(ToolCall::SetGlobalTransferLimits { dl_limit, up_limit })
    } else if same(name, "toggle_alternative_speed_limits") {
        Ok(ToolCall::ToggleAlternativeSpeedLimits)
    } else if same(name, "get_speed_limits_mode") {
        Ok(ToolCall::GetSpeedLimitsMode)
    } else if same(name, "ban_peers") {
        let peers = match get_str(args, "peers") { Some(v) => v, None => { return Err(missing("peers")); } };
        Ok(ToolCall::BanPeers { peers })
    } else if same(name, "get_app_preferences") {
        Ok(ToolCall::GetAppPreferences)
    } else if same(name, "set_app_preferences") {
        let preferences_text = match get_str(args, "preferences") { Some(v) => v, None => { return Err(missing("preferences")); } };
        let preferences_json = match normalize_json(preferences_text.as_str()) { Ok(t) => t, Err(m) => { return Err(m); } };
        Ok(ToolCall::SetAppPreferences { preferences_json })
    } else if same(name, "get_main_log") {
        let severity = levels_for(get_str(args, "severity"));
        let last_id = get_int(args, "last_id");
        Ok(ToolCall::GetMainLog { severity, last_id })
    } else if same(name, "get_peer_log") {
        let last_id = get_int(args, "last_id");
        Ok(ToolCall::GetPeerLog { last_id })
    } else if same(name, "get_app_version") {
        Ok(ToolCall::GetAppVersion)
    } else if same(name, "get_build_info") {
        Ok(ToolCall::GetBuildInfo)
    } else if same(name, "shutdown_app") {
        Ok(ToolCall::ShutdownApp)
    } else {
        Err(cat("Unknown tool: ", name))
    }
}

/// The reply text of a tool that only performs an action, once it succeeded.
pub open spec fn done_message(c: ToolCall) -> Option<Seq<char>> {
    match c {
        ToolCall::AddTorrent { .. } => Some("Torrent added successfully"@),
        ToolCall::PauseTorrent { .. } => Some("Torrent paused successfully"@),
        ToolCall::ResumeTorrent { .. } => Some("Torrent resumed successfully"@),
        ToolCall::DeleteTorrent { .. } => Some("Torrent deleted successfully"@),
        ToolCall::ReannounceTorrent { .. } => Some("Torrent reannounced successfully"@),
        ToolCall::RecheckTorrent { .. } => Some("Torrent recheck started successfully"@),
        ToolCall::CreateCategory { .. } => Some("Category created successfully"@),
        ToolCall::SetTorrentCategory { .. } => Some("Category set successfully"@),
        ToolCall::AddTorrentTags { .. } => Some("Tags added successfully"@),
        ToolCall::SetTorrentShareLimits { .. } => Some("Torrent share limits updated successfully"@),
        ToolCall::SetTorrentSpeedLimits { .. } => Some("Torrent speed limits updated successfully"@),
        ToolCall::ToggleSequentialDownload { .. } => Some("Sequential download toggled successfully"@),
        ToolCall::ToggleFirstLastPiecePriority { .. } => Some("First/last piece priority toggled successfully"@),
        ToolCall::SetForceStart { .. } => Some("Force start status updated successfully"@),
        ToolCall::SetSuperSeeding { .. } => Some("Super seeding status updated successfully"@),
        ToolCall::AddTrackers { .. } => Some("Trackers added successfully"@),
        ToolCall::EditTracker { .. } => Some("Tracker edited successfully"@),
        ToolCall::RemoveTrackers { .. } => Some("Trackers removed successfully"@),
        ToolCall::RenameFolder { .. } => Some("Folder renamed successfully"@),
        ToolCall::SetFilePriority { .. } => Some("File priority updated successfully"@),
        ToolCall::RemoveCategories { .. } => Some("Categories removed successfully"@),
        ToolCall::RemoveTags { .. } => Some("Tags removed from torrents successfully"@),
        ToolCall::CreateTags { .. } => Some("Tags created successfully"@),
        ToolCall::DeleteTags { .. } => Some("Tags deleted successfully"@),
        ToolCall::InstallSearchPlugin { .. } => Some("Search plugin installed successfully"@),
        ToolCall::UninstallSearchPlugin { .. } => Some("Search plugin uninstalled successfully"@),
        ToolCall::EnableSearchPlugin { .. } => Some("Search plugin status updated successfully"@),
        ToolCall::UpdateSearchPlugins => Some("Search plugins updated successfully"@),
        ToolCall::AddRssFeed { .. } => Some("RSS feed added successfully"@),
        ToolCall::SetRssRule { .. } => Some("RSS rule set successfully"@),
        ToolCall::MoveRssItem { .. } => Some("RSS item moved successfully"@),
        ToolCall::SetGlobalTransferLimits { .. } => Some("Transfer limits updated successfully"@),
        ToolCall::ToggleAlternativeSpeedLimits => Some("Alternative speed limits toggled"@),
        ToolCall::BanPeers { .. } => Some("Peers banned successfully"@),
        ToolCall::SetAppPreferences { .. } => Some("App preferences updated successfully"@),
        ToolCall::ShutdownApp => Some("Shutdown command sent"@),
        _ => None,
    }
}

/// The reply text of a tool that only performs an action, once it succeeded.
pub fn done_text(c: &ToolCall) -> (r: Option<String>)
    ensures
        crate::cli::opt_view(r) == done_message(*c),
{
    match c {
        ToolCall::AddTorrent { .. } => Some(owned("Torrent added successfully")),
        ToolCall::PauseTorrent { .. } => Some(owned("Torrent paused successfully")),
        ToolCall::ResumeTorrent { .. } => Some(owned("Torrent resumed successfully")),
        ToolCall::DeleteTorrent { .. } => Some(owned("Torrent deleted successfully")),
        ToolCall::ReannounceTorrent { .. } => Some(owned("Torrent reannounced successfully")),
        ToolCall::RecheckTorrent { .. } => Some(owned("Torrent recheck started successfully")),
        ToolCall::CreateCategory { .. } => Some(owned("Category created successfully")),
        ToolCall::SetTorrentCategory { .. } => Some(owned("Category set successfully")),
        ToolCall::AddTorrentTags { .. } => Some(owned("Tags added successfully")),
        ToolCall::SetTorrentShareLimits { .. } => Some(owned("Torrent share limits updated successfully")),
        ToolCall::SetTorrentSpeedLimits { .. } => Some(owned("Torrent speed limits updated successfully")),
        ToolCall::ToggleSequentialDownload { .. } => Some(owned("Sequential download toggled successfully")),
        ToolCall::ToggleFirstLastPiecePriority { .. } => Some(owned("First/last piece priority toggled successfully")),
        ToolCall::SetForceStart { .. } => Some(owned("Force start status updated successfully")),
        ToolCall::SetSuperSeeding { .. } => Some(owned("Super seeding status updated successfully")),
        ToolCall::AddTrackers { .. } => Some(owned("Trackers added successfully")),
        ToolCall::EditTracker { .. } => Some(owned("Tracker edited successfully")),
        ToolCall::RemoveTrackers { .. } => Some(owned("Trackers removed successfully")),
        ToolCall::RenameFolder { .. } => Some(owned("Folder renamed successfully")),
        ToolCall::SetFilePriority { .. } => Some(owned("File priority updated successfully")),
        ToolCall::RemoveCategories { .. } => Some(owned("Categories removed successfully")),
        ToolCall::RemoveTags { .. } => Some(owned("Tags removed from torrents successfully")),
        ToolCall::CreateTags { .. } => Some(owned("Tags created successfully")),
        ToolCall::DeleteTags { .. } => Some(owned("Tags deleted successfully")),
        ToolCall::InstallSearchPlugin { .. } => Some(owned("Search plugin installed successfully")),
        ToolCall::UninstallSearchPlugin { .. } => Some(owned("Search plugin uninstalled successfully")),
        ToolCall::EnableSearchPlugin { .. } => Some(owned("Search plugin status updated successfully")),
        ToolCall::UpdateSearchPlugins => Some(owned("Search plugins updated successfully")),
        ToolCall::AddRssFeed { .. } => Some(owned("RSS feed added successfully")),
        ToolCall::SetRssRule { .. } => Some(owned("RSS rule set successfully")),
        ToolCall::MoveRssItem { .. } => Some(owned("RSS item moved successfully")),
        ToolCall::SetGlobalTransferLimits { .. } => Some(owned("Transfer limits updated successfully")),
        ToolCall::ToggleAlternativeSpeedLimits => Some(owned("Alternative speed limits toggled")),
        ToolCall::BanPeers { .. } => Some(owned("Peers banned successfully")),
        ToolCall::SetAppPreferences { .. } => Some(owned("App preferences updated successfully")),
        ToolCall::ShutdownApp => Some(owned("Shutdown command sent")),
        _ => None,
    }
}

/// A tool call, with the instance it targets by its index among the
/// instance names (none for `show_all_tools`, which targets no instance).
#[derive(Debug)]
pub struct Invocation {
    pub instance: Option<usize>,
    pub call: ToolCall,
}

/// Whether `r` is the outcome of preparing a call of tool `name` with the
/// arguments `args`: `show_all_tools` needs nothing; any other tool first
/// needs its instance (the `instance` argument, see `chosen_instance`),
/// then its arguments (see `tool_args_error`).
pub open spec fn invocation_outcome(name: Seq<char>, args: Json, instances: Seq<String>, r: Result<Invocation, String>) -> bool {
    &&& name == "show_all_tools"@ ==> (r matches Ok(inv) && inv.instance is None && inv.call is ShowAllTools)
    &&& name != "show_all_tools"@ ==> match chosen_instance(instances, str_member(args, "instance"@)) {
        Err(m) => (r matches Err(e) && e@ == m),
        Ok(i) => match tool_args_error(name, args) {
            Some(m) => (r matches Err(e) && e@ == m),
            None => (r matches Ok(inv) && inv.instance == Some(i as usize) && reads_call(inv.call, name, args)),
        },
    }
}

/// Prepares a call of tool `name` (see `invocation_outcome`).
pub fn prepare_tool_call(name: &str, args: &Json, instances: &Vec<String>) -> (r: Result<Invocation, String>)
    ensures
        invocation_outcome(name@, *args, instances@, r),
{
    if same(name, "show_all_tools") {
        return Ok(Invocation { instance: None, call: ToolCall::ShowAllTools });
    }
    let requested = get_str(args, "instance");
    let index = match &requested {
        Some(n) => select_instance(instances, Some(n.as_str())),
        None => select_instance(instances, None),
    };
    let index = match index {
        Ok(i) => i,
        Err(m) => {
            return Err(m);
        },
    };
    match parse_tool_call(name, args) {
        Ok(call) => Ok(Invocation { instance: Some(index), call }),
        Err(m) => Err(m),
    }
}

} // verus!
