//! An older handler of the Model Context Protocol, for a single instance:
//! its own, smaller tool list, and its own errors.
use vstd::prelude::*;
use crate::json::{Json, jstr, entry};
use crate::text::{owned, cat, same};
use crate::cli::opt_view;
use crate::client::QBitClient;
use crate::server::mcp::{str_member, bool_member, int_member, get_str, get_bool, get_int, reply_text};
use crate::server::calls::{compact_json, normalize_json, clamp_timeout, timeout_of};
use crate::server::tools::{ToolShape, shapes, tool_shape, property_shapes, required_names, lemma_no_shapes, no_properties, no_required, add_property, add_required, push_tool};

verus! {

/// The kind of a protocol error.
#[derive(Debug, Clone, Copy, PartialEq, Eq, Structural)]
pub enum ErrorCode {
    InvalidParams,
    MethodNotFound,
    InternalError,
}

/// A protocol error: its kind and message.
#[derive(Debug)]
pub struct ProtocolError {
    pub code: ErrorCode,
    pub message: String,
}

/// The handler: the instance it drives, and whether it still shows only
/// the essential tools.
#[derive(Debug)]
pub struct AppHandler {
    pub client: QBitClient,
    pub lazy_mode: bool,
}

/// What the handler does with a request: answer it at once, or perform a
/// tool call on the instance.
#[derive(Debug)]
pub enum HandlerStep {
    Reply(Json),
    Perform(HandlerCall),
}

/// The value behind an optional reference.
pub open spec fn opt_json(o: Option<&Json>) -> Option<Json> {
    match o {
        Some(j) => Some(*j),
        None => None,
    }
}

proof fn lemma_handler_keys()
    ensures
        "name"@ != "description"@,
        "name"@ != "inputSchema"@,
        "description"@ != "inputSchema"@,
        "properties"@ != "required"@,
        "content"@ != "isError"@,
        "type"@ != "text"@,
{
    reveal_strlit("name");
    reveal_strlit("description");
    reveal_strlit("inputSchema");
    reveal_strlit("properties");
    reveal_strlit("required");
    reveal_strlit("content");
    reveal_strlit("isError");
    reveal_strlit("type");
    reveal_strlit("text");
    assert("name"@[0] != "description"@[0]);
    assert("name"@[0] != "inputSchema"@[0]);
    assert("description"@[0] != "inputSchema"@[0]);
    assert("properties"@[0] != "required"@[0]);
    assert("content"@[0] != "isError"@[0]);
    assert("type"@[1] != "text"@[1]);
}

/// A tool as the protocol library writes it: name, description, and an
/// input schema with its properties and, when there are any, its required
/// properties.
fn sdk_tool(name: &str, description: &str, properties: Vec<(String, Json)>, required: Option<Vec<Json>>) -> (r: Json)
    ensures
        tool_shape(r) == (name@, description@, property_shapes(properties@), match required {
            Some(q) => required_names(q@),
            None => Seq::<Seq<char>>::empty(),
        }),
{
    proof {
        lemma_handler_keys();
        reveal_with_fuel(crate::json::entry_value, 4);
    }
    let mut s: Vec<(String, Json)> = Vec::new();
    s.push(entry("properties", Json::Obj(properties)));
    match required {
        Some(q) => {
            s.push(entry("required", Json::Arr(q)));
        },
        None => {},
    }
    let mut e: Vec<(String, Json)> = Vec::new();
    e.push(entry("name", jstr(name)));
    e.push(entry("description", jstr(description)));
    e.push(entry("inputSchema", Json::Obj(s)));
    Json::Obj(e)
}

/// A tool reply holding one text item, marked as no error.
pub fn handler_reply(text: String) -> (r: Json)
    ensures
        reply_text(r) == Some(text@),
        bool_member(r, "isError"@) == Some(false),
{
    proof {
        lemma_handler_keys();
        reveal_with_fuel(crate::json::entry_value, 3);
    }
    let mut item: Vec<(String, Json)> = Vec::new();
    item.push(entry("type", jstr("text")));
    item.push(entry("text", Json::Str(text)));
    let mut items: Vec<Json> = Vec::new();
    items.push(Json::Obj(item));
    let mut e: Vec<(String, Json)> = Vec::new();
    e.push(entry("content", Json::Arr(items)));
    e.push(entry("isError", Json::Bool(false)));
    Json::Obj(e)
}

/// A tool reply holding one text item, marked as an error.
pub fn handler_error_reply(text: String) -> (r: Json)
    ensures
        reply_text(r) == Some(text@),
        bool_member(r, "isError"@) == Some(true),
{
    crate::server::mcp::error_reply(text)
}

/// The error when the search could not be started.
pub fn search_start_failure(error: &str) -> (r: ProtocolError)
    ensures
        r.code == ErrorCode::InternalError,
        r.message@ == "Failed to start search: "@ + error@,
{
    ProtocolError { code: ErrorCode::InternalError, message: cat("Failed to start search: ", error) }
}

/// The error when the instance failed a request.
pub fn instance_failure(error: String) -> (r: ProtocolError)
    ensures
        r.code == ErrorCode::InternalError,
        r.message@ == error@,
{
    ProtocolError { code: ErrorCode::InternalError, message: error }
}

/// The error when the torrent waited for does not exist.
pub fn wait_not_found(hash: &str) -> (r: ProtocolError)
    ensures
        r.code == ErrorCode::InvalidParams,
        r.message@ == "Torrent not found: "@ + hash@,
{
    ProtocolError { code: ErrorCode::InvalidParams, message: crate::server::polling::not_found_text(hash) }
}

/// A tool call of the handler with its arguments read.
#[derive(Debug)]
#[allow(inconsistent_fields)]
pub enum HandlerCall {
    ListTorrents,
    SearchTorrents { query: String, category: Option<String> },
    AddTorrent { url: String, save_path: Option<String>, category: Option<String> },
    PauseTorrent { hash: String },
    ResumeTorrent { hash: String },
    DeleteTorrent { hash: String, delete_files: bool },
    GetTorrentFiles { hash: String },
    GetTorrentProperties { hash: String },
    GetGlobalTransferInfo,
    SetGlobalTransferLimits { dl_limit: Option<i64>, up_limit: Option<i64> },
    CreateCategory { name: String, save_path: String },
    SetTorrentCategory { hashes: String, category: String },
    GetCategories,
    AddTorrentTags { hashes: String, tags: String },
    InstallSearchPlugin { url: String },
    UninstallSearchPlugin { name: String },
    EnableSearchPlugin { name: String, enable: bool },
    UpdateSearchPlugins,
    GetSearchPlugins,
    AddRssFeed { url: String, path: String },
    GetRssFeeds,
    SetRssRule { name: String, definition: String },
    GetRssRules,
    GetAppPreferences,
    SetAppPreferences { preferences_json: String },
    WaitForTorrentStatus { hash: String, target_status: String, timeout_seconds: i64 },
}

/// Whether the handler has a tool named `name` (besides `show_all_tools`).
pub open spec fn handler_tool(name: Seq<char>) -> bool {
    name == "list_torrents"@
        || name == "search_torrents"@
        || name == "add_torrent"@
        || name == "pause_torrent"@
        || name == "resume_torrent"@
        || name == "delete_torrent"@
        || name == "get_torrent_files"@
        || name == "get_torrent_properties"@
        || name == "get_global_transfer_info"@
        || name == "set_global_transfer_limits"@
        || name == "create_category"@
        || name == "set_torrent_category"@
        || name == "get_categories"@
        || name == "add_torrent_tags"@
        || name == "install_search_plugin"@
        || name == "uninstall_search_plugin"@
        || name == "enable_search_plugin"@
        || name == "update_search_plugins"@
        || name == "get_search_plugins"@
        || name == "add_rss_feed"@
        || name == "get_rss_feeds"@
        || name == "set_rss_rule"@
        || name == "get_rss_rules"@
        || name == "get_app_preferences"@
        || name == "set_app_preferences"@
        || name == "wait_for_torrent_status"@
}

/// The error of a call of tool `name` with the member `arguments` of the
/// parameters: `Tool not found: ..` for a name that is no tool, else
/// `Missing arguments` for a tool that takes arguments and got none, else
/// `Missing ..` for the first required argument that is absent or of the
/// wrong type, else the error of reading the preferences as JSON.
pub open spec fn handler_call_error(name: Seq<char>, arguments: Option<Json>) -> Option<(ErrorCode, Seq<char>)> {
    if !handler_tool(name) {
        Some((ErrorCode::MethodNotFound, "Tool not found: "@ + name))
    } else if name == "list_torrents"@ {
        None
    } else if name == "search_torrents"@ {
        match arguments {
            None => Some((ErrorCode::InvalidParams, "Missing arguments"@)),
            Some(args) => if str_member(args, "query"@) is None { Some((ErrorCode::InvalidParams, "Missing query"@)) } else { None },
        }
    } else if name == "add_torrent"@ {
        match arguments {
            None => Some((ErrorCode::InvalidParams, "Missing arguments"@)),
            Some(args) => if str_member(args, "url"@) is None { Some((ErrorCode::InvalidParams, "Missing url"@)) } else { None },
        }
    } else if name == "pause_torrent"@ {
        match arguments {
            None => Some((ErrorCode::InvalidParams, "Missing arguments"@)),
            Some(args) => if str_member(args, "hash"@) is None { Some((ErrorCode::InvalidParams, "Missing hash"@)) } else { None },
        }
    } else if name == "resume_torrent"@ {
        match arguments {
            None => Some((ErrorCode::InvalidParams, "Missing arguments"@)),
            Some(args) => if str_member(args, "hash"@) is None { Some((ErrorCode::InvalidParams, "Missing hash"@)) } else { None },
        }
    } else if name == "delete_torrent"@ {
        match arguments {
            None => Some((ErrorCode::InvalidParams, "Missing arguments"@)),
            Some(args) => if str_member(args, "hash"@) is None { Some((ErrorCode::InvalidParams, "Missing hash"@)) } else { None },
        }
    } else if name == "get_torrent_files"@ {
        match arguments {
            None => Some((ErrorCode::InvalidParams, "Missing arguments"@)),
            Some(args) => if str_member(args, "hash"@) is None { Some((ErrorCode::InvalidParams, "Missing hash"@)) } else { None },
        }
    } else if name == "get_torrent_properties"@ {
        match arguments {
            None => Some((ErrorCode::InvalidParams, "Missing arguments"@)),
            Some(args) => if str_member(args, "hash"@) is None { Some((ErrorCode::InvalidParams, "Missing hash"@)) } else { None },
        }
    } else if name == "get_global_transfer_info"@ {
        None
    } else if name == "set_global_transfer_limits"@ {
        match arguments {
            None => Some((ErrorCode::InvalidParams, "Missing arguments"@)),
            Some(args) => None,
        }
    } else if name == "create_category"@ {
        match arguments {
            None => Some((ErrorCode::InvalidParams, "Missing arguments"@)),
            Some(args) => if str_member(args, "name"@) is None { Some((ErrorCode::InvalidParams, "Missing name"@)) } else if str_member(args, "save_path"@) is None { Some((ErrorCode::InvalidParams, "Missing save_path"@)) } else { None },
        }
    } else if name == "set_torrent_category"@ {
        match arguments {
            None => Some((ErrorCode::InvalidParams, "Missing arguments"@)),
            Some(args) => if str_member(args, "hashes"@) is None { Some((ErrorCode::InvalidParams, "Missing hashes"@)) } else if str_member(args, "category"@) is None { Some((ErrorCode::InvalidParams, "Missing category"@)) } else { None },
        }
    } else if name == "get_categories"@ {
        None
    } else if name == "add_torrent_tags"@ {
        match arguments {
            None => Some((ErrorCode::InvalidParams, "Missing arguments"@)),
            Some(args) => if str_member(args, "hashes"@) is None { Some((ErrorCode::InvalidParams, "Missing hashes"@)) } else if str_member(args, "tags"@) is None { Some((ErrorCode::InvalidParams, "Missing tags"@)) } else { None },
        }
    } else if name == "install_search_plugin"@ {
        match arguments {
            None => Some((ErrorCode::InvalidParams, "Missing arguments"@)),
            Some(args) => if str_member(args, "url"@) is None { Some((ErrorCode::InvalidParams, "Missing url"@)) } else { None },
        }
    } else if name == "uninstall_search_plugin"@ {
        match arguments {
            None => Some((ErrorCode::InvalidParams, "Missing arguments"@)),
            Some(args) => if str_member(args, "name"@) is None { Some((ErrorCode::InvalidParams, "Missing name"@)) } else { None },
        }
    } else if name == "enable_search_plugin"@ {
        match arguments {
            None => Some((ErrorCode::InvalidParams, "Missing arguments"@)),
            Some(args) => if str_member(args, "name"@) is None { Some((ErrorCode::InvalidParams, "Missing name"@)) } else if bool_member(args, "enable"@) is None { Some((ErrorCode::InvalidParams, "Missing enable"@)) } else { None },
        }
    } else if name == "update_search_plugins"@ {
        None
    } else if name == "get_search_plugins"@ {
        None
    } else if name == "add_rss_feed"@ {
        match arguments {
            None => Some((ErrorCode::InvalidParams, "Missing arguments"@)),
            Some(args) => if str_member(args, "url"@) is None { Some((ErrorCode::InvalidParams, "Missing url"@)) } else if str_member(args, "path"@) is None { Some((ErrorCode::InvalidParams, "Missing path"@)) } else { None },
        }
    } else if name == "get_rss_feeds"@ {
        None
    } else if name == "set_rss_rule"@ {
        match arguments {
            None => Some((ErrorCode::InvalidParams, "Missing arguments"@)),
            Some(args) => if str_member(args, "name"@) is None { Some((ErrorCode::InvalidParams, "Missing name"@)) } else if str_member(args, "definition"@) is None { Some((ErrorCode::InvalidParams, "Missing definition"@)) } else { None },
        }
    } else if name == "get_rss_rules"@ {
        None
    } else if name == "get_app_preferences"@ {
        None
    } else if name == "set_app_preferences"@ {
        match arguments {
            None => Some((ErrorCode::InvalidParams, "Missing arguments"@)),
            Some(args) => if str_member(args, "preferences"@) is None { Some((ErrorCode::InvalidParams, "Missing preferences"@)) } else { match compact_json(str_member(args, "preferences"@)->0) { Ok(_) => None, Err(m) => Some((ErrorCode::InvalidParams, "Invalid JSON: "@ + m)) } },
        }
    } else if name == "wait_for_torrent_status"@ {
        match arguments {
            None => Some((ErrorCode::InvalidParams, "Missing arguments"@)),
            Some(args) => if str_member(args, "hash"@) is None { Some((ErrorCode::InvalidParams, "Missing hash"@)) } else if str_member(args, "target_status"@) is None { Some((ErrorCode::InvalidParams, "Missing target_status"@)) } else { None },
        }
    } else {
        None
    }
}

/// Whether `c` is the call of `tool` with the member `arguments` of the parameters.
pub open spec fn reads_handler_call(c: HandlerCall, tool: Seq<char>, arguments: Option<Json>) -> bool {
    match c {
        HandlerCall::ListTorrents => tool == "list_torrents"@,
        HandlerCall::SearchTorrents { query, category } => tool == "search_torrents"@
            && arguments is Some
            && str_member(arguments->0, "query"@) == Some(query@)
            && str_member(arguments->0, "category"@) == opt_view(category),
        HandlerCall::AddTorrent { url, save_path, category } => tool == "add_torrent"@
            && arguments is Some
            && str_member(arguments->0, "url"@) == Some(url@)
            && str_member(arguments->0, "save_path"@) == opt_view(save_path)
            && str_member(arguments->0, "category"@) == opt_view(category),
        HandlerCall::PauseTorrent { hash } => tool == "pause_torrent"@
            && arguments is Some
            && str_member(arguments->0, "hash"@) == Some(hash@),
        HandlerCall::ResumeTorrent { hash } => tool == "resume_torrent"@
            && arguments is Some
            && str_member(arguments->0, "hash"@) == Some(hash@),
        HandlerCall::DeleteTorrent { hash, delete_files } => tool == "delete_torrent"@
            && arguments is Some
            && str_member(arguments->0, "hash"@) == Some(hash@)
            && delete_files == (bool_member(arguments->0, "delete_files"@) == Some(true)),
        HandlerCall::GetTorrentFiles { hash } => tool == "get_torrent_files"@
            && arguments is Some
            && str_member(arguments->0, "hash"@) == Some(hash@),
        HandlerCall::GetTorrentProperties { hash } => tool == "get_torrent_properties"@
            && arguments is Some
            && str_member(arguments->0, "hash"@) == Some(hash@),
        HandlerCall::GetGlobalTransferInfo => tool == "get_global_transfer_info"@,
        HandlerCall::SetGlobalTransferLimits { dl_limit, up_limit } => tool == "set_global_transfer_limits"@
            && arguments is Some
            && int_member(arguments->0, "dl_limit"@) == dl_limit
            && int_member(arguments->0, "up_limit"@) == up_limit,
        HandlerCall::CreateCategory { name, save_path } => tool == "create_category"@
            && arguments is Some
            && str_member(arguments->0, "name"@) == Some(name@)
            && str_member(arguments->0, "save_path"@) == Some(save_path@),
        HandlerCall::SetTorrentCategory { hashes, category } => tool == "set_torrent_category"@
            && arguments is Some
            && str_member(arguments->0, "hashes"@) == Some(hashes@)
            && str_member(arguments->0, "category"@) == Some(category@),
        HandlerCall::GetCategories => tool == "get_categories"@,
        HandlerCall::AddTorrentTags { hashes, tags } => tool == "add_torrent_tags"@
            && arguments is Some
            && str_member(arguments->0, "hashes"@) == Some(hashes@)
            && str_member(arguments->0, "tags"@) == Some(tags@),
        HandlerCall::InstallSearchPlugin { url } => tool == "install_search_plugin"@
            && arguments is Some
            && str_member(arguments->0, "url"@) == Some(url@),
        HandlerCall::UninstallSearchPlugin { name } => tool == "uninstall_search_plugin"@
            && arguments is Some
            && str_member(arguments->0, "name"@) == Some(name@),
        HandlerCall::EnableSearchPlugin { name, enable } => tool == "enable_search_plugin"@
            && arguments is Some
            && str_member(arguments->0, "name"@) == Some(name@)
            && bool_member(arguments->0, "enable"@) == Some(enable),
        HandlerCall::UpdateSearchPlugins => tool == "update_search_plugins"@,
        HandlerCall::GetSearchPlugins => tool == "get_search_plugins"@,
        HandlerCall::AddRssFeed { url, path } => tool == "add_rss_feed"@
            && arguments is Some
            && str_member(arguments->0, "url"@) == Some(url@)
            && str_member(arguments->0, "path"@) == Some(path@),
        HandlerCall::GetRssFeeds => tool == "get_rss_feeds"@,
        HandlerCall::SetRssRule { name, definition } => tool == "set_rss_rule"@
            && arguments is Some
            && str_member(arguments->0, "name"@) == Some(name@)
            && str_member(arguments->0, "definition"@) == Some(definition@),
        HandlerCall::GetRssRules => tool == "get_rss_rules"@,
        HandlerCall::GetAppPreferences => tool == "get_app_preferences"@,
        HandlerCall::SetAppPreferences { preferences_json } => tool == "set_app_preferences"@
            && arguments is Some
            && compact_json(str_member(arguments->0, "preferences"@)->0) == Ok::<Seq<char>, Seq<char>>(preferences_json@),
        HandlerCall::WaitForTorrentStatus { hash, target_status, timeout_seconds } => tool == "wait_for_torrent_status"@
            && arguments is Some
            && str_member(arguments->0, "hash"@) == Some(hash@)
            && str_member(arguments->0, "target_status"@) == Some(target_status@)
            && timeout_seconds == clamp_timeout(int_member(arguments->0, "timeout_seconds"@)),
    }
}

fn invalid(message: String) -> (r: ProtocolError)
    ensures
        r.code == ErrorCode::InvalidParams,
        r.message@ == message@,
{
    ProtocolError { code: ErrorCode::InvalidParams, message }
}

/// Reads a call of tool `name` (any tool but `show_all_tools`) with the
/// member `arguments` of the parameters.
#[verifier::rlimit(60)]
pub fn parse_handler_call(name: &str, arguments: Option<&Json>) -> (r: Result<HandlerCall, ProtocolError>)
    ensures
        match r {
            Ok(c) => handler_call_error(name@, opt_json(arguments)) is None && reads_handler_call(c, name@, opt_json(arguments)),
            Err(e) => handler_call_error(name@, opt_json(arguments)) == Some((e.code, e.message@)),
        },
{
    if same(name, "list_torrents") {
        Ok(HandlerCall::ListTorrents)
    } else if same(name, "search_torrents") {
        let args = match arguments { Some(a) => a, None => { return Err(invalid(owned("Missing arguments"))); } };
        let query = match get_str(args, "query") { Some(v) => v, None => { return Err(invalid(owned("Missing query"))); } };
        let category = get_str(args, "category");
        Ok(HandlerCall::SearchTorrents { query, category })
    } else if same(name, "add_torrent") {
        let args = match arguments { Some(a) => a, None => { return Err(invalid(owned("Missing arguments"))); } };
        let url = match get_str(args, "url") { Some(v) => v, None => { return Err(invalid(owned("Missing url"))); } };
        let save_path = get_str(args, "save_path");
        let category = get_str(args, "category");
        Ok(HandlerCall::AddTorrent { url, save_path, category })
    } else if same(name, "pause_torrent") {
        let args = match arguments { Some(a) => a, None => { return Err(invalid(owned("Missing arguments"))); } };
        let hash = match get_str(args, "hash") { Some(v) => v, None => { return Err(invalid(owned("Missing hash"))); } };
        Ok(HandlerCall::PauseTorrent { hash })
    } else if same(name, "resume_torrent") {
        let args = match arguments { Some(a) => a, None => { return Err(invalid(owned("Missing arguments"))); } };
        let hash = match get_str(args, "hash") { Some(v) => v, None => { return Err(invalid(owned("Missing hash"))); } };
        Ok(HandlerCall::ResumeTorrent { hash })
    } else if same(name, "delete_torrent") {
        let args = match arguments { Some(a) => a, None => { return Err(invalid(owned("Missing arguments"))); } };
        let hash = match get_str(args, "hash") { Some(v) => v, None => { return Err(invalid(owned("Missing hash"))); } };
        let delete_files = match get_bool(args, "delete_files") { Some(v) => v, None => false };
        Ok(HandlerCall::DeleteTorrent { hash, delete_files })
    } else if same(name, "get_torrent_files") {
        let args = match arguments { Some(a) => a, None => { return Err(invalid(owned("Missing arguments"))); } };
        let hash = match get_str(args, "hash") { Some(v) => v, None => { return Err(invalid(owned("Missing hash"))); } };
        Ok(HandlerCall::GetTorrentFiles { hash })
    } else if same(name, "get_torrent_properties") {
        let args = match arguments { Some(a) => a, None => { return Err(invalid(owned("Missing arguments"))); } };
        let hash = match get_str(args, "hash") { Some(v) => v, None => { return Err(invalid(owned("Missing hash"))); } };
        Ok(HandlerCall::GetTorrentProperties { hash })
    } else if same(name, "get_global_transfer_info") {
        Ok(HandlerCall::GetGlobalTransferInfo)
    } else if same(name, "set_global_transfer_limits") {
        let args = match arguments { Some(a) => a, None => { return Err(invalid(owned("Missing arguments"))); } };
        let dl_limit = get_int(args, "dl_limit");
        let up_limit = get_int(args, "up_limit");
        Ok(HandlerCall::SetGlobalTransferLimits { dl_limit, up_limit })
    } else if same(name, "create_category") {
        let args = match arguments { Some(a) => a, None => { return Err(invalid(owned("Missing arguments"))); } };
        let name = match get_str(args, "name") { Some(v) => v, None => { return Err(invalid(owned("Missing name"))); } };
        let save_path = match get_str(args, "save_path") { Some(v) => v, None => { return Err(invalid(owned("Missing save_path"))); } };
        Ok(HandlerCall::CreateCategory { name, save_path })
    } else if same(name, "set_torrent_category") {
        let args = match arguments { Some(a) => a, None => { return Err(invalid(owned("Missing arguments"))); } };
        let hashes = match get_str(args, "hashes") { Some(v) => v, None => { return Err(invalid(owned("Missing hashes"))); } };
        let category = match get_str(args, "category") { Some(v) => v, None => { return Err(invalid(owned("Missing category"))); } };
        Ok(HandlerCall::SetTorrentCategory { hashes, category })
    } else if same(name, "get_categories") {
        Ok(HandlerCall::GetCategories)
    } else if same(name, "add_torrent_tags") {
        let args = match arguments { Some(a) => a, None => { return Err(invalid(owned("Missing arguments"))); } };
        let hashes = match get_str(args, "hashes") { Some(v) => v, None => { return Err(invalid(owned("Missing hashes"))); } };
        let tags = match get_str(args, "tags") { Some(v) => v, None => { return Err(invalid(owned("Missing tags"))); } };
        Ok(HandlerCall::AddTorrentTags { hashes, tags })
    } else if same(name, "install_search_plugin") {
        let args = match arguments { Some(a) => a, None => { return Err(invalid(owned("Missing arguments"))); } };
        let url = match get_str(args, "url") { Some(v) => v, None => { return Err(invalid(owned("Missing url"))); } };
        Ok(HandlerCall::InstallSearchPlugin { url })
    } else if same(name, "uninstall_search_plugin") {
        let args = match arguments { Some(a) => a, None => { return Err(invalid(owned("Missing arguments"))); } };
        let name = match get_str(args, "name") { Some(v) => v, None => { return Err(invalid(owned("Missing name"))); } };
        Ok(HandlerCall::UninstallSearchPlugin { name })
    } else if same(name, "enable_search_plugin") {
        let args = match arguments { Some(a) => a, None => { return Err(invalid(owned("Missing arguments"))); } };
        let name = match get_str(args, "name") { Some(v) => v, None => { return Err(invalid(owned("Missing name"))); } };
        let enable = match get_bool(args, "enable") { Some(v) => v, None => { return Err(invalid(owned("Missing enable"))); } };
        Ok(HandlerCall::EnableSearchPlugin { name, enable })
    } else if same(name, "update_search_plugins") {
        Ok(HandlerCall::UpdateSearchPlugins)
    } else if same(name, "get_search_plugins") {
        Ok(HandlerCall::GetSearchPlugins)
    } else if same(name, "add_rss_feed") {
        let args = match arguments { Some(a) => a, None => { return Err(invalid(owned("Missing arguments"))); } };
        let url = match get_str(args, "url") { Some(v) => v, None => { return Err(invalid(owned("Missing url"))); } };
        let path = match get_str(args, "path") { Some(v) => v, None => { return Err(invalid(owned("Missing path"))); } };
        Ok(HandlerCall::AddRssFeed { url, path })
    } else if same(name, "get_rss_feeds") {
        Ok(HandlerCall::GetRssFeeds)
    } else if same(name, "set_rss_rule") {
        let args = match arguments { Some(a) => a, None => { return Err(invalid(owned("Missing arguments"))); } };
        let name = match get_str(args, "name") { Some(v) => v, None => { return Err(invalid(owned("Missing name"))); } };
        let definition = match get_str(args, "definition") { Some(v) => v, None => { return Err(invalid(owned("Missing definition"))); } };
        Ok(HandlerCall::SetRssRule { name, definition })
    } else if same(name, "get_rss_rules") {
        Ok(HandlerCall::GetRssRules)
    } else if same(name, "get_app_preferences") {
        Ok(HandlerCall::GetAppPreferences)
    } else if same(name, "set_app_preferences") {
        let args = match arguments { Some(a) => a, None => { return Err(invalid(owned("Missing arguments"))); } };
        let preferences_text = match get_str(args, "preferences") { Some(v) => v, None => { return Err(invalid(owned("Missing preferences"))); } };
        let preferences_json = match normalize_json(preferences_text.as_str()) { Ok(t) => t, Err(m) => { return Err(invalid(cat("Invalid JSON: ", m.as_str()))); } };
        Ok(HandlerCall::SetAppPreferences { preferences_json })
    } else if same(name, "wait_for_torrent_status") {
        let args = match arguments { Some(a) => a, None => { return Err(invalid(owned("Missing arguments"))); } };
        let hash = match get_str(args, "hash") { Some(v) => v, None => { return Err(invalid(owned("Missing hash"))); } };
        let target_status = match get_str(args, "target_status") { Some(v) => v, None => { return Err(invalid(owned("Missing target_status"))); } };
        let timeout_seconds = timeout_of(get_int(args, "timeout_seconds"));
        Ok(HandlerCall::WaitForTorrentStatus { hash, target_status, timeout_seconds })
    } else {
        Err(ProtocolError { code: ErrorCode::MethodNotFound, message: cat("Tool not found: ", name) })
    }
}

/// The reply text of a handler tool that only performs an action, once it succeeded.
pub open spec fn handler_done_message(c: HandlerCall) -> Option<Seq<char>> {
    match c {
        HandlerCall::AddTorrent { .. } => Some("Torrent added successfully"@),
        HandlerCall::PauseTorrent { .. } => Some("Torrent paused successfully"@),
        HandlerCall::ResumeTorrent { .. } => Some("Torrent resumed successfully"@),
        HandlerCall::DeleteTorrent { .. } => Some("Torrent deleted successfully"@),
        HandlerCall::SetGlobalTransferLimits { .. } => Some("Transfer limits updated successfully"@),
        HandlerCall::CreateCategory { .. } => Some("Category created successfully"@),
        HandlerCall::SetTorrentCategory { .. } => Some("Category set successfully"@),
        HandlerCall::AddTorrentTags { .. } => Some("Tags added successfully"@),
        HandlerCall::InstallSearchPlugin { .. } => Some("Search plugin installed successfully"@),
        HandlerCall::UninstallSearchPlugin { .. } => Some("Search plugin uninstalled successfully"@),
        HandlerCall::EnableSearchPlugin { .. } => Some("Search plugin status updated successfully"@),
        HandlerCall::UpdateSearchPlugins => Some("Search plugins updated successfully"@),
        HandlerCall::AddRssFeed { .. } => Some("RSS feed added successfully"@),
        HandlerCall::SetRssRule { .. } => Some("RSS rule set successfully"@),
        HandlerCall::SetAppPreferences { .. } => Some("App preferences updated successfully"@),
        _ => None,
    }
}

/// The reply text of a handler tool that only performs an action, once it succeeded.
pub fn handler_done_text(c: &HandlerCall) -> (r: Option<String>)
    ensures
        opt_view(r) == handler_done_message(*c),
{
    match c {
        HandlerCall::AddTorrent { .. } => Some(owned("Torrent added successfully")),
        HandlerCall::PauseTorrent { .. } => Some(owned("Torrent paused successfully")),
        HandlerCall::ResumeTorrent { .. } => Some(owned("Torrent resumed successfully")),
        HandlerCall::DeleteTorrent { .. } => Some(owned("Torrent deleted successfully")),
        HandlerCall::SetGlobalTransferLimits { .. } => Some(owned("Transfer limits updated successfully")),
        HandlerCall::CreateCategory { .. } => Some(owned("Category created successfully")),
        HandlerCall::SetTorrentCategory { .. } => Some(owned("Category set successfully")),
        HandlerCall::AddTorrentTags { .. } => Some(owned("Tags added successfully")),
        HandlerCall::InstallSearchPlugin { .. } => Some(owned("Search plugin installed successfully")),
        HandlerCall::UninstallSearchPlugin { .. } => Some(owned("Search plugin uninstalled successfully")),
        HandlerCall::EnableSearchPlugin { .. } => Some(owned("Search plugin status updated successfully")),
        HandlerCall::UpdateSearchPlugins => Some(owned("Search plugins updated successfully")),
        HandlerCall::AddRssFeed { .. } => Some(owned("RSS feed added successfully")),
        HandlerCall::SetRssRule { .. } => Some(owned("RSS rule set successfully")),
        HandlerCall::SetAppPreferences { .. } => Some(owned("App preferences updated successfully")),
        _ => None,
    }
}

/// The shapes of the tools the handler lists: in lazy mode, listing
/// torrents and showing all tools; else listing torrents and the others.
pub open spec fn handler_tool_shapes(lazy: bool) -> Seq<ToolShape> {
    if lazy {
        seq![
            ("list_torrents"@, "List all torrents"@, Seq::empty(), Seq::empty()),
            ("show_all_tools"@, "Enable all available tools"@, Seq::empty(), Seq::empty()),
        ]
    } else {
        seq![
            ("list_torrents"@, "List all torrents"@, Seq::empty(), Seq::empty()),
            ("search_torrents"@, "Search for torrents (waits 5s for results)"@, seq![("query"@, "string"@, "Search query"@), ("category"@, "string"@, "Optional category"@)], seq!["query"@]),
            ("add_torrent"@, "Add a new torrent"@, seq![("url"@, "string"@, "Magnet URI or HTTP URL"@), ("save_path"@, "string"@, "Optional save path"@), ("category"@, "string"@, "Optional category"@)], seq!["url"@]),
            ("pause_torrent"@, "Pause a torrent"@, seq![("hash"@, "string"@, "Torrent hash (pipe-separated for multiple)"@)], seq!["hash"@]),
            ("resume_torrent"@, "Resume a torrent"@, seq![("hash"@, "string"@, "Torrent hash (pipe-separated for multiple)"@)], seq!["hash"@]),
            ("delete_torrent"@, "Delete a torrent"@, seq![("hash"@, "string"@, "Torrent hash (pipe-separated for multiple)"@), ("delete_files"@, "boolean"@, "Also delete files"@)], seq!["hash"@, "delete_files"@]),
            ("get_torrent_files"@, "Get file list of a torrent"@, seq![("hash"@, "string"@, "Torrent hash"@)], seq!["hash"@]),
            ("get_torrent_properties"@, "Get properties of a torrent"@, seq![("hash"@, "string"@, "Torrent hash"@)], seq!["hash"@]),
            ("get_global_transfer_info"@, "Get global transfer information"@, Seq::empty(), Seq::empty()),
            ("set_global_transfer_limits"@, "Set global download and/or upload limits"@, seq![("dl_limit"@, "integer"@, "Download limit in bytes per second (0 for unlimited)"@), ("up_limit"@, "integer"@, "Upload limit in bytes per second (0 for unlimited)"@)], Seq::empty()),
            ("create_category"@, "Create a new category"@, seq![("name"@, "string"@, "Category name"@), ("save_path"@, "string"@, "Save path for category"@)], seq!["name"@, "save_path"@]),
            ("set_torrent_category"@, "Set category for torrents"@, seq![("hashes"@, "string"@, "Torrent hashes (pipe-separated)"@), ("category"@, "string"@, "Category name"@)], seq!["hashes"@, "category"@]),
            ("get_categories"@, "Get all categories"@, Seq::empty(), Seq::empty()),
            ("add_torrent_tags"@, "Add tags to torrents"@, seq![("hashes"@, "string"@, "Torrent hashes (pipe-separated)"@), ("tags"@, "string"@, "Comma-separated tags"@)], seq!["hashes"@, "tags"@]),
            ("install_search_plugin"@, "Install a search plugin"@, seq![("url"@, "string"@, "URL to the plugin file"@)], seq!["url"@]),
            ("uninstall_search_plugin"@, "Uninstall a search plugin"@, seq![("name"@, "string"@, "Name of the plugin"@)], seq!["name"@]),
            ("enable_search_plugin"@, "Enable or disable a search plugin"@, seq![("name"@, "string"@, "Name of the plugin"@), ("enable"@, "boolean"@, "True to enable, False to disable"@)], seq!["name"@, "enable"@]),
            ("update_search_plugins"@, "Update all search plugins"@, Seq::empty(), Seq::empty()),
            ("get_search_plugins"@, "List installed search plugins"@, Seq::empty(), Seq::empty()),
            ("add_rss_feed"@, "Add a new RSS feed"@, seq![("url"@, "string"@, "URL of the RSS feed"@), ("path"@, "string"@, "Internal path/name for the feed"@)], seq!["url"@, "path"@]),
            ("get_rss_feeds"@, "Get all RSS feeds and their items"@, Seq::empty(), Seq::empty()),
            ("set_rss_rule"@, "Create or update an RSS auto-download rule"@, seq![("name"@, "string"@, "Name of the rule"@), ("definition"@, "string"@, "JSON string defining the rule"@)], seq!["name"@, "definition"@]),
            ("get_rss_rules"@, "Get all RSS auto-download rules"@, Seq::empty(), Seq::empty()),
            ("wait_for_torrent_status"@, "Poll a torrent until it reaches a desired state or timeout"@, seq![("hash"@, "string"@, "Torrent hash"@), ("target_status"@, "string"@, "Status to wait for (e.g., uploading, stalledUP)"@), ("timeout_seconds"@, "integer"@, "Max wait time (default 60, max 300)"@)], seq!["hash"@, "target_status"@]),
            ("get_app_preferences"@, "Get all application preferences"@, Seq::empty(), Seq::empty()),
            ("set_app_preferences"@, "Set one or more application preferences"@, seq![("preferences"@, "string"@, "JSON string of preferences to update"@)], seq!["preferences"@]),
        ]
    }
}

fn lazy_handler_tools() -> (r: Vec<Json>)
    ensures
        shapes(r@) == handler_tool_shapes(true),
{
    let mut r: Vec<Json> = Vec::new();
    proof { lemma_no_shapes(r@); }
    let mut p = no_properties();
    push_tool(&mut r, sdk_tool("list_torrents", "List all torrents", p, None));
    let mut p = no_properties();
    push_tool(&mut r, sdk_tool("show_all_tools", "Enable all available tools", p, None));
    assert(shapes(r@) =~~= handler_tool_shapes(true));
    r
}

#[verifier::rlimit(60)]
fn first_handler_tools() -> (r: Vec<Json>)
    ensures
        shapes(r@) == handler_tool_shapes(false).take(13),
{
    let mut r: Vec<Json> = Vec::new();
    proof { lemma_no_shapes(r@); }
    let mut p = no_properties();
    push_tool(&mut r, sdk_tool("list_torrents", "List all torrents", p, None));
    let mut p = no_properties();
    add_property(&mut p, "query", "string", "Search query");
    add_property(&mut p, "category", "string", "Optional category");
    let mut q = no_required();
    add_required(&mut q, "query");
    push_tool(&mut r, sdk_tool("search_torrents", "Search for torrents (waits 5s for results)", p, Some(q)));
    let mut p = no_properties();
    add_property(&mut p, "url", "string", "Magnet URI or HTTP URL");
    add_property(&mut p, "save_path", "string", "Optional save path");
    add_property(&mut p, "category", "string", "Optional category");
    let mut q = no_required();
    add_required(&mut q, "url");
    push_tool(&mut r, sdk_tool("add_torrent", "Add a new torrent", p, Some(q)));
    let mut p = no_properties();
    add_property(&mut p, "hash", "string", "Torrent hash (pipe-separated for multiple)");
    let mut q = no_required();
    add_required(&mut q, "hash");
    push_tool(&mut r, sdk_tool("pause_torrent", "Pause a torrent", p, Some(q)));
    let mut p = no_properties();
    add_property(&mut p, "hash", "string", "Torrent hash (pipe-separated for multiple)");
    let mut q = no_required();
    add_required(&mut q, "hash");
    push_tool(&mut r, sdk_tool("resume_torrent", "Resume a torrent", p, Some(q)));
    let mut p = no_properties();
    add_property(&mut p, "hash", "string", "Torrent hash (pipe-separated for multiple)");
    add_property(&mut p, "delete_files", "boolean", "Also delete files");
    let mut q = no_required();
    add_required(&mut q, "hash");
    add_required(&mut q, "delete_files");
    push_tool(&mut r, sdk_tool("delete_torrent", "Delete a torrent", p, Some(q)));
    let mut p = no_properties();
    add_property(&mut p, "hash", "string", "Torrent hash");
    let mut q = no_required();
    add_required(&mut q, "hash");
    push_tool(&mut r, sdk_tool("get_torrent_files", "Get file list of a torrent", p, Some(q)));
    let mut p = no_properties();
    add_property(&mut p, "hash", "string", "Torrent hash");
    let mut q = no_required();
    add_required(&mut q, "hash");
    push_tool(&mut r, sdk_tool("get_torrent_properties", "Get properties of a torrent", p, Some(q)));
    let mut p = no_properties();
    push_tool(&mut r, sdk_tool("get_global_transfer_info", "Get global transfer information", p, None));
    let mut p = no_properties();
    add_property(&mut p, "dl_limit", "integer", "Download limit in bytes per second (0 for unlimited)");
    add_property(&mut p, "up_limit", "integer", "Upload limit in bytes per second (0 for unlimited)");
    push_tool(&mut r, sdk_tool("set_global_transfer_limits", "Set global download and/or upload limits", p, None));
    let mut p = no_properties();
    add_property(&mut p, "name", "string", "Category name");
    add_property(&mut p, "save_path", "string", "Save path for category");
    let mut q = no_required();
    add_required(&mut q, "name");
    add_required(&mut q, "save_path");
    push_tool(&mut r, sdk_tool("create_category", "Create a new category", p, Some(q)));
    let mut p = no_properties();
    add_property(&mut p, "hashes", "string", "Torrent hashes (pipe-separated)");
    add_property(&mut p, "category", "string", "Category name");
    let mut q = no_required();
    add_required(&mut q, "hashes");
    add_required(&mut q, "category");
    push_tool(&mut r, sdk_tool("set_torrent_category", "Set category for torrents", p, Some(q)));
    let mut p = no_properties();
    push_tool(&mut r, sdk_tool("get_categories", "Get all categories", p, None));
    assert(shapes(r@) =~~= handler_tool_shapes(false).take(13));
    r
}

#[verifier::rlimit(60)]
fn second_handler_tools() -> (r: Vec<Json>)
    ensures
        shapes(r@) == handler_tool_shapes(false).skip(13),
{
    let mut r: Vec<Json> = Vec::new();
    proof { lemma_no_shapes(r@); }
    let mut p = no_properties();
    add_property(&mut p, "hashes", "string", "Torrent hashes (pipe-separated)");
    add_property(&mut p, "tags", "string", "Comma-separated tags");
    let mut q = no_required();
    add_required(&mut q, "hashes");
    add_required(&mut q, "tags");
    push_tool(&mut r, sdk_tool("add_torrent_tags", "Add tags to torrents", p, Some(q)));
    let mut p = no_properties();
    add_property(&mut p, "url", "string", "URL to the plugin file");
    let mut q = no_required();
    add_required(&mut q, "url");
    push_tool(&mut r, sdk_tool("install_search_plugin", "Install a search plugin", p, Some(q)));
    let mut p = no_properties();
    add_property(&mut p, "name", "string", "Name of the plugin");
    let mut q = no_required();
    add_required(&mut q, "name");
    push_tool(&mut r, sdk_tool("uninstall_search_plugin", "Uninstall a search plugin", p, Some(q)));
    let mut p = no_properties();
    add_property(&mut p, "name", "string", "Name of the plugin");
    add_property(&mut p, "enable", "boolean", "True to enable, False to disable");
    let mut q = no_required();
    add_required(&mut q, "name");
    add_required(&mut q, "enable");
    push_tool(&mut r, sdk_tool("enable_search_plugin", "Enable or disable a search plugin", p, Some(q)));
    let mut p = no_properties();
    push_tool(&mut r, sdk_tool("update_search_plugins", "Update all search plugins", p, None));
    let mut p = no_properties();
    push_tool(&mut r, sdk_tool("get_search_plugins", "List installed search plugins", p, None));
    let mut p = no_properties();
    add_property(&mut p, "url", "string", "URL of the RSS feed");
    add_property(&mut p, "path", "string", "Internal path/name for the feed");
    let mut q = no_required();
    add_required(&mut q, "url");
    add_required(&mut q, "path");
    push_tool(&mut r, sdk_tool("add_rss_feed", "Add a new RSS feed", p, Some(q)));
    let mut p = no_properties();
    push_tool(&mut r, sdk_tool("get_rss_feeds", "Get all RSS feeds and their items", p, None));
    let mut p = no_properties();
    add_property(&mut p, "name", "string", "Name of the rule");
    add_property(&mut p, "definition", "string", "JSON string defining the rule");
    let mut q = no_required();
    add_required(&mut q, "name");
    add_required(&mut q, "definition");
    push_tool(&mut r, sdk_tool("set_rss_rule", "Create or update an RSS auto-download rule", p, Some(q)));
    let mut p = no_properties();
    push_tool(&mut r, sdk_tool("get_rss_rules", "Get all RSS auto-download rules", p, None));
    let mut p = no_properties();
    add_property(&mut p, "hash", "string", "Torrent hash");
    add_property(&mut p, "target_status", "string", "Status to wait for (e.g., uploading, stalledUP)");
    add_property(&mut p, "timeout_seconds", "integer", "Max wait time (default 60, max 300)");
    let mut q = no_required();
    add_required(&mut q, "hash");
    add_required(&mut q, "target_status");
    push_tool(&mut r, sdk_tool("wait_for_torrent_status", "Poll a torrent until it reaches a desired state or timeout", p, Some(q)));
    let mut p = no_properties();
    push_tool(&mut r, sdk_tool("get_app_preferences", "Get all application preferences", p, None));
    let mut p = no_properties();
    add_property(&mut p, "preferences", "string", "JSON string of preferences to update");
    let mut q = no_required();
    add_required(&mut q, "preferences");
    push_tool(&mut r, sdk_tool("set_app_preferences", "Set one or more application preferences", p, Some(q)));
    assert(shapes(r@) =~~= handler_tool_shapes(false).skip(13));
    r
}

fn full_handler_tools() -> (r: Vec<Json>)
    ensures
        shapes(r@) == handler_tool_shapes(false),
{
    let mut r = first_handler_tools();
    let mut more = second_handler_tools();
    let ghost a = r@;
    r.append(&mut more);
    assert(shapes(r@) =~= shapes(a) + handler_tool_shapes(false).skip(13));
    assert(handler_tool_shapes(false).take(13) + handler_tool_shapes(false).skip(13) =~= handler_tool_shapes(false));
    r
}

/// The tools of a `tools/list` reply.
pub open spec fn listed_tools(j: Json) -> Option<Seq<ToolShape>> {
    match j.member("tools"@) {
        Some(Json::Arr(ts)) => Some(shapes(ts@)),
        _ => None,
    }
}

impl AppHandler {
    /// A handler for `client`, showing only the essential tools in lazy mode.
    pub fn new(client: QBitClient, lazy_mode: bool) -> (r: AppHandler)
        ensures
            r.client == client,
            r.lazy_mode == lazy_mode,
    {
        AppHandler { client, lazy_mode }
    }

    /// Handles a request: `tools/list` lists the tools; `tools/call` needs
    /// parameters with the tool's name; `show_all_tools` shows all tools from
    /// then on; any other tool call is read into the call to perform (see
    /// `handler_call_error`). Any other method is not found.
    pub fn handle_method(&mut self, method: &str, params: Option<Json>) -> (r: Result<HandlerStep, ProtocolError>)
        ensures
            method@ == "tools/list"@ ==> (r matches Ok(HandlerStep::Reply(j)) && listed_tools(j) == Some(handler_tool_shapes(old(self).lazy_mode))),
            method@ == "tools/call"@ ==> match params {
                None => (r matches Err(e) && e.code == ErrorCode::InvalidParams && e.message@ == "Missing params"@),
                Some(p) => match str_member(p, "name"@) {
                    None => (r matches Err(e) && e.code == ErrorCode::InvalidParams && e.message@ == "Missing name"@),
                    Some(n) => if n == "show_all_tools"@ {
                        &&& r matches Ok(HandlerStep::Reply(j))
                        &&& reply_text(j) == Some("All tools enabled. Please refresh your tool list."@)
                        &&& bool_member(j, "isError"@) == Some(false)
                        &&& !final(self).lazy_mode
                    } else {
                        match handler_call_error(n, p.member("arguments"@)) {
                            Some((code, m)) => (r matches Err(e) && e.code == code && e.message@ == m),
                            None => (r matches Ok(HandlerStep::Perform(c)) && reads_handler_call(c, n, p.member("arguments"@))),
                        }
                    },
                },
            },
            method@ != "tools/list"@ && method@ != "tools/call"@ ==> (r matches Err(e) && e.code == ErrorCode::MethodNotFound && e.message@ == method@),
            final(self).client == old(self).client,
            !(method@ == "tools/call"@ && (params matches Some(p) && str_member(p, "name"@) == Some("show_all_tools"@)))
                ==> final(self).lazy_mode == old(self).lazy_mode,
    {
        proof {
            reveal_strlit("tools/list");
            reveal_strlit("tools/call");
            assert("tools/list"@[6] != "tools/call"@[6]);
        }
        if same(method, "tools/list") {
            let tools = if self.lazy_mode { lazy_handler_tools() } else { full_handler_tools() };
            proof {
                reveal_with_fuel(crate::json::entry_value, 2);
            }
            let mut e: Vec<(String, Json)> = Vec::new();
            e.push(entry("tools", Json::Arr(tools)));
            Ok(HandlerStep::Reply(Json::Obj(e)))
        } else if same(method, "tools/call") {
            let p = match params {
                Some(p) => p,
                None => {
                    return Err(invalid(owned("Missing params")));
                },
            };
            let name = match get_str(&p, "name") {
                Some(n) => n,
                None => {
                    return Err(invalid(owned("Missing name")));
                },
            };
            if same(name.as_str(), "show_all_tools") {
                self.lazy_mode = false;
                return Ok(HandlerStep::Reply(handler_reply(owned("All tools enabled. Please refresh your tool list."))));
            }
            match parse_handler_call(name.as_str(), p.get("arguments")) {
                Ok(c) => Ok(HandlerStep::Perform(c)),
                Err(e) => Err(e),
            }
        } else {
            Err(ProtocolError { code: ErrorCode::MethodNotFound, message: owned(method) })
        }
    }
}

/// Every tool the handler lists can be called: it is `show_all_tools`,
/// which the handler answers itself, or a tool the handler knows.
pub proof fn handler_listed_tools_are_known(lazy: bool, i: int)
    requires
        0 <= i < handler_tool_shapes(lazy).len(),
    ensures
        handler_tool_shapes(lazy)[i].0 == "show_all_tools"@ || handler_tool(handler_tool_shapes(lazy)[i].0),
{
    if lazy {
        assert(handler_tool_shapes(true)[0].0 == "list_torrents"@);
        assert(handler_tool_shapes(true)[1].0 == "show_all_tools"@);
    } else {
        if i == 0 {
            assert(handler_tool_shapes(false)[0].0 == "list_torrents"@);
        } else if i == 1 {
            assert(handler_tool_shapes(false)[1].0 == "search_torrents"@);
        } else if i == 2 {
            assert(handler_tool_shapes(false)[2].0 == "add_torrent"@);
        } else if i == 3 {
            assert(handler_tool_shapes(false)[3].0 == "pause_torrent"@);
        } else if i == 4 {
            assert(handler_tool_shapes(false)[4].0 == "resume_torrent"@);
        } else if i == 5 {
            assert(handler_tool_shapes(false)[5].0 == "delete_torrent"@);
        } else if i == 6 {
            assert(handler_tool_shapes(false)[6].0 == "get_torrent_files"@);
        } else if i == 7 {
            assert(handler_tool_shapes(false)[7].0 == "get_torrent_properties"@);
        } else if i == 8 {
            assert(handler_tool_shapes(false)[8].0 == "get_global_transfer_info"@);
        } else if i == 9 {
            assert(handler_tool_shapes(false)[9].0 == "set_global_transfer_limits"@);
        } else if i == 10 {
            assert(handler_tool_shapes(false)[10].0 == "create_category"@);
        } else if i == 11 {
            assert(handler_tool_shapes(false)[11].0 == "set_torrent_category"@);
        } else if i == 12 {
            assert(handler_tool_shapes(false)[12].0 == "get_categories"@);
        } else if i == 13 {
            assert(handler_tool_shapes(false)[13].0 == "add_torrent_tags"@);
        } else if i == 14 {
            assert(handler_tool_shapes(false)[14].0 == "install_search_plugin"@);
        } else if i == 15 {
            assert(handler_tool_shapes(false)[15].0 == "uninstall_search_plugin"@);
        } else if i == 16 {
            assert(handler_tool_shapes(false)[16].0 == "enable_search_plugin"@);
        } else if i == 17 {
            assert(handler_tool_shapes(false)[17].0 == "update_search_plugins"@);
        } else if i == 18 {
            assert(handler_tool_shapes(false)[18].0 == "get_search_plugins"@);
        } else if i == 19 {
            assert(handler_tool_shapes(false)[19].0 == "add_rss_feed"@);
        } else if i == 20 {
            assert(handler_tool_shapes(false)[20].0 == "get_rss_feeds"@);
        } else if i == 21 {
            assert(handler_tool_shapes(false)[21].0 == "set_rss_rule"@);
        } else if i == 22 {
            assert(handler_tool_shapes(false)[22].0 == "get_rss_rules"@);
        } else if i == 23 {
            assert(handler_tool_shapes(false)[23].0 == "wait_for_torrent_status"@);
        } else if i == 24 {
            assert(handler_tool_shapes(false)[24].0 == "get_app_preferences"@);
        } else if i == 25 {
            assert(handler_tool_shapes(false)[25].0 == "set_app_preferences"@);
        }
    }
}

} // verus!
