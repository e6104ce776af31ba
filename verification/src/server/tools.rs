//! The tools the server offers: their definitions, as listed to an agent.
use vstd::prelude::*;
use crate::json::{Json, jstr, entry};
use crate::text::owned;
use crate::server::mcp::{str_member, str_or_empty, McpState, shows_all_tools};
use crate::server::calls::known_tool;

verus! {

/// What a property of a tool declares: its name, type and description.
pub type PropertyShape = (Seq<char>, Seq<char>, Seq<char>);

/// What a tool definition declares: its name, its description, its
/// properties in order, and its required properties.
pub type ToolShape = (Seq<char>, Seq<char>, Seq<PropertyShape>, Seq<Seq<char>>);

/// The properties of a tool's input schema.
pub open spec fn schema_properties(t: Json) -> Option<Seq<(String, Json)>> {
    match t.member("inputSchema"@) {
        Some(s) => match s.member("properties"@) {
            Some(Json::Obj(e)) => Some(e@),
            _ => None,
        },
        None => None,
    }
}

/// The required properties of a tool's input schema.
pub open spec fn schema_required(t: Json) -> Option<Seq<Json>> {
    match t.member("inputSchema"@) {
        Some(s) => match s.member("required"@) {
            Some(Json::Arr(a)) => Some(a@),
            _ => None,
        },
        None => None,
    }
}

/// What a property declares.
pub open spec fn property_shape(p: (String, Json)) -> PropertyShape {
    (p.0@, str_or_empty(p.1, "type"@), str_or_empty(p.1, "description"@))
}

/// What properties declare.
pub open spec fn property_shapes(ps: Seq<(String, Json)>) -> Seq<PropertyShape> {
    ps.map_values(|p: (String, Json)| property_shape(p))
}

/// The text of a JSON string, else empty.
pub open spec fn text_of(j: Json) -> Seq<char> {
    match j {
        Json::Str(s) => s@,
        _ => Seq::empty(),
    }
}

/// The names of required properties.
pub open spec fn required_names(rs: Seq<Json>) -> Seq<Seq<char>> {
    rs.map_values(|j: Json| text_of(j))
}

/// What a tool definition declares.
pub open spec fn tool_shape(t: Json) -> ToolShape {
    (
        str_or_empty(t, "name"@),
        str_or_empty(t, "description"@),
        match schema_properties(t) {
            Some(ps) => property_shapes(ps),
            None => Seq::empty(),
        },
        match schema_required(t) {
            Some(rs) => required_names(rs),
            None => Seq::empty(),
        },
    )
}

/// What each of the tool definitions declares.
pub open spec fn shapes(ts: Seq<Json>) -> Seq<ToolShape> {
    ts.map_values(|t: Json| tool_shape(t))
}

pub(crate) proof fn lemma_no_shapes(ts: Seq<Json>)
    requires
        ts.len() == 0,
    ensures
        shapes(ts) == Seq::<ToolShape>::empty(),
{
    assert(shapes(ts) =~= Seq::<ToolShape>::empty());
}

proof fn lemma_tool_keys()
    ensures
        "name"@ != "description"@,
        "name"@ != "inputSchema"@,
        "description"@ != "inputSchema"@,
        "type"@ != "properties"@,
        "type"@ != "required"@,
        "properties"@ != "required"@,
        "type"@ != "description"@,
{
    reveal_strlit("name");
    reveal_strlit("description");
    reveal_strlit("inputSchema");
    reveal_strlit("type");
    reveal_strlit("properties");
    reveal_strlit("required");
    assert("name"@[0] != "description"@[0]);
    assert("name"@[0] != "inputSchema"@[0]);
    assert("description"@[0] != "inputSchema"@[0]);
    assert("type"@[0] != "properties"@[0]);
    assert("type"@[0] != "required"@[0]);
    assert("properties"@[0] != "required"@[0]);
    assert("type"@[0] != "description"@[0]);
}

pub(crate) fn no_properties() -> (r: Vec<(String, Json)>)
    ensures
        r@.len() == 0,
        property_shapes(r@) == Seq::<PropertyShape>::empty(),
{
    let r: Vec<(String, Json)> = Vec::new();
    assert(property_shapes(r@) =~= Seq::<PropertyShape>::empty());
    r
}

pub(crate) fn no_required() -> (r: Vec<Json>)
    ensures
        r@.len() == 0,
        required_names(r@) == Seq::<Seq<char>>::empty(),
{
    let r: Vec<Json> = Vec::new();
    assert(required_names(r@) =~= Seq::<Seq<char>>::empty());
    r
}

/// The schema of a property: its type and description.
pub(crate) fn property_schema(ty: &str, description: &str) -> (r: Json)
    ensures
        str_member(r, "type"@) == Some(ty@),
        str_member(r, "description"@) == Some(description@),
{
    proof {
        lemma_tool_keys();
        reveal_with_fuel(crate::json::entry_value, 3);
    }
    let mut e: Vec<(String, Json)> = Vec::new();
    e.push(entry("type", jstr(ty)));
    e.push(entry("description", jstr(description)));
    Json::Obj(e)
}

pub(crate) fn add_property(ps: &mut Vec<(String, Json)>, key: &str, ty: &str, description: &str)
    ensures
        property_shapes(final(ps)@) == property_shapes(old(ps)@).push((key@, ty@, description@)),
{
    let p = entry(key, property_schema(ty, description));
    ps.push(p);
    assert(property_shapes(ps@) =~= property_shapes(old(ps)@).push((key@, ty@, description@))) by {
        assert(ps@.last() == p);
    }
}

pub(crate) fn add_required(rs: &mut Vec<Json>, key: &str)
    ensures
        required_names(final(rs)@) == required_names(old(rs)@).push(key@),
{
    rs.push(jstr(key));
    assert(required_names(rs@) =~= required_names(old(rs)@).push(key@));
}

/// Adds a tool definition.
pub(crate) fn push_tool(ts: &mut Vec<Json>, t: Json)
    ensures
        final(ts)@ == old(ts)@.push(t),
        shapes(final(ts)@) == shapes(old(ts)@).push(tool_shape(t)),
{
    ts.push(t);
    assert(shapes(ts@) =~= shapes(old(ts)@).push(tool_shape(t)));
}

/// How a tool definition is laid out: its name, description and input
/// schema, in that order; the schema holds its type, properties and
/// required properties, in that order.
pub open spec fn tool_layout(t: Json) -> bool {
    &&& t matches Json::Obj(e)
    &&& e@.len() == 3
    &&& e@[0].0@ == "name"@
    &&& e@[1].0@ == "description"@
    &&& e@[2].0@ == "inputSchema"@
    &&& e@[2].1 matches Json::Obj(s)
    &&& s@.len() == 3
    &&& s@[0].0@ == "type"@
    &&& s@[1].0@ == "properties"@
    &&& s@[2].0@ == "required"@
    &&& s@[1].1 is Obj
}

/// Whether each tool definition is laid out as `tool_layout` says.
pub open spec fn all_have_schema(ts: Seq<Json>) -> bool {
    forall|i: int| 0 <= i < ts.len() ==> tool_layout(#[trigger] ts[i])
}

fn add_tool(ts: &mut Vec<Json>, t: Json)
    requires
        all_have_schema(old(ts)@),
        tool_layout(t),
    ensures
        final(ts)@ == old(ts)@.push(t),
        shapes(final(ts)@) == shapes(old(ts)@).push(tool_shape(t)),
        all_have_schema(final(ts)@),
{
    ts.push(t);
    assert(shapes(ts@) =~= shapes(old(ts)@).push(tool_shape(t)));
    assert forall|i: int| 0 <= i < ts@.len() implies tool_layout(#[trigger] ts@[i]) by {
        if i < old(ts)@.len() {
            assert(ts@[i] == old(ts)@[i]);
        }
    }
}

/// A tool definition: name, description and input schema.
fn tool_definition(name: &str, description: &str, properties: Vec<(String, Json)>, required: Vec<Json>) -> (r: Json)
    ensures
        tool_shape(r) == (name@, description@, property_shapes(properties@), required_names(required@)),
        schema_properties(r) == Some(properties@),
        tool_layout(r),
{
    proof {
        lemma_tool_keys();
        reveal_with_fuel(crate::json::entry_value, 4);
    }
    let mut s: Vec<(String, Json)> = Vec::new();
    s.push(entry("type", jstr("object")));
    s.push(entry("properties", Json::Obj(properties)));
    s.push(entry("required", Json::Arr(required)));
    let mut e: Vec<(String, Json)> = Vec::new();
    e.push(entry("name", jstr(name)));
    e.push(entry("description", jstr(description)));
    e.push(entry("inputSchema", Json::Obj(s)));
    Json::Obj(e)
}

fn append_tools(ts: &mut Vec<Json>, more: &mut Vec<Json>)
    requires
        all_have_schema(old(ts)@),
        all_have_schema(old(more)@),
    ensures
        all_have_schema(final(ts)@),
        final(ts)@ == old(ts)@ + old(more)@,
        shapes(final(ts)@) == shapes(old(ts)@) + shapes(old(more)@),
{
    let ghost a = ts@;
    let ghost b = more@;
    ts.append(more);
    assert(shapes(ts@) =~= shapes(old(ts)@) + shapes(old(more)@));
    assert forall|i: int| 0 <= i < ts@.len() implies tool_layout(#[trigger] ts@[i]) by {
        if i < a.len() {
            assert(ts@[i] == a[i]);
        } else {
            assert(ts@[i] == b[i - a.len()]);
        }
    }
}

/// The shapes of the tools for controlling single torrents and reading their details.
pub open spec fn basic_torrent_tool_shapes() -> Seq<ToolShape> {
    seq![
        ("list_torrents"@, "List all torrents with optional filtering and sorting"@, seq![("filter"@, "string"@, "Filter by status (all, downloading, completed, paused, active, inactive, resumed, stalled, stalled_uploading, stalled_downloading, errored)"@), ("category"@, "string"@, "Filter by category"@), ("tag"@, "string"@, "Filter by tag"@), ("sort"@, "string"@, "Sort by column name (e.g., name, size, progress, added_on, dlspeed, upspeed, ratio, eta, state, category, tags)"@), ("reverse"@, "boolean"@, "True to reverse sort order"@), ("limit"@, "integer"@, "Maximum number of torrents to return"@), ("offset"@, "integer"@, "Number of torrents to skip"@)], Seq::empty()),
        ("add_torrent"@, "Add a new torrent"@, seq![("url"@, "string"@, "Magnet URI or HTTP URL"@), ("save_path"@, "string"@, "Optional save path"@), ("category"@, "string"@, "Optional category"@)], seq!["url"@]),
        ("pause_torrent"@, "Pause a torrent. ALWAYS verify torrent exists and its current state via list_torrents before calling this."@, seq![("hash"@, "string"@, "Torrent hash (pipe-separated for multiple)"@)], seq!["hash"@]),
        ("resume_torrent"@, "Resume a torrent. ALWAYS verify torrent exists and its current state via list_torrents before calling this."@, seq![("hash"@, "string"@, "Torrent hash (pipe-separated for multiple)"@)], seq!["hash"@]),
        ("delete_torrent"@, "Delete a torrent. DESTRUCTIVE: Inform the user and confirm before calling, especially if delete_files is true."@, seq![("hash"@, "string"@, "Torrent hash (pipe-separated for multiple)"@), ("delete_files"@, "boolean"@, "Also delete files from disk"@)], seq!["hash"@, "delete_files"@]),
        ("reannounce_torrent"@, "Reannounce a torrent"@, seq![("hash"@, "string"@, "Torrent hash (pipe-separated for multiple)"@)], seq!["hash"@]),
        ("recheck_torrent"@, "Recheck a torrent"@, seq![("hash"@, "string"@, "Torrent hash (pipe-separated for multiple)"@)], seq!["hash"@]),
        ("get_torrent_files"@, "Get file list of a torrent"@, seq![("hash"@, "string"@, "Torrent hash"@)], seq!["hash"@]),
        ("get_torrent_properties"@, "Get properties of a torrent"@, seq![("hash"@, "string"@, "Torrent hash"@)], seq!["hash"@]),
    ]
}

fn basic_torrent_tools() -> (r: Vec<Json>)
    ensures
        shapes(r@) == basic_torrent_tool_shapes(),
        all_have_schema(r@),
{
    let mut r: Vec<Json> = Vec::new();
    proof { lemma_no_shapes(r@); }
    let mut p = no_properties();
    add_property(&mut p, "filter", "string", "Filter by status (all, downloading, completed, paused, active, inactive, resumed, stalled, stalled_uploading, stalled_downloading, errored)");
    add_property(&mut p, "category", "string", "Filter by category");
    add_property(&mut p, "tag", "string", "Filter by tag");
    add_property(&mut p, "sort", "string", "Sort by column name (e.g., name, size, progress, added_on, dlspeed, upspeed, ratio, eta, state, category, tags)");
    add_property(&mut p, "reverse", "boolean", "True to reverse sort order");
    add_property(&mut p, "limit", "integer", "Maximum number of torrents to return");
    add_property(&mut p, "offset", "integer", "Number of torrents to skip");
    let mut q = no_required();
    add_tool(&mut r, tool_definition("list_torrents", "List all torrents with optional filtering and sorting", p, q));
    let mut p = no_properties();
    add_property(&mut p, "url", "string", "Magnet URI or HTTP URL");
    add_property(&mut p, "save_path", "string", "Optional save path");
    add_property(&mut p, "category", "string", "Optional category");
    let mut q = no_required();
    add_required(&mut q, "url");
    add_tool(&mut r, tool_definition("add_torrent", "Add a new torrent", p, q));
    let mut p = no_properties();
    add_property(&mut p, "hash", "string", "Torrent hash (pipe-separated for multiple)");
    let mut q = no_required();
    add_required(&mut q, "hash");
    add_tool(&mut r, tool_definition("pause_torrent", "Pause a torrent. ALWAYS verify torrent exists and its current state via list_torrents before calling this.", p, q));
    let mut p = no_properties();
    add_property(&mut p, "hash", "string", "Torrent hash (pipe-separated for multiple)");
    let mut q = no_required();
    add_required(&mut q, "hash");
    add_tool(&mut r, tool_definition("resume_torrent", "Resume a torrent. ALWAYS verify torrent exists and its current state via list_torrents before calling this.", p, q));
    let mut p = no_properties();
    add_property(&mut p, "hash", "string", "Torrent hash (pipe-separated for multiple)");
    add_property(&mut p, "delete_files", "boolean", "Also delete files from disk");
    let mut q = no_required();
    add_required(&mut q, "hash");
    add_required(&mut q, "delete_files");
    add_tool(&mut r, tool_definition("delete_torrent", "Delete a torrent. DESTRUCTIVE: Inform the user and confirm before calling, especially if delete_files is true.", p, q));
    let mut p = no_properties();
    add_property(&mut p, "hash", "string", "Torrent hash (pipe-separated for multiple)");
    let mut q = no_required();
    add_required(&mut q, "hash");
    add_tool(&mut r, tool_definition("reannounce_torrent", "Reannounce a torrent", p, q));
    let mut p = no_properties();
    add_property(&mut p, "hash", "string", "Torrent hash (pipe-separated for multiple)");
    let mut q = no_required();
    add_required(&mut q, "hash");
    add_tool(&mut r, tool_definition("recheck_torrent", "Recheck a torrent", p, q));
    let mut p = no_properties();
    add_property(&mut p, "hash", "string", "Torrent hash");
    let mut q = no_required();
    add_required(&mut q, "hash");
    add_tool(&mut r, tool_definition("get_torrent_files", "Get file list of a torrent", p, q));
    let mut p = no_properties();
    add_property(&mut p, "hash", "string", "Torrent hash");
    let mut q = no_required();
    add_required(&mut q, "hash");
    add_tool(&mut r, tool_definition("get_torrent_properties", "Get properties of a torrent", p, q));
    assert(shapes(r@) =~~= basic_torrent_tool_shapes());
    r
}

/// The shapes of the tools for organizing torrents and bulk maintenance.
pub open spec fn organizing_tool_shapes() -> Seq<ToolShape> {
    seq![
        ("create_category"@, "Create a new category"@, seq![("name"@, "string"@, "Category name"@), ("save_path"@, "string"@, "Save path for category"@)], seq!["name"@, "save_path"@]),
        ("set_torrent_category"@, "Set category for torrents"@, seq![("hashes"@, "string"@, "Torrent hashes (pipe-separated)"@), ("category"@, "string"@, "Category name"@)], seq!["hashes"@, "category"@]),
        ("get_categories"@, "Get all categories"@, Seq::empty(), Seq::empty()),
        ("add_torrent_tags"@, "Add tags to torrents"@, seq![("hashes"@, "string"@, "Torrent hashes (pipe-separated)"@), ("tags"@, "string"@, "Comma-separated tags"@)], seq!["hashes"@, "tags"@]),
        ("wait_for_torrent_status"@, "Poll a torrent until it reaches a desired state or timeout"@, seq![("hash"@, "string"@, "Torrent hash"@), ("target_status"@, "string"@, "Status to wait for (e.g., uploading, stalledUP)"@), ("timeout_seconds"@, "integer"@, "Max wait time (default 60, max 300)"@)], seq!["hash"@, "target_status"@]),
        ("cleanup_completed"@, "Bulk remove completed torrents based on ratio or age. DESTRUCTIVE: Inform the user and confirm before calling."@, seq![("min_ratio"@, "number"@, "Minimum ratio to trigger removal"@), ("max_age_days"@, "integer"@, "Maximum age in days since completion to trigger removal"@), ("delete_files"@, "boolean"@, "Also delete downloaded files from disk"@)], seq!["delete_files"@]),
        ("mass_rename"@, "Rename files in a torrent using a regex pattern"@, seq![("hash"@, "string"@, "Torrent hash"@), ("pattern"@, "string"@, "Regex pattern to match"@), ("replacement"@, "string"@, "Replacement string (supports $1, $2, etc.)"@)], seq!["hash"@, "pattern"@, "replacement"@]),
        ("find_duplicates"@, "Find duplicate torrents by name"@, Seq::empty(), Seq::empty()),
    ]
}

fn organizing_tools() -> (r: Vec<Json>)
    ensures
        shapes(r@) == organizing_tool_shapes(),
        all_have_schema(r@),
{
    let mut r: Vec<Json> = Vec::new();
    proof { lemma_no_shapes(r@); }
    let mut p = no_properties();
    add_property(&mut p, "name", "string", "Category name");
    add_property(&mut p, "save_path", "string", "Save path for category");
    let mut q = no_required();
    add_required(&mut q, "name");
    add_required(&mut q, "save_path");
    add_tool(&mut r, tool_definition("create_category", "Create a new category", p, q));
    let mut p = no_properties();
    add_property(&mut p, "hashes", "string", "Torrent hashes (pipe-separated)");
    add_property(&mut p, "category", "string", "Category name");
    let mut q = no_required();
    add_required(&mut q, "hashes");
    add_required(&mut q, "category");
    add_tool(&mut r, tool_definition("set_torrent_category", "Set category for torrents", p, q));
    let mut p = no_properties();
    let mut q = no_required();
    add_tool(&mut r, tool_definition("get_categories", "Get all categories", p, q));
    let mut p = no_properties();
    add_property(&mut p, "hashes", "string", "Torrent hashes (pipe-separated)");
    add_property(&mut p, "tags", "string", "Comma-separated tags");
    let mut q = no_required();
    add_required(&mut q, "hashes");
    add_required(&mut q, "tags");
    add_tool(&mut r, tool_definition("add_torrent_tags", "Add tags to torrents", p, q));
    let mut p = no_properties();
    add_property(&mut p, "hash", "string", "Torrent hash");
    add_property(&mut p, "target_status", "string", "Status to wait for (e.g., uploading, stalledUP)");
    add_property(&mut p, "timeout_seconds", "integer", "Max wait time (default 60, max 300)");
    let mut q = no_required();
    add_required(&mut q, "hash");
    add_required(&mut q, "target_status");
    add_tool(&mut r, tool_definition("wait_for_torrent_status", "Poll a torrent until it reaches a desired state or timeout", p, q));
    let mut p = no_properties();
    add_property(&mut p, "min_ratio", "number", "Minimum ratio to trigger removal");
    add_property(&mut p, "max_age_days", "integer", "Maximum age in days since completion to trigger removal");
    add_property(&mut p, "delete_files", "boolean", "Also delete downloaded files from disk");
    let mut q = no_required();
    add_required(&mut q, "delete_files");
    add_tool(&mut r, tool_definition("cleanup_completed", "Bulk remove completed torrents based on ratio or age. DESTRUCTIVE: Inform the user and confirm before calling.", p, q));
    let mut p = no_properties();
    add_property(&mut p, "hash", "string", "Torrent hash");
    add_property(&mut p, "pattern", "string", "Regex pattern to match");
    add_property(&mut p, "replacement", "string", "Replacement string (supports $1, $2, etc.)");
    let mut q = no_required();
    add_required(&mut q, "hash");
    add_required(&mut q, "pattern");
    add_required(&mut q, "replacement");
    add_tool(&mut r, tool_definition("mass_rename", "Rename files in a torrent using a regex pattern", p, q));
    let mut p = no_properties();
    let mut q = no_required();
    add_tool(&mut r, tool_definition("find_duplicates", "Find duplicate torrents by name", p, q));
    assert(shapes(r@) =~~= organizing_tool_shapes());
    r
}

/// The shapes of the tools for tuning how torrents download and seed, and their trackers.
pub open spec fn tuning_tool_shapes() -> Seq<ToolShape> {
    seq![
        ("set_torrent_share_limits"@, "Set share limits for specific torrents"@, seq![("hashes"@, "string"@, "Torrent hashes (pipe-separated)"@), ("ratio_limit"@, "number"@, "Ratio limit (-2 for global, -1 for unlimited)"@), ("seeding_time_limit"@, "integer"@, "Seeding time limit in minutes (-2 for global, -1 for unlimited)"@), ("inactive_seeding_time_limit"@, "integer"@, "Inactive seeding time limit in minutes (-2 for global, -1 for unlimited)"@)], seq!["hashes"@, "ratio_limit"@, "seeding_time_limit"@]),
        ("set_torrent_speed_limits"@, "Set download and/or upload limits for specific torrents"@, seq![("hashes"@, "string"@, "Torrent hashes (pipe-separated)"@), ("dl_limit"@, "integer"@, "Download limit in bytes per second (0 for unlimited)"@), ("up_limit"@, "integer"@, "Upload limit in bytes per second (0 for unlimited)"@)], seq!["hashes"@]),
        ("toggle_sequential_download"@, "Toggle sequential download for torrents"@, seq![("hashes"@, "string"@, "Torrent hashes (pipe-separated)"@)], seq!["hashes"@]),
        ("toggle_first_last_piece_priority"@, "Toggle first/last piece priority for torrents"@, seq![("hashes"@, "string"@, "Torrent hashes (pipe-separated)"@)], seq!["hashes"@]),
        ("set_force_start"@, "Set force start for torrents"@, seq![("hashes"@, "string"@, "Torrent hashes (pipe-separated)"@), ("value"@, "boolean"@, "True to force start, False otherwise"@)], seq!["hashes"@, "value"@]),
        ("set_super_seeding"@, "Set super seeding for torrents"@, seq![("hashes"@, "string"@, "Torrent hashes (pipe-separated)"@), ("value"@, "boolean"@, "True to enable super seeding, False otherwise"@)], seq!["hashes"@, "value"@]),
        ("add_trackers"@, "Add trackers to torrents"@, seq![("hashes"@, "string"@, "Torrent hashes (pipe-separated)"@), ("urls"@, "string"@, "URLs of the trackers (newline-separated)"@)], seq!["hashes"@, "urls"@]),
        ("edit_tracker"@, "Edit a tracker URL for a torrent"@, seq![("hash"@, "string"@, "Torrent hash"@), ("orig_url"@, "string"@, "Original tracker URL"@), ("new_url"@, "string"@, "New tracker URL"@)], seq!["hash"@, "orig_url"@, "new_url"@]),
    ]
}

fn tuning_tools() -> (r: Vec<Json>)
    ensures
        shapes(r@) == tuning_tool_shapes(),
        all_have_schema(r@),
{
    let mut r: Vec<Json> = Vec::new();
    proof { lemma_no_shapes(r@); }
    let mut p = no_properties();
    add_property(&mut p, "hashes", "string", "Torrent hashes (pipe-separated)");
    add_property(&mut p, "ratio_limit", "number", "Ratio limit (-2 for global, -1 for unlimited)");
    add_property(&mut p, "seeding_time_limit", "integer", "Seeding time limit in minutes (-2 for global, -1 for unlimited)");
    add_property(&mut p, "inactive_seeding_time_limit", "integer", "Inactive seeding time limit in minutes (-2 for global, -1 for unlimited)");
    let mut q = no_required();
    add_required(&mut q, "hashes");
    add_required(&mut q, "ratio_limit");
    add_required(&mut q, "seeding_time_limit");
    add_tool(&mut r, tool_definition("set_torrent_share_limits", "Set share limits for specific torrents", p, q));
    let mut p = no_properties();
    add_property(&mut p, "hashes", "string", "Torrent hashes (pipe-separated)");
    add_property(&mut p, "dl_limit", "integer", "Download limit in bytes per second (0 for unlimited)");
    add_property(&mut p, "up_limit", "integer", "Upload limit in bytes per second (0 for unlimited)");
    let mut q = no_required();
    add_required(&mut q, "hashes");
    add_tool(&mut r, tool_definition("set_torrent_speed_limits", "Set download and/or upload limits for specific torrents", p, q));
    let mut p = no_properties();
    add_property(&mut p, "hashes", "string", "Torrent hashes (pipe-separated)");
    let mut q = no_required();
    add_required(&mut q, "hashes");
    add_tool(&mut r, tool_definition("toggle_sequential_download", "Toggle sequential download for torrents", p, q));
    let mut p = no_properties();
    add_property(&mut p, "hashes", "string", "Torrent hashes (pipe-separated)");
    let mut q = no_required();
    add_required(&mut q, "hashes");
    add_tool(&mut r, tool_definition("toggle_first_last_piece_priority", "Toggle first/last piece priority for torrents", p, q));
    let mut p = no_properties();
    add_property(&mut p, "hashes", "string", "Torrent hashes (pipe-separated)");
    add_property(&mut p, "value", "boolean", "True to force start, False otherwise");
    let mut q = no_required();
    add_required(&mut q, "hashes");
    add_required(&mut q, "value");
    add_tool(&mut r, tool_definition("set_force_start", "Set force start for torrents", p, q));
    let mut p = no_properties();
    add_property(&mut p, "hashes", "string", "Torrent hashes (pipe-separated)");
    add_property(&mut p, "value", "boolean", "True to enable super seeding, False otherwise");
    let mut q = no_required();
    add_required(&mut q, "hashes");
    add_required(&mut q, "value");
    add_tool(&mut r, tool_definition("set_super_seeding", "Set super seeding for torrents", p, q));
    let mut p = no_properties();
    add_property(&mut p, "hashes", "string", "Torrent hashes (pipe-separated)");
    add_property(&mut p, "urls", "string", "URLs of the trackers (newline-separated)");
    let mut q = no_required();
    add_required(&mut q, "hashes");
    add_required(&mut q, "urls");
    add_tool(&mut r, tool_definition("add_trackers", "Add trackers to torrents", p, q));
    let mut p = no_properties();
    add_property(&mut p, "hash", "string", "Torrent hash");
    add_property(&mut p, "orig_url", "string", "Original tracker URL");
    add_property(&mut p, "new_url", "string", "New tracker URL");
    let mut q = no_required();
    add_required(&mut q, "hash");
    add_required(&mut q, "orig_url");
    add_required(&mut q, "new_url");
    add_tool(&mut r, tool_definition("edit_tracker", "Edit a tracker URL for a torrent", p, q));
    assert(shapes(r@) =~~= tuning_tool_shapes());
    r
}

/// The shapes of the tools for renaming, file priorities, and removing categories and tags.
pub open spec fn housekeeping_tool_shapes() -> Seq<ToolShape> {
    seq![
        ("remove_trackers"@, "Remove trackers from torrents"@, seq![("hashes"@, "string"@, "Torrent hashes (pipe-separated)"@), ("urls"@, "string"@, "URLs of the trackers to remove (newline-separated)"@)], seq!["hashes"@, "urls"@]),
        ("rename_folder"@, "Rename a folder in a torrent"@, seq![("hash"@, "string"@, "Torrent hash"@), ("old_path"@, "string"@, "Current folder path"@), ("new_path"@, "string"@, "New folder path"@)], seq!["hash"@, "old_path"@, "new_path"@]),
        ("set_file_priority"@, "Set priority for files in a torrent"@, seq![("hash"@, "string"@, "Torrent hash"@), ("id"@, "string"@, "File IDs (pipe-separated)"@), ("priority"@, "integer"@, "Priority (0: Do not download, 1: Normal, 6: High, 7: Maximal)"@)], seq!["hash"@, "id"@, "priority"@]),
        ("remove_categories"@, "Remove one or more categories"@, seq![("categories"@, "string"@, "Category names (newline-separated)"@)], seq!["categories"@]),
        ("remove_tags"@, "Remove tags from torrents"@, seq![("hashes"@, "string"@, "Torrent hashes (pipe-separated)"@), ("tags"@, "string"@, "Tags to remove (comma-separated)"@)], seq!["hashes"@, "tags"@]),
        ("create_tags"@, "Create one or more tags"@, seq![("tags"@, "string"@, "Tags to create (comma-separated)"@)], seq!["tags"@]),
        ("delete_tags"@, "Delete one or more tags"@, seq![("tags"@, "string"@, "Tags to delete (comma-separated)"@)], seq!["tags"@]),
    ]
}

fn housekeeping_tools() -> (r: Vec<Json>)
    ensures
        shapes(r@) == housekeeping_tool_shapes(),
        all_have_schema(r@),
{
    let mut r: Vec<Json> = Vec::new();
    proof { lemma_no_shapes(r@); }
    let mut p = no_properties();
    add_property(&mut p, "hashes", "string", "Torrent hashes (pipe-separated)");
    add_property(&mut p, "urls", "string", "URLs of the trackers to remove (newline-separated)");
    let mut q = no_required();
    add_required(&mut q, "hashes");
    add_required(&mut q, "urls");
    add_tool(&mut r, tool_definition("remove_trackers", "Remove trackers from torrents", p, q));
    let mut p = no_properties();
    add_property(&mut p, "hash", "string", "Torrent hash");
    add_property(&mut p, "old_path", "string", "Current folder path");
    add_property(&mut p, "new_path", "string", "New folder path");
    let mut q = no_required();
    add_required(&mut q, "hash");
    add_required(&mut q, "old_path");
    add_required(&mut q, "new_path");
    add_tool(&mut r, tool_definition("rename_folder", "Rename a folder in a torrent", p, q));
    let mut p = no_properties();
    add_property(&mut p, "hash", "string", "Torrent hash");
    add_property(&mut p, "id", "string", "File IDs (pipe-separated)");
    add_property(&mut p, "priority", "integer", "Priority (0: Do not download, 1: Normal, 6: High, 7: Maximal)");
    let mut q = no_required();
    add_required(&mut q, "hash");
    add_required(&mut q, "id");
    add_required(&mut q, "priority");
    add_tool(&mut r, tool_definition("set_file_priority", "Set priority for files in a torrent", p, q));
    let mut p = no_properties();
    add_property(&mut p, "categories", "string", "Category names (newline-separated)");
    let mut q = no_required();
    add_required(&mut q, "categories");
    add_tool(&mut r, tool_definition("remove_categories", "Remove one or more categories", p, q));
    let mut p = no_properties();
    add_property(&mut p, "hashes", "string", "Torrent hashes (pipe-separated)");
    add_property(&mut p, "tags", "string", "Tags to remove (comma-separated)");
    let mut q = no_required();
    add_required(&mut q, "hashes");
    add_required(&mut q, "tags");
    add_tool(&mut r, tool_definition("remove_tags", "Remove tags from torrents", p, q));
    let mut p = no_properties();
    add_property(&mut p, "tags", "string", "Tags to create (comma-separated)");
    let mut q = no_required();
    add_required(&mut q, "tags");
    add_tool(&mut r, tool_definition("create_tags", "Create one or more tags", p, q));
    let mut p = no_properties();
    add_property(&mut p, "tags", "string", "Tags to delete (comma-separated)");
    let mut q = no_required();
    add_required(&mut q, "tags");
    add_tool(&mut r, tool_definition("delete_tags", "Delete one or more tags", p, q));
    assert(shapes(r@) =~~= housekeeping_tool_shapes());
    r
}

/// The shapes of the tools for managing torrents, their categories, tags, trackers and files, in the order they are listed.
pub open spec fn torrent_tool_shapes() -> Seq<ToolShape> {
    basic_torrent_tool_shapes() + organizing_tool_shapes() + tuning_tool_shapes() + housekeeping_tool_shapes()
}

/// The tools for managing torrents, their categories, tags, trackers and files.
pub fn torrent_tools() -> (r: Vec<Json>)
    ensures
        shapes(r@) == torrent_tool_shapes(),
        all_have_schema(r@),
{
    let mut r = basic_torrent_tools();
    let mut more = organizing_tools();
    append_tools(&mut r, &mut more);
    let mut more = tuning_tools();
    append_tools(&mut r, &mut more);
    let mut more = housekeeping_tools();
    append_tools(&mut r, &mut more);
    r
}

/// The shapes of the tools for searching and managing search plugins, in the order they are listed.
pub open spec fn search_tool_shapes() -> Seq<ToolShape> {
    seq![
        ("search_torrents"@, "Search for torrents. ASYNCHRONOUS: Results might be incomplete on the first call. Use get_search_results for polling if needed."@, seq![("query"@, "string"@, "Search query"@), ("category"@, "string"@, "Optional category"@)], seq!["query"@]),
        ("install_search_plugin"@, "Install a search plugin"@, seq![("url"@, "string"@, "URL to the plugin file"@)], seq!["url"@]),
        ("uninstall_search_plugin"@, "Uninstall a search plugin"@, seq![("name"@, "string"@, "Name of the plugin"@)], seq!["name"@]),
        ("enable_search_plugin"@, "Enable or disable a search plugin"@, seq![("name"@, "string"@, "Name of the plugin"@), ("enable"@, "boolean"@, "True to enable, False to disable"@)], seq!["name"@, "enable"@]),
        ("update_search_plugins"@, "Update all search plugins"@, Seq::empty(), Seq::empty()),
        ("get_search_plugins"@, "List installed search plugins"@, Seq::empty(), Seq::empty()),
    ]
}

/// The tools for searching and managing search plugins.
pub fn search_tools() -> (r: Vec<Json>)
    ensures
        shapes(r@) == search_tool_shapes(),
        all_have_schema(r@),
{
    let mut r: Vec<Json> = Vec::new();
    proof { lemma_no_shapes(r@); }
    let mut p = no_properties();
    add_property(&mut p, "query", "string", "Search query");
    add_property(&mut p, "category", "string", "Optional category");
    let mut q = no_required();
    add_required(&mut q, "query");
    add_tool(&mut r, tool_definition("search_torrents", "Search for torrents. ASYNCHRONOUS: Results might be incomplete on the first call. Use get_search_results for polling if needed.", p, q));
    let mut p = no_properties();
    add_property(&mut p, "url", "string", "URL to the plugin file");
    let mut q = no_required();
    add_required(&mut q, "url");
    add_tool(&mut r, tool_definition("install_search_plugin", "Install a search plugin", p, q));
    let mut p = no_properties();
    add_property(&mut p, "name", "string", "Name of the plugin");
    let mut q = no_required();
    add_required(&mut q, "name");
    add_tool(&mut r, tool_definition("uninstall_search_plugin", "Uninstall a search plugin", p, q));
    let mut p = no_properties();
    add_property(&mut p, "name", "string", "Name of the plugin");
    add_property(&mut p, "enable", "boolean", "True to enable, False to disable");
    let mut q = no_required();
    add_required(&mut q, "name");
    add_required(&mut q, "enable");
    add_tool(&mut r, tool_definition("enable_search_plugin", "Enable or disable a search plugin", p, q));
    let mut p = no_properties();
    let mut q = no_required();
    add_tool(&mut r, tool_definition("update_search_plugins", "Update all search plugins", p, q));
    let mut p = no_properties();
    let mut q = no_required();
    add_tool(&mut r, tool_definition("get_search_plugins", "List installed search plugins", p, q));
    assert(shapes(r@) =~~= search_tool_shapes());
    r
}

/// The shapes of the tools for global transfer speeds and peers, in the order they are listed.
pub open spec fn transfer_tool_shapes() -> Seq<ToolShape> {
    seq![
        ("get_global_transfer_info"@, "Get global transfer information"@, Seq::empty(), Seq::empty()),
        ("set_global_transfer_limits"@, "Set global download and/or upload limits"@, seq![("dl_limit"@, "integer"@, "Download limit in bytes per second (0 for unlimited)"@), ("up_limit"@, "integer"@, "Upload limit in bytes per second (0 for unlimited)"@)], Seq::empty()),
        ("toggle_alternative_speed_limits"@, "Toggle alternative speed limits"@, Seq::empty(), Seq::empty()),
        ("get_speed_limits_mode"@, "Get the current state of alternative speed limits (0 for disabled, 1 for enabled)"@, Seq::empty(), Seq::empty()),
        ("ban_peers"@, "Ban a list of peers"@, seq![("peers"@, "string"@, "Peers to ban (host:port, pipe-separated)"@)], seq!["peers"@]),
    ]
}

/// The tools for global transfer speeds and peers.
pub fn transfer_tools() -> (r: Vec<Json>)
    ensures
        shapes(r@) == transfer_tool_shapes(),
        all_have_schema(r@),
{
    let mut r: Vec<Json> = Vec::new();
    proof { lemma_no_shapes(r@); }
    let mut p = no_properties();
    let mut q = no_required();
    add_tool(&mut r, tool_definition("get_global_transfer_info", "Get global transfer information", p, q));
    let mut p = no_properties();
    add_property(&mut p, "dl_limit", "integer", "Download limit in bytes per second (0 for unlimited)");
    add_property(&mut p, "up_limit", "integer", "Upload limit in bytes per second (0 for unlimited)");
    let mut q = no_required();
    add_tool(&mut r, tool_definition("set_global_transfer_limits", "Set global download and/or upload limits", p, q));
    let mut p = no_properties();
    let mut q = no_required();
    add_tool(&mut r, tool_definition("toggle_alternative_speed_limits", "Toggle alternative speed limits", p, q));
    let mut p = no_properties();
    let mut q = no_required();
    add_tool(&mut r, tool_definition("get_speed_limits_mode", "Get the current state of alternative speed limits (0 for disabled, 1 for enabled)", p, q));
    let mut p = no_properties();
    add_property(&mut p, "peers", "string", "Peers to ban (host:port, pipe-separated)");
    let mut q = no_required();
    add_required(&mut q, "peers");
    add_tool(&mut r, tool_definition("ban_peers", "Ban a list of peers", p, q));
    assert(shapes(r@) =~~= transfer_tool_shapes());
    r
}

/// The shapes of the tools for RSS feeds and download rules, in the order they are listed.
pub open spec fn rss_tool_shapes() -> Seq<ToolShape> {
    seq![
        ("add_rss_feed"@, "Add a new RSS feed"@, seq![("url"@, "string"@, "URL of the RSS feed"@), ("path"@, "string"@, "Internal path/name for the feed"@)], seq!["url"@, "path"@]),
        ("get_rss_feeds"@, "Get all RSS feeds and their items"@, Seq::empty(), Seq::empty()),
        ("set_rss_rule"@, "Create or update an RSS auto-download rule"@, seq![("name"@, "string"@, "Name of the rule"@), ("definition"@, "string"@, "JSON string defining the rule"@)], seq!["name"@, "definition"@]),
        ("get_rss_rules"@, "Get all RSS auto-download rules"@, Seq::empty(), Seq::empty()),
        ("move_rss_item"@, "Move an RSS item (feed or folder)"@, seq![("item_path"@, "string"@, "Current path of the item"@), ("dest_path"@, "string"@, "Destination path"@)], seq!["item_path"@, "dest_path"@]),
    ]
}

/// The tools for RSS feeds and download rules.
pub fn rss_tools() -> (r: Vec<Json>)
    ensures
        shapes(r@) == rss_tool_shapes(),
        all_have_schema(r@),
{
    let mut r: Vec<Json> = Vec::new();
    proof { lemma_no_shapes(r@); }
    let mut p = no_properties();
    add_property(&mut p, "url", "string", "URL of the RSS feed");
    add_property(&mut p, "path", "string", "Internal path/name for the feed");
    let mut q = no_required();
    add_required(&mut q, "url");
    add_required(&mut q, "path");
    add_tool(&mut r, tool_definition("add_rss_feed", "Add a new RSS feed", p, q));
    let mut p = no_properties();
    let mut q = no_required();
    add_tool(&mut r, tool_definition("get_rss_feeds", "Get all RSS feeds and their items", p, q));
    let mut p = no_properties();
    add_property(&mut p, "name", "string", "Name of the rule");
    add_property(&mut p, "definition", "string", "JSON string defining the rule");
    let mut q = no_required();
    add_required(&mut q, "name");
    add_required(&mut q, "definition");
    add_tool(&mut r, tool_definition("set_rss_rule", "Create or update an RSS auto-download rule", p, q));
    let mut p = no_properties();
    let mut q = no_required();
    add_tool(&mut r, tool_definition("get_rss_rules", "Get all RSS auto-download rules", p, q));
    let mut p = no_properties();
    add_property(&mut p, "item_path", "string", "Current path of the item");
    add_property(&mut p, "dest_path", "string", "Destination path");
    let mut q = no_required();
    add_required(&mut q, "item_path");
    add_required(&mut q, "dest_path");
    add_tool(&mut r, tool_definition("move_rss_item", "Move an RSS item (feed or folder)", p, q));
    assert(shapes(r@) =~~= rss_tool_shapes());
    r
}

/// The shapes of the tools for the application: preferences, logs, version and shutdown, in the order they are listed.
pub open spec fn app_tool_shapes() -> Seq<ToolShape> {
    seq![
        ("get_app_preferences"@, "Get all application preferences"@, Seq::empty(), Seq::empty()),
        ("set_app_preferences"@, "Set one or more application preferences"@, seq![("preferences"@, "string"@, "JSON string of preferences to update"@)], seq!["preferences"@]),
        ("get_main_log"@, "Get the main application log"@, seq![("severity"@, "string"@, "Filter by severity (all, info, warning, critical)"@), ("last_id"@, "integer"@, "Exclude logs with ID less than or equal to this"@)], Seq::empty()),
        ("get_peer_log"@, "Get the peer connection log"@, seq![("last_id"@, "integer"@, "Exclude logs with ID less than or equal to this"@)], Seq::empty()),
        ("get_app_version"@, "Get application version"@, Seq::empty(), Seq::empty()),
        ("get_build_info"@, "Get build information"@, Seq::empty(), Seq::empty()),
        ("shutdown_app"@, "Shutdown qBittorrent. DESTRUCTIVE: Inform the user and confirm before calling as this terminates the service."@, Seq::empty(), Seq::empty()),
    ]
}

/// The tools for the application: preferences, logs, version and shutdown.
pub fn app_tools() -> (r: Vec<Json>)
    ensures
        shapes(r@) == app_tool_shapes(),
        all_have_schema(r@),
{
    let mut r: Vec<Json> = Vec::new();
    proof { lemma_no_shapes(r@); }
    let mut p = no_properties();
    let mut q = no_required();
    add_tool(&mut r, tool_definition("get_app_preferences", "Get all application preferences", p, q));
    let mut p = no_properties();
    add_property(&mut p, "preferences", "string", "JSON string of preferences to update");
    let mut q = no_required();
    add_required(&mut q, "preferences");
    add_tool(&mut r, tool_definition("set_app_preferences", "Set one or more application preferences", p, q));
    let mut p = no_properties();
    add_property(&mut p, "severity", "string", "Filter by severity (all, info, warning, critical)");
    add_property(&mut p, "last_id", "integer", "Exclude logs with ID less than or equal to this");
    let mut q = no_required();
    add_tool(&mut r, tool_definition("get_main_log", "Get the main application log", p, q));
    let mut p = no_properties();
    add_property(&mut p, "last_id", "integer", "Exclude logs with ID less than or equal to this");
    let mut q = no_required();
    add_tool(&mut r, tool_definition("get_peer_log", "Get the peer connection log", p, q));
    let mut p = no_properties();
    let mut q = no_required();
    add_tool(&mut r, tool_definition("get_app_version", "Get application version", p, q));
    let mut p = no_properties();
    let mut q = no_required();
    add_tool(&mut r, tool_definition("get_build_info", "Get build information", p, q));
    let mut p = no_properties();
    let mut q = no_required();
    add_tool(&mut r, tool_definition("shutdown_app", "Shutdown qBittorrent. DESTRUCTIVE: Inform the user and confirm before calling as this terminates the service.", p, q));
    assert(shapes(r@) =~~= app_tool_shapes());
    r
}

/// The shapes of the tools shown in lazy mode until all tools are asked for.
pub open spec fn lazy_tool_shapes() -> Seq<ToolShape> {
    seq![
        ("list_torrents"@, "List all torrents with optional filtering and sorting"@, seq![("instance"@, "string"@, "Optional: Name of the qBittorrent instance"@), ("filter"@, "string"@, "Filter by status (all, downloading, completed, paused, active, inactive, resumed, stalled, stalled_uploading, stalled_downloading, errored)"@), ("category"@, "string"@, "Filter by category"@), ("tag"@, "string"@, "Filter by tag"@), ("sort"@, "string"@, "Sort by column name"@), ("reverse"@, "boolean"@, "True to reverse sort order"@), ("limit"@, "integer"@, "Maximum number of torrents to return"@), ("offset"@, "integer"@, "Number of torrents to skip"@)], Seq::empty()),
        ("show_all_tools"@, "Enable all available tools"@, Seq::empty(), Seq::empty()),
    ]
}

/// The tools shown in lazy mode until all tools are asked for.
pub fn lazy_tools() -> (r: Vec<Json>)
    ensures
        shapes(r@) == lazy_tool_shapes(),
{
    let mut r: Vec<Json> = Vec::new();
    proof { lemma_no_shapes(r@); }
    let mut p = no_properties();
    add_property(&mut p, "instance", "string", "Optional: Name of the qBittorrent instance");
    add_property(&mut p, "filter", "string", "Filter by status (all, downloading, completed, paused, active, inactive, resumed, stalled, stalled_uploading, stalled_downloading, errored)");
    add_property(&mut p, "category", "string", "Filter by category");
    add_property(&mut p, "tag", "string", "Filter by tag");
    add_property(&mut p, "sort", "string", "Sort by column name");
    add_property(&mut p, "reverse", "boolean", "True to reverse sort order");
    add_property(&mut p, "limit", "integer", "Maximum number of torrents to return");
    add_property(&mut p, "offset", "integer", "Number of torrents to skip");
    let mut q = no_required();
    add_tool(&mut r, tool_definition("list_torrents", "List all torrents with optional filtering and sorting", p, q));
    let mut p = no_properties();
    let mut q = no_required();
    add_tool(&mut r, tool_definition("show_all_tools", "Enable all available tools", p, q));
    assert(shapes(r@) =~~= lazy_tool_shapes());
    r
}
/// The position of the first property named `key`.
pub open spec fn first_property(ps: Seq<PropertyShape>, key: Seq<char>) -> Option<int> {
    if exists|i: int| 0 <= i < ps.len() && ps[i].0 == key {
        Some(choose|i: int| 0 <= i < ps.len() && ps[i].0 == key && forall|j: int| 0 <= j < i ==> ps[j].0 != key)
    } else {
        None
    }
}

/// The properties `ps` with `key` set to type `ty` and description `d`:
/// replaced where it first stands, else added last.
pub open spec fn with_property(ps: Seq<PropertyShape>, key: Seq<char>, ty: Seq<char>, d: Seq<char>) -> Seq<PropertyShape> {
    match first_property(ps, key) {
        Some(i) => ps.update(i, (key, ty, d)),
        None => ps.push((key, ty, d)),
    }
}

/// A tool once the `instance` property, a string, is set on it.
pub open spec fn with_instance(s: ToolShape) -> ToolShape {
    (s.0, s.1, with_property(s.2, "instance"@, "string"@, "Optional: Name of the qBittorrent instance to target"@), s.3)
}

fn set_property(ps: &mut Vec<(String, Json)>, key: &str, value: Json)
    ensures
        property_shapes(final(ps)@) == with_property(property_shapes(old(ps)@), key@, str_or_empty(value, "type"@), str_or_empty(value, "description"@)),
{
    let ghost shapes0 = property_shapes(ps@);
    let ghost ty = str_or_empty(value, "type"@);
    let ghost d = str_or_empty(value, "description"@);
    let mut i: usize = 0;
    while i < ps.len()
        invariant
            i <= ps.len(),
            ps@ == old(ps)@,
            shapes0 == property_shapes(ps@),
            shapes0 == property_shapes(old(ps)@),
            ty == str_or_empty(value, "type"@),
            d == str_or_empty(value, "description"@),
            forall|j: int| 0 <= j < i ==> shapes0[j].0 != key@,
        decreases ps.len() - i,
    {
        if crate::text::same(ps[i].0.as_str(), key) {
            proof {
                assert(shapes0[i as int].0 == key@);
                let c = choose|c: int| 0 <= c < shapes0.len() && shapes0[c].0 == key@ && forall|j: int| 0 <= j < c ==> shapes0[j].0 != key@;
                assert(0 <= c < shapes0.len() && shapes0[c].0 == key@ && forall|j: int| 0 <= j < c ==> shapes0[j].0 != key@);
                if c < i {
                    assert(shapes0[c].0 != key@);
                }
                if i < c {
                    assert(shapes0[i as int].0 != key@);
                }
            }
            let e = entry(key, value);
            let ghost pre = ps@;
            assert(property_shape(e) == (key@, ty, d));
            ps.set(i, e);
            assert(ps@ == pre.update(i as int, e));
            assert forall|j: int| 0 <= j < ps@.len() implies #[trigger] property_shapes(ps@)[j] == shapes0.update(i as int, (key@, ty, d))[j] by {
                if j != i {
                    assert(ps@[j] == pre[j]);
                }
            }
            assert(property_shapes(ps@) =~= shapes0.update(i as int, (key@, ty, d)));
            return;
        }
        i = i + 1;
    }
    let e = entry(key, value);
    ps.push(e);
    assert(property_shapes(ps@) =~= shapes0.push((key@, ty, d)));
}

/// The schema of the `instance` property every tool takes when all tools are shown.
fn instance_schema() -> (r: Json)
    ensures
        str_or_empty(r, "type"@) == "string"@,
        str_or_empty(r, "description"@) == "Optional: Name of the qBittorrent instance to target"@,
{
    property_schema("string", "Optional: Name of the qBittorrent instance to target")
}

/// Sets the `instance` property of a tool definition.
fn with_instance_property(t: Json) -> (r: Json)
    requires
        tool_layout(t),
    ensures
        tool_layout(r),
        tool_shape(r) == with_instance(tool_shape(t)),
{
    proof {
        lemma_tool_keys();
        reveal_with_fuel(crate::json::entry_value, 4);
    }
    let ghost s0 = tool_shape(t);
    match t {
        Json::Obj(e) => {
            let mut e = e;
            let (k, schema) = e.remove(2);
            match schema {
                Json::Obj(s) => {
                    let mut s = s;
                    let ghost s_before = s@;
                    let (pk, props) = s.remove(1);
                    match props {
                        Json::Obj(ps) => {
                            let mut ps = ps;
                            set_property(&mut ps, "instance", instance_schema());
                            s.insert(1, (pk, Json::Obj(ps)));
                            assert(s@[2] == s_before[2]);
                            e.insert(2, (k, Json::Obj(s)));
                            Json::Obj(e)
                        },
                        _ => {
                            proof { assert(false); }
                            Json::Null
                        },
                    }
                },
                _ => {
                    proof { assert(false); }
                    Json::Null
                },
            }
        },
        _ => {
            proof { assert(false); }
            Json::Null
        },
    }
}

/// Every tool the server has, in the order they are listed.
pub open spec fn all_tool_shapes() -> Seq<ToolShape> {
    torrent_tool_shapes() + search_tool_shapes() + transfer_tool_shapes() + rss_tool_shapes() + app_tool_shapes()
}

/// The tools listed to an agent in a session in state `s`: in lazy mode,
/// until all tools are asked for, only listing torrents and showing all
/// tools; else every tool, each taking the instance to target.
pub open spec fn listed_tool_shapes(s: McpState) -> Seq<ToolShape> {
    if shows_all_tools(s) {
        all_tool_shapes().map_values(|t: ToolShape| with_instance(t))
    } else {
        lazy_tool_shapes()
    }
}

/// The tools listed to an agent (see `listed_tool_shapes`).
pub fn tool_definitions(state: &McpState) -> (r: Vec<Json>)
    ensures
        shapes(r@) == listed_tool_shapes(*state),
{
    if state.lazy_mode && !state.tools_loaded {
        return lazy_tools();
    }
    let mut all = torrent_tools();
    let mut more = search_tools();
    append_tools(&mut all, &mut more);
    let mut more = transfer_tools();
    append_tools(&mut all, &mut more);
    let mut more = rss_tools();
    append_tools(&mut all, &mut more);
    let mut more = app_tools();
    append_tools(&mut all, &mut more);
    let ghost orig = all@;
    let mut r: Vec<Json> = Vec::new();
    while all.len() > 0
        invariant
            all_have_schema(orig),
            r@.len() + all@.len() == orig.len(),
            all@ == orig.skip(r@.len() as int),
            shapes(r@) == shapes(orig).take(r@.len() as int).map_values(|t: ToolShape| with_instance(t)),
        decreases all@.len(),
    {
        let ghost n = r@.len();
        let t = all.remove(0);
        assert(t == orig[n as int]);
        let u = with_instance_property(t);
        let ghost r0 = r@;
        r.push(u);
        assert(all@ =~= orig.skip(r@.len() as int));
        assert(shapes(r@) =~= shapes(orig).take(r@.len() as int).map_values(|t: ToolShape| with_instance(t))) by {
            assert(shapes(r@) =~= shapes(r0).push(tool_shape(u)));
        }
    }
    assert(shapes(orig).take(r@.len() as int) =~= shapes(orig));
    r
}

proof fn lemma_all_tool_names()
    ensures
        all_tool_shapes().len() == 55,
        all_tool_shapes()[0].0 == "list_torrents"@,
        all_tool_shapes()[1].0 == "add_torrent"@,
        all_tool_shapes()[2].0 == "pause_torrent"@,
        all_tool_shapes()[3].0 == "resume_torrent"@,
        all_tool_shapes()[4].0 == "delete_torrent"@,
        all_tool_shapes()[5].0 == "reannounce_torrent"@,
        all_tool_shapes()[6].0 == "recheck_torrent"@,
        all_tool_shapes()[7].0 == "get_torrent_files"@,
        all_tool_shapes()[8].0 == "get_torrent_properties"@,
        all_tool_shapes()[9].0 == "create_category"@,
        all_tool_shapes()[10].0 == "set_torrent_category"@,
        all_tool_shapes()[11].0 == "get_categories"@,
        all_tool_shapes()[12].0 == "add_torrent_tags"@,
        all_tool_shapes()[13].0 == "wait_for_torrent_status"@,
        all_tool_shapes()[14].0 == "cleanup_completed"@,
        all_tool_shapes()[15].0 == "mass_rename"@,
        all_tool_shapes()[16].0 == "find_duplicates"@,
        all_tool_shapes()[17].0 == "set_torrent_share_limits"@,
        all_tool_shapes()[18].0 == "set_torrent_speed_limits"@,
        all_tool_shapes()[19].0 == "toggle_sequential_download"@,
        all_tool_shapes()[20].0 == "toggle_first_last_piece_priority"@,
        all_tool_shapes()[21].0 == "set_force_start"@,
        all_tool_shapes()[22].0 == "set_super_seeding"@,
        all_tool_shapes()[23].0 == "add_trackers"@,
        all_tool_shapes()[24].0 == "edit_tracker"@,
        all_tool_shapes()[25].0 == "remove_trackers"@,
        all_tool_shapes()[26].0 == "rename_folder"@,
        all_tool_shapes()[27].0 == "set_file_priority"@,
        all_tool_shapes()[28].0 == "remove_categories"@,
        all_tool_shapes()[29].0 == "remove_tags"@,
        all_tool_shapes()[30].0 == "create_tags"@,
        all_tool_shapes()[31].0 == "delete_tags"@,
        all_tool_shapes()[32].0 == "search_torrents"@,
        all_tool_shapes()[33].0 == "install_search_plugin"@,
        all_tool_shapes()[34].0 == "uninstall_search_plugin"@,
        all_tool_shapes()[35].0 == "enable_search_plugin"@,
        all_tool_shapes()[36].0 == "update_search_plugins"@,
        all_tool_shapes()[37].0 == "get_search_plugins"@,
        all_tool_shapes()[38].0 == "get_global_transfer_info"@,
        all_tool_shapes()[39].0 == "set_global_transfer_limits"@,
        all_tool_shapes()[40].0 == "toggle_alternative_speed_limits"@,
        all_tool_shapes()[41].0 == "get_speed_limits_mode"@,
        all_tool_shapes()[42].0 == "ban_peers"@,
        all_tool_shapes()[43].0 == "add_rss_feed"@,
        all_tool_shapes()[44].0 == "get_rss_feeds"@,
        all_tool_shapes()[45].0 == "set_rss_rule"@,
        all_tool_shapes()[46].0 == "get_rss_rules"@,
        all_tool_shapes()[47].0 == "move_rss_item"@,
        all_tool_shapes()[48].0 == "get_app_preferences"@,
        all_tool_shapes()[49].0 == "set_app_preferences"@,
        all_tool_shapes()[50].0 == "get_main_log"@,
        all_tool_shapes()[51].0 == "get_peer_log"@,
        all_tool_shapes()[52].0 == "get_app_version"@,
        all_tool_shapes()[53].0 == "get_build_info"@,
        all_tool_shapes()[54].0 == "shutdown_app"@,
{
}

/// Every tool listed to an agent can be called: it is `show_all_tools`,
/// which the server handles itself, or a tool the call dispatcher knows.
pub proof fn listed_tools_are_known(s: McpState, i: int)
    requires
        0 <= i < listed_tool_shapes(s).len(),
    ensures
        listed_tool_shapes(s)[i].0 == "show_all_tools"@ || known_tool(listed_tool_shapes(s)[i].0),
{
    lemma_all_tool_names();
    if shows_all_tools(s) {
        assert(listed_tool_shapes(s)[i].0 == all_tool_shapes()[i].0);
        assert(known_tool(all_tool_shapes()[i].0)) by {
            if i == 0 {
            } else if i == 1 {
            } else if i == 2 {
            } else if i == 3 {
            } else if i == 4 {
            } else if i == 5 {
            } else if i == 6 {
            } else if i == 7 {
            } else if i == 8 {
            } else if i == 9 {
            } else if i == 10 {
            } else if i == 11 {
            } else if i == 12 {
            } else if i == 13 {
            } else if i == 14 {
            } else if i == 15 {
            } else if i == 16 {
            } else if i == 17 {
            } else if i == 18 {
            } else if i == 19 {
            } else if i == 20 {
            } else if i == 21 {
            } else if i == 22 {
            } else if i == 23 {
            } else if i == 24 {
            } else if i == 25 {
            } else if i == 26 {
            } else if i == 27 {
            } else if i == 28 {
            } else if i == 29 {
            } else if i == 30 {
            } else if i == 31 {
            } else if i == 32 {
            } else if i == 33 {
            } else if i == 34 {
            } else if i == 35 {
            } else if i == 36 {
            } else if i == 37 {
            } else if i == 38 {
            } else if i == 39 {
            } else if i == 40 {
            } else if i == 41 {
            } else if i == 42 {
            } else if i == 43 {
            } else if i == 44 {
            } else if i == 45 {
            } else if i == 46 {
            } else if i == 47 {
            } else if i == 48 {
            } else if i == 49 {
            } else if i == 50 {
            } else if i == 51 {
            } else if i == 52 {
            } else if i == 53 {
            } else if i == 54 {
            }
        }
    }
}

/// Every tool the call dispatcher knows is listed once all tools are shown.
pub proof fn known_tools_are_listed(name: Seq<char>)
    requires
        known_tool(name),
    ensures
        exists|i: int| 0 <= i < all_tool_shapes().len() && (#[trigger] all_tool_shapes()[i]).0 == name,
{
    lemma_all_tool_names();
    if name == "list_torrents"@ {
        assert(all_tool_shapes()[0].0 == name);
    } else if name == "add_torrent"@ {
        assert(all_tool_shapes()[1].0 == name);
    } else if name == "pause_torrent"@ {
        assert(all_tool_shapes()[2].0 == name);
    } else if name == "resume_torrent"@ {
        assert(all_tool_shapes()[3].0 == name);
    } else if name == "delete_torrent"@ {
        assert(all_tool_shapes()[4].0 == name);
    } else if name == "reannounce_torrent"@ {
        assert(all_tool_shapes()[5].0 == name);
    } else if name == "recheck_torrent"@ {
        assert(all_tool_shapes()[6].0 == name);
    } else if name == "get_torrent_files"@ {
        assert(all_tool_shapes()[7].0 == name);
    } else if name == "get_torrent_properties"@ {
        assert(all_tool_shapes()[8].0 == name);
    } else if name == "create_category"@ {
        assert(all_tool_shapes()[9].0 == name);
    } else if name == "set_torrent_category"@ {
        assert(all_tool_shapes()[10].0 == name);
    } else if name == "get_categories"@ {
        assert(all_tool_shapes()[11].0 == name);
    } else if name == "add_torrent_tags"@ {
        assert(all_tool_shapes()[12].0 == name);
    } else if name == "wait_for_torrent_status"@ {
        assert(all_tool_shapes()[13].0 == name);
    } else if name == "cleanup_completed"@ {
        assert(all_tool_shapes()[14].0 == name);
    } else if name == "mass_rename"@ {
        assert(all_tool_shapes()[15].0 == name);
    } else if name == "find_duplicates"@ {
        assert(all_tool_shapes()[16].0 == name);
    } else if name == "set_torrent_share_limits"@ {
        assert(all_tool_shapes()[17].0 == name);
    } else if name == "set_torrent_speed_limits"@ {
        assert(all_tool_shapes()[18].0 == name);
    } else if name == "toggle_sequential_download"@ {
        assert(all_tool_shapes()[19].0 == name);
    } else if name == "toggle_first_last_piece_priority"@ {
        assert(all_tool_shapes()[20].0 == name);
    } else if name == "set_force_start"@ {
        assert(all_tool_shapes()[21].0 == name);
    } else if name == "set_super_seeding"@ {
        assert(all_tool_shapes()[22].0 == name);
    } else if name == "add_trackers"@ {
        assert(all_tool_shapes()[23].0 == name);
    } else if name == "edit_tracker"@ {
        assert(all_tool_shapes()[24].0 == name);
    } else if name == "remove_trackers"@ {
        assert(all_tool_shapes()[25].0 == name);
    } else if name == "rename_folder"@ {
        assert(all_tool_shapes()[26].0 == name);
    } else if name == "set_file_priority"@ {
        assert(all_tool_shapes()[27].0 == name);
    } else if name == "remove_categories"@ {
        assert(all_tool_shapes()[28].0 == name);
    } else if name == "remove_tags"@ {
        assert(all_tool_shapes()[29].0 == name);
    } else if name == "create_tags"@ {
        assert(all_tool_shapes()[30].0 == name);
    } else if name == "delete_tags"@ {
        assert(all_tool_shapes()[31].0 == name);
    } else if name == "search_torrents"@ {
        assert(all_tool_shapes()[32].0 == name);
    } else if name == "install_search_plugin"@ {
        assert(all_tool_shapes()[33].0 == name);
    } else if name == "uninstall_search_plugin"@ {
        assert(all_tool_shapes()[34].0 == name);
    } else if name == "enable_search_plugin"@ {
        assert(all_tool_shapes()[35].0 == name);
    } else if name == "update_search_plugins"@ {
        assert(all_tool_shapes()[36].0 == name);
    } else if name == "get_search_plugins"@ {
        assert(all_tool_shapes()[37].0 == name);
    } else if name == "get_global_transfer_info"@ {
        assert(all_tool_shapes()[38].0 == name);
    } else if name == "set_global_transfer_limits"@ {
        assert(all_tool_shapes()[39].0 == name);
    } else if name == "toggle_alternative_speed_limits"@ {
        assert(all_tool_shapes()[40].0 == name);
    } else if name == "get_speed_limits_mode"@ {
        assert(all_tool_shapes()[41].0 == name);
    } else if name == "ban_peers"@ {
        assert(all_tool_shapes()[42].0 == name);
    } else if name == "add_rss_feed"@ {
        assert(all_tool_shapes()[43].0 == name);
    } else if name == "get_rss_feeds"@ {
        assert(all_tool_shapes()[44].0 == name);
    } else if name == "set_rss_rule"@ {
        assert(all_tool_shapes()[45].0 == name);
    } else if name == "get_rss_rules"@ {
        assert(all_tool_shapes()[46].0 == name);
    } else if name == "move_rss_item"@ {
        assert(all_tool_shapes()[47].0 == name);
    } else if name == "get_app_preferences"@ {
        assert(all_tool_shapes()[48].0 == name);
    } else if name == "set_app_preferences"@ {
        assert(all_tool_shapes()[49].0 == name);
    } else if name == "get_main_log"@ {
        assert(all_tool_shapes()[50].0 == name);
    } else if name == "get_peer_log"@ {
        assert(all_tool_shapes()[51].0 == name);
    } else if name == "get_app_version"@ {
        assert(all_tool_shapes()[52].0 == name);
    } else if name == "get_build_info"@ {
        assert(all_tool_shapes()[53].0 == name);
    } else if name == "shutdown_app"@ {
        assert(all_tool_shapes()[54].0 == name);
    }
}

} // verus!
