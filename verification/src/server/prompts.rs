//! Prompts: ready-made conversations that start an agent on a common task.
use vstd::prelude::*;
use crate::json::{Json, jstr, entry};
use crate::text::{owned, cat, same};
use crate::server::mcp::{str_member, bool_member, get_str};

verus! {

/// A JSON object with two entries, in order.
fn object2(k1: &str, v1: Json, k2: &str, v2: Json) -> (r: Json)
    ensures
        r.member(k1@) == Some(v1),
        k1@ != k2@ ==> r.member(k2@) == Some(v2),
{
    proof {
        reveal_with_fuel(crate::json::entry_value, 3);
    }
    let mut e: Vec<(String, Json)> = Vec::new();
    e.push(entry(k1, v1));
    e.push(entry(k2, v2));
    Json::Obj(e)
}

/// A JSON object with three entries, in order.
fn object3(k1: &str, v1: Json, k2: &str, v2: Json, k3: &str, v3: Json) -> (r: Json)
    ensures
        r.member(k1@) == Some(v1),
        k1@ != k2@ ==> r.member(k2@) == Some(v2),
        k1@ != k3@ && k2@ != k3@ ==> r.member(k3@) == Some(v3),
{
    proof {
        reveal_with_fuel(crate::json::entry_value, 4);
    }
    let mut e: Vec<(String, Json)> = Vec::new();
    e.push(entry(k1, v1));
    e.push(entry(k2, v2));
    e.push(entry(k3, v3));
    Json::Obj(e)
}

proof fn lemma_prompt_keys()
    ensures
        "name"@ != "description"@,
        "name"@ != "arguments"@,
        "description"@ != "arguments"@,
        "name"@ != "required"@,
        "description"@ != "required"@,
        "description"@ != "messages"@,
        "role"@ != "content"@,
        "type"@ != "text"@,
{
    reveal_strlit("name");
    reveal_strlit("description");
    reveal_strlit("arguments");
    reveal_strlit("required");
    reveal_strlit("messages");
    reveal_strlit("role");
    reveal_strlit("content");
    reveal_strlit("type");
    reveal_strlit("text");
    assert("name"@[0] != "description"@[0]);
    assert("name"@[0] != "arguments"@[0]);
    assert("description"@[0] != "arguments"@[0]);
    assert("name"@[0] != "required"@[0]);
    assert("description"@[0] != "required"@[0]);
    assert("description"@[0] != "messages"@[0]);
    assert("role"@[0] != "content"@[0]);
    assert("type"@[1] != "text"@[1]);
}

/// The name of each prompt, in the order they are listed.
pub open spec fn prompt_names() -> Seq<Seq<char>> {
    seq!["fix_stalled_torrent"@, "analyze_disk_space"@, "optimize_speed"@, "troubleshoot_connection"@, "rules-of-engagement"@]
}

/// The description of each prompt, in the order they are listed.
pub open spec fn prompt_descriptions() -> Seq<Seq<char>> {
    seq![
        "Get instructions and context to troubleshoot a stalled or slow torrent"@,
        "Check if there is enough disk space for current downloads"@,
        "Suggest optimizations for slow downloads"@,
        "Diagnose connection and connectivity issues"@,
        "Get the behavioral rules and best practices for interacting with this qBittorrent MCP server"@,
    ]
}

/// The arguments a prompt takes, as (name, description, required).
pub open spec fn prompt_parameters(i: int) -> Seq<(Seq<char>, Seq<char>, bool)> {
    if i == 0 {
        seq![("hash"@, "Torrent hash to troubleshoot"@, true), ("instance"@, "Instance name (optional)"@, false)]
    } else if 1 <= i <= 3 {
        seq![("instance"@, "Instance name (optional)"@, false)]
    } else {
        Seq::empty()
    }
}

/// The name, description and whether it is required, of an argument definition.
pub open spec fn parameter_of(a: Json) -> Option<(Seq<char>, Seq<char>, bool)> {
    match (str_member(a, "name"@), str_member(a, "description"@), bool_member(a, "required"@)) {
        (Some(n), Some(d), Some(r)) => Some((n, d, r)),
        _ => None,
    }
}

/// The argument definitions of a prompt definition.
pub open spec fn parameters_of(p: Json) -> Option<Seq<Json>> {
    match p.member("arguments"@) {
        Some(Json::Arr(a)) => Some(a@),
        _ => None,
    }
}

fn parameter(name: &str, description: &str, required: bool) -> (r: Json)
    ensures
        parameter_of(r) == Some((name@, description@, required)),
{
    proof {
        lemma_prompt_keys();
    }
    object3("name", jstr(name), "description", jstr(description), "required", Json::Bool(required))
}

fn instance_parameter() -> (r: Json)
    ensures
        parameter_of(r) == Some(("instance"@, "Instance name (optional)"@, false)),
{
    parameter("instance", "Instance name (optional)", false)
}

fn prompt_definition(name: &str, description: &str, parameters: Vec<Json>) -> (r: Json)
    ensures
        str_member(r, "name"@) == Some(name@),
        str_member(r, "description"@) == Some(description@),
        parameters_of(r) == Some(parameters@),
{
    proof {
        lemma_prompt_keys();
    }
    object3("name", jstr(name), "description", jstr(description), "arguments", Json::Arr(parameters))
}

/// The prompts the server offers: their names, descriptions and arguments.
pub fn prompt_definitions() -> (r: Vec<Json>)
    ensures
        r@.len() == 5,
        forall|i: int| 0 <= i < 5 ==> {
            &&& str_member(#[trigger] r@[i], "name"@) == Some(prompt_names()[i])
            &&& str_member(r@[i], "description"@) == Some(prompt_descriptions()[i])
            &&& parameters_of(r@[i]) matches Some(ps) && ps.len() == prompt_parameters(i).len()
                && forall|k: int| 0 <= k < ps.len() ==> parameter_of(#[trigger] ps[k]) == Some(prompt_parameters(i)[k])
        },
{
    let mut r: Vec<Json> = Vec::new();
    let mut stalled: Vec<Json> = Vec::new();
    stalled.push(parameter("hash", "Torrent hash to troubleshoot", true));
    stalled.push(instance_parameter());
    r.push(prompt_definition("fix_stalled_torrent", "Get instructions and context to troubleshoot a stalled or slow torrent", stalled));
    let mut disk: Vec<Json> = Vec::new();
    disk.push(instance_parameter());
    r.push(prompt_definition("analyze_disk_space", "Check if there is enough disk space for current downloads", disk));
    let mut speed: Vec<Json> = Vec::new();
    speed.push(instance_parameter());
    r.push(prompt_definition("optimize_speed", "Suggest optimizations for slow downloads", speed));
    let mut conn: Vec<Json> = Vec::new();
    conn.push(instance_parameter());
    r.push(prompt_definition("troubleshoot_connection", "Diagnose connection and connectivity issues", conn));
    r.push(prompt_definition(
        "rules-of-engagement",
        "Get the behavioral rules and best practices for interacting with this qBittorrent MCP server",
        Vec::new(),
    ));
    proof {
        assert forall|i: int| 0 <= i < 5 implies {
            &&& str_member(#[trigger] r@[i], "name"@) == Some(prompt_names()[i])
            &&& str_member(r@[i], "description"@) == Some(prompt_descriptions()[i])
            &&& parameters_of(r@[i]) matches Some(ps) && ps.len() == prompt_parameters(i).len()
                && forall|k: int| 0 <= k < ps.len() ==> parameter_of(#[trigger] ps[k]) == Some(prompt_parameters(i)[k])
        } by {
            if i == 0 {
            } else if i == 1 {
            } else if i == 2 {
            } else if i == 3 {
            } else {
            }
        }
    }
    r
}

/// The role and text of a prompt message `{"role": .., "content": {"type": "text", "text": ..}}`.
pub open spec fn message_of(m: Json) -> Option<(Seq<char>, Seq<char>)> {
    match (str_member(m, "role"@), m.member("content"@)) {
        (Some(role), Some(c)) => if str_member(c, "type"@) == Some("text"@) && str_member(c, "text"@) is Some {
            Some((role, str_member(c, "text"@)->0))
        } else {
            None
        },
        _ => None,
    }
}

/// The number of messages of a prompt reply.
pub open spec fn message_count(j: Json) -> nat {
    match j.member("messages"@) {
        Some(Json::Arr(ms)) => ms@.len(),
        _ => 0,
    }
}

/// The role and text of message `i` of a prompt reply.
pub open spec fn message_at(j: Json, i: int) -> Option<(Seq<char>, Seq<char>)> {
    match j.member("messages"@) {
        Some(Json::Arr(ms)) => if 0 <= i < ms@.len() { message_of(ms@[i]) } else { None },
        _ => None,
    }
}

fn message(role: &str, text: String) -> (r: Json)
    ensures
        message_of(r) == Some((role@, text@)),
{
    proof {
        lemma_prompt_keys();
    }
    let content = object2("type", jstr("text"), "text", Json::Str(text));
    object2("role", jstr(role), "content", content)
}

fn prompt_reply(description: String, messages: Vec<Json>) -> (r: Json)
    ensures
        str_member(r, "description"@) == Some(description@),
        r.member("messages"@) == Some(Json::Arr(messages)),
{
    proof {
        lemma_prompt_keys();
    }
    object2("description", Json::Str(description), "messages", Json::Arr(messages))
}

proof fn lemma_prompt_names_differ()
    ensures
        "fix_stalled_torrent"@ != "analyze_disk_space"@,
        "fix_stalled_torrent"@ != "optimize_speed"@,
        "fix_stalled_torrent"@ != "troubleshoot_connection"@,
        "fix_stalled_torrent"@ != "rules-of-engagement"@,
        "analyze_disk_space"@ != "optimize_speed"@,
        "analyze_disk_space"@ != "troubleshoot_connection"@,
        "analyze_disk_space"@ != "rules-of-engagement"@,
        "optimize_speed"@ != "troubleshoot_connection"@,
        "optimize_speed"@ != "rules-of-engagement"@,
        "troubleshoot_connection"@ != "rules-of-engagement"@,
{
    reveal_strlit("fix_stalled_torrent");
    reveal_strlit("analyze_disk_space");
    reveal_strlit("optimize_speed");
    reveal_strlit("troubleshoot_connection");
    reveal_strlit("rules-of-engagement");
    assert("fix_stalled_torrent"@[0] != "analyze_disk_space"@[0]);
    assert("fix_stalled_torrent"@[0] != "optimize_speed"@[0]);
    assert("fix_stalled_torrent"@[0] != "troubleshoot_connection"@[0]);
    assert("fix_stalled_torrent"@[0] != "rules-of-engagement"@[0]);
    assert("analyze_disk_space"@[0] != "optimize_speed"@[0]);
    assert("analyze_disk_space"@[0] != "troubleshoot_connection"@[0]);
    assert("analyze_disk_space"@[0] != "rules-of-engagement"@[0]);
    assert("optimize_speed"@[0] != "troubleshoot_connection"@[0]);
    assert("optimize_speed"@[0] != "rules-of-engagement"@[0]);
    assert("troubleshoot_connection"@[0] != "rules-of-engagement"@[0]);
}

/// The instance a prompt is about: the `instance` argument, else `default`.
pub open spec fn prompt_instance(args: Json) -> Seq<char> {
    match str_member(args, "instance"@) {
        Some(s) => s,
        None => "default"@,
    }
}

/// The request to troubleshoot a stalled torrent.
pub open spec fn stalled_text(hash: Seq<char>, instance: Seq<char>) -> Seq<char> {
    "I have a torrent with hash '"@ + hash + "' on instance '"@ + instance
        + "' that is stalled or slow. Please investigate it. Follow these steps:\n1. Check the torrent properties using 'qbittorrent://"@
        + instance + "/torrent/"@ + hash
        + "/properties'.\n2. Check tracker status using 'qbittorrent://"@
        + instance + "/torrent/"@ + hash
        + "/trackers'.\n3. Check for specific file issues using 'qbittorrent://"@
        + instance + "/torrent/"@ + hash
        + "/files'.\n4. Look for global limits or mode using 'get_global_transfer_info' and 'get_speed_limits_mode'.\nAfter investigating, suggest specific fixes (like re-announcing, toggling sequential download, or changing limits)."@
}

/// The request to check the disk space.
pub open spec fn disk_text(instance: Seq<char>) -> Seq<char> {
    "I want to check if I have enough disk space for my downloads on instance '"@ + instance
        + "'. Please check the current free space on disk and compare it with the total size of active/downloading torrents. You can get global transfer info and list all torrents to calculate the required space."@
}

/// The request to speed up downloads.
pub open spec fn speed_text(instance: Seq<char>) -> Seq<char> {
    "My downloads are slow on instance '"@ + instance
        + "'. Please analyze my current global limits, alternative speed limits mode, and connection status (firewalled state, DHT nodes) to suggest optimizations."@
}

/// The request to diagnose the connection.
pub open spec fn connection_text(instance: Seq<char>) -> Seq<char> {
    "I think I have connection issues on instance '"@ + instance
        + "'. Please check my DHT node count and connection status, and verify if alternative speed limits are accidentally enabled."@
}

/// The question that opens the rules of engagement.
pub open spec fn rules_question() -> Seq<char> {
    "Please provide the Rules of Engagement for this MCP server."@
}

/// The rules of engagement.
pub open spec fn rules_text() -> Seq<char> {
    "As an AI agent interacting with the qBittorrent MCP server, you must adhere to the following Rules of Engagement:\n\n1. **State Verification**: Always verify the current state of a torrent (via `list_torrents` or resources) before performing actions like pause, resume, or delete.\n2. **Destructive Actions**: Clearly inform the user and obtain confirmation before calling `delete_torrent` or `shutdown_app`. For these \"destructive\" actions, use the `destructiveHint` annotation or require a separate confirmation step.\n3. **Search Etiquette**: Search is asynchronous. Use `get_search_results` for polling and always call `stop_search` once finished to save resources.\n4. **Error Handling**: Treat errors as information for self-correction. Return helpful hints and use `isError: true` to prevent hallucination.\n5. **Idempotency**: Avoid redundant commands (e.g., do not pause an already paused torrent).\n6. **Semantic Feedback**: Translate technical tool results into meaningful context for the user.\n7. **Security**: Never expose sensitive credentials or session cookies in logs or to the user."@
}

fn stalled_message(hash: &str, instance: &str) -> (r: String)
    ensures
        r@ == stalled_text(hash@, instance@),
{
    let mut s = owned("I have a torrent with hash '");
    s.append(hash);
    s.append("' on instance '");
    s.append(instance);
    s.append("' that is stalled or slow. Please investigate it. Follow these steps:\n1. Check the torrent properties using 'qbittorrent://");
    s.append(instance);
    s.append("/torrent/");
    s.append(hash);
    s.append("/properties'.\n2. Check tracker status using 'qbittorrent://");
    s.append(instance);
    s.append("/torrent/");
    s.append(hash);
    s.append("/trackers'.\n3. Check for specific file issues using 'qbittorrent://");
    s.append(instance);
    s.append("/torrent/");
    s.append(hash);
    s.append("/files'.\n4. Look for global limits or mode using 'get_global_transfer_info' and 'get_speed_limits_mode'.\nAfter investigating, suggest specific fixes (like re-announcing, toggling sequential download, or changing limits).");
    s
}

fn around(before: &str, instance: &str, after: &str) -> (r: String)
    ensures
        r@ == before@ + instance@ + after@,
{
    crate::text::cat3(before, instance, after)
}

/// Whether `r` is the outcome of asking for prompt `name` with the
/// arguments `args`; the instance defaults to `default`.
pub open spec fn prompt_outcome(name: Seq<char>, args: Json, r: Result<Json, String>) -> bool {
    &&& (name == "fix_stalled_torrent"@ ==> match str_member(args, "hash"@) {
        None => (r matches Err(m) && m@ == "Missing hash"@),
        Some(h) => (r matches Ok(j)
            && str_member(j, "description"@) == Some("Troubleshooting for torrent "@ + h + " on instance "@ + prompt_instance(args))
            && message_count(j) == 1
            && message_at(j, 0) == Some(("user"@, stalled_text(h, prompt_instance(args))))),
    })
    &&& (name == "analyze_disk_space"@ ==> (r matches Ok(j)
        && str_member(j, "description"@) == Some("Analyze disk space on instance "@ + prompt_instance(args))
        && message_count(j) == 1
        && message_at(j, 0) == Some(("user"@, disk_text(prompt_instance(args))))))
    &&& (name == "optimize_speed"@ ==> (r matches Ok(j)
        && str_member(j, "description"@) == Some("Optimize download speeds on instance "@ + prompt_instance(args))
        && message_count(j) == 1
        && message_at(j, 0) == Some(("user"@, speed_text(prompt_instance(args))))))
    &&& (name == "troubleshoot_connection"@ ==> (r matches Ok(j)
        && str_member(j, "description"@) == Some("Troubleshoot connection issues on instance "@ + prompt_instance(args))
        && message_count(j) == 1
        && message_at(j, 0) == Some(("user"@, connection_text(prompt_instance(args))))))
    &&& (name == "rules-of-engagement"@ ==> (r matches Ok(j)
        && str_member(j, "description"@) == Some("Rules of Engagement for qBittorrent MCP"@)
        && message_count(j) == 2
        && message_at(j, 0) == Some(("user"@, rules_question()))
        && message_at(j, 1) == Some(("assistant"@, rules_text()))))
    &&& (!prompt_names().contains(name) ==> (r matches Err(m) && m@ == "Prompt not found: "@ + name))
}

/// The conversation of prompt `name` with the arguments `args` (see
/// `prompt_outcome`).
pub fn prompt_get(name: &str, args: &Json) -> (r: Result<Json, String>)
    ensures
        prompt_outcome(name@, *args, r),
{
    proof {
        lemma_prompt_names_differ();
    }
    let instance = match get_str(args, "instance") {
        Some(s) => s,
        None => owned("default"),
    };
    let inst = instance.as_str();
    let mut messages: Vec<Json> = Vec::new();
    if same(name, "fix_stalled_torrent") {
        let hash = match get_str(args, "hash") {
            Some(h) => h,
            None => {
                return Err(owned("Missing hash"));
            },
        };
        let mut description = owned("Troubleshooting for torrent ");
        description.append(hash.as_str());
        description.append(" on instance ");
        description.append(inst);
        messages.push(message("user", stalled_message(hash.as_str(), inst)));
        Ok(prompt_reply(description, messages))
    } else if same(name, "analyze_disk_space") {
        messages.push(message("user", around(
            "I want to check if I have enough disk space for my downloads on instance '",
            inst,
            "'. Please check the current free space on disk and compare it with the total size of active/downloading torrents. You can get global transfer info and list all torrents to calculate the required space.",
        )));
        Ok(prompt_reply(cat("Analyze disk space on instance ", inst), messages))
    } else if same(name, "optimize_speed") {
        messages.push(message("user", around(
            "My downloads are slow on instance '",
            inst,
            "'. Please analyze my current global limits, alternative speed limits mode, and connection status (firewalled state, DHT nodes) to suggest optimizations.",
        )));
        Ok(prompt_reply(cat("Optimize download speeds on instance ", inst), messages))
    } else if same(name, "troubleshoot_connection") {
        messages.push(message("user", around(
            "I think I have connection issues on instance '",
            inst,
            "'. Please check my DHT node count and connection status, and verify if alternative speed limits are accidentally enabled.",
        )));
        Ok(prompt_reply(cat("Troubleshoot connection issues on instance ", inst), messages))
    } else if same(name, "rules-of-engagement") {
        messages.push(message("user", owned("Please provide the Rules of Engagement for this MCP server.")));
        messages.push(message("assistant", owned("As an AI agent interacting with the qBittorrent MCP server, you must adhere to the following Rules of Engagement:\n\n1. **State Verification**: Always verify the current state of a torrent (via `list_torrents` or resources) before performing actions like pause, resume, or delete.\n2. **Destructive Actions**: Clearly inform the user and obtain confirmation before calling `delete_torrent` or `shutdown_app`. For these \"destructive\" actions, use the `destructiveHint` annotation or require a separate confirmation step.\n3. **Search Etiquette**: Search is asynchronous. Use `get_search_results` for polling and always call `stop_search` once finished to save resources.\n4. **Error Handling**: Treat errors as information for self-correction. Return helpful hints and use `isError: true` to prevent hallucination.\n5. **Idempotency**: Avoid redundant commands (e.g., do not pause an already paused torrent).\n6. **Semantic Feedback**: Translate technical tool results into meaningful context for the user.\n7. **Security**: Never expose sensitive credentials or session cookies in logs or to the user.")));
        Ok(prompt_reply(owned("Rules of Engagement for qBittorrent MCP"), messages))
    } else {
        proof {
            assert(prompt_names()[0] == "fix_stalled_torrent"@);
        }
        Err(cat("Prompt not found: ", name))
    }
}

} // verus!
