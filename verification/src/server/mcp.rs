//! JSON-RPC requests of the Model Context Protocol: the session state, the
//! choice of instance, and the routing of methods.
use vstd::prelude::*;
use crate::json::{Json, jstr, entry};
use crate::text::{owned, cat, same};
pub use crate::server::session::McpServer;

verus! {

/// The string member `key` of `j`, if `j` is an object holding one.
pub open spec fn str_member(j: Json, key: Seq<char>) -> Option<Seq<char>> {
    match j.member(key) {
        Some(v) => v.str_of(),
        None => None,
    }
}

/// The boolean member `key` of `j`.
pub open spec fn bool_member(j: Json, key: Seq<char>) -> Option<bool> {
    match j.member(key) {
        Some(v) => v.bool_of(),
        None => None,
    }
}

/// The integer member `key` of `j`.
pub open spec fn int_member(j: Json, key: Seq<char>) -> Option<i64> {
    match j.member(key) {
        Some(v) => v.int_of(),
        None => None,
    }
}

/// Whether member `key` of `j` is a number.
pub open spec fn number_member(j: Json, key: Seq<char>) -> bool {
    match j.member(key) {
        Some(v) => v.is_number(),
        None => false,
    }
}

/// The string member `key` of `j`, copied.
pub fn get_str(j: &Json, key: &str) -> (r: Option<String>)
    ensures
        crate::cli::opt_view(r) == str_member(*j, key@),
{
    match j.get(key) {
        Some(Json::Str(s)) => Some(s.clone()),
        _ => None,
    }
}

/// The boolean member `key` of `j`.
pub fn get_bool(j: &Json, key: &str) -> (r: Option<bool>)
    ensures
        r == bool_member(*j, key@),
{
    match j.get(key) {
        Some(Json::Bool(b)) => Some(*b),
        _ => None,
    }
}

/// The integer member `key` of `j`.
pub fn get_int(j: &Json, key: &str) -> (r: Option<i64>)
    ensures
        r == int_member(*j, key@),
{
    match j.get(key) {
        Some(Json::Int(i)) => Some(*i),
        _ => None,
    }
}

/// Whether member `key` of `j` is a number.
pub fn has_number(j: &Json, key: &str) -> (r: bool)
    ensures
        r == number_member(*j, key@),
{
    match j.get(key) {
        Some(Json::Int(_)) => true,
        Some(Json::Num(_)) => true,
        _ => false,
    }
}

/// A notification to send to the client.
#[derive(Debug)]
pub struct Notification {
    pub method: String,
    pub params: Option<Json>,
}

/// The state of a session: whether only the essential tools are shown
/// (lazy mode) until the agent asks for all of them, whether the client is
/// owed a notice that the tool list changed, and the notifications waiting
/// to be sent, oldest first.
#[derive(Debug)]
pub struct McpState {
    pub lazy_mode: bool,
    pub tools_loaded: bool,
    pub should_notify: bool,
    pub notification_queue: Vec<Notification>,
}

/// Whether a session in state `s` shows every tool.
pub open spec fn shows_all_tools(s: McpState) -> bool {
    !(s.lazy_mode && !s.tools_loaded)
}

/// Whether `n` is the notice that the tool list changed.
pub open spec fn is_list_changed(n: Notification) -> bool {
    n.method@ == "notifications/tools/list_changed"@ && n.params is None
}

impl McpState {
    /// A new session; in lazy mode the full tool list is not loaded yet.
    pub fn new(lazy_mode: bool) -> (r: McpState)
        ensures
            r.lazy_mode == lazy_mode,
            r.tools_loaded == !lazy_mode,
            !r.should_notify,
            r.notification_queue@.len() == 0,
    {
        McpState { lazy_mode, tools_loaded: !lazy_mode, should_notify: false, notification_queue: Vec::new() }
    }

    /// Queues a notification with `method` and `params`.
    pub fn push_notification(&mut self, method: &str, params: Json)
        ensures
            final(self).notification_queue@.len() == old(self).notification_queue@.len() + 1,
            final(self).notification_queue@.take(old(self).notification_queue@.len() as int) == old(self).notification_queue@,
            final(self).notification_queue@.last().method@ == method@,
            final(self).notification_queue@.last().params == Some(params),
            final(self).lazy_mode == old(self).lazy_mode,
            final(self).tools_loaded == old(self).tools_loaded,
            final(self).should_notify == old(self).should_notify,
    {
        self.notification_queue.push(Notification { method: owned(method), params: Some(params) });
        assert(self.notification_queue@.take(old(self).notification_queue@.len() as int) =~= old(self).notification_queue@);
    }

    /// Whether the tool list changed since this was last asked; asking
    /// consumes the notice.
    pub fn check_notification(&mut self) -> (r: bool)
        ensures
            r == old(self).should_notify,
            !final(self).should_notify,
            final(self).lazy_mode == old(self).lazy_mode,
            final(self).tools_loaded == old(self).tools_loaded,
            final(self).notification_queue@ == old(self).notification_queue@,
    {
        if self.should_notify {
            self.should_notify = false;
            true
        } else {
            false
        }
    }

    /// Takes every notification to send: the notice that the tool list
    /// changed when one is owed, then the queued notifications in the order
    /// they were queued. Nothing is left to send afterwards.
    pub fn take_pending(&mut self) -> (r: Vec<Notification>)
        ensures
            old(self).should_notify ==> r@.len() == old(self).notification_queue@.len() + 1 && is_list_changed(r@[0])
                && r@.skip(1) == old(self).notification_queue@,
            !old(self).should_notify ==> r@ == old(self).notification_queue@,
            !final(self).should_notify,
            final(self).notification_queue@.len() == 0,
            final(self).lazy_mode == old(self).lazy_mode,
            final(self).tools_loaded == old(self).tools_loaded,
    {
        let mut pending: Vec<Notification> = Vec::new();
        if self.should_notify {
            self.should_notify = false;
            pending.push(Notification { method: owned("notifications/tools/list_changed"), params: None });
        }
        let mut queued: Vec<Notification> = Vec::new();
        std::mem::swap(&mut queued, &mut self.notification_queue);
        let ghost start = pending@;
        pending.append(&mut queued);
        assert(pending@.skip(start.len() as int) =~= old(self).notification_queue@);
        assert(!old(self).should_notify ==> pending@ =~= old(self).notification_queue@);
        pending
    }

    /// Shows every tool from now on and owes the client a notice that the
    /// tool list changed; the reply asks the agent to refresh its tool list.
    pub fn show_all_tools(&mut self) -> (r: Json)
        ensures
            !final(self).lazy_mode,
            final(self).tools_loaded,
            final(self).should_notify,
            final(self).notification_queue@ == old(self).notification_queue@,
            shows_all_tools(*final(self)),
            is_text_reply(r, "All tools enabled. Please refresh your tool list."@),
            reply_text(r) == Some("All tools enabled. Please refresh your tool list."@),
    {
        self.lazy_mode = false;
        self.tools_loaded = true;
        self.should_notify = true;
        text_reply("All tools enabled. Please refresh your tool list.")
    }
}

/// The text of a tool reply `{"content": [{"type": "text", "text": ..}]}`.
pub open spec fn reply_text(j: Json) -> Option<Seq<char>> {
    match j.member("content"@) {
        Some(Json::Arr(items)) => if items@.len() == 1 && str_member(items@[0], "type"@) == Some("text"@) {
            str_member(items@[0], "text"@)
        } else {
            None
        },
        _ => None,
    }
}

/// Whether `j` is the item `{"type": "text", "text": text}`, with no other member.
pub open spec fn is_text_item(j: Json, text: Seq<char>) -> bool {
    &&& j matches Json::Obj(f)
    &&& f@.len() == 2
    &&& f@[0].0@ == "type"@
    &&& f@[0].1.str_of() == Some("text"@)
    &&& f@[1].0@ == "text"@
    &&& f@[1].1.str_of() == Some(text)
}

/// Whether `j` is the reply `{"content": [{"type": "text", "text": text}]}`,
/// with no other member.
pub open spec fn is_text_reply(j: Json, text: Seq<char>) -> bool {
    &&& j matches Json::Obj(e)
    &&& e@.len() == 1
    &&& e@[0].0@ == "content"@
    &&& e@[0].1 matches Json::Arr(items)
    &&& items@.len() == 1
    &&& is_text_item(items@[0], text)
}

/// Whether a tool reply is marked as an error.
pub open spec fn reply_is_error(j: Json) -> bool {
    bool_member(j, "isError"@) == Some(true)
}

proof fn lemma_text_keys()
    ensures
        "type"@ != "text"@,
        "content"@ != "isError"@,
{
    reveal_strlit("type");
    reveal_strlit("text");
    reveal_strlit("content");
    reveal_strlit("isError");
    assert("type"@[0] != "text"@[1]);
    assert("content"@[0] != "isError"@[0]);
}

fn text_item(text: String) -> (r: Json)
    ensures
        is_text_item(r, text@),
        str_member(r, "type"@) == Some("text"@),
        str_member(r, "text"@) == Some(text@),
{
    proof {
        lemma_text_keys();
        reveal_with_fuel(crate::json::entry_value, 3);
    }
    let mut e: Vec<(String, Json)> = Vec::new();
    e.push(entry("type", jstr("text")));
    e.push(entry("text", Json::Str(text)));
    Json::Obj(e)
}

/// A tool reply holding one text item.
pub fn text_reply_owned(text: String) -> (r: Json)
    ensures
        is_text_reply(r, text@),
        reply_text(r) == Some(text@),
        !reply_is_error(r),
        r.member("isError"@) is None,
{
    proof {
        lemma_text_keys();
        reveal_with_fuel(crate::json::entry_value, 3);
    }
    let mut items: Vec<Json> = Vec::new();
    items.push(text_item(text));
    let mut e: Vec<(String, Json)> = Vec::new();
    e.push(entry("content", Json::Arr(items)));
    Json::Obj(e)
}

/// A tool reply holding one text item.
pub fn text_reply(text: &str) -> (r: Json)
    ensures
        is_text_reply(r, text@),
        reply_text(r) == Some(text@),
        !reply_is_error(r),
{
    text_reply_owned(owned(text))
}

/// A tool reply holding one text item, marked as an error.
pub fn error_reply(text: String) -> (r: Json)
    ensures
        reply_text(r) == Some(text@),
        reply_is_error(r),
{
    proof {
        lemma_text_keys();
        reveal_with_fuel(crate::json::entry_value, 3);
    }
    let mut items: Vec<Json> = Vec::new();
    items.push(text_item(text));
    let mut e: Vec<(String, Json)> = Vec::new();
    e.push(entry("content", Json::Arr(items)));
    e.push(entry("isError", Json::Bool(true)));
    Json::Obj(e)
}

/// The instance a request targets, by its index in `names`: the instance
/// named in the request; without a name, the one named `default`, else the
/// first one.
pub open spec fn chosen_instance(names: Seq<String>, requested: Option<Seq<char>>) -> Result<int, Seq<char>> {
    match requested {
        Some(n) => if exists|i: int| 0 <= i < names.len() && names[i]@ == n {
            Ok(choose|i: int| 0 <= i < names.len() && names[i]@ == n && forall|j: int| 0 <= j < i ==> names[j]@ != n)
        } else {
            Err("Instance not found: "@ + n)
        },
        None => if exists|i: int| 0 <= i < names.len() && names[i]@ == "default"@ {
            Ok(choose|i: int| 0 <= i < names.len() && names[i]@ == "default"@ && forall|j: int| 0 <= j < i ==> names[j]@ != "default"@)
        } else if names.len() > 0 {
            Ok(0)
        } else {
            Err("No instances configured"@)
        },
    }
}

/// The first index of `n` among `names`.
fn index_of(names: &Vec<String>, n: &str) -> (r: Option<usize>)
    ensures
        match r {
            Some(i) => i < names.len() && names@[i as int]@ == n@ && forall|j: int| 0 <= j < i ==> names@[j]@ != n@,
            None => forall|j: int| 0 <= j < names.len() ==> names@[j]@ != n@,
        },
{
    let mut i: usize = 0;
    while i < names.len()
        invariant
            i <= names.len(),
            forall|j: int| 0 <= j < i ==> names@[j]@ != n@,
        decreases names.len() - i,
    {
        if same(names[i].as_str(), n) {
            return Some(i);
        }
        i = i + 1;
    }
    None
}

proof fn lemma_first_index(names: Seq<String>, n: Seq<char>, i: int)
    requires
        0 <= i < names.len(),
        names[i]@ == n,
        forall|j: int| 0 <= j < i ==> names[j]@ != n,
    ensures
        (choose|k: int| 0 <= k < names.len() && names[k]@ == n && forall|j: int| 0 <= j < k ==> names[j]@ != n) == i,
{
    let k = choose|k: int| 0 <= k < names.len() && names[k]@ == n && forall|j: int| 0 <= j < k ==> names[j]@ != n;
    assert(0 <= k < names.len() && names[k]@ == n && forall|j: int| 0 <= j < k ==> names[j]@ != n);
    if k < i {
        assert(names[k]@ != n);
    }
    if i < k {
        assert(names[i]@ != n);
    }
}

/// Chooses the instance a request targets (see `chosen_instance`).
pub fn select_instance(names: &Vec<String>, requested: Option<&str>) -> (r: Result<usize, String>)
    ensures
        match r {
            Ok(i) => chosen_instance(names@, crate::client::opt_str(requested)) == Ok::<int, Seq<char>>(i as int),
            Err(m) => chosen_instance(names@, crate::client::opt_str(requested)) == Err::<int, Seq<char>>(m@),
        },
{
    match requested {
        Some(n) => match index_of(names, n) {
            Some(i) => {
                proof { lemma_first_index(names@, n@, i as int); }
                Ok(i)
            },
            None => Err(cat("Instance not found: ", n)),
        },
        None => match index_of(names, "default") {
            Some(i) => {
                proof { lemma_first_index(names@, "default"@, i as int); }
                Ok(i)
            },
            None => if names.len() > 0 {
                Ok(0)
            } else {
                Err(owned("No instances configured"))
            },
        },
    }
}

/// A JSON-RPC request.
#[derive(Debug)]
pub struct JsonRpcRequest {
    pub jsonrpc: String,
    pub method: String,
    pub params: Option<Json>,
    pub id: Option<Json>,
}

/// The error of a JSON-RPC response.
#[derive(Debug)]
pub struct JsonRpcError {
    pub code: i64,
    pub message: String,
    pub data: Option<Json>,
}

/// A JSON-RPC response: a result or an error.
#[derive(Debug)]
pub struct JsonRpcResponse {
    pub jsonrpc: String,
    pub id: Option<Json>,
    pub result: Option<Json>,
    pub error: Option<JsonRpcError>,
}

/// The code of a failed request.
pub open spec fn internal_error_code() -> i64 {
    -32603i64
}

impl JsonRpcResponse {
    /// The response to the request with `id`: its result, or an internal
    /// error (`-32603`) with the message of the failure.
    pub fn reply(id: Json, outcome: Result<Json, String>) -> (r: JsonRpcResponse)
        ensures
            r.jsonrpc@ == "2.0"@,
            r.id == Some(id),
            match outcome {
                Ok(v) => r.result == Some(v) && r.error is None,
                Err(m) => r.result is None && (r.error matches Some(e) && e.code == internal_error_code() && e.message@ == m@ && e.data is None),
            },
    {
        match outcome {
            Ok(v) => JsonRpcResponse { jsonrpc: owned("2.0"), id: Some(id), result: Some(v), error: None },
            Err(m) => JsonRpcResponse {
                jsonrpc: owned("2.0"),
                id: Some(id),
                result: None,
                error: Some(JsonRpcError { code: -32603, message: m, data: None }),
            },
        }
    }
}

/// What a request asks for.
#[derive(Debug)]
pub enum RpcRoute {
    Initialize,
    Initialized,
    Ping,
    PromptsList,
    PromptsGet { name: String, arguments: Json },
    ToolsList,
    ToolsCall { name: String, arguments: Json },
    ResourcesList,
    ResourcesRead { uri: String },
}

/// The string member `key` of the parameters, or empty.
pub open spec fn str_or_empty(params: Json, key: Seq<char>) -> Seq<char> {
    match str_member(params, key) {
        Some(s) => s,
        None => Seq::<char>::empty(),
    }
}

/// The member `arguments` of the parameters, or `null`.
pub open spec fn arguments_of(params: Json) -> Json {
    match params.member("arguments"@) {
        Some(a) => a,
        None => Json::Null,
    }
}

/// Whether a method needs parameters.
pub open spec fn needs_params(method: Seq<char>) -> bool {
    method == "prompts/get"@ || method == "tools/call"@ || method == "resources/read"@
}

/// Whether a method is one the server knows.
pub open spec fn known_method(method: Seq<char>) -> bool {
    method == "initialize"@ || method == "notifications/initialized"@ || method == "ping"@
        || method == "prompts/list"@ || method == "tools/list"@ || method == "resources/list"@
        || needs_params(method)
}

fn str_or_empty_exec(params: &Json, key: &str) -> (r: String)
    ensures
        r@ == str_or_empty(*params, key@),
{
    match get_str(params, key) {
        Some(s) => s,
        None => String::new(),
    }
}

/// Routes a request by its method. `prompts/get`, `tools/call` and
/// `resources/read` need parameters; the name, the arguments and the URI
/// default to empty, `null` and empty.
pub fn route_request(method: &str, params: Option<Json>) -> (r: Result<RpcRoute, String>)
    ensures
        match r {
            Ok(RpcRoute::Initialize) => method@ == "initialize"@,
            Ok(RpcRoute::Initialized) => method@ == "notifications/initialized"@,
            Ok(RpcRoute::Ping) => method@ == "ping"@,
            Ok(RpcRoute::PromptsList) => method@ == "prompts/list"@,
            Ok(RpcRoute::ToolsList) => method@ == "tools/list"@,
            Ok(RpcRoute::ResourcesList) => method@ == "resources/list"@,
            Ok(RpcRoute::PromptsGet { name, arguments }) => method@ == "prompts/get"@
                && (params matches Some(p) && name@ == str_or_empty(p, "name"@) && arguments == arguments_of(p)),
            Ok(RpcRoute::ToolsCall { name, arguments }) => method@ == "tools/call"@
                && (params matches Some(p) && name@ == str_or_empty(p, "name"@) && arguments == arguments_of(p)),
            Ok(RpcRoute::ResourcesRead { uri }) => method@ == "resources/read"@
                && (params matches Some(p) && uri@ == str_or_empty(p, "uri"@)),
            Err(m) => if known_method(method@) {
                needs_params(method@) && params is None && m@ == "Missing params for "@ + method@
            } else {
                m@ == "Method not found: "@ + method@
            },
        },
{
    if same(method, "initialize") {
        Ok(RpcRoute::Initialize)
    } else if same(method, "notifications/initialized") {
        Ok(RpcRoute::Initialized)
    } else if same(method, "ping") {
        Ok(RpcRoute::Ping)
    } else if same(method, "prompts/list") {
        Ok(RpcRoute::PromptsList)
    } else if same(method, "tools/list") {
        Ok(RpcRoute::ToolsList)
    } else if same(method, "resources/list") {
        Ok(RpcRoute::ResourcesList)
    } else if same(method, "prompts/get") || same(method, "tools/call") {
        match params {
            Some(p) => {
                let name = str_or_empty_exec(&p, "name");
                let arguments = match crate::json::into_member(p, "arguments") {
                    Some(a) => a,
                    None => Json::Null,
                };
                if same(method, "prompts/get") {
                    Ok(RpcRoute::PromptsGet { name, arguments })
                } else {
                    Ok(RpcRoute::ToolsCall { name, arguments })
                }
            },
            None => Err(cat("Missing params for ", method)),
        }
    } else if same(method, "resources/read") {
        match params {
            Some(p) => Ok(RpcRoute::ResourcesRead { uri: str_or_empty_exec(&p, "uri") }),
            None => Err(cat("Missing params for ", method)),
        }
    } else {
        Err(cat("Method not found: ", method))
    }
}

} // verus!
