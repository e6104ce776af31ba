//! A session of the server: what it answers to each request at once, and
//! what it hands on to be performed on an instance.
use vstd::prelude::*;
use crate::json::{Json, jstr, entry};
use crate::text::{owned, same};
use crate::server::mcp::{McpState, str_member, bool_member, RpcRoute, route_request, select_instance, chosen_instance, known_method, needs_params, str_or_empty, arguments_of, reply_text, is_text_reply};
use crate::server::calls::{Invocation, prepare_tool_call, invocation_outcome};
use crate::server::prompts::{prompt_definitions, prompt_get, prompt_outcome, prompt_names, prompt_descriptions};
use crate::server::resources::{ResourceKind, route_resource, resource_of, resource_definitions, resources_listed};
use crate::server::tools::{tool_definitions, listed_tool_shapes, shapes};
use crate::server::handler::listed_tools;

verus! {

/// The server: the names of the instances it drives, in order, and the
/// state of its session.
#[derive(Debug)]
pub struct McpServer {
    pub instances: Vec<String>,
    pub state: McpState,
    pub running: bool,
}

/// A resource to read from an instance.
#[derive(Debug)]
pub struct ResourceRead {
    pub instance: usize,
    pub kind: ResourceKind,
    pub hash: Option<String>,
}

/// What the server does with a request: answer it at once, call a tool on
/// an instance, or read a resource of an instance.
#[derive(Debug)]
pub enum RequestStep {
    Reply(Json),
    CallTool(Invocation),
    ReadResource(ResourceRead),
}

/// The protocol version the server speaks.
pub open spec fn protocol_version() -> Seq<char> {
    "2024-11-05"@
}

/// The member `key` of the member `outer` of `j`.
pub open spec fn nested(j: Json, outer: Seq<char>, key: Seq<char>) -> Option<Json> {
    match j.member(outer) {
        Some(o) => o.member(key),
        None => None,
    }
}

/// The answer to `initialize`: the protocol version, the server's name and
/// version, and its capabilities: a tool list that can change, resources
/// without subscriptions or changes, and prompts that do not change.
pub open spec fn initialize_reply(j: Json, version: Seq<char>) -> bool {
    &&& str_member(j, "protocolVersion"@) == Some(protocol_version())
    &&& (nested(j, "serverInfo"@, "name"@) matches Some(n) && n.str_of() == Some("qbittorrent-mcp-rs"@))
    &&& (nested(j, "serverInfo"@, "version"@) matches Some(v) && v.str_of() == Some(version))
    &&& (nested(j, "capabilities"@, "tools"@) matches Some(t) && bool_member(t, "listChanged"@) == Some(true))
    &&& (nested(j, "capabilities"@, "resources"@) matches Some(r)
        && bool_member(r, "listChanged"@) == Some(false) && bool_member(r, "subscribe"@) == Some(false))
    &&& (nested(j, "capabilities"@, "prompts"@) matches Some(p) && bool_member(p, "listChanged"@) == Some(false))
}

proof fn lemma_initialize_keys()
    ensures
        "protocolVersion"@ != "serverInfo"@,
        "protocolVersion"@ != "capabilities"@,
        "serverInfo"@ != "capabilities"@,
        "name"@ != "version"@,
        "tools"@ != "resources"@,
        "tools"@ != "prompts"@,
        "resources"@ != "prompts"@,
        "listChanged"@ != "subscribe"@,
{
    reveal_strlit("protocolVersion");
    reveal_strlit("serverInfo");
    reveal_strlit("capabilities");
    reveal_strlit("name");
    reveal_strlit("version");
    reveal_strlit("tools");
    reveal_strlit("resources");
    reveal_strlit("prompts");
    reveal_strlit("listChanged");
    reveal_strlit("subscribe");
    assert("protocolVersion"@[0] != "serverInfo"@[0]);
    assert("protocolVersion"@[0] != "capabilities"@[0]);
    assert("serverInfo"@[0] != "capabilities"@[0]);
    assert("name"@[0] != "version"@[0]);
    assert("tools"@[0] != "resources"@[0]);
    assert("tools"@[0] != "prompts"@[0]);
    assert("resources"@[0] != "prompts"@[0]);
    assert("listChanged"@[0] != "subscribe"@[0]);
}

fn flag(key: &str, value: bool) -> (r: (String, Json))
    ensures
        r.0@ == key@,
        r.1 == Json::Bool(value),
{
    entry(key, Json::Bool(value))
}

/// The answer to `initialize` for a server of version `version`.
pub fn initialize_result(version: &str) -> (r: Json)
    ensures
        initialize_reply(r, version@),
{
    proof {
        lemma_initialize_keys();
        reveal_with_fuel(crate::json::entry_value, 4);
    }
    let mut info: Vec<(String, Json)> = Vec::new();
    info.push(entry("name", jstr("qbittorrent-mcp-rs")));
    info.push(entry("version", jstr(version)));
    let mut tools: Vec<(String, Json)> = Vec::new();
    tools.push(flag("listChanged", true));
    let mut resources: Vec<(String, Json)> = Vec::new();
    resources.push(flag("listChanged", false));
    resources.push(flag("subscribe", false));
    let mut prompts: Vec<(String, Json)> = Vec::new();
    prompts.push(flag("listChanged", false));
    let mut caps: Vec<(String, Json)> = Vec::new();
    caps.push(entry("tools", Json::Obj(tools)));
    caps.push(entry("resources", Json::Obj(resources)));
    caps.push(entry("prompts", Json::Obj(prompts)));
    let mut e: Vec<(String, Json)> = Vec::new();
    e.push(entry("protocolVersion", jstr("2024-11-05")));
    e.push(entry("serverInfo", Json::Obj(info)));
    e.push(entry("capabilities", Json::Obj(caps)));
    Json::Obj(e)
}

/// The items listed under `key` in an answer.
pub open spec fn listed(j: Json, key: Seq<char>) -> Option<Seq<Json>> {
    match j.member(key) {
        Some(Json::Arr(items)) => Some(items@),
        _ => None,
    }
}

fn wrap(key: &str, items: Vec<Json>) -> (r: Json)
    ensures
        listed(r, key@) == Some(items@),
        r.member(key@) == Some(Json::Arr(items)),
{
    proof {
        reveal_with_fuel(crate::json::entry_value, 2);
    }
    let mut e: Vec<(String, Json)> = Vec::new();
    e.push(entry(key, Json::Arr(items)));
    Json::Obj(e)
}

/// Whether the prompts `ps` are the ones the server offers, by name and
/// description.
pub open spec fn prompts_listed(ps: Seq<Json>) -> bool {
    &&& ps.len() == prompt_names().len()
    &&& forall|i: int| 0 <= i < ps.len() ==> str_member(#[trigger] ps[i], "name"@) == Some(prompt_names()[i])
        && str_member(ps[i], "description"@) == Some(prompt_descriptions()[i])
}

/// The resource a read request asks for: the resource its URI names (see
/// `resource_of`), on the instance the URI names or else the default one
/// (see `chosen_instance`).
pub open spec fn resource_read_outcome(uri: Seq<char>, instances: Seq<String>, r: Result<ResourceRead, String>) -> bool {
    match resource_of(uri) {
        None => (r matches Err(m) && m@ == "Resource not found: "@ + uri),
        Some((kind, instance, hash)) => match chosen_instance(instances, instance) {
            Err(m) => (r matches Err(e) && e@ == m),
            Ok(i) => (r matches Ok(read) && read.instance == i && read.kind == kind && crate::cli::opt_view(read.hash) == hash),
        },
    }
}

/// Finds the resource a read request asks for (see `resource_read_outcome`).
pub fn resource_to_read(uri: &str, instances: &Vec<String>) -> (r: Result<ResourceRead, String>)
    ensures
        resource_read_outcome(uri@, instances@, r),
{
    let route = match route_resource(uri) {
        Ok(route) => route,
        Err(m) => {
            return Err(m);
        },
    };
    let index = match &route.instance {
        Some(name) => select_instance(instances, Some(name.as_str())),
        None => select_instance(instances, None),
    };
    match index {
        Ok(i) => Ok(ResourceRead { instance: i, kind: route.kind, hash: route.hash }),
        Err(m) => Err(m),
    }
}

proof fn lemma_methods_differ()
    ensures
        "initialize"@ != "notifications/initialized"@,
        "initialize"@ != "ping"@,
        "initialize"@ != "prompts/list"@,
        "initialize"@ != "prompts/get"@,
        "initialize"@ != "tools/list"@,
        "initialize"@ != "tools/call"@,
        "initialize"@ != "resources/list"@,
        "initialize"@ != "resources/read"@,
        "notifications/initialized"@ != "ping"@,
        "notifications/initialized"@ != "prompts/list"@,
        "notifications/initialized"@ != "prompts/get"@,
        "notifications/initialized"@ != "tools/list"@,
        "notifications/initialized"@ != "tools/call"@,
        "notifications/initialized"@ != "resources/list"@,
        "notifications/initialized"@ != "resources/read"@,
        "ping"@ != "prompts/list"@,
        "ping"@ != "prompts/get"@,
        "ping"@ != "tools/list"@,
        "ping"@ != "tools/call"@,
        "ping"@ != "resources/list"@,
        "ping"@ != "resources/read"@,
        "prompts/list"@ != "prompts/get"@,
        "prompts/list"@ != "tools/list"@,
        "prompts/list"@ != "tools/call"@,
        "prompts/list"@ != "resources/list"@,
        "prompts/list"@ != "resources/read"@,
        "prompts/get"@ != "tools/list"@,
        "prompts/get"@ != "tools/call"@,
        "prompts/get"@ != "resources/list"@,
        "prompts/get"@ != "resources/read"@,
        "tools/list"@ != "tools/call"@,
        "tools/list"@ != "resources/list"@,
        "tools/list"@ != "resources/read"@,
        "tools/call"@ != "resources/list"@,
        "tools/call"@ != "resources/read"@,
        "resources/list"@ != "resources/read"@,
{
    reveal_strlit("initialize");
    reveal_strlit("notifications/initialized");
    reveal_strlit("ping");
    reveal_strlit("prompts/list");
    reveal_strlit("prompts/get");
    reveal_strlit("tools/list");
    reveal_strlit("tools/call");
    reveal_strlit("resources/list");
    reveal_strlit("resources/read");
    assert("initialize"@[0] != "notifications/initialized"@[0]);
    assert("initialize"@[0] != "ping"@[0]);
    assert("initialize"@[0] != "prompts/list"@[0]);
    assert("initialize"@[0] != "prompts/get"@[0]);
    assert("initialize"@[0] != "tools/list"@[0]);
    assert("initialize"@[0] != "tools/call"@[0]);
    assert("initialize"@[0] != "resources/list"@[0]);
    assert("initialize"@[0] != "resources/read"@[0]);
    assert("notifications/initialized"@[0] != "ping"@[0]);
    assert("notifications/initialized"@[0] != "prompts/list"@[0]);
    assert("notifications/initialized"@[0] != "prompts/get"@[0]);
    assert("notifications/initialized"@[0] != "tools/list"@[0]);
    assert("notifications/initialized"@[0] != "tools/call"@[0]);
    assert("notifications/initialized"@[0] != "resources/list"@[0]);
    assert("notifications/initialized"@[0] != "resources/read"@[0]);
    assert("ping"@[1] != "prompts/list"@[1]);
    assert("ping"@[1] != "prompts/get"@[1]);
    assert("ping"@[0] != "tools/list"@[0]);
    assert("ping"@[0] != "tools/call"@[0]);
    assert("ping"@[0] != "resources/list"@[0]);
    assert("ping"@[0] != "resources/read"@[0]);
    assert("prompts/list"@[8] != "prompts/get"@[8]);
    assert("prompts/list"@[0] != "tools/list"@[0]);
    assert("prompts/list"@[0] != "tools/call"@[0]);
    assert("prompts/list"@[0] != "resources/list"@[0]);
    assert("prompts/list"@[0] != "resources/read"@[0]);
    assert("prompts/get"@[0] != "tools/list"@[0]);
    assert("prompts/get"@[0] != "tools/call"@[0]);
    assert("prompts/get"@[0] != "resources/list"@[0]);
    assert("prompts/get"@[0] != "resources/read"@[0]);
    assert("tools/list"@[6] != "tools/call"@[6]);
    assert("tools/list"@[0] != "resources/list"@[0]);
    assert("tools/list"@[0] != "resources/read"@[0]);
    assert("tools/call"@[0] != "resources/list"@[0]);
    assert("tools/call"@[0] != "resources/read"@[0]);
    assert("resources/list"@[10] != "resources/read"@[10]);
}


impl McpServer {
    /// A server for the instances named `instances`; in lazy mode it shows
    /// only the essential tools until asked for all of them.
    pub fn new(instances: Vec<String>, lazy_mode: bool) -> (r: McpServer)
        ensures
            r.instances@ == instances@,
            r.state.lazy_mode == lazy_mode,
            r.state.tools_loaded == !lazy_mode,
            !r.state.should_notify,
            r.state.notification_queue@.len() == 0,
            r.running,
    {
        McpServer { instances, state: McpState::new(lazy_mode), running: true }
    }

    /// Whether the server still serves (it does until shut down).
    pub fn is_running(&self) -> (r: bool)
        ensures
            r == self.running,
    {
        self.running
    }

    /// Stops serving.
    pub fn shutdown(&mut self)
        ensures
            !final(self).running,
            final(self).instances@ == old(self).instances@,
            final(self).state == old(self).state,
    {
        self.running = false;
    }

    /// Queues a notification with `method` and `params` (see
    /// `McpState::push_notification`).
    pub fn push_notification(&mut self, method: &str, params: Json)
        ensures
            final(self).state.notification_queue@.len() == old(self).state.notification_queue@.len() + 1,
            final(self).state.notification_queue@.take(old(self).state.notification_queue@.len() as int) == old(self).state.notification_queue@,
            final(self).state.notification_queue@.last().method@ == method@,
            final(self).state.notification_queue@.last().params == Some(params),
            final(self).state.lazy_mode == old(self).state.lazy_mode,
            final(self).state.tools_loaded == old(self).state.tools_loaded,
            final(self).state.should_notify == old(self).state.should_notify,
            final(self).instances@ == old(self).instances@,
            final(self).running == old(self).running,
    {
        self.state.push_notification(method, params);
    }

    /// Whether the tool list changed since this was last asked; asking
    /// consumes the notice.
    pub fn check_notification(&mut self) -> (r: bool)
        ensures
            r == old(self).state.should_notify,
            !final(self).state.should_notify,
            final(self).state.lazy_mode == old(self).state.lazy_mode,
            final(self).state.tools_loaded == old(self).state.tools_loaded,
            final(self).state.notification_queue@ == old(self).state.notification_queue@,
            final(self).instances@ == old(self).instances@,
            final(self).running == old(self).running,
    {
        self.state.check_notification()
    }

    /// The resources of the instances (see `resources_listed`).
    pub fn get_resource_definitions(&self) -> (r: Vec<Json>)
        ensures
            resources_listed(r@, self.instances@),
    {
        resource_definitions(&self.instances)
    }

    /// Calls tool `name` with the arguments `args`: `show_all_tools` shows
    /// every tool from now on and is answered at once; any other tool is
    /// handed on with its instance (see `invocation_outcome`).
    pub fn call_tool(&mut self, name: &str, args: &Json) -> (r: Result<RequestStep, String>)
        ensures
            final(self).instances@ == old(self).instances@,
            final(self).running == old(self).running,
            name@ == "show_all_tools"@ ==> {
                &&& r matches Ok(RequestStep::Reply(j))
                &&& is_text_reply(j, "All tools enabled. Please refresh your tool list."@)
                &&& reply_text(j) == Some("All tools enabled. Please refresh your tool list."@)
                &&& !final(self).state.lazy_mode
                &&& final(self).state.tools_loaded
                &&& final(self).state.should_notify
                &&& final(self).state.notification_queue@ == old(self).state.notification_queue@
            },
            name@ != "show_all_tools"@ ==> final(self).state == old(self).state && match r {
                Ok(RequestStep::CallTool(inv)) => invocation_outcome(name@, *args, old(self).instances@, Ok(inv)),
                Err(m) => invocation_outcome(name@, *args, old(self).instances@, Err(m)),
                _ => false,
            },
    {
        match prepare_tool_call(name, args, &self.instances) {
            Ok(inv) => {
                if inv.instance.is_none() {
                    Ok(RequestStep::Reply(self.state.show_all_tools()))
                } else {
                    Ok(RequestStep::CallTool(inv))
                }
            },
            Err(m) => Err(m),
        }
    }

    /// Handles a request of the Model Context Protocol (see `route_request`):
    /// lists and prompt conversations are answered at once, as is
    /// `show_all_tools`; any other tool call and any resource read is
    /// handed on with the instance it targets.
    pub fn handle_request(&mut self, method: &str, params: Option<Json>, version: &str) -> (r: Result<RequestStep, String>)
        ensures
            final(self).instances@ == old(self).instances@,
            final(self).running == old(self).running,
            method@ == "initialize"@ ==> (r matches Ok(RequestStep::Reply(j)) && initialize_reply(j, version@)),
            method@ == "notifications/initialized"@ ==> (r matches Ok(RequestStep::Reply(j)) && j is Null),
            method@ == "ping"@ ==> (r matches Ok(RequestStep::Reply(j)) && (j matches Json::Obj(e) && e@.len() == 0)),
            method@ == "prompts/list"@ ==> (r matches Ok(RequestStep::Reply(j)) && (listed(j, "prompts"@) matches Some(ps) && prompts_listed(ps))),
            method@ == "tools/list"@ ==> (r matches Ok(RequestStep::Reply(j)) && listed_tools(j) == Some(listed_tool_shapes(old(self).state))),
            method@ == "resources/list"@ ==> (r matches Ok(RequestStep::Reply(j))
                && (listed(j, "resources"@) matches Some(rs) && resources_listed(rs, old(self).instances@))),
            needs_params(method@) && params is None ==> (r matches Err(m) && m@ == "Missing params for "@ + method@),
            !known_method(method@) ==> (r matches Err(m) && m@ == "Method not found: "@ + method@),
            method@ == "prompts/get"@ && params is Some ==> ({
                let p = params->0;
                match r {
                    Ok(RequestStep::Reply(j)) => prompt_outcome(str_or_empty(p, "name"@), arguments_of(p), Ok(j)),
                    Err(m) => prompt_outcome(str_or_empty(p, "name"@), arguments_of(p), Err(m)),
                    _ => false,
                }
            }),
            method@ == "resources/read"@ && params is Some ==> match r {
                Ok(RequestStep::ReadResource(read)) => resource_read_outcome(str_or_empty(params->0, "uri"@), old(self).instances@, Ok(read)),
                Err(m) => resource_read_outcome(str_or_empty(params->0, "uri"@), old(self).instances@, Err(m)),
                _ => false,
            },
            method@ == "tools/call"@ && params is Some ==> {
                let p = params->0;
                let name = str_or_empty(p, "name"@);
                if name == "show_all_tools"@ {
                    &&& r matches Ok(RequestStep::Reply(j))
                    &&& is_text_reply(j, "All tools enabled. Please refresh your tool list."@)
                &&& reply_text(j) == Some("All tools enabled. Please refresh your tool list."@)
                    &&& !final(self).state.lazy_mode
                    &&& final(self).state.tools_loaded
                    &&& final(self).state.should_notify
                    &&& final(self).state.notification_queue@ == old(self).state.notification_queue@
                } else {
                    match r {
                        Ok(RequestStep::CallTool(inv)) => invocation_outcome(name, arguments_of(p), old(self).instances@, Ok(inv)),
                        Err(m) => invocation_outcome(name, arguments_of(p), old(self).instances@, Err(m)),
                        _ => false,
                    }
                }
            },
            !(method@ == "tools/call"@ && (params matches Some(p) && str_or_empty(p, "name"@) == "show_all_tools"@))
                ==> final(self).state == old(self).state,
    {
        proof {
            lemma_methods_differ();
        }
        let route = match route_request(method, params) {
            Ok(route) => route,
            Err(m) => {
                return Err(m);
            },
        };
        match route {
            RpcRoute::Initialize => Ok(RequestStep::Reply(initialize_result(version))),
            RpcRoute::Initialized => Ok(RequestStep::Reply(Json::Null)),
            RpcRoute::Ping => Ok(RequestStep::Reply(Json::Obj(Vec::new()))),
            RpcRoute::PromptsList => Ok(RequestStep::Reply(wrap("prompts", prompt_definitions()))),
            RpcRoute::PromptsGet { name, arguments } => match prompt_get(name.as_str(), &arguments) {
                Ok(j) => Ok(RequestStep::Reply(j)),
                Err(m) => Err(m),
            },
            RpcRoute::ToolsList => Ok(RequestStep::Reply(wrap("tools", tool_definitions(&self.state)))),
            RpcRoute::ToolsCall { name, arguments } => self.call_tool(name.as_str(), &arguments),
            RpcRoute::ResourcesList => Ok(RequestStep::Reply(wrap("resources", resource_definitions(&self.instances)))),
            RpcRoute::ResourcesRead { uri } => match resource_to_read(uri.as_str(), &self.instances) {
                Ok(read) => Ok(RequestStep::ReadResource(read)),
                Err(m) => Err(m),
            },
        }
    }
}

} // verus!
