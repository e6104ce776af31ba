//! Starting the server: the client of each configured instance, how logs
//! rotate, and which transport serves the protocol.
use vstd::prelude::*;
use crate::text::{owned, cat, cat3, same, starts_with, has_prefix, u64_text, decimal, chars_of};
use crate::cli::opt_view;
use crate::client::QBitClient;
use crate::config::{AppConfig, QBitInstance, InstanceView, configured_instances, instance_views};

verus! {

/// Whether `c` is white space as `char::is_whitespace` defines it: the
/// characters with the Unicode `White_Space` property.
pub open spec fn white_space(c: char) -> bool {
    let u = c as u32;
    (9 <= u <= 13) || u == 32 || u == 0x85 || u == 0xa0 || u == 0x1680 || (0x2000 <= u <= 0x200a)
        || u == 0x2028 || u == 0x2029 || u == 0x202f || u == 0x205f || u == 0x3000
}

/// Whether `s` is empty once white space is trimmed from both ends.
pub open spec fn blank(s: Seq<char>) -> bool {
    forall|i: int| 0 <= i < s.len() ==> white_space(#[trigger] s[i])
}

fn is_white_space(c: char) -> (r: bool)
    ensures
        r == white_space(c),
{
    let u = c as u32;
    (9 <= u && u <= 13) || u == 32 || u == 0x85 || u == 0xa0 || u == 0x1680 || (0x2000 <= u && u <= 0x200a)
        || u == 0x2028 || u == 0x2029 || u == 0x202f || u == 0x205f || u == 0x3000
}

/// Whether `s` is blank (`s.trim().is_empty()`).
pub fn is_blank(s: &str) -> (r: bool)
    ensures
        r == blank(s@),
{
    let cs = chars_of(s);
    let mut i: usize = 0;
    while i < cs.len()
        invariant
            i <= cs.len(),
            cs@ == s@,
            forall|k: int| 0 <= k < i ==> white_space(#[trigger] cs@[k]),
        decreases cs.len() - i,
    {
        if !is_white_space(cs[i]) {
            return false;
        }
        i = i + 1;
    }
    true
}

/// The base URL of an instance: a host given with its scheme is kept, with
/// the port appended when one is given; any other host is reached over
/// plain HTTP, on the given port or else 80.
pub open spec fn base_url_for(host: Seq<char>, port: Option<u16>) -> Seq<char> {
    if has_prefix(host, "http://"@) || has_prefix(host, "https://"@) {
        match port {
            Some(p) => host + ":"@ + decimal(p as nat),
            None => host,
        }
    } else {
        "http://"@ + host + ":"@ + decimal(match port {
            Some(p) => p as nat,
            None => 80,
        })
    }
}

/// A host given with a scheme, `http://` and `https://` alike, keeps it and
/// gets the given port appended after a colon, or no port when none is
/// given; a bare host is reached over `http://` on the given port or 80.
pub proof fn base_url_keeps_scheme_and_port(host: Seq<char>, p: u16)
    ensures
        has_prefix(host, "http://"@) ==> base_url_for(host, Some(p)) == host + ":"@ + decimal(p as nat),
        has_prefix(host, "https://"@) ==> base_url_for(host, Some(p)) == host + ":"@ + decimal(p as nat),
        has_prefix(host, "http://"@) || has_prefix(host, "https://"@) ==> base_url_for(host, None) == host,
        !has_prefix(host, "http://"@) && !has_prefix(host, "https://"@)
            ==> base_url_for(host, Some(p)) == "http://"@ + host + ":"@ + decimal(p as nat),
        !has_prefix(host, "http://"@) && !has_prefix(host, "https://"@)
            ==> base_url_for(host, None) == "http://"@ + host + ":80"@,
{
    assert(decimal(80) == "80"@) by {
        reveal_strlit("80");
        reveal_with_fuel(decimal, 2);
        assert(decimal(80) =~= seq!['8', '0']);
    }
    assert(":"@ + "80"@ == ":80"@) by {
        reveal_strlit(":");
        reveal_strlit("80");
        reveal_strlit(":80");
        assert(":"@ + "80"@ =~= ":80"@);
    }
    assert("http://"@ + host + ":"@ + "80"@ =~= "http://"@ + host + ":80"@);
}

/// The base URL of an instance (see `base_url_for`).
pub fn base_url(host: &str, port: Option<u16>) -> (r: String)
    ensures
        r@ == base_url_for(host@, port),
        (has_prefix(host@, "http://"@) || has_prefix(host@, "https://"@)) && port is Some
            ==> r@ == host@ + ":"@ + decimal(port->0 as nat),
        (has_prefix(host@, "http://"@) || has_prefix(host@, "https://"@)) && port is None ==> r@ == host@,
        !(has_prefix(host@, "http://"@) || has_prefix(host@, "https://"@)) && port is Some
            ==> r@ == "http://"@ + host@ + ":"@ + decimal(port->0 as nat),
        !(has_prefix(host@, "http://"@) || has_prefix(host@, "https://"@)) && port is None
            ==> r@ == "http://"@ + host@ + ":80"@,
{
    proof {
        base_url_keeps_scheme_and_port(host@, 80);
    }
    if starts_with(host, "http://") || starts_with(host, "https://") {
        match port {
            Some(p) => {
                let digits = u64_text(p as u64);
                cat3(host, ":", digits.as_str())
            },
            None => owned(host),
        }
    } else {
        let p: u16 = match port {
            Some(p) => p,
            None => 80,
        };
        let digits = u64_text(p as u64);
        let mut s = cat3("http://", host, ":");
        s.append(digits.as_str());
        s
    }
}

/// The client set up for an instance, under the instance's name; whether
/// to log in with it before serving; and whether it is the client that
/// serves that name (no later instance of the same name replaces it).
#[derive(Debug)]
pub struct ClientPlan {
    pub name: String,
    pub client: QBitClient,
    pub login: bool,
    pub serves: bool,
}

/// `ClientPlan` over character sequences.
pub struct PlanView {
    pub name: Seq<char>,
    pub base_url: Seq<char>,
    pub username: Option<Seq<char>>,
    pub password: Option<Seq<char>>,
    pub no_verify_ssl: bool,
    pub login: bool,
    pub serves: bool,
}

impl View for ClientPlan {
    type V = PlanView;

    open spec fn view(&self) -> PlanView {
        PlanView {
            name: self.name@,
            base_url: self.client.base_url@,
            username: opt_view(self.client.username),
            password: opt_view(self.client.password),
            no_verify_ssl: self.client.no_verify_ssl,
            login: self.login,
            serves: self.serves,
        }
    }
}

/// The client of an instance: its base URL; its credentials when both a
/// user name and a password are given; certificates left unchecked when the
/// instance (or else the configuration) says so and the URL is HTTPS; a
/// login whenever a user name is given; serving as `serves` says.
pub open spec fn plan_of(i: InstanceView, default_no_verify: bool, serves: bool) -> PlanView {
    let url = base_url_for(i.host, i.port);
    let credentials = i.username is Some && i.password is Some;
    PlanView {
        name: i.name,
        base_url: url,
        username: if credentials { i.username } else { None },
        password: if credentials { i.password } else { None },
        no_verify_ssl: match i.no_verify_ssl {
            Some(b) => b,
            None => default_no_verify,
        } && has_prefix(url, "https://"@),
        login: i.username is Some,
        serves,
    }
}

/// Whether an instance after position `k` with a host has the name of the
/// instance at `k`.
pub open spec fn replaced_later(insts: Seq<InstanceView>, k: int) -> bool {
    exists|j: int| k < j < insts.len() && !blank(insts[j].host) && insts[j].name == insts[k].name
}

/// The clients of the first `n` instances, in order: one for each instance
/// with a host (an instance with a blank host is skipped), serving unless a
/// later instance of the same name replaces it.
pub open spec fn plans_upto(insts: Seq<InstanceView>, n: int, default_no_verify: bool) -> Seq<PlanView>
    decreases n,
{
    if n <= 0 {
        Seq::empty()
    } else {
        let earlier = plans_upto(insts, n - 1, default_no_verify);
        if blank(insts[n - 1].host) {
            earlier
        } else {
            earlier.push(plan_of(insts[n - 1], default_no_verify, !replaced_later(insts, n - 1)))
        }
    }
}

/// The clients of all the instances (see `plans_upto`).
pub open spec fn client_plans(insts: Seq<InstanceView>, default_no_verify: bool) -> Seq<PlanView> {
    plans_upto(insts, insts.len() as int, default_no_verify)
}

/// The views of plans.
pub open spec fn plan_views(v: Seq<ClientPlan>) -> Seq<PlanView> {
    v.map_values(|p: ClientPlan| p@)
}

fn plan_for(inst: &QBitInstance, default_no_verify: bool, serves: bool) -> (r: ClientPlan)
    ensures
        r@ == plan_of(inst@, default_no_verify, serves),
{
    let url = base_url(inst.host.as_str(), inst.port);
    let insecure = match inst.no_verify_ssl {
        Some(b) => b,
        None => default_no_verify,
    } && starts_with(url.as_str(), "https://");
    let client = match (&inst.username, &inst.password) {
        (Some(u), Some(p)) => QBitClient::new(url.as_str(), u.as_str(), p.as_str(), insecure),
        _ => QBitClient::new_no_auth(url.as_str(), insecure),
    };
    ClientPlan { name: inst.name.clone(), client, login: inst.username.is_some(), serves }
}

fn is_replaced_later(instances: &Vec<QBitInstance>, k: usize) -> (r: bool)
    requires
        k < instances.len(),
    ensures
        r == replaced_later(instance_views(instances@), k as int),
{
    let ghost insts = instance_views(instances@);
    let mut j: usize = k + 1;
    while j < instances.len()
        invariant
            k < j <= instances.len(),
            insts == instance_views(instances@),
            forall|m: int| k < m < j ==> !(!blank(#[trigger] insts[m].host) && insts[m].name == insts[k as int].name),
        decreases instances.len() - j,
    {
        if !is_blank(instances[j].host.as_str()) && same(instances[j].name.as_str(), instances[k].name.as_str()) {
            assert(insts[j as int].name == insts[k as int].name);
            return true;
        }
        j = j + 1;
    }
    false
}

/// The clients to set up (see `client_plans`), or an error when no
/// instance has a host.
pub fn plan_clients(config: &AppConfig) -> (r: Result<Vec<ClientPlan>, String>)
    ensures
        match r {
            Ok(v) => plan_views(v@) == client_plans(configured_instances(*config), config.no_verify_ssl) && v@.len() > 0,
            Err(m) => client_plans(configured_instances(*config), config.no_verify_ssl).len() == 0
                && m@ == "No qBittorrent instances configured"@,
        },
{
    let instances = config.get_instances();
    let ghost insts = instance_views(instances@);
    let ghost nv = config.no_verify_ssl;
    let mut plans: Vec<ClientPlan> = Vec::new();
    let mut i: usize = 0;
    assert(plan_views(plans@) =~= plans_upto(insts, 0, nv));
    while i < instances.len()
        invariant
            i <= instances.len(),
            insts == instance_views(instances@),
            insts == configured_instances(*config),
            nv == config.no_verify_ssl,
            plan_views(plans@) == plans_upto(insts, i as int, nv),
        decreases instances.len() - i,
    {
        let ghost before = plan_views(plans@);
        let inst = &instances[i];
        assert(insts[i as int] == inst@);
        if !is_blank(inst.host.as_str()) {
            let serves = !is_replaced_later(&instances, i);
            let plan = plan_for(inst, config.no_verify_ssl, serves);
            plans.push(plan);
            assert(plan_views(plans@) =~= before.push(plan_of(inst@, nv, serves)));
        }
        i = i + 1;
    }
    if plans.len() == 0 {
        Err(owned("No qBittorrent instances configured"))
    } else {
        Ok(plans)
    }
}

/// How the log file rotates.
#[derive(Debug, Clone, Copy, PartialEq, Eq, Structural)]
pub enum LogRotation {
    Hourly,
    Never,
    Daily,
}

/// `c` in lower case, for the letters of ASCII (the only characters whose
/// lower case is a letter of `hourly` or `never`).
pub open spec fn ascii_lower(c: char) -> char {
    if 'A' <= c <= 'Z' { ((c as u32) + 32) as char } else { c }
}

/// Whether `s` in lower case is `word`, a lower-case ASCII word.
pub open spec fn lower_is(s: Seq<char>, word: Seq<char>) -> bool {
    s.len() == word.len() && forall|i: int| 0 <= i < s.len() ==> ascii_lower(#[trigger] s[i]) == word[i]
}

/// The rotation a setting names, whatever its case: `hourly`, `never`, and
/// daily for anything else.
pub open spec fn rotation_for(setting: Seq<char>) -> LogRotation {
    if lower_is(setting, "hourly"@) {
        LogRotation::Hourly
    } else if lower_is(setting, "never"@) {
        LogRotation::Never
    } else {
        LogRotation::Daily
    }
}

pub(crate) fn lower_char(c: char) -> (r: char)
    ensures
        r == ascii_lower(c),
{
    if 'A' <= c && c <= 'Z' {
        let b = (c as u8) + 32;
        b as char
    } else {
        c
    }
}

fn lower_equals(s: &str, word: &str) -> (r: bool)
    ensures
        r == lower_is(s@, word@),
{
    let cs = chars_of(s);
    let ws = chars_of(word);
    if cs.len() != ws.len() {
        return false;
    }
    let mut i: usize = 0;
    while i < cs.len()
        invariant
            i <= cs.len(),
            cs.len() == ws.len(),
            cs@ == s@,
            ws@ == word@,
            forall|k: int| 0 <= k < i ==> ascii_lower(#[trigger] cs@[k]) == ws@[k],
        decreases cs.len() - i,
    {
        if lower_char(cs[i]) != ws[i] {
            return false;
        }
        i = i + 1;
    }
    true
}

/// The rotation a setting names (see `rotation_for`).
pub fn log_rotation(setting: &str) -> (r: LogRotation)
    ensures
        r == rotation_for(setting@),
{
    if lower_equals(setting, "hourly") {
        LogRotation::Hourly
    } else if lower_equals(setting, "never") {
        LogRotation::Never
    } else {
        LogRotation::Daily
    }
}

/// Whether the protocol is served over HTTP (server mode `http`) rather
/// than on standard input and output.
pub fn serves_http(server_mode: &str) -> (r: bool)
    ensures
        r == (server_mode@ == "http"@),
{
    same(server_mode, "http")
}

/// The address and port the HTTP transport listens on.
pub fn http_listen_address() -> (r: (String, u16))
    ensures
        r.0@ == "0.0.0.0"@,
        r.1 == 3000,
{
    (owned("0.0.0.0"), 3000)
}

} // verus!
