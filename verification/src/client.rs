//! The qBittorrent Web API client: for each operation, the HTTP request that
//! performs it and how its answer is read.
use vstd::prelude::*;
use crate::text::{owned, cat, chars_of, string_of, cat3, bool_text, bool_word, i64_text, decimal_int, ends_with, has_suffix, starts_with, has_prefix, parse_i64, parse_decimal, IntErrorKind};

verus! {

/// The HTTP method of a request.
#[derive(Debug, Clone, Copy, PartialEq, Eq, Structural)]
pub enum HttpMethod {
    Get,
    Post,
}

/// The body of a request.
#[derive(Debug)]
pub enum Body {
    Empty,
    /// `application/x-www-form-urlencoded` fields.
    Form(Vec<(String, String)>),
    /// `multipart/form-data` text fields.
    Multipart(Vec<(String, String)>),
}

/// An HTTP request to a qBittorrent instance.
#[derive(Debug)]
pub struct HttpRequest {
    pub method: HttpMethod,
    pub url: String,
    pub headers: Vec<(String, String)>,
    pub body: Body,
}

pub open spec fn pairs_view(v: Seq<(String, String)>) -> Seq<(Seq<char>, Seq<char>)> {
    v.map_values(|p: (String, String)| (p.0@, p.1@))
}

/// `Body` over character sequences.
pub enum BodyView {
    Empty,
    Form(Seq<(Seq<char>, Seq<char>)>),
    Multipart(Seq<(Seq<char>, Seq<char>)>),
}

/// `HttpRequest` over character sequences.
pub struct RequestView {
    pub method: HttpMethod,
    pub url: Seq<char>,
    pub headers: Seq<(Seq<char>, Seq<char>)>,
    pub body: BodyView,
}

impl View for HttpRequest {
    type V = RequestView;

    open spec fn view(&self) -> RequestView {
        RequestView {
            method: self.method,
            url: self.url@,
            headers: pairs_view(self.headers@),
            body: match self.body {
                Body::Empty => BodyView::Empty,
                Body::Form(p) => BodyView::Form(pairs_view(p@)),
                Body::Multipart(p) => BodyView::Multipart(pairs_view(p@)),
            },
        }
    }
}

/// A `GET` of `url`.
pub open spec fn get_of(url: Seq<char>) -> RequestView {
    RequestView { method: HttpMethod::Get, url, headers: seq![], body: BodyView::Empty }
}

/// A `POST` of `url` with no body.
pub open spec fn post_of(url: Seq<char>) -> RequestView {
    RequestView { method: HttpMethod::Post, url, headers: seq![], body: BodyView::Empty }
}

/// A `POST` of `url` with form fields.
pub open spec fn form_of(url: Seq<char>, fields: Seq<(Seq<char>, Seq<char>)>) -> RequestView {
    RequestView { method: HttpMethod::Post, url, headers: seq![], body: BodyView::Form(fields) }
}

/// A `POST` of `url` with multipart text fields.
pub open spec fn multipart_of(url: Seq<char>, fields: Seq<(Seq<char>, Seq<char>)>) -> RequestView {
    RequestView { method: HttpMethod::Post, url, headers: seq![], body: BodyView::Multipart(fields) }
}

/// The field `(key, value)` when a value is given, else nothing.
pub open spec fn opt_field(key: Seq<char>, value: Option<Seq<char>>) -> Seq<(Seq<char>, Seq<char>)> {
    match value {
        Some(v) => seq![(key, v)],
        None => seq![],
    }
}

pub open spec fn opt_str(o: Option<&str>) -> Option<Seq<char>> {
    match o {
        Some(s) => Some(s@),
        None => None,
    }
}

pub open spec fn opt_int(o: Option<i64>) -> Option<Seq<char>> {
    match o {
        Some(i) => Some(decimal_int(i as int)),
        None => None,
    }
}

/// How to perform one API operation: the request to send, the request to
/// send instead when the first is answered `404 Not Found` (the endpoint of
/// an older qBittorrent), and the texts that start the error of each.
#[derive(Debug)]
pub struct ApiCall {
    pub request: HttpRequest,
    pub fallback: Option<HttpRequest>,
    pub context: String,
    pub fallback_context: String,
}

/// The status line of an HTTP answer: its code and its text as printed
/// (such as `500 Internal Server Error`).
#[derive(Debug)]
pub struct HttpStatus {
    pub code: u16,
    pub text: String,
}

/// Whether a status code reports success (2xx).
pub open spec fn is_success(code: u16) -> bool {
    200 <= code <= 299
}

/// What to do once an answer came.
#[derive(Debug)]
pub enum CallStep {
    /// Send this request next.
    Send(HttpRequest),
    /// The operation succeeded; its result is in the body of the last answer.
    Succeeded,
    /// The operation failed with this message.
    Failed(String),
}

/// The message of a failed operation.
pub open spec fn failure_text(context: Seq<char>, status: Seq<char>) -> Seq<char> {
    context + ": "@ + status
}

/// The client of one qBittorrent instance.
#[derive(Debug, Clone)]
pub struct QBitClient {
    pub base_url: String,
    pub username: Option<String>,
    pub password: Option<String>,
    pub no_verify_ssl: bool,
}

fn field(key: &str, value: &str) -> (r: (String, String))
    ensures
        r.0@ == key@,
        r.1@ == value@,
{
    (owned(key), owned(value))
}

fn field_owned(key: &str, value: String) -> (r: (String, String))
    ensures
        r.0@ == key@,
        r.1@ == value@,
{
    (owned(key), value)
}

fn one(key: &str, value: &str) -> (r: Vec<(String, String)>)
    ensures
        pairs_view(r@) == seq![(key@, value@)],
{
    let mut v: Vec<(String, String)> = Vec::new();
    v.push(field(key, value));
    assert(pairs_view(v@) =~= seq![(key@, value@)]);
    v
}

fn two(k1: &str, v1: &str, k2: &str, v2: &str) -> (r: Vec<(String, String)>)
    ensures
        pairs_view(r@) == seq![(k1@, v1@), (k2@, v2@)],
{
    let mut v: Vec<(String, String)> = Vec::new();
    v.push(field(k1, v1));
    v.push(field(k2, v2));
    assert(pairs_view(v@) =~= seq![(k1@, v1@), (k2@, v2@)]);
    v
}

fn three(k1: &str, v1: &str, k2: &str, v2: &str, k3: &str, v3: &str) -> (r: Vec<(String, String)>)
    ensures
        pairs_view(r@) == seq![(k1@, v1@), (k2@, v2@), (k3@, v3@)],
{
    let mut v: Vec<(String, String)> = Vec::new();
    v.push(field(k1, v1));
    v.push(field(k2, v2));
    v.push(field(k3, v3));
    assert(pairs_view(v@) =~= seq![(k1@, v1@), (k2@, v2@), (k3@, v3@)]);
    v
}

fn push_field(v: &mut Vec<(String, String)>, key: &str, value: Option<&str>)
    ensures
        pairs_view(final(v)@) == pairs_view(old(v)@) + opt_field(key@, opt_str(value)),
{
    match value {
        Some(x) => {
            v.push(field(key, x));
            assert(pairs_view(v@) =~= pairs_view(old(v)@) + opt_field(key@, opt_str(value)));
        },
        None => {
            assert(pairs_view(v@) =~= pairs_view(old(v)@) + opt_field(key@, opt_str(value)));
        },
    }
}

fn push_int_field(v: &mut Vec<(String, String)>, key: &str, value: Option<i64>)
    ensures
        pairs_view(final(v)@) == pairs_view(old(v)@) + opt_field(key@, opt_int(value)),
{
    match value {
        Some(x) => {
            v.push(field_owned(key, i64_text(x)));
            assert(pairs_view(v@) =~= pairs_view(old(v)@) + opt_field(key@, opt_int(value)));
        },
        None => {
            assert(pairs_view(v@) =~= pairs_view(old(v)@) + opt_field(key@, opt_int(value)));
        },
    }
}

/// The next step after an answer with `status` to attempt `attempt` (0 for
/// the request, 1 for the fallback): success ends the call; a `404` to the
/// request moves to the fallback when there is one; any other answer fails
/// with the context of the attempt and the status text.
pub fn next_step(call: ApiCall, attempt: usize, status: &HttpStatus) -> (r: CallStep)
    ensures
        match r {
            CallStep::Succeeded => is_success(status.code),
            CallStep::Send(q) => !is_success(status.code) && attempt == 0 && status.code == 404
                && (call.fallback matches Some(f) && q@ == f@),
            CallStep::Failed(m) => !is_success(status.code)
                && !(attempt == 0 && status.code == 404 && call.fallback is Some)
                && m@ == (if attempt == 0 { failure_text(call.context@, status.text@) } else { failure_text(call.fallback_context@, status.text@) }),
        },
{
    if 200 <= status.code && status.code <= 299 {
        return CallStep::Succeeded;
    }
    if attempt == 0 {
        if status.code == 404 {
            match call.fallback {
                Some(f) => {
                    return CallStep::Send(f);
                },
                None => {},
            }
        }
        CallStep::Failed(cat3(call.context.as_str(), ": ", status.text.as_str()))
    } else {
        CallStep::Failed(cat3(call.fallback_context.as_str(), ": ", status.text.as_str()))
    }
}

/// The text `std` prints for a failed integer parse.
pub open spec fn int_error_text(e: IntErrorKind) -> Seq<char> {
    match e {
        IntErrorKind::Empty => "cannot parse integer from empty string"@,
        IntErrorKind::InvalidDigit => "invalid digit found in string"@,
        IntErrorKind::PosOverflow => "number too large to fit in target type"@,
        IntErrorKind::NegOverflow => "number too small to fit in target type"@,
    }
}

/// The text `std` prints for a failed integer parse.
pub fn int_error_message(e: IntErrorKind) -> (r: String)
    ensures
        r@ == int_error_text(e),
{
    match e {
        IntErrorKind::Empty => owned("cannot parse integer from empty string"),
        IntErrorKind::InvalidDigit => owned("invalid digit found in string"),
        IntErrorKind::PosOverflow => owned("number too large to fit in target type"),
        IntErrorKind::NegOverflow => owned("number too small to fit in target type"),
    }
}

/// The alternative speed limits mode from the body of its answer: the
/// body read as an `i64`.
pub fn speed_limits_mode(body: &str) -> (r: Result<i64, String>)
    ensures
        match r {
            Ok(v) => parse_decimal(body@, i64::MIN as int, i64::MAX as int) == Ok::<int, IntErrorKind>(v as int),
            Err(m) => parse_decimal(body@, i64::MIN as int, i64::MAX as int) matches Err(e) && m@ == int_error_text(e),
        },
{
    match parse_i64(body) {
        Ok(v) => Ok(v),
        Err(e) => Err(int_error_message(e)),
    }
}

/// Whether `c` sends `req` alone and fails with `context`.
pub open spec fn plain_call(c: ApiCall, req: RequestView, context: Seq<char>) -> bool {
    &&& c.request@ == req
    &&& c.fallback is None
    &&& c.context@ == context
    &&& c.fallback_context@ == context
}

/// Whether `c` sends `req`, then `fallback` when `req` is answered `404`.
pub open spec fn fallback_call(c: ApiCall, req: RequestView, fallback: RequestView, context: Seq<char>, fallback_context: Seq<char>) -> bool {
    &&& c.request@ == req
    &&& c.fallback matches Some(f) && f@ == fallback
    &&& c.context@ == context
    &&& c.fallback_context@ == fallback_context
}

fn get_request(url: String) -> (r: HttpRequest)
    ensures
        r@ == get_of(url@),
{
    let h: Vec<(String, String)> = Vec::new();
    assert(pairs_view(h@) =~= seq![]);
    HttpRequest { method: HttpMethod::Get, url, headers: h, body: Body::Empty }
}

fn post_request(url: String) -> (r: HttpRequest)
    ensures
        r@ == post_of(url@),
{
    let h: Vec<(String, String)> = Vec::new();
    assert(pairs_view(h@) =~= seq![]);
    HttpRequest { method: HttpMethod::Post, url, headers: h, body: Body::Empty }
}

fn form_request(url: String, fields: Vec<(String, String)>) -> (r: HttpRequest)
    ensures
        r@ == form_of(url@, pairs_view(fields@)),
{
    let h: Vec<(String, String)> = Vec::new();
    assert(pairs_view(h@) =~= seq![]);
    HttpRequest { method: HttpMethod::Post, url, headers: h, body: Body::Form(fields) }
}

/// The text of a URL with form-encoded query pairs appended, or the
/// message of the parse error (named result of `url::Url::parse` followed
/// by `query_pairs_mut().extend_pairs(..)`).
pub uninterp spec fn query_url(address: Seq<char>, pairs: Seq<(Seq<char>, Seq<char>)>) -> Result<Seq<char>, Seq<char>>;

/// Parses `address` with `url::Url::parse` and appends the pairs with
/// `query_pairs_mut().extend_pairs`; the contract names the result (or the
/// text of the parse error) `query_url` of the arguments.
#[verifier::external_body]
fn url_with_query(address: &str, pairs: &Vec<(String, String)>) -> (r: Result<String, String>)
    ensures
        match r {
            Ok(u) => query_url(address@, pairs_view(pairs@)) == Ok::<Seq<char>, Seq<char>>(u@),
            Err(m) => query_url(address@, pairs_view(pairs@)) == Err::<Seq<char>, Seq<char>>(m@),
        },
{
    let mut url = url::Url::parse(address).map_err(|e| e.to_string())?;
    url.query_pairs_mut().extend_pairs(pairs.iter());
    Ok(url.to_string())
}

/// The user agent sent with the login request.
pub open spec fn login_agent() -> Seq<char> {
    "Mozilla/5.0 (X11; Linux x86_64) AppleWebKit/537.36 (KHTML, like Gecko) Chrome/132.0.0.0 Safari/537.36"@
}

/// `base` without a `/` at its end (one removed when present): the part
/// that API paths are appended to.
pub open spec fn api_base(base: Seq<char>) -> Seq<char> {
    if base.len() > 0 && base.last() == '/' { base.drop_last() } else { base }
}

/// `base` with a `/` at its end (added when missing).
pub open spec fn with_slash(base: Seq<char>) -> Seq<char> {
    if has_suffix(base, "/"@) { base } else { base + "/"@ }
}

pub open spec fn opt_or_empty(o: Option<String>) -> Seq<char> {
    match o {
        Some(s) => s@,
        None => Seq::<char>::empty(),
    }
}

/// The query pairs of a torrent list request, in this order, each only
/// when given.
pub open spec fn list_query(filter: Option<&str>, category: Option<&str>, tag: Option<&str>, sort: Option<&str>, reverse: Option<bool>, limit: Option<i64>, offset: Option<i64>) -> Seq<(Seq<char>, Seq<char>)> {
    opt_field("filter"@, opt_str(filter))
        + opt_field("category"@, opt_str(category))
        + opt_field("tag"@, opt_str(tag))
        + opt_field("sort"@, opt_str(sort))
        + opt_field("reverse"@, match reverse { Some(b) => Some(bool_word(b)), None => None })
        + opt_field("limit"@, opt_int(limit))
        + opt_field("offset"@, opt_int(offset))
}

fn text_of(o: &Option<String>) -> (r: String)
    ensures
        r@ == opt_or_empty(*o),
{
    match o {
        Some(s) => s.clone(),
        None => String::new(),
    }
}

/// The category of a search: the given one, else `all`.
pub open spec fn category_or_all(category: Option<&str>) -> Seq<char> {
    match category {
        Some(c) => c@,
        None => "all"@,
    }
}

/// A time limit: the given one, else `-2` (the global limit).
pub open spec fn limit_or_global(limit: Option<i64>) -> Seq<char> {
    match limit {
        Some(l) => decimal_int(l as int),
        None => "-2"@,
    }
}

impl QBitClient {
    /// A client that logs in with a user name and password.
    pub fn new(base_url: &str, username: &str, password: &str, no_verify_ssl: bool) -> (r: QBitClient)
        ensures
            r.base_url@ == base_url@,
            crate::cli::opt_view(r.username) == Some(username@),
            crate::cli::opt_view(r.password) == Some(password@),
            r.no_verify_ssl == no_verify_ssl,
    {
        QBitClient {
            base_url: owned(base_url),
            username: Some(owned(username)),
            password: Some(owned(password)),
            no_verify_ssl,
        }
    }

    /// A client without credentials.
    pub fn new_no_auth(base_url: &str, no_verify_ssl: bool) -> (r: QBitClient)
        ensures
            r.base_url@ == base_url@,
            r.username is None,
            r.password is None,
            r.no_verify_ssl == no_verify_ssl,
    {
        QBitClient { base_url: owned(base_url), username: None, password: None, no_verify_ssl }
    }

    fn url(&self, path: &str) -> (r: String)
        ensures
            r@ == api_base(self.base_url@) + path@,
    {
        let mut cs = chars_of(self.base_url.as_str());
        let n = cs.len();
        if n > 0 && cs[n - 1] == '/' {
            cs.pop();
            assert(cs@ =~= self.base_url@.drop_last());
        }
        let base = string_of(&cs);
        cat(base.as_str(), path)
    }

    fn call(&self, request: HttpRequest, context: &str) -> (r: ApiCall)
        ensures
            r.request == request,
            r.fallback is None,
            r.context@ == context@,
            r.fallback_context@ == context@,
    {
        ApiCall { request, fallback: None, context: owned(context), fallback_context: owned(context) }
    }

    /// Logs in at the login path of the base URL (a `/` ending the base URL
    /// is not doubled): the user name and password (empty when not set) as a form,
    /// with `Referer` the base URL ending in `/`, `Origin` the base URL and
    /// a browser user agent. Any successful answer means success.
    pub fn login(&self) -> (r: ApiCall)
        ensures
            r.request@ == (RequestView {
                method: HttpMethod::Post,
                url: api_base(self.base_url@) + "/api/v2/auth/login"@,
                headers: seq![("Referer"@, with_slash(self.base_url@)), ("Origin"@, self.base_url@), ("User-Agent"@, login_agent())],
                body: BodyView::Form(seq![("username"@, opt_or_empty(self.username)), ("password"@, opt_or_empty(self.password))]),
            }),
            r.fallback is None,
            r.context@ == "Login failed with status"@,
            r.fallback_context@ == "Login failed with status"@,
    {
        let referer = if ends_with(self.base_url.as_str(), "/") {
            self.base_url.clone()
        } else {
            cat(self.base_url.as_str(), "/")
        };
        let mut headers: Vec<(String, String)> = Vec::new();
        headers.push(field_owned("Referer", referer));
        headers.push(field_owned("Origin", self.base_url.clone()));
        headers.push(field("User-Agent", "Mozilla/5.0 (X11; Linux x86_64) AppleWebKit/537.36 (KHTML, like Gecko) Chrome/132.0.0.0 Safari/537.36"));
        let mut form: Vec<(String, String)> = Vec::new();
        form.push(field_owned("username", text_of(&self.username)));
        form.push(field_owned("password", text_of(&self.password)));
        assert(pairs_view(headers@) =~= seq![("Referer"@, with_slash(self.base_url@)), ("Origin"@, self.base_url@), ("User-Agent"@, login_agent())]);
        assert(pairs_view(form@) =~= seq![("username"@, opt_or_empty(self.username)), ("password"@, opt_or_empty(self.password))]);
        let request = HttpRequest {
            method: HttpMethod::Post,
            url: self.url("/api/v2/auth/login"),
            headers,
            body: Body::Form(form),
        };
        self.call(request, "Login failed with status")
    }

    /// Lists torrents: the given filters, sort order and paging as query
    /// pairs of the torrent list URL. Fails with the parse error's text when
    /// the base URL is not a valid URL.
    pub fn get_torrent_list(
        &self,
        filter: Option<&str>,
        category: Option<&str>,
        tag: Option<&str>,
        sort: Option<&str>,
        reverse: Option<bool>,
        limit: Option<i64>,
        offset: Option<i64>,
    ) -> (r: Result<ApiCall, String>)
        ensures
            match query_url(api_base(self.base_url@) + "/api/v2/torrents/info"@, list_query(filter, category, tag, sort, reverse, limit, offset)) {
                Ok(u) => r matches Ok(c) && plain_call(c, get_of(u), "Failed to get torrent list"@),
                Err(m) => r matches Err(e) && e@ == m,
            },
    {
        let mut q: Vec<(String, String)> = Vec::new();
        assert(pairs_view(q@) =~= seq![]);
        push_field(&mut q, "filter", filter);
        push_field(&mut q, "category", category);
        push_field(&mut q, "tag", tag);
        push_field(&mut q, "sort", sort);
        match reverse {
            Some(b) => {
                let ghost before = pairs_view(q@);
                q.push(field_owned("reverse", bool_text(b)));
                assert(pairs_view(q@) =~= before + seq![("reverse"@, bool_word(b))]);
            },
            None => {},
        }
        push_int_field(&mut q, "limit", limit);
        push_int_field(&mut q, "offset", offset);
        assert(pairs_view(q@) =~= list_query(filter, category, tag, sort, reverse, limit, offset));
        let address = self.url("/api/v2/torrents/info");
        match url_with_query(address.as_str(), &q) {
            Ok(u) => Ok(self.call(get_request(u), "Failed to get torrent list")),
            Err(m) => Err(m),
        }
    }

    /// Adds torrents from magnet URIs or URLs, with an optional save path
    /// and category, as multipart text fields.
    pub fn add_torrent(&self, urls: &str, save_path: Option<&str>, category: Option<&str>) -> (r: ApiCall)
        ensures
            plain_call(r, multipart_of(api_base(self.base_url@) + "/api/v2/torrents/add"@,
                seq![("urls"@, urls@)] + opt_field("savepath"@, opt_str(save_path)) + opt_field("category"@, opt_str(category))),
                "Failed to add torrent"@),
    {
        let mut f: Vec<(String, String)> = Vec::new();
        f.push(field("urls", urls));
        assert(pairs_view(f@) =~= seq![("urls"@, urls@)]);
        push_field(&mut f, "savepath", save_path);
        push_field(&mut f, "category", category);
        let h: Vec<(String, String)> = Vec::new();
        assert(pairs_view(h@) =~= seq![]);
        let request = HttpRequest { method: HttpMethod::Post, url: self.url("/api/v2/torrents/add"), headers: h, body: Body::Multipart(f) };
        self.call(request, "Failed to add torrent")
    }

    /// Pauses torrents with the `stop` endpoint, or the older `pause`
    /// endpoint when `stop` is not found.
    pub fn pause_torrents(&self, hashes: &str) -> (r: ApiCall)
        ensures
            fallback_call(r,
                form_of(api_base(self.base_url@) + "/api/v2/torrents/stop"@, seq![("hashes"@, hashes@)]),
                form_of(api_base(self.base_url@) + "/api/v2/torrents/pause"@, seq![("hashes"@, hashes@)]),
                "Failed to stop/pause torrents"@, "Failed to pause torrents"@),
    {
        let first = form_request(self.url("/api/v2/torrents/stop"), one("hashes", hashes));
        let second = form_request(self.url("/api/v2/torrents/pause"), one("hashes", hashes));
        ApiCall { request: first, fallback: Some(second), context: owned("Failed to stop/pause torrents"), fallback_context: owned("Failed to pause torrents") }
    }

    /// Resumes torrents with the `start` endpoint, or the older `resume`
    /// endpoint when `start` is not found.
    pub fn resume_torrents(&self, hashes: &str) -> (r: ApiCall)
        ensures
            fallback_call(r,
                form_of(api_base(self.base_url@) + "/api/v2/torrents/start"@, seq![("hashes"@, hashes@)]),
                form_of(api_base(self.base_url@) + "/api/v2/torrents/resume"@, seq![("hashes"@, hashes@)]),
                "Failed to start/resume torrents"@, "Failed to resume torrents"@),
    {
        let first = form_request(self.url("/api/v2/torrents/start"), one("hashes", hashes));
        let second = form_request(self.url("/api/v2/torrents/resume"), one("hashes", hashes));
        ApiCall { request: first, fallback: Some(second), context: owned("Failed to start/resume torrents"), fallback_context: owned("Failed to resume torrents") }
    }

    /// Starts a search of `pattern` with all plugins, in `category` or in
    /// all categories. The answer holds the id of the search job.
    pub fn start_search(&self, pattern: &str, category: Option<&str>) -> (r: ApiCall)
        ensures
            plain_call(r, form_of(api_base(self.base_url@) + "/api/v2/search/start"@,
                seq![("pattern"@, pattern@), ("plugins"@, "all"@), ("category"@, category_or_all(category))]),
                "Failed to start search"@),
    {
        let cat_value = match category { Some(c) => c, None => "all" };
        assert(cat_value@ == category_or_all(category));
        let f = three("pattern", pattern, "plugins", "all", "category", cat_value);
        let u = self.url("/api/v2/search/start");
        let req = form_request(u, f);
        self.call(req, "Failed to start search")
    }

    /// The results of a search job, with optional limit and offset.
    pub fn get_search_results(&self, id: i64, limit: Option<i64>, offset: Option<i64>) -> (r: ApiCall)
        ensures
            plain_call(r, form_of(api_base(self.base_url@) + "/api/v2/search/results"@,
                seq![("id"@, decimal_int(id as int))] + opt_field("limit"@, opt_int(limit)) + opt_field("offset"@, opt_int(offset))),
                "Failed to get search results"@),
    {
        let mut f: Vec<(String, String)> = Vec::new();
        f.push(field_owned("id", i64_text(id)));
        assert(pairs_view(f@) =~= seq![("id"@, decimal_int(id as int))]);
        push_int_field(&mut f, "limit", limit);
        push_int_field(&mut f, "offset", offset);
        self.call(form_request(self.url("/api/v2/search/results"), f), "Failed to get search results")
    }

    /// All RSS feeds with their items, or the older `allFeeds` endpoint when
    /// `items` is not found.
    pub fn get_all_rss_feeds(&self) -> (r: ApiCall)
        ensures
            fallback_call(r,
                get_of(api_base(self.base_url@) + "/api/v2/rss/items?withData=true"@),
                get_of(api_base(self.base_url@) + "/api/v2/rss/allFeeds"@),
                "Failed to get RSS feeds"@, "Failed to get RSS feeds"@),
    {
        let first = get_request(self.url("/api/v2/rss/items?withData=true"));
        let second = get_request(self.url("/api/v2/rss/allFeeds"));
        ApiCall { request: first, fallback: Some(second), context: owned("Failed to get RSS feeds"), fallback_context: owned("Failed to get RSS feeds") }
    }

    /// All RSS auto-download rules, or the older `allRules` endpoint when
    /// `rules` is not found.
    pub fn get_all_rss_rules(&self) -> (r: ApiCall)
        ensures
            fallback_call(r,
                get_of(api_base(self.base_url@) + "/api/v2/rss/rules"@),
                get_of(api_base(self.base_url@) + "/api/v2/rss/allRules"@),
                "Failed to get RSS rules"@, "Failed to get RSS rules"@),
    {
        let first = get_request(self.url("/api/v2/rss/rules"));
        let second = get_request(self.url("/api/v2/rss/allRules"));
        ApiCall { request: first, fallback: Some(second), context: owned("Failed to get RSS rules"), fallback_context: owned("Failed to get RSS rules") }
    }

    /// The main log, with the severities asked for, after entry `last_id`
    /// when given.
    pub fn get_main_log(&self, normal: bool, info: bool, warning: bool, critical: bool, last_id: Option<i64>) -> (r: ApiCall)
        ensures
            plain_call(r, get_of(api_base(self.base_url@) + "/api/v2/log/main?normal="@ + bool_word(normal)
                + "&info="@ + bool_word(info) + "&warning="@ + bool_word(warning)
                + "&critical="@ + bool_word(critical)
                + match last_id { Some(id) => "&last_id="@ + decimal_int(id as int), None => Seq::<char>::empty() }),
                "Failed to get main log"@),
    {
        let mut u = self.url("/api/v2/log/main?normal=");
        u.append(bool_text(normal).as_str());
        u.append("&info=");
        u.append(bool_text(info).as_str());
        u.append("&warning=");
        u.append(bool_text(warning).as_str());
        u.append("&critical=");
        u.append(bool_text(critical).as_str());
        let ghost prefix = u@;
        match last_id {
            Some(id) => {
                u.append("&last_id=");
                u.append(i64_text(id).as_str());
                assert(u@ =~= prefix + ("&last_id="@ + decimal_int(id as int)));
            },
            None => {
                assert(u@ =~= prefix + Seq::<char>::empty());
            },
        }
        assert(prefix =~= api_base(self.base_url@) + "/api/v2/log/main?normal="@ + bool_word(normal)
                + "&info="@ + bool_word(info) + "&warning="@ + bool_word(warning)
                + "&critical="@ + bool_word(critical));
        self.call(get_request(u), "Failed to get main log")
    }

    /// The peer log, after entry `last_id` when given.
    pub fn get_peer_log(&self, last_id: Option<i64>) -> (r: ApiCall)
        ensures
            plain_call(r, get_of(api_base(self.base_url@) + "/api/v2/log/peers"@
                + match last_id { Some(id) => "?last_id="@ + decimal_int(id as int), None => Seq::<char>::empty() }),
                "Failed to get peer log"@),
    {
        let mut u = self.url("/api/v2/log/peers");
        let ghost prefix = u@;
        match last_id {
            Some(id) => {
                u.append("?last_id=");
                u.append(i64_text(id).as_str());
                assert(u@ =~= prefix + ("?last_id="@ + decimal_int(id as int)));
            },
            None => {
                assert(u@ =~= prefix + Seq::<char>::empty());
            },
        }
        self.call(get_request(u), "Failed to get peer log")
    }

    /// Sets share limits of torrents; `ratio_limit` is the text of the ratio
    /// (a floating-point value, written by the caller), and the inactive
    /// seeding time limit is `-2` (the global limit) when not given.
    pub fn set_torrent_share_limits(&self, hashes: &str, ratio_limit: &str, seeding_time_limit: i64, inactive_seeding_time_limit: Option<i64>) -> (r: ApiCall)
        ensures
            plain_call(r, form_of(api_base(self.base_url@) + "/api/v2/torrents/setShareLimits"@,
                seq![("hashes"@, hashes@), ("ratioLimit"@, ratio_limit@), ("seedingTimeLimit"@, decimal_int(seeding_time_limit as int)),
                    ("inactiveSeedingTimeLimit"@, limit_or_global(inactive_seeding_time_limit))]),
                "Failed to set torrent share limits"@),
    {
        let mut f: Vec<(String, String)> = Vec::new();
        f.push(field("hashes", hashes));
        f.push(field("ratioLimit", ratio_limit));
        f.push(field_owned("seedingTimeLimit", i64_text(seeding_time_limit)));
        let inactive = match inactive_seeding_time_limit {
            Some(l) => i64_text(l),
            None => owned("-2"),
        };
        let ghost iv = inactive@;
        assert(iv == limit_or_global(inactive_seeding_time_limit)) by { reveal_strlit("-2"); }
        f.push(field_owned("inactiveSeedingTimeLimit", inactive));
        assert(pairs_view(f@) =~= seq![("hashes"@, hashes@), ("ratioLimit"@, ratio_limit@), ("seedingTimeLimit"@, decimal_int(seeding_time_limit as int)),
            ("inactiveSeedingTimeLimit"@, iv)]);
        self.call(form_request(self.url("/api/v2/torrents/setShareLimits"), f), "Failed to set torrent share limits")
    }

    /// Torrents whose hashes are listed (pipe-separated).
    pub fn get_torrents_info(&self, hashes: &str) -> (r: ApiCall)
        ensures
            plain_call(r, get_of(api_base(self.base_url@) + "/api/v2/torrents/info?hashes="@ + hashes@), "Failed to get torrents info"@),
    {
        let v = owned(hashes);
        self.call(get_request(cat(self.url("/api/v2/torrents/info?hashes=").as_str(), v.as_str())), "Failed to get torrents info")
    }

    /// Deletes torrents, and their files when `delete_files` holds.
    pub fn delete_torrents(&self, hashes: &str, delete_files: bool) -> (r: ApiCall)
        ensures
            plain_call(r, form_of(api_base(self.base_url@) + "/api/v2/torrents/delete"@, seq![("hashes"@, hashes@), ("deleteFiles"@, bool_word(delete_files))]), "Failed to delete torrents"@),
    {
        let mut f: Vec<(String, String)> = Vec::new();
        f.push(field_owned("hashes", owned(hashes)));
        f.push(field_owned("deleteFiles", bool_text(delete_files)));
        assert(pairs_view(f@) =~= seq![("hashes"@, hashes@), ("deleteFiles"@, bool_word(delete_files))]);
        self.call(form_request(self.url("/api/v2/torrents/delete"), f), "Failed to delete torrents")
    }

    /// Reannounces torrents to their trackers.
    pub fn reannounce_torrents(&self, hashes: &str) -> (r: ApiCall)
        ensures
            plain_call(r, form_of(api_base(self.base_url@) + "/api/v2/torrents/reannounce"@, seq![("hashes"@, hashes@)]), "Failed to reannounce torrents"@),
    {
        let mut f: Vec<(String, String)> = Vec::new();
        f.push(field_owned("hashes", owned(hashes)));
        assert(pairs_view(f@) =~= seq![("hashes"@, hashes@)]);
        self.call(form_request(self.url("/api/v2/torrents/reannounce"), f), "Failed to reannounce torrents")
    }

    /// Rechecks the data of torrents.
    pub fn recheck_torrents(&self, hashes: &str) -> (r: ApiCall)
        ensures
            plain_call(r, form_of(api_base(self.base_url@) + "/api/v2/torrents/recheck"@, seq![("hashes"@, hashes@)]), "Failed to recheck torrents"@),
    {
        let mut f: Vec<(String, String)> = Vec::new();
        f.push(field_owned("hashes", owned(hashes)));
        assert(pairs_view(f@) =~= seq![("hashes"@, hashes@)]);
        self.call(form_request(self.url("/api/v2/torrents/recheck"), f), "Failed to recheck torrents")
    }

    /// The files of a torrent.
    pub fn get_torrent_files(&self, hash: &str) -> (r: ApiCall)
        ensures
            plain_call(r, get_of(api_base(self.base_url@) + "/api/v2/torrents/files?hash="@ + hash@), "Failed to get torrent files"@),
    {
        let v = owned(hash);
        self.call(get_request(cat(self.url("/api/v2/torrents/files?hash=").as_str(), v.as_str())), "Failed to get torrent files")
    }

    /// The properties of a torrent.
    pub fn get_torrent_properties(&self, hash: &str) -> (r: ApiCall)
        ensures
            plain_call(r, get_of(api_base(self.base_url@) + "/api/v2/torrents/properties?hash="@ + hash@), "Failed to get torrent properties"@),
    {
        let v = owned(hash);
        self.call(get_request(cat(self.url("/api/v2/torrents/properties?hash=").as_str(), v.as_str())), "Failed to get torrent properties")
    }

    /// The trackers of a torrent.
    pub fn get_torrent_trackers(&self, hash: &str) -> (r: ApiCall)
        ensures
            plain_call(r, get_of(api_base(self.base_url@) + "/api/v2/torrents/trackers?hash="@ + hash@), "Failed to get torrent trackers"@),
    {
        let v = owned(hash);
        self.call(get_request(cat(self.url("/api/v2/torrents/trackers?hash=").as_str(), v.as_str())), "Failed to get torrent trackers")
    }

    /// Global transfer speeds, totals and limits.
    pub fn get_global_transfer_info(&self) -> (r: ApiCall)
        ensures
            plain_call(r, get_of(api_base(self.base_url@) + "/api/v2/transfer/info"@), "Failed to get global transfer info"@),
    {
        self.call(get_request(self.url("/api/v2/transfer/info")), "Failed to get global transfer info")
    }

    /// Sets the global download limit (bytes per second).
    pub fn set_download_limit(&self, limit: i64) -> (r: ApiCall)
        ensures
            plain_call(r, form_of(api_base(self.base_url@) + "/api/v2/transfer/setDownloadLimit"@, seq![("limit"@, decimal_int(limit as int))]), "Failed to set download limit"@),
    {
        let mut f: Vec<(String, String)> = Vec::new();
        f.push(field_owned("limit", i64_text(limit)));
        assert(pairs_view(f@) =~= seq![("limit"@, decimal_int(limit as int))]);
        self.call(form_request(self.url("/api/v2/transfer/setDownloadLimit"), f), "Failed to set download limit")
    }

    /// Sets the global upload limit (bytes per second).
    pub fn set_upload_limit(&self, limit: i64) -> (r: ApiCall)
        ensures
            plain_call(r, form_of(api_base(self.base_url@) + "/api/v2/transfer/setUploadLimit"@, seq![("limit"@, decimal_int(limit as int))]), "Failed to set upload limit"@),
    {
        let mut f: Vec<(String, String)> = Vec::new();
        f.push(field_owned("limit", i64_text(limit)));
        assert(pairs_view(f@) =~= seq![("limit"@, decimal_int(limit as int))]);
        self.call(form_request(self.url("/api/v2/transfer/setUploadLimit"), f), "Failed to set upload limit")
    }

    /// Switches the alternative speed limits on or off.
    pub fn toggle_alternative_speed_limits(&self) -> (r: ApiCall)
        ensures
            plain_call(r, post_of(api_base(self.base_url@) + "/api/v2/transfer/toggleSpeedLimitsMode"@), "Failed to toggle alternative speed limits"@),
    {
        self.call(post_request(self.url("/api/v2/transfer/toggleSpeedLimitsMode")), "Failed to toggle alternative speed limits")
    }

    /// The alternative speed limits mode (read with `speed_limits_mode`).
    pub fn get_speed_limits_mode(&self) -> (r: ApiCall)
        ensures
            plain_call(r, get_of(api_base(self.base_url@) + "/api/v2/transfer/speedLimitsMode"@), "Failed to get speed limits mode"@),
    {
        self.call(get_request(self.url("/api/v2/transfer/speedLimitsMode")), "Failed to get speed limits mode")
    }

    /// Stops a search job.
    pub fn stop_search(&self, id: i64) -> (r: ApiCall)
        ensures
            plain_call(r, form_of(api_base(self.base_url@) + "/api/v2/search/stop"@, seq![("id"@, decimal_int(id as int))]), "Failed to stop search"@),
    {
        let mut f: Vec<(String, String)> = Vec::new();
        f.push(field_owned("id", i64_text(id)));
        assert(pairs_view(f@) =~= seq![("id"@, decimal_int(id as int))]);
        self.call(form_request(self.url("/api/v2/search/stop"), f), "Failed to stop search")
    }

    /// Deletes a search job.
    pub fn delete_search(&self, id: i64) -> (r: ApiCall)
        ensures
            plain_call(r, form_of(api_base(self.base_url@) + "/api/v2/search/delete"@, seq![("id"@, decimal_int(id as int))]), "Failed to delete search"@),
    {
        let mut f: Vec<(String, String)> = Vec::new();
        f.push(field_owned("id", i64_text(id)));
        assert(pairs_view(f@) =~= seq![("id"@, decimal_int(id as int))]);
        self.call(form_request(self.url("/api/v2/search/delete"), f), "Failed to delete search")
    }

    /// All categories.
    pub fn get_categories(&self) -> (r: ApiCall)
        ensures
            plain_call(r, get_of(api_base(self.base_url@) + "/api/v2/torrents/categories"@), "Failed to get categories"@),
    {
        self.call(get_request(self.url("/api/v2/torrents/categories")), "Failed to get categories")
    }

    /// Creates a category with a save path.
    pub fn create_category(&self, name: &str, save_path: &str) -> (r: ApiCall)
        ensures
            plain_call(r, form_of(api_base(self.base_url@) + "/api/v2/torrents/createCategory"@, seq![("category"@, name@), ("savePath"@, save_path@)]), "Failed to create category"@),
    {
        let mut f: Vec<(String, String)> = Vec::new();
        f.push(field_owned("category", owned(name)));
        f.push(field_owned("savePath", owned(save_path)));
        assert(pairs_view(f@) =~= seq![("category"@, name@), ("savePath"@, save_path@)]);
        self.call(form_request(self.url("/api/v2/torrents/createCategory"), f), "Failed to create category")
    }

    /// Puts torrents in a category.
    pub fn set_category(&self, hashes: &str, category: &str) -> (r: ApiCall)
        ensures
            plain_call(r, form_of(api_base(self.base_url@) + "/api/v2/torrents/setCategory"@, seq![("hashes"@, hashes@), ("category"@, category@)]), "Failed to set category"@),
    {
        let mut f: Vec<(String, String)> = Vec::new();
        f.push(field_owned("hashes", owned(hashes)));
        f.push(field_owned("category", owned(category)));
        assert(pairs_view(f@) =~= seq![("hashes"@, hashes@), ("category"@, category@)]);
        self.call(form_request(self.url("/api/v2/torrents/setCategory"), f), "Failed to set category")
    }

    /// Adds tags to torrents.
    pub fn add_tags(&self, hashes: &str, tags: &str) -> (r: ApiCall)
        ensures
            plain_call(r, form_of(api_base(self.base_url@) + "/api/v2/torrents/addTags"@, seq![("hashes"@, hashes@), ("tags"@, tags@)]), "Failed to add tags"@),
    {
        let mut f: Vec<(String, String)> = Vec::new();
        f.push(field_owned("hashes", owned(hashes)));
        f.push(field_owned("tags", owned(tags)));
        assert(pairs_view(f@) =~= seq![("hashes"@, hashes@), ("tags"@, tags@)]);
        self.call(form_request(self.url("/api/v2/torrents/addTags"), f), "Failed to add tags")
    }

    /// The installed search plugins.
    pub fn get_search_plugins(&self) -> (r: ApiCall)
        ensures
            plain_call(r, get_of(api_base(self.base_url@) + "/api/v2/search/plugins"@), "Failed to get search plugins"@),
    {
        self.call(get_request(self.url("/api/v2/search/plugins")), "Failed to get search plugins")
    }

    /// Installs a search plugin from a URL.
    pub fn install_search_plugin(&self, url_source: &str) -> (r: ApiCall)
        ensures
            plain_call(r, form_of(api_base(self.base_url@) + "/api/v2/search/installPlugin"@, seq![("sources"@, url_source@)]), "Failed to install search plugin"@),
    {
        let mut f: Vec<(String, String)> = Vec::new();
        f.push(field_owned("sources", owned(url_source)));
        assert(pairs_view(f@) =~= seq![("sources"@, url_source@)]);
        self.call(form_request(self.url("/api/v2/search/installPlugin"), f), "Failed to install search plugin")
    }

    /// Uninstalls a search plugin.
    pub fn uninstall_search_plugin(&self, name: &str) -> (r: ApiCall)
        ensures
            plain_call(r, form_of(api_base(self.base_url@) + "/api/v2/search/uninstallPlugin"@, seq![("names"@, name@)]), "Failed to uninstall search plugin"@),
    {
        let mut f: Vec<(String, String)> = Vec::new();
        f.push(field_owned("names", owned(name)));
        assert(pairs_view(f@) =~= seq![("names"@, name@)]);
        self.call(form_request(self.url("/api/v2/search/uninstallPlugin"), f), "Failed to uninstall search plugin")
    }

    /// Enables or disables a search plugin.
    pub fn enable_search_plugin(&self, name: &str, enable: bool) -> (r: ApiCall)
        ensures
            plain_call(r, form_of(api_base(self.base_url@) + "/api/v2/search/enablePlugin"@, seq![("names"@, name@), ("enable"@, bool_word(enable))]), "Failed to toggle search plugin"@),
    {
        let mut f: Vec<(String, String)> = Vec::new();
        f.push(field_owned("names", owned(name)));
        f.push(field_owned("enable", bool_text(enable)));
        assert(pairs_view(f@) =~= seq![("names"@, name@), ("enable"@, bool_word(enable))]);
        self.call(form_request(self.url("/api/v2/search/enablePlugin"), f), "Failed to toggle search plugin")
    }

    /// Updates all search plugins.
    pub fn update_search_plugins(&self) -> (r: ApiCall)
        ensures
            plain_call(r, post_of(api_base(self.base_url@) + "/api/v2/search/updatePlugins"@), "Failed to update search plugins"@),
    {
        self.call(post_request(self.url("/api/v2/search/updatePlugins")), "Failed to update search plugins")
    }

    /// Adds an RSS feed.
    pub fn add_rss_feed(&self, url_feed: &str, path: &str) -> (r: ApiCall)
        ensures
            plain_call(r, form_of(api_base(self.base_url@) + "/api/v2/rss/addFeed"@, seq![("url"@, url_feed@), ("path"@, path@)]), "Failed to add RSS feed"@),
    {
        let mut f: Vec<(String, String)> = Vec::new();
        f.push(field_owned("url", owned(url_feed)));
        f.push(field_owned("path", owned(path)));
        assert(pairs_view(f@) =~= seq![("url"@, url_feed@), ("path"@, path@)]);
        self.call(form_request(self.url("/api/v2/rss/addFeed"), f), "Failed to add RSS feed")
    }

    /// Removes an RSS item.
    pub fn remove_rss_item(&self, path: &str) -> (r: ApiCall)
        ensures
            plain_call(r, form_of(api_base(self.base_url@) + "/api/v2/rss/removeItem"@, seq![("path"@, path@)]), "Failed to remove RSS item"@),
    {
        let mut f: Vec<(String, String)> = Vec::new();
        f.push(field_owned("path", owned(path)));
        assert(pairs_view(f@) =~= seq![("path"@, path@)]);
        self.call(form_request(self.url("/api/v2/rss/removeItem"), f), "Failed to remove RSS item")
    }

    /// Creates or updates an RSS auto-download rule.
    pub fn set_rss_rule(&self, name: &str, definition: &str) -> (r: ApiCall)
        ensures
            plain_call(r, form_of(api_base(self.base_url@) + "/api/v2/rss/setRule"@, seq![("ruleName"@, name@), ("ruleDef"@, definition@)]), "Failed to set RSS rule"@),
    {
        let mut f: Vec<(String, String)> = Vec::new();
        f.push(field_owned("ruleName", owned(name)));
        f.push(field_owned("ruleDef", owned(definition)));
        assert(pairs_view(f@) =~= seq![("ruleName"@, name@), ("ruleDef"@, definition@)]);
        self.call(form_request(self.url("/api/v2/rss/setRule"), f), "Failed to set RSS rule")
    }

    /// The application preferences.
    pub fn get_app_preferences(&self) -> (r: ApiCall)
        ensures
            plain_call(r, get_of(api_base(self.base_url@) + "/api/v2/app/preferences"@), "Failed to get app preferences"@),
    {
        self.call(get_request(self.url("/api/v2/app/preferences")), "Failed to get app preferences")
    }

    /// Updates application preferences, given as compact JSON text.
    pub fn set_app_preferences(&self, prefs_json: &str) -> (r: ApiCall)
        ensures
            plain_call(r, form_of(api_base(self.base_url@) + "/api/v2/app/setPreferences"@, seq![("json"@, prefs_json@)]), "Failed to set app preferences"@),
    {
        let mut f: Vec<(String, String)> = Vec::new();
        f.push(field_owned("json", owned(prefs_json)));
        assert(pairs_view(f@) =~= seq![("json"@, prefs_json@)]);
        self.call(form_request(self.url("/api/v2/app/setPreferences"), f), "Failed to set app preferences")
    }

    /// The application version (the body of the answer).
    pub fn get_app_version(&self) -> (r: ApiCall)
        ensures
            plain_call(r, get_of(api_base(self.base_url@) + "/api/v2/app/version"@), "Failed to get app version"@),
    {
        self.call(get_request(self.url("/api/v2/app/version")), "Failed to get app version")
    }

    /// The build information.
    pub fn get_build_info(&self) -> (r: ApiCall)
        ensures
            plain_call(r, get_of(api_base(self.base_url@) + "/api/v2/app/buildInfo"@), "Failed to get build info"@),
    {
        self.call(get_request(self.url("/api/v2/app/buildInfo")), "Failed to get build info")
    }

    /// Shuts qBittorrent down.
    pub fn shutdown_app(&self) -> (r: ApiCall)
        ensures
            plain_call(r, post_of(api_base(self.base_url@) + "/api/v2/app/shutdown"@), "Failed to shutdown app"@),
    {
        self.call(post_request(self.url("/api/v2/app/shutdown")), "Failed to shutdown app")
    }

    /// Bans peers (`host:port`, pipe-separated).
    pub fn ban_peers(&self, peers: &str) -> (r: ApiCall)
        ensures
            plain_call(r, form_of(api_base(self.base_url@) + "/api/v2/transfer/banPeers"@, seq![("peers"@, peers@)]), "Failed to ban peers"@),
    {
        let mut f: Vec<(String, String)> = Vec::new();
        f.push(field_owned("peers", owned(peers)));
        assert(pairs_view(f@) =~= seq![("peers"@, peers@)]);
        self.call(form_request(self.url("/api/v2/transfer/banPeers"), f), "Failed to ban peers")
    }

    /// Renames a file of a torrent.
    pub fn rename_file(&self, hash: &str, old_path: &str, new_path: &str) -> (r: ApiCall)
        ensures
            plain_call(r, form_of(api_base(self.base_url@) + "/api/v2/torrents/renameFile"@, seq![("hash"@, hash@), ("oldPath"@, old_path@), ("newPath"@, new_path@)]), "Failed to rename file"@),
    {
        let mut f: Vec<(String, String)> = Vec::new();
        f.push(field_owned("hash", owned(hash)));
        f.push(field_owned("oldPath", owned(old_path)));
        f.push(field_owned("newPath", owned(new_path)));
        assert(pairs_view(f@) =~= seq![("hash"@, hash@), ("oldPath"@, old_path@), ("newPath"@, new_path@)]);
        self.call(form_request(self.url("/api/v2/torrents/renameFile"), f), "Failed to rename file")
    }

    /// Sets the download limit of torrents.
    pub fn set_torrent_download_limit(&self, hashes: &str, limit: i64) -> (r: ApiCall)
        ensures
            plain_call(r, form_of(api_base(self.base_url@) + "/api/v2/torrents/setDownloadLimit"@, seq![("hashes"@, hashes@), ("limit"@, decimal_int(limit as int))]), "Failed to set torrent download limit"@),
    {
        let mut f: Vec<(String, String)> = Vec::new();
        f.push(field_owned("hashes", owned(hashes)));
        f.push(field_owned("limit", i64_text(limit)));
        assert(pairs_view(f@) =~= seq![("hashes"@, hashes@), ("limit"@, decimal_int(limit as int))]);
        self.call(form_request(self.url("/api/v2/torrents/setDownloadLimit"), f), "Failed to set torrent download limit")
    }

    /// Sets the upload limit of torrents.
    pub fn set_torrent_upload_limit(&self, hashes: &str, limit: i64) -> (r: ApiCall)
        ensures
            plain_call(r, form_of(api_base(self.base_url@) + "/api/v2/torrents/setUploadLimit"@, seq![("hashes"@, hashes@), ("limit"@, decimal_int(limit as int))]), "Failed to set torrent upload limit"@),
    {
        let mut f: Vec<(String, String)> = Vec::new();
        f.push(field_owned("hashes", owned(hashes)));
        f.push(field_owned("limit", i64_text(limit)));
        assert(pairs_view(f@) =~= seq![("hashes"@, hashes@), ("limit"@, decimal_int(limit as int))]);
        self.call(form_request(self.url("/api/v2/torrents/setUploadLimit"), f), "Failed to set torrent upload limit")
    }

    /// The changes since response `rid` of the sync API.
    pub fn get_main_data(&self, rid: i64) -> (r: ApiCall)
        ensures
            plain_call(r, get_of(api_base(self.base_url@) + "/api/v2/sync/maindata?rid="@ + decimal_int(rid as int)), "Failed to get main data"@),
    {
        let v = i64_text(rid);
        self.call(get_request(cat(self.url("/api/v2/sync/maindata?rid=").as_str(), v.as_str())), "Failed to get main data")
    }

    /// Toggles sequential download of torrents.
    pub fn toggle_sequential_download(&self, hashes: &str) -> (r: ApiCall)
        ensures
            plain_call(r, form_of(api_base(self.base_url@) + "/api/v2/torrents/toggleSequentialDownload"@, seq![("hashes"@, hashes@)]), "Failed to toggle sequential download"@),
    {
        let mut f: Vec<(String, String)> = Vec::new();
        f.push(field_owned("hashes", owned(hashes)));
        assert(pairs_view(f@) =~= seq![("hashes"@, hashes@)]);
        self.call(form_request(self.url("/api/v2/torrents/toggleSequentialDownload"), f), "Failed to toggle sequential download")
    }

    /// Toggles first/last piece priority of torrents.
    pub fn toggle_first_last_piece_priority(&self, hashes: &str) -> (r: ApiCall)
        ensures
            plain_call(r, form_of(api_base(self.base_url@) + "/api/v2/torrents/toggleFirstLastPiecePrio"@, seq![("hashes"@, hashes@)]), "Failed to toggle first/last piece priority"@),
    {
        let mut f: Vec<(String, String)> = Vec::new();
        f.push(field_owned("hashes", owned(hashes)));
        assert(pairs_view(f@) =~= seq![("hashes"@, hashes@)]);
        self.call(form_request(self.url("/api/v2/torrents/toggleFirstLastPiecePrio"), f), "Failed to toggle first/last piece priority")
    }

    /// Sets force start of torrents.
    pub fn set_force_start(&self, hashes: &str, value: bool) -> (r: ApiCall)
        ensures
            plain_call(r, form_of(api_base(self.base_url@) + "/api/v2/torrents/setForceStart"@, seq![("hashes"@, hashes@), ("value"@, bool_word(value))]), "Failed to set force start"@),
    {
        let mut f: Vec<(String, String)> = Vec::new();
        f.push(field_owned("hashes", owned(hashes)));
        f.push(field_owned("value", bool_text(value)));
        assert(pairs_view(f@) =~= seq![("hashes"@, hashes@), ("value"@, bool_word(value))]);
        self.call(form_request(self.url("/api/v2/torrents/setForceStart"), f), "Failed to set force start")
    }

    /// Sets super seeding of torrents.
    pub fn set_super_seeding(&self, hashes: &str, value: bool) -> (r: ApiCall)
        ensures
            plain_call(r, form_of(api_base(self.base_url@) + "/api/v2/torrents/setSuperSeeding"@, seq![("hashes"@, hashes@), ("value"@, bool_word(value))]), "Failed to set super seeding"@),
    {
        let mut f: Vec<(String, String)> = Vec::new();
        f.push(field_owned("hashes", owned(hashes)));
        f.push(field_owned("value", bool_text(value)));
        assert(pairs_view(f@) =~= seq![("hashes"@, hashes@), ("value"@, bool_word(value))]);
        self.call(form_request(self.url("/api/v2/torrents/setSuperSeeding"), f), "Failed to set super seeding")
    }

    /// Adds trackers (newline-separated) to torrents.
    pub fn add_trackers(&self, hashes: &str, urls: &str) -> (r: ApiCall)
        ensures
            plain_call(r, form_of(api_base(self.base_url@) + "/api/v2/torrents/addTrackers"@, seq![("hashes"@, hashes@), ("urls"@, urls@)]), "Failed to add trackers"@),
    {
        let mut f: Vec<(String, String)> = Vec::new();
        f.push(field_owned("hashes", owned(hashes)));
        f.push(field_owned("urls", owned(urls)));
        assert(pairs_view(f@) =~= seq![("hashes"@, hashes@), ("urls"@, urls@)]);
        self.call(form_request(self.url("/api/v2/torrents/addTrackers"), f), "Failed to add trackers")
    }

    /// Replaces a tracker URL of a torrent.
    pub fn edit_tracker(&self, hash: &str, orig_url: &str, new_url: &str) -> (r: ApiCall)
        ensures
            plain_call(r, form_of(api_base(self.base_url@) + "/api/v2/torrents/editTracker"@, seq![("hash"@, hash@), ("origUrl"@, orig_url@), ("newUrl"@, new_url@)]), "Failed to edit tracker"@),
    {
        let mut f: Vec<(String, String)> = Vec::new();
        f.push(field_owned("hash", owned(hash)));
        f.push(field_owned("origUrl", owned(orig_url)));
        f.push(field_owned("newUrl", owned(new_url)));
        assert(pairs_view(f@) =~= seq![("hash"@, hash@), ("origUrl"@, orig_url@), ("newUrl"@, new_url@)]);
        self.call(form_request(self.url("/api/v2/torrents/editTracker"), f), "Failed to edit tracker")
    }

    /// Removes trackers from torrents.
    pub fn remove_trackers(&self, hashes: &str, urls: &str) -> (r: ApiCall)
        ensures
            plain_call(r, form_of(api_base(self.base_url@) + "/api/v2/torrents/removeTrackers"@, seq![("hashes"@, hashes@), ("urls"@, urls@)]), "Failed to remove trackers"@),
    {
        let mut f: Vec<(String, String)> = Vec::new();
        f.push(field_owned("hashes", owned(hashes)));
        f.push(field_owned("urls", owned(urls)));
        assert(pairs_view(f@) =~= seq![("hashes"@, hashes@), ("urls"@, urls@)]);
        self.call(form_request(self.url("/api/v2/torrents/removeTrackers"), f), "Failed to remove trackers")
    }

    /// Renames a folder of a torrent.
    pub fn rename_folder(&self, hash: &str, old_path: &str, new_path: &str) -> (r: ApiCall)
        ensures
            plain_call(r, form_of(api_base(self.base_url@) + "/api/v2/torrents/renameFolder"@, seq![("hash"@, hash@), ("oldPath"@, old_path@), ("newPath"@, new_path@)]), "Failed to rename folder"@),
    {
        let mut f: Vec<(String, String)> = Vec::new();
        f.push(field_owned("hash", owned(hash)));
        f.push(field_owned("oldPath", owned(old_path)));
        f.push(field_owned("newPath", owned(new_path)));
        assert(pairs_view(f@) =~= seq![("hash"@, hash@), ("oldPath"@, old_path@), ("newPath"@, new_path@)]);
        self.call(form_request(self.url("/api/v2/torrents/renameFolder"), f), "Failed to rename folder")
    }

    /// Sets the priority of files (ids pipe-separated) of a torrent.
    pub fn set_file_priority(&self, hash: &str, id: &str, priority: i32) -> (r: ApiCall)
        ensures
            plain_call(r, form_of(api_base(self.base_url@) + "/api/v2/torrents/setFilePrio"@, seq![("hash"@, hash@), ("id"@, id@), ("priority"@, decimal_int(priority as int))]), "Failed to set file priority"@),
    {
        let mut f: Vec<(String, String)> = Vec::new();
        f.push(field_owned("hash", owned(hash)));
        f.push(field_owned("id", owned(id)));
        f.push(field_owned("priority", i64_text(priority as i64)));
        assert(pairs_view(f@) =~= seq![("hash"@, hash@), ("id"@, id@), ("priority"@, decimal_int(priority as int))]);
        self.call(form_request(self.url("/api/v2/torrents/setFilePrio"), f), "Failed to set file priority")
    }

    /// Removes categories (newline-separated).
    pub fn remove_categories(&self, categories: &str) -> (r: ApiCall)
        ensures
            plain_call(r, form_of(api_base(self.base_url@) + "/api/v2/torrents/removeCategories"@, seq![("categories"@, categories@)]), "Failed to remove categories"@),
    {
        let mut f: Vec<(String, String)> = Vec::new();
        f.push(field_owned("categories", owned(categories)));
        assert(pairs_view(f@) =~= seq![("categories"@, categories@)]);
        self.call(form_request(self.url("/api/v2/torrents/removeCategories"), f), "Failed to remove categories")
    }

    /// Removes tags from torrents.
    pub fn remove_tags(&self, hashes: &str, tags: &str) -> (r: ApiCall)
        ensures
            plain_call(r, form_of(api_base(self.base_url@) + "/api/v2/torrents/removeTags"@, seq![("hashes"@, hashes@), ("tags"@, tags@)]), "Failed to remove tags"@),
    {
        let mut f: Vec<(String, String)> = Vec::new();
        f.push(field_owned("hashes", owned(hashes)));
        f.push(field_owned("tags", owned(tags)));
        assert(pairs_view(f@) =~= seq![("hashes"@, hashes@), ("tags"@, tags@)]);
        self.call(form_request(self.url("/api/v2/torrents/removeTags"), f), "Failed to remove tags")
    }

    /// Creates tags (comma-separated).
    pub fn create_tags(&self, tags: &str) -> (r: ApiCall)
        ensures
            plain_call(r, form_of(api_base(self.base_url@) + "/api/v2/torrents/createTags"@, seq![("tags"@, tags@)]), "Failed to create tags"@),
    {
        let mut f: Vec<(String, String)> = Vec::new();
        f.push(field_owned("tags", owned(tags)));
        assert(pairs_view(f@) =~= seq![("tags"@, tags@)]);
        self.call(form_request(self.url("/api/v2/torrents/createTags"), f), "Failed to create tags")
    }

    /// Deletes tags (comma-separated).
    pub fn delete_tags(&self, tags: &str) -> (r: ApiCall)
        ensures
            plain_call(r, form_of(api_base(self.base_url@) + "/api/v2/torrents/deleteTags"@, seq![("tags"@, tags@)]), "Failed to delete tags"@),
    {
        let mut f: Vec<(String, String)> = Vec::new();
        f.push(field_owned("tags", owned(tags)));
        assert(pairs_view(f@) =~= seq![("tags"@, tags@)]);
        self.call(form_request(self.url("/api/v2/torrents/deleteTags"), f), "Failed to delete tags")
    }

    /// Moves an RSS item.
    pub fn move_rss_item(&self, item_path: &str, dest_path: &str) -> (r: ApiCall)
        ensures
            plain_call(r, form_of(api_base(self.base_url@) + "/api/v2/rss/moveItem"@, seq![("itemPath"@, item_path@), ("destPath"@, dest_path@)]), "Failed to move RSS item"@),
    {
        let mut f: Vec<(String, String)> = Vec::new();
        f.push(field_owned("itemPath", owned(item_path)));
        f.push(field_owned("destPath", owned(dest_path)));
        assert(pairs_view(f@) =~= seq![("itemPath"@, item_path@), ("destPath"@, dest_path@)]);
        self.call(form_request(self.url("/api/v2/rss/moveItem"), f), "Failed to move RSS item")
    }
}

} // verus!
